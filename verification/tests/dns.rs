use headmaster::annotations::{AnnotationError, IngressAnnotations, ANNOTATION_CONFIG};
use headmaster::context::{Context, TunDeviceAccess};
use headmaster::dns::{
    build_override, collect_rewrites, duplicate_warning, is_egress_shape, is_external_name,
    sync_egress_dns, Duplicate, EgressService, OVERRIDE_KEY,
};
use headmaster::names::ProxyNames;
use headmaster::objects::{ObjectMeta, Service, ServiceSpec};
use headmaster::textmap::TextMap;

fn egress_svc(ns: &str, name: &str, fqdn: &str) -> EgressService {
    let mut annotations = IngressAnnotations::minimal("main".to_string());
    annotations.user = Some("alice".to_string());
    annotations.tailnet_fqdn = Some(fqdn.to_string());
    let json = format!(r#"{{"headscale-ref":"main","user":"alice","tailnet-fqdn":"{fqdn}"}}"#);
    let service = Service {
        metadata: ObjectMeta {
            name: Some(name.to_string()),
            namespace: Some(ns.to_string()),
            annotations: Some(TextMap::with(ANNOTATION_CONFIG, json)),
            ..Default::default()
        },
        spec: Some(ServiceSpec {
            type_: Some("ExternalName".to_string()),
            ..Default::default()
        }),
    };
    let annotations = IngressAnnotations::parse(&service, Ok(annotations));
    EgressService { service, annotations }
}

fn dns_test_ctx() -> Context {
    Context {
        operator_namespace: "default".to_string(),
        headscale_image: String::new(),
        proxy_image: String::new(),
        socat_image: String::new(),
        tun_device: TunDeviceAccess::Privileged,
        egress_dns_coredns_custom: true,
        operator_image: String::new(),
        claim_default: true,
    }
}

#[test]
fn rewrites_sorted_and_target_the_proxy_service() {
    let ctx = dns_test_ctx();
    let services = vec![
        egress_svc("media", "qbittorrent", "qbittorrent.ts.example.com"),
        egress_svc("apps", "nas", "nas.ts.example.com"),
    ];
    let (rewrites, dups) = collect_rewrites(&services, &ctx);
    assert!(dups.is_empty());
    assert_eq!(rewrites.len(), 2);
    assert_eq!(rewrites[0].0, "nas.ts.example.com", "must be FQDN-sorted");
    let names = ProxyNames::for_service("media", "qbittorrent");
    assert_eq!(
        rewrites[1].1,
        format!("{}.default.svc.cluster.local", names.wg_service_name),
        "rewrite must target the proxy ClusterIP Service directly"
    );
}

#[test]
fn duplicate_fqdn_first_by_ns_name_wins() {
    let ctx = dns_test_ctx();
    let services = vec![
        egress_svc("zzz", "late", "qbittorrent.ts.example.com"),
        egress_svc("media", "qbittorrent", "qbittorrent.ts.example.com"),
    ];
    let (rewrites, dups) = collect_rewrites(&services, &ctx);
    assert_eq!(rewrites.len(), 1);
    let names = ProxyNames::for_service("media", "qbittorrent");
    assert!(
        rewrites[0].1.starts_with(&names.wg_service_name),
        "(media, qbittorrent) sorts before (zzz, late) and must win"
    );
    assert_eq!(dups.len(), 1);
    assert_eq!(dups[0].winner_ns, "media");
    assert_eq!(dups[0].winner_name, "qbittorrent");
    assert_eq!(dups[0].service, 0);
}

#[test]
fn deleting_and_foreign_services_are_excluded() {
    let ctx = dns_test_ctx();
    let mut deleting = egress_svc("media", "gone", "gone.ts.example.com");
    deleting.service.metadata.deletion_timestamp = Some(1767225600);
    let mut foreign = egress_svc("media", "other", "other.ts.example.com");
    foreign.service.metadata.annotations.as_mut().unwrap().insert(
        ANNOTATION_CONFIG.to_string(),
        r#"{"headscale-ref":"main","user":"alice","tailnet-fqdn":"other.ts.example.com","headscale-namespace":"elsewhere"}"#.to_string(),
    );
    let services = vec![deleting, foreign];
    let (rewrites, dups) = collect_rewrites(&services, &ctx);
    assert!(
        rewrites.is_empty(),
        "deleting + foreign must both be excluded"
    );
    assert!(dups.is_empty());
}

#[test]
fn override_format_is_one_rewrite_per_line() {
    let rewrites = vec![
        (
            "a.ts.example.com".to_string(),
            "svc-a.ns.svc.cluster.local".to_string(),
        ),
        (
            "b.ts.example.com".to_string(),
            "svc-b.ns.svc.cluster.local".to_string(),
        ),
    ];
    assert_eq!(
        build_override(&rewrites),
        "rewrite name a.ts.example.com svc-a.ns.svc.cluster.local\n\
         rewrite name b.ts.example.com svc-b.ns.svc.cluster.local\n"
    );
}

#[test]
fn services_of_another_shape_or_without_a_name_take_no_part() {
    let ctx = dns_test_ctx();
    let mut cluster_ip = egress_svc("a", "one", "one.ts.example.com");
    cluster_ip.service.spec.as_mut().unwrap().type_ = Some("ClusterIP".to_string());
    assert!(!is_external_name(&cluster_ip.service));
    let mut invalid = egress_svc("a", "two", "two.ts.example.com");
    invalid.annotations = Err(AnnotationError::Missing(ANNOTATION_CONFIG));
    let empty = egress_svc("a", "three", "");
    assert!(is_egress_shape(&empty.service));
    let mut bare = egress_svc("a", "four", "four.ts.example.com");
    bare.service.metadata.annotations = None;
    assert!(!is_egress_shape(&bare.service));
    let (rewrites, dups) = collect_rewrites(&vec![cluster_ip, invalid, empty, bare], &ctx);
    assert!(rewrites.is_empty());
    assert!(dups.is_empty());
}

#[test]
fn all_but_the_first_claim_are_reported() {
    let ctx = dns_test_ctx();
    let services = vec![
        egress_svc("b", "x", "n.ts"),
        egress_svc("a", "y", "n.ts"),
        egress_svc("a", "x", "n.ts"),
        egress_svc("a", "z", "m.ts"),
    ];
    let (rewrites, dups) = collect_rewrites(&services, &ctx);
    let fqdns: Vec<&str> = rewrites.iter().map(|r| r.0.as_str()).collect();
    assert_eq!(fqdns, vec!["m.ts", "n.ts"]);
    let losers: Vec<usize> = dups.iter().map(|d| d.service).collect();
    assert_eq!(losers, vec![1, 0]);
    assert!(dups.iter().all(|d| d.winner_ns == "a" && d.winner_name == "x" && d.fqdn == "n.ts"));
}

#[test]
fn listing_order_does_not_matter() {
    let ctx = dns_test_ctx();
    let listed = |order: &[usize]| {
        let services: Vec<EgressService> = order
            .iter()
            .map(|i| match i {
                0 => egress_svc("b", "x", "one.ts"),
                1 => egress_svc("a", "y", "one.ts"),
                _ => egress_svc("c", "z", "two.ts"),
            })
            .collect();
        collect_rewrites(&services, &ctx).0
    };
    let first = listed(&[0, 1, 2]);
    assert_eq!(first.len(), 2);
    let winner = ProxyNames::for_service("a", "y");
    assert_eq!(first[0].1, format!("{}.default.svc.cluster.local", winner.wg_service_name));
    for order in [[0, 2, 1], [1, 0, 2], [1, 2, 0], [2, 0, 1], [2, 1, 0]] {
        assert_eq!(listed(&order), first);
    }
}

#[test]
fn config_map_holds_the_override_or_nothing() {
    let mut ctx = dns_test_ctx();
    let services = vec![egress_svc("apps", "nas", "nas.ts.example.com")];
    let plan = sync_egress_dns(&services, &ctx).unwrap();
    assert_eq!(plan.config_map.metadata.name.as_deref(), Some("coredns-custom"));
    assert_eq!(plan.config_map.metadata.namespace.as_deref(), Some("kube-system"));
    let names = ProxyNames::for_service("apps", "nas");
    assert_eq!(
        plan.config_map.data.unwrap().get(OVERRIDE_KEY).unwrap(),
        &format!(
            "rewrite name nas.ts.example.com {}.default.svc.cluster.local\n",
            names.wg_service_name
        )
    );
    let empty = sync_egress_dns(&vec![], &ctx).unwrap();
    assert!(empty.config_map.data.is_none());
    ctx.egress_dns_coredns_custom = false;
    assert!(sync_egress_dns(&services, &ctx).is_none());
}

#[test]
fn lost_claims_are_warned_about() {
    let warning = duplicate_warning(&Duplicate {
        service: 0,
        fqdn: "n.ts".to_string(),
        winner_ns: "a".to_string(),
        winner_name: "x".to_string(),
    });
    assert_eq!(warning.reason, "DuplicateTailnetFqdn");
    assert_eq!(
        warning.message,
        "tailnet-fqdn 'n.ts' is already rewritten to the egress proxy of Service 'a/x'; \
         a tailnet FQDN must be cluster-unique — this Service's egress works, but in-cluster \
         DNS resolves the name to the other proxy"
    );
}
