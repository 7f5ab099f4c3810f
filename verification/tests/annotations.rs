use headmaster::annotations::{
    is_targeted, AnnotationError, EgressConsumer, IngressAccessGrant, IngressAnnotations,
    ProxyMode, ANNOTATION_CONFIG, DEFAULT_AUTH_KEY_EXPIRY_SECS,
};
use headmaster::context::{Context, TunDeviceAccess};
use headmaster::objects::{Ingress, ObjectMeta};
use headmaster::textmap::TextMap;

fn ingress_with_annotation(json: &str) -> Ingress {
    Ingress {
        metadata: ObjectMeta {
            name: Some("test".to_string()),
            namespace: Some("default".to_string()),
            annotations: Some(TextMap::with(ANNOTATION_CONFIG, json.to_string())),
            ..Default::default()
        },
        ..Default::default()
    }
}

/// An Ingress with a user and tags, and what its annotation decodes to.
fn make_test_ingress(
    user: Option<&str>,
    tags: Option<&[&str]>,
) -> (Ingress, IngressAnnotations) {
    let mut config = serde_json::Map::new();
    config.insert("headscale-ref".to_string(), serde_json::Value::from("headscale"));
    let mut decoded = IngressAnnotations::minimal("headscale".to_string());
    if let Some(u) = user {
        config.insert("user".to_string(), serde_json::Value::from(u));
        decoded.user = Some(u.to_string());
    }
    if let Some(t) = tags {
        config.insert("managed-key-tags".to_string(), serde_json::Value::from(t.to_vec()));
        decoded.managed_key_tags = t.iter().map(|tag| tag.to_string()).collect();
    }
    (ingress_with_annotation(&serde_json::Value::Object(config).to_string()), decoded)
}

/// An Ingress of the user alice with `extra` members, and what its annotation
/// decodes to without them.
fn ingress_with_config(extra: &str) -> (Ingress, IngressAnnotations) {
    let mut decoded = IngressAnnotations::minimal("main".to_string());
    decoded.user = Some("alice".to_string());
    let json = format!(r#"{{"headscale-ref":"main","user":"alice"{extra}}}"#);
    (ingress_with_annotation(&json), decoded)
}

fn context(operator_namespace: &str, claim_default: bool) -> Context {
    Context {
        operator_namespace: operator_namespace.to_string(),
        headscale_image: String::new(),
        proxy_image: String::new(),
        socat_image: String::new(),
        tun_device: TunDeviceAccess::Privileged,
        egress_dns_coredns_custom: false,
        operator_image: String::new(),
        claim_default,
    }
}

#[test]
fn annotation_parse_rejects_neither_user_nor_tags() {
    let (ing, decoded) = make_test_ingress(None, None);
    assert!(
        matches!(
            IngressAnnotations::parse(&ing, Ok(decoded)),
            Err(AnnotationError::InvalidAnnotations(_))
        ),
        "parse must fail when neither user nor managed-key-tags is set"
    );
}

#[test]
fn annotation_parse_accepts_tags_without_user() {
    let (ing, decoded) = make_test_ingress(None, Some(&["tag:server"]));
    let parsed = IngressAnnotations::parse(&ing, Ok(decoded)).expect("tags-only must be valid");
    assert!(parsed.user.is_none());
    assert_eq!(parsed.managed_key_tags, vec!["tag:server"]);
}

#[test]
fn annotation_parse_accepts_user_without_tags() {
    let (ing, decoded) = make_test_ingress(Some("alice"), None);
    let parsed = IngressAnnotations::parse(&ing, Ok(decoded)).expect("user-only must be valid");
    assert_eq!(parsed.user.as_deref(), Some("alice"));
    assert!(parsed.managed_key_tags.is_empty());
}

#[test]
fn annotation_parse_accepts_user_and_tags() {
    let (ing, decoded) = make_test_ingress(Some("alice"), Some(&["tag:server"]));
    let parsed = IngressAnnotations::parse(&ing, Ok(decoded)).expect("user+tags must be valid");
    assert_eq!(parsed.user.as_deref(), Some("alice"));
    assert_eq!(parsed.managed_key_tags, vec!["tag:server"]);
}

#[test]
fn annotation_parse_valid_expiry_is_respected() {
    let (ingress, mut decoded) = ingress_with_config(r#","auth-key-expiry-secs":3600"#);
    decoded.auth_key_expiry_secs = 3600;
    let parsed =
        IngressAnnotations::parse(&ingress, Ok(decoded)).expect("must parse with valid expiry");
    assert_eq!(parsed.auth_key_expiry_secs, 3600);
}

#[test]
fn annotation_parse_defaults_expiry_when_absent() {
    let (ingress, decoded) = ingress_with_config("");
    let parsed =
        IngressAnnotations::parse(&ingress, Ok(decoded)).expect("must parse without expiry");
    assert_eq!(parsed.auth_key_expiry_secs, DEFAULT_AUTH_KEY_EXPIRY_SECS);
    assert_eq!(parsed.auth_key_expiry_secs, 600);
}

#[test]
fn annotation_parse_host_network_defaults_false_when_absent() {
    let (ingress, decoded) = ingress_with_config("");
    let parsed =
        IngressAnnotations::parse(&ingress, Ok(decoded)).expect("must parse without host-network");
    assert!(
        !parsed.host_network,
        "host-network must default to false when the field is omitted"
    );
}

#[test]
fn annotation_parse_host_network_true_is_respected() {
    let (ingress, mut decoded) = ingress_with_config(r#","host-network":true"#);
    decoded.host_network = true;
    let parsed =
        IngressAnnotations::parse(&ingress, Ok(decoded)).expect("must parse with host-network");
    assert!(parsed.host_network);
}

#[test]
fn annotation_parse_consumers_default_empty() {
    let (ingress, decoded) = ingress_with_config("");
    let parsed = IngressAnnotations::parse(&ingress, Ok(decoded)).expect("must parse");
    assert!(parsed.consumers.is_empty());
}

#[test]
fn annotation_parse_consumers_entries() {
    let (ingress, mut decoded) = ingress_with_config(
        r#","consumers":[{"namespace":"media","pods":{"app":"sonarr"}},{"namespace":"media"}]"#,
    );
    decoded.consumers = vec![
        EgressConsumer {
            namespace: "media".to_string(),
            pods: Some(TextMap::with("app", "sonarr".to_string())),
        },
        EgressConsumer { namespace: "media".to_string(), pods: None },
    ];
    let parsed = IngressAnnotations::parse(&ingress, Ok(decoded)).expect("must parse");
    assert_eq!(parsed.consumers.len(), 2);
    assert_eq!(parsed.consumers[0].namespace, "media");
    assert_eq!(parsed.consumers[0].pods.as_ref().unwrap().get("app").unwrap(), "sonarr");
    assert!(parsed.consumers[1].pods.is_none(), "namespace-wide entry");
}

#[test]
fn annotation_parse_mode_defaults_to_tsnet_when_absent() {
    let (ingress, decoded) = ingress_with_config("");
    let parsed = IngressAnnotations::parse(&ingress, Ok(decoded)).expect("must parse without mode");
    assert_eq!(
        parsed.mode,
        ProxyMode::Tsnet,
        "mode must default to tsnet when the field is omitted"
    );
    assert_eq!(ProxyMode::default(), ProxyMode::Tsnet);
}

#[test]
fn annotation_parse_mode_tun_is_respected() {
    let (ingress, mut decoded) = ingress_with_config(r#","mode":"tun""#);
    decoded.mode = ProxyMode::Tun;
    let parsed = IngressAnnotations::parse(&ingress, Ok(decoded)).expect("must parse with mode tun");
    assert_eq!(parsed.mode, ProxyMode::Tun);
}

#[test]
fn annotation_parse_access_empty_by_default() {
    let (ing, decoded) = make_test_ingress(Some("alice"), None);
    let parsed = IngressAnnotations::parse(&ing, Ok(decoded)).expect("must parse");
    assert!(parsed.access.is_empty(), "access must default to empty");
}

#[test]
fn annotation_parse_access_plain_grant() {
    let (ingress, mut decoded) = ingress_with_config(r#","access":[{"from":["group:eng"]}]"#);
    decoded.access =
        vec![IngressAccessGrant { from: vec!["group:eng".to_string()], capabilities: None }];
    let parsed = IngressAnnotations::parse(&ingress, Ok(decoded)).expect("must parse");
    assert_eq!(parsed.access.len(), 1);
    assert_eq!(parsed.access[0].from, vec!["group:eng"]);
    assert!(
        parsed.access[0].capabilities.is_none(),
        "capabilities must be None when absent"
    );
}

#[test]
fn annotation_parse_access_capability_grant() {
    let (ingress, mut decoded) = ingress_with_config(
        r#","access":[{"from":["group:eng","alice@example.com"],"capabilities":{"myapp/cap/admin":[{"role":"admin"}]}}]"#,
    );
    let role: serde_json::Value = serde_json::from_str(r#"{"role":"admin"}"#).unwrap();
    decoded.access = vec![IngressAccessGrant {
        from: vec!["group:eng".to_string(), "alice@example.com".to_string()],
        capabilities: Some(TextMap::with("myapp/cap/admin", vec![role])),
    }];
    let parsed = IngressAnnotations::parse(&ingress, Ok(decoded)).expect("must parse");
    assert_eq!(parsed.access.len(), 1);
    assert_eq!(parsed.access[0].from.len(), 2);
    let caps = parsed.access[0].capabilities.as_ref().expect("capabilities must be Some");
    assert!(caps.contains_key("myapp/cap/admin"));
}

#[test]
fn headscale_ref_extracts_from_config() {
    let (ing, _) = make_test_ingress(Some("alice"), None);
    assert_eq!(IngressAnnotations::headscale_ref(&ing).as_deref(), Some("headscale"));
}

#[test]
fn headscale_namespace_extracts_from_config() {
    let (ingress, _) = ingress_with_config(r#","headscale-namespace":"infra-prod""#);
    assert_eq!(
        IngressAnnotations::headscale_namespace(&ingress).as_deref(),
        Some("infra-prod")
    );
}

#[test]
fn headscale_namespace_absent_returns_none() {
    let (ing, _) = make_test_ingress(Some("alice"), None);
    assert!(IngressAnnotations::headscale_namespace(&ing).is_none());
}

#[test]
fn members_are_read_from_any_object_but_only_as_text() {
    let loose = ingress_with_annotation(r#"{"headscale-ref":"a","unknown":1,"headscale-ref":"b"}"#);
    assert_eq!(IngressAnnotations::headscale_ref(&loose).as_deref(), Some("b"));
    for json in ["", "{", "[]", "\"x\"", "null", r#"{"headscale-ref":1}"#, "{}"] {
        assert!(IngressAnnotations::headscale_ref(&ingress_with_annotation(json)).is_none(), "{json}");
    }
    assert!(IngressAnnotations::headscale_ref(&Ingress::default()).is_none());
}

#[test]
fn missing_annotation_is_reported_by_name() {
    let decoded = IngressAnnotations::minimal("main".to_string());
    let error = IngressAnnotations::parse(&Ingress::default(), Ok(decoded)).unwrap_err();
    assert_eq!(error, AnnotationError::Missing(ANNOTATION_CONFIG));
    assert_eq!(
        error.message(),
        "required annotation 'headmaster.potatonode.github.io/config' is missing"
    );
}

#[test]
fn undecodable_annotation_is_reported_with_the_problem() {
    let ing = ingress_with_annotation("{");
    let error = IngressAnnotations::parse(&ing, Err("EOF".to_string())).unwrap_err();
    assert_eq!(error, AnnotationError::Invalid(ANNOTATION_CONFIG, "EOF".to_string()));
    assert_eq!(
        error.message(),
        "invalid annotation 'headmaster.potatonode.github.io/config': EOF"
    );
    assert_eq!(
        AnnotationError::InvalidAnnotations("x").clone().message(),
        "invalid annotations: x"
    );
}

#[test]
fn hostname_defaults_to_the_name_of_the_object() {
    let (ing, decoded) = make_test_ingress(Some("alice"), None);
    assert_eq!(IngressAnnotations::parse(&ing, Ok(decoded)).unwrap().hostname, "test");
    let (ing, mut decoded) = make_test_ingress(Some("alice"), None);
    decoded.hostname = "given".to_string();
    assert_eq!(IngressAnnotations::parse(&ing, Ok(decoded)).unwrap().hostname, "given");
    let (mut ing, decoded) = make_test_ingress(Some("alice"), None);
    ing.metadata.name = None;
    ing.metadata.generate_name = Some("test-".to_string());
    assert_eq!(IngressAnnotations::parse(&ing, Ok(decoded)).unwrap().hostname, "test-");
}

#[test]
fn objects_are_meant_for_the_named_or_the_default_deployment() {
    let (named, _) = ingress_with_config(r#","headscale-namespace":"infra""#);
    let (unnamed, _) = ingress_with_config("");
    assert!(is_targeted(&named, &context("infra", false)));
    assert!(!is_targeted(&named, &context("other", true)));
    assert!(is_targeted(&unnamed, &context("other", true)));
    assert!(!is_targeted(&unnamed, &context("other", false)));
}

#[test]
fn cheap_readers_agree_with_the_parser() {
    for (namespace, json) in [
        (None, r#"{"headscale-ref":"main","user":"alice"}"#),
        (None, r#"{"headscale-ref":"main","user":"alice","headscale-namespace":null}"#),
        (Some("ops"), r#"{"headscale-namespace":"ops","user":"alice","headscale-ref":"main"}"#),
    ] {
        let ing = ingress_with_annotation(json);
        let mut decoded = IngressAnnotations::minimal("main".to_string());
        decoded.user = Some("alice".to_string());
        decoded.headscale_namespace = namespace.map(str::to_string);
        let parsed = IngressAnnotations::parse(&ing, Ok(decoded)).unwrap();
        assert_eq!(IngressAnnotations::headscale_ref(&ing), Some(parsed.headscale_ref));
        assert_eq!(IngressAnnotations::headscale_namespace(&ing), parsed.headscale_namespace);
    }
}
