use headmaster::names::{
    ingress_auto_tag, proxy_state_secret_name, proxy_sts_name, service_auto_tag,
    service_proxy_state_secret_name, service_proxy_sts_name, ProxyNames,
};
use sha2::Digest;

#[test]
fn proxy_names_short() {
    let base = ProxyNames::new("default", "my-app").proxy_base;
    assert!(
        base.starts_with("default-my-app-"),
        "short name must appear as readable prefix: {base}"
    );
    assert_eq!(
        base.len(),
        "default-my-app-".len() + 8,
        "hash suffix must be exactly 8 hex chars"
    );
}

#[test]
fn proxy_names_collision_free() {
    let base1 = ProxyNames::new("a-b", "c").proxy_base;
    let base2 = ProxyNames::new("a", "b-c").proxy_base;
    assert_ne!(
        base1, base2,
        "colliding display names must produce distinct proxy_base"
    );
}

#[test]
fn proxy_names_over_limit() {
    let ns = "a".repeat(30);
    let name = "b".repeat(30);
    assert_eq!(ProxyNames::new(&ns, &name).proxy_base.len(), 49);
}

#[test]
fn proxy_names_over_limit_is_deterministic() {
    let ns = "a".repeat(30);
    let name = "b".repeat(30);
    assert_eq!(
        ProxyNames::new(&ns, &name).proxy_base,
        ProxyNames::new(&ns, &name).proxy_base,
    );
}

#[test]
fn ingress_auto_tag_format() {
    let tag = ingress_auto_tag("default", "my-app");
    assert!(
        tag.starts_with("tag:hm-default-my-app-"),
        "tag must start with readable prefix: {tag}"
    );
    assert_eq!(
        tag.len(),
        "tag:hm-default-my-app-".len() + 8,
        "hash suffix must be exactly 8 hex chars"
    );
}

#[test]
fn ingress_auto_tag_collision_free() {
    let tag1 = ingress_auto_tag("a-b", "c");
    let tag2 = ingress_auto_tag("a", "b-c");
    assert_ne!(tag1, tag2, "colliding display names must produce distinct tags");
}

#[test]
fn ingress_auto_tag_over_limit() {
    let ns = "a".repeat(30);
    let name = "b".repeat(30);
    assert_eq!(ingress_auto_tag(&ns, &name).len(), 7 + 40 + 1 + 8);
}

#[test]
fn service_names_never_collide_with_ingress_names() {
    let ing = ProxyNames::new("default", "my-app");
    let svc = ProxyNames::for_service("default", "my-app");
    assert_ne!(ing.proxy_base, svc.proxy_base);
    assert!(
        svc.proxy_base.starts_with("svc-default-my-app-"),
        "service proxy names must carry the svc prefix: {}",
        svc.proxy_base
    );
    assert_ne!(
        &ing.proxy_base[ing.proxy_base.len() - 8..],
        &svc.proxy_base[svc.proxy_base.len() - 8..],
        "hash inputs must be domain-separated, not just the display prefix"
    );
}

#[test]
fn service_names_are_deterministic() {
    assert_eq!(
        ProxyNames::for_service("default", "my-app").proxy_base,
        ProxyNames::for_service("default", "my-app").proxy_base,
    );
}

#[test]
fn ingress_names_unchanged_by_refactor() {
    let base = ProxyNames::new("default", "my-app").proxy_base;
    let expect_hash = &hex::encode(sha2::Sha256::digest("default\x00my-app".as_bytes()))[..8];
    assert_eq!(base, format!("default-my-app-{expect_hash}"));
}

#[test]
fn service_auto_tag_format() {
    let tag = service_auto_tag("default", "my-app");
    assert!(
        tag.starts_with("tag:hm-svc-default-my-app-"),
        "tag must start with readable svc prefix: {tag}"
    );
}

#[test]
fn service_names_digest_the_kind_and_both_parts() {
    let base = ProxyNames::for_service("default", "my-app").proxy_base;
    let hash = &hex::encode(sha2::Sha256::digest("svc\x00default\x00my-app".as_bytes()))[..8];
    assert_eq!(base, format!("svc-default-my-app-{hash}"));
}

#[test]
fn every_name_is_its_prefix_and_the_base() {
    let names = ProxyNames::for_service("apps", "db");
    let base = names.proxy_base.clone();
    assert_eq!(names.proxy_name, format!("proxy-{base}"));
    assert_eq!(names.wg_service_name, format!("proxy-wg-{base}"));
    assert_eq!(names.config_secret_name, format!("proxy-authkey-{base}"));
    assert_eq!(names.state_secret_name, format!("proxy-state-{base}"));
    assert_eq!(names.serve_configmap_name, format!("proxy-serve-{base}"));
    assert_eq!(service_proxy_sts_name("apps", "db"), names.proxy_name);
    assert_eq!(service_proxy_state_secret_name("apps", "db"), names.state_secret_name);
    let ingress = ProxyNames::new("apps", "db");
    assert_eq!(proxy_sts_name("apps", "db"), ingress.proxy_name);
    assert_eq!(proxy_state_secret_name("apps", "db"), ingress.state_secret_name);
}

#[test]
fn display_of_exactly_forty_bytes_is_kept_whole() {
    let name = "b".repeat(38);
    let base = ProxyNames::new("a", &name).proxy_base;
    assert!(base.starts_with(&format!("a-{name}-")));
    let longer = "b".repeat(39);
    let cut = ProxyNames::new("a", &longer).proxy_base;
    assert!(cut.starts_with(&format!("a-{}-", "b".repeat(38))));
}

#[test]
fn multi_byte_characters_are_not_split() {
    // 39 bytes of ASCII, then a two-byte character across the limit.
    let name = format!("{}é", "b".repeat(37));
    let base = ProxyNames::new("a", &name).proxy_base;
    assert!(base.starts_with(&format!("a-{}-", "b".repeat(37))));
    assert_eq!(base.len(), 39 + 1 + 8);
}

#[test]
fn names_end_in_the_first_four_bytes_of_the_digest() {
    let names = ProxyNames::from_digest(&vec![0x00, 0x9f, 0xa0, 0xff, 0x12], "ns-app");
    assert_eq!(names.proxy_base, "ns-app-009fa0ff");
    assert_eq!(names.proxy_name, "proxy-ns-app-009fa0ff");
    assert_eq!(names.wg_service_name, "proxy-wg-ns-app-009fa0ff");
    assert_eq!(names.config_secret_name, "proxy-authkey-ns-app-009fa0ff");
    assert_eq!(names.state_secret_name, "proxy-state-ns-app-009fa0ff");
    assert_eq!(names.serve_configmap_name, "proxy-serve-ns-app-009fa0ff");
}

#[test]
fn names_of_known_parents() {
    assert_eq!(ProxyNames::new("default", "my-app").proxy_base, "default-my-app-0d20eb66");
    assert_eq!(
        ProxyNames::for_service("default", "my-app").proxy_base,
        "svc-default-my-app-399e4d5f"
    );
}
