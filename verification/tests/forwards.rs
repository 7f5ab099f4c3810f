use headmaster::forwards::{
    build_expose_serve_json, build_tcp_serve_json, collect_expose_tcp_ports, collect_tcp_forwards,
};
use headmaster::objects::{IntOrString, ObjectMeta, Service, ServicePort, ServiceSpec};

fn external_name_service() -> Service {
    Service {
        metadata: ObjectMeta {
            name: Some("ext-db".to_string()),
            namespace: Some("apps".to_string()),
            uid: Some("00000000-0000-0000-0000-000000000002".to_string()),
            ..Default::default()
        },
        spec: Some(ServiceSpec {
            type_: Some("ExternalName".to_string()),
            external_name: Some("db.example.net".to_string()),
            ports: Some(vec![ServicePort { port: 5432, ..Default::default() }]),
            ..Default::default()
        }),
    }
}

fn expose_service(ports: Vec<ServicePort>) -> Service {
    Service {
        metadata: ObjectMeta {
            name: Some("my-app".to_string()),
            namespace: Some("default".to_string()),
            ..Default::default()
        },
        spec: Some(ServiceSpec {
            cluster_ip: Some("10.43.0.15".to_string()),
            ports: Some(ports),
            ..Default::default()
        }),
    }
}

#[test]
fn tcp_serve_json_forwards_each_port() {
    let json = build_tcp_serve_json("db.example.net", &[(5432, 5432), (6432, 16432)]);
    assert_eq!(json["TCP"]["5432"]["TCPForward"], "db.example.net:5432");
    assert_eq!(json["TCP"]["6432"]["TCPForward"], "db.example.net:16432");
    assert!(
        json.get("Web").is_none(),
        "raw TCP forwards must not carry a Web section"
    );
}

#[test]
fn collect_forwards_defaults_backend_to_port() {
    let svc = external_name_service();
    assert_eq!(collect_tcp_forwards(&svc), vec![(5432, 5432)]);
}

#[test]
fn collect_forwards_honors_integer_target_port() {
    let mut svc = external_name_service();
    svc.spec.as_mut().unwrap().ports = Some(vec![ServicePort {
        port: 443,
        target_port: Some(IntOrString::Int(8443)),
        ..Default::default()
    }]);
    assert_eq!(collect_tcp_forwards(&svc), vec![(443, 8443)]);
}

#[test]
fn collect_forwards_ignores_named_target_port() {
    let mut svc = external_name_service();
    svc.spec.as_mut().unwrap().ports = Some(vec![ServicePort {
        port: 443,
        target_port: Some(IntOrString::String("https".to_string())),
        ..Default::default()
    }]);
    assert_eq!(
        collect_tcp_forwards(&svc),
        vec![(443, 443)],
        "named targetPort is meaningless for an external host; use port"
    );
}

#[test]
fn collect_forwards_skips_udp_ports() {
    let mut svc = external_name_service();
    svc.spec.as_mut().unwrap().ports = Some(vec![
        ServicePort { port: 53, protocol: Some("UDP".to_string()), ..Default::default() },
        ServicePort { port: 853, protocol: Some("TCP".to_string()), ..Default::default() },
    ]);
    assert_eq!(collect_tcp_forwards(&svc), vec![(853, 853)]);
}

#[test]
fn expose_serve_json_one_tcp_forward_per_port() {
    let json = build_expose_serve_json("my-app.default.svc.cluster.local", &[443, 8080]);
    let expected: serde_json::Value = serde_json::from_str(
        r#"{
            "TCP": {
                "443": {"TCPForward": "my-app.default.svc.cluster.local:443"},
                "8080": {"TCPForward": "my-app.default.svc.cluster.local:8080"}
            }
        }"#,
    )
    .unwrap();
    assert_eq!(json, expected);
}

#[test]
fn collect_expose_ports_skips_udp() {
    let svc = expose_service(vec![
        ServicePort { port: 53, protocol: Some("UDP".to_string()), ..Default::default() },
        ServicePort { port: 853, protocol: Some("TCP".to_string()), ..Default::default() },
    ]);
    assert_eq!(collect_expose_tcp_ports(&svc), vec![853]);
}

#[test]
fn collect_expose_ports_ignores_target_port() {
    let svc = expose_service(vec![ServicePort {
        port: 443,
        target_port: Some(IntOrString::Int(8443)),
        ..Default::default()
    }]);
    assert_eq!(collect_expose_tcp_ports(&svc), vec![443]);
}

#[test]
fn services_without_ports_have_no_forwards() {
    let mut svc = external_name_service();
    svc.spec.as_mut().unwrap().ports = None;
    assert!(collect_tcp_forwards(&svc).is_empty());
    svc.spec = None;
    assert!(collect_tcp_forwards(&svc).is_empty());
    assert!(collect_expose_tcp_ports(&svc).is_empty());
}

#[test]
fn last_declaration_of_a_port_holds() {
    let json = build_tcp_serve_json("h", &[(80, 1), (443, 2), (80, 3)]);
    assert_eq!(
        serde_json::to_string(&json).unwrap(),
        r#"{"TCP":{"80":{"TCPForward":"h:3"},"443":{"TCPForward":"h:2"}}}"#
    );
    assert!(json["TCP"].get("8080").is_none());
}
