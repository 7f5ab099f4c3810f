use headmaster::error::KubeError;
use headmaster::objects::{
    HTTPIngressPath, HTTPIngressRuleValue, Ingress, IngressBackend, IngressRule,
    IngressServiceBackend, IngressSpec, ObjectMeta, Service, ServiceBackendPort, ServicePort,
    ServiceSpec,
};
use headmaster::serve::{
    build_serve_json, collect_ingress_routes, ingress_status_cleared, ingress_status_patch,
    named_port_lookups, resolve_service_port, NoPathRules, PortLookup, ProxyRoute,
};

fn route(path: &str, backend_url: &str) -> ProxyRoute {
    ProxyRoute { path: path.to_string(), backend_url: backend_url.to_string() }
}

fn parsed(s: &str) -> serde_json::Value {
    serde_json::from_str(s).unwrap()
}

fn not_found() -> KubeError {
    KubeError { api_code: Some(404), text: "not found".to_string() }
}

fn by_number(path: Option<&str>, service: &str, number: i32) -> HTTPIngressPath {
    HTTPIngressPath {
        path: path.map(|p| p.to_string()),
        path_type: "Prefix".to_string(),
        backend: IngressBackend {
            service: Some(IngressServiceBackend {
                name: service.to_string(),
                port: Some(ServiceBackendPort { number: Some(number), ..Default::default() }),
            }),
        },
    }
}

fn by_name(path: &str, service: &str, port_name: &str) -> HTTPIngressPath {
    HTTPIngressPath {
        path: Some(path.to_string()),
        path_type: "Prefix".to_string(),
        backend: IngressBackend {
            service: Some(IngressServiceBackend {
                name: service.to_string(),
                port: Some(ServiceBackendPort { name: Some(port_name.to_string()), number: None }),
            }),
        },
    }
}

fn ingress(rules: Option<Vec<IngressRule>>) -> Ingress {
    Ingress {
        metadata: ObjectMeta {
            name: Some("test".to_string()),
            namespace: Some("default".to_string()),
            ..Default::default()
        },
        spec: Some(IngressSpec { rules, ..Default::default() }),
    }
}

fn ingress_with_paths(paths: Vec<HTTPIngressPath>) -> Ingress {
    ingress(Some(vec![IngressRule {
        http: Some(HTTPIngressRuleValue { paths }),
        ..Default::default()
    }]))
}

fn service_with_named_http_port() -> Service {
    Service {
        metadata: ObjectMeta {
            name: Some("web".to_string()),
            namespace: Some("default".to_string()),
            resource_version: Some("1".to_string()),
            ..Default::default()
        },
        spec: Some(ServiceSpec {
            ports: Some(vec![ServicePort {
                name: Some("http".to_string()),
                port: 80,
                protocol: Some("TCP".to_string()),
                ..Default::default()
            }]),
            ..Default::default()
        }),
    }
}

#[test]
fn serve_json_single_route() {
    let routes = vec![route("/", "http://svc.ns.svc.cluster.local:80")];
    let json = build_serve_json("my-app.ts.example.com", &routes, &vec![]);
    let handlers = &json["Web"]["my-app.ts.example.com:80"]["Handlers"];
    assert_eq!(handlers["/"]["Proxy"], "http://svc.ns.svc.cluster.local:80");
}

#[test]
fn serve_json_longest_prefix_first() {
    let routes = vec![
        route("/auth/", "http://auth.ns.svc.cluster.local:8080"),
        route("/", "http://main.ns.svc.cluster.local:80"),
    ];
    let json = build_serve_json("my-app.ts.example.com", &routes, &vec![]);
    let handlers = &json["Web"]["my-app.ts.example.com:80"]["Handlers"];
    assert_eq!(handlers["/auth/"]["Proxy"], "http://auth.ns.svc.cluster.local:8080");
    assert_eq!(handlers["/"]["Proxy"], "http://main.ns.svc.cluster.local:80");

    // The order has to survive in print, so that the more specific path is
    // matched first.
    let serialised = serde_json::to_string(&json).unwrap();
    let auth_pos = serialised.find("/auth/").unwrap();
    let root_pos = serialised.find("\"/\"").unwrap();
    assert!(
        auth_pos < root_pos,
        "'/auth/' must appear before '/' in the serialised JSON so Tailscale \
         serve matches the more-specific prefix first; \
         auth_pos={auth_pos} root_pos={root_pos}"
    );
}

#[test]
fn serve_json_empty_routes() {
    let json = build_serve_json("my-app.ts.example.com", &vec![], &vec![]);
    assert_eq!(json["Web"]["my-app.ts.example.com:80"]["Handlers"], parsed("{}"));
}

#[test]
fn serve_json_with_accept_app_caps() {
    let routes = vec![route("/", "http://svc.ns.svc.cluster.local:80")];
    let caps = vec!["myapp/cap/admin".to_string(), "myapp/cap/viewer".to_string()];
    let json = build_serve_json("my-app.ts.example.com", &routes, &caps);
    let handlers = &json["Web"]["my-app.ts.example.com:80"]["Handlers"];
    assert_eq!(
        handlers["/"]["AcceptAppCaps"],
        parsed(r#"["myapp/cap/admin", "myapp/cap/viewer"]"#),
        "AcceptAppCaps must be injected into each handler when non-empty"
    );
}

#[test]
fn serve_json_no_accept_app_caps_key_when_empty() {
    let routes = vec![route("/", "http://svc.ns.svc.cluster.local:80")];
    let json = build_serve_json("my-app.ts.example.com", &routes, &vec![]);
    let handler = &json["Web"]["my-app.ts.example.com:80"]["Handlers"]["/"];
    assert!(
        handler.get("AcceptAppCaps").is_none(),
        "AcceptAppCaps must not appear in handler when no caps are declared"
    );
}

#[test]
fn serve_json_whole() {
    let routes = vec![route("/", "http://a"), route("/x", "http://b"), route("/", "http://c")];
    let json = build_serve_json("h", &routes, &vec![]);
    assert_eq!(
        serde_json::to_string(&json).unwrap(),
        r#"{"TCP":{"80":{"HTTP":true}},"Web":{"h:80":{"Handlers":{"/":{"Proxy":"http://c"},"/x":{"Proxy":"http://b"}}}}}"#
    );
}

#[test]
fn collect_routes_returns_err_when_no_path_rules() {
    let ing = ingress(Some(vec![]));
    assert!(
        collect_ingress_routes(&ing, &vec![], "default").is_err(),
        "Ingress with no path rules must return Err(NoPathRules)"
    );
    assert_eq!(collect_ingress_routes(&ingress(None), &vec![], "default"), Err(NoPathRules));
}

#[test]
fn collect_routes_from_ingress_rules() {
    let ing = ingress_with_paths(vec![
        by_number(Some("/"), "web", 80),
        by_number(Some("/api/"), "api", 8080),
    ]);
    // No named ports, so that nothing has to be looked up.
    assert!(named_port_lookups(&ing).is_empty());
    let routes = collect_ingress_routes(&ing, &vec![], "default").unwrap();
    assert_eq!(routes[0].path, "/api/");
    assert_eq!(routes[0].backend_url, "http://api.default.svc.cluster.local:8080");
    assert_eq!(routes[1].path, "/");
    assert_eq!(routes[1].backend_url, "http://web.default.svc.cluster.local:80");
}

#[test]
fn collect_routes_resolves_named_port_via_service_lookup() {
    let ing = ingress_with_paths(vec![by_name("/", "web", "http")]);
    assert_eq!(
        named_port_lookups(&ing),
        vec![PortLookup { service: "web".to_string(), port_name: "http".to_string() }]
    );
    let answers = vec![Ok(service_with_named_http_port())];
    let routes = collect_ingress_routes(&ing, &answers, "default").unwrap();
    assert_eq!(routes.len(), 1, "named port must produce exactly one route");
    assert_eq!(routes[0].path, "/");
    assert_eq!(routes[0].backend_url, "http://web.default.svc.cluster.local:80");
}

#[test]
fn collect_routes_skips_named_port_when_service_not_found() {
    let ing = ingress_with_paths(vec![by_name("/", "missing-svc", "http")]);
    let answers = vec![Err(not_found())];
    let routes = collect_ingress_routes(&ing, &answers, "default").unwrap();
    assert!(
        routes.is_empty(),
        "route with missing service must be skipped, not panic"
    );
}

#[test]
fn answers_belong_to_the_named_ports_in_order() {
    let ing = ingress_with_paths(vec![
        by_name("/a", "gone", "http"),
        by_number(None, "plain", 8000),
        by_name("/b", "web", "http"),
    ]);
    let answers = vec![Err(not_found()), Ok(service_with_named_http_port())];
    let routes = collect_ingress_routes(&ing, &answers, "ns").unwrap();
    assert_eq!(
        routes,
        vec![
            route("/b", "http://web.ns.svc.cluster.local:80"),
            route("/", "http://plain.ns.svc.cluster.local:8000"),
        ]
    );
}

#[test]
fn routes_of_one_length_keep_their_order() {
    let ing = ingress_with_paths(vec![
        by_number(Some("/b"), "b", 1),
        by_number(Some("/a"), "a", 2),
        by_number(Some("/longer"), "l", 3),
        by_number(Some("/é"), "e", 4),
    ]);
    let routes = collect_ingress_routes(&ing, &vec![], "ns").unwrap();
    let paths: Vec<&str> = routes.iter().map(|r| r.path.as_str()).collect();
    assert_eq!(paths, vec!["/longer", "/é", "/b", "/a"]);
}

#[test]
fn named_port_has_to_be_declared() {
    let answer = Ok(service_with_named_http_port());
    assert_eq!(resolve_service_port(&answer, "http"), Some(80));
    assert_eq!(resolve_service_port(&answer, "https"), None);
    assert_eq!(resolve_service_port(&Err(not_found()), "http"), None);
}

#[test]
fn backends_without_a_port_are_skipped() {
    let mut path = by_number(Some("/"), "web", 80);
    path.backend.service.as_mut().unwrap().port = None;
    let mut bare = by_number(Some("/x"), "web", 80);
    bare.backend.service = None;
    let ing = ingress_with_paths(vec![path, bare]);
    assert_eq!(collect_ingress_routes(&ing, &vec![], "ns"), Ok(vec![]));
}

#[test]
fn status_patches_say_where_the_proxy_is() {
    let ing = ingress(None);
    assert_eq!(
        serde_json::to_string(&ingress_status_patch(&ing, "100.64.0.7")).unwrap(),
        r#"{"apiVersion":"networking.k8s.io/v1","kind":"Ingress","metadata":{"name":"test","namespace":"default"},"status":{"loadBalancer":{"ingress":[{"ip":"100.64.0.7"}]}}}"#
    );
    assert_eq!(
        serde_json::to_string(&ingress_status_cleared(&ing)).unwrap(),
        r#"{"apiVersion":"networking.k8s.io/v1","kind":"Ingress","metadata":{"name":"test","namespace":"default"},"status":{}}"#
    );
}

#[test]
fn handlers_are_longest_first_with_repeated_paths() {
    let ing = ingress_with_paths(vec![
        by_number(Some("/"), "first", 1),
        by_number(Some("/api/v1"), "api", 2),
        by_number(Some("/"), "second", 3),
        by_number(Some("/api"), "old", 4),
    ]);
    let routes = collect_ingress_routes(&ing, &vec![], "ns").unwrap();
    let json = build_serve_json("h", &routes, &vec![]);
    let handlers = json["Web"]["h:80"]["Handlers"].as_object().unwrap();
    let paths: Vec<&str> = handlers.keys().map(|k| k.as_str()).collect();
    assert_eq!(paths, vec!["/api/v1", "/api", "/"]);
    assert_eq!(handlers["/"]["Proxy"], "http://second.ns.svc.cluster.local:3");
}
