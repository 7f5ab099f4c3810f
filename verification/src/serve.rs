//! What an Ingress proxy serves: the routes of the Ingress, the serve config
//! built from them, and the status that reports the proxy's address.

use crate::error::KubeError;
use crate::json::{
    array_value, bool_value, collected, collected_keeps_distinct, collected_last_wins, has_member,
    json_of, last_pair_is_found, lookup, object, object1, object2, object4, pair_views, text_array,
    text_value, texts, Json,
};
use crate::objects::{
    ports_of, HTTPIngressPath, Ingress, IngressRule, IngressServiceBackend, Service, ServicePort,
};
use crate::sort::{sort, stably_sorted, stably_sorted_is_sorted, views, Ranked};
use crate::text::{byte_len, decimal, decimal_i32, join2, join5, same_text};
use vstd::prelude::*;
use vstd::string::*;

verus! {

// ---- routes ----

/// A URL path prefix and the cluster-internal URL that serves it.
#[derive(Debug, PartialEq, Eq)]
pub struct ProxyRoute {
    pub path: String,
    pub backend_url: String,
}

/// What a route says.
pub struct RouteView {
    pub path: Seq<char>,
    pub backend_url: Seq<char>,
}

impl View for ProxyRoute {
    type V = RouteView;

    open spec fn view(&self) -> RouteView {
        RouteView { path: self.path@, backend_url: self.backend_url@ }
    }
}

/// Longer paths, counted in bytes, stand before shorter ones.
impl Ranked for ProxyRoute {
    open spec fn before(a: RouteView, b: RouteView) -> bool {
        byte_len(a.path) > byte_len(b.path)
    }

    proof fn before_is_asymmetric(a: RouteView, b: RouteView) {
    }

    proof fn not_before_is_transitive(a: RouteView, b: RouteView, c: RouteView) {
    }

    fn comes_before(&self, other: &Self) -> (result: bool) {
        self.path.as_str().as_bytes().len() > other.path.as_str().as_bytes().len()
    }
}

/// The Ingress has no HTTP path rules.
#[derive(Debug, PartialEq, Eq)]
pub struct NoPathRules;

/// The paths of some rules, in order.
pub open spec fn rule_paths(rules: Seq<IngressRule>) -> Seq<HTTPIngressPath>
    decreases rules.len(),
{
    if rules.len() == 0 {
        Seq::empty()
    } else {
        rule_paths(rules.drop_last()) + match rules.last().http {
            Some(http) => http.paths@,
            None => Seq::empty(),
        }
    }
}

/// The paths of an Ingress, in order.
pub open spec fn paths_of(ingress: Ingress) -> Seq<HTTPIngressPath> {
    match ingress.spec {
        Some(spec) => match spec.rules {
            Some(rules) => rule_paths(rules@),
            None => Seq::empty(),
        },
        None => Seq::empty(),
    }
}

/// The port of a backend Service.
pub enum BackendPort {
    Number(i32),
    Named(Seq<char>),
}

/// The Service that a path is meant for, and its port by number or, where no
/// number is given, by name.
pub open spec fn backend_of(path: HTTPIngressPath) -> Option<(Seq<char>, BackendPort)> {
    match path.backend.service {
        Some(svc) => match svc.port {
            Some(port) => match (port.number, port.name) {
                (Some(number), _) => Some((svc.name@, BackendPort::Number(number))),
                (None, Some(name)) => Some((svc.name@, BackendPort::Named(name@))),
                (None, None) => None,
            },
            None => None,
        },
        None => None,
    }
}

/// A Service to look up, for the number of one of its ports.
#[derive(Debug, PartialEq, Eq)]
pub struct PortLookup {
    pub service: String,
    pub port_name: String,
}

impl View for PortLookup {
    type V = (Seq<char>, Seq<char>);

    open spec fn view(&self) -> (Seq<char>, Seq<char>) {
        (self.service@, self.port_name@)
    }
}

/// The Services and port names to look up for some paths, in order.
pub open spec fn lookups_of(paths: Seq<HTTPIngressPath>) -> Seq<(Seq<char>, Seq<char>)>
    decreases paths.len(),
{
    if paths.len() == 0 {
        Seq::empty()
    } else {
        let front = lookups_of(paths.drop_last());
        match backend_of(paths.last()) {
            Some((service, BackendPort::Named(name))) => front.push((service, name)),
            _ => front,
        }
    }
}

/// The number of the first port of that name.
pub open spec fn port_named(ports: Seq<ServicePort>, name: Seq<char>) -> Option<i32>
    decreases ports.len(),
{
    if ports.len() == 0 {
        None
    } else if ports[0].name is Some && ports[0].name->0@ == name {
        Some(ports[0].port)
    } else {
        port_named(ports.drop_first(), name)
    }
}

/// The number of a named port, from the answer to the lookup of its Service.
pub open spec fn resolved_port(answer: Result<Service, KubeError>, name: Seq<char>) -> Option<i32> {
    match answer {
        Ok(service) => port_named(ports_of(service), name),
        Err(_) => None,
    }
}

/// The number of a named port, by the answer at a position. Without an answer
/// there is none.
pub open spec fn answered_port(
    answers: Seq<Result<Service, KubeError>>,
    at: int,
    name: Seq<char>,
) -> Option<i32> {
    if 0 <= at < answers.len() {
        resolved_port(answers[at], name)
    } else {
        None
    }
}

/// The URL of a Service's port inside the cluster.
pub open spec fn backend_url(service: Seq<char>, ns: Seq<char>, port: int) -> Seq<char> {
    "http://"@ + service + "."@ + ns + (".svc.cluster.local:"@ + decimal(port))
}

/// The route of one path, where its port is known. `named` is the position of
/// the answer to its lookup.
pub open spec fn route_of(
    path: HTTPIngressPath,
    answers: Seq<Result<Service, KubeError>>,
    named: int,
    ns: Seq<char>,
) -> Option<RouteView> {
    let prefix = match path.path {
        Some(prefix) => prefix@,
        None => "/"@,
    };
    match backend_of(path) {
        Some((service, BackendPort::Number(number))) => Some(
            RouteView { path: prefix, backend_url: backend_url(service, ns, number as int) },
        ),
        Some((service, BackendPort::Named(name))) => match answered_port(answers, named, name) {
            Some(number) => Some(
                RouteView { path: prefix, backend_url: backend_url(service, ns, number as int) },
            ),
            None => None,
        },
        None => None,
    }
}

/// The routes of some paths, in the order of the paths.
pub open spec fn routes_of(
    paths: Seq<HTTPIngressPath>,
    answers: Seq<Result<Service, KubeError>>,
    ns: Seq<char>,
) -> Seq<RouteView>
    decreases paths.len(),
{
    if paths.len() == 0 {
        Seq::empty()
    } else {
        let front = routes_of(paths.drop_last(), answers, ns);
        match route_of(paths.last(), answers, lookups_of(paths.drop_last()).len() as int, ns) {
            Some(route) => front.push(route),
            None => front,
        }
    }
}

fn paths<'a>(ingress: &'a Ingress) -> (paths: Vec<&'a HTTPIngressPath>)
    ensures
        paths@.map_values(|path: &HTTPIngressPath| *path) == paths_of(*ingress),
{
    let mut paths: Vec<&'a HTTPIngressPath> = Vec::new();
    proof {
        assert(paths@.map_values(|path: &HTTPIngressPath| *path) =~= Seq::empty());
    }
    if let Some(spec) = &ingress.spec {
        if let Some(rules) = &spec.rules {
            let mut i: usize = 0;
            proof {
                assert(rules@.take(0) =~= Seq::empty());
            }
            while i < rules.len()
                invariant
                    i <= rules@.len(),
                    paths@.map_values(|path: &HTTPIngressPath| *path) == rule_paths(
                        rules@.take(i as int),
                    ),
                decreases rules@.len() - i,
            {
                let ghost before = paths@.map_values(|path: &HTTPIngressPath| *path);
                proof {
                    assert(rules@.take(i + 1).drop_last() =~= rules@.take(i as int));
                }
                if let Some(http) = &rules[i].http {
                    let mut j: usize = 0;
                    while j < http.paths.len()
                        invariant
                            j <= http.paths@.len(),
                            paths@.map_values(|path: &HTTPIngressPath| *path) =~= before
                                + http.paths@.take(j as int),
                        decreases http.paths@.len() - j,
                    {
                        let ghost so_far = paths@.map_values(|path: &HTTPIngressPath| *path);
                        paths.push(&http.paths[j]);
                        proof {
                            assert(paths@.map_values(|path: &HTTPIngressPath| *path)
                                =~= so_far.push(http.paths@[j as int]));
                            assert(so_far.push(http.paths@[j as int]) =~= before
                                + http.paths@.take(j + 1));
                        }
                        j = j + 1;
                    }
                    proof {
                        assert(http.paths@.take(j as int) =~= http.paths@);
                    }
                } else {
                    proof {
                        assert(before + Seq::empty() =~= before);
                    }
                }
                i = i + 1;
            }
            proof {
                assert(rules@.take(i as int) =~= rules@);
            }
        }
    }
    paths
}

enum Backend<'a> {
    Number(&'a IngressServiceBackend, i32),
    Named(&'a IngressServiceBackend, &'a String),
    Unusable,
}

fn backend<'a>(path: &'a HTTPIngressPath) -> (backend: Backend<'a>)
    ensures
        backend_of(*path) == (match backend {
            Backend::Number(svc, number) => Some((svc.name@, BackendPort::Number(number))),
            Backend::Named(svc, name) => Some((svc.name@, BackendPort::Named(name@))),
            Backend::Unusable => None,
        }),
{
    match &path.backend.service {
        Some(svc) => match &svc.port {
            Some(port) => match port.number {
                Some(number) => Backend::Number(svc, number),
                None => match &port.name {
                    Some(name) => Backend::Named(svc, name),
                    None => Backend::Unusable,
                },
            },
            None => Backend::Unusable,
        },
        None => Backend::Unusable,
    }
}

/// The Services to look up before the routes of an Ingress can be collected:
/// one for each backend that names its port.
pub fn named_port_lookups(ingress: &Ingress) -> (lookups: Vec<PortLookup>)
    ensures
        views(lookups@) == lookups_of(paths_of(*ingress)),
{
    let all = paths(ingress);
    let ghost seen = paths_of(*ingress);
    let mut lookups: Vec<PortLookup> = Vec::new();
    let mut i: usize = 0;
    proof {
        assert(seen.take(0) =~= Seq::empty());
        assert(views(lookups@) =~= Seq::empty());
    }
    while i < all.len()
        invariant
            i <= all@.len(),
            all@.map_values(|path: &HTTPIngressPath| *path) == seen,
            views(lookups@) == lookups_of(seen.take(i as int)),
        decreases all@.len() - i,
    {
        proof {
            assert(seen.take(i + 1).drop_last() =~= seen.take(i as int));
            assert(seen.take(i + 1).last() == *all@[i as int]);
        }
        if let Backend::Named(svc, name) = backend(all[i]) {
            let ghost before = views(lookups@);
            lookups.push(PortLookup { service: svc.name.clone(), port_name: name.clone() });
            proof {
                assert(views(lookups@) =~= before.push((svc.name@, name@)));
            }
        }
        i = i + 1;
    }
    proof {
        assert(seen.take(i as int) =~= seen);
    }
    lookups
}

/// The number of the named port of a Service, from the answer to its lookup.
pub fn resolve_service_port(answer: &Result<Service, KubeError>, port_name: &str) -> (port: Option<
    i32,
>)
    ensures
        port == resolved_port(*answer, port_name@),
{
    match answer {
        Err(_) => None,
        Ok(service) => match &service.spec {
            None => None,
            Some(spec) => match &spec.ports {
                None => None,
                Some(ports) => {
                    let mut i: usize = 0;
                    proof {
                        assert(ports@.skip(0) =~= ports@);
                    }
                    while i < ports.len()
                        invariant
                            i <= ports@.len(),
                            resolved_port(*answer, port_name@) == port_named(ports@, port_name@),
                            port_named(ports@, port_name@) == port_named(
                                ports@.skip(i as int),
                                port_name@,
                            ),
                        decreases ports@.len() - i,
                    {
                        proof {
                            assert(ports@.skip(i as int).drop_first() =~= ports@.skip(i + 1));
                            assert(ports@.skip(i as int)[0] == ports@[i as int]);
                        }
                        if let Some(name) = &ports[i].name {
                            if same_text(name.as_str(), port_name) {
                                return Some(ports[i].port);
                            }
                        }
                        i = i + 1;
                    }
                    None
                },
            },
        },
    }
}

fn route(path: &HTTPIngressPath, service: &str, ns: &str, port: i32) -> (route: ProxyRoute)
    ensures
        route@ == (RouteView {
            path: match path.path {
                Some(prefix) => prefix@,
                None => "/"@,
            },
            backend_url: backend_url(service@, ns@, port as int),
        }),
{
    let prefix = match &path.path {
        Some(prefix) => prefix.clone(),
        None => String::from_str("/"),
    };
    let tail = join2(".svc.cluster.local:", decimal_i32(port).as_str());
    ProxyRoute { path: prefix, backend_url: join5("http://", service, ".", ns, tail.as_str()) }
}

/// Whether `routes` are the routes of an Ingress, the longest path first. An
/// Ingress without paths has none and is refused.
pub open spec fn are_routes_of(
    routes: Result<Vec<ProxyRoute>, NoPathRules>,
    ingress: Ingress,
    answers: Seq<Result<Service, KubeError>>,
    ns: Seq<char>,
) -> bool {
    &&& routes is Err <==> paths_of(ingress).len() == 0
    &&& routes is Ok ==> views(routes->Ok_0@) == stably_sorted::<ProxyRoute>(
        routes_of(paths_of(ingress), answers, ns),
    )
}

/// Collects the routes of an Ingress, the longest paths first. `answers` are
/// the answers to the lookups that `named_port_lookups` asks for, in order.
///
/// An Ingress with paths can have no route, where no port can be resolved yet.
pub fn collect_ingress_routes(
    ingress: &Ingress,
    answers: &Vec<Result<Service, KubeError>>,
    ns: &str,
) -> (routes: Result<Vec<ProxyRoute>, NoPathRules>)
    ensures
        are_routes_of(routes, *ingress, answers@, ns@),
{
    let all = paths(ingress);
    let ghost seen = paths_of(*ingress);
    proof {
        assert(seen.len() == all@.len());
    }
    if all.len() == 0 {
        return Err(NoPathRules);
    }
    let mut routes: Vec<ProxyRoute> = Vec::new();
    let mut named: usize = 0;
    let mut i: usize = 0;
    proof {
        assert(seen.take(0) =~= Seq::empty());
        assert(views(routes@) =~= Seq::empty());
    }
    while i < all.len()
        invariant
            i <= all@.len(),
            named <= i,
            all@.map_values(|path: &HTTPIngressPath| *path) == seen,
            named == lookups_of(seen.take(i as int)).len(),
            views(routes@) == routes_of(seen.take(i as int), answers@, ns@),
        decreases all@.len() - i,
    {
        let path = all[i];
        let ghost before = views(routes@);
        proof {
            assert(seen.take(i + 1).drop_last() =~= seen.take(i as int));
            assert(seen.take(i + 1).last() == *path);
        }
        match backend(path) {
            Backend::Number(svc, number) => {
                let found = route(path, svc.name.as_str(), ns, number);
                routes.push(found);
                proof {
                    assert(views(routes@) =~= before.push(found@));
                }
            },
            Backend::Named(svc, name) => {
                if named < answers.len() {
                    if let Some(number) = resolve_service_port(&answers[named], name.as_str()) {
                        let found = route(path, svc.name.as_str(), ns, number);
                        routes.push(found);
                        proof {
                            assert(views(routes@) =~= before.push(found@));
                        }
                    }
                }
                named = named + 1;
            },
            Backend::Unusable => {},
        }
        i = i + 1;
    }
    proof {
        assert(seen.take(i as int) =~= seen);
    }
    Ok(sort(routes))
}

// ---- serve config ----

/// The handler of one route: where it goes, and the capabilities that are
/// passed on where there are any.
pub open spec fn handler_json(backend_url: Seq<char>, accept_app_caps: Seq<String>) -> Json {
    if accept_app_caps.len() == 0 {
        Json::Object(seq![("Proxy"@, Json::Text(backend_url))])
    } else {
        Json::Object(
            seq![
                ("Proxy"@, Json::Text(backend_url)),
                ("AcceptAppCaps"@, text_array(accept_app_caps)),
            ],
        )
    }
}

/// Each route's path with its handler.
pub open spec fn handler_pairs(routes: Seq<RouteView>, accept_app_caps: Seq<String>) -> Seq<
    (Seq<char>, Json),
> {
    routes.map_values(
        |route: RouteView| (route.path, handler_json(route.backend_url, accept_app_caps)),
    )
}

/// The serve config of an Ingress: plain HTTP on port 80 of the tailnet host,
/// with one handler for each path.
pub open spec fn serve_json(
    tailnet_fqdn: Seq<char>,
    routes: Seq<RouteView>,
    accept_app_caps: Seq<String>,
) -> Json {
    Json::Object(
        seq![
            ("TCP"@, Json::Object(seq![("80"@, Json::Object(seq![("HTTP"@, Json::Bool(true))]))])),
            (
                "Web"@,
                Json::Object(
                    seq![
                        (
                            tailnet_fqdn + ":80"@,
                            Json::Object(
                                seq![
                                    (
                                        "Handlers"@,
                                        Json::Object(
                                            collected(handler_pairs(routes, accept_app_caps)),
                                        ),
                                    ),
                                ],
                            ),
                        ),
                    ],
                ),
            ),
        ],
    )
}

fn handler(backend_url: &String, accept_app_caps: &Vec<String>) -> (value: serde_json::Value)
    ensures
        json_of(value) == handler_json(backend_url@, accept_app_caps@),
{
    if accept_app_caps.len() == 0 {
        object1("Proxy", text_value(backend_url.clone()))
    } else {
        proof {
            reveal_strlit("Proxy");
            reveal_strlit("AcceptAppCaps");
            assert("Proxy"@.len() != "AcceptAppCaps"@.len());
        }
        object2("Proxy", text_value(backend_url.clone()), "AcceptAppCaps", texts(accept_app_caps))
    }
}

/// Builds the serve config of an Ingress.
pub fn build_serve_json(
    tailnet_fqdn: &str,
    routes: &Vec<ProxyRoute>,
    accept_app_caps: &Vec<String>,
) -> (value: serde_json::Value)
    ensures
        json_of(value) == serve_json(tailnet_fqdn@, views(routes@), accept_app_caps@),
{
    let mut handlers: Vec<(String, serde_json::Value)> = Vec::new();
    let mut i: usize = 0;
    while i < routes.len()
        invariant
            i <= routes@.len(),
            handlers@.len() == i,
            forall|k: int|
                0 <= k < i ==> (#[trigger] handlers@[k]).0@ == routes@[k].path@ && json_of(
                    handlers@[k].1,
                ) == handler_json(routes@[k].backend_url@, accept_app_caps@),
        decreases routes@.len() - i,
    {
        let value = handler(&routes[i].backend_url, accept_app_caps);
        handlers.push((routes[i].path.clone(), value));
        i = i + 1;
    }
    proof {
        assert(pair_views(handlers@) =~= handler_pairs(views(routes@), accept_app_caps@));
        reveal_strlit("TCP");
        reveal_strlit("Web");
        assert("TCP"@[0] != "Web"@[0]);
    }
    let host = join2(tailnet_fqdn, ":80");
    object2(
        "TCP",
        object1("80", object1("HTTP", bool_value(true))),
        "Web",
        object1(host.as_str(), object1("Handlers", object(handlers))),
    )
}

/// The handlers of routes with distinct paths stand in the order of the
/// routes, so that the longest paths come first where the routes do.
pub proof fn handlers_keep_route_order(routes: Seq<RouteView>, accept_app_caps: Seq<String>)
    requires
        forall|i: int, j: int|
            0 <= i < j < routes.len() ==> (#[trigger] routes[i]).path != (
            #[trigger] routes[j]).path,
    ensures
        collected(handler_pairs(routes, accept_app_caps)) == handler_pairs(routes, accept_app_caps),
{
    let pairs = handler_pairs(routes, accept_app_caps);
    assert forall|i: int, j: int| 0 <= i < j < pairs.len() implies (#[trigger] pairs[i]).0 != (
    #[trigger] pairs[j]).0 by {
        assert(pairs[i].0 == routes[i].path);
        assert(pairs[j].0 == routes[j].path);
    }
    collected_keeps_distinct(pairs);
}

/// Whether longer keys, counted in bytes, stand before shorter ones.
pub open spec fn longest_first(members: Seq<(Seq<char>, Json)>) -> bool {
    forall|i: int, j: int|
        0 <= i < j < members.len() ==> byte_len((#[trigger] members[i]).0) >= byte_len(
            (#[trigger] members[j]).0,
        )
}

/// The handlers of an Ingress stand longest path first, so that the more
/// specific path is matched first. This holds where one path comes more than
/// once, too.
pub proof fn handlers_are_longest_first(routes: Seq<RouteView>, accept_app_caps: Seq<String>)
    ensures
        longest_first(
            collected(handler_pairs(stably_sorted::<ProxyRoute>(routes), accept_app_caps)),
        ),
{
    let sorted = stably_sorted::<ProxyRoute>(routes);
    let pairs = handler_pairs(sorted, accept_app_caps);
    stably_sorted_is_sorted::<ProxyRoute>(routes);
    assert forall|i: int, j: int| 0 <= i < j < pairs.len() implies byte_len(
        (#[trigger] pairs[i]).0,
    ) >= byte_len((#[trigger] pairs[j]).0) by {
        assert(!ProxyRoute::before(sorted[j], sorted[i]));
    }
    lemma_collected_longest_first(pairs);
}

proof fn lemma_collected_longest_first(pairs: Seq<(Seq<char>, Json)>)
    requires
        longest_first(pairs),
    ensures
        longest_first(collected(pairs)),
        forall|i: int|
            0 <= i < collected(pairs).len() ==> has_member(
                pairs,
                (#[trigger] collected(pairs)[i]).0,
            ),
    decreases pairs.len(),
{
    if pairs.len() > 0 {
        let front = pairs.drop_last();
        let last = pairs.last();
        assert forall|i: int, j: int| 0 <= i < j < front.len() implies byte_len(
            (#[trigger] front[i]).0,
        ) >= byte_len((#[trigger] front[j]).0) by {
            assert(front[i] == pairs[i] && front[j] == pairs[j]);
        }
        lemma_collected_longest_first(front);
        let before = collected(front);
        let after = collected(pairs);
        assert forall|i: int| 0 <= i < after.len() implies has_member(
            pairs,
            (#[trigger] after[i]).0,
        ) && (i < before.len() ==> after[i].0 == before[i].0) && (i >= before.len() ==> after[i]
            == last) by {
            if i < before.len() {
                assert(has_member(front, before[i].0));
                let k = choose|k: int| 0 <= k < front.len() && #[trigger] front[k].0 == before[i].0;
                assert(pairs[k].0 == before[i].0);
            } else {
                assert(pairs[pairs.len() - 1].0 == last.0);
            }
        }
        assert forall|i: int, j: int| 0 <= i < j < after.len() implies byte_len(
            (#[trigger] after[i]).0,
        ) >= byte_len((#[trigger] after[j]).0) by {
            if j < before.len() {
                assert(byte_len(before[i].0) >= byte_len(before[j].0));
            } else {
                assert(has_member(front, before[i].0));
                let k = choose|k: int| 0 <= k < front.len() && #[trigger] front[k].0 == before[i].0;
                assert(pairs[k].0 == before[i].0);
                assert(pairs[pairs.len() - 1] == last);
            }
        }
    }
}

/// Every route is served at its path; of several routes of one path the last
/// is.
pub proof fn route_is_served(routes: Seq<RouteView>, accept_app_caps: Seq<String>, i: int)
    requires
        0 <= i < routes.len(),
        forall|j: int| i < j < routes.len() ==> (#[trigger] routes[j]).path != routes[i].path,
    ensures
        lookup(collected(handler_pairs(routes, accept_app_caps)), routes[i].path) == Some(
            handler_json(routes[i].backend_url, accept_app_caps),
        ),
{
    let pairs = handler_pairs(routes, accept_app_caps);
    assert forall|j: int| i < j < pairs.len() implies (#[trigger] pairs[j]).0 != pairs[i].0 by {
        assert(routes[j].path != routes[i].path);
    }
    last_pair_is_found(pairs, i);
    collected_last_wins(pairs, pairs[i].0);
}

// ---- status ----

/// Name and namespace of an object, as a patch of it says them.
pub open spec fn identity_json(name: Seq<char>, ns: Seq<char>) -> Json {
    Json::Object(seq![("name"@, Json::Text(name)), ("namespace"@, Json::Text(ns))])
}

/// A patch of the status of an Ingress.
pub open spec fn status_patch_json(name: Seq<char>, ns: Seq<char>, status: Json) -> Json {
    Json::Object(
        seq![
            ("apiVersion"@, Json::Text("networking.k8s.io/v1"@)),
            ("kind"@, Json::Text("Ingress"@)),
            ("metadata"@, identity_json(name, ns)),
            ("status"@, status),
        ],
    )
}

/// A status that reports one address.
pub open spec fn address_status_json(ip: Seq<char>) -> Json {
    Json::Object(
        seq![
            (
                "loadBalancer"@,
                Json::Object(
                    seq![
                        (
                            "ingress"@,
                            Json::Array(seq![Json::Object(seq![("ip"@, Json::Text(ip))])]),
                        ),
                    ],
                ),
            ),
        ],
    )
}

/// Name and namespace of an object, as a patch of it says them.
pub fn identity(name: &str, ns: &str) -> (value: serde_json::Value)
    ensures
        json_of(value) == identity_json(name@, ns@),
{
    proof {
        reveal_strlit("name");
        reveal_strlit("namespace");
        assert("name"@.len() != "namespace"@.len());
    }
    object2(
        "name",
        text_value(String::from_str(name)),
        "namespace",
        text_value(String::from_str(ns)),
    )
}

fn status_patch(name: &str, ns: &str, status: serde_json::Value) -> (value: serde_json::Value)
    ensures
        json_of(value) == status_patch_json(name@, ns@, json_of(status)),
{
    proof {
        reveal_strlit("apiVersion");
        reveal_strlit("kind");
        reveal_strlit("metadata");
        reveal_strlit("status");
        assert("apiVersion"@.len() == 10 && "kind"@.len() == 4);
        assert("metadata"@.len() == 8 && "status"@.len() == 6);
    }
    object4(
        "apiVersion",
        text_value(String::from_str("networking.k8s.io/v1")),
        "kind",
        text_value(String::from_str("Ingress")),
        "metadata",
        identity(name, ns),
        "status",
        status,
    )
}

/// The patch that reports an address on an Ingress.
pub open spec fn address_patch_json(ingress: Ingress, ip: Seq<char>) -> Json {
    status_patch_json(
        ingress.metadata.any_name(),
        ingress.metadata.own_namespace(),
        address_status_json(ip),
    )
}

/// The patch that takes the address of an Ingress back.
pub open spec fn cleared_patch_json(ingress: Ingress) -> Json {
    status_patch_json(
        ingress.metadata.any_name(),
        ingress.metadata.own_namespace(),
        Json::Object(Seq::empty()),
    )
}

/// The patch that reports the tailnet address of an Ingress's proxy.
pub fn ingress_status_patch(ingress: &Ingress, ip: &str) -> (value: serde_json::Value)
    ensures
        json_of(value) == address_patch_json(*ingress, ip@),
{
    let mut addresses: Vec<serde_json::Value> = Vec::new();
    let address = object1("ip", text_value(String::from_str(ip)));
    addresses.push(address);
    proof {
        assert(addresses@.map_values(|item: serde_json::Value| json_of(item)) =~= seq![
            json_of(address),
        ]);
    }
    let status = object1("loadBalancer", object1("ingress", array_value(addresses)));
    status_patch(
        ingress.metadata.name_any().as_str(),
        ingress.metadata.namespace_or_default().as_str(),
        status,
    )
}

/// The patch that takes an Ingress's address back.
pub fn ingress_status_cleared(ingress: &Ingress) -> (value: serde_json::Value)
    ensures
        json_of(value) == cleared_patch_json(*ingress),
{
    let empty: Vec<(String, serde_json::Value)> = Vec::new();
    proof {
        assert(pair_views(empty@) =~= Seq::empty());
    }
    status_patch(
        ingress.metadata.name_any().as_str(),
        ingress.metadata.namespace_or_default().as_str(),
        object(empty),
    )
}

} // verus!
