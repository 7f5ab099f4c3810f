//! Laws of what an Ingress proxy serves.

use crate::error::KubeError;
use crate::json::{collected, collected_last_wins, last_pair_is_found, lookup, Json};
use crate::objects::{ports_of, HTTPIngressPath, Ingress, IngressRule, Service};
use crate::serve::{
    address_patch_json, address_status_json, are_routes_of, cleared_patch_json, handler_json,
    handler_pairs, identity_json, lookups_of, paths_of, port_named, resolved_port, routes_of,
    rule_paths, serve_json, status_patch_json, NoPathRules, ProxyRoute, RouteView,
};
use crate::sort::{same_rank, stably_sorted, stably_sorted_is_sorted, stably_sorted_is_stable};
use crate::text::decimal;
use vstd::prelude::*;
use vstd::string::*;
use vstd::utf8::*;

verus! {

// ---- paths ----

/// The paths of an Ingress are those of its rules; one that has no rules has
/// no paths.
pub proof fn paths_are_those_of_the_rules(ingress: Ingress, rules: Vec<IngressRule>)
    ensures
        ingress.spec is Some && ingress.spec->0.rules == Some(rules) ==> paths_of(ingress)
            == rule_paths(rules@),
        ingress.spec is None || ingress.spec->0.rules is None ==> paths_of(ingress).len() == 0,
        rule_paths(Seq::empty()).len() == 0,
{
}

/// One more rule puts its paths behind those of the others; a rule without
/// HTTP has none.
pub proof fn each_rule_adds_its_paths(rules: Seq<IngressRule>, rule: IngressRule)
    ensures
        rule.http is Some ==> rule_paths(rules.push(rule)) == rule_paths(rules)
            + rule.http->0.paths@,
        rule.http is None ==> rule_paths(rules.push(rule)) == rule_paths(rules),
{
    assert(rules.push(rule).drop_last() =~= rules);
    assert(rule_paths(rules) + Seq::<HTTPIngressPath>::empty() =~= rule_paths(rules));
}

// ---- ports ----

/// A named port is resolved to the number of the first port of that name, at
/// whatever place it is declared, and to nothing only where no port has the
/// name.
pub proof fn named_port_is_the_first_of_its_name(
    answer: Result<Service, KubeError>,
    name: Seq<char>,
)
    ensures
        answer is Err ==> resolved_port(answer, name) is None,
        answer is Ok ==> ({
            let ports = ports_of(answer->Ok_0);
            &&& forall|i: int|
                0 <= i < ports.len() && (#[trigger] ports[i]).name is Some && ports[i].name->0@
                    == name && (forall|j: int|
                    0 <= j < i ==> !((#[trigger] ports[j]).name is Some && ports[j].name->0@
                        == name)) ==> resolved_port(answer, name) == Some(ports[i].port)
            &&& (forall|i: int|
                0 <= i < ports.len() ==> !((#[trigger] ports[i]).name is Some && ports[i].name->0@
                    == name)) ==> resolved_port(answer, name) is None
            &&& resolved_port(answer, name) is Some ==> exists|i: int|
                0 <= i < ports.len() && (#[trigger] ports[i]).name is Some && ports[i].name->0@
                    == name && ports[i].port == resolved_port(answer, name)->0
        }),
{
    if answer is Ok {
        let ports = ports_of(answer->Ok_0);
        assert forall|i: int|
            0 <= i < ports.len() && (#[trigger] ports[i]).name is Some && ports[i].name->0@ == name
                && (forall|j: int|
                0 <= j < i ==> !((#[trigger] ports[j]).name is Some && ports[j].name->0@
                    == name)) implies resolved_port(answer, name) == Some(ports[i].port) by {
            lemma_first_named(ports, name, i);
        }
        lemma_some_named(ports, name);
    }
}

proof fn lemma_first_named(ports: Seq<crate::objects::ServicePort>, name: Seq<char>, i: int)
    requires
        0 <= i < ports.len(),
        ports[i].name is Some,
        ports[i].name->0@ == name,
        forall|j: int|
            0 <= j < i ==> !((#[trigger] ports[j]).name is Some && ports[j].name->0@ == name),
    ensures
        port_named(ports, name) == Some(ports[i].port),
    decreases ports.len(),
{
    if i > 0 {
        let rest = ports.drop_first();
        assert(!(ports[0].name is Some && ports[0].name->0@ == name));
        assert forall|j: int| 0 <= j < i - 1 implies !((#[trigger] rest[j]).name is Some
            && rest[j].name->0@ == name) by {
            assert(rest[j] == ports[j + 1]);
        }
        assert(rest[i - 1] == ports[i]);
        lemma_first_named(rest, name, i - 1);
    }
}

proof fn lemma_some_named(ports: Seq<crate::objects::ServicePort>, name: Seq<char>)
    ensures
        port_named(ports, name) is Some ==> exists|i: int|
            0 <= i < ports.len() && (#[trigger] ports[i]).name is Some && ports[i].name->0@ == name
                && ports[i].port == port_named(ports, name)->0,
    decreases ports.len(),
{
    if ports.len() > 0 && port_named(ports, name) is Some {
        if ports[0].name is Some && ports[0].name->0@ == name {
            assert(ports[0].port == port_named(ports, name)->0);
        } else {
            let rest = ports.drop_first();
            lemma_some_named(rest, name);
            let i = choose|i: int|
                0 <= i < rest.len() && (#[trigger] rest[i]).name is Some && rest[i].name->0@ == name
                    && rest[i].port == port_named(rest, name)->0;
            assert(ports[i + 1] == rest[i]);
        }
    }
}

// ---- routes ----

/// Whether a path is meant for a Service, by a port number.
pub open spec fn numbered(path: HTTPIngressPath) -> bool {
    path.backend.service is Some && path.backend.service->0.port is Some
        && path.backend.service->0.port->0.number is Some
}

/// Whether a path is meant for a Service, by a port name alone.
pub open spec fn named(path: HTTPIngressPath) -> bool {
    path.backend.service is Some && path.backend.service->0.port is Some
        && path.backend.service->0.port->0.number is None
        && path.backend.service->0.port->0.name is Some
}

/// Whether a route leads from a path to a port of its Service.
pub open spec fn leads(route: RouteView, path: HTTPIngressPath, ns: Seq<char>, port: i32) -> bool {
    &&& path.path is Some ==> route.path == path.path->0@
    &&& path.path is None ==> route.path == "/"@
    &&& route.backend_url == "http://"@ + path.backend.service->0.name@ + "."@ + ns
        + ".svc.cluster.local:"@ + decimal(port as int)
}

/// One more path asks for one more lookup exactly where it names its port: of
/// its Service, for that name.
pub proof fn each_named_port_is_looked_up(paths: Seq<HTTPIngressPath>, path: HTTPIngressPath)
    ensures
        lookups_of(Seq::empty()).len() == 0,
        named(path) ==> lookups_of(paths.push(path)) == lookups_of(paths).push(
            (
                path.backend.service->0.name@,
                path.backend.service->0.port->0.name->0@,
            ),
        ),
        !named(path) ==> lookups_of(paths.push(path)) == lookups_of(paths),
{
    assert(paths.push(path).drop_last() =~= paths);
}

/// One more path adds one route exactly where its port is known: by its
/// number, or by the answer to its own lookup, whose place is the number of
/// named ports before it. A path without either adds none.
pub proof fn each_path_adds_its_route(
    paths: Seq<HTTPIngressPath>,
    path: HTTPIngressPath,
    answers: Seq<Result<Service, KubeError>>,
    ns: Seq<char>,
)
    ensures
        ({
            let before = routes_of(paths, answers, ns);
            let after = routes_of(paths.push(path), answers, ns);
            let at = lookups_of(paths).len() as int;
            let port = resolved_port(answers[at], path.backend.service->0.port->0.name->0@);
            &&& routes_of(Seq::empty(), answers, ns).len() == 0
            &&& numbered(path) ==> after.len() == before.len() + 1 && after.drop_last() == before
                && leads(after.last(), path, ns, path.backend.service->0.port->0.number->0)
            &&& named(path) && at < answers.len() && port is Some ==> after.len() == before.len()
                + 1 && after.drop_last() == before && leads(after.last(), path, ns, port->0)
            &&& named(path) && (at >= answers.len() || port is None) ==> after == before
            &&& !numbered(path) && !named(path) ==> after == before
        }),
{
    let before = routes_of(paths, answers, ns);
    let after = routes_of(paths.push(path), answers, ns);
    assert(paths.push(path).drop_last() =~= paths);
    assert(paths.push(path).last() == path);
    if after.len() == before.len() + 1 {
        assert(after.drop_last() =~= before);
        let service = path.backend.service->0.name@;
        let port = if numbered(path) {
            path.backend.service->0.port->0.number->0
        } else {
            resolved_port(
                answers[lookups_of(paths).len() as int],
                path.backend.service->0.port->0.name->0@,
            )->0
        };
        assert("http://"@ + service + "."@ + ns + ".svc.cluster.local:"@ + decimal(port as int)
            =~= "http://"@ + service + "."@ + ns + (".svc.cluster.local:"@ + decimal(
            port as int,
        )));
    }
}

/// Sorting routes keeps each of them, puts longer paths, counted in bytes,
/// before shorter ones, and leaves those of one length in their order.
pub proof fn routes_are_sorted_longest_first(routes: Seq<RouteView>, length: nat)
    ensures
        ({
            let sorted = stably_sorted::<ProxyRoute>(routes);
            &&& sorted.to_multiset() == routes.to_multiset()
            &&& forall|i: int, j: int|
                0 <= i < j < sorted.len() ==> encode_utf8((#[trigger] sorted[i]).path).len()
                    >= encode_utf8((#[trigger] sorted[j]).path).len()
            &&& sorted.filter(|route: RouteView| encode_utf8(route.path).len() == length)
                == routes.filter(|route: RouteView| encode_utf8(route.path).len() == length)
        }),
{
    let sorted = stably_sorted::<ProxyRoute>(routes);
    stably_sorted_is_sorted::<ProxyRoute>(routes);
    assert forall|i: int, j: int| 0 <= i < j < sorted.len() implies encode_utf8(
        (#[trigger] sorted[i]).path,
    ).len() >= encode_utf8((#[trigger] sorted[j]).path).len() by {
        assert(!<ProxyRoute as crate::sort::Ranked>::before(sorted[j], sorted[i]));
    }
    let of_length = |route: RouteView| encode_utf8(route.path).len() == length;
    if exists|k: int|
        0 <= k < routes.len() && encode_utf8((#[trigger] routes[k]).path).len() == length {
        let k = choose|k: int|
            0 <= k < routes.len() && encode_utf8((#[trigger] routes[k]).path).len() == length;
        let rank = routes[k];
        stably_sorted_is_stable::<ProxyRoute>(routes, rank);
        let ranked = |route: RouteView| same_rank::<ProxyRoute>(route, rank);
        assert(of_length =~= ranked);
    } else {
        lemma_none_kept(routes, of_length);
        assert forall|i: int| 0 <= i < sorted.len() implies !of_length(#[trigger] sorted[i]) by {
            broadcast use vstd::seq_lib::group_to_multiset_ensures;

            assert(sorted.to_multiset().count(sorted[i]) > 0);
            assert(routes.contains(sorted[i]));
            let k = routes.index_of(sorted[i]);
            assert(routes[k] == sorted[i]);
        }
        lemma_none_kept(sorted, of_length);
    }
}

proof fn lemma_none_kept<A>(items: Seq<A>, keep: spec_fn(A) -> bool)
    requires
        forall|i: int| 0 <= i < items.len() ==> !keep(#[trigger] items[i]),
    ensures
        items.filter(keep) == Seq::<A>::empty(),
    decreases items.len(),
{
    reveal(Seq::filter);
    if items.len() > 0 {
        let front = items.drop_last();
        assert forall|i: int| 0 <= i < front.len() implies !keep(#[trigger] front[i]) by {
            assert(front[i] == items[i]);
        }
        lemma_none_kept(front, keep);
        assert(!keep(items[items.len() - 1]));
    }
}

// ---- the serve config ----

/// The serve config of an Ingress: plain HTTP on port 80, and for the tailnet
/// host a handler for each path, which passes to the backend of the last route
/// of that path, with the capabilities that the app accepts where there are
/// any; and nothing else.
pub proof fn serve_config_lists_the_routes(
    host: Seq<char>,
    routes: Seq<RouteView>,
    caps: Seq<String>,
    path: Seq<char>,
) -> (handlers: Seq<(Seq<char>, Json)>)
    ensures
        serve_json(host, routes, caps) == Json::Object(
            seq![
                (
                    "TCP"@,
                    Json::Object(seq![("80"@, Json::Object(seq![("HTTP"@, Json::Bool(true))]))]),
                ),
                (
                    "Web"@,
                    Json::Object(
                        seq![
                            (
                                host + ":80"@,
                                Json::Object(seq![("Handlers"@, Json::Object(handlers))]),
                            ),
                        ],
                    ),
                ),
            ],
        ),
        forall|i: int|
            0 <= i < routes.len() && (#[trigger] routes[i]).path == path && (forall|j: int|
                i < j < routes.len() ==> (#[trigger] routes[j]).path != path) ==> ({
                let handler = lookup(handlers, path)->0;
                &&& lookup(handlers, path) is Some
                &&& handler is Object
                &&& handler->Object_0[0] == ("Proxy"@, Json::Text(routes[i].backend_url))
                &&& handler->Object_0.len() == (if caps.len() > 0 {
                    2nat
                } else {
                    1nat
                })
                &&& caps.len() > 0 ==> handler->Object_0[1].0 == "AcceptAppCaps"@
                    && handler->Object_0[1].1 is Array && handler->Object_0[1].1->Array_0.len()
                    == caps.len() && (forall|k: int|
                    0 <= k < caps.len() ==> #[trigger] handler->Object_0[1].1->Array_0[k]
                        == Json::Text(caps[k]@))
            }),
        (forall|i: int| 0 <= i < routes.len() ==> (#[trigger] routes[i]).path != path) ==> lookup(
            handlers,
            path,
        ) is None,
{
    let pairs = handler_pairs(routes, caps);
    let handlers = collected(pairs);
    collected_last_wins(pairs, path);
    assert forall|i: int|
        0 <= i < routes.len() && (#[trigger] routes[i]).path == path && (forall|j: int|
            i < j < routes.len() ==> (#[trigger] routes[j]).path != path) implies lookup(
        handlers,
        path,
    ) == Some(handler_json(routes[i].backend_url, caps)) by {
        assert forall|j: int| i < j < pairs.len() implies (#[trigger] pairs[j]).0 != pairs[i].0 by {
            assert(routes[j].path != path);
        }
        last_pair_is_found(pairs, i);
    }
    if forall|i: int| 0 <= i < routes.len() ==> (#[trigger] routes[i]).path != path {
        crate::laws::base::lookup_finds_the_last_of_its_name(pairs, path);
        if lookup(pairs, path) is Some {
            let i = choose|i: int|
                0 <= i < pairs.len() && #[trigger] pairs[i] == (path, lookup(pairs, path)->0) && (
                forall|j: int| i < j < pairs.len() ==> (#[trigger] pairs[j]).0 != path);
            assert(routes[i].path == path);
        }
    }
    handlers
}

// ---- the status ----

/// The patch of an Ingress's status names the Ingress and reports the one
/// address, or none.
pub proof fn status_reports_the_address(name: Seq<char>, ns: Seq<char>, ip: Seq<char>, status: Json)
    ensures
        status_patch_json(name, ns, status) == Json::Object(
            seq![
                ("apiVersion"@, Json::Text("networking.k8s.io/v1"@)),
                ("kind"@, Json::Text("Ingress"@)),
                (
                    "metadata"@,
                    Json::Object(
                        seq![("name"@, Json::Text(name)), ("namespace"@, Json::Text(ns))],
                    ),
                ),
                ("status"@, status),
            ],
        ),
        address_status_json(ip) == Json::Object(
            seq![
                (
                    "loadBalancer"@,
                    Json::Object(
                        seq![
                            (
                                "ingress"@,
                                Json::Array(seq![Json::Object(seq![("ip"@, Json::Text(ip))])]),
                            ),
                        ],
                    ),
                ),
            ],
        ),
        identity_json(name, ns) == Json::Object(
            seq![("name"@, Json::Text(name)), ("namespace"@, Json::Text(ns))],
        ),
{
}

/// An Ingress has routes exactly where it has a path, though there can be none
/// yet: each route that its paths give, and no other, the longest path first.
pub proof fn ingresses_with_paths_have_routes(
    routes: Result<Vec<ProxyRoute>, NoPathRules>,
    ingress: Ingress,
    answers: Seq<Result<Service, KubeError>>,
    ns: Seq<char>,
)
    requires
        are_routes_of(routes, ingress, answers, ns),
    ensures
        routes is Ok <==> paths_of(ingress).len() > 0,
        routes is Ok ==> {
            let served = crate::sort::views(routes->Ok_0@);
            &&& served.to_multiset() == routes_of(paths_of(ingress), answers, ns).to_multiset()
            &&& forall|i: int, j: int|
                0 <= i < j < served.len() ==> encode_utf8((#[trigger] served[i]).path).len()
                    >= encode_utf8((#[trigger] served[j]).path).len()
        },
{
    routes_are_sorted_longest_first(routes_of(paths_of(ingress), answers, ns), 0);
}

/// A status is reported on the Ingress that it is of: with the address, or
/// with nothing once the address is taken back.
pub proof fn status_goes_to_its_ingress(ingress: Ingress, ip: Seq<char>)
    ensures
        address_patch_json(ingress, ip) == status_patch_json(
            ingress.metadata.any_name(),
            ingress.metadata.own_namespace(),
            address_status_json(ip),
        ),
        cleared_patch_json(ingress) is Object,
        cleared_patch_json(ingress)->Object_0.len() == 4,
        cleared_patch_json(ingress)->Object_0[2] == ("metadata"@, Json::Object(
            seq![
                ("name"@, Json::Text(ingress.metadata.any_name())),
                ("namespace"@, Json::Text(ingress.metadata.own_namespace())),
            ],
        )),
        cleared_patch_json(ingress)->Object_0[3] == ("status"@, Json::Object(Seq::empty())),
{
}

} // verus!
