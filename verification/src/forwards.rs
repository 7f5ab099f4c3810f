//! Raw TCP forwards: which ports of a Service can be forwarded, and the serve
//! config that forwards them.

use crate::json::{
    collected, collected_last_wins, json_of, last_pair_is_found, lookup, object, object1,
    pair_views, text_value, Json,
};
use crate::objects::{ports_of, IntOrString, Service, ServicePort};
use crate::text::{decimal, decimal_i32, decimal_injective, join3, same_text};
use vstd::prelude::*;

verus! {

// ---- ports ----

/// Whether a port speaks TCP, which it does where it does not say.
pub open spec fn is_tcp(port: ServicePort) -> bool {
    match port.protocol {
        Some(protocol) => protocol@ == "TCP"@,
        None => true,
    }
}

/// The TCP ports of a Service, in order. The serve config forwards no others.
pub open spec fn tcp_ports(svc: Service) -> Seq<ServicePort> {
    ports_of(svc).filter(|port: ServicePort| is_tcp(port))
}

/// The port to listen on and the port of the backend: the target port where it
/// is a number. A named target port means nothing outside the cluster.
pub open spec fn forward_of(port: ServicePort) -> (i32, i32) {
    (
        port.port,
        match port.target_port {
            Some(IntOrString::Int(number)) => number,
            _ => port.port,
        },
    )
}

fn speaks_tcp(port: &ServicePort) -> (tcp: bool)
    ensures
        tcp == is_tcp(*port),
{
    match &port.protocol {
        Some(protocol) => same_text(protocol.as_str(), "TCP"),
        None => true,
    }
}

/// Collects the ports to listen on and the backend ports of an ExternalName
/// Service.
pub fn collect_tcp_forwards(svc: &Service) -> (forwards: Vec<(i32, i32)>)
    ensures
        forwards@ == tcp_ports(*svc).map_values(|port: ServicePort| forward_of(port)),
{
    let mut forwards: Vec<(i32, i32)> = Vec::new();
    let ghost f = |port: ServicePort| forward_of(port);
    let ghost keep = |port: ServicePort| is_tcp(port);
    proof {
        reveal(Seq::filter);
        assert(Seq::<ServicePort>::empty().filter(keep).map_values(f) =~= Seq::empty());
    }
    if let Some(spec) = &svc.spec {
        if let Some(ports) = &spec.ports {
            let mut i: usize = 0;
            proof {
                assert(ports@.take(0) =~= Seq::empty());
            }
            while i < ports.len()
                invariant
                    i <= ports@.len(),
                    keep == (|port: ServicePort| is_tcp(port)),
                    f == (|port: ServicePort| forward_of(port)),
                    forwards@ == ports@.take(i as int).filter(keep).map_values(f),
                decreases ports@.len() - i,
            {
                let port = &ports[i];
                proof {
                    reveal(Seq::filter);
                    assert(ports@.take(i + 1).drop_last() =~= ports@.take(i as int));
                    assert(ports@.take(i + 1).last() == *port);
                }
                if speaks_tcp(port) {
                    let backend: i32 = match &port.target_port {
                        Some(IntOrString::Int(number)) => *number,
                        _ => port.port,
                    };
                    let ghost before = ports@.take(i as int).filter(keep);
                    forwards.push((port.port, backend));
                    proof {
                        assert(before.push(*port).map_values(f) =~= before.map_values(f).push(
                            f(*port),
                        ));
                    }
                }
                i = i + 1;
            }
            proof {
                assert(ports@.take(i as int) =~= ports@);
            }
        }
    }
    forwards
}

/// Collects the ports that the proxy of an exposed Service forwards. The proxy
/// dials the Service itself, so target ports do not matter.
pub fn collect_expose_tcp_ports(svc: &Service) -> (numbers: Vec<i32>)
    ensures
        numbers@ == tcp_ports(*svc).map_values(|port: ServicePort| port.port),
{
    let mut numbers: Vec<i32> = Vec::new();
    let ghost f = |port: ServicePort| port.port;
    let ghost keep = |port: ServicePort| is_tcp(port);
    proof {
        reveal(Seq::filter);
        assert(Seq::<ServicePort>::empty().filter(keep).map_values(f) =~= Seq::empty());
    }
    if let Some(spec) = &svc.spec {
        if let Some(ports) = &spec.ports {
            let mut i: usize = 0;
            proof {
                assert(ports@.take(0) =~= Seq::empty());
            }
            while i < ports.len()
                invariant
                    i <= ports@.len(),
                    keep == (|port: ServicePort| is_tcp(port)),
                    f == (|port: ServicePort| port.port),
                    numbers@ == ports@.take(i as int).filter(keep).map_values(f),
                decreases ports@.len() - i,
            {
                let port = &ports[i];
                proof {
                    reveal(Seq::filter);
                    assert(ports@.take(i + 1).drop_last() =~= ports@.take(i as int));
                    assert(ports@.take(i + 1).last() == *port);
                }
                if speaks_tcp(port) {
                    let ghost before = ports@.take(i as int).filter(keep);
                    numbers.push(port.port);
                    proof {
                        assert(before.push(*port).map_values(f) =~= before.map_values(f).push(
                            f(*port),
                        ));
                    }
                }
                i = i + 1;
            }
            proof {
                assert(ports@.take(i as int) =~= ports@);
            }
        }
    }
    numbers
}

// ---- serve config ----

/// A forward to a port of a host, bytes in and bytes out.
pub open spec fn forward_json(host: Seq<char>, port: int) -> Json {
    Json::Object(seq![("TCPForward"@, Json::Text(host + ":"@ + decimal(port)))])
}

/// The forwards by the port to listen on.
pub open spec fn forward_pairs(host: Seq<char>, forwards: Seq<(i32, i32)>) -> Seq<
    (Seq<char>, Json),
> {
    forwards.map_values(
        |forward: (i32, i32)| (decimal(forward.0 as int), forward_json(host, forward.1 as int)),
    )
}

/// The serve config that forwards some ports to a host.
pub open spec fn tcp_serve_json(host: Seq<char>, forwards: Seq<(i32, i32)>) -> Json {
    Json::Object(seq![("TCP"@, Json::Object(collected(forward_pairs(host, forwards))))])
}

/// Each port forwarded to the same port.
pub open spec fn same_ports(ports: Seq<i32>) -> Seq<(i32, i32)> {
    ports.map_values(|port: i32| (port, port))
}

/// Builds the serve config of an ExternalName Service: one raw TCP forward for
/// each declared port, straight to the host.
pub fn build_tcp_serve_json(external_name: &str, forwards: &[(i32, i32)]) -> (value:
    serde_json::Value)
    ensures
        json_of(value) == tcp_serve_json(external_name@, forwards@),
{
    let mut pairs: Vec<(String, serde_json::Value)> = Vec::new();
    let mut i: usize = 0;
    while i < forwards.len()
        invariant
            i <= forwards@.len(),
            pairs@.len() == i,
            forall|k: int|
                0 <= k < i ==> (#[trigger] pairs@[k]).0@ == decimal(forwards@[k].0 as int)
                    && json_of(pairs@[k].1) == forward_json(
                    external_name@,
                    forwards@[k].1 as int,
                ),
        decreases forwards@.len() - i,
    {
        let (listen, backend): (i32, i32) = forwards[i];
        let target = join3(external_name, ":", decimal_i32(backend).as_str());
        pairs.push((decimal_i32(listen), object1("TCPForward", text_value(target))));
        i = i + 1;
    }
    proof {
        assert(pair_views(pairs@) =~= forward_pairs(external_name@, forwards@));
    }
    object1("TCP", object(pairs))
}

/// Builds the serve config of an exposed Service: one raw TCP forward for each
/// declared port, to the same port of the backend.
pub fn build_expose_serve_json(backend_host: &str, ports: &[i32]) -> (value: serde_json::Value)
    ensures
        json_of(value) == tcp_serve_json(backend_host@, same_ports(ports@)),
{
    let mut forwards: Vec<(i32, i32)> = Vec::new();
    let mut i: usize = 0;
    while i < ports.len()
        invariant
            i <= ports@.len(),
            forwards@ =~= same_ports(ports@.take(i as int)),
        decreases ports@.len() - i,
    {
        proof {
            assert(same_ports(ports@.take(i + 1)) =~= same_ports(ports@.take(i as int)).push(
                (ports@[i as int], ports@[i as int]),
            ));
        }
        forwards.push((ports[i], ports[i]));
        i = i + 1;
    }
    proof {
        assert(ports@.take(i as int) =~= ports@);
    }
    build_tcp_serve_json(backend_host, forwards.as_slice())
}

/// Every declared port is forwarded to its backend; of several declarations of
/// one port the last holds.
pub proof fn declared_port_is_forwarded(host: Seq<char>, forwards: Seq<(i32, i32)>, i: int)
    requires
        0 <= i < forwards.len(),
        forall|j: int| i < j < forwards.len() ==> (#[trigger] forwards[j]).0 != forwards[i].0,
    ensures
        lookup(
            collected(forward_pairs(host, forwards)),
            decimal(forwards[i].0 as int),
        ) == Some(forward_json(host, forwards[i].1 as int)),
{
    let pairs = forward_pairs(host, forwards);
    assert forall|j: int| i < j < pairs.len() implies (#[trigger] pairs[j]).0 != pairs[i].0 by {
        assert(forwards[j].0 != forwards[i].0);
        if pairs[j].0 == pairs[i].0 {
            decimal_injective(forwards[j].0 as int, forwards[i].0 as int);
        }
    }
    last_pair_is_found(pairs, i);
    collected_last_wins(pairs, pairs[i].0);
}

/// Nothing is forwarded but the declared ports.
pub proof fn only_declared_ports_are_forwarded(
    host: Seq<char>,
    forwards: Seq<(i32, i32)>,
    listen: i32,
)
    requires
        forall|i: int| 0 <= i < forwards.len() ==> (#[trigger] forwards[i]).0 != listen,
    ensures
        lookup(collected(forward_pairs(host, forwards)), decimal(listen as int)) is None,
{
    let pairs = forward_pairs(host, forwards);
    collected_last_wins(pairs, decimal(listen as int));
    assert forall|i: int| 0 <= i < pairs.len() implies (#[trigger] pairs[i]).0 != decimal(
        listen as int,
    ) by {
        assert(forwards[i].0 != listen);
        if pairs[i].0 == decimal(listen as int) {
            decimal_injective(forwards[i].0 as int, listen as int);
        }
    }
    lemma_lookup_none(pairs, decimal(listen as int));
}

proof fn lemma_lookup_none(pairs: Seq<(Seq<char>, Json)>, key: Seq<char>)
    requires
        forall|i: int| 0 <= i < pairs.len() ==> (#[trigger] pairs[i]).0 != key,
    ensures
        lookup(pairs, key) is None,
    decreases pairs.len(),
{
    if pairs.len() > 0 {
        assert(pairs[pairs.len() - 1].0 != key);
        assert forall|i: int| 0 <= i < pairs.drop_last().len() implies (
        #[trigger] pairs.drop_last()[i]).0 != key by {
            assert(pairs.drop_last()[i] == pairs[i]);
        }
        lemma_lookup_none(pairs.drop_last(), key);
    }
}

} // verus!
