//! Laws of raw TCP forwards.

use crate::expose::exposed_ports;
use crate::external_service::forwards_of;
use crate::forwards::{
    forward_pairs, only_declared_ports_are_forwarded, same_ports, tcp_ports, tcp_serve_json,
};
use crate::json::{collected, collected_last_wins, last_pair_is_found, lookup, Json};
use crate::objects::{ports_of, Service, ServicePort};
use crate::text::{decimal, decimal_injective};
use vstd::prelude::*;
use vstd::string::*;

verus! {

/// Whether a port speaks TCP: it says so, or says nothing.
pub open spec fn speaks_tcp(port: ServicePort) -> bool {
    port.protocol is None || port.protocol->0@ == "TCP"@
}

/// The port that a declared port leads to: its target where that is a number,
/// else its own number.
pub open spec fn leads_to(port: ServicePort) -> i32 {
    if port.target_port is Some && port.target_port->0 is Int {
        port.target_port->0->Int_0
    } else {
        port.port
    }
}

/// A Service without ports forwards nothing.
pub proof fn nothing_is_forwarded_without_ports(svc: Service)
    requires
        svc.spec is None || svc.spec->0.ports is None || svc.spec->0.ports->0@.len() == 0,
    ensures
        forwards_of(svc).len() == 0,
        exposed_ports(svc).len() == 0,
{
    reveal(Seq::filter);
}

/// Declaring one more port adds one forward at the end where the port speaks
/// TCP, and changes nothing where it does not.
pub proof fn each_tcp_port_is_one_forward(svc: Service, more: Service, port: ServicePort)
    requires
        ports_of(more) == ports_of(svc).push(port),
    ensures
        speaks_tcp(port) ==> forwards_of(more) == forwards_of(svc).push(
            (port.port, leads_to(port)),
        ),
        !speaks_tcp(port) ==> forwards_of(more) == forwards_of(svc),
        speaks_tcp(port) ==> exposed_ports(more) == exposed_ports(svc).push(port.port),
        !speaks_tcp(port) ==> exposed_ports(more) == exposed_ports(svc),
{
    reveal(Seq::filter);
    assert(ports_of(more).drop_last() =~= ports_of(svc));
    assert(ports_of(more).last() == port);
    if speaks_tcp(port) {
        assert(forwards_of(more) =~= forwards_of(svc).push((port.port, leads_to(port))));
        assert(exposed_ports(more) =~= exposed_ports(svc).push(port.port));
    }
}

/// Every TCP port of a Service is forwarded: to its target on the host where
/// the Service egresses, to itself where it is exposed.
pub proof fn every_tcp_port_is_forwarded(svc: Service, i: int)
    requires
        0 <= i < ports_of(svc).len(),
        speaks_tcp(ports_of(svc)[i]),
    ensures
        forwards_of(svc).contains((ports_of(svc)[i].port, leads_to(ports_of(svc)[i]))),
        exposed_ports(svc).contains(ports_of(svc)[i].port),
{
    lemma_kept(ports_of(svc), |port: ServicePort| crate::forwards::is_tcp(port), i);
    let k = tcp_ports(svc).index_of(ports_of(svc)[i]);
    assert(forwards_of(svc)[k] == (ports_of(svc)[i].port, leads_to(ports_of(svc)[i])));
    assert(exposed_ports(svc)[k] == ports_of(svc)[i].port);
}

proof fn lemma_kept(ports: Seq<ServicePort>, keep: spec_fn(ServicePort) -> bool, i: int)
    requires
        0 <= i < ports.len(),
        keep(ports[i]),
    ensures
        ports.filter(keep).contains(ports[i]),
    decreases ports.len(),
{
    reveal(Seq::filter);
    let front = ports.drop_last();
    if i < front.len() {
        assert(front[i] == ports[i]);
        lemma_kept(front, keep, i);
        let k = front.filter(keep).index_of(ports[i]);
        assert(ports.filter(keep)[k] == ports[i]);
    } else {
        assert(ports.filter(keep)[front.filter(keep).len() as int] == ports[i]);
    }
}

/// An exposed port leads to the same port.
pub proof fn exposed_ports_lead_to_themselves(ports: Seq<i32>)
    ensures
        same_ports(ports).len() == ports.len(),
        forall|i: int| 0 <= i < ports.len() ==> #[trigger] same_ports(ports)[i] == (ports[i], ports[i]),
{
}

/// The serve config of some forwards: an object with nothing but the TCP
/// ports. Under the number of each port that is listened on stands the address
/// of the host's port that it leads to; of several forwards of one port the
/// last holds. No other number is listened on.
pub proof fn serve_config_lists_the_forwards(
    host: Seq<char>,
    forwards: Seq<(i32, i32)>,
    listen: i32,
) -> (ports: Seq<(Seq<char>, Json)>)
    ensures
        tcp_serve_json(host, forwards) == Json::Object(seq![("TCP"@, Json::Object(ports))]),
        forall|i: int|
            0 <= i < forwards.len() && (#[trigger] forwards[i]).0 == listen && (forall|j: int|
                i < j < forwards.len() ==> (#[trigger] forwards[j]).0 != listen) ==> lookup(
                ports,
                decimal(listen as int),
            ) == Some(
                Json::Object(
                    seq![
                        ("TCPForward"@, Json::Text(host + ":"@ + decimal(forwards[i].1 as int))),
                    ],
                ),
            ),
        (forall|i: int| 0 <= i < forwards.len() ==> (#[trigger] forwards[i]).0 != listen) ==> lookup(
            ports,
            decimal(listen as int),
        ) is None,
{
    let pairs = forward_pairs(host, forwards);
    let ports = collected(pairs);
    collected_last_wins(pairs, decimal(listen as int));
    assert forall|i: int|
        0 <= i < forwards.len() && (#[trigger] forwards[i]).0 == listen && (forall|j: int|
            i < j < forwards.len() ==> (#[trigger] forwards[j]).0 != listen) implies lookup(
        ports,
        decimal(listen as int),
    ) == Some(
        Json::Object(
            seq![("TCPForward"@, Json::Text(host + ":"@ + decimal(forwards[i].1 as int)))],
        ),
    ) by {
        assert forall|j: int| i < j < pairs.len() implies (#[trigger] pairs[j]).0 != pairs[i].0 by {
            assert(forwards[j].0 != listen);
            if pairs[j].0 == pairs[i].0 {
                decimal_injective(forwards[j].0 as int, listen as int);
            }
        }
        last_pair_is_found(pairs, i);
    }
    if forall|i: int| 0 <= i < forwards.len() ==> (#[trigger] forwards[i]).0 != listen {
        only_declared_ports_are_forwarded(host, forwards, listen);
    }
    ports
}

} // verus!
