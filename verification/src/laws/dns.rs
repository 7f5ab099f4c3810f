//! Laws of in-cluster DNS for tailnet egress.

use crate::context::Context;
use crate::dns::{
    claimed_fqdn, claiming_service_is_ranked, claims_come_from_eligible_services, duplicate_words,
    first_claim_has_the_name, holds_rewrites, is_dns_plan, lost_claim_has_a_winner, lost_claims,
    override_text, pair_precedes, ranked_claims, rewrites_are_of_those_that_stand_first,
    rewrites_of, service_key, stands_first, Candidate, DnsPlan, Duplicate, DuplicateView,
    EgressService,
};
use crate::laws::annotations::{is_ours, ours_is_shape_and_target};
use crate::names::service_base;
use crate::objects::ConfigMap;
use crate::sort::stably_sorted_is_sorted;
use crate::text::{lemma_precedes_irreflexive, precedes};
use vstd::prelude::*;
use vstd::string::*;

verus! {

/// Whether a Service may have a tailnet name: it is ours, stays, and its
/// annotation parsed with that name, which is not empty.
pub open spec fn may_have(svc: EgressService, ctx: Context, fqdn: Seq<char>) -> bool {
    &&& is_ours(svc.service, ctx)
    &&& svc.service.metadata.deletion_timestamp is None
    &&& svc.annotations is Ok
    &&& svc.annotations->Ok_0.tailnet_fqdn is Some
    &&& svc.annotations->Ok_0.tailnet_fqdn->0@ == fqdn
    &&& fqdn.len() > 0
}

/// Whether one Service comes before another: by namespace, then by name.
pub open spec fn comes_before(a: EgressService, b: EgressService) -> bool {
    let ns_a = a.service.metadata.own_namespace();
    let ns_b = b.service.metadata.own_namespace();
    precedes(ns_a, ns_b) || (ns_a == ns_b && precedes(
        a.service.metadata.any_name(),
        b.service.metadata.any_name(),
    ))
}

/// Whether a Service is the one that has a name: it may have it, and none of
/// the listed ones that may comes before it.
pub open spec fn has_the_name(
    services: Seq<EgressService>,
    ctx: Context,
    svc: EgressService,
    fqdn: Seq<char>,
) -> bool {
    &&& services.contains(svc)
    &&& may_have(svc, ctx, fqdn)
    &&& forall|other: EgressService| #[trigger]
        services.contains(other) && may_have(other, ctx, fqdn) ==> !comes_before(other, svc)
}

/// A Service claims a name exactly where it may have it, whatever else its
/// annotation says.
pub proof fn every_eligible_service_claims_its_name(
    svc: EgressService,
    ctx: Context,
    fqdn: Seq<char>,
)
    ensures
        claimed_fqdn(svc, ctx) == Some(fqdn) <==> may_have(svc, ctx, fqdn),
{
    ours_is_shape_and_target(svc.service, ctx);
}

/// A name is rewritten to the proxy of the Service that has it, by the name of
/// the proxy's Service in the operator's namespace; and nothing else is.
pub proof fn names_lead_to_the_proxy_of_their_service(
    services: Seq<EgressService>,
    ctx: Context,
    rewrite: (Seq<char>, Seq<char>),
)
    ensures
        rewrites_of(services, ctx).contains(rewrite) <==> exists|svc: EgressService| #[trigger]
            has_the_name(services, ctx, svc, rewrite.0) && rewrite.1 == "proxy-wg-"@ + service_base(
                svc.service.metadata.own_namespace(),
                svc.service.metadata.any_name(),
            ) + "."@ + ctx.operator_namespace@ + ".svc.cluster.local"@,
{
    rewrites_are_of_those_that_stand_first(services, ctx, rewrite);
    assert forall|svc: EgressService|
        #![trigger has_the_name(services, ctx, svc, rewrite.0)]
        #![trigger stands_first(services, ctx, svc, rewrite.0)]
        has_the_name(services, ctx, svc, rewrite.0) <==> stands_first(
            services,
            ctx,
            svc,
            rewrite.0,
        ) by {
        lemma_has_is_first(services, ctx, svc, rewrite.0);
    }
}

proof fn lemma_has_is_first(
    services: Seq<EgressService>,
    ctx: Context,
    svc: EgressService,
    fqdn: Seq<char>,
)
    ensures
        has_the_name(services, ctx, svc, fqdn) <==> stands_first(services, ctx, svc, fqdn),
{
    every_eligible_service_claims_its_name(svc, ctx, fqdn);
    assert forall|other: EgressService| claimed_fqdn(other, ctx) == Some(fqdn) <==> #[trigger]
        may_have(other, ctx, fqdn) by {
        every_eligible_service_claims_its_name(other, ctx, fqdn);
    }
    if has_the_name(services, ctx, svc, fqdn) {
        assert forall|other: EgressService| #[trigger]
            services.contains(other) && claimed_fqdn(other, ctx) == Some(
                fqdn,
            ) implies !pair_precedes(service_key(other), service_key(svc)) by {
            assert(may_have(other, ctx, fqdn));
        }
    }
    if stands_first(services, ctx, svc, fqdn) {
        assert forall|other: EgressService| #[trigger]
            services.contains(other) && may_have(other, ctx, fqdn) implies !comes_before(
            other,
            svc,
        ) by {
            assert(claimed_fqdn(other, ctx) == Some(fqdn));
        }
    }
}

/// Every name that some Service may have is rewritten.
pub proof fn every_eligible_name_is_rewritten(
    services: Seq<EgressService>,
    ctx: Context,
    k: int,
    fqdn: Seq<char>,
)
    requires
        0 <= k < services.len(),
        may_have(services[k], ctx, fqdn),
    ensures
        exists|i: int|
            0 <= i < rewrites_of(services, ctx).len() && (#[trigger] rewrites_of(services, ctx)[i]).0
                == fqdn,
{
    every_eligible_service_claims_its_name(services[k], ctx, fqdn);
    let j = claiming_service_is_ranked(services, ctx, k);
    first_claim_has_the_name(services, ctx, j);
    let claims = ranked_claims(services, ctx);
    let w = crate::dns::first_claim(claims, fqdn)->0;
    let i = rewrites_of(services, ctx).index_of((fqdn, claims[w].target));
    assert(rewrites_of(services, ctx)[i].0 == fqdn);
}

/// A Service whose name another has, which comes before it, is reported with
/// the one that has it.
pub proof fn losing_service_is_reported(
    services: Seq<EgressService>,
    ctx: Context,
    k: int,
    other: int,
    fqdn: Seq<char>,
) -> (lost: DuplicateView)
    requires
        0 <= k < services.len(),
        0 <= other < services.len(),
        may_have(services[k], ctx, fqdn),
        may_have(services[other], ctx, fqdn),
        comes_before(services[other], services[k]),
    ensures
        lost_claims(ranked_claims(services, ctx)).contains(lost),
        lost.service == k,
        lost.fqdn == fqdn,
{
    every_eligible_service_claims_its_name(services[k], ctx, fqdn);
    every_eligible_service_claims_its_name(services[other], ctx, fqdn);
    let claims = ranked_claims(services, ctx);
    let j = claiming_service_is_ranked(services, ctx, k);
    let before = claiming_service_is_ranked(services, ctx, other);
    stably_sorted_is_sorted::<Candidate>(crate::dns::candidates_of(services, ctx));
    first_claim_has_the_name(services, ctx, j);
    first_claim_has_the_name(services, ctx, before);
    let w = crate::dns::first_claim(claims, fqdn)->0;
    if j < before {
        assert(!<Candidate as crate::sort::Ranked>::before(claims[before], claims[j]));
    }
    if j == before {
        lemma_precedes_irreflexive(claims[j].ns);
        lemma_precedes_irreflexive(claims[j].name);
    }
    DuplicateView {
        service: k,
        fqdn,
        winner_ns: claims[w].ns,
        winner_name: claims[w].name,
    }
}

/// Only a Service that may have a name is reported to have lost it, and the
/// winner is the namespace and name of one that has it.
pub proof fn reported_service_lost_to_the_one_that_has_the_name(
    services: Seq<EgressService>,
    ctx: Context,
    k: int,
) -> (winner: EgressService)
    requires
        0 <= k < lost_claims(ranked_claims(services, ctx)).len(),
    ensures
        ({
            let lost = lost_claims(ranked_claims(services, ctx))[k];
            &&& 0 <= lost.service < services.len()
            &&& may_have(services[lost.service], ctx, lost.fqdn)
            &&& has_the_name(services, ctx, winner, lost.fqdn)
            &&& lost.winner_ns == winner.service.metadata.own_namespace()
            &&& lost.winner_name == winner.service.metadata.any_name()
            &&& !comes_before(services[lost.service], winner)
        }),
{
    broadcast use vstd::seq_lib::group_to_multiset_ensures;

    let all = crate::dns::candidates_of(services, ctx);
    let claims = ranked_claims(services, ctx);
    let at = lost_claim_has_a_winner(claims, k);
    stably_sorted_is_sorted::<Candidate>(all);
    assert(claims.to_multiset().count(claims[at.0]) > 0);
    assert(claims.to_multiset().count(claims[at.1]) > 0);
    assert(all.contains(claims[at.0]) && all.contains(claims[at.1]));
    claims_come_from_eligible_services(services, ctx, all.index_of(claims[at.0]));
    claims_come_from_eligible_services(services, ctx, all.index_of(claims[at.1]));
    let winner = services[claims[at.0].service];
    let fqdn = claims[at.0].fqdn;
    every_eligible_service_claims_its_name(winner, ctx, fqdn);
    every_eligible_service_claims_its_name(services[claims[at.1].service], ctx, fqdn);
    assert(services.contains(winner));
    assert forall|other: EgressService| #[trigger]
        services.contains(other) && may_have(other, ctx, fqdn) implies !comes_before(
        other,
        winner,
    ) by {
        every_eligible_service_claims_its_name(other, ctx, fqdn);
        let o = services.index_of(other);
        let j = claiming_service_is_ranked(services, ctx, o);
        first_claim_has_the_name(services, ctx, j);
        if j > at.0 {
            assert(!<Candidate as crate::sort::Ranked>::before(claims[j], claims[at.0]));
        } else {
            lemma_precedes_irreflexive(claims[j].ns);
            lemma_precedes_irreflexive(claims[j].name);
        }
    }
    assert(!<Candidate as crate::sort::Ranked>::before(claims[at.1], claims[at.0]));
    winner
}

/// One more rewrite is one more line at the end; without rewrites there is no
/// line.
pub proof fn each_rewrite_is_one_line(
    rewrites: Seq<(Seq<char>, Seq<char>)>,
    rewrite: (Seq<char>, Seq<char>),
)
    ensures
        override_text(Seq::empty()).len() == 0,
        override_text(rewrites.push(rewrite)) == override_text(rewrites) + (("rewrite name "@
            + rewrite.0) + " "@ + rewrite.1 + "\n"@),
{
    assert(rewrites.push(rewrite).drop_last() =~= rewrites);
}

/// The rewrites stand in the CoreDNS ConfigMap, under the operator's key and
/// no other; where there are none there is no data.
pub proof fn rewrites_stand_under_their_key(
    config_map: ConfigMap,
    rewrites: Seq<(Seq<char>, Seq<char>)>,
)
    requires
        holds_rewrites(config_map, rewrites),
    ensures
        config_map.metadata.name is Some && config_map.metadata.name->0@ == "coredns-custom"@,
        config_map.metadata.namespace is Some && config_map.metadata.namespace->0@
            == "kube-system"@,
        rewrites.len() == 0 ==> config_map.data is None,
        rewrites.len() > 0 ==> config_map.data is Some && (forall|key: Seq<char>| #[trigger]
            config_map.data->0@.contains_key(key) <==> key == "headmaster-egress.override"@)
            && config_map.data->0@["headmaster-egress.override"@]@ == override_text(rewrites),
{
    if rewrites.len() > 0 {
        assert forall|key: Seq<char>| #[trigger] config_map.data->0@.contains_key(key) <==> key
            == "headmaster-egress.override"@ by {
            assert(config_map.data->0@.dom().contains(key) <==> key
                == "headmaster-egress.override"@);
        }
    }
}

/// The warning on a lost name says which, and who has it; what a report says is
/// what its fields hold.
pub proof fn lost_name_is_told(duplicate: Duplicate)
    ensures
        duplicate@.service == duplicate.service,
        duplicate@.fqdn == duplicate.fqdn@,
        duplicate@.winner_ns == duplicate.winner_ns@,
        duplicate@.winner_name == duplicate.winner_name@,
        duplicate_words(duplicate@) == "tailnet-fqdn '"@ + duplicate.fqdn@
            + "' is already rewritten to the egress proxy of Service '"@ + duplicate.winner_ns@
            + "/"@ + (duplicate.winner_name@
            + "'; a tailnet FQDN must be cluster-unique — this Service's egress works, but in-cluster DNS resolves the name to the other proxy"@),
{
}

/// There is a plan exactly where the deployment keeps rewrites, whatever the
/// Services are: the ConfigMap with the rewrites of the Services, and word of
/// each Service that lost its name.
pub proof fn plans_are_made_where_they_are_wanted(
    plan: Option<DnsPlan>,
    services: Seq<EgressService>,
    ctx: Context,
)
    requires
        is_dns_plan(plan, services, ctx),
    ensures
        plan is Some <==> ctx.egress_dns_coredns_custom,
        plan is Some ==> {
            let lost = lost_claims(ranked_claims(services, ctx));
            &&& holds_rewrites(plan->0.config_map, rewrites_of(services, ctx))
            &&& plan->0.duplicates@.len() == lost.len()
            &&& forall|i: int|
                0 <= i < lost.len() ==> (#[trigger] plan->0.duplicates@[i])@ == lost[i]
        },
{
    if plan is Some {
        let lost = lost_claims(ranked_claims(services, ctx));
        assert(crate::sort::views(plan->0.duplicates@) == lost);
        assert(crate::sort::views(plan->0.duplicates@).len() == plan->0.duplicates@.len());
        assert forall|i: int| 0 <= i < lost.len() implies (#[trigger] plan->0.duplicates@[i])@
            == lost[i] by {
            assert(crate::sort::views(plan->0.duplicates@)[i] == plan->0.duplicates@[i]@);
        }
    }
}

} // verus!
