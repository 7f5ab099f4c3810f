//! In-cluster DNS for tailnet egress: one CoreDNS rewrite for each egress
//! Service, from the tailnet name to the Service of its proxy.
//!
//! A tailnet name can be rewritten to one target only. Where several Services
//! claim one, the first by namespace and name has it.

use crate::annotations::{
    is_targeted, targets, ANNOTATION_CONFIG, AnnotationError, IngressAnnotations,
};
use crate::context::Context;
use crate::names::{service_base, ProxyNames};
use crate::objects::{text_of, ConfigMap, ObjectMeta, Service};
use crate::sort::{in_order, sort, stably_sorted, stably_sorted_is_sorted, views, Ranked};
use crate::step::{warning, Warning};
use crate::text::{
    join2, join4, join5, lemma_precedes_irreflexive, lemma_precedes_total,
    lemma_precedes_transitive, precedes, same_text, text_before,
};
use crate::textmap::TextMap;
use vstd::prelude::*;
use vstd::string::*;

verus! {

pub const COREDNS_CUSTOM_NAMESPACE: &'static str = "kube-system";

pub const COREDNS_CUSTOM_NAME: &'static str = "coredns-custom";

pub const OVERRIDE_KEY: &'static str = "headmaster-egress.override";

// ---- which Services take part ----

/// Whether a Service is of type ExternalName.
pub open spec fn external_name_type(svc: Service) -> bool {
    svc.spec is Some && text_of(svc.spec->0.type_) == Some("ExternalName"@)
}

/// Whether a Service has the shape of an egress Service: type ExternalName,
/// with a config annotation.
pub open spec fn egress_shape(svc: Service) -> bool {
    external_name_type(svc) && svc.metadata.annotation_of(ANNOTATION_CONFIG@) is Some
}

/// Whether a Service is of type ExternalName.
pub fn is_external_name(svc: &Service) -> (result: bool)
    ensures
        result == external_name_type(*svc),
{
    match &svc.spec {
        Some(spec) => match &spec.type_ {
            Some(type_) => same_text(type_.as_str(), "ExternalName"),
            None => false,
        },
        None => false,
    }
}

/// Whether a Service has the shape of an egress Service.
pub fn is_egress_shape(svc: &Service) -> (result: bool)
    ensures
        result == egress_shape(*svc),
{
    is_external_name(svc) && svc.metadata.annotation(ANNOTATION_CONFIG).is_some()
}

/// A Service with what its config annotation was parsed to.
#[derive(Debug)]
pub struct EgressService {
    pub service: Service,
    pub annotations: Result<IngressAnnotations, AnnotationError>,
}

/// A Service that claims a tailnet name.
#[derive(Debug)]
pub struct Candidate {
    /// Position of the Service in the list it came from.
    pub service: usize,
    pub ns: String,
    pub name: String,
    pub fqdn: String,
    pub target: String,
}

/// What a claim says.
pub struct CandidateView {
    pub service: int,
    pub ns: Seq<char>,
    pub name: Seq<char>,
    pub fqdn: Seq<char>,
    pub target: Seq<char>,
}

impl View for Candidate {
    type V = CandidateView;

    open spec fn view(&self) -> CandidateView {
        CandidateView {
            service: self.service as int,
            ns: self.ns@,
            name: self.name@,
            fqdn: self.fqdn@,
            target: self.target@,
        }
    }
}

/// Whether one pair of texts sorts before another: by the first part, then by
/// the second.
pub open spec fn pair_precedes(a: (Seq<char>, Seq<char>), b: (Seq<char>, Seq<char>)) -> bool {
    precedes(a.0, b.0) || (a.0 == b.0 && precedes(a.1, b.1))
}

proof fn lemma_pair_asymmetric(a: (Seq<char>, Seq<char>), b: (Seq<char>, Seq<char>))
    requires
        pair_precedes(a, b),
    ensures
        !pair_precedes(b, a),
{
    lemma_precedes_irreflexive(a.0);
    lemma_precedes_irreflexive(a.1);
    if precedes(a.0, b.0) && precedes(b.0, a.0) {
        lemma_precedes_transitive(a.0, b.0, a.0);
    }
    if precedes(a.1, b.1) && precedes(b.1, a.1) {
        lemma_precedes_transitive(a.1, b.1, a.1);
    }
}

proof fn lemma_pair_not_before_transitive(
    a: (Seq<char>, Seq<char>),
    b: (Seq<char>, Seq<char>),
    c: (Seq<char>, Seq<char>),
)
    requires
        !pair_precedes(a, b),
        !pair_precedes(b, c),
    ensures
        !pair_precedes(a, c),
{
    if pair_precedes(a, c) {
        lemma_precedes_total(a.0, b.0);
        lemma_precedes_total(b.0, c.0);
        lemma_precedes_total(a.1, b.1);
        lemma_precedes_total(b.1, c.1);
        lemma_precedes_irreflexive(a.0);
        lemma_precedes_irreflexive(a.1);
        lemma_precedes_irreflexive(b.0);
        lemma_precedes_irreflexive(b.1);
        if a.0 == b.0 && b.0 == c.0 {
            if a.1 != b.1 && b.1 != c.1 {
                lemma_precedes_transitive(c.1, b.1, a.1);
                lemma_precedes_transitive(a.1, c.1, a.1);
            }
        } else if a.0 != b.0 && b.0 != c.0 {
            lemma_precedes_transitive(c.0, b.0, a.0);
            if precedes(a.0, c.0) {
                lemma_precedes_transitive(a.0, c.0, a.0);
            }
        } else if a.0 == b.0 {
            if precedes(a.0, c.0) {
                lemma_precedes_transitive(a.0, c.0, a.0);
            }
        } else {
            if precedes(a.0, c.0) {
                lemma_precedes_transitive(a.0, c.0, a.0);
            }
        }
    }
}

/// Claims are ranked by namespace and name.
impl Ranked for Candidate {
    open spec fn before(a: CandidateView, b: CandidateView) -> bool {
        pair_precedes((a.ns, a.name), (b.ns, b.name))
    }

    proof fn before_is_asymmetric(a: CandidateView, b: CandidateView) {
        lemma_pair_asymmetric((a.ns, a.name), (b.ns, b.name));
    }

    proof fn not_before_is_transitive(a: CandidateView, b: CandidateView, c: CandidateView) {
        lemma_pair_not_before_transitive((a.ns, a.name), (b.ns, b.name), (c.ns, c.name));
    }

    fn comes_before(&self, other: &Self) -> (result: bool) {
        text_before(self.ns.as_str(), other.ns.as_str()) || (same_text(
            self.ns.as_str(),
            other.ns.as_str(),
        ) && text_before(self.name.as_str(), other.name.as_str()))
    }
}

/// Rewrites are ranked by the rewritten name, then by the target.
impl Ranked for (String, String) {
    open spec fn before(a: (Seq<char>, Seq<char>), b: (Seq<char>, Seq<char>)) -> bool {
        pair_precedes(a, b)
    }

    proof fn before_is_asymmetric(a: (Seq<char>, Seq<char>), b: (Seq<char>, Seq<char>)) {
        lemma_pair_asymmetric(a, b);
    }

    proof fn not_before_is_transitive(
        a: (Seq<char>, Seq<char>),
        b: (Seq<char>, Seq<char>),
        c: (Seq<char>, Seq<char>),
    ) {
        lemma_pair_not_before_transitive(a, b, c);
    }

    fn comes_before(&self, other: &Self) -> (result: bool) {
        text_before(self.0.as_str(), other.0.as_str()) || (same_text(
            self.0.as_str(),
            other.0.as_str(),
        ) && text_before(self.1.as_str(), other.1.as_str()))
    }
}

/// The in-cluster name of the Service of a Service's egress proxy.
pub open spec fn rewrite_target(ns: Seq<char>, name: Seq<char>, operator_namespace: Seq<char>) -> Seq<
    char,
> {
    "proxy-wg-"@ + service_base(ns, name) + "."@ + operator_namespace + ".svc.cluster.local"@
}

/// Builds the in-cluster name of the Service of a Service's egress proxy.
pub fn proxy_address(ns: &str, name: &str, operator_namespace: &str) -> (address: String)
    ensures
        address@ == rewrite_target(ns@, name@, operator_namespace@),
{
    let names = ProxyNames::for_service(ns, name);
    join4(names.wg_service_name.as_str(), ".", operator_namespace, ".svc.cluster.local")
}

/// The tailnet name that a Service claims: one that is not empty, in a valid
/// annotation of a Service that has the egress shape, is not being deleted and
/// is meant for this deployment.
pub open spec fn claimed_fqdn(svc: EgressService, ctx: Context) -> Option<Seq<char>> {
    if egress_shape(svc.service) && svc.service.metadata.deletion_timestamp is None && targets(
        svc.service.metadata,
        ctx.operator_namespace@,
        ctx.claim_default,
    ) {
        match svc.annotations {
            Ok(annotations) => annotations.tailnet_host(),
            Err(_) => None,
        }
    } else {
        None
    }
}

/// The claims of some Services, in their order.
pub open spec fn candidates_of(services: Seq<EgressService>, ctx: Context) -> Seq<CandidateView>
    decreases services.len(),
{
    if services.len() == 0 {
        Seq::empty()
    } else {
        let front = candidates_of(services.drop_last(), ctx);
        let meta = services.last().service.metadata;
        match claimed_fqdn(services.last(), ctx) {
            Some(fqdn) => front.push(
                CandidateView {
                    service: services.len() - 1,
                    ns: meta.own_namespace(),
                    name: meta.any_name(),
                    fqdn,
                    target: rewrite_target(
                        meta.own_namespace(),
                        meta.any_name(),
                        ctx.operator_namespace@,
                    ),
                },
            ),
            None => front,
        }
    }
}

// ---- who has a name ----

/// Position of the first claim to a name.
pub open spec fn first_claim(claims: Seq<CandidateView>, fqdn: Seq<char>) -> Option<int>
    decreases claims.len(),
{
    if claims.len() == 0 {
        None
    } else {
        match first_claim(claims.drop_last(), fqdn) {
            Some(i) => Some(i),
            None => if claims.last().fqdn == fqdn {
                Some(claims.len() - 1)
            } else {
                None
            },
        }
    }
}

/// The rewrites of the first claims to each name, in the order of the claims.
pub open spec fn won_rewrites(claims: Seq<CandidateView>) -> Seq<(Seq<char>, Seq<char>)>
    decreases claims.len(),
{
    if claims.len() == 0 {
        Seq::empty()
    } else {
        let front = won_rewrites(claims.drop_last());
        match first_claim(claims.drop_last(), claims.last().fqdn) {
            Some(_) => front,
            None => front.push((claims.last().fqdn, claims.last().target)),
        }
    }
}

/// A claim to a name that another Service has.
#[derive(Debug, PartialEq, Eq)]
pub struct Duplicate {
    /// Position of the claiming Service in the list it came from.
    pub service: usize,
    pub fqdn: String,
    pub winner_ns: String,
    pub winner_name: String,
}

/// What a lost claim says.
pub struct DuplicateView {
    pub service: int,
    pub fqdn: Seq<char>,
    pub winner_ns: Seq<char>,
    pub winner_name: Seq<char>,
}

impl View for Duplicate {
    type V = DuplicateView;

    open spec fn view(&self) -> DuplicateView {
        DuplicateView {
            service: self.service as int,
            fqdn: self.fqdn@,
            winner_ns: self.winner_ns@,
            winner_name: self.winner_name@,
        }
    }
}

/// The claims to names that an earlier claim has.
pub open spec fn lost_claims(claims: Seq<CandidateView>) -> Seq<DuplicateView>
    decreases claims.len(),
{
    if claims.len() == 0 {
        Seq::empty()
    } else {
        let front = lost_claims(claims.drop_last());
        let last = claims.last();
        match first_claim(claims.drop_last(), last.fqdn) {
            Some(i) => front.push(
                DuplicateView {
                    service: last.service,
                    fqdn: last.fqdn,
                    winner_ns: claims[i].ns,
                    winner_name: claims[i].name,
                },
            ),
            None => front,
        }
    }
}

/// The claims of some Services in the order in which names are given out.
pub open spec fn ranked_claims(services: Seq<EgressService>, ctx: Context) -> Seq<CandidateView> {
    stably_sorted::<Candidate>(candidates_of(services, ctx))
}

/// The rewrites of some Services, by name.
pub open spec fn rewrites_of(services: Seq<EgressService>, ctx: Context) -> Seq<
    (Seq<char>, Seq<char>),
> {
    stably_sorted::<(String, String)>(won_rewrites(ranked_claims(services, ctx)))
}

fn candidates(services: &Vec<EgressService>, ctx: &Context) -> (claims: Vec<Candidate>)
    ensures
        views(claims@) == candidates_of(services@, *ctx),
{
    let mut claims: Vec<Candidate> = Vec::new();
    let mut i: usize = 0;
    proof {
        assert(services@.take(0) =~= Seq::empty());
        assert(views(claims@) =~= Seq::empty());
    }
    while i < services.len()
        invariant
            i <= services@.len(),
            views(claims@) == candidates_of(services@.take(i as int), *ctx),
        decreases services@.len() - i,
    {
        let svc = &services[i];
        let ghost before = views(claims@);
        proof {
            assert(services@.take(i + 1).drop_last() =~= services@.take(i as int));
            assert(services@.take(i + 1).last() == *svc);
        }
        if is_egress_shape(&svc.service) && svc.service.metadata.deletion_timestamp.is_none()
            && is_targeted(&svc.service, ctx) {
            if let Ok(annotations) = &svc.annotations {
                if let Some(fqdn) = annotations.egress_host() {
                    let ns = svc.service.metadata.namespace_or_default();
                    let name = svc.service.metadata.name_any();
                    let target = proxy_address(
                        ns.as_str(),
                        name.as_str(),
                        ctx.operator_namespace.as_str(),
                    );
                    let claim = Candidate { service: i, ns, name, fqdn, target };
                    claims.push(claim);
                    proof {
                        assert(views(claims@) =~= before.push(claim@));
                    }
                }
            }
        }
        i = i + 1;
    }
    proof {
        assert(services@.take(i as int) =~= services@);
    }
    claims
}

proof fn lemma_first_claim(claims: Seq<CandidateView>, fqdn: Seq<char>)
    ensures
        match first_claim(claims, fqdn) {
            Some(i) => 0 <= i < claims.len() && claims[i].fqdn == fqdn && (forall|j: int|
                0 <= j < i ==> (#[trigger] claims[j]).fqdn != fqdn),
            None => forall|j: int| 0 <= j < claims.len() ==> (#[trigger] claims[j]).fqdn != fqdn,
        },
    decreases claims.len(),
{
    if claims.len() > 0 {
        lemma_first_claim(claims.drop_last(), fqdn);
        match first_claim(claims.drop_last(), fqdn) {
            Some(i) => {
                assert(claims.drop_last()[i] == claims[i]);
                assert forall|j: int| 0 <= j < i implies (#[trigger] claims[j]).fqdn != fqdn by {
                    assert(claims.drop_last()[j] == claims[j]);
                }
            },
            None => {
                assert forall|j: int| 0 <= j < claims.len() - 1 implies (
                #[trigger] claims[j]).fqdn != fqdn by {
                    assert(claims.drop_last()[j] == claims[j]);
                }
            },
        }
    }
}

proof fn lemma_first_claim_at(claims: Seq<CandidateView>, fqdn: Seq<char>, i: int)
    requires
        0 <= i < claims.len(),
        claims[i].fqdn == fqdn,
        forall|j: int| 0 <= j < i ==> (#[trigger] claims[j]).fqdn != fqdn,
    ensures
        first_claim(claims, fqdn) == Some(i),
{
    lemma_first_claim(claims, fqdn);
}

proof fn lemma_no_claim(claims: Seq<CandidateView>, fqdn: Seq<char>)
    requires
        forall|j: int| 0 <= j < claims.len() ==> (#[trigger] claims[j]).fqdn != fqdn,
    ensures
        first_claim(claims, fqdn) is None,
{
    lemma_first_claim(claims, fqdn);
}

fn earlier_claim(claims: &Vec<Candidate>, count: usize, fqdn: &str) -> (found: Option<usize>)
    requires
        count <= claims@.len(),
    ensures
        match found {
            Some(i) => i < count && first_claim(views(claims@).take(count as int), fqdn@) == Some(
                i as int,
            ),
            None => first_claim(views(claims@).take(count as int), fqdn@) is None,
        },
{
    let ghost all = views(claims@).take(count as int);
    let mut i: usize = 0;
    while i < count
        invariant
            i <= count <= claims@.len(),
            all == views(claims@).take(count as int),
            forall|j: int| 0 <= j < i ==> (#[trigger] all[j]).fqdn != fqdn@,
        decreases count - i,
    {
        proof {
            assert(all[i as int].fqdn == claims@[i as int].fqdn@);
        }
        if same_text(claims[i].fqdn.as_str(), fqdn) {
            proof {
                lemma_first_claim_at(all, fqdn@, i as int);
            }
            return Some(i);
        }
        i = i + 1;
    }
    proof {
        lemma_no_claim(all, fqdn@);
    }
    None
}

/// Collects the rewrites of the egress Services of this deployment, by name,
/// and the claims to names that another Service has.
pub fn collect_rewrites(services: &Vec<EgressService>, ctx: &Context) -> (result: (
    Vec<(String, String)>,
    Vec<Duplicate>,
))
    ensures
        views(result.0@) == rewrites_of(services@, *ctx),
        views(result.1@) == lost_claims(ranked_claims(services@, *ctx)),
{
    let claims = sort(candidates(services, ctx));
    let ghost all = ranked_claims(services@, *ctx);
    let mut rewrites: Vec<(String, String)> = Vec::new();
    let mut duplicates: Vec<Duplicate> = Vec::new();
    let mut i: usize = 0;
    proof {
        assert(all.take(0) =~= Seq::empty());
        assert(views(rewrites@) =~= Seq::empty());
        assert(views(duplicates@) =~= Seq::empty());
    }
    while i < claims.len()
        invariant
            i <= claims@.len(),
            views(claims@) == all,
            views(rewrites@) == won_rewrites(all.take(i as int)),
            views(duplicates@) == lost_claims(all.take(i as int)),
        decreases claims@.len() - i,
    {
        let claim = &claims[i];
        let ghost before_rewrites = views(rewrites@);
        let ghost before_duplicates = views(duplicates@);
        proof {
            assert(all.take(i + 1).drop_last() =~= all.take(i as int));
            assert(all.take(i + 1).last() == claim@);
        }
        match earlier_claim(&claims, i, claim.fqdn.as_str()) {
            Some(w) => {
                proof {
                    assert(all.take(i + 1)[w as int] == claims@[w as int]@);
                }
                let duplicate = Duplicate {
                    service: claim.service,
                    fqdn: claim.fqdn.clone(),
                    winner_ns: claims[w].ns.clone(),
                    winner_name: claims[w].name.clone(),
                };
                duplicates.push(duplicate);
                proof {
                    assert(views(duplicates@) =~= before_duplicates.push(duplicate@));
                }
            },
            None => {
                let rewrite = (claim.fqdn.clone(), claim.target.clone());
                rewrites.push(rewrite);
                proof {
                    assert(views(rewrites@) =~= before_rewrites.push(rewrite@));
                }
            },
        }
        i = i + 1;
    }
    proof {
        assert(all.take(i as int) =~= all);
    }
    (sort(rewrites), duplicates)
}

// ---- the ConfigMap ----

/// The override: a line for each rewrite.
pub open spec fn override_text(rewrites: Seq<(Seq<char>, Seq<char>)>) -> Seq<char>
    decreases rewrites.len(),
{
    if rewrites.len() == 0 {
        Seq::empty()
    } else {
        override_text(rewrites.drop_last()) + ("rewrite name "@ + rewrites.last().0 + " "@
            + rewrites.last().1 + "\n"@)
    }
}

/// Writes the override: a line for each rewrite.
pub fn build_override(rewrites: &Vec<(String, String)>) -> (text: String)
    ensures
        text@ == override_text(views(rewrites@)),
{
    let mut text = String::new();
    let ghost all = views(rewrites@);
    let mut i: usize = 0;
    proof {
        assert(all.take(0) =~= Seq::empty());
        assert(text@ =~= Seq::empty());
    }
    while i < rewrites.len()
        invariant
            i <= rewrites@.len(),
            all == views(rewrites@),
            text@ == override_text(all.take(i as int)),
        decreases rewrites@.len() - i,
    {
        proof {
            assert(all.take(i + 1).drop_last() =~= all.take(i as int));
            assert(all.take(i + 1).last() == rewrites@[i as int]@);
        }
        let line = join5(
            "rewrite name ",
            rewrites[i].0.as_str(),
            " ",
            rewrites[i].1.as_str(),
            "\n",
        );
        text.append(line.as_str());
        i = i + 1;
    }
    proof {
        assert(all.take(i as int) =~= all);
    }
    text
}

/// Whether `config_map` is the CoreDNS ConfigMap with these rewrites: the
/// override under its key, or no data where there is nothing to rewrite.
pub open spec fn holds_rewrites(config_map: ConfigMap, rewrites: Seq<(Seq<char>, Seq<char>)>) -> bool {
    &&& text_of(config_map.metadata.name) == Some(COREDNS_CUSTOM_NAME@)
    &&& text_of(config_map.metadata.namespace) == Some(COREDNS_CUSTOM_NAMESPACE@)
    &&& config_map.metadata.has_only_name_and_namespace()
    &&& if rewrites.len() == 0 {
        config_map.data is None
    } else {
        &&& config_map.data is Some
        &&& config_map.data->0@.dom() == set![OVERRIDE_KEY@]
        &&& config_map.data->0@[OVERRIDE_KEY@]@ == override_text(rewrites)
    }
}

fn coredns_config_map(rewrites: &Vec<(String, String)>) -> (config_map: ConfigMap)
    ensures
        holds_rewrites(config_map, views(rewrites@)),
{
    let mut metadata = ObjectMeta::named(COREDNS_CUSTOM_NAME);
    metadata.namespace = Some(String::from_str(COREDNS_CUSTOM_NAMESPACE));
    let data = if rewrites.len() == 0 {
        None
    } else {
        let map = TextMap::with(OVERRIDE_KEY, build_override(rewrites));
        proof {
            assert(map@.dom() =~= set![OVERRIDE_KEY@]);
        }
        Some(map)
    };
    ConfigMap { metadata, data }
}

/// What keeps the rewrites up to date: warnings to publish, then a ConfigMap
/// to apply. Applying it without data takes back what was applied before.
#[derive(Debug)]
pub struct DnsPlan {
    pub duplicates: Vec<Duplicate>,
    pub config_map: ConfigMap,
}

/// Whether `plan` is what is to be done about the tailnet hosts of some
/// Services: nothing where the cluster's DNS is not to be touched, else the
/// rewrites, with word to the Services that lost their name.
pub open spec fn is_dns_plan(
    plan: Option<DnsPlan>,
    services: Seq<EgressService>,
    ctx: Context,
) -> bool {
    &&& plan is Some <==> ctx.egress_dns_coredns_custom
    &&& plan is Some ==> views(plan->0.duplicates@) == lost_claims(ranked_claims(services, ctx))
        && holds_rewrites(plan->0.config_map, rewrites_of(services, ctx))
}

/// Plans the rewrites of the egress Services. There is no plan where the
/// deployment does not keep rewrites.
pub fn sync_egress_dns(services: &Vec<EgressService>, ctx: &Context) -> (plan: Option<DnsPlan>)
    ensures
        is_dns_plan(plan, services@, *ctx),
{
    if !ctx.egress_dns_coredns_custom {
        return None;
    }
    let (rewrites, duplicates) = collect_rewrites(services, ctx);
    Some(DnsPlan { duplicates, config_map: coredns_config_map(&rewrites) })
}

/// The sentence of the warning on a lost claim.
pub open spec fn duplicate_words(duplicate: DuplicateView) -> Seq<char> {
    "tailnet-fqdn '"@ + duplicate.fqdn
        + "' is already rewritten to the egress proxy of Service '"@ + duplicate.winner_ns + "/"@
        + (duplicate.winner_name
        + "'; a tailnet FQDN must be cluster-unique — this Service's egress works, but in-cluster DNS resolves the name to the other proxy"@)
}

/// The warning on a lost claim.
pub fn duplicate_warning(duplicate: &Duplicate) -> (notice: Warning)
    ensures
        notice@ == warning("DuplicateTailnetFqdn"@, duplicate_words(duplicate@)),
{
    let tail = join2(
        duplicate.winner_name.as_str(),
        "'; a tailnet FQDN must be cluster-unique — this Service's egress works, but in-cluster DNS resolves the name to the other proxy",
    );
    let message = join5(
        "tailnet-fqdn '",
        duplicate.fqdn.as_str(),
        "' is already rewritten to the egress proxy of Service '",
        duplicate.winner_ns.as_str(),
        "/",
    );
    Warning { reason: "DuplicateTailnetFqdn", message: join2(message.as_str(), tail.as_str()) }
}

// ---- laws ----

/// Every claim comes from a Service that may claim a name, and targets that
/// Service's own proxy. Services that are being deleted, or that are meant for
/// another deployment, make no claim.
pub proof fn claims_come_from_eligible_services(services: Seq<EgressService>, ctx: Context, i: int)
    requires
        0 <= i < candidates_of(services, ctx).len(),
    ensures
        ({
            let claim = candidates_of(services, ctx)[i];
            let svc = services[claim.service];
            &&& 0 <= claim.service < services.len()
            &&& svc.service.metadata.deletion_timestamp is None
            &&& targets(svc.service.metadata, ctx.operator_namespace@, ctx.claim_default)
            &&& egress_shape(svc.service)
            &&& claimed_fqdn(svc, ctx) == Some(claim.fqdn)
            &&& claim.ns == svc.service.metadata.own_namespace()
            &&& claim.name == svc.service.metadata.any_name()
            &&& claim.target == rewrite_target(claim.ns, claim.name, ctx.operator_namespace@)
        }),
    decreases services.len(),
{
    if services.len() > 0 {
        let front = services.drop_last();
        if i < candidates_of(front, ctx).len() {
            claims_come_from_eligible_services(front, ctx, i);
            let claim = candidates_of(front, ctx)[i];
            assert(candidates_of(services, ctx)[i] == claim);
            assert(front[claim.service] == services[claim.service]);
        }
    }
}

proof fn lemma_won(claims: Seq<CandidateView>)
    ensures
        forall|i: int|
            0 <= i < claims.len() && first_claim(claims, claims[i].fqdn) == Some(i)
                ==> won_rewrites(claims).contains(
                (#[trigger] claims[i].fqdn, claims[i].target),
            ),
        forall|k: int|
            #![trigger won_rewrites(claims)[k]]
            0 <= k < won_rewrites(claims).len() ==> exists|i: int|
                0 <= i < claims.len() && #[trigger] claims[i].fqdn == won_rewrites(claims)[k].0
                    && claims[i].target == won_rewrites(claims)[k].1 && first_claim(
                    claims,
                    claims[i].fqdn,
                ) == Some(i),
        forall|k: int, l: int|
            0 <= k < l < won_rewrites(claims).len() ==> (#[trigger] won_rewrites(claims)[k]).0 != (
            #[trigger] won_rewrites(claims)[l]).0,
    decreases claims.len(),
{
    if claims.len() > 0 {
        let front = claims.drop_last();
        let last = claims.last();
        let n = claims.len() - 1;
        lemma_won(front);
        let won = won_rewrites(claims);
        let won_front = won_rewrites(front);
        lemma_first_claim(front, last.fqdn);
        assert forall|i: int|
            0 <= i < claims.len() && first_claim(claims, claims[i].fqdn) == Some(
                i,
            ) implies won.contains((#[trigger] claims[i].fqdn, claims[i].target)) by {
            if i < n {
                assert(front[i] == claims[i]);
                lemma_first_claim(front, claims[i].fqdn);
                lemma_first_claim(claims, claims[i].fqdn);
                assert(won_front.contains((front[i].fqdn, front[i].target)));
                let k = won_front.index_of((front[i].fqdn, front[i].target));
                assert(won[k] == won_front[k]);
            } else {
                lemma_first_claim(claims, claims[i].fqdn);
                assert(first_claim(front, last.fqdn) is None);
                assert(won[won.len() - 1] == (last.fqdn, last.target));
            }
        }
        assert forall|k: int| #![trigger won[k]] 0 <= k < won.len() implies exists|i: int|
            0 <= i < claims.len() && #[trigger] claims[i].fqdn == won[k].0 && claims[i].target
                == won[k].1 && first_claim(claims, claims[i].fqdn) == Some(i) by {
            if k < won_front.len() {
                assert(won[k] == won_front[k]);
                let i = choose|i: int|
                    0 <= i < front.len() && #[trigger] front[i].fqdn == won_front[k].0
                        && front[i].target == won_front[k].1 && first_claim(front, front[i].fqdn)
                        == Some(i);
                assert(claims[i] == front[i]);
                assert(claims[i].fqdn == won[k].0);
            } else {
                assert(claims[n].fqdn == won[k].0);
            }
        }
        assert forall|k: int, l: int| 0 <= k < l < won.len() implies (#[trigger] won[k]).0 != (
        #[trigger] won[l]).0 by {
            assert(won[k] == won_front[k]);
            if l < won_front.len() {
                assert(won[l] == won_front[l]);
            } else {
                let i = choose|i: int|
                    0 <= i < front.len() && #[trigger] front[i].fqdn == won_front[k].0
                        && front[i].target == won_front[k].1 && first_claim(front, front[i].fqdn)
                        == Some(i);
                assert(front[i].fqdn != last.fqdn);
            }
        }
    }
}

/// The rewrites are ordered by name, and no name is rewritten twice.
pub proof fn rewrites_are_sorted_and_unique(services: Seq<EgressService>, ctx: Context)
    ensures
        forall|i: int, j: int|
            0 <= i < j < rewrites_of(services, ctx).len() ==> precedes(
                (#[trigger] rewrites_of(services, ctx)[i]).0,
                (#[trigger] rewrites_of(services, ctx)[j]).0,
            ),
{
    broadcast use vstd::seq_lib::group_to_multiset_ensures;

    let claims = ranked_claims(services, ctx);
    let won = won_rewrites(claims);
    let sorted = rewrites_of(services, ctx);
    lemma_won(claims);
    stably_sorted_is_sorted::<(String, String)>(won);
    assert(won.no_duplicates());
    won.lemma_multiset_has_no_duplicates();
    sorted.lemma_multiset_has_no_duplicates_conv();
    assert forall|i: int, j: int| 0 <= i < j < sorted.len() implies precedes(
        (#[trigger] sorted[i]).0,
        (#[trigger] sorted[j]).0,
    ) by {
        assert(sorted.to_multiset().count(sorted[i]) > 0);
        assert(sorted.to_multiset().count(sorted[j]) > 0);
        assert(won.contains(sorted[i]));
        assert(won.contains(sorted[j]));
        let k = won.index_of(sorted[i]);
        let l = won.index_of(sorted[j]);
        assert(sorted[i] != sorted[j]);
        assert(k != l);
        if k < l {
            assert(won[k].0 != won[l].0);
        } else {
            assert(won[l].0 != won[k].0);
        }
        assert(!pair_precedes(sorted[j], sorted[i]));
        lemma_precedes_total(sorted[i].0, sorted[j].0);
    }
}

/// Every claimed name is rewritten to the proxy of the claim that stands first
/// by namespace and name; a claim that stands behind it is reported as lost.
pub proof fn first_claim_has_the_name(services: Seq<EgressService>, ctx: Context, i: int)
    requires
        0 <= i < ranked_claims(services, ctx).len(),
    ensures
        ({
            let claims = ranked_claims(services, ctx);
            let winner = first_claim(claims, claims[i].fqdn)->0;
            &&& first_claim(claims, claims[i].fqdn) is Some
            &&& 0 <= winner <= i
            &&& claims[winner].fqdn == claims[i].fqdn
            &&& !pair_precedes(
                (claims[i].ns, claims[i].name),
                (claims[winner].ns, claims[winner].name),
            )
            &&& rewrites_of(services, ctx).contains((claims[i].fqdn, claims[winner].target))
            &&& winner < i ==> lost_claims(claims).contains(
                DuplicateView {
                    service: claims[i].service,
                    fqdn: claims[i].fqdn,
                    winner_ns: claims[winner].ns,
                    winner_name: claims[winner].name,
                },
            )
        }),
{
    broadcast use vstd::seq_lib::group_to_multiset_ensures;

    let claims = ranked_claims(services, ctx);
    let fqdn = claims[i].fqdn;
    lemma_first_claim(claims, fqdn);
    let winner = first_claim(claims, fqdn)->0;
    stably_sorted_is_sorted::<Candidate>(candidates_of(services, ctx));
    assert(in_order::<Candidate>(claims));
    if winner < i {
        assert(!Candidate::before(claims[i], claims[winner]));
        lemma_lost(claims, i);
    } else {
        lemma_precedes_irreflexive(claims[i].ns);
        lemma_precedes_irreflexive(claims[i].name);
    }
    lemma_won(claims);
    let won = won_rewrites(claims);
    stably_sorted_is_sorted::<(String, String)>(won);
    assert(won.contains((claims[winner].fqdn, claims[winner].target)));
    assert(won.to_multiset().count((fqdn, claims[winner].target)) > 0);
    assert(rewrites_of(services, ctx).to_multiset().count((fqdn, claims[winner].target)) > 0);
}

proof fn lemma_lost(claims: Seq<CandidateView>, i: int)
    requires
        0 <= i < claims.len(),
        first_claim(claims, claims[i].fqdn) is Some,
        first_claim(claims, claims[i].fqdn)->0 < i,
    ensures
        lost_claims(claims).contains(
            DuplicateView {
                service: claims[i].service,
                fqdn: claims[i].fqdn,
                winner_ns: claims[first_claim(claims, claims[i].fqdn)->0].ns,
                winner_name: claims[first_claim(claims, claims[i].fqdn)->0].name,
            },
        ),
    decreases claims.len(),
{
    let front = claims.drop_last();
    let fqdn = claims[i].fqdn;
    lemma_first_claim(claims, fqdn);
    lemma_first_claim(front, fqdn);
    let winner = first_claim(claims, fqdn)->0;
    assert(front[winner] == claims[winner]);
    assert(first_claim(front, fqdn) == Some(winner));
    let lost = DuplicateView {
        service: claims[i].service,
        fqdn,
        winner_ns: claims[winner].ns,
        winner_name: claims[winner].name,
    };
    if i < claims.len() - 1 {
        assert(front[i] == claims[i]);
        lemma_lost(front, i);
        let k = lost_claims(front).index_of(lost);
        assert(lost_claims(claims)[k] == lost_claims(front)[k]);
    } else {
        assert(lost_claims(claims)[lost_claims(claims).len() - 1] == lost);
    }
}

/// A name that no Service claims is not rewritten.
pub proof fn only_claimed_names_are_rewritten(
    services: Seq<EgressService>,
    ctx: Context,
    rewrite: (Seq<char>, Seq<char>),
)
    requires
        rewrites_of(services, ctx).contains(rewrite),
    ensures
        exists|claim: CandidateView| #[trigger]
            candidates_of(services, ctx).contains(claim) && claim.fqdn == rewrite.0 && claim.target
                == rewrite.1,
{
    broadcast use vstd::seq_lib::group_to_multiset_ensures;

    let claims = ranked_claims(services, ctx);
    let won = won_rewrites(claims);
    stably_sorted_is_sorted::<Candidate>(candidates_of(services, ctx));
    stably_sorted_is_sorted::<(String, String)>(won);
    assert(rewrites_of(services, ctx).to_multiset().count(rewrite) > 0);
    assert(won.to_multiset().count(rewrite) > 0);
    assert(won.contains(rewrite));
    lemma_won(claims);
    let k = won.index_of(rewrite);
    let i = choose|i: int|
        0 <= i < claims.len() && #[trigger] claims[i].fqdn == won[k].0 && claims[i].target
            == won[k].1 && first_claim(claims, claims[i].fqdn) == Some(i);
    assert(claims.to_multiset().count(claims[i]) > 0);
    assert(candidates_of(services, ctx).contains(claims[i]));
}

// ---- the order in which Services are listed ----

/// Whether `svc` claims `fqdn`, and no Service of `services` that does comes
/// before it by namespace and name.
pub open spec fn stands_first(
    services: Seq<EgressService>,
    ctx: Context,
    svc: EgressService,
    fqdn: Seq<char>,
) -> bool {
    &&& services.contains(svc)
    &&& claimed_fqdn(svc, ctx) == Some(fqdn)
    &&& forall|other: EgressService| #[trigger]
        services.contains(other) && claimed_fqdn(other, ctx) == Some(fqdn) ==> !pair_precedes(
            service_key(other),
            service_key(svc),
        )
}

/// Namespace and name of a Service.
pub open spec fn service_key(svc: EgressService) -> (Seq<char>, Seq<char>) {
    (svc.service.metadata.own_namespace(), svc.service.metadata.any_name())
}

/// Where a Service's egress proxy is found in the cluster.
pub open spec fn target_of(svc: EgressService, ctx: Context) -> Seq<char> {
    rewrite_target(service_key(svc).0, service_key(svc).1, ctx.operator_namespace@)
}

proof fn lemma_claim_of(services: Seq<EgressService>, ctx: Context, k: int) -> (i: int)
    requires
        0 <= k < services.len(),
        claimed_fqdn(services[k], ctx) is Some,
    ensures
        0 <= i < candidates_of(services, ctx).len(),
        candidates_of(services, ctx)[i].service == k,
    decreases services.len(),
{
    let front = services.drop_last();
    if k < front.len() {
        assert(front[k] == services[k]);
        let i = lemma_claim_of(front, ctx, k);
        assert(candidates_of(services, ctx)[i] == candidates_of(front, ctx)[i]);
        i
    } else {
        candidates_of(services, ctx).len() - 1
    }
}

/// Every Service that claims a name has its claim among the ranked ones.
pub proof fn claiming_service_is_ranked(services: Seq<EgressService>, ctx: Context, k: int) -> (j: int)
    requires
        0 <= k < services.len(),
        claimed_fqdn(services[k], ctx) is Some,
    ensures
        0 <= j < ranked_claims(services, ctx).len(),
        ranked_claims(services, ctx)[j].service == k,
        ranked_claims(services, ctx)[j].fqdn == claimed_fqdn(services[k], ctx)->0,
        ranked_claims(services, ctx)[j].ns == service_key(services[k]).0,
        ranked_claims(services, ctx)[j].name == service_key(services[k]).1,
{
    broadcast use vstd::seq_lib::group_to_multiset_ensures;

    let claims = candidates_of(services, ctx);
    let ranked = ranked_claims(services, ctx);
    let i = lemma_claim_of(services, ctx, k);
    claims_come_from_eligible_services(services, ctx, i);
    stably_sorted_is_sorted::<Candidate>(claims);
    assert(claims.to_multiset().count(claims[i]) > 0);
    assert(ranked.contains(claims[i]));
    ranked.index_of(claims[i])
}

/// Every lost claim is one of the ranked ones, and an earlier one of the same
/// name has won.
pub proof fn lost_claim_has_a_winner(claims: Seq<CandidateView>, k: int) -> (at: (int, int))
    requires
        0 <= k < lost_claims(claims).len(),
    ensures
        0 <= at.0 < at.1 < claims.len(),
        first_claim(claims, claims[at.1].fqdn) == Some(at.0),
        claims[at.0].fqdn == claims[at.1].fqdn,
        lost_claims(claims)[k] == (DuplicateView {
            service: claims[at.1].service,
            fqdn: claims[at.1].fqdn,
            winner_ns: claims[at.0].ns,
            winner_name: claims[at.0].name,
        }),
    decreases claims.len(),
{
    let front = claims.drop_last();
    let last = claims.last();
    if k < lost_claims(front).len() {
        let at = lost_claim_has_a_winner(front, k);
        assert(front[at.0] == claims[at.0] && front[at.1] == claims[at.1]);
        lemma_first_claim(front, claims[at.1].fqdn);
        lemma_first_claim(claims, claims[at.1].fqdn);
        at
    } else {
        lemma_first_claim(front, last.fqdn);
        lemma_first_claim(claims, last.fqdn);
        let w = first_claim(front, last.fqdn)->0;
        assert(front[w] == claims[w]);
        (w, claims.len() - 1)
    }
}

proof fn lemma_ranked_claim_of(services: Seq<EgressService>, ctx: Context, svc: EgressService) -> (j:
    int)
    requires
        services.contains(svc),
        claimed_fqdn(svc, ctx) is Some,
    ensures
        0 <= j < ranked_claims(services, ctx).len(),
        ranked_claims(services, ctx)[j].fqdn == claimed_fqdn(svc, ctx)->0,
        ranked_claims(services, ctx)[j].ns == service_key(svc).0,
        ranked_claims(services, ctx)[j].name == service_key(svc).1,
        ranked_claims(services, ctx)[j].target == target_of(svc, ctx),
{
    broadcast use vstd::seq_lib::group_to_multiset_ensures;

    let k = services.index_of(svc);
    let claims = candidates_of(services, ctx);
    let ranked = ranked_claims(services, ctx);
    let i = lemma_claim_of(services, ctx, k);
    claims_come_from_eligible_services(services, ctx, i);
    stably_sorted_is_sorted::<Candidate>(claims);
    assert(claims.to_multiset().count(claims[i]) > 0);
    assert(ranked.contains(claims[i]));
    ranked.index_of(claims[i])
}

proof fn lemma_service_of_ranked_claim(services: Seq<EgressService>, ctx: Context, j: int) -> (svc:
    EgressService)
    requires
        0 <= j < ranked_claims(services, ctx).len(),
    ensures
        services.contains(svc),
        claimed_fqdn(svc, ctx) == Some(ranked_claims(services, ctx)[j].fqdn),
        ranked_claims(services, ctx)[j].ns == service_key(svc).0,
        ranked_claims(services, ctx)[j].name == service_key(svc).1,
        ranked_claims(services, ctx)[j].target == target_of(svc, ctx),
{
    broadcast use vstd::seq_lib::group_to_multiset_ensures;

    let claims = candidates_of(services, ctx);
    let ranked = ranked_claims(services, ctx);
    stably_sorted_is_sorted::<Candidate>(claims);
    assert(ranked.to_multiset().count(ranked[j]) > 0);
    assert(claims.contains(ranked[j]));
    let i = claims.index_of(ranked[j]);
    claims_come_from_eligible_services(services, ctx, i);
    services[claims[i].service]
}

/// A name is rewritten to the proxy of the Service that stands first among
/// those that claim it, and to no other; and nothing else is rewritten.
pub proof fn rewrites_are_of_those_that_stand_first(
    services: Seq<EgressService>,
    ctx: Context,
    rewrite: (Seq<char>, Seq<char>),
)
    ensures
        rewrites_of(services, ctx).contains(rewrite) <==> exists|svc: EgressService| #[trigger]
            stands_first(services, ctx, svc, rewrite.0) && target_of(svc, ctx) == rewrite.1,
{
    broadcast use vstd::seq_lib::group_to_multiset_ensures;

    let claims = ranked_claims(services, ctx);
    let won = won_rewrites(claims);
    let rewrites = rewrites_of(services, ctx);
    stably_sorted_is_sorted::<Candidate>(candidates_of(services, ctx));
    stably_sorted_is_sorted::<(String, String)>(won);
    lemma_won(claims);
    if rewrites.contains(rewrite) {
        assert(rewrites.to_multiset().count(rewrite) > 0);
        assert(won.contains(rewrite));
        let k = won.index_of(rewrite);
        let i = choose|i: int|
            0 <= i < claims.len() && #[trigger] claims[i].fqdn == won[k].0 && claims[i].target
                == won[k].1 && first_claim(claims, claims[i].fqdn) == Some(i);
        lemma_first_claim(claims, claims[i].fqdn);
        let svc = lemma_service_of_ranked_claim(services, ctx, i);
        assert forall|other: EgressService| #[trigger]
            services.contains(other) && claimed_fqdn(other, ctx) == Some(
                rewrite.0,
            ) implies !pair_precedes(service_key(other), service_key(svc)) by {
            let j = lemma_ranked_claim_of(services, ctx, other);
            if i < j {
                assert(!Candidate::before(claims[j], claims[i]));
            } else {
                lemma_precedes_irreflexive(claims[i].ns);
                lemma_precedes_irreflexive(claims[i].name);
            }
        }
        assert(stands_first(services, ctx, svc, rewrite.0));
    }
    if exists|svc: EgressService| #[trigger]
        stands_first(services, ctx, svc, rewrite.0) && target_of(svc, ctx) == rewrite.1 {
        let svc = choose|svc: EgressService| #[trigger]
            stands_first(services, ctx, svc, rewrite.0) && target_of(svc, ctx) == rewrite.1;
        let j = lemma_ranked_claim_of(services, ctx, svc);
        first_claim_has_the_name(services, ctx, j);
        let w = first_claim(claims, rewrite.0)->0;
        let winner = lemma_service_of_ranked_claim(services, ctx, w);
        assert(services.contains(winner));
        lemma_precedes_total(service_key(svc).0, service_key(winner).0);
        lemma_precedes_total(service_key(svc).1, service_key(winner).1);
        assert(service_key(svc) == service_key(winner));
    }
}

proof fn lemma_sorted_alike(a: Seq<(Seq<char>, Seq<char>)>, b: Seq<(Seq<char>, Seq<char>)>)
    requires
        forall|i: int, j: int|
            0 <= i < j < a.len() ==> precedes((#[trigger] a[i]).0, (#[trigger] a[j]).0),
        forall|i: int, j: int|
            0 <= i < j < b.len() ==> precedes((#[trigger] b[i]).0, (#[trigger] b[j]).0),
        forall|x: (Seq<char>, Seq<char>)|
            #![trigger a.contains(x)]
            #![trigger b.contains(x)]
            a.contains(x) <==> b.contains(x),
    ensures
        a == b,
    decreases a.len(),
{
    if a.len() == 0 {
        if b.len() > 0 {
            assert(b.contains(b[0]));
            assert(a.contains(b[0]));
        }
        assert(a =~= b);
    } else {
        assert(a.contains(a.last()));
        assert(b.contains(a.last()));
        let i = b.index_of(a.last());
        assert(b.contains(b.last()));
        assert(a.contains(b.last()));
        let j = a.index_of(b.last());
        if i < b.len() - 1 {
            assert(precedes(b[i].0, b[b.len() - 1].0));
            if j < a.len() - 1 {
                assert(precedes(a[j].0, a[a.len() - 1].0));
                lemma_precedes_transitive(b[i].0, a[j].0, b[i].0);
            }
            lemma_precedes_irreflexive(b[i].0);
        }
        let x = a.drop_last();
        let y = b.drop_last();
        assert forall|r: (Seq<char>, Seq<char>)|
            #![trigger x.contains(r)]
            #![trigger y.contains(r)]
            x.contains(r) <==> y.contains(r) by {
            if x.contains(r) {
                let k = x.index_of(r);
                assert(a[k] == r);
                assert(a.contains(r));
                assert(precedes(a[k].0, a[a.len() - 1].0));
                lemma_precedes_irreflexive(r.0);
                assert(b.contains(r));
                let l = b.index_of(r);
                assert(y[l] == r);
            }
            if y.contains(r) {
                let l = y.index_of(r);
                assert(b[l] == r);
                assert(b.contains(r));
                assert(precedes(b[l].0, b[b.len() - 1].0));
                lemma_precedes_irreflexive(r.0);
                assert(a.contains(r));
                let k = a.index_of(r);
                assert(x[k] == r);
            }
        }
        assert forall|k: int, l: int| 0 <= k < l < x.len() implies precedes(
            (#[trigger] x[k]).0,
            (#[trigger] x[l]).0,
        ) by {
            assert(x[k] == a[k] && x[l] == a[l]);
        }
        assert forall|k: int, l: int| 0 <= k < l < y.len() implies precedes(
            (#[trigger] y[k]).0,
            (#[trigger] y[l]).0,
        ) by {
            assert(y[k] == b[k] && y[l] == b[l]);
        }
        lemma_sorted_alike(x, y);
        assert(a =~= x.push(a.last()));
        assert(b =~= y.push(b.last()));
    }
}

/// The order in which the Services are listed decides nothing: the same
/// Services give the same rewrites.
pub proof fn listing_order_decides_nothing(
    services: Seq<EgressService>,
    others: Seq<EgressService>,
    ctx: Context,
)
    requires
        forall|svc: EgressService|
            #![trigger services.contains(svc)]
            #![trigger others.contains(svc)]
            services.contains(svc) <==> others.contains(svc),
    ensures
        rewrites_of(services, ctx) == rewrites_of(others, ctx),
{
    rewrites_are_sorted_and_unique(services, ctx);
    rewrites_are_sorted_and_unique(others, ctx);
    assert forall|svc: EgressService, fqdn: Seq<char>|
        #![trigger stands_first(services, ctx, svc, fqdn)]
        #![trigger stands_first(others, ctx, svc, fqdn)]
        stands_first(services, ctx, svc, fqdn) <==> stands_first(others, ctx, svc, fqdn) by {}
    assert forall|rewrite: (Seq<char>, Seq<char>)|
        #![trigger rewrites_of(services, ctx).contains(rewrite)]
        #![trigger rewrites_of(others, ctx).contains(rewrite)]
        rewrites_of(services, ctx).contains(rewrite) <==> rewrites_of(others, ctx).contains(
            rewrite,
        ) by {
        rewrites_are_of_those_that_stand_first(services, ctx, rewrite);
        rewrites_are_of_those_that_stand_first(others, ctx, rewrite);
    }
    lemma_sorted_alike(rewrites_of(services, ctx), rewrites_of(others, ctx));
}

} // verus!
