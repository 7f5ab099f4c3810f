//! Names of the resources a proxy consists of, derived from the namespace and
//! name of the parent object it serves.

use crate::text::{byte_len, fit, fitted, join2, join3, join4, lemma_byte_len_concat, lemma_fitted};
use vstd::prelude::*;
use vstd::string::*;
use vstd::utf8::*;

verus! {

/// Bytes of the parent's display name that a proxy name keeps readable.
pub const READABLE_BYTES: usize = 40;

/// Hex digits of the parent's digest that end every proxy name.
pub const HASH_DIGITS: usize = 8;

// ---- digests ----

/// The SHA-256 digest of some bytes.
pub uninterp spec fn sha256_of(data: Seq<u8>) -> Seq<u8>;

/// Calls `sha2::Sha256::digest`: the digest is a function of the data alone
/// and has 32 bytes.
#[verifier::external_body]
fn sha256(data: &[u8]) -> (digest: Vec<u8>)
    ensures
        digest@ == sha256_of(data@),
        digest@.len() == 32,
{
    <sha2::Sha256 as sha2::Digest>::digest(data).to_vec()
}

/// The lower-case hex digit of a value below sixteen.
pub open spec fn hex_digit(value: int) -> char {
    if value < 10 {
        ('0' as u32 + value) as char
    } else {
        ('a' as u32 + (value - 10)) as char
    }
}

/// Bytes in lower-case hex, two digits each, high half first.
pub open spec fn hex_text(data: Seq<u8>) -> Seq<char> {
    Seq::new(
        2 * data.len(),
        |i: int|
            if i % 2 == 0 {
                hex_digit(data[i / 2] as int / 16)
            } else {
                hex_digit(data[i / 2] as int % 16)
            },
    )
}

/// Calls `hex::encode`: two lower-case hex digits per byte, the high half of
/// each byte first.
#[verifier::external_body]
fn hex_encode(data: &Vec<u8>) -> (text: String)
    ensures
        text@ == hex_text(data@),
{
    hex::encode(data)
}

/// The digest suffix of a proxy name: the first four bytes of a digest in hex.
pub open spec fn digest_suffix(digest: Seq<u8>) -> Seq<char> {
    hex_text(Seq::new(4, |i: int| digest[i]))
}

/// The digest suffix for what is digested.
pub open spec fn short_hash(input: Seq<char>) -> Seq<char> {
    digest_suffix(sha256_of(encode_utf8(input)))
}

// ---- names ----

/// What is digested for an Ingress: the two parts around a NUL.
pub open spec fn ingress_hash_input(ns: Seq<char>, name: Seq<char>) -> Seq<char> {
    ns + "\0"@ + name
}

/// What is digested for a Service: marked by kind, so that it differs from an
/// Ingress of the same namespace and name.
pub open spec fn service_hash_input(ns: Seq<char>, name: Seq<char>) -> Seq<char> {
    "svc\0"@ + ns + "\0"@ + name
}

/// The readable name of an Ingress.
pub open spec fn ingress_display(ns: Seq<char>, name: Seq<char>) -> Seq<char> {
    ns + "-"@ + name
}

/// The readable name of a Service.
pub open spec fn service_display(ns: Seq<char>, name: Seq<char>) -> Seq<char> {
    "svc-"@ + ns + "-"@ + name
}

/// The part that all names of one proxy share: as much of the readable name as
/// fits, and a suffix.
pub open spec fn base_with(suffix: Seq<char>, display: Seq<char>) -> Seq<char> {
    fitted(display, READABLE_BYTES as nat) + "-"@ + suffix
}

/// The shared part of the names of a proxy, with the suffix for what is
/// digested.
pub open spec fn base_of(hash_input: Seq<char>, display: Seq<char>) -> Seq<char> {
    base_with(short_hash(hash_input), display)
}

/// The shared part of the names of an Ingress's proxy.
pub open spec fn ingress_base(ns: Seq<char>, name: Seq<char>) -> Seq<char> {
    base_of(ingress_hash_input(ns, name), ingress_display(ns, name))
}

/// The shared part of the names of a Service's proxy.
pub open spec fn service_base(ns: Seq<char>, name: Seq<char>) -> Seq<char> {
    base_of(service_hash_input(ns, name), service_display(ns, name))
}

/// Names of the resources of one proxy.
pub struct ProxyNames {
    pub proxy_base: String,
    pub proxy_name: String,
    pub wg_service_name: String,
    pub config_secret_name: String,
    pub state_secret_name: String,
    pub serve_configmap_name: String,
}

impl ProxyNames {
    /// The names are those of the proxy whose shared part is `base`.
    pub open spec fn derived_from(&self, base: Seq<char>) -> bool {
        &&& self.proxy_base@ == base
        &&& self.proxy_name@ == "proxy-"@ + base
        &&& self.wg_service_name@ == "proxy-wg-"@ + base
        &&& self.config_secret_name@ == "proxy-authkey-"@ + base
        &&& self.state_secret_name@ == "proxy-state-"@ + base
        &&& self.serve_configmap_name@ == "proxy-serve-"@ + base
    }

    /// Names for the proxy of an Ingress.
    ///
    /// The digest input separates the two parts by a NUL, so that namespace
    /// "a-b" with name "c" and namespace "a" with name "b-c", which read the
    /// same, differ in it. The suffix is always there, whatever the length.
    pub fn new(ingress_ns: &str, ingress_name: &str) -> (names: Self)
        ensures
            names.derived_from(ingress_base(ingress_ns@, ingress_name@)),
    {
        Self::from_parts(
            join3(ingress_ns, "\0", ingress_name).as_str(),
            join3(ingress_ns, "-", ingress_name).as_str(),
        )
    }

    /// Names for the proxy of a Service, kept apart from those of an Ingress
    /// both in the readable part and in the digest input.
    pub fn for_service(svc_ns: &str, svc_name: &str) -> (names: Self)
        ensures
            names.derived_from(service_base(svc_ns@, svc_name@)),
    {
        Self::from_parts(
            join4("svc\0", svc_ns, "\0", svc_name).as_str(),
            join4("svc-", svc_ns, "-", svc_name).as_str(),
        )
    }

    fn from_parts(hash_input: &str, display: &str) -> (names: Self)
        ensures
            names.derived_from(base_of(hash_input@, display@)),
    {
        Self::from_digest(&sha256(hash_input.as_bytes()), display)
    }

    /// Names for a proxy by the digest of its parent and a readable name.
    pub fn from_digest(digest: &Vec<u8>, display: &str) -> (names: Self)
        requires
            digest@.len() >= 4,
        ensures
            names.derived_from(base_with(digest_suffix(digest@), display@)),
    {
        let hex = hex_encode(digest);
        let hash = hex.as_str().substring_char(0, HASH_DIGITS);
        proof {
            assert(hash@ =~= digest_suffix(digest@));
        }
        let prefix = fit(display, READABLE_BYTES);
        let proxy_base = join3(prefix.as_str(), "-", hash);
        ProxyNames {
            proxy_name: join2("proxy-", proxy_base.as_str()),
            wg_service_name: join2("proxy-wg-", proxy_base.as_str()),
            config_secret_name: join2("proxy-authkey-", proxy_base.as_str()),
            state_secret_name: join2("proxy-state-", proxy_base.as_str()),
            serve_configmap_name: join2("proxy-serve-", proxy_base.as_str()),
            proxy_base,
        }
    }
}

/// Name of the proxy StatefulSet of an Ingress.
pub fn proxy_sts_name(ingress_ns: &str, ingress_name: &str) -> (name: String)
    ensures
        name@ == "proxy-"@ + ingress_base(ingress_ns@, ingress_name@),
{
    ProxyNames::new(ingress_ns, ingress_name).proxy_name
}

/// Name of the proxy state Secret of an Ingress.
pub fn proxy_state_secret_name(ingress_ns: &str, ingress_name: &str) -> (name: String)
    ensures
        name@ == "proxy-state-"@ + ingress_base(ingress_ns@, ingress_name@),
{
    ProxyNames::new(ingress_ns, ingress_name).state_secret_name
}

/// Tag that the operator assigns to an Ingress with access grants.
pub fn ingress_auto_tag(ingress_ns: &str, ingress_name: &str) -> (tag: String)
    ensures
        tag@ == "tag:hm-"@ + ingress_base(ingress_ns@, ingress_name@),
{
    join2("tag:hm-", ProxyNames::new(ingress_ns, ingress_name).proxy_base.as_str())
}

/// Name of the proxy StatefulSet of a Service.
pub fn service_proxy_sts_name(svc_ns: &str, svc_name: &str) -> (name: String)
    ensures
        name@ == "proxy-"@ + service_base(svc_ns@, svc_name@),
{
    ProxyNames::for_service(svc_ns, svc_name).proxy_name
}

/// Name of the proxy state Secret of a Service.
pub fn service_proxy_state_secret_name(svc_ns: &str, svc_name: &str) -> (name: String)
    ensures
        name@ == "proxy-state-"@ + service_base(svc_ns@, svc_name@),
{
    ProxyNames::for_service(svc_ns, svc_name).state_secret_name
}

/// Tag that the operator assigns to a Service with access grants.
pub fn service_auto_tag(svc_ns: &str, svc_name: &str) -> (tag: String)
    ensures
        tag@ == service_tag(svc_ns@, svc_name@),
{
    join2("tag:hm-", ProxyNames::for_service(svc_ns, svc_name).proxy_base.as_str())
}

/// The tag of a Service.
pub open spec fn service_tag(ns: Seq<char>, name: Seq<char>) -> Seq<char> {
    "tag:hm-"@ + service_base(ns, name)
}

// ---- laws ----

/// Whether `text` holds no NUL character. Names of Kubernetes objects do not.
pub open spec fn nul_free(text: Seq<char>) -> bool {
    forall|i: int| 0 <= i < text.len() ==> text[i] != '\0'
}

/// The digest input of an Ingress identifies it: two namespaces without NUL
/// and two names give one input only where both agree.
pub proof fn ingress_hash_input_injective(
    ns1: Seq<char>,
    name1: Seq<char>,
    ns2: Seq<char>,
    name2: Seq<char>,
)
    requires
        nul_free(ns1),
        nul_free(ns2),
        ingress_hash_input(ns1, name1) == ingress_hash_input(ns2, name2),
    ensures
        ns1 == ns2,
        name1 == name2,
{
    lemma_split_at_nul(ns1, name1, ns2, name2);
}

proof fn lemma_split_at_nul(a1: Seq<char>, b1: Seq<char>, a2: Seq<char>, b2: Seq<char>)
    requires
        nul_free(a1),
        nul_free(a2),
        a1 + "\0"@ + b1 == a2 + "\0"@ + b2,
    ensures
        a1 == a2,
        b1 == b2,
{
    reveal_strlit("\0");
    let left = a1 + "\0"@ + b1;
    let right = a2 + "\0"@ + b2;
    assert(left[a1.len() as int] == '\0');
    assert(right[a2.len() as int] == '\0');
    if a1.len() < a2.len() {
        assert(right[a1.len() as int] == a2[a1.len() as int]);
    } else if a2.len() < a1.len() {
        assert(left[a2.len() as int] == a1[a2.len() as int]);
    }
    assert(a1 =~= left.subrange(0, a1.len() as int));
    assert(a2 =~= right.subrange(0, a2.len() as int));
    assert(b1 =~= left.subrange(a1.len() as int + 1, left.len() as int));
    assert(b2 =~= right.subrange(a2.len() as int + 1, right.len() as int));
}

/// The digest input of a Service identifies it.
pub proof fn service_hash_input_injective(
    ns1: Seq<char>,
    name1: Seq<char>,
    ns2: Seq<char>,
    name2: Seq<char>,
)
    requires
        nul_free(ns1),
        nul_free(ns2),
        service_hash_input(ns1, name1) == service_hash_input(ns2, name2),
    ensures
        ns1 == ns2,
        name1 == name2,
{
    reveal_strlit("svc\0");
    let left = service_hash_input(ns1, name1);
    let right = service_hash_input(ns2, name2);
    assert(left.subrange(4, left.len() as int) =~= ns1 + "\0"@ + name1);
    assert(right.subrange(4, right.len() as int) =~= ns2 + "\0"@ + name2);
    lemma_split_at_nul(ns1, name1, ns2, name2);
}

/// A Service and an Ingress never have one digest input, whatever their
/// namespaces and names, so long as those of the Ingress hold no NUL.
pub proof fn service_hash_input_differs_from_ingress(
    svc_ns: Seq<char>,
    svc_name: Seq<char>,
    ingress_ns: Seq<char>,
    ingress_name: Seq<char>,
)
    requires
        nul_free(ingress_ns),
        nul_free(ingress_name),
    ensures
        service_hash_input(svc_ns, svc_name) != ingress_hash_input(ingress_ns, ingress_name),
{
    reveal_strlit("svc\0");
    reveal_strlit("\0");
    let svc = service_hash_input(svc_ns, svc_name);
    let ing = ingress_hash_input(ingress_ns, ingress_name);
    if svc == ing {
        let second = 4 + svc_ns.len() as int;
        assert(svc[3] == '\0');
        assert(svc[second] == '\0');
        let only = ingress_ns.len() as int;
        assert forall|i: int| 0 <= i < ing.len() && i != only implies ing[i] != '\0' by {
            if i < only {
                assert(ing[i] == ingress_ns[i]);
            } else {
                assert(ing[i] == ingress_name[i - only - 1]);
            }
        }
    }
}

proof fn lemma_short_hash(input: Seq<char>)
    ensures
        short_hash(input).len() == HASH_DIGITS,
        byte_len(short_hash(input)) == HASH_DIGITS,
{
    let hash = short_hash(input);
    assert forall|i: int| 0 <= i < hash.len() implies #[trigger] (hash[i] as u32) < 128 by {
        let byte = sha256_of(encode_utf8(input))[i / 2];
        assert(0 <= byte as int / 16 < 16);
    }
    assert(is_ascii_chars(hash));
    is_ascii_chars_encode_utf8(hash);
}

/// The shared part of a proxy's names takes nine bytes more than the readable
/// text in it, and never more than 49 bytes.
pub proof fn base_is_bounded(hash_input: Seq<char>, display: Seq<char>)
    ensures
        byte_len(base_of(hash_input, display)) == byte_len(
            fitted(display, READABLE_BYTES as nat),
        ) + 9,
        byte_len(base_of(hash_input, display)) <= 49,
{
    let prefix = fitted(display, READABLE_BYTES as nat);
    lemma_fitted(display, READABLE_BYTES as nat);
    lemma_short_hash(hash_input);
    reveal_strlit("-");
    is_ascii_chars_encode_utf8("-"@);
    lemma_byte_len_concat(prefix + "-"@, short_hash(hash_input));
    lemma_byte_len_concat(prefix, "-"@);
}

/// A readable name that fits appears whole in front of the digest suffix.
pub proof fn short_display_is_kept(hash_input: Seq<char>, display: Seq<char>)
    requires
        byte_len(display) <= READABLE_BYTES,
    ensures
        base_of(hash_input, display) == display + "-"@ + short_hash(hash_input),
{
}

/// Two proxies share a name only where the digests of their parents agree in
/// the first eight digits: the readable part alone never makes them collide.
pub proof fn shared_base_has_one_hash(
    input1: Seq<char>,
    display1: Seq<char>,
    input2: Seq<char>,
    display2: Seq<char>,
)
    requires
        base_of(input1, display1) == base_of(input2, display2),
    ensures
        short_hash(input1) == short_hash(input2),
{
    lemma_short_hash(input1);
    lemma_short_hash(input2);
    let left = base_of(input1, display1);
    let right = base_of(input2, display2);
    assert(short_hash(input1) =~= left.subrange(left.len() - 8, left.len() as int));
    assert(short_hash(input2) =~= right.subrange(right.len() - 8, right.len() as int));
}

/// Every name of a proxy determines the shared part, so two proxies that share
/// one name share them all.
pub proof fn one_name_fixes_all(a: ProxyNames, base_a: Seq<char>, b: ProxyNames, base_b: Seq<char>)
    requires
        a.derived_from(base_a),
        b.derived_from(base_b),
        a.proxy_name@ == b.proxy_name@ || a.wg_service_name@ == b.wg_service_name@
            || a.config_secret_name@ == b.config_secret_name@ || a.state_secret_name@
            == b.state_secret_name@ || a.serve_configmap_name@ == b.serve_configmap_name@,
    ensures
        base_a == base_b,
{
    lemma_same_tail("proxy-"@, base_a, base_b);
    lemma_same_tail("proxy-wg-"@, base_a, base_b);
    lemma_same_tail("proxy-authkey-"@, base_a, base_b);
    lemma_same_tail("proxy-state-"@, base_a, base_b);
    lemma_same_tail("proxy-serve-"@, base_a, base_b);
}

proof fn lemma_same_tail(head: Seq<char>, a: Seq<char>, b: Seq<char>)
    ensures
        head + a == head + b ==> a == b,
{
    if head + a == head + b {
        assert(a =~= (head + a).subrange(head.len() as int, (head + a).len() as int));
        assert(b =~= (head + b).subrange(head.len() as int, (head + b).len() as int));
    }
}

/// The auth-key Secret of one proxy is never the state Secret of another, nor
/// of the same one.
pub proof fn secrets_are_kept_apart(a: ProxyNames, base_a: Seq<char>, b: ProxyNames, base_b: Seq<char>)
    requires
        a.derived_from(base_a),
        b.derived_from(base_b),
    ensures
        a.config_secret_name@ != b.state_secret_name@,
{
    reveal_strlit("proxy-authkey-");
    reveal_strlit("proxy-state-");
    assert(a.config_secret_name@[6] == 'a');
    assert(b.state_secret_name@[6] == 's');
}

} // verus!
