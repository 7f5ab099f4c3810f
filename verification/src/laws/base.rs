//! Laws of texts, JSON, names and metadata.

use crate::instance::HeadscaleInstance;
use crate::json::{lookup, text_array, with_member, Json};
use crate::names::{hex_text, ingress_base, service_base, service_tag, sha256_of, ProxyNames};
use crate::objects::{
    ports_of, text_of, texts_of, ObjectMeta, Resource, Secret, Service, ServicePort,
};
use crate::sort::views;
use crate::text::{decimal, digits, digits_value, fitted, lemma_fitted, parsed_u64, precedes};
use vstd::prelude::*;
use vstd::string::*;
use vstd::utf8::*;

verus! {

// ---- texts ----

/// Of two texts the one with the lower character comes first, at the first
/// place where they differ; a text comes before those that it begins.
pub proof fn texts_are_ordered_by_their_first_difference(a: Seq<char>, b: Seq<char>, i: int)
    requires
        0 <= i <= a.len(),
        i < b.len(),
        forall|k: int| 0 <= k < i ==> a[k] == b[k],
        i == a.len() || a[i] != b[i],
    ensures
        precedes(a, b) <==> (i == a.len() || (a[i] as u32) < (b[i] as u32)),
    decreases i,
{
    if i > 0 {
        let x = a.drop_first();
        let y = b.drop_first();
        assert(a[0] == b[0]);
        assert forall|k: int| 0 <= k < i - 1 implies x[k] == y[k] by {
            assert(x[k] == a[k + 1] && y[k] == b[k + 1]);
        }
        if i < a.len() {
            assert(x[i - 1] == a[i] && y[i - 1] == b[i]);
        }
        texts_are_ordered_by_their_first_difference(x, y, i - 1);
    }
}

/// Each further digit of a number counts ten times less than what stands
/// before it.
pub proof fn digits_count_by_tens(text: Seq<char>, c: char, n: u64)
    requires
        parsed_u64(text) == Some(n),
        '0' as u32 <= c as u32 <= '9' as u32,
    ensures
        parsed_u64(text.push(c)) == if n * 10 + (c as u32 - '0' as u32) <= u64::MAX {
            Some((n * 10 + (c as u32 - '0' as u32)) as u64)
        } else {
            None
        },
{
    let longer = text.push(c);
    if text[0] == '+' {
        let body = text.subrange(1, text.len() as int);
        assert(longer.subrange(1, longer.len() as int) =~= body.push(c));
        assert(body.push(c).drop_last() =~= body);
    } else {
        assert(longer.drop_last() =~= text);
    }
}

/// A single digit is its own value, with or without a plus sign.
pub proof fn single_digits_are_numbers(c: char)
    requires
        '0' as u32 <= c as u32 <= '9' as u32,
    ensures
        parsed_u64(seq![c]) == Some((c as u32 - '0' as u32) as u64),
        parsed_u64(seq!['+', c]) == Some((c as u32 - '0' as u32) as u64),
{
    assert(seq![c].drop_last() =~= Seq::<char>::empty());
    assert(digits_value(seq![c].drop_last()) == Some(0nat));
    assert(seq!['+', c].subrange(1, 2) =~= seq![c]);
}

/// Nothing but digits, behind at most one plus sign, is a number.
pub proof fn only_digits_are_numbers(text: Seq<char>, i: int)
    requires
        0 <= i < text.len(),
        !('0' as u32 <= text[i] as u32 <= '9' as u32),
        i > 0 || text[0] != '+' || text.len() == 1,
    ensures
        parsed_u64(text) is None,
{
    if text[0] == '+' {
        let body = text.subrange(1, text.len() as int);
        if i > 0 {
            assert(body[i - 1] == text[i]);
            lemma_no_value(body, i - 1);
        }
    } else {
        lemma_no_value(text, i);
    }
}

proof fn lemma_no_value(text: Seq<char>, i: int)
    requires
        0 <= i < text.len(),
        !('0' as u32 <= text[i] as u32 <= '9' as u32),
    ensures
        digits_value(text) is None,
    decreases text.len(),
{
    if i < text.len() - 1 {
        assert(text.drop_last()[i] == text[i]);
        lemma_no_value(text.drop_last(), i);
    }
}

/// No text is no number.
pub proof fn empty_text_is_no_number()
    ensures
        parsed_u64(Seq::empty()) is None,
{
}

/// A negative number is written as its opposite behind a minus sign, and no
/// number that is not negative has one.
pub proof fn sign_stands_in_front(n: int)
    ensures
        n < 0 ==> decimal(n) == "-"@ + decimal(-n),
        n >= 0 ==> decimal(n).len() > 0 && '0' as u32 <= decimal(n)[0] as u32 <= '9' as u32,
{
    if n >= 0 {
        lemma_first_digit(n as nat);
    }
}

proof fn lemma_first_digit(n: nat)
    ensures
        digits(n).len() > 0,
        '0' as u32 <= digits(n)[0] as u32 <= '9' as u32,
    decreases n,
{
    if n >= 10 {
        lemma_first_digit(n / 10);
        assert(digits(n)[0] == digits(n / 10)[0]);
    }
}

// ---- lists of texts ----

/// A list of texts stands for its texts, one for one.
pub proof fn lists_stand_for_their_texts(texts: Seq<String>, text: Option<String>)
    ensures
        texts_of(texts).len() == texts.len(),
        forall|i: int| 0 <= i < texts.len() ==> #[trigger] texts_of(texts)[i] == texts[i]@,
        views(texts) == texts_of(texts),
        text_of(text) is Some <==> text is Some,
        text is Some ==> text_of(text)->0 == text->0@,
{
    assert(views(texts) =~= texts_of(texts));
}

/// A JSON array of texts holds them, one for one.
pub proof fn text_arrays_hold_their_texts(texts: Seq<String>)
    ensures
        text_array(texts) is Array,
        text_array(texts)->Array_0.len() == texts.len(),
        forall|i: int|
            0 <= i < texts.len() ==> #[trigger] text_array(texts)->Array_0[i] == Json::Text(
                texts[i]@,
            ),
{
}

// ---- JSON objects ----

/// Looking a key up finds the last member of that name, and finds nothing only
/// where there is none.
pub proof fn lookup_finds_the_last_of_its_name(members: Seq<(Seq<char>, Json)>, key: Seq<char>)
    ensures
        match lookup(members, key) {
            Some(value) => exists|i: int|
                0 <= i < members.len() && #[trigger] members[i] == (key, value) && (forall|j: int|
                    i < j < members.len() ==> (#[trigger] members[j]).0 != key),
            None => forall|i: int| 0 <= i < members.len() ==> (#[trigger] members[i]).0 != key,
        },
    decreases members.len(),
{
    if members.len() > 0 {
        let n = members.len() - 1;
        let front = members.drop_last();
        if members.last().0 == key {
            assert(members[n] == (key, members.last().1));
        } else {
            lookup_finds_the_last_of_its_name(front, key);
            match lookup(front, key) {
                Some(value) => {
                    let i = choose|i: int|
                        0 <= i < front.len() && #[trigger] front[i] == (key, value) && (forall|
                            j: int,
                        |
                            i < j < front.len() ==> (#[trigger] front[j]).0 != key);
                    assert(members[i] == (key, value));
                    assert forall|j: int| i < j < members.len() implies (
                    #[trigger] members[j]).0 != key by {
                        if j < n {
                            assert(front[j] == members[j]);
                        }
                    }
                },
                None => {
                    assert forall|i: int| 0 <= i < members.len() implies (
                    #[trigger] members[i]).0 != key by {
                        if i < n {
                            assert(front[i] == members[i]);
                        }
                    }
                },
            }
        }
    }
}

/// Setting a member leaves the others in their places; a new one goes to the
/// end.
pub proof fn members_keep_their_places(
    members: Seq<(Seq<char>, Json)>,
    key: Seq<char>,
    value: Json,
    i: int,
)
    requires
        0 <= i < members.len(),
    ensures
        with_member(members, key, value)[i].0 == members[i].0,
        members[i].0 != key ==> with_member(members, key, value)[i] == members[i],
        with_member(members, key, value).len() == members.len() || with_member(members, key, value)
            == members.push((key, value)),
{
}

// ---- metadata ----

/// What metadata says of an object, field by field.
pub proof fn metadata_is_read_from_its_fields(meta: ObjectMeta, key: Seq<char>)
    ensures
        meta.name is Some ==> meta.any_name() == meta.name->0@,
        meta.name is None && meta.generate_name is Some ==> meta.any_name()
            == meta.generate_name->0@,
        meta.name is None && meta.generate_name is None ==> meta.any_name().len() == 0,
        meta.namespace is Some ==> meta.own_namespace() == meta.namespace->0@,
        meta.namespace is None ==> meta.own_namespace().len() == 0,
        meta.annotation_of(key) is Some <==> meta.annotations is Some
            && meta.annotations->0@.contains_key(key),
        meta.annotation_of(key) is Some ==> meta.annotation_of(key)->0
            == meta.annotations->0@[key]@,
        meta.label_of(key) is Some <==> meta.labels is Some && meta.labels->0@.contains_key(key),
        meta.label_of(key) is Some ==> meta.label_of(key)->0 == meta.labels->0@[key]@,
        meta.finalizers is None ==> meta.finalizers_of().len() == 0,
        meta.finalizers is Some ==> meta.finalizers_of().len() == meta.finalizers->0@.len() && (
        forall|i: int|
            0 <= i < meta.finalizers->0@.len() ==> #[trigger] meta.finalizers_of()[i]
                == meta.finalizers->0@[i]@),
{
}

/// Metadata of a new object carries its name and nothing else.
pub proof fn new_metadata_carries_its_name(meta: ObjectMeta, name: Seq<char>)
    requires
        meta.is_named(name),
    ensures
        meta.name is Some,
        meta.name->0@ == name,
        meta.any_name() == name,
        meta.namespace is None,
        meta.labels is None,
        meta.annotations is None,
        meta.finalizers is None,
{
}

/// The ports of a Service are those of its spec, and the bytes of a Secret
/// those of its data.
pub proof fn objects_hold_what_they_list(
    svc: Service,
    ports: Vec<ServicePort>,
    secret: Secret,
    key: Seq<char>,
)
    ensures
        svc.spec is Some && svc.spec->0.ports == Some(ports) ==> ports_of(svc) == ports@,
        svc.spec is None || svc.spec->0.ports is None ==> ports_of(svc).len() == 0,
        secret.bytes_of(key) is Some <==> secret.data is Some && secret.data->0@.contains_key(key),
        secret.bytes_of(key) is Some ==> secret.bytes_of(key)->0 == secret.data->0@[key]@,
        svc.meta_of() == svc.metadata,
{
}

/// An instance covers a namespace exactly where it lists it, or lists `*`.
pub proof fn instance_covers_what_it_watches(instance: HeadscaleInstance, ns: Seq<char>)
    ensures
        instance.allows(ns) <==> exists|i: int|
            0 <= i < instance.spec.watched_namespaces@.len() && (
            #[trigger] instance.spec.watched_namespaces@[i]@ == ns
                || instance.spec.watched_namespaces@[i]@ == "*"@),
        instance.meta_of() == instance.metadata,
{
    let watched = instance.spec.watched_namespaces@;
    let texts = texts_of(watched);
    if instance.allows(ns) {
        if texts.contains(ns) {
            let i = texts.index_of(ns);
            assert(watched[i]@ == ns);
        } else {
            let i = texts.index_of("*"@);
            assert(watched[i]@ == "*"@);
        }
    }
    if exists|i: int|
        0 <= i < watched.len() && (#[trigger] watched[i]@ == ns || watched[i]@ == "*"@) {
        let i = choose|i: int|
            0 <= i < watched.len() && (#[trigger] watched[i]@ == ns || watched[i]@ == "*"@);
        assert(texts[i] == watched[i]@);
    }
}

// ---- names ----

/// The first eight hex digits of a digest: two for each of its first four
/// bytes, the high half first.
pub open spec fn is_hex_of(digits: Seq<char>, digest: Seq<u8>) -> bool {
    &&& digits.len() == 8
    &&& forall|i: int| 0 <= i < 4 ==> is_hex_digit(#[trigger] digits[2 * i], digest[i] as int / 16)
    &&& forall|i: int|
        0 <= i < 4 ==> is_hex_digit(#[trigger] digits[2 * i + 1], digest[i] as int % 16)
}

/// Whether a character is the lower-case hex digit of a value.
pub open spec fn is_hex_digit(c: char, value: int) -> bool {
    ('0' as u32 <= c as u32 <= '9' as u32 && c as u32 - '0' as u32 == value) || ('a' as u32
        <= c as u32 <= 'f' as u32 && c as u32 - 'a' as u32 + 10 == value)
}

/// The names of a Service's proxy share a part: as much of its readable name
/// as fits into forty bytes, and eight digits of the digest of its kind, its
/// namespace and its name. A name for each resource is put in front.
pub proof fn service_names_are_readable_and_hashed(
    names: ProxyNames,
    ns: Seq<char>,
    name: Seq<char>,
) -> (kept: int)
    requires
        names.derived_from(service_base(ns, name)),
    ensures
        ({
            let readable = "svc-"@ + ns + "-"@ + name;
            let base = names.proxy_base@;
            &&& 0 <= kept <= readable.len()
            &&& encode_utf8(readable.take(kept)).len() <= 40
            &&& kept < readable.len() ==> encode_utf8(readable.take(kept + 1)).len() > 40
            &&& base.len() == kept + 9
            &&& base.take(kept) == readable.take(kept)
            &&& base[kept] == '-'
            &&& is_hex_of(
                base.skip(kept + 1),
                sha256_of(encode_utf8("svc\0"@ + ns + "\0"@ + name)),
            )
            &&& names.proxy_name@ == "proxy-"@ + base
            &&& names.wg_service_name@ == "proxy-wg-"@ + base
            &&& names.config_secret_name@ == "proxy-authkey-"@ + base
            &&& names.state_secret_name@ == "proxy-state-"@ + base
            &&& names.serve_configmap_name@ == "proxy-serve-"@ + base
            &&& service_tag(ns, name) == "tag:hm-"@ + base
        }),
{
    let readable = "svc-"@ + ns + "-"@ + name;
    lemma_base(
        readable,
        sha256_of(encode_utf8("svc\0"@ + ns + "\0"@ + name)),
        service_base(ns, name),
    )
}

/// The names of an Ingress's proxy share such a part as well, without the
/// kind.
pub proof fn ingress_names_are_readable_and_hashed(
    names: ProxyNames,
    ns: Seq<char>,
    name: Seq<char>,
) -> (kept: int)
    requires
        names.derived_from(ingress_base(ns, name)),
    ensures
        ({
            let readable = ns + "-"@ + name;
            let base = names.proxy_base@;
            &&& 0 <= kept <= readable.len()
            &&& encode_utf8(readable.take(kept)).len() <= 40
            &&& kept < readable.len() ==> encode_utf8(readable.take(kept + 1)).len() > 40
            &&& base.len() == kept + 9
            &&& base.take(kept) == readable.take(kept)
            &&& base[kept] == '-'
            &&& is_hex_of(base.skip(kept + 1), sha256_of(encode_utf8(ns + "\0"@ + name)))
            &&& names.proxy_name@ == "proxy-"@ + base
            &&& names.state_secret_name@ == "proxy-state-"@ + base
        }),
{
    let readable = ns + "-"@ + name;
    lemma_base(readable, sha256_of(encode_utf8(ns + "\0"@ + name)), ingress_base(ns, name))
}

proof fn lemma_base(readable: Seq<char>, digest: Seq<u8>, base: Seq<char>) -> (kept: int)
    requires
        base == crate::names::base_with(crate::names::digest_suffix(digest), readable),
    ensures
        0 <= kept <= readable.len(),
        encode_utf8(readable.take(kept)).len() <= 40,
        kept < readable.len() ==> encode_utf8(readable.take(kept + 1)).len() > 40,
        base.len() == kept + 9,
        base.take(kept) == readable.take(kept),
        base[kept] == '-',
        is_hex_of(base.skip(kept + 1), digest),
{
    reveal_strlit("-");
    lemma_fitted(readable, 40);
    let prefix = fitted(readable, 40);
    let kept = prefix.len() as int;
    let suffix = crate::names::digest_suffix(digest);
    assert(readable.take(kept) =~= readable.subrange(0, kept));
    if kept < readable.len() {
        assert(readable.take(kept + 1) =~= readable.subrange(0, kept + 1));
    }
    assert(base.take(kept) =~= prefix);
    assert(base.skip(kept + 1) =~= suffix);
    let four = Seq::new(4, |i: int| digest[i]);
    assert forall|i: int| 0 <= i < 4 implies is_hex_digit(
        #[trigger] suffix[2 * i],
        digest[i] as int / 16,
    ) by {
        assert(suffix[2 * i] == hex_text(four)[2 * i]);
        assert((2 * i) % 2 == 0 && (2 * i) / 2 == i);
        assert(0 <= digest[i] as int / 16 < 16);
    }
    assert forall|i: int| 0 <= i < 4 implies is_hex_digit(
        #[trigger] suffix[2 * i + 1],
        digest[i] as int % 16,
    ) by {
        assert(suffix[2 * i + 1] == hex_text(four)[2 * i + 1]);
        assert((2 * i + 1) % 2 == 1 && (2 * i + 1) / 2 == i);
        assert(0 <= digest[i] as int % 16 < 16);
    }
    kept
}

} // verus!
