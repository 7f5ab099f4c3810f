//! JSON values, built, read and printed with `serde_json`.

use vstd::prelude::*;
use vstd::string::*;

verus! {

// ---- the model ----

/// What a JSON value is. An object keeps its members in the order in which
/// they were added.
#[verifier::ext_equal]
pub enum Json {
    Null,
    Bool(bool),
    /// A number, by its printed form.
    Number(Seq<char>),
    Text(Seq<char>),
    Array(Seq<Json>),
    Object(Seq<(Seq<char>, Json)>),
}

/// Whether an object has a member named `key`.
pub open spec fn has_member(members: Seq<(Seq<char>, Json)>, key: Seq<char>) -> bool {
    exists|i: int| 0 <= i < members.len() && #[trigger] members[i].0 == key
}

/// The value of the member named `key`.
pub open spec fn lookup(members: Seq<(Seq<char>, Json)>, key: Seq<char>) -> Option<Json>
    decreases members.len(),
{
    if members.len() == 0 {
        None
    } else if members.last().0 == key {
        Some(members.last().1)
    } else {
        lookup(members.drop_last(), key)
    }
}

/// The members with `key` set to `value`: in its place where the key is there
/// already, else at the end.
pub open spec fn with_member(
    members: Seq<(Seq<char>, Json)>,
    key: Seq<char>,
    value: Json,
) -> Seq<(Seq<char>, Json)> {
    if has_member(members, key) {
        members.map_values(
            |member: (Seq<char>, Json)|
                if member.0 == key {
                    (key, value)
                } else {
                    member
                },
        )
    } else {
        members.push((key, value))
    }
}

/// The members of an object to which `pairs` were added one after the other.
pub open spec fn collected(pairs: Seq<(Seq<char>, Json)>) -> Seq<(Seq<char>, Json)>
    decreases pairs.len(),
{
    if pairs.len() == 0 {
        pairs
    } else {
        with_member(collected(pairs.drop_last()), pairs.last().0, pairs.last().1)
    }
}

/// Texts as a JSON array.
pub open spec fn text_array(texts: Seq<String>) -> Json {
    Json::Array(texts.map_values(|text: String| Json::Text(text@)))
}

// ---- values of serde_json ----

/// `serde_json::Value`.
#[verifier::external_type_specification]
#[verifier::external_body]
pub struct ExValue(serde_json::Value);

/// `serde_json::Map`, which keeps the order of insertion.
#[verifier::external_type_specification]
#[verifier::external_body]
#[verifier::reject_recursive_types(K)]
#[verifier::reject_recursive_types(V)]
pub struct ExMap<K, V>(serde_json::Map<K, V>);

/// What a `serde_json::Value` holds.
pub uninterp spec fn json_of(value: serde_json::Value) -> Json;

/// What a `serde_json::Map` holds, in order.
pub uninterp spec fn members_of(map: serde_json::Map<String, serde_json::Value>) -> Seq<
    (Seq<char>, Json),
>;

/// Calls `serde_json::Map::new`: the map is empty.
#[verifier::external_body]
fn new_map() -> (map: serde_json::Map<String, serde_json::Value>)
    ensures
        members_of(map) == Seq::<(Seq<char>, Json)>::empty(),
{
    serde_json::Map::new()
}

/// Calls `serde_json::Map::insert`: the value of a key that is there is
/// replaced in its place, a new key goes to the end.
#[verifier::external_body]
fn insert_member(
    map: &mut serde_json::Map<String, serde_json::Value>,
    key: String,
    value: serde_json::Value,
)
    ensures
        members_of(*final(map)) == with_member(members_of(*old(map)), key@, json_of(value)),
{
    map.insert(key, value);
}

/// Makes a `serde_json::Value::Object` of a map.
#[verifier::external_body]
fn object_value(map: serde_json::Map<String, serde_json::Value>) -> (value: serde_json::Value)
    ensures
        json_of(value) == Json::Object(members_of(map)),
{
    serde_json::Value::Object(map)
}

/// Makes a `serde_json::Value::String`.
#[verifier::external_body]
pub(crate) fn text_value(text: String) -> (value: serde_json::Value)
    ensures
        json_of(value) == Json::Text(text@),
{
    serde_json::Value::String(text)
}

/// Makes a `serde_json::Value::Bool`.
#[verifier::external_body]
pub(crate) fn bool_value(flag: bool) -> (value: serde_json::Value)
    ensures
        json_of(value) == Json::Bool(flag),
{
    serde_json::Value::Bool(flag)
}

/// Makes a `serde_json::Value::Null`.
#[verifier::external_body]
pub(crate) fn null_value() -> (value: serde_json::Value)
    ensures
        json_of(value) == Json::Null,
{
    serde_json::Value::Null
}

/// Makes a `serde_json::Value::Array`.
#[verifier::external_body]
pub(crate) fn array_value(items: Vec<serde_json::Value>) -> (value: serde_json::Value)
    ensures
        json_of(value) == Json::Array(items@.map_values(|item: serde_json::Value| json_of(item))),
{
    serde_json::Value::Array(items)
}

/// What `serde_json` reads from a text, where it is JSON.
pub uninterp spec fn parsed_json(text: Seq<char>) -> Option<Json>;

/// Calls `serde_json::from_str` for a `serde_json::Value`: whether the text is
/// JSON, and what it holds, depend on the text alone.
#[verifier::external_body]
pub(crate) fn parse_value(text: &str) -> (value: Option<serde_json::Value>)
    ensures
        value is Some <==> parsed_json(text@) is Some,
        value is Some ==> Some(json_of(value->0)) == parsed_json(text@),
{
    serde_json::from_str::<serde_json::Value>(text).ok()
}

/// Calls `serde_json::Value::get` with a key: the member of that name where
/// the value is an object that has it.
#[verifier::external_body]
pub(crate) fn member<'a>(value: &'a serde_json::Value, key: &str) -> (member: Option<
    &'a serde_json::Value,
>)
    ensures
        match json_of(*value) {
            Json::Object(members) => match member {
                Some(found) => lookup(members, key@) == Some(json_of(*found)),
                None => lookup(members, key@) is None,
            },
            _ => member is None,
        },
{
    value.get(key)
}

/// Calls `serde_json::Value::as_str`: the text where the value is one.
#[verifier::external_body]
pub(crate) fn as_text(value: &serde_json::Value) -> (text: Option<&str>)
    ensures
        match json_of(*value) {
            Json::Text(chars) => text is Some && text->0@ == chars,
            _ => text is None,
        },
{
    value.as_str()
}

/// How `serde_json` prints a value over several lines.
pub uninterp spec fn pretty_json(value: Json) -> Seq<char>;

/// Calls `serde_json::to_string_pretty`, which does not fail on a
/// `serde_json::Value`: the text depends on what the value holds alone.
#[verifier::external_body]
pub(crate) fn pretty(value: &serde_json::Value) -> (text: String)
    ensures
        text@ == pretty_json(json_of(*value)),
{
    serde_json::to_string_pretty(value).expect("a JSON value is always printable")
}

/// The list of texts that `serde_json` reads from some bytes, where they are
/// a JSON array of strings.
pub uninterp spec fn parsed_text_list(data: Seq<u8>) -> Option<Seq<Seq<char>>>;

/// Calls `serde_json::from_slice` for a `Vec<String>`: whether the bytes are
/// an array of strings, and which, depends on the bytes alone.
#[verifier::external_body]
pub(crate) fn parse_text_list(data: &Vec<u8>) -> (texts: Option<Vec<String>>)
    ensures
        texts is Some <==> parsed_text_list(data@) is Some,
        texts is Some ==> Some(texts->0@.map_values(|text: String| text@)) == parsed_text_list(
            data@,
        ),
{
    serde_json::from_slice::<Vec<String>>(data).ok()
}

// ---- building ----

/// What pairs of a key and a value stand for.
pub open spec fn pair_views(pairs: Seq<(String, serde_json::Value)>) -> Seq<(Seq<char>, Json)> {
    pairs.map_values(|pair: (String, serde_json::Value)| (pair.0@, json_of(pair.1)))
}

/// Collects pairs into an object.
pub fn object(pairs: Vec<(String, serde_json::Value)>) -> (value: serde_json::Value)
    ensures
        json_of(value) == Json::Object(collected(pair_views(pairs@))),
{
    let ghost all = pair_views(pairs@);
    let mut map = new_map();
    let mut rest = pairs;
    proof {
        assert(all.take(0) =~= Seq::empty());
        assert(all.skip(0) =~= all);
    }
    while rest.len() > 0
        invariant
            rest@.len() <= all.len(),
            pair_views(rest@) == all.skip(all.len() - rest@.len()),
            members_of(map) == collected(all.take(all.len() - rest@.len())),
        decreases rest.len(),
    {
        let ghost done = all.len() - rest@.len();
        let ghost before = rest@;
        let (key, item) = rest.remove(0);
        proof {
            assert(pair_views(before)[0] == (key@, json_of(item)));
            assert(all[done] == all.skip(done)[0]);
            assert(all.take(done + 1).drop_last() =~= all.take(done));
            assert(pair_views(rest@) =~= pair_views(before).skip(1));
            assert(all.skip(done).skip(1) =~= all.skip(done + 1));
        }
        insert_member(&mut map, key, item);
    }
    proof {
        assert(all.take(all.len() as int) =~= all);
    }
    object_value(map)
}

/// An object with one member.
pub fn object1(key: &str, value: serde_json::Value) -> (object: serde_json::Value)
    ensures
        json_of(object) == Json::Object(seq![(key@, json_of(value))]),
{
    let mut map = new_map();
    insert_member(&mut map, String::from_str(key), value);
    proof {
        assert(members_of(map) =~= seq![(key@, json_of(value))]);
    }
    object_value(map)
}

/// An object with two members.
pub fn object2(key1: &str, value1: serde_json::Value, key2: &str, value2: serde_json::Value) -> (object:
    serde_json::Value)
    requires
        key1@ != key2@,
    ensures
        json_of(object) == Json::Object(seq![(key1@, json_of(value1)), (key2@, json_of(value2))]),
{
    let mut map = new_map();
    insert_member(&mut map, String::from_str(key1), value1);
    insert_member(&mut map, String::from_str(key2), value2);
    proof {
        assert(members_of(map) =~= seq![(key1@, json_of(value1)), (key2@, json_of(value2))]);
    }
    object_value(map)
}

/// An object with three members.
pub fn object3(
    key1: &str,
    value1: serde_json::Value,
    key2: &str,
    value2: serde_json::Value,
    key3: &str,
    value3: serde_json::Value,
) -> (object: serde_json::Value)
    requires
        key1@ != key2@,
        key1@ != key3@,
        key2@ != key3@,
    ensures
        json_of(object) == Json::Object(
            seq![
                (key1@, json_of(value1)),
                (key2@, json_of(value2)),
                (key3@, json_of(value3)),
            ],
        ),
{
    let mut map = new_map();
    insert_member(&mut map, String::from_str(key1), value1);
    insert_member(&mut map, String::from_str(key2), value2);
    proof {
        assert(members_of(map) =~= seq![(key1@, json_of(value1)), (key2@, json_of(value2))]);
    }
    insert_member(&mut map, String::from_str(key3), value3);
    proof {
        assert(members_of(map) =~= seq![
            (key1@, json_of(value1)),
            (key2@, json_of(value2)),
            (key3@, json_of(value3)),
        ]);
    }
    object_value(map)
}

/// An object with four members.
pub fn object4(
    key1: &str,
    value1: serde_json::Value,
    key2: &str,
    value2: serde_json::Value,
    key3: &str,
    value3: serde_json::Value,
    key4: &str,
    value4: serde_json::Value,
) -> (object: serde_json::Value)
    requires
        key1@ != key2@,
        key1@ != key3@,
        key1@ != key4@,
        key2@ != key3@,
        key2@ != key4@,
        key3@ != key4@,
    ensures
        json_of(object) == Json::Object(
            seq![
                (key1@, json_of(value1)),
                (key2@, json_of(value2)),
                (key3@, json_of(value3)),
                (key4@, json_of(value4)),
            ],
        ),
{
    let mut map = new_map();
    insert_member(&mut map, String::from_str(key1), value1);
    insert_member(&mut map, String::from_str(key2), value2);
    proof {
        assert(members_of(map) =~= seq![(key1@, json_of(value1)), (key2@, json_of(value2))]);
    }
    insert_member(&mut map, String::from_str(key3), value3);
    proof {
        assert(members_of(map) =~= seq![
            (key1@, json_of(value1)),
            (key2@, json_of(value2)),
            (key3@, json_of(value3)),
        ]);
    }
    insert_member(&mut map, String::from_str(key4), value4);
    proof {
        assert(members_of(map) =~= seq![
            (key1@, json_of(value1)),
            (key2@, json_of(value2)),
            (key3@, json_of(value3)),
            (key4@, json_of(value4)),
        ]);
    }
    object_value(map)
}

/// An array of texts.
pub fn texts(items: &Vec<String>) -> (value: serde_json::Value)
    ensures
        json_of(value) == text_array(items@),
{
    let mut values: Vec<serde_json::Value> = Vec::new();
    let mut i: usize = 0;
    while i < items.len()
        invariant
            i <= items@.len(),
            values@.len() == i,
            forall|k: int| 0 <= k < i ==> json_of(#[trigger] values@[k]) == Json::Text(items@[k]@),
        decreases items@.len() - i,
    {
        values.push(text_value(items[i].clone()));
        i = i + 1;
    }
    proof {
        assert(values@.map_values(|item: serde_json::Value| json_of(item)) =~= items@.map_values(
            |text: String| Json::Text(text@),
        ));
    }
    array_value(values)
}

// ---- laws ----

/// Setting a member makes it readable and leaves the others as they were.
pub proof fn lookup_after_with_member(
    members: Seq<(Seq<char>, Json)>,
    key: Seq<char>,
    value: Json,
    other: Seq<char>,
)
    ensures
        lookup(with_member(members, key, value), other) == if other == key {
            Some(value)
        } else {
            lookup(members, other)
        },
    decreases members.len(),
{
    let after = with_member(members, key, value);
    if has_member(members, key) {
        let replace = |member: (Seq<char>, Json)|
            if member.0 == key {
                (key, value)
            } else {
                member
            };
        lemma_lookup_replaced(members, key, value, other);
        assert(after =~= members.map_values(replace));
        if other == key {
            lemma_lookup_some(members, key);
        }
    } else {
        assert(after.drop_last() =~= members);
        assert(after.last() == (key, value));
    }
}

proof fn lemma_lookup_some(members: Seq<(Seq<char>, Json)>, key: Seq<char>)
    ensures
        lookup(members, key) is Some <==> has_member(members, key),
    decreases members.len(),
{
    if members.len() > 0 {
        let front = members.drop_last();
        lemma_lookup_some(front, key);
        if members.last().0 == key {
            assert(members[members.len() - 1].0 == key);
        }
        if has_member(front, key) {
            let i = choose|i: int| 0 <= i < front.len() && #[trigger] front[i].0 == key;
            assert(members[i].0 == key);
        }
        if has_member(members, key) && members.last().0 != key {
            let i = choose|i: int| 0 <= i < members.len() && #[trigger] members[i].0 == key;
            assert(front[i].0 == key);
        }
    }
}

proof fn lemma_lookup_replaced(
    members: Seq<(Seq<char>, Json)>,
    key: Seq<char>,
    value: Json,
    other: Seq<char>,
)
    ensures
        ({
            let replace = |member: (Seq<char>, Json)|
                if member.0 == key {
                    (key, value)
                } else {
                    member
                };
            lookup(members.map_values(replace), other) == if other == key && lookup(
                members,
                key,
            ) is Some {
                Some(value)
            } else {
                lookup(members, other)
            }
        }),
    decreases members.len(),
{
    let replace = |member: (Seq<char>, Json)|
        if member.0 == key {
            (key, value)
        } else {
            member
        };
    if members.len() > 0 {
        lemma_lookup_replaced(members.drop_last(), key, value, other);
        assert(members.map_values(replace).drop_last() =~= members.drop_last().map_values(replace));
        assert(members.map_values(replace).last() == replace(members.last()));
    } else {
        assert(members.map_values(replace) =~= members);
    }
}

/// Reading a collected object gives, for each key, the value that came last.
pub proof fn collected_last_wins(pairs: Seq<(Seq<char>, Json)>, key: Seq<char>)
    ensures
        lookup(collected(pairs), key) == lookup(pairs, key),
    decreases pairs.len(),
{
    if pairs.len() > 0 {
        collected_last_wins(pairs.drop_last(), key);
        lookup_after_with_member(
            collected(pairs.drop_last()),
            pairs.last().0,
            pairs.last().1,
            key,
        );
    }
}

/// A pair whose key does not come again is found by its key.
pub proof fn last_pair_is_found(pairs: Seq<(Seq<char>, Json)>, i: int)
    requires
        0 <= i < pairs.len(),
        forall|j: int| i < j < pairs.len() ==> (#[trigger] pairs[j]).0 != pairs[i].0,
    ensures
        lookup(pairs, pairs[i].0) == Some(pairs[i].1),
    decreases pairs.len(),
{
    if i < pairs.len() - 1 {
        assert(pairs[pairs.len() - 1].0 != pairs[i].0);
        assert(pairs.drop_last()[i] == pairs[i]);
        assert forall|j: int| i < j < pairs.drop_last().len() implies (
        #[trigger] pairs.drop_last()[j]).0 != pairs.drop_last()[i].0 by {
            assert(pairs.drop_last()[j] == pairs[j]);
        }
        last_pair_is_found(pairs.drop_last(), i);
    }
}

/// Pairs with distinct keys are collected as they are, in their order.
pub proof fn collected_keeps_distinct(pairs: Seq<(Seq<char>, Json)>)
    requires
        forall|i: int, j: int|
            0 <= i < j < pairs.len() ==> (#[trigger] pairs[i]).0 != (#[trigger] pairs[j]).0,
    ensures
        collected(pairs) == pairs,
    decreases pairs.len(),
{
    if pairs.len() > 0 {
        let front = pairs.drop_last();
        collected_keeps_distinct(front);
        assert forall|i: int| 0 <= i < front.len() implies #[trigger] front[i].0
            != pairs.last().0 by {
            assert(front[i] == pairs[i]);
            assert(pairs[pairs.len() - 1] == pairs.last());
        }
        assert(collected(pairs) =~= pairs);
    }
}

} // verus!
