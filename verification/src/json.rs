//! The boundary to `serde_json`: a model of what a JSON value holds, and the
//! contracts under which the rest of the crate calls the parser, the printer
//! and the accessors of `serde_json::Value` and `serde_json::Map`.
//!
//! Nothing in this file is proved. Each contract restates what the source of
//! `serde_json` shows of the function that it names, over [`json_of`] and
//! [`members_of`], which stand for what a value and a map hold.

use vstd::prelude::*;

verus! {

/// What a JSON value holds, as far as this crate reads it.
pub enum Json {
    Null,
    Bool(bool),
    /// A number that was written as an integer, from `i64::MIN` to `u64::MAX`.
    Int(int),
    /// Any other number.
    Real,
    Text(Seq<char>),
    Array(Seq<Json>),
    Object(Members),
}

/// The members of a JSON object, by key.
pub type Members = Map<Seq<char>, Json>;

/// `serde_json::Value`, known only by [`json_of`].
#[verifier::external_type_specification]
#[verifier::external_body]
pub struct ExValue(serde_json::Value);

/// `serde_json::Map`, known only by [`members_of`].
#[verifier::external_type_specification]
#[verifier::external_body]
#[verifier::reject_recursive_types(K)]
#[verifier::reject_recursive_types(V)]
pub struct ExMap<K, V>(serde_json::Map<K, V>);

/// `serde_json::Error`, of which nothing is read.
#[verifier::external_type_specification]
#[verifier::external_body]
pub struct ExError(serde_json::Error);

/// What a `serde_json::Value` holds.
pub uninterp spec fn json_of(value: serde_json::Value) -> Json;

/// The members that a `serde_json::Map` holds, by key.
pub uninterp spec fn members_of(object: serde_json::Map<String, serde_json::Value>) -> Members;

/// `serde_json::Value::as_object`: the map of an object, and nothing for any
/// other value.
pub assume_specification<'a>[ serde_json::Value::as_object ](
    value: &'a serde_json::Value,
) -> (object: Option<&'a serde_json::Map<String, serde_json::Value>>)
    ensures
        match json_of(*value) {
            Json::Object(members) => object matches Some(o) && members_of(*o) == members,
            _ => object is None,
        },
;

/// `serde_json::Value::as_str`: the characters of a string, and nothing for
/// any other value.
pub assume_specification<'a>[ serde_json::Value::as_str ](
    value: &'a serde_json::Value,
) -> (text: Option<&'a str>)
    ensures
        match json_of(*value) {
            Json::Text(chars) => text matches Some(t) && t@ == chars,
            _ => text is None,
        },
;

/// `serde_json::Value::as_i64`: the integer that a number was written as, if
/// it fits in an `i64`, and nothing for any other value.
pub assume_specification[ serde_json::Value::as_i64 ](value: &serde_json::Value) -> (number: Option<i64>)
    ensures
        match json_of(*value) {
            Json::Int(n) => if i64::MIN <= n <= i64::MAX {
                number == Some(n as i64)
            } else {
                number is None
            },
            _ => number is None,
        },
;

/// `serde_json::Map::new`: a map without members.
#[verifier::external_body]
pub(crate) fn new_object() -> (object: serde_json::Map<String, serde_json::Value>)
    ensures
        members_of(object) == Members::empty(),
{
    serde_json::Map::new()
}

/// `serde_json::Map::get`: the member under a key, and nothing where the map
/// has no such key.
#[verifier::external_body]
pub(crate) fn member<'a>(
    object: &'a serde_json::Map<String, serde_json::Value>,
    key: &str,
) -> (value: Option<&'a serde_json::Value>)
    ensures
        match value {
            Some(v) => members_of(*object).contains_pair(key@, json_of(*v)),
            None => !members_of(*object).contains_key(key@),
        },
{
    object.get(key)
}

/// Whether a sequence of pairs holds what a map holds: every pair is in the
/// map, no key comes twice, and every key of the map comes.
pub open spec fn holds_each_once<V>(pairs: Seq<(Seq<char>, V)>, members: Map<Seq<char>, V>) -> bool {
    &&& forall|i: int|
        #![trigger pairs[i]]
        0 <= i < pairs.len() ==> members.contains_pair(pairs[i].0, pairs[i].1)
    &&& forall|i: int, j: int|
        #![trigger pairs[i], pairs[j]]
        0 <= i < j < pairs.len() ==> pairs[i].0 != pairs[j].0
    &&& forall|key: Seq<char>|
        #![trigger members.contains_key(key)]
        members.contains_key(key) ==> exists|i: int|
            #![trigger pairs[i]]
            0 <= i < pairs.len() && pairs[i].0 == key
}

/// What some pairs of a key and a value hold.
pub open spec fn pairs_of(pairs: Seq<(&String, &serde_json::Value)>) -> Seq<(Seq<char>, Json)> {
    Seq::new(pairs.len(), |i: int| (pairs[i].0@, json_of(*pairs[i].1)))
}

/// `serde_json::Map::iter`: every member once, with its key. Nothing is said
/// of the order in which they come.
#[verifier::external_body]
pub(crate) fn entries<'a>(
    object: &'a serde_json::Map<String, serde_json::Value>,
) -> (pairs: Vec<(&'a String, &'a serde_json::Value)>)
    ensures
        holds_each_once(pairs_of(pairs@), members_of(*object)),
{
    object.iter().collect()
}

/// `serde_json::Map::insert` with a string value: the map holds the string
/// under the key afterwards, in place of what it held there before, and its
/// other members are unchanged.
#[verifier::external_body]
pub(crate) fn put_text(
    object: &mut serde_json::Map<String, serde_json::Value>,
    key: String,
    text: String,
)
    ensures
        members_of(*final(object)) == members_of(*old(object)).insert(key@, Json::Text(text@)),
{
    object.insert(key, serde_json::Value::String(text));
}

/// The value that `serde_json::from_str` reads from a text, where it reads
/// one.
pub uninterp spec fn document_of(text: Seq<char>) -> Option<Json>;

/// `serde_json::from_str`: the value that the whole text is the JSON notation
/// of, or an error where it is none.
#[verifier::external_body]
pub(crate) fn parse(text: &str) -> (document: Result<serde_json::Value, serde_json::Error>)
    ensures
        match document {
            Ok(value) => document_of(text@) == Some(json_of(value)),
            Err(_) => document_of(text@) is None,
        },
{
    serde_json::from_str(text)
}

/// The text that `serde_json::to_string` writes for a map whose members are
/// all strings.
pub uninterp spec fn object_text(members: Members) -> Seq<char>;

/// Whether every member of an object is a string.
pub open spec fn all_text(members: Members) -> bool {
    forall|key: Seq<char>| members.contains_key(key) ==> #[trigger] members[key] is Text
}

/// `serde_json::to_string`: the compact JSON notation of a map. The map
/// keeps its members sorted by key, as `serde_json` does unless it is built
/// with `preserve_order`, which this crate does not ask for. So where every
/// member is a string, the notation depends on the keys and the strings
/// alone. On such a map the call succeeds: the printer fails only where its
/// writer fails or a key is no string, and it writes into a `Vec<u8>`, which
/// takes every write, under keys that are strings.
#[verifier::external_body]
pub(crate) fn print(
    object: &serde_json::Map<String, serde_json::Value>,
) -> (text: Result<String, serde_json::Error>)
    ensures
        match text {
            Ok(t) => all_text(members_of(*object)) ==> t@ == object_text(members_of(*object)),
            Err(_) => !all_text(members_of(*object)),
        },
{
    serde_json::to_string(object)
}

} // verus!
