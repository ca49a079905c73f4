//! The boundary to `serde_json`.
//!
//! A JSON value stays a `serde_json::Value` throughout the crate. Verus sees
//! nothing inside one, so the contracts speak of a value through the document
//! it is written as, `json_doc`, and every function below is trusted: its
//! contract is believed, not proved.
//!
//! The contracts hold of `serde_json` as it is built by default, with the
//! members of an object kept sorted by key: the document of an object then
//! depends on its members alone, not on the order they were put in.

use vstd::prelude::*;

verus! {

#[verifier::external_type_specification]
#[verifier::external_body]
pub struct ExValue(serde_json::Value);

#[verifier::external_type_specification]
#[verifier::external_body]
pub struct ExJsonError(serde_json::Error);

#[verifier::external_type_specification]
#[verifier::external_body]
#[verifier::reject_recursive_types(K)]
#[verifier::reject_recursive_types(V)]
pub struct ExJsonMap<K, V>(serde_json::Map<K, V>);

/// What a JSON value holds: the bytes of its compact serialisation.
pub uninterp spec fn json_doc(v: serde_json::Value) -> Seq<u8>;

/// What a JSON object under construction holds: for each key, the document of
/// the member stored under it.
pub uninterp spec fn json_members(m: serde_json::Map<String, serde_json::Value>) -> Map<
    Seq<char>,
    Seq<u8>,
>;

/// The members of an object that has none.
pub open spec fn no_members() -> Map<Seq<char>, Seq<u8>> {
    Map::empty()
}

/// The document of the value that `bytes` parse to, or `None` where they are
/// not one JSON value.
pub uninterp spec fn json_parse(bytes: Seq<u8>) -> Option<Seq<u8>>;

/// The document of the member `key` of the value written as `doc`; the
/// document of `null` where the value is no object or has no such member.
pub uninterp spec fn json_member(doc: Seq<u8>, key: Seq<char>) -> Seq<u8>;

/// The text of the value written as `doc` where it is a JSON string.
pub uninterp spec fn json_string(doc: Seq<u8>) -> Option<Seq<char>>;

/// The number written as `doc` where it is an integer that fits `i64`.
pub uninterp spec fn json_integer(doc: Seq<u8>) -> Option<i64>;

/// The indented, multi-line rendering of the value written as `doc`.
pub uninterp spec fn json_pretty(doc: Seq<u8>) -> Seq<char>;

/// The document of the JSON string that holds `text`.
pub uninterp spec fn json_string_doc(text: Seq<char>) -> Seq<u8>;

/// The document of the JSON number `n`.
pub uninterp spec fn json_integer_doc(n: i64) -> Seq<u8>;

/// The document of the JSON object with exactly the given members.
pub uninterp spec fn json_object_doc(members: Map<Seq<char>, Seq<u8>>) -> Seq<u8>;

/// `serde_json::from_slice` at type `Value`: succeeds exactly on the inputs
/// that `json_parse` accepts, with the value it names.
#[verifier::external_body]
pub(crate) fn parse(bytes: &[u8]) -> (r: Result<serde_json::Value, serde_json::Error>)
    ensures
        match r {
            Ok(v) => json_parse(bytes@) == Some(json_doc(v)),
            Err(_) => json_parse(bytes@) is None,
        },
{
    serde_json::from_slice::<serde_json::Value>(bytes)
}

/// Indexing a `Value` by a string key: returns the member, or a `null` value
/// where there is none. Never panics.
#[verifier::external_body]
pub(crate) fn member<'a>(v: &'a serde_json::Value, key: &str) -> (r: &'a serde_json::Value)
    ensures
        json_doc(*r) == json_member(json_doc(*v), key@),
{
    &v[key]
}

/// `Value::as_str`: the text of a JSON string, `None` for any other value.
#[verifier::external_body]
pub(crate) fn as_str<'a>(v: &'a serde_json::Value) -> (r: Option<&'a str>)
    ensures
        match r {
            Some(s) => json_string(json_doc(*v)) == Some(s@),
            None => json_string(json_doc(*v)) is None,
        },
{
    v.as_str()
}

/// `Value::as_i64`: the number where the value is an integer within `i64`,
/// `None` for any other value.
#[verifier::external_body]
pub(crate) fn as_i64(v: &serde_json::Value) -> (r: Option<i64>)
    ensures
        r == json_integer(json_doc(*v)),
{
    v.as_i64()
}

/// `serde_json::to_string_pretty`: the pretty rendering of the value. It
/// always succeeds on a `Value`: the writer fails only on an I/O error of
/// its sink, which here is a byte vector in memory, or on a map key that is
/// no string, and the keys of a `Value` are strings.
#[verifier::external_body]
pub(crate) fn to_string_pretty(v: &serde_json::Value) -> (r: Result<String, serde_json::Error>)
    ensures
        r is Ok,
        r matches Ok(s) ==> s@ == json_pretty(json_doc(*v)),
{
    serde_json::to_string_pretty(v)
}

/// `serde_json::to_vec`: the bytes of the value's document. It always
/// succeeds on a `Value`, for the reasons given for `to_string_pretty`.
#[verifier::external_body]
pub(crate) fn to_vec(v: &serde_json::Value) -> (r: Result<Vec<u8>, serde_json::Error>)
    ensures
        r is Ok,
        r matches Ok(bytes) ==> bytes@ == json_doc(*v),
{
    serde_json::to_vec(v)
}

/// `Value::from` on a string slice: the JSON string holding that text.
#[verifier::external_body]
pub(crate) fn string_value(text: &str) -> (r: serde_json::Value)
    ensures
        json_doc(r) == json_string_doc(text@),
{
    serde_json::Value::from(text)
}

/// `Value::from` on an `i64`: the JSON number with that value.
#[verifier::external_body]
pub(crate) fn integer_value(n: i64) -> (r: serde_json::Value)
    ensures
        json_doc(r) == json_integer_doc(n),
{
    serde_json::Value::from(n)
}

/// `Map::new`: an object with no members.
#[verifier::external_body]
pub(crate) fn new_object() -> (r: serde_json::Map<String, serde_json::Value>)
    ensures
        json_members(r) == no_members(),
{
    serde_json::Map::new()
}

/// `Map::insert`: stores `value` under `key`, replacing a member that was
/// there under the same key and leaving every other member as it was.
#[verifier::external_body]
pub(crate) fn insert_member(
    object: &mut serde_json::Map<String, serde_json::Value>,
    key: &str,
    value: serde_json::Value,
)
    ensures
        json_members(*final(object)) == json_members(*old(object)).insert(key@, json_doc(value)),
{
    object.insert(key.to_owned(), value);
}

/// `Value::from` on a `Map`: the JSON object with the members of the map.
#[verifier::external_body]
pub(crate) fn object_value(object: serde_json::Map<String, serde_json::Value>) -> (r:
    serde_json::Value)
    ensures
        json_doc(r) == json_object_doc(json_members(object)),
{
    serde_json::Value::from(object)
}

/// The message of a `serde_json::Error`, as its `Display` writes it. Nothing is
/// claimed about the text.
#[verifier::external_body]
pub(crate) fn error_text(error: &serde_json::Error) -> (r: String) {
    error.to_string()
}

/// `Value::clone`: a value that is written as the same document.
#[verifier::external_body]
pub(crate) fn clone_value(v: &serde_json::Value) -> (r: serde_json::Value)
    ensures
        json_doc(r) == json_doc(*v),
{
    v.clone()
}

} // verus!
