//! JSON documents as `serde_json` holds them, and what this library assumes of it.
//!
//! `serde_json` reads and writes the text; everything this library does with a
//! document goes through the functions below. Each carries a contract that the
//! verifier takes on trust; the rest of the library is proved from them.

use vstd::prelude::*;

verus! {

/// A number of a document, in the three forms in which `serde_json` holds one.
pub enum Numeral {
    /// A non-negative integer below 2^64.
    Uint(u64),
    /// A negative integer.
    Negative(i64),
    /// Any other number, by the bits of the double that holds it.
    Real(u64),
}

/// The content of a JSON document.
pub enum Doc {
    Null,
    Bool(bool),
    Number(Numeral),
    Text(Seq<char>),
    List(Seq<Doc>),
    Object(Map<Seq<char>, Doc>),
}

/// `serde_json::Value`, a parsed document. Opaque: its content is `value_doc`.
#[verifier::external_type_specification]
#[verifier::external_body]
pub struct ExValue(serde_json::Value);

/// `serde_json::Map`, the members of an object under construction. Opaque: its
/// content is `members_doc`.
#[verifier::external_type_specification]
#[verifier::external_body]
#[verifier::reject_recursive_types(K)]
#[verifier::reject_recursive_types(V)]
pub struct ExMembers<K, V>(serde_json::Map<K, V>);

/// `serde_json::Error`, the reason a text was refused. Opaque.
#[verifier::external_type_specification]
#[verifier::external_body]
pub struct ExError(serde_json::Error);

/// An object's members before the first is put in.
pub open spec fn no_members() -> Map<Seq<char>, Doc> {
    Map::empty()
}

/// The document that a `serde_json::Value` holds.
pub uninterp spec fn value_doc(v: serde_json::Value) -> Doc;

/// The members that a `serde_json::Map` holds, by key.
pub uninterp spec fn members_doc(m: serde_json::Map<String, serde_json::Value>) -> Map<Seq<char>, Doc>;

/// The document that `serde_json::from_str` reads from a text, or `None` where
/// it refuses the text.
pub uninterp spec fn parsed_document(text: Seq<char>) -> Option<Doc>;

/// The compact text that `serde_json` writes for a document.
pub uninterp spec fn document_text(doc: Doc) -> Seq<char>;

/// `serde_json::from_str`, at `serde_json::Value`. Assumed: the outcome is a
/// function of the text alone, named `parsed_document`.
#[verifier::external_body]
pub(crate) fn parse_value(text: &str) -> (r: Result<serde_json::Value, serde_json::Error>)
    ensures
        match r {
            Ok(v) => parsed_document(text@) == Some(value_doc(v)),
            Err(_) => parsed_document(text@) is None,
        },
{
    serde_json::from_str::<serde_json::Value>(text)
}

/// The `Display` text of a `serde_json::Error`. Nothing is assumed of it.
#[verifier::external_body]
pub(crate) fn error_message(e: &serde_json::Error) -> String {
    e.to_string()
}

/// The `Display` text of a `serde_json::Value`. Assumed: it is a function of
/// the document alone, named `document_text`.
#[verifier::external_body]
pub(crate) fn value_to_text(v: &serde_json::Value) -> (r: String)
    ensures
        r@ == document_text(value_doc(*v)),
{
    v.to_string()
}

/// `Value::is_null`. Assumed: true exactly for the null document.
#[verifier::external_body]
pub(crate) fn value_is_null(v: &serde_json::Value) -> (r: bool)
    ensures
        r == (value_doc(*v) is Null),
{
    v.is_null()
}

/// `Value::as_u64`. Assumed: the number, where the document is a non-negative
/// integer below 2^64, and `None` for every other document.
#[verifier::external_body]
pub(crate) fn value_as_u64(v: &serde_json::Value) -> (r: Option<u64>)
    ensures
        r == match value_doc(*v) {
            Doc::Number(Numeral::Uint(n)) => Some(n),
            _ => None,
        },
{
    v.as_u64()
}

/// `Value::as_str`. Assumed: the characters, where the document is a string,
/// and `None` for every other document.
#[verifier::external_body]
pub(crate) fn value_as_str(v: &serde_json::Value) -> (r: Option<&str>)
    ensures
        match value_doc(*v) {
            Doc::Text(t) => r matches Some(s) && s@ == t,
            _ => r is None,
        },
{
    v.as_str()
}

/// `Value::as_array`. Assumed: the items in their order, where the document is
/// an array, and `None` for every other document.
#[verifier::external_body]
pub(crate) fn value_as_array(v: &serde_json::Value) -> (r: Option<&Vec<serde_json::Value>>)
    ensures
        match value_doc(*v) {
            Doc::List(items) => r matches Some(a) && a@.len() == items.len() && forall|i: int|
                0 <= i < items.len() ==> value_doc(#[trigger] a@[i]) == items[i],
            _ => r is None,
        },
{
    v.as_array()
}

/// `Value::get` with a string index. Assumed: the member under the key, where
/// the document is an object that has the key, and `None` otherwise.
#[verifier::external_body]
pub(crate) fn value_get<'a>(v: &'a serde_json::Value, key: &str) -> (r: Option<&'a serde_json::Value>)
    ensures
        match value_doc(*v) {
            Doc::Object(m) if m.contains_key(key@) => r matches Some(x) && value_doc(*x) == m[key@],
            _ => r is None,
        },
{
    v.get(key)
}

/// `Value::Null`.
#[verifier::external_body]
pub(crate) fn value_null() -> (r: serde_json::Value)
    ensures
        value_doc(r) == Doc::Null,
{
    serde_json::Value::Null
}

/// `Value::from` at `u64`. Assumed: the document is that number.
#[verifier::external_body]
pub(crate) fn value_from_u64(n: u64) -> (r: serde_json::Value)
    ensures
        value_doc(r) == Doc::Number(Numeral::Uint(n)),
{
    serde_json::Value::from(n)
}

/// `Value::String`. Assumed: the document is that string.
#[verifier::external_body]
pub(crate) fn value_from_string(s: String) -> (r: serde_json::Value)
    ensures
        value_doc(r) == Doc::Text(s@),
{
    serde_json::Value::String(s)
}

/// `Value::Array`. Assumed: the document is the array of the items' documents,
/// in their order.
#[verifier::external_body]
pub(crate) fn value_from_array(items: Vec<serde_json::Value>) -> (r: serde_json::Value)
    ensures
        value_doc(r) matches Doc::List(docs) && docs.len() == items@.len() && forall|i: int|
            0 <= i < docs.len() ==> docs[i] == value_doc(#[trigger] items@[i]),
{
    serde_json::Value::Array(items)
}

/// `Map::new`. Assumed: no members.
#[verifier::external_body]
pub(crate) fn members_new() -> (r: serde_json::Map<String, serde_json::Value>)
    ensures
        members_doc(r) == no_members(),
{
    serde_json::Map::new()
}

/// `Map::insert`. Assumed: the key then holds the new member, whether or not it
/// held one before, and every other key is untouched.
#[verifier::external_body]
pub(crate) fn members_insert(
    m: &mut serde_json::Map<String, serde_json::Value>,
    key: String,
    item: serde_json::Value,
)
    ensures
        members_doc(*final(m)) == members_doc(*old(m)).insert(key@, value_doc(item)),
{
    m.insert(key, item);
}

/// `Value::Object`. Assumed: the document is the object of those members.
#[verifier::external_body]
pub(crate) fn value_from_members(m: serde_json::Map<String, serde_json::Value>) -> (r: serde_json::Value)
    ensures
        value_doc(r) == Doc::Object(members_doc(m)),
{
    serde_json::Value::Object(m)
}

} // verus!
