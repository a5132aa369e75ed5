use serde_json::Value;
use vstd::prelude::*;

verus! {

/// A parsed JSON document, as `serde_json` defines it. Nothing inside it is
/// visible to the verifier: the contracts below speak of what it holds
/// through `json_text`.
#[verifier::external_type_specification]
#[verifier::external_body]
pub struct ExValue(Value);

/// What a document holds, as the compact JSON text that `Value`'s `Display`
/// writes for it. The contracts of all the wrappers below identify a document
/// by this text.
pub uninterp spec fn json_text(doc: Value) -> Seq<char>;

/// What `serde_json::from_str` makes of a text: the document it denotes, given
/// by its compact text, or `None` where the text is not one JSON value.
pub uninterp spec fn json_parse(text: Seq<char>) -> Option<Seq<char>>;

/// What `Value::get` finds under a string key in a document: the member of
/// that name where the document is an object that has one, `None` otherwise.
/// Document and member are given by their compact texts.
pub uninterp spec fn json_member(doc: Seq<char>, key: Seq<char>) -> Option<Seq<char>>;

/// What `Value::as_str` returns for the document with this compact text: the
/// characters of a JSON string, `None` for every other kind of value.
pub uninterp spec fn json_str(doc: Seq<char>) -> Option<Seq<char>>;

/// What `Value::as_i64` returns for the document with this compact text: the
/// number where the document is an integer that fits 64 signed bits, `None`
/// otherwise.
pub uninterp spec fn json_i64(doc: Seq<char>) -> Option<i64>;

/// The compact text of the JSON string that `Value::from` makes of the given
/// characters: the characters in quotes, escaped where JSON asks for it.
pub uninterp spec fn json_quote(chars: Seq<char>) -> Seq<char>;

/// The compact JSON text that `serde_json` writes for an object of two
/// members, both strings.
pub uninterp spec fn json_pair_text(
    first: Seq<char>,
    first_value: Seq<char>,
    second: Seq<char>,
    second_value: Seq<char>,
) -> Seq<char>;

/// The text is JSON, and the document it denotes has a member `key` that is
/// the string `value`.
pub open spec fn holds_string(text: Seq<char>, key: Seq<char>, value: Seq<char>) -> bool {
    &&& json_parse(text) matches Some(doc)
    &&& json_member(doc, key) matches Some(found)
    &&& json_str(found) == Some(value)
}

/// Calls `serde_json::from_str` for a `Value`. The result is the document the
/// text denotes; a text that is not JSON gives `None` in place of the error.
#[verifier::external_body]
pub(crate) fn parse(text: &str) -> (doc: Option<Value>)
    ensures
        doc.is_some() == json_parse(text@).is_some(),
        doc matches Some(d) ==> json_parse(text@) == Some(json_text(d)),
{
    serde_json::from_str::<Value>(text).ok()
}

/// Calls `Value::get` with a string key.
#[verifier::external_body]
pub(crate) fn member<'a>(doc: &'a Value, key: &str) -> (found: Option<&'a Value>)
    ensures
        found.is_some() == json_member(json_text(*doc), key@).is_some(),
        found matches Some(v) ==> json_member(json_text(*doc), key@) == Some(json_text(*v)),
{
    doc.get(key)
}

/// Calls `Value::as_str`.
#[verifier::external_body]
pub(crate) fn as_str<'a>(doc: &'a Value) -> (s: Option<&'a str>)
    ensures
        s.is_some() == json_str(json_text(*doc)).is_some(),
        s matches Some(t) ==> json_str(json_text(*doc)) == Some(t@),
{
    doc.as_str()
}

/// Calls `Value::as_i64`.
#[verifier::external_body]
pub(crate) fn as_i64(doc: &Value) -> (n: Option<i64>)
    ensures
        n == json_i64(json_text(*doc)),
{
    doc.as_i64()
}

/// Calls `to_string` on a `Value`, which writes it as compact JSON.
#[verifier::external_body]
pub(crate) fn to_text(doc: &Value) -> (text: String)
    ensures
        text@ == json_text(*doc),
{
    doc.to_string()
}

/// Calls `Value::from` on a text, which gives the `Value::String` that holds
/// it: `as_str` on the result gives the text back.
#[verifier::external_body]
pub(crate) fn string_value(text: &str) -> (doc: Value)
    ensures
        json_text(doc) == json_quote(text@),
        json_str(json_text(doc)) == Some(text@),
{
    Value::from(text)
}

/// Fills a `serde_json::Map` with two string members and calls `to_string` on
/// the object. Beside naming the text, the contract claims that `serde_json`
/// reads back what it wrote here: the text parses, and the document has both
/// members, each the string that went in. The names must differ, since a map
/// keeps one member per name.
#[verifier::external_body]
pub(crate) fn pair_text(first: &str, first_value: &str, second: &str, second_value: &str) -> (text:
    String)
    requires
        first@ != second@,
    ensures
        text@ == json_pair_text(first@, first_value@, second@, second_value@),
        holds_string(text@, first@, first_value@),
        holds_string(text@, second@, second_value@),
{
    let mut object = serde_json::Map::new();
    object.insert(first.to_owned(), Value::String(first_value.to_owned()));
    object.insert(second.to_owned(), Value::String(second_value.to_owned()));
    Value::Object(object).to_string()
}

} // verus!
