//! The JSON documents that hold resource metadata.
use vstd::prelude::*;

verus! {

/// serde_json's `Value`, a parsed JSON document, carried through unopened.
#[verifier::external_type_specification]
#[verifier::external_body]
pub struct ExValue(serde_json::Value);

/// serde_json's `Error`, mapped to the library's own errors where it arises.
#[verifier::external_type_specification]
#[verifier::external_body]
pub struct ExError(serde_json::Error);

/// What serde_json's parser makes of a text: the document it denotes, or
/// nothing when the text is not JSON.
pub uninterp spec fn parsed_json(text: Seq<char>) -> Option<serde_json::Value>;

/// Relies on serde_json::from_str into a `Value`: it parses the whole text,
/// and its result depends on the text alone.
#[verifier::external_body]
pub(crate) fn parse_json(text: &str) -> (r: Result<serde_json::Value, serde_json::Error>)
    ensures
        r is Ok <==> parsed_json(text@) is Some,
        r is Ok ==> parsed_json(text@) == Some(r->Ok_0),
{
    serde_json::from_str::<serde_json::Value>(text)
}

/// The compact JSON text that serde_json writes for a document.
pub uninterp spec fn json_text_of(v: serde_json::Value) -> Seq<char>;

/// Relies on serde_json::to_string: the compact JSON text of a `Value`,
/// which depends on the value alone. A `Value` has string keys only, so
/// writing it never fails.
#[verifier::external_body]
pub(crate) fn json_text(v: &serde_json::Value) -> (r: Result<String, serde_json::Error>)
    ensures
        r is Ok,
        r->Ok_0@ == json_text_of(*v),
{
    serde_json::to_string(v)
}

/// The value that a JSON pointer such as `/name` designates in a document,
/// if any.
pub uninterp spec fn json_at(v: serde_json::Value, pointer: Seq<char>) -> Option<serde_json::Value>;

/// The text of a JSON string value; `None` for any other kind of value.
pub uninterp spec fn json_str(v: serde_json::Value) -> Option<Seq<char>>;

/// Relies on serde_json::Value::pointer: looks up a JSON pointer in a
/// document; the result depends on the document and the pointer alone.
pub assume_specification<'a>[ serde_json::Value::pointer ](
    v: &'a serde_json::Value,
    pointer: &str,
) -> (r: Option<&'a serde_json::Value>)
    ensures
        r is Some <==> json_at(*v, pointer@) is Some,
        r is Some ==> json_at(*v, pointer@) == Some(*r->Some_0),
;

/// Relies on serde_json::Value::as_str: the text of a JSON string, `None`
/// for any other kind of value.
pub assume_specification<'a>[ serde_json::Value::as_str ](v: &'a serde_json::Value) -> (r: Option<&'a str>)
    ensures
        r is Some <==> json_str(*v) is Some,
        r is Some ==> json_str(*v) == Some(r->Some_0@),
;

/// The pointer to the `name` member of a document.
pub open spec fn name_pointer() -> Seq<char> {
    "/name"@
}

/// The text of the `name` member of a metadata document when it is a JSON
/// string, without quotes; empty when it is absent or not a string.
pub open spec fn name_of(metadata: serde_json::Value) -> Seq<char> {
    match json_at(metadata, name_pointer()) {
        Some(v) => match json_str(v) {
            Some(s) => s,
            None => Seq::empty(),
        },
        None => Seq::empty(),
    }
}

/// The `name` member of a metadata document when it is a JSON string, taken
/// as its text without quotes; empty when it is absent or not a string.
pub fn name_field(metadata: &serde_json::Value) -> (r: String)
    ensures
        r@ == name_of(*metadata),
{
    match metadata.pointer("/name") {
        Some(v) => match v.as_str() {
            Some(s) => s.to_string(),
            None => String::new(),
        },
        None => String::new(),
    }
}

} // verus!
