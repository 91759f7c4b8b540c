use vstd::prelude::*;

verus! {

/// A JSON document of `serde_json`. The verifier sees nothing inside it: the
/// spec functions of this module name what its accessors return.
#[verifier::external_type_specification]
#[verifier::external_body]
pub struct ExValue(serde_json::Value);

/// The error of `serde_json`. It is carried and dropped, never looked into.
#[verifier::external_type_specification]
#[verifier::external_body]
pub struct ExJsonError(serde_json::Error);

/// What `serde_json::from_str` returns at the type `serde_json::Value`: the
/// document that the text holds, or `None` where the text is not one JSON
/// value and nothing else.
pub uninterp spec fn json_document(text: Seq<char>) -> Option<serde_json::Value>;

/// What `serde_json::Value::get` returns for a string key: the member of
/// that name where the value is an object that has one.
pub uninterp spec fn json_member(value: serde_json::Value, key: Seq<char>) -> Option<
    serde_json::Value,
>;

/// What `serde_json::Value::as_str` returns: the text where the value is a
/// string.
pub uninterp spec fn json_string(value: serde_json::Value) -> Option<Seq<char>>;

/// What `serde_json::Value::as_u64` returns: the number where the value is
/// an integer from zero to `u64::MAX`.
pub uninterp spec fn json_unsigned(value: serde_json::Value) -> Option<u64>;

/// What the `Display` of a `serde_json::Value` writes for a string: the
/// text between double quotes, with the escapes that JSON asks for.
pub uninterp spec fn json_quoted(text: Seq<char>) -> Seq<char>;

/// Calls `serde_json::from_str` at the type `serde_json::Value`. The parser
/// reads its argument and nothing else, so what it returns is a function of
/// the text. It is `Ok` exactly where `json_document` holds a document, and
/// then it is that document.
#[verifier::external_body]
pub(crate) fn parse_document(text: &str) -> (parsed: Result<serde_json::Value, serde_json::Error>)
    ensures
        parsed is Ok <==> json_document(text@) is Some,
        parsed is Ok ==> Some(parsed->Ok_0) == json_document(text@),
{
    serde_json::from_str::<serde_json::Value>(text)
}

/// Calls `serde_json::Value::get` with a string key. The result is the
/// member that `json_member` names, borrowed from the value.
#[verifier::external_body]
pub(crate) fn member<'a>(value: &'a serde_json::Value, key: &str) -> (found: Option<
    &'a serde_json::Value,
>)
    ensures
        found is Some <==> json_member(*value, key@) is Some,
        found is Some ==> Some(*found->Some_0) == json_member(*value, key@),
{
    value.get(key)
}

/// `serde_json::Value::as_str` returns the text that `json_string` names,
/// borrowed from the value.
pub assume_specification<'a>[ serde_json::Value::as_str ](value: &'a serde_json::Value) -> (text:
    Option<&'a str>)
    ensures
        text is Some <==> json_string(*value) is Some,
        text is Some ==> Some(text->Some_0@) == json_string(*value),
;

/// `serde_json::Value::as_u64` returns the number that `json_unsigned`
/// names.
pub assume_specification[ serde_json::Value::as_u64 ](value: &serde_json::Value) -> (number: Option<
    u64,
>)
    ensures
        number == json_unsigned(*value),
;

/// Makes a `serde_json::Value` of the string and calls its `to_string`,
/// which writes the compact JSON form: the result is the JSON string
/// literal that `json_quoted` names. Writing into a `String` does not fail.
#[verifier::external_body]
pub(crate) fn quoted(text: &str) -> (literal: String)
    ensures
        literal@ == json_quoted(text@),
{
    serde_json::Value::from(text).to_string()
}

} // verus!
