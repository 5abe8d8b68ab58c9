use vstd::prelude::*;

verus! {

/// `serde_json::Value`, a JSON document or a part of one. Its inside is
/// reached only through the functions below.
#[verifier::external_type_specification]
#[verifier::external_body]
pub struct ExJsonValue(serde_json::Value);

/// `serde_json::Error`, carried from where it arises to where it is put
/// into words.
#[verifier::external_type_specification]
#[verifier::external_body]
pub struct ExJsonError(serde_json::Error);

/// What `serde_json::from_str` makes of a text: the document that it
/// reads, or the error with which it refuses the text.
pub uninterp spec fn parsed_text(text: Seq<char>) -> Result<serde_json::Value, serde_json::Error>;

/// What `serde_json::from_slice` makes of bytes: the document that it
/// reads, or the error with which it refuses them.
pub uninterp spec fn parsed_bytes(bytes: Seq<u8>) -> Result<serde_json::Value, serde_json::Error>;

/// The words in which a `serde_json::Error` describes itself.
pub uninterp spec fn wording_of(error: serde_json::Error) -> Seq<char>;

/// The member that `serde_json::Value::get` finds under a key.
pub uninterp spec fn member_of(value: serde_json::Value, key: Seq<char>) -> Option<
    serde_json::Value,
>;

/// The characters that `serde_json::Value::as_str` finds in a value.
pub uninterp spec fn text_of(value: serde_json::Value) -> Option<Seq<char>>;

/// The elements that `serde_json::Value::as_array` finds in a value.
pub uninterp spec fn elements_of(value: serde_json::Value) -> Option<Seq<serde_json::Value>>;

/// What `serde_json::to_string_pretty` makes of the object whose members
/// are the given keys, each with a string as its value: the text that it
/// writes, or the error with which it gives up.
pub uninterp spec fn pretty_object_text(members: Seq<(Seq<char>, Seq<char>)>) -> Result<
    Seq<char>,
    serde_json::Error,
>;

/// The string that stands under `key` in `value`, if `value` is an object
/// that has such a member and the member is a string.
pub open spec fn text_member(value: serde_json::Value, key: Seq<char>) -> Option<Seq<char>> {
    match member_of(value, key) {
        Some(member) => text_of(member),
        None => None,
    }
}

/// Calls `serde_json::from_str` for an untyped value. It fails on a text
/// that is no JSON document, one nested too deeply among them; what it
/// returns is known only by its name.
#[verifier::external_body]
pub(crate) fn parse_text(text: &str) -> (parsed: Result<serde_json::Value, serde_json::Error>)
    ensures
        parsed == parsed_text(text@),
{
    serde_json::from_str::<serde_json::Value>(text)
}

/// Calls `serde_json::from_slice` for an untyped value. It fails on bytes
/// that are no JSON document in UTF-8; what it returns is known only by
/// its name.
#[verifier::external_body]
pub(crate) fn parse_bytes(bytes: &[u8]) -> (parsed: Result<
    serde_json::Value,
    serde_json::Error,
>)
    ensures
        parsed == parsed_bytes(bytes@),
{
    serde_json::from_slice::<serde_json::Value>(bytes)
}

/// Calls `serde_json::Value::get` with a string key: the member of that
/// name if the value is an object that has one, nothing otherwise.
#[verifier::external_body]
pub(crate) fn member<'a>(value: &'a serde_json::Value, key: &str) -> (found: Option<
    &'a serde_json::Value,
>)
    ensures
        match found {
            Some(inner) => member_of(*value, key@) == Some(*inner),
            None => member_of(*value, key@) is None,
        },
{
    value.get(key)
}

/// Calls `serde_json::Value::as_str`: the characters if the value is a
/// string, nothing otherwise.
#[verifier::external_body]
pub(crate) fn text<'a>(value: &'a serde_json::Value) -> (found: Option<&'a str>)
    ensures
        match found {
            Some(inner) => text_of(*value) == Some(inner@),
            None => text_of(*value) is None,
        },
{
    value.as_str()
}

/// Calls `serde_json::Value::as_array`: the elements if the value is an
/// array, nothing otherwise.
#[verifier::external_body]
pub(crate) fn elements<'a>(value: &'a serde_json::Value) -> (found: Option<
    &'a Vec<serde_json::Value>,
>)
    ensures
        match found {
            Some(inner) => elements_of(*value) == Some(inner@),
            None => elements_of(*value) is None,
        },
{
    value.as_array()
}

/// Writes a `serde_json::Error` out through its `Display`: what went
/// wrong and, for a document that could not be read, the line and the
/// column. The wording is known only by its name.
#[verifier::external_body]
pub(crate) fn error_text(error: &serde_json::Error) -> (wording: String)
    ensures
        wording@ == wording_of(*error),
{
    error.to_string()
}

/// Calls `serde_json::to_string_pretty` on the object whose members are
/// the given keys, each with a string as its value. What it returns is
/// known only by its name.
#[verifier::external_body]
pub(crate) fn pretty_object(members: &Vec<(String, String)>) -> (written: Result<
    String,
    serde_json::Error,
>)
    ensures
        match written {
            Ok(text) => pretty_object_text(members.deep_view()) == Ok::<
                Seq<char>,
                serde_json::Error,
            >(text@),
            Err(error) => pretty_object_text(members.deep_view()) == Err::<
                Seq<char>,
                serde_json::Error,
            >(error),
        },
{
    let object: serde_json::Map<String, serde_json::Value> = members.iter().map(
        |pair| (pair.0.clone(), serde_json::Value::String(pair.1.clone())),
    ).collect();
    serde_json::to_string_pretty(&serde_json::Value::Object(object))
}

} // verus!
