use vstd::prelude::*;

verus! {

/// `serde_json::Error`, carried through without a look inside.
#[verifier::external_type_specification]
#[verifier::external_body]
pub struct ExJsonError(serde_json::Error);

/// `serde_json::Value`, a parsed JSON text; read only through the calls below.
#[verifier::external_type_specification]
#[verifier::external_body]
pub struct ExJsonValue(serde_json::Value);

/// The JSON string literal, quotes and escapes included, that stands for
/// `text`; `None` where the serializer gives none.
pub uninterp spec fn json_text(text: Seq<char>) -> Option<Seq<u8>>;

/// `serde_json::to_vec` on a string slice. The bytes it returns depend on the
/// slice alone, so they are named by `json_text`; nothing is claimed of what
/// they are, nor that the call succeeds.
#[verifier::external_body]
pub(crate) fn encode_text(text: &str) -> (out: Result<Vec<u8>, serde_json::Error>)
    ensures
        out is Ok <==> json_text(text@) is Some,
        out matches Ok(bytes) ==> json_text(text@) == Some(bytes@),
{
    serde_json::to_vec(text)
}

/// The value that `text` parses to as JSON; `None` where it does not parse.
pub uninterp spec fn parsed_json(text: Seq<char>) -> Option<serde_json::Value>;

/// The member of `value` under `name`; `None` where there is none.
pub uninterp spec fn member_of(value: serde_json::Value, name: Seq<char>) -> Option<
    serde_json::Value,
>;

/// The boolean that `value` is; `None` where it is none.
pub uninterp spec fn bool_of(value: serde_json::Value) -> Option<bool>;

/// `serde_json::from_str` into a `serde_json::Value`. Whether the text
/// parses, and to what, depends on the text alone, so the outcome is named
/// by `parsed_json`; nothing is claimed of what the value holds.
#[verifier::external_body]
pub(crate) fn parse_value(text: &str) -> (out: Result<serde_json::Value, serde_json::Error>)
    ensures
        out is Ok <==> parsed_json(text@) is Some,
        out matches Ok(value) ==> parsed_json(text@) == Some(value),
{
    serde_json::from_str::<serde_json::Value>(text)
}

/// `serde_json::Value::get` with a string index: the member of that name,
/// if the value is an object that has one. What it finds depends on the
/// value and the name alone, so it is named by `member_of`.
#[verifier::external_body]
pub(crate) fn value_member<'a>(value: &'a serde_json::Value, name: &str) -> (out: Option<
    &'a serde_json::Value,
>)
    ensures
        out is Some <==> member_of(*value, name@) is Some,
        out matches Some(member) ==> member_of(*value, name@) == Some(*member),
{
    value.get(name)
}

/// `serde_json::Value::as_bool`: the boolean that the value is, if it is
/// one. It depends on the value alone, so it is named by `bool_of`.
#[verifier::external_body]
pub(crate) fn value_bool(value: &serde_json::Value) -> (out: Option<bool>)
    ensures
        out == bool_of(*value),
{
    value.as_bool()
}

} // verus!
