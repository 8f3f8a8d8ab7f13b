use vstd::prelude::*;
use vstd::string::StringExecFns;
use crate::command::BulkRequestError;
use crate::json::bool_of;
use crate::json::member_of;
use crate::json::parse_value;
use crate::json::parsed_json;
use crate::json::value_bool;
use crate::json::value_member;

verus! {

/// The fields that the engine is asked to answer with: whether anything
/// failed, and why each failed item did.
pub const BULK_FILTER_PATH: &'static str = "errors,items.index.error.caused_by.reason";

/// One decimal digit as text.
pub open spec fn digit_text(d: nat) -> Seq<char> {
    if d == 0 {
        "0"@
    } else if d == 1 {
        "1"@
    } else if d == 2 {
        "2"@
    } else if d == 3 {
        "3"@
    } else if d == 4 {
        "4"@
    } else if d == 5 {
        "5"@
    } else if d == 6 {
        "6"@
    } else if d == 7 {
        "7"@
    } else if d == 8 {
        "8"@
    } else {
        "9"@
    }
}

/// The decimal digits of `n` as text.
pub open spec fn decimal_text(n: nat) -> Seq<char>
    decreases n,
{
    if n < 10 {
        digit_text(n)
    } else {
        decimal_text(n / 10) + digit_text(n % 10)
    }
}

/// How a status is shown in a diagnostic.
pub open spec fn status_text(code: Option<u16>) -> Seq<char> {
    match code {
        Some(c) => "Some("@ + decimal_text(c as nat) + ")"@,
        None => "None"@,
    }
}

/// The diagnostic for a failed call: the status, then what the engine or the transport said.
pub open spec fn failure_text(code: Option<u16>, message: Seq<char>) -> Seq<char> {
    "code="@ + status_text(code) + ", "@ + message
}

/// The address of a bulk call under `base_url`, with the request for an
/// immediate refresh where `refresh` is set.
pub open spec fn bulk_url_text(base_url: Seq<char>, refresh: bool) -> Seq<char> {
    let plain = base_url + "/_bulk?filter_path="@ + BULK_FILTER_PATH@;
    if refresh {
        plain + "&refresh=true"@
    } else {
        plain
    }
}

/// What a bulk answer means. Only an answer that parses and says that
/// nothing failed is a success; any other fails the whole batch.
pub open spec fn judged(code: u16, errors: Option<bool>, body: Seq<char>) -> Result<
    (),
    Seq<char>,
> {
    if errors == Some(false) {
        Ok(())
    } else {
        Err(failure_text(Some(code), body))
    }
}

fn digit_str(d: u64) -> (out: &'static str)
    requires
        d < 10,
    ensures
        out@ == digit_text(d as nat),
{
    if d == 0 {
        "0"
    } else if d == 1 {
        "1"
    } else if d == 2 {
        "2"
    } else if d == 3 {
        "3"
    } else if d == 4 {
        "4"
    } else if d == 5 {
        "5"
    } else if d == 6 {
        "6"
    } else if d == 7 {
        "7"
    } else if d == 8 {
        "8"
    } else {
        "9"
    }
}

fn append_decimal(text: &mut String, n: u64)
    ensures
        final(text)@ == old(text)@ + decimal_text(n as nat),
    decreases n,
{
    if n >= 10 {
        append_decimal(text, n / 10);
    }
    text.append(digit_str(n % 10));
    assert(text@ =~= old(text)@ + decimal_text(n as nat));
}

/// The diagnostic for a failed call.
pub fn failure_message(code: Option<u16>, message: &str) -> (out: String)
    ensures
        out@ == failure_text(code, message@),
{
    let mut text = String::from_str("code=");
    match code {
        Some(c) => {
            text.append("Some(");
            append_decimal(&mut text, c as u64);
            text.append(")");
        },
        None => {
            text.append("None");
        },
    }
    text.append(", ");
    text.append(message);
    assert(text@ =~= failure_text(code, message@));
    text
}

/// The error for a call that got no usable answer: the connection failed,
/// or the engine answered with a failure status.
pub fn transport_failure(code: Option<u16>, message: &str) -> (out: BulkRequestError)
    ensures
        out matches BulkRequestError::TransportError(text) && text@ == failure_text(code, message@),
{
    BulkRequestError::TransportError(failure_message(code, message))
}

/// The address of a bulk call.
pub fn bulk_url(base_url: &str, refresh: bool) -> (out: String)
    ensures
        out@ == bulk_url_text(base_url@, refresh),
{
    let mut url = String::from_str(base_url);
    url.append("/_bulk?filter_path=");
    url.append(BULK_FILTER_PATH);
    if refresh {
        url.append("&refresh=true");
    }
    assert(url@ =~= bulk_url_text(base_url@, refresh));
    url
}

/// What a bulk answer says under "errors": the boolean that is the member
/// of that name in the value that the answer parses to. There is none where
/// the answer does not parse, has no such member, or holds something other
/// than a boolean there.
pub open spec fn errors_member(body: Seq<char>) -> Option<bool> {
    match parsed_json(body) {
        Some(value) => match member_of(value, "errors"@) {
            Some(member) => bool_of(member),
            None => None,
        },
        None => None,
    }
}

/// The top-level member "errors" of a bulk answer, where the answer parses
/// as JSON, is an object, and holds a boolean under that name.
pub fn response_errors(body: &str) -> (out: Option<bool>)
    ensures
        out == errors_member(body@),
{
    match parse_value(body) {
        Ok(value) => match value_member(&value, "errors") {
            Some(member) => value_bool(member),
            None => None,
        },
        Err(_) => None,
    }
}

/// Whether `out` is the verdict `expected`: a success for a success, and
/// for a failure an indexing error with that diagnostic.
pub open spec fn agrees(expected: Result<(), Seq<char>>, out: Result<(), BulkRequestError>) -> bool {
    match expected {
        Ok(()) => out is Ok,
        Err(text) => out matches Err(BulkRequestError::IndexingError(got)) && got@ == text,
    }
}

/// Judges a bulk answer from its "errors" member: `Ok` only where the
/// member is `false`, else an indexing error that carries the status and the
/// whole answer.
pub fn judge_response(code: u16, errors: Option<bool>, body: &str) -> (out: Result<
    (),
    BulkRequestError,
>)
    ensures
        agrees(judged(code, errors, body@), out),
{
    match errors {
        Some(false) => Ok(()),
        _ => Err(BulkRequestError::IndexingError(failure_message(Some(code), body))),
    }
}

/// Reads a bulk answer and judges it: the verdict is what `judge_response`
/// gives for the answer's "errors" member.
pub fn interpret_response(code: u16, body: &str) -> (out: Result<(), BulkRequestError>)
    ensures
        agrees(judged(code, errors_member(body@), body@), out),
{
    let errors = response_errors(body);
    judge_response(code, errors, body)
}

/// An answer fails its batch with an indexing error unless it says that
/// nothing failed: an answer that reports failures, and one that cannot be
/// read, are both failures.
pub proof fn law_reported_errors_fail_the_batch(
    code: u16,
    errors: Option<bool>,
    body: Seq<char>,
    out: Result<(), BulkRequestError>,
)
    requires
        agrees(judged(code, errors, body), out),
    ensures
        out is Ok <==> errors == Some(false),
        out is Err ==> out->Err_0 is IndexingError,
{
}

} // verus!
