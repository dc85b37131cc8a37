use vstd::prelude::*;
use vstd::string::*;

use crate::rpc::RpcError;
use crate::text::{blank, is_blank, trim, trimmed};

verus! {

#[verifier::external_type_specification]
#[verifier::external_body]
pub struct ExJsonValue(serde_json::Value);

#[verifier::external_type_specification]
#[verifier::external_body]
pub struct ExJsonError(serde_json::Error);

/// Whether `s` is one complete JSON document, as serde_json reads it.
pub uninterp spec fn is_json_document(s: Seq<char>) -> bool;

/// Relies on `serde_json::from_str` into `serde_json::Value`: it succeeds
/// exactly on the texts that hold one JSON document, and the outcome depends
/// on the text alone.
#[verifier::external_body]
pub(crate) fn parse_json(s: &str) -> (r: Result<serde_json::Value, serde_json::Error>)
    ensures
        r is Ok <==> is_json_document(s@),
{
    serde_json::from_str(s)
}

/// One request line: the serialized request followed by a line feed.
pub fn request_line(body: &str) -> (r: String)
    ensures
        r@ == body@ + "\n"@,
{
    crate::text::concat(body, "\n")
}

/// Reads one response line. A line that holds only whitespace is
/// `EmptyResponse`; a line that is no JSON document is `MalformedResponse`.
pub fn decode_response_line(line: &str) -> (r: Result<serde_json::Value, RpcError>)
    ensures
        blank(line@) ==> r matches Err(RpcError::EmptyResponse),
        !blank(line@) ==> (r is Ok <==> is_json_document(trimmed(line@))),
        !blank(line@) && r is Err ==> r->Err_0 is MalformedResponse,
{
    if is_blank(line) {
        return Err(RpcError::EmptyResponse);
    }
    match parse_json(trim(line)) {
        Ok(v) => Ok(v),
        Err(e) => Err(RpcError::MalformedResponse(e.to_string())),
    }
}

} // verus!
