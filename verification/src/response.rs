//! Decoding of the service's response: the body must be a JSON object with a
//! string member `gcClaimCode`; every other member is opaque pass-through.

use vstd::prelude::*;

verus! {

use crate::errors::GiftCardError;
use vstd::string::StringExecFns;

#[verifier::external_type_specification]
#[verifier::external_body]
pub struct ExJsonValue(serde_json::Value);

#[verifier::external_type_specification]
#[verifier::external_body]
pub struct ExJsonError(serde_json::Error);

/// Whether a byte string parses as one JSON document. A function of the bytes
/// alone; the trusted wrapper below ties it to `serde_json::from_slice`.
pub uninterp spec fn json_document_ok(bytes: Seq<u8>) -> bool;

/// The string-valued members at the top level of the JSON document the bytes
/// parse to: member name to string value, empty when the document is not an
/// object. A function of the bytes alone.
pub uninterp spec fn json_string_members(bytes: Seq<u8>) -> Map<Seq<char>, Seq<char>>;

/// What a parsed document holds: its top-level string-valued members, as
/// [`json_string_members`] has them for the bytes the document came from.
pub uninterp spec fn value_string_members(v: serde_json::Value) -> Map<Seq<char>, Seq<char>>;

/// Relies on `serde_json::from_slice` for `serde_json::Value`: whether the
/// bytes parse, and the document they parse to, depend on the bytes alone.
#[verifier::external_body]
fn parse_json(bytes: &[u8]) -> (r: Result<serde_json::Value, serde_json::Error>)
    ensures
        r is Ok <==> json_document_ok(bytes@),
        (r matches Ok(v) ==> value_string_members(v) == json_string_members(bytes@)),
{
    serde_json::from_slice(bytes)
}

/// Relies on `serde_json::Value::get` and `Value::as_str`: a top-level member
/// holding a string is returned as it stands; a missing member, a member of
/// another type, and a document that is not an object all give `None`.
#[verifier::external_body]
fn get_string_member(v: &serde_json::Value, name: &str) -> (r: Option<String>)
    ensures
        r is Some <==> value_string_members(*v).contains_key(name@),
        (r matches Some(s) ==> s@ == value_string_members(*v)[name@]),
{
    match v.get(name) {
        Some(member) => match member.as_str() {
            Some(s) => Some(s.to_owned()),
            None => None,
        },
        None => None,
    }
}

/// Relies on `serde_json::Error`'s `Display` form for the cause text.
#[verifier::external_body]
fn json_error_text(err: &serde_json::Error) -> (r: String) {
    format!("{}", err)
}

/// The member of the response that is consumed.
pub open spec fn claim_code_member() -> Seq<char> {
    "gcClaimCode"@
}

/// The part of the response this crate consumes: the claim code.
#[derive(Debug)]
pub struct ResponsePayload {
    pub gc_claim_code: String,
}

impl ResponsePayload {
    /// The vendor-issued redemption code carried by the response.
    pub fn claim_code(&self) -> (r: &str)
        ensures
            r@ == self.gc_claim_code@,
    {
        self.gc_claim_code.as_str()
    }
}

fn clone_bytes(v: &Vec<u8>) -> (r: Vec<u8>)
    ensures
        r@ == v@,
{
    let mut r: Vec<u8> = Vec::new();
    let mut i: usize = 0;
    while i < v.len()
        invariant
            i <= v.len(),
            r@ == v@.subrange(0, i as int),
        decreases v.len() - i,
    {
        r.push(v[i]);
        proof {
            assert(v@.subrange(0, i + 1 as int) =~= v@.subrange(0, i as int).push(v@[i as int]));
        }
        i = i + 1;
    }
    proof {
        assert(v@.subrange(0, v@.len() as int) =~= v@);
    }
    r
}

/// Extracts the claim code from a response body: the body must parse as a
/// JSON document whose top level has the string member `gcClaimCode`. Any
/// other body fails with a decode error carrying the raw body and the cause.
pub fn decode_claim_code(body: &Vec<u8>) -> (r: Result<ResponsePayload, GiftCardError>)
    ensures
        (r is Ok <==> json_document_ok(body@) && json_string_members(body@).contains_key(
            claim_code_member(),
        )),
        (r matches Ok(p) ==> p.gc_claim_code@ == json_string_members(body@)[claim_code_member()]),
        (r matches Err(e) ==> e matches GiftCardError::DecodeError { body: raw, cause: _ }
            && raw@ == body@),
{
    match parse_json(body.as_slice()) {
        Ok(v) => match get_string_member(&v, "gcClaimCode") {
            Some(code) => Ok(ResponsePayload { gc_claim_code: code }),
            None => Err(
                GiftCardError::DecodeError {
                    body: clone_bytes(body),
                    cause: "response carries no string member gcClaimCode".to_owned(),
                },
            ),
        },
        Err(e) => {
            let cause = json_error_text(&e);
            Err(GiftCardError::DecodeError { body: clone_bytes(body), cause })
        },
    }
}

} // verus!
