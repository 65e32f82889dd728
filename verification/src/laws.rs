//! The properties the signing engine is answerable for, each proved from the
//! spec functions the contracts are stated over.

use vstd::prelude::*;

verus! {

use crate::service::authorization_header_of;
use crate::service::canonical_request_hash_of;
use crate::service::derived_key_of;
use crate::service::signed_headers_clause;

/// The canonical request hash is a pure function of the host, the service
/// name, the timestamp and the payload bytes: identical inputs yield an
/// identical hash, whatever else differs between two runs.
pub proof fn lemma_canonical_hash_deterministic(
    host1: Seq<char>,
    service1: Seq<char>,
    date1: Seq<char>,
    payload1: Seq<char>,
    host2: Seq<char>,
    service2: Seq<char>,
    date2: Seq<char>,
    payload2: Seq<char>,
)
    requires
        host1 == host2,
        service1 == service2,
        date1 == date2,
        payload1 == payload2,
    ensures
        canonical_request_hash_of(host1, service1, date1, payload1) == canonical_request_hash_of(
            host2,
            service2,
            date2,
            payload2,
        ),
{
}

/// Signing-key derivation is deterministic: the key depends on nothing but
/// the secret, the date, the region and the service name.
pub proof fn lemma_derived_key_deterministic(
    secret1: Seq<char>,
    date1: Seq<char>,
    region1: Seq<char>,
    service1: Seq<char>,
    secret2: Seq<char>,
    date2: Seq<char>,
    region2: Seq<char>,
    service2: Seq<char>,
)
    requires
        secret1 == secret2,
        date1 == date2,
        region1 == region2,
        service1 == service2,
    ensures
        derived_key_of(secret1, date1, region1, service1) == derived_key_of(
            secret2,
            date2,
            region2,
            service2,
        ),
{
}

/// The authorization header always lists the signed headers as the one fixed
/// clause `SignedHeaders=accept;host;x-amz-date;x-amz-target`, whatever the
/// credential and the signature: the returned pair is the text standing
/// before and after that clause.
pub proof fn lemma_authorization_lists_signed_headers(
    access: Seq<char>,
    date8: Seq<char>,
    region: Seq<char>,
    service: Seq<char>,
    signature: Seq<char>,
) -> (r: (Seq<char>, Seq<char>))
    ensures
        authorization_header_of(access, date8, region, service, signature) == r.0
            + signed_headers_clause() + r.1,
{
    let prefix = "AWS4-HMAC-SHA256 Credential="@ + access + "/"@ + date8 + "/"@ + region + "/"@
        + service + "/aws4_request, "@;
    let suffix = ", Signature="@ + signature;
    assert(authorization_header_of(access, date8, region, service, signature) =~= prefix
        + signed_headers_clause() + suffix);
    (prefix, suffix)
}

} // verus!
