//! The two hash primitives of the signing protocol — plain SHA-256 and keyed
//! HMAC-SHA256 — and the lowercase hex rendering of their digests.

use hmac::KeyInit;
use hmac::Mac;
use sha2::Digest;
use vstd::prelude::*;

verus! {

/// The SHA-256 digest of a message. The digest itself is left unstated: it is
/// a function of the message alone, and the trusted wrapper below ties this
/// name to `sha2::Sha256`.
pub uninterp spec fn sha256_of(message: Seq<char>) -> Seq<u8>;

/// The HMAC-SHA256 tag of a message under a key, a function of the two alone;
/// the trusted wrapper below ties this name to `hmac::Hmac<sha2::Sha256>`.
pub uninterp spec fn hmac_sha256_of(message: Seq<char>, key: Seq<u8>) -> Seq<u8>;

/// The lowercase hex digit for one value of a nibble.
pub open spec fn hex_digit_char(d: int) -> char {
    if d == 0 {
        '0'
    } else if d == 1 {
        '1'
    } else if d == 2 {
        '2'
    } else if d == 3 {
        '3'
    } else if d == 4 {
        '4'
    } else if d == 5 {
        '5'
    } else if d == 6 {
        '6'
    } else if d == 7 {
        '7'
    } else if d == 8 {
        '8'
    } else if d == 9 {
        '9'
    } else if d == 10 {
        'a'
    } else if d == 11 {
        'b'
    } else if d == 12 {
        'c'
    } else if d == 13 {
        'd'
    } else if d == 14 {
        'e'
    } else {
        'f'
    }
}

/// Lowercase hex of a byte string: two digits for each byte, high nibble
/// first, bytes in order.
pub open spec fn hex_of(bytes: Seq<u8>) -> Seq<char>
    decreases bytes.len(),
{
    if bytes.len() == 0 {
        Seq::empty()
    } else {
        hex_of(bytes.drop_last()) + seq![
            hex_digit_char(bytes.last() as int / 16),
            hex_digit_char(bytes.last() as int % 16),
        ]
    }
}

/// Relies on `sha2::Sha256` through `digest::Digest`: the digest is 32 bytes
/// and depends on the hashed bytes alone.
#[verifier::external_body]
pub(crate) fn sha256(value: &str) -> (r: Vec<u8>)
    ensures
        r@ == sha256_of(value@),
        r@.len() == 32,
{
    let mut hasher = sha2::Sha256::new();
    hasher.update(value.as_bytes());
    hasher.finalize().to_vec()
}

/// Relies on `hmac::Hmac<sha2::Sha256>` through `digest::Mac`: the tag is 32
/// bytes and depends on the message and the key alone; a key of any length is
/// accepted.
#[verifier::external_body]
pub(crate) fn hmac_sha256(value: &str, key: &[u8]) -> (r: Vec<u8>)
    ensures
        r@ == hmac_sha256_of(value@, key@),
        r@.len() == 32,
{
    let mut mac = hmac::Hmac::<sha2::Sha256>::new_from_slice(key)
        .expect("HMAC can take key of any size");
    mac.update(value.as_bytes());
    mac.finalize().into_bytes().to_vec()
}

/// Relies on `hex::encode`: two lowercase hex digits for each byte, high
/// nibble first, bytes in order.
#[verifier::external_body]
pub(crate) fn to_hex(bytes: &Vec<u8>) -> (r: String)
    ensures
        r@ == hex_of(bytes@),
{
    hex::encode(bytes)
}

} // verus!
