//! Opaque tokens (refresh, e-mail verification, password reset, invitation):
//! how they are drawn and how they are stored.
use vstd::prelude::*;
use crate::crypto::{base64_url_encode, base64_url_nopad, hex_encode, hex_lower, random_bytes, sha256, sha256_digest};

verus! {

/// A fresh token: 32 random bytes in URL-safe Base64 without padding, so 43
/// characters.
pub fn generate_refresh_token() -> (r: String)
    ensures
        exists|b: Seq<u8>| b.len() == 32 && r@ == base64_url_nopad(b),
        r@.len() == 43,
{
    let bytes = random_bytes(32);
    let t = base64_url_encode(bytes.as_slice());
    assert((4 * 32 + 2) / 3 == 43);
    t
}

/// What a token is stored as: the lowercase hex SHA-256 of its UTF-8 bytes.
pub open spec fn token_hash_text(raw: Seq<char>) -> Seq<char> {
    hex_lower(sha256_digest(vstd::utf8::encode_utf8(raw)))
}

/// The stored form of a token (`hex(sha256(raw))`, 64 characters).
pub fn hash_refresh_token(raw: &str) -> (r: String)
    ensures
        r@ == token_hash_text(raw@),
        r@.len() == 64,
{
    let d = sha256(raw.as_bytes());
    hex_encode(d.as_slice())
}

} // verus!
