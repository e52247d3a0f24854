//! Digests, message authentication, constant-time comparison, random bytes and
//! the text encodings the library gives them (lowercase hexadecimal, URL-safe
//! Base64 without padding).
use vstd::prelude::*;
use crate::ids::hex_char;
use base64::Engine;
use hmac::Mac;
use rand::RngCore;
use sha2::Digest;
use subtle::ConstantTimeEq;

verus! {

/// The SHA-256 digest of `data`.
pub uninterp spec fn sha256_digest(data: Seq<u8>) -> Seq<u8>;

/// The HMAC-SHA512 tag of `msg` under `key`.
pub uninterp spec fn hmac_sha512_tag(key: Seq<u8>, msg: Seq<u8>) -> Seq<u8>;

/// The URL-safe Base64 text of `data`, without `=` padding.
pub uninterp spec fn base64_url_nopad(data: Seq<u8>) -> Seq<char>;

/// Characters of the URL-safe Base64 alphabet.
pub open spec fn is_base64_url_char(c: char) -> bool {
    ('A' <= c && c <= 'Z') || ('a' <= c && c <= 'z') || ('0' <= c && c <= '9') || c == '-' || c
        == '_'
}

/// Lowercase hexadecimal text of a byte string, two digits per byte
/// (`hex::encode`).
pub open spec fn hex_lower(b: Seq<u8>) -> Seq<char> {
    Seq::new(
        2 * b.len(),
        |j: int|
            if j % 2 == 0 {
                hex_char((b[j / 2] / 16) as int)
            } else {
                hex_char((b[j / 2] % 16) as int)
            },
    )
}

/// Calls `Sha256::digest` (sha2 crate). The contract names the digest and states
/// its documented size, 32 bytes.
#[verifier::external_body]
pub(crate) fn sha256(data: &[u8]) -> (r: Vec<u8>)
    ensures
        r@ == sha256_digest(data@),
        r@.len() == 32,
{
    sha2::Sha256::digest(data).to_vec()
}

/// Calls `Hmac::<Sha512>::new_from_slice` and then `chain_update`, `finalize` and
/// `into_bytes` (hmac crate): the tag of `msg` under `key`. The crate's source
/// accepts keys of every length, so the result is always `Some`; the tag is named
/// and has the documented SHA-512 size, 64 bytes.
#[verifier::external_body]
pub(crate) fn hmac_sha512(key: &[u8], msg: &[u8]) -> (r: Option<Vec<u8>>)
    ensures
        r is Some,
        r matches Some(t) ==> t@ == hmac_sha512_tag(key@, msg@) && t@.len() == 64,
{
    match <hmac::Hmac<sha2::Sha512> as hmac::Mac>::new_from_slice(key) {
        Ok(m) => Some(m.chain_update(msg).finalize().into_bytes().to_vec()),
        Err(_) => None,
    }
}

/// Calls `<[u8] as ConstantTimeEq>::ct_eq` (subtle crate) and reads the choice
/// with `unwrap_u8`: true exactly when both byte strings are equal, lengths
/// included.
#[verifier::external_body]
pub(crate) fn ct_eq(a: &[u8], b: &[u8]) -> (r: bool)
    ensures
        r == (a@ == b@),
{
    a.ct_eq(b).unwrap_u8() == 1
}

/// Calls `ThreadRng::fill_bytes` (rand crate) on a buffer of `len` bytes. The
/// bytes are random; only their count is claimed.
#[verifier::external_body]
pub(crate) fn random_bytes(len: usize) -> (r: Vec<u8>)
    ensures
        r@.len() == len,
{
    let mut bytes = vec![0u8; len];
    rand::thread_rng().fill_bytes(&mut bytes);
    bytes
}

/// Calls `URL_SAFE_NO_PAD.encode` (base64 crate). The text is named; the contract
/// states the facts the crate documents for this engine: one character per six
/// bits, rounded up, no padding, every character from the URL-safe alphabet.
#[verifier::external_body]
pub(crate) fn base64_url_encode(data: &[u8]) -> (r: String)
    ensures
        r@ == base64_url_nopad(data@),
        r@.len() == (4 * data@.len() + 2) / 3,
        forall|i: int| 0 <= i < r@.len() ==> is_base64_url_char(#[trigger] r@[i]),
{
    base64::engine::general_purpose::URL_SAFE_NO_PAD.encode(data)
}

/// Lowercase hexadecimal text of `data` (`hex::encode`).
pub fn hex_encode(data: &[u8]) -> (r: String)
    ensures
        r@ == hex_lower(data@),
{
    let mut out: Vec<char> = Vec::new();
    let mut i: usize = 0;
    while i < data.len()
        invariant
            i <= data@.len(),
            out@ == hex_lower(data@.take(i as int)),
        decreases data.len() - i,
    {
        let b = data[i];
        out.push(crate::ids::hex_digit(b / 16));
        out.push(crate::ids::hex_digit(b % 16));
        assert(out@ =~= hex_lower(data@.take(i + 1))) by {
            let t = data@.take(i + 1);
            assert forall|j: int| 0 <= j < 2 * t.len() implies #[trigger] out@[j] == hex_lower(
                t,
            )[j] by {
                if j < 2 * i {
                    assert(data@.take(i as int)[j / 2] == t[j / 2]);
                }
            }
        }
        i = i + 1;
    }
    assert(data@.take(data@.len() as int) =~= data@);
    crate::text::string_from_chars(out.as_slice())
}

} // verus!
