//! The boundary to the outside crates: random secret material, the base32
//! codec, id generation, case folding, and the time-stepped token check.
//! Each function here is believed on its contract; the bodies only make the
//! named outside call.

use vstd::prelude::*;
use rand::Rng;

verus! {

/// What base32's RFC 4648 encoder (no padding) returns for a byte string:
/// a function of the bytes alone.
pub uninterp spec fn b32_of(data: Seq<u8>) -> Seq<char>;

/// What str::to_lowercase returns for a string: a function of the
/// characters alone.
pub uninterp spec fn lower_of(s: Seq<char>) -> Seq<char>;

/// Relies on rand's thread_rng and Rng::gen: 21 bytes drawn from the
/// thread-local cryptographically secure generator. The bytes are random,
/// so only their number is promised.
#[verifier::external_body]
pub(crate) fn fresh_secret_bytes() -> (r: Vec<u8>)
    ensures
        r@.len() == 21,
{
    let bytes: [u8; 21] = rand::thread_rng().gen();
    bytes.to_vec()
}

/// Relies on base32::encode with Alphabet::Rfc4648 { padding: false }:
/// the encoding is a function of the input bytes, and without padding its
/// length is the number of input bits rounded up to whole 5-bit digits.
#[verifier::external_body]
pub(crate) fn b32_encode_nopad(data: &[u8]) -> (r: String)
    ensures
        r@ == b32_of(data@),
        r@.len() == (data@.len() * 8 + 4) / 5,
{
    base32::encode(base32::Alphabet::Rfc4648 { padding: false }, data)
}

/// Relies on str::to_lowercase: the result depends on the characters alone.
#[verifier::external_body]
pub(crate) fn lowercase(s: &str) -> (r: String)
    ensures
        r@ == lower_of(s@),
{
    s.to_lowercase()
}

/// Relies on uuid::Uuid::new_v4 and its Display form: a random version-4
/// id rendered hyphenated, which is always 36 characters long. The id is
/// random, so nothing is promised beyond its length.
#[verifier::external_body]
pub(crate) fn fresh_account_id() -> (r: String)
    ensures
        r@.len() == 36,
{
    uuid::Uuid::new_v4().to_string()
}

/// Relies on totp_rs: Secret::Encoded::to_bytes decodes the base32 secret,
/// TOTP::new checks the RFC 6238 parameters (SHA-1, 6 digits, skew 1, step
/// 30 s), and TOTP::check_current compares the token against the codes of
/// the current time step and its two neighbours. The outcome depends on the
/// system clock, so nothing is promised of it; None stands for any failure
/// on the way (undecodable or too-short secret, clock before the epoch).
#[verifier::external_body]
pub(crate) fn totp_check(secret_b32: &str, token: &str) -> Option<bool> {
    let encoded = totp_rs::Secret::Encoded(secret_b32.to_string());
    let bytes = match encoded.to_bytes() {
        Ok(b) => b,
        Err(_) => return None,
    };
    let totp = match totp_rs::TOTP::new(totp_rs::Algorithm::SHA1, 6, 1, 30, bytes) {
        Ok(t) => t,
        Err(_) => return None,
    };
    match totp.check_current(token) {
        Ok(matched) => Some(matched),
        Err(_) => None,
    }
}

} // verus!
