//! One-time passwords: checking one, and handing a new secret to an
//! authenticator app.

use crate::error::Error;
use crate::model::{Timestamp, bytes_view};
use crate::text::str_eq;
use vstd::prelude::*;
use vstd::string::StringExecFns;

verus! {

/// The one-time password that `totp_lite::totp_custom` makes with SHA-1 of a
/// secret at a time, for a step in seconds and a number of digits.
pub uninterp spec fn totp_code(step: u64, digits: u32, secret: Seq<u8>, time: u64) -> Seq<char>;

/// The text that `base32::encode` makes of bytes in the alphabet of RFC 4648,
/// without padding.
pub uninterp spec fn base32_unpadded(data: Seq<u8>) -> Seq<char>;

/// The PNG picture that `qrcode_generator::to_png_to_vec` makes of a text,
/// with medium error correction, in a square of `size` pixels; `None` where
/// it makes none.
pub uninterp spec fn qr_png(text: Seq<char>, size: usize) -> Option<Seq<u8>>;

/// Calls `totp_lite::totp_custom` with SHA-1. The password depends on the
/// arguments alone. The step must not be zero, and ten to the power of the
/// digits must be a number of sixty-four bits.
#[verifier::external_body]
fn totp_sha1(step: u64, digits: u32, secret: &[u8], time: u64) -> (r: String)
    requires
        step > 0,
        digits <= 19,
    ensures
        r@ == totp_code(step, digits, secret@, time),
{
    totp_lite::totp_custom::<totp_lite::Sha1>(step, digits, secret, time)
}

/// Calls `base32::encode` with the alphabet of RFC 4648, without padding.
/// The text depends on the bytes alone.
#[verifier::external_body]
fn base32_encode(data: &[u8]) -> (r: String)
    ensures
        r@ == base32_unpadded(data@),
{
    base32::encode(base32::Alphabet::RFC4648 { padding: false }, data)
}

/// Calls `qrcode_generator::to_png_to_vec` with medium error correction. The
/// picture depends on the text and the size alone. The picture is held in
/// memory, a byte for each pixel, so the size is bounded.
#[verifier::external_body]
fn qr_code_png(text: &str, size: usize) -> (r: Option<Vec<u8>>)
    requires
        size <= 4096,
    ensures
        bytes_view(r) == qr_png(text@, size),
{
    qrcode_generator::to_png_to_vec(text, qrcode_generator::QrCodeEcc::Medium, size).ok()
}

/// The seconds of a time as one-time passwords count them: a time before
/// 1970 counts as 1970.
pub open spec fn totp_seconds(now: Timestamp) -> u64 {
    if now < 0 {
        0
    } else {
        now as u64
    }
}

/// The one-time password of a secret at a time: six digits, a new one every
/// thirty seconds.
pub open spec fn totp_at(secret: Seq<u8>, seconds: u64) -> Seq<char> {
    totp_code(30, 6, secret, seconds)
}

/// Whether a one-time password is the one of the secret at a time or, where
/// `lenient`, the one of thirty seconds before.
pub open spec fn totp_accepted(
    totp: Seq<char>,
    secret: Seq<u8>,
    seconds: u64,
    lenient: bool,
) -> bool {
    totp == totp_at(secret, seconds) || (lenient && seconds >= 30 && totp == totp_at(
        secret,
        (seconds - 30) as u64,
    ))
}

/// The seconds of a time as one-time passwords count them.
pub fn seconds_of(now: Timestamp) -> (r: u64)
    ensures
        r == totp_seconds(now),
{
    if now < 0 {
        0
    } else {
        now as u64
    }
}

/// Checks a one-time password against a secret at a time, and, where
/// `lenient`, against the time thirty seconds before too.
pub fn check_totp(totp: &str, secret: &Vec<u8>, seconds: u64, lenient: bool) -> (r: bool)
    ensures
        r == totp_accepted(totp@, secret@, seconds, lenient),
{
    let current = totp_sha1(30, 6, secret.as_slice(), seconds);
    if str_eq(totp, current.as_str()) {
        return true;
    }
    if lenient && seconds >= 30 {
        let previous = totp_sha1(30, 6, secret.as_slice(), seconds - 30);
        return str_eq(totp, previous.as_str());
    }
    false
}

/// The address that tells an authenticator app of a secret: who issued it,
/// whose it is, and the secret itself.
pub open spec fn otp_uri(issuer: Seq<char>, username: Seq<char>, secret: Seq<char>) -> Seq<char> {
    "otpauth://totp/"@ + issuer + ": "@ + username + "?secret="@ + secret + "&issuer="@ + issuer
}

/// Writes the address that tells an authenticator app of a secret.
pub fn make_otp_uri(issuer: &str, username: &str, secret: &str) -> (r: String)
    ensures
        r@ == otp_uri(issuer@, username@, secret@),
{
    String::from_str("otpauth://totp/").concat(issuer).concat(": ").concat(username).concat(
        "?secret=",
    ).concat(secret).concat("&issuer=").concat(issuer)
}

/// The side of the picture of a secret, in pixels.
pub open spec fn qr_size() -> usize {
    256
}

/// A secret as text and as a picture for an authenticator app, or
/// `TotpQrCodeGenerationError` where no picture can be made.
pub fn generate_otp_qrcode(issuer: &str, username: &String, totp_key: &Vec<u8>) -> (r: Result<
    (String, Vec<u8>),
    Error,
>)
    ensures
        match qr_png(otp_uri(issuer@, username@, base32_unpadded(totp_key@)), qr_size()) {
            Some(picture) => r matches Ok((secret, qrcode)) && secret@ == base32_unpadded(
                totp_key@,
            ) && qrcode@ == picture,
            None => r matches Err(e) && e == Error::TotpQrCodeGenerationError,
        },
{
    let b32_otp_secret = base32_encode(totp_key.as_slice());
    let otp_str = make_otp_uri(issuer, username.as_str(), b32_otp_secret.as_str());
    match qr_code_png(otp_str.as_str(), 256) {
        Some(totp_qrcode) => Ok((b32_otp_secret, totp_qrcode)),
        None => Err(Error::TotpQrCodeGenerationError),
    }
}

} // verus!
