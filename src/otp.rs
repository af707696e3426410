use vstd::prelude::*;
use crate::text::str_eq;
use crate::time::now;

verus! {

/// Length in seconds of one time step of a time-based one-time password.
pub const TIME_STEP: u64 = 30;

/// Number of random bytes in a freshly generated OTP secret.
pub const SECRET_LEN: usize = 160;

/// Errors of the one-time-password operations.
#[derive(PartialEq, Eq, Structural, Clone, Copy, Debug)]
pub enum CryptoError {
    /// A stored secret is not valid base32.
    Encoding,
    /// The text does not fit in a QR code.
    Otp,
}

#[verifier::external_type_specification]
#[verifier::external_body]
pub struct ExThotpError(thotp::ThotpError);

#[verifier::external_type_specification]
#[verifier::external_body]
pub struct ExDecodeError(data_encoding::DecodeError);

/// The base32 text of a byte string.
pub uninterp spec fn base32_of(b: Seq<u8>) -> Seq<char>;

/// The bytes that a base32 text denotes, or `None` where it is not base32.
pub uninterp spec fn base32_decoded(s: Seq<char>) -> Option<Seq<u8>>;

/// The six-digit HMAC-SHA-1 one-time password of a secret for a counter.
pub uninterp spec fn hotp_of(secret: Seq<u8>, counter: u64) -> Seq<char>;

/// The `otpauth://totp/` URI that carries a secret, a label and an issuer.
pub uninterp spec fn totp_uri_of(secret: Seq<char>, label: Seq<char>, issuer: Seq<char>) -> Seq<char>;

/// The SVG rendering of the QR code that encodes a text, or `None` where the
/// text does not fit in a QR code.
pub uninterp spec fn qr_svg_of(text: Seq<char>) -> Option<Seq<char>>;

/// Relies on thotp::generate_secret: a buffer of `size` bytes drawn from the
/// operating system's entropy.
#[verifier::external_body]
fn random_bytes(size: usize) -> (r: Vec<u8>)
    ensures
        r@.len() == size,
{
    thotp::generate_secret(size)
}

/// Relies on thotp::encoding::encode with data_encoding's BASE32 encoding;
/// data_encoding documents that encoding followed by decoding gives the
/// initial data.
#[verifier::external_body]
fn encode_base32(b: &Vec<u8>) -> (r: String)
    ensures
        r@ == base32_of(b@),
        base32_decoded(r@) == Some(b@),
{
    thotp::encoding::encode(b, data_encoding::BASE32)
}

/// Relies on data_encoding's BASE32 `decode`: the bytes a base32 text denotes,
/// or an error where it is not base32.
#[verifier::external_body]
fn decode_base32(s: &str) -> (r: Result<Vec<u8>, data_encoding::DecodeError>)
    ensures
        match r {
            Ok(b) => base32_decoded(s@) == Some(b@),
            Err(_) => base32_decoded(s@) is None,
        },
{
    data_encoding::BASE32.decode(s.as_bytes())
}

/// Relies on thotp::otp: the HMAC-SHA-1 password of six digits for the given
/// counter. Its only failure is an HMAC key of a length that HMAC refuses,
/// and HMAC takes keys of every length, so it always succeeds.
#[verifier::external_body]
fn hotp(secret: &Vec<u8>, counter: u64) -> (r: Result<String, thotp::ThotpError>)
    ensures
        r is Ok,
        r is Ok ==> r->Ok_0@ == hotp_of(secret@, counter),
{
    thotp::otp(secret, counter)
}

/// Relies on thotp::qr::otp_uri with the type `totp`, which it always accepts.
#[verifier::external_body]
fn totp_uri(secret: &str, label: &str, issuer: &str) -> (r: Result<String, thotp::ThotpError>)
    ensures
        r is Ok,
        r is Ok ==> r->Ok_0@ == totp_uri_of(secret@, label@, issuer@),
{
    thotp::qr::otp_uri("totp", secret, label, issuer, None)
}

/// Relies on thotp::qr::generate_code_svg at the default size and error
/// correction level M: qrcode's `with_error_correction_level` fails exactly
/// where the text does not fit in a QR code, and the rendering that follows
/// cannot fail; both depend on the text alone.
#[verifier::external_body]
fn qr_svg(text: &str) -> (r: Result<String, thotp::ThotpError>)
    ensures
        match r {
            Ok(svg) => qr_svg_of(text@) == Some(svg@),
            Err(_) => qr_svg_of(text@) is None,
        },
{
    thotp::qr::generate_code_svg(text, None, None, thotp::qr::EcLevel::M)
}

/// Generates a fresh random OTP secret of `SECRET_LEN` bytes, base32 encoded.
pub fn generate_secret() -> (r: String)
    ensures
        exists|b: Seq<u8>| b.len() == SECRET_LEN && r@ == base32_of(b) && base32_decoded(r@) == Some(b),
{
    let bytes = random_bytes(SECRET_LEN);
    encode_base32(&bytes)
}

/// The label under which an authenticator app lists an account: `label:email`.
pub open spec fn account_label(label: Seq<char>, user_email: Seq<char>) -> Seq<char> {
    label + ":"@ + user_email
}

/// Generates a QR code SVG for the given secret, to be scanned by an
/// authenticator app.
pub fn generate_totp_qr_code(secret: &str, user_email: &str, label: &str, issuer: &str) -> (r: Result<String, CryptoError>)
    ensures
        match r {
            Ok(svg) => qr_svg_of(totp_uri_of(secret@, account_label(label@, user_email@), issuer@)) == Some(svg@),
            Err(e) => e == CryptoError::Otp
                && qr_svg_of(totp_uri_of(secret@, account_label(label@, user_email@), issuer@)) is None,
        },
{
    let account = String::from_str(label).concat(":").concat(user_email);
    proof { reveal_strlit(":"); }
    let uri = match totp_uri(secret, account.as_str(), issuer) {
        Ok(u) => u,
        Err(_) => return Err(CryptoError::Otp),
    };
    match qr_svg(uri.as_str()) {
        Ok(svg) => Ok(svg),
        Err(_) => Err(CryptoError::Otp),
    }
}

/// Whether `password` is the one-time password of `secret` for the time step
/// `time_step`. Only that step is accepted: no earlier or later one.
pub fn verify_otp_at(password: &str, secret: &Vec<u8>, time_step: u64) -> (r: bool)
    ensures
        r == (password@ == hotp_of(secret@, time_step)),
{
    match hotp(secret, time_step) {
        Ok(expected) => str_eq(password, expected.as_str()),
        Err(_) => false,
    }
}

/// Whether `password` is the one-time password that the base32 `secret`
/// gives for a time step of `now` (seconds since the Unix epoch).
pub fn check_otp(password: &str, secret: &str, now: u64) -> (r: Result<bool, CryptoError>)
    ensures
        r == check_otp_spec(password@, secret@, now),
        match base32_decoded(secret@) {
            Some(key) => r == Ok::<bool, CryptoError>(password@ == hotp_of(key, now / TIME_STEP)),
            None => r == Err::<bool, CryptoError>(CryptoError::Encoding),
        },
{
    match decode_base32(secret) {
        Ok(key) => Ok(verify_otp_at(password, &key, now / TIME_STEP)),
        Err(_) => Err(CryptoError::Encoding),
    }
}

/// Verifies a time-based OTP against the given base32 secret at the current
/// time step.
pub fn verify_otp(password: &str, secret: &str) -> (r: Result<bool, CryptoError>)
    ensures
        exists|t: u64| r == check_otp_spec(password@, secret@, t),
{
    let t = now();
    let r = check_otp(password, secret, t as u64);
    assert(r == check_otp_spec(password@, secret@, t as u64));
    r
}

/// What `check_otp` returns.
pub open spec fn check_otp_spec(password: Seq<char>, secret: Seq<char>, now: u64) -> Result<bool, CryptoError> {
    match base32_decoded(secret) {
        Some(key) => Ok(password == hotp_of(key, now / TIME_STEP)),
        None => Err(CryptoError::Encoding),
    }
}

} // verus!
