use vstd::prelude::*;
use crate::text::str_eq;
use hmac::Mac;

verus! {

/// The HMAC-SHA-256 digest of a message under a key (both taken as UTF-8).
pub uninterp spec fn hmac_sha256_of(key: Seq<char>, msg: Seq<char>) -> Seq<u8>;

/// The URL-safe base64 text of a byte string.
pub uninterp spec fn base64url_of(b: Seq<u8>) -> Seq<char>;

/// Relies on hmac's `Hmac<Sha256>` (with sha2): the digest of `msg` under
/// `key`. `new_from_slice` takes keys of every length, so it never fails.
#[verifier::external_body]
fn hmac_sha256(key: &str, msg: &str) -> (r: Vec<u8>)
    ensures
        r@ == hmac_sha256_of(key@, msg@),
{
    let mut mac = hmac::Hmac::<sha2::Sha256>::new_from_slice(key.as_bytes())
        .expect("HMAC takes keys of any length");
    mac.update(msg.as_bytes());
    mac.finalize().into_bytes().to_vec()
}

/// Relies on data_encoding's BASE64URL `encode`.
#[verifier::external_body]
fn encode_base64url(b: &Vec<u8>) -> (r: String)
    ensures
        r@ == base64url_of(b@),
{
    data_encoding::BASE64URL.encode(b)
}

/// The token that `secret` gives for `subject`: its keyed digest, encoded for
/// transport.
pub open spec fn token_of(secret: Seq<char>, subject: Seq<char>) -> Seq<char> {
    base64url_of(hmac_sha256_of(secret, subject))
}

/// Issues the token of `subject` under `secret`. The same pair always gives
/// the same token.
pub fn issue_token(secret: &str, subject: &str) -> (r: String)
    ensures
        r@ == token_of(secret@, subject@),
{
    let digest = hmac_sha256(secret, subject);
    encode_base64url(&digest)
}

/// Whether `token` is the token of `subject` under `secret`; the comparison
/// visits every character.
pub fn verify_token(secret: &str, subject: &str, token: &str) -> (r: bool)
    ensures
        r == (token@ == token_of(secret@, subject@)),
{
    let expected = issue_token(secret, subject);
    str_eq(token, expected.as_str())
}

} // verus!
