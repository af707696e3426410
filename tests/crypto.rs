use data_encoding::{BASE32, BASE64URL};
use hextacy::otp::{check_otp, generate_secret, generate_totp_qr_code, verify_otp, verify_otp_at, CryptoError};
use hextacy::text::str_eq;
use hextacy::token::{issue_token, verify_token};
use hmac::Mac;

#[test]
fn secret_is_base32_of_160_bytes() {
    let s = generate_secret();
    assert_eq!(s.len(), 256);
    assert_eq!(BASE32.decode(s.as_bytes()).unwrap().len(), 160);
    assert_ne!(generate_secret(), s);
}

#[test]
fn otp_of_current_step_only() {
    let key = b"12345678901234567890".to_vec();
    let code = thotp::otp(&key, 1000).unwrap();
    assert_eq!(code.len(), 6);
    assert!(verify_otp_at(&code, &key, 1000));
    assert!(!verify_otp_at(&code, &key, 1001) || thotp::otp(&key, 1001).unwrap() == code);
    assert!(!verify_otp_at("abcdef", &key, 1000));
}

#[test]
fn rfc_otp_vector() {
    // RFC 4226 test key, counter 0 gives 755224
    let key = b"12345678901234567890".to_vec();
    assert!(verify_otp_at("755224", &key, 0));
    assert!(verify_otp_at("287082", &key, 1));
}

#[test]
fn check_otp_decodes_secret() {
    let secret = BASE32.encode(b"12345678901234567890");
    assert_eq!(check_otp("755224", &secret, 10), Ok(true));
    assert_eq!(check_otp("755224", &secret, 30), Ok(false));
    assert_eq!(check_otp("755224", "not base32!", 10), Err(CryptoError::Encoding));
}

#[test]
fn verify_otp_now() {
    let secret = generate_secret();
    let key = BASE32.decode(secret.as_bytes()).unwrap();
    let step = (hextacy::time::now() as u64) / 30;
    let code = thotp::otp(&key, step).unwrap();
    let r = verify_otp(&code, &secret).unwrap();
    // a step boundary may pass between the two readings of the clock
    assert!(r || (hextacy::time::now() as u64) / 30 != step);
    assert_eq!(verify_otp("123456", "???"), Err(CryptoError::Encoding));
}

#[test]
fn qr_code_is_svg() {
    let secret = generate_secret();
    let svg = generate_totp_qr_code(&secret, "john@doe.com", "Big Corp", "Big Corp").unwrap();
    assert!(svg.contains("<svg"));
}

#[test]
fn token_is_keyed_digest_of_subject() {
    let mut mac = hmac::Hmac::<sha2::Sha256>::new_from_slice(b"supersecret").unwrap();
    mac.update(b"user-1");
    let expected = BASE64URL.encode(&mac.finalize().into_bytes());
    assert_eq!(issue_token("supersecret", "user-1"), expected);
    assert_eq!(issue_token("supersecret", "user-1"), issue_token("supersecret", "user-1"));
    assert_ne!(issue_token("supersecret", "user-1"), issue_token("other", "user-1"));
    assert_ne!(issue_token("supersecret", "user-1"), "user-1");
}

#[test]
fn token_verification() {
    let t = issue_token("supersecret", "user-1");
    assert!(verify_token("supersecret", "user-1", &t));
    assert!(!verify_token("supersecret", "user-2", &t));
    assert!(!verify_token("supersecret", "user-1", "12345"));
    assert!(!verify_token("supersecret", "user-1", ""));
}

#[test]
fn string_equality() {
    assert!(str_eq("", ""));
    assert!(str_eq("abc", "abc"));
    assert!(!str_eq("abc", "abd"));
    assert!(!str_eq("abc", "ab"));
    assert!(str_eq("žluť", "žluť"));
}

#[test]
fn qr_code_refuses_text_too_long() {
    let issuer = "x".repeat(4000);
    assert_eq!(generate_totp_qr_code("ABCD", "john@doe.com", "Big Corp", &issuer), Err(CryptoError::Otp));
}
