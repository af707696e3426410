use data_encoding::BASE32;
use hextacy::auth::{
    Credentials, ForgotPasswordVerify, Fresh, LoginOutcome, Otp, RegistrationData, FREEZE_ATTEMPT_LIMIT,
    LOGIN_ATTEMPT_LIMIT,
};
use hextacy::engine::Authentication;
use hextacy::model::{Action, AdapterError, AuthError, EmailKind, Session, TokenEntry, TokenKind, User};
use hextacy::otp::generate_secret;
use hextacy::token::issue_token;

const NOW: u64 = 1_700_000_000;

fn engine() -> Authentication {
    Authentication::new("supersecret".to_string(), 4)
}

fn fresh(n: u32) -> Fresh {
    Fresh {
        user_id: format!("user-{n}"),
        session_id: format!("session-{n}"),
        csrf_token: format!("csrf-{n}"),
        token: format!("token-{n}"),
    }
}

fn user(id: &str, email: &str, password: &str, otp: bool, verified: bool) -> User {
    User {
        id: id.to_string(),
        email: email.to_string(),
        username: "bibli".to_string(),
        password: Some(bcrypt::hash(password, 4).unwrap()),
        otp_secret: if otp { Some(generate_secret()) } else { None },
        frozen: false,
        email_verified_at: if verified { Some(NOW - 100) } else { None },
        created_at: NOW - 1000,
        updated_at: NOW - 1000,
    }
}

fn credentials() -> Credentials {
    Credentials { email: "test@lo.com".to_string(), password: "123".to_string(), remember: false }
}

fn registration_data() -> RegistrationData {
    RegistrationData { email: "test@lo.com".to_string(), password: "123".to_string(), username: "bibli".to_string() }
}

fn session_of(auth: &mut Authentication, user_id: &str, n: u32) -> Session {
    let s = Session {
        id: format!("session-{n}"),
        user_id: user_id.to_string(),
        csrf: format!("csrf-{n}"),
        oauth_token: None,
        provider: None,
        expires_at: NOW + 10_000,
    };
    auth.insert_session(s.duplicate()).unwrap();
    auth.cache_session(s.duplicate());
    s
}

fn put_token(auth: &mut Authentication, kind: TokenKind, key: &str, subject: &str) {
    auth.put_token_entry(TokenEntry {
        kind,
        key: key.to_string(),
        subject: subject.to_string(),
        expires_at: NOW + 600,
    });
}

fn otp_code(secret: &str, now: u64) -> String {
    thotp::otp(&BASE32.decode(secret.as_bytes()).unwrap(), now / 30).unwrap()
}

#[test]
fn registration() {
    let mut auth = engine();
    let u = auth.start_registration(&registration_data(), NOW, &fresh(1)).unwrap();
    assert_eq!(u.email, "test@lo.com");
    assert!(u.email_verified_at.is_none());
    assert_eq!(auth.outbox.len(), 1);
    assert_eq!(auth.outbox[0].kind, EmailKind::RegistrationToken);
    assert_eq!(auth.outbox[0].token, issue_token("supersecret", "user-1"));
    let res = auth.start_registration(&registration_data(), NOW, &fresh(2));
    match res {
        Ok(_) => panic!("Not good"),
        Err(e) => assert!(matches!(e, AuthError::EmailTaken)),
    }
}

#[test]
fn verify_registration_token() {
    let mut auth = engine();
    auth.start_registration(&registration_data(), NOW, &fresh(1)).unwrap();
    let token = issue_token("supersecret", "user-1");
    let u = auth.verify_registration_token(&token, NOW + 5).unwrap();
    assert_eq!(u.email_verified_at, Some(NOW + 5));
    let res = auth.verify_registration_token(&"12345".to_string(), NOW + 5);
    match res {
        Ok(_) => panic!("Not good"),
        Err(e) => assert!(matches!(e, AuthError::InvalidToken(TokenKind::Registration))),
    };
}

#[test]
fn resend_reg_token() {
    let mut auth = engine();
    auth.add_user(user("u1", "bibli@khan.com", "123", false, false)).unwrap();
    auth.resend_registration_token(&"bibli@khan.com".to_string(), NOW).unwrap();
    assert_eq!(auth.outbox.len(), 1);
    assert_eq!(auth.outbox[0].token, issue_token("supersecret", "u1"));
    assert_eq!(auth.attempts(Action::Email, "bibli@khan.com", NOW), 1);

    let mut auth = engine();
    auth.add_user(user("u1", "bibli@khan.com", "123", false, true)).unwrap();
    let res = auth.resend_registration_token(&"bibli@khan.com".to_string(), NOW);
    match res {
        Ok(_) => panic!("Not good"),
        Err(e) => assert!(matches!(e, AuthError::AlreadyVerified)),
    }
}

#[test]
fn credentials_no_otp() {
    let mut auth = engine();
    auth.add_user(user("u1", "test@lo.com", "123", false, true)).unwrap();
    match auth.login(&credentials(), NOW, &fresh(1)).unwrap() {
        LoginOutcome::Authenticated(s) => {
            assert_eq!(s.user_id, "u1");
            assert_eq!(s.id, "session-1");
        },
        LoginOutcome::Challenge(_) => panic!("Not good"),
    }
    assert!(auth.session_is_valid("session-1", NOW + 1));
}

#[test]
fn credentials_and_otp() {
    let mut auth = engine();
    let u = user("u1", "test@lo.com", "123", true, true);
    let secret = u.otp_secret.clone().unwrap();
    auth.add_user(u).unwrap();
    let token = match auth.login(&credentials(), NOW, &fresh(1)).unwrap() {
        LoginOutcome::Challenge(c) => c.token,
        LoginOutcome::Authenticated(_) => panic!("Not good"),
    };
    let data = Otp { password: otp_code(&secret, NOW + 1), token, remember: true };
    let s = auth.verify_otp(&data, NOW + 1, &fresh(2)).unwrap();
    assert_eq!(s.user_id, "u1");
    assert!(auth.session_is_valid("session-2", NOW + 2));
}

#[test]
fn invalid_credentails() {
    let mut auth = engine();
    let invalid_email = Credentials {
        email: "doesnt@exist.ever".to_string(),
        password: "not good".to_string(),
        remember: false,
    };
    match auth.login(&invalid_email, NOW, &fresh(1)) {
        Ok(_) => panic!("Not good"),
        Err(e) => assert!(matches!(e, AuthError::InvalidCredentials)),
    }
    let mut auth = engine();
    auth.add_user(user("u1", "bibli@khan.com", "123", false, true)).unwrap();
    let invalid_password = Credentials {
        email: "bibli@khan.com".to_string(),
        password: "not good".to_string(),
        remember: false,
    };
    match auth.login(&invalid_password, NOW, &fresh(1)) {
        Ok(_) => panic!("Not good"),
        Err(e) => assert!(matches!(e, AuthError::InvalidCredentials)),
    }
}

#[test]
fn change_password() {
    let mut auth = engine();
    auth.add_user(user("u1", "bibli@khan.com", "123", false, true)).unwrap();
    let session = session_of(&mut auth, "u1", 1);
    auth.change_password(&session, &"12345678".to_string(), NOW, &fresh(9)).unwrap();
    assert!(!auth.session_is_valid("session-1", NOW));
    assert_eq!(auth.outbox[0].kind, EmailKind::PasswordChanged);
    let c = Credentials { email: "bibli@khan.com".to_string(), password: "12345678".to_string(), remember: false };
    assert!(auth.login(&c, NOW, &fresh(2)).is_ok());
}

#[test]
fn reset_password() {
    let mut auth = engine();
    auth.add_user(user("u1", "bibli@khan.com", "123", false, true)).unwrap();
    session_of(&mut auth, "u1", 1);
    put_token(&mut auth, TokenKind::Password, "12345", "u1");
    auth.reset_password(&"12345".to_string(), NOW, &fresh(7)).unwrap();
    assert!(!auth.session_is_valid("session-1", NOW));
    assert_eq!(auth.outbox[0].kind, EmailKind::ResetPassword);
    assert_eq!(auth.outbox[0].token, "token-7");

    let mut auth = engine();
    let res = auth.reset_password(&"12345".to_string(), NOW, &fresh(7));
    match res {
        Ok(_) => panic!("Not good"),
        Err(e) => assert!(matches!(e, AuthError::InvalidToken(TokenKind::Password))),
    };
}

#[test]
fn forgot_password() {
    let mut auth = engine();
    auth.add_user(user("u1", "bibli@khan.com", "123", false, true)).unwrap();
    auth.forgot_password(&"bibli@khan.com".to_string(), NOW, &fresh(3)).unwrap();
    assert_eq!(auth.outbox[0].kind, EmailKind::ForgotPassword);
    assert_eq!(auth.outbox[0].token, "token-3");

    let mut auth = engine();
    match auth.forgot_password(&"bibli@khan.com".to_string(), NOW, &fresh(3)) {
        Ok(_) => panic!("Not good"),
        Err(e) => assert!(matches!(e, AuthError::Adapter(AdapterError::DoesNotExist))),
    };
}

#[test]
fn verify_forgot_password() {
    let mut auth = engine();
    auth.add_user(user("u1", "bibli@khan.com", "123", false, true)).unwrap();
    put_token(&mut auth, TokenKind::Password, "12345", "u1");
    let data = ForgotPasswordVerify { password: "12345678".to_string(), token: "12345".to_string() };
    let s = auth.verify_forgot_password(&data, NOW, &fresh(4)).unwrap();
    assert_eq!(s.user_id, "u1");

    let mut auth = engine();
    let data = ForgotPasswordVerify { password: "12345678".to_string(), token: "12345".to_string() };
    let res = auth.verify_forgot_password(&data, NOW, &fresh(4));
    match res {
        Ok(_) => panic!("Not good"),
        Err(e) => assert!(matches!(e, AuthError::InvalidToken(TokenKind::Password))),
    }
}

#[test]
fn login_success_creates_session_and_clears_attempts() {
    let mut auth = engine();
    auth.add_user(user("u1", "test@lo.com", "123", false, true)).unwrap();
    let wrong = Credentials { email: "test@lo.com".to_string(), password: "nope".to_string(), remember: false };
    assert_eq!(auth.login(&wrong, NOW, &fresh(1)).err(), Some(AuthError::InvalidCredentials));
    assert_eq!(auth.attempts(Action::Login, "test@lo.com", NOW), 1);
    assert!(matches!(auth.login(&credentials(), NOW, &fresh(2)), Ok(LoginOutcome::Authenticated(_))));
    assert_eq!(auth.attempts(Action::Login, "test@lo.com", NOW), 0);
    assert_eq!(auth.sessions.len(), 1);
    assert_eq!(auth.cached.len(), 1);
}

#[test]
fn fifth_wrong_password_is_rate_exceeded() {
    let mut auth = engine();
    auth.add_user(user("u1", "test@lo.com", "123", false, true)).unwrap();
    let wrong = Credentials { email: "test@lo.com".to_string(), password: "nope".to_string(), remember: false };
    for n in 1..LOGIN_ATTEMPT_LIMIT {
        assert_eq!(auth.login(&wrong, NOW, &fresh(n as u32)).err(), Some(AuthError::InvalidCredentials));
    }
    assert_eq!(auth.login(&wrong, NOW, &fresh(5)).err(), Some(AuthError::RateExceeded));
    assert_eq!(auth.login(&credentials(), NOW, &fresh(6)).err(), Some(AuthError::RateExceeded));
    assert_eq!(auth.attempts(Action::Login, "test@lo.com", NOW), 5);
    assert_eq!(auth.attempts(Action::Login, "test@lo.com", NOW + 1800), 0);
}

#[test]
fn unknown_email_throttled_like_known() {
    let mut auth = engine();
    let c = Credentials { email: "doesnt@exist.ever".to_string(), password: "x".to_string(), remember: false };
    for n in 1..LOGIN_ATTEMPT_LIMIT {
        assert_eq!(auth.login(&c, NOW, &fresh(n as u32)).err(), Some(AuthError::InvalidCredentials));
    }
    assert_eq!(auth.login(&c, NOW, &fresh(9)).err(), Some(AuthError::RateExceeded));
}

#[test]
fn account_freezes_at_higher_threshold() {
    let mut auth = engine();
    auth.add_user(user("u1", "test@lo.com", "123", false, true)).unwrap();
    let wrong = Credentials { email: "test@lo.com".to_string(), password: "nope".to_string(), remember: false };
    for n in 1..FREEZE_ATTEMPT_LIMIT {
        assert!(auth.login(&wrong, NOW, &fresh(n as u32)).is_err());
    }
    assert_eq!(auth.login(&wrong, NOW, &fresh(10)).err(), Some(AuthError::AccountFrozen));
    assert!(auth.users[0].frozen);
    assert_eq!(auth.login(&credentials(), NOW + 2000, &fresh(11)).err(), Some(AuthError::AccountFrozen));
}

#[test]
fn otp_user_gets_challenge_not_session() {
    let mut auth = engine();
    auth.add_user(user("u1", "test@lo.com", "123", true, true)).unwrap();
    match auth.login(&credentials(), NOW, &fresh(1)).unwrap() {
        LoginOutcome::Challenge(c) => {
            assert_eq!(c.token, "token-1");
            assert_eq!(c.username, "bibli");
            assert!(!c.remember);
        },
        LoginOutcome::Authenticated(_) => panic!("Not good"),
    }
    assert_eq!(auth.sessions.len(), 0);
    assert!(!auth.session_is_valid("session-1", NOW));
}

#[test]
fn otp_code_cannot_be_replayed() {
    let mut auth = engine();
    let u = user("u1", "test@lo.com", "123", true, true);
    let secret = u.otp_secret.clone().unwrap();
    auth.add_user(u).unwrap();
    auth.login(&credentials(), NOW, &fresh(1)).unwrap();
    let data = Otp { password: otp_code(&secret, NOW), token: "token-1".to_string(), remember: false };
    auth.verify_otp(&data, NOW, &fresh(2)).unwrap();
    assert_eq!(auth.verify_otp(&data, NOW, &fresh(3)).err(), Some(AuthError::InvalidToken(TokenKind::Otp)));
}

#[test]
fn wrong_otp_keeps_token_and_counts() {
    let mut auth = engine();
    let u = user("u1", "test@lo.com", "123", true, true);
    let secret = u.otp_secret.clone().unwrap();
    auth.add_user(u).unwrap();
    auth.login(&credentials(), NOW, &fresh(1)).unwrap();
    let right = otp_code(&secret, NOW);
    let wrong = if right == "000000" { "111111" } else { "000000" };
    let bad = Otp { password: wrong.to_string(), token: "token-1".to_string(), remember: false };
    assert_eq!(auth.verify_otp(&bad, NOW, &fresh(2)).err(), Some(AuthError::InvalidCredentials));
    assert_eq!(auth.attempts(Action::Otp, "u1", NOW), 1);
    let good = Otp { password: right, token: "token-1".to_string(), remember: false };
    assert!(auth.verify_otp(&good, NOW, &fresh(3)).is_ok());
}

#[test]
fn registration_token_verifies_once() {
    let mut auth = engine();
    auth.add_user(user("other", "other@lo.com", "123", false, false)).unwrap();
    auth.start_registration(&registration_data(), NOW, &fresh(1)).unwrap();
    let token = auth.outbox[0].token.clone();
    auth.verify_registration_token(&token, NOW + 1).unwrap();
    assert_eq!(auth.users[1].email_verified_at, Some(NOW + 1));
    assert_eq!(auth.users[0].email_verified_at, None);
    assert_eq!(
        auth.verify_registration_token(&token, NOW + 2).err(),
        Some(AuthError::InvalidToken(TokenKind::Registration))
    );
}

#[test]
fn forged_registration_token_is_refused() {
    let mut auth = engine();
    auth.add_user(user("u1", "bibli@khan.com", "123", false, false)).unwrap();
    put_token(&mut auth, TokenKind::Registration, "forged", "u1");
    assert_eq!(
        auth.verify_registration_token(&"forged".to_string(), NOW).err(),
        Some(AuthError::InvalidToken(TokenKind::Registration))
    );
}

#[test]
fn expired_registration_token_is_refused() {
    let mut auth = engine();
    auth.start_registration(&registration_data(), NOW, &fresh(1)).unwrap();
    let token = auth.outbox[0].token.clone();
    assert_eq!(
        auth.verify_registration_token(&token, NOW + 86400).err(),
        Some(AuthError::InvalidToken(TokenKind::Registration))
    );
}

#[test]
fn purged_sessions_are_invalid() {
    let mut auth = engine();
    session_of(&mut auth, "u1", 1);
    session_of(&mut auth, "u1", 2);
    session_of(&mut auth, "u2", 3);
    let purged = auth.purge_sessions(&"u1".to_string());
    assert_eq!(purged.len(), 2);
    for s in &purged {
        assert!(!auth.session_is_valid(&s.id, NOW));
    }
    assert!(auth.session_is_valid("session-3", NOW));
    assert_eq!(auth.sessions.len(), 1);
    assert_eq!(auth.cached.len(), 1);
}

#[test]
fn cache_miss_repopulates_from_records() {
    let mut auth = engine();
    let s = Session {
        id: "s".to_string(),
        user_id: "u1".to_string(),
        csrf: "c".to_string(),
        oauth_token: None,
        provider: None,
        expires_at: NOW + 10,
    };
    auth.insert_session(s).unwrap();
    assert_eq!(auth.cached.len(), 0);
    assert!(auth.session_is_valid("s", NOW));
    assert_eq!(auth.cached.len(), 1);
    assert!(!auth.session_is_valid("s", NOW + 10));
}

#[test]
fn logout_ends_one_or_all_sessions() {
    let mut auth = engine();
    let a = session_of(&mut auth, "u1", 1);
    session_of(&mut auth, "u1", 2);
    auth.logout(&a, false);
    assert!(!auth.session_is_valid("session-1", NOW));
    assert!(auth.session_is_valid("session-2", NOW));
    let b = session_of(&mut auth, "u1", 3);
    auth.logout(&b, true);
    assert!(!auth.session_is_valid("session-2", NOW));
    assert!(!auth.session_is_valid("session-3", NOW));
}

#[test]
fn duplicate_session_id_conflicts() {
    let mut auth = engine();
    auth.add_user(user("u1", "test@lo.com", "123", false, true)).unwrap();
    session_of(&mut auth, "u0", 1);
    assert_eq!(
        auth.login(&credentials(), NOW, &fresh(1)).err(),
        Some(AuthError::Adapter(AdapterError::Conflict))
    );
}

#[test]
fn email_throttle_limits_resends() {
    let mut auth = engine();
    auth.add_user(user("u1", "bibli@khan.com", "123", false, false)).unwrap();
    let email = "bibli@khan.com".to_string();
    auth.resend_registration_token(&email, NOW).unwrap();
    assert_eq!(auth.resend_registration_token(&email, NOW + 1).err(), Some(AuthError::RateExceeded));
    assert!(auth.resend_registration_token(&email, NOW + 60).is_ok());
}

#[test]
fn check_and_increment_counts_then_refuses() {
    let mut auth = engine();
    let id = "x".to_string();
    assert_eq!(auth.check_and_increment(Action::Email, &id, NOW), Ok(1));
    assert_eq!(auth.check_and_increment(Action::Email, &id, NOW), Err(AuthError::RateExceeded));
    assert_eq!(auth.check_and_increment(Action::Login, &id, NOW), Ok(1));
    assert_eq!(auth.check_and_increment(Action::Login, &id, NOW), Ok(2));
}

#[test]
fn add_user_rejects_taken_email() {
    let mut auth = engine();
    auth.add_user(user("u1", "a@b.c", "1", false, true)).unwrap();
    assert_eq!(auth.add_user(user("u2", "a@b.c", "1", false, true)).err(), Some(AuthError::EmailTaken));
    assert_eq!(
        auth.add_user(user("u1", "d@b.c", "1", false, true)).err(),
        Some(AuthError::Adapter(AdapterError::Conflict))
    );
}

#[test]
fn bad_otp_secret_is_crypto_error() {
    let mut auth = engine();
    let mut u = user("u1", "test@lo.com", "123", false, true);
    u.otp_secret = Some("not base32!".to_string());
    auth.add_user(u).unwrap();
    auth.login(&credentials(), NOW, &fresh(1)).unwrap();
    let data = Otp { password: "123456".to_string(), token: "token-1".to_string(), remember: false };
    assert_eq!(
        auth.verify_otp(&data, NOW, &fresh(2)).err(),
        Some(AuthError::Crypto(hextacy::otp::CryptoError::Encoding))
    );
}

#[test]
fn enabling_otp_turns_login_into_challenge() {
    let mut auth = engine();
    auth.add_user(user("u1", "test@lo.com", "123", false, true)).unwrap();
    let s = session_of(&mut auth, "u1", 1);
    let secret = generate_secret();
    let u = auth.set_otp_secret(&s, secret.clone(), NOW).unwrap();
    assert_eq!(u.otp_secret, Some(secret));
    assert!(matches!(auth.login(&credentials(), NOW, &fresh(2)), Ok(LoginOutcome::Challenge(_))));
    let stranger = Session { user_id: "nobody".to_string(), ..s };
    assert_eq!(
        auth.set_otp_secret(&stranger, generate_secret(), NOW).err(),
        Some(AuthError::Adapter(AdapterError::DoesNotExist))
    );
}

#[test]
fn finish_registration_uses_given_hash_and_token() {
    let mut auth = engine();
    let hash = bcrypt::hash("123", 4).unwrap();
    let u = auth
        .finish_registration(&registration_data(), NOW, &fresh(1), hash.clone(), "reg-token".to_string())
        .unwrap();
    assert_eq!(u.password, Some(hash));
    assert_eq!(auth.outbox[0].token, "reg-token");
    assert_eq!(auth.tokens[0].key, "reg-token");
    assert_eq!(auth.tokens[0].subject, "user-1");
    assert_eq!(
        auth.finish_registration(&registration_data(), NOW, &fresh(2), "h".to_string(), "t".to_string()).err(),
        Some(AuthError::EmailTaken)
    );
}

#[test]
fn finish_password_flows_store_given_hash() {
    let mut auth = engine();
    auth.add_user(user("u1", "bibli@khan.com", "123", false, true)).unwrap();
    session_of(&mut auth, "u1", 1);
    auth.finish_change_password(&"u1".to_string(), NOW, &fresh(5), "hash-a".to_string()).unwrap();
    assert_eq!(auth.users[0].password, Some("hash-a".to_string()));
    assert_eq!(auth.sessions.len(), 0);

    put_token(&mut auth, TokenKind::Password, "12345", "u1");
    auth.finish_reset_password(&"12345".to_string(), NOW, &fresh(6), "hash-b".to_string()).unwrap();
    assert_eq!(auth.users[0].password, Some("hash-b".to_string()));
    assert_eq!(
        auth.finish_reset_password(&"12345".to_string(), NOW, &fresh(6), "hash-c".to_string()).err(),
        Some(AuthError::InvalidToken(TokenKind::Password))
    );

    put_token(&mut auth, TokenKind::Password, "67890", "u1");
    let data = ForgotPasswordVerify { password: "ignored".to_string(), token: "67890".to_string() };
    let s = auth.finish_verify_forgot_password(&data, NOW, &fresh(7), "hash-d".to_string()).unwrap();
    assert_eq!(s.id, "session-7");
    assert_eq!(auth.users[0].password, Some("hash-d".to_string()));
    assert_eq!(
        auth.finish_change_password(&"nobody".to_string(), NOW, &fresh(8), "h".to_string()).err(),
        Some(AuthError::Adapter(AdapterError::DoesNotExist))
    );
}
