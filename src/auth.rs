use vstd::prelude::*;
use crate::engine::{
    clear_counter, drop_token, has_session_id, hit_counter, live_count, lemma_filter_keeps_unique, put_session,
    put_token, saturating_inc, sessions_not_of, sessions_of, token_subject, without_ids, AuthView,
    Authentication,
};
use crate::model::{
    expiry, expiry_of, session_with_id, sessions_unique, user_with_email, user_with_id, Action,
    AdapterError, AuthError, Email, EmailKind, Session, TokenEntry, TokenKind, User,
};
use crate::otp::{check_otp, check_otp_spec};
use crate::token::{issue_token, token_of, verify_token};
use crate::password::{bcrypt_accepts, hash_password, password_matches};

verus! {

/// Failed logins within a window after which further logins are refused.
pub const LOGIN_ATTEMPT_LIMIT: u64 = 5;
/// Failed logins within a window after which a known account is frozen.
pub const FREEZE_ATTEMPT_LIMIT: u64 = 10;
/// Failed one-time passwords within a window after which more are refused.
pub const OTP_ATTEMPT_LIMIT: u64 = 5;
/// Emails to one address within a window.
pub const EMAIL_LIMIT: u64 = 1;

/// Lengths in seconds of the throttle windows.
pub const LOGIN_WINDOW: u64 = 1800;
pub const OTP_WINDOW: u64 = 300;
pub const EMAIL_WINDOW: u64 = 60;

/// Lifetimes in seconds of tokens and sessions.
pub const OTP_TOKEN_TTL: u64 = 300;
pub const REGISTRATION_TOKEN_TTL: u64 = 86400;
pub const PASSWORD_TOKEN_TTL: u64 = 3600;
pub const SESSION_TTL: u64 = 86400;
pub const REMEMBERED_SESSION_TTL: u64 = 2592000;

/// The attempts of an action that a window allows.
pub open spec fn attempt_limit(action: Action) -> u64 {
    match action {
        Action::Login => LOGIN_ATTEMPT_LIMIT,
        Action::Otp => OTP_ATTEMPT_LIMIT,
        Action::Email => EMAIL_LIMIT,
    }
}

/// The length of an action's throttle window.
pub open spec fn attempt_window(action: Action) -> u64 {
    match action {
        Action::Login => LOGIN_WINDOW,
        Action::Otp => OTP_WINDOW,
        Action::Email => EMAIL_WINDOW,
    }
}

/// Received on login.
pub struct Credentials {
    pub email: String,
    pub password: String,
    pub remember: bool,
}

/// Random values that a flow may need, drawn by the caller: an id for a new
/// user, an id and a CSRF token for a new session, and an opaque token.
pub struct Fresh {
    pub user_id: String,
    pub session_id: String,
    pub csrf_token: String,
    pub token: String,
}

/// Sent when the credentials are right and a one-time password is due.
pub struct TwoFactorChallenge {
    pub username: String,
    pub token: String,
    pub remember: bool,
}

/// The success of a login.
pub enum LoginOutcome {
    /// A session was established.
    Authenticated(Session),
    /// The user must still give a one-time password.
    Challenge(TwoFactorChallenge),
}

pub open spec fn session_ttl(remember: bool) -> u64 {
    if remember {
        REMEMBERED_SESSION_TTL
    } else {
        SESSION_TTL
    }
}

/// The session that a flow creates from the caller's fresh values.
pub open spec fn fresh_session(f: Fresh, user_id: String, expires_at: u64) -> Session {
    Session { id: f.session_id, user_id, csrf: f.csrf_token, oauth_token: None, provider: None, expires_at }
}

/// A new session is recorded, then cached.
pub open spec fn establish(s: AuthView, sess: Session) -> AuthView {
    AuthView { sessions: s.sessions.push(sess), cached: put_session(s.cached, sess), ..s }
}

/// Whether the password is right for the user with this email.
pub open spec fn credentials_ok(s: AuthView, email: Seq<char>, password: Seq<char>) -> bool {
    match user_with_email(s.users, email) {
        Some(i) => match s.users[i].password {
            Some(h) => bcrypt_accepts(password, h@),
            None => false,
        },
        None => false,
    }
}

/// What a login does and returns.
pub open spec fn login_spec(s: AuthView, c: Credentials, now: u64, f: Fresh) -> (AuthView, Result<LoginOutcome, AuthError>) {
    let count = live_count(s.counters, Action::Login, c.email@, now);
    if !credentials_ok(s, c.email@, c.password@) {
        let n = saturating_inc(count);
        let s1 = AuthView { counters: hit_counter(s.counters, Action::Login, c.email, now, LOGIN_WINDOW), ..s };
        match user_with_email(s.users, c.email@) {
            Some(i) if n >= FREEZE_ATTEMPT_LIMIT => (
                AuthView { users: s.users.update(i, User { frozen: true, ..s.users[i] }), ..s1 },
                Err(AuthError::AccountFrozen),
            ),
            _ => (s1, Err(if n >= LOGIN_ATTEMPT_LIMIT { AuthError::RateExceeded } else { AuthError::InvalidCredentials })),
        }
    } else {
        let u = s.users[user_with_email(s.users, c.email@)->Some_0];
        if count >= LOGIN_ATTEMPT_LIMIT {
            (s, Err(AuthError::RateExceeded))
        } else if u.frozen {
            (s, Err(AuthError::AccountFrozen))
        } else if u.otp_secret is Some {
            let e = TokenEntry { kind: TokenKind::Otp, key: f.token, subject: u.id, expires_at: expiry(now, OTP_TOKEN_TTL) };
            (
                AuthView { tokens: put_token(s.tokens, e), ..s },
                Ok(LoginOutcome::Challenge(TwoFactorChallenge { username: u.username, token: f.token, remember: c.remember })),
            )
        } else if has_session_id(s.sessions, f.session_id@) {
            (s, Err(AuthError::Adapter(AdapterError::Conflict)))
        } else {
            let sess = fresh_session(f, u.id, expiry(now, session_ttl(c.remember)));
            let s1 = establish(s, sess);
            (AuthView { counters: clear_counter(s1.counters, Action::Login, c.email@), ..s1 }, Ok(LoginOutcome::Authenticated(sess)))
        }
    }
}

impl Authentication {
    /// The throttle guard: where the attempts of `action` by `identity` in
    /// the current window have reached the action's limit, fails with
    /// `RateExceeded` and records nothing; otherwise records the attempt and
    /// returns the new count.
    pub fn check_and_increment(&mut self, action: Action, identity: &String, now: u64) -> (r: Result<u64, AuthError>)
        requires
            old(self).wf(),
        ensures
            final(self).wf(),
            final(self).config == old(self).config,
            live_count(old(self)@.counters, action, identity@, now) >= attempt_limit(action)
                ==> r == Err::<u64, AuthError>(AuthError::RateExceeded) && final(self)@ == old(self)@,
            live_count(old(self)@.counters, action, identity@, now) < attempt_limit(action)
                ==> r == Ok::<u64, AuthError>(saturating_inc(live_count(old(self)@.counters, action, identity@, now)))
                && final(self)@ == (AuthView {
                    counters: hit_counter(old(self)@.counters, action, *identity, now, attempt_window(action)),
                    ..old(self)@
                }),
    {
        let (limit, window) = match action {
            Action::Login => (LOGIN_ATTEMPT_LIMIT, LOGIN_WINDOW),
            Action::Otp => (OTP_ATTEMPT_LIMIT, OTP_WINDOW),
            Action::Email => (EMAIL_LIMIT, EMAIL_WINDOW),
        };
        if self.attempts(action, identity.as_str(), now) >= limit {
            return Err(AuthError::RateExceeded);
        }
        Ok(self.record_attempt(action, identity, now, window))
    }

    /// Replaces the user at `i` by a record with the same id and email.
    pub fn set_user(&mut self, i: usize, u: User)
        requires
            old(self).wf(),
            i < old(self)@.users.len(),
            u.id@ == old(self)@.users[i as int].id@,
            u.email@ == old(self)@.users[i as int].email@,
        ensures
            final(self).wf(),
            final(self).config == old(self).config,
            final(self)@ == (AuthView { users: old(self)@.users.update(i as int, u), ..old(self)@ }),
    {
        let ghost o = self.users@;
        self.users.set(i, u);
        proof {
            let t = self.users@;
            assert forall|a: int, b: int| #![trigger t[a].id@, t[b].id@]
                0 <= a < t.len() && 0 <= b < t.len() && t[a].id@ == t[b].id@ implies a == b by {
                assert(t[a].id@ == o[a].id@ && t[b].id@ == o[b].id@);
            }
            assert forall|a: int, b: int| #![trigger t[a].email@, t[b].email@]
                0 <= a < t.len() && 0 <= b < t.len() && t[a].email@ == t[b].email@ implies a == b by {
                assert(t[a].email@ == o[a].email@ && t[b].email@ == o[b].email@);
            }
        }
    }

    /// Records and caches a new session.
    pub fn establish_session(&mut self, sess: Session) -> (r: Session)
        requires
            old(self).wf(),
            !has_session_id(old(self)@.sessions, sess.id@),
        ensures
            final(self).wf(),
            final(self).config == old(self).config,
            final(self)@ == establish(old(self)@, sess),
            r == sess,
    {
        let copy = sess.duplicate();
        let _ = self.insert_session(sess);
        self.cache_session(copy.duplicate());
        copy
    }

    /// Checks the credentials. Unknown emails and wrong passwords fail
    /// alike, with `InvalidCredentials`, and count as an attempt of the
    /// email; from the `LOGIN_ATTEMPT_LIMIT`th attempt of a window on, the
    /// login fails with `RateExceeded`, and at `FREEZE_ATTEMPT_LIMIT` a known
    /// account is frozen. Right credentials clear the count and establish a
    /// session, or, where the user has a one-time-password secret, store a
    /// challenge token and return it.
    pub fn login(&mut self, c: &Credentials, now: u64, f: &Fresh) -> (r: Result<LoginOutcome, AuthError>)
        requires
            old(self).wf(),
        ensures
            final(self).wf(),
            final(self).config == old(self).config,
            (final(self)@, r) == login_spec(old(self)@, *c, now, *f),
    {
        let ghost s = self@;
        let count = self.attempts(Action::Login, c.email.as_str(), now);
        let found = self.find_user_by_email(c.email.as_str());
        let ok = match found {
            Some(i) => match &self.users[i].password {
                Some(h) => password_matches(c.password.as_str(), h.as_str()),
                None => false,
            },
            None => false,
        };
        if !ok {
            let n = self.record_attempt(Action::Login, &c.email, now, LOGIN_WINDOW);
            if let Some(i) = found {
                if n >= FREEZE_ATTEMPT_LIMIT {
                    let mut u = self.users[i].duplicate();
                    u.frozen = true;
                    self.set_user(i, u);
                    return Err(AuthError::AccountFrozen);
                }
            }
            if n >= LOGIN_ATTEMPT_LIMIT {
                return Err(AuthError::RateExceeded);
            }
            return Err(AuthError::InvalidCredentials);
        }
        let i = found.unwrap();
        if count >= LOGIN_ATTEMPT_LIMIT {
            return Err(AuthError::RateExceeded);
        }
        if self.users[i].frozen {
            return Err(AuthError::AccountFrozen);
        }
        if self.users[i].otp_secret.is_some() {
            let e = TokenEntry {
                kind: TokenKind::Otp,
                key: f.token.clone(),
                subject: self.users[i].id.clone(),
                expires_at: expiry_of(now, OTP_TOKEN_TTL),
            };
            let challenge = TwoFactorChallenge {
                username: self.users[i].username.clone(),
                token: f.token.clone(),
                remember: c.remember,
            };
            self.put_token_entry(e);
            return Ok(LoginOutcome::Challenge(challenge));
        }
        if Self::has_id(&self.sessions, f.session_id.as_str()) {
            return Err(AuthError::Adapter(AdapterError::Conflict));
        }
        let ttl = if c.remember { REMEMBERED_SESSION_TTL } else { SESSION_TTL };
        let sess = Session {
            id: f.session_id.clone(),
            user_id: self.users[i].id.clone(),
            csrf: f.csrf_token.clone(),
            oauth_token: None,
            provider: None,
            expires_at: expiry_of(now, ttl),
        };
        let sess = self.establish_session(sess);
        self.clear_attempts(Action::Login, c.email.as_str());
        Ok(LoginOutcome::Authenticated(sess))
    }
}

} // verus!

verus! {

/// Received when answering a one-time-password challenge.
pub struct Otp {
    pub password: String,
    pub token: String,
    pub remember: bool,
}

/// Received when registering.
pub struct RegistrationData {
    pub email: String,
    pub username: String,
    pub password: String,
}

/// Received when setting a new password with a forgot-password token.
pub struct ForgotPasswordVerify {
    pub password: String,
    pub token: String,
}

/// Every session of the user leaves the records, and each of them the cache.
pub open spec fn purge(s: AuthView, user_id: Seq<char>) -> AuthView {
    AuthView {
        sessions: sessions_not_of(s.sessions, user_id),
        cached: without_ids(s.cached, sessions_of(s.sessions, user_id)),
        ..s
    }
}

pub open spec fn with_password(u: User, hash: String, now: u64) -> User {
    User { password: Some(hash), updated_at: now, ..u }
}

/// What answering a one-time-password challenge does and returns.
pub open spec fn verify_otp_spec(s: AuthView, o: Otp, now: u64, f: Fresh) -> (AuthView, Result<Session, AuthError>) {
    match token_subject(s.tokens, TokenKind::Otp, o.token@, now) {
        None => (s, Err(AuthError::InvalidToken(TokenKind::Otp))),
        Some(uid) => match user_with_id(s.users, uid) {
            None => (s, Err(AuthError::Adapter(AdapterError::DoesNotExist))),
            Some(i) => {
                let u = s.users[i];
                if live_count(s.counters, Action::Otp, u.id@, now) >= OTP_ATTEMPT_LIMIT {
                    (s, Err(AuthError::RateExceeded))
                } else {
                    match u.otp_secret {
                        None => (s, Err(AuthError::InvalidToken(TokenKind::Otp))),
                        Some(secret) => match check_otp_spec(o.password@, secret@, now) {
                            Err(e) => (s, Err(AuthError::Crypto(e))),
                            Ok(false) => (
                                AuthView { counters: hit_counter(s.counters, Action::Otp, u.id, now, OTP_WINDOW), ..s },
                                Err(AuthError::InvalidCredentials),
                            ),
                            Ok(true) => if has_session_id(s.sessions, f.session_id@) {
                                (s, Err(AuthError::Adapter(AdapterError::Conflict)))
                            } else {
                                let sess = fresh_session(f, u.id, expiry(now, session_ttl(o.remember)));
                                let s1 = establish(AuthView { tokens: drop_token(s.tokens, TokenKind::Otp, o.token@), ..s }, sess);
                                (AuthView { counters: clear_counter(s1.counters, Action::Login, u.email@), ..s1 }, Ok(sess))
                            },
                        },
                    }
                }
            },
        },
    }
}

/// What registration does and returns, given the password hash that was
/// made (none where hashing failed) and the registration token issued.
pub open spec fn registration_spec(
    s: AuthView,
    d: RegistrationData,
    now: u64,
    f: Fresh,
    hash: Option<String>,
    token: String,
) -> (AuthView, Result<User, AuthError>) {
    if user_with_email(s.users, d.email@) is Some {
        (s, Err(AuthError::EmailTaken))
    } else if user_with_id(s.users, f.user_id@) is Some {
        (s, Err(AuthError::Adapter(AdapterError::Conflict)))
    } else {
        match hash {
            None => (s, Err(AuthError::Adapter(AdapterError::Hashing))),
            Some(h) => {
                let u = User {
                    id: f.user_id,
                    email: d.email,
                    username: d.username,
                    password: Some(h),
                    otp_secret: None,
                    frozen: false,
                    email_verified_at: None,
                    created_at: now,
                    updated_at: now,
                };
                let e = TokenEntry {
                    kind: TokenKind::Registration,
                    key: token,
                    subject: f.user_id,
                    expires_at: expiry(now, REGISTRATION_TOKEN_TTL),
                };
                let m = Email { kind: EmailKind::RegistrationToken, to: d.email, username: d.username, token };
                (AuthView { users: s.users.push(u), tokens: put_token(s.tokens, e), outbox: s.outbox.push(m), ..s }, Ok(u))
            },
        }
    }
}

/// What verifying a registration token does and returns.
pub open spec fn verify_registration_spec(s: AuthView, token: Seq<char>, now: u64) -> (AuthView, Result<User, AuthError>) {
    match token_subject(s.tokens, TokenKind::Registration, token, now) {
        None => (s, Err(AuthError::InvalidToken(TokenKind::Registration))),
        Some(uid) => if token != token_of(s.reg_token_secret, uid) {
            (s, Err(AuthError::InvalidToken(TokenKind::Registration)))
        } else {
            match user_with_id(s.users, uid) {
                None => (s, Err(AuthError::Adapter(AdapterError::DoesNotExist))),
                Some(i) => {
                    let u = User { email_verified_at: Some(now), updated_at: now, ..s.users[i] };
                    (
                        AuthView {
                            users: s.users.update(i, u),
                            tokens: drop_token(s.tokens, TokenKind::Registration, token),
                            ..s
                        },
                        Ok(u),
                    )
                },
            }
        },
    }
}

/// The registration token of the user with this email.
pub open spec fn registration_token_for(s: AuthView, email: Seq<char>) -> Seq<char> {
    token_of(s.reg_token_secret, s.users[user_with_email(s.users, email)->Some_0].id@)
}

/// What resending a registration token does and returns, given the token.
pub open spec fn resend_spec(s: AuthView, email: String, now: u64, token: String) -> (AuthView, Result<(), AuthError>) {
    match user_with_email(s.users, email@) {
        None => (s, Err(AuthError::Adapter(AdapterError::DoesNotExist))),
        Some(i) => {
            let u = s.users[i];
            if u.email_verified_at is Some {
                (s, Err(AuthError::AlreadyVerified))
            } else if live_count(s.counters, Action::Email, email@, now) >= EMAIL_LIMIT {
                (s, Err(AuthError::RateExceeded))
            } else {
                let e = TokenEntry {
                    kind: TokenKind::Registration,
                    key: token,
                    subject: u.id,
                    expires_at: expiry(now, REGISTRATION_TOKEN_TTL),
                };
                let m = Email { kind: EmailKind::RegistrationToken, to: u.email, username: u.username, token };
                (
                    AuthView {
                        tokens: put_token(s.tokens, e),
                        outbox: s.outbox.push(m),
                        counters: hit_counter(s.counters, Action::Email, email, now, EMAIL_WINDOW),
                        ..s
                    },
                    Ok(()),
                )
            }
        },
    }
}

/// What asking for a forgot-password token does and returns.
pub open spec fn forgot_password_spec(s: AuthView, email: String, now: u64, f: Fresh) -> (AuthView, Result<(), AuthError>) {
    match user_with_email(s.users, email@) {
        None => (s, Err(AuthError::Adapter(AdapterError::DoesNotExist))),
        Some(i) => {
            let u = s.users[i];
            if live_count(s.counters, Action::Email, email@, now) >= EMAIL_LIMIT {
                (s, Err(AuthError::RateExceeded))
            } else {
                let e = TokenEntry {
                    kind: TokenKind::Password,
                    key: f.token,
                    subject: u.id,
                    expires_at: expiry(now, PASSWORD_TOKEN_TTL),
                };
                let m = Email { kind: EmailKind::ForgotPassword, to: u.email, username: u.username, token: f.token };
                (
                    AuthView {
                        tokens: put_token(s.tokens, e),
                        outbox: s.outbox.push(m),
                        counters: hit_counter(s.counters, Action::Email, email, now, EMAIL_WINDOW),
                        ..s
                    },
                    Ok(()),
                )
            }
        },
    }
}

/// What setting a new password with a forgot-password token does and
/// returns, given the hash made of the new password.
pub open spec fn verify_forgot_password_spec(
    s: AuthView,
    d: ForgotPasswordVerify,
    now: u64,
    f: Fresh,
    hash: Option<String>,
) -> (AuthView, Result<Session, AuthError>) {
    match token_subject(s.tokens, TokenKind::Password, d.token@, now) {
        None => (s, Err(AuthError::InvalidToken(TokenKind::Password))),
        Some(uid) => match user_with_id(s.users, uid) {
            None => (s, Err(AuthError::Adapter(AdapterError::DoesNotExist))),
            Some(i) => if has_session_id(s.sessions, f.session_id@) {
                (s, Err(AuthError::Adapter(AdapterError::Conflict)))
            } else {
                match hash {
                    None => (s, Err(AuthError::Adapter(AdapterError::Hashing))),
                    Some(h) => {
                        let u = s.users[i];
                        let s1 = AuthView {
                            tokens: drop_token(s.tokens, TokenKind::Password, d.token@),
                            users: s.users.update(i, with_password(u, h, now)),
                            ..s
                        };
                        let sess = fresh_session(f, u.id, expiry(now, SESSION_TTL));
                        let s2 = establish(purge(s1, u.id@), sess);
                        (AuthView { counters: clear_counter(s2.counters, Action::Login, u.email@), ..s2 }, Ok(sess))
                    },
                }
            },
        },
    }
}

/// What resetting a password with a token does and returns: the password
/// becomes the caller's fresh token, which is mailed to the user, given the
/// hash made of it.
pub open spec fn reset_password_spec(s: AuthView, token: Seq<char>, now: u64, f: Fresh, hash: Option<String>) -> (AuthView, Result<(), AuthError>) {
    match token_subject(s.tokens, TokenKind::Password, token, now) {
        None => (s, Err(AuthError::InvalidToken(TokenKind::Password))),
        Some(uid) => match user_with_id(s.users, uid) {
            None => (s, Err(AuthError::Adapter(AdapterError::DoesNotExist))),
            Some(i) => match hash {
                None => (s, Err(AuthError::Adapter(AdapterError::Hashing))),
                Some(h) => {
                    let u = s.users[i];
                    let m = Email { kind: EmailKind::ResetPassword, to: u.email, username: u.username, token: f.token };
                    let s1 = AuthView {
                        tokens: drop_token(s.tokens, TokenKind::Password, token),
                        users: s.users.update(i, with_password(u, h, now)),
                        outbox: s.outbox.push(m),
                        ..s
                    };
                    (purge(s1, u.id@), Ok(()))
                },
            },
        },
    }
}

/// What changing the password of a signed-in user does and returns, given
/// the hash made of the new password: every session ends, and the user is
/// told by an email that carries a password token should the change not be
/// theirs.
pub open spec fn change_password_spec(s: AuthView, user_id: Seq<char>, now: u64, f: Fresh, hash: Option<String>) -> (AuthView, Result<(), AuthError>) {
    match user_with_id(s.users, user_id) {
        None => (s, Err(AuthError::Adapter(AdapterError::DoesNotExist))),
        Some(i) => match hash {
            None => (s, Err(AuthError::Adapter(AdapterError::Hashing))),
            Some(h) => {
                let u = s.users[i];
                let e = TokenEntry {
                    kind: TokenKind::Password,
                    key: f.token,
                    subject: u.id,
                    expires_at: expiry(now, PASSWORD_TOKEN_TTL),
                };
                let m = Email { kind: EmailKind::PasswordChanged, to: u.email, username: u.username, token: f.token };
                let s1 = purge(AuthView { users: s.users.update(i, with_password(u, h, now)), ..s }, u.id@);
                (AuthView { tokens: put_token(s1.tokens, e), outbox: s1.outbox.push(m), ..s1 }, Ok(()))
            },
        },
    }
}

/// What enabling one-time passwords for a signed-in user does and returns.
pub open spec fn set_otp_secret_spec(s: AuthView, user_id: Seq<char>, secret: String, now: u64) -> (AuthView, Result<User, AuthError>) {
    match user_with_id(s.users, user_id) {
        None => (s, Err(AuthError::Adapter(AdapterError::DoesNotExist))),
        Some(i) => {
            let u = User { otp_secret: Some(secret), updated_at: now, ..s.users[i] };
            (AuthView { users: s.users.update(i, u), ..s }, Ok(u))
        },
    }
}

/// What logging out does: the current session ends, or with `purge` every
/// session of its user.
pub open spec fn logout_spec(s: AuthView, session: Session, purge_all: bool) -> AuthView {
    if purge_all {
        purge(s, session.user_id@)
    } else {
        AuthView {
            sessions: match session_with_id(s.sessions, session.id@) {
                Some(i) => s.sessions.remove(i),
                None => s.sessions,
            },
            cached: match session_with_id(s.cached, session.id@) {
                Some(i) => s.cached.remove(i),
                None => s.cached,
            },
            ..s
        }
    }
}

proof fn lemma_filter_no_new_id(ss: Seq<Session>, p: spec_fn(Session) -> bool, id: Seq<char>)
    requires
        sessions_unique(ss),
        !has_session_id(ss, id),
    ensures
        !has_session_id(ss.filter(p), id),
{
    lemma_filter_keeps_unique(ss, p);
    if has_session_id(ss.filter(p), id) {
        let k = choose|k: int| 0 <= k < ss.filter(p).len() && ss.filter(p)[k].id@ == id;
        assert(ss.contains(ss.filter(p)[k]));
    }
}

impl Authentication {
    /// Adds a user; fails with `EmailTaken` where the email is in use and
    /// with `Conflict` where the id is.
    pub fn add_user(&mut self, u: User) -> (r: Result<(), AuthError>)
        requires
            old(self).wf(),
        ensures
            final(self).wf(),
            final(self).config == old(self).config,
            user_with_email(old(self)@.users, u.email@) is Some ==> r == Err::<(), AuthError>(AuthError::EmailTaken) && final(self)@ == old(self)@,
            user_with_email(old(self)@.users, u.email@) is None && user_with_id(old(self)@.users, u.id@) is Some
                ==> r == Err::<(), AuthError>(AuthError::Adapter(AdapterError::Conflict)) && final(self)@ == old(self)@,
            user_with_email(old(self)@.users, u.email@) is None && user_with_id(old(self)@.users, u.id@) is None
                ==> r is Ok && final(self)@ == (AuthView { users: old(self)@.users.push(u), ..old(self)@ }),
    {
        if self.find_user_by_email(u.email.as_str()).is_some() {
            return Err(AuthError::EmailTaken);
        }
        if self.find_user_by_id(u.id.as_str()).is_some() {
            return Err(AuthError::Adapter(AdapterError::Conflict));
        }
        let ghost o = self.users@;
        self.users.push(u);
        proof {
            let t = self.users@;
            assert forall|a: int, b: int| #![trigger t[a].id@, t[b].id@]
                0 <= a < t.len() && 0 <= b < t.len() && t[a].id@ == t[b].id@ implies a == b by {
                if a < o.len() && b == o.len() {
                    assert(o[a].id@ == u.id@);
                }
                if b < o.len() && a == o.len() {
                    assert(o[b].id@ == u.id@);
                }
            }
            assert forall|a: int, b: int| #![trigger t[a].email@, t[b].email@]
                0 <= a < t.len() && 0 <= b < t.len() && t[a].email@ == t[b].email@ implies a == b by {
                if a < o.len() && b == o.len() {
                    assert(o[a].email@ == u.email@);
                }
                if b < o.len() && a == o.len() {
                    assert(o[b].email@ == u.email@);
                }
            }
        }
        Ok(())
    }

    /// Answers a one-time-password challenge. The challenge token must be
    /// live and the one-time-password throttle of its user open; a right
    /// password consumes the token, establishes a session and clears the
    /// failed logins, a wrong one counts against the throttle and leaves
    /// the token for another try.
    pub fn verify_otp(&mut self, o: &Otp, now: u64, f: &Fresh) -> (r: Result<Session, AuthError>)
        requires
            old(self).wf(),
        ensures
            final(self).wf(),
            final(self).config == old(self).config,
            (final(self)@, r) == verify_otp_spec(old(self)@, *o, now, *f),
    {
        let uid = match self.token_subject_of(TokenKind::Otp, o.token.as_str(), now) {
            Some(x) => x,
            None => return Err(AuthError::InvalidToken(TokenKind::Otp)),
        };
        let i = match self.find_user_by_id(uid.as_str()) {
            Some(i) => i,
            None => return Err(AuthError::Adapter(AdapterError::DoesNotExist)),
        };
        if self.attempts(Action::Otp, self.users[i].id.as_str(), now) >= OTP_ATTEMPT_LIMIT {
            return Err(AuthError::RateExceeded);
        }
        let verdict = match &self.users[i].otp_secret {
            None => return Err(AuthError::InvalidToken(TokenKind::Otp)),
            Some(secret) => check_otp(o.password.as_str(), secret.as_str(), now),
        };
        match verdict {
            Err(e) => Err(AuthError::Crypto(e)),
            Ok(false) => {
                let id = self.users[i].id.clone();
                let _ = self.record_attempt(Action::Otp, &id, now, OTP_WINDOW);
                Err(AuthError::InvalidCredentials)
            },
            Ok(true) => {
                if Self::has_id(&self.sessions, f.session_id.as_str()) {
                    return Err(AuthError::Adapter(AdapterError::Conflict));
                }
                let u = self.users[i].duplicate();
                let ttl = if o.remember { REMEMBERED_SESSION_TTL } else { SESSION_TTL };
                let sess = Session {
                    id: f.session_id.clone(),
                    user_id: u.id,
                    csrf: f.csrf_token.clone(),
                    oauth_token: None,
                    provider: None,
                    expires_at: expiry_of(now, ttl),
                };
                self.drop_token_entry(TokenKind::Otp, o.token.as_str());
                let sess = self.establish_session(sess);
                self.clear_attempts(Action::Login, u.email.as_str());
                Ok(sess)
            },
        }
    }

    /// A bcrypt hash of a new password, or `None` where hashing failed.
    fn hash_new_password(&self, password: &str) -> (r: Option<String>)
        requires
            self.wf(),
        ensures
            r matches Some(h) ==> bcrypt_accepts(password@, h@),
    {
        match hash_password(password, self.config.hash_cost) {
            Ok(h) => Some(h),
            Err(_) => None,
        }
    }

    /// Starts a registration: a new unverified user, a registration token
    /// for them, and an email that carries it. Fails with `EmailTaken` where
    /// the email is in use. What follows the hashing of the password is
    /// `finish_registration`.
    pub fn start_registration(&mut self, d: &RegistrationData, now: u64, f: &Fresh) -> (r: Result<User, AuthError>)
        requires
            old(self).wf(),
        ensures
            final(self).wf(),
            final(self).config == old(self).config,
            exists|h: Option<String>, t: String|
                (h matches Some(x) ==> bcrypt_accepts(d.password@, x@))
                && t@ == token_of(old(self)@.reg_token_secret, f.user_id@)
                && (final(self)@, r) == registration_spec(old(self)@, *d, now, *f, h, t),
    {
        let t = issue_token(self.config.reg_token_secret.as_str(), f.user_id.as_str());
        let ghost none: Option<String> = None;
        if self.find_user_by_email(d.email.as_str()).is_some() {
            assert(registration_spec(old(self)@, *d, now, *f, none, t) == (self@, Err::<User, AuthError>(AuthError::EmailTaken)));
            return Err(AuthError::EmailTaken);
        }
        if self.find_user_by_id(f.user_id.as_str()).is_some() {
            assert(registration_spec(old(self)@, *d, now, *f, none, t)
                == (self@, Err::<User, AuthError>(AuthError::Adapter(AdapterError::Conflict))));
            return Err(AuthError::Adapter(AdapterError::Conflict));
        }
        match self.hash_new_password(d.password.as_str()) {
            Some(h) => {
                let ghost hg = Some(h);
                let ghost tg = t;
                let r = self.finish_registration(d, now, f, h, t);
                assert((self@, r) == registration_spec(old(self)@, *d, now, *f, hg, tg));
                r
            },
            None => {
                assert(registration_spec(old(self)@, *d, now, *f, none, t)
                    == (self@, Err::<User, AuthError>(AuthError::Adapter(AdapterError::Hashing))));
                Err(AuthError::Adapter(AdapterError::Hashing))
            },
        }
    }

    /// Registers with a password hash already made and the registration
    /// token issued: the new unverified user is recorded, the token stored
    /// and an email carrying it queued.
    pub fn finish_registration(
        &mut self,
        d: &RegistrationData,
        now: u64,
        f: &Fresh,
        hash: String,
        token: String,
    ) -> (r: Result<User, AuthError>)
        requires
            old(self).wf(),
        ensures
            final(self).wf(),
            final(self).config == old(self).config,
            (final(self)@, r) == registration_spec(old(self)@, *d, now, *f, Some(hash), token),
    {
        if self.find_user_by_email(d.email.as_str()).is_some() {
            return Err(AuthError::EmailTaken);
        }
        if self.find_user_by_id(f.user_id.as_str()).is_some() {
            return Err(AuthError::Adapter(AdapterError::Conflict));
        }
        let u = User {
            id: f.user_id.clone(),
            email: d.email.clone(),
            username: d.username.clone(),
            password: Some(hash),
            otp_secret: None,
            frozen: false,
            email_verified_at: None,
            created_at: now,
            updated_at: now,
        };
        let copy = u.duplicate();
        let _ = self.add_user(u);
        let e = TokenEntry {
            kind: TokenKind::Registration,
            key: token.clone(),
            subject: f.user_id.clone(),
            expires_at: expiry_of(now, REGISTRATION_TOKEN_TTL),
        };
        self.put_token_entry(e);
        self.outbox.push(Email { kind: EmailKind::RegistrationToken, to: d.email.clone(), username: d.username.clone(), token });
        Ok(copy)
    }

    /// Completes a registration: the live registration token, which must be
    /// the one the codec issues for its subject, marks that user's email
    /// verified and is consumed.
    pub fn verify_registration_token(&mut self, token: &String, now: u64) -> (r: Result<User, AuthError>)
        requires
            old(self).wf(),
        ensures
            final(self).wf(),
            final(self).config == old(self).config,
            (final(self)@, r) == verify_registration_spec(old(self)@, token@, now),
    {
        let uid = match self.token_subject_of(TokenKind::Registration, token.as_str(), now) {
            Some(x) => x,
            None => return Err(AuthError::InvalidToken(TokenKind::Registration)),
        };
        if !verify_token(self.config.reg_token_secret.as_str(), uid.as_str(), token.as_str()) {
            return Err(AuthError::InvalidToken(TokenKind::Registration));
        }
        let i = match self.find_user_by_id(uid.as_str()) {
            Some(i) => i,
            None => return Err(AuthError::Adapter(AdapterError::DoesNotExist)),
        };
        let mut u = self.users[i].duplicate();
        u.email_verified_at = Some(now);
        u.updated_at = now;
        let copy = u.duplicate();
        self.set_user(i, u);
        self.drop_token_entry(TokenKind::Registration, token.as_str());
        Ok(copy)
    }

    /// Sends the registration token of an unverified user once more, at
    /// most `EMAIL_LIMIT` times in an email window.
    pub fn resend_registration_token(&mut self, email: &String, now: u64) -> (r: Result<(), AuthError>)
        requires
            old(self).wf(),
        ensures
            final(self).wf(),
            final(self).config == old(self).config,
            exists|t: String|
                (user_with_email(old(self)@.users, email@) is Some ==> t@ == registration_token_for(old(self)@, email@))
                && (final(self)@, r) == resend_spec(old(self)@, *email, now, t),
    {
        let i = match self.find_user_by_email(email.as_str()) {
            Some(i) => i,
            None => {
                assert(resend_spec(old(self)@, *email, now, *email).1 == Err::<(), AuthError>(AuthError::Adapter(AdapterError::DoesNotExist)));
                return Err(AuthError::Adapter(AdapterError::DoesNotExist));
            },
        };
        let t = issue_token(self.config.reg_token_secret.as_str(), self.users[i].id.as_str());
        if self.users[i].email_verified_at.is_some() {
            assert(resend_spec(old(self)@, *email, now, t).1 == Err::<(), AuthError>(AuthError::AlreadyVerified));
            return Err(AuthError::AlreadyVerified);
        }
        if self.attempts(Action::Email, email.as_str(), now) >= EMAIL_LIMIT {
            assert(resend_spec(old(self)@, *email, now, t).1 == Err::<(), AuthError>(AuthError::RateExceeded));
            return Err(AuthError::RateExceeded);
        }
        let e = TokenEntry {
            kind: TokenKind::Registration,
            key: t.clone(),
            subject: self.users[i].id.clone(),
            expires_at: expiry_of(now, REGISTRATION_TOKEN_TTL),
        };
        let m = Email {
            kind: EmailKind::RegistrationToken,
            to: self.users[i].email.clone(),
            username: self.users[i].username.clone(),
            token: t.clone(),
        };
        self.put_token_entry(e);
        self.outbox.push(m);
        let _ = self.record_attempt(Action::Email, email, now, EMAIL_WINDOW);
        assert((self@, Ok::<(), AuthError>(())) == resend_spec(old(self)@, *email, now, t));
        Ok(())
    }

    /// Mails a forgot-password token (the caller's fresh token) to a known
    /// user, at most `EMAIL_LIMIT` times in an email window.
    pub fn forgot_password(&mut self, email: &String, now: u64, f: &Fresh) -> (r: Result<(), AuthError>)
        requires
            old(self).wf(),
        ensures
            final(self).wf(),
            final(self).config == old(self).config,
            (final(self)@, r) == forgot_password_spec(old(self)@, *email, now, *f),
    {
        let i = match self.find_user_by_email(email.as_str()) {
            Some(i) => i,
            None => return Err(AuthError::Adapter(AdapterError::DoesNotExist)),
        };
        if self.attempts(Action::Email, email.as_str(), now) >= EMAIL_LIMIT {
            return Err(AuthError::RateExceeded);
        }
        let e = TokenEntry {
            kind: TokenKind::Password,
            key: f.token.clone(),
            subject: self.users[i].id.clone(),
            expires_at: expiry_of(now, PASSWORD_TOKEN_TTL),
        };
        let m = Email {
            kind: EmailKind::ForgotPassword,
            to: self.users[i].email.clone(),
            username: self.users[i].username.clone(),
            token: f.token.clone(),
        };
        self.put_token_entry(e);
        self.outbox.push(m);
        let _ = self.record_attempt(Action::Email, email, now, EMAIL_WINDOW);
        Ok(())
    }

    /// Sets a new password with a forgot-password token: the token is
    /// consumed, every session of the user ends, and a new one is
    /// established. What follows the hashing of the new password is
    /// `finish_verify_forgot_password`.
    pub fn verify_forgot_password(&mut self, d: &ForgotPasswordVerify, now: u64, f: &Fresh) -> (r: Result<Session, AuthError>)
        requires
            old(self).wf(),
        ensures
            final(self).wf(),
            final(self).config == old(self).config,
            exists|h: Option<String>|
                (h matches Some(x) ==> bcrypt_accepts(d.password@, x@))
                && (final(self)@, r) == verify_forgot_password_spec(old(self)@, *d, now, *f, h),
    {
        let ghost none: Option<String> = None;
        let uid = match self.token_subject_of(TokenKind::Password, d.token.as_str(), now) {
            Some(x) => x,
            None => {
                assert(verify_forgot_password_spec(old(self)@, *d, now, *f, none).1
                    == Err::<Session, AuthError>(AuthError::InvalidToken(TokenKind::Password)));
                return Err(AuthError::InvalidToken(TokenKind::Password));
            },
        };
        if self.find_user_by_id(uid.as_str()).is_none() {
            assert(verify_forgot_password_spec(old(self)@, *d, now, *f, none).1
                == Err::<Session, AuthError>(AuthError::Adapter(AdapterError::DoesNotExist)));
            return Err(AuthError::Adapter(AdapterError::DoesNotExist));
        }
        if Self::has_id(&self.sessions, f.session_id.as_str()) {
            assert(verify_forgot_password_spec(old(self)@, *d, now, *f, none).1
                == Err::<Session, AuthError>(AuthError::Adapter(AdapterError::Conflict)));
            return Err(AuthError::Adapter(AdapterError::Conflict));
        }
        match self.hash_new_password(d.password.as_str()) {
            Some(h) => {
                let ghost hg = Some(h);
                let r = self.finish_verify_forgot_password(d, now, f, h);
                assert((self@, r) == verify_forgot_password_spec(old(self)@, *d, now, *f, hg));
                r
            },
            None => {
                assert(verify_forgot_password_spec(old(self)@, *d, now, *f, none).1
                    == Err::<Session, AuthError>(AuthError::Adapter(AdapterError::Hashing)));
                Err(AuthError::Adapter(AdapterError::Hashing))
            },
        }
    }

    /// Sets a new password, already hashed, with a forgot-password token:
    /// the token is consumed, every session of the user ends, and a new one
    /// is established.
    pub fn finish_verify_forgot_password(
        &mut self,
        d: &ForgotPasswordVerify,
        now: u64,
        f: &Fresh,
        hash: String,
    ) -> (r: Result<Session, AuthError>)
        requires
            old(self).wf(),
        ensures
            final(self).wf(),
            final(self).config == old(self).config,
            (final(self)@, r) == verify_forgot_password_spec(old(self)@, *d, now, *f, Some(hash)),
    {
        let ghost hg = Some(hash);
        let uid = match self.token_subject_of(TokenKind::Password, d.token.as_str(), now) {
            Some(x) => x,
            None => return Err(AuthError::InvalidToken(TokenKind::Password)),
        };
        let i = match self.find_user_by_id(uid.as_str()) {
            Some(i) => i,
            None => return Err(AuthError::Adapter(AdapterError::DoesNotExist)),
        };
        if Self::has_id(&self.sessions, f.session_id.as_str()) {
            return Err(AuthError::Adapter(AdapterError::Conflict));
        }
        let u = self.users[i].duplicate();
        let id = u.id.clone();
        let email = u.email.clone();
        let updated = User { password: Some(hash), updated_at: now, ..u };
        self.drop_token_entry(TokenKind::Password, d.token.as_str());
        self.set_user(i, updated);
        let ghost s1 = self@;
        let _ = self.purge_sessions(&id);
        proof {
            lemma_filter_no_new_id(s1.sessions, |x: Session| x.user_id@ != id@, f.session_id@);
        }
        let sess = Session {
            id: f.session_id.clone(),
            user_id: self.users[i].id.clone(),
            csrf: f.csrf_token.clone(),
            oauth_token: None,
            provider: None,
            expires_at: expiry_of(now, SESSION_TTL),
        };
        let sess = self.establish_session(sess);
        self.clear_attempts(Action::Login, email.as_str());
        assert((self@, Ok::<Session, AuthError>(sess)) == verify_forgot_password_spec(old(self)@, *d, now, *f, hg));
        Ok(sess)
    }

    /// Resets a password with a token: the password becomes the caller's
    /// fresh token, which is mailed to the user, the token is consumed and
    /// every session of the user ends. What follows the hashing of the new
    /// password is `finish_reset_password`.
    pub fn reset_password(&mut self, token: &String, now: u64, f: &Fresh) -> (r: Result<(), AuthError>)
        requires
            old(self).wf(),
        ensures
            final(self).wf(),
            final(self).config == old(self).config,
            exists|h: Option<String>|
                (h matches Some(x) ==> bcrypt_accepts(f.token@, x@))
                && (final(self)@, r) == reset_password_spec(old(self)@, token@, now, *f, h),
    {
        let ghost none: Option<String> = None;
        let uid = match self.token_subject_of(TokenKind::Password, token.as_str(), now) {
            Some(x) => x,
            None => {
                assert(reset_password_spec(old(self)@, token@, now, *f, none).1
                    == Err::<(), AuthError>(AuthError::InvalidToken(TokenKind::Password)));
                return Err(AuthError::InvalidToken(TokenKind::Password));
            },
        };
        if self.find_user_by_id(uid.as_str()).is_none() {
            assert(reset_password_spec(old(self)@, token@, now, *f, none).1
                == Err::<(), AuthError>(AuthError::Adapter(AdapterError::DoesNotExist)));
            return Err(AuthError::Adapter(AdapterError::DoesNotExist));
        }
        match self.hash_new_password(f.token.as_str()) {
            Some(h) => {
                let ghost hg = Some(h);
                let r = self.finish_reset_password(token, now, f, h);
                assert((self@, r) == reset_password_spec(old(self)@, token@, now, *f, hg));
                r
            },
            None => {
                assert(reset_password_spec(old(self)@, token@, now, *f, none).1
                    == Err::<(), AuthError>(AuthError::Adapter(AdapterError::Hashing)));
                Err(AuthError::Adapter(AdapterError::Hashing))
            },
        }
    }

    /// Resets a password with a token, given the hash of the temporary
    /// password (the caller's fresh token): the token is consumed, the
    /// temporary password is mailed and every session of the user ends.
    pub fn finish_reset_password(&mut self, token: &String, now: u64, f: &Fresh, hash: String) -> (r: Result<(), AuthError>)
        requires
            old(self).wf(),
        ensures
            final(self).wf(),
            final(self).config == old(self).config,
            (final(self)@, r) == reset_password_spec(old(self)@, token@, now, *f, Some(hash)),
    {
        let ghost hg = Some(hash);
        let uid = match self.token_subject_of(TokenKind::Password, token.as_str(), now) {
            Some(x) => x,
            None => return Err(AuthError::InvalidToken(TokenKind::Password)),
        };
        let i = match self.find_user_by_id(uid.as_str()) {
            Some(i) => i,
            None => return Err(AuthError::Adapter(AdapterError::DoesNotExist)),
        };
        let u = self.users[i].duplicate();
        let m = Email { kind: EmailKind::ResetPassword, to: u.email.clone(), username: u.username.clone(), token: f.token.clone() };
        let id = u.id.clone();
        let updated = User { password: Some(hash), updated_at: now, ..u };
        self.drop_token_entry(TokenKind::Password, token.as_str());
        self.set_user(i, updated);
        self.outbox.push(m);
        let _ = self.purge_sessions(&id);
        assert((self@, Ok::<(), AuthError>(())) == reset_password_spec(old(self)@, token@, now, *f, hg));
        Ok(())
    }

    /// Changes the password of a signed-in user: every session of the user
    /// ends, and an email tells them, with a password token (the caller's
    /// fresh token) should the change not be theirs. What follows the
    /// hashing of the new password is `finish_change_password`.
    pub fn change_password(&mut self, session: &Session, password: &String, now: u64, f: &Fresh) -> (r: Result<(), AuthError>)
        requires
            old(self).wf(),
        ensures
            final(self).wf(),
            final(self).config == old(self).config,
            exists|h: Option<String>|
                (h matches Some(x) ==> bcrypt_accepts(password@, x@))
                && (final(self)@, r) == change_password_spec(old(self)@, session.user_id@, now, *f, h),
    {
        let ghost none: Option<String> = None;
        if self.find_user_by_id(session.user_id.as_str()).is_none() {
            assert(change_password_spec(old(self)@, session.user_id@, now, *f, none).1
                == Err::<(), AuthError>(AuthError::Adapter(AdapterError::DoesNotExist)));
            return Err(AuthError::Adapter(AdapterError::DoesNotExist));
        }
        match self.hash_new_password(password.as_str()) {
            Some(h) => {
                let ghost hg = Some(h);
                let r = self.finish_change_password(&session.user_id, now, f, h);
                assert((self@, r) == change_password_spec(old(self)@, session.user_id@, now, *f, hg));
                r
            },
            None => {
                assert(change_password_spec(old(self)@, session.user_id@, now, *f, none).1
                    == Err::<(), AuthError>(AuthError::Adapter(AdapterError::Hashing)));
                Err(AuthError::Adapter(AdapterError::Hashing))
            },
        }
    }

    /// Changes the password of a user to one already hashed: every session
    /// of the user ends, a password token (the caller's fresh token) is
    /// stored, and an email carrying it tells the user.
    pub fn finish_change_password(&mut self, user_id: &String, now: u64, f: &Fresh, hash: String) -> (r: Result<(), AuthError>)
        requires
            old(self).wf(),
        ensures
            final(self).wf(),
            final(self).config == old(self).config,
            (final(self)@, r) == change_password_spec(old(self)@, user_id@, now, *f, Some(hash)),
    {
        let ghost hg = Some(hash);
        let i = match self.find_user_by_id(user_id.as_str()) {
            Some(i) => i,
            None => return Err(AuthError::Adapter(AdapterError::DoesNotExist)),
        };
        let u = self.users[i].duplicate();
        let e = TokenEntry {
            kind: TokenKind::Password,
            key: f.token.clone(),
            subject: u.id.clone(),
            expires_at: expiry_of(now, PASSWORD_TOKEN_TTL),
        };
        let m = Email { kind: EmailKind::PasswordChanged, to: u.email.clone(), username: u.username.clone(), token: f.token.clone() };
        let id = u.id.clone();
        let updated = User { password: Some(hash), updated_at: now, ..u };
        self.set_user(i, updated);
        let _ = self.purge_sessions(&id);
        self.put_token_entry(e);
        self.outbox.push(m);
        assert((self@, Ok::<(), AuthError>(())) == change_password_spec(old(self)@, user_id@, now, *f, hg));
        Ok(())
    }

    /// Logs out: the current session ends, or with `purge` every session of
    /// its user.
    pub fn logout(&mut self, session: &Session, purge: bool)
        requires
            old(self).wf(),
        ensures
            final(self).wf(),
            final(self).config == old(self).config,
            final(self)@ == logout_spec(old(self)@, *session, purge),
    {
        if purge {
            let _ = self.purge_sessions(&session.user_id);
        } else {
            self.invalidate_session(session.id.as_str());
        }
    }

    /// Enables one-time passwords for the signed-in user with the given
    /// base32 secret; from then on a right password leads to a challenge.
    pub fn set_otp_secret(&mut self, session: &Session, secret: String, now: u64) -> (r: Result<User, AuthError>)
        requires
            old(self).wf(),
        ensures
            final(self).wf(),
            final(self).config == old(self).config,
            (final(self)@, r) == set_otp_secret_spec(old(self)@, session.user_id@, secret, now),
    {
        let i = match self.find_user_by_id(session.user_id.as_str()) {
            Some(i) => i,
            None => return Err(AuthError::Adapter(AdapterError::DoesNotExist)),
        };
        let mut u = self.users[i].duplicate();
        u.otp_secret = Some(secret);
        u.updated_at = now;
        let copy = u.duplicate();
        self.set_user(i, u);
        Ok(copy)
    }
}

} // verus!
