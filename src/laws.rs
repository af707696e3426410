//! Properties that relate the flows to one another, proved over the
//! transitions that the flows' contracts state.
use vstd::prelude::*;
use crate::auth::{
    credentials_ok, fresh_session, login_spec, purge, registration_spec, session_ttl, verify_otp_spec,
    verify_registration_spec, Credentials, Fresh, LoginOutcome, Otp, RegistrationData, TwoFactorChallenge,
    LOGIN_ATTEMPT_LIMIT, LOGIN_WINDOW, OTP_TOKEN_TTL, REGISTRATION_TOKEN_TTL,
};
use crate::engine::{
    clear_counter, drop_token, has_session_id, hit_counter, live_count, put_session, put_token, saturating_inc, sessions_of,
    token_subject, validity_check, view_wf, AuthView,
};
use crate::model::{
    counter_at, counters_unique, expiry, token_at, tokens_unique, user_with_email, user_with_id, Action, AuthError, Session,
    TokenKind, User,
};
use crate::token::token_of;

verus! {

/// Once a token is dropped, none of its kind and key is left.
pub proof fn lemma_drop_token_gone(ts: Seq<crate::model::TokenEntry>, kind: TokenKind, key: Seq<char>)
    requires
        tokens_unique(ts),
    ensures
        token_at(drop_token(ts, kind, key), kind, key) is None,
{
    if let Some(i) = token_at(ts, kind, key) {
        let n = ts.remove(i);
        if exists|j: int| 0 <= j < n.len() && n[j].kind == kind && n[j].key@ == key {
            let j = choose|j: int| 0 <= j < n.len() && n[j].kind == kind && n[j].key@ == key;
            let oj = if j < i { j } else { j + 1 };
            assert(n[j] == ts[oj]);
            assert(ts[oj].key@ == ts[i].key@);
        }
    }
}

/// Once a counter is cleared, no attempt is counted for its action and
/// identity.
pub proof fn lemma_clear_counter_zero(cs: Seq<crate::model::Counter>, action: Action, identity: Seq<char>, now: u64)
    requires
        counters_unique(cs),
    ensures
        live_count(clear_counter(cs, action, identity), action, identity, now) == 0,
{
    if let Some(i) = counter_at(cs, action, identity) {
        let n = cs.remove(i);
        if exists|j: int| 0 <= j < n.len() && n[j].action == action && n[j].identity@ == identity {
            let j = choose|j: int| 0 <= j < n.len() && n[j].action == action && n[j].identity@ == identity;
            let oj = if j < i { j } else { j + 1 };
            assert(n[j] == cs[oj]);
            assert(cs[oj].identity@ == cs[i].identity@);
        }
    }
}

/// One more attempt raises the count of the current window by one (up to
/// the largest count), wherever a new window can open after `now`.
pub proof fn lemma_hit_counts_one_more(cs: Seq<crate::model::Counter>, action: Action, identity: String, now: u64, ttl: u64)
    requires
        counters_unique(cs),
        ttl > 0,
        now + ttl <= u64::MAX,
    ensures
        live_count(hit_counter(cs, action, identity, now, ttl), action, identity@, now)
            == saturating_inc(live_count(cs, action, identity@, now)),
{
    let n = hit_counter(cs, action, identity, now, ttl);
    match counter_at(cs, action, identity@) {
        Some(i) => {
            assert(n[i].action == action && n[i].identity@ == identity@);
            let c = choose|j: int| 0 <= j < n.len() && n[j].action == action && n[j].identity@ == identity@;
            if c != i {
                assert(n[c] == cs[c]);
                assert(cs[c].identity@ == cs[i].identity@);
            }
        },
        None => {
            let last = cs.len() as int;
            assert(n[last].action == action && n[last].identity@ == identity@);
            let c = choose|j: int| 0 <= j < n.len() && n[j].action == action && n[j].identity@ == identity@;
            if c != last {
                assert(n[c] == cs[c]);
            }
        },
    }
}

/// A stored token is found under its kind and key, live until it expires,
/// and the store keeps its keys unique.
pub proof fn lemma_put_token_found(ts: Seq<crate::model::TokenEntry>, e: crate::model::TokenEntry, now: u64)
    requires
        tokens_unique(ts),
    ensures
        tokens_unique(put_token(ts, e)),
        token_subject(put_token(ts, e), e.kind, e.key@, now) == if e.expires_at > now {
            Some(e.subject@)
        } else {
            None::<Seq<char>>
        },
{
    let n = put_token(ts, e);
    let at = match token_at(ts, e.kind, e.key@) {
        Some(i) => i,
        None => ts.len() as int,
    };
    assert(n[at] == e);
    assert forall|a: int, b: int| #![trigger n[a].key@, n[b].key@]
        0 <= a < n.len() && 0 <= b < n.len() && n[a].kind == n[b].kind && n[a].key@ == n[b].key@ implies a == b by {
        if a != at && b != at {
            assert(n[a] == ts[a] && n[b] == ts[b]);
        } else if a != at {
            assert(n[a] == ts[a]);
            if let Some(i) = token_at(ts, e.kind, e.key@) {
                assert(ts[a].key@ == ts[i].key@);
            }
        } else if b != at {
            assert(n[b] == ts[b]);
            if let Some(i) = token_at(ts, e.kind, e.key@) {
                assert(ts[b].key@ == ts[i].key@);
            }
        }
    }
    let c = choose|j: int| 0 <= j < n.len() && n[j].kind == e.kind && n[j].key@ == e.key@;
    assert(n[c].key@ == n[at].key@);
}

/// A registration issues a token that verifies the new user's email once:
/// verifying it while it lives returns the new user marked verified, and a
/// second verification with it fails with `InvalidToken`.
pub proof fn lemma_registration_round_trip(
    s: AuthView,
    d: RegistrationData,
    now: u64,
    f: Fresh,
    hash: String,
    token: String,
    later: u64,
    again: u64,
)
    requires
        view_wf(s),
        token@ == token_of(s.reg_token_secret, f.user_id@),
        registration_spec(s, d, now, f, Some(hash), token).1 is Ok,
        now <= later < expiry(now, REGISTRATION_TOKEN_TTL),
    ensures
        verify_registration_spec(registration_spec(s, d, now, f, Some(hash), token).0, token@, later).1
            == Ok::<User, AuthError>(User {
                email_verified_at: Some(later),
                updated_at: later,
                ..registration_spec(s, d, now, f, Some(hash), token).1->Ok_0
            }),
        verify_registration_spec(
            verify_registration_spec(registration_spec(s, d, now, f, Some(hash), token).0, token@, later).0,
            token@,
            again,
        ).1 == Err::<User, AuthError>(AuthError::InvalidToken(TokenKind::Registration)),
{
    let s1 = registration_spec(s, d, now, f, Some(hash), token).0;
    let u = registration_spec(s, d, now, f, Some(hash), token).1->Ok_0;
    let e = crate::model::TokenEntry {
        kind: TokenKind::Registration,
        key: token,
        subject: f.user_id,
        expires_at: expiry(now, REGISTRATION_TOKEN_TTL),
    };
    lemma_put_token_found(s.tokens, e, later);
    let last = s.users.len() as int;
    assert(s1.users[last] == u);
    assert forall|a: int, b: int| #![trigger s1.users[a].id@, s1.users[b].id@]
        0 <= a < s1.users.len() && 0 <= b < s1.users.len() && s1.users[a].id@ == s1.users[b].id@ implies a == b by {
        if a < last && b == last {
            assert(s1.users[a] == s.users[a]);
        } else if b < last && a == last {
            assert(s1.users[b] == s.users[b]);
        } else if a < last && b < last {
            assert(s1.users[a] == s.users[a] && s1.users[b] == s.users[b]);
        }
    }
    assert forall|a: int, b: int| #![trigger s1.users[a].email@, s1.users[b].email@]
        0 <= a < s1.users.len() && 0 <= b < s1.users.len() && s1.users[a].email@ == s1.users[b].email@ implies a == b by {
        if a < last && b == last {
            assert(s1.users[a] == s.users[a]);
        } else if b < last && a == last {
            assert(s1.users[b] == s.users[b]);
        } else if a < last && b < last {
            assert(s1.users[a] == s.users[a] && s1.users[b] == s.users[b]);
        }
    }
    assert(user_with_id(s1.users, f.user_id@) == Some(last)) by {
        let c = choose|j: int| 0 <= j < s1.users.len() && s1.users[j].id@ == f.user_id@;
        assert(s1.users[c].id@ == s1.users[last].id@);
    }
    lemma_registration_token_single_use(s1, token@, f.user_id@, later, again);
}

/// Right credentials of a user with a one-time-password secret, while the
/// email's attempts are under the limit and the account is not frozen, lead
/// to a step-up challenge and no session: the challenge carries the
/// caller's fresh token, which leads to the user until it expires.
pub proof fn lemma_login_step_up(s: AuthView, c: Credentials, now: u64, f: Fresh)
    requires
        view_wf(s),
        credentials_ok(s, c.email@, c.password@),
        live_count(s.counters, Action::Login, c.email@, now) < LOGIN_ATTEMPT_LIMIT,
        !s.users[user_with_email(s.users, c.email@)->Some_0].frozen,
        s.users[user_with_email(s.users, c.email@)->Some_0].otp_secret is Some,
    ensures
        ({
            let u = s.users[user_with_email(s.users, c.email@)->Some_0];
            let (s1, r) = login_spec(s, c, now, f);
            &&& r == Ok::<LoginOutcome, AuthError>(LoginOutcome::Challenge(
                TwoFactorChallenge { username: u.username, token: f.token, remember: c.remember },
            ))
            &&& s1.sessions == s.sessions
            &&& s1.cached == s.cached
            &&& s1.counters == s.counters
            &&& s1.users == s.users
            &&& now + OTP_TOKEN_TTL <= u64::MAX ==> token_subject(s1.tokens, TokenKind::Otp, f.token@, now) == Some(u.id@)
        }),
{
    let u = s.users[user_with_email(s.users, c.email@)->Some_0];
    let e = crate::model::TokenEntry { kind: TokenKind::Otp, key: f.token, subject: u.id, expires_at: expiry(now, OTP_TOKEN_TTL) };
    lemma_put_token_found(s.tokens, e, now);
}

/// Right credentials of a user without a one-time-password secret, while
/// the email's attempts are under the limit, the account is not frozen and
/// the fresh session id is free, establish a session: it is recorded and
/// cached, and the email's attempt count is cleared.
pub proof fn lemma_login_establishes_session(s: AuthView, c: Credentials, now: u64, f: Fresh)
    requires
        view_wf(s),
        credentials_ok(s, c.email@, c.password@),
        live_count(s.counters, Action::Login, c.email@, now) < LOGIN_ATTEMPT_LIMIT,
        !s.users[user_with_email(s.users, c.email@)->Some_0].frozen,
        s.users[user_with_email(s.users, c.email@)->Some_0].otp_secret is None,
        !has_session_id(s.sessions, f.session_id@),
    ensures
        ({
            let u = s.users[user_with_email(s.users, c.email@)->Some_0];
            let sess = fresh_session(f, u.id, expiry(now, session_ttl(c.remember)));
            let (s1, r) = login_spec(s, c, now, f);
            &&& r == Ok::<LoginOutcome, AuthError>(LoginOutcome::Authenticated(sess))
            &&& s1.sessions == s.sessions.push(sess)
            &&& s1.cached == put_session(s.cached, sess)
            &&& live_count(s1.counters, Action::Login, c.email@, now) == 0
            &&& s1.users == s.users
        }),
{
    lemma_clear_counter_zero(s.counters, Action::Login, c.email@, now);
}

/// Login does not tell an unknown email from a wrong password: both fail
/// with `InvalidCredentials` while the attempts of the email stay under the
/// limit, and both change nothing but that email's attempt counter.
pub proof fn lemma_login_rejects_alike(s: AuthView, c: Credentials, now: u64, f: Fresh)
    requires
        !credentials_ok(s, c.email@, c.password@),
        saturating_inc(live_count(s.counters, Action::Login, c.email@, now)) < LOGIN_ATTEMPT_LIMIT,
    ensures
        login_spec(s, c, now, f).1 == Err::<LoginOutcome, AuthError>(AuthError::InvalidCredentials),
        login_spec(s, c, now, f).0 == (AuthView {
            counters: hit_counter(s.counters, Action::Login, c.email, now, LOGIN_WINDOW),
            ..s
        }),
{
}

/// The login attempt counter of an email counts failed logins only: a
/// failed login adds one attempt, a successful one never adds any, and a
/// login that establishes a session clears it.
pub proof fn lemma_login_counter(s: AuthView, c: Credentials, now: u64, f: Fresh)
    requires
        view_wf(s),
    ensures
        !credentials_ok(s, c.email@, c.password@) ==> login_spec(s, c, now, f).0.counters
            == hit_counter(s.counters, Action::Login, c.email, now, LOGIN_WINDOW),
        !credentials_ok(s, c.email@, c.password@) && now + LOGIN_WINDOW <= u64::MAX
            ==> live_count(login_spec(s, c, now, f).0.counters, Action::Login, c.email@, now)
                == saturating_inc(live_count(s.counters, Action::Login, c.email@, now)),
        login_spec(s, c, now, f).1 is Ok ==> login_spec(s, c, now, f).0.counters == s.counters
            || login_spec(s, c, now, f).0.counters == clear_counter(s.counters, Action::Login, c.email@),
        login_spec(s, c, now, f).1 matches Ok(LoginOutcome::Authenticated(_))
            ==> live_count(login_spec(s, c, now, f).0.counters, Action::Login, c.email@, now) == 0,
{
    if !credentials_ok(s, c.email@, c.password@) && now + LOGIN_WINDOW <= u64::MAX {
        lemma_hit_counts_one_more(s.counters, Action::Login, c.email, now, LOGIN_WINDOW);
    }
    lemma_clear_counter_zero(s.counters, Action::Login, c.email@, now);
}

/// A registration token verifies once: it marks the email of exactly the
/// user it was issued for as verified, and a second verification with it
/// fails with `InvalidToken`.
pub proof fn lemma_registration_token_single_use(s: AuthView, token: Seq<char>, user_id: Seq<char>, now: u64, later: u64)
    requires
        view_wf(s),
        token_subject(s.tokens, TokenKind::Registration, token, now) == Some(user_id),
        token == token_of(s.reg_token_secret, user_id),
        user_with_id(s.users, user_id) is Some,
    ensures
        verify_registration_spec(s, token, now).1 is Ok,
        verify_registration_spec(s, token, now).0.users.len() == s.users.len(),
        forall|j: int| 0 <= j < s.users.len() ==> {
            let u = #[trigger] verify_registration_spec(s, token, now).0.users[j];
            if s.users[j].id@ == user_id {
                u == (User { email_verified_at: Some(now), updated_at: now, ..s.users[j] })
            } else {
                u == s.users[j]
            }
        },
        verify_registration_spec(verify_registration_spec(s, token, now).0, token, later).1
            == Err::<User, AuthError>(AuthError::InvalidToken(TokenKind::Registration)),
{
    let i = user_with_id(s.users, user_id)->Some_0;
    assert forall|j: int| 0 <= j < s.users.len() && s.users[j].id@ == user_id implies j == i by {
        assert(s.users[j].id@ == s.users[i].id@);
    }
    lemma_drop_token_gone(s.tokens, TokenKind::Registration, token);
}

/// A one-time-password challenge token serves one login: after a
/// successful answer, any answer with the same token fails.
pub proof fn lemma_otp_token_single_use(s: AuthView, o: Otp, now: u64, f: Fresh, o2: Otp, later: u64, f2: Fresh)
    requires
        view_wf(s),
        verify_otp_spec(s, o, now, f).1 is Ok,
        o2.token@ == o.token@,
    ensures
        verify_otp_spec(verify_otp_spec(s, o, now, f).0, o2, later, f2).1
            == Err::<Session, AuthError>(AuthError::InvalidToken(TokenKind::Otp)),
{
    lemma_drop_token_gone(s.tokens, TokenKind::Otp, o.token@);
}

/// After the sessions of a user are purged, the validity check reports
/// every one of them invalid, from the cache and from the records alike,
/// and changes nothing.
pub proof fn lemma_purged_sessions_invalid(st: AuthView, user_id: Seq<char>, id: Seq<char>, now: u64)
    requires
        view_wf(st),
        has_session_id(sessions_of(st.sessions, user_id), id),
    ensures
        validity_check(purge(st, user_id), id, now) == (purge(st, user_id), false),
{
    let p = purge(st, user_id);
    let gone = sessions_of(st.sessions, user_id);
    crate::engine::lemma_session_filters(st.sessions, user_id, st.cached, gone);
    let k = choose|k: int| 0 <= k < gone.len() && gone[k].id@ == id;
    assert(st.sessions.contains(gone[k]));
    let g = choose|g: int| 0 <= g < st.sessions.len() && st.sessions[g] == gone[k];
    if has_session_id(p.cached, id) {
        let j = choose|j: int| 0 <= j < p.cached.len() && p.cached[j].id@ == id;
        assert(!has_session_id(gone, p.cached[j].id@));
    }
    if has_session_id(p.sessions, id) {
        let j = choose|j: int| 0 <= j < p.sessions.len() && p.sessions[j].id@ == id;
        assert(st.sessions.contains(p.sessions[j]));
        let h = choose|h: int| 0 <= h < st.sessions.len() && st.sessions[h] == p.sessions[j];
        assert(st.sessions[h].id@ == st.sessions[g].id@);
    }
}

} // verus!
