use vstd::prelude::*;
use crate::auth::{establish, Fresh};
use crate::engine::{has_session_id, put_session, AuthView, Authentication};
use crate::model::{
    expiry, expiry_of, link_at, link_of_user, links_unique, user_with_email, user_with_id, AdapterError,
    AuthError, OAuthLink, Provider, Session, TokenKind, User,
};
use crate::text::str_eq;

verus! {

/// The account that a provider reports; `email` is none where the provider
/// has no verified email for it.
pub struct ProviderAccount {
    pub id: String,
    pub email: Option<String>,
    pub username: String,
}

/// The tokens a provider hands out for an authorization code or a refresh.
pub struct TokenResponse {
    pub access_token: String,
    pub refresh_token: Option<String>,
    pub expires_in: u64,
}

/// The next step of an OAuth login.
pub enum OAuthStep {
    /// A session was established.
    Established(Session),
    /// The stored access token has expired: the caller refreshes it with the
    /// provider and hands the result to `oauth_refreshed`.
    Refresh { user_id: String, refresh_token: String },
}

/// The session an OAuth login establishes.
pub open spec fn oauth_session(f: Fresh, user_id: String, provider: Provider, t: TokenResponse, now: u64) -> Session {
    Session {
        id: f.session_id,
        user_id,
        csrf: f.csrf_token,
        oauth_token: Some(t.access_token),
        provider: Some(provider),
        expires_at: expiry(now, t.expires_in),
    }
}

/// A link carrying new tokens; a missing refresh token keeps the old one.
pub open spec fn refreshed_link(l: OAuthLink, t: TokenResponse, now: u64) -> OAuthLink {
    OAuthLink {
        access_token: t.access_token,
        refresh_token: match t.refresh_token {
            Some(r) => Some(r),
            None => l.refresh_token,
        },
        expires_at: expiry(now, t.expires_in),
        ..l
    }
}

/// Every session of the user with this provider carries the access token.
pub open spec fn retoken(ss: Seq<Session>, user_id: Seq<char>, provider: Provider, token: String) -> Seq<Session> {
    ss.map_values(|x: Session|
        if x.user_id@ == user_id && x.provider == Some(provider) {
            Session { oauth_token: Some(token), ..x }
        } else {
            x
        })
}

/// What an OAuth login does and returns.
pub open spec fn oauth_login_spec(
    s: AuthView,
    provider: Provider,
    a: ProviderAccount,
    t: TokenResponse,
    now: u64,
    f: Fresh,
) -> (AuthView, Result<OAuthStep, AuthError>) {
    match a.email {
        None => (s, Err(AuthError::EmailUnverified)),
        Some(email) => if has_session_id(s.sessions, f.session_id@) {
            (s, Err(AuthError::Adapter(AdapterError::Conflict)))
        } else {
            match link_at(s.links, provider, a.id@) {
                Some(k) => {
                    let l = s.links[k];
                    if user_with_id(s.users, l.user_id@) is None {
                        (s, Err(AuthError::Adapter(AdapterError::DoesNotExist)))
                    } else if l.expires_at > now {
                        let sess = oauth_session(f, l.user_id, provider, t, now);
                        (establish(s, sess), Ok(OAuthStep::Established(sess)))
                    } else {
                        match l.refresh_token {
                            Some(rt) => (s, Ok(OAuthStep::Refresh { user_id: l.user_id, refresh_token: rt })),
                            None => {
                                let sess = oauth_session(f, l.user_id, provider, t, now);
                                let s1 = AuthView { links: s.links.update(k, refreshed_link(l, t, now)), ..s };
                                (establish(s1, sess), Ok(OAuthStep::Established(sess)))
                            },
                        }
                    }
                },
                None => {
                    let known = user_with_email(s.users, email@);
                    let uid = match known {
                        Some(i) => s.users[i].id,
                        None => f.user_id,
                    };
                    if known is None && user_with_id(s.users, f.user_id@) is Some {
                        (s, Err(AuthError::Adapter(AdapterError::Conflict)))
                    } else if link_of_user(s.links, uid@, provider) is Some {
                        (s, Err(AuthError::Adapter(AdapterError::Conflict)))
                    } else {
                        let users = match known {
                            Some(i) => s.users,
                            None => s.users.push(User {
                                id: f.user_id,
                                email,
                                username: a.username,
                                password: None,
                                otp_secret: None,
                                frozen: false,
                                email_verified_at: Some(now),
                                created_at: now,
                                updated_at: now,
                            }),
                        };
                        let l = OAuthLink {
                            user_id: uid,
                            provider,
                            account_id: a.id,
                            access_token: t.access_token,
                            refresh_token: t.refresh_token,
                            expires_at: expiry(now, t.expires_in),
                        };
                        let sess = oauth_session(f, uid, provider, t, now);
                        (establish(AuthView { users, links: s.links.push(l), ..s }, sess), Ok(OAuthStep::Established(sess)))
                    }
                },
            }
        },
    }
}

/// What finishing an OAuth login with refreshed tokens does and returns.
pub open spec fn oauth_refreshed_spec(
    s: AuthView,
    provider: Provider,
    user_id: String,
    t: TokenResponse,
    now: u64,
    f: Fresh,
) -> (AuthView, Result<Session, AuthError>) {
    if has_session_id(s.sessions, f.session_id@) {
        (s, Err(AuthError::Adapter(AdapterError::Conflict)))
    } else {
        match link_of_user(s.links, user_id@, provider) {
            None => (s, Err(AuthError::Adapter(AdapterError::DoesNotExist))),
            Some(k) => {
                let l = s.links[k];
                let s1 = AuthView {
                    links: s.links.update(k, refreshed_link(l, t, now)),
                    sessions: retoken(s.sessions, user_id@, provider, t.access_token),
                    ..s
                };
                let sess = oauth_session(f, l.user_id, provider, t, now);
                (establish(s1, sess), Ok(sess))
            },
        }
    }
}

/// What asking for more scopes does and returns.
pub open spec fn additional_scopes_spec(
    s: AuthView,
    session: Session,
    provider: Provider,
    t: TokenResponse,
    now: u64,
) -> (AuthView, Result<Session, AuthError>) {
    if session.oauth_token is None || !has_session_id(s.sessions, session.id@) {
        (s, Err(AuthError::InvalidToken(TokenKind::OAuth)))
    } else {
        match link_of_user(s.links, session.user_id@, provider) {
            None => (s, Err(AuthError::Adapter(AdapterError::DoesNotExist))),
            Some(k) => {
                let updated = Session { oauth_token: Some(t.access_token), ..session };
                (
                    AuthView {
                        sessions: retoken(s.sessions, session.user_id@, provider, t.access_token),
                        links: s.links.update(k, refreshed_link(s.links[k], t, now)),
                        cached: put_session(s.cached, updated),
                        ..s
                    },
                    Ok(updated),
                )
            },
        }
    }
}

impl Authentication {
    pub fn find_link(&self, provider: Provider, account_id: &str) -> (r: Option<usize>)
        requires
            links_unique(self.links@),
        ensures
            r matches Some(i) ==> link_at(self.links@, provider, account_id@) == Some(i as int),
            r is None ==> link_at(self.links@, provider, account_id@) is None,
    {
        let mut i: usize = 0;
        while i < self.links.len()
            invariant
                i <= self.links@.len(),
                links_unique(self.links@),
                forall|j: int| 0 <= j < i ==> !(self.links@[j].provider == provider && self.links@[j].account_id@ == account_id@),
            decreases self.links@.len() - i,
        {
            if self.links[i].provider == provider && str_eq(self.links[i].account_id.as_str(), account_id) {
                proof {
                    assert(0 <= i < self.links@.len() && self.links@[i as int].provider == provider
                        && self.links@[i as int].account_id@ == account_id@);
                    let c = choose|j: int| 0 <= j < self.links@.len() && self.links@[j].provider == provider
                        && self.links@[j].account_id@ == account_id@;
                    assert(self.links@[c].account_id@ == self.links@[i as int].account_id@);
                }
                return Some(i);
            }
            i = i + 1;
        }
        None
    }

    pub fn find_link_of_user(&self, user_id: &str, provider: Provider) -> (r: Option<usize>)
        requires
            links_unique(self.links@),
        ensures
            r matches Some(i) ==> link_of_user(self.links@, user_id@, provider) == Some(i as int),
            r is None ==> link_of_user(self.links@, user_id@, provider) is None,
    {
        let mut i: usize = 0;
        while i < self.links.len()
            invariant
                i <= self.links@.len(),
                links_unique(self.links@),
                forall|j: int| 0 <= j < i ==> !(self.links@[j].user_id@ == user_id@ && self.links@[j].provider == provider),
            decreases self.links@.len() - i,
        {
            if self.links[i].provider == provider && str_eq(self.links[i].user_id.as_str(), user_id) {
                proof {
                    assert(0 <= i < self.links@.len() && self.links@[i as int].provider == provider
                        && self.links@[i as int].user_id@ == user_id@);
                    let c = choose|j: int| 0 <= j < self.links@.len() && self.links@[j].user_id@ == user_id@
                        && self.links@[j].provider == provider;
                    assert(self.links@[c].user_id@ == self.links@[i as int].user_id@);
                }
                return Some(i);
            }
            i = i + 1;
        }
        None
    }

    /// Gives the link at `k` new tokens.
    fn refresh_link(&mut self, k: usize, t: &TokenResponse, now: u64)
        requires
            old(self).wf(),
            k < old(self)@.links.len(),
        ensures
            final(self).wf(),
            final(self).config == old(self).config,
            final(self)@ == (AuthView { links: old(self)@.links.update(k as int, refreshed_link(old(self)@.links[k as int], *t, now)), ..old(self)@ }),
    {
        let ghost o = self.links@;
        let l = &self.links[k];
        let refresh_token = match &t.refresh_token {
            Some(r) => Some(r.clone()),
            None => crate::model::copy_opt(&l.refresh_token),
        };
        let next = OAuthLink {
            user_id: l.user_id.clone(),
            provider: l.provider,
            account_id: l.account_id.clone(),
            access_token: t.access_token.clone(),
            refresh_token,
            expires_at: expiry_of(now, t.expires_in),
        };
        self.links.set(k, next);
        proof {
            let n = self.links@;
            assert forall|a: int, b: int| #![trigger n[a].account_id@, n[b].account_id@]
                0 <= a < n.len() && 0 <= b < n.len() && n[a].provider == n[b].provider && n[a].account_id@ == n[b].account_id@ implies a == b by {
                assert(n[a].account_id@ == o[a].account_id@ && n[b].account_id@ == o[b].account_id@);
            }
            assert forall|a: int, b: int| #![trigger n[a].user_id@, n[b].user_id@]
                0 <= a < n.len() && 0 <= b < n.len() && n[a].provider == n[b].provider && n[a].user_id@ == n[b].user_id@ implies a == b by {
                assert(n[a].user_id@ == o[a].user_id@ && n[b].user_id@ == o[b].user_id@);
            }
        }
    }

    /// Gives every session of the user with this provider the access token.
    fn retoken_sessions(&mut self, user_id: &str, provider: Provider, token: &String)
        requires
            old(self).wf(),
        ensures
            final(self).wf(),
            final(self).config == old(self).config,
            final(self)@ == (AuthView { sessions: retoken(old(self)@.sessions, user_id@, provider, *token), ..old(self)@ }),
    {
        let ghost o = self.sessions@;
        let ghost g = |x: Session|
            if x.user_id@ == user_id@ && x.provider == Some(provider) {
                Session { oauth_token: Some(*token), ..x }
            } else {
                x
            };
        let mut i: usize = 0;
        while i < self.sessions.len()
            invariant
                self.wf(),
                self.config == old(self).config,
                self@ == (AuthView { sessions: self@.sessions, ..old(self)@ }),
                self.sessions@.len() == o.len(),
                i <= o.len(),
                g == (|x: Session|
                    if x.user_id@ == user_id@ && x.provider == Some(provider) {
                        Session { oauth_token: Some(*token), ..x }
                    } else {
                        x
                    }),
                forall|j: int| 0 <= j < i ==> self.sessions@[j] == g(o[j]),
                forall|j: int| i <= j < o.len() ==> self.sessions@[j] == o[j],
            decreases o.len() - i,
        {
            if self.sessions[i].provider == Some(provider) && str_eq(self.sessions[i].user_id.as_str(), user_id) {
                let mut x = self.sessions[i].duplicate();
                x.oauth_token = Some(token.clone());
                let ghost before = self.sessions@;
                self.sessions.set(i, x);
                proof {
                    let n = self.sessions@;
                    assert forall|a: int, b: int| #![trigger n[a].id@, n[b].id@]
                        0 <= a < n.len() && 0 <= b < n.len() && n[a].id@ == n[b].id@ implies a == b by {
                        assert(n[a].id@ == before[a].id@ && n[b].id@ == before[b].id@);
                    }
                }
            }
            i = i + 1;
        }
        proof {
            assert(self.sessions@ =~= o.map_values(g));
        }
    }

    fn new_oauth_session(f: &Fresh, user_id: &String, provider: Provider, t: &TokenResponse, now: u64) -> (r: Session)
        ensures
            r == oauth_session(*f, *user_id, provider, *t, now),
    {
        Session {
            id: f.session_id.clone(),
            user_id: user_id.clone(),
            csrf: f.csrf_token.clone(),
            oauth_token: Some(t.access_token.clone()),
            provider: Some(provider),
            expires_at: expiry_of(now, t.expires_in),
        }
    }

    /// Logs in with the account and tokens a provider handed out for an
    /// authorization code. An account without a verified email fails with
    /// `EmailUnverified` and changes nothing. An account seen before logs in
    /// its linked user; where the stored token has expired and a refresh
    /// token is kept, the caller is asked to refresh. A new account is linked
    /// to the user with its email, or to a new user made from it.
    pub fn oauth_login(
        &mut self,
        provider: Provider,
        a: &ProviderAccount,
        t: &TokenResponse,
        now: u64,
        f: &Fresh,
    ) -> (r: Result<OAuthStep, AuthError>)
        requires
            old(self).wf(),
        ensures
            final(self).wf(),
            final(self).config == old(self).config,
            (final(self)@, r) == oauth_login_spec(old(self)@, provider, *a, *t, now, *f),
    {
        let email = match &a.email {
            Some(e) => e,
            None => return Err(AuthError::EmailUnverified),
        };
        if Self::has_id(&self.sessions, f.session_id.as_str()) {
            return Err(AuthError::Adapter(AdapterError::Conflict));
        }
        match self.find_link(provider, a.id.as_str()) {
            Some(k) => {
                let uid = self.links[k].user_id.clone();
                if self.find_user_by_id(uid.as_str()).is_none() {
                    return Err(AuthError::Adapter(AdapterError::DoesNotExist));
                }
                if self.links[k].expires_at <= now {
                    match &self.links[k].refresh_token {
                        Some(rt) => {
                            return Ok(OAuthStep::Refresh { user_id: uid, refresh_token: rt.clone() });
                        },
                        None => {
                            self.refresh_link(k, t, now);
                        },
                    }
                }
                let sess = Self::new_oauth_session(f, &uid, provider, t, now);
                let sess = self.establish_session(sess);
                Ok(OAuthStep::Established(sess))
            },
            None => {
                let known = self.find_user_by_email(email.as_str());
                let uid = match known {
                    Some(i) => self.users[i].id.clone(),
                    None => f.user_id.clone(),
                };
                if known.is_none() && self.find_user_by_id(f.user_id.as_str()).is_some() {
                    return Err(AuthError::Adapter(AdapterError::Conflict));
                }
                if self.find_link_of_user(uid.as_str(), provider).is_some() {
                    return Err(AuthError::Adapter(AdapterError::Conflict));
                }
                if known.is_none() {
                    let u = User {
                        id: f.user_id.clone(),
                        email: email.clone(),
                        username: a.username.clone(),
                        password: None,
                        otp_secret: None,
                        frozen: false,
                        email_verified_at: Some(now),
                        created_at: now,
                        updated_at: now,
                    };
                    let _ = self.add_user(u);
                }
                let l = OAuthLink {
                    user_id: uid.clone(),
                    provider,
                    account_id: a.id.clone(),
                    access_token: t.access_token.clone(),
                    refresh_token: crate::model::copy_opt(&t.refresh_token),
                    expires_at: expiry_of(now, t.expires_in),
                };
                let ghost o = self.links@;
                self.links.push(l);
                proof {
                    let n = self.links@;
                    assert forall|x: int, y: int| #![trigger n[x].account_id@, n[y].account_id@]
                        0 <= x < n.len() && 0 <= y < n.len() && n[x].provider == n[y].provider && n[x].account_id@ == n[y].account_id@ implies x == y by {
                        if x < o.len() && y == o.len() {
                            assert(o[x].provider == provider && o[x].account_id@ == a.id@);
                        }
                        if y < o.len() && x == o.len() {
                            assert(o[y].provider == provider && o[y].account_id@ == a.id@);
                        }
                    }
                    assert forall|x: int, y: int| #![trigger n[x].user_id@, n[y].user_id@]
                        0 <= x < n.len() && 0 <= y < n.len() && n[x].provider == n[y].provider && n[x].user_id@ == n[y].user_id@ implies x == y by {
                        if x < o.len() && y == o.len() {
                            assert(o[x].user_id@ == uid@ && o[x].provider == provider);
                        }
                        if y < o.len() && x == o.len() {
                            assert(o[y].user_id@ == uid@ && o[y].provider == provider);
                        }
                    }
                }
                let sess = Self::new_oauth_session(f, &uid, provider, t, now);
                let sess = self.establish_session(sess);
                Ok(OAuthStep::Established(sess))
            },
        }
    }

    /// Finishes an OAuth login after the caller refreshed an expired token:
    /// the link and every session of the user with this provider take the
    /// new access token, and a session is established.
    pub fn oauth_refreshed(
        &mut self,
        provider: Provider,
        user_id: &String,
        t: &TokenResponse,
        now: u64,
        f: &Fresh,
    ) -> (r: Result<Session, AuthError>)
        requires
            old(self).wf(),
        ensures
            final(self).wf(),
            final(self).config == old(self).config,
            (final(self)@, r) == oauth_refreshed_spec(old(self)@, provider, *user_id, *t, now, *f),
    {
        if Self::has_id(&self.sessions, f.session_id.as_str()) {
            return Err(AuthError::Adapter(AdapterError::Conflict));
        }
        let k = match self.find_link_of_user(user_id.as_str(), provider) {
            Some(k) => k,
            None => return Err(AuthError::Adapter(AdapterError::DoesNotExist)),
        };
        let uid = self.links[k].user_id.clone();
        self.refresh_link(k, t, now);
        let ghost s0 = self@;
        self.retoken_sessions(user_id.as_str(), provider, &t.access_token);
        proof {
            assert forall|j: int| 0 <= j < self@.sessions.len() implies self@.sessions[j].id@ != f.session_id@ by {
                assert(self@.sessions[j].id@ == s0.sessions[j].id@);
            }
        }
        let sess = Self::new_oauth_session(f, &uid, provider, t, now);
        let sess = self.establish_session(sess);
        Ok(sess)
    }

    /// Takes the token of a wider authorization for a session that carries an
    /// OAuth token: every session of its user with this provider and the
    /// link take the new access token, and the current session is cached
    /// with it; the cached copies of the other sessions are left as they
    /// are until they are next read from the records.
    pub fn request_additional_scopes(
        &mut self,
        session: &Session,
        provider: Provider,
        t: &TokenResponse,
        now: u64,
    ) -> (r: Result<Session, AuthError>)
        requires
            old(self).wf(),
        ensures
            final(self).wf(),
            final(self).config == old(self).config,
            (final(self)@, r) == additional_scopes_spec(old(self)@, *session, provider, *t, now),
    {
        if session.oauth_token.is_none() || !Self::has_id(&self.sessions, session.id.as_str()) {
            return Err(AuthError::InvalidToken(TokenKind::OAuth));
        }
        let k = match self.find_link_of_user(session.user_id.as_str(), provider) {
            Some(k) => k,
            None => return Err(AuthError::Adapter(AdapterError::DoesNotExist)),
        };
        self.retoken_sessions(session.user_id.as_str(), provider, &t.access_token);
        self.refresh_link(k, t, now);
        let mut updated = session.duplicate();
        updated.oauth_token = Some(t.access_token.clone());
        let copy = updated.duplicate();
        self.cache_session(updated);
        Ok(copy)
    }
}

} // verus!
