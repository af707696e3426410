use vstd::prelude::*;
use crate::model::{
    counter_at, counters_unique, expiry, expiry_of, links_unique, session_with_id, sessions_unique, token_at,
    tokens_unique, user_with_email, user_with_id, users_unique, Action, Counter, Email, OAuthLink,
    Session, TokenEntry, TokenKind, User, AdapterError, AuthError,
};
use crate::password::{MAX_COST, MIN_COST};
use crate::text::str_eq;

verus! {

/// Settings of the engine that no flow changes.
pub struct AuthConfig {
    /// Key of the registration-token codec.
    pub reg_token_secret: String,
    /// bcrypt work factor for new password hashes.
    pub hash_cost: u32,
}

/// The authentication engine: the authoritative records (users, sessions,
/// OAuth links), the cache beside them (single-use tokens, cached sessions,
/// throttle counters), and the emails the flows have queued.
pub struct Authentication {
    pub users: Vec<User>,
    pub sessions: Vec<Session>,
    pub links: Vec<OAuthLink>,
    pub tokens: Vec<TokenEntry>,
    pub cached: Vec<Session>,
    pub counters: Vec<Counter>,
    pub outbox: Vec<Email>,
    pub config: AuthConfig,
}

/// The engine's state as plain sequences.
pub struct AuthView {
    pub users: Seq<User>,
    pub sessions: Seq<Session>,
    pub links: Seq<OAuthLink>,
    pub tokens: Seq<TokenEntry>,
    pub cached: Seq<Session>,
    pub counters: Seq<Counter>,
    pub outbox: Seq<Email>,
    pub reg_token_secret: Seq<char>,
}

impl View for Authentication {
    type V = AuthView;

    open spec fn view(&self) -> AuthView {
        AuthView {
            users: self.users@,
            sessions: self.sessions@,
            links: self.links@,
            tokens: self.tokens@,
            cached: self.cached@,
            counters: self.counters@,
            outbox: self.outbox@,
            reg_token_secret: self.config.reg_token_secret@,
        }
    }
}

/// Every store keeps its keys unique.
pub open spec fn view_wf(s: AuthView) -> bool {
    &&& users_unique(s.users)
    &&& sessions_unique(s.sessions)
    &&& sessions_unique(s.cached)
    &&& tokens_unique(s.tokens)
    &&& counters_unique(s.counters)
    &&& links_unique(s.links)
}

// State updates, as functions on sequences.

pub open spec fn put_token(ts: Seq<TokenEntry>, e: TokenEntry) -> Seq<TokenEntry> {
    match token_at(ts, e.kind, e.key@) {
        Some(i) => ts.update(i, e),
        None => ts.push(e),
    }
}

pub open spec fn drop_token(ts: Seq<TokenEntry>, kind: TokenKind, key: Seq<char>) -> Seq<TokenEntry> {
    match token_at(ts, kind, key) {
        Some(i) => ts.remove(i),
        None => ts,
    }
}

/// The subject of the live token of this kind and key, if there is one.
pub open spec fn token_subject(ts: Seq<TokenEntry>, kind: TokenKind, key: Seq<char>, now: u64) -> Option<Seq<char>> {
    match token_at(ts, kind, key) {
        Some(i) => if ts[i].expires_at > now { Some(ts[i].subject@) } else { None },
        None => None,
    }
}

/// The attempts counted for an action and identity in the current window.
pub open spec fn live_count(cs: Seq<Counter>, action: Action, identity: Seq<char>, now: u64) -> u64 {
    match counter_at(cs, action, identity) {
        Some(i) => if cs[i].expires_at > now { cs[i].count } else { 0 },
        None => 0,
    }
}

pub open spec fn saturating_inc(n: u64) -> u64 {
    if n < u64::MAX { (n + 1) as u64 } else { n }
}

/// One more attempt: a live window counts up and keeps its expiry; otherwise a
/// new window opens with a count of one.
pub open spec fn hit_counter(cs: Seq<Counter>, action: Action, identity: String, now: u64, ttl: u64) -> Seq<Counter> {
    let fresh = Counter { action, identity, count: 1, expires_at: expiry(now, ttl) };
    match counter_at(cs, action, identity@) {
        Some(i) => if cs[i].expires_at > now {
            cs.update(i, Counter { count: saturating_inc(cs[i].count), ..cs[i] })
        } else {
            cs.update(i, fresh)
        },
        None => cs.push(fresh),
    }
}

pub open spec fn clear_counter(cs: Seq<Counter>, action: Action, identity: Seq<char>) -> Seq<Counter> {
    match counter_at(cs, action, identity) {
        Some(i) => cs.remove(i),
        None => cs,
    }
}

pub open spec fn put_session(ss: Seq<Session>, s: Session) -> Seq<Session> {
    match session_with_id(ss, s.id@) {
        Some(i) => ss.update(i, s),
        None => ss.push(s),
    }
}

pub open spec fn has_session_id(ss: Seq<Session>, id: Seq<char>) -> bool {
    exists|k: int| 0 <= k < ss.len() && ss[k].id@ == id
}

/// The sessions whose id is not among those of `gone`.
pub open spec fn without_ids(ss: Seq<Session>, gone: Seq<Session>) -> Seq<Session> {
    ss.filter(|c: Session| !has_session_id(gone, c.id@))
}

pub open spec fn sessions_of(ss: Seq<Session>, user_id: Seq<char>) -> Seq<Session> {
    ss.filter(|s: Session| s.user_id@ == user_id)
}

pub open spec fn sessions_not_of(ss: Seq<Session>, user_id: Seq<char>) -> Seq<Session> {
    ss.filter(|s: Session| s.user_id@ != user_id)
}

/// Whether a session with this id is live at `now`, from the cache or else
/// from the records.
pub open spec fn session_live(s: AuthView, id: Seq<char>, now: u64) -> bool {
    (match session_with_id(s.cached, id) {
        Some(i) => s.cached[i].expires_at > now,
        None => false,
    }) || (match session_with_id(s.sessions, id) {
        Some(i) => s.sessions[i].expires_at > now,
        None => false,
    })
}

proof fn lemma_filter_step<A>(s: Seq<A>, i: int, p: spec_fn(A) -> bool)
    requires
        0 <= i < s.len(),
    ensures
        s.subrange(0, i + 1).filter(p) == if p(s[i]) {
            s.subrange(0, i).filter(p).push(s[i])
        } else {
            s.subrange(0, i).filter(p)
        },
{
    assert(s.subrange(0, i + 1).drop_last() =~= s.subrange(0, i));
    assert(s.subrange(0, i + 1).last() == s[i]);
    reveal_with_fuel(Seq::filter, 1);
}

pub proof fn lemma_filter_keeps_unique(ss: Seq<Session>, p: spec_fn(Session) -> bool)
    requires
        sessions_unique(ss),
    ensures
        sessions_unique(ss.filter(p)),
        forall|k: int| 0 <= k < ss.filter(p).len() ==> ss.contains(#[trigger] ss.filter(p)[k]),
    decreases ss.len(),
{
    reveal_with_fuel(Seq::filter, 1);
    if ss.len() > 0 {
        let d = ss.drop_last();
        assert(sessions_unique(d)) by {
            assert forall|i: int, j: int| 0 <= i < d.len() && 0 <= j < d.len() && d[i].id@ == d[j].id@ implies i == j by {
                assert(d[i] == ss[i] && d[j] == ss[j]);
            }
        }
        lemma_filter_keeps_unique(d, p);
        let f = d.filter(p);
        assert forall|k: int| 0 <= k < f.len() implies ss.contains(#[trigger] f[k]) by {
            assert(d.contains(f[k]));
            let w = choose|w: int| 0 <= w < d.len() && d[w] == f[k];
            assert(ss[w] == f[k]);
        }
        if p(ss.last()) {
            let g = f.push(ss.last());
            assert forall|i: int, j: int| 0 <= i < g.len() && 0 <= j < g.len() && g[i].id@ == g[j].id@ implies i == j by {
                if i < f.len() && j == f.len() {
                    assert(ss.contains(f[i]));
                    let w = choose|w: int| 0 <= w < ss.len() && ss[w] == f[i];
                    assert(d.contains(f[i]));
                    let w2 = choose|w2: int| 0 <= w2 < d.len() && d[w2] == f[i];
                    assert(ss[w2] == f[i]);
                    assert(ss[ss.len() - 1] == g[j]);
                } else if j < f.len() && i == f.len() {
                    assert(d.contains(f[j]));
                    let w2 = choose|w2: int| 0 <= w2 < d.len() && d[w2] == f[j];
                    assert(ss[w2] == f[j]);
                    assert(ss[ss.len() - 1] == g[i]);
                }
            }
            assert forall|k: int| 0 <= k < g.len() implies ss.contains(#[trigger] g[k]) by {
                if k == f.len() {
                    assert(ss[ss.len() - 1] == g[k]);
                } else {
                    assert(g[k] == f[k]);
                }
            }
        }
    }
}

/// What the sessions of a user, the others, and a list of sessions without
/// some ids hold.
pub proof fn lemma_session_filters(ss: Seq<Session>, user_id: Seq<char>, cs: Seq<Session>, gone: Seq<Session>)
    ensures
        forall|k: int| 0 <= k < sessions_of(ss, user_id).len() ==> (#[trigger] sessions_of(ss, user_id)[k]).user_id@ == user_id
            && ss.contains(sessions_of(ss, user_id)[k]),
        forall|k: int| 0 <= k < sessions_not_of(ss, user_id).len() ==> (#[trigger] sessions_not_of(ss, user_id)[k]).user_id@ != user_id
            && ss.contains(sessions_not_of(ss, user_id)[k]),
        forall|k: int| 0 <= k < without_ids(cs, gone).len() ==> !has_session_id(gone, (#[trigger] without_ids(cs, gone)[k]).id@),
    decreases ss.len() + cs.len(),
{
    reveal_with_fuel(Seq::filter, 1);
    if ss.len() > 0 {
        let d = ss.drop_last();
        lemma_session_filters(d, user_id, cs, gone);
        assert forall|k: int| 0 <= k < sessions_of(ss, user_id).len() implies (#[trigger] sessions_of(ss, user_id)[k]).user_id@ == user_id
            && ss.contains(sessions_of(ss, user_id)[k]) by {
            if k < sessions_of(d, user_id).len() {
                let x = sessions_of(d, user_id)[k];
                assert(sessions_of(ss, user_id)[k] == x);
                let w = choose|w: int| 0 <= w < d.len() && d[w] == x;
                assert(ss[w] == x);
            } else {
                assert(ss[ss.len() - 1] == sessions_of(ss, user_id)[k]);
            }
        }
        assert forall|k: int| 0 <= k < sessions_not_of(ss, user_id).len() implies (#[trigger] sessions_not_of(ss, user_id)[k]).user_id@ != user_id
            && ss.contains(sessions_not_of(ss, user_id)[k]) by {
            if k < sessions_not_of(d, user_id).len() {
                let x = sessions_not_of(d, user_id)[k];
                assert(sessions_not_of(ss, user_id)[k] == x);
                let w = choose|w: int| 0 <= w < d.len() && d[w] == x;
                assert(ss[w] == x);
            } else {
                assert(ss[ss.len() - 1] == sessions_not_of(ss, user_id)[k]);
            }
        }
    }
    if cs.len() > 0 {
        let d = cs.drop_last();
        lemma_session_filters(ss, user_id, d, gone);
        assert forall|k: int| 0 <= k < without_ids(cs, gone).len() implies !has_session_id(gone, (#[trigger] without_ids(cs, gone)[k]).id@) by {
            if k < without_ids(d, gone).len() {
                assert(without_ids(cs, gone)[k] == without_ids(d, gone)[k]);
            }
        }
    }
}

impl Authentication {
    pub open spec fn wf(&self) -> bool {
        &&& view_wf(self@)
        &&& MIN_COST <= self.config.hash_cost <= MAX_COST
    }

    /// An engine with empty stores.
    pub fn new(reg_token_secret: String, hash_cost: u32) -> (r: Authentication)
        requires
            MIN_COST <= hash_cost <= MAX_COST,
        ensures
            r.wf(),
            r@.users.len() == 0 && r@.sessions.len() == 0 && r@.links.len() == 0,
            r@.tokens.len() == 0 && r@.cached.len() == 0 && r@.counters.len() == 0,
            r@.outbox.len() == 0,
            r@.reg_token_secret == reg_token_secret@,
            r.config.hash_cost == hash_cost,
    {
        Authentication {
            users: Vec::new(),
            sessions: Vec::new(),
            links: Vec::new(),
            tokens: Vec::new(),
            cached: Vec::new(),
            counters: Vec::new(),
            outbox: Vec::new(),
            config: AuthConfig { reg_token_secret, hash_cost },
        }
    }

    pub fn find_user_by_email(&self, email: &str) -> (r: Option<usize>)
        requires
            users_unique(self.users@),
        ensures
            r matches Some(i) ==> user_with_email(self.users@, email@) == Some(i as int),
            r is None ==> user_with_email(self.users@, email@) is None,
    {
        let mut i: usize = 0;
        while i < self.users.len()
            invariant
                i <= self.users@.len(),
                users_unique(self.users@),
                forall|j: int| 0 <= j < i ==> self.users@[j].email@ != email@,
            decreases self.users@.len() - i,
        {
            if str_eq(self.users[i].email.as_str(), email) {
                proof {
                    assert(0 <= i < self.users@.len() && self.users@[i as int].email@ == email@);
                    let c = choose|j: int| 0 <= j < self.users@.len() && self.users@[j].email@ == email@;
                    assert(self.users@[c].email@ == self.users@[i as int].email@);
                }
                return Some(i);
            }
            i = i + 1;
        }
        None
    }

    pub fn find_user_by_id(&self, id: &str) -> (r: Option<usize>)
        requires
            users_unique(self.users@),
        ensures
            r matches Some(i) ==> user_with_id(self.users@, id@) == Some(i as int),
            r is None ==> user_with_id(self.users@, id@) is None,
    {
        let mut i: usize = 0;
        while i < self.users.len()
            invariant
                i <= self.users@.len(),
                users_unique(self.users@),
                forall|j: int| 0 <= j < i ==> self.users@[j].id@ != id@,
            decreases self.users@.len() - i,
        {
            if str_eq(self.users[i].id.as_str(), id) {
                proof {
                    assert(0 <= i < self.users@.len() && self.users@[i as int].id@ == id@);
                    let c = choose|j: int| 0 <= j < self.users@.len() && self.users@[j].id@ == id@;
                    assert(self.users@[c].id@ == self.users@[i as int].id@);
                }
                return Some(i);
            }
            i = i + 1;
        }
        None
    }

    pub fn find_session(ss: &Vec<Session>, id: &str) -> (r: Option<usize>)
        requires
            sessions_unique(ss@),
        ensures
            r matches Some(i) ==> session_with_id(ss@, id@) == Some(i as int),
            r is None ==> session_with_id(ss@, id@) is None,
            r is None <==> !has_session_id(ss@, id@),
    {
        let mut i: usize = 0;
        while i < ss.len()
            invariant
                i <= ss@.len(),
                sessions_unique(ss@),
                forall|j: int| 0 <= j < i ==> ss@[j].id@ != id@,
            decreases ss@.len() - i,
        {
            if str_eq(ss[i].id.as_str(), id) {
                proof {
                    assert(0 <= i < ss@.len() && ss@[i as int].id@ == id@);
                    let c = choose|j: int| 0 <= j < ss@.len() && ss@[j].id@ == id@;
                    assert(ss@[c].id@ == ss@[i as int].id@);
                }
                return Some(i);
            }
            i = i + 1;
        }
        None
    }

    pub fn find_token(&self, kind: TokenKind, key: &str) -> (r: Option<usize>)
        requires
            tokens_unique(self.tokens@),
        ensures
            r matches Some(i) ==> token_at(self.tokens@, kind, key@) == Some(i as int),
            r is None ==> token_at(self.tokens@, kind, key@) is None,
    {
        let mut i: usize = 0;
        while i < self.tokens.len()
            invariant
                i <= self.tokens@.len(),
                tokens_unique(self.tokens@),
                forall|j: int| 0 <= j < i ==> !(self.tokens@[j].kind == kind && self.tokens@[j].key@ == key@),
            decreases self.tokens@.len() - i,
        {
            if self.tokens[i].kind == kind && str_eq(self.tokens[i].key.as_str(), key) {
                proof {
                    assert(0 <= i < self.tokens@.len() && self.tokens@[i as int].kind == kind && self.tokens@[i as int].key@ == key@);
                    let c = choose|j: int| 0 <= j < self.tokens@.len() && self.tokens@[j].kind == kind && self.tokens@[j].key@ == key@;
                    assert(self.tokens@[c].key@ == self.tokens@[i as int].key@);
                }
                return Some(i);
            }
            i = i + 1;
        }
        None
    }

    pub fn find_counter(&self, action: Action, identity: &str) -> (r: Option<usize>)
        requires
            counters_unique(self.counters@),
        ensures
            r matches Some(i) ==> counter_at(self.counters@, action, identity@) == Some(i as int),
            r is None ==> counter_at(self.counters@, action, identity@) is None,
    {
        let mut i: usize = 0;
        while i < self.counters.len()
            invariant
                i <= self.counters@.len(),
                counters_unique(self.counters@),
                forall|j: int| 0 <= j < i ==> !(self.counters@[j].action == action && self.counters@[j].identity@ == identity@),
            decreases self.counters@.len() - i,
        {
            if self.counters[i].action == action && str_eq(self.counters[i].identity.as_str(), identity) {
                proof {
                    assert(0 <= i < self.counters@.len() && self.counters@[i as int].action == action && self.counters@[i as int].identity@ == identity@);
                    let c = choose|j: int| 0 <= j < self.counters@.len() && self.counters@[j].action == action && self.counters@[j].identity@ == identity@;
                    assert(self.counters@[c].identity@ == self.counters@[i as int].identity@);
                }
                return Some(i);
            }
            i = i + 1;
        }
        None
    }

    /// Stores a token, replacing any of the same kind and key.
    pub fn put_token_entry(&mut self, e: TokenEntry)
        requires
            old(self).wf(),
        ensures
            final(self).wf(),
            final(self)@ == (AuthView { tokens: put_token(old(self)@.tokens, e), ..old(self)@ }),
            final(self).config == old(self).config,
    {
        match self.find_token(e.kind, e.key.as_str()) {
            Some(i) => {
                self.tokens.set(i, e);
            },
            None => {
                self.tokens.push(e);
                proof {
                    let t = self.tokens@;
                    assert forall|a: int, b: int| #![trigger t[a].key@, t[b].key@]
                        0 <= a < t.len() && 0 <= b < t.len() && t[a].kind == t[b].kind && t[a].key@ == t[b].key@ implies a == b by {
                        if a < t.len() - 1 && b == t.len() - 1 {
                            assert(old(self)@.tokens[a].kind == e.kind && old(self)@.tokens[a].key@ == e.key@);
                        }
                        if b < t.len() - 1 && a == t.len() - 1 {
                            assert(old(self)@.tokens[b].kind == e.kind && old(self)@.tokens[b].key@ == e.key@);
                        }
                    }
                }
            },
        }
    }

    /// Deletes the token of this kind and key, if there is one.
    pub fn drop_token_entry(&mut self, kind: TokenKind, key: &str)
        requires
            old(self).wf(),
        ensures
            final(self).wf(),
            final(self)@ == (AuthView { tokens: drop_token(old(self)@.tokens, kind, key@), ..old(self)@ }),
            final(self).config == old(self).config,
    {
        match self.find_token(kind, key) {
            Some(i) => {
                let _ = self.tokens.remove(i);
                proof {
                    let o = old(self)@.tokens;
                    let t = self.tokens@;
                    assert forall|a: int, b: int| #![trigger t[a].key@, t[b].key@]
                        0 <= a < t.len() && 0 <= b < t.len() && t[a].kind == t[b].kind && t[a].key@ == t[b].key@ implies a == b by {
                        let oa = if a < i { a } else { a + 1 };
                        let ob = if b < i { b } else { b + 1 };
                        assert(t[a] == o[oa] && t[b] == o[ob]);
                    }
                }
            },
            None => {},
        }
    }

    /// The subject of the live token of this kind and key.
    pub fn token_subject_of(&self, kind: TokenKind, key: &str, now: u64) -> (r: Option<String>)
        requires
            self.wf(),
        ensures
            match r {
                Some(x) => token_subject(self@.tokens, kind, key@, now) == Some(x@),
                None => token_subject(self@.tokens, kind, key@, now) is None,
            },
    {
        match self.find_token(kind, key) {
            Some(i) => if self.tokens[i].expires_at > now {
                Some(self.tokens[i].subject.clone())
            } else {
                None
            },
            None => None,
        }
    }

    /// The attempts of `action` by `identity` in the current window.
    pub fn attempts(&self, action: Action, identity: &str, now: u64) -> (r: u64)
        requires
            self.wf(),
        ensures
            r == live_count(self@.counters, action, identity@, now),
    {
        match self.find_counter(action, identity) {
            Some(i) => if self.counters[i].expires_at > now {
                self.counters[i].count
            } else {
                0
            },
            None => 0,
        }
    }

    /// Records one more attempt of `action` by `identity` and returns the
    /// count of the current window.
    pub fn record_attempt(&mut self, action: Action, identity: &String, now: u64, ttl: u64) -> (r: u64)
        requires
            old(self).wf(),
        ensures
            final(self).wf(),
            final(self)@ == (AuthView { counters: hit_counter(old(self)@.counters, action, *identity, now, ttl), ..old(self)@ }),
            final(self).config == old(self).config,
            r == saturating_inc(live_count(old(self)@.counters, action, identity@, now)),
            r >= 1,
    {
        let ghost o = self.counters@;
        let fresh = Counter { action, identity: identity.clone(), count: 1, expires_at: expiry_of(now, ttl) };
        let r = match self.find_counter(action, identity.as_str()) {
            Some(i) => {
                if self.counters[i].expires_at > now {
                    let c = &self.counters[i];
                    let count = if c.count < u64::MAX { c.count + 1 } else { c.count };
                    let next = Counter { action: c.action, identity: c.identity.clone(), count, expires_at: c.expires_at };
                    self.counters.set(i, next);
                    count
                } else {
                    self.counters.set(i, fresh);
                    1
                }
            },
            None => {
                self.counters.push(fresh);
                1
            },
        };
        proof {
            let t = self.counters@;
            assert forall|a: int, b: int| #![trigger t[a].identity@, t[b].identity@]
                0 <= a < t.len() && 0 <= b < t.len() && t[a].action == t[b].action && t[a].identity@ == t[b].identity@ implies a == b by {
                if a < o.len() && b < o.len() {
                    assert(t[a].action == o[a].action && t[a].identity@ == o[a].identity@);
                    assert(t[b].action == o[b].action && t[b].identity@ == o[b].identity@);
                } else if a < o.len() {
                    assert(o[a].action == action && o[a].identity@ == identity@);
                } else if b < o.len() {
                    assert(o[b].action == action && o[b].identity@ == identity@);
                }
            }
            let idx = counter_at(t, action, identity@);
            match counter_at(o, action, identity@) {
                Some(i) => {
                    assert(t[i].action == action && t[i].identity@ == identity@);
                    let c = choose|j: int| 0 <= j < t.len() && t[j].action == action && t[j].identity@ == identity@;
                    assert(t[c].identity@ == t[i].identity@);
                }
                None => {
                    assert(t[o.len() as int].action == action && t[o.len() as int].identity@ == identity@);
                    let c = choose|j: int| 0 <= j < t.len() && t[j].action == action && t[j].identity@ == identity@;
                    assert(t[c].identity@ == t[o.len() as int].identity@);
                }
            }
        }
        r
    }

    /// Clears the attempts of `action` by `identity`.
    pub fn clear_attempts(&mut self, action: Action, identity: &str)
        requires
            old(self).wf(),
        ensures
            final(self).wf(),
            final(self)@ == (AuthView { counters: clear_counter(old(self)@.counters, action, identity@), ..old(self)@ }),
            final(self).config == old(self).config,
    {
        match self.find_counter(action, identity) {
            Some(i) => {
                let _ = self.counters.remove(i);
                proof {
                    let o = old(self)@.counters;
                    let t = self.counters@;
                    assert forall|a: int, b: int| #![trigger t[a].identity@, t[b].identity@]
                        0 <= a < t.len() && 0 <= b < t.len() && t[a].action == t[b].action && t[a].identity@ == t[b].identity@ implies a == b by {
                        let oa = if a < i { a } else { a + 1 };
                        let ob = if b < i { b } else { b + 1 };
                        assert(t[a] == o[oa] && t[b] == o[ob]);
                    }
                }
            },
            None => {},
        }
    }

    /// Whether a session of the list has this id.
    pub fn has_id(ss: &Vec<Session>, id: &str) -> (r: bool)
        ensures
            r == has_session_id(ss@, id@),
    {
        let mut i: usize = 0;
        while i < ss.len()
            invariant
                i <= ss@.len(),
                forall|j: int| 0 <= j < i ==> ss@[j].id@ != id@,
            decreases ss@.len() - i,
        {
            if str_eq(ss[i].id.as_str(), id) {
                return true;
            }
            i = i + 1;
        }
        false
    }

    /// Stores a session, replacing any with the same id.
    pub fn put_in(ss: &mut Vec<Session>, s: Session)
        requires
            sessions_unique(old(ss)@),
        ensures
            sessions_unique(final(ss)@),
            final(ss)@ == put_session(old(ss)@, s),
    {
        match Self::find_session(ss, s.id.as_str()) {
            Some(i) => {
                ss.set(i, s);
            },
            None => {
                ss.push(s);
                proof {
                    let o = old(ss)@;
                    let t = ss@;
                    assert forall|a: int, b: int| #![trigger t[a].id@, t[b].id@]
                        0 <= a < t.len() && 0 <= b < t.len() && t[a].id@ == t[b].id@ implies a == b by {
                        if a < o.len() && b == o.len() {
                            assert(o[a].id@ == s.id@);
                        }
                        if b < o.len() && a == o.len() {
                            assert(o[b].id@ == s.id@);
                        }
                    }
                }
            },
        }
    }

    /// Removes the session with this id, if there is one.
    pub fn remove_from(ss: &mut Vec<Session>, id: &str)
        requires
            sessions_unique(old(ss)@),
        ensures
            sessions_unique(final(ss)@),
            final(ss)@ == match session_with_id(old(ss)@, id@) {
                Some(i) => old(ss)@.remove(i),
                None => old(ss)@,
            },
            !has_session_id(final(ss)@, id@),
    {
        match Self::find_session(ss, id) {
            Some(i) => {
                let _ = ss.remove(i);
                proof {
                    let o = old(ss)@;
                    let t = ss@;
                    assert forall|a: int, b: int| #![trigger t[a].id@, t[b].id@]
                        0 <= a < t.len() && 0 <= b < t.len() && t[a].id@ == t[b].id@ implies a == b by {
                        let oa = if a < i { a } else { a + 1 };
                        let ob = if b < i { b } else { b + 1 };
                        assert(t[a] == o[oa] && t[b] == o[ob]);
                    }
                    if has_session_id(t, id@) {
                        let k = choose|k: int| 0 <= k < t.len() && t[k].id@ == id@;
                        let ok = if k < i { k } else { k + 1 };
                        assert(t[k] == o[ok]);
                        assert(o[i as int].id@ == id@);
                    }
                }
            },
            None => {},
        }
    }

    /// Records a new session; fails with `Conflict` where its id is taken.
    pub fn insert_session(&mut self, s: Session) -> (r: Result<(), AuthError>)
        requires
            old(self).wf(),
        ensures
            final(self).wf(),
            final(self).config == old(self).config,
            has_session_id(old(self)@.sessions, s.id@) ==> r == Err::<(), AuthError>(AuthError::Adapter(AdapterError::Conflict))
                && final(self)@ == old(self)@,
            !has_session_id(old(self)@.sessions, s.id@) ==> r is Ok
                && final(self)@ == (AuthView { sessions: old(self)@.sessions.push(s), ..old(self)@ }),
    {
        if Self::has_id(&self.sessions, s.id.as_str()) {
            return Err(AuthError::Adapter(AdapterError::Conflict));
        }
        let ghost o = self.sessions@;
        self.sessions.push(s);
        proof {
            let t = self.sessions@;
            assert forall|a: int, b: int| #![trigger t[a].id@, t[b].id@]
                0 <= a < t.len() && 0 <= b < t.len() && t[a].id@ == t[b].id@ implies a == b by {
                if a < o.len() && b == o.len() {
                    assert(o[a].id@ == s.id@);
                }
                if b < o.len() && a == o.len() {
                    assert(o[b].id@ == s.id@);
                }
            }
        }
        Ok(())
    }

    /// Caches a session under its id.
    pub fn cache_session(&mut self, s: Session)
        requires
            old(self).wf(),
        ensures
            final(self).wf(),
            final(self).config == old(self).config,
            final(self)@ == (AuthView { cached: put_session(old(self)@.cached, s), ..old(self)@ }),
    {
        Self::put_in(&mut self.cached, s);
    }

    /// Deletes every session of the user from the records and evicts each
    /// of them from the cache; returns the deleted sessions.
    pub fn purge_sessions(&mut self, user_id: &String) -> (r: Vec<Session>)
        requires
            old(self).wf(),
        ensures
            final(self).wf(),
            final(self).config == old(self).config,
            r@ == sessions_of(old(self)@.sessions, user_id@),
            final(self)@ == (AuthView {
                sessions: sessions_not_of(old(self)@.sessions, user_id@),
                cached: without_ids(old(self)@.cached, r@),
                ..old(self)@
            }),
    {
        let ghost o = self.sessions@;
        let ghost keep = |x: Session| x.user_id@ != user_id@;
        let ghost mine = |x: Session| x.user_id@ == user_id@;
        let mut kept: Vec<Session> = Vec::new();
        let mut gone: Vec<Session> = Vec::new();
        let mut i: usize = 0;
        while i < self.sessions.len()
            invariant
                self.sessions@ == o,
                keep == (|x: Session| x.user_id@ != user_id@),
                mine == (|x: Session| x.user_id@ == user_id@),
                i <= o.len(),
                kept@ == o.subrange(0, i as int).filter(keep),
                gone@ == o.subrange(0, i as int).filter(mine),
            decreases o.len() - i,
        {
            let s = self.sessions[i].duplicate();
            proof {
                lemma_filter_step(o, i as int, keep);
                lemma_filter_step(o, i as int, mine);
            }
            if str_eq(s.user_id.as_str(), user_id.as_str()) {
                assert(mine(o[i as int]) && !keep(o[i as int]));
                gone.push(s);
            } else {
                assert(!mine(o[i as int]) && keep(o[i as int]));
                kept.push(s);
            }
            i = i + 1;
        }
        proof {
            assert(o.subrange(0, o.len() as int) =~= o);
            lemma_filter_keeps_unique(o, keep);
        }
        self.sessions = kept;
        let ghost c = self.cached@;
        let ghost out = |x: Session| !has_session_id(gone@, x.id@);
        let mut still: Vec<Session> = Vec::new();
        let mut j: usize = 0;
        while j < self.cached.len()
            invariant
                self.cached@ == c,
                out == (|x: Session| !has_session_id(gone@, x.id@)),
                j <= c.len(),
                still@ == c.subrange(0, j as int).filter(out),
            decreases c.len() - j,
        {
            let s = self.cached[j].duplicate();
            proof {
                lemma_filter_step(c, j as int, out);
            }
            if !Self::has_id(&gone, s.id.as_str()) {
                assert(out(c[j as int]));
                still.push(s);
            } else {
                assert(!out(c[j as int]));
            }
            j = j + 1;
        }
        proof {
            assert(c.subrange(0, c.len() as int) =~= c);
            lemma_filter_keeps_unique(c, out);
        }
        self.cached = still;
        gone
    }

    /// Whether the session with this id is valid at `now`. A live cached copy
    /// answers at once; otherwise the records do, and a live recorded session
    /// is cached again.
    pub fn session_is_valid(&mut self, id: &str, now: u64) -> (r: bool)
        requires
            old(self).wf(),
        ensures
            final(self).wf(),
            final(self).config == old(self).config,
            (final(self)@, r) == validity_check(old(self)@, id@, now),
    {
        if let Some(i) = Self::find_session(&self.cached, id) {
            if self.cached[i].expires_at > now {
                return true;
            }
        }
        match Self::find_session(&self.sessions, id) {
            Some(i) => if self.sessions[i].expires_at > now {
                let s = self.sessions[i].duplicate();
                self.cache_session(s);
                true
            } else {
                false
            },
            None => false,
        }
    }

    /// Ends one session: it leaves the records and the cache.
    pub fn invalidate_session(&mut self, id: &str)
        requires
            old(self).wf(),
        ensures
            final(self).wf(),
            final(self).config == old(self).config,
            final(self)@ == (AuthView {
                sessions: match session_with_id(old(self)@.sessions, id@) {
                    Some(i) => old(self)@.sessions.remove(i),
                    None => old(self)@.sessions,
                },
                cached: match session_with_id(old(self)@.cached, id@) {
                    Some(i) => old(self)@.cached.remove(i),
                    None => old(self)@.cached,
                },
                ..old(self)@
            }),
            !has_session_id(final(self)@.sessions, id@),
            !has_session_id(final(self)@.cached, id@),
    {
        Self::remove_from(&mut self.sessions, id);
        Self::remove_from(&mut self.cached, id);
    }
}

/// The outcome of a validity check: the state after it (a cache miss with a
/// live record caches that record) and the verdict.
pub open spec fn validity_check(s: AuthView, id: Seq<char>, now: u64) -> (AuthView, bool) {
    let cache_hit = match session_with_id(s.cached, id) {
        Some(i) => s.cached[i].expires_at > now,
        None => false,
    };
    if cache_hit {
        (s, true)
    } else {
        match session_with_id(s.sessions, id) {
            Some(i) => if s.sessions[i].expires_at > now {
                (AuthView { cached: put_session(s.cached, s.sessions[i]), ..s }, true)
            } else {
                (s, false)
            },
            None => (s, false),
        }
    }
}

} // verus!
