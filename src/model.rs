use vstd::prelude::*;
use crate::otp::CryptoError;

verus! {

/// What a cached token is for.
#[derive(PartialEq, Eq, Structural, Clone, Copy, Debug)]
pub enum TokenKind {
    Registration,
    Password,
    Otp,
    OAuth,
}

/// The actions whose attempts are throttled, each with its own counters.
#[derive(PartialEq, Eq, Structural, Clone, Copy, Debug)]
pub enum Action {
    Login,
    Otp,
    Email,
}

/// The external OAuth providers.
#[derive(PartialEq, Eq, Structural, Clone, Copy, Debug)]
pub enum Provider {
    Github,
    Google,
}

/// Failures of the storage layer.
#[derive(PartialEq, Eq, Structural, Clone, Copy, Debug)]
pub enum AdapterError {
    /// The record asked for does not exist.
    DoesNotExist,
    /// A record with the same unique key already exists.
    Conflict,
    /// Hashing a password failed.
    Hashing,
}

/// The classified failures of the authentication flows.
#[derive(PartialEq, Eq, Structural, Clone, Copy, Debug)]
pub enum AuthError {
    InvalidCredentials,
    InvalidToken(TokenKind),
    EmailTaken,
    AlreadyVerified,
    EmailUnverified,
    RateExceeded,
    AccountFrozen,
    ProviderError,
    Adapter(AdapterError),
    Crypto(CryptoError),
}

/// A user account.
pub struct User {
    pub id: String,
    pub email: String,
    pub username: String,
    /// bcrypt hash of the password; none for accounts made through OAuth
    pub password: Option<String>,
    /// base32 secret of the user's one-time passwords, when enabled
    pub otp_secret: Option<String>,
    pub frozen: bool,
    pub email_verified_at: Option<u64>,
    pub created_at: u64,
    pub updated_at: u64,
}

/// An authenticated session.
pub struct Session {
    pub id: String,
    pub user_id: String,
    pub csrf: String,
    pub oauth_token: Option<String>,
    pub provider: Option<Provider>,
    pub expires_at: u64,
}

/// The link between a user and an OAuth provider; at most one per pair.
pub struct OAuthLink {
    pub user_id: String,
    pub provider: Provider,
    pub account_id: String,
    pub access_token: String,
    pub refresh_token: Option<String>,
    pub expires_at: u64,
}

/// A single-use token: `kind` and `key` lead to the subject user's id.
pub struct TokenEntry {
    pub kind: TokenKind,
    pub key: String,
    pub subject: String,
    pub expires_at: u64,
}

/// Attempts of one action by one identity within a window.
pub struct Counter {
    pub action: Action,
    pub identity: String,
    pub count: u64,
    pub expires_at: u64,
}

/// The kinds of email the flows send.
#[derive(PartialEq, Eq, Structural, Clone, Copy, Debug)]
pub enum EmailKind {
    RegistrationToken,
    ForgotPassword,
    ResetPassword,
    PasswordChanged,
}

/// An email to be sent: its kind, recipient, the user's name and the token or
/// temporary password that it carries (empty when none).
pub struct Email {
    pub kind: EmailKind,
    pub to: String,
    pub username: String,
    pub token: String,
}

/// A copy of an optional string.
pub fn copy_opt(o: &Option<String>) -> (r: Option<String>)
    ensures
        r == *o,
{
    match o {
        Some(s) => Some(s.clone()),
        None => None,
    }
}

impl User {
    pub fn duplicate(&self) -> (r: User)
        ensures
            r == *self,
    {
        User {
            id: self.id.clone(),
            email: self.email.clone(),
            username: self.username.clone(),
            password: copy_opt(&self.password),
            otp_secret: copy_opt(&self.otp_secret),
            frozen: self.frozen,
            email_verified_at: self.email_verified_at,
            created_at: self.created_at,
            updated_at: self.updated_at,
        }
    }
}

impl Session {
    pub fn duplicate(&self) -> (r: Session)
        ensures
            r == *self,
    {
        Session {
            id: self.id.clone(),
            user_id: self.user_id.clone(),
            csrf: self.csrf.clone(),
            oauth_token: copy_opt(&self.oauth_token),
            provider: self.provider,
            expires_at: self.expires_at,
        }
    }
}

impl OAuthLink {
    pub fn duplicate(&self) -> (r: OAuthLink)
        ensures
            r == *self,
    {
        OAuthLink {
            user_id: self.user_id.clone(),
            provider: self.provider,
            account_id: self.account_id.clone(),
            access_token: self.access_token.clone(),
            refresh_token: copy_opt(&self.refresh_token),
            expires_at: self.expires_at,
        }
    }
}

/// `now + ttl`, or the largest time where that does not fit.
pub open spec fn expiry(now: u64, ttl: u64) -> u64 {
    if now + ttl <= u64::MAX {
        (now + ttl) as u64
    } else {
        u64::MAX
    }
}

pub fn expiry_of(now: u64, ttl: u64) -> (r: u64)
    ensures
        r == expiry(now, ttl),
{
    if now <= u64::MAX - ttl {
        now + ttl
    } else {
        u64::MAX
    }
}

// Lookups by key. The stores keep their keys unique, so each finds at most
// one record.

pub open spec fn user_with_email(users: Seq<User>, email: Seq<char>) -> Option<int> {
    if exists|i: int| 0 <= i < users.len() && users[i].email@ == email {
        Some(choose|i: int| 0 <= i < users.len() && users[i].email@ == email)
    } else {
        None
    }
}

pub open spec fn user_with_id(users: Seq<User>, id: Seq<char>) -> Option<int> {
    if exists|i: int| 0 <= i < users.len() && users[i].id@ == id {
        Some(choose|i: int| 0 <= i < users.len() && users[i].id@ == id)
    } else {
        None
    }
}

pub open spec fn session_with_id(sessions: Seq<Session>, id: Seq<char>) -> Option<int> {
    if exists|i: int| 0 <= i < sessions.len() && sessions[i].id@ == id {
        Some(choose|i: int| 0 <= i < sessions.len() && sessions[i].id@ == id)
    } else {
        None
    }
}

pub open spec fn token_at(tokens: Seq<TokenEntry>, kind: TokenKind, key: Seq<char>) -> Option<int> {
    if exists|i: int| 0 <= i < tokens.len() && tokens[i].kind == kind && tokens[i].key@ == key {
        Some(choose|i: int| 0 <= i < tokens.len() && tokens[i].kind == kind && tokens[i].key@ == key)
    } else {
        None
    }
}

pub open spec fn counter_at(counters: Seq<Counter>, action: Action, identity: Seq<char>) -> Option<int> {
    if exists|i: int| 0 <= i < counters.len() && counters[i].action == action && counters[i].identity@ == identity {
        Some(choose|i: int| 0 <= i < counters.len() && counters[i].action == action && counters[i].identity@ == identity)
    } else {
        None
    }
}

pub open spec fn link_at(links: Seq<OAuthLink>, provider: Provider, account_id: Seq<char>) -> Option<int> {
    if exists|i: int| 0 <= i < links.len() && links[i].provider == provider && links[i].account_id@ == account_id {
        Some(choose|i: int| 0 <= i < links.len() && links[i].provider == provider && links[i].account_id@ == account_id)
    } else {
        None
    }
}

pub open spec fn link_of_user(links: Seq<OAuthLink>, user_id: Seq<char>, provider: Provider) -> Option<int> {
    if exists|i: int| 0 <= i < links.len() && links[i].user_id@ == user_id && links[i].provider == provider {
        Some(choose|i: int| 0 <= i < links.len() && links[i].user_id@ == user_id && links[i].provider == provider)
    } else {
        None
    }
}

// Uniqueness of keys.

pub open spec fn users_unique(users: Seq<User>) -> bool {
    &&& forall|i: int, j: int| #![trigger users[i].id@, users[j].id@] 0 <= i < users.len() && 0 <= j < users.len() && users[i].id@ == users[j].id@ ==> i == j
    &&& forall|i: int, j: int| #![trigger users[i].email@, users[j].email@] 0 <= i < users.len() && 0 <= j < users.len() && users[i].email@ == users[j].email@ ==> i == j
}

pub open spec fn sessions_unique(sessions: Seq<Session>) -> bool {
    forall|i: int, j: int| #![trigger sessions[i].id@, sessions[j].id@] 0 <= i < sessions.len() && 0 <= j < sessions.len() && sessions[i].id@ == sessions[j].id@ ==> i == j
}

pub open spec fn tokens_unique(tokens: Seq<TokenEntry>) -> bool {
    forall|i: int, j: int| #![trigger tokens[i].key@, tokens[j].key@]
        0 <= i < tokens.len() && 0 <= j < tokens.len() && tokens[i].kind == tokens[j].kind && tokens[i].key@ == tokens[j].key@ ==> i == j
}

pub open spec fn counters_unique(counters: Seq<Counter>) -> bool {
    forall|i: int, j: int| #![trigger counters[i].identity@, counters[j].identity@]
        0 <= i < counters.len() && 0 <= j < counters.len() && counters[i].action == counters[j].action
            && counters[i].identity@ == counters[j].identity@ ==> i == j
}

pub open spec fn links_unique(links: Seq<OAuthLink>) -> bool {
    &&& forall|i: int, j: int| #![trigger links[i].account_id@, links[j].account_id@]
        0 <= i < links.len() && 0 <= j < links.len() && links[i].provider == links[j].provider
            && links[i].account_id@ == links[j].account_id@ ==> i == j
    &&& forall|i: int, j: int| #![trigger links[i].user_id@, links[j].user_id@]
        0 <= i < links.len() && 0 <= j < links.len() && links[i].provider == links[j].provider
            && links[i].user_id@ == links[j].user_id@ ==> i == j
}

} // verus!
