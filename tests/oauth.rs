use hextacy::auth::Fresh;
use hextacy::engine::Authentication;
use hextacy::model::{AdapterError, AuthError, OAuthLink, Provider, Session, TokenKind, User};
use hextacy::oauth::{OAuthStep, ProviderAccount, TokenResponse};

const NOW: u64 = 1_700_000_000;

fn fresh(n: u32) -> Fresh {
    Fresh {
        user_id: format!("user-{n}"),
        session_id: format!("session-{n}"),
        csrf_token: format!("csrf-{n}"),
        token: format!("token-{n}"),
    }
}

fn account(email: Option<&str>) -> ProviderAccount {
    ProviderAccount { id: "gh-1".to_string(), email: email.map(|e| e.to_string()), username: "octo".to_string() }
}

fn tokens(access: &str, refresh: Option<&str>) -> TokenResponse {
    TokenResponse { access_token: access.to_string(), refresh_token: refresh.map(|r| r.to_string()), expires_in: 3600 }
}

#[test]
fn unverified_email_fails_without_records() {
    let mut auth = Authentication::new("s".to_string(), 4);
    let r = auth.oauth_login(Provider::Github, &account(None), &tokens("a1", None), NOW, &fresh(1));
    assert!(matches!(r, Err(AuthError::EmailUnverified)));
    assert_eq!(auth.users.len(), 0);
    assert_eq!(auth.links.len(), 0);
    assert_eq!(auth.sessions.len(), 0);
}

#[test]
fn first_login_creates_user_link_and_session() {
    let mut auth = Authentication::new("s".to_string(), 4);
    let r = auth.oauth_login(Provider::Github, &account(Some("o@c.to")), &tokens("a1", Some("r1")), NOW, &fresh(1));
    match r {
        Ok(OAuthStep::Established(s)) => {
            assert_eq!(s.user_id, "user-1");
            assert_eq!(s.oauth_token, Some("a1".to_string()));
            assert_eq!(s.provider, Some(Provider::Github));
            assert_eq!(s.expires_at, NOW + 3600);
        },
        _ => panic!("Not good"),
    }
    assert_eq!(auth.users.len(), 1);
    assert_eq!(auth.users[0].email_verified_at, Some(NOW));
    assert_eq!(auth.links.len(), 1);
    // a second login reuses the link and makes a second session
    let r = auth.oauth_login(Provider::Github, &account(Some("o@c.to")), &tokens("a2", None), NOW + 1, &fresh(2));
    assert!(matches!(r, Ok(OAuthStep::Established(_))));
    assert_eq!(auth.users.len(), 1);
    assert_eq!(auth.links.len(), 1);
    assert_eq!(auth.sessions.len(), 2);
}

#[test]
fn new_account_links_existing_email() {
    let mut auth = Authentication::new("s".to_string(), 4);
    auth.add_user(User {
        id: "u1".to_string(),
        email: "o@c.to".to_string(),
        username: "o".to_string(),
        password: None,
        otp_secret: None,
        frozen: false,
        email_verified_at: None,
        created_at: 0,
        updated_at: 0,
    })
    .unwrap();
    let r = auth.oauth_login(Provider::Github, &account(Some("o@c.to")), &tokens("a1", None), NOW, &fresh(1));
    assert!(matches!(r, Ok(OAuthStep::Established(ref s)) if s.user_id == "u1"));
    assert_eq!(auth.users.len(), 1);
    assert_eq!(auth.links[0].user_id, "u1");
}

fn with_expired_link(refresh: Option<&str>) -> Authentication {
    let mut auth = Authentication::new("s".to_string(), 4);
    auth.oauth_login(Provider::Github, &account(Some("o@c.to")), &tokens("a1", refresh), NOW - 7200, &fresh(1)).unwrap();
    auth
}

#[test]
fn expired_link_with_refresh_token_asks_for_refresh() {
    let mut auth = with_expired_link(Some("r1"));
    let r = auth.oauth_login(Provider::Github, &account(Some("o@c.to")), &tokens("a2", None), NOW, &fresh(2));
    match r {
        Ok(OAuthStep::Refresh { user_id, refresh_token }) => {
            assert_eq!(user_id, "user-1");
            assert_eq!(refresh_token, "r1");
        },
        _ => panic!("Not good"),
    }
    let s = auth.oauth_refreshed(Provider::Github, &"user-1".to_string(), &tokens("a3", None), NOW, &fresh(2)).unwrap();
    assert_eq!(s.oauth_token, Some("a3".to_string()));
    assert_eq!(auth.links[0].access_token, "a3");
    assert_eq!(auth.links[0].refresh_token, Some("r1".to_string()));
    assert!(auth.sessions.iter().all(|x| x.oauth_token == Some("a3".to_string())));
}

#[test]
fn expired_link_without_refresh_token_is_overwritten() {
    let mut auth = with_expired_link(None);
    let r = auth.oauth_login(Provider::Github, &account(Some("o@c.to")), &tokens("a2", None), NOW, &fresh(2));
    assert!(matches!(r, Ok(OAuthStep::Established(_))));
    assert_eq!(auth.links[0].access_token, "a2");
    assert_eq!(auth.links[0].expires_at, NOW + 3600);
}

#[test]
fn additional_scopes_update_every_session() {
    let mut auth = Authentication::new("s".to_string(), 4);
    let first = match auth
        .oauth_login(Provider::Github, &account(Some("o@c.to")), &tokens("a1", None), NOW, &fresh(1))
        .unwrap()
    {
        OAuthStep::Established(s) => s,
        _ => panic!("Not good"),
    };
    auth.oauth_login(Provider::Github, &account(Some("o@c.to")), &tokens("a1", None), NOW, &fresh(2)).unwrap();
    let s = auth.request_additional_scopes(&first, Provider::Github, &tokens("wide", None), NOW).unwrap();
    assert_eq!(s.oauth_token, Some("wide".to_string()));
    assert!(auth.sessions.iter().all(|x| x.oauth_token == Some("wide".to_string())));
    assert_eq!(auth.links[0].access_token, "wide");
    // only the current session's cached copy changes
    let other = auth.cached.iter().find(|x| x.id == "session-2").unwrap();
    assert_eq!(other.oauth_token, Some("a1".to_string()));
}

#[test]
fn additional_scopes_need_oauth_session() {
    let mut auth = Authentication::new("s".to_string(), 4);
    let s = Session {
        id: "s1".to_string(),
        user_id: "u1".to_string(),
        csrf: "c".to_string(),
        oauth_token: None,
        provider: None,
        expires_at: NOW + 10,
    };
    auth.insert_session(s.duplicate()).unwrap();
    let r = auth.request_additional_scopes(&s, Provider::Github, &tokens("a", None), NOW);
    assert!(matches!(r, Err(AuthError::InvalidToken(TokenKind::OAuth))));
    let mut s2 = s.duplicate();
    s2.oauth_token = Some("a".to_string());
    let r = auth.request_additional_scopes(&s2, Provider::Github, &tokens("a", None), NOW);
    assert!(matches!(r, Err(AuthError::Adapter(AdapterError::DoesNotExist))));
}

#[test]
fn one_link_per_user_and_provider() {
    let mut auth = Authentication::new("s".to_string(), 4);
    auth.oauth_login(Provider::Github, &account(Some("o@c.to")), &tokens("a1", None), NOW, &fresh(1)).unwrap();
    let other = ProviderAccount { id: "gh-2".to_string(), email: Some("o@c.to".to_string()), username: "o2".to_string() };
    let r = auth.oauth_login(Provider::Github, &other, &tokens("a1", None), NOW, &fresh(2));
    assert!(matches!(r, Err(AuthError::Adapter(AdapterError::Conflict))));
    let _: Vec<&OAuthLink> = auth.links.iter().collect();
    assert_eq!(auth.links.len(), 1);
}
