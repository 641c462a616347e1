//! Requests and responses through the middleware.

use axum::http::{header, HeaderMap, HeaderName, HeaderValue};
use axum_login::claims::{Claims, TokenKind};
use axum_login::clock::now_unix;
use axum_login::jwt::PendingCookie;
use axum_login::manager::{
    authenticate_request, issue_access_cookie, issue_refresh_cookie, judge, plan_cookies,
    response_cookies, settle, CookiePlan, Reissue,
};
use axum_login::session::{LoginStep, LogoutStep};
use axum_login::{
    AuthSession, AuthUser, AuthnBackend, JwtConfig, JwtManager, JwtManagerLayer, TokenUser,
    DEFAULT_JWT_COOKIE_NAME,
};
use serde_json::Value;
use std::cell::Cell;
use std::rc::Rc;
use std::time::Duration;

#[derive(Debug, Clone, PartialEq)]
struct User {
    id: i64,
    name: String,
}

fn user(id: i64, name: &str) -> User {
    User {
        id,
        name: name.to_string(),
    }
}

impl AuthUser for User {
    type Id = i64;

    fn id(&self) -> i64 {
        self.id
    }

    fn session_auth_hash(&self) -> &[u8] {
        &[]
    }
}

impl TokenUser for User {
    fn subject(&self) -> Result<Value, serde_json::Error> {
        if self.id < 0 {
            return Err(serde_json::from_str::<Value>("{").unwrap_err());
        }
        Ok(Value::from(self.id))
    }

    fn parse_subject(subject: Option<&Value>) -> Option<i64> {
        subject?.as_i64()
    }

    fn to_claims(&self) -> Value {
        let mut map: serde_json::Map<String, Value> = serde_json::Map::new();
        map.insert("id".to_string(), Value::from(self.id));
        map.insert("name".to_string(), Value::from(self.name.as_str()));
        Value::Object(map)
    }

    fn from_claims(claims: &Value) -> Option<User> {
        Some(User {
            id: claims.get("id")?.as_i64()?,
            name: claims.get("name")?.as_str()?.to_string(),
        })
    }
}

#[derive(Debug, Clone)]
struct Backend {
    get_user_calls: Rc<Cell<usize>>,
}

impl AuthnBackend for Backend {
    type User = User;
    type Credentials = ();
    type Error = String;
}

impl Backend {
    fn authenticate(&self) -> Result<Option<User>, String> {
        Ok(Some(user(1, "alice")))
    }

    // The token path must never need this; count invocations to prove it.
    fn get_user(&self) -> Option<User> {
        self.get_user_calls.set(self.get_user_calls.get() + 1);
        None
    }
}

fn backend() -> Backend {
    Backend {
        get_user_calls: Rc::new(Cell::new(0)),
    }
}

type App = JwtManager<(), Backend>;

fn app(backend: Backend) -> App {
    let config = JwtConfig::from_secret(b"test-secret").with_secure(false);
    JwtManagerLayer::new(backend, config).layer(())
}

const REFRESH_COOKIE: &str = "axum-login.refresh";

fn refresh_app(backend: Backend) -> App {
    let config = JwtConfig::from_secret(b"test-secret")
        .with_secure(false)
        .with_refresh_enabled(true)
        .with_refresh_cookie_name(REFRESH_COOKIE)
        .with_refresh_path("/auth/refresh")
        .with_refresh_ttl(Duration::from_secs(1000));
    JwtManagerLayer::new(backend, config).layer(())
}

fn whoami(auth: &mut AuthSession<Backend>) -> String {
    auth.user().map(|u| u.name).unwrap_or("anon".to_string())
}

fn login(auth: &mut AuthSession<Backend>) -> String {
    let found = auth.backend().authenticate();
    let user = auth.authenticate(found).ok().unwrap().unwrap();
    assert!(matches!(auth.login(&user), LoginStep::Done));
    "ok".to_string()
}

fn logout(auth: &mut AuthSession<Backend>) -> String {
    assert!(matches!(auth.logout(), LogoutStep::Done(_)));
    "bye".to_string()
}

fn request(
    app: &App,
    name: Option<HeaderName>,
    value: &str,
    handler: fn(&mut AuthSession<Backend>) -> String,
) -> (HeaderMap, String) {
    let mut headers = HeaderMap::new();
    if let Some(name) = name {
        headers.insert(name, HeaderValue::from_str(value).unwrap());
    }
    let (mut session, reissue) = app.open_session(&headers);
    let body = handler(&mut session);
    let mut response = HeaderMap::new();
    assert!(app.close_session(&mut session, reissue, &mut response));
    (response, body)
}

fn set_cookie(res: &HeaderMap) -> Option<String> {
    res.get(header::SET_COOKIE)
        .and_then(|h| h.to_str().ok())
        .map(|s| s.to_string())
}

fn set_cookies(res: &HeaderMap) -> Vec<String> {
    res.get_all(header::SET_COOKIE)
        .iter()
        .filter_map(|h| h.to_str().ok())
        .map(|s| s.to_string())
        .collect()
}

fn find_set_cookie(res: &HeaderMap, name: &str) -> Option<String> {
    set_cookies(res)
        .into_iter()
        .find(|c| c.starts_with(&format!("{name}=")))
}

fn token_from_set_cookie(set_cookie: &str) -> String {
    set_cookie
        .split(';')
        .next()
        .and_then(|pair| pair.split_once('='))
        .map(|(_, value)| value.to_string())
        .expect("cookie value")
}

// Signs a token with explicit iat/exp/kind so refresh behavior is deterministic.
fn craft_token(iat: u64, exp: u64, typ: TokenKind) -> String {
    let config = JwtConfig::from_secret(b"test-secret");
    config
        .sign_claims(Claims {
            sub: Value::from(1i64),
            iat,
            exp,
            typ,
            user: user(1, "alice").to_claims(),
        })
        .unwrap()
}

fn craft_refresh_token(iat: u64, exp: u64) -> String {
    craft_token(iat, exp, TokenKind::Refresh)
}

fn whoami_with_cookie(app: &App, token: &str) -> (HeaderMap, String) {
    request(
        app,
        Some(header::COOKIE),
        &format!("axum-login.jwt={token}"),
        whoami,
    )
}

#[test]
fn login_issues_cookie_and_authenticates_without_backend_lookup() {
    let backend = backend();
    let calls = backend.get_user_calls.clone();
    let app = app(backend);

    // Anonymous request.
    let (_, body) = request(&app, None, "", whoami);
    assert_eq!(body, "anon");

    // Log in: response carries the token cookie.
    let (res, _) = request(&app, None, "", login);
    let cookie = set_cookie(&res).expect("login should set a cookie");
    assert!(cookie.starts_with("axum-login.jwt="));
    assert!(cookie.contains("HttpOnly"));
    assert!(cookie.contains("SameSite=Lax"));
    assert!(!cookie.contains("Secure")); // with_secure(false)
    let token = token_from_set_cookie(&cookie);

    // Authenticated request via cookie.
    let (_, body) = request(
        &app,
        Some(header::COOKIE),
        &format!("axum-login.jwt={token}"),
        whoami,
    );
    assert_eq!(body, "alice");

    // The stateless path must not have touched the backend.
    assert_eq!(calls.get(), 0);
    assert!(app.backend.get_user().is_none());
    assert_eq!(calls.get(), 1);
}

#[test]
fn bearer_header_is_accepted_as_fallback() {
    let backend = backend();
    let calls = backend.get_user_calls.clone();
    let app = app(backend);

    let (res, _) = request(&app, None, "", login);
    let token = token_from_set_cookie(&set_cookie(&res).unwrap());

    // No cookie; only an Authorization header.
    let (_, body) = request(
        &app,
        Some(header::AUTHORIZATION),
        &format!("Bearer {token}"),
        whoami,
    );
    assert_eq!(body, "alice");
    assert_eq!(calls.get(), 0);
}

#[test]
fn logout_clears_the_cookie() {
    let app = app(backend());

    let (res, _) = request(&app, None, "", logout);
    let cookie = set_cookie(&res).expect("logout should set an expiring cookie");
    assert!(cookie.starts_with("axum-login.jwt="));
    assert!(cookie.contains("Max-Age=0"));
}

#[test]
fn tampered_cookie_is_rejected() {
    let app = app(backend());

    let (_, body) = request(
        &app,
        Some(header::COOKIE),
        "axum-login.jwt=not-a-valid-token",
        whoami,
    );
    assert_eq!(body, "anon");
}

#[test]
fn sliding_refresh_reissues_cookie_in_last_third() {
    let app = app(backend());
    let now = now_unix();
    // Lifetime 1000s, only 100s remaining: within the last third.
    let token = craft_token(now - 900, now + 100, TokenKind::Access);

    let (res, body) = whoami_with_cookie(&app, &token);
    let cookie = set_cookie(&res).expect("token in last third should be re-issued");
    assert!(cookie.starts_with("axum-login.jwt="));
    assert!(cookie.contains("Max-Age="));
    assert!(!cookie.contains("Max-Age=0")); // a real token, not a clear
    assert_eq!(body, "alice");
}

#[test]
fn fresh_token_is_not_reissued() {
    let app = app(backend());
    let now = now_unix();
    // Full lifetime remaining: no refresh.
    let token = craft_token(now, now + 1000, TokenKind::Access);

    let (res, _) = whoami_with_cookie(&app, &token);
    assert!(
        set_cookie(&res).is_none(),
        "a fresh token must not be re-issued"
    );
}

#[test]
fn login_issues_both_access_and_refresh_cookies() {
    let app = refresh_app(backend());

    let (res, _) = request(&app, None, "", login);

    let access = find_set_cookie(&res, DEFAULT_JWT_COOKIE_NAME).expect("access cookie");
    let refresh = find_set_cookie(&res, REFRESH_COOKIE).expect("refresh cookie");
    assert!(access.contains("Path=/;"));
    assert!(refresh.contains("Path=/auth/refresh;"));
}

#[test]
fn valid_refresh_token_mints_new_access_cookie() {
    let app = refresh_app(backend());
    let now = now_unix();
    // Fresh refresh token (not in last third): should authenticate and mint an
    // access cookie, but not re-issue the refresh cookie.
    let refresh = craft_refresh_token(now, now + 1000);

    let (res, body) = request(
        &app,
        Some(header::COOKIE),
        &format!("{REFRESH_COOKIE}={refresh}"),
        whoami,
    );

    assert!(
        find_set_cookie(&res, DEFAULT_JWT_COOKIE_NAME).is_some(),
        "a valid refresh token should mint a fresh access cookie"
    );
    assert!(
        find_set_cookie(&res, REFRESH_COOKIE).is_none(),
        "a fresh refresh token should not be rotated"
    );
    assert_eq!(body, "alice");
}

#[test]
fn refresh_token_slides_in_last_third() {
    let app = refresh_app(backend());
    let now = now_unix();
    // Refresh token in its last third: re-issued (rotated) alongside access.
    let refresh = craft_refresh_token(now - 900, now + 100);

    let (res, _) = request(
        &app,
        Some(header::COOKIE),
        &format!("{REFRESH_COOKIE}={refresh}"),
        whoami,
    );

    let rotated = find_set_cookie(&res, REFRESH_COOKIE).expect("refresh should slide");
    assert!(rotated.contains("Path=/auth/refresh;"));
    assert!(!rotated.contains("Max-Age=0"));
}

#[test]
fn refresh_token_is_rejected_as_access_token() {
    let app = refresh_app(backend());
    let now = now_unix();
    // A Refresh-kind token presented in the access cookie must not authenticate
    // (typ mismatch).
    let refresh = craft_refresh_token(now, now + 1000);

    let (_, body) = request(
        &app,
        Some(header::COOKIE),
        &format!("{DEFAULT_JWT_COOKIE_NAME}={refresh}"),
        whoami,
    );

    assert_eq!(body, "anon");
}

#[test]
fn access_token_is_rejected_as_refresh_token() {
    let app = refresh_app(backend());
    let now = now_unix();
    // An Access-kind token presented in the refresh cookie must not be accepted for
    // minting.
    let access = craft_token(now, now + 1000, TokenKind::Access);

    let (res, body) = request(
        &app,
        Some(header::COOKIE),
        &format!("{REFRESH_COOKIE}={access}"),
        whoami,
    );

    assert!(find_set_cookie(&res, DEFAULT_JWT_COOKIE_NAME).is_none());
    assert_eq!(body, "anon");
}

#[test]
fn assert_jwt_api_available() {
    let config = JwtConfig::from_secret(b"secret")
        .with_secure(false)
        .with_cookie_name(DEFAULT_JWT_COOKIE_NAME);
    let _layer = JwtManagerLayer::new(backend(), config);
}

#[test]
fn refresh_token_mints_beside_a_fresh_access_token() {
    let app = refresh_app(backend());
    let now = now_unix();
    let access = JwtConfig::from_secret(b"test-secret")
        .sign_claims(Claims {
            sub: Value::from(2),
            iat: now,
            exp: now + 1000,
            typ: TokenKind::Access,
            user: user(2, "bob").to_claims(),
        })
        .unwrap();
    let refresh = craft_refresh_token(now, now + 1000);
    let (res, body) = request(
        &app,
        Some(header::COOKIE),
        &format!("axum-login.jwt={access}; {REFRESH_COOKIE}={refresh}"),
        whoami,
    );
    assert_eq!(body, "alice");
    assert_eq!(set_cookies(&res).len(), 1);
    let token = token_from_set_cookie(&find_set_cookie(&res, DEFAULT_JWT_COOKIE_NAME).unwrap());
    assert_eq!(app.config.decode::<User>(&token), Some(user(1, "alice")));
}

#[test]
fn invalid_refresh_token_leaves_the_access_token() {
    let app = refresh_app(backend());
    let now = now_unix();
    let access = craft_token(now, now + 1000, TokenKind::Access);
    let (res, body) = request(
        &app,
        Some(header::COOKIE),
        &format!("axum-login.jwt={access}; {REFRESH_COOKIE}={access}"),
        whoami,
    );
    assert_eq!(body, "alice");
    assert!(set_cookies(&res).is_empty());
}

#[test]
fn refresh_cookie_means_nothing_where_disabled() {
    let app = app(backend());
    let now = now_unix();
    let refresh = craft_refresh_token(now - 900, now + 100);
    let (res, body) = request(
        &app,
        Some(header::COOKIE),
        &format!("auth.refresh={refresh}"),
        whoami,
    );
    assert_eq!(body, "anon");
    assert!(set_cookies(&res).is_empty());
}

#[test]
fn logout_wins_over_sliding_refresh() {
    let app = refresh_app(backend());
    let now = now_unix();
    let token = craft_token(now - 900, now + 100, TokenKind::Access);
    let (res, _) = request(
        &app,
        Some(header::COOKIE),
        &format!("axum-login.jwt={token}"),
        logout,
    );
    assert_eq!(
        set_cookies(&res),
        vec![
            "axum-login.jwt=; Path=/; HttpOnly; SameSite=Lax; Max-Age=0".to_string(),
            "axum-login.refresh=; Path=/auth/refresh; HttpOnly; SameSite=Lax; Max-Age=0"
                .to_string(),
        ]
    );
}

#[test]
fn sliding_refresh_can_be_turned_off() {
    let config = JwtConfig::from_secret(b"test-secret").with_sliding_refresh(false);
    let app = JwtManagerLayer::new(backend(), config).layer(());
    let now = now_unix();
    let token = craft_token(now - 900, now + 100, TokenKind::Access);
    let (res, body) = whoami_with_cookie(&app, &token);
    assert_eq!(body, "alice");
    assert!(set_cookies(&res).is_empty());
}

#[test]
fn expired_token_leaves_a_request_anonymous() {
    let app = app(backend());
    let now = now_unix();
    let token = craft_token(now - 1000, now - 200, TokenKind::Access);
    let (res, body) = whoami_with_cookie(&app, &token);
    assert_eq!(body, "anon");
    assert!(set_cookies(&res).is_empty());
}

#[test]
fn tokens_are_tried_with_their_own_kind() {
    let config = JwtConfig::from_secret(b"test-secret").with_refresh_enabled(true);
    let now = now_unix();
    let mut headers = HeaderMap::new();
    let access = craft_token(now - 900, now + 100, TokenKind::Access);
    headers.insert(
        header::COOKIE,
        HeaderValue::from_str(&format!("axum-login.jwt={access}")).unwrap(),
    );
    let auth = authenticate_request::<User>(&config, &headers);
    assert_eq!(auth.user, Some(user(1, "alice")));
    assert_eq!(
        auth.reissue,
        Reissue {
            access: true,
            refresh: false
        }
    );
}

#[test]
fn accepted_tokens_are_judged_by_the_clock() {
    let config = JwtConfig::from_secret(b"test-secret");
    assert_eq!(judge(&config, Some(("a", 0, 90)), 59), (Some("a"), false));
    assert_eq!(judge(&config, Some(("a", 0, 90)), 60), (Some("a"), true));
    assert_eq!(judge(&config, Some(("a", 0, 90)), 90), (Some("a"), false));
    assert_eq!(judge::<&str>(&config, None, 60), (None, false));
}

#[test]
fn settling_prefers_the_refresh_token() {
    for (access, access_due, refresh, refresh_due, who, reissue) in [
        (None, false, None, false, None, (false, false)),
        (Some(1), false, None, false, Some(1), (false, false)),
        (Some(1), true, None, false, Some(1), (true, false)),
        (None, false, Some(2), false, Some(2), (true, false)),
        (Some(1), false, Some(2), true, Some(2), (true, true)),
    ] {
        let auth = settle(access, access_due, refresh, refresh_due);
        assert_eq!(auth.user, who);
        assert_eq!((auth.reissue.access, auth.reissue.refresh), reissue);
    }
}

#[test]
fn plans_put_explicit_actions_first() {
    let due = Reissue {
        access: true,
        refresh: true,
    };
    let none = Reissue {
        access: false,
        refresh: false,
    };
    for action in [PendingCookie::Issue, PendingCookie::Clear] {
        for reissue in [due, none] {
            assert_eq!(
                plan_cookies(Some(action), reissue, true),
                CookiePlan {
                    access: Some(action),
                    refresh: Some(action)
                }
            );
            assert_eq!(
                plan_cookies(Some(action), reissue, false),
                CookiePlan {
                    access: Some(action),
                    refresh: None
                }
            );
        }
    }
    assert_eq!(
        plan_cookies(None, due, true),
        CookiePlan {
            access: Some(PendingCookie::Issue),
            refresh: Some(PendingCookie::Issue)
        }
    );
    assert_eq!(
        plan_cookies(None, none, true),
        CookiePlan {
            access: None,
            refresh: None
        }
    );
}

#[test]
fn cookies_are_issued_for_the_current_user_only() {
    let config = JwtConfig::from_secret(b"test-secret");
    let nobody: AuthSession<Backend> = AuthSession::from_jwt(backend(), None);
    assert_eq!(issue_access_cookie(&nobody, &config), None);
    assert_eq!(issue_refresh_cookie(&nobody, &config), None);

    let unnamed = AuthSession::from_jwt(backend(), Some(user(-1, "nameless")));
    assert_eq!(issue_access_cookie(&unnamed, &config), None);
    assert_eq!(issue_refresh_cookie(&unnamed, &config), None);

    let session = AuthSession::from_jwt(backend(), Some(user(7, "carol")));
    let access = issue_access_cookie(&session, &config).unwrap();
    let token = token_from_set_cookie(&access);
    assert_eq!(access, config.access_set_cookie(&token));
    assert_eq!(config.decode::<User>(&token), Some(user(7, "carol")));
    let refresh = issue_refresh_cookie(&session, &config).unwrap();
    let token = token_from_set_cookie(&refresh);
    assert_eq!(refresh, config.refresh_set_cookie(&token));
    assert!(config
        .decode_kind::<User>(&token, TokenKind::Refresh)
        .is_some());

    let plan = CookiePlan {
        access: Some(PendingCookie::Clear),
        refresh: Some(PendingCookie::Issue),
    };
    let cookies = response_cookies(&config, &session, plan);
    assert_eq!(cookies.len(), 2);
    assert_eq!(cookies[0], config.access_clear_cookie());
    assert!(cookies[1].starts_with("auth.refresh=e"));
}

#[test]
fn full_headers_are_left_alone() {
    let app = app(backend());
    let mut session = AuthSession::from_jwt(backend(), Some(user(1, "alice")));
    assert!(matches!(session.logout(), LogoutStep::Done(Some(_))));
    let mut headers = HeaderMap::new();
    // No map holds more different fields.
    let mut i = 0;
    while headers.keys_len() < 24_576 {
        let name = HeaderName::from_bytes(format!("x-{i}").as_bytes()).unwrap();
        let _ = headers.try_insert(name, HeaderValue::from_static("1"));
        i += 1;
    }
    let before = headers.clone();
    let reissue = Reissue {
        access: false,
        refresh: false,
    };
    assert!(!app.close_session(&mut session, reissue, &mut headers));
    assert_eq!(headers, before);
    assert_eq!(session.take_pending_cookie(), None);
}

#[test]
fn layers_share_their_configuration() {
    let layer = JwtManagerLayer::new(backend(), JwtConfig::from_secret(b"test-secret"));
    let manager = layer.clone().layer("service");
    let copy = manager.clone();
    assert_eq!(manager.inner, "service");
    assert_eq!(copy.inner, "service");
    let token = layer.config.encode(&user(3, "dave")).unwrap();
    assert_eq!(manager.config.decode::<User>(&token), Some(user(3, "dave")));
    assert!(std::sync::Arc::ptr_eq(&copy.config, &layer.config));
}

#[test]
fn changed_tokens_leave_a_request_anonymous() {
    let app = refresh_app(backend());
    let now = now_unix();
    let access = craft_token(now - 900, now + 100, TokenKind::Access);
    let refresh = craft_refresh_token(now - 900, now + 100);
    let (res, body) = request(
        &app,
        Some(header::COOKIE),
        &format!("axum-login.jwt={access}x; {REFRESH_COOKIE}=a.{refresh}"),
        whoami,
    );
    assert_eq!(body, "anon");
    assert!(set_cookies(&res).is_empty());
}

#[test]
fn request_without_tokens_needs_no_checking_key() {
    let mut config = JwtConfig::from_secret(b"test-secret");
    config.decoding_key = jsonwebtoken::DecodingKey::from_ed_der(&[1; 31]);
    assert!(!config.can_check());
    let app = JwtManagerLayer::new(backend(), config).layer(());
    let (res, body) = request(&app, None, "", whoami);
    assert_eq!(body, "anon");
    assert!(set_cookies(&res).is_empty());
}

#[test]
fn refresh_cookie_of_a_login_is_exchanged() {
    let app = refresh_app(backend());
    let (res, _) = request(&app, None, "", login);
    let refresh = find_set_cookie(&res, REFRESH_COOKIE).unwrap();
    let pair = refresh.split(';').next().unwrap();
    let (res, body) = request(
        &app,
        Some(header::COOKIE),
        &format!("other=1; {pair}"),
        whoami,
    );
    assert_eq!(body, "alice");
    let access = find_set_cookie(&res, DEFAULT_JWT_COOKIE_NAME).unwrap();
    let token = token_from_set_cookie(&access);
    assert_eq!(app.config.decode::<User>(&token), Some(user(1, "alice")));
    assert!(find_set_cookie(&res, REFRESH_COOKIE).is_none());
}
