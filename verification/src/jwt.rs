//! Signing and checking of stateless tokens, and the cookies that carry them.

use crate::backend::TokenUser;
use crate::claims::{is_json_of, json_of, read_claims, stated_claims, Claims, TokenKind};
use crate::clock::{is_reading, now_unix, whole_seconds};
use crate::text::{decimal, decimal_text, IntoText};
use crate::token::{
    can_sign, check, checking_family, checking_secret, checks_expiry_only, ed_key_length,
    expiry_rules, is_checked, is_compact, is_ecdsa, is_hmac, is_pair, is_rsa, is_sealed, is_sound,
    is_token, is_whole, json_token_error, leeway, leeway_of, margin_of, secret_checking_key,
    secret_signing_key, sign, signed_token, signing_error, signing_family, signing_family_of,
    signing_secret, signs, token_error, LEEWAY_LIMIT,
};
use jsonwebtoken::{Algorithm, AlgorithmFamily, DecodingKey, EncodingKey, Validation};
use serde_json::Value;
use std::time::Duration;
use vstd::prelude::*;
use vstd::string::*;

verus! {

/// The default cookie name used to carry the access token.
pub const DEFAULT_JWT_COOKIE_NAME: &'static str = "axum-login.jwt";

/// The default cookie name used to carry the refresh token.
pub const DEFAULT_REFRESH_COOKIE_NAME: &'static str = "auth.refresh";

/// A cookie action deferred until the response is available.
///
/// Logging in and logging out record one of these; it is applied as a
/// `Set-Cookie` header after the handler ran.
#[derive(Debug, Clone, Copy, PartialEq, Eq, Structural)]
pub enum PendingCookie {
    /// Issue a fresh token for the currently authenticated user.
    Issue,
    /// Remove the token cookie.
    Clear,
}

/// Why a token could not be issued.
#[derive(Debug)]
pub enum JwtError {
    /// The user's ID has no JSON form.
    Json(serde_json::Error),
    /// The claims could not be signed.
    Jwt(jsonwebtoken::errors::Error),
}

impl JwtError {
    /// The error as one of `jsonwebtoken`, which has a form for either.
    pub fn into_token_error(self) -> (error: jsonwebtoken::errors::Error)
        ensures
            error == match self {
                JwtError::Json(cause) => json_token_error(cause),
                JwtError::Jwt(cause) => cause,
            },
    {
        match self {
            JwtError::Json(cause) => token_error(cause),
            JwtError::Jwt(cause) => cause,
        }
    }
}

/// Configuration for signing and checking stateless tokens.
///
/// Construct with [`JwtConfig::from_secret`] for symmetric (HMAC) signing, or
/// build the fields directly for asymmetric algorithms.
#[derive(Debug)]
pub struct JwtConfig {
    /// Key used to sign issued tokens.
    pub encoding_key: EncodingKey,
    /// Key used to check incoming tokens.
    pub decoding_key: DecodingKey,
    /// Signing algorithm; must be consistent with the keys.
    pub algorithm: Algorithm,
    /// Validation rules applied when decoding (e.g. `exp` checking).
    pub validation: Validation,
    /// How long an issued access token remains valid.
    pub ttl: Duration,
    /// Name of the cookie carrying the access token.
    pub cookie_name: String,
    /// `Path` attribute of the access token cookie. Defaults to `/`.
    pub path: String,
    /// Whether the issued cookies carry the `Secure` attribute. Defaults to
    /// `true`; set to `false` for local development over plain HTTP.
    pub secure: bool,
    /// Whether to re-issue the token cookie when an incoming token has reached
    /// the last third of its lifetime. Defaults to `true`.
    pub sliding_refresh: bool,
    /// Whether the refresh-token mechanism is enabled. Defaults to `false`.
    pub refresh_enabled: bool,
    /// How long an issued refresh token remains valid. Defaults to 7 days.
    pub refresh_ttl: Duration,
    /// Name of the cookie carrying the refresh token.
    pub refresh_cookie_name: String,
    /// `Path` attribute of the refresh token cookie. Defaults to `/`; set this
    /// to your refresh endpoint so the refresh cookie is only sent there.
    pub refresh_path: String,
}

impl Clone for JwtConfig {
    fn clone(&self) -> (copy: JwtConfig)
        ensures
            copy == *self,
    {
        JwtConfig {
            encoding_key: self.encoding_key.clone(),
            decoding_key: self.decoding_key.clone(),
            algorithm: self.algorithm,
            validation: self.validation.clone(),
            ttl: self.ttl,
            cookie_name: self.cookie_name.clone(),
            path: self.path.clone(),
            secure: self.secure,
            sliding_refresh: self.sliding_refresh,
            refresh_enabled: self.refresh_enabled,
            refresh_ttl: self.refresh_ttl,
            refresh_cookie_name: self.refresh_cookie_name.clone(),
            refresh_path: self.refresh_path.clone(),
        }
    }
}

/// A Unix timestamp so many seconds after another one, as far as there are
/// timestamps.
pub open spec fn later(now: u64, seconds: u64) -> u64 {
    if now + seconds > u64::MAX {
        u64::MAX
    } else {
        (now + seconds) as u64
    }
}

/// A `Set-Cookie` header value.
pub open spec fn set_cookie(
    name: Seq<char>,
    path: Seq<char>,
    value: Seq<char>,
    max_age: u64,
    secure: bool,
) -> Seq<char> {
    name + "="@ + value + "; Path="@ + path + "; HttpOnly; SameSite=Lax; Max-Age="@ + decimal(
        max_age as nat,
    ) + (if secure {
        "; Secure"@
    } else {
        Seq::empty()
    })
}

/// What issuing a token for a user came to, once the clock was read and the user
/// asked for the subject and the embedded view.
pub open spec fn is_issued(
    config: JwtConfig,
    subject: Result<Value, serde_json::Error>,
    view: Value,
    typ: TokenKind,
    ttl: u64,
    now: u64,
    outcome: Result<String, JwtError>,
) -> bool {
    match subject {
        Err(error) => outcome == Err::<String, JwtError>(JwtError::Json(error)),
        Ok(sub) => config.is_signed(
            Claims { sub, iat: now, exp: later(now, ttl), typ, user: view },
            outcome,
        ),
    }
}

/// What checking a token came to, once it was checked and the user type asked
/// for the ID and the user.
pub open spec fn is_decoded<User: TokenUser>(
    claims: Option<Value>,
    expected: TokenKind,
    id: Option<User::Id>,
    user: Option<User>,
    outcome: Option<(User, u64, u64)>,
) -> bool {
    match claims {
        None => outcome is None,
        Some(json) => match stated_claims(json) {
            None => outcome is None,
            Some(stated) => {
                &&& call_ensures(User::parse_subject, (stated.sub,), id)
                &&& if id is None || stated.typ != expected {
                    outcome is None
                } else {
                    &&& call_ensures(User::from_claims, (stated.user,), user)
                    &&& outcome == match user {
                        Some(user) => Some((user, stated.iat, stated.exp)),
                        None => None,
                    }
                }
            },
        },
    }
}

impl JwtConfig {
    /// Whether tokens can be signed without a panic.
    pub open spec fn signs_safely(self) -> bool {
        is_sound(self.algorithm, self.encoding_key)
    }

    /// Whether tokens can be checked without a panic: the checking key is whole, and
    /// the leeway is not longer than the time since the epoch.
    pub open spec fn checks_safely(self) -> bool {
        &&& is_whole(self.decoding_key)
        &&& leeway_of(self.validation) <= LEEWAY_LIMIT
    }

    /// Whether the keys and the rules can be worked with.
    pub open spec fn is_ready(self) -> bool {
        &&& self.signs_safely()
        &&& self.checks_safely()
    }

    /// Whether signing succeeds whatever the claims are: the key can sign with the
    /// algorithm, which is not one of those on elliptic curves.
    pub open spec fn signs_always(self) -> bool {
        &&& can_sign(self.algorithm, self.encoding_key)
        &&& !is_ecdsa(self.algorithm)
    }

    /// Whether the checking key is the counterpart of the signing key, and tokens are
    /// checked for their expiry only.
    pub open spec fn is_paired(self) -> bool {
        &&& is_pair(self.algorithm, self.encoding_key, self.decoding_key)
        &&& checks_expiry_only(self.validation, self.algorithm)
    }

    /// Whether tokens are signed and checked with one shared secret.
    pub open spec fn is_symmetric(self, secret: Seq<u8>) -> bool {
        &&& is_hmac(self.algorithm)
        &&& signing_secret(self.encoding_key) == Some(secret)
        &&& checking_secret(self.decoding_key) == Some(secret)
    }

    /// Whether a token with the given `iat` and `exp` claims is due for
    /// re-issue at the time `now`: sliding refresh is on, and the token, not yet
    /// expired, has at most a third of its lifetime left.
    pub open spec fn is_refresh_due(self, iat: u64, exp: u64, now: u64) -> bool {
        &&& self.sliding_refresh
        &&& iat < exp
        &&& now < exp
        &&& 3 * (exp - now) <= exp - iat
    }

    /// The cookie that carries an access token.
    pub open spec fn access_cookie(self, token: Seq<char>) -> Seq<char> {
        set_cookie(
            self.cookie_name@,
            self.path@,
            token,
            whole_seconds(self.ttl),
            self.secure,
        )
    }

    /// The cookie that removes the access token cookie.
    pub open spec fn no_access_cookie(self) -> Seq<char> {
        set_cookie(self.cookie_name@, self.path@, Seq::empty(), 0, self.secure)
    }

    /// The cookie that carries a refresh token.
    pub open spec fn refresh_cookie(self, token: Seq<char>) -> Seq<char> {
        set_cookie(
            self.refresh_cookie_name@,
            self.refresh_path@,
            token,
            whole_seconds(self.refresh_ttl),
            self.secure,
        )
    }

    /// The cookie that removes the refresh token cookie.
    pub open spec fn no_refresh_cookie(self) -> Seq<char> {
        set_cookie(self.refresh_cookie_name@, self.refresh_path@, Seq::empty(), 0, self.secure)
    }

    /// What signing claims came to: a token for their JSON form, where there is one
    /// to be had, which is so wherever signing always succeeds; or why there is none.
    /// But for the RSA algorithms, there is one token at most.
    pub open spec fn is_signed(self, claims: Claims, outcome: Result<String, JwtError>) -> bool {
        let json = json_of(claims);
        match outcome {
            Ok(token) => {
                &&& signs(self.algorithm, json, self.encoding_key)
                &&& can_sign(self.algorithm, self.encoding_key)
                &&& is_compact(token@)
                &&& is_json_of(json, claims)
                &&& is_token(token@, self.algorithm, json, self.encoding_key)
                &&& !is_rsa(self.algorithm) ==> token@ == signed_token(
                    self.algorithm,
                    json,
                    self.encoding_key,
                )
                &&& is_hmac(self.algorithm) && signing_secret(self.encoding_key) is Some
                    ==> is_sealed(
                    token@,
                    self.algorithm,
                    signing_secret(self.encoding_key)->0,
                )
            },
            Err(JwtError::Jwt(error)) => {
                &&& !signs(self.algorithm, json, self.encoding_key)
                &&& !self.signs_always()
                &&& error == signing_error(self.algorithm, json, self.encoding_key)
            },
            Err(JwtError::Json(_)) => false,
        }
    }

    /// What issuing a token for a user came to when the clock showed `now`.
    pub open spec fn encodes_at<User: TokenUser>(
        self,
        user: User,
        typ: TokenKind,
        ttl: u64,
        now: u64,
        outcome: Result<String, JwtError>,
    ) -> bool {
        exists|subject: Result<Value, serde_json::Error>, view: Value|
            call_ensures(User::subject, (&user,), subject) && call_ensures(
                User::to_claims,
                (&user,),
                view,
            ) && #[trigger] is_issued(self, subject, view, typ, ttl, now, outcome)
    }

    /// What issuing a token for a user came to.
    pub open spec fn encodes<User: TokenUser>(
        self,
        user: User,
        typ: TokenKind,
        ttl: u64,
        outcome: Result<String, JwtError>,
    ) -> bool {
        exists|now: u64|
            is_reading(now) && #[trigger] self.encodes_at(user, typ, ttl, now, outcome)
    }

    /// What checking a token of the expected kind came to when the clock showed
    /// `at`.
    pub open spec fn decodes_at<User: TokenUser>(
        self,
        token: Seq<char>,
        expected: TokenKind,
        at: u64,
        outcome: Option<(User, u64, u64)>,
    ) -> bool {
        exists|claims: Option<Value>, id: Option<User::Id>, user: Option<User>|
            is_checked(token, self.decoding_key, self.validation, at, claims)
                && #[trigger] is_decoded(claims, expected, id, user, outcome)
    }

    /// What checking a token of the expected kind came to.
    pub open spec fn decodes<User: TokenUser>(
        self,
        token: Seq<char>,
        expected: TokenKind,
        outcome: Option<(User, u64, u64)>,
    ) -> bool {
        exists|at: u64| #[trigger] self.decodes_at(token, expected, at, outcome)
    }

    /// Creates a config for symmetric HMAC (HS256) signing from a shared secret.
    ///
    /// Tokens default to a one-day lifetime and the [`DEFAULT_JWT_COOKIE_NAME`]
    /// cookie; adjust the fields as needed. A token is accepted before its `exp`, and
    /// not from then on.
    pub fn from_secret(secret: &[u8]) -> (config: JwtConfig)
        ensures
            config.is_ready(),
            config.is_symmetric(secret@),
            config.is_paired(),
            config.signs_always(),
            config.algorithm is HS256,
            leeway_of(config.validation) == 0,
            margin_of(config.validation) == 1,
            whole_seconds(config.ttl) == 86_400,
            config.cookie_name@ == DEFAULT_JWT_COOKIE_NAME@,
            config.path@ == "/"@,
            config.secure,
            config.sliding_refresh,
            !config.refresh_enabled,
            whole_seconds(config.refresh_ttl) == 604_800,
            config.refresh_cookie_name@ == DEFAULT_REFRESH_COOKIE_NAME@,
            config.refresh_path@ == "/"@,
    {
        let algorithm = Algorithm::HS256;
        JwtConfig {
            encoding_key: secret_signing_key(secret),
            decoding_key: secret_checking_key(secret),
            algorithm,
            validation: expiry_rules(algorithm, 0, 1),
            ttl: Duration::from_secs(60 * 60 * 24),
            cookie_name: DEFAULT_JWT_COOKIE_NAME.to_owned(),
            path: "/".to_owned(),
            secure: true,
            sliding_refresh: true,
            refresh_enabled: false,
            refresh_ttl: Duration::from_secs(60 * 60 * 24 * 7),
            refresh_cookie_name: DEFAULT_REFRESH_COOKIE_NAME.to_owned(),
            refresh_path: "/".to_owned(),
        }
    }

    /// Sets the access token lifetime.
    pub fn with_ttl(self, ttl: Duration) -> (config: JwtConfig)
        ensures
            config == (JwtConfig { ttl, ..self }),
    {
        JwtConfig { ttl, ..self }
    }

    /// Sets the cookie name used to carry the access token.
    pub fn with_cookie_name(self, cookie_name: impl IntoText) -> (config: JwtConfig)
        ensures
            config.cookie_name@ == cookie_name.characters(),
            config == (JwtConfig { cookie_name: config.cookie_name, ..self }),
    {
        JwtConfig { cookie_name: cookie_name.into_text(), ..self }
    }

    /// Sets the `Path` attribute of the access token cookie.
    pub fn with_path(self, path: impl IntoText) -> (config: JwtConfig)
        ensures
            config.path@ == path.characters(),
            config == (JwtConfig { path: config.path, ..self }),
    {
        JwtConfig { path: path.into_text(), ..self }
    }

    /// Sets whether the issued cookies carry the `Secure` attribute.
    pub fn with_secure(self, secure: bool) -> (config: JwtConfig)
        ensures
            config == (JwtConfig { secure, ..self }),
    {
        JwtConfig { secure, ..self }
    }

    /// Sets whether the token cookie is re-issued once an incoming token enters
    /// the last third of its lifetime.
    pub fn with_sliding_refresh(self, sliding_refresh: bool) -> (config: JwtConfig)
        ensures
            config == (JwtConfig { sliding_refresh, ..self }),
    {
        JwtConfig { sliding_refresh, ..self }
    }

    /// Enables (or disables) the refresh-token mechanism.
    pub fn with_refresh_enabled(self, enabled: bool) -> (config: JwtConfig)
        ensures
            config == (JwtConfig { refresh_enabled: enabled, ..self }),
    {
        JwtConfig { refresh_enabled: enabled, ..self }
    }

    /// Sets the refresh token lifetime.
    pub fn with_refresh_ttl(self, refresh_ttl: Duration) -> (config: JwtConfig)
        ensures
            config == (JwtConfig { refresh_ttl, ..self }),
    {
        JwtConfig { refresh_ttl, ..self }
    }

    /// Sets the cookie name used to carry the refresh token.
    pub fn with_refresh_cookie_name(self, name: impl IntoText) -> (config: JwtConfig)
        ensures
            config.refresh_cookie_name@ == name.characters(),
            config == (JwtConfig { refresh_cookie_name: config.refresh_cookie_name, ..self }),
    {
        JwtConfig { refresh_cookie_name: name.into_text(), ..self }
    }

    /// Sets the `Path` attribute of the refresh token cookie (e.g.
    /// `/auth/refresh`) so browsers only send it to your refresh endpoint.
    pub fn with_refresh_path(self, path: impl IntoText) -> (config: JwtConfig)
        ensures
            config.refresh_path@ == path.characters(),
            config == (JwtConfig { refresh_path: config.refresh_path, ..self }),
    {
        JwtConfig { refresh_path: path.into_text(), ..self }
    }

    /// Returns `true` when sliding refresh is enabled and a token with the given
    /// `iat`/`exp` claims has at most a third of its lifetime left at the time
    /// `now`. An expired token is not refreshed.
    pub fn should_refresh_at(&self, iat: u64, exp: u64, now: u64) -> (due: bool)
        ensures
            due == self.is_refresh_due(iat, exp, now),
    {
        if !self.sliding_refresh || exp <= iat {
            return false;
        }
        if now >= exp {
            return false;
        }
        let lifetime: u64 = exp - iat;
        let remaining: u64 = exp - now;
        remaining <= lifetime / 3
    }

    /// Returns `true` when sliding refresh is enabled and a token with the given
    /// `iat`/`exp` claims has at most a third of its lifetime left.
    pub fn should_refresh(&self, iat: u64, exp: u64) -> (due: bool)
        ensures
            exists|now: u64| is_reading(now) && due == #[trigger] self.is_refresh_due(
                iat,
                exp,
                now,
            ),
    {
        let now: u64 = now_unix();
        self.should_refresh_at(iat, exp, now)
    }

    /// Builds a `Set-Cookie` header value.
    pub fn build_cookie(&self, name: &str, path: &str, value: &str, max_age: u64) -> (cookie:
        String)
        ensures
            cookie@ == set_cookie(name@, path@, value@, max_age, self.secure),
    {
        let mut cookie = name.to_owned();
        cookie.append("=");
        cookie.append(value);
        cookie.append("; Path=");
        cookie.append(path);
        cookie.append("; HttpOnly; SameSite=Lax; Max-Age=");
        cookie.append(decimal_text(max_age).as_str());
        if self.secure {
            cookie.append("; Secure");
        } else {
            proof {
                assert(cookie@ + Seq::<char>::empty() =~= cookie@);
            }
        }
        cookie
    }

    /// `Set-Cookie` carrying a freshly issued access token.
    pub fn access_set_cookie(&self, token: &str) -> (cookie: String)
        ensures
            cookie@ == self.access_cookie(token@),
    {
        self.build_cookie(
            self.cookie_name.as_str(),
            self.path.as_str(),
            token,
            self.ttl.as_secs(),
        )
    }

    /// `Set-Cookie` that removes the access token cookie.
    pub fn access_clear_cookie(&self) -> (cookie: String)
        ensures
            cookie@ == self.no_access_cookie(),
    {
        proof {
            reveal_strlit("");
            assert(""@ =~= Seq::<char>::empty());
        }
        self.build_cookie(self.cookie_name.as_str(), self.path.as_str(), "", 0)
    }

    /// `Set-Cookie` carrying a freshly issued refresh token.
    pub fn refresh_set_cookie(&self, token: &str) -> (cookie: String)
        ensures
            cookie@ == self.refresh_cookie(token@),
    {
        self.build_cookie(
            self.refresh_cookie_name.as_str(),
            self.refresh_path.as_str(),
            token,
            self.refresh_ttl.as_secs(),
        )
    }

    /// `Set-Cookie` that removes the refresh token cookie.
    pub fn refresh_clear_cookie(&self) -> (cookie: String)
        ensures
            cookie@ == self.no_refresh_cookie(),
    {
        proof {
            reveal_strlit("");
            assert(""@ =~= Seq::<char>::empty());
        }
        self.build_cookie(self.refresh_cookie_name.as_str(), self.refresh_path.as_str(), "", 0)
    }

    /// Whether the signing key is an RSA key. Tokens can be signed without a panic with
    /// any other key.
    pub fn has_rsa_key(&self) -> (rsa: bool)
        ensures
            rsa == (signing_family_of(self.encoding_key) is Rsa),
            !rsa ==> self.signs_safely(),
    {
        match signing_family(&self.encoding_key) {
            AlgorithmFamily::Rsa => true,
            _ => false,
        }
    }

    /// Whether tokens can be checked without a panic.
    pub fn can_check(&self) -> (can: bool)
        ensures
            can == self.checks_safely(),
    {
        let whole = match checking_family(&self.decoding_key) {
            AlgorithmFamily::Ed => ed_key_length(&self.decoding_key) >= 32,
            _ => true,
        };
        whole && leeway(&self.validation) <= LEEWAY_LIMIT
    }

    /// Signs claims.
    pub fn sign_claims(&self, claims: Claims) -> (outcome: Result<String, JwtError>)
        requires
            self.signs_safely(),
        ensures
            self.is_signed(claims, outcome),
    {
        let json = claims.into_json();
        match sign(self.algorithm, &json, &self.encoding_key) {
            Ok(token) => Ok(token),
            Err(error) => Err(JwtError::Jwt(error)),
        }
    }

    /// Signs a token that is issued at the time `now` for a user with the given
    /// subject and embedded view.
    pub fn encode_at(
        &self,
        subject: Result<Value, serde_json::Error>,
        view: Value,
        typ: TokenKind,
        ttl: Duration,
        now: u64,
    ) -> (outcome: Result<String, JwtError>)
        requires
            self.signs_safely(),
        ensures
            is_issued(*self, subject, view, typ, whole_seconds(ttl), now, outcome),
    {
        match subject {
            Err(error) => Err(JwtError::Json(error)),
            Ok(sub) => {
                let exp: u64 = now.saturating_add(ttl.as_secs());
                self.sign_claims(Claims { sub, iat: now, exp, typ, user: view })
            },
        }
    }

    /// Signs a token of the given kind for the given user.
    pub fn encode_kind<User: TokenUser>(&self, user: &User, typ: TokenKind, ttl: Duration) -> (outcome:
        Result<String, JwtError>)
        requires
            self.signs_safely(),
        ensures
            self.encodes(*user, typ, whole_seconds(ttl), outcome),
    {
        let now: u64 = now_unix();
        let subject = user.subject();
        let view = user.to_claims();
        let ghost (stated, embedded) = (subject, view);
        let outcome = self.encode_at(subject, view, typ, ttl, now);
        assert(is_issued(*self, stated, embedded, typ, whole_seconds(ttl), now, outcome));
        assert(self.encodes_at(*user, typ, whole_seconds(ttl), now, outcome));
        outcome
    }

    /// Encodes and signs an access token for the given user.
    ///
    /// The user is embedded via [`TokenUser::to_claims`], which must strip
    /// sensitive fields.
    pub fn encode<User: TokenUser>(&self, user: &User) -> (outcome: Result<String, JwtError>)
        requires
            self.signs_safely(),
        ensures
            self.encodes(*user, TokenKind::Access, whole_seconds(self.ttl), outcome),
    {
        self.encode_kind(user, TokenKind::Access, self.ttl)
    }

    /// Signs a refresh token for the given user.
    pub fn encode_refresh<User: TokenUser>(&self, user: &User) -> (outcome: Result<String, JwtError>)
        requires
            self.signs_safely(),
        ensures
            self.encodes(*user, TokenKind::Refresh, whole_seconds(self.refresh_ttl), outcome),
    {
        self.encode_kind(user, TokenKind::Refresh, self.refresh_ttl)
    }

    /// Decodes a token, verifying it is of the expected [`TokenKind`], and
    /// returns the reconstructed user plus its `iat` and `exp` claims (for
    /// sliding-refresh decisions).
    pub fn decode_kind<User: TokenUser>(&self, token: &str, expected: TokenKind) -> (outcome: Option<
        (User, u64, u64),
    >)
        requires
            self.checks_safely(),
        ensures
            self.decodes(token@, expected, outcome),
    {
        let claims = check(token, &self.decoding_key, &self.validation);
        let outcome = accept_claims::<User>(&claims, expected);
        proof {
            let at = choose|at: u64| #[trigger]
                is_checked(
                    token@,
                    self.decoding_key,
                    self.validation,
                    at,
                    claims,
                );
            assert(self.decodes_at(token@, expected, at, outcome));
        }
        outcome
    }

    /// Verifies an access token and reconstructs the user from its claims.
    ///
    /// Returns `None` when the token fails verification (bad signature, expired,
    /// wrong algorithm), when it is no access token, or when the embedded claims
    /// cannot be turned back into a user via [`TokenUser::from_claims`].
    pub fn decode<User: TokenUser>(&self, token: &str) -> (user: Option<User>)
        requires
            self.checks_safely(),
        ensures
            exists|outcome: Option<(User, u64, u64)>| #[trigger]
                self.decodes(token@, TokenKind::Access, outcome) && user == match outcome {
                    Some((user, _, _)) => Some(user),
                    None => None,
                },
    {
        match self.decode_kind::<User>(token, TokenKind::Access) {
            Some((user, _, _)) => Some(user),
            None => None,
        }
    }
}

/// The user and the `iat` and `exp` claims that a checked token gives, if it is
/// of the expected kind. `claims` are those that checking the token handed out.
pub fn accept_claims<User: TokenUser>(claims: &Option<Value>, expected: TokenKind) -> (outcome:
    Option<(User, u64, u64)>)
    ensures
        exists|id: Option<User::Id>, user: Option<User>| #[trigger]
            is_decoded(*claims, expected, id, user, outcome),
{
    let json = match claims {
        Some(json) => json,
        None => {
            assert(is_decoded(*claims, expected, None::<User::Id>, None::<User>, None));
            return None;
        },
    };
    let stated = match read_claims(json) {
        Some(stated) => stated,
        None => {
            assert(is_decoded(*claims, expected, None::<User::Id>, None::<User>, None));
            return None;
        },
    };
    let id = User::parse_subject(stated.sub);
    if id.is_none() || stated.typ != expected {
        assert(is_decoded(*claims, expected, id, None::<User>, None));
        return None;
    }
    let user = User::from_claims(stated.user);
    let ghost embedded = user;
    let outcome = match user {
        Some(user) => Some((user, stated.iat, stated.exp)),
        None => None,
    };
    assert(is_decoded(*claims, expected, id, embedded, outcome));
    outcome
}

} // verus!

