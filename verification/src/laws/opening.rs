//! Laws on opening a session: whom a request is from, and which tokens it makes due.

use crate::backend::{AuthnBackend, TokenUser};
use crate::claims::TokenKind;
use crate::clock::{is_reading, whole_seconds, Period};
use crate::cookies::{extract_cookie, extract_token, text_view};
use crate::jwt::{is_decoded, JwtConfig, JwtError};
use crate::laws::issuing::{
    after, is_due_outcome, is_over, lemma_decoded_is_due, lemma_encoded_says, lemma_good_at,
};
use crate::laws::requests::{is_faithful, lemma_attempts};
use crate::manager::{
    authenticate_request, is_attempt, is_authenticated, is_judged, judge, settle, JwtManager,
    Reissue, RequestAuth,
};
use crate::session::{AuthSession, Inner};
use crate::token::{checked_claims, checks_expiry_only, is_checked, is_pair};
use axum::http::{HeaderMap, HeaderValue};
use serde_json::Value;
use vstd::prelude::*;

verus! {

/// Whether a token with these times is to be issued anew at a time: sliding refresh is
/// on, the token was good for a while and still is, and its last third has begun.
pub open spec fn is_in_last_third(sliding: bool, iat: u64, exp: u64, now: u64) -> bool {
    sliding && iat < exp && exp - (exp - iat) / 3 <= now < exp
}

/// Whether what a token was accepted with makes it due at a time; a refused one never is.
pub open spec fn is_due<User>(
    config: JwtConfig,
    outcome: Option<(User, u64, u64)>,
    now: u64,
) -> bool {
    outcome matches Some((_, iat, exp)) && is_in_last_third(config.sliding_refresh, iat, exp, now)
}

/// A token is due in the last third of its lifetime, with sliding refresh on.
pub proof fn token_is_due_in_its_last_third(
    config: &JwtConfig,
    iat: u64,
    exp: u64,
    now: u64,
    due: bool,
)
    requires
        call_ensures(JwtConfig::should_refresh_at, (config, iat, exp, now), due),
    ensures
        due <==> is_in_last_third(config.sliding_refresh, iat, exp, now),
{
}

/// Whether a token is due is asked of the current time.
pub proof fn token_is_due_now(config: &JwtConfig, iat: u64, exp: u64, due: bool) -> (now: u64)
    requires
        call_ensures(JwtConfig::should_refresh, (config, iat, exp), due),
    ensures
        is_reading(now),
        due <==> is_in_last_third(config.sliding_refresh, iat, exp, now),
{
    choose|now: u64|
        is_reading(now) && due == #[trigger] config.is_refresh_due(iat, exp, now)
}

/// An accepted token gives its user, and is due by its times; a refused one gives nobody,
/// and is not due.
pub proof fn accepted_token_gives_its_user<User>(
    config: &JwtConfig,
    outcome: Option<(User, u64, u64)>,
    now: u64,
    r: (Option<User>, bool),
)
    requires
        call_ensures(judge::<User>, (config, outcome, now), r),
    ensures
        outcome matches Some((user, _, _)) ==> r.0 == Some(user),
        outcome is None ==> r.0 is None,
        r.1 <==> is_due(*config, outcome, now),
{
}

/// The user of a refresh token comes first, and gets an access token whatever is due. Who
/// has none is the user of the access token, which is issued anew if it is due. A refresh
/// token is issued anew if it is due.
pub proof fn refresh_token_comes_first<User>(
    access: Option<User>,
    access_due: bool,
    refresh: Option<User>,
    refresh_due: bool,
    auth: RequestAuth<User>,
)
    requires
        call_ensures(settle::<User>, (access, access_due, refresh, refresh_due), auth),
    ensures
        refresh is Some ==> auth.user == refresh && auth.reissue.access,
        refresh is None ==> auth.user == access && auth.reissue.access == access_due,
        auth.reissue.refresh == refresh_due,
{
}

/// A token that was tried: when it was checked, what it was accepted with, and when it was
/// asked for being due.
pub struct Attempt<User> {
    pub at: u64,
    pub outcome: Option<(User, u64, u64)>,
    pub now: u64,
}

/// Whether this is what trying a token of a kind came to. Where there is no token, nothing
/// is accepted.
pub open spec fn is_trial<User: TokenUser>(
    config: JwtConfig,
    token: Option<String>,
    kind: TokenKind,
    trial: Attempt<User>,
) -> bool {
    match token {
        None => trial.outcome is None,
        Some(token) => {
            &&& is_reading(trial.at)
            &&& is_reading(trial.now)
            &&& is_due_outcome(
                checked_claims(token@, config.decoding_key, config.validation, trial.at),
                kind,
                trial.outcome,
            )
            &&& config.decodes_at(token@, kind, trial.at, trial.outcome)
        },
    }
}

/// The user whom a token was accepted for.
pub open spec fn accepted<User>(outcome: Option<(User, u64, u64)>) -> Option<User> {
    match outcome {
        Some((user, _, _)) => Some(user),
        None => None,
    }
}

proof fn lemma_trial<User: TokenUser>(
    config: JwtConfig,
    token: Option<String>,
    kind: TokenKind,
    period: Period,
    user: Option<User>,
    due: bool,
) -> (trial: Attempt<User>)
    requires
        is_attempt(config, text_view(token), kind, period, user, due),
    ensures
        is_trial(config, token, kind, trial),
        user == accepted(trial.outcome),
        due <==> is_due(config, trial.outcome, trial.now),
{
    match token {
        None => Attempt { at: 0, outcome: None, now: 0 },
        Some(text) => {
            assert(text_view(token) == Some(text@));
            let (at, outcome, now) = choose|at: u64, outcome: Option<(User, u64, u64)>, now: u64|
                period.has(at) && period.has(now) && is_reading(now)
                    && #[trigger] config.decodes_at(text@, kind, at, outcome)
                    && #[trigger] is_judged(config, outcome, now, user, due);
            let (claims, id, found) = choose|
                claims: Option<Value>,
                id: Option<User::Id>,
                found: Option<User>,
            |
                is_checked(text@, config.decoding_key, config.validation, at, claims)
                    && #[trigger] is_decoded(claims, kind, id, found, outcome);
            lemma_decoded_is_due(claims, kind, id, found, outcome);
            Attempt { at, outcome, now }
        },
    }
}

/// Whether these are the tokens that a request carries: in the access cookie or as a
/// bearer token, and in the refresh cookie.
pub open spec fn are_tokens_of(
    config: JwtConfig,
    headers: &HeaderMap<HeaderValue>,
    name: &str,
    refresh_name: &str,
    access: Option<String>,
    refresh: Option<String>,
) -> bool {
    &&& name@ == config.cookie_name@
    &&& refresh_name@ == config.refresh_cookie_name@
    &&& call_ensures(extract_token, (headers, name), access)
    &&& call_ensures(extract_cookie, (headers, refresh_name), refresh)
}

/// The refresh token that counts: none where refresh tokens are not enabled.
pub open spec fn counting(config: JwtConfig, refresh: Option<String>) -> Option<String> {
    if config.refresh_enabled {
        refresh
    } else {
        None
    }
}

proof fn lemma_trials<User: TokenUser>(
    config: JwtConfig,
    headers: &HeaderMap<HeaderValue>,
    period: Period,
    auth: RequestAuth<User>,
    name: &str,
    refresh_name: &str,
    access: Option<String>,
    refresh: Option<String>,
) -> (trials: (Attempt<User>, Attempt<User>))
    requires
        is_authenticated(config, *headers, period, auth),
        are_tokens_of(config, headers, name, refresh_name, access, refresh),
    ensures
        is_trial(config, access, TokenKind::Access, trials.0),
        is_trial(config, counting(config, refresh), TokenKind::Refresh, trials.1),
        auth.user == if trials.1.outcome is Some {
            accepted(trials.1.outcome)
        } else {
            accepted(trials.0.outcome)
        },
        auth.reissue.access <==> trials.1.outcome is Some || is_due(
            config,
            trials.0.outcome,
            trials.0.now,
        ),
        auth.reissue.refresh <==> is_due(config, trials.1.outcome, trials.1.now),
{
    let attempts = lemma_attempts(config, *headers, period, auth);
    let first = lemma_trial(
        config,
        access,
        TokenKind::Access,
        period,
        attempts.0,
        attempts.1,
    );
    let second = lemma_trial(
        config,
        counting(config, refresh),
        TokenKind::Refresh,
        period,
        attempts.2,
        attempts.3,
    );
    (first, second)
}

/// A request is from the user of its refresh token, if that is accepted, and gets an
/// access token; else from the user of its access token, which is issued anew if it is
/// due. The refresh token is issued anew if it is due. The two trials are handed out.
pub proof fn request_is_from_the_user_of_its_tokens<User: TokenUser>(
    config: &JwtConfig,
    headers: &HeaderMap<HeaderValue>,
    auth: RequestAuth<User>,
    name: &str,
    refresh_name: &str,
    access: Option<String>,
    refresh: Option<String>,
) -> (trials: (Attempt<User>, Attempt<User>))
    requires
        call_ensures(authenticate_request::<User>, (config, headers), auth),
        are_tokens_of(*config, headers, name, refresh_name, access, refresh),
    ensures
        is_trial(*config, access, TokenKind::Access, trials.0),
        is_trial(*config, counting(*config, refresh), TokenKind::Refresh, trials.1),
        auth.user == if trials.1.outcome is Some {
            accepted(trials.1.outcome)
        } else {
            accepted(trials.0.outcome)
        },
        auth.reissue.access <==> trials.1.outcome is Some || is_due(
            *config,
            trials.0.outcome,
            trials.0.now,
        ),
        auth.reissue.refresh <==> is_due(*config, trials.1.outcome, trials.1.now),
{
    let period = choose|period: Period| #[trigger]
        is_authenticated(*config, *headers, period, auth);
    lemma_trials(*config, headers, period, auth, name, refresh_name, access, refresh)
}

/// The session that is opened for a request is that of the user of its tokens, as
/// authentication tells, with nothing to be done yet and a clone of the backend; the
/// tokens to be issued anew are those that authentication tells, all of them. The two
/// trials are handed out.
pub proof fn session_is_of_the_user_of_the_tokens<S, Backend: AuthnBackend>(
    manager: &JwtManager<S, Backend>,
    headers: &HeaderMap<HeaderValue>,
    opened: (AuthSession<Backend>, Reissue),
    name: &str,
    refresh_name: &str,
    access: Option<String>,
    refresh: Option<String>,
) -> (trials: (Attempt<Backend::User>, Attempt<Backend::User>)) where Backend::User: TokenUser
    requires
        call_ensures(JwtManager::<S, Backend>::open_session, (manager, headers), opened),
        are_tokens_of(*manager.config, headers, name, refresh_name, access, refresh),
    ensures
        cloned(manager.backend, opened.0.backend),
        is_trial(*manager.config, access, TokenKind::Access, trials.0),
        is_trial(
            *manager.config,
            counting(*manager.config, refresh),
            TokenKind::Refresh,
            trials.1,
        ),
        opened.0.inner matches Inner::Jwt { user, pending: None } && user == if trials.1.outcome
            is Some {
            accepted(trials.1.outcome)
        } else {
            accepted(trials.0.outcome)
        },
        opened.1.access <==> trials.1.outcome is Some || is_due(
            *manager.config,
            trials.0.outcome,
            trials.0.now,
        ),
        opened.1.refresh <==> is_due(*manager.config, trials.1.outcome, trials.1.now),
{
    let config = *manager.config;
    let (period, auth) = choose|period: Period, auth: RequestAuth<Backend::User>| #[trigger]
        is_authenticated(config, *headers, period, auth) && opened.0.inner == (Inner::<
            Backend,
        >::Jwt { user: auth.user, pending: None }) && opened.1 == auth.reissue;
    lemma_trials(config, headers, period, auth, name, refresh_name, access, refresh)
}

/// The session that is opened for a request, and the tokens that are to be issued anew, are
/// what authenticating the request gives, which is handed out.
pub proof fn session_is_what_authentication_gives<S, Backend: AuthnBackend>(
    manager: &JwtManager<S, Backend>,
    headers: &HeaderMap<HeaderValue>,
    opened: (AuthSession<Backend>, Reissue),
) -> (auth: RequestAuth<Backend::User>) where Backend::User: TokenUser
    requires
        call_ensures(JwtManager::<S, Backend>::open_session, (manager, headers), opened),
    ensures
        exists|period: Period| #[trigger]
            is_authenticated(*manager.config, *headers, period, auth),
        opened.0.inner matches Inner::Jwt { user, pending: None } && user == auth.user,
        opened.1.access == auth.reissue.access,
        opened.1.refresh == auth.reissue.refresh,
{
    let (period, auth) = choose|period: Period, auth: RequestAuth<Backend::User>| #[trigger]
        is_authenticated(*manager.config, *headers, period, auth) && opened.0.inner == (Inner::<
            Backend,
        >::Jwt { user: auth.user, pending: None }) && opened.1 == auth.reissue;
    auth
}

/// A request without tokens that count opens a session of nobody, and makes no token due.
pub proof fn session_without_tokens_is_of_nobody<S, Backend: AuthnBackend>(
    manager: &JwtManager<S, Backend>,
    headers: &HeaderMap<HeaderValue>,
    opened: (AuthSession<Backend>, Reissue),
    name: &str,
    refresh_name: &str,
    refresh: Option<String>,
) where Backend::User: TokenUser
    requires
        call_ensures(JwtManager::<S, Backend>::open_session, (manager, headers), opened),
        are_tokens_of(*manager.config, headers, name, refresh_name, None, refresh),
        refresh is None || !manager.config.refresh_enabled,
    ensures
        opened.0.inner matches Inner::Jwt { user: None, pending: None },
        !opened.1.access,
        !opened.1.refresh,
{
    let trials = session_is_of_the_user_of_the_tokens(
        manager,
        headers,
        opened,
        name,
        refresh_name,
        None,
        refresh,
    );
}

/// A request that carries a refresh token that was issued for a user opens, until the
/// configured lifetime of refresh tokens is over, a session of that user, and gets a new
/// access token: whether or not sliding refresh is on, and whatever access token comes
/// with it. Once the lifetime is over, the refresh token counts for nothing.
///
/// The keys are a pair, only the expiry is checked, and the user survives being carried
/// by a token. The times are those of issuing and of checking.
pub proof fn refresh_token_opens_a_session<S, Backend: AuthnBackend>(
    manager: &JwtManager<S, Backend>,
    user: &Backend::User,
    remade: Backend::User,
    token: String,
    headers: &HeaderMap<HeaderValue>,
    opened: (AuthSession<Backend>, Reissue),
    name: &str,
    refresh_name: &str,
    access: Option<String>,
    refresh: String,
) -> (times: (u64, u64)) where Backend::User: TokenUser
    requires
        is_pair(
            manager.config.algorithm,
            manager.config.encoding_key,
            manager.config.decoding_key,
        ),
        checks_expiry_only(manager.config.validation, manager.config.algorithm),
        manager.config.refresh_enabled,
        is_faithful(*user, remade),
        call_ensures(
            JwtConfig::encode_refresh::<Backend::User>,
            (&*manager.config, user),
            Ok::<String, JwtError>(token),
        ),
        call_ensures(JwtManager::<S, Backend>::open_session, (manager, headers), opened),
        are_tokens_of(*manager.config, headers, name, refresh_name, access, Some(refresh)),
        refresh@ == token@,
    ensures
        is_reading(times.0),
        is_reading(times.1),
        !is_over(
            manager.config.validation,
            after(times.0, whole_seconds(manager.config.refresh_ttl)),
            times.1,
        ) ==> (opened.0.inner matches Inner::Jwt { user: Some(found), pending: None } && found
            == remade) && opened.1.access,
        is_over(
            manager.config.validation,
            after(times.0, whole_seconds(manager.config.refresh_ttl)),
            times.1,
        ) ==> !opened.1.refresh && (access is None ==> opened.0.inner matches Inner::Jwt {
            user: None,
            pending: None,
        }) && (access is None ==> !opened.1.access),
        opened.1.refresh ==> manager.config.sliding_refresh,
{
    let config = *manager.config;
    let trials = session_is_of_the_user_of_the_tokens(
        manager,
        headers,
        opened,
        name,
        refresh_name,
        access,
        Some(refresh),
    );
    assert(cloned(*user, *user));
    let now = lemma_good_at(
        config,
        *user,
        *user,
        remade,
        TokenKind::Refresh,
        whole_seconds(config.refresh_ttl),
        token,
        TokenKind::Refresh,
        trials.1.at,
        trials.1.outcome,
    );
    (now, trials.1.at)
}

/// A request that carries an access token that was issued for a user, and no refresh token
/// that counts, opens a session of that user until the configured lifetime of access
/// tokens is over, and one of nobody from then on. It makes the access token due in its
/// last third, and the refresh token never.
///
/// The keys are a pair, only the expiry is checked, and the user survives being carried
/// by a token. The times are those of issuing, of checking and of asking for what is due.
pub proof fn access_token_opens_a_session<S, Backend: AuthnBackend>(
    manager: &JwtManager<S, Backend>,
    user: &Backend::User,
    remade: Backend::User,
    token: String,
    headers: &HeaderMap<HeaderValue>,
    opened: (AuthSession<Backend>, Reissue),
    name: &str,
    refresh_name: &str,
    access: String,
    refresh: Option<String>,
) -> (times: (u64, u64, u64)) where Backend::User: TokenUser
    requires
        is_pair(
            manager.config.algorithm,
            manager.config.encoding_key,
            manager.config.decoding_key,
        ),
        checks_expiry_only(manager.config.validation, manager.config.algorithm),
        refresh is None || !manager.config.refresh_enabled,
        is_faithful(*user, remade),
        call_ensures(
            JwtConfig::encode::<Backend::User>,
            (&*manager.config, user),
            Ok::<String, JwtError>(token),
        ),
        call_ensures(JwtManager::<S, Backend>::open_session, (manager, headers), opened),
        are_tokens_of(*manager.config, headers, name, refresh_name, Some(access), refresh),
        access@ == token@,
    ensures
        is_reading(times.0),
        is_reading(times.1),
        is_reading(times.2),
        !opened.1.refresh,
        is_over(
            manager.config.validation,
            after(times.0, whole_seconds(manager.config.ttl)),
            times.1,
        ) ==> !opened.1.access && opened.0.inner matches Inner::Jwt { user: None, pending: None },
        !is_over(
            manager.config.validation,
            after(times.0, whole_seconds(manager.config.ttl)),
            times.1,
        ) ==> {
            &&& opened.0.inner matches Inner::Jwt { user: Some(found), pending: None } && found
                == remade
            &&& opened.1.access <==> is_in_last_third(
                manager.config.sliding_refresh,
                times.0,
                after(times.0, whole_seconds(manager.config.ttl)) as u64,
                times.2,
            )
        },
{
    let config = *manager.config;
    let trials = session_is_of_the_user_of_the_tokens(
        manager,
        headers,
        opened,
        name,
        refresh_name,
        Some(access),
        refresh,
    );
    assert(cloned(*user, *user));
    let now = lemma_good_at(
        config,
        *user,
        *user,
        remade,
        TokenKind::Access,
        whole_seconds(config.ttl),
        token,
        TokenKind::Access,
        trials.0.at,
        trials.0.outcome,
    );
    (now, trials.0.at, trials.0.now)
}

/// A request that carries a refresh token in the place of an access token, or the other way
/// round, or both, opens a session of nobody, and makes no token due.
pub proof fn token_in_the_wrong_place_opens_nothing<S, Backend: AuthnBackend>(
    manager: &JwtManager<S, Backend>,
    user: &Backend::User,
    access_token: String,
    refresh_token: String,
    headers: &HeaderMap<HeaderValue>,
    opened: (AuthSession<Backend>, Reissue),
    name: &str,
    refresh_name: &str,
    access: Option<String>,
    refresh: Option<String>,
) where Backend::User: TokenUser
    requires
        call_ensures(
            JwtConfig::encode::<Backend::User>,
            (&*manager.config, user),
            Ok::<String, JwtError>(access_token),
        ),
        call_ensures(
            JwtConfig::encode_refresh::<Backend::User>,
            (&*manager.config, user),
            Ok::<String, JwtError>(refresh_token),
        ),
        call_ensures(JwtManager::<S, Backend>::open_session, (manager, headers), opened),
        are_tokens_of(*manager.config, headers, name, refresh_name, access, refresh),
        access matches Some(text) ==> text@ == refresh_token@,
        refresh matches Some(text) ==> text@ == access_token@,
    ensures
        opened.0.inner matches Inner::Jwt { user: None, pending: None },
        !opened.1.access,
        !opened.1.refresh,
{
    let config = *manager.config;
    let trials = session_is_of_the_user_of_the_tokens(
        manager,
        headers,
        opened,
        name,
        refresh_name,
        access,
        refresh,
    );
    if let Some((found, iat, exp)) = trials.0.outcome {
        lemma_encoded_says(
            config,
            *user,
            TokenKind::Refresh,
            whole_seconds(config.refresh_ttl),
            refresh_token,
            config,
            TokenKind::Access,
            found,
            iat,
            exp,
        );
    }
    if let Some((found, iat, exp)) = trials.1.outcome {
        lemma_encoded_says(
            config,
            *user,
            TokenKind::Access,
            whole_seconds(config.ttl),
            access_token,
            config,
            TokenKind::Refresh,
            found,
            iat,
            exp,
        );
    }
}

} // verus!
