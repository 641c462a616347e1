//! The part that tokens play in a request and its response.

use crate::backend::{AuthnBackend, TokenUser};
use crate::claims::TokenKind;
use crate::clock::{is_reading, now_unix, whole_seconds, Period};
use crate::cookies::{cookie_value, extract_cookie, extract_token, request_token, text_view};
use crate::headers::{
    append_set_cookie, fields_of, header_value, is_header_text, values_of,
    FIELDS_LIMIT,
};
use crate::jwt::{JwtConfig, JwtError, PendingCookie};
use crate::session::{AuthSession, Inner};
use axum::http::{HeaderMap, HeaderValue};
use std::sync::Arc;
use vstd::prelude::*;

verus! {

/// Which tokens are to be issued anew with the response, should the handler
/// neither log in nor log out.
#[derive(Debug, Clone, Copy, PartialEq, Eq, Structural)]
pub struct Reissue {
    pub access: bool,
    pub refresh: bool,
}

/// Who a request is from, as far as its tokens say, and which of them are to be
/// issued anew.
#[derive(Debug)]
pub struct RequestAuth<User> {
    pub user: Option<User>,
    pub reissue: Reissue,
}

/// What is to be done with the access cookie and with the refresh cookie.
#[derive(Debug, Clone, Copy, PartialEq, Eq, Structural)]
pub struct CookiePlan {
    pub access: Option<PendingCookie>,
    pub refresh: Option<PendingCookie>,
}

/// What came of a token that a request carries, in a period in which the clock
/// was read: the user, if it was accepted, and whether it is due for re-issue.
pub open spec fn is_tried<User: TokenUser>(
    config: JwtConfig,
    token: Seq<char>,
    expected: TokenKind,
    period: Period,
    user: Option<User>,
    due: bool,
) -> bool {
    exists|at: u64, outcome: Option<(User, u64, u64)>, now: u64|
        period.has(at) && period.has(now) && is_reading(now) && #[trigger] config.decodes_at(
            token,
            expected,
            at,
            outcome,
        ) && #[trigger] is_judged(config, outcome, now, user, due)
}

/// What came of the token of one kind that a request carries; nothing if it
/// carries none.
pub open spec fn is_attempt<User: TokenUser>(
    config: JwtConfig,
    token: Option<Seq<char>>,
    expected: TokenKind,
    period: Period,
    user: Option<User>,
    due: bool,
) -> bool {
    match token {
        None => user is None && !due,
        Some(token) => is_tried(config, token, expected, period, user, due),
    }
}

/// The user of a token that was accepted, and whether it is due for re-issue at
/// the time `now`.
pub open spec fn is_judged<User>(
    config: JwtConfig,
    outcome: Option<(User, u64, u64)>,
    now: u64,
    user: Option<User>,
    due: bool,
) -> bool {
    match outcome {
        None => user is None && !due,
        Some((accepted, iat, exp)) => user == Some(accepted) && due == config.is_refresh_due(
            iat,
            exp,
            now,
        ),
    }
}

/// Who a request is from: a valid refresh token authenticates it and asks for a
/// fresh access token, whatever access token came with it; otherwise it is the
/// access token that authenticates.
pub open spec fn settled<User>(
    access: Option<User>,
    access_due: bool,
    refresh: Option<User>,
    refresh_due: bool,
) -> RequestAuth<User> {
    RequestAuth {
        user: if refresh is Some {
            refresh
        } else {
            access
        },
        reissue: Reissue { access: refresh is Some || access_due, refresh: refresh_due },
    }
}

/// The refresh token that a request carries, as far as such tokens count.
pub open spec fn carried_refresh(config: JwtConfig, headers: HeaderMap<HeaderValue>) -> Option<
    Seq<char>,
> {
    if config.refresh_enabled {
        cookie_value(headers, config.refresh_cookie_name@)
    } else {
        None
    }
}

/// Whether a request carries a token that is to be checked.
pub open spec fn carries_token(config: JwtConfig, headers: HeaderMap<HeaderValue>) -> bool {
    request_token(headers, config.cookie_name@) is Some || carried_refresh(config, headers) is Some
}

/// What authenticating a request from its headers came to, in a period in which
/// the clock was read.
pub open spec fn is_authenticated<User: TokenUser>(
    config: JwtConfig,
    headers: HeaderMap<HeaderValue>,
    period: Period,
    auth: RequestAuth<User>,
) -> bool {
    exists|access: Option<User>, access_due: bool, refresh: Option<User>, refresh_due: bool|
        is_attempt(
            config,
            request_token(headers, config.cookie_name@),
            TokenKind::Access,
            period,
            access,
            access_due,
        ) && is_attempt(
            config,
            carried_refresh(config, headers),
            TokenKind::Refresh,
            period,
            refresh,
            refresh_due,
        ) && auth == #[trigger] settled(access, access_due, refresh, refresh_due)
}

/// What is to be done with the cookies. A login or a logout during the request
/// comes before all else, and concerns the refresh cookie only where refresh
/// tokens are enabled.
pub open spec fn planned(
    pending: Option<PendingCookie>,
    reissue: Reissue,
    refresh_enabled: bool,
) -> CookiePlan {
    match pending {
        Some(action) => CookiePlan {
            access: Some(action),
            refresh: if refresh_enabled {
                Some(action)
            } else {
                None
            },
        },
        None => CookiePlan {
            access: if reissue.access {
                Some(PendingCookie::Issue)
            } else {
                None
            },
            refresh: if reissue.refresh {
                Some(PendingCookie::Issue)
            } else {
                None
            },
        },
    }
}

/// Whether a token is to be issued.
pub open spec fn issues_token(plan: CookiePlan) -> bool {
    plan.access == Some(PendingCookie::Issue) || plan.refresh == Some(PendingCookie::Issue)
}

/// The cookie that carries a token of the given kind.
pub open spec fn carrying(config: JwtConfig, typ: TokenKind, token: Seq<char>) -> Seq<char> {
    match typ {
        TokenKind::Access => config.access_cookie(token),
        TokenKind::Refresh => config.refresh_cookie(token),
    }
}

/// The cookie that removes the one with a token of the given kind.
pub open spec fn removing(config: JwtConfig, typ: TokenKind) -> Seq<char> {
    match typ {
        TokenKind::Access => config.no_access_cookie(),
        TokenKind::Refresh => config.no_refresh_cookie(),
    }
}

/// How long tokens of the given kind remain valid.
pub open spec fn lifetime(config: JwtConfig, typ: TokenKind) -> u64 {
    match typ {
        TokenKind::Access => whole_seconds(config.ttl),
        TokenKind::Refresh => whole_seconds(config.refresh_ttl),
    }
}

/// What issuing a cookie with a token of the given kind for the session's user
/// came to: there is none when there is no user or the token was not issued.
pub open spec fn is_issued_cookie<User: TokenUser>(
    config: JwtConfig,
    user: Option<User>,
    typ: TokenKind,
    cookie: Option<Seq<char>>,
) -> bool {
    match user {
        None => cookie is None,
        Some(user) => exists|copy: User, outcome: Result<String, JwtError>|
            cloned(user, copy) && #[trigger] config.encodes(
                copy,
                typ,
                lifetime(config, typ),
                outcome,
            ) && cookie == match outcome {
                Ok(token) => Some(carrying(config, typ, token@)),
                Err(_) => None,
            },
    }
}

/// What carrying out a planned action came to.
pub open spec fn is_carried_out<User: TokenUser>(
    config: JwtConfig,
    user: Option<User>,
    typ: TokenKind,
    action: Option<PendingCookie>,
    cookie: Option<Seq<char>>,
) -> bool {
    match action {
        None => cookie is None,
        Some(PendingCookie::Clear) => cookie == Some(removing(config, typ)),
        Some(PendingCookie::Issue) => is_issued_cookie(config, user, typ, cookie),
    }
}

/// The cookies there are, of two.
pub open spec fn listed(first: Option<Seq<char>>, second: Option<Seq<char>>) -> Seq<Seq<char>> {
    (if first is Some {
        seq![first->0]
    } else {
        Seq::empty()
    }) + (if second is Some {
        seq![second->0]
    } else {
        Seq::empty()
    })
}

/// What the cookies of a response came to: the access cookie before the refresh
/// cookie, each as planned.
pub open spec fn is_response<User: TokenUser>(
    config: JwtConfig,
    user: Option<User>,
    plan: CookiePlan,
    cookies: Seq<Seq<char>>,
) -> bool {
    exists|access: Option<Seq<char>>, refresh: Option<Seq<char>>|
        is_carried_out(config, user, TokenKind::Access, plan.access, access) && is_carried_out(
            config,
            user,
            TokenKind::Refresh,
            plan.refresh,
            refresh,
        ) && cookies == #[trigger] listed(access, refresh)
}

/// The characters of texts.
pub open spec fn texts(cookies: Seq<String>) -> Seq<Seq<char>> {
    cookies.map_values(|c: String| c@)
}

/// The header values for those of the texts that can stand as one.
pub open spec fn sent(cookies: Seq<Seq<char>>) -> Seq<Seq<u8>>
    decreases cookies.len(),
{
    if cookies.len() == 0 {
        Seq::empty()
    } else if is_header_text(cookies.last()) {
        sent(cookies.drop_last()).push(vstd::utf8::encode_utf8(cookies.last()))
    } else {
        sent(cookies.drop_last())
    }
}

/// Whether headers have the given `Set-Cookie` values more than before, and are
/// otherwise as before.
pub open spec fn are_added(
    before: HeaderMap<HeaderValue>,
    added: Seq<Seq<u8>>,
    after: HeaderMap<HeaderValue>,
) -> bool {
    &&& values_of(after, "set-cookie"@) == values_of(before, "set-cookie"@) + added
    &&& fields_of(after).remove("set-cookie"@) == fields_of(before).remove("set-cookie"@)
}

/// Whether there is room in headers for a field `Set-Cookie` with any number of
/// values.
pub open spec fn has_room_for_cookies(headers: HeaderMap<HeaderValue>) -> bool {
    &&& fields_of(headers).dom().finite()
    &&& fields_of(headers).dom().len() + 1 < FIELDS_LIMIT
}

/// Tells what is to be done with the cookies.
pub fn plan_cookies(
    pending: Option<PendingCookie>,
    reissue: Reissue,
    refresh_enabled: bool,
) -> (plan: CookiePlan)
    ensures
        plan == planned(pending, reissue, refresh_enabled),
{
    match pending {
        Some(action) => CookiePlan {
            access: Some(action),
            refresh: if refresh_enabled {
                Some(action)
            } else {
                None
            },
        },
        None => CookiePlan {
            access: if reissue.access {
                Some(PendingCookie::Issue)
            } else {
                None
            },
            refresh: if reissue.refresh {
                Some(PendingCookie::Issue)
            } else {
                None
            },
        },
    }
}

/// Tells who a request is from, given what came of its tokens.
pub fn settle<User>(
    access: Option<User>,
    access_due: bool,
    refresh: Option<User>,
    refresh_due: bool,
) -> (auth: RequestAuth<User>)
    ensures
        auth == settled(access, access_due, refresh, refresh_due),
{
    match refresh {
        Some(user) => RequestAuth {
            user: Some(user),
            reissue: Reissue { access: true, refresh: refresh_due },
        },
        None => RequestAuth {
            user: access,
            reissue: Reissue { access: access_due, refresh: refresh_due },
        },
    }
}

/// The user of a token that was accepted, and whether it is due for re-issue at
/// the time `now`.
pub fn judge<User>(config: &JwtConfig, outcome: Option<(User, u64, u64)>, now: u64) -> (r: (
    Option<User>,
    bool,
))
    ensures
        is_judged(*config, outcome, now, r.0, r.1),
{
    match outcome {
        Some((user, iat, exp)) => {
            let due = config.should_refresh_at(iat, exp, now);
            (Some(user), due)
        },
        None => (None, false),
    }
}

/// An attempt in one period is one in any longer period.
proof fn lemma_attempt_in_longer<User: TokenUser>(
    config: JwtConfig,
    token: Option<Seq<char>>,
    expected: TokenKind,
    period: Period,
    longer: Period,
    user: Option<User>,
    due: bool,
)
    requires
        is_attempt(config, token, expected, period, user, due),
        longer.from <= period.from,
        period.until <= longer.until,
    ensures
        is_attempt(config, token, expected, longer, user, due),
{
    if let Some(token) = token {
        let (at, outcome, now) = choose|at: u64, outcome: Option<(User, u64, u64)>, now: u64|
            period.has(at) && period.has(now) && is_reading(now) && #[trigger] config.decodes_at(
                token,
                expected,
                at,
                outcome,
            ) && #[trigger] is_judged(config, outcome, now, user, due);
        assert(longer.has(at) && longer.has(now));
    }
}

/// Tries the token that a request carries, if it carries one.
fn try_token<User: TokenUser>(config: &JwtConfig, token: &Option<String>, expected: TokenKind) -> (r: (
    Option<User>,
    bool,
))
    requires
        token is Some ==> config.checks_safely(),
    ensures
        exists|period: Period| #[trigger]
            is_attempt(*config, text_view(*token), expected, period, r.0, r.1),
{
    let outcome = match token {
        Some(text) => config.decode_kind::<User>(text.as_str(), expected),
        None => None,
    };
    let ghost decoded = outcome;
    let now: u64 = now_unix();
    let (user, due) = judge(config, outcome, now);
    proof {
        assert(is_judged(*config, decoded, now, user, due));
        let at = if token is Some {
            choose|at: u64| #[trigger] config.decodes_at((token->0)@, expected, at, decoded)
        } else {
            now
        };
        let period = Period { from: at, until: at }.join(Period { from: now, until: now });
        assert(period.has(at) && period.has(now));
        if token is Some {
            assert(is_tried(*config, (token->0)@, expected, period, user, due));
        }
        assert(is_attempt(*config, text_view(*token), expected, period, user, due));
    }
    (user, due)
}

/// Authenticates a request from the tokens in its headers.
pub fn authenticate_request<User: TokenUser>(
    config: &JwtConfig,
    headers: &HeaderMap<HeaderValue>,
) -> (auth: RequestAuth<User>)
    requires
        carries_token(*config, *headers) ==> config.checks_safely(),
    ensures
        exists|period: Period| #[trigger] is_authenticated(*config, *headers, period, auth),
{
    let access_token = extract_token(headers, config.cookie_name.as_str());
    let (access, access_due) = try_token::<User>(config, &access_token, TokenKind::Access);
    let refresh_token = if config.refresh_enabled {
        extract_cookie(headers, config.refresh_cookie_name.as_str())
    } else {
        None
    };
    let (refresh, refresh_due) = try_token::<User>(config, &refresh_token, TokenKind::Refresh);
    proof {
        let access_text = text_view(access_token);
        let refresh_text = text_view(refresh_token);
        let first = choose|period: Period| #[trigger]
            is_attempt(*config, access_text, TokenKind::Access, period, access, access_due);
        let second = choose|period: Period| #[trigger]
            is_attempt(*config, refresh_text, TokenKind::Refresh, period, refresh, refresh_due);
        let period = first.join(second);
        lemma_attempt_in_longer(
            *config,
            access_text,
            TokenKind::Access,
            first,
            period,
            access,
            access_due,
        );
        lemma_attempt_in_longer(
            *config,
            refresh_text,
            TokenKind::Refresh,
            second,
            period,
            refresh,
            refresh_due,
        );
        assert(is_authenticated(
            *config,
            *headers,
            period,
            settled(access, access_due, refresh, refresh_due),
        ));
    }
    settle(access, access_due, refresh, refresh_due)
}

/// Signs a fresh access token for the session's current user and returns its
/// `Set-Cookie` value, or `None` if there is no user or signing fails.
pub fn issue_access_cookie<Backend: AuthnBackend>(
    session: &AuthSession<Backend>,
    config: &JwtConfig,
) -> (cookie: Option<String>) where Backend::User: TokenUser
    requires
        session.inner.current() is Some ==> config.signs_safely(),
    ensures
        is_issued_cookie(
            *config,
            session.inner.current(),
            TokenKind::Access,
            text_view(cookie),
        ),
{
    let user = match session.user() {
        Some(user) => user,
        None => return None,
    };
    assert(lifetime(*config, TokenKind::Access) == whole_seconds(config.ttl));
    match config.encode(&user) {
        Ok(token) => Some(config.access_set_cookie(token.as_str())),
        Err(_) => None,
    }
}

/// Signs a fresh refresh token for the session's current user and returns its
/// `Set-Cookie` value, or `None` if there is no user or signing fails.
pub fn issue_refresh_cookie<Backend: AuthnBackend>(
    session: &AuthSession<Backend>,
    config: &JwtConfig,
) -> (cookie: Option<String>) where Backend::User: TokenUser
    requires
        session.inner.current() is Some ==> config.signs_safely(),
    ensures
        is_issued_cookie(
            *config,
            session.inner.current(),
            TokenKind::Refresh,
            text_view(cookie),
        ),
{
    let user = match session.user() {
        Some(user) => user,
        None => return None,
    };
    assert(lifetime(*config, TokenKind::Refresh) == whole_seconds(config.refresh_ttl));
    match config.encode_refresh(&user) {
        Ok(token) => Some(config.refresh_set_cookie(token.as_str())),
        Err(_) => None,
    }
}

/// The cookies of a response, given what is planned for them.
pub fn response_cookies<Backend: AuthnBackend>(
    config: &JwtConfig,
    session: &AuthSession<Backend>,
    plan: CookiePlan,
) -> (cookies: Vec<String>) where Backend::User: TokenUser
    requires
        session.inner.current() is Some && issues_token(plan) ==> config.signs_safely(),
    ensures
        is_response(*config, session.inner.current(), plan, texts(cookies@)),
{
    let access = match plan.access {
        None => None,
        Some(PendingCookie::Clear) => Some(config.access_clear_cookie()),
        Some(PendingCookie::Issue) => issue_access_cookie(session, config),
    };
    let refresh = match plan.refresh {
        None => None,
        Some(PendingCookie::Clear) => Some(config.refresh_clear_cookie()),
        Some(PendingCookie::Issue) => issue_refresh_cookie(session, config),
    };
    let ghost first = text_view(access);
    let ghost second = text_view(refresh);
    let mut cookies: Vec<String> = Vec::new();
    if let Some(cookie) = access {
        cookies.push(cookie);
    }
    if let Some(cookie) = refresh {
        cookies.push(cookie);
    }
    assert(texts(cookies@) =~= listed(first, second));
    cookies
}

/// Adds cookies to the headers of a response, and tells whether there was room for all
/// of them, as there is for certain where few fields are different. One that cannot
/// stand in a header is left out. Where there was no room for one, it and those after
/// it are not added.
pub fn add_cookies(headers: &mut HeaderMap<HeaderValue>, cookies: &Vec<String>) -> (all: bool)
    ensures
        has_room_for_cookies(*old(headers)) ==> all,
        all ==> are_added(*old(headers), sent(texts(cookies@)), *final(headers)),
        !all ==> exists|n: int|
            0 <= n < cookies@.len() && #[trigger] are_added(
                *old(headers),
                sent(texts(cookies@).take(n)),
                *final(headers),
            ),
{
    let ghost before = *headers;
    let mut i: usize = 0;
    assert(texts(cookies@).take(0) =~= Seq::empty());
    assert(values_of(before, "set-cookie"@) + Seq::empty() =~= values_of(before, "set-cookie"@));
    while i < cookies.len()
        invariant
            i <= cookies.len(),
            before == *old(headers),
            are_added(before, sent(texts(cookies@).take(i as int)), *headers),
            fields_of(*headers).dom().subset_of(fields_of(before).dom().insert("set-cookie"@)),
        decreases cookies.len() - i,
    {
        let ghost so_far = texts(cookies@).take(i as int);
        let ghost then = texts(cookies@).take(i + 1);
        let ghost held = *headers;
        assert(then.drop_last() =~= so_far);
        assert(then.last() == cookies@[i as int]@);
        if let Some(value) = header_value(cookies[i].as_str()) {
            proof {
                if has_room_for_cookies(before) {
                    vstd::set_lib::lemma_len_subset(
                        fields_of(*headers).dom(),
                        fields_of(before).dom().insert("set-cookie"@),
                    );
                }
            }
            if !append_set_cookie(headers, value) {
                assert(are_added(before, sent(texts(cookies@).take(i as int)), *headers));
                return false;
            }
            assert(values_of(*headers, "set-cookie"@) =~= values_of(before, "set-cookie"@) + sent(
                then,
            ));
            assert(fields_of(*headers).remove("set-cookie"@) =~= fields_of(held).remove(
                "set-cookie"@,
            ));
        }
        i = i + 1;
    }
    assert(texts(cookies@).take(i as int) =~= texts(cookies@));
    true
}

/// `Arc::clone` makes another pointer to the same value.
#[verifier::external_body]
fn shared(config: &Arc<JwtConfig>) -> (copy: Arc<JwtConfig>)
    ensures
        copy == *config,
{
    Arc::clone(config)
}

/// A middleware that authenticates requests from a token and provides an
/// [`AuthSession`].
///
/// The token is read from the configured cookie first, falling back to an
/// `Authorization: Bearer` header. The user is reconstructed from the token's
/// claims without a backend lookup. Any token issued or cleared during the
/// request is written as a `Set-Cookie` header on the response.
#[derive(Debug)]
pub struct JwtManager<S, Backend: AuthnBackend> {
    pub inner: S,
    pub backend: Backend,
    pub config: Arc<JwtConfig>,
}

impl<S: Clone, Backend: AuthnBackend> Clone for JwtManager<S, Backend> {
    fn clone(&self) -> (copy: Self)
        ensures
            cloned(self.inner, copy.inner),
            cloned(self.backend, copy.backend),
            copy.config == self.config,
    {
        JwtManager {
            inner: self.inner.clone(),
            backend: self.backend.clone(),
            config: shared(&self.config),
        }
    }
}

/// What opening a session for a request came to: it is that of the user whom the
/// request's tokens authenticate, with a clone of the backend.
pub open spec fn is_opened<Backend: AuthnBackend>(
    config: JwtConfig,
    backend: Backend,
    headers: HeaderMap<HeaderValue>,
    session: AuthSession<Backend>,
    reissue: Reissue,
) -> bool where Backend::User: TokenUser {
    &&& cloned(backend, session.backend)
    &&& exists|period: Period, auth: RequestAuth<Backend::User>| #[trigger]
        is_authenticated(config, headers, period, auth) && session.inner == (Inner::<
            Backend,
        >::Jwt { user: auth.user, pending: None }) && reissue == auth.reissue
}

/// What closing the session of a request came to: `user` is its current user and
/// `pending` what the handler recorded, and the response's headers, which were
/// `before`, have the cookies that are due.
pub open spec fn is_closed<User: TokenUser>(
    config: JwtConfig,
    user: Option<User>,
    pending: Option<PendingCookie>,
    reissue: Reissue,
    before: HeaderMap<HeaderValue>,
    after: HeaderMap<HeaderValue>,
) -> bool {
    exists|cookies: Seq<Seq<char>>| #[trigger]
        is_response(config, user, planned(pending, reissue, config.refresh_enabled), cookies)
            && are_added(before, sent(cookies), after)
}

/// What closing the session of a request came to where there was no room for all of
/// the cookies that are due: there are those before the first for which there was
/// none.
pub open spec fn is_cut_short<User: TokenUser>(
    config: JwtConfig,
    user: Option<User>,
    pending: Option<PendingCookie>,
    reissue: Reissue,
    before: HeaderMap<HeaderValue>,
    after: HeaderMap<HeaderValue>,
) -> bool {
    exists|cookies: Seq<Seq<char>>, n: int|
        0 <= n < cookies.len() && #[trigger] is_response(
            config,
            user,
            planned(pending, reissue, config.refresh_enabled),
            cookies,
        ) && #[trigger] are_added(before, sent(cookies.take(n)), after)
}

impl<S, Backend: AuthnBackend> JwtManager<S, Backend> where Backend::User: TokenUser {
    /// Authenticates a request from its headers and opens its session, and tells
    /// which tokens are to be issued anew.
    pub fn open_session(&self, headers: &HeaderMap<HeaderValue>) -> (opened: (
        AuthSession<Backend>,
        Reissue,
    ))
        requires
            carries_token(*self.config, *headers) ==> self.config.checks_safely(),
        ensures
            is_opened(*self.config, self.backend, *headers, opened.0, opened.1),
    {
        let auth = authenticate_request::<Backend::User>(&self.config, headers);
        let ghost found = auth;
        let reissue = auth.reissue;
        let session = AuthSession::from_jwt(self.backend.clone(), auth.user);
        proof {
            let period = choose|period: Period| #[trigger]
                is_authenticated(*self.config, *headers, period, found);
            assert(is_authenticated(*self.config, *headers, period, found));
        }
        (session, reissue)
    }

    /// Adds the cookies that are due to a response, once the handler ran: an
    /// explicit login or logout wins over the re-issue of tokens. It tells whether
    /// there was room for all of them in the headers, as there is for certain where few
    /// fields are different.
    pub fn close_session(
        &self,
        session: &mut AuthSession<Backend>,
        reissue: Reissue,
        headers: &mut HeaderMap<HeaderValue>,
    ) -> (closed: bool)
        requires
            old(session).inner.current() is Some && issues_token(
                planned(
                    old(session).inner.pending(),
                    reissue,
                    self.config.refresh_enabled,
                ),
            ) ==> self.config.signs_safely(),
        ensures
            *final(session) == old(session).without_pending(),
            has_room_for_cookies(*old(headers)) ==> closed,
            closed ==> is_closed(
                *self.config,
                old(session).inner.current(),
                old(session).inner.pending(),
                reissue,
                *old(headers),
                *final(headers),
            ),
            !closed ==> is_cut_short(
                *self.config,
                old(session).inner.current(),
                old(session).inner.pending(),
                reissue,
                *old(headers),
                *final(headers),
            ),
    {
        let pending = session.take_pending_cookie();
        let plan = plan_cookies(pending, reissue, self.config.refresh_enabled);
        let cookies = response_cookies(&self.config, session, plan);
        add_cookies(headers, &cookies)
    }
}

/// A layer for providing [`AuthSession`] backed by stateless tokens.
#[derive(Debug)]
pub struct JwtManagerLayer<Backend: AuthnBackend> {
    pub backend: Backend,
    pub config: Arc<JwtConfig>,
}

impl<Backend: AuthnBackend> Clone for JwtManagerLayer<Backend> {
    fn clone(&self) -> (copy: Self)
        ensures
            cloned(self.backend, copy.backend),
            copy.config == self.config,
    {
        JwtManagerLayer { backend: self.backend.clone(), config: shared(&self.config) }
    }
}

impl<Backend: AuthnBackend> JwtManagerLayer<Backend> {
    /// Creates a new [`JwtManagerLayer`] from a backend and a configuration.
    pub fn new(backend: Backend, config: JwtConfig) -> (layer: Self)
        ensures
            layer.backend == backend,
            *layer.config == config,
    {
        JwtManagerLayer { backend, config: Arc::new(config) }
    }

    /// Wraps a service.
    pub fn layer<S>(&self, inner: S) -> (manager: JwtManager<S, Backend>)
        ensures
            manager.inner == inner,
            cloned(self.backend, manager.backend),
            manager.config == self.config,
    {
        JwtManager { inner, backend: self.backend.clone(), config: shared(&self.config) }
    }
}

} // verus!
