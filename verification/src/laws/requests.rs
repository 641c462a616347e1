//! Laws on requests and responses: who a request is from, and which cookies a
//! response sets.

use crate::backend::TokenUser;
use crate::claims::{json_of, Claims, TokenKind};
use crate::clock::{is_reading, whole_seconds, Period};
use crate::cookies::{cookie_pairs, cookie_value, pair_value, request_token};
use crate::headers::{fields_of, is_header_text, values_of};
use crate::json::is_scalar;
use crate::jwt::{is_issued, later, set_cookie, JwtConfig, JwtError, PendingCookie};
use crate::laws::cookies::{
    cookie_is_read_back, has_printable_cookies, is_cookie_name, set_cookie_starts_with_the_pair,
    token_cookies_can_be_sent,
};
use crate::laws::tokens::{
    foreign_character_is_refused, is_readable, is_remade, issued_token_is_accepted,
    kinds_are_not_interchangeable, malformed_token_is_refused, unsealed_token_is_refused,
};
use crate::manager::{
    are_added, carried_refresh, carrying, is_attempt, is_authenticated, is_carried_out, is_closed,
    is_issued_cookie, is_judged, is_response, is_tried, lifetime, listed, planned, removing, sent,
    settled, Reissue, RequestAuth,
};
use crate::text::{is_all_blank, is_tight, split};
use crate::token::{
    checking_secret, checks_expiry_only, has_three_parts, is_compact, is_hmac, is_past, is_sealed,
    is_token_char, signs,
};
use axum::http::{HeaderMap, HeaderValue};
use serde_json::Value;
use vstd::prelude::*;
use vstd::utf8::encode_utf8;

verus! {

/// A token that was issued, and is checked with the counterpart of the key, for a user
/// whom their type makes again of what the token carries.
pub open spec fn is_good_token<User: TokenUser>(
    config: JwtConfig,
    subject: Value,
    view: Value,
    typ: TokenKind,
    ttl: u64,
    now: u64,
    token: String,
    user: User,
) -> bool {
    &&& config.is_paired()
    &&& is_issued(
        config,
        Ok::<Value, serde_json::Error>(subject),
        view,
        typ,
        ttl,
        now,
        Ok::<String, JwtError>(token),
    )
    &&& is_scalar(subject)
    &&& is_readable(Claims { sub: subject, iat: now, exp: later(now, ttl), typ, user: view })
    &&& is_remade(subject, view, user)
}

/// A request without tokens is from nobody, and no token is issued for it.
pub proof fn request_without_tokens_is_anonymous<User: TokenUser>(
    config: JwtConfig,
    headers: HeaderMap<HeaderValue>,
    period: Period,
    auth: RequestAuth<User>,
)
    requires
        is_authenticated(config, headers, period, auth),
        request_token(headers, config.cookie_name@) is None,
        carried_refresh(config, headers) is None,
    ensures
        auth.user is None,
        !auth.reissue.access,
        !auth.reissue.refresh,
{
}

/// Tokens are issued anew only for a user: an anonymous request gets none.
pub proof fn nobody_gets_tokens<User: TokenUser>(
    config: JwtConfig,
    headers: HeaderMap<HeaderValue>,
    period: Period,
    auth: RequestAuth<User>,
)
    requires
        is_authenticated(config, headers, period, auth),
        auth.user is None,
    ensures
        !auth.reissue.access,
        !auth.reissue.refresh,
{
}

/// What came of the access token and of the refresh token of a request: the users, and
/// whether the tokens are due for re-issue.
pub(crate) proof fn lemma_attempts<User: TokenUser>(
    config: JwtConfig,
    headers: HeaderMap<HeaderValue>,
    period: Period,
    auth: RequestAuth<User>,
) -> (attempts: (Option<User>, bool, Option<User>, bool))
    requires
        is_authenticated(config, headers, period, auth),
    ensures
        is_attempt(
            config,
            request_token(headers, config.cookie_name@),
            TokenKind::Access,
            period,
            attempts.0,
            attempts.1,
        ),
        is_attempt(
            config,
            carried_refresh(config, headers),
            TokenKind::Refresh,
            period,
            attempts.2,
            attempts.3,
        ),
        auth == settled(attempts.0, attempts.1, attempts.2, attempts.3),
{
    choose|
        access: Option<User>,
        access_due: bool,
        refresh: Option<User>,
        refresh_due: bool,
    |
        is_attempt(
            config,
            request_token(headers, config.cookie_name@),
            TokenKind::Access,
            period,
            access,
            access_due,
        ) && is_attempt(
            config,
            carried_refresh(config, headers),
            TokenKind::Refresh,
            period,
            refresh,
            refresh_due,
        ) && auth == #[trigger] settled(access, access_due, refresh, refresh_due)
}

/// Whether a text can be refused for its form alone: it is not three parts with dots
/// between them, it has a character that tokens do not have, or, with a shared secret,
/// it is not sealed with that secret.
pub open spec fn is_unfit(config: JwtConfig, token: Seq<char>) -> bool {
    ||| !has_three_parts(token)
    ||| checks_expiry_only(config.validation, config.algorithm) && !is_compact(token)
    ||| is_hmac(config.algorithm) && checks_expiry_only(config.validation, config.algorithm)
        && checking_secret(config.decoding_key) is Some && !is_sealed(
        token,
        config.algorithm,
        checking_secret(config.decoding_key)->0,
    )
}

proof fn lemma_unfit_token_is_nothing<User: TokenUser>(
    config: JwtConfig,
    token: Option<Seq<char>>,
    expected: TokenKind,
    period: Period,
    found: Option<User>,
    due: bool,
)
    requires
        token matches Some(text) ==> is_unfit(config, text),
        is_attempt(config, token, expected, period, found, due),
    ensures
        found is None,
        !due,
{
    if let Some(text) = token {
        let (at, outcome, judged) = choose|at: u64, outcome: Option<(User, u64, u64)>, judged: u64|
            period.has(at) && period.has(judged) && #[trigger] config.decodes_at(
                text,
                expected,
                at,
                outcome,
            ) && #[trigger] is_judged(config, outcome, judged, found, due);
        if !has_three_parts(text) {
            malformed_token_is_refused(config, text, expected, outcome);
        } else if !is_compact(text) && checks_expiry_only(config.validation, config.algorithm) {
            foreign_character_is_refused(config, config.algorithm, text, expected, outcome);
        } else {
            unsealed_token_is_refused(
                config,
                config.algorithm,
                checking_secret(config.decoding_key)->0,
                text,
                expected,
                outcome,
            );
        }
    }
}

/// A request whose tokens are malformed or not sealed with the configured secret is
/// from nobody, and no token is issued for it.
pub proof fn unfit_tokens_leave_a_request_anonymous<User: TokenUser>(
    config: JwtConfig,
    headers: HeaderMap<HeaderValue>,
    period: Period,
    auth: RequestAuth<User>,
)
    requires
        is_authenticated(config, headers, period, auth),
        request_token(headers, config.cookie_name@) matches Some(token) ==> is_unfit(config, token),
        carried_refresh(config, headers) matches Some(token) ==> is_unfit(config, token),
    ensures
        auth.user is None,
        !auth.reissue.access,
        !auth.reissue.refresh,
{
    let (access, access_due, refresh, refresh_due) = lemma_attempts(config, headers, period, auth);
    lemma_unfit_token_is_nothing(
        config,
        request_token(headers, config.cookie_name@),
        TokenKind::Access,
        period,
        access,
        access_due,
    );
    lemma_unfit_token_is_nothing(
        config,
        carried_refresh(config, headers),
        TokenKind::Refresh,
        period,
        refresh,
        refresh_due,
    );
}

/// What trying a good token comes to before it is past: the user, and a re-issue if
/// that is due at the time at which it is judged.
proof fn lemma_good_token_is_tried<User: TokenUser>(
    config: JwtConfig,
    subject: Value,
    view: Value,
    typ: TokenKind,
    ttl: u64,
    now: u64,
    token: String,
    user: User,
    period: Period,
    found: Option<User>,
    due: bool,
)
    requires
        is_good_token(config, subject, view, typ, ttl, now, token, user),
        !is_past(later(now, ttl), config.validation, period.until),
        is_tried(config, token@, typ, period, found, due),
    ensures
        found == Some(user),
        exists|at: u64|
            period.has(at) && due == #[trigger] config.is_refresh_due(now, later(now, ttl), at),
{
    let (at, outcome, judged) = choose|at: u64, outcome: Option<(User, u64, u64)>, judged: u64|
        period.has(at) && period.has(judged) && #[trigger] config.decodes_at(
            token@,
            typ,
            at,
            outcome,
        ) && #[trigger] is_judged(config, outcome, judged, found, due);
    issued_token_is_accepted(
        config,
        subject,
        view,
        typ,
        ttl,
        now,
        token,
        at,
        user,
        outcome,
    );
    assert(due == config.is_refresh_due(now, later(now, ttl), judged));
}

/// A request that carries an access token which was issued for a user, and no
/// refresh token, is from that user until the token expires. The access token is
/// issued anew if it is due at the time of the request.
pub proof fn access_token_authenticates<User: TokenUser>(
    config: JwtConfig,
    subject: Value,
    view: Value,
    ttl: u64,
    now: u64,
    token: String,
    user: User,
    headers: HeaderMap<HeaderValue>,
    period: Period,
    auth: RequestAuth<User>,
)
    requires
        is_good_token(config, subject, view, TokenKind::Access, ttl, now, token, user),
        request_token(headers, config.cookie_name@) == Some(token@),
        carried_refresh(config, headers) is None,
        !is_past(later(now, ttl), config.validation, period.until),
        is_authenticated(config, headers, period, auth),
    ensures
        auth.user == Some(user),
        !auth.reissue.refresh,
        exists|at: u64|
            period.has(at) && auth.reissue.access == #[trigger] config.is_refresh_due(
                now,
                later(now, ttl),
                at,
            ),
{
    let (access, access_due, refresh, refresh_due) = lemma_attempts(config, headers, period, auth);
    lemma_good_token_is_tried(
        config,
        subject,
        view,
        TokenKind::Access,
        ttl,
        now,
        token,
        user,
        period,
        access,
        access_due,
    );
}

/// A request that carries a refresh token which was issued for a user is from that
/// user until the token expires, whatever access token comes with it, and gets a
/// new access token. The refresh token is issued anew if it is due at the time of
/// the request.
pub proof fn refresh_token_mints_access_token<User: TokenUser>(
    config: JwtConfig,
    subject: Value,
    view: Value,
    ttl: u64,
    now: u64,
    token: String,
    user: User,
    headers: HeaderMap<HeaderValue>,
    period: Period,
    auth: RequestAuth<User>,
)
    requires
        is_good_token(config, subject, view, TokenKind::Refresh, ttl, now, token, user),
        carried_refresh(config, headers) == Some(token@),
        !is_past(later(now, ttl), config.validation, period.until),
        is_authenticated(config, headers, period, auth),
    ensures
        auth.user == Some(user),
        auth.reissue.access,
        exists|at: u64|
            period.has(at) && auth.reissue.refresh == #[trigger] config.is_refresh_due(
                now,
                later(now, ttl),
                at,
            ),
{
    let (access, access_due, refresh, refresh_due) = lemma_attempts(config, headers, period, auth);
    lemma_good_token_is_tried(
        config,
        subject,
        view,
        TokenKind::Refresh,
        ttl,
        now,
        token,
        user,
        period,
        refresh,
        refresh_due,
    );
}

/// A token of one kind in the place of one of the other kind authenticates nobody
/// and has nothing issued.
proof fn lemma_wrong_kind_is_nothing<User: TokenUser>(
    issuer: JwtConfig,
    subject: Result<Value, serde_json::Error>,
    view: Value,
    typ: TokenKind,
    ttl: u64,
    now: u64,
    token: String,
    config: JwtConfig,
    expected: TokenKind,
    period: Period,
    found: Option<User>,
    due: bool,
)
    requires
        is_issued(issuer, subject, view, typ, ttl, now, Ok::<String, JwtError>(token)),
        typ != expected,
        is_tried(config, token@, expected, period, found, due),
    ensures
        found is None,
        !due,
{
    let (at, outcome, judged) = choose|at: u64, outcome: Option<(User, u64, u64)>, judged: u64|
        period.has(at) && period.has(judged) && #[trigger] config.decodes_at(
            token@,
            expected,
            at,
            outcome,
        ) && #[trigger] is_judged(config, outcome, judged, found, due);
    kinds_are_not_interchangeable(
        issuer,
        subject,
        view,
        typ,
        ttl,
        now,
        token,
        config,
        expected,
        outcome,
    );
}

/// A refresh token that stands in for an access token, and an access token that
/// stands in for a refresh token, leave a request anonymous.
pub proof fn misplaced_tokens_are_rejected<User: TokenUser>(
    issuer: JwtConfig,
    subject: Result<Value, serde_json::Error>,
    view: Value,
    typ: TokenKind,
    ttl: u64,
    now: u64,
    token: String,
    config: JwtConfig,
    headers: HeaderMap<HeaderValue>,
    period: Period,
    auth: RequestAuth<User>,
)
    requires
        is_issued(issuer, subject, view, typ, ttl, now, Ok::<String, JwtError>(token)),
        is_authenticated(config, headers, period, auth),
        match typ {
            TokenKind::Refresh => request_token(headers, config.cookie_name@) == Some(token@)
                && carried_refresh(config, headers) is None,
            TokenKind::Access => request_token(headers, config.cookie_name@) is None
                && carried_refresh(config, headers) == Some(token@),
        },
    ensures
        auth.user is None,
        !auth.reissue.access,
        !auth.reissue.refresh,
{
    let (access, access_due, refresh, refresh_due) = lemma_attempts(config, headers, period, auth);
    match typ {
        TokenKind::Refresh => {
            lemma_wrong_kind_is_nothing(
                issuer,
                subject,
                view,
                typ,
                ttl,
                now,
                token,
                config,
                TokenKind::Access,
                period,
                access,
                access_due,
            );
        },
        TokenKind::Access => {
            lemma_wrong_kind_is_nothing(
                issuer,
                subject,
                view,
                typ,
                ttl,
                now,
                token,
                config,
                TokenKind::Refresh,
                period,
                refresh,
                refresh_due,
            );
        },
    }
}

/// A login or a logout during a request wins over the re-issue of tokens: what is
/// done with the cookies then does not depend on what is due.
pub proof fn explicit_action_wins(
    action: PendingCookie,
    reissue: Reissue,
    other: Reissue,
    refresh_enabled: bool,
)
    ensures
        planned(Some(action), reissue, refresh_enabled) == planned(
            Some(action),
            other,
            refresh_enabled,
        ),
{
}

/// The bytes of texts.
pub open spec fn encoded(cookies: Seq<Seq<char>>) -> Seq<Seq<u8>> {
    cookies.map_values(|cookie: Seq<char>| encode_utf8(cookie))
}

/// Cookies that can stand in a header are all sent, in order.
pub proof fn all_cookies_are_sent(cookies: Seq<Seq<char>>)
    requires
        forall|i: int| 0 <= i < cookies.len() ==> is_header_text(#[trigger] cookies[i]),
    ensures
        sent(cookies) == encoded(cookies),
    decreases cookies.len(),
{
    if cookies.len() > 0 {
        all_cookies_are_sent(cookies.drop_last());
        assert(encoded(cookies) =~= encoded(cookies.drop_last()).push(
            encode_utf8(cookies.last()),
        ));
    } else {
        assert(encoded(cookies) =~= Seq::<Seq<u8>>::empty());
    }
}

/// The response to a request in which the user logged out removes the access
/// cookie and, where refresh tokens are enabled, the refresh cookie, and sets no
/// others.
pub proof fn logout_removes_the_cookies<User: TokenUser>(
    config: JwtConfig,
    user: Option<User>,
    reissue: Reissue,
    before: HeaderMap<HeaderValue>,
    after: HeaderMap<HeaderValue>,
)
    requires
        is_closed(config, user, Some(PendingCookie::Clear), reissue, before, after),
    ensures
        values_of(after, "set-cookie"@) == values_of(before, "set-cookie"@) + sent(
            if config.refresh_enabled {
                seq![config.no_access_cookie(), config.no_refresh_cookie()]
            } else {
                seq![config.no_access_cookie()]
            },
        ),
{
    let plan = planned(Some(PendingCookie::Clear), reissue, config.refresh_enabled);
    let cookies = choose|cookies: Seq<Seq<char>>| #[trigger]
        is_response(config, user, plan, cookies) && are_added(before, sent(cookies), after);
    if config.refresh_enabled {
        assert(cookies =~= seq![config.no_access_cookie(), config.no_refresh_cookie()]);
    } else {
        assert(cookies =~= seq![config.no_access_cookie()]);
    }
}

/// A response to a request is what it was, but for at most one access cookie and then
/// at most one refresh cookie after its other cookies, the latter only where refresh
/// tokens are enabled. A cookie that cannot stand in a header is left out. These are
/// the cookies that are handed out.
pub proof fn response_gains_two_cookies_at_most<User: TokenUser>(
    config: JwtConfig,
    headers: HeaderMap<HeaderValue>,
    period: Period,
    auth: RequestAuth<User>,
    user: Option<User>,
    pending: Option<PendingCookie>,
    before: HeaderMap<HeaderValue>,
    after: HeaderMap<HeaderValue>,
) -> (cookies: (Option<Seq<char>>, Option<Seq<char>>))
    requires
        is_authenticated(config, headers, period, auth),
        is_closed(config, user, pending, auth.reissue, before, after),
    ensures
        fields_of(after).remove("set-cookie"@) == fields_of(before).remove("set-cookie"@),
        values_of(after, "set-cookie"@) == values_of(before, "set-cookie"@) + sent(
            listed(cookies.0, cookies.1),
        ),
        cookies.0 matches Some(cookie) ==> is_cookie_of(config, TokenKind::Access, cookie),
        cookies.1 matches Some(cookie) ==> config.refresh_enabled && is_cookie_of(
            config,
            TokenKind::Refresh,
            cookie,
        ),
{
    let plan = planned(pending, auth.reissue, config.refresh_enabled);
    let cookies = choose|cookies: Seq<Seq<char>>| #[trigger]
        is_response(config, user, plan, cookies) && are_added(before, sent(cookies), after);
    let (access, refresh) = choose|access: Option<Seq<char>>, refresh: Option<Seq<char>>|
        is_carried_out(config, user, TokenKind::Access, plan.access, access) && is_carried_out(
            config,
            user,
            TokenKind::Refresh,
            plan.refresh,
            refresh,
        ) && cookies == #[trigger] listed(access, refresh);
    if !config.refresh_enabled {
        assert(carried_refresh(config, headers) is None);
        assert(!auth.reissue.refresh);
    }
    lemma_cookie_has_its_form(config, user, TokenKind::Access, plan.access, access);
    lemma_cookie_has_its_form(config, user, TokenKind::Refresh, plan.refresh, refresh);
    (access, refresh)
}

/// Whether a cookie is one that carries a token of the given kind, or one that removes
/// such a cookie.
pub open spec fn is_cookie_of(config: JwtConfig, typ: TokenKind, cookie: Seq<char>) -> bool {
    cookie == removing(config, typ) || exists|token: Seq<char>|
        cookie == #[trigger] carrying(config, typ, token)
}

proof fn lemma_cookie_has_its_form<User: TokenUser>(
    config: JwtConfig,
    user: Option<User>,
    typ: TokenKind,
    action: Option<PendingCookie>,
    cookie: Option<Seq<char>>,
)
    requires
        is_carried_out(config, user, typ, action, cookie),
    ensures
        cookie matches Some(cookie) ==> is_cookie_of(config, typ, cookie),
{
    if action == Some(PendingCookie::Issue) && user is Some && cookie is Some {
        let (copy, outcome) = choose|copy: User, outcome: Result<String, JwtError>|
            cloned(user->0, copy) && #[trigger] config.encodes(
                copy,
                typ,
                lifetime(config, typ),
                outcome,
            ) && cookie == match outcome {
                Ok(token) => Some(carrying(config, typ, token@)),
                Err(_) => None,
            };
        assert(cookie == Some(carrying(config, typ, outcome->Ok_0@)));
    }
}

/// Whether every attempt to issue a token for a clone of the user succeeds.
pub open spec fn signing_succeeds<User: TokenUser>(
    config: JwtConfig,
    user: User,
    typ: TokenKind,
) -> bool {
    forall|copy: User, outcome: Result<String, JwtError>|
        cloned(user, copy) && #[trigger] config.encodes(
            copy,
            typ,
            lifetime(config, typ),
            outcome,
        ) ==> outcome is Ok
}

/// Whether the users that are clones of this one can be the subject of a token.
pub open spec fn has_subject<User: TokenUser>(user: User) -> bool {
    forall|copy: User, subject: Result<Value, serde_json::Error>|
        cloned(user, copy) && #[trigger] call_ensures(User::subject, (&copy,), subject)
            ==> subject is Ok
}

/// Issuing a token succeeds for a user whose ID has a JSON form if signing does: with a
/// key that can sign, and, on elliptic curves, if there is a signature for the claims.
pub proof fn good_key_signs<User: TokenUser>(config: JwtConfig, user: User, typ: TokenKind)
    requires
        has_subject(user),
        config.signs_always() || forall|claims: Claims|
            signs(config.algorithm, #[trigger] json_of(claims), config.encoding_key),
    ensures
        signing_succeeds(config, user, typ),
{
}

/// Whether a cookie carries a token that was issued, when the clock showed `now`,
/// for a clone of the user.
pub open spec fn is_set<User: TokenUser>(
    config: JwtConfig,
    user: User,
    typ: TokenKind,
    now: u64,
    cookie: Seq<char>,
) -> bool {
    exists|copy: User, token: String|
        cloned(user, copy) && #[trigger] config.encodes_at(
            copy,
            typ,
            lifetime(config, typ),
            now,
            Ok::<String, JwtError>(token),
        ) && cookie == carrying(config, typ, token@)
}

/// A cookie that a response sets, and when its token was issued.
pub struct Issued {
    pub now: u64,
    pub cookie: Seq<char>,
}

/// The cookie, if there is one.
pub open spec fn cookie_of(issued: Option<Issued>) -> Option<Seq<char>> {
    match issued {
        Some(issued) => Some(issued.cookie),
        None => None,
    }
}

proof fn lemma_issue_succeeds<User: TokenUser>(
    config: JwtConfig,
    user: User,
    typ: TokenKind,
    cookie: Option<Seq<char>>,
) -> (now: u64)
    requires
        signing_succeeds(config, user, typ),
        is_issued_cookie(config, Some(user), typ, cookie),
    ensures
        cookie is Some,
        is_set(config, user, typ, now, cookie->0),
{
    let (copy, outcome) = choose|copy: User, outcome: Result<String, JwtError>|
        cloned(user, copy) && #[trigger] config.encodes(
            copy,
            typ,
            lifetime(config, typ),
            outcome,
        ) && cookie == match outcome {
            Ok(token) => Some(carrying(config, typ, token@)),
            Err(_) => None,
        };
    let now = choose|now: u64|
        is_reading(now) && #[trigger] config.encodes_at(
            copy,
            typ,
            lifetime(config, typ),
            now,
            outcome,
        );
    let token = outcome->Ok_0;
    assert(config.encodes_at(
        copy,
        typ,
        lifetime(config, typ),
        now,
        Ok::<String, JwtError>(token),
    ));
    now
}

/// A cookie with a token can stand in a header if its name and its path are printable
/// ASCII.
pub proof fn set_cookie_can_be_sent<User: TokenUser>(
    config: JwtConfig,
    user: User,
    typ: TokenKind,
    now: u64,
    cookie: Seq<char>,
)
    requires
        has_printable_cookies(config),
        is_set(config, user, typ, now, cookie),
    ensures
        is_header_text(cookie),
{
    let (copy, token) = choose|copy: User, token: String|
        cloned(user, copy) && #[trigger] config.encodes_at(
            copy,
            typ,
            lifetime(config, typ),
            now,
            Ok::<String, JwtError>(token),
        ) && cookie == carrying(config, typ, token@);
    token_cookies_can_be_sent(config, typ, token@);
}

/// What carrying out a plan to issue tokens comes to, for the session's user.
proof fn lemma_planned_tokens_are_set<User: TokenUser>(
    config: JwtConfig,
    user: User,
    pending: Option<PendingCookie>,
    reissue: Reissue,
    before: HeaderMap<HeaderValue>,
    after: HeaderMap<HeaderValue>,
) -> (set: (Option<Issued>, Option<Issued>))
    requires
        planned(pending, reissue, config.refresh_enabled).access is Some ==> signing_succeeds(
            config,
            user,
            TokenKind::Access,
        ),
        planned(pending, reissue, config.refresh_enabled).refresh is Some ==> signing_succeeds(
            config,
            user,
            TokenKind::Refresh,
        ),
        pending != Some(PendingCookie::Clear),
        is_closed(config, Some(user), pending, reissue, before, after),
    ensures
        set.0 is Some == planned(pending, reissue, config.refresh_enabled).access is Some,
        set.1 is Some == planned(pending, reissue, config.refresh_enabled).refresh is Some,
        are_set(config, user, set),
        values_of(after, "set-cookie"@) == values_of(before, "set-cookie"@) + sent(
            listed(cookie_of(set.0), cookie_of(set.1)),
        ),
{
    let plan = planned(pending, reissue, config.refresh_enabled);
    let cookies = choose|cookies: Seq<Seq<char>>| #[trigger]
        is_response(config, Some(user), plan, cookies) && are_added(before, sent(cookies), after);
    let (access, refresh) = choose|access: Option<Seq<char>>, refresh: Option<Seq<char>>|
        is_carried_out(config, Some(user), TokenKind::Access, plan.access, access)
            && is_carried_out(config, Some(user), TokenKind::Refresh, plan.refresh, refresh)
            && cookies == #[trigger] listed(access, refresh);
    let set_access = if plan.access is Some {
        let now = lemma_issue_succeeds(config, user, TokenKind::Access, access);
        Some(Issued { now, cookie: access->0 })
    } else {
        None
    };
    let set_refresh = if plan.refresh is Some {
        let now = lemma_issue_succeeds(config, user, TokenKind::Refresh, refresh);
        Some(Issued { now, cookie: refresh->0 })
    } else {
        None
    };
    (set_access, set_refresh)
}

/// Whether an access cookie and a refresh cookie, as far as they are there, carry tokens
/// for the user.
pub open spec fn are_set<User: TokenUser>(
    config: JwtConfig,
    user: User,
    set: (Option<Issued>, Option<Issued>),
) -> bool {
    &&& set.0 matches Some(access) ==> is_set(
        config,
        user,
        TokenKind::Access,
        access.now,
        access.cookie,
    )
    &&& set.1 matches Some(refresh) ==> is_set(
        config,
        user,
        TokenKind::Refresh,
        refresh.now,
        refresh.cookie,
    )
}

/// The response to a request in which a user logged in sets the access cookie and,
/// where refresh tokens are enabled, the refresh cookie, each with a token for the
/// user, and no others, whatever tokens came with the request: these are the cookies
/// that are handed out. Signing succeeds.
pub proof fn login_sets_the_cookies<User: TokenUser>(
    config: JwtConfig,
    user: User,
    reissue: Reissue,
    before: HeaderMap<HeaderValue>,
    after: HeaderMap<HeaderValue>,
) -> (set: (Option<Issued>, Option<Issued>))
    requires
        signing_succeeds(config, user, TokenKind::Access),
        config.refresh_enabled ==> signing_succeeds(config, user, TokenKind::Refresh),
        is_closed(config, Some(user), Some(PendingCookie::Issue), reissue, before, after),
    ensures
        set.0 is Some,
        set.1 is Some == config.refresh_enabled,
        are_set(config, user, set),
        values_of(after, "set-cookie"@) == values_of(before, "set-cookie"@) + sent(
            listed(cookie_of(set.0), cookie_of(set.1)),
        ),
{
    lemma_planned_tokens_are_set(
        config,
        user,
        Some(PendingCookie::Issue),
        reissue,
        before,
        after,
    )
}

/// The response to a request in which nobody logged in or out sets the cookies
/// whose tokens are due, each with a token for the user whom the request is from,
/// and no others: these are the cookies that are handed out. Signing succeeds.
pub proof fn due_tokens_are_set<User: TokenUser>(
    config: JwtConfig,
    user: User,
    reissue: Reissue,
    before: HeaderMap<HeaderValue>,
    after: HeaderMap<HeaderValue>,
) -> (set: (Option<Issued>, Option<Issued>))
    requires
        reissue.access ==> signing_succeeds(config, user, TokenKind::Access),
        reissue.refresh ==> signing_succeeds(config, user, TokenKind::Refresh),
        is_closed(config, Some(user), None, reissue, before, after),
    ensures
        set.0 is Some == reissue.access,
        set.1 is Some == reissue.refresh,
        are_set(config, user, set),
        values_of(after, "set-cookie"@) == values_of(before, "set-cookie"@) + sent(
            listed(cookie_of(set.0), cookie_of(set.1)),
        ),
{
    lemma_planned_tokens_are_set(config, user, None, reissue, before, after)
}

/// Whether the tokens for a user, and for the clones of that user, have a scalar
/// subject, can be read back, and are made one user again by the type of users.
pub open spec fn is_faithful<User: TokenUser>(user: User, remade: User) -> bool {
    forall|copy: User, subject: Result<Value, serde_json::Error>, view: Value|
        cloned(user, copy) && #[trigger] call_ensures(User::subject, (&copy,), subject)
            && #[trigger] call_ensures(User::to_claims, (&copy,), view) ==> {
            &&& subject is Ok
            &&& is_scalar(subject->Ok_0)
            &&& is_remade(subject->Ok_0, view, remade)
            &&& forall|iat: u64, exp: u64, typ: TokenKind| #[trigger]
                is_readable(Claims { sub: subject->Ok_0, iat, exp, typ, user: view })
        }
}

/// The name of the cookie that carries tokens of the given kind.
pub open spec fn cookie_name(config: JwtConfig, typ: TokenKind) -> Seq<char> {
    match typ {
        TokenKind::Access => config.cookie_name@,
        TokenKind::Refresh => config.refresh_cookie_name@,
    }
}

/// Whether a request sends a cookie back: one of its pairs, and the first with the name,
/// is what the `Set-Cookie` value says before its attributes, with any blanks around it.
pub open spec fn is_sent_back(
    headers: HeaderMap<HeaderValue>,
    name: Seq<char>,
    cookie: Seq<char>,
    at: int,
    lead: Seq<char>,
    trail: Seq<char>,
) -> bool {
    let pairs = cookie_pairs(values_of(headers, "cookie"@));
    &&& is_all_blank(lead)
    &&& is_all_blank(trail)
    &&& 0 <= at < pairs.len()
    &&& pairs[at] == lead + split(cookie, ';')[0] + trail
    &&& forall|j: int| 0 <= j < at ==> pair_value(#[trigger] pairs[j], name) is None
}

proof fn lemma_padded_pair(
    lead: Seq<char>,
    name: Seq<char>,
    value: Seq<char>,
    trail: Seq<char>,
)
    ensures
        lead + (name + seq!['='] + value) + trail == lead + name + seq!['='] + value + trail,
{
    assert(lead + (name + seq!['='] + value) + trail =~= lead + name + seq!['='] + value + trail);
}

proof fn lemma_token_is_tight(token: Seq<char>)
    requires
        is_compact(token),
    ensures
        is_tight(token),
{
    if token.len() > 0 {
        assert(is_token_char(token[0]));
        assert(is_token_char(token.last()));
    }
}

/// A request that sends a cookie with a token back carries that token.
proof fn lemma_token_is_sent_back(
    headers: HeaderMap<HeaderValue>,
    name: Seq<char>,
    token: Seq<char>,
    cookie: Seq<char>,
    at: int,
    lead: Seq<char>,
    trail: Seq<char>,
)
    requires
        is_cookie_name(name),
        is_compact(token),
        split(cookie, ';')[0] == name + seq!['='] + token,
        is_sent_back(headers, name, cookie, at, lead, trail),
    ensures
        cookie_value(headers, name) == Some(token),
{
    lemma_padded_pair(lead, name, token, trail);
    lemma_token_is_tight(token);
    cookie_is_read_back(headers, at, lead, name, token, trail);
}

/// What a request that sends a cookie with a token back carries: a good token, for the
/// returned subject and view.
proof fn lemma_sent_back_token<User: TokenUser>(
    config: JwtConfig,
    user: User,
    remade: User,
    typ: TokenKind,
    login: Issued,
    headers: HeaderMap<HeaderValue>,
    at: int,
    lead: Seq<char>,
    trail: Seq<char>,
) -> (sent: (Value, Value, String))
    requires
        config.is_paired(),
        is_cookie_name(cookie_name(config, typ)),
        is_faithful(user, remade),
        is_set(config, user, typ, login.now, login.cookie),
        is_sent_back(headers, cookie_name(config, typ), login.cookie, at, lead, trail),
    ensures
        cookie_value(headers, cookie_name(config, typ)) == Some(sent.2@),
        is_good_token(
            config,
            sent.0,
            sent.1,
            typ,
            lifetime(config, typ),
            login.now,
            sent.2,
            remade,
        ),
{
    let ttl = lifetime(config, typ);
    let (copy, token) = choose|copy: User, token: String|
        cloned(user, copy) && #[trigger] config.encodes_at(
            copy,
            typ,
            ttl,
            login.now,
            Ok::<String, JwtError>(token),
        ) && login.cookie == carrying(config, typ, token@);
    let (subject, view) = choose|subject: Result<Value, serde_json::Error>, view: Value|
        call_ensures(User::subject, (&copy,), subject) && call_ensures(
            User::to_claims,
            (&copy,),
            view,
        ) && #[trigger] is_issued(
            config,
            subject,
            view,
            typ,
            ttl,
            login.now,
            Ok::<String, JwtError>(token),
        );
    assert(subject is Ok);
    let name = cookie_name(config, typ);
    let path = match typ {
        TokenKind::Access => config.path@,
        TokenKind::Refresh => config.refresh_path@,
    };
    assert(login.cookie == set_cookie(name, path, token@, ttl, config.secure));
    assert(is_compact(token@));
    set_cookie_starts_with_the_pair(name, path, token@, ttl, config.secure);
    lemma_token_is_sent_back(headers, name, token@, login.cookie, at, lead, trail);
    (subject->Ok_0, view, token)
}

/// After a login, a request that sends the access cookie back is from the user who
/// logged in, until the token expires. The cookie may stand among others, if no earlier
/// one has its name.
pub proof fn login_authenticates_later_requests<User: TokenUser>(
    config: JwtConfig,
    user: User,
    remade: User,
    login: Issued,
    headers: HeaderMap<HeaderValue>,
    at: int,
    lead: Seq<char>,
    trail: Seq<char>,
    period: Period,
    auth: RequestAuth<User>,
)
    requires
        config.is_paired(),
        is_cookie_name(config.cookie_name@),
        is_faithful(user, remade),
        is_set(config, user, TokenKind::Access, login.now, login.cookie),
        is_sent_back(headers, config.cookie_name@, login.cookie, at, lead, trail),
        carried_refresh(config, headers) is None,
        !is_past(
            later(login.now, whole_seconds(config.ttl)),
            config.validation,
            period.until,
        ),
        is_authenticated(config, headers, period, auth),
    ensures
        auth.user == Some(remade),
{
    let (subject, view, token) = lemma_sent_back_token(
        config,
        user,
        remade,
        TokenKind::Access,
        login,
        headers,
        at,
        lead,
        trail,
    );
    access_token_authenticates(
        config,
        subject,
        view,
        lifetime(config, TokenKind::Access),
        login.now,
        token,
        remade,
        headers,
        period,
        auth,
    );
}

/// After a login with refresh tokens enabled, a request that sends the refresh cookie
/// back is from the user who logged in and gets a new access token, until the refresh
/// token expires, whatever access token comes with it. The cookie may stand among
/// others, if no earlier one has its name.
pub proof fn login_refreshes_later_requests<User: TokenUser>(
    config: JwtConfig,
    user: User,
    remade: User,
    login: Issued,
    headers: HeaderMap<HeaderValue>,
    at: int,
    lead: Seq<char>,
    trail: Seq<char>,
    period: Period,
    auth: RequestAuth<User>,
)
    requires
        config.is_paired(),
        config.refresh_enabled,
        is_cookie_name(config.refresh_cookie_name@),
        is_faithful(user, remade),
        is_set(config, user, TokenKind::Refresh, login.now, login.cookie),
        is_sent_back(headers, config.refresh_cookie_name@, login.cookie, at, lead, trail),
        !is_past(
            later(login.now, whole_seconds(config.refresh_ttl)),
            config.validation,
            period.until,
        ),
        is_authenticated(config, headers, period, auth),
    ensures
        auth.user == Some(remade),
        auth.reissue.access,
{
    let (subject, view, token) = lemma_sent_back_token(
        config,
        user,
        remade,
        TokenKind::Refresh,
        login,
        headers,
        at,
        lead,
        trail,
    );
    refresh_token_mints_access_token(
        config,
        subject,
        view,
        lifetime(config, TokenKind::Refresh),
        login.now,
        token,
        remade,
        headers,
        period,
        auth,
    );
}

/// A response to a request in which nobody logged in or out, and for which no token
/// is due, keeps its headers.
pub proof fn nothing_due_changes_nothing<User: TokenUser>(
    config: JwtConfig,
    user: Option<User>,
    before: HeaderMap<HeaderValue>,
    after: HeaderMap<HeaderValue>,
    name: Seq<char>,
)
    requires
        is_closed(
            config,
            user,
            None,
            Reissue { access: false, refresh: false },
            before,
            after,
        ),
    ensures
        values_of(after, name) == values_of(before, name),
{
    let plan = planned(None, Reissue { access: false, refresh: false }, config.refresh_enabled);
    let cookies = choose|cookies: Seq<Seq<char>>| #[trigger]
        is_response(config, user, plan, cookies) && are_added(before, sent(cookies), after);
    assert(cookies =~= Seq::<Seq<char>>::empty());
    assert(sent(cookies) =~= Seq::<Seq<u8>>::empty());
    if name != "set-cookie"@ {
        let rest = fields_of(before).remove("set-cookie"@);
        assert(rest.dom().contains(name) == fields_of(before).dom().contains(
            name,
        ));
        let then_rest = fields_of(after).remove("set-cookie"@);
        assert(then_rest.dom().contains(name) == fields_of(after).dom().contains(
            name,
        ));
        if rest.dom().contains(name) {
            assert(rest[name] == fields_of(before)[name]);
            assert(then_rest[name] == fields_of(after)[name]);
        }
    }
}

} // verus!
