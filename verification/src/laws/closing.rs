//! Laws on closing a session: which cookies a response sets or removes.

use crate::backend::{AuthnBackend, TokenUser};
use crate::claims::TokenKind;
use crate::clock::whole_seconds;
use crate::headers::{fields_of, is_header_text, values_of};
use crate::jwt::{JwtConfig, JwtError, PendingCookie};
use crate::laws::attributes::{gives, lemma_cookie_gives_one_value, lemma_set_cookie_gives};
use crate::laws::issuing::{after, is_told, lemma_encoded_says};
use crate::manager::{
    add_cookies, are_added, is_carried_out, is_issued_cookie, is_response, issue_access_cookie,
    issue_refresh_cookie, listed, plan_cookies, planned, response_cookies, sent, texts, CookiePlan,
    JwtManager, JwtManagerLayer, Reissue,
};
use crate::session::{AuthSession, Inner};
use axum::http::{HeaderMap, HeaderValue};
use vstd::prelude::*;
use vstd::utf8::encode_utf8;

verus! {

/// The user of a session.
pub open spec fn user_of<Backend: AuthnBackend>(session: AuthSession<Backend>) -> Option<
    Backend::User,
> {
    match session.inner {
        Inner::Session { user, .. } => user,
        Inner::Jwt { user, .. } => user,
    }
}

/// What is to be done with the cookies of a session: nothing, if the store backs it.
pub open spec fn action_of<Backend: AuthnBackend>(session: AuthSession<Backend>) -> Option<
    PendingCookie,
> {
    match session.inner {
        Inner::Session { .. } => None,
        Inner::Jwt { pending, .. } => pending,
    }
}

/// Whether a cookie carries this access token, as configured.
pub open spec fn gives_access(config: JwtConfig, cookie: Seq<char>, token: Seq<char>) -> bool {
    gives(
        cookie,
        config.cookie_name@,
        token,
        config.path@,
        whole_seconds(config.ttl),
        config.secure,
    )
}

/// Whether a cookie carries this refresh token, as configured.
pub open spec fn gives_refresh(config: JwtConfig, cookie: Seq<char>, token: Seq<char>) -> bool {
    gives(
        cookie,
        config.refresh_cookie_name@,
        token,
        config.refresh_path@,
        whole_seconds(config.refresh_ttl),
        config.secure,
    )
}

/// Whether a cookie removes the access cookie, as configured.
pub open spec fn removes_access(config: JwtConfig, cookie: Seq<char>) -> bool {
    gives(cookie, config.cookie_name@, Seq::empty(), config.path@, 0, config.secure)
}

/// Whether a cookie removes the refresh cookie, as configured.
pub open spec fn removes_refresh(config: JwtConfig, cookie: Seq<char>) -> bool {
    gives(
        cookie,
        config.refresh_cookie_name@,
        Seq::empty(),
        config.refresh_path@,
        0,
        config.secure,
    )
}

/// Whether issuing an access token for a clone of a user, for the configured lifetime of
/// access tokens, came to this cookie, or failed.
pub open spec fn is_access_issue<User: TokenUser>(
    config: JwtConfig,
    user: User,
    copy: User,
    outcome: Result<String, JwtError>,
    cookie: Option<Seq<char>>,
) -> bool {
    &&& cloned(user, copy)
    &&& config.encodes(copy, TokenKind::Access, whole_seconds(config.ttl), outcome)
    &&& match outcome {
        Ok(token) => cookie matches Some(cookie) && gives_access(config, cookie, token@),
        Err(_) => cookie is None,
    }
}

/// Whether issuing a refresh token for a clone of a user, for the configured lifetime of
/// refresh tokens, came to this cookie, or failed.
pub open spec fn is_refresh_issue<User: TokenUser>(
    config: JwtConfig,
    user: User,
    copy: User,
    outcome: Result<String, JwtError>,
    cookie: Option<Seq<char>>,
) -> bool {
    &&& cloned(user, copy)
    &&& config.encodes(copy, TokenKind::Refresh, whole_seconds(config.refresh_ttl), outcome)
    &&& match outcome {
        Ok(token) => cookie matches Some(cookie) && gives_refresh(config, cookie, token@),
        Err(_) => cookie is None,
    }
}

/// Whether this is the access cookie that an action comes to: none without an action, one
/// that removes it, or one with a token for the user, if there is one.
pub open spec fn is_access_done<User: TokenUser>(
    config: JwtConfig,
    user: Option<User>,
    action: Option<PendingCookie>,
    cookie: Option<Seq<char>>,
) -> bool {
    match action {
        None => cookie is None,
        Some(PendingCookie::Clear) => cookie matches Some(cookie) && removes_access(
            config,
            cookie,
        ),
        Some(PendingCookie::Issue) => match user {
            None => cookie is None,
            Some(user) => exists|copy: User, outcome: Result<String, JwtError>| #[trigger]
                is_access_issue(config, user, copy, outcome, cookie),
        },
    }
}

/// Whether this is the refresh cookie that an action comes to: none without an action, one
/// that removes it, or one with a token for the user, if there is one.
pub open spec fn is_refresh_done<User: TokenUser>(
    config: JwtConfig,
    user: Option<User>,
    action: Option<PendingCookie>,
    cookie: Option<Seq<char>>,
) -> bool {
    match action {
        None => cookie is None,
        Some(PendingCookie::Clear) => cookie matches Some(cookie) && removes_refresh(
            config,
            cookie,
        ),
        Some(PendingCookie::Issue) => match user {
            None => cookie is None,
            Some(user) => exists|copy: User, outcome: Result<String, JwtError>| #[trigger]
                is_refresh_issue(config, user, copy, outcome, cookie),
        },
    }
}

/// The cookies that there are, in this order.
pub open spec fn in_order(first: Option<Seq<char>>, second: Option<Seq<char>>) -> Seq<Seq<char>> {
    match (first, second) {
        (Some(a), Some(b)) => seq![a, b],
        (Some(a), None) => seq![a],
        (None, Some(b)) => seq![b],
        (None, None) => seq![],
    }
}

/// Whether a text can be the value of a header: it has no control character but the tab.
pub open spec fn fits(text: Seq<char>) -> bool {
    forall|i: int|
        0 <= i < encode_utf8(text).len() ==> #[trigger] encode_utf8(text)[i] == 9 || (
        encode_utf8(text)[i] >= 32 && encode_utf8(text)[i] != 127)
}

/// The bytes of the texts that can be the value of a header.
pub open spec fn fitting(cookies: Seq<Seq<char>>) -> Seq<Seq<u8>>
    decreases cookies.len(),
{
    if cookies.len() == 0 {
        seq![]
    } else if fits(cookies[0]) {
        seq![encode_utf8(cookies[0])] + fitting(cookies.skip(1))
    } else {
        fitting(cookies.skip(1))
    }
}

/// Whether a response gained cookies after those that it had, and nothing else changed.
pub open spec fn gains(
    before: HeaderMap<HeaderValue>,
    cookies: Seq<Seq<u8>>,
    after: HeaderMap<HeaderValue>,
) -> bool {
    &&& values_of(after, "set-cookie"@) == values_of(before, "set-cookie"@) + cookies
    &&& forall|name: Seq<char>|
        name != "set-cookie"@ ==> #[trigger] values_of(after, name) == values_of(before, name)
}

/// What is to be done with the access cookie.
pub open spec fn access_action(action: Option<PendingCookie>, reissue: Reissue) -> Option<
    PendingCookie,
> {
    if action is Some {
        action
    } else if reissue.access {
        Some(PendingCookie::Issue)
    } else {
        None
    }
}

/// What is to be done with the refresh cookie.
pub open spec fn refresh_action(
    action: Option<PendingCookie>,
    reissue: Reissue,
    enabled: bool,
) -> Option<PendingCookie> {
    if action is Some {
        if enabled {
            action
        } else {
            None
        }
    } else if reissue.refresh {
        Some(PendingCookie::Issue)
    } else {
        None
    }
}

/// An explicit action goes before what is due. It concerns the refresh cookie only where
/// refresh tokens are enabled.
pub proof fn explicit_action_goes_first(
    pending: Option<PendingCookie>,
    reissue: Reissue,
    enabled: bool,
    plan: CookiePlan,
)
    requires
        call_ensures(plan_cookies, (pending, reissue, enabled), plan),
    ensures
        pending is Some ==> plan.access == pending,
        pending is Some && enabled ==> plan.refresh == pending,
        pending is Some && !enabled ==> plan.refresh is None,
        pending is None ==> (plan.access == Some(PendingCookie::Issue) <==> reissue.access),
        pending is None ==> (plan.access is None <==> !reissue.access),
        pending is None ==> (plan.refresh == Some(PendingCookie::Issue) <==> reissue.refresh),
        pending is None ==> (plan.refresh is None <==> !reissue.refresh),
{
}

proof fn lemma_access_issue<User: TokenUser>(
    config: JwtConfig,
    user: User,
    cookie: Option<Seq<char>>,
)
    requires
        is_issued_cookie(config, Some(user), TokenKind::Access, cookie),
    ensures
        exists|copy: User, outcome: Result<String, JwtError>| #[trigger]
            is_access_issue(config, user, copy, outcome, cookie),
{
    let (copy, outcome) = choose|copy: User, outcome: Result<String, JwtError>|
        cloned(user, copy) && #[trigger] config.encodes(
            copy,
            TokenKind::Access,
            whole_seconds(config.ttl),
            outcome,
        ) && cookie == match outcome {
            Ok(token) => Some(config.access_cookie(token@)),
            Err(_) => None,
        };
    if let Ok(token) = outcome {
        lemma_set_cookie_gives(
            config.cookie_name@,
            token@,
            config.path@,
            whole_seconds(config.ttl),
            config.secure,
        );
    }
    assert(is_access_issue(config, user, copy, outcome, cookie));
}

proof fn lemma_refresh_issue<User: TokenUser>(
    config: JwtConfig,
    user: User,
    cookie: Option<Seq<char>>,
)
    requires
        is_issued_cookie(config, Some(user), TokenKind::Refresh, cookie),
    ensures
        exists|copy: User, outcome: Result<String, JwtError>| #[trigger]
            is_refresh_issue(config, user, copy, outcome, cookie),
{
    let (copy, outcome) = choose|copy: User, outcome: Result<String, JwtError>|
        cloned(user, copy) && #[trigger] config.encodes(
            copy,
            TokenKind::Refresh,
            whole_seconds(config.refresh_ttl),
            outcome,
        ) && cookie == match outcome {
            Ok(token) => Some(config.refresh_cookie(token@)),
            Err(_) => None,
        };
    if let Ok(token) = outcome {
        lemma_set_cookie_gives(
            config.refresh_cookie_name@,
            token@,
            config.refresh_path@,
            whole_seconds(config.refresh_ttl),
            config.secure,
        );
    }
    assert(is_refresh_issue(config, user, copy, outcome, cookie));
}

/// An access cookie is issued for the user of a session: none for nobody, and else one with
/// a token for a clone of the user, if that can be issued.
pub proof fn access_cookie_is_issued_for_the_user<Backend: AuthnBackend>(
    session: &AuthSession<Backend>,
    config: &JwtConfig,
    cookie: Option<String>,
) -> (text: Option<Seq<char>>) where Backend::User: TokenUser
    requires
        call_ensures(issue_access_cookie::<Backend>, (session, config), cookie),
    ensures
        text is Some <==> cookie is Some,
        cookie is Some ==> text == Some(cookie->0@),
        is_access_done(*config, user_of(*session), Some(PendingCookie::Issue), text),
{
    let text = crate::cookies::text_view(cookie);
    if let Some(user) = user_of(*session) {
        lemma_access_issue(*config, user, text);
    }
    text
}

/// A refresh cookie is issued for the user of a session: none for nobody, and else one with
/// a token for a clone of the user, if that can be issued.
pub proof fn refresh_cookie_is_issued_for_the_user<Backend: AuthnBackend>(
    session: &AuthSession<Backend>,
    config: &JwtConfig,
    cookie: Option<String>,
) -> (text: Option<Seq<char>>) where Backend::User: TokenUser
    requires
        call_ensures(issue_refresh_cookie::<Backend>, (session, config), cookie),
    ensures
        text is Some <==> cookie is Some,
        cookie is Some ==> text == Some(cookie->0@),
        is_refresh_done(*config, user_of(*session), Some(PendingCookie::Issue), text),
{
    let text = crate::cookies::text_view(cookie);
    if let Some(user) = user_of(*session) {
        lemma_refresh_issue(*config, user, text);
    }
    text
}

/// The token in an issued access cookie is accepted as an access token only, whoever checks
/// it, and states the user and an expiry the configured lifetime of access tokens after its
/// time of issue.
pub proof fn token_in_an_access_cookie_states_its_expiry<Backend: AuthnBackend>(
    session: &AuthSession<Backend>,
    config: &JwtConfig,
    cookie: String,
    other: &JwtConfig,
    text: &str,
    expected: TokenKind,
    found: Backend::User,
    iat: u64,
    exp: u64,
) -> (copy: Backend::User) where Backend::User: TokenUser
    requires
        call_ensures(issue_access_cookie::<Backend>, (session, config), Some(cookie)),
        gives_access(*config, cookie@, text@),
        call_ensures(
            JwtConfig::decode_kind::<Backend::User>,
            (other, text, expected),
            Some((found, iat, exp)),
        ),
    ensures
        expected is Access,
        exp == after(iat, whole_seconds(config.ttl)),
        user_of(*session) matches Some(user) && cloned(user, copy) && is_told(copy, found),
{
    let set = access_cookie_is_issued_for_the_user(session, config, Some(cookie));
    let (copy, outcome) = choose|copy: Backend::User, outcome: Result<String, JwtError>| #[trigger]
        is_access_issue(*config, user_of(*session)->0, copy, outcome, set);
    let token = outcome->Ok_0;
    assert(outcome == Ok::<String, JwtError>(token));
    lemma_cookie_gives_one_value(
        cookie@,
        config.cookie_name@,
        token@,
        text@,
        config.path@,
        whole_seconds(config.ttl),
        config.secure,
    );
    lemma_encoded_says(
        *config,
        copy,
        TokenKind::Access,
        whole_seconds(config.ttl),
        token,
        *other,
        expected,
        found,
        iat,
        exp,
    );
    copy
}

/// The token in an issued refresh cookie is accepted as a refresh token only, whoever checks
/// it, and states the user and an expiry the configured lifetime of refresh tokens after its
/// time of issue.
pub proof fn token_in_a_refresh_cookie_states_its_expiry<Backend: AuthnBackend>(
    session: &AuthSession<Backend>,
    config: &JwtConfig,
    cookie: String,
    other: &JwtConfig,
    text: &str,
    expected: TokenKind,
    found: Backend::User,
    iat: u64,
    exp: u64,
) -> (copy: Backend::User) where Backend::User: TokenUser
    requires
        call_ensures(issue_refresh_cookie::<Backend>, (session, config), Some(cookie)),
        gives_refresh(*config, cookie@, text@),
        call_ensures(
            JwtConfig::decode_kind::<Backend::User>,
            (other, text, expected),
            Some((found, iat, exp)),
        ),
    ensures
        expected is Refresh,
        exp == after(iat, whole_seconds(config.refresh_ttl)),
        user_of(*session) matches Some(user) && cloned(user, copy) && is_told(copy, found),
{
    let set = refresh_cookie_is_issued_for_the_user(session, config, Some(cookie));
    let (copy, outcome) = choose|copy: Backend::User, outcome: Result<String, JwtError>| #[trigger]
        is_refresh_issue(*config, user_of(*session)->0, copy, outcome, set);
    let token = outcome->Ok_0;
    assert(outcome == Ok::<String, JwtError>(token));
    lemma_cookie_gives_one_value(
        cookie@,
        config.refresh_cookie_name@,
        token@,
        text@,
        config.refresh_path@,
        whole_seconds(config.refresh_ttl),
        config.secure,
    );
    lemma_encoded_says(
        *config,
        copy,
        TokenKind::Refresh,
        whole_seconds(config.refresh_ttl),
        token,
        *other,
        expected,
        found,
        iat,
        exp,
    );
    copy
}

proof fn lemma_cookies_are_done<User: TokenUser>(
    config: JwtConfig,
    user: Option<User>,
    plan: CookiePlan,
    cookies: Seq<Seq<char>>,
) -> (done: (Option<Seq<char>>, Option<Seq<char>>))
    requires
        is_response(config, user, plan, cookies),
    ensures
        is_access_done(config, user, plan.access, done.0),
        is_refresh_done(config, user, plan.refresh, done.1),
        cookies == in_order(done.0, done.1),
{
    let (access, refresh) = choose|access: Option<Seq<char>>, refresh: Option<Seq<char>>|
        is_carried_out(config, user, TokenKind::Access, plan.access, access) && is_carried_out(
            config,
            user,
            TokenKind::Refresh,
            plan.refresh,
            refresh,
        ) && cookies == #[trigger] listed(access, refresh);
    assert(cookies =~= in_order(access, refresh));
    let none = Seq::<char>::empty();
    match plan.access {
        None => {},
        Some(PendingCookie::Clear) => {
            lemma_set_cookie_gives(config.cookie_name@, none, config.path@, 0, config.secure);
        },
        Some(PendingCookie::Issue) => {
            if user is Some {
                lemma_access_issue(config, user->0, access);
            }
        },
    }
    match plan.refresh {
        None => {},
        Some(PendingCookie::Clear) => {
            lemma_set_cookie_gives(
                config.refresh_cookie_name@,
                none,
                config.refresh_path@,
                0,
                config.secure,
            );
        },
        Some(PendingCookie::Issue) => {
            if user is Some {
                lemma_refresh_issue(config, user->0, refresh);
            }
        },
    }
    (access, refresh)
}

/// The cookies of a response are those that the plan comes to, the access cookie first.
pub proof fn cookies_are_as_planned<Backend: AuthnBackend>(
    config: &JwtConfig,
    session: &AuthSession<Backend>,
    plan: CookiePlan,
    cookies: Vec<String>,
) -> (done: (Option<Seq<char>>, Option<Seq<char>>)) where Backend::User: TokenUser
    requires
        call_ensures(response_cookies::<Backend>, (config, session, plan), cookies),
    ensures
        is_access_done(*config, user_of(*session), plan.access, done.0),
        is_refresh_done(*config, user_of(*session), plan.refresh, done.1),
        cookies@.len() == in_order(done.0, done.1).len(),
        forall|i: int|
            0 <= i < cookies@.len() ==> (#[trigger] cookies@[i])@ == in_order(done.0, done.1)[i],
{
    let done = lemma_cookies_are_done(*config, user_of(*session), plan, texts(cookies@));
    assert forall|i: int| 0 <= i < cookies@.len() implies (#[trigger] cookies@[i])@ == in_order(
        done.0,
        done.1,
    )[i] by {
        assert(texts(cookies@)[i] == cookies@[i]@);
    }
    assert(texts(cookies@).len() == cookies@.len());
    done
}

proof fn lemma_fitting_push(cookies: Seq<Seq<char>>, last: Seq<char>)
    ensures
        fitting(cookies.push(last)) == if fits(last) {
            fitting(cookies).push(encode_utf8(last))
        } else {
            fitting(cookies)
        },
    decreases cookies.len(),
{
    let all = cookies.push(last);
    if cookies.len() == 0 {
        let none = Seq::<Seq<u8>>::empty();
        assert(all.skip(1) =~= cookies);
        assert(all[0] == last);
        assert(fitting(cookies) =~= none);
        assert(seq![encode_utf8(last)] + none =~= none.push(encode_utf8(last)));
    } else {
        lemma_fitting_push(cookies.skip(1), last);
        assert(all.skip(1) =~= cookies.skip(1).push(last));
        assert(all[0] == cookies[0]);
        let rest = fitting(cookies.skip(1));
        let first = seq![encode_utf8(cookies[0])];
        assert(first + rest.push(encode_utf8(last)) =~= (first + rest).push(encode_utf8(last)));
    }
}

pub(crate) proof fn lemma_sent_are_fitting(cookies: Seq<Seq<char>>)
    ensures
        sent(cookies) == fitting(cookies),
    decreases cookies.len(),
{
    if cookies.len() > 0 {
        let front = cookies.drop_last();
        lemma_sent_are_fitting(front);
        lemma_fitting_push(front, cookies.last());
        assert(cookies =~= front.push(cookies.last()));
        assert(fits(cookies.last()) == is_header_text(cookies.last()));
    }
}

pub(crate) proof fn lemma_added_are_gained(
    before: HeaderMap<HeaderValue>,
    cookies: Seq<Seq<u8>>,
    after: HeaderMap<HeaderValue>,
)
    requires
        are_added(before, cookies, after),
    ensures
        gains(before, cookies, after),
{
    let rest = fields_of(before).remove("set-cookie"@);
    let then_rest = fields_of(after).remove("set-cookie"@);
    assert forall|name: Seq<char>| name != "set-cookie"@ implies #[trigger] values_of(after, name)
        == values_of(before, name) by {
        assert(rest.dom().contains(name) == fields_of(before).dom().contains(name));
        assert(then_rest.dom().contains(name) == fields_of(after).dom().contains(name));
        if rest.dom().contains(name) {
            assert(rest[name] == fields_of(before)[name]);
            assert(then_rest[name] == fields_of(after)[name]);
        }
    }
}

/// The characters of texts.
pub open spec fn characters_of(cookies: Seq<String>) -> Seq<Seq<char>> {
    Seq::new(cookies.len(), |i: int| cookies[i]@)
}

/// Whether a response gained the first so many cookies, as far as they can be the value of
/// a header.
pub open spec fn gains_first(
    before: HeaderMap<HeaderValue>,
    cookies: Seq<Seq<char>>,
    n: int,
    after: HeaderMap<HeaderValue>,
) -> bool {
    gains(before, fitting(cookies.take(n)), after)
}

/// A response gains all cookies that can be the value of a header, in order, and nothing
/// else changes. Where the headers have no room for that, it gains the first of them only;
/// there is room where there are few enough fields.
pub proof fn fitting_cookies_are_added(
    headers: &mut HeaderMap<HeaderValue>,
    cookies: &Vec<String>,
    all: bool,
)
    requires
        call_ensures(add_cookies, (headers, cookies), all),
    ensures
        all ==> gains(*old(headers), fitting(characters_of(cookies@)), *final(headers)),
        !all ==> exists|n: int|
            0 <= n < cookies@.len() && #[trigger] gains_first(
                *old(headers),
                characters_of(cookies@),
                n,
                *final(headers),
            ),
        fields_of(*old(headers)).dom().finite() && fields_of(*old(headers)).dom().len() < 6553
            ==> all,
{
    let every = texts(cookies@);
    assert(every =~= characters_of(cookies@));
    if all {
        lemma_sent_are_fitting(every);
        lemma_added_are_gained(*old(headers), sent(every), *final(headers));
    } else {
        let n = choose|n: int|
            0 <= n < cookies@.len() && #[trigger] are_added(
                *old(headers),
                sent(texts(cookies@).take(n)),
                *final(headers),
            );
        lemma_sent_are_fitting(every.take(n));
        lemma_added_are_gained(*old(headers), sent(every.take(n)), *final(headers));
        assert(gains_first(*old(headers), characters_of(cookies@), n, *final(headers)));
    }
}

/// Whether these are the access cookie and the refresh cookie that come of what was asked
/// for, or else of what is due, and a response gained both, as far as they can be the value
/// of a header; or, where it could not gain all, none or the first.
pub open spec fn is_answer<User: TokenUser>(
    config: JwtConfig,
    user: Option<User>,
    action: Option<PendingCookie>,
    reissue: Reissue,
    before: HeaderMap<HeaderValue>,
    access: Option<Seq<char>>,
    refresh: Option<Seq<char>>,
    closed: bool,
    after: HeaderMap<HeaderValue>,
) -> bool {
    &&& is_access_done(config, user, access_action(action, reissue), access)
    &&& is_refresh_done(
        config,
        user,
        refresh_action(action, reissue, config.refresh_enabled),
        refresh,
    )
    &&& if closed {
        gains(before, fitting(in_order(access, refresh)), after)
    } else {
        gains(before, seq![], after) || (access is Some && refresh is Some && gains(
            before,
            fitting(seq![access->0]),
            after,
        ))
    }
}

/// Closing a session does what was asked of it, or else what is due, with the access cookie
/// and then with the refresh cookie: a response gains the cookies that come of it, as far as
/// they can be the value of a header, and nothing else changes. What was asked of the session
/// is then no longer to be done.
///
/// Where the headers have no room, the response gains the access cookie at most; there is
/// room where there are few enough fields.
pub proof fn response_gains_what_is_to_be_done<S, Backend: AuthnBackend>(
    manager: &JwtManager<S, Backend>,
    session: &mut AuthSession<Backend>,
    reissue: Reissue,
    headers: &mut HeaderMap<HeaderValue>,
    closed: bool,
) where Backend::User: TokenUser
    requires
        call_ensures(
            JwtManager::<S, Backend>::close_session,
            (manager, session, reissue, headers),
            closed,
        ),
    ensures
        final(session).backend == old(session).backend,
        user_of(*final(session)) == user_of(*old(session)),
        action_of(*final(session)) is None,
        old(session).inner is Session ==> *final(session) == *old(session),
        old(session).inner is Jwt ==> final(session).inner is Jwt,
        fields_of(*old(headers)).dom().finite() && fields_of(*old(headers)).dom().len() < 6553
            ==> closed,
        exists|access: Option<Seq<char>>, refresh: Option<Seq<char>>| #[trigger]
            is_answer(
                *manager.config,
                user_of(*old(session)),
                action_of(*old(session)),
                reissue,
                *old(headers),
                access,
                refresh,
                closed,
                *final(headers),
            ),
{
    let config = *manager.config;
    let user = user_of(*old(session));
    let action = action_of(*old(session));
    let plan = planned(action, reissue, config.refresh_enabled);
    assert(plan.access == access_action(action, reissue));
    assert(plan.refresh == refresh_action(action, reissue, config.refresh_enabled));
    if closed {
        let cookies = choose|cookies: Seq<Seq<char>>| #[trigger]
            is_response(config, user, plan, cookies) && are_added(
                *old(headers),
                sent(cookies),
                *final(headers),
            );
        lemma_sent_are_fitting(cookies);
        lemma_added_are_gained(*old(headers), sent(cookies), *final(headers));
        let done = lemma_cookies_are_done(config, user, plan, cookies);
        assert(is_answer(
            config,
            user,
            action,
            reissue,
            *old(headers),
            done.0,
            done.1,
            closed,
            *final(headers),
        ));
    } else {
        let (cookies, n) = choose|cookies: Seq<Seq<char>>, n: int|
            0 <= n < cookies.len() && #[trigger] is_response(config, user, plan, cookies)
                && #[trigger] are_added(*old(headers), sent(cookies.take(n)), *final(headers));
        let done = lemma_cookies_are_done(config, user, plan, cookies);
        lemma_sent_are_fitting(cookies.take(n));
        lemma_added_are_gained(*old(headers), sent(cookies.take(n)), *final(headers));
        if n == 0 {
            assert(cookies.take(n) =~= seq![]);
            assert(sent(cookies.take(n)) =~= seq![]);
        } else {
            assert(n == 1 && cookies.len() == 2);
            assert(cookies.take(n) =~= seq![done.0->0]);
        }
        assert(is_answer(
            config,
            user,
            action,
            reissue,
            *old(headers),
            done.0,
            done.1,
            closed,
            *final(headers),
        ));
    }
}

/// A layer has the backend and the configuration that it is made of, and hands them on to
/// the managers that it makes, as clones do.
pub proof fn layer_hands_on_its_configuration<S, Backend: AuthnBackend>(
    backend: Backend,
    config: JwtConfig,
    layer: &JwtManagerLayer<Backend>,
    inner: S,
    manager: JwtManager<S, Backend>,
    copy: JwtManagerLayer<Backend>,
)
    ensures
        call_ensures(JwtManagerLayer::<Backend>::new, (backend, config), *layer) ==> layer.backend
            == backend && *layer.config == config,
        call_ensures(JwtManagerLayer::<Backend>::layer::<S>, (layer, inner), manager) ==> {
            &&& manager.inner == inner
            &&& cloned(layer.backend, manager.backend)
            &&& *manager.config == *layer.config
        },
        call_ensures(<JwtManagerLayer<Backend> as Clone>::clone, (layer,), copy) ==> cloned(
            layer.backend,
            copy.backend,
        ) && *copy.config == *layer.config,
{
}

/// The clone of a manager has its configuration, and clones of what else it has.
pub proof fn manager_is_cloned<S: Clone, Backend: AuthnBackend>(
    manager: &JwtManager<S, Backend>,
    copy: JwtManager<S, Backend>,
)
    requires
        call_ensures(<JwtManager<S, Backend> as Clone>::clone, (manager,), copy),
    ensures
        cloned(manager.inner, copy.inner),
        cloned(manager.backend, copy.backend),
        *copy.config == *manager.config,
{
}

} // verus!
