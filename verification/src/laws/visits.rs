//! Laws on one visit after another: what a later request makes of the cookies that an
//! earlier response set.

use crate::backend::{AuthnBackend, TokenUser};
use crate::claims::TokenKind;
use crate::clock::{is_reading, whole_seconds};
use crate::headers::{is_header_text, values_of};
use crate::jwt::{is_issued, JwtConfig, JwtError, PendingCookie};
use crate::laws::attributes::{gives, lemma_cookie_gives_one_value};
use crate::laws::closing::{
    access_action, action_of, fits, fitting, gains, gives_access, gives_refresh, in_order, is_access_done,
    is_access_issue, is_answer, is_refresh_done, is_refresh_issue, removes_access,
    removes_refresh, response_gains_what_is_to_be_done, user_of,
};
use crate::laws::cookies::{has_printable_cookies, token_cookies_can_be_sent};
use crate::laws::issuing::{after, is_over, lemma_good_at};
use crate::laws::opening::{
    are_tokens_of, refresh_token_opens_a_session, session_is_of_the_user_of_the_tokens,
};
use crate::laws::requests::is_faithful;
use crate::manager::{JwtManager, Reissue};
use crate::session::{AuthSession, Inner};
use crate::token::{can_sign, checks_expiry_only, is_compact, is_pair};
use axum::http::{HeaderMap, HeaderValue};
use serde_json::Value;
use vstd::prelude::*;
use vstd::utf8::{encode_utf8, encode_utf8_decode_utf8};

verus! {

/// Whether the keys and the rules are those of tokens that are signed and checked in one
/// place: the keys are a pair, signing never fails, and only the expiry is checked.
pub open spec fn is_sound_configuration(config: JwtConfig) -> bool {
    &&& is_pair(config.algorithm, config.encoding_key, config.decoding_key)
    &&& checks_expiry_only(config.validation, config.algorithm)
    &&& can_sign(config.algorithm, config.encoding_key)
    &&& !(config.algorithm is ES256)
    &&& !(config.algorithm is ES384)
}

/// Whether the clones of a user can be the subject of a token.
pub open spec fn can_be_subject<User: TokenUser>(user: User) -> bool {
    forall|copy: User, subject: Result<Value, serde_json::Error>, view: Value|
        cloned(user, copy) && #[trigger] call_ensures(User::subject, (&copy,), subject)
            && #[trigger] call_ensures(User::to_claims, (&copy,), view) ==> subject is Ok
}

/// Whether the bytes of a header are a cookie with an access token that was issued for a
/// user, for the configured lifetime of access tokens.
pub open spec fn is_access_cookie_for<User: TokenUser>(
    config: JwtConfig,
    user: User,
    bytes: Seq<u8>,
) -> bool {
    exists|cookie: Seq<char>, copy: User, token: String|
        bytes == #[trigger] encode_utf8(cookie) && gives_access(config, cookie, token@) && cloned(
            user,
            copy,
        ) && #[trigger] config.encodes(
            copy,
            TokenKind::Access,
            whole_seconds(config.ttl),
            Ok::<String, JwtError>(token),
        )
}

/// Whether the bytes of a header are a cookie with a refresh token that was issued for a
/// user, for the configured lifetime of refresh tokens.
pub open spec fn is_refresh_cookie_for<User: TokenUser>(
    config: JwtConfig,
    user: User,
    bytes: Seq<u8>,
) -> bool {
    exists|cookie: Seq<char>, copy: User, token: String|
        bytes == #[trigger] encode_utf8(cookie) && gives_refresh(config, cookie, token@) && cloned(
            user,
            copy,
        ) && #[trigger] config.encodes(
            copy,
            TokenKind::Refresh,
            whole_seconds(config.refresh_ttl),
            Ok::<String, JwtError>(token),
        )
}

/// Whether the bytes of a header are a cookie that removes the access cookie.
pub open spec fn is_access_removal(config: JwtConfig, bytes: Seq<u8>) -> bool {
    exists|cookie: Seq<char>|
        bytes == #[trigger] encode_utf8(cookie) && removes_access(config, cookie)
}

/// Whether the bytes of a header are a cookie that removes the refresh cookie.
pub open spec fn is_refresh_removal(config: JwtConfig, bytes: Seq<u8>) -> bool {
    exists|cookie: Seq<char>|
        bytes == #[trigger] encode_utf8(cookie) && removes_refresh(config, cookie)
}

proof fn lemma_issue_is_ok<User: TokenUser>(
    config: JwtConfig,
    user: User,
    copy: User,
    typ: TokenKind,
    ttl: u64,
    outcome: Result<String, JwtError>,
)
    requires
        is_sound_configuration(config),
        can_be_subject(user),
        cloned(user, copy),
        config.encodes(copy, typ, ttl, outcome),
    ensures
        outcome is Ok,
        is_compact(outcome->Ok_0@),
{
    let now = choose|now: u64|
        is_reading(now) && #[trigger] config.encodes_at(copy, typ, ttl, now, outcome);
    let (subject, view) = choose|subject: Result<Value, serde_json::Error>, view: Value|
        call_ensures(User::subject, (&copy,), subject) && call_ensures(
            User::to_claims,
            (&copy,),
            view,
        ) && #[trigger] is_issued(config, subject, view, typ, ttl, now, outcome);
    assert(subject is Ok);
}

proof fn lemma_access_is_issued<User: TokenUser>(
    config: JwtConfig,
    user: User,
    access: Option<Seq<char>>,
) -> (issued: (User, String))
    requires
        is_sound_configuration(config),
        has_printable_cookies(config),
        can_be_subject(user),
        is_access_done(config, Some(user), Some(PendingCookie::Issue), access),
    ensures
        access is Some,
        fits(access->0),
        gives_access(config, access->0, issued.1@),
        cloned(user, issued.0),
        config.encodes(
            issued.0,
            TokenKind::Access,
            whole_seconds(config.ttl),
            Ok::<String, JwtError>(issued.1),
        ),
        is_access_cookie_for(config, user, encode_utf8(access->0)),
{
    let (copy, outcome) = choose|copy: User, outcome: Result<String, JwtError>| #[trigger]
        is_access_issue(config, user, copy, outcome, access);
    lemma_issue_is_ok(config, user, copy, TokenKind::Access, whole_seconds(config.ttl), outcome);
    let token = outcome->Ok_0;
    assert(outcome == Ok::<String, JwtError>(token));
    lemma_cookie_gives_one_value(
        access->0,
        config.cookie_name@,
        token@,
        token@,
        config.path@,
        whole_seconds(config.ttl),
        config.secure,
    );
    token_cookies_can_be_sent(config, TokenKind::Access, token@);
    assert(is_header_text(access->0));
    (copy, token)
}

proof fn lemma_refresh_is_issued<User: TokenUser>(
    config: JwtConfig,
    user: User,
    refresh: Option<Seq<char>>,
) -> (issued: (User, String))
    requires
        is_sound_configuration(config),
        has_printable_cookies(config),
        can_be_subject(user),
        is_refresh_done(config, Some(user), Some(PendingCookie::Issue), refresh),
    ensures
        refresh is Some,
        fits(refresh->0),
        gives_refresh(config, refresh->0, issued.1@),
        cloned(user, issued.0),
        config.encodes(
            issued.0,
            TokenKind::Refresh,
            whole_seconds(config.refresh_ttl),
            Ok::<String, JwtError>(issued.1),
        ),
        is_refresh_cookie_for(config, user, encode_utf8(refresh->0)),
{
    let (copy, outcome) = choose|copy: User, outcome: Result<String, JwtError>| #[trigger]
        is_refresh_issue(config, user, copy, outcome, refresh);
    lemma_issue_is_ok(
        config,
        user,
        copy,
        TokenKind::Refresh,
        whole_seconds(config.refresh_ttl),
        outcome,
    );
    let token = outcome->Ok_0;
    assert(outcome == Ok::<String, JwtError>(token));
    lemma_cookie_gives_one_value(
        refresh->0,
        config.refresh_cookie_name@,
        token@,
        token@,
        config.refresh_path@,
        whole_seconds(config.refresh_ttl),
        config.secure,
    );
    token_cookies_can_be_sent(config, TokenKind::Refresh, token@);
    assert(is_header_text(refresh->0));
    (copy, token)
}

proof fn lemma_fitting_in_order(first: Option<Seq<char>>, second: Option<Seq<char>>)
    requires
        first is Some ==> fits(first->0),
        second is Some ==> fits(second->0),
    ensures
        fitting(in_order(first, second)) == match (first, second) {
            (Some(a), Some(b)) => seq![encode_utf8(a), encode_utf8(b)],
            (Some(a), None) => seq![encode_utf8(a)],
            (None, Some(b)) => seq![encode_utf8(b)],
            (None, None) => seq![],
        },
{
    let all = in_order(first, second);
    reveal_with_fuel(fitting, 3);
    if all.len() == 2 {
        assert(all.skip(1)[0] == all[1]);
        assert(fitting(all) =~= seq![encode_utf8(all[0]), encode_utf8(all[1])]);
    } else if all.len() == 1 {
        assert(fitting(all) =~= seq![encode_utf8(all[0])]);
    } else {
        assert(fitting(all) =~= seq![]);
    }
}

/// The response to a login sets the access cookie, with a token for the user, after its
/// other cookies, and then, where refresh tokens are enabled, the refresh cookie; no others,
/// whatever tokens came with the request.
pub proof fn login_is_answered_with_cookies<S, Backend: AuthnBackend>(
    manager: &JwtManager<S, Backend>,
    session: &mut AuthSession<Backend>,
    user: Backend::User,
    reissue: Reissue,
    response: &mut HeaderMap<HeaderValue>,
) where Backend::User: TokenUser
    requires
        is_sound_configuration(*manager.config),
        has_printable_cookies(*manager.config),
        can_be_subject(user),
        old(session).inner matches Inner::Jwt { user: Some(current), pending: Some(action) }
            && current == user && action is Issue,
        call_ensures(
            JwtManager::<S, Backend>::close_session,
            (manager, session, reissue, response),
            true,
        ),
    ensures
        values_of(*final(response), "set-cookie"@).len() == values_of(
            *old(response),
            "set-cookie"@,
        ).len() + if manager.config.refresh_enabled {
            2int
        } else {
            1int
        },
        values_of(*old(response), "set-cookie"@).is_prefix_of(
            values_of(*final(response), "set-cookie"@),
        ),
        is_access_cookie_for(
            *manager.config,
            user,
            values_of(*final(response), "set-cookie"@)[values_of(
                *old(response),
                "set-cookie"@,
            ).len() as int],
        ),
        manager.config.refresh_enabled ==> is_refresh_cookie_for(
            *manager.config,
            user,
            values_of(*final(response), "set-cookie"@).last(),
        ),
        forall|name: Seq<char>|
            name != "set-cookie"@ ==> #[trigger] values_of(*final(response), name) == values_of(
                *old(response),
                name,
            ),
{
    let config = *manager.config;
    response_gains_what_is_to_be_done(manager, session, reissue, response, true);
    let (access, refresh) = choose|access: Option<Seq<char>>, refresh: Option<Seq<char>>|
        #[trigger]
        is_answer(
            config,
            user_of(*old(session)),
            action_of(*old(session)),
            reissue,
            *old(response),
            access,
            refresh,
            true,
            *final(response),
        );
    let set = lemma_access_is_issued(config, user, access);
    if config.refresh_enabled {
        let also = lemma_refresh_is_issued(config, user, refresh);
    }
    lemma_fitting_in_order(access, refresh);
}

/// The response to a logout removes the access cookie and then, where refresh tokens are
/// enabled, the refresh cookie; it sets none, whatever tokens came with the request.
pub proof fn logout_is_answered_with_removals<S, Backend: AuthnBackend>(
    manager: &JwtManager<S, Backend>,
    session: &mut AuthSession<Backend>,
    reissue: Reissue,
    response: &mut HeaderMap<HeaderValue>,
) where Backend::User: TokenUser
    requires
        has_printable_cookies(*manager.config),
        old(session).inner matches Inner::Jwt { user: None, pending: Some(action) } && action
            is Clear,
        call_ensures(
            JwtManager::<S, Backend>::close_session,
            (manager, session, reissue, response),
            true,
        ),
    ensures
        values_of(*final(response), "set-cookie"@).len() == values_of(
            *old(response),
            "set-cookie"@,
        ).len() + if manager.config.refresh_enabled {
            2int
        } else {
            1int
        },
        values_of(*old(response), "set-cookie"@).is_prefix_of(
            values_of(*final(response), "set-cookie"@),
        ),
        is_access_removal(
            *manager.config,
            values_of(*final(response), "set-cookie"@)[values_of(
                *old(response),
                "set-cookie"@,
            ).len() as int],
        ),
        manager.config.refresh_enabled ==> is_refresh_removal(
            *manager.config,
            values_of(*final(response), "set-cookie"@).last(),
        ),
{
    let config = *manager.config;
    response_gains_what_is_to_be_done(manager, session, reissue, response, true);
    let (access, refresh) = choose|access: Option<Seq<char>>, refresh: Option<Seq<char>>|
        #[trigger]
        is_answer(
            config,
            user_of(*old(session)),
            action_of(*old(session)),
            reissue,
            *old(response),
            access,
            refresh,
            true,
            *final(response),
        );
    let none = Seq::<char>::empty();
    lemma_cookie_gives_one_value(
        access->0,
        config.cookie_name@,
        none,
        none,
        config.path@,
        0,
        config.secure,
    );
    token_cookies_can_be_sent(config, TokenKind::Access, none);
    assert(is_header_text(access->0));
    assert(fits(access->0));
    if config.refresh_enabled {
        lemma_cookie_gives_one_value(
            refresh->0,
            config.refresh_cookie_name@,
            none,
            none,
            config.refresh_path@,
            0,
            config.secure,
        );
        token_cookies_can_be_sent(config, TokenKind::Refresh, none);
        assert(is_header_text(refresh->0));
        assert(fits(refresh->0));
    }
    lemma_fitting_in_order(access, refresh);
}

/// A response is left as it is where nobody logged in or out and no token is due, and where
/// tokens are to be issued but there is nobody to issue them for.
pub proof fn response_is_left_as_it_is<S, Backend: AuthnBackend>(
    manager: &JwtManager<S, Backend>,
    session: &mut AuthSession<Backend>,
    reissue: Reissue,
    response: &mut HeaderMap<HeaderValue>,
    closed: bool,
    name: Seq<char>,
) where Backend::User: TokenUser
    requires
        ({
            ||| action_of(*old(session)) is None && !reissue.access && !reissue.refresh
            ||| user_of(*old(session)) is None && action_of(*old(session)) != Some(
                PendingCookie::Clear,
            )
        }),
        call_ensures(
            JwtManager::<S, Backend>::close_session,
            (manager, session, reissue, response),
            closed,
        ),
    ensures
        values_of(*final(response), name) == values_of(*old(response), name),
{
    let config = *manager.config;
    response_gains_what_is_to_be_done(manager, session, reissue, response, closed);
    let (access, refresh) = choose|access: Option<Seq<char>>, refresh: Option<Seq<char>>|
        #[trigger]
        is_answer(
            config,
            user_of(*old(session)),
            action_of(*old(session)),
            reissue,
            *old(response),
            access,
            refresh,
            closed,
            *final(response),
        );
    lemma_fitting_in_order(access, refresh);
    let held = values_of(*old(response), "set-cookie"@);
    let none = Seq::<Seq<u8>>::empty();
    assert(held + none =~= held);
    assert(gains(*old(response), none, *final(response)));
}

/// Whether a user is recognised until a token's lifetime is over, and not after: the token
/// was issued at one time and checked at another one.
pub open spec fn holds_until<User>(
    config: JwtConfig,
    seconds: u64,
    issued: u64,
    at: u64,
    user: User,
    found: Option<User>,
) -> bool {
    &&& is_reading(issued)
    &&& is_reading(at)
    &&& found == Some(user) <==> !is_over(config.validation, after(issued, seconds), at)
}

/// After a login, a request that carries the token of the access cookie that the response
/// set, and no refresh token that counts, opens a session of the user who logged in until
/// the configured lifetime of access tokens is over, and of nobody from then on.
pub proof fn user_is_recognised_by_the_access_cookie<S, Backend: AuthnBackend>(
    manager: &JwtManager<S, Backend>,
    session: &mut AuthSession<Backend>,
    user: Backend::User,
    remade: Backend::User,
    reissue: Reissue,
    response: &mut HeaderMap<HeaderValue>,
    cookie: Seq<char>,
    later: &JwtManager<S, Backend>,
    headers: &HeaderMap<HeaderValue>,
    opened: (AuthSession<Backend>, Reissue),
    name: &str,
    refresh_name: &str,
    access: String,
    refresh: Option<String>,
) where Backend::User: TokenUser
    requires
        is_sound_configuration(*manager.config),
        has_printable_cookies(*manager.config),
        is_faithful(user, remade),
        old(session).inner matches Inner::Jwt { user: Some(current), pending: Some(action) }
            && current == user && action is Issue,
        call_ensures(
            JwtManager::<S, Backend>::close_session,
            (manager, session, reissue, response),
            true,
        ),
        values_of(*final(response), "set-cookie"@)[values_of(
            *old(response),
            "set-cookie"@,
        ).len() as int] == encode_utf8(cookie),
        gives_access(*manager.config, cookie, access@),
        *later.config == *manager.config,
        call_ensures(JwtManager::<S, Backend>::open_session, (later, headers), opened),
        are_tokens_of(*later.config, headers, name, refresh_name, Some(access), refresh),
        refresh is None || !later.config.refresh_enabled,
    ensures
        user_of(opened.0) is None || user_of(opened.0) == Some(remade),
        exists|issued: u64, at: u64| #[trigger]
            holds_until(
                *manager.config,
                whole_seconds(manager.config.ttl),
                issued,
                at,
                remade,
                user_of(opened.0),
            ),
{
    let config = *manager.config;
    response_gains_what_is_to_be_done(manager, session, reissue, response, true);
    let (first, second) = choose|first: Option<Seq<char>>, second: Option<Seq<char>>| #[trigger]
        is_answer(
            config,
            user_of(*old(session)),
            action_of(*old(session)),
            reissue,
            *old(response),
            first,
            second,
            true,
            *final(response),
        );
    assert(can_be_subject(user));
    let (copy, token) = lemma_access_is_issued(config, user, first);
    if config.refresh_enabled {
        let also = lemma_refresh_is_issued(config, user, second);
    }
    lemma_fitting_in_order(first, second);
    encode_utf8_decode_utf8(cookie);
    encode_utf8_decode_utf8(first->0);
    assert(cookie == first->0);
    lemma_cookie_gives_one_value(
        cookie,
        config.cookie_name@,
        token@,
        access@,
        config.path@,
        whole_seconds(config.ttl),
        config.secure,
    );
    let trials = session_is_of_the_user_of_the_tokens(
        later,
        headers,
        opened,
        name,
        refresh_name,
        Some(access),
        refresh,
    );
    let now = lemma_good_at(
        config,
        user,
        copy,
        remade,
        TokenKind::Access,
        whole_seconds(config.ttl),
        token,
        TokenKind::Access,
        trials.0.at,
        trials.0.outcome,
    );
    assert(holds_until(
        config,
        whole_seconds(config.ttl),
        now,
        trials.0.at,
        remade,
        user_of(opened.0),
    ));
}

/// After a login with refresh tokens enabled, a request that carries the token of the
/// refresh cookie that the response set, and no access token, opens a session of the user
/// who logged in and makes an access token due until the configured lifetime of refresh
/// tokens is over; from then on it opens a session of nobody. Whether sliding refresh is on
/// makes no difference.
pub proof fn user_is_recognised_by_the_refresh_cookie<S, Backend: AuthnBackend>(
    manager: &JwtManager<S, Backend>,
    session: &mut AuthSession<Backend>,
    user: Backend::User,
    remade: Backend::User,
    reissue: Reissue,
    response: &mut HeaderMap<HeaderValue>,
    cookie: Seq<char>,
    later: &JwtManager<S, Backend>,
    headers: &HeaderMap<HeaderValue>,
    opened: (AuthSession<Backend>, Reissue),
    name: &str,
    refresh_name: &str,
    refresh: String,
) where Backend::User: TokenUser
    requires
        is_sound_configuration(*manager.config),
        has_printable_cookies(*manager.config),
        manager.config.refresh_enabled,
        is_faithful(user, remade),
        old(session).inner matches Inner::Jwt { user: Some(current), pending: Some(action) }
            && current == user && action is Issue,
        call_ensures(
            JwtManager::<S, Backend>::close_session,
            (manager, session, reissue, response),
            true,
        ),
        values_of(*final(response), "set-cookie"@)[values_of(
            *old(response),
            "set-cookie"@,
        ).len() as int + 1] == encode_utf8(cookie),
        gives_refresh(*manager.config, cookie, refresh@),
        *later.config == *manager.config,
        call_ensures(JwtManager::<S, Backend>::open_session, (later, headers), opened),
        are_tokens_of(*later.config, headers, name, refresh_name, None, Some(refresh)),
    ensures
        user_of(opened.0) is None || user_of(opened.0) == Some(remade),
        opened.1.access <==> user_of(opened.0) == Some(remade),
        exists|issued: u64, at: u64| #[trigger]
            holds_until(
                *manager.config,
                whole_seconds(manager.config.refresh_ttl),
                issued,
                at,
                remade,
                user_of(opened.0),
            ),
{
    let config = *manager.config;
    response_gains_what_is_to_be_done(manager, session, reissue, response, true);
    let (first, second) = choose|first: Option<Seq<char>>, second: Option<Seq<char>>| #[trigger]
        is_answer(
            config,
            user_of(*old(session)),
            action_of(*old(session)),
            reissue,
            *old(response),
            first,
            second,
            true,
            *final(response),
        );
    assert(can_be_subject(user));
    let also = lemma_access_is_issued(config, user, first);
    let (copy, token) = lemma_refresh_is_issued(config, user, second);
    lemma_fitting_in_order(first, second);
    encode_utf8_decode_utf8(cookie);
    encode_utf8_decode_utf8(second->0);
    assert(cookie == second->0);
    lemma_cookie_gives_one_value(
        cookie,
        config.refresh_cookie_name@,
        token@,
        refresh@,
        config.refresh_path@,
        whole_seconds(config.refresh_ttl),
        config.secure,
    );
    let trials = session_is_of_the_user_of_the_tokens(
        later,
        headers,
        opened,
        name,
        refresh_name,
        None,
        Some(refresh),
    );
    let now = lemma_good_at(
        config,
        user,
        copy,
        remade,
        TokenKind::Refresh,
        whole_seconds(config.refresh_ttl),
        token,
        TokenKind::Refresh,
        trials.1.at,
        trials.1.outcome,
    );
    assert(holds_until(
        config,
        whole_seconds(config.refresh_ttl),
        now,
        trials.1.at,
        remade,
        user_of(opened.0),
    ));
}

/// A request that carries a good refresh token, in which nobody logs in or out, is answered
/// with a new access cookie for the user of that token, whether or not sliding refresh is
/// on, and whatever access token came with it.
pub proof fn refresh_token_is_answered_with_an_access_cookie<S, Backend: AuthnBackend>(
    manager: &JwtManager<S, Backend>,
    user: &Backend::User,
    remade: Backend::User,
    token: String,
    headers: &HeaderMap<HeaderValue>,
    opened: (AuthSession<Backend>, Reissue),
    name: &str,
    refresh_name: &str,
    access: Option<String>,
    refresh: String,
    session: &mut AuthSession<Backend>,
    response: &mut HeaderMap<HeaderValue>,
) -> (times: (u64, u64)) where Backend::User: TokenUser
    requires
        is_sound_configuration(*manager.config),
        has_printable_cookies(*manager.config),
        manager.config.refresh_enabled,
        is_faithful(*user, remade),
        can_be_subject(remade),
        call_ensures(
            JwtConfig::encode_refresh::<Backend::User>,
            (&*manager.config, user),
            Ok::<String, JwtError>(token),
        ),
        call_ensures(JwtManager::<S, Backend>::open_session, (manager, headers), opened),
        are_tokens_of(*manager.config, headers, name, refresh_name, access, Some(refresh)),
        refresh@ == token@,
        *old(session) == opened.0,
        call_ensures(
            JwtManager::<S, Backend>::close_session,
            (manager, session, opened.1, response),
            true,
        ),
    ensures
        is_reading(times.0),
        is_reading(times.1),
        !is_over(
            manager.config.validation,
            after(times.0, whole_seconds(manager.config.refresh_ttl)),
            times.1,
        ) ==> {
            &&& values_of(*final(response), "set-cookie"@).len() > values_of(
                *old(response),
                "set-cookie"@,
            ).len()
            &&& is_access_cookie_for(
                *manager.config,
                remade,
                values_of(*final(response), "set-cookie"@)[values_of(
                    *old(response),
                    "set-cookie"@,
                ).len() as int],
            )
            &&& user_of(*final(session)) == Some(remade)
        },
{
    let config = *manager.config;
    let times = refresh_token_opens_a_session(
        manager,
        user,
        remade,
        token,
        headers,
        opened,
        name,
        refresh_name,
        access,
        refresh,
    );
    response_gains_what_is_to_be_done(manager, session, opened.1, response, true);
    let (first, second) = choose|first: Option<Seq<char>>, second: Option<Seq<char>>| #[trigger]
        is_answer(
            config,
            user_of(*old(session)),
            action_of(*old(session)),
            opened.1,
            *old(response),
            first,
            second,
            true,
            *final(response),
        );
    if !is_over(
        config.validation,
        after(times.0, whole_seconds(config.refresh_ttl)),
        times.1,
    ) {
        let set = lemma_access_is_issued(config, remade, first);
        if opened.1.refresh {
            let also = lemma_refresh_is_issued(config, remade, second);
        }
        lemma_fitting_in_order(first, second);
    }
    times
}

/// Where refresh tokens are not enabled, no request makes one due, and no response sets or
/// removes a refresh cookie: it gains one cookie at most.
pub proof fn refresh_cookies_are_left_alone_unless_enabled<S, Backend: AuthnBackend>(
    manager: &JwtManager<S, Backend>,
    headers: &HeaderMap<HeaderValue>,
    opened: (AuthSession<Backend>, Reissue),
    name: &str,
    refresh_name: &str,
    access: Option<String>,
    refresh: Option<String>,
    session: &mut AuthSession<Backend>,
    response: &mut HeaderMap<HeaderValue>,
    closed: bool,
) where Backend::User: TokenUser
    requires
        !manager.config.refresh_enabled,
        call_ensures(JwtManager::<S, Backend>::open_session, (manager, headers), opened),
        are_tokens_of(*manager.config, headers, name, refresh_name, access, refresh),
        call_ensures(
            JwtManager::<S, Backend>::close_session,
            (manager, session, opened.1, response),
            closed,
        ),
    ensures
        !opened.1.refresh,
        exists|cookie: Option<Seq<char>>| #[trigger]
            is_access_done(
                *manager.config,
                user_of(*old(session)),
                access_action(action_of(*old(session)), opened.1),
                cookie,
            ) && (closed ==> gains(
                *old(response),
                fitting(in_order(cookie, None)),
                *final(response),
            )),
{
    let config = *manager.config;
    let trials = session_is_of_the_user_of_the_tokens(
        manager,
        headers,
        opened,
        name,
        refresh_name,
        access,
        refresh,
    );
    response_gains_what_is_to_be_done(manager, session, opened.1, response, closed);
    let (first, second) = choose|first: Option<Seq<char>>, second: Option<Seq<char>>| #[trigger]
        is_answer(
            config,
            user_of(*old(session)),
            action_of(*old(session)),
            opened.1,
            *old(response),
            first,
            second,
            closed,
            *final(response),
        );
    assert(second is None);
}

} // verus!
