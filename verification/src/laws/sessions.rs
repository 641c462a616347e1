//! Laws on sessions: what logging in, logging out and restoring do to each other.

use crate::backend::{AuthUser, AuthnBackend};
use crate::jwt::PendingCookie;
use crate::session::{
    is_blank, is_clone, is_found, is_login, is_logout, is_recorded, is_started, AuthSession,
    Data, Error, Inner, LoginStep, LogoutStep, RestoreStep, UserId,
};
use tower_sessions::session::Error as StoreError;
use vstd::prelude::*;

verus! {

/// After a login, a clone of the user is the current user, whoever was before.
pub proof fn login_sets_the_user<Backend: AuthnBackend>(
    user: Backend::User,
    before: Inner<Backend>,
    after: Inner<Backend>,
    step: LoginStep<Backend>,
)
    requires
        is_login(user, before, after, step),
    ensures
        is_clone(Some(user), after.current()),
{
}

/// Recording a login in a stored session leaves the current user as they are.
pub proof fn recording_keeps_the_user<Backend: AuthnBackend>(
    user: Backend::User,
    before: Inner<Backend>,
    after: Inner<Backend>,
    step: LoginStep<Backend>,
)
    requires
        is_recorded(user, before, after, step),
    ensures
        after.current() == before.current(),
{
}

/// After a logout nobody is the current user, and the one who was is handed out.
pub proof fn logout_removes_the_user<Backend: AuthnBackend>(
    before: Inner<Backend>,
    after: Inner<Backend>,
    step: LogoutStep<Backend>,
)
    requires
        is_logout(before, after, step),
    ensures
        after.current() is None,
        step == LogoutStep::<Backend>::Flush(before.current()) || step == LogoutStep::<
            Backend,
        >::Done(before.current()),
{
}

/// In a session that is backed by a token, the last of a login and a logout is
/// what the response goes by.
pub proof fn last_action_counts<Backend: AuthnBackend>(
    user: Backend::User,
    before: Inner<Backend>,
    between: Inner<Backend>,
    after: Inner<Backend>,
    login: LoginStep<Backend>,
    logout: LogoutStep<Backend>,
)
    requires
        before is Jwt,
    ensures
        is_login(user, before, between, login) && is_logout(between, after, logout)
            ==> after.pending() == Some(PendingCookie::Clear) && after.current() is None,
        is_logout(before, between, logout) && is_login(user, between, after, login)
            ==> after.pending() == Some(PendingCookie::Issue) && is_clone(
            Some(user),
            after.current(),
        ),
{
}

/// A recorded cookie action can be taken once, and taking it changes neither the
/// current user nor the backend.
pub proof fn pending_action_is_taken_once<Backend: AuthnBackend>(session: AuthSession<Backend>)
    ensures
        session.without_pending().inner.pending() is None,
        session.without_pending().inner.current() == session.inner.current(),
        session.without_pending().backend == session.backend,
        session.without_pending().without_pending() == session.without_pending(),
{
}

/// The first login in a stored session gives it a new ID before anything of the
/// login is stored.
pub proof fn first_login_changes_the_id<Backend: AuthnBackend>(
    user: Backend::User,
    current: Option<Backend::User>,
    data: Data<UserId<Backend>>,
    data_key: String,
    after: Inner<Backend>,
    step: LoginStep<Backend>,
)
    requires
        data.auth_hash is None,
        is_login(user, Inner::Session { user: current, data, data_key }, after, step),
    ensures
        step is CycleId,
        after matches Inner::Session { data: then_data, data_key: then_key, .. } && then_data
            == data && then_key == data_key,
{
}

/// A login in a stored session, however many steps it takes, ends with the user's ID
/// and hash being stored under the session's key, and the user being the current
/// one.
pub proof fn login_stores_the_user<Backend: AuthnBackend>(
    user: Backend::User,
    current: Option<Backend::User>,
    data: Data<UserId<Backend>>,
    data_key: String,
    between: Inner<Backend>,
    first: LoginStep<Backend>,
    after: Inner<Backend>,
    last: LoginStep<Backend>,
)
    requires
        is_login(user, Inner::Session { user: current, data, data_key }, between, first),
        first is CycleId ==> is_recorded(user, between, after, last),
        !(first is CycleId) ==> after == between && last == first,
    ensures
        is_clone(Some(user), after.current()),
        last matches LoginStep::Store { key, data: stored } && key == data_key && (exists|
            id: UserId<Backend>,
        | #[trigger]
            call_ensures(Backend::User::id, (&user,), id) && is_clone(Some(id), stored.user_id))
            && (exists|hash: &[u8]| #[trigger]
            call_ensures(Backend::User::session_auth_hash, (&user,), hash) && stored.has_hash(
                hash@,
            )),
{
}

/// What a login stores is what a later login in that session does not have to
/// change the ID for.
pub proof fn later_login_keeps_the_id<Backend: AuthnBackend>(
    user: Backend::User,
    before: Inner<Backend>,
    between: Inner<Backend>,
    stored: LoginStep<Backend>,
    other: Backend::User,
    after: Inner<Backend>,
    step: LoginStep<Backend>,
)
    requires
        before is Session,
        is_recorded(user, before, between, stored),
        is_login(other, between, after, step),
    ensures
        step is Store,
{
}

/// What a login stores restores the session of the user that the backend then
/// finds, if their hash is the one that the login saw; if it is another one, the
/// stored session is removed.
pub proof fn stored_login_is_restored<Backend: AuthnBackend>(
    user: Backend::User,
    before: Inner<Backend>,
    after: Inner<Backend>,
    key: String,
    stored: Data<UserId<Backend>>,
    hash: Seq<u8>,
    found: Backend::User,
    found_hash: Seq<u8>,
    start: Result<RestoreStep<Backend>, Error<Backend>>,
    step: Result<RestoreStep<Backend>, Error<Backend>>,
)
    requires
        is_recorded(user, before, after, LoginStep::Store { key, data: stored }),
        forall|h: &[u8]| #[trigger]
            call_ensures(Backend::User::session_auth_hash, (&user,), h) ==> h@ == hash,
        forall|h: &[u8]| #[trigger]
            call_ensures(Backend::User::session_auth_hash, (&found,), h) ==> h@ == found_hash,
        is_started(Ok::<Option<Data<UserId<Backend>>>, StoreError>(Some(stored)), start),
        is_found(stored, Ok::<Option<Backend::User>, Backend::Error>(Some(found)), step),
    ensures
        start == Ok::<RestoreStep<Backend>, Error<Backend>>(RestoreStep::Find { data: stored }),
        found_hash == hash ==> step == Ok::<RestoreStep<Backend>, Error<Backend>>(
            RestoreStep::Done { user: Some(found), data: stored },
        ),
        found_hash != hash ==> step == Ok::<RestoreStep<Backend>, Error<Backend>>(
            RestoreStep::Flush,
        ),
{
}

/// Nobody is restored but a user that the backend found, whose hash is the stored
/// one.
pub proof fn only_verified_users_are_restored<Backend: AuthnBackend>(
    data: Data<UserId<Backend>>,
    found: Result<Option<Backend::User>, Backend::Error>,
    user: Backend::User,
    then_data: Data<UserId<Backend>>,
)
    requires
        is_found(
            data,
            found,
            Ok::<RestoreStep<Backend>, Error<Backend>>(
                RestoreStep::Done { user: Some(user), data: then_data },
            ),
        ),
    ensures
        found == Ok::<Option<Backend::User>, Backend::Error>(Some(user)),
        then_data == data,
        exists|hash: &[u8]| #[trigger]
            call_ensures(Backend::User::session_auth_hash, (&user,), hash) && data.has_hash(hash@),
{
}

/// A session of which nothing is stored is restored with nobody logged in.
pub proof fn unknown_session_has_no_user<Backend: AuthnBackend>(
    step: Result<RestoreStep<Backend>, Error<Backend>>,
)
    requires
        is_started(Ok::<Option<Data<UserId<Backend>>>, StoreError>(None), step),
    ensures
        step matches Ok(RestoreStep::Done { user, data }) && user is None && is_blank(data),
{
}

} // verus!
