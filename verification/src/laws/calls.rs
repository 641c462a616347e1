//! Laws on the session of a request: what each call makes of it, whatever came before.

use crate::backend::{AuthUser, AuthnBackend};
use crate::jwt::PendingCookie;
use crate::session::{
    is_clone, is_data_of, AuthSession, Data, Error, Inner, LoginStep, LogoutStep, RestoreStep,
    UserId,
};
use tower_sessions::session::Error as StoreError;
use vstd::prelude::*;

verus! {

/// Whether stored data are those of a user: the user's ID and authentication hash.
pub open spec fn belongs_to<User: AuthUser>(data: Data<User::Id>, user: User) -> bool {
    &&& data.user_id matches Some(id) && call_ensures(User::id, (&user,), id)
    &&& data.auth_hash matches Some(kept) && exists|hash: &[u8]| #[trigger]
        call_ensures(User::session_auth_hash, (&user,), hash) && kept@ == hash@
}

/// Whether stored data are a copy of others.
pub open spec fn is_copy<Id: Clone>(data: Data<Id>, copy: Data<Id>) -> bool {
    &&& data.user_id is Some <==> copy.user_id is Some
    &&& data.user_id is Some ==> cloned(data.user_id->0, copy.user_id->0)
    &&& data.auth_hash is Some <==> copy.auth_hash is Some
    &&& data.auth_hash is Some ==> data.auth_hash->0@ == copy.auth_hash->0@
}

/// Every login to a session that is backed by a token ends with that user, and with a
/// token to be issued, whoever was logged in and whatever was to be done before.
pub proof fn login_always_issues<Backend: AuthnBackend>(
    session: &mut AuthSession<Backend>,
    user: &Backend::User,
    step: LoginStep<Backend>,
)
    requires
        call_ensures(AuthSession::<Backend>::login, (session, user), step),
        old(session).inner is Jwt,
    ensures
        final(session).inner matches Inner::Jwt { user: Some(now), pending: Some(action) } && cloned(
            *user,
            now,
        ) && action is Issue,
        step is Done,
        final(session).backend == old(session).backend,
{
}

/// A login to a session that is backed by the store makes that user the current one. The
/// ID of the session changes first if nobody's hash is stored, and else the user's data
/// are stored right away.
pub proof fn login_cycles_or_stores<Backend: AuthnBackend>(
    session: &mut AuthSession<Backend>,
    user: &Backend::User,
    step: LoginStep<Backend>,
)
    requires
        call_ensures(AuthSession::<Backend>::login, (session, user), step),
        old(session).inner is Session,
    ensures
        final(session).backend == old(session).backend,
        final(session).inner is Session,
        final(session).inner->Session_user matches Some(now) && cloned(*user, now),
        final(session).inner->data_key == old(session).inner->data_key,
        step is CycleId <==> old(session).inner->data.auth_hash is None,
        step is CycleId ==> final(session).inner->data == old(session).inner->data,
        !(step is CycleId) ==> belongs_to(final(session).inner->data, *user) && (
        step matches LoginStep::Store { key, data } && key == old(session).inner->data_key
            && is_copy(final(session).inner->data, data)),
{
    lemma_data_belong(final(session).inner, *user);
}

proof fn lemma_data_belong<Backend: AuthnBackend>(inner: Inner<Backend>, user: Backend::User)
    ensures
        inner matches Inner::Session { data, .. } && is_data_of(user, data) ==> belongs_to(
            inner->data,
            user,
        ),
{
    if inner is Session && is_data_of(user, inner->data) {
        let hash = choose|hash: &[u8]| #[trigger]
            call_ensures(Backend::User::session_auth_hash, (&user,), hash)
                && inner->data.has_hash(hash@);
        assert(inner->data.auth_hash->0@ == hash@);
    }
}

/// Once the ID of a session that is backed by the store was changed, the user's data are
/// stored; once they are, the login is done. Where the store fails, its error comes back
/// and the session stays as it is.
pub proof fn login_goes_on_with_the_store<Backend: AuthnBackend>(
    session: &mut AuthSession<Backend>,
    user: &Backend::User,
    step: LoginStep<Backend>,
    outcome: Result<(), StoreError>,
    next: Result<LoginStep<Backend>, Error<Backend>>,
)
    requires
        call_ensures(
            AuthSession::<Backend>::resume_login,
            (session, user, step, outcome),
            next,
        ),
    ensures
        final(session).backend == old(session).backend,
        outcome matches Err(error) ==> next matches Err(Error::Session(cause)) && cause == error
            && final(session).inner == old(session).inner,
        outcome is Ok && !(step is CycleId) ==> final(session).inner
            == old(session).inner && next matches Ok(LoginStep::Done),
        outcome is Ok && step is CycleId && old(session).inner is Session ==> {
            &&& final(session).inner is Session
            &&& final(session).inner->Session_user == old(session).inner->Session_user
            &&& final(session).inner->data_key == old(session).inner->data_key
            &&& belongs_to(final(session).inner->data, *user)
            &&& next matches Ok(LoginStep::Store { key, data }) && key
                == old(session).inner->data_key && is_copy(final(session).inner->data, data)
        },
        outcome is Ok && step is CycleId && old(session).inner is Jwt ==> final(session).inner
            == old(session).inner && next matches Ok(LoginStep::Done),
{
    lemma_data_belong(final(session).inner, *user);
}

/// A logout leaves nobody logged in and hands out who was. Of a session that is backed by
/// the store it leaves the stored session to be removed, whatever is stored; of one that
/// is backed by a token, the cookies.
pub proof fn logout_leaves_the_removal_to_do<Backend: AuthnBackend>(
    session: &mut AuthSession<Backend>,
    step: LogoutStep<Backend>,
)
    requires
        call_ensures(AuthSession::<Backend>::logout, (session,), step),
    ensures
        final(session).backend == old(session).backend,
        match old(session).inner {
            Inner::Session { user, data, data_key } => {
                &&& step matches LogoutStep::Flush(last) && last == user
                &&& final(session).inner matches Inner::Session {
                    user: None,
                    data: kept,
                    data_key: key,
                } && kept == data && key == data_key
            },
            Inner::Jwt { user, .. } => {
                &&& step matches LogoutStep::Done(last) && last == user
                &&& final(session).inner matches Inner::Jwt { user: None, pending: Some(action) }
                    && action is Clear
            },
        },
{
}

/// A logout is over once the stored session was removed, and gives who was logged in;
/// where the store fails, its error comes back.
pub proof fn logout_gives_who_was_logged_in<Backend: AuthnBackend>(
    user: Option<Backend::User>,
    outcome: Result<(), StoreError>,
    result: Result<Option<Backend::User>, Error<Backend>>,
)
    requires
        call_ensures(AuthSession::<Backend>::finish_logout, (user, outcome), result),
    ensures
        outcome is Ok ==> (result matches Ok(last) && last == user),
        outcome matches Err(error) ==> result matches Err(Error::Session(cause)) && cause == error,
{
}

/// A second logout in a row gives nobody, but leaves the same to do as the first one.
pub proof fn second_logout_gives_nobody<Backend: AuthnBackend>(
    session: &mut AuthSession<Backend>,
    first: LogoutStep<Backend>,
    again: &mut AuthSession<Backend>,
    second: LogoutStep<Backend>,
)
    requires
        call_ensures(AuthSession::<Backend>::logout, (session,), first),
        *old(again) == *final(session),
        call_ensures(AuthSession::<Backend>::logout, (again,), second),
    ensures
        *final(again) == *old(again),
        first is Flush ==> second matches LogoutStep::Flush(None),
        first is Done ==> second matches LogoutStep::Done(None),
{
}

/// Whatever was to be done before, after a login and a logout the cookies are removed, and
/// after a logout and a login a token is issued.
pub proof fn later_call_counts<Backend: AuthnBackend>(
    session: &mut AuthSession<Backend>,
    user: &Backend::User,
    step: LoginStep<Backend>,
    then: &mut AuthSession<Backend>,
    last: LogoutStep<Backend>,
)
    requires
        old(session).inner is Jwt,
        call_ensures(AuthSession::<Backend>::login, (session, user), step),
        call_ensures(AuthSession::<Backend>::logout, (then,), last),
        *old(then) == *final(session) || *old(session) == *final(then),
    ensures
        *old(then) == *final(session) ==> final(then).inner matches Inner::Jwt {
            user: None,
            pending: Some(PendingCookie::Clear),
        },
        *old(then) == *final(session) ==> (last matches LogoutStep::Done(Some(out)) && cloned(
            *user,
            out,
        )),
        *old(session) == *final(then) ==> (final(session).inner matches Inner::Jwt {
            user: Some(now),
            pending: Some(PendingCookie::Issue),
        } && cloned(*user, now)),
{
}

/// What is to be done with the cookies is handed out once, and taking it changes nothing
/// else. In a session that is backed by the store there is nothing to be done.
pub proof fn pending_action_is_handed_out<Backend: AuthnBackend>(
    session: &mut AuthSession<Backend>,
    pending: Option<PendingCookie>,
)
    requires
        call_ensures(AuthSession::<Backend>::take_pending_cookie, (session,), pending),
    ensures
        match old(session).inner {
            Inner::Session { .. } => pending is None && *final(session) == *old(session),
            Inner::Jwt { user, pending: action } => {
                &&& pending == action
                &&& final(session).backend == old(session).backend
                &&& final(session).inner matches Inner::Jwt { user: kept, pending: None } && kept
                    == user
            },
        },
{
}

/// A session has the backend and the user that it is made for, and a new one has nothing
/// to be done.
pub proof fn session_starts_as_given<Backend: AuthnBackend>(
    backend: Backend,
    user: Option<Backend::User>,
    data_key: String,
    data: Data<UserId<Backend>>,
    session: AuthSession<Backend>,
)
    ensures
        call_ensures(AuthSession::<Backend>::from_jwt, (backend, user), session) ==> {
            &&& session.backend == backend
            &&& session.inner matches Inner::Jwt { user: current, pending: None } && current
                == user
        },
        call_ensures(
            AuthSession::<Backend>::from_session,
            (backend, data_key, user, data),
            session,
        ) ==> {
            &&& session.backend == backend
            &&& session.inner matches Inner::Session { user: current, data: kept, data_key: key }
                && current == user && kept == data && key == data_key
        },
{
}

/// A session tells its backend and a clone of its user, of either backing.
pub proof fn session_tells_its_user<Backend: AuthnBackend>(
    session: &AuthSession<Backend>,
    backend: &Backend,
    user: Option<Backend::User>,
)
    ensures
        call_ensures(AuthSession::<Backend>::backend, (session,), backend) ==> *backend
            == session.backend,
        call_ensures(AuthSession::<Backend>::user, (session,), user) || call_ensures(
            Inner::<Backend>::user,
            (&session.inner,),
            user,
        ) ==> match session.inner {
            Inner::Session { user: current, .. } => (current is Some <==> user is Some) && (
            current is Some ==> cloned(current->0, user->0)),
            Inner::Jwt { user: current, .. } => (current is Some <==> user is Some) && (
            current is Some ==> cloned(current->0, user->0)),
        },
{
}

/// Whom the backend finds by credentials is whom authentication gives, and its error is
/// the backend's.
pub proof fn authentication_is_the_backend_s<Backend: AuthnBackend>(
    session: &AuthSession<Backend>,
    found: Result<Option<Backend::User>, Backend::Error>,
    result: Result<Option<Backend::User>, Error<Backend>>,
)
    requires
        call_ensures(AuthSession::<Backend>::authenticate, (session, found), result),
    ensures
        found matches Ok(user) ==> result matches Ok(same) && same == user,
        found matches Err(error) ==> result matches Err(Error::Backend(cause)) && cause == error,
{
}

/// A stored session is restored as far as the data tell: without data, or without an ID
/// in them, it has nobody, and else its user has to be found.
pub proof fn restoring_starts_with_the_data<Backend: AuthnBackend>(
    stored: Result<Option<Data<UserId<Backend>>>, StoreError>,
    step: Result<RestoreStep<Backend>, Error<Backend>>,
)
    requires
        call_ensures(AuthSession::<Backend>::start_restore, (stored,), step),
    ensures
        stored matches Err(error) ==> step matches Err(Error::Session(cause)) && cause == error,
        stored matches Ok(None) ==> step matches Ok(RestoreStep::Done { user: None, data })
            && data.user_id is None && data.auth_hash is None,
        stored matches Ok(Some(data)) ==> data.user_id is None ==> (step matches Ok(
            RestoreStep::Done { user: None, data: kept },
        ) && kept == data),
        stored matches Ok(Some(data)) ==> data.user_id is Some ==> (step matches Ok(
            RestoreStep::Find { data: kept },
        ) && kept == data),
{
}

/// The user who was found is restored exactly if the stored hash is that user's; with
/// another hash, or none, the stored session is removed. Where nobody was found, there is
/// nobody.
pub proof fn found_user_is_restored_by_the_hash<Backend: AuthnBackend>(
    data: Data<UserId<Backend>>,
    found: Result<Option<Backend::User>, Backend::Error>,
    step: Result<RestoreStep<Backend>, Error<Backend>>,
) -> (hash: Seq<u8>)
    requires
        call_ensures(AuthSession::<Backend>::restore_found, (data, found), step),
    ensures
        found matches Err(error) ==> step matches Err(Error::Backend(cause)) && cause == error,
        found matches Ok(None) ==> step matches Ok(RestoreStep::Done { user: None, data: kept })
            && kept == data,
        found matches Ok(Some(user)) ==> {
            &&& exists|own: &[u8]| #[trigger]
                call_ensures(Backend::User::session_auth_hash, (&user,), own) && own@ == hash
            &&& if data.auth_hash is Some && data.auth_hash->0@ == hash {
                step matches Ok(RestoreStep::Done { user: Some(same), data: kept }) && same == user
                    && kept == data
            } else {
                step matches Ok(RestoreStep::Flush)
            }
        },
{
    match found {
        Ok(Some(user)) => {
            let own = choose|hash: &[u8]| #[trigger]
                call_ensures(Backend::User::session_auth_hash, (&user,), hash) && step == Ok::<
                    RestoreStep<Backend>,
                    Error<Backend>,
                >(
                    if data.has_hash(hash@) {
                        RestoreStep::Done { user: Some(user), data }
                    } else {
                        RestoreStep::Flush
                    },
                );
            own@
        },
        _ => Seq::empty(),
    }
}

/// Once the stored session was removed there is nobody and nothing stored; where the store
/// fails, its error comes back.
pub proof fn removed_session_has_nobody<Backend: AuthnBackend>(
    outcome: Result<(), StoreError>,
    step: Result<RestoreStep<Backend>, Error<Backend>>,
)
    requires
        call_ensures(AuthSession::<Backend>::restore_flushed, (outcome,), step),
    ensures
        outcome is Ok ==> (step matches Ok(RestoreStep::Done { user: None, data })
            && data.user_id is None && data.auth_hash is None),
        outcome matches Err(error) ==> step matches Err(Error::Session(cause)) && cause == error,
{
}

/// Data are verified by their whole hash: without one they never are, and with one by that
/// hash alone.
pub proof fn data_are_verified_by_their_hash<Id>(data: &Data<Id>, hash: &[u8], verified: bool)
    requires
        call_ensures(Data::<Id>::is_verified, (data, hash), verified),
    ensures
        data.auth_hash is None ==> !verified,
        data.auth_hash matches Some(kept) ==> (verified <==> kept@.len() == hash@.len() && forall|
            i: int,
        |
            0 <= i < hash@.len() ==> #[trigger] kept@[i] == hash@[i]),
{
    if let Some(kept) = data.auth_hash {
        if kept@.len() == hash@.len() && forall|i: int|
            0 <= i < hash@.len() ==> #[trigger] kept@[i] == hash@[i] {
            assert(kept@ =~= hash@);
        }
    }
}

/// New data are empty, and a copy of data has the same hash and a clone of the ID.
pub proof fn data_are_copied<Id: Clone>(data: Data<Id>, copy: Data<Id>)
    ensures
        call_ensures(<Data<Id> as Default>::default, (), data) ==> data.user_id is None
            && data.auth_hash is None,
        call_ensures(<Data<Id> as Clone>::clone, (&data,), copy) ==> is_copy(data, copy),
{
}

/// A login is found again: the data that it stored are found to have an ID, and restore
/// the user whose hash they hold. Who has the hash at that time is up to the backend.
pub proof fn stored_login_restores_its_user<Backend: AuthnBackend>(
    session: &mut AuthSession<Backend>,
    user: &Backend::User,
    key: String,
    data: Data<UserId<Backend>>,
    start: Result<RestoreStep<Backend>, Error<Backend>>,
    found: Backend::User,
    step: Result<RestoreStep<Backend>, Error<Backend>>,
)
    requires
        call_ensures(
            AuthSession::<Backend>::login,
            (session, user),
            LoginStep::<Backend>::Store { key, data },
        ),
        call_ensures(
            AuthSession::<Backend>::start_restore,
            (Ok::<Option<Data<UserId<Backend>>>, StoreError>(Some(data)),),
            start,
        ),
        call_ensures(
            AuthSession::<Backend>::restore_found,
            (data, Ok::<Option<Backend::User>, Backend::Error>(Some(found))),
            step,
        ),
        forall|a: &[u8], b: &[u8]| #[trigger]
            call_ensures(Backend::User::session_auth_hash, (user,), a) && #[trigger] call_ensures(
                Backend::User::session_auth_hash,
                (&found,),
                b,
            ) ==> a@ == b@,
    ensures
        start matches Ok(RestoreStep::Find { data: kept }) && kept == data,
        step matches Ok(RestoreStep::Done { user: Some(back), data: kept }) && back == found
            && kept == data,
{
    let kept = final(session).inner->data;
    let hash = found_user_is_restored_by_the_hash(
        data,
        Ok::<Option<Backend::User>, Backend::Error>(Some(found)),
        step,
    );
    assert(old(session).inner is Session);
    assert(belongs_to(kept, *user)) by {
        lemma_data_belong(final(session).inner, *user);
    }
    let own = choose|own: &[u8]| #[trigger]
        call_ensures(Backend::User::session_auth_hash, (&found,), own) && own@ == hash;
    let mine = choose|hash: &[u8]| #[trigger]
        call_ensures(Backend::User::session_auth_hash, (user,), hash) && kept.auth_hash->0@
            == hash@;
    assert(mine@ == own@);
}

} // verus!
