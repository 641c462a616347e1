//! The session of a request: who is logged in, and what logging in and out does.
//!
//! A session is backed either by a token or by a server-side store. The store is
//! reached by the caller: each operation says in its result what the caller has
//! to do next, and is resumed with what came of it.

use crate::backend::{AuthUser, AuthnBackend};
use crate::jwt::PendingCookie;
use subtle::ConstantTimeEq;
use tower_sessions::session::Error as StoreError;
use vstd::prelude::*;
use vstd::slice::slice_to_vec;
use vstd::std_specs::convert::FromSpecImpl;

verus! {

/// Why the session store did not do what it was asked for.
#[verifier::external_type_specification]
#[verifier::external_body]
pub struct ExSessionError(StoreError);

/// `ConstantTimeEq::ct_eq` on slices of bytes: whether they are equal.
#[verifier::external_body]
fn equal_in_constant_time(a: &[u8], b: &[u8]) -> (equal: bool)
    ensures
        equal == (a@ == b@),
{
    a.ct_eq(b).into()
}

/// The ID of the users of a backend.
pub type UserId<Backend> = <<Backend as AuthnBackend>::User as AuthUser>::Id;

/// Session and backend errors.
pub enum Error<Backend: AuthnBackend> {
    /// The session store failed.
    Session(StoreError),
    /// The backend failed.
    Backend(Backend::Error),
    /// A token could not be encoded or decoded.
    Jwt(jsonwebtoken::errors::Error),
}

impl<Backend: AuthnBackend> From<StoreError> for Error<Backend> {
    fn from(value: StoreError) -> (error: Self) {
        Error::Session(value)
    }
}

impl<Backend: AuthnBackend> FromSpecImpl<StoreError> for Error<Backend> {
    open spec fn obeys_from_spec() -> bool {
        true
    }

    open spec fn from_spec(value: StoreError) -> Self {
        Error::Session(value)
    }
}

/// What a server-side session stores of the login.
#[derive(Debug)]
pub struct Data<UserId> {
    pub user_id: Option<UserId>,
    pub auth_hash: Option<Vec<u8>>,
}

/// The data of a session in which nobody is logged in.
pub open spec fn is_blank<UserId>(data: Data<UserId>) -> bool {
    data.user_id is None && data.auth_hash is None
}

impl<UserId: Clone> Default for Data<UserId> {
    fn default() -> (data: Self)
        ensures
            is_blank(data),
    {
        Data { user_id: None, auth_hash: None }
    }
}

/// Whether one optional value is a clone of another.
pub open spec fn is_clone<T: Clone>(original: Option<T>, copy: Option<T>) -> bool {
    match (original, copy) {
        (Some(a), Some(b)) => cloned(a, b),
        (None, None) => true,
        _ => false,
    }
}

/// Whether two optional hashes are the same.
pub open spec fn is_same_hash(a: Option<Vec<u8>>, b: Option<Vec<u8>>) -> bool {
    match (a, b) {
        (Some(a), Some(b)) => a@ == b@,
        (None, None) => true,
        _ => false,
    }
}

impl<UserId: Clone> Clone for Data<UserId> {
    fn clone(&self) -> (copy: Self)
        ensures
            is_clone(self.user_id, copy.user_id),
            is_same_hash(self.auth_hash, copy.auth_hash),
    {
        Data {
            user_id: self.user_id.clone(),
            auth_hash: match &self.auth_hash {
                Some(hash) => Some(slice_to_vec(hash.as_slice())),
                None => None,
            },
        }
    }
}

impl<UserId> Data<UserId> {
    /// Whether the stored hash is the given one.
    pub open spec fn has_hash(self, hash: Seq<u8>) -> bool {
        self.auth_hash is Some && self.auth_hash->0@ == hash
    }

    /// Whether the stored hash is the given one. The time that this takes does
    /// not depend on what the hashes hold.
    pub fn is_verified(&self, session_auth_hash: &[u8]) -> (verified: bool)
        ensures
            verified == self.has_hash(session_auth_hash@),
    {
        match &self.auth_hash {
            Some(auth_hash) => equal_in_constant_time(auth_hash.as_slice(), session_auth_hash),
            None => false,
        }
    }
}

/// The source backing an [`AuthSession`].
pub enum Inner<Backend: AuthnBackend> {
    /// The login is stored on the server, under the key `data_key`.
    Session {
        user: Option<Backend::User>,
        data: Data<UserId<Backend>>,
        data_key: String,
    },
    /// The user was reconstructed from a token.
    Jwt { user: Option<Backend::User>, pending: Option<PendingCookie> },
}

/// A specialized session for identification and authentication of users
/// associated with a backend.
pub struct AuthSession<Backend: AuthnBackend> {
    pub backend: Backend,
    pub inner: Inner<Backend>,
}

/// What is left to do for a login.
pub enum LoginStep<Backend: AuthnBackend> {
    /// Give the stored session a new ID, so that one planted before the login is
    /// of no use after it.
    CycleId,
    /// Store the data under the key.
    Store { key: String, data: Data<UserId<Backend>> },
    /// Nothing.
    Done,
}

/// What is left to do for a logout, and the user who was logged in.
pub enum LogoutStep<Backend: AuthnBackend> {
    /// Remove the stored session.
    Flush(Option<Backend::User>),
    /// Nothing.
    Done(Option<Backend::User>),
}

/// What is left to do to restore a session from the store.
pub enum RestoreStep<Backend: AuthnBackend> {
    /// Ask the backend for the user with the ID in the data.
    Find { data: Data<UserId<Backend>> },
    /// Remove the stored session: its hash is not the user's any more.
    Flush,
    /// Nothing: this is the user who is logged in, and what is stored.
    Done { user: Option<Backend::User>, data: Data<UserId<Backend>> },
}

impl<Backend: AuthnBackend> Inner<Backend> {
    /// The user who is logged in.
    pub open spec fn current(self) -> Option<Backend::User> {
        match self {
            Inner::Session { user, .. } => user,
            Inner::Jwt { user, .. } => user,
        }
    }

    /// The cookie action that is recorded; there is none in a stored session.
    pub open spec fn pending(self) -> Option<PendingCookie> {
        match self {
            Inner::Session { .. } => None,
            Inner::Jwt { pending, .. } => pending,
        }
    }

    /// The user who is logged in.
    pub fn user(&self) -> (user: Option<Backend::User>)
        ensures
            is_clone(self.current(), user),
    {
        match self {
            Inner::Session { user, .. } => user.clone(),
            Inner::Jwt { user, .. } => user.clone(),
        }
    }
}

/// Whether `data` is what a login of `user` stores.
pub open spec fn is_data_of<User: AuthUser>(user: User, data: Data<User::Id>) -> bool {
    &&& data.user_id matches Some(id) && call_ensures(User::id, (&user,), id)
    &&& exists|hash: &[u8]| #[trigger]
        call_ensures(User::session_auth_hash, (&user,), hash) && data.has_hash(hash@)
}

/// What recording a login in a session does to it and what is then left to do: a
/// stored session gets the user's data, which is to be stored; there is nothing
/// to record in a session that is backed by a token.
pub open spec fn is_recorded<Backend: AuthnBackend>(
    user: Backend::User,
    before: Inner<Backend>,
    after: Inner<Backend>,
    step: LoginStep<Backend>,
) -> bool {
    match before {
        Inner::Session { user: current, data_key, .. } => {
            &&& after matches Inner::Session {
                user: then_current,
                data: then_data,
                data_key: then_key,
            } && then_current == current && then_key == data_key && is_data_of(user, then_data)
                && (step matches LoginStep::Store { key, data } && key == data_key && is_clone(
                then_data.user_id,
                data.user_id,
            ) && is_same_hash(then_data.auth_hash, data.auth_hash))
        },
        Inner::Jwt { .. } => after == before && step is Done,
    }
}

/// What starting a login does to a session and what is then left to do.
pub open spec fn is_login<Backend: AuthnBackend>(
    user: Backend::User,
    before: Inner<Backend>,
    after: Inner<Backend>,
    step: LoginStep<Backend>,
) -> bool {
    match before {
        Inner::Session { data, data_key, .. } => exists|copy: Backend::User| #[trigger]
            cloned(user, copy) && {
                let entered = Inner::Session { user: Some(copy), data, data_key };
                if data.auth_hash is None {
                    after == entered && step is CycleId
                } else {
                    is_recorded(user, entered, after, step)
                }
            },
        Inner::Jwt { .. } => exists|copy: Backend::User| #[trigger]
            cloned(user, copy) && after == (Inner::<Backend>::Jwt {
                user: Some(copy),
                pending: Some(PendingCookie::Issue),
            }) && step is Done,
    }
}

/// What starting a logout does to a session and what is then left to do.
pub open spec fn is_logout<Backend: AuthnBackend>(
    before: Inner<Backend>,
    after: Inner<Backend>,
    step: LogoutStep<Backend>,
) -> bool {
    match before {
        Inner::Session { user, data, data_key } => {
            &&& after == (Inner::<Backend>::Session { user: None, data, data_key })
            &&& step == LogoutStep::<Backend>::Flush(user)
        },
        Inner::Jwt { user, .. } => {
            &&& after == (Inner::<Backend>::Jwt {
                user: None,
                pending: Some(PendingCookie::Clear),
            })
            &&& step == LogoutStep::<Backend>::Done(user)
        },
    }
}

/// What restoring a session starts with, given what the store had.
pub open spec fn is_started<Backend: AuthnBackend>(
    stored: Result<Option<Data<UserId<Backend>>>, StoreError>,
    step: Result<RestoreStep<Backend>, Error<Backend>>,
) -> bool {
    match stored {
        Err(error) => step == Err::<RestoreStep<Backend>, Error<Backend>>(Error::Session(error)),
        Ok(None) => step matches Ok(RestoreStep::Done { user, data }) && user is None && is_blank(
            data,
        ),
        Ok(Some(data)) => step == Ok::<RestoreStep<Backend>, Error<Backend>>(
            if data.user_id is Some {
                RestoreStep::Find { data }
            } else {
                RestoreStep::Done { user: None, data }
            },
        ),
    }
}

/// What restoring a session goes on with, given what the backend found: the user
/// is logged in if the stored hash is theirs, and the stored session goes if it
/// is not.
pub open spec fn is_found<Backend: AuthnBackend>(
    data: Data<UserId<Backend>>,
    found: Result<Option<Backend::User>, Backend::Error>,
    step: Result<RestoreStep<Backend>, Error<Backend>>,
) -> bool {
    match found {
        Err(error) => step == Err::<RestoreStep<Backend>, Error<Backend>>(Error::Backend(error)),
        Ok(None) => step == Ok::<RestoreStep<Backend>, Error<Backend>>(
            RestoreStep::Done { user: None, data },
        ),
        Ok(Some(user)) => exists|hash: &[u8]| #[trigger]
            call_ensures(Backend::User::session_auth_hash, (&user,), hash) && step == Ok::<
                RestoreStep<Backend>,
                Error<Backend>,
            >(
                if data.has_hash(hash@) {
                    RestoreStep::Done { user: Some(user), data }
                } else {
                    RestoreStep::Flush
                },
            ),
    }
}

impl<Backend: AuthnBackend> AuthSession<Backend> {
    /// The session without a recorded cookie action.
    pub open spec fn without_pending(self) -> Self {
        AuthSession {
            backend: self.backend,
            inner: match self.inner {
                Inner::Session { .. } => self.inner,
                Inner::Jwt { user, .. } => Inner::Jwt { user, pending: None },
            },
        }
    }

    /// Returns the backend associated with this session.
    pub fn backend(&self) -> (backend: &Backend)
        ensures
            *backend == self.backend,
    {
        &self.backend
    }

    /// Returns the user that's authenticated to this session, otherwise `None`.
    pub fn user(&self) -> (user: Option<Backend::User>)
        ensures
            is_clone(self.inner.current(), user),
    {
        self.inner.user()
    }

    /// The result of verifying credentials via the backend: the authenticated
    /// user if they are valid, otherwise `None`, or the backend's error.
    pub fn authenticate(&self, found: Result<Option<Backend::User>, Backend::Error>) -> (result:
        Result<Option<Backend::User>, Error<Backend>>)
        ensures
            match found {
                Ok(user) => result == Ok::<Option<Backend::User>, Error<Backend>>(user),
                Err(error) => result == Err::<Option<Backend::User>, Error<Backend>>(
                    Error::Backend(error),
                ),
            },
    {
        match found {
            Ok(user) => Ok(user),
            Err(error) => Err(Error::Backend(error)),
        }
    }

    /// Records the login in a stored session.
    fn record_login(&mut self, user: &Backend::User) -> (step: LoginStep<Backend>)
        ensures
            final(self).backend == old(self).backend,
            is_recorded(*user, old(self).inner, final(self).inner, step),
    {
        match &mut self.inner {
            Inner::Session { data, data_key, .. } => {
                data.user_id = Some(user.id());
                data.auth_hash = Some(slice_to_vec(user.session_auth_hash()));
                LoginStep::Store { key: data_key.clone(), data: data.clone() }
            },
            Inner::Jwt { .. } => LoginStep::Done,
        }
    }

    /// Starts to update the session such that the user is logged in.
    ///
    /// In a session that is backed by a token this marks a token to be issued,
    /// and is all.
    pub fn login(&mut self, user: &Backend::User) -> (step: LoginStep<Backend>)
        ensures
            final(self).backend == old(self).backend,
            is_login(*user, old(self).inner, final(self).inner, step),
    {
        let copy = user.clone();
        assert(cloned(*user, copy));
        match &mut self.inner {
            Inner::Session { user: current, data, .. } => {
                *current = Some(copy);
                if data.auth_hash.is_none() {
                    return LoginStep::CycleId;
                }
            },
            Inner::Jwt { user: current, pending } => {
                *current = Some(copy);
                *pending = Some(PendingCookie::Issue);
                return LoginStep::Done;
            },
        }
        self.record_login(user)
    }

    /// Goes on with a login after a step of it was taken, with the given outcome.
    /// A step that failed ends the login with the store's error.
    pub fn resume_login(
        &mut self,
        user: &Backend::User,
        step: LoginStep<Backend>,
        outcome: Result<(), StoreError>,
    ) -> (next: Result<LoginStep<Backend>, Error<Backend>>)
        ensures
            final(self).backend == old(self).backend,
            match outcome {
                Err(error) => {
                    &&& final(self).inner == old(self).inner
                    &&& next == Err::<LoginStep<Backend>, Error<Backend>>(Error::Session(error))
                },
                Ok(_) => match step {
                    LoginStep::CycleId => {
                        &&& next is Ok
                        &&& is_recorded(*user, old(self).inner, final(self).inner, next->Ok_0)
                    },
                    _ => {
                        &&& final(self).inner == old(self).inner
                        &&& next matches Ok(LoginStep::Done)
                    },
                },
            },
    {
        match outcome {
            Err(error) => Err(Error::from(error)),
            Ok(_) => match step {
                LoginStep::CycleId => Ok(self.record_login(user)),
                _ => Ok(LoginStep::Done),
            },
        }
    }

    /// Starts to update the session such that the user is logged out.
    ///
    /// In a session that is backed by a token this marks the token cookie for
    /// removal, and is all.
    pub fn logout(&mut self) -> (step: LogoutStep<Backend>)
        ensures
            final(self).backend == old(self).backend,
            is_logout(old(self).inner, final(self).inner, step),
    {
        match &mut self.inner {
            Inner::Session { user, .. } => LogoutStep::Flush(user.take()),
            Inner::Jwt { user, pending } => {
                *pending = Some(PendingCookie::Clear);
                LogoutStep::Done(user.take())
            },
        }
    }

    /// Ends a logout after the stored session was removed, with the given
    /// outcome: returns the user who was logged out, or the store's error.
    pub fn finish_logout(user: Option<Backend::User>, outcome: Result<(), StoreError>) -> (result:
        Result<Option<Backend::User>, Error<Backend>>)
        ensures
            match outcome {
                Ok(_) => result == Ok::<Option<Backend::User>, Error<Backend>>(user),
                Err(error) => result == Err::<Option<Backend::User>, Error<Backend>>(
                    Error::Session(error),
                ),
            },
    {
        match outcome {
            Ok(_) => Ok(user),
            Err(error) => Err(Error::from(error)),
        }
    }

    /// Builds a session from a user already decoded from a token, with no backend
    /// lookup.
    pub fn from_jwt(backend: Backend, user: Option<Backend::User>) -> (session: Self)
        ensures
            session == (AuthSession {
                backend,
                inner: Inner::<Backend>::Jwt { user, pending: None },
            }),
    {
        AuthSession { backend, inner: Inner::Jwt { user, pending: None } }
    }

    /// Takes any pending cookie action recorded by [`login`](Self::login) or
    /// [`logout`](Self::logout), clearing it.
    pub fn take_pending_cookie(&mut self) -> (pending: Option<PendingCookie>)
        ensures
            pending == old(self).inner.pending(),
            *final(self) == old(self).without_pending(),
    {
        match &mut self.inner {
            Inner::Jwt { pending, .. } => pending.take(),
            Inner::Session { .. } => None,
        }
    }

    /// Starts to restore a session with what the store had under its key.
    pub fn start_restore(
        stored: Result<Option<Data<UserId<Backend>>>, StoreError>,
    ) -> (step: Result<RestoreStep<Backend>, Error<Backend>>)
        ensures
            is_started(stored, step),
    {
        match stored {
            Err(error) => Err(Error::from(error)),
            Ok(None) => Ok(RestoreStep::Done { user: None, data: Data::default() }),
            Ok(Some(data)) => if data.user_id.is_some() {
                Ok(RestoreStep::Find { data })
            } else {
                Ok(RestoreStep::Done { user: None, data })
            },
        }
    }

    /// Goes on to restore a session with what the backend found for the stored
    /// user ID: the user is logged in if the stored hash is theirs.
    pub fn restore_found(
        data: Data<UserId<Backend>>,
        found: Result<Option<Backend::User>, Backend::Error>,
    ) -> (step: Result<RestoreStep<Backend>, Error<Backend>>)
        ensures
            is_found(data, found, step),
    {
        match found {
            Err(error) => Err(Error::Backend(error)),
            Ok(None) => Ok(RestoreStep::Done { user: None, data }),
            Ok(Some(user)) => {
                let verified = data.is_verified(user.session_auth_hash());
                if verified {
                    Ok(RestoreStep::Done { user: Some(user), data })
                } else {
                    Ok(RestoreStep::Flush)
                }
            },
        }
    }

    /// Goes on to restore a session after the stored one was removed, with the
    /// given outcome: nobody is logged in.
    pub fn restore_flushed(outcome: Result<(), StoreError>) -> (step: Result<
        RestoreStep<Backend>,
        Error<Backend>,
    >)
        ensures
            match outcome {
                Ok(_) => step matches Ok(RestoreStep::Done { user, data }) && user is None
                    && is_blank(data),
                Err(error) => step == Err::<RestoreStep<Backend>, Error<Backend>>(
                    Error::Session(error),
                ),
            },
    {
        match outcome {
            Ok(_) => Ok(RestoreStep::Done { user: None, data: Data::default() }),
            Err(error) => Err(Error::from(error)),
        }
    }

    /// Builds a session from what was restored.
    pub fn from_session(
        backend: Backend,
        data_key: String,
        user: Option<Backend::User>,
        data: Data<UserId<Backend>>,
    ) -> (session: Self)
        ensures
            session == (AuthSession {
                backend,
                inner: Inner::<Backend>::Session { user, data, data_key },
            }),
    {
        AuthSession { backend, inner: Inner::Session { user, data, data_key } }
    }
}

} // verus!
