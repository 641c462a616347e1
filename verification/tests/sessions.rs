//! Logging in, logging out and restoring stored sessions.

use axum_login::jwt::PendingCookie;
use axum_login::session::{Data, Inner, LoginStep, LogoutStep, RestoreStep};
use axum_login::{AuthSession, AuthUser, AuthnBackend, Error};
use serde_json::Value;

#[derive(Debug, Clone, PartialEq)]
struct MockUser {
    id: i64,
    auth_hash: Vec<u8>,
}

impl AuthUser for MockUser {
    type Id = i64;

    fn id(&self) -> i64 {
        self.id
    }

    fn session_auth_hash(&self) -> &[u8] {
        &self.auth_hash
    }
}

#[derive(Debug, Clone, PartialEq)]
struct MockCredentials;

#[derive(Debug, PartialEq)]
struct MockError;

#[derive(Debug, Clone, PartialEq)]
struct MockBackend {
    user: Option<MockUser>,
}

impl AuthnBackend for MockBackend {
    type User = MockUser;
    type Credentials = MockCredentials;
    type Error = MockError;
}

impl MockBackend {
    fn authenticate(&self, creds: MockCredentials) -> Result<Option<MockUser>, MockError> {
        assert_eq!(creds, MockCredentials);
        Ok(self.user.clone())
    }

    fn get_user(&self, id: i64) -> Result<Option<MockUser>, MockError> {
        Ok(self.user.clone().filter(|user| user.id == id))
    }
}

/// A session store with one session: its ID, once it has one, and its data.
#[derive(Default)]
struct Store {
    id: Option<u64>,
    data: Option<(String, Data<i64>)>,
}

impl Store {
    fn login(&mut self, session: &mut AuthSession<MockBackend>, user: &MockUser) {
        let mut step = session.login(user);
        loop {
            let outcome = match &step {
                LoginStep::CycleId => {
                    self.id = None;
                    Ok(())
                }
                LoginStep::Store { key, data } => {
                    self.data = Some((key.clone(), data.clone()));
                    Ok(())
                }
                LoginStep::Done => return,
            };
            step = session.resume_login(user, step, outcome).ok().unwrap();
        }
    }

    fn save(&mut self) {
        if self.id.is_none() {
            self.id = Some(1);
        }
    }

    fn restore(&mut self, backend: MockBackend, key: &str) -> AuthSession<MockBackend> {
        let stored = self
            .data
            .as_ref()
            .filter(|(name, _)| name == key)
            .map(|(_, data)| data.clone());
        let mut step = AuthSession::<MockBackend>::start_restore(Ok(stored))
            .ok()
            .unwrap();
        loop {
            step = match step {
                RestoreStep::Find { data } => {
                    let found = backend.get_user(data.user_id.unwrap());
                    AuthSession::<MockBackend>::restore_found(data, found)
                        .ok()
                        .unwrap()
                }
                RestoreStep::Flush => {
                    self.id = None;
                    self.data = None;
                    AuthSession::<MockBackend>::restore_flushed(Ok(()))
                        .ok()
                        .unwrap()
                }
                RestoreStep::Done { user, data } => {
                    return AuthSession::from_session(backend, key.to_string(), user, data)
                }
            };
        }
    }
}

fn session(user: Option<MockUser>, data: Data<i64>) -> AuthSession<MockBackend> {
    AuthSession {
        backend: MockBackend { user: None },
        inner: Inner::Session {
            user,
            data,
            data_key: "auth_data".to_string(),
        },
    }
}

fn mock_user(auth_hash: Vec<u8>) -> MockUser {
    MockUser { id: 42, auth_hash }
}

fn store_error() -> tower_sessions::session::Error {
    tower_sessions::session::Error::SerdeJson(serde_json::from_str::<Value>("{").unwrap_err())
}

#[test]
fn test_authenticate() {
    let backend = MockBackend {
        user: Some(mock_user(vec![])),
    };
    let creds = MockCredentials;
    let auth_session = AuthSession {
        backend,
        inner: Inner::Session {
            user: None,
            data: Data::default(),
            data_key: "auth_data".to_string(),
        },
    };

    let found = auth_session.backend().authenticate(creds);
    let result = auth_session.authenticate(found);
    assert!(result.is_ok());
    assert!(result.ok().unwrap().is_some());
}

#[test]
fn test_authenticate_bad_credentials() {
    let auth_session = session(None, Data::default());
    let bad_creds = MockCredentials;
    let found = auth_session.backend().authenticate(bad_creds);
    let result = auth_session.authenticate(found);
    assert!(result.is_ok());
    assert!(result.ok().unwrap().is_none());
}

#[test]
fn test_login() {
    let mock_user = mock_user(Default::default());
    let mut store = Store::default();
    let original_session_id = store.id;
    let mut auth_session = session(None, Data::default());

    store.login(&mut auth_session, &mock_user);
    assert!(auth_session.user().is_some());
    assert_eq!(auth_session.user().unwrap().id(), 42);

    // Simulate request persisting session.
    store.save();

    // We were provided no session initially.
    assert!(original_session_id.is_none());

    // We have a session ID after saving.
    assert!(store.id.is_some());
}

#[test]
fn test_logout() {
    let mut auth_session = session(Some(mock_user(Default::default())), Data::default());
    let step = auth_session.logout();
    let logged_out_user = match step {
        LogoutStep::Flush(user) => AuthSession::<MockBackend>::finish_logout(user, Ok(())),
        LogoutStep::Done(_) => panic!("a stored session is flushed"),
    };
    let logged_out_user = logged_out_user.ok().unwrap();
    assert!(logged_out_user.is_some());
    assert_eq!(logged_out_user.unwrap().id(), 42);
    assert!(auth_session.user().is_none());
}

#[test]
fn test_from_session() {
    let backend = MockBackend {
        user: Some(mock_user(vec![1, 2, 3, 4])),
    };
    let data_key = "auth_data";

    // Simulate a user being logged in
    let data = Data {
        user_id: Some(42),
        auth_hash: Some(vec![1, 2, 3, 4]),
    };
    let mut store = Store {
        id: Some(7),
        data: Some((data_key.to_string(), data)),
    };

    let auth_session = store.restore(backend, data_key);

    assert!(auth_session.user().is_some());
    assert_eq!(auth_session.user().unwrap().id(), 42);
    assert_eq!(store.id, Some(7));
}

#[test]
fn test_from_session_bad_auth_hash() {
    let backend = MockBackend {
        user: Some(mock_user(vec![1, 2, 3, 4])),
    };
    let data_key = "auth_data";

    // Try to use a malformed auth hash.
    let data = Data {
        user_id: Some(42),
        auth_hash: Some(vec![4, 3, 2, 1]),
    };
    let mut store = Store {
        id: Some(7),
        data: Some((data_key.to_string(), data)),
    };

    let auth_session = store.restore(backend, data_key);

    assert!(auth_session.user().is_none());
    // The stored session is gone.
    assert!(store.id.is_none());
    assert!(store.data.is_none());
    match auth_session.inner {
        Inner::Session { data, .. } => {
            assert!(data.user_id.is_none());
            assert!(data.auth_hash.is_none());
        }
        Inner::Jwt { .. } => panic!("a stored session"),
    }
}

#[test]
fn backend_error_is_handed_on() {
    let auth_session = session(None, Data::default());
    let result = auth_session.authenticate(Err(MockError));
    assert!(matches!(result, Err(Error::Backend(MockError))));

    let data = Data {
        user_id: Some(42),
        auth_hash: None,
    };
    let step = AuthSession::<MockBackend>::restore_found(data, Err(MockError));
    assert!(matches!(step, Err(Error::Backend(MockError))));
}

#[test]
fn store_errors_are_handed_on() {
    let user = mock_user(vec![1]);
    let mut auth_session = session(None, Data::default());
    let step = auth_session.login(&user);
    assert!(matches!(step, LoginStep::CycleId));
    let next = auth_session.resume_login(&user, step, Err(store_error()));
    assert!(matches!(next, Err(Error::Session(_))));
    // The user is set all the same, and nothing was recorded.
    assert_eq!(auth_session.user(), Some(user));
    match &auth_session.inner {
        Inner::Session { data, .. } => assert!(data.auth_hash.is_none()),
        Inner::Jwt { .. } => panic!("a stored session"),
    }

    let result = AuthSession::<MockBackend>::finish_logout(None, Err(store_error()));
    assert!(matches!(result, Err(Error::Session(_))));
    let step = AuthSession::<MockBackend>::start_restore(Err(store_error()));
    assert!(matches!(step, Err(Error::Session(_))));
    let step = AuthSession::<MockBackend>::restore_flushed(Err(store_error()));
    assert!(matches!(step, Err(Error::Session(_))));
}

#[test]
fn first_login_cycles_the_id_and_then_stores() {
    let user = mock_user(vec![1, 2]);
    let mut auth_session = session(None, Data::default());
    let step = auth_session.login(&user);
    assert!(matches!(step, LoginStep::CycleId));
    let step = auth_session.resume_login(&user, step, Ok(())).ok().unwrap();
    match &step {
        LoginStep::Store { key, data } => {
            assert_eq!(key, "auth_data");
            assert_eq!(data.user_id, Some(42));
            assert_eq!(data.auth_hash, Some(vec![1, 2]));
        }
        _ => panic!("the login is stored"),
    }
    let step = auth_session.resume_login(&user, step, Ok(())).ok().unwrap();
    assert!(matches!(step, LoginStep::Done));
}

#[test]
fn later_login_stores_at_once() {
    let user = mock_user(vec![1, 2]);
    let data = Data {
        user_id: Some(1),
        auth_hash: Some(vec![9]),
    };
    let mut auth_session = session(None, data);
    match auth_session.login(&user) {
        LoginStep::Store { key, data } => {
            assert_eq!(key, "auth_data");
            assert_eq!(data.user_id, Some(42));
            assert_eq!(data.auth_hash, Some(vec![1, 2]));
        }
        _ => panic!("the login is stored"),
    }
    assert_eq!(auth_session.user(), Some(user));
}

#[test]
fn login_is_restored_until_the_hash_changes() {
    let user = mock_user(vec![1, 2]);
    let mut store = Store::default();
    let mut auth_session = session(None, Data::default());
    store.login(&mut auth_session, &user);
    store.save();

    let backend = MockBackend {
        user: Some(user.clone()),
    };
    assert_eq!(store.restore(backend, "auth_data").user(), Some(user));

    let backend = MockBackend {
        user: Some(mock_user(vec![1, 2, 3])),
    };
    assert_eq!(store.restore(backend.clone(), "auth_data").user(), None);
    // The stored session went with it.
    assert_eq!(store.restore(backend, "auth_data").user(), None);
    assert!(store.data.is_none());
}

#[test]
fn unknown_users_are_not_restored() {
    let data = Data {
        user_id: Some(41),
        auth_hash: Some(vec![]),
    };
    let mut store = Store {
        id: Some(7),
        data: Some(("auth_data".to_string(), data)),
    };
    let backend = MockBackend {
        user: Some(mock_user(vec![])),
    };
    let auth_session = store.restore(backend.clone(), "auth_data");
    assert_eq!(auth_session.user(), None);
    assert_eq!(auth_session.backend(), &backend);
    // The stored session is kept.
    assert_eq!(store.id, Some(7));

    // Without a stored ID the backend is not asked.
    let step = AuthSession::<MockBackend>::start_restore(Ok(Some(Data {
        user_id: None,
        auth_hash: Some(vec![5]),
    })));
    match step.ok().unwrap() {
        RestoreStep::Done { user, data } => {
            assert!(user.is_none());
            assert_eq!(data.auth_hash, Some(vec![5]));
        }
        _ => panic!("nothing is left to do"),
    }
}

#[test]
fn hashes_are_compared_whole() {
    let data: Data<i64> = Data {
        user_id: None,
        auth_hash: Some(vec![1, 2, 3]),
    };
    assert!(data.is_verified(&[1, 2, 3]));
    assert!(!data.is_verified(&[1, 2, 4]));
    assert!(!data.is_verified(&[1, 2]));
    assert!(!data.is_verified(&[]));
    let data: Data<i64> = Data::default();
    assert!(!data.is_verified(&[]));
}

#[test]
fn token_sessions_record_the_last_action() {
    let user = mock_user(vec![]);
    let backend = MockBackend { user: None };
    let mut auth_session = AuthSession::from_jwt(backend, None);
    assert_eq!(auth_session.user(), None);
    assert_eq!(auth_session.take_pending_cookie(), None);

    assert!(matches!(auth_session.login(&user), LoginStep::Done));
    assert_eq!(auth_session.user(), Some(user.clone()));
    assert!(matches!(auth_session.logout(), LogoutStep::Done(Some(_))));
    assert_eq!(auth_session.user(), None);
    assert_eq!(
        auth_session.take_pending_cookie(),
        Some(PendingCookie::Clear)
    );
    assert_eq!(auth_session.take_pending_cookie(), None);

    assert!(matches!(auth_session.logout(), LogoutStep::Done(None)));
    assert!(matches!(auth_session.login(&user), LoginStep::Done));
    assert_eq!(
        auth_session.take_pending_cookie(),
        Some(PendingCookie::Issue)
    );
    assert_eq!(auth_session.user(), Some(user));
}

#[test]
fn stored_sessions_have_no_pending_cookie() {
    let mut auth_session = session(Some(mock_user(vec![])), Data::default());
    assert!(matches!(auth_session.logout(), LogoutStep::Flush(Some(_))));
    assert_eq!(auth_session.take_pending_cookie(), None);
}
