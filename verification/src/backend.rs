//! What an application supplies: its users, and the backend they belong to.

use serde_json::Value;
use vstd::prelude::*;

verus! {

/// A user that can be authenticated.
pub trait AuthUser: Clone {
    /// The type of the user's ID.
    type Id: Clone;

    /// The user's ID.
    fn id(&self) -> Self::Id;

    /// A hash that changes when the sessions of the user are to end, such as
    /// that of the password.
    fn session_auth_hash(&self) -> &[u8];
}

/// A user that a token can be issued for.
pub trait TokenUser: AuthUser {
    /// The user's ID as the subject of a token, or why it has no JSON form.
    fn subject(&self) -> Result<Value, serde_json::Error>;

    /// The ID that is the subject of a token, which may have none, if it is one.
    fn parse_subject(subject: Option<&Value>) -> Option<Self::Id>;

    /// The view of the user that is embedded in a token, without what must not
    /// leave the server.
    fn to_claims(&self) -> Value;

    /// The user that is embedded in a token, if there is one.
    fn from_claims(claims: &Value) -> Option<Self>;
}

/// A backend that authenticates users.
pub trait AuthnBackend: Clone {
    /// The users of the backend.
    type User: AuthUser;

    /// What a user shows to be authenticated.
    type Credentials;

    /// What can go wrong in the backend.
    type Error;
}

} // verus!
