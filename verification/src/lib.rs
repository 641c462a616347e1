//! Cookie-carried JSON Web Token authentication, and the session state machine
//! around it.
//!
//! [`JwtConfig`] signs and checks tokens and builds the cookies that carry them.
//! [`JwtManager`] opens an [`AuthSession`] for a request from the tokens in its
//! headers, and adds the cookies that are due to the response. A session may also
//! be backed by a server-side store, which the caller reaches. What holds of all
//! this together is in [`laws`].

pub mod backend;
pub mod claims;
pub mod clock;
pub mod cookies;
pub mod headers;
pub mod json;
pub mod jwt;
pub mod laws;
pub mod manager;
pub mod session;
pub mod text;
pub mod token;

pub use crate::backend::{AuthUser, AuthnBackend, TokenUser};
pub use crate::jwt::{
    JwtConfig, JwtError, DEFAULT_JWT_COOKIE_NAME, DEFAULT_REFRESH_COOKIE_NAME,
};
pub use crate::manager::{JwtManager, JwtManagerLayer};
pub use crate::session::{AuthSession, Error, UserId};
