//! What holds of the library as a whole.

pub mod attributes;
pub mod calls;
pub mod closing;
pub mod configuration;
pub mod cookies;
pub mod issuing;
pub mod opening;
pub mod requests;
pub mod sessions;
pub mod tokens;
pub mod visits;
pub mod wire;
