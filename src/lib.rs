//! The decisions of an interactive OAuth 2.0 authorization-code flow whose
//! access token becomes the password of a Git credential.

mod encoding;

pub mod config;
pub mod credential;
pub mod error;
pub mod redirect;
pub mod session;

pub use config::OAuth;
pub use credential::Credential;
pub use error::FlowError;
pub use session::{Phase, Session};
