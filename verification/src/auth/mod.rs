//! Token minting and verification, password hashing, and the root key.

pub mod invitation_token;
pub mod keyring;
pub mod macaroon;
pub mod one_shot_token;
pub mod password;
pub mod session;
pub mod token_laws;
pub mod tokens;

pub use keyring::{Keyring, KeyringError};
pub use session::SessionContext;
