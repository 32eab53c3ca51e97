//! The RPC handlers: sign-up and sign-in, billing accounts, organizations
//! and invitations, each a verified function of the repository state and
//! the request.

pub mod auth;
pub mod authz;
pub mod billing;
pub mod common;
pub mod credentials;
pub mod convert;
pub mod error;
pub mod invitation;
pub mod invite;
pub mod laws;
pub mod ops;
pub mod org;
pub mod session;
pub mod sso;

pub use auth::AuthServer;
pub use billing::BillingServer;
pub use invitation::InvitationServer;
pub use org::OrgServer;
