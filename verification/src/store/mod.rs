//! Storage: the keyed table, the store error type, the repository traits
//! and the in-memory repository.

pub mod error;
pub mod laws;
pub mod listing;
pub mod mem;
pub mod model;
pub mod repo;
pub mod sql;
pub mod table;

pub use error::{StoreError, StoreResult};
pub use mem::InMemoryRepo;
pub use repo::{
    BillingAccountWithRole, BillingMemberRow, InvitationAcceptance, NewPasswordUser, NewSsoUser,
    OrgMemberRow, OrgWithRole, Repo,
};
