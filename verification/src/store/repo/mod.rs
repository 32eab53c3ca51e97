//! The repository traits that back every domain operation, one per area,
//! and `Repo`, which a type has when it has them all. Their contracts are
//! written over `RepoModel::model`, the abstract state of a repository.

use vstd::prelude::*;

pub mod auth_flow;
pub mod billing;
pub mod invitation;
pub mod membership;
pub mod org;
pub mod sso_config;
pub mod user;

pub use auth_flow::AuthFlowRepo;
pub use billing::{BillingAccountWithRole, BillingRepo};
pub use invitation::{InvitationAcceptance, InvitationRepo};
pub use membership::{BillingMemberRow, MembershipRepo, OrgMemberRow};
pub use org::{OrgRepo, OrgWithRole};
pub use sso_config::SsoConfigRepo;
pub use user::{NewPasswordUser, NewSsoUser, UserRepo};

use crate::store::model::{state_wf, RepoState};

verus! {

/// The abstract state of a repository, and the invariant its operations
/// keep.
pub trait RepoModel {
    spec fn model(&self) -> RepoState;

    spec fn inv(&self) -> bool;

    /// A repository that keeps its invariant holds a well-formed state.
    proof fn lemma_model_wf(&self)
        requires
            self.inv(),
        ensures
            state_wf(self.model()),
    ;
}

/// A repository with every area's operations.
pub trait Repo: UserRepo + BillingRepo + OrgRepo + MembershipRepo + SsoConfigRepo + InvitationRepo + AuthFlowRepo {

}

impl<T: UserRepo + BillingRepo + OrgRepo + MembershipRepo + SsoConfigRepo + InvitationRepo + AuthFlowRepo> Repo for T {

}

} // verus!
