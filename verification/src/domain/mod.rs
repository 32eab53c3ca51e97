//! Domain model: identifiers, enumerations and stored entities.

use vstd::prelude::*;

pub mod entities;
pub mod enums;
pub mod ids;

pub use entities::{
    BillingAccount, BillingMembership, Identity, Invitation, InvitationStatus, Invoice,
    OrgMembership, Organization, SsoConfig, SsoState, Subscription, User, personal_display_name,
};
pub use enums::{AuthMethod, IdentityProvider, Role, ScopeKind, ScopeTarget, TokenPurpose};
pub use ids::{BillingAccountId, IdentityId, InvitationId, InvoiceId, OrgId, UserId};

verus! {

/// An exact copy: the copy equals the original.
pub trait Duplicate: Sized {
    fn duplicate(&self) -> (r: Self)
        ensures
            r == *self,
    ;
}

impl Duplicate for String {
    fn duplicate(&self) -> (r: Self) {
        self.clone()
    }
}

impl<T: Duplicate> Duplicate for Option<T> {
    fn duplicate(&self) -> (r: Self) {
        match self {
            Some(x) => Some(x.duplicate()),
            None => None,
        }
    }
}

} // verus!
