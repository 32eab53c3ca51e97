//! The repository operations the handlers pass through, each as the
//! relation between the state before, the state after and the store
//! result that the repository contracts give.

use vstd::prelude::*;

use crate::domain::{
    BillingAccount, BillingMembership, Invitation, InvitationStatus, OrgMembership, Role,
};
use crate::store::error::StoreErrorView;
use crate::store::model::{billing_owner_count, org_owner_count, RepoState};
use crate::store::repo::billing::{billing_deleted, has_orgs};
use crate::store::repo::membership::loses_last_owner;
use crate::store::repo::org::org_deleted;
use crate::text::unicode_lowercase;

verus! {

pub open spec fn billing_member_removed(
    s: RepoState,
    new: RepoState,
    user: Seq<char>,
    billing: Seq<char>,
    r: Result<(), StoreErrorView>,
) -> bool {
    let k = (user, billing);
    if !s.billing_memberships.contains_key(k) {
        r == Err::<(), StoreErrorView>(StoreErrorView::NotFound("billing membership"@)) && new == s
    } else if loses_last_owner(s.billing_memberships[k].role, None, billing_owner_count(s, billing)) {
        r == Err::<(), StoreErrorView>(
            StoreErrorView::Conflict("cannot remove the last owner of a billing account"@),
        ) && new == s
    } else {
        r is Ok && new == (RepoState { billing_memberships: s.billing_memberships.remove(k), ..s })
    }
}

pub open spec fn billing_role_updated(
    s: RepoState,
    new: RepoState,
    user: Seq<char>,
    billing: Seq<char>,
    role: Role,
    r: Result<(), StoreErrorView>,
) -> bool {
    let k = (user, billing);
    if !s.billing_memberships.contains_key(k) {
        r == Err::<(), StoreErrorView>(StoreErrorView::NotFound("billing membership"@)) && new == s
    } else if loses_last_owner(s.billing_memberships[k].role, Some(role), billing_owner_count(s, billing)) {
        r == Err::<(), StoreErrorView>(
            StoreErrorView::Conflict("cannot demote the last owner of a billing account"@),
        ) && new == s
    } else {
        r is Ok && new == (RepoState {
            billing_memberships: s.billing_memberships.insert(
                k,
                (BillingMembership { role, ..s.billing_memberships[k] }),
            ),
            ..s
        })
    }
}

pub open spec fn org_member_removed(
    s: RepoState,
    new: RepoState,
    user: Seq<char>,
    org: Seq<char>,
    r: Result<(), StoreErrorView>,
) -> bool {
    let k = (user, org);
    if !s.org_memberships.contains_key(k) {
        r == Err::<(), StoreErrorView>(StoreErrorView::NotFound("org membership"@)) && new == s
    } else if loses_last_owner(s.org_memberships[k].role, None, org_owner_count(s, org)) {
        r == Err::<(), StoreErrorView>(
            StoreErrorView::Conflict("cannot remove the last owner of an organization"@),
        ) && new == s
    } else {
        r is Ok && new == (RepoState { org_memberships: s.org_memberships.remove(k), ..s })
    }
}

pub open spec fn org_role_updated(
    s: RepoState,
    new: RepoState,
    user: Seq<char>,
    org: Seq<char>,
    role: Role,
    r: Result<(), StoreErrorView>,
) -> bool {
    let k = (user, org);
    if !s.org_memberships.contains_key(k) {
        r == Err::<(), StoreErrorView>(StoreErrorView::NotFound("org membership"@)) && new == s
    } else if loses_last_owner(s.org_memberships[k].role, Some(role), org_owner_count(s, org)) {
        r == Err::<(), StoreErrorView>(
            StoreErrorView::Conflict("cannot demote the last owner of an organization"@),
        ) && new == s
    } else {
        r is Ok && new == (RepoState {
            org_memberships: s.org_memberships.insert(k, (OrgMembership { role, ..s.org_memberships[k] })),
            ..s
        })
    }
}

pub open spec fn billing_account_removed(s: RepoState, new: RepoState, id: Seq<char>, r: Result<(), StoreErrorView>) -> bool {
    if !s.billing_accounts.contains_key(id) {
        r == Err::<(), StoreErrorView>(StoreErrorView::NotFound("billing account "@ + id)) && new == s
    } else if s.billing_accounts[id].personal {
        r == Err::<(), StoreErrorView>(
            StoreErrorView::Conflict("personal billing accounts are deleted with the user"@),
        ) && new == s
    } else if has_orgs(s, id) {
        r == Err::<(), StoreErrorView>(
            StoreErrorView::Conflict("cannot delete billing account: orgs still attached"@),
        ) && new == s
    } else {
        r is Ok && new == billing_deleted(s, id)
    }
}

pub open spec fn organization_removed(s: RepoState, new: RepoState, id: Seq<char>, r: Result<(), StoreErrorView>) -> bool {
    if !s.organizations.contains_key(id) {
        r == Err::<(), StoreErrorView>(StoreErrorView::NotFound("organization "@ + id)) && new == s
    } else if s.organizations[id].personal {
        r == Err::<(), StoreErrorView>(
            StoreErrorView::Conflict("personal organizations are deleted with the user"@),
        ) && new == s
    } else {
        r is Ok && new == org_deleted(s, id)
    }
}

/// The account's auto-join domain set (lower-cased) or cleared.
pub open spec fn auto_join_set(s: RepoState, new: RepoState, id: Seq<char>, domain: Option<Seq<char>>, r: Result<(), StoreErrorView>) -> bool {
    if !s.billing_accounts.contains_key(id) {
        r == Err::<(), StoreErrorView>(StoreErrorView::NotFound("billing account "@ + id)) && new == s
    } else {
        let b = new.billing_accounts[id];
        &&& r is Ok
        &&& new == (RepoState { billing_accounts: s.billing_accounts.insert(id, b), ..s })
        &&& b == (BillingAccount { auto_join_domain: b.auto_join_domain, ..s.billing_accounts[id] })
        &&& match domain {
            Some(d) => b.auto_join_domain matches Some(x) && x@ == unicode_lowercase(d),
            None => b.auto_join_domain is None,
        }
    }
}

pub open spec fn invitation_status_set(
    s: RepoState,
    new: RepoState,
    id: Seq<char>,
    status: InvitationStatus,
    r: Result<(), StoreErrorView>,
) -> bool {
    if !s.invitations.contains_key(id) {
        r == Err::<(), StoreErrorView>(StoreErrorView::NotFound("invitation "@ + id)) && new == s
    } else {
        r is Ok && new == (RepoState {
            invitations: s.invitations.insert(id, (Invitation { status, ..s.invitations[id] })),
            ..s
        })
    }
}

} // verus!
