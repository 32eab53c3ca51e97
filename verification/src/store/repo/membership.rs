//! Memberships of users in billing accounts and organizations, with the
//! rule that an account or organization keeps at least one owner.

use vstd::prelude::*;

use crate::domain::{
    BillingAccountId, BillingMembership, OrgId, OrgMembership, Role, User, UserId,
};
use crate::store::error::{StoreErrorView, StoreResult};
use crate::store::listing::sorted_by_key;
use crate::store::model::{
    billing_membership_fields, billing_owner_count, listed_rows, org_membership_fields,
    org_owner_count, RepoState,
};
use crate::store::repo::RepoModel;
use crate::store::table::count_where;

verus! {

/// A billing membership with its user.
pub type BillingMemberRow = (BillingMembership, User);

/// An organization membership with its user.
pub type OrgMemberRow = (OrgMembership, User);

pub open spec fn members_of_billing(s: RepoState, b: Seq<char>) -> spec_fn((Seq<char>, Seq<char>), BillingMembership) -> bool {
    |k: (Seq<char>, Seq<char>), m: BillingMembership| m.billing_account_id@ == b && s.users.contains_key(k.0)
}

pub open spec fn billing_member_row(s: RepoState) -> spec_fn((Seq<char>, Seq<char>), BillingMembership) -> BillingMemberRow {
    |k: (Seq<char>, Seq<char>), m: BillingMembership| (m, s.users[k.0])
}

pub open spec fn members_of_org(s: RepoState, o: Seq<char>) -> spec_fn((Seq<char>, Seq<char>), OrgMembership) -> bool {
    |k: (Seq<char>, Seq<char>), m: OrgMembership| m.org_id@ == o && s.users.contains_key(k.0)
}

pub open spec fn org_member_row(s: RepoState) -> spec_fn((Seq<char>, Seq<char>), OrgMembership) -> OrgMemberRow {
    |k: (Seq<char>, Seq<char>), m: OrgMembership| (m, s.users[k.0])
}

/// The user's owner memberships in shared (non-personal) billing accounts.
pub open spec fn shared_ownership(s: RepoState, user: Seq<char>) -> spec_fn((Seq<char>, Seq<char>), BillingMembership) -> bool {
    |k: (Seq<char>, Seq<char>), m: BillingMembership|
        m.user_id@ == user && m.role == Role::Owner && s.billing_accounts.contains_key(m.billing_account_id@)
            && !s.billing_accounts[m.billing_account_id@].personal
}

/// Changing a membership from `from` to `to` would leave no owner.
pub open spec fn loses_last_owner(from: Role, to: Option<Role>, owners: nat) -> bool {
    from == Role::Owner && to != Some(Role::Owner) && owners <= 1
}

pub trait MembershipRepo: RepoModel {
    fn add_billing_membership(&mut self, user_id: &UserId, billing_account_id: &BillingAccountId, role: Role, now_ms: i64) -> (r: StoreResult<()>)
        requires
            old(self).inv(),
        ensures
            final(self).inv(),
            old(self).model().billing_memberships.contains_key((user_id@, billing_account_id@)) ==> (r matches Err(e)
                && e@ == StoreErrorView::AlreadyExists(
                "billing membership "@ + user_id@ + " -> "@ + billing_account_id@,
            )) && final(self).model() == old(self).model(),
            !old(self).model().billing_memberships.contains_key((user_id@, billing_account_id@)) ==> r is Ok
                && final(self).model() == (RepoState {
                billing_memberships: final(self).model().billing_memberships,
                ..old(self).model()
            }) && final(self).model().billing_memberships == old(self).model().billing_memberships.insert(
                (user_id@, billing_account_id@),
                final(self).model().billing_memberships[(user_id@, billing_account_id@)],
            ) && billing_membership_fields(
                final(self).model().billing_memberships[(user_id@, billing_account_id@)],
                user_id@,
                billing_account_id@,
                role,
                now_ms,
            ),
    ;

    fn get_billing_membership(&self, user_id: &UserId, billing_account_id: &BillingAccountId) -> (r: StoreResult<Option<BillingMembership>>)
        requires
            self.inv(),
        ensures
            r matches Ok(o) && o == self.model().billing_memberships.get((user_id@, billing_account_id@)),
    ;

    /// Change a member's role; demoting the last owner is refused.
    fn update_billing_membership_role(&mut self, user_id: &UserId, billing_account_id: &BillingAccountId, role: Role) -> (r: StoreResult<()>)
        requires
            old(self).inv(),
        ensures
            final(self).inv(),
            ({
                let s = old(self).model();
                let k = (user_id@, billing_account_id@);
                if !s.billing_memberships.contains_key(k) {
                    (r matches Err(e) && e@ == StoreErrorView::NotFound("billing membership"@))
                        && final(self).model() == s
                } else if loses_last_owner(
                    s.billing_memberships[k].role,
                    Some(role),
                    billing_owner_count(s, billing_account_id@),
                ) {
                    (r matches Err(e) && e@ == StoreErrorView::Conflict(
                        "cannot demote the last owner of a billing account"@,
                    )) && final(self).model() == s
                } else {
                    r is Ok && final(self).model() == (RepoState {
                        billing_memberships: s.billing_memberships.insert(
                            k,
                            (BillingMembership { role, ..s.billing_memberships[k] }),
                        ),
                        ..s
                    })
                }
            }),
    ;

    /// Remove a member; removing the last owner is refused.
    fn remove_billing_membership(&mut self, user_id: &UserId, billing_account_id: &BillingAccountId) -> (r: StoreResult<()>)
        requires
            old(self).inv(),
        ensures
            final(self).inv(),
            ({
                let s = old(self).model();
                let k = (user_id@, billing_account_id@);
                if !s.billing_memberships.contains_key(k) {
                    (r matches Err(e) && e@ == StoreErrorView::NotFound("billing membership"@))
                        && final(self).model() == s
                } else if loses_last_owner(
                    s.billing_memberships[k].role,
                    None,
                    billing_owner_count(s, billing_account_id@),
                ) {
                    (r matches Err(e) && e@ == StoreErrorView::Conflict(
                        "cannot remove the last owner of a billing account"@,
                    )) && final(self).model() == s
                } else {
                    r is Ok && final(self).model() == (RepoState {
                        billing_memberships: s.billing_memberships.remove(k),
                        ..s
                    })
                }
            }),
    ;

    /// The account's members with their users, sorted by user id.
    fn list_billing_memberships(&self, billing_account_id: &BillingAccountId) -> (r: StoreResult<Vec<BillingMemberRow>>)
        requires
            self.inv(),
        ensures
            r matches Ok(v) && listed_rows(
                self.model().billing_memberships,
                v@,
                members_of_billing(self.model(), billing_account_id@),
                billing_member_row(self.model()),
            ) && sorted_by_key(v@),
    ;

    fn add_org_membership(&mut self, user_id: &UserId, org_id: &OrgId, role: Role, now_ms: i64) -> (r: StoreResult<()>)
        requires
            old(self).inv(),
        ensures
            final(self).inv(),
            old(self).model().org_memberships.contains_key((user_id@, org_id@)) ==> (r matches Err(e)
                && e@ == StoreErrorView::AlreadyExists("org membership "@ + user_id@ + " -> "@ + org_id@))
                && final(self).model() == old(self).model(),
            !old(self).model().org_memberships.contains_key((user_id@, org_id@)) ==> r is Ok
                && final(self).model() == (RepoState {
                org_memberships: final(self).model().org_memberships,
                ..old(self).model()
            }) && final(self).model().org_memberships == old(self).model().org_memberships.insert(
                (user_id@, org_id@),
                final(self).model().org_memberships[(user_id@, org_id@)],
            ) && org_membership_fields(
                final(self).model().org_memberships[(user_id@, org_id@)],
                user_id@,
                org_id@,
                role,
                now_ms,
            ),
    ;

    fn get_org_membership(&self, user_id: &UserId, org_id: &OrgId) -> (r: StoreResult<Option<OrgMembership>>)
        requires
            self.inv(),
        ensures
            r matches Ok(o) && o == self.model().org_memberships.get((user_id@, org_id@)),
    ;

    /// Change a member's role; demoting the last owner is refused.
    fn update_org_membership_role(&mut self, user_id: &UserId, org_id: &OrgId, role: Role) -> (r: StoreResult<()>)
        requires
            old(self).inv(),
        ensures
            final(self).inv(),
            ({
                let s = old(self).model();
                let k = (user_id@, org_id@);
                if !s.org_memberships.contains_key(k) {
                    (r matches Err(e) && e@ == StoreErrorView::NotFound("org membership"@))
                        && final(self).model() == s
                } else if loses_last_owner(
                    s.org_memberships[k].role,
                    Some(role),
                    org_owner_count(s, org_id@),
                ) {
                    (r matches Err(e) && e@ == StoreErrorView::Conflict(
                        "cannot demote the last owner of an organization"@,
                    )) && final(self).model() == s
                } else {
                    r is Ok && final(self).model() == (RepoState {
                        org_memberships: s.org_memberships.insert(
                            k,
                            (OrgMembership { role, ..s.org_memberships[k] }),
                        ),
                        ..s
                    })
                }
            }),
    ;

    /// Remove a member; removing the last owner is refused.
    fn remove_org_membership(&mut self, user_id: &UserId, org_id: &OrgId) -> (r: StoreResult<()>)
        requires
            old(self).inv(),
        ensures
            final(self).inv(),
            ({
                let s = old(self).model();
                let k = (user_id@, org_id@);
                if !s.org_memberships.contains_key(k) {
                    (r matches Err(e) && e@ == StoreErrorView::NotFound("org membership"@))
                        && final(self).model() == s
                } else if loses_last_owner(s.org_memberships[k].role, None, org_owner_count(s, org_id@)) {
                    (r matches Err(e) && e@ == StoreErrorView::Conflict(
                        "cannot remove the last owner of an organization"@,
                    )) && final(self).model() == s
                } else {
                    r is Ok && final(self).model() == (RepoState {
                        org_memberships: s.org_memberships.remove(k),
                        ..s
                    })
                }
            }),
    ;

    /// The organization's members with their users, sorted by user id.
    fn list_org_memberships(&self, org_id: &OrgId) -> (r: StoreResult<Vec<OrgMemberRow>>)
        requires
            self.inv(),
        ensures
            r matches Ok(v) && listed_rows(
                self.model().org_memberships,
                v@,
                members_of_org(self.model(), org_id@),
                org_member_row(self.model()),
            ) && sorted_by_key(v@),
    ;

    fn count_org_owners(&self, org_id: &OrgId) -> (r: StoreResult<i64>)
        requires
            self.inv(),
        ensures
            r matches Ok(n) && n == org_owner_count(self.model(), org_id@) as i64,
    ;

    /// How many shared billing accounts the user owns.
    fn count_non_personal_owner_memberships(&self, user_id: &UserId) -> (r: StoreResult<i64>)
        requires
            self.inv(),
        ensures
            r matches Ok(n) && n == count_where(
                self.model().billing_memberships,
                shared_ownership(self.model(), user_id@),
            ) as i64,
    ;
}

} // verus!
