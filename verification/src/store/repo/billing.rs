//! Billing accounts.

use vstd::prelude::*;

use crate::domain::{BillingAccount, BillingAccountId, BillingMembership, Role, ScopeKind, UserId};
use crate::store::error::{StoreErrorView, StoreResult};
use crate::store::listing::sorted_by_key;
use crate::store::model::{
    billing_membership_fields, billing_owner_count, found, inserted, listed_rows, looked_up,
    RepoState,
};
use crate::store::repo::RepoModel;
use crate::store::table::{count_where, map_filter};
use crate::text::{eq_ignore_ascii_case_spec, unicode_lowercase};

verus! {

/// A billing account with the role a user has in it.
pub type BillingAccountWithRole = (BillingAccount, Role);

/// The billing accounts a user belongs to, with their role.
pub open spec fn accounts_of_user(s: RepoState, user: Seq<char>) -> spec_fn((Seq<char>, Seq<char>), BillingMembership) -> bool {
    |k: (Seq<char>, Seq<char>), m: BillingMembership| k.0 == user && s.billing_accounts.contains_key(k.1)
}

pub open spec fn account_with_role(s: RepoState) -> spec_fn((Seq<char>, Seq<char>), BillingMembership) -> BillingAccountWithRole {
    |k: (Seq<char>, Seq<char>), m: BillingMembership| (s.billing_accounts[k.1], m.role)
}

/// The state after deleting a billing account: its memberships and SSO
/// configuration go with it.
pub open spec fn billing_deleted(s: RepoState, id: Seq<char>) -> RepoState {
    RepoState {
        billing_accounts: s.billing_accounts.remove(id),
        billing_memberships: map_filter(s.billing_memberships, drop_memberships_in(id)),
        sso_configs: map_filter(s.sso_configs, drop_config_of(ScopeKind::Billing, id)),
        ..s
    }
}

pub open spec fn drop_memberships_in(b: Seq<char>) -> spec_fn((Seq<char>, Seq<char>), BillingMembership) -> Option<BillingMembership> {
    |k: (Seq<char>, Seq<char>), m: BillingMembership| if k.1 == b { None } else { Some(m) }
}

/// Drops the SSO configuration of one scope.
pub open spec fn drop_config_of(kind: ScopeKind, id: Seq<char>) -> spec_fn((ScopeKind, Seq<char>), crate::domain::SsoConfig) -> Option<crate::domain::SsoConfig> {
    |k: (ScopeKind, Seq<char>), c: crate::domain::SsoConfig| if k.0 == kind && k.1 == id { None } else { Some(c) }
}

/// Organizations under the billing account.
pub open spec fn org_under(b: Seq<char>) -> spec_fn(Seq<char>, crate::domain::Organization) -> bool {
    |k: Seq<char>, o: crate::domain::Organization| o.billing_account_id@ == b
}

/// Some organization is attached to the billing account.
pub open spec fn has_orgs(s: RepoState, id: Seq<char>) -> bool {
    exists|k: Seq<char>| #[trigger] s.organizations.contains_key(k) && org_under(id)(k, s.organizations[k])
}

/// Shared accounts whose auto-join domain equals `domain`, ignoring ASCII
/// case.
pub open spec fn auto_join_match(domain: Seq<char>) -> spec_fn(Seq<char>, BillingAccount) -> bool {
    |k: Seq<char>, b: BillingAccount|
        !b.personal && (b.auto_join_domain matches Some(d) && eq_ignore_ascii_case_spec(d@, domain))
}

pub trait BillingRepo: RepoModel {
    fn get_billing_account(&self, id: &BillingAccountId) -> (r: StoreResult<Option<BillingAccount>>)
        requires
            self.inv(),
        ensures
            r matches Ok(o) && o == self.model().billing_accounts.get(id@),
    ;

    /// The user's billing accounts with their role, sorted by account id.
    fn list_billing_accounts_for_user(&self, user_id: &UserId) -> (r: StoreResult<Vec<BillingAccountWithRole>>)
        requires
            self.inv(),
        ensures
            r matches Ok(v) && listed_rows(
                self.model().billing_memberships,
                v@,
                accounts_of_user(self.model(), user_id@),
                account_with_role(self.model()),
            ) && sorted_by_key(v@),
    ;

    /// A shared billing account with the owner as its first owner; the
    /// owner must exist.
    fn create_billing_account(&mut self, display_name: String, owner_user_id: UserId, now_ms: i64) -> (r: StoreResult<BillingAccount>)
        requires
            old(self).inv(),
        ensures
            final(self).inv(),
            !old(self).model().users.contains_key(owner_user_id@) ==> (r matches Err(e) && e@
                == StoreErrorView::NotFound("user "@ + owner_user_id@)) && final(self).model()
                == old(self).model(),
            old(self).model().users.contains_key(owner_user_id@) ==> (r matches Ok(b) && b.display_name
                == display_name && !b.personal && b.owner_user_id is None && b.auto_join_domain is None
                && b.created_at_ms == now_ms && final(self).model().billing_accounts == old(
                self,
            ).model().billing_accounts.insert(b.id@, b) && inserted(
                old(self).model().billing_memberships,
                final(self).model().billing_memberships,
                (owner_user_id@, b.id@),
            ) && billing_membership_fields(
                final(self).model().billing_memberships[(owner_user_id@, b.id@)],
                owner_user_id@,
                b.id@,
                Role::Owner,
                now_ms,
            ) && final(self).model() == (RepoState {
                billing_accounts: final(self).model().billing_accounts,
                billing_memberships: final(self).model().billing_memberships,
                ..old(self).model()
            })),
    ;

    /// Set (lowercased) or clear the email domain whose new users join the
    /// account automatically.
    fn set_auto_join_domain(&mut self, billing_account_id: &BillingAccountId, domain: Option<String>) -> (r: StoreResult<()>)
        requires
            old(self).inv(),
        ensures
            final(self).inv(),
            !old(self).model().billing_accounts.contains_key(billing_account_id@) ==> (r matches Err(e)
                && e@ == StoreErrorView::NotFound("billing account "@ + billing_account_id@))
                && final(self).model() == old(self).model(),
            old(self).model().billing_accounts.contains_key(billing_account_id@) ==> r is Ok && ({
                let b = final(self).model().billing_accounts[billing_account_id@];
                &&& final(self).model() == (RepoState {
                    billing_accounts: old(self).model().billing_accounts.insert(billing_account_id@, b),
                    ..old(self).model()
                })
                &&& b == (BillingAccount {
                    auto_join_domain: b.auto_join_domain,
                    ..old(self).model().billing_accounts[billing_account_id@]
                })
                &&& match domain {
                    Some(d) => b.auto_join_domain matches Some(x) && x@ == unicode_lowercase(d@),
                    None => b.auto_join_domain is None,
                }
            }),
    ;

    /// A shared account whose auto-join domain equals `domain`, ignoring
    /// ASCII case.
    fn find_billing_by_auto_join_domain(&self, domain: &str) -> (r: StoreResult<Option<BillingAccount>>)
        requires
            self.inv(),
        ensures
            r matches Ok(o) && found(self.model().billing_accounts, o, auto_join_match(domain@)),
    ;

    /// Delete a shared billing account with no organizations; a personal
    /// one goes only with its user.
    fn delete_billing_account(&mut self, id: &BillingAccountId) -> (r: StoreResult<()>)
        requires
            old(self).inv(),
        ensures
            final(self).inv(),
            !old(self).model().billing_accounts.contains_key(id@) ==> (r matches Err(e) && e@
                == StoreErrorView::NotFound("billing account "@ + id@)) && final(self).model() == old(
                self,
            ).model(),
            old(self).model().billing_accounts.contains_key(id@)
                && old(self).model().billing_accounts[id@].personal ==> (r matches Err(e) && e@
                == StoreErrorView::Conflict("personal billing accounts are deleted with the user"@))
                && final(self).model() == old(self).model(),
            old(self).model().billing_accounts.contains_key(id@)
                && !old(self).model().billing_accounts[id@].personal && has_orgs(old(self).model(), id@)
                ==> (r matches Err(e) && e@ == StoreErrorView::Conflict(
                "cannot delete billing account: orgs still attached"@,
            )) && final(self).model() == old(self).model(),
            old(self).model().billing_accounts.contains_key(id@)
                && !old(self).model().billing_accounts[id@].personal && !has_orgs(old(self).model(), id@)
                ==> r is Ok && final(self).model() == billing_deleted(old(self).model(), id@),
    ;

    /// The accounts under the given ids, each id once; ids without an
    /// account are left out.
    fn get_billing_accounts_by_ids(&self, ids: &[&str]) -> (r: StoreResult<Vec<(String, BillingAccount)>>)
        requires
            self.inv(),
        ensures
            r matches Ok(v) && looked_up(
                self.model().billing_accounts,
                ids@.map_values(|s: &str| s@),
                v@,
            ),
    ;

    fn count_orgs_for_billing(&self, billing_account_id: &BillingAccountId) -> (r: StoreResult<i64>)
        requires
            self.inv(),
        ensures
            r matches Ok(n) && n == count_where(self.model().organizations, org_under(billing_account_id@))
                as i64,
    ;

    fn count_billing_owners(&self, billing_account_id: &BillingAccountId) -> (r: StoreResult<i64>)
        requires
            self.inv(),
        ensures
            r matches Ok(n) && n == billing_owner_count(self.model(), billing_account_id@) as i64,
    ;
}

} // verus!
