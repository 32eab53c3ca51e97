//! Organizations.

use vstd::prelude::*;

use crate::domain::{BillingAccountId, OrgId, OrgMembership, Organization, Role, ScopeKind, UserId};
use crate::store::error::{StoreErrorView, StoreResult};
use crate::store::listing::sorted_by_key;
use crate::store::model::{listed, listed_rows, looked_up, RepoState};
use crate::store::repo::billing::{drop_config_of, org_under};
use crate::store::repo::RepoModel;
use crate::store::table::map_filter;

verus! {

/// An organization with the role a user has in it.
pub type OrgWithRole = (Organization, Role);

pub open spec fn orgs_of_user(s: RepoState, user: Seq<char>) -> spec_fn((Seq<char>, Seq<char>), OrgMembership) -> bool {
    |k: (Seq<char>, Seq<char>), m: OrgMembership| k.0 == user && s.organizations.contains_key(k.1)
}

pub open spec fn org_with_role(s: RepoState) -> spec_fn((Seq<char>, Seq<char>), OrgMembership) -> OrgWithRole {
    |k: (Seq<char>, Seq<char>), m: OrgMembership| (s.organizations[k.1], m.role)
}

/// The state after deleting an organization: its memberships and SSO
/// configuration go with it.
pub open spec fn org_deleted(s: RepoState, id: Seq<char>) -> RepoState {
    RepoState {
        organizations: s.organizations.remove(id),
        org_memberships: map_filter(s.org_memberships, drop_memberships_of_org(id)),
        sso_configs: map_filter(s.sso_configs, drop_config_of(ScopeKind::Org, id)),
        ..s
    }
}

pub open spec fn drop_memberships_of_org(o: Seq<char>) -> spec_fn((Seq<char>, Seq<char>), OrgMembership) -> Option<OrgMembership> {
    |k: (Seq<char>, Seq<char>), m: OrgMembership| if k.1 == o { None } else { Some(m) }
}

pub trait OrgRepo: RepoModel {
    /// A shared organization under an existing billing account.
    fn create_organization(&mut self, display_name: String, billing_account_id: BillingAccountId, now_ms: i64) -> (r: StoreResult<Organization>)
        requires
            old(self).inv(),
        ensures
            final(self).inv(),
            !old(self).model().billing_accounts.contains_key(billing_account_id@) ==> (r matches Err(e)
                && e@ == StoreErrorView::NotFound("billing account "@ + billing_account_id@))
                && final(self).model() == old(self).model(),
            old(self).model().billing_accounts.contains_key(billing_account_id@) ==> (r matches Ok(o)
                && o.display_name == display_name && o.billing_account_id == billing_account_id
                && !o.personal && o.owner_user_id is None && o.created_at_ms == now_ms
                && final(self).model() == (RepoState {
                organizations: old(self).model().organizations.insert(o.id@, o),
                ..old(self).model()
            })),
    ;

    fn get_organization(&self, id: &OrgId) -> (r: StoreResult<Option<Organization>>)
        requires
            self.inv(),
        ensures
            r matches Ok(o) && o == self.model().organizations.get(id@),
    ;

    /// The organizations under a billing account, sorted by id.
    fn list_organizations_for_billing(&self, billing_account_id: &BillingAccountId) -> (r: StoreResult<Vec<Organization>>)
        requires
            self.inv(),
        ensures
            r matches Ok(v) && listed(self.model().organizations, v@, org_under(billing_account_id@))
                && sorted_by_key(v@),
    ;

    /// The user's organizations with their role, sorted by organization id.
    fn list_organizations_for_user(&self, user_id: &UserId) -> (r: StoreResult<Vec<OrgWithRole>>)
        requires
            self.inv(),
        ensures
            r matches Ok(v) && listed_rows(
                self.model().org_memberships,
                v@,
                orgs_of_user(self.model(), user_id@),
                org_with_role(self.model()),
            ) && sorted_by_key(v@),
    ;

    /// Delete a shared organization; a personal one goes only with its user.
    fn delete_organization(&mut self, id: &OrgId) -> (r: StoreResult<()>)
        requires
            old(self).inv(),
        ensures
            final(self).inv(),
            !old(self).model().organizations.contains_key(id@) ==> (r matches Err(e) && e@
                == StoreErrorView::NotFound("organization "@ + id@)) && final(self).model() == old(
                self,
            ).model(),
            old(self).model().organizations.contains_key(id@) && old(self).model().organizations[id@].personal
                ==> (r matches Err(e) && e@ == StoreErrorView::Conflict(
                "personal organizations are deleted with the user"@,
            )) && final(self).model() == old(self).model(),
            old(self).model().organizations.contains_key(id@) && !old(self).model().organizations[id@].personal
                ==> r is Ok && final(self).model() == org_deleted(old(self).model(), id@),
    ;

    /// The organizations under the given ids, each id once; ids without an
    /// organization are left out.
    fn get_organizations_by_ids(&self, ids: &[&str]) -> (r: StoreResult<Vec<(String, Organization)>>)
        requires
            self.inv(),
        ensures
            r matches Ok(v) && looked_up(self.model().organizations, ids@.map_values(|s: &str| s@), v@),
    ;
}

} // verus!
