//! The organization service. Organizations stay with the billing account
//! they were created under.

use vstd::prelude::*;

use crate::auth::SessionContext;
use crate::domain::enums::ScopeTargetView;
use crate::domain::{
    BillingAccountId, Duplicate, OrgId, Organization, Role, ScopeKind, ScopeTarget, SsoConfig,
    UserId,
};
use crate::services::auth::only_repo_changed;
use crate::services::authz::{
    billing_owner_check, org_owner_check, require_billing_owner, require_org_or_billing_owner,
};
use crate::services::billing::{opt_id_text, sso_config_fields, sso_presented};
use crate::services::common::{email_check, role_from_i32, role_of_wire, validate_email};
use crate::services::convert::{sso_info_of, sso_kind_to_domain, sso_to_pb, SsoConfigInfo};
use crate::services::error::{
    fails, from_store_error, rpc_err, rpc_result, store_rpc, via_store, Code, RpcError, RpcErrorView,
};
use crate::services::invite::{
    execute_invite_member, invite_outcome, InviteMemberParams, InviteMemberResult,
};
use crate::services::ops::{org_member_removed, org_role_updated, organization_removed};
use crate::services::session::org_listing;
use crate::state::{clock_fits, AppState};
use crate::store::error::StoreErrorView;
use crate::store::listing::sorted_by_key;
use crate::store::model::{
    email_in_use, email_matches, listed, looked_up, org_membership_fields, store_result,
    user_with_email, RepoState,
};
use crate::store::repo::billing::org_under;
use crate::store::repo::sso_config::configs_of_kind;
use crate::store::repo::{Repo, RepoModel};
use crate::text::{str_eq, trim, trim_spec};

verus! {

/// The handlers of the organization service.
pub struct OrgServer;

/// An organization as sent, with its SSO configuration if it has one.
#[derive(Debug)]
pub struct OrganizationInfo {
    pub id: String,
    pub display_name: String,
    pub billing_account_id: String,
    pub personal: bool,
    pub owner_user_id: String,
    pub sso: Option<SsoConfigInfo>,
}

/// `r` presents the organization `o` with the configuration `sso`.
pub open spec fn org_info_of(r: OrganizationInfo, o: Organization, sso: Option<SsoConfig>) -> bool {
    &&& r.id@ == o.id@
    &&& r.display_name == o.display_name
    &&& r.billing_account_id@ == o.billing_account_id@
    &&& r.personal == o.personal
    &&& r.owner_user_id@ == opt_id_text(o.owner_user_id)
    &&& sso_presented(r.sso, sso)
}

pub fn org_to_pb_with_sso(o: Organization, sso: Option<SsoConfig>) -> (r: OrganizationInfo)
    ensures
        org_info_of(r, o, sso),
{
    let owner_user_id = match &o.owner_user_id {
        Some(u) => u.to_string(),
        None => String::new(),
    };
    let sso_info = match sso {
        Some(c) => Some(sso_to_pb(c)),
        None => None,
    };
    OrganizationInfo {
        id: o.id.to_string(),
        display_name: o.display_name,
        billing_account_id: o.billing_account_id.to_string(),
        personal: o.personal,
        owner_user_id,
        sso: sso_info,
    }
}

/// The organization as sent, with its stored SSO configuration.
fn org_to_pb<R: Repo>(repo: &R, o: Organization) -> (r: Result<OrganizationInfo, RpcError>)
    requires
        repo.inv(),
    ensures
        r matches Ok(info) && org_info_of(info, o, repo.model().sso_configs.get((ScopeKind::Org, o.id@))),
{
    let sso = match repo.get_sso_config(ScopeKind::Org, o.id.as_str()) {
        Ok(c) => c,
        Err(e) => {
            return Err(from_store_error(e));
        },
    };
    Ok(org_to_pb_with_sso(o, sso))
}

/// A member of the organization or of its billing account sees it.
pub open spec fn org_visible(s: RepoState, user: Seq<char>, o: Organization) -> bool {
    s.org_memberships.contains_key((user, o.id@)) || s.billing_memberships.contains_key(
        (user, o.billing_account_id@),
    )
}

fn require_org_visibility<R: Repo>(repo: &R, session: &SessionContext, org: &Organization) -> (r: Result<(), RpcError>)
    requires
        repo.inv(),
    ensures
        rpc_result(r) == (if org_visible(repo.model(), session.user@, *org) {
            Ok::<(), RpcErrorView>(())
        } else {
            fails::<()>(Code::PermissionDenied, "no access to this organization"@)
        }),
{
    match repo.get_org_membership(&session.user, &org.id) {
        Ok(Some(_)) => {
            return Ok(());
        },
        Ok(None) => {},
        Err(e) => {
            return Err(from_store_error(e));
        },
    }
    match repo.get_billing_membership(&session.user, &org.billing_account_id) {
        Ok(Some(_)) => {
            return Ok(());
        },
        Ok(None) => {},
        Err(e) => {
            return Err(from_store_error(e));
        },
    }
    Err(RpcError::msg(Code::PermissionDenied, "no access to this organization"))
}

/// The organization `id`, which must exist.
pub open spec fn org_lookup(s: RepoState, id: Seq<char>) -> Result<Organization, RpcErrorView> {
    if s.organizations.contains_key(id) {
        Ok(s.organizations[id])
    } else {
        fails(Code::NotFound, "organization not found"@)
    }
}

/// The organization `id` must exist and the caller own it.
pub open spec fn org_owner_guard(s: RepoState, user: Seq<char>, id: Seq<char>) -> Result<Organization, RpcErrorView> {
    match org_lookup(s, id) {
        Err(e) => Err(e),
        Ok(o) => match org_owner_check(s, user, o) {
            Err(e) => Err(e),
            Ok(()) => Ok(o),
        },
    }
}

fn fetch_org<R: Repo>(repo: &R, id: &OrgId) -> (r: Result<Organization, RpcError>)
    requires
        repo.inv(),
    ensures
        rpc_result(r) == org_lookup(repo.model(), id@),
{
    match repo.get_organization(id) {
        Ok(Some(o)) => Ok(o),
        Ok(None) => Err(RpcError::msg(Code::NotFound, "organization not found")),
        Err(e) => Err(from_store_error(e)),
    }
}

fn owned_org<R: Repo>(repo: &R, session: &SessionContext, id: &OrgId) -> (r: Result<Organization, RpcError>)
    requires
        repo.inv(),
    ensures
        rpc_result(r) == org_owner_guard(repo.model(), session.user@, id@),
{
    let org = match fetch_org(repo, id) {
        Ok(o) => o,
        Err(e) => {
            return Err(e);
        },
    };
    match require_org_or_billing_owner(repo, session, &org) {
        Ok(()) => Ok(org),
        Err(e) => Err(e),
    }
}

/// A new shared organization `o` under the billing account.
pub open spec fn org_created(old: RepoState, mid: RepoState, o: Organization, name: Seq<char>, billing: Seq<char>, now_ms: i64) -> bool {
    &&& o.display_name@ == name
    &&& o.billing_account_id@ == billing
    &&& !o.personal
    &&& o.owner_user_id is None
    &&& o.created_at_ms == now_ms
    &&& mid == (RepoState { organizations: old.organizations.insert(o.id@, o), ..old })
}

/// Creating an organization: the caller must own the billing account and
/// name it (the name is trimmed); the caller becomes its owner.
pub open spec fn create_org_outcome(
    old: RepoState,
    new: RepoState,
    user: Seq<char>,
    billing: Seq<char>,
    name: Seq<char>,
    now_ms: i64,
    r: Result<OrganizationInfo, RpcError>,
) -> bool {
    match billing_owner_check(old, user, billing) {
        Err(e) => rpc_result(r) == Err::<OrganizationInfo, RpcErrorView>(e) && new == old,
        Ok(()) => if trim_spec(name).len() == 0 {
            rpc_result(r) == fails::<OrganizationInfo>(Code::InvalidArgument, "display_name is required"@)
                && new == old
        } else if !old.billing_accounts.contains_key(billing) {
            rpc_result(r) == Err::<OrganizationInfo, RpcErrorView>(
                store_rpc(StoreErrorView::NotFound("billing account "@ + billing)),
            ) && new == old
        } else {
            exists|o: Organization, mid: RepoState|
                #[trigger] org_created(old, mid, o, trim_spec(name), billing, now_ms) && if mid.org_memberships.contains_key(
                    (user, o.id@),
                ) {
                    rpc_result(r) == Err::<OrganizationInfo, RpcErrorView>(
                        store_rpc(StoreErrorView::AlreadyExists("org membership "@ + user + " -> "@ + o.id@)),
                    ) && new == mid
                } else {
                    &&& new == (RepoState { org_memberships: new.org_memberships, ..mid })
                    &&& new.org_memberships == mid.org_memberships.insert(
                        (user, o.id@),
                        new.org_memberships[(user, o.id@)],
                    )
                    &&& org_membership_fields(new.org_memberships[(user, o.id@)], user, o.id@, Role::Owner, now_ms)
                    &&& r matches Ok(info) && org_info_of(info, o, new.sso_configs.get((ScopeKind::Org, o.id@)))
                }
        },
    }
}

/// Inviting into an organization: it must exist and the caller own it;
/// an email belonging to a member is refused;
/// otherwise as `invite_outcome` says, under the organization's billing
/// account.
pub open spec fn org_invite_outcome(
    old: RepoState,
    new: RepoState,
    key: Seq<u8>,
    ttl: i64,
    now_ms: i64,
    caller: Seq<char>,
    org: Seq<char>,
    email: Seq<char>,
    role_wire: i32,
    r: Result<InviteMemberResult, RpcError>,
) -> bool {
    match org_owner_guard(old, caller, org) {
        Err(e) => r matches Err(x) && x@ == e && new == old,
        Ok(o) => match email_check(email) {
            Err(e) => r matches Err(x) && x@ == e && new == old,
            Ok(()) => match role_of_wire(role_wire) {
                Err(e) => r matches Err(x) && x@ == e && new == old,
                Ok(_) => if email_in_use(old, email) {
                    exists|k: Seq<char>|
                        #[trigger] old.users.contains_key(k) && email_matches(old.users[k], email) && if old.org_memberships.contains_key(
                            (old.users[k].id@, org),
                        ) {
                            r matches Err(x) && x@ == rpc_err(
                                Code::FailedPrecondition,
                                "user is already a member of this org"@,
                            ) && new == old
                        } else {
                            invite_outcome(old, new, key, ttl, now_ms, email, role_wire, caller, ScopeTargetView::Org(org), o.billing_account_id@, r)
                        }
                } else {
                    invite_outcome(old, new, key, ttl, now_ms, email, role_wire, caller, ScopeTargetView::Org(org), o.billing_account_id@, r)
                },
            },
        },
    }
}

/// The organizations a listing shows: a billing account's, for a member of
/// it, or else the caller's own.
pub open spec fn orgs_listed(s: RepoState, user: Seq<char>, billing: Option<Seq<char>>, orgs: Seq<Organization>) -> bool {
    match billing {
        Some(b) => listed(s.organizations, orgs, org_under(b)) && sorted_by_key(orgs),
        None => exists|rows: Seq<(Organization, Role)>|
            #[trigger] org_listing(s, user, rows) && orgs == rows.map_values(|p: (Organization, Role)| p.0),
    }
}

/// The configuration stored for `id` in a batch lookup, if any.
fn config_for(v: &Vec<(String, SsoConfig)>, id: &str) -> (r: Option<SsoConfig>)
    ensures
        match r {
            Some(c) => exists|t: int| 0 <= t < v@.len() && (#[trigger] v@[t]).0@ == id@ && v@[t].1 == c,
            None => forall|t: int| 0 <= t < v@.len() ==> (#[trigger] v@[t]).0@ != id@,
        },
{
    let mut i: usize = 0;
    while i < v.len()
        invariant
            i <= v@.len(),
            forall|t: int| 0 <= t < i ==> (#[trigger] v@[t]).0@ != id@,
        decreases v.len() - i,
    {
        if str_eq(v[i].0.as_str(), id) {
            return Some(v[i].1.duplicate());
        }
        i = i + 1;
    }
    None
}

/// The organizations as sent, each with its stored SSO configuration.
fn present_orgs<R: Repo>(repo: &R, orgs: Vec<Organization>) -> (r: Result<Vec<OrganizationInfo>, RpcError>)
    requires
        repo.inv(),
    ensures
        r matches Ok(v) && v@.len() == orgs@.len() && forall|t: int|
            0 <= t < orgs@.len() ==> org_info_of(
                #[trigger] v@[t],
                orgs@[t],
                repo.model().sso_configs.get((ScopeKind::Org, orgs@[t].id@)),
            ),
{
    let mut scope_ids: Vec<&str> = Vec::new();
    let mut i: usize = 0;
    while i < orgs.len()
        invariant
            i <= orgs@.len(),
            scope_ids@.len() == i,
            forall|t: int| 0 <= t < i ==> (#[trigger] scope_ids@[t])@ == orgs@[t].id@,
        decreases orgs.len() - i,
    {
        scope_ids.push(orgs[i].id.as_str());
        i = i + 1;
    }
    let configs = match repo.list_sso_configs_by_scope_ids(ScopeKind::Org, scope_ids.as_slice()) {
        Ok(v) => v,
        Err(e) => {
            return Err(from_store_error(e));
        },
    };
    let ghost ids = scope_ids@.map_values(|x: &str| x@);
    let ghost m = configs_of_kind(repo.model(), ScopeKind::Org);
    let ghost os = orgs@;
    assert(looked_up(m, ids, configs@));
    let mut out: Vec<OrganizationInfo> = Vec::new();
    let mut j: usize = 0;
    while j < orgs.len()
        invariant
            j <= orgs@.len(),
            out@.len() == j,
            os == orgs@,
            ids.len() == os.len(),
            forall|t: int| 0 <= t < os.len() ==> (#[trigger] ids[t]) == os[t].id@,
            looked_up(m, ids, configs@),
            m == configs_of_kind(repo.model(), ScopeKind::Org),
            forall|t: int|
                0 <= t < j ==> org_info_of(
                    #[trigger] out@[t],
                    os[t],
                    repo.model().sso_configs.get((ScopeKind::Org, os[t].id@)),
                ),
        decreases orgs.len() - j,
    {
        let sso = config_for(&configs, orgs[j].id.as_str());
        proof {
            let id = os[j as int].id@;
            assert(ids[j as int] == id);
            if sso is Some {
                let c = sso->0;
                let t = choose|t: int| 0 <= t < configs@.len() && (#[trigger] configs@[t]).0@ == id && configs@[t].1 == c;
                assert(configs@[t] == configs@[t]);
            } else {
                if m.contains_key(id) {
                    let t = choose|t: int| 0 <= t < configs@.len() && (#[trigger] configs@[t]).0@ == ids[j as int];
                    assert(configs@[t].0@ != id);
                }
            }
        }
        let info = org_to_pb_with_sso(orgs[j].duplicate(), sso);
        out.push(info);
        j = j + 1;
    }
    Ok(out)
}

impl OrgServer {
    /// Create a shared organization under a billing account the caller
    /// owns; the caller becomes its owner.
    pub fn create_organization<R: Repo, B, C>(
        state: &mut AppState<R, B, C>,
        session: &SessionContext,
        now_ms: i64,
        billing_account_id: &str,
        display_name: &str,
    ) -> (r: Result<OrganizationInfo, RpcError>)
        requires
            old(state).repo.inv(),
        ensures
            final(state).repo.inv(),
            only_repo_changed(*old(state), *final(state)),
            create_org_outcome(
                old(state).repo.model(),
                final(state).repo.model(),
                session.user@,
                billing_account_id@,
                display_name@,
                now_ms,
                r,
            ),
    {
        let ghost old_s = state.repo.model();
        let billing_id = BillingAccountId::from_string(String::from_str(billing_account_id));
        match require_billing_owner(&state.repo, session, &billing_id) {
            Ok(()) => {},
            Err(e) => {
                return Err(e);
            },
        }
        let name = trim(display_name);
        if name.as_str().unicode_len() == 0 {
            return Err(RpcError::msg(Code::InvalidArgument, "display_name is required"));
        }
        let org = match state.repo.create_organization(name, billing_id, now_ms) {
            Ok(o) => o,
            Err(e) => {
                return Err(from_store_error(e));
            },
        };
        let ghost mid = state.repo.model();
        assert(org_created(old_s, mid, org, trim_spec(display_name@), billing_account_id@, now_ms));
        match state.repo.add_org_membership(&session.user, &org.id, Role::Owner, now_ms) {
            Ok(()) => {},
            Err(e) => {
                return Err(from_store_error(e));
            },
        }
        org_to_pb(&state.repo, org)
    }

    /// An organization the caller can see.
    pub fn get_organization<R: Repo, B, C>(state: &AppState<R, B, C>, session: &SessionContext, id: &str) -> (r:
        Result<OrganizationInfo, RpcError>)
        requires
            state.repo.inv(),
        ensures
            match org_lookup(state.repo.model(), id@) {
                Err(e) => r matches Err(x) && x@ == e,
                Ok(o) => if org_visible(state.repo.model(), session.user@, o) {
                    r matches Ok(info) && org_info_of(
                        info,
                        o,
                        state.repo.model().sso_configs.get((ScopeKind::Org, id@)),
                    )
                } else {
                    r matches Err(x) && x@ == rpc_err(Code::PermissionDenied, "no access to this organization"@)
                },
            },
    {
        proof {
            state.repo.lemma_model_wf();
        }
        let org_id = OrgId::from_string(String::from_str(id));
        let org = match fetch_org(&state.repo, &org_id) {
            Ok(o) => o,
            Err(e) => {
                return Err(e);
            },
        };
        match require_org_visibility(&state.repo, session, &org) {
            Ok(()) => {},
            Err(e) => {
                return Err(e);
            },
        }
        org_to_pb(&state.repo, org)
    }

    /// The organizations of a billing account the caller belongs to, or
    /// (with no account given) the caller's own, each with its SSO
    /// configuration.
    pub fn list_organizations<R: Repo, B, C>(
        state: &AppState<R, B, C>,
        session: &SessionContext,
        billing_account_id: Option<&str>,
    ) -> (r: Result<Vec<OrganizationInfo>, RpcError>)
        requires
            state.repo.inv(),
        ensures
            ({
                let s = state.repo.model();
                let b = crate::services::auth::requested(crate::services::auth::opt_str_view(billing_account_id));
                if b is Some && !s.billing_memberships.contains_key((session.user@, b->0)) {
                    r matches Err(x) && x@ == rpc_err(Code::PermissionDenied, "not a member of this billing account"@)
                } else {
                    r matches Ok(v) && exists|orgs: Seq<Organization>|
                        #[trigger] orgs_listed(s, session.user@, b, orgs) && v@.len() == orgs.len() && forall|t: int|
                            0 <= t < orgs.len() ==> org_info_of(
                                #[trigger] v@[t],
                                orgs[t],
                                s.sso_configs.get((ScopeKind::Org, orgs[t].id@)),
                            )
                }
            }),
    {
        let ghost s = state.repo.model();
        let ghost b = crate::services::auth::requested(crate::services::auth::opt_str_view(billing_account_id));
        let orgs = match billing_account_id {
            Some(bid) if bid.unicode_len() > 0 => {
                let billing_id = BillingAccountId::from_string(String::from_str(bid));
                match state.repo.get_billing_membership(&session.user, &billing_id) {
                    Ok(Some(_)) => {},
                    Ok(None) => {
                        return Err(RpcError::msg(Code::PermissionDenied, "not a member of this billing account"));
                    },
                    Err(e) => {
                        return Err(from_store_error(e));
                    },
                }
                match state.repo.list_organizations_for_billing(&billing_id) {
                    Ok(v) => v,
                    Err(e) => {
                        return Err(from_store_error(e));
                    },
                }
            },
            _ => {
                let rows = match state.repo.list_organizations_for_user(&session.user) {
                    Ok(v) => v,
                    Err(e) => {
                        return Err(from_store_error(e));
                    },
                };
                let ghost rs = rows@;
                assert(org_listing(s, session.user@, rs));
                let mut out: Vec<Organization> = Vec::new();
                let mut i: usize = 0;
                while i < rows.len()
                    invariant
                        i <= rows@.len(),
                        out@.len() == i,
                        forall|t: int| 0 <= t < i ==> #[trigger] out@[t] == rows@[t].0,
                    decreases rows.len() - i,
                {
                    out.push(rows[i].0.duplicate());
                    i = i + 1;
                }
                assert(out@ =~= rs.map_values(|p: (Organization, Role)| p.0));
                out
            },
        };
        let ghost os = orgs@;
        assert(orgs_listed(s, session.user@, b, os));
        present_orgs(&state.repo, orgs)
    }

    /// Invite someone into an organization the caller owns (or whose
    /// billing account the caller owns).
    pub fn invite_member<R: Repo, B, C>(
        state: &mut AppState<R, B, C>,
        session: &SessionContext,
        now_ms: i64,
        org_id: &str,
        email: &str,
        role: i32,
    ) -> (r: Result<InviteMemberResult, RpcError>)
        requires
            old(state).repo.inv(),
            clock_fits(old(state).config, now_ms),
        ensures
            final(state).repo.inv(),
            only_repo_changed(*old(state), *final(state)),
            org_invite_outcome(
                old(state).repo.model(),
                final(state).repo.model(),
                old(state).keyring@,
                old(state).config.invitation_ttl_seconds,
                now_ms,
                session.user@,
                org_id@,
                email@,
                role,
                r,
            ),
    {
        let ghost old_s = state.repo.model();
        let oid = OrgId::from_string(String::from_str(org_id));
        let org = match owned_org(&state.repo, session, &oid) {
            Ok(o) => o,
            Err(e) => {
                return Err(e);
            },
        };
        match validate_email(email) {
            Ok(()) => {},
            Err(e) => {
                return Err(e);
            },
        }
        match role_from_i32(role) {
            Ok(_) => {},
            Err(e) => {
                return Err(e);
            },
        }
        match state.repo.get_user_by_email(email) {
            Ok(Some(target)) => {
                let ghost k = choose|k: Seq<char>|
                    #[trigger] old_s.users.contains_key(k) && old_s.users[k] == target && user_with_email(email@)(k, target);
                assert(old_s.users.contains_key(k) && email_matches(old_s.users[k], email@));
                match state.repo.get_org_membership(&target.id, &oid) {
                    Ok(Some(_)) => {
                        return Err(RpcError::msg(Code::FailedPrecondition, "user is already a member of this org"));
                    },
                    Ok(None) => {},
                    Err(e) => {
                        return Err(from_store_error(e));
                    },
                }
            },
            Ok(None) => {},
            Err(e) => {
                return Err(from_store_error(e));
            },
        }
        let params = InviteMemberParams {
            email,
            role_i32: role,
            inviter_user_id: &session.user,
            scope: ScopeTarget::Org(oid.duplicate()),
            billing_account_id: &org.billing_account_id,
        };
        execute_invite_member(
            &mut state.repo,
            &state.keyring,
            state.config.invitation_ttl_seconds,
            now_ms,
            params,
        )
    }

    /// Remove a member from an organization the caller owns (or whose
    /// billing account the caller owns).
    pub fn remove_member<R: Repo, B, C>(
        state: &mut AppState<R, B, C>,
        session: &SessionContext,
        org_id: &str,
        user_id: &str,
    ) -> (r: Result<(), RpcError>)
        requires
            old(state).repo.inv(),
        ensures
            final(state).repo.inv(),
            only_repo_changed(*old(state), *final(state)),
            match org_owner_guard(old(state).repo.model(), session.user@, org_id@) {
                Err(e) => rpc_result(r) == Err::<(), RpcErrorView>(e) && final(state).repo.model() == old(
                    state,
                ).repo.model(),
                Ok(_) => exists|res: Result<(), StoreErrorView>|
                    #[trigger] org_member_removed(
                        old(state).repo.model(),
                        final(state).repo.model(),
                        user_id@,
                        org_id@,
                        res,
                    ) && rpc_result(r) == via_store(res),
            },
    {
        let ghost old_s = state.repo.model();
        let oid = OrgId::from_string(String::from_str(org_id));
        match owned_org(&state.repo, session, &oid) {
            Ok(_) => {},
            Err(e) => {
                return Err(e);
            },
        }
        let target = UserId::from_string(String::from_str(user_id));
        let removed = state.repo.remove_org_membership(&target, &oid);
        let ghost res = store_result(removed);
        assert(org_member_removed(old_s, state.repo.model(), user_id@, org_id@, res));
        match removed {
            Ok(()) => Ok(()),
            Err(e) => Err(from_store_error(e)),
        }
    }

    /// Change a member's role in an organization the caller owns (or whose
    /// billing account the caller owns).
    pub fn update_member_role<R: Repo, B, C>(
        state: &mut AppState<R, B, C>,
        session: &SessionContext,
        org_id: &str,
        user_id: &str,
        role: i32,
    ) -> (r: Result<(), RpcError>)
        requires
            old(state).repo.inv(),
        ensures
            final(state).repo.inv(),
            only_repo_changed(*old(state), *final(state)),
            match org_owner_guard(old(state).repo.model(), session.user@, org_id@) {
                Err(e) => rpc_result(r) == Err::<(), RpcErrorView>(e) && final(state).repo.model() == old(
                    state,
                ).repo.model(),
                Ok(_) => match role_of_wire(role) {
                    Err(e) => rpc_result(r) == Err::<(), RpcErrorView>(e) && final(state).repo.model() == old(
                        state,
                    ).repo.model(),
                    Ok(new_role) => exists|res: Result<(), StoreErrorView>|
                        #[trigger] org_role_updated(
                            old(state).repo.model(),
                            final(state).repo.model(),
                            user_id@,
                            org_id@,
                            new_role,
                            res,
                        ) && rpc_result(r) == via_store(res),
                },
            },
    {
        let ghost old_s = state.repo.model();
        let oid = OrgId::from_string(String::from_str(org_id));
        match owned_org(&state.repo, session, &oid) {
            Ok(_) => {},
            Err(e) => {
                return Err(e);
            },
        }
        let target = UserId::from_string(String::from_str(user_id));
        let new_role = match role_from_i32(role) {
            Ok(r) => r,
            Err(e) => {
                return Err(e);
            },
        };
        let updated = state.repo.update_org_membership_role(&target, &oid, new_role);
        let ghost res = store_result(updated);
        assert(org_role_updated(old_s, state.repo.model(), user_id@, org_id@, new_role, res));
        match updated {
            Ok(()) => Ok(()),
            Err(e) => Err(from_store_error(e)),
        }
    }

    /// Configure SSO for an organization the caller owns (or whose billing
    /// account the caller owns); the caller becomes its break-glass user.
    pub fn configure_sso<R: Repo, B, C>(
        state: &mut AppState<R, B, C>,
        session: &SessionContext,
        now_ms: i64,
        org_id: &str,
        idp_id: &str,
        kind: i32,
        login_url: &str,
        required: bool,
    ) -> (r: Result<SsoConfigInfo, RpcError>)
        requires
            old(state).repo.inv(),
        ensures
            final(state).repo.inv(),
            only_repo_changed(*old(state), *final(state)),
            match org_owner_guard(old(state).repo.model(), session.user@, org_id@) {
                Err(e) => r matches Err(x) && x@ == e && final(state).repo.model() == old(state).repo.model(),
                Ok(_) => exists|cfg: SsoConfig|
                    #[trigger] old(state).repo.model().sso_configs.insert((ScopeKind::Org, org_id@), cfg)
                        == final(state).repo.model().sso_configs && final(state).repo.model() == (RepoState {
                        sso_configs: old(state).repo.model().sso_configs.insert((ScopeKind::Org, org_id@), cfg),
                        ..old(state).repo.model()
                    }) && sso_config_fields(
                        cfg,
                        ScopeKind::Org,
                        org_id@,
                        idp_id@,
                        kind,
                        login_url@,
                        session.user@,
                        required,
                        now_ms,
                    ) && (r matches Ok(info) && sso_info_of(info, cfg)),
            },
    {
        let ghost old_s = state.repo.model();
        let oid = OrgId::from_string(String::from_str(org_id));
        match owned_org(&state.repo, session, &oid) {
            Ok(_) => {},
            Err(e) => {
                return Err(e);
            },
        }
        let cfg = SsoConfig {
            scope_kind: ScopeKind::Org,
            scope_id: oid.to_string(),
            idp_id: String::from_str(idp_id),
            kind: sso_kind_to_domain(kind),
            login_url: String::from_str(login_url),
            break_glass_user_id: session.user.duplicate(),
            required,
            updated_at_ms: now_ms,
        };
        let ghost gc = cfg;
        match state.repo.upsert_sso_config(cfg.duplicate()) {
            Ok(()) => {},
            Err(e) => {
                return Err(from_store_error(e));
            },
        }
        assert(old_s.sso_configs.insert((ScopeKind::Org, org_id@), gc) == state.repo.model().sso_configs);
        Ok(sso_to_pb(cfg))
    }

    /// Delete a shared organization the caller owns (or whose billing
    /// account the caller owns).
    pub fn delete_organization<R: Repo, B, C>(state: &mut AppState<R, B, C>, session: &SessionContext, org_id: &str) -> (r:
        Result<(), RpcError>)
        requires
            old(state).repo.inv(),
        ensures
            final(state).repo.inv(),
            only_repo_changed(*old(state), *final(state)),
            match org_lookup(old(state).repo.model(), org_id@) {
                Err(e) => rpc_result(r) == Err::<(), RpcErrorView>(e) && final(state).repo.model() == old(
                    state,
                ).repo.model(),
                Ok(o) => if o.personal {
                    rpc_result(r) == fails::<()>(
                        Code::FailedPrecondition,
                        "personal organizations are deleted with the user"@,
                    ) && final(state).repo.model() == old(state).repo.model()
                } else {
                    match org_owner_check(old(state).repo.model(), session.user@, o) {
                        Err(e) => rpc_result(r) == Err::<(), RpcErrorView>(e) && final(state).repo.model()
                            == old(state).repo.model(),
                        Ok(()) => exists|res: Result<(), StoreErrorView>|
                            #[trigger] organization_removed(
                                old(state).repo.model(),
                                final(state).repo.model(),
                                org_id@,
                                res,
                            ) && rpc_result(r) == via_store(res),
                    }
                },
            },
    {
        let ghost old_s = state.repo.model();
        let oid = OrgId::from_string(String::from_str(org_id));
        let org = match fetch_org(&state.repo, &oid) {
            Ok(o) => o,
            Err(e) => {
                return Err(e);
            },
        };
        if org.personal {
            return Err(
                RpcError::msg(Code::FailedPrecondition, "personal organizations are deleted with the user"),
            );
        }
        match require_org_or_billing_owner(&state.repo, session, &org) {
            Ok(()) => {},
            Err(e) => {
                return Err(e);
            },
        }
        let deleted = state.repo.delete_organization(&oid);
        let ghost res = store_result(deleted);
        assert(organization_removed(old_s, state.repo.model(), org_id@, res));
        match deleted {
            Ok(()) => Ok(()),
            Err(e) => Err(from_store_error(e)),
        }
    }
}

} // verus!
