//! Who may act where: membership and ownership checks, and which SSO
//! configuration governs a scope.

use vstd::prelude::*;

use crate::auth::SessionContext;
use crate::domain::{BillingAccountId, OrgId, Organization, Role, ScopeKind, SsoConfig};
use crate::services::error::{fails, from_store_error, rpc_result, Code, RpcError, RpcErrorView};
use crate::store::model::RepoState;
use crate::store::repo::{MembershipRepo, RepoModel, SsoConfigRepo};

verus! {

/// The caller's role in a billing account; a non-member is refused.
pub open spec fn billing_member_role(s: RepoState, user: Seq<char>, billing: Seq<char>) -> Result<Role, RpcErrorView> {
    if s.billing_memberships.contains_key((user, billing)) {
        Ok(s.billing_memberships[(user, billing)].role)
    } else {
        fails(Code::PermissionDenied, "not a member of this billing account"@)
    }
}

pub fn require_billing_member<R: MembershipRepo>(
    repo: &R,
    session: &SessionContext,
    billing_id: &BillingAccountId,
) -> (r: Result<Role, RpcError>)
    requires
        repo.inv(),
    ensures
        rpc_result(r) == billing_member_role(repo.model(), session.user@, billing_id@),
{
    match repo.get_billing_membership(&session.user, billing_id) {
        Ok(Some(m)) => Ok(m.role),
        Ok(None) => Err(RpcError::msg(Code::PermissionDenied, "not a member of this billing account")),
        Err(e) => Err(from_store_error(e)),
    }
}

/// The caller must own the billing account.
pub open spec fn billing_owner_check(s: RepoState, user: Seq<char>, billing: Seq<char>) -> Result<(), RpcErrorView> {
    match billing_member_role(s, user, billing) {
        Err(e) => Err(e),
        Ok(role) => if role == Role::Owner {
            Ok(())
        } else {
            fails(Code::PermissionDenied, "billing-account owner role required"@)
        },
    }
}

pub fn require_billing_owner<R: MembershipRepo>(
    repo: &R,
    session: &SessionContext,
    billing_id: &BillingAccountId,
) -> (r: Result<(), RpcError>)
    requires
        repo.inv(),
    ensures
        rpc_result(r) == billing_owner_check(repo.model(), session.user@, billing_id@),
{
    let role = match require_billing_member(repo, session, billing_id) {
        Ok(role) => role,
        Err(e) => {
            return Err(e);
        },
    };
    if role != Role::Owner {
        return Err(RpcError::msg(Code::PermissionDenied, "billing-account owner role required"));
    }
    Ok(())
}

/// The user owns the organization. Owning its billing account grants
/// nothing here: billing and organization memberships are orthogonal.
pub open spec fn owns_org(s: RepoState, user: Seq<char>, org: Organization) -> bool {
    s.org_memberships.contains_key((user, org.id@)) && s.org_memberships[(user, org.id@)].role == Role::Owner
}

pub open spec fn org_owner_check(s: RepoState, user: Seq<char>, org: Organization) -> Result<(), RpcErrorView> {
    if owns_org(s, user, org) {
        Ok(())
    } else {
        fails(Code::PermissionDenied, "org owner role required"@)
    }
}

pub fn require_org_or_billing_owner<R: MembershipRepo>(
    repo: &R,
    session: &SessionContext,
    org: &Organization,
) -> (r: Result<(), RpcError>)
    requires
        repo.inv(),
    ensures
        rpc_result(r) == org_owner_check(repo.model(), session.user@, *org),
{
    match repo.get_org_membership(&session.user, &org.id) {
        Ok(Some(m)) => {
            if m.role == Role::Owner {
                return Ok(());
            }
        },
        Ok(None) => {},
        Err(e) => {
            return Err(from_store_error(e));
        },
    }
    Err(RpcError::msg(Code::PermissionDenied, "org owner role required"))
}

/// The SSO configuration that governs a scope: the organization's own,
/// when an organization is given and has one, else the billing
/// account's, if any.
pub open spec fn governing_sso(s: RepoState, billing: Seq<char>, org: Option<Seq<char>>) -> Option<SsoConfig> {
    match org {
        Some(o) if s.sso_configs.contains_key((ScopeKind::Org, o)) => Some(
            s.sso_configs[(ScopeKind::Org, o)],
        ),
        _ => s.sso_configs.get((ScopeKind::Billing, billing)),
    }
}

pub open spec fn opt_id<T: View<V = Seq<char>>>(o: Option<&T>) -> Option<Seq<char>> {
    match o {
        Some(x) => Some(x@),
        None => None,
    }
}

pub fn resolve_required_sso<R: SsoConfigRepo>(
    repo: &R,
    billing: &BillingAccountId,
    org: Option<&OrgId>,
) -> (r: Result<Option<SsoConfig>, RpcError>)
    requires
        repo.inv(),
    ensures
        r matches Ok(c) && c == governing_sso(repo.model(), billing@, opt_id(org)),
{
    match org {
        Some(org_id) => {
            match repo.get_sso_config(ScopeKind::Org, org_id.as_str()) {
                Ok(Some(cfg)) => {
                    return Ok(Some(cfg));
                },
                Ok(None) => {},
                Err(e) => {
                    return Err(from_store_error(e));
                },
            }
        },
        None => {},
    }
    match repo.get_sso_config(ScopeKind::Billing, billing.as_str()) {
        Ok(cfg) => Ok(cfg),
        Err(e) => Err(from_store_error(e)),
    }
}

} // verus!
