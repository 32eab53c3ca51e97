//! The invitation service: looking at, accepting, declining, listing,
//! re-sending and revoking invitations.

use vstd::prelude::*;

use crate::auth::invitation_token::{
    invitation_verified, verify_invitation, InvitationTokenView, MintInvitationView,
};
use crate::auth::tokens::{result_view, TokenErrorView};
use crate::auth::SessionContext;
use crate::domain::enums::{AuthMethodView, ScopeTargetView};
use crate::domain::ids::{fresh_prefixed_id, prefixed_id};
use crate::domain::{
    AuthMethod, Duplicate, Invitation, InvitationId, InvitationStatus, Role, ScopeKind, ScopeTarget,
    TokenPurpose,
};
use crate::services::auth::only_repo_changed;
use crate::services::authz::{org_owner_check, require_org_or_billing_owner};
use crate::services::billing::opt_id_text;
use crate::services::common::{
    fetch_user, pending_check, role_wire, user_lookup, validate_pending_invitation,
};
use crate::services::convert::{ms_to_timestamp, role_to_pb, timestamp_of_ms, Timestamp};
use crate::services::error::{
    exists_as_precondition, fails, from_store_error, map_already_exists_as_precondition,
    map_token_error, rpc_err, rpc_result, store_rpc, token_rpc, via_store, Code, RpcError, RpcErrorView,
};
use crate::services::invite::{
    build_invitation_token, invitation_minted, invitation_refreshed, opt_string_view,
    refreshed_invitation,
};
use crate::services::ops::invitation_status_set;
use crate::services::org::org_lookup;
use crate::state::{clock_fits, unix_of, AppState};
use crate::store::error::StoreErrorView;
use crate::store::model::{
    invitation_applied, listed, scope_exists, scope_missing_message, looked_up, nonce_consumed, store_result, AcceptanceView, RepoState,
};
use crate::store::repo::invitation::pending_of_email;
use crate::store::repo::{InvitationAcceptance, Repo, RepoModel};
use crate::text::{concat, eq_ignore_ascii_case, eq_ignore_ascii_case_spec, str_eq};
use crate::time::unix_seconds;

verus! {

/// The handlers of the invitation service.
pub struct InvitationServer;

// ----- the message -----

/// An invitation as sent, with the name of the scope it invites into.
#[derive(Debug)]
pub struct InvitationInfo {
    pub id: String,
    pub email: String,
    pub scope_kind: ScopeKind,
    pub scope_id: String,
    pub scope_display_name: String,
    pub role: i32,
    pub inviter_user_id: String,
    pub expires_at: Timestamp,
    pub status: InvitationStatus,
    pub required_idp: Option<String>,
}

pub open spec fn invitation_info_of(r: InvitationInfo, i: Invitation, display_name: Seq<char>) -> bool {
    &&& r.id@ == i.id@
    &&& r.email == i.email
    &&& r.scope_kind == i.scope@.kind()
    &&& r.scope_id@ == i.scope@.id()
    &&& r.scope_display_name@ == display_name
    &&& r.role == role_wire(i.role)
    &&& r.inviter_user_id@ == opt_id_text(i.inviter_user_id)
    &&& r.expires_at == timestamp_of_ms(i.expires_at_ms as int)
    &&& r.status == i.status
    &&& r.required_idp == i.required_idp
}

pub fn invitation_to_pb_with_display(inv: Invitation, scope_display_name: String) -> (r: InvitationInfo)
    ensures
        invitation_info_of(r, inv, scope_display_name@),
{
    let scope_kind = inv.scope.scope_kind();
    let inviter_user_id = match &inv.inviter_user_id {
        Some(u) => u.to_string(),
        None => String::new(),
    };
    InvitationInfo {
        id: inv.id.to_string(),
        email: inv.email,
        scope_kind,
        scope_id: inv.scope.into_scope_id_string(),
        scope_display_name,
        role: role_to_pb(inv.role),
        inviter_user_id,
        expires_at: ms_to_timestamp(inv.expires_at_ms),
        status: inv.status,
        required_idp: inv.required_idp,
    }
}

/// The name of the scope an invitation is into, or nothing when the scope
/// is gone.
pub open spec fn scope_name(s: RepoState, scope: ScopeTargetView) -> Seq<char> {
    match scope {
        ScopeTargetView::Billing(id) => if s.billing_accounts.contains_key(id) {
            s.billing_accounts[id].display_name@
        } else {
            Seq::empty()
        },
        ScopeTargetView::Org(id) => if s.organizations.contains_key(id) {
            s.organizations[id].display_name@
        } else {
            Seq::empty()
        },
    }
}

fn scope_display_name<R: Repo>(repo: &R, invitation: &Invitation) -> (r: Result<String, RpcError>)
    requires
        repo.inv(),
    ensures
        r matches Ok(n) && n@ == scope_name(repo.model(), invitation.scope@),
{
    match &invitation.scope {
        ScopeTarget::Billing(id) => match repo.get_billing_account(id) {
            Ok(Some(a)) => Ok(a.display_name),
            Ok(None) => Ok(String::new()),
            Err(e) => Err(from_store_error(e)),
        },
        ScopeTarget::Org(id) => match repo.get_organization(id) {
            Ok(Some(o)) => Ok(o.display_name),
            Ok(None) => Ok(String::new()),
            Err(e) => Err(from_store_error(e)),
        },
    }
}

fn invitation_to_pb<R: Repo>(repo: &R, inv: Invitation) -> (r: Result<InvitationInfo, RpcError>)
    requires
        repo.inv(),
    ensures
        r matches Ok(info) && invitation_info_of(info, inv, scope_name(repo.model(), inv.scope@)),
{
    let name = match scope_display_name(repo, &inv) {
        Ok(n) => n,
        Err(e) => {
            return Err(e);
        },
    };
    Ok(invitation_to_pb_with_display(inv, name))
}

// ----- who manages an invitation -----

/// The inviter, or an owner of the scope, manages an invitation; for an
/// organization that is gone, it is not found.
pub open spec fn manager_check(s: RepoState, user: Seq<char>, i: Invitation) -> Result<(), RpcErrorView> {
    if i.inviter_user_id matches Some(u) && u@ == user {
        Ok(())
    } else {
        match i.scope@ {
            ScopeTargetView::Billing(b) => if s.billing_memberships.contains_key((user, b))
                && s.billing_memberships[(user, b)].role == Role::Owner {
                Ok(())
            } else {
                fails(Code::PermissionDenied, "only the inviter or a scope owner can manage this invitation"@)
            },
            ScopeTargetView::Org(o) => match org_lookup(s, o) {
                Err(e) => Err(e),
                Ok(org) => org_owner_check(s, user, org),
            },
        }
    }
}

fn require_inviter_or_owner<R: Repo>(repo: &R, session: &SessionContext, invitation: &Invitation) -> (r: Result<
    (),
    RpcError,
>)
    requires
        repo.inv(),
    ensures
        rpc_result(r) == manager_check(repo.model(), session.user@, *invitation),
{
    match &invitation.inviter_user_id {
        Some(u) => {
            if u.same_as(&session.user) {
                return Ok(());
            }
        },
        None => {},
    }
    match &invitation.scope {
        ScopeTarget::Billing(billing_id) => {
            match repo.get_billing_membership(&session.user, billing_id) {
                Ok(Some(m)) => {
                    if m.role == Role::Owner {
                        return Ok(());
                    }
                },
                Ok(None) => {},
                Err(e) => {
                    return Err(from_store_error(e));
                },
            }
            Err(
                RpcError::msg(
                    Code::PermissionDenied,
                    "only the inviter or a scope owner can manage this invitation",
                ),
            )
        },
        ScopeTarget::Org(org_id) => {
            let org = match repo.get_organization(org_id) {
                Ok(Some(o)) => o,
                Ok(None) => {
                    return Err(RpcError::msg(Code::NotFound, "organization not found"));
                },
                Err(e) => {
                    return Err(from_store_error(e));
                },
            };
            require_org_or_billing_owner(repo, session, &org)
        },
    }
}

// ----- outcomes of the token-carrying requests -----

/// What looking at an invitation by its token gives: the stored invitation
/// when the token verifies and still carries its current nonce.
pub open spec fn viewed(s: RepoState, key: Seq<u8>, now_unix: i64, token: Seq<char>, r: Result<InvitationInfo, RpcError>) -> bool {
    exists|v: Result<InvitationTokenView, TokenErrorView>|
        #[trigger] invitation_verified(key, now_unix, token, v) && match v {
            Err(te) => r matches Err(x) && x@ == token_rpc(te),
            Ok(inv) => if !s.invitations.contains_key(inv.invitation_id) {
                r matches Err(x) && x@ == rpc_err(Code::NotFound, "invitation not found"@)
            } else if s.invitations[inv.invitation_id].nonce@ != inv.nonce {
                r matches Err(x) && x@ == rpc_err(
                    Code::FailedPrecondition,
                    "invitation has been re-issued; use the latest link"@,
                )
            } else {
                r matches Ok(info) && invitation_info_of(
                    info,
                    s.invitations[inv.invitation_id],
                    scope_name(s, s.invitations[inv.invitation_id].scope@),
                )
            },
        }
}

/// The session's sign-in method is SSO through `idp`.
pub open spec fn signed_in_through(am: AuthMethodView, idp: Seq<char>) -> bool {
    am == AuthMethodView::Sso(idp)
}

/// What accepting an invitation hands back: the invitation, now accepted,
/// and the scope and role joined.
#[derive(Debug)]
pub struct AcceptedInvitation {
    pub invitation: InvitationInfo,
    pub scope_kind: ScopeKind,
    pub scope_id: String,
    pub role: i32,
}

pub open spec fn acceptance_of(inv: InvitationTokenView) -> AcceptanceView {
    AcceptanceView {
        invitation_id: inv.invitation_id,
        target: ScopeTargetView::from_parts(inv.scope_kind, inv.scope_id),
        role: inv.role,
    }
}

/// Accepting a verified invitation `inv` as the session's user.
pub open spec fn accepted_with(
    old: RepoState,
    new: RepoState,
    session: crate::auth::session::SessionView,
    now_ms: i64,
    inv: InvitationTokenView,
    r: Result<AcceptedInvitation, RpcError>,
) -> bool {
    match user_lookup(old.users, session.user) {
        Err(e) => r matches Err(x) && x@ == e && new == old,
        Ok(u) => if !eq_ignore_ascii_case_spec(inv.email, u.email@) {
            r matches Err(x) && x@ == rpc_err(
                Code::PermissionDenied,
                "this invitation was issued to a different email"@,
            ) && new == old
        } else if !old.invitations.contains_key(inv.invitation_id) {
            r matches Err(x) && x@ == rpc_err(Code::NotFound, "invitation no longer exists"@) && new == old
        } else if pending_check(old.invitations[inv.invitation_id], inv.nonce) is Err {
            r matches Err(x) && Err::<(), RpcErrorView>(x@) == pending_check(
                old.invitations[inv.invitation_id],
                inv.nonce,
            ) && new == old
        } else if inv.required_idp matches Some(idp) && !signed_in_through(session.auth_method, idp) {
            r matches Err(x) && x@ == rpc_err(
                Code::PermissionDenied,
                "this invitation requires SSO via "@ + inv.required_idp->0,
            ) && new == old
        } else if old.consumed_nonces.contains_key(inv.nonce) {
            r matches Err(x) && x@ == rpc_err(Code::FailedPrecondition, "invitation already accepted"@)
                && new == old
        } else if !scope_exists(old, acceptance_of(inv).target) {
            r matches Err(x) && x@ == store_rpc(StoreErrorView::NotFound(scope_missing_message(acceptance_of(inv).target)))
                && new == old
        } else {
            exists|mid: RepoState, res: Result<(), StoreErrorView>|
                #[trigger] invitation_applied(mid, new, u.id@, acceptance_of(inv), now_ms, res) && res is Ok && {
                    &&& mid.consumed_nonces[inv.nonce].0@ == "invitation"@
                    &&& mid.consumed_nonces[inv.nonce].1 == now_ms
                    &&& mid == (RepoState {
                        consumed_nonces: old.consumed_nonces.insert(inv.nonce, mid.consumed_nonces[inv.nonce]),
                        ..old
                    })
                    &&& match res {
                        Err(e) => r matches Err(x) && x@ == exists_as_precondition(e, "invitation already accepted"@),
                        Ok(()) => r matches Ok(out) && invitation_info_of(
                            out.invitation,
                            Invitation { status: InvitationStatus::Accepted, ..old.invitations[inv.invitation_id] },
                            scope_name(new, old.invitations[inv.invitation_id].scope@),
                        ) && out.scope_kind == inv.scope_kind && out.scope_id@ == inv.scope_id && out.role
                            == role_wire(inv.role),
                    }
                }
        },
    }
}

pub open spec fn accept_outcome(
    old: RepoState,
    new: RepoState,
    key: Seq<u8>,
    now_ms: i64,
    session: crate::auth::session::SessionView,
    token: Seq<char>,
    r: Result<AcceptedInvitation, RpcError>,
) -> bool {
    exists|v: Result<InvitationTokenView, TokenErrorView>|
        #[trigger] invitation_verified(key, unix_of(now_ms), token, v) && match v {
            Err(te) => r matches Err(x) && x@ == token_rpc(te) && new == old,
            Ok(inv) => accepted_with(old, new, session, now_ms, inv, r),
        }
}

/// Declining by token: the token's nonce is consumed (a second answer is
/// refused) and the invitation marked declined.
pub open spec fn decline_outcome(
    old: RepoState,
    new: RepoState,
    key: Seq<u8>,
    now_ms: i64,
    token: Seq<char>,
    r: Result<(), RpcErrorView>,
) -> bool {
    exists|v: Result<InvitationTokenView, TokenErrorView>|
        #[trigger] invitation_verified(key, unix_of(now_ms), token, v) && match v {
            Err(te) => r == Err::<(), RpcErrorView>(token_rpc(te)) && new == old,
            Ok(inv) => declined_with(old, new, now_ms, inv, r),
        }
}

/// Declining the verified invitation `inv`.
pub open spec fn declined_with(
    old: RepoState,
    new: RepoState,
    now_ms: i64,
    inv: InvitationTokenView,
    r: Result<(), RpcErrorView>,
) -> bool {
    exists|mid: RepoState, cr: Result<(), StoreErrorView>|
        #[trigger] nonce_consumed(old, mid, inv.nonce, "invitation"@, now_ms, cr) && match cr {
            Err(e) => r == Err::<(), RpcErrorView>(exists_as_precondition(e, "invitation already responded to"@))
                && new == mid,
            Ok(()) => exists|res: Result<(), StoreErrorView>|
                #[trigger] invitation_status_set(mid, new, inv.invitation_id, InvitationStatus::Declined, res)
                    && r == via_store(res),
        }
}

/// Re-sending an invitation: the inviter or a scope owner gets it a fresh
/// nonce `inv_<uuid>` and expiry, pending again, and a new token.
pub open spec fn resend_outcome(
    old: RepoState,
    new: RepoState,
    key: Seq<u8>,
    ttl: i64,
    now_ms: i64,
    user: Seq<char>,
    id: Seq<char>,
    r: Result<(InvitationInfo, String), RpcError>,
) -> bool {
    if !old.invitations.contains_key(id) {
        r matches Err(x) && x@ == rpc_err(Code::NotFound, "invitation not found"@) && new == old
    } else {
        let i = old.invitations[id];
        match manager_check(old, user, i) {
            Err(e) => r matches Err(x) && x@ == e && new == old,
            Ok(()) => exists|nu: Seq<char>|
                #![trigger prefixed_id("inv"@, nu)]
                nu.len() == 36 && invitation_refreshed(old, new, id, prefixed_id("inv"@, nu), (now_ms + ttl * 1000) as i64)
                    && invitation_minted(
                    key,
                    MintInvitationView {
                        invitation_id: id,
                        email: i.email@,
                        scope_kind: i.scope@.kind(),
                        scope_id: i.scope@.id(),
                        role: i.role,
                        required_idp: opt_string_view(i.required_idp),
                        nonce: prefixed_id("inv"@, nu),
                        now_unix: unix_of(now_ms),
                        ttl_seconds: ttl,
                    },
                    match r {
                        Ok((_, t)) => Ok(t@),
                        Err(e) => Err(e@),
                    },
                ) && (r matches Ok((info, _)) ==> invitation_info_of(
                    info,
                    new.invitations[id],
                    scope_name(new, i.scope@),
                )),
        }
    }
}

/// Revoking an invitation: the inviter or a scope owner rotates its nonce
/// to `inv_revoked_<uuid>` (outstanding links stop working) and marks it
/// revoked.
pub open spec fn revoke_outcome(old: RepoState, new: RepoState, user: Seq<char>, id: Seq<char>, r: Result<(), RpcErrorView>) -> bool {
    if !old.invitations.contains_key(id) {
        r == fails::<()>(Code::NotFound, "invitation not found"@) && new == old
    } else {
        match manager_check(old, user, old.invitations[id]) {
            Err(e) => r == Err::<(), RpcErrorView>(e) && new == old,
            Ok(()) => exists|nu: Seq<char>, mid: RepoState|
                #![trigger invitation_refreshed(old, mid, id, prefixed_id("inv_revoked"@, nu), 0)]
                nu.len() == 36 && invitation_refreshed(old, mid, id, prefixed_id("inv_revoked"@, nu), 0)
                    && invitation_status_set(mid, new, id, InvitationStatus::Revoked, Ok(())) && r is Ok,
        }
    }
}

/// `v` presents the pending invitations of `email`, each with the name of
/// its scope.
pub open spec fn pending_listing(s: RepoState, email: Seq<char>, v: Seq<InvitationInfo>) -> bool {
    exists|invs: Seq<Invitation>|
        #[trigger] listed(s.invitations, invs, pending_of_email(email)) && v.len() == invs.len() && forall|t: int|
            0 <= t < invs.len() ==> invitation_info_of(#[trigger] v[t], invs[t], scope_name(s, invs[t].scope@))
}

/// The display name of a scope from batch lookups of accounts and
/// organizations.
pub open spec fn listed_scope_name(
    billings: Seq<(String, crate::domain::BillingAccount)>,
    orgs: Seq<(String, crate::domain::Organization)>,
    scope: ScopeTargetView,
    name: Seq<char>,
) -> bool {
    match scope {
        ScopeTargetView::Billing(id) => if exists|t: int| 0 <= t < billings.len() && (#[trigger] billings[t]).0@ == id {
            exists|t: int| 0 <= t < billings.len() && (#[trigger] billings[t]).0@ == id && name == billings[t].1.display_name@
        } else {
            name == Seq::<char>::empty()
        },
        ScopeTargetView::Org(id) => if exists|t: int| 0 <= t < orgs.len() && (#[trigger] orgs[t]).0@ == id {
            exists|t: int| 0 <= t < orgs.len() && (#[trigger] orgs[t]).0@ == id && name == orgs[t].1.display_name@
        } else {
            name == Seq::<char>::empty()
        },
    }
}

fn billing_name_for(v: &Vec<(String, crate::domain::BillingAccount)>, id: &str) -> (r: String)
    ensures
        if exists|t: int| 0 <= t < v@.len() && (#[trigger] v@[t]).0@ == id@ {
            exists|t: int| 0 <= t < v@.len() && (#[trigger] v@[t]).0@ == id@ && r@ == v@[t].1.display_name@
        } else {
            r@ == Seq::<char>::empty()
        },
{
    let mut i: usize = 0;
    while i < v.len()
        invariant
            i <= v@.len(),
            forall|t: int| 0 <= t < i ==> (#[trigger] v@[t]).0@ != id@,
        decreases v.len() - i,
    {
        if str_eq(v[i].0.as_str(), id) {
            return v[i].1.display_name.duplicate();
        }
        i = i + 1;
    }
    String::new()
}

fn org_name_for(v: &Vec<(String, crate::domain::Organization)>, id: &str) -> (r: String)
    ensures
        if exists|t: int| 0 <= t < v@.len() && (#[trigger] v@[t]).0@ == id@ {
            exists|t: int| 0 <= t < v@.len() && (#[trigger] v@[t]).0@ == id@ && r@ == v@[t].1.display_name@
        } else {
            r@ == Seq::<char>::empty()
        },
{
    let mut i: usize = 0;
    while i < v.len()
        invariant
            i <= v@.len(),
            forall|t: int| 0 <= t < i ==> (#[trigger] v@[t]).0@ != id@,
        decreases v.len() - i,
    {
        if str_eq(v[i].0.as_str(), id) {
            return v[i].1.display_name.duplicate();
        }
        i = i + 1;
    }
    String::new()
}

impl InvitationServer {
    /// Look at an invitation by its token.
    pub fn get_invitation<R: Repo, B, C>(state: &AppState<R, B, C>, now_ms: i64, token: &str) -> (r: Result<
        InvitationInfo,
        RpcError,
    >)
        requires
            state.repo.inv(),
        ensures
            viewed(state.repo.model(), state.keyring@, unix_of(now_ms), token@, r),
    {
        let now_unix = unix_seconds(now_ms);
        let vr = verify_invitation(&state.keyring, now_unix, token);
        let ghost v = result_view(vr);
        assert(invitation_verified(state.keyring@, unix_of(now_ms), token@, v));
        let parsed = match vr {
            Ok(p) => p,
            Err(e) => {
                return Err(map_token_error(e));
            },
        };
        let stored = match state.repo.get_invitation(&parsed.invitation_id) {
            Ok(Some(i)) => i,
            Ok(None) => {
                return Err(RpcError::msg(Code::NotFound, "invitation not found"));
            },
            Err(e) => {
                return Err(from_store_error(e));
            },
        };
        if !str_eq(stored.nonce.as_str(), parsed.nonce.as_str()) {
            return Err(
                RpcError::msg(
                    Code::FailedPrecondition,
                    "invitation has been re-issued; use the latest link",
                ),
            );
        }
        invitation_to_pb(&state.repo, stored)
    }

    /// Accept an invitation as the signed-in user.
    pub fn accept_invitation<R: Repo, B, C>(
        state: &mut AppState<R, B, C>,
        session: &SessionContext,
        now_ms: i64,
        token: &str,
    ) -> (r: Result<AcceptedInvitation, RpcError>)
        requires
            old(state).repo.inv(),
        ensures
            final(state).repo.inv(),
            only_repo_changed(*old(state), *final(state)),
            accept_outcome(
                old(state).repo.model(),
                final(state).repo.model(),
                old(state).keyring@,
                now_ms,
                session@,
                token@,
                r,
            ),
    {
        let ghost old_s = state.repo.model();
        let now_unix = unix_seconds(now_ms);
        let vr = verify_invitation(&state.keyring, now_unix, token);
        let ghost v = result_view(vr);
        assert(invitation_verified(state.keyring@, unix_of(now_ms), token@, v));
        let parsed = match vr {
            Ok(p) => p,
            Err(e) => {
                return Err(map_token_error(e));
            },
        };
        let user = match fetch_user(&state.repo, &session.user) {
            Ok(u) => u,
            Err(e) => {
                return Err(e);
            },
        };
        if !eq_ignore_ascii_case(parsed.email.as_str(), user.email.as_str()) {
            return Err(
                RpcError::msg(Code::PermissionDenied, "this invitation was issued to a different email"),
            );
        }
        let stored = match state.repo.get_invitation(&parsed.invitation_id) {
            Ok(Some(i)) => i,
            Ok(None) => {
                return Err(RpcError::msg(Code::NotFound, "invitation no longer exists"));
            },
            Err(e) => {
                return Err(from_store_error(e));
            },
        };
        match validate_pending_invitation(&stored, parsed.nonce.as_str()) {
            Ok(()) => {},
            Err(e) => {
                return Err(e);
            },
        }
        match &parsed.required_idp {
            Some(idp) => {
                let through = match &session.auth_method {
                    AuthMethod::Sso(s) => str_eq(s.as_str(), idp.as_str()),
                    AuthMethod::Password => false,
                };
                if !through {
                    proof {
                        reveal_strlit("this invitation requires SSO via ");
                    }
                    return Err(
                        RpcError::new(
                            Code::PermissionDenied,
                            concat("this invitation requires SSO via ", idp.as_str()),
                        ),
                    );
                }
            },
            None => {},
        }
        let acceptance = InvitationAcceptance {
            invitation_id: parsed.invitation_id.duplicate(),
            target: ScopeTarget::from_parts(parsed.scope_kind, parsed.scope_id.duplicate()),
            role: parsed.role,
        };
        assert(acceptance@ == acceptance_of(parsed@));
        let accepted = state.repo.accept_invitation_existing_user(
            &user.id,
            acceptance,
            parsed.nonce.as_str(),
            now_ms,
        );
        match accepted {
            Ok(()) => {},
            Err(e) => {
                proof {
                    reveal_strlit("invitation");
                }
                return Err(map_already_exists_as_precondition(e, "invitation already accepted"));
            },
        }
        let mut invitation = stored;
        invitation.status = InvitationStatus::Accepted;
        let info = match invitation_to_pb(&state.repo, invitation) {
            Ok(i) => i,
            Err(e) => {
                return Err(e);
            },
        };
        Ok(
            AcceptedInvitation {
                invitation: info,
                scope_kind: parsed.scope_kind,
                scope_id: parsed.scope_id,
                role: role_to_pb(parsed.role),
            },
        )
    }

    /// Decline an invitation by its token; the link stops working.
    pub fn decline_invitation<R: Repo, B, C>(state: &mut AppState<R, B, C>, now_ms: i64, token: &str) -> (r:
        Result<(), RpcError>)
        requires
            old(state).repo.inv(),
        ensures
            final(state).repo.inv(),
            only_repo_changed(*old(state), *final(state)),
            decline_outcome(
                old(state).repo.model(),
                final(state).repo.model(),
                old(state).keyring@,
                now_ms,
                token@,
                rpc_result(r),
            ),
    {
        let ghost old_s = state.repo.model();
        let now_unix = unix_seconds(now_ms);
        let vr = verify_invitation(&state.keyring, now_unix, token);
        let ghost v = result_view(vr);
        assert(invitation_verified(state.keyring@, unix_of(now_ms), token@, v));
        let parsed = match vr {
            Ok(p) => p,
            Err(e) => {
                return Err(map_token_error(e));
            },
        };
        proof {
            reveal_strlit("invitation");
        }
        let consumed = state.repo.consume_nonce(
            parsed.nonce.as_str(),
            TokenPurpose::Invitation.as_str(),
            now_ms,
        );
        let ghost mid = state.repo.model();
        let ghost cr = store_result(consumed);
        assert(nonce_consumed(old_s, mid, parsed.nonce@, "invitation"@, now_ms, cr));
        match consumed {
            Ok(()) => {},
            Err(e) => {
                let re = map_already_exists_as_precondition(e, "invitation already responded to");
                assert(parsed@.nonce == parsed.nonce@);
                assert(nonce_consumed(old_s, mid, parsed@.nonce, "invitation"@, now_ms, cr));
                assert(cr == Err::<(), StoreErrorView>(e@));
                assert(re@ == exists_as_precondition(e@, "invitation already responded to"@));
                assert(declined_with(old_s, mid, now_ms, parsed@, Err(re@)));
                return Err(re);
            },
        }
        let updated = state.repo.update_invitation_status(&parsed.invitation_id, InvitationStatus::Declined);
        let ghost res = store_result(updated);
        assert(invitation_status_set(mid, state.repo.model(), parsed.invitation_id@, InvitationStatus::Declined, res));
        let r = match updated {
            Ok(()) => Ok(()),
            Err(e) => Err(from_store_error(e)),
        };
        assert(parsed@.nonce == parsed.nonce@ && parsed@.invitation_id == parsed.invitation_id@);
        assert(nonce_consumed(old_s, mid, parsed@.nonce, "invitation"@, now_ms, Ok(())));
        assert(declined_with(old_s, state.repo.model(), now_ms, parsed@, rpc_result(r)));
        r
    }

    /// The pending invitations of the signed-in user's email, each with the
    /// name of its scope.
    pub fn list_pending_invitations<R: Repo, B, C>(state: &AppState<R, B, C>, session: &SessionContext) -> (r:
        Result<Vec<InvitationInfo>, RpcError>)
        requires
            state.repo.inv(),
        ensures
            ({
                let s = state.repo.model();
                match user_lookup(s.users, session.user@) {
                    Err(e) => r matches Err(x) && x@ == e,
                    Ok(u) => r matches Ok(v) && pending_listing(s, u.email@, v@),
                }
            }),
    {
        let repo = &state.repo;
        proof {
            repo.lemma_model_wf();
        }
        let user = match fetch_user(repo, &session.user) {
            Ok(u) => u,
            Err(e) => {
                return Err(e);
            },
        };
        let invs = match repo.list_pending_invitations_by_email(user.email.as_str()) {
            Ok(v) => v,
            Err(e) => {
                return Err(from_store_error(e));
            },
        };
        let ghost is = invs@;
        assert(listed(repo.model().invitations, is, pending_of_email(user.email@)));
        let mut billing_ids: Vec<&str> = Vec::new();
        let mut org_ids: Vec<&str> = Vec::new();
        let mut i: usize = 0;
        while i < invs.len()
            invariant
                i <= invs@.len(),
                is == invs@,
                forall|t: int|
                    0 <= t < i ==> requested_in(billing_ids@, org_ids@, #[trigger] is[t].scope@),
            decreases invs.len() - i,
        {
            let ghost before_b = billing_ids@;
            let ghost before_o = org_ids@;
            match invs[i].scope.scope_kind() {
                ScopeKind::Billing => billing_ids.push(invs[i].scope.scope_id_str()),
                ScopeKind::Org => org_ids.push(invs[i].scope.scope_id_str()),
            }
            proof {
                assert forall|t: int| 0 <= t <= i implies requested_in(billing_ids@, org_ids@, #[trigger] is[t].scope@) by {
                    if t < i {
                        assert(requested_in(before_b, before_o, is[t].scope@));
                        match is[t].scope@ {
                            ScopeTargetView::Billing(id) => {
                                let q = choose|q: int| 0 <= q < before_b.len() && (#[trigger] before_b[q])@ == id;
                                assert(billing_ids@[q] == before_b[q]);
                            },
                            ScopeTargetView::Org(id) => {
                                let q = choose|q: int| 0 <= q < before_o.len() && (#[trigger] before_o[q])@ == id;
                                assert(org_ids@[q] == before_o[q]);
                            },
                        }
                    } else {
                        match is[t].scope@ {
                            ScopeTargetView::Billing(id) => {
                                assert(billing_ids@[before_b.len() as int]@ == id);
                            },
                            ScopeTargetView::Org(id) => {
                                assert(org_ids@[before_o.len() as int]@ == id);
                            },
                        }
                    }
                }
            }
            i = i + 1;
        }
        let billings = match repo.get_billing_accounts_by_ids(billing_ids.as_slice()) {
            Ok(v) => v,
            Err(e) => {
                return Err(from_store_error(e));
            },
        };
        let orgs = match repo.get_organizations_by_ids(org_ids.as_slice()) {
            Ok(v) => v,
            Err(e) => {
                return Err(from_store_error(e));
            },
        };
        let ghost bm = repo.model().billing_accounts;
        let ghost om = repo.model().organizations;
        assert(looked_up(bm, billing_ids@.map_values(|x: &str| x@), billings@));
        assert(looked_up(om, org_ids@.map_values(|x: &str| x@), orgs@));
        let mut out: Vec<InvitationInfo> = Vec::new();
        let mut j: usize = 0;
        while j < invs.len()
            invariant
                j <= invs@.len(),
                out@.len() == j,
                is == invs@,
                forall|t: int| 0 <= t < is.len() ==> requested_in(billing_ids@, org_ids@, #[trigger] is[t].scope@),
                forall|t: int| 0 <= t < billings@.len() ==> bm.contains_key((#[trigger] billings@[t]).0@)
                    && billings@[t].1 == bm[billings@[t].0@],
                forall|t: int| 0 <= t < orgs@.len() ==> om.contains_key((#[trigger] orgs@[t]).0@)
                    && orgs@[t].1 == om[orgs@[t].0@],
                forall|t: int| 0 <= t < j ==> listed_scope_name(billings@, orgs@, is[t].scope@, (#[trigger] out@[t]).scope_display_name@)
                    && invitation_info_of(out@[t], is[t], out@[t].scope_display_name@),
            decreases invs.len() - j,
        {
            let name = match &invs[j].scope {
                ScopeTarget::Billing(id) => billing_name_for(&billings, id.as_str()),
                ScopeTarget::Org(id) => org_name_for(&orgs, id.as_str()),
            };
            out.push(invitation_to_pb_with_display(invs[j].duplicate(), name));
            j = j + 1;
        }
        proof {
            assert forall|t: int| 0 <= t < is.len() implies invitation_info_of(
                #[trigger] out@[t],
                is[t],
                scope_name(repo.model(), is[t].scope@),
            ) by {
                assert(requested_in(billing_ids@, org_ids@, is[t].scope@));
                lemma_listed_name(billings@, orgs@, repo.model(), is[t].scope@, out@[t].scope_display_name@, billing_ids@, org_ids@);
            }
            assert(listed(repo.model().invitations, is, pending_of_email(user.email@)));
            assert(user_lookup(repo.model().users, session.user@) == Ok::<crate::domain::User, RpcErrorView>(user));
            assert(out@.len() == is.len());
            assert(pending_listing(repo.model(), user.email@, out@));
        }
        Ok(out)
    }

    /// Re-send an invitation under a fresh nonce, as its inviter or a scope
    /// owner.
    pub fn resend_invitation<R: Repo, B, C>(
        state: &mut AppState<R, B, C>,
        session: &SessionContext,
        now_ms: i64,
        invitation_id: &str,
    ) -> (r: Result<(InvitationInfo, String), RpcError>)
        requires
            old(state).repo.inv(),
            clock_fits(old(state).config, now_ms),
        ensures
            final(state).repo.inv(),
            only_repo_changed(*old(state), *final(state)),
            resend_outcome(
                old(state).repo.model(),
                final(state).repo.model(),
                old(state).keyring@,
                old(state).config.invitation_ttl_seconds,
                now_ms,
                session.user@,
                invitation_id@,
                r,
            ),
    {
        let ghost old_s = state.repo.model();
        proof {
            state.repo.lemma_model_wf();
        }
        let id = InvitationId::from_string(String::from_str(invitation_id));
        let mut invitation = match state.repo.get_invitation(&id) {
            Ok(Some(i)) => i,
            Ok(None) => {
                return Err(RpcError::msg(Code::NotFound, "invitation not found"));
            },
            Err(e) => {
                return Err(from_store_error(e));
            },
        };
        match require_inviter_or_owner(&state.repo, session, &invitation) {
            Ok(()) => {},
            Err(e) => {
                return Err(e);
            },
        }
        let now_unix = unix_seconds(now_ms);
        proof {
            reveal_strlit("inv");
        }
        let new_nonce = fresh_prefixed_id("inv");
        let ghost nu = choose|u: Seq<char>| u.len() == 36 && new_nonce@ == prefixed_id("inv"@, u);
        let new_expiry = now_ms + state.config.invitation_ttl_seconds * 1000;
        let fresh = new_nonce.duplicate();
        let ghost ns = fresh;
        match state.repo.refresh_invitation_token(&invitation.id, fresh, new_expiry) {
            Ok(()) => {},
            Err(e) => {
                return Err(from_store_error(e));
            },
        }
        assert(state.repo.model() == (RepoState {
            invitations: old_s.invitations.insert(invitation_id@, refreshed_invitation(old_s.invitations[invitation_id@], ns, new_expiry)),
            ..old_s
        }));
        invitation.nonce = new_nonce.duplicate();
        invitation.expires_at_ms = new_expiry;
        invitation.status = InvitationStatus::Pending;
        let required = match &invitation.required_idp {
            Some(s) => Some(s.as_str()),
            None => None,
        };
        let token = match build_invitation_token(
            &state.keyring,
            state.config.invitation_ttl_seconds,
            &invitation.id,
            invitation.email.as_str(),
            invitation.scope.scope_kind(),
            invitation.scope.scope_id_str(),
            invitation.role,
            required,
            new_nonce.as_str(),
            now_unix,
        ) {
            Ok(t) => t,
            Err(e) => {
                return Err(e);
            },
        };
        let info = match invitation_to_pb(&state.repo, invitation) {
            Ok(i) => i,
            Err(e) => {
                return Err(e);
            },
        };
        Ok((info, token))
    }

    /// Revoke an invitation, as its inviter or a scope owner.
    pub fn revoke_invitation<R: Repo, B, C>(state: &mut AppState<R, B, C>, session: &SessionContext, invitation_id: &str) -> (r:
        Result<(), RpcError>)
        requires
            old(state).repo.inv(),
        ensures
            final(state).repo.inv(),
            only_repo_changed(*old(state), *final(state)),
            revoke_outcome(old(state).repo.model(), final(state).repo.model(), session.user@, invitation_id@, rpc_result(r)),
    {
        let ghost old_s = state.repo.model();
        proof {
            state.repo.lemma_model_wf();
        }
        let id = InvitationId::from_string(String::from_str(invitation_id));
        let invitation = match state.repo.get_invitation(&id) {
            Ok(Some(i)) => i,
            Ok(None) => {
                return Err(RpcError::msg(Code::NotFound, "invitation not found"));
            },
            Err(e) => {
                return Err(from_store_error(e));
            },
        };
        match require_inviter_or_owner(&state.repo, session, &invitation) {
            Ok(()) => {},
            Err(e) => {
                return Err(e);
            },
        }
        proof {
            reveal_strlit("inv_revoked");
        }
        let new_nonce = fresh_prefixed_id("inv_revoked");
        let ghost nu = choose|u: Seq<char>| u.len() == 36 && new_nonce@ == prefixed_id("inv_revoked"@, u);
        let ghost ns = new_nonce;
        match state.repo.refresh_invitation_token(&invitation.id, new_nonce, 0) {
            Ok(()) => {},
            Err(e) => {
                return Err(from_store_error(e));
            },
        }
        let ghost mid = state.repo.model();
        assert(mid == (RepoState {
            invitations: old_s.invitations.insert(invitation_id@, refreshed_invitation(old_s.invitations[invitation_id@], ns, 0)),
            ..old_s
        }));
        assert(invitation_refreshed(old_s, mid, invitation_id@, prefixed_id("inv_revoked"@, nu), 0));
        match state.repo.update_invitation_status(&invitation.id, InvitationStatus::Revoked) {
            Ok(()) => {},
            Err(e) => {
                return Err(from_store_error(e));
            },
        }
        Ok(())
    }
}

/// The scope's id was asked for in the batch lookup of its kind.
pub open spec fn requested_in(bids: Seq<&str>, oids: Seq<&str>, scope: ScopeTargetView) -> bool {
    match scope {
        ScopeTargetView::Billing(id) => exists|q: int| 0 <= q < bids.len() && (#[trigger] bids[q])@ == id,
        ScopeTargetView::Org(id) => exists|q: int| 0 <= q < oids.len() && (#[trigger] oids[q])@ == id,
    }
}

/// A name read from batch lookups of stored accounts and organizations,
/// for a scope whose id was asked for, is the stored scope's name.
proof fn lemma_listed_name(
    billings: Seq<(String, crate::domain::BillingAccount)>,
    orgs: Seq<(String, crate::domain::Organization)>,
    s: RepoState,
    scope: ScopeTargetView,
    name: Seq<char>,
    bids: Seq<&str>,
    oids: Seq<&str>,
)
    requires
        looked_up(s.billing_accounts, bids.map_values(|x: &str| x@), billings),
        looked_up(s.organizations, oids.map_values(|x: &str| x@), orgs),
        requested_in(bids, oids, scope),
        listed_scope_name(billings, orgs, scope, name),
    ensures
        name == scope_name(s, scope),
{
    match scope {
        ScopeTargetView::Billing(id) => {
            let ids = bids.map_values(|x: &str| x@);
            let q = choose|q: int| 0 <= q < bids.len() && (#[trigger] bids[q])@ == id;
            assert(ids[q] == id);
            if exists|t: int| 0 <= t < billings.len() && (#[trigger] billings[t]).0@ == id {
                let t = choose|t: int| 0 <= t < billings.len() && (#[trigger] billings[t]).0@ == id && name == billings[t].1.display_name@;
                assert(s.billing_accounts.contains_key(billings[t].0@));
            } else {
                if s.billing_accounts.contains_key(id) {
                    assert(s.billing_accounts.contains_key(ids[q]));
                    let t = choose|t: int| 0 <= t < billings.len() && (#[trigger] billings[t]).0@ == ids[q];
                    assert(billings[t].0@ == id);
                }
            }
        },
        ScopeTargetView::Org(id) => {
            let ids = oids.map_values(|x: &str| x@);
            let q = choose|q: int| 0 <= q < oids.len() && (#[trigger] oids[q])@ == id;
            assert(ids[q] == id);
            if exists|t: int| 0 <= t < orgs.len() && (#[trigger] orgs[t]).0@ == id {
                let t = choose|t: int| 0 <= t < orgs.len() && (#[trigger] orgs[t]).0@ == id && name == orgs[t].1.display_name@;
                assert(s.organizations.contains_key(orgs[t].0@));
            } else {
                if s.organizations.contains_key(id) {
                    assert(s.organizations.contains_key(ids[q]));
                    let t = choose|t: int| 0 <= t < orgs.len() && (#[trigger] orgs[t]).0@ == ids[q];
                    assert(orgs[t].0@ == id);
                }
            }
        },
    }
}

} // verus!
