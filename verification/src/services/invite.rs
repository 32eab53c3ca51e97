//! Inviting someone into a billing account or an organization: the stored
//! invitation (a fresh one, or a pending one re-issued under a new nonce)
//! and the invitation token that carries it.

use vstd::prelude::*;

use crate::auth::invitation_token::{
    invitation_identifier, invitation_predicates, invitation_token, mint_invitation,
    MintInvitationInput, MintInvitationView,
};
use crate::auth::keyring::Keyring;
use crate::auth::tokens::{mintable, TokenErrorView};
use crate::domain::enums::ScopeTargetView;
use crate::domain::ids::{fresh_prefixed_id, prefixed_id};
use crate::domain::{
    BillingAccountId, Duplicate, Invitation, InvitationId, InvitationStatus, OrgId, Role, ScopeKind,
    ScopeTarget, SsoConfig, UserId,
};
use crate::services::authz::{governing_sso, resolve_required_sso};
use crate::services::common::{email_check, role_from_i32, role_of_wire, validate_email};
use crate::services::error::{from_store_error, map_token_error, token_rpc, RpcError, RpcErrorView};
use crate::state::unix_of;
use crate::store::model::RepoState;
use crate::store::repo::invitation::{pending_exists, pending_in_scope};
use crate::store::repo::{Repo, RepoModel};
use crate::time::unix_seconds;

verus! {

// ----- the token -----

/// What minting the invitation token `v` gives: the token, or the token
/// error when a field is too large for a token.
pub open spec fn invitation_minted(key: Seq<u8>, v: MintInvitationView, r: Result<Seq<char>, RpcErrorView>) -> bool {
    if mintable(invitation_identifier(v.invitation_id), invitation_predicates(v)) {
        r == Ok::<Seq<char>, RpcErrorView>(invitation_token(key, v))
    } else {
        exists|m: Seq<char>| r == Err::<Seq<char>, RpcErrorView>(token_rpc(TokenErrorView::Malformed(m)))
    }
}

pub open spec fn string_result(r: Result<String, RpcError>) -> Result<Seq<char>, RpcErrorView> {
    match r {
        Ok(s) => Ok(s@),
        Err(e) => Err(e@),
    }
}

pub fn build_invitation_token(
    keyring: &Keyring,
    ttl_seconds: i64,
    invitation_id: &InvitationId,
    email: &str,
    scope_kind: ScopeKind,
    scope_id: &str,
    role: Role,
    required_idp: Option<&str>,
    nonce: &str,
    now_unix: i64,
) -> (r: Result<String, RpcError>)
    requires
        i64::MIN <= now_unix + ttl_seconds <= i64::MAX,
    ensures
        invitation_minted(
            keyring@,
            MintInvitationView {
                invitation_id: invitation_id@,
                email: email@,
                scope_kind,
                scope_id: scope_id@,
                role,
                required_idp: match required_idp {
                    Some(s) => Some(s@),
                    None => None,
                },
                nonce: nonce@,
                now_unix,
                ttl_seconds,
            },
            string_result(r),
        ),
{
    match mint_invitation(
        keyring,
        MintInvitationInput {
            invitation_id,
            email,
            scope_kind,
            scope_id,
            role,
            required_idp,
            nonce,
            now_unix,
            ttl_seconds,
        },
    ) {
        Ok(t) => Ok(t),
        Err(e) => Err(map_token_error(e)),
    }
}

// ----- the invitation -----

/// The identity provider an invitation is frozen to: the governing SSO
/// configuration's, when it requires SSO.
pub open spec fn required_idp_of(c: Option<SsoConfig>) -> Option<Seq<char>> {
    match c {
        Some(cfg) => if cfg.required {
            Some(cfg.idp_id@)
        } else {
            None
        },
        None => None,
    }
}

pub open spec fn org_of(scope: ScopeTargetView) -> Option<Seq<char>> {
    match scope {
        ScopeTargetView::Org(id) => Some(id),
        ScopeTargetView::Billing(_) => None,
    }
}

pub open spec fn opt_string_view(o: Option<String>) -> Option<Seq<char>> {
    match o {
        Some(s) => Some(s@),
        None => None,
    }
}

/// `i` with the nonce `ns` and expiry `exp`, pending again.
pub open spec fn refreshed_invitation(i: Invitation, ns: String, exp: i64) -> Invitation {
    Invitation { nonce: ns, expires_at_ms: exp, status: InvitationStatus::Pending, ..i }
}

/// The invitation `id` got the nonce `nonce` and expiry `exp`, pending again.
pub open spec fn invitation_refreshed(old: RepoState, new: RepoState, id: Seq<char>, nonce: Seq<char>, exp: i64) -> bool {
    exists|ns: String|
        ns@ == nonce && new == (RepoState {
            invitations: old.invitations.insert(id, #[trigger] refreshed_invitation(old.invitations[id], ns, exp)),
            ..old
        })
}

/// `i` is the new pending invitation with these fields.
pub open spec fn new_invitation(
    i: Invitation,
    id: Seq<char>,
    scope: ScopeTargetView,
    email: Seq<char>,
    role: Role,
    inviter: Seq<char>,
    idp: Option<Seq<char>>,
    nonce: Seq<char>,
    exp: i64,
    now_ms: i64,
) -> bool {
    &&& i.id@ == id
    &&& i.scope@ == scope
    &&& i.email@ == email
    &&& i.role == role
    &&& i.inviter_user_id matches Some(u) && u@ == inviter
    &&& opt_string_view(i.required_idp) == idp
    &&& i.nonce@ == nonce
    &&& i.expires_at_ms == exp
    &&& i.status == InvitationStatus::Pending
    &&& i.created_at_ms == now_ms
}

/// Who is invited where, with what role, by whom.
pub struct InviteMemberParams<'a> {
    pub email: &'a str,
    pub role_i32: i32,
    pub inviter_user_id: &'a UserId,
    pub scope: ScopeTarget,
    pub billing_account_id: &'a BillingAccountId,
}

/// The invitation and the token that redeems it.
#[derive(Debug)]
pub struct InviteMemberResult {
    pub invitation_id: InvitationId,
    pub invite_token: String,
}

/// The result carries the invitation `id` and the token of `v`.
pub open spec fn invite_minted(key: Seq<u8>, id: Seq<char>, v: MintInvitationView, r: Result<InviteMemberResult, RpcError>) -> bool {
    invitation_minted(
        key,
        v,
        match r {
            Ok(res) => Ok(res.invite_token@),
            Err(e) => Err(e@),
        },
    ) && (r matches Ok(res) ==> res.invitation_id@ == id)
}

/// Inviting `email` into `scope` with the role on the wire `role_wire`:
/// the email and role are checked; a pending invitation of the email into
/// the scope is re-issued under a fresh nonce `inv_<uuid>` and expiry,
/// otherwise a new one is stored; the token carries the invitation, the
/// requested role, and the identity provider the governing SSO
/// configuration requires, if any.
pub open spec fn invite_outcome(
    old: RepoState,
    new: RepoState,
    key: Seq<u8>,
    ttl: i64,
    now_ms: i64,
    email: Seq<char>,
    role_wire: i32,
    inviter: Seq<char>,
    scope: ScopeTargetView,
    billing: Seq<char>,
    r: Result<InviteMemberResult, RpcError>,
) -> bool {
    match email_check(email) {
        Err(e) => r matches Err(x) && x@ == e && new == old,
        Ok(()) => match role_of_wire(role_wire) {
            Err(e) => r matches Err(x) && x@ == e && new == old,
            Ok(role) => {
                let idp = required_idp_of(governing_sso(old, billing, org_of(scope)));
                let exp = (now_ms + ttl * 1000) as i64;
                exists|nu: Seq<char>|
                    #![trigger prefixed_id("inv"@, nu)]
                    nu.len() == 36 && invite_stored(
                        old,
                        new,
                        key,
                        ttl,
                        now_ms,
                        email,
                        role,
                        inviter,
                        scope,
                        idp,
                        prefixed_id("inv"@, nu),
                        exp,
                        r,
                    )
            },
        },
    }
}

pub open spec fn invite_stored(
    old: RepoState,
    new: RepoState,
    key: Seq<u8>,
    ttl: i64,
    now_ms: i64,
    email: Seq<char>,
    role: Role,
    inviter: Seq<char>,
    scope: ScopeTargetView,
    idp: Option<Seq<char>>,
    nonce: Seq<char>,
    exp: i64,
    r: Result<InviteMemberResult, RpcError>,
) -> bool {
    let token_of = |id: Seq<char>, inv_email: Seq<char>|
        MintInvitationView {
            invitation_id: id,
            email: inv_email,
            scope_kind: scope.kind(),
            scope_id: scope.id(),
            role,
            required_idp: idp,
            nonce,
            now_unix: unix_of(now_ms),
            ttl_seconds: ttl,
        };
    if pending_exists(old, scope.kind(), scope.id(), email) {
        exists|k: Seq<char>|
            #[trigger] old.invitations.contains_key(k) && pending_in_scope(scope.kind(), scope.id(), email)(
                k,
                old.invitations[k],
            ) && invitation_refreshed(old, new, k, nonce, exp) && invite_minted(
                key,
                k,
                token_of(k, old.invitations[k].email@),
                r,
            )
    } else {
        exists|i: Invitation, iu: Seq<char>|
            #![trigger old.invitations.insert(i.id@, i), prefixed_id("inv"@, iu)]
            iu.len() == 36 && new_invitation(i, prefixed_id("inv"@, iu), scope, email, role, inviter, idp, nonce, exp, now_ms)
                && new == (RepoState { invitations: old.invitations.insert(i.id@, i), ..old })
                && invite_minted(key, i.id@, token_of(i.id@, email), r)
    }
}

fn idp_required(c: Option<SsoConfig>) -> (r: Option<String>)
    ensures
        opt_string_view(r) == required_idp_of(c),
{
    match c {
        Some(cfg) => if cfg.required {
            Some(cfg.idp_id)
        } else {
            None
        },
        None => None,
    }
}

fn opt_as_str(o: &Option<String>) -> (r: Option<&str>)
    ensures
        match r {
            Some(s) => opt_string_view(*o) == Some(s@),
            None => o is None,
        },
{
    match o {
        Some(s) => Some(s.as_str()),
        None => None,
    }
}

/// Invite someone into a billing account or an organization.
pub fn execute_invite_member<R: Repo>(
    repo: &mut R,
    keyring: &Keyring,
    invitation_ttl_seconds: i64,
    now_ms: i64,
    params: InviteMemberParams<'_>,
) -> (r: Result<InviteMemberResult, RpcError>)
    requires
        old(repo).inv(),
        i64::MIN <= unix_of(now_ms) + invitation_ttl_seconds <= i64::MAX,
        i64::MIN <= invitation_ttl_seconds * 1000 <= i64::MAX,
        i64::MIN <= now_ms + invitation_ttl_seconds * 1000 <= i64::MAX,
    ensures
        final(repo).inv(),
        invite_outcome(
            old(repo).model(),
            final(repo).model(),
            keyring@,
            invitation_ttl_seconds,
            now_ms,
            params.email@,
            params.role_i32,
            params.inviter_user_id@,
            params.scope@,
            params.billing_account_id@,
            r,
        ),
{
    let ghost old_s = repo.model();
    proof {
        repo.lemma_model_wf();
    }
    match validate_email(params.email) {
        Ok(()) => {},
        Err(e) => {
            return Err(e);
        },
    }
    let role = match role_from_i32(params.role_i32) {
        Ok(r) => r,
        Err(e) => {
            return Err(e);
        },
    };
    let now_unix = unix_seconds(now_ms);
    let org_for_sso: Option<OrgId> = match &params.scope {
        ScopeTarget::Org(id) => Some(id.duplicate()),
        ScopeTarget::Billing(_) => None,
    };
    let sso = match resolve_required_sso(repo, params.billing_account_id, org_for_sso.as_ref()) {
        Ok(c) => c,
        Err(e) => {
            return Err(e);
        },
    };
    let required_idp = idp_required(sso);
    let ghost idp = opt_string_view(required_idp);
    let invitation_id = InvitationId::new();
    let ghost iu = choose|u: Seq<char>| u.len() == 36 && invitation_id@ == prefixed_id("inv"@, u);
    proof {
        reveal_strlit("inv");
    }
    let nonce = fresh_prefixed_id("inv");
    let ghost nu = choose|u: Seq<char>| u.len() == 36 && nonce@ == prefixed_id("inv"@, u);
    let expires_at_ms = now_ms + invitation_ttl_seconds * 1000;
    let kind = params.scope.scope_kind();
    let existing = match repo.list_pending_invitation_by_scope_email(
        kind,
        params.scope.scope_id_str(),
        params.email,
    ) {
        Ok(o) => o,
        Err(e) => {
            return Err(from_store_error(e));
        },
    };
    let (stored_id, stored_email) = match existing {
        Some(inv) => {
            let ghost k = choose|k: Seq<char>|
                #[trigger] old_s.invitations.contains_key(k) && old_s.invitations[k] == inv
                    && pending_in_scope(kind, params.scope@.id(), params.email@)(k, inv);
            assert(inv.id@ == k);
            let fresh_nonce = nonce.duplicate();
            let ghost ns = fresh_nonce;
            match repo.refresh_invitation_token(&inv.id, fresh_nonce, expires_at_ms) {
                Ok(()) => {},
                Err(e) => {
                    return Err(from_store_error(e));
                },
            }
            assert(repo.model() == (RepoState {
                invitations: old_s.invitations.insert(k, refreshed_invitation(old_s.invitations[k], ns, expires_at_ms)),
                ..old_s
            }));
            (inv.id, inv.email)
        },
        None => {
            let inv = Invitation {
                id: invitation_id.duplicate(),
                scope: params.scope.duplicate(),
                email: String::from_str(params.email),
                role,
                inviter_user_id: Some(params.inviter_user_id.duplicate()),
                required_idp: required_idp.duplicate(),
                nonce: nonce.duplicate(),
                expires_at_ms,
                status: InvitationStatus::Pending,
                created_at_ms: now_ms,
            };
            let ghost gi = inv;
            match repo.create_invitation(inv) {
                Ok(()) => {},
                Err(e) => {
                    return Err(from_store_error(e));
                },
            }
            assert(new_invitation(gi, prefixed_id("inv"@, iu), params.scope@, params.email@, role, params.inviter_user_id@, idp, prefixed_id("inv"@, nu), expires_at_ms, now_ms));
            (invitation_id, String::from_str(params.email))
        },
    };
    let token = build_invitation_token(
        keyring,
        invitation_ttl_seconds,
        &stored_id,
        stored_email.as_str(),
        kind,
        params.scope.scope_id_str(),
        role,
        opt_as_str(&required_idp),
        nonce.as_str(),
        now_unix,
    );
    match token {
        Ok(t) => Ok(InviteMemberResult { invitation_id: stored_id, invite_token: t }),
        Err(e) => Err(e),
    }
}

} // verus!
