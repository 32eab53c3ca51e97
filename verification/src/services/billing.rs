//! The billing-account service. Changes need the caller to own the
//! account, reads any membership in it. Personal accounts cannot be
//! deleted, change members, or take an auto-join domain.

use vstd::prelude::*;

use crate::auth::SessionContext;
use crate::billing::provider::{invoices_of, subscription_fields, BillingState};
use crate::billing::BillingProvider;
use crate::domain::enums::ScopeTargetView;
use crate::domain::{
    BillingAccount, BillingAccountId, Duplicate, Invoice, Role, ScopeKind, ScopeTarget, SsoConfig,
    Subscription, UserId,
};
use crate::services::authz::{
    billing_member_role, billing_owner_check, require_billing_member, require_billing_owner,
};
use crate::services::common::{email_check, role_from_i32, role_of_wire, validate_email};
use crate::services::convert::{
    invoice_status_code, invoice_status_to_pb, ms_to_timestamp, sso_info_of, sso_kind_name,
    sso_kind_to_domain, sso_to_pb, subscription_status_code, subscription_to_pb, timestamp_of_ms,
    InvoiceStatusCode, SsoConfigInfo, SubscriptionInfo, Timestamp,
};
use crate::services::error::{
    fails, from_store_error, rpc_result, store_rpc, via_store, Code, RpcError, RpcErrorView,
};
use crate::services::invite::{
    execute_invite_member, invite_outcome, InviteMemberParams, InviteMemberResult,
};
use crate::services::ops::{
    auto_join_set, billing_account_removed, billing_member_removed, billing_role_updated,
};
use crate::state::{clock_fits, AppState};
use crate::store::error::StoreErrorView;
use crate::store::model::{email_in_use, email_matches, store_result, user_with_email, RepoState};
use crate::store::repo::sso_config::configs_of_kind;
use crate::store::repo::{Repo, RepoModel};
use crate::store::model::looked_up;
use crate::text::str_eq;

verus! {

/// The handlers of the billing-account service.
pub struct BillingServer;

// ----- messages -----

/// A billing account as sent, with its SSO configuration if it has one.
#[derive(Debug)]
pub struct BillingAccountInfo {
    pub id: String,
    pub display_name: String,
    pub personal: bool,
    pub owner_user_id: String,
    pub auto_join_domain: String,
    pub sso: Option<SsoConfigInfo>,
}

pub open spec fn opt_id_text<T: View<V = Seq<char>>>(o: Option<T>) -> Seq<char> {
    match o {
        Some(x) => x@,
        None => Seq::empty(),
    }
}

pub open spec fn opt_text(o: Option<String>) -> Seq<char> {
    match o {
        Some(x) => x@,
        None => Seq::empty(),
    }
}

pub open spec fn sso_presented(r: Option<SsoConfigInfo>, c: Option<SsoConfig>) -> bool {
    match (r, c) {
        (Some(i), Some(cfg)) => sso_info_of(i, cfg),
        (None, None) => true,
        _ => false,
    }
}

/// `r` presents the account `b` with the configuration `sso`.
pub open spec fn billing_info_of(r: BillingAccountInfo, b: BillingAccount, sso: Option<SsoConfig>) -> bool {
    &&& r.id@ == b.id@
    &&& r.display_name == b.display_name
    &&& r.personal == b.personal
    &&& r.owner_user_id@ == opt_id_text(b.owner_user_id)
    &&& r.auto_join_domain@ == opt_text(b.auto_join_domain)
    &&& sso_presented(r.sso, sso)
}

fn present_sso(c: Option<SsoConfig>) -> (r: Option<SsoConfigInfo>)
    ensures
        sso_presented(r, c),
{
    match c {
        Some(cfg) => Some(sso_to_pb(cfg)),
        None => None,
    }
}

pub fn billing_to_pb_with_sso(b: BillingAccount, sso: Option<SsoConfig>) -> (r: BillingAccountInfo)
    ensures
        billing_info_of(r, b, sso),
{
    let owner_user_id = match &b.owner_user_id {
        Some(u) => u.to_string(),
        None => String::new(),
    };
    let auto_join_domain = match &b.auto_join_domain {
        Some(d) => d.duplicate(),
        None => String::new(),
    };
    BillingAccountInfo {
        id: b.id.to_string(),
        display_name: b.display_name,
        personal: b.personal,
        owner_user_id,
        auto_join_domain,
        sso: present_sso(sso),
    }
}

/// An invoice as sent.
#[derive(Debug)]
pub struct InvoiceInfo {
    pub id: String,
    pub billing_account_id: String,
    pub amount_cents: i64,
    pub currency: String,
    pub status: InvoiceStatusCode,
    pub issued_at: Timestamp,
}

pub open spec fn invoice_info_of(r: InvoiceInfo, i: Invoice) -> bool {
    &&& r.id@ == i.id@
    &&& r.billing_account_id@ == i.billing_account_id@
    &&& r.amount_cents == i.amount_cents
    &&& r.currency == i.currency
    &&& r.status == invoice_status_code(i.status@)
    &&& r.issued_at == timestamp_of_ms(i.issued_at_ms as int)
}

/// The configuration stored for `id` in a batch lookup, if any.
fn config_for(v: &Vec<(String, SsoConfig)>, id: &str) -> (r: Option<SsoConfig>)
    ensures
        match r {
            Some(c) => exists|t: int| 0 <= t < v@.len() && (#[trigger] v@[t]).0@ == id@ && v@[t].1 == c,
            None => forall|t: int| 0 <= t < v@.len() ==> (#[trigger] v@[t]).0@ != id@,
        },
{
    let mut i: usize = 0;
    while i < v.len()
        invariant
            i <= v@.len(),
            forall|t: int| 0 <= t < i ==> (#[trigger] v@[t]).0@ != id@,
        decreases v.len() - i,
    {
        if str_eq(v[i].0.as_str(), id) {
            return Some(v[i].1.duplicate());
        }
        i = i + 1;
    }
    None
}

// ----- outcomes -----

/// An empty domain clears the auto-join domain.
pub open spec fn requested_domain(d: Seq<char>) -> Option<Seq<char>> {
    if d.len() == 0 {
        None
    } else {
        Some(d)
    }
}

pub open spec fn personal_guard(
    s: RepoState,
    user: Seq<char>,
    billing: Seq<char>,
    personal_message: Seq<char>,
) -> Result<(), RpcErrorView> {
    match billing_owner_check(s, user, billing) {
        Err(e) => Err(e),
        Ok(()) => if !s.billing_accounts.contains_key(billing) {
            fails(Code::NotFound, "billing account not found"@)
        } else if s.billing_accounts[billing].personal {
            fails(Code::FailedPrecondition, personal_message)
        } else {
            Ok(())
        },
    }
}

pub open spec fn role_guard(s: RepoState, user: Seq<char>, billing: Seq<char>, role_wire: i32) -> Result<Role, RpcErrorView> {
    match billing_owner_check(s, user, billing) {
        Err(e) => Err(e),
        Ok(()) => role_of_wire(role_wire),
    }
}

/// Inviting into a billing account: the caller must own it; an email
/// belonging to a member is refused; otherwise as `invite_outcome` says.
pub open spec fn billing_invite_outcome(
    old: RepoState,
    new: RepoState,
    key: Seq<u8>,
    ttl: i64,
    now_ms: i64,
    caller: Seq<char>,
    billing: Seq<char>,
    email: Seq<char>,
    role_wire: i32,
    r: Result<InviteMemberResult, RpcError>,
) -> bool {
    match billing_owner_check(old, caller, billing) {
        Err(e) => r matches Err(x) && x@ == e && new == old,
        Ok(()) => match email_check(email) {
            Err(e) => r matches Err(x) && x@ == e && new == old,
            Ok(()) => match role_of_wire(role_wire) {
                Err(e) => r matches Err(x) && x@ == e && new == old,
                Ok(_) => if email_in_use(old, email) {
                    exists|k: Seq<char>|
                        #[trigger] old.users.contains_key(k) && email_matches(old.users[k], email) && if old.billing_memberships.contains_key(
                            (old.users[k].id@, billing),
                        ) {
                            r matches Err(x) && x@ == crate::services::error::rpc_err(
                                Code::FailedPrecondition,
                                "user is already a member of this billing account"@,
                            ) && new == old
                        } else {
                            invite_outcome(old, new, key, ttl, now_ms, email, role_wire, caller, ScopeTargetView::Billing(billing), billing, r)
                        }
                } else {
                    invite_outcome(old, new, key, ttl, now_ms, email, role_wire, caller, ScopeTargetView::Billing(billing), billing, r)
                },
            },
        },
    }
}

impl BillingServer {
    /// A billing account the caller belongs to.
    pub fn get_billing_account<R: Repo, B, C>(state: &AppState<R, B, C>, session: &SessionContext, id: &str) -> (r:
        Result<BillingAccountInfo, RpcError>)
        requires
            state.repo.inv(),
        ensures
            ({
                let s = state.repo.model();
                match billing_member_role(s, session.user@, id@) {
                    Err(e) => r matches Err(x) && x@ == e,
                    Ok(_) => if !s.billing_accounts.contains_key(id@) {
                        r matches Err(x) && x@ == crate::services::error::rpc_err(Code::NotFound, "billing account not found"@)
                    } else {
                        r matches Ok(info) && billing_info_of(
                            info,
                            s.billing_accounts[id@],
                            s.sso_configs.get((ScopeKind::Billing, id@)),
                        )
                    },
                }
            }),
    {
        let billing_id = BillingAccountId::from_string(String::from_str(id));
        match require_billing_member(&state.repo, session, &billing_id) {
            Ok(_) => {},
            Err(e) => {
                return Err(e);
            },
        }
        let account = match state.repo.get_billing_account(&billing_id) {
            Ok(Some(a)) => a,
            Ok(None) => {
                return Err(RpcError::msg(Code::NotFound, "billing account not found"));
            },
            Err(e) => {
                return Err(from_store_error(e));
            },
        };
        let sso = match state.repo.get_sso_config(ScopeKind::Billing, billing_id.as_str()) {
            Ok(c) => c,
            Err(e) => {
                return Err(from_store_error(e));
            },
        };
        Ok(billing_to_pb_with_sso(account, sso))
    }

    /// The caller's billing accounts, by account id.
    pub fn list_billing_accounts<R: Repo, B, C>(state: &AppState<R, B, C>, session: &SessionContext) -> (r:
        Result<Vec<BillingAccountInfo>, RpcError>)
        requires
            state.repo.inv(),
        ensures
            r matches Ok(v) && exists|bs: Seq<(BillingAccount, Role)>|
                #[trigger] crate::services::session::billing_listing(state.repo.model(), session.user@, bs)
                    && v@.len() == bs.len() && forall|t: int|
                    0 <= t < bs.len() ==> billing_info_of(
                        #[trigger] v@[t],
                        bs[t].0,
                        state.repo.model().sso_configs.get((ScopeKind::Billing, bs[t].0.id@)),
                    ),
    {
        let s = &state.repo;
        let memberships = match s.list_billing_accounts_for_user(&session.user) {
            Ok(v) => v,
            Err(e) => {
                return Err(from_store_error(e));
            },
        };
        let ghost bs = memberships@;
        assert(crate::services::session::billing_listing(s.model(), session.user@, bs));
        let mut scope_ids: Vec<&str> = Vec::new();
        let mut i: usize = 0;
        while i < memberships.len()
            invariant
                i <= memberships@.len(),
                scope_ids@.len() == i,
                forall|t: int| 0 <= t < i ==> (#[trigger] scope_ids@[t])@ == memberships@[t].0.id@,
            decreases memberships.len() - i,
        {
            scope_ids.push(memberships[i].0.id.as_str());
            i = i + 1;
        }
        let configs = match s.list_sso_configs_by_scope_ids(ScopeKind::Billing, scope_ids.as_slice()) {
            Ok(v) => v,
            Err(e) => {
                return Err(from_store_error(e));
            },
        };
        let ghost ids = scope_ids@.map_values(|x: &str| x@);
        let ghost m = configs_of_kind(s.model(), ScopeKind::Billing);
        assert(looked_up(m, ids, configs@));
        let mut out: Vec<BillingAccountInfo> = Vec::new();
        let mut j: usize = 0;
        while j < memberships.len()
            invariant
                j <= memberships@.len(),
                out@.len() == j,
                bs == memberships@,
                ids.len() == bs.len(),
                forall|t: int| 0 <= t < bs.len() ==> (#[trigger] ids[t]) == bs[t].0.id@,
                looked_up(m, ids, configs@),
                m == configs_of_kind(s.model(), ScopeKind::Billing),
                forall|t: int|
                    0 <= t < j ==> billing_info_of(
                        #[trigger] out@[t],
                        bs[t].0,
                        s.model().sso_configs.get((ScopeKind::Billing, bs[t].0.id@)),
                    ),
            decreases memberships.len() - j,
        {
            let sso = config_for(&configs, memberships[j].0.id.as_str());
            proof {
                let id = bs[j as int].0.id@;
                assert(ids[j as int] == id);
                if sso is Some {
                    let c = sso->0;
                    let t = choose|t: int| 0 <= t < configs@.len() && (#[trigger] configs@[t]).0@ == id && configs@[t].1 == c;
                    assert(configs@[t] == configs@[t]);
                } else {
                    if m.contains_key(id) {
                        let t = choose|t: int| 0 <= t < configs@.len() && (#[trigger] configs@[t]).0@ == ids[j as int];
                        assert(configs@[t].0@ != id);
                    }
                }
            }
            let info = billing_to_pb_with_sso(memberships[j].0.duplicate(), sso);
            out.push(info);
            j = j + 1;
        }
        Ok(out)
    }

    /// Invite someone into a billing account the caller owns.
    pub fn invite_member<R: Repo, B, C>(
        state: &mut AppState<R, B, C>,
        session: &SessionContext,
        now_ms: i64,
        billing_account_id: &str,
        email: &str,
        role: i32,
    ) -> (r: Result<InviteMemberResult, RpcError>)
        requires
            old(state).repo.inv(),
            clock_fits(old(state).config, now_ms),
        ensures
            final(state).repo.inv(),
            crate::services::auth::only_repo_changed(*old(state), *final(state)),
            billing_invite_outcome(
                old(state).repo.model(),
                final(state).repo.model(),
                old(state).keyring@,
                old(state).config.invitation_ttl_seconds,
                now_ms,
                session.user@,
                billing_account_id@,
                email@,
                role,
                r,
            ),
    {
        let ghost old_s = state.repo.model();
        let billing_id = BillingAccountId::from_string(String::from_str(billing_account_id));
        match require_billing_owner(&state.repo, session, &billing_id) {
            Ok(()) => {},
            Err(e) => {
                return Err(e);
            },
        }
        match validate_email(email) {
            Ok(()) => {},
            Err(e) => {
                return Err(e);
            },
        }
        match role_from_i32(role) {
            Ok(_) => {},
            Err(e) => {
                return Err(e);
            },
        }
        match state.repo.get_user_by_email(email) {
            Ok(Some(target)) => {
                let ghost k = choose|k: Seq<char>|
                    #[trigger] old_s.users.contains_key(k) && old_s.users[k] == target && user_with_email(email@)(k, target);
                assert(old_s.users.contains_key(k) && email_matches(old_s.users[k], email@));
                match state.repo.get_billing_membership(&target.id, &billing_id) {
                    Ok(Some(_)) => {
                        return Err(
                            RpcError::msg(
                                Code::FailedPrecondition,
                                "user is already a member of this billing account",
                            ),
                        );
                    },
                    Ok(None) => {},
                    Err(e) => {
                        return Err(from_store_error(e));
                    },
                }
            },
            Ok(None) => {},
            Err(e) => {
                return Err(from_store_error(e));
            },
        }
        let params = InviteMemberParams {
            email,
            role_i32: role,
            inviter_user_id: &session.user,
            scope: ScopeTarget::Billing(billing_id.duplicate()),
            billing_account_id: &billing_id,
        };
        execute_invite_member(
            &mut state.repo,
            &state.keyring,
            state.config.invitation_ttl_seconds,
            now_ms,
            params,
        )
    }

    /// Remove a member from a shared billing account the caller owns.
    pub fn remove_member<R: Repo, B, C>(
        state: &mut AppState<R, B, C>,
        session: &SessionContext,
        billing_account_id: &str,
        user_id: &str,
    ) -> (r: Result<(), RpcError>)
        requires
            old(state).repo.inv(),
        ensures
            final(state).repo.inv(),
            crate::services::auth::only_repo_changed(*old(state), *final(state)),
            match personal_guard(
                old(state).repo.model(),
                session.user@,
                billing_account_id@,
                "cannot modify membership on a personal billing account"@,
            ) {
                Err(e) => rpc_result(r) == Err::<(), RpcErrorView>(e) && final(state).repo.model() == old(
                    state,
                ).repo.model(),
                Ok(()) => exists|res: Result<(), StoreErrorView>|
                    #[trigger] billing_member_removed(
                        old(state).repo.model(),
                        final(state).repo.model(),
                        user_id@,
                        billing_account_id@,
                        res,
                    ) && rpc_result(r) == via_store(res),
            },
    {
        let ghost old_s = state.repo.model();
        let billing_id = BillingAccountId::from_string(String::from_str(billing_account_id));
        match require_billing_owner(&state.repo, session, &billing_id) {
            Ok(()) => {},
            Err(e) => {
                return Err(e);
            },
        }
        let target_user = UserId::from_string(String::from_str(user_id));
        let billing = match state.repo.get_billing_account(&billing_id) {
            Ok(Some(b)) => b,
            Ok(None) => {
                return Err(RpcError::msg(Code::NotFound, "billing account not found"));
            },
            Err(e) => {
                return Err(from_store_error(e));
            },
        };
        if billing.personal {
            return Err(
                RpcError::msg(
                    Code::FailedPrecondition,
                    "cannot modify membership on a personal billing account",
                ),
            );
        }
        let removed = state.repo.remove_billing_membership(&target_user, &billing_id);
        let ghost res = store_result(removed);
        assert(billing_member_removed(old_s, state.repo.model(), user_id@, billing_account_id@, res));
        match removed {
            Ok(()) => Ok(()),
            Err(e) => Err(from_store_error(e)),
        }
    }

    /// Change a member's role in a billing account the caller owns.
    pub fn update_member_role<R: Repo, B, C>(
        state: &mut AppState<R, B, C>,
        session: &SessionContext,
        billing_account_id: &str,
        user_id: &str,
        role: i32,
    ) -> (r: Result<(), RpcError>)
        requires
            old(state).repo.inv(),
        ensures
            final(state).repo.inv(),
            crate::services::auth::only_repo_changed(*old(state), *final(state)),
            match role_guard(old(state).repo.model(), session.user@, billing_account_id@, role) {
                Err(e) => r matches Err(x) && x@ == e && final(state).repo.model() == old(state).repo.model(),
                Ok(new_role) => exists|res: Result<(), StoreErrorView>|
                    #[trigger] billing_role_updated(
                        old(state).repo.model(),
                        final(state).repo.model(),
                        user_id@,
                        billing_account_id@,
                        new_role,
                        res,
                    ) && rpc_result(r) == via_store(res),
            },
    {
        let ghost old_s = state.repo.model();
        let billing_id = BillingAccountId::from_string(String::from_str(billing_account_id));
        match require_billing_owner(&state.repo, session, &billing_id) {
            Ok(()) => {},
            Err(e) => {
                return Err(e);
            },
        }
        let target_user = UserId::from_string(String::from_str(user_id));
        let new_role = match role_from_i32(role) {
            Ok(r) => r,
            Err(e) => {
                return Err(e);
            },
        };
        let updated = state.repo.update_billing_membership_role(&target_user, &billing_id, new_role);
        let ghost res = store_result(updated);
        assert(billing_role_updated(old_s, state.repo.model(), user_id@, billing_account_id@, new_role, res));
        match updated {
            Ok(()) => Ok(()),
            Err(e) => Err(from_store_error(e)),
        }
    }

    /// Configure SSO for a billing account the caller owns; the caller
    /// becomes its break-glass user.
    pub fn configure_sso<R: Repo, B, C>(
        state: &mut AppState<R, B, C>,
        session: &SessionContext,
        now_ms: i64,
        billing_account_id: &str,
        idp_id: &str,
        kind: i32,
        login_url: &str,
        required: bool,
    ) -> (r: Result<SsoConfigInfo, RpcError>)
        requires
            old(state).repo.inv(),
        ensures
            final(state).repo.inv(),
            crate::services::auth::only_repo_changed(*old(state), *final(state)),
            match billing_owner_check(old(state).repo.model(), session.user@, billing_account_id@) {
                Err(e) => r matches Err(x) && x@ == e && final(state).repo.model() == old(state).repo.model(),
                Ok(()) => exists|cfg: SsoConfig|
                    #[trigger] old(state).repo.model().sso_configs.insert((ScopeKind::Billing, billing_account_id@), cfg)
                        == final(state).repo.model().sso_configs && final(state).repo.model() == (RepoState {
                        sso_configs: old(state).repo.model().sso_configs.insert(
                            (ScopeKind::Billing, billing_account_id@),
                            cfg,
                        ),
                        ..old(state).repo.model()
                    }) && sso_config_fields(
                        cfg,
                        ScopeKind::Billing,
                        billing_account_id@,
                        idp_id@,
                        kind,
                        login_url@,
                        session.user@,
                        required,
                        now_ms,
                    ) && (r matches Ok(info) && sso_info_of(info, cfg)),
            },
    {
        let ghost old_s = state.repo.model();
        let billing_id = BillingAccountId::from_string(String::from_str(billing_account_id));
        match require_billing_owner(&state.repo, session, &billing_id) {
            Ok(()) => {},
            Err(e) => {
                return Err(e);
            },
        }
        let cfg = SsoConfig {
            scope_kind: ScopeKind::Billing,
            scope_id: billing_id.to_string(),
            idp_id: String::from_str(idp_id),
            kind: sso_kind_to_domain(kind),
            login_url: String::from_str(login_url),
            break_glass_user_id: session.user.duplicate(),
            required,
            updated_at_ms: now_ms,
        };
        let ghost gc = cfg;
        match state.repo.upsert_sso_config(cfg.duplicate()) {
            Ok(()) => {},
            Err(e) => {
                return Err(from_store_error(e));
            },
        }
        assert(old_s.sso_configs.insert((ScopeKind::Billing, billing_account_id@), gc) == state.repo.model().sso_configs);
        Ok(sso_to_pb(cfg))
    }

    /// Set or clear (with an empty domain) the auto-join domain of a shared
    /// billing account the caller owns.
    pub fn set_auto_join_domain<R: Repo, B, C>(
        state: &mut AppState<R, B, C>,
        session: &SessionContext,
        billing_account_id: &str,
        domain: &str,
    ) -> (r: Result<(), RpcError>)
        requires
            old(state).repo.inv(),
        ensures
            final(state).repo.inv(),
            crate::services::auth::only_repo_changed(*old(state), *final(state)),
            match personal_guard(
                old(state).repo.model(),
                session.user@,
                billing_account_id@,
                "auto_join_domain is not supported on personal billing accounts"@,
            ) {
                Err(e) => rpc_result(r) == Err::<(), RpcErrorView>(e) && final(state).repo.model() == old(
                    state,
                ).repo.model(),
                Ok(()) => exists|res: Result<(), StoreErrorView>|
                    #[trigger] auto_join_set(
                        old(state).repo.model(),
                        final(state).repo.model(),
                        billing_account_id@,
                        requested_domain(domain@),
                        res,
                    ) && rpc_result(r) == via_store(res),
            },
    {
        let ghost old_s = state.repo.model();
        let billing_id = BillingAccountId::from_string(String::from_str(billing_account_id));
        match require_billing_owner(&state.repo, session, &billing_id) {
            Ok(()) => {},
            Err(e) => {
                return Err(e);
            },
        }
        let billing = match state.repo.get_billing_account(&billing_id) {
            Ok(Some(b)) => b,
            Ok(None) => {
                return Err(RpcError::msg(Code::NotFound, "billing account not found"));
            },
            Err(e) => {
                return Err(from_store_error(e));
            },
        };
        if billing.personal {
            return Err(
                RpcError::msg(
                    Code::FailedPrecondition,
                    "auto_join_domain is not supported on personal billing accounts",
                ),
            );
        }
        let d = if domain.unicode_len() == 0 {
            None
        } else {
            Some(String::from_str(domain))
        };
        let ghost dv = requested_domain(domain@);
        let set = state.repo.set_auto_join_domain(&billing_id, d);
        let ghost res = store_result(set);
        assert(auto_join_set(old_s, state.repo.model(), billing_account_id@, dv, res));
        match set {
            Ok(()) => Ok(()),
            Err(e) => Err(from_store_error(e)),
        }
    }

    /// Delete a shared billing account the caller owns, which has no
    /// organizations left.
    pub fn delete_billing_account<R: Repo, B, C>(
        state: &mut AppState<R, B, C>,
        session: &SessionContext,
        billing_account_id: &str,
    ) -> (r: Result<(), RpcError>)
        requires
            old(state).repo.inv(),
        ensures
            final(state).repo.inv(),
            crate::services::auth::only_repo_changed(*old(state), *final(state)),
            match billing_owner_check(old(state).repo.model(), session.user@, billing_account_id@) {
                Err(e) => rpc_result(r) == Err::<(), RpcErrorView>(e) && final(state).repo.model() == old(
                    state,
                ).repo.model(),
                Ok(()) => exists|res: Result<(), StoreErrorView>|
                    #[trigger] billing_account_removed(
                        old(state).repo.model(),
                        final(state).repo.model(),
                        billing_account_id@,
                        res,
                    ) && rpc_result(r) == via_store(res),
            },
    {
        let ghost old_s = state.repo.model();
        let billing_id = BillingAccountId::from_string(String::from_str(billing_account_id));
        match require_billing_owner(&state.repo, session, &billing_id) {
            Ok(()) => {},
            Err(e) => {
                return Err(e);
            },
        }
        let deleted = state.repo.delete_billing_account(&billing_id);
        let ghost res = store_result(deleted);
        assert(billing_account_removed(old_s, state.repo.model(), billing_account_id@, res));
        match deleted {
            Ok(()) => Ok(()),
            Err(e) => Err(from_store_error(e)),
        }
    }

    /// Attach a payment method to a billing account the caller owns.
    pub fn set_payment_method<R: Repo, B: BillingProvider, C>(
        state: &mut AppState<R, B, C>,
        session: &SessionContext,
        now_ms: i64,
        billing_account_id: &str,
        payment_method_token: &str,
    ) -> (r: Result<(), RpcError>)
        requires
            old(state).repo.inv(),
            old(state).billing.billing_inv(),
        ensures
            final(state).billing.billing_inv(),
            only_billing_changed(*old(state), *final(state)),
            match billing_owner_check(old(state).repo.model(), session.user@, billing_account_id@) {
                Err(e) => rpc_result(r) == Err::<(), RpcErrorView>(e) && final(state).billing.billing_state()
                    == old(state).billing.billing_state(),
                Ok(()) => r is Ok && exists|sub: Subscription|
                    #[trigger] subscription_fields(
                        sub,
                        billing_account_id@,
                        "starter"@,
                        "active"@,
                        Some(payment_method_token@),
                        now_ms,
                    ) && final(state).billing.billing_state() == (BillingState {
                        subscriptions: old(state).billing.billing_state().subscriptions.insert(
                            billing_account_id@,
                            sub,
                        ),
                        ..old(state).billing.billing_state()
                    }),
            },
    {
        let billing_id = BillingAccountId::from_string(String::from_str(billing_account_id));
        match require_billing_owner(&state.repo, session, &billing_id) {
            Ok(()) => {},
            Err(e) => {
                return Err(e);
            },
        }
        match state.billing.set_payment_method(&billing_id, String::from_str(payment_method_token), now_ms) {
            Ok(_) => Ok(()),
            Err(e) => Err(from_store_error(e)),
        }
    }

    /// The subscription of a billing account the caller belongs to; an
    /// account without one gets the free plan first.
    pub fn get_subscription<R: Repo, B: BillingProvider, C>(
        state: &mut AppState<R, B, C>,
        session: &SessionContext,
        now_ms: i64,
        billing_account_id: &str,
    ) -> (r: Result<SubscriptionInfo, RpcError>)
        requires
            old(state).repo.inv(),
            old(state).billing.billing_inv(),
        ensures
            final(state).billing.billing_inv(),
            only_billing_changed(*old(state), *final(state)),
            match billing_member_role(old(state).repo.model(), session.user@, billing_account_id@) {
                Err(e) => r matches Err(x) && x@ == e && final(state).billing.billing_state() == old(
                    state,
                ).billing.billing_state(),
                Ok(_) => {
                    let b = final(state).billing.billing_state();
                    &&& b.subscriptions.contains_key(billing_account_id@)
                    &&& r matches Ok(info) && subscription_info_of(info, b.subscriptions[billing_account_id@])
                    &&& if old(state).billing.billing_state().subscriptions.contains_key(billing_account_id@) {
                        b == old(state).billing.billing_state()
                    } else {
                        &&& subscription_fields(
                            b.subscriptions[billing_account_id@],
                            billing_account_id@,
                            "free"@,
                            "none"@,
                            None,
                            now_ms,
                        )
                        &&& b == (BillingState {
                            subscriptions: old(state).billing.billing_state().subscriptions.insert(
                                billing_account_id@,
                                b.subscriptions[billing_account_id@],
                            ),
                            ..old(state).billing.billing_state()
                        })
                    }
                },
            },
    {
        let billing_id = BillingAccountId::from_string(String::from_str(billing_account_id));
        match require_billing_member(&state.repo, session, &billing_id) {
            Ok(_) => {},
            Err(e) => {
                return Err(e);
            },
        }
        match state.billing.ensure_subscription(&billing_id, now_ms) {
            Ok(()) => {},
            Err(e) => {
                return Err(from_store_error(e));
            },
        }
        match state.billing.get_subscription(&billing_id) {
            Ok(sub) => Ok(subscription_to_pb(sub)),
            Err(e) => Err(from_store_error(e)),
        }
    }

    /// The invoices of a billing account the caller belongs to, in issue
    /// order.
    pub fn list_invoices<R: Repo, B: BillingProvider, C>(
        state: &AppState<R, B, C>,
        session: &SessionContext,
        billing_account_id: &str,
    ) -> (r: Result<Vec<InvoiceInfo>, RpcError>)
        requires
            state.repo.inv(),
            state.billing.billing_inv(),
        ensures
            match billing_member_role(state.repo.model(), session.user@, billing_account_id@) {
                Err(e) => r matches Err(x) && x@ == e,
                Ok(_) => r matches Ok(v) && ({
                    let inv = invoices_of(state.billing.billing_state(), billing_account_id@);
                    &&& v@.len() == inv.len()
                    &&& forall|t: int| 0 <= t < inv.len() ==> invoice_info_of(#[trigger] v@[t], inv[t])
                }),
            },
    {
        let billing_id = BillingAccountId::from_string(String::from_str(billing_account_id));
        match require_billing_member(&state.repo, session, &billing_id) {
            Ok(_) => {},
            Err(e) => {
                return Err(e);
            },
        }
        let invoices = match state.billing.list_invoices(&billing_id) {
            Ok(v) => v,
            Err(e) => {
                return Err(from_store_error(e));
            },
        };
        let mut out: Vec<InvoiceInfo> = Vec::new();
        let mut i: usize = 0;
        while i < invoices.len()
            invariant
                i <= invoices@.len(),
                out@.len() == i,
                forall|t: int| 0 <= t < i ==> invoice_info_of(#[trigger] out@[t], invoices@[t]),
            decreases invoices.len() - i,
        {
            let inv = &invoices[i];
            out.push(
                InvoiceInfo {
                    id: inv.id.to_string(),
                    billing_account_id: inv.billing_account_id.to_string(),
                    amount_cents: inv.amount_cents,
                    currency: inv.currency.duplicate(),
                    status: invoice_status_to_pb(inv.status.as_str()),
                    issued_at: ms_to_timestamp(inv.issued_at_ms),
                },
            );
            i = i + 1;
        }
        Ok(out)
    }

    /// Cancel the subscription of a billing account the caller owns.
    pub fn cancel_subscription<R: Repo, B: BillingProvider, C>(
        state: &mut AppState<R, B, C>,
        session: &SessionContext,
        now_ms: i64,
        billing_account_id: &str,
    ) -> (r: Result<SubscriptionInfo, RpcError>)
        requires
            old(state).repo.inv(),
            old(state).billing.billing_inv(),
        ensures
            final(state).billing.billing_inv(),
            only_billing_changed(*old(state), *final(state)),
            match billing_owner_check(old(state).repo.model(), session.user@, billing_account_id@) {
                Err(e) => r matches Err(x) && x@ == e && final(state).billing.billing_state() == old(
                    state,
                ).billing.billing_state(),
                Ok(()) => {
                    let b = old(state).billing.billing_state();
                    if !b.subscriptions.contains_key(billing_account_id@) {
                        r matches Err(x) && x@ == store_rpc(
                            StoreErrorView::NotFound("subscription "@ + billing_account_id@),
                        ) && final(state).billing.billing_state() == b
                    } else {
                        let sub = final(state).billing.billing_state().subscriptions[billing_account_id@];
                        &&& sub == (Subscription {
                            status: sub.status,
                            updated_at_ms: now_ms,
                            ..b.subscriptions[billing_account_id@]
                        })
                        &&& sub.status@ == "canceled"@
                        &&& final(state).billing.billing_state() == (BillingState {
                            subscriptions: b.subscriptions.insert(billing_account_id@, sub),
                            ..b
                        })
                        &&& r matches Ok(info) && subscription_info_of(info, sub)
                    }
                },
            },
    {
        let billing_id = BillingAccountId::from_string(String::from_str(billing_account_id));
        match require_billing_owner(&state.repo, session, &billing_id) {
            Ok(()) => {},
            Err(e) => {
                return Err(e);
            },
        }
        match state.billing.cancel_subscription(&billing_id, now_ms) {
            Ok(sub) => Ok(subscription_to_pb(sub)),
            Err(e) => Err(from_store_error(e)),
        }
    }
}

/// Only the billing provider changes.
pub open spec fn only_billing_changed<R, B, C>(old: AppState<R, B, C>, new: AppState<R, B, C>) -> bool {
    &&& new.repo == old.repo
    &&& new.keyring == old.keyring
    &&& new.clock == old.clock
    &&& new.config == old.config
}

/// `r` presents the subscription `s`.
pub open spec fn subscription_info_of(r: SubscriptionInfo, s: Subscription) -> bool {
    &&& r.billing_account_id@ == s.billing_account_id@
    &&& r.plan == s.plan
    &&& r.status == subscription_status_code(s.status@)
    &&& r.payment_method_token == s.payment_method_token
    &&& r.updated_at == timestamp_of_ms(s.updated_at_ms as int)
}

/// `c` is the configuration with these fields, its kind named by the wire
/// value `kind`.
pub open spec fn sso_config_fields(
    c: SsoConfig,
    scope_kind: ScopeKind,
    scope_id: Seq<char>,
    idp_id: Seq<char>,
    kind: i32,
    login_url: Seq<char>,
    break_glass: Seq<char>,
    required: bool,
    now_ms: i64,
) -> bool {
    &&& c.scope_kind == scope_kind
    &&& c.scope_id@ == scope_id
    &&& c.idp_id@ == idp_id
    &&& c.kind@ == sso_kind_name(kind)
    &&& c.login_url@ == login_url
    &&& c.break_glass_user_id@ == break_glass
    &&& c.required == required
    &&& c.updated_at_ms == now_ms
}

} // verus!
