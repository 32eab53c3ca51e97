//! Laws of the SSO policy: which configuration governs a scope, and who
//! keeps password access under it.

use vstd::prelude::*;

use crate::auth::invitation_token::InvitationTokenView;
use crate::auth::session::SessionView;
use crate::domain::enums::sso_provider_tag;
use crate::domain::{ScopeKind, SsoConfig};
use crate::services::auth::sso_locked;
use crate::services::authz::governing_sso;
use crate::services::billing::sso_config_fields;
use crate::services::common::{pending_check, user_lookup};
use crate::services::error::{rpc_err, rpc_result, store_rpc, Code, RpcError};
use crate::services::invitation::{accepted_with, signed_in_through, AcceptedInvitation};
use crate::services::ops::{
    billing_member_removed, billing_role_updated, org_member_removed, org_role_updated,
};
use crate::domain::Role;
use crate::services::sso::{sso_sign_in, SsoCompleted};
use crate::store::error::StoreErrorView;
use crate::store::model::{email_in_use, identity_in_use, RepoState};
use crate::domain::enums::AuthMethodView;
use crate::domain::{BillingAccount, Organization, User};
use crate::services::common::email_domain_spec;
use crate::services::convert::{
    invoice_status_code, sso_kind_name, sso_kind_wire, subscription_status_code, timestamp_of_ms,
    whoami_view, AuthMethodKind, InvoiceStatusCode, SubscriptionStatusCode,
};
use crate::services::common::role_wire;
use crate::services::org::org_visible;
use crate::services::invite::{
    invitation_refreshed, invite_outcome, invite_stored, new_invitation, org_of, opt_string_view,
    refreshed_invitation, InviteMemberResult,
};
use crate::domain::enums::ScopeTargetView;
use crate::domain::Invitation;
use crate::services::common::role_of_wire;
use crate::domain::ids::prefixed_id;
use crate::store::repo::billing::BillingAccountWithRole;
use crate::store::repo::org::OrgWithRole;
use crate::text::{ascii_lower_seq, eq_ignore_ascii_case_spec, first_index_of, seq_contains_char, trim_spec};

verus! {

/// An organization's own SSO configuration takes precedence over its
/// billing account's; without one, the billing account's governs.
pub proof fn law_org_sso_takes_precedence(s: RepoState, billing: Seq<char>, org: Seq<char>)
    ensures
        s.sso_configs.contains_key((ScopeKind::Org, org)) ==> governing_sso(s, billing, Some(org)) == Some(
            s.sso_configs[(ScopeKind::Org, org)],
        ),
        !s.sso_configs.contains_key((ScopeKind::Org, org)) ==> governing_sso(s, billing, Some(org))
            == governing_sso(s, billing, None),
        governing_sso(s, billing, None) == s.sso_configs.get((ScopeKind::Billing, billing)),
{
}

/// The break-glass user of the governing configuration is never locked
/// out of password sign-in, and nobody is where that configuration does
/// not require SSO or there is none.
pub proof fn law_break_glass_keeps_password_access(
    s: RepoState,
    billing: Seq<char>,
    org: Option<Seq<char>>,
    user: Seq<char>,
)
    ensures
        governing_sso(s, billing, org) matches Some(c) && c.break_glass_user_id@ == user ==> !sso_locked(
            s,
            billing,
            org,
            user,
        ),
        governing_sso(s, billing, org) is None ==> !sso_locked(s, billing, org, user),
        governing_sso(s, billing, org) matches Some(c) && !c.required ==> !sso_locked(s, billing, org, user),
{
}

/// Whoever configures SSO on a billing account is its break-glass user and
/// keeps password access to it, however `required` was set.
pub proof fn law_configurer_keeps_password_access(
    before: RepoState,
    after: RepoState,
    cfg: SsoConfig,
    billing: Seq<char>,
    idp_id: Seq<char>,
    kind: i32,
    login_url: Seq<char>,
    configurer: Seq<char>,
    required: bool,
    now_ms: i64,
)
    requires
        after.sso_configs == before.sso_configs.insert((ScopeKind::Billing, billing), cfg),
        sso_config_fields(cfg, ScopeKind::Billing, billing, idp_id, kind, login_url, configurer, required, now_ms),
    ensures
        governing_sso(after, billing, None) == Some(cfg),
        !sso_locked(after, billing, None, configurer),
{
}

/// Whoever configures SSO on an organization is its break-glass user and
/// keeps password access to it, whatever its billing account requires.
pub proof fn law_org_configurer_keeps_password_access(
    before: RepoState,
    after: RepoState,
    cfg: SsoConfig,
    billing: Seq<char>,
    org: Seq<char>,
    idp_id: Seq<char>,
    kind: i32,
    login_url: Seq<char>,
    configurer: Seq<char>,
    required: bool,
    now_ms: i64,
)
    requires
        after.sso_configs == before.sso_configs.insert((ScopeKind::Org, org), cfg),
        sso_config_fields(cfg, ScopeKind::Org, org, idp_id, kind, login_url, configurer, required, now_ms),
    ensures
        governing_sso(after, billing, Some(org)) == Some(cfg),
        !sso_locked(after, billing, Some(org), configurer),
{
}

/// The identity provider an invitation requires is the one frozen into it
/// at issuance: accepting it through any other sign-in is refused and
/// changes nothing, whatever SSO configuration the scope holds now.
pub proof fn law_invitation_keeps_its_frozen_idp(
    old: RepoState,
    new: RepoState,
    session: SessionView,
    now_ms: i64,
    inv: InvitationTokenView,
    idp: Seq<char>,
    r: Result<AcceptedInvitation, RpcError>,
)
    requires
        accepted_with(old, new, session, now_ms, inv, r),
        old.users.contains_key(session.user),
        eq_ignore_ascii_case_spec(inv.email, old.users[session.user].email@),
        old.invitations.contains_key(inv.invitation_id),
        pending_check(old.invitations[inv.invitation_id], inv.nonce) is Ok,
        inv.required_idp == Some(idp),
        !signed_in_through(session.auth_method, idp),
    ensures
        r matches Err(x) && x@ == rpc_err(Code::PermissionDenied, "this invitation requires SSO via "@ + idp),
        new == old,
{
    assert(user_lookup(old.users, session.user) == Ok::<_, crate::services::error::RpcErrorView>(
        old.users[session.user],
    ));
}

/// SSO never links an identity to an existing account on a matching
/// email: where the IdP's subject is unknown and the email is already in
/// use, the sign-in is refused as already existing and nothing changes.
pub proof fn law_sso_never_links_by_email(
    before: RepoState,
    after: RepoState,
    key: Seq<u8>,
    ttl: i64,
    now_ms: i64,
    idp: Seq<char>,
    idp_user: Seq<char>,
    email: Seq<char>,
    r: Result<SsoCompleted, RpcError>,
)
    requires
        sso_sign_in(before, after, key, ttl, now_ms, idp, idp_user, email, r),
        !identity_in_use(before, sso_provider_tag(idp), idp_user),
        email_in_use(before, email),
    ensures
        after == before,
        rpc_result(r) == Err::<SsoCompleted, crate::services::error::RpcErrorView>(
            store_rpc(StoreErrorView::AlreadyExists("user with email "@ + email)),
        ),
{
}

/// Billing and organization memberships are orthogonal: changing or
/// removing a billing membership leaves every organization membership as
/// it was, and the other way round.
pub proof fn law_memberships_are_orthogonal(
    s: RepoState,
    new: RepoState,
    user: Seq<char>,
    scope: Seq<char>,
    role: Role,
    r: Result<(), StoreErrorView>,
)
    ensures
        billing_member_removed(s, new, user, scope, r) ==> new.org_memberships == s.org_memberships,
        billing_role_updated(s, new, user, scope, role, r) ==> new.org_memberships == s.org_memberships,
        org_member_removed(s, new, user, scope, r) ==> new.billing_memberships == s.billing_memberships,
        org_role_updated(s, new, user, scope, role, r) ==> new.billing_memberships == s.billing_memberships,
{
}

/// The domain of `local@domain`, when the local part holds no `@` and the
/// trimmed domain is non-empty and holds no `@`, is that trimmed domain in
/// lower case, whatever the local part is.
pub proof fn law_email_domain_of_address(local: Seq<char>, domain: Seq<char>)
    requires
        !seq_contains_char(local, '@'),
        trim_spec(domain).len() > 0,
        !seq_contains_char(trim_spec(domain), '@'),
    ensures
        email_domain_spec(local + seq!['@'] + domain) == Some(ascii_lower_seq(trim_spec(domain))),
{
    let e = local + seq!['@'] + domain;
    let n = local.len() as int;
    assert(e[n] == '@');
    assert(exists|i: int| 0 <= i < e.len() && e[i] == '@');
    let i = first_index_of(e, '@')->0;
    assert(0 <= i < e.len() && e[i] == '@' && forall|j: int| 0 <= j < i ==> e[j] != '@');
    if i < n {
        assert(e[i] == local[i]);
    }
    if i > n {
        assert(e[n] != '@');
    }
    assert(i == n);
    assert(e.subrange(0, n) =~= local);
    assert(e.subrange(n + 1, e.len() as int) =~= domain);
}

/// An address without `@` has no domain.
pub proof fn law_email_domain_needs_at(email: Seq<char>)
    requires
        !seq_contains_char(email, '@'),
    ensures
        email_domain_spec(email) is None,
{
}

/// Who-am-I reports the SSO kind exactly for a session obtained through
/// SSO, with that session's identity provider, and the password kind
/// otherwise.
pub proof fn law_whoami_reports_auth_method(
    user: User,
    billing: BillingAccount,
    org: Option<Organization>,
    role: Role,
    auth_method: AuthMethodView,
    billings: Seq<BillingAccountWithRole>,
    orgs: Seq<OrgWithRole>,
)
    ensures
        (whoami_view(user, billing, org, role, auth_method, billings, orgs).auth_method.kind == AuthMethodKind::Sso)
            <==> (auth_method is Sso),
        auth_method matches AuthMethodView::Sso(idp) ==> whoami_view(
            user,
            billing,
            org,
            role,
            auth_method,
            billings,
            orgs,
        ).auth_method.idp_id == idp,
        auth_method is Password ==> whoami_view(user, billing, org, role, auth_method, billings, orgs).auth_method.kind
            == AuthMethodKind::Password,
{
}

/// Anyone with a membership in an organization, or in the billing account
/// it belongs to, may read it; nobody else may.
pub proof fn law_org_readers(s: RepoState, user: Seq<char>, o: Organization)
    ensures
        s.billing_memberships.contains_key((user, o.billing_account_id@)) ==> org_visible(s, user, o),
        s.org_memberships.contains_key((user, o.id@)) ==> org_visible(s, user, o),
        !s.billing_memberships.contains_key((user, o.billing_account_id@)) && !s.org_memberships.contains_key(
            (user, o.id@),
        ) ==> !org_visible(s, user, o),
{
}

/// Each stored invoice status is listed as its own wire status: `paid` as
/// Paid, `open` as Open, `void` as Void, and any other text as
/// Unspecified.
pub proof fn law_invoice_status_wire(s: Seq<char>)
    ensures
        (invoice_status_code(s) == InvoiceStatusCode::Paid) <==> (s == "paid"@),
        (invoice_status_code(s) == InvoiceStatusCode::Open) <==> (s == "open"@),
        (invoice_status_code(s) == InvoiceStatusCode::Void) <==> (s == "void"@),
        (invoice_status_code(s) == InvoiceStatusCode::Unspecified) <==> (s != "paid"@ && s != "open"@ && s
            != "void"@),
{
    reveal_strlit("paid");
    reveal_strlit("open");
    reveal_strlit("void");
    assert("paid"@ != "open"@ && "paid"@ != "void"@ && "open"@ != "void"@) by {
        assert("paid"@[0] != "open"@[0]);
        assert("paid"@[0] != "void"@[0]);
        assert("open"@[0] != "void"@[0]);
    }
}

/// An invitation issued by an invite carries a required identity provider
/// exactly when the governing SSO configuration at issuance requires SSO,
/// and then it is that configuration's provider; where SSO is optional or
/// not configured, the invitation requires none.
pub proof fn law_invitation_requires_idp_only_when_sso_required(
    old: RepoState,
    new: RepoState,
    key: Seq<u8>,
    ttl: i64,
    now_ms: i64,
    email: Seq<char>,
    role_wire: i32,
    inviter: Seq<char>,
    scope: ScopeTargetView,
    billing: Seq<char>,
    r: Result<InviteMemberResult, RpcError>,
    k: Seq<char>,
)
    requires
        invite_outcome(old, new, key, ttl, now_ms, email, role_wire, inviter, scope, billing, r),
        !old.invitations.contains_key(k),
        new.invitations.contains_key(k),
    ensures
        governing_sso(old, billing, org_of(scope)) is None ==> new.invitations[k].required_idp is None,
        governing_sso(old, billing, org_of(scope)) matches Some(c) ==> (c.required ==> opt_string_view(
            new.invitations[k].required_idp,
        ) == Some(c.idp_id@)) && (!c.required ==> new.invitations[k].required_idp is None),
{
    let role = role_of_wire(role_wire)->Ok_0;
    let c = governing_sso(old, billing, org_of(scope));
    let idp = crate::services::invite::required_idp_of(c);
    let exp = (now_ms + ttl * 1000) as i64;
    let nu = choose|nu: Seq<char>|
        #![trigger prefixed_id("inv"@, nu)]
        nu.len() == 36 && invite_stored(
            old,
            new,
            key,
            ttl,
            now_ms,
            email,
            role,
            inviter,
            scope,
            idp,
            prefixed_id("inv"@, nu),
            exp,
            r,
        );
    let nonce = prefixed_id("inv"@, nu);
    if crate::store::repo::invitation::pending_exists(old, scope.kind(), scope.id(), email) {
        let j = choose|j: Seq<char>|
            #[trigger] old.invitations.contains_key(j) && crate::store::repo::invitation::pending_in_scope(
                scope.kind(),
                scope.id(),
                email,
            )(j, old.invitations[j]) && invitation_refreshed(old, new, j, nonce, exp) && crate::services::invite::invite_minted(
                key,
                j,
                crate::auth::invitation_token::MintInvitationView {
                    invitation_id: j,
                    email: old.invitations[j].email@,
                    scope_kind: scope.kind(),
                    scope_id: scope.id(),
                    role,
                    required_idp: idp,
                    nonce,
                    now_unix: crate::state::unix_of(now_ms),
                    ttl_seconds: ttl,
                },
                r,
            );
        let ns = choose|ns: String|
            ns@ == nonce && new == (RepoState {
                invitations: old.invitations.insert(j, #[trigger] refreshed_invitation(old.invitations[j], ns, exp)),
                ..old
            });
        assert(new.invitations.contains_key(k) ==> old.invitations.contains_key(k) || k == j);
        assert(false);
    } else {
        let (i, iu) = choose|i: Invitation, iu: Seq<char>|
            #![trigger old.invitations.insert(i.id@, i), prefixed_id("inv"@, iu)]
            iu.len() == 36 && new_invitation(i, prefixed_id("inv"@, iu), scope, email, role, inviter, idp, nonce, exp, now_ms)
                && new == (RepoState { invitations: old.invitations.insert(i.id@, i), ..old })
                && crate::services::invite::invite_minted(
                key,
                i.id@,
                crate::auth::invitation_token::MintInvitationView {
                    invitation_id: i.id@,
                    email,
                    scope_kind: scope.kind(),
                    scope_id: scope.id(),
                    role,
                    required_idp: idp,
                    nonce,
                    now_unix: crate::state::unix_of(now_ms),
                    ttl_seconds: ttl,
                },
                r,
            );
        assert(k == i.id@);
        assert(new.invitations[k] == i);
    }
}

/// Roles travel on the wire and back unchanged: every role reads back
/// from its wire value, distinct roles have distinct wire values, and a
/// wire value that reads as a role is that role's.
pub proof fn law_role_wire_roundtrip(r: Role, v: i32)
    ensures
        role_of_wire(role_wire(r)) == Ok::<Role, crate::services::error::RpcErrorView>(r),
        role_of_wire(v) matches Ok(x) ==> role_wire(x) == v,
        role_wire(r) == role_wire(Role::Owner) <==> r == Role::Owner,
{
}

/// Each stored subscription status is reported as its own wire status:
/// `active`, `past_due`, `canceled`, and `none` (no subscription), and any
/// other text as Unspecified.
pub proof fn law_subscription_status_wire(s: Seq<char>)
    ensures
        (subscription_status_code(s) == SubscriptionStatusCode::Active) <==> (s == "active"@),
        (subscription_status_code(s) == SubscriptionStatusCode::PastDue) <==> (s == "past_due"@),
        (subscription_status_code(s) == SubscriptionStatusCode::Canceled) <==> (s == "canceled"@),
        (subscription_status_code(s) == SubscriptionStatusCode::Unsubscribed) <==> (s == "none"@),
{
    reveal_strlit("active");
    reveal_strlit("past_due");
    reveal_strlit("canceled");
    reveal_strlit("none");
    assert("active"@[0] != "past_due"@[0] && "active"@[0] != "canceled"@[0] && "active"@[0] != "none"@[0]);
    assert("past_due"@[0] != "canceled"@[0] && "past_due"@[0] != "none"@[0] && "canceled"@[0] != "none"@[0]);
}

/// The SSO kinds OIDC (1) and SAML (2) keep their wire value through their
/// stored name, and an unknown wire value is never stored as a known kind.
pub proof fn law_sso_kind_roundtrip(v: i32)
    ensures
        (v == 1 || v == 2) ==> sso_kind_wire(sso_kind_name(v)) == v,
        v != 1 && v != 2 ==> sso_kind_wire(sso_kind_name(v)) == 0,
{
    reveal_strlit("oidc");
    reveal_strlit("saml");
    reveal_strlit("unknown:");
    assert("oidc"@[0] != "saml"@[0]);
    if v != 1 && v != 2 {
        let n = sso_kind_name(v);
        assert(n[0] == 'u');
        assert(n != "oidc"@ && n != "saml"@);
    }
}

/// A timestamp gives back the milliseconds it was made from: whole seconds
/// and nanoseconds of the same sign, with fewer than a second of
/// nanoseconds, in whole milliseconds.
pub proof fn law_timestamp_of_ms(ms: i64)
    ensures
        timestamp_of_ms(ms as int).seconds * 1000 + timestamp_of_ms(ms as int).nanos / 1_000_000 == ms,
        timestamp_of_ms(ms as int).nanos % 1_000_000 == 0,
        -1_000_000_000 < timestamp_of_ms(ms as int).nanos < 1_000_000_000,
        ms >= 0 ==> timestamp_of_ms(ms as int).nanos >= 0,
        ms < 0 ==> timestamp_of_ms(ms as int).nanos <= 0,
{
    let q = crate::time::seconds_of_ms(ms as int);
    let rem = ms - q * 1000;
    assert(-1000 < rem < 1000) by (nonlinear_arith)
        requires
            q == (if ms >= 0 { ms / 1000 } else { -((-ms) / 1000) }),
            rem == ms - q * 1000,
    ;
    assert((rem * 1_000_000) / 1_000_000 == rem) by (nonlinear_arith);
    assert((rem * 1_000_000) % 1_000_000 == 0) by (nonlinear_arith);
    assert(ms >= 0 ==> rem >= 0) by (nonlinear_arith)
        requires
            q == (if ms >= 0 { ms / 1000 } else { -((-ms) / 1000) }),
            rem == ms - q * 1000,
    ;
    assert(ms < 0 ==> rem <= 0) by (nonlinear_arith)
        requires
            q == (if ms >= 0 { ms / 1000 } else { -((-ms) / 1000) }),
            rem == ms - q * 1000,
    ;
    assert(-1_000_000_000 < rem * 1_000_000 < 1_000_000_000) by (nonlinear_arith)
        requires
            -1000 < rem < 1000,
    ;
    assert(i64::MIN <= q <= i64::MAX) by (nonlinear_arith)
        requires
            q == (if ms >= 0 { ms / 1000 } else { -((-ms) / 1000) }),
            i64::MIN <= ms <= i64::MAX,
    ;
}

} // verus!
