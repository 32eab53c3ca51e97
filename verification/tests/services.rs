use std::time::{SystemTime, UNIX_EPOCH};

use multitenant_worker::auth::tokens::verify_session;
use multitenant_worker::auth::{Keyring, SessionContext};
use multitenant_worker::billing::InMemoryBillingProvider;
use multitenant_worker::domain::{AuthMethod, Role, ScopeKind};
use multitenant_worker::services::common::{email_domain, role_from_i32, validate_email};
use multitenant_worker::services::convert::{
    ms_to_timestamp, sso_kind_from_domain, sso_kind_to_domain, subscription_status_to_pb,
    AuthMethodKind, SubscriptionStatusCode, Timestamp,
};
use multitenant_worker::services::error::{
    map_password_error, map_token_error, Code,
};
use multitenant_worker::services::{AuthServer, BillingServer, InvitationServer, OrgServer};
use multitenant_worker::state::{AppState, Config};
use multitenant_worker::store::repo::{BillingRepo, MembershipRepo, SsoConfigRepo, UserRepo};
use multitenant_worker::store::InMemoryRepo;
use multitenant_worker::time::SystemClock;

type State = AppState<InMemoryRepo, InMemoryBillingProvider, SystemClock>;

fn now_ms() -> i64 {
    SystemTime::now().duration_since(UNIX_EPOCH).unwrap().as_millis() as i64
}

fn build_test_state() -> State {
    AppState {
        repo: InMemoryRepo::new(),
        billing: InMemoryBillingProvider::new(),
        keyring: Keyring::dev_default(),
        clock: SystemClock::new(),
        config: Config::default(),
    }
}

fn signup(state: &mut State, email: &str, password: &str) -> String {
    AuthServer::signup(state, now_ms(), email, password, None).unwrap().session_token
}

fn parse_session(token: &str, kr: &Keyring) -> SessionContext {
    let now_unix = SystemTime::now().duration_since(UNIX_EPOCH).unwrap().as_secs() as i64;
    verify_session(kr, now_unix, token).unwrap()
}

#[test]
fn signup_then_login_round_trip() {
    let mut state = build_test_state();
    let token = signup(&mut state, "ada@example.com", "correct horse staple");
    // Login with same credentials.
    let resp = AuthServer::login(&state, now_ms(), "ada@example.com", "correct horse staple").unwrap();
    assert!(!resp.session_token.is_empty());
    let session = parse_session(&token, &state.keyring);
    assert_eq!(session.email, "ada@example.com");
    assert_eq!(session.role, Role::Owner);
    assert_eq!(session.auth_method, AuthMethod::Password);
}

#[test]
fn login_rejects_wrong_password() {
    let mut state = build_test_state();
    let _ = signup(&mut state, "x@y", "right-password");
    let err = AuthServer::login(&state, now_ms(), "x@y", "wrong-password").unwrap_err();
    assert_eq!(err.code, Code::Unauthenticated);
}

#[test]
fn whoami_lists_billing_memberships() {
    let mut state = build_test_state();
    let token = signup(&mut state, "ada@example.com", "verylong-password");
    let session = parse_session(&token, &state.keyring);
    let info = AuthServer::whoami(&state, &session).unwrap();
    assert_eq!(info.email, "ada@example.com");
    assert_eq!(info.billing_memberships.len(), 1);
    assert!(info.billing_memberships[0].display_name.contains("personal"));
}

#[test]
fn invite_accept_via_signup_creates_billing_membership() {
    let mut state = build_test_state();

    // Owner signs up and creates a non-personal billing account.
    let owner_token = signup(&mut state, "owner@example.com", "verylong-password");
    let owner_session = parse_session(&owner_token, &state.keyring);
    let owner_user = owner_session.user.clone();

    // Need a non-personal billing for the invite. Create one
    // directly via the repo (no public RPC for this in the demo).
    let billing_acc = state.repo.create_billing_account("Acme".into(), owner_user.clone(), now_ms()).unwrap();

    // Switch context to operate from Acme.
    let switched = AuthServer::switch_context(
        &state,
        &owner_session,
        now_ms(),
        Some(billing_acc.id.as_str()),
        None,
    )
    .unwrap();
    let owner_session_in_acme = parse_session(&switched.session_token, &state.keyring);

    // Invite a new user.
    let invite_resp = BillingServer::invite_member(
        &mut state,
        &owner_session_in_acme,
        now_ms(),
        billing_acc.id.as_str(),
        "newcomer@example.com",
        2,
    )
    .unwrap();
    assert!(!invite_resp.invite_token.is_empty());

    // Newcomer signs up with the invite token.
    let signup_resp = AuthServer::signup(
        &mut state,
        now_ms(),
        "newcomer@example.com",
        "another-very-long-password",
        Some(invite_resp.invite_token.as_str()),
    )
    .unwrap();
    let newcomer_session = parse_session(&signup_resp.session_token, &state.keyring);

    // Membership should now exist.
    let mem = state.repo.get_billing_membership(&newcomer_session.user, &billing_acc.id).unwrap();
    assert!(mem.is_some());
    assert_eq!(mem.unwrap().role, Role::Member);
}

#[test]
fn create_org_and_member_visibility() {
    let mut state = build_test_state();
    let owner_token = signup(&mut state, "owner@example.com", "verylong-password");
    let owner_session = parse_session(&owner_token, &state.keyring);
    let owner_user = owner_session.user.clone();
    let billing = state.repo.create_billing_account("Acme".into(), owner_user.clone(), now_ms()).unwrap();

    // Switch to Acme, then create an org.
    let switched =
        AuthServer::switch_context(&state, &owner_session, now_ms(), Some(billing.id.as_str()), None).unwrap();
    let owner_in_acme = parse_session(&switched.session_token, &state.keyring);

    let org = OrgServer::create_organization(&mut state, &owner_in_acme, now_ms(), billing.id.as_str(), "Engineering")
        .unwrap();
    assert_eq!(org.display_name, "Engineering");
    assert_eq!(org.billing_account_id, billing.id.to_string());
}

#[test]
fn change_password_requires_old_password() {
    let mut state = build_test_state();
    let token = signup(&mut state, "x@y", "old-very-long-password");
    let session = parse_session(&token, &state.keyring);
    let err = AuthServer::change_password(&mut state, &session, "wrong-old", "another-very-long-pw").unwrap_err();
    assert_eq!(err.code, Code::Unauthenticated);
}

// ----- further scenarios -----

#[test]
fn signup_validates_email_and_password() {
    let mut state = build_test_state();
    let err = AuthServer::signup(&mut state, now_ms(), "   ", "verylong-password", None).unwrap_err();
    assert_eq!(err.code, Code::InvalidArgument);
    assert_eq!(err.message, "email is required");
    let err = AuthServer::signup(&mut state, now_ms(), "nobody", "verylong-password", None).unwrap_err();
    assert_eq!(err.message, "email must contain '@'");
    let err = AuthServer::signup(&mut state, now_ms(), "a@b@c", "verylong-password", None).unwrap_err();
    assert_eq!(err.message, "malformed email");
    let err = AuthServer::signup(&mut state, now_ms(), "a@b", "short", None).unwrap_err();
    assert_eq!(err.code, Code::InvalidArgument);
    assert_eq!(err.message, "password too short (5 chars, need 8)");
}

#[test]
fn duplicate_signup_is_already_exists() {
    let mut state = build_test_state();
    let _ = signup(&mut state, "ada@example.com", "verylong-password");
    let err = AuthServer::signup(&mut state, now_ms(), "ADA@example.com", "verylong-password", None).unwrap_err();
    assert_eq!(err.code, Code::AlreadyExists);
    assert_eq!(err.message, "resource already exists");
}

#[test]
fn login_unknown_email_is_invalid_credentials() {
    let state = build_test_state();
    let err = AuthServer::login(&state, now_ms(), "ghost@example.com", "whatever-pass").unwrap_err();
    assert_eq!(err.code, Code::Unauthenticated);
    assert_eq!(err.message, "invalid credentials");
}

#[test]
fn change_password_then_login_with_new_one() {
    let mut state = build_test_state();
    let token = signup(&mut state, "x@y", "old-very-long-password");
    let session = parse_session(&token, &state.keyring);
    AuthServer::change_password(&mut state, &session, "old-very-long-password", "new-very-long-password").unwrap();
    assert!(AuthServer::login(&state, now_ms(), "x@y", "old-very-long-password").is_err());
    AuthServer::login(&state, now_ms(), "x@y", "new-very-long-password").unwrap();
}

#[test]
fn password_reset_flow_is_single_use() {
    let mut state = build_test_state();
    let _ = signup(&mut state, "x@y", "old-very-long-password");
    let token = AuthServer::request_password_reset(&state, now_ms(), "x@y").unwrap().unwrap();
    assert!(AuthServer::request_password_reset(&state, now_ms(), "nobody@y").unwrap().is_none());
    let issued = AuthServer::consume_password_reset(&mut state, now_ms(), &token, "reset-very-long-password").unwrap();
    assert!(!issued.session_token.is_empty());
    AuthServer::login(&state, now_ms(), "x@y", "reset-very-long-password").unwrap();
    let err = AuthServer::consume_password_reset(&mut state, now_ms(), &token, "again-very-long-password").unwrap_err();
    assert_eq!(err.code, Code::FailedPrecondition);
    assert_eq!(err.message, "reset token already used");
}

#[test]
fn sso_required_blocks_password_login_except_break_glass() {
    let mut state = build_test_state();
    let owner_token = signup(&mut state, "owner@example.com", "verylong-password");
    let owner = parse_session(&owner_token, &state.keyring);
    let other_token = signup(&mut state, "other@example.com", "verylong-password");
    let other = parse_session(&other_token, &state.keyring);
    // The other user requires SSO on their personal account, with the
    // owner as break-glass user: the other user can no longer log in.
    state
        .repo
        .upsert_sso_config(multitenant_worker::domain::SsoConfig {
            scope_kind: ScopeKind::Billing,
            scope_id: other.billing.to_string(),
            idp_id: "okta".into(),
            kind: "oidc".into(),
            login_url: "https://idp.example/login".into(),
            break_glass_user_id: owner.user.clone(),
            required: true,
            updated_at_ms: now_ms(),
        })
        .unwrap();
    let err = AuthServer::login(&state, now_ms(), "other@example.com", "verylong-password").unwrap_err();
    assert_eq!(err.code, Code::PermissionDenied);
    assert_eq!(err.message, "SSO is required on this account; password login is disabled");
}

#[test]
fn sso_round_trip_creates_user_just_in_time() {
    let mut state = build_test_state();
    let owner_token = signup(&mut state, "boss@acme.com", "verylong-password");
    let owner = parse_session(&owner_token, &state.keyring);
    let acme = state.repo.create_billing_account("Acme".into(), owner.user.clone(), now_ms()).unwrap();
    let cfg = BillingServer::configure_sso(
        &mut state,
        &owner,
        now_ms(),
        acme.id.as_str(),
        "okta",
        1,
        "https://idp.example/login?tenant=acme",
        true,
    )
    .unwrap();
    assert_eq!(cfg.kind, 1);
    assert_eq!(cfg.break_glass_user_id, owner.user.to_string());
    BillingServer::set_auto_join_domain(&mut state, &owner, acme.id.as_str(), "acme.com").unwrap();

    let hint = format!("billing:{}", acme.id.as_str());
    let started = AuthServer::sso_start(&mut state, now_ms(), &hint).unwrap();
    assert!(started.state.starts_with("ssost_"));
    assert_eq!(
        started.redirect_url,
        format!("https://idp.example/login?tenant=acme&state={}", started.state)
    );
    // A different IdP is refused (and the state is spent).
    let err = AuthServer::sso_complete(&mut state, now_ms(), "google", "g1", "dev@acme.com", &started.state)
        .unwrap_err();
    assert_eq!(err.code, Code::PermissionDenied);

    let started = AuthServer::sso_start(&mut state, now_ms(), &hint).unwrap();
    let done = AuthServer::sso_complete(&mut state, now_ms(), "okta", "00u1", "dev@acme.com", &started.state)
        .unwrap();
    assert!(done.jit_created);
    let session = parse_session(&done.session_token, &state.keyring);
    assert_eq!(session.auth_method, AuthMethod::Sso("okta".into()));
    let m = state.repo.get_billing_membership(&session.user, &acme.id).unwrap().unwrap();
    assert_eq!(m.role, Role::Member);

    // The same identity signs in again without creating anyone.
    let started = AuthServer::sso_start(&mut state, now_ms(), &hint).unwrap();
    let again = AuthServer::sso_complete(&mut state, now_ms(), "okta", "00u1", "dev@acme.com", &started.state)
        .unwrap();
    assert!(!again.jit_created);
    assert_eq!(parse_session(&again.session_token, &state.keyring).user, session.user);

    // A spent state is unknown.
    let err = AuthServer::sso_complete(&mut state, now_ms(), "okta", "00u1", "dev@acme.com", &started.state)
        .unwrap_err();
    assert_eq!(err.code, Code::InvalidArgument);
    assert_eq!(err.message, "unknown or expired SSO state");
}

#[test]
fn sso_start_needs_a_configured_scope() {
    let mut state = build_test_state();
    let err = AuthServer::sso_start(&mut state, now_ms(), "nonsense").unwrap_err();
    assert_eq!(err.message, "scope_hint must be 'billing:<id>' or 'org:<id>'");
    let err = AuthServer::sso_start(&mut state, now_ms(), "team:x").unwrap_err();
    assert_eq!(err.message, "unknown scope kind: team");
    let err = AuthServer::sso_start(&mut state, now_ms(), "billing:ba_none").unwrap_err();
    assert_eq!(err.code, Code::NotFound);
    assert_eq!(err.message, "no SSO configured for this scope");
}

#[test]
fn switch_context_refuses_non_members() {
    let mut state = build_test_state();
    let a = parse_session(&signup(&mut state, "a@x.com", "verylong-password"), &state.keyring);
    let b = parse_session(&signup(&mut state, "b@x.com", "verylong-password"), &state.keyring);
    let err = AuthServer::switch_context(&state, &a, now_ms(), Some(b.billing.as_str()), None).unwrap_err();
    assert_eq!(err.code, Code::PermissionDenied);
    assert_eq!(err.message, "not a member of the target billing account");
}

#[test]
fn link_identity_and_unknown_provider() {
    let mut state = build_test_state();
    let s = parse_session(&signup(&mut state, "a@x.com", "verylong-password"), &state.keyring);
    let id = AuthServer::link_identity(&mut state, &s, now_ms(), "github", "gh-42").unwrap();
    assert!(id.starts_with("i_"));
    let again = AuthServer::link_identity(&mut state, &s, now_ms(), "github", "gh-42").unwrap();
    assert_eq!(again, id);
    let err = AuthServer::link_identity(&mut state, &s, now_ms(), "myspace", "x").unwrap_err();
    assert_eq!(err.code, Code::InvalidArgument);
    assert_eq!(err.message, "unknown provider myspace");
}

#[test]
fn org_invitation_accept_decline_and_revoke() {
    let mut state = build_test_state();
    let owner = parse_session(&signup(&mut state, "boss@acme.com", "verylong-password"), &state.keyring);
    let acme = state.repo.create_billing_account("Acme".into(), owner.user.clone(), now_ms()).unwrap();
    let org = OrgServer::create_organization(&mut state, &owner, now_ms(), acme.id.as_str(), "  Eng  ").unwrap();
    assert_eq!(org.display_name, "Eng");
    let member = parse_session(&signup(&mut state, "dev@acme.com", "verylong-password"), &state.keyring);

    let invited = OrgServer::invite_member(&mut state, &owner, now_ms(), &org.id, "dev@acme.com", 2).unwrap();
    let seen = InvitationServer::get_invitation(&state, now_ms(), &invited.invite_token).unwrap();
    assert_eq!(seen.scope_display_name, "Eng");
    assert_eq!(seen.scope_kind, ScopeKind::Org);
    let pending = InvitationServer::list_pending_invitations(&state, &member).unwrap();
    assert_eq!(pending.len(), 1);
    assert_eq!(pending[0].scope_display_name, "Eng");

    let accepted = InvitationServer::accept_invitation(&mut state, &member, now_ms(), &invited.invite_token).unwrap();
    assert_eq!(accepted.role, 2);
    assert_eq!(accepted.scope_id, org.id);
    let err = InvitationServer::accept_invitation(&mut state, &member, now_ms(), &invited.invite_token).unwrap_err();
    assert_eq!(err.code, Code::FailedPrecondition);

    // Already a member: a second invitation is refused.
    let err = OrgServer::invite_member(&mut state, &owner, now_ms(), &org.id, "dev@acme.com", 2).unwrap_err();
    assert_eq!(err.message, "user is already a member of this org");

    // Revoke and decline on another invitation.
    let other = OrgServer::invite_member(&mut state, &owner, now_ms(), &org.id, "new@acme.com", 2).unwrap();
    InvitationServer::revoke_invitation(&mut state, &owner, other.invitation_id.as_str()).unwrap();
    let err = InvitationServer::get_invitation(&state, now_ms(), &other.invite_token).unwrap_err();
    assert_eq!(err.message, "invitation has been re-issued; use the latest link");
    let third = OrgServer::invite_member(&mut state, &owner, now_ms(), &org.id, "third@acme.com", 1).unwrap();
    InvitationServer::decline_invitation(&mut state, now_ms(), &third.invite_token).unwrap();
    let err = InvitationServer::decline_invitation(&mut state, now_ms(), &third.invite_token).unwrap_err();
    assert_eq!(err.message, "invitation already responded to");
}

#[test]
fn resend_reissues_under_a_new_nonce() {
    let mut state = build_test_state();
    let owner = parse_session(&signup(&mut state, "boss@acme.com", "verylong-password"), &state.keyring);
    let acme = state.repo.create_billing_account("Acme".into(), owner.user.clone(), now_ms()).unwrap();
    let first = BillingServer::invite_member(&mut state, &owner, now_ms(), acme.id.as_str(), "new@acme.com", 2).unwrap();
    let (info, token) = InvitationServer::resend_invitation(&mut state, &owner, now_ms(), first.invitation_id.as_str()).unwrap();
    assert_eq!(info.id, first.invitation_id.to_string());
    assert!(InvitationServer::get_invitation(&state, now_ms(), &first.invite_token).is_err());
    InvitationServer::get_invitation(&state, now_ms(), &token).unwrap();
    // Re-inviting the same email reuses the pending invitation.
    let again = BillingServer::invite_member(&mut state, &owner, now_ms(), acme.id.as_str(), "NEW@acme.com", 2).unwrap();
    assert_eq!(again.invitation_id, first.invitation_id);
}

#[test]
fn billing_service_guards() {
    let mut state = build_test_state();
    let owner = parse_session(&signup(&mut state, "boss@acme.com", "verylong-password"), &state.keyring);
    let outsider = parse_session(&signup(&mut state, "out@x.com", "verylong-password"), &state.keyring);
    let acme = state.repo.create_billing_account("Acme".into(), owner.user.clone(), now_ms()).unwrap();
    let err = BillingServer::get_billing_account(&state, &outsider, acme.id.as_str()).unwrap_err();
    assert_eq!(err.code, Code::PermissionDenied);
    assert_eq!(err.message, "not a member of this billing account");
    let err = BillingServer::remove_member(&mut state, &owner, owner.billing.as_str(), outsider.user.as_str()).unwrap_err();
    assert_eq!(err.message, "cannot modify membership on a personal billing account");
    let err = BillingServer::set_auto_join_domain(&mut state, &owner, owner.billing.as_str(), "x.com").unwrap_err();
    assert_eq!(err.message, "auto_join_domain is not supported on personal billing accounts");
    let err = BillingServer::update_member_role(&mut state, &owner, acme.id.as_str(), owner.user.as_str(), 7).unwrap_err();
    assert_eq!(err.message, "unknown role value: 7");
    let err = BillingServer::update_member_role(&mut state, &owner, acme.id.as_str(), owner.user.as_str(), 2).unwrap_err();
    assert_eq!(err.code, Code::FailedPrecondition);
    assert_eq!(err.message, "cannot demote the last owner of a billing account");
    let listed = BillingServer::list_billing_accounts(&state, &owner).unwrap();
    assert_eq!(listed.len(), 2);
    BillingServer::delete_billing_account(&mut state, &owner, acme.id.as_str()).unwrap();
    assert!(state.repo.get_billing_account(&acme.id).unwrap().is_none());
}

#[test]
fn subscriptions_and_invoices() {
    let mut state = build_test_state();
    let owner = parse_session(&signup(&mut state, "boss@acme.com", "verylong-password"), &state.keyring);
    let sub = BillingServer::get_subscription(&mut state, &owner, 5_000, owner.billing.as_str()).unwrap();
    assert_eq!(sub.plan, "free");
    assert_eq!(sub.status, SubscriptionStatusCode::Unsubscribed);
    assert_eq!(sub.updated_at, Timestamp { seconds: 5, nanos: 0 });
    BillingServer::set_payment_method(&mut state, &owner, 6_000, owner.billing.as_str(), "pm_1").unwrap();
    let sub = BillingServer::get_subscription(&mut state, &owner, 7_000, owner.billing.as_str()).unwrap();
    assert_eq!(sub.plan, "starter");
    assert_eq!(sub.status, SubscriptionStatusCode::Active);
    assert_eq!(sub.payment_method_token.as_deref(), Some("pm_1"));
    let canceled = BillingServer::cancel_subscription(&mut state, &owner, 8_000, owner.billing.as_str()).unwrap();
    assert_eq!(canceled.status, SubscriptionStatusCode::Canceled);
    let invoices = BillingServer::list_invoices(&state, &owner, owner.billing.as_str()).unwrap();
    assert!(invoices.is_empty());
}

#[test]
fn whoami_after_switch_into_org() {
    let mut state = build_test_state();
    let owner = parse_session(&signup(&mut state, "boss@acme.com", "verylong-password"), &state.keyring);
    let acme = state.repo.create_billing_account("Acme".into(), owner.user.clone(), now_ms()).unwrap();
    let org = OrgServer::create_organization(&mut state, &owner, now_ms(), acme.id.as_str(), "Eng").unwrap();
    let switched = AuthServer::switch_context(&state, &owner, now_ms(), Some(acme.id.as_str()), Some(org.id.as_str())).unwrap();
    let session = parse_session(&switched.session_token, &state.keyring);
    assert_eq!(session.org.as_ref().map(|o| o.to_string()), Some(org.id.clone()));
    let who = AuthServer::whoami(&state, &session).unwrap();
    assert_eq!(who.org_id, org.id);
    assert_eq!(who.role, 1);
    assert_eq!(who.auth_method.kind, AuthMethodKind::Password);
    assert_eq!(who.org_memberships.len(), 2);
    let orgs = OrgServer::list_organizations(&state, &owner, Some(acme.id.as_str())).unwrap();
    assert_eq!(orgs.len(), 1);
    let err = OrgServer::delete_organization(&mut state, &owner, &who.org_memberships.iter().find(|m| m.display_name.contains("personal")).unwrap().scope_id).unwrap_err();
    assert_eq!(err.message, "personal organizations are deleted with the user");
    OrgServer::delete_organization(&mut state, &owner, &org.id).unwrap();
}

#[test]
fn helpers_and_mappings() {
    assert!(validate_email(" a@b ").is_ok());
    assert_eq!(email_domain("Dev@ACME.com ").as_deref(), Some("acme.com"));
    assert!(email_domain("nobody").is_none());
    assert_eq!(role_from_i32(1).unwrap(), Role::Owner);
    assert_eq!(role_from_i32(0).unwrap_err().message, "unknown role value: 0");
    assert_eq!(sso_kind_to_domain(1), "oidc");
    assert_eq!(sso_kind_to_domain(2), "saml");
    assert_eq!(sso_kind_to_domain(9), "unknown:9");
    assert_eq!(sso_kind_from_domain("saml"), 2);
    assert_eq!(sso_kind_from_domain("x"), 0);
    assert_eq!(subscription_status_to_pb("past_due"), SubscriptionStatusCode::PastDue);
    assert_eq!(ms_to_timestamp(1_234), Timestamp { seconds: 1, nanos: 234_000_000 });
    assert_eq!(ms_to_timestamp(-1_500), Timestamp { seconds: -1, nanos: -500_000_000 });
    let e = map_password_error(multitenant_worker::auth::password::PasswordError::Pwned);
    assert_eq!(e.code, Code::InvalidArgument);
    assert_eq!(e.message, "password appears in known-breached corpus; pick another");
    let e = map_token_error(multitenant_worker::auth::tokens::TokenError::Expired);
    assert_eq!(e.code, Code::Unauthenticated);
    assert_eq!(e.message, "token expired");
    let e = map_token_error(multitenant_worker::auth::tokens::TokenError::MissingCaveat("user"));
    assert_eq!(e.message, "missing caveat: user");
}

#[test]
fn state_config_defaults() {
    let c = Config::default();
    assert_eq!(c.session_ttl_seconds, 86_400);
    assert_eq!(c.invitation_ttl_seconds, 7 * 86_400);
    assert_eq!(c.password_reset_ttl_seconds, 900);
    assert_eq!(c.sso_state_ttl_seconds, 600);
    assert!(!c.enforce_email_verification);
    let _ = InMemoryRepo::new().get_user(&multitenant_worker::domain::UserId::new()).unwrap();
}

#[test]
fn sso_never_links_an_existing_account_by_email() {
    let mut state = build_test_state();
    let owner_token = signup(&mut state, "boss@acme.com", "verylong-password");
    let owner = parse_session(&owner_token, &state.keyring);
    let acme = state.repo.create_billing_account("Acme".into(), owner.user.clone(), now_ms()).unwrap();
    BillingServer::configure_sso(
        &mut state,
        &owner,
        now_ms(),
        acme.id.as_str(),
        "okta",
        1,
        "https://idp.example/login",
        false,
    )
    .unwrap();
    let hint = format!("billing:{}", acme.id.as_str());
    let started = AuthServer::sso_start(&mut state, now_ms(), &hint).unwrap();
    // The IdP asserts the owner's email under a new subject: no silent link.
    let err = AuthServer::sso_complete(&mut state, now_ms(), "okta", "00u9", "boss@acme.com", &started.state)
        .unwrap_err();
    assert_eq!(err.code, Code::AlreadyExists);
    // The password account is untouched and still signs in.
    assert!(AuthServer::login(&state, now_ms(), "boss@acme.com", "verylong-password").is_ok());
}

#[test]
fn billing_ownership_grants_no_org_ownership() {
    let mut state = build_test_state();
    let owner = parse_session(&signup(&mut state, "boss@acme.com", "verylong-password"), &state.keyring);
    let acme = state.repo.create_billing_account("Acme".into(), owner.user.clone(), now_ms()).unwrap();
    let org = OrgServer::create_organization(&mut state, &owner, now_ms(), acme.id.as_str(), "Eng").unwrap();
    // A second owner of the billing account, with no membership in the org.
    let co = parse_session(&signup(&mut state, "co@acme.com", "verylong-password"), &state.keyring);
    state.repo.add_billing_membership(&co.user, &acme.id, Role::Owner, now_ms()).unwrap();
    let err = OrgServer::invite_member(&mut state, &co, now_ms(), &org.id, "dev@acme.com", 2).unwrap_err();
    assert_eq!(err.code, Code::PermissionDenied);
    assert_eq!(err.message, "org owner role required");
    let err = OrgServer::delete_organization(&mut state, &co, &org.id).unwrap_err();
    assert_eq!(err.code, Code::PermissionDenied);
}

#[test]
fn enforced_email_verification_blocks_unverified_login() {
    let mut state = build_test_state();
    let _ = signup(&mut state, "new@example.com", "right-password");
    state.config.enforce_email_verification = true;
    let err = AuthServer::login(&state, now_ms(), "new@example.com", "right-password").unwrap_err();
    assert_eq!(err.code, Code::FailedPrecondition);
    assert_eq!(err.message, "email address is not verified");
    // A wrong password is still reported as such first.
    let err = AuthServer::login(&state, now_ms(), "new@example.com", "wrong-password").unwrap_err();
    assert_eq!(err.code, Code::Unauthenticated);
    state.config.enforce_email_verification = false;
    assert!(AuthServer::login(&state, now_ms(), "new@example.com", "right-password").is_ok());
}
