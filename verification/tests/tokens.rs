use base64::Engine;
use multitenant_worker::auth::tokens::{
    mint_email_verify, mint_invitation, mint_password_reset, mint_session, verify_email_verify,
    verify_invitation, verify_password_reset, verify_session, MintInvitationInput,
    MintSessionInput, TokenError,
};
use multitenant_worker::auth::Keyring;
use multitenant_worker::domain::{
    AuthMethod, BillingAccountId, InvitationId, OrgId, Role, ScopeKind, UserId,
};

fn keyring() -> Keyring {
    Keyring::dev_default()
}

fn uid(s: &str) -> UserId {
    UserId::from_string(s.to_string())
}

fn bid(s: &str) -> BillingAccountId {
    BillingAccountId::from_string(s.to_string())
}

#[test]
fn session_roundtrip() {
    let kr = keyring();
    let user = uid("u_1");
    let billing = bid("ba_1");
    let token = mint_session(
        &kr,
        MintSessionInput {
            user_id: &user,
            email: "ada@example.com",
            billing: &billing,
            org: None,
            role: Role::Owner,
            auth_method: &AuthMethod::Password,
            now_unix: 1_000,
            ttl_seconds: 60,
        },
    )
    .unwrap();
    let session = verify_session(&kr, 1_001, &token).unwrap();
    assert_eq!(session.user, user);
    assert_eq!(session.email, "ada@example.com");
    assert_eq!(session.billing, billing);
    assert_eq!(session.role, Role::Owner);
    assert_eq!(session.auth_method, AuthMethod::Password);
}

#[test]
fn session_rejects_after_expiry() {
    let kr = keyring();
    let user = uid("u_2");
    let billing = bid("ba_2");
    let token = mint_session(
        &kr,
        MintSessionInput {
            user_id: &user,
            email: "x@y",
            billing: &billing,
            org: None,
            role: Role::Member,
            auth_method: &AuthMethod::Password,
            now_unix: 0,
            ttl_seconds: 10,
        },
    )
    .unwrap();
    assert!(verify_session(&kr, 100, &token).is_err());
}

#[test]
fn session_rejects_wrong_key() {
    let kr = keyring();
    let other = Keyring::from_key(libmacaroon::MacaroonKey::generate(b"other"));
    let user = uid("u_3");
    let billing = bid("ba_3");
    let token = mint_session(
        &kr,
        MintSessionInput {
            user_id: &user,
            email: "x@y",
            billing: &billing,
            org: None,
            role: Role::Owner,
            auth_method: &AuthMethod::Password,
            now_unix: 0,
            ttl_seconds: 60,
        },
    )
    .unwrap();
    assert!(verify_session(&other, 1, &token).is_err());
}

#[test]
fn invitation_token_carries_required_idp() {
    let kr = keyring();
    let invitation_id = InvitationId::from_string("inv_1".to_string());
    let token = mint_invitation(
        &kr,
        MintInvitationInput {
            invitation_id: &invitation_id,
            email: "new@user.com",
            scope_kind: ScopeKind::Org,
            scope_id: "o_1",
            role: Role::Member,
            required_idp: Some("acme-okta"),
            nonce: "n1",
            now_unix: 0,
            ttl_seconds: 600,
        },
    )
    .unwrap();
    let parsed = verify_invitation(&kr, 1, &token).unwrap();
    assert_eq!(parsed.scope_kind, ScopeKind::Org);
    assert_eq!(parsed.scope_id, "o_1");
    assert_eq!(parsed.required_idp.as_deref(), Some("acme-okta"));
    assert_eq!(parsed.nonce, "n1");
}

#[test]
fn cross_purpose_rejected() {
    let kr = keyring();
    let user = uid("u_x");
    let session_token = mint_session(
        &kr,
        MintSessionInput {
            user_id: &user,
            email: "x@y",
            billing: &bid("ba_x"),
            org: None,
            role: Role::Member,
            auth_method: &AuthMethod::Password,
            now_unix: 0,
            ttl_seconds: 60,
        },
    )
    .unwrap();
    // Treat the session token as an invitation — must fail.
    assert!(verify_invitation(&kr, 1, &session_token).is_err());
}

#[test]
fn session_carries_org_and_sso_method() {
    let kr = keyring();
    let user = uid("u_4");
    let billing = bid("ba_4");
    let org = OrgId::from_string("o_4".to_string());
    let token = mint_session(
        &kr,
        MintSessionInput {
            user_id: &user,
            email: "sso@example.com",
            billing: &billing,
            org: Some(&org),
            role: Role::Member,
            auth_method: &AuthMethod::Sso("okta".into()),
            now_unix: 50,
            ttl_seconds: 100,
        },
    )
    .unwrap();
    let session = verify_session(&kr, 149, &token).unwrap();
    assert_eq!(session.org, Some(org));
    assert_eq!(session.role, Role::Member);
    assert_eq!(session.auth_method, AuthMethod::Sso("okta".into()));
    assert_eq!(session.exp_unix, 150);
    // At the expiry second the token no longer verifies.
    assert!(matches!(verify_session(&kr, 150, &token), Err(_)));
}

#[test]
fn password_reset_roundtrip_and_purpose() {
    let kr = keyring();
    let user = uid("u_5");
    let token = mint_password_reset(&kr, &user, "pwr_n", 10, 900).unwrap();
    let parsed = verify_password_reset(&kr, 11, &token).unwrap();
    assert_eq!(parsed.user_id, user);
    assert_eq!(parsed.nonce, "pwr_n");
    assert_eq!(parsed.exp_unix, 910);
    // A reset token is no email-verification token.
    assert!(verify_email_verify(&kr, 11, &token).is_err());
}

#[test]
fn token_error_messages() {
    let e = TokenError::WrongPurpose {
        expected: multitenant_worker::domain::TokenPurpose::EmailVerify,
        found: "password_reset".to_string(),
    };
    assert_eq!(e.to_string(), "wrong token purpose: expected email_verify, got password_reset");
    assert_eq!(TokenError::Expired.to_string(), "token expired");
    assert_eq!(TokenError::InvalidCaveat("x".into()).to_string(), "invalid caveat: x");
}

#[test]
fn email_verify_roundtrip() {
    let kr = keyring();
    let user = uid("u_6");
    let token = mint_email_verify(&kr, &user, "ev_n", 0, 60).unwrap();
    let parsed = verify_email_verify(&kr, 1, &token).unwrap();
    assert_eq!(parsed.user_id, user);
    assert_eq!(parsed.nonce, "ev_n");
}

#[test]
fn garbage_token_is_malformed() {
    let kr = keyring();
    let err = verify_session(&kr, 1, "not a token").unwrap_err();
    assert!(matches!(err, TokenError::Malformed(_) | TokenError::InvalidSignature));
}

#[test]
fn keyring_from_base64_checks_length() {
    let key32 = base64::engine::general_purpose::STANDARD.encode([7u8; 32]);
    let kr = Keyring::from_base64(&key32).unwrap();
    assert_eq!(kr.root(), &[7u8; 32]);
    let short = base64::engine::general_purpose::STANDARD.encode([7u8; 16]);
    assert!(Keyring::from_base64(&short).is_err());
    assert!(Keyring::from_base64("***").is_err());
}
