use multitenant_worker::domain::enums::IdentityProvider;
use multitenant_worker::domain::{
    personal_display_name, AuthMethod, InvitationStatus, Role, ScopeKind, ScopeTarget,
    TokenPurpose,
};
use multitenant_worker::domain::{BillingAccountId, OrgId};

#[test]
fn role_roundtrips() {
    assert_eq!(Role::Owner.as_str().parse::<Role>().unwrap(), Role::Owner);
    assert_eq!(Role::Member.as_str().parse::<Role>().unwrap(), Role::Member);
}

#[test]
fn auth_method_roundtrips() {
    assert_eq!(AuthMethod::decode("password").unwrap(), AuthMethod::Password);
    assert_eq!(
        AuthMethod::decode("sso:acme-okta").unwrap(),
        AuthMethod::Sso("acme-okta".into()),
    );
    assert_eq!(AuthMethod::Password.encode(), "password");
    assert_eq!(AuthMethod::Sso("x".into()).encode(), "sso:x");
    assert!(AuthMethod::decode("magic").is_none());
}

#[test]
fn role_parse_rejects_unknown_with_message() {
    let err = Role::parse("admin").unwrap_err();
    assert_eq!(err, "unknown role: admin");
}

#[test]
fn scope_kind_roundtrips_and_rejects_unknown() {
    assert_eq!(ScopeKind::parse(ScopeKind::Billing.as_str()).unwrap(), ScopeKind::Billing);
    assert_eq!(ScopeKind::parse(ScopeKind::Org.as_str()).unwrap(), ScopeKind::Org);
    assert_eq!(ScopeKind::parse("team").unwrap_err(), "unknown scope kind: team");
}

#[test]
fn invitation_status_roundtrips() {
    for s in [
        InvitationStatus::Pending,
        InvitationStatus::Accepted,
        InvitationStatus::Declined,
        InvitationStatus::Revoked,
        InvitationStatus::Expired,
    ] {
        assert_eq!(InvitationStatus::parse(s.as_str()).unwrap(), s);
    }
    assert_eq!(
        InvitationStatus::parse("lost").unwrap_err(),
        "unknown invitation status: lost"
    );
}

#[test]
fn identity_provider_tags() {
    assert_eq!(IdentityProvider::Password.encode(), "password");
    assert_eq!(IdentityProvider::GitHub.encode(), "github");
    assert_eq!(IdentityProvider::Google.encode(), "google");
    assert_eq!(IdentityProvider::Sso("okta".into()).encode(), "sso:okta");
    assert_eq!(IdentityProvider::sso_str("okta"), "sso:okta");
    assert_eq!(
        IdentityProvider::decode("sso:okta").unwrap(),
        IdentityProvider::Sso("okta".into())
    );
    assert_eq!(IdentityProvider::decode("google").unwrap(), IdentityProvider::Google);
    assert!(IdentityProvider::decode("facebook").is_none());
}

#[test]
fn scope_target_parts() {
    let t = ScopeTarget::from_parts(ScopeKind::Org, "o_1".to_string());
    assert_eq!(t.scope_kind(), ScopeKind::Org);
    assert_eq!(t.scope_id_str(), "o_1");
    assert_eq!(t, ScopeTarget::Org(OrgId::from_string("o_1".to_string())));
    let b = ScopeTarget::from_parts(ScopeKind::Billing, "ba_1".to_string());
    assert_eq!(b, ScopeTarget::Billing(BillingAccountId::from_string("ba_1".to_string())));
    assert_eq!(b.into_scope_id_string(), "ba_1");
}

#[test]
fn token_purposes_have_distinct_names() {
    assert_eq!(TokenPurpose::Session.as_str(), "session");
    assert_eq!(TokenPurpose::Invitation.as_str(), "invitation");
    assert_eq!(TokenPurpose::PasswordReset.as_str(), "password_reset");
    assert_eq!(TokenPurpose::EmailVerify.as_str(), "email_verify");
}

#[test]
fn personal_names() {
    assert_eq!(personal_display_name("ada@example.com"), "ada@example.com (personal)");
}

#[test]
fn generated_ids_have_their_prefix() {
    let u = multitenant_worker::domain::UserId::new();
    assert!(u.as_str().starts_with("u_"));
    assert_eq!(u.as_str().len(), 2 + 36);
    let i = multitenant_worker::domain::InvitationId::new();
    assert!(i.as_str().starts_with("inv_"));
    assert_ne!(i, multitenant_worker::domain::InvitationId::new());
}
