use multitenant_worker::domain::{BillingAccountId, InvitationId, InvitationStatus, OrgId, Role, ScopeKind, ScopeTarget, SsoConfig, UserId};
use multitenant_worker::store::repo::{
    AuthFlowRepo, BillingRepo, InvitationRepo, MembershipRepo, OrgRepo, SsoConfigRepo, UserRepo,
};
use multitenant_worker::store::{InMemoryRepo, InvitationAcceptance, NewPasswordUser, NewSsoUser, StoreError};

fn password_user(repo: &mut InMemoryRepo, email: &str, now: i64) -> multitenant_worker::domain::User {
    repo.create_password_user(
        NewPasswordUser { email: email.into(), password_hash: "h".into() },
        None,
        now,
    )
    .unwrap()
}

#[test]
fn signup_creates_user_identity_and_personal_billing_and_org() {
    let mut repo = InMemoryRepo::new();
    let user = repo
        .create_password_user(
            NewPasswordUser { email: "ada@example.com".into(), password_hash: "hash".into() },
            None,
            1_000,
        )
        .unwrap();
    assert_eq!(user.email, "ada@example.com");
    let billing = repo.list_billing_accounts_for_user(&user.id).unwrap();
    assert_eq!(billing.len(), 1);
    assert!(billing[0].0.personal);
    assert_eq!(billing[0].1, Role::Owner);
    let identities = repo.list_identities(&user.id).unwrap();
    assert_eq!(identities.len(), 1);
    assert_eq!(identities[0].provider, "password");
    let orgs = repo.list_organizations_for_user(&user.id).unwrap();
    assert_eq!(orgs.len(), 1);
    assert!(orgs[0].0.personal);
    assert_eq!(orgs[0].0.owner_user_id.as_ref(), Some(&user.id));
    assert_eq!(orgs[0].0.billing_account_id, billing[0].0.id);
    assert_eq!(orgs[0].1, Role::Owner);
}

#[test]
fn duplicate_signup_rejected() {
    let mut repo = InMemoryRepo::new();
    let _ = repo
        .create_password_user(NewPasswordUser { email: "x@y".into(), password_hash: "h".into() }, None, 1)
        .unwrap();
    let err = repo
        .create_password_user(
            NewPasswordUser {
                email: "X@Y".into(), // case-insensitive
                password_hash: "h".into(),
            },
            None,
            1,
        )
        .unwrap_err();
    assert!(matches!(err, StoreError::AlreadyExists(_)));
}

#[test]
fn delete_billing_account_refuses_personal() {
    let mut repo = InMemoryRepo::new();
    let user = password_user(&mut repo, "x@y", 1);
    let billings = repo.list_billing_accounts_for_user(&user.id).unwrap();
    let err = repo.delete_billing_account(&billings[0].0.id).unwrap_err();
    assert!(matches!(err, StoreError::Conflict(_)));
}

#[test]
fn delete_billing_account_refuses_non_personal_with_orgs() {
    let mut repo = InMemoryRepo::new();
    let user = password_user(&mut repo, "x@y", 1);
    let billing = repo.create_billing_account("Acme".into(), user.id.clone(), 2).unwrap();
    repo.create_organization("Eng".into(), billing.id.clone(), 3).unwrap();
    let err = repo.delete_billing_account(&billing.id).unwrap_err();
    assert!(matches!(err, StoreError::Conflict(_)));
}

#[test]
fn cannot_remove_last_billing_owner() {
    let mut repo = InMemoryRepo::new();
    let user = password_user(&mut repo, "x@y", 1);
    let billing = repo.create_billing_account("Acme".into(), user.id.clone(), 2).unwrap();
    let err = repo.remove_billing_membership(&user.id, &billing.id).unwrap_err();
    assert!(matches!(err, StoreError::Conflict(_)));
}

#[test]
fn nonce_replay_rejected() {
    let mut repo = InMemoryRepo::new();
    repo.consume_nonce("n", "test", 1).unwrap();
    let err = repo.consume_nonce("n", "test", 2).unwrap_err();
    assert!(matches!(err, StoreError::AlreadyExists(_)));
}

#[test]
fn second_owner_can_leave_and_last_cannot_be_demoted() {
    let mut repo = InMemoryRepo::new();
    let a = password_user(&mut repo, "a@x", 1);
    let b = password_user(&mut repo, "b@x", 1);
    let billing = repo.create_billing_account("Acme".into(), a.id.clone(), 2).unwrap();
    repo.add_billing_membership(&b.id, &billing.id, Role::Owner, 3).unwrap();
    assert_eq!(repo.count_billing_owners(&billing.id).unwrap(), 2);
    repo.remove_billing_membership(&b.id, &billing.id).unwrap();
    assert_eq!(repo.count_billing_owners(&billing.id).unwrap(), 1);
    let err = repo.update_billing_membership_role(&a.id, &billing.id, Role::Member).unwrap_err();
    match err {
        StoreError::Conflict(m) => assert_eq!(m, "cannot demote the last owner of a billing account"),
        other => panic!("unexpected {other:?}"),
    }
    // Re-adding an existing membership is refused.
    assert!(matches!(
        repo.add_billing_membership(&a.id, &billing.id, Role::Member, 4),
        Err(StoreError::AlreadyExists(_))
    ));
}

#[test]
fn org_last_owner_is_kept() {
    let mut repo = InMemoryRepo::new();
    let a = password_user(&mut repo, "a@x", 1);
    let billing = repo.create_billing_account("Acme".into(), a.id.clone(), 2).unwrap();
    let org = repo.create_organization("Eng".into(), billing.id.clone(), 3).unwrap();
    repo.add_org_membership(&a.id, &org.id, Role::Owner, 4).unwrap();
    assert_eq!(repo.count_org_owners(&org.id).unwrap(), 1);
    assert!(matches!(repo.remove_org_membership(&a.id, &org.id), Err(StoreError::Conflict(_))));
    assert!(matches!(
        repo.update_org_membership_role(&a.id, &org.id, Role::Member),
        Err(StoreError::Conflict(_))
    ));
    assert!(matches!(
        repo.remove_org_membership(&UserId::from_string("u_nobody".into()), &org.id),
        Err(StoreError::NotFound(_))
    ));
}

#[test]
fn sso_state_is_single_use_and_expires() {
    let mut repo = InMemoryRepo::new();
    repo.store_sso_state(multitenant_worker::domain::SsoState {
        state: "st".into(),
        scope_hint: "billing:ba_1".into(),
        expected_idp: Some("okta".into()),
        created_at_ms: 0,
        expires_at_ms: 100,
    })
    .unwrap();
    let taken = repo.consume_sso_state("st", 50).unwrap().unwrap();
    assert_eq!(taken.expected_idp.as_deref(), Some("okta"));
    assert!(repo.consume_sso_state("st", 50).unwrap().is_none());
    repo.store_sso_state(multitenant_worker::domain::SsoState {
        state: "old".into(),
        scope_hint: "billing:ba_1".into(),
        expected_idp: None,
        created_at_ms: 0,
        expires_at_ms: 10,
    })
    .unwrap();
    assert!(repo.consume_sso_state("old", 11).unwrap().is_none());
}

#[test]
fn sso_signup_joins_auto_join_account() {
    let mut repo = InMemoryRepo::new();
    let owner = password_user(&mut repo, "boss@acme.com", 1);
    let billing = repo.create_billing_account("Acme".into(), owner.id.clone(), 2).unwrap();
    repo.set_auto_join_domain(&billing.id, Some("ACME.com".into())).unwrap();
    let found = repo.find_billing_by_auto_join_domain("acme.com").unwrap().unwrap();
    assert_eq!(found.id, billing.id);
    assert_eq!(found.auto_join_domain.as_deref(), Some("acme.com"));
    let user = repo
        .create_sso_user(
            NewSsoUser {
                email: "dev@acme.com".into(),
                idp_id: "okta".into(),
                idp_user_id: "00u1".into(),
            },
            None,
            Some(billing.id.clone()),
            3,
        )
        .unwrap();
    assert!(user.email_verified);
    let m = repo.get_billing_membership(&user.id, &billing.id).unwrap().unwrap();
    assert_eq!(m.role, Role::Member);
    let identity = repo.find_identity("sso:okta", "00u1").unwrap().unwrap();
    assert_eq!(identity.user_id, user.id);
}

#[test]
fn invitations_refresh_and_status() {
    let mut repo = InMemoryRepo::new();
    let owner = password_user(&mut repo, "boss@acme.com", 1);
    let billing = repo.create_billing_account("Acme".into(), owner.id.clone(), 2).unwrap();
    let id = multitenant_worker::domain::InvitationId::new();
    let inv = multitenant_worker::domain::Invitation {
        id: id.clone(),
        scope: multitenant_worker::domain::ScopeTarget::Billing(billing.id.clone()),
        email: "new@acme.com".into(),
        role: Role::Member,
        inviter_user_id: Some(owner.id.clone()),
        required_idp: None,
        nonce: "n1".into(),
        expires_at_ms: 100,
        status: InvitationStatus::Pending,
        created_at_ms: 2,
    };
    repo.create_invitation(inv.clone()).unwrap();
    assert!(matches!(repo.create_invitation(inv), Err(StoreError::AlreadyExists(_))));
    let pending = repo
        .list_pending_invitation_by_scope_email(ScopeKind::Billing, billing.id.as_str(), "NEW@acme.com")
        .unwrap()
        .unwrap();
    assert_eq!(pending.id, id);
    repo.refresh_invitation_token(&id, "n2".into(), 200).unwrap();
    let stored = repo.get_invitation(&id).unwrap().unwrap();
    assert_eq!(stored.nonce, "n2");
    assert_eq!(stored.expires_at_ms, 200);
    repo.update_invitation_status(&id, InvitationStatus::Declined).unwrap();
    assert!(repo.list_pending_invitations_by_email("new@acme.com").unwrap().is_empty());
}

#[test]
fn sso_configs_by_scope() {
    let mut repo = InMemoryRepo::new();
    let owner = password_user(&mut repo, "boss@acme.com", 1);
    repo.upsert_sso_config(SsoConfig {
        scope_kind: ScopeKind::Billing,
        scope_id: "ba_1".into(),
        idp_id: "okta".into(),
        kind: "oidc".into(),
        login_url: "https://idp/login".into(),
        break_glass_user_id: owner.id.clone(),
        required: true,
        updated_at_ms: 5,
    })
    .unwrap();
    let got = repo.get_sso_config(ScopeKind::Billing, "ba_1").unwrap().unwrap();
    assert_eq!(got.idp_id, "okta");
    assert!(repo.get_sso_config(ScopeKind::Org, "ba_1").unwrap().is_none());
    let listed = repo.list_sso_configs_by_scope_ids(ScopeKind::Billing, &["ba_1", "ba_2"]).unwrap();
    assert_eq!(listed.len(), 1);
    assert_eq!(listed[0].0, "ba_1");
    repo.delete_sso_config(ScopeKind::Billing, "ba_1").unwrap();
    assert!(repo.get_sso_config(ScopeKind::Billing, "ba_1").unwrap().is_none());
}

#[test]
fn delete_user_removes_personal_space() {
    let mut repo = InMemoryRepo::new();
    let user = password_user(&mut repo, "x@y", 1);
    let billings = repo.list_billing_accounts_for_user(&user.id).unwrap();
    repo.delete_user(&user.id).unwrap();
    assert!(repo.get_user(&user.id).unwrap().is_none());
    assert!(repo.get_billing_account(&billings[0].0.id).unwrap().is_none());
    assert!(repo.list_identities(&user.id).unwrap().is_empty());
    assert!(matches!(repo.delete_user(&user.id), Err(StoreError::NotFound(_))));
}

#[test]
fn store_error_messages() {
    assert_eq!(StoreError::not_found("x".into()).to_string(), "not found: x");
    assert_eq!(StoreError::already_exists("x".into()).to_string(), "already exists: x");
    assert_eq!(StoreError::conflict("x".into()).to_string(), "conflict: x");
    assert_eq!(StoreError::backend("x".into()).to_string(), "backend: x");
}

#[test]
fn signup_with_an_invitation_to_a_missing_scope_changes_nothing() {
    let mut repo = InMemoryRepo::new();
    let invite = InvitationAcceptance {
        invitation_id: InvitationId::from_string("inv_x".to_string()),
        target: ScopeTarget::Org(OrgId::from_string("o_missing".to_string())),
        role: Role::Member,
    };
    let err = repo
        .create_password_user(
            NewPasswordUser { email: "late@example.com".into(), password_hash: "h".into() },
            Some(invite),
            5,
        )
        .unwrap_err();
    assert!(matches!(err, StoreError::NotFound(ref m) if m == "organization o_missing"));
    assert!(repo.get_user_by_email("late@example.com").unwrap().is_none());
    let invite = InvitationAcceptance {
        invitation_id: InvitationId::from_string("inv_y".to_string()),
        target: ScopeTarget::Billing(BillingAccountId::from_string("ba_missing".to_string())),
        role: Role::Member,
    };
    let err = repo
        .create_sso_user(
            NewSsoUser { email: "sso@example.com".into(), idp_id: "okta".into(), idp_user_id: "s1".into() },
            Some(invite),
            None,
            5,
        )
        .unwrap_err();
    assert!(matches!(err, StoreError::NotFound(ref m) if m == "billing account ba_missing"));
    assert!(repo.get_user_by_email("sso@example.com").unwrap().is_none());
    assert!(repo.find_identity("sso:okta", "s1").unwrap().is_none());
}

#[test]
fn failed_acceptance_leaves_the_nonce_unconsumed() {
    let mut repo = InMemoryRepo::new();
    let user = password_user(&mut repo, "m@example.com", 1);
    let acceptance = InvitationAcceptance {
        invitation_id: InvitationId::from_string("inv_z".to_string()),
        target: ScopeTarget::Org(OrgId::from_string("o_gone".to_string())),
        role: Role::Member,
    };
    let err = repo.accept_invitation_existing_user(&user.id, acceptance, "n-z", 2).unwrap_err();
    assert!(matches!(err, StoreError::NotFound(_)));
    repo.consume_nonce("n-z", "invitation", 3).unwrap();
}

#[test]
fn sso_signup_refuses_an_identity_already_linked() {
    let mut repo = InMemoryRepo::new();
    let owner = password_user(&mut repo, "o@example.com", 1);
    repo.add_identity(&owner.id, "sso:okta", "s9", None, 2).unwrap();
    let err = repo
        .create_sso_user(
            NewSsoUser { email: "other@example.com".into(), idp_id: "okta".into(), idp_user_id: "s9".into() },
            None,
            None,
            3,
        )
        .unwrap_err();
    assert!(matches!(err, StoreError::AlreadyExists(ref m) if m == "identity sso:okta:s9"));
    assert!(repo.get_user_by_email("other@example.com").unwrap().is_none());
}
