use multitenant_worker::domain::{
    BillingAccountId, IdentityId, InvitationId, InvitationStatus, OrgId, Role, ScopeKind, ScopeTarget, UserId,
};
use multitenant_worker::store::mem::NewUserIds;
use multitenant_worker::store::repo::{InvitationAcceptance, NewPasswordUser, NewSsoUser};
use multitenant_worker::store::sql::{
    accept_existing_statements, billing_membership_from_row, classify_insert_error, invitation_from_row, org_membership_from_row,
    billing_account_from_row, billing_account_with_role_from_row, identity_from_row, organization_from_row,
    organization_with_role_from_row, sso_state_from_row, user_from_row, BillingAccountRow, IdentityRow, OrgRow,
    SsoStateRow, UserRow,
    password_signup_statements, placeholders, sso_config_from_row, sso_signup_statements, InvitationRow,
    MembershipRow, SqlValue, SsoConfigRow, Statement, INSERT_BILLING_MEMBERSHIP, INSERT_FREE_SUBSCRIPTION,
    INSERT_INVITATION_NONCE, INSERT_ORG_MEMBERSHIP, INSERT_PASSWORD_IDENTITY, INSERT_PERSONAL_BILLING,
    INSERT_PERSONAL_ORG, INSERT_SSO_IDENTITY, INSERT_USER_UNVERIFIED, INSERT_USER_VERIFIED,
    MARK_INVITATION_ACCEPTED,
};
use multitenant_worker::store::StoreError;

fn ids() -> NewUserIds {
    NewUserIds {
        user: UserId::from_string("usr_1".to_string()),
        identity: IdentityId::from_string("idn_1".to_string()),
        billing: BillingAccountId::from_string("ba_1".to_string()),
        org: OrgId::from_string("org_1".to_string()),
    }
}

fn text(v: &SqlValue) -> &str {
    match v {
        SqlValue::Text(s) => s.as_str(),
        other => panic!("expected text, got {:?}", other),
    }
}

fn sqls(v: &[Statement]) -> Vec<&'static str> {
    v.iter().map(|s| s.sql).collect()
}

#[test]
fn password_signup_batch_in_order() {
    let input = NewPasswordUser { email: "Ada@Example.com".to_string(), password_hash: "$argon2id$x".to_string() };
    let v = password_signup_statements(&ids(), &input, &None, 42);
    assert_eq!(
        sqls(&v),
        vec![
            INSERT_USER_UNVERIFIED,
            INSERT_PASSWORD_IDENTITY,
            INSERT_PERSONAL_BILLING,
            INSERT_BILLING_MEMBERSHIP,
            INSERT_FREE_SUBSCRIPTION,
            INSERT_PERSONAL_ORG,
            INSERT_ORG_MEMBERSHIP,
        ]
    );
    assert_eq!(text(&v[0].binds[1]), "Ada@Example.com");
    assert_eq!(text(&v[0].binds[2]), "ada@example.com");
    assert!(matches!(v[0].binds[3], SqlValue::Millis(42)));
    assert_eq!(text(&v[1].binds[3]), "$argon2id$x");
    assert_eq!(text(&v[2].binds[1]), "Ada@Example.com (personal)");
    assert_eq!(text(&v[3].binds[2]), "owner");
    assert_eq!(text(&v[5].binds[2]), "ba_1");
}

#[test]
fn password_signup_with_invitation_appends_acceptance() {
    let input = NewPasswordUser { email: "a@b.co".to_string(), password_hash: "h".to_string() };
    let invite = InvitationAcceptance {
        invitation_id: InvitationId::from_string("inv_7".to_string()),
        target: ScopeTarget::Org(OrgId::from_string("org_9".to_string())),
        role: Role::Member,
    };
    let v = password_signup_statements(&ids(), &input, &Some(invite), 5);
    assert_eq!(v.len(), 10);
    assert_eq!(v[7].sql, INSERT_INVITATION_NONCE);
    assert_eq!(text(&v[7].binds[0]), "invite-accept:inv_7");
    assert_eq!(v[8].sql, INSERT_ORG_MEMBERSHIP);
    assert_eq!(text(&v[8].binds[1]), "org_9");
    assert_eq!(text(&v[8].binds[2]), "member");
    assert_eq!(v[9].sql, MARK_INVITATION_ACCEPTED);
    assert_eq!(text(&v[9].binds[0]), "inv_7");
}

#[test]
fn sso_signup_batch_with_auto_join() {
    let input = NewSsoUser {
        email: "dev@acme.com".to_string(),
        idp_id: "okta".to_string(),
        idp_user_id: "00u1".to_string(),
    };
    let acme = Some(BillingAccountId::from_string("ba_acme".to_string()));
    let v = sso_signup_statements(&ids(), &input, &None, &acme, 1);
    assert_eq!(v.len(), 8);
    assert_eq!(v[0].sql, INSERT_USER_VERIFIED);
    assert_eq!(v[1].sql, INSERT_SSO_IDENTITY);
    assert_eq!(text(&v[1].binds[2]), "sso:okta");
    assert!(matches!(v[1].binds.len(), 5));
    assert_eq!(v[7].sql, INSERT_BILLING_MEMBERSHIP);
    assert_eq!(text(&v[7].binds[1]), "ba_acme");
    assert_eq!(text(&v[7].binds[2]), "member");
    let plain = sso_signup_statements(&ids(), &input, &None, &None, 1);
    assert_eq!(plain.len(), 7);
}

#[test]
fn accept_existing_batch() {
    let acceptance = InvitationAcceptance {
        invitation_id: InvitationId::from_string("inv_1".to_string()),
        target: ScopeTarget::Billing(BillingAccountId::from_string("ba_2".to_string())),
        role: Role::Owner,
    };
    let v = accept_existing_statements(&UserId::from_string("usr_3".to_string()), &acceptance, "n0", 9);
    assert_eq!(sqls(&v), vec![INSERT_INVITATION_NONCE, INSERT_BILLING_MEMBERSHIP, MARK_INVITATION_ACCEPTED]);
    assert_eq!(text(&v[0].binds[0]), "n0");
    assert_eq!(text(&v[1].binds[0]), "usr_3");
    assert_eq!(text(&v[1].binds[2]), "owner");
}

#[test]
fn batch_errors_are_classified() {
    match classify_insert_error("create_password_user", "D1_ERROR: UNIQUE constraint failed: users.email_lower") {
        StoreError::AlreadyExists(m) => assert_eq!(m, "create_password_user"),
        other => panic!("{:?}", other),
    }
    match classify_insert_error("accept", "SQLITE_CONSTRAINT_PRIMARYKEY") {
        StoreError::AlreadyExists(m) => assert_eq!(m, "accept"),
        other => panic!("{:?}", other),
    }
    match classify_insert_error("accept", "network error") {
        StoreError::Backend(m) => assert_eq!(m, "accept"),
        other => panic!("{:?}", other),
    }
}

#[test]
fn rows_read_back() {
    let row = MembershipRow {
        user_id: "usr_1".to_string(),
        scope_id: "ba_1".to_string(),
        role: "owner".to_string(),
        created_at_ms: 3,
    };
    let m = billing_membership_from_row(row).unwrap();
    assert_eq!(m.role, Role::Owner);
    assert_eq!(m.billing_account_id.as_str(), "ba_1");
    let bad = MembershipRow {
        user_id: "usr_1".to_string(),
        scope_id: "ba_1".to_string(),
        role: "admin".to_string(),
        created_at_ms: 3,
    };
    match billing_membership_from_row(bad) {
        Err(StoreError::Backend(m)) => assert_eq!(m, "role: unknown role: admin"),
        other => panic!("{:?}", other.is_ok()),
    }

    let inv = InvitationRow {
        id: "inv_1".to_string(),
        scope_kind: "org".to_string(),
        scope_id: "org_1".to_string(),
        email: "x@y.z".to_string(),
        role: "member".to_string(),
        inviter_user_id: Some("usr_1".to_string()),
        required_idp: None,
        nonce: "n".to_string(),
        expires_at_ms: 10,
        status: "pending".to_string(),
        created_at_ms: 1,
    };
    let i = invitation_from_row(inv).unwrap();
    assert_eq!(i.status, InvitationStatus::Pending);
    assert!(matches!(i.scope, ScopeTarget::Org(ref o) if o.as_str() == "org_1"));

    let cfg = SsoConfigRow {
        scope_kind: "team".to_string(),
        scope_id: "x".to_string(),
        idp_id: "okta".to_string(),
        kind: "oidc".to_string(),
        login_url: "u".to_string(),
        break_glass_user_id: "usr_1".to_string(),
        required: 1,
        updated_at_ms: 0,
    };
    match sso_config_from_row(cfg) {
        Err(StoreError::Backend(m)) => assert_eq!(m, "scope_kind: unknown scope kind: team"),
        other => panic!("{:?}", other.is_ok()),
    }
    let cfg = SsoConfigRow {
        scope_kind: "billing".to_string(),
        scope_id: "ba_1".to_string(),
        idp_id: "okta".to_string(),
        kind: "oidc".to_string(),
        login_url: "u".to_string(),
        break_glass_user_id: "usr_1".to_string(),
        required: 1,
        updated_at_ms: 0,
    };
    let c = sso_config_from_row(cfg).unwrap();
    assert_eq!(c.scope_kind, ScopeKind::Billing);
    assert!(c.required);
}

#[test]
fn placeholder_lists() {
    assert_eq!(placeholders(0), "");
    assert_eq!(placeholders(1), "?");
    assert_eq!(placeholders(3), "?,?,?");
}

#[test]
fn org_membership_rows_read_back() {
    let m = org_membership_from_row(MembershipRow {
        user_id: "usr_2".to_string(),
        scope_id: "org_5".to_string(),
        role: "member".to_string(),
        created_at_ms: 8,
    })
    .unwrap();
    assert_eq!(m.org_id.as_str(), "org_5");
    assert_eq!(m.role, Role::Member);
    assert_eq!(m.created_at_ms, 8);
}

#[test]
fn plain_rows_read_back() {
    let u = user_from_row(UserRow { id: "usr_1".to_string(), email: "a@b.co".to_string(), email_verified: 1, created_at_ms: 4 });
    assert!(u.email_verified);
    assert_eq!(u.id.as_str(), "usr_1");
    let i = identity_from_row(IdentityRow {
        id: "idn_1".to_string(),
        user_id: "usr_1".to_string(),
        provider: "password".to_string(),
        provider_user_id: "usr_1".to_string(),
        secret: Some("$argon2id$x".to_string()),
        created_at_ms: 4,
    });
    assert_eq!(i.user_id.as_str(), "usr_1");
    assert_eq!(i.secret.as_deref(), Some("$argon2id$x"));
    let row = BillingAccountRow {
        id: "ba_1".to_string(),
        display_name: "Acme".to_string(),
        personal: 0,
        owner_user_id: Some("usr_1".to_string()),
        auto_join_domain: Some("acme.com".to_string()),
        created_at_ms: 2,
    };
    let b = billing_account_from_row(row);
    assert!(!b.personal);
    assert_eq!(b.owner_user_id.unwrap().as_str(), "usr_1");
    let row = BillingAccountRow {
        id: "ba_2".to_string(),
        display_name: "p".to_string(),
        personal: 1,
        owner_user_id: None,
        auto_join_domain: None,
        created_at_ms: 2,
    };
    let (b, role) = billing_account_with_role_from_row(row, "owner".to_string()).unwrap();
    assert!(b.personal);
    assert_eq!(role, Role::Owner);
    let org = OrgRow {
        id: "org_1".to_string(),
        display_name: "Eng".to_string(),
        billing_account_id: "ba_1".to_string(),
        personal: 0,
        owner_user_id: None,
        created_at_ms: 3,
    };
    match organization_with_role_from_row(org, "boss".to_string()) {
        Err(StoreError::Backend(m)) => assert_eq!(m, "role: unknown role: boss"),
        other => panic!("{:?}", other.is_ok()),
    }
    let org = OrgRow {
        id: "org_1".to_string(),
        display_name: "Eng".to_string(),
        billing_account_id: "ba_1".to_string(),
        personal: 0,
        owner_user_id: None,
        created_at_ms: 3,
    };
    let o = organization_from_row(org);
    assert_eq!(o.billing_account_id.as_str(), "ba_1");
    let st = sso_state_from_row(SsoStateRow {
        state: "ssost_1".to_string(),
        scope_hint: "billing:ba_1".to_string(),
        expected_idp: Some("okta".to_string()),
        created_at_ms: 1,
        expires_at_ms: 2,
    });
    assert_eq!(st.expected_idp.as_deref(), Some("okta"));
    assert_eq!(st.expires_at_ms, 2);
}
