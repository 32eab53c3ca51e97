//! In-memory repository: one keyed table per entity kind. Operations that
//! touch several tables run as one call on `&mut self`, so each is a single
//! step for anyone holding the repository.

use vstd::prelude::*;

use crate::domain::enums::password_provider_tag;
use crate::domain::ids::prefixed_id;
use crate::domain::{
    personal_display_name, BillingAccount, BillingAccountId, BillingMembership, Duplicate, Identity,
    IdentityId, IdentityProvider, Invitation, InvitationId, InvitationStatus, OrgId, OrgMembership,
    Organization, Role, ScopeKind, ScopeTarget, SsoConfig, SsoState, User, UserId,
};
use crate::store::error::{concat, StoreError, StoreErrorView, StoreResult};
use crate::store::model::{
    auto_joined, keys_taken, scope_exists, scope_missing_message, billing_membership_fields, billing_owner_count, is_billing_owner, is_org_owner,
    org_owner_count, drop_billing_memberships_of, drop_identities_of, drop_org_memberships_of,
    drop_personal_billing_of, drop_personal_orgs_of, email_in_use, email_matches, empty_state,
    forget_inviter, identity_fields, identity_in_use, identity_matches, identity_of_user,
    identity_with, inserted, user_with_email, invitation_applied, keys_consistent, names_user,
    org_membership_fields, password_signup, personal_billing_fields, personal_org_fields,
    sso_signup, store_result, user_created, RepoState,
};
use crate::domain::enums::sso_provider_tag;
use crate::store::repo::invitation::InvitationAcceptance;
use crate::store::repo::user::{
    acceptance_view, billing_id_view, NewPasswordUser, NewSsoUser, UserRepo,
};
use crate::store::listing::{lemma_listed_permuted, lemma_listed_rows_permuted, sort_by_key};
use crate::store::repo::billing::{
    account_with_role, accounts_of_user, auto_join_match, drop_config_of, drop_memberships_in,
    has_orgs, org_under, BillingAccountWithRole, BillingRepo,
};
use crate::store::repo::membership::{
    billing_member_row, members_of_billing, members_of_org, org_member_row, shared_ownership,
    BillingMemberRow, MembershipRepo, OrgMemberRow,
};
use crate::store::repo::auth_flow::AuthFlowRepo;
use crate::store::repo::invitation::{pending_in_scope, pending_of_email, InvitationRepo};
use crate::store::repo::org::{
    drop_memberships_of_org, org_with_role, orgs_of_user, OrgRepo, OrgWithRole,
};
use crate::store::repo::sso_config::{configs_of_kind, SsoConfigRepo};
use crate::store::repo::RepoModel;
use crate::store::table::Table;
use crate::text::{eq_ignore_ascii_case, str_eq, to_unicode_lowercase};

verus! {

pub struct InMemoryRepo {
    users: Table<UserId, User>,
    identities: Table<IdentityId, Identity>,
    billing_accounts: Table<BillingAccountId, BillingAccount>,
    organizations: Table<OrgId, Organization>,
    billing_memberships: Table<(UserId, BillingAccountId), BillingMembership>,
    org_memberships: Table<(UserId, OrgId), OrgMembership>,
    sso_configs: Table<(ScopeKind, String), SsoConfig>,
    invitations: Table<InvitationId, Invitation>,
    consumed_nonces: Table<String, (String, i64)>,
    sso_states: Table<String, SsoState>,
}

/// The keys a new user's rows get.
pub struct NewUserIds {
    pub user: UserId,
    pub identity: IdentityId,
    pub billing: BillingAccountId,
    pub org: OrgId,
}

impl NewUserIds {
    /// Fresh random keys, each `<prefix>_<uuid>` with its kind's prefix.
    pub fn fresh() -> (ids: NewUserIds)
        ensures
            exists|u: Seq<char>| u.len() == 36 && ids.user@ == prefixed_id(UserId::spec_prefix(), u),
            exists|u: Seq<char>| u.len() == 36 && ids.identity@ == prefixed_id(IdentityId::spec_prefix(), u),
            exists|u: Seq<char>| u.len() == 36 && ids.billing@ == prefixed_id(BillingAccountId::spec_prefix(), u),
            exists|u: Seq<char>| u.len() == 36 && ids.org@ == prefixed_id(OrgId::spec_prefix(), u),
    {
        NewUserIds {
            user: UserId::new(),
            identity: IdentityId::new(),
            billing: BillingAccountId::new(),
            org: OrgId::new(),
        }
    }

    pub open spec fn keys(&self) -> (Seq<char>, Seq<char>, Seq<char>, Seq<char>) {
        (self.user@, self.identity@, self.billing@, self.org@)
    }
}

impl RepoModel for InMemoryRepo {
    closed spec fn model(&self) -> RepoState {
        RepoState {
            users: self.users.map(),
            identities: self.identities.map(),
            billing_accounts: self.billing_accounts.map(),
            organizations: self.organizations.map(),
            billing_memberships: self.billing_memberships.map(),
            org_memberships: self.org_memberships.map(),
            sso_configs: self.sso_configs.map(),
            invitations: self.invitations.map(),
            consumed_nonces: self.consumed_nonces.map(),
            sso_states: self.sso_states.map(),
        }
    }

    closed spec fn inv(&self) -> bool {
        &&& self.users.wf()
        &&& self.identities.wf()
        &&& self.billing_accounts.wf()
        &&& self.organizations.wf()
        &&& self.billing_memberships.wf()
        &&& self.org_memberships.wf()
        &&& self.sso_configs.wf()
        &&& self.invitations.wf()
        &&& self.consumed_nonces.wf()
        &&& self.sso_states.wf()
        &&& keys_consistent(self.model())
    }

    proof fn lemma_model_wf(&self) {
        self.users.lemma_entries();
        self.identities.lemma_entries();
        self.billing_accounts.lemma_entries();
        self.organizations.lemma_entries();
        self.billing_memberships.lemma_entries();
        self.org_memberships.lemma_entries();
        self.sso_configs.lemma_entries();
        self.invitations.lemma_entries();
        self.consumed_nonces.lemma_entries();
        self.sso_states.lemma_entries();
    }
}

impl InMemoryRepo {
    pub fn new() -> (r: InMemoryRepo)
        ensures
            r.inv(),
            r.model() == empty_state(),
    {
        InMemoryRepo {
            users: Table::new(),
            identities: Table::new(),
            billing_accounts: Table::new(),
            organizations: Table::new(),
            billing_memberships: Table::new(),
            org_memberships: Table::new(),
            sso_configs: Table::new(),
            invitations: Table::new(),
            consumed_nonces: Table::new(),
            sso_states: Table::new(),
        }
    }

    fn email_taken(&self, email: &str) -> (b: bool)
        requires
            self.inv(),
        ensures
            b == email_in_use(self.model(), email@),
    {
        let f = |k: &UserId, u: &User| -> (b: bool)
            ensures
                b == email_matches(*u, email@),
            { eq_ignore_ascii_case(u.email.as_str(), email) };
        let found = self.users.find_value(f, Ghost(|k: Seq<char>, u: User| email_matches(u, email@)));
        assert(self.model().users == self.users.map());
        found.is_some()
    }

    /// The personal billing account of a new user, with the user as owner.
    fn insert_personal_billing(&mut self, user_id: &UserId, email: &str, billing_id: &BillingAccountId, now_ms: i64)
        requires
            old(self).inv(),
        ensures
            final(self).inv(),
            inserted(old(self).model().billing_accounts, final(self).model().billing_accounts, billing_id@),
            personal_billing_fields(
                final(self).model().billing_accounts[billing_id@],
                billing_id@,
                user_id@,
                email@,
                now_ms,
            ),
            inserted(
                old(self).model().billing_memberships,
                final(self).model().billing_memberships,
                (user_id@, billing_id@),
            ),
            billing_membership_fields(
                final(self).model().billing_memberships[(user_id@, billing_id@)],
                user_id@,
                billing_id@,
                Role::Owner,
                now_ms,
            ),
            final(self).model() == (RepoState {
                billing_accounts: final(self).model().billing_accounts,
                billing_memberships: final(self).model().billing_memberships,
                ..old(self).model()
            }),
    {
        let account = BillingAccount {
            id: billing_id.duplicate(),
            display_name: personal_display_name(email),
            personal: true,
            owner_user_id: Some(user_id.duplicate()),
            auto_join_domain: None,
            created_at_ms: now_ms,
        };
        self.billing_accounts.insert(billing_id.duplicate(), account);
        let membership = BillingMembership {
            user_id: user_id.duplicate(),
            billing_account_id: billing_id.duplicate(),
            role: Role::Owner,
            created_at_ms: now_ms,
        };
        self.billing_memberships.insert((user_id.duplicate(), billing_id.duplicate()), membership);
    }

    /// The personal organization of a new user, under their personal
    /// billing account, with the user as owner.
    fn insert_personal_org(&mut self, user_id: &UserId, email: &str, billing_id: &BillingAccountId, org_id: &OrgId, now_ms: i64)
        requires
            old(self).inv(),
        ensures
            final(self).inv(),
            inserted(old(self).model().organizations, final(self).model().organizations, org_id@),
            personal_org_fields(
                final(self).model().organizations[org_id@],
                org_id@,
                billing_id@,
                user_id@,
                email@,
                now_ms,
            ),
            inserted(old(self).model().org_memberships, final(self).model().org_memberships, (user_id@, org_id@)),
            org_membership_fields(
                final(self).model().org_memberships[(user_id@, org_id@)],
                user_id@,
                org_id@,
                Role::Owner,
                now_ms,
            ),
            final(self).model() == (RepoState {
                organizations: final(self).model().organizations,
                org_memberships: final(self).model().org_memberships,
                ..old(self).model()
            }),
    {
        let org = Organization {
            id: org_id.duplicate(),
            display_name: personal_display_name(email),
            billing_account_id: billing_id.duplicate(),
            personal: true,
            owner_user_id: Some(user_id.duplicate()),
            created_at_ms: now_ms,
        };
        self.organizations.insert(org_id.duplicate(), org);
        let membership = OrgMembership {
            user_id: user_id.duplicate(),
            org_id: org_id.duplicate(),
            role: Role::Owner,
            created_at_ms: now_ms,
        };
        self.org_memberships.insert((user_id.duplicate(), org_id.duplicate()), membership);
    }

    /// The user with one identity and a personal billing account and
    /// organization.
    fn insert_new_user(
        &mut self,
        ids: &NewUserIds,
        email: &str,
        verified: bool,
        provider: String,
        provider_user_id: String,
        secret: Option<String>,
        now_ms: i64,
    ) -> (u: User)
        requires
            old(self).inv(),
            !keys_taken(old(self).model(), ids.keys()),
            !identity_in_use(old(self).model(), provider@, provider_user_id@),
        ensures
            final(self).inv(),
            u.id@ == ids.user@,
            user_created(
                old(self).model(),
                final(self).model(),
                u,
                email@,
                verified,
                ids.identity@,
                provider@,
                provider_user_id@,
                match secret {
                    Some(x) => Some(x@),
                    None => None,
                },
                now_ms,
                ids.billing@,
                ids.org@,
            ),
    {
        let user = User {
            id: ids.user.duplicate(),
            email: String::from_str(email),
            email_verified: verified,
            created_at_ms: now_ms,
        };
        self.users.insert(ids.user.duplicate(), user.duplicate());
        let identity = Identity {
            id: ids.identity.duplicate(),
            user_id: ids.user.duplicate(),
            provider,
            provider_user_id,
            secret,
            created_at_ms: now_ms,
        };
        self.identities.insert(ids.identity.duplicate(), identity);
        self.insert_personal_billing(&ids.user, email, &ids.billing, now_ms);
        self.insert_personal_org(&ids.user, email, &ids.billing, &ids.org, now_ms);
        user
    }

    /// Whether any of the keys drawn for a new user is already in use.
    fn keys_in_use(&self, ids: &NewUserIds) -> (b: bool)
        requires
            self.inv(),
        ensures
            b == keys_taken(self.model(), ids.keys()),
    {
        self.users.contains_key(&ids.user) || self.identities.contains_key(&ids.identity)
            || self.billing_accounts.contains_key(&ids.billing) || self.organizations.contains_key(&ids.org)
    }

    /// Whether the scope an acceptance targets exists.
    fn scope_present(&self, target: &ScopeTarget) -> (b: bool)
        requires
            self.inv(),
        ensures
            b == scope_exists(self.model(), target@),
    {
        match target {
            ScopeTarget::Billing(id) => self.billing_accounts.contains_key(id),
            ScopeTarget::Org(id) => self.organizations.contains_key(id),
        }
    }

    /// The error for an acceptance whose scope is missing.
    fn scope_missing(target: &ScopeTarget) -> (e: StoreError)
        ensures
            e@ == StoreErrorView::NotFound(scope_missing_message(target@)),
    {
        match target {
            ScopeTarget::Billing(id) => {
                proof {
                    reveal_strlit("billing account ");
                }
                StoreError::not_found(concat("billing account ", id.as_str()))
            },
            ScopeTarget::Org(id) => {
                proof {
                    reveal_strlit("organization ");
                }
                StoreError::not_found(concat("organization ", id.as_str()))
            },
        }
    }

    /// Apply an accepted invitation for the user: the membership in the
    /// target scope, and the invitation marked accepted.
    fn apply_invitation(&mut self, user_id: &UserId, acceptance: InvitationAcceptance, now_ms: i64) -> (r: StoreResult<()>)
        requires
            old(self).inv(),
        ensures
            final(self).inv(),
            invitation_applied(old(self).model(), final(self).model(), user_id@, acceptance@, now_ms, store_result(r)),
    {
        let InvitationAcceptance { invitation_id, target, role } = acceptance;
        match target {
            ScopeTarget::Billing(billing_id) => {
                if !self.billing_accounts.contains_key(&billing_id) {
                    proof {
                        reveal_strlit("billing account ");
                    }
                    return Err(StoreError::not_found(concat("billing account ", billing_id.as_str())));
                }
                let membership = BillingMembership {
                    user_id: user_id.duplicate(),
                    billing_account_id: billing_id.duplicate(),
                    role,
                    created_at_ms: now_ms,
                };
                self.billing_memberships.insert((user_id.duplicate(), billing_id), membership);
            },
            ScopeTarget::Org(org_id) => {
                if !self.organizations.contains_key(&org_id) {
                    proof {
                        reveal_strlit("organization ");
                    }
                    return Err(StoreError::not_found(concat("organization ", org_id.as_str())));
                }
                let membership = OrgMembership {
                    user_id: user_id.duplicate(),
                    org_id: org_id.duplicate(),
                    role,
                    created_at_ms: now_ms,
                };
                self.org_memberships.insert((user_id.duplicate(), org_id), membership);
            },
        }
        let accepted = match self.invitations.get(&invitation_id) {
            Some(inv) => {
                let mut inv = inv.duplicate();
                inv.status = InvitationStatus::Accepted;
                Some(inv)
            },
            None => None,
        };
        match accepted {
            Some(inv) => {
                self.invitations.insert(invitation_id, inv);
            },
            None => {},
        }
        Ok(())
    }
}

impl InMemoryRepo {
    fn identity_taken(&self, provider: &str, provider_user_id: &str) -> (r: Option<Identity>)
        requires
            self.inv(),
        ensures
            r is Some <==> identity_in_use(self.model(), provider@, provider_user_id@),
            r matches Some(i) ==> exists|k: Seq<char>|
                #[trigger] self.model().identities.contains_key(k) && self.model().identities[k] == i
                    && identity_matches(i, provider@, provider_user_id@),
    {
        let f = |k: &IdentityId, i: &Identity| -> (b: bool)
            ensures
                b == identity_matches(*i, provider@, provider_user_id@),
            { str_eq(i.provider.as_str(), provider) && str_eq(i.provider_user_id.as_str(), provider_user_id) };
        let found = self.identities.find_value(f, Ghost(identity_with(provider@, provider_user_id@)));
        match found {
            Some(i) => Some(i.duplicate()),
            None => None,
        }
    }

    fn insert_identity(
        &mut self,
        user_id: &UserId,
        provider: &str,
        provider_user_id: &str,
        secret: Option<String>,
        now_ms: i64,
    ) -> (i: Identity)
        requires
            old(self).inv(),
            !identity_in_use(old(self).model(), provider@, provider_user_id@),
        ensures
            final(self).inv(),
            identity_fields(
                i,
                user_id@,
                provider@,
                provider_user_id@,
                match secret {
                    Some(x) => Some(x@),
                    None => None,
                },
                now_ms,
            ),
            final(self).model() == (RepoState {
                identities: old(self).model().identities.insert(i.id@, i),
                ..old(self).model()
            }),
    {
        let id = IdentityId::new();
        let identity = Identity {
            id: id.duplicate(),
            user_id: user_id.duplicate(),
            provider: String::from_str(provider),
            provider_user_id: String::from_str(provider_user_id),
            secret,
            created_at_ms: now_ms,
        };
        self.identities.insert(id, identity.duplicate());
        identity
    }

    /// Password signup under the given keys: the user, a password identity,
    /// the personal billing account and organization, then the invitation
    /// if one is given. Keys already in use are refused as
    /// `AlreadyExists("generated key")` and nothing is overwritten.
    pub fn create_password_user_with_ids(
        &mut self,
        input: NewPasswordUser,
        invite: Option<InvitationAcceptance>,
        now_ms: i64,
        ids: NewUserIds,
    ) -> (r: StoreResult<User>)
        requires
            old(self).inv(),
        ensures
            final(self).inv(),
            password_signup(
                old(self).model(),
                final(self).model(),
                input.email@,
                input.password_hash@,
                acceptance_view(invite),
                now_ms,
                ids.keys(),
                store_result(r),
            ),
            r matches Ok(u) ==> u.id@ == ids.user@,
    {
        let ghost email = input.email@;
        let ghost hash = input.password_hash@;
        if self.email_taken(input.email.as_str()) {
            proof {
                reveal_strlit("user with email ");
            }
            return Err(StoreError::already_exists(concat("user with email ", input.email.as_str())));
        }
        match &invite {
            Some(acc) => {
                if !self.scope_present(&acc.target) {
                    return Err(Self::scope_missing(&acc.target));
                }
            },
            None => {},
        }
        if self.keys_in_use(&ids) || self.identity_taken(password_provider_tag(), ids.user.as_str()).is_some() {
            proof {
                reveal_strlit("generated key");
            }
            return Err(StoreError::already_exists(String::from_str("generated key")));
        }
        let ghost old_state = self.model();
        let provider_user_id = ids.user.to_string();
        let user = self.insert_new_user(
            &ids,
            input.email.as_str(),
            false,
            String::from_str(password_provider_tag()),
            provider_user_id,
            Some(input.password_hash),
            now_ms,
        );
        let ghost mid = self.model();
        let ghost keys = ids.keys();
        proof {
            reveal_strlit("password");
            assert(user_created(
                old_state,
                mid,
                user,
                email,
                false,
                keys.1,
                "password"@,
                user.id@,
                Some(hash),
                now_ms,
                keys.2,
                keys.3,
            ));
        }
        match invite {
            None => Ok(user),
            Some(acc) => {
                let ghost av = acc@;
                assert(scope_exists(mid, av.target));
                let res = self.apply_invitation(&user.id, acc, now_ms);
                proof {
                    assert(invitation_applied(mid, self.model(), user.id@, av, now_ms, store_result(res)));
                }
                match res {
                    Ok(()) => Ok(user),
                    Err(e) => Err(e),
                }
            },
        }
    }

    /// SSO signup under the given keys: as password signup with a verified
    /// email and an `sso:<idp>` identity, then joining the auto-join billing
    /// account as a member when it exists. Keys already in use are refused
    /// as `AlreadyExists("generated key")` and nothing is overwritten.
    pub fn create_sso_user_with_ids(
        &mut self,
        input: NewSsoUser,
        invite: Option<InvitationAcceptance>,
        auto_join_billing: Option<BillingAccountId>,
        now_ms: i64,
        ids: NewUserIds,
    ) -> (r: StoreResult<User>)
        requires
            old(self).inv(),
        ensures
            final(self).inv(),
            sso_signup(
                old(self).model(),
                final(self).model(),
                input.email@,
                input.idp_id@,
                input.idp_user_id@,
                acceptance_view(invite),
                billing_id_view(auto_join_billing),
                now_ms,
                ids.keys(),
                store_result(r),
            ),
            r matches Ok(u) ==> u.id@ == ids.user@,
    {
        if self.email_taken(input.email.as_str()) {
            proof {
                reveal_strlit("user with email ");
            }
            return Err(StoreError::already_exists(concat("user with email ", input.email.as_str())));
        }
        match &invite {
            Some(acc) => {
                if !self.scope_present(&acc.target) {
                    return Err(Self::scope_missing(&acc.target));
                }
            },
            None => {},
        }
        if self.keys_in_use(&ids) {
            proof {
                reveal_strlit("generated key");
            }
            return Err(StoreError::already_exists(String::from_str("generated key")));
        }
        let provider = IdentityProvider::sso_str(input.idp_id.as_str());
        if self.identity_taken(provider.as_str(), input.idp_user_id.as_str()).is_some() {
            let mut m = concat("identity ", provider.as_str());
            m.append(":");
            m.append(input.idp_user_id.as_str());
            proof {
                reveal_strlit("identity ");
                reveal_strlit(":");
            }
            return Err(StoreError::already_exists(m));
        }
        let ghost email = input.email@;
        let ghost idp = input.idp_id@;
        let ghost idp_user = input.idp_user_id@;
        let ghost old_state = self.model();
        let ghost keys = ids.keys();
        let ghost join = billing_id_view(auto_join_billing);
        let user = self.insert_new_user(
            &ids,
            input.email.as_str(),
            true,
            provider,
            input.idp_user_id,
            None,
            now_ms,
        );
        let ghost mid = self.model();
        proof {
            assert(user_created(
                old_state,
                mid,
                user,
                email,
                true,
                keys.1,
                sso_provider_tag(idp),
                idp_user,
                None,
                now_ms,
                keys.2,
                keys.3,
            ));
        }
        match invite {
            None => {},
            Some(acc) => {
                let ghost av = acc@;
                assert(scope_exists(mid, av.target));
                let res = self.apply_invitation(&user.id, acc, now_ms);
                let ghost rv = store_result(res);
                proof {
                    assert(invitation_applied(mid, self.model(), user.id@, av, now_ms, rv));
                }
                match res {
                    Ok(()) => {},
                    Err(e) => {
                        return Err(e);
                    },
                }
            },
        }
        let ghost mid2 = self.model();
        self.join_billing(&user.id, auto_join_billing, now_ms);
        proof {
            assert(auto_joined(mid2, self.model(), user.id@, join, now_ms));
        }
        Ok(user)
    }

    /// Join `target` as a member when it exists.
    fn join_billing(&mut self, user_id: &UserId, target: Option<BillingAccountId>, now_ms: i64)
        requires
            old(self).inv(),
        ensures
            final(self).inv(),
            auto_joined(old(self).model(), final(self).model(), user_id@, billing_id_view(target), now_ms),
    {
        match target {
            Some(target) => {
                if self.billing_accounts.contains_key(&target) {
                    let membership = BillingMembership {
                        user_id: user_id.duplicate(),
                        billing_account_id: target.duplicate(),
                        role: Role::Member,
                        created_at_ms: now_ms,
                    };
                    self.billing_memberships.insert((user_id.duplicate(), target), membership);
                }
            },
            None => {},
        }
    }
}

impl UserRepo for InMemoryRepo {
    fn get_user(&self, id: &UserId) -> (r: StoreResult<Option<User>>) {
        match self.users.get(id) {
            Some(u) => Ok(Some(u.duplicate())),
            None => Ok(None),
        }
    }

    fn get_user_by_email(&self, email: &str) -> (r: StoreResult<Option<User>>) {
        let f = |k: &UserId, u: &User| -> (b: bool)
            ensures
                b == email_matches(*u, email@),
            { eq_ignore_ascii_case(u.email.as_str(), email) };
        let found = self.users.find_value(f, Ghost(user_with_email(email@)));
        match found {
            Some(u) => Ok(Some(u.duplicate())),
            None => Ok(None),
        }
    }

    fn mark_email_verified(&mut self, user_id: &UserId) -> (r: StoreResult<()>) {
        let updated = match self.users.get(user_id) {
            Some(u) => {
                let mut u = u.duplicate();
                u.email_verified = true;
                u
            },
            None => {
                proof {
                    reveal_strlit("user ");
                }
                return Err(StoreError::not_found(concat("user ", user_id.as_str())));
            },
        };
        self.users.insert(user_id.duplicate(), updated);
        Ok(())
    }

    fn list_identities(&self, user_id: &UserId) -> (r: StoreResult<Vec<Identity>>) {
        let f = |k: &IdentityId, i: &Identity| -> (b: bool)
            ensures
                b == (i.user_id@ == user_id@),
            { i.user_id.same_as(user_id) };
        Ok(self.identities.collect_values(f, Ghost(identity_of_user(user_id@))))
    }

    fn find_identity(&self, provider: &str, provider_user_id: &str) -> (r: StoreResult<Option<Identity>>) {
        Ok(self.identity_taken(provider, provider_user_id))
    }

    fn add_identity(
        &mut self,
        user_id: &UserId,
        provider: &str,
        provider_user_id: &str,
        secret: Option<String>,
        now_ms: i64,
    ) -> (r: StoreResult<Identity>) {
        if self.identity_taken(provider, provider_user_id).is_some() {
            proof {
                reveal_strlit("identity ");
                reveal_strlit(":");
            }
            let msg = concat("identity ", provider);
            let msg = concat(msg.as_str(), ":");
            let msg = concat(msg.as_str(), provider_user_id);
            return Err(StoreError::already_exists(msg));
        }
        Ok(self.insert_identity(user_id, provider, provider_user_id, secret, now_ms))
    }

    fn update_identity_secret(&mut self, identity_id: &IdentityId, new_secret: String) -> (r: StoreResult<()>) {
        let updated = match self.identities.get(identity_id) {
            Some(i) => {
                let mut i = i.duplicate();
                i.secret = Some(new_secret);
                i
            },
            None => {
                proof {
                    reveal_strlit("identity ");
                }
                return Err(StoreError::not_found(concat("identity ", identity_id.as_str())));
            },
        };
        self.identities.insert(identity_id.duplicate(), updated);
        Ok(())
    }

    fn delete_user(&mut self, user_id: &UserId) -> (r: StoreResult<()>) {
        if !self.users.contains_key(user_id) {
            proof {
                reveal_strlit("user ");
            }
            return Err(StoreError::not_found(concat("user ", user_id.as_str())));
        }
        let keep = |k: &IdentityId, i: Identity| -> (r: Option<Identity>)
            ensures
                r == drop_identities_of(user_id@)(k@, i),
            {
                if i.user_id.same_as(user_id) {
                    None
                } else {
                    Some(i)
                }
            };
        self.identities.retain_map(keep, Ghost(drop_identities_of(user_id@)));
        let keep = |k: &(UserId, BillingAccountId), m: BillingMembership| -> (r: Option<BillingMembership>)
            ensures
                r == drop_billing_memberships_of(user_id@)(k@, m),
            {
                if k.0.same_as(user_id) {
                    None
                } else {
                    Some(m)
                }
            };
        self.billing_memberships.retain_map(keep, Ghost(drop_billing_memberships_of(user_id@)));
        let keep = |k: &(UserId, OrgId), m: OrgMembership| -> (r: Option<OrgMembership>)
            ensures
                r == drop_org_memberships_of(user_id@)(k@, m),
            {
                if k.0.same_as(user_id) {
                    None
                } else {
                    Some(m)
                }
            };
        self.org_memberships.retain_map(keep, Ghost(drop_org_memberships_of(user_id@)));
        let keep = |k: &OrgId, o: Organization| -> (r: Option<Organization>)
            ensures
                r == drop_personal_orgs_of(user_id@)(k@, o),
            {
                if o.personal && owned_by(&o.owner_user_id, user_id) {
                    None
                } else {
                    Some(o)
                }
            };
        self.organizations.retain_map(keep, Ghost(drop_personal_orgs_of(user_id@)));
        let keep = |k: &BillingAccountId, b: BillingAccount| -> (r: Option<BillingAccount>)
            ensures
                r == drop_personal_billing_of(user_id@)(k@, b),
            {
                if b.personal && owned_by(&b.owner_user_id, user_id) {
                    None
                } else {
                    Some(b)
                }
            };
        self.billing_accounts.retain_map(keep, Ghost(drop_personal_billing_of(user_id@)));
        let keep = |k: &InvitationId, inv: Invitation| -> (r: Option<Invitation>)
            ensures
                r == forget_inviter(user_id@)(k@, inv),
            {
                if owned_by(&inv.inviter_user_id, user_id) {
                    let mut inv = inv;
                    inv.inviter_user_id = None;
                    Some(inv)
                } else {
                    Some(inv)
                }
            };
        self.invitations.retain_map(keep, Ghost(forget_inviter(user_id@)));
        self.users.remove(user_id);
        Ok(())
    }

    fn create_password_user(&mut self, input: NewPasswordUser, invite: Option<InvitationAcceptance>, now_ms: i64) -> (r: StoreResult<User>) {
        let ids = NewUserIds::fresh();
        let ghost keys = ids.keys();
        let r = self.create_password_user_with_ids(input, invite, now_ms, ids);
        proof {
            assert(password_signup(
                old(self).model(),
                self.model(),
                input.email@,
                input.password_hash@,
                acceptance_view(invite),
                now_ms,
                keys,
                store_result(r),
            ));
        }
        r
    }

    fn create_sso_user(
        &mut self,
        input: NewSsoUser,
        invite: Option<InvitationAcceptance>,
        auto_join_billing: Option<BillingAccountId>,
        now_ms: i64,
    ) -> (r: StoreResult<User>) {
        let ids = NewUserIds::fresh();
        let ghost keys = ids.keys();
        let r = self.create_sso_user_with_ids(input, invite, auto_join_billing, now_ms, ids);
        proof {
            assert(sso_signup(
                old(self).model(),
                self.model(),
                input.email@,
                input.idp_id@,
                input.idp_user_id@,
                acceptance_view(invite),
                billing_id_view(auto_join_billing),
                now_ms,
                keys,
                store_result(r),
            ));
        }
        r
    }

    fn link_identity(
        &mut self,
        user_id: &UserId,
        provider: &str,
        provider_user_id: &str,
        secret: Option<String>,
        now_ms: i64,
    ) -> (r: StoreResult<Identity>) {
        match self.identity_taken(provider, provider_user_id) {
            Some(existing) => {
                if !existing.user_id.same_as(user_id) {
                    proof {
                        reveal_strlit("identity ");
                        reveal_strlit(":");
                        reveal_strlit(" belongs to another user");
                    }
                    let msg = concat("identity ", provider);
                    let msg = concat(msg.as_str(), ":");
                    let msg = concat(msg.as_str(), provider_user_id);
                    let msg = concat(msg.as_str(), " belongs to another user");
                    return Err(StoreError::conflict(msg));
                }
                Ok(existing)
            },
            None => Ok(self.insert_identity(user_id, provider, provider_user_id, secret, now_ms)),
        }
    }
}

/// Whether an optional user reference names the user.
fn owned_by(o: &Option<UserId>, user_id: &UserId) -> (b: bool)
    ensures
        b == names_user(*o, user_id@),
{
    match o {
        Some(x) => x.same_as(user_id),
        None => false,
    }
}

impl InMemoryRepo {
    fn has_orgs_under(&self, billing_account_id: &BillingAccountId) -> (b: bool)
        requires
            self.inv(),
        ensures
            b == has_orgs(self.model(), billing_account_id@),
    {
        let f = |k: &OrgId, o: &Organization| -> (b: bool)
            ensures
                b == org_under(billing_account_id@)(k@, *o),
            { o.billing_account_id.same_as(billing_account_id) };
        let found = self.organizations.find_value(f, Ghost(org_under(billing_account_id@)));
        found.is_some()
    }
}

impl BillingRepo for InMemoryRepo {
    fn get_billing_account(&self, id: &BillingAccountId) -> (r: StoreResult<Option<BillingAccount>>) {
        match self.billing_accounts.get(id) {
            Some(b) => Ok(Some(b.duplicate())),
            None => Ok(None),
        }
    }

    fn list_billing_accounts_for_user(&self, user_id: &UserId) -> (r: StoreResult<Vec<BillingAccountWithRole>>) {
        let ghost s = self.model();
        let f = |k: &(UserId, BillingAccountId), m: &BillingMembership| -> (o: Option<BillingAccountWithRole>)
            requires
                self.inv(),
            ensures
                o == (if accounts_of_user(self.model(), user_id@)(k@, *m) {
                    Some(account_with_role(self.model())(k@, *m))
                } else {
                    None
                }),
            {
                if k.0.same_as(user_id) {
                    match self.billing_accounts.get(&k.1) {
                        Some(b) => Some((b.duplicate(), m.role)),
                        None => None,
                    }
                } else {
                    None
                }
            };
        let rows = self.billing_memberships.collect_rows(
            f,
            Ghost(accounts_of_user(s, user_id@)),
            Ghost(account_with_role(s)),
        );
        let sorted = sort_by_key(rows);
        proof {
            lemma_listed_rows_permuted(
                s.billing_memberships,
                rows@,
                sorted@,
                accounts_of_user(s, user_id@),
                account_with_role(s),
            );
        }
        Ok(sorted)
    }

    fn create_billing_account(&mut self, display_name: String, owner_user_id: UserId, now_ms: i64) -> (r: StoreResult<BillingAccount>) {
        if !self.users.contains_key(&owner_user_id) {
            proof {
                reveal_strlit("user ");
            }
            return Err(StoreError::not_found(concat("user ", owner_user_id.as_str())));
        }
        let id = BillingAccountId::new();
        let account = BillingAccount {
            id: id.duplicate(),
            display_name,
            personal: false,
            owner_user_id: None,
            auto_join_domain: None,
            created_at_ms: now_ms,
        };
        self.billing_accounts.insert(id.duplicate(), account.duplicate());
        let membership = BillingMembership {
            user_id: owner_user_id.duplicate(),
            billing_account_id: id.duplicate(),
            role: Role::Owner,
            created_at_ms: now_ms,
        };
        self.billing_memberships.insert((owner_user_id, id), membership);
        Ok(account)
    }

    fn set_auto_join_domain(&mut self, billing_account_id: &BillingAccountId, domain: Option<String>) -> (r: StoreResult<()>) {
        let updated = match self.billing_accounts.get(billing_account_id) {
            Some(b) => {
                let mut b = b.duplicate();
                b.auto_join_domain = match domain {
                    Some(d) => Some(to_unicode_lowercase(d.as_str())),
                    None => None,
                };
                b
            },
            None => {
                proof {
                    reveal_strlit("billing account ");
                }
                return Err(StoreError::not_found(concat("billing account ", billing_account_id.as_str())));
            },
        };
        self.billing_accounts.insert(billing_account_id.duplicate(), updated);
        Ok(())
    }

    fn find_billing_by_auto_join_domain(&self, domain: &str) -> (r: StoreResult<Option<BillingAccount>>) {
        let f = |k: &BillingAccountId, b: &BillingAccount| -> (m: bool)
            ensures
                m == auto_join_match(domain@)(k@, *b),
            {
                !b.personal && match &b.auto_join_domain {
                    Some(d) => eq_ignore_ascii_case(d.as_str(), domain),
                    None => false,
                }
            };
        match self.billing_accounts.find_value(f, Ghost(auto_join_match(domain@))) {
            Some(b) => Ok(Some(b.duplicate())),
            None => Ok(None),
        }
    }

    fn delete_billing_account(&mut self, id: &BillingAccountId) -> (r: StoreResult<()>) {
        let personal = match self.billing_accounts.get(id) {
            Some(b) => b.personal,
            None => {
                proof {
                    reveal_strlit("billing account ");
                }
                return Err(StoreError::not_found(concat("billing account ", id.as_str())));
            },
        };
        if personal {
            return Err(StoreError::conflict(String::from_str("personal billing accounts are deleted with the user")));
        }
        if self.has_orgs_under(id) {
            return Err(StoreError::conflict(String::from_str("cannot delete billing account: orgs still attached")));
        }
        self.billing_accounts.remove(id);
        let keep = |k: &(UserId, BillingAccountId), m: BillingMembership| -> (r: Option<BillingMembership>)
            ensures
                r == drop_memberships_in(id@)(k@, m),
            {
                if k.1.same_as(id) {
                    None
                } else {
                    Some(m)
                }
            };
        self.billing_memberships.retain_map(keep, Ghost(drop_memberships_in(id@)));
        let keep = |k: &(ScopeKind, String), c: SsoConfig| -> (r: Option<SsoConfig>)
            ensures
                r == drop_config_of(ScopeKind::Billing, id@)(k@, c),
            {
                if k.0 == ScopeKind::Billing && str_eq(k.1.as_str(), id.as_str()) {
                    None
                } else {
                    Some(c)
                }
            };
        self.sso_configs.retain_map(keep, Ghost(drop_config_of(ScopeKind::Billing, id@)));
        Ok(())
    }

    fn get_billing_accounts_by_ids(&self, ids: &[&str]) -> (r: StoreResult<Vec<(String, BillingAccount)>>) {
        let ghost m = self.model().billing_accounts;
        let ghost want = ids@.map_values(|s: &str| s@);
        let mut out: Vec<(String, BillingAccount)> = Vec::new();
        let mut i: usize = 0;
        while i < ids.len()
            invariant
                self.inv(),
                m == self.model().billing_accounts,
                want == ids@.map_values(|s: &str| s@),
                i <= ids@.len(),
                forall|t: int|
                    0 <= t < out@.len() ==> want.contains(#[trigger] out@[t].0@) && m.contains_key(out@[t].0@)
                        && out@[t].1 == m[out@[t].0@],
                forall|j: int|
                    0 <= j < i && m.contains_key(#[trigger] want[j]) ==> exists|t: int|
                        0 <= t < out@.len() && (#[trigger] out@[t]).0@ == want[j],
                forall|a: int, b: int| 0 <= a < b < out@.len() ==> (#[trigger] out@[a]).0@ != (#[trigger] out@[b]).0@,
            decreases ids@.len() - i,
        {
            let key = BillingAccountId::from_string(String::from_str(ids[i]));
            let seen = position_of_key(&out, ids[i]);
            if seen.is_none() {
                match self.billing_accounts.get(&key) {
                    Some(b) => {
                        let ghost before = out@;
                        out.push((String::from_str(ids[i]), b.duplicate()));
                        proof {
                            assert(want[i as int] == ids@[i as int]@);
                            assert forall|j: int|
                                0 <= j < i + 1 && m.contains_key(#[trigger] want[j]) implies exists|t: int|
                                    0 <= t < out@.len() && (#[trigger] out@[t]).0@ == want[j] by {
                                if j < i {
                                    let t = choose|t: int| 0 <= t < before.len() && (#[trigger] before[t]).0@ == want[j];
                                    assert(out@[t] == before[t]);
                                } else {
                                    assert(out@[out@.len() - 1].0@ == want[j]);
                                }
                            }
                        }
                    },
                    None => {},
                }
            }
            i = i + 1;
        }
        Ok(out)
    }

    fn count_orgs_for_billing(&self, billing_account_id: &BillingAccountId) -> (r: StoreResult<i64>) {
        let f = |k: &OrgId, o: &Organization| -> (b: bool)
            ensures
                b == org_under(billing_account_id@)(k@, *o),
            { o.billing_account_id.same_as(billing_account_id) };
        let n = self.organizations.count_matching(f, Ghost(org_under(billing_account_id@)));
        Ok(n as i64)
    }

    fn count_billing_owners(&self, billing_account_id: &BillingAccountId) -> (r: StoreResult<i64>) {
        let f = |k: &(UserId, BillingAccountId), m: &BillingMembership| -> (b: bool)
            ensures
                b == is_billing_owner(billing_account_id@)(k@, *m),
            { m.billing_account_id.same_as(billing_account_id) && m.role == Role::Owner };
        let n = self.billing_memberships.count_matching(f, Ghost(is_billing_owner(billing_account_id@)));
        Ok(n as i64)
    }
}

/// Where a row keyed `key` stands in `rows`, if anywhere.
fn position_of_key<T>(rows: &Vec<(String, T)>, key: &str) -> (r: Option<usize>)
    ensures
        match r {
            Some(t) => t < rows@.len() && rows@[t as int].0@ == key@,
            None => forall|t: int| 0 <= t < rows@.len() ==> (#[trigger] rows@[t]).0@ != key@,
        },
{
    let mut t: usize = 0;
    while t < rows.len()
        invariant
            t <= rows@.len(),
            forall|u: int| 0 <= u < t ==> (#[trigger] rows@[u]).0@ != key@,
        decreases rows@.len() - t,
    {
        if str_eq(rows[t].0.as_str(), key) {
            return Some(t);
        }
        t = t + 1;
    }
    None
}

impl InMemoryRepo {
    fn billing_owners(&self, billing_account_id: &BillingAccountId) -> (n: usize)
        requires
            self.inv(),
        ensures
            n == billing_owner_count(self.model(), billing_account_id@),
    {
        let f = |k: &(UserId, BillingAccountId), m: &BillingMembership| -> (b: bool)
            ensures
                b == is_billing_owner(billing_account_id@)(k@, *m),
            { m.billing_account_id.same_as(billing_account_id) && m.role == Role::Owner };
        self.billing_memberships.count_matching(f, Ghost(is_billing_owner(billing_account_id@)))
    }

    fn org_owners(&self, org_id: &OrgId) -> (n: usize)
        requires
            self.inv(),
        ensures
            n == org_owner_count(self.model(), org_id@),
    {
        let f = |k: &(UserId, OrgId), m: &OrgMembership| -> (b: bool)
            ensures
                b == is_org_owner(org_id@)(k@, *m),
            { m.org_id.same_as(org_id) && m.role == Role::Owner };
        self.org_memberships.count_matching(f, Ghost(is_org_owner(org_id@)))
    }
}

impl MembershipRepo for InMemoryRepo {
    fn add_billing_membership(&mut self, user_id: &UserId, billing_account_id: &BillingAccountId, role: Role, now_ms: i64) -> (r: StoreResult<()>) {
        let key = (user_id.duplicate(), billing_account_id.duplicate());
        if self.billing_memberships.contains_key(&key) {
            proof {
                reveal_strlit("billing membership ");
                reveal_strlit(" -> ");
            }
            let msg = concat("billing membership ", user_id.as_str());
            let msg = concat(msg.as_str(), " -> ");
            let msg = concat(msg.as_str(), billing_account_id.as_str());
            return Err(StoreError::already_exists(msg));
        }
        let membership = BillingMembership {
            user_id: user_id.duplicate(),
            billing_account_id: billing_account_id.duplicate(),
            role,
            created_at_ms: now_ms,
        };
        self.billing_memberships.insert(key, membership);
        Ok(())
    }

    fn get_billing_membership(&self, user_id: &UserId, billing_account_id: &BillingAccountId) -> (r: StoreResult<Option<BillingMembership>>) {
        let key = (user_id.duplicate(), billing_account_id.duplicate());
        match self.billing_memberships.get(&key) {
            Some(m) => Ok(Some(m.duplicate())),
            None => Ok(None),
        }
    }

    fn update_billing_membership_role(&mut self, user_id: &UserId, billing_account_id: &BillingAccountId, role: Role) -> (r: StoreResult<()>) {
        let key = (user_id.duplicate(), billing_account_id.duplicate());
        let existing = match self.billing_memberships.get(&key) {
            Some(m) => m.duplicate(),
            None => {
                return Err(StoreError::not_found(String::from_str("billing membership")));
            },
        };
        if existing.role == Role::Owner && role != Role::Owner {
            let owners = self.billing_owners(billing_account_id);
            if owners <= 1 {
                return Err(
                    StoreError::conflict(String::from_str("cannot demote the last owner of a billing account")),
                );
            }
        }
        let mut updated = existing;
        updated.role = role;
        self.billing_memberships.insert(key, updated);
        Ok(())
    }

    fn remove_billing_membership(&mut self, user_id: &UserId, billing_account_id: &BillingAccountId) -> (r: StoreResult<()>) {
        let key = (user_id.duplicate(), billing_account_id.duplicate());
        let existing_role = match self.billing_memberships.get(&key) {
            Some(m) => m.role,
            None => {
                return Err(StoreError::not_found(String::from_str("billing membership")));
            },
        };
        if existing_role == Role::Owner {
            let owners = self.billing_owners(billing_account_id);
            if owners <= 1 {
                return Err(
                    StoreError::conflict(String::from_str("cannot remove the last owner of a billing account")),
                );
            }
        }
        self.billing_memberships.remove(&key);
        Ok(())
    }

    fn list_billing_memberships(&self, billing_account_id: &BillingAccountId) -> (r: StoreResult<Vec<BillingMemberRow>>) {
        let f = |k: &(UserId, BillingAccountId), m: &BillingMembership| -> (o: Option<BillingMemberRow>)
            requires
                self.inv(),
            ensures
                o == (if members_of_billing(self.model(), billing_account_id@)(k@, *m) {
                    Some(billing_member_row(self.model())(k@, *m))
                } else {
                    None
                }),
            {
                if m.billing_account_id.same_as(billing_account_id) {
                    match self.users.get(&k.0) {
                        Some(u) => Some((m.duplicate(), u.duplicate())),
                        None => None,
                    }
                } else {
                    None
                }
            };
        let rows = self.billing_memberships.collect_rows(
            f,
            Ghost(members_of_billing(self.model(), billing_account_id@)),
            Ghost(billing_member_row(self.model())),
        );
        let sorted = sort_by_key(rows);
        proof {
            lemma_listed_rows_permuted(
                self.model().billing_memberships,
                rows@,
                sorted@,
                members_of_billing(self.model(), billing_account_id@),
                billing_member_row(self.model()),
            );
        }
        Ok(sorted)
    }

    fn add_org_membership(&mut self, user_id: &UserId, org_id: &OrgId, role: Role, now_ms: i64) -> (r: StoreResult<()>) {
        let key = (user_id.duplicate(), org_id.duplicate());
        if self.org_memberships.contains_key(&key) {
            proof {
                reveal_strlit("org membership ");
                reveal_strlit(" -> ");
            }
            let msg = concat("org membership ", user_id.as_str());
            let msg = concat(msg.as_str(), " -> ");
            let msg = concat(msg.as_str(), org_id.as_str());
            return Err(StoreError::already_exists(msg));
        }
        let membership = OrgMembership {
            user_id: user_id.duplicate(),
            org_id: org_id.duplicate(),
            role,
            created_at_ms: now_ms,
        };
        self.org_memberships.insert(key, membership);
        Ok(())
    }

    fn get_org_membership(&self, user_id: &UserId, org_id: &OrgId) -> (r: StoreResult<Option<OrgMembership>>) {
        let key = (user_id.duplicate(), org_id.duplicate());
        match self.org_memberships.get(&key) {
            Some(m) => Ok(Some(m.duplicate())),
            None => Ok(None),
        }
    }

    fn update_org_membership_role(&mut self, user_id: &UserId, org_id: &OrgId, role: Role) -> (r: StoreResult<()>) {
        let key = (user_id.duplicate(), org_id.duplicate());
        let existing = match self.org_memberships.get(&key) {
            Some(m) => m.duplicate(),
            None => {
                return Err(StoreError::not_found(String::from_str("org membership")));
            },
        };
        if existing.role == Role::Owner && role != Role::Owner {
            let owners = self.org_owners(org_id);
            if owners <= 1 {
                return Err(
                    StoreError::conflict(String::from_str("cannot demote the last owner of an organization")),
                );
            }
        }
        let mut updated = existing;
        updated.role = role;
        self.org_memberships.insert(key, updated);
        Ok(())
    }

    fn remove_org_membership(&mut self, user_id: &UserId, org_id: &OrgId) -> (r: StoreResult<()>) {
        let key = (user_id.duplicate(), org_id.duplicate());
        let existing_role = match self.org_memberships.get(&key) {
            Some(m) => m.role,
            None => {
                return Err(StoreError::not_found(String::from_str("org membership")));
            },
        };
        if existing_role == Role::Owner {
            let owners = self.org_owners(org_id);
            if owners <= 1 {
                return Err(
                    StoreError::conflict(String::from_str("cannot remove the last owner of an organization")),
                );
            }
        }
        self.org_memberships.remove(&key);
        Ok(())
    }

    fn list_org_memberships(&self, org_id: &OrgId) -> (r: StoreResult<Vec<OrgMemberRow>>) {
        let f = |k: &(UserId, OrgId), m: &OrgMembership| -> (o: Option<OrgMemberRow>)
            requires
                self.inv(),
            ensures
                o == (if members_of_org(self.model(), org_id@)(k@, *m) {
                    Some(org_member_row(self.model())(k@, *m))
                } else {
                    None
                }),
            {
                if m.org_id.same_as(org_id) {
                    match self.users.get(&k.0) {
                        Some(u) => Some((m.duplicate(), u.duplicate())),
                        None => None,
                    }
                } else {
                    None
                }
            };
        let rows = self.org_memberships.collect_rows(
            f,
            Ghost(members_of_org(self.model(), org_id@)),
            Ghost(org_member_row(self.model())),
        );
        let sorted = sort_by_key(rows);
        proof {
            lemma_listed_rows_permuted(
                self.model().org_memberships,
                rows@,
                sorted@,
                members_of_org(self.model(), org_id@),
                org_member_row(self.model()),
            );
        }
        Ok(sorted)
    }

    fn count_org_owners(&self, org_id: &OrgId) -> (r: StoreResult<i64>) {
        let n = self.org_owners(org_id);
        Ok(n as i64)
    }

    fn count_non_personal_owner_memberships(&self, user_id: &UserId) -> (r: StoreResult<i64>) {
        let f = |k: &(UserId, BillingAccountId), m: &BillingMembership| -> (b: bool)
            requires
                self.inv(),
            ensures
                b == shared_ownership(self.model(), user_id@)(k@, *m),
            {
                if m.user_id.same_as(user_id) && m.role == Role::Owner {
                    match self.billing_accounts.get(&m.billing_account_id) {
                        Some(b) => !b.personal,
                        None => false,
                    }
                } else {
                    false
                }
            };
        let n = self.billing_memberships.count_matching(f, Ghost(shared_ownership(self.model(), user_id@)));
        Ok(n as i64)
    }
}

impl OrgRepo for InMemoryRepo {
    fn create_organization(&mut self, display_name: String, billing_account_id: BillingAccountId, now_ms: i64) -> (r: StoreResult<Organization>) {
        if !self.billing_accounts.contains_key(&billing_account_id) {
            proof {
                reveal_strlit("billing account ");
            }
            return Err(StoreError::not_found(concat("billing account ", billing_account_id.as_str())));
        }
        let id = OrgId::new();
        let org = Organization {
            id: id.duplicate(),
            display_name,
            billing_account_id,
            personal: false,
            owner_user_id: None,
            created_at_ms: now_ms,
        };
        self.organizations.insert(id, org.duplicate());
        Ok(org)
    }

    fn get_organization(&self, id: &OrgId) -> (r: StoreResult<Option<Organization>>) {
        match self.organizations.get(id) {
            Some(o) => Ok(Some(o.duplicate())),
            None => Ok(None),
        }
    }

    fn list_organizations_for_billing(&self, billing_account_id: &BillingAccountId) -> (r: StoreResult<Vec<Organization>>) {
        let f = |k: &OrgId, o: &Organization| -> (b: bool)
            ensures
                b == org_under(billing_account_id@)(k@, *o),
            { o.billing_account_id.same_as(billing_account_id) };
        let rows = self.organizations.collect_values(f, Ghost(org_under(billing_account_id@)));
        let sorted = sort_by_key(rows);
        proof {
            lemma_listed_permuted(self.model().organizations, rows@, sorted@, org_under(billing_account_id@));
        }
        Ok(sorted)
    }

    fn list_organizations_for_user(&self, user_id: &UserId) -> (r: StoreResult<Vec<OrgWithRole>>) {
        let f = |k: &(UserId, OrgId), m: &OrgMembership| -> (o: Option<OrgWithRole>)
            requires
                self.inv(),
            ensures
                o == (if orgs_of_user(self.model(), user_id@)(k@, *m) {
                    Some(org_with_role(self.model())(k@, *m))
                } else {
                    None
                }),
            {
                if k.0.same_as(user_id) {
                    match self.organizations.get(&k.1) {
                        Some(org) => Some((org.duplicate(), m.role)),
                        None => None,
                    }
                } else {
                    None
                }
            };
        let rows = self.org_memberships.collect_rows(
            f,
            Ghost(orgs_of_user(self.model(), user_id@)),
            Ghost(org_with_role(self.model())),
        );
        let sorted = sort_by_key(rows);
        proof {
            lemma_listed_rows_permuted(
                self.model().org_memberships,
                rows@,
                sorted@,
                orgs_of_user(self.model(), user_id@),
                org_with_role(self.model()),
            );
        }
        Ok(sorted)
    }

    fn delete_organization(&mut self, id: &OrgId) -> (r: StoreResult<()>) {
        let personal = match self.organizations.get(id) {
            Some(o) => o.personal,
            None => {
                proof {
                    reveal_strlit("organization ");
                }
                return Err(StoreError::not_found(concat("organization ", id.as_str())));
            },
        };
        if personal {
            return Err(StoreError::conflict(String::from_str("personal organizations are deleted with the user")));
        }
        self.organizations.remove(id);
        let keep = |k: &(UserId, OrgId), m: OrgMembership| -> (r: Option<OrgMembership>)
            ensures
                r == drop_memberships_of_org(id@)(k@, m),
            {
                if k.1.same_as(id) {
                    None
                } else {
                    Some(m)
                }
            };
        self.org_memberships.retain_map(keep, Ghost(drop_memberships_of_org(id@)));
        let keep = |k: &(ScopeKind, String), c: SsoConfig| -> (r: Option<SsoConfig>)
            ensures
                r == drop_config_of(ScopeKind::Org, id@)(k@, c),
            {
                if k.0 == ScopeKind::Org && str_eq(k.1.as_str(), id.as_str()) {
                    None
                } else {
                    Some(c)
                }
            };
        self.sso_configs.retain_map(keep, Ghost(drop_config_of(ScopeKind::Org, id@)));
        Ok(())
    }

    fn get_organizations_by_ids(&self, ids: &[&str]) -> (r: StoreResult<Vec<(String, Organization)>>) {
        let ghost m = self.model().organizations;
        let ghost want = ids@.map_values(|s: &str| s@);
        let mut out: Vec<(String, Organization)> = Vec::new();
        let mut i: usize = 0;
        while i < ids.len()
            invariant
                self.inv(),
                m == self.model().organizations,
                want == ids@.map_values(|s: &str| s@),
                i <= ids@.len(),
                forall|t: int|
                    0 <= t < out@.len() ==> want.contains(#[trigger] out@[t].0@) && m.contains_key(out@[t].0@)
                        && out@[t].1 == m[out@[t].0@],
                forall|j: int|
                    0 <= j < i && m.contains_key(#[trigger] want[j]) ==> exists|t: int|
                        0 <= t < out@.len() && (#[trigger] out@[t]).0@ == want[j],
                forall|a: int, b: int| 0 <= a < b < out@.len() ==> (#[trigger] out@[a]).0@ != (#[trigger] out@[b]).0@,
            decreases ids@.len() - i,
        {
            let key = OrgId::from_string(String::from_str(ids[i]));
            let seen = position_of_key(&out, ids[i]);
            if seen.is_none() {
                match self.organizations.get(&key) {
                    Some(o) => {
                        let ghost before = out@;
                        out.push((String::from_str(ids[i]), o.duplicate()));
                        proof {
                            assert(want[i as int] == ids@[i as int]@);
                            assert forall|j: int|
                                0 <= j < i + 1 && m.contains_key(#[trigger] want[j]) implies exists|t: int|
                                    0 <= t < out@.len() && (#[trigger] out@[t]).0@ == want[j] by {
                                if j < i {
                                    let t = choose|t: int| 0 <= t < before.len() && (#[trigger] before[t]).0@ == want[j];
                                    assert(out@[t] == before[t]);
                                } else {
                                    assert(out@[out@.len() - 1].0@ == want[j]);
                                }
                            }
                        }
                    },
                    None => {},
                }
            }
            i = i + 1;
        }
        Ok(out)
    }
}

impl SsoConfigRepo for InMemoryRepo {
    fn get_sso_config(&self, scope_kind: ScopeKind, scope_id: &str) -> (r: StoreResult<Option<SsoConfig>>) {
        let key = (scope_kind, String::from_str(scope_id));
        match self.sso_configs.get(&key) {
            Some(c) => Ok(Some(c.duplicate())),
            None => Ok(None),
        }
    }

    fn list_sso_configs_by_scope_ids(&self, scope_kind: ScopeKind, scope_ids: &[&str]) -> (r: StoreResult<Vec<(String, SsoConfig)>>) {
        let ghost m = configs_of_kind(self.model(), scope_kind);
        let ghost want = scope_ids@.map_values(|s: &str| s@);
        let mut out: Vec<(String, SsoConfig)> = Vec::new();
        let mut i: usize = 0;
        while i < scope_ids.len()
            invariant
                self.inv(),
                m == configs_of_kind(self.model(), scope_kind),
                want == scope_ids@.map_values(|s: &str| s@),
                i <= scope_ids@.len(),
                forall|t: int|
                    0 <= t < out@.len() ==> want.contains(#[trigger] out@[t].0@) && m.contains_key(out@[t].0@)
                        && out@[t].1 == m[out@[t].0@],
                forall|j: int|
                    0 <= j < i && m.contains_key(#[trigger] want[j]) ==> exists|t: int|
                        0 <= t < out@.len() && (#[trigger] out@[t]).0@ == want[j],
                forall|a: int, b: int| 0 <= a < b < out@.len() ==> (#[trigger] out@[a]).0@ != (#[trigger] out@[b]).0@,
            decreases scope_ids@.len() - i,
        {
            let key = (scope_kind, String::from_str(scope_ids[i]));
            let seen = position_of_key(&out, scope_ids[i]);
            if seen.is_none() {
                match self.sso_configs.get(&key) {
                    Some(c) => {
                        let ghost before = out@;
                        out.push((String::from_str(scope_ids[i]), c.duplicate()));
                        proof {
                            assert(want[i as int] == scope_ids@[i as int]@);
                            assert forall|j: int|
                                0 <= j < i + 1 && m.contains_key(#[trigger] want[j]) implies exists|t: int|
                                    0 <= t < out@.len() && (#[trigger] out@[t]).0@ == want[j] by {
                                if j < i {
                                    let t = choose|t: int| 0 <= t < before.len() && (#[trigger] before[t]).0@ == want[j];
                                    assert(out@[t] == before[t]);
                                } else {
                                    assert(out@[out@.len() - 1].0@ == want[j]);
                                }
                            }
                        }
                    },
                    None => {},
                }
            }
            i = i + 1;
        }
        Ok(out)
    }

    fn upsert_sso_config(&mut self, config: SsoConfig) -> (r: StoreResult<()>) {
        let key = (config.scope_kind, config.scope_id.duplicate());
        self.sso_configs.insert(key, config);
        Ok(())
    }

    fn delete_sso_config(&mut self, scope_kind: ScopeKind, scope_id: &str) -> (r: StoreResult<()>) {
        let key = (scope_kind, String::from_str(scope_id));
        self.sso_configs.remove(&key);
        Ok(())
    }
}

impl InvitationRepo for InMemoryRepo {
    fn create_invitation(&mut self, invitation: Invitation) -> (r: StoreResult<()>) {
        let kind = invitation.scope.scope_kind();
        let f = |k: &InvitationId, i: &Invitation| -> (b: bool)
            ensures
                b == pending_in_scope(kind, invitation.scope@.id(), invitation.email@)(k@, *i),
            {
                i.status == InvitationStatus::Pending && i.scope.scope_kind() == kind && str_eq(
                    i.scope.scope_id_str(),
                    invitation.scope.scope_id_str(),
                ) && eq_ignore_ascii_case(i.email.as_str(), invitation.email.as_str())
            };
        let clash = self.invitations.find_value(
            f,
            Ghost(pending_in_scope(kind, invitation.scope@.id(), invitation.email@)),
        ).is_some();
        if clash {
            proof {
                reveal_strlit("pending invite for ");
                reveal_strlit(" on ");
                reveal_strlit(":");
            }
            let msg = concat("pending invite for ", invitation.email.as_str());
            let msg = concat(msg.as_str(), " on ");
            let msg = concat(msg.as_str(), kind.as_str());
            let msg = concat(msg.as_str(), ":");
            let msg = concat(msg.as_str(), invitation.scope.scope_id_str());
            return Err(StoreError::already_exists(msg));
        }
        self.invitations.insert(invitation.id.duplicate(), invitation);
        Ok(())
    }

    fn get_invitation(&self, id: &InvitationId) -> (r: StoreResult<Option<Invitation>>) {
        match self.invitations.get(id) {
            Some(i) => Ok(Some(i.duplicate())),
            None => Ok(None),
        }
    }

    fn list_pending_invitations_by_email(&self, email: &str) -> (r: StoreResult<Vec<Invitation>>) {
        let f = |k: &InvitationId, i: &Invitation| -> (b: bool)
            ensures
                b == pending_of_email(email@)(k@, *i),
            { i.status == InvitationStatus::Pending && eq_ignore_ascii_case(i.email.as_str(), email) };
        Ok(self.invitations.collect_values(f, Ghost(pending_of_email(email@))))
    }

    fn list_pending_invitation_by_scope_email(&self, scope_kind: ScopeKind, scope_id: &str, email: &str) -> (r: StoreResult<Option<Invitation>>) {
        let f = |k: &InvitationId, i: &Invitation| -> (b: bool)
            ensures
                b == pending_in_scope(scope_kind, scope_id@, email@)(k@, *i),
            {
                i.status == InvitationStatus::Pending && i.scope.scope_kind() == scope_kind && str_eq(
                    i.scope.scope_id_str(),
                    scope_id,
                ) && eq_ignore_ascii_case(i.email.as_str(), email)
            };
        match self.invitations.find_value(f, Ghost(pending_in_scope(scope_kind, scope_id@, email@))) {
            Some(i) => Ok(Some(i.duplicate())),
            None => Ok(None),
        }
    }

    fn update_invitation_status(&mut self, id: &InvitationId, status: InvitationStatus) -> (r: StoreResult<()>) {
        let updated = match self.invitations.get(id) {
            Some(i) => {
                let mut i = i.duplicate();
                i.status = status;
                i
            },
            None => {
                proof {
                    reveal_strlit("invitation ");
                }
                return Err(StoreError::not_found(concat("invitation ", id.as_str())));
            },
        };
        self.invitations.insert(id.duplicate(), updated);
        Ok(())
    }

    fn refresh_invitation_token(&mut self, id: &InvitationId, new_nonce: String, new_expiry_ms: i64) -> (r: StoreResult<()>) {
        let updated = match self.invitations.get(id) {
            Some(i) => {
                let mut i = i.duplicate();
                i.nonce = new_nonce;
                i.expires_at_ms = new_expiry_ms;
                i.status = InvitationStatus::Pending;
                i
            },
            None => {
                proof {
                    reveal_strlit("invitation ");
                }
                return Err(StoreError::not_found(concat("invitation ", id.as_str())));
            },
        };
        self.invitations.insert(id.duplicate(), updated);
        Ok(())
    }

    fn accept_invitation_existing_user(&mut self, user_id: &UserId, acceptance: InvitationAcceptance, nonce: &str, now_ms: i64) -> (r: StoreResult<()>) {
        let key = String::from_str(nonce);
        if self.consumed_nonces.contains_key(&key) {
            proof {
                reveal_strlit("nonce ");
            }
            return Err(StoreError::already_exists(concat("nonce ", nonce)));
        }
        if !self.scope_present(&acceptance.target) {
            return Err(Self::scope_missing(&acceptance.target));
        }
        self.consumed_nonces.insert(key, (String::from_str("invitation"), now_ms));
        proof {
            reveal_strlit("invitation");
        }
        let ghost mid = self.model();
        let ghost av = acceptance@;
        assert(scope_exists(mid, av.target));
        let r = self.apply_invitation(user_id, acceptance, now_ms);
        proof {
            assert(invitation_applied(mid, self.model(), user_id@, av, now_ms, store_result(r)));
        }
        r
    }
}

impl AuthFlowRepo for InMemoryRepo {
    fn consume_nonce(&mut self, nonce: &str, purpose: &str, now_ms: i64) -> (r: StoreResult<()>) {
        let key = String::from_str(nonce);
        if self.consumed_nonces.contains_key(&key) {
            proof {
                reveal_strlit("nonce ");
            }
            return Err(StoreError::already_exists(concat("nonce ", nonce)));
        }
        self.consumed_nonces.insert(key, (String::from_str(purpose), now_ms));
        Ok(())
    }

    fn store_sso_state(&mut self, state: SsoState) -> (r: StoreResult<()>) {
        let key = state.state.duplicate();
        self.sso_states.insert(key, state);
        Ok(())
    }

    fn consume_sso_state(&mut self, state: &str, now_ms: i64) -> (r: StoreResult<Option<SsoState>>) {
        let key = String::from_str(state);
        match self.sso_states.remove(&key) {
            Some(s) => {
                if s.expires_at_ms < now_ms {
                    Ok(None)
                } else {
                    Ok(Some(s))
                }
            },
            None => Ok(None),
        }
    }
}

} // verus!
