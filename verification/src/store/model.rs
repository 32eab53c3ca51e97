//! The abstract state of a repository and the spec functions that the
//! repository contracts are written in: one finite map per entity kind,
//! keyed as the storage keys its rows.

use vstd::prelude::*;

use crate::domain::enums::{ScopeTargetView, sso_provider_tag};
use crate::domain::{
    BillingAccount, BillingMembership, Identity, Invitation, InvitationStatus, OrgMembership,
    Organization, Role, ScopeKind, SsoConfig, SsoState, User, UserId,
};
use crate::domain::entities::personal_display_name_spec;
use crate::store::error::StoreErrorView;
use crate::store::table::{count_where, map_filter};
pub use crate::store::table::{found, listed, listed_rows};
use crate::text::eq_ignore_ascii_case_spec;

verus! {

/// Everything a repository stores.
pub struct RepoState {
    pub users: Map<Seq<char>, User>,
    pub identities: Map<Seq<char>, Identity>,
    pub billing_accounts: Map<Seq<char>, BillingAccount>,
    pub organizations: Map<Seq<char>, Organization>,
    /// Keyed by (user, billing account).
    pub billing_memberships: Map<(Seq<char>, Seq<char>), BillingMembership>,
    /// Keyed by (user, organization).
    pub org_memberships: Map<(Seq<char>, Seq<char>), OrgMembership>,
    /// Keyed by (scope kind, scope id).
    pub sso_configs: Map<(ScopeKind, Seq<char>), SsoConfig>,
    pub invitations: Map<Seq<char>, Invitation>,
    /// Consumed nonces with the purpose and time they were consumed for.
    pub consumed_nonces: Map<Seq<char>, (String, i64)>,
    /// Pending SSO states by their state token.
    pub sso_states: Map<Seq<char>, SsoState>,
}

pub open spec fn users_keyed(m: Map<Seq<char>, User>) -> bool {
    forall|k: Seq<char>| #[trigger] m.contains_key(k) ==> m[k].id@ == k
}

pub open spec fn identities_keyed(m: Map<Seq<char>, Identity>) -> bool {
    forall|k: Seq<char>| #[trigger] m.contains_key(k) ==> m[k].id@ == k
}

/// At most one identity per provider and provider user id.
pub open spec fn identities_unique(m: Map<Seq<char>, Identity>) -> bool {
    forall|k1: Seq<char>, k2: Seq<char>|
        #![trigger m[k1], m[k2]]
        m.contains_key(k1) && m.contains_key(k2) && m[k1].provider@ == m[k2].provider@
            && m[k1].provider_user_id@ == m[k2].provider_user_id@ ==> k1 == k2
}

pub open spec fn billing_accounts_keyed(m: Map<Seq<char>, BillingAccount>) -> bool {
    forall|k: Seq<char>| #[trigger] m.contains_key(k) ==> m[k].id@ == k
}

pub open spec fn organizations_keyed(m: Map<Seq<char>, Organization>) -> bool {
    forall|k: Seq<char>| #[trigger] m.contains_key(k) ==> m[k].id@ == k
}

pub open spec fn billing_memberships_keyed(m: Map<(Seq<char>, Seq<char>), BillingMembership>) -> bool {
    forall|k: (Seq<char>, Seq<char>)|
        #[trigger] m.contains_key(k) ==> k == (m[k].user_id@, m[k].billing_account_id@)
}

pub open spec fn org_memberships_keyed(m: Map<(Seq<char>, Seq<char>), OrgMembership>) -> bool {
    forall|k: (Seq<char>, Seq<char>)| #[trigger] m.contains_key(k) ==> k == (m[k].user_id@, m[k].org_id@)
}

pub open spec fn sso_configs_keyed(m: Map<(ScopeKind, Seq<char>), SsoConfig>) -> bool {
    forall|k: (ScopeKind, Seq<char>)| #[trigger] m.contains_key(k) ==> k == (m[k].scope_kind, m[k].scope_id@)
}

pub open spec fn invitations_keyed(m: Map<Seq<char>, Invitation>) -> bool {
    forall|k: Seq<char>| #[trigger] m.contains_key(k) ==> m[k].id@ == k
}

pub open spec fn sso_states_keyed(m: Map<Seq<char>, SsoState>) -> bool {
    forall|k: Seq<char>| #[trigger] m.contains_key(k) ==> m[k].state@ == k
}

/// Each row is stored under the key its own fields name, and no two
/// identities share a provider and provider user id.
pub open spec fn keys_consistent(s: RepoState) -> bool {
    &&& users_keyed(s.users)
    &&& identities_keyed(s.identities)
    &&& identities_unique(s.identities)
    &&& billing_accounts_keyed(s.billing_accounts)
    &&& organizations_keyed(s.organizations)
    &&& billing_memberships_keyed(s.billing_memberships)
    &&& org_memberships_keyed(s.org_memberships)
    &&& sso_configs_keyed(s.sso_configs)
    &&& invitations_keyed(s.invitations)
    &&& sso_states_keyed(s.sso_states)
}

/// A store result with the error by its view.
pub open spec fn store_result<T>(r: Result<T, crate::store::error::StoreError>) -> Result<T, StoreErrorView> {
    match r {
        Ok(x) => Ok(x),
        Err(e) => Err(e@),
    }
}

// ----- lookups -----

pub open spec fn email_matches(u: User, email: Seq<char>) -> bool {
    eq_ignore_ascii_case_spec(u.email@, email)
}

/// Users whose email is `email`, ignoring ASCII case.
pub open spec fn user_with_email(email: Seq<char>) -> spec_fn(Seq<char>, User) -> bool {
    |k: Seq<char>, u: User| email_matches(u, email)
}

/// Identities of `user`.
pub open spec fn identity_of_user(user: Seq<char>) -> spec_fn(Seq<char>, Identity) -> bool {
    |k: Seq<char>, i: Identity| i.user_id@ == user
}

/// Identities at `provider` with this provider user id.
pub open spec fn identity_with(provider: Seq<char>, provider_user_id: Seq<char>) -> spec_fn(Seq<char>, Identity) -> bool {
    |k: Seq<char>, i: Identity| identity_matches(i, provider, provider_user_id)
}

/// Some user has this email, compared ignoring ASCII case.
pub open spec fn email_in_use(s: RepoState, email: Seq<char>) -> bool {
    exists|k: Seq<char>| #[trigger] s.users.contains_key(k) && email_matches(s.users[k], email)
}

pub open spec fn identity_matches(i: Identity, provider: Seq<char>, provider_user_id: Seq<char>) -> bool {
    i.provider@ == provider && i.provider_user_id@ == provider_user_id
}

pub open spec fn identity_in_use(s: RepoState, provider: Seq<char>, provider_user_id: Seq<char>) -> bool {
    exists|k: Seq<char>|
        #[trigger] s.identities.contains_key(k) && identity_matches(
            s.identities[k],
            provider,
            provider_user_id,
        )
}

pub open spec fn names_user(o: Option<UserId>, user: Seq<char>) -> bool {
    o matches Some(x) && x@ == user
}

// ----- new rows -----

pub open spec fn identity_fields(
    i: Identity,
    user: Seq<char>,
    provider: Seq<char>,
    provider_user_id: Seq<char>,
    secret: Option<Seq<char>>,
    now: i64,
) -> bool {
    &&& i.user_id@ == user
    &&& i.provider@ == provider
    &&& i.provider_user_id@ == provider_user_id
    &&& match i.secret {
        Some(x) => secret == Some(x@),
        None => secret is None,
    }
    &&& i.created_at_ms == now
}

pub open spec fn billing_membership_fields(
    m: BillingMembership,
    user: Seq<char>,
    billing: Seq<char>,
    role: Role,
    now: i64,
) -> bool {
    m.user_id@ == user && m.billing_account_id@ == billing && m.role == role && m.created_at_ms == now
}

pub open spec fn org_membership_fields(m: OrgMembership, user: Seq<char>, org: Seq<char>, role: Role, now: i64) -> bool {
    m.user_id@ == user && m.org_id@ == org && m.role == role && m.created_at_ms == now
}

/// A user's personal billing account.
pub open spec fn personal_billing_fields(b: BillingAccount, id: Seq<char>, user: Seq<char>, email: Seq<char>, now: i64) -> bool {
    &&& b.id@ == id
    &&& b.display_name@ == personal_display_name_spec(email)
    &&& b.personal
    &&& names_user(b.owner_user_id, user)
    &&& b.auto_join_domain is None
    &&& b.created_at_ms == now
}

/// A user's personal organization, under their personal billing account.
pub open spec fn personal_org_fields(
    o: Organization,
    id: Seq<char>,
    billing: Seq<char>,
    user: Seq<char>,
    email: Seq<char>,
    now: i64,
) -> bool {
    &&& o.id@ == id
    &&& o.display_name@ == personal_display_name_spec(email)
    &&& o.billing_account_id@ == billing
    &&& o.personal
    &&& names_user(o.owner_user_id, user)
    &&& o.created_at_ms == now
}

/// `new` is `old` with a value inserted under `k`.
pub open spec fn inserted<K, V>(old: Map<K, V>, new: Map<K, V>, k: K) -> bool {
    new == old.insert(k, new[k])
}

/// The personal billing account and organization of a new user, each with
/// the user as owner.
pub open spec fn personal_space_created(
    old: RepoState,
    new: RepoState,
    user: Seq<char>,
    email: Seq<char>,
    now: i64,
    billing: Seq<char>,
    org: Seq<char>,
) -> bool {
    &&& inserted(old.billing_accounts, new.billing_accounts, billing)
    &&& personal_billing_fields(new.billing_accounts[billing], billing, user, email, now)
    &&& inserted(old.billing_memberships, new.billing_memberships, (user, billing))
    &&& billing_membership_fields(new.billing_memberships[(user, billing)], user, billing, Role::Owner, now)
    &&& inserted(old.organizations, new.organizations, org)
    &&& personal_org_fields(new.organizations[org], org, billing, user, email, now)
    &&& inserted(old.org_memberships, new.org_memberships, (user, org))
    &&& org_membership_fields(new.org_memberships[(user, org)], user, org, Role::Owner, now)
}

/// A new user with one identity and a personal billing account and
/// organization, each under a key not in use before; nothing else changes.
pub open spec fn user_created(
    old: RepoState,
    new: RepoState,
    u: User,
    email: Seq<char>,
    verified: bool,
    identity: Seq<char>,
    provider: Seq<char>,
    provider_user_id: Seq<char>,
    secret: Option<Seq<char>>,
    now: i64,
    billing: Seq<char>,
    org: Seq<char>,
) -> bool {
    &&& !old.users.contains_key(u.id@)
    &&& !old.identities.contains_key(identity)
    &&& !old.billing_accounts.contains_key(billing)
    &&& !old.organizations.contains_key(org)
    &&& new.users == old.users.insert(u.id@, u)
    &&& u.email@ == email
    &&& u.email_verified == verified
    &&& u.created_at_ms == now
    &&& inserted(old.identities, new.identities, identity)
    &&& new.identities[identity].id@ == identity
    &&& identity_fields(new.identities[identity], u.id@, provider, provider_user_id, secret, now)
    &&& personal_space_created(old, new, u.id@, email, now, billing, org)
    &&& new.sso_configs == old.sso_configs
    &&& new.invitations == old.invitations
    &&& new.consumed_nonces == old.consumed_nonces
    &&& new.sso_states == old.sso_states
}

// ----- invitations -----

/// What accepting an invitation needs: which invitation, into which scope,
/// with what role.
pub struct AcceptanceView {
    pub invitation_id: Seq<char>,
    pub target: ScopeTargetView,
    pub role: Role,
}

/// The invitation under `id`, if any, marked accepted.
pub open spec fn mark_accepted(invs: Map<Seq<char>, Invitation>, id: Seq<char>) -> Map<Seq<char>, Invitation> {
    if invs.contains_key(id) {
        invs.insert(id, Invitation { status: InvitationStatus::Accepted, ..invs[id] })
    } else {
        invs
    }
}

pub open spec fn scope_missing_message(target: ScopeTargetView) -> Seq<char> {
    match target {
        ScopeTargetView::Billing(id) => "billing account "@ + id,
        ScopeTargetView::Org(id) => "organization "@ + id,
    }
}

pub open spec fn scope_exists(s: RepoState, target: ScopeTargetView) -> bool {
    match target {
        ScopeTargetView::Billing(id) => s.billing_accounts.contains_key(id),
        ScopeTargetView::Org(id) => s.organizations.contains_key(id),
    }
}

/// Applying an accepted invitation for `user`: a membership in the target
/// scope with the invited role (replacing any existing one), and the
/// invitation marked accepted. A missing scope fails and changes nothing.
pub open spec fn invitation_applied(
    old: RepoState,
    new: RepoState,
    user: Seq<char>,
    acc: AcceptanceView,
    now: i64,
    res: Result<(), StoreErrorView>,
) -> bool {
    if !scope_exists(old, acc.target) {
        &&& res == Err::<(), StoreErrorView>(StoreErrorView::NotFound(scope_missing_message(acc.target)))
        &&& new == old
    } else {
        &&& res is Ok
        &&& new.invitations == mark_accepted(old.invitations, acc.invitation_id)
        &&& match acc.target {
            ScopeTargetView::Billing(id) => {
                &&& inserted(old.billing_memberships, new.billing_memberships, (user, id))
                &&& billing_membership_fields(new.billing_memberships[(user, id)], user, id, acc.role, now)
                &&& new == RepoState {
                    billing_memberships: new.billing_memberships,
                    invitations: new.invitations,
                    ..old
                }
            },
            ScopeTargetView::Org(id) => {
                &&& inserted(old.org_memberships, new.org_memberships, (user, id))
                &&& org_membership_fields(new.org_memberships[(user, id)], user, id, acc.role, now)
                &&& new == RepoState {
                    org_memberships: new.org_memberships,
                    invitations: new.invitations,
                    ..old
                }
            },
        }
    }
}

/// One of the keys `(user, identity, billing, org)` drawn for a new user
/// is already in use. Signup refuses such keys as already existing, as the
/// database's unique keys refuse them, rather than overwriting the row
/// that holds them; the keys are random, so this is a collision of draws.
pub open spec fn keys_taken(s: RepoState, keys: (Seq<char>, Seq<char>, Seq<char>, Seq<char>)) -> bool {
    ||| s.users.contains_key(keys.0)
    ||| s.identities.contains_key(keys.1)
    ||| s.billing_accounts.contains_key(keys.2)
    ||| s.organizations.contains_key(keys.3)
}

/// The scope an invitation to be accepted at signup names is missing.
pub open spec fn invite_scope_missing(s: RepoState, invite: Option<AcceptanceView>) -> bool {
    invite matches Some(acc) && !scope_exists(s, acc.target)
}

/// Signing up with an email and a password hash, under the new keys
/// `(user, identity, billing, org)`, and then accepting `invite` if given,
/// as one unit. An email in use (ignoring ASCII case) is refused, and so
/// is an invitation whose scope is missing, and so are drawn keys already
/// in use (`AlreadyExists("generated key")`, where a plain map would
/// overwrite); a refused signup changes nothing.
pub open spec fn password_signup(
    old: RepoState,
    new: RepoState,
    email: Seq<char>,
    hash: Seq<char>,
    invite: Option<AcceptanceView>,
    now: i64,
    keys: (Seq<char>, Seq<char>, Seq<char>, Seq<char>),
    r: Result<User, StoreErrorView>,
) -> bool {
    if email_in_use(old, email) {
        &&& r == Err::<User, StoreErrorView>(StoreErrorView::AlreadyExists("user with email "@ + email))
        &&& new == old
    } else if invite_scope_missing(old, invite) {
        &&& r == Err::<User, StoreErrorView>(StoreErrorView::NotFound(scope_missing_message(invite->0.target)))
        &&& new == old
    } else if keys_taken(old, keys) || identity_in_use(old, "password"@, keys.0) {
        &&& r == Err::<User, StoreErrorView>(StoreErrorView::AlreadyExists("generated key"@))
        &&& new == old
    } else {
        exists|mid: RepoState, u: User|
            #![trigger user_created(old, mid, u, email, false, keys.1, "password"@, u.id@, Some(hash), now, keys.2, keys.3)]
            {
                &&& user_created(old, mid, u, email, false, keys.1, "password"@, u.id@, Some(hash), now, keys.2, keys.3)
                &&& u.id@ == keys.0
                &&& r == Ok::<User, StoreErrorView>(u)
                &&& match invite {
                    None => new == mid,
                    Some(acc) => invitation_applied(mid, new, u.id@, acc, now, Ok(())),
                }
            }
    }
}

/// Joining a billing account automatically as a member, when it exists.
pub open spec fn auto_joined(old: RepoState, new: RepoState, user: Seq<char>, target: Option<Seq<char>>, now: i64) -> bool {
    match target {
        Some(b) => if old.billing_accounts.contains_key(b) {
            &&& inserted(old.billing_memberships, new.billing_memberships, (user, b))
            &&& billing_membership_fields(new.billing_memberships[(user, b)], user, b, Role::Member, now)
            &&& new == RepoState { billing_memberships: new.billing_memberships, ..old }
        } else {
            new == old
        },
        None => new == old,
    }
}

/// Signing up through an identity provider: as `password_signup`, with a
/// verified email and an `sso:<idp>` identity, and then joining
/// `auto_join` as a member when it exists. A refused signup changes
/// nothing.
pub open spec fn sso_signup(
    old: RepoState,
    new: RepoState,
    email: Seq<char>,
    idp: Seq<char>,
    idp_user_id: Seq<char>,
    invite: Option<AcceptanceView>,
    auto_join: Option<Seq<char>>,
    now: i64,
    keys: (Seq<char>, Seq<char>, Seq<char>, Seq<char>),
    r: Result<User, StoreErrorView>,
) -> bool {
    if email_in_use(old, email) {
        &&& r == Err::<User, StoreErrorView>(StoreErrorView::AlreadyExists("user with email "@ + email))
        &&& new == old
    } else if invite_scope_missing(old, invite) {
        &&& r == Err::<User, StoreErrorView>(StoreErrorView::NotFound(scope_missing_message(invite->0.target)))
        &&& new == old
    } else if keys_taken(old, keys) {
        &&& r == Err::<User, StoreErrorView>(StoreErrorView::AlreadyExists("generated key"@))
        &&& new == old
    } else if identity_in_use(old, sso_provider_tag(idp), idp_user_id) {
        &&& r == Err::<User, StoreErrorView>(
            StoreErrorView::AlreadyExists("identity "@ + sso_provider_tag(idp) + ":"@ + idp_user_id),
        )
        &&& new == old
    } else {
        exists|mid: RepoState, u: User|
            #![trigger user_created(old, mid, u, email, true, keys.1, sso_provider_tag(idp), idp_user_id, None, now, keys.2, keys.3)]
            {
                &&& user_created(old, mid, u, email, true, keys.1, sso_provider_tag(idp), idp_user_id, None, now, keys.2, keys.3)
                &&& u.id@ == keys.0
                &&& r == Ok::<User, StoreErrorView>(u)
                &&& match invite {
                    None => auto_joined(mid, new, u.id@, auto_join, now),
                    Some(acc) => exists|mid2: RepoState|
                        #[trigger] invitation_applied(mid, mid2, u.id@, acc, now, Ok(()))
                            && auto_joined(mid2, new, u.id@, auto_join, now),
                }
            }
    }
}

// ----- deleting a user -----

pub open spec fn drop_identities_of(user: Seq<char>) -> spec_fn(Seq<char>, Identity) -> Option<Identity> {
    |k: Seq<char>, i: Identity| if i.user_id@ == user { None } else { Some(i) }
}

pub open spec fn drop_billing_memberships_of(user: Seq<char>) -> spec_fn((Seq<char>, Seq<char>), BillingMembership) -> Option<BillingMembership> {
    |k: (Seq<char>, Seq<char>), m: BillingMembership| if k.0 == user { None } else { Some(m) }
}

pub open spec fn drop_org_memberships_of(user: Seq<char>) -> spec_fn((Seq<char>, Seq<char>), OrgMembership) -> Option<OrgMembership> {
    |k: (Seq<char>, Seq<char>), m: OrgMembership| if k.0 == user { None } else { Some(m) }
}

pub open spec fn drop_personal_orgs_of(user: Seq<char>) -> spec_fn(Seq<char>, Organization) -> Option<Organization> {
    |k: Seq<char>, o: Organization| if o.personal && names_user(o.owner_user_id, user) { None } else { Some(o) }
}

pub open spec fn drop_personal_billing_of(user: Seq<char>) -> spec_fn(Seq<char>, BillingAccount) -> Option<BillingAccount> {
    |k: Seq<char>, b: BillingAccount| if b.personal && names_user(b.owner_user_id, user) { None } else { Some(b) }
}

pub open spec fn forget_inviter(user: Seq<char>) -> spec_fn(Seq<char>, Invitation) -> Option<Invitation> {
    |k: Seq<char>, inv: Invitation|
        if names_user(inv.inviter_user_id, user) {
            Some(Invitation { inviter_user_id: None, ..inv })
        } else {
            Some(inv)
        }
}

/// The state after deleting a user: their identities and memberships go,
/// and so do their personal billing account and organization; invitations
/// they sent lose their inviter.
pub open spec fn user_deleted(s: RepoState, user: Seq<char>) -> RepoState {
    RepoState {
        users: s.users.remove(user),
        identities: map_filter(s.identities, drop_identities_of(user)),
        billing_memberships: map_filter(s.billing_memberships, drop_billing_memberships_of(user)),
        org_memberships: map_filter(s.org_memberships, drop_org_memberships_of(user)),
        organizations: map_filter(s.organizations, drop_personal_orgs_of(user)),
        billing_accounts: map_filter(s.billing_accounts, drop_personal_billing_of(user)),
        invitations: map_filter(s.invitations, forget_inviter(user)),
        ..s
    }
}

/// A repository holding nothing.
pub open spec fn empty_state() -> RepoState {
    RepoState {
        users: Map::empty(),
        identities: Map::empty(),
        billing_accounts: Map::empty(),
        organizations: Map::empty(),
        billing_memberships: Map::empty(),
        org_memberships: Map::empty(),
        sso_configs: Map::empty(),
        invitations: Map::empty(),
        consumed_nonces: Map::empty(),
        sso_states: Map::empty(),
    }
}

// ----- counts -----

pub open spec fn is_billing_owner(b: Seq<char>) -> spec_fn((Seq<char>, Seq<char>), BillingMembership) -> bool {
    |k: (Seq<char>, Seq<char>), m: BillingMembership| m.billing_account_id@ == b && m.role == Role::Owner
}

pub open spec fn is_org_owner(o: Seq<char>) -> spec_fn((Seq<char>, Seq<char>), OrgMembership) -> bool {
    |k: (Seq<char>, Seq<char>), m: OrgMembership| m.org_id@ == o && m.role == Role::Owner
}

/// How many owners a billing account has.
pub open spec fn billing_owner_count(s: RepoState, b: Seq<char>) -> nat {
    count_where(s.billing_memberships, is_billing_owner(b))
}

/// How many owners an organization has.
pub open spec fn org_owner_count(s: RepoState, o: Seq<char>) -> nat {
    count_where(s.org_memberships, is_org_owner(o))
}


// ----- joined and keyed listings -----

/// `v` pairs each requested id that `m` holds with its value, each id once.
pub open spec fn looked_up<V>(m: Map<Seq<char>, V>, ids: Seq<Seq<char>>, v: Seq<(String, V)>) -> bool {
    &&& forall|t: int|
        #![trigger v[t]]
        0 <= t < v.len() ==> ids.contains(v[t].0@) && m.contains_key(v[t].0@) && v[t].1 == m[v[t].0@]
    &&& forall|i: int|
        0 <= i < ids.len() && m.contains_key(#[trigger] ids[i]) ==> exists|t: int|
            0 <= t < v.len() && (#[trigger] v[t]).0@ == ids[i]
    &&& forall|a: int, b: int| 0 <= a < b < v.len() ==> (#[trigger] v[a]).0@ != (#[trigger] v[b]).0@
}


// ----- one-shot nonces and SSO states -----

/// Consuming a nonce: the first use records the purpose and time; a replay
/// is refused and changes nothing.
pub open spec fn nonce_consumed(
    old: RepoState,
    new: RepoState,
    nonce: Seq<char>,
    purpose: Seq<char>,
    now: i64,
    r: Result<(), StoreErrorView>,
) -> bool {
    if old.consumed_nonces.contains_key(nonce) {
        &&& r == Err::<(), StoreErrorView>(StoreErrorView::AlreadyExists("nonce "@ + nonce))
        &&& new == old
    } else {
        &&& r is Ok
        &&& new.consumed_nonces[nonce].0@ == purpose
        &&& new.consumed_nonces[nonce].1 == now
        &&& new == (RepoState {
            consumed_nonces: old.consumed_nonces.insert(nonce, new.consumed_nonces[nonce]),
            ..old
        })
    }
}

/// Taking a pending SSO state: it is removed either way, and given back
/// only when it has not expired.
pub open spec fn sso_state_taken(old: RepoState, new: RepoState, state: Seq<char>, now: i64, r: Option<SsoState>) -> bool {
    &&& new == (RepoState { sso_states: old.sso_states.remove(state), ..old })
    &&& r == (if old.sso_states.contains_key(state) && old.sso_states[state].expires_at_ms >= now {
        Some(old.sso_states[state])
    } else {
        None
    })
}

/// Every map is finite and each row is stored under its own key.
pub open spec fn state_wf(s: RepoState) -> bool {
    &&& keys_consistent(s)
    &&& s.users.dom().finite()
    &&& s.identities.dom().finite()
    &&& s.billing_accounts.dom().finite()
    &&& s.organizations.dom().finite()
    &&& s.billing_memberships.dom().finite()
    &&& s.org_memberships.dom().finite()
    &&& s.sso_configs.dom().finite()
    &&& s.invitations.dom().finite()
    &&& s.consumed_nonces.dom().finite()
    &&& s.sso_states.dom().finite()
}

} // verus!
