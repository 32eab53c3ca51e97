//! What holds of repository operations across calls: accounts and
//! organizations keep an owner, nonces and SSO states work once, an email
//! signs up once, and a signup sets up the user's personal space.

use vstd::prelude::*;

use crate::domain::{BillingMembership, Identity, OrgMembership, Role, User};
use crate::store::model::{
    billing_owner_count, email_in_use, email_matches, is_billing_owner, is_org_owner,
    identities_unique, identity_in_use, identity_matches, nonce_consumed, org_owner_count, password_signup, sso_state_taken, user_created, RepoState,
    billing_membership_fields, identity_fields, org_membership_fields, personal_billing_fields,
    personal_org_fields,
};
use crate::store::repo::billing::{billing_deleted, has_orgs};
use crate::store::repo::user::identity_link;
use crate::store::error::{StoreError, StoreErrorView, StoreResult};
use crate::store::repo::membership::loses_last_owner;
use crate::store::table::count_where;
use crate::text::eq_ignore_ascii_case_spec;

verus! {

/// Removing an entry counts it out, if it was counted.
pub proof fn lemma_count_remove<K, V>(m: Map<K, V>, p: spec_fn(K, V) -> bool, k: K)
    requires
        m.dom().finite(),
        m.contains_key(k),
    ensures
        count_where(m.remove(k), p) + (if p(k, m[k]) { 1int } else { 0int }) == count_where(m, p),
{
    let r = m.remove(k);
    let a = m.dom().filter(|x: K| p(x, m[x]));
    let b = r.dom().filter(|x: K| p(x, r[x]));
    assert(b =~= a.remove(k));
    if p(k, m[k]) {
        assert(a.contains(k));
    } else {
        assert(!a.contains(k));
        assert(a.remove(k) =~= a);
    }
}

/// Replacing the value under a key counts the new value instead of the old.
pub proof fn lemma_count_replace<K, V>(m: Map<K, V>, p: spec_fn(K, V) -> bool, k: K, v: V)
    requires
        m.dom().finite(),
        m.contains_key(k),
    ensures
        count_where(m.insert(k, v), p) + (if p(k, m[k]) { 1int } else { 0int }) == count_where(m, p) + (
        if p(k, v) {
            1int
        } else {
            0int
        }),
{
    let r = m.insert(k, v);
    lemma_count_remove(m, p, k);
    lemma_count_remove(r, p, k);
    assert(r.remove(k) =~= m.remove(k));
}

/// A billing account that has an owner keeps one when a member is removed
/// without the last-owner refusal.
pub proof fn law_billing_removal_keeps_an_owner(s: RepoState, user: Seq<char>, billing: Seq<char>)
    requires
        s.billing_memberships.dom().finite(),
        s.billing_memberships.contains_key((user, billing)),
        billing_owner_count(s, billing) >= 1,
        !loses_last_owner(s.billing_memberships[(user, billing)].role, None, billing_owner_count(s, billing)),
    ensures
        billing_owner_count(
            RepoState { billing_memberships: s.billing_memberships.remove((user, billing)), ..s },
            billing,
        ) >= 1,
{
    lemma_count_remove(s.billing_memberships, is_billing_owner(billing), (user, billing));
}

/// A billing account that has an owner keeps one when a member's role
/// changes without the last-owner refusal.
pub proof fn law_billing_role_change_keeps_an_owner(s: RepoState, user: Seq<char>, billing: Seq<char>, role: Role)
    requires
        s.billing_memberships.dom().finite(),
        s.billing_memberships.contains_key((user, billing)),
        billing_owner_count(s, billing) >= 1,
        !loses_last_owner(s.billing_memberships[(user, billing)].role, Some(role), billing_owner_count(s, billing)),
    ensures
        billing_owner_count(
            RepoState {
                billing_memberships: s.billing_memberships.insert(
                    (user, billing),
                    BillingMembership { role, ..s.billing_memberships[(user, billing)] },
                ),
                ..s
            },
            billing,
        ) >= 1,
{
    let k = (user, billing);
    lemma_count_replace(
        s.billing_memberships,
        is_billing_owner(billing),
        k,
        BillingMembership { role, ..s.billing_memberships[k] },
    );
}

/// An organization that has an owner keeps one when a member is removed
/// without the last-owner refusal.
pub proof fn law_org_removal_keeps_an_owner(s: RepoState, user: Seq<char>, org: Seq<char>)
    requires
        s.org_memberships.dom().finite(),
        s.org_memberships.contains_key((user, org)),
        org_owner_count(s, org) >= 1,
        !loses_last_owner(s.org_memberships[(user, org)].role, None, org_owner_count(s, org)),
    ensures
        org_owner_count(RepoState { org_memberships: s.org_memberships.remove((user, org)), ..s }, org)
            >= 1,
{
    lemma_count_remove(s.org_memberships, is_org_owner(org), (user, org));
}

/// An organization that has an owner keeps one when a member's role
/// changes without the last-owner refusal.
pub proof fn law_org_role_change_keeps_an_owner(s: RepoState, user: Seq<char>, org: Seq<char>, role: Role)
    requires
        s.org_memberships.dom().finite(),
        s.org_memberships.contains_key((user, org)),
        org_owner_count(s, org) >= 1,
        !loses_last_owner(s.org_memberships[(user, org)].role, Some(role), org_owner_count(s, org)),
    ensures
        org_owner_count(
            RepoState {
                org_memberships: s.org_memberships.insert(
                    (user, org),
                    OrgMembership { role, ..s.org_memberships[(user, org)] },
                ),
                ..s
            },
            org,
        ) >= 1,
{
    let k = (user, org);
    lemma_count_replace(s.org_memberships, is_org_owner(org), k, OrgMembership { role, ..s.org_memberships[k] });
}

/// A nonce works once: after it was consumed, consuming it again is
/// refused as already existing and changes nothing.
pub proof fn law_nonce_replay_rejected(
    s0: RepoState,
    s1: RepoState,
    s2: RepoState,
    nonce: Seq<char>,
    purpose1: Seq<char>,
    now1: i64,
    purpose2: Seq<char>,
    now2: i64,
    r2: Result<(), StoreErrorView>,
)
    requires
        nonce_consumed(s0, s1, nonce, purpose1, now1, Ok(())),
        nonce_consumed(s1, s2, nonce, purpose2, now2, r2),
    ensures
        r2 == Err::<(), StoreErrorView>(StoreErrorView::AlreadyExists("nonce "@ + nonce)),
        s2 == s1,
{
}

/// A pending SSO state works once: after it was taken, taking it again
/// gives nothing.
pub proof fn law_sso_state_single_use(
    s0: RepoState,
    s1: RepoState,
    s2: RepoState,
    state: Seq<char>,
    now1: i64,
    now2: i64,
    r1: Option<crate::domain::SsoState>,
    r2: Option<crate::domain::SsoState>,
)
    requires
        sso_state_taken(s0, s1, state, now1, r1),
        sso_state_taken(s1, s2, state, now2, r2),
    ensures
        r2 is None,
{
}

/// Emails equal ignoring ASCII case match the same users.
proof fn lemma_same_email(u: User, a: Seq<char>, b: Seq<char>)
    requires
        eq_ignore_ascii_case_spec(a, b),
        u.email@ == a,
    ensures
        email_matches(u, b),
{
}

/// An email signs up once: after a signup with an email succeeded, a
/// second password signup with the same email, ignoring ASCII case, is
/// refused as already existing and changes nothing.
pub proof fn law_duplicate_signup_rejected(
    s0: RepoState,
    s1: RepoState,
    s2: RepoState,
    email1: Seq<char>,
    hash1: Seq<char>,
    keys1: (Seq<char>, Seq<char>, Seq<char>, Seq<char>),
    u: User,
    email2: Seq<char>,
    hash2: Seq<char>,
    keys2: (Seq<char>, Seq<char>, Seq<char>, Seq<char>),
    now1: i64,
    now2: i64,
    r2: Result<User, StoreErrorView>,
)
    requires
        password_signup(s0, s1, email1, hash1, None, now1, keys1, Ok(u)),
        password_signup(s1, s2, email2, hash2, None, now2, keys2, r2),
        eq_ignore_ascii_case_spec(email1, email2),
    ensures
        r2 == Err::<User, StoreErrorView>(StoreErrorView::AlreadyExists("user with email "@ + email2)),
        s2 == s1,
{
    if !email_in_use(s0, email1) {
        let (mid, w) = choose|mid: RepoState, w: User|
            #![trigger user_created(s0, mid, w, email1, false, keys1.1, "password"@, w.id@, Some(hash1), now1, keys1.2, keys1.3)]
            {
                &&& user_created(s0, mid, w, email1, false, keys1.1, "password"@, w.id@, Some(hash1), now1, keys1.2, keys1.3)
                &&& s1 == mid && Ok::<User, StoreErrorView>(u) == Ok::<User, StoreErrorView>(w)
            };
        assert(s1.users.contains_key(u.id@) && s1.users[u.id@] == u);
        lemma_same_email(u, email1, email2);
        assert(email_in_use(s1, email2));
    }
}

/// A password signup without an invitation sets up the user's personal
/// space: the user, with an unverified email, a password identity holding
/// the hash, and a personal billing account and organization (the
/// organization under the account), each with the user as owner, all
/// under keys that were not in use before.
pub proof fn law_signup_creates_personal_space(
    s0: RepoState,
    s1: RepoState,
    email: Seq<char>,
    hash: Seq<char>,
    now: i64,
    keys: (Seq<char>, Seq<char>, Seq<char>, Seq<char>),
    u: User,
)
    requires
        password_signup(s0, s1, email, hash, None, now, keys, Ok(u)),
    ensures
        s1.users.contains_key(u.id@) && s1.users[u.id@] == u,
        u.id@ == keys.0,
        !s0.users.contains_key(keys.0) && !s0.identities.contains_key(keys.1),
        !s0.billing_accounts.contains_key(keys.2) && !s0.organizations.contains_key(keys.3),
        u.email@ == email && !u.email_verified,
        s1.identities.contains_key(keys.1),
        identity_fields(s1.identities[keys.1], u.id@, "password"@, u.id@, Some(hash), now),
        s1.billing_accounts.contains_key(keys.2),
        personal_billing_fields(s1.billing_accounts[keys.2], keys.2, u.id@, email, now),
        s1.billing_memberships.contains_key((u.id@, keys.2)),
        billing_membership_fields(s1.billing_memberships[(u.id@, keys.2)], u.id@, keys.2, Role::Owner, now),
        s1.organizations.contains_key(keys.3),
        personal_org_fields(s1.organizations[keys.3], keys.3, keys.2, u.id@, email, now),
        s1.org_memberships.contains_key((u.id@, keys.3)),
        org_membership_fields(s1.org_memberships[(u.id@, keys.3)], u.id@, keys.3, Role::Owner, now),
{
    let (mid, w) = choose|mid: RepoState, w: User|
        #![trigger user_created(s0, mid, w, email, false, keys.1, "password"@, w.id@, Some(hash), now, keys.2, keys.3)]
        {
            &&& user_created(s0, mid, w, email, false, keys.1, "password"@, w.id@, Some(hash), now, keys.2, keys.3)
            &&& s1 == mid && Ok::<User, StoreErrorView>(u) == Ok::<User, StoreErrorView>(w)
        };
}

/// An organization belongs to its billing account for as long as it
/// exists: deleting an account with organizations attached is refused, so
/// a deletion leaves every organization's account in place, and the
/// organizations themselves unchanged.
pub proof fn law_billing_deletion_orphans_no_organization(s: RepoState, id: Seq<char>)
    requires
        forall|k: Seq<char>| #[trigger]
            s.organizations.contains_key(k) ==> s.billing_accounts.contains_key(
                s.organizations[k].billing_account_id@,
            ),
        !has_orgs(s, id),
    ensures
        billing_deleted(s, id).organizations == s.organizations,
        forall|k: Seq<char>| #[trigger]
            billing_deleted(s, id).organizations.contains_key(k) ==> billing_deleted(
                s,
                id,
            ).billing_accounts.contains_key(billing_deleted(s, id).organizations[k].billing_account_id@),
{
    assert forall|k: Seq<char>| #[trigger]
        billing_deleted(s, id).organizations.contains_key(k) implies billing_deleted(
            s,
            id,
        ).billing_accounts.contains_key(billing_deleted(s, id).organizations[k].billing_account_id@) by {
        assert(s.organizations.contains_key(k));
        assert(s.organizations[k].billing_account_id@ != id);
    }
}

/// Linking is decided by the one identity a provider key names: linking
/// `(provider, subject)` to a user gives back that identity and changes
/// nothing when it already belongs to the user, is refused as a conflict
/// and changes nothing when it belongs to another user, and otherwise adds
/// a new identity for the user. Linking again right after is idempotent.
pub proof fn law_link_identity(
    s0: RepoState,
    s1: RepoState,
    s2: RepoState,
    user: Seq<char>,
    user2: Seq<char>,
    provider: Seq<char>,
    subject: Seq<char>,
    secret: Option<Seq<char>>,
    secret2: Option<Seq<char>>,
    now: i64,
    now2: i64,
    r1: StoreResult<Identity>,
    r2: StoreResult<Identity>,
    k: Seq<char>,
)
    requires
        identities_unique(s0.identities),
        identity_link(s0, s1, user, provider, subject, secret, now, r1),
        identity_link(s1, s2, user2, provider, subject, secret2, now2, r2),
    ensures
        s0.identities.contains_key(k) && identity_matches(s0.identities[k], provider, subject) ==> {
            &&& s1 == s0
            &&& s0.identities[k].user_id@ == user ==> r1 == Ok::<Identity, StoreError>(s0.identities[k])
            &&& s0.identities[k].user_id@ != user ==> (r1 matches Err(e) && e@ == StoreErrorView::Conflict(
                "identity "@ + provider + ":"@ + subject + " belongs to another user"@,
            ))
        },
        !identity_in_use(s0, provider, subject) ==> (r1 matches Ok(i) && identity_fields(
            i,
            user,
            provider,
            subject,
            secret,
            now,
        ) && s1.identities == s0.identities.insert(i.id@, i)),
        r1 matches Ok(i) ==> {
            &&& s2 == s1
            &&& user2 == user ==> r2 == Ok::<Identity, StoreError>(i)
            &&& user2 != user ==> (r2 matches Err(e) && e@ == StoreErrorView::Conflict(
                "identity "@ + provider + ":"@ + subject + " belongs to another user"@,
            ))
        },
{
    if s0.identities.contains_key(k) && identity_matches(s0.identities[k], provider, subject) {
        assert(identity_in_use(s0, provider, subject));
        let j = choose|j: Seq<char>|
            #[trigger] s0.identities.contains_key(j) && identity_matches(s0.identities[j], provider, subject) && if s0.identities[j].user_id@ == user {
                r1 == Ok::<Identity, StoreError>(s0.identities[j])
            } else {
                r1 matches Err(e) && e@ == StoreErrorView::Conflict(
                    "identity "@ + provider + ":"@ + subject + " belongs to another user"@,
                )
            };
        assert(s0.identities[j] == s0.identities[j] && s0.identities[k] == s0.identities[k]);
        assert(j == k);
    }
    if r1 is Ok {
        let i = r1->Ok_0;
        assert(s1.identities.contains_key(i.id@) || identity_in_use(s0, provider, subject));
        assert(identities_unique(s1.identities)) by {
            if !identity_in_use(s0, provider, subject) {
                assert forall|k1: Seq<char>, k2: Seq<char>|
                    #![trigger s1.identities[k1], s1.identities[k2]]
                    s1.identities.contains_key(k1) && s1.identities.contains_key(k2)
                        && s1.identities[k1].provider@ == s1.identities[k2].provider@
                        && s1.identities[k1].provider_user_id@ == s1.identities[k2].provider_user_id@
                        implies k1 == k2 by {
                    if k1 != i.id@ && k2 != i.id@ {
                        assert(s0.identities[k1] == s1.identities[k1]);
                        assert(s0.identities[k2] == s1.identities[k2]);
                    } else if k1 != i.id@ {
                        assert(s0.identities.contains_key(k1) && s0.identities[k1] == s1.identities[k1]);
                        assert(identity_matches(s0.identities[k1], provider, subject));
                    } else if k2 != i.id@ {
                        assert(s0.identities.contains_key(k2) && s0.identities[k2] == s1.identities[k2]);
                        assert(identity_matches(s0.identities[k2], provider, subject));
                    }
                }
            }
        }
        let w = if identity_in_use(s0, provider, subject) {
            choose|j: Seq<char>|
                #[trigger] s0.identities.contains_key(j) && identity_matches(s0.identities[j], provider, subject) && if s0.identities[j].user_id@ == user {
                    r1 == Ok::<Identity, StoreError>(s0.identities[j])
                } else {
                    r1 matches Err(e) && e@ == StoreErrorView::Conflict(
                        "identity "@ + provider + ":"@ + subject + " belongs to another user"@,
                    )
                }
        } else {
            i.id@
        };
        assert(s1.identities.contains_key(w) && s1.identities[w] == i && identity_matches(i, provider, subject));
        assert(identity_in_use(s1, provider, subject));
        let j2 = choose|j: Seq<char>|
            #[trigger] s1.identities.contains_key(j) && identity_matches(s1.identities[j], provider, subject) && if s1.identities[j].user_id@ == user2 {
                r2 == Ok::<Identity, StoreError>(s1.identities[j])
            } else {
                r2 matches Err(e) && e@ == StoreErrorView::Conflict(
                    "identity "@ + provider + ":"@ + subject + " belongs to another user"@,
                )
            };
        assert(s1.identities[j2] == s1.identities[j2] && s1.identities[w] == s1.identities[w]);
        assert(j2 == w);
    }
}

} // verus!
