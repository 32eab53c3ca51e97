//! The SQL a D1-backed repository runs for its multi-row changes (signup,
//! accepting an invitation), as statements with their bound values; how a
//! failed batch is classified; and how stored rows read back into domain
//! values. Running the statements is the database binding's job: the
//! batches are atomic, all or nothing.

use vstd::prelude::*;

use crate::domain::enums::ScopeTargetView;
use crate::domain::{
    personal_display_name, BillingAccount, BillingAccountId, BillingMembership, Duplicate, Identity, IdentityId,
    Invitation, InvitationId, InvitationStatus, OrgId, OrgMembership, Organization, Role, ScopeKind, ScopeTarget,
    SsoConfig, SsoState, User, UserId,
};
use crate::domain::entities::personal_display_name_spec;
use crate::domain::enums::{sso_provider_tag, IdentityProvider};
use crate::store::error::{StoreError, StoreErrorView, StoreResult};
use crate::store::mem::NewUserIds;
use crate::store::repo::{InvitationAcceptance, NewPasswordUser, NewSsoUser};
use crate::text::{
    ascii_lower_seq, concat, to_ascii_lowercase, to_unicode_lowercase, unicode_lowercase,
};

verus! {

// ----- statements -----

pub const INSERT_USER_UNVERIFIED: &'static str = "INSERT INTO users (id, email, email_lower, email_verified, created_at_ms) VALUES (?, ?, ?, 0, ?)";

pub const INSERT_USER_VERIFIED: &'static str = "INSERT INTO users (id, email, email_lower, email_verified, created_at_ms) VALUES (?, ?, ?, 1, ?)";

pub const INSERT_PASSWORD_IDENTITY: &'static str = "INSERT INTO identities (id, user_id, provider, provider_user_id, secret, created_at_ms) VALUES (?, ?, 'password', ?, ?, ?)";

pub const INSERT_SSO_IDENTITY: &'static str = "INSERT INTO identities (id, user_id, provider, provider_user_id, secret, created_at_ms) VALUES (?, ?, ?, ?, NULL, ?)";

pub const INSERT_PERSONAL_BILLING: &'static str = "INSERT INTO billing_accounts (id, display_name, personal, owner_user_id, auto_join_domain, created_at_ms) VALUES (?, ?, 1, ?, NULL, ?)";

pub const INSERT_BILLING_MEMBERSHIP: &'static str = "INSERT INTO billing_memberships (user_id, billing_account_id, role, created_at_ms) VALUES (?, ?, ?, ?)";

pub const INSERT_FREE_SUBSCRIPTION: &'static str = "INSERT INTO subscriptions (billing_account_id, plan, status, payment_method_token, updated_at_ms) VALUES (?, 'free', 'none', NULL, ?)";

pub const INSERT_PERSONAL_ORG: &'static str = "INSERT INTO organizations (id, display_name, billing_account_id, personal, owner_user_id, created_at_ms) VALUES (?, ?, ?, 1, ?, ?)";

pub const INSERT_ORG_MEMBERSHIP: &'static str = "INSERT INTO org_memberships (user_id, org_id, role, created_at_ms) VALUES (?, ?, ?, ?)";

pub const INSERT_INVITATION_NONCE: &'static str = "INSERT INTO consumed_nonces (nonce, purpose, consumed_at_ms) VALUES (?, 'invitation', ?)";

pub const MARK_INVITATION_ACCEPTED: &'static str = "UPDATE invitations SET status = 'accepted' WHERE id = ?";

/// A value bound to a statement parameter. Times are stored as numbers of
/// milliseconds.
#[derive(Debug)]
pub enum SqlValue {
    Text(String),
    Millis(i64),
    Null,
}

pub enum SqlValueView {
    Text(Seq<char>),
    Millis(i64),
    Null,
}

impl View for SqlValue {
    type V = SqlValueView;

    open spec fn view(&self) -> SqlValueView {
        match self {
            SqlValue::Text(s) => SqlValueView::Text(s@),
            SqlValue::Millis(m) => SqlValueView::Millis(*m),
            SqlValue::Null => SqlValueView::Null,
        }
    }
}

/// A statement and the values bound to its parameters, in order.
#[derive(Debug)]
pub struct Statement {
    pub sql: &'static str,
    pub binds: Vec<SqlValue>,
}

pub struct StatementView {
    pub sql: Seq<char>,
    pub binds: Seq<SqlValueView>,
}

impl View for Statement {
    type V = StatementView;

    open spec fn view(&self) -> StatementView {
        StatementView { sql: self.sql@, binds: self.binds@.map_values(|v: SqlValue| v@) }
    }
}

pub open spec fn statements_view(v: Seq<Statement>) -> Seq<StatementView> {
    v.map_values(|s: Statement| s@)
}

pub open spec fn text(s: Seq<char>) -> SqlValueView {
    SqlValueView::Text(s)
}

pub open spec fn stmt(sql: &'static str, binds: Seq<SqlValueView>) -> StatementView {
    StatementView { sql: sql@, binds }
}

fn txt(s: &str) -> (v: SqlValue)
    ensures
        v@ == text(s@),
{
    SqlValue::Text(String::from_str(s))
}

fn statement1(sql: &'static str, a: SqlValue) -> (s: Statement)
    ensures
        s@ == stmt(sql, seq![a@]),
{
    let mut binds: Vec<SqlValue> = Vec::new();
    binds.push(a);
    let s = Statement { sql, binds };
    assert(s@.binds =~= seq![a@]);
    s
}

fn statement2(sql: &'static str, a: SqlValue, b: SqlValue) -> (s: Statement)
    ensures
        s@ == stmt(sql, seq![a@, b@]),
{
    let mut binds: Vec<SqlValue> = Vec::new();
    binds.push(a);
    binds.push(b);
    let s = Statement { sql, binds };
    assert(s@.binds =~= seq![a@, b@]);
    s
}

fn statement4(sql: &'static str, a: SqlValue, b: SqlValue, c: SqlValue, d: SqlValue) -> (s: Statement)
    ensures
        s@ == stmt(sql, seq![a@, b@, c@, d@]),
{
    let mut binds: Vec<SqlValue> = Vec::new();
    binds.push(a);
    binds.push(b);
    binds.push(c);
    binds.push(d);
    let s = Statement { sql, binds };
    assert(s@.binds =~= seq![a@, b@, c@, d@]);
    s
}

fn statement5(sql: &'static str, a: SqlValue, b: SqlValue, c: SqlValue, d: SqlValue, e: SqlValue) -> (s:
    Statement)
    ensures
        s@ == stmt(sql, seq![a@, b@, c@, d@, e@]),
{
    let mut binds: Vec<SqlValue> = Vec::new();
    binds.push(a);
    binds.push(b);
    binds.push(c);
    binds.push(d);
    binds.push(e);
    let s = Statement { sql, binds };
    assert(s@.binds =~= seq![a@, b@, c@, d@, e@]);
    s
}

// ----- the personal space -----

/// A new user's personal billing account (with its owner membership and
/// free subscription) and personal organization (with its owner
/// membership).
pub open spec fn personal_account_plan(
    user: Seq<char>,
    billing: Seq<char>,
    org: Seq<char>,
    name: Seq<char>,
    now_ms: i64,
) -> Seq<StatementView> {
    seq![
        stmt(INSERT_PERSONAL_BILLING, seq![text(billing), text(name), text(user), SqlValueView::Millis(now_ms)]),
        stmt(
            INSERT_BILLING_MEMBERSHIP,
            seq![text(user), text(billing), text(Role::Owner.spec_str()), SqlValueView::Millis(now_ms)],
        ),
        stmt(INSERT_FREE_SUBSCRIPTION, seq![text(billing), SqlValueView::Millis(now_ms)]),
        stmt(INSERT_PERSONAL_ORG, seq![text(org), text(name), text(billing), text(user), SqlValueView::Millis(now_ms)]),
        stmt(INSERT_ORG_MEMBERSHIP, seq![text(user), text(org), text(Role::Owner.spec_str()), SqlValueView::Millis(now_ms)]),
    ]
}

pub fn personal_account_statements(
    stmts: &mut Vec<Statement>,
    user: &str,
    billing: &str,
    org: &str,
    personal_name: &str,
    now_ms: i64,
)
    ensures
        statements_view(final(stmts)@) == statements_view(old(stmts)@) + personal_account_plan(
            user@,
            billing@,
            org@,
            personal_name@,
            now_ms,
        ),
{
    let ghost before = statements_view(stmts@);
    let owner = Role::Owner.as_str();
    stmts.push(statement4(INSERT_PERSONAL_BILLING, txt(billing), txt(personal_name), txt(user), SqlValue::Millis(now_ms)));
    stmts.push(statement4(INSERT_BILLING_MEMBERSHIP, txt(user), txt(billing), txt(owner), SqlValue::Millis(now_ms)));
    stmts.push(statement2(INSERT_FREE_SUBSCRIPTION, txt(billing), SqlValue::Millis(now_ms)));
    stmts.push(statement5(INSERT_PERSONAL_ORG, txt(org), txt(personal_name), txt(billing), txt(user), SqlValue::Millis(now_ms)));
    stmts.push(statement4(INSERT_ORG_MEMBERSHIP, txt(user), txt(org), txt(owner), SqlValue::Millis(now_ms)));
    assert(statements_view(stmts@) =~= before + personal_account_plan(user@, billing@, org@, personal_name@, now_ms));
}

// ----- accepting an invitation -----

/// Accepting an invitation for `user`: the nonce is stamped first (a
/// duplicate fails the whole batch), then the membership in the target
/// scope with the invited role, then the invitation is marked accepted.
pub open spec fn acceptance_plan(
    user: Seq<char>,
    invitation_id: Seq<char>,
    target: ScopeTargetView,
    role: Role,
    nonce: Seq<char>,
    now_ms: i64,
) -> Seq<StatementView> {
    seq![
        stmt(INSERT_INVITATION_NONCE, seq![text(nonce), SqlValueView::Millis(now_ms)]),
        match target {
            ScopeTargetView::Billing(b) => stmt(
                INSERT_BILLING_MEMBERSHIP,
                seq![text(user), text(b), text(role.spec_str()), SqlValueView::Millis(now_ms)],
            ),
            ScopeTargetView::Org(o) => stmt(
                INSERT_ORG_MEMBERSHIP,
                seq![text(user), text(o), text(role.spec_str()), SqlValueView::Millis(now_ms)],
            ),
        },
        stmt(MARK_INVITATION_ACCEPTED, seq![text(invitation_id)]),
    ]
}

pub fn acceptance_statements(
    stmts: &mut Vec<Statement>,
    user: &str,
    acceptance: &InvitationAcceptance,
    nonce: &str,
    now_ms: i64,
)
    ensures
        statements_view(final(stmts)@) == statements_view(old(stmts)@) + acceptance_plan(
            user@,
            acceptance@.invitation_id,
            acceptance@.target,
            acceptance@.role,
            nonce@,
            now_ms,
        ),
{
    let ghost before = statements_view(stmts@);
    let role = acceptance.role.as_str();
    stmts.push(statement2(INSERT_INVITATION_NONCE, txt(nonce), SqlValue::Millis(now_ms)));
    match &acceptance.target {
        ScopeTarget::Billing(b) => {
            stmts.push(statement4(INSERT_BILLING_MEMBERSHIP, txt(user), txt(b.as_str()), txt(role), SqlValue::Millis(now_ms)));
        },
        ScopeTarget::Org(o) => {
            stmts.push(statement4(INSERT_ORG_MEMBERSHIP, txt(user), txt(o.as_str()), txt(role), SqlValue::Millis(now_ms)));
        },
    }
    stmts.push(statement1(MARK_INVITATION_ACCEPTED, txt(acceptance.invitation_id.as_str())));
    assert(statements_view(stmts@) =~= before + acceptance_plan(
        user@,
        acceptance@.invitation_id,
        acceptance@.target,
        acceptance@.role,
        nonce@,
        now_ms,
    ));
}

/// The nonce a signup stamps for the invitation it accepts.
pub open spec fn signup_invite_nonce(invitation_id: Seq<char>) -> Seq<char> {
    "invite-accept:"@ + invitation_id
}

pub open spec fn signup_invite_plan(user: Seq<char>, invite: Option<InvitationAcceptance>, now_ms: i64) -> Seq<StatementView> {
    match invite {
        None => Seq::empty(),
        Some(a) => acceptance_plan(
            user,
            a@.invitation_id,
            a@.target,
            a@.role,
            signup_invite_nonce(a@.invitation_id),
            now_ms,
        ),
    }
}

fn signup_invite_statements(stmts: &mut Vec<Statement>, user: &str, invite: &Option<InvitationAcceptance>, now_ms: i64)
    ensures
        statements_view(final(stmts)@) == statements_view(old(stmts)@) + signup_invite_plan(user@, *invite, now_ms),
{
    match invite {
        Some(a) => {
            proof {
                reveal_strlit("invite-accept:");
            }
            let nonce = concat("invite-accept:", a.invitation_id.as_str());
            acceptance_statements(stmts, user, a, nonce.as_str(), now_ms);
        },
        None => {
            assert(statements_view(stmts@) =~= statements_view(stmts@) + Seq::<StatementView>::empty());
        },
    }
}

/// The batch that accepts an invitation for an existing user.
pub fn accept_existing_statements(user_id: &UserId, acceptance: &InvitationAcceptance, nonce: &str, now_ms: i64) -> (v:
    Vec<Statement>)
    ensures
        statements_view(v@) == acceptance_plan(
            user_id@,
            acceptance@.invitation_id,
            acceptance@.target,
            acceptance@.role,
            nonce@,
            now_ms,
        ),
{
    let mut v: Vec<Statement> = Vec::new();
    acceptance_statements(&mut v, user_id.as_str(), acceptance, nonce, now_ms);
    assert(statements_view(Seq::<Statement>::empty()) =~= Seq::<StatementView>::empty());
    v
}

// ----- signing up -----

/// The password signup batch: the unverified user (with its lower-cased
/// email), the password identity, the personal space, and the invitation
/// if one is accepted.
pub open spec fn password_signup_plan(
    ids: (Seq<char>, Seq<char>, Seq<char>, Seq<char>),
    email: Seq<char>,
    hash: Seq<char>,
    invite: Option<InvitationAcceptance>,
    now_ms: i64,
) -> Seq<StatementView> {
    let (user, identity, billing, org) = ids;
    seq![
        stmt(INSERT_USER_UNVERIFIED, seq![text(user), text(email), text(ascii_lower_seq(email)), SqlValueView::Millis(now_ms)]),
        stmt(INSERT_PASSWORD_IDENTITY, seq![text(identity), text(user), text(user), text(hash), SqlValueView::Millis(now_ms)]),
    ] + personal_account_plan(user, billing, org, personal_display_name_spec(email), now_ms)
        + signup_invite_plan(user, invite, now_ms)
}

pub open spec fn ids_view(ids: NewUserIds) -> (Seq<char>, Seq<char>, Seq<char>, Seq<char>) {
    (ids.user@, ids.identity@, ids.billing@, ids.org@)
}

pub fn password_signup_statements(
    ids: &NewUserIds,
    input: &NewPasswordUser,
    invite: &Option<InvitationAcceptance>,
    now_ms: i64,
) -> (v: Vec<Statement>)
    ensures
        statements_view(v@) == password_signup_plan(
            ids_view(*ids),
            input.email@,
            input.password_hash@,
            *invite,
            now_ms,
        ),
{
    let user = ids.user.as_str();
    let email_lower = to_ascii_lowercase(input.email.as_str());
    let name = personal_display_name(input.email.as_str());
    let mut v: Vec<Statement> = Vec::new();
    v.push(statement4(INSERT_USER_UNVERIFIED, txt(user), txt(input.email.as_str()), SqlValue::Text(email_lower), SqlValue::Millis(now_ms)));
    v.push(statement5(INSERT_PASSWORD_IDENTITY, txt(ids.identity.as_str()), txt(user), txt(user), txt(input.password_hash.as_str()), SqlValue::Millis(now_ms)));
    let ghost head = statements_view(v@);
    personal_account_statements(&mut v, user, ids.billing.as_str(), ids.org.as_str(), name.as_str(), now_ms);
    signup_invite_statements(&mut v, user, invite, now_ms);
    assert(statements_view(v@) =~= password_signup_plan(
        ids_view(*ids),
        input.email@,
        input.password_hash@,
        *invite,
        now_ms,
    ));
    v
}

/// The SSO signup batch: the verified user, the `sso:<idp>` identity
/// without a secret, the personal space, the membership in the auto-join
/// account (as a member) if there is one, and the invitation if one is
/// accepted.
pub open spec fn sso_signup_plan(
    ids: (Seq<char>, Seq<char>, Seq<char>, Seq<char>),
    email: Seq<char>,
    idp: Seq<char>,
    idp_user: Seq<char>,
    invite: Option<InvitationAcceptance>,
    auto_join: Option<Seq<char>>,
    now_ms: i64,
) -> Seq<StatementView> {
    let (user, identity, billing, org) = ids;
    seq![
        stmt(INSERT_USER_VERIFIED, seq![text(user), text(email), text(ascii_lower_seq(email)), SqlValueView::Millis(now_ms)]),
        stmt(
            INSERT_SSO_IDENTITY,
            seq![text(identity), text(user), text(sso_provider_tag(idp)), text(idp_user), SqlValueView::Millis(now_ms)],
        ),
    ] + personal_account_plan(user, billing, org, personal_display_name_spec(email), now_ms) + match auto_join {
        Some(b) => seq![
            stmt(
                INSERT_BILLING_MEMBERSHIP,
                seq![text(user), text(b), text(Role::Member.spec_str()), SqlValueView::Millis(now_ms)],
            ),
        ],
        None => Seq::empty(),
    } + signup_invite_plan(user, invite, now_ms)
}

pub fn sso_signup_statements(
    ids: &NewUserIds,
    input: &NewSsoUser,
    invite: &Option<InvitationAcceptance>,
    auto_join_billing: &Option<BillingAccountId>,
    now_ms: i64,
) -> (v: Vec<Statement>)
    ensures
        statements_view(v@) == sso_signup_plan(
            ids_view(*ids),
            input.email@,
            input.idp_id@,
            input.idp_user_id@,
            *invite,
            match auto_join_billing {
                Some(b) => Some(b@),
                None => None,
            },
            now_ms,
        ),
{
    let user = ids.user.as_str();
    let email_lower = to_ascii_lowercase(input.email.as_str());
    let name = personal_display_name(input.email.as_str());
    let provider = IdentityProvider::sso_str(input.idp_id.as_str());
    let mut v: Vec<Statement> = Vec::new();
    v.push(statement4(INSERT_USER_VERIFIED, txt(user), txt(input.email.as_str()), SqlValue::Text(email_lower), SqlValue::Millis(now_ms)));
    v.push(statement5(INSERT_SSO_IDENTITY, txt(ids.identity.as_str()), txt(user), SqlValue::Text(provider), txt(input.idp_user_id.as_str()), SqlValue::Millis(now_ms)));
    personal_account_statements(&mut v, user, ids.billing.as_str(), ids.org.as_str(), name.as_str(), now_ms);
    let ghost mid = statements_view(v@);
    let ghost join_plan: Seq<StatementView> = match auto_join_billing {
        Some(b) => seq![
            stmt(
                INSERT_BILLING_MEMBERSHIP,
                seq![text(user@), text(b@), text(Role::Member.spec_str()), SqlValueView::Millis(now_ms)],
            ),
        ],
        None => Seq::empty(),
    };
    match auto_join_billing {
        Some(b) => {
            v.push(statement4(INSERT_BILLING_MEMBERSHIP, txt(user), txt(b.as_str()), txt(Role::Member.as_str()), SqlValue::Millis(now_ms)));
        },
        None => {},
    }
    assert(statements_view(v@) =~= mid + join_plan);
    let ghost joined = statements_view(v@);
    signup_invite_statements(&mut v, user, invite, now_ms);
    assert(statements_view(v@) =~= sso_signup_plan(
        ids_view(*ids),
        input.email@,
        input.idp_id@,
        input.idp_user_id@,
        *invite,
        match auto_join_billing {
            Some(b) => Some(b@),
            None => None,
        },
        now_ms,
    ));
    v
}

// ----- failed batches -----

/// A failed batch is a duplicate when its message, lower-cased, names a
/// unique or primary-key constraint or SQLite's constraint code; any other
/// failure is a storage failure. Either names the operation.
pub open spec fn batch_error(context: Seq<char>, message: Seq<char>) -> StoreErrorView {
    let lower = unicode_lowercase(message);
    if has_infix(lower, "unique constraint failed"@) || has_infix(lower, "primary key constraint failed"@)
        || has_infix(lower, "sqlite_constraint"@) {
        StoreErrorView::AlreadyExists(context)
    } else {
        StoreErrorView::Backend(context)
    }
}

/// `p` occurs in `s`.
pub open spec fn has_infix(s: Seq<char>, p: Seq<char>) -> bool {
    exists|i: int| 0 <= i && i + p.len() <= s.len() && #[trigger] s.subrange(i, i + p.len()) == p
}

fn matches_at(cs: &Vec<char>, cp: &Vec<char>, i: usize) -> (r: bool)
    requires
        i + cp@.len() <= cs@.len(),
    ensures
        r == (cs@.subrange(i as int, i + cp@.len()) == cp@),
{
    let n = cs.len();
    let m = cp.len();
    let mut j: usize = 0;
    while j < m
        invariant
            n == cs@.len(),
            m == cp@.len(),
            i + m <= n,
            j <= m,
            forall|t: int| 0 <= t < j ==> cs@[i + t] == cp@[t],
        decreases m - j,
    {
        if cs[i + j] != cp[j] {
            assert(cs@.subrange(i as int, i + cp@.len())[j as int] != cp@[j as int]);
            return false;
        }
        j = j + 1;
    }
    assert(cs@.subrange(i as int, i + cp@.len()) =~= cp@);
    true
}

fn contains_str(s: &str, p: &str) -> (r: bool)
    ensures
        r == has_infix(s@, p@),
{
    let cs = crate::text::chars_of(s);
    let cp = crate::text::chars_of(p);
    let n = cs.len();
    let m = cp.len();
    if m > n {
        return false;
    }
    let last = n - m;
    let mut i: usize = 0;
    loop
        invariant
            cs@ == s@,
            cp@ == p@,
            n == cs@.len(),
            m == cp@.len(),
            last + m == n,
            i <= last,
            forall|k: int| 0 <= k < i ==> #[trigger] s@.subrange(k, k + p@.len()) != p@,
        decreases last - i,
    {
        if matches_at(&cs, &cp, i) {
            return true;
        }
        if i == last {
            proof {
                assert forall|k: int| 0 <= k && k + p@.len() <= s@.len() implies #[trigger] s@.subrange(
                    k,
                    k + p@.len(),
                ) != p@ by {
                    assert(k <= i);
                }
            }
            return false;
        }
        i = i + 1;
    }
}

pub fn classify_insert_error(context: &str, message: &str) -> (e: StoreError)
    ensures
        e@ == batch_error(context@, message@),
{
    let lower = to_unicode_lowercase(message);
    if contains_str(lower.as_str(), "unique constraint failed") || contains_str(
        lower.as_str(),
        "primary key constraint failed",
    ) || contains_str(lower.as_str(), "sqlite_constraint") {
        StoreError::AlreadyExists(String::from_str(context))
    } else {
        StoreError::Backend(String::from_str(context))
    }
}

// ----- reading rows back -----

/// A stored membership row.
pub struct MembershipRow {
    pub user_id: String,
    pub scope_id: String,
    pub role: String,
    pub created_at_ms: i64,
}

/// A stored role, or the storage error that names what was found.
pub open spec fn stored_role(s: Seq<char>) -> Result<Role, StoreErrorView> {
    match Role::spec_parse(s) {
        Some(r) => Ok(r),
        None => Err(StoreErrorView::Backend("role: "@ + ("unknown role: "@ + s))),
    }
}

pub open spec fn role_result_view(r: StoreResult<Role>) -> Result<Role, StoreErrorView> {
    match r {
        Ok(x) => Ok(x),
        Err(e) => Err(e@),
    }
}

fn read_role(s: &str) -> (r: StoreResult<Role>)
    ensures
        role_result_view(r) == stored_role(s@),
{
    match Role::parse(s) {
        Ok(r) => Ok(r),
        Err(m) => {
            proof {
                reveal_strlit("role: ");
                reveal_strlit("unknown role: ");
            }
            Err(StoreError::Backend(concat("role: ", m.as_str())))
        },
    }
}

pub fn billing_membership_from_row(row: MembershipRow) -> (r: StoreResult<BillingMembership>)
    ensures
        match stored_role(row.role@) {
            Err(e) => r matches Err(x) && x@ == e,
            Ok(role) => r matches Ok(m) && m.user_id@ == row.user_id@ && m.billing_account_id@
                == row.scope_id@ && m.role == role && m.created_at_ms == row.created_at_ms,
        },
{
    let role = match read_role(row.role.as_str()) {
        Ok(r) => r,
        Err(e) => {
            return Err(e);
        },
    };
    Ok(
        BillingMembership {
            user_id: UserId::from_string(row.user_id),
            billing_account_id: BillingAccountId::from_string(row.scope_id),
            role,
            created_at_ms: row.created_at_ms,
        },
    )
}

pub fn org_membership_from_row(row: MembershipRow) -> (r: StoreResult<OrgMembership>)
    ensures
        match stored_role(row.role@) {
            Err(e) => r matches Err(x) && x@ == e,
            Ok(role) => r matches Ok(m) && m.user_id@ == row.user_id@ && m.org_id@ == row.scope_id@
                && m.role == role && m.created_at_ms == row.created_at_ms,
        },
{
    let role = match read_role(row.role.as_str()) {
        Ok(r) => r,
        Err(e) => {
            return Err(e);
        },
    };
    Ok(
        OrgMembership {
            user_id: UserId::from_string(row.user_id),
            org_id: OrgId::from_string(row.scope_id),
            role,
            created_at_ms: row.created_at_ms,
        },
    )
}

/// A stored invitation row.
pub struct InvitationRow {
    pub id: String,
    pub scope_kind: String,
    pub scope_id: String,
    pub email: String,
    pub role: String,
    pub inviter_user_id: Option<String>,
    pub required_idp: Option<String>,
    pub nonce: String,
    pub expires_at_ms: i64,
    pub status: String,
    pub created_at_ms: i64,
}

/// The invitation a row holds: its scope kind, role and status must
/// parse, checked in that order.
pub open spec fn stored_invitation_error(row: InvitationRow) -> Option<StoreErrorView> {
    if ScopeKind::spec_parse(row.scope_kind@) is None {
        Some(StoreErrorView::Backend("scope_kind: "@ + ("unknown scope kind: "@ + row.scope_kind@)))
    } else if Role::spec_parse(row.role@) is None {
        Some(StoreErrorView::Backend("role: "@ + ("unknown role: "@ + row.role@)))
    } else if InvitationStatus::spec_parse(row.status@) is None {
        Some(StoreErrorView::Backend("status: "@ + ("unknown invitation status: "@ + row.status@)))
    } else {
        None
    }
}

pub fn invitation_from_row(row: InvitationRow) -> (r: StoreResult<Invitation>)
    ensures
        match stored_invitation_error(row) {
            Some(e) => r matches Err(x) && x@ == e,
            None => r matches Ok(i) && {
                &&& i.id@ == row.id@
                &&& i.scope@ == ScopeTargetView::from_parts(
                    ScopeKind::spec_parse(row.scope_kind@)->0,
                    row.scope_id@,
                )
                &&& i.email == row.email
                &&& i.role == Role::spec_parse(row.role@)->0
                &&& match i.inviter_user_id {
                    Some(u) => row.inviter_user_id matches Some(x) && x@ == u@,
                    None => row.inviter_user_id is None,
                }
                &&& i.required_idp == row.required_idp
                &&& i.nonce == row.nonce
                &&& i.expires_at_ms == row.expires_at_ms
                &&& i.status == InvitationStatus::spec_parse(row.status@)->0
                &&& i.created_at_ms == row.created_at_ms
            },
        },
{
    proof {
        reveal_strlit("scope_kind: ");
        reveal_strlit("unknown scope kind: ");
        reveal_strlit("role: ");
        reveal_strlit("unknown role: ");
        reveal_strlit("status: ");
        reveal_strlit("unknown invitation status: ");
    }
    let kind = match ScopeKind::parse(row.scope_kind.as_str()) {
        Ok(k) => k,
        Err(m) => {
            return Err(StoreError::Backend(concat("scope_kind: ", m.as_str())));
        },
    };
    let role = match Role::parse(row.role.as_str()) {
        Ok(r) => r,
        Err(m) => {
            return Err(StoreError::Backend(concat("role: ", m.as_str())));
        },
    };
    let status = match InvitationStatus::parse(row.status.as_str()) {
        Ok(s) => s,
        Err(m) => {
            return Err(StoreError::Backend(concat("status: ", m.as_str())));
        },
    };
    let inviter = match row.inviter_user_id {
        Some(u) => Some(UserId::from_string(u)),
        None => None,
    };
    Ok(
        Invitation {
            id: InvitationId::from_string(row.id),
            scope: ScopeTarget::from_parts(kind, row.scope_id),
            email: row.email,
            role,
            inviter_user_id: inviter,
            required_idp: row.required_idp,
            nonce: row.nonce,
            expires_at_ms: row.expires_at_ms,
            status,
            created_at_ms: row.created_at_ms,
        },
    )
}

/// A stored SSO configuration row.
pub struct SsoConfigRow {
    pub scope_kind: String,
    pub scope_id: String,
    pub idp_id: String,
    pub kind: String,
    pub login_url: String,
    pub break_glass_user_id: String,
    pub required: i64,
    pub updated_at_ms: i64,
}

pub fn sso_config_from_row(row: SsoConfigRow) -> (r: StoreResult<SsoConfig>)
    ensures
        match ScopeKind::spec_parse(row.scope_kind@) {
            None => r matches Err(x) && x@ == StoreErrorView::Backend(
                "scope_kind: "@ + ("unknown scope kind: "@ + row.scope_kind@),
            ),
            Some(k) => r matches Ok(c) && c.scope_kind == k && c.scope_id == row.scope_id && c.idp_id
                == row.idp_id && c.kind == row.kind && c.login_url == row.login_url
                && c.break_glass_user_id@ == row.break_glass_user_id@ && c.required == (row.required
                != 0) && c.updated_at_ms == row.updated_at_ms,
        },
{
    proof {
        reveal_strlit("scope_kind: ");
        reveal_strlit("unknown scope kind: ");
    }
    let kind = match ScopeKind::parse(row.scope_kind.as_str()) {
        Ok(k) => k,
        Err(m) => {
            return Err(StoreError::Backend(concat("scope_kind: ", m.as_str())));
        },
    };
    Ok(
        SsoConfig {
            scope_kind: kind,
            scope_id: row.scope_id,
            idp_id: row.idp_id,
            kind: row.kind,
            login_url: row.login_url,
            break_glass_user_id: UserId::from_string(row.break_glass_user_id),
            required: row.required != 0,
            updated_at_ms: row.updated_at_ms,
        },
    )
}

// ----- plain rows -----

/// A stored user row; `email_verified` is stored as a number.
pub struct UserRow {
    pub id: String,
    pub email: String,
    pub email_verified: i64,
    pub created_at_ms: i64,
}

pub fn user_from_row(row: UserRow) -> (u: User)
    ensures
        u.id@ == row.id@,
        u.email == row.email,
        u.email_verified == (row.email_verified != 0),
        u.created_at_ms == row.created_at_ms,
{
    User {
        id: UserId::from_string(row.id),
        email: row.email,
        email_verified: row.email_verified != 0,
        created_at_ms: row.created_at_ms,
    }
}

/// A stored identity row.
pub struct IdentityRow {
    pub id: String,
    pub user_id: String,
    pub provider: String,
    pub provider_user_id: String,
    pub secret: Option<String>,
    pub created_at_ms: i64,
}

pub fn identity_from_row(row: IdentityRow) -> (i: Identity)
    ensures
        i.id@ == row.id@,
        i.user_id@ == row.user_id@,
        i.provider == row.provider,
        i.provider_user_id == row.provider_user_id,
        i.secret == row.secret,
        i.created_at_ms == row.created_at_ms,
{
    Identity {
        id: IdentityId::from_string(row.id),
        user_id: UserId::from_string(row.user_id),
        provider: row.provider,
        provider_user_id: row.provider_user_id,
        secret: row.secret,
        created_at_ms: row.created_at_ms,
    }
}

pub open spec fn stored_owner(o: Option<String>) -> Option<Seq<char>> {
    match o {
        Some(s) => Some(s@),
        None => None,
    }
}

pub open spec fn owner_view(o: Option<UserId>) -> Option<Seq<char>> {
    match o {
        Some(u) => Some(u@),
        None => None,
    }
}

fn owner_from_row(o: Option<String>) -> (r: Option<UserId>)
    ensures
        owner_view(r) == stored_owner(o),
{
    match o {
        Some(s) => Some(UserId::from_string(s)),
        None => None,
    }
}

/// A stored billing account row; `personal` is stored as a number.
pub struct BillingAccountRow {
    pub id: String,
    pub display_name: String,
    pub personal: i64,
    pub owner_user_id: Option<String>,
    pub auto_join_domain: Option<String>,
    pub created_at_ms: i64,
}

pub open spec fn billing_account_of_row(b: BillingAccount, row: BillingAccountRow) -> bool {
    &&& b.id@ == row.id@
    &&& b.display_name == row.display_name
    &&& b.personal == (row.personal != 0)
    &&& owner_view(b.owner_user_id) == stored_owner(row.owner_user_id)
    &&& b.auto_join_domain == row.auto_join_domain
    &&& b.created_at_ms == row.created_at_ms
}

pub fn billing_account_from_row(row: BillingAccountRow) -> (b: BillingAccount)
    ensures
        billing_account_of_row(b, row),
{
    BillingAccount {
        id: BillingAccountId::from_string(row.id),
        display_name: row.display_name,
        personal: row.personal != 0,
        owner_user_id: owner_from_row(row.owner_user_id),
        auto_join_domain: row.auto_join_domain,
        created_at_ms: row.created_at_ms,
    }
}

/// A billing account listed with the caller's stored role in it; the role
/// must parse.
pub fn billing_account_with_role_from_row(row: BillingAccountRow, role: String) -> (r: StoreResult<
    (BillingAccount, Role),
>)
    ensures
        match stored_role(role@) {
            Err(e) => r matches Err(x) && x@ == e,
            Ok(k) => r matches Ok(p) && billing_account_of_row(p.0, row) && p.1 == k,
        },
{
    let k = match read_role(role.as_str()) {
        Ok(k) => k,
        Err(e) => {
            return Err(e);
        },
    };
    Ok((billing_account_from_row(row), k))
}

/// A stored organization row; `personal` is stored as a number.
pub struct OrgRow {
    pub id: String,
    pub display_name: String,
    pub billing_account_id: String,
    pub personal: i64,
    pub owner_user_id: Option<String>,
    pub created_at_ms: i64,
}

pub open spec fn organization_of_row(o: Organization, row: OrgRow) -> bool {
    &&& o.id@ == row.id@
    &&& o.display_name == row.display_name
    &&& o.billing_account_id@ == row.billing_account_id@
    &&& o.personal == (row.personal != 0)
    &&& owner_view(o.owner_user_id) == stored_owner(row.owner_user_id)
    &&& o.created_at_ms == row.created_at_ms
}

pub fn organization_from_row(row: OrgRow) -> (o: Organization)
    ensures
        organization_of_row(o, row),
{
    Organization {
        id: OrgId::from_string(row.id),
        display_name: row.display_name,
        billing_account_id: BillingAccountId::from_string(row.billing_account_id),
        personal: row.personal != 0,
        owner_user_id: owner_from_row(row.owner_user_id),
        created_at_ms: row.created_at_ms,
    }
}

/// An organization listed with the caller's stored role in it; the role
/// must parse.
pub fn organization_with_role_from_row(row: OrgRow, role: String) -> (r: StoreResult<(Organization, Role)>)
    ensures
        match stored_role(role@) {
            Err(e) => r matches Err(x) && x@ == e,
            Ok(k) => r matches Ok(p) && organization_of_row(p.0, row) && p.1 == k,
        },
{
    let k = match read_role(role.as_str()) {
        Ok(k) => k,
        Err(e) => {
            return Err(e);
        },
    };
    Ok((organization_from_row(row), k))
}

/// A stored pending SSO round trip.
pub struct SsoStateRow {
    pub state: String,
    pub scope_hint: String,
    pub expected_idp: Option<String>,
    pub created_at_ms: i64,
    pub expires_at_ms: i64,
}

pub fn sso_state_from_row(row: SsoStateRow) -> (s: SsoState)
    ensures
        s.state == row.state,
        s.scope_hint == row.scope_hint,
        s.expected_idp == row.expected_idp,
        s.created_at_ms == row.created_at_ms,
        s.expires_at_ms == row.expires_at_ms,
{
    SsoState {
        state: row.state,
        scope_hint: row.scope_hint,
        expected_idp: row.expected_idp,
        created_at_ms: row.created_at_ms,
        expires_at_ms: row.expires_at_ms,
    }
}

/// `n` comma-separated `?` placeholders.
pub open spec fn placeholders_spec(n: nat) -> Seq<char>
    decreases n,
{
    if n == 0 {
        Seq::empty()
    } else if n == 1 {
        seq!['?']
    } else {
        placeholders_spec((n - 1) as nat) + seq![',', '?']
    }
}

pub fn placeholders(n: usize) -> (s: String)
    ensures
        s@ == placeholders_spec(n as nat),
{
    let mut out: Vec<char> = Vec::new();
    let mut i: usize = 0;
    while i < n
        invariant
            i <= n,
            out@ == placeholders_spec(i as nat),
        decreases n - i,
    {
        if i > 0 {
            out.push(',');
        }
        out.push('?');
        i = i + 1;
        assert(out@ =~= placeholders_spec(i as nat));
    }
    crate::text::string_from_chars(out.as_slice())
}

} // verus!
