//! The messages handlers answer with, and how domain values become them.
//! Enumerations travel as their wire values where the handlers also read
//! them back (roles, SSO kinds), and as variants otherwise.

use vstd::prelude::*;

use crate::domain::enums::AuthMethodView;
use crate::domain::{
    AuthMethod, BillingAccount, Duplicate, Organization, Role, SsoConfig, Subscription, User,
};
use crate::services::common::role_wire;
use crate::store::repo::{BillingAccountWithRole, OrgWithRole};
use crate::text::{format_i64, i64_decimal, str_eq};
use crate::time::seconds_of_ms;

verus! {

// ----- timestamps -----

/// A point in time as whole seconds and the nanoseconds past them.
#[derive(Clone, Copy, Debug, PartialEq, Eq, Structural)]
pub struct Timestamp {
    pub seconds: i64,
    pub nanos: i32,
}

/// Milliseconds as seconds and nanoseconds, both rounded toward zero as
/// Rust's `/` and `%` do (so a time before the epoch has negative parts).
pub open spec fn timestamp_of_ms(ms: int) -> Timestamp {
    Timestamp {
        seconds: seconds_of_ms(ms) as i64,
        nanos: ((ms - seconds_of_ms(ms) * 1000) * 1_000_000) as i32,
    }
}

pub fn ms_to_timestamp(ms: i64) -> (t: Timestamp)
    ensures
        t == timestamp_of_ms(ms as int),
{
    let seconds: i64 = ms / 1000;
    let rem: i64 = ms % 1000;
    assert(rem == ms - seconds_of_ms(ms as int) * 1000);
    let nanos: i32 = (rem * 1_000_000) as i32;
    Timestamp { seconds, nanos }
}

// ----- roles, SSO kinds, statuses -----

pub fn role_to_pb(r: Role) -> (v: i32)
    ensures
        v == role_wire(r),
{
    match r {
        Role::Owner => 1,
        Role::Member => 2,
    }
}

/// The SSO kind named by a wire value: 1 is OIDC, 2 SAML, anything else
/// `unknown:<value>`.
pub open spec fn sso_kind_name(v: i32) -> Seq<char> {
    if v == 1 {
        "oidc"@
    } else if v == 2 {
        "saml"@
    } else {
        "unknown:"@ + i64_decimal(v as int)
    }
}

pub fn sso_kind_to_domain(v: i32) -> (s: String)
    ensures
        s@ == sso_kind_name(v),
{
    match v {
        1 => String::from_str("oidc"),
        2 => String::from_str("saml"),
        _ => {
            let mut s = String::from_str("unknown:");
            let d = format_i64(v as i64);
            s.append(d.as_str());
            proof {
                reveal_strlit("unknown:");
            }
            s
        },
    }
}

/// The wire value of an SSO kind name: 1 for `oidc`, 2 for `saml`, 0 for
/// anything else.
pub open spec fn sso_kind_wire(s: Seq<char>) -> i32 {
    if s == "oidc"@ {
        1
    } else if s == "saml"@ {
        2
    } else {
        0
    }
}

pub fn sso_kind_from_domain(s: &str) -> (v: i32)
    ensures
        v == sso_kind_wire(s@),
{
    if str_eq(s, "oidc") {
        1
    } else if str_eq(s, "saml") {
        2
    } else {
        0
    }
}

#[derive(Clone, Copy, Debug, PartialEq, Eq, Structural)]
pub enum SubscriptionStatusCode {
    Unspecified,
    Active,
    PastDue,
    Canceled,
    Unsubscribed,
}

pub open spec fn subscription_status_code(s: Seq<char>) -> SubscriptionStatusCode {
    if s == "active"@ {
        SubscriptionStatusCode::Active
    } else if s == "past_due"@ {
        SubscriptionStatusCode::PastDue
    } else if s == "canceled"@ {
        SubscriptionStatusCode::Canceled
    } else if s == "none"@ {
        SubscriptionStatusCode::Unsubscribed
    } else {
        SubscriptionStatusCode::Unspecified
    }
}

pub fn subscription_status_to_pb(s: &str) -> (c: SubscriptionStatusCode)
    ensures
        c == subscription_status_code(s@),
{
    if str_eq(s, "active") {
        SubscriptionStatusCode::Active
    } else if str_eq(s, "past_due") {
        SubscriptionStatusCode::PastDue
    } else if str_eq(s, "canceled") {
        SubscriptionStatusCode::Canceled
    } else if str_eq(s, "none") {
        SubscriptionStatusCode::Unsubscribed
    } else {
        SubscriptionStatusCode::Unspecified
    }
}

#[derive(Clone, Copy, Debug, PartialEq, Eq, Structural)]
pub enum InvoiceStatusCode {
    Unspecified,
    Paid,
    Open,
    Void,
}

pub open spec fn invoice_status_code(s: Seq<char>) -> InvoiceStatusCode {
    if s == "paid"@ {
        InvoiceStatusCode::Paid
    } else if s == "open"@ {
        InvoiceStatusCode::Open
    } else if s == "void"@ {
        InvoiceStatusCode::Void
    } else {
        InvoiceStatusCode::Unspecified
    }
}

pub fn invoice_status_to_pb(s: &str) -> (c: InvoiceStatusCode)
    ensures
        c == invoice_status_code(s@),
{
    if str_eq(s, "paid") {
        InvoiceStatusCode::Paid
    } else if str_eq(s, "open") {
        InvoiceStatusCode::Open
    } else if str_eq(s, "void") {
        InvoiceStatusCode::Void
    } else {
        InvoiceStatusCode::Unspecified
    }
}

// ----- how the caller signed in -----

#[derive(Clone, Copy, Debug, PartialEq, Eq, Structural)]
pub enum AuthMethodKind {
    Password,
    Sso,
}

/// The sign-in method as sent: its kind, and the identity provider for
/// SSO (empty for a password).
#[derive(Clone, Debug)]
pub struct AuthMethodInfo {
    pub kind: AuthMethodKind,
    pub idp_id: String,
}

pub struct AuthMethodInfoView {
    pub kind: AuthMethodKind,
    pub idp_id: Seq<char>,
}

impl View for AuthMethodInfo {
    type V = AuthMethodInfoView;

    open spec fn view(&self) -> AuthMethodInfoView {
        AuthMethodInfoView { kind: self.kind, idp_id: self.idp_id@ }
    }
}

pub open spec fn auth_method_info(m: AuthMethodView) -> AuthMethodInfoView {
    match m {
        AuthMethodView::Password => AuthMethodInfoView { kind: AuthMethodKind::Password, idp_id: Seq::empty() },
        AuthMethodView::Sso(idp) => AuthMethodInfoView { kind: AuthMethodKind::Sso, idp_id: idp },
    }
}

pub fn auth_method_to_pb(m: &AuthMethod) -> (r: AuthMethodInfo)
    ensures
        r@ == auth_method_info(m@),
{
    match m {
        AuthMethod::Password => AuthMethodInfo { kind: AuthMethodKind::Password, idp_id: String::new() },
        AuthMethod::Sso(idp) => AuthMethodInfo { kind: AuthMethodKind::Sso, idp_id: idp.duplicate() },
    }
}

// ----- memberships and who-am-I -----

/// One of the caller's memberships: the scope, its name, the role held.
#[derive(Clone, Debug)]
pub struct MembershipSummary {
    pub scope_id: String,
    pub display_name: String,
    pub role: i32,
}

pub struct MembershipSummaryView {
    pub scope_id: Seq<char>,
    pub display_name: Seq<char>,
    pub role: i32,
}

impl View for MembershipSummary {
    type V = MembershipSummaryView;

    open spec fn view(&self) -> MembershipSummaryView {
        MembershipSummaryView {
            scope_id: self.scope_id@,
            display_name: self.display_name@,
            role: self.role,
        }
    }
}

pub open spec fn summary_view(scope_id: Seq<char>, display_name: Seq<char>, role: Role) -> MembershipSummaryView {
    MembershipSummaryView { scope_id, display_name, role: role_wire(role) }
}

pub fn membership_summary(scope_id: String, display_name: String, role: Role) -> (m: MembershipSummary)
    ensures
        m@ == summary_view(scope_id@, display_name@, role),
{
    MembershipSummary { scope_id, display_name, role: role_to_pb(role) }
}

/// Who the caller is and where they act: the user, the billing account
/// and organization of the session, the role held there, how they signed
/// in, and all their billing-account and organization memberships.
#[derive(Clone, Debug)]
pub struct WhoamiInfo {
    pub user_id: String,
    pub email: String,
    pub email_verified: bool,
    pub billing_account_id: String,
    pub org_id: String,
    pub role: i32,
    pub auth_method: AuthMethodInfo,
    pub billing_memberships: Vec<MembershipSummary>,
    pub org_memberships: Vec<MembershipSummary>,
}

pub struct WhoamiView {
    pub user_id: Seq<char>,
    pub email: Seq<char>,
    pub email_verified: bool,
    pub billing_account_id: Seq<char>,
    pub org_id: Seq<char>,
    pub role: i32,
    pub auth_method: AuthMethodInfoView,
    pub billing_memberships: Seq<MembershipSummaryView>,
    pub org_memberships: Seq<MembershipSummaryView>,
}

pub open spec fn summaries_view(v: Seq<MembershipSummary>) -> Seq<MembershipSummaryView> {
    v.map_values(|m: MembershipSummary| m@)
}

impl View for WhoamiInfo {
    type V = WhoamiView;

    open spec fn view(&self) -> WhoamiView {
        WhoamiView {
            user_id: self.user_id@,
            email: self.email@,
            email_verified: self.email_verified,
            billing_account_id: self.billing_account_id@,
            org_id: self.org_id@,
            role: self.role,
            auth_method: self.auth_method@,
            billing_memberships: summaries_view(self.billing_memberships@),
            org_memberships: summaries_view(self.org_memberships@),
        }
    }
}

pub open spec fn billing_summaries(v: Seq<BillingAccountWithRole>) -> Seq<MembershipSummaryView> {
    v.map_values(|p: BillingAccountWithRole| summary_view(p.0.id@, p.0.display_name@, p.1))
}

pub open spec fn org_summaries(v: Seq<OrgWithRole>) -> Seq<MembershipSummaryView> {
    v.map_values(|p: OrgWithRole| summary_view(p.0.id@, p.0.display_name@, p.1))
}

/// The who-am-I message for a user acting in `billing` (and `org`, if
/// any) with `role`, listing the given memberships in their order.
pub open spec fn whoami_view(
    user: User,
    billing: BillingAccount,
    org: Option<Organization>,
    role: Role,
    auth_method: AuthMethodView,
    billings: Seq<BillingAccountWithRole>,
    orgs: Seq<OrgWithRole>,
) -> WhoamiView {
    WhoamiView {
        user_id: user.id@,
        email: user.email@,
        email_verified: user.email_verified,
        billing_account_id: billing.id@,
        org_id: match org {
            Some(o) => o.id@,
            None => Seq::empty(),
        },
        role: role_wire(role),
        auth_method: auth_method_info(auth_method),
        billing_memberships: billing_summaries(billings),
        org_memberships: org_summaries(orgs),
    }
}

pub fn build_whoami(
    user: &User,
    billing: &BillingAccount,
    org: Option<&Organization>,
    role: Role,
    auth_method: &AuthMethod,
    billings: Vec<BillingAccountWithRole>,
    orgs: Vec<OrgWithRole>,
) -> (w: WhoamiInfo)
    ensures
        w@ == whoami_view(
            *user,
            *billing,
            match org {
                Some(o) => Some(*o),
                None => None,
            },
            role,
            auth_method@,
            billings@,
            orgs@,
        ),
{
    let mut bs: Vec<MembershipSummary> = Vec::new();
    let mut i: usize = 0;
    while i < billings.len()
        invariant
            i <= billings.len(),
            bs@.len() == i,
            forall|t: int| 0 <= t < i ==> (#[trigger] bs@[t])@ == summary_view(
                billings@[t].0.id@,
                billings@[t].0.display_name@,
                billings@[t].1,
            ),
        decreases billings.len() - i,
    {
        let s = membership_summary(
            billings[i].0.id.to_string(),
            billings[i].0.display_name.duplicate(),
            billings[i].1,
        );
        bs.push(s);
        i = i + 1;
    }
    let mut os: Vec<MembershipSummary> = Vec::new();
    let mut j: usize = 0;
    while j < orgs.len()
        invariant
            j <= orgs.len(),
            os@.len() == j,
            forall|t: int| 0 <= t < j ==> (#[trigger] os@[t])@ == summary_view(
                orgs@[t].0.id@,
                orgs@[t].0.display_name@,
                orgs@[t].1,
            ),
        decreases orgs.len() - j,
    {
        let s = membership_summary(
            orgs[j].0.id.to_string(),
            orgs[j].0.display_name.duplicate(),
            orgs[j].1,
        );
        os.push(s);
        j = j + 1;
    }
    assert(summaries_view(bs@) =~= billing_summaries(billings@));
    assert(summaries_view(os@) =~= org_summaries(orgs@));
    let org_id = match org {
        Some(o) => o.id.to_string(),
        None => String::new(),
    };
    WhoamiInfo {
        user_id: user.id.to_string(),
        email: user.email.duplicate(),
        email_verified: user.email_verified,
        billing_account_id: billing.id.to_string(),
        org_id,
        role: role_to_pb(role),
        auth_method: auth_method_to_pb(auth_method),
        billing_memberships: bs,
        org_memberships: os,
    }
}

// ----- subscriptions and SSO configurations -----

#[derive(Clone, Debug)]
pub struct SubscriptionInfo {
    pub billing_account_id: String,
    pub plan: String,
    pub status: SubscriptionStatusCode,
    pub payment_method_token: Option<String>,
    pub updated_at: Timestamp,
}

pub fn subscription_to_pb(s: Subscription) -> (r: SubscriptionInfo)
    ensures
        r.billing_account_id@ == s.billing_account_id@,
        r.plan == s.plan,
        r.status == subscription_status_code(s.status@),
        r.payment_method_token == s.payment_method_token,
        r.updated_at == timestamp_of_ms(s.updated_at_ms as int),
{
    let status = subscription_status_to_pb(s.status.as_str());
    SubscriptionInfo {
        billing_account_id: s.billing_account_id.to_string(),
        plan: s.plan,
        status,
        payment_method_token: s.payment_method_token,
        updated_at: ms_to_timestamp(s.updated_at_ms),
    }
}

#[derive(Clone, Debug)]
pub struct SsoConfigInfo {
    pub idp_id: String,
    pub kind: i32,
    pub login_url: String,
    pub break_glass_user_id: String,
    pub required: bool,
}

/// `r` presents the configuration `s`.
pub open spec fn sso_info_of(r: SsoConfigInfo, s: SsoConfig) -> bool {
    &&& r.idp_id == s.idp_id
    &&& r.kind == sso_kind_wire(s.kind@)
    &&& r.login_url == s.login_url
    &&& r.break_glass_user_id@ == s.break_glass_user_id@
    &&& r.required == s.required
}

pub fn sso_to_pb(s: SsoConfig) -> (r: SsoConfigInfo)
    ensures
        sso_info_of(r, s),
{
    let kind = sso_kind_from_domain(s.kind.as_str());
    SsoConfigInfo {
        idp_id: s.idp_id,
        kind,
        login_url: s.login_url,
        break_glass_user_id: s.break_glass_user_id.to_string(),
        required: s.required,
    }
}

} // verus!
