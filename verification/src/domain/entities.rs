//! Storage-shape entities, decoupled from the wire types.

use vstd::prelude::*;

use crate::domain::enums::{Role, ScopeKind, ScopeTarget};
use crate::domain::ids::{BillingAccountId, IdentityId, InvitationId, InvoiceId, OrgId, UserId};
use crate::domain::Duplicate;

verus! {

/// `"<email> (personal)"`: the display name of a user's personal billing
/// account and organization.
pub open spec fn personal_display_name_spec(email: Seq<char>) -> Seq<char> {
    email + " (personal)"@
}

pub fn personal_display_name(email: &str) -> (s: String)
    ensures
        s@ == personal_display_name_spec(email@),
{
    let mut s = String::from_str(email);
    s.append(" (personal)");
    s
}

#[derive(Copy, Clone, Debug, PartialEq, Eq, Structural)]
pub enum InvitationStatus {
    Pending,
    Accepted,
    Declined,
    Revoked,
    Expired,
}

impl View for InvitationStatus {
    type V = InvitationStatus;

    open spec fn view(&self) -> InvitationStatus {
        *self
    }
}

impl InvitationStatus {
    pub open spec fn spec_str(self) -> Seq<char> {
        match self {
            InvitationStatus::Pending => "pending"@,
            InvitationStatus::Accepted => "accepted"@,
            InvitationStatus::Declined => "declined"@,
            InvitationStatus::Revoked => "revoked"@,
            InvitationStatus::Expired => "expired"@,
        }
    }

    pub open spec fn spec_parse(s: Seq<char>) -> Option<InvitationStatus> {
        if s == "pending"@ {
            Some(InvitationStatus::Pending)
        } else if s == "accepted"@ {
            Some(InvitationStatus::Accepted)
        } else if s == "declined"@ {
            Some(InvitationStatus::Declined)
        } else if s == "revoked"@ {
            Some(InvitationStatus::Revoked)
        } else if s == "expired"@ {
            Some(InvitationStatus::Expired)
        } else {
            None
        }
    }

    pub fn as_str(&self) -> (s: &'static str)
        ensures
            s@ == self.spec_str(),
    {
        match self {
            InvitationStatus::Pending => "pending",
            InvitationStatus::Accepted => "accepted",
            InvitationStatus::Declined => "declined",
            InvitationStatus::Revoked => "revoked",
            InvitationStatus::Expired => "expired",
        }
    }

    /// Parse a status from its string form; the error text names the input.
    pub fn parse(s: &str) -> (r: Result<InvitationStatus, String>)
        ensures
            match r {
                Ok(st) => InvitationStatus::spec_parse(s@) == Some(st),
                Err(msg) => InvitationStatus::spec_parse(s@) is None
                    && msg@ == "unknown invitation status: "@ + s@,
            },
    {
        let t = String::from_str(s);
        if t == String::from_str("pending") {
            Ok(InvitationStatus::Pending)
        } else if t == String::from_str("accepted") {
            Ok(InvitationStatus::Accepted)
        } else if t == String::from_str("declined") {
            Ok(InvitationStatus::Declined)
        } else if t == String::from_str("revoked") {
            Ok(InvitationStatus::Revoked)
        } else if t == String::from_str("expired") {
            Ok(InvitationStatus::Expired)
        } else {
            let mut m = String::from_str("unknown invitation status: ");
            m.append(s);
            Err(m)
        }
    }

    /// Parsing a status's string form gives the status back.
    pub proof fn lemma_parse_as_str(st: InvitationStatus)
        ensures
            InvitationStatus::spec_parse(st.spec_str()) == Some(st),
    {
        reveal_strlit("pending");
        reveal_strlit("accepted");
        reveal_strlit("declined");
        reveal_strlit("revoked");
        reveal_strlit("expired");
        assert("pending"@[0] == 'p' && "accepted"@[0] == 'a' && "declined"@[0] == 'd'
            && "revoked"@[0] == 'r' && "expired"@[0] == 'e');
        assert("pending"@ != "accepted"@ && "pending"@ != "declined"@ && "pending"@ != "revoked"@
            && "pending"@ != "expired"@);
        assert("accepted"@ != "declined"@ && "accepted"@ != "revoked"@ && "accepted"@ != "expired"@);
        assert("declined"@ != "revoked"@ && "declined"@ != "expired"@);
        assert("revoked"@ != "expired"@);
    }
}

impl std::str::FromStr for InvitationStatus {
    type Err = String;

    fn from_str(s: &str) -> (r: Result<Self, Self::Err>)
        ensures
            match r {
                Ok(st) => InvitationStatus::spec_parse(s@) == Some(st),
                Err(msg) => InvitationStatus::spec_parse(s@) is None
                    && msg@ == "unknown invitation status: "@ + s@,
            },
    {
        InvitationStatus::parse(s)
    }
}

impl Duplicate for InvitationStatus {
    fn duplicate(&self) -> (r: Self) {
        *self
    }
}

/// A registered user.
#[derive(Clone, Debug, PartialEq, Eq)]
pub struct User {
    pub id: UserId,
    pub email: String,
    pub email_verified: bool,
    pub created_at_ms: i64,
}

impl Duplicate for User {
    fn duplicate(&self) -> (r: Self) {
        User {
            id: self.id.duplicate(),
            email: self.email.duplicate(),
            email_verified: self.email_verified,
            created_at_ms: self.created_at_ms,
        }
    }
}

/// A way for a user to sign in: a password, or an account at an OAuth/SSO provider.
#[derive(Clone, Debug, PartialEq, Eq)]
pub struct Identity {
    pub id: IdentityId,
    pub user_id: UserId,
    /// String form of an `IdentityProvider` (`password`, `github`, `google`, `sso:<idp>`).
    pub provider: String,
    pub provider_user_id: String,
    /// PHC string for password identities; `None` otherwise.
    pub secret: Option<String>,
    pub created_at_ms: i64,
}

impl Duplicate for Identity {
    fn duplicate(&self) -> (r: Self) {
        Identity {
            id: self.id.duplicate(),
            user_id: self.user_id.duplicate(),
            provider: self.provider.duplicate(),
            provider_user_id: self.provider_user_id.duplicate(),
            secret: self.secret.duplicate(),
            created_at_ms: self.created_at_ms,
        }
    }
}

/// A billing account: personal (one per user) or shared.
#[derive(Clone, Debug, PartialEq, Eq)]
pub struct BillingAccount {
    pub id: BillingAccountId,
    pub display_name: String,
    pub personal: bool,
    pub owner_user_id: Option<UserId>,
    pub auto_join_domain: Option<String>,
    pub created_at_ms: i64,
}

impl Duplicate for BillingAccount {
    fn duplicate(&self) -> (r: Self) {
        BillingAccount {
            id: self.id.duplicate(),
            display_name: self.display_name.duplicate(),
            personal: self.personal,
            owner_user_id: self.owner_user_id.duplicate(),
            auto_join_domain: self.auto_join_domain.duplicate(),
            created_at_ms: self.created_at_ms,
        }
    }
}

/// An organization, attached to exactly one billing account.
#[derive(Clone, Debug, PartialEq, Eq)]
pub struct Organization {
    pub id: OrgId,
    pub display_name: String,
    pub billing_account_id: BillingAccountId,
    pub personal: bool,
    pub owner_user_id: Option<UserId>,
    pub created_at_ms: i64,
}

impl Duplicate for Organization {
    fn duplicate(&self) -> (r: Self) {
        Organization {
            id: self.id.duplicate(),
            display_name: self.display_name.duplicate(),
            billing_account_id: self.billing_account_id.duplicate(),
            personal: self.personal,
            owner_user_id: self.owner_user_id.duplicate(),
            created_at_ms: self.created_at_ms,
        }
    }
}

/// A user's role in a billing account.
#[derive(Clone, Debug, PartialEq, Eq)]
pub struct BillingMembership {
    pub user_id: UserId,
    pub billing_account_id: BillingAccountId,
    pub role: Role,
    pub created_at_ms: i64,
}

impl Duplicate for BillingMembership {
    fn duplicate(&self) -> (r: Self) {
        BillingMembership {
            user_id: self.user_id.duplicate(),
            billing_account_id: self.billing_account_id.duplicate(),
            role: self.role.duplicate(),
            created_at_ms: self.created_at_ms,
        }
    }
}

/// A user's role in an organization.
#[derive(Clone, Debug, PartialEq, Eq)]
pub struct OrgMembership {
    pub user_id: UserId,
    pub org_id: OrgId,
    pub role: Role,
    pub created_at_ms: i64,
}

impl Duplicate for OrgMembership {
    fn duplicate(&self) -> (r: Self) {
        OrgMembership {
            user_id: self.user_id.duplicate(),
            org_id: self.org_id.duplicate(),
            role: self.role.duplicate(),
            created_at_ms: self.created_at_ms,
        }
    }
}

/// SSO configuration of a billing account or an organization.
#[derive(Clone, Debug, PartialEq, Eq)]
pub struct SsoConfig {
    pub scope_kind: ScopeKind,
    pub scope_id: String,
    pub idp_id: String,
    pub kind: String,
    pub login_url: String,
    pub break_glass_user_id: UserId,
    pub required: bool,
    pub updated_at_ms: i64,
}

impl Duplicate for SsoConfig {
    fn duplicate(&self) -> (r: Self) {
        SsoConfig {
            scope_kind: self.scope_kind.duplicate(),
            scope_id: self.scope_id.duplicate(),
            idp_id: self.idp_id.duplicate(),
            kind: self.kind.duplicate(),
            login_url: self.login_url.duplicate(),
            break_glass_user_id: self.break_glass_user_id.duplicate(),
            required: self.required,
            updated_at_ms: self.updated_at_ms,
        }
    }
}

/// An invitation of an email address into a scope.
#[derive(Clone, Debug, PartialEq, Eq)]
pub struct Invitation {
    pub id: InvitationId,
    pub scope: ScopeTarget,
    pub email: String,
    pub role: Role,
    pub inviter_user_id: Option<UserId>,
    /// IdP frozen at issuance time when the scope was SSO-protected.
    pub required_idp: Option<String>,
    /// Current token nonce; replaced on resend so older tokens stop redeeming.
    pub nonce: String,
    pub expires_at_ms: i64,
    pub status: InvitationStatus,
    pub created_at_ms: i64,
}

impl Duplicate for Invitation {
    fn duplicate(&self) -> (r: Self) {
        Invitation {
            id: self.id.duplicate(),
            scope: self.scope.duplicate(),
            email: self.email.duplicate(),
            role: self.role.duplicate(),
            inviter_user_id: self.inviter_user_id.duplicate(),
            required_idp: self.required_idp.duplicate(),
            nonce: self.nonce.duplicate(),
            expires_at_ms: self.expires_at_ms,
            status: self.status.duplicate(),
            created_at_ms: self.created_at_ms,
        }
    }
}

/// The subscription state of a billing account.
#[derive(Clone, Debug, PartialEq, Eq)]
pub struct Subscription {
    pub billing_account_id: BillingAccountId,
    pub plan: String,
    pub status: String,
    pub payment_method_token: Option<String>,
    pub updated_at_ms: i64,
}

impl Duplicate for Subscription {
    fn duplicate(&self) -> (r: Self) {
        Subscription {
            billing_account_id: self.billing_account_id.duplicate(),
            plan: self.plan.duplicate(),
            status: self.status.duplicate(),
            payment_method_token: self.payment_method_token.duplicate(),
            updated_at_ms: self.updated_at_ms,
        }
    }
}

/// An invoice issued to a billing account.
#[derive(Clone, Debug, PartialEq, Eq)]
pub struct Invoice {
    pub id: InvoiceId,
    pub billing_account_id: BillingAccountId,
    pub amount_cents: i64,
    pub currency: String,
    pub status: String,
    pub issued_at_ms: i64,
}

impl Duplicate for Invoice {
    fn duplicate(&self) -> (r: Self) {
        Invoice {
            id: self.id.duplicate(),
            billing_account_id: self.billing_account_id.duplicate(),
            amount_cents: self.amount_cents,
            currency: self.currency.duplicate(),
            status: self.status.duplicate(),
            issued_at_ms: self.issued_at_ms,
        }
    }
}

/// Pending SSO state stamped when an SSO login starts and consumed when it completes.
#[derive(Clone, Debug, PartialEq, Eq)]
pub struct SsoState {
    pub state: String,
    pub scope_hint: String,
    pub expected_idp: Option<String>,
    pub created_at_ms: i64,
    pub expires_at_ms: i64,
}

impl Duplicate for SsoState {
    fn duplicate(&self) -> (r: Self) {
        SsoState {
            state: self.state.duplicate(),
            scope_hint: self.scope_hint.duplicate(),
            expected_idp: self.expected_idp.duplicate(),
            created_at_ms: self.created_at_ms,
            expires_at_ms: self.expires_at_ms,
        }
    }
}

} // verus!
