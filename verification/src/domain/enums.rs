//! Enumerated domain values. Their string forms travel on the wire and in
//! token caveats; each enum parses back from its own string form.

use vstd::prelude::*;

use crate::domain::ids::{BillingAccountId, OrgId};
use crate::domain::Duplicate;
use crate::text::{concat, strip_prefix, strip_prefix_spec};

verus! {

/// `s` as an owned string (the text of a literal).
fn owned(s: &str) -> (r: String)
    ensures
        r@ == s@,
{
    String::from_str(s)
}

// ---------------------------------------------------------------------
// Role
// ---------------------------------------------------------------------

#[derive(Copy, Clone, Debug, PartialEq, Eq, Hash, Structural)]
pub enum Role {
    Owner,
    Member,
}

impl View for Role {
    type V = Role;

    open spec fn view(&self) -> Role {
        *self
    }
}

impl Role {
    pub open spec fn spec_str(self) -> Seq<char> {
        match self {
            Role::Owner => "owner"@,
            Role::Member => "member"@,
        }
    }

    /// The role whose string form is `s`, if any.
    pub open spec fn spec_parse(s: Seq<char>) -> Option<Role> {
        if s == "owner"@ {
            Some(Role::Owner)
        } else if s == "member"@ {
            Some(Role::Member)
        } else {
            None
        }
    }

    pub fn as_str(&self) -> (s: &'static str)
        ensures
            s@ == self.spec_str(),
    {
        match self {
            Role::Owner => "owner",
            Role::Member => "member",
        }
    }

    /// Parse a role from its string form; the error text names the input.
    pub fn parse(s: &str) -> (r: Result<Role, String>)
        ensures
            match r {
                Ok(role) => Role::spec_parse(s@) == Some(role),
                Err(msg) => Role::spec_parse(s@) is None && msg@ == "unknown role: "@ + s@,
            },
    {
        let t = owned(s);
        if t == owned("owner") {
            Ok(Role::Owner)
        } else if t == owned("member") {
            Ok(Role::Member)
        } else {
            Err(concat("unknown role: ", s))
        }
    }

    /// Parsing a role's string form gives the role back.
    pub proof fn lemma_parse_as_str(role: Role)
        ensures
            Role::spec_parse(role.spec_str()) == Some(role),
    {
        reveal_strlit("owner");
        reveal_strlit("member");
        assert("owner"@ != "member"@) by {
            assert("owner"@.len() != "member"@.len());
        }
    }
}

impl std::str::FromStr for Role {
    type Err = String;

    fn from_str(s: &str) -> (r: Result<Self, Self::Err>)
        ensures
            match r {
                Ok(role) => Role::spec_parse(s@) == Some(role),
                Err(msg) => Role::spec_parse(s@) is None && msg@ == "unknown role: "@ + s@,
            },
    {
        Role::parse(s)
    }
}

impl Duplicate for Role {
    fn duplicate(&self) -> (r: Self) {
        *self
    }
}

// ---------------------------------------------------------------------
// ScopeKind
// ---------------------------------------------------------------------

#[derive(Copy, Clone, Debug, PartialEq, Eq, Hash, Structural)]
pub enum ScopeKind {
    Billing,
    Org,
}

impl View for ScopeKind {
    type V = ScopeKind;

    open spec fn view(&self) -> ScopeKind {
        *self
    }
}

impl ScopeKind {
    pub open spec fn spec_str(self) -> Seq<char> {
        match self {
            ScopeKind::Billing => "billing"@,
            ScopeKind::Org => "org"@,
        }
    }

    pub open spec fn spec_parse(s: Seq<char>) -> Option<ScopeKind> {
        if s == "billing"@ {
            Some(ScopeKind::Billing)
        } else if s == "org"@ {
            Some(ScopeKind::Org)
        } else {
            None
        }
    }

    pub fn as_str(&self) -> (s: &'static str)
        ensures
            s@ == self.spec_str(),
    {
        match self {
            ScopeKind::Billing => "billing",
            ScopeKind::Org => "org",
        }
    }

    /// Parse a scope kind from its string form; the error text names the input.
    pub fn parse(s: &str) -> (r: Result<ScopeKind, String>)
        ensures
            match r {
                Ok(k) => ScopeKind::spec_parse(s@) == Some(k),
                Err(msg) => ScopeKind::spec_parse(s@) is None && msg@ == "unknown scope kind: "@
                    + s@,
            },
    {
        let t = owned(s);
        if t == owned("billing") {
            Ok(ScopeKind::Billing)
        } else if t == owned("org") {
            Ok(ScopeKind::Org)
        } else {
            Err(concat("unknown scope kind: ", s))
        }
    }

    /// Parsing a scope kind's string form gives the scope kind back.
    pub proof fn lemma_parse_as_str(k: ScopeKind)
        ensures
            ScopeKind::spec_parse(k.spec_str()) == Some(k),
    {
        reveal_strlit("billing");
        reveal_strlit("org");
        assert("billing"@ != "org"@) by {
            assert("billing"@.len() != "org"@.len());
        }
    }
}

impl std::str::FromStr for ScopeKind {
    type Err = String;

    fn from_str(s: &str) -> (r: Result<Self, Self::Err>)
        ensures
            match r {
                Ok(k) => ScopeKind::spec_parse(s@) == Some(k),
                Err(msg) => ScopeKind::spec_parse(s@) is None && msg@ == "unknown scope kind: "@ + s@,
            },
    {
        ScopeKind::parse(s)
    }
}

impl Duplicate for ScopeKind {
    fn duplicate(&self) -> (r: Self) {
        *self
    }
}

// ---------------------------------------------------------------------
// AuthMethod
// ---------------------------------------------------------------------

/// How the current session was authenticated. Encoded as a caveat
/// (`auth_method=password` or `auth_method=sso:<idp_id>`) so that entering
/// a scope can be compared against the scope's SSO requirement.
#[derive(Clone, Debug, PartialEq, Eq, Hash)]
pub enum AuthMethod {
    Password,
    Sso(String),
}

pub enum AuthMethodView {
    Password,
    Sso(Seq<char>),
}

impl View for AuthMethod {
    type V = AuthMethodView;

    open spec fn view(&self) -> AuthMethodView {
        match self {
            AuthMethod::Password => AuthMethodView::Password,
            AuthMethod::Sso(idp) => AuthMethodView::Sso(idp@),
        }
    }
}

pub open spec fn auth_method_encoding(m: AuthMethodView) -> Seq<char> {
    match m {
        AuthMethodView::Password => "password"@,
        AuthMethodView::Sso(idp) => "sso:"@ + idp,
    }
}

pub open spec fn auth_method_decoding(s: Seq<char>) -> Option<AuthMethodView> {
    if s == "password"@ {
        Some(AuthMethodView::Password)
    } else {
        match strip_prefix_spec(s, "sso:"@) {
            Some(idp) => Some(AuthMethodView::Sso(idp)),
            None => None,
        }
    }
}

impl AuthMethod {
    pub fn encode(&self) -> (s: String)
        ensures
            s@ == auth_method_encoding(self@),
    {
        match self {
            AuthMethod::Password => owned("password"),
            AuthMethod::Sso(idp) => concat("sso:", idp.as_str()),
        }
    }

    pub fn decode(s: &str) -> (r: Option<AuthMethod>)
        ensures
            match r {
                Some(m) => auth_method_decoding(s@) == Some(m@),
                None => auth_method_decoding(s@) is None,
            },
    {
        if owned(s) == owned("password") {
            Some(AuthMethod::Password)
        } else {
            match strip_prefix(s, "sso:") {
                Some(idp) => Some(AuthMethod::Sso(idp)),
                None => None,
            }
        }
    }

    /// Whether the two methods are the same (same kind, same IdP).
    pub fn same_as(&self, other: &AuthMethod) -> (b: bool)
        ensures
            b == (self@ == other@),
    {
        match self {
            AuthMethod::Password => match other {
                AuthMethod::Password => true,
                AuthMethod::Sso(_) => false,
            },
            AuthMethod::Sso(a) => match other {
                AuthMethod::Password => false,
                AuthMethod::Sso(b) => {
                    let r = *a == *b;
                    proof {
                        if a@ == b@ {
                            assert(self@ == other@);
                        }
                    }
                    r
                },
            },
        }
    }

    /// Decoding an auth method's encoding gives the method back.
    pub proof fn lemma_decode_encode(m: AuthMethodView)
        ensures
            auth_method_decoding(auth_method_encoding(m)) == Some(m),
    {
        reveal_strlit("password");
        reveal_strlit("sso:");
        match m {
            AuthMethodView::Password => {},
            AuthMethodView::Sso(idp) => {
                let e = "sso:"@ + idp;
                assert(e.subrange(0, 4) =~= "sso:"@);
                assert(e.subrange(4, e.len() as int) =~= idp);
                assert(e != "password"@) by {
                    assert(e[0] == 's');
                }
            },
        }
    }
}

impl Duplicate for AuthMethod {
    fn duplicate(&self) -> (r: Self) {
        match self {
            AuthMethod::Password => AuthMethod::Password,
            AuthMethod::Sso(idp) => AuthMethod::Sso(idp.clone()),
        }
    }
}

// ---------------------------------------------------------------------
// IdentityProvider
// ---------------------------------------------------------------------

/// Identity provider tag stored on an identity. `password` is special;
/// everything else is OAuth/SSO.
#[derive(Clone, Debug, PartialEq, Eq, Hash)]
pub enum IdentityProvider {
    Password,
    GitHub,
    Google,
    Sso(String),
}

pub enum IdentityProviderView {
    Password,
    GitHub,
    Google,
    Sso(Seq<char>),
}

impl View for IdentityProvider {
    type V = IdentityProviderView;

    open spec fn view(&self) -> IdentityProviderView {
        match self {
            IdentityProvider::Password => IdentityProviderView::Password,
            IdentityProvider::GitHub => IdentityProviderView::GitHub,
            IdentityProvider::Google => IdentityProviderView::Google,
            IdentityProvider::Sso(idp) => IdentityProviderView::Sso(idp@),
        }
    }
}

pub open spec fn sso_provider_tag(idp: Seq<char>) -> Seq<char> {
    "sso:"@ + idp
}

pub open spec fn identity_provider_encoding(p: IdentityProviderView) -> Seq<char> {
    match p {
        IdentityProviderView::Password => "password"@,
        IdentityProviderView::GitHub => "github"@,
        IdentityProviderView::Google => "google"@,
        IdentityProviderView::Sso(idp) => sso_provider_tag(idp),
    }
}

pub open spec fn identity_provider_decoding(s: Seq<char>) -> Option<IdentityProviderView> {
    if s == "password"@ {
        Some(IdentityProviderView::Password)
    } else if s == "github"@ {
        Some(IdentityProviderView::GitHub)
    } else if s == "google"@ {
        Some(IdentityProviderView::Google)
    } else {
        match strip_prefix_spec(s, "sso:"@) {
            Some(idp) => Some(IdentityProviderView::Sso(idp)),
            None => None,
        }
    }
}

/// The provider tag of password identities.
pub fn password_provider_tag() -> (s: &'static str)
    ensures
        s@ == "password"@,
{
    "password"
}

impl IdentityProvider {
    pub fn encode(&self) -> (s: String)
        ensures
            s@ == identity_provider_encoding(self@),
    {
        match self {
            IdentityProvider::Password => owned("password"),
            IdentityProvider::GitHub => owned("github"),
            IdentityProvider::Google => owned("google"),
            IdentityProvider::Sso(idp) => IdentityProvider::sso_str(idp.as_str()),
        }
    }

    pub fn decode(s: &str) -> (r: Option<IdentityProvider>)
        ensures
            match r {
                Some(p) => identity_provider_decoding(s@) == Some(p@),
                None => identity_provider_decoding(s@) is None,
            },
    {
        let t = owned(s);
        if t == owned("password") {
            Some(IdentityProvider::Password)
        } else if t == owned("github") {
            Some(IdentityProvider::GitHub)
        } else if t == owned("google") {
            Some(IdentityProvider::Google)
        } else {
            match strip_prefix(s, "sso:") {
                Some(idp) => Some(IdentityProvider::Sso(idp)),
                None => None,
            }
        }
    }

    /// The `sso:<idp>` tag of an SSO provider.
    pub fn sso_str(idp_id: &str) -> (s: String)
        ensures
            s@ == sso_provider_tag(idp_id@),
    {
        concat("sso:", idp_id)
    }

    /// Decoding a provider's tag gives the provider back.
    pub proof fn lemma_decode_encode(p: IdentityProviderView)
        ensures
            identity_provider_decoding(identity_provider_encoding(p)) == Some(p),
    {
        reveal_strlit("password");
        reveal_strlit("github");
        reveal_strlit("google");
        reveal_strlit("sso:");
        match p {
            IdentityProviderView::Sso(idp) => {
                let e = "sso:"@ + idp;
                assert(e.subrange(0, 4) =~= "sso:"@);
                assert(e.subrange(4, e.len() as int) =~= idp);
                assert(e[0] == 's');
                assert("password"@[0] == 'p');
                assert("github"@[0] == 'g');
                assert("google"@[0] == 'g');
                assert(e != "password"@);
                assert(e != "github"@);
                assert(e != "google"@);
            },
            _ => {
                assert("password"@ != "github"@) by {
                    assert("password"@.len() != "github"@.len());
                }
                assert("password"@ != "google"@) by {
                    assert("password"@.len() != "google"@.len());
                }
                assert("github"@ != "google"@) by {
                    assert("github"@[1] != "google"@[1]);
                }
            },
        }
    }
}

// ---------------------------------------------------------------------
// ScopeTarget
// ---------------------------------------------------------------------

/// A billing account or an organization: where a membership, an
/// invitation or an SSO configuration applies.
#[derive(Clone, Debug, PartialEq, Eq)]
pub enum ScopeTarget {
    Billing(BillingAccountId),
    Org(OrgId),
}

pub enum ScopeTargetView {
    Billing(Seq<char>),
    Org(Seq<char>),
}

impl View for ScopeTarget {
    type V = ScopeTargetView;

    open spec fn view(&self) -> ScopeTargetView {
        match self {
            ScopeTarget::Billing(id) => ScopeTargetView::Billing(id@),
            ScopeTarget::Org(id) => ScopeTargetView::Org(id@),
        }
    }
}

impl ScopeTargetView {
    pub open spec fn kind(self) -> ScopeKind {
        match self {
            ScopeTargetView::Billing(_) => ScopeKind::Billing,
            ScopeTargetView::Org(_) => ScopeKind::Org,
        }
    }

    pub open spec fn id(self) -> Seq<char> {
        match self {
            ScopeTargetView::Billing(id) => id,
            ScopeTargetView::Org(id) => id,
        }
    }

    pub open spec fn from_parts(kind: ScopeKind, id: Seq<char>) -> ScopeTargetView {
        match kind {
            ScopeKind::Billing => ScopeTargetView::Billing(id),
            ScopeKind::Org => ScopeTargetView::Org(id),
        }
    }
}

impl ScopeTarget {
    pub fn scope_kind(&self) -> (k: ScopeKind)
        ensures
            k == self@.kind(),
    {
        match self {
            ScopeTarget::Billing(_) => ScopeKind::Billing,
            ScopeTarget::Org(_) => ScopeKind::Org,
        }
    }

    pub fn scope_id_str(&self) -> (s: &str)
        ensures
            s@ == self@.id(),
    {
        match self {
            ScopeTarget::Billing(id) => id.as_str(),
            ScopeTarget::Org(id) => id.as_str(),
        }
    }

    pub fn into_scope_id_string(self) -> (s: String)
        ensures
            s@ == self@.id(),
    {
        match self {
            ScopeTarget::Billing(id) => id.into_string(),
            ScopeTarget::Org(id) => id.into_string(),
        }
    }

    pub fn from_parts(kind: ScopeKind, id: String) -> (t: ScopeTarget)
        ensures
            t@ == ScopeTargetView::from_parts(kind, id@),
    {
        match kind {
            ScopeKind::Billing => ScopeTarget::Billing(BillingAccountId::from_string(id)),
            ScopeKind::Org => ScopeTarget::Org(OrgId::from_string(id)),
        }
    }

    /// Splitting a target into kind and id and joining them gives it back.
    pub proof fn lemma_from_parts(t: ScopeTargetView)
        ensures
            ScopeTargetView::from_parts(t.kind(), t.id()) == t,
    {
    }
}

impl Duplicate for ScopeTarget {
    fn duplicate(&self) -> (r: Self) {
        match self {
            ScopeTarget::Billing(id) => ScopeTarget::Billing(id.duplicate()),
            ScopeTarget::Org(id) => ScopeTarget::Org(id.duplicate()),
        }
    }
}

// ---------------------------------------------------------------------
// TokenPurpose
// ---------------------------------------------------------------------

/// `purpose=` caveat values for the four kinds of token this service
/// mints. Verification rejects a token whose purpose does not match.
#[derive(Copy, Clone, Debug, PartialEq, Eq, Structural)]
pub enum TokenPurpose {
    Session,
    Invitation,
    PasswordReset,
    EmailVerify,
}

impl View for TokenPurpose {
    type V = TokenPurpose;

    open spec fn view(&self) -> TokenPurpose {
        *self
    }
}

impl TokenPurpose {
    pub open spec fn spec_str(self) -> Seq<char> {
        match self {
            TokenPurpose::Session => "session"@,
            TokenPurpose::Invitation => "invitation"@,
            TokenPurpose::PasswordReset => "password_reset"@,
            TokenPurpose::EmailVerify => "email_verify"@,
        }
    }

    pub fn as_str(&self) -> (s: &'static str)
        ensures
            s@ == self.spec_str(),
    {
        match self {
            TokenPurpose::Session => "session",
            TokenPurpose::Invitation => "invitation",
            TokenPurpose::PasswordReset => "password_reset",
            TokenPurpose::EmailVerify => "email_verify",
        }
    }

    /// Distinct purposes have distinct string forms.
    pub proof fn lemma_str_injective(a: TokenPurpose, b: TokenPurpose)
        ensures
            a.spec_str() == b.spec_str() <==> a == b,
    {
        reveal_strlit("session");
        reveal_strlit("invitation");
        reveal_strlit("password_reset");
        reveal_strlit("email_verify");
        if a != b {
            assert(a.spec_str().len() != b.spec_str().len() || a.spec_str()[0] != b.spec_str()[0]
                || a.spec_str()[1] != b.spec_str()[1]);
        }
    }
}

} // verus!
