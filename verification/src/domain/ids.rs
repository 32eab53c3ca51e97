//! Typed identifiers for the domain entities. Each wraps the string form
//! that travels on the wire; the wrappers keep a `BillingAccountId` from
//! being passed where a `UserId` is expected.

use vstd::prelude::*;

use crate::text::string_from_chars;

verus! {

/// The canonical text of a random (version 4) UUID (uuid's `Uuid::new_v4`
/// rendered through `Display`): 36 characters, hyphenated.
#[verifier::external_body]
pub(crate) fn new_uuid_v4_string() -> (s: String)
    ensures
        s@.len() == 36,
{
    uuid::Uuid::new_v4().to_string()
}

/// `<prefix>_<uuid>`: the shape of every generated identifier.
pub open spec fn prefixed_id(prefix: Seq<char>, uuid: Seq<char>) -> Seq<char> {
    prefix + seq!['_'] + uuid
}

/// A fresh identifier `<prefix>_<uuid>` built from a random UUID.
pub fn fresh_prefixed_id(prefix: &str) -> (s: String)
    ensures
        exists|u: Seq<char>| u.len() == 36 && s@ == prefixed_id(prefix@, u),
{
    let u = new_uuid_v4_string();
    let mut s = String::from_str(prefix);
    let sep = string_from_chars(&['_']);
    s.append(sep.as_str());
    s.append(u.as_str());
    assert(s@ =~= prefixed_id(prefix@, u@));
    s
}

/// Identifier of a user.
#[derive(Clone, Debug, Eq, Hash)]
pub struct UserId(String);

impl View for UserId {
    type V = Seq<char>;

    closed spec fn view(&self) -> Seq<char> {
        self.0@
    }
}

impl UserId {
    /// The prefix of generated identifiers of this kind.
    pub open spec fn spec_prefix() -> Seq<char> {
        "u"@
    }

    /// A fresh identifier `u_<uuid>`.
    pub fn new() -> (id: Self)
        ensures
            exists|u: Seq<char>| u.len() == 36 && id@ == prefixed_id(Self::spec_prefix(), u),
    {
        proof {
            reveal_strlit("u");
        }
        UserId(fresh_prefixed_id("u"))
    }

    pub fn from_string(s: String) -> (id: Self)
        ensures
            id@ == s@,
    {
        UserId(s)
    }

    pub fn as_str(&self) -> (s: &str)
        ensures
            s@ == self@,
    {
        self.0.as_str()
    }

    pub fn into_string(self) -> (s: String)
        ensures
            s@ == self@,
    {
        self.0
    }

    /// The identifier's text (what `Display` shows).
    pub fn to_string(&self) -> (s: String)
        ensures
            s@ == self@,
    {
        self.0.clone()
    }

    pub fn same_as(&self, other: &Self) -> (b: bool)
        ensures
            b == (self@ == other@),
    {
        self.0 == other.0
    }
}

impl PartialEq for UserId {
    fn eq(&self, other: &Self) -> (b: bool) {
        self.0 == other.0
    }
}

impl vstd::std_specs::cmp::PartialEqSpecImpl for UserId {
    open spec fn obeys_eq_spec() -> bool {
        true
    }

    open spec fn eq_spec(&self, other: &Self) -> bool {
        self@ == other@
    }
}

impl crate::domain::Duplicate for UserId {
    fn duplicate(&self) -> (r: Self) {
        UserId(self.0.clone())
    }
}

impl crate::store::table::TableKey for UserId {
    fn key_eq(&self, other: &Self) -> (b: bool) {
        self.0 == other.0
    }
}

impl From<String> for UserId {
    fn from(s: String) -> (id: Self) {
        UserId(s)
    }
}

impl vstd::std_specs::convert::FromSpecImpl<String> for UserId {
    open spec fn obeys_from_spec() -> bool {
        true
    }

    closed spec fn from_spec(s: String) -> Self {
        UserId(s)
    }
}


/// Identifier of a login identity.
#[derive(Clone, Debug, Eq, Hash)]
pub struct IdentityId(String);

impl View for IdentityId {
    type V = Seq<char>;

    closed spec fn view(&self) -> Seq<char> {
        self.0@
    }
}

impl IdentityId {
    /// The prefix of generated identifiers of this kind.
    pub open spec fn spec_prefix() -> Seq<char> {
        "i"@
    }

    /// A fresh identifier `i_<uuid>`.
    pub fn new() -> (id: Self)
        ensures
            exists|u: Seq<char>| u.len() == 36 && id@ == prefixed_id(Self::spec_prefix(), u),
    {
        proof {
            reveal_strlit("i");
        }
        IdentityId(fresh_prefixed_id("i"))
    }

    pub fn from_string(s: String) -> (id: Self)
        ensures
            id@ == s@,
    {
        IdentityId(s)
    }

    pub fn as_str(&self) -> (s: &str)
        ensures
            s@ == self@,
    {
        self.0.as_str()
    }

    pub fn into_string(self) -> (s: String)
        ensures
            s@ == self@,
    {
        self.0
    }

    /// The identifier's text (what `Display` shows).
    pub fn to_string(&self) -> (s: String)
        ensures
            s@ == self@,
    {
        self.0.clone()
    }

    pub fn same_as(&self, other: &Self) -> (b: bool)
        ensures
            b == (self@ == other@),
    {
        self.0 == other.0
    }
}

impl PartialEq for IdentityId {
    fn eq(&self, other: &Self) -> (b: bool) {
        self.0 == other.0
    }
}

impl vstd::std_specs::cmp::PartialEqSpecImpl for IdentityId {
    open spec fn obeys_eq_spec() -> bool {
        true
    }

    open spec fn eq_spec(&self, other: &Self) -> bool {
        self@ == other@
    }
}

impl crate::domain::Duplicate for IdentityId {
    fn duplicate(&self) -> (r: Self) {
        IdentityId(self.0.clone())
    }
}

impl crate::store::table::TableKey for IdentityId {
    fn key_eq(&self, other: &Self) -> (b: bool) {
        self.0 == other.0
    }
}

impl From<String> for IdentityId {
    fn from(s: String) -> (id: Self) {
        IdentityId(s)
    }
}

impl vstd::std_specs::convert::FromSpecImpl<String> for IdentityId {
    open spec fn obeys_from_spec() -> bool {
        true
    }

    closed spec fn from_spec(s: String) -> Self {
        IdentityId(s)
    }
}


/// Identifier of a billing account.
#[derive(Clone, Debug, Eq, Hash)]
pub struct BillingAccountId(String);

impl View for BillingAccountId {
    type V = Seq<char>;

    closed spec fn view(&self) -> Seq<char> {
        self.0@
    }
}

impl BillingAccountId {
    /// The prefix of generated identifiers of this kind.
    pub open spec fn spec_prefix() -> Seq<char> {
        "ba"@
    }

    /// A fresh identifier `ba_<uuid>`.
    pub fn new() -> (id: Self)
        ensures
            exists|u: Seq<char>| u.len() == 36 && id@ == prefixed_id(Self::spec_prefix(), u),
    {
        proof {
            reveal_strlit("ba");
        }
        BillingAccountId(fresh_prefixed_id("ba"))
    }

    pub fn from_string(s: String) -> (id: Self)
        ensures
            id@ == s@,
    {
        BillingAccountId(s)
    }

    pub fn as_str(&self) -> (s: &str)
        ensures
            s@ == self@,
    {
        self.0.as_str()
    }

    pub fn into_string(self) -> (s: String)
        ensures
            s@ == self@,
    {
        self.0
    }

    /// The identifier's text (what `Display` shows).
    pub fn to_string(&self) -> (s: String)
        ensures
            s@ == self@,
    {
        self.0.clone()
    }

    pub fn same_as(&self, other: &Self) -> (b: bool)
        ensures
            b == (self@ == other@),
    {
        self.0 == other.0
    }
}

impl PartialEq for BillingAccountId {
    fn eq(&self, other: &Self) -> (b: bool) {
        self.0 == other.0
    }
}

impl vstd::std_specs::cmp::PartialEqSpecImpl for BillingAccountId {
    open spec fn obeys_eq_spec() -> bool {
        true
    }

    open spec fn eq_spec(&self, other: &Self) -> bool {
        self@ == other@
    }
}

impl crate::domain::Duplicate for BillingAccountId {
    fn duplicate(&self) -> (r: Self) {
        BillingAccountId(self.0.clone())
    }
}

impl crate::store::table::TableKey for BillingAccountId {
    fn key_eq(&self, other: &Self) -> (b: bool) {
        self.0 == other.0
    }
}

impl From<String> for BillingAccountId {
    fn from(s: String) -> (id: Self) {
        BillingAccountId(s)
    }
}

impl vstd::std_specs::convert::FromSpecImpl<String> for BillingAccountId {
    open spec fn obeys_from_spec() -> bool {
        true
    }

    closed spec fn from_spec(s: String) -> Self {
        BillingAccountId(s)
    }
}


/// Identifier of an organization.
#[derive(Clone, Debug, Eq, Hash)]
pub struct OrgId(String);

impl View for OrgId {
    type V = Seq<char>;

    closed spec fn view(&self) -> Seq<char> {
        self.0@
    }
}

impl OrgId {
    /// The prefix of generated identifiers of this kind.
    pub open spec fn spec_prefix() -> Seq<char> {
        "o"@
    }

    /// A fresh identifier `o_<uuid>`.
    pub fn new() -> (id: Self)
        ensures
            exists|u: Seq<char>| u.len() == 36 && id@ == prefixed_id(Self::spec_prefix(), u),
    {
        proof {
            reveal_strlit("o");
        }
        OrgId(fresh_prefixed_id("o"))
    }

    pub fn from_string(s: String) -> (id: Self)
        ensures
            id@ == s@,
    {
        OrgId(s)
    }

    pub fn as_str(&self) -> (s: &str)
        ensures
            s@ == self@,
    {
        self.0.as_str()
    }

    pub fn into_string(self) -> (s: String)
        ensures
            s@ == self@,
    {
        self.0
    }

    /// The identifier's text (what `Display` shows).
    pub fn to_string(&self) -> (s: String)
        ensures
            s@ == self@,
    {
        self.0.clone()
    }

    pub fn same_as(&self, other: &Self) -> (b: bool)
        ensures
            b == (self@ == other@),
    {
        self.0 == other.0
    }
}

impl PartialEq for OrgId {
    fn eq(&self, other: &Self) -> (b: bool) {
        self.0 == other.0
    }
}

impl vstd::std_specs::cmp::PartialEqSpecImpl for OrgId {
    open spec fn obeys_eq_spec() -> bool {
        true
    }

    open spec fn eq_spec(&self, other: &Self) -> bool {
        self@ == other@
    }
}

impl crate::domain::Duplicate for OrgId {
    fn duplicate(&self) -> (r: Self) {
        OrgId(self.0.clone())
    }
}

impl crate::store::table::TableKey for OrgId {
    fn key_eq(&self, other: &Self) -> (b: bool) {
        self.0 == other.0
    }
}

impl From<String> for OrgId {
    fn from(s: String) -> (id: Self) {
        OrgId(s)
    }
}

impl vstd::std_specs::convert::FromSpecImpl<String> for OrgId {
    open spec fn obeys_from_spec() -> bool {
        true
    }

    closed spec fn from_spec(s: String) -> Self {
        OrgId(s)
    }
}


/// Identifier of an invitation.
#[derive(Clone, Debug, Eq, Hash)]
pub struct InvitationId(String);

impl View for InvitationId {
    type V = Seq<char>;

    closed spec fn view(&self) -> Seq<char> {
        self.0@
    }
}

impl InvitationId {
    /// The prefix of generated identifiers of this kind.
    pub open spec fn spec_prefix() -> Seq<char> {
        "inv"@
    }

    /// A fresh identifier `inv_<uuid>`.
    pub fn new() -> (id: Self)
        ensures
            exists|u: Seq<char>| u.len() == 36 && id@ == prefixed_id(Self::spec_prefix(), u),
    {
        proof {
            reveal_strlit("inv");
        }
        InvitationId(fresh_prefixed_id("inv"))
    }

    pub fn from_string(s: String) -> (id: Self)
        ensures
            id@ == s@,
    {
        InvitationId(s)
    }

    pub fn as_str(&self) -> (s: &str)
        ensures
            s@ == self@,
    {
        self.0.as_str()
    }

    pub fn into_string(self) -> (s: String)
        ensures
            s@ == self@,
    {
        self.0
    }

    /// The identifier's text (what `Display` shows).
    pub fn to_string(&self) -> (s: String)
        ensures
            s@ == self@,
    {
        self.0.clone()
    }

    pub fn same_as(&self, other: &Self) -> (b: bool)
        ensures
            b == (self@ == other@),
    {
        self.0 == other.0
    }
}

impl PartialEq for InvitationId {
    fn eq(&self, other: &Self) -> (b: bool) {
        self.0 == other.0
    }
}

impl vstd::std_specs::cmp::PartialEqSpecImpl for InvitationId {
    open spec fn obeys_eq_spec() -> bool {
        true
    }

    open spec fn eq_spec(&self, other: &Self) -> bool {
        self@ == other@
    }
}

impl crate::domain::Duplicate for InvitationId {
    fn duplicate(&self) -> (r: Self) {
        InvitationId(self.0.clone())
    }
}

impl crate::store::table::TableKey for InvitationId {
    fn key_eq(&self, other: &Self) -> (b: bool) {
        self.0 == other.0
    }
}

impl From<String> for InvitationId {
    fn from(s: String) -> (id: Self) {
        InvitationId(s)
    }
}

impl vstd::std_specs::convert::FromSpecImpl<String> for InvitationId {
    open spec fn obeys_from_spec() -> bool {
        true
    }

    closed spec fn from_spec(s: String) -> Self {
        InvitationId(s)
    }
}


/// Identifier of an invoice.
#[derive(Clone, Debug, Eq, Hash)]
pub struct InvoiceId(String);

impl View for InvoiceId {
    type V = Seq<char>;

    closed spec fn view(&self) -> Seq<char> {
        self.0@
    }
}

impl InvoiceId {
    /// The prefix of generated identifiers of this kind.
    pub open spec fn spec_prefix() -> Seq<char> {
        "iv"@
    }

    /// A fresh identifier `iv_<uuid>`.
    pub fn new() -> (id: Self)
        ensures
            exists|u: Seq<char>| u.len() == 36 && id@ == prefixed_id(Self::spec_prefix(), u),
    {
        proof {
            reveal_strlit("iv");
        }
        InvoiceId(fresh_prefixed_id("iv"))
    }

    pub fn from_string(s: String) -> (id: Self)
        ensures
            id@ == s@,
    {
        InvoiceId(s)
    }

    pub fn as_str(&self) -> (s: &str)
        ensures
            s@ == self@,
    {
        self.0.as_str()
    }

    pub fn into_string(self) -> (s: String)
        ensures
            s@ == self@,
    {
        self.0
    }

    /// The identifier's text (what `Display` shows).
    pub fn to_string(&self) -> (s: String)
        ensures
            s@ == self@,
    {
        self.0.clone()
    }

    pub fn same_as(&self, other: &Self) -> (b: bool)
        ensures
            b == (self@ == other@),
    {
        self.0 == other.0
    }
}

impl PartialEq for InvoiceId {
    fn eq(&self, other: &Self) -> (b: bool) {
        self.0 == other.0
    }
}

impl vstd::std_specs::cmp::PartialEqSpecImpl for InvoiceId {
    open spec fn obeys_eq_spec() -> bool {
        true
    }

    open spec fn eq_spec(&self, other: &Self) -> bool {
        self@ == other@
    }
}

impl crate::domain::Duplicate for InvoiceId {
    fn duplicate(&self) -> (r: Self) {
        InvoiceId(self.0.clone())
    }
}

impl crate::store::table::TableKey for InvoiceId {
    fn key_eq(&self, other: &Self) -> (b: bool) {
        self.0 == other.0
    }
}

impl From<String> for InvoiceId {
    fn from(s: String) -> (id: Self) {
        InvoiceId(s)
    }
}

impl vstd::std_specs::convert::FromSpecImpl<String> for InvoiceId {
    open spec fn obeys_from_spec() -> bool {
        true
    }

    closed spec fn from_spec(s: String) -> Self {
        InvoiceId(s)
    }
}


} // verus!
