//! Invitation tokens: who is invited, by which email, into which billing
//! account or organization, with what role, and optionally which identity
//! provider they must sign in with. The nonce is consumed when the
//! invitation is accepted.

use vstd::prelude::*;
use vstd::utf8::*;

use crate::auth::keyring::Keyring;
use crate::auth::macaroon::{first_party, signature_chain, v2_token};
use crate::auth::tokens::{
    all_accepted, bad_value_error, bad_value_message, caveat, cv, encoded, lemma_scan_values_valid,
    mint_token, mintable, minted_token, missing, opt_bytes_view, owned_strs, purpose_caveat,
    read_verified, result_view, scan, scan_caveats, signed_under, strings_view, take_value,
    token_location, well_signed, FieldKind, TokenError, TokenErrorView,
};
use crate::domain::{InvitationId, Role, ScopeKind, TokenPurpose};
use crate::text::{format_i64, i64_decimal, parse_i64, parse_i64_spec};

verus! {

broadcast use {encode_utf8_valid_utf8, encode_utf8_decode_utf8};

#[derive(Clone, Debug)]
pub struct MintInvitationInput<'a> {
    pub invitation_id: &'a InvitationId,
    pub email: &'a str,
    pub scope_kind: ScopeKind,
    pub scope_id: &'a str,
    pub role: Role,
    pub required_idp: Option<&'a str>,
    pub nonce: &'a str,
    pub now_unix: i64,
    pub ttl_seconds: i64,
}

pub struct MintInvitationView {
    pub invitation_id: Seq<char>,
    pub email: Seq<char>,
    pub scope_kind: ScopeKind,
    pub scope_id: Seq<char>,
    pub role: Role,
    pub required_idp: Option<Seq<char>>,
    pub nonce: Seq<char>,
    pub now_unix: i64,
    pub ttl_seconds: i64,
}

impl<'a> View for MintInvitationInput<'a> {
    type V = MintInvitationView;

    open spec fn view(&self) -> MintInvitationView {
        MintInvitationView {
            invitation_id: self.invitation_id@,
            email: self.email@,
            scope_kind: self.scope_kind,
            scope_id: self.scope_id@,
            role: self.role,
            required_idp: match self.required_idp {
                Some(s) => Some(s@),
                None => None,
            },
            nonce: self.nonce@,
            now_unix: self.now_unix,
            ttl_seconds: self.ttl_seconds,
        }
    }
}

#[derive(Clone, Debug, PartialEq, Eq)]
pub struct InvitationToken {
    pub invitation_id: InvitationId,
    pub email: String,
    pub scope_kind: ScopeKind,
    pub scope_id: String,
    pub role: Role,
    pub required_idp: Option<String>,
    pub nonce: String,
    pub exp_unix: i64,
}

pub struct InvitationTokenView {
    pub invitation_id: Seq<char>,
    pub email: Seq<char>,
    pub scope_kind: ScopeKind,
    pub scope_id: Seq<char>,
    pub role: Role,
    pub required_idp: Option<Seq<char>>,
    pub nonce: Seq<char>,
    pub exp_unix: i64,
}

impl View for InvitationToken {
    type V = InvitationTokenView;

    open spec fn view(&self) -> InvitationTokenView {
        InvitationTokenView {
            invitation_id: self.invitation_id@,
            email: self.email@,
            scope_kind: self.scope_kind,
            scope_id: self.scope_id@,
            role: self.role,
            required_idp: match self.required_idp {
                Some(s) => Some(s@),
                None => None,
            },
            nonce: self.nonce@,
            exp_unix: self.exp_unix,
        }
    }
}

pub open spec fn invitation_identifier(id: Seq<char>) -> Seq<char> {
    "invitation:"@ + id
}

/// The caveats of an invitation token, in the order they are added.
pub open spec fn invitation_predicates(v: MintInvitationView) -> Seq<Seq<char>> {
    seq![
        purpose_caveat(TokenPurpose::Invitation),
        caveat("invitation_id"@, v.invitation_id),
        caveat("email"@, v.email),
        caveat("scope_kind"@, v.scope_kind.spec_str()),
        caveat("scope_id"@, v.scope_id),
        caveat("role"@, v.role.spec_str()),
        caveat("nonce"@, v.nonce),
        caveat("exp"@, i64_decimal(v.now_unix + v.ttl_seconds)),
    ] + match v.required_idp {
        Some(idp) => seq![caveat("required_idp"@, idp)],
        None => Seq::empty(),
    }
}

/// The invitation token minted under `key` for this input.
pub open spec fn invitation_token(key: Seq<u8>, v: MintInvitationView) -> Seq<char> {
    minted_token(key, invitation_identifier(v.invitation_id), invitation_predicates(v))
}

pub fn mint_invitation(keyring: &Keyring, input: MintInvitationInput<'_>) -> (r: Result<
    String,
    TokenError,
>)
    requires
        i64::MIN <= input.now_unix + input.ttl_seconds <= i64::MAX,
    ensures
        r matches Ok(t) ==> t@.len() > 0,
        r is Ok <==> mintable(
            invitation_identifier(input@.invitation_id),
            invitation_predicates(input@),
        ),
        r matches Ok(t) ==> t@ == invitation_token(keyring@, input@),
        r matches Ok(t) ==> well_signed(
            keyring@,
            t@,
            encode_utf8(invitation_identifier(input@.invitation_id)),
            Some(token_location()),
            encoded(invitation_predicates(input@)),
        ),
        r matches Err(e) ==> e@ is Malformed,
{
    let exp: i64 = input.now_unix + input.ttl_seconds;
    let mut identifier = String::from_str("invitation:");
    identifier.append(input.invitation_id.as_str());
    let mut ps: Vec<String> = Vec::new();
    ps.push(cv("purpose", TokenPurpose::Invitation.as_str()));
    ps.push(cv("invitation_id", input.invitation_id.as_str()));
    ps.push(cv("email", input.email));
    ps.push(cv("scope_kind", input.scope_kind.as_str()));
    ps.push(cv("scope_id", input.scope_id));
    ps.push(cv("role", input.role.as_str()));
    ps.push(cv("nonce", input.nonce));
    let e = format_i64(exp);
    ps.push(cv("exp", e.as_str()));
    match input.required_idp {
        Some(idp) => {
            ps.push(cv("required_idp", idp));
        },
        None => {},
    }
    proof {
        reveal_strlit("invitation:");
        reveal_strlit("purpose");
        reveal_strlit("invitation_id");
        reveal_strlit("email");
        reveal_strlit("scope_kind");
        reveal_strlit("scope_id");
        reveal_strlit("role");
        reveal_strlit("nonce");
        reveal_strlit("exp");
        reveal_strlit("required_idp");
        assert(ps@.map_values(|p: String| p@) =~= invitation_predicates(input@));
    }
    mint_token(keyring, identifier.as_str(), &ps)
}

pub open spec fn invitation_keys() -> Seq<Seq<char>> {
    seq![
        "purpose="@,
        "invitation_id="@,
        "email="@,
        "scope_kind="@,
        "scope_id="@,
        "role="@,
        "required_idp="@,
        "nonce="@,
        "exp="@,
    ]
}

pub open spec fn invitation_kinds() -> Seq<FieldKind> {
    seq![
        FieldKind::Text,
        FieldKind::Text,
        FieldKind::Text,
        FieldKind::Scope,
        FieldKind::Text,
        FieldKind::Role,
        FieldKind::Text,
        FieldKind::Text,
        FieldKind::Integer,
    ]
}

/// Prefixes the invitation verifier accepts besides the purpose and expiry.
pub open spec fn invitation_prefixes() -> Seq<Seq<char>> {
    seq![
        "invitation_id="@,
        "email="@,
        "scope_kind="@,
        "scope_id="@,
        "role="@,
        "nonce="@,
        "required_idp="@,
    ]
}

/// The invitation that verified caveats describe, or why they describe none.
pub open spec fn invitation_result(cavs: Seq<Option<Seq<u8>>>) -> Result<
    InvitationTokenView,
    TokenErrorView,
> {
    let keys = invitation_keys();
    let kinds = invitation_kinds();
    match scan(cavs, keys, kinds) {
        Err((i, v)) => Err(TokenErrorView::InvalidCaveat(bad_value_message(kinds[i], keys[i], v))),
        Ok(vals) => if vals[0] is None {
            Err(TokenErrorView::MissingCaveat("purpose"@))
        } else if vals[0]->0 != TokenPurpose::Invitation.spec_str() {
            Err(TokenErrorView::WrongPurpose(TokenPurpose::Invitation, vals[0]->0))
        } else if vals[1] is None {
            Err(TokenErrorView::MissingCaveat("invitation_id"@))
        } else if vals[2] is None {
            Err(TokenErrorView::MissingCaveat("email"@))
        } else if vals[3] is None {
            Err(TokenErrorView::MissingCaveat("scope_kind"@))
        } else if vals[4] is None {
            Err(TokenErrorView::MissingCaveat("scope_id"@))
        } else if vals[5] is None {
            Err(TokenErrorView::MissingCaveat("role"@))
        } else if vals[7] is None {
            Err(TokenErrorView::MissingCaveat("nonce"@))
        } else if vals[8] is None {
            Err(TokenErrorView::MissingCaveat("exp"@))
        } else {
            Ok(
                InvitationTokenView {
                    invitation_id: vals[1]->0,
                    email: vals[2]->0,
                    scope_kind: ScopeKind::spec_parse(vals[3]->0)->0,
                    scope_id: vals[4]->0,
                    role: Role::spec_parse(vals[5]->0)->0,
                    required_idp: vals[6],
                    nonce: vals[7]->0,
                    exp_unix: parse_i64_spec(vals[8]->0)->0,
                },
            )
        },
    }
}

/// What verifying `token` under `key` at `now_unix` may give: for every
/// reading of the token as a macaroon signed under the key, the
/// invitation its caveats describe, or an error when a caveat is not
/// accepted; and an invitation only when some accepted caveats describe it.
pub open spec fn invitation_verified(
    key: Seq<u8>,
    now_unix: i64,
    token: Seq<char>,
    r: Result<InvitationTokenView, TokenErrorView>,
) -> bool {
    &&& r matches Ok(inv) ==> exists|ps: Seq<Seq<u8>>|
        all_accepted(TokenPurpose::Invitation, invitation_prefixes(), now_unix, ps) && invitation_result(
            first_party(ps),
        ) == Ok::<InvitationTokenView, TokenErrorView>(inv)
    &&& forall|id: Seq<u8>, loc: Option<Seq<char>>, ps: Seq<Seq<u8>>|
        #![trigger v2_token(id, loc, ps, signature_chain(key, id, ps))]
        well_signed(key, token, id, loc, ps) ==> if all_accepted(
            TokenPurpose::Invitation,
            invitation_prefixes(),
            now_unix,
            ps,
        ) {
            r == invitation_result(first_party(ps))
        } else {
            r is Err
        }
}

pub fn verify_invitation(keyring: &Keyring, now_unix: i64, token: &str) -> (r: Result<
    InvitationToken,
    TokenError,
>)
    ensures
        invitation_verified(keyring@, now_unix, token@, result_view(r)),
        r is Ok ==> signed_under(keyring@, token@),
        r matches Ok(inv) ==> exists|ps: Seq<Seq<u8>>|
            all_accepted(TokenPurpose::Invitation, invitation_prefixes(), now_unix, ps)
                && invitation_result(first_party(ps)) == Ok::<InvitationTokenView, TokenErrorView>(
                inv@,
            ),
        forall|id: Seq<u8>, loc: Option<Seq<char>>, ps: Seq<Seq<u8>>|
            #![trigger v2_token(id, loc, ps, signature_chain(keyring@, id, ps))]
            well_signed(keyring@, token@, id, loc, ps) ==> if all_accepted(
                TokenPurpose::Invitation,
                invitation_prefixes(),
                now_unix,
                ps,
            ) {
                result_view(r) == invitation_result(first_party(ps))
            } else {
                r is Err
            },
{
    proof {
        reveal_strlit("invitation_id=");
        reveal_strlit("email=");
        reveal_strlit("scope_kind=");
        reveal_strlit("scope_id=");
        reveal_strlit("role=");
        reveal_strlit("nonce=");
        reveal_strlit("required_idp=");
        reveal_strlit("purpose=");
        reveal_strlit("exp=");
    }
    let prefixes = owned_strs(
        &["invitation_id=", "email=", "scope_kind=", "scope_id=", "role=", "nonce=", "required_idp="],
    );
    assert(strings_view(prefixes@) =~= invitation_prefixes());
    let preds = match read_verified(keyring, now_unix, token, TokenPurpose::Invitation, &prefixes) {
        Ok(p) => p,
        Err(e) => {
            return Err(e);
        },
    };
    let keys = owned_strs(
        &[
            "purpose=",
            "invitation_id=",
            "email=",
            "scope_kind=",
            "scope_id=",
            "role=",
            "required_idp=",
            "nonce=",
            "exp=",
        ],
    );
    let kinds: Vec<FieldKind> = vec![
        FieldKind::Text,
        FieldKind::Text,
        FieldKind::Text,
        FieldKind::Scope,
        FieldKind::Text,
        FieldKind::Role,
        FieldKind::Text,
        FieldKind::Text,
        FieldKind::Integer,
    ];
    assert(strings_view(keys@) =~= invitation_keys());
    assert(kinds@ =~= invitation_kinds());
    invitation_from_scan(&preds, &keys, &kinds)
}

fn invitation_from_scan(preds: &Vec<Option<Vec<u8>>>, keys: &Vec<String>, kinds: &Vec<FieldKind>) -> (r: Result<
    InvitationToken,
    TokenError,
>)
    requires
        strings_view(keys@) == invitation_keys(),
        kinds@ == invitation_kinds(),
    ensures
        result_view(r) == invitation_result(opt_bytes_view(preds@)),
{
    let ghost cavs = opt_bytes_view(preds@);
    proof {
        lemma_scan_values_valid(cavs, invitation_keys(), invitation_kinds());
        reveal_strlit("purpose");
        reveal_strlit("invitation_id");
        reveal_strlit("email");
        reveal_strlit("scope_kind");
        reveal_strlit("scope_id");
        reveal_strlit("role");
        reveal_strlit("nonce");
        reveal_strlit("exp");
        reveal_strlit("invitation");
    }
    let vals = match scan_caveats(preds, keys, kinds) {
        Ok(v) => v,
        Err((i, v)) => {
            return Err(bad_value_error(kinds[i], keys[i].as_str(), v.as_str()));
        },
    };
    let purpose = match take_value(&vals, 0) {
        Some(p) => p,
        None => {
            return Err(missing("purpose"));
        },
    };
    if purpose != String::from_str(TokenPurpose::Invitation.as_str()) {
        return Err(TokenError::WrongPurpose { expected: TokenPurpose::Invitation, found: purpose });
    }
    let invitation_id = match take_value(&vals, 1) {
        Some(x) => x,
        None => {
            return Err(missing("invitation_id"));
        },
    };
    let email = match take_value(&vals, 2) {
        Some(x) => x,
        None => {
            return Err(missing("email"));
        },
    };
    let scope_text = match take_value(&vals, 3) {
        Some(x) => x,
        None => {
            return Err(missing("scope_kind"));
        },
    };
    let scope_id = match take_value(&vals, 4) {
        Some(x) => x,
        None => {
            return Err(missing("scope_id"));
        },
    };
    let role_text = match take_value(&vals, 5) {
        Some(x) => x,
        None => {
            return Err(missing("role"));
        },
    };
    let required_idp = take_value(&vals, 6);
    let nonce = match take_value(&vals, 7) {
        Some(x) => x,
        None => {
            return Err(missing("nonce"));
        },
    };
    let exp_text = match take_value(&vals, 8) {
        Some(x) => x,
        None => {
            return Err(missing("exp"));
        },
    };
    let scope_kind = match ScopeKind::parse(scope_text.as_str()) {
        Ok(x) => x,
        Err(msg) => {
            return Err(TokenError::InvalidCaveat(msg));
        },
    };
    let role = match Role::parse(role_text.as_str()) {
        Ok(x) => x,
        Err(msg) => {
            return Err(TokenError::InvalidCaveat(msg));
        },
    };
    let exp_unix = match parse_i64(exp_text.as_str()) {
        Some(x) => x,
        None => {
            return Err(TokenError::InvalidCaveat(exp_text));
        },
    };
    Ok(
        InvitationToken {
            invitation_id: InvitationId::from_string(invitation_id),
            email,
            scope_kind,
            scope_id,
            role,
            required_idp,
            nonce,
            exp_unix,
        },
    )
}

} // verus!
