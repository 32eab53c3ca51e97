//! Mint and verify the four kinds of macaroon this service issues.
//!
//! Every token carries `purpose=<session|invitation|password_reset|email_verify>`
//! and `exp=<unix seconds>`. Session tokens add user, scope, role and
//! auth-method caveats; one-shot tokens add a nonce that the use RPC
//! consumes. Verification reads no storage.

use vstd::prelude::*;
use vstd::string::StringSliceAdditionalSpecFns;
use vstd::utf8::*;

use crate::auth::keyring::Keyring;
use crate::auth::macaroon::{
    accepted_by, add_first_party_caveat, all_first_party, caveat_predicates, caveats_accepted,
    create_macaroon, deserialize_macaroon, exp_prefix_bytes, expiry_after, first_party,
    macaroon_caveats, macaroon_deserialized, macaroon_identifier, signature_accepted, macaroon_location, macaroon_signature, max_caveats,
    max_field_bytes, new_verifier, satisfy_exact, satisfy_expiry_after, satisfy_prefix,
    serialize_v2, signature_chain, v2_parts_readable, v2_token, verifier_accepts, verifier_exact,
    verifier_expiry_bounds, verifier_prefixes, verify_macaroon, MacaroonFailure,
};
use crate::auth::session::{SessionContext, SessionView};
use crate::domain::enums::{auth_method_decoding, auth_method_encoding, AuthMethodView};
use crate::domain::{
    AuthMethod, BillingAccountId, Duplicate, OrgId, Role, ScopeKind, TokenPurpose, UserId,
};
use crate::text::{
    bytes_start_with, format_i64, i64_decimal, parse_i64, parse_i64_spec,
    strip_prefix, strip_prefix_spec, string_from_utf8,
};

pub use crate::auth::invitation_token::{
    mint_invitation, verify_invitation, InvitationToken, MintInvitationInput,
};
pub use crate::auth::one_shot_token::{
    mint_email_verify, mint_password_reset, verify_email_verify, verify_password_reset,
    EmailVerifyToken, PasswordResetToken,
};

verus! {

broadcast use {encode_utf8_valid_utf8, encode_utf8_decode_utf8};

// ---------------------------------------------------------------------
// Errors
// ---------------------------------------------------------------------

#[derive(Debug)]
pub enum TokenError {
    Malformed(String),
    Expired,
    InvalidSignature,
    WrongPurpose { expected: TokenPurpose, found: String },
    MissingCaveat(&'static str),
    InvalidCaveat(String),
}

pub enum TokenErrorView {
    Malformed(Seq<char>),
    Expired,
    InvalidSignature,
    WrongPurpose(TokenPurpose, Seq<char>),
    MissingCaveat(Seq<char>),
    InvalidCaveat(Seq<char>),
}

impl View for TokenError {
    type V = TokenErrorView;

    open spec fn view(&self) -> TokenErrorView {
        match self {
            TokenError::Malformed(s) => TokenErrorView::Malformed(s@),
            TokenError::Expired => TokenErrorView::Expired,
            TokenError::InvalidSignature => TokenErrorView::InvalidSignature,
            TokenError::WrongPurpose { expected, found } => TokenErrorView::WrongPurpose(
                *expected,
                found@,
            ),
            TokenError::MissingCaveat(c) => TokenErrorView::MissingCaveat(c@),
            TokenError::InvalidCaveat(c) => TokenErrorView::InvalidCaveat(c@),
        }
    }
}

pub open spec fn token_error_of_failure(f: MacaroonFailure) -> TokenErrorView {
    match f {
        MacaroonFailure::InvalidSignature => TokenErrorView::InvalidSignature,
        MacaroonFailure::CaveatNotSatisfied(s) => TokenErrorView::InvalidCaveat(s@),
        MacaroonFailure::DeserializationError(s) => TokenErrorView::Malformed(s@),
        MacaroonFailure::Other(s) => TokenErrorView::Malformed(s@),
    }
}

/// How a macaroon failure is reported: a bad signature as such, an
/// unsatisfied caveat as an invalid caveat, everything else as malformed.
pub fn token_error_from(f: MacaroonFailure) -> (e: TokenError)
    ensures
        e@ == token_error_of_failure(f),
{
    match f {
        MacaroonFailure::InvalidSignature => TokenError::InvalidSignature,
        MacaroonFailure::CaveatNotSatisfied(s) => TokenError::InvalidCaveat(s),
        MacaroonFailure::DeserializationError(s) => TokenError::Malformed(s),
        MacaroonFailure::Other(s) => TokenError::Malformed(s),
    }
}

/// The message of a token error.
pub open spec fn token_error_message(e: TokenErrorView) -> Seq<char> {
    match e {
        TokenErrorView::Malformed(s) => "malformed token: "@ + s,
        TokenErrorView::Expired => "token expired"@,
        TokenErrorView::InvalidSignature => "invalid signature"@,
        TokenErrorView::WrongPurpose(expected, found) => "wrong token purpose: expected "@
            + expected.spec_str() + ", got "@ + found,
        TokenErrorView::MissingCaveat(c) => "missing caveat: "@ + c,
        TokenErrorView::InvalidCaveat(c) => "invalid caveat: "@ + c,
    }
}

impl TokenError {
    /// The error's message.
    pub fn to_string(&self) -> (s: String)
        ensures
            s@ == token_error_message(self@),
    {
        proof {
            reveal_strlit("malformed token: ");
            reveal_strlit("token expired");
            reveal_strlit("invalid signature");
            reveal_strlit("wrong token purpose: expected ");
            reveal_strlit(", got ");
            reveal_strlit("missing caveat: ");
            reveal_strlit("invalid caveat: ");
        }
        match self {
            TokenError::Malformed(m) => {
                let mut s = String::from_str("malformed token: ");
                s.append(m.as_str());
                s
            },
            TokenError::Expired => String::from_str("token expired"),
            TokenError::InvalidSignature => String::from_str("invalid signature"),
            TokenError::WrongPurpose { expected, found } => {
                let mut s = String::from_str("wrong token purpose: expected ");
                s.append(expected.as_str());
                s.append(", got ");
                s.append(found.as_str());
                s
            },
            TokenError::MissingCaveat(c) => {
                let mut s = String::from_str("missing caveat: ");
                s.append(c);
                s
            },
            TokenError::InvalidCaveat(c) => {
                let mut s = String::from_str("invalid caveat: ");
                s.append(c.as_str());
                s
            },
        }
    }
}

// ---------------------------------------------------------------------
// Caveat text
// ---------------------------------------------------------------------

/// `<prefix>=<value>`.
pub open spec fn caveat(prefix: Seq<char>, value: Seq<char>) -> Seq<char> {
    prefix + "="@ + value
}

pub fn cv(prefix: &str, value: &str) -> (s: String)
    ensures
        s@ == caveat(prefix@, value@),
{
    let mut s = String::from_str(prefix);
    s.append("=");
    s.append(value);
    s
}

/// The token location every minted macaroon carries.
pub open spec fn token_location() -> Seq<char> {
    "workers-multitenant"@
}

/// Encoding a concatenation encodes the parts one after the other.
pub proof fn lemma_encode_utf8_concat(a: Seq<char>, b: Seq<char>)
    ensures
        encode_utf8(a + b) == encode_utf8(a) + encode_utf8(b),
    decreases a.len(),
{
    if a.len() == 0 {
        assert(a + b =~= b);
    } else {
        lemma_encode_utf8_concat(a.drop_first(), b);
        assert((a + b).drop_first() =~= a.drop_first() + b);
        assert((a + b)[0] == a[0]);
    }
}

/// Whether an `exp=<n>` predicate has `n` later than `now`; this decides
/// the verifier's expiry satisfier.
pub fn expiry_satisfied(c: &[u8], now: i64) -> (b: bool)
    ensures
        b == expiry_after(c@, now),
{
    let p: Vec<u8> = vec![101u8, 120u8, 112u8, 61u8];
    assert(p@ =~= exp_prefix_bytes());
    if !bytes_start_with(c, p.as_slice()) {
        return false;
    }
    let mut rest: Vec<u8> = Vec::new();
    let mut i: usize = 4;
    while i < c.len()
        invariant
            4 <= i <= c.len(),
            rest@ == c@.subrange(4, i as int),
        decreases c.len() - i,
    {
        rest.push(c[i]);
        i = i + 1;
        assert(rest@ =~= c@.subrange(4, i as int));
    }
    match string_from_utf8(rest.as_slice()) {
        None => false,
        Some(text) => match parse_i64(text.as_str()) {
            None => false,
            Some(when) => when > now,
        },
    }
}

// ---------------------------------------------------------------------
// Minting
// ---------------------------------------------------------------------

pub open spec fn encoded(ps: Seq<Seq<char>>) -> Seq<Seq<u8>> {
    ps.map_values(|p: Seq<char>| encode_utf8(p))
}

/// A token can be minted: the identifier is non-empty and no field is
/// larger than libmacaroon allows.
pub open spec fn mintable(identifier: Seq<char>, predicates: Seq<Seq<char>>) -> bool {
    &&& 0 < encode_utf8(identifier).len() <= max_field_bytes()
    &&& predicates.len() <= max_caveats()
    &&& forall|i: int|
        0 <= i < predicates.len() ==> encode_utf8(#[trigger] predicates[i]).len() <= max_field_bytes()
}

/// The text of the token minted under `key` with this identifier and these
/// first-party predicates, in order.
pub open spec fn minted_token(key: Seq<u8>, identifier: Seq<char>, predicates: Seq<Seq<char>>) -> Seq<
    char,
> {
    v2_token(
        encode_utf8(identifier),
        Some(token_location()),
        encoded(predicates),
        signature_chain(key, encode_utf8(identifier), encoded(predicates)),
    )
}

pub(crate) fn mint_token(keyring: &Keyring, identifier: &str, predicates: &Vec<String>) -> (r: Result<
    String,
    TokenError,
>)
    ensures
        r matches Ok(t) ==> t@.len() > 0,
        r is Ok <==> mintable(identifier@, predicates@.map_values(|p: String| p@)),
        r matches Ok(t) ==> t@ == minted_token(
            keyring@,
            identifier@,
            predicates@.map_values(|p: String| p@),
        ),
        r matches Ok(t) ==> well_signed(
            keyring@,
            t@,
            encode_utf8(identifier@),
            Some(token_location()),
            encoded(predicates@.map_values(|p: String| p@)),
        ),
        r matches Err(e) ==> e@ is Malformed,
{
    let ghost ps = predicates@.map_values(|p: String| p@);
    proof {
        reveal_strlit("workers-multitenant");
        vstd::string::is_ascii_spec_bytes("workers-multitenant");
    }
    let mut m = match create_macaroon("workers-multitenant", keyring.root(), identifier) {
        Ok(m) => m,
        Err(f) => {
            proof {
                assert(!mintable(identifier@, ps));
            }
            return Err(token_error_from(f));
        },
    };
    let mut i: usize = 0;
    while i < predicates.len()
        invariant
            ps == predicates@.map_values(|p: String| p@),
            i <= predicates.len(),
            0 < encode_utf8(identifier@).len() <= max_field_bytes(),
            forall|j: int| 0 <= j < i ==> encode_utf8(#[trigger] ps[j]).len() <= max_field_bytes(),
            i <= max_caveats(),
            macaroon_identifier(m) == encode_utf8(identifier@),
            macaroon_location(m) == Some(token_location()),
            macaroon_caveats(m) == first_party(encoded(ps.subrange(0, i as int))),
            macaroon_signature(m) == signature_chain(
                keyring@,
                encode_utf8(identifier@),
                encoded(ps.subrange(0, i as int)),
            ),
            macaroon_signature(m).len() == 32,
        decreases predicates.len() - i,
    {
        let ghost before = m;
        match add_first_party_caveat(&mut m, predicates[i].as_str()) {
            Ok(()) => {},
            Err(f) => {
                proof {
                    assert(macaroon_caveats(before).len() == i);
                    if i < max_caveats() {
                        assert(encode_utf8(ps[i as int]).len() > max_field_bytes());
                    }
                    assert(!mintable(identifier@, ps));
                }
                return Err(token_error_from(f));
            },
        }
        proof {
            let sub = ps.subrange(0, i + 1);
            assert(sub.drop_last() =~= ps.subrange(0, i as int));
            assert(encoded(sub).drop_last() =~= encoded(ps.subrange(0, i as int)));
            assert(first_party(encoded(sub)) =~= first_party(encoded(ps.subrange(0, i as int))).push(
                Some(encode_utf8(ps[i as int])),
            ));
        }
        i = i + 1;
    }
    proof {
        assert(ps.subrange(0, i as int) =~= ps);
    }
    let t = serialize_v2(&m);
    match t {
        Ok(t) => {
            proof {
                assert(all_first_party(macaroon_caveats(m)));
                assert(macaroon_caveats(m).map_values(|c: Option<Seq<u8>>| c->0) =~= encoded(ps));
                assert(encode_utf8(token_location()).len() <= max_field_bytes());
                assert(v2_parts_readable(
                    encode_utf8(identifier@),
                    Some(token_location()),
                    encoded(ps),
                    signature_chain(keyring@, encode_utf8(identifier@), encoded(ps)),
                ));
            }
            Ok(t)
        },
        Err(f) => Err(token_error_from(f)),
    }
}

// ---------------------------------------------------------------------
// Reading caveats
// ---------------------------------------------------------------------

/// What a caveat's value must be for the token to be accepted.
#[derive(Copy, Clone)]
pub enum FieldKind {
    Text,
    Role,
    Scope,
    Method,
    Integer,
}

pub open spec fn field_valid(kind: FieldKind, v: Seq<char>) -> bool {
    match kind {
        FieldKind::Text => true,
        FieldKind::Role => Role::spec_parse(v) is Some,
        FieldKind::Scope => ScopeKind::spec_parse(v) is Some,
        FieldKind::Method => auth_method_decoding(v) is Some,
        FieldKind::Integer => parse_i64_spec(v) is Some,
    }
}

/// The text of a first-party caveat, when it is UTF-8.
pub open spec fn caveat_text(c: Option<Seq<u8>>) -> Option<Seq<char>> {
    match c {
        Some(b) => if valid_utf8(b) {
            Some(decode_utf8(b))
        } else {
            None
        },
        None => None,
    }
}

/// The first key (from index `from` on) that `t` starts with, and what
/// follows it.
pub open spec fn classify(t: Seq<char>, keys: Seq<Seq<char>>, from: int) -> Option<(int, Seq<char>)>
    decreases keys.len() - from,
{
    if from < 0 || from >= keys.len() {
        None
    } else {
        match strip_prefix_spec(t, keys[from]) {
            Some(v) => Some((from, v)),
            None => classify(t, keys, from + 1),
        }
    }
}

/// Reading caveats in order: each caveat that starts with one of the keys
/// binds that key (a later binding replaces an earlier one); the first
/// value that is not valid for its key's kind stops the reading.
pub open spec fn scan(cavs: Seq<Option<Seq<u8>>>, keys: Seq<Seq<char>>, kinds: Seq<FieldKind>) -> Result<
    Seq<Option<Seq<char>>>,
    (int, Seq<char>),
>
    decreases cavs.len(),
{
    if cavs.len() == 0 {
        Ok(Seq::new(keys.len(), |i: int| None))
    } else {
        match scan(cavs.drop_last(), keys, kinds) {
            Err(e) => Err(e),
            Ok(vals) => match caveat_text(cavs.last()) {
                None => Ok(vals),
                Some(t) => match classify(t, keys, 0) {
                    None => Ok(vals),
                    Some((i, v)) => if field_valid(kinds[i], v) {
                        Ok(vals.update(i, Some(v)))
                    } else {
                        Err((i, v))
                    },
                },
            },
        }
    }
}

pub open spec fn strings_view(v: Seq<String>) -> Seq<Seq<char>> {
    v.map_values(|s: String| s@)
}

pub open spec fn opt_strings_view(v: Seq<Option<String>>) -> Seq<Option<Seq<char>>> {
    v.map_values(|o: Option<String>| match o {
        Some(s) => Some(s@),
        None => None,
    })
}

pub open spec fn opt_bytes_view(v: Seq<Option<Vec<u8>>>) -> Seq<Option<Seq<u8>>> {
    v.map_values(|o: Option<Vec<u8>>| match o {
        Some(b) => Some(b@),
        None => None,
    })
}

fn classify_text(t: &str, keys: &Vec<String>) -> (r: Option<(usize, String)>)
    ensures
        match r {
            Some((i, v)) => classify(t@, strings_view(keys@), 0) == Some((i as int, v@)),
            None => classify(t@, strings_view(keys@), 0) is None,
        },
        r matches Some((i, _)) ==> i < keys@.len(),
{
    let ghost ks = strings_view(keys@);
    let mut i: usize = 0;
    while i < keys.len()
        invariant
            ks == strings_view(keys@),
            i <= keys.len(),
            classify(t@, ks, 0) == classify(t@, ks, i as int),
        decreases keys.len() - i,
    {
        match strip_prefix(t, keys[i].as_str()) {
            Some(v) => {
                return Some((i, v));
            },
            None => {},
        }
        i = i + 1;
    }
    None
}

/// Once reading stops at an invalid value, further caveats change nothing.
proof fn lemma_scan_err_extends(
    cavs: Seq<Option<Seq<u8>>>,
    keys: Seq<Seq<char>>,
    kinds: Seq<FieldKind>,
    n: int,
)
    requires
        0 <= n <= cavs.len(),
        scan(cavs.subrange(0, n), keys, kinds) is Err,
    ensures
        scan(cavs, keys, kinds) == scan(cavs.subrange(0, n), keys, kinds),
    decreases cavs.len() - n,
{
    if n < cavs.len() {
        let sub = cavs.subrange(0, n + 1);
        assert(sub.drop_last() =~= cavs.subrange(0, n));
        lemma_scan_err_extends(cavs, keys, kinds, n + 1);
    } else {
        assert(cavs.subrange(0, n) =~= cavs);
    }
}

pub(crate) fn scan_caveats(preds: &Vec<Option<Vec<u8>>>, keys: &Vec<String>, kinds: &Vec<FieldKind>) -> (r: Result<
    Vec<Option<String>>,
    (usize, String),
>)
    requires
        keys.len() == kinds.len(),
    ensures
        match r {
            Ok(vals) => scan(opt_bytes_view(preds@), strings_view(keys@), kinds@) == Ok::<Seq<Option<Seq<char>>>, (int, Seq<char>)>(
                opt_strings_view(vals@),
            ),
            Err((i, v)) => scan(opt_bytes_view(preds@), strings_view(keys@), kinds@) == Err::<Seq<Option<Seq<char>>>, (int, Seq<char>)>(
                (i as int, v@),
            ),
        },
{
    let ghost cavs = opt_bytes_view(preds@);
    let ghost ks = strings_view(keys@);
    let mut vals: Vec<Option<String>> = Vec::new();
    let mut k: usize = 0;
    while k < keys.len()
        invariant
            k <= keys.len(),
            vals@.len() == k,
            forall|j: int| 0 <= j < k ==> (#[trigger] vals@[j]) is None,
        decreases keys.len() - k,
    {
        vals.push(None);
        k = k + 1;
    }
    proof {
        assert(opt_strings_view(vals@) =~= Seq::new(ks.len(), |i: int| None::<Seq<char>>));
        assert(cavs.subrange(0, 0) =~= Seq::<Option<Seq<u8>>>::empty());
    }
    let mut n: usize = 0;
    while n < preds.len()
        invariant
            cavs == opt_bytes_view(preds@),
            ks == strings_view(keys@),
            keys.len() == kinds.len(),
            vals@.len() == keys.len(),
            n <= preds.len(),
            scan(cavs.subrange(0, n as int), ks, kinds@) == Ok::<
                Seq<Option<Seq<char>>>,
                (int, Seq<char>),
            >(opt_strings_view(vals@)),
        decreases preds.len() - n,
    {
        proof {
            let sub = cavs.subrange(0, n + 1);
            assert(sub.drop_last() =~= cavs.subrange(0, n as int));
            assert(sub.last() == cavs[n as int]);
        }
        let text = match &preds[n] {
            Some(b) => string_from_utf8(b.as_slice()),
            None => None,
        };
        match text {
            None => {},
            Some(t) => {
                match classify_text(t.as_str(), keys) {
                    None => {},
                    Some((i, v)) => {
                        let ok = match kinds[i] {
                            FieldKind::Text => true,
                            FieldKind::Role => Role::parse(v.as_str()).is_ok(),
                            FieldKind::Scope => ScopeKind::parse(v.as_str()).is_ok(),
                            FieldKind::Method => AuthMethod::decode(v.as_str()).is_some(),
                            FieldKind::Integer => parse_i64(v.as_str()).is_some(),
                        };
                        if !ok {
                            proof {
                                lemma_scan_err_extends(cavs, ks, kinds@, n + 1);
                            }
                            return Err((i, v));
                        }
                        let ghost before = vals@;
                        vals.set(i, Some(v));
                        proof {
                            assert(opt_strings_view(vals@) =~= opt_strings_view(before).update(
                                i as int,
                                Some(v@),
                            ));
                        }
                    },
                }
            },
        }
        n = n + 1;
    }
    proof {
        assert(cavs.subrange(0, n as int) =~= cavs);
    }
    Ok(vals)
}

/// The message of an invalid caveat value.
pub open spec fn bad_value_message(kind: FieldKind, key: Seq<char>, v: Seq<char>) -> Seq<char> {
    match kind {
        FieldKind::Role => "unknown role: "@ + v,
        FieldKind::Scope => "unknown scope kind: "@ + v,
        _ => key + v,
    }
}

pub(crate) fn bad_value_error(kind: FieldKind, key: &str, v: &str) -> (e: TokenError)
    ensures
        e@ == TokenErrorView::InvalidCaveat(bad_value_message(kind, key@, v@)),
{
    match kind {
        FieldKind::Role => {
            let mut m = String::from_str("unknown role: ");
            m.append(v);
            TokenError::InvalidCaveat(m)
        },
        FieldKind::Scope => {
            let mut m = String::from_str("unknown scope kind: ");
            m.append(v);
            TokenError::InvalidCaveat(m)
        },
        _ => {
            let mut m = String::from_str(key);
            m.append(v);
            TokenError::InvalidCaveat(m)
        },
    }
}

pub(crate) fn owned_strs(a: &[&str]) -> (v: Vec<String>)
    ensures
        v@.len() == a@.len(),
        forall|i: int| 0 <= i < a@.len() ==> (#[trigger] v@[i])@ == a@[i]@,
{
    let mut v: Vec<String> = Vec::new();
    let mut i: usize = 0;
    while i < a.len()
        invariant
            i <= a@.len(),
            v@.len() == i,
            forall|j: int| 0 <= j < i ==> (#[trigger] v@[j])@ == a@[j]@,
        decreases a@.len() - i,
    {
        v.push(String::from_str(a[i]));
        i = i + 1;
    }
    v
}

// ---------------------------------------------------------------------
// Verification shared by all token kinds
// ---------------------------------------------------------------------

pub open spec fn purpose_caveat(p: TokenPurpose) -> Seq<char> {
    caveat("purpose"@, p.spec_str())
}

pub open spec fn prefix_set(ps: Seq<Seq<char>>) -> Set<Seq<u8>> {
    Set::new(|b: Seq<u8>| exists|i: int| 0 <= i < ps.len() && b == encode_utf8(#[trigger] ps[i]))
}

/// Whether the verifier for a `purpose` token, accepting the `prefixes`
/// and expiry after `now`, accepts every predicate.
pub open spec fn all_accepted(
    purpose: TokenPurpose,
    prefixes: Seq<Seq<char>>,
    now: i64,
    ps: Seq<Seq<u8>>,
) -> bool {
    forall|i: int|
        0 <= i < ps.len() ==> accepted_by(
            set![encode_utf8(purpose_caveat(purpose))],
            prefix_set(prefixes),
            set![now],
            #[trigger] ps[i],
        )
}

/// A token whose text is the V2 form of readable parts, signed under the key.
pub open spec fn well_signed(
    key: Seq<u8>,
    token: Seq<char>,
    id: Seq<u8>,
    loc: Option<Seq<char>>,
    ps: Seq<Seq<u8>>,
) -> bool {
    &&& v2_parts_readable(id, loc, ps, signature_chain(key, id, ps))
    &&& token == v2_token(id, loc, ps, signature_chain(key, id, ps))
}

/// The token text reads as a macaroon whose signature is accepted under
/// `key` for its identifier and caveats.
pub open spec fn signed_under(key: Seq<u8>, token: Seq<char>) -> bool {
    macaroon_deserialized(token) matches Some(p) && signature_accepted(key, p.0, p.2, p.3)
}

/// Reads a token, checks its signature and that every caveat is accepted,
/// and gives back its caveats.
pub(crate) fn read_verified(
    keyring: &Keyring,
    now: i64,
    token: &str,
    purpose: TokenPurpose,
    prefixes: &Vec<String>,
) -> (r: Result<Vec<Option<Vec<u8>>>, TokenError>)
    ensures
        r matches Ok(preds) ==> exists|ps: Seq<Seq<u8>>|
            opt_bytes_view(preds@) == first_party(ps) && all_accepted(
                purpose,
                strings_view(prefixes@),
                now,
                ps,
            ),
        r matches Ok(preds) ==> signed_under(keyring@, token@) && opt_bytes_view(preds@)
            == (macaroon_deserialized(token@)->0).2,
        forall|id: Seq<u8>, loc: Option<Seq<char>>, ps: Seq<Seq<u8>>|
            #![trigger v2_token(id, loc, ps, signature_chain(keyring@, id, ps))]
            well_signed(keyring@, token@, id, loc, ps) ==> {
                &&& (r is Ok <==> all_accepted(purpose, strings_view(prefixes@), now, ps))
                &&& (r matches Ok(preds) ==> opt_bytes_view(preds@) == first_party(ps))
            },
{
    let ghost key = keyring@;
    let m = match deserialize_macaroon(token) {
        Ok(m) => m,
        Err(f) => {
            return Err(token_error_from(f));
        },
    };
    let mut v = new_verifier();
    let pc = cv("purpose", purpose.as_str());
    satisfy_exact(&mut v, pc.as_str());
    let ghost ks = strings_view(prefixes@);
    let mut i: usize = 0;
    while i < prefixes.len()
        invariant
            ks == strings_view(prefixes@),
            i <= prefixes.len(),
            verifier_exact(v) == set![encode_utf8(purpose_caveat(purpose))],
            verifier_prefixes(v) == prefix_set(ks.subrange(0, i as int)),
            verifier_expiry_bounds(v) == Set::<i64>::empty(),
        decreases prefixes.len() - i,
    {
        let b = vstd::slice::slice_to_vec(prefixes[i].as_str().as_bytes());
        satisfy_prefix(&mut v, b);
        proof {
            assert(prefix_set(ks.subrange(0, i + 1)) =~= prefix_set(ks.subrange(0, i as int)).insert(
                encode_utf8(ks[i as int]),
            )) by {
                assert forall|x: Seq<u8>|
                    prefix_set(ks.subrange(0, i + 1)).contains(x) <==> prefix_set(
                        ks.subrange(0, i as int),
                    ).insert(encode_utf8(ks[i as int])).contains(x) by {
                    if prefix_set(ks.subrange(0, i + 1)).contains(x) {
                        let j = choose|j: int|
                            0 <= j < i + 1 && x == encode_utf8(#[trigger] ks.subrange(0, i + 1)[j]);
                        if j < i {
                            assert(ks.subrange(0, i as int)[j] == ks.subrange(0, i + 1)[j]);
                        }
                    }
                    if prefix_set(ks.subrange(0, i as int)).contains(x) {
                        let j = choose|j: int| 0 <= j < i && x == encode_utf8(#[trigger] ks.subrange(0, i as int)[j]);
                        assert(ks.subrange(0, i + 1)[j] == ks.subrange(0, i as int)[j]);
                    }
                    if x == encode_utf8(ks[i as int]) {
                        assert(ks.subrange(0, i + 1)[i as int] == ks[i as int]);
                    }
                }
            }
        }
        i = i + 1;
    }
    proof {
        assert(ks.subrange(0, i as int) =~= ks);
    }
    satisfy_expiry_after(&mut v, now);
    assert(verifier_expiry_bounds(v) =~= set![now]);
    let checked = verify_macaroon(&v, &m, keyring.root());
    proof {
        assert forall|id: Seq<u8>, loc: Option<Seq<char>>, ps: Seq<Seq<u8>>|
            #![trigger v2_token(id, loc, ps, signature_chain(key, id, ps))]
            well_signed(key, token@, id, loc, ps) implies macaroon_caveats(m) == first_party(ps)
            && macaroon_identifier(m) == id && macaroon_signature(m) == signature_chain(key, id, ps)
            && macaroon_caveats(m).map_values(|c: Option<Seq<u8>>| c->0) == ps
            && (caveats_accepted(v, macaroon_caveats(m)) <==> all_accepted(purpose, ks, now, ps)) by {
            assert(macaroon_caveats(m).map_values(|c: Option<Seq<u8>>| c->0) =~= ps);
            if caveats_accepted(v, macaroon_caveats(m)) {
                assert forall|j: int| 0 <= j < ps.len() implies accepted_by(
                    set![encode_utf8(purpose_caveat(purpose))],
                    prefix_set(ks),
                    set![now],
                    #[trigger] ps[j],
                ) by {
                    assert(macaroon_caveats(m)[j]->0 == ps[j]);
                }
            }
            if all_accepted(purpose, ks, now, ps) {
                assert forall|j: int| 0 <= j < macaroon_caveats(m).len() implies verifier_accepts(
                    v,
                    #[trigger] macaroon_caveats(m)[j]->0,
                ) by {
                    assert(macaroon_caveats(m)[j]->0 == ps[j]);
                }
            }
        }
    }
    match checked {
        Ok(()) => {},
        Err(f) => {
            proof {
                assert forall|id: Seq<u8>, loc: Option<Seq<char>>, ps: Seq<Seq<u8>>|
                    #![trigger v2_token(id, loc, ps, signature_chain(key, id, ps))]
                    well_signed(key, token@, id, loc, ps) implies !all_accepted(purpose, ks, now, ps) by {
                    if all_accepted(purpose, ks, now, ps) {
                        assert(caveats_accepted(v, macaroon_caveats(m)));
                    }
                }
            }
            return Err(token_error_from(f));
        },
    }
    let preds = caveat_predicates(&m);
    proof {
        let ps = macaroon_caveats(m).map_values(|c: Option<Seq<u8>>| c->0);
        assert(opt_bytes_view(preds@) =~= macaroon_caveats(m));
        assert(first_party(ps) =~= macaroon_caveats(m));
        assert forall|j: int| 0 <= j < ps.len() implies accepted_by(
            set![encode_utf8(purpose_caveat(purpose))],
            prefix_set(ks),
            set![now],
            #[trigger] ps[j],
        ) by {
            assert(verifier_accepts(v, macaroon_caveats(m)[j]->0));
        }
        assert(all_accepted(purpose, ks, now, ps));
        assert forall|id: Seq<u8>, loc: Option<Seq<char>>, ps2: Seq<Seq<u8>>|
            #![trigger v2_token(id, loc, ps2, signature_chain(key, id, ps2))]
            well_signed(key, token@, id, loc, ps2) implies opt_bytes_view(preds@) == first_party(ps2) by {
        }
    }
    Ok(preds)
}

} // verus!

verus! {

/// Every value that reading binds is valid for its key's kind.
pub proof fn lemma_scan_values_valid(cavs: Seq<Option<Seq<u8>>>, keys: Seq<Seq<char>>, kinds: Seq<FieldKind>)
    requires
        keys.len() == kinds.len(),
    ensures
        scan(cavs, keys, kinds) matches Ok(vals) ==> {
            &&& vals.len() == keys.len()
            &&& forall|i: int|
                0 <= i < vals.len() ==> (#[trigger] vals[i] matches Some(v) ==> field_valid(kinds[i], v))
        },
        scan(cavs, keys, kinds) matches Err((i, v)) ==> 0 <= i < keys.len(),
    decreases cavs.len(),
{
    if cavs.len() > 0 {
        lemma_scan_values_valid(cavs.drop_last(), keys, kinds);
        match caveat_text(cavs.last()) {
            Some(t) => lemma_classify_in_range(t, keys, 0),
            None => {},
        }
    }
}

proof fn lemma_classify_in_range(t: Seq<char>, keys: Seq<Seq<char>>, from: int)
    ensures
        classify(t, keys, from) matches Some((i, v)) ==> from <= i < keys.len() && strip_prefix_spec(
            t,
            keys[i],
        ) == Some(v),
    decreases keys.len() - from,
{
    if 0 <= from < keys.len() {
        lemma_classify_in_range(t, keys, from + 1);
    }
}

pub open spec fn result_view<T: View>(r: Result<T, TokenError>) -> Result<T::V, TokenErrorView> {
    match r {
        Ok(x) => Ok(x@),
        Err(e) => Err(e@),
    }
}

pub fn missing(name: &'static str) -> (e: TokenError)
    ensures
        e@ == TokenErrorView::MissingCaveat(name@),
{
    TokenError::MissingCaveat(name)
}

// ---------------------------------------------------------------------
// Session tokens
// ---------------------------------------------------------------------

#[derive(Clone, Debug)]
pub struct MintSessionInput<'a> {
    pub user_id: &'a UserId,
    pub email: &'a str,
    pub billing: &'a BillingAccountId,
    pub org: Option<&'a OrgId>,
    pub role: Role,
    pub auth_method: &'a AuthMethod,
    pub now_unix: i64,
    pub ttl_seconds: i64,
}

pub struct MintSessionView {
    pub user_id: Seq<char>,
    pub email: Seq<char>,
    pub billing: Seq<char>,
    pub org: Option<Seq<char>>,
    pub role: Role,
    pub auth_method: AuthMethodView,
    pub now_unix: i64,
    pub ttl_seconds: i64,
}

impl<'a> View for MintSessionInput<'a> {
    type V = MintSessionView;

    open spec fn view(&self) -> MintSessionView {
        MintSessionView {
            user_id: self.user_id@,
            email: self.email@,
            billing: self.billing@,
            org: match self.org {
                Some(o) => Some(o@),
                None => None,
            },
            role: self.role,
            auth_method: self.auth_method@,
            now_unix: self.now_unix,
            ttl_seconds: self.ttl_seconds,
        }
    }
}

pub open spec fn session_identifier(user: Seq<char>) -> Seq<char> {
    "session:"@ + user
}

/// The caveats of a session token, in the order they are added.
pub open spec fn session_predicates(v: MintSessionView) -> Seq<Seq<char>> {
    seq![
        purpose_caveat(TokenPurpose::Session),
        caveat("user"@, v.user_id),
        caveat("email"@, v.email),
        caveat("billing"@, v.billing),
        caveat("role"@, v.role.spec_str()),
        caveat("auth_method"@, auth_method_encoding(v.auth_method)),
        caveat("exp"@, i64_decimal(v.now_unix + v.ttl_seconds)),
    ] + match v.org {
        Some(o) => seq![caveat("org"@, o)],
        None => Seq::empty(),
    }
}

/// The session token minted under `key` for this input.
pub open spec fn session_token(key: Seq<u8>, v: MintSessionView) -> Seq<char> {
    minted_token(key, session_identifier(v.user_id), session_predicates(v))
}

pub fn mint_session(keyring: &Keyring, input: MintSessionInput<'_>) -> (r: Result<String, TokenError>)
    requires
        i64::MIN <= input.now_unix + input.ttl_seconds <= i64::MAX,
    ensures
        r matches Ok(t) ==> t@.len() > 0,
        r is Ok <==> mintable(session_identifier(input@.user_id), session_predicates(input@)),
        r matches Ok(t) ==> t@ == session_token(keyring@, input@),
        r matches Ok(t) ==> well_signed(
            keyring@,
            t@,
            encode_utf8(session_identifier(input@.user_id)),
            Some(token_location()),
            encoded(session_predicates(input@)),
        ),
        r matches Err(e) ==> e@ is Malformed,
{
    let exp: i64 = input.now_unix + input.ttl_seconds;
    let mut identifier = String::from_str("session:");
    identifier.append(input.user_id.as_str());
    let mut ps: Vec<String> = Vec::new();
    ps.push(cv("purpose", TokenPurpose::Session.as_str()));
    ps.push(cv("user", input.user_id.as_str()));
    ps.push(cv("email", input.email));
    ps.push(cv("billing", input.billing.as_str()));
    ps.push(cv("role", input.role.as_str()));
    let am = input.auth_method.encode();
    ps.push(cv("auth_method", am.as_str()));
    let e = format_i64(exp);
    ps.push(cv("exp", e.as_str()));
    match input.org {
        Some(org) => {
            ps.push(cv("org", org.as_str()));
        },
        None => {},
    }
    proof {
        reveal_strlit("session:");
        reveal_strlit("purpose");
        reveal_strlit("user");
        reveal_strlit("email");
        reveal_strlit("billing");
        reveal_strlit("role");
        reveal_strlit("auth_method");
        reveal_strlit("exp");
        reveal_strlit("org");
        assert(ps@.map_values(|p: String| p@) =~= session_predicates(input@));
    }
    mint_token(keyring, identifier.as_str(), &ps)
}

pub open spec fn session_keys() -> Seq<Seq<char>> {
    seq![
        "purpose="@,
        "user="@,
        "email="@,
        "billing="@,
        "org="@,
        "role="@,
        "auth_method="@,
        "exp="@,
    ]
}

pub open spec fn session_kinds() -> Seq<FieldKind> {
    seq![
        FieldKind::Text,
        FieldKind::Text,
        FieldKind::Text,
        FieldKind::Text,
        FieldKind::Text,
        FieldKind::Role,
        FieldKind::Method,
        FieldKind::Integer,
    ]
}

/// Prefixes the session verifier accepts besides the purpose and expiry.
pub open spec fn session_prefixes() -> Seq<Seq<char>> {
    seq!["user="@, "email="@, "billing="@, "org="@, "role="@, "auth_method="@]
}

/// The session that verified caveats describe, or why they describe none.
pub open spec fn session_result(cavs: Seq<Option<Seq<u8>>>) -> Result<SessionView, TokenErrorView> {
    let keys = session_keys();
    let kinds = session_kinds();
    match scan(cavs, keys, kinds) {
        Err((i, v)) => Err(TokenErrorView::InvalidCaveat(bad_value_message(kinds[i], keys[i], v))),
        Ok(vals) => if vals[0] is None {
            Err(TokenErrorView::MissingCaveat("purpose"@))
        } else if vals[0]->0 != TokenPurpose::Session.spec_str() {
            Err(TokenErrorView::WrongPurpose(TokenPurpose::Session, vals[0]->0))
        } else if vals[1] is None {
            Err(TokenErrorView::MissingCaveat("user"@))
        } else if vals[2] is None {
            Err(TokenErrorView::MissingCaveat("email"@))
        } else if vals[3] is None {
            Err(TokenErrorView::MissingCaveat("billing"@))
        } else if vals[5] is None {
            Err(TokenErrorView::MissingCaveat("role"@))
        } else if vals[6] is None {
            Err(TokenErrorView::MissingCaveat("auth_method"@))
        } else if vals[7] is None {
            Err(TokenErrorView::MissingCaveat("exp"@))
        } else {
            Ok(
                SessionView {
                    user: vals[1]->0,
                    email: vals[2]->0,
                    billing: vals[3]->0,
                    org: vals[4],
                    role: Role::spec_parse(vals[5]->0)->0,
                    auth_method: auth_method_decoding(vals[6]->0)->0,
                    exp_unix: parse_i64_spec(vals[7]->0)->0,
                },
            )
        },
    }
}

pub(crate) fn take_value(vals: &Vec<Option<String>>, i: usize) -> (r: Option<String>)
    requires
        i < vals@.len(),
    ensures
        r == vals@[i as int],
{
    vals[i].duplicate()
}

pub fn verify_session(keyring: &Keyring, now_unix: i64, token: &str) -> (r: Result<
    SessionContext,
    TokenError,
>)
    ensures
        r is Ok ==> signed_under(keyring@, token@),
        r matches Ok(ctx) ==> exists|ps: Seq<Seq<u8>>|
            all_accepted(TokenPurpose::Session, session_prefixes(), now_unix, ps) && session_result(
                first_party(ps),
            ) == Ok::<SessionView, TokenErrorView>(ctx@),
        forall|id: Seq<u8>, loc: Option<Seq<char>>, ps: Seq<Seq<u8>>|
            #![trigger v2_token(id, loc, ps, signature_chain(keyring@, id, ps))]
            well_signed(keyring@, token@, id, loc, ps) ==> if all_accepted(
                TokenPurpose::Session,
                session_prefixes(),
                now_unix,
                ps,
            ) {
                result_view(r) == session_result(first_party(ps))
            } else {
                r is Err
            },
{
    proof {
        reveal_strlit("user=");
        reveal_strlit("email=");
        reveal_strlit("billing=");
        reveal_strlit("org=");
        reveal_strlit("role=");
        reveal_strlit("auth_method=");
        reveal_strlit("purpose=");
        reveal_strlit("exp=");
    }
    let prefixes = owned_strs(&["user=", "email=", "billing=", "org=", "role=", "auth_method="]);
    assert(strings_view(prefixes@) =~= session_prefixes());
    let preds = match read_verified(keyring, now_unix, token, TokenPurpose::Session, &prefixes) {
        Ok(p) => p,
        Err(e) => {
            return Err(e);
        },
    };
    let keys = owned_strs(
        &["purpose=", "user=", "email=", "billing=", "org=", "role=", "auth_method=", "exp="],
    );
    let kinds: Vec<FieldKind> = vec![
        FieldKind::Text,
        FieldKind::Text,
        FieldKind::Text,
        FieldKind::Text,
        FieldKind::Text,
        FieldKind::Role,
        FieldKind::Method,
        FieldKind::Integer,
    ];
    assert(strings_view(keys@) =~= session_keys());
    assert(kinds@ =~= session_kinds());
    let ghost cavs = opt_bytes_view(preds@);
    proof {
        lemma_scan_values_valid(cavs, session_keys(), session_kinds());
    }
    let r = session_from_scan(&preds, &keys, &kinds);
    r
}

fn session_from_scan(preds: &Vec<Option<Vec<u8>>>, keys: &Vec<String>, kinds: &Vec<FieldKind>) -> (r: Result<
    SessionContext,
    TokenError,
>)
    requires
        strings_view(keys@) == session_keys(),
        kinds@ == session_kinds(),
    ensures
        result_view(r) == session_result(opt_bytes_view(preds@)),
{
    let ghost cavs = opt_bytes_view(preds@);
    proof {
        lemma_scan_values_valid(cavs, session_keys(), session_kinds());
        reveal_strlit("purpose");
        reveal_strlit("user");
        reveal_strlit("email");
        reveal_strlit("billing");
        reveal_strlit("role");
        reveal_strlit("auth_method");
        reveal_strlit("exp");
        reveal_strlit("session");
    }
    let vals = match scan_caveats(preds, keys, kinds) {
        Ok(v) => v,
        Err((i, v)) => {
            return Err(bad_value_error(kinds[i], keys[i].as_str(), v.as_str()));
        },
    };
    let purpose = match take_value(&vals, 0) {
        Some(p) => p,
        None => {
            return Err(missing("purpose"));
        },
    };
    if purpose != String::from_str(TokenPurpose::Session.as_str()) {
        return Err(TokenError::WrongPurpose { expected: TokenPurpose::Session, found: purpose });
    }
    let user = match take_value(&vals, 1) {
        Some(u) => u,
        None => {
            return Err(missing("user"));
        },
    };
    let email = match take_value(&vals, 2) {
        Some(x) => x,
        None => {
            return Err(missing("email"));
        },
    };
    let billing = match take_value(&vals, 3) {
        Some(x) => x,
        None => {
            return Err(missing("billing"));
        },
    };
    let org = take_value(&vals, 4);
    let role_text = match take_value(&vals, 5) {
        Some(x) => x,
        None => {
            return Err(missing("role"));
        },
    };
    let method_text = match take_value(&vals, 6) {
        Some(x) => x,
        None => {
            return Err(missing("auth_method"));
        },
    };
    let exp_text = match take_value(&vals, 7) {
        Some(x) => x,
        None => {
            return Err(missing("exp"));
        },
    };
    let role = match Role::parse(role_text.as_str()) {
        Ok(x) => x,
        Err(msg) => {
            return Err(TokenError::InvalidCaveat(msg));
        },
    };
    let auth_method = match AuthMethod::decode(method_text.as_str()) {
        Some(x) => x,
        None => {
            return Err(TokenError::InvalidCaveat(method_text));
        },
    };
    let exp_unix = match parse_i64(exp_text.as_str()) {
        Some(x) => x,
        None => {
            return Err(TokenError::InvalidCaveat(exp_text));
        },
    };
    let org_id = match org {
        Some(o) => Some(OrgId::from_string(o)),
        None => None,
    };
    Ok(
        SessionContext {
            user: UserId::from_string(user),
            email,
            billing: BillingAccountId::from_string(billing),
            org: org_id,
            role,
            auth_method,
            exp_unix,
        },
    )
}

} // verus!
