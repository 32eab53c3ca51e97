//! The interface to libmacaroon: creating macaroons, adding first-party
//! caveats, the V2 wire format, and verification against a set of
//! satisfiers. A macaroon is described by its identifier, location,
//! signature and caveat list; a verifier by the predicates it accepts.

use vstd::prelude::*;
use vstd::string::StringSliceAdditionalSpecFns;
use vstd::utf8::*;

use libmacaroon::{Format, Macaroon, MacaroonError, MacaroonKey, Verifier};

use crate::text::seq_has_prefix;

verus! {

#[verifier::external_type_specification]
#[verifier::external_body]
pub struct ExMacaroon(Macaroon);

#[verifier::external_type_specification]
#[verifier::external_body]
pub struct ExVerifier(Verifier);

#[verifier::external_type_specification]
#[verifier::external_body]
pub struct ExMacaroonKey(MacaroonKey);

#[verifier::external_type_specification]
#[verifier::external_body]
pub struct ExMacaroonError(MacaroonError);

/// What went wrong in a macaroon operation. The three kinds that token
/// handling tells apart get variants of their own; every other failure
/// carries libmacaroon's description of it.
pub enum MacaroonFailure {
    InvalidSignature,
    CaveatNotSatisfied(String),
    DeserializationError(String),
    Other(String),
}

/// The largest identifier, location or predicate, in bytes, that
/// libmacaroon accepts (`MAX_FIELD_SIZE_BYTES`).
pub open spec fn max_field_bytes() -> int {
    65535
}

/// The most caveats a macaroon may carry (`MAX_CAVEATS`).
pub open spec fn max_caveats() -> int {
    1000
}

// ----- what a macaroon holds -----

/// The identifier bytes of a macaroon.
pub uninterp spec fn macaroon_identifier(m: Macaroon) -> Seq<u8>;

/// The location of a macaroon.
pub uninterp spec fn macaroon_location(m: Macaroon) -> Option<Seq<char>>;

/// The signature bytes of a macaroon.
pub uninterp spec fn macaroon_signature(m: Macaroon) -> Seq<u8>;

/// The caveats of a macaroon in order: the predicate of a first-party
/// caveat, `None` for a third-party caveat.
pub uninterp spec fn macaroon_caveats(m: Macaroon) -> Seq<Option<Seq<u8>>>;

/// HMAC-SHA256 as libmacaroon applies it (`crypto::hmac`): the signature
/// of `data` under the 32-byte `key`.
pub uninterp spec fn macaroon_hmac(key: Seq<u8>, data: Seq<u8>) -> Seq<u8>;

/// HMAC-SHA256 over two inputs as libmacaroon applies it
/// (`crypto::hmac2`), under the 32-byte `key`.
pub uninterp spec fn macaroon_hmac2(key: Seq<u8>, text1: Seq<u8>, text2: Seq<u8>) -> Seq<u8>;

/// What `Macaroon::deserialize` reads from a token text: its identifier,
/// location, caveats (first-party predicates, `None` for third-party) and
/// signature, or `None` where it fails.
pub uninterp spec fn macaroon_deserialized(token: Seq<char>) -> Option<
    (Seq<u8>, Option<Seq<char>>, Seq<Option<Seq<u8>>>, Seq<u8>),
>;

/// The 32 bytes a `MacaroonKey` holds.
pub uninterp spec fn macaroon_key_bytes(k: MacaroonKey) -> Seq<u8>;

/// libmacaroon's key-generator key: `macaroons-key-generator` padded with
/// zero bytes to 32.
pub open spec fn key_generator() -> Seq<u8> {
    seq![
        109u8, 97u8, 99u8, 97u8, 114u8, 111u8, 111u8, 110u8, 115u8, 45u8, 107u8, 101u8, 121u8, 45u8,
        103u8, 101u8, 110u8, 101u8, 114u8, 97u8, 116u8, 111u8, 114u8,
    ] + Seq::new(9, |i: int| 0u8)
}

/// The key that `MacaroonKey::generate` derives from `seed`: the HMAC of
/// the seed under the key-generator key.
pub open spec fn derived_key(seed: Seq<u8>) -> Seq<u8> {
    macaroon_hmac(key_generator(), seed)
}

/// The V2 wire form (URL-safe base64) of a macaroon with first-party
/// caveats only.
pub uninterp spec fn v2_token(
    identifier: Seq<u8>,
    location: Option<Seq<char>>,
    predicates: Seq<Seq<u8>>,
    signature: Seq<u8>,
) -> Seq<char>;

// ----- what a verifier accepts -----

/// Predicates accepted verbatim (`satisfy_exact`).
pub uninterp spec fn verifier_exact(v: Verifier) -> Set<Seq<u8>>;

/// Prefixes: a predicate starting with one of them is accepted.
pub uninterp spec fn verifier_prefixes(v: Verifier) -> Set<Seq<u8>>;

/// Clock readings: an `exp=<n>` predicate with `n` after one of them is
/// accepted.
pub uninterp spec fn verifier_expiry_bounds(v: Verifier) -> Set<i64>;

// ----- derived definitions -----

/// The signature a macaroon minted under `key` with `identifier` carries
/// after the first-party caveats `predicates` were added in order.
pub open spec fn signature_chain(key: Seq<u8>, identifier: Seq<u8>, predicates: Seq<Seq<u8>>) -> Seq<
    u8,
>
    decreases predicates.len(),
{
    if predicates.len() == 0 {
        macaroon_hmac(key, identifier)
    } else {
        macaroon_hmac(
            signature_chain(key, identifier, predicates.drop_last()),
            predicates.last(),
        )
    }
}

pub open spec fn all_first_party(cavs: Seq<Option<Seq<u8>>>) -> bool {
    forall|i: int| 0 <= i < cavs.len() ==> (#[trigger] cavs[i]) is Some
}

pub open spec fn first_party(predicates: Seq<Seq<u8>>) -> Seq<Option<Seq<u8>>> {
    predicates.map_values(|p: Seq<u8>| Some(p))
}

/// The ASCII bytes `exp=`.
pub open spec fn exp_prefix_bytes() -> Seq<u8> {
    seq![101u8, 120u8, 112u8, 61u8]
}

/// An `exp=<n>` predicate whose `n` is a decimal `i64` later than `now`.
pub open spec fn expiry_after(predicate: Seq<u8>, now: i64) -> bool {
    let rest = predicate.subrange(exp_prefix_bytes().len() as int, predicate.len() as int);
    &&& seq_has_prefix(predicate, exp_prefix_bytes())
    &&& valid_utf8(rest)
    &&& match crate::text::parse_i64_spec(decode_utf8(rest)) {
        Some(when) => when > now,
        None => false,
    }
}

/// Whether a verifier with these satisfiers accepts the predicate.
pub open spec fn accepted_by(
    exact: Set<Seq<u8>>,
    prefixes: Set<Seq<u8>>,
    bounds: Set<i64>,
    p: Seq<u8>,
) -> bool {
    ||| exact.contains(p)
    ||| exists|q: Seq<u8>| prefixes.contains(q) && seq_has_prefix(p, q)
    ||| exists|n: i64| bounds.contains(n) && expiry_after(p, n)
}

pub open spec fn verifier_accepts(v: Verifier, p: Seq<u8>) -> bool {
    accepted_by(verifier_exact(v), verifier_prefixes(v), verifier_expiry_bounds(v), p)
}

/// Every caveat is first-party and accepted by the verifier.
pub open spec fn caveats_accepted(v: Verifier, cavs: Seq<Option<Seq<u8>>>) -> bool {
    &&& all_first_party(cavs)
    &&& forall|i: int| 0 <= i < cavs.len() ==> verifier_accepts(v, #[trigger] cavs[i]->0)
}

/// The all-zero key libmacaroon binds discharge signatures with.
pub open spec fn zero_key() -> Seq<u8> {
    Seq::new(32, |i: int| 0u8)
}

/// A signature libmacaroon's verifier accepts under `key` for a macaroon
/// with this identifier and these first-party caveats: the chain of the
/// key, the identifier and the predicates, or that chain bound to the
/// signature under the zero key.
pub open spec fn signature_accepted(key: Seq<u8>, identifier: Seq<u8>, cavs: Seq<Option<Seq<u8>>>, sig: Seq<u8>) -> bool {
    let chain = signature_chain(key, identifier, cavs.map_values(|c: Option<Seq<u8>>| c->0));
    sig == chain || sig == macaroon_hmac2(zero_key(), sig, chain)
}

/// Parts that a macaroon can have, so that its V2 form reads back.
pub open spec fn v2_parts_readable(
    identifier: Seq<u8>,
    location: Option<Seq<char>>,
    predicates: Seq<Seq<u8>>,
    signature: Seq<u8>,
) -> bool {
    &&& 0 < identifier.len() <= max_field_bytes()
    &&& (location matches Some(l) ==> encode_utf8(l).len() <= max_field_bytes())
    &&& predicates.len() <= max_caveats()
    &&& (forall|i: int| 0 <= i < predicates.len() ==> (#[trigger] predicates[i]).len() <= max_field_bytes())
    &&& signature.len() == 32
}

// ----- trusted operations -----

/// `Macaroon::create(Some(location), &MacaroonKey::from(*key), identifier)`:
/// a macaroon with no caveats whose signature is the HMAC of the identifier
/// under the key. It fails exactly when the identifier is empty or a field
/// is larger than libmacaroon allows.
#[verifier::external_body]
pub(crate) fn create_macaroon(location: &str, key: &[u8; 32], identifier: &str) -> (r: Result<
    Macaroon,
    MacaroonFailure,
>)
    ensures
        r is Ok <==> (0 < identifier.spec_bytes().len() <= max_field_bytes() && location.spec_bytes().len()
            <= max_field_bytes()),
        r matches Ok(m) ==> {
            &&& macaroon_identifier(m) == identifier.spec_bytes()
            &&& macaroon_location(m) == Some(location@)
            &&& macaroon_caveats(m) == Seq::<Option<Seq<u8>>>::empty()
            &&& macaroon_signature(m) == macaroon_hmac(key@, identifier.spec_bytes())
            &&& macaroon_signature(m).len() == 32
        },
        r matches Err(e) ==> e is Other,
{
    match Macaroon::create(Some(location), &MacaroonKey::from(*key), identifier) {
        Ok(m) => Ok(m),
        Err(MacaroonError::InvalidSignature) => Err(MacaroonFailure::InvalidSignature),
        Err(MacaroonError::CaveatNotSatisfied(s)) => Err(MacaroonFailure::CaveatNotSatisfied(s)),
        Err(MacaroonError::DeserializationError(s)) => Err(MacaroonFailure::DeserializationError(s)),
        Err(other) => Err(MacaroonFailure::Other(other.to_string())),
    }
}

/// `Macaroon::add_first_party_caveat`: appends the predicate and chains the
/// signature through it. It fails, leaving the macaroon as it was, when the
/// predicate is too large or the macaroon is full.
#[verifier::external_body]
pub(crate) fn add_first_party_caveat(m: &mut Macaroon, predicate: &str) -> (r: Result<(), MacaroonFailure>)
    ensures
        r is Ok <==> (predicate.spec_bytes().len() <= max_field_bytes() && macaroon_caveats(*old(m)).len()
            < max_caveats()),
        r is Ok ==> {
            &&& macaroon_caveats(*final(m)) == macaroon_caveats(*old(m)).push(
                Some(predicate.spec_bytes()),
            )
            &&& macaroon_signature(*final(m)) == macaroon_hmac(
                macaroon_signature(*old(m)),
                predicate.spec_bytes(),
            )
            &&& macaroon_identifier(*final(m)) == macaroon_identifier(*old(m))
            &&& macaroon_location(*final(m)) == macaroon_location(*old(m))
            &&& macaroon_signature(*final(m)).len() == 32
        },
        r is Err ==> *final(m) == *old(m),
        r matches Err(e) ==> e is Other,
{
    match m.add_first_party_caveat(predicate) {
        Ok(_) => Ok(()),
        Err(MacaroonError::InvalidSignature) => Err(MacaroonFailure::InvalidSignature),
        Err(MacaroonError::CaveatNotSatisfied(s)) => Err(MacaroonFailure::CaveatNotSatisfied(s)),
        Err(MacaroonError::DeserializationError(s)) => Err(MacaroonFailure::DeserializationError(s)),
        Err(other) => Err(MacaroonFailure::Other(other.to_string())),
    }
}

/// `Macaroon::serialize(Format::V2)`. It always succeeds; for a macaroon
/// with first-party caveats only the text is the V2 form of its parts. The
/// text is never empty: the binary form starts with a version byte.
#[verifier::external_body]
pub(crate) fn serialize_v2(m: &Macaroon) -> (r: Result<String, MacaroonFailure>)
    ensures
        r matches Ok(t) ==> t@.len() > 0,
        r is Ok,
        r matches Ok(t) ==> all_first_party(macaroon_caveats(*m)) ==> t@ == v2_token(
            macaroon_identifier(*m),
            macaroon_location(*m),
            macaroon_caveats(*m).map_values(|c: Option<Seq<u8>>| c->0),
            macaroon_signature(*m),
        ),
{
    match m.serialize(Format::V2) {
        Ok(t) => Ok(t),
        Err(MacaroonError::InvalidSignature) => Err(MacaroonFailure::InvalidSignature),
        Err(MacaroonError::CaveatNotSatisfied(s)) => Err(MacaroonFailure::CaveatNotSatisfied(s)),
        Err(MacaroonError::DeserializationError(s)) => Err(MacaroonFailure::DeserializationError(s)),
        Err(other) => Err(MacaroonFailure::Other(other.to_string())),
    }
}

/// `Macaroon::deserialize`: the parts it reads, named by
/// `macaroon_deserialized`. A token in the V2 form of readable parts reads
/// back as a macaroon with exactly those parts.
#[verifier::external_body]
pub(crate) fn deserialize_macaroon(token: &str) -> (r: Result<Macaroon, MacaroonFailure>)
    ensures
        match r {
            Ok(m) => macaroon_deserialized(token@) == Some(
                (macaroon_identifier(m), macaroon_location(m), macaroon_caveats(m), macaroon_signature(m)),
            ),
            Err(_) => macaroon_deserialized(token@) is None,
        },
        forall|id: Seq<u8>, loc: Option<Seq<char>>, ps: Seq<Seq<u8>>, sig: Seq<u8>|
            #![trigger v2_token(id, loc, ps, sig)]
            v2_parts_readable(id, loc, ps, sig) && token@ == v2_token(id, loc, ps, sig) ==> {
                &&& r is Ok
                &&& macaroon_identifier(r->Ok_0) == id
                &&& macaroon_location(r->Ok_0) == loc
                &&& macaroon_caveats(r->Ok_0) == first_party(ps)
                &&& macaroon_signature(r->Ok_0) == sig
            },
{
    match Macaroon::deserialize(token) {
        Ok(m) => Ok(m),
        Err(MacaroonError::InvalidSignature) => Err(MacaroonFailure::InvalidSignature),
        Err(MacaroonError::CaveatNotSatisfied(s)) => Err(MacaroonFailure::CaveatNotSatisfied(s)),
        Err(MacaroonError::DeserializationError(s)) => Err(MacaroonFailure::DeserializationError(s)),
        Err(other) => Err(MacaroonFailure::Other(other.to_string())),
    }
}

/// The caveats of a macaroon: first-party predicates, `None` for
/// third-party caveats (`Macaroon::caveats`, each mapped to its predicate).
#[verifier::external_body]
pub(crate) fn caveat_predicates(m: &Macaroon) -> (v: Vec<Option<Vec<u8>>>)
    ensures
        v@.len() == macaroon_caveats(*m).len(),
        forall|i: int|
            0 <= i < v@.len() ==> match #[trigger] v@[i] {
                Some(b) => macaroon_caveats(*m)[i] == Some(b@),
                None => macaroon_caveats(*m)[i] is None,
            },
{
    m.caveats().iter().map(|c| c.as_first_party().map(|fp| fp.predicate().to_vec())).collect()
}

/// `Verifier::default()`: accepts nothing yet.
#[verifier::external_body]
pub(crate) fn new_verifier() -> (v: Verifier)
    ensures
        verifier_exact(v) == Set::<Seq<u8>>::empty(),
        verifier_prefixes(v) == Set::<Seq<u8>>::empty(),
        verifier_expiry_bounds(v) == Set::<i64>::empty(),
{
    Verifier::default()
}

/// `Verifier::satisfy_exact`: the predicate is accepted verbatim from now on.
#[verifier::external_body]
pub(crate) fn satisfy_exact(v: &mut Verifier, predicate: &str)
    ensures
        verifier_exact(*final(v)) == verifier_exact(*old(v)).insert(predicate.spec_bytes()),
        verifier_prefixes(*final(v)) == verifier_prefixes(*old(v)),
        verifier_expiry_bounds(*final(v)) == verifier_expiry_bounds(*old(v)),
{
    v.satisfy_exact(predicate)
}

/// `Verifier::satisfy_general` with a closure accepting every predicate
/// that starts with `prefix` (decided by `bytes_start_with`).
#[verifier::external_body]
pub(crate) fn satisfy_prefix(v: &mut Verifier, prefix: Vec<u8>)
    ensures
        verifier_prefixes(*final(v)) == verifier_prefixes(*old(v)).insert(prefix@),
        verifier_exact(*final(v)) == verifier_exact(*old(v)),
        verifier_expiry_bounds(*final(v)) == verifier_expiry_bounds(*old(v)),
{
    v.satisfy_general(move |c: &[u8]| crate::text::bytes_start_with(c, prefix.as_slice()))
}

/// `Verifier::satisfy_general` with a closure accepting `exp=<n>` with `n`
/// later than `now` (decided by `expiry_satisfied`).
#[verifier::external_body]
pub(crate) fn satisfy_expiry_after(v: &mut Verifier, now: i64)
    ensures
        verifier_expiry_bounds(*final(v)) == verifier_expiry_bounds(*old(v)).insert(now),
        verifier_exact(*final(v)) == verifier_exact(*old(v)),
        verifier_prefixes(*final(v)) == verifier_prefixes(*old(v)),
{
    v.satisfy_general(move |c: &[u8]| crate::auth::tokens::expiry_satisfied(c, now))
}

/// `Verifier::verify(m, &MacaroonKey::from(*key), &[])` with no discharge
/// macaroons. It succeeds only if every caveat is first-party and accepted
/// and the signature is accepted under the key; when every caveat is
/// accepted, it succeeds exactly when the signature is, and otherwise fails
/// with `InvalidSignature`. A first-party caveat that is not accepted makes
/// it fail with `CaveatNotSatisfied`.
#[verifier::external_body]
pub(crate) fn verify_macaroon(v: &Verifier, m: &Macaroon, key: &[u8; 32]) -> (r: Result<(), MacaroonFailure>)
    ensures
        r is Ok ==> caveats_accepted(*v, macaroon_caveats(*m)) && ({
            let chain = signature_chain(
                key@,
                macaroon_identifier(*m),
                macaroon_caveats(*m).map_values(|c: Option<Seq<u8>>| c->0),
            );
            macaroon_signature(*m) == chain || macaroon_signature(*m) == macaroon_hmac2(
                zero_key(),
                macaroon_signature(*m),
                chain,
            )
        }),
        caveats_accepted(*v, macaroon_caveats(*m)) ==> (r is Ok <==> signature_accepted(
            key@,
            macaroon_identifier(*m),
            macaroon_caveats(*m),
            macaroon_signature(*m),
        )),
        caveats_accepted(*v, macaroon_caveats(*m)) ==> (r is Ok || r matches Err(
            MacaroonFailure::InvalidSignature,
        )),
        caveats_accepted(*v, macaroon_caveats(*m)) && macaroon_signature(*m) == signature_chain(
            key@,
            macaroon_identifier(*m),
            macaroon_caveats(*m).map_values(|c: Option<Seq<u8>>| c->0),
        ) ==> r is Ok,
        all_first_party(macaroon_caveats(*m)) && !caveats_accepted(*v, macaroon_caveats(*m))
            ==> r matches Err(MacaroonFailure::CaveatNotSatisfied(_)),
{
    match v.verify(m, &MacaroonKey::from(*key), &[]) {
        Ok(()) => Ok(()),
        Err(MacaroonError::InvalidSignature) => Err(MacaroonFailure::InvalidSignature),
        Err(MacaroonError::CaveatNotSatisfied(s)) => Err(MacaroonFailure::CaveatNotSatisfied(s)),
        Err(MacaroonError::DeserializationError(s)) => Err(MacaroonFailure::DeserializationError(s)),
        Err(other) => Err(MacaroonFailure::Other(other.to_string())),
    }
}

/// `MacaroonKey::generate(seed)`, as its 32 bytes: the HMAC of the seed
/// under the key-generator key.
#[verifier::external_body]
pub(crate) fn derive_key(seed: &[u8]) -> (k: [u8; 32])
    ensures
        k@ == macaroon_hmac(key_generator(), seed@),
{
    let key = MacaroonKey::generate(seed);
    let bytes: &[u8; 32] = key.as_ref();
    *bytes
}

/// The 32 bytes of a `MacaroonKey` (`AsRef<[u8; 32]>`), as the key holds
/// them.
#[verifier::external_body]
pub(crate) fn key_bytes(k: &MacaroonKey) -> (b: [u8; 32])
    ensures
        b@ == macaroon_key_bytes(*k),
{
    let bytes: &[u8; 32] = k.as_ref();
    *bytes
}

} // verus!
