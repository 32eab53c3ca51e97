//! One-shot tokens: password reset and email verification. Each names a
//! user and carries a nonce that the use RPC consumes, so a token works
//! at most once.

use vstd::prelude::*;
use vstd::utf8::*;

use crate::auth::keyring::Keyring;
use crate::auth::macaroon::{first_party, signature_chain, v2_token};
use crate::auth::tokens::{
    all_accepted, bad_value_error, bad_value_message, caveat, cv, encoded, lemma_scan_values_valid,
    mint_token, mintable, minted_token, missing, opt_bytes_view, owned_strs, purpose_caveat,
    read_verified, result_view, scan, scan_caveats, signed_under, strings_view, take_value,
    token_location, well_signed, FieldKind, TokenError, TokenErrorView,
};
use crate::domain::{TokenPurpose, UserId};
use crate::text::{format_i64, i64_decimal, parse_i64, parse_i64_spec};

verus! {

broadcast use {encode_utf8_valid_utf8, encode_utf8_decode_utf8};

#[derive(Clone, Debug, PartialEq, Eq)]
pub struct PasswordResetToken {
    pub user_id: UserId,
    pub nonce: String,
    pub exp_unix: i64,
}

#[derive(Clone, Debug, PartialEq, Eq)]
pub struct EmailVerifyToken {
    pub user_id: UserId,
    pub nonce: String,
    pub exp_unix: i64,
}

/// What a one-shot token names: the user, the nonce and the expiry.
pub struct OneShotView {
    pub user_id: Seq<char>,
    pub nonce: Seq<char>,
    pub exp_unix: i64,
}

impl View for PasswordResetToken {
    type V = OneShotView;

    open spec fn view(&self) -> OneShotView {
        OneShotView { user_id: self.user_id@, nonce: self.nonce@, exp_unix: self.exp_unix }
    }
}

impl View for EmailVerifyToken {
    type V = OneShotView;

    open spec fn view(&self) -> OneShotView {
        OneShotView { user_id: self.user_id@, nonce: self.nonce@, exp_unix: self.exp_unix }
    }
}

struct OneShotFields {
    user_id: UserId,
    nonce: String,
    exp_unix: i64,
}

impl View for OneShotFields {
    type V = OneShotView;

    closed spec fn view(&self) -> OneShotView {
        OneShotView { user_id: self.user_id@, nonce: self.nonce@, exp_unix: self.exp_unix }
    }
}

pub open spec fn one_shot_identifier(purpose: TokenPurpose, user: Seq<char>) -> Seq<char> {
    purpose.spec_str() + ":"@ + user
}

/// The caveats of a one-shot token, in the order they are added.
pub open spec fn one_shot_predicates(
    purpose: TokenPurpose,
    user: Seq<char>,
    nonce: Seq<char>,
    exp: int,
) -> Seq<Seq<char>> {
    seq![
        purpose_caveat(purpose),
        caveat("user"@, user),
        caveat("nonce"@, nonce),
        caveat("exp"@, i64_decimal(exp)),
    ]
}

/// The one-shot token minted under `key`.
pub open spec fn one_shot_token(
    key: Seq<u8>,
    purpose: TokenPurpose,
    user: Seq<char>,
    nonce: Seq<char>,
    exp: int,
) -> Seq<char> {
    minted_token(key, one_shot_identifier(purpose, user), one_shot_predicates(purpose, user, nonce, exp))
}

fn mint_one_shot(
    keyring: &Keyring,
    purpose: TokenPurpose,
    user_id: &UserId,
    nonce: &str,
    now_unix: i64,
    ttl_seconds: i64,
) -> (r: Result<String, TokenError>)
    requires
        i64::MIN <= now_unix + ttl_seconds <= i64::MAX,
    ensures
        r matches Ok(t) ==> t@.len() > 0,
        r is Ok <==> mintable(
            one_shot_identifier(purpose, user_id@),
            one_shot_predicates(purpose, user_id@, nonce@, now_unix + ttl_seconds),
        ),
        r matches Ok(t) ==> t@ == one_shot_token(
            keyring@,
            purpose,
            user_id@,
            nonce@,
            now_unix + ttl_seconds,
        ),
        r matches Ok(t) ==> well_signed(
            keyring@,
            t@,
            encode_utf8(one_shot_identifier(purpose, user_id@)),
            Some(token_location()),
            encoded(one_shot_predicates(purpose, user_id@, nonce@, now_unix + ttl_seconds)),
        ),
        r matches Err(e) ==> e@ is Malformed,
{
    let exp: i64 = now_unix + ttl_seconds;
    let mut identifier = String::from_str(purpose.as_str());
    identifier.append(":");
    identifier.append(user_id.as_str());
    let mut ps: Vec<String> = Vec::new();
    ps.push(cv("purpose", purpose.as_str()));
    ps.push(cv("user", user_id.as_str()));
    ps.push(cv("nonce", nonce));
    let e = format_i64(exp);
    ps.push(cv("exp", e.as_str()));
    proof {
        reveal_strlit(":");
        reveal_strlit("purpose");
        reveal_strlit("user");
        reveal_strlit("nonce");
        reveal_strlit("exp");
        assert(identifier@ =~= one_shot_identifier(purpose, user_id@));
        assert(ps@.map_values(|p: String| p@) =~= one_shot_predicates(
            purpose,
            user_id@,
            nonce@,
            now_unix + ttl_seconds,
        ));
    }
    mint_token(keyring, identifier.as_str(), &ps)
}

pub open spec fn one_shot_keys() -> Seq<Seq<char>> {
    seq!["purpose="@, "user="@, "nonce="@, "exp="@]
}

pub open spec fn one_shot_kinds() -> Seq<FieldKind> {
    seq![FieldKind::Text, FieldKind::Text, FieldKind::Text, FieldKind::Integer]
}

/// Prefixes the one-shot verifier accepts besides the purpose and expiry.
pub open spec fn one_shot_prefixes() -> Seq<Seq<char>> {
    seq!["user="@, "nonce="@]
}

/// What verified caveats of a one-shot token for `expected` name, or why
/// they name nothing.
pub open spec fn one_shot_result(expected: TokenPurpose, cavs: Seq<Option<Seq<u8>>>) -> Result<
    OneShotView,
    TokenErrorView,
> {
    let keys = one_shot_keys();
    let kinds = one_shot_kinds();
    match scan(cavs, keys, kinds) {
        Err((i, v)) => Err(TokenErrorView::InvalidCaveat(bad_value_message(kinds[i], keys[i], v))),
        Ok(vals) => if vals[0] is None {
            Err(TokenErrorView::MissingCaveat("purpose"@))
        } else if vals[0]->0 != expected.spec_str() {
            Err(TokenErrorView::WrongPurpose(expected, vals[0]->0))
        } else if vals[1] is None {
            Err(TokenErrorView::MissingCaveat("user"@))
        } else if vals[2] is None {
            Err(TokenErrorView::MissingCaveat("nonce"@))
        } else if vals[3] is None {
            Err(TokenErrorView::MissingCaveat("exp"@))
        } else {
            Ok(
                OneShotView {
                    user_id: vals[1]->0,
                    nonce: vals[2]->0,
                    exp_unix: parse_i64_spec(vals[3]->0)->0,
                },
            )
        },
    }
}

/// The contract shared by the two one-shot verifiers.
pub open spec fn one_shot_verified<T: View<V = OneShotView>>(
    key: Seq<u8>,
    expected: TokenPurpose,
    now: i64,
    token: Seq<char>,
    r: Result<T, TokenError>,
) -> bool {
    &&& r is Ok ==> signed_under(key, token)
    &&& r matches Ok(x) ==> exists|ps: Seq<Seq<u8>>|
        all_accepted(expected, one_shot_prefixes(), now, ps) && one_shot_result(
            expected,
            first_party(ps),
        ) == Ok::<OneShotView, TokenErrorView>(x@)
    &&& forall|id: Seq<u8>, loc: Option<Seq<char>>, ps: Seq<Seq<u8>>|
        #![trigger v2_token(id, loc, ps, signature_chain(key, id, ps))]
        well_signed(key, token, id, loc, ps) ==> if all_accepted(
            expected,
            one_shot_prefixes(),
            now,
            ps,
        ) {
            result_view(r) == one_shot_result(expected, first_party(ps))
        } else {
            r is Err
        }
}

fn verify_one_shot(keyring: &Keyring, expected: TokenPurpose, now_unix: i64, token: &str) -> (r: Result<
    OneShotFields,
    TokenError,
>)
    ensures
        one_shot_verified(keyring@, expected, now_unix, token@, r),
{
    proof {
        reveal_strlit("user=");
        reveal_strlit("nonce=");
        reveal_strlit("purpose=");
        reveal_strlit("exp=");
    }
    let prefixes = owned_strs(&["user=", "nonce="]);
    assert(strings_view(prefixes@) =~= one_shot_prefixes());
    let preds = match read_verified(keyring, now_unix, token, expected, &prefixes) {
        Ok(p) => p,
        Err(e) => {
            return Err(e);
        },
    };
    let keys = owned_strs(&["purpose=", "user=", "nonce=", "exp="]);
    let kinds: Vec<FieldKind> = vec![
        FieldKind::Text,
        FieldKind::Text,
        FieldKind::Text,
        FieldKind::Integer,
    ];
    assert(strings_view(keys@) =~= one_shot_keys());
    assert(kinds@ =~= one_shot_kinds());
    one_shot_from_scan(&preds, &keys, &kinds, expected)
}

fn one_shot_from_scan(
    preds: &Vec<Option<Vec<u8>>>,
    keys: &Vec<String>,
    kinds: &Vec<FieldKind>,
    expected: TokenPurpose,
) -> (r: Result<OneShotFields, TokenError>)
    requires
        strings_view(keys@) == one_shot_keys(),
        kinds@ == one_shot_kinds(),
    ensures
        result_view(r) == one_shot_result(expected, opt_bytes_view(preds@)),
{
    let ghost cavs = opt_bytes_view(preds@);
    proof {
        lemma_scan_values_valid(cavs, one_shot_keys(), one_shot_kinds());
        reveal_strlit("purpose");
        reveal_strlit("user");
        reveal_strlit("nonce");
        reveal_strlit("exp");
    }
    let vals = match scan_caveats(preds, keys, kinds) {
        Ok(v) => v,
        Err((i, v)) => {
            return Err(bad_value_error(kinds[i], keys[i].as_str(), v.as_str()));
        },
    };
    let purpose = match take_value(&vals, 0) {
        Some(p) => p,
        None => {
            return Err(missing("purpose"));
        },
    };
    if purpose != String::from_str(expected.as_str()) {
        return Err(TokenError::WrongPurpose { expected, found: purpose });
    }
    let user = match take_value(&vals, 1) {
        Some(x) => x,
        None => {
            return Err(missing("user"));
        },
    };
    let nonce = match take_value(&vals, 2) {
        Some(x) => x,
        None => {
            return Err(missing("nonce"));
        },
    };
    let exp_text = match take_value(&vals, 3) {
        Some(x) => x,
        None => {
            return Err(missing("exp"));
        },
    };
    let exp_unix = match parse_i64(exp_text.as_str()) {
        Some(x) => x,
        None => {
            return Err(TokenError::InvalidCaveat(exp_text));
        },
    };
    Ok(OneShotFields { user_id: UserId::from_string(user), nonce, exp_unix })
}

pub fn mint_password_reset(
    keyring: &Keyring,
    user_id: &UserId,
    nonce: &str,
    now_unix: i64,
    ttl_seconds: i64,
) -> (r: Result<String, TokenError>)
    requires
        i64::MIN <= now_unix + ttl_seconds <= i64::MAX,
    ensures
        r matches Ok(t) ==> t@.len() > 0,
        r is Ok <==> mintable(
            one_shot_identifier(TokenPurpose::PasswordReset, user_id@),
            one_shot_predicates(TokenPurpose::PasswordReset, user_id@, nonce@, now_unix + ttl_seconds),
        ),
        r matches Ok(t) ==> t@ == one_shot_token(
            keyring@,
            TokenPurpose::PasswordReset,
            user_id@,
            nonce@,
            now_unix + ttl_seconds,
        ),
        r matches Ok(t) ==> well_signed(
            keyring@,
            t@,
            encode_utf8(one_shot_identifier(TokenPurpose::PasswordReset, user_id@)),
            Some(token_location()),
            encoded(
                one_shot_predicates(
                    TokenPurpose::PasswordReset,
                    user_id@,
                    nonce@,
                    now_unix + ttl_seconds,
                ),
            ),
        ),
        r matches Err(e) ==> e@ is Malformed,
{
    mint_one_shot(keyring, TokenPurpose::PasswordReset, user_id, nonce, now_unix, ttl_seconds)
}

pub fn verify_password_reset(keyring: &Keyring, now_unix: i64, token: &str) -> (r: Result<
    PasswordResetToken,
    TokenError,
>)
    ensures
        one_shot_verified(keyring@, TokenPurpose::PasswordReset, now_unix, token@, r),
{
    match verify_one_shot(keyring, TokenPurpose::PasswordReset, now_unix, token) {
        Ok(f) => Ok(PasswordResetToken { user_id: f.user_id, nonce: f.nonce, exp_unix: f.exp_unix }),
        Err(e) => Err(e),
    }
}

pub fn mint_email_verify(
    keyring: &Keyring,
    user_id: &UserId,
    nonce: &str,
    now_unix: i64,
    ttl_seconds: i64,
) -> (r: Result<String, TokenError>)
    requires
        i64::MIN <= now_unix + ttl_seconds <= i64::MAX,
    ensures
        r matches Ok(t) ==> t@.len() > 0,
        r is Ok <==> mintable(
            one_shot_identifier(TokenPurpose::EmailVerify, user_id@),
            one_shot_predicates(TokenPurpose::EmailVerify, user_id@, nonce@, now_unix + ttl_seconds),
        ),
        r matches Ok(t) ==> t@ == one_shot_token(
            keyring@,
            TokenPurpose::EmailVerify,
            user_id@,
            nonce@,
            now_unix + ttl_seconds,
        ),
        r matches Ok(t) ==> well_signed(
            keyring@,
            t@,
            encode_utf8(one_shot_identifier(TokenPurpose::EmailVerify, user_id@)),
            Some(token_location()),
            encoded(
                one_shot_predicates(
                    TokenPurpose::EmailVerify,
                    user_id@,
                    nonce@,
                    now_unix + ttl_seconds,
                ),
            ),
        ),
        r matches Err(e) ==> e@ is Malformed,
{
    mint_one_shot(keyring, TokenPurpose::EmailVerify, user_id, nonce, now_unix, ttl_seconds)
}

pub fn verify_email_verify(keyring: &Keyring, now_unix: i64, token: &str) -> (r: Result<
    EmailVerifyToken,
    TokenError,
>)
    ensures
        one_shot_verified(keyring@, TokenPurpose::EmailVerify, now_unix, token@, r),
{
    match verify_one_shot(keyring, TokenPurpose::EmailVerify, now_unix, token) {
        Ok(f) => Ok(EmailVerifyToken { user_id: f.user_id, nonce: f.nonce, exp_unix: f.exp_unix }),
        Err(e) => Err(e),
    }
}

} // verus!
