//! What holds of tokens across minting and verification: a token is
//! accepted back with the contents it was minted with, until it expires,
//! and only by the verifier for its own purpose.

use vstd::prelude::*;
use vstd::utf8::*;

use crate::auth::invitation_token::{
    invitation_keys, invitation_kinds, invitation_predicates, invitation_prefixes,
    invitation_result, InvitationTokenView, MintInvitationView,
};
use crate::auth::macaroon::{accepted_by, exp_prefix_bytes, expiry_after, first_party};
use crate::auth::one_shot_token::{
    one_shot_keys, one_shot_kinds, one_shot_predicates, one_shot_prefixes, one_shot_result,
    OneShotView,
};
use crate::auth::session::SessionView;
use crate::auth::tokens::{
    all_accepted, caveat, caveat_text, classify, encoded, field_valid, lemma_encode_utf8_concat,
    prefix_set, purpose_caveat, scan, session_keys, session_kinds, session_predicates,
    session_prefixes, session_result, FieldKind, MintSessionView, TokenErrorView,
};
use crate::domain::enums::{auth_method_encoding, AuthMethod};
use crate::domain::{Role, ScopeKind, TokenPurpose};
use crate::text::{i64_decimal, lemma_parse_i64_of_decimal, seq_has_prefix, strip_prefix_spec};

verus! {

broadcast use {encode_utf8_valid_utf8, encode_utf8_decode_utf8};

/// A caveat `k=v` starts with the key `k=`, and what follows it is `v`.
pub proof fn lemma_caveat_strip(k: Seq<char>, v: Seq<char>)
    ensures
        strip_prefix_spec(caveat(k, v), k + "="@) == Some(v),
        encode_utf8(caveat(k, v)) == encode_utf8(k + "="@) + encode_utf8(v),
        seq_has_prefix(encode_utf8(caveat(k, v)), encode_utf8(k + "="@)),
{
    let key = k + "="@;
    let t = caveat(k, v);
    assert(t =~= key + v);
    assert(t.subrange(0, key.len() as int) =~= key);
    assert(t.subrange(key.len() as int, t.len() as int) =~= v);
    lemma_encode_utf8_concat(key, v);
    let e = encode_utf8(t);
    assert(e.subrange(0, encode_utf8(key).len() as int) =~= encode_utf8(key));
}

/// A text does not start with a key that differs from it at some position
/// within the key.
pub proof fn lemma_not_prefix(t: Seq<char>, key: Seq<char>, x: int)
    requires
        0 <= x < key.len(),
        x < t.len() ==> t[x] != key[x],
    ensures
        !seq_has_prefix(t, key),
        strip_prefix_spec(t, key) is None,
{
    if seq_has_prefix(t, key) {
        assert(t.subrange(0, key.len() as int)[x] == t[x]);
    }
}

/// `classify` picks key `i` when no earlier key is a prefix and key `i` is.
pub proof fn lemma_classify_at(t: Seq<char>, keys: Seq<Seq<char>>, i: int, v: Seq<char>, from: int)
    requires
        0 <= from <= i < keys.len(),
        forall|j: int| from <= j < i ==> strip_prefix_spec(t, #[trigger] keys[j]) is None,
        strip_prefix_spec(t, keys[i]) == Some(v),
    ensures
        classify(t, keys, from) == Some((i, v)),
    decreases i - from,
{
    if from < i {
        lemma_classify_at(t, keys, i, v, from + 1);
    }
}

/// Reading one more caveat that binds key `i` to a valid value.
pub proof fn lemma_scan_push(
    cavs: Seq<Option<Seq<u8>>>,
    keys: Seq<Seq<char>>,
    kinds: Seq<FieldKind>,
    t: Seq<char>,
    i: int,
    v: Seq<char>,
)
    requires
        scan(cavs, keys, kinds) is Ok,
        classify(t, keys, 0) == Some((i, v)),
        field_valid(kinds[i], v),
    ensures
        scan(cavs.push(Some(encode_utf8(t))), keys, kinds) == Ok::<
            Seq<Option<Seq<char>>>,
            (int, Seq<char>),
        >(scan(cavs, keys, kinds)->Ok_0.update(i, Some(v))),
{
    let c2 = cavs.push(Some(encode_utf8(t)));
    assert(c2.drop_last() =~= cavs);
    assert(caveat_text(c2.last()) == Some(t));
}

proof fn lemma_prefix_key(k: Seq<char>, v: Seq<char>, keys: Seq<Seq<char>>, j: int)
    requires
        0 <= j < keys.len(),
        keys[j] == k + "="@,
    ensures
        prefix_set(keys).contains(encode_utf8(k + "="@)),
        exists|q: Seq<u8>| prefix_set(keys).contains(q) && seq_has_prefix(encode_utf8(caveat(k, v)), q),
{
    lemma_caveat_strip(k, v);
    assert(prefix_set(keys).contains(encode_utf8(k + "="@)));
}

/// A caveat `k=v` is read as key `i` when `k=` is key `i` and every
/// earlier key differs from `k=` in its first or second character.
pub proof fn lemma_classify_caveat(k: Seq<char>, v: Seq<char>, keys: Seq<Seq<char>>, i: int)
    requires
        0 <= i < keys.len(),
        k.len() >= 2,
        keys[i] == k + "="@,
        forall|j: int|
            0 <= j < i ==> (#[trigger] keys[j]).len() >= 2 && (keys[j][0] != k[0] || keys[j][1]
                != k[1]),
    ensures
        classify(caveat(k, v), keys, 0) == Some((i, v)),
{
    let t = caveat(k, v);
    lemma_caveat_strip(k, v);
    assert(t[0] == k[0] && t[1] == k[1]);
    assert forall|j: int| 0 <= j < i implies strip_prefix_spec(t, #[trigger] keys[j]) is None by {
        if keys[j][0] != k[0] {
            lemma_not_prefix(t, keys[j], 0);
        } else {
            lemma_not_prefix(t, keys[j], 1);
        }
    }
    lemma_classify_at(t, keys, i, v, 0);
}

/// The session a session token minted for `input` describes.
pub open spec fn minted_session_view(input: MintSessionView) -> SessionView {
    SessionView {
        user: input.user_id,
        email: input.email,
        billing: input.billing,
        org: input.org,
        role: input.role,
        auth_method: input.auth_method,
        exp_unix: (input.now_unix + input.ttl_seconds) as i64,
    }
}

proof fn lemma_session_keys()
    ensures
        session_keys()[0] == "purpose"@ + "="@,
        session_keys()[1] == "user"@ + "="@,
        session_keys()[2] == "email"@ + "="@,
        session_keys()[3] == "billing"@ + "="@,
        session_keys()[4] == "org"@ + "="@,
        session_keys()[5] == "role"@ + "="@,
        session_keys()[6] == "auth_method"@ + "="@,
        session_keys()[7] == "exp"@ + "="@,
        session_keys().len() == 8,
        "purpose"@[0] == 'p' && "user"@[0] == 'u' && "email"@[0] == 'e' && "email"@[1] == 'm'
            && "billing"@[0] == 'b' && "org"@[0] == 'o' && "role"@[0] == 'r' && "auth_method"@[0]
            == 'a' && "exp"@[0] == 'e' && "exp"@[1] == 'x',
        "purpose"@.len() >= 2 && "user"@.len() >= 2 && "email"@.len() >= 2 && "billing"@.len() >= 2
            && "org"@.len() >= 2 && "role"@.len() >= 2 && "auth_method"@.len() >= 2 && "exp"@.len() >= 2,
{
    reveal_strlit("purpose");
    reveal_strlit("user");
    reveal_strlit("email");
    reveal_strlit("billing");
    reveal_strlit("role");
    reveal_strlit("auth_method");
    reveal_strlit("exp");
    reveal_strlit("org");
    reveal_strlit("=");
    reveal_strlit("purpose=");
    reveal_strlit("user=");
    reveal_strlit("email=");
    reveal_strlit("billing=");
    reveal_strlit("org=");
    reveal_strlit("role=");
    reveal_strlit("auth_method=");
    reveal_strlit("exp=");
    assert("purpose"@ + "="@ =~= "purpose="@);
    assert("user"@ + "="@ =~= "user="@);
    assert("email"@ + "="@ =~= "email="@);
    assert("billing"@ + "="@ =~= "billing="@);
    assert("org"@ + "="@ =~= "org="@);
    assert("role"@ + "="@ =~= "role="@);
    assert("auth_method"@ + "="@ =~= "auth_method="@);
    assert("exp"@ + "="@ =~= "exp="@);
}

proof fn lemma_session_prefixes()
    ensures
        session_prefixes()[0] == "user"@ + "="@,
        session_prefixes()[1] == "email"@ + "="@,
        session_prefixes()[2] == "billing"@ + "="@,
        session_prefixes()[3] == "org"@ + "="@,
        session_prefixes()[4] == "role"@ + "="@,
        session_prefixes()[5] == "auth_method"@ + "="@,
        session_prefixes().len() == 6,
{
    lemma_session_keys();
}

/// `exp=<decimal n>` is accepted after any earlier time.
pub proof fn lemma_expiry_caveat(n: i64, now: i64)
    requires
        now < n,
    ensures
        expiry_after(encode_utf8(caveat("exp"@, i64_decimal(n as int))), now),
{
    reveal_strlit("exp");
    reveal_strlit("=");
    let v = i64_decimal(n as int);
    lemma_caveat_strip("exp"@, v);
    assert("exp"@ + "="@ =~= seq!['e', 'x', 'p', '=']);
    assert(is_ascii_chars("exp"@ + "="@));
    is_ascii_chars_encode_utf8("exp"@ + "="@);
    assert(encode_utf8("exp"@ + "="@) =~= exp_prefix_bytes());
    lemma_parse_i64_of_decimal(n);
    let b = encode_utf8(caveat("exp"@, v));
    let rest = b.subrange(exp_prefix_bytes().len() as int, b.len() as int);
    assert(rest =~= encode_utf8(v));
}

proof fn lemma_session_accepted(input: MintSessionView, now: i64)
    requires
        i64::MIN <= input.now_unix + input.ttl_seconds <= i64::MAX,
        now < input.now_unix + input.ttl_seconds,
    ensures
        all_accepted(TokenPurpose::Session, session_prefixes(), now, encoded(session_predicates(input))),
{
    let preds = session_predicates(input);
    let ps = encoded(preds);
    let exact = set![encode_utf8(purpose_caveat(TokenPurpose::Session))];
    let pre = prefix_set(session_prefixes());
    let bounds = set![now];
    let exp = (input.now_unix + input.ttl_seconds) as i64;
    lemma_session_prefixes();
    lemma_prefix_key("user"@, input.user_id, session_prefixes(), 0);
    lemma_prefix_key("email"@, input.email, session_prefixes(), 1);
    lemma_prefix_key("billing"@, input.billing, session_prefixes(), 2);
    lemma_prefix_key("role"@, input.role.spec_str(), session_prefixes(), 4);
    lemma_prefix_key("auth_method"@, auth_method_encoding(input.auth_method), session_prefixes(), 5);
    lemma_expiry_caveat(exp, now);
    match input.org {
        Some(o) => lemma_prefix_key("org"@, o, session_prefixes(), 3),
        None => {},
    }
    assert forall|j: int| 0 <= j < ps.len() implies accepted_by(exact, pre, bounds, #[trigger] ps[j]) by {
        assert(ps[j] == encode_utf8(preds[j]));
        if j == 0 {
            assert(exact.contains(ps[j]));
        }
    }
}

proof fn lemma_session_read(input: MintSessionView)
    requires
        i64::MIN <= input.now_unix + input.ttl_seconds <= i64::MAX,
    ensures
        session_result(first_party(encoded(session_predicates(input)))) == Ok::<
            SessionView,
            TokenErrorView,
        >(minted_session_view(input)),
{
    reveal_strlit("session");
    let exp = (input.now_unix + input.ttl_seconds) as i64;
    let keys = session_keys();
    let kinds = session_kinds();
    let preds = session_predicates(input);
    let ps = encoded(preds);
    let v_role = input.role.spec_str();
    let v_am = auth_method_encoding(input.auth_method);
    let v_exp = i64_decimal(exp as int);
    lemma_session_keys();
    lemma_classify_caveat("purpose"@, "session"@, keys, 0);
    lemma_classify_caveat("user"@, input.user_id, keys, 1);
    lemma_classify_caveat("email"@, input.email, keys, 2);
    lemma_classify_caveat("billing"@, input.billing, keys, 3);
    lemma_classify_caveat("role"@, v_role, keys, 5);
    lemma_classify_caveat("auth_method"@, v_am, keys, 6);
    lemma_classify_caveat("exp"@, v_exp, keys, 7);
    Role::lemma_parse_as_str(input.role);
    AuthMethod::lemma_decode_encode(input.auth_method);
    lemma_parse_i64_of_decimal(exp);
    let c0 = Seq::<Option<Seq<u8>>>::empty();
    let n0: Seq<Option<Seq<char>>> = Seq::new(8, |i: int| None);
    assert(scan(c0, keys, kinds) == Ok::<Seq<Option<Seq<char>>>, (int, Seq<char>)>(n0));
    lemma_scan_push(c0, keys, kinds, preds[0], 0, "session"@);
    let c1 = c0.push(Some(encode_utf8(preds[0])));
    lemma_scan_push(c1, keys, kinds, preds[1], 1, input.user_id);
    let c2 = c1.push(Some(encode_utf8(preds[1])));
    lemma_scan_push(c2, keys, kinds, preds[2], 2, input.email);
    let c3 = c2.push(Some(encode_utf8(preds[2])));
    lemma_scan_push(c3, keys, kinds, preds[3], 3, input.billing);
    let c4 = c3.push(Some(encode_utf8(preds[3])));
    lemma_scan_push(c4, keys, kinds, preds[4], 5, v_role);
    let c5 = c4.push(Some(encode_utf8(preds[4])));
    lemma_scan_push(c5, keys, kinds, preds[5], 6, v_am);
    let c6 = c5.push(Some(encode_utf8(preds[5])));
    lemma_scan_push(c6, keys, kinds, preds[6], 7, v_exp);
    let c7 = c6.push(Some(encode_utf8(preds[6])));
    let vals7 = n0.update(0, Some("session"@)).update(1, Some(input.user_id)).update(
        2,
        Some(input.email),
    ).update(3, Some(input.billing)).update(5, Some(v_role)).update(6, Some(v_am)).update(
        7,
        Some(v_exp),
    );
    match input.org {
        None => {
            assert(first_party(ps) =~= c7);
        },
        Some(o) => {
            lemma_classify_caveat("org"@, o, keys, 4);
            lemma_scan_push(c7, keys, kinds, preds[7], 4, o);
            assert(first_party(ps) =~= c7.push(Some(encode_utf8(preds[7]))));
        },
    }
}

/// Session tokens round-trip: every caveat of a session token minted for
/// `input` is accepted by the session verifier at any time `now` before the
/// token's expiry, and the caveats describe exactly the minted session.
pub proof fn law_session_roundtrip(input: MintSessionView, now: i64)
    requires
        i64::MIN <= input.now_unix + input.ttl_seconds <= i64::MAX,
        now < input.now_unix + input.ttl_seconds,
    ensures
        all_accepted(TokenPurpose::Session, session_prefixes(), now, encoded(session_predicates(input))),
        session_result(first_party(encoded(session_predicates(input)))) == Ok::<
            SessionView,
            TokenErrorView,
        >(minted_session_view(input)),
{
    lemma_session_accepted(input, now);
    lemma_session_read(input);
}

// ---------------------------------------------------------------------
// Invitation tokens
// ---------------------------------------------------------------------

/// The invitation an invitation token minted for `input` describes.
pub open spec fn minted_invitation_view(input: MintInvitationView) -> InvitationTokenView {
    InvitationTokenView {
        invitation_id: input.invitation_id,
        email: input.email,
        scope_kind: input.scope_kind,
        scope_id: input.scope_id,
        role: input.role,
        required_idp: input.required_idp,
        nonce: input.nonce,
        exp_unix: (input.now_unix + input.ttl_seconds) as i64,
    }
}

proof fn lemma_invitation_keys()
    ensures
        invitation_keys().len() == 9,
        invitation_keys()[0] == "purpose"@ + "="@,
        invitation_keys()[1] == "invitation_id"@ + "="@,
        invitation_keys()[2] == "email"@ + "="@,
        invitation_keys()[3] == "scope_kind"@ + "="@,
        invitation_keys()[4] == "scope_id"@ + "="@,
        invitation_keys()[5] == "role"@ + "="@,
        invitation_keys()[6] == "required_idp"@ + "="@,
        invitation_keys()[7] == "nonce"@ + "="@,
        invitation_keys()[8] == "exp"@ + "="@,
        invitation_prefixes().len() == 7,
        invitation_prefixes()[0] == "invitation_id"@ + "="@,
        invitation_prefixes()[1] == "email"@ + "="@,
        invitation_prefixes()[2] == "scope_kind"@ + "="@,
        invitation_prefixes()[3] == "scope_id"@ + "="@,
        invitation_prefixes()[4] == "role"@ + "="@,
        invitation_prefixes()[5] == "nonce"@ + "="@,
        invitation_prefixes()[6] == "required_idp"@ + "="@,
        "purpose"@[0] == 'p' && "invitation_id"@[0] == 'i' && "email"@[0] == 'e' && "email"@[1]
            == 'm' && "scope_kind"@[0] == 's' && "scope_kind"@[6] == 'k' && "scope_id"@[0] == 's'
            && "scope_id"@[6] == 'i' && "role"@[0] == 'r' && "role"@[1] == 'o'
            && "required_idp"@[0] == 'r' && "required_idp"@[1] == 'e' && "nonce"@[0] == 'n'
            && "exp"@[0] == 'e' && "exp"@[1] == 'x',
        "purpose"@.len() >= 2 && "invitation_id"@.len() >= 2 && "email"@.len() >= 2
            && "scope_kind"@.len() >= 7 && "scope_id"@.len() >= 7 && "role"@.len() >= 2
            && "required_idp"@.len() >= 2 && "nonce"@.len() >= 2 && "exp"@.len() >= 2,
{
    reveal_strlit("purpose");
    reveal_strlit("invitation_id");
    reveal_strlit("email");
    reveal_strlit("scope_kind");
    reveal_strlit("scope_id");
    reveal_strlit("role");
    reveal_strlit("required_idp");
    reveal_strlit("nonce");
    reveal_strlit("exp");
    reveal_strlit("=");
    reveal_strlit("purpose=");
    reveal_strlit("invitation_id=");
    reveal_strlit("email=");
    reveal_strlit("scope_kind=");
    reveal_strlit("scope_id=");
    reveal_strlit("role=");
    reveal_strlit("required_idp=");
    reveal_strlit("nonce=");
    reveal_strlit("exp=");
    assert("purpose"@ + "="@ =~= "purpose="@);
    assert("invitation_id"@ + "="@ =~= "invitation_id="@);
    assert("email"@ + "="@ =~= "email="@);
    assert("scope_kind"@ + "="@ =~= "scope_kind="@);
    assert("scope_id"@ + "="@ =~= "scope_id="@);
    assert("role"@ + "="@ =~= "role="@);
    assert("required_idp"@ + "="@ =~= "required_idp="@);
    assert("nonce"@ + "="@ =~= "nonce="@);
    assert("exp"@ + "="@ =~= "exp="@);
}

proof fn lemma_invitation_accepted(input: MintInvitationView, now: i64)
    requires
        i64::MIN <= input.now_unix + input.ttl_seconds <= i64::MAX,
        now < input.now_unix + input.ttl_seconds,
    ensures
        all_accepted(
            TokenPurpose::Invitation,
            invitation_prefixes(),
            now,
            encoded(invitation_predicates(input)),
        ),
{
    let preds = invitation_predicates(input);
    let ps = encoded(preds);
    let exact = set![encode_utf8(purpose_caveat(TokenPurpose::Invitation))];
    let pre = prefix_set(invitation_prefixes());
    let bounds = set![now];
    let exp = (input.now_unix + input.ttl_seconds) as i64;
    let keys = invitation_prefixes();
    lemma_invitation_keys();
    lemma_prefix_key("invitation_id"@, input.invitation_id, keys, 0);
    lemma_prefix_key("email"@, input.email, keys, 1);
    lemma_prefix_key("scope_kind"@, input.scope_kind.spec_str(), keys, 2);
    lemma_prefix_key("scope_id"@, input.scope_id, keys, 3);
    lemma_prefix_key("role"@, input.role.spec_str(), keys, 4);
    lemma_prefix_key("nonce"@, input.nonce, keys, 5);
    lemma_expiry_caveat(exp, now);
    match input.required_idp {
        Some(idp) => lemma_prefix_key("required_idp"@, idp, keys, 6),
        None => {},
    }
    assert forall|j: int| 0 <= j < ps.len() implies accepted_by(exact, pre, bounds, #[trigger] ps[j]) by {
        assert(ps[j] == encode_utf8(preds[j]));
        if j == 0 {
            assert(exact.contains(ps[j]));
        }
    }
}

proof fn lemma_classify_scope_id(v: Seq<char>)
    ensures
        classify(caveat("scope_id"@, v), invitation_keys(), 0) == Some((4int, v)),
{
    let keys = invitation_keys();
    let t = caveat("scope_id"@, v);
    lemma_invitation_keys();
    lemma_caveat_strip("scope_id"@, v);
    assert(t[0] == 's' && t[6] == 'i');
    assert forall|j: int| 0 <= j < 4 implies strip_prefix_spec(t, #[trigger] keys[j]) is None by {
        if j == 3 {
            lemma_not_prefix(t, keys[j], 6);
        } else {
            lemma_not_prefix(t, keys[j], 0);
        }
    }
    lemma_classify_at(t, keys, 4, v, 0);
}

proof fn lemma_invitation_read(input: MintInvitationView)
    requires
        i64::MIN <= input.now_unix + input.ttl_seconds <= i64::MAX,
    ensures
        invitation_result(first_party(encoded(invitation_predicates(input)))) == Ok::<
            InvitationTokenView,
            TokenErrorView,
        >(minted_invitation_view(input)),
{
    reveal_strlit("invitation");
    let exp = (input.now_unix + input.ttl_seconds) as i64;
    let keys = invitation_keys();
    let kinds = invitation_kinds();
    let preds = invitation_predicates(input);
    let ps = encoded(preds);
    let v_scope = input.scope_kind.spec_str();
    let v_role = input.role.spec_str();
    let v_exp = i64_decimal(exp as int);
    lemma_invitation_keys();
    lemma_classify_caveat("purpose"@, "invitation"@, keys, 0);
    lemma_classify_caveat("invitation_id"@, input.invitation_id, keys, 1);
    lemma_classify_caveat("email"@, input.email, keys, 2);
    lemma_classify_caveat("scope_kind"@, v_scope, keys, 3);
    lemma_classify_scope_id(input.scope_id);
    lemma_classify_caveat("role"@, v_role, keys, 5);
    lemma_classify_caveat("nonce"@, input.nonce, keys, 7);
    lemma_classify_caveat("exp"@, v_exp, keys, 8);
    ScopeKind::lemma_parse_as_str(input.scope_kind);
    Role::lemma_parse_as_str(input.role);
    lemma_parse_i64_of_decimal(exp);
    let c0 = Seq::<Option<Seq<u8>>>::empty();
    let n0: Seq<Option<Seq<char>>> = Seq::new(9, |i: int| None);
    assert(scan(c0, keys, kinds) == Ok::<Seq<Option<Seq<char>>>, (int, Seq<char>)>(n0));
    lemma_scan_push(c0, keys, kinds, preds[0], 0, "invitation"@);
    let c1 = c0.push(Some(encode_utf8(preds[0])));
    lemma_scan_push(c1, keys, kinds, preds[1], 1, input.invitation_id);
    let c2 = c1.push(Some(encode_utf8(preds[1])));
    lemma_scan_push(c2, keys, kinds, preds[2], 2, input.email);
    let c3 = c2.push(Some(encode_utf8(preds[2])));
    lemma_scan_push(c3, keys, kinds, preds[3], 3, v_scope);
    let c4 = c3.push(Some(encode_utf8(preds[3])));
    lemma_scan_push(c4, keys, kinds, preds[4], 4, input.scope_id);
    let c5 = c4.push(Some(encode_utf8(preds[4])));
    lemma_scan_push(c5, keys, kinds, preds[5], 5, v_role);
    let c6 = c5.push(Some(encode_utf8(preds[5])));
    lemma_scan_push(c6, keys, kinds, preds[6], 7, input.nonce);
    let c7 = c6.push(Some(encode_utf8(preds[6])));
    lemma_scan_push(c7, keys, kinds, preds[7], 8, v_exp);
    let c8 = c7.push(Some(encode_utf8(preds[7])));
    match input.required_idp {
        None => {
            assert(first_party(ps) =~= c8);
        },
        Some(idp) => {
            lemma_classify_caveat("required_idp"@, idp, keys, 6);
            lemma_scan_push(c8, keys, kinds, preds[8], 6, idp);
            assert(first_party(ps) =~= c8.push(Some(encode_utf8(preds[8]))));
        },
    }
}

/// Invitation tokens round-trip: every caveat of an invitation token minted
/// for `input` is accepted by the invitation verifier at any time `now`
/// before the token's expiry, and the caveats describe exactly the minted
/// invitation, required identity provider included.
pub proof fn law_invitation_roundtrip(input: MintInvitationView, now: i64)
    requires
        i64::MIN <= input.now_unix + input.ttl_seconds <= i64::MAX,
        now < input.now_unix + input.ttl_seconds,
    ensures
        all_accepted(
            TokenPurpose::Invitation,
            invitation_prefixes(),
            now,
            encoded(invitation_predicates(input)),
        ),
        invitation_result(first_party(encoded(invitation_predicates(input)))) == Ok::<
            InvitationTokenView,
            TokenErrorView,
        >(minted_invitation_view(input)),
{
    lemma_invitation_accepted(input, now);
    lemma_invitation_read(input);
}

// ---------------------------------------------------------------------
// One-shot tokens
// ---------------------------------------------------------------------

proof fn lemma_one_shot_keys()
    ensures
        one_shot_keys().len() == 4,
        one_shot_keys()[0] == "purpose"@ + "="@,
        one_shot_keys()[1] == "user"@ + "="@,
        one_shot_keys()[2] == "nonce"@ + "="@,
        one_shot_keys()[3] == "exp"@ + "="@,
        one_shot_prefixes().len() == 2,
        one_shot_prefixes()[0] == "user"@ + "="@,
        one_shot_prefixes()[1] == "nonce"@ + "="@,
        "purpose"@[0] == 'p' && "user"@[0] == 'u' && "nonce"@[0] == 'n' && "exp"@[0] == 'e',
        "purpose"@.len() >= 2 && "user"@.len() >= 2 && "nonce"@.len() >= 2 && "exp"@.len() >= 2,
{
    reveal_strlit("purpose");
    reveal_strlit("user");
    reveal_strlit("nonce");
    reveal_strlit("exp");
    reveal_strlit("=");
    reveal_strlit("purpose=");
    reveal_strlit("user=");
    reveal_strlit("nonce=");
    reveal_strlit("exp=");
    assert("purpose"@ + "="@ =~= "purpose="@);
    assert("user"@ + "="@ =~= "user="@);
    assert("nonce"@ + "="@ =~= "nonce="@);
    assert("exp"@ + "="@ =~= "exp="@);
}

/// One-shot tokens round-trip: every caveat of a password-reset or
/// email-verification token is accepted by the verifier for the same
/// purpose before the token's expiry `exp`, and the caveats name exactly
/// the user, nonce and expiry it was minted with.
pub proof fn law_one_shot_roundtrip(
    purpose: TokenPurpose,
    user: Seq<char>,
    nonce: Seq<char>,
    exp: i64,
    now: i64,
)
    requires
        now < exp,
    ensures
        all_accepted(
            purpose,
            one_shot_prefixes(),
            now,
            encoded(one_shot_predicates(purpose, user, nonce, exp as int)),
        ),
        one_shot_result(purpose, first_party(encoded(one_shot_predicates(purpose, user, nonce, exp as int))))
            == Ok::<OneShotView, TokenErrorView>(OneShotView { user_id: user, nonce, exp_unix: exp }),
{
    let preds = one_shot_predicates(purpose, user, nonce, exp as int);
    let ps = encoded(preds);
    let keys = one_shot_keys();
    let kinds = one_shot_kinds();
    let v_exp = i64_decimal(exp as int);
    lemma_one_shot_keys();
    let exact = set![encode_utf8(purpose_caveat(purpose))];
    let pre = prefix_set(one_shot_prefixes());
    lemma_prefix_key("user"@, user, one_shot_prefixes(), 0);
    lemma_prefix_key("nonce"@, nonce, one_shot_prefixes(), 1);
    lemma_expiry_caveat(exp, now);
    assert forall|j: int| 0 <= j < ps.len() implies accepted_by(exact, pre, set![now], #[trigger] ps[j]) by {
        assert(ps[j] == encode_utf8(preds[j]));
        if j == 0 {
            assert(exact.contains(ps[j]));
        }
    }
    lemma_classify_caveat("purpose"@, purpose.spec_str(), keys, 0);
    lemma_classify_caveat("user"@, user, keys, 1);
    lemma_classify_caveat("nonce"@, nonce, keys, 2);
    lemma_classify_caveat("exp"@, v_exp, keys, 3);
    lemma_parse_i64_of_decimal(exp);
    let c0 = Seq::<Option<Seq<u8>>>::empty();
    let n0: Seq<Option<Seq<char>>> = Seq::new(4, |i: int| None);
    assert(scan(c0, keys, kinds) == Ok::<Seq<Option<Seq<char>>>, (int, Seq<char>)>(n0));
    lemma_scan_push(c0, keys, kinds, preds[0], 0, purpose.spec_str());
    let c1 = c0.push(Some(encode_utf8(preds[0])));
    lemma_scan_push(c1, keys, kinds, preds[1], 1, user);
    let c2 = c1.push(Some(encode_utf8(preds[1])));
    lemma_scan_push(c2, keys, kinds, preds[2], 2, nonce);
    let c3 = c2.push(Some(encode_utf8(preds[2])));
    lemma_scan_push(c3, keys, kinds, preds[3], 3, v_exp);
    assert(first_party(ps) =~= c3.push(Some(encode_utf8(preds[3]))));
}

// ---------------------------------------------------------------------
// Rejection: wrong purpose, expired
// ---------------------------------------------------------------------

/// The prefix lists the three verifiers accept.
pub open spec fn verifier_prefix_list(ks: Seq<Seq<char>>) -> bool {
    ks == session_prefixes() || ks == invitation_prefixes() || ks == one_shot_prefixes()
}

/// Every prefix starts with two ASCII characters, not with `p` and not
/// with `ex`.
spec fn foreign_prefixes(ks: Seq<Seq<char>>) -> bool {
    forall|i: int|
        0 <= i < ks.len() ==> {
            &&& (#[trigger] ks[i]).len() >= 2
            &&& ks[i][0] <= '\u{7f}'
            &&& ks[i][1] <= '\u{7f}'
            &&& ks[i][0] != 'p'
            &&& !(ks[i][0] == 'e' && ks[i][1] == 'x')
        }
}

proof fn lemma_verifier_prefixes_foreign(ks: Seq<Seq<char>>)
    requires
        verifier_prefix_list(ks),
    ensures
        foreign_prefixes(ks),
{
    lemma_session_prefixes();
    lemma_session_keys();
    lemma_invitation_keys();
    lemma_one_shot_keys();
    reveal_strlit("user");
    reveal_strlit("email");
    reveal_strlit("billing");
    reveal_strlit("org");
    reveal_strlit("role");
    reveal_strlit("auth_method");
    reveal_strlit("invitation_id");
    reveal_strlit("scope_kind");
    reveal_strlit("scope_id");
    reveal_strlit("nonce");
    reveal_strlit("required_idp");
}

proof fn lemma_ascii_char(c: char)
    requires
        c <= '\u{7f}',
    ensures
        '\0' <= c,
        (c as u32) < 128,
{
}

proof fn lemma_ascii_distinct(c: char, d: char)
    requires
        c <= '\u{7f}',
        d <= '\u{7f}',
        c != d,
    ensures
        c as u8 != d as u8,
{
    assert((c as u32) < 128);
    assert((d as u32) < 128);
}

/// The first two bytes of the encoding of a text that starts with two
/// ASCII characters are those characters.
proof fn lemma_first_bytes(s: Seq<char>)
    requires
        s.len() >= 2,
        s[0] <= '\u{7f}',
        s[1] <= '\u{7f}',
    ensures
        encode_utf8(s).len() >= 2,
        encode_utf8(s)[0] == s[0] as u8,
        encode_utf8(s)[1] == s[1] as u8,
{
    let p = s.subrange(0, 2);
    let rest = s.subrange(2, s.len() as int);
    assert(s =~= p + rest);
    lemma_encode_utf8_concat(p, rest);
    assert(p.len() == 2 && p[0] == s[0] && p[1] == s[1]);
    lemma_ascii_char(s[0]);
    lemma_ascii_char(s[1]);
    assert(is_ascii_chars(p));
    is_ascii_chars_encode_utf8(p);
}

/// A predicate whose first two bytes are those of no prefix is accepted by
/// no prefix.
proof fn lemma_no_prefix_accepts(pred: Seq<u8>, ks: Seq<Seq<char>>)
    requires
        foreign_prefixes(ks),
        pred.len() >= 2,
        forall|i: int|
            0 <= i < ks.len() ==> !(pred[0] == (#[trigger] ks[i])[0] as u8 && pred[1] == ks[i][1] as u8),
    ensures
        !(exists|q: Seq<u8>| prefix_set(ks).contains(q) && seq_has_prefix(pred, q)),
{
    if exists|q: Seq<u8>| prefix_set(ks).contains(q) && seq_has_prefix(pred, q) {
        let q = choose|q: Seq<u8>| prefix_set(ks).contains(q) && seq_has_prefix(pred, q);
        let i = choose|i: int| 0 <= i < ks.len() && q == encode_utf8(#[trigger] ks[i]);
        lemma_first_bytes(ks[i]);
        assert(pred.subrange(0, q.len() as int)[0] == pred[0]);
        assert(pred.subrange(0, q.len() as int)[1] == pred[1]);
    }
}

/// A token that carries the purpose caveat of one kind is refused by the
/// verifier of any other kind: the purpose caveat matches neither that
/// verifier's exact purpose, nor its prefixes, nor its expiry check.
pub proof fn law_cross_purpose_rejected(
    minted: TokenPurpose,
    expected: TokenPurpose,
    prefixes: Seq<Seq<char>>,
    now: i64,
    ps: Seq<Seq<u8>>,
)
    requires
        minted != expected,
        verifier_prefix_list(prefixes),
        ps.contains(encode_utf8(purpose_caveat(minted))),
    ensures
        !all_accepted(expected, prefixes, now, ps),
{
    let pc = purpose_caveat(minted);
    let pred = encode_utf8(pc);
    let i = choose|i: int| 0 <= i < ps.len() && ps[i] == pred;
    lemma_verifier_prefixes_foreign(prefixes);
    reveal_strlit("purpose");
    reveal_strlit("=");
    assert(pc[0] == 'p' && pc[1] == 'u');
    lemma_first_bytes(pc);
    if encode_utf8(purpose_caveat(expected)) == pred {
        assert(decode_utf8(encode_utf8(purpose_caveat(expected))) == decode_utf8(pred));
        assert(purpose_caveat(expected) == pc);
        lemma_caveat_strip("purpose"@, minted.spec_str());
        lemma_caveat_strip("purpose"@, expected.spec_str());
        TokenPurpose::lemma_str_injective(minted, expected);
    }
    assert(!set![encode_utf8(purpose_caveat(expected))].contains(pred));
    assert forall|j: int| 0 <= j < prefixes.len() implies !(pred[0] == (#[trigger] prefixes[j])[0] as u8
        && pred[1] == prefixes[j][1] as u8) by {
        lemma_ascii_distinct(prefixes[j][0], 'p');
    }
    lemma_no_prefix_accepts(pred, prefixes);
    assert(!seq_has_prefix(pred, exp_prefix_bytes())) by {
        if seq_has_prefix(pred, exp_prefix_bytes()) {
            assert(pred.subrange(0, 4)[0] == pred[0]);
            assert(pred[0] == 'p' as u8);
        }
    }
    assert(!expiry_after(pred, now));
    assert(!accepted_by(
        set![encode_utf8(purpose_caveat(expected))],
        prefix_set(prefixes),
        set![now],
        ps[i],
    ));
}

/// A token whose expiry caveat `exp=<n>` is not after `now` is refused by
/// every verifier at `now`.
pub proof fn law_expired_rejected(
    purpose: TokenPurpose,
    prefixes: Seq<Seq<char>>,
    now: i64,
    ps: Seq<Seq<u8>>,
    n: i64,
)
    requires
        n <= now,
        verifier_prefix_list(prefixes),
        ps.contains(encode_utf8(caveat("exp"@, i64_decimal(n as int)))),
    ensures
        !all_accepted(purpose, prefixes, now, ps),
{
    let ec = caveat("exp"@, i64_decimal(n as int));
    let pred = encode_utf8(ec);
    let i = choose|i: int| 0 <= i < ps.len() && ps[i] == pred;
    lemma_verifier_prefixes_foreign(prefixes);
    reveal_strlit("exp");
    reveal_strlit("purpose");
    reveal_strlit("=");
    assert(ec[0] == 'e' && ec[1] == 'x');
    lemma_first_bytes(ec);
    let pc = purpose_caveat(purpose);
    assert(pc[0] == 'p' && pc[1] == 'u');
    lemma_first_bytes(pc);
    assert(encode_utf8(pc) != pred);
    assert forall|j: int| 0 <= j < prefixes.len() implies !(pred[0] == (#[trigger] prefixes[j])[0] as u8
        && pred[1] == prefixes[j][1] as u8) by {
        if prefixes[j][0] == 'e' {
            lemma_ascii_distinct(prefixes[j][1], 'x');
        } else {
            lemma_ascii_distinct(prefixes[j][0], 'e');
        }
    }
    lemma_no_prefix_accepts(pred, prefixes);
    lemma_caveat_strip("exp"@, i64_decimal(n as int));
    assert("exp"@ + "="@ =~= seq!['e', 'x', 'p', '=']);
    assert(is_ascii_chars("exp"@ + "="@));
    is_ascii_chars_encode_utf8("exp"@ + "="@);
    assert(encode_utf8("exp"@ + "="@) =~= exp_prefix_bytes());
    lemma_parse_i64_of_decimal(n);
    let rest = pred.subrange(exp_prefix_bytes().len() as int, pred.len() as int);
    assert(rest =~= encode_utf8(i64_decimal(n as int)));
    assert(!expiry_after(pred, now));
    assert(!accepted_by(set![encode_utf8(pc)], prefix_set(prefixes), set![now], ps[i]));
}

} // verus!
