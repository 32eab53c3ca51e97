//! Request validation and lookups shared by the service handlers.

use vstd::prelude::*;

use crate::domain::{
    Duplicate, Identity, Invitation, InvitationStatus, Role, ScopeKind, User, UserId,
};
use crate::services::error::{fails, from_store_error, rpc_result, Code, RpcError, RpcErrorView};
use crate::store::model::identity_of_user;
use crate::store::repo::{RepoModel, UserRepo};
use crate::text::{
    ascii_lower_seq, contains_char, format_i64, i64_decimal, seq_contains_char, split_once,
    split_once_spec, str_eq, to_ascii_lowercase, trim, trim_spec,
};

pub use crate::services::invite::{execute_invite_member, InviteMemberParams, InviteMemberResult};

verus! {

// ----- emails -----

/// What checking an email address gives: after trimming it must be
/// non-empty and split at its first `@` into a non-empty local part and a
/// non-empty domain without another `@`.
pub open spec fn email_check(email: Seq<char>) -> Result<(), RpcErrorView> {
    let t = trim_spec(email);
    if t.len() == 0 {
        fails(Code::InvalidArgument, "email is required"@)
    } else {
        match split_once_spec(t, '@') {
            None => fails(Code::InvalidArgument, "email must contain '@'"@),
            Some((local, domain)) => if local.len() == 0 || domain.len() == 0 || seq_contains_char(
                domain,
                '@',
            ) {
                fails(Code::InvalidArgument, "malformed email"@)
            } else {
                Ok(())
            },
        }
    }
}

pub fn validate_email(email: &str) -> (r: Result<(), RpcError>)
    ensures
        rpc_result(r) == email_check(email@),
{
    let trimmed = trim(email);
    if trimmed.as_str().unicode_len() == 0 {
        return Err(RpcError::msg(Code::InvalidArgument, "email is required"));
    }
    let (local, domain) = match split_once(trimmed.as_str(), '@') {
        Some(parts) => parts,
        None => {
            return Err(RpcError::msg(Code::InvalidArgument, "email must contain '@'"));
        },
    };
    if local.as_str().unicode_len() == 0 || domain.as_str().unicode_len() == 0 {
        return Err(RpcError::msg(Code::InvalidArgument, "malformed email"));
    }
    if contains_char(domain.as_str(), '@') {
        return Err(RpcError::msg(Code::InvalidArgument, "malformed email"));
    }
    Ok(())
}

/// The lower-cased domain of an email: what follows the first `@`,
/// trimmed, when that is non-empty and holds no other `@`.
pub open spec fn email_domain_spec(email: Seq<char>) -> Option<Seq<char>> {
    match split_once_spec(email, '@') {
        None => None,
        Some((_, dom)) => {
            let d = trim_spec(dom);
            if d.len() == 0 || seq_contains_char(d, '@') {
                None
            } else {
                Some(ascii_lower_seq(d))
            }
        },
    }
}

pub fn email_domain(email: &str) -> (r: Option<String>)
    ensures
        match r {
            Some(d) => email_domain_spec(email@) == Some(d@),
            None => email_domain_spec(email@) is None,
        },
{
    let (_, dom) = match split_once(email, '@') {
        Some(parts) => parts,
        None => {
            return None;
        },
    };
    let d = trim(dom.as_str());
    if d.as_str().unicode_len() == 0 || contains_char(d.as_str(), '@') {
        return None;
    }
    Some(to_ascii_lowercase(d.as_str()))
}

// ----- roles and scope kinds on the wire -----

/// The wire value of a role: 1 for owner, 2 for member.
pub open spec fn role_wire(r: Role) -> i32 {
    match r {
        Role::Owner => 1,
        Role::Member => 2,
    }
}

pub open spec fn role_of_wire(v: i32) -> Result<Role, RpcErrorView> {
    if v == 1 {
        Ok(Role::Owner)
    } else if v == 2 {
        Ok(Role::Member)
    } else {
        fails(Code::InvalidArgument, "unknown role value: "@ + i64_decimal(v as int))
    }
}

pub fn role_from_i32(v: i32) -> (r: Result<Role, RpcError>)
    ensures
        rpc_result(r) == role_of_wire(v),
{
    match v {
        1 => Ok(Role::Owner),
        2 => Ok(Role::Member),
        _ => {
            let mut m = String::from_str("unknown role value: ");
            let d = format_i64(v as i64);
            m.append(d.as_str());
            proof {
                reveal_strlit("unknown role value: ");
            }
            Err(RpcError::new(Code::InvalidArgument, m))
        },
    }
}

pub open spec fn scope_kind_of(s: Seq<char>) -> Result<ScopeKind, RpcErrorView> {
    match ScopeKind::spec_parse(s) {
        Some(k) => Ok(k),
        None => fails(Code::InvalidArgument, "unknown scope kind: "@ + s),
    }
}

pub fn parse_scope_kind(s: &str) -> (r: Result<ScopeKind, RpcError>)
    ensures
        rpc_result(r) == scope_kind_of(s@),
{
    match ScopeKind::parse(s) {
        Ok(k) => Ok(k),
        Err(m) => Err(RpcError::new(Code::InvalidArgument, m)),
    }
}

// ----- invitations -----

/// A stored invitation is usable with a token carrying `nonce` when the
/// nonce is still the current one and the invitation is still pending.
pub open spec fn pending_check(stored: Invitation, nonce: Seq<char>) -> Result<(), RpcErrorView> {
    if stored.nonce@ != nonce {
        fails(Code::FailedPrecondition, "invitation has been re-issued; use the latest link"@)
    } else if stored.status != InvitationStatus::Pending {
        fails(Code::FailedPrecondition, "invitation status is "@ + stored.status.spec_str())
    } else {
        Ok(())
    }
}

pub fn validate_pending_invitation(stored: &Invitation, expected_nonce: &str) -> (r: Result<(), RpcError>)
    ensures
        rpc_result(r) == pending_check(*stored, expected_nonce@),
{
    if !str_eq(stored.nonce.as_str(), expected_nonce) {
        return Err(
            RpcError::msg(
                Code::FailedPrecondition,
                "invitation has been re-issued; use the latest link",
            ),
        );
    }
    if stored.status != InvitationStatus::Pending {
        let mut m = String::from_str("invitation status is ");
        m.append(stored.status.as_str());
        proof {
            reveal_strlit("invitation status is ");
        }
        return Err(RpcError::new(Code::FailedPrecondition, m));
    }
    Ok(())
}

// ----- users and their password identities -----

/// The session's user, which must still exist.
pub open spec fn user_lookup(users: Map<Seq<char>, User>, id: Seq<char>) -> Result<User, RpcErrorView> {
    if users.contains_key(id) {
        Ok(users[id])
    } else {
        fails(Code::Unauthenticated, "session user no longer exists"@)
    }
}

pub fn fetch_user<R: UserRepo>(repo: &R, user_id: &UserId) -> (r: Result<User, RpcError>)
    requires
        repo.inv(),
    ensures
        rpc_result(r) == user_lookup(repo.model().users, user_id@),
{
    match repo.get_user(user_id) {
        Ok(Some(u)) => Ok(u),
        Ok(None) => Err(RpcError::msg(Code::Unauthenticated, "session user no longer exists")),
        Err(e) => Err(from_store_error(e)),
    }
}

/// The identity `i` is one of `user`'s password identities.
pub open spec fn is_password_identity_of(i: Identity, user: Seq<char>) -> bool {
    i.user_id@ == user && i.provider@ == "password"@
}

pub open spec fn has_password_identity(identities: Map<Seq<char>, Identity>, user: Seq<char>) -> bool {
    exists|k: Seq<char>|
        #[trigger] identities.contains_key(k) && is_password_identity_of(identities[k], user)
}

/// `user`'s password identity, or `missing` when the user has none.
pub fn fetch_password_identity<R: UserRepo>(repo: &R, user_id: &UserId, missing: RpcError) -> (r:
    Result<Identity, RpcError>)
    requires
        repo.inv(),
    ensures
        r is Ok <==> has_password_identity(repo.model().identities, user_id@),
        r matches Ok(i) ==> exists|k: Seq<char>|
            #[trigger] repo.model().identities.contains_key(k) && repo.model().identities[k] == i
                && is_password_identity_of(i, user_id@),
        r matches Err(e) ==> e@ == missing@,
{
    let ids = match repo.list_identities(user_id) {
        Ok(v) => v,
        Err(e) => {
            return Err(from_store_error(e));
        },
    };
    let ghost m = repo.model().identities;
    let ghost src = ids@;
    assert(crate::store::model::listed(m, src, identity_of_user(user_id@)));
    let password = "password";
    proof {
        reveal_strlit("password");
    }
    let mut i: usize = 0;
    while i < ids.len()
        invariant
            src == ids@,
            i <= ids.len(),
            crate::store::model::listed(m, src, identity_of_user(user_id@)),
            m == repo.model().identities,
            password@ == "password"@,
            forall|t: int| 0 <= t < i ==> (#[trigger] src[t]).provider@ != "password"@,
        decreases ids.len() - i,
    {
        if str_eq(ids[i].provider.as_str(), password) {
            let found = ids[i].duplicate();
            proof {
                assert(crate::store::table::value_of(m, identity_of_user(user_id@), src[i as int]));
                let k = choose|k: Seq<char>|
                    #[trigger] m.contains_key(k) && m[k] == src[i as int] && identity_of_user(
                        user_id@,
                    )(k, src[i as int]);
                assert(is_password_identity_of(m[k], user_id@));
            }
            return Ok(found);
        }
        i = i + 1;
    }
    proof {
        if has_password_identity(m, user_id@) {
            let k = choose|k: Seq<char>|
                #[trigger] m.contains_key(k) && is_password_identity_of(m[k], user_id@);
            assert(identity_of_user(user_id@)(k, m[k]));
            assert(src.contains(m[k]));
            let t = choose|t: int| 0 <= t < src.len() && src[t] == m[k];
            assert(src[t].provider@ != "password"@);
        }
    }
    Err(missing)
}

} // verus!
