//! Credentials of a signed-up user: changing and resetting the password,
//! and linking further identities.

use vstd::prelude::*;
use vstd::string::StringSliceAdditionalSpecFns;

use crate::auth::one_shot_token::{
    mint_password_reset, one_shot_identifier, one_shot_predicates, one_shot_token,
    one_shot_verified, verify_password_reset, PasswordResetToken,
};
use crate::auth::password::{hash_new_password, PasswordErrorView};
use crate::auth::tokens::{mintable, TokenError, TokenErrorView};
use crate::auth::SessionContext;
use crate::domain::enums::{identity_provider_decoding, identity_provider_encoding, AuthMethodView};
use crate::domain::ids::{fresh_prefixed_id, prefixed_id};
use crate::domain::{AuthMethod, Identity, IdentityProvider, TokenPurpose};
use crate::services::auth::{
    check_password_identity, hash_result_view, new_password_hash, only_repo_changed,
    password_identity_checked, AuthServer,
};
use crate::services::common::{
    fetch_password_identity, fetch_user, has_password_identity, is_password_identity_of,
    user_lookup,
};
use crate::services::error::{
    exists_as_precondition, fails, from_store_error, map_already_exists_as_precondition,
    map_password_error, map_token_error, password_rpc, rpc_err, rpc_result, store_rpc, token_rpc,
    Code, RpcError, RpcErrorView,
};
use crate::services::session::{issue_personal_session, personal_session_issued, SessionIssued};
use crate::state::{clock_fits, unix_of, AppState};
use crate::store::error::StoreErrorView;
use crate::store::model::{
    email_in_use, email_matches, identity_fields, identity_in_use, identity_matches, nonce_consumed,
    store_result, user_with_email, RepoState,
};
use crate::store::repo::{AuthFlowRepo, Repo, RepoModel, UserRepo};
use crate::text::concat;
use crate::time::unix_seconds;

verus! {

// ----- the stored password -----

/// The repository after the identity `id`'s secret became `secret`.
pub open spec fn secret_replaced(old: RepoState, new: RepoState, id: Seq<char>, secret: String) -> bool {
    new == (RepoState {
        identities: old.identities.insert(id, (Identity { secret: Some(secret), ..old.identities[id] })),
        ..old
    })
}

/// Storing a new password hash `h` for the identity `id`.
pub open spec fn password_stored(old: RepoState, new: RepoState, id: Seq<char>, h: Seq<char>) -> bool {
    exists|secret: String| #[trigger] secret_replaced(old, new, id, secret) && secret@ == h
}

/// A new password for the identity `i` of `old`: hashed, then stored.
pub open spec fn password_replaced(
    old: RepoState,
    new: RepoState,
    i: Identity,
    new_password: &str,
    r: Result<(), RpcErrorView>,
) -> bool {
    exists|hr: Result<Seq<char>, PasswordErrorView>|
        #[trigger] new_password_hash(new_password, hr) && match hr {
            Err(pe) => r == Err::<(), RpcErrorView>(password_rpc(pe)) && new == old,
            Ok(h) => r is Ok && password_stored(old, new, i.id@, h),
        }
}

/// Changing the password: the old one must check out against the user's
/// password identity, whose secret then becomes the new one's hash.
pub open spec fn change_password_outcome(
    old: RepoState,
    new: RepoState,
    user: Seq<char>,
    old_password: Seq<u8>,
    new_password: &str,
    r: Result<(), RpcErrorView>,
) -> bool {
    exists|pr: Result<Identity, RpcErrorView>|
        #[trigger] password_identity_checked(
            old,
            user,
            old_password,
            rpc_err(Code::FailedPrecondition, "this account doesn't have a password identity to change"@),
            pr,
        ) && match pr {
            Err(e) => r == Err::<(), RpcErrorView>(e) && new == old,
            Ok(i) => password_replaced(old, new, i, new_password, r),
        }
}

fn replace_password<R: UserRepo>(repo: &mut R, identity: &Identity, new_password: &str) -> (r: Result<(), RpcError>)
    requires
        old(repo).inv(),
        old(repo).model().identities.contains_key(identity.id@),
    ensures
        final(repo).inv(),
        password_replaced(old(repo).model(), final(repo).model(), *identity, new_password, rpc_result(r)),
{
    let ghost old_s = repo.model();
    let hashed = hash_new_password(new_password);
    let ghost hr = hash_result_view(hashed);
    assert(new_password_hash(new_password, hr));
    let new_hash = match hashed {
        Ok(h) => h,
        Err(e) => {
            return Err(map_password_error(e));
        },
    };
    let ghost secret = new_hash;
    match repo.update_identity_secret(&identity.id, new_hash) {
        Ok(()) => {},
        Err(e) => {
            return Err(from_store_error(e));
        },
    }
    assert(secret_replaced(old_s, repo.model(), identity.id@, secret));
    Ok(())
}

// ----- password reset -----

/// Asking for a password reset: nothing for an unknown email; for a known
/// one, a reset token for the user with the nonce `pwr_<uuid>` (handed back
/// directly, as no mail is sent).
pub open spec fn reset_requested(
    s: RepoState,
    key: Seq<u8>,
    ttl: i64,
    now_unix: i64,
    email: Seq<char>,
    r: Result<Option<String>, RpcError>,
) -> bool {
    if !email_in_use(s, email) {
        r matches Ok(None)
    } else {
        exists|k: Seq<char>, u: Seq<char>|
            #![trigger s.users.contains_key(k), prefixed_id("pwr"@, u)]
            s.users.contains_key(k) && email_matches(s.users[k], email) && u.len() == 36 && reset_minted(
                key,
                s.users[k].id@,
                prefixed_id("pwr"@, u),
                now_unix + ttl,
                r,
            )
    }
}

pub open spec fn reset_minted(key: Seq<u8>, user: Seq<char>, nonce: Seq<char>, exp: int, r: Result<Option<String>, RpcError>) -> bool {
    if mintable(
        one_shot_identifier(TokenPurpose::PasswordReset, user),
        one_shot_predicates(TokenPurpose::PasswordReset, user, nonce, exp),
    ) {
        r matches Ok(Some(t)) && t@ == one_shot_token(key, TokenPurpose::PasswordReset, user, nonce, exp)
    } else {
        r matches Err(e) && exists|m: Seq<char>| e@ == token_rpc(TokenErrorView::Malformed(m))
    }
}

/// Redeeming a reset token: the token must verify, its nonce must not have
/// been used (it is consumed first), the user must have a password
/// identity, whose secret becomes the new password's hash; then the user
/// is signed in.
pub open spec fn reset_consumed(
    old: RepoState,
    new: RepoState,
    key: Seq<u8>,
    ttl: i64,
    now_ms: i64,
    token: Seq<char>,
    new_password: &str,
    r: Result<SessionIssued, RpcError>,
) -> bool {
    exists|v: Result<PasswordResetToken, TokenError>|
        #[trigger] one_shot_verified(key, TokenPurpose::PasswordReset, unix_of(now_ms), token, v) && match v {
            Err(te) => rpc_result(r) == Err::<SessionIssued, RpcErrorView>(token_rpc(te@)) && new == old,
            Ok(t) => reset_with_token(old, new, key, ttl, now_ms, t@.user_id, t@.nonce, new_password, r),
        }
}

pub open spec fn reset_with_token(
    old: RepoState,
    new: RepoState,
    key: Seq<u8>,
    ttl: i64,
    now_ms: i64,
    user: Seq<char>,
    nonce: Seq<char>,
    new_password: &str,
    r: Result<SessionIssued, RpcError>,
) -> bool {
    exists|s1: RepoState, cr: Result<(), StoreErrorView>|
        #[trigger] nonce_consumed(old, s1, nonce, "password_reset"@, now_ms, cr) && match cr {
            Err(e) => rpc_result(r) == Err::<SessionIssued, RpcErrorView>(
                exists_as_precondition(e, "reset token already used"@),
            ) && new == s1,
            Ok(()) => reset_after_nonce(s1, new, key, ttl, now_ms, user, new_password, r),
        }
}

pub open spec fn reset_after_nonce(
    s1: RepoState,
    new: RepoState,
    key: Seq<u8>,
    ttl: i64,
    now_ms: i64,
    user: Seq<char>,
    new_password: &str,
    r: Result<SessionIssued, RpcError>,
) -> bool {
    if !has_password_identity(s1.identities, user) {
        rpc_result(r) == fails::<SessionIssued>(
            Code::FailedPrecondition,
            "this account doesn't have a password identity to reset"@,
        ) && new == s1
    } else {
        exists|k: Seq<char>, s2: RepoState, pr: Result<(), RpcErrorView>|
            #![trigger s1.identities.contains_key(k), password_replaced(s1, s2, s1.identities[k], new_password, pr)]
            s1.identities.contains_key(k) && is_password_identity_of(s1.identities[k], user)
                && password_replaced(s1, s2, s1.identities[k], new_password, pr) && match pr {
                Err(e) => rpc_result(r) == Err::<SessionIssued, RpcErrorView>(e) && new == s2,
                Ok(()) => new == s2 && match user_lookup(s2.users, user) {
                    Err(e) => rpc_result(r) == Err::<SessionIssued, RpcErrorView>(e),
                    Ok(u) => personal_session_issued(s2, key, ttl, unix_of(now_ms), u, AuthMethodView::Password, r),
                },
            }
    }
}

// ----- linking identities -----

/// What linking an identity at `provider` with this provider user id to
/// `user` does to the repository and gives back, as the repository's
/// `link_identity` says.
pub open spec fn identity_linked(
    old: RepoState,
    new: RepoState,
    user: Seq<char>,
    provider: Seq<char>,
    provider_user_id: Seq<char>,
    now_ms: i64,
    r: Result<Identity, StoreErrorView>,
) -> bool {
    &&& identity_in_use(old, provider, provider_user_id) ==> new == old && exists|k: Seq<char>|
        #[trigger] old.identities.contains_key(k) && identity_matches(old.identities[k], provider, provider_user_id)
            && if old.identities[k].user_id@ == user {
            r == Ok::<Identity, StoreErrorView>(old.identities[k])
        } else {
            r == Err::<Identity, StoreErrorView>(
                StoreErrorView::Conflict(
                    "identity "@ + provider + ":"@ + provider_user_id + " belongs to another user"@,
                ),
            )
        }
    &&& !identity_in_use(old, provider, provider_user_id) ==> (r matches Ok(i) && identity_fields(
        i,
        user,
        provider,
        provider_user_id,
        None,
        now_ms,
    ) && new == (RepoState { identities: old.identities.insert(i.id@, i), ..old }))
}

/// Linking an identity: the provider must be one the service knows; the
/// code stands for the provider-side user id.
pub open spec fn link_outcome(
    old: RepoState,
    new: RepoState,
    user: Seq<char>,
    provider: Seq<char>,
    code: Seq<char>,
    now_ms: i64,
    r: Result<String, RpcError>,
) -> bool {
    match identity_provider_decoding(provider) {
        None => rpc_result(r) == fails::<String>(Code::InvalidArgument, "unknown provider "@ + provider)
            && new == old,
        Some(p) => exists|lr: Result<Identity, StoreErrorView>|
            #[trigger] identity_linked(old, new, user, identity_provider_encoding(p), code, now_ms, lr)
                && match lr {
                Ok(i) => r matches Ok(id) && id@ == i.id@,
                Err(e) => rpc_result(r) == Err::<String, RpcErrorView>(store_rpc(e)),
            },
    }
}

impl AuthServer {
    /// Change the signed-in user's password, given the old one.
    pub fn change_password<R: Repo, B, C>(
        state: &mut AppState<R, B, C>,
        session: &SessionContext,
        old_password: &str,
        new_password: &str,
    ) -> (r: Result<(), RpcError>)
        requires
            old(state).repo.inv(),
        ensures
            final(state).repo.inv(),
            only_repo_changed(*old(state), *final(state)),
            change_password_outcome(
                old(state).repo.model(),
                final(state).repo.model(),
                session.user@,
                old_password.spec_bytes(),
                new_password,
                rpc_result(r),
            ),
    {
        let ghost old_s = state.repo.model();
        proof {
            state.repo.lemma_model_wf();
        }
        let missing = RpcError::msg(
            Code::FailedPrecondition,
            "this account doesn't have a password identity to change",
        );
        let checked = check_password_identity(&state.repo, &session.user, old_password, missing);
        let ghost pr = rpc_result(checked);
        assert(password_identity_checked(
            old_s,
            session.user@,
            old_password.spec_bytes(),
            rpc_err(Code::FailedPrecondition, "this account doesn't have a password identity to change"@),
            pr,
        ));
        let identity = match checked {
            Ok(i) => i,
            Err(e) => {
                return Err(e);
            },
        };
        replace_password(&mut state.repo, &identity, new_password)
    }

    /// Ask for a password reset. The token is handed back directly (no
    /// mail is sent); an unknown email gets nothing, without an error.
    pub fn request_password_reset<R: Repo, B, C>(state: &AppState<R, B, C>, now_ms: i64, email: &str) -> (r:
        Result<Option<String>, RpcError>)
        requires
            state.repo.inv(),
            clock_fits(state.config, now_ms),
        ensures
            reset_requested(
                state.repo.model(),
                state.keyring@,
                state.config.password_reset_ttl_seconds,
                unix_of(now_ms),
                email@,
                r,
            ),
    {
        let ghost s = state.repo.model();
        let now_unix = unix_seconds(now_ms);
        let user = match state.repo.get_user_by_email(email) {
            Ok(Some(u)) => u,
            Ok(None) => {
                return Ok(None);
            },
            Err(e) => {
                return Err(from_store_error(e));
            },
        };
        let ghost k = choose|k: Seq<char>|
            #[trigger] s.users.contains_key(k) && s.users[k] == user && user_with_email(email@)(k, user);
        proof {
            reveal_strlit("pwr");
        }
        let nonce = fresh_prefixed_id("pwr");
        let ghost u = choose|u: Seq<char>| u.len() == 36 && nonce@ == prefixed_id("pwr"@, u);
        let token = match mint_password_reset(
            &state.keyring,
            &user.id,
            nonce.as_str(),
            now_unix,
            state.config.password_reset_ttl_seconds,
        ) {
            Ok(t) => t,
            Err(e) => {
                let re = map_token_error(e);
                assert(reset_minted(state.keyring@, user.id@, prefixed_id("pwr"@, u), now_unix + state.config.password_reset_ttl_seconds, Err(re)));
                return Err(re);
            },
        };
        assert(reset_minted(state.keyring@, user.id@, prefixed_id("pwr"@, u), now_unix + state.config.password_reset_ttl_seconds, Ok(Some(token))));
        Ok(Some(token))
    }

    /// Redeem a password-reset token with a new password, and sign in.
    pub fn consume_password_reset<R: Repo, B, C>(
        state: &mut AppState<R, B, C>,
        now_ms: i64,
        token: &str,
        new_password: &str,
    ) -> (r: Result<SessionIssued, RpcError>)
        requires
            old(state).repo.inv(),
            clock_fits(old(state).config, now_ms),
        ensures
            final(state).repo.inv(),
            only_repo_changed(*old(state), *final(state)),
            reset_consumed(
                old(state).repo.model(),
                final(state).repo.model(),
                old(state).keyring@,
                old(state).config.session_ttl_seconds,
                now_ms,
                token@,
                new_password,
                r,
            ),
    {
        let ghost old_s = state.repo.model();
        let ghost key = state.keyring@;
        let ghost ttl = state.config.session_ttl_seconds;
        let now_unix = unix_seconds(now_ms);
        let verified = verify_password_reset(&state.keyring, now_unix, token);
        assert(one_shot_verified(key, TokenPurpose::PasswordReset, unix_of(now_ms), token@, verified));
        let parsed = match verified {
            Ok(p) => p,
            Err(e) => {
                return Err(map_token_error(e));
            },
        };
        let consumed = state.repo.consume_nonce(
            parsed.nonce.as_str(),
            TokenPurpose::PasswordReset.as_str(),
            now_ms,
        );
        let ghost s1 = state.repo.model();
        let ghost cr = store_result(consumed);
        proof {
            reveal_strlit("password_reset");
        }
        assert(nonce_consumed(old_s, s1, parsed.nonce@, "password_reset"@, now_ms, cr));
        match consumed {
            Ok(()) => {},
            Err(e) => {
                let re = map_already_exists_as_precondition(e, "reset token already used");
                assert(reset_with_token(old_s, s1, key, ttl, now_ms, parsed@.user_id, parsed@.nonce, new_password, Err(re)));
                return Err(re);
            },
        }
        proof {
            state.repo.lemma_model_wf();
        }
        let missing = RpcError::msg(
            Code::FailedPrecondition,
            "this account doesn't have a password identity to reset",
        );
        let identity = match fetch_password_identity(&state.repo, &parsed.user_id, missing) {
            Ok(i) => i,
            Err(e) => {
                assert(reset_after_nonce(s1, s1, key, ttl, now_ms, parsed@.user_id, new_password, Err(e)));
                assert(reset_with_token(old_s, s1, key, ttl, now_ms, parsed@.user_id, parsed@.nonce, new_password, Err(e)));
                return Err(e);
            },
        };
        let ghost k = choose|k: Seq<char>|
            #[trigger] s1.identities.contains_key(k) && s1.identities[k] == identity && is_password_identity_of(identity, parsed@.user_id);
        let replaced = replace_password(&mut state.repo, &identity, new_password);
        let ghost s2 = state.repo.model();
        let ghost pr = rpc_result(replaced);
        assert(password_replaced(s1, s2, s1.identities[k], new_password, pr));
        match replaced {
            Ok(()) => {},
            Err(e) => {
                assert(reset_after_nonce(s1, s2, key, ttl, now_ms, parsed@.user_id, new_password, Err(e)));
                assert(reset_with_token(old_s, s2, key, ttl, now_ms, parsed@.user_id, parsed@.nonce, new_password, Err(e)));
                return Err(e);
            },
        }
        let user = match fetch_user(&state.repo, &parsed.user_id) {
            Ok(u) => u,
            Err(e) => {
                assert(reset_after_nonce(s1, s2, key, ttl, now_ms, parsed@.user_id, new_password, Err(e)));
                assert(reset_with_token(old_s, s2, key, ttl, now_ms, parsed@.user_id, parsed@.nonce, new_password, Err(e)));
                return Err(e);
            },
        };
        let issued = issue_personal_session(
            &state.repo,
            &state.keyring,
            state.config.session_ttl_seconds,
            now_unix,
            &user,
            AuthMethod::Password,
        );
        assert(reset_after_nonce(s1, s2, key, ttl, now_ms, parsed@.user_id, new_password, issued));
        assert(reset_with_token(old_s, s2, key, ttl, now_ms, parsed@.user_id, parsed@.nonce, new_password, issued));
        issued
    }

    /// Link another identity to the signed-in user. The code stands for the
    /// provider's user id (no code exchange with the provider is made).
    pub fn link_identity<R: Repo, B, C>(
        state: &mut AppState<R, B, C>,
        session: &SessionContext,
        now_ms: i64,
        provider: &str,
        code: &str,
    ) -> (r: Result<String, RpcError>)
        requires
            old(state).repo.inv(),
        ensures
            final(state).repo.inv(),
            only_repo_changed(*old(state), *final(state)),
            link_outcome(
                old(state).repo.model(),
                final(state).repo.model(),
                session.user@,
                provider@,
                code@,
                now_ms,
                r,
            ),
    {
        let ghost old_s = state.repo.model();
        let p = match IdentityProvider::decode(provider) {
            Some(p) => p,
            None => {
                proof {
                    reveal_strlit("unknown provider ");
                }
                return Err(RpcError::new(Code::InvalidArgument, concat("unknown provider ", provider)));
            },
        };
        let tag = p.encode();
        let linked = state.repo.link_identity(&session.user, tag.as_str(), code, None, now_ms);
        let ghost lr = store_result(linked);
        assert(identity_linked(old_s, state.repo.model(), session.user@, tag@, code@, now_ms, lr));
        match linked {
            Ok(i) => Ok(i.id.to_string()),
            Err(e) => Err(from_store_error(e)),
        }
    }
}

} // verus!
