//! Signing in through an identity provider: starting a round trip for a
//! scope, and completing it for an existing identity, an existing user
//! with that email, or a new user created on the spot.

use vstd::prelude::*;

use crate::domain::enums::{sso_provider_tag, AuthMethodView};
use crate::domain::ids::{fresh_prefixed_id, prefixed_id};
use crate::domain::{
    AuthMethod, BillingAccount, BillingAccountId, Duplicate, IdentityProvider, OrgId, ScopeKind,
    SsoConfig, SsoState, User,
};
use crate::services::auth::{only_repo_changed, AuthServer};
use crate::services::authz::{governing_sso, resolve_required_sso};
use crate::services::common::{
    email_check, email_domain, email_domain_spec, parse_scope_kind, scope_kind_of, validate_email,
};
use crate::services::convert::WhoamiInfo;
use crate::services::error::{
    fails, from_store_error, rpc_result, store_rpc, Code, RpcError, RpcErrorView,
};
use crate::services::session::{issue_personal_session, personal_session_issued, SessionIssued};
use crate::state::{clock_fits, unix_of, AppState};
use crate::store::error::StoreErrorView;
use crate::store::model::{
    found, identity_in_use, identity_matches, identity_with, sso_signup, store_result, RepoState,
};
use crate::store::repo::billing::auto_join_match;
use crate::store::repo::user::{acceptance_view, billing_id_view};
use crate::store::repo::{NewSsoUser, Repo, RepoModel};
use crate::text::{concat, contains_char, seq_contains_char, split_once, split_once_spec, str_eq};
use crate::time::unix_seconds;

verus! {

// ----- the scope hint -----

/// `<kind>:<id>`, where the kind is `billing` or `org`.
pub open spec fn sso_scope_of(s: Seq<char>) -> Result<(ScopeKind, Seq<char>), RpcErrorView> {
    match split_once_spec(s, ':') {
        None => fails(Code::InvalidArgument, "scope_hint must be 'billing:<id>' or 'org:<id>'"@),
        Some((kind, id)) => match scope_kind_of(kind) {
            Err(e) => Err(e),
            Ok(k) => Ok((k, id)),
        },
    }
}

pub open spec fn scope_view(r: Result<(ScopeKind, String), RpcError>) -> Result<(ScopeKind, Seq<char>), RpcErrorView> {
    match r {
        Ok((k, id)) => Ok((k, id@)),
        Err(e) => Err(e@),
    }
}

pub fn parse_sso_scope(s: &str) -> (r: Result<(ScopeKind, String), RpcError>)
    ensures
        scope_view(r) == sso_scope_of(s@),
{
    let (kind, id) = match split_once(s, ':') {
        Some(parts) => parts,
        None => {
            return Err(
                RpcError::msg(
                    Code::InvalidArgument,
                    "scope_hint must be 'billing:<id>' or 'org:<id>'",
                ),
            );
        },
    };
    match parse_scope_kind(kind.as_str()) {
        Ok(k) => Ok((k, id)),
        Err(e) => Err(e),
    }
}

// ----- starting a round trip -----

/// The SSO configuration for a scope: an organization's (or, failing that,
/// its billing account's) when the organization exists; a billing
/// account's own.
pub open spec fn scope_sso(s: RepoState, kind: ScopeKind, id: Seq<char>) -> Option<SsoConfig> {
    match kind {
        ScopeKind::Org => if s.organizations.contains_key(id) {
            governing_sso(s, s.organizations[id].billing_account_id@, Some(id))
        } else {
            None
        },
        ScopeKind::Billing => governing_sso(s, id, None),
    }
}

/// Where the caller is sent: the login URL with `state=<state>` appended
/// as a further query parameter.
pub open spec fn redirect_to(login_url: Seq<char>, st: Seq<char>) -> Seq<char> {
    login_url + (if seq_contains_char(login_url, '?') {
        seq!['&']
    } else {
        seq!['?']
    }) + "state="@ + st
}

/// The pending SSO state `st` was stored for the scope hint, expecting the
/// configuration's identity provider, for `ttl_ms` from `now_ms`.
pub open spec fn sso_state_stored(
    old: RepoState,
    new: RepoState,
    st: Seq<char>,
    hint: Seq<char>,
    idp: String,
    now_ms: i64,
    ttl_ms: int,
) -> bool {
    exists|ss: SsoState|
        #[trigger] old.sso_states.insert(st, ss) == new.sso_states && new == (RepoState {
            sso_states: old.sso_states.insert(st, ss),
            ..old
        }) && ss.state@ == st && ss.scope_hint@ == hint && ss.expected_idp == Some(idp)
            && ss.created_at_ms == now_ms && ss.expires_at_ms == now_ms + ttl_ms
}

/// The redirect and the state of a started SSO round trip.
#[derive(Debug)]
pub struct SsoStarted {
    pub redirect_url: String,
    pub state: String,
}

/// Starting SSO for a scope hint: the scope must have an SSO
/// configuration; a pending state `ssost_<uuid>` is stored and the caller
/// is sent to the provider's login URL with it.
pub open spec fn sso_start_outcome(
    old: RepoState,
    new: RepoState,
    ttl_seconds: i64,
    now_ms: i64,
    hint: Seq<char>,
    r: Result<SsoStarted, RpcError>,
) -> bool {
    match sso_scope_of(hint) {
        Err(e) => rpc_result(r) == Err::<SsoStarted, RpcErrorView>(e) && new == old,
        Ok((kind, id)) => match scope_sso(old, kind, id) {
            None => rpc_result(r) == fails::<SsoStarted>(Code::NotFound, "no SSO configured for this scope"@)
                && new == old,
            Some(cfg) => exists|u: Seq<char>|
                #![trigger prefixed_id("ssost"@, u)]
                u.len() == 36 && sso_state_stored(
                    old,
                    new,
                    prefixed_id("ssost"@, u),
                    hint,
                    cfg.idp_id,
                    now_ms,
                    ttl_seconds * 1000,
                ) && (r matches Ok(out) && out.state@ == prefixed_id("ssost"@, u) && out.redirect_url@
                    == redirect_to(cfg.login_url@, prefixed_id("ssost"@, u))),
        },
    }
}

// ----- completing a round trip -----

/// What an SSO sign-in sends back: the session, and whether the user was
/// created on the spot.
#[derive(Debug)]
pub struct SsoCompleted {
    pub session_token: String,
    pub whoami: WhoamiInfo,
    pub jit_created: bool,
}

pub open spec fn as_issued(r: Result<SsoCompleted, RpcError>) -> Result<SessionIssued, RpcError> {
    match r {
        Ok(c) => Ok(SessionIssued { session_token: c.session_token, whoami: c.whoami }),
        Err(e) => Err(e),
    }
}

/// The user `u` signed in through `idp`.
pub open spec fn sso_session(
    s: RepoState,
    key: Seq<u8>,
    ttl: i64,
    now_ms: i64,
    u: User,
    idp: Seq<char>,
    jit: bool,
    r: Result<SsoCompleted, RpcError>,
) -> bool {
    &&& personal_session_issued(s, key, ttl, unix_of(now_ms), u, AuthMethodView::Sso(idp), as_issued(r))
    &&& r matches Ok(out) ==> out.jit_created == jit
}

/// The auto-join account for an email: a shared account whose auto-join
/// domain is the email's domain, when the email has one.
pub open spec fn auto_join_found(s: RepoState, email: Seq<char>, aj: Option<BillingAccount>) -> bool {
    match email_domain_spec(email) {
        None => aj is None,
        Some(d) => found(s.billing_accounts, aj, auto_join_match(d)),
    }
}

pub open spec fn opt_account_id(aj: Option<BillingAccount>) -> Option<Seq<char>> {
    match aj {
        Some(b) => Some(b.id@),
        None => None,
    }
}

/// Signing in through `idp` as the provider-side user `idp_user`: the user
/// of an existing identity; else a new user, joining the email domain's
/// auto-join account if there is one. An identity is never linked to an
/// existing user on a matching email (linking is explicit), so an email
/// already in use is refused when the user is created.
pub open spec fn sso_sign_in(
    s1: RepoState,
    new: RepoState,
    key: Seq<u8>,
    ttl: i64,
    now_ms: i64,
    idp: Seq<char>,
    idp_user: Seq<char>,
    email: Seq<char>,
    r: Result<SsoCompleted, RpcError>,
) -> bool {
    let provider = sso_provider_tag(idp);
    if identity_in_use(s1, provider, idp_user) {
        new == s1 && exists|k: Seq<char>|
            #[trigger] s1.identities.contains_key(k) && identity_matches(s1.identities[k], provider, idp_user)
                && if !s1.users.contains_key(s1.identities[k].user_id@) {
                rpc_result(r) == fails::<SsoCompleted>(Code::Internal, "identity references missing user"@)
            } else {
                sso_session(s1, key, ttl, now_ms, s1.users[s1.identities[k].user_id@], idp, false, r)
            }
    } else {
        exists|aj: Option<BillingAccount>, keys: (Seq<char>, Seq<char>, Seq<char>, Seq<char>), cr: Result<User, StoreErrorView>|
            #![trigger auto_join_found(s1, email, aj), sso_signup(s1, new, email, idp, idp_user, None, opt_account_id(aj), now_ms, keys, cr)]
            auto_join_found(s1, email, aj) && sso_signup(
                s1,
                new,
                email,
                idp,
                idp_user,
                None,
                opt_account_id(aj),
                now_ms,
                keys,
                cr,
            ) && match cr {
                Err(e) => rpc_result(r) == Err::<SsoCompleted, RpcErrorView>(store_rpc(e)),
                Ok(u) => sso_session(new, key, ttl, now_ms, u, idp, true, r),
            }
    }
}

/// Completing SSO: the email is checked, the pending state taken (it is
/// gone afterwards, expired or not) and matched against the provider, and
/// the user signed in as `sso_sign_in` says.
pub open spec fn sso_complete_outcome(
    old: RepoState,
    new: RepoState,
    key: Seq<u8>,
    ttl: i64,
    now_ms: i64,
    idp: Seq<char>,
    idp_user: Seq<char>,
    email: Seq<char>,
    st: Seq<char>,
    r: Result<SsoCompleted, RpcError>,
) -> bool {
    match email_check(email) {
        Err(e) => rpc_result(r) == Err::<SsoCompleted, RpcErrorView>(e) && new == old,
        Ok(()) => {
            let s1 = RepoState { sso_states: old.sso_states.remove(st), ..old };
            if !(old.sso_states.contains_key(st) && old.sso_states[st].expires_at_ms >= now_ms) {
                rpc_result(r) == fails::<SsoCompleted>(Code::InvalidArgument, "unknown or expired SSO state"@)
                    && new == s1
            } else if old.sso_states[st].expected_idp matches Some(x) && x@ != idp {
                rpc_result(r) == fails::<SsoCompleted>(
                    Code::PermissionDenied,
                    "SSO state was issued for a different IdP"@,
                ) && new == s1
            } else {
                sso_sign_in(s1, new, key, ttl, now_ms, idp, idp_user, email, r)
            }
        },
    }
}

fn sso_completed(issued: Result<SessionIssued, RpcError>, jit: bool) -> (r: Result<SsoCompleted, RpcError>)
    ensures
        as_issued(r) == issued,
        r matches Ok(out) ==> out.jit_created == jit,
{
    match issued {
        Ok(s) => Ok(SsoCompleted { session_token: s.session_token, whoami: s.whoami, jit_created: jit }),
        Err(e) => Err(e),
    }
}

impl AuthServer {
    /// Start an SSO round trip for `billing:<id>` or `org:<id>`.
    pub fn sso_start<R: Repo, B, C>(state: &mut AppState<R, B, C>, now_ms: i64, scope_hint: &str) -> (r:
        Result<SsoStarted, RpcError>)
        requires
            old(state).repo.inv(),
            clock_fits(old(state).config, now_ms),
        ensures
            final(state).repo.inv(),
            only_repo_changed(*old(state), *final(state)),
            sso_start_outcome(
                old(state).repo.model(),
                final(state).repo.model(),
                old(state).config.sso_state_ttl_seconds,
                now_ms,
                scope_hint@,
                r,
            ),
    {
        let ghost old_s = state.repo.model();
        let (scope_kind, scope_id) = match parse_sso_scope(scope_hint) {
            Ok(p) => p,
            Err(e) => {
                return Err(e);
            },
        };
        let cfg = match scope_kind {
            ScopeKind::Org => {
                let org_id = OrgId::from_string(scope_id);
                match state.repo.get_organization(&org_id) {
                    Ok(Some(org)) => match resolve_required_sso(
                        &state.repo,
                        &org.billing_account_id,
                        Some(&org_id),
                    ) {
                        Ok(c) => c,
                        Err(e) => {
                            return Err(e);
                        },
                    },
                    Ok(None) => None,
                    Err(e) => {
                        return Err(from_store_error(e));
                    },
                }
            },
            ScopeKind::Billing => {
                let billing_id = BillingAccountId::from_string(scope_id);
                match resolve_required_sso(&state.repo, &billing_id, None) {
                    Ok(c) => c,
                    Err(e) => {
                        return Err(e);
                    },
                }
            },
        };
        let cfg = match cfg {
            Some(c) => c,
            None => {
                return Err(RpcError::msg(Code::NotFound, "no SSO configured for this scope"));
            },
        };
        proof {
            reveal_strlit("ssost");
            reveal_strlit("state=");
        }
        let st = fresh_prefixed_id("ssost");
        let ghost u = choose|u: Seq<char>| u.len() == 36 && st@ == prefixed_id("ssost"@, u);
        let expires_at_ms = now_ms + state.config.sso_state_ttl_seconds * 1000;
        let pending = SsoState {
            state: st.duplicate(),
            scope_hint: String::from_str(scope_hint),
            expected_idp: Some(cfg.idp_id.duplicate()),
            created_at_ms: now_ms,
            expires_at_ms,
        };
        let ghost ss = pending;
        match state.repo.store_sso_state(pending) {
            Ok(()) => {},
            Err(e) => {
                return Err(from_store_error(e));
            },
        }
        assert(old_s.sso_states.insert(st@, ss) == state.repo.model().sso_states);
        let sep = if contains_char(cfg.login_url.as_str(), '?') {
            "&"
        } else {
            "?"
        };
        proof {
            reveal_strlit("&");
            reveal_strlit("?");
        }
        let mut redirect_url = concat(cfg.login_url.as_str(), sep);
        redirect_url.append("state=");
        redirect_url.append(st.as_str());
        assert(redirect_url@ == redirect_to(cfg.login_url@, st@));
        Ok(SsoStarted { redirect_url, state: st })
    }

    /// Complete an SSO round trip: the provider vouches for `idp_user_id`
    /// with `email`.
    pub fn sso_complete<R: Repo, B, C>(
        state: &mut AppState<R, B, C>,
        now_ms: i64,
        idp_id: &str,
        idp_user_id: &str,
        email: &str,
        sso_state: &str,
    ) -> (r: Result<SsoCompleted, RpcError>)
        requires
            old(state).repo.inv(),
            clock_fits(old(state).config, now_ms),
        ensures
            final(state).repo.inv(),
            only_repo_changed(*old(state), *final(state)),
            sso_complete_outcome(
                old(state).repo.model(),
                final(state).repo.model(),
                old(state).keyring@,
                old(state).config.session_ttl_seconds,
                now_ms,
                idp_id@,
                idp_user_id@,
                email@,
                sso_state@,
                r,
            ),
    {
        let ghost old_s = state.repo.model();
        let ghost key = state.keyring@;
        let ghost ttl = state.config.session_ttl_seconds;
        match validate_email(email) {
            Ok(()) => {},
            Err(e) => {
                return Err(e);
            },
        }
        let taken = match state.repo.consume_sso_state(sso_state, now_ms) {
            Ok(t) => t,
            Err(e) => {
                return Err(from_store_error(e));
            },
        };
        let ghost s1 = state.repo.model();
        assert(s1 == RepoState { sso_states: old_s.sso_states.remove(sso_state@), ..old_s });
        let pending = match taken {
            Some(p) => p,
            None => {
                return Err(RpcError::msg(Code::InvalidArgument, "unknown or expired SSO state"));
            },
        };
        match &pending.expected_idp {
            Some(expected) => {
                if !str_eq(expected.as_str(), idp_id) {
                    return Err(
                        RpcError::msg(Code::PermissionDenied, "SSO state was issued for a different IdP"),
                    );
                }
            },
            None => {},
        }
        let now_unix = unix_seconds(now_ms);
        let provider = IdentityProvider::sso_str(idp_id);
        let existing = match state.repo.find_identity(provider.as_str(), idp_user_id) {
            Ok(o) => o,
            Err(e) => {
                return Err(from_store_error(e));
            },
        };
        match existing {
            Some(identity) => {
                let ghost k = choose|k: Seq<char>|
                    #[trigger] s1.identities.contains_key(k) && s1.identities[k] == identity
                        && identity_with(provider@, idp_user_id@)(k, identity);
                assert(s1.identities.contains_key(k) && identity_matches(s1.identities[k], provider@, idp_user_id@));
                let user = match state.repo.get_user(&identity.user_id) {
                    Ok(Some(u)) => u,
                    Ok(None) => {
                        return Err(RpcError::msg(Code::Internal, "identity references missing user"));
                    },
                    Err(e) => {
                        return Err(from_store_error(e));
                    },
                };
                let issued = issue_personal_session(
                    &state.repo,
                    &state.keyring,
                    state.config.session_ttl_seconds,
                    now_unix,
                    &user,
                    AuthMethod::Sso(String::from_str(idp_id)),
                );
                return sso_completed(issued, false);
            },
            None => {},
        }
        let auto_join = match email_domain(email) {
            Some(domain) => match state.repo.find_billing_by_auto_join_domain(domain.as_str()) {
                Ok(o) => o,
                Err(e) => {
                    return Err(from_store_error(e));
                },
            },
            None => None,
        };
        let ghost aj = auto_join;
        assert(auto_join_found(s1, email@, aj));
        let auto_join_id = match auto_join {
            Some(b) => Some(b.id),
            None => None,
        };
        assert(billing_id_view(auto_join_id) == opt_account_id(aj));
        let input = NewSsoUser {
            email: String::from_str(email),
            idp_id: String::from_str(idp_id),
            idp_user_id: String::from_str(idp_user_id),
        };
        let ghost input_view = (input.email@, input.idp_id@, input.idp_user_id@);
        let ghost join_view = billing_id_view(auto_join_id);
        let created = state.repo.create_sso_user(input, None, auto_join_id, now_ms);
        let ghost cr = store_result(created);
        let ghost keys = choose|keys: (Seq<char>, Seq<char>, Seq<char>, Seq<char>)|
            #[trigger] sso_signup(s1, state.repo.model(), input_view.0, input_view.1, input_view.2, acceptance_view(None), join_view, now_ms, keys, cr);
        assert(sso_signup(s1, state.repo.model(), email@, idp_id@, idp_user_id@, None, opt_account_id(aj), now_ms, keys, cr));
        let user = match created {
            Ok(u) => u,
            Err(e) => {
                return Err(from_store_error(e));
            },
        };
        let issued = issue_personal_session(
            &state.repo,
            &state.keyring,
            state.config.session_ttl_seconds,
            now_unix,
            &user,
            AuthMethod::Sso(String::from_str(idp_id)),
        );
        sso_completed(issued, true)
    }
}

} // verus!
