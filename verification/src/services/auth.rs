//! Sign-up, sign-in, SSO, identities, passwords, context switching and
//! who-am-I. Sessions carry the purpose, user, email, billing account,
//! role, sign-in method, expiry and, optionally, the organization; their
//! verification needs no storage.

use vstd::prelude::*;
use vstd::string::StringSliceAdditionalSpecFns;

use crate::auth::invitation_token::{invitation_verified, verify_invitation, InvitationTokenView};
use crate::auth::keyring::Keyring;
use crate::auth::password::{
    argon2_phc, hash_new_password, password_check, password_too_short, verify_password,
    PasswordErrorView, ARGON2_M_COST, ARGON2_P_COST, ARGON2_T_COST,
};
use crate::auth::tokens::{
    mint_session, result_view, MintSessionInput, MintSessionView, TokenErrorView,
};
use crate::domain::enums::{AuthMethodView, ScopeTargetView};
use crate::auth::session::SessionView;
use crate::auth::SessionContext;
use crate::domain::{
    AuthMethod, BillingAccountId, Duplicate, Identity, OrgId, Organization, Role, ScopeTarget, User,
    UserId,
};
use crate::services::authz::{governing_sso, resolve_required_sso};
use crate::services::common::{
    email_check, fetch_password_identity, fetch_user, user_lookup, has_password_identity, is_password_identity_of,
    pending_check, validate_email, validate_pending_invitation,
};
use crate::services::convert::{build_whoami, whoami_view, WhoamiInfo};
use crate::services::error::{
    fails, from_store_error, map_password_error, map_token_error, password_rpc, rpc_err,
    rpc_result, store_rpc, token_rpc, Code, RpcError, RpcErrorView,
};
use crate::services::session::{
    billing_listing, build_whoami_async, find_personal_billing, whoami_in, first_personal, issue_personal_session, minted,
    org_listing, personal_session, personal_session_issued, token_part, SessionIssued,
};
use crate::state::{clock_fits, unix_of, AppState};
use crate::store::model::{
    email_in_use, email_matches, found, password_signup, store_result, user_with_email,
    AcceptanceView, RepoState,
};
use crate::store::repo::user::acceptance_view;
use crate::store::repo::{
    InvitationAcceptance, InvitationRepo, NewPasswordUser, Repo, RepoModel, UserRepo,
};
use crate::text::eq_ignore_ascii_case;
use crate::text::eq_ignore_ascii_case_spec;
use crate::time::unix_seconds;

pub use crate::services::invite::build_invitation_token;
pub use crate::services::sso::parse_sso_scope;

verus! {

/// The handlers of the authentication service.
pub struct AuthServer;

// ----- passwords -----

/// What a stored secret says of a password: a missing secret is an
/// internal error, otherwise the result of checking the password against
/// the stored hash.
pub open spec fn secret_check(secret: Option<String>, password: Seq<u8>) -> Result<(), RpcErrorView> {
    match secret {
        None => fails(Code::Internal, "password identity missing stored hash"@),
        Some(h) => match password_check(h@, password) {
            Ok(()) => Ok(()),
            Err(e) => Err(password_rpc(e)),
        },
    }
}

/// Checking a user's password: `missing` when the user has no password
/// identity, else the check against one of their password identities,
/// which is given back when it passes.
pub open spec fn password_identity_checked(
    s: RepoState,
    user: Seq<char>,
    password: Seq<u8>,
    missing: RpcErrorView,
    r: Result<Identity, RpcErrorView>,
) -> bool {
    if !has_password_identity(s.identities, user) {
        r == Err::<Identity, RpcErrorView>(missing)
    } else {
        exists|k: Seq<char>|
            #[trigger] s.identities.contains_key(k) && is_password_identity_of(s.identities[k], user)
                && match secret_check(s.identities[k].secret, password) {
                Ok(()) => r == Ok::<Identity, RpcErrorView>(s.identities[k]),
                Err(e) => r == Err::<Identity, RpcErrorView>(e),
            }
    }
}

pub(crate) fn check_password_identity<R: UserRepo>(repo: &R, user_id: &UserId, password: &str, missing: RpcError) -> (r:
    Result<Identity, RpcError>)
    requires
        repo.inv(),
    ensures
        password_identity_checked(repo.model(), user_id@, password.spec_bytes(), missing@, rpc_result(r)),
{
    let ghost m = missing@;
    let identity = match fetch_password_identity(repo, user_id, missing) {
        Ok(i) => i,
        Err(e) => {
            return Err(e);
        },
    };
    let stored = match &identity.secret {
        Some(h) => h,
        None => {
            return Err(RpcError::msg(Code::Internal, "password identity missing stored hash"));
        },
    };
    match verify_password(stored.as_str(), password) {
        Ok(()) => {},
        Err(e) => {
            return Err(map_password_error(e));
        },
    }
    Ok(identity)
}

// ----- SSO lock-out -----

/// The account's SSO configuration requires SSO, and the user is not its
/// break-glass user.
pub open spec fn sso_locked(s: RepoState, billing: Seq<char>, org: Option<Seq<char>>, user: Seq<char>) -> bool {
    governing_sso(s, billing, org) matches Some(c) && c.required && c.break_glass_user_id@ != user
}

// ----- login -----

/// Signing in `u` with a password: in their personal billing account,
/// unless SSO is required there, only with the right password, and, where
/// email verification is enforced, only with a verified email.
pub open spec fn login_as(
    s: RepoState,
    key: Seq<u8>,
    ttl: i64,
    enforce_verified: bool,
    now_unix: i64,
    u: User,
    password: Seq<u8>,
    r: Result<SessionIssued, RpcError>,
) -> bool {
    exists|bs: Seq<(crate::domain::BillingAccount, Role)>, os: Seq<(crate::domain::Organization, Role)>|
        #![trigger billing_listing(s, u.id@, bs), org_listing(s, u.id@, os)]
        {
            &&& billing_listing(s, u.id@, bs)
            &&& org_listing(s, u.id@, os)
            &&& match first_personal(bs) {
                None => rpc_result(r) == fails::<SessionIssued>(Code::Internal, "personal billing missing"@),
                Some(p) => if sso_locked(s, p.id@, None, u.id@) {
                    rpc_result(r) == fails::<SessionIssued>(
                        Code::PermissionDenied,
                        "SSO is required on this account; password login is disabled"@,
                    )
                } else {
                    exists|pr: Result<Identity, RpcErrorView>|
                        #[trigger] password_identity_checked(
                            s,
                            u.id@,
                            password,
                            rpc_err(
                                Code::Unauthenticated,
                                "this account doesn't have a password identity; sign in via SSO"@,
                            ),
                            pr,
                        ) && match pr {
                            Err(e) => rpc_result(r) == Err::<SessionIssued, RpcErrorView>(e),
                            Ok(_) => if enforce_verified && !u.email_verified {
                                rpc_result(r) == fails::<SessionIssued>(
                                    Code::FailedPrecondition,
                                    "email address is not verified"@,
                                )
                            } else {
                                &&& minted(
                                    key,
                                    personal_session(u, p.id@, AuthMethodView::Password, now_unix, ttl),
                                    token_part(r),
                                )
                                &&& r matches Ok(out) ==> out.whoami@ == whoami_view(
                                    u,
                                    p,
                                    None,
                                    Role::Owner,
                                    AuthMethodView::Password,
                                    bs,
                                    os,
                                )
                            },
                        }
                },
            }
        }
}

/// Signing in with an email and a password: an unknown email is refused
/// as invalid credentials; otherwise the user with that email (ignoring
/// ASCII case) signs in as `login_as` says.
pub open spec fn login_outcome(
    s: RepoState,
    key: Seq<u8>,
    ttl: i64,
    enforce_verified: bool,
    now_unix: i64,
    email: Seq<char>,
    password: Seq<u8>,
    r: Result<SessionIssued, RpcError>,
) -> bool {
    if !email_in_use(s, email) {
        rpc_result(r) == fails::<SessionIssued>(Code::Unauthenticated, "invalid credentials"@)
    } else {
        exists|k: Seq<char>|
            #[trigger] s.users.contains_key(k) && email_matches(s.users[k], email) && login_as(
                s,
                key,
                ttl,
                enforce_verified,
                now_unix,
                s.users[k],
                password,
                r,
            )
    }
}

// ----- signup -----

/// The invitation a signup accepts: none without a token; with one, the
/// verified invitation, which must be addressed to the signup email
/// (ignoring ASCII case) and still be pending under the token's nonce.
pub open spec fn invite_resolved(
    s: RepoState,
    key: Seq<u8>,
    now_unix: i64,
    email: Seq<char>,
    token: Option<Seq<char>>,
    acc: Result<Option<AcceptanceView>, RpcErrorView>,
) -> bool {
    match token {
        None => acc == Ok::<Option<AcceptanceView>, RpcErrorView>(None),
        Some(t) => token_invite_resolved(s, key, now_unix, email, t, acc),
    }
}

/// The invitation a signup with the invitation token `t` accepts.
pub open spec fn token_invite_resolved(
    s: RepoState,
    key: Seq<u8>,
    now_unix: i64,
    email: Seq<char>,
    t: Seq<char>,
    acc: Result<Option<AcceptanceView>, RpcErrorView>,
) -> bool {
    exists|v: Result<InvitationTokenView, TokenErrorView>|
        #[trigger] invitation_verified(key, now_unix, t, v) && match v {
            Err(te) => acc == Err::<Option<AcceptanceView>, RpcErrorView>(token_rpc(te)),
            Ok(inv) => invitation_accepted_by(s, email, inv, acc),
        }
}

/// A verified invitation `inv` accepted by a signup with `email`: it must
/// be addressed to that email (ignoring ASCII case) and still be pending
/// under the token's nonce.
pub open spec fn invitation_accepted_by(
    s: RepoState,
    email: Seq<char>,
    inv: InvitationTokenView,
    acc: Result<Option<AcceptanceView>, RpcErrorView>,
) -> bool {
    if !eq_ignore_ascii_case_spec(inv.email, email) {
        acc == fails::<Option<AcceptanceView>>(
            Code::PermissionDenied,
            "invite email doesn't match signup email"@,
        )
    } else if !s.invitations.contains_key(inv.invitation_id) {
        acc == fails::<Option<AcceptanceView>>(Code::NotFound, "invitation no longer exists"@)
    } else {
        match pending_check(s.invitations[inv.invitation_id], inv.nonce) {
            Err(e) => acc == Err::<Option<AcceptanceView>, RpcErrorView>(e),
            Ok(()) => acc == Ok::<Option<AcceptanceView>, RpcErrorView>(
                Some(
                    AcceptanceView {
                        invitation_id: inv.invitation_id,
                        target: ScopeTargetView::from_parts(inv.scope_kind, inv.scope_id),
                        role: inv.role,
                    },
                ),
            ),
        }
    }
}

pub open spec fn opt_str(o: Option<&str>) -> Option<Seq<char>> {
    match o {
        Some(s) => Some(s@),
        None => None,
    }
}


fn resolve_signup_invite<R: InvitationRepo>(
    repo: &R,
    keyring: &Keyring,
    now_unix: i64,
    email: &str,
    invite_token: Option<&str>,
) -> (r: Result<Option<InvitationAcceptance>, RpcError>)
    requires
        repo.inv(),
    ensures
        invite_resolved(
            repo.model(),
            keyring@,
            now_unix,
            email@,
            opt_str(invite_token),
            match r {
                Ok(o) => Ok(acceptance_view(o)),
                Err(e) => Err(e@),
            },
        ),
{
    let token = match invite_token {
        Some(t) => t,
        None => {
            return Ok(None);
        },
    };
    let vr = verify_invitation(keyring, now_unix, token);
    let ghost v = result_view(vr);
    assert(invitation_verified(keyring@, now_unix, token@, v));
    let parsed = match vr {
        Ok(p) => p,
        Err(e) => {
            let re = map_token_error(e);
            assert(opt_str(invite_token) == Some(token@));
            assert(v == Err::<InvitationTokenView, TokenErrorView>(e@));
            return Err(re);
        },
    };
    if !eq_ignore_ascii_case(parsed.email.as_str(), email) {
        return Err(RpcError::msg(Code::PermissionDenied, "invite email doesn't match signup email"));
    }
    let stored = match repo.get_invitation(&parsed.invitation_id) {
        Ok(Some(i)) => i,
        Ok(None) => {
            return Err(RpcError::msg(Code::NotFound, "invitation no longer exists"));
        },
        Err(e) => {
            return Err(from_store_error(e));
        },
    };
    match validate_pending_invitation(&stored, parsed.nonce.as_str()) {
        Ok(()) => {},
        Err(e) => {
            return Err(e);
        },
    }
    let target = ScopeTarget::from_parts(parsed.scope_kind, parsed.scope_id);
    Ok(Some(InvitationAcceptance { invitation_id: parsed.invitation_id, target, role: parsed.role }))
}

/// What hashing a new password may give: a short password is refused
/// with its length; otherwise an Argon2id PHC string of it under some
/// salt, which the password checks against, or a hashing failure.
pub open spec fn new_password_hash(password: &str, hr: Result<Seq<char>, PasswordErrorView>) -> bool {
    if password_too_short(password@) {
        hr == Err::<Seq<char>, PasswordErrorView>(PasswordErrorView::TooShort(password@.len()))
    } else {
        match hr {
            Ok(h) => (exists|salt: Seq<char>|
                argon2_phc(ARGON2_M_COST, ARGON2_T_COST, ARGON2_P_COST, password.spec_bytes(), salt)
                    == Ok::<Seq<char>, Seq<char>>(h)) && password_check(h, password.spec_bytes())
                == Ok::<(), PasswordErrorView>(()),
            Err(e) => e is HashFailed,
        }
    }
}

pub open spec fn hash_result_view(r: Result<String, crate::auth::password::PasswordError>) -> Result<
    Seq<char>,
    PasswordErrorView,
> {
    match r {
        Ok(h) => Ok(h@),
        Err(e) => Err(e@),
    }
}

/// Signing up: the email is checked, the invitation (if any) resolved,
/// the password hashed, the user created with their personal space (and
/// the invitation accepted), and a session issued. Every refusal before
/// the user is created leaves the repository as it was.
pub open spec fn signup_outcome(
    old: RepoState,
    new: RepoState,
    key: Seq<u8>,
    ttl: i64,
    now_ms: i64,
    email: Seq<char>,
    password: &str,
    token: Option<Seq<char>>,
    r: Result<SessionIssued, RpcError>,
) -> bool {
    match email_check(email) {
        Err(e) => rpc_result(r) == Err::<SessionIssued, RpcErrorView>(e) && new == old,
        Ok(()) => exists|acc: Result<Option<AcceptanceView>, RpcErrorView>|
            #[trigger] invite_resolved(old, key, unix_of(now_ms), email, token, acc) && signup_with_invite(
                old,
                new,
                key,
                ttl,
                now_ms,
                email,
                password,
                acc,
                r,
            ),
    }
}

pub open spec fn signup_with_invite(
    old: RepoState,
    new: RepoState,
    key: Seq<u8>,
    ttl: i64,
    now_ms: i64,
    email: Seq<char>,
    password: &str,
    acc: Result<Option<AcceptanceView>, RpcErrorView>,
    r: Result<SessionIssued, RpcError>,
) -> bool {
    match acc {
        Err(e) => rpc_result(r) == Err::<SessionIssued, RpcErrorView>(e) && new == old,
        Ok(invite) => exists|hr: Result<Seq<char>, PasswordErrorView>|
            #[trigger] new_password_hash(password, hr) && signup_with_hash(
                old,
                new,
                key,
                ttl,
                now_ms,
                email,
                invite,
                hr,
                r,
            ),
    }
}

pub open spec fn signup_with_hash(
    old: RepoState,
    new: RepoState,
    key: Seq<u8>,
    ttl: i64,
    now_ms: i64,
    email: Seq<char>,
    invite: Option<AcceptanceView>,
    hr: Result<Seq<char>, PasswordErrorView>,
    r: Result<SessionIssued, RpcError>,
) -> bool {
    match hr {
        Err(pe) => rpc_result(r) == Err::<SessionIssued, RpcErrorView>(password_rpc(pe)) && new == old,
        Ok(h) => exists|keys: (Seq<char>, Seq<char>, Seq<char>, Seq<char>), cr: Result<User, crate::store::error::StoreErrorView>|
            #[trigger] password_signup(old, new, email, h, invite, now_ms, keys, cr) && match cr {
                Err(se) => rpc_result(r) == Err::<SessionIssued, RpcErrorView>(store_rpc(se)),
                Ok(u) => personal_session_issued(new, key, ttl, unix_of(now_ms), u, AuthMethodView::Password, r),
            },
    }
}

// ----- who-am-I and switching context -----

/// The who-am-I answer for a session: its user must still exist and its
/// billing account too; an organization that is gone is left out.
pub open spec fn whoami_outcome(s: RepoState, session: SessionView, r: Result<WhoamiInfo, RpcError>) -> bool {
    match user_lookup(s.users, session.user) {
        Err(e) => rpc_result(r) == Err::<WhoamiInfo, RpcErrorView>(e),
        Ok(u) => if !s.billing_accounts.contains_key(session.billing) {
            rpc_result(r) == fails::<WhoamiInfo>(Code::NotFound, "session billing not found"@)
        } else {
            r matches Ok(w) && whoami_in(
                s,
                u,
                s.billing_accounts[session.billing],
                match session.org {
                    Some(o) => s.organizations.get(o),
                    None => None,
                },
                session.role,
                session.auth_method,
                w@,
            )
        },
    }
}

/// A requested identifier: a given, non-empty one, else `default`.
pub open spec fn requested_or(req: Option<Seq<char>>, default: Seq<char>) -> Seq<char> {
    match req {
        Some(s) if s.len() > 0 => s,
        _ => default,
    }
}

/// A requested optional identifier: a given, non-empty one, else none.
pub open spec fn requested(req: Option<Seq<char>>) -> Option<Seq<char>> {
    match req {
        Some(s) if s.len() > 0 => Some(s),
        _ => None,
    }
}

/// The session's sign-in method does not meet the SSO the target scope
/// requires of everyone but its break-glass user.
pub open spec fn needs_sso_switch(s: RepoState, billing: Seq<char>, org: Option<Seq<char>>, user: Seq<char>, am: AuthMethodView) -> bool {
    sso_locked(s, billing, org, user) && am != AuthMethodView::Sso(governing_sso(s, billing, org)->0.idp_id@)
}

/// The role and organization a switch lands on, or why it is refused:
/// with an organization, it must exist, belong to the billing account and
/// have the user as a member, whose role there counts.
pub open spec fn switch_target(
    s: RepoState,
    user: Seq<char>,
    billing: Seq<char>,
    org: Option<Seq<char>>,
    billing_role: Role,
) -> Result<(Role, Option<Organization>), RpcErrorView> {
    match org {
        None => Ok((billing_role, None)),
        Some(o) => if !s.organizations.contains_key(o) {
            fails(Code::NotFound, "organization not found"@)
        } else if s.organizations[o].billing_account_id@ != billing {
            fails(Code::FailedPrecondition, "organization does not belong to the target billing account"@)
        } else if !s.org_memberships.contains_key((user, o)) {
            fails(Code::PermissionDenied, "not a member of the target org"@)
        } else {
            Ok((s.org_memberships[(user, o)].role, Some(s.organizations[o])))
        },
    }
}

/// Switching a session to another billing account (the session's own when
/// none is asked for) and optionally an organization in it: a new session
/// there, with the role held there, and the who-am-I message for it.
pub open spec fn switch_outcome(
    s: RepoState,
    key: Seq<u8>,
    ttl: i64,
    now_unix: i64,
    session: SessionView,
    billing_req: Option<Seq<char>>,
    org_req: Option<Seq<char>>,
    r: Result<SessionIssued, RpcError>,
) -> bool {
    let billing = requested_or(billing_req, session.billing);
    let org = requested(org_req);
    match user_lookup(s.users, session.user) {
        Err(e) => rpc_result(r) == Err::<SessionIssued, RpcErrorView>(e),
        Ok(u) => if !s.billing_memberships.contains_key((u.id@, billing)) {
            rpc_result(r) == fails::<SessionIssued>(
                Code::PermissionDenied,
                "not a member of the target billing account"@,
            )
        } else if !s.billing_accounts.contains_key(billing) {
            rpc_result(r) == fails::<SessionIssued>(Code::NotFound, "billing account no longer exists"@)
        } else if needs_sso_switch(s, billing, org, u.id@, session.auth_method) {
            rpc_result(r) == fails::<SessionIssued>(
                Code::PermissionDenied,
                "scope requires SSO; switch via SsoStart/SsoComplete"@,
            )
        } else {
            match switch_target(s, u.id@, billing, org, s.billing_memberships[(u.id@, billing)].role) {
                Err(e) => rpc_result(r) == Err::<SessionIssued, RpcErrorView>(e),
                Ok((role, org_row)) => {
                    &&& minted(
                        key,
                        MintSessionView {
                            user_id: u.id@,
                            email: u.email@,
                            billing,
                            org,
                            role,
                            auth_method: session.auth_method,
                            now_unix,
                            ttl_seconds: ttl,
                        },
                        token_part(r),
                    )
                    &&& r matches Ok(out) ==> whoami_in(
                        s,
                        u,
                        s.billing_accounts[billing],
                        org_row,
                        role,
                        session.auth_method,
                        out.whoami@,
                    )
                },
            }
        },
    }
}

pub open spec fn opt_str_view(o: Option<&str>) -> Option<Seq<char>> {
    match o {
        Some(s) => Some(s@),
        None => None,
    }
}

/// Only the repository changes.
pub open spec fn only_repo_changed<R, B, C>(old: AppState<R, B, C>, new: AppState<R, B, C>) -> bool {
    &&& new.billing == old.billing
    &&& new.keyring == old.keyring
    &&& new.clock == old.clock
    &&& new.config == old.config
}

impl AuthServer {
    /// Sign in with an email and a password.
    pub fn login<R: Repo, B, C>(state: &AppState<R, B, C>, now_ms: i64, email: &str, password: &str) -> (r:
        Result<SessionIssued, RpcError>)
        requires
            state.repo.inv(),
            clock_fits(state.config, now_ms),
        ensures
            login_outcome(
                state.repo.model(),
                state.keyring@,
                state.config.session_ttl_seconds,
                state.config.enforce_email_verification,
                unix_of(now_ms),
                email@,
                password.spec_bytes(),
                r,
            ),
    {
        let repo = &state.repo;
        let ghost s = repo.model();
        let user = match repo.get_user_by_email(email) {
            Ok(Some(u)) => u,
            Ok(None) => {
                return Err(RpcError::msg(Code::Unauthenticated, "invalid credentials"));
            },
            Err(e) => {
                return Err(from_store_error(e));
            },
        };
        let ghost k = choose|k: Seq<char>|
            #[trigger] s.users.contains_key(k) && s.users[k] == user && user_with_email(email@)(k, user);
        assert(s.users.contains_key(k) && email_matches(s.users[k], email@));
        let billings = match repo.list_billing_accounts_for_user(&user.id) {
            Ok(v) => v,
            Err(e) => {
                return Err(from_store_error(e));
            },
        };
        let orgs = match repo.list_organizations_for_user(&user.id) {
            Ok(v) => v,
            Err(e) => {
                return Err(from_store_error(e));
            },
        };
        let ghost bs = billings@;
        let ghost os = orgs@;
        assert(billing_listing(s, user.id@, bs) && org_listing(s, user.id@, os));
        let personal = match find_personal_billing(billings.as_slice()) {
            Ok(b) => b,
            Err(e) => {
                return Err(e);
            },
        };
        let sso = match resolve_required_sso(repo, &personal.id, None) {
            Ok(c) => c,
            Err(e) => {
                return Err(e);
            },
        };
        match &sso {
            Some(cfg) => {
                if cfg.required && !cfg.break_glass_user_id.same_as(&user.id) {
                    return Err(
                        RpcError::msg(
                            Code::PermissionDenied,
                            "SSO is required on this account; password login is disabled",
                        ),
                    );
                }
            },
            None => {},
        }
        let missing = RpcError::msg(
            Code::Unauthenticated,
            "this account doesn't have a password identity; sign in via SSO",
        );
        let checked = check_password_identity(repo, &user.id, password, missing);
        let ghost pr = rpc_result(checked);
        assert(password_identity_checked(
            s,
            user.id@,
            password.spec_bytes(),
            rpc_err(
                Code::Unauthenticated,
                "this account doesn't have a password identity; sign in via SSO"@,
            ),
            pr,
        ));
        match checked {
            Ok(_) => {},
            Err(e) => {
                return Err(e);
            },
        }
        if state.config.enforce_email_verification && !user.email_verified {
            return Err(RpcError::msg(Code::FailedPrecondition, "email address is not verified"));
        }
        let auth_method = AuthMethod::Password;
        let now_unix = unix_seconds(now_ms);
        let token = match mint_session(
            &state.keyring,
            MintSessionInput {
                user_id: &user.id,
                email: user.email.as_str(),
                billing: &personal.id,
                org: None,
                role: Role::Owner,
                auth_method: &auth_method,
                now_unix,
                ttl_seconds: state.config.session_ttl_seconds,
            },
        ) {
            Ok(t) => t,
            Err(e) => {
                return Err(map_token_error(e));
            },
        };
        let whoami = build_whoami(&user, &personal, None, Role::Owner, &auth_method, billings, orgs);
        Ok(SessionIssued { session_token: token, whoami })
    }

    /// Sign up with an email and a password, optionally accepting an
    /// invitation, and sign in.
    pub fn signup<R: Repo, B, C>(
        state: &mut AppState<R, B, C>,
        now_ms: i64,
        email: &str,
        password: &str,
        invite_token: Option<&str>,
    ) -> (r: Result<SessionIssued, RpcError>)
        requires
            old(state).repo.inv(),
            clock_fits(old(state).config, now_ms),
        ensures
            final(state).repo.inv(),
            only_repo_changed(*old(state), *final(state)),
            signup_outcome(
                old(state).repo.model(),
                final(state).repo.model(),
                old(state).keyring@,
                old(state).config.session_ttl_seconds,
                now_ms,
                email@,
                password,
                opt_str(invite_token),
                r,
            ),
    {
        match validate_email(email) {
            Ok(()) => {},
            Err(e) => {
                return Err(e);
            },
        }
        let now_unix = unix_seconds(now_ms);
        let ghost old_s = state.repo.model();
        let resolved = resolve_signup_invite(&state.repo, &state.keyring, now_unix, email, invite_token);
        let invite = match resolved {
            Ok(i) => i,
            Err(e) => {
                let ghost acc = Err::<Option<AcceptanceView>, RpcErrorView>(e@);
                assert(invite_resolved(old_s, state.keyring@, unix_of(now_ms), email@, opt_str(invite_token), acc));
                assert(signup_with_invite(old_s, old_s, state.keyring@, state.config.session_ttl_seconds, now_ms, email@, password, acc, Err(e)));
                return Err(e);
            },
        };
        let ghost acc = Ok::<Option<AcceptanceView>, RpcErrorView>(acceptance_view(invite));
        assert(invite_resolved(old_s, state.keyring@, unix_of(now_ms), email@, opt_str(invite_token), acc));
        let hashed = hash_new_password(password);
        let ghost hr = hash_result_view(hashed);
        assert(new_password_hash(password, hr));
        let password_hash = match hashed {
            Ok(h) => h,
            Err(e) => {
                let re = map_password_error(e);
                assert(signup_with_hash(old_s, old_s, state.keyring@, state.config.session_ttl_seconds, now_ms, email@, acceptance_view(invite), hr, Err(re)));
                assert(signup_with_invite(old_s, old_s, state.keyring@, state.config.session_ttl_seconds, now_ms, email@, password, acc, Err(re)));
                return Err(re);
            },
        };
        let ghost h = password_hash@;
        let created = state.repo.create_password_user(
            NewPasswordUser { email: String::from_str(email), password_hash },
            invite,
            now_ms,
        );
        let ghost cr = store_result(created);
        let ghost keys = choose|keys: (Seq<char>, Seq<char>, Seq<char>, Seq<char>)|
            #[trigger] password_signup(old_s, state.repo.model(), email@, h, acceptance_view(invite), now_ms, keys, cr);
        assert(password_signup(old_s, state.repo.model(), email@, h, acceptance_view(invite), now_ms, keys, cr));
        let user = match created {
            Ok(u) => u,
            Err(e) => {
                let re = from_store_error(e);
                assert(signup_with_hash(old_s, state.repo.model(), state.keyring@, state.config.session_ttl_seconds, now_ms, email@, acceptance_view(invite), hr, Err(re)));
                assert(signup_with_invite(old_s, state.repo.model(), state.keyring@, state.config.session_ttl_seconds, now_ms, email@, password, acc, Err(re)));
                return Err(re);
            },
        };
        let issued = issue_personal_session(
            &state.repo,
            &state.keyring,
            state.config.session_ttl_seconds,
            now_unix,
            &user,
            AuthMethod::Password,
        );
        assert(signup_with_hash(old_s, state.repo.model(), state.keyring@, state.config.session_ttl_seconds, now_ms, email@, acceptance_view(invite), hr, issued));
        assert(signup_with_invite(old_s, state.repo.model(), state.keyring@, state.config.session_ttl_seconds, now_ms, email@, password, acc, issued));
        issued
    }

    /// Who the caller is, where they act, and all their memberships.
    pub fn whoami<R: Repo, B, C>(state: &AppState<R, B, C>, session: &SessionContext) -> (r: Result<
        WhoamiInfo,
        RpcError,
    >)
        requires
            state.repo.inv(),
        ensures
            whoami_outcome(state.repo.model(), session@, r),
    {
        let repo = &state.repo;
        let user = match fetch_user(repo, &session.user) {
            Ok(u) => u,
            Err(e) => {
                return Err(e);
            },
        };
        let billing = match repo.get_billing_account(&session.billing) {
            Ok(Some(b)) => b,
            Ok(None) => {
                return Err(RpcError::msg(Code::NotFound, "session billing not found"));
            },
            Err(e) => {
                return Err(from_store_error(e));
            },
        };
        let org = match &session.org {
            Some(id) => match repo.get_organization(id) {
                Ok(o) => o,
                Err(e) => {
                    return Err(from_store_error(e));
                },
            },
            None => None,
        };
        build_whoami_async(repo, &user, &billing, org.as_ref(), session.role, &session.auth_method)
    }

    /// Re-issue the session for another billing account (and optionally an
    /// organization in it).
    pub fn switch_context<R: Repo, B, C>(
        state: &AppState<R, B, C>,
        session: &SessionContext,
        now_ms: i64,
        billing_account_id: Option<&str>,
        org_id: Option<&str>,
    ) -> (r: Result<SessionIssued, RpcError>)
        requires
            state.repo.inv(),
            clock_fits(state.config, now_ms),
        ensures
            switch_outcome(
                state.repo.model(),
                state.keyring@,
                state.config.session_ttl_seconds,
                unix_of(now_ms),
                session@,
                opt_str_view(billing_account_id),
                opt_str_view(org_id),
                r,
            ),
    {
        let repo = &state.repo;
        let ghost s = repo.model();
        let now_unix = unix_seconds(now_ms);
        let user = match fetch_user(repo, &session.user) {
            Ok(u) => u,
            Err(e) => {
                return Err(e);
            },
        };
        let target_billing_id = match billing_account_id {
            Some(b) if b.unicode_len() > 0 => BillingAccountId::from_string(String::from_str(b)),
            _ => session.billing.duplicate(),
        };
        let target_org_id: Option<OrgId> = match org_id {
            Some(o) if o.unicode_len() > 0 => Some(OrgId::from_string(String::from_str(o))),
            _ => None,
        };
        let membership = match repo.get_billing_membership(&user.id, &target_billing_id) {
            Ok(m) => m,
            Err(e) => {
                return Err(from_store_error(e));
            },
        };
        let billing = match repo.get_billing_account(&target_billing_id) {
            Ok(b) => b,
            Err(e) => {
                return Err(from_store_error(e));
            },
        };
        let membership = match membership {
            Some(m) => m,
            None => {
                return Err(
                    RpcError::msg(Code::PermissionDenied, "not a member of the target billing account"),
                );
            },
        };
        let billing = match billing {
            Some(b) => b,
            None => {
                return Err(RpcError::msg(Code::NotFound, "billing account no longer exists"));
            },
        };
        let sso = match resolve_required_sso(repo, &target_billing_id, target_org_id.as_ref()) {
            Ok(c) => c,
            Err(e) => {
                return Err(e);
            },
        };
        match &sso {
            Some(cfg) => {
                if cfg.required && !cfg.break_glass_user_id.same_as(&user.id) {
                    let needed = AuthMethod::Sso(cfg.idp_id.duplicate());
                    if !session.auth_method.same_as(&needed) {
                        return Err(
                            RpcError::msg(
                                Code::PermissionDenied,
                                "scope requires SSO; switch via SsoStart/SsoComplete",
                            ),
                        );
                    }
                }
            },
            None => {},
        }
        let mut role = membership.role;
        let target_org = match &target_org_id {
            Some(oid) => {
                let org = match repo.get_organization(oid) {
                    Ok(o) => o,
                    Err(e) => {
                        return Err(from_store_error(e));
                    },
                };
                let mem = match repo.get_org_membership(&user.id, oid) {
                    Ok(m) => m,
                    Err(e) => {
                        return Err(from_store_error(e));
                    },
                };
                let org = match org {
                    Some(o) => o,
                    None => {
                        return Err(RpcError::msg(Code::NotFound, "organization not found"));
                    },
                };
                if !org.billing_account_id.same_as(&target_billing_id) {
                    return Err(
                        RpcError::msg(
                            Code::FailedPrecondition,
                            "organization does not belong to the target billing account",
                        ),
                    );
                }
                let mem = match mem {
                    Some(m) => m,
                    None => {
                        return Err(RpcError::msg(Code::PermissionDenied, "not a member of the target org"));
                    },
                };
                role = mem.role;
                Some(org)
            },
            None => None,
        };
        let token = match mint_session(
            &state.keyring,
            MintSessionInput {
                user_id: &user.id,
                email: user.email.as_str(),
                billing: &target_billing_id,
                org: target_org_id.as_ref(),
                role,
                auth_method: &session.auth_method,
                now_unix,
                ttl_seconds: state.config.session_ttl_seconds,
            },
        ) {
            Ok(t) => t,
            Err(e) => {
                return Err(map_token_error(e));
            },
        };
        let whoami = match build_whoami_async(
            repo,
            &user,
            &billing,
            target_org.as_ref(),
            role,
            &session.auth_method,
        ) {
            Ok(w) => w,
            Err(e) => {
                return Err(e);
            },
        };
        Ok(SessionIssued { session_token: token, whoami })
    }
}

} // verus!
