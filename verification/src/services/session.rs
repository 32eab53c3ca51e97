//! Issuing sessions: a user's membership lists, their personal billing
//! account, and the session token with the who-am-I message that go back
//! to a caller who has just signed in.

use vstd::prelude::*;

use crate::auth::keyring::Keyring;
use crate::auth::tokens::{
    mint_session, mintable, session_identifier, session_predicates, session_token,
    MintSessionInput, MintSessionView, TokenErrorView,
};
use crate::domain::enums::AuthMethodView;
use crate::domain::{AuthMethod, BillingAccount, Duplicate, Organization, Role, User, UserId};
use crate::services::convert::{build_whoami, whoami_view, WhoamiInfo, WhoamiView};
use crate::services::error::{
    fails, from_store_error, map_token_error, rpc_result, token_rpc, Code, RpcError, RpcErrorView,
};
use crate::store::listing::sorted_by_key;
use crate::store::model::{listed_rows, RepoState};
use crate::store::repo::billing::{account_with_role, accounts_of_user};
use crate::store::repo::org::{org_with_role, orgs_of_user};
use crate::store::repo::{BillingAccountWithRole, BillingRepo, OrgRepo, OrgWithRole, RepoModel};

verus! {

// ----- membership lists -----

/// `v` is the user's billing accounts with their role, by account id.
pub open spec fn billing_listing(s: RepoState, user: Seq<char>, v: Seq<BillingAccountWithRole>) -> bool {
    listed_rows(s.billing_memberships, v, accounts_of_user(s, user), account_with_role(s)) && sorted_by_key(
        v,
    )
}

/// `v` is the user's organizations with their role, by organization id.
pub open spec fn org_listing(s: RepoState, user: Seq<char>, v: Seq<OrgWithRole>) -> bool {
    listed_rows(s.org_memberships, v, orgs_of_user(s, user), org_with_role(s)) && sorted_by_key(v)
}

pub fn fetch_membership_lists<R: BillingRepo + OrgRepo>(repo: &R, user_id: &UserId) -> (r: Result<
    (Vec<BillingAccountWithRole>, Vec<OrgWithRole>),
    RpcError,
>)
    requires
        repo.inv(),
    ensures
        r matches Ok((bs, os)) && billing_listing(repo.model(), user_id@, bs@) && org_listing(
            repo.model(),
            user_id@,
            os@,
        ),
{
    let billings = match repo.list_billing_accounts_for_user(user_id) {
        Ok(v) => v,
        Err(e) => {
            return Err(from_store_error(e));
        },
    };
    let orgs = match repo.list_organizations_for_user(user_id) {
        Ok(v) => v,
        Err(e) => {
            return Err(from_store_error(e));
        },
    };
    Ok((billings, orgs))
}

/// The who-am-I message for `user` acting in `billing` (and `org`), with
/// the user's memberships as the repository lists them.
pub open spec fn whoami_in(
    s: RepoState,
    user: User,
    billing: BillingAccount,
    org: Option<Organization>,
    role: Role,
    auth_method: AuthMethodView,
    w: WhoamiView,
) -> bool {
    exists|bs: Seq<BillingAccountWithRole>, os: Seq<OrgWithRole>|
        #![trigger billing_listing(s, user.id@, bs), org_listing(s, user.id@, os)]
        billing_listing(s, user.id@, bs) && org_listing(s, user.id@, os) && w == whoami_view(
            user,
            billing,
            org,
            role,
            auth_method,
            bs,
            os,
        )
}

pub fn build_whoami_async<R: BillingRepo + OrgRepo>(
    repo: &R,
    user: &User,
    billing: &BillingAccount,
    org: Option<&Organization>,
    role: Role,
    auth_method: &AuthMethod,
) -> (r: Result<WhoamiInfo, RpcError>)
    requires
        repo.inv(),
    ensures
        r matches Ok(w) && whoami_in(
            repo.model(),
            *user,
            *billing,
            match org {
                Some(o) => Some(*o),
                None => None,
            },
            role,
            auth_method@,
            w@,
        ),
{
    let (billings, orgs) = match fetch_membership_lists(repo, &user.id) {
        Ok(p) => p,
        Err(e) => {
            return Err(e);
        },
    };
    let ghost bs = billings@;
    let ghost os = orgs@;
    let w = build_whoami(user, billing, org, role, auth_method, billings, orgs);
    assert(billing_listing(repo.model(), user.id@, bs) && org_listing(repo.model(), user.id@, os));
    Ok(w)
}

// ----- the personal billing account -----

/// `i` is the first personal account in `bs`.
pub open spec fn first_personal_at(bs: Seq<BillingAccountWithRole>, i: int) -> bool {
    &&& 0 <= i < bs.len()
    &&& bs[i].0.personal
    &&& forall|j: int| 0 <= j < i ==> !(#[trigger] bs[j]).0.personal
}

/// The first personal account in `bs`, if any.
pub open spec fn first_personal(bs: Seq<BillingAccountWithRole>) -> Option<BillingAccount> {
    if exists|i: int| first_personal_at(bs, i) {
        Some(bs[choose|i: int| first_personal_at(bs, i)].0)
    } else {
        None
    }
}

pub open spec fn personal_lookup(bs: Seq<BillingAccountWithRole>) -> Result<BillingAccount, RpcErrorView> {
    match first_personal(bs) {
        Some(b) => Ok(b),
        None => fails(Code::Internal, "personal billing missing"@),
    }
}

pub fn find_personal_billing(billings: &[BillingAccountWithRole]) -> (r: Result<BillingAccount, RpcError>)
    ensures
        rpc_result(r) == personal_lookup(billings@),
{
    let mut i: usize = 0;
    while i < billings.len()
        invariant
            i <= billings@.len(),
            forall|j: int| 0 <= j < i ==> !(#[trigger] billings@[j]).0.personal,
        decreases billings.len() - i,
    {
        if billings[i].0.personal {
            let b = billings[i].0.duplicate();
            proof {
                assert(first_personal_at(billings@, i as int));
                let k = choose|k: int| first_personal_at(billings@, k);
                if k < i {
                    assert(!billings@[k].0.personal);
                }
                if k > i {
                    assert(!billings@[i as int].0.personal);
                }
            }
            return Ok(b);
        }
        i = i + 1;
    }
    proof {
        if exists|k: int| first_personal_at(billings@, k) {
            let k = choose|k: int| first_personal_at(billings@, k);
            assert(!billings@[k].0.personal);
        }
    }
    Err(RpcError::msg(Code::Internal, "personal billing missing"))
}

// ----- minting the session -----

/// The session a user gets on signing in: in their personal billing
/// account, as its owner, with no organization.
pub open spec fn personal_session(
    user: User,
    personal: Seq<char>,
    auth_method: AuthMethodView,
    now_unix: i64,
    ttl: i64,
) -> MintSessionView {
    MintSessionView {
        user_id: user.id@,
        email: user.email@,
        billing: personal,
        org: None,
        role: Role::Owner,
        auth_method,
        now_unix,
        ttl_seconds: ttl,
    }
}

/// What minting the session `v` gives the caller: its token, or the
/// token error when a field is too large for a token.
pub open spec fn minted(key: Seq<u8>, v: MintSessionView, r: Result<Seq<char>, RpcErrorView>) -> bool {
    if mintable(session_identifier(v.user_id), session_predicates(v)) {
        r == Ok::<Seq<char>, RpcErrorView>(session_token(key, v))
    } else {
        exists|m: Seq<char>| r == Err::<Seq<char>, RpcErrorView>(token_rpc(TokenErrorView::Malformed(m)))
    }
}

/// The token and who-am-I message sent to a caller who has signed in.
#[derive(Debug)]
pub struct SessionIssued {
    pub session_token: String,
    pub whoami: WhoamiInfo,
}

pub open spec fn token_part(r: Result<SessionIssued, RpcError>) -> Result<Seq<char>, RpcErrorView> {
    match r {
        Ok(s) => Ok(s.session_token@),
        Err(e) => Err(e@),
    }
}

/// Signing `user` in with `auth_method`: a session in their personal
/// billing account (the first personal one they belong to), and the
/// who-am-I message for it.
pub open spec fn personal_session_issued(
    s: RepoState,
    key: Seq<u8>,
    ttl: i64,
    now_unix: i64,
    user: User,
    auth_method: AuthMethodView,
    r: Result<SessionIssued, RpcError>,
) -> bool {
    exists|bs: Seq<BillingAccountWithRole>, os: Seq<OrgWithRole>|
        #![trigger billing_listing(s, user.id@, bs), org_listing(s, user.id@, os)]
        {
            &&& billing_listing(s, user.id@, bs)
            &&& org_listing(s, user.id@, os)
            &&& match first_personal(bs) {
                None => rpc_result(r) == fails::<SessionIssued>(Code::Internal, "personal billing missing"@),
                Some(p) => {
                    &&& minted(key, personal_session(user, p.id@, auth_method, now_unix, ttl), token_part(r))
                    &&& r matches Ok(out) ==> out.whoami@ == whoami_view(
                        user,
                        p,
                        None,
                        Role::Owner,
                        auth_method,
                        bs,
                        os,
                    )
                },
            }
        }
}

pub fn issue_personal_session<R: BillingRepo + OrgRepo>(
    repo: &R,
    keyring: &Keyring,
    ttl_seconds: i64,
    now_unix: i64,
    user: &User,
    auth_method: AuthMethod,
) -> (r: Result<SessionIssued, RpcError>)
    requires
        repo.inv(),
        i64::MIN <= now_unix + ttl_seconds <= i64::MAX,
    ensures
        personal_session_issued(repo.model(), keyring@, ttl_seconds, now_unix, *user, auth_method@, r),
{
    let (billings, orgs) = match fetch_membership_lists(repo, &user.id) {
        Ok(p) => p,
        Err(e) => {
            return Err(e);
        },
    };
    let ghost bs = billings@;
    let ghost os = orgs@;
    assert(billing_listing(repo.model(), user.id@, bs) && org_listing(repo.model(), user.id@, os));
    let personal = match find_personal_billing(billings.as_slice()) {
        Ok(b) => b,
        Err(e) => {
            return Err(e);
        },
    };
    let token = match mint_session(
        keyring,
        MintSessionInput {
            user_id: &user.id,
            email: user.email.as_str(),
            billing: &personal.id,
            org: None,
            role: Role::Owner,
            auth_method: &auth_method,
            now_unix,
            ttl_seconds,
        },
    ) {
        Ok(t) => t,
        Err(e) => {
            return Err(map_token_error(e));
        },
    };
    let whoami = build_whoami(user, &personal, None, Role::Owner, &auth_method, billings, orgs);
    Ok(SessionIssued { session_token: token, whoami })
}

} // verus!
