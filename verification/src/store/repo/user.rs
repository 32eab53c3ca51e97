//! Users and their sign-in identities.

use vstd::prelude::*;

use crate::domain::{BillingAccountId, Identity, IdentityId, User, UserId};
use crate::store::error::{StoreError, StoreErrorView, StoreResult};
use crate::store::model::{
    found, identity_fields, identity_in_use, identity_matches, identity_of_user, identity_with,
    listed, password_signup, sso_signup, store_result, user_deleted, user_with_email,
    AcceptanceView, RepoState,
};
use crate::store::repo::invitation::InvitationAcceptance;
use crate::store::repo::RepoModel;

verus! {

/// Input bundle for SSO-driven user creation: the user, identity, personal
/// billing account and owner membership are created as one unit.
#[derive(Clone, Debug)]
pub struct NewSsoUser {
    pub email: String,
    pub idp_id: String,
    pub idp_user_id: String,
}

/// Input bundle for password signup.
#[derive(Clone, Debug)]
pub struct NewPasswordUser {
    pub email: String,
    pub password_hash: String,
}

pub open spec fn acceptance_view(invite: Option<InvitationAcceptance>) -> Option<AcceptanceView> {
    match invite {
        Some(a) => Some(a@),
        None => None,
    }
}

pub open spec fn billing_id_view(b: Option<BillingAccountId>) -> Option<Seq<char>> {
    match b {
        Some(b) => Some(b@),
        None => None,
    }
}

/// Linking an identity to a user: an identity already linked to the user
/// is returned as it is, one linked to another user is refused as a
/// conflict, and otherwise a new one is added; only the addition changes
/// the state.
pub open spec fn identity_link(
    old: RepoState,
    new: RepoState,
    user: Seq<char>,
    provider: Seq<char>,
    provider_user_id: Seq<char>,
    secret: Option<Seq<char>>,
    now_ms: i64,
    r: StoreResult<Identity>,
) -> bool {
    if identity_in_use(old, provider, provider_user_id) {
        new == old && exists|k: Seq<char>|
            #[trigger] old.identities.contains_key(k) && identity_matches(old.identities[k], provider, provider_user_id)
                && if old.identities[k].user_id@ == user {
                r == Ok::<Identity, StoreError>(old.identities[k])
            } else {
                r matches Err(e) && e@ == StoreErrorView::Conflict(
                    "identity "@ + provider + ":"@ + provider_user_id + " belongs to another user"@,
                )
            }
    } else {
        r matches Ok(i) && identity_fields(i, user, provider, provider_user_id, secret, now_ms) && new == (
        RepoState { identities: old.identities.insert(i.id@, i), ..old })
    }
}

pub trait UserRepo: RepoModel {
    fn get_user(&self, id: &UserId) -> (r: StoreResult<Option<User>>)
        requires
            self.inv(),
        ensures
            r matches Ok(o) && o == self.model().users.get(id@),
    ;

    /// A user whose email equals `email`, ignoring ASCII case.
    fn get_user_by_email(&self, email: &str) -> (r: StoreResult<Option<User>>)
        requires
            self.inv(),
        ensures
            r matches Ok(o) && found(self.model().users, o, user_with_email(email@)),
    ;

    fn mark_email_verified(&mut self, user_id: &UserId) -> (r: StoreResult<()>)
        requires
            old(self).inv(),
        ensures
            final(self).inv(),
            old(self).model().users.contains_key(user_id@) ==> r is Ok && final(self).model()
                == (RepoState {
                users: old(self).model().users.insert(
                    user_id@,
                    (User { email_verified: true, ..old(self).model().users[user_id@] }),
                ),
                ..old(self).model()
            }),
            !old(self).model().users.contains_key(user_id@) ==> (r matches Err(e) && e@
                == StoreErrorView::NotFound("user "@ + user_id@)) && final(self).model() == old(
                self,
            ).model(),
    ;

    /// The user's identities, each once, in no particular order.
    fn list_identities(&self, user_id: &UserId) -> (r: StoreResult<Vec<Identity>>)
        requires
            self.inv(),
        ensures
            r matches Ok(v) && listed(self.model().identities, v@, identity_of_user(user_id@)),
    ;

    fn find_identity(&self, provider: &str, provider_user_id: &str) -> (r: StoreResult<Option<Identity>>)
        requires
            self.inv(),
        ensures
            r matches Ok(o) && found(
                self.model().identities,
                o,
                identity_with(provider@, provider_user_id@),
            ),
    ;

    /// A new identity for the user; one with the same provider and
    /// provider user id is refused.
    fn add_identity(
        &mut self,
        user_id: &UserId,
        provider: &str,
        provider_user_id: &str,
        secret: Option<String>,
        now_ms: i64,
    ) -> (r: StoreResult<Identity>)
        requires
            old(self).inv(),
        ensures
            final(self).inv(),
            identity_in_use(old(self).model(), provider@, provider_user_id@) ==> (r matches Err(e)
                && e@ == StoreErrorView::AlreadyExists(
                "identity "@ + provider@ + ":"@ + provider_user_id@,
            )) && final(self).model() == old(self).model(),
            !identity_in_use(old(self).model(), provider@, provider_user_id@) ==> (r matches Ok(i)
                && identity_fields(
                i,
                user_id@,
                provider@,
                provider_user_id@,
                match secret {
                    Some(x) => Some(x@),
                    None => None,
                },
                now_ms,
            ) && final(self).model() == (RepoState {
                identities: old(self).model().identities.insert(i.id@, i),
                ..old(self).model()
            })),
    ;

    fn update_identity_secret(&mut self, identity_id: &IdentityId, new_secret: String) -> (r: StoreResult<()>)
        requires
            old(self).inv(),
        ensures
            final(self).inv(),
            old(self).model().identities.contains_key(identity_id@) ==> r is Ok && final(self).model()
                == (RepoState {
                identities: old(self).model().identities.insert(
                    identity_id@,
                    (Identity { secret: Some(new_secret), ..old(self).model().identities[identity_id@] }),
                ),
                ..old(self).model()
            }),
            !old(self).model().identities.contains_key(identity_id@) ==> (r matches Err(e) && e@
                == StoreErrorView::NotFound("identity "@ + identity_id@)) && final(self).model()
                == old(self).model(),
    ;

    /// Delete a user with their identities, memberships and personal
    /// billing account and organization.
    fn delete_user(&mut self, user_id: &UserId) -> (r: StoreResult<()>)
        requires
            old(self).inv(),
        ensures
            final(self).inv(),
            old(self).model().users.contains_key(user_id@) ==> r is Ok && final(self).model()
                == user_deleted(old(self).model(), user_id@),
            !old(self).model().users.contains_key(user_id@) ==> (r matches Err(e) && e@
                == StoreErrorView::NotFound("user "@ + user_id@)) && final(self).model() == old(
                self,
            ).model(),
    ;

    /// Password signup: the user, a password identity, a personal billing
    /// account and organization owned by the user, then the invitation if
    /// one is given.
    fn create_password_user(
        &mut self,
        input: NewPasswordUser,
        invite: Option<InvitationAcceptance>,
        now_ms: i64,
    ) -> (r: StoreResult<User>)
        requires
            old(self).inv(),
        ensures
            final(self).inv(),
            exists|keys: (Seq<char>, Seq<char>, Seq<char>, Seq<char>)|
                #[trigger] password_signup(
                    old(self).model(),
                    final(self).model(),
                    input.email@,
                    input.password_hash@,
                    acceptance_view(invite),
                    now_ms,
                    keys,
                    store_result(r),
                ),
    ;

    /// SSO signup: as password signup with a verified email and an
    /// `sso:<idp>` identity, then joining `auto_join_billing` as a member
    /// when it exists.
    fn create_sso_user(
        &mut self,
        input: NewSsoUser,
        invite: Option<InvitationAcceptance>,
        auto_join_billing: Option<BillingAccountId>,
        now_ms: i64,
    ) -> (r: StoreResult<User>)
        requires
            old(self).inv(),
        ensures
            final(self).inv(),
            exists|keys: (Seq<char>, Seq<char>, Seq<char>, Seq<char>)|
                #[trigger] sso_signup(
                    old(self).model(),
                    final(self).model(),
                    input.email@,
                    input.idp_id@,
                    input.idp_user_id@,
                    acceptance_view(invite),
                    billing_id_view(auto_join_billing),
                    now_ms,
                    keys,
                    store_result(r),
                ),
    ;

    /// Link an identity to a user: an identity already linked to the user
    /// is returned as it is, one linked to another user is refused, and
    /// otherwise a new one is added.
    fn link_identity(
        &mut self,
        user_id: &UserId,
        provider: &str,
        provider_user_id: &str,
        secret: Option<String>,
        now_ms: i64,
    ) -> (r: StoreResult<Identity>)
        requires
            old(self).inv(),
        ensures
            final(self).inv(),
            identity_link(
                old(self).model(),
                final(self).model(),
                user_id@,
                provider@,
                provider_user_id@,
                match secret {
                    Some(x) => Some(x@),
                    None => None,
                },
                now_ms,
                r,
            ),
    ;
}

} // verus!
