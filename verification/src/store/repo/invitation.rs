//! Invitations into billing accounts and organizations.

use vstd::prelude::*;

use crate::domain::{
    Invitation, InvitationId, InvitationStatus, Role, ScopeKind, ScopeTarget, UserId,
};
use crate::store::error::{StoreErrorView, StoreResult};
use crate::store::model::{
    found, invitation_applied, listed, scope_exists, scope_missing_message, store_result, AcceptanceView,
    RepoState,
};
use crate::store::repo::RepoModel;
use crate::text::eq_ignore_ascii_case_spec;

verus! {

/// A resolved invitation, for the signup-and-accept and accept-as-existing-
/// user entry points.
#[derive(Clone, Debug)]
pub struct InvitationAcceptance {
    pub invitation_id: InvitationId,
    pub target: ScopeTarget,
    pub role: Role,
}

impl View for InvitationAcceptance {
    type V = AcceptanceView;

    open spec fn view(&self) -> AcceptanceView {
        AcceptanceView { invitation_id: self.invitation_id@, target: self.target@, role: self.role }
    }
}

/// A pending invitation of `email` (ignoring ASCII case) into a scope.
pub open spec fn pending_for(i: Invitation, kind: ScopeKind, scope_id: Seq<char>, email: Seq<char>) -> bool {
    &&& i.status == InvitationStatus::Pending
    &&& i.scope@.kind() == kind
    &&& i.scope@.id() == scope_id
    &&& eq_ignore_ascii_case_spec(i.email@, email)
}

pub open spec fn pending_in_scope(kind: ScopeKind, scope_id: Seq<char>, email: Seq<char>) -> spec_fn(Seq<char>, Invitation) -> bool {
    |k: Seq<char>, i: Invitation| pending_for(i, kind, scope_id, email)
}

/// Pending invitations of `email`, ignoring ASCII case.
pub open spec fn pending_of_email(email: Seq<char>) -> spec_fn(Seq<char>, Invitation) -> bool {
    |k: Seq<char>, i: Invitation| i.status == InvitationStatus::Pending && eq_ignore_ascii_case_spec(i.email@, email)
}

pub open spec fn pending_exists(s: RepoState, kind: ScopeKind, scope_id: Seq<char>, email: Seq<char>) -> bool {
    exists|k: Seq<char>|
        #[trigger] s.invitations.contains_key(k) && pending_in_scope(kind, scope_id, email)(k, s.invitations[k])
}

pub trait InvitationRepo: RepoModel {
    /// Record an invitation. A second pending invitation of the same email
    /// into the same scope is refused: re-inviting goes through
    /// `refresh_invitation_token`.
    fn create_invitation(&mut self, invitation: Invitation) -> (r: StoreResult<()>)
        requires
            old(self).inv(),
        ensures
            final(self).inv(),
            pending_exists(
                old(self).model(),
                invitation.scope@.kind(),
                invitation.scope@.id(),
                invitation.email@,
            ) ==> (r matches Err(e) && e@ == StoreErrorView::AlreadyExists(
                "pending invite for "@ + invitation.email@ + " on "@ + invitation.scope@.kind().spec_str()
                    + ":"@ + invitation.scope@.id(),
            )) && final(self).model() == old(self).model(),
            !pending_exists(
                old(self).model(),
                invitation.scope@.kind(),
                invitation.scope@.id(),
                invitation.email@,
            ) ==> r is Ok && final(self).model() == (RepoState {
                invitations: old(self).model().invitations.insert(invitation.id@, invitation),
                ..old(self).model()
            }),
    ;

    fn get_invitation(&self, id: &InvitationId) -> (r: StoreResult<Option<Invitation>>)
        requires
            self.inv(),
        ensures
            r matches Ok(o) && o == self.model().invitations.get(id@),
    ;

    /// The pending invitations of an email, ignoring ASCII case, each once.
    fn list_pending_invitations_by_email(&self, email: &str) -> (r: StoreResult<Vec<Invitation>>)
        requires
            self.inv(),
        ensures
            r matches Ok(v) && listed(self.model().invitations, v@, pending_of_email(email@)),
    ;

    /// A pending invitation of the email into the scope, if any.
    fn list_pending_invitation_by_scope_email(&self, scope_kind: ScopeKind, scope_id: &str, email: &str) -> (r: StoreResult<Option<Invitation>>)
        requires
            self.inv(),
        ensures
            r matches Ok(o) && found(self.model().invitations, o, pending_in_scope(scope_kind, scope_id@, email@)),
    ;

    fn update_invitation_status(&mut self, id: &InvitationId, status: InvitationStatus) -> (r: StoreResult<()>)
        requires
            old(self).inv(),
        ensures
            final(self).inv(),
            !old(self).model().invitations.contains_key(id@) ==> (r matches Err(e) && e@
                == StoreErrorView::NotFound("invitation "@ + id@)) && final(self).model() == old(
                self,
            ).model(),
            old(self).model().invitations.contains_key(id@) ==> r is Ok && final(self).model()
                == (RepoState {
                invitations: old(self).model().invitations.insert(
                    id@,
                    (Invitation { status, ..old(self).model().invitations[id@] }),
                ),
                ..old(self).model()
            }),
    ;

    /// Give an invitation a new nonce and expiry, pending again; tokens with
    /// the old nonce stop redeeming.
    fn refresh_invitation_token(&mut self, id: &InvitationId, new_nonce: String, new_expiry_ms: i64) -> (r: StoreResult<()>)
        requires
            old(self).inv(),
        ensures
            final(self).inv(),
            !old(self).model().invitations.contains_key(id@) ==> (r matches Err(e) && e@
                == StoreErrorView::NotFound("invitation "@ + id@)) && final(self).model() == old(
                self,
            ).model(),
            old(self).model().invitations.contains_key(id@) ==> r is Ok && final(self).model()
                == (RepoState {
                invitations: old(self).model().invitations.insert(
                    id@,
                    (Invitation {
                        nonce: new_nonce,
                        expires_at_ms: new_expiry_ms,
                        status: InvitationStatus::Pending,
                        ..old(self).model().invitations[id@]
                    }),
                ),
                ..old(self).model()
            }),
    ;

    /// Atomically consume the invitation's nonce, add the membership and
    /// mark the invitation accepted. A consumed nonce is refused, and so is
    /// a missing scope; either refusal changes nothing.
    fn accept_invitation_existing_user(&mut self, user_id: &UserId, acceptance: InvitationAcceptance, nonce: &str, now_ms: i64) -> (r: StoreResult<()>)
        requires
            old(self).inv(),
        ensures
            final(self).inv(),
            old(self).model().consumed_nonces.contains_key(nonce@) ==> (r matches Err(e) && e@
                == StoreErrorView::AlreadyExists("nonce "@ + nonce@)) && final(self).model() == old(
                self,
            ).model(),
            !old(self).model().consumed_nonces.contains_key(nonce@) && !scope_exists(
                old(self).model(),
                acceptance@.target,
            ) ==> (r matches Err(e) && e@ == StoreErrorView::NotFound(scope_missing_message(acceptance@.target)))
                && final(self).model() == old(self).model(),
            !old(self).model().consumed_nonces.contains_key(nonce@) && scope_exists(
                old(self).model(),
                acceptance@.target,
            ) ==> r is Ok && exists|mid: RepoState|
                #![trigger invitation_applied(mid, final(self).model(), user_id@, acceptance@, now_ms, store_result(r))]
                {
                    &&& mid.consumed_nonces[nonce@].0@ == "invitation"@
                    &&& mid.consumed_nonces[nonce@].1 == now_ms
                    &&& mid == (RepoState {
                        consumed_nonces: old(self).model().consumed_nonces.insert(
                            nonce@,
                            mid.consumed_nonces[nonce@],
                        ),
                        ..old(self).model()
                    })
                    &&& invitation_applied(
                        mid,
                        final(self).model(),
                        user_id@,
                        acceptance@,
                        now_ms,
                        store_result(r),
                    )
                },
    ;
}

} // verus!
