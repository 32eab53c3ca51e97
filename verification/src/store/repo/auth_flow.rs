//! One-shot nonces and pending SSO states.

use vstd::prelude::*;

use crate::domain::SsoState;
use crate::store::error::StoreResult;
use crate::store::model::{nonce_consumed, sso_state_taken, store_result, RepoState};
use crate::store::repo::RepoModel;

verus! {

pub trait AuthFlowRepo: RepoModel {
    /// Consume a nonce: the first use succeeds and records the purpose and
    /// time; a replay is refused.
    fn consume_nonce(&mut self, nonce: &str, purpose: &str, now_ms: i64) -> (r: StoreResult<()>)
        requires
            old(self).inv(),
        ensures
            final(self).inv(),
            nonce_consumed(old(self).model(), final(self).model(), nonce@, purpose@, now_ms, store_result(r)),
    ;

    /// Stamp a pending SSO state under its token.
    fn store_sso_state(&mut self, state: SsoState) -> (r: StoreResult<()>)
        requires
            old(self).inv(),
        ensures
            final(self).inv(),
            r is Ok,
            final(self).model() == (RepoState {
                sso_states: old(self).model().sso_states.insert(state.state@, state),
                ..old(self).model()
            }),
    ;

    /// Take a pending SSO state: it is removed either way, and given back
    /// only when it has not expired.
    fn consume_sso_state(&mut self, state: &str, now_ms: i64) -> (r: StoreResult<Option<SsoState>>)
        requires
            old(self).inv(),
        ensures
            final(self).inv(),
            r matches Ok(o) && sso_state_taken(old(self).model(), final(self).model(), state@, now_ms, o),
    ;
}

} // verus!
