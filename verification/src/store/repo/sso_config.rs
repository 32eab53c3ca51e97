//! SSO configuration per billing account or organization.

use vstd::prelude::*;

use crate::domain::{ScopeKind, SsoConfig};
use crate::store::error::StoreResult;
use crate::store::model::{looked_up, RepoState};
use crate::store::repo::RepoModel;

verus! {

/// The configurations of one scope kind, by scope id.
pub open spec fn configs_of_kind(s: RepoState, kind: ScopeKind) -> Map<Seq<char>, SsoConfig> {
    Map::new(
        |id: Seq<char>| s.sso_configs.contains_key((kind, id)),
        |id: Seq<char>| s.sso_configs[(kind, id)],
    )
}

pub trait SsoConfigRepo: RepoModel {
    fn get_sso_config(&self, scope_kind: ScopeKind, scope_id: &str) -> (r: StoreResult<Option<SsoConfig>>)
        requires
            self.inv(),
        ensures
            r matches Ok(o) && o == self.model().sso_configs.get((scope_kind, scope_id@)),
    ;

    /// The configurations of the given scopes, each scope id once; scopes
    /// without one are left out.
    fn list_sso_configs_by_scope_ids(&self, scope_kind: ScopeKind, scope_ids: &[&str]) -> (r: StoreResult<Vec<(String, SsoConfig)>>)
        requires
            self.inv(),
        ensures
            r matches Ok(v) && looked_up(
                configs_of_kind(self.model(), scope_kind),
                scope_ids@.map_values(|s: &str| s@),
                v@,
            ),
    ;

    /// Store the configuration of its scope, replacing any earlier one.
    fn upsert_sso_config(&mut self, config: SsoConfig) -> (r: StoreResult<()>)
        requires
            old(self).inv(),
        ensures
            final(self).inv(),
            r is Ok,
            final(self).model() == (RepoState {
                sso_configs: old(self).model().sso_configs.insert((config.scope_kind, config.scope_id@), config),
                ..old(self).model()
            }),
    ;

    fn delete_sso_config(&mut self, scope_kind: ScopeKind, scope_id: &str) -> (r: StoreResult<()>)
        requires
            old(self).inv(),
        ensures
            final(self).inv(),
            r is Ok,
            final(self).model() == (RepoState {
                sso_configs: old(self).model().sso_configs.remove((scope_kind, scope_id@)),
                ..old(self).model()
            }),
    ;
}

} // verus!
