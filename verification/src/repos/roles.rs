//! The repository of role grants.

use vstd::prelude::*;
use crate::acl::{AclEngine, Action, SystemACL};
use crate::errors::RepoError;
use crate::models::role::{DummyRoleUpdater, RoleEntry, RoleFilter};
use crate::repo::{DbRepo, DbRepoImpl};

verus! {

/// The relation of role grants.
pub const TABLE: &'static str = "roles";

/// A repository of role grants under the policy `A`.
pub type RolesRepoImpl<A> = DbRepoImpl<RoleEntry, RoleEntry, RoleFilter, DummyRoleUpdater, A>;

/// A repository of role grants.
pub trait RolesRepo: DbRepo<RoleEntry, RoleEntry, RoleFilter, DummyRoleUpdater> {

}

impl<A: AclEngine<RoleEntry>> RolesRepo for RolesRepoImpl<A> {

}

/// The repository of role grants in which everything is allowed.
pub fn make_su_repo() -> (repo: RolesRepoImpl<SystemACL>)
    ensures
        repo.table == TABLE,
{
    DbRepoImpl::new(TABLE)
}

/// Whether one grant of the caller allows the operation on the entry: that
/// of a superadmin allows everything; any other allows the caller to see the
/// caller's own grants.
pub open spec fn grant_allows(grant: RoleEntry, entry: RoleEntry, action: Action) -> bool {
    grant.role is Superadmin || (action == Action::Select && grant.user_id == entry.user_id)
}

/// Whether some grant of the caller allows the operation on the entry.
pub open spec fn may_touch(user_roles: Seq<RoleEntry>, entry: RoleEntry, action: Action) -> bool {
    exists|i: int| 0 <= i < user_roles.len() && grant_allows(#[trigger] user_roles[i], entry, action)
}

/// Whether the caller who holds `user_roles` may carry out `action` on the
/// grant `entry`.
pub fn check_acl(user_roles: &Vec<RoleEntry>, entry: &RoleEntry, action: Action) -> (allowed: bool)
    ensures
        allowed == may_touch(user_roles@, *entry, action),
{
    let mut i: usize = 0;
    while i < user_roles.len()
        invariant
            i <= user_roles.len(),
            forall|k: int| 0 <= k < i ==> !grant_allows(#[trigger] user_roles@[k], *entry, action),
        decreases user_roles.len() - i,
    {
        let user_role: RoleEntry = user_roles[i];
        // Superadmins can access in all cases.
        if user_role.role.is_su() {
            assert(grant_allows(user_roles@[i as int], *entry, action));
            return true;
        }
        // Others can only view their roles.
        if action.is_read() {
            if user_role.user_id == entry.user_id {
                assert(grant_allows(user_roles@[i as int], *entry, action));
                return true;
            }
        }
        i = i + 1;
    }
    false
}

/// The policy of the role repository for the holder of some grants.
#[derive(Clone, Copy, Debug)]
pub struct RolesAcl<'a> {
    pub user_roles: &'a Vec<RoleEntry>,
}

impl<'a> AclEngine<RoleEntry> for RolesAcl<'a> {
    open spec fn verdict(&self, entry: RoleEntry, action: Action) -> Result<bool, RepoError> {
        Ok(may_touch(self.user_roles@, entry, action))
    }

    fn ensure_access(&self, entry: &RoleEntry, action: Action) -> (r: Result<bool, RepoError>) {
        Ok(check_acl(self.user_roles, entry, action))
    }
}

/// The repository of role grants as the holder of `user_roles` may use it.
pub fn make_repo<'a>(user_roles: &'a Vec<RoleEntry>) -> (repo: RolesRepoImpl<RolesAcl<'a>>)
    ensures
        repo.table == TABLE,
        repo.afterop_acl_engine == (RolesAcl { user_roles }),
{
    make_su_repo().with_afterop_acl_engine(RolesAcl { user_roles })
}

} // verus!
