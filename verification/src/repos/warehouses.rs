//! The repository of warehouses, and the sequence that numbers their slugs.

use vstd::prelude::*;
use crate::acl::{AclEngine, Action, SystemACL};
use crate::errors::RepoError;
use crate::models::role::{RoleEntry, UserLogin, UserRole};
use crate::models::warehouse::{DbWarehouse, WarehouseFilter, WarehouseUpdater, WarehouseView};
use crate::repo::{DbRepo, DbRepoImpl};
use crate::sequence::{Sequence, SequenceImpl};
use crate::types::StoreId;

verus! {

/// The relation of warehouses.
pub const TABLE: &'static str = "warehouses";

/// The sequence that numbers the slugs of warehouses.
pub const SLUG_SEQUENCE: &'static str = "warehouse_slug_seq";

/// A repository of warehouses under the policy `A`.
pub type WarehouseRepoImpl<A> = DbRepoImpl<
    DbWarehouse,
    DbWarehouse,
    WarehouseFilter,
    WarehouseUpdater,
    A,
>;

/// A repository of warehouses.
pub trait WarehouseRepo: DbRepo<DbWarehouse, DbWarehouse, WarehouseFilter, WarehouseUpdater> {

}

impl<A: AclEngine<DbWarehouse>> WarehouseRepo for WarehouseRepoImpl<A> {

}

/// An allocator of warehouse slugs.
pub trait WarehouseSlugSequence: Sequence {

}

/// The allocator of warehouse slugs.
pub type WarehouseSlugSequenceImpl = SequenceImpl;

impl WarehouseSlugSequence for WarehouseSlugSequenceImpl {

}

/// The repository of warehouses in which everything is allowed.
pub fn make_su_repo() -> (repo: WarehouseRepoImpl<SystemACL>)
    ensures
        repo.table == TABLE,
{
    DbRepoImpl::new(TABLE)
}

/// Whether one grant is enough to manage what belongs to `store`: it is that
/// of a superadmin, or that of the manager of this very store.
pub open spec fn grant_covers(grant: RoleEntry, store: StoreId) -> bool {
    grant.role is Superadmin || grant.role == UserRole::StoreManager(store)
}

/// Whether some grant among `grants` is enough to manage what belongs to
/// `store`. One sufficient grant is enough; no grant is never enough.
pub open spec fn may_manage(grants: Seq<RoleEntry>, store: StoreId) -> bool {
    exists|i: int| 0 <= i < grants.len() && grant_covers(#[trigger] grants[i], store)
}

/// Whether the grants are enough to manage what belongs to `store`.
pub fn grants_cover(grants: &Vec<RoleEntry>, store: StoreId) -> (b: bool)
    ensures
        b == may_manage(grants@, store),
{
    let mut i: usize = 0;
    while i < grants.len()
        invariant
            i <= grants.len(),
            forall|k: int| 0 <= k < i ==> !grant_covers(#[trigger] grants@[k], store),
        decreases grants.len() - i,
    {
        match grants[i].role {
            // Superadmins can access in all cases.
            UserRole::Superadmin => {
                assert(grant_covers(grants@[i as int], store));
                return true;
            },
            // Store managers can do anything to the warehouses of their stores.
            UserRole::StoreManager(managed_store_id) => {
                if managed_store_id == store {
                    assert(grant_covers(grants@[i as int], store));
                    return true;
                }
            },
        }
        i = i + 1;
    }
    false
}

/// Whether the caller may do anything to the warehouse: a superadmin may,
/// and so may a manager of the store that the warehouse belongs to. The kind
/// of operation makes no difference.
pub fn check_acl(login: &UserLogin, entry: &DbWarehouse, action: Action) -> (allowed: bool)
    ensures
        allowed == may_manage(login.grants(), entry@.store_id),
{
    match login {
        UserLogin::User { caller_roles, .. } => grants_cover(caller_roles, entry.0.store_id),
        UserLogin::Anonymous => false,
    }
}

/// The policy of a warehouse repository for one caller: the caller may do
/// to a warehouse whatever the grants allow. Where the repository is open to
/// readers, every caller may also read every warehouse.
#[derive(Clone, Copy, Debug)]
pub struct WarehouseAcl<'a> {
    pub login: &'a UserLogin,
    pub open_to_readers: bool,
}

/// Whether a caller with these grants may carry out the operation on what
/// belongs to `owner`: a superadmin and a manager of the owner may do
/// everything; where the resource is open to readers, everyone may read.
pub open spec fn allowed(
    grants: Seq<RoleEntry>,
    owner: StoreId,
    action: Action,
    open_to_readers: bool,
) -> bool {
    may_manage(grants, owner) || (open_to_readers && action == Action::Select)
}

/// Decides for a caller and what belongs to `owner`.
pub fn decide(login: &UserLogin, owner: StoreId, action: Action, open_to_readers: bool) -> (ok: bool)
    ensures
        ok == allowed(login.grants(), owner, action, open_to_readers),
{
    if let UserLogin::User { caller_roles, .. } = login {
        if grants_cover(caller_roles, owner) {
            return true;
        }
    }
    // Allow read-only access for everyone
    if open_to_readers && action.is_read() {
        return true;
    }
    false
}

impl<'a> AclEngine<DbWarehouse> for WarehouseAcl<'a> {
    open spec fn verdict(&self, entry: WarehouseView, action: Action) -> Result<bool, RepoError> {
        Ok(allowed(self.login.grants(), entry.store_id, action, self.open_to_readers))
    }

    fn ensure_access(&self, entry: &DbWarehouse, action: Action) -> (r: Result<bool, RepoError>) {
        Ok(decide(self.login, entry.0.store_id, action, self.open_to_readers))
    }
}

/// The repository of warehouses as `login` may use it. It is not open to
/// readers: a warehouse is seen only by those who may manage it.
pub fn make_repo<'a>(login: &'a UserLogin) -> (repo: WarehouseRepoImpl<WarehouseAcl<'a>>)
    ensures
        repo.table == TABLE,
        repo.afterop_acl_engine == (WarehouseAcl { login, open_to_readers: false }),
{
    make_su_repo().with_afterop_acl_engine(WarehouseAcl { login, open_to_readers: false })
}

/// The allocator of warehouse slugs.
pub fn make_slug_sequence() -> (sequence: WarehouseSlugSequenceImpl)
    ensures
        sequence.name == SLUG_SEQUENCE,
{
    SequenceImpl::new(SLUG_SEQUENCE)
}

} // verus!
