//! The repository of stock records. Who may change a stock record depends
//! on the store that owns its warehouse, which has to be looked up.

use vstd::prelude::*;
use crate::acl::{AclEngine, Action, SystemACL};
use crate::errors::RepoError;
use crate::models::role::UserLogin;
use crate::models::stock::{DbStock, Stock, StockFilter, StockUpdater};
use crate::models::warehouse::{DbWarehouse, WarehouseFilter};
use crate::models::ValueContainer;
use crate::repo::{exactly_one, screen, select_spec, DbRepo, DbRepoImpl};
use crate::repos::warehouses::{allowed, decide};
use crate::schema::Column;
use crate::statement::Filter;
use crate::storage::{Table, TableView};
use crate::types::{StoreId, WarehouseId};
use crate::value::{RecordView, ValueView};

verus! {

/// The relation of stock records.
pub const TABLE: &'static str = "stocks";

/// A repository of stock records under the policy `A`.
pub type StocksRepoImpl<A> = DbRepoImpl<DbStock, DbStock, StockFilter, StockUpdater, A>;

/// A repository of stock records.
pub trait StocksRepo: DbRepo<DbStock, DbStock, StockFilter, StockUpdater> {

}

impl<A: AclEngine<DbStock>> StocksRepo for StocksRepoImpl<A> {

}

/// The repository of stock records in which everything is allowed.
pub fn make_su_repo() -> (repo: StocksRepoImpl<SystemACL>)
    ensures
        repo.table == TABLE,
{
    DbRepoImpl::new(TABLE)
}

/// The predicates that select the warehouse of an identifier.
pub open spec fn by_warehouse_id(id: WarehouseId) -> RecordView {
    Map::empty().insert(Column::Id, ValueView::Uuid(id.0))
}

/// The store that owns a warehouse, as the relation of warehouses tells it:
/// the store of the one row with this identifier. `NotFound` where there is
/// no such row, `MultipleRowsMatched` where there are several, a storage
/// error where the relation is not that of warehouses or a matching row
/// holds no warehouse.
pub open spec fn owner_of(warehouses: TableView, id: WarehouseId) -> Result<StoreId, RepoError> {
    match exactly_one(
        select_spec::<DbWarehouse, SystemACL>(
            crate::repos::warehouses::TABLE@,
            SystemACL,
            warehouses,
            by_warehouse_id(id),
        ),
    ) {
        Err(e) => Err(e),
        Ok(w) => Ok(w.store_id),
    }
}

/// Resolves the store that owns a warehouse in the relation of warehouses.
pub fn resolve_owner(warehouse_source: &Table, id: WarehouseId) -> (r: Result<StoreId, RepoError>)
    ensures
        r == owner_of(warehouse_source@, id),
{
    let mut filter = WarehouseFilter::default();
    filter.id = Some(ValueContainer { value: id });
    proof {
        assert(filter.predicates() =~= by_warehouse_id(id));
    }
    let op = filter.into_filtered_operation_builder(crate::repos::warehouses::TABLE);
    let rows = match warehouse_source.select(&op) {
        Err(e) => {
            return Err(e);
        },
        Ok(rows) => rows,
    };
    let mut found = match screen::<DbWarehouse, SystemACL>(&SystemACL, &rows, Action::Select, false) {
        Err(e) => {
            return Err(e);
        },
        Ok(found) => found,
    };
    if found.len() != 1 {
        return if found.len() == 0 {
            Err(RepoError::NotFound)
        } else {
            Err(RepoError::MultipleRowsMatched)
        };
    }
    match found.pop() {
        Some(warehouse) => Ok(warehouse.0.store_id),
        None => Err(RepoError::NotFound),
    }
}

/// Looks up the warehouse of the stock record in `warehouse_source` and
/// decides by the store that owns it: a superadmin and a manager of the store
/// may do everything, and everyone may read. Where the lookup fails, its
/// error is the verdict, whatever the operation.
pub fn check_acl(
    warehouse_source: &Table,
    login: &UserLogin,
    entry: &DbStock,
    action: Action,
) -> (r: Result<bool, RepoError>)
    ensures
        r == match owner_of(warehouse_source@, entry@.warehouse_id) {
            Err(e) => Err(e),
            Ok(owner) => Ok(allowed(login.grants(), owner, action, true)),
        },
{
    match resolve_owner(warehouse_source, entry.0.warehouse_id) {
        Err(e) => Err(e),
        Ok(owner) => Ok(decide(login, owner, action, true)),
    }
}

/// The policy of a stock repository for one caller. It resolves the owner
/// of a stock record in the relation of warehouses that it was given, and
/// decides by the owner. Where the repository is open to readers, every
/// caller may read every record whose owner resolves.
#[derive(Clone, Copy, Debug)]
pub struct StocksAcl<'a> {
    pub login: &'a UserLogin,
    pub warehouse_source: &'a Table,
    pub open_to_readers: bool,
}

impl<'a> AclEngine<DbStock> for StocksAcl<'a> {
    open spec fn verdict(&self, entry: Stock, action: Action) -> Result<bool, RepoError> {
        match owner_of(self.warehouse_source@, entry.warehouse_id) {
            Err(e) => Err(e),
            Ok(owner) => Ok(allowed(self.login.grants(), owner, action, self.open_to_readers)),
        }
    }

    fn ensure_access(&self, entry: &DbStock, action: Action) -> (r: Result<bool, RepoError>) {
        match resolve_owner(self.warehouse_source, entry.0.warehouse_id) {
            Err(e) => Err(e),
            Ok(owner) => Ok(decide(self.login, owner, action, self.open_to_readers)),
        }
    }
}

/// The repository of stock records as `login` may use it, with the relation
/// of warehouses in which owners are looked up. It is open to readers.
pub fn make_repo<'a>(login: &'a UserLogin, warehouse_source: &'a Table) -> (repo: StocksRepoImpl<
    StocksAcl<'a>,
>)
    ensures
        repo.table == TABLE,
        repo.afterop_acl_engine == (StocksAcl { login, warehouse_source, open_to_readers: true }),
{
    make_su_repo().with_afterop_acl_engine(
        StocksAcl { login, warehouse_source, open_to_readers: true },
    )
}

} // verus!
