//! What a service works on: the relations of the store and the counter of
//! warehouse slugs.

use vstd::prelude::*;
use crate::errors::RepoError;
use crate::schema::Column;
use crate::sequence::{Counter, CounterView};
use crate::storage::{consistent, Table, TableView};
use crate::value::{views, Record, RecordView};

verus! {

/// The store, as one operation sees it.
#[derive(Debug)]
pub struct Connection {
    pub roles: Table,
    pub stocks: Table,
    pub warehouses: Table,
    pub warehouse_slug_seq: Counter,
}

/// The constraints of the relation of role grants: no two grants have the
/// same identifier.
pub open spec fn roles_uniques() -> Seq<Seq<Column>> {
    seq![seq![Column::Id]]
}

/// The constraints of the relation of stock records: no two records have the
/// same identifier, and no two are for the same warehouse and product.
pub open spec fn stocks_uniques() -> Seq<Seq<Column>> {
    seq![seq![Column::Id], seq![Column::WarehouseId, Column::ProductId]]
}

/// The constraints of the relation of warehouses: no two warehouses have the
/// same identifier, and no two have the same slug.
pub open spec fn warehouses_uniques() -> Seq<Seq<Column>> {
    seq![seq![Column::Id], seq![Column::Slug]]
}

/// The constraints of the relation of role grants.
pub fn roles_constraints() -> (uniques: Vec<Vec<Column>>)
    ensures
        views(uniques@) == roles_uniques(),
{
    let mut id: Vec<Column> = Vec::new();
    id.push(Column::Id);
    let mut uniques: Vec<Vec<Column>> = Vec::new();
    uniques.push(id);
    proof {
        assert(views(uniques@)[0] =~= roles_uniques()[0]);
        assert(views(uniques@) =~= roles_uniques());
    }
    uniques
}

/// The constraints of the relation of stock records.
pub fn stocks_constraints() -> (uniques: Vec<Vec<Column>>)
    ensures
        views(uniques@) == stocks_uniques(),
{
    let mut id: Vec<Column> = Vec::new();
    id.push(Column::Id);
    let mut pair: Vec<Column> = Vec::new();
    pair.push(Column::WarehouseId);
    pair.push(Column::ProductId);
    let mut uniques: Vec<Vec<Column>> = Vec::new();
    uniques.push(id);
    uniques.push(pair);
    proof {
        assert(views(uniques@)[0] =~= stocks_uniques()[0]);
        assert(views(uniques@)[1] =~= stocks_uniques()[1]);
        assert(views(uniques@) =~= stocks_uniques());
    }
    uniques
}

/// The constraints of the relation of warehouses.
pub fn warehouses_constraints() -> (uniques: Vec<Vec<Column>>)
    ensures
        views(uniques@) == warehouses_uniques(),
{
    let mut id: Vec<Column> = Vec::new();
    id.push(Column::Id);
    let mut slug: Vec<Column> = Vec::new();
    slug.push(Column::Slug);
    let mut uniques: Vec<Vec<Column>> = Vec::new();
    uniques.push(id);
    uniques.push(slug);
    proof {
        assert(views(uniques@)[0] =~= warehouses_uniques()[0]);
        assert(views(uniques@)[1] =~= warehouses_uniques()[1]);
        assert(views(uniques@) =~= warehouses_uniques());
    }
    uniques
}

/// The model of a store.
pub struct ConnectionView {
    pub roles: TableView,
    pub stocks: TableView,
    pub warehouses: TableView,
    pub warehouse_slug_seq: CounterView,
}

impl View for Connection {
    type V = ConnectionView;

    open spec fn view(&self) -> ConnectionView {
        ConnectionView {
            roles: self.roles@,
            stocks: self.stocks@,
            warehouses: self.warehouses@,
            warehouse_slug_seq: self.warehouse_slug_seq@,
        }
    }
}

/// The store that holds these rows, and whose counter has handed out `last`
/// as its last value.
pub open spec fn store_of(
    roles: Seq<RecordView>,
    stocks: Seq<RecordView>,
    warehouses: Seq<RecordView>,
    last: int,
) -> ConnectionView {
    ConnectionView {
        roles: TableView { name: crate::repos::roles::TABLE@, uniques: roles_uniques(), rows: roles },
        stocks: TableView {
            name: crate::repos::stocks::TABLE@,
            uniques: stocks_uniques(),
            rows: stocks,
        },
        warehouses: TableView {
            name: crate::repos::warehouses::TABLE@,
            uniques: warehouses_uniques(),
            rows: warehouses,
        },
        warehouse_slug_seq: CounterView { name: crate::repos::warehouses::SLUG_SEQUENCE@, last },
    }
}

impl Connection {
    /// The store with nothing in it: three empty relations, and a counter
    /// that has handed out nothing.
    pub fn new() -> (conn: Connection)
        ensures
            conn@ == store_of(Seq::empty(), Seq::empty(), Seq::empty(), 0),
    {
        Connection {
            roles: Table::new(crate::repos::roles::TABLE, roles_constraints()),
            stocks: Table::new(crate::repos::stocks::TABLE, stocks_constraints()),
            warehouses: Table::new(crate::repos::warehouses::TABLE, warehouses_constraints()),
            warehouse_slug_seq: Counter::new(crate::repos::warehouses::SLUG_SEQUENCE),
        }
    }

    /// The store that holds these rows, and whose counter has handed out
    /// `last` as its last value. A constraint violation where the rows of a
    /// relation break one of its constraints.
    pub fn load(roles: Vec<Record>, stocks: Vec<Record>, warehouses: Vec<Record>, last: i64) -> (r:
        Result<Connection, RepoError>)
        ensures
            r is Ok <==> consistent(views(roles@), roles_uniques()) && consistent(
                views(stocks@),
                stocks_uniques(),
            ) && consistent(views(warehouses@), warehouses_uniques()),
            r matches Ok(conn) ==> conn@ == store_of(
                views(roles@),
                views(stocks@),
                views(warehouses@),
                last as int,
            ),
            r matches Err(e) ==> e == RepoError::ConstraintViolation,
    {
        let roles = match Table::load(crate::repos::roles::TABLE, roles_constraints(), roles) {
            Ok(t) => t,
            Err(e) => {
                return Err(e);
            },
        };
        let stocks = match Table::load(crate::repos::stocks::TABLE, stocks_constraints(), stocks) {
            Ok(t) => t,
            Err(e) => {
                return Err(e);
            },
        };
        let warehouses = match Table::load(
            crate::repos::warehouses::TABLE,
            warehouses_constraints(),
            warehouses,
        ) {
            Ok(t) => t,
            Err(e) => {
                return Err(e);
            },
        };
        Ok(
            Connection {
                roles,
                stocks,
                warehouses,
                warehouse_slug_seq: Counter::resume(crate::repos::warehouses::SLUG_SEQUENCE, last),
            },
        )
    }
}

} // verus!
