//! The warehouse service: what a caller can ask about warehouses and their
//! stock.

use vstd::prelude::*;
use std::collections::HashMap;
use crate::acl::Action;
use crate::connection::Connection;
use crate::errors::RepoError;
use crate::models::role::UserLogin;
use crate::models::stock::{DbStock, Stock, StockFilter, StockMeta};
use crate::models::warehouse::{
    code_view, text_view, warehouse_row, DbWarehouse, Warehouse, WarehouseFilter, WarehouseInput,
    WarehouseUpdateData, WarehouseUpdater, WarehouseView,
};
use crate::models::ValueContainer;
use crate::repo::{
    delete_spec, entities, insert_of, insert_spec, select_spec, update_spec, DbRepo,
};
use crate::repos::stocks::{by_warehouse_id, StocksAcl, StocksRepoImpl};
use crate::repos::warehouses::{WarehouseAcl, WarehouseRepoImpl, WarehouseSlugSequenceImpl};
use crate::schema::Column;
use crate::sequence::{next_val_outcome, slug_of, slug_text, Sequence};
use crate::services::{found, last_found, ServiceResult};
use crate::statement::{Filter, InsertView, UpdateView};
use crate::storage::{with_rows, Table};
use crate::types::{
    is_random_uuid, ProductId, Quantity, StockId, StoreId, WarehouseId, WarehouseIdentifier,
};
use crate::value::{record_of, views, RecordView, ValueView};

verus! {

/// Makes the repositories that a service uses, each guarded for the caller.
#[derive(Debug)]
pub struct RepoFactory {
    pub login: UserLogin,
}

impl RepoFactory {
    /// The repository of warehouses as the caller may use it.
    pub fn warehouse_repo(&self) -> (repo: WarehouseRepoImpl<WarehouseAcl<'_>>)
        ensures
            repo.table == crate::repos::warehouses::TABLE,
            repo.afterop_acl_engine == warehouse_acl(&self.login),
    {
        crate::repos::warehouses::make_repo(&self.login)
    }

    /// The allocator of warehouse slugs.
    pub fn warehouse_slug_sequence(&self) -> (sequence: WarehouseSlugSequenceImpl)
        ensures
            sequence.name == crate::repos::warehouses::SLUG_SEQUENCE,
    {
        crate::repos::warehouses::make_slug_sequence()
    }

    /// The repository of stock records as the caller may use it, with the
    /// relation of warehouses in which owners are looked up.
    pub fn stocks_repo<'a>(&'a self, warehouse_source: &'a Table) -> (repo: StocksRepoImpl<
        StocksAcl<'a>,
    >)
        ensures
            repo.table == crate::repos::stocks::TABLE,
            repo.afterop_acl_engine == stocks_acl(&self.login, warehouse_source),
    {
        crate::repos::stocks::make_repo(&self.login, warehouse_source)
    }
}

/// The warehouse service for one caller.
#[derive(Debug)]
pub struct WarehouseServiceImpl {
    pub repo_factory: RepoFactory,
}

/// The predicates that select the warehouse that an identifier names.
pub open spec fn by_identifier(id: WarehouseIdentifier) -> RecordView {
    match id {
        WarehouseIdentifier::Id(id) => Map::empty().insert(Column::Id, ValueView::Uuid(id.0)),
        WarehouseIdentifier::Slug(slug) => Map::empty().insert(
            Column::Slug,
            ValueView::Text(slug.0@),
        ),
    }
}

/// Whether nothing but the relation of warehouses differs between two
/// states of the store.
pub open spec fn only_warehouses_differ(pre: Connection, post: Connection) -> bool {
    &&& post.roles@ == pre.roles@
    &&& post.stocks@ == pre.stocks@
    &&& post.warehouse_slug_seq@ == pre.warehouse_slug_seq@
}

/// Whether nothing but the relation of stock records differs between two
/// states of the store.
pub open spec fn only_stocks_differ(pre: Connection, post: Connection) -> bool {
    &&& post.roles@ == pre.roles@
    &&& post.warehouses@ == pre.warehouses@
    &&& post.warehouse_slug_seq@ == pre.warehouse_slug_seq@
}

/// The filter that selects the warehouse that an identifier names.
pub fn filter_of(id: WarehouseIdentifier) -> (filter: WarehouseFilter)
    ensures
        filter.predicates() == by_identifier(id),
{
    let filter = WarehouseFilter::from(id);
    assert(filter.predicates() =~= by_identifier(id));
    filter
}

/// The warehouses themselves.
pub fn unwrap_warehouses(found: Vec<DbWarehouse>) -> (warehouses: Vec<Warehouse>)
    ensures
        views(warehouses@) == views(found@),
{
    let mut warehouses: Vec<Warehouse> = Vec::new();
    let mut i: usize = 0;
    while i < found.len()
        invariant
            i <= found.len(),
            warehouses@.len() == i,
            forall|k: int| 0 <= k < i ==> (#[trigger] warehouses@[k])@ == found@[k]@,
        decreases found.len() - i,
    {
        warehouses.push(found[i].0.clone());
        i = i + 1;
    }
    assert(views(warehouses@) =~= views(found@));
    warehouses
}

/// The last of the warehouses, if there is one.
pub fn last_warehouse(found: Vec<DbWarehouse>) -> (last: Option<Warehouse>)
    ensures
        crate::services::found(Ok::<Option<Warehouse>, RepoError>(last)) == last_found(
            Ok::<Seq<WarehouseView>, RepoError>(views(found@)),
        ),
{
    let mut found = found;
    match found.pop() {
        Some(w) => Some(w.0),
        None => None,
    }
}

/// What is known of each product, by the number of the product.
pub type StockMap = HashMap<i32, StockMeta>;

/// What is known of each product in a run of stock records: for each
/// product, what its last record says.
pub open spec fn stock_map(stocks: Seq<Stock>) -> Map<i32, StockMeta>
    decreases stocks.len(),
{
    if stocks.len() == 0 {
        Map::empty()
    } else {
        stock_map(stocks.drop_last()).insert(
            stocks.last().product_id.0,
            StockMeta { quantity: stocks.last().quantity },
        )
    }
}

/// The stock records themselves.
pub fn unwrap_stocks(found: Vec<DbStock>) -> (stocks: Vec<Stock>)
    ensures
        stocks@ == views(found@),
{
    let mut stocks: Vec<Stock> = Vec::new();
    let mut i: usize = 0;
    while i < found.len()
        invariant
            i <= found.len(),
            stocks@.len() == i,
            forall|k: int| 0 <= k < i ==> #[trigger] stocks@[k] == found@[k]@,
        decreases found.len() - i,
    {
        stocks.push(found[i].0);
        i = i + 1;
    }
    assert(stocks@ =~= views(found@));
    stocks
}

/// The last of the stock records, if there is one.
pub fn last_stock(found: Vec<DbStock>) -> (last: Option<Stock>)
    ensures
        Ok::<Option<Stock>, RepoError>(last) == last_found(
            Ok::<Seq<Stock>, RepoError>(views(found@)),
        ),
{
    let mut found = found;
    match found.pop() {
        Some(s) => Some(s.0),
        None => None,
    }
}

/// What is known of each product in a run of stock records.
pub fn collect_stock_map(stocks: &Vec<DbStock>) -> (map: StockMap)
    ensures
        map@ == stock_map(views(stocks@)),
{
    broadcast use vstd::std_specs::hash::group_hash_axioms;

    let ghost model = views(stocks@);
    let mut map: StockMap = HashMap::new();
    let mut i: usize = 0;
    while i < stocks.len()
        invariant
            i <= stocks.len(),
            model == views(stocks@),
            map@ == stock_map(model.take(i as int)),
        decreases stocks.len() - i,
    {
        proof {
            crate::storage::lemma_take_step(model, i as int);
        }
        let (product_id, meta) = stocks[i].0.into_meta();
        map.insert(product_id.0, meta);
        i = i + 1;
    }
    assert(model.take(stocks.len() as int) =~= model);
    map
}

/// The policy that guards warehouses for a caller: a warehouse is seen and
/// changed only by those who may manage it.
pub open spec fn warehouse_acl(login: &UserLogin) -> WarehouseAcl<'_> {
    WarehouseAcl { login, open_to_readers: false }
}

/// The policy that guards stock records for a caller, with the relation of
/// warehouses in which it looks up owners: everyone reads, and those who may
/// manage the owner change.
pub open spec fn stocks_acl<'a>(login: &'a UserLogin, warehouses: &'a Table) -> StocksAcl<'a> {
    StocksAcl { login, warehouse_source: warehouses, open_to_readers: true }
}

/// The warehouse that the input describes, under a slug.
pub open spec fn described(input: WarehouseInput, slug: Seq<char>) -> WarehouseView {
    WarehouseView {
        id: input.id,
        store_id: input.store_id,
        slug,
        name: text_view(input.name),
        location: input.location,
        administrative_area_level_1: text_view(
            input.administrative_area_level_1,
        ),
        administrative_area_level_2: text_view(
            input.administrative_area_level_2,
        ),
        country: text_view(input.country),
        country_code: code_view(input.country_code),
        locality: text_view(input.locality),
        political: text_view(input.political),
        postal_code: text_view(input.postal_code),
        route: text_view(input.route),
        street_number: text_view(input.street_number),
        address: text_view(input.address),
        place_id: text_view(input.place_id),
    }
}

/// What setting the quantity of a product in a warehouse does: the stock
/// records afterwards and the record returned.
///
/// `NotFound` where the caller can see no warehouse of this identifier.
/// Otherwise the record is inserted; where the warehouse has a record for
/// the product already, that record takes the new quantity and keeps its
/// identifier. `Forbidden` where the caller may not manage the store of
/// the warehouse.
pub open spec fn set_product_spec(login: &UserLogin, pre: Connection, stock: Stock) -> Result<
    (Seq<RecordView>, Stock),
    RepoError,
> {
    match select_spec::<DbWarehouse, WarehouseAcl>(
        crate::repos::warehouses::TABLE@,
        warehouse_acl(login),
        pre.warehouses@,
        by_warehouse_id(stock.warehouse_id),
    ) {
        Err(e) => Err(e),
        Ok(warehouses) => if warehouses.len() == 0 {
            Err(RepoError::NotFound)
        } else {
            insert_spec::<DbStock, StocksAcl>(
                stocks_acl(login, &pre.warehouses),
                pre.stocks@,
                insert_of(crate::repos::stocks::TABLE@, DbStock(stock)),
            )
        },
    }
}

/// Whether `post` and `r` are what setting the quantity leaves of `pre`.
pub open spec fn set_product_post(
    login: &UserLogin,
    pre: Connection,
    post: Connection,
    stock: Stock,
    r: ServiceResult<Stock>,
) -> bool {
    &&& only_stocks_differ(pre, post)
    &&& match set_product_spec(login, pre, stock) {
        Ok((rows, stored)) => r == Ok::<Stock, RepoError>(stored) && post.stocks@ == with_rows(
            pre.stocks@,
            rows,
        ),
        Err(e) => r == Err::<Stock, RepoError>(e) && post.stocks@ == pre.stocks@,
    }
}

/// The warehouse service: what a caller can ask about warehouses and their
/// stock.
pub trait WarehouseService {
    /// The caller whom the service serves.
    spec fn caller(&self) -> &UserLogin;

    /// Allots the next slug and inserts the warehouse that the input
    /// describes under it. The slug is spent even where the insert fails.
    fn create_warehouse(&self, conn: &mut Connection, new_warehouse: WarehouseInput) -> (r:
        ServiceResult<Warehouse>)
        ensures
            final(conn).roles@ == old(conn).roles@,
            final(conn).stocks@ == old(conn).stocks@,
            match next_val_outcome(
                old(conn).warehouse_slug_seq@,
                crate::repos::warehouses::SLUG_SEQUENCE@,
            ) {
                Err(e) => r is Err && r->Err_0 == e && final(conn).warehouses@ == old(
                    conn,
                ).warehouses@ && final(conn).warehouse_slug_seq@ == old(conn).warehouse_slug_seq@,
                Ok((counter, value)) => final(conn).warehouse_slug_seq@ == counter
                    && match insert_spec::<DbWarehouse, WarehouseAcl>(
                    warehouse_acl(self.caller()),
                    old(conn).warehouses@,
                    InsertView {
                        table: crate::repos::warehouses::TABLE@,
                        values: warehouse_row(
                            described(new_warehouse, slug_text(value)),
                        ),
                        extra: None,
                    },
                ) {
                    Ok((rows, w)) => r is Ok && r->Ok_0@ == w && final(conn).warehouses@
                        == with_rows(old(conn).warehouses@, rows),
                    Err(e) => r is Err && r->Err_0 == e && final(conn).warehouses@ == old(
                        conn,
                    ).warehouses@,
                },
            },
    ;

    /// The warehouse that the identifier names, if the caller may see it;
    /// the last of them should there be several.
    fn get_warehouse(&self, conn: &Connection, warehouse_id: WarehouseIdentifier) -> (r:
        ServiceResult<Option<Warehouse>>)
        ensures
            found(r) == last_found(
                select_spec::<DbWarehouse, WarehouseAcl>(
                    crate::repos::warehouses::TABLE@,
                    warehouse_acl(self.caller()),
                    conn.warehouses@,
                    by_identifier(warehouse_id),
                ),
            ),
    ;

    /// Patches the warehouse that the identifier names and returns it as it
    /// is afterwards; nothing where no warehouse has the identifier.
    /// `Forbidden`, with nothing changed, where the caller may not change the
    /// warehouse.
    fn update_warehouse(
        &self,
        conn: &mut Connection,
        warehouse_id: WarehouseIdentifier,
        update_data: WarehouseUpdateData,
    ) -> (r: ServiceResult<Option<Warehouse>>)
        ensures
            only_warehouses_differ(*old(conn), *final(conn)),
            match update_spec::<DbWarehouse, WarehouseAcl>(
                warehouse_acl(self.caller()),
                old(conn).warehouses@,
                UpdateView {
                    table: crate::repos::warehouses::TABLE@,
                    filters: by_identifier(warehouse_id),
                    values: record_of(&update_data),
                },
            ) {
                Ok((rows, patched)) => found(r) == last_found(
                    Ok::<Seq<WarehouseView>, RepoError>(patched),
                ) && final(conn).warehouses@ == with_rows(old(conn).warehouses@, rows),
                Err(e) => r is Err && r->Err_0 == e && final(conn).warehouses@ == old(
                    conn,
                ).warehouses@,
            },
    ;

    /// Removes the warehouse that the identifier names and returns it;
    /// nothing where no warehouse has the identifier. `Forbidden`, with
    /// nothing changed, where the caller may not remove the warehouse.
    fn delete_warehouse(&self, conn: &mut Connection, warehouse_id: WarehouseIdentifier) -> (r:
        ServiceResult<Option<Warehouse>>)
        ensures
            only_warehouses_differ(*old(conn), *final(conn)),
            match delete_spec::<DbWarehouse, WarehouseAcl>(
                crate::repos::warehouses::TABLE@,
                warehouse_acl(self.caller()),
                old(conn).warehouses@,
                by_identifier(warehouse_id),
            ) {
                Ok((rows, removed)) => found(r) == last_found(
                    Ok::<Seq<WarehouseView>, RepoError>(removed),
                ) && final(conn).warehouses@ == with_rows(old(conn).warehouses@, rows),
                Err(e) => r is Err && r->Err_0 == e && final(conn).warehouses@ == old(
                    conn,
                ).warehouses@,
            },
    ;

    /// Removes every warehouse and returns them all. `Forbidden`, with
    /// nothing changed, where the caller may not remove one of them.
    fn delete_all_warehouses(&self, conn: &mut Connection) -> (r: ServiceResult<Vec<Warehouse>>)
        ensures
            only_warehouses_differ(*old(conn), *final(conn)),
            match delete_spec::<DbWarehouse, WarehouseAcl>(
                crate::repos::warehouses::TABLE@,
                warehouse_acl(self.caller()),
                old(conn).warehouses@,
                Map::empty(),
            ) {
                Ok((rows, removed)) => entities(r) == Ok::<Seq<WarehouseView>, RepoError>(removed)
                    && final(conn).warehouses@ == with_rows(old(conn).warehouses@, rows),
                Err(e) => r is Err && r->Err_0 == e && final(conn).warehouses@ == old(
                    conn,
                ).warehouses@,
            },
    ;

    /// The warehouses of a store that the caller may see.
    fn get_warehouses_for_store(&self, conn: &Connection, store_id: StoreId) -> (r:
        ServiceResult<Vec<Warehouse>>)
        ensures
            entities(r) == select_spec::<DbWarehouse, WarehouseAcl>(
                crate::repos::warehouses::TABLE@,
                warehouse_acl(self.caller()),
                conn.warehouses@,
                Map::empty().insert(Column::StoreId, ValueView::Int(store_id.0)),
            ),
    ;

    /// Sets the quantity of a product in a warehouse. Should the record be
    /// new, it gets a fresh random identifier.
    fn set_product_in_warehouse(
        &self,
        conn: &mut Connection,
        warehouse_id: WarehouseId,
        product_id: ProductId,
        quantity: Quantity,
    ) -> (r: ServiceResult<Stock>)
        ensures
            exists|id: StockId|
                is_random_uuid(id.0) && #[trigger] set_product_post(
                    self.caller(),
                    *old(conn),
                    *final(conn),
                    Stock { id, warehouse_id, product_id, quantity },
                    r,
                ),
    ;

    /// The stock record of a product in a warehouse, if there is one.
    fn get_product_in_warehouse(
        &self,
        conn: &Connection,
        warehouse_id: WarehouseId,
        product_id: ProductId,
    ) -> (r: ServiceResult<Option<Stock>>)
        ensures
            r == last_found(
                select_spec::<DbStock, StocksAcl>(
                    crate::repos::stocks::TABLE@,
                    stocks_acl(self.caller(), &conn.warehouses),
                    conn.stocks@,
                    Map::empty().insert(Column::WarehouseId, ValueView::Uuid(warehouse_id.0)).insert(
                        Column::ProductId,
                        ValueView::Int(product_id.0),
                    ),
                ),
            ),
    ;

    /// What is known of each product in a warehouse.
    fn list_products_in_warehouse(&self, conn: &Connection, warehouse_id: WarehouseId) -> (r:
        ServiceResult<StockMap>)
        ensures
            match select_spec::<DbStock, StocksAcl>(
                crate::repos::stocks::TABLE@,
                stocks_acl(self.caller(), &conn.warehouses),
                conn.stocks@,
                Map::empty().insert(Column::WarehouseId, ValueView::Uuid(warehouse_id.0)),
            ) {
                Ok(stocks) => r is Ok && r->Ok_0@ == stock_map(stocks),
                Err(e) => r is Err && r->Err_0 == e,
            },
    ;

    /// The stock record of an identifier, if there is one.
    fn get_warehouse_product(&self, conn: &Connection, warehouse_product_id: StockId) -> (r:
        ServiceResult<Option<Stock>>)
        ensures
            r == last_found(
                select_spec::<DbStock, StocksAcl>(
                    crate::repos::stocks::TABLE@,
                    stocks_acl(self.caller(), &conn.warehouses),
                    conn.stocks@,
                    Map::empty().insert(Column::Id, ValueView::Uuid(warehouse_product_id.0)),
                ),
            ),
    ;

    /// The stock records of a product, in all warehouses.
    fn find_by_product_id(&self, conn: &Connection, product_id: ProductId) -> (r:
        ServiceResult<Vec<Stock>>)
        ensures
            match select_spec::<DbStock, StocksAcl>(
                crate::repos::stocks::TABLE@,
                stocks_acl(self.caller(), &conn.warehouses),
                conn.stocks@,
                Map::empty().insert(Column::ProductId, ValueView::Int(product_id.0)),
            ) {
                Ok(stocks) => r is Ok && r->Ok_0@ == stocks,
                Err(e) => r is Err && r->Err_0 == e,
            },
    ;
}

impl WarehouseServiceImpl {
    /// The service for the caller `login`.
    pub fn new(login: &UserLogin) -> (service: WarehouseServiceImpl)
        ensures
            service.repo_factory.login.grants() == login.grants(),
            service.repo_factory.login.caller() == login.caller(),
    {
        WarehouseServiceImpl { repo_factory: RepoFactory { login: login.clone() } }
    }

    /// Inserts the warehouse that the input describes under the slug made of
    /// `slug_value`, and returns it. `Forbidden`, with nothing changed,
    /// where the caller may not manage the store of the warehouse; a
    /// constraint violation where the identifier or the slug is taken.
    pub fn create_warehouse_with_slug(
        &self,
        conn: &mut Connection,
        new_warehouse: WarehouseInput,
        slug_value: i64,
    ) -> (r: ServiceResult<Warehouse>)
        ensures
            only_warehouses_differ(*old(conn), *final(conn)),
            match insert_spec::<DbWarehouse, WarehouseAcl>(
                warehouse_acl(&self.repo_factory.login),
                old(conn).warehouses@,
                InsertView {
                    table: crate::repos::warehouses::TABLE@,
                    values: warehouse_row(
                        described(new_warehouse, slug_text(slug_value)),
                    ),
                    extra: None,
                },
            ) {
                Ok((rows, w)) => r is Ok && r->Ok_0@ == w && final(conn).warehouses@ == with_rows(
                    old(conn).warehouses@,
                    rows,
                ),
                Err(e) => r is Err && r->Err_0 == e && final(conn).warehouses@ == old(
                    conn,
                ).warehouses@,
            },
    {
        let repo = self.repo_factory.warehouse_repo();
        let warehouse = new_warehouse.with_slug(slug_of(slug_value));
        match repo.insert_exactly_one(&mut conn.warehouses, DbWarehouse(warehouse)) {
            Err(e) => Err(e),
            Ok(w) => Ok(w.0),
        }
    }

    /// Sets the quantity of a product in a warehouse, with `id` for the
    /// record should it be new: see [`Self::set_product_spec`].
    pub fn set_product_in_warehouse_as(
        &self,
        conn: &mut Connection,
        id: StockId,
        warehouse_id: WarehouseId,
        product_id: ProductId,
        quantity: Quantity,
    ) -> (r: ServiceResult<Stock>)
        ensures
            set_product_post(
                &self.repo_factory.login,
                *old(conn),
                *final(conn),
                Stock { id, warehouse_id, product_id, quantity },
                r,
            ),
    {
        let repo = self.repo_factory.warehouse_repo();
        let mut filter = WarehouseFilter::default();
        filter.id = Some(ValueContainer { value: warehouse_id });
        proof {
            assert(filter.predicates() =~= by_warehouse_id(warehouse_id));
        }
        match repo.select(&conn.warehouses, filter) {
            Err(e) => {
                return Err(e);
            },
            Ok(v) => {
                if v.len() == 0 {
                    return Err(RepoError::NotFound);
                }
            },
        }
        let repo = self.repo_factory.stocks_repo(&conn.warehouses);
        match repo.insert_exactly_one(
            &mut conn.stocks,
            DbStock(Stock { id, warehouse_id, product_id, quantity }),
        ) {
            Err(e) => Err(e),
            Ok(stored) => Ok(stored.0),
        }
    }
}

impl WarehouseService for WarehouseServiceImpl {
    open spec fn caller(&self) -> &UserLogin {
        &self.repo_factory.login
    }

    fn create_warehouse(&self, conn: &mut Connection, new_warehouse: WarehouseInput) -> (r:
        ServiceResult<Warehouse>)
    {
        let sequence = self.repo_factory.warehouse_slug_sequence();
        match sequence.next_val(&mut conn.warehouse_slug_seq) {
            Err(e) => Err(e),
            Ok(slug) => self.create_warehouse_with_slug(conn, new_warehouse, slug),
        }
    }

    fn get_warehouse(&self, conn: &Connection, warehouse_id: WarehouseIdentifier) -> (r:
        ServiceResult<Option<Warehouse>>)
    {
        let repo = self.repo_factory.warehouse_repo();
        match repo.select(&conn.warehouses, filter_of(warehouse_id)) {
            Err(e) => Err(e),
            Ok(found) => Ok(last_warehouse(found)),
        }
    }

    fn update_warehouse(
        &self,
        conn: &mut Connection,
        warehouse_id: WarehouseIdentifier,
        update_data: WarehouseUpdateData,
    ) -> (r: ServiceResult<Option<Warehouse>>)
    {
        let repo = self.repo_factory.warehouse_repo();
        let updater = WarehouseUpdater { mask: filter_of(warehouse_id), data: update_data };
        match repo.update(&mut conn.warehouses, updater) {
            Err(e) => Err(e),
            Ok(found) => Ok(last_warehouse(found)),
        }
    }

    fn delete_warehouse(&self, conn: &mut Connection, warehouse_id: WarehouseIdentifier) -> (r:
        ServiceResult<Option<Warehouse>>)
    {
        let repo = self.repo_factory.warehouse_repo();
        match repo.delete(&mut conn.warehouses, filter_of(warehouse_id)) {
            Err(e) => Err(e),
            Ok(found) => Ok(last_warehouse(found)),
        }
    }

    fn delete_all_warehouses(&self, conn: &mut Connection) -> (r: ServiceResult<Vec<Warehouse>>)
    {
        let repo = self.repo_factory.warehouse_repo();
        let filter = WarehouseFilter::default();
        proof {
            assert(filter.predicates() =~= Map::empty());
        }
        match repo.delete(&mut conn.warehouses, filter) {
            Err(e) => Err(e),
            Ok(found) => Ok(unwrap_warehouses(found)),
        }
    }

    fn get_warehouses_for_store(&self, conn: &Connection, store_id: StoreId) -> (r:
        ServiceResult<Vec<Warehouse>>)
    {
        let repo = self.repo_factory.warehouse_repo();
        let mut filter = WarehouseFilter::default();
        filter.store_id = Some(ValueContainer { value: store_id });
        proof {
            assert(filter.predicates() =~= Map::empty().insert(
                Column::StoreId,
                ValueView::Int(store_id.0),
            ));
        }
        match repo.select(&conn.warehouses, filter) {
            Err(e) => Err(e),
            Ok(found) => Ok(unwrap_warehouses(found)),
        }
    }

    fn set_product_in_warehouse(
        &self,
        conn: &mut Connection,
        warehouse_id: WarehouseId,
        product_id: ProductId,
        quantity: Quantity,
    ) -> (r: ServiceResult<Stock>)
    {
        let id = StockId::new();
        let r = self.set_product_in_warehouse_as(conn, id, warehouse_id, product_id, quantity);
        assert(set_product_post(
            self.caller(),
            *old(conn),
            *conn,
            Stock { id, warehouse_id, product_id, quantity },
            r,
        ));
        r
    }

    fn get_product_in_warehouse(
        &self,
        conn: &Connection,
        warehouse_id: WarehouseId,
        product_id: ProductId,
    ) -> (r: ServiceResult<Option<Stock>>)
    {
        let repo = self.repo_factory.stocks_repo(&conn.warehouses);
        let filter = StockFilter {
            id: None,
            warehouse_id: Some(ValueContainer { value: warehouse_id }),
            product_id: Some(ValueContainer { value: product_id }),
            quantity: None,
        };
        proof {
            assert(filter.predicates() =~= Map::empty().insert(
                Column::WarehouseId,
                ValueView::Uuid(warehouse_id.0),
            ).insert(Column::ProductId, ValueView::Int(product_id.0)));
        }
        match repo.select(&conn.stocks, filter) {
            Err(e) => Err(e),
            Ok(found) => Ok(last_stock(found)),
        }
    }

    fn list_products_in_warehouse(&self, conn: &Connection, warehouse_id: WarehouseId) -> (r:
        ServiceResult<StockMap>)
    {
        let repo = self.repo_factory.stocks_repo(&conn.warehouses);
        let filter = StockFilter {
            id: None,
            warehouse_id: Some(ValueContainer { value: warehouse_id }),
            product_id: None,
            quantity: None,
        };
        proof {
            assert(filter.predicates() =~= Map::empty().insert(
                Column::WarehouseId,
                ValueView::Uuid(warehouse_id.0),
            ));
        }
        match repo.select(&conn.stocks, filter) {
            Err(e) => Err(e),
            Ok(found) => Ok(collect_stock_map(&found)),
        }
    }

    fn get_warehouse_product(&self, conn: &Connection, warehouse_product_id: StockId) -> (r:
        ServiceResult<Option<Stock>>)
    {
        let repo = self.repo_factory.stocks_repo(&conn.warehouses);
        let filter = StockFilter {
            id: Some(ValueContainer { value: warehouse_product_id }),
            warehouse_id: None,
            product_id: None,
            quantity: None,
        };
        proof {
            assert(filter.predicates() =~= Map::empty().insert(
                Column::Id,
                ValueView::Uuid(warehouse_product_id.0),
            ));
        }
        match repo.select(&conn.stocks, filter) {
            Err(e) => Err(e),
            Ok(found) => Ok(last_stock(found)),
        }
    }

    fn find_by_product_id(&self, conn: &Connection, product_id: ProductId) -> (r:
        ServiceResult<Vec<Stock>>)
    {
        let repo = self.repo_factory.stocks_repo(&conn.warehouses);
        let filter = StockFilter {
            id: None,
            warehouse_id: None,
            product_id: Some(ValueContainer { value: product_id }),
            quantity: None,
        };
        proof {
            assert(filter.predicates() =~= Map::empty().insert(
                Column::ProductId,
                ValueView::Int(product_id.0),
            ));
        }
        match repo.select(&conn.stocks, filter) {
            Err(e) => Err(e),
            Ok(found) => Ok(unwrap_stocks(found)),
        }
    }
}

} // verus!
