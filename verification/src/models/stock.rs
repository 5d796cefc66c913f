//! Stock: how many items of a product a warehouse holds.

use vstd::prelude::*;
use crate::models::ValueContainer;
use crate::repo::Entity;
use crate::schema::Column;
use crate::statement::{
    Filter, FilteredOperationBuilder, InsertBuilder, Inserter, OnConflict, OnConflictView,
    UpdateBuilder, Updater,
};
use crate::types::{ProductId, Quantity, StockId, WarehouseId};
use crate::value::{record_of, Cells, Record, RecordView, Value, ValueView};

verus! {

/// A stock record: the quantity of one product in one warehouse.
#[derive(Clone, Copy, Debug, PartialEq, Eq, Structural)]
pub struct Stock {
    pub id: StockId,
    pub warehouse_id: WarehouseId,
    pub product_id: ProductId,
    pub quantity: Quantity,
}

/// What is known of a product in a warehouse besides their identities.
#[derive(Clone, Copy, Debug, PartialEq, Eq, Structural)]
pub struct StockMeta {
    pub quantity: Quantity,
}

impl Stock {
    /// The product of the record, and what is known of it.
    pub fn into_meta(self) -> (pair: (ProductId, StockMeta))
        ensures
            pair == (self.product_id, StockMeta { quantity: self.quantity }),
    {
        (self.product_id, StockMeta { quantity: self.quantity })
    }

    /// The record taken apart.
    pub fn into_parts(self) -> (parts: (StockId, WarehouseId, ProductId, StockMeta))
        ensures
            parts == (
                self.id,
                self.warehouse_id,
                self.product_id,
                StockMeta { quantity: self.quantity },
            ),
    {
        (self.id, self.warehouse_id, self.product_id, StockMeta { quantity: self.quantity })
    }
}

/// A stock record as the stocks relation holds it.
#[derive(Clone, Copy, Debug, PartialEq, Eq, Structural)]
pub struct DbStock(pub Stock);

impl View for DbStock {
    type V = Stock;

    open spec fn view(&self) -> Stock {
        self.0
    }
}

/// What a stock record holds in a column.
pub open spec fn stock_cell(stock: Stock, column: Column) -> Option<ValueView> {
    match column {
        Column::Id => Some(ValueView::Uuid(stock.id.0)),
        Column::WarehouseId => Some(ValueView::Uuid(stock.warehouse_id.0)),
        Column::ProductId => Some(ValueView::Int(stock.product_id.0)),
        Column::Quantity => Some(ValueView::Int(stock.quantity.0)),
        _ => None,
    }
}

/// The row of a stock record.
pub open spec fn stock_row(stock: Stock) -> RecordView {
    Map::new(|c: Column| stock_cell(stock, c) is Some, |c: Column| stock_cell(stock, c)->0)
}

/// The identifier in a column, if the column holds one.
pub open spec fn uuid_in(row: RecordView, column: Column) -> Option<u128> {
    if row.contains_key(column) && row[column] is Uuid {
        Some(row[column]->Uuid_0)
    } else {
        None
    }
}

/// The integer in a column, if the column holds one.
pub open spec fn int_in(row: RecordView, column: Column) -> Option<i32> {
    if row.contains_key(column) && row[column] is Int {
        Some(row[column]->Int_0)
    } else {
        None
    }
}

/// Reads the identifier in a column.
pub fn read_uuid(row: &Record, column: Column) -> (id: Option<u128>)
    ensures
        id == uuid_in(row@, column),
{
    match row.get(column) {
        Some(Value::Uuid(id)) => Some(*id),
        _ => None,
    }
}

/// Reads the integer in a column.
pub fn read_int(row: &Record, column: Column) -> (n: Option<i32>)
    ensures
        n == int_in(row@, column),
{
    match row.get(column) {
        Some(Value::Int(n)) => Some(*n),
        _ => None,
    }
}

impl Entity for DbStock {
    /// A row holds a stock record where it holds identifiers in `id` and
    /// `warehouse_id` and integers in `product_id` and `quantity`.
    open spec fn decode(row: RecordView) -> Option<Stock> {
        match (
            uuid_in(row, Column::Id),
            uuid_in(row, Column::WarehouseId),
            int_in(row, Column::ProductId),
            int_in(row, Column::Quantity),
        ) {
            (Some(id), Some(warehouse_id), Some(product_id), Some(quantity)) => Some(
                Stock {
                    id: StockId(id),
                    warehouse_id: WarehouseId(warehouse_id),
                    product_id: ProductId(product_id),
                    quantity: Quantity(quantity),
                },
            ),
            _ => None,
        }
    }

    fn from_row(row: &Record) -> (e: Option<DbStock>) {
        let id = match read_uuid(row, Column::Id) {
            Some(id) => id,
            None => return None,
        };
        let warehouse_id = match read_uuid(row, Column::WarehouseId) {
            Some(id) => id,
            None => return None,
        };
        let product_id = match read_int(row, Column::ProductId) {
            Some(n) => n,
            None => return None,
        };
        let quantity = match read_int(row, Column::Quantity) {
            Some(n) => n,
            None => return None,
        };
        Some(
            DbStock(
                Stock {
                    id: StockId(id),
                    warehouse_id: WarehouseId(warehouse_id),
                    product_id: ProductId(product_id),
                    quantity: Quantity(quantity),
                },
            ),
        )
    }
}

/// The conflict clause of the stocks relation: one row per warehouse and
/// product; a second insert for the pair overwrites the quantity.
pub open spec fn stock_conflict() -> OnConflictView {
    OnConflictView {
        target: seq![Column::WarehouseId, Column::ProductId],
        overwrite: seq![Column::Quantity],
    }
}

impl Inserter for DbStock {
    open spec fn arguments(&self) -> RecordView {
        stock_row(self.0)
    }

    open spec fn on_conflict(&self) -> Option<OnConflictView> {
        Some(stock_conflict())
    }

    fn into_insert_builder(self, table: &'static str) -> (b: InsertBuilder) {
        let mut target: Vec<Column> = Vec::new();
        target.push(Column::WarehouseId);
        target.push(Column::ProductId);
        let mut overwrite: Vec<Column> = Vec::new();
        overwrite.push(Column::Quantity);
        let b = InsertBuilder::new(table).with_arg(Column::Id, Value::Uuid(self.0.id.0)).with_arg(
            Column::ProductId,
            Value::Int(self.0.product_id.0),
        ).with_arg(Column::Quantity, Value::Int(self.0.quantity.0)).with_arg(
            Column::WarehouseId,
            Value::Uuid(self.0.warehouse_id.0),
        ).with_extra(OnConflict { target, overwrite });
        proof {
            assert(b@.values =~= stock_row(self.0));
            assert(b@.extra->0.target =~= stock_conflict().target);
            assert(b@.extra->0.overwrite =~= stock_conflict().overwrite);
        }
        b
    }
}

/// Selects stock records: each field that is there must be held by the
/// record; no field selects every record.
#[derive(Clone, Copy, Debug)]
pub struct StockFilter {
    pub id: Option<ValueContainer<StockId>>,
    pub warehouse_id: Option<ValueContainer<WarehouseId>>,
    pub product_id: Option<ValueContainer<ProductId>>,
    pub quantity: Option<ValueContainer<Quantity>>,
}

impl Default for StockFilter {
    /// The filter that selects every stock record.
    fn default() -> (filter: StockFilter)
        ensures
            filter == (StockFilter { id: None, warehouse_id: None, product_id: None, quantity: None }),
    {
        StockFilter { id: None, warehouse_id: None, product_id: None, quantity: None }
    }
}

impl Cells for StockFilter {
    /// The value that a stock record must hold in a column to be selected,
    /// if the filter says one.
    open spec fn cell_spec(&self, column: Column) -> Option<ValueView> {
        match column {
            Column::Id => match self.id {
                Some(c) => Some(ValueView::Uuid(c.value.0)),
                None => None,
            },
            Column::WarehouseId => match self.warehouse_id {
                Some(c) => Some(ValueView::Uuid(c.value.0)),
                None => None,
            },
            Column::ProductId => match self.product_id {
                Some(c) => Some(ValueView::Int(c.value.0)),
                None => None,
            },
            Column::Quantity => match self.quantity {
                Some(c) => Some(ValueView::Int(c.value.0)),
                None => None,
            },
            _ => None,
        }
    }

    fn cell(&self, column: Column) -> (v: Option<Value>) {
        match column {
            Column::Id => match self.id {
                Some(c) => Some(Value::Uuid(c.value.0)),
                None => None,
            },
            Column::WarehouseId => match self.warehouse_id {
                Some(c) => Some(Value::Uuid(c.value.0)),
                None => None,
            },
            Column::ProductId => match self.product_id {
                Some(c) => Some(Value::Int(c.value.0)),
                None => None,
            },
            Column::Quantity => match self.quantity {
                Some(c) => Some(Value::Int(c.value.0)),
                None => None,
            },
            _ => None,
        }
    }
}

impl Filter for StockFilter {
    open spec fn predicates(&self) -> RecordView {
        record_of(self)
    }

    fn into_filtered_operation_builder(self, table: &'static str) -> (b: FilteredOperationBuilder) {
        let mut b = FilteredOperationBuilder::new(table);
        if let Some(id) = self.id {
            b = b.with_filter(Column::Id, Value::Uuid(id.value.0));
        }
        if let Some(warehouse_id) = self.warehouse_id {
            b = b.with_filter(Column::WarehouseId, Value::Uuid(warehouse_id.value.0));
        }
        if let Some(product_id) = self.product_id {
            b = b.with_filter(Column::ProductId, Value::Int(product_id.value.0));
        }
        if let Some(quantity) = self.quantity {
            b = b.with_filter(Column::Quantity, Value::Int(quantity.value.0));
        }
        assert(b@.filters =~= self.predicates());
        b
    }
}

/// The fields of a stock record that a patch can set.
#[derive(Clone, Copy, Debug)]
pub struct StockUpdateData {
    pub quantity: Option<ValueContainer<Quantity>>,
}

impl Default for StockUpdateData {
    /// The patch that sets nothing.
    fn default() -> (data: StockUpdateData)
        ensures
            data == (StockUpdateData { quantity: None }),
    {
        StockUpdateData { quantity: None }
    }
}

/// A patch for the stock records that `mask` selects.
#[derive(Clone, Copy, Debug)]
pub struct StockUpdater {
    pub mask: StockFilter,
    pub data: StockUpdateData,
}

impl Cells for StockUpdateData {
    /// The value that the patch gives a column, if it sets the column.
    open spec fn cell_spec(&self, column: Column) -> Option<ValueView> {
        match column {
            Column::Quantity => match self.quantity {
                Some(c) => Some(ValueView::Int(c.value.0)),
                None => None,
            },
            _ => None,
        }
    }

    fn cell(&self, column: Column) -> (v: Option<Value>) {
        match column {
            Column::Quantity => match self.quantity {
                Some(c) => Some(Value::Int(c.value.0)),
                None => None,
            },
            _ => None,
        }
    }
}

impl Updater for StockUpdater {
    open spec fn target(&self) -> RecordView {
        self.mask.predicates()
    }

    open spec fn patch(&self) -> RecordView {
        record_of(&self.data)
    }

    fn into_update_builder(self, table: &'static str) -> (b: UpdateBuilder) {
        let mut b = UpdateBuilder::from(self.mask.into_filtered_operation_builder(table));
        if let Some(quantity) = self.data.quantity {
            b = b.with_value(Column::Quantity, Value::Int(quantity.value.0));
        }
        assert(b@.values =~= self.patch());
        b
    }
}

/// A stock record reads back from its own row as itself.
pub proof fn lemma_stock_row_decodes(stock: Stock)
    ensures
        DbStock::decode(stock_row(stock)) == Some(stock),
{
}

} // verus!
