//! Products in warehouses, in the relation that numbers its rows: the
//! entity, and the payloads that select, create and change it.

use vstd::prelude::*;
use crate::models::stock::{int_in, read_int, read_uuid, uuid_in};
use crate::models::ValueContainer;
use crate::repo::Entity;
use crate::schema::Column;
use crate::statement::{
    Filter, FilteredOperationBuilder, InsertBuilder, Inserter, OnConflictView, UpdateBuilder,
    Updater,
};
use crate::types::{ProductId, Quantity, WarehouseId, WarehouseProductId};
use crate::value::{record_of, Cells, Record, RecordView, Value, ValueView};

verus! {

/// A product in a warehouse, and how many items of it there are.
#[derive(Clone, Copy, Debug, PartialEq, Eq, Structural)]
pub struct WarehouseProduct {
    pub id: WarehouseProductId,
    pub warehouse_id: WarehouseId,
    pub product_id: ProductId,
    pub quantity: Quantity,
}

impl View for WarehouseProduct {
    type V = WarehouseProduct;

    open spec fn view(&self) -> WarehouseProduct {
        *self
    }
}

/// What is known of a product in a warehouse besides their identities.
#[derive(Clone, Copy, Debug, PartialEq, Eq, Structural)]
pub struct WarehouseProductMeta {
    pub quantity: Quantity,
}

impl WarehouseProduct {
    /// The product of the entry, and what is known of it.
    pub fn into_meta(self) -> (pair: (ProductId, WarehouseProductMeta))
        ensures
            pair == (self.product_id, WarehouseProductMeta { quantity: self.quantity }),
    {
        (self.product_id, WarehouseProductMeta { quantity: self.quantity })
    }

    /// The entry taken apart.
    pub fn into_parts(self) -> (parts: (
        WarehouseProductId,
        WarehouseId,
        ProductId,
        WarehouseProductMeta,
    ))
        ensures
            parts == (
                self.id,
                self.warehouse_id,
                self.product_id,
                WarehouseProductMeta { quantity: self.quantity },
            ),
    {
        (
            self.id,
            self.warehouse_id,
            self.product_id,
            WarehouseProductMeta { quantity: self.quantity },
        )
    }
}

impl Entity for WarehouseProduct {
    /// A row holds an entry where it holds integers in `id`, `product_id`
    /// and `quantity`, and an identifier in `warehouse_id`.
    open spec fn decode(row: RecordView) -> Option<WarehouseProduct> {
        match (
            int_in(row, Column::Id),
            uuid_in(row, Column::WarehouseId),
            int_in(row, Column::ProductId),
            int_in(row, Column::Quantity),
        ) {
            (Some(id), Some(warehouse_id), Some(product_id), Some(quantity)) => Some(
                WarehouseProduct {
                    id: WarehouseProductId(id),
                    warehouse_id: WarehouseId(warehouse_id),
                    product_id: ProductId(product_id),
                    quantity: Quantity(quantity),
                },
            ),
            _ => None,
        }
    }

    fn from_row(row: &Record) -> (e: Option<WarehouseProduct>) {
        let id = match read_int(row, Column::Id) {
            Some(v) => v,
            None => return None,
        };
        let warehouse_id = match read_uuid(row, Column::WarehouseId) {
            Some(v) => v,
            None => return None,
        };
        let product_id = match read_int(row, Column::ProductId) {
            Some(v) => v,
            None => return None,
        };
        let quantity = match read_int(row, Column::Quantity) {
            Some(v) => v,
            None => return None,
        };
        Some(
            WarehouseProduct {
                id: WarehouseProductId(id),
                warehouse_id: WarehouseId(warehouse_id),
                product_id: ProductId(product_id),
                quantity: Quantity(quantity),
            },
        )
    }
}

/// What it takes to enter a product into a warehouse. The relation numbers
/// the entry.
#[derive(Clone, Copy, Debug, PartialEq, Eq, Structural)]
pub struct WarehouseProductInserter {
    pub warehouse_id: WarehouseId,
    pub product_id: ProductId,
    pub quantity: Quantity,
}

impl Cells for WarehouseProductInserter {
    /// What the new row holds in a column: the warehouse, the product and
    /// the quantity, and no identifier.
    open spec fn cell_spec(&self, column: Column) -> Option<ValueView> {
        match column {
            Column::WarehouseId => Some(ValueView::Uuid(self.warehouse_id.0)),
            Column::ProductId => Some(ValueView::Int(self.product_id.0)),
            Column::Quantity => Some(ValueView::Int(self.quantity.0)),
            _ => None,
        }
    }

    fn cell(&self, column: Column) -> (v: Option<Value>) {
        match column {
            Column::WarehouseId => Some(Value::Uuid(self.warehouse_id.0)),
            Column::ProductId => Some(Value::Int(self.product_id.0)),
            Column::Quantity => Some(Value::Int(self.quantity.0)),
            _ => None,
        }
    }
}

impl Inserter for WarehouseProductInserter {
    open spec fn arguments(&self) -> RecordView {
        record_of(self)
    }

    open spec fn on_conflict(&self) -> Option<OnConflictView> {
        None
    }

    fn into_insert_builder(self, table: &'static str) -> (b: InsertBuilder) {
        let values = Record::collect(&self);
        InsertBuilder { table, values, extra: None }
    }
}

/// Selects entries: each field that is there must be held by the entry; no
/// field selects every entry.
#[derive(Clone, Copy, Debug)]
pub struct WarehouseProductFilter {
    pub id: Option<ValueContainer<WarehouseProductId>>,
    pub warehouse_id: Option<ValueContainer<WarehouseId>>,
    pub product_id: Option<ValueContainer<ProductId>>,
    pub quantity: Option<ValueContainer<Quantity>>,
}

impl Default for WarehouseProductFilter {
    /// The filter that selects every entry.
    fn default() -> (filter: WarehouseProductFilter)
        ensures
            filter == (WarehouseProductFilter {
                id: None,
                warehouse_id: None,
                product_id: None,
                quantity: None,
            }),
    {
        WarehouseProductFilter { id: None, warehouse_id: None, product_id: None, quantity: None }
    }
}

impl Cells for WarehouseProductFilter {
    /// The value that an entry must hold in a column to be selected, if the
    /// filter says one.
    open spec fn cell_spec(&self, column: Column) -> Option<ValueView> {
        match column {
            Column::Id => match self.id {
                Some(c) => Some(ValueView::Int(c.value.0)),
                None => None,
            },
            Column::WarehouseId => match self.warehouse_id {
                Some(c) => Some(ValueView::Uuid(c.value.0)),
                None => None,
            },
            Column::ProductId => match self.product_id {
                Some(c) => Some(ValueView::Int(c.value.0)),
                None => None,
            },
            Column::Quantity => match self.quantity {
                Some(c) => Some(ValueView::Int(c.value.0)),
                None => None,
            },
            _ => None,
        }
    }

    fn cell(&self, column: Column) -> (v: Option<Value>) {
        match column {
            Column::Id => match self.id {
                Some(c) => Some(Value::Int(c.value.0)),
                None => None,
            },
            Column::WarehouseId => match self.warehouse_id {
                Some(c) => Some(Value::Uuid(c.value.0)),
                None => None,
            },
            Column::ProductId => match self.product_id {
                Some(c) => Some(Value::Int(c.value.0)),
                None => None,
            },
            Column::Quantity => match self.quantity {
                Some(c) => Some(Value::Int(c.value.0)),
                None => None,
            },
            _ => None,
        }
    }
}

impl Filter for WarehouseProductFilter {
    open spec fn predicates(&self) -> RecordView {
        record_of(self)
    }

    fn into_filtered_operation_builder(self, table: &'static str) -> (b: FilteredOperationBuilder) {
        let filters = Record::collect(&self);
        FilteredOperationBuilder { table, filters }
    }
}

/// The fields of an entry that a patch can set.
#[derive(Clone, Copy, Debug)]
pub struct WarehouseProductUpdateData {
    pub quantity: Option<ValueContainer<Quantity>>,
}

impl Default for WarehouseProductUpdateData {
    /// The patch that sets nothing.
    fn default() -> (data: WarehouseProductUpdateData)
        ensures
            data == (WarehouseProductUpdateData { quantity: None }),
    {
        WarehouseProductUpdateData { quantity: None }
    }
}

impl Cells for WarehouseProductUpdateData {
    /// The value that the patch gives a column, if it sets the column.
    open spec fn cell_spec(&self, column: Column) -> Option<ValueView> {
        match column {
            Column::Quantity => match self.quantity {
                Some(c) => Some(ValueView::Int(c.value.0)),
                None => None,
            },
            _ => None,
        }
    }

    fn cell(&self, column: Column) -> (v: Option<Value>) {
        match column {
            Column::Quantity => match self.quantity {
                Some(c) => Some(Value::Int(c.value.0)),
                None => None,
            },
            _ => None,
        }
    }
}

/// A patch for the entries that `mask` selects.
#[derive(Clone, Copy, Debug)]
pub struct WarehouseProductUpdater {
    pub mask: WarehouseProductFilter,
    pub data: WarehouseProductUpdateData,
}

impl Updater for WarehouseProductUpdater {
    open spec fn target(&self) -> RecordView {
        self.mask.predicates()
    }

    open spec fn patch(&self) -> RecordView {
        record_of(&self.data)
    }

    fn into_update_builder(self, table: &'static str) -> (b: UpdateBuilder) {
        let values = Record::collect(&self.data);
        let filter = self.mask.into_filtered_operation_builder(table);
        UpdateBuilder { table: filter.table, filters: filter.filters, values }
    }
}

} // verus!
