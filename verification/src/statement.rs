//! Statements: what a repository asks of a relation. A statement names its
//! relation and carries records of predicates and of values; the payload
//! types of the repositories turn themselves into statements.

use vstd::prelude::*;
use crate::schema::Column;
use crate::value::{Record, RecordView, Value};

verus! {

/// A statement that selects rows: those that hold every predicate. With no
/// predicate it selects every row.
pub struct FilteredOperationBuilder {
    pub table: &'static str,
    pub filters: Record,
}

/// The model of a [`FilteredOperationBuilder`].
pub struct FilteredOperationView {
    pub table: Seq<char>,
    pub filters: RecordView,
}

impl View for FilteredOperationBuilder {
    type V = FilteredOperationView;

    open spec fn view(&self) -> FilteredOperationView {
        FilteredOperationView { table: self.table@, filters: self.filters@ }
    }
}

impl FilteredOperationBuilder {
    /// The statement on `table` that selects every row.
    pub fn new(table: &'static str) -> (b: FilteredOperationBuilder)
        ensures
            b@ == (FilteredOperationView { table: table@, filters: Map::empty() }),
    {
        FilteredOperationBuilder { table, filters: Record::new() }
    }

    /// Adds the predicate that `column` holds `value`. A second predicate on
    /// a column takes the place of the first.
    pub fn with_filter(self, column: Column, value: Value) -> (b: FilteredOperationBuilder)
        ensures
            b@ == (FilteredOperationView {
                table: self@.table,
                filters: self@.filters.insert(column, value@),
            }),
    {
        FilteredOperationBuilder { table: self.table, filters: self.filters.with(column, value) }
    }
}

/// What an insert does when the new row meets a stored row on the columns of
/// `target`: the stored row takes the new row's values for the columns of
/// `overwrite`, and no row is added.
pub struct OnConflict {
    pub target: Vec<Column>,
    pub overwrite: Vec<Column>,
}

/// The model of an [`OnConflict`].
pub struct OnConflictView {
    pub target: Seq<Column>,
    pub overwrite: Seq<Column>,
}

impl View for OnConflict {
    type V = OnConflictView;

    open spec fn view(&self) -> OnConflictView {
        OnConflictView { target: self.target@, overwrite: self.overwrite@ }
    }
}

/// The model of an optional conflict clause.
pub open spec fn conflict_view(conflict: Option<OnConflict>) -> Option<OnConflictView> {
    match conflict {
        Some(c) => Some(c@),
        None => None,
    }
}

/// A statement that inserts one row.
pub struct InsertBuilder {
    pub table: &'static str,
    pub values: Record,
    pub extra: Option<OnConflict>,
}

/// The model of an [`InsertBuilder`].
pub struct InsertView {
    pub table: Seq<char>,
    pub values: RecordView,
    pub extra: Option<OnConflictView>,
}

impl View for InsertBuilder {
    type V = InsertView;

    open spec fn view(&self) -> InsertView {
        InsertView { table: self.table@, values: self.values@, extra: conflict_view(self.extra) }
    }
}

impl InsertBuilder {
    /// The statement that inserts an empty row into `table`.
    pub fn new(table: &'static str) -> (b: InsertBuilder)
        ensures
            b@ == (InsertView { table: table@, values: Map::empty(), extra: None }),
    {
        InsertBuilder { table, values: Record::new(), extra: None }
    }

    /// Gives `column` of the new row the value `value`.
    pub fn with_arg(self, column: Column, value: Value) -> (b: InsertBuilder)
        ensures
            b@ == (InsertView {
                table: self@.table,
                values: self@.values.insert(column, value@),
                extra: self@.extra,
            }),
    {
        InsertBuilder {
            table: self.table,
            values: self.values.with(column, value),
            extra: self.extra,
        }
    }

    /// Says what to do on a conflict.
    pub fn with_extra(self, extra: OnConflict) -> (b: InsertBuilder)
        ensures
            b@ == (InsertView {
                table: self@.table,
                values: self@.values,
                extra: Some(extra@),
            }),
    {
        InsertBuilder { table: self.table, values: self.values, extra: Some(extra) }
    }
}

/// A statement that patches rows: the rows that hold every predicate take
/// the values of the patch, column by column; a column that the patch does
/// not name is left as it is.
pub struct UpdateBuilder {
    pub table: &'static str,
    pub filters: Record,
    pub values: Record,
}

/// The model of an [`UpdateBuilder`].
pub struct UpdateView {
    pub table: Seq<char>,
    pub filters: RecordView,
    pub values: RecordView,
}

impl View for UpdateBuilder {
    type V = UpdateView;

    open spec fn view(&self) -> UpdateView {
        UpdateView { table: self.table@, filters: self.filters@, values: self.values@ }
    }
}

impl UpdateBuilder {
    /// The statement that patches nothing on the rows that `filter` selects.
    pub fn from(filter: FilteredOperationBuilder) -> (b: UpdateBuilder)
        ensures
            b@ == (UpdateView {
                table: filter@.table,
                filters: filter@.filters,
                values: Map::empty(),
            }),
    {
        UpdateBuilder { table: filter.table, filters: filter.filters, values: Record::new() }
    }

    /// Makes the patch give `column` the value `value`.
    pub fn with_value(self, column: Column, value: Value) -> (b: UpdateBuilder)
        ensures
            b@ == (UpdateView {
                table: self@.table,
                filters: self@.filters,
                values: self@.values.insert(column, value@),
            }),
    {
        UpdateBuilder {
            table: self.table,
            filters: self.filters,
            values: self.values.with(column, value),
        }
    }
}

/// A payload that selects rows.
pub trait Filter: Sized {
    /// The predicates of the filter: the columns it constrains, each with the
    /// value that a row must hold there.
    spec fn predicates(&self) -> RecordView;

    /// The statement on `table` that selects the rows that the filter
    /// matches.
    fn into_filtered_operation_builder(self, table: &'static str) -> (b: FilteredOperationBuilder)
        ensures
            b@ == (FilteredOperationView { table: table@, filters: self.predicates() }),
    ;
}

/// A payload that becomes a new row.
pub trait Inserter: Sized {
    /// The columns of the new row, each with its value.
    spec fn arguments(&self) -> RecordView;

    /// What the insert does on a conflict, if it says so.
    spec fn on_conflict(&self) -> Option<OnConflictView>;

    /// The statement that inserts the payload into `table`.
    fn into_insert_builder(self, table: &'static str) -> (b: InsertBuilder)
        ensures
            b@ == (InsertView {
                table: table@,
                values: self.arguments(),
                extra: self.on_conflict(),
            }),
    ;
}

/// A payload that patches rows.
pub trait Updater: Sized {
    /// The predicates that select the rows to patch.
    spec fn target(&self) -> RecordView;

    /// The columns that the patch sets, each with its new value.
    spec fn patch(&self) -> RecordView;

    /// The statement that patches the selected rows of `table`.
    fn into_update_builder(self, table: &'static str) -> (b: UpdateBuilder)
        ensures
            b@ == (UpdateView { table: table@, filters: self.target(), values: self.patch() }),
    ;
}

} // verus!
