//! Values and records: what a cell holds, and a row as a finite map from
//! columns to values.

use vstd::prelude::*;
use crate::schema::{Column, COLUMN_COUNT};
use crate::types::GeoPoint;

verus! {

/// What a cell of a row, or an argument of a statement, holds.
#[derive(Debug)]
pub enum Value {
    Null,
    Int(i32),
    Uuid(u128),
    Text(String),
    Point(GeoPoint),
}

/// The mathematical model of a [`Value`]: text is a sequence of characters.
pub enum ValueView {
    Null,
    Int(i32),
    Uuid(u128),
    Text(Seq<char>),
    Point(GeoPoint),
}

impl View for Value {
    type V = ValueView;

    open spec fn view(&self) -> ValueView {
        match self {
            Value::Null => ValueView::Null,
            Value::Int(n) => ValueView::Int(*n),
            Value::Uuid(u) => ValueView::Uuid(*u),
            Value::Text(s) => ValueView::Text(s@),
            Value::Point(p) => ValueView::Point(*p),
        }
    }
}

impl Clone for Value {
    fn clone(&self) -> (copy: Value)
        ensures
            copy@ == self@,
    {
        match self {
            Value::Null => Value::Null,
            Value::Int(n) => Value::Int(*n),
            Value::Uuid(u) => Value::Uuid(*u),
            Value::Text(s) => Value::Text(s.clone()),
            Value::Point(p) => Value::Point(*p),
        }
    }
}

impl Value {
    /// Whether two values are the same value.
    pub fn equals(&self, other: &Value) -> (same: bool)
        ensures
            same == (self@ == other@),
    {
        match (self, other) {
            (Value::Null, Value::Null) => true,
            (Value::Int(a), Value::Int(b)) => *a == *b,
            (Value::Uuid(a), Value::Uuid(b)) => *a == *b,
            (Value::Text(a), Value::Text(b)) => {
                let same: bool = *a == *b;
                same
            },
            (Value::Point(a), Value::Point(b)) => *a == *b,
            _ => false,
        }
    }

    /// A text value, or null where there is no text.
    pub fn text_or_null(text: &Option<String>) -> (v: Value)
        ensures
            v@ == ValueView::text_or_null(text),
    {
        match text {
            Some(s) => Value::Text(s.clone()),
            None => Value::Null,
        }
    }
}

impl ValueView {
    /// The model of [`Value::text_or_null`].
    pub open spec fn text_or_null(text: &Option<String>) -> ValueView {
        match text {
            Some(s) => ValueView::Text(s@),
            None => ValueView::Null,
        }
    }
}

/// The model of a record: a finite map from columns to values.
pub type RecordView = Map<Column, ValueView>;

/// A row of a relation, the predicates of a filter or the assignments of a
/// patch: at most one value for each column.
#[derive(Debug)]
pub struct Record {
    slots: Vec<Option<Value>>,
}

impl View for Record {
    type V = RecordView;

    closed spec fn view(&self) -> RecordView {
        Map::new(
            |c: Column| self.slots@[c.ordinal()] is Some,
            |c: Column| self.slots@[c.ordinal()]->0@,
        )
    }
}

impl Record {
    #[verifier::type_invariant]
    spec fn well_formed(&self) -> bool {
        self.slots@.len() == COLUMN_COUNT
    }

    /// The record that holds no column.
    pub fn new() -> (r: Record)
        ensures
            r@ == Map::<Column, ValueView>::empty(),
    {
        let mut slots: Vec<Option<Value>> = Vec::new();
        let mut i: usize = 0;
        while i < COLUMN_COUNT
            invariant
                i <= COLUMN_COUNT,
                slots@.len() == i,
                forall|k: int| 0 <= k < i ==> slots@[k] is None,
            decreases COLUMN_COUNT - i,
        {
            slots.push(None);
            i = i + 1;
        }
        let r = Record { slots };
        assert(r@ =~= Map::<Column, ValueView>::empty());
        r
    }

    /// The value of a column, if the record holds the column.
    pub fn get(&self, column: Column) -> (v: Option<&Value>)
        ensures
            v is Some <==> self@.contains_key(column),
            v matches Some(x) ==> x@ == self@[column],
    {
        proof {
            use_type_invariant(self);
        }
        self.slots[column.index()].as_ref()
    }

    /// Whether the record holds the column.
    pub fn has(&self, column: Column) -> (b: bool)
        ensures
            b == self@.contains_key(column),
    {
        self.get(column).is_some()
    }

    /// The same record with one column set, whether or not it was set
    /// before.
    pub fn with(self, column: Column, value: Value) -> (r: Record)
        ensures
            r@ == self@.insert(column, value@),
    {
        proof {
            use_type_invariant(&self);
        }
        let ghost before = self@;
        let Record { slots } = self;
        let mut slots = slots;
        let ghost slots_before = slots@;
        slots.set(column.index(), Some(value));
        let r = Record { slots };
        proof {
            assert(r.slots@ == slots_before.update(column.ordinal(), Some(value)));
            assert(r@ =~= before.insert(column, value@));
        }
        r
    }

    /// Gives the column this value, whether or not it had one.
    pub fn set(&mut self, column: Column, value: Value)
        ensures
            final(self)@ == old(self)@.insert(column, value@),
    {
        let mut taken = Record::new();
        core::mem::swap(self, &mut taken);
        *self = taken.with(column, value);
    }

    /// Whether every column of `part` is in this record with the same value.
    pub fn includes(&self, part: &Record) -> (b: bool)
        ensures
            b == part@.submap_of(self@),
    {
        proof {
            use_type_invariant(self);
            use_type_invariant(part);
        }
        let mut i: usize = 0;
        while i < COLUMN_COUNT
            invariant
                i <= COLUMN_COUNT,
                self.slots@.len() == COLUMN_COUNT,
                part.slots@.len() == COLUMN_COUNT,
                forall|c: Column|
                    c.ordinal() < i && #[trigger] part@.contains_key(c) ==> self@.contains_key(c)
                        && self@[c] == part@[c],
            decreases COLUMN_COUNT - i,
        {
            let ghost c = Column::at(i as int)->0;
            proof {
                crate::schema::lemma_at_ordinal(i as int);
            }
            match &part.slots[i] {
                Some(wanted) => {
                    match &self.slots[i] {
                        Some(found) => {
                            if !found.equals(wanted) {
                                assert(part@.dom().contains(c) && self@.dom().contains(c) && self@[c] != part@[c]);
                                return false;
                            }
                        },
                        None => {
                            assert(part@.contains_key(c) && !self@.contains_key(c));
                            return false;
                        },
                    }
                },
                None => {},
            }
            assert forall|d: Column|
                d.ordinal() < i + 1 && #[trigger] part@.contains_key(d) implies self@.contains_key(d)
                && self@[d] == part@[d] by {
                if d.ordinal() == i {
                    crate::schema::lemma_ordinal_at(d);
                }
            }
            i = i + 1;
        }
        proof {
            assert forall|d: Column| #[trigger] part@.contains_key(d) implies self@.contains_key(d)
                && self@[d] == part@[d] by {
                crate::schema::lemma_ordinal_at(d);
            }
        }
        true
    }

    /// This record with every column of `patch` set to the patch's value;
    /// the columns that the patch does not hold keep what they had.
    pub fn patched(&self, patch: &Record) -> (r: Record)
        ensures
            r@ == self@.union_prefer_right(patch@),
    {
        proof {
            use_type_invariant(self);
            use_type_invariant(patch);
        }
        let mut slots: Vec<Option<Value>> = Vec::new();
        let mut i: usize = 0;
        while i < COLUMN_COUNT
            invariant
                i <= COLUMN_COUNT,
                self.slots@.len() == COLUMN_COUNT,
                patch.slots@.len() == COLUMN_COUNT,
                slots@.len() == i,
                forall|k: int|
                    0 <= k < i ==> (#[trigger] slots@[k] is Some) == (patch.slots@[k] is Some
                        || self.slots@[k] is Some),
                forall|k: int|
                    0 <= k < i && patch.slots@[k] is Some ==> (#[trigger] slots@[k])->0@
                        == patch.slots@[k]->0@,
                forall|k: int|
                    0 <= k < i && patch.slots@[k] is None && self.slots@[k] is Some ==> (
                    #[trigger] slots@[k])->0@ == self.slots@[k]->0@,
            decreases COLUMN_COUNT - i,
        {
            let slot: Option<Value> = match &patch.slots[i] {
                Some(v) => Some(v.clone()),
                None => match &self.slots[i] {
                    Some(v) => Some(v.clone()),
                    None => None,
                },
            };
            slots.push(slot);
            i = i + 1;
        }
        let r = Record { slots };
        proof {
            assert forall|c: Column| #[trigger]
                r@.contains_key(c) == self@.union_prefer_right(patch@).contains_key(c) by {
                crate::schema::lemma_ordinal_at(c);
            }
            assert forall|c: Column| #[trigger] r@.contains_key(c) implies r@[c]
                == self@.union_prefer_right(patch@)[c] by {
                crate::schema::lemma_ordinal_at(c);
            }
            assert(r@ =~= self@.union_prefer_right(patch@));
        }
        r
    }
}

impl Clone for Record {
    fn clone(&self) -> (copy: Record)
        ensures
            copy@ == self@,
    {
        let empty = Record::new();
        let copy = empty.patched(self);
        assert(copy@ =~= self@);
        copy
    }
}

/// The model of an optional value.
pub open spec fn value_view(v: Option<Value>) -> Option<ValueView> {
    match v {
        Some(x) => Some(x@),
        None => None,
    }
}

/// Something that has, for each column, a value or none: an entity seen as a
/// row, a filter seen as predicates, a patch seen as assignments.
pub trait Cells {
    /// What there is for a column.
    spec fn cell_spec(&self, column: Column) -> Option<ValueView>;

    /// What there is for a column.
    fn cell(&self, column: Column) -> (v: Option<Value>)
        ensures
            value_view(v) == self.cell_spec(column),
    ;
}

/// The record that holds, for each column, what `cells` has for it.
pub open spec fn record_of<C: Cells>(cells: &C) -> RecordView {
    Map::new(|c: Column| cells.cell_spec(c) is Some, |c: Column| cells.cell_spec(c)->0)
}

impl Record {
    /// The record that holds, for each column, what `cells` has for it.
    pub fn collect<C: Cells>(cells: &C) -> (r: Record)
        ensures
            r@ == record_of(cells),
    {
        let mut r = Record::new();
        let mut i: usize = 0;
        while i < COLUMN_COUNT
            invariant
                i <= COLUMN_COUNT,
                forall|c: Column|
                    c.ordinal() < i ==> (#[trigger] r@.contains_key(c)) == (cells.cell_spec(c)
                        is Some),
                forall|c: Column|
                    c.ordinal() < i && #[trigger] r@.contains_key(c) ==> r@[c] == cells.cell_spec(
                        c,
                    )->0,
                forall|c: Column| c.ordinal() >= i ==> !(#[trigger] r@.contains_key(c)),
            decreases COLUMN_COUNT - i,
        {
            proof {
                crate::schema::lemma_at_ordinal(i as int);
            }
            match Column::from_index(i) {
                Some(column) => {
                    match cells.cell(column) {
                        Some(v) => {
                            r.set(column, v);
                        },
                        None => {},
                    }
                },
                None => {},
            }
            i = i + 1;
        }
        proof {
            assert forall|c: Column| #[trigger] r@.contains_key(c) == (cells.cell_spec(c) is Some) by {
                crate::schema::lemma_ordinal_at(c);
            }
            assert forall|c: Column| #[trigger] r@.contains_key(c) implies r@[c] == cells.cell_spec(
                c,
            )->0 by {
                crate::schema::lemma_ordinal_at(c);
            }
            assert(r@ =~= record_of(cells));
        }
        r
    }
}

/// The models of a sequence of values that each have a model.
pub open spec fn views<T: View>(items: Seq<T>) -> Seq<T::V> {
    Seq::new(items.len(), |i: int| items[i]@)
}

} // verus!
