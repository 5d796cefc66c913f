//! Relations, statements and counters on concrete rows.

use warehouses::errors::{RepoError, StorageFault};
use warehouses::schema::{Column, COLUMN_COUNT};
use warehouses::sequence::{slug_of, Counter, Sequence, SequenceImpl};
use warehouses::statement::{FilteredOperationBuilder, InsertBuilder, OnConflict, UpdateBuilder};
use warehouses::storage::{records_agree, rows_consistent, rows_unique_on, same_text, Table};
use warehouses::value::{Record, Value};

fn row(id: u128, store: i32, name: &str) -> Record {
    Record::new()
        .with(Column::Id, Value::Uuid(id))
        .with(Column::StoreId, Value::Int(store))
        .with(Column::Name, Value::Text(name.to_string()))
}

fn insert(table: &'static str, id: u128, store: i32, name: &str) -> InsertBuilder {
    InsertBuilder::new(table)
        .with_arg(Column::Id, Value::Uuid(id))
        .with_arg(Column::StoreId, Value::Int(store))
        .with_arg(Column::Name, Value::Text(name.to_string()))
}

fn table_of_three() -> Table {
    let mut t = Table::new("things", vec![vec![Column::Id]]);
    t.insert(&insert("things", 1, 7, "a")).unwrap();
    t.insert(&insert("things", 2, 7, "b")).unwrap();
    t.insert(&insert("things", 3, 8, "c")).unwrap();
    t
}

fn same(a: &Record, b: &Record) -> bool {
    a.includes(b) && b.includes(a)
}

fn same_rows(a: &[Record], b: &[Record]) -> bool {
    a.len() == b.len() && a.iter().zip(b.iter()).all(|(x, y)| same(x, y))
}

#[test]
fn columns_are_numbered_in_order() {
    assert_eq!(COLUMN_COUNT, 22);
    assert_eq!(Column::Id.index(), 0);
    assert_eq!(Column::PlaceId.index(), 21);
    for i in 0..COLUMN_COUNT {
        assert_eq!(Column::from_index(i).unwrap().index(), i);
    }
    assert_eq!(Column::from_index(COLUMN_COUNT), None);
    assert_eq!(Column::from_index(9), Some(Column::Slug));
}

#[test]
fn record_holds_what_was_set_last() {
    let mut r = Record::new();
    assert!(!r.has(Column::Name));
    assert!(r.get(Column::Name).is_none());
    r.set(Column::Name, Value::Text("x".to_string()));
    r.set(Column::Name, Value::Text("y".to_string()));
    r.set(Column::Quantity, Value::Null);
    assert!(r.get(Column::Name).unwrap().equals(&Value::Text("y".to_string())));
    assert!(r.get(Column::Quantity).unwrap().equals(&Value::Null));
    assert!(r.has(Column::Quantity));
    let copy = r.clone();
    assert!(same(&copy, &r));
}

#[test]
fn values_are_equal_only_to_themselves() {
    let values = [
        Value::Null,
        Value::Int(0),
        Value::Int(1),
        Value::Uuid(0),
        Value::Uuid(1),
        Value::Text(String::new()),
        Value::Text("0".to_string()),
    ];
    for (i, a) in values.iter().enumerate() {
        for (j, b) in values.iter().enumerate() {
            assert_eq!(a.equals(b), i == j);
        }
        assert!(a.clone().equals(a));
    }
    assert!(Value::text_or_null(&None).equals(&Value::Null));
    assert!(Value::text_or_null(&Some("t".to_string())).equals(&Value::Text("t".to_string())));
}

#[test]
fn includes_asks_for_every_column_of_the_part() {
    let whole = row(1, 7, "a");
    assert!(whole.includes(&Record::new()));
    assert!(whole.includes(&Record::new().with(Column::StoreId, Value::Int(7))));
    assert!(!whole.includes(&Record::new().with(Column::StoreId, Value::Int(8))));
    assert!(!whole.includes(&Record::new().with(Column::Slug, Value::Null)));
    assert!(!Record::new().includes(&whole));
}

#[test]
fn patched_sets_the_columns_of_the_patch_and_keeps_the_rest() {
    let before = row(1, 7, "a");
    let patch = Record::new()
        .with(Column::Name, Value::Text("z".to_string()))
        .with(Column::Slug, Value::Text("s".to_string()));
    let after = before.patched(&patch);
    assert!(after.get(Column::Id).unwrap().equals(&Value::Uuid(1)));
    assert!(after.get(Column::StoreId).unwrap().equals(&Value::Int(7)));
    assert!(after.get(Column::Name).unwrap().equals(&Value::Text("z".to_string())));
    assert!(after.get(Column::Slug).unwrap().equals(&Value::Text("s".to_string())));
    assert!(same(&before.patched(&Record::new()), &before));
}

#[test]
fn select_returns_the_matching_rows_in_order() {
    let t = table_of_three();
    let all = t.select(&FilteredOperationBuilder::new("things")).unwrap();
    assert!(same_rows(&all, &[row(1, 7, "a"), row(2, 7, "b"), row(3, 8, "c")]));
    let of_seven = t
        .select(&FilteredOperationBuilder::new("things").with_filter(Column::StoreId, Value::Int(7)))
        .unwrap();
    assert!(same_rows(&of_seven, &[row(1, 7, "a"), row(2, 7, "b")]));
    let none = t
        .select(
            &FilteredOperationBuilder::new("things")
                .with_filter(Column::StoreId, Value::Int(7))
                .with_filter(Column::Name, Value::Text("c".to_string())),
        )
        .unwrap();
    assert!(none.is_empty());
    // a second predicate on a column takes the place of the first
    let of_eight = t
        .select(
            &FilteredOperationBuilder::new("things")
                .with_filter(Column::StoreId, Value::Int(7))
                .with_filter(Column::StoreId, Value::Int(8)),
        )
        .unwrap();
    assert!(same_rows(&of_eight, &[row(3, 8, "c")]));
}

#[test]
fn a_statement_for_another_relation_is_a_storage_error() {
    let mut t = table_of_three();
    assert_eq!(t.name(), "things");
    assert_eq!(t.select(&FilteredOperationBuilder::new("others")).err(), Some(RepoError::Storage(StorageFault::UnknownRelation)));
    assert_eq!(t.insert(&insert("others", 9, 1, "x")).err(), Some(RepoError::Storage(StorageFault::UnknownRelation)));
    assert_eq!(
        t.update(&UpdateBuilder::from(FilteredOperationBuilder::new("others"))).err(),
        Some(RepoError::Storage(StorageFault::UnknownRelation))
    );
    assert_eq!(t.delete(&FilteredOperationBuilder::new("others")).err(), Some(RepoError::Storage(StorageFault::UnknownRelation)));
    assert_eq!(t.len(), 3);
}

#[test]
fn inserted_row_is_selected_by_its_identifier() {
    let mut t = table_of_three();
    let stored = t.insert(&insert("things", 4, 7, "d")).unwrap();
    assert!(same(&stored, &row(4, 7, "d")));
    let found = t
        .select(&FilteredOperationBuilder::new("things").with_filter(Column::Id, Value::Uuid(4)))
        .unwrap();
    assert!(same_rows(&found, &[row(4, 7, "d")]));
}

#[test]
fn insert_that_breaks_a_constraint_changes_nothing() {
    let mut t = table_of_three();
    assert_eq!(t.insert(&insert("things", 2, 9, "x")).err(), Some(RepoError::ConstraintViolation));
    assert!(same_rows(&t.rows(), &[row(1, 7, "a"), row(2, 7, "b"), row(3, 8, "c")]));
}

#[test]
fn conflict_clause_overwrites_and_adds_no_row() {
    let mut t = Table::new("things", vec![vec![Column::Id], vec![Column::StoreId]]);
    let upsert = |id: u128, store: i32, name: &str| {
        insert("things", id, store, name)
            .with_extra(OnConflict { target: vec![Column::StoreId], overwrite: vec![Column::Name] })
    };
    assert!(same(&t.insert(&upsert(1, 7, "a")).unwrap(), &row(1, 7, "a")));
    assert!(same(&t.insert(&upsert(2, 8, "b")).unwrap(), &row(2, 8, "b")));
    // the row of store 7 takes the new name and keeps its identifier
    assert!(same(&t.insert(&upsert(3, 7, "c")).unwrap(), &row(1, 7, "c")));
    assert!(same_rows(&t.rows(), &[row(1, 7, "c"), row(2, 8, "b")]));
    // a target that is no constraint of the relation is refused
    let bad = insert("things", 4, 9, "d")
        .with_extra(OnConflict { target: vec![Column::Name], overwrite: vec![Column::Name] });
    assert_eq!(t.insert(&bad).err(), Some(RepoError::Storage(StorageFault::NoSuchConstraint)));
    assert_eq!(t.len(), 2);
}

#[test]
fn update_patches_the_matching_rows_and_returns_them() {
    let mut t = table_of_three();
    let op = UpdateBuilder::from(
        FilteredOperationBuilder::new("things").with_filter(Column::StoreId, Value::Int(7)),
    )
    .with_value(Column::Name, Value::Text("n".to_string()));
    let patched = t.update(&op).unwrap();
    assert!(same_rows(&patched, &[row(1, 7, "n"), row(2, 7, "n")]));
    assert!(same_rows(&t.rows(), &[row(1, 7, "n"), row(2, 7, "n"), row(3, 8, "c")]));
    // no match is no error
    let nothing = UpdateBuilder::from(
        FilteredOperationBuilder::new("things").with_filter(Column::StoreId, Value::Int(9)),
    )
    .with_value(Column::Name, Value::Null);
    assert!(t.update(&nothing).unwrap().is_empty());
    assert_eq!(t.len(), 3);
}

#[test]
fn update_that_breaks_a_constraint_changes_nothing() {
    let mut t = table_of_three();
    let op = UpdateBuilder::from(
        FilteredOperationBuilder::new("things").with_filter(Column::StoreId, Value::Int(7)),
    )
    .with_value(Column::Id, Value::Uuid(9));
    assert_eq!(t.update(&op).err(), Some(RepoError::ConstraintViolation));
    assert!(same_rows(&t.rows(), &[row(1, 7, "a"), row(2, 7, "b"), row(3, 8, "c")]));
}

#[test]
fn delete_with_an_empty_filter_removes_and_returns_all_three() {
    let mut t = table_of_three();
    let removed = t.delete(&FilteredOperationBuilder::new("things")).unwrap();
    assert!(same_rows(&removed, &[row(1, 7, "a"), row(2, 7, "b"), row(3, 8, "c")]));
    assert_eq!(t.len(), 0);
    assert!(t.rows().is_empty());
}

#[test]
fn delete_removes_only_the_matching_rows() {
    let mut t = table_of_three();
    let removed = t
        .delete(&FilteredOperationBuilder::new("things").with_filter(Column::StoreId, Value::Int(7)))
        .unwrap();
    assert!(same_rows(&removed, &[row(1, 7, "a"), row(2, 7, "b")]));
    assert!(same_rows(&t.rows(), &[row(3, 8, "c")]));
}

#[test]
fn plans_leave_the_relation_alone_and_commit_checks_the_constraints() {
    let mut t = table_of_three();
    let (rows, stored) = t.plan_insert(&insert("things", 1, 1, "dup")).unwrap();
    assert_eq!(rows.len(), 4);
    assert!(same(&stored, &row(1, 1, "dup")));
    assert_eq!(t.len(), 3);
    assert_eq!(t.commit(rows), Err(RepoError::ConstraintViolation));
    assert_eq!(t.len(), 3);
    let (rows, removed) = t.plan_delete(&FilteredOperationBuilder::new("things")).unwrap();
    assert_eq!((rows.len(), removed.len()), (0, 3));
    let (rows, patched) =
        t.plan_update(&UpdateBuilder::from(FilteredOperationBuilder::new("things"))).unwrap();
    assert_eq!((rows.len(), patched.len()), (3, 3));
    assert_eq!(t.commit(rows), Ok(()));
}

#[test]
fn load_checks_the_constraints() {
    let good = Table::load("things", vec![vec![Column::Id]], vec![row(1, 1, "a"), row(2, 1, "a")]);
    assert_eq!(good.unwrap().len(), 2);
    let bad = Table::load("things", vec![vec![Column::Id]], vec![row(1, 1, "a"), row(1, 2, "b")]);
    assert_eq!(bad.err(), Some(RepoError::ConstraintViolation));
}

#[test]
fn agreement_and_uniqueness() {
    let a = row(1, 7, "a");
    let b = row(2, 7, "b");
    assert!(records_agree(&a, &b, &vec![Column::StoreId]));
    assert!(records_agree(&a, &b, &vec![]));
    assert!(!records_agree(&a, &b, &vec![Column::StoreId, Column::Id]));
    // a column that neither holds is agreed on
    assert!(records_agree(&a, &b, &vec![Column::Slug]));
    let rows = vec![a, b];
    assert!(rows_unique_on(&rows, &vec![Column::Id]));
    assert!(!rows_unique_on(&rows, &vec![Column::StoreId]));
    assert!(rows_consistent(&rows, &vec![vec![Column::Id], vec![Column::Name]]));
    assert!(!rows_consistent(&rows, &vec![vec![Column::Id], vec![Column::StoreId]]));
    assert!(same_text("roles", "roles"));
    assert!(!same_text("roles", "role"));
}

#[test]
fn counter_hands_out_each_value_once() {
    let mut counter = Counter::new("warehouse_slug_seq");
    assert_eq!(counter.name(), "warehouse_slug_seq");
    assert_eq!(counter.last(), 0);
    let sequence = SequenceImpl::new("warehouse_slug_seq");
    let mut seen = Vec::new();
    // two callers take turns
    for turn in 0..10 {
        let caller = if turn % 3 == 0 { &sequence } else { &SequenceImpl::new("warehouse_slug_seq") };
        seen.push(caller.next_val(&mut counter).unwrap());
    }
    assert_eq!(seen, (1..=10).collect::<Vec<i64>>());
    assert_eq!(counter.last(), 10);
}

#[test]
fn counter_fails_on_another_name_and_at_the_largest_value() {
    let mut counter = Counter::new("a");
    assert_eq!(SequenceImpl::new("b").next_val(&mut counter), Err(RepoError::Storage(StorageFault::UnknownSequence)));
    assert_eq!(counter.last(), 0);
    let mut full = Counter::resume("a", i64::MAX);
    assert_eq!(full.next_val("a"), Err(RepoError::Storage(StorageFault::SequenceExhausted)));
    assert_eq!(full.last(), i64::MAX);
    let mut nearly = Counter::resume("a", i64::MAX - 1);
    assert_eq!(nearly.next_val("a"), Ok(i64::MAX));
}

#[test]
fn slugs_are_the_values_in_decimal() {
    assert_eq!(slug_of(0).0, "0");
    assert_eq!(slug_of(7).0, "7");
    assert_eq!(slug_of(10).0, "10");
    assert_eq!(slug_of(1234567890).0, "1234567890");
    assert_eq!(slug_of(-1).0, "-1");
    assert_eq!(slug_of(i64::MAX).0, "9223372036854775807");
    assert_eq!(slug_of(i64::MIN).0, "-9223372036854775808");
    for v in -300i64..300 {
        assert_eq!(slug_of(v).0, v.to_string());
    }
}
