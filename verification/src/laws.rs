//! What holds of the store and of the repositories whatever they hold:
//! theorems about the functions that say what the operations do.

use vstd::prelude::*;
use crate::acl::{AclEngine, Action};
use crate::errors::{RepoError, StorageFault};
use crate::repo::{
    delete_spec, exactly_one, insert_spec, lemma_strict_keeps_all, screened, select_spec,
    update_spec, Entity,
};
use crate::schema::Column;
use crate::statement::{FilteredOperationView, InsertView, UpdateView};
use crate::storage::{
    agree, cell, consistent, delete_candidate, excluding, first_agreeing, insert_candidate,
    insert_outcome, insert_refused, is_constraint, matching, overwriting, patched_all,
    patched_matching, unique_on, update_candidate, update_outcome, with_rows, TableView,
};
use crate::connection::stocks_uniques;
use crate::models::role::{RoleEntry, UserLogin, UserRole};
use crate::models::stock::{stock_conflict, stock_row, DbStock, Stock};
use crate::models::warehouse::{
    lemma_warehouse_row_decodes, warehouse_row, warehouse_typed, DbWarehouse, WarehouseUpdateData,
    WarehouseView,
};
use crate::repo::insert_of;
use crate::repos::warehouses::{grant_covers, may_manage, WarehouseAcl};
use crate::services::warehouse::warehouse_acl;
use crate::types::StoreId;
use crate::value::{record_of, Cells, RecordView, ValueView};

verus! {

/// The predicates that ask for one value in one column.
pub open spec fn only(column: Column, value: ValueView) -> RecordView {
    Map::empty().insert(column, value)
}

/// A filter without predicates selects every row, and leaves none out.
pub proof fn lemma_empty_filter_matches_all(rows: Seq<RecordView>)
    ensures
        matching(rows, Map::empty()) == rows,
        excluding(rows, Map::empty()) == Seq::<RecordView>::empty(),
    decreases rows.len(),
{
    if rows.len() > 0 {
        lemma_empty_filter_matches_all(rows.drop_last());
        assert(Map::<Column, ValueView>::empty().submap_of(rows.last()));
        assert(rows.drop_last().push(rows.last()) =~= rows);
    } else {
        assert(matching(rows, Map::empty()) =~= rows);
    }
}

/// Where no row holds the predicates, nothing is selected and every row is
/// left.
pub proof fn lemma_no_match(rows: Seq<RecordView>, filters: RecordView)
    requires
        forall|j: int| 0 <= j < rows.len() ==> !filters.submap_of(#[trigger] rows[j]),
    ensures
        matching(rows, filters) == Seq::<RecordView>::empty(),
        excluding(rows, filters) == rows,
    decreases rows.len(),
{
    if rows.len() > 0 {
        let init = rows.drop_last();
        assert forall|j: int| 0 <= j < init.len() implies !filters.submap_of(#[trigger] init[j]) by {
            assert(init[j] == rows[j]);
        }
        lemma_no_match(init, filters);
        assert(!filters.submap_of(rows[rows.len() - 1]));
        assert(init.push(rows.last()) =~= rows);
    } else {
        assert(excluding(rows, filters) =~= rows);
    }
}

/// Where one row alone holds the predicates, it alone is selected.
pub proof fn lemma_single_match(rows: Seq<RecordView>, filters: RecordView, k: int)
    requires
        0 <= k < rows.len(),
        filters.submap_of(rows[k]),
        forall|j: int| 0 <= j < rows.len() && j != k ==> !filters.submap_of(#[trigger] rows[j]),
    ensures
        matching(rows, filters) == seq![rows[k]],
    decreases rows.len(),
{
    let init = rows.drop_last();
    if k == rows.len() - 1 {
        assert forall|j: int| 0 <= j < init.len() implies !filters.submap_of(#[trigger] init[j]) by {
            assert(init[j] == rows[j]);
        }
        lemma_no_match(init, filters);
        assert(matching(rows, filters) =~= seq![rows[k]]);
    } else {
        assert(!filters.submap_of(rows[rows.len() - 1]));
        assert forall|j: int| 0 <= j < init.len() && j != k implies !filters.submap_of(
            #[trigger] init[j],
        ) by {
            assert(init[j] == rows[j]);
        }
        assert(init[k] == rows[k]);
        lemma_single_match(init, filters, k);
    }
}

/// Where the rows of a relation are unique on a column, a value of that
/// column selects the row that holds it and no other.
pub proof fn lemma_key_selects_one(rows: Seq<RecordView>, column: Column, k: int)
    requires
        unique_on(rows, seq![column]),
        0 <= k < rows.len(),
        rows[k].contains_key(column),
    ensures
        matching(rows, only(column, rows[k][column])) == seq![rows[k]],
{
    let filters = only(column, rows[k][column]);
    assert(filters.submap_of(rows[k]));
    assert forall|j: int| 0 <= j < rows.len() && j != k implies !filters.submap_of(
        #[trigger] rows[j],
    ) by {
        if filters.submap_of(rows[j]) {
            assert(filters.dom().contains(column));
            assert(rows[j].dom().contains(column));
            assert(cell(rows[j], column) == cell(rows[k], column));
            assert(agree(rows[j], rows[k], seq![column]));
            assert(agree(rows[k], rows[j], seq![column]));
            if j < k {
                assert(!agree(rows[j], rows[k], seq![column]));
            } else {
                assert(!agree(rows[k], rows[j], seq![column]));
            }
        }
    }
    lemma_single_match(rows, filters, k);
}

/// The rows of a relation that keeps its constraints are unique on each of
/// them.
pub proof fn lemma_constraint_holds(
    rows: Seq<RecordView>,
    uniques: Seq<Seq<Column>>,
    target: Seq<Column>,
)
    requires
        consistent(rows, uniques),
        is_constraint(uniques, target),
    ensures
        unique_on(rows, target),
{
    let u = choose|u: int| 0 <= u < uniques.len() && #[trigger] uniques[u] == target;
    assert(unique_on(rows, uniques[u]));
}

/// The row that an insert returns is one of the rows afterwards.
pub proof fn lemma_inserted_row_is_there(rows: Seq<RecordView>, op: InsertView) -> (k: int)
    ensures
        0 <= k < insert_candidate(rows, op).0.len(),
        insert_candidate(rows, op).0[k] == insert_candidate(rows, op).1,
{
    match op.extra {
        Some(c) => {
            let i = first_agreeing(rows, op.values, c.target, 0);
            lemma_first_agreeing(rows, op.values, c.target, 0);
            if i < rows.len() {
                i
            } else {
                rows.len() as int
            }
        },
        None => rows.len() as int,
    }
}

/// What the first agreeing position is: within the rows or just past them;
/// where within, its row agrees; no row before it agrees.
pub proof fn lemma_first_agreeing(
    rows: Seq<RecordView>,
    values: RecordView,
    columns: Seq<Column>,
    from: int,
)
    requires
        0 <= from <= rows.len(),
    ensures
        from <= first_agreeing(rows, values, columns, from) <= rows.len(),
        first_agreeing(rows, values, columns, from) < rows.len() ==> agree(
            rows[first_agreeing(rows, values, columns, from)],
            values,
            columns,
        ),
        forall|j: int|
            from <= j < first_agreeing(rows, values, columns, from) ==> !agree(
                #[trigger] rows[j],
                values,
                columns,
            ),
    decreases rows.len() - from,
{
    if from < rows.len() && !agree(rows[from], values, columns) {
        lemma_first_agreeing(rows, values, columns, from + 1);
    }
}

/// What was inserted is found by its identifier, and nothing else is: where
/// the relation has the constraint that identifiers are unique, a select for
/// the identifier of the row that an insert returned returns that row alone.
pub proof fn lemma_inserted_row_is_selected(t: TableView, op: InsertView)
    requires
        is_constraint(t.uniques, seq![Column::Id]),
        insert_outcome(t, op) is Ok,
        insert_outcome(t, op)->Ok_0.1.contains_key(Column::Id),
    ensures
        matching(
            insert_outcome(t, op)->Ok_0.0,
            only(Column::Id, insert_outcome(t, op)->Ok_0.1[Column::Id]),
        ) == seq![insert_outcome(t, op)->Ok_0.1],
{
    let (rows, row) = insert_candidate(t.rows, op);
    let k = lemma_inserted_row_is_there(t.rows, op);
    lemma_constraint_holds(rows, t.uniques, seq![Column::Id]);
    lemma_key_selects_one(rows, Column::Id, k);
}

/// The screening of one row that holds an entity the caller may see releases
/// that entity.
pub proof fn lemma_one_row_released<T: Entity, A: AclEngine<T>>(
    acl: A,
    row: RecordView,
    action: Action,
    strict: bool,
)
    requires
        T::decode(row) is Some,
        acl.verdict(T::decode(row)->0, action) == Ok::<bool, RepoError>(true),
    ensures
        screened::<T, A>(acl, seq![row], action, strict) == Ok::<Seq<T::V>, RepoError>(
            seq![T::decode(row)->0],
        ),
{
    let rows = seq![row];
    assert(rows.drop_last() =~= Seq::<RecordView>::empty());
    assert(screened::<T, A>(acl, rows.drop_last(), action, strict) == Ok::<Seq<T::V>, RepoError>(
        Seq::empty(),
    ));
    assert(Seq::<T::V>::empty().push(T::decode(row)->0) =~= seq![T::decode(row)->0]);
}

/// What was inserted is found by its identifier: after an insert through a
/// repository, a select for the identifier of the entity returns exactly
/// that entity, provided the caller may see what the caller inserted. The
/// relation must have the constraint that identifiers are unique.
pub proof fn lemma_insert_then_select<T: Entity, A: AclEngine<T>>(
    acl: A,
    conn: TableView,
    op: InsertView,
)
    requires
        is_constraint(conn.uniques, seq![Column::Id]),
        insert_spec::<T, A>(acl, conn, op) is Ok,
        insert_candidate(conn.rows, op).1.contains_key(Column::Id),
        acl.verdict(insert_spec::<T, A>(acl, conn, op)->Ok_0.1, Action::Select) == Ok::<
            bool,
            RepoError,
        >(true),
    ensures
        select_spec::<T, A>(
            conn.name,
            acl,
            with_rows(conn, insert_spec::<T, A>(acl, conn, op)->Ok_0.0),
            only(Column::Id, insert_candidate(conn.rows, op).1[Column::Id]),
        ) == Ok::<Seq<T::V>, RepoError>(seq![insert_spec::<T, A>(acl, conn, op)->Ok_0.1]),
{
    let (rows, row) = insert_candidate(conn.rows, op);
    assert(insert_outcome(conn, op) == Ok::<(Seq<RecordView>, RecordView), RepoError>((rows, row)));
    lemma_inserted_row_is_selected(conn, op);
    lemma_strict_keeps_all::<T, A>(acl, seq![row], Action::Insert);
    assert(seq![row][0] == row);
    lemma_one_row_released::<T, A>(acl, row, Action::Select, false);
}

/// Where one row alone holds the predicates, an update returns that row
/// patched and nothing else, and patches no other row.
pub proof fn lemma_single_patch(
    rows: Seq<RecordView>,
    filters: RecordView,
    patch: RecordView,
    k: int,
)
    requires
        0 <= k < rows.len(),
        filters.submap_of(rows[k]),
        forall|j: int| 0 <= j < rows.len() && j != k ==> !filters.submap_of(#[trigger] rows[j]),
    ensures
        patched_matching(rows, filters, patch) == seq![rows[k].union_prefer_right(patch)],
        patched_all(rows, filters, patch) == rows.update(k, rows[k].union_prefer_right(patch)),
    decreases rows.len(),
{
    let init = rows.drop_last();
    if k == rows.len() - 1 {
        assert forall|j: int| 0 <= j < init.len() implies !filters.submap_of(#[trigger] init[j]) by {
            assert(init[j] == rows[j]);
        }
        lemma_unmatched_patch(init, filters, patch);
        assert(patched_matching(rows, filters, patch) =~= seq![rows[k].union_prefer_right(patch)]);
        assert(patched_all(rows, filters, patch) =~= rows.update(
            k,
            rows[k].union_prefer_right(patch),
        ));
    } else {
        assert(!filters.submap_of(rows[rows.len() - 1]));
        assert forall|j: int| 0 <= j < init.len() && j != k implies !filters.submap_of(
            #[trigger] init[j],
        ) by {
            assert(init[j] == rows[j]);
        }
        assert(init[k] == rows[k]);
        lemma_single_patch(init, filters, patch, k);
        assert(patched_all(rows, filters, patch) =~= rows.update(
            k,
            rows[k].union_prefer_right(patch),
        ));
    }
}

/// An update whose predicates no row holds changes nothing and returns
/// nothing: that no row matches is no error.
pub proof fn lemma_unmatched_patch(rows: Seq<RecordView>, filters: RecordView, patch: RecordView)
    requires
        forall|j: int| 0 <= j < rows.len() ==> !filters.submap_of(#[trigger] rows[j]),
    ensures
        patched_matching(rows, filters, patch) == Seq::<RecordView>::empty(),
        patched_all(rows, filters, patch) == rows,
    decreases rows.len(),
{
    if rows.len() > 0 {
        let init = rows.drop_last();
        assert forall|j: int| 0 <= j < init.len() implies !filters.submap_of(#[trigger] init[j]) by {
            assert(init[j] == rows[j]);
        }
        lemma_unmatched_patch(init, filters, patch);
        assert(!filters.submap_of(rows[rows.len() - 1]));
        assert(init.push(rows.last()) =~= rows);
    } else {
        assert(patched_all(rows, filters, patch) =~= rows);
    }
}

/// A patch leaves alone what it does not name: a column that is not in the
/// patch holds after the update what it held before, in every row; and a row
/// that does not hold the predicates is left as it was altogether.
pub proof fn lemma_patch_leaves_the_rest(
    rows: Seq<RecordView>,
    filters: RecordView,
    patch: RecordView,
    i: int,
    column: Column,
)
    requires
        0 <= i < rows.len(),
    ensures
        patched_all(rows, filters, patch).len() == rows.len(),
        !patch.contains_key(column) ==> cell(patched_all(rows, filters, patch)[i], column) == cell(
            rows[i],
            column,
        ),
        patch.contains_key(column) && filters.submap_of(rows[i]) ==> cell(
            patched_all(rows, filters, patch)[i],
            column,
        ) == Some(patch[column]),
        !filters.submap_of(rows[i]) ==> patched_all(rows, filters, patch)[i] == rows[i],
    decreases rows.len(),
{
    let init = rows.drop_last();
    if i < rows.len() - 1 {
        lemma_patch_leaves_the_rest(init, filters, patch, i, column);
        assert(init[i] == rows[i]);
        lemma_patched_all_len(init, filters, patch);
    } else {
        lemma_patched_all_len(init, filters, patch);
    }
}

/// An update keeps the number of rows.
pub proof fn lemma_patched_all_len(rows: Seq<RecordView>, filters: RecordView, patch: RecordView)
    ensures
        patched_all(rows, filters, patch).len() == rows.len(),
    decreases rows.len(),
{
    if rows.len() > 0 {
        lemma_patched_all_len(rows.drop_last(), filters, patch);
    }
}

/// Nothing is released that the policy does not allow: every entity that a
/// screening lets through is the entity of one of the rows, and the policy's
/// verdict on it is that the caller may carry out the operation.
pub proof fn lemma_released_are_allowed<T: Entity, A: AclEngine<T>>(
    acl: A,
    rows: Seq<RecordView>,
    action: Action,
    strict: bool,
    i: int,
)
    requires
        screened::<T, A>(acl, rows, action, strict) is Ok,
        0 <= i < screened::<T, A>(acl, rows, action, strict)->Ok_0.len(),
    ensures
        acl.verdict(screened::<T, A>(acl, rows, action, strict)->Ok_0[i], action) == Ok::<
            bool,
            RepoError,
        >(true),
        exists|k: int|
            0 <= k < rows.len() && T::decode(#[trigger] rows[k]) == Some(
                screened::<T, A>(acl, rows, action, strict)->Ok_0[i],
            ),
    decreases rows.len(),
{
    let init = rows.drop_last();
    let kept = screened::<T, A>(acl, init, action, strict)->Ok_0;
    if i < kept.len() {
        lemma_released_are_allowed::<T, A>(acl, init, action, strict, i);
        let k = choose|k: int| 0 <= k < init.len() && T::decode(#[trigger] init[k]) == Some(kept[i]);
        assert(rows[k] == init[k]);
    } else {
        assert(T::decode(rows[rows.len() - 1]) == Some(
            screened::<T, A>(acl, rows, action, strict)->Ok_0[i],
        ));
    }
}

/// An insert without a conflict clause adds exactly one row, the new one, at
/// the end, or fails and adds none.
pub proof fn lemma_insert_adds_one_row(t: TableView, op: InsertView)
    requires
        op.extra is None,
    ensures
        match insert_outcome(t, op) {
            Ok((rows, row)) => rows == t.rows.push(op.values) && row == op.values,
            Err(e) => e == RepoError::Storage(StorageFault::UnknownRelation) || e
                == RepoError::ConstraintViolation,
        },
{
}

/// A row that the caller may not see is, to the caller, not there: a select
/// for exactly the row of an identifier ends in `NotFound`, not in
/// `Forbidden`, where the policy denies the caller the one row that holds
/// the identifier.
pub proof fn lemma_hidden_is_not_found<T: Entity, A: AclEngine<T>>(acl: A, conn: TableView, k: int)
    requires
        consistent(conn.rows, conn.uniques),
        is_constraint(conn.uniques, seq![Column::Id]),
        0 <= k < conn.rows.len(),
        conn.rows[k].contains_key(Column::Id),
        T::decode(conn.rows[k]) is Some,
        acl.verdict(T::decode(conn.rows[k])->0, Action::Select) == Ok::<bool, RepoError>(false),
    ensures
        exactly_one(
            select_spec::<T, A>(
                conn.name,
                acl,
                conn,
                only(Column::Id, conn.rows[k][Column::Id]),
            ),
        ) == Err::<T::V, RepoError>(RepoError::NotFound),
{
    lemma_constraint_holds(conn.rows, conn.uniques, seq![Column::Id]);
    lemma_key_selects_one(conn.rows, Column::Id, k);
    let rows = seq![conn.rows[k]];
    assert(rows.drop_last() =~= Seq::<RecordView>::empty());
    assert(screened::<T, A>(acl, rows.drop_last(), Action::Select, false) == Ok::<
        Seq<T::V>,
        RepoError,
    >(Seq::empty()));
    assert(rows.last() == conn.rows[k]);
}

/// A change that the caller may not make is refused: an update of the row
/// of an identifier ends in `Forbidden` where the policy denies the caller
/// the row as it would be afterwards. Nothing is stored: the repository
/// leaves the relation as it was on every error.
pub proof fn lemma_denied_update_is_forbidden<T: Entity, A: AclEngine<T>>(
    acl: A,
    conn: TableView,
    patch: RecordView,
    k: int,
)
    requires
        consistent(conn.rows, conn.uniques),
        is_constraint(conn.uniques, seq![Column::Id]),
        0 <= k < conn.rows.len(),
        conn.rows[k].contains_key(Column::Id),
        T::decode(conn.rows[k].union_prefer_right(patch)) is Some,
        acl.verdict(T::decode(conn.rows[k].union_prefer_right(patch))->0, Action::Update) == Ok::<
            bool,
            RepoError,
        >(false),
    ensures
        update_spec::<T, A>(
            acl,
            conn,
            UpdateView {
                table: conn.name,
                filters: only(Column::Id, conn.rows[k][Column::Id]),
                values: patch,
            },
        ) == Err::<(Seq<RecordView>, Seq<T::V>), RepoError>(RepoError::Forbidden),
{
    let filters = only(Column::Id, conn.rows[k][Column::Id]);
    lemma_constraint_holds(conn.rows, conn.uniques, seq![Column::Id]);
    lemma_key_selects_one(conn.rows, Column::Id, k);
    assert(filters.submap_of(conn.rows[k]));
    assert forall|j: int| 0 <= j < conn.rows.len() && j != k implies !filters.submap_of(
        #[trigger] conn.rows[j],
    ) by {
        if filters.submap_of(conn.rows[j]) {
            assert(filters.dom().contains(Column::Id));
            assert(conn.rows[j].dom().contains(Column::Id));
            assert(agree(conn.rows[j], conn.rows[k], seq![Column::Id]));
            assert(agree(conn.rows[k], conn.rows[j], seq![Column::Id]));
            if j < k {
                assert(!agree(conn.rows[j], conn.rows[k], seq![Column::Id]));
            } else {
                assert(!agree(conn.rows[k], conn.rows[j], seq![Column::Id]));
            }
        }
    }
    lemma_single_patch(conn.rows, filters, patch, k);
    let rows = seq![conn.rows[k].union_prefer_right(patch)];
    assert(rows.drop_last() =~= Seq::<RecordView>::empty());
    assert(screened::<T, A>(acl, rows.drop_last(), Action::Update, true) == Ok::<
        Seq<T::V>,
        RepoError,
    >(Seq::empty()));
    assert(rows.last() == conn.rows[k].union_prefer_right(patch));
}

/// A delete with no predicate removes every row and returns them all,
/// whatever the relation holds.
pub proof fn lemma_delete_all_rows(t: TableView)
    ensures
        crate::storage::delete_outcome(
            t,
            FilteredOperationView { table: t.name, filters: Map::empty() },
        ) == Ok::<(Seq<RecordView>, Seq<RecordView>), RepoError>((Seq::empty(), t.rows)),
{
    lemma_empty_filter_matches_all(t.rows);
}

/// A delete with no predicate through a repository removes every row and
/// returns the entity of each, in their order, where the caller may delete
/// them all; and fails without removing any where the caller may not.
pub proof fn lemma_delete_all<T: Entity, A: AclEngine<T>>(acl: A, conn: TableView)
    ensures
        match screened::<T, A>(acl, conn.rows, Action::Delete, true) {
            Ok(entries) => delete_spec::<T, A>(conn.name, acl, conn, Map::empty()) == Ok::<
                (Seq<RecordView>, Seq<T::V>),
                RepoError,
            >((Seq::empty(), entries)) && entries.len() == conn.rows.len(),
            Err(e) => delete_spec::<T, A>(conn.name, acl, conn, Map::empty()) == Err::<
                (Seq<RecordView>, Seq<T::V>),
                RepoError,
            >(e),
        },
{
    lemma_empty_filter_matches_all(conn.rows);
    if screened::<T, A>(acl, conn.rows, Action::Delete, true) is Ok {
        lemma_strict_keeps_all::<T, A>(acl, conn.rows, Action::Delete);
    }
}

/// A caller whose every grant is that of the manager of one store cannot
/// manage what belongs to another store.
pub proof fn lemma_manager_of_another_store(grants: Seq<RoleEntry>, managed: StoreId, owner: StoreId)
    requires
        forall|i: int|
            0 <= i < grants.len() ==> (#[trigger] grants[i]).role == UserRole::StoreManager(managed),
        managed != owner,
    ensures
        !may_manage(grants, owner),
{
    assert forall|i: int| 0 <= i < grants.len() implies !grant_covers(#[trigger] grants[i], owner) by {
        assert(grants[i].role == UserRole::StoreManager(managed));
    }
}

/// A caller without any grant can manage nothing.
pub proof fn lemma_no_grant_manages_nothing(owner: StoreId)
    ensures
        !may_manage(Seq::<RoleEntry>::empty(), owner),
{
}

/// A superadmin can manage what belongs to any store, and so can the manager
/// of a store what belongs to that store, whatever other grants there are.
pub proof fn lemma_sufficient_grant(grants: Seq<RoleEntry>, i: int, owner: StoreId)
    requires
        0 <= i < grants.len(),
        grants[i].role is Superadmin || grants[i].role == UserRole::StoreManager(owner),
    ensures
        may_manage(grants, owner),
{
    assert(grant_covers(grants[i], owner));
}

/// A warehouse that belongs to a store is hidden from the manager of another
/// store: asking for exactly the warehouse of its identifier, such a caller
/// gets `NotFound`, as if there were no such warehouse, and not `Forbidden`.
pub proof fn lemma_foreign_warehouse_is_not_found(
    login: UserLogin,
    conn: TableView,
    k: int,
    managed: StoreId,
)
    requires
        conn.name == crate::repos::warehouses::TABLE@,
        consistent(conn.rows, conn.uniques),
        is_constraint(conn.uniques, seq![Column::Id]),
        0 <= k < conn.rows.len(),
        DbWarehouse::decode(conn.rows[k]) is Some,
        forall|i: int|
            0 <= i < login.grants().len() ==> (#[trigger] login.grants()[i]).role
                == UserRole::StoreManager(managed),
        managed != DbWarehouse::decode(conn.rows[k])->0.store_id,
    ensures
        exactly_one(
            select_spec::<DbWarehouse, WarehouseAcl>(
                crate::repos::warehouses::TABLE@,
                warehouse_acl(&login),
                conn,
                only(Column::Id, ValueView::Uuid(DbWarehouse::decode(conn.rows[k])->0.id.0)),
            ),
        ) == Err::<WarehouseView, RepoError>(RepoError::NotFound),
{
    let w = DbWarehouse::decode(conn.rows[k])->0;
    lemma_manager_of_another_store(login.grants(), managed, w.store_id);
    lemma_hidden_is_not_found::<DbWarehouse, WarehouseAcl>(warehouse_acl(&login), conn, k);
}

/// A patch of a warehouse leaves a warehouse: the patched row of a warehouse
/// holds a warehouse with the same identifier and the same store.
pub proof fn lemma_patched_warehouse(row: RecordView, data: WarehouseUpdateData)
    requires
        DbWarehouse::decode(row) is Some,
    ensures
        DbWarehouse::decode(row.union_prefer_right(record_of(&data))) is Some,
        DbWarehouse::decode(row.union_prefer_right(record_of(&data)))->0.id == DbWarehouse::decode(
            row,
        )->0.id,
        DbWarehouse::decode(row.union_prefer_right(record_of(&data)))->0.store_id
            == DbWarehouse::decode(row)->0.store_id,
{
    let patch = record_of(&data);
    let after = row.union_prefer_right(patch);
    assert(warehouse_typed(row));
    assert forall|c: Column| #[trigger] after.contains_key(c) == (row.contains_key(c)
        || data.cell_spec(c) is Some) by {}
    assert forall|c: Column| data.cell_spec(c) is Some implies #[trigger] after[c] == data.cell_spec(
        c,
    )->0 by {}
    assert forall|c: Column| data.cell_spec(c) is None && row.contains_key(c) implies #[trigger] after[c]
        == row[c] by {}
    assert(warehouse_typed(after));
}

/// The manager of another store cannot change a warehouse: an update of the
/// warehouse of an identifier by such a caller ends in `Forbidden`, whatever
/// the patch. Nothing is stored: the repository leaves the relation as it was
/// on every error.
pub proof fn lemma_foreign_warehouse_update_is_forbidden(
    login: UserLogin,
    conn: TableView,
    k: int,
    managed: StoreId,
    data: WarehouseUpdateData,
)
    requires
        conn.name == crate::repos::warehouses::TABLE@,
        consistent(conn.rows, conn.uniques),
        is_constraint(conn.uniques, seq![Column::Id]),
        0 <= k < conn.rows.len(),
        DbWarehouse::decode(conn.rows[k]) is Some,
        forall|i: int|
            0 <= i < login.grants().len() ==> (#[trigger] login.grants()[i]).role
                == UserRole::StoreManager(managed),
        managed != DbWarehouse::decode(conn.rows[k])->0.store_id,
    ensures
        update_spec::<DbWarehouse, WarehouseAcl>(
            warehouse_acl(&login),
            conn,
            UpdateView {
                table: crate::repos::warehouses::TABLE@,
                filters: only(
                    Column::Id,
                    ValueView::Uuid(DbWarehouse::decode(conn.rows[k])->0.id.0),
                ),
                values: record_of(&data),
            },
        ) == Err::<(Seq<RecordView>, Seq<WarehouseView>), RepoError>(RepoError::Forbidden),
{
    let w = DbWarehouse::decode(conn.rows[k])->0;
    lemma_manager_of_another_store(login.grants(), managed, w.store_id);
    lemma_patched_warehouse(conn.rows[k], data);
    lemma_denied_update_is_forbidden::<DbWarehouse, WarehouseAcl>(
        warehouse_acl(&login),
        conn,
        record_of(&data),
        k,
    );
}

/// A warehouse that a caller has inserted is found by its identifier: the
/// select returns exactly that warehouse. Who may insert a warehouse may see
/// it.
pub proof fn lemma_inserted_warehouse_is_found(login: UserLogin, conn: TableView, w: WarehouseView)
    requires
        is_constraint(conn.uniques, seq![Column::Id]),
        insert_spec::<DbWarehouse, WarehouseAcl>(
            warehouse_acl(&login),
            conn,
            InsertView { table: conn.name, values: warehouse_row(w), extra: None },
        ) is Ok,
    ensures
        insert_spec::<DbWarehouse, WarehouseAcl>(
            warehouse_acl(&login),
            conn,
            InsertView { table: conn.name, values: warehouse_row(w), extra: None },
        )->Ok_0.1 == w,
        select_spec::<DbWarehouse, WarehouseAcl>(
            conn.name,
            warehouse_acl(&login),
            with_rows(
                conn,
                insert_spec::<DbWarehouse, WarehouseAcl>(
                    warehouse_acl(&login),
                    conn,
                    InsertView { table: conn.name, values: warehouse_row(w), extra: None },
                )->Ok_0.0,
            ),
            only(Column::Id, ValueView::Uuid(w.id.0)),
        ) == Ok::<Seq<WarehouseView>, RepoError>(seq![w]),
{
    let acl = warehouse_acl(&login);
    let op = InsertView { table: conn.name, values: warehouse_row(w), extra: None };
    lemma_warehouse_row_decodes(w);
    lemma_strict_keeps_all::<DbWarehouse, WarehouseAcl>(acl, seq![warehouse_row(w)], Action::Insert);
    assert(seq![warehouse_row(w)][0] == warehouse_row(w));
    lemma_insert_then_select::<DbWarehouse, WarehouseAcl>(acl, conn, op);
}

/// The statement that sets the stock record of a product in a warehouse.
pub open spec fn stock_insert(table: Seq<char>, stock: Stock) -> InsertView {
    insert_of(table, DbStock(stock))
}

/// The predicates that select the stock record of a product in a warehouse.
pub open spec fn stock_key(stock: Stock) -> RecordView {
    Map::empty().insert(Column::WarehouseId, ValueView::Uuid(stock.warehouse_id.0)).insert(
        Column::ProductId,
        ValueView::Int(stock.product_id.0),
    )
}

/// Whether a row is the stock record of the warehouse and product of
/// `stock`.
pub open spec fn holds_key(row: RecordView, stock: Stock) -> bool {
    &&& cell(row, Column::WarehouseId) == Some(ValueView::Uuid(stock.warehouse_id.0))
    &&& cell(row, Column::ProductId) == Some(ValueView::Int(stock.product_id.0))
}

/// Holding the key of a stock record is agreeing with its row on the target
/// of the conflict clause, and is holding the predicates of its key.
pub proof fn lemma_holds_key(row: RecordView, stock: Stock)
    ensures
        holds_key(row, stock) <==> agree(row, stock_row(stock), stock_conflict().target),
        holds_key(row, stock) <==> stock_key(stock).submap_of(row),
{
    let target = stock_conflict().target;
    assert(target[0] == Column::WarehouseId);
    assert(target[1] == Column::ProductId);
    if holds_key(row, stock) {
        assert(agree(row, stock_row(stock), target));
        assert(stock_key(stock).submap_of(row));
    }
    if agree(row, stock_row(stock), target) {
        assert(cell(row, target[0]) == cell(stock_row(stock), target[0]));
        assert(cell(row, target[1]) == cell(stock_row(stock), target[1]));
    }
    if stock_key(stock).submap_of(row) {
        assert(stock_key(stock).dom().contains(Column::WarehouseId));
        assert(stock_key(stock).dom().contains(Column::ProductId));
        assert(row.dom().contains(Column::WarehouseId));
        assert(row.dom().contains(Column::ProductId));
    }
}

/// After a stock record has been set, the relation holds a record for its
/// warehouse and product: the one that was returned.
pub proof fn lemma_set_stock_is_there(t: TableView, stock: Stock) -> (k: int)
    requires
        insert_outcome(t, stock_insert(t.name, stock)) is Ok,
    ensures
        0 <= k < insert_outcome(t, stock_insert(t.name, stock))->Ok_0.0.len(),
        insert_outcome(t, stock_insert(t.name, stock))->Ok_0.0[k] == insert_outcome(
            t,
            stock_insert(t.name, stock),
        )->Ok_0.1,
        holds_key(insert_outcome(t, stock_insert(t.name, stock))->Ok_0.1, stock),
        cell(insert_outcome(t, stock_insert(t.name, stock))->Ok_0.1, Column::Quantity) == Some(
            ValueView::Int(stock.quantity.0),
        ),
        insert_outcome(t, stock_insert(t.name, stock))->Ok_0.0.len() >= t.rows.len(),
{
    let op = stock_insert(t.name, stock);
    let target = stock_conflict().target;
    let k = lemma_inserted_row_is_there(t.rows, op);
    let i = first_agreeing(t.rows, op.values, target, 0);
    lemma_first_agreeing(t.rows, op.values, target, 0);
    let row = insert_candidate(t.rows, op).1;
    assert(stock_conflict().overwrite.contains(Column::Quantity)) by {
        assert(stock_conflict().overwrite[0] == Column::Quantity);
    }
    if i < t.rows.len() {
        lemma_holds_key(t.rows[i], stock);
        let patch = overwriting(op.values, stock_conflict().overwrite);
        assert(!patch.contains_key(Column::WarehouseId)) by {
            if stock_conflict().overwrite.contains(Column::WarehouseId) {
                let m = choose|m: int|
                    0 <= m < stock_conflict().overwrite.len() && stock_conflict().overwrite[m]
                        == Column::WarehouseId;
                assert(false);
            }
        }
        assert(!patch.contains_key(Column::ProductId)) by {
            if stock_conflict().overwrite.contains(Column::ProductId) {
                let m = choose|m: int|
                    0 <= m < stock_conflict().overwrite.len() && stock_conflict().overwrite[m]
                        == Column::ProductId;
                assert(false);
            }
        }
        assert(patch.contains_key(Column::Quantity));
    }
    k
}

/// Setting the stock of a product in a warehouse twice leaves one record
/// for the pair, with the quantity of the second time.
///
/// If the first insert goes through, so does the second; the second adds no
/// row; afterwards the select for the warehouse and the product returns
/// exactly the row that the second insert returned; that row holds the
/// second quantity, and it has kept the identifier that it had after the
/// first insert.
pub proof fn lemma_upsert_overwrites(t: TableView, first: Stock, second: Stock)
    requires
        t.uniques == stocks_uniques(),
        first.warehouse_id == second.warehouse_id,
        first.product_id == second.product_id,
        insert_outcome(t, stock_insert(t.name, first)) is Ok,
    ensures
        ({
            let (rows1, row1) = insert_outcome(t, stock_insert(t.name, first))->Ok_0;
            let again = insert_outcome(with_rows(t, rows1), stock_insert(t.name, second));
            &&& again is Ok
            &&& again->Ok_0.0.len() == rows1.len()
            &&& matching(again->Ok_0.0, stock_key(second)) == seq![again->Ok_0.1]
            &&& cell(again->Ok_0.1, Column::Quantity) == Some(ValueView::Int(second.quantity.0))
            &&& cell(again->Ok_0.1, Column::Id) == cell(row1, Column::Id)
        }),
{
    let target = stock_conflict().target;
    let op1 = stock_insert(t.name, first);
    let op2 = stock_insert(t.name, second);
    let (rows1, row1) = insert_outcome(t, op1)->Ok_0;
    let t1 = with_rows(t, rows1);
    let k1 = lemma_set_stock_is_there(t, first);
    assert(target[0] == Column::WarehouseId);
    assert(target[1] == Column::ProductId);
    assert(stocks_uniques()[1] =~= target);
    assert(is_constraint(t.uniques, target));
    assert(stocks_uniques()[0] =~= seq![Column::Id]);
    assert(unique_on(rows1, stocks_uniques()[1]));
    assert(unique_on(rows1, stocks_uniques()[0]));

    // the second insert meets the row of the first
    lemma_holds_key(rows1[k1], second);
    let i2 = first_agreeing(rows1, op2.values, target, 0);
    lemma_first_agreeing(rows1, op2.values, target, 0);
    assert(i2 <= k1) by {
        if i2 > k1 {
            assert(!agree(rows1[k1], op2.values, target));
        }
    }
    lemma_holds_key(rows1[i2], second);
    assert(i2 == k1) by {
        if i2 < k1 {
            assert(agree(rows1[i2], rows1[k1], target));
            assert(!agree(rows1[i2], rows1[k1], target));
        }
    }
    let patch = overwriting(op2.values, stock_conflict().overwrite);
    assert(stock_conflict().overwrite.contains(Column::Quantity)) by {
        assert(stock_conflict().overwrite[0] == Column::Quantity);
    }
    assert forall|c: Column| c != Column::Quantity implies !patch.contains_key(c) by {
        if stock_conflict().overwrite.contains(c) {
            let m = choose|m: int|
                0 <= m < stock_conflict().overwrite.len() && stock_conflict().overwrite[m] == c;
            assert(false);
        }
    }
    let row2 = rows1[i2].union_prefer_right(patch);
    let rows2 = rows1.update(i2, row2);
    assert(insert_candidate(rows1, op2) == (rows2, row2));
    assert forall|c: Column| c != Column::Quantity implies cell(row2, c) == cell(rows1[i2], c) by {}

    // the rows keep the constraints
    assert(unique_on(rows2, stocks_uniques()[0])) by {
        let u = stocks_uniques()[0];
        assert(u[0] == Column::Id);
        assert forall|a: int, b: int| 0 <= a < b < rows2.len() implies !agree(
            #[trigger] rows2[a],
            #[trigger] rows2[b],
            u,
        ) by {
            assert(!agree(rows1[a], rows1[b], u));
            let m = choose|m: int|
                0 <= m < u.len() && cell(rows1[a], #[trigger] u[m]) != cell(rows1[b], u[m]);
            assert(cell(rows2[a], u[m]) == cell(rows1[a], u[m]));
            assert(cell(rows2[b], u[m]) == cell(rows1[b], u[m]));
        }
    }
    assert(unique_on(rows2, stocks_uniques()[1])) by {
        let u = stocks_uniques()[1];
        assert forall|a: int, b: int| 0 <= a < b < rows2.len() implies !agree(
            #[trigger] rows2[a],
            #[trigger] rows2[b],
            u,
        ) by {
            assert(!agree(rows1[a], rows1[b], u));
            let m = choose|m: int|
                0 <= m < u.len() && cell(rows1[a], #[trigger] u[m]) != cell(rows1[b], u[m]);
            assert(u[m] != Column::Quantity);
            assert(cell(rows2[a], u[m]) == cell(rows1[a], u[m]));
            assert(cell(rows2[b], u[m]) == cell(rows1[b], u[m]));
        }
    }
    assert(consistent(rows2, t1.uniques)) by {
        assert forall|u: int| 0 <= u < t1.uniques.len() implies unique_on(
            rows2,
            #[trigger] t1.uniques[u],
        ) by {
            if u == 0 {
            } else {
                assert(u == 1);
            }
        }
    }
    assert(insert_refused(t1, op2) is None);
    assert(insert_outcome(t1, op2) == Ok::<(Seq<RecordView>, RecordView), RepoError>((rows2, row2)));

    // one row for the pair
    assert(holds_key(row2, second));
    lemma_holds_key(row2, second);
    assert(rows2[i2] == row2);
    assert forall|j: int| 0 <= j < rows2.len() && j != i2 implies !stock_key(second).submap_of(
        #[trigger] rows2[j],
    ) by {
        lemma_holds_key(rows2[j], second);
        if stock_key(second).submap_of(rows2[j]) {
            assert(agree(rows2[j], rows2[i2], target));
            assert(agree(rows2[i2], rows2[j], target));
            if j < i2 {
                assert(!agree(rows2[j], rows2[i2], stocks_uniques()[1]));
            } else {
                assert(!agree(rows2[i2], rows2[j], stocks_uniques()[1]));
            }
        }
    }
    lemma_single_match(rows2, stock_key(second), i2);
}

/// Setting the stock of a product in a warehouse twice through a
/// repository leaves one record for the pair, with the quantity of the second
/// time: no duplicate is made.
///
/// If the first insert goes through, and the caller may insert and see the
/// record with the second quantity, then the second insert goes through as
/// well; it returns the record of the first insert with the second quantity
/// in place of the first, under the identifier that the first insert
/// returned; and a select for the warehouse and the product returns that
/// record and no other.
pub proof fn lemma_upsert_through_repository<A: AclEngine<DbStock>>(
    acl: A,
    t: TableView,
    first: Stock,
    second: Stock,
)
    requires
        t.uniques == stocks_uniques(),
        first.warehouse_id == second.warehouse_id,
        first.product_id == second.product_id,
        insert_spec::<DbStock, A>(acl, t, stock_insert(t.name, first)) is Ok,
        acl.verdict(
            Stock {
                quantity: second.quantity,
                ..insert_spec::<DbStock, A>(acl, t, stock_insert(t.name, first))->Ok_0.1
            },
            Action::Insert,
        ) == Ok::<bool, RepoError>(true),
        acl.verdict(
            Stock {
                quantity: second.quantity,
                ..insert_spec::<DbStock, A>(acl, t, stock_insert(t.name, first))->Ok_0.1
            },
            Action::Select,
        ) == Ok::<bool, RepoError>(true),
    ensures
        ({
            let (rows1, stored) = insert_spec::<DbStock, A>(acl, t, stock_insert(t.name, first))->Ok_0;
            let again = insert_spec::<DbStock, A>(
                acl,
                with_rows(t, rows1),
                stock_insert(t.name, second),
            );
            &&& again is Ok
            &&& again->Ok_0.0.len() == rows1.len()
            &&& again->Ok_0.1 == Stock { quantity: second.quantity, ..stored }
            &&& stored.warehouse_id == first.warehouse_id
            &&& stored.product_id == first.product_id
            &&& select_spec::<DbStock, A>(
                t.name,
                acl,
                with_rows(t, again->Ok_0.0),
                stock_key(second),
            ) == Ok::<Seq<Stock>, RepoError>(seq![again->Ok_0.1])
        }),
{
    let op1 = stock_insert(t.name, first);
    let op2 = stock_insert(t.name, second);
    let (rows1, row1) = insert_candidate(t.rows, op1);
    let stored = insert_spec::<DbStock, A>(acl, t, op1)->Ok_0.1;
    let t1 = with_rows(t, rows1);

    // the first insert, seen from the store
    assert(insert_outcome(t, op1) == Ok::<(Seq<RecordView>, RecordView), RepoError>((rows1, row1)));
    lemma_strict_keeps_all::<DbStock, A>(acl, seq![row1], Action::Insert);
    assert(seq![row1][0] == row1);
    assert(DbStock::decode(row1) == Some(stored));
    let k1 = lemma_set_stock_is_there(t, first);
    assert(holds_key(row1, first));

    // the second insert, seen from the store
    lemma_upsert_overwrites(t, first, second);
    let (rows2, row2) = insert_outcome(t1, op2)->Ok_0;
    assert((rows2, row2) == insert_candidate(rows1, op2));
    let target = stock_conflict().target;
    let i2 = first_agreeing(rows1, op2.values, target, 0);
    lemma_first_agreeing(rows1, op2.values, target, 0);
    lemma_holds_key(rows1[k1], second);
    assert(i2 <= k1) by {
        if i2 > k1 {
            assert(!agree(rows1[k1], op2.values, target));
        }
    }
    lemma_holds_key(rows1[i2], second);
    assert(stocks_uniques()[1] =~= target);
    assert(unique_on(rows1, stocks_uniques()[1]));
    assert(i2 == k1) by {
        if i2 < k1 {
            assert(agree(rows1[i2], rows1[k1], target));
            assert(!agree(rows1[i2], rows1[k1], target));
        }
    }
    let patch = overwriting(op2.values, stock_conflict().overwrite);
    assert(stock_conflict().overwrite.contains(Column::Quantity)) by {
        assert(stock_conflict().overwrite[0] == Column::Quantity);
    }
    assert forall|c: Column| c != Column::Quantity implies !patch.contains_key(c) by {
        if stock_conflict().overwrite.contains(c) {
            let m = choose|m: int|
                0 <= m < stock_conflict().overwrite.len() && stock_conflict().overwrite[m] == c;
            assert(false);
        }
    }
    assert(row2 == row1.union_prefer_right(patch));
    let expected = Stock { quantity: second.quantity, ..stored };
    assert(DbStock::decode(row2) == Some(expected));

    // through the repository
    lemma_one_row_released::<DbStock, A>(acl, row2, Action::Insert, true);
    assert(insert_refused(t1, op2) is None);
    assert(consistent(rows2, t1.uniques));
    assert(seq![expected][0] == expected);
    lemma_one_row_released::<DbStock, A>(acl, row2, Action::Select, false);
}

} // verus!
