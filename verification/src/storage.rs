//! Relations and counters: the store that statements run against.
//!
//! A relation keeps its rows in the order in which they were inserted, and
//! keeps its uniqueness constraints at all times. What a statement does to a
//! relation is a function of the relation and the statement; the functions
//! here, named `*_outcome`, say what it is.

use vstd::prelude::*;
use crate::errors::{RepoError, StorageFault};
use crate::schema::Column;
use crate::statement::{
    FilteredOperationBuilder, FilteredOperationView, InsertBuilder, InsertView, OnConflictView,
    UpdateBuilder, UpdateView,
};
use crate::value::{views, Record, RecordView, ValueView};

verus! {

/// What a record holds in a column: the value, or nothing.
pub open spec fn cell(row: RecordView, column: Column) -> Option<ValueView> {
    if row.contains_key(column) {
        Some(row[column])
    } else {
        None
    }
}

/// Whether two records hold the same in each of the columns.
pub open spec fn agree(a: RecordView, b: RecordView, columns: Seq<Column>) -> bool {
    forall|k: int| 0 <= k < columns.len() ==> cell(a, #[trigger] columns[k]) == cell(b, columns[k])
}

/// Whether no two rows hold the same in each of the columns.
pub open spec fn unique_on(rows: Seq<RecordView>, columns: Seq<Column>) -> bool {
    forall|i: int, j: int|
        0 <= i < j < rows.len() ==> !agree(#[trigger] rows[i], #[trigger] rows[j], columns)
}

/// Whether the rows keep every uniqueness constraint.
pub open spec fn consistent(rows: Seq<RecordView>, uniques: Seq<Seq<Column>>) -> bool {
    forall|u: int| 0 <= u < uniques.len() ==> unique_on(rows, #[trigger] uniques[u])
}

/// The rows that hold every predicate of `filters`, in their order.
pub open spec fn matching(rows: Seq<RecordView>, filters: RecordView) -> Seq<RecordView>
    decreases rows.len(),
{
    if rows.len() == 0 {
        Seq::empty()
    } else if filters.submap_of(rows.last()) {
        matching(rows.drop_last(), filters).push(rows.last())
    } else {
        matching(rows.drop_last(), filters)
    }
}

/// The rows that fail some predicate of `filters`, in their order.
pub open spec fn excluding(rows: Seq<RecordView>, filters: RecordView) -> Seq<RecordView>
    decreases rows.len(),
{
    if rows.len() == 0 {
        Seq::empty()
    } else if filters.submap_of(rows.last()) {
        excluding(rows.drop_last(), filters)
    } else {
        excluding(rows.drop_last(), filters).push(rows.last())
    }
}

/// Every row, with the patch applied to those that hold every predicate.
pub open spec fn patched_all(rows: Seq<RecordView>, filters: RecordView, patch: RecordView) -> Seq<
    RecordView,
>
    decreases rows.len(),
{
    if rows.len() == 0 {
        Seq::empty()
    } else if filters.submap_of(rows.last()) {
        patched_all(rows.drop_last(), filters, patch).push(rows.last().union_prefer_right(patch))
    } else {
        patched_all(rows.drop_last(), filters, patch).push(rows.last())
    }
}

/// The rows that hold every predicate, each with the patch applied.
pub open spec fn patched_matching(
    rows: Seq<RecordView>,
    filters: RecordView,
    patch: RecordView,
) -> Seq<RecordView>
    decreases rows.len(),
{
    if rows.len() == 0 {
        Seq::empty()
    } else if filters.submap_of(rows.last()) {
        patched_matching(rows.drop_last(), filters, patch).push(
            rows.last().union_prefer_right(patch),
        )
    } else {
        patched_matching(rows.drop_last(), filters, patch)
    }
}

/// The first position from `from` on whose row agrees with `values` on the
/// columns; the number of rows if there is none.
pub open spec fn first_agreeing(
    rows: Seq<RecordView>,
    values: RecordView,
    columns: Seq<Column>,
    from: int,
) -> int
    decreases rows.len() - from,
{
    if from < 0 || from >= rows.len() {
        rows.len() as int
    } else if agree(rows[from], values, columns) {
        from
    } else {
        first_agreeing(rows, values, columns, from + 1)
    }
}

/// The part of `values` that a conflict clause writes over the stored row:
/// the columns of `overwrite` that `values` holds.
pub open spec fn overwriting(values: RecordView, overwrite: Seq<Column>) -> RecordView {
    Map::new(|c: Column| values.contains_key(c) && overwrite.contains(c), |c: Column| values[c])
}

/// The model of a [`Table`].
pub struct TableView {
    pub name: Seq<char>,
    pub uniques: Seq<Seq<Column>>,
    pub rows: Seq<RecordView>,
}

/// What a select returns: the matching rows; a storage error where the
/// statement names another relation.
pub open spec fn select_outcome(t: TableView, op: FilteredOperationView) -> Result<
    Seq<RecordView>,
    RepoError,
> {
    if op.table != t.name {
        Err(RepoError::Storage(StorageFault::UnknownRelation))
    } else {
        Ok(matching(t.rows, op.filters))
    }
}

/// Whether `target` is one of the uniqueness constraints.
pub open spec fn is_constraint(uniques: Seq<Seq<Column>>, target: Seq<Column>) -> bool {
    exists|u: int| 0 <= u < uniques.len() && #[trigger] uniques[u] == target
}

/// The rows after an insert, and the row that the insert returns, before
/// the constraints are looked at.
///
/// Where the statement has a conflict clause and a stored row agrees with the
/// new one on the clause's target, the first such row takes the new values of
/// the columns to overwrite and is returned. Otherwise the new row is added
/// at the end and returned.
pub open spec fn insert_candidate(rows: Seq<RecordView>, op: InsertView) -> (
    Seq<RecordView>,
    RecordView,
) {
    match op.extra {
        Some(c) if first_agreeing(rows, op.values, c.target, 0) < rows.len() => {
            let i = first_agreeing(rows, op.values, c.target, 0);
            let row = rows[i].union_prefer_right(overwriting(op.values, c.overwrite));
            (rows.update(i, row), row)
        },
        _ => (rows.push(op.values), op.values),
    }
}

/// Why the relation refuses an insert before looking at any row: a storage
/// error where the statement names another relation, or its conflict clause
/// names a target that is no uniqueness constraint of the relation.
pub open spec fn insert_refused(t: TableView, op: InsertView) -> Option<RepoError> {
    if op.table != t.name {
        Some(RepoError::Storage(StorageFault::UnknownRelation))
    } else if op.extra is Some && !is_constraint(t.uniques, op.extra->0.target) {
        Some(RepoError::Storage(StorageFault::NoSuchConstraint))
    } else {
        None
    }
}

/// The rows after an update and the patched rows, which it returns, before
/// the constraints are looked at.
pub open spec fn update_candidate(rows: Seq<RecordView>, op: UpdateView) -> (
    Seq<RecordView>,
    Seq<RecordView>,
) {
    (patched_all(rows, op.filters, op.values), patched_matching(rows, op.filters, op.values))
}

/// The rows that stay after a delete and the removed rows, which it returns.
pub open spec fn delete_candidate(rows: Seq<RecordView>, filters: RecordView) -> (
    Seq<RecordView>,
    Seq<RecordView>,
) {
    (excluding(rows, filters), matching(rows, filters))
}

/// What an insert does: the rows afterwards, and the row returned. A
/// constraint violation where the rows afterwards would break a constraint.
pub open spec fn insert_outcome(t: TableView, op: InsertView) -> Result<
    (Seq<RecordView>, RecordView),
    RepoError,
> {
    match insert_refused(t, op) {
        Some(e) => Err(e),
        None => if !consistent(insert_candidate(t.rows, op).0, t.uniques) {
            Err(RepoError::ConstraintViolation)
        } else {
            Ok(insert_candidate(t.rows, op))
        },
    }
}

/// What an update does: the rows afterwards, and the patched rows, which it
/// returns. A storage error where the statement names another relation; a
/// constraint violation where the rows afterwards would break a constraint.
pub open spec fn update_outcome(t: TableView, op: UpdateView) -> Result<
    (Seq<RecordView>, Seq<RecordView>),
    RepoError,
> {
    if op.table != t.name {
        Err(RepoError::Storage(StorageFault::UnknownRelation))
    } else if !consistent(update_candidate(t.rows, op).0, t.uniques) {
        Err(RepoError::ConstraintViolation)
    } else {
        Ok(update_candidate(t.rows, op))
    }
}

/// What a delete does: the rows that stay, and the removed rows, which it
/// returns. A storage error where the statement names another relation.
pub open spec fn delete_outcome(t: TableView, op: FilteredOperationView) -> Result<
    (Seq<RecordView>, Seq<RecordView>),
    RepoError,
> {
    if op.table != t.name {
        Err(RepoError::Storage(StorageFault::UnknownRelation))
    } else {
        Ok(delete_candidate(t.rows, op.filters))
    }
}

/// One step of a walk through a sequence from the front.
pub proof fn lemma_take_step<A>(s: Seq<A>, i: int)
    requires
        0 <= i < s.len(),
    ensures
        s.take(i + 1).drop_last() == s.take(i),
        s.take(i + 1).last() == s[i],
        s.take(i + 1).len() == i + 1,
{
    assert(s.take(i + 1).drop_last() =~= s.take(i));
}

/// Whether two texts are the same.
pub fn same_text(a: &str, b: &str) -> (same: bool)
    ensures
        same == (a@ == b@),
{
    let x: String = a.to_owned();
    let y: String = b.to_owned();
    x == y
}

/// Whether two records hold the same in each of the columns.
pub fn records_agree(a: &Record, b: &Record, columns: &Vec<Column>) -> (same: bool)
    ensures
        same == agree(a@, b@, columns@),
{
    let mut k: usize = 0;
    while k < columns.len()
        invariant
            k <= columns.len(),
            forall|m: int| 0 <= m < k ==> cell(a@, #[trigger] columns@[m]) == cell(b@, columns@[m]),
        decreases columns.len() - k,
    {
        let c: Column = columns[k];
        let same: bool = match (a.get(c), b.get(c)) {
            (Some(x), Some(y)) => x.equals(y),
            (None, None) => true,
            _ => false,
        };
        if !same {
            assert(cell(a@, columns@[k as int]) != cell(b@, columns@[k as int]));
            return false;
        }
        k = k + 1;
    }
    true
}

/// Whether no two of the rows hold the same in each of the columns.
pub fn rows_unique_on(rows: &Vec<Record>, columns: &Vec<Column>) -> (unique: bool)
    ensures
        unique == unique_on(views(rows@), columns@),
{
    let ghost model = views(rows@);
    let mut j: usize = 0;
    while j < rows.len()
        invariant
            j <= rows.len(),
            model == views(rows@),
            forall|a: int, b: int|
                0 <= a < b < j ==> !agree(#[trigger] model[a], #[trigger] model[b], columns@),
        decreases rows.len() - j,
    {
        let mut i: usize = 0;
        while i < j
            invariant
                i <= j < rows.len(),
                model == views(rows@),
                forall|a: int, b: int|
                    0 <= a < b < j ==> !agree(#[trigger] model[a], #[trigger] model[b], columns@),
                forall|a: int| 0 <= a < i ==> !agree(#[trigger] model[a], model[j as int], columns@),
            decreases j - i,
        {
            if records_agree(&rows[i], &rows[j], columns) {
                assert(agree(model[i as int], model[j as int], columns@));
                return false;
            }
            i = i + 1;
        }
        j = j + 1;
    }
    true
}

/// Whether the rows keep every uniqueness constraint.
pub fn rows_consistent(rows: &Vec<Record>, uniques: &Vec<Vec<Column>>) -> (ok: bool)
    ensures
        ok == consistent(views(rows@), views(uniques@)),
{
    let mut u: usize = 0;
    while u < uniques.len()
        invariant
            u <= uniques.len(),
            forall|m: int|
                0 <= m < u ==> unique_on(views(rows@), #[trigger] views(uniques@)[m]),
        decreases uniques.len() - u,
    {
        assert(views(uniques@)[u as int] == uniques@[u as int]@);
        if !rows_unique_on(rows, &uniques[u]) {
            return false;
        }
        u = u + 1;
    }
    true
}

/// Every row that stays after a delete was there before.
pub proof fn lemma_excluding_members(rows: Seq<RecordView>, filters: RecordView, i: int)
    requires
        0 <= i < excluding(rows, filters).len(),
    ensures
        exists|k: int| 0 <= k < rows.len() && #[trigger] rows[k] == excluding(rows, filters)[i],
    decreases rows.len(),
{
    let init = rows.drop_last();
    if filters.submap_of(rows.last()) {
        lemma_excluding_members(init, filters, i);
        let k = choose|k: int| 0 <= k < init.len() && #[trigger] init[k] == excluding(init, filters)[i];
        assert(rows[k] == excluding(rows, filters)[i]);
    } else if i < excluding(init, filters).len() {
        lemma_excluding_members(init, filters, i);
        let k = choose|k: int| 0 <= k < init.len() && #[trigger] init[k] == excluding(init, filters)[i];
        assert(rows[k] == excluding(rows, filters)[i]);
    } else {
        assert(rows[rows.len() - 1] == excluding(rows, filters)[i]);
    }
}

/// Rows that were unique on some columns stay so when rows are taken out.
pub proof fn lemma_excluding_unique(rows: Seq<RecordView>, filters: RecordView, columns: Seq<Column>)
    requires
        unique_on(rows, columns),
    ensures
        unique_on(excluding(rows, filters), columns),
    decreases rows.len(),
{
    if rows.len() > 0 {
        let init = rows.drop_last();
        assert forall|i: int, j: int| 0 <= i < j < init.len() implies !agree(
            #[trigger] init[i],
            #[trigger] init[j],
            columns,
        ) by {
            assert(!agree(rows[i], rows[j], columns));
        }
        lemma_excluding_unique(init, filters, columns);
        let rest = excluding(init, filters);
        let out = excluding(rows, filters);
        if !filters.submap_of(rows.last()) {
            assert forall|i: int, j: int| 0 <= i < j < out.len() implies !agree(
                #[trigger] out[i],
                #[trigger] out[j],
                columns,
            ) by {
                if j < rest.len() {
                    assert(!agree(rest[i], rest[j], columns));
                } else {
                    lemma_excluding_members(init, filters, i);
                    let k = choose|k: int| 0 <= k < init.len() && #[trigger] init[k] == rest[i];
                    assert(!agree(rows[k], rows[rows.len() - 1], columns));
                }
            }
        }
    }
}

/// A delete leaves rows that keep every constraint that the rows kept.
pub proof fn lemma_excluding_consistent(
    rows: Seq<RecordView>,
    filters: RecordView,
    uniques: Seq<Seq<Column>>,
)
    requires
        consistent(rows, uniques),
    ensures
        consistent(excluding(rows, filters), uniques),
{
    assert forall|u: int| 0 <= u < uniques.len() implies unique_on(
        excluding(rows, filters),
        #[trigger] uniques[u],
    ) by {
        lemma_excluding_unique(rows, filters, uniques[u]);
    }
}

/// The models of the rows that an operation returns, or its error.
pub open spec fn returned(r: Result<Vec<Record>, RepoError>) -> Result<Seq<RecordView>, RepoError> {
    match r {
        Ok(rows) => Ok(views(rows@)),
        Err(e) => Err(e),
    }
}

/// Copies of the rows.
pub fn clone_rows(rows: &Vec<Record>) -> (copy: Vec<Record>)
    ensures
        views(copy@) == views(rows@),
{
    let mut copy: Vec<Record> = Vec::new();
    let mut i: usize = 0;
    while i < rows.len()
        invariant
            i <= rows.len(),
            copy@.len() == i,
            forall|k: int| 0 <= k < i ==> (#[trigger] copy@[k])@ == rows@[k]@,
        decreases rows.len() - i,
    {
        copy.push(rows[i].clone());
        i = i + 1;
    }
    assert(views(copy@) =~= views(rows@));
    copy
}

/// Whether two lists of columns are the same list.
pub fn same_columns(a: &Vec<Column>, b: &Vec<Column>) -> (same: bool)
    ensures
        same == (a@ == b@),
{
    if a.len() != b.len() {
        return false;
    }
    let mut k: usize = 0;
    while k < a.len()
        invariant
            k <= a.len(),
            a.len() == b.len(),
            forall|m: int| 0 <= m < k ==> a@[m] == b@[m],
        decreases a.len() - k,
    {
        if a[k] != b[k] {
            return false;
        }
        k = k + 1;
    }
    assert(a@ =~= b@);
    true
}

/// The columns of `overwrite` that `values` holds, with their values.
pub fn overwriting_record(values: &Record, overwrite: &Vec<Column>) -> (patch: Record)
    ensures
        patch@ == overwriting(values@, overwrite@),
{
    let mut patch = Record::new();
    let mut k: usize = 0;
    while k < overwrite.len()
        invariant
            k <= overwrite.len(),
            patch@ == overwriting(values@, overwrite@.take(k as int)),
        decreases overwrite.len() - k,
    {
        let c: Column = overwrite[k];
        let ghost before = patch@;
        match values.get(c) {
            Some(v) => {
                patch.set(c, v.clone());
            },
            None => {},
        }
        proof {
            let seen = overwrite@.take(k as int);
            let next = overwrite@.take(k as int + 1);
            assert(next =~= seen.push(c));
            assert forall|d: Column| next.contains(d) == (seen.contains(d) || d == c) by {
                if seen.contains(d) {
                    let m = choose|m: int| 0 <= m < seen.len() && seen[m] == d;
                    assert(next[m] == d);
                }
                if d == c {
                    assert(next[k as int] == d);
                }
            }
            assert(patch@ =~= overwriting(values@, next));
        }
        k = k + 1;
    }
    assert(overwrite@.take(overwrite.len() as int) =~= overwrite@);
    patch
}

/// A relation: a name, uniqueness constraints and rows. Whatever is done to
/// it, its rows keep its constraints.
#[derive(Debug)]
pub struct Table {
    name: &'static str,
    uniques: Vec<Vec<Column>>,
    rows: Vec<Record>,
}

impl View for Table {
    type V = TableView;

    closed spec fn view(&self) -> TableView {
        TableView { name: self.name@, uniques: views(self.uniques@), rows: views(self.rows@) }
    }
}

/// The relation with other rows.
pub open spec fn with_rows(t: TableView, rows: Seq<RecordView>) -> TableView {
    TableView { name: t.name, uniques: t.uniques, rows }
}

impl Table {
    #[verifier::type_invariant]
    spec fn well_formed(&self) -> bool {
        consistent(views(self.rows@), views(self.uniques@))
    }

    /// The empty relation of this name and these constraints, each a list of
    /// columns on which no two rows may hold the same.
    pub fn new(name: &'static str, uniques: Vec<Vec<Column>>) -> (t: Table)
        ensures
            t@ == (TableView { name: name@, uniques: views(uniques@), rows: Seq::empty() }),
    {
        let t = Table { name, uniques, rows: Vec::new() };
        assert(t@.rows =~= Seq::empty());
        t
    }

    /// The relation of this name and these constraints that holds `rows`;
    /// a constraint violation where the rows break a constraint.
    pub fn load(name: &'static str, uniques: Vec<Vec<Column>>, rows: Vec<Record>) -> (r: Result<
        Table,
        RepoError,
    >)
        ensures
            consistent(views(rows@), views(uniques@)) ==> r is Ok && r->Ok_0@ == (TableView {
                name: name@,
                uniques: views(uniques@),
                rows: views(rows@),
            }),
            !consistent(views(rows@), views(uniques@)) ==> r == Err::<Table, RepoError>(
                RepoError::ConstraintViolation,
            ),
    {
        if rows_consistent(&rows, &uniques) {
            Ok(Table { name, uniques, rows })
        } else {
            Err(RepoError::ConstraintViolation)
        }
    }

    /// The name of the relation.
    pub fn name(&self) -> (name: &'static str)
        ensures
            name@ == self@.name,
    {
        self.name
    }

    /// How many rows the relation holds.
    pub fn len(&self) -> (n: usize)
        ensures
            n == self@.rows.len(),
    {
        self.rows.len()
    }

    /// Copies of the rows, in their order.
    pub fn rows(&self) -> (rows: Vec<Record>)
        ensures
            views(rows@) == self@.rows,
            consistent(self@.rows, self@.uniques),
    {
        proof {
            use_type_invariant(self);
        }
        clone_rows(&self.rows)
    }

    /// Whether `target` is one of the constraints of the relation.
    fn has_constraint(&self, target: &Vec<Column>) -> (b: bool)
        ensures
            b == is_constraint(self@.uniques, target@),
    {
        let mut u: usize = 0;
        while u < self.uniques.len()
            invariant
                u <= self.uniques.len(),
                forall|m: int| 0 <= m < u ==> #[trigger] views(self.uniques@)[m] != target@,
            decreases self.uniques.len() - u,
        {
            assert(views(self.uniques@)[u as int] == self.uniques@[u as int]@);
            if same_columns(&self.uniques[u], target) {
                return true;
            }
            u = u + 1;
        }
        false
    }

    /// The first row that agrees with `values` on `columns`; the number of
    /// rows if there is none.
    fn find_agreeing(&self, values: &Record, columns: &Vec<Column>) -> (i: usize)
        ensures
            i == first_agreeing(self@.rows, values@, columns@, 0),
            i <= self@.rows.len(),
    {
        let mut i: usize = 0;
        while i < self.rows.len()
            invariant
                i <= self.rows.len(),
                first_agreeing(self@.rows, values@, columns@, 0) == first_agreeing(
                    self@.rows,
                    values@,
                    columns@,
                    i as int,
                ),
            decreases self.rows.len() - i,
        {
            if records_agree(&self.rows[i], values, columns) {
                return i;
            }
            i = i + 1;
        }
        i
    }

    /// What a select returns.
    pub fn select(&self, op: &FilteredOperationBuilder) -> (r: Result<Vec<Record>, RepoError>)
        ensures
            returned(r) == select_outcome(self@, op@),
    {
        if !same_text(op.table, self.name) {
            return Err(RepoError::Storage(StorageFault::UnknownRelation));
        }
        let ghost model = views(self.rows@);
        let mut out: Vec<Record> = Vec::new();
        let mut i: usize = 0;
        assert(views(out@) =~= Seq::<RecordView>::empty());
        while i < self.rows.len()
            invariant
                i <= self.rows.len(),
                model == views(self.rows@),
                views(out@) == matching(model.take(i as int), op@.filters),
            decreases self.rows.len() - i,
        {
            proof {
                lemma_take_step(model, i as int);
            }
            let ghost before = views(out@);
            if self.rows[i].includes(&op.filters) {
                out.push(self.rows[i].clone());
                assert(views(out@) =~= before.push(model[i as int]));
            }
            i = i + 1;
        }
        assert(model.take(self.rows.len() as int) =~= model);
        Ok(out)
    }

    /// What an insert would do, the constraints aside: the rows afterwards
    /// and the row returned. The relation is left as it is.
    pub fn plan_insert(&self, op: &InsertBuilder) -> (r: Result<(Vec<Record>, Record), RepoError>)
        ensures
            match insert_refused(self@, op@) {
                Some(e) => r is Err && r->Err_0 == e,
                None => r is Ok && (views(r->Ok_0.0@), r->Ok_0.1@) == insert_candidate(
                    self@.rows,
                    op@,
                ),
            },
    {
        if !same_text(op.table, self.name) {
            return Err(RepoError::Storage(StorageFault::UnknownRelation));
        }
        let mut rows: Vec<Record> = clone_rows(&self.rows);
        let mut row: Record = op.values.clone();
        let mut added: bool = true;
        match &op.extra {
            Some(c) => {
                if !self.has_constraint(&c.target) {
                    return Err(RepoError::Storage(StorageFault::NoSuchConstraint));
                }
                let i: usize = self.find_agreeing(&op.values, &c.target);
                if i < self.rows.len() {
                    let patch = overwriting_record(&op.values, &c.overwrite);
                    row = self.rows[i].patched(&patch);
                    let ghost before = views(rows@);
                    rows.set(i, row.clone());
                    assert(views(rows@) =~= before.update(i as int, row@));
                    added = false;
                }
            },
            None => {},
        }
        if added {
            let ghost before = views(rows@);
            rows.push(op.values.clone());
            assert(views(rows@) =~= before.push(op@.values));
        }
        Ok((rows, row))
    }

    /// What an update would do, the constraints aside: the rows afterwards
    /// and the rows returned. The relation is left as it is.
    pub fn plan_update(&self, op: &UpdateBuilder) -> (r: Result<
        (Vec<Record>, Vec<Record>),
        RepoError,
    >)
        ensures
            op@.table != self@.name ==> r is Err && r->Err_0 == RepoError::Storage(
                StorageFault::UnknownRelation,
            ),
            op@.table == self@.name ==> r is Ok && (views(r->Ok_0.0@), views(r->Ok_0.1@))
                == update_candidate(self@.rows, op@),
    {
        if !same_text(op.table, self.name) {
            return Err(RepoError::Storage(StorageFault::UnknownRelation));
        }
        let ghost model = views(self.rows@);
        let mut rows: Vec<Record> = Vec::new();
        let mut out: Vec<Record> = Vec::new();
        let mut i: usize = 0;
        assert(views(rows@) =~= Seq::<RecordView>::empty());
        assert(views(out@) =~= Seq::<RecordView>::empty());
        while i < self.rows.len()
            invariant
                i <= self.rows.len(),
                model == views(self.rows@),
                views(rows@) == patched_all(model.take(i as int), op@.filters, op@.values),
                views(out@) == patched_matching(model.take(i as int), op@.filters, op@.values),
            decreases self.rows.len() - i,
        {
            proof {
                lemma_take_step(model, i as int);
            }
            let ghost rows_before = views(rows@);
            let ghost out_before = views(out@);
            if self.rows[i].includes(&op.filters) {
                let row = self.rows[i].patched(&op.values);
                out.push(row.clone());
                rows.push(row);
                assert(views(out@) =~= out_before.push(
                    model[i as int].union_prefer_right(op@.values),
                ));
                assert(views(rows@) =~= rows_before.push(
                    model[i as int].union_prefer_right(op@.values),
                ));
            } else {
                rows.push(self.rows[i].clone());
                assert(views(rows@) =~= rows_before.push(model[i as int]));
            }
            i = i + 1;
        }
        assert(model.take(self.rows.len() as int) =~= model);
        Ok((rows, out))
    }

    /// What a delete would do: the rows that stay and the rows returned.
    /// The relation is left as it is.
    pub fn plan_delete(&self, op: &FilteredOperationBuilder) -> (r: Result<
        (Vec<Record>, Vec<Record>),
        RepoError,
    >)
        ensures
            op@.table != self@.name ==> r is Err && r->Err_0 == RepoError::Storage(
                StorageFault::UnknownRelation,
            ),
            op@.table == self@.name ==> r is Ok && (views(r->Ok_0.0@), views(r->Ok_0.1@))
                == delete_candidate(self@.rows, op@.filters),
            r is Ok ==> consistent(views(r->Ok_0.0@), self@.uniques),
    {
        if !same_text(op.table, self.name) {
            return Err(RepoError::Storage(StorageFault::UnknownRelation));
        }
        let ghost model = views(self.rows@);
        let mut rows: Vec<Record> = Vec::new();
        let mut out: Vec<Record> = Vec::new();
        let mut i: usize = 0;
        assert(views(rows@) =~= Seq::<RecordView>::empty());
        assert(views(out@) =~= Seq::<RecordView>::empty());
        while i < self.rows.len()
            invariant
                i <= self.rows.len(),
                model == views(self.rows@),
                views(rows@) == excluding(model.take(i as int), op@.filters),
                views(out@) == matching(model.take(i as int), op@.filters),
            decreases self.rows.len() - i,
        {
            proof {
                lemma_take_step(model, i as int);
            }
            let ghost rows_before = views(rows@);
            let ghost out_before = views(out@);
            if self.rows[i].includes(&op.filters) {
                out.push(self.rows[i].clone());
                assert(views(out@) =~= out_before.push(model[i as int]));
            } else {
                rows.push(self.rows[i].clone());
                assert(views(rows@) =~= rows_before.push(model[i as int]));
            }
            i = i + 1;
        }
        proof {
            assert(model.take(self.rows.len() as int) =~= model);
            use_type_invariant(self);
            lemma_excluding_consistent(model, op@.filters, views(self.uniques@));
        }
        Ok((rows, out))
    }

    /// Makes `rows` the rows of the relation, if they keep its constraints.
    /// A constraint violation, with the relation left as it was, if they do
    /// not.
    pub fn commit(&mut self, rows: Vec<Record>) -> (r: Result<(), RepoError>)
        ensures
            consistent(views(rows@), old(self)@.uniques) ==> r is Ok && final(self)@ == with_rows(
                old(self)@,
                views(rows@),
            ),
            !consistent(views(rows@), old(self)@.uniques) ==> r == Err::<(), RepoError>(
                RepoError::ConstraintViolation,
            ) && final(self)@ == old(self)@,
    {
        if rows_consistent(&rows, &self.uniques) {
            assert(consistent(views(rows@), views(self.uniques@)));
            self.rows = rows;
            Ok(())
        } else {
            Err(RepoError::ConstraintViolation)
        }
    }

    /// Inserts a row and returns it as it is stored. On an error the
    /// relation is left as it was.
    pub fn insert(&mut self, op: &InsertBuilder) -> (r: Result<Record, RepoError>)
        ensures
            match insert_outcome(old(self)@, op@) {
                Ok((rows, row)) => r is Ok && r->Ok_0@ == row && final(self)@ == with_rows(
                    old(self)@,
                    rows,
                ),
                Err(e) => r is Err && r->Err_0 == e && final(self)@ == old(self)@,
            },
    {
        match self.plan_insert(op) {
            Ok((rows, row)) => match self.commit(rows) {
                Ok(()) => Ok(row),
                Err(e) => Err(e),
            },
            Err(e) => Err(e),
        }
    }

    /// Patches the rows that the statement selects and returns them as they
    /// are afterwards. On an error the relation is left as it was.
    pub fn update(&mut self, op: &UpdateBuilder) -> (r: Result<Vec<Record>, RepoError>)
        ensures
            match update_outcome(old(self)@, op@) {
                Ok((rows, patched)) => returned(r) == Ok::<Seq<RecordView>, RepoError>(patched)
                    && final(self)@ == with_rows(old(self)@, rows),
                Err(e) => r is Err && r->Err_0 == e && final(self)@ == old(self)@,
            },
    {
        match self.plan_update(op) {
            Ok((rows, patched)) => match self.commit(rows) {
                Ok(()) => Ok(patched),
                Err(e) => Err(e),
            },
            Err(e) => Err(e),
        }
    }

    /// Removes the rows that the statement selects and returns them. On an
    /// error the relation is left as it was.
    pub fn delete(&mut self, op: &FilteredOperationBuilder) -> (r: Result<Vec<Record>, RepoError>)
        ensures
            match delete_outcome(old(self)@, op@) {
                Ok((rows, removed)) => returned(r) == Ok::<Seq<RecordView>, RepoError>(removed)
                    && final(self)@ == with_rows(old(self)@, rows),
                Err(e) => r is Err && r->Err_0 == e && final(self)@ == old(self)@,
            },
    {
        match self.plan_delete(op) {
            Ok((rows, removed)) => match self.commit(rows) {
                Ok(()) => Ok(removed),
                Err(e) => Err(e),
            },
            Err(e) => Err(e),
        }
    }
}

} // verus!
