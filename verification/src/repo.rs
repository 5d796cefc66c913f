//! The filtered repository: select, insert, update and delete of entities of
//! any shape, each result screened by an access-control policy before it is
//! released or committed.

use vstd::prelude::*;
use core::marker::PhantomData;
use crate::acl::{AclEngine, Action, SystemACL};
use crate::errors::{RepoError, StorageFault};
use crate::statement::{
    Filter, FilteredOperationView, InsertView, Inserter, UpdateView, Updater,
};
use crate::storage::{
    consistent, delete_candidate, insert_candidate, insert_refused, select_outcome,
    update_candidate, with_rows, Table, TableView,
};
use crate::value::{views, Record, RecordView};

verus! {

/// A storable record type: it can be read from a row.
pub trait Entity: Sized + View {
    /// The entity that a row holds, if the row holds one.
    spec fn decode(row: RecordView) -> Option<Self::V>;

    /// Reads the entity from a row; `None` where the row lacks a column of
    /// the entity, or holds a value of another type there.
    fn from_row(row: &Record) -> (e: Option<Self>)
        ensures
            e is Some <==> Self::decode(row@) is Some,
            e matches Some(x) ==> Self::decode(row@) == Some(x@),
    ;
}

/// How rows are screened.
///
/// The rows are taken in their order. A row that holds no entity is a storage
/// error. Where the policy cannot decide, its error is the result. A denied
/// entity is left out of what is released if `strict` is false, and makes the
/// whole result `Forbidden` if `strict` is true. The first row that ends the
/// screening decides.
pub open spec fn screened<T: Entity, A: AclEngine<T>>(
    acl: A,
    rows: Seq<RecordView>,
    action: Action,
    strict: bool,
) -> Result<Seq<T::V>, RepoError>
    decreases rows.len(),
{
    if rows.len() == 0 {
        Ok(Seq::empty())
    } else {
        match screened::<T, A>(acl, rows.drop_last(), action, strict) {
            Err(e) => Err(e),
            Ok(kept) => match T::decode(rows.last()) {
                None => Err(RepoError::Storage(StorageFault::MalformedRow)),
                Some(entry) => match acl.verdict(entry, action) {
                    Err(e) => Err(e),
                    Ok(true) => Ok(kept.push(entry)),
                    Ok(false) => if strict {
                        Err(RepoError::Forbidden)
                    } else {
                        Ok(kept)
                    },
                },
            },
        }
    }
}

/// The one entity of a result; `NotFound` where there is none,
/// `MultipleRowsMatched` where there are several.
pub open spec fn exactly_one<V>(found: Result<Seq<V>, RepoError>) -> Result<V, RepoError> {
    match found {
        Err(e) => Err(e),
        Ok(entries) => if entries.len() == 0 {
            Err(RepoError::NotFound)
        } else if entries.len() > 1 {
            Err(RepoError::MultipleRowsMatched)
        } else {
            Ok(entries[0])
        },
    }
}

/// The models of the entities that an operation returns, or its error.
pub open spec fn entities<T: View>(r: Result<Vec<T>, RepoError>) -> Result<Seq<T::V>, RepoError> {
    match r {
        Ok(found) => Ok(views(found@)),
        Err(e) => Err(e),
    }
}

/// The model of the entity that an operation returns, or its error.
pub open spec fn entity<T: View>(r: Result<T, RepoError>) -> Result<T::V, RepoError> {
    match r {
        Ok(found) => Ok(found@),
        Err(e) => Err(e),
    }
}

/// Screens rows: see [`screened`].
pub fn screen<T: Entity, A: AclEngine<T>>(
    acl: &A,
    rows: &Vec<Record>,
    action: Action,
    strict: bool,
) -> (r: Result<Vec<T>, RepoError>)
    ensures
        entities(r) == screened::<T, A>(*acl, views(rows@), action, strict),
{
    let ghost model = views(rows@);
    let mut kept: Vec<T> = Vec::new();
    let mut i: usize = 0;
    assert(views(kept@) =~= Seq::<T::V>::empty());
    while i < rows.len()
        invariant
            i <= rows.len(),
            model == views(rows@),
            screened::<T, A>(*acl, model.take(i as int), action, strict) == Ok::<
                Seq<T::V>,
                RepoError,
            >(views(kept@)),
        decreases rows.len() - i,
    {
        proof {
            crate::storage::lemma_take_step(model, i as int);
        }
        let ghost before = views(kept@);
        let entry: T = match T::from_row(&rows[i]) {
            Some(entry) => entry,
            None => {
                proof {
                    lemma_screened_stops::<T, A>(*acl, model, i as int + 1, action, strict);
                }
                return Err(RepoError::Storage(StorageFault::MalformedRow));
            },
        };
        match acl.ensure_access(&entry, action) {
            Err(e) => {
                proof {
                    lemma_screened_stops::<T, A>(*acl, model, i as int + 1, action, strict);
                }
                return Err(e);
            },
            Ok(true) => {
                kept.push(entry);
                assert(views(kept@) =~= before.push(entry@));
            },
            Ok(false) => {
                if strict {
                    proof {
                        lemma_screened_stops::<T, A>(*acl, model, i as int + 1, action, strict);
                    }
                    return Err(RepoError::Forbidden);
                }
            },
        }
        i = i + 1;
    }
    assert(model.take(rows.len() as int) =~= model);
    Ok(kept)
}

/// Once the screening of a prefix has ended in an error, that error is the
/// result for all the rows.
pub proof fn lemma_screened_stops<T: Entity, A: AclEngine<T>>(
    acl: A,
    rows: Seq<RecordView>,
    n: int,
    action: Action,
    strict: bool,
)
    requires
        0 <= n <= rows.len(),
        screened::<T, A>(acl, rows.take(n), action, strict) is Err,
    ensures
        screened::<T, A>(acl, rows, action, strict) == screened::<T, A>(
            acl,
            rows.take(n),
            action,
            strict,
        ),
    decreases rows.len() - n,
{
    if n < rows.len() {
        crate::storage::lemma_take_step(rows, n);
        lemma_screened_stops::<T, A>(acl, rows, n + 1, action, strict);
    } else {
        assert(rows.take(n) =~= rows);
    }
}

/// What a select with these predicates returns: the entities of the
/// matching rows that the caller may see, in the order of the rows.
pub open spec fn select_spec<T: Entity, A: AclEngine<T>>(
    table: Seq<char>,
    acl: A,
    conn: TableView,
    predicates: RecordView,
) -> Result<Seq<T::V>, RepoError> {
    match select_outcome(conn, FilteredOperationView { table, filters: predicates }) {
        Err(e) => Err(e),
        Ok(rows) => screened::<T, A>(acl, rows, Action::Select, false),
    }
}

/// What an insert does: the rows afterwards and the entity returned.
///
/// The row that would be stored is screened as if it were stored: where the
/// caller may not insert it the result is `Forbidden`, whatever else is wrong
/// with it. Only then are the constraints looked at.
pub open spec fn insert_spec<T: Entity, A: AclEngine<T>>(
    acl: A,
    conn: TableView,
    op: InsertView,
) -> Result<(Seq<RecordView>, T::V), RepoError> {
    match insert_refused(conn, op) {
        Some(e) => Err(e),
        None => {
            let (rows, row) = insert_candidate(conn.rows, op);
            match screened::<T, A>(acl, seq![row], Action::Insert, true) {
                Err(e) => Err(e),
                Ok(entries) => if consistent(rows, conn.uniques) {
                    Ok((rows, entries[0]))
                } else {
                    Err(RepoError::ConstraintViolation)
                },
            }
        },
    }
}

/// What an update does: the rows afterwards and the entities returned.
///
/// The patched rows are screened before anything is stored: where the caller
/// may not update one of them the result is `Forbidden`. Only then are the
/// constraints looked at.
pub open spec fn update_spec<T: Entity, A: AclEngine<T>>(
    acl: A,
    conn: TableView,
    op: UpdateView,
) -> Result<(Seq<RecordView>, Seq<T::V>), RepoError> {
    if op.table != conn.name {
        Err(RepoError::Storage(StorageFault::UnknownRelation))
    } else {
        let (rows, patched) = update_candidate(conn.rows, op);
        match screened::<T, A>(acl, patched, Action::Update, true) {
            Err(e) => Err(e),
            Ok(entries) => if consistent(rows, conn.uniques) {
                Ok((rows, entries))
            } else {
                Err(RepoError::ConstraintViolation)
            },
        }
    }
}

/// What a delete does: the rows that stay and the entities removed,
/// provided the caller may delete every one of them.
pub open spec fn delete_spec<T: Entity, A: AclEngine<T>>(
    table: Seq<char>,
    acl: A,
    conn: TableView,
    predicates: RecordView,
) -> Result<(Seq<RecordView>, Seq<T::V>), RepoError> {
    if table != conn.name {
        Err(RepoError::Storage(StorageFault::UnknownRelation))
    } else {
        let (rows, removed) = delete_candidate(conn.rows, predicates);
        match screened::<T, A>(acl, removed, Action::Delete, true) {
            Err(e) => Err(e),
            Ok(entries) => Ok((rows, entries)),
        }
    }
}

/// The statement that inserts a payload into a relation.
pub open spec fn insert_of<I: Inserter>(table: Seq<char>, inserter: I) -> InsertView {
    InsertView { table, values: inserter.arguments(), extra: inserter.on_conflict() }
}

/// The statement that applies a payload's patch in a relation.
pub open spec fn update_of<U: Updater>(table: Seq<char>, updater: U) -> UpdateView {
    UpdateView { table, filters: updater.target(), values: updater.patch() }
}

/// A repository of entities `T` in one relation, with payloads `I` to
/// insert, `F` to filter and `U` to update, guarded by the policy `A`.
pub struct DbRepoImpl<T, I, F, U, A> {
    pub table: &'static str,
    pub afterop_acl_engine: A,
    pub shapes: PhantomData<(T, I, F, U)>,
}

impl<T: Entity, I: Inserter, F: Filter, U: Updater> DbRepoImpl<T, I, F, U, SystemACL> {
    /// The repository on `table` in which everything is allowed.
    pub fn new(table: &'static str) -> (repo: Self)
        ensures
            repo.table == table,
    {
        DbRepoImpl { table, afterop_acl_engine: SystemACL, shapes: PhantomData }
    }
}

impl<T: Entity, I: Inserter, F: Filter, U: Updater, A: AclEngine<T>> DbRepoImpl<T, I, F, U, A> {
    /// The same repository, guarded by `engine` in place of its policy.
    pub fn with_afterop_acl_engine<B: AclEngine<T>>(self, engine: B) -> (repo: DbRepoImpl<
        T,
        I,
        F,
        U,
        B,
    >)
        ensures
            repo.table == self.table,
            repo.afterop_acl_engine == engine,
    {
        DbRepoImpl { table: self.table, afterop_acl_engine: engine, shapes: PhantomData }
    }
}

/// A repository: select, insert, update and delete of entities `T` in one
/// relation, with payloads `I` to insert, `F` to filter and `U` to update.
/// Every result passes the policy of the repository before it is released
/// or stored.
pub trait DbRepo<T: Entity, I: Inserter, F: Filter, U: Updater> {
    /// The kind of policy that guards the repository.
    type Acl: AclEngine<T>;

    /// The name of the relation.
    spec fn relation(&self) -> Seq<char>;

    /// The policy that guards the repository.
    spec fn policy(&self) -> Self::Acl;

    /// The entities of the rows that the filter matches and the caller may
    /// see. A row that the caller may not see is left out without a word.
    fn select(&self, conn: &Table, filter: F) -> (r: Result<Vec<T>, RepoError>)
        ensures
            entities(r) == select_spec::<T, Self::Acl>(
                self.relation(),
                self.policy(),
                conn@,
                filter.predicates(),
            ),
    ;

    /// The one entity that the filter matches and the caller may see.
    /// `NotFound` where there is none, `MultipleRowsMatched` where there are
    /// several.
    fn select_exactly_one(&self, conn: &Table, filter: F) -> (r: Result<T, RepoError>)
        ensures
            entity(r) == exactly_one(
                select_spec::<T, Self::Acl>(
                    self.relation(),
                    self.policy(),
                    conn@,
                    filter.predicates(),
                ),
            ),
    ;

    /// Inserts one row and returns its entity. `Forbidden`, with nothing
    /// changed, where the caller may not insert it.
    fn insert_exactly_one(&self, conn: &mut Table, inserter: I) -> (r: Result<T, RepoError>)
        ensures
            match insert_spec::<T, Self::Acl>(
                self.policy(),
                old(conn)@,
                insert_of(self.relation(), inserter),
            ) {
                Ok((rows, entry)) => r is Ok && r->Ok_0@ == entry && final(conn)@ == with_rows(
                    old(conn)@,
                    rows,
                ),
                Err(e) => r is Err && r->Err_0 == e && final(conn)@ == old(conn)@,
            },
    ;

    /// Patches the rows that the updater selects and returns their entities
    /// as they are afterwards. `Forbidden`, with nothing changed, where the
    /// caller may not update one of them.
    fn update(&self, conn: &mut Table, updater: U) -> (r: Result<Vec<T>, RepoError>)
        ensures
            match update_spec::<T, Self::Acl>(
                self.policy(),
                old(conn)@,
                update_of(self.relation(), updater),
            ) {
                Ok((rows, entries)) => r is Ok && views(r->Ok_0@) == entries && final(conn)@
                    == with_rows(old(conn)@, rows),
                Err(e) => r is Err && r->Err_0 == e && final(conn)@ == old(conn)@,
            },
    ;

    /// Removes the rows that the filter matches and returns their entities.
    /// `Forbidden`, with nothing changed, where the caller may not delete one
    /// of them.
    fn delete(&self, conn: &mut Table, filter: F) -> (r: Result<Vec<T>, RepoError>)
        ensures
            match delete_spec::<T, Self::Acl>(
                self.relation(),
                self.policy(),
                old(conn)@,
                filter.predicates(),
            ) {
                Ok((rows, entries)) => r is Ok && views(r->Ok_0@) == entries && final(conn)@
                    == with_rows(old(conn)@, rows),
                Err(e) => r is Err && r->Err_0 == e && final(conn)@ == old(conn)@,
            },
    ;
}

impl<T: Entity, I: Inserter, F: Filter, U: Updater, A: AclEngine<T>> DbRepo<T, I, F, U> for DbRepoImpl<
    T,
    I,
    F,
    U,
    A,
> {
    type Acl = A;

    open spec fn relation(&self) -> Seq<char> {
        self.table@
    }

    open spec fn policy(&self) -> A {
        self.afterop_acl_engine
    }

    fn select(&self, conn: &Table, filter: F) -> (r: Result<Vec<T>, RepoError>) {
        let op = filter.into_filtered_operation_builder(self.table);
        match conn.select(&op) {
            Err(e) => Err(e),
            Ok(rows) => {
                let r = screen::<T, A>(&self.afterop_acl_engine, &rows, Action::Select, false);
                assert(entities(r) == screened::<T, A>(
                    self.afterop_acl_engine,
                    views(rows@),
                    Action::Select,
                    false,
                ));
                r
            },
        }
    }

    fn select_exactly_one(&self, conn: &Table, filter: F) -> (r: Result<T, RepoError>) {
        match self.select(conn, filter) {
            Err(e) => Err(e),
            Ok(found) => {
                let mut found = found;
                if found.len() == 0 {
                    Err(RepoError::NotFound)
                } else if found.len() > 1 {
                    Err(RepoError::MultipleRowsMatched)
                } else {
                    match found.pop() {
                        Some(one) => Ok(one),
                        None => Err(RepoError::NotFound),
                    }
                }
            },
        }
    }

    fn insert_exactly_one(&self, conn: &mut Table, inserter: I) -> (r: Result<T, RepoError>) {
        let op = inserter.into_insert_builder(self.table);
        match conn.plan_insert(&op) {
            Err(e) => Err(e),
            Ok((rows, row)) => {
                let mut one: Vec<Record> = Vec::new();
                one.push(row);
                assert(views(one@) =~= seq![one@[0]@]);
                match screen::<T, A>(&self.afterop_acl_engine, &one, Action::Insert, true) {
                    Err(e) => Err(e),
                    Ok(entries) => {
                        let mut entries = entries;
                        proof {
                            lemma_strict_keeps_all::<T, A>(
                                self.afterop_acl_engine,
                                views(one@),
                                Action::Insert,
                            );
                        }
                        match entries.pop() {
                            Some(entry) => match conn.commit(rows) {
                                Ok(()) => Ok(entry),
                                Err(e) => Err(e),
                            },
                            None => Err(RepoError::Storage(StorageFault::MalformedRow)),
                        }
                    },
                }
            },
        }
    }

    fn update(&self, conn: &mut Table, updater: U) -> (r: Result<Vec<T>, RepoError>) {
        let op = updater.into_update_builder(self.table);
        match conn.plan_update(&op) {
            Err(e) => Err(e),
            Ok((rows, patched)) => {
                match screen::<T, A>(&self.afterop_acl_engine, &patched, Action::Update, true) {
                    Err(e) => Err(e),
                    Ok(entries) => match conn.commit(rows) {
                        Ok(()) => Ok(entries),
                        Err(e) => Err(e),
                    },
                }
            },
        }
    }

    fn delete(&self, conn: &mut Table, filter: F) -> (r: Result<Vec<T>, RepoError>) {
        let op = filter.into_filtered_operation_builder(self.table);
        match conn.plan_delete(&op) {
            Err(e) => Err(e),
            Ok((rows, removed)) => {
                match screen::<T, A>(&self.afterop_acl_engine, &removed, Action::Delete, true) {
                    Err(e) => Err(e),
                    Ok(entries) => match conn.commit(rows) {
                        Ok(()) => Ok(entries),
                        Err(e) => Err(e),
                    },
                }
            },
        }
    }
}

/// A strict screening that succeeds releases one entity for each row.
pub proof fn lemma_strict_keeps_all<T: Entity, A: AclEngine<T>>(
    acl: A,
    rows: Seq<RecordView>,
    action: Action,
)
    requires
        screened::<T, A>(acl, rows, action, true) is Ok,
    ensures
        screened::<T, A>(acl, rows, action, true)->Ok_0.len() == rows.len(),
        forall|i: int|
            0 <= i < rows.len() ==> T::decode(#[trigger] rows[i]) == Some(
                screened::<T, A>(acl, rows, action, true)->Ok_0[i],
            ),
        forall|i: int|
            0 <= i < rows.len() ==> acl.verdict(
                #[trigger] screened::<T, A>(acl, rows, action, true)->Ok_0[i],
                action,
            ) == Ok::<bool, RepoError>(true),
    decreases rows.len(),
{
    if rows.len() > 0 {
        let init = rows.drop_last();
        lemma_strict_keeps_all::<T, A>(acl, init, action);
        let kept = screened::<T, A>(acl, init, action, true)->Ok_0;
        let out = screened::<T, A>(acl, rows, action, true)->Ok_0;
        let entry = T::decode(rows.last())->0;
        assert(out == kept.push(entry));
        assert forall|i: int| 0 <= i < rows.len() implies T::decode(#[trigger] rows[i]) == Some(
            out[i],
        ) by {
            if i < init.len() {
                assert(rows[i] == init[i]);
                assert(out[i] == kept[i]);
            }
        }
        assert forall|i: int| 0 <= i < rows.len() implies acl.verdict(#[trigger] out[i], action)
            == Ok::<bool, RepoError>(true) by {
            if i < init.len() {
                assert(out[i] == kept[i]);
            }
        }
    }
}

} // verus!
