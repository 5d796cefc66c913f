//! Sequences: durable counters that hand out each value once, and the slugs
//! made of their values.

use vstd::prelude::*;
use crate::decimal::{lemma_signed_decimal_injective, signed_decimal, to_decimal};
use crate::errors::{RepoError, StorageFault};
use crate::storage::same_text;
use crate::types::WarehouseSlug;

verus! {

/// A named counter in the store. It only ever goes up.
#[derive(Debug)]
pub struct Counter {
    name: &'static str,
    last: i64,
}

/// The model of a [`Counter`].
pub struct CounterView {
    pub name: Seq<char>,
    pub last: int,
}

impl View for Counter {
    type V = CounterView;

    closed spec fn view(&self) -> CounterView {
        CounterView { name: self.name@, last: self.last as int }
    }
}

/// What asking a counter for its next value does: the counter afterwards and
/// the value handed out, which is one more than the last. A storage error
/// where the counter has another name, or has reached the largest value.
pub open spec fn next_val_outcome(c: CounterView, name: Seq<char>) -> Result<
    (CounterView, i64),
    RepoError,
> {
    if name != c.name {
        Err(RepoError::Storage(StorageFault::UnknownSequence))
    } else if c.last >= i64::MAX {
        Err(RepoError::Storage(StorageFault::SequenceExhausted))
    } else {
        Ok((CounterView { name: c.name, last: c.last + 1 }, (c.last + 1) as i64))
    }
}

/// The values that `n` requests in a row hand out, up to the first that
/// fails.
pub open spec fn allocations(c: CounterView, name: Seq<char>, n: nat) -> Seq<i64>
    decreases n,
{
    if n == 0 {
        Seq::empty()
    } else {
        match next_val_outcome(c, name) {
            Err(_) => Seq::empty(),
            Ok((next, value)) => seq![value] + allocations(next, name, (n - 1) as nat),
        }
    }
}

impl Counter {
    /// The counter of this name that has handed out nothing: its first value
    /// will be 1.
    pub fn new(name: &'static str) -> (c: Counter)
        ensures
            c@ == (CounterView { name: name@, last: 0 }),
    {
        Counter { name, last: 0 }
    }

    /// The counter of this name whose last value was `last`.
    pub fn resume(name: &'static str, last: i64) -> (c: Counter)
        ensures
            c@ == (CounterView { name: name@, last: last as int }),
    {
        Counter { name, last }
    }

    /// The name of the counter.
    pub fn name(&self) -> (name: &'static str)
        ensures
            name@ == self@.name,
    {
        self.name
    }

    /// The last value handed out; 0 before the first.
    pub fn last(&self) -> (last: i64)
        ensures
            last == self@.last,
    {
        self.last
    }

    /// Hands out the next value. On an error the counter is left as it was.
    pub fn next_val(&mut self, name: &str) -> (r: Result<i64, RepoError>)
        ensures
            match next_val_outcome(old(self)@, name@) {
                Ok((next, value)) => r == Ok::<i64, RepoError>(value) && final(self)@ == next,
                Err(e) => r == Err::<i64, RepoError>(e) && final(self)@ == old(self)@,
            },
    {
        if !same_text(name, self.name) {
            return Err(RepoError::Storage(StorageFault::UnknownSequence));
        }
        match self.last.checked_add(1) {
            Some(value) => {
                self.last = value;
                Ok(value)
            },
            None => Err(RepoError::Storage(StorageFault::SequenceExhausted)),
        }
    }
}

/// An allocator of the values of one sequence.
pub trait Sequence {
    /// The name of the sequence.
    spec fn sequence_name(&self) -> Seq<char>;

    /// The next value of the sequence: one more than the last. No two
    /// requests get the same value. A storage error, with the counter left
    /// as it was, where the counter is not that of the sequence or has
    /// reached the largest value.
    fn next_val(&self, conn: &mut Counter) -> (r: Result<i64, RepoError>)
        ensures
            match next_val_outcome(old(conn)@, self.sequence_name()) {
                Ok((next, value)) => r == Ok::<i64, RepoError>(value) && final(conn)@ == next,
                Err(e) => r == Err::<i64, RepoError>(e) && final(conn)@ == old(conn)@,
            },
    ;
}

/// The allocator of one named sequence.
#[derive(Clone, Copy, Debug)]
pub struct SequenceImpl {
    pub name: &'static str,
}

impl SequenceImpl {
    /// The allocator of the sequence `name`.
    pub fn new(name: &'static str) -> (s: SequenceImpl)
        ensures
            s.name == name,
    {
        SequenceImpl { name }
    }
}

impl Sequence for SequenceImpl {
    open spec fn sequence_name(&self) -> Seq<char> {
        self.name@
    }

    fn next_val(&self, conn: &mut Counter) -> (r: Result<i64, RepoError>) {
        conn.next_val(self.name)
    }
}

/// The slug made of a sequence value: the value in decimal.
pub open spec fn slug_text(value: i64) -> Seq<char> {
    signed_decimal(value as int)
}

/// The slug made of a sequence value.
pub fn slug_of(value: i64) -> (slug: WarehouseSlug)
    ensures
        slug.0@ == slug_text(value),
{
    WarehouseSlug(to_decimal(value))
}

/// However many requests are made of a counter, by whomever and in whatever
/// order they arrive, as long as none fails each gets a value of its own:
/// `n` requests hand out `n` values, each larger than the one before, so no
/// two alike.
pub proof fn lemma_allocations_distinct(c: CounterView, name: Seq<char>, n: nat)
    requires
        name == c.name,
        c.last + n <= i64::MAX,
        c.last >= i64::MIN,
    ensures
        allocations(c, name, n).len() == n,
        forall|i: int| 0 <= i < n ==> #[trigger] allocations(c, name, n)[i] == c.last + 1 + i,
        forall|i: int, j: int|
            0 <= i < j < n ==> #[trigger] allocations(c, name, n)[i] != #[trigger] allocations(
                c,
                name,
                n,
            )[j],
    decreases n,
{
    if n > 0 {
        let next = CounterView { name: c.name, last: c.last + 1 };
        lemma_allocations_distinct(next, name, (n - 1) as nat);
        let rest = allocations(next, name, (n - 1) as nat);
        let all = allocations(c, name, n);
        assert(all == seq![(c.last + 1) as i64] + rest);
        assert forall|i: int| 0 <= i < n implies #[trigger] all[i] == c.last + 1 + i by {
            if i > 0 {
                assert(all[i] == rest[i - 1]);
            }
        }
    }
}

/// The requests of two callers, `n` of the one and then `m` of the other,
/// hand out `n + m` values without a duplicate: what the second caller gets
/// is what a single caller would have got after the first `n`.
pub proof fn lemma_allocations_of_two_callers(c: CounterView, name: Seq<char>, n: nat, m: nat)
    requires
        name == c.name,
        c.last + n + m <= i64::MAX,
        c.last >= i64::MIN,
    ensures
        allocations(c, name, n) + allocations(
            CounterView { name: c.name, last: c.last + n },
            name,
            m,
        ) == allocations(c, name, n + m),
        allocations(c, name, n + m).len() == n + m,
        allocations(c, name, n + m).no_duplicates(),
{
    let after = CounterView { name: c.name, last: c.last + n };
    lemma_allocations_distinct(c, name, n);
    lemma_allocations_distinct(after, name, m);
    lemma_allocations_distinct(c, name, n + m);
    assert(allocations(c, name, n) + allocations(after, name, m) =~= allocations(c, name, n + m));
}

/// Two sequence values have the same slug only if they are the same value.
pub proof fn lemma_slug_injective(a: i64, b: i64)
    requires
        slug_text(a) == slug_text(b),
    ensures
        a == b,
{
    lemma_signed_decimal_injective(a as int, b as int);
}

} // verus!
