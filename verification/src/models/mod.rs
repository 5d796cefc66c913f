//! The entities and the payloads that select, create and change them.

pub mod role;
pub mod stock;
pub mod warehouse;
pub mod warehouse_product;
pub mod warehouse_user;

use vstd::prelude::*;

verus! {

/// A value wrapped to say "this value, exactly": in a filter, the value that
/// a field must hold; in a patch, the value that a field is to take. Where
/// the value is itself optional, the wrapper tells "set to nothing" from "not
/// mentioned".
#[derive(Clone, Copy, Debug, Default, PartialEq)]
pub struct ValueContainer<T> {
    pub value: T,
}

impl<T> From<T> for ValueContainer<T> {
    fn from(value: T) -> (wrapped: Self) {
        Self { value }
    }
}

impl<T> vstd::std_specs::convert::FromSpecImpl<T> for ValueContainer<T> {
    open spec fn obeys_from_spec() -> bool {
        true
    }

    open spec fn from_spec(value: T) -> Self {
        ValueContainer { value }
    }
}

} // verus!
