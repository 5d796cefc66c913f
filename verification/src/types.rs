//! Identifiers and small value types shared by every module.

use vstd::prelude::*;

verus! {

/// Identifier of a caller.
#[derive(Clone, Copy, Debug, Default, PartialEq, Eq, Hash, Structural)]
pub struct UserId(pub i32);

/// Identifier of a store, the owner of warehouses.
#[derive(Clone, Copy, Debug, Default, PartialEq, Eq, Hash, Structural)]
pub struct StoreId(pub i32);

/// Identifier of a product.
#[derive(Clone, Copy, Debug, Default, PartialEq, Eq, Hash, Structural)]
pub struct ProductId(pub i32);

/// Number of items of one product held in one warehouse.
#[derive(Clone, Copy, Debug, Default, PartialEq, Eq, Hash, Structural)]
pub struct Quantity(pub i32);

/// Identifier of a warehouse: the 128 bits of a UUID.
#[derive(Clone, Copy, Debug, Default, PartialEq, Eq, Hash, Structural)]
pub struct WarehouseId(pub u128);

/// Identifier of a stock record: the 128 bits of a UUID.
#[derive(Clone, Copy, Debug, Default, PartialEq, Eq, Hash, Structural)]
pub struct StockId(pub u128);

/// Identifier of a role grant: the 128 bits of a UUID.
#[derive(Clone, Copy, Debug, Default, PartialEq, Eq, Hash, Structural)]
pub struct RoleEntryId(pub u128);

/// Identifier of a product's entry in a warehouse, in the relation that
/// numbers its rows.
#[derive(Clone, Copy, Debug, Default, PartialEq, Eq, Hash, Structural)]
pub struct WarehouseProductId(pub i32);

/// Identifier of a user's entry in a warehouse, in the relation that numbers
/// its rows.
#[derive(Clone, Copy, Debug, Default, PartialEq, Eq, Hash, Structural)]
pub struct WarehouseUserId(pub i32);

/// A point on the globe. Each coordinate is kept as the bit pattern of its
/// IEEE 754 double, so that points can be stored and compared exactly.
#[derive(Clone, Copy, Debug, Default, PartialEq, Eq, Hash, Structural)]
pub struct GeoPoint {
    pub x_bits: u64,
    pub y_bits: u64,
}

/// The external, human-readable identifier of a warehouse.
#[derive(Clone, Debug, Default, PartialEq, Eq, Hash)]
pub struct WarehouseSlug(pub String);

/// A three-letter country code.
#[derive(Clone, Debug, Default, PartialEq, Eq, Hash)]
pub struct Alpha3(pub String);

/// The two ways to name a warehouse.
#[derive(Clone, Debug, PartialEq, Eq, Hash)]
pub enum WarehouseIdentifier {
    Id(WarehouseId),
    Slug(WarehouseSlug),
}

/// The bits that every random (version 4) UUID has in common: version nibble
/// `4` and variant bits `10`.
pub open spec fn is_random_uuid(bits: u128) -> bool {
    bits & 0x0000_0000_0000_F000_C000_0000_0000_0000u128
        == 0x0000_0000_0000_4000_8000_0000_0000_0000u128
}

/// Whether these are the bits of a random (version 4) UUID.
pub fn is_random_uuid_bits(bits: u128) -> (b: bool)
    ensures
        b == is_random_uuid(bits),
{
    bits & 0x0000_0000_0000_F000_C000_0000_0000_0000u128
        == 0x0000_0000_0000_4000_8000_0000_0000_0000u128
}

/// `uuid::Uuid::new_v4`, read as its 128 bits. The bits come from the
/// operating system's random source; all that is claimed is that the version
/// and variant fields are those of a random UUID, which `new_v4` sets by
/// masking.
#[verifier::external_body]
fn fresh_uuid() -> (bits: u128)
    ensures
        is_random_uuid(bits),
{
    uuid::Uuid::new_v4().as_u128()
}

/// The 128 bits of the UUID that `uuid::Uuid::parse_str` reads from a text,
/// if it reads one.
pub uninterp spec fn uuid_of(text: Seq<char>) -> Option<u128>;

/// `uuid::Uuid::parse_str`, read as the 128 bits of the UUID, and nothing
/// where it reports an error. Which texts it accepts is left to `uuid`; the
/// result is named [`uuid_of`].
#[verifier::external_body]
pub(crate) fn parse_uuid(text: &str) -> (bits: Option<u128>)
    ensures
        bits == uuid_of(text@),
{
    match uuid::Uuid::parse_str(text) {
        Ok(id) => Some(id.as_u128()),
        Err(_) => None,
    }
}

impl WarehouseId {
    /// A fresh random identifier.
    pub fn new() -> (id: WarehouseId)
        ensures
            is_random_uuid(id.0),
    {
        WarehouseId(fresh_uuid())
    }
}

impl StockId {
    /// A fresh random identifier.
    pub fn new() -> (id: StockId)
        ensures
            is_random_uuid(id.0),
    {
        StockId(fresh_uuid())
    }
}

impl RoleEntryId {
    /// A fresh random identifier.
    pub fn new() -> (id: RoleEntryId)
        ensures
            is_random_uuid(id.0),
    {
        RoleEntryId(fresh_uuid())
    }
}

} // verus!
