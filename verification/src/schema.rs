//! The relational schema: the columns that rows, filters and patches speak of.

use vstd::prelude::*;

verus! {

/// A column of one of the relations. The set is closed: a statement can name
/// no column but these.
#[derive(Clone, Copy, Debug, PartialEq, Eq, Hash, Structural)]
pub enum Column {
    Id,
    UserId,
    Name,
    Data,
    WarehouseId,
    ProductId,
    Quantity,
    Role,
    StoreId,
    Slug,
    Location,
    AdministrativeAreaLevel1,
    AdministrativeAreaLevel2,
    Country,
    CountryCode,
    Locality,
    Political,
    PostalCode,
    Route,
    StreetNumber,
    Address,
    PlaceId,
}

/// How many columns there are.
pub const COLUMN_COUNT: usize = 22;

impl Column {
    /// The position of a column in the declaration order, from 0.
    pub open spec fn ordinal(self) -> int {
        match self {
            Column::Id => 0,
            Column::UserId => 1,
            Column::Name => 2,
            Column::Data => 3,
            Column::WarehouseId => 4,
            Column::ProductId => 5,
            Column::Quantity => 6,
            Column::Role => 7,
            Column::StoreId => 8,
            Column::Slug => 9,
            Column::Location => 10,
            Column::AdministrativeAreaLevel1 => 11,
            Column::AdministrativeAreaLevel2 => 12,
            Column::Country => 13,
            Column::CountryCode => 14,
            Column::Locality => 15,
            Column::Political => 16,
            Column::PostalCode => 17,
            Column::Route => 18,
            Column::StreetNumber => 19,
            Column::Address => 20,
            Column::PlaceId => 21,
        }
    }

    /// The column at a position, if there is one.
    pub open spec fn at(i: int) -> Option<Column> {
        if i == 0 {
            Some(Column::Id)
        } else if i == 1 {
            Some(Column::UserId)
        } else if i == 2 {
            Some(Column::Name)
        } else if i == 3 {
            Some(Column::Data)
        } else if i == 4 {
            Some(Column::WarehouseId)
        } else if i == 5 {
            Some(Column::ProductId)
        } else if i == 6 {
            Some(Column::Quantity)
        } else if i == 7 {
            Some(Column::Role)
        } else if i == 8 {
            Some(Column::StoreId)
        } else if i == 9 {
            Some(Column::Slug)
        } else if i == 10 {
            Some(Column::Location)
        } else if i == 11 {
            Some(Column::AdministrativeAreaLevel1)
        } else if i == 12 {
            Some(Column::AdministrativeAreaLevel2)
        } else if i == 13 {
            Some(Column::Country)
        } else if i == 14 {
            Some(Column::CountryCode)
        } else if i == 15 {
            Some(Column::Locality)
        } else if i == 16 {
            Some(Column::Political)
        } else if i == 17 {
            Some(Column::PostalCode)
        } else if i == 18 {
            Some(Column::Route)
        } else if i == 19 {
            Some(Column::StreetNumber)
        } else if i == 20 {
            Some(Column::Address)
        } else if i == 21 {
            Some(Column::PlaceId)
        } else {
            None
        }
    }

    /// The position of the column, as a machine integer.
    pub fn index(self) -> (i: usize)
        ensures
            i == self.ordinal(),
            i < COLUMN_COUNT,
    {
        match self {
            Column::Id => 0,
            Column::UserId => 1,
            Column::Name => 2,
            Column::Data => 3,
            Column::WarehouseId => 4,
            Column::ProductId => 5,
            Column::Quantity => 6,
            Column::Role => 7,
            Column::StoreId => 8,
            Column::Slug => 9,
            Column::Location => 10,
            Column::AdministrativeAreaLevel1 => 11,
            Column::AdministrativeAreaLevel2 => 12,
            Column::Country => 13,
            Column::CountryCode => 14,
            Column::Locality => 15,
            Column::Political => 16,
            Column::PostalCode => 17,
            Column::Route => 18,
            Column::StreetNumber => 19,
            Column::Address => 20,
            Column::PlaceId => 21,
        }
    }

    /// The column at a position; `None` from `COLUMN_COUNT` on.
    pub fn from_index(i: usize) -> (c: Option<Column>)
        ensures
            c == Column::at(i as int),
            c is Some <==> i < COLUMN_COUNT,
    {
        if i == 0 {
            Some(Column::Id)
        } else if i == 1 {
            Some(Column::UserId)
        } else if i == 2 {
            Some(Column::Name)
        } else if i == 3 {
            Some(Column::Data)
        } else if i == 4 {
            Some(Column::WarehouseId)
        } else if i == 5 {
            Some(Column::ProductId)
        } else if i == 6 {
            Some(Column::Quantity)
        } else if i == 7 {
            Some(Column::Role)
        } else if i == 8 {
            Some(Column::StoreId)
        } else if i == 9 {
            Some(Column::Slug)
        } else if i == 10 {
            Some(Column::Location)
        } else if i == 11 {
            Some(Column::AdministrativeAreaLevel1)
        } else if i == 12 {
            Some(Column::AdministrativeAreaLevel2)
        } else if i == 13 {
            Some(Column::Country)
        } else if i == 14 {
            Some(Column::CountryCode)
        } else if i == 15 {
            Some(Column::Locality)
        } else if i == 16 {
            Some(Column::Political)
        } else if i == 17 {
            Some(Column::PostalCode)
        } else if i == 18 {
            Some(Column::Route)
        } else if i == 19 {
            Some(Column::StreetNumber)
        } else if i == 20 {
            Some(Column::Address)
        } else if i == 21 {
            Some(Column::PlaceId)
        } else {
            None
        }
    }
}

/// Positions and columns correspond one to one.
pub proof fn lemma_ordinal_at(c: Column)
    ensures
        0 <= c.ordinal() < COLUMN_COUNT,
        Column::at(c.ordinal()) == Some(c),
{
}

/// A position below `COLUMN_COUNT` is the position of the column found there.
pub proof fn lemma_at_ordinal(i: int)
    requires
        0 <= i < COLUMN_COUNT,
    ensures
        Column::at(i) is Some,
        Column::at(i)->0.ordinal() == i,
{
}

} // verus!
