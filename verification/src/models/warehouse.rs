//! Warehouses: the entity, and the payloads that select, create and change
//! it.

use vstd::prelude::*;
use crate::models::ValueContainer;
use crate::models::stock::{int_in, read_int, read_uuid, uuid_in};
use crate::repo::Entity;
use crate::schema::Column;
use crate::statement::{
    Filter, FilteredOperationBuilder, InsertBuilder, Inserter, OnConflictView, UpdateBuilder,
    Updater,
};
use crate::types::{Alpha3, GeoPoint, StoreId, WarehouseId, WarehouseIdentifier, WarehouseSlug};
use crate::value::{record_of, Cells, Record, RecordView, Value, ValueView};

verus! {

/// The model of an optional text.
pub open spec fn text_view(text: Option<String>) -> Option<Seq<char>> {
    match text {
        Some(s) => Some(s@),
        None => None,
    }
}

/// The model of an optional country code.
pub open spec fn code_view(code: Option<Alpha3>) -> Option<Seq<char>> {
    match code {
        Some(c) => Some(c.0@),
        None => None,
    }
}

/// The value that stores an optional point: the point, or null.
pub open spec fn point_or_null(point: Option<GeoPoint>) -> ValueView {
    match point {
        Some(p) => ValueView::Point(p),
        None => ValueView::Null,
    }
}

/// The value that stores an optional country code: its text, or null.
pub open spec fn code_or_null(code: Option<Alpha3>) -> ValueView {
    match code {
        Some(c) => ValueView::Text(c.0@),
        None => ValueView::Null,
    }
}

/// The value that stores an optional point.
pub fn point_value(point: &Option<GeoPoint>) -> (v: Value)
    ensures
        v@ == point_or_null(*point),
{
    match point {
        Some(p) => Value::Point(*p),
        None => Value::Null,
    }
}

/// The value that stores an optional country code.
pub fn code_value(code: &Option<Alpha3>) -> (v: Value)
    ensures
        v@ == code_or_null(*code),
{
    match code {
        Some(c) => Value::Text(c.0.clone()),
        None => Value::Null,
    }
}

/// A copy of an optional text.
pub fn clone_text(text: &Option<String>) -> (copy: Option<String>)
    ensures
        text_view(copy) == text_view(*text),
{
    match text {
        Some(s) => Some(s.clone()),
        None => None,
    }
}

/// A copy of an optional country code.
pub fn clone_code(code: &Option<Alpha3>) -> (copy: Option<Alpha3>)
    ensures
        code_view(copy) == code_view(*code),
{
    match code {
        Some(c) => Some(Alpha3(c.0.clone())),
        None => None,
    }
}

/// A warehouse.
#[derive(Debug, PartialEq, Eq)]
pub struct Warehouse {
    pub id: WarehouseId,
    pub store_id: StoreId,
    pub slug: WarehouseSlug,
    pub name: Option<String>,
    pub location: Option<GeoPoint>,
    pub administrative_area_level_1: Option<String>,
    pub administrative_area_level_2: Option<String>,
    pub country: Option<String>,
    pub country_code: Option<Alpha3>,
    pub locality: Option<String>,
    pub political: Option<String>,
    pub postal_code: Option<String>,
    pub route: Option<String>,
    pub street_number: Option<String>,
    pub address: Option<String>,
    pub place_id: Option<String>,
}

/// The model of a [`Warehouse`]: texts are sequences of characters.
pub struct WarehouseView {
    pub id: WarehouseId,
    pub store_id: StoreId,
    pub slug: Seq<char>,
    pub name: Option<Seq<char>>,
    pub location: Option<GeoPoint>,
    pub administrative_area_level_1: Option<Seq<char>>,
    pub administrative_area_level_2: Option<Seq<char>>,
    pub country: Option<Seq<char>>,
    pub country_code: Option<Seq<char>>,
    pub locality: Option<Seq<char>>,
    pub political: Option<Seq<char>>,
    pub postal_code: Option<Seq<char>>,
    pub route: Option<Seq<char>>,
    pub street_number: Option<Seq<char>>,
    pub address: Option<Seq<char>>,
    pub place_id: Option<Seq<char>>,
}

impl View for Warehouse {
    type V = WarehouseView;

    open spec fn view(&self) -> WarehouseView {
        WarehouseView {
            id: self.id,
            store_id: self.store_id,
            slug: self.slug.0@,
            name: text_view(self.name),
            location: self.location,
            administrative_area_level_1: text_view(self.administrative_area_level_1),
            administrative_area_level_2: text_view(self.administrative_area_level_2),
            country: text_view(self.country),
            country_code: code_view(self.country_code),
            locality: text_view(self.locality),
            political: text_view(self.political),
            postal_code: text_view(self.postal_code),
            route: text_view(self.route),
            street_number: text_view(self.street_number),
            address: text_view(self.address),
            place_id: text_view(self.place_id),
        }
    }
}

impl Clone for Warehouse {
    fn clone(&self) -> (copy: Warehouse)
        ensures
            copy@ == self@,
    {
        Warehouse {
            id: self.id,
            store_id: self.store_id,
            slug: WarehouseSlug(self.slug.0.clone()),
            name: clone_text(&self.name),
            location: self.location,
            administrative_area_level_1: clone_text(&self.administrative_area_level_1),
            administrative_area_level_2: clone_text(&self.administrative_area_level_2),
            country: clone_text(&self.country),
            country_code: clone_code(&self.country_code),
            locality: clone_text(&self.locality),
            political: clone_text(&self.political),
            postal_code: clone_text(&self.postal_code),
            route: clone_text(&self.route),
            street_number: clone_text(&self.street_number),
            address: clone_text(&self.address),
            place_id: clone_text(&self.place_id),
        }
    }
}

/// What a caller gives to create a warehouse: everything but the slug, which
/// the service allots.
#[derive(Debug, PartialEq, Eq)]
pub struct WarehouseInput {
    pub id: WarehouseId,
    pub store_id: StoreId,
    pub name: Option<String>,
    pub location: Option<GeoPoint>,
    pub administrative_area_level_1: Option<String>,
    pub administrative_area_level_2: Option<String>,
    pub country: Option<String>,
    pub country_code: Option<Alpha3>,
    pub locality: Option<String>,
    pub political: Option<String>,
    pub postal_code: Option<String>,
    pub route: Option<String>,
    pub street_number: Option<String>,
    pub address: Option<String>,
    pub place_id: Option<String>,
}

impl WarehouseInput {
    /// A warehouse of the store with a fresh identifier and nothing else
    /// known of it.
    pub fn new(store_id: StoreId) -> (input: WarehouseInput)
        ensures
            input.store_id == store_id,
            crate::types::is_random_uuid(input.id.0),
            input.name is None,
            input.location is None,
            input.administrative_area_level_1 is None,
            input.administrative_area_level_2 is None,
            input.country is None,
            input.country_code is None,
            input.locality is None,
            input.political is None,
            input.postal_code is None,
            input.route is None,
            input.street_number is None,
            input.address is None,
            input.place_id is None,
    {
        WarehouseInput {
            id: WarehouseId::new(),
            store_id,
            name: None,
            location: None,
            administrative_area_level_1: None,
            administrative_area_level_2: None,
            country: None,
            country_code: None,
            locality: None,
            political: None,
            postal_code: None,
            route: None,
            street_number: None,
            address: None,
            place_id: None,
        }
    }

    /// The warehouse that the input describes, under the slug `slug`.
    pub fn with_slug(self, slug: WarehouseSlug) -> (warehouse: Warehouse)
        ensures
            warehouse == (Warehouse {
                id: self.id,
                store_id: self.store_id,
                slug,
                name: self.name,
                location: self.location,
                administrative_area_level_1: self.administrative_area_level_1,
                administrative_area_level_2: self.administrative_area_level_2,
                country: self.country,
                country_code: self.country_code,
                locality: self.locality,
                political: self.political,
                postal_code: self.postal_code,
                route: self.route,
                street_number: self.street_number,
                address: self.address,
                place_id: self.place_id,
            }),
    {
        Warehouse {
            id: self.id,
            store_id: self.store_id,
            slug,
            name: self.name,
            location: self.location,
            administrative_area_level_1: self.administrative_area_level_1,
            administrative_area_level_2: self.administrative_area_level_2,
            country: self.country,
            country_code: self.country_code,
            locality: self.locality,
            political: self.political,
            postal_code: self.postal_code,
            route: self.route,
            street_number: self.street_number,
            address: self.address,
            place_id: self.place_id,
        }
    }
}

impl Clone for WarehouseInput {
    fn clone(&self) -> (copy: WarehouseInput)
        ensures
            copy.id == self.id,
            copy.store_id == self.store_id,
            text_view(copy.name) == text_view(self.name),
            copy.location == self.location,
            text_view(copy.administrative_area_level_1) == text_view(self.administrative_area_level_1),
            text_view(copy.administrative_area_level_2) == text_view(self.administrative_area_level_2),
            text_view(copy.country) == text_view(self.country),
            code_view(copy.country_code) == code_view(self.country_code),
            text_view(copy.locality) == text_view(self.locality),
            text_view(copy.political) == text_view(self.political),
            text_view(copy.postal_code) == text_view(self.postal_code),
            text_view(copy.route) == text_view(self.route),
            text_view(copy.street_number) == text_view(self.street_number),
            text_view(copy.address) == text_view(self.address),
            text_view(copy.place_id) == text_view(self.place_id),
    {
        WarehouseInput {
            id: self.id,
            store_id: self.store_id,
            name: clone_text(&self.name),
            location: self.location,
            administrative_area_level_1: clone_text(&self.administrative_area_level_1),
            administrative_area_level_2: clone_text(&self.administrative_area_level_2),
            country: clone_text(&self.country),
            country_code: clone_code(&self.country_code),
            locality: clone_text(&self.locality),
            political: clone_text(&self.political),
            postal_code: clone_text(&self.postal_code),
            route: clone_text(&self.route),
            street_number: clone_text(&self.street_number),
            address: clone_text(&self.address),
            place_id: clone_text(&self.place_id),
        }
    }
}

/// What a warehouse holds in a column: its identifier, store and slug, and
/// each of the other values that it has. Nothing in the columns of other
/// relations.
pub open spec fn warehouse_cell(w: WarehouseView, column: Column) -> Option<ValueView> {
    match column {
        Column::Id => Some(ValueView::Uuid(w.id.0)),
        Column::StoreId => Some(ValueView::Int(w.store_id.0)),
        Column::Slug => Some(ValueView::Text(w.slug)),
        Column::Name => match w.name {
            Some(x) => Some(ValueView::Text(x)),
            None => None,
        },
        Column::Location => match w.location {
            Some(x) => Some(ValueView::Point(x)),
            None => None,
        },
        Column::AdministrativeAreaLevel1 => match w.administrative_area_level_1 {
            Some(x) => Some(ValueView::Text(x)),
            None => None,
        },
        Column::AdministrativeAreaLevel2 => match w.administrative_area_level_2 {
            Some(x) => Some(ValueView::Text(x)),
            None => None,
        },
        Column::Country => match w.country {
            Some(x) => Some(ValueView::Text(x)),
            None => None,
        },
        Column::CountryCode => match w.country_code {
            Some(x) => Some(ValueView::Text(x)),
            None => None,
        },
        Column::Locality => match w.locality {
            Some(x) => Some(ValueView::Text(x)),
            None => None,
        },
        Column::Political => match w.political {
            Some(x) => Some(ValueView::Text(x)),
            None => None,
        },
        Column::PostalCode => match w.postal_code {
            Some(x) => Some(ValueView::Text(x)),
            None => None,
        },
        Column::Route => match w.route {
            Some(x) => Some(ValueView::Text(x)),
            None => None,
        },
        Column::StreetNumber => match w.street_number {
            Some(x) => Some(ValueView::Text(x)),
            None => None,
        },
        Column::Address => match w.address {
            Some(x) => Some(ValueView::Text(x)),
            None => None,
        },
        Column::PlaceId => match w.place_id {
            Some(x) => Some(ValueView::Text(x)),
            None => None,
        },
        _ => None,
    }
}

/// The row of a warehouse.
pub open spec fn warehouse_row(w: WarehouseView) -> RecordView {
    Map::new(
        |c: Column| warehouse_cell(w, c) is Some,
        |c: Column| warehouse_cell(w, c)->0,
    )
}

/// The value of a text, where there is one.
fn text_cell(text: &Option<String>) -> (v: Option<Value>)
    ensures
        crate::value::value_view(v) == match text_view(*text) {
            Some(s) => Some(ValueView::Text(s)),
            None => None,
        },
{
    match text {
        Some(s) => Some(Value::Text(s.clone())),
        None => None,
    }
}

impl Cells for Warehouse {
    open spec fn cell_spec(&self, column: Column) -> Option<ValueView> {
        warehouse_cell(self@, column)
    }

    fn cell(&self, column: Column) -> (v: Option<Value>) {
        match column {
            Column::Id => Some(Value::Uuid(self.id.0)),
            Column::StoreId => Some(Value::Int(self.store_id.0)),
            Column::Slug => Some(Value::Text(self.slug.0.clone())),
            Column::Name => text_cell(&self.name),
            Column::Location => match self.location {
                Some(p) => Some(Value::Point(p)),
                None => None,
            },
            Column::AdministrativeAreaLevel1 => text_cell(&self.administrative_area_level_1),
            Column::AdministrativeAreaLevel2 => text_cell(&self.administrative_area_level_2),
            Column::Country => text_cell(&self.country),
            Column::CountryCode => match &self.country_code {
                Some(code) => Some(Value::Text(code.0.clone())),
                None => None,
            },
            Column::Locality => text_cell(&self.locality),
            Column::Political => text_cell(&self.political),
            Column::PostalCode => text_cell(&self.postal_code),
            Column::Route => text_cell(&self.route),
            Column::StreetNumber => text_cell(&self.street_number),
            Column::Address => text_cell(&self.address),
            Column::PlaceId => text_cell(&self.place_id),
            _ => None,
        }
    }
}

/// A warehouse as the warehouses relation holds it.
#[derive(Debug, PartialEq, Eq)]
pub struct DbWarehouse(pub Warehouse);

impl View for DbWarehouse {
    type V = WarehouseView;

    open spec fn view(&self) -> WarehouseView {
        self.0@
    }
}

/// The text in a column, if the column holds text.
pub open spec fn text_in(row: RecordView, column: Column) -> Option<Seq<char>> {
    if row.contains_key(column) && row[column] is Text {
        Some(row[column]->Text_0)
    } else {
        None
    }
}

/// The optional text in a column: none where the column is not there or
/// holds null. `None` where the column holds a value that is no text.
pub open spec fn optional_text_in(row: RecordView, column: Column) -> Option<Option<Seq<char>>> {
    if !row.contains_key(column) || row[column] is Null {
        Some(None)
    } else if row[column] is Text {
        Some(Some(row[column]->Text_0))
    } else {
        None
    }
}

/// The optional point in a column: none where the column is not there or
/// holds null. `None` where the column holds a value that is no point.
pub open spec fn optional_point_in(row: RecordView, column: Column) -> Option<Option<GeoPoint>> {
    if !row.contains_key(column) || row[column] is Null {
        Some(None)
    } else if row[column] is Point {
        Some(Some(row[column]->Point_0))
    } else {
        None
    }
}

/// Reads the text in a column.
pub fn read_text(row: &Record, column: Column) -> (text: Option<String>)
    ensures
        text_view(text) == text_in(row@, column),
{
    match row.get(column) {
        Some(Value::Text(s)) => Some(s.clone()),
        _ => None,
    }
}

/// Reads the optional text in a column.
pub fn read_optional_text(row: &Record, column: Column) -> (text: Option<Option<String>>)
    ensures
        text is Some <==> optional_text_in(row@, column) is Some,
        text matches Some(t) ==> optional_text_in(row@, column) == Some(text_view(t)),
{
    match row.get(column) {
        None => Some(None),
        Some(Value::Null) => Some(None),
        Some(Value::Text(s)) => Some(Some(s.clone())),
        Some(_) => None,
    }
}

/// Reads the optional point in a column.
pub fn read_optional_point(row: &Record, column: Column) -> (point: Option<Option<GeoPoint>>)
    ensures
        point == optional_point_in(row@, column),
{
    match row.get(column) {
        None => Some(None),
        Some(Value::Null) => Some(None),
        Some(Value::Point(p)) => Some(Some(*p)),
        Some(_) => None,
    }
}

/// Whether each column of a row is of a warehouse's type. The columns that a
/// warehouse does not have do not count.
pub open spec fn warehouse_typed(row: RecordView) -> bool {
    &&& uuid_in(row, Column::Id) is Some
    &&& int_in(row, Column::StoreId) is Some
    &&& text_in(row, Column::Slug) is Some
    &&& optional_text_in(row, Column::Name) is Some
    &&& optional_point_in(row, Column::Location) is Some
    &&& optional_text_in(row, Column::AdministrativeAreaLevel1) is Some
    &&& optional_text_in(row, Column::AdministrativeAreaLevel2) is Some
    &&& optional_text_in(row, Column::Country) is Some
    &&& optional_text_in(row, Column::CountryCode) is Some
    &&& optional_text_in(row, Column::Locality) is Some
    &&& optional_text_in(row, Column::Political) is Some
    &&& optional_text_in(row, Column::PostalCode) is Some
    &&& optional_text_in(row, Column::Route) is Some
    &&& optional_text_in(row, Column::StreetNumber) is Some
    &&& optional_text_in(row, Column::Address) is Some
    &&& optional_text_in(row, Column::PlaceId) is Some
}

impl Entity for DbWarehouse {
    /// A row holds a warehouse where it holds an identifier in `id`, an
    /// integer in `store_id`, text in `slug`, and in each other column of a
    /// warehouse either nothing, null or a value of the column's type.
    open spec fn decode(row: RecordView) -> Option<WarehouseView> {
        if warehouse_typed(row) {
            Some(
                WarehouseView {
                    id: WarehouseId(uuid_in(row, Column::Id)->0),
                    store_id: StoreId(int_in(row, Column::StoreId)->0),
                    slug: text_in(row, Column::Slug)->0,
                    name: optional_text_in(row, Column::Name)->0,
                    location: optional_point_in(row, Column::Location)->0,
                    administrative_area_level_1: optional_text_in(row, Column::AdministrativeAreaLevel1)->0,
                    administrative_area_level_2: optional_text_in(row, Column::AdministrativeAreaLevel2)->0,
                    country: optional_text_in(row, Column::Country)->0,
                    country_code: optional_text_in(row, Column::CountryCode)->0,
                    locality: optional_text_in(row, Column::Locality)->0,
                    political: optional_text_in(row, Column::Political)->0,
                    postal_code: optional_text_in(row, Column::PostalCode)->0,
                    route: optional_text_in(row, Column::Route)->0,
                    street_number: optional_text_in(row, Column::StreetNumber)->0,
                    address: optional_text_in(row, Column::Address)->0,
                    place_id: optional_text_in(row, Column::PlaceId)->0,
                },
            )
        } else {
            None
        }
    }

    fn from_row(row: &Record) -> (e: Option<DbWarehouse>) {
        let id = match read_uuid(row, Column::Id) {
            Some(v) => v,
            None => return None,
        };
        let store_id = match read_int(row, Column::StoreId) {
            Some(v) => v,
            None => return None,
        };
        let slug = match read_text(row, Column::Slug) {
            Some(v) => v,
            None => return None,
        };
        let name = match read_optional_text(row, Column::Name) {
            Some(v) => v,
            None => return None,
        };
        let location = match read_optional_point(row, Column::Location) {
            Some(v) => v,
            None => return None,
        };
        let administrative_area_level_1 = match read_optional_text(row, Column::AdministrativeAreaLevel1) {
            Some(v) => v,
            None => return None,
        };
        let administrative_area_level_2 = match read_optional_text(row, Column::AdministrativeAreaLevel2) {
            Some(v) => v,
            None => return None,
        };
        let country = match read_optional_text(row, Column::Country) {
            Some(v) => v,
            None => return None,
        };
        let country_code = match read_optional_text(row, Column::CountryCode) {
            Some(v) => v,
            None => return None,
        };
        let locality = match read_optional_text(row, Column::Locality) {
            Some(v) => v,
            None => return None,
        };
        let political = match read_optional_text(row, Column::Political) {
            Some(v) => v,
            None => return None,
        };
        let postal_code = match read_optional_text(row, Column::PostalCode) {
            Some(v) => v,
            None => return None,
        };
        let route = match read_optional_text(row, Column::Route) {
            Some(v) => v,
            None => return None,
        };
        let street_number = match read_optional_text(row, Column::StreetNumber) {
            Some(v) => v,
            None => return None,
        };
        let address = match read_optional_text(row, Column::Address) {
            Some(v) => v,
            None => return None,
        };
        let place_id = match read_optional_text(row, Column::PlaceId) {
            Some(v) => v,
            None => return None,
        };
        Some(
            DbWarehouse(
                Warehouse {
                    id: WarehouseId(id),
                    store_id: StoreId(store_id),
                    slug: WarehouseSlug(slug),
                    name,
                    location,
                    administrative_area_level_1,
                    administrative_area_level_2,
                    country,
                    country_code: match country_code {
                        Some(code) => Some(Alpha3(code)),
                        None => None,
                    },
                    locality,
                    political,
                    postal_code,
                    route,
                    street_number,
                    address,
                    place_id,
                },
            ),
        )
    }
}

impl Inserter for DbWarehouse {
    open spec fn arguments(&self) -> RecordView {
        warehouse_row(self@)
    }

    open spec fn on_conflict(&self) -> Option<OnConflictView> {
        None
    }

    fn into_insert_builder(self, table: &'static str) -> (b: InsertBuilder) {
        let values = Record::collect(&self.0);
        assert(values@ =~= warehouse_row(self@));
        InsertBuilder { table, values, extra: None }
    }
}

/// Selects warehouses: each field that is there must be held by the
/// warehouse; no field selects every warehouse.
#[derive(Debug)]
pub struct WarehouseFilter {
    pub id: Option<ValueContainer<WarehouseId>>,
    pub slug: Option<ValueContainer<WarehouseSlug>>,
    pub store_id: Option<ValueContainer<StoreId>>,
    pub name: Option<ValueContainer<Option<String>>>,
    pub location: Option<ValueContainer<Option<GeoPoint>>>,
    pub administrative_area_level_1: Option<ValueContainer<Option<String>>>,
    pub administrative_area_level_2: Option<ValueContainer<Option<String>>>,
    pub country: Option<ValueContainer<Option<String>>>,
    pub country_code: Option<ValueContainer<Option<Alpha3>>>,
    pub locality: Option<ValueContainer<Option<String>>>,
    pub political: Option<ValueContainer<Option<String>>>,
    pub postal_code: Option<ValueContainer<Option<String>>>,
    pub route: Option<ValueContainer<Option<String>>>,
    pub street_number: Option<ValueContainer<Option<String>>>,
    pub address: Option<ValueContainer<Option<String>>>,
    pub place_id: Option<ValueContainer<Option<String>>>,
}

impl WarehouseFilter {
    /// The filter that selects every warehouse.
    pub open spec fn unconstrained() -> WarehouseFilter {
        WarehouseFilter {
            id: None,
            slug: None,
            store_id: None,
            name: None,
            location: None,
            administrative_area_level_1: None,
            administrative_area_level_2: None,
            country: None,
            country_code: None,
            locality: None,
            political: None,
            postal_code: None,
            route: None,
            street_number: None,
            address: None,
            place_id: None,
        }
    }
}

impl Default for WarehouseFilter {
    fn default() -> (filter: WarehouseFilter)
        ensures
            filter == WarehouseFilter::unconstrained(),
    {
        WarehouseFilter {
            id: None,
            slug: None,
            store_id: None,
            name: None,
            location: None,
            administrative_area_level_1: None,
            administrative_area_level_2: None,
            country: None,
            country_code: None,
            locality: None,
            political: None,
            postal_code: None,
            route: None,
            street_number: None,
            address: None,
            place_id: None,
        }
    }
}

impl Cells for WarehouseFilter {
    /// The value that a warehouse must hold in a column to be selected, if
    /// the filter says one. A field that is there with nothing inside asks
    /// for null.
    open spec fn cell_spec(&self, column: Column) -> Option<ValueView> {
        match column {
            Column::Id => match self.id {
                Some(c) => Some(ValueView::Uuid(c.value.0)),
                None => None,
            },
            Column::StoreId => match self.store_id {
                Some(c) => Some(ValueView::Int(c.value.0)),
                None => None,
            },
            Column::Slug => match self.slug {
                Some(c) => Some(ValueView::Text(c.value.0@)),
                None => None,
            },
            Column::Name => match self.name {
                Some(c) => Some(ValueView::text_or_null(&c.value)),
                None => None,
            },
            Column::Location => match self.location {
                Some(c) => Some(point_or_null(c.value)),
                None => None,
            },
            Column::AdministrativeAreaLevel1 => match self.administrative_area_level_1 {
                Some(c) => Some(ValueView::text_or_null(&c.value)),
                None => None,
            },
            Column::AdministrativeAreaLevel2 => match self.administrative_area_level_2 {
                Some(c) => Some(ValueView::text_or_null(&c.value)),
                None => None,
            },
            Column::Country => match self.country {
                Some(c) => Some(ValueView::text_or_null(&c.value)),
                None => None,
            },
            Column::CountryCode => match self.country_code {
                Some(c) => Some(code_or_null(c.value)),
                None => None,
            },
            Column::Locality => match self.locality {
                Some(c) => Some(ValueView::text_or_null(&c.value)),
                None => None,
            },
            Column::Political => match self.political {
                Some(c) => Some(ValueView::text_or_null(&c.value)),
                None => None,
            },
            Column::PostalCode => match self.postal_code {
                Some(c) => Some(ValueView::text_or_null(&c.value)),
                None => None,
            },
            Column::Route => match self.route {
                Some(c) => Some(ValueView::text_or_null(&c.value)),
                None => None,
            },
            Column::StreetNumber => match self.street_number {
                Some(c) => Some(ValueView::text_or_null(&c.value)),
                None => None,
            },
            Column::Address => match self.address {
                Some(c) => Some(ValueView::text_or_null(&c.value)),
                None => None,
            },
            Column::PlaceId => match self.place_id {
                Some(c) => Some(ValueView::text_or_null(&c.value)),
                None => None,
            },
            _ => None,
        }
    }

    fn cell(&self, column: Column) -> (v: Option<Value>) {
        match column {
            Column::Id => match &self.id {
                Some(c) => Some(Value::Uuid(c.value.0)),
                None => None,
            },
            Column::StoreId => match &self.store_id {
                Some(c) => Some(Value::Int(c.value.0)),
                None => None,
            },
            Column::Slug => match &self.slug {
                Some(c) => Some(Value::Text(c.value.0.clone())),
                None => None,
            },
            Column::Name => match &self.name {
                Some(c) => Some(Value::text_or_null(&c.value)),
                None => None,
            },
            Column::Location => match &self.location {
                Some(c) => Some(point_value(&c.value)),
                None => None,
            },
            Column::AdministrativeAreaLevel1 => match &self.administrative_area_level_1 {
                Some(c) => Some(Value::text_or_null(&c.value)),
                None => None,
            },
            Column::AdministrativeAreaLevel2 => match &self.administrative_area_level_2 {
                Some(c) => Some(Value::text_or_null(&c.value)),
                None => None,
            },
            Column::Country => match &self.country {
                Some(c) => Some(Value::text_or_null(&c.value)),
                None => None,
            },
            Column::CountryCode => match &self.country_code {
                Some(c) => Some(code_value(&c.value)),
                None => None,
            },
            Column::Locality => match &self.locality {
                Some(c) => Some(Value::text_or_null(&c.value)),
                None => None,
            },
            Column::Political => match &self.political {
                Some(c) => Some(Value::text_or_null(&c.value)),
                None => None,
            },
            Column::PostalCode => match &self.postal_code {
                Some(c) => Some(Value::text_or_null(&c.value)),
                None => None,
            },
            Column::Route => match &self.route {
                Some(c) => Some(Value::text_or_null(&c.value)),
                None => None,
            },
            Column::StreetNumber => match &self.street_number {
                Some(c) => Some(Value::text_or_null(&c.value)),
                None => None,
            },
            Column::Address => match &self.address {
                Some(c) => Some(Value::text_or_null(&c.value)),
                None => None,
            },
            Column::PlaceId => match &self.place_id {
                Some(c) => Some(Value::text_or_null(&c.value)),
                None => None,
            },
            _ => None,
        }
    }
}

impl Filter for WarehouseFilter {
    open spec fn predicates(&self) -> RecordView {
        record_of(self)
    }

    fn into_filtered_operation_builder(self, table: &'static str) -> (b: FilteredOperationBuilder) {
        let filters = Record::collect(&self);
        FilteredOperationBuilder { table, filters }
    }
}

impl From<WarehouseIdentifier> for WarehouseFilter {
    /// The filter that selects the warehouse of this identifier or this
    /// slug.
    fn from(v: WarehouseIdentifier) -> (filter: WarehouseFilter) {
        match v {
            WarehouseIdentifier::Id(id) => WarehouseFilter {
                id: Some(ValueContainer { value: id }),
                slug: None,
                store_id: None,
                name: None,
                location: None,
                administrative_area_level_1: None,
                administrative_area_level_2: None,
                country: None,
                country_code: None,
                locality: None,
                political: None,
                postal_code: None,
                route: None,
                street_number: None,
                address: None,
                place_id: None,
            },
            WarehouseIdentifier::Slug(slug) => WarehouseFilter {
                id: None,
                slug: Some(ValueContainer { value: slug }),
                store_id: None,
                name: None,
                location: None,
                administrative_area_level_1: None,
                administrative_area_level_2: None,
                country: None,
                country_code: None,
                locality: None,
                political: None,
                postal_code: None,
                route: None,
                street_number: None,
                address: None,
                place_id: None,
            },
        }
    }
}

impl vstd::std_specs::convert::FromSpecImpl<WarehouseIdentifier> for WarehouseFilter {
    open spec fn obeys_from_spec() -> bool {
        true
    }

    open spec fn from_spec(v: WarehouseIdentifier) -> WarehouseFilter {
        match v {
            WarehouseIdentifier::Id(id) => WarehouseFilter {
                id: Some(ValueContainer { value: id }),
                ..WarehouseFilter::unconstrained()
            },
            WarehouseIdentifier::Slug(slug) => WarehouseFilter {
                slug: Some(ValueContainer { value: slug }),
                ..WarehouseFilter::unconstrained()
            },
        }
    }
}

/// The fields of a warehouse that a patch can set. A field that is not there
/// is left as it is; a field that is there with nothing inside is emptied.
#[derive(Debug)]
pub struct WarehouseUpdateData {
    pub slug: Option<ValueContainer<WarehouseSlug>>,
    pub name: Option<ValueContainer<Option<String>>>,
    pub location: Option<ValueContainer<Option<GeoPoint>>>,
    pub administrative_area_level_1: Option<ValueContainer<Option<String>>>,
    pub administrative_area_level_2: Option<ValueContainer<Option<String>>>,
    pub country: Option<ValueContainer<Option<String>>>,
    pub country_code: Option<ValueContainer<Option<Alpha3>>>,
    pub locality: Option<ValueContainer<Option<String>>>,
    pub political: Option<ValueContainer<Option<String>>>,
    pub postal_code: Option<ValueContainer<Option<String>>>,
    pub route: Option<ValueContainer<Option<String>>>,
    pub street_number: Option<ValueContainer<Option<String>>>,
    pub address: Option<ValueContainer<Option<String>>>,
    pub place_id: Option<ValueContainer<Option<String>>>,
}

impl WarehouseUpdateData {
    /// The patch that sets nothing.
    pub open spec fn untouched() -> WarehouseUpdateData {
        WarehouseUpdateData {
            slug: None,
            name: None,
            location: None,
            administrative_area_level_1: None,
            administrative_area_level_2: None,
            country: None,
            country_code: None,
            locality: None,
            political: None,
            postal_code: None,
            route: None,
            street_number: None,
            address: None,
            place_id: None,
        }
    }
}

impl Default for WarehouseUpdateData {
    fn default() -> (data: WarehouseUpdateData)
        ensures
            data == WarehouseUpdateData::untouched(),
    {
        WarehouseUpdateData {
            slug: None,
            name: None,
            location: None,
            administrative_area_level_1: None,
            administrative_area_level_2: None,
            country: None,
            country_code: None,
            locality: None,
            political: None,
            postal_code: None,
            route: None,
            street_number: None,
            address: None,
            place_id: None,
        }
    }
}

impl Cells for WarehouseUpdateData {
    /// The value that the patch gives a column, if it sets the column. A
    /// field that is there with nothing inside sets null.
    open spec fn cell_spec(&self, column: Column) -> Option<ValueView> {
        match column {
            Column::Slug => match self.slug {
                Some(c) => Some(ValueView::Text(c.value.0@)),
                None => None,
            },
            Column::Name => match self.name {
                Some(c) => Some(ValueView::text_or_null(&c.value)),
                None => None,
            },
            Column::Location => match self.location {
                Some(c) => Some(point_or_null(c.value)),
                None => None,
            },
            Column::AdministrativeAreaLevel1 => match self.administrative_area_level_1 {
                Some(c) => Some(ValueView::text_or_null(&c.value)),
                None => None,
            },
            Column::AdministrativeAreaLevel2 => match self.administrative_area_level_2 {
                Some(c) => Some(ValueView::text_or_null(&c.value)),
                None => None,
            },
            Column::Country => match self.country {
                Some(c) => Some(ValueView::text_or_null(&c.value)),
                None => None,
            },
            Column::CountryCode => match self.country_code {
                Some(c) => Some(code_or_null(c.value)),
                None => None,
            },
            Column::Locality => match self.locality {
                Some(c) => Some(ValueView::text_or_null(&c.value)),
                None => None,
            },
            Column::Political => match self.political {
                Some(c) => Some(ValueView::text_or_null(&c.value)),
                None => None,
            },
            Column::PostalCode => match self.postal_code {
                Some(c) => Some(ValueView::text_or_null(&c.value)),
                None => None,
            },
            Column::Route => match self.route {
                Some(c) => Some(ValueView::text_or_null(&c.value)),
                None => None,
            },
            Column::StreetNumber => match self.street_number {
                Some(c) => Some(ValueView::text_or_null(&c.value)),
                None => None,
            },
            Column::Address => match self.address {
                Some(c) => Some(ValueView::text_or_null(&c.value)),
                None => None,
            },
            Column::PlaceId => match self.place_id {
                Some(c) => Some(ValueView::text_or_null(&c.value)),
                None => None,
            },
            _ => None,
        }
    }

    fn cell(&self, column: Column) -> (v: Option<Value>) {
        match column {
            Column::Slug => match &self.slug {
                Some(c) => Some(Value::Text(c.value.0.clone())),
                None => None,
            },
            Column::Name => match &self.name {
                Some(c) => Some(Value::text_or_null(&c.value)),
                None => None,
            },
            Column::Location => match &self.location {
                Some(c) => Some(point_value(&c.value)),
                None => None,
            },
            Column::AdministrativeAreaLevel1 => match &self.administrative_area_level_1 {
                Some(c) => Some(Value::text_or_null(&c.value)),
                None => None,
            },
            Column::AdministrativeAreaLevel2 => match &self.administrative_area_level_2 {
                Some(c) => Some(Value::text_or_null(&c.value)),
                None => None,
            },
            Column::Country => match &self.country {
                Some(c) => Some(Value::text_or_null(&c.value)),
                None => None,
            },
            Column::CountryCode => match &self.country_code {
                Some(c) => Some(code_value(&c.value)),
                None => None,
            },
            Column::Locality => match &self.locality {
                Some(c) => Some(Value::text_or_null(&c.value)),
                None => None,
            },
            Column::Political => match &self.political {
                Some(c) => Some(Value::text_or_null(&c.value)),
                None => None,
            },
            Column::PostalCode => match &self.postal_code {
                Some(c) => Some(Value::text_or_null(&c.value)),
                None => None,
            },
            Column::Route => match &self.route {
                Some(c) => Some(Value::text_or_null(&c.value)),
                None => None,
            },
            Column::StreetNumber => match &self.street_number {
                Some(c) => Some(Value::text_or_null(&c.value)),
                None => None,
            },
            Column::Address => match &self.address {
                Some(c) => Some(Value::text_or_null(&c.value)),
                None => None,
            },
            Column::PlaceId => match &self.place_id {
                Some(c) => Some(Value::text_or_null(&c.value)),
                None => None,
            },
            _ => None,
        }
    }
}

/// A patch for the warehouses that `mask` selects.
#[derive(Debug)]
pub struct WarehouseUpdater {
    pub mask: WarehouseFilter,
    pub data: WarehouseUpdateData,
}

impl Updater for WarehouseUpdater {
    open spec fn target(&self) -> RecordView {
        self.mask.predicates()
    }

    open spec fn patch(&self) -> RecordView {
        record_of(&self.data)
    }

    fn into_update_builder(self, table: &'static str) -> (b: UpdateBuilder) {
        let values = Record::collect(&self.data);
        let filter = self.mask.into_filtered_operation_builder(table);
        UpdateBuilder { table: filter.table, filters: filter.filters, values }
    }
}

/// A warehouse reads back from its own row as itself.
pub proof fn lemma_warehouse_row_decodes(w: WarehouseView)
    ensures
        DbWarehouse::decode(warehouse_row(w)) == Some(w),
{
    let row = warehouse_row(w);
    assert(warehouse_typed(row));
}

} // verus!
