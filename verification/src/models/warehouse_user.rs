//! Users of warehouses, in the relation that numbers its rows: the entity,
//! and the payloads that select, create and change it.

use vstd::prelude::*;
use vstd::string::*;
use crate::errors::Error;
use crate::models::stock::{int_in, read_int, read_uuid, uuid_in};
use crate::models::warehouse::{read_text, text_in};
use crate::models::ValueContainer;
use crate::repo::Entity;
use crate::schema::Column;
use crate::statement::{
    Filter, FilteredOperationBuilder, InsertBuilder, Inserter, OnConflictView, UpdateBuilder,
    Updater,
};
use crate::storage::same_text;
use crate::types::{UserId, WarehouseId, WarehouseUserId};
use crate::value::{record_of, Cells, Record, RecordView, Value, ValueView};

verus! {

/// What a user is to a warehouse.
#[derive(Clone, Copy, Debug, PartialEq, Eq, Hash, Structural)]
pub enum WarehouseUserRole {
    Manager,
    Admin,
}

/// The name of a role, as it is stored and shown.
pub open spec fn role_name(role: WarehouseUserRole) -> Seq<char> {
    match role {
        WarehouseUserRole::Manager => "manager"@,
        WarehouseUserRole::Admin => "admin"@,
    }
}

/// The role of a name; nothing for a text that names no role.
pub open spec fn role_of_name(name: Seq<char>) -> Option<WarehouseUserRole> {
    if name == "manager"@ {
        Some(WarehouseUserRole::Manager)
    } else if name == "admin"@ {
        Some(WarehouseUserRole::Admin)
    } else {
        None
    }
}

/// The name of a role names that role.
pub proof fn lemma_role_name_reads_back(role: WarehouseUserRole)
    ensures
        role_of_name(role_name(role)) == Some(role),
{
    reveal_strlit("manager");
    reveal_strlit("admin");
    assert("manager"@.len() != "admin"@.len());
}

impl WarehouseUserRole {
    /// The name of the role.
    pub fn as_str(&self) -> (name: &'static str)
        ensures
            name@ == role_name(*self),
    {
        match self {
            WarehouseUserRole::Manager => "manager",
            WarehouseUserRole::Admin => "admin",
        }
    }

    /// The name of the role, as a text of its own.
    pub fn to_string(&self) -> (name: String)
        ensures
            name@ == role_name(*self),
    {
        String::from_str(self.as_str())
    }

    /// The role of a name; a parse error for a text that names no role.
    pub fn parse(s: &str) -> (r: Result<WarehouseUserRole, Error>)
        ensures
            r == match role_of_name(s@) {
                Some(role) => Ok::<WarehouseUserRole, Error>(role),
                None => Err::<WarehouseUserRole, Error>(Error::ParseError),
            },
    {
        if same_text(s, "manager") {
            Ok(WarehouseUserRole::Manager)
        } else if same_text(s, "admin") {
            Ok(WarehouseUserRole::Admin)
        } else {
            Err(Error::ParseError)
        }
    }
}

impl core::str::FromStr for WarehouseUserRole {
    type Err = Error;

    /// The role of a name; a parse error for a text that names no role.
    fn from_str(s: &str) -> (r: Result<WarehouseUserRole, Error>)
        ensures
            r == match role_of_name(s@) {
                Some(role) => Ok::<WarehouseUserRole, Error>(role),
                None => Err::<WarehouseUserRole, Error>(Error::ParseError),
            },
    {
        WarehouseUserRole::parse(s)
    }
}

/// A user of a warehouse.
#[derive(Clone, Copy, Debug, PartialEq, Eq, Structural)]
pub struct WarehouseUser {
    pub id: WarehouseUserId,
    pub warehouse_id: WarehouseId,
    pub user_id: UserId,
    pub role: WarehouseUserRole,
}

impl View for WarehouseUser {
    type V = WarehouseUser;

    open spec fn view(&self) -> WarehouseUser {
        *self
    }
}

/// What is known of a user of a warehouse besides their identities.
#[derive(Clone, Copy, Debug, PartialEq, Eq, Structural)]
pub struct WarehouseUserMeta {
    pub role: WarehouseUserRole,
}

impl Entity for WarehouseUser {
    /// A row holds a user of a warehouse where it holds integers in `id`
    /// and `user_id`, an identifier in `warehouse_id`, and in `role` the
    /// name of a role.
    open spec fn decode(row: RecordView) -> Option<WarehouseUser> {
        match (
            int_in(row, Column::Id),
            uuid_in(row, Column::WarehouseId),
            int_in(row, Column::UserId),
            text_in(row, Column::Role),
        ) {
            (Some(id), Some(warehouse_id), Some(user_id), Some(name)) => match role_of_name(name) {
                Some(role) => Some(
                    WarehouseUser {
                        id: WarehouseUserId(id),
                        warehouse_id: WarehouseId(warehouse_id),
                        user_id: UserId(user_id),
                        role,
                    },
                ),
                None => None,
            },
            _ => None,
        }
    }

    fn from_row(row: &Record) -> (e: Option<WarehouseUser>) {
        let id = match read_int(row, Column::Id) {
            Some(v) => v,
            None => return None,
        };
        let warehouse_id = match read_uuid(row, Column::WarehouseId) {
            Some(v) => v,
            None => return None,
        };
        let user_id = match read_int(row, Column::UserId) {
            Some(v) => v,
            None => return None,
        };
        let name = match read_text(row, Column::Role) {
            Some(v) => v,
            None => return None,
        };
        match WarehouseUserRole::parse(name.as_str()) {
            Ok(role) => Some(
                WarehouseUser {
                    id: WarehouseUserId(id),
                    warehouse_id: WarehouseId(warehouse_id),
                    user_id: UserId(user_id),
                    role,
                },
            ),
            Err(_) => None,
        }
    }
}

/// What it takes to make a user a user of a warehouse. The relation numbers
/// the entry.
#[derive(Clone, Copy, Debug, PartialEq, Eq, Structural)]
pub struct WarehouseUserInserter {
    pub warehouse_id: WarehouseId,
    pub user_id: UserId,
    pub role: WarehouseUserRole,
}

impl Cells for WarehouseUserInserter {
    /// What the new row holds in a column: the warehouse, the user and the
    /// name of the role, and no identifier.
    open spec fn cell_spec(&self, column: Column) -> Option<ValueView> {
        match column {
            Column::WarehouseId => Some(ValueView::Uuid(self.warehouse_id.0)),
            Column::UserId => Some(ValueView::Int(self.user_id.0)),
            Column::Role => Some(ValueView::Text(role_name(self.role))),
            _ => None,
        }
    }

    fn cell(&self, column: Column) -> (v: Option<Value>) {
        match column {
            Column::WarehouseId => Some(Value::Uuid(self.warehouse_id.0)),
            Column::UserId => Some(Value::Int(self.user_id.0)),
            Column::Role => Some(Value::Text(self.role.to_string())),
            _ => None,
        }
    }
}

impl Inserter for WarehouseUserInserter {
    open spec fn arguments(&self) -> RecordView {
        record_of(self)
    }

    open spec fn on_conflict(&self) -> Option<OnConflictView> {
        None
    }

    fn into_insert_builder(self, table: &'static str) -> (b: InsertBuilder) {
        let values = Record::collect(&self);
        InsertBuilder { table, values, extra: None }
    }
}

/// Selects users of warehouses: each field that is there must be held by
/// the entry; no field selects every entry.
#[derive(Clone, Copy, Debug)]
pub struct WarehouseUserFilter {
    pub id: Option<ValueContainer<WarehouseUserId>>,
    pub warehouse_id: Option<ValueContainer<WarehouseId>>,
    pub user_id: Option<ValueContainer<UserId>>,
    pub role: Option<ValueContainer<WarehouseUserRole>>,
}

impl Cells for WarehouseUserFilter {
    /// The value that an entry must hold in a column to be selected, if the
    /// filter says one.
    open spec fn cell_spec(&self, column: Column) -> Option<ValueView> {
        match column {
            Column::Id => match self.id {
                Some(c) => Some(ValueView::Int(c.value.0)),
                None => None,
            },
            Column::WarehouseId => match self.warehouse_id {
                Some(c) => Some(ValueView::Uuid(c.value.0)),
                None => None,
            },
            Column::UserId => match self.user_id {
                Some(c) => Some(ValueView::Int(c.value.0)),
                None => None,
            },
            Column::Role => match self.role {
                Some(c) => Some(ValueView::Text(role_name(c.value))),
                None => None,
            },
            _ => None,
        }
    }

    fn cell(&self, column: Column) -> (v: Option<Value>) {
        match column {
            Column::Id => match self.id {
                Some(c) => Some(Value::Int(c.value.0)),
                None => None,
            },
            Column::WarehouseId => match self.warehouse_id {
                Some(c) => Some(Value::Uuid(c.value.0)),
                None => None,
            },
            Column::UserId => match self.user_id {
                Some(c) => Some(Value::Int(c.value.0)),
                None => None,
            },
            Column::Role => match self.role {
                Some(c) => Some(Value::Text(c.value.to_string())),
                None => None,
            },
            _ => None,
        }
    }
}

impl Filter for WarehouseUserFilter {
    open spec fn predicates(&self) -> RecordView {
        record_of(self)
    }

    fn into_filtered_operation_builder(self, table: &'static str) -> (b: FilteredOperationBuilder) {
        let filters = Record::collect(&self);
        FilteredOperationBuilder { table, filters }
    }
}

/// The fields of an entry that a patch can set.
#[derive(Clone, Copy, Debug)]
pub struct WarehouseUserUpdateData {
    pub role: Option<ValueContainer<WarehouseUserRole>>,
}

impl Cells for WarehouseUserUpdateData {
    /// The value that the patch gives a column, if it sets the column.
    open spec fn cell_spec(&self, column: Column) -> Option<ValueView> {
        match column {
            Column::Role => match self.role {
                Some(c) => Some(ValueView::Text(role_name(c.value))),
                None => None,
            },
            _ => None,
        }
    }

    fn cell(&self, column: Column) -> (v: Option<Value>) {
        match column {
            Column::Role => match self.role {
                Some(c) => Some(Value::Text(c.value.to_string())),
                None => None,
            },
            _ => None,
        }
    }
}

/// A patch for the entries that `mask` selects.
#[derive(Clone, Copy, Debug)]
pub struct WarehouseUserUpdater {
    pub mask: WarehouseUserFilter,
    pub data: WarehouseUserUpdateData,
}

impl Updater for WarehouseUserUpdater {
    open spec fn target(&self) -> RecordView {
        self.mask.predicates()
    }

    open spec fn patch(&self) -> RecordView {
        record_of(&self.data)
    }

    fn into_update_builder(self, table: &'static str) -> (b: UpdateBuilder) {
        let values = Record::collect(&self.data);
        let filter = self.mask.into_filtered_operation_builder(table);
        UpdateBuilder { table: filter.table, filters: filter.filters, values }
    }
}

} // verus!
