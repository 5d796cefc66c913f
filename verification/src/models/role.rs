//! Role grants: who a caller is, and what the grants that the caller holds
//! allow.

use vstd::prelude::*;
use vstd::string::*;
use crate::decimal::signed_decimal;
use crate::errors::Error;
use crate::json::{json_i32, parse_json_i32, write_json_i32};
use crate::models::stock::{int_in, read_int, read_uuid, uuid_in};
use crate::models::warehouse::{read_text, text_in, text_view};
use crate::repo::Entity;
use crate::schema::Column;
use crate::statement::{
    Filter, FilteredOperationBuilder, InsertBuilder, Inserter, OnConflictView, UpdateBuilder,
    Updater,
};
use crate::storage::same_text;
use crate::types::{RoleEntryId, StoreId, UserId};
use crate::value::{record_of, value_view, Cells, Record, RecordView, Value, ValueView};

verus! {

/// The kinds of capability.
#[derive(Clone, Copy, Debug, PartialEq, Eq, Hash, Structural)]
pub enum UserRoleName {
    Superadmin,
    StoreManager,
}

/// A capability. The set is closed: a new kind of capability is a new
/// variant.
#[derive(Clone, Copy, Debug, PartialEq, Eq, Hash, Structural)]
pub enum UserRole {
    /// May do everything.
    Superadmin,
    /// May manage what belongs to one store.
    StoreManager(StoreId),
}

/// The capability that a stored kind stands for, with the store's number
/// that was read from the stored data, if one was read: a superadmin
/// whatever the number, the manager of the store of the number, and nothing
/// for any other kind or where no number was read.
pub open spec fn role_named(variant: Seq<char>, store: Option<i32>) -> Option<UserRole> {
    if variant == "superadmin"@ {
        Some(UserRole::Superadmin)
    } else if variant == "store_manager"@ {
        match store {
            Some(store) => Some(UserRole::StoreManager(StoreId(store))),
            None => None,
        }
    } else {
        None
    }
}

/// The capability that a stored kind and its stored data stand for: the
/// data is read as the number of a store.
pub open spec fn role_from_db(variant: Seq<char>, data: Seq<char>) -> Option<UserRole> {
    role_named(variant, json_i32(data))
}

/// The kind and the data that store a capability.
pub open spec fn role_into_db(role: UserRole) -> (Seq<char>, Seq<char>) {
    match role {
        UserRole::Superadmin => ("superadmin"@, "null"@),
        UserRole::StoreManager(store) => ("store_manager"@, signed_decimal(store.0 as int)),
    }
}

impl UserRole {
    /// Whether the capability is that of a superadmin.
    pub fn is_su(&self) -> (b: bool)
        ensures
            b == (*self is Superadmin),
    {
        match self {
            UserRole::Superadmin => true,
            _ => false,
        }
    }

    /// The store that the capability manages, if it is that of a manager.
    pub fn managed_store(&self) -> (store: Option<StoreId>)
        ensures
            store == match *self {
                UserRole::StoreManager(s) => Some(s),
                UserRole::Superadmin => None,
            },
    {
        match self {
            UserRole::StoreManager(s) => Some(*s),
            UserRole::Superadmin => None,
        }
    }

    /// The kind of the capability.
    pub fn name(&self) -> (name: UserRoleName)
        ensures
            name == match *self {
                UserRole::Superadmin => UserRoleName::Superadmin,
                UserRole::StoreManager(_) => UserRoleName::StoreManager,
            },
    {
        match self {
            UserRole::Superadmin => UserRoleName::Superadmin,
            UserRole::StoreManager(_) => UserRoleName::StoreManager,
        }
    }

    /// The capability of a stored kind, with the store's number that was
    /// read from the stored data; a parse error where they stand for none.
    pub fn from_parts(variant: &str, store: Option<i32>) -> (r: Result<UserRole, Error>)
        ensures
            match role_named(variant@, store) {
                Some(role) => r == Ok::<UserRole, Error>(role),
                None => r == Err::<UserRole, Error>(Error::ParseError),
            },
    {
        if same_text(variant, "superadmin") {
            Ok(UserRole::Superadmin)
        } else if same_text(variant, "store_manager") {
            match store {
                Some(store) => Ok(UserRole::StoreManager(StoreId(store))),
                None => Err(Error::ParseError),
            }
        } else {
            Err(Error::ParseError)
        }
    }

    /// Reads a capability from its stored kind and data; a parse error where
    /// they stand for none.
    pub fn from_db(variant: &str, data: &str) -> (r: Result<UserRole, Error>)
        ensures
            match role_from_db(variant@, data@) {
                Some(role) => r == Ok::<UserRole, Error>(role),
                None => r == Err::<UserRole, Error>(Error::ParseError),
            },
    {
        UserRole::from_parts(variant, parse_json_i32(data))
    }

    /// The kind and the data that store the capability. What is written
    /// reads back as the same capability.
    pub fn into_db(self) -> (stored: (String, String))
        ensures
            (stored.0@, stored.1@) == role_into_db(self),
            role_from_db(stored.0@, stored.1@) == Some(self),
    {
        match self {
            UserRole::Superadmin => (String::from_str("superadmin"), String::from_str("null")),
            UserRole::StoreManager(store) => {
                proof {
                    reveal_strlit("superadmin");
                    reveal_strlit("store_manager");
                    assert("superadmin"@.len() != "store_manager"@.len());
                }
                let data: String = match write_json_i32(store.0) {
                    Some(text) => text,
                    None => String::from_str("null"),
                };
                (String::from_str("store_manager"), data)
            },
        }
    }
}

/// A role grant: a caller and one capability that the caller holds.
#[derive(Clone, Copy, Debug, PartialEq, Eq, Hash, Structural)]
pub struct RoleEntry {
    pub id: RoleEntryId,
    pub user_id: UserId,
    pub role: UserRole,
}

impl View for RoleEntry {
    type V = RoleEntry;

    open spec fn view(&self) -> RoleEntry {
        *self
    }
}

/// Who is calling: nobody in particular, or a caller with the grants that
/// were found for the caller when the request began.
#[derive(Debug, PartialEq, Eq)]
pub enum RepoLogin {
    Anonymous,
    User { caller_id: UserId, caller_roles: Vec<RoleEntry> },
}

/// Who is calling.
pub type UserLogin = RepoLogin;

/// Copies of the grants.
pub fn clone_grants(grants: &Vec<RoleEntry>) -> (copy: Vec<RoleEntry>)
    ensures
        copy@ == grants@,
{
    let mut copy: Vec<RoleEntry> = Vec::new();
    let mut i: usize = 0;
    while i < grants.len()
        invariant
            i <= grants.len(),
            copy@ == grants@.take(i as int),
        decreases grants.len() - i,
    {
        copy.push(grants[i]);
        assert(copy@ =~= grants@.take(i as int + 1));
        i = i + 1;
    }
    assert(grants@.take(grants.len() as int) =~= grants@);
    copy
}

impl RepoLogin {
    /// The grants that the caller holds: none for an anonymous caller.
    pub open spec fn grants(&self) -> Seq<RoleEntry> {
        match self {
            RepoLogin::Anonymous => Seq::empty(),
            RepoLogin::User { caller_roles, .. } => caller_roles@,
        }
    }

    /// The caller, if the caller is known.
    pub open spec fn caller(&self) -> Option<UserId> {
        match self {
            RepoLogin::Anonymous => None,
            RepoLogin::User { caller_id, .. } => Some(*caller_id),
        }
    }
}

impl Clone for RepoLogin {
    fn clone(&self) -> (copy: RepoLogin)
        ensures
            copy.grants() == self.grants(),
            copy.caller() == self.caller(),
    {
        match self {
            RepoLogin::Anonymous => RepoLogin::Anonymous,
            RepoLogin::User { caller_id, caller_roles } => RepoLogin::User {
                caller_id: *caller_id,
                caller_roles: clone_grants(caller_roles),
            },
        }
    }
}

/// What a grant holds in a column: its identifier, its caller, and the kind
/// and data that store its capability.
pub open spec fn role_cell(entry: RoleEntry, column: Column) -> Option<ValueView> {
    match column {
        Column::Id => Some(ValueView::Uuid(entry.id.0)),
        Column::UserId => Some(ValueView::Int(entry.user_id.0)),
        Column::Name => Some(ValueView::Text(role_into_db(entry.role).0)),
        Column::Data => Some(ValueView::Text(role_into_db(entry.role).1)),
        _ => None,
    }
}

/// The row of a grant.
pub open spec fn role_row(entry: RoleEntry) -> RecordView {
    Map::new(|c: Column| role_cell(entry, c) is Some, |c: Column| role_cell(entry, c)->0)
}

impl Entity for RoleEntry {
    /// A row holds a grant where it holds an identifier in `id`, an integer
    /// in `user_id`, and in `name` and `data` texts that stand for a
    /// capability.
    open spec fn decode(row: RecordView) -> Option<RoleEntry> {
        match (
            uuid_in(row, Column::Id),
            int_in(row, Column::UserId),
            text_in(row, Column::Name),
            text_in(row, Column::Data),
        ) {
            (Some(id), Some(user_id), Some(name), Some(data)) => match role_from_db(name, data) {
                Some(role) => Some(RoleEntry { id: RoleEntryId(id), user_id: UserId(user_id), role }),
                None => None,
            },
            _ => None,
        }
    }

    fn from_row(row: &Record) -> (e: Option<RoleEntry>) {
        let id = match read_uuid(row, Column::Id) {
            Some(v) => v,
            None => return None,
        };
        let user_id = match read_int(row, Column::UserId) {
            Some(v) => v,
            None => return None,
        };
        let name = match read_text(row, Column::Name) {
            Some(v) => v,
            None => return None,
        };
        let data = match read_text(row, Column::Data) {
            Some(v) => v,
            None => return None,
        };
        match UserRole::from_db(name.as_str(), data.as_str()) {
            Ok(role) => Some(RoleEntry { id: RoleEntryId(id), user_id: UserId(user_id), role }),
            Err(_) => None,
        }
    }
}

impl Inserter for RoleEntry {
    open spec fn arguments(&self) -> RecordView {
        role_row(*self)
    }

    open spec fn on_conflict(&self) -> Option<OnConflictView> {
        None
    }

    /// The statement that inserts the grant. The row that it inserts reads
    /// back as the grant.
    fn into_insert_builder(self, table: &'static str) -> (b: InsertBuilder)
        ensures
            RoleEntry::decode(b@.values) == Some(self),
    {
        let (name, data) = self.role.into_db();
        let b = InsertBuilder::new(table).with_arg(Column::Id, Value::Uuid(self.id.0)).with_arg(
            Column::UserId,
            Value::Int(self.user_id.0),
        ).with_arg(Column::Name, Value::Text(name)).with_arg(Column::Data, Value::Text(data));
        assert(b@.values =~= role_row(self));
        b
    }
}

/// Selects grants: each field that is there must be held by the grant; no
/// field selects every grant.
#[derive(Clone, Copy, Debug, Default)]
pub struct RoleFilter {
    pub id: Option<RoleEntryId>,
    pub user_id: Option<UserId>,
    pub role: Option<UserRole>,
}

impl Cells for RoleFilter {
    /// The value that a grant must hold in a column to be selected, if the
    /// filter says one. A capability is asked for by its kind and its data.
    open spec fn cell_spec(&self, column: Column) -> Option<ValueView> {
        match column {
            Column::Id => match self.id {
                Some(id) => Some(ValueView::Uuid(id.0)),
                None => None,
            },
            Column::UserId => match self.user_id {
                Some(id) => Some(ValueView::Int(id.0)),
                None => None,
            },
            Column::Name => match self.role {
                Some(role) => Some(ValueView::Text(role_into_db(role).0)),
                None => None,
            },
            Column::Data => match self.role {
                Some(role) => Some(ValueView::Text(role_into_db(role).1)),
                None => None,
            },
            _ => None,
        }
    }

    fn cell(&self, column: Column) -> (v: Option<Value>) {
        match column {
            Column::Id => match self.id {
                Some(id) => Some(Value::Uuid(id.0)),
                None => None,
            },
            Column::UserId => match self.user_id {
                Some(id) => Some(Value::Int(id.0)),
                None => None,
            },
            Column::Name => match self.role {
                Some(role) => Some(Value::Text(role.into_db().0)),
                None => None,
            },
            Column::Data => match self.role {
                Some(role) => Some(Value::Text(role.into_db().1)),
                None => None,
            },
            _ => None,
        }
    }
}

impl Filter for RoleFilter {
    open spec fn predicates(&self) -> RecordView {
        record_of(self)
    }

    fn into_filtered_operation_builder(self, table: &'static str) -> (b: FilteredOperationBuilder) {
        let filters = Record::collect(&self);
        FilteredOperationBuilder { table, filters }
    }
}

/// The patch of a grant. Grants are made and removed, never changed: the
/// patch sets no column, so an update with it leaves every grant as it is.
#[derive(Clone, Copy, Debug, Default)]
pub struct DummyRoleUpdater;

impl Updater for DummyRoleUpdater {
    open spec fn target(&self) -> RecordView {
        Map::empty()
    }

    open spec fn patch(&self) -> RecordView {
        Map::empty()
    }

    fn into_update_builder(self, table: &'static str) -> (b: UpdateBuilder) {
        UpdateBuilder::from(FilteredOperationBuilder::new(table))
    }
}

} // verus!
