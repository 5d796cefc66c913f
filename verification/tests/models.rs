//! Entities, payloads, policies and the generic repository on concrete
//! values.

use warehouses::acl::{AclEngine, Action, SystemACL, UnauthorizedACL};
use warehouses::errors::{Error, RepoError, StorageFault};
use warehouses::models::role::{
    DummyRoleUpdater, RepoLogin, RoleEntry, RoleFilter, UserLogin, UserRole, UserRoleName,
};
use warehouses::models::stock::{DbStock, Stock, StockFilter, StockUpdateData, StockUpdater};
use warehouses::models::warehouse::{
    DbWarehouse, Warehouse, WarehouseFilter, WarehouseInput, WarehouseUpdateData, WarehouseUpdater,
};
use warehouses::models::ValueContainer;
use warehouses::repo::{DbRepo, DbRepoImpl, Entity};
use warehouses::repos;
use warehouses::schema::Column;
use warehouses::statement::{Filter, Inserter, Updater};
use warehouses::storage::Table;
use warehouses::types::{
    is_random_uuid_bits, Alpha3, GeoPoint, ProductId, Quantity, RoleEntryId, StockId, StoreId,
    UserId, WarehouseId, WarehouseIdentifier, WarehouseSlug,
};
use warehouses::value::{Record, Value};

fn warehouse(id: u128, store: i32, slug: &str) -> Warehouse {
    WarehouseInput { id: WarehouseId(id), ..WarehouseInput::new(StoreId(store)) }
        .with_slug(WarehouseSlug(slug.to_string()))
}

fn manager(user: i32, store: i32) -> UserLogin {
    UserLogin::User {
        caller_id: UserId(user),
        caller_roles: vec![RoleEntry {
            id: RoleEntryId(user as u128),
            user_id: UserId(user),
            role: UserRole::StoreManager(StoreId(store)),
        }],
    }
}

fn superadmin() -> UserLogin {
    UserLogin::User {
        caller_id: UserId(1),
        caller_roles: vec![RoleEntry {
            id: RoleEntryId(1),
            user_id: UserId(1),
            role: UserRole::Superadmin,
        }],
    }
}

fn warehouses_table() -> Table {
    Table::new(repos::warehouses::TABLE, vec![vec![Column::Id], vec![Column::Slug]])
}

fn by_id(id: u128) -> WarehouseFilter {
    WarehouseFilter::from(WarehouseIdentifier::Id(WarehouseId(id)))
}

#[test]
fn value_container_wraps() {
    assert_eq!(ValueContainer::from(5), ValueContainer { value: 5 });
    let wrapped: ValueContainer<Option<String>> = None.into();
    assert_eq!(wrapped.value, None);
}

#[test]
fn errors_have_their_status() {
    assert_eq!(Error::MissingUserId.code(), 400);
    assert_eq!(Error::UserIdParse.code(), 400);
    assert_eq!(Error::ParseError.code(), 422);
    assert_eq!(Error::InvalidRoute.code(), 404);
    assert_eq!(Error::NotFound.code(), 404);
    assert_eq!(Error::NotFound.payload(), None);
    assert_eq!(Error::MissingUserId.message(), "Missing user_id");
    assert_eq!(Error::UserIdParse.message(), "Failed to parse user_id");
    assert_eq!(Error::ParseError.message(), "Parse failure");
    assert_eq!(Error::InvalidRoute.message(), "Invalid route");
    assert_eq!(Error::NotFound.message(), "Not found");
    assert_eq!(RepoError::Storage(StorageFault::MalformedRow).code(), 500);
    assert_eq!(RepoError::NotFound.code(), 404);
    assert_eq!(RepoError::MultipleRowsMatched.code(), 500);
    assert_eq!(RepoError::Forbidden.code(), 403);
    assert_eq!(RepoError::ConstraintViolation.code(), 409);
    assert_eq!(RepoError::Forbidden.message(), "Forbidden");
    assert_eq!(RepoError::Storage(StorageFault::UnknownRelation).message(), "Storage failure");
    assert_eq!(RepoError::NotFound.message(), "Not found");
    assert_eq!(RepoError::MultipleRowsMatched.message(), "Multiple rows matched");
    assert_eq!(RepoError::ConstraintViolation.message(), "Constraint violation");
}

#[test]
fn fresh_identifiers_are_random_uuids() {
    let a = WarehouseId::new();
    let b = WarehouseId::new();
    assert_ne!(a, b);
    for bits in [a.0, b.0, StockId::new().0, RoleEntryId::new().0] {
        assert!(is_random_uuid_bits(bits));
        assert_eq!((bits >> 76) & 0xf, 4);
        assert_eq!((bits >> 62) & 0x3, 2);
    }
    assert!(!is_random_uuid_bits(0));
}

#[test]
fn roles_are_stored_by_kind_and_data() {
    assert!(UserRole::Superadmin.is_su());
    assert!(!UserRole::StoreManager(StoreId(1)).is_su());
    assert_eq!(UserRole::Superadmin.managed_store(), None);
    assert_eq!(UserRole::StoreManager(StoreId(4)).managed_store(), Some(StoreId(4)));
    assert_eq!(UserRole::Superadmin.name(), UserRoleName::Superadmin);
    assert_eq!(UserRole::StoreManager(StoreId(4)).name(), UserRoleName::StoreManager);

    assert_eq!(UserRole::Superadmin.into_db(), ("superadmin".to_string(), "null".to_string()));
    assert_eq!(
        UserRole::StoreManager(StoreId(423452345)).into_db(),
        ("store_manager".to_string(), "423452345".to_string())
    );
    assert_eq!(
        UserRole::StoreManager(StoreId(-7)).into_db(),
        ("store_manager".to_string(), "-7".to_string())
    );
    assert_eq!(
        UserRole::StoreManager(StoreId(i32::MIN)).into_db().1,
        "-2147483648".to_string()
    );

    assert_eq!(UserRole::from_parts("superadmin", None), Ok(UserRole::Superadmin));
    assert_eq!(UserRole::from_parts("superadmin", Some(3)), Ok(UserRole::Superadmin));
    assert_eq!(UserRole::from_parts("store_manager", Some(3)), Ok(UserRole::StoreManager(StoreId(3))));
    assert_eq!(UserRole::from_parts("store_manager", None), Err(Error::ParseError));
    assert_eq!(UserRole::from_parts("Superadmin", None), Err(Error::ParseError));
    assert_eq!(UserRole::from_db("superadmin", "null"), Ok(UserRole::Superadmin));
    assert_eq!(UserRole::from_db("superadmin", "whatever"), Ok(UserRole::Superadmin));
    assert_eq!(UserRole::from_db("store_manager", "42"), Ok(UserRole::StoreManager(StoreId(42))));
    assert_eq!(UserRole::from_db("store_manager", " -42 "), Ok(UserRole::StoreManager(StoreId(-42))));
    assert_eq!(UserRole::from_db("store_manager", "null"), Err(Error::ParseError));
    assert_eq!(UserRole::from_db("store_manager", "4.5"), Err(Error::ParseError));
    assert_eq!(UserRole::from_db("store_manager", "\"42\""), Err(Error::ParseError));
    assert_eq!(UserRole::from_db("store_manager", "2147483648"), Err(Error::ParseError));
    assert_eq!(UserRole::from_db("store_manager", "42 43"), Err(Error::ParseError));
    assert_eq!(UserRole::from_db("admin", "42"), Err(Error::ParseError));
    assert_eq!(UserRole::from_db("", ""), Err(Error::ParseError));

    for role in [
        UserRole::Superadmin,
        UserRole::StoreManager(StoreId(0)),
        UserRole::StoreManager(StoreId(i32::MAX)),
        UserRole::StoreManager(StoreId(i32::MIN)),
    ] {
        let (kind, data) = role.into_db();
        assert_eq!(UserRole::from_db(&kind, &data), Ok(role));
    }
}

#[test]
fn grants_read_back_from_their_rows() {
    let grant =
        RoleEntry { id: RoleEntryId(5), user_id: UserId(9), role: UserRole::StoreManager(StoreId(2)) };
    let op = grant.into_insert_builder("roles");
    assert_eq!(op.table, "roles");
    assert!(op.extra.is_none());
    assert!(op.values.get(Column::Name).unwrap().equals(&Value::Text("store_manager".to_string())));
    assert!(op.values.get(Column::Data).unwrap().equals(&Value::Text("2".to_string())));
    assert_eq!(RoleEntry::from_row(&op.values), Some(grant));
    // a row with data that is no number holds no grant
    let broken = op.values.clone().with(Column::Data, Value::Text("x".to_string()));
    assert_eq!(RoleEntry::from_row(&broken), None);
    assert_eq!(RoleEntry::from_row(&Record::new()), None);

    let filter = RoleFilter { id: None, user_id: Some(UserId(9)), role: Some(UserRole::Superadmin) }
        .into_filtered_operation_builder("roles");
    assert!(filter.filters.get(Column::UserId).unwrap().equals(&Value::Int(9)));
    assert!(filter.filters.get(Column::Name).unwrap().equals(&Value::Text("superadmin".to_string())));
    assert!(filter.filters.get(Column::Data).unwrap().equals(&Value::Text("null".to_string())));
    assert!(!filter.filters.has(Column::Id));

    let update = DummyRoleUpdater.into_update_builder("roles");
    assert!(Record::new().includes(&update.values));
    assert!(Record::new().includes(&update.filters));
}

#[test]
fn login_copies_keep_the_grants() {
    let login = manager(3, 7);
    assert_eq!(login.clone(), login);
    assert_eq!(RepoLogin::Anonymous.clone(), RepoLogin::Anonymous);
}

#[test]
fn stock_statements() {
    let stock = Stock {
        id: StockId(1),
        warehouse_id: WarehouseId(2),
        product_id: ProductId(3),
        quantity: Quantity(4),
    };
    assert_eq!(stock.into_meta().0, ProductId(3));
    assert_eq!(stock.into_meta().1.quantity, Quantity(4));
    let op = DbStock(stock).into_insert_builder("stocks");
    assert_eq!(op.table, "stocks");
    let extra = op.extra.as_ref().unwrap();
    assert_eq!(extra.target, vec![Column::WarehouseId, Column::ProductId]);
    assert_eq!(extra.overwrite, vec![Column::Quantity]);
    assert!(op.values.get(Column::Id).unwrap().equals(&Value::Uuid(1)));
    assert!(op.values.get(Column::WarehouseId).unwrap().equals(&Value::Uuid(2)));
    assert!(op.values.get(Column::ProductId).unwrap().equals(&Value::Int(3)));
    assert!(op.values.get(Column::Quantity).unwrap().equals(&Value::Int(4)));
    assert_eq!(DbStock::from_row(&op.values), Some(DbStock(stock)));
    assert_eq!(DbStock::from_row(&op.values.clone().with(Column::Quantity, Value::Null)), None);

    let all = StockFilter::default().into_filtered_operation_builder("stocks");
    assert!(Record::new().includes(&all.filters));
    let filter = StockFilter {
        id: None,
        warehouse_id: Some(WarehouseId(2).into()),
        product_id: Some(ProductId(3).into()),
        quantity: None,
    };
    let update = StockUpdater {
        mask: filter,
        data: StockUpdateData { quantity: Some(Quantity(9).into()) },
    }
    .into_update_builder("stocks");
    assert!(update.filters.get(Column::WarehouseId).unwrap().equals(&Value::Uuid(2)));
    assert!(update.filters.get(Column::ProductId).unwrap().equals(&Value::Int(3)));
    assert!(!update.filters.has(Column::Quantity));
    assert!(update.values.get(Column::Quantity).unwrap().equals(&Value::Int(9)));
    assert!(!update.values.has(Column::Id));
    let untouched =
        StockUpdater { mask: filter, data: StockUpdateData::default() }.into_update_builder("stocks");
    assert!(Record::new().includes(&untouched.values));
}

#[test]
fn warehouse_statements() {
    let mut w = warehouse(1, 7, "s1");
    w.name = Some("Shed".to_string());
    w.location = Some(GeoPoint { x_bits: 37.62f64.to_bits(), y_bits: 55.75f64.to_bits() });
    w.country_code = Some(Alpha3("RUS".to_string()));
    let op = DbWarehouse(w.clone()).into_insert_builder("warehouses");
    assert!(op.extra.is_none());
    assert!(op.values.get(Column::Id).unwrap().equals(&Value::Uuid(1)));
    assert!(op.values.get(Column::StoreId).unwrap().equals(&Value::Int(7)));
    assert!(op.values.get(Column::Slug).unwrap().equals(&Value::Text("s1".to_string())));
    assert!(op.values.get(Column::Name).unwrap().equals(&Value::Text("Shed".to_string())));
    assert!(op.values.get(Column::CountryCode).unwrap().equals(&Value::Text("RUS".to_string())));
    assert!(op.values.get(Column::Location).unwrap().equals(&Value::Point(w.location.unwrap())));
    // what the warehouse does not have is not written
    assert!(!op.values.has(Column::Address));
    assert!(!op.values.has(Column::Quantity));
    assert_eq!(DbWarehouse::from_row(&op.values), Some(DbWarehouse(w.clone())));
    // null reads as nothing, a value of another type does not read
    let with_null = op.values.clone().with(Column::Address, Value::Null);
    assert_eq!(DbWarehouse::from_row(&with_null), Some(DbWarehouse(w.clone())));
    let mistyped = op.values.clone().with(Column::Address, Value::Int(1));
    assert_eq!(DbWarehouse::from_row(&mistyped), None);
    assert_eq!(DbWarehouse::from_row(&Record::new()), None);

    let all = WarehouseFilter::default().into_filtered_operation_builder("warehouses");
    assert!(Record::new().includes(&all.filters));
    let by_slug = WarehouseFilter::from(WarehouseIdentifier::Slug(WarehouseSlug("s1".to_string())))
        .into_filtered_operation_builder("warehouses");
    assert!(by_slug.filters.get(Column::Slug).unwrap().equals(&Value::Text("s1".to_string())));
    assert!(!by_slug.filters.has(Column::Id));
    let wanted = WarehouseFilter {
        store_id: Some(StoreId(7).into()),
        name: Some(None.into()),
        ..Default::default()
    }
    .into_filtered_operation_builder("warehouses");
    assert!(wanted.filters.get(Column::StoreId).unwrap().equals(&Value::Int(7)));
    assert!(wanted.filters.get(Column::Name).unwrap().equals(&Value::Null));

    let update = WarehouseUpdater {
        mask: by_id(1),
        data: WarehouseUpdateData {
            name: Some(Some("Depot".to_string()).into()),
            address: Some(None.into()),
            ..Default::default()
        },
    }
    .into_update_builder("warehouses");
    assert!(update.filters.get(Column::Id).unwrap().equals(&Value::Uuid(1)));
    assert!(update.values.get(Column::Name).unwrap().equals(&Value::Text("Depot".to_string())));
    assert!(update.values.get(Column::Address).unwrap().equals(&Value::Null));
    assert!(!update.values.has(Column::Slug));
    assert!(!update.values.has(Column::StoreId));
    assert_eq!(w.clone(), w);
}

#[test]
fn warehouse_policy_goes_by_the_store() {
    let entry = DbWarehouse(warehouse(1, 7, "s"));
    for action in [Action::Select, Action::Insert, Action::Update, Action::Delete] {
        assert!(repos::warehouses::check_acl(&superadmin(), &entry, action));
        assert!(repos::warehouses::check_acl(&manager(3, 7), &entry, action));
        assert!(!repos::warehouses::check_acl(&manager(3, 8), &entry, action));
        assert!(!repos::warehouses::check_acl(&UserLogin::Anonymous, &entry, action));
        let nobody = UserLogin::User { caller_id: UserId(4), caller_roles: vec![] };
        assert!(!repos::warehouses::check_acl(&nobody, &entry, action));
    }
    // one sufficient grant among several is enough
    let both = UserLogin::User {
        caller_id: UserId(3),
        caller_roles: vec![
            RoleEntry { id: RoleEntryId(1), user_id: UserId(3), role: UserRole::StoreManager(StoreId(8)) },
            RoleEntry { id: RoleEntryId(2), user_id: UserId(3), role: UserRole::StoreManager(StoreId(7)) },
        ],
    };
    assert!(repos::warehouses::check_acl(&both, &entry, Action::Update));
}

#[test]
fn role_policy_lets_holders_read_their_own() {
    let entry = RoleEntry { id: RoleEntryId(9), user_id: UserId(3), role: UserRole::Superadmin };
    let own = vec![RoleEntry {
        id: RoleEntryId(1),
        user_id: UserId(3),
        role: UserRole::StoreManager(StoreId(1)),
    }];
    let other = vec![RoleEntry {
        id: RoleEntryId(2),
        user_id: UserId(4),
        role: UserRole::StoreManager(StoreId(1)),
    }];
    let su = vec![RoleEntry { id: RoleEntryId(3), user_id: UserId(1), role: UserRole::Superadmin }];
    assert!(repos::roles::check_acl(&own, &entry, Action::Select));
    assert!(!repos::roles::check_acl(&own, &entry, Action::Insert));
    assert!(!repos::roles::check_acl(&own, &entry, Action::Update));
    assert!(!repos::roles::check_acl(&own, &entry, Action::Delete));
    assert!(!repos::roles::check_acl(&other, &entry, Action::Select));
    assert!(!repos::roles::check_acl(&vec![], &entry, Action::Select));
    for action in [Action::Select, Action::Insert, Action::Update, Action::Delete] {
        assert!(repos::roles::check_acl(&su, &entry, action));
    }
}

#[test]
fn stock_policy_looks_up_the_owner() {
    let mut conn = warehouses_table();
    repos::warehouses::make_su_repo()
        .insert_exactly_one(&mut conn, DbWarehouse(warehouse(1, 7, "s")))
        .unwrap();
    let stock = |warehouse: u128| {
        DbStock(Stock {
            id: StockId(1),
            warehouse_id: WarehouseId(warehouse),
            product_id: ProductId(1),
            quantity: Quantity(1),
        })
    };
    let check = |login: &UserLogin, warehouse: u128, action: Action| {
        repos::stocks::check_acl(&conn, login, &stock(warehouse), action)
    };
    assert_eq!(check(&manager(3, 7), 1, Action::Update), Ok(true));
    assert_eq!(check(&manager(3, 8), 1, Action::Update), Ok(false));
    assert_eq!(check(&manager(3, 8), 1, Action::Select), Ok(true));
    assert_eq!(check(&UserLogin::Anonymous, 1, Action::Select), Ok(true));
    assert_eq!(check(&UserLogin::Anonymous, 1, Action::Insert), Ok(false));
    assert_eq!(check(&superadmin(), 1, Action::Delete), Ok(true));
    // a stock record without a warehouse cannot be judged, not even for reading
    assert_eq!(check(&superadmin(), 2, Action::Select), Err(RepoError::NotFound));
    // nor can one be judged in a relation that is not that of warehouses
    let elsewhere = Table::new("elsewhere", vec![]);
    assert_eq!(
        repos::stocks::check_acl(&elsewhere, &superadmin(), &stock(1), Action::Select),
        Err(RepoError::Storage(StorageFault::UnknownRelation))
    );
    assert_eq!(repos::stocks::resolve_owner(&conn, WarehouseId(1)), Ok(StoreId(7)));
    assert_eq!(repos::stocks::resolve_owner(&conn, WarehouseId(2)), Err(RepoError::NotFound));
    assert!(repos::warehouses::decide(&manager(3, 7), StoreId(7), Action::Delete, true));
    assert!(!repos::warehouses::decide(&manager(3, 7), StoreId(8), Action::Delete, true));
    assert!(repos::warehouses::decide(&manager(3, 7), StoreId(8), Action::Select, true));
    assert!(!repos::warehouses::decide(&manager(3, 7), StoreId(8), Action::Select, false));
    assert!(repos::warehouses::decide(&manager(3, 7), StoreId(7), Action::Select, false));
    assert!(!repos::warehouses::decide(&UserLogin::Anonymous, StoreId(7), Action::Insert, true));
}

#[test]
fn hidden_warehouse_is_not_found_and_its_update_is_forbidden() {
    let mut conn = warehouses_table();
    let w = warehouse(1, 7, "s");
    let owner = manager(3, 7);
    let stranger = manager(4, 8);
    assert_eq!(
        repos::warehouses::make_repo(&owner).insert_exactly_one(&mut conn, DbWarehouse(w.clone())),
        Ok(DbWarehouse(w.clone()))
    );
    // the owner finds it by its identifier
    assert_eq!(
        repos::warehouses::make_repo(&owner).select_exactly_one(&conn, by_id(1)),
        Ok(DbWarehouse(w.clone()))
    );
    assert_eq!(repos::warehouses::make_repo(&owner).select(&conn, by_id(1)).unwrap().len(), 1);
    // to the stranger it is not there
    let as_stranger = repos::warehouses::make_repo(&stranger);
    assert_eq!(as_stranger.select_exactly_one(&conn, by_id(1)), Err(RepoError::NotFound));
    assert_eq!(as_stranger.select(&conn, by_id(1)), Ok(vec![]));
    // the stranger may not change, remove or add to what belongs to store 7
    let rename = WarehouseUpdater {
        mask: by_id(1),
        data: WarehouseUpdateData {
            name: Some(Some("Mine".to_string()).into()),
            ..Default::default()
        },
    };
    assert_eq!(as_stranger.update(&mut conn, rename), Err(RepoError::Forbidden));
    assert_eq!(as_stranger.delete(&mut conn, by_id(1)), Err(RepoError::Forbidden));
    assert_eq!(
        as_stranger.insert_exactly_one(&mut conn, DbWarehouse(warehouse(2, 7, "t"))),
        Err(RepoError::Forbidden)
    );
    // not even where the insert would break a constraint as well
    assert_eq!(
        as_stranger.insert_exactly_one(&mut conn, DbWarehouse(warehouse(1, 7, "s"))),
        Err(RepoError::Forbidden)
    );
    assert_eq!(
        repos::warehouses::make_su_repo().select_exactly_one(&conn, by_id(1)),
        Ok(DbWarehouse(w))
    );
    assert_eq!(conn.len(), 1);
}

#[test]
fn a_repository_open_to_readers_shows_but_does_not_yield() {
    let mut conn = warehouses_table();
    let w = warehouse(1, 7, "s");
    repos::warehouses::make_su_repo().insert_exactly_one(&mut conn, DbWarehouse(w.clone())).unwrap();
    let stranger = manager(4, 8);
    let open = repos::warehouses::make_su_repo().with_afterop_acl_engine(
        repos::warehouses::WarehouseAcl { login: &stranger, open_to_readers: true },
    );
    assert_eq!(open.select_exactly_one(&conn, by_id(1)), Ok(DbWarehouse(w)));
    assert_eq!(open.delete(&mut conn, by_id(1)), Err(RepoError::Forbidden));
    let mut stocks = warehouses::connection::Connection::new().stocks;
    let record = DbStock(Stock {
        id: StockId(1),
        warehouse_id: WarehouseId(1),
        product_id: ProductId(1),
        quantity: Quantity(1),
    });
    assert_eq!(repos::stocks::make_su_repo().insert_exactly_one(&mut stocks, record), Ok(record));
    let closed = repos::stocks::make_su_repo().with_afterop_acl_engine(repos::stocks::StocksAcl {
        login: &UserLogin::Anonymous,
        warehouse_source: &conn,
        open_to_readers: false,
    });
    assert_eq!(closed.select(&stocks, StockFilter::default()), Ok(vec![]));
    let open = repos::stocks::make_repo(&UserLogin::Anonymous, &conn);
    assert_eq!(open.select(&stocks, StockFilter::default()), Ok(vec![record]));
}

#[test]
fn exactly_one_wants_exactly_one() {
    let mut conn = warehouses_table();
    let repo = repos::warehouses::make_su_repo();
    let mine = || WarehouseFilter { store_id: Some(StoreId(7).into()), ..Default::default() };
    assert_eq!(repo.select_exactly_one(&conn, mine()), Err(RepoError::NotFound));
    repo.insert_exactly_one(&mut conn, DbWarehouse(warehouse(1, 7, "a"))).unwrap();
    assert_eq!(repo.select_exactly_one(&conn, mine()), Ok(DbWarehouse(warehouse(1, 7, "a"))));
    repo.insert_exactly_one(&mut conn, DbWarehouse(warehouse(2, 7, "b"))).unwrap();
    assert_eq!(repo.select_exactly_one(&conn, mine()), Err(RepoError::MultipleRowsMatched));
    assert_eq!(
        repo.insert_exactly_one(&mut conn, DbWarehouse(warehouse(3, 7, "b"))),
        Err(RepoError::ConstraintViolation)
    );
    assert_eq!(conn.len(), 2);
}

#[test]
fn a_row_that_holds_no_entity_is_a_storage_error() {
    let mut conn = warehouses_table();
    conn.insert(
        &warehouses::statement::InsertBuilder::new("warehouses")
            .with_arg(Column::Id, Value::Uuid(1))
            .with_arg(Column::Slug, Value::Text("s".to_string())),
    )
    .unwrap();
    let repo = repos::warehouses::make_su_repo();
    assert_eq!(repo.select(&conn, WarehouseFilter::default()), Err(RepoError::Storage(StorageFault::MalformedRow)));
    assert_eq!(repo.delete(&mut conn, WarehouseFilter::default()), Err(RepoError::Storage(StorageFault::MalformedRow)));
    assert_eq!(conn.len(), 1);
}

#[test]
fn policies_plug_into_any_repository() {
    let mut conn = warehouses_table();
    let su: DbRepoImpl<DbWarehouse, DbWarehouse, WarehouseFilter, WarehouseUpdater, SystemACL> =
        DbRepoImpl::new("warehouses");
    su.insert_exactly_one(&mut conn, DbWarehouse(warehouse(1, 7, "a"))).unwrap();
    let closed = DbRepoImpl::<DbWarehouse, DbWarehouse, WarehouseFilter, WarehouseUpdater, _>::new(
        "warehouses",
    )
    .with_afterop_acl_engine(UnauthorizedACL);
    assert_eq!(closed.table, "warehouses");
    assert_eq!(closed.select(&conn, WarehouseFilter::default()), Ok(vec![]));
    assert_eq!(closed.delete(&mut conn, WarehouseFilter::default()), Err(RepoError::Forbidden));
    // a delete that matches nothing is not forbidden
    assert_eq!(closed.delete(&mut conn, by_id(9)), Ok(vec![]));
    let entry = DbWarehouse(warehouse(1, 7, "a"));
    assert_eq!(AclEngine::<DbWarehouse>::ensure_access(&SystemACL, &entry, Action::Delete), Ok(true));
    assert_eq!(
        AclEngine::<DbWarehouse>::ensure_access(&UnauthorizedACL, &entry, Action::Select),
        Ok(false)
    );
    assert!(Action::Select.is_read());
    assert!(!Action::Update.is_read());
}
