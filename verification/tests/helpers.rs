//! The small functions that the repositories and services are made of.

use warehouses::acl::{Action, SystemACL, UnauthorizedACL};
use warehouses::connection::{
    roles_constraints, stocks_constraints, warehouses_constraints, Connection,
};
use warehouses::errors::{RepoError, StorageFault};
use warehouses::models::role::{clone_grants, RoleEntry, RoleFilter, UserLogin, UserRole};
use warehouses::models::stock::{read_int, read_uuid, DbStock, Stock, StockMeta};
use warehouses::models::warehouse::{
    clone_code, clone_text, code_value, point_value, read_optional_point, read_optional_text,
    read_text, DbWarehouse, Warehouse, WarehouseInput,
};
use warehouses::repo::{screen, DbRepo};
use warehouses::repos::warehouses::{grants_cover, make_slug_sequence};
use warehouses::schema::Column;
use warehouses::sequence::{Counter, Sequence};
use warehouses::services::roles::RoleSearchTerms;
use warehouses::services::warehouse::{
    collect_stock_map, filter_of, last_stock, last_warehouse, unwrap_stocks, unwrap_warehouses,
    RepoFactory,
};
use warehouses::statement::{Filter, Inserter};
use warehouses::storage::{clone_rows, overwriting_record, same_columns};
use warehouses::types::{
    Alpha3, GeoPoint, ProductId, Quantity, RoleEntryId, StockId, StoreId, UserId, WarehouseId,
    WarehouseIdentifier, WarehouseSlug,
};
use warehouses::value::{Cells, Record, Value};

fn warehouse(id: u128, store: i32, slug: &str) -> Warehouse {
    WarehouseInput { id: WarehouseId(id), ..WarehouseInput::new(StoreId(store)) }
        .with_slug(WarehouseSlug(slug.to_string()))
}

fn stock(id: u128, product: i32, quantity: i32) -> DbStock {
    DbStock(Stock {
        id: StockId(id),
        warehouse_id: WarehouseId(1),
        product_id: ProductId(product),
        quantity: Quantity(quantity),
    })
}

fn same(a: &Record, b: &Record) -> bool {
    a.includes(b) && b.includes(a)
}

#[test]
fn constraints_of_the_relations() {
    assert_eq!(roles_constraints(), vec![vec![Column::Id]]);
    assert_eq!(
        stocks_constraints(),
        vec![vec![Column::Id], vec![Column::WarehouseId, Column::ProductId]]
    );
    assert_eq!(warehouses_constraints(), vec![vec![Column::Id], vec![Column::Slug]]);
}

#[test]
fn a_store_is_loaded_from_rows() {
    let first = DbWarehouse(warehouse(1, 7, "a")).into_insert_builder("warehouses").values;
    let second = DbWarehouse(warehouse(2, 7, "b")).into_insert_builder("warehouses").values;
    let conn = Connection::load(vec![], vec![], vec![first.clone(), second], 41).unwrap();
    assert_eq!((conn.roles.len(), conn.stocks.len(), conn.warehouses.len()), (0, 0, 2));
    assert_eq!(conn.roles.name(), "roles");
    assert_eq!(conn.stocks.name(), "stocks");
    assert_eq!(conn.warehouses.name(), "warehouses");
    assert_eq!(conn.warehouse_slug_seq.last(), 41);
    assert_eq!(conn.warehouse_slug_seq.name(), "warehouse_slug_seq");
    // two warehouses under one slug break the constraint
    let twin = DbWarehouse(warehouse(3, 7, "a")).into_insert_builder("warehouses").values;
    assert_eq!(
        Connection::load(vec![], vec![], vec![first, twin], 0).err(),
        Some(RepoError::ConstraintViolation)
    );
    let fresh = Connection::new();
    assert_eq!((fresh.roles.len(), fresh.stocks.len(), fresh.warehouses.len()), (0, 0, 0));
    assert_eq!(fresh.warehouse_slug_seq.last(), 0);
}

#[test]
fn copies_are_equal_to_what_was_copied() {
    let grants = vec![
        RoleEntry { id: RoleEntryId(1), user_id: UserId(2), role: UserRole::Superadmin },
        RoleEntry { id: RoleEntryId(3), user_id: UserId(2), role: UserRole::StoreManager(StoreId(4)) },
    ];
    assert_eq!(clone_grants(&grants), grants);
    assert_eq!(clone_grants(&vec![]), vec![]);
    assert_eq!(clone_text(&Some("x".to_string())), Some("x".to_string()));
    assert_eq!(clone_text(&None), None);
    assert_eq!(clone_code(&Some(Alpha3("RUS".to_string()))), Some(Alpha3("RUS".to_string())));
    assert_eq!(clone_code(&None), None);
    let rows = vec![
        Record::new().with(Column::Id, Value::Int(1)),
        Record::new().with(Column::Name, Value::Text("n".to_string())),
    ];
    let copy = clone_rows(&rows);
    assert_eq!(copy.len(), 2);
    assert!(same(&copy[0], &rows[0]) && same(&copy[1], &rows[1]));
}

#[test]
fn cells_are_read_by_their_type() {
    let p = GeoPoint { x_bits: 1, y_bits: 2 };
    let row = Record::new()
        .with(Column::Id, Value::Uuid(5))
        .with(Column::StoreId, Value::Int(6))
        .with(Column::Name, Value::Text("n".to_string()))
        .with(Column::Address, Value::Null)
        .with(Column::Location, Value::Point(p));
    assert_eq!(read_uuid(&row, Column::Id), Some(5));
    assert_eq!(read_uuid(&row, Column::StoreId), None);
    assert_eq!(read_uuid(&row, Column::Slug), None);
    assert_eq!(read_int(&row, Column::StoreId), Some(6));
    assert_eq!(read_int(&row, Column::Id), None);
    assert_eq!(read_text(&row, Column::Name), Some("n".to_string()));
    assert_eq!(read_text(&row, Column::Address), None);
    assert_eq!(read_text(&row, Column::Slug), None);
    assert_eq!(read_optional_text(&row, Column::Name), Some(Some("n".to_string())));
    assert_eq!(read_optional_text(&row, Column::Address), Some(None));
    assert_eq!(read_optional_text(&row, Column::Slug), Some(None));
    assert_eq!(read_optional_text(&row, Column::StoreId), None);
    assert_eq!(read_optional_point(&row, Column::Location), Some(Some(p)));
    assert_eq!(read_optional_point(&row, Column::Address), Some(None));
    assert_eq!(read_optional_point(&row, Column::Slug), Some(None));
    assert_eq!(read_optional_point(&row, Column::Name), None);
    assert!(point_value(&Some(p)).equals(&Value::Point(p)));
    assert!(point_value(&None).equals(&Value::Null));
    assert!(code_value(&Some(Alpha3("RUS".to_string()))).equals(&Value::Text("RUS".to_string())));
    assert!(code_value(&None).equals(&Value::Null));
}

#[test]
fn records_are_collected_column_by_column() {
    let filter = RoleFilter { id: Some(RoleEntryId(1)), user_id: None, role: None };
    assert!(filter.cell(Column::Id).unwrap().equals(&Value::Uuid(1)));
    assert!(filter.cell(Column::UserId).is_none());
    assert!(filter.cell(Column::Quantity).is_none());
    let record = Record::collect(&filter);
    assert!(same(&record, &Record::new().with(Column::Id, Value::Uuid(1))));
    assert!(same(&record, &filter.into_filtered_operation_builder("roles").filters));
    let w = warehouse(1, 7, "s");
    assert!(w.cell(Column::Slug).unwrap().equals(&Value::Text("s".to_string())));
    assert!(w.cell(Column::Name).is_none());
    assert!(stock(1, 2, 3).0.into_meta().1 == StockMeta { quantity: Quantity(3) });
}

#[test]
fn columns_and_patches_of_a_conflict_clause() {
    assert!(same_columns(&vec![], &vec![]));
    assert!(same_columns(&vec![Column::Id, Column::Slug], &vec![Column::Id, Column::Slug]));
    assert!(!same_columns(&vec![Column::Id, Column::Slug], &vec![Column::Slug, Column::Id]));
    assert!(!same_columns(&vec![Column::Id], &vec![Column::Id, Column::Id]));
    let values = Record::new()
        .with(Column::Id, Value::Int(1))
        .with(Column::Quantity, Value::Int(2))
        .with(Column::Name, Value::Null);
    let patch = overwriting_record(&values, &vec![Column::Quantity, Column::Slug, Column::Name]);
    let expected =
        Record::new().with(Column::Quantity, Value::Int(2)).with(Column::Name, Value::Null);
    assert!(same(&patch, &expected));
    assert!(same(&overwriting_record(&values, &vec![]), &Record::new()));
}

#[test]
fn rows_are_screened_in_order() {
    let rows: Vec<Record> = [1, 2, 3]
        .iter()
        .map(|i| stock(*i, *i as i32, 0).into_insert_builder("stocks").values)
        .collect();
    let all: Vec<DbStock> = vec![stock(1, 1, 0), stock(2, 2, 0), stock(3, 3, 0)];
    for strict in [false, true] {
        assert_eq!(screen::<DbStock, _>(&SystemACL, &rows, Action::Select, strict), Ok(all.clone()));
        assert_eq!(screen::<DbStock, _>(&SystemACL, &vec![], Action::Delete, strict), Ok(vec![]));
        assert_eq!(
            screen::<DbStock, _>(&UnauthorizedACL, &vec![], Action::Delete, strict),
            Ok(vec![])
        );
    }
    assert_eq!(screen::<DbStock, _>(&UnauthorizedACL, &rows, Action::Select, false), Ok(vec![]));
    assert_eq!(
        screen::<DbStock, _>(&UnauthorizedACL, &rows, Action::Select, true),
        Err(RepoError::Forbidden)
    );
    // the first row that ends the screening decides
    let mut broken = clone_rows(&rows);
    broken[1] = Record::new();
    assert_eq!(
        screen::<DbStock, _>(&SystemACL, &broken, Action::Select, false),
        Err(RepoError::Storage(StorageFault::MalformedRow))
    );
    assert_eq!(
        screen::<DbStock, _>(&UnauthorizedACL, &broken, Action::Select, true),
        Err(RepoError::Forbidden)
    );
    assert_eq!(
        screen::<DbStock, _>(&UnauthorizedACL, &broken, Action::Select, false),
        Err(RepoError::Storage(StorageFault::MalformedRow))
    );
}

#[test]
fn grants_are_taken_one_by_one() {
    let grants = vec![
        RoleEntry { id: RoleEntryId(1), user_id: UserId(2), role: UserRole::StoreManager(StoreId(4)) },
        RoleEntry { id: RoleEntryId(2), user_id: UserId(2), role: UserRole::StoreManager(StoreId(5)) },
    ];
    assert!(grants_cover(&grants, StoreId(4)));
    assert!(grants_cover(&grants, StoreId(5)));
    assert!(!grants_cover(&grants, StoreId(6)));
    assert!(!grants_cover(&vec![], StoreId(4)));
    let su = vec![RoleEntry { id: RoleEntryId(1), user_id: UserId(2), role: UserRole::Superadmin }];
    assert!(grants_cover(&su, StoreId(6)));
}

#[test]
fn search_terms_become_filters() {
    let by_id = RoleSearchTerms::Id(RoleEntryId(3)).into_filter();
    assert_eq!((by_id.id, by_id.user_id, by_id.role), (Some(RoleEntryId(3)), None, None));
    let by_user = RoleSearchTerms::Meta((UserId(4), None)).into_filter();
    assert_eq!((by_user.id, by_user.user_id, by_user.role), (None, Some(UserId(4)), None));
    let by_role = RoleSearchTerms::Meta((UserId(4), Some(UserRole::Superadmin))).into_filter();
    assert_eq!(by_role.role, Some(UserRole::Superadmin));
}

#[test]
fn the_factory_makes_guarded_repositories() {
    let login = UserLogin::User {
        caller_id: UserId(3),
        caller_roles: vec![RoleEntry {
            id: RoleEntryId(1),
            user_id: UserId(3),
            role: UserRole::StoreManager(StoreId(7)),
        }],
    };
    let factory = RepoFactory { login };
    let mut conn = Connection::new();
    let warehouses = factory.warehouse_repo();
    assert_eq!(warehouses.table, "warehouses");
    assert!(!warehouses.afterop_acl_engine.open_to_readers);
    let mine = || DbWarehouse(warehouse(1, 7, "a"));
    assert_eq!(warehouses.insert_exactly_one(&mut conn.warehouses, mine()), Ok(mine()));
    assert_eq!(
        warehouses.insert_exactly_one(&mut conn.warehouses, DbWarehouse(warehouse(2, 8, "b"))),
        Err(RepoError::Forbidden)
    );
    let stocks = factory.stocks_repo(&conn.warehouses);
    assert_eq!(stocks.table, "stocks");
    assert!(stocks.afterop_acl_engine.open_to_readers);
    assert_eq!(stocks.insert_exactly_one(&mut conn.stocks, stock(1, 2, 3)), Ok(stock(1, 2, 3)));
    let sequence = factory.warehouse_slug_sequence();
    assert_eq!(sequence.name, "warehouse_slug_seq");
    assert_eq!(sequence.next_val(&mut conn.warehouse_slug_seq), Ok(1));
    let mut other = Counter::new("other");
    assert_eq!(
        make_slug_sequence().next_val(&mut other),
        Err(RepoError::Storage(StorageFault::UnknownSequence))
    );
}

#[test]
fn results_are_unwrapped() {
    let a = warehouse(1, 7, "a");
    let b = warehouse(2, 7, "b");
    let found = || vec![DbWarehouse(warehouse(1, 7, "a")), DbWarehouse(warehouse(2, 7, "b"))];
    assert_eq!(unwrap_warehouses(found()), vec![a, b.clone()]);
    assert_eq!(unwrap_warehouses(vec![]), vec![]);
    assert_eq!(last_warehouse(found()), Some(b));
    assert_eq!(last_warehouse(vec![]), None);
    let stocks = vec![stock(1, 10, 1), stock(2, 11, 2), stock(3, 10, 3)];
    assert_eq!(unwrap_stocks(stocks.clone()), vec![stocks[0].0, stocks[1].0, stocks[2].0]);
    assert_eq!(last_stock(stocks.clone()), Some(stocks[2].0));
    assert_eq!(last_stock(vec![]), None);
    // for each product, what its last record says
    let map = collect_stock_map(&stocks);
    assert_eq!(map.len(), 2);
    assert_eq!(map.get(&10), Some(&StockMeta { quantity: Quantity(3) }));
    assert_eq!(map.get(&11), Some(&StockMeta { quantity: Quantity(2) }));
    assert!(collect_stock_map(&vec![]).is_empty());
}

#[test]
fn identifiers_become_filters() {
    let by_id = filter_of(WarehouseIdentifier::Id(WarehouseId(4)));
    assert_eq!(by_id.id.unwrap().value, WarehouseId(4));
    assert!(by_id.slug.is_none() && by_id.store_id.is_none() && by_id.name.is_none());
    let by_slug = filter_of(WarehouseIdentifier::Slug(WarehouseSlug("s".to_string())));
    assert_eq!(by_slug.slug.unwrap().value, WarehouseSlug("s".to_string()));
    assert!(by_slug.id.is_none());
}
