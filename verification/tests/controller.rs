//! Callers, paths and the operations that requests ask for.

use warehouses::controller::routing::{
    check_id_segment, read_id, read_number, split_path, RolesRoute, Route,
};
use warehouses::controller::{extract_user_id, route_request, Method, Operation};
use warehouses::decimal::{digit_of, parse_i32, to_decimal};
use warehouses::errors::Error;
use warehouses::types::{
    ProductId, RoleEntryId, StockId, StoreId, UserId, WarehouseId, WarehouseIdentifier,
    WarehouseSlug,
};

const ID: &str = "550e8400-e29b-41d4-a716-446655440000";
const BITS: u128 = 0x550e8400_e29b_41d4_a716_446655440000;

#[test]
fn decimal_reads_like_the_standard_library() {
    let texts = [
        "0", "7", "-7", "+7", "007", "-0", "+0", "2147483647", "2147483648", "-2147483648",
        "-2147483649", "99999999999999999999999", "", "-", "+", "--1", "+-1", "1 ", " 1", "1a",
        "a", "1.0", "１２", "0x10", "1_000", "-9223372036854775808",
    ];
    for text in texts {
        assert_eq!(parse_i32(text), text.parse::<i32>().ok(), "{:?}", text);
    }
    for n in [i32::MIN, -1, 0, 1, 42, i32::MAX] {
        assert_eq!(parse_i32(&to_decimal(n as i64)), Some(n));
    }
    assert_eq!(digit_of('7'), Some(7));
    assert_eq!(digit_of('a'), None);
    assert_eq!(to_decimal(-120), "-120");
}

#[test]
fn caller_is_read_from_the_authorization() {
    assert_eq!(extract_user_id(None), Ok(None));
    assert_eq!(extract_user_id(Some("123114")), Ok(Some(UserId(123114))));
    assert_eq!(extract_user_id(Some("-1")), Ok(Some(UserId(-1))));
    assert_eq!(extract_user_id(Some("")), Err(Error::UserIdParse));
    assert_eq!(extract_user_id(Some("abc")), Err(Error::UserIdParse));
    assert_eq!(extract_user_id(Some("4294967296")), Err(Error::UserIdParse));
}

#[test]
fn paths_are_split_at_slashes() {
    assert_eq!(split_path(""), vec![""]);
    assert_eq!(split_path("/"), vec!["", ""]);
    assert_eq!(split_path("a"), vec!["a"]);
    assert_eq!(split_path("/warehouses/by-id/x"), vec!["", "warehouses", "by-id", "x"]);
    assert_eq!(split_path("//a//"), vec!["", "", "a", "", ""]);
    assert_eq!(split_path("/é/ü"), vec!["", "é", "ü"]);
}

#[test]
fn segments_are_read() {
    assert!(check_id_segment("abc-DEF-019"));
    assert!(!check_id_segment(""));
    assert!(!check_id_segment("a_b"));
    assert!(!check_id_segment("é"));
    assert_eq!(read_id(ID), Some(BITS));
    assert_eq!(read_id("550e8400e29b41d4a716446655440000"), Some(BITS));
    assert_eq!(read_id("550E8400-E29B-41D4-A716-446655440000"), Some(BITS));
    assert_eq!(read_id("{550e8400-e29b-41d4-a716-446655440000}"), None);
    assert_eq!(read_id("urn:uuid:550e8400-e29b-41d4-a716-446655440000"), None);
    assert_eq!(read_id("550e8400"), None);
    assert_eq!(read_id(""), None);
    assert_eq!(read_number("42"), Some(42));
    assert_eq!(read_number("0042"), Some(42));
    assert_eq!(read_number("+42"), None);
    assert_eq!(read_number("-42"), None);
    assert_eq!(read_number(""), None);
    assert_eq!(read_number("2147483648"), None);
}

#[test]
fn routes_are_read_from_paths() {
    let id = WarehouseId(BITS);
    assert_eq!(Route::from_path("/warehouses"), Some(Route::Warehouses));
    assert_eq!(
        Route::from_path(&format!("/warehouses/by-id/{}", ID)),
        Some(Route::Warehouse { warehouse_id: WarehouseIdentifier::Id(id) })
    );
    assert_eq!(
        Route::from_path("/warehouses/by-slug/17"),
        Some(Route::Warehouse {
            warehouse_id: WarehouseIdentifier::Slug(WarehouseSlug("17".to_string()))
        })
    );
    assert_eq!(
        Route::from_path("/warehouses/by-store/423452345"),
        Some(Route::WarehousesByStore { store_id: StoreId(423452345) })
    );
    assert_eq!(
        Route::from_path(&format!("/warehouses/by-id/{}/products", ID)),
        Some(Route::StocksInWarehouse { warehouse_id: id })
    );
    assert_eq!(
        Route::from_path(&format!("/warehouses/by-id/{}/products/2341241", ID)),
        Some(Route::StockInWarehouse { warehouse_id: id, product_id: ProductId(2341241) })
    );
    assert_eq!(
        Route::from_path("/stocks/by-product-id/5"),
        Some(Route::StocksByProductId { product_id: ProductId(5) })
    );
    assert_eq!(
        Route::from_path(&format!("/stocks/by-id/{}", ID)),
        Some(Route::StockById { stock_id: StockId(BITS) })
    );
    assert_eq!(Route::from_path("/roles"), Some(Route::Roles(RolesRoute::Roles)));
    assert_eq!(
        Route::from_path("/roles/by-user-id/9"),
        Some(Route::Roles(RolesRoute::RolesByUserId { user_id: UserId(9) }))
    );
    assert_eq!(
        Route::from_path(&format!("/roles/by-id/{}", ID)),
        Some(Route::Roles(RolesRoute::RoleById { id: RoleEntryId(BITS) }))
    );
}

#[test]
fn routes_take_the_identifier_that_was_read() {
    let parts = vec!["", "warehouses", "by-id", "anything"];
    assert_eq!(
        Route::from_parts(&parts, Some(7)),
        Some(Route::Warehouse { warehouse_id: WarehouseIdentifier::Id(WarehouseId(7)) })
    );
    assert_eq!(Route::from_parts(&parts, None), None);
    let parts = vec!["", "warehouses", "by-id", "anything", "products", "12"];
    assert_eq!(
        Route::from_parts(&parts, Some(7)),
        Some(Route::StockInWarehouse { warehouse_id: WarehouseId(7), product_id: ProductId(12) })
    );
    assert_eq!(Route::from_parts(&parts, None), None);
    // a route without an identifier has no use for one
    assert_eq!(Route::from_parts(&vec!["", "warehouses"], Some(7)), Some(Route::Warehouses));
    assert_eq!(
        Route::from_parts(&vec!["", "stocks", "by-product-id", "5"], Some(7)),
        Some(Route::StocksByProductId { product_id: ProductId(5) })
    );
    assert_eq!(
        Route::from_parts(&vec!["", "stocks", "by-id", "x"], Some(7)),
        Some(Route::StockById { stock_id: StockId(7) })
    );
    assert_eq!(
        Route::from_parts(&vec!["", "roles", "by-id", "x"], Some(7)),
        Some(Route::Roles(RolesRoute::RoleById { id: RoleEntryId(7) }))
    );
    assert_eq!(Route::from_parts(&vec!["warehouses"], None), None);
    assert_eq!(Route::from_parts(&vec![], None), None);
}

#[test]
fn other_paths_are_no_routes() {
    let paths = [
        "",
        "/",
        "warehouses",
        "/warehouses/",
        "//warehouses",
        "/Warehouses",
        "/warehouses/by-id",
        "/warehouses/by-id/",
        "/warehouses/by-id/not-a-uuid",
        "/warehouses/by-slug/",
        "/warehouses/by-slug/a_b",
        "/warehouses/by-store/-1",
        "/warehouses/by-store/x",
        "/warehouses/by-store/99999999999",
        "/warehouses/by-id/550e8400-e29b-41d4-a716-446655440000/product",
        "/warehouses/by-id/550e8400-e29b-41d4-a716-446655440000/products/",
        "/warehouses/by-id/550e8400-e29b-41d4-a716-446655440000/products/x",
        "/warehouses/by-id/550e8400-e29b-41d4-a716-446655440000/products/1/2",
        "/warehouses/by-slug/a/products",
        "/stocks",
        "/stocks/by-product-id/",
        "/stocks/by-id/5",
        "/roles/by-user-id/",
        "/roles/by-id/5",
        "/roles/5",
        "/other",
    ];
    for path in paths {
        assert_eq!(Route::from_path(path), None, "{:?}", path);
    }
}

#[test]
fn requests_ask_for_operations() {
    let id = WarehouseIdentifier::Id(WarehouseId(1));
    let w = || Some(Route::Warehouse { warehouse_id: id.clone() });
    assert_eq!(
        route_request(Method::Get, w()),
        Ok(Operation::GetWarehouse { warehouse_id: id.clone() })
    );
    assert_eq!(
        route_request(Method::Put, w()),
        Ok(Operation::UpdateWarehouse { warehouse_id: id.clone() })
    );
    assert_eq!(
        route_request(Method::Delete, w()),
        Ok(Operation::DeleteWarehouse { warehouse_id: id.clone() })
    );
    assert_eq!(route_request(Method::Post, w()), Err(Error::InvalidRoute));
    assert_eq!(route_request(Method::Post, Some(Route::Warehouses)), Ok(Operation::CreateWarehouse));
    assert_eq!(
        route_request(Method::Delete, Some(Route::Warehouses)),
        Ok(Operation::DeleteAllWarehouses)
    );
    assert_eq!(route_request(Method::Get, Some(Route::Warehouses)), Err(Error::InvalidRoute));
    assert_eq!(
        route_request(Method::Get, Some(Route::WarehousesByStore { store_id: StoreId(2) })),
        Ok(Operation::GetWarehousesForStore { store_id: StoreId(2) })
    );
    let stock = || {
        Some(Route::StockInWarehouse { warehouse_id: WarehouseId(1), product_id: ProductId(2) })
    };
    assert_eq!(
        route_request(Method::Get, stock()),
        Ok(Operation::GetProductInWarehouse {
            warehouse_id: WarehouseId(1),
            product_id: ProductId(2)
        })
    );
    assert_eq!(
        route_request(Method::Put, stock()),
        Ok(Operation::SetProductInWarehouse {
            warehouse_id: WarehouseId(1),
            product_id: ProductId(2)
        })
    );
    assert_eq!(route_request(Method::Delete, stock()), Err(Error::InvalidRoute));
    assert_eq!(
        route_request(Method::Get, Some(Route::StocksInWarehouse { warehouse_id: WarehouseId(1) })),
        Ok(Operation::ListProductsInWarehouse { warehouse_id: WarehouseId(1) })
    );
    assert_eq!(
        route_request(Method::Get, Some(Route::StocksByProductId { product_id: ProductId(2) })),
        Ok(Operation::FindByProductId { product_id: ProductId(2) })
    );
    // the service has nothing for a stock record by its identifier
    assert_eq!(
        route_request(Method::Get, Some(Route::StockById { stock_id: StockId(1) })),
        Err(Error::InvalidRoute)
    );
    assert_eq!(
        route_request(Method::Post, Some(Route::Roles(RolesRoute::Roles))),
        Ok(Operation::CreateRole)
    );
    assert_eq!(
        route_request(
            Method::Get,
            Some(Route::Roles(RolesRoute::RolesByUserId { user_id: UserId(3) }))
        ),
        Ok(Operation::GetRolesForUser { user_id: UserId(3) })
    );
    assert_eq!(
        route_request(
            Method::Delete,
            Some(Route::Roles(RolesRoute::RolesByUserId { user_id: UserId(3) }))
        ),
        Ok(Operation::RemoveAllRoles { user_id: UserId(3) })
    );
    assert_eq!(
        route_request(Method::Delete, Some(Route::Roles(RolesRoute::RoleById { id: RoleEntryId(4) }))),
        Ok(Operation::RemoveRole { id: RoleEntryId(4) })
    );
    assert_eq!(route_request(Method::Get, None), Err(Error::InvalidRoute));
    assert_eq!(route_request(Method::Other, Some(Route::Warehouses)), Err(Error::InvalidRoute));
}
