//! Products and users of warehouses in the relations that number their rows.

use warehouses::errors::Error;
use warehouses::models::warehouse_product::{
    WarehouseProduct, WarehouseProductFilter, WarehouseProductInserter, WarehouseProductMeta,
    WarehouseProductUpdateData, WarehouseProductUpdater,
};
use warehouses::models::warehouse_user::{
    WarehouseUser, WarehouseUserFilter, WarehouseUserInserter, WarehouseUserRole,
    WarehouseUserUpdateData, WarehouseUserUpdater,
};
use warehouses::repo::Entity;
use warehouses::schema::Column;
use warehouses::statement::{Filter, Inserter, Updater};
use warehouses::types::{
    ProductId, Quantity, UserId, WarehouseId, WarehouseProductId, WarehouseUserId,
};
use warehouses::value::{Record, Value};

#[test]
fn user_roles_have_names() {
    assert_eq!(WarehouseUserRole::Manager.to_string(), "manager");
    assert_eq!(WarehouseUserRole::Admin.to_string(), "admin");
    assert_eq!(WarehouseUserRole::Admin.as_str(), "admin");
    assert_eq!("manager".parse::<WarehouseUserRole>(), Ok(WarehouseUserRole::Manager));
    assert_eq!("admin".parse::<WarehouseUserRole>(), Ok(WarehouseUserRole::Admin));
    assert_eq!("Admin".parse::<WarehouseUserRole>(), Err(Error::ParseError));
    assert_eq!(WarehouseUserRole::parse(""), Err(Error::ParseError));
    assert_eq!(WarehouseUserRole::parse("manager "), Err(Error::ParseError));
    for role in [WarehouseUserRole::Manager, WarehouseUserRole::Admin] {
        assert_eq!(WarehouseUserRole::parse(&role.to_string()), Ok(role));
    }
}

#[test]
fn warehouse_user_statements() {
    let op = WarehouseUserInserter {
        warehouse_id: WarehouseId(1),
        user_id: UserId(2),
        role: WarehouseUserRole::Admin,
    }
    .into_insert_builder("warehouse_users");
    assert_eq!(op.table, "warehouse_users");
    assert!(op.extra.is_none());
    assert!(op.values.get(Column::WarehouseId).unwrap().equals(&Value::Uuid(1)));
    assert!(op.values.get(Column::UserId).unwrap().equals(&Value::Int(2)));
    assert!(op.values.get(Column::Role).unwrap().equals(&Value::Text("admin".to_string())));
    // the relation numbers the row; the payload holds no identifier
    assert!(!op.values.has(Column::Id));
    assert_eq!(WarehouseUser::from_row(&op.values), None);
    let numbered = op.values.clone().with(Column::Id, Value::Int(7));
    assert_eq!(
        WarehouseUser::from_row(&numbered),
        Some(WarehouseUser {
            id: WarehouseUserId(7),
            warehouse_id: WarehouseId(1),
            user_id: UserId(2),
            role: WarehouseUserRole::Admin,
        })
    );
    let unnamed = numbered.clone().with(Column::Role, Value::Text("owner".to_string()));
    assert_eq!(WarehouseUser::from_row(&unnamed), None);

    let mask = WarehouseUserFilter {
        id: Some(WarehouseUserId(7).into()),
        warehouse_id: None,
        user_id: Some(UserId(2).into()),
        role: Some(WarehouseUserRole::Manager.into()),
    };
    let filter = mask.into_filtered_operation_builder("warehouse_users");
    assert!(filter.filters.get(Column::Id).unwrap().equals(&Value::Int(7)));
    assert!(filter.filters.get(Column::UserId).unwrap().equals(&Value::Int(2)));
    assert!(filter.filters.get(Column::Role).unwrap().equals(&Value::Text("manager".to_string())));
    assert!(!filter.filters.has(Column::WarehouseId));

    let update = WarehouseUserUpdater {
        mask,
        data: WarehouseUserUpdateData { role: Some(WarehouseUserRole::Admin.into()) },
    }
    .into_update_builder("warehouse_users");
    assert_eq!(update.table, "warehouse_users");
    assert!(update.filters.get(Column::Id).unwrap().equals(&Value::Int(7)));
    assert!(update.values.get(Column::Role).unwrap().equals(&Value::Text("admin".to_string())));
    assert!(!update.values.has(Column::UserId));
    let nothing = WarehouseUserUpdater { mask, data: WarehouseUserUpdateData { role: None } }
        .into_update_builder("warehouse_users");
    assert!(Record::new().includes(&nothing.values));
}

#[test]
fn warehouse_product_statements() {
    let op = WarehouseProductInserter {
        warehouse_id: WarehouseId(1),
        product_id: ProductId(2),
        quantity: Quantity(3),
    }
    .into_insert_builder("warehouse_products");
    assert_eq!(op.table, "warehouse_products");
    assert!(op.extra.is_none());
    assert!(op.values.get(Column::WarehouseId).unwrap().equals(&Value::Uuid(1)));
    assert!(op.values.get(Column::ProductId).unwrap().equals(&Value::Int(2)));
    assert!(op.values.get(Column::Quantity).unwrap().equals(&Value::Int(3)));
    assert!(!op.values.has(Column::Id));
    assert_eq!(WarehouseProduct::from_row(&op.values), None);
    let entry = WarehouseProduct {
        id: WarehouseProductId(9),
        warehouse_id: WarehouseId(1),
        product_id: ProductId(2),
        quantity: Quantity(3),
    };
    assert_eq!(
        WarehouseProduct::from_row(&op.values.clone().with(Column::Id, Value::Int(9))),
        Some(entry)
    );
    assert_eq!(entry.into_meta(), (ProductId(2), WarehouseProductMeta { quantity: Quantity(3) }));
    assert_eq!(
        entry.into_parts(),
        (
            WarehouseProductId(9),
            WarehouseId(1),
            ProductId(2),
            WarehouseProductMeta { quantity: Quantity(3) }
        )
    );

    let all = WarehouseProductFilter::default().into_filtered_operation_builder("warehouse_products");
    assert!(Record::new().includes(&all.filters));
    let mask = WarehouseProductFilter {
        id: Some(WarehouseProductId(9).into()),
        quantity: Some(Quantity(3).into()),
        ..Default::default()
    };
    let filter = mask.into_filtered_operation_builder("warehouse_products");
    assert!(filter.filters.get(Column::Id).unwrap().equals(&Value::Int(9)));
    assert!(filter.filters.get(Column::Quantity).unwrap().equals(&Value::Int(3)));
    assert!(!filter.filters.has(Column::ProductId));

    let update = WarehouseProductUpdater {
        mask,
        data: WarehouseProductUpdateData { quantity: Some(Quantity(4).into()) },
    }
    .into_update_builder("warehouse_products");
    assert!(update.filters.get(Column::Id).unwrap().equals(&Value::Int(9)));
    assert!(update.values.get(Column::Quantity).unwrap().equals(&Value::Int(4)));
    let nothing = WarehouseProductUpdater { mask, data: WarehouseProductUpdateData::default() }
        .into_update_builder("warehouse_products");
    assert!(Record::new().includes(&nothing.values));
}
