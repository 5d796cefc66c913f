//! The boundary of the service: who is calling, and which operation a
//! request asks for.

pub mod routing;

use vstd::prelude::*;
use crate::controller::routing::{RolesRoute, Route, RouteView};
use crate::decimal::{i32_of, parse_i32};
use crate::errors::Error;
use crate::types::{ProductId, RoleEntryId, StoreId, UserId, WarehouseId, WarehouseIdentifier};

verus! {

/// Who is calling, by what the request says of its caller: nobody where it
/// says nothing; the caller of this number where it gives a number; an error
/// where what it gives is no number.
pub open spec fn user_id_of(authorization: Option<Seq<char>>) -> Result<Option<UserId>, Error> {
    match authorization {
        None => Ok(None),
        Some(text) => match i32_of(text) {
            Some(n) => Ok(Some(UserId(n))),
            None => Err(Error::UserIdParse),
        },
    }
}

/// The model of an optional text.
pub open spec fn header_view(authorization: Option<&str>) -> Option<Seq<char>> {
    match authorization {
        Some(text) => Some(text@),
        None => None,
    }
}

/// Who is calling, by the value of the request's authorization header.
pub fn extract_user_id(authorization: Option<&str>) -> (r: Result<Option<UserId>, Error>)
    ensures
        r == user_id_of(header_view(authorization)),
{
    match authorization {
        None => Ok(None),
        Some(string_id) => match parse_i32(string_id) {
            Some(v) => Ok(Some(UserId(v))),
            None => Err(Error::UserIdParse),
        },
    }
}

/// The method of a request.
#[derive(Clone, Copy, Debug, PartialEq, Eq, Hash, Structural)]
pub enum Method {
    Get,
    Post,
    Put,
    Delete,
    Other,
}

/// An operation of the service that a request can ask for. Where the
/// operation takes a payload, the body of the request holds it.
#[derive(Clone, Debug, PartialEq, Eq)]
pub enum Operation {
    GetWarehouse { warehouse_id: WarehouseIdentifier },
    GetWarehousesForStore { store_id: StoreId },
    /// The body is what describes the warehouse.
    CreateWarehouse,
    /// The body is the patch.
    UpdateWarehouse { warehouse_id: WarehouseIdentifier },
    DeleteWarehouse { warehouse_id: WarehouseIdentifier },
    DeleteAllWarehouses,
    ListProductsInWarehouse { warehouse_id: WarehouseId },
    GetProductInWarehouse { warehouse_id: WarehouseId, product_id: ProductId },
    /// The body is the quantity.
    SetProductInWarehouse { warehouse_id: WarehouseId, product_id: ProductId },
    FindByProductId { product_id: ProductId },
    GetRolesForUser { user_id: UserId },
    /// The body is the grant.
    CreateRole,
    RemoveAllRoles { user_id: UserId },
    RemoveRole { id: RoleEntryId },
}

/// The model of an [`Operation`]: a route tells which warehouse or record is
/// meant.
pub enum OperationView {
    GetWarehouse(RouteView),
    GetWarehousesForStore(StoreId),
    CreateWarehouse,
    UpdateWarehouse(RouteView),
    DeleteWarehouse(RouteView),
    DeleteAllWarehouses,
    ListProductsInWarehouse(WarehouseId),
    GetProductInWarehouse(WarehouseId, ProductId),
    SetProductInWarehouse(WarehouseId, ProductId),
    FindByProductId(ProductId),
    GetRolesForUser(UserId),
    CreateRole,
    RemoveAllRoles(UserId),
    RemoveRole(RoleEntryId),
}

impl View for Operation {
    type V = OperationView;

    open spec fn view(&self) -> OperationView {
        match self {
            Operation::GetWarehouse { warehouse_id } => OperationView::GetWarehouse(
                (Route::Warehouse { warehouse_id: *warehouse_id })@,
            ),
            Operation::GetWarehousesForStore { store_id } => OperationView::GetWarehousesForStore(
                *store_id,
            ),
            Operation::CreateWarehouse => OperationView::CreateWarehouse,
            Operation::UpdateWarehouse { warehouse_id } => OperationView::UpdateWarehouse(
                (Route::Warehouse { warehouse_id: *warehouse_id })@,
            ),
            Operation::DeleteWarehouse { warehouse_id } => OperationView::DeleteWarehouse(
                (Route::Warehouse { warehouse_id: *warehouse_id })@,
            ),
            Operation::DeleteAllWarehouses => OperationView::DeleteAllWarehouses,
            Operation::ListProductsInWarehouse { warehouse_id } => {
                OperationView::ListProductsInWarehouse(*warehouse_id)
            },
            Operation::GetProductInWarehouse { warehouse_id, product_id } => {
                OperationView::GetProductInWarehouse(*warehouse_id, *product_id)
            },
            Operation::SetProductInWarehouse { warehouse_id, product_id } => {
                OperationView::SetProductInWarehouse(*warehouse_id, *product_id)
            },
            Operation::FindByProductId { product_id } => OperationView::FindByProductId(
                *product_id,
            ),
            Operation::GetRolesForUser { user_id } => OperationView::GetRolesForUser(*user_id),
            Operation::CreateRole => OperationView::CreateRole,
            Operation::RemoveAllRoles { user_id } => OperationView::RemoveAllRoles(*user_id),
            Operation::RemoveRole { id } => OperationView::RemoveRole(*id),
        }
    }
}

/// Whether a route names one warehouse.
pub open spec fn names_warehouse(route: RouteView) -> bool {
    route is WarehouseById || route is WarehouseBySlug
}

/// The operation that a method on a route asks for, if the service has one
/// for them.
pub open spec fn operation_of(method: Method, route: Option<RouteView>) -> Option<OperationView> {
    match route {
        None => None,
        Some(route) => match (method, route) {
            (Method::Get, RouteView::WarehousesByStore { store_id }) => Some(
                OperationView::GetWarehousesForStore(store_id),
            ),
            (Method::Post, RouteView::Warehouses) => Some(OperationView::CreateWarehouse),
            (Method::Delete, RouteView::Warehouses) => Some(OperationView::DeleteAllWarehouses),
            (Method::Get, RouteView::StocksInWarehouse { warehouse_id }) => Some(
                OperationView::ListProductsInWarehouse(warehouse_id),
            ),
            (Method::Get, RouteView::StockInWarehouse { warehouse_id, product_id }) => Some(
                OperationView::GetProductInWarehouse(warehouse_id, product_id),
            ),
            (Method::Put, RouteView::StockInWarehouse { warehouse_id, product_id }) => Some(
                OperationView::SetProductInWarehouse(warehouse_id, product_id),
            ),
            (Method::Get, RouteView::StocksByProductId { product_id }) => Some(
                OperationView::FindByProductId(product_id),
            ),
            (Method::Get, RouteView::Roles(RolesRoute::RolesByUserId { user_id })) => Some(
                OperationView::GetRolesForUser(user_id),
            ),
            (Method::Post, RouteView::Roles(RolesRoute::Roles)) => Some(OperationView::CreateRole),
            (Method::Delete, RouteView::Roles(RolesRoute::RolesByUserId { user_id })) => Some(
                OperationView::RemoveAllRoles(user_id),
            ),
            (Method::Delete, RouteView::Roles(RolesRoute::RoleById { id })) => Some(
                OperationView::RemoveRole(id),
            ),
            (Method::Get, route) => if names_warehouse(route) {
                Some(OperationView::GetWarehouse(route))
            } else {
                None
            },
            (Method::Put, route) => if names_warehouse(route) {
                Some(OperationView::UpdateWarehouse(route))
            } else {
                None
            },
            (Method::Delete, route) => if names_warehouse(route) {
                Some(OperationView::DeleteWarehouse(route))
            } else {
                None
            },
            _ => None,
        },
    }
}

/// The model of a result that holds an operation.
pub open spec fn operation_view(r: Result<Operation, Error>) -> Result<OperationView, Error> {
    match r {
        Ok(op) => Ok(op@),
        Err(e) => Err(e),
    }
}

/// The operation that a request asks for, by its method and its route.
/// `InvalidRoute` where the path is no route or the service has nothing for
/// the method on the route.
pub fn route_request(method: Method, route: Option<Route>) -> (r: Result<Operation, Error>)
    ensures
        operation_view(r) == match operation_of(method, routing::route_view(route)) {
            Some(op) => Ok(op),
            None => Err(Error::InvalidRoute),
        },
{
    match (method, route) {
        (Method::Get, Some(Route::Warehouse { warehouse_id })) => Ok(
            Operation::GetWarehouse { warehouse_id },
        ),
        (Method::Get, Some(Route::WarehousesByStore { store_id })) => Ok(
            Operation::GetWarehousesForStore { store_id },
        ),
        (Method::Post, Some(Route::Warehouses)) => Ok(Operation::CreateWarehouse),
        (Method::Put, Some(Route::Warehouse { warehouse_id })) => Ok(
            Operation::UpdateWarehouse { warehouse_id },
        ),
        (Method::Delete, Some(Route::Warehouse { warehouse_id })) => Ok(
            Operation::DeleteWarehouse { warehouse_id },
        ),
        (Method::Delete, Some(Route::Warehouses)) => Ok(Operation::DeleteAllWarehouses),
        (Method::Get, Some(Route::StocksInWarehouse { warehouse_id })) => Ok(
            Operation::ListProductsInWarehouse { warehouse_id },
        ),
        (Method::Get, Some(Route::StockInWarehouse { warehouse_id, product_id })) => Ok(
            Operation::GetProductInWarehouse { warehouse_id, product_id },
        ),
        (Method::Put, Some(Route::StockInWarehouse { warehouse_id, product_id })) => Ok(
            Operation::SetProductInWarehouse { warehouse_id, product_id },
        ),
        (Method::Get, Some(Route::StocksByProductId { product_id })) => Ok(
            Operation::FindByProductId { product_id },
        ),
        (Method::Get, Some(Route::Roles(RolesRoute::RolesByUserId { user_id }))) => Ok(
            Operation::GetRolesForUser { user_id },
        ),
        (Method::Post, Some(Route::Roles(RolesRoute::Roles))) => Ok(Operation::CreateRole),
        (Method::Delete, Some(Route::Roles(RolesRoute::RolesByUserId { user_id }))) => Ok(
            Operation::RemoveAllRoles { user_id },
        ),
        (Method::Delete, Some(Route::Roles(RolesRoute::RoleById { id }))) => Ok(
            Operation::RemoveRole { id },
        ),
        (_, _) => Err(Error::InvalidRoute),
    }
}

} // verus!
