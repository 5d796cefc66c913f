//! Routes: what the path of a request asks about.

use vstd::prelude::*;
use vstd::string::*;
use crate::decimal::{all_digits, digit_of, i32_of, parse_i32};
use crate::storage::same_text;
use crate::types::{
    parse_uuid, uuid_of, ProductId, RoleEntryId, StockId, StoreId, UserId, WarehouseId,
    WarehouseIdentifier, WarehouseSlug,
};
use crate::value::views;

verus! {

/// What a path about role grants asks about.
#[derive(Clone, Copy, Debug, PartialEq, Eq, Structural)]
pub enum RolesRoute {
    Roles,
    RoleById { id: RoleEntryId },
    RolesByUserId { user_id: UserId },
}

/// What a path asks about.
#[derive(Clone, Debug, PartialEq, Eq)]
pub enum Route {
    Warehouses,
    Warehouse { warehouse_id: WarehouseIdentifier },
    WarehousesByStore { store_id: StoreId },
    StocksInWarehouse { warehouse_id: WarehouseId },
    StockInWarehouse { warehouse_id: WarehouseId, product_id: ProductId },
    StocksByProductId { product_id: ProductId },
    StockById { stock_id: StockId },
    Roles(RolesRoute),
}

/// The model of a [`Route`]: a slug is a sequence of characters.
pub enum RouteView {
    Warehouses,
    WarehouseById { warehouse_id: WarehouseId },
    WarehouseBySlug { slug: Seq<char> },
    WarehousesByStore { store_id: StoreId },
    StocksInWarehouse { warehouse_id: WarehouseId },
    StockInWarehouse { warehouse_id: WarehouseId, product_id: ProductId },
    StocksByProductId { product_id: ProductId },
    StockById { stock_id: StockId },
    Roles(RolesRoute),
}

impl View for Route {
    type V = RouteView;

    open spec fn view(&self) -> RouteView {
        match self {
            Route::Warehouses => RouteView::Warehouses,
            Route::Warehouse { warehouse_id: WarehouseIdentifier::Id(id) } => RouteView::WarehouseById {
                warehouse_id: *id,
            },
            Route::Warehouse { warehouse_id: WarehouseIdentifier::Slug(slug) } => {
                RouteView::WarehouseBySlug { slug: slug.0@ }
            },
            Route::WarehousesByStore { store_id } => RouteView::WarehousesByStore {
                store_id: *store_id,
            },
            Route::StocksInWarehouse { warehouse_id } => RouteView::StocksInWarehouse {
                warehouse_id: *warehouse_id,
            },
            Route::StockInWarehouse { warehouse_id, product_id } => RouteView::StockInWarehouse {
                warehouse_id: *warehouse_id,
                product_id: *product_id,
            },
            Route::StocksByProductId { product_id } => RouteView::StocksByProductId {
                product_id: *product_id,
            },
            Route::StockById { stock_id } => RouteView::StockById { stock_id: *stock_id },
            Route::Roles(r) => RouteView::Roles(*r),
        }
    }
}

/// The position of the first slash of a text; its length if it has none.
pub open spec fn first_slash(s: Seq<char>) -> int
    decreases s.len(),
{
    if s.len() == 0 || s[0] == '/' {
        0
    } else {
        1 + first_slash(s.drop_first())
    }
}

/// The segments of a path: what stands before, between and after its
/// slashes. A path without a slash is one segment.
pub open spec fn segments(s: Seq<char>) -> Seq<Seq<char>>
    decreases s.len(),
    via segments_decreases
{
    let i = first_slash(s);
    if i >= s.len() {
        seq![s]
    } else {
        seq![s.take(i)] + segments(s.skip(i + 1))
    }
}

#[via_fn]
proof fn segments_decreases(s: Seq<char>) {
    lemma_first_slash_bounds(s);
}

/// The first slash is within the text or just past it.
pub proof fn lemma_first_slash_bounds(s: Seq<char>)
    ensures
        0 <= first_slash(s) <= s.len(),
    decreases s.len(),
{
    if s.len() > 0 && s[0] != '/' {
        lemma_first_slash_bounds(s.drop_first());
    }
}

/// Where the first slash is: after a run without a slash, where the text
/// ends or a slash stands.
pub proof fn lemma_first_slash(s: Seq<char>, i: int)
    requires
        0 <= i <= s.len(),
        forall|k: int| 0 <= k < i ==> s[k] != '/',
        i == s.len() || s[i] == '/',
    ensures
        first_slash(s) == i,
    decreases s.len(),
{
    if i > 0 {
        let rest = s.drop_first();
        assert forall|k: int| 0 <= k < i - 1 implies rest[k] != '/' by {
            assert(rest[k] == s[k + 1]);
        }
        lemma_first_slash(rest, i - 1);
    }
}

/// The segments of a path.
pub fn split_path<'a>(path: &'a str) -> (parts: Vec<&'a str>)
    ensures
        views(parts@) == segments(path@),
{
    let n: usize = path.unicode_len();
    let mut parts: Vec<&'a str> = Vec::new();
    let mut start: usize = 0;
    let mut i: usize = 0;
    assert(views(parts@) =~= Seq::<Seq<char>>::empty());
    assert(path@.skip(0) =~= path@);
    while i < n
        invariant
            start <= i <= n,
            n == path@.len(),
            forall|k: int| start <= k < i ==> path@[k] != '/',
            views(parts@) + segments(path@.skip(start as int)) == segments(path@),
        decreases n - i,
    {
        let c: char = path.get_char(i);
        if c == '/' {
            let ghost rest = path@.skip(start as int);
            proof {
                assert forall|k: int| 0 <= k < i - start implies rest[k] != '/' by {
                    assert(rest[k] == path@[k + start]);
                }
                lemma_first_slash(rest, i - start);
                assert(rest.take(i - start) =~= path@.subrange(start as int, i as int));
                assert(rest.skip(i - start + 1) =~= path@.skip(i as int + 1));
            }
            let ghost before = views(parts@);
            parts.push(path.substring_char(start, i));
            proof {
                assert(views(parts@) =~= before.push(path@.subrange(start as int, i as int)));
                assert(views(parts@) + segments(path@.skip(i as int + 1)) =~= before + segments(
                    rest,
                ));
            }
            start = i + 1;
        }
        i = i + 1;
    }
    let ghost rest = path@.skip(start as int);
    proof {
        assert forall|k: int| 0 <= k < n - start implies rest[k] != '/' by {
            assert(rest[k] == path@[k + start]);
        }
        lemma_first_slash(rest, n - start);
        assert(rest =~= path@.subrange(start as int, n as int));
    }
    let ghost before = views(parts@);
    parts.push(path.substring_char(start, n));
    assert(views(parts@) =~= before + segments(rest));
    parts
}

/// Whether a character may stand in an identifier or a slug: a letter of
/// the Latin alphabet without marks, a digit, or a hyphen.
pub open spec fn is_id_char(c: char) -> bool {
    ||| 'a' <= c <= 'z'
    ||| 'A' <= c <= 'Z'
    ||| '0' <= c <= '9'
    ||| c == '-'
}

/// Whether a segment may be an identifier or a slug: made of such
/// characters, and at least one.
pub open spec fn is_id_segment(s: Seq<char>) -> bool {
    s.len() > 0 && forall|i: int| 0 <= i < s.len() ==> is_id_char(#[trigger] s[i])
}

/// Whether a segment may be an identifier or a slug.
pub fn check_id_segment(segment: &str) -> (ok: bool)
    ensures
        ok == is_id_segment(segment@),
{
    let n: usize = segment.unicode_len();
    if n == 0 {
        return false;
    }
    let mut i: usize = 0;
    while i < n
        invariant
            i <= n,
            n == segment@.len(),
            forall|k: int| 0 <= k < i ==> is_id_char(#[trigger] segment@[k]),
        decreases n - i,
    {
        let c: char = segment.get_char(i);
        let ok: bool = ('a' <= c && c <= 'z') || ('A' <= c && c <= 'Z') || ('0' <= c && c <= '9')
            || c == '-';
        if !ok {
            assert(!is_id_char(segment@[i as int]));
            return false;
        }
        i = i + 1;
    }
    true
}

/// The identifier that a segment writes: the segment must be made of
/// letters, digits and hyphens, and be a UUID.
pub open spec fn id_of(segment: Seq<char>) -> Option<u128> {
    if is_id_segment(segment) {
        uuid_of(segment)
    } else {
        None
    }
}

/// The number that a segment writes: the segment must be made of digits, and
/// its number must fit in 32 bits.
pub open spec fn number_of(segment: Seq<char>) -> Option<i32> {
    if segment.len() > 0 && all_digits(segment) {
        i32_of(segment)
    } else {
        None
    }
}

/// Reads the identifier that a segment writes.
pub fn read_id(segment: &str) -> (id: Option<u128>)
    ensures
        id == id_of(segment@),
{
    if check_id_segment(segment) {
        parse_uuid(segment)
    } else {
        None
    }
}

/// Reads the number that a segment writes.
pub fn read_number(segment: &str) -> (n: Option<i32>)
    ensures
        n == number_of(segment@),
{
    let len: usize = segment.unicode_len();
    if len == 0 {
        return None;
    }
    let mut i: usize = 0;
    while i < len
        invariant
            i <= len,
            len == segment@.len(),
            forall|k: int| 0 <= k < i ==> crate::decimal::digit_value(#[trigger] segment@[k]) < 10,
        decreases len - i,
    {
        if digit_of(segment.get_char(i)).is_none() {
            assert(crate::decimal::digit_value(segment@[i as int]) >= 10);
            return None;
        }
        i = i + 1;
    }
    parse_i32(segment)
}

/// What the segments after `/warehouses` ask about, given the identifier
/// that the segment after `by-id` writes, if it writes one.
pub open spec fn warehouses_route(rest: Seq<Seq<char>>, id: Option<u128>) -> Option<RouteView> {
    if rest.len() == 0 {
        Some(RouteView::Warehouses)
    } else if rest.len() == 2 && rest[0] == "by-id"@ {
        match id {
            Some(id) => Some(RouteView::WarehouseById { warehouse_id: WarehouseId(id) }),
            None => None,
        }
    } else if rest.len() == 2 && rest[0] == "by-slug"@ {
        if is_id_segment(rest[1]) {
            Some(RouteView::WarehouseBySlug { slug: rest[1] })
        } else {
            None
        }
    } else if rest.len() == 2 && rest[0] == "by-store"@ {
        match number_of(rest[1]) {
            Some(n) => Some(RouteView::WarehousesByStore { store_id: StoreId(n) }),
            None => None,
        }
    } else if rest.len() == 3 && rest[0] == "by-id"@ && rest[2] == "products"@ {
        match id {
            Some(id) => Some(RouteView::StocksInWarehouse { warehouse_id: WarehouseId(id) }),
            None => None,
        }
    } else if rest.len() == 4 && rest[0] == "by-id"@ && rest[2] == "products"@ {
        match (id, number_of(rest[3])) {
            (Some(id), Some(n)) => Some(
                RouteView::StockInWarehouse {
                    warehouse_id: WarehouseId(id),
                    product_id: ProductId(n),
                },
            ),
            _ => None,
        }
    } else {
        None
    }
}

/// What the segments after `/stocks` ask about, given the identifier that
/// the segment after `by-id` writes, if it writes one.
pub open spec fn stocks_route(rest: Seq<Seq<char>>, id: Option<u128>) -> Option<RouteView> {
    if rest.len() == 2 && rest[0] == "by-product-id"@ {
        match number_of(rest[1]) {
            Some(n) => Some(RouteView::StocksByProductId { product_id: ProductId(n) }),
            None => None,
        }
    } else if rest.len() == 2 && rest[0] == "by-id"@ {
        match id {
            Some(id) => Some(RouteView::StockById { stock_id: StockId(id) }),
            None => None,
        }
    } else {
        None
    }
}

/// What the segments after `/roles` ask about, given the identifier that the
/// segment after `by-id` writes, if it writes one.
pub open spec fn roles_route(rest: Seq<Seq<char>>, id: Option<u128>) -> Option<RouteView> {
    if rest.len() == 0 {
        Some(RouteView::Roles(RolesRoute::Roles))
    } else if rest.len() == 2 && rest[0] == "by-user-id"@ {
        match number_of(rest[1]) {
            Some(n) => Some(RouteView::Roles(RolesRoute::RolesByUserId { user_id: UserId(n) })),
            None => None,
        }
    } else if rest.len() == 2 && rest[0] == "by-id"@ {
        match id {
            Some(id) => Some(RouteView::Roles(RolesRoute::RoleById { id: RoleEntryId(id) })),
            None => None,
        }
    } else {
        None
    }
}

/// What the segments of a path ask about, if they are those of a path of
/// the service, given the identifier that the fourth segment writes, if it
/// writes one: an empty segment first, since the path begins with a slash;
/// then `warehouses`, `stocks` or `roles`, and what they take. Where a route
/// has an identifier, the fourth segment holds it.
pub open spec fn route_with(parts: Seq<Seq<char>>, id: Option<u128>) -> Option<RouteView> {
    if parts.len() < 2 || parts[0].len() != 0 {
        None
    } else if parts[1] == "warehouses"@ {
        warehouses_route(parts.skip(2), id)
    } else if parts[1] == "stocks"@ {
        stocks_route(parts.skip(2), id)
    } else if parts[1] == "roles"@ {
        roles_route(parts.skip(2), id)
    } else {
        None
    }
}

/// The identifier that the fourth segment writes, if there is a fourth
/// segment and it writes one.
pub open spec fn id_in(parts: Seq<Seq<char>>) -> Option<u128> {
    if parts.len() >= 4 {
        id_of(parts[3])
    } else {
        None
    }
}

/// What a path asks about, if it is a path of the service.
pub open spec fn route_of(path: Seq<char>) -> Option<RouteView> {
    route_with(segments(path), id_in(segments(path)))
}

/// The model of a route that may have been found.
pub open spec fn route_view(route: Option<Route>) -> Option<RouteView> {
    match route {
        Some(r) => Some(r@),
        None => None,
    }
}

/// What the segments from the third on ask about, after `/warehouses`.
fn parse_warehouses(parts: &Vec<&str>, id: Option<u128>) -> (route: Option<Route>)
    requires
        parts@.len() >= 2,
    ensures
        route_view(route) == warehouses_route(views(parts@).skip(2), id),
{
    let n: usize = parts.len() - 2;
    let ghost rest = views(parts@).skip(2);
    proof {
        assert(rest.len() == n);
        assert forall|k: int| 0 <= k < n implies rest[k] == (#[trigger] parts@[k + 2])@ by {}
    }
    if n == 0 {
        Some(Route::Warehouses)
    } else if n == 2 && same_text(parts[2], "by-id") {
        match id {
            Some(id) => Some(
                Route::Warehouse { warehouse_id: WarehouseIdentifier::Id(WarehouseId(id)) },
            ),
            None => None,
        }
    } else if n == 2 && same_text(parts[2], "by-slug") {
        if check_id_segment(parts[3]) {
            Some(
                Route::Warehouse {
                    warehouse_id: WarehouseIdentifier::Slug(
                        WarehouseSlug(String::from_str(parts[3])),
                    ),
                },
            )
        } else {
            None
        }
    } else if n == 2 && same_text(parts[2], "by-store") {
        match read_number(parts[3]) {
            Some(store) => Some(Route::WarehousesByStore { store_id: StoreId(store) }),
            None => None,
        }
    } else if n == 3 && same_text(parts[2], "by-id") && same_text(parts[4], "products") {
        match id {
            Some(id) => Some(Route::StocksInWarehouse { warehouse_id: WarehouseId(id) }),
            None => None,
        }
    } else if n == 4 && same_text(parts[2], "by-id") && same_text(parts[4], "products") {
        match (id, read_number(parts[5])) {
            (Some(id), Some(product)) => Some(
                Route::StockInWarehouse {
                    warehouse_id: WarehouseId(id),
                    product_id: ProductId(product),
                },
            ),
            _ => None,
        }
    } else {
        None
    }
}

/// What the segments from the third on ask about, after `/stocks`.
fn parse_stocks(parts: &Vec<&str>, id: Option<u128>) -> (route: Option<Route>)
    requires
        parts@.len() >= 2,
    ensures
        route_view(route) == stocks_route(views(parts@).skip(2), id),
{
    let n: usize = parts.len() - 2;
    let ghost rest = views(parts@).skip(2);
    proof {
        assert(rest.len() == n);
        assert forall|k: int| 0 <= k < n implies rest[k] == (#[trigger] parts@[k + 2])@ by {}
    }
    if n == 2 && same_text(parts[2], "by-product-id") {
        match read_number(parts[3]) {
            Some(product) => Some(Route::StocksByProductId { product_id: ProductId(product) }),
            None => None,
        }
    } else if n == 2 && same_text(parts[2], "by-id") {
        match id {
            Some(id) => Some(Route::StockById { stock_id: StockId(id) }),
            None => None,
        }
    } else {
        None
    }
}

/// What the segments from the third on ask about, after `/roles`.
fn parse_roles(parts: &Vec<&str>, id: Option<u128>) -> (route: Option<Route>)
    requires
        parts@.len() >= 2,
    ensures
        route_view(route) == roles_route(views(parts@).skip(2), id),
{
    let n: usize = parts.len() - 2;
    let ghost rest = views(parts@).skip(2);
    proof {
        assert(rest.len() == n);
        assert forall|k: int| 0 <= k < n implies rest[k] == (#[trigger] parts@[k + 2])@ by {}
    }
    if n == 0 {
        Some(Route::Roles(RolesRoute::Roles))
    } else if n == 2 && same_text(parts[2], "by-user-id") {
        match read_number(parts[3]) {
            Some(user) => Some(Route::Roles(RolesRoute::RolesByUserId { user_id: UserId(user) })),
            None => None,
        }
    } else if n == 2 && same_text(parts[2], "by-id") {
        match id {
            Some(id) => Some(Route::Roles(RolesRoute::RoleById { id: RoleEntryId(id) })),
            None => None,
        }
    } else {
        None
    }
}

impl Route {
    /// What the segments of a path ask about, given the identifier that the
    /// fourth segment writes, if it writes one; nothing where they are not
    /// the segments of a path of the service.
    pub fn from_parts(parts: &Vec<&str>, id: Option<u128>) -> (route: Option<Route>)
        ensures
            route_view(route) == route_with(views(parts@), id),
    {
        if parts.len() < 2 {
            return None;
        }
        assert(views(parts@)[0] == parts@[0]@);
        assert(views(parts@)[1] == parts@[1]@);
        if parts[0].unicode_len() != 0 {
            return None;
        }
        if same_text(parts[1], "warehouses") {
            parse_warehouses(parts, id)
        } else if same_text(parts[1], "stocks") {
            parse_stocks(parts, id)
        } else if same_text(parts[1], "roles") {
            parse_roles(parts, id)
        } else {
            None
        }
    }

    /// What a path asks about; nothing where it is no path of the service.
    pub fn from_path(path: &str) -> (route: Option<Route>)
        ensures
            route_view(route) == route_of(path@),
    {
        let parts = split_path(path);
        let id: Option<u128> = if parts.len() >= 4 {
            assert(views(parts@)[3] == parts@[3]@);
            read_id(parts[3])
        } else {
            None
        };
        Route::from_parts(&parts, id)
    }
}

} // verus!
