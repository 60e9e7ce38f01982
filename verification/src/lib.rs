//! An in-memory point-of-sale backend: a fixed product catalog and an
//! append-only list of customer orders, with the two request handlers that
//! read and extend them.

use crate::web::catalog::{distinct_ids, product_views, seeded_catalog};
use crate::web::data::{Amount, AppState, AppStateView, Order, OrderView, Product};
use crate::web::status::Status;
use vstd::prelude::*;

pub mod history;
pub mod web;

verus! {

/// The products every freshly started shop sells: Classic Burger at 15.50,
/// Cheese Burger at 17.50, Fries at 6.00 and Soda at 4.50, in that order.
pub fn get_initial_products() -> (products: Vec<Product>)
    ensures
        product_views(products@) == seeded_catalog(),
{
    let mut products: Vec<Product> = Vec::new();
    products.push(
        Product {
            id: 1,
            name: "Classic Burger".to_owned(),
            price: Amount { bits: 0x402F_0000_0000_0000 },
        },
    );
    products.push(
        Product {
            id: 2,
            name: "Cheese Burger".to_owned(),
            price: Amount { bits: 0x4031_8000_0000_0000 },
        },
    );
    products.push(
        Product { id: 3, name: "Fries".to_owned(), price: Amount { bits: 0x4018_0000_0000_0000 } },
    );
    products.push(
        Product { id: 4, name: "Soda".to_owned(), price: Amount { bits: 0x4012_0000_0000_0000 } },
    );
    products
}

/// The view of a request body: of the order it parsed to, if it did parse.
pub open spec fn body_view(body: Option<Order>) -> Option<OrderView> {
    match body {
        Some(order) => Some(order@),
        None => None,
    }
}

/// The state after one create-order request: an order is added after all
/// earlier ones, and a body that was no order changes nothing.
pub open spec fn after_create_order(before: AppStateView, body: Option<OrderView>) -> AppStateView {
    match body {
        Some(order) => AppStateView { products: before.products, orders: before.orders.push(order) },
        None => before,
    }
}

/// Handles a request for the list of products: answers `Success` with a
/// snapshot copy of the catalog, in catalog order. There is no failure, and
/// the state is left as it is.
pub fn get_products(state: &AppState) -> (response: (Status, Vec<Product>))
    ensures
        response.0 == Status::Success,
        product_views(response.1@) == state@.products,
        distinct_ids(state@.products),
{
    (Status::Success, state.products.list_products())
}

/// Handles a request to create an order.
///
/// `body` is the order the request body parsed to, or `None` where the body
/// was not an order. An order is stored as it is, after all earlier ones, and
/// answered with `Created` and a copy of the order as it now stands last in
/// the store. A body that was not an order is answered with `BadRequest` and
/// leaves the state untouched.
pub fn create_order(state: &mut AppState, body: Option<Order>) -> (response: (Status, Option<Order>))
    ensures
        final(state)@ == after_create_order(old(state)@, body_view(body)),
        body is Some ==> response.0 == Status::Created,
        body is Some ==> body_view(response.1) == body_view(body),
        body is Some ==> body_view(response.1) == Some(final(state)@.orders.last()),
        body is None ==> response.0 == Status::BadRequest,
        body is None ==> response.1 is None,
{
    match body {
        Some(order) => {
            let stored = state.orders.append_order(order);
            (Status::Created, Some(stored))
        },
        None => (Status::BadRequest, None),
    }
}

} // verus!
