//! Products, orders and their mathematical views.

use crate::web::catalog::{seeded_catalog, Catalog};
use crate::web::orders::OrderStore;
use vstd::prelude::*;

verus! {

/// A decimal amount of money, carried as the bit pattern of its IEEE 754
/// double-precision encoding.
///
/// Nothing in this crate computes with an amount: it is stored and handed
/// back unchanged, so equal bits in means equal bits out.
#[derive(Clone, Copy, Debug, PartialEq, Eq, Structural)]
pub struct Amount {
    pub bits: u64,
}

/// One line of an order: which product, and how many of it.
///
/// The product identifier is not held against the catalog, so an item may
/// name a product that is not for sale.
#[derive(Clone, Copy, Debug, PartialEq, Eq, Structural)]
pub struct OrderItem {
    pub product_id: u32,
    pub quantity: u32,
}

/// A product that can be sold.
#[derive(Debug, PartialEq, Eq)]
pub struct Product {
    pub id: u32,
    pub name: String,
    pub price: Amount,
}

/// What a [`Product`] is, with its name as a sequence of characters.
pub struct ProductView {
    pub id: u32,
    pub name: Seq<char>,
    pub price: Amount,
}

impl View for Product {
    type V = ProductView;

    open spec fn view(&self) -> ProductView {
        ProductView { id: self.id, name: self.name@, price: self.price }
    }
}

impl Clone for Product {
    fn clone(&self) -> (copy: Self)
        ensures
            copy@ == self@,
    {
        Product { id: self.id, name: self.name.clone(), price: self.price }
    }
}

/// A customer's order: the items wanted and the total the customer states.
///
/// The total is taken as given; nothing ties it to the items.
#[derive(Debug, PartialEq, Eq)]
pub struct Order {
    pub items: Vec<OrderItem>,
    pub total: Amount,
}

/// What an [`Order`] is, with its items as a sequence.
pub struct OrderView {
    pub items: Seq<OrderItem>,
    pub total: Amount,
}

impl View for Order {
    type V = OrderView;

    open spec fn view(&self) -> OrderView {
        OrderView { items: self.items@, total: self.total }
    }
}

impl Clone for Order {
    fn clone(&self) -> (copy: Self)
        ensures
            copy@ == self@,
    {
        Order { items: self.items.clone(), total: self.total }
    }
}

/// Everything the request handlers share: the catalog store and the order
/// store.
///
/// The state is one owned value. A handler that only reads takes it by
/// shared reference and a handler that writes takes it by exclusive
/// reference, so callers that serve requests in parallel have to put the
/// state behind a lock, and writes can only happen one at a time.
pub struct AppState {
    pub products: Catalog,
    pub orders: OrderStore,
}

/// What an [`AppState`] is: the catalog and the accepted orders, oldest first.
pub struct AppStateView {
    pub products: Seq<ProductView>,
    pub orders: Seq<OrderView>,
}

/// The state of a freshly started shop: the seeded catalog and no orders.
pub open spec fn initial_state() -> AppStateView {
    AppStateView { products: seeded_catalog(), orders: Seq::empty() }
}

impl View for AppState {
    type V = AppStateView;

    open spec fn view(&self) -> AppStateView {
        AppStateView { products: self.products@, orders: self.orders@ }
    }
}

impl AppState {
    /// The state a shop starts with.
    pub fn new() -> (state: AppState)
        ensures
            state@ == initial_state(),
    {
        AppState { products: Catalog::seeded(), orders: OrderStore::new() }
    }
}

} // verus!
