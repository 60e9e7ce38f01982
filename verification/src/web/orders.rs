//! The order store: the orders accepted so far, oldest first.

use crate::web::data::{Order, OrderView};
use vstd::prelude::*;

verus! {

/// The views of a sequence of orders, in the same order.
pub open spec fn order_views(orders: Seq<Order>) -> Seq<OrderView> {
    orders.map_values(|o: Order| o@)
}

/// The order store. It only grows: an accepted order is added at the end,
/// and no stored order is ever changed or removed.
pub struct OrderStore {
    orders: Vec<Order>,
}

impl View for OrderStore {
    type V = Seq<OrderView>;

    closed spec fn view(&self) -> Seq<OrderView> {
        order_views(self.orders@)
    }
}

impl OrderStore {
    /// A store that holds no order yet.
    pub fn new() -> (store: OrderStore)
        ensures
            store@ == Seq::<OrderView>::empty(),
    {
        OrderStore { orders: Vec::new() }
    }

    /// How many orders have been accepted.
    pub fn len(&self) -> (count: usize)
        ensures
            count == self@.len(),
    {
        self.orders.len()
    }

    /// Stores the order after all earlier ones and returns a copy of what now
    /// stands last in the store. Any order is accepted as it is.
    pub fn append_order(&mut self, order: Order) -> (stored: Order)
        ensures
            final(self)@ == old(self)@.push(order@),
            stored@ == final(self)@.last(),
    {
        self.orders.push(order);
        let last: usize = self.orders.len() - 1;
        self.orders[last].clone()
    }

    /// A snapshot copy of the accepted orders, oldest first.
    pub fn list_orders(&self) -> (listed: Vec<Order>)
        ensures
            order_views(listed@) == self@,
    {
        self.orders.clone()
    }
}

} // verus!
