//! What a run of create-order requests, handled one after another, does to
//! the state.
//!
//! Requests that arrive in parallel are handled one at a time, in whatever
//! order they win exclusive access to the state. Every statement here holds
//! of every such order.

use crate::after_create_order;
use crate::web::data::{initial_state, AppStateView, OrderView};
use crate::web::catalog::seeded_catalog;
use vstd::prelude::*;

verus! {

/// The state after the given request bodies have been handled one after
/// another, each by one create-order request.
pub open spec fn after_requests(before: AppStateView, bodies: Seq<Option<OrderView>>) -> AppStateView
    decreases bodies.len(),
{
    if bodies.len() == 0 {
        before
    } else {
        after_create_order(after_requests(before, bodies.drop_last()), bodies.last())
    }
}

/// The orders among the given request bodies, in the order of the bodies.
pub open spec fn accepted_orders(bodies: Seq<Option<OrderView>>) -> Seq<OrderView>
    decreases bodies.len(),
{
    if bodies.len() == 0 {
        Seq::empty()
    } else {
        match bodies.last() {
            Some(order) => accepted_orders(bodies.drop_last()).push(order),
            None => accepted_orders(bodies.drop_last()),
        }
    }
}

/// The request bodies that carry the given orders, one well-formed body each.
pub open spec fn well_formed_bodies(orders: Seq<OrderView>) -> Seq<Option<OrderView>> {
    orders.map_values(|order: OrderView| Some(order))
}

/// The order store reflects exactly the accepted orders: after any run of
/// requests it holds what it held before, unchanged, followed by the orders
/// among the bodies, in the order in which they were handled.
pub proof fn lemma_store_holds_accepted_orders(before: AppStateView, bodies: Seq<Option<OrderView>>)
    ensures
        after_requests(before, bodies).orders == before.orders + accepted_orders(bodies),
        before.orders.is_prefix_of(after_requests(before, bodies).orders),
    decreases bodies.len(),
{
    if bodies.len() > 0 {
        lemma_store_holds_accepted_orders(before, bodies.drop_last());
    }
}

/// Every order among the bodies is accepted: a run of well-formed bodies is
/// accepted whole.
pub proof fn lemma_well_formed_bodies_all_accepted(orders: Seq<OrderView>)
    ensures
        accepted_orders(well_formed_bodies(orders)) == orders,
    decreases orders.len(),
{
    if orders.len() > 0 {
        lemma_well_formed_bodies_all_accepted(orders.drop_last());
        assert(well_formed_bodies(orders).drop_last() == well_formed_bodies(orders.drop_last()));
    }
}

/// No append is lost and none is made twice: after `n` well-formed
/// create-order requests, handled in any order, the order store has grown by
/// exactly `n`, and a store that started empty holds exactly `n` orders.
pub proof fn lemma_every_order_stored_once(before: AppStateView, orders: Seq<OrderView>)
    ensures
        after_requests(before, well_formed_bodies(orders)).orders == before.orders + orders,
        after_requests(before, well_formed_bodies(orders)).orders.len() == before.orders.len()
            + orders.len(),
        after_requests(initial_state(), well_formed_bodies(orders)).orders.len() == orders.len(),
{
    lemma_store_holds_accepted_orders(before, well_formed_bodies(orders));
    lemma_store_holds_accepted_orders(initial_state(), well_formed_bodies(orders));
    lemma_well_formed_bodies_all_accepted(orders);
}

/// A body that is not an order never makes the store longer: a run of
/// malformed bodies leaves the whole state as it was.
pub proof fn lemma_malformed_bodies_change_nothing(before: AppStateView, bodies: Seq<Option<OrderView>>)
    requires
        forall|i: int| 0 <= i < bodies.len() ==> bodies[i] is None,
    ensures
        after_requests(before, bodies) == before,
    decreases bodies.len(),
{
    if bodies.len() > 0 {
        lemma_malformed_bodies_change_nothing(before, bodies.drop_last());
    }
}

/// The catalog is the same after any run of create-order requests as before
/// it, however many orders were stored.
pub proof fn lemma_catalog_unaffected(before: AppStateView, bodies: Seq<Option<OrderView>>)
    ensures
        after_requests(before, bodies).products == before.products,
    decreases bodies.len(),
{
    if bodies.len() > 0 {
        lemma_catalog_unaffected(before, bodies.drop_last());
    }
}

/// Every catalog read of a running shop sees the same thing: whatever
/// requests have been handled since the start, and whatever requests are
/// handled between two reads, the catalog is the seeded one.
pub proof fn lemma_catalog_reads_agree(
    earlier: Seq<Option<OrderView>>,
    between: Seq<Option<OrderView>>,
)
    ensures
        after_requests(initial_state(), earlier).products == seeded_catalog(),
        after_requests(after_requests(initial_state(), earlier), between).products
            == seeded_catalog(),
{
    lemma_catalog_unaffected(initial_state(), earlier);
    lemma_catalog_unaffected(after_requests(initial_state(), earlier), between);
}

} // verus!
