use std::sync::{Arc, Mutex};

use fastfood_pos::web::data::{Amount, AppState, Order, OrderItem};
use fastfood_pos::web::status::Status;
use fastfood_pos::{create_order, get_initial_products, get_products};

fn order(product_id: u32, quantity: u32, total: f64) -> Order {
    Order { items: vec![OrderItem { product_id, quantity }], total: Amount { bits: total.to_bits() } }
}

/// An executor that interleaves its tasks on the calling thread.
fn runtime() -> tokio::runtime::Runtime {
    tokio::runtime::Builder::new_current_thread().build().unwrap()
}

#[test]
fn interleaved_orders_are_each_stored_once() {
    let shared = Arc::new(Mutex::new(AppState::new()));
    let callers: u32 = 8;
    let each: u32 = 50;
    let tasks_state = Arc::clone(&shared);
    runtime().block_on(async move {
        let mut tasks = Vec::new();
        for caller in 0..callers {
            let shared = Arc::clone(&tasks_state);
            tasks.push(tokio::spawn(async move {
                for n in 0..each {
                    let answer = create_order(&mut shared.lock().unwrap(), Some(order(caller, n, 1.0)));
                    assert_eq!(answer, (Status::Created, Some(order(caller, n, 1.0))));
                    tokio::task::yield_now().await;
                }
            }));
        }
        for task in tasks {
            task.await.unwrap();
        }
    });
    let state = shared.lock().unwrap();
    assert_eq!(state.orders.len(), (callers * each) as usize);
    let listed = state.orders.list_orders();
    for caller in 0..callers {
        let quantities: Vec<u32> =
            listed.iter().filter(|o| o.items[0].product_id == caller).map(|o| o.items[0].quantity).collect();
        assert_eq!(quantities, (0..each).collect::<Vec<u32>>());
    }
}

#[test]
fn interleaved_catalog_reads_agree() {
    let shared = Arc::new(Mutex::new(AppState::new()));
    let tasks_state = Arc::clone(&shared);
    runtime().block_on(async move {
        let mut tasks = Vec::new();
        for reader in 0..8u32 {
            let shared = Arc::clone(&tasks_state);
            tasks.push(tokio::spawn(async move {
                for n in 0..50u32 {
                    if reader % 2 == 0 {
                        create_order(&mut shared.lock().unwrap(), Some(order(reader, n, 2.5)));
                    }
                    let answer = get_products(&shared.lock().unwrap());
                    assert_eq!(answer, (Status::Success, get_initial_products()));
                    tokio::task::yield_now().await;
                }
            }));
        }
        for task in tasks {
            task.await.unwrap();
        }
    });
    assert_eq!(shared.lock().unwrap().orders.len(), 200);
}
