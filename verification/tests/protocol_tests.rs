//! The placement protocol's guarantees, exercised on one in-memory store.

use table_orders::rest_bodies;
use table_orders::server_errors::ServerError;
use table_orders::server_functions::{
    cancel_order, get_catalog, initialize_store, list_orders, lookup_order, place_orders,
};
use table_orders::store::Store;

fn fresh_store() -> Store {
    let mut store = Store::open_in_memory().unwrap();
    initialize_store(&mut store).unwrap();
    store
}

fn batch(key: Option<&str>, items: &[u32]) -> rest_bodies::Orders {
    rest_bodies::Orders {
        idempotency_key: key.map(|k| k.to_string()),
        orders: items
            .iter()
            .map(|i| rest_bodies::Order { menu_item_id: *i })
            .collect(),
    }
}

#[test]
fn menu_seeded_with_default_items() {
    let mut store = fresh_store();
    let catalog = get_catalog(&store).unwrap();
    assert_eq!(catalog.menu_items.len(), 5);
    for name in ["Hamburger", "Salad", "Sushi", "Ice Cream", "Soda"] {
        assert!(catalog.menu_items.iter().any(|m| m.name == name));
    }
    // initializing again keeps the catalog as it is
    initialize_store(&mut store).unwrap();
    assert_eq!(get_catalog(&store).unwrap().menu_items.len(), 5);
}

#[test]
fn same_key_twice_rejected_with_no_new_rows() {
    let mut store = fresh_store();
    let first = place_orders(&mut store, 1, &batch(Some("key"), &[1, 2])).unwrap();
    assert_eq!(first.orders.len(), 2);
    let count_before = list_orders(&store, 1).unwrap().orders.len();
    let second = place_orders(&mut store, 1, &batch(Some("key"), &[1]));
    assert!(matches!(second, Err(ServerError::Idempotency)));
    assert_eq!(list_orders(&store, 1).unwrap().orders.len(), count_before);
}

#[test]
fn unknown_item_rejects_whole_batch() {
    let mut store = fresh_store();
    let result = place_orders(&mut store, 1, &batch(Some("key"), &[1, 99]));
    assert!(matches!(result, Err(ServerError::DataNotFound)));
    assert_eq!(list_orders(&store, 1).unwrap().orders.len(), 0);
    // the rolled-back batch did not consume the key either
    let retried = place_orders(&mut store, 1, &batch(Some("key"), &[1])).unwrap();
    assert_eq!(retried.orders.len(), 1);
}

#[test]
fn batch_without_key_accepted_every_time() {
    let mut store = fresh_store();
    assert_eq!(place_orders(&mut store, 1, &batch(None, &[3])).unwrap().orders.len(), 1);
    assert_eq!(place_orders(&mut store, 1, &batch(None, &[3])).unwrap().orders.len(), 1);
    assert_eq!(list_orders(&store, 1).unwrap().orders.len(), 2);
}

#[test]
fn cook_times_within_bounds() {
    let mut store = fresh_store();
    let placed = place_orders(&mut store, 4, &batch(Some("key"), &[1, 2, 3, 4, 5, 1, 2, 3]))
        .unwrap();
    assert_eq!(placed.orders.len(), 8);
    for order in &placed.orders {
        assert!(5 <= order.minutes_to_cook && order.minutes_to_cook < 15);
    }
    for order in &list_orders(&store, 4).unwrap().orders {
        assert!(5 <= order.minutes_to_cook && order.minutes_to_cook < 15);
    }
}

#[test]
fn lookup_scoped_to_table() {
    let mut store = fresh_store();
    let placed = place_orders(&mut store, 1, &batch(Some("key"), &[1])).unwrap();
    let id = placed.orders[0].id;
    assert!(matches!(
        lookup_order(&store, 2, id),
        Err(ServerError::DataNotFound)
    ));
    let found = lookup_order(&store, 1, id).unwrap();
    assert_eq!(found.id, id);
    assert_eq!(found.menu_item_id, 1);
    assert_eq!(found.menu_item_name, "Hamburger");
}

#[test]
fn delete_absent_same_as_present() {
    let mut store = fresh_store();
    let placed = place_orders(&mut store, 1, &batch(Some("key"), &[1])).unwrap();
    let id = placed.orders[0].id;
    let first = cancel_order(&mut store, 1, id);
    assert!(first.is_ok());
    assert_eq!(list_orders(&store, 1).unwrap().orders.len(), 0);
    let second = cancel_order(&mut store, 1, id);
    assert!(second.is_ok());
    assert_eq!(list_orders(&store, 1).unwrap().orders.len(), 0);
}

#[test]
fn place_list_delete_round_trip() {
    let mut store = fresh_store();
    let placed = place_orders(&mut store, 1, &batch(Some("key"), &[1, 2])).unwrap();
    assert_eq!(placed.orders.len(), 2);
    assert!(placed.orders.iter().any(|o| o.menu_item_id == 1));
    assert!(placed.orders.iter().any(|o| o.menu_item_id == 2));

    let listed = list_orders(&store, 1).unwrap().orders;
    assert_eq!(listed.len(), 2);
    for placed_order in &placed.orders {
        assert!(listed.iter().any(|o| o.id == placed_order.id
            && o.menu_item_id == placed_order.menu_item_id
            && o.minutes_to_cook == placed_order.minutes_to_cook));
    }

    let deleted_id = placed.orders[0].id;
    assert!(cancel_order(&mut store, 1, deleted_id).is_ok());
    assert!(matches!(
        lookup_order(&store, 1, deleted_id),
        Err(ServerError::DataNotFound)
    ));
    assert_eq!(list_orders(&store, 1).unwrap().orders.len(), 1);
}

#[test]
fn place_orders_storage_failure_reported() {
    // an uninitialized store has no tables, so the transaction fails and
    // nothing is classified as a protocol error
    let mut store = Store::open_in_memory().unwrap();
    let result = place_orders(&mut store, 1, &batch(Some("key"), &[1]));
    assert!(matches!(result, Err(ServerError::SqlError(_))));
}
