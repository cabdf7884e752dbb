//! The endpoint functions' status mapping, driven through a file-backed
//! connector so consecutive calls see the same database.

use table_orders::database_connection::DefaultDatabaseConnector;
use table_orders::endpoints;
use table_orders::rest_bodies;
use table_orders::server_functions::setup_database;

fn temp_connector() -> DefaultDatabaseConnector {
    DefaultDatabaseConnector {
        path: format!("/tmp/table_orders_test_{}.db", uuid::Uuid::new_v4()),
    }
}

fn batch(key: &str, items: &[u32]) -> rest_bodies::Orders {
    rest_bodies::Orders {
        idempotency_key: Some(key.to_string()),
        orders: items
            .iter()
            .map(|i| rest_bodies::Order { menu_item_id: *i })
            .collect(),
    }
}

#[test]
fn orders_post() {
    let connector = temp_connector();
    setup_database(&connector).unwrap();
    let (status, body) = endpoints::post_table_order(1, batch("key1", &[1, 2]), &connector);
    assert_eq!(status, 200);
    assert!(body.contains("\"menu_item_id\":1"));
    assert!(body.contains("\"menu_item_id\":2"));
}

#[test]
fn orders_post_error_409() {
    let connector = temp_connector();
    setup_database(&connector).unwrap();
    let (first, _) = endpoints::post_table_order(1, batch("key", &[1]), &connector);
    assert_eq!(first, 200);
    let (second, body) = endpoints::post_table_order(1, batch("key", &[2]), &connector);
    assert_eq!(second, 409);
    assert!(body.contains("error"));
}

#[test]
fn orders_post_error_422() {
    let connector = temp_connector();
    setup_database(&connector).unwrap();
    let (status, body) = endpoints::post_table_order(1, batch("key", &[1, 99]), &connector);
    assert_eq!(status, 422);
    assert!(body.contains("error"));
}

#[test]
fn orders_post_error_500() {
    // no setup: the store has no tables, so the transaction fails
    let connector = temp_connector();
    let (status, body) = endpoints::post_table_order(1, batch("key", &[1]), &connector);
    assert_eq!(status, 500);
    assert!(body.contains("error"));
}

#[test]
fn orders_get_single_different_table_error_404() {
    let connector = temp_connector();
    setup_database(&connector).unwrap();
    let (status, body) = endpoints::post_table_order(1, batch("key1", &[1]), &connector);
    assert_eq!(status, 200);
    let id = created_id(&body);
    let (get_status, get_body) = endpoints::get_table_order(2, id, &connector);
    assert_eq!(get_status, 404);
    assert!(get_body.contains("error"));
}

#[test]
fn orders_delete() {
    let connector = temp_connector();
    setup_database(&connector).unwrap();
    let (status, body) = endpoints::post_table_order(1, batch("key1", &[1]), &connector);
    assert_eq!(status, 200);
    let id = created_id(&body);
    let (delete_status, _) = endpoints::delete_table_order(1, id, &connector);
    assert_eq!(delete_status, 204);
    let (get_status, _) = endpoints::get_table_order(1, id, &connector);
    assert_eq!(get_status, 404);
}

#[test]
fn orders_get_multiple_endpoint() {
    let connector = temp_connector();
    setup_database(&connector).unwrap();
    let (status, _) = endpoints::post_table_order(1, batch("key1", &[1, 2]), &connector);
    assert_eq!(status, 200);
    let (list_status, list_body) = endpoints::get_table_orders(1, &connector);
    assert_eq!(list_status, 200);
    assert!(list_body.contains("\"menu_item_id\":1"));
    assert!(list_body.contains("\"menu_item_id\":2"));
}

#[test]
fn menu_items_get_has_default_data() {
    let connector = temp_connector();
    setup_database(&connector).unwrap();
    let (status, body) = endpoints::get_menu_items(&connector);
    assert_eq!(status, 200);
    for name in ["Hamburger", "Salad", "Sushi", "Ice Cream", "Soda"] {
        assert!(body.contains(name), "missing menu item {}", name);
    }
}

#[test]
fn menu_items_error_500() {
    let connector = temp_connector();
    let (status, body) = endpoints::get_menu_items(&connector);
    assert_eq!(status, 500);
    assert!(body.contains("error"));
}

#[test]
fn orders_get_single() {
    let connector = temp_connector();
    setup_database(&connector).unwrap();
    let (status, body) = endpoints::post_table_order(1, batch("key1", &[1]), &connector);
    assert_eq!(status, 200);
    let id = created_id(&body);
    let (get_status, get_body) = endpoints::get_table_order(1, id, &connector);
    assert_eq!(get_status, 200);
    assert!(get_body.contains("\"menu_item_id\":1"));
    assert!(get_body.contains("Hamburger"));
}

#[test]
fn orders_get_single_error_404() {
    let connector = temp_connector();
    setup_database(&connector).unwrap();
    let (status, body) = endpoints::get_table_order(1, 1, &connector);
    assert_eq!(status, 404);
    assert!(body.contains("error"));
}

#[test]
fn orders_get_single_error_500() {
    let connector = temp_connector();
    let (status, body) = endpoints::get_table_order(1, 1, &connector);
    assert_eq!(status, 500);
    assert!(body.contains("error"));
}

#[test]
fn orders_get_multiple_error_500() {
    let connector = temp_connector();
    let (status, body) = endpoints::get_table_orders(1, &connector);
    assert_eq!(status, 500);
    assert!(body.contains("error"));
}

#[test]
fn orders_delete_error_500() {
    let connector = temp_connector();
    let (status, body) = endpoints::delete_table_order(1, 1, &connector);
    assert_eq!(status, 500);
    assert!(body.contains("error"));
}

#[test]
fn catcher_bodies() {
    assert_eq!(
        endpoints::internal_error(),
        "{ \"error\": \"Request format could not be understood\" }"
    );
    assert_eq!(
        endpoints::not_found(),
        "{ \"error\": \"Resource could not be found\" }"
    );
    assert_eq!(endpoints::unprocessable_entity(), "{ \"error\": \"Bad format\" }");
    assert_eq!(endpoints::default(418), "{ \"error\": \"418\" }");
}

/// The id of the first order in a serialized order-list body.
fn created_id(body: &str) -> u32 {
    let marker = "\"id\":";
    let at = body.find(marker).unwrap() + marker.len();
    let digits: String = body[at..].chars().take_while(|c| c.is_ascii_digit()).collect();
    digits.parse().unwrap()
}
