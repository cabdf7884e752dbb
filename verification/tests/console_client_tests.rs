//! The console's stub client answers with its fixed sample data.

use table_orders::client;

#[test]
fn stub_client_fixed_data() {
    assert_eq!(client::get_all_orders("1".to_string()).unwrap().len(), 0);
    let order = client::get_order("1".to_string(), "2".to_string()).unwrap();
    assert_eq!(order.id, "test");
    assert_eq!(order.menu_item_id, "test");
    assert_eq!(order.minutes_to_cook, 1);
    let ids = client::add_orders("1".to_string(), vec!["1".to_string()]).unwrap();
    assert_eq!(ids, vec!["1".to_string(), "2".to_string()]);
    assert!(client::delete_order("1".to_string(), "2".to_string()).is_ok());
    let menu = client::get_menu_items().unwrap();
    assert_eq!(menu.len(), 2);
    assert_eq!(menu[0].name, "Burger");
    assert_eq!(menu[1].name, "Salad");
}

#[test]
fn listing_helpers_shape() {
    assert_eq!(client::list_orders_multiple("1".to_string()).unwrap().len(), 0);
    let single = client::list_orders_single("1".to_string(), "2".to_string()).unwrap();
    assert_eq!(single.len(), 1);
    assert_eq!(single[0].minutes_to_cook, 1);
}
