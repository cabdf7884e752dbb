//! The interactive console's client stub.
//!
//! The console front end was written against this placeholder client, which
//! answers every call with fixed sample data instead of reaching a server.
//! The contracts state exactly that fixed behaviour, so the console's
//! listing helpers below it are verified against what it really returns.

use vstd::prelude::*;

verus! {

/// One order as the console shows it.
pub struct Order {
    pub id: String,
    pub menu_item_id: String,
    pub minutes_to_cook: u8,
}

/// One catalog entry as the console shows it.
pub struct MenuItem {
    pub id: String,
    pub name: String,
}

/// Always reports an empty table.
pub fn get_all_orders(table_id: String) -> (r: Result<Vec<Order>, String>)
    ensures
        r matches Ok(v) && v@.len() == 0,
{
    Ok(Vec::new())
}

/// Always reports the same sample order.
pub fn get_order(table_id: String, order_id: String) -> (r: Result<Order, String>)
    ensures
        r matches Ok(o) && o.id@ == "test"@ && o.menu_item_id@ == "test"@ && o.minutes_to_cook
            == 1,
{
    Ok(Order { id: "test".to_owned(), menu_item_id: "test".to_owned(), minutes_to_cook: 1 })
}

/// Always reports the same two created order ids.
pub fn add_orders(table_id: String, menu_item_ids: Vec<String>) -> (r: Result<Vec<String>, String>)
    ensures
        r matches Ok(v) && v@.len() == 2 && v@[0]@ == "1"@ && v@[1]@ == "2"@,
{
    Ok(vec!["1".to_owned(), "2".to_owned()])
}

/// Always succeeds.
pub fn delete_order(table_id: String, order_id: String) -> (r: Result<(), String>)
    ensures
        r matches Ok(_),
{
    Ok(())
}

/// Always reports the same two-entry catalog.
pub fn get_menu_items() -> (r: Result<Vec<MenuItem>, String>)
    ensures
        r matches Ok(v) && v@.len() == 2 && v@[0].id@ == "1"@ && v@[0].name@ == "Burger"@
            && v@[1].id@ == "2"@ && v@[1].name@ == "Salad"@,
{
    Ok(
        vec![
            MenuItem { id: "1".to_owned(), name: "Burger".to_owned() },
            MenuItem { id: "2".to_owned(), name: "Salad".to_owned() },
        ],
    )
}

/// The console's list-a-whole-table call.
pub fn list_orders_multiple(table_id: String) -> (r: Result<Vec<Order>, String>)
    ensures
        r matches Ok(v) && v@.len() == 0,
{
    get_all_orders(table_id)
}

/// The console's list-one-order call: the single order as a one-element
/// list.
pub fn list_orders_single(table_id: String, order_id: String) -> (r: Result<Vec<Order>, String>)
    ensures
        r matches Ok(v) && v@.len() == 1,
{
    match get_order(table_id, order_id) {
        Ok(order) => Ok(vec![order]),
        Err(err) => Err(err),
    }
}

} // verus!
