//! The service's endpoints, as plain functions from request values to a
//! status code and a JSON body. The wire framework that routes paths and
//! parses bodies lives with the binary; these functions are the part of the
//! dispatcher worth stating: how handler outcomes map to statuses and how
//! response values are serialized.

use vstd::prelude::*;
use vstd::string::StrSliceExecFns;
use vstd::string::StringExecFns;

use crate::database_connection::DatabaseConnector;
use crate::rest_bodies;
use crate::rest_responses;
use crate::rest_responses::{menu_item_views, order_views, OrderView};
use crate::server_errors::ServerError;
use crate::server_functions;
use crate::store::{delete_effect, joined_row, menu_listing, table_listing, Store, StoreState};
use crate::server_functions::place_ok;
use crate::strings::{spec_dec, u32_to_string};

verus! {

/// Whether a name can stand inside a JSON string without escaping.
pub open spec fn name_ok(s: Seq<char>) -> bool {
    forall|i: int| 0 <= i < s.len() ==> s[i] != '"' && s[i] != '\\'
}

/// Checks [`name_ok`] of a string.
fn name_is_clean(s: &str) -> (r: bool)
    ensures
        r == name_ok(s@),
{
    let n = s.unicode_len();
    let mut i: usize = 0;
    while i < n
        invariant
            n == s@.len(),
            i <= n,
            forall|k: int| 0 <= k < i ==> s@[k] != '"' && s@[k] != '\\',
        decreases n - i,
    {
        let c = s.get_char(i);
        if c == '"' || c == '\\' {
            return false;
        }
        i += 1;
    }
    true
}

/// The serialized form of one placed order.
pub open spec fn spec_resp_order(o: OrderView) -> Seq<char> {
    "{\"id\":"@ + spec_dec(o.id as nat) + ",\"menu_item_id\":"@ + spec_dec(o.menu_item_id as nat)
        + ",\"menu_item_name\":\""@ + o.menu_item_name + "\",\"minutes_to_cook\":"@ + spec_dec(
        o.minutes_to_cook as nat,
    ) + "}"@
}

/// The serialized form of a list of placed orders, comma separated.
pub open spec fn spec_resp_order_list(list: Seq<OrderView>) -> Seq<char>
    decreases list.len(),
{
    if list.len() == 0 {
        Seq::empty()
    } else if list.len() == 1 {
        spec_resp_order(list[0])
    } else {
        spec_resp_order_list(list.drop_last()) + ","@ + spec_resp_order(list.last())
    }
}

/// The serialized form of an order-list response document.
pub open spec fn spec_resp_orders_doc(list: Seq<OrderView>) -> Seq<char> {
    "{\"orders\":["@ + spec_resp_order_list(list) + "]}"@
}

/// Serializes one placed order, unless its name would need escaping.
fn order_json(o: &rest_responses::Order) -> (r: Option<String>)
    ensures
        r matches Some(s) ==> s@ == spec_resp_order(o@) && name_ok(o.menu_item_name@),
        r matches None ==> !name_ok(o.menu_item_name@),
{
    if !name_is_clean(o.menu_item_name.as_str()) {
        return None;
    }
    let mut s = "{\"id\":".to_owned();
    s.append(u32_to_string(o.id).as_str());
    s.append(",\"menu_item_id\":");
    s.append(u32_to_string(o.menu_item_id).as_str());
    s.append(",\"menu_item_name\":\"");
    s.append(o.menu_item_name.as_str());
    s.append("\",\"minutes_to_cook\":");
    s.append(u32_to_string(o.minutes_to_cook).as_str());
    s.append("}");
    proof {
        assert(s@ =~= spec_resp_order(o@));
    }
    Some(s)
}

/// Serializes an order-list response document, unless some name would need
/// escaping.
pub fn orders_json(orders: &rest_responses::Orders) -> (r: Option<String>)
    ensures
        r matches Some(s) ==> s@ == spec_resp_orders_doc(order_views(orders.orders@)),
        r matches None ==> exists|i: int|
            0 <= i < orders.orders@.len() && !name_ok((#[trigger] orders.orders@[i]).menu_item_name@),
{
    let ghost views = order_views(orders.orders@);
    let mut s = "{\"orders\":[".to_owned();
    let ghost head = s@;
    let mut idx: usize = 0;
    proof {
        assert(views.take(0) =~= Seq::<OrderView>::empty());
    }
    while idx < orders.orders.len()
        invariant
            views == order_views(orders.orders@),
            views.len() == orders.orders@.len(),
            idx <= orders.orders@.len(),
            s@ == head + spec_resp_order_list(views.take(idx as int)),
        decreases orders.orders@.len() - idx,
    {
        if idx > 0 {
            s.append(",");
        }
        let piece = match order_json(&orders.orders[idx]) {
            Some(p) => p,
            None => {
                return None;
            },
        };
        s.append(piece.as_str());
        proof {
            let k = idx as int;
            assert(views.take(k + 1).drop_last() =~= views.take(k));
            assert(views.take(k + 1).last() == views[k]);
            if idx > 0 {
                assert(s@ =~= head + (spec_resp_order_list(views.take(k)) + ","@ + spec_resp_order(
                    views[k],
                )));
            } else {
                assert(s@ =~= head + spec_resp_order(views[0]));
            }
        }
        idx += 1;
    }
    s.append("]}");
    proof {
        assert(views.take(views.len() as int) =~= views);
        assert(s@ =~= spec_resp_orders_doc(views));
    }
    Some(s)
}

/// The serialized form of one catalog entry.
pub open spec fn spec_resp_menu_item(id: u32, name: Seq<char>) -> Seq<char> {
    "{\"id\":"@ + spec_dec(id as nat) + ",\"name\":\""@ + name + "\"}"@
}

/// The serialized form of a list of catalog entries, comma separated.
pub open spec fn spec_resp_menu_list(list: Seq<rest_responses::MenuItemView>) -> Seq<char>
    decreases list.len(),
{
    if list.len() == 0 {
        Seq::empty()
    } else if list.len() == 1 {
        spec_resp_menu_item(list[0].id, list[0].name)
    } else {
        spec_resp_menu_list(list.drop_last()) + ","@ + spec_resp_menu_item(
            list.last().id,
            list.last().name,
        )
    }
}

/// The serialized form of a catalog response document.
pub open spec fn spec_resp_menu_doc(list: Seq<rest_responses::MenuItemView>) -> Seq<char> {
    "{\"menu_items\":["@ + spec_resp_menu_list(list) + "]}"@
}

/// Serializes a catalog response document, unless some name would need
/// escaping.
pub fn menu_items_json(items: &rest_responses::MenuItems) -> (r: Option<String>)
    ensures
        r matches Some(s) ==> s@ == spec_resp_menu_doc(
            rest_responses::menu_item_views(items.menu_items@),
        ),
        r matches None ==> exists|i: int|
            0 <= i < items.menu_items@.len() && !name_ok(
                (#[trigger] items.menu_items@[i]).name@,
            ),
{
    let ghost views = rest_responses::menu_item_views(items.menu_items@);
    let mut s = "{\"menu_items\":[".to_owned();
    let ghost head = s@;
    let mut idx: usize = 0;
    proof {
        assert(views.take(0) =~= Seq::<rest_responses::MenuItemView>::empty());
    }
    while idx < items.menu_items.len()
        invariant
            views == rest_responses::menu_item_views(items.menu_items@),
            views.len() == items.menu_items@.len(),
            idx <= items.menu_items@.len(),
            s@ == head + spec_resp_menu_list(views.take(idx as int)),
        decreases items.menu_items@.len() - idx,
    {
        if idx > 0 {
            s.append(",");
        }
        if !name_is_clean(items.menu_items[idx].name.as_str()) {
            return None;
        }
        s.append("{\"id\":");
        s.append(u32_to_string(items.menu_items[idx].id).as_str());
        s.append(",\"name\":\"");
        s.append(items.menu_items[idx].name.as_str());
        s.append("\"}");
        proof {
            let k = idx as int;
            assert(views.take(k + 1).drop_last() =~= views.take(k));
            assert(views.take(k + 1).last() == views[k]);
            if idx > 0 {
                assert(s@ =~= head + (spec_resp_menu_list(views.take(k)) + ","@
                    + spec_resp_menu_item(views[k].id, views[k].name)));
            } else {
                assert(s@ =~= head + spec_resp_menu_item(views[0].id, views[0].name));
            }
        }
        idx += 1;
    }
    s.append("]}");
    proof {
        assert(views.take(views.len() as int) =~= views);
        assert(s@ =~= spec_resp_menu_doc(views));
    }
    Some(s)
}

/// Lists a table's orders against an open store: 200 with exactly the
/// serialized listing of the table, or 500 with the error body.
pub fn table_orders_response(store: &Store, table_number: u32) -> (r: (u16, String))
    requires
        !store@.in_tx,
    ensures
        r.0 == 200 || r.0 == 500,
        r.0 == 200 ==> exists|os: Seq<rest_responses::Order>|
            #[trigger] table_listing(store@.committed, table_number, os) && r.1@
                == spec_resp_orders_doc(order_views(os)),
        r.0 == 500 ==> r.1@ == "{ \"error\": \"Server error. Failed to get data.\" }"@,
{
    match server_functions::list_orders(store, table_number) {
        Ok(items) => match orders_json(&items) {
            Some(body) => {
                proof {
                    assert(table_listing(store@.committed, table_number, items.orders@));
                }
                (200, body)
            },
            None => (500, "{ \"error\": \"Server error. Failed to get data.\" }".to_owned()),
        },
        Err(_) => (500, "{ \"error\": \"Server error. Failed to get data.\" }".to_owned()),
    }
}

/// Lists a table's orders: 200 with the serialized orders, or 500.
pub fn get_table_orders<C: DatabaseConnector>(table_number: u32, database_connector: &C) -> (r: (
    u16,
    String,
))
    ensures
        r.0 == 200 || r.0 == 500,
        r.0 == 200 ==> exists|s: StoreState, os: Seq<rest_responses::Order>|
            #[trigger] table_listing(s, table_number, os) && r.1@ == spec_resp_orders_doc(
                order_views(os),
            ),
        r.0 == 500 ==> r.1@ == "{ \"error\": \"Server error. Failed to get data.\" }"@,
{
    let store = match database_connector.open() {
        Ok(s) => s,
        Err(_) => {
            return (500, "{ \"error\": \"Server error. Failed to get data.\" }".to_owned());
        },
    };
    table_orders_response(&store, table_number)
}

/// Places a batch against an open store, mapping each handler outcome to
/// its wire status: a committed batch to 200 with exactly the created rows
/// serialized, a consumed key to 409, an unknown item to 422, everything
/// else to 500, each with its fixed body.
pub fn place_order_response(
    store: &mut Store,
    table_id: u32,
    orders_data: rest_bodies::Orders,
) -> (r: (u16, String))
    requires
        !old(store)@.in_tx,
        old(store)@.pending == old(store)@.committed,
    ensures
        !final(store)@.in_tx,
        final(store)@.pending == final(store)@.committed,
        r.0 == 200 || r.0 == 409 || r.0 == 422 || r.0 == 500,
        r.0 == 200 ==> exists|os: Seq<rest_responses::Order>|
            #[trigger] place_ok(
                old(store)@.committed,
                final(store)@.committed,
                table_id,
                rest_bodies::key_of(&orders_data),
                rest_bodies::item_ids_of(&orders_data),
                order_views(os),
            ) && r.1@ == spec_resp_orders_doc(order_views(os)),
        r.0 == 409 ==> (rest_bodies::key_of(&orders_data) matches Some(k)
            && old(store)@.committed.keys.contains(k)) && final(store)@.committed == old(
            store,
        )@.committed && r.1@ == "{ \"error\": \"This order has already been added.\" }"@,
        r.0 == 422 ==> (exists|i: int|
            0 <= i < rest_bodies::item_ids_of(&orders_data).len()
                && !old(store)@.committed.menu.contains_key(
                #[trigger] rest_bodies::item_ids_of(&orders_data)[i],
            )) && final(store)@.committed == old(store)@.committed && r.1@
            == "{ \"error\": \"The provided menu_item_id does not exist.\" }"@,
        r.0 == 500 ==> r.1@ == "{ \"error\": \"Server error. Failed to add data.\" }"@ && (
        final(store)@.committed == old(store)@.committed || exists|os: Seq<rest_responses::Order>|
            #[trigger] place_ok(
                old(store)@.committed,
                final(store)@.committed,
                table_id,
                rest_bodies::key_of(&orders_data),
                rest_bodies::item_ids_of(&orders_data),
                order_views(os),
            )),
        (rest_bodies::key_of(&orders_data) matches Some(k)
            && old(store)@.committed.keys.contains(k)) ==> r.0 == 409 || r.0 == 500,
        (exists|i: int|
            0 <= i < rest_bodies::item_ids_of(&orders_data).len()
                && !old(store)@.committed.menu.contains_key(
                #[trigger] rest_bodies::item_ids_of(&orders_data)[i],
            )) ==> r.0 != 200,
{
    match server_functions::place_orders(store, table_id, &orders_data) {
        Ok(items) => match orders_json(&items) {
            Some(body) => {
                proof {
                    assert(place_ok(
                        old(store)@.committed,
                        store@.committed,
                        table_id,
                        rest_bodies::key_of(&orders_data),
                        rest_bodies::item_ids_of(&orders_data),
                        order_views(items.orders@),
                    ));
                }
                (200, body)
            },
            None => {
                proof {
                    assert(place_ok(
                        old(store)@.committed,
                        store@.committed,
                        table_id,
                        rest_bodies::key_of(&orders_data),
                        rest_bodies::item_ids_of(&orders_data),
                        order_views(items.orders@),
                    ));
                }
                (500, "{ \"error\": \"Server error. Failed to add data.\" }".to_owned())
            },
        },
        Err(e) => match e {
            ServerError::Idempotency => (
                409,
                "{ \"error\": \"This order has already been added.\" }".to_owned(),
            ),
            ServerError::DataNotFound => (
                422,
                "{ \"error\": \"The provided menu_item_id does not exist.\" }".to_owned(),
            ),
            _ => (500, "{ \"error\": \"Server error. Failed to add data.\" }".to_owned()),
        },
    }
}

/// Places a batch: 200 with the created orders, 409 on a duplicate key, 422
/// on an unknown menu item, or 500.
pub fn post_table_order<C: DatabaseConnector>(
    table_id: u32,
    orders_data: rest_bodies::Orders,
    database_connector: &C,
) -> (r: (u16, String))
    ensures
        r.0 == 200 || r.0 == 409 || r.0 == 422 || r.0 == 500,
        r.0 == 200 ==> exists|pre: StoreState, post: StoreState, os: Seq<rest_responses::Order>|
            #[trigger] place_ok(
                pre,
                post,
                table_id,
                rest_bodies::key_of(&orders_data),
                rest_bodies::item_ids_of(&orders_data),
                order_views(os),
            ) && r.1@ == spec_resp_orders_doc(order_views(os)),
        r.0 == 409 ==> rest_bodies::key_of(&orders_data) is Some && r.1@
            == "{ \"error\": \"This order has already been added.\" }"@,
        r.0 == 422 ==> r.1@ == "{ \"error\": \"The provided menu_item_id does not exist.\" }"@,
        r.0 == 500 ==> r.1@ == "{ \"error\": \"Server error. Failed to add data.\" }"@,
{
    let mut store = match database_connector.open() {
        Ok(s) => s,
        Err(_) => {
            return (500, "{ \"error\": \"Server error. Failed to add data.\" }".to_owned());
        },
    };
    place_order_response(&mut store, table_id, orders_data)
}

/// Fetches one order against an open store: 200 with exactly that order
/// serialized, 404 when it does not exist under this table, or 500, each
/// with its fixed body.
pub fn table_order_response(store: &Store, table_number: u32, order_id: u32) -> (r: (u16, String))
    requires
        !store@.in_tx,
    ensures
        r.0 == 200 || r.0 == 404 || r.0 == 500,
        r.0 == 200 ==> exists|o: rest_responses::Order|
            o.id == order_id && #[trigger] joined_row(store@.committed, table_number, o) && r.1@
                == spec_resp_order(o@),
        r.0 == 404 ==> !(store@.committed.orders.contains_key(order_id)
            && store@.committed.orders[order_id].table_number == table_number
            && store@.committed.menu.contains_key(store@.committed.orders[order_id].menu_item_id))
            && r.1@ == "{ \"error\": \"Provided order does not exist for provided table.\" }"@,
        r.0 == 500 ==> r.1@ == "{ \"error\": \"Server error. Failed to get data.\" }"@,
{
    match server_functions::lookup_order(store, table_number, order_id) {
        Ok(item) => match order_json(&item) {
            Some(body) => {
                proof {
                    assert(joined_row(store@.committed, table_number, item));
                }
                (200, body)
            },
            None => (500, "{ \"error\": \"Server error. Failed to get data.\" }".to_owned()),
        },
        Err(e) => match e {
            ServerError::DataNotFound => (
                404,
                "{ \"error\": \"Provided order does not exist for provided table.\" }".to_owned(),
            ),
            _ => (500, "{ \"error\": \"Server error. Failed to get data.\" }".to_owned()),
        },
    }
}

/// Fetches one order of a table: 200 with the order, 404 when it does not
/// exist under that table, or 500.
pub fn get_table_order<C: DatabaseConnector>(
    table_number: u32,
    order_id: u32,
    database_connector: &C,
) -> (r: (u16, String))
    ensures
        r.0 == 200 || r.0 == 404 || r.0 == 500,
        r.0 == 200 ==> exists|s: StoreState, o: rest_responses::Order|
            o.id == order_id && #[trigger] joined_row(s, table_number, o) && r.1@
                == spec_resp_order(o@),
        r.0 == 404 ==> r.1@
            == "{ \"error\": \"Provided order does not exist for provided table.\" }"@,
        r.0 == 500 ==> r.1@ == "{ \"error\": \"Server error. Failed to get data.\" }"@,
{
    let store = match database_connector.open() {
        Ok(s) => s,
        Err(_) => {
            return (500, "{ \"error\": \"Server error. Failed to get data.\" }".to_owned());
        },
    };
    table_order_response(&store, table_number, order_id)
}

/// Cancels one order against an open store: 204 with no body whether or not
/// the order was there, or 500 with the error body; on 204 the committed
/// state is exactly the old one less the order, on 500 it is untouched.
pub fn delete_order_response(store: &mut Store, table_number: u32, order_id: u32) -> (r: (
    u16,
    String,
))
    requires
        !old(store)@.in_tx,
        old(store)@.pending == old(store)@.committed,
    ensures
        !final(store)@.in_tx,
        final(store)@.pending == final(store)@.committed,
        r.0 == 204 || r.0 == 500,
        r.0 == 204 ==> final(store)@.committed == delete_effect(
            old(store)@.committed,
            table_number,
            order_id,
        ) && r.1@ == Seq::<char>::empty(),
        r.0 == 500 ==> final(store)@.committed == old(store)@.committed && r.1@
            == "{ \"error\": \"Server error. Failed to delete data.\" }"@,
{
    match server_functions::cancel_order(store, table_number, order_id) {
        Ok(_) => (204, String::new()),
        Err(_) => (500, "{ \"error\": \"Server error. Failed to delete data.\" }".to_owned()),
    }
}

/// Cancels one order of a table: 204 with no body (absent or present
/// alike), or 500.
pub fn delete_table_order<C: DatabaseConnector>(
    table_number: u32,
    order_id: u32,
    database_connector: &C,
) -> (r: (u16, String))
    ensures
        r.0 == 204 || r.0 == 500,
        r.0 == 204 ==> r.1@ == Seq::<char>::empty(),
        r.0 == 500 ==> r.1@ == "{ \"error\": \"Server error. Failed to delete data.\" }"@,
{
    let mut store = match database_connector.open() {
        Ok(s) => s,
        Err(_) => {
            return (500, "{ \"error\": \"Server error. Failed to delete data.\" }".to_owned());
        },
    };
    delete_order_response(&mut store, table_number, order_id)
}

/// Lists the catalog against an open store: 200 with exactly the serialized
/// catalog, or 500 with the error body.
pub fn menu_items_response(store: &Store) -> (r: (u16, String))
    requires
        !store@.in_tx,
    ensures
        r.0 == 200 || r.0 == 500,
        r.0 == 200 ==> exists|items: Seq<rest_responses::MenuItem>|
            #[trigger] menu_listing(store@.committed.menu, items) && r.1@ == spec_resp_menu_doc(
                menu_item_views(items),
            ),
        r.0 == 500 ==> r.1@ == "{ \"error\": \"Server error. Failed to get data.\" }"@,
{
    match server_functions::get_catalog(store) {
        Ok(items) => match menu_items_json(&items) {
            Some(body) => {
                proof {
                    assert(menu_listing(store@.committed.menu, items.menu_items@));
                }
                (200, body)
            },
            None => (500, "{ \"error\": \"Server error. Failed to get data.\" }".to_owned()),
        },
        Err(_) => (500, "{ \"error\": \"Server error. Failed to get data.\" }".to_owned()),
    }
}

/// Lists the catalog: 200 with the serialized catalog, or 500.
pub fn get_menu_items<C: DatabaseConnector>(database_connector: &C) -> (r: (u16, String))
    ensures
        r.0 == 200 || r.0 == 500,
        r.0 == 200 ==> exists|menu: Map<u32, Seq<char>>, items: Seq<rest_responses::MenuItem>|
            #[trigger] menu_listing(menu, items) && r.1@ == spec_resp_menu_doc(
                menu_item_views(items),
            ),
        r.0 == 500 ==> r.1@ == "{ \"error\": \"Server error. Failed to get data.\" }"@,
{
    let store = match database_connector.open() {
        Ok(s) => s,
        Err(_) => {
            return (500, "{ \"error\": \"Server error. Failed to get data.\" }".to_owned());
        },
    };
    menu_items_response(&store)
}

/// The body of a malformed-request response.
pub fn internal_error() -> (r: &'static str)
    ensures
        r@ == "{ \"error\": \"Request format could not be understood\" }"@,
{
    "{ \"error\": \"Request format could not be understood\" }"
}

/// The body of a missing-resource response.
pub fn not_found() -> (r: &'static str)
    ensures
        r@ == "{ \"error\": \"Resource could not be found\" }"@,
{
    "{ \"error\": \"Resource could not be found\" }"
}

/// The body of an unreadable-entity response.
pub fn unprocessable_entity() -> (r: &'static str)
    ensures
        r@ == "{ \"error\": \"Bad format\" }"@,
{
    "{ \"error\": \"Bad format\" }"
}

/// The body of any other failure response, carrying the status code.
pub fn default(status: u16) -> (r: String)
    ensures
        r@ == "{ \"error\": \""@ + spec_dec(status as nat) + "\" }"@,
{
    let mut s = "{ \"error\": \"".to_owned();
    s.append(u32_to_string(status as u32).as_str());
    s.append("\" }");
    proof {
        assert(s@ =~= "{ \"error\": \""@ + spec_dec(status as nat) + "\" }"@);
    }
    s
}

} // verus!
