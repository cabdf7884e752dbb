//! The client request engine.
//!
//! Each function builds one request against the order service, sends it
//! through an injected [`WebConnection`], and classifies whatever comes
//! back. Since the transport promises nothing, the exact contracts live on
//! the classification functions (`handle_*_response`) and on the request
//! builders; the senders state what their results mean whatever arrived.
//!
//! `add_orders` is the retry engine: it tags the batch with one fresh
//! idempotency key, and on a transport timeout — and only then — asks the
//! caller's policy whether to resend the identical bytes, same key included.
//! The server's dedup ledger makes those resends collapse to at most one
//! accepted batch.

use vstd::prelude::*;
use vstd::string::StringExecFns;

use crate::json::{
    deep_seq, get_field, get_text_field, get_u32_field, obj_get, parse_json, spec_json_text,
    spec_json_u32, spec_parse_json, Json, JsonS,
};
use crate::rest_bodies;
use crate::rest_responses;
use crate::rest_responses::{menu_item_views, order_views, MenuItemView, OrderView};
use crate::strings::{spec_dec, u32_to_string};
use crate::web_connection::{WebConnection, WebResponse};

verus! {

/// Relies on `uuid::Uuid::new_v4` and its `Display` form: a fresh random
/// key of 36 hyphenated lowercase hex characters, so it never needs
/// escaping inside a JSON string.
#[verifier::external_body]
fn fresh_key() -> (r: String)
    ensures
        forall|i: int| 0 <= i < r@.len() ==> r@[i] != '"' && r@[i] != '\\',
{
    uuid::Uuid::new_v4().to_string()
}

/// The path of a table's order collection.
pub open spec fn spec_orders_url(host: Seq<char>, table_number: u32) -> Seq<char> {
    host + "/tables/"@ + spec_dec(table_number as nat) + "/orders"@
}

/// The path of one order of a table.
pub open spec fn spec_order_url(host: Seq<char>, table_number: u32, order_id: u32) -> Seq<char> {
    spec_orders_url(host, table_number) + "/"@ + spec_dec(order_id as nat)
}

fn orders_url(host: &str, table_number: u32) -> (r: String)
    ensures
        r@ == spec_orders_url(host@, table_number),
{
    let mut s = host.to_owned();
    s.append("/tables/");
    let t = u32_to_string(table_number);
    s.append(t.as_str());
    s.append("/orders");
    proof {
        assert(s@ =~= spec_orders_url(host@, table_number));
    }
    s
}

fn order_url(host: &str, table_number: u32, order_id: u32) -> (r: String)
    ensures
        r@ == spec_order_url(host@, table_number, order_id),
{
    let mut s = orders_url(host, table_number);
    s.append("/");
    let o = u32_to_string(order_id);
    s.append(o.as_str());
    proof {
        assert(s@ =~= spec_order_url(host@, table_number, order_id));
    }
    s
}

/// The serialized form of one requested order line.
pub open spec fn spec_item_json(menu_item_id: u32) -> Seq<char> {
    "{\"menu_item_id\":"@ + spec_dec(menu_item_id as nat) + "}"@
}

/// The serialized form of the requested order lines, comma separated.
pub open spec fn spec_items_json(items: Seq<u32>) -> Seq<char>
    decreases items.len(),
{
    if items.len() == 0 {
        Seq::empty()
    } else if items.len() == 1 {
        spec_item_json(items[0])
    } else {
        spec_items_json(items.drop_last()) + ","@ + spec_item_json(items.last())
    }
}

/// The serialized form of a whole batch request: the same key and items
/// always give the same bytes, so a retry resends the identical request.
pub open spec fn spec_orders_body(key: Option<Seq<char>>, items: Seq<u32>) -> Seq<char> {
    match key {
        Some(k) => "{\"idempotency_key\":\""@ + k + "\",\"orders\":["@ + spec_items_json(items)
            + "]}"@,
        None => "{\"orders\":["@ + spec_items_json(items) + "]}"@,
    }
}

/// Serializes a batch request.
pub fn orders_body_json(req: &rest_bodies::Orders) -> (r: String)
    ensures
        r@ == spec_orders_body(rest_bodies::key_of(req), rest_bodies::item_ids_of(req)),
{
    let ghost items = rest_bodies::item_ids_of(req);
    let mut s = match &req.idempotency_key {
        Some(k) => {
            let mut s = "{\"idempotency_key\":\"".to_owned();
            s.append(k.as_str());
            s.append("\",\"orders\":[");
            s
        },
        None => "{\"orders\":[".to_owned(),
    };
    let ghost head = s@;
    let mut idx: usize = 0;
    proof {
        assert(items.take(0) =~= Seq::<u32>::empty());
    }
    while idx < req.orders.len()
        invariant
            items == rest_bodies::item_ids_of(req),
            items.len() == req.orders@.len(),
            idx <= req.orders@.len(),
            s@ == head + spec_items_json(items.take(idx as int)),
        decreases req.orders@.len() - idx,
    {
        if idx > 0 {
            s.append(",");
        }
        s.append("{\"menu_item_id\":");
        let n = u32_to_string(req.orders[idx].menu_item_id);
        s.append(n.as_str());
        s.append("}");
        proof {
            let k = idx as int;
            assert(items.take(k + 1).drop_last() =~= items.take(k));
            assert(items.take(k + 1).last() == items[k]);
            if idx > 0 {
                assert(s@ =~= head + (spec_items_json(items.take(k)) + ","@ + spec_item_json(
                    items[k],
                )));
            } else {
                assert(spec_items_json(items.take(1)) == spec_item_json(items[0]));
                assert(s@ =~= head + spec_item_json(items[0]));
            }
        }
        idx += 1;
    }
    s.append("]}");
    proof {
        assert(items.take(items.len() as int) =~= items);
        assert(s@ =~= spec_orders_body(rest_bodies::key_of(req), items));
    }
    s
}

/// The order a JSON value describes: an object whose `id`, `menu_item_id`
/// and `minutes_to_cook` members are integers in `u32` range and whose
/// `menu_item_name` member is a string; other members are ignored.
pub open spec fn spec_order_of_json(j: JsonS) -> Option<OrderView> {
    match j {
        JsonS::Obj(fields) => {
            match (
                spec_json_u32(obj_get(fields, "id"@)),
                spec_json_u32(obj_get(fields, "menu_item_id"@)),
                spec_json_text(obj_get(fields, "menu_item_name"@)),
                spec_json_u32(obj_get(fields, "minutes_to_cook"@)),
            ) {
                (Some(id), Some(mid), Some(name), Some(minutes)) => Some(
                    OrderView {
                        id,
                        menu_item_id: mid,
                        menu_item_name: name,
                        minutes_to_cook: minutes,
                    },
                ),
                _ => None,
            }
        },
        _ => None,
    }
}

/// Reads one order out of a JSON value.
fn order_from_json(j: &Json) -> (r: Option<rest_responses::Order>)
    ensures
        r matches Some(o) ==> spec_order_of_json(j.deep()) == Some(o@),
        r matches None ==> spec_order_of_json(j.deep()) is None,
{
    match j {
        Json::Obj(fields) => {
            let id = get_u32_field(fields, "id");
            let menu_item_id = get_u32_field(fields, "menu_item_id");
            let menu_item_name = get_text_field(fields, "menu_item_name");
            let minutes_to_cook = get_u32_field(fields, "minutes_to_cook");
            match (id, menu_item_id, menu_item_name, minutes_to_cook) {
                (Some(id), Some(menu_item_id), Some(menu_item_name), Some(minutes_to_cook)) => Some(
                    rest_responses::Order { id, menu_item_id, menu_item_name, minutes_to_cook },
                ),
                _ => None,
            }
        },
        _ => None,
    }
}

/// Whether every element of a JSON array describes an order.
pub open spec fn all_orders_ok(elems: Seq<JsonS>) -> bool {
    forall|i: int| 0 <= i < elems.len() ==> spec_order_of_json(#[trigger] elems[i]) is Some
}

/// The orders a JSON array describes, in array order.
pub open spec fn spec_orders_seq(elems: Seq<JsonS>) -> Option<Seq<OrderView>> {
    if all_orders_ok(elems) {
        Some(Seq::new(elems.len(), |i: int| spec_order_of_json(elems[i])->0))
    } else {
        None
    }
}

/// The orders an order-list document describes: an object whose `orders`
/// member is an array of orders.
pub open spec fn spec_orders_doc(j: JsonS) -> Option<Seq<OrderView>> {
    match j {
        JsonS::Obj(fields) => match obj_get(fields, "orders"@) {
            Some(JsonS::Arr(elems)) => spec_orders_seq(elems),
            _ => None,
        },
        _ => None,
    }
}

/// What a 200 body must read as for an order-list request to succeed: a
/// well-formed document describing a list of orders.
pub open spec fn orders_success(t: Seq<char>) -> Option<Seq<OrderView>> {
    match spec_parse_json(t) {
        Some(js) => spec_orders_doc(js),
        None => None,
    }
}

/// Reads an order-list document.
fn orders_from_json(j: &Json) -> (r: Option<Vec<rest_responses::Order>>)
    ensures
        r matches Some(v) ==> spec_orders_doc(j.deep()) == Some(order_views(v@)),
        r matches None ==> spec_orders_doc(j.deep()) is None,
{
    match j {
        Json::Obj(fields) => match get_field(fields, "orders") {
            Some(Json::Arr(elems)) => {
                let ghost es = deep_seq(elems@);
                let mut out: Vec<rest_responses::Order> = Vec::new();
                let mut idx: usize = 0;
                while idx < elems.len()
                    invariant
                        es == deep_seq(elems@),
                        es.len() == elems@.len(),
                        idx <= elems@.len(),
                        out@.len() == idx as int,
                        spec_orders_doc(j.deep()) == spec_orders_seq(es),
                        forall|i: int|
                            0 <= i < idx ==> spec_order_of_json((#[trigger] elems@[i]).deep())
                                == Some(out@[i]@),
                    decreases elems@.len() - idx,
                {
                    match order_from_json(&elems[idx]) {
                        Some(o) => out.push(o),
                        None => {
                            proof {
                                assert(es[idx as int] == elems@[idx as int].deep());
                                assert(!all_orders_ok(es));
                            }
                            return None;
                        },
                    }
                    idx += 1;
                }
                proof {
                    assert forall|i: int|
                        0 <= i < es.len() implies spec_order_of_json(#[trigger] es[i]) is Some by {
                        assert(es[i] == elems@[i].deep());
                    }
                    assert(all_orders_ok(es));
                    assert forall|i: int| 0 <= i < es.len() implies Seq::new(
                        es.len(),
                        |k: int| spec_order_of_json(es[k])->0,
                    )[i] == order_views(out@)[i] by {
                        assert(es[i] == elems@[i].deep());
                        assert(spec_order_of_json(elems@[i].deep()) == Some(out@[i]@));
                    }
                    assert(Seq::new(es.len(), |k: int| spec_order_of_json(es[k])->0)
                        =~= order_views(out@));
                }
                Some(out)
            },
            _ => None,
        },
        _ => None,
    }
}

/// Classifies a response to an order-list request: status 200 with a
/// readable body that reads as an order-list document is the success, and
/// the only one; it returns exactly the orders the document describes.
pub fn handle_orders_response(response: WebResponse) -> (r: Result<
    Vec<rest_responses::Order>,
    String,
>)
    ensures
        response.status != 200 ==> (r matches Err(m) && m@ == spec_dec(response.status as nat)),
        r matches Ok(v) ==> response.status == 200 && (response.body matches Ok(t)
            && orders_success(t@) == Some(order_views(v@))),
        response.status == 200 && (response.body matches Ok(t) && orders_success(t@) is Some)
            ==> r is Ok,
{
    if response.status != 200 {
        return Err(u32_to_string(response.status as u32));
    }
    let text = match response.body {
        Ok(t) => t,
        Err(e) => {
            return Err(e);
        },
    };
    let parsed = match parse_json(text.as_str()) {
        Some(j) => j,
        None => {
            proof {
                assert(orders_success(text@) is None);
            }
            return Err("malformed response body".to_owned());
        },
    };
    match orders_from_json(&parsed) {
        Some(v) => {
            proof {
                assert(orders_success(text@) == Some(order_views(v@)));
            }
            Ok(v)
        },
        None => {
            proof {
                assert(orders_success(text@) is None);
            }
            Err("malformed response body".to_owned())
        },
    }
}

/// Fetches every order of a table.
pub fn get_all_orders<W: WebConnection>(web_connection: &W, host: String, table_number: u32) -> (r:
    Result<Vec<rest_responses::Order>, String>)
    ensures
        r matches Ok(v) ==> exists|t: Seq<char>|
            #[trigger] orders_success(t) == Some(order_views(v@)),
{
    match web_connection.get(orders_url(host.as_str(), table_number)) {
        Ok(response) => handle_orders_response(response),
        Err(e) => Err(e.text),
    }
}

/// What a 200 body must read as for a single-order request to succeed: a
/// well-formed document describing one order.
pub open spec fn order_success(t: Seq<char>) -> Option<OrderView> {
    match spec_parse_json(t) {
        Some(js) => spec_order_of_json(js),
        None => None,
    }
}

/// Classifies a response to a single-order request: status 200 with a
/// readable body that reads as one order is the success, and the only one;
/// it returns exactly the order the document describes.
pub fn handle_order_response(response: WebResponse) -> (r: Result<rest_responses::Order, String>)
    ensures
        response.status != 200 ==> (r matches Err(m) && m@ == spec_dec(response.status as nat)),
        r matches Ok(o) ==> response.status == 200 && (response.body matches Ok(t)
            && order_success(t@) == Some(o@)),
        response.status == 200 && (response.body matches Ok(t) && order_success(t@) is Some)
            ==> r is Ok,
{
    if response.status != 200 {
        return Err(u32_to_string(response.status as u32));
    }
    let text = match response.body {
        Ok(t) => t,
        Err(e) => {
            return Err(e);
        },
    };
    let parsed = match parse_json(text.as_str()) {
        Some(j) => j,
        None => {
            proof {
                assert(order_success(text@) is None);
            }
            return Err("malformed response body".to_owned());
        },
    };
    match order_from_json(&parsed) {
        Some(o) => {
            proof {
                assert(order_success(text@) == Some(o@));
            }
            Ok(o)
        },
        None => {
            proof {
                assert(order_success(text@) is None);
            }
            Err("malformed response body".to_owned())
        },
    }
}

/// Fetches one order of a table.
pub fn get_order<W: WebConnection>(
    web_connection: &W,
    host: String,
    table_number: u32,
    order_id: u32,
) -> (r: Result<rest_responses::Order, String>)
    ensures
        r matches Ok(o) ==> exists|t: Seq<char>| #[trigger] order_success(t) == Some(o@),
{
    match web_connection.get(order_url(host.as_str(), table_number, order_id)) {
        Ok(response) => handle_order_response(response),
        Err(e) => Err(e.text),
    }
}

/// Places a batch of orders, retrying timeouts under the caller's policy.
///
/// One fresh idempotency key is generated per call — never per item, never
/// per attempt — and the serialized request is built once, so every resend
/// carries the identical bytes. Only a transport timeout consults
/// `should_retry`; any other transport failure, and any completed response,
/// ends the loop at once. A non-200 status is a failure carrying the status.
pub fn add_orders<W: WebConnection, F: Fn() -> bool>(
    web_connection: &W,
    host: String,
    table_number: u32,
    menu_item_ids: Vec<u32>,
    should_retry: F,
) -> (r: Result<Vec<rest_responses::Order>, String>)
    requires
        should_retry.requires(()),
    ensures
        r matches Ok(v) ==> exists|t: Seq<char>|
            #[trigger] orders_success(t) == Some(order_views(v@)),
{
    let mut lines: Vec<rest_bodies::Order> = Vec::new();
    let mut idx: usize = 0;
    while idx < menu_item_ids.len()
        decreases menu_item_ids@.len() - idx,
    {
        lines.push(rest_bodies::Order { menu_item_id: menu_item_ids[idx] });
        idx += 1;
    }
    let orders = rest_bodies::Orders { idempotency_key: Some(fresh_key()), orders: lines };
    let body = orders_body_json(&orders);
    let url = orders_url(host.as_str(), table_number);
    // The policy alone decides how often a timeout is retried; the attempt
    // counter only makes termination provable and can never run out in
    // practice.
    let mut attempts: u64 = 0;
    loop
        invariant
            should_retry.requires(()),
            attempts <= u64::MAX - 1,
        decreases u64::MAX - attempts,
    {
        match web_connection.post(url.clone(), body.clone()) {
            Ok(response) => {
                return handle_orders_response(response);
            },
            Err(e) => {
                if !(e.is_timeout && should_retry() && attempts < u64::MAX - 1) {
                    return Err(e.text);
                }
            },
        }
        attempts += 1;
    }
}

/// Classifies a response to a delete request: status 204 is the only
/// success, and it carries no body.
pub fn handle_delete_response(response: WebResponse) -> (r: Result<(), String>)
    ensures
        r matches Ok(_) <==> response.status == 204,
        r matches Err(m) ==> m@ == spec_dec(response.status as nat),
{
    if response.status == 204 {
        Ok(())
    } else {
        Err(u32_to_string(response.status as u32))
    }
}

/// Cancels one order of a table.
pub fn delete_order<W: WebConnection>(
    web_connection: &W,
    host: String,
    table_number: u32,
    order_id: u32,
) -> (r: Result<(), String>)
{
    match web_connection.delete(order_url(host.as_str(), table_number, order_id)) {
        Ok(response) => handle_delete_response(response),
        Err(e) => Err(e.text),
    }
}

/// The catalog entry a JSON value describes.
pub open spec fn spec_menu_item_of_json(j: JsonS) -> Option<MenuItemView> {
    match j {
        JsonS::Obj(fields) => {
            match (
                spec_json_u32(obj_get(fields, "id"@)),
                spec_json_text(obj_get(fields, "name"@)),
            ) {
                (Some(id), Some(name)) => Some(MenuItemView { id, name }),
                _ => None,
            }
        },
        _ => None,
    }
}

/// Whether every element of a JSON array describes a catalog entry.
pub open spec fn all_menu_items_ok(elems: Seq<JsonS>) -> bool {
    forall|i: int| 0 <= i < elems.len() ==> spec_menu_item_of_json(#[trigger] elems[i]) is Some
}

/// The catalog a catalog document describes: an object whose `menu_items`
/// member is an array of catalog entries.
pub open spec fn spec_menu_doc(j: JsonS) -> Option<Seq<MenuItemView>> {
    match j {
        JsonS::Obj(fields) => match obj_get(fields, "menu_items"@) {
            Some(JsonS::Arr(elems)) => if all_menu_items_ok(elems) {
                Some(Seq::new(elems.len(), |i: int| spec_menu_item_of_json(elems[i])->0))
            } else {
                None
            },
            _ => None,
        },
        _ => None,
    }
}

/// What a 200 body must read as for a catalog request to succeed: a
/// well-formed document describing the catalog.
pub open spec fn menu_success(t: Seq<char>) -> Option<Seq<MenuItemView>> {
    match spec_parse_json(t) {
        Some(js) => spec_menu_doc(js),
        None => None,
    }
}

/// Reads one catalog entry out of a JSON value.
fn menu_item_from_json(j: &Json) -> (r: Option<rest_responses::MenuItem>)
    ensures
        r matches Some(m) ==> spec_menu_item_of_json(j.deep()) == Some(m@),
        r matches None ==> spec_menu_item_of_json(j.deep()) is None,
{
    match j {
        Json::Obj(fields) => {
            let id = get_u32_field(fields, "id");
            let name = get_text_field(fields, "name");
            match (id, name) {
                (Some(id), Some(name)) => Some(rest_responses::MenuItem { id, name }),
                _ => None,
            }
        },
        _ => None,
    }
}

/// Reads a catalog document.
fn menu_items_from_json(j: &Json) -> (r: Option<Vec<rest_responses::MenuItem>>)
    ensures
        r matches Some(v) ==> spec_menu_doc(j.deep()) == Some(menu_item_views(v@)),
        r matches None ==> spec_menu_doc(j.deep()) is None,
{
    match j {
        Json::Obj(fields) => match get_field(fields, "menu_items") {
            Some(Json::Arr(elems)) => {
                let ghost es = deep_seq(elems@);
                let mut out: Vec<rest_responses::MenuItem> = Vec::new();
                let mut idx: usize = 0;
                while idx < elems.len()
                    invariant
                        es == deep_seq(elems@),
                        es.len() == elems@.len(),
                        idx <= elems@.len(),
                        out@.len() == idx as int,
                        spec_menu_doc(j.deep()) == (if all_menu_items_ok(es) {
                            Some(Seq::new(es.len(), |k: int| spec_menu_item_of_json(es[k])->0))
                        } else {
                            None
                        }),
                        forall|i: int|
                            0 <= i < idx ==> spec_menu_item_of_json((#[trigger] elems@[i]).deep())
                                == Some(out@[i]@),
                    decreases elems@.len() - idx,
                {
                    match menu_item_from_json(&elems[idx]) {
                        Some(m) => out.push(m),
                        None => {
                            proof {
                                assert(es[idx as int] == elems@[idx as int].deep());
                                assert(!all_menu_items_ok(es));
                            }
                            return None;
                        },
                    }
                    idx += 1;
                }
                proof {
                    assert forall|i: int|
                        0 <= i < es.len() implies spec_menu_item_of_json(
                        #[trigger] es[i]) is Some by {
                        assert(es[i] == elems@[i].deep());
                    }
                    assert(all_menu_items_ok(es));
                    assert forall|i: int| 0 <= i < es.len() implies Seq::new(
                        es.len(),
                        |k: int| spec_menu_item_of_json(es[k])->0,
                    )[i] == menu_item_views(out@)[i] by {
                        assert(es[i] == elems@[i].deep());
                        assert(spec_menu_item_of_json(elems@[i].deep()) == Some(out@[i]@));
                    }
                    assert(Seq::new(es.len(), |k: int| spec_menu_item_of_json(es[k])->0)
                        =~= menu_item_views(out@));
                }
                Some(out)
            },
            _ => None,
        },
        _ => None,
    }
}

/// Classifies a response to a catalog request: status 200 with a readable
/// body that reads as a catalog document is the success, and the only one;
/// it returns exactly the catalog the document describes.
pub fn handle_menu_response(response: WebResponse) -> (r: Result<
    rest_responses::MenuItems,
    String,
>)
    ensures
        response.status != 200 ==> (r matches Err(m) && m@ == spec_dec(response.status as nat)),
        r matches Ok(m) ==> response.status == 200 && (response.body matches Ok(t)
            && menu_success(t@) == Some(menu_item_views(m.menu_items@))),
        response.status == 200 && (response.body matches Ok(t) && menu_success(t@) is Some)
            ==> r is Ok,
{
    if response.status != 200 {
        return Err(u32_to_string(response.status as u32));
    }
    let text = match response.body {
        Ok(t) => t,
        Err(e) => {
            return Err(e);
        },
    };
    let parsed = match parse_json(text.as_str()) {
        Some(j) => j,
        None => {
            proof {
                assert(menu_success(text@) is None);
            }
            return Err("malformed response body".to_owned());
        },
    };
    match menu_items_from_json(&parsed) {
        Some(v) => {
            proof {
                assert(menu_success(text@) == Some(menu_item_views(v@)));
            }
            Ok(rest_responses::MenuItems { menu_items: v })
        },
        None => {
            proof {
                assert(menu_success(text@) is None);
            }
            Err("malformed response body".to_owned())
        },
    }
}

/// Fetches the catalog.
pub fn get_menu_items<W: WebConnection>(web_connection: &W, host: String) -> (r: Result<
    rest_responses::MenuItems,
    String,
>)
    ensures
        r matches Ok(m) ==> exists|t: Seq<char>|
            #[trigger] menu_success(t) == Some(menu_item_views(m.menu_items@)),
{
    let mut url = host;
    url.append("/menu-items");
    match web_connection.get(url) {
        Ok(response) => handle_menu_response(response),
        Err(e) => Err(e.text),
    }
}

} // verus!
