//! The load simulator's actions.
//!
//! Each simulated tablet keeps a private list of the `(table, order)` pairs
//! it created and repeatedly performs one random action: place a random
//! order, cancel one of its own orders, list a random table, or fetch one of
//! its own orders. The randomness source and the client functions are
//! injected so the actions are deterministic under test; the driving loop
//! (sleep, pick, print) lives with the binary, outside the library.

use vstd::prelude::*;
use vstd::string::StringExecFns;

use crate::client_function_interface::ClientFunctionInterface;
use crate::rest_responses;
use crate::strings::{spec_dec, str_eq, u32_to_string, u64_to_string};
use crate::web_connection::WebConnection;

verus! {

/// How many tables the simulator spreads its orders over.
pub const TABLE_COUNT: u32 = 5;

/// One order a simulated tablet created: where it lives and its id.
pub struct TableOrderPair {
    pub table_id: u32,
    pub order_id: u32,
}

#[verifier::external_type_specification]
#[verifier::external_body]
pub struct ExStdRng(rand::rngs::StdRng);

/// What a simulated tablet runs on: the client functions and its own seeded
/// source of randomness.
pub struct SimInjectionParams<T: ClientFunctionInterface> {
    pub client_functions: T,
    pub rng: rand::rngs::StdRng,
}

/// Relies on `rand::Rng::gen_range` on a seeded `StdRng`: a value uniformly
/// in `[lo, hi)`; the call panics on an empty range, which the precondition
/// rules out.
#[verifier::external_body]
fn rng_range(rng: &mut rand::rngs::StdRng, lo: u32, hi: u32) -> (r: u32)
    requires
        lo < hi,
    ensures
        lo <= r < hi,
{
    rand::Rng::gen_range(rng, lo..hi)
}

/// Relies on `rand::Rng::gen_range` on a seeded `StdRng`, over a `usize`
/// range: a value uniformly in `[lo, hi)`; the call panics on an empty
/// range, which the precondition rules out.
#[verifier::external_body]
fn rng_range_usize(rng: &mut rand::rngs::StdRng, lo: usize, hi: usize) -> (r: usize)
    requires
        lo < hi,
    ensures
        lo <= r < hi,
{
    rand::Rng::gen_range(rng, lo..hi)
}

/// How every outcome line opens: "Client {n} ".
pub open spec fn spec_client_line(client_number: u32) -> Seq<char> {
    "Client "@ + spec_dec(client_number as nat) + " "@
}

/// "Client {n} " with the given words after it.
fn client_message(client_number: u32, rest: &str) -> (r: String)
    ensures
        r@ == spec_client_line(client_number) + rest@,
{
    let mut s = "Client ".to_owned();
    s.append(u32_to_string(client_number).as_str());
    s.append(" ");
    s.append(rest);
    proof {
        assert(s@ =~= spec_client_line(client_number) + rest@);
    }
    s
}

/// The menu item names of the placed orders, comma separated.
fn joined_names(orders: &Vec<rest_responses::Order>) -> (r: String) {
    let mut s = String::new();
    let mut idx: usize = 0;
    while idx < orders.len()
        decreases orders@.len() - idx,
    {
        if idx > 0 {
            s.append(", ");
        }
        s.append(orders[idx].menu_item_name.as_str());
        idx += 1;
    }
    s
}

/// Fetches the catalog, maps the requested item names to their catalog ids
/// (silently skipping names the catalog lacks, as the simulator only ever
/// asks for seeded names), and places the batch without retrying.
fn add_to_table<T: ClientFunctionInterface, W: WebConnection>(
    params: &SimInjectionParams<T>,
    web_connection: &W,
    host: &str,
    table_number: u32,
    menu_item_names: &Vec<String>,
) -> (r: Result<Vec<rest_responses::Order>, String>)
{
    let menu_items = match params.client_functions.get_menu_items(
        web_connection,
        host.to_owned(),
    ) {
        Ok(m) => m,
        Err(e) => {
            return Err(e);
        },
    };
    let mut item_ids: Vec<u32> = Vec::new();
    let mut idx: usize = 0;
    while idx < menu_item_names.len()
        invariant
            idx <= menu_item_names@.len(),
        decreases menu_item_names@.len() - idx,
    {
        let mut j: usize = 0;
        while j < menu_items.menu_items.len()
            invariant
                idx < menu_item_names@.len(),
                j <= menu_items.menu_items@.len(),
            decreases menu_items.menu_items@.len() - j,
        {
            if str_eq(menu_items.menu_items[j].name.as_str(), menu_item_names[idx].as_str()) {
                item_ids.push(menu_items.menu_items[j].id);
                break ;
            }
            j += 1;
        }
        idx += 1;
    }
    params.client_functions.add_orders(
        web_connection,
        host.to_owned(),
        table_number,
        item_ids,
        || false,
    )
}

/// Places one or two randomly chosen menu items on a random table and
/// reports one outcome line. Every pair recorded in the cache points at a
/// table the simulator covers, and the cache only ever grows by what this
/// call itself created.
pub fn add_random_order<T: ClientFunctionInterface, W: WebConnection>(
    params: &mut SimInjectionParams<T>,
    web_connection: &W,
    host: &str,
    client_number: u32,
    added_items: &mut Vec<TableOrderPair>,
) -> (r: String)
    ensures
        old(added_items)@.is_prefix_of(final(added_items)@),
        forall|i: int|
            old(added_items)@.len() <= i < final(added_items)@.len()
                ==> 1 <= (#[trigger] final(added_items)@[i]).table_id <= TABLE_COUNT,
{
    let table_number = rng_range(&mut params.rng, 1, TABLE_COUNT + 1);
    let how_many = rng_range(&mut params.rng, 1, 3);
    let mut menu_item_names: Vec<String> = Vec::new();
    let mut k: u32 = 0;
    while k < how_many
        decreases how_many - k,
    {
        let name = match rng_range(&mut params.rng, 1, 6) {
            1u32 => "Hamburger".to_owned(),
            2u32 => "Salad".to_owned(),
            3u32 => "Sushi".to_owned(),
            4u32 => "Ice Cream".to_owned(),
            _ => "Soda".to_owned(),
        };
        menu_item_names.push(name);
        k += 1;
    }
    let result = add_to_table(params, web_connection, host, table_number, &menu_item_names);
    match result {
        Ok(orders) => {
            let mut idx: usize = 0;
            while idx < orders.len()
                invariant
                    1 <= table_number <= TABLE_COUNT,
                    old(added_items)@.is_prefix_of(added_items@),
                    forall|i: int|
                        old(added_items)@.len() <= i < added_items@.len() ==> 1 <= (
                        #[trigger] added_items@[i]).table_id <= TABLE_COUNT,
                decreases orders@.len() - idx,
            {
                added_items.push(
                    TableOrderPair { table_id: table_number, order_id: orders[idx].id },
                );
                idx += 1;
            }
            let mut msg = client_message(client_number, "added ");
            msg.append(joined_names(&orders).as_str());
            msg.append(" to table ");
            msg.append(u32_to_string(table_number).as_str());
            msg
        },
        Err(e) => {
            let mut msg = client_message(
                client_number,
                "encountered an error trying to add orders to table ",
            );
            msg.append(u32_to_string(table_number).as_str());
            msg.append(": ");
            msg.append(e.as_str());
            msg
        },
    }
}

/// The first position in the cache holding this `(table, order)` pair.
fn find_pair(added_items: &Vec<TableOrderPair>, table_id: u32, order_id: u32) -> (r: Option<usize>)
    ensures
        r matches Some(p) ==> p < added_items@.len(),
{
    let mut idx: usize = 0;
    while idx < added_items.len()
        decreases added_items@.len() - idx,
    {
        if added_items[idx].table_id == table_id && added_items[idx].order_id == order_id {
            return Some(idx);
        }
        idx += 1;
    }
    None
}

/// Cancels one randomly chosen order of the tablet's own, drops it from the
/// cache on success, and reports one outcome line. The cache either stays as
/// it was or loses exactly one entry.
pub fn delete_random_order<T: ClientFunctionInterface, W: WebConnection>(
    params: &mut SimInjectionParams<T>,
    web_connection: &W,
    host: &str,
    client_number: u32,
    added_items: &mut Vec<TableOrderPair>,
) -> (r: String)
    ensures
        final(added_items)@ == old(added_items)@ || exists|p: int|
            0 <= p < old(added_items)@.len() && final(added_items)@ == old(added_items)@.remove(p),
        old(added_items)@.len() == 0 ==> r@ == spec_client_line(client_number)
            + "tried to delete a random order but had none to delete."@,
{
    if added_items.len() == 0 {
        return client_message(
            client_number,
            "tried to delete a random order but had none to delete.",
        );
    }
    let pick = rng_range_usize(&mut params.rng, 0, added_items.len());
    let item_table = added_items[pick].table_id;
    let item_order = added_items[pick].order_id;
    match params.client_functions.delete_order(
        web_connection,
        host.to_owned(),
        item_table,
        item_order,
    ) {
        Ok(_) => {
            let mut msg = client_message(client_number, "deleted order ");
            msg.append(u32_to_string(item_order).as_str());
            msg.append(" from table ");
            msg.append(u32_to_string(item_table).as_str());
            msg.append(".");
            match find_pair(added_items, item_table, item_order) {
                Some(p) => {
                    added_items.remove(p);
                },
                None => (),
            }
            msg
        },
        Err(e) => {
            let mut msg = client_message(client_number, "tried to delete order ");
            msg.append(u32_to_string(item_order).as_str());
            msg.append(" from table ");
            msg.append(u32_to_string(item_table).as_str());
            msg.append(", but encountered an error: ");
            msg.append(e.as_str());
            msg.append(".");
            msg
        },
    }
}

/// Lists a random table's orders and reports one outcome line naming the
/// first order, if any.
pub fn query_random_table<T: ClientFunctionInterface, W: WebConnection>(
    params: &mut SimInjectionParams<T>,
    web_connection: &W,
    host: &str,
    client_number: u32,
) -> (r: String)
    ensures
        spec_client_line(client_number).is_prefix_of(r@),
{
    let table_number = rng_range(&mut params.rng, 1, TABLE_COUNT + 1);
    match params.client_functions.get_all_orders(
        web_connection,
        host.to_owned(),
        table_number,
    ) {
        Ok(orders) => {
            let mut msg = client_message(client_number, "queried orders for table ");
            msg.append(u32_to_string(table_number).as_str());
            msg.append(", which had ");
            msg.append(u64_to_string(orders.len() as u64).as_str());
            msg.append(" orders, including ");
            if orders.len() > 0 {
                msg.append(orders[0].menu_item_name.as_str());
                msg.append(" for ");
                msg.append(u32_to_string(orders[0].minutes_to_cook).as_str());
            } else {
                msg.append("N/A");
                msg.append(" for ");
                msg.append("N/A");
            }
            msg.append(" minutes.");
            proof {
                assert(spec_client_line(client_number) =~= msg@.subrange(
                    0,
                    spec_client_line(client_number).len() as int,
                ));
            }
            msg
        },
        Err(e) => {
            let mut msg = client_message(
                client_number,
                "encountered an error trying to query orders for table ",
            );
            msg.append(u32_to_string(table_number).as_str());
            msg.append(": ");
            msg.append(e.as_str());
            proof {
                assert(spec_client_line(client_number) =~= msg@.subrange(
                    0,
                    spec_client_line(client_number).len() as int,
                ));
            }
            msg
        },
    }
}

/// Fetches one randomly chosen order of the tablet's own and reports one
/// outcome line.
pub fn query_random_table_item<T: ClientFunctionInterface, W: WebConnection>(
    params: &mut SimInjectionParams<T>,
    web_connection: &W,
    host: &str,
    client_number: u32,
    added_items: &Vec<TableOrderPair>,
) -> (r: String)
    ensures
        spec_client_line(client_number).is_prefix_of(r@),
        added_items@.len() == 0 ==> r@ == spec_client_line(client_number)
            + "tried to query a random order but had none to query."@,
{
    if added_items.len() == 0 {
        let msg = client_message(
            client_number,
            "tried to query a random order but had none to query.",
        );
        proof {
            assert(spec_client_line(client_number) =~= msg@.subrange(
                0,
                spec_client_line(client_number).len() as int,
            ));
        }
        return msg;
    }
    let pick = rng_range_usize(&mut params.rng, 0, added_items.len());
    let item_table = added_items[pick].table_id;
    let item_order = added_items[pick].order_id;
    match params.client_functions.get_order(
        web_connection,
        host.to_owned(),
        item_table,
        item_order,
    ) {
        Ok(order) => {
            let mut msg = client_message(client_number, "queried order with ID ");
            msg.append(u32_to_string(item_table).as_str());
            msg.append(" for table ");
            msg.append(u32_to_string(item_order).as_str());
            msg.append(": order id ");
            msg.append(u32_to_string(order.id).as_str());
            msg.append(", ");
            msg.append(order.menu_item_name.as_str());
            msg.append(", ");
            msg.append(u32_to_string(order.minutes_to_cook).as_str());
            msg.append(" minutes");
            proof {
                assert(spec_client_line(client_number) =~= msg@.subrange(
                    0,
                    spec_client_line(client_number).len() as int,
                ));
            }
            msg
        },
        Err(e) => {
            let mut msg = client_message(
                client_number,
                "encountered an error trying to query a random table order: ",
            );
            msg.append(e.as_str());
            proof {
                assert(spec_client_line(client_number) =~= msg@.subrange(
                    0,
                    spec_client_line(client_number).len() as int,
                ));
            }
            msg
        },
    }
}

} // verus!
