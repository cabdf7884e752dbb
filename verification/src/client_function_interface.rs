//! The client functions behind an injectable interface, so the simulator can
//! be driven by a fake in tests.

use vstd::prelude::*;

use crate::client_functions;
use crate::rest_responses;
use crate::web_connection::WebConnection;

verus! {

/// The five client calls the simulator makes. Implementors promise nothing:
/// the simulator states what it does with whatever they return.
pub trait ClientFunctionInterface {
    fn get_all_orders<W: WebConnection>(
        &self,
        web_connection: &W,
        host: String,
        table_number: u32,
    ) -> Result<Vec<rest_responses::Order>, String>;

    fn get_order<W: WebConnection>(
        &self,
        web_connection: &W,
        host: String,
        table_number: u32,
        order_id: u32,
    ) -> Result<rest_responses::Order, String>;

    fn add_orders<W: WebConnection, F: Fn() -> bool>(
        &self,
        web_connection: &W,
        host: String,
        table_number: u32,
        menu_item_ids: Vec<u32>,
        should_retry: F,
    ) -> Result<Vec<rest_responses::Order>, String>
        requires
            should_retry.requires(()),
    ;

    fn delete_order<W: WebConnection>(
        &self,
        web_connection: &W,
        host: String,
        table_number: u32,
        order_id: u32,
    ) -> Result<(), String>;

    fn get_menu_items<W: WebConnection>(&self, web_connection: &W, host: String) -> Result<
        rest_responses::MenuItems,
        String,
    >;
}

/// The production interface: the real client functions.
pub struct DefaultClientFunctionInterface {}

impl ClientFunctionInterface for DefaultClientFunctionInterface {
    fn get_all_orders<W: WebConnection>(
        &self,
        web_connection: &W,
        host: String,
        table_number: u32,
    ) -> Result<Vec<rest_responses::Order>, String> {
        client_functions::get_all_orders(web_connection, host, table_number)
    }

    fn get_order<W: WebConnection>(
        &self,
        web_connection: &W,
        host: String,
        table_number: u32,
        order_id: u32,
    ) -> Result<rest_responses::Order, String> {
        client_functions::get_order(web_connection, host, table_number, order_id)
    }

    fn add_orders<W: WebConnection, F: Fn() -> bool>(
        &self,
        web_connection: &W,
        host: String,
        table_number: u32,
        menu_item_ids: Vec<u32>,
        should_retry: F,
    ) -> Result<Vec<rest_responses::Order>, String> {
        client_functions::add_orders(web_connection, host, table_number, menu_item_ids, should_retry)
    }

    fn delete_order<W: WebConnection>(
        &self,
        web_connection: &W,
        host: String,
        table_number: u32,
        order_id: u32,
    ) -> Result<(), String> {
        client_functions::delete_order(web_connection, host, table_number, order_id)
    }

    fn get_menu_items<W: WebConnection>(&self, web_connection: &W, host: String) -> Result<
        rest_responses::MenuItems,
        String,
    > {
        client_functions::get_menu_items(web_connection, host)
    }
}

} // verus!
