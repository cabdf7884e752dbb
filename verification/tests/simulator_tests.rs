use std::cell::{Cell, RefCell};

use rand::rngs::StdRng;
use rand::SeedableRng;
use table_orders::client_function_interface::ClientFunctionInterface;
use table_orders::rest_responses;
use table_orders::sim::{self, TableOrderPair};
use table_orders::web_connection::{WebConnection, WebError, WebResponse};

pub struct MockClientFunctionInterface {
    pub should_fail: Cell<bool>,
    pub was_delete_order_called: RefCell<bool>,
    pub was_add_orders_called: RefCell<bool>,
}

pub const DEFAULT_RETURN_ORDER_ID: u32 = 5;
pub const DEFAULT_RETURN_ORDER_MENU_ID: u32 = 10;
pub const DEFAULT_RETURN_ORDER_MENU_NAME: &str = "Food";
pub const DEFAULT_RETURN_ORDER_MINUTES_TO_COOK: u32 = 20;

pub fn new_mock() -> MockClientFunctionInterface {
    MockClientFunctionInterface {
        should_fail: Cell::new(false),
        was_add_orders_called: RefCell::new(false),
        was_delete_order_called: RefCell::new(false),
    }
}

fn new_default_return() -> rest_responses::Order {
    rest_responses::Order {
        id: DEFAULT_RETURN_ORDER_ID,
        menu_item_id: DEFAULT_RETURN_ORDER_MENU_ID,
        menu_item_name: DEFAULT_RETURN_ORDER_MENU_NAME.to_string(),
        minutes_to_cook: DEFAULT_RETURN_ORDER_MINUTES_TO_COOK,
    }
}

impl ClientFunctionInterface for MockClientFunctionInterface {
    fn get_all_orders<W: WebConnection>(
        &self,
        _web_connection: &W,
        _host: String,
        _table_number: u32,
    ) -> Result<Vec<rest_responses::Order>, String> {
        match self.should_fail.get() {
            true => Err("".to_string()),
            false => Ok(vec![new_default_return()]),
        }
    }

    fn get_order<W: WebConnection>(
        &self,
        _web_connection: &W,
        _host: String,
        _table_number: u32,
        _order_id: u32,
    ) -> Result<rest_responses::Order, String> {
        match self.should_fail.get() {
            true => Err("".to_string()),
            false => Ok(new_default_return()),
        }
    }

    fn add_orders<W: WebConnection, F: Fn() -> bool>(
        &self,
        _web_connection: &W,
        _host: String,
        _table_number: u32,
        _menu_item_ids: Vec<u32>,
        _should_retry: F,
    ) -> Result<Vec<rest_responses::Order>, String> {
        *self.was_add_orders_called.borrow_mut() = true;
        match self.should_fail.get() {
            true => Err("".to_string()),
            false => Ok(vec![new_default_return()]),
        }
    }

    fn delete_order<W: WebConnection>(
        &self,
        _web_connection: &W,
        _host: String,
        _table_number: u32,
        _order_id: u32,
    ) -> Result<(), String> {
        *self.was_delete_order_called.borrow_mut() = true;
        match self.should_fail.get() {
            true => Err("".to_string()),
            false => Ok(()),
        }
    }

    fn get_menu_items<W: WebConnection>(
        &self,
        _web_connection: &W,
        _host: String,
    ) -> Result<rest_responses::MenuItems, String> {
        match self.should_fail.get() {
            true => Err("".to_string()),
            false => Ok(rest_responses::MenuItems {
                menu_items: vec![rest_responses::MenuItem {
                    id: DEFAULT_RETURN_ORDER_MENU_ID,
                    name: DEFAULT_RETURN_ORDER_MENU_NAME.to_string(),
                }],
            }),
        }
    }
}

/// A transport the mock interface never actually uses.
pub struct UnusedConnection {}

impl WebConnection for UnusedConnection {
    fn get(&self, _path: String) -> Result<WebResponse, WebError> {
        Err(WebError {
            is_timeout: false,
            text: "unused".to_string(),
        })
    }

    fn post(&self, _path: String, _body: String) -> Result<WebResponse, WebError> {
        Err(WebError {
            is_timeout: false,
            text: "unused".to_string(),
        })
    }

    fn delete(&self, _path: String) -> Result<WebResponse, WebError> {
        Err(WebError {
            is_timeout: false,
            text: "unused".to_string(),
        })
    }
}

const HOST: &str = "http://127.0.0.1:8000";

fn get_mock_injection_params() -> sim::SimInjectionParams<MockClientFunctionInterface> {
    sim::SimInjectionParams {
        client_functions: new_mock(),
        rng: StdRng::seed_from_u64(0),
    }
}

#[test]
fn add_random_order_success() {
    // setup
    let mut injection_params = get_mock_injection_params();
    let mut added_item_cache = Vec::<TableOrderPair>::new();

    // execute
    let ret = sim::add_random_order(
        &mut injection_params,
        &UnusedConnection {},
        HOST,
        1,
        &mut added_item_cache,
    );

    // assert
    assert!(ret.contains(DEFAULT_RETURN_ORDER_MENU_NAME));
    assert_eq!(added_item_cache.len(), 1);
    assert_eq!(
        added_item_cache.get(0).unwrap().order_id,
        DEFAULT_RETURN_ORDER_ID
    );
    assert!(*injection_params.client_functions.was_add_orders_called.borrow());
}

#[test]
fn add_random_order_failure() {
    // setup
    let mut injection_params = get_mock_injection_params();
    injection_params.client_functions.should_fail.set(true);
    let mut added_item_cache = Vec::<TableOrderPair>::new();

    // execute
    let ret = sim::add_random_order(
        &mut injection_params,
        &UnusedConnection {},
        HOST,
        1,
        &mut added_item_cache,
    );

    // assert
    assert!(ret.contains("error"));
}

#[test]
fn delete_random_order_success() {
    // setup
    let mut injection_params = get_mock_injection_params();
    let mut added_item_cache = vec![TableOrderPair {
        table_id: 3,
        order_id: 2,
    }];

    // execute
    let ret = sim::delete_random_order(
        &mut injection_params,
        &UnusedConnection {},
        HOST,
        1,
        &mut added_item_cache,
    );

    // assert
    assert!(ret.contains("deleted"));
    assert_eq!(added_item_cache.len(), 0);
    assert!(*injection_params.client_functions.was_delete_order_called.borrow());
}

#[test]
fn delete_random_order_failure() {
    // setup
    let mut injection_params = get_mock_injection_params();
    injection_params.client_functions.should_fail.set(true);
    let mut added_item_cache = vec![TableOrderPair {
        table_id: 3,
        order_id: 2,
    }];

    // execute
    let ret = sim::delete_random_order(
        &mut injection_params,
        &UnusedConnection {},
        HOST,
        1,
        &mut added_item_cache,
    );

    // assert
    assert!(ret.contains("error"));
    assert_eq!(added_item_cache.len(), 1);
}

#[test]
fn delete_random_order_nothing_to_delete() {
    // setup
    let mut injection_params = get_mock_injection_params();
    let mut added_item_cache = Vec::<TableOrderPair>::new();

    // execute
    let ret = sim::delete_random_order(
        &mut injection_params,
        &UnusedConnection {},
        HOST,
        1,
        &mut added_item_cache,
    );

    // assert
    assert!(ret.contains("none to delete"));
}

#[test]
fn query_random_table_success() {
    // setup
    let mut injection_params = get_mock_injection_params();

    // execute
    let ret = sim::query_random_table(&mut injection_params, &UnusedConnection {}, HOST, 1);

    // assert
    assert!(ret.contains("including"));
    assert!(ret.contains(DEFAULT_RETURN_ORDER_MENU_NAME));
    assert!(ret.contains(DEFAULT_RETURN_ORDER_MINUTES_TO_COOK.to_string().as_str()));
}

#[test]
fn query_random_table_failure() {
    // setup
    let mut injection_params = get_mock_injection_params();
    injection_params.client_functions.should_fail.set(true);

    // execute
    let ret = sim::query_random_table(&mut injection_params, &UnusedConnection {}, HOST, 1);

    // assert
    assert!(ret.contains("error"));
}

#[test]
fn query_random_table_item_success() {
    // setup
    let mut injection_params = get_mock_injection_params();
    let added_item_cache = vec![TableOrderPair {
        table_id: 3,
        order_id: 2,
    }];

    // execute
    let ret = sim::query_random_table_item(
        &mut injection_params,
        &UnusedConnection {},
        HOST,
        1,
        &added_item_cache,
    );

    // assert
    assert!(!ret.contains("including"));
    assert!(ret.contains(DEFAULT_RETURN_ORDER_MENU_NAME));
    assert!(ret.contains(DEFAULT_RETURN_ORDER_MINUTES_TO_COOK.to_string().as_str()));
}

#[test]
fn query_random_table_item_failure() {
    // setup
    let mut injection_params = get_mock_injection_params();
    injection_params.client_functions.should_fail.set(true);
    let added_item_cache = vec![TableOrderPair {
        table_id: 3,
        order_id: 2,
    }];

    // execute
    let ret = sim::query_random_table_item(
        &mut injection_params,
        &UnusedConnection {},
        HOST,
        1,
        &added_item_cache,
    );

    // assert
    assert!(ret.contains("error"));
}

#[test]
fn query_random_table_item_none_to_query() {
    // setup
    let mut injection_params = get_mock_injection_params();
    let added_item_cache = Vec::<TableOrderPair>::new();

    // execute
    let ret = sim::query_random_table_item(
        &mut injection_params,
        &UnusedConnection {},
        HOST,
        1,
        &added_item_cache,
    );

    // assert
    assert!(ret.contains("none to query"));
}
