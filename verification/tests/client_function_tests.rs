use std::cell::RefCell;

use table_orders::client_functions;
use table_orders::web_connection::{WebConnection, WebError, WebResponse};

pub enum Method {
    GET,
    POST,
    DELETE,
}

pub struct MockWebConnection {
    pub method: Method,
    pub status: u16,
    pub return_body_text: String,
    pub is_timeout: bool,
    pub was_get_called: RefCell<bool>,
    pub was_post_called: RefCell<bool>,
    pub was_delete_called: RefCell<bool>,
}

impl MockWebConnection {
    pub fn new(method: Method, status: u16, is_timeout: bool, return_body_text: String) -> Self {
        MockWebConnection {
            method,
            status,
            return_body_text,
            is_timeout,
            was_get_called: RefCell::new(false),
            was_post_called: RefCell::new(false),
            was_delete_called: RefCell::new(false),
        }
    }
}

impl WebConnection for MockWebConnection {
    fn get(&self, _path: String) -> Result<WebResponse, WebError> {
        *self.was_get_called.borrow_mut() = true;
        match self.method {
            Method::GET => Ok(WebResponse {
                status: self.status,
                body: Ok(self.return_body_text.to_string()),
            }),
            _ => Err(WebError {
                is_timeout: false,
                text: "GET failed".to_string(),
            }),
        }
    }

    fn post(&self, _path: String, _body: String) -> Result<WebResponse, WebError> {
        *self.was_post_called.borrow_mut() = true;
        if self.is_timeout {
            Err(WebError {
                is_timeout: true,
                text: "Timeout".to_string(),
            })
        } else {
            match self.method {
                Method::POST => Ok(WebResponse {
                    status: self.status,
                    body: Ok(self.return_body_text.to_string()),
                }),
                _ => Err(WebError {
                    is_timeout: false,
                    text: "POST failed".to_string(),
                }),
            }
        }
    }

    fn delete(&self, _path: String) -> Result<WebResponse, WebError> {
        *self.was_delete_called.borrow_mut() = true;
        match self.method {
            Method::DELETE => Ok(WebResponse {
                status: self.status,
                body: Ok(self.return_body_text.to_string()),
            }),
            _ => Err(WebError {
                is_timeout: false,
                text: "DELETE failed".to_string(),
            }),
        }
    }
}

#[test]
fn get_all_orders_success() -> Result<(), String> {
    let connection = MockWebConnection::new(
        Method::GET,
        200,
        false,
        "{
                        \"orders\": [
                            {
                                \"id\": 1,
                                \"table_number\": 2,
                                \"menu_item_id\": 3,
                                \"menu_item_name\": \"test\",
                                \"minutes_to_cook\": 4
                            }
                        ]
                    }"
        .to_string(),
    );
    let result = client_functions::get_all_orders(&connection, "".to_string(), 1);
    assert!(*connection.was_get_called.borrow());
    assert!(result.is_ok());
    let orders = result.unwrap();
    assert_eq!(orders.len(), 1);
    assert_eq!(orders[0].id, 1);
    assert_eq!(orders[0].menu_item_id, 3);
    assert_eq!(orders[0].menu_item_name, "test");
    assert_eq!(orders[0].minutes_to_cook, 4);
    Ok(())
}

#[test]
fn get_all_orders_failure() -> Result<(), String> {
    let connection = MockWebConnection::new(
        Method::GET,
        500,
        false,
        "{ \"error\": \"error\" }".to_string(),
    );
    let result = client_functions::get_all_orders(&connection, "".to_string(), 1);
    assert!(*connection.was_get_called.borrow());
    assert!(result.is_err());
    Ok(())
}

#[test]
fn get_order_success() -> Result<(), String> {
    let connection = MockWebConnection::new(
        Method::GET,
        200,
        false,
        "{
                        \"id\": 1,
                        \"table_number\": 2,
                        \"menu_item_id\": 3,
                        \"menu_item_name\": \"test\",
                        \"minutes_to_cook\": 4
                    }"
        .to_string(),
    );
    let result = client_functions::get_order(&connection, "".to_string(), 1, 1);
    assert!(*connection.was_get_called.borrow());
    assert!(result.is_ok());
    let order = result.unwrap();
    assert_eq!(order.id, 1);
    assert_eq!(order.menu_item_id, 3);
    assert_eq!(order.menu_item_name, "test");
    assert_eq!(order.minutes_to_cook, 4);
    Ok(())
}

#[test]
fn get_order_failure() -> Result<(), String> {
    let connection = MockWebConnection::new(
        Method::GET,
        500,
        false,
        "{ \"error\": \"error\" }".to_string(),
    );
    let result = client_functions::get_order(&connection, "".to_string(), 1, 1);
    assert!(*connection.was_get_called.borrow());
    assert!(result.is_err());
    Ok(())
}

#[test]
fn add_orders_success() -> Result<(), String> {
    let connection = MockWebConnection::new(
        Method::POST,
        200,
        false,
        "{
                        \"orders\": [
                            {
                                \"id\": 1,
                                \"table_number\": 2,
                                \"menu_item_id\": 3,
                                \"menu_item_name\": \"test\",
                                \"minutes_to_cook\": 4
                            }
                        ]
                    }"
        .to_string(),
    );
    let result =
        client_functions::add_orders(&connection, "".to_string(), 1, vec![1], || false);
    assert!(*connection.was_post_called.borrow());
    assert!(result.is_ok());
    let orders = result.unwrap();
    assert_eq!(orders.len(), 1);
    assert_eq!(orders[0].id, 1);
    assert_eq!(orders[0].menu_item_id, 3);
    assert_eq!(orders[0].menu_item_name, "test");
    assert_eq!(orders[0].minutes_to_cook, 4);
    Ok(())
}

#[test]
fn add_order_failure() -> Result<(), String> {
    let connection = MockWebConnection::new(
        Method::GET,
        500,
        false,
        "{ \"error\": \"error\" }".to_string(),
    );
    let result =
        client_functions::add_orders(&connection, "".to_string(), 1, vec![1], || false);
    assert!(*connection.was_post_called.borrow());
    assert!(result.is_err());
    Ok(())
}

#[test]
fn add_order_retry() -> Result<(), String> {
    let connection = MockWebConnection::new(
        Method::POST,
        409,
        true,
        "{ \"error\": \"error\" }".to_string(),
    );

    let retry_count = std::cell::Cell::new(0);
    let result: Result<Vec<table_orders::rest_responses::Order>, String> =
        client_functions::add_orders(&connection, "".to_string(), 1, vec![1], || {
            let count = retry_count.get();
            retry_count.set(count + 1);
            count == 0
        });
    assert!(*connection.was_post_called.borrow());
    assert!(result.is_err());
    assert_eq!(retry_count.get(), 2);
    Ok(())
}

#[test]
fn delete_orders_success() -> Result<(), String> {
    let connection = MockWebConnection::new(Method::DELETE, 204, false, "{}".to_string());
    let result = client_functions::delete_order(&connection, "".to_string(), 1, 1);
    assert!(*connection.was_delete_called.borrow());
    assert!(result.is_ok());
    Ok(())
}

#[test]
fn delete_failure() -> Result<(), String> {
    let connection = MockWebConnection::new(
        Method::DELETE,
        500,
        false,
        "{ \"error\": \"error\" }".to_string(),
    );
    let result = client_functions::delete_order(&connection, "".to_string(), 1, 1);
    assert!(result.is_err());
    Ok(())
}
