//! The wire codec: decimal rendering, request serialization, JSON reading
//! and response classification.

use table_orders::client_functions::{
    handle_delete_response, handle_orders_response, orders_body_json,
};
use table_orders::json::{parse_json, Json};
use table_orders::rest_bodies;
use table_orders::strings::{str_eq, u32_to_string, u64_to_string};
use table_orders::web_connection::WebResponse;

#[test]
fn decimal_rendering() {
    assert_eq!(u32_to_string(0), "0");
    assert_eq!(u32_to_string(7), "7");
    assert_eq!(u32_to_string(40960), "40960");
    assert_eq!(u32_to_string(u32::MAX), "4294967295");
    assert_eq!(u64_to_string(18446744073709551615), "18446744073709551615");
}

#[test]
fn string_equality() {
    assert!(str_eq("orders", "orders"));
    assert!(!str_eq("orders", "order"));
    assert!(!str_eq("orders", "Orders"));
    assert!(str_eq("", ""));
}

#[test]
fn request_body_serialization() {
    let req = rest_bodies::Orders {
        idempotency_key: Some("abc-123".to_string()),
        orders: vec![
            rest_bodies::Order { menu_item_id: 1 },
            rest_bodies::Order { menu_item_id: 2 },
        ],
    };
    assert_eq!(
        orders_body_json(&req),
        "{\"idempotency_key\":\"abc-123\",\"orders\":[{\"menu_item_id\":1},{\"menu_item_id\":2}]}"
    );
    let bare = rest_bodies::Orders {
        idempotency_key: None,
        orders: vec![rest_bodies::Order { menu_item_id: 7 }],
    };
    assert_eq!(orders_body_json(&bare), "{\"orders\":[{\"menu_item_id\":7}]}");
    let empty = rest_bodies::Orders {
        idempotency_key: None,
        orders: vec![],
    };
    assert_eq!(orders_body_json(&empty), "{\"orders\":[]}");
}

#[test]
fn json_reader_accepts_the_protocol() {
    match parse_json(" { \"a\" : 12 , \"b\" : [ true , false , null ] } ") {
        Some(Json::Obj(fields)) => {
            assert_eq!(fields.len(), 2);
            assert_eq!(fields[0].0, "a");
            assert!(matches!(fields[0].1, Json::UInt(12)));
            match &fields[1].1 {
                Json::Arr(elems) => {
                    assert_eq!(elems.len(), 3);
                    assert!(matches!(elems[0], Json::Bool(true)));
                    assert!(matches!(elems[1], Json::Bool(false)));
                    assert!(matches!(elems[2], Json::Null));
                }
                _ => panic!("expected an array"),
            }
        }
        _ => panic!("expected an object"),
    }
    match parse_json("{\"name\":\"Ice Cream\"}") {
        Some(Json::Obj(fields)) => match &fields[0].1 {
            Json::Text(s) => assert_eq!(s, "Ice Cream"),
            _ => panic!("expected a string"),
        },
        _ => panic!("expected an object"),
    }
    assert!(matches!(parse_json("[]"), Some(Json::Arr(_))));
    assert!(matches!(parse_json("{}"), Some(Json::Obj(_))));
}

#[test]
fn json_reader_rejects_malformed_documents() {
    assert!(parse_json("").is_none());
    assert!(parse_json("{").is_none());
    assert!(parse_json("{} trailing").is_none());
    assert!(parse_json("{\"a\":}").is_none());
    assert!(parse_json("{\"a\" 1}").is_none());
    assert!(parse_json("[1,]").is_none());
    assert!(parse_json("-1").is_none());
    assert!(parse_json("1.5").is_none());
    // escape sequences are outside the accepted protocol subset
    assert!(parse_json("{\"a\":\"x\\ny\"}").is_none());
    // one past u64::MAX no longer fits
    assert!(parse_json("18446744073709551616").is_none());
}

#[test]
fn json_reader_integer_range() {
    match parse_json("18446744073709551615") {
        Some(Json::UInt(n)) => assert_eq!(n, u64::MAX),
        _ => panic!("expected the largest accepted integer"),
    }
}

#[test]
fn orders_response_classification() {
    let ok = handle_orders_response(WebResponse {
        status: 200,
        body: Ok("{\"orders\":[{\"id\":9,\"menu_item_id\":1,\"menu_item_name\":\"Salad\",\"minutes_to_cook\":6}]}".to_string()),
    });
    let orders = ok.unwrap();
    assert_eq!(orders.len(), 1);
    assert_eq!(orders[0].id, 9);
    assert_eq!(orders[0].menu_item_name, "Salad");

    let conflict = handle_orders_response(WebResponse {
        status: 409,
        body: Ok("{ \"error\": \"duplicate\" }".to_string()),
    });
    assert_eq!(conflict.unwrap_err(), "409");

    let unreadable = handle_orders_response(WebResponse {
        status: 200,
        body: Err("connection reset".to_string()),
    });
    assert_eq!(unreadable.unwrap_err(), "connection reset");

    let malformed = handle_orders_response(WebResponse {
        status: 200,
        body: Ok("{\"orders\":[{\"id\":9}]}".to_string()),
    });
    assert!(malformed.is_err());
}

#[test]
fn delete_response_classification() {
    assert!(handle_delete_response(WebResponse {
        status: 204,
        body: Ok("{}".to_string()),
    })
    .is_ok());
    assert_eq!(
        handle_delete_response(WebResponse {
            status: 500,
            body: Ok("{}".to_string()),
        })
        .unwrap_err(),
        "500"
    );
}
