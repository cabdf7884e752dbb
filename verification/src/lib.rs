//! A restaurant table-order service: an idempotent, atomic order-placement
//! protocol over a relational store, the query and cancel handlers around it,
//! and the client engine that submits batches and retries timeouts under a
//! caller-supplied policy without ever duplicating an accepted batch.

pub mod rest_bodies;
pub mod rest_responses;
pub mod client;
pub mod client_function_interface;
pub mod client_functions;
pub mod database_connection;
pub mod endpoints;
pub mod json;
pub mod server_errors;
pub mod server_functions;
pub mod sim;
pub mod store;
pub mod strings;
pub mod web_connection;
