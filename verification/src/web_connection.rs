//! The client's transport.
//!
//! The request engine reaches the wire only through the [`WebConnection`]
//! trait, so nothing is promised of what comes back: the engine's contracts
//! classify whatever response arrives. The production implementation sends
//! real HTTP requests; tests inject mock connections.

use vstd::prelude::*;

verus! {

/// A completed HTTP exchange: the status and the body (or why the body
/// could not be read).
pub struct WebResponse {
    pub status: u16,
    pub body: Result<String, String>,
}

/// A transport failure: whether it was a timeout (the one retryable
/// condition) and its diagnostic text.
pub struct WebError {
    pub is_timeout: bool,
    pub text: String,
}

/// One HTTP round trip. A transport promises nothing about its responses.
pub trait WebConnection {
    fn get(&self, path: String) -> Result<WebResponse, WebError>;

    fn post(&self, path: String, body: String) -> Result<WebResponse, WebError>;

    fn delete(&self, path: String) -> Result<WebResponse, WebError>;
}

/// Relies on `reqwest::blocking::get` for the round trip; the response is
/// handed back as it came.
#[verifier::external_body]
fn http_get(path: String) -> Result<WebResponse, WebError> {
    let response = reqwest::blocking::get(path).map_err(
        |e| WebError { is_timeout: e.is_timeout(), text: e.to_string() },
    )?;
    let status = response.status().as_u16();
    Ok(WebResponse { status, body: response.text().map_err(|e| e.to_string()) })
}

/// Relies on `reqwest::blocking::Client::post` for the round trip; the
/// response is handed back as it came.
#[verifier::external_body]
fn http_post(path: String, body: String) -> Result<WebResponse, WebError> {
    let response = reqwest::blocking::Client::new().post(path).header(
        "Content-Type",
        "application/json",
    ).body(body).send().map_err(
        |e| WebError { is_timeout: e.is_timeout(), text: e.to_string() },
    )?;
    let status = response.status().as_u16();
    Ok(WebResponse { status, body: response.text().map_err(|e| e.to_string()) })
}

/// Relies on `reqwest::blocking::Client::delete` for the round trip; the
/// response is handed back as it came.
#[verifier::external_body]
fn http_delete(path: String) -> Result<WebResponse, WebError> {
    let response = reqwest::blocking::Client::new().delete(path).send().map_err(
        |e| WebError { is_timeout: e.is_timeout(), text: e.to_string() },
    )?;
    let status = response.status().as_u16();
    Ok(WebResponse { status, body: response.text().map_err(|e| e.to_string()) })
}

/// The production transport, over the `reqwest` crate's blocking client.
pub struct DefaultWebConnection {}

impl WebConnection for DefaultWebConnection {
    fn get(&self, path: String) -> Result<WebResponse, WebError> {
        http_get(path)
    }

    fn post(&self, path: String, body: String) -> Result<WebResponse, WebError> {
        http_post(path, body)
    }

    fn delete(&self, path: String) -> Result<WebResponse, WebError> {
        http_delete(path)
    }
}

} // verus!
