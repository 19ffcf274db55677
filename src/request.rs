//! The HTTP requests that the provider adapters ask the caller to send.
use vstd::prelude::*;
use crate::json::Json;

verus! {

#[derive(Debug, Clone, Copy, PartialEq, Eq, Structural)]
pub enum HttpMethod {
    Get,
    Post,
    Delete,
}

/// One call of a provider's REST API: the method, the endpoint, the header
/// that carries the API key, and the JSON body, if any.
#[derive(Debug)]
pub struct ApiRequest {
    pub method: HttpMethod,
    pub url: String,
    pub key_header: String,
    pub api_key: String,
    pub body: Option<Json>,
}

} // verus!
