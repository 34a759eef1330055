//! Requests as defined in the JSON-RPC 2.0 specification.

use vstd::prelude::*;
use crate::json::JsonValue;

verus! {

/// A JSON-RPC request: the method to call, its parameters and the
/// identifier that the response must echo.
#[derive(Debug)]
pub struct Request {
    pub jsonrpc: String,
    pub method: String,
    pub params: JsonValue,
    pub id: JsonValue,
}

} // verus!
