//! Responses as defined in the JSON-RPC 2.0 specification.

use vstd::prelude::*;
use crate::json::JsonValue;

verus! {

/// Error codes of the JSON-RPC 2.0 specification.
pub const PARSE_ERROR: i32 = -32700;
pub const INVALID_REQUEST: i32 = -32600;
pub const METHOD_NOT_FOUND: i32 = -32601;
pub const INVALID_PARAMS: i32 = -32602;
pub const INTERNAL_ERROR: i32 = -32603;

/// Custom domain-specific error code (range -32000 to -32099).
pub const NOT_FOUND: i32 = -32000;

/// The protocol version every response carries.
pub open spec fn jsonrpc_version() -> Seq<char> {
    seq!['2', '.', '0']
}

/// The version text, `2.0`.
fn version_string() -> (r: String)
    ensures
        r@ == jsonrpc_version(),
{
    let v = "2.0";
    proof {
        reveal_strlit("2.0");
    }
    v.to_owned()
}

/// A response to a request: either its result or an error.
#[derive(Debug)]
pub enum Response<T> {
    Success(Success<T>),
    Error(Error),
}

impl<T> Response<T> {
    /// The identifier this response answers.
    pub open spec fn id_of(self) -> JsonValue {
        match self {
            Response::Success(s) => s.id,
            Response::Error(e) => e.id,
        }
    }

    /// The protocol version this response states.
    pub open spec fn version_of(self) -> Seq<char> {
        match self {
            Response::Success(s) => s.jsonrpc@,
            Response::Error(e) => e.jsonrpc@,
        }
    }

    pub fn success(result: T, id: JsonValue) -> (r: Self)
        ensures
            r matches Response::Success(s) && s.result == result && s.id == id
                && s.jsonrpc@ == jsonrpc_version(),
    {
        Response::Success(Success::new(result, id))
    }

    pub fn error(error: ErrorBody, id: JsonValue) -> (r: Self)
        ensures
            r matches Response::Error(e) && e.error == error && e.id == id
                && e.jsonrpc@ == jsonrpc_version(),
    {
        Response::Error(Error::new(error, id))
    }
}

/// A successful response.
#[derive(Debug)]
pub struct Success<T> {
    pub jsonrpc: String,
    pub result: T,
    pub id: JsonValue,
}

impl<T> Success<T> {
    pub fn new(result: T, id: JsonValue) -> (r: Self)
        ensures
            r.jsonrpc@ == jsonrpc_version(),
            r.result == result,
            r.id == id,
    {
        Success { jsonrpc: version_string(), result, id }
    }
}

/// An error response.
#[derive(Debug)]
pub struct Error {
    pub jsonrpc: String,
    pub error: ErrorBody,
    pub id: JsonValue,
}

impl Error {
    pub fn new(error: ErrorBody, id: JsonValue) -> (r: Self)
        ensures
            r.jsonrpc@ == jsonrpc_version(),
            r.error == error,
            r.id == id,
    {
        Error { jsonrpc: version_string(), error, id }
    }
}

/// The error object of an error response.
#[derive(Debug)]
pub struct ErrorBody {
    pub code: i32,
    pub message: String,
    pub data: Option<JsonValue>,
}

impl ErrorBody {
    /// This error has the given code and message, and no data.
    pub open spec fn states(self, code: i32, message: Seq<char>) -> bool {
        self.code == code && self.message@ == message && self.data is None
    }

    pub fn new(code: i32, message: &str) -> (r: Self)
        ensures
            r.code == code,
            r.message@ == message@,
            r.data is None,
    {
        ErrorBody { code, message: message.to_owned(), data: None }
    }

    pub fn with_data(self, data: JsonValue) -> (r: Self)
        ensures
            r.code == self.code,
            r.message == self.message,
            r.data == Some(data),
    {
        ErrorBody { data: Some(data), ..self }
    }
}

} // verus!
