//! The request handler of the server and the answer to unknown routes.

use vstd::prelude::*;
use crate::json::JsonValue;
use crate::rpc::method::MethodHandler;
use crate::rpc::request::Request;
use crate::rpc::response::{jsonrpc_version, ErrorBody, Response, INVALID_REQUEST};
use crate::rpc::validator::{validation_result, Validator};

verus! {

/// What the handler does with a request once it is validated.
#[derive(Debug)]
pub enum RequestStep {
    /// Answer at once with this response.
    Respond(Response<JsonValue>),
    /// Call the method with this handler, then answer the request with
    /// this identifier.
    Call(MethodHandler, JsonValue),
}

/// Handles a request up to the method call: a request that does not
/// validate is answered with the validation error under its own
/// identifier; a valid one is handed to its method.
pub fn request(req: Request) -> (r: RequestStep)
    ensures
        match r {
            RequestStep::Call(handler, id) => id == req.id
                && validation_result(req, Ok::<MethodHandler, ErrorBody>(handler)),
            RequestStep::Respond(Response::Error(e)) => e.id == req.id
                && e.jsonrpc@ == jsonrpc_version()
                && validation_result(req, Err::<MethodHandler, ErrorBody>(e.error)),
            RequestStep::Respond(Response::Success(_)) => false,
        },
{
    match Validator::validate(&req) {
        Ok(handler) => RequestStep::Call(handler, req.id),
        Err(error) => RequestStep::Respond(Response::error(error, req.id)),
    }
}

/// Answers a request with the outcome of its method call: the result, or
/// the error, under the request's identifier.
pub fn finish_request(id: JsonValue, outcome: Result<JsonValue, ErrorBody>) -> (r: Response<JsonValue>)
    ensures
        r.id_of() == id,
        r.version_of() == jsonrpc_version(),
        match outcome {
            Ok(v) => r matches Response::Success(s) && s.result == v,
            Err(e) => r matches Response::Error(x) && x.error == e,
        },
{
    match outcome {
        Ok(result) => Response::success(result, id),
        Err(error) => Response::error(error, id),
    }
}

/// The message for a route that does not exist.
pub open spec fn invalid_endpoint_message() -> Seq<char> {
    "Invalid request endpoint"@
}

/// The answer to a route that does not exist: an invalid-request error
/// under the identifier `0`.
pub fn not_found() -> (r: Response<JsonValue>)
    ensures
        r matches Response::Error(e) && e.error.states(INVALID_REQUEST, invalid_endpoint_message())
            && e.jsonrpc@ == jsonrpc_version() && (e.id matches JsonValue::Number(n) && n@ == seq!['0']),
{
    let zero = "0";
    proof {
        reveal_strlit("0");
    }
    Response::error(ErrorBody::new(-32600, "Invalid request endpoint"), JsonValue::number(zero))
}

} // verus!
