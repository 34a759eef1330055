//! The layers in front of the request handler: the first checks that a POST
//! body is a JSON-RPC request, the second that the request names a method
//! the server answers. Either answers a refused request itself.

use vstd::prelude::*;
use crate::json::JsonValue;
use crate::rpc::method::{send_raw_method_name, status_method_name};
use crate::rpc::request::Request;
use crate::rpc::response::{jsonrpc_version, ErrorBody, Response, INVALID_REQUEST};
use crate::rpc::send_raw::internal_error_message;
use crate::text::concat;

verus! {

/// The response a layer gives to a refused request: an invalid-request
/// error with this message and a null identifier.
pub fn create_response(message: &str) -> (r: Response<JsonValue>)
    ensures
        r matches Response::Error(e) && e.error.states(INVALID_REQUEST, message@)
            && e.id is Null && e.jsonrpc@ == jsonrpc_version(),
{
    Response::error(ErrorBody::new(-32600, message), JsonValue::Null)
}

/// The methods the method layer lets through.
pub open spec fn supported_methods() -> Seq<Seq<char>> {
    seq![send_raw_method_name(), status_method_name()]
}

/// What a layer does with a request.
#[derive(Debug)]
pub enum Gate {
    /// Hand the request on unchanged.
    Forward,
    /// Answer with `create_response` of this message.
    Reject(String),
}

/// What the JSON layer does with a request.
#[derive(Debug)]
pub enum JsonGate {
    /// Hand on a request that is not a POST, without reading its body.
    PassThrough,
    /// Hand on the request together with its parsed JSON-RPC form.
    Forward(Request),
    /// Answer with `create_response` of this message.
    Reject(String),
}

/// The body of a POST request, as far as it could be read.
#[derive(Debug)]
pub enum BodyCheck {
    /// The body could not be read.
    Unreadable,
    /// The body was read but is not a JSON-RPC request.
    Invalid,
    /// The body parsed as this JSON-RPC request.
    Parsed(Request),
}

/// The message for a body that could not be read.
pub open spec fn unreadable_body_message() -> Seq<char> {
    "Failed to read request body"@
}

/// The message for a body that is not a JSON-RPC request.
pub open spec fn invalid_request_message() -> Seq<char> {
    "Invalid JSON-RPC request"@
}

/// The message for a method the server does not answer.
pub open spec fn unsupported_method_message(method: Seq<char>) -> Seq<char> {
    "Unsupported method: "@ + method
}

/// Builds the JSON validation layer.
#[derive(Clone, Copy)]
pub struct JsonValidationLayer;

impl JsonValidationLayer {
    pub fn layer<S>(&self, inner: S) -> (r: JsonValidator<S>)
        ensures
            r.inner_service() == inner,
    {
        JsonValidator { inner }
    }
}

/// The JSON validation layer around an inner service.
pub struct JsonValidator<S> {
    inner: S,
}

impl<S> JsonValidator<S> {
    /// The service requests are handed on to.
    pub closed spec fn inner_service(&self) -> S {
        self.inner
    }

    /// The service requests are handed on to.
    pub fn inner(&self) -> (r: &S)
        ensures
            *r == self.inner_service(),
    {
        &self.inner
    }

    /// Decides on a request: anything but a POST passes untouched; a POST
    /// whose body parses as a JSON-RPC request is handed on with it; any
    /// other POST is refused. The body is only read for a POST.
    pub fn check(is_post: bool, body: BodyCheck) -> (r: JsonGate)
        ensures
            !is_post ==> r is PassThrough,
            is_post ==> match body {
                BodyCheck::Unreadable => r matches JsonGate::Reject(m) && m@ == unreadable_body_message(),
                BodyCheck::Invalid => r matches JsonGate::Reject(m) && m@ == invalid_request_message(),
                BodyCheck::Parsed(req) => r == JsonGate::Forward(req),
            },
    {
        if !is_post {
            return JsonGate::PassThrough;
        }
        match body {
            BodyCheck::Unreadable => JsonGate::Reject("Failed to read request body".to_owned()),
            BodyCheck::Invalid => JsonGate::Reject("Invalid JSON-RPC request".to_owned()),
            BodyCheck::Parsed(request) => JsonGate::Forward(request),
        }
    }
}

/// Builds the method validation layer.
#[derive(Clone, Copy)]
pub struct MethodValidationLayer;

impl MethodValidationLayer {
    pub fn layer<S>(&self, inner: S) -> (r: MethodValidator<S>)
        ensures
            r.inner_service() == inner,
    {
        MethodValidator { inner }
    }
}

/// The method validation layer around an inner service.
pub struct MethodValidator<S> {
    inner: S,
}

impl<S> MethodValidator<S> {
    /// The service requests are handed on to.
    pub closed spec fn inner_service(&self) -> S {
        self.inner
    }

    /// The service requests are handed on to.
    pub fn inner(&self) -> (r: &S)
        ensures
            *r == self.inner_service(),
    {
        &self.inner
    }

    /// Decides on a request by the JSON-RPC form the JSON layer attached:
    /// without one the server is misconfigured; a method outside
    /// `supported_methods` is refused; any other request is handed on.
    pub fn check(request: Option<&Request>) -> (r: Gate)
        ensures
            match request {
                None => r matches Gate::Reject(m) && m@ == internal_error_message(),
                Some(req) => if supported_methods().contains(req.method@) {
                    r is Forward
                } else {
                    r matches Gate::Reject(m) && m@ == unsupported_method_message(req.method@)
                },
            },
    {
        match request {
            None => Gate::Reject("Internal server error".to_owned()),
            Some(req) => {
                let supported = vec![
                    "eth_sendRawTransaction".to_owned(),
                    "project_transactionStatus".to_owned(),
                ];
                let mut i: usize = 0;
                while i < supported.len()
                    invariant
                        i <= supported.len(),
                        request == Some(req),
                        supported@.len() == 2,
                        supported@[0]@ == send_raw_method_name(),
                        supported@[1]@ == status_method_name(),
                        forall|j: int| 0 <= j < i ==> supported@[j]@ != req.method@,
                    decreases supported.len() - i,
                {
                    if supported[i] == req.method {
                        proof {
                            if i == 0 {
                                assert(supported_methods()[0] == req.method@);
                            } else {
                                assert(supported_methods()[1] == req.method@);
                            }
                            assert(supported_methods().contains(req.method@));
                        }
                        return Gate::Forward;
                    }
                    i = i + 1;
                }
                proof {
                    assert forall|j: int| 0 <= j < supported_methods().len()
                        implies supported_methods()[j] != req.method@ by {
                        assert(supported@[j]@ != req.method@);
                        if j == 0 {
                            assert(supported_methods()[0] == supported@[0]@);
                        } else {
                            assert(supported_methods()[1] == supported@[1]@);
                        }
                    }
                }
                Gate::Reject(concat("Unsupported method: ", req.method.as_str()))
            },
        }
    }
}

/// The method layer lets through exactly the methods the server answers:
/// a name is supported if and only if `Method::try_from` accepts it.
pub proof fn lemma_supported_iff_answered(name: Seq<char>)
    ensures
        supported_methods().contains(name) <==> crate::rpc::method::method_named(name) is Some,
{
    if crate::rpc::method::method_named(name) is Some {
        if name == send_raw_method_name() {
            assert(supported_methods()[0] == name);
        } else {
            assert(supported_methods()[1] == name);
        }
    }
}

} // verus!
