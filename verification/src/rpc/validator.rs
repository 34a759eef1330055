//! Dispatch of a request to the validation of its method.

use vstd::prelude::*;
use crate::rpc::method::{invalid_method_message, method_named, Method, MethodHandler, MethodValidator};
use crate::rpc::request::Request;
use crate::rpc::response::{ErrorBody, METHOD_NOT_FOUND};
use crate::rpc::send_raw::{send_raw_result, SendRawTransaction};
use crate::rpc::transaction_status::{status_result, TransactionStatus};

verus! {

/// The result of validating a request: an unknown method is refused with
/// `METHOD_NOT_FOUND`; a known one gives what its own validation gives,
/// as the handler of that method.
pub open spec fn validation_result(request: Request, r: Result<MethodHandler, ErrorBody>) -> bool {
    match method_named(request.method@) {
        None => r matches Err(e) && e.states(METHOD_NOT_FOUND, invalid_method_message(request.method@)),
        Some(Method::SendRawTransaction) => match r {
            Ok(MethodHandler::SendRaw(s)) => send_raw_result(request.params, Ok(s)),
            Ok(_) => false,
            Err(e) => send_raw_result(request.params, Err(e)),
        },
        Some(Method::TransactionStatus) => match r {
            Ok(MethodHandler::TransactionStatus(s)) => status_result(request.params, Ok(s)),
            Ok(_) => false,
            Err(e) => status_result(request.params, Err(e)),
        },
    }
}

/// Validates requests against the methods the server answers.
pub struct Validator;

impl Validator {
    pub fn validate(request: &Request) -> (r: Result<MethodHandler, ErrorBody>)
        ensures
            validation_result(*request, r),
    {
        let method = match Method::try_from(request.method.clone()) {
            Ok(m) => m,
            Err(error) => return Err(ErrorBody::new(METHOD_NOT_FOUND, error.as_str())),
        };
        match method {
            Method::SendRawTransaction => match SendRawTransaction::validate(request) {
                Ok(s) => Ok(s.into()),
                Err(e) => Err(e),
            },
            Method::TransactionStatus => match TransactionStatus::validate(request) {
                Ok(s) => Ok(s.into()),
                Err(e) => Err(e),
            },
        }
    }
}

} // verus!
