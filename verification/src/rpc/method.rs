//! The JSON-RPC methods the server answers, and the handlers that validated
//! requests become.

use vstd::prelude::*;
use vstd::std_specs::convert::TryFromSpecImpl;
use crate::json::JsonValue;
use crate::rpc::request::Request;
use crate::rpc::response::{ErrorBody, INVALID_PARAMS};
use crate::rpc::send_raw::SendRawTransaction;
use crate::rpc::transaction_status::TransactionStatus;

verus! {

/// The name of the method that submits a raw transaction.
pub open spec fn send_raw_method_name() -> Seq<char> {
    "eth_sendRawTransaction"@
}

/// The name of the method that reports a transaction's status.
pub open spec fn status_method_name() -> Seq<char> {
    "project_transactionStatus"@
}

/// The method answered under a name, if any.
pub open spec fn method_named(name: Seq<char>) -> Option<Method> {
    if name == send_raw_method_name() {
        Some(Method::SendRawTransaction)
    } else if name == status_method_name() {
        Some(Method::TransactionStatus)
    } else {
        None
    }
}

/// The message for a method name that is not answered.
pub open spec fn invalid_method_message(name: Seq<char>) -> Seq<char> {
    "Invalid method: "@ + name
}

/// The methods the server answers.
#[derive(Debug, PartialEq, Eq, Structural)]
pub enum Method {
    SendRawTransaction,
    TransactionStatus,
}

impl Method {
    /// The name under which a method is called.
    pub open spec fn name_of(self) -> Seq<char> {
        match self {
            Method::SendRawTransaction => send_raw_method_name(),
            Method::TransactionStatus => status_method_name(),
        }
    }
}

impl TryFrom<String> for Method {
    type Error = String;

    fn try_from(value: String) -> (r: Result<Self, Self::Error>)
        ensures
            match method_named(value@) {
                Some(m) => r == Ok::<Method, String>(m),
                None => r matches Err(e) && e@ == invalid_method_message(value@),
            },
    {
        let send_raw = "eth_sendRawTransaction".to_owned();
        let status = "project_transactionStatus".to_owned();
        if value == send_raw {
            Ok(Method::SendRawTransaction)
        } else if value == status {
            Ok(Method::TransactionStatus)
        } else {
            Err(crate::text::concat("Invalid method: ", value.as_str()))
        }
    }
}

/// Verus's specification of `TryFrom` asks every impl for this spec form.
/// The error that `try_from` returns is a `String`, which no spec value can
/// equal exactly (a string is known here only by its text), so the form is
/// declared not obeyed and leaves the error unspecified; what `try_from`
/// returns, error text included, is the `ensures` of the impl above.
impl TryFromSpecImpl<String> for Method {
    open spec fn obeys_try_from_spec() -> bool {
        false
    }

    open spec fn try_from_spec(v: String) -> Result<Self, String> {
        match method_named(v@) {
            Some(m) => Ok(m),
            None => Err(vstd::pervasive::arbitrary()),
        }
    }
}

/// Validation of a request into the handler of one method.
pub trait MethodValidator: Sized {
    /// Validates a request's parameters.
    fn validate(request: &Request) -> Result<Self, ErrorBody>;
}

/// The handler of a validated request, one variant per method.
#[derive(Debug)]
pub enum MethodHandler {
    SendRaw(SendRawTransaction),
    TransactionStatus(TransactionStatus),
}

/// The first parameter of a request as a string: the parameters must be an
/// array whose first element is a string; otherwise the message says why
/// not, with `not_array` where the parameters are no array.
pub open spec fn params_first_string(params: JsonValue, not_array: Seq<char>) -> Result<Seq<char>, Seq<char>> {
    match params {
        JsonValue::Array(items) => if items@.len() == 0 {
            Err("Invalid parameter type: empty array"@)
        } else {
            match items@[0] {
                JsonValue::String(s) => Ok(s@),
                _ => Err("Invalid parameter type: expected string"@),
            }
        },
        _ => Err(not_array),
    }
}

/// Reads the first parameter of a request as a string, or gives the
/// invalid-parameters error that `params_first_string` describes.
pub(crate) fn first_string_param(params: &JsonValue, not_array: &str) -> (r: Result<String, ErrorBody>)
    ensures
        match params_first_string(*params, not_array@) {
            Ok(s) => r matches Ok(t) && t@ == s,
            Err(m) => r matches Err(e) && e.states(INVALID_PARAMS, m),
        },
{
    match params {
        JsonValue::Array(items) => {
            if items.len() == 0 {
                Err(ErrorBody::new(INVALID_PARAMS, "Invalid parameter type: empty array"))
            } else {
                match &items[0] {
                    JsonValue::String(s) => Ok(s.clone()),
                    _ => Err(ErrorBody::new(INVALID_PARAMS, "Invalid parameter type: expected string")),
                }
            }
        },
        _ => Err(ErrorBody::new(INVALID_PARAMS, not_array)),
    }
}

} // verus!
