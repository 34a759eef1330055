//! `project_transactionStatus`: reports the status of a stored transaction.

use vstd::prelude::*;
use vstd::std_specs::convert::FromSpecImpl;
use crate::database::{DatabaseError, TransactionModel};
use crate::json::JsonValue;
use crate::rpc::method::{first_string_param, params_first_string, MethodHandler, MethodValidator};
use crate::rpc::request::Request;
use crate::rpc::response::{ErrorBody, INTERNAL_ERROR, INVALID_PARAMS};
use crate::rpc::send_raw::internal_error_message;
use crate::text::{lowercase_text, to_lowercase};

verus! {

/// The message for parameters that are no array.
pub open spec fn status_not_array() -> Seq<char> {
    "Invalid param type for project_transactionStatus"@
}

/// What validating `project_transactionStatus` parameters gives: the hash
/// to look up, lower-cased, or the message of the failed check.
pub open spec fn status_query(params: JsonValue) -> Result<Seq<char>, Seq<char>> {
    match params_first_string(params, status_not_array()) {
        Ok(hash) => Ok(lowercase_text(hash)),
        Err(m) => Err(m),
    }
}

/// A validated `project_transactionStatus` request.
#[derive(Debug)]
pub struct TransactionStatus {
    hash: String,
}

impl TransactionStatus {
    /// The identifier under which the transaction is looked up.
    pub closed spec fn lookup_key(self) -> Seq<char> {
        self.hash@
    }

    /// The identifier under which the transaction is looked up.
    pub fn hash(&self) -> (r: &String)
        ensures
            r@ == self.lookup_key(),
    {
        &self.hash
    }

    /// The answer to a lookup: the stored status as a JSON string, or an
    /// internal error whatever went wrong.
    pub fn reply(found: Result<TransactionModel, DatabaseError>) -> (r: Result<JsonValue, ErrorBody>)
        ensures
            match found {
                Ok(m) => r matches Ok(v) && v.string_of() == Some(m.status@),
                Err(_) => r matches Err(e) && e.states(INTERNAL_ERROR, internal_error_message()),
            },
    {
        match found {
            Ok(m) => Ok(JsonValue::from_text(m.status.as_str())),
            Err(_) => Err(ErrorBody::new(INTERNAL_ERROR, "Internal server error")),
        }
    }
}

/// The result of validation is what `status_query` describes.
pub open spec fn status_result(params: JsonValue, r: Result<TransactionStatus, ErrorBody>) -> bool {
    match status_query(params) {
        Ok(key) => r matches Ok(s) && s.lookup_key() == key,
        Err(m) => r matches Err(e) && e.states(INVALID_PARAMS, m),
    }
}

impl MethodValidator for TransactionStatus {
    fn validate(request: &Request) -> (r: Result<Self, ErrorBody>)
        ensures
            status_result(request.params, r),
    {
        let hash = match first_string_param(
            &request.params,
            "Invalid param type for project_transactionStatus",
        ) {
            Ok(h) => h,
            Err(e) => return Err(e),
        };
        Ok(TransactionStatus { hash: to_lowercase(hash.as_str()) })
    }
}

impl From<TransactionStatus> for MethodHandler {
    fn from(v: TransactionStatus) -> (r: Self)
        ensures
            r == MethodHandler::TransactionStatus(v),
    {
        MethodHandler::TransactionStatus(v)
    }
}

impl FromSpecImpl<TransactionStatus> for MethodHandler {
    open spec fn obeys_from_spec() -> bool {
        true
    }

    open spec fn from_spec(v: TransactionStatus) -> Self {
        MethodHandler::TransactionStatus(v)
    }
}

/// A status request finds a transaction stored under `0x` and the lowercase
/// hex of its hash (the identifier `SendRawTransaction::record` gives) when
/// it names that hash in any ASCII case.
pub proof fn lemma_status_finds_stored_id(params: JsonValue, hash: Seq<u8>)
    requires
        params_first_string(params, status_not_array()) matches Ok(h)
            && vstd::utf8::is_ascii_chars(h)
            && crate::text::ascii_lower(h) == crate::hex::prefixed_hex(hash),
    ensures
        status_query(params) == Ok::<Seq<char>, Seq<char>>(crate::hex::prefixed_hex(hash)),
{
}

/// Two status requests whose hashes differ only in ASCII case look up the
/// same transaction.
pub proof fn lemma_status_ignores_ascii_case(p1: JsonValue, p2: JsonValue)
    requires
        params_first_string(p1, status_not_array()) matches Ok(h1) && vstd::utf8::is_ascii_chars(h1),
        params_first_string(p2, status_not_array()) matches Ok(h2) && vstd::utf8::is_ascii_chars(h2),
        crate::text::ascii_lower(params_first_string(p1, status_not_array())->Ok_0)
            == crate::text::ascii_lower(params_first_string(p2, status_not_array())->Ok_0),
    ensures
        status_query(p1) == status_query(p2),
{
}

} // verus!
