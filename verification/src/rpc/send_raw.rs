//! `eth_sendRawTransaction`: accepts a signed transaction for processing.

use vstd::prelude::*;
use vstd::std_specs::convert::FromSpecImpl;
use crate::database::{received, status_received, TransactionModel};
use crate::hex::{decode_hex, hex_decoding, lemma_hex_encoding_shape, lemma_prefixed_hex_lowercase, prefixed_hex};
use crate::json::JsonValue;
use crate::rpc::envelope::{
    address_text, decode_transaction, envelope_decode_failure, hash_bytes, hash_text,
    recover_signer, signer_recovery, transaction_hash, SignedTransaction,
};
use crate::rpc::method::{first_string_param, params_first_string, MethodHandler, MethodValidator};
use crate::rpc::request::Request;
use crate::rpc::response::{ErrorBody, INTERNAL_ERROR, INVALID_PARAMS};
use crate::text::{lowercase_text, to_lowercase};

verus! {

/// The message for parameters that are no array.
pub open spec fn send_raw_not_array() -> Seq<char> {
    "Invalid param type for eth_sendRawTransaction"@
}

/// The message for a raw transaction that is no hexadecimal text.
pub open spec fn invalid_hex_message() -> Seq<char> {
    "Invalid transaction hex"@
}

/// The message of a failed storage or lookup.
pub open spec fn internal_error_message() -> Seq<char> {
    "Internal server error"@
}

/// What validating `eth_sendRawTransaction` parameters gives: the raw
/// transaction text lower-cased, the bytes it decodes to and the address of
/// the signer; or the message of the first check that fails. The checks, in
/// order: the first parameter is a string, it is hexadecimal, its bytes
/// decode to a transaction envelope, and the signer can be recovered.
pub open spec fn raw_transaction_outcome(params: JsonValue) -> Result<(Seq<char>, Seq<u8>, Seq<u8>), Seq<char>> {
    match params_first_string(params, send_raw_not_array()) {
        Err(m) => Err(m),
        Ok(text) => match hex_decoding(vstd::utf8::encode_utf8(text)) {
            None => Err(invalid_hex_message()),
            Some(bytes) => match envelope_decode_failure(bytes) {
                Some(m) => Err(m),
                None => match signer_recovery(bytes) {
                    Err(m) => Err(m),
                    Ok(signer) => Ok((lowercase_text(text), bytes, signer)),
                },
            },
        },
    }
}

/// A validated `eth_sendRawTransaction` request.
#[derive(Debug)]
pub struct SendRawTransaction {
    raw_transaction: String,
    envelope: SignedTransaction,
    signer: Vec<u8>,
}

impl SendRawTransaction {
    #[verifier::type_invariant]
    spec fn well_formed(self) -> bool {
        self.signer@.len() == 20
    }

    /// The raw transaction text, lower-cased.
    pub closed spec fn raw_text(self) -> Seq<char> {
        self.raw_transaction@
    }

    /// The bytes the transaction was decoded from.
    pub closed spec fn source(self) -> Seq<u8> {
        self.envelope@
    }

    /// The address of the signer.
    pub closed spec fn signer_address(self) -> Seq<u8> {
        self.signer@
    }

    /// This transaction is what validating these parameters gives.
    pub open spec fn accepted(self, params: JsonValue) -> bool {
        raw_transaction_outcome(params) == Ok::<(Seq<char>, Seq<u8>, Seq<u8>), Seq<char>>(
            (self.raw_text(), self.source(), self.signer_address()),
        )
    }

    /// The row stored for this transaction: `0x` and the lowercase hex of
    /// its hash, `0x` and the lowercase hex of its signer, the raw text, and
    /// the status `Received`.
    pub fn record(self) -> (r: TransactionModel)
        ensures
            transaction_hash(self.source()).len() == 32,
            self.signer_address().len() == 20,
            r.id@ == prefixed_hex(transaction_hash(self.source())),
            r.id@.len() == 66,
            r.signer@ == prefixed_hex(self.signer_address()),
            r.signer@.len() == 42,
            r.raw_transaction@ == self.raw_text(),
            r.status@ == status_received(),
    {
        proof {
            use_type_invariant(&self);
        }
        let hash = hash_bytes(&self.envelope);
        let hash_display = hash_text(hash.as_slice());
        proof {
            lemma_prefixed_hex_lowercase(hash@);
            lemma_hex_encoding_shape(hash@);
            lemma_hex_encoding_shape(self.signer@);
            lemma_prefixed_hex_lowercase(self.signer@);
        }
        let id = to_lowercase(hash_display.as_str());
        let signer_display = address_text(self.signer.as_slice());
        let signer = to_lowercase(signer_display.as_str());
        TransactionModel { id, signer, raw_transaction: self.raw_transaction, status: received() }
    }

    /// What follows the insert of the row, by whether it was stored: a
    /// stored row is announced on the notification channel once and then
    /// answered with its hash as a JSON string (a failed announcement does
    /// not change the answer); a row that was not stored is answered with an
    /// internal error, and nothing is announced.
    pub fn after_insert(record: &TransactionModel, stored: bool) -> (r: AfterInsert)
        ensures
            stored ==> (r matches AfterInsert::NotifyThenReply(v) && v.string_of() == Some(record.id@)),
            !stored ==> (r matches AfterInsert::Reply(e) && e.states(INTERNAL_ERROR, internal_error_message())),
    {
        if stored {
            AfterInsert::NotifyThenReply(JsonValue::from_text(record.id.as_str()))
        } else {
            AfterInsert::Reply(ErrorBody::new(INTERNAL_ERROR, "Internal server error"))
        }
    }
}

/// What the handler of `eth_sendRawTransaction` does once the insert of the
/// row has answered.
#[derive(Debug)]
pub enum AfterInsert {
    /// Send one notification, then answer with this result.
    NotifyThenReply(JsonValue),
    /// Answer with this error, without a notification.
    Reply(ErrorBody),
}

/// The result of validation is what `raw_transaction_outcome` describes.
pub open spec fn send_raw_result(params: JsonValue, r: Result<SendRawTransaction, ErrorBody>) -> bool {
    match raw_transaction_outcome(params) {
        Ok(_) => r matches Ok(s) && s.accepted(params),
        Err(m) => r matches Err(e) && e.states(INVALID_PARAMS, m),
    }
}

/// Raw transaction text is read without regard to ASCII case: two
/// submissions whose texts differ only in the case of their letters are
/// validated alike, to the same stored text.
pub proof fn lemma_raw_transaction_ignores_case(p1: JsonValue, p2: JsonValue)
    requires
        params_first_string(p1, send_raw_not_array()) matches Ok(t1) && vstd::utf8::is_ascii_chars(t1),
        params_first_string(p2, send_raw_not_array()) matches Ok(t2) && vstd::utf8::is_ascii_chars(t2),
        crate::text::ascii_lower(params_first_string(p1, send_raw_not_array())->Ok_0)
            == crate::text::ascii_lower(params_first_string(p2, send_raw_not_array())->Ok_0),
    ensures
        raw_transaction_outcome(p1) == raw_transaction_outcome(p2),
{
    let t1 = params_first_string(p1, send_raw_not_array())->Ok_0;
    let t2 = params_first_string(p2, send_raw_not_array())->Ok_0;
    crate::hex::lemma_hex_decoding_ignores_case(t1, t2);
}

impl MethodValidator for SendRawTransaction {
    fn validate(request: &Request) -> (r: Result<Self, ErrorBody>)
        ensures
            send_raw_result(request.params, r),
    {
        let raw_transaction = match first_string_param(
            &request.params,
            "Invalid param type for eth_sendRawTransaction",
        ) {
            Ok(t) => t,
            Err(e) => return Err(e),
        };
        let bytes = match decode_hex(raw_transaction.as_str()) {
            Some(b) => b,
            None => return Err(ErrorBody::new(INVALID_PARAMS, "Invalid transaction hex")),
        };
        let envelope = match decode_transaction(bytes.as_slice()) {
            Ok(tx) => tx,
            Err(m) => return Err(ErrorBody::new(INVALID_PARAMS, m.as_str())),
        };
        let signer = match recover_signer(&envelope) {
            Ok(a) => a,
            Err(m) => return Err(ErrorBody::new(INVALID_PARAMS, m.as_str())),
        };
        Ok(SendRawTransaction { raw_transaction: to_lowercase(raw_transaction.as_str()), envelope, signer })
    }
}

impl From<SendRawTransaction> for MethodHandler {
    fn from(v: SendRawTransaction) -> (r: Self)
        ensures
            r == MethodHandler::SendRaw(v),
    {
        MethodHandler::SendRaw(v)
    }
}

impl FromSpecImpl<SendRawTransaction> for MethodHandler {
    open spec fn obeys_from_spec() -> bool {
        true
    }

    open spec fn from_spec(v: SendRawTransaction) -> Self {
        MethodHandler::SendRaw(v)
    }
}

} // verus!
