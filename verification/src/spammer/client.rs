//! The requests the load generator sends and how it reads the answers.

use vstd::prelude::*;
use crate::json::JsonValue;
use crate::spammer::method::Method;
use crate::text::concat;
use crate::rpc::envelope::{envelope_decode_failure, signer_recovery};

verus! {

/// The JSON-RPC method under which a submission method is called.
pub open spec fn rpc_method_of(m: Method) -> Seq<char> {
    match m {
        Method::Raw => "eth_sendRawTransaction"@,
        Method::Bundle => "eth_sendBundle"@,
        Method::Private => "eth_sendPrivateTransaction"@,
    }
}

/// The parameters of a submission: `[tx]`, or `[{"txs": [tx]}]` for a
/// bundle.
pub open spec fn params_hold(p: JsonValue, tx: Seq<char>, m: Method) -> bool {
    p matches JsonValue::Array(items) && items@.len() == 1 && match m {
        Method::Bundle => items@[0] matches JsonValue::Object(o) && o@.len() == 1
            && o@[0].0@ == "txs"@
            && (o@[0].1 matches JsonValue::Array(t) && t@.len() == 1 && t@[0].string_of() == Some(tx)),
        _ => items@[0].string_of() == Some(tx),
    }
}

/// The body of a submission: `{"jsonrpc": "2.0", "method": ..., "params":
/// ..., "id": 1}`.
pub open spec fn is_request_body(v: JsonValue, tx: Seq<char>, m: Method) -> bool {
    v matches JsonValue::Object(fields) && fields@.len() == 4
        && fields@[0].0@ == "jsonrpc"@ && fields@[0].1.string_of() == Some("2.0"@)
        && fields@[1].0@ == "method"@ && fields@[1].1.string_of() == Some(rpc_method_of(m))
        && fields@[2].0@ == "params"@ && params_hold(fields@[2].1, tx, m)
        && fields@[3].0@ == "id"@ && (fields@[3].1 matches JsonValue::Number(n) && n@ == "1"@)
}

/// The body that submits a transaction, given as hex text, by a method.
pub fn request_body(tx_hex: &str, method: &Method) -> (r: JsonValue)
    ensures
        is_request_body(r, tx_hex@, *method),
{
    let name = match method {
        Method::Raw => "eth_sendRawTransaction",
        Method::Bundle => "eth_sendBundle",
        Method::Private => "eth_sendPrivateTransaction",
    };
    let params = match method {
        Method::Bundle => JsonValue::Array(
            vec![JsonValue::Object(vec![("txs".to_owned(), JsonValue::Array(vec![JsonValue::from_text(tx_hex)]))])],
        ),
        _ => JsonValue::Array(vec![JsonValue::from_text(tx_hex)]),
    };
    JsonValue::Object(
        vec![
            ("jsonrpc".to_owned(), JsonValue::from_text("2.0")),
            ("method".to_owned(), JsonValue::from_text(name)),
            ("params".to_owned(), params),
            ("id".to_owned(), JsonValue::number("1")),
        ],
    )
}

/// How the load generator reads the answer to a submission: the body where
/// the status is a success (2xx), otherwise an error of the status and the
/// body, `<status>: <body>`.
pub fn send_outcome(success: bool, status: &str, body: String) -> (r: Result<String, String>)
    ensures
        success ==> r == Ok::<String, String>(body),
        !success ==> (r matches Err(m) && m@ == status@ + ": "@ + body@),
{
    if !success {
        let mut m = concat(status, ": ");
        m.append(body.as_str());
        return Err(m);
    }
    Ok(body)
}

/// The error of a submission that could not be sent.
pub fn send_failure(error: &str) -> (r: String)
    ensures
        r@ == "Failed to send transaction: "@ + error@,
{
    concat("Failed to send transaction: ", error)
}

/// Of the load generator's submissions the server answers only the raw
/// ones: `eth_sendRawTransaction` is the server's own method, while bundles
/// and private submissions name methods the server does not know, so they
/// are refused (with `METHOD_NOT_FOUND`, or by the method layer in front).
pub proof fn lemma_server_answers_only_raw_submissions()
    ensures
        crate::rpc::method::method_named(rpc_method_of(Method::Raw))
            == Some(crate::rpc::method::Method::SendRawTransaction),
        crate::rpc::method::method_named(rpc_method_of(Method::Bundle)) is None,
        crate::rpc::method::method_named(rpc_method_of(Method::Private)) is None,
        !crate::rpc::middleware::supported_methods().contains(rpc_method_of(Method::Bundle)),
        !crate::rpc::middleware::supported_methods().contains(rpc_method_of(Method::Private)),
{
    reveal_strlit("eth_sendRawTransaction");
    reveal_strlit("project_transactionStatus");
    reveal_strlit("eth_sendBundle");
    reveal_strlit("eth_sendPrivateTransaction");
    let raw = "eth_sendRawTransaction"@;
    let status = "project_transactionStatus"@;
    let bundle = "eth_sendBundle"@;
    let private = "eth_sendPrivateTransaction"@;
    assert(raw.len() == 22);
    assert(status.len() == 25);
    assert(bundle.len() == 14);
    assert(private.len() == 26);
    assert(bundle != raw);
    assert(bundle != status);
    assert(private != raw);
    assert(private != status);
    crate::rpc::middleware::lemma_supported_iff_answered(bundle);
    crate::rpc::middleware::lemma_supported_iff_answered(private);
}

/// A raw submission of bytes `e`, sent as `0x` and their hex, reaches the
/// server's transaction decoder with exactly `e`: its parameters and its
/// hex always pass, and validation either accepts a transaction decoded
/// from `e` or fails with the decoder's or the signer recovery's message.
pub proof fn lemma_raw_submission_decodes_to_sent_bytes(body: JsonValue, e: Seq<u8>)
    requires
        is_request_body(body, crate::hex::prefixed_hex(e), Method::Raw),
    ensures
        body matches JsonValue::Object(fields) && ({
            let outcome = crate::rpc::send_raw::raw_transaction_outcome(fields@[2].1);
            &&& outcome matches Ok((_, bytes, _)) ==> bytes == e
            &&& outcome matches Err(m) ==> (envelope_decode_failure(e) == Some(m)
                || signer_recovery(e) == Err::<Seq<u8>, Seq<char>>(m))
        }),
{
    crate::hex::lemma_prefixed_hex_roundtrip(e);
}

} // verus!
