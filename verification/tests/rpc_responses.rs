use rpc_gateway::json::JsonValue;
use rpc_gateway::rpc::handlers::{finish_request, not_found, request, RequestStep};
use rpc_gateway::rpc::method::MethodHandler;
use rpc_gateway::rpc::middleware::{
    create_response, BodyCheck, Gate, JsonGate, JsonValidationLayer, JsonValidator, MethodValidationLayer,
    MethodValidator,
};
use rpc_gateway::rpc::request::Request;
use rpc_gateway::rpc::response::{
    ErrorBody, Response, Success, INTERNAL_ERROR, INVALID_PARAMS, INVALID_REQUEST, METHOD_NOT_FOUND, NOT_FOUND,
    PARSE_ERROR,
};

fn req(method: &str, params: JsonValue, id: JsonValue) -> Request {
    Request { jsonrpc: "2.0".to_string(), method: method.to_string(), params, id }
}

#[test]
fn error_codes() {
    assert_eq!(PARSE_ERROR, -32700);
    assert_eq!(INVALID_REQUEST, -32600);
    assert_eq!(METHOD_NOT_FOUND, -32601);
    assert_eq!(INVALID_PARAMS, -32602);
    assert_eq!(INTERNAL_ERROR, -32603);
    assert_eq!(NOT_FOUND, -32000);
}

#[test]
fn error_body_new_and_with_data() {
    let e = ErrorBody::new(-32602, "bad");
    assert_eq!(e.code, -32602);
    assert_eq!(e.message, "bad");
    assert!(e.data.is_none());
    let e = e.with_data(JsonValue::Bool(true));
    assert_eq!(e.code, -32602);
    assert_eq!(e.message, "bad");
    assert!(matches!(e.data, Some(JsonValue::Bool(true))));
}

#[test]
fn success_and_error_responses_carry_version_and_id() {
    let s = Success::new(5u32, JsonValue::Number("3".to_string()));
    assert_eq!(s.jsonrpc, "2.0");
    assert_eq!(s.result, 5);
    match Response::<u32>::success(9, JsonValue::Null) {
        Response::Success(s) => {
            assert_eq!(s.jsonrpc, "2.0");
            assert_eq!(s.result, 9);
            assert!(matches!(s.id, JsonValue::Null));
        }
        _ => panic!("expected success"),
    }
    match Response::<u32>::error(ErrorBody::new(1, "x"), JsonValue::String("a".to_string())) {
        Response::Error(e) => {
            assert_eq!(e.jsonrpc, "2.0");
            assert_eq!(e.error.message, "x");
            assert!(matches!(e.id, JsonValue::String(ref s) if s == "a"));
        }
        _ => panic!("expected error"),
    }
}

#[test]
fn not_found_response() {
    match not_found() {
        Response::Error(e) => {
            assert_eq!(e.jsonrpc, "2.0");
            assert_eq!(e.error.code, -32600);
            assert_eq!(e.error.message, "Invalid request endpoint");
            assert!(matches!(e.id, JsonValue::Number(ref n) if n == "0"));
        }
        _ => panic!("expected error"),
    }
}

#[test]
fn create_response_is_invalid_request_with_null_id() {
    match create_response("Unsupported method: foo") {
        Response::Error(e) => {
            assert_eq!(e.jsonrpc, "2.0");
            assert_eq!(e.error.code, INVALID_REQUEST);
            assert_eq!(e.error.message, "Unsupported method: foo");
            assert!(e.error.data.is_none());
            assert!(matches!(e.id, JsonValue::Null));
        }
        _ => panic!("expected error"),
    }
}

#[test]
fn request_with_unknown_method_is_answered_with_its_id() {
    match request(req("eth_call", JsonValue::Array(vec![]), JsonValue::Number("42".to_string()))) {
        RequestStep::Respond(Response::Error(e)) => {
            assert_eq!(e.error.code, METHOD_NOT_FOUND);
            assert_eq!(e.error.message, "Invalid method: eth_call");
            assert!(matches!(e.id, JsonValue::Number(ref n) if n == "42"));
        }
        other => panic!("unexpected {:?}", other),
    }
}

#[test]
fn request_with_valid_status_call_is_handed_on() {
    let params = JsonValue::Array(vec![JsonValue::String("0xAB".to_string())]);
    match request(req("project_transactionStatus", params, JsonValue::String("id-1".to_string()))) {
        RequestStep::Call(MethodHandler::TransactionStatus(s), id) => {
            assert_eq!(s.hash(), "0xab");
            assert!(matches!(id, JsonValue::String(ref x) if x == "id-1"));
        }
        other => panic!("unexpected {:?}", other),
    }
}

#[test]
fn finish_request_uses_id_for_both_outcomes() {
    match finish_request(JsonValue::Number("1".to_string()), Ok(JsonValue::String("Received".to_string()))) {
        Response::Success(s) => {
            assert_eq!(s.jsonrpc, "2.0");
            assert!(matches!(s.result, JsonValue::String(ref x) if x == "Received"));
            assert!(matches!(s.id, JsonValue::Number(ref n) if n == "1"));
        }
        _ => panic!("expected success"),
    }
    match finish_request(JsonValue::Null, Err(ErrorBody::new(INTERNAL_ERROR, "Internal server error"))) {
        Response::Error(e) => {
            assert_eq!(e.error.code, INTERNAL_ERROR);
            assert!(matches!(e.id, JsonValue::Null));
        }
        _ => panic!("expected error"),
    }
}

#[test]
fn json_layer_passes_non_post() {
    assert!(matches!(JsonValidator::<u8>::check(false, BodyCheck::Invalid), JsonGate::PassThrough));
    assert!(matches!(JsonValidator::<u8>::check(false, BodyCheck::Unreadable), JsonGate::PassThrough));
}

#[test]
fn json_layer_on_post() {
    match JsonValidator::<u8>::check(true, BodyCheck::Unreadable) {
        JsonGate::Reject(m) => assert_eq!(m, "Failed to read request body"),
        other => panic!("unexpected {:?}", other),
    }
    match JsonValidator::<u8>::check(true, BodyCheck::Invalid) {
        JsonGate::Reject(m) => assert_eq!(m, "Invalid JSON-RPC request"),
        other => panic!("unexpected {:?}", other),
    }
    let parsed = req("eth_sendRawTransaction", JsonValue::Null, JsonValue::Null);
    match JsonValidator::<u8>::check(true, BodyCheck::Parsed(parsed)) {
        JsonGate::Forward(r) => assert_eq!(r.method, "eth_sendRawTransaction"),
        other => panic!("unexpected {:?}", other),
    }
}

#[test]
fn method_layer_forwards_supported_methods() {
    for m in ["eth_sendRawTransaction", "project_transactionStatus"] {
        let r = req(m, JsonValue::Null, JsonValue::Null);
        assert!(matches!(MethodValidator::<u8>::check(Some(&r)), Gate::Forward));
    }
}

#[test]
fn method_layer_rejects_others() {
    let r = req("eth_sendBundle", JsonValue::Null, JsonValue::Null);
    match MethodValidator::<u8>::check(Some(&r)) {
        Gate::Reject(m) => assert_eq!(m, "Unsupported method: eth_sendBundle"),
        other => panic!("unexpected {:?}", other),
    }
    match MethodValidator::<u8>::check(None) {
        Gate::Reject(m) => assert_eq!(m, "Internal server error"),
        other => panic!("unexpected {:?}", other),
    }
}

#[test]
fn layers_wrap_inner_service() {
    let j = JsonValidationLayer.layer(5u8);
    assert_eq!(*j.inner(), 5);
    let m = MethodValidationLayer.layer("svc");
    assert_eq!(*m.inner(), "svc");
}
