use alloy::consensus::{SignableTransaction, TxEip1559};
use alloy::eips::eip2718::Encodable2718;
use alloy::primitives::TxKind;
use alloy::signers::SignerSync;
use alloy::network::NetworkWallet;
use rpc_gateway::json::JsonValue;
use rpc_gateway::rpc::response::METHOD_NOT_FOUND;
use rpc_gateway::rpc::validator::Validator;
use rpc_gateway::rpc::method::MethodValidator;
use rpc_gateway::rpc::request::Request;
use rpc_gateway::rpc::send_raw::SendRawTransaction;
use rpc_gateway::spammer::client::{request_body, send_failure, send_outcome};
use rpc_gateway::spammer::config::{private_key_texts, Config};
use rpc_gateway::spammer::method::Method;
use rpc_gateway::spammer::random::{pick_delay_ms, pick_method, pick_signer, random_payload};
use rpc_gateway::spammer::transaction::{create_transaction, transaction_hex, UnsignedTransaction};

const KEY_1: &str = "0x4c0883a69102937d6231471b5dbb6204fe5129617082792ae468d01a3f362318";
const KEY_2: &str = "ac0974bec39a17e36ba4a6b4d238ff944bacb478cbed5efcae784d7bf4f2ff80";

#[test]
fn method_names() {
    assert_eq!(Method::Raw.as_str(), "raw");
    assert_eq!(Method::Bundle.as_str(), "bundle");
    assert_eq!(Method::Private.as_str(), "private");
}

#[test]
fn method_rolls_share_75_15_10() {
    let mut counts = [0u32; 3];
    for roll in 0..100u64 {
        match Method::from_roll(roll) {
            Method::Raw => counts[0] += 1,
            Method::Bundle => counts[1] += 1,
            Method::Private => counts[2] += 1,
        }
    }
    assert_eq!(counts, [75, 15, 10]);
    assert_eq!(Method::from_roll(74), Method::Raw);
    assert_eq!(Method::from_roll(75), Method::Bundle);
    assert_eq!(Method::from_roll(89), Method::Bundle);
    assert_eq!(Method::from_roll(90), Method::Private);
    assert_eq!(Method::from_roll(99), Method::Private);
}

#[test]
fn random_picks_stay_in_range() {
    for _ in 0..200 {
        assert!(pick_signer(3) < 3);
        let d = pick_delay_ms();
        assert!((100..1000).contains(&d));
        let _ = pick_method();
    }
    assert_eq!(pick_signer(1), 0);
}

#[test]
fn payload_is_32_alphanumeric_bytes() {
    let p = random_payload();
    assert_eq!(p.len(), 32);
    assert!(p.iter().all(|b| b.is_ascii_alphanumeric()));
}

#[test]
fn unsigned_transaction_fields() {
    let t = UnsignedTransaction::with_input(vec![1, 2, 3]);
    assert_eq!(t.nonce, 0);
    assert_eq!(t.value, 0);
    assert_eq!(t.gas, 25_000);
    assert_eq!(t.to, vec![0u8; 20]);
    assert_eq!(t.max_fee_per_gas, 7_000_000_000);
    assert_eq!(t.max_priority_fee_per_gas, 7_000_000_000);
    assert_eq!(t.chain_id, 1);
    assert_eq!(t.transaction_type, 2);
    assert_eq!(t.input, vec![1, 2, 3]);
}

#[test]
fn transaction_hex_is_prefixed_lowercase() {
    assert_eq!(transaction_hex(&[0x02, 0xab, 0xff, 0x00]), "0x02abff00");
    assert_eq!(transaction_hex(&[]), "0x");
    let bytes: Vec<u8> = (0..=255u8).collect();
    let text = transaction_hex(&bytes);
    assert_eq!(alloy::hex::decode(&text).unwrap(), bytes);
}

fn json_string(v: &JsonValue) -> &str {
    match v {
        JsonValue::String(s) => s,
        other => panic!("not a string: {:?}", other),
    }
}

#[test]
fn request_bodies() {
    for (m, name) in [
        (Method::Raw, "eth_sendRawTransaction"),
        (Method::Private, "eth_sendPrivateTransaction"),
    ] {
        match request_body("0xaa", &m) {
            JsonValue::Object(fields) => {
                assert_eq!(fields.len(), 4);
                assert_eq!(fields[0].0, "jsonrpc");
                assert_eq!(json_string(&fields[0].1), "2.0");
                assert_eq!(fields[1].0, "method");
                assert_eq!(json_string(&fields[1].1), name);
                assert_eq!(fields[2].0, "params");
                match &fields[2].1 {
                    JsonValue::Array(items) => {
                        assert_eq!(items.len(), 1);
                        assert_eq!(json_string(&items[0]), "0xaa");
                    }
                    other => panic!("unexpected {:?}", other),
                }
                assert_eq!(fields[3].0, "id");
                assert!(matches!(fields[3].1, JsonValue::Number(ref n) if n == "1"));
            }
            other => panic!("unexpected {:?}", other),
        }
    }
    match request_body("0xbb", &Method::Bundle) {
        JsonValue::Object(fields) => {
            assert_eq!(json_string(&fields[1].1), "eth_sendBundle");
            match &fields[2].1 {
                JsonValue::Array(items) => match &items[0] {
                    JsonValue::Object(o) => {
                        assert_eq!(o[0].0, "txs");
                        match &o[0].1 {
                            JsonValue::Array(t) => assert_eq!(json_string(&t[0]), "0xbb"),
                            other => panic!("unexpected {:?}", other),
                        }
                    }
                    other => panic!("unexpected {:?}", other),
                },
                other => panic!("unexpected {:?}", other),
            }
        }
        other => panic!("unexpected {:?}", other),
    }
}

#[test]
fn send_outcomes() {
    assert_eq!(send_outcome(true, "200 OK", "{}".to_string()), Ok("{}".to_string()));
    assert_eq!(
        send_outcome(false, "500 Internal Server Error", "oops".to_string()),
        Err("500 Internal Server Error: oops".to_string())
    );
    assert_eq!(send_failure("refused"), "Failed to send transaction: refused");
}

#[test]
fn private_keys_split_on_commas() {
    assert_eq!(private_key_texts("a,b"), vec!["a", "b"]);
    assert_eq!(private_key_texts(""), vec![""]);
    assert_eq!(private_key_texts("a,,b,"), vec!["a", "", "b", ""]);
    assert_eq!(private_key_texts("é,x"), vec!["é", "x"]);
}

#[test]
fn config_one_wallet_per_key() {
    let keys = format!("{},{}", KEY_1, KEY_2);
    let c = Config::try_new(&keys).unwrap();
    assert_eq!(c.signers.len(), 2);
    for (signer, key) in c.signers.iter().zip([KEY_1, KEY_2]) {
        let expected: alloy::signers::local::PrivateKeySigner = key.parse().unwrap();
        assert_eq!(
            NetworkWallet::<alloy::network::Ethereum>::default_signer_address(signer.wallet()),
            expected.address()
        );
    }
    let c = Config::new(KEY_1);
    assert_eq!(c.signers.len(), 1);
}

#[test]
fn config_refuses_bad_keys() {
    assert!(Config::try_new("").is_none());
    assert!(Config::try_new(&format!("{},nothex", KEY_1)).is_none());
    assert!(Config::try_new("0x00").is_none());
    let zero = format!("0x{}", "00".repeat(32));
    assert!(Config::try_new(&zero).is_none());
}

#[test]
fn raw_submission_reaches_server_decoder() {
    let signer: alloy::signers::local::PrivateKeySigner = KEY_2.parse().unwrap();
    let u = UnsignedTransaction::with_input(random_payload());
    let tx = TxEip1559 {
        chain_id: u.chain_id,
        nonce: u.nonce,
        gas_limit: u.gas,
        max_fee_per_gas: u.max_fee_per_gas,
        max_priority_fee_per_gas: u.max_priority_fee_per_gas,
        to: TxKind::Call(alloy::primitives::Address::from_slice(&u.to)),
        value: alloy::primitives::U256::from(u.value),
        access_list: Default::default(),
        input: u.input.clone().into(),
    };
    let sig = signer.sign_hash_sync(&tx.signature_hash()).unwrap();
    let envelope: alloy::consensus::TxEnvelope = tx.into_signed(sig).into();
    let encoded = envelope.encoded_2718();
    let text = transaction_hex(&encoded);
    let body = request_body(&text, &Method::Raw);
    let params = match body {
        JsonValue::Object(mut fields) => fields.remove(2).1,
        other => panic!("unexpected {:?}", other),
    };
    let request = Request {
        jsonrpc: "2.0".to_string(),
        method: "eth_sendRawTransaction".to_string(),
        params,
        id: JsonValue::Number("1".to_string()),
    };
    let record = SendRawTransaction::validate(&request).unwrap().record();
    assert_eq!(record.id, format!("{}", envelope.tx_hash()));
    assert_eq!(record.signer, format!("{}", signer.address()).to_lowercase());
    assert_eq!(record.raw_transaction, text);
}

#[test]
fn created_transaction_is_accepted_with_its_signer() {
    let c = Config::try_new(&format!("{},{}", KEY_1, KEY_2)).unwrap();
    for (signer, key) in c.signers.iter().zip([KEY_1, KEY_2]) {
        let text = create_transaction(signer).unwrap();
        assert!(text.starts_with("0x02"));
        assert_eq!(text, text.to_lowercase());
        let bytes = alloy::hex::decode(&text).unwrap();
        let envelope: alloy::consensus::TxEnvelope =
            alloy::eips::eip2718::Decodable2718::decode_2718(&mut bytes.as_slice()).unwrap();
        let tx = envelope.as_eip1559().unwrap().tx();
        assert_eq!(tx.nonce, 0);
        assert_eq!(tx.gas_limit, 25_000);
        assert_eq!(tx.max_fee_per_gas, 7_000_000_000);
        assert_eq!(tx.max_priority_fee_per_gas, 7_000_000_000);
        assert_eq!(tx.chain_id, 1);
        assert_eq!(tx.to, TxKind::Call(alloy::primitives::Address::ZERO));
        assert_eq!(tx.input.len(), 32);
        assert!(tx.input.iter().all(|b| b.is_ascii_alphanumeric()));
        let request = Request {
            jsonrpc: "2.0".to_string(),
            method: "eth_sendRawTransaction".to_string(),
            params: JsonValue::Array(vec![JsonValue::String(text.clone())]),
            id: JsonValue::Number("1".to_string()),
        };
        let record = SendRawTransaction::validate(&request).unwrap().record();
        let expected: alloy::signers::local::PrivateKeySigner = key.parse().unwrap();
        assert_eq!(record.signer, format!("{}", expected.address()).to_lowercase());
        assert_eq!(record.raw_transaction, text);
    }
}

#[test]
fn server_refuses_bundle_and_private_methods() {
    for m in [Method::Bundle, Method::Private] {
        let body = request_body("0x00", &m);
        let (name, params) = match body {
            JsonValue::Object(mut fields) => {
                let params = fields.remove(2).1;
                let name = match &fields[1].1 {
                    JsonValue::String(s) => s.clone(),
                    other => panic!("unexpected {:?}", other),
                };
                (name, params)
            }
            other => panic!("unexpected {:?}", other),
        };
        let request = Request { jsonrpc: "2.0".to_string(), method: name.clone(), params, id: JsonValue::Null };
        let e = Validator::validate(&request).unwrap_err();
        assert_eq!(e.code, METHOD_NOT_FOUND);
        assert_eq!(e.message, format!("Invalid method: {}", name));
    }
}

#[test]
fn send_raw_reports_signer_recovery_failure() {
    let tx = TxEip1559 {
        chain_id: 1,
        nonce: 0,
        gas_limit: 21_000,
        max_fee_per_gas: 1,
        max_priority_fee_per_gas: 1,
        to: TxKind::Call(alloy::primitives::Address::ZERO),
        value: alloy::primitives::U256::ZERO,
        access_list: Default::default(),
        input: Default::default(),
    };
    let sig = alloy::primitives::Signature::new(alloy::primitives::U256::ZERO, alloy::primitives::U256::from(1u8), false);
    let envelope: alloy::consensus::TxEnvelope = tx.into_signed(sig).into();
    let encoded = envelope.encoded_2718();
    let expected = match <alloy::consensus::TxEnvelope as alloy::rlp::Decodable>::decode(&mut &encoded[..]) {
        Ok(alloy::consensus::TxEnvelope::Eip1559(signed)) => signed.recover_signer().unwrap_err().to_string(),
        Ok(other) => panic!("unexpected {:?}", other),
        Err(e) => e.to_string(),
    };
    let request = Request {
        jsonrpc: "2.0".to_string(),
        method: "eth_sendRawTransaction".to_string(),
        params: JsonValue::Array(vec![JsonValue::String(transaction_hex(&encoded))]),
        id: JsonValue::Null,
    };
    let e = SendRawTransaction::validate(&request).unwrap_err();
    assert_eq!(e.code, rpc_gateway::rpc::response::INVALID_PARAMS);
    assert_eq!(e.message, expected);
}

#[test]
fn send_raw_accepts_high_s_signature() {
    let signer: alloy::signers::local::PrivateKeySigner = KEY_1.parse().unwrap();
    let tx = TxEip1559 {
        chain_id: 1,
        nonce: 3,
        gas_limit: 21_000,
        max_fee_per_gas: 10,
        max_priority_fee_per_gas: 1,
        to: TxKind::Call(alloy::primitives::Address::ZERO),
        value: alloy::primitives::U256::from(5u8),
        access_list: Default::default(),
        input: Default::default(),
    };
    let sig = signer.sign_hash_sync(&tx.signature_hash()).unwrap();
    let order: alloy::primitives::U256 =
        "0xFFFFFFFFFFFFFFFFFFFFFFFFFFFFFFFEBAAEDCE6AF48A03BBFD25E8CD0364141".parse().unwrap();
    let high = alloy::primitives::Signature::new(sig.r(), order - sig.s(), !sig.v());
    let envelope: alloy::consensus::TxEnvelope = tx.into_signed(high).into();
    let text = transaction_hex(&envelope.encoded_2718());
    let request = Request {
        jsonrpc: "2.0".to_string(),
        method: "eth_sendRawTransaction".to_string(),
        params: JsonValue::Array(vec![JsonValue::String(text)]),
        id: JsonValue::Null,
    };
    let record = SendRawTransaction::validate(&request).unwrap().record();
    assert_eq!(record.signer, format!("{}", signer.address()).to_lowercase());
}
