use rpc_gateway::database::{
    found_transaction, notify_statement, processed, received, with_status, DatabaseError, TransactionModel,
    NOTIFY_CHANNEL, UNPROCESSED_LIMIT,
};

fn model(id: &str, status: &str) -> TransactionModel {
    TransactionModel {
        id: id.to_string(),
        signer: "0xsigner".to_string(),
        raw_transaction: "0xraw".to_string(),
        status: status.to_string(),
    }
}

#[test]
fn statuses_and_channel() {
    assert_eq!(received(), "Received");
    assert_eq!(processed(), "Processed");
    assert_eq!(NOTIFY_CHANNEL, "transaction");
    assert_eq!(notify_statement(), "NOTIFY transaction;");
    assert_eq!(UNPROCESSED_LIMIT, 1000);
}

#[test]
fn lookup_results() {
    let found = found_transaction(Some(model("0x1", "Received"))).unwrap();
    assert_eq!(found.id, "0x1");
    let missing = found_transaction(None).unwrap_err();
    assert!(matches!(missing, DatabaseError::NotFound));
    assert_eq!(missing.message(), "Transaction not found");
    assert_eq!(DatabaseError::Query("timeout".to_string()).message(), "timeout");
}

#[test]
fn status_update_keeps_other_columns() {
    let m = with_status(model("0x9", "Received"), processed());
    assert_eq!(m.id, "0x9");
    assert_eq!(m.signer, "0xsigner");
    assert_eq!(m.raw_transaction, "0xraw");
    assert_eq!(m.status, "Processed");
}
