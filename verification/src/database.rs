//! The stored transactions: their rows and the statuses they move through.

use vstd::prelude::*;

verus! {

/// The channel on which new transactions are announced to the worker.
pub const NOTIFY_CHANNEL: &'static str = "transaction";

/// The most rows one query for unprocessed transactions returns.
pub const UNPROCESSED_LIMIT: u64 = 1000;

/// The status of a transaction that has been received but not processed.
pub open spec fn status_received() -> Seq<char> {
    "Received"@
}

/// The status of a transaction that the worker has processed.
pub open spec fn status_processed() -> Seq<char> {
    "Processed"@
}

/// The text of the error for a transaction that is not stored.
pub open spec fn not_found_message() -> Seq<char> {
    "Transaction not found"@
}

/// A stored transaction: its hash, its signer, its raw text and its status.
#[derive(Debug)]
pub struct TransactionModel {
    pub id: String,
    pub signer: String,
    pub raw_transaction: String,
    pub status: String,
}

/// A failed database operation.
#[derive(Debug)]
pub enum DatabaseError {
    /// No transaction is stored under the identifier that was looked up.
    NotFound,
    /// The database refused or could not run the operation; its message.
    Query(String),
}

impl DatabaseError {
    /// The text of this error.
    pub fn message(&self) -> (r: String)
        ensures
            self is NotFound ==> r@ == not_found_message(),
            self matches DatabaseError::Query(m) ==> r@ == m@,
    {
        match self {
            DatabaseError::NotFound => "Transaction not found".to_owned(),
            DatabaseError::Query(m) => m.clone(),
        }
    }
}

/// The status text of a received transaction.
pub fn received() -> (r: String)
    ensures
        r@ == status_received(),
{
    "Received".to_owned()
}

/// The status text of a processed transaction.
pub fn processed() -> (r: String)
    ensures
        r@ == status_processed(),
{
    "Processed".to_owned()
}

/// The statement that wakes every listener of the notification channel.
pub fn notify_statement() -> (r: String)
    ensures
        r@ == "NOTIFY "@ + NOTIFY_CHANNEL@ + ";"@,
{
    let mut s = crate::text::concat("NOTIFY ", NOTIFY_CHANNEL);
    s.append(";");
    s
}

/// The row of a lookup by identifier: the stored transaction, or
/// `NotFound` where there is none.
pub fn found_transaction(row: Option<TransactionModel>) -> (r: Result<TransactionModel, DatabaseError>)
    ensures
        match row {
            Some(m) => r == Ok::<TransactionModel, DatabaseError>(m),
            None => r matches Err(DatabaseError::NotFound),
        },
{
    match row {
        Some(m) => Ok(m),
        None => Err(DatabaseError::NotFound),
    }
}

/// The stored transaction with its status replaced; every other column is
/// kept.
pub fn with_status(model: TransactionModel, status: String) -> (r: TransactionModel)
    ensures
        r.id == model.id,
        r.signer == model.signer,
        r.raw_transaction == model.raw_transaction,
        r.status == status,
{
    TransactionModel { status, ..model }
}

} // verus!
