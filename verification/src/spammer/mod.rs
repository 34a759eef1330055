//! The load generator: it signs throw-away transactions and sends them to
//! the RPC server under randomly chosen methods.

pub mod cli;
pub mod client;
pub mod config;
pub mod environment;
pub mod method;
pub mod random;
pub mod signer;
pub mod transaction;
