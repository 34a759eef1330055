//! A JSON-RPC gateway for Ethereum transactions: the request validation and
//! response logic of the RPC server, the decisions of the background worker
//! that settles stored transactions, and the choices of the load generator
//! that feeds the server.

pub mod json;
pub mod text;
pub mod hex;
pub mod rpc;
pub mod database;
pub mod args;
pub mod worker;
pub mod spammer;
