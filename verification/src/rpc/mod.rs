//! The JSON-RPC server: request validation, method handlers and responses.

pub mod response;
pub mod request;
pub mod envelope;
pub mod method;
pub mod send_raw;
pub mod transaction_status;
pub mod validator;
pub mod handlers;
pub mod middleware;
pub mod cli;
