//! The background worker that settles received transactions.

pub mod cli;
pub mod environment;
pub mod worker;
