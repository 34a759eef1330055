//! The settings of the worker, from its command line or its environment.

use vstd::prelude::*;
use crate::worker::cli::Cli;

verus! {

/// The message when no database URL is given anywhere.
pub open spec fn missing_database_url_message() -> Seq<char> {
    "Failed to parse DATABASE_URL"@
}

/// The settings of the worker.
#[derive(Debug)]
pub struct Environment {
    pub database_url: String,
}

impl Environment {
    /// The database URL of the command line, or else that of the
    /// `DATABASE_URL` variable (`env_database_url`, as read from the
    /// environment); an error where neither is given.
    pub fn new(args: &Cli, env_database_url: Option<String>) -> (r: Result<Self, String>)
        ensures
            match (args.database_url, env_database_url) {
                (Some(u), _) => r matches Ok(e) && e.database_url@ == u@,
                (None, Some(u)) => r matches Ok(e) && e.database_url@ == u@,
                (None, None) => r matches Err(m) && m@ == missing_database_url_message(),
            },
    {
        match &args.database_url {
            Some(u) => Ok(Environment { database_url: u.clone() }),
            None => match env_database_url {
                Some(u) => Ok(Environment { database_url: u }),
                None => Err("Failed to parse DATABASE_URL".to_owned()),
            },
        }
    }
}

} // verus!
