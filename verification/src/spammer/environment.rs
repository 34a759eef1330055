//! The settings of the load generator, from its command line or its
//! environment.

use vstd::prelude::*;
use crate::args::opt_view;
use crate::spammer::cli::Cli;

verus! {

/// The message when no private keys are given anywhere.
pub open spec fn missing_keys_message() -> Seq<char> {
    "PRIVATE_KEYS must be set"@
}

/// The message when no RPC endpoint is given anywhere.
pub open spec fn missing_rpc_message() -> Seq<char> {
    "RPC must be set"@
}

/// The value of the command line, or else that of the environment.
pub open spec fn first_given(cli: Option<String>, env: Option<String>) -> Option<Seq<char>> {
    match (cli, env) {
        (Some(v), _) => Some(v@),
        (None, Some(v)) => Some(v@),
        (None, None) => None,
    }
}

/// The settings of the load generator.
#[derive(Debug)]
pub struct Environment {
    pub private_keys: String,
    pub rpc: String,
}

/// The command-line value, or else the environment's.
fn pick(cli: &Option<String>, env: Option<String>) -> (r: Option<String>)
    ensures
        match r {
            Some(v) => first_given(*cli, env) == Some(v@),
            None => first_given(*cli, env) is None,
        },
{
    match cli {
        Some(v) => Some(v.clone()),
        None => env,
    }
}

impl Environment {
    /// The private keys and RPC endpoint of the command line, each falling
    /// back to the `PRIVATE_KEYS` and `RPC` variables (`env_private_keys`,
    /// `env_rpc`, as read from the environment). Missing keys are reported
    /// before a missing endpoint.
    pub fn new(cli: &Cli, env_private_keys: Option<String>, env_rpc: Option<String>) -> (r: Result<Self, String>)
        ensures
            match (first_given(cli.private_keys, env_private_keys), first_given(cli.rpc, env_rpc)) {
                (Some(k), Some(u)) => r matches Ok(e) && e.private_keys@ == k && e.rpc@ == u,
                (None, _) => r matches Err(m) && m@ == missing_keys_message(),
                (Some(_), None) => r matches Err(m) && m@ == missing_rpc_message(),
            },
    {
        let private_keys = match pick(&cli.private_keys, env_private_keys) {
            Some(k) => k,
            None => return Err("PRIVATE_KEYS must be set".to_owned()),
        };
        let rpc = match pick(&cli.rpc, env_rpc) {
            Some(u) => u,
            None => return Err("RPC must be set".to_owned()),
        };
        Ok(Environment { private_keys, rpc })
    }
}

/// A value given on the command line is the setting, whatever the
/// environment holds (set or not); without one, the setting is the
/// environment's value, or missing when that is unset too.
pub proof fn lemma_command_line_before_environment(cli: Option<String>, env: Option<String>)
    ensures
        cli matches Some(v) ==> first_given(cli, env) == Some(v@),
        cli is None ==> first_given(cli, env) == opt_view(env),
        first_given(cli, env) is None <==> (cli is None && env is None),
{
}

} // verus!
