//! Command-line arguments shared by the three programs: flags that take the
//! next argument as their value.

use vstd::prelude::*;

verus! {

/// The view of an optional string.
pub open spec fn opt_view(o: Option<String>) -> Option<Seq<char>> {
    match o {
        Some(s) => Some(s@),
        None => None,
    }
}

/// The texts of the arguments.
pub open spec fn texts(args: Seq<String>) -> Seq<Seq<char>> {
    args.map_values(|a: String| a@)
}

/// Why a command line was refused.
pub enum ArgFailure {
    /// This flag was the last argument, with no value after it.
    MissingValue(Seq<char>),
    /// This value, given for the socket flag, is no socket address.
    InvalidSocket(Seq<char>),
}

/// Why a command line was refused.
#[derive(Debug)]
pub enum CliError {
    /// This flag (its long form) was the last argument, with no value.
    MissingValue(String),
    /// This value, given for the socket flag, is no socket address.
    InvalidSocket(String),
}

impl View for CliError {
    type V = ArgFailure;

    open spec fn view(&self) -> ArgFailure {
        match self {
            CliError::MissingValue(f) => ArgFailure::MissingValue(f@),
            CliError::InvalidSocket(v) => ArgFailure::InvalidSocket(v@),
        }
    }
}

impl CliError {
    /// The text of this error for a flag without value:
    /// `<flag> requires a value`.
    pub fn missing_value_message(&self) -> (r: Option<String>)
        ensures
            match self@ {
                ArgFailure::MissingValue(f) => r matches Some(m) && m@ == f + " requires a value"@,
                ArgFailure::InvalidSocket(_) => r is None,
            },
    {
        match self {
            CliError::MissingValue(flag) => {
                let mut m = flag.clone();
                m.append(" requires a value");
                Some(m)
            },
            CliError::InvalidSocket(_) => None,
        }
    }
}

/// Whether an argument is one of the two spellings of a flag.
pub fn is_flag(arg: &String, long: &str, short: &str) -> (r: bool)
    ensures
        r == (arg@ == long@ || arg@ == short@),
{
    *arg == long.to_owned() || *arg == short.to_owned()
}

} // verus!
