//! Command-line arguments of the load generator.

use vstd::prelude::*;
use crate::args::{is_flag, opt_view, texts, ArgFailure, CliError};

verus! {

/// `--private-keys` or `-pks`.
pub open spec fn is_keys_flag(a: Seq<char>) -> bool {
    a == "--private-keys"@ || a == "-pks"@
}

/// `--rpc` or `-r`.
pub open spec fn is_rpc_flag(a: Seq<char>) -> bool {
    a == "--rpc"@ || a == "-r"@
}

/// Reads the arguments from position `i` on: each flag takes the next
/// argument, a later value replacing an earlier one; anything else is
/// skipped.
pub open spec fn spammer_parse_from(
    args: Seq<Seq<char>>,
    i: int,
    private_keys: Option<Seq<char>>,
    rpc: Option<Seq<char>>,
) -> Result<(Option<Seq<char>>, Option<Seq<char>>), ArgFailure>
    decreases args.len() - i,
{
    if i < 0 || i >= args.len() {
        Ok((private_keys, rpc))
    } else if is_keys_flag(args[i]) {
        if i + 1 < args.len() {
            spammer_parse_from(args, i + 2, Some(args[i + 1]), rpc)
        } else {
            Err(ArgFailure::MissingValue("--private-keys"@))
        }
    } else if is_rpc_flag(args[i]) {
        if i + 1 < args.len() {
            spammer_parse_from(args, i + 2, private_keys, Some(args[i + 1]))
        } else {
            Err(ArgFailure::MissingValue("--rpc"@))
        }
    } else {
        spammer_parse_from(args, i + 1, private_keys, rpc)
    }
}

/// The values of the load generator's flags.
#[derive(Debug)]
pub struct Cli {
    pub private_keys: Option<String>,
    pub rpc: Option<String>,
}

impl Cli {
    /// Parses the arguments after the program name.
    pub fn parse(args: &Vec<String>) -> (r: Result<Cli, CliError>)
        ensures
            match spammer_parse_from(texts(args@), 0, None, None) {
                Ok((k, u)) => r matches Ok(c) && opt_view(c.private_keys) == k && opt_view(c.rpc) == u,
                Err(f) => r matches Err(e) && e@ == f,
            },
    {
        let ghost views = texts(args@);
        let mut private_keys: Option<String> = None;
        let mut rpc: Option<String> = None;
        let mut i: usize = 0;
        while i < args.len()
            invariant
                i <= args.len(),
                views == texts(args@),
                spammer_parse_from(views, 0, None, None) == spammer_parse_from(
                    views,
                    i as int,
                    opt_view(private_keys),
                    opt_view(rpc),
                ),
            decreases args.len() - i,
        {
            if is_flag(&args[i], "--private-keys", "-pks") {
                if i + 1 < args.len() {
                    private_keys = Some(args[i + 1].clone());
                    i = i + 2;
                } else {
                    let flag = "--private-keys";
                    return Err(CliError::MissingValue(flag.to_owned()));
                }
            } else if is_flag(&args[i], "--rpc", "-r") {
                if i + 1 < args.len() {
                    rpc = Some(args[i + 1].clone());
                    i = i + 2;
                } else {
                    let flag = "--rpc";
                    return Err(CliError::MissingValue(flag.to_owned()));
                }
            } else {
                i = i + 1;
            }
        }
        Ok(Cli { private_keys, rpc })
    }
}

/// Reading from one position further in a line with an argument put in
/// front is reading the line without it.
proof fn lemma_spammer_shift(
    x: Seq<char>,
    args: Seq<Seq<char>>,
    i: int,
    private_keys: Option<Seq<char>>,
    rpc: Option<Seq<char>>,
)
    requires
        0 <= i,
    ensures
        spammer_parse_from(seq![x] + args, i + 1, private_keys, rpc) == spammer_parse_from(args, i, private_keys, rpc),
    decreases args.len() - i,
{
    let full = seq![x] + args;
    if i < args.len() {
        assert(full[i + 1] == args[i]);
        if i + 1 < args.len() {
            assert(full[i + 2] == args[i + 1]);
            lemma_spammer_shift(x, args, i + 2, Some(args[i + 1]), rpc);
            lemma_spammer_shift(x, args, i + 2, private_keys, Some(args[i + 1]));
        }
        lemma_spammer_shift(x, args, i + 1, private_keys, rpc);
    }
}

/// A flag and its value in front of a line: the rest reads from just after
/// the value.
proof fn lemma_pair_in_front(
    f: Seq<char>,
    v: Seq<char>,
    rest: Seq<Seq<char>>,
    private_keys: Option<Seq<char>>,
    rpc: Option<Seq<char>>,
)
    ensures
        spammer_parse_from(seq![f, v] + rest, 2, private_keys, rpc) == spammer_parse_from(rest, 0, private_keys, rpc),
        (seq![f, v] + rest)[0] == f,
        (seq![f, v] + rest)[1] == v,
        (seq![f, v] + rest).len() >= 2,
{
    let line = seq![f, v] + rest;
    assert(line == seq![f] + (seq![v] + rest));
    assert(line[0] == f);
    assert(line[1] == v);
    lemma_spammer_shift(f, seq![v] + rest, 1, private_keys, rpc);
    lemma_spammer_shift(v, rest, 0, private_keys, rpc);
}

/// `--private-keys` or `-pks` followed by a value, in front of any line,
/// sets the private keys to that value and leaves the endpoint found so far;
/// `--rpc` or `-r` followed by a value sets the endpoint and leaves the
/// keys. The rest of the line then reads with those values (a later flag
/// can still replace them). Alone, each pair reads as just that setting.
pub proof fn lemma_spammer_flags_set_values(
    v: Seq<char>,
    rest: Seq<Seq<char>>,
    private_keys: Option<Seq<char>>,
    rpc: Option<Seq<char>>,
)
    ensures
        spammer_parse_from(seq!["--private-keys"@, v] + rest, 0, private_keys, rpc)
            == spammer_parse_from(rest, 0, Some(v), rpc),
        spammer_parse_from(seq!["-pks"@, v] + rest, 0, private_keys, rpc)
            == spammer_parse_from(rest, 0, Some(v), rpc),
        spammer_parse_from(seq!["--rpc"@, v] + rest, 0, private_keys, rpc)
            == spammer_parse_from(rest, 0, private_keys, Some(v)),
        spammer_parse_from(seq!["-r"@, v] + rest, 0, private_keys, rpc)
            == spammer_parse_from(rest, 0, private_keys, Some(v)),
        spammer_parse_from(seq!["--private-keys"@, v], 0, None, None)
            == Ok::<(Option<Seq<char>>, Option<Seq<char>>), ArgFailure>((Some(v), None)),
        spammer_parse_from(seq!["-pks"@, v], 0, None, None)
            == Ok::<(Option<Seq<char>>, Option<Seq<char>>), ArgFailure>((Some(v), None)),
        spammer_parse_from(seq!["--rpc"@, v], 0, None, None)
            == Ok::<(Option<Seq<char>>, Option<Seq<char>>), ArgFailure>((None, Some(v))),
        spammer_parse_from(seq!["-r"@, v], 0, None, None)
            == Ok::<(Option<Seq<char>>, Option<Seq<char>>), ArgFailure>((None, Some(v))),
{
    reveal_strlit("--private-keys");
    reveal_strlit("-pks");
    reveal_strlit("--rpc");
    reveal_strlit("-r");
    assert("--private-keys"@.len() == 14);
    assert("-pks"@.len() == 4);
    assert("--rpc"@.len() == 5);
    assert("-r"@.len() == 2);
    assert(!is_keys_flag("--rpc"@));
    assert(!is_keys_flag("-r"@));
    let empty = Seq::<Seq<char>>::empty();
    lemma_pair_in_front("--private-keys"@, v, rest, Some(v), rpc);
    lemma_pair_in_front("-pks"@, v, rest, Some(v), rpc);
    lemma_pair_in_front("--rpc"@, v, rest, private_keys, Some(v));
    lemma_pair_in_front("-r"@, v, rest, private_keys, Some(v));
    lemma_pair_in_front("--private-keys"@, v, empty, Some(v), None);
    lemma_pair_in_front("-pks"@, v, empty, Some(v), None);
    lemma_pair_in_front("--rpc"@, v, empty, None, Some(v));
    lemma_pair_in_front("-r"@, v, empty, None, Some(v));
    assert(seq!["--private-keys"@, v] + empty == seq!["--private-keys"@, v]);
    assert(seq!["-pks"@, v] + empty == seq!["-pks"@, v]);
    assert(seq!["--rpc"@, v] + empty == seq!["--rpc"@, v]);
    assert(seq!["-r"@, v] + empty == seq!["-r"@, v]);
}

} // verus!
