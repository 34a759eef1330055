//! Command-line arguments of the RPC server.

use vstd::prelude::*;
use crate::args::{is_flag, opt_view, ArgFailure, CliError};

verus! {

/// `--socket` or `-s`.
pub open spec fn is_socket_flag(a: Seq<char>) -> bool {
    a == "--socket"@ || a == "-s"@
}

/// `--database-url` or `-d`.
pub open spec fn is_database_flag(a: Seq<char>) -> bool {
    a == "--database-url"@ || a == "-d"@
}

/// Reads the arguments from position `i` on, with the values found so far:
/// a socket flag takes the next argument, which must read as a socket
/// address; a database flag takes the next argument; a later value
/// replaces an earlier one; anything else is skipped.
pub open spec fn rpc_parse_from(
    args: Seq<(Seq<char>, bool)>,
    i: int,
    socket: Option<Seq<char>>,
    database_url: Option<Seq<char>>,
) -> Result<(Option<Seq<char>>, Option<Seq<char>>), ArgFailure>
    decreases args.len() - i,
{
    if i < 0 || i >= args.len() {
        Ok((socket, database_url))
    } else if is_socket_flag(args[i].0) {
        if i + 1 < args.len() {
            if args[i + 1].1 {
                rpc_parse_from(args, i + 2, Some(args[i + 1].0), database_url)
            } else {
                Err(ArgFailure::InvalidSocket(args[i + 1].0))
            }
        } else {
            Err(ArgFailure::MissingValue("--socket"@))
        }
    } else if is_database_flag(args[i].0) {
        if i + 1 < args.len() {
            rpc_parse_from(args, i + 2, socket, Some(args[i + 1].0))
        } else {
            Err(ArgFailure::MissingValue("--database-url"@))
        }
    } else {
        rpc_parse_from(args, i + 1, socket, database_url)
    }
}

/// The arguments as the parser sees them: each text, with whether it reads
/// as a socket address.
pub open spec fn arg_views(args: Seq<(String, bool)>) -> Seq<(Seq<char>, bool)> {
    args.map_values(|a: (String, bool)| (a.0@, a.1))
}

/// The values of the RPC server's flags.
#[derive(Debug)]
pub struct Cli {
    pub socket: Option<String>,
    pub database_url: Option<String>,
}

impl Cli {
    /// Parses the arguments after the program name, each given with whether
    /// it reads as a socket address (`SocketAddr::from_str` succeeds on it).
    pub fn parse(args: &Vec<(String, bool)>) -> (r: Result<Cli, CliError>)
        ensures
            match rpc_parse_from(arg_views(args@), 0, None, None) {
                Ok((s, d)) => r matches Ok(c) && opt_view(c.socket) == s && opt_view(c.database_url) == d,
                Err(f) => r matches Err(e) && e@ == f,
            },
    {
        let ghost views = arg_views(args@);
        let mut socket: Option<String> = None;
        let mut database_url: Option<String> = None;
        let mut i: usize = 0;
        while i < args.len()
            invariant
                i <= args.len(),
                views == arg_views(args@),
                rpc_parse_from(views, 0, None, None) == rpc_parse_from(
                    views,
                    i as int,
                    opt_view(socket),
                    opt_view(database_url),
                ),
            decreases args.len() - i,
        {
            let arg = &args[i].0;
            if is_flag(arg, "--socket", "-s") {
                if i + 1 < args.len() {
                    if args[i + 1].1 {
                        socket = Some(args[i + 1].0.clone());
                        i = i + 2;
                    } else {
                        return Err(CliError::InvalidSocket(args[i + 1].0.clone()));
                    }
                } else {
                    let flag = "--socket";
                    return Err(CliError::MissingValue(flag.to_owned()));
                }
            } else if is_flag(arg, "--database-url", "-d") {
                if i + 1 < args.len() {
                    database_url = Some(args[i + 1].0.clone());
                    i = i + 2;
                } else {
                    let flag = "--database-url";
                    return Err(CliError::MissingValue(flag.to_owned()));
                }
            } else {
                i = i + 1;
            }
        }
        Ok(Cli { socket, database_url })
    }
}

/// Reading from one position further in a line with an argument put in
/// front is reading the line without it.
proof fn lemma_parse_shift(
    x: (Seq<char>, bool),
    args: Seq<(Seq<char>, bool)>,
    i: int,
    socket: Option<Seq<char>>,
    database_url: Option<Seq<char>>,
)
    requires
        0 <= i,
    ensures
        rpc_parse_from(seq![x] + args, i + 1, socket, database_url)
            == rpc_parse_from(args, i, socket, database_url),
    decreases args.len() - i,
{
    let full = seq![x] + args;
    if i < args.len() {
        assert(full[i + 1] == args[i]);
        if i + 1 < args.len() {
            assert(full[i + 2] == args[i + 1]);
            lemma_parse_shift(x, args, i + 2, socket, Some(args[i + 1].0));
            lemma_parse_shift(x, args, i + 2, Some(args[i + 1].0), database_url);
        }
        lemma_parse_shift(x, args, i + 1, socket, database_url);
    }
}

/// An argument that is neither flag, put in front of the command line, is
/// skipped: the line reads as it did without it.
pub proof fn lemma_unknown_argument_ignored(x: (Seq<char>, bool), args: Seq<(Seq<char>, bool)>)
    requires
        !is_socket_flag(x.0),
        !is_database_flag(x.0),
    ensures
        rpc_parse_from(seq![x] + args, 0, None, None) == rpc_parse_from(args, 0, None, None),
{
    assert((seq![x] + args)[0] == x);
    lemma_parse_shift(x, args, 0, None, None);
}

/// A line that reads completely reads the same way as the front of a longer
/// line: what follows picks up from the values found.
proof fn lemma_parse_prefix(
    args: Seq<(Seq<char>, bool)>,
    tail: Seq<(Seq<char>, bool)>,
    i: int,
    socket: Option<Seq<char>>,
    database_url: Option<Seq<char>>,
)
    requires
        0 <= i <= args.len(),
        rpc_parse_from(args, i, socket, database_url) is Ok,
    ensures
        ({
            let (s, d) = rpc_parse_from(args, i, socket, database_url)->Ok_0;
            rpc_parse_from(args + tail, i, socket, database_url)
                == rpc_parse_from(args + tail, args.len() as int, s, d)
        }),
    decreases args.len() - i,
{
    let full = args + tail;
    if i < args.len() {
        assert(full[i] == args[i]);
        if i + 1 < args.len() {
            assert(full[i + 1] == args[i + 1]);
        }
        if is_socket_flag(args[i].0) {
            lemma_parse_prefix(args, tail, i + 2, Some(args[i + 1].0), database_url);
        } else if is_database_flag(args[i].0) {
            lemma_parse_prefix(args, tail, i + 2, socket, Some(args[i + 1].0));
        } else {
            lemma_parse_prefix(args, tail, i + 1, socket, database_url);
        }
    }
}

/// When a flag is given again at the end of a line that reads, its last
/// value is the one that counts; the other flag keeps its value.
pub proof fn lemma_last_database_url_wins(args: Seq<(Seq<char>, bool)>, flag_reads: bool, value: (Seq<char>, bool))
    requires
        rpc_parse_from(args, 0, None, None) is Ok,
    ensures
        ({
            let (s, _) = rpc_parse_from(args, 0, None, None)->Ok_0;
            rpc_parse_from(args + seq![("--database-url"@, flag_reads), value], 0, None, None)
                == Ok::<(Option<Seq<char>>, Option<Seq<char>>), ArgFailure>((s, Some(value.0)))
        }),
{
    let tail = seq![("--database-url"@, flag_reads), value];
    let (s, d) = rpc_parse_from(args, 0, None, None)->Ok_0;
    lemma_parse_prefix(args, tail, 0, None, None);
    let full = args + tail;
    let n = args.len() as int;
    assert(full[n] == tail[0]);
    assert(full[n + 1] == tail[1]);
    reveal_strlit("--database-url");
    reveal_strlit("--socket");
    reveal_strlit("-s");
    assert("--database-url"@.len() == 14);
    assert("--socket"@.len() == 8);
    assert("-s"@.len() == 2);
    assert(!is_socket_flag(tail[0].0));
    assert(is_database_flag(tail[0].0));
    assert(rpc_parse_from(full, n, s, d) == rpc_parse_from(full, n + 2, s, Some(value.0)));
    assert(rpc_parse_from(full, n + 2, s, Some(value.0)) == Ok::<(Option<Seq<char>>, Option<Seq<char>>), ArgFailure>((s, Some(value.0))));
}

/// A flag and its value in front of a line: the rest reads from just after
/// the value.
proof fn lemma_rpc_pair_in_front(
    f: (Seq<char>, bool),
    v: (Seq<char>, bool),
    rest: Seq<(Seq<char>, bool)>,
    socket: Option<Seq<char>>,
    database_url: Option<Seq<char>>,
)
    ensures
        rpc_parse_from(seq![f, v] + rest, 2, socket, database_url) == rpc_parse_from(rest, 0, socket, database_url),
        (seq![f, v] + rest)[0] == f,
        (seq![f, v] + rest)[1] == v,
        (seq![f, v] + rest).len() >= 2,
{
    let line = seq![f, v] + rest;
    assert(line == seq![f] + (seq![v] + rest));
    assert(line[0] == f);
    assert(line[1] == v);
    lemma_parse_shift(f, seq![v] + rest, 1, socket, database_url);
    lemma_parse_shift(v, rest, 0, socket, database_url);
}

/// `--socket` or `-s` followed by a value that reads as a socket address,
/// in front of any line, sets the socket to that value and leaves the
/// database URL found so far; followed by a value that does not, the line is
/// refused with that value. `--database-url` or `-d` followed by any value
/// sets the database URL and leaves the socket. The rest of the line then
/// reads with those values (a later flag can still replace them). Alone,
/// each pair reads as just that setting.
pub proof fn lemma_rpc_flags_set_values(
    b: bool,
    v: Seq<char>,
    c: bool,
    rest: Seq<(Seq<char>, bool)>,
    socket: Option<Seq<char>>,
    database_url: Option<Seq<char>>,
)
    ensures
        rpc_parse_from(seq![("--socket"@, b), (v, true)] + rest, 0, socket, database_url)
            == rpc_parse_from(rest, 0, Some(v), database_url),
        rpc_parse_from(seq![("-s"@, b), (v, true)] + rest, 0, socket, database_url)
            == rpc_parse_from(rest, 0, Some(v), database_url),
        rpc_parse_from(seq![("--socket"@, b), (v, false)] + rest, 0, socket, database_url)
            == Err::<(Option<Seq<char>>, Option<Seq<char>>), ArgFailure>(ArgFailure::InvalidSocket(v)),
        rpc_parse_from(seq![("-s"@, b), (v, false)] + rest, 0, socket, database_url)
            == Err::<(Option<Seq<char>>, Option<Seq<char>>), ArgFailure>(ArgFailure::InvalidSocket(v)),
        rpc_parse_from(seq![("--database-url"@, b), (v, c)] + rest, 0, socket, database_url)
            == rpc_parse_from(rest, 0, socket, Some(v)),
        rpc_parse_from(seq![("-d"@, b), (v, c)] + rest, 0, socket, database_url)
            == rpc_parse_from(rest, 0, socket, Some(v)),
        rpc_parse_from(seq![("--socket"@, b), (v, true)], 0, None, None)
            == Ok::<(Option<Seq<char>>, Option<Seq<char>>), ArgFailure>((Some(v), None)),
        rpc_parse_from(seq![("-s"@, b), (v, true)], 0, None, None)
            == Ok::<(Option<Seq<char>>, Option<Seq<char>>), ArgFailure>((Some(v), None)),
        rpc_parse_from(seq![("--database-url"@, b), (v, c)], 0, None, None)
            == Ok::<(Option<Seq<char>>, Option<Seq<char>>), ArgFailure>((None, Some(v))),
        rpc_parse_from(seq![("-d"@, b), (v, c)], 0, None, None)
            == Ok::<(Option<Seq<char>>, Option<Seq<char>>), ArgFailure>((None, Some(v))),
{
    reveal_strlit("--socket");
    reveal_strlit("-s");
    reveal_strlit("--database-url");
    reveal_strlit("-d");
    assert("--socket"@.len() == 8);
    assert("-s"@.len() == 2);
    assert("--database-url"@.len() == 14);
    assert("-d"@.len() == 2);
    assert("-d"@[1] == 'd');
    assert("-s"@[1] == 's');
    assert(!is_socket_flag("--database-url"@));
    assert(!is_socket_flag("-d"@));
    let empty = Seq::<(Seq<char>, bool)>::empty();
    lemma_rpc_pair_in_front(("--socket"@, b), (v, true), rest, Some(v), database_url);
    lemma_rpc_pair_in_front(("-s"@, b), (v, true), rest, Some(v), database_url);
    lemma_rpc_pair_in_front(("--socket"@, b), (v, false), rest, socket, database_url);
    lemma_rpc_pair_in_front(("-s"@, b), (v, false), rest, socket, database_url);
    lemma_rpc_pair_in_front(("--database-url"@, b), (v, c), rest, socket, Some(v));
    lemma_rpc_pair_in_front(("-d"@, b), (v, c), rest, socket, Some(v));
    lemma_rpc_pair_in_front(("--socket"@, b), (v, true), empty, Some(v), None);
    lemma_rpc_pair_in_front(("-s"@, b), (v, true), empty, Some(v), None);
    lemma_rpc_pair_in_front(("--database-url"@, b), (v, c), empty, None, Some(v));
    lemma_rpc_pair_in_front(("-d"@, b), (v, c), empty, None, Some(v));
    assert(seq![("--socket"@, b), (v, true)] + empty == seq![("--socket"@, b), (v, true)]);
    assert(seq![("-s"@, b), (v, true)] + empty == seq![("-s"@, b), (v, true)]);
    assert(seq![("--database-url"@, b), (v, c)] + empty == seq![("--database-url"@, b), (v, c)]);
    assert(seq![("-d"@, b), (v, c)] + empty == seq![("-d"@, b), (v, c)]);
}

} // verus!
