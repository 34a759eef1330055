//! Command-line arguments of the worker.

use vstd::prelude::*;
use crate::args::{is_flag, opt_view, texts, ArgFailure, CliError};

verus! {

/// `--database-url` or `-d`.
pub open spec fn is_database_flag(a: Seq<char>) -> bool {
    a == "--database-url"@ || a == "-d"@
}

/// Reads the arguments from position `i` on: a database flag takes the next
/// argument, a later value replacing an earlier one; anything else is
/// skipped.
pub open spec fn worker_parse_from(args: Seq<Seq<char>>, i: int, database_url: Option<Seq<char>>) -> Result<Option<Seq<char>>, ArgFailure>
    decreases args.len() - i,
{
    if i < 0 || i >= args.len() {
        Ok(database_url)
    } else if is_database_flag(args[i]) {
        if i + 1 < args.len() {
            worker_parse_from(args, i + 2, Some(args[i + 1]))
        } else {
            Err(ArgFailure::MissingValue("--database-url"@))
        }
    } else {
        worker_parse_from(args, i + 1, database_url)
    }
}

/// The values of the worker's flags.
#[derive(Debug)]
pub struct Cli {
    pub database_url: Option<String>,
}

impl Cli {
    /// Parses the arguments after the program name.
    pub fn parse(args: &Vec<String>) -> (r: Result<Cli, CliError>)
        ensures
            match worker_parse_from(texts(args@), 0, None) {
                Ok(d) => r matches Ok(c) && opt_view(c.database_url) == d,
                Err(f) => r matches Err(e) && e@ == f,
            },
    {
        let ghost views = texts(args@);
        let mut database_url: Option<String> = None;
        let mut i: usize = 0;
        while i < args.len()
            invariant
                i <= args.len(),
                views == texts(args@),
                worker_parse_from(views, 0, None) == worker_parse_from(views, i as int, opt_view(database_url)),
            decreases args.len() - i,
        {
            if is_flag(&args[i], "--database-url", "-d") {
                if i + 1 < args.len() {
                    database_url = Some(args[i + 1].clone());
                    i = i + 2;
                } else {
                    let flag = "--database-url";
                    return Err(CliError::MissingValue(flag.to_owned()));
                }
            } else {
                i = i + 1;
            }
        }
        Ok(Cli { database_url })
    }
}

/// Reading from one position further in a line with an argument put in
/// front is reading the line without it.
proof fn lemma_worker_shift(x: Seq<char>, args: Seq<Seq<char>>, i: int, database_url: Option<Seq<char>>)
    requires
        0 <= i,
    ensures
        worker_parse_from(seq![x] + args, i + 1, database_url) == worker_parse_from(args, i, database_url),
    decreases args.len() - i,
{
    let full = seq![x] + args;
    if i < args.len() {
        assert(full[i + 1] == args[i]);
        if i + 1 < args.len() {
            assert(full[i + 2] == args[i + 1]);
            lemma_worker_shift(x, args, i + 2, Some(args[i + 1]));
        }
        lemma_worker_shift(x, args, i + 1, database_url);
    }
}

/// Either spelling of the database flag, with its value, in front of a
/// line: the rest reads with that value found.
proof fn lemma_flag_in_front(f: Seq<char>, v: Seq<char>, rest: Seq<Seq<char>>)
    requires
        f == "--database-url"@ || f == "-d"@,
    ensures
        worker_parse_from(seq![f, v] + rest, 0, None) == worker_parse_from(rest, 0, Some(v)),
{
    let line = seq![f, v] + rest;
    assert(line == seq![f] + (seq![v] + rest));
    assert(line[0] == f);
    assert(line[1] == v);
    lemma_worker_shift(f, seq![v] + rest, 1, Some(v));
    lemma_worker_shift(v, rest, 0, Some(v));
}

/// `--database-url` followed by a value, in front of any line, sets the
/// database URL to that value, and `-d` does the same: the rest of the line
/// then reads with that value as the one found so far (a later flag can
/// still replace it). In particular `--database-url v` alone, and `-d v`
/// alone, read as the URL `v`.
pub proof fn lemma_database_flag_sets_url(v: Seq<char>, rest: Seq<Seq<char>>)
    ensures
        worker_parse_from(seq!["--database-url"@, v] + rest, 0, None) == worker_parse_from(rest, 0, Some(v)),
        worker_parse_from(seq!["-d"@, v] + rest, 0, None) == worker_parse_from(rest, 0, Some(v)),
        worker_parse_from(seq!["--database-url"@, v], 0, None) == Ok::<Option<Seq<char>>, ArgFailure>(Some(v)),
        worker_parse_from(seq!["-d"@, v], 0, None) == Ok::<Option<Seq<char>>, ArgFailure>(Some(v)),
{
    let empty = Seq::<Seq<char>>::empty();
    lemma_flag_in_front("--database-url"@, v, rest);
    lemma_flag_in_front("-d"@, v, rest);
    lemma_flag_in_front("--database-url"@, v, empty);
    lemma_flag_in_front("-d"@, v, empty);
    assert(seq!["--database-url"@, v] + empty == seq!["--database-url"@, v]);
    assert(seq!["-d"@, v] + empty == seq!["-d"@, v]);
}

/// An argument that is no database flag, put in front of a line, is
/// skipped: the line reads as it did without it.
pub proof fn lemma_worker_unknown_argument_ignored(x: Seq<char>, rest: Seq<Seq<char>>)
    requires
        x != "--database-url"@,
        x != "-d"@,
    ensures
        worker_parse_from(seq![x] + rest, 0, None) == worker_parse_from(rest, 0, None),
{
    assert((seq![x] + rest)[0] == x);
    lemma_worker_shift(x, rest, 0, None);
}

} // verus!
