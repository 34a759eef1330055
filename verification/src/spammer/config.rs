//! The signers of the load generator, one wallet per private key.

use vstd::prelude::*;
use vstd::string::StrSliceExecFns;
use crate::spammer::signer::{private_key_accepted, signer_from_key, Signer};
use crate::text::push_char;

verus! {

/// Splitting a text at every comma, as `str::split(',')` does: `n` commas
/// give `n + 1` pieces, empty ones included.
pub open spec fn split_commas(s: Seq<char>) -> Seq<Seq<char>>
    decreases s.len(),
{
    if s.len() == 0 {
        seq![Seq::empty()]
    } else {
        let rest = split_commas(s.drop_last());
        if s.last() == ',' {
            rest.push(Seq::empty())
        } else {
            rest.update(rest.len() - 1, rest.last().push(s.last()))
        }
    }
}

/// Splitting never gives an empty list, so a configuration always holds a
/// signer to pick from.
pub proof fn lemma_split_nonempty(s: Seq<char>)
    ensures
        split_commas(s).len() >= 1,
    decreases s.len(),
{
    if s.len() > 0 {
        lemma_split_nonempty(s.drop_last());
    }
}

/// Every comma-separated piece is an accepted private key.
pub open spec fn all_keys_accepted(keys: Seq<char>) -> bool {
    forall|j: int| 0 <= j < split_commas(keys).len() ==> private_key_accepted(#[trigger] split_commas(keys)[j])
}

/// The views of a list of strings.
pub open spec fn views(v: Seq<String>) -> Seq<Seq<char>> {
    v.map_values(|s: String| s@)
}

/// The comma-separated pieces of the private-keys setting.
pub fn private_key_texts(keys: &str) -> (r: Vec<String>)
    ensures
        views(r@) == split_commas(keys@),
{
    let n = keys.unicode_len();
    let mut pieces: Vec<String> = Vec::new();
    let mut current = String::new();
    let mut i: usize = 0;
    while i < n
        invariant
            n == keys@.len(),
            i <= n,
            split_commas(keys@.take(i as int)) == views(pieces@).push(current@),
        decreases n - i,
    {
        let c = keys.get_char(i);
        let ghost before = keys@.take(i as int);
        assert(keys@.take(i + 1).drop_last() == before);
        assert(keys@.take(i + 1).last() == c);
        if c == ',' {
            let ghost old_pieces = pieces@;
            pieces.push(current);
            current = String::new();
            assert(views(pieces@) == views(old_pieces).push(views(pieces@).last()));
        } else {
            push_char(&mut current, c);
            assert(views(pieces@).push(current@) =~= split_commas(before).update(
                split_commas(before).len() - 1,
                split_commas(before).last().push(c),
            ));
        }
        i = i + 1;
    }
    assert(keys@.take(n as int) == keys@);
    let ghost old_pieces = pieces@;
    pieces.push(current);
    assert(views(pieces@) =~= views(old_pieces).push(views(pieces@).last()));
    pieces
}

/// Whether every key of a list is accepted.
fn all_accepted(keys: &Vec<String>) -> (r: bool)
    ensures
        r <==> (forall|j: int| 0 <= j < keys@.len() ==> private_key_accepted(#[trigger] keys@[j]@)),
{
    let mut i: usize = 0;
    while i < keys.len()
        invariant
            i <= keys.len(),
            forall|j: int| 0 <= j < i ==> private_key_accepted(#[trigger] keys@[j]@),
        decreases keys.len() - i,
    {
        if signer_from_key(keys[i].as_str()).is_none() {
            return false;
        }
        i = i + 1;
    }
    true
}

/// The signers of the load generator, one per private key, in the order
/// of the keys.
pub struct Config {
    pub signers: Vec<Signer>,
}

impl Config {
    /// One signer per comma-separated private key, the `i`-th made from the
    /// `i`-th key. Every piece must be an accepted key: a piece that is not
    /// one is a fatal configuration error.
    pub fn new(private_keys: &str) -> (r: Config)
        requires
            all_keys_accepted(private_keys@),
        ensures
            r.signers@.len() == split_commas(private_keys@).len(),
            forall|i: int| 0 <= i < r.signers@.len() ==> #[trigger] r.signers@[i]@ == split_commas(private_keys@)[i],
            r.signers@.len() >= 1,
    {
        proof {
            lemma_split_nonempty(private_keys@);
        }
        let keys = private_key_texts(private_keys);
        let ghost pieces = split_commas(private_keys@);
        assert forall|j: int| 0 <= j < keys@.len() implies private_key_accepted(#[trigger] keys@[j]@)
            && keys@[j]@ == pieces[j] by {
            assert(views(keys@)[j] == keys@[j]@);
        }
        let mut signers: Vec<Signer> = Vec::new();
        let mut i: usize = 0;
        while i < keys.len()
            invariant
                i <= keys.len(),
                keys@.len() == pieces.len(),
                forall|j: int| 0 <= j < keys@.len() ==> private_key_accepted(#[trigger] keys@[j]@),
                forall|j: int| 0 <= j < keys@.len() ==> #[trigger] keys@[j]@ == pieces[j],
                signers@.len() == i,
                forall|j: int| 0 <= j < i ==> #[trigger] signers@[j]@ == pieces[j],
            decreases keys.len() - i,
        {
            assert(private_key_accepted(keys@[i as int]@));
            match signer_from_key(keys[i].as_str()) {
                Some(signer) => signers.push(signer),
                None => {
                    assert(false);
                },
            }
            assert(keys@[i as int]@ == pieces[i as int]);
            i = i + 1;
        }
        Config { signers }
    }

    /// `Config::new` where every piece is an accepted key, `None` otherwise.
    pub fn try_new(private_keys: &str) -> (r: Option<Config>)
        ensures
            r is Some <==> all_keys_accepted(private_keys@),
            r matches Some(c) ==> c.signers@.len() == split_commas(private_keys@).len(),
            r matches Some(c) ==> forall|i: int| 0 <= i < c.signers@.len() ==> #[trigger] c.signers@[i]@ == split_commas(private_keys@)[i],
            r matches Some(c) ==> c.signers@.len() >= 1,
    {
        let keys = private_key_texts(private_keys);
        let accepted = all_accepted(&keys);
        proof {
            assert forall|j: int| 0 <= j < keys@.len() implies #[trigger] keys@[j]@ == split_commas(private_keys@)[j] by {
                assert(views(keys@)[j] == keys@[j]@);
            }
        }
        if accepted {
            Some(Config::new(private_keys))
        } else {
            None
        }
    }
}

} // verus!
