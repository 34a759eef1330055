//! The submission methods the load generator uses.

use vstd::prelude::*;

verus! {

/// How a transaction is submitted.
#[derive(Debug, PartialEq, Eq, Structural, Clone, Copy)]
pub enum Method {
    Raw,
    Bundle,
    Private,
}

/// The method chosen by a roll below 100: 75 of the rolls choose `Raw`,
/// 15 `Bundle` and 10 `Private`.
pub open spec fn method_for_roll(roll: int) -> Method {
    if roll < 75 {
        Method::Raw
    } else if roll < 90 {
        Method::Bundle
    } else {
        Method::Private
    }
}

impl Method {
    /// The short name of a method, for the log.
    pub fn as_str(&self) -> (r: &str)
        ensures
            r@ == match *self {
                Method::Raw => "raw"@,
                Method::Bundle => "bundle"@,
                Method::Private => "private"@,
            },
    {
        match self {
            Method::Raw => "raw",
            Method::Bundle => "bundle",
            Method::Private => "private",
        }
    }

    /// The method for a roll of a hundred-sided die: 0..=74 `Raw`, 75..=89
    /// `Bundle`, 90..=99 `Private`.
    pub fn from_roll(roll: u64) -> (r: Method)
        requires
            roll < 100,
        ensures
            r == method_for_roll(roll as int),
    {
        if roll <= 74 {
            Method::Raw
        } else if roll <= 89 {
            Method::Bundle
        } else {
            Method::Private
        }
    }
}

/// The rolls below 100 that choose a method.
pub open spec fn rolls_for(m: Method) -> Set<int> {
    Set::new(|roll: int| 0 <= roll < 100 && method_for_roll(roll) == m)
}

/// Of the hundred rolls, 75 choose `Raw`, 15 `Bundle` and 10 `Private`:
/// raw submissions make 75%, bundles 15% and private ones 10%.
pub proof fn lemma_method_shares()
    ensures
        rolls_for(Method::Raw).len() == 75,
        rolls_for(Method::Bundle).len() == 15,
        rolls_for(Method::Private).len() == 10,
{
    assert(rolls_for(Method::Raw) =~= vstd::set_lib::set_int_range(0, 75));
    assert(rolls_for(Method::Bundle) =~= vstd::set_lib::set_int_range(75, 90));
    assert(rolls_for(Method::Private) =~= vstd::set_lib::set_int_range(90, 100));
    vstd::set_lib::lemma_int_range(0, 75);
    vstd::set_lib::lemma_int_range(75, 90);
    vstd::set_lib::lemma_int_range(90, 100);
}

} // verus!
