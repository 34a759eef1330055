//! The random choices of the load generator, drawn with `rand`.

use vstd::prelude::*;
use rand::Rng;
use crate::spammer::method::Method;

verus! {

/// An ASCII letter or digit.
pub open spec fn is_alphanumeric_byte(b: u8) -> bool {
    (48 <= b && b <= 57) || (65 <= b && b <= 90) || (97 <= b && b <= 122)
}

/// A number drawn with `Rng::random_range` on the thread's generator: at
/// least `low` and below `high`. Which one is chance. The range must not be
/// empty (the call panics on an empty range).
#[verifier::external_body]
fn random_range(low: u64, high: u64) -> (r: u64)
    requires
        low < high,
    ensures
        low <= r < high,
{
    rand::rng().random_range(low..high)
}

/// A byte drawn from the `Alphanumeric` distribution: an ASCII letter or
/// digit, by chance.
#[verifier::external_body]
fn random_alphanumeric() -> (r: u8)
    ensures
        is_alphanumeric_byte(r),
{
    rand::rng().sample(rand::distr::Alphanumeric)
}

/// The index of the signer of the next transaction, among `count` signers.
pub fn pick_signer(count: usize) -> (r: usize)
    requires
        count > 0,
    ensures
        r < count,
{
    random_range(0, count as u64) as usize
}

/// The method of the next submission: a roll of a hundred-sided die, mapped
/// by `Method::from_roll` (75% raw, 15% bundle, 10% private).
pub fn pick_method() -> Method {
    let roll = random_range(0, 100);
    Method::from_roll(roll)
}

/// The pause after a submission, in milliseconds: at least 100, below 1000.
pub fn pick_delay_ms() -> (r: u64)
    ensures
        100 <= r < 1000,
{
    random_range(100, 1000)
}

/// The calldata of a throw-away transaction: 32 random ASCII letters and
/// digits.
pub fn random_payload() -> (r: Vec<u8>)
    ensures
        r@.len() == 32,
        forall|i: int| 0 <= i < 32 ==> is_alphanumeric_byte(#[trigger] r@[i]),
{
    let mut payload: Vec<u8> = Vec::new();
    let mut i: usize = 0;
    while i < 32
        invariant
            i <= 32,
            payload@.len() == i,
            forall|j: int| 0 <= j < i ==> is_alphanumeric_byte(#[trigger] payload@[j]),
        decreases 32 - i,
    {
        payload.push(random_alphanumeric());
        i = i + 1;
    }
    payload
}

} // verus!
