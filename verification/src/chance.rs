//! Draws from the random generator that rand keeps for each thread.
//!
//! Nothing is claimed here of how likely an outcome is, only of where it lies.
//! The contracts say what rand's source shows; Verus takes them on trust.

use rand::distributions::{Alphanumeric, Uniform};
use rand::Rng;
use vstd::prelude::*;
use crate::text::is_alphanumeric;

verus! {

/// `Rng::gen_range` of rand, called on `thread_rng()` with the range from `low`
/// up to, not including, `high`. It panics on an empty range, which `requires`
/// leaves out; what it returns lies in the range.
#[verifier::external_body]
pub(crate) fn pick_between(low: i64, high: i64) -> (n: i64)
    requires
        low < high,
    ensures
        low <= n < high,
{
    rand::thread_rng().gen_range(low..high)
}

/// `Uniform::new` of rand for the integers from `low` up to, not including,
/// `high`, sampled once with `Rng::sample` on `thread_rng()`. `Uniform::new`
/// panics unless `low` is below `high`; the sample lies in the range.
#[verifier::external_body]
pub(crate) fn pick_uniform(low: u8, high: u8) -> (n: u8)
    requires
        low < high,
    ensures
        low <= n < high,
{
    rand::thread_rng().sample(Uniform::new(low, high))
}

/// `Rng::sample` of rand on `thread_rng()` with the distribution `Alphanumeric`,
/// which picks one byte out of the 62 ASCII letters and digits.
#[verifier::external_body]
pub(crate) fn pick_alphanumeric() -> (byte: u8)
    ensures
        is_alphanumeric(byte as char),
{
    rand::thread_rng().sample(Alphanumeric)
}

} // verus!
