//! The random draws that the engine makes, each behind a contract that
//! holds of every outcome.
//!
//! The generator is `rand`'s thread-local one. Its draws are not verified:
//! the contracts below are what the rest of the crate believes of them.

use rand::rngs::ThreadRng;
use rand::Rng;
use vstd::prelude::*;

verus! {

/// `rand::rngs::ThreadRng`, the handle to the calling thread's generator.
/// Its state is not modelled.
#[verifier::external_type_specification]
#[verifier::external_body]
pub struct ExThreadRng(rand::rngs::ThreadRng);

/// `rand::thread_rng` returns the handle to the calling thread's generator,
/// which the system seeds on first use. Nothing is claimed of the handle.
/// The call panics only where the system cannot provide a seed.
pub assume_specification[ rand::thread_rng ]() -> (rng: ThreadRng);

/// `Rng::gen_range` on an inclusive range of `i32`: the draw lies between
/// the two bounds, both included. The call panics on an empty range, so the
/// bounds must be ordered. That the draw is uniform is not stated.
#[verifier::external_body]
pub(crate) fn uniform_i32(rng: &mut ThreadRng, low: i32, high: i32) -> (value: i32)
    requires
        low <= high,
    ensures
        low <= value <= high,
{
    rng.gen_range(low..=high)
}

/// `Rng::gen_range` on an inclusive range of `u64`: the draw lies between
/// the two bounds, both included. The call panics on an empty range, so the
/// bounds must be ordered. That the draw is uniform is not stated.
#[verifier::external_body]
pub(crate) fn uniform_u64(rng: &mut ThreadRng, low: u64, high: u64) -> (value: u64)
    requires
        low <= high,
    ensures
        low <= value <= high,
{
    rng.gen_range(low..=high)
}

/// `Rng::gen_ratio`: a draw that is `true` with probability
/// `numerator / denominator`. The call panics on a zero denominator and on
/// a ratio above one. Only the two certain cases are stated: a ratio of one
/// always gives `true`, a ratio of zero always gives `false`.
#[verifier::external_body]
pub(crate) fn ratio_draw(rng: &mut ThreadRng, numerator: u32, denominator: u32) -> (hit: bool)
    requires
        0 < denominator,
        numerator <= denominator,
    ensures
        numerator == denominator ==> hit,
        numerator == 0 ==> !hit,
{
    rng.gen_ratio(numerator, denominator)
}

} // verus!
