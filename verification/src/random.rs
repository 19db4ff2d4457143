use rand::Rng;
use vstd::prelude::*;
use crate::job::{valid_seconds, Draw, MAX_SECONDS, MIN_SECONDS};

verus! {

/// The chances that a job fails, out of `FAILURE_OUT_OF`.
pub const FAILURE_CHANCES: u32 = 1;

/// The number of chances of which `FAILURE_CHANCES` make a job fail.
pub const FAILURE_OUT_OF: u32 = 5;

/// Calls `rand::Rng::random_range` on the thread's generator with the range
/// `low..high`. Trusted: the number handed back lies in that range. The
/// call panics on an empty range, which `requires` rules out, and where the
/// operating system cannot seed the generator.
#[verifier::external_body]
fn random_in_range(low: u64, high: u64) -> (n: u64)
    requires
        low < high,
    ensures
        low <= n < high,
{
    rand::rng().random_range(low..high)
}

/// Calls `rand::Rng::random_ratio` on the thread's generator: true with
/// probability `numerator / denominator`. Trusted: the answer is certain at
/// the two ends, as the method's documentation has it; nothing is claimed in
/// between. The call panics on a zero denominator or a ratio above one,
/// which `requires` rules out, and where the operating system cannot seed
/// the generator.
#[verifier::external_body]
fn random_ratio(numerator: u32, denominator: u32) -> (hit: bool)
    requires
        0 < denominator,
        numerator <= denominator,
    ensures
        numerator == 0 ==> !hit,
        numerator == denominator ==> hit,
{
    rand::rng().random_ratio(numerator, denominator)
}

/// Draws what one job needs: first a running time, uniform over the whole
/// seconds from `MIN_SECONDS` up to but not including `MAX_SECONDS`, then a
/// failure trigger that fires with probability one in five. The two draws
/// do not depend on each other. Whatever comes back, the running time is
/// one of 2, 3 and 4.
pub fn draw() -> (draw: Draw)
    ensures
        valid_seconds(draw.seconds()),
        draw.seconds() == 2 || draw.seconds() == 3 || draw.seconds() == 4,
{
    let seconds: u64 = random_in_range(MIN_SECONDS, MAX_SECONDS);
    let fails: bool = random_ratio(FAILURE_CHANCES, FAILURE_OUT_OF);
    Draw::new(seconds, fails).unwrap()
}

} // verus!
