//! The machine's source of random bytes.

use rand::Rng;
use vstd::prelude::*;

verus! {

/// Draws a number from the thread's random generator.
///
/// Calls `rand::Rng::random_range` on the generator that `rand::rng()`
/// hands out, with the range `0..256`. Nothing is proved of it; the
/// contract takes from the function's documentation only that the number
/// lies in the range. The range is not empty, which is the one input on
/// which `random_range` panics. The generator itself panics where the
/// operating system's random source fails: when `rand::rng()` seeds it at
/// its first use in a thread, and when it seeds itself anew after every 64
/// KiB that it has handed out. No argument decides that, so no `requires`
/// can leave it out.
#[verifier::external_body]
pub(crate) fn random_below_256() -> (r: u16)
    ensures
        r < 256,
{
    rand::rng().random_range(0..256)
}

} // verus!
