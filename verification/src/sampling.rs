//! Samples that are drawn as whole numbers from the thread's random
//! generator.

use vstd::prelude::*;
use rand::rngs::ThreadRng;
use rand::Rng;
use crate::sensor::signal_fits;

verus! {

/// The weakest signal, in dBm, that a sensor reports.
pub const SIGNAL_FLOOR: i32 = -100;

/// The bound, in dBm, below which every reported signal lies.
pub const SIGNAL_CEILING: i32 = -30;

/// A handle on the random generator of the current thread, as `rand` keeps
/// it. Nothing inside a value of this type is visible to the proofs.
#[verifier::external_type_specification]
#[verifier::external_body]
pub struct ExThreadRng(ThreadRng);

/// `rand::thread_rng` hands out a handle on the generator of the current
/// thread. Nothing is claimed of the handle.
pub assume_specification[ rand::thread_rng ]() -> (generator: ThreadRng);

/// Calls `rand::Rng::gen_range` on the half-open range `low..high`, which
/// panics on an empty range and otherwise returns a number of the range.
/// Which number comes is left open: two calls may differ.
#[verifier::external_body]
fn draw_between(generator: &mut ThreadRng, low: i32, high: i32) -> (drawn: i32)
    requires
        low < high,
    ensures
        low <= drawn < high,
{
    generator.gen_range(low..high)
}

/// Draws the signal strength that a sensor reports, in dBm.
pub fn draw_signal_strength() -> (signal: i32)
    ensures
        signal_fits(signal),
{
    let mut generator = rand::thread_rng();
    draw_between(&mut generator, SIGNAL_FLOOR, SIGNAL_CEILING)
}

} // verus!
