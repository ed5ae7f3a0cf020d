//! The simulation clock and the source of randomness.

use rand::Rng;
use vstd::prelude::*;

verus! {

/// Milliseconds since the simulation started.
pub type SimTime = u64;

pub const TICKS_PER_SECOND: SimTime = 1;

/// How far the clock advances on each tick.
pub const MS_PER_TICK: SimTime = 1000 / TICKS_PER_SECOND;

/// A source of random draws for the damage formula.  The simulation only
/// ever needs a uniform draw out of a thousand (for the critical-hit and
/// direct-hit rolls, whose rates have a resolution of a tenth of a percent)
/// and a uniform draw out of a half-open range (for the damage variance
/// roll).  A deterministic implementation can be substituted for testing.
pub trait SimRng {
    /// A draw in `[0, 1000)`.
    fn random_permille(&self) -> (r: u64)
        ensures
            r < 1000,
    ;

    /// A draw in `[low_inclusive, high_exclusive)`.
    fn random_from_range(&self, low_inclusive: i64, high_exclusive: i64) -> (r: i64)
        requires
            low_inclusive < high_exclusive,
        ensures
            low_inclusive <= r < high_exclusive,
    ;
}

/// Relies on `rand::Rng::gen_range` (through `rand::thread_rng`): the draw
/// is uniform over the given half-open range, which must be non-empty.
#[verifier::external_body]
fn rand_range_u64(low: u64, high: u64) -> (r: u64)
    requires
        low < high,
    ensures
        low <= r < high,
{
    rand::thread_rng().gen_range(low..high)
}

/// Relies on `rand::Rng::gen_range` (through `rand::thread_rng`): the draw
/// is uniform over the given half-open range, which must be non-empty.
#[verifier::external_body]
fn rand_range_i64(low: i64, high: i64) -> (r: i64)
    requires
        low < high,
    ensures
        low <= r < high,
{
    rand::thread_rng().gen_range(low..high)
}

/// The default randomness source, backed by the thread-local generator of
/// the `rand` crate.
pub struct RealRng {}

impl SimRng for RealRng {
    fn random_permille(&self) -> (r: u64) {
        rand_range_u64(0, 1000)
    }

    fn random_from_range(&self, low_inclusive: i64, high_exclusive: i64) -> (r: i64) {
        rand_range_i64(low_inclusive, high_exclusive)
    }
}

/// The simulation clock, advanced only by `tick`, plus the instance-wide
/// randomness source.
pub struct SimState<R: SimRng> {
    pub milliseconds: SimTime,
    pub rng: R,
}

impl<R: SimRng> SimState<R> {
    pub fn new(rng: R) -> (r: Self)
        ensures
            r.milliseconds == 0,
    {
        SimState { milliseconds: 0, rng }
    }

    /// Advance the clock by one fixed step and return the new time.
    pub fn tick(&mut self) -> (r: SimTime)
        requires
            old(self).milliseconds + MS_PER_TICK <= u64::MAX,
        ensures
            final(self).milliseconds == old(self).milliseconds + MS_PER_TICK,
            final(self).rng == old(self).rng,
            r == final(self).milliseconds,
    {
        self.milliseconds = self.milliseconds + MS_PER_TICK;
        self.milliseconds
    }

    /// Read the current time without advancing it.
    pub fn now(&self) -> (r: SimTime)
        ensures
            r == self.milliseconds,
    {
        self.milliseconds
    }
}

impl Default for SimState<RealRng> {
    fn default() -> (r: Self)
        ensures
            r.milliseconds == 0,
    {
        SimState { milliseconds: 0, rng: RealRng {} }
    }
}

} // verus!
