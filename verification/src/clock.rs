//! A monotonic clock that counts nanoseconds from the moment it was started.

use std::time::Duration;
use std::time::Instant;
use vstd::prelude::*;

verus! {

/// `std::time::Instant`, carried through as an opaque value.
#[verifier::external_type_specification]
#[verifier::external_body]
pub struct ExInstant(Instant);

/// `Instant::now` reads the system's monotonic clock. Nothing is claimed of
/// the instant it returns.
pub assume_specification[ Instant::now ]() -> Instant;

/// `Instant::elapsed` measures the time since `origin` on the system's
/// monotonic clock. Nothing is claimed of the length it returns.
pub assume_specification[ Instant::elapsed ](origin: &Instant) -> Duration;

/// `Duration::as_nanos` gives a length of time in whole nanoseconds. The
/// lengths measured here come from the clock, so nothing is claimed of the
/// number.
pub assume_specification[ Duration::as_nanos ](span: &Duration) -> u128;

/// A clock whose readings never go back.
///
/// A reading is the number of nanoseconds since the clock was started. The
/// clock remembers its latest reading and never hands out a smaller one,
/// whatever the system reports.
#[derive(Clone, Copy, Debug)]
pub struct Clock {
    origin: Instant,
    latest: u128,
}

impl Clock {
    /// The latest reading that the clock has handed out.
    pub closed spec fn reading(&self) -> nat {
        self.latest as nat
    }

    /// Starts a clock at the present moment, with reading zero.
    pub fn start() -> (clock: Clock)
        ensures
            clock.reading() == 0,
    {
        Clock { origin: Instant::now(), latest: 0 }
    }

    /// The latest reading once more, without looking at the system's clock.
    pub fn latest(&self) -> (latest: u128)
        ensures
            latest == self.reading(),
    {
        self.latest
    }

    /// Reads the clock. The reading is at least the one before it.
    pub fn now(&mut self) -> (now: u128)
        ensures
            now == final(self).reading(),
            old(self).reading() <= final(self).reading(),
    {
        let measured: u128 = self.origin.elapsed().as_nanos();
        if measured > self.latest {
            self.latest = measured;
        }
        self.latest
    }
}

} // verus!
