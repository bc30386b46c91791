//! Lengths of time, counted in whole nanoseconds.

use vstd::prelude::*;

verus! {

/// Nanoseconds in one second.
pub const NANOS_PER_SEC: u64 = 1_000_000_000;

/// The longest length in whole seconds that a [`TimeSpan`] can hold.
pub const MAX_SECS: u64 = 18_446_744_073;

/// A length of time with nanosecond resolution.
///
/// Its view is the number of nanoseconds it holds.
#[derive(Clone, Copy, Debug, PartialEq, Eq, PartialOrd, Ord, Hash)]
pub struct TimeSpan {
    nanos: u64,
}

impl View for TimeSpan {
    type V = nat;

    closed spec fn view(&self) -> nat {
        self.nanos as nat
    }
}

/// The difference `a - b`, or zero where `b` exceeds `a`.
pub open spec fn saturating_diff(a: nat, b: nat) -> nat {
    if a >= b {
        (a - b) as nat
    } else {
        0
    }
}

impl TimeSpan {
    /// The empty length of time.
    pub fn zero() -> (span: TimeSpan)
        ensures
            span@ == 0,
    {
        TimeSpan { nanos: 0 }
    }

    /// The length of `nanos` nanoseconds.
    pub fn from_nanos(nanos: u64) -> (span: TimeSpan)
        ensures
            span@ == nanos,
    {
        TimeSpan { nanos }
    }

    /// The length of `secs` whole seconds.
    pub fn from_secs(secs: u64) -> (span: TimeSpan)
        requires
            secs <= MAX_SECS,
        ensures
            span@ == secs * NANOS_PER_SEC,
    {
        TimeSpan { nanos: secs * NANOS_PER_SEC }
    }

    /// The whole length in nanoseconds.
    pub fn as_nanos(&self) -> (nanos: u64)
        ensures
            nanos == self@,
    {
        self.nanos
    }

    /// The number of whole seconds; what is left of a second is dropped.
    pub fn as_secs(&self) -> (secs: u64)
        ensures
            secs == self@ / (NANOS_PER_SEC as nat),
    {
        self.nanos / NANOS_PER_SEC
    }

    /// Whether the length is empty.
    pub fn is_zero(&self) -> (empty: bool)
        ensures
            empty <==> self@ == 0,
    {
        self.nanos == 0
    }

    /// What is left of `self` once `elapsed` nanoseconds are taken from it,
    /// floored at zero.
    pub fn saturating_sub_nanos(self, elapsed: u128) -> (rest: TimeSpan)
        ensures
            rest@ == saturating_diff(self@, elapsed as nat),
    {
        if elapsed >= self.nanos as u128 {
            TimeSpan { nanos: 0 }
        } else {
            TimeSpan { nanos: self.nanos - (elapsed as u64) }
        }
    }
}

} // verus!
