//! Timestamps and time differences, both counted in milliseconds since the
//! Unix epoch.

use vstd::prelude::*;

verus! {

/// A timestamp type, representing a concrete moment in time.
#[derive(Clone, Copy, Debug, PartialEq, Eq, Structural, Hash)]
pub struct Timestamp(pub u64);

impl View for Timestamp {
    type V = u64;

    open spec fn view(&self) -> u64 {
        self.0
    }
}

impl Timestamp {
    /// Returns the timestamp of the current moment.
    ///
    /// Relies on std::time::SystemTime: reads the system clock, so nothing
    /// can be promised of the value. A clock reading before the Unix epoch is
    /// reported as the epoch itself.
    #[verifier::external_body]
    pub fn now() -> Timestamp {
        match std::time::SystemTime::UNIX_EPOCH.elapsed() {
            Ok(duration) => Timestamp(duration.as_millis() as u64),
            Err(_) => Timestamp(0),
        }
    }

    /// Returns the time that has elapsed since this timestamp, or zero if the
    /// clock reads a moment earlier than it.
    pub fn elapsed(&self) -> TimeDiff {
        Timestamp::now().saturating_sub(*self)
    }

    /// Returns a zero timestamp.
    pub fn zero() -> (r: Timestamp)
        ensures
            r@ == 0,
    {
        Timestamp(0)
    }

    /// Returns the timestamp for the given number of milliseconds since the
    /// Unix epoch.
    pub fn from_millis(millis: u64) -> (r: Timestamp)
        ensures
            r@ == millis,
    {
        Timestamp(millis)
    }

    /// Returns the timestamp as the number of milliseconds since the Unix
    /// epoch.
    pub fn millis(&self) -> (r: u64)
        ensures
            r == self@,
    {
        self.0
    }

    /// Returns the difference between `self` and `other`, or zero if `self`
    /// is earlier than `other`.
    pub fn saturating_sub(self, other: Timestamp) -> (r: TimeDiff)
        ensures
            r@ == if self@ >= other@ { self@ - other@ } else { 0 },
    {
        TimeDiff(if self.0 >= other.0 { self.0 - other.0 } else { 0 })
    }

    /// Returns the number of trailing zeros in the number of milliseconds
    /// since the epoch.
    pub fn trailing_zeros(&self) -> (r: u8)
        ensures
            r == vstd::std_specs::bits::u64_trailing_zeros(self@),
    {
        self.0.trailing_zeros() as u8
    }

    /// Returns the moment lying the given difference after `self`.
    pub fn add_diff(self, diff: TimeDiff) -> (r: Timestamp)
        requires
            self@ + diff@ <= u64::MAX,
        ensures
            r@ == self@ + diff@,
    {
        Timestamp(self.0 + diff.0)
    }

    /// Returns the time from `earlier` to `self`.
    pub fn diff_since(self, earlier: Timestamp) -> (r: TimeDiff)
        requires
            self@ >= earlier@,
        ensures
            r@ == self@ - earlier@,
    {
        TimeDiff(self.0 - earlier.0)
    }

    /// Returns the later of the two moments.
    pub fn later_of(self, other: Timestamp) -> (r: Timestamp)
        ensures
            r@ == if self@ >= other@ { self@ } else { other@ },
    {
        if self.0 >= other.0 {
            self
        } else {
            other
        }
    }
}

/// A time difference between two timestamps.
#[derive(Clone, Copy, Debug, PartialEq, Eq, Structural, Hash)]
pub struct TimeDiff(pub u64);

impl View for TimeDiff {
    type V = u64;

    open spec fn view(&self) -> u64 {
        self.0
    }
}

impl TimeDiff {
    /// Returns the time difference of the given number of milliseconds.
    pub fn from_millis(millis: u64) -> (r: TimeDiff)
        ensures
            r@ == millis,
    {
        TimeDiff(millis)
    }

    /// Returns the difference as a number of milliseconds.
    pub fn millis(&self) -> (r: u64)
        ensures
            r == self@,
    {
        self.0
    }
}

} // verus!
