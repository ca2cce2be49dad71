//! A wait of some minutes, one second after the other.

use vstd::prelude::*;

verus! {

/// A wait under way.
#[derive(Debug, Clone, Copy, PartialEq, Eq, Structural)]
pub struct Countdown {
    pub total_secs: u64,
}

impl Countdown {
    /// The wait is one of so many minutes.
    pub open spec fn lasts(self, minutes: u64) -> bool {
        self.total_secs == minutes * 60
    }

    /// The wait still goes on after so many nanoseconds.
    pub open spec fn runs_at(self, elapsed_nanos: u128) -> bool {
        elapsed_nanos < self.total_secs * 1_000_000_000
    }

    /// A wait of so many minutes.
    pub fn of_minutes(minutes: u64) -> (r: Countdown)
        requires
            minutes * 60 <= u64::MAX,
        ensures
            r.total_secs == minutes * 60,
            r.lasts(minutes),
    {
        Countdown { total_secs: minutes * 60 }
    }

    /// Whether to wait for another second, now that so many nanoseconds have
    /// passed.
    pub fn goes_on(&self, elapsed_nanos: u128) -> (r: bool)
        ensures
            r <==> elapsed_nanos < self.total_secs * 1_000_000_000,
            r == self.runs_at(elapsed_nanos),
    {
        elapsed_nanos < self.total_secs as u128 * 1_000_000_000
    }
}

/// A wait lasts exactly the minutes that it was made for: until sixty thousand
/// million nanoseconds for each of them have passed, and not beyond.
pub proof fn law_wait_lasts_its_minutes(countdown: Countdown, minutes: u64, elapsed_nanos: u128)
    requires
        countdown.lasts(minutes),
    ensures
        countdown.runs_at(elapsed_nanos) <==> elapsed_nanos < minutes * 60_000_000_000,
{
}

} // verus!
