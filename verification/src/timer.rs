//! Timers: the trait, and the desktop timer on the monotonic clock.

use crate::platform::PlatformError;
use std::time::Duration;
use std::time::Instant;
use vstd::prelude::*;

verus! {

/// `std::time::Instant`: a reading of the monotonic clock.
#[verifier::external_type_specification]
#[verifier::external_body]
pub struct ExInstant(Instant);

/// The duration of `nanos` nanoseconds: what `Duration::from_nanos` returns.
pub uninterp spec fn duration_of_nanos(nanos: u64) -> Duration;

/// `Duration::from_nanos`: the duration of that many nanoseconds. The
/// duration is named, not described.
pub assume_specification[ Duration::from_nanos ](nanos: u64) -> (d: Duration)
    ensures
        d == duration_of_nanos(nanos),
;

/// `Instant::now`: a reading of the monotonic clock. Nothing is stated of it.
pub assume_specification[ Instant::now ]() -> (t: Instant);

/// `Instant::elapsed`: the time since the reading was taken. It depends on
/// the clock, so nothing is stated of it.
#[verifier::external_body]
fn time_since(reading: &Instant) -> (d: Duration) {
    reading.elapsed()
}

/// A timer that can be started, read and stopped.
pub trait Timer {
    fn start(&mut self) -> Result<(), PlatformError>;

    fn elapsed(&self) -> Duration;

    fn stop(&mut self) -> Result<(), PlatformError>;

    fn is_running(&self) -> bool;
}

/// A timer on the monotonic clock. It runs from a `start` until the next
/// `stop`.
pub struct DesktopTimer {
    start_time: Option<Instant>,
}

impl DesktopTimer {
    /// Whether the timer was started and not stopped since.
    pub closed spec fn running(&self) -> bool {
        self.start_time is Some
    }

    /// A timer that is not running.
    pub fn new() -> (r: Self)
        ensures
            !r.running(),
    {
        DesktopTimer { start_time: None }
    }
}

impl Default for DesktopTimer {
    fn default() -> (r: Self)
        ensures
            !r.running(),
    {
        DesktopTimer::new()
    }
}

impl Timer for DesktopTimer {
    /// Starts the timer now. A timer that runs already starts over.
    fn start(&mut self) -> (r: Result<(), PlatformError>)
        ensures
            r is Ok,
            final(self).running(),
    {
        self.start_time = Some(Instant::now());
        Ok(())
    }

    /// The time since the last `start`; zero where the timer is not running.
    fn elapsed(&self) -> (d: Duration)
        ensures
            !self.running() ==> d == duration_of_nanos(0),
    {
        match &self.start_time {
            Some(reading) => time_since(reading),
            None => Duration::from_nanos(0),
        }
    }

    /// Stops the timer.
    fn stop(&mut self) -> (r: Result<(), PlatformError>)
        ensures
            r is Ok,
            !final(self).running(),
    {
        self.start_time = None;
        Ok(())
    }

    fn is_running(&self) -> (r: bool)
        ensures
            r == self.running(),
    {
        self.start_time.is_some()
    }
}

} // verus!
