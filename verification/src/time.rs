//! Wall-clock helpers. Trait-based so tests can inject a fixed clock.

use vstd::prelude::*;

verus! {

/// Whole seconds in `ms` milliseconds, rounded toward zero (as Rust's `/`).
pub open spec fn seconds_of_ms(ms: int) -> int {
    if ms >= 0 {
        ms / 1000
    } else {
        -((-ms) / 1000)
    }
}

/// Seconds since the epoch from milliseconds since the epoch.
pub fn unix_seconds(ms: i64) -> (s: i64)
    ensures
        s == seconds_of_ms(ms as int),
{
    ms / 1000
}

pub trait Clock {
    /// Whether `ms` is a reading this clock can give.
    spec fn reads(&self, ms: i64) -> bool;

    /// Milliseconds since the Unix epoch.
    fn now_ms(&self) -> (ms: i64)
        ensures
            self.reads(ms),
    ;

    /// Whole seconds since the Unix epoch of a reading of the clock.
    fn now_unix_seconds(&self) -> (s: i64)
        ensures
            exists|ms: i64| self.reads(ms) && s == seconds_of_ms(ms as int),
    {
        let ms = self.now_ms();
        unix_seconds(ms)
    }
}

/// The machine's clock, milliseconds since the epoch, or `None` when the
/// clock reads before the epoch (`SystemTime::now().duration_since(UNIX_EPOCH)`,
/// as whole milliseconds). Nothing is stated of the reading: it is the time.
#[verifier::external_body]
fn system_time_ms() -> (r: Option<i64>) {
    std::time::SystemTime::now().duration_since(std::time::UNIX_EPOCH).ok().map(|d| d.as_millis() as i64)
}

pub struct SystemClock;

impl SystemClock {
    pub fn new() -> (c: SystemClock) {
        SystemClock
    }
}

impl Clock for SystemClock {
    /// Any reading: it is the machine's time.
    open spec fn reads(&self, ms: i64) -> bool {
        true
    }

    /// The machine's time; a clock set before the epoch reads as the epoch.
    fn now_ms(&self) -> (ms: i64) {
        match system_time_ms() {
            Some(ms) => ms,
            None => 0,
        }
    }
}

/// A clock that reads what it was set to, for tests.
pub struct FixedClock {
    pub at_ms: i64,
}

impl FixedClock {
    pub fn new(now_ms: i64) -> (c: FixedClock)
        ensures
            c.at_ms == now_ms,
    {
        FixedClock { at_ms: now_ms }
    }

    /// Move the clock by `by_ms`, wrapping around on overflow.
    pub fn advance(&mut self, by_ms: i64)
        ensures
            final(self).at_ms == old(self).at_ms.wrapping_add(by_ms),
    {
        self.at_ms = self.at_ms.wrapping_add(by_ms);
    }
}

impl Clock for FixedClock {
    /// Only the time it was set to.
    open spec fn reads(&self, ms: i64) -> bool {
        ms == self.at_ms
    }

    fn now_ms(&self) -> (ms: i64)
        ensures
            ms == self.at_ms,
    {
        self.at_ms
    }
}

} // verus!
