//! The limit on failing socket accepts: too many failures in a short time
//! switch the snapshot service off for good, and the engine runs on.
//!
//! Times are milliseconds on any clock that does not run backwards.

use vstd::prelude::*;

verus! {

/// The length of the window in which failures are counted.
pub const WINDOW_MS: u64 = 5000;

/// The number of failures in one window that is still borne.
pub const MAX_FAILURES: u8 = 10;

/// The count of accept failures in the current window.
#[derive(Clone, Copy, Debug, PartialEq, Eq, Structural)]
pub struct AcceptLimiter {
    /// When the current window began.
    pub window_start: u64,
    /// The failures counted in it.
    pub failures: u8,
    /// Whether the service is switched off.
    pub disabled: bool,
}

impl AcceptLimiter {
    /// The time that has gone by since the window began.
    pub open spec fn elapsed(self, now: u64) -> int {
        if now >= self.window_start {
            now - self.window_start
        } else {
            0
        }
    }

    /// Whether a failure at `now` is one too many: the service is off
    /// already, or more than `MAX_FAILURES` were counted and the window is
    /// still open.
    pub open spec fn trips(self, now: u64) -> bool {
        self.disabled || (self.failures > MAX_FAILURES && self.elapsed(now) < WINDOW_MS)
    }

    /// The limiter after a failure at `now`. One that trips switches the
    /// service off; the first one, or one after the window has closed,
    /// begins a new window with a count of one; any other is counted.
    pub open spec fn failed(self, now: u64) -> AcceptLimiter {
        if self.trips(now) {
            AcceptLimiter { disabled: true, ..self }
        } else if self.failures == 0 || self.elapsed(now) >= WINDOW_MS {
            AcceptLimiter { window_start: now, failures: 1, disabled: false }
        } else {
            AcceptLimiter { failures: (self.failures + 1) as u8, ..self }
        }
    }

    /// A limiter with nothing counted, its window beginning at `now`.
    pub fn new(now: u64) -> (l: AcceptLimiter)
        ensures
            l == (AcceptLimiter { window_start: now, failures: 0, disabled: false }),
    {
        AcceptLimiter { window_start: now, failures: 0, disabled: false }
    }

    /// Counts an accept failure at `now`, and says whether the service is
    /// to stop.
    pub fn on_failure(&mut self, now: u64) -> (stop: bool)
        ensures
            *final(self) == old(self).failed(now),
            stop == old(self).trips(now),
            stop == final(self).disabled,
    {
        let elapsed = if now >= self.window_start {
            now - self.window_start
        } else {
            0
        };
        if self.disabled || (self.failures > MAX_FAILURES && elapsed < WINDOW_MS) {
            self.disabled = true;
            true
        } else if self.failures == 0 || elapsed >= WINDOW_MS {
            self.window_start = now;
            self.failures = 1;
            false
        } else {
            self.failures = self.failures + 1;
            false
        }
    }
}

} // verus!
