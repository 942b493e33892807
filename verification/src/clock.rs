//! The process-local clock against which send times are measured.

use std::time::Duration;
use std::time::Instant;
use vstd::prelude::*;

verus! {

#[verifier::external_type_specification]
#[verifier::external_body]
pub struct ExInstant(Instant);

/// `Instant::now` of std: the current reading of the monotonic clock. Nothing
/// is claimed of it.
#[verifier::external_body]
fn instant_now() -> Instant {
    Instant::now()
}

/// `Instant::elapsed` of std: the time that has passed since `start` was
/// read. Nothing is claimed of it.
#[verifier::external_body]
fn instant_elapsed(start: &Instant) -> Duration {
    start.elapsed()
}

/// `Duration::as_micros` of std: the whole microseconds in `span`. Nothing is
/// claimed of it.
#[verifier::external_body]
fn duration_as_micros(span: &Duration) -> u128 {
    span.as_micros()
}

/// The microseconds `micros` as a 64-bit number, held at `u64::MAX` once
/// they no longer fit.
pub open spec fn clamped(micros: u128) -> u64 {
    if micros > u64::MAX {
        u64::MAX
    } else {
        micros as u64
    }
}

/// The reading of a clock whose last reading was `last_us`, when `micros`
/// microseconds have passed since its start: the later of the two.
pub open spec fn reading_after(last_us: u64, micros: u128) -> u64 {
    if clamped(micros) > last_us {
        clamped(micros)
    } else {
        last_us
    }
}

/// A reference instant, taken once, from which a process counts its
/// microseconds, and the last reading that was taken. Readings of one clock
/// never go back. Readings of two clocks cannot be compared.
pub struct Clock {
    epoch: Instant,
    last_us: u64,
}

impl Clock {
    /// The last reading that was taken of the clock; zero before the first.
    pub closed spec fn last_reading(&self) -> u64 {
        self.last_us
    }

    /// Starts a clock at the present instant. No reading was taken of it.
    pub fn start() -> (clock: Clock)
        ensures
            clock.last_reading() == 0,
    {
        Clock { epoch: instant_now(), last_us: 0 }
    }

    /// The last reading that was taken of the clock; zero before the first.
    pub fn last_us(&self) -> (last_us: u64)
        ensures
            last_us == self.last_reading(),
    {
        self.last_us
    }

    /// Takes a reading, given that `micros` microseconds have passed since
    /// the start: the microseconds, held at `u64::MAX` once they no longer
    /// fit, and held at the last reading where they would fall behind it.
    pub fn observe(&mut self, micros: u128) -> (now_us: u64)
        ensures
            now_us == reading_after(old(self).last_reading(), micros),
            final(self).last_reading() == now_us,
    {
        let reading: u64 = if micros > u64::MAX as u128 {
            u64::MAX
        } else {
            micros as u64
        };
        if reading > self.last_us {
            self.last_us = reading;
        }
        self.last_us
    }

    /// Reads the clock: the microseconds since it was started, held at
    /// `u64::MAX` once they no longer fit. A reading is never less than the
    /// one before it, and the clock remembers it as its last.
    pub fn now_us(&mut self) -> (now_us: u64)
        ensures
            now_us >= old(self).last_reading(),
            final(self).last_reading() == now_us,
    {
        let span = instant_elapsed(&self.epoch);
        let micros: u128 = duration_as_micros(&span);
        self.observe(micros)
    }
}

} // verus!
