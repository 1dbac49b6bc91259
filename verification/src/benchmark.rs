//! Render-time bookkeeping: timers that accumulate how long rendering and
//! readback took, counted in nanoseconds on the monotonic clock.

use vstd::prelude::*;

verus! {

/// std's monotonic clock reading, consumed as an opaque capability.
#[verifier::external_type_specification]
#[verifier::external_body]
pub struct ExInstant(std::time::Instant);

/// Longest span a `Duration` can report in nanoseconds: `u64::MAX` seconds
/// plus the largest sub-second remainder.
pub const MAX_ELAPSED_NANOS: u128 = 0xffff_ffff_ffff_ffff * 1_000_000_000 + 999_999_999;

/// Relies on `std::time::Instant::now`: some reading of the monotonic clock;
/// nothing more is assumed of it.
#[verifier::external_body]
fn instant_now() -> std::time::Instant {
    std::time::Instant::now()
}

/// Relies on `std::time::Instant::elapsed`: the span from `start` to now;
/// nothing more is assumed of it.
#[verifier::external_body]
fn instant_elapsed(start: &std::time::Instant) -> std::time::Duration {
    start.elapsed()
}

/// Relies on `std::time::Duration::as_nanos`: the whole nanoseconds of the
/// span, at most `u64::MAX` seconds and a sub-second remainder by the
/// documented range of `Duration`.
#[verifier::external_body]
fn duration_as_nanos(span: &std::time::Duration) -> (r: u128)
    ensures
        r <= MAX_ELAPSED_NANOS,
{
    span.as_nanos()
}

/// Adds a span to a running total, sticking at the largest representable
/// total instead of wrapping.
fn saturating_add_nanos(total: u128, delta: u128) -> (r: u128)
    ensures
        r == if total + delta <= u128::MAX {
            total + delta
        } else {
            u128::MAX as int
        },
{
    if delta <= u128::MAX - total {
        total + delta
    } else {
        u128::MAX
    }
}

/// Accumulates time over start/end spans, in nanoseconds.
#[derive(Clone, Debug, PartialEq, Eq, Hash)]
pub struct Timer {
    /// Total of the finished spans.
    pub time: u128,
    /// The pending span's starting reading, while one is open.
    pub start: Option<std::time::Instant>,
}

impl Timer {
    /// A timer with no time on it and no span pending.
    pub fn new() -> (r: Self)
        ensures
            r.time == 0,
            r.start is None,
    {
        Timer { time: 0, start: None }
    }

    /// Opens a span. Opening on top of a pending span was flagged as a
    /// programming error, so it is ruled out here.
    pub fn start(&mut self)
        requires
            old(self).start is None,
        ensures
            final(self).time == old(self).time,
            final(self).start is Some,
    {
        self.start = Some(instant_now());
    }

    /// Closes the pending span and adds it to the total. Closing without a
    /// pending span was flagged as a programming error, so it is ruled out
    /// here.
    pub fn end(&mut self)
        requires
            old(self).start is Some,
        ensures
            final(self).start is None,
            old(self).time <= final(self).time,
            final(self).time <= old(self).time + MAX_ELAPSED_NANOS,
    {
        let started = self.start.unwrap();
        let span = instant_elapsed(&started);
        let delta = duration_as_nanos(&span);
        self.time = saturating_add_nanos(self.time, delta);
        self.start = None;
    }
}

impl Default for Timer {
    /// A timer with no time on it and no span pending.
    fn default() -> (r: Self)
        ensures
            r.time == 0,
            r.start is None,
    {
        Timer::new()
    }
}

/// The two timers one render keeps: the rendering itself, and copying the
/// result back.
#[derive(Clone, Debug, PartialEq, Eq, Hash)]
pub struct Bench {
    pub render: Timer,
    pub copy: Timer,
}

impl Bench {
    /// Two fresh timers.
    pub fn new() -> (r: Self)
        ensures
            r.render.time == 0,
            r.render.start is None,
            r.copy.time == 0,
            r.copy.start is None,
    {
        Bench { render: Timer::new(), copy: Timer::new() }
    }

    /// The totals once both timers are closed. Reading them with a span
    /// still pending was flagged as a programming error, so it is ruled out
    /// here.
    pub fn total(self) -> (r: TotalTime)
        requires
            self.render.start is None,
            self.copy.start is None,
        ensures
            r.render == self.render.time,
            r.copy == self.copy.time,
    {
        TotalTime { render: self.render.time, copy: self.copy.time }
    }
}

impl Default for Bench {
    /// Two fresh timers.
    fn default() -> (r: Self)
        ensures
            r.render.time == 0,
            r.render.start is None,
            r.copy.time == 0,
            r.copy.start is None,
    {
        Bench::new()
    }
}

/// Closed totals of one render, in nanoseconds.
#[derive(Clone, Copy, Debug, Default, PartialEq, Eq, PartialOrd, Ord, Hash)]
pub struct TotalTime {
    pub render: u128,
    pub copy: u128,
}

impl TotalTime {
    /// Rendering and copying together, sticking at the largest representable
    /// total instead of wrapping.
    pub fn combined(&self) -> (r: u128)
        ensures
            r == if self.render + self.copy <= u128::MAX {
                self.render + self.copy
            } else {
                u128::MAX as int
            },
    {
        saturating_add_nanos(self.render, self.copy)
    }
}

} // verus!
