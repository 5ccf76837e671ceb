//! Run-once countdowns measured in whole nanoseconds.

use bevy::time::{Timer, TimerMode};
use std::time::Duration;
use vstd::prelude::*;

verus! {

/// Mathematical state of a run-once countdown.
pub struct CountdownView {
    /// Length of the countdown, in nanoseconds.
    pub duration: nat,
    /// Time counted so far, in nanoseconds.
    pub elapsed: nat,
    /// Whether a tick has carried the countdown to its end.
    pub finished: bool,
}

impl CountdownView {
    /// A countdown of the given length that has not counted anything yet.
    pub open spec fn fresh(duration: nat) -> CountdownView {
        CountdownView { duration, elapsed: 0, finished: false }
    }

    /// The countdown after `delta` more nanoseconds.
    ///
    /// A finished countdown stays as it is.  Otherwise the elapsed time grows
    /// by `delta`, stops at the duration, and the countdown is finished as
    /// soon as the duration is reached.
    pub open spec fn tick(self, delta: nat) -> CountdownView {
        if self.finished {
            self
        } else if self.elapsed + delta >= self.duration {
            CountdownView { duration: self.duration, elapsed: self.duration, finished: true }
        } else {
            CountdownView { duration: self.duration, elapsed: self.elapsed + delta, finished: false }
        }
    }

    /// The countdown rewound to its start.
    pub open spec fn reset(self) -> CountdownView {
        CountdownView { duration: self.duration, elapsed: 0, finished: false }
    }
}

/// A run-once countdown: it counts elapsed time up to a fixed duration and
/// then stays finished until it is reset.
#[derive(Clone, Copy, Debug)]
pub struct Countdown {
    duration: u64,
    elapsed: u64,
    finished: bool,
}

impl View for Countdown {
    type V = CountdownView;

    closed spec fn view(&self) -> CountdownView {
        CountdownView {
            duration: self.duration as nat,
            elapsed: self.elapsed as nat,
            finished: self.finished,
        }
    }
}

/// Advances an unfinished run-once `bevy::time::Timer` and reports where it
/// stands.
///
/// The body builds a `Timer` in `TimerMode::Once` with the given duration,
/// places its stopwatch at `elapsed` with `Timer::set_elapsed`, and calls
/// `Timer::tick` with `delta`.  The contract claims what `tick` does to a
/// timer that is neither paused nor finished: it adds `delta` to the elapsed
/// time, marks the timer finished exactly when the sum reaches the duration,
/// and in that case pins the elapsed time to the duration.  All three times
/// are below 2^64 nanoseconds, so the addition inside the stopwatch cannot
/// overflow a `Duration`.
#[verifier::external_body]
fn advance_once(duration: u64, elapsed: u64, delta: u64) -> (r: (u64, bool))
    ensures
        r.1 == (elapsed + delta >= duration),
        r.0 == (if elapsed + delta >= duration { duration as int } else { elapsed + delta }),
{
    let mut timer = Timer::new(Duration::from_nanos(duration), TimerMode::Once);
    timer.set_elapsed(Duration::from_nanos(elapsed));
    timer.tick(Duration::from_nanos(delta));
    (timer.elapsed().as_nanos() as u64, timer.finished())
}

impl Countdown {
    /// A countdown of `duration` nanoseconds that has not started counting.
    pub fn new(duration: u64) -> (c: Countdown)
        ensures
            c@ == CountdownView::fresh(duration as nat),
    {
        Countdown { duration, elapsed: 0, finished: false }
    }


    /// Counts `delta` more nanoseconds.
    pub fn tick(&mut self, delta: u64)
        ensures
            final(self)@ == old(self)@.tick(delta as nat),
    {
        if !self.finished {
            let (elapsed, finished) = advance_once(self.duration, self.elapsed, delta);
            self.elapsed = elapsed;
            self.finished = finished;
        }
    }

    /// Rewinds the countdown to its start.
    pub fn reset(&mut self)
        ensures
            final(self)@ == old(self)@.reset(),
    {
        self.elapsed = 0;
        self.finished = false;
    }

    /// Whether a tick has carried the countdown to its end.
    pub fn finished(&self) -> (b: bool)
        ensures
            b == self@.finished,
    {
        self.finished
    }

    /// Length of the countdown, in nanoseconds.
    pub fn duration_nanos(&self) -> (n: u64)
        ensures
            n == self@.duration,
    {
        self.duration
    }

    /// Time counted so far, in nanoseconds.
    pub fn elapsed_nanos(&self) -> (n: u64)
        ensures
            n == self@.elapsed,
    {
        self.elapsed
    }
}

} // verus!
