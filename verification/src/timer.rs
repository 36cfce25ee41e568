//! Timers: actions deferred until enough time has passed.
//!
//! A timer is due as soon as its elapsed time has reached its duration.
//! A timer of duration zero is therefore due from the start, and the first
//! tick of the queue that holds it fires it, whatever the tick's length.

use vstd::prelude::*;
use vstd::string::*;
use crate::action::{Action, ActionView};

verus! {

/// The tag by which timers are found, replaced and cancelled together.
#[derive(Debug, Clone, Copy, PartialEq, Eq, Structural, Hash)]
pub enum TimerType {
    EnemyAttack,
    Oxygen,
    Reboot,
    Storytime,
}

/// A countdown with the action it releases.
#[derive(Debug)]
pub struct Timer {
    pub timer_type: TimerType,
    pub label: String,
    pub elapsed: u64,
    pub duration: u64,
    pub action: Action,
    pub is_visual: bool,
}

/// A timer as plain values.
pub struct TimerView {
    pub timer_type: TimerType,
    pub label: Seq<char>,
    pub elapsed: u64,
    pub duration: u64,
    pub action: ActionView,
    pub is_visual: bool,
}

impl View for Timer {
    type V = TimerView;

    open spec fn view(&self) -> TimerView {
        TimerView {
            timer_type: self.timer_type,
            label: self.label@,
            elapsed: self.elapsed,
            duration: self.duration,
            action: self.action@,
            is_visual: self.is_visual,
        }
    }
}

impl TimerView {
    /// Whether the timer has run out: the boundary counts as run out.
    pub open spec fn is_done(self) -> bool {
        self.elapsed >= self.duration
    }

    /// The timer after `dt` more milliseconds. The elapsed time stops at
    /// the largest value it can hold, which is never below the duration.
    pub open spec fn advanced(self, dt: u64) -> TimerView {
        TimerView {
            elapsed: if self.elapsed + dt > u64::MAX {
                u64::MAX
            } else {
                (self.elapsed + dt) as u64
            },
            ..self
        }
    }

    /// The timer with its elapsed time set back to zero.
    pub open spec fn rewound(self) -> TimerView {
        TimerView { elapsed: 0, ..self }
    }

    /// How much of the duration has elapsed, in percent, at most 100.
    /// A timer of duration zero counts as fully elapsed.
    pub open spec fn percent(self) -> int {
        if self.duration == 0 || self.elapsed >= self.duration {
            100
        } else {
            self.elapsed * 100 / (self.duration as int)
        }
    }

    /// How much of the duration is left, in percent.
    /// A timer of duration zero has nothing left.
    pub open spec fn percent_left(self) -> int {
        if self.duration == 0 || self.elapsed >= self.duration {
            0
        } else {
            (self.duration - self.elapsed) * 100 / (self.duration as int)
        }
    }
}

/// The value of `input` held between two bounds.
pub open spec fn clamped(input: int, min: int, max: int) -> int {
    if input < min {
        min
    } else if input > max {
        max
    } else {
        input
    }
}

/// `num::clamp` on wide integers: the input where it lies between the
/// bounds, the lower bound where it is less, the upper bound where it is
/// more. The bounds must be in order.
#[verifier::external_body]
fn clamp(input: i128, min: i128, max: i128) -> (r: i128)
    requires
        min <= max,
    ensures
        r == clamped(input as int, min as int, max as int),
{
    num::clamp(input, min, max)
}

impl Timer {
    /// A timer of the given kind that releases `action` once `duration`
    /// milliseconds have elapsed, `elapsed` of which count as gone already.
    pub fn new(
        timer_type: TimerType,
        label: &str,
        elapsed: u64,
        duration: u64,
        action: Action,
        is_visual: bool,
    ) -> (r: Self)
        ensures
            r@ == (TimerView {
                timer_type,
                label: label@,
                elapsed,
                duration,
                action: action@,
                is_visual,
            }),
    {
        Timer { timer_type, label: String::from_str(label), elapsed, duration, action, is_visual }
    }

    /// Lets `dt` milliseconds pass. The elapsed time never goes down.
    pub fn tick(&mut self, dt: u64)
        ensures
            final(self)@ == old(self)@.advanced(dt),
            final(self)@.elapsed >= old(self)@.elapsed,
            final(self)@.is_done() <==> old(self)@.elapsed + dt >= old(self)@.duration,
    {
        self.elapsed = self.elapsed.saturating_add(dt);
    }

    /// How much of the duration has elapsed, in percent, at most 100.
    pub fn current_percent(&self) -> (r: u8)
        ensures
            r == self@.percent(),
            r <= 100,
            r == 100 <==> self@.is_done(),
    {
        if self.duration == 0 || self.elapsed >= self.duration {
            100
        } else {
            let scaled: u128 = self.elapsed as u128 * 100;
            let r: u128 = scaled / (self.duration as u128);
            assert(r < 100) by (nonlinear_arith)
                requires
                    r == (self.elapsed * 100) / (self.duration as int),
                    self.elapsed < self.duration,
            ;
            r as u8
        }
    }

    /// How much of the duration is left, in percent, for a progress bar
    /// that runs down: 100 for a fresh timer, 0 once it is due.
    pub fn remaining_percent(&self) -> (r: u16)
        ensures
            r == self@.percent_left(),
            r <= 100,
            r == 0 <== self@.is_done(),
    {
        if self.duration == 0 {
            return 0;
        }
        let duration = self.duration as i128;
        let left: i128 = duration - self.elapsed as i128;
        let scaled: i128 = left * 100 / duration;
        let r = clamp(scaled, 0, 100);
        proof {
            if left >= 0 {
                assert(0 <= left * 100 / (duration as int) <= 100) by (nonlinear_arith)
                    requires
                        0 <= left <= duration,
                        duration > 0,
                ;
                if left == 0 {
                    assert(left * 100 / (duration as int) == 0) by (nonlinear_arith)
                        requires
                            left == 0,
                            duration > 0,
                    ;
                }
            }
        }
        r as u16
    }

    /// Whether the timer has run out.
    pub fn is_done(&self) -> (r: bool)
        ensures
            r == self@.is_done(),
    {
        self.elapsed >= self.duration
    }

    /// Sets the elapsed time back to zero.
    pub fn rewind(&mut self)
        ensures
            final(self)@ == old(self)@.rewound(),
    {
        self.elapsed = 0;
    }
}

impl Clone for Timer {
    /// A copy that reads the same.
    fn clone(&self) -> (r: Self)
        ensures
            r@ == self@,
    {
        Timer {
            timer_type: self.timer_type,
            label: self.label.clone(),
            elapsed: self.elapsed,
            duration: self.duration,
            action: self.action.clone(),
            is_visual: self.is_visual,
        }
    }
}

/// The views of a sequence of timers, in order.
pub open spec fn timers_view(timers: Seq<Timer>) -> Seq<TimerView> {
    timers.map_values(|t: Timer| t@)
}

} // verus!
