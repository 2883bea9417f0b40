//! Concrete game states driven by the state machine.
//!
//! The opening state fades a logo in and out over a fixed span; the title
//! state blinks its key prompt once a second; the pause state keeps no data
//! of its own and only dims the preserved gameplay scene beneath it. Time
//! is carried in whole milliseconds; what the states decide — opacities,
//! blink phases, when the opening ends — is verified here, and the host
//! loop draws the result and feeds the machine.

use vstd::prelude::*;

verus! {

/// One day in milliseconds: the longest accepted state timer span.
pub const TIMER_LIMIT: i64 = 86_400_000;

/// The logo opacity at `rem` milliseconds remaining of `total`: a ramp up
/// over the first quarter of the span, full opacity in the middle, and a
/// ramp down over the last quarter (a span too short to quarter shows the
/// logo in full).
pub open spec fn spec_logo_alpha(total: int, rem: int) -> int {
    let p = total / 4;
    if p == 0 {
        255
    } else if total - rem < p {
        (total - rem) * 255 / p
    } else if rem < p {
        if rem <= 0 {
            0
        } else {
            rem * 255 / p
        }
    } else {
        255
    }
}

/// The opening state: a logo shown for a fixed span.
#[derive(Debug, PartialEq, Eq, Clone, Copy, Structural)]
pub struct OpeningState {
    /// The whole span, milliseconds.
    pub total_ms: i64,
    /// What remains of it; negative once the span has run out.
    pub remaining_ms: i64,
}

/// Timer sanity for the opening state.
pub open spec fn opening_wf(s: OpeningState) -> bool {
    &&& 0 <= s.total_ms <= TIMER_LIMIT
    &&& -1 <= s.remaining_ms <= s.total_ms
}

impl OpeningState {
    /// An opening that runs for `elapse_ms` milliseconds.
    pub fn new(elapse_ms: i64) -> (s: OpeningState)
        requires
            0 <= elapse_ms <= TIMER_LIMIT,
        ensures
            opening_wf(s),
            s.total_ms == elapse_ms,
            s.remaining_ms == elapse_ms,
    {
        OpeningState { total_ms: elapse_ms, remaining_ms: elapse_ms }
    }

    /// The logo opacity for the current instant.
    pub fn logo_alpha(&self) -> (a: u8)
        requires
            opening_wf(*self),
        ensures
            a == spec_logo_alpha(self.total_ms as int, self.remaining_ms as int),
    {
        let p = self.total_ms / 4;
        if p == 0 {
            255
        } else {
            let elapsed = self.total_ms - self.remaining_ms;
            if elapsed < p {
                proof {
                    lemma_ramp_fits(elapsed as int, p as int);
                }
                ((elapsed * 255) / p) as u8
            } else if self.remaining_ms < p {
                if self.remaining_ms <= 0 {
                    0
                } else {
                    proof {
                        lemma_ramp_fits(self.remaining_ms as int, p as int);
                    }
                    ((self.remaining_ms * 255) / p) as u8
                }
            } else {
                255
            }
        }
    }

    /// One frame of the opening: the remaining span shrinks by `dt_ms`
    /// (bottoming out just below zero), and the opening is over once it has
    /// run out or the player skipped it.
    pub fn update(&mut self, dt_ms: i64, skip: bool) -> (done: bool)
        requires
            opening_wf(*old(self)),
            0 <= dt_ms <= TIMER_LIMIT,
        ensures
            opening_wf(*final(self)),
            final(self).total_ms == old(self).total_ms,
            final(self).remaining_ms == (if old(self).remaining_ms - dt_ms < -1 {
                -1int
            } else {
                old(self).remaining_ms - dt_ms
            }),
            done == (final(self).remaining_ms < 0 || skip),
    {
        if self.remaining_ms - dt_ms < -1 {
            self.remaining_ms = -1;
        } else {
            self.remaining_ms = self.remaining_ms - dt_ms;
        }
        self.remaining_ms < 0 || skip
    }
}

/// A ramp value stays within a byte: `0 <= v·255/p <= 255` for
/// `0 <= v < p` and for `0 < v < p` alike.
proof fn lemma_ramp_fits(v: int, p: int)
    requires
        0 <= v <= p,
        1 <= p,
    ensures
        0 <= v * 255 / p <= 255,
{
    assert(0 <= v * 255 <= p * 255) by (nonlinear_arith)
        requires
            0 <= v <= p,
    ;
    assert(v * 255 / p <= p * 255 / p) by (nonlinear_arith)
        requires
            0 <= v * 255 <= p * 255 && 1 <= p,
    ;
    assert(p * 255 / p == 255) by (nonlinear_arith)
        requires
            1 <= p,
    ;
    assert(0 <= v * 255 / p) by (nonlinear_arith)
        requires
            0 <= v * 255 && 1 <= p,
    ;
}

/// The title state: a blinking key prompt.
#[derive(Debug, PartialEq, Eq, Clone, Copy, Structural)]
pub struct TitleState {
    pub show_prompt: bool,
    /// Milliseconds since the prompt last toggled.
    pub timer_ms: i64,
}

impl TitleState {
    /// A title screen with the prompt shown.
    pub fn new() -> (s: TitleState)
        ensures
            s.show_prompt,
            s.timer_ms == 0,
    {
        TitleState { show_prompt: true, timer_ms: 0 }
    }

    /// One frame of the title screen: the prompt toggles once its timer
    /// passes a second.
    pub fn on_update(&mut self, dt_ms: i64)
        requires
            0 <= old(self).timer_ms <= 1000,
            0 <= dt_ms <= TIMER_LIMIT,
        ensures
            0 <= final(self).timer_ms <= 1000,
            old(self).timer_ms + dt_ms > 1000 ==> final(self).show_prompt == !old(
                self,
            ).show_prompt && final(self).timer_ms == 0,
            old(self).timer_ms + dt_ms <= 1000 ==> final(self).show_prompt == old(
                self,
            ).show_prompt && final(self).timer_ms == old(self).timer_ms + dt_ms,
    {
        self.timer_ms = self.timer_ms + dt_ms;
        if self.timer_ms > 1000 {
            self.show_prompt = !self.show_prompt;
            self.timer_ms = 0;
        }
    }
}

/// The pause overlay state.
#[derive(Debug, PartialEq, Eq, Clone, Copy, Structural)]
pub struct PauseState {
}

impl PauseState {
    /// A fresh pause overlay.
    pub fn new() -> (s: PauseState)
        ensures
            s == (PauseState {  }),
    {
        PauseState {  }
    }
}

} // verus!
