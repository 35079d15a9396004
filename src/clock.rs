use vstd::prelude::*;

verus! {

/// Time that has passed from `from` to `to`, in microseconds of a monotonic
/// clock; zero where `to` is not later.
pub open spec fn elapsed(from: u64, to: u64) -> u64 {
    if to >= from {
        (to - from) as u64
    } else {
        0
    }
}

/// The longest press of the pointer, in microseconds, that still counts as a
/// click.
pub const CLICK_TIME: u64 = 150_000;

/// Whether a press and a release of the pointer make a click, which toggles
/// a cell, rather than a pan: the press was shorter than `CLICK_TIME` and
/// the pointer stayed within its slop meanwhile.
pub fn is_click(pressed_at: u64, released_at: u64, within_slop: bool) -> (r: bool)
    ensures
        r == (elapsed(pressed_at, released_at) < CLICK_TIME && within_slop),
{
    let held = if released_at >= pressed_at {
        released_at - pressed_at
    } else {
        0
    };
    held < CLICK_TIME && within_slop
}

/// Whether the simulation advances by itself, and when it last did.
/// Instants are microseconds of a monotonic clock.
#[derive(Debug, Clone, Copy, PartialEq, Eq, Structural)]
pub enum LoopState {
    Playing { last_update: u64 },
    Stopped,
}

impl LoopState {
    /// The state a simulation starts in: stopped.
    pub fn new() -> (r: Self)
        ensures
            r == LoopState::Stopped,
    {
        LoopState::Stopped
    }

    /// Whether an interval has passed since the last step while playing.
    pub fn should_step(&self, now: u64, interval: u64) -> (r: bool)
        ensures
            r == self.should_step_spec(now, interval),
    {
        match self {
            LoopState::Playing { last_update } => {
                let passed = if now >= *last_update {
                    now - *last_update
                } else {
                    0
                };
                passed >= interval
            },
            LoopState::Stopped => false,
        }
    }

    /// When playing and an interval has passed since the last step, moves the
    /// last step to `now` and says that a step is due; else changes nothing.
    /// At most one step is due per call, however many intervals have passed.
    pub fn update(&mut self, now: u64, interval: u64) -> (r: bool)
        ensures
            r == old(self).should_step_spec(now, interval),
            r ==> *final(self) == (LoopState::Playing { last_update: now }),
            !r ==> *final(self) == *old(self),
    {
        if self.should_step(now, interval) {
            *self = LoopState::Playing { last_update: now };
            true
        } else {
            false
        }
    }

    /// Whether an interval has passed since the last step while playing.
    pub open spec fn should_step_spec(self, now: u64, interval: u64) -> bool {
        self matches LoopState::Playing { last_update } && elapsed(last_update, now) >= interval
    }

    /// Whether the simulation advances by itself.
    pub fn is_playing(&self) -> (r: bool)
        ensures
            r == (*self is Playing),
    {
        match self {
            LoopState::Stopped => false,
            LoopState::Playing { .. } => true,
        }
    }
}

} // verus!
