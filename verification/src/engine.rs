//! The decisions of the render/input loop: how long the input poll may
//! wait, which keys quit, and what one iteration does to the tick
//! counter and the cadence timer.

use vstd::prelude::*;

verus! {

/// A keyboard key, as far as the loop cares: a printable character,
/// the Escape key, or anything else.
#[derive(Clone, Copy, Debug, PartialEq, Eq)]
pub enum Key {
    Char(char),
    Esc,
    Other,
}

/// Milliseconds between animation-frame advances.
pub const CADENCE_MS: u64 = 80;

/// Whether a key asks the loop to stop: the letter 'q' or Escape.
pub open spec fn is_quit_spec(k: Key) -> bool {
    k == Key::Char('q') || k == Key::Esc
}

/// Decide whether a key quits the loop.
pub fn is_quit_key(k: Key) -> (b: bool)
    ensures
        b == is_quit_spec(k),
{
    match k {
        Key::Char(c) => c == 'q',
        Key::Esc => true,
        Key::Other => false,
    }
}

/// The tick counter after one advance: one more, wrapping to zero at
/// the largest value.
pub open spec fn next_tick(t: u64) -> u64 {
    if t == u64::MAX {
        0
    } else {
        (t + 1) as u64
    }
}

/// How long the input poll may wait: the remainder of the cadence
/// interval, or zero once it has fully elapsed, so the loop wakes at
/// least once per cadence interval.
pub fn poll_timeout_ms(elapsed_ms: u64) -> (t: u64)
    ensures
        elapsed_ms >= CADENCE_MS ==> t == 0,
        elapsed_ms < CADENCE_MS ==> t == CADENCE_MS - elapsed_ms,
        t <= CADENCE_MS,
{
    if elapsed_ms >= CADENCE_MS {
        0
    } else {
        CADENCE_MS - elapsed_ms
    }
}

/// What one loop iteration decided: whether to stop, the tick carried
/// into the next iteration, and whether the cadence timer restarts.
#[derive(Clone, Copy, Debug, PartialEq, Eq)]
pub struct StepOutcome {
    pub quit: bool,
    pub tick: u64,
    pub reset_timer: bool,
}

/// The decision one iteration makes from the key it read, if any, and
/// the milliseconds since the last advance: a quit key stops the loop
/// at once; otherwise the tick advances exactly when a full cadence
/// interval has elapsed, and the timer restarts with it.
pub open spec fn step_spec(tick: u64, input: Option<Key>, elapsed_ms: u64) -> StepOutcome {
    if input matches Some(k) && is_quit_spec(k) {
        StepOutcome { quit: true, tick: tick, reset_timer: false }
    } else if elapsed_ms >= CADENCE_MS {
        StepOutcome { quit: false, tick: next_tick(tick), reset_timer: true }
    } else {
        StepOutcome { quit: false, tick: tick, reset_timer: false }
    }
}

/// Run the decision part of one loop iteration.
pub fn loop_step(tick: u64, input: Option<Key>, elapsed_ms: u64) -> (o: StepOutcome)
    ensures
        o == step_spec(tick, input, elapsed_ms),
{
    let quit = match input {
        Some(k) => is_quit_key(k),
        None => false,
    };
    if quit {
        StepOutcome { quit: true, tick: tick, reset_timer: false }
    } else if elapsed_ms >= CADENCE_MS {
        let advanced: u64 = if tick == u64::MAX {
            0
        } else {
            tick + 1
        };
        StepOutcome { quit: false, tick: advanced, reset_timer: true }
    } else {
        StepOutcome { quit: false, tick: tick, reset_timer: false }
    }
}

/// A quit key stops the loop immediately: whatever the tick and however
/// little of the cadence interval has elapsed, the step that sees it
/// quits, and leaves the tick as it was.
pub proof fn lemma_quit_is_immediate(tick: u64, k: Key, elapsed_ms: u64)
    requires
        is_quit_spec(k),
    ensures
        step_spec(tick, Some(k), elapsed_ms).quit,
        step_spec(tick, Some(k), elapsed_ms).tick == tick,
{
}

} // verus!
