//! Moving through the cycle and reporting the timer's state.

use vstd::prelude::*;
use crate::state::{Pomodoro, Settings, TimerMode, next_pomodoro, interval_duration, NANOS_PER_SEC};

verus! {

/// Whole seconds of a duration in nanoseconds, truncated to 32 bits as the
/// user interface receives them.
pub open spec fn secs_u32(nanos: u64) -> u32 {
    (nanos / NANOS_PER_SEC) as u32
}

/// Whole seconds of a duration, truncated to 32 bits.
pub fn to_secs_u32(nanos: u64) -> (secs: u32)
    ensures
        secs == secs_u32(nanos),
{
    let secs: u64 = nanos / NANOS_PER_SEC;
    #[verifier::truncate]
    (secs as u32)
}

/// What the user interface shows of the timer: the interval, the round, whether
/// the interval has just ended and its length in whole seconds.
#[derive(Clone, Copy, Debug, PartialEq, Eq, Structural)]
pub struct TimerStatePayload {
    pub mode: TimerMode,
    pub cycle: u32,
    pub is_ended: bool,
    pub duration_secs: u32,
}

/// Moves the cycle on by one interval. Completing a break that follows the
/// `u32::MAX`-th round would overflow the round counter.
pub fn update_pomodoro_state(state: &Pomodoro) -> (next: Pomodoro)
    requires
        state.mode == TimerMode::Relax ==> state.cycles < u32::MAX,
    ensures
        next == next_pomodoro(*state),
{
    match state.mode {
        TimerMode::Relax => Pomodoro { mode: TimerMode::Work, cycles: state.cycles + 1 },
        TimerMode::Work => Pomodoro { mode: TimerMode::Relax, cycles: state.cycles },
    }
}

/// The state the user interface shows for the current interval.
pub open spec fn state_payload(p: Pomodoro, settings: Settings) -> TimerStatePayload {
    TimerStatePayload {
        mode: p.mode,
        cycle: p.cycles,
        is_ended: false,
        duration_secs: secs_u32(interval_duration(p, settings)),
    }
}

/// The state of the current interval, as the user interface asks for it.
pub fn get_timer_state(settings: &Settings, pomodoro: &Pomodoro) -> (payload: TimerStatePayload)
    ensures
        payload == state_payload(*pomodoro, *settings),
{
    let duration = pomodoro.duration(settings);
    TimerStatePayload {
        mode: pomodoro.mode,
        cycle: pomodoro.cycles,
        is_ended: false,
        duration_secs: to_secs_u32(duration),
    }
}

/// What skipping to the next interval does: the new place in the cycle, the
/// length the timer restarts with, and the state to show.
pub struct CycleChange {
    pub pomodoro: Pomodoro,
    pub duration: u64,
    pub state: TimerStatePayload,
}

/// Ends the current interval early and moves to the next one: the timer is to
/// restart with the next interval's length.
pub fn reset_timer(pomodoro: &Pomodoro, settings: &Settings) -> (change: CycleChange)
    requires
        pomodoro.mode == TimerMode::Relax ==> pomodoro.cycles < u32::MAX,
    ensures
        change.pomodoro == next_pomodoro(*pomodoro),
        change.duration == interval_duration(next_pomodoro(*pomodoro), *settings),
        change.state == state_payload(next_pomodoro(*pomodoro), *settings),
{
    let next = update_pomodoro_state(pomodoro);
    let duration = next.duration(settings);
    CycleChange {
        pomodoro: next,
        duration,
        state: TimerStatePayload {
            mode: next.mode,
            cycle: next.cycles,
            is_ended: false,
            duration_secs: to_secs_u32(duration),
        },
    }
}


/// The state shown when skipping to the next interval is the state reported
/// for that interval when the user interface asks afterwards, and the timer
/// restarts with the length shown.
pub proof fn lemma_reset_shows_next_state(pomodoro: Pomodoro, settings: Settings)
    ensures
        state_payload(next_pomodoro(pomodoro), settings).duration_secs
            == secs_u32(interval_duration(next_pomodoro(pomodoro), settings)),
        state_payload(next_pomodoro(pomodoro), settings).mode == next_pomodoro(pomodoro).mode,
        state_payload(next_pomodoro(pomodoro), settings).cycle == next_pomodoro(pomodoro).cycles,
        !state_payload(next_pomodoro(pomodoro), settings).is_ended,
{
}

} // verus!
