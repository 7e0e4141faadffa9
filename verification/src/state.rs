//! The Pomodoro cycle and the user's settings.

use vstd::prelude::*;

verus! {

/// Nanoseconds in one second.
pub const NANOS_PER_SEC: u64 = 1_000_000_000;

/// Whether the current interval is a work session or a break.
#[derive(Clone, Copy, Debug, PartialEq, Eq, Structural)]
pub enum TimerMode {
    Work,
    Relax,
}

/// The user's settings. Durations are in nanoseconds.
#[derive(Clone, Debug, PartialEq, Eq)]
pub struct Settings {
    pub work_duration: u64,
    pub relax_duration: u64,
    pub long_relax_duration: u64,
    pub toggle_timer_shortcut: Option<String>,
    pub should_play_sound: Option<bool>,
}

/// The settings a first start uses: 25 minutes of work, 5 minutes of short
/// break, 15 minutes of long break, no shortcut and no sound preference.
pub open spec fn default_settings() -> Settings {
    Settings {
        work_duration: 1_500_000_000_000,
        relax_duration: 300_000_000_000,
        long_relax_duration: 900_000_000_000,
        toggle_timer_shortcut: None,
        should_play_sound: None,
    }
}

impl Default for Settings {
    fn default() -> (s: Self)
        ensures
            s == default_settings(),
    {
        Settings {
            work_duration: 60 * 25 * NANOS_PER_SEC,
            relax_duration: 60 * 5 * NANOS_PER_SEC,
            long_relax_duration: 60 * 15 * NANOS_PER_SEC,
            toggle_timer_shortcut: None,
            should_play_sound: None,
        }
    }
}

impl Settings {
    /// Whether the bell rings at the end of an interval: only when the user
    /// asked for sound.
    pub fn rings_bell(&self) -> (b: bool)
        ensures
            b == (self.should_play_sound == Some(true)),
    {
        match self.should_play_sound {
            Some(play) => play,
            None => false,
        }
    }
}

/// Where the user is in the cycle: how many work/relax rounds are complete, and
/// what the current interval is.
#[derive(Clone, Copy, Debug, PartialEq, Eq, Structural)]
pub struct Pomodoro {
    pub cycles: u32,
    pub mode: TimerMode,
}

/// A break is long when it follows a whole number of rounds of four (and at
/// least one round).
pub open spec fn is_long_relax(p: Pomodoro) -> bool {
    &&& p.mode == TimerMode::Relax
    &&& p.cycles % 4 == 0
    &&& p.cycles > 0
}

/// The length of the current interval under the given settings.
pub open spec fn interval_duration(p: Pomodoro, settings: Settings) -> u64 {
    match p.mode {
        TimerMode::Work => settings.work_duration,
        TimerMode::Relax => if is_long_relax(p) {
            settings.long_relax_duration
        } else {
            settings.relax_duration
        },
    }
}

impl Pomodoro {
    /// The length of the current interval: the work duration while working, the
    /// long break after every fourth round, the short break otherwise.
    pub fn duration(&self, settings: &Settings) -> (d: u64)
        ensures
            d == interval_duration(*self, *settings),
    {
        match self.mode {
            TimerMode::Work => settings.work_duration,
            TimerMode::Relax => {
                if self.cycles % 4 == 0 && self.cycles > 0 {
                    settings.long_relax_duration
                } else {
                    settings.relax_duration
                }
            },
        }
    }
}


/// The interval that follows `p`: a break follows work, and work follows a
/// break, one more round being then complete.
pub open spec fn next_pomodoro(p: Pomodoro) -> Pomodoro {
    match p.mode {
        TimerMode::Relax => Pomodoro { mode: TimerMode::Work, cycles: (p.cycles + 1) as u32 },
        TimerMode::Work => Pomodoro { mode: TimerMode::Relax, cycles: p.cycles },
    }
}

/// The state at start-up: no round complete, a work session ahead.
pub open spec fn initial_pomodoro() -> Pomodoro {
    Pomodoro { cycles: 0, mode: TimerMode::Work }
}

/// The state after `n` intervals from start-up.
pub open spec fn pomodoro_after(n: nat) -> Pomodoro
    decreases n,
{
    if n == 0 {
        initial_pomodoro()
    } else {
        next_pomodoro(pomodoro_after((n - 1) as nat))
    }
}

/// After `n` intervals from start-up, `n / 2` rounds are complete, and the
/// current interval is work when `n` is even and a break when it is odd.
pub proof fn lemma_pomodoro_after(n: nat)
    requires
        n / 2 <= u32::MAX,
    ensures
        pomodoro_after(n).cycles == n / 2,
        pomodoro_after(n).mode == (if n % 2 == 0 { TimerMode::Work } else { TimerMode::Relax }),
    decreases n,
{
    if n > 0 {
        lemma_pomodoro_after((n - 1) as nat);
    }
}

/// Two steps from a work session lead to the next work session, with one more
/// round complete.
pub proof fn lemma_full_round(p: Pomodoro)
    requires
        p.mode == TimerMode::Work,
        p.cycles < u32::MAX,
    ensures
        next_pomodoro(next_pomodoro(p)) == (Pomodoro { cycles: (p.cycles + 1) as u32, mode: TimerMode::Work }),
{
}

/// Counting from start-up, the break of round `k` (the one after the `k + 1`-th
/// work session) is long exactly when `k` is a positive multiple of four.
pub proof fn lemma_long_relax_rounds(k: nat, settings: Settings)
    requires
        k <= u32::MAX,
    ensures
        pomodoro_after(2 * k + 1).mode == TimerMode::Relax,
        interval_duration(pomodoro_after(2 * k + 1), settings) == (if k > 0 && k % 4 == 0 {
            settings.long_relax_duration
        } else {
            settings.relax_duration
        }),
{
    lemma_pomodoro_after(2 * k + 1);
    assert((2 * k + 1) / 2 == k);
    assert((2 * k + 1) % 2 == 1);
}

} // verus!
