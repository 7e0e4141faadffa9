//! The settings as the user interface sends and receives them, and what
//! changing them does.

use vstd::prelude::*;
use vstd::std_specs::convert::FromSpecImpl;
use crate::state::{Pomodoro, Settings, TimerMode, NANOS_PER_SEC, interval_duration};
use crate::commands::timer::{TimerStatePayload, secs_u32, to_secs_u32, state_payload};

verus! {

/// The settings as the user interface edits them: durations in whole seconds.
#[derive(Clone, Debug, PartialEq, Eq)]
pub struct SettingsPayload {
    pub work_duration_secs: u32,
    pub relax_duration_secs: u32,
    pub long_relax_duration_secs: u32,
    pub toggle_timer_shortcut: Option<String>,
}

/// The settings shown to the user: each duration in whole seconds, truncated to
/// 32 bits.
pub open spec fn payload_from_settings(s: Settings) -> SettingsPayload {
    SettingsPayload {
        work_duration_secs: secs_u32(s.work_duration),
        relax_duration_secs: secs_u32(s.relax_duration),
        long_relax_duration_secs: secs_u32(s.long_relax_duration),
        toggle_timer_shortcut: s.toggle_timer_shortcut,
    }
}

/// The settings the user chose: each duration the given number of seconds; the
/// payload carries no sound preference, so none is kept.
pub open spec fn settings_from_payload(p: SettingsPayload) -> Settings {
    Settings {
        work_duration: (p.work_duration_secs * NANOS_PER_SEC) as u64,
        relax_duration: (p.relax_duration_secs * NANOS_PER_SEC) as u64,
        long_relax_duration: (p.long_relax_duration_secs * NANOS_PER_SEC) as u64,
        toggle_timer_shortcut: p.toggle_timer_shortcut,
        should_play_sound: None,
    }
}

/// A copy of a shortcut.
fn clone_shortcut(shortcut: &Option<String>) -> (copy: Option<String>)
    ensures
        copy == *shortcut,
{
    match shortcut {
        Some(s) => Some(s.clone()),
        None => None,
    }
}

/// A duration of `secs` seconds, in nanoseconds.
fn secs_to_nanos(secs: u32) -> (nanos: u64)
    ensures
        nanos == secs * NANOS_PER_SEC,
{
    assert(secs * NANOS_PER_SEC <= u32::MAX * NANOS_PER_SEC) by (nonlinear_arith);
    (secs as u64) * NANOS_PER_SEC
}

impl From<Settings> for SettingsPayload {
    fn from(settings: Settings) -> (payload: Self) {
        SettingsPayload {
            long_relax_duration_secs: to_secs_u32(settings.long_relax_duration),
            relax_duration_secs: to_secs_u32(settings.relax_duration),
            work_duration_secs: to_secs_u32(settings.work_duration),
            toggle_timer_shortcut: settings.toggle_timer_shortcut,
        }
    }
}

impl FromSpecImpl<Settings> for SettingsPayload {
    open spec fn obeys_from_spec() -> bool {
        true
    }

    open spec fn from_spec(v: Settings) -> Self {
        payload_from_settings(v)
    }
}

impl From<SettingsPayload> for Settings {
    fn from(payload: SettingsPayload) -> (settings: Self) {
        Settings {
            long_relax_duration: secs_to_nanos(payload.long_relax_duration_secs),
            relax_duration: secs_to_nanos(payload.relax_duration_secs),
            work_duration: secs_to_nanos(payload.work_duration_secs),
            toggle_timer_shortcut: payload.toggle_timer_shortcut,
            should_play_sound: None,
        }
    }
}

impl FromSpecImpl<SettingsPayload> for Settings {
    open spec fn obeys_from_spec() -> bool {
        true
    }

    open spec fn from_spec(v: SettingsPayload) -> Self {
        settings_from_payload(v)
    }
}

/// The current settings, as the user interface asks for them.
pub fn get_settings(settings: &Settings) -> (payload: SettingsPayload)
    ensures
        payload == payload_from_settings(*settings),
{
    SettingsPayload::from(Settings {
        work_duration: settings.work_duration,
        relax_duration: settings.relax_duration,
        long_relax_duration: settings.long_relax_duration,
        toggle_timer_shortcut: clone_shortcut(&settings.toggle_timer_shortcut),
        should_play_sound: settings.should_play_sound,
    })
}

/// What saving new settings does, in order: the settings are replaced, the
/// timer restarts from the new work duration, the main window shows a work
/// interval of that length, the settings are written to disk, the new shortcut
/// (if any) is registered, and the old one (if any) is unregistered.
pub struct SettingsChange {
    pub settings: Settings,
    pub timer_duration: u64,
    pub state: TimerStatePayload,
    pub register_shortcut: Option<String>,
    pub unregister_shortcut: Option<String>,
}

/// The change that saving `new_settings` makes, when the cycle is at `pomodoro`
/// and the settings were `old`: the new settings are those sent, keeping the
/// old sound preference (the payload carries none); the timer restarts a work
/// interval of the new work duration in the current round, and the shortcut is
/// swapped.
pub open spec fn settings_change(new_settings: SettingsPayload, old: Settings, pomodoro: Pomodoro) -> SettingsChange {
    let settings = Settings { should_play_sound: old.should_play_sound, ..settings_from_payload(new_settings) };
    SettingsChange {
        settings: settings,
        timer_duration: settings.work_duration,
        state: TimerStatePayload {
            mode: TimerMode::Work,
            cycle: pomodoro.cycles,
            is_ended: false,
            duration_secs: secs_u32(settings.work_duration),
        },
        register_shortcut: new_settings.toggle_timer_shortcut,
        unregister_shortcut: old.toggle_timer_shortcut,
    }
}

/// Applies settings sent by the user interface while the cycle is at `pomodoro`
/// and the settings were `old`.
pub fn set_settings(new_settings: SettingsPayload, old: &Settings, pomodoro: &Pomodoro) -> (change: SettingsChange)
    ensures
        change == settings_change(new_settings, *old, *pomodoro),
{
    let mut settings = Settings::from(new_settings);
    settings.should_play_sound = old.should_play_sound;
    let register_shortcut = clone_shortcut(&settings.toggle_timer_shortcut);
    let timer_duration = settings.work_duration;
    let state = TimerStatePayload {
        cycle: pomodoro.cycles,
        duration_secs: to_secs_u32(settings.work_duration),
        is_ended: false,
        mode: TimerMode::Work,
    };
    SettingsChange {
        settings,
        timer_duration,
        state,
        register_shortcut,
        unregister_shortcut: clone_shortcut(&old.toggle_timer_shortcut),
    }
}


/// Reading back settings that were just saved from the user interface gives
/// the user interface what it sent.
pub proof fn lemma_payload_round_trip(p: SettingsPayload)
    ensures
        payload_from_settings(settings_from_payload(p)) == p,
{
    lemma_secs_round_trip(p.work_duration_secs);
    lemma_secs_round_trip(p.relax_duration_secs);
    lemma_secs_round_trip(p.long_relax_duration_secs);
}

proof fn lemma_secs_round_trip(secs: u32)
    ensures
        secs_u32((secs * NANOS_PER_SEC) as u64) == secs,
{
    assert(secs * NANOS_PER_SEC <= u32::MAX * NANOS_PER_SEC) by (nonlinear_arith);
    assert((secs * NANOS_PER_SEC) / (NANOS_PER_SEC as int) == secs) by (nonlinear_arith);
}

proof fn lemma_nanos_round_trip(nanos: u64)
    requires
        nanos % NANOS_PER_SEC == 0,
        nanos / NANOS_PER_SEC <= u32::MAX,
    ensures
        (secs_u32(nanos) * NANOS_PER_SEC) as u64 == nanos,
{
    let q = nanos / NANOS_PER_SEC;
    assert(nanos == q * NANOS_PER_SEC) by (nonlinear_arith)
        requires
            nanos % NANOS_PER_SEC == 0,
            q == nanos / NANOS_PER_SEC;
}

/// Settings whose durations are whole seconds that fit in 32 bits, and that
/// carry no sound preference, come back unchanged from the user interface.
pub proof fn lemma_settings_round_trip(s: Settings)
    requires
        s.work_duration % NANOS_PER_SEC == 0,
        s.work_duration / NANOS_PER_SEC <= u32::MAX,
        s.relax_duration % NANOS_PER_SEC == 0,
        s.relax_duration / NANOS_PER_SEC <= u32::MAX,
        s.long_relax_duration % NANOS_PER_SEC == 0,
        s.long_relax_duration / NANOS_PER_SEC <= u32::MAX,
        s.should_play_sound == None::<bool>,
    ensures
        settings_from_payload(payload_from_settings(s)) == s,
{
    lemma_nanos_round_trip(s.work_duration);
    lemma_nanos_round_trip(s.relax_duration);
    lemma_nanos_round_trip(s.long_relax_duration);
}

/// The shortcuts registered after a settings change is carried out on the
/// shortcuts registered before: the new shortcut is registered unless it was
/// already, then the old one is unregistered if it still is.
pub open spec fn shortcuts_after(registered: Set<Seq<char>>, change: SettingsChange) -> Set<Seq<char>> {
    let with_new = match change.register_shortcut {
        Some(s) => registered.insert(s@),
        None => registered,
    };
    match change.unregister_shortcut {
        Some(s) => with_new.remove(s@),
        None => with_new,
    }
}

/// After a settings change that sets a different shortcut, the new shortcut is
/// registered, the old one is not, and no other shortcut changes.
pub proof fn lemma_shortcut_replaced(
    registered: Set<Seq<char>>,
    new_settings: SettingsPayload,
    old: Settings,
    pomodoro: Pomodoro,
    other: Seq<char>,
)
    requires
        new_settings.toggle_timer_shortcut is Some,
        old.toggle_timer_shortcut is Some ==> old.toggle_timer_shortcut->0@ != new_settings.toggle_timer_shortcut->0@,
        other != new_settings.toggle_timer_shortcut->0@,
        old.toggle_timer_shortcut is Some ==> other != old.toggle_timer_shortcut->0@,
    ensures
        shortcuts_after(registered, settings_change(new_settings, old, pomodoro)).contains(new_settings.toggle_timer_shortcut->0@),
        old.toggle_timer_shortcut is Some ==> !shortcuts_after(registered, settings_change(new_settings, old, pomodoro)).contains(old.toggle_timer_shortcut->0@),
        shortcuts_after(registered, settings_change(new_settings, old, pomodoro)).contains(other) == registered.contains(other),
{
}

/// After a settings change that removes the shortcut, the old shortcut is no
/// longer registered and no other shortcut changes.
pub proof fn lemma_shortcut_removed(
    registered: Set<Seq<char>>,
    new_settings: SettingsPayload,
    old: Settings,
    pomodoro: Pomodoro,
    other: Seq<char>,
)
    requires
        new_settings.toggle_timer_shortcut is None,
        old.toggle_timer_shortcut is Some,
        other != old.toggle_timer_shortcut->0@,
    ensures
        !shortcuts_after(registered, settings_change(new_settings, old, pomodoro)).contains(old.toggle_timer_shortcut->0@),
        shortcuts_after(registered, settings_change(new_settings, old, pomodoro)).contains(other) == registered.contains(other),
{
}


/// During a work interval, the state shown after saving settings is the state
/// reported afterwards under the new settings, and the timer restarts with the
/// length shown.
pub proof fn lemma_saved_settings_show_current_state(new_settings: SettingsPayload, old: Settings, pomodoro: Pomodoro)
    requires
        pomodoro.mode == TimerMode::Work,
    ensures
        settings_change(new_settings, old, pomodoro).state
            == state_payload(pomodoro, settings_change(new_settings, old, pomodoro).settings),
        settings_change(new_settings, old, pomodoro).timer_duration
            == interval_duration(pomodoro, settings_change(new_settings, old, pomodoro).settings),
{
}


/// Saving settings stores what the user sent: each duration is the payload's
/// field of the same name in nanoseconds, the shortcut is the one sent, and the
/// sound preference is the old one; read back, the stored settings give the
/// payload again.
pub proof fn lemma_saved_settings_are_payload(new_settings: SettingsPayload, old: Settings, pomodoro: Pomodoro)
    ensures
        settings_change(new_settings, old, pomodoro).settings.work_duration == new_settings.work_duration_secs
            * NANOS_PER_SEC,
        settings_change(new_settings, old, pomodoro).settings.relax_duration == new_settings.relax_duration_secs
            * NANOS_PER_SEC,
        settings_change(new_settings, old, pomodoro).settings.long_relax_duration
            == new_settings.long_relax_duration_secs * NANOS_PER_SEC,
        settings_change(new_settings, old, pomodoro).settings.toggle_timer_shortcut
            == new_settings.toggle_timer_shortcut,
        settings_change(new_settings, old, pomodoro).settings.should_play_sound == old.should_play_sound,
        payload_from_settings(settings_change(new_settings, old, pomodoro).settings) == new_settings,
{
    assert(new_settings.work_duration_secs * NANOS_PER_SEC <= u32::MAX * NANOS_PER_SEC) by (nonlinear_arith);
    assert(new_settings.relax_duration_secs * NANOS_PER_SEC <= u32::MAX * NANOS_PER_SEC) by (nonlinear_arith);
    assert(new_settings.long_relax_duration_secs * NANOS_PER_SEC <= u32::MAX * NANOS_PER_SEC) by (nonlinear_arith);
    lemma_payload_round_trip(new_settings);
}

} // verus!
