use pomodoro::commands::settings::{get_settings, set_settings, SettingsPayload};
use pomodoro::commands::timer::{get_timer_state, reset_timer, to_secs_u32, TimerStatePayload};
use pomodoro::state::{Pomodoro, Settings, TimerMode, NANOS_PER_SEC};

fn settings(shortcut: Option<&str>) -> Settings {
    Settings {
        work_duration: 100 * NANOS_PER_SEC,
        relax_duration: 50 * NANOS_PER_SEC,
        long_relax_duration: 70 * NANOS_PER_SEC,
        toggle_timer_shortcut: shortcut.map(|s| s.to_string()),
        should_play_sound: Some(true),
    }
}

#[test]
fn timer_state_reports_current_interval() {
    let s = settings(None);
    let p = Pomodoro { cycles: 8, mode: TimerMode::Relax };
    assert_eq!(
        get_timer_state(&s, &p),
        TimerStatePayload { mode: TimerMode::Relax, cycle: 8, is_ended: false, duration_secs: 70 }
    );
}

#[test]
fn reset_moves_to_next_interval() {
    let s = settings(None);
    let change = reset_timer(&Pomodoro { cycles: 3, mode: TimerMode::Relax }, &s);
    assert_eq!(change.pomodoro, Pomodoro { cycles: 4, mode: TimerMode::Work });
    assert_eq!(change.duration, 100 * NANOS_PER_SEC);
    assert_eq!(
        change.state,
        TimerStatePayload { mode: TimerMode::Work, cycle: 4, is_ended: false, duration_secs: 100 }
    );
    let change = reset_timer(&change.pomodoro, &s);
    assert_eq!(change.pomodoro, Pomodoro { cycles: 4, mode: TimerMode::Relax });
    assert_eq!(change.duration, 70 * NANOS_PER_SEC);
    assert_eq!(change.state.duration_secs, 70);
}

#[test]
fn seconds_are_truncated_to_32_bits() {
    assert_eq!(to_secs_u32(1_999_999_999), 1);
    assert_eq!(to_secs_u32(5_000_000_000 * NANOS_PER_SEC), (5_000_000_000u64 % (1u64 << 32)) as u32);
}

#[test]
fn settings_payload_shows_whole_seconds() {
    let mut s = settings(Some("Ctrl + F"));
    s.work_duration += 999_999_999;
    let payload = get_settings(&s);
    assert_eq!(
        payload,
        SettingsPayload {
            work_duration_secs: 100,
            relax_duration_secs: 50,
            long_relax_duration_secs: 70,
            toggle_timer_shortcut: Some("Ctrl + F".to_string()),
        }
    );
    assert_eq!(SettingsPayload::from(s), payload);
}

#[test]
fn settings_from_payload_use_seconds_and_drop_sound() {
    let payload = SettingsPayload {
        work_duration_secs: 100,
        relax_duration_secs: 200,
        long_relax_duration_secs: 300,
        toggle_timer_shortcut: Some("Ctrl + A".to_string()),
    };
    let s = Settings::from(payload.clone());
    assert_eq!(
        s,
        Settings {
            work_duration: 100 * NANOS_PER_SEC,
            relax_duration: 200 * NANOS_PER_SEC,
            long_relax_duration: 300 * NANOS_PER_SEC,
            toggle_timer_shortcut: Some("Ctrl + A".to_string()),
            should_play_sound: None,
        }
    );
    assert_eq!(SettingsPayload::from(s), payload);
}

#[test]
fn largest_payload_round_trips() {
    let payload = SettingsPayload {
        work_duration_secs: u32::MAX,
        relax_duration_secs: 0,
        long_relax_duration_secs: 1,
        toggle_timer_shortcut: None,
    };
    assert_eq!(SettingsPayload::from(Settings::from(payload.clone())), payload);
}

#[test]
fn set_settings_restarts_work_and_swaps_shortcuts() {
    let old = settings(Some("Ctrl + A"));
    let payload = SettingsPayload {
        work_duration_secs: 1200,
        relax_duration_secs: 240,
        long_relax_duration_secs: 600,
        toggle_timer_shortcut: Some("Ctrl + B".to_string()),
    };
    let change = set_settings(payload, &old, &Pomodoro { cycles: 6, mode: TimerMode::Relax });
    assert_eq!(change.settings.work_duration, 1200 * NANOS_PER_SEC);
    assert_eq!(change.settings.should_play_sound, Some(true));
    assert_eq!(change.timer_duration, 1200 * NANOS_PER_SEC);
    assert_eq!(
        change.state,
        TimerStatePayload { mode: TimerMode::Work, cycle: 6, is_ended: false, duration_secs: 1200 }
    );
    assert_eq!(change.register_shortcut, Some("Ctrl + B".to_string()));
    assert_eq!(change.unregister_shortcut, Some("Ctrl + A".to_string()));
}

#[test]
fn set_settings_without_shortcut_only_unregisters() {
    let old = settings(Some("Ctrl + A"));
    let payload = SettingsPayload {
        work_duration_secs: 60,
        relax_duration_secs: 60,
        long_relax_duration_secs: 60,
        toggle_timer_shortcut: None,
    };
    let change = set_settings(payload, &old, &Pomodoro { cycles: 0, mode: TimerMode::Work });
    assert_eq!(change.register_shortcut, None);
    assert_eq!(change.unregister_shortcut, Some("Ctrl + A".to_string()));
    let change = set_settings(
        SettingsPayload {
            work_duration_secs: 60,
            relax_duration_secs: 60,
            long_relax_duration_secs: 60,
            toggle_timer_shortcut: None,
        },
        &settings(None),
        &Pomodoro { cycles: 0, mode: TimerMode::Work },
    );
    assert_eq!(change.register_shortcut, None);
    assert_eq!(change.unregister_shortcut, None);
}
