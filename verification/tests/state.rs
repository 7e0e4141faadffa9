use pomodoro::commands::timer::update_pomodoro_state;
use pomodoro::state::{Pomodoro, Settings, TimerMode, NANOS_PER_SEC};

fn settings() -> Settings {
    Settings {
        work_duration: 100 * NANOS_PER_SEC,
        relax_duration: 20 * NANOS_PER_SEC,
        long_relax_duration: 60 * NANOS_PER_SEC,
        toggle_timer_shortcut: None,
        should_play_sound: None,
    }
}

#[test]
fn duration_of_work_is_work_duration() {
    let p = Pomodoro { cycles: 4, mode: TimerMode::Work };
    assert_eq!(p.duration(&settings()), 100 * NANOS_PER_SEC);
}

#[test]
fn duration_of_relax_is_short_except_every_fourth_round() {
    let s = settings();
    assert_eq!(Pomodoro { cycles: 0, mode: TimerMode::Relax }.duration(&s), 20 * NANOS_PER_SEC);
    assert_eq!(Pomodoro { cycles: 3, mode: TimerMode::Relax }.duration(&s), 20 * NANOS_PER_SEC);
    assert_eq!(Pomodoro { cycles: 4, mode: TimerMode::Relax }.duration(&s), 60 * NANOS_PER_SEC);
    assert_eq!(Pomodoro { cycles: 5, mode: TimerMode::Relax }.duration(&s), 20 * NANOS_PER_SEC);
    assert_eq!(Pomodoro { cycles: 8, mode: TimerMode::Relax }.duration(&s), 60 * NANOS_PER_SEC);
}

#[test]
fn update_alternates_and_counts_rounds() {
    let p = Pomodoro { cycles: 2, mode: TimerMode::Work };
    let p = update_pomodoro_state(&p);
    assert_eq!(p, Pomodoro { cycles: 2, mode: TimerMode::Relax });
    let p = update_pomodoro_state(&p);
    assert_eq!(p, Pomodoro { cycles: 3, mode: TimerMode::Work });
}

#[test]
fn nine_intervals_from_start_reach_the_first_long_break() {
    let s = settings();
    let mut p = Pomodoro { cycles: 0, mode: TimerMode::Work };
    let mut long_breaks = 0;
    for _ in 0..9 {
        p = update_pomodoro_state(&p);
        if p.mode == TimerMode::Relax && p.duration(&s) == 60 * NANOS_PER_SEC {
            long_breaks += 1;
        }
    }
    assert_eq!(p, Pomodoro { cycles: 4, mode: TimerMode::Relax });
    assert_eq!(long_breaks, 1);
}

#[test]
fn default_settings_are_25_5_15_minutes() {
    let d = Settings::default();
    assert_eq!(d.work_duration, 25 * 60 * NANOS_PER_SEC);
    assert_eq!(d.relax_duration, 5 * 60 * NANOS_PER_SEC);
    assert_eq!(d.long_relax_duration, 15 * 60 * NANOS_PER_SEC);
    assert_eq!(d.toggle_timer_shortcut, None);
    assert_eq!(d.should_play_sound, None);
}

#[test]
fn bell_rings_only_when_asked() {
    let mut s = settings();
    assert!(!s.rings_bell());
    s.should_play_sound = Some(false);
    assert!(!s.rings_bell());
    s.should_play_sound = Some(true);
    assert!(s.rings_bell());
}
