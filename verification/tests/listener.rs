use pomodoro::commands::timer::TimerStatePayload;
use pomodoro::listener::{format_tray_title, handle_timer_tick};
use pomodoro::state::{Pomodoro, TimerMode, NANOS_PER_SEC};

#[test]
fn tray_title_pads_minutes_and_seconds() {
    assert_eq!(format_tray_title(0), "00:00");
    assert_eq!(format_tray_title(9), "00:09");
    assert_eq!(format_tray_title(59), "00:59");
    assert_eq!(format_tray_title(249), "04:09");
    assert_eq!(format_tray_title(600), "10:00");
    assert_eq!(format_tray_title(1500), "25:00");
    assert_eq!(format_tray_title(6000), "100:00");
    assert_eq!(format_tray_title(6059), "100:59");
}

#[test]
fn tray_title_reads_back_as_seconds() {
    for secs in [0u64, 1, 61, 3599, 3600, 86399, 123456] {
        let title = format_tray_title(secs);
        let (m, s) = title.split_at(title.len() - 3);
        let s = &s[1..];
        assert_eq!(s.len(), 2);
        assert_eq!(60 * m.parse::<u64>().unwrap() + s.parse::<u64>().unwrap(), secs);
    }
}

#[test]
fn tick_with_time_left_announces_no_end() {
    let p = Pomodoro { cycles: 2, mode: TimerMode::Work };
    let tick = handle_timer_tick(61 * NANOS_PER_SEC + 500_000_000, &p);
    assert_eq!(tick.remaining_secs, 61);
    assert_eq!(tick.tray_title, "01:01");
    assert_eq!(tick.ended, None);
    let tick = handle_timer_tick(1, &p);
    assert_eq!(tick.remaining_secs, 0);
    assert_eq!(tick.ended, None);
}

#[test]
fn tick_at_zero_announces_end() {
    let p = Pomodoro { cycles: 3, mode: TimerMode::Relax };
    let tick = handle_timer_tick(0, &p);
    assert_eq!(tick.remaining_secs, 0);
    assert_eq!(tick.tray_title, "00:00");
    assert_eq!(
        tick.ended,
        Some(TimerStatePayload { mode: TimerMode::Relax, cycle: 3, is_ended: true, duration_secs: 0 })
    );
}
