use std::time::{Duration, Instant};

use pomodoro::timer::{countdown_step, CountdownStep, Timer, TimerEvent, TimerSettings};

fn nanos(d: Duration) -> u64 {
    d.as_nanos() as u64
}

fn wait(d: Duration) {
    let start = Instant::now();
    while start.elapsed() < d {}
}

#[test]
fn it_initializes_with_stopped_timer() {
    let timer = Timer::new(TimerSettings {
        duration: nanos(Duration::from_secs(10)),
        update_frequency: nanos(Duration::from_secs(1)),
    });

    assert!(!timer.is_running());
    assert_eq!(Duration::from_nanos(timer.elapsed()).as_millis(), 0);
    assert_eq!(Duration::from_nanos(timer.remaining()).as_secs(), 10);
}

#[test]
fn it_starts_the_timer() {
    let mut timer = Timer::new(TimerSettings {
        duration: nanos(Duration::from_secs(10)),
        update_frequency: nanos(Duration::from_secs(1)),
    });

    timer.start();

    assert!(timer.is_running());
}

#[test]
fn it_pauses_the_timer() {
    let mut timer = Timer::new(TimerSettings {
        duration: nanos(Duration::from_secs(10)),
        update_frequency: nanos(Duration::from_millis(100)),
    });

    timer.start();
    timer.pause();

    assert!(!timer.is_running());
    assert_eq!(
        Duration::from_nanos(timer.elapsed()).as_secs(),
        Duration::from_secs(0).as_secs()
    );
}

#[test]
fn it_resets_the_timer() {
    let old_duration = Duration::from_secs(10);
    let new_duration = old_duration + Duration::from_secs(10);
    let mut timer = Timer::new(TimerSettings {
        duration: nanos(old_duration),
        update_frequency: nanos(Duration::from_millis(200)),
    });

    timer.start();
    timer.reset(Some(nanos(new_duration)));

    assert!(!timer.is_running());
    assert_eq!(Duration::from_nanos(timer.duration()), new_duration);
    assert_eq!(Duration::from_nanos(timer.elapsed()), Duration::from_secs(0));
}

#[test]
fn it_stops_the_timer_on_end() {
    let duration = Duration::from_millis(10);
    let mut timer = Timer::new(TimerSettings {
        duration: nanos(duration),
        update_frequency: nanos(Duration::from_millis(10)),
    });

    timer.start();
    wait(Duration::from_millis(20));

    assert!(!timer.is_running());
    assert_eq!(Duration::from_nanos(timer.elapsed()), duration);
}

#[test]
fn elapsed_after_counts_only_while_running() {
    let mut timer = Timer::new(TimerSettings { duration: 1000, update_frequency: 10 });
    assert_eq!(timer.elapsed_after(300), 0);
    assert_eq!(timer.remaining_after(300), 1000);
    assert!(!timer.is_running_after(300));
    timer.start();
    assert_eq!(timer.elapsed_after(300), 300);
    assert_eq!(timer.remaining_after(300), 700);
    assert!(timer.is_running_after(300));
    assert_eq!(timer.elapsed_after(5000), 1000);
    assert_eq!(timer.remaining_after(5000), 0);
    assert!(!timer.is_running_after(5000));
}

#[test]
fn pause_after_accrues_the_run() {
    let mut timer = Timer::new(TimerSettings { duration: 1000, update_frequency: 10 });
    timer.start();
    timer.pause_after(250);
    assert_eq!(timer.elapsed_after(0), 250);
    assert_eq!(timer.elapsed_after(400), 250);
    timer.start();
    assert_eq!(timer.elapsed_after(100), 350);
    timer.pause_after(u64::MAX);
    assert_eq!(timer.elapsed_after(0), 1000);
}

#[test]
fn next_tick_after_reports_remaining_then_end() {
    let mut timer = Timer::new(TimerSettings { duration: 1000, update_frequency: 10 });
    assert_eq!(timer.next_tick_after(0), None);
    timer.start();
    assert_eq!(timer.next_tick_after(400), Some(TimerEvent::Tick { remaining: 600 }));
    assert_eq!(timer.next_tick_after(1000), Some(TimerEvent::TimeEnd {}));
    timer.pause_after(400);
    assert_eq!(timer.next_tick_after(999), None);
}

#[test]
fn toggle_starts_and_pauses() {
    let mut timer = Timer::new(TimerSettings { duration: nanos(Duration::from_secs(60)), update_frequency: 5 });
    timer.toggle();
    assert!(timer.is_running());
    timer.toggle();
    assert!(!timer.is_running());
    assert!(timer.elapsed() < nanos(Duration::from_secs(60)));
    assert_eq!(timer.update_frequency(), 5);
}

#[test]
fn reset_keeps_duration_when_none() {
    let mut timer = Timer::new(TimerSettings { duration: 500, update_frequency: 5 });
    timer.start();
    timer.reset(None);
    assert_eq!(timer.duration(), 500);
    assert_eq!(timer.elapsed(), 0);
    assert_eq!(timer.next_tick_after(0), None);
}

#[test]
fn zero_length_timer_ends_at_once() {
    let timer = Timer::new(TimerSettings { duration: 0, update_frequency: 5 });
    assert_eq!(timer.next_tick_after(0), Some(TimerEvent::TimeEnd {}));
    assert!(!timer.is_running());
}

#[test]
fn restart_ticks_count_from_elapsed_at_restart() {
    let mut timer = Timer::new(TimerSettings { duration: 100, update_frequency: 1 });
    timer.start_after(0);
    timer.start_after(10);
    assert_eq!(timer.next_tick_after(5), Some(TimerEvent::Tick { remaining: 85 }));
    assert_eq!(timer.elapsed_after(5), 5);
    assert_eq!(timer.next_tick_after(90), Some(TimerEvent::TimeEnd {}));
    timer.pause_after(20);
    assert_eq!(timer.next_tick_after(0), None);
    assert_eq!(timer.elapsed_after(0), 20);
}

#[test]
fn restart_after_time_up_ends_at_once() {
    let mut timer = Timer::new(TimerSettings { duration: 100, update_frequency: 1 });
    timer.start_after(0);
    timer.start_after(150);
    assert_eq!(timer.next_tick_after(0), Some(TimerEvent::TimeEnd {}));
    assert_eq!(timer.elapsed_after(0), 0);
}

#[test]
fn countdown_goes_on_only_after_a_tick() {
    assert_eq!(
        countdown_step(Some(TimerEvent::Tick { remaining: 7 })),
        CountdownStep { deliver: Some(TimerEvent::Tick { remaining: 7 }), go_on: true }
    );
    assert_eq!(
        countdown_step(Some(TimerEvent::TimeEnd {})),
        CountdownStep { deliver: Some(TimerEvent::TimeEnd {}), go_on: false }
    );
    assert_eq!(countdown_step(None), CountdownStep { deliver: None, go_on: false });
}
