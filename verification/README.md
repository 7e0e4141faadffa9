# pomodoro

The logic of a Pomodoro desktop timer, verified with Verus.

- `src/state.rs`: the work/relax cycle and the user's settings; laws on how the
  cycle advances and when a break is long.
- `src/timer.rs`: a pausable countdown timer, modelled by `TimerModel`; each
  method that reads the clock has an `..._after` companion that takes the time
  since the last start and is specified exactly. Laws over whole sequences of
  calls (`lemma_timer_ops`, `lemma_elapsed_sums_runs`) state the elapsed time
  and the length after any start/pause/toggle/reset sequence.
- `src/clock.rs`: the standard library's monotonic clock, behind trusted wrappers.
- `src/commands/`: what the user interface's requests do: the timer state shown,
  skipping to the next interval, reading and saving settings.
- `src/listener.rs`: what each tick shows (the `mm:ss` tray title, the seconds
  left, the end of an interval).
- `src/tray.rs`: what the tray menu items and a click on the tray icon do.
- `app/`: the Tauri application around the library: windows, tray, global
  shortcut, sound, settings file, and the thread that drives the timer.

All durations in the library are nanoseconds in a `u64`.
