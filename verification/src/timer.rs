//! A countdown timer that can be started, paused, toggled and reset.
//!
//! The timer keeps the time accrued over past runs and, while it runs, the
//! instant it was last started. Its countdown counts on from the elapsed time
//! at the last start, kept apart from the accrued time. What it reports is measured against the clock
//! when it is asked; each such method has a companion, named `..._after`, that
//! takes the nanoseconds since the last start as an argument and states its
//! result exactly.

use vstd::prelude::*;
use std::time::{Duration, Instant};
use crate::clock::{instant_now, nanos_since, saturated_nanos};

verus! {

/// What the timer reports while it counts down: the time left at a tick, or the
/// end of the countdown.
#[derive(Clone, Copy, Debug, PartialEq, Eq, Structural)]
pub enum TimerEvent {
    Tick { remaining: u64 },
    TimeEnd {},
}

/// How long the timer counts down, and how often it reports the time left; both
/// in nanoseconds.
#[derive(Clone, Copy, Debug, PartialEq, Eq, Structural)]
pub struct TimerSettings {
    pub duration: u64,
    pub update_frequency: u64,
}

/// The state of a timer: its length, its reporting period, the time accrued
/// over past runs, whether it is running, and the time its countdown counts on
/// from (the elapsed time at the last start, plus the run up to a pause).
pub struct TimerModel {
    pub duration: u64,
    pub update_frequency: u64,
    pub accrued: u64,
    pub started: bool,
    pub tick_base: u64,
}

/// `a + b`, cut down to `u64::MAX`.
pub open spec fn saturating_sum(a: u64, b: u64) -> u64 {
    if a + b > u64::MAX {
        u64::MAX
    } else {
        (a + b) as u64
    }
}

impl TimerModel {
    /// The time counted when `since_start` nanoseconds have passed since the
    /// last start (ignored when the timer is not running).
    pub open spec fn total_after(self, since_start: u64) -> int {
        if self.started {
            self.accrued + since_start
        } else {
            self.accrued as int
        }
    }

    /// The time counted, never more than the timer's length.
    pub open spec fn elapsed_after(self, since_start: u64) -> u64 {
        if self.total_after(since_start) > self.duration {
            self.duration
        } else {
            self.total_after(since_start) as u64
        }
    }

    /// The time left.
    pub open spec fn remaining_after(self, since_start: u64) -> u64 {
        (self.duration - self.elapsed_after(since_start)) as u64
    }

    /// Running: started, and not yet at its end.
    pub open spec fn running_after(self, since_start: u64) -> bool {
        self.started && self.elapsed_after(since_start) < self.duration
    }

    /// The time the countdown has counted: from its base on, the time since
    /// the last start while the timer runs.
    pub open spec fn tick_total_after(self, since_start: u64) -> int {
        if self.started {
            self.tick_base + since_start
        } else {
            self.tick_base as int
        }
    }

    /// What the countdown reports next: a tick with the time left while it
    /// runs, the end once the time is up, nothing when it was stopped early.
    pub open spec fn tick_after(self, since_start: u64) -> Option<TimerEvent> {
        if self.started && self.tick_total_after(since_start) < self.duration {
            Some(TimerEvent::Tick { remaining: (self.duration - self.tick_total_after(since_start)) as u64 })
        } else if self.tick_total_after(since_start) >= self.duration {
            Some(TimerEvent::TimeEnd {})
        } else {
            None
        }
    }

    /// The state after a pause when `since_start` nanoseconds have passed since
    /// the last start: the time of this run is added to the accrued time (up to
    /// `u64::MAX`).
    pub open spec fn paused_after(self, since_start: u64) -> TimerModel {
        TimerModel {
            accrued: saturating_sum(self.accrued, since_start),
            started: false,
            tick_base: saturating_sum(self.tick_base, since_start),
            ..self
        }
    }

    /// The state after a start made `since_start` nanoseconds after the
    /// previous start: running, with nothing accrued added, and the countdown
    /// counting on from the elapsed time at this start (which, on a running
    /// timer, includes the run in progress).
    pub open spec fn started_after(self, since_start: u64) -> TimerModel {
        TimerModel { started: true, tick_base: self.elapsed_after(since_start), ..self }
    }
}

/// The state of a new timer: stopped, with nothing elapsed or counted.
pub open spec fn new_timer_model(settings: TimerSettings) -> TimerModel {
    TimerModel {
        duration: settings.duration,
        update_frequency: settings.update_frequency,
        accrued: 0,
        started: false,
        tick_base: 0,
    }
}

/// A countdown timer.
pub struct Timer {
    duration: u64,
    update_frequency: u64,
    elapsed: u64,
    last_start: Option<Instant>,
    tick_base: u64,
}

impl View for Timer {
    type V = TimerModel;

    closed spec fn view(&self) -> TimerModel {
        TimerModel {
            duration: self.duration,
            update_frequency: self.update_frequency,
            accrued: self.elapsed,
            started: self.last_start is Some,
            tick_base: self.tick_base,
        }
    }
}

impl Timer {
    /// A stopped timer of the given length, with nothing elapsed.
    pub fn new(settings: TimerSettings) -> (timer: Self)
        ensures
            timer@ == new_timer_model(settings),
    {
        Timer {
            duration: settings.duration,
            update_frequency: settings.update_frequency,
            elapsed: 0,
            last_start: None,
            tick_base: 0,
        }
    }

    /// Nanoseconds since the last start, read from the clock (the whole
    /// nanoseconds of a measured duration, cut down to `u64::MAX`); 0 when
    /// stopped.
    fn since_start(&self) -> (n: u64)
        ensures
            !self@.started ==> n == 0,
            self@.started ==> exists|d: Duration| n == saturated_nanos(d),
    {
        match &self.last_start {
            Some(start) => nanos_since(start),
            None => 0,
        }
    }

    /// Pauses the timer, `since_start` nanoseconds after its last start. Pausing
    /// a timer that does not run is a usage error.
    pub fn pause_after(&mut self, since_start: u64)
        requires
            old(self)@.started,
        ensures
            final(self)@ == old(self)@.paused_after(since_start),
    {
        self.elapsed = self.elapsed.saturating_add(since_start);
        self.tick_base = self.tick_base.saturating_add(since_start);
        self.last_start = None;
    }

    /// Pauses the timer: the time of this run is added to the time accrued.
    /// Pausing a timer that does not run is a usage error.
    pub fn pause(&mut self) -> (paused: &mut Self)
        requires
            old(self)@.started,
        ensures
            exists|d: Duration| paused@ == old(self)@.paused_after(saturated_nanos(d)),
            *final(self) == *final(paused),
    {
        let since_start = self.since_start();
        self.pause_after(since_start);
        self
    }

    /// Starts the timer from now, `since_start` nanoseconds after its previous
    /// start (ignored when it is stopped). Starting a running timer restarts
    /// its current run from now: the time since its previous start is not
    /// accrued, but the countdown counts on from the elapsed time at this start.
    pub fn start_after(&mut self, since_start: u64)
        ensures
            final(self)@ == old(self)@.started_after(since_start),
    {
        self.tick_base = self.elapsed_after(since_start);
        let now = instant_now();
        self.last_start = Some(now);
    }

    /// Starts the timer from now. Starting a running timer restarts its current
    /// run from now: the time since its previous start is not accrued, but the
    /// countdown counts on from the elapsed time at this start.
    pub fn start(&mut self)
        ensures
            !old(self)@.started ==> final(self)@ == old(self)@.started_after(0),
            old(self)@.started ==> exists|d: Duration| final(self)@ == old(self)@.started_after(saturated_nanos(d)),
    {
        let since_start = self.since_start();
        self.start_after(since_start);
    }

    /// Pauses a running timer and starts a stopped one.
    pub fn toggle(&mut self)
        ensures
            old(self)@.started ==> exists|d: Duration| final(self)@ == old(self)@.paused_after(saturated_nanos(d)),
            !old(self)@.started ==> final(self)@ == old(self)@.started_after(0),
    {
        if self.last_start.is_some() {
            self.pause();
        } else {
            self.start();
        }
    }

    /// Stops the timer and sets the elapsed time back to zero, with the given
    /// length or the current one. It pauses the timer first, so the timer must
    /// be running.
    pub fn reset(&mut self, duration: Option<u64>) -> (reset: &mut Self)
        requires
            old(self)@.started,
        ensures
            *final(self) == *final(reset),
            reset@ == (TimerModel {
                duration: match duration {
                    Some(d) => d,
                    None => old(self)@.duration,
                },
                update_frequency: old(self)@.update_frequency,
                accrued: 0,
                started: false,
                tick_base: 0,
            }),
    {
        self.pause();
        if let Some(d) = duration {
            self.duration = d;
        }
        self.elapsed = 0;
        self.tick_base = 0;
        self
    }

    /// The elapsed time when `since_start` nanoseconds have passed since the
    /// last start: never more than the timer's length.
    pub fn elapsed_after(&self, since_start: u64) -> (e: u64)
        ensures
            e == self@.elapsed_after(since_start),
    {
        let total = match &self.last_start {
            Some(_) => self.elapsed.saturating_add(since_start),
            None => self.elapsed,
        };
        if total > self.duration {
            self.duration
        } else {
            total
        }
    }

    /// The elapsed time now.
    pub fn elapsed(&self) -> (e: u64)
        ensures
            !self@.started ==> e == self@.elapsed_after(0),
            self@.started ==> exists|d: Duration| e == self@.elapsed_after(saturated_nanos(d)),
    {
        let since_start = self.since_start();
        self.elapsed_after(since_start)
    }

    /// The time left when `since_start` nanoseconds have passed since the last
    /// start.
    pub fn remaining_after(&self, since_start: u64) -> (r: u64)
        ensures
            r == self@.remaining_after(since_start),
    {
        self.duration - self.elapsed_after(since_start)
    }

    /// The time left now.
    pub fn remaining(&self) -> (r: u64)
        ensures
            !self@.started ==> r == self@.remaining_after(0),
            self@.started ==> exists|d: Duration| r == self@.remaining_after(saturated_nanos(d)),
    {
        let since_start = self.since_start();
        self.remaining_after(since_start)
    }

    /// Whether the timer runs when `since_start` nanoseconds have passed since
    /// the last start: it was started and its time is not up.
    pub fn is_running_after(&self, since_start: u64) -> (b: bool)
        ensures
            b == self@.running_after(since_start),
    {
        if self.elapsed_after(since_start) < self.duration {
            self.last_start.is_some()
        } else {
            false
        }
    }

    /// Whether the timer runs now.
    pub fn is_running(&self) -> (b: bool)
        ensures
            !self@.started ==> b == self@.running_after(0),
            self@.started ==> exists|d: Duration| b == self@.running_after(saturated_nanos(d)),
    {
        let since_start = self.since_start();
        self.is_running_after(since_start)
    }

    /// What the countdown reports when `since_start` nanoseconds have passed
    /// since the last start: a tick with the time left (and the countdown goes
    /// on), the end of the countdown, or nothing when it was stopped early (in
    /// both last cases the countdown stops).
    pub fn next_tick_after(&self, since_start: u64) -> (event: Option<TimerEvent>)
        ensures
            event == self@.tick_after(since_start),
    {
        let total = match &self.last_start {
            Some(_) => self.tick_base.saturating_add(since_start),
            None => self.tick_base,
        };
        if self.last_start.is_some() && total < self.duration {
            Some(TimerEvent::Tick { remaining: self.duration - total })
        } else if total >= self.duration {
            Some(TimerEvent::TimeEnd {})
        } else {
            None
        }
    }

    /// What the countdown reports now.
    pub fn next_tick(&self) -> (event: Option<TimerEvent>)
        ensures
            !self@.started ==> event == self@.tick_after(0),
            self@.started ==> exists|d: Duration| event == self@.tick_after(saturated_nanos(d)),
    {
        let since_start = self.since_start();
        self.next_tick_after(since_start)
    }

    /// Whether the timer was started and not paused since.
    pub fn is_started(&self) -> (b: bool)
        ensures
            b == self@.started,
    {
        self.last_start.is_some()
    }

    /// The timer's length.
    pub fn duration(&self) -> (d: u64)
        ensures
            d == self@.duration,
    {
        self.duration
    }

    /// How often the countdown reports the time left.
    pub fn update_frequency(&self) -> (f: u64)
        ensures
            f == self@.update_frequency,
    {
        self.update_frequency
    }
}


/// The elapsed time never exceeds the timer's length, and the elapsed and the
/// remaining time add up to it.
pub proof fn lemma_elapsed_remaining(m: TimerModel, since_start: u64)
    ensures
        m.elapsed_after(since_start) <= m.duration,
        m.elapsed_after(since_start) + m.remaining_after(since_start) == m.duration,
        m.running_after(since_start) ==> m.remaining_after(since_start) > 0,
{
}

/// A new timer does not run, has nothing elapsed and all its time left,
/// however long one waits, and its countdown reports nothing (or the end at
/// once, for a timer of length zero).
pub proof fn lemma_new_timer(settings: TimerSettings, since_start: u64)
    ensures
        ({
            let m = new_timer_model(settings);
            &&& !m.running_after(since_start)
            &&& m.elapsed_after(since_start) == 0
            &&& m.remaining_after(since_start) == settings.duration
            &&& m.tick_after(since_start) == (if settings.duration == 0 {
                Some(TimerEvent::TimeEnd {})
            } else {
                None
            })
        }),
{
}

/// While the timer runs, the elapsed time only grows as time passes.
pub proof fn lemma_elapsed_monotonic(m: TimerModel, s1: u64, s2: u64)
    requires
        s1 <= s2,
    ensures
        m.elapsed_after(s1) <= m.elapsed_after(s2),
        m.remaining_after(s1) >= m.remaining_after(s2),
{
}

/// Pausing freezes the elapsed time at its value at the moment of the pause,
/// however long one waits afterwards.
pub proof fn lemma_pause_freezes(m: TimerModel, at_pause: u64, later: u64)
    requires
        m.started,
    ensures
        m.paused_after(at_pause).elapsed_after(later) == m.elapsed_after(at_pause),
        !m.paused_after(at_pause).running_after(later),
{
}

/// Starting a stopped timer and pausing it before any time passes leaves its
/// length, its accrued time and its elapsed time as they were, and it stopped.
pub proof fn lemma_start_pause(m: TimerModel, later: u64)
    requires
        !m.started,
    ensures
        m.started_after(0).paused_after(0).accrued == m.accrued,
        m.started_after(0).paused_after(0).duration == m.duration,
        !m.started_after(0).paused_after(0).started,
        m.started_after(0).paused_after(0).elapsed_after(later) == m.elapsed_after(later),
{
}

/// Once the time counted reaches the timer's length, the timer no longer runs
/// and no time is left; once the countdown's count reaches it, the countdown
/// reports its end.
pub proof fn lemma_time_up(m: TimerModel, since_start: u64)
    ensures
        m.total_after(since_start) >= m.duration ==> {
            &&& !m.running_after(since_start)
            &&& m.remaining_after(since_start) == 0
        },
        m.tick_total_after(since_start) >= m.duration ==> m.tick_after(since_start) == Some(TimerEvent::TimeEnd {}),
{
}

/// A tick comes exactly while the timer is started and its countdown's count
/// is below the length, and reports the positive time left by that count.
pub proof fn lemma_tick_reports_remaining(m: TimerModel, since_start: u64)
    ensures
        (m.tick_after(since_start) matches Some(TimerEvent::Tick { remaining }))
            <==> (m.started && m.tick_total_after(since_start) < m.duration),
        m.tick_after(since_start) matches Some(TimerEvent::Tick { remaining }) ==> {
            &&& remaining == m.duration - m.tick_total_after(since_start)
            &&& remaining > 0
        },
{
}

/// After a stopped timer is started, the countdown agrees with the timer: it
/// ticks exactly while the timer runs, each tick reports the time left, and it
/// ends exactly when it stops ticking with the time up.
pub proof fn lemma_fresh_start_ticks(m: TimerModel, since_start: u64)
    requires
        !m.started,
    ensures
        ({
            let r = m.started_after(0);
            &&& (r.tick_after(since_start) matches Some(TimerEvent::Tick { remaining }))
                <==> r.running_after(since_start)
            &&& r.tick_after(since_start) matches Some(TimerEvent::Tick { remaining })
                ==> remaining == r.remaining_after(since_start)
            &&& !r.running_after(since_start) ==> r.tick_after(since_start) == Some(TimerEvent::TimeEnd {})
        }),
{
}

/// After a running timer is started again `at_restart` nanoseconds after its
/// previous start, its countdown counts on from the elapsed time at the
/// restart, the interrupted run included, while its elapsed time counts only
/// the runs before that run.
pub proof fn lemma_restart_ticks(m: TimerModel, at_restart: u64, later: u64)
    requires
        m.started,
    ensures
        m.started_after(at_restart).tick_total_after(later) == m.elapsed_after(at_restart) + later,
        m.started_after(at_restart).total_after(later) == m.accrued + later,
{
}

/// While a started timer counts down, each later tick reports exactly the time
/// since the earlier one less: the time left moves with the clock. Once the
/// timer's length (counted from the elapsed time at the start) has passed, the
/// countdown reports its end; in particular once the whole length has passed
/// since the start.
pub proof fn lemma_countdown_moves(m: TimerModel, s1: u64, s2: u64)
    requires
        m.started,
        s1 <= s2,
    ensures
        m.tick_after(s2) matches Some(TimerEvent::Tick { remaining: r2 }) ==> {
            &&& m.tick_after(s1) matches Some(TimerEvent::Tick { remaining: r1 })
            &&& m.tick_after(s1)->0->remaining - r2 == s2 - s1
        },
        m.tick_base + s2 >= m.duration ==> m.tick_after(s2) == Some(TimerEvent::TimeEnd {}),
        s2 >= m.duration ==> m.tick_after(s2) == Some(TimerEvent::TimeEnd {}),
{
}

/// While a started timer runs, the elapsed time grows and the time left shrinks
/// by exactly the time that passes.
pub proof fn lemma_remaining_shrinks(m: TimerModel, s1: u64, s2: u64)
    requires
        m.started,
        s1 <= s2,
        m.running_after(s2),
    ensures
        m.elapsed_after(s2) - m.elapsed_after(s1) == s2 - s1,
        m.remaining_after(s1) - m.remaining_after(s2) == s2 - s1,
        m.remaining_after(s2) == m.duration - (m.accrued + s2),
{
}

/// Pausing a started timer `at_pause` nanoseconds into its run keeps that run:
/// the accrued time grows by it, and after resuming, the elapsed time counts on
/// from the elapsed time at the pause (never beyond the length).
pub proof fn lemma_pause_resume_keeps_run(m: TimerModel, at_pause: u64, after_resume: u64)
    requires
        m.started,
        m.accrued + at_pause <= u64::MAX,
    ensures
        m.paused_after(at_pause).accrued == m.accrued + at_pause,
        m.paused_after(at_pause).started_after(0).elapsed_after(after_resume) == (if m.elapsed_after(at_pause)
            + after_resume > m.duration {
            m.duration as int
        } else {
            m.elapsed_after(at_pause) + after_resume
        }),
        m.paused_after(at_pause).started_after(0).remaining_after(after_resume) + m.paused_after(
            at_pause,
        ).started_after(0).elapsed_after(after_resume) == m.duration,
{
}

/// One call on a timer, with the nanoseconds since the last start that it
/// measures.
pub enum TimerOp {
    Start { since_start: u64 },
    Pause { since_start: u64 },
    Toggle { since_start: u64 },
    Reset { duration: Option<u64> },
}

/// The state of a timer after one call, as the calls' contracts give it (a
/// toggle that starts a stopped timer measures nothing).
pub open spec fn apply_op(m: TimerModel, op: TimerOp) -> TimerModel {
    match op {
        TimerOp::Start { since_start } => m.started_after(since_start),
        TimerOp::Pause { since_start } => m.paused_after(since_start),
        TimerOp::Toggle { since_start } => if m.started {
            m.paused_after(since_start)
        } else {
            m.started_after(0)
        },
        TimerOp::Reset { duration } => TimerModel {
            duration: match duration {
                Some(d) => d,
                None => m.duration,
            },
            update_frequency: m.update_frequency,
            accrued: 0,
            started: false,
            tick_base: 0,
        },
    }
}

/// The state after a sequence of calls.
pub open spec fn run_ops(m: TimerModel, ops: Seq<TimerOp>) -> TimerModel
    decreases ops.len(),
{
    if ops.len() == 0 {
        m
    } else {
        apply_op(run_ops(m, ops.drop_last()), ops.last())
    }
}

/// Whether the timer runs after a sequence of calls on a new timer.
pub open spec fn running_after_ops(ops: Seq<TimerOp>) -> bool
    decreases ops.len(),
{
    if ops.len() == 0 {
        false
    } else {
        match ops.last() {
            TimerOp::Start { .. } => true,
            TimerOp::Pause { .. } => false,
            TimerOp::Toggle { .. } => !running_after_ops(ops.drop_last()),
            TimerOp::Reset { .. } => false,
        }
    }
}

/// Whether a sequence of calls on a new timer pauses and resets it only while
/// it runs.
pub open spec fn ops_allowed(ops: Seq<TimerOp>) -> bool
    decreases ops.len(),
{
    if ops.len() == 0 {
        true
    } else {
        &&& ops_allowed(ops.drop_last())
        &&& (ops.last() is Pause || ops.last() is Reset) ==> running_after_ops(ops.drop_last())
    }
}

/// The summed lengths of the runs ended by a pause (or a toggle that pauses)
/// since the timer was made or last reset.
pub open spec fn runs_total(ops: Seq<TimerOp>) -> nat
    decreases ops.len(),
{
    if ops.len() == 0 {
        0
    } else {
        match ops.last() {
            TimerOp::Start { .. } => runs_total(ops.drop_last()),
            TimerOp::Pause { since_start } => runs_total(ops.drop_last()) + since_start as nat,
            TimerOp::Toggle { since_start } => if running_after_ops(ops.drop_last()) {
                runs_total(ops.drop_last()) + since_start as nat
            } else {
                runs_total(ops.drop_last())
            },
            TimerOp::Reset { .. } => 0,
        }
    }
}

/// The length set by the last reset that gives one, or `initial`.
pub open spec fn duration_after_ops(initial: u64, ops: Seq<TimerOp>) -> u64
    decreases ops.len(),
{
    if ops.len() == 0 {
        initial
    } else {
        match ops.last() {
            TimerOp::Reset { duration: Some(d) } => d,
            _ => duration_after_ops(initial, ops.drop_last()),
        }
    }
}

/// After any sequence of calls on a new timer: the accrued time is the summed
/// lengths of the finished runs since the last reset (up to `u64::MAX`), the
/// timer runs as the calls say, its length is the one set by the last reset
/// that gives one (or the first one), and its reporting period never changes.
pub proof fn lemma_timer_ops(settings: TimerSettings, ops: Seq<TimerOp>)
    requires
        ops_allowed(ops),
    ensures
        run_ops(new_timer_model(settings), ops).accrued == (if runs_total(ops) > u64::MAX {
            u64::MAX as nat
        } else {
            runs_total(ops)
        }),
        run_ops(new_timer_model(settings), ops).started == running_after_ops(ops),
        run_ops(new_timer_model(settings), ops).duration == duration_after_ops(settings.duration, ops),
        run_ops(new_timer_model(settings), ops).update_frequency == settings.update_frequency,
    decreases ops.len(),
{
    if ops.len() > 0 {
        lemma_timer_ops(settings, ops.drop_last());
    }
}

/// After any sequence of calls on a new timer, the elapsed time is the summed
/// lengths of the finished runs since the last reset, plus the run in progress,
/// never more than the timer's length; so the length only changes by a reset
/// that gives one.
pub proof fn lemma_elapsed_sums_runs(settings: TimerSettings, ops: Seq<TimerOp>, since_start: u64)
    requires
        ops_allowed(ops),
    ensures
        ({
            let m = run_ops(new_timer_model(settings), ops);
            let runs = runs_total(ops) + (if running_after_ops(ops) { since_start as nat } else { 0 });
            &&& m.elapsed_after(since_start) == (if runs > m.duration { m.duration as nat } else { runs })
            &&& m.duration == duration_after_ops(settings.duration, ops)
        }),
{
    lemma_timer_ops(settings, ops);
}


/// What the countdown does with one report of the timer: deliver it to the
/// listener, and whether it then waits a period and asks again.
#[derive(Clone, Copy, Debug, PartialEq, Eq, Structural)]
pub struct CountdownStep {
    pub deliver: Option<TimerEvent>,
    pub go_on: bool,
}

/// The countdown's step on a report: any report is delivered, and the
/// countdown goes on only after a tick; the end, or nothing, stops it.
pub fn countdown_step(report: Option<TimerEvent>) -> (step: CountdownStep)
    ensures
        step.deliver == report,
        step.go_on == (report matches Some(TimerEvent::Tick { .. })),
{
    match report {
        Some(TimerEvent::Tick { remaining }) => CountdownStep { deliver: report, go_on: true },
        _ => CountdownStep { deliver: report, go_on: false },
    }
}

/// The events a countdown delivers when the timer gives `reports` in turn:
/// ticks as long as they come, then the end if it comes, and nothing after a
/// step that stops.
pub open spec fn delivered(reports: Seq<Option<TimerEvent>>) -> Seq<TimerEvent>
    decreases reports.len(),
{
    if reports.len() == 0 {
        Seq::empty()
    } else {
        match reports[0] {
            Some(TimerEvent::Tick { remaining }) => seq![TimerEvent::Tick { remaining }] + delivered(reports.drop_first()),
            Some(TimerEvent::TimeEnd {}) => seq![TimerEvent::TimeEnd {}],
            None => Seq::empty(),
        }
    }
}

/// A countdown delivers the reports it was given in order, up to the first one
/// that stops it; all but the last are ticks, so it delivers the end at most
/// once, and only as its last event.
pub proof fn lemma_countdown_one_end(reports: Seq<Option<TimerEvent>>)
    ensures
        delivered(reports).len() <= reports.len(),
        forall|i: int| 0 <= i < delivered(reports).len() ==> reports[i] == Some(#[trigger] delivered(reports)[i]),
        forall|i: int| 0 <= i < delivered(reports).len() - 1 ==> #[trigger] delivered(reports)[i] is Tick,
    decreases reports.len(),
{
    if reports.len() > 0 {
        lemma_countdown_one_end(reports.drop_first());
        let rest = delivered(reports.drop_first());
        if reports[0] is Some && reports[0]->0 is Tick {
            let d = delivered(reports);
            assert forall|i: int| 0 <= i < d.len() implies reports[i] == Some(#[trigger] d[i]) by {
                if i > 0 {
                    assert(d[i] == rest[i - 1]);
                    assert(reports.drop_first()[i - 1] == reports[i]);
                }
            }
            assert forall|i: int| 0 <= i < d.len() - 1 implies #[trigger] d[i] is Tick by {
                if i > 0 {
                    assert(d[i] == rest[i - 1]);
                }
            }
        }
    }
}

/// The countdown of a timer started at `m`, asking at the nanoseconds since the
/// start in `times`: each tick it delivers reports the length less the elapsed
/// time at the start and the time since, which is positive; the end it delivers
/// comes only once that count reaches the length, and at most once.
pub proof fn lemma_countdown_of_start(m: TimerModel, times: Seq<u64>)
    requires
        m.started,
    ensures
        ({
            let d = delivered(times.map_values(|t: u64| m.tick_after(t)));
            &&& forall|i: int| 0 <= i < d.len() ==> match #[trigger] d[i] {
                TimerEvent::Tick { remaining } => remaining == m.duration - (m.tick_base + times[i]) && remaining > 0,
                TimerEvent::TimeEnd {} => m.tick_base + times[i] >= m.duration && i == d.len() - 1,
            }
        }),
{
    let reports = times.map_values(|t: u64| m.tick_after(t));
    lemma_countdown_one_end(reports);
    let d = delivered(reports);
    assert forall|i: int| 0 <= i < d.len() implies match #[trigger] d[i] {
        TimerEvent::Tick { remaining } => remaining == m.duration - (m.tick_base + times[i]) && remaining > 0,
        TimerEvent::TimeEnd {} => m.tick_base + times[i] >= m.duration && i == d.len() - 1,
    } by {
        assert(reports[i] == Some(d[i]));
        assert(reports[i] == m.tick_after(times[i]));
        if i < d.len() - 1 {
            assert(d[i] is Tick);
        }
    }
}

} // verus!
