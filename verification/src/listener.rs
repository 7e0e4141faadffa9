//! What the application shows at each tick of the timer: the time left in the
//! tray as `mm:ss`, the whole seconds left, and the end of an interval.

use vstd::prelude::*;
use crate::state::{Pomodoro, Settings, NANOS_PER_SEC};
use crate::commands::timer::{TimerStatePayload, state_payload};

verus! {

/// The decimal digit character for `d` (taken modulo ten).
pub open spec fn digit_char(d: int) -> char {
    let d = d % 10;
    if d == 0 { '0' }
    else if d == 1 { '1' }
    else if d == 2 { '2' }
    else if d == 3 { '3' }
    else if d == 4 { '4' }
    else if d == 5 { '5' }
    else if d == 6 { '6' }
    else if d == 7 { '7' }
    else if d == 8 { '8' }
    else { '9' }
}

/// The value of a decimal digit character (0 for any other character).
pub open spec fn char_value(c: char) -> nat {
    if c == '1' { 1 }
    else if c == '2' { 2 }
    else if c == '3' { 3 }
    else if c == '4' { 4 }
    else if c == '5' { 5 }
    else if c == '6' { 6 }
    else if c == '7' { 7 }
    else if c == '8' { 8 }
    else if c == '9' { 9 }
    else { 0 }
}

/// Whether `c` is one of `0` to `9`.
pub open spec fn is_digit(c: char) -> bool {
    '0' <= c && c <= '9'
}

/// `n` written in decimal, without leading zeros.
pub open spec fn decimal(n: nat) -> Seq<char>
    decreases n,
{
    if n < 10 {
        seq![digit_char(n as int)]
    } else {
        decimal(n / 10).push(digit_char((n % 10) as int))
    }
}

/// `s` padded on the left with `0` to at least two characters.
pub open spec fn pad2(s: Seq<char>) -> Seq<char> {
    if s.len() >= 2 {
        s
    } else {
        Seq::new((2 - s.len()) as nat, |i: int| '0') + s
    }
}

/// The tray title for `secs` seconds left: minutes and seconds, each at least
/// two digits, separated by a colon.
pub open spec fn tray_title(secs: nat) -> Seq<char> {
    pad2(decimal(secs / 60)) + seq![':'] + pad2(decimal(secs % 60))
}

/// The number that a string of decimal digits stands for.
pub open spec fn digits_value(s: Seq<char>) -> nat
    decreases s.len(),
{
    if s.len() == 0 {
        0
    } else {
        digits_value(s.drop_last()) * 10 + char_value(s.last())
    }
}

/// Calls `String::push`, which appends `c` to `s`.
#[verifier::external_body]
fn string_push(s: &mut String, c: char)
    ensures
        final(s)@ == old(s)@.push(c),
{
    s.push(c);
}

/// The decimal digit character of `d`.
fn digit(d: u64) -> (c: char)
    requires
        d < 10,
    ensures
        c == digit_char(d as int),
{
    if d == 0 { '0' }
    else if d == 1 { '1' }
    else if d == 2 { '2' }
    else if d == 3 { '3' }
    else if d == 4 { '4' }
    else if d == 5 { '5' }
    else if d == 6 { '6' }
    else if d == 7 { '7' }
    else if d == 8 { '8' }
    else { '9' }
}

/// Appends `n` in decimal to `s`.
fn push_decimal(s: &mut String, n: u64)
    ensures
        final(s)@ == old(s)@ + decimal(n as nat),
    decreases n,
{
    if n >= 10 {
        push_decimal(s, n / 10);
    }
    string_push(s, digit(n % 10));
    proof {
        if n >= 10 {
            assert(old(s)@ + decimal(n as nat) =~= (old(s)@ + decimal((n / 10) as nat)).push(digit_char((n % 10) as int)));
        } else {
            assert(old(s)@ + decimal(n as nat) =~= old(s)@.push(digit_char((n % 10) as int)));
        }
    }
}

/// Appends `n` in decimal to `s`, padded with `0` to two digits.
fn push_padded(s: &mut String, n: u64)
    ensures
        final(s)@ == old(s)@ + pad2(decimal(n as nat)),
{
    if n < 10 {
        string_push(s, '0');
    }
    push_decimal(s, n);
    proof {
        lemma_decimal_len(n as nat);
        if n < 10 {
            assert(pad2(decimal(n as nat)) =~= seq!['0'] + decimal(n as nat));
            assert(old(s)@ + pad2(decimal(n as nat)) =~= old(s)@.push('0') + decimal(n as nat));
        }
    }
}

/// A number below ten has one digit, any other at least two.
proof fn lemma_decimal_len(n: nat)
    ensures
        n < 10 ==> decimal(n).len() == 1,
        10 <= n < 100 ==> decimal(n).len() == 2,
        n >= 10 ==> decimal(n).len() >= 2,
    decreases n,
{
    if n >= 10 {
        lemma_decimal_len(n / 10);
    }
}

/// The tray title for `remaining_secs` seconds left, such as `04:09`.
pub fn format_tray_title(remaining_secs: u64) -> (title: String)
    ensures
        title@ == tray_title(remaining_secs as nat),
{
    let mut title = String::new();
    push_padded(&mut title, remaining_secs / 60);
    string_push(&mut title, ':');
    push_padded(&mut title, remaining_secs % 60);
    title
}

/// What one tick shows: the whole seconds left (sent to the main window), the
/// tray title, and, when no time is left, the state announcing the end of the
/// interval.
pub struct TimerTick {
    pub remaining_secs: u64,
    pub tray_title: String,
    pub ended: Option<TimerStatePayload>,
}

/// The state announced when an interval ends.
pub open spec fn end_payload(pomodoro: Pomodoro) -> TimerStatePayload {
    TimerStatePayload {
        mode: pomodoro.mode,
        cycle: pomodoro.cycles,
        is_ended: true,
        duration_secs: 0,
    }
}

/// What to show when the timer reports `remaining` nanoseconds left while the
/// cycle is at `pomodoro`. The end is announced exactly when no time is left.
pub fn handle_timer_tick(remaining: u64, pomodoro: &Pomodoro) -> (tick: TimerTick)
    ensures
        tick.remaining_secs == remaining / NANOS_PER_SEC,
        tick.tray_title@ == tray_title((remaining / NANOS_PER_SEC) as nat),
        tick.ended == (if remaining == 0 { Some(end_payload(*pomodoro)) } else { None }),
{
    let remaining_secs = remaining / NANOS_PER_SEC;
    let tray_title = format_tray_title(remaining_secs);
    let ended = if remaining == 0 {
        Some(TimerStatePayload {
            mode: pomodoro.mode,
            cycle: pomodoro.cycles,
            is_ended: true,
            duration_secs: 0,
        })
    } else {
        None
    };
    TimerTick { remaining_secs, tray_title, ended }
}


proof fn lemma_digit_char(d: int)
    ensures
        char_value(digit_char(d)) == d % 10,
        is_digit(digit_char(d)),
{
}

/// The decimal writing of `n` is made of digits and stands for `n`.
proof fn lemma_decimal_value(n: nat)
    ensures
        digits_value(decimal(n)) == n,
        forall|i: int| 0 <= i < decimal(n).len() ==> is_digit(#[trigger] decimal(n)[i]),
    decreases n,
{
    lemma_digit_char(n as int);
    lemma_digit_char((n % 10) as int);
    if n >= 10 {
        lemma_decimal_value(n / 10);
        assert(decimal(n).drop_last() =~= decimal(n / 10));
        assert(decimal(n).last() == digit_char((n % 10) as int));
        assert(digits_value(decimal(n)) == (n / 10) * 10 + n % 10);
    } else {
        assert(decimal(n).drop_last() =~= Seq::<char>::empty());
        assert(digits_value(Seq::<char>::empty()) == 0);
        assert(digits_value(decimal(n)) == 0 * 10 + char_value(decimal(n).last()));
    }
}

/// Leading zeros change neither the value nor the digits.
proof fn lemma_leading_zeros(k: nat, s: Seq<char>)
    ensures
        digits_value(Seq::new(k, |i: int| '0') + s) == digits_value(s),
    decreases s.len(),
{
    let z = Seq::new(k, |i: int| '0');
    if s.len() == 0 {
        assert(z + s =~= z);
        lemma_zeros_value(k);
    } else {
        assert((z + s).drop_last() =~= z + s.drop_last());
        lemma_leading_zeros(k, s.drop_last());
    }
}

proof fn lemma_zeros_value(k: nat)
    ensures
        digits_value(Seq::new(k, |i: int| '0')) == 0,
    decreases k,
{
    if k > 0 {
        assert(Seq::new(k, |i: int| '0').drop_last() =~= Seq::new((k - 1) as nat, |i: int| '0'));
        lemma_zeros_value((k - 1) as nat);
    }
}

/// Padding a decimal writing keeps its value and its digits.
proof fn lemma_pad2_decimal(n: nat)
    ensures
        digits_value(pad2(decimal(n))) == n,
        pad2(decimal(n)).len() >= 2,
        n < 100 ==> pad2(decimal(n)).len() == 2,
        forall|i: int| 0 <= i < pad2(decimal(n)).len() ==> is_digit(#[trigger] pad2(decimal(n))[i]),
{
    lemma_decimal_value(n);
    lemma_decimal_len(n);
    if decimal(n).len() < 2 {
        lemma_leading_zeros((2 - decimal(n).len()) as nat, decimal(n));
        let p = pad2(decimal(n));
        assert forall|i: int| 0 <= i < p.len() implies is_digit(#[trigger] p[i]) by {
            if i >= 2 - decimal(n).len() {
                assert(p[i] == decimal(n)[i - (2 - decimal(n).len())]);
            }
        }
    }
}

/// The tray title reads back as the seconds left: digits of the minutes, a
/// colon, then exactly two digits of the seconds within the minute, such that
/// sixty times the minutes plus the seconds gives the seconds left.
pub proof fn lemma_tray_title_reads_back(secs: nat)
    ensures
        ({
            let t = tray_title(secs);
            let minutes = t.subrange(0, t.len() - 3);
            let seconds = t.subrange(t.len() - 2, t.len() as int);
            &&& t.len() >= 5
            &&& t[t.len() - 3] == ':'
            &&& forall|i: int| 0 <= i < minutes.len() ==> is_digit(#[trigger] minutes[i])
            &&& forall|i: int| 0 <= i < seconds.len() ==> is_digit(#[trigger] seconds[i])
            &&& digits_value(seconds) < 60
            &&& 60 * digits_value(minutes) + digits_value(seconds) == secs
        }),
{
    let m = pad2(decimal(secs / 60));
    let sec = pad2(decimal(secs % 60));
    lemma_pad2_decimal(secs / 60);
    lemma_pad2_decimal(secs % 60);
    let t = tray_title(secs);
    assert(t.subrange(0, t.len() - 3) =~= m);
    assert(t.subrange(t.len() - 2, t.len() as int) =~= sec);
}


/// The end of an interval is announced as that interval: the announcement is
/// the state the user interface is given for the current interval (its mode and
/// round), marked as ended and with no time left, whatever the settings.
pub proof fn lemma_end_announces_current_interval(pomodoro: Pomodoro, settings: Settings)
    ensures
        end_payload(pomodoro) == (TimerStatePayload {
            is_ended: true,
            duration_secs: 0,
            ..state_payload(pomodoro, settings)
        }),
{
}

} // verus!
