//! Human-readable rendering of an uptime.

use vstd::prelude::*;
use vstd::string::StringExecFns;
use crate::decimal::{decimal, digit_char, push_decimal};

verus! {

/// The text of an uptime of `total` seconds: `"<h>h<m>m<s>s"` when at least
/// one hour has passed, `"<m>m<s>s"` when at least one minute has, and
/// `"<s>s"` otherwise, where minutes and seconds are the remainders below
/// an hour and a minute.
pub open spec fn duration_text(total: nat) -> Seq<char> {
    let hours = total / 3600;
    let minutes = (total % 3600) / 60;
    let seconds = total % 60;
    if hours > 0 {
        decimal(hours) + seq!['h'] + decimal(minutes) + seq!['m'] + decimal(seconds) + seq!['s']
    } else if minutes > 0 {
        decimal(minutes) + seq!['m'] + decimal(seconds) + seq!['s']
    } else {
        decimal(seconds) + seq!['s']
    }
}

/// Renders an uptime given in whole seconds.
pub fn format_duration(total_seconds: u64) -> (text: String)
    ensures
        text@ == duration_text(total_seconds as nat),
        read_duration(text@, 0, 0, true) == (total_seconds as nat, true),
{
    let hours = total_seconds / 3600;
    let minutes = (total_seconds % 3600) / 60;
    let seconds = total_seconds % 60;
    let mut text = String::new();
    proof {
        reveal_strlit("h");
        reveal_strlit("m");
        reveal_strlit("s");
    }
    if hours > 0 {
        push_decimal(&mut text, hours);
        text.append("h");
        push_decimal(&mut text, minutes);
        text.append("m");
        push_decimal(&mut text, seconds);
        text.append("s");
    } else if minutes > 0 {
        push_decimal(&mut text, minutes);
        text.append("m");
        push_decimal(&mut text, seconds);
        text.append("s");
    } else {
        push_decimal(&mut text, seconds);
        text.append("s");
    }
    proof {
        assert(text@ =~= duration_text(total_seconds as nat));
        lemma_duration_text_reads_back(total_seconds as nat);
    }
    text
}

/// The three parts that `duration_text` prints add back up to the uptime,
/// and minutes and seconds stay below sixty.
pub proof fn lemma_duration_parts(total: nat)
    ensures
        (total / 3600) * 3600 + ((total % 3600) / 60) * 60 + total % 60 == total,
        (total % 3600) / 60 < 60,
        total % 60 < 60,
{
    assert((total / 3600) * 3600 + total % 3600 == total) by (nonlinear_arith);
    assert(((total % 3600) / 60) * 60 + (total % 3600) % 60 == total % 3600) by (nonlinear_arith);
    assert((total % 3600) % 60 == total % 60) by (nonlinear_arith);
    assert(total % 3600 < 3600) by (nonlinear_arith);
    assert((total % 3600) / 60 < 60) by (nonlinear_arith)
        requires total % 3600 < 3600;
}

/// The value of a decimal digit character.
pub open spec fn digit_value(c: char) -> nat {
    if c == '1' {
        1
    } else if c == '2' {
        2
    } else if c == '3' {
        3
    } else if c == '4' {
        4
    } else if c == '5' {
        5
    } else if c == '6' {
        6
    } else if c == '7' {
        7
    } else if c == '8' {
        8
    } else if c == '9' {
        9
    } else {
        0
    }
}

/// Whether `c` is a decimal digit character.
pub open spec fn is_digit(c: char) -> bool {
    '0' <= c && c <= '9'
}

/// Reads a text made of numbers each followed by a unit letter (`h` for
/// hours, `m` for minutes, `s` for seconds), left to right, as a number of
/// seconds. `current` is the number being read, `total` the seconds read so
/// far; the flag stays true while every number of minutes and of seconds is
/// below sixty, no other character occurs, and the text ends with a unit.
pub open spec fn read_duration(text: Seq<char>, current: nat, total: nat, well_formed: bool) -> (nat, bool)
    decreases text.len(),
{
    if text.len() == 0 {
        (total, well_formed && current == 0)
    } else {
        let c = text[0];
        let rest = text.drop_first();
        if is_digit(c) {
            read_duration(rest, current * 10 + digit_value(c), total, well_formed)
        } else if c == 'h' {
            read_duration(rest, 0, total + current * 3600, well_formed)
        } else if c == 'm' {
            read_duration(rest, 0, total + current * 60, well_formed && current < 60)
        } else if c == 's' {
            read_duration(rest, 0, total + current, well_formed && current < 60)
        } else {
            (total, false)
        }
    }
}

/// Reading the decimal text of `n` as a number gives `n`.
pub proof fn lemma_read_decimal(n: nat, rest: Seq<char>, total: nat, well_formed: bool)
    ensures
        read_duration(decimal(n) + rest, 0, total, well_formed) == read_duration(rest, n, total, well_formed),
    decreases n,
{
    let d = n % 10;
    assert(digit_value(digit_char(d)) == d && is_digit(digit_char(d)));
    if n < 10 {
        let text = decimal(n) + rest;
        assert(text[0] == digit_char(n));
        assert(text.drop_first() =~= rest);
    } else {
        let tail = seq![digit_char(d)] + rest;
        assert(decimal(n) + rest =~= decimal(n / 10) + tail);
        lemma_read_decimal(n / 10, tail, total, well_formed);
        assert(tail[0] == digit_char(d));
        assert(tail.drop_first() =~= rest);
        assert((n / 10) * 10 + n % 10 == n) by (nonlinear_arith);
    }
}

/// Reading a unit letter adds the number just read, in seconds, and checks it.
proof fn lemma_read_unit(unit: char, rest: Seq<char>, current: nat, total: nat, well_formed: bool)
    requires
        unit == 'h' || unit == 'm' || unit == 's',
    ensures
        read_duration(seq![unit] + rest, current, total, well_formed) == if unit == 'h' {
            read_duration(rest, 0, total + current * 3600, well_formed)
        } else if unit == 'm' {
            read_duration(rest, 0, total + current * 60, well_formed && current < 60)
        } else {
            read_duration(rest, 0, total + current, well_formed && current < 60)
        },
{
    let text = seq![unit] + rest;
    assert(text[0] == unit);
    assert(text.drop_first() =~= rest);
}

/// The uptime text reads back as the uptime: its hours, minutes and seconds
/// add up to the number of seconds rendered, the minutes and seconds are
/// below sixty, and the text is nothing but numbers each followed by its unit.
pub proof fn lemma_duration_text_reads_back(total: nat)
    ensures
        read_duration(duration_text(total), 0, 0, true) == (total, true),
{
    let hours = total / 3600;
    let minutes = (total % 3600) / 60;
    let seconds = total % 60;
    lemma_duration_parts(total);
    let end = Seq::<char>::empty();
    let s_part = decimal(seconds) + (seq!['s'] + end);
    let m_part = decimal(minutes) + (seq!['m'] + s_part);
    let h_part = decimal(hours) + (seq!['h'] + m_part);
    lemma_read_unit('s', end, seconds, 0, true);
    lemma_read_unit('s', end, seconds, minutes * 60, true);
    lemma_read_unit('s', end, seconds, hours * 3600 + minutes * 60, true);
    assert(read_duration(end, 0, hours * 3600 + minutes * 60 + seconds, true && seconds < 60) == (total, true));
    if hours > 0 {
        assert(duration_text(total) =~= h_part);
        lemma_read_decimal(hours, seq!['h'] + m_part, 0, true);
        lemma_read_unit('h', m_part, hours, 0, true);
        lemma_read_decimal(minutes, seq!['m'] + s_part, hours * 3600, true);
        lemma_read_unit('m', s_part, minutes, hours * 3600, true);
        lemma_read_decimal(seconds, seq!['s'] + end, hours * 3600 + minutes * 60, true);
    } else if minutes > 0 {
        assert(duration_text(total) =~= m_part);
        lemma_read_decimal(minutes, seq!['m'] + s_part, 0, true);
        lemma_read_unit('m', s_part, minutes, 0, true);
        lemma_read_decimal(seconds, seq!['s'] + end, minutes * 60, true);
    } else {
        assert(duration_text(total) =~= s_part);
        lemma_read_decimal(seconds, seq!['s'] + end, 0, true);
    }
}

} // verus!
