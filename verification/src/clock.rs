//! Formats the wall-clock time of day for the overlay.
//!
//! The time string follows the configuration: 24-hour "HH:MM[:SS]" or
//! 12-hour "HH:MM[:SS] AM/PM". Its length is exactly the character count
//! the geometry engine sizes the window for.

use vstd::prelude::*;
use vstd::string::StringExecFns;

use chrono::Timelike;

use crate::config::Config;
use crate::geometry::spec_char_count;

verus! {

/// The decimal digit character for a value 0 through 9.
pub open spec fn digit_char(d: int) -> char {
    if d == 0 {
        '0'
    } else if d == 1 {
        '1'
    } else if d == 2 {
        '2'
    } else if d == 3 {
        '3'
    } else if d == 4 {
        '4'
    } else if d == 5 {
        '5'
    } else if d == 6 {
        '6'
    } else if d == 7 {
        '7'
    } else if d == 8 {
        '8'
    } else {
        '9'
    }
}

/// A value below 100 written as exactly two decimal digits.
pub open spec fn two_digits(n: int) -> Seq<char> {
    seq![digit_char(n / 10), digit_char(n % 10)]
}

/// The rendered time string for a format and a time of day. The 12-hour
/// clock shows hours 12, 1 through 11 with an AM/PM suffix.
pub open spec fn spec_time_string(
    format_24h: bool,
    show_seconds: bool,
    h: u8,
    m: u8,
    s: u8,
) -> Seq<char> {
    if format_24h {
        if show_seconds {
            two_digits(h as int) + seq![':'] + two_digits(m as int) + seq![':'] + two_digits(
                s as int,
            )
        } else {
            two_digits(h as int) + seq![':'] + two_digits(m as int)
        }
    } else {
        let h12 = if h % 12 == 0 {
            12int
        } else {
            (h % 12) as int
        };
        let suffix = if h < 12 {
            seq![' ', 'A', 'M']
        } else {
            seq![' ', 'P', 'M']
        };
        if show_seconds {
            two_digits(h12) + seq![':'] + two_digits(m as int) + seq![':'] + two_digits(s as int)
                + suffix
        } else {
            two_digits(h12) + seq![':'] + two_digits(m as int) + suffix
        }
    }
}

/// The time string is exactly as long as the geometry engine expects.
pub proof fn lemma_time_string_len(format_24h: bool, show_seconds: bool, h: u8, m: u8, s: u8)
    ensures
        spec_time_string(format_24h, show_seconds, h, m, s).len() == spec_char_count(
            format_24h,
            show_seconds,
        ),
{
}

/// The decimal digit as a string slice.
pub(crate) fn digit_str(d: u8) -> (r: &'static str)
    requires
        d < 10,
    ensures
        r@ == seq![digit_char(d as int)],
{
    proof {
        reveal_strlit("0");
        reveal_strlit("1");
        reveal_strlit("2");
        reveal_strlit("3");
        reveal_strlit("4");
        reveal_strlit("5");
        reveal_strlit("6");
        reveal_strlit("7");
        reveal_strlit("8");
        reveal_strlit("9");
        assert("0"@ =~= seq![digit_char(0)]);
        assert("1"@ =~= seq![digit_char(1)]);
        assert("2"@ =~= seq![digit_char(2)]);
        assert("3"@ =~= seq![digit_char(3)]);
        assert("4"@ =~= seq![digit_char(4)]);
        assert("5"@ =~= seq![digit_char(5)]);
        assert("6"@ =~= seq![digit_char(6)]);
        assert("7"@ =~= seq![digit_char(7)]);
        assert("8"@ =~= seq![digit_char(8)]);
        assert("9"@ =~= seq![digit_char(9)]);
    }
    if d == 0 {
        "0"
    } else if d == 1 {
        "1"
    } else if d == 2 {
        "2"
    } else if d == 3 {
        "3"
    } else if d == 4 {
        "4"
    } else if d == 5 {
        "5"
    } else if d == 6 {
        "6"
    } else if d == 7 {
        "7"
    } else if d == 8 {
        "8"
    } else {
        "9"
    }
}

/// Appends a value below 100 as exactly two decimal digits.
fn push_two_digits(out: &mut String, n: u8)
    requires
        n < 100,
    ensures
        final (out)@ == old(out)@ + two_digits(n as int),
{
    out.append(digit_str(n / 10));
    out.append(digit_str(n % 10));
    proof {
        assert(old(out)@ + seq![digit_char(n as int / 10)] + seq![digit_char(n as int % 10)] =~= old(
            out,
        )@ + two_digits(n as int));
    }
}

/// Renders the time string for a given time of day under the configured
/// format.
pub fn format_time_parts(format_24h: bool, show_seconds: bool, hour: u8, minute: u8, second: u8) -> (r:
    String)
    requires
        hour < 24,
        minute < 60,
        second < 60,
    ensures
        r@ == spec_time_string(format_24h, show_seconds, hour, minute, second),
        r@.len() == spec_char_count(format_24h, show_seconds),
{
    proof {
        reveal_strlit(":");
        reveal_strlit(" AM");
        reveal_strlit(" PM");
        assert(":"@ =~= seq![':']);
        assert(" AM"@ =~= seq![' ', 'A', 'M']);
        assert(" PM"@ =~= seq![' ', 'P', 'M']);
        lemma_time_string_len(format_24h, show_seconds, hour, minute, second);
    }
    let mut out = String::new();
    if format_24h {
        push_two_digits(&mut out, hour);
        out.append(":");
        push_two_digits(&mut out, minute);
        if show_seconds {
            out.append(":");
            push_two_digits(&mut out, second);
        }
        proof {
            assert(out@ =~= spec_time_string(format_24h, show_seconds, hour, minute, second));
        }
    } else {
        let h12: u8 = if hour % 12 == 0 {
            12
        } else {
            hour % 12
        };
        push_two_digits(&mut out, h12);
        out.append(":");
        push_two_digits(&mut out, minute);
        if show_seconds {
            out.append(":");
            push_two_digits(&mut out, second);
        }
        if hour < 12 {
            out.append(" AM");
        } else {
            out.append(" PM");
        }
        proof {
            assert(out@ =~= spec_time_string(format_24h, show_seconds, hour, minute, second));
        }
    }
    out
}

/// Relies on `chrono::Local::now` and the `chrono::Timelike` accessors
/// `hour`, `minute` and `second`: the local wall-clock time of day, with
/// the hour below 24 and minute and second below 60 (chrono represents a
/// leap second in the sub-second field, never as a 60th second). chrono
/// panics when the system clock reads before the Unix epoch; no clause
/// here covers that call, and the ranges hold of every value returned.
#[verifier::external_body]
fn local_now_hms() -> (r: (u8, u8, u8))
    ensures
        r.0 < 24,
        r.1 < 60,
        r.2 < 60,
{
    let now = chrono::Local::now();
    (now.hour() as u8, now.minute() as u8, now.second() as u8)
}

/// Renders the current local time under the configured format. The string
/// is always exactly as long as the geometry engine sizes the window for.
pub fn format_time(config: &Config) -> (r: String)
    ensures
        r@.len() == spec_char_count(config.format_24h, config.show_seconds),
        exists|h: u8, m: u8, s: u8|
            h < 24 && m < 60 && s < 60 && r@ == spec_time_string(
                config.format_24h,
                config.show_seconds,
                h,
                m,
                s,
            ),
{
    let (h, m, s) = local_now_hms();
    format_time_parts(config.format_24h, config.show_seconds, h, m, s)
}

} // verus!
