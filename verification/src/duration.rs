//! Durations as moderators type them: a count and a unit.

use crate::decimal::{all_digits, decimal_value, parse_decimal};
use vstd::prelude::*;
use vstd::string::*;

verus! {

/// How many seconds one unit of a deadline lasts: `s`, `m`, `h`, `d` or `w`.
pub open spec fn deadline_unit_seconds(unit: Seq<char>) -> Option<nat> {
    if unit == seq!['s'] {
        Some(1)
    } else if unit == seq!['m'] {
        Some(60)
    } else if unit == seq!['h'] {
        Some(3600)
    } else if unit == seq!['d'] {
        Some(86400)
    } else if unit == seq!['w'] {
        Some(604800)
    } else {
        None
    }
}

/// The deadline `period` units after `now`, where the unit is known and the
/// deadline fits in `u64`.
pub open spec fn deadline(now: u64, unit: Seq<char>, period: u64) -> Option<u64> {
    match deadline_unit_seconds(unit) {
        Some(k) => if now + period * k <= u64::MAX {
            Some((now + period * k) as u64)
        } else {
            None
        },
        None => None,
    }
}

/// The deadline `period` units after the moment `now`, in seconds since the
/// epoch.
pub fn unixtime_at(now: u64, unit: &str, period: u64) -> (at: Option<u64>)
    ensures
        at == deadline(now, unit@, period),
{
    if unit.unicode_len() != 1 {
        proof {
            assert(seq!['s'].len() == 1 && seq!['m'].len() == 1 && seq!['h'].len() == 1
                && seq!['d'].len() == 1 && seq!['w'].len() == 1);
        }
        return None;
    }
    let c: char = unit.get_char(0);
    let k: u64 = if c == 's' {
        1
    } else if c == 'm' {
        60
    } else if c == 'h' {
        3600
    } else if c == 'd' {
        86400
    } else if c == 'w' {
        604800
    } else {
        proof {
            assert(seq!['s'][0] == 's' && seq!['m'][0] == 'm' && seq!['h'][0] == 'h'
                && seq!['d'][0] == 'd' && seq!['w'][0] == 'w');
        }
        return None;
    };
    proof {
        assert(unit@ =~= seq![c]);
        assert(seq!['s'][0] == 's' && seq!['m'][0] == 'm' && seq!['h'][0] == 'h'
            && seq!['d'][0] == 'd' && seq!['w'][0] == 'w');
        assert(deadline_unit_seconds(unit@) == Some(k as nat));
    }
    match period.checked_mul(k) {
        Some(span) => now.checked_add(span),
        None => {
            proof {
                assert(period * k > u64::MAX);
            }
            None
        },
    }
}

/// Seconds since the epoch on the system clock, as
/// `std::time::SystemTime::now` reports them. Nothing is claimed of the value:
/// it differs from call to call. A clock set before the epoch reads as zero.
#[verifier::external_body]
fn system_seconds() -> (now: u64) {
    match std::time::SystemTime::now().duration_since(std::time::UNIX_EPOCH) {
        Ok(elapsed) => elapsed.as_secs(),
        Err(_) => 0,
    }
}

/// The deadline `period` units from now on the system clock: what
/// [`deadline`] gives for the moment that the clock read.
pub fn unixtime(unit: &str, period: u64) -> (at: Option<u64>)
    ensures
        exists|now: u64| at == deadline(now, unit@, period),
{
    let now: u64 = system_seconds();
    unixtime_at(now, unit, period)
}

/// What `regex::Regex` finds of `pattern` in `text`: the first and the
/// second capture group of the leftmost match, or `None` where the pattern
/// does not compile, nothing matches, or one of the two groups took no part.
pub uninterp spec fn regex_groups(pattern: Seq<char>, text: Seq<char>) -> Option<
    (Seq<char>, Seq<char>),
>;

/// A pair of strings as plain values.
pub open spec fn pair_view(pair: Option<(String, String)>) -> Option<(Seq<char>, Seq<char>)> {
    match pair {
        Some(pair) => Some((pair.0@, pair.1@)),
        None => None,
    }
}

/// Compiles `pattern` with `regex::Regex::new`, searches `text` with
/// `Regex::captures` and copies out groups 1 and 2 with `Captures::get`.
/// The result depends on the two strings alone.
#[verifier::external_body]
fn capture_groups(pattern: &str, text: &str) -> (groups: Option<(String, String)>)
    ensures
        pair_view(groups) == regex_groups(pattern@, text@),
{
    let compiled = regex::Regex::new(pattern).ok()?;
    let found = compiled.captures(text)?;
    Some((found.get(1)?.as_str().to_string(), found.get(2)?.as_str().to_string()))
}

/// The shape of a length of time: a count, then `M`, `H` or `D` in either
/// case, and nothing else.
pub const DURATION_PATTERN: &'static str = "(?i)^(\\d+)([MHD])$";

/// How many seconds one unit of a length of time lasts: minutes, hours or
/// days, in either case.
pub open spec fn span_unit_seconds(unit: Seq<char>) -> Option<int> {
    if unit == seq!['M'] || unit == seq!['m'] {
        Some(60)
    } else if unit == seq!['H'] || unit == seq!['h'] {
        Some(3600)
    } else if unit == seq!['D'] || unit == seq!['d'] {
        Some(86400)
    } else {
        None
    }
}

/// The seconds in `number` units, where the number is written in ASCII
/// digits, the unit is known and the product fits in `i64`.
pub open spec fn span_seconds(number: Seq<char>, unit: Seq<char>) -> Option<i64> {
    if number.len() > 0 && all_digits(number) && span_unit_seconds(unit).is_some()
        && decimal_value(number) * span_unit_seconds(unit).unwrap() <= i64::MAX {
        Some((decimal_value(number) * span_unit_seconds(unit).unwrap()) as i64)
    } else {
        None
    }
}

/// Computes [`span_seconds`] from the two parts of a length of time.
pub fn span_from_parts(number: &str, unit: &str) -> (seconds: Option<i64>)
    ensures
        seconds == span_seconds(number@, unit@),
{
    if unit.unicode_len() != 1 {
        proof {
            assert(seq!['M'].len() == 1 && seq!['m'].len() == 1 && seq!['H'].len() == 1
                && seq!['h'].len() == 1 && seq!['D'].len() == 1 && seq!['d'].len() == 1);
        }
        return None;
    }
    let c: char = unit.get_char(0);
    proof {
        assert(unit@ =~= seq![c]);
        assert(seq!['M'][0] == 'M' && seq!['m'][0] == 'm' && seq!['H'][0] == 'H' && seq!['h'][0]
            == 'h' && seq!['D'][0] == 'D' && seq!['d'][0] == 'd');
    }
    let k: i64 = if c == 'M' || c == 'm' {
        60
    } else if c == 'H' || c == 'h' {
        3600
    } else if c == 'D' || c == 'd' {
        86400
    } else {
        return None;
    };
    match parse_decimal(number) {
        Some(count) => {
            proof {
                if count * k > i64::MAX {
                    assert(count.checked_mul(k).is_none()) by {
                        assert(count * k > i64::MAX);
                    }
                }
            }
            count.checked_mul(k)
        },
        None => {
            proof {
                if number@.len() > 0 && all_digits(number@) {
                    assert(decimal_value(number@) > i64::MAX);
                    assert(decimal_value(number@) * k > i64::MAX) by (nonlinear_arith)
                        requires
                            decimal_value(number@) > i64::MAX,
                            k >= 60,
                    ;
                }
            }
            None
        },
    }
}

/// The seconds that a text comes to which [`DURATION_PATTERN`] takes apart
/// into a count and a unit; none for a text of another shape.
pub open spec fn span_of(text: Seq<char>) -> Option<i64> {
    match regex_groups(DURATION_PATTERN@, text) {
        Some(parts) => span_seconds(parts.0, parts.1),
        None => None,
    }
}

/// The seconds in a length of time such as `90m` or `2D`. The text is
/// taken apart by [`DURATION_PATTERN`].
pub fn millis(duration: String) -> (seconds: Option<i64>)
    ensures
        seconds == span_of(duration@),
{
    match capture_groups(DURATION_PATTERN, duration.as_str()) {
        Some(parts) => span_from_parts(parts.0.as_str(), parts.1.as_str()),
        None => None,
    }
}

} // verus!
