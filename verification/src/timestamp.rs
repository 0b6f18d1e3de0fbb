//! Moments in seconds since the epoch, as far as the chat platform's
//! timestamps can hold them.

use vstd::prelude::*;

verus! {

/// Whether `serenity::model::Timestamp::from_unix_timestamp` accepts `secs`,
/// for a count of seconds whose thousandfold fits in `i64`.
pub uninterp spec fn timestamp_accepts(secs: i64) -> bool;

/// Asks `serenity::model::Timestamp::from_unix_timestamp` whether it takes
/// `secs`. That function multiplies by a thousand before it looks at the
/// value, so the product has to fit. The answer depends on `secs` alone.
#[verifier::external_body]
fn timestamp_ok(secs: i64) -> (ok: bool)
    requires
        i64::MIN <= secs * 1000 <= i64::MAX,
    ensures
        ok == timestamp_accepts(secs),
{
    serenity::model::Timestamp::from_unix_timestamp(secs).is_ok()
}

/// Whether a count of seconds can stand as a timestamp.
pub open spec fn representable(secs: int) -> bool {
    i64::MIN <= secs * 1000 <= i64::MAX && timestamp_accepts(secs as i64)
}

/// The moment `length` seconds after `start`, where it can stand as a
/// timestamp.
pub open spec fn moment_after(start: i64, length: i64) -> Option<i64> {
    if representable(start + length) {
        Some((start + length) as i64)
    } else {
        None
    }
}

/// Computes [`moment_after`].
pub fn expiry_after(start: i64, length: i64) -> (end: Option<i64>)
    ensures
        end == moment_after(start, length),
{
    match start.checked_add(length) {
        Some(secs) => {
            if secs < i64::MIN / 1000 || secs > i64::MAX / 1000 {
                None
            } else if timestamp_ok(secs) {
                Some(secs)
            } else {
                None
            }
        },
        None => None,
    }
}

/// How long a timer has to run from `now` until `expires`: nothing where the
/// moment has passed.
pub open spec fn remaining(expires: i64, now: i64) -> u64 {
    if expires > now {
        (expires - now) as u64
    } else {
        0
    }
}

/// Computes [`remaining`].
pub fn remaining_seconds(expires: i64, now: i64) -> (delay: u64)
    ensures
        delay == remaining(expires, now),
{
    if expires > now {
        if now >= 0 {
            (expires - now) as u64
        } else {
            (expires as i128 - now as i128) as u64
        }
    } else {
        0
    }
}

} // verus!
