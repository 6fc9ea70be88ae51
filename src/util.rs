use vstd::prelude::*;

use crate::text::{decimal, push_char, push_decimal, zero_padded};
use crate::time::Seconds;

verus! {

/// A length of time written as hours, minutes and seconds, leaving out leading zero units:
/// `1h2m03s`, `2m03s`, `03s`.
pub open spec fn duration_text(total: nat) -> Seq<char> {
    let hours = total / 3600;
    let minutes = total / 60 % 60;
    let seconds = total % 60;
    if hours > 0 {
        decimal(hours) + seq!['h'] + decimal(minutes) + seq!['m'] + zero_padded(decimal(seconds), 2)
            + seq!['s']
    } else if minutes > 0 {
        decimal(minutes) + seq!['m'] + zero_padded(decimal(seconds), 2) + seq!['s']
    } else {
        zero_padded(decimal(seconds), 2) + seq!['s']
    }
}

/// Writes a number of seconds as hours, minutes and seconds.
pub fn format_duration(seconds: i64) -> (r: String)
    requires
        seconds >= 0,
    ensures
        r@ == duration_text(seconds as nat),
{
    let total = seconds as u64;
    let hours = total / 3600;
    let minutes = total / 60 % 60;
    let secs = total % 60;
    let mut s = String::new();
    if hours > 0 {
        push_decimal(&mut s, hours, 0);
        push_char(&mut s, 'h');
        push_decimal(&mut s, minutes, 0);
        push_char(&mut s, 'm');
    } else if minutes > 0 {
        push_decimal(&mut s, minutes, 0);
        push_char(&mut s, 'm');
    }
    push_decimal(&mut s, secs, 2);
    push_char(&mut s, 's');
    assert(zero_padded(decimal(hours as nat), 0) == decimal(hours as nat));
    assert(zero_padded(decimal(minutes as nat), 0) == decimal(minutes as nat));
    assert(s@ =~= duration_text(seconds as nat));
    s
}

/// How many radars to offer, given their distances in kilometres sorted nearest first:
/// those before the first one more than 200 km away, at least one; a single one when
/// none is that far.
pub fn nearby_count(sorted_distances: &Vec<i32>) -> (r: usize)
    ensures
        (forall|k: int| 0 <= k < sorted_distances@.len() ==> sorted_distances@[k] <= 200) ==> r == 1,
        forall|p: int|
            0 <= p < sorted_distances@.len() && sorted_distances@[p] > 200 && (forall|k: int|
                0 <= k < p ==> sorted_distances@[k] <= 200) ==> r == (if p == 0 {
                1
            } else {
                p
            }),
{
    let mut i: usize = 0;
    while i < sorted_distances.len()
        invariant
            i <= sorted_distances@.len(),
            forall|k: int| 0 <= k < i ==> sorted_distances@[k] <= 200,
        decreases sorted_distances@.len() - i,
    {
        if sorted_distances[i] > 200 {
            return if i == 0 {
                1
            } else {
                i
            };
        }
        i = i + 1;
    }
    1
}

/// What to do after a request failed.
#[derive(Clone, Copy, Debug, PartialEq, Eq, Structural)]
pub enum RetryDecision {
    /// Try again after this many seconds.
    RetryAfter(Seconds),
    /// Give up and report the failure.
    Fail,
}

/// Transport failures (no status) are retried after `default_delay`; the statuses 408,
/// 429 and 503 after the server's hint, or `default_delay` without one; any other status
/// fails at once.
pub open spec fn retry_of(status: Option<u16>, hint: Option<Seconds>, default_delay: Seconds) -> RetryDecision {
    match status {
        None => RetryDecision::RetryAfter(default_delay),
        Some(s) => if s == 408 || s == 429 || s == 503 {
            RetryDecision::RetryAfter(
                match hint {
                    Some(h) => h,
                    None => default_delay,
                },
            )
        } else {
            RetryDecision::Fail
        },
    }
}

/// Decides whether a failed request is tried again, and when.
pub fn after_failed_request(status: Option<u16>, hint: Option<Seconds>, default_delay: Seconds) -> (r:
    RetryDecision)
    ensures
        r == retry_of(status, hint, default_delay),
{
    match status {
        None => RetryDecision::RetryAfter(default_delay),
        Some(s) => {
            if s == 408 || s == 429 || s == 503 {
                match hint {
                    Some(h) => RetryDecision::RetryAfter(h),
                    None => RetryDecision::RetryAfter(default_delay),
                }
            } else {
                RetryDecision::Fail
            }
        },
    }
}

} // verus!
