//! Time as the engine sees it: a `Duration` is a count of nanoseconds, and an
//! instant is the `Duration` that has passed since the Unix epoch.
//!
//! `Duration` is opaque to the verifier. Its length is given the name
//! [`duration_nanos`], and the few `std` operations that the library calls are
//! specified over that name. Everything else in the crate reasons about plain
//! natural numbers.

use std::time::Duration;
use std::time::SystemTime;
use std::time::UNIX_EPOCH;
use vstd::prelude::*;

verus! {

/// Nanoseconds in one second.
pub const NANOS_PER_SEC: u64 = 1_000_000_000;

/// The length of `d` in nanoseconds: what `Duration::as_nanos` returns.
pub uninterp spec fn duration_nanos(d: Duration) -> nat;

/// Whether some `Duration` is exactly `n` nanoseconds long.
pub open spec fn representable(n: nat) -> bool {
    exists|d: Duration| duration_nanos(d) == n
}

/// The view of an optional duration.
pub open spec fn option_nanos(d: Option<Duration>) -> Option<nat> {
    match d {
        Some(d) => Some(duration_nanos(d)),
        None => None,
    }
}

/// Trusted: `Duration::as_nanos` returns the total number of nanoseconds of
/// the duration. This is the definition of [`duration_nanos`].
pub assume_specification[ Duration::as_nanos ](d: &Duration) -> (n: u128)
    ensures
        n == duration_nanos(*d),
;

/// Trusted: `Duration::as_secs` returns the number of whole seconds contained
/// in the duration, the nanoseconds below one second dropped.
pub assume_specification[ Duration::as_secs ](d: &Duration) -> (secs: u64)
    ensures
        secs == duration_nanos(*d) / (NANOS_PER_SEC as nat),
;

/// Trusted: `Duration::from_nanos` makes the duration that is `nanos`
/// nanoseconds long.
pub assume_specification[ Duration::from_nanos ](nanos: u64) -> (d: Duration)
    ensures
        duration_nanos(d) == nanos,
;

/// Trusted: `Duration::checked_add` returns the sum of the two durations, or
/// `None` where the sum overflows, that is, where no `Duration` is that long.
pub assume_specification[ Duration::checked_add ](a: Duration, b: Duration) -> (sum: Option<
    Duration,
>)
    ensures
        match sum {
            Some(d) => duration_nanos(d) == duration_nanos(a) + duration_nanos(b),
            None => !representable(duration_nanos(a) + duration_nanos(b)),
        },
;

/// Trusted: `Duration::saturating_sub` returns `a - b`, or the zero duration
/// where `b` is the longer one.
pub assume_specification[ Duration::saturating_sub ](a: Duration, b: Duration) -> (d: Duration)
    ensures
        duration_nanos(d) == if duration_nanos(a) >= duration_nanos(b) {
            duration_nanos(a) - duration_nanos(b)
        } else {
            0
        },
;

/// `std::time::SystemTime`, a reading of the system clock. Opaque.
#[verifier::external_type_specification]
#[verifier::external_body]
pub struct ExSystemTime(SystemTime);

/// Trusted: reads the system clock with `SystemTime::now`. The reading depends
/// on the machine and the moment, so nothing is claimed of it.
#[verifier::external_body]
fn system_now() -> SystemTime {
    SystemTime::now()
}

/// Trusted: `SystemTime::duration_since` against `UNIX_EPOCH`: the time from
/// the epoch to `t`, or `None` where `t` lies before the epoch. Nothing is
/// claimed of the value.
#[verifier::external_body]
fn since_epoch(t: &SystemTime) -> Option<Duration> {
    match t.duration_since(UNIX_EPOCH) {
        Ok(elapsed) => Some(elapsed),
        Err(_) => None,
    }
}

/// The zero duration.
pub fn zero() -> (d: Duration)
    ensures
        duration_nanos(d) == 0,
{
    Duration::from_nanos(0)
}

/// The current time as the duration since the Unix epoch: the system clock
/// is read, and [`elapsed_or_zero`] makes an instant of the reading. What the
/// clock reads depends on the machine and the moment, so nothing holds of
/// every result.
pub fn current_time() -> Duration {
    let reading = system_now();
    elapsed_or_zero(since_epoch(&reading))
}

/// The instant that a reading of the clock stands for. `elapsed` is the time
/// from the Unix epoch to the reading, `None` where the clock stood before
/// the epoch: such a clock reads as the epoch itself, the instant zero.
pub fn elapsed_or_zero(elapsed: Option<Duration>) -> (instant: Duration)
    ensures
        match elapsed {
            Some(elapsed) => instant == elapsed,
            None => duration_nanos(instant) == 0,
        },
{
    match elapsed {
        Some(elapsed) => elapsed,
        None => zero(),
    }
}

/// Whether `d` is strictly longer than zero.
pub fn is_positive(d: Duration) -> (r: bool)
    ensures
        r == (duration_nanos(d) > 0),
{
    d.as_nanos() > 0
}

/// Whether `a` and `b` have the same length.
pub fn same_length(a: Duration, b: Duration) -> (r: bool)
    ensures
        r == (duration_nanos(a) == duration_nanos(b)),
{
    a.as_nanos() == b.as_nanos()
}

/// Whether the instant `now` lies at or after `start + span`.
///
/// The sum is formed without a bound: where it is longer than any `Duration`,
/// no instant has reached it.
pub fn has_reached(now: Duration, start: Duration, span: Duration) -> (r: bool)
    ensures
        r == (duration_nanos(now) >= duration_nanos(start) + duration_nanos(span)),
{
    let at: u128 = now.as_nanos();
    match start.as_nanos().checked_add(span.as_nanos()) {
        Some(end) => at >= end,
        None => false,
    }
}

/// Whether the instant `now` lies at or after `start + first + second`.
pub fn has_reached_after(now: Duration, start: Duration, first: Duration, second: Duration) -> (r:
    bool)
    ensures
        r == (duration_nanos(now) >= duration_nanos(start) + duration_nanos(first)
            + duration_nanos(second)),
{
    let at: u128 = now.as_nanos();
    let tail: u128 = second.as_nanos();
    match start.as_nanos().checked_add(first.as_nanos()) {
        Some(mid) => match mid.checked_add(tail) {
            Some(end) => at >= end,
            None => false,
        },
        None => false,
    }
}

} // verus!
