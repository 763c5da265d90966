//! Elapsed time of one connection.

use crate::model::runtime::MonoTime;
use tokio::time::Instant;
use vstd::prelude::*;

verus! {

/// The instant at which a connection's clock starts.
#[verifier::external_type_specification]
#[verifier::external_body]
pub struct ExInstant(tokio::time::Instant);

/// Nanoseconds of one second.
pub const NANOS_PER_SECOND: u128 = 1_000_000_000;

/// `tokio::time::Instant::elapsed`, in nanoseconds. Nothing is claimed of the
/// time that passed.
#[verifier::external_body]
fn elapsed(epoch: &Instant) -> u128 {
    epoch.elapsed().as_nanos()
}

/// `tokio::time::Instant::checked_add` of a span of seconds and nanoseconds.
/// Nothing is claimed of the spans for which there is such an instant: how far
/// instants reach is up to the machine.
#[verifier::external_body]
fn later(epoch: &Instant, seconds: u64, nanoseconds: u32) -> Option<Instant>
    requires
        nanoseconds < NANOS_PER_SECOND,
{
    epoch.checked_add(std::time::Duration::new(seconds, nanoseconds))
}

/// The clock that started at `epoch` showed this time when it was read.
pub closed spec fn showed(epoch: Instant, time: MonoTime) -> bool {
    call_ensures(elapsed, (&epoch,), time.nanos)
}

/// Returns the time that passed since the connection's clock started.
pub fn time_since(epoch: &Instant) -> (r: MonoTime)
    ensures
        showed(*epoch, r),
{
    MonoTime::from_nanos(elapsed(epoch))
}

/// Asked for the instant this much after `epoch`, the machine gave one or not.
pub closed spec fn instant_asked(
    epoch: Instant,
    seconds: u64,
    nanoseconds: u32,
    reached: bool,
) -> bool {
    exists|moment: Option<Instant>| #[trigger]
        call_ensures(later, (&epoch, seconds, nanoseconds), moment) && reached == (moment is Some)
}

/// The clock that started at `epoch` reaches this time or does not, as the machine
/// told. It never reaches more seconds than can be counted.
pub open spec fn reach_told(epoch: Instant, nanos: u128, reached: bool) -> bool {
    if nanos / NANOS_PER_SECOND > u64::MAX {
        !reached
    } else {
        instant_asked(
            epoch,
            (nanos / NANOS_PER_SECOND) as u64,
            (nanos % NANOS_PER_SECOND) as u32,
            reached,
        )
    }
}

/// Returns whether the clock that started at `epoch` reaches this time.
pub fn reaches(epoch: &Instant, nanos: u128) -> (r: bool)
    ensures
        reach_told(*epoch, nanos, r),
{
    let seconds: u128 = nanos / NANOS_PER_SECOND;
    if seconds > u64::MAX as u128 {
        return false;
    }
    let moment = later(epoch, seconds as u64, (nanos % NANOS_PER_SECOND) as u32);
    moment.is_some()
}

/// The deadline `span` nanoseconds after `now`, or none where the clock does not
/// reach it, as the machine told.
pub open spec fn deadline_told(
    epoch: Instant,
    now: MonoTime,
    span: u128,
    deadline: Option<MonoTime>,
) -> bool {
    match now.spec_after(span) {
        None => deadline is None,
        Some(time) => {
            &&& reach_told(epoch, time.nanos, deadline is Some)
            &&& deadline is Some ==> deadline == Some(time)
        },
    }
}

/// Returns the deadline `span` nanoseconds after `now`, when the clock reaches it.
pub fn deadline_after(epoch: &Instant, now: MonoTime, span: u128) -> (r: Option<MonoTime>)
    ensures
        deadline_told(*epoch, now, span, r),
{
    match now.checked_add(span) {
        None => None,
        Some(time) => if reaches(epoch, time.nanos) {
            Some(time)
        } else {
            None
        },
    }
}

/// The clock is asked about exactly the instant that a time stands for, in seconds and
/// the nanoseconds that are left over; a deadline is later than now by its span, and
/// there is one only where the clock reaches it.
pub proof fn law_deadlines_are_exact(
    epoch: Instant,
    now: MonoTime,
    span: u128,
    deadline: Option<MonoTime>,
)
    requires
        deadline_told(epoch, now, span, deadline),
    ensures
        deadline matches Some(time) ==> {
            &&& time.nanos == now.nanos + span
            &&& exists|seconds: u64, nanoseconds: u32|
                {
                    &&& #[trigger] instant_asked(epoch, seconds, nanoseconds, true)
                    &&& nanoseconds < 1_000_000_000
                    &&& seconds * 1_000_000_000 + nanoseconds == time.nanos
                }
        },
        deadline is None && now.nanos + span <= u64::MAX ==> exists|
            seconds: u64,
            nanoseconds: u32,
        |
            {
                &&& #[trigger] instant_asked(epoch, seconds, nanoseconds, false)
                &&& nanoseconds < 1_000_000_000
                &&& seconds * 1_000_000_000 + nanoseconds == now.nanos + span
            },
{
    let total = now.nanos + span;
    if total <= u128::MAX {
        let nanos = total as u128;
        let seconds = (nanos / NANOS_PER_SECOND) as u64;
        let rest = (nanos % NANOS_PER_SECOND) as u32;
        assert(total == (total / 1_000_000_000) * 1_000_000_000 + total % 1_000_000_000);
        if deadline is Some {
            assert(instant_asked(epoch, seconds, rest, true));
        } else if total <= u64::MAX {
            assert(total / 1_000_000_000 <= u64::MAX);
            assert(instant_asked(epoch, seconds, rest, false));
        }
    }
}

} // verus!
