//! Deadlines and elapsed time.
//!
//! A point in time is a number of milliseconds since the Unix epoch.

use vstd::prelude::*;

verus! {

/// Milliseconds in one hour.
pub const MILLIS_PER_HOUR: u64 = 3_600_000;

/// Milliseconds in one day.
pub const MILLIS_PER_DAY: u64 = 86_400_000;

/// The deadline `hours` after `now`: their sum in milliseconds, or the latest
/// representable time when the sum lies beyond it.
pub open spec fn deadline_spec(now: u64, hours: u64) -> u64 {
    if now + hours * MILLIS_PER_HOUR <= u64::MAX {
        (now + hours * MILLIS_PER_HOUR) as u64
    } else {
        u64::MAX
    }
}

/// Whether more than `days` days lie between `before` and the later time
/// `now`. A time that lies after `now` is not past.
pub open spec fn is_past_spec(now: u64, before: u64, days: u64) -> bool {
    before <= now && now - before > days * MILLIS_PER_DAY
}

/// Calls `concordium_std::Duration::from_hours` and reads the duration back in
/// milliseconds. The outside function multiplies the hour count by 1000, 60 and
/// 60 without a check, so the contract admits only hour counts whose product
/// fits, and claims that product as the result.
#[verifier::external_body]
fn duration_from_hours(hours: u64) -> (millis: u64)
    requires
        hours * MILLIS_PER_HOUR <= u64::MAX,
    ensures
        millis == hours * MILLIS_PER_HOUR,
{
    concordium_std::Duration::from_hours(hours).millis()
}

/// Calls `concordium_std::Duration::from_days` and reads the duration back in
/// milliseconds. The outside function multiplies the day count by 1000, 60, 60
/// and 24 without a check, so the contract admits only day counts whose
/// product fits, and claims that product as the result.
#[verifier::external_body]
fn duration_from_days(days: u64) -> (millis: u64)
    requires
        days * MILLIS_PER_DAY <= u64::MAX,
    ensures
        millis == days * MILLIS_PER_DAY,
{
    concordium_std::Duration::from_days(days).millis()
}

/// Calls `concordium_std::Timestamp::checked_add` on a time and a duration, both
/// given in milliseconds. The outside function adds the two with a checked
/// addition: the contract claims the sum when it fits in a `u64` and `None`
/// when it does not.
#[verifier::external_body]
fn timestamp_checked_add(millis: u64, duration_millis: u64) -> (sum: Option<u64>)
    ensures
        sum == (if millis + duration_millis <= u64::MAX {
            Some((millis + duration_millis) as u64)
        } else {
            None
        }),
{
    let duration = concordium_std::Duration::from_millis(duration_millis);
    match concordium_std::Timestamp::from_timestamp_millis(millis).checked_add(duration) {
        Some(sum) => Some(sum.timestamp_millis()),
        None => None,
    }
}

/// Calls `concordium_std::Timestamp::duration_since` on two times given in
/// milliseconds. The outside function subtracts the earlier from the later
/// with a checked subtraction: the contract claims the difference, and `None`
/// when `before` lies after `now`.
#[verifier::external_body]
fn timestamp_duration_since(now: u64, before: u64) -> (elapsed: Option<u64>)
    ensures
        elapsed == (if before <= now {
            Some((now - before) as u64)
        } else {
            None
        }),
{
    let before = concordium_std::Timestamp::from_timestamp_millis(before);
    match concordium_std::Timestamp::from_timestamp_millis(now).duration_since(before) {
        Some(elapsed) => Some(elapsed.millis()),
        None => None,
    }
}

/// The deadline that lies `hours` after `now`.
///
/// A deadline too far away to be represented is the latest representable
/// time, which no clock reading exceeds.
pub fn deadline_after(now: u64, hours: u64) -> (deadline: u64)
    ensures
        deadline == deadline_spec(now, hours),
{
    if hours > u64::MAX / MILLIS_PER_HOUR {
        assert(hours * MILLIS_PER_HOUR > u64::MAX) by (nonlinear_arith)
            requires
                hours > u64::MAX / MILLIS_PER_HOUR,
        ;
        return u64::MAX;
    }
    assert(hours * MILLIS_PER_HOUR <= u64::MAX) by (nonlinear_arith)
        requires
            hours <= u64::MAX / MILLIS_PER_HOUR,
    ;
    let length: u64 = duration_from_hours(hours);
    match timestamp_checked_add(now, length) {
        Some(deadline) => deadline,
        None => u64::MAX,
    }
}

/// Whether more than `days` days have passed at `now` since `before`.
pub fn is_past(now: u64, before: u64, days: u64) -> (past: bool)
    ensures
        past == is_past_spec(now, before, days),
{
    let elapsed: u64 = match timestamp_duration_since(now, before) {
        Some(elapsed) => elapsed,
        None => {
            return false;
        },
    };
    if days > u64::MAX / MILLIS_PER_DAY {
        assert(days * MILLIS_PER_DAY > u64::MAX) by (nonlinear_arith)
            requires
                days > u64::MAX / MILLIS_PER_DAY,
        ;
        return false;
    }
    assert(days * MILLIS_PER_DAY <= u64::MAX) by (nonlinear_arith)
        requires
            days <= u64::MAX / MILLIS_PER_DAY,
    ;
    elapsed > duration_from_days(days)
}

} // verus!
