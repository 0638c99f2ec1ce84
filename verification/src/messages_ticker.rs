//! What the service does on the ticks of the clock of the bus.

use vstd::prelude::*;
use crate::file_maintenance::{
    all_fuuids, batches, claim_all_files, RequeteFuuidsVisites, RequeteFuuidsVisitesSpec,
};
use crate::store::{Store, StoreSpec};

verus! {

/// A tick older than this, in milliseconds, is let go.
pub const TICK_MAX_AGE: i64 = 90_000;

pub const MILLIS_PER_DAY: i64 = 86_400_000;

pub const MILLIS_PER_HOUR: i64 = 3_600_000;

pub const MILLIS_PER_MINUTE: i64 = 60_000;

/// The hour of the day at which the files are claimed.
pub const CLAIM_HOUR: i64 = 9;

/// The minute of the hour at which the files are claimed.
pub const CLAIM_MINUTE: i64 = 39;

/// The milliseconds that have gone by since midnight, universal time.
pub open spec fn millis_of_day(date: i64) -> int {
    date as int % (MILLIS_PER_DAY as int)
}

/// The hour of the day, universal time.
pub open spec fn hour_of(date: i64) -> int {
    millis_of_day(date) / (MILLIS_PER_HOUR as int)
}

/// The minute of the hour.
pub open spec fn minute_of(date: i64) -> int {
    (millis_of_day(date) % (MILLIS_PER_HOUR as int)) / (MILLIS_PER_MINUTE as int)
}

/// Whether a tick is too old to act on.
pub open spec fn is_stale(date: i64, now: i64) -> bool {
    date < now - TICK_MAX_AGE
}

/// Whether a tick calls for the sweep that claims every file: not while the
/// collections are rebuilt, not on a stale tick, and at 09:39 only.
pub open spec fn sweep_is_due(regeneration: bool, date: i64, now: i64) -> bool {
    !regeneration && !is_stale(date, now) && hour_of(date) == CLAIM_HOUR && minute_of(date)
        == CLAIM_MINUTE
}

/// The hour of the day and the minute of the hour of a date.
pub fn time_of_day(date: i64) -> (r: (i64, i64))
    ensures
        r.0 == hour_of(date),
        r.1 == minute_of(date),
        0 <= r.0 < 24,
        0 <= r.1 < 60,
{
    let rest: i64 = date % MILLIS_PER_DAY;
    let of_day: i64 = if rest < 0 {
        rest + MILLIS_PER_DAY
    } else {
        rest
    };
    (of_day / MILLIS_PER_HOUR, (of_day % MILLIS_PER_HOUR) / MILLIS_PER_MINUTE)
}

/// Whether a tick is too old to act on.
pub fn tick_is_stale(date: i64, now: i64) -> (r: bool)
    ensures
        r == is_stale(date, now),
{
    if now < i64::MIN + TICK_MAX_AGE {
        false
    } else {
        date < now - TICK_MAX_AGE
    }
}

/// Whether a tick calls for the sweep that claims every file.
pub fn sweep_due(regeneration: bool, date: i64, now: i64) -> (r: bool)
    ensures
        r == sweep_is_due(regeneration, date, now),
{
    if regeneration {
        return false;
    }
    if tick_is_stale(date, now) {
        return false;
    }
    let (hours, minutes) = time_of_day(date);
    hours == CLAIM_HOUR && minutes == CLAIM_MINUTE
}

/// The claims that a tick calls for: those of the sweep where it is due,
/// none else.
pub open spec fn ticker_claims(s: StoreSpec, regeneration: bool, date: i64, now: i64) -> Seq<
    RequeteFuuidsVisitesSpec,
> {
    if sweep_is_due(regeneration, date, now) {
        batches(all_fuuids(s.data_items))
    } else {
        Seq::empty()
    }
}

/// The claims that a tick calls for.
pub fn consume_ticker(store: &Store, regeneration: bool, date: i64, now: i64) -> (r: Vec<
    RequeteFuuidsVisites,
>)
    ensures
        r.deep_view() == ticker_claims(store@, regeneration, date, now),
{
    if sweep_due(regeneration, date, now) {
        claim_all_files(store)
    } else {
        let none: Vec<RequeteFuuidsVisites> = Vec::new();
        assert(none.deep_view() =~= Seq::empty());
        none
    }
}

} // verus!
