//! The request for a period of historical quotes.
use vstd::prelude::*;

verus! {

#[verifier::external_type_specification]
#[verifier::external_body]
pub struct ExSystemTime(std::time::SystemTime);

#[verifier::external_type_specification]
#[verifier::external_body]
pub struct ExSystemTimeError(std::time::SystemTimeError);

/// Relies on `std::time::SystemTime::now`: the current time of the system clock.
pub assume_specification[ std::time::SystemTime::now ]() -> std::time::SystemTime;

/// Relies on `core::time::Duration::as_millis`: the whole milliseconds of a duration.
pub assume_specification[ core::time::Duration::as_millis ](d: &core::time::Duration) -> u128;

/// Relies on `std::time::SystemTime::duration_since` with the Unix epoch:
/// the time elapsed since the epoch, or an error when `t` is earlier.
#[verifier::external_body]
fn since_epoch(t: &std::time::SystemTime) -> (r: Result<core::time::Duration, std::time::SystemTimeError>) {
    t.duration_since(std::time::UNIX_EPOCH)
}

/// The system clock in milliseconds since the Unix epoch (saturated to
/// `u64`), or `None` when the clock reads before the epoch.
pub fn clock_millis() -> (r: Option<u64>) {
    let now = std::time::SystemTime::now();
    match since_epoch(&now) {
        Ok(d) => {
            let ms = d.as_millis();
            if ms > u64::MAX as u128 {
                Some(u64::MAX)
            } else {
                Some(ms as u64)
            }
        },
        Err(_) => None,
    }
}

/// Why a history request could not be built.
#[derive(Debug, Clone, Copy, PartialEq, Eq, Structural)]
pub enum HistoryError {
    /// The clock read before the Unix epoch.
    ClockBeforeEpoch,
}

/// A request for the quotes of `asset` over `period` seconds ending at
/// `time`, shifted by `offset`, tagged with the request index `index`.
#[derive(Debug, Clone, PartialEq, Eq)]
pub struct LoadHistoryPeriod {
    pub asset: String,
    pub period: i64,
    pub time: i64,
    pub index: u64,
    pub offset: i64,
}

/// The request index for a request made at `now_ms`: the time in hundredths
/// of a second, which grows with every request made at least that far apart.
pub open spec fn index_at(now_ms: u64) -> u64 {
    now_ms / 10
}

/// The request index for a request made at `now_ms`.
pub fn history_index(now_ms: u64) -> (r: u64)
    ensures
        r == index_at(now_ms),
{
    now_ms / 10
}

impl LoadHistoryPeriod {
    /// A request built with the index for `now_ms`.
    pub fn at(asset: String, time: i64, period: i64, offset: i64, now_ms: u64) -> (r: LoadHistoryPeriod)
        ensures
            r == (LoadHistoryPeriod { asset, period, time, index: index_at(now_ms), offset }),
    {
        LoadHistoryPeriod { asset, period, time, index: history_index(now_ms), offset }
    }

    /// A request stamped with an index taken from the system clock now.
    /// Fails when the clock reads before the Unix epoch.
    pub fn new(asset: String, time: i64, period: i64, offset: i64) -> (r: Result<LoadHistoryPeriod, HistoryError>)
        ensures
            r is Err ==> r == Err::<LoadHistoryPeriod, HistoryError>(HistoryError::ClockBeforeEpoch),
            r is Ok ==> exists|ms: u64| r->Ok_0 == (LoadHistoryPeriod { asset, period, time, index: index_at(ms), offset }),
    {
        match clock_millis() {
            Some(ms) => Ok(LoadHistoryPeriod::at(asset, time, period, offset, ms)),
            None => Err(HistoryError::ClockBeforeEpoch),
        }
    }
}

} // verus!
