use vstd::prelude::*;

use crate::errors::ErrorCode;

verus! {

/// The status of one period of an explicit schedule.
#[derive(Debug, Clone, Copy, PartialEq, Eq, Structural)]
pub enum Status {
    NotVerified,
    Respected { value: u128 },
    NotRespected { value: u128 },
}

/// One period of an explicit schedule: its first and last timestamp.
#[derive(Debug, Clone, Copy, PartialEq, Eq, Structural)]
pub struct Period {
    pub start: u64,
    pub end: u64,
    pub status: Status,
}

/// A schedule given period by period rather than generated from a fixed length.
#[derive(Debug)]
pub struct PeriodRegistry {
    pub periods: Vec<Period>,
}

/// minimum length of a period
pub const MIN_PERIOD_LENGTH: u64 = 60000;

/// Every period lasts at least `MIN_PERIOD_LENGTH` and ends no later than the next
/// one starts.
pub open spec fn periods_well_spaced(periods: Seq<Period>) -> bool {
    &&& forall|i: int|
        0 <= i < periods.len() ==> #[trigger] periods[i].end >= periods[i].start
            + MIN_PERIOD_LENGTH
    &&& forall|i: int|
        0 <= i < periods.len() - 1 ==> #[trigger] periods[i].end <= periods[i + 1].start
}

impl PeriodRegistry {
    /// minimum delay from now to the first period start
    pub const MIN_DELAY: u64 = 600000;

    /// Whether the periods are long enough and do not overlap.
    pub fn verify_period_length(periods: &[Period]) -> (r: bool)
        ensures
            r == periods_well_spaced(periods@),
    {
        let n = periods.len();
        let mut i: usize = 0;
        while i < n
            invariant
                n == periods@.len(),
                i <= n,
                forall|j: int|
                    0 <= j < i ==> #[trigger] periods@[j].end >= periods@[j].start
                        + MIN_PERIOD_LENGTH,
                forall|j: int|
                    0 <= j < i && j < n - 1 ==> #[trigger] periods@[j].end <= periods@[j
                        + 1].start,
            decreases n - i,
        {
            let period = periods[i];
            if period.start > u64::MAX - MIN_PERIOD_LENGTH || period.end < period.start
                + MIN_PERIOD_LENGTH {
                assert(!(periods@[i as int].end >= periods@[i as int].start + MIN_PERIOD_LENGTH));
                return false;
            }
            if i + 1 < n && period.end > periods[i + 1].start {
                assert(!(periods@[i as int].end <= periods@[i + 1].start));
                return false;
            }
            i = i + 1;
        }
        true
    }

    /// Returns the start timestamp of a given period id
    pub fn get_start(&self, period_id: usize) -> (r: Result<u64, ErrorCode>)
        ensures
            period_id < self.periods@.len() ==> r == Ok::<u64, ErrorCode>(
                self.periods@[period_id as int].start,
            ),
            period_id >= self.periods@.len() ==> r == Err::<u64, ErrorCode>(
                ErrorCode::InvalidPeriodId,
            ),
    {
        if period_id >= self.periods.len() {
            return Err(ErrorCode::InvalidPeriodId);
        }
        Ok(self.periods[period_id].start)
    }

    /// Returns the end timestamp of a given period id
    pub fn get_end(&self, period_id: usize) -> (r: Result<u64, ErrorCode>)
        ensures
            period_id < self.periods@.len() ==> r == Ok::<u64, ErrorCode>(
                self.periods@[period_id as int].end,
            ),
            period_id >= self.periods@.len() ==> r == Err::<u64, ErrorCode>(
                ErrorCode::InvalidPeriodId,
            ),
    {
        if period_id >= self.periods.len() {
            return Err(ErrorCode::InvalidPeriodId);
        }
        Ok(self.periods[period_id].end)
    }

    /// Whether the period `period_id` has started at time `now`.
    pub fn has_started(&self, period_id: usize, now: u64) -> (r: Result<bool, ErrorCode>)
        ensures
            period_id < self.periods@.len() ==> r == Ok::<bool, ErrorCode>(
                now >= self.periods@[period_id as int].start,
            ),
            period_id >= self.periods@.len() ==> r == Err::<bool, ErrorCode>(
                ErrorCode::InvalidPeriodId,
            ),
    {
        match self.get_start(period_id) {
            Ok(start) => Ok(now >= start),
            Err(e) => Err(e),
        }
    }

    /// Whether the period `period_id` is over at time `now`.
    pub fn has_finished(&self, period_id: usize, now: u64) -> (r: Result<bool, ErrorCode>)
        ensures
            period_id < self.periods@.len() ==> r == Ok::<bool, ErrorCode>(
                now > self.periods@[period_id as int].end,
            ),
            period_id >= self.periods@.len() ==> r == Err::<bool, ErrorCode>(
                ErrorCode::InvalidPeriodId,
            ),
    {
        match self.get_end(period_id) {
            Ok(end) => Ok(now > end),
            Err(e) => Err(e),
        }
    }
}

} // verus!
