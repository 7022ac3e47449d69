use vstd::prelude::*;

use crate::errors::ErrorCode;

verus! {

/// How long each period lasts.
#[derive(Debug, PartialEq, Eq, Clone, Copy, Structural)]
pub enum PeriodLength {
    Custom { length: u128 },
    Monthly,
    Yearly,
}

/// Where an agreement stands in time.
#[derive(Debug, Clone, Copy, PartialEq, Eq, Structural)]
pub enum SlaStatus {
    NotStarted,
    Active { period_id: u32 },
    Ended,
}

/// The schedule of an agreement: `n_periods` periods of equal length from `start` on.
#[derive(Debug, PartialEq, Eq, Clone, Copy, Structural)]
pub struct PeriodGenerator {
    /// the first timestamp indicating the beginning of the SLA and of the first period
    pub start: u128,
    /// the length of each period
    pub period_length: PeriodLength,
    /// number of periods
    pub n_periods: u32,
}

impl PeriodGenerator {
    /// minimum delay from now for the creation of a new period generator
    pub const MIN_DELAY: u128 = 600000;

    /// minimum length of a period
    pub const MIN_PERIOD_LENGTH: u128 = 60000;

    /// The length of a period; zero for the calendar lengths the clock does not handle.
    pub open spec fn length(self) -> int {
        match self.period_length {
            PeriodLength::Custom { length } => length as int,
            _ => 0,
        }
    }

    /// A schedule the clock can work with: fixed-length periods, at least one of them,
    /// and an end that a `u128` timestamp can hold.
    pub open spec fn wf(self) -> bool {
        &&& self.period_length is Custom
        &&& self.length() > 0
        &&& self.n_periods > 0
        &&& self.start + self.length() * self.n_periods <= u128::MAX
    }

    /// The first timestamp of period `period_id`.
    pub open spec fn start_of(self, period_id: int) -> int {
        self.start + self.length() * period_id
    }

    /// The last timestamp of period `period_id`.
    pub open spec fn end_of(self, period_id: int) -> int {
        self.start_of(period_id) + self.length() - 1
    }

    /// The phase at time `now`.
    pub open spec fn phase_at(self, now: int) -> SlaStatus {
        if now > self.end_of(self.n_periods - 1) {
            SlaStatus::Ended
        } else if now < self.start {
            SlaStatus::NotStarted
        } else {
            SlaStatus::Active { period_id: ((now - self.start) / self.length()) as u32 }
        }
    }

    /// return a new period generator object
    pub fn new(start: u128, period_length: PeriodLength, n_periods: u32) -> (r: Self)
        ensures
            r == (PeriodGenerator { start, period_length, n_periods }),
    {
        Self { start, period_length, n_periods }
    }

    /// Whether the schedule is one the clock can work with.
    pub fn is_well_formed(&self) -> (r: bool)
        ensures
            r == self.wf(),
    {
        match self.period_length {
            PeriodLength::Custom { length } => {
                if length == 0 || self.n_periods == 0 {
                    return false;
                }
                match length.checked_mul(self.n_periods as u128) {
                    None => false,
                    Some(total) => self.start.checked_add(total).is_some(),
                }
            },
            _ => false,
        }
    }

    /// Returns the start timestamp of a given period id
    pub fn get_start(&self, period_id: usize) -> (r: Result<u128, ErrorCode>)
        requires
            self.wf(),
        ensures
            period_id < self.n_periods ==> r == Ok::<u128, ErrorCode>(
                self.start_of(period_id as int) as u128,
            ),
            period_id >= self.n_periods ==> r == Err::<u128, ErrorCode>(
                ErrorCode::InvalidPeriodId,
            ),
            period_id < self.n_periods ==> 0 <= self.start_of(period_id as int) <= self.end_of(
                period_id as int,
            ) <= u128::MAX,
    {
        if period_id >= self.n_periods as usize {
            return Err(ErrorCode::InvalidPeriodId);
        }
        let length = match self.period_length {
            PeriodLength::Custom { length } => length,
            _ => 0,
        };
        proof {
            lemma_mul_le(self.length(), period_id as int, self.n_periods as int);
            lemma_mul_le(self.length(), period_id as int + 1, self.n_periods as int);
        }
        Ok(self.start + length * (period_id as u128))
    }

    /// Returns the end timestamp of a given period id
    pub fn get_end(&self, period_id: usize) -> (r: Result<u128, ErrorCode>)
        requires
            self.wf(),
        ensures
            period_id < self.n_periods ==> r == Ok::<u128, ErrorCode>(
                self.end_of(period_id as int) as u128,
            ),
            period_id >= self.n_periods ==> r == Err::<u128, ErrorCode>(
                ErrorCode::InvalidPeriodId,
            ),
            period_id < self.n_periods ==> 0 <= self.start_of(period_id as int) <= self.end_of(
                period_id as int,
            ) <= u128::MAX,
    {
        let start = match self.get_start(period_id) {
            Ok(start) => start,
            Err(e) => {
                return Err(e);
            },
        };
        let length = match self.period_length {
            PeriodLength::Custom { length } => length,
            _ => 0,
        };
        proof {
            lemma_mul_le(self.length(), period_id as int + 1, self.n_periods as int);
        }
        Ok(start + (length - 1))
    }

    /// Whether the period `period_id` has started at time `now`.
    pub fn has_started(&self, period_id: usize, now: u128) -> (r: Result<bool, ErrorCode>)
        requires
            self.wf(),
        ensures
            period_id < self.n_periods ==> r == Ok::<bool, ErrorCode>(
                now >= self.start_of(period_id as int),
            ),
            period_id >= self.n_periods ==> r == Err::<bool, ErrorCode>(
                ErrorCode::InvalidPeriodId,
            ),
    {
        match self.get_start(period_id) {
            Ok(start) => Ok(now >= start),
            Err(e) => Err(e),
        }
    }

    /// Whether the period `period_id` is over at time `now`.
    pub fn has_finished(&self, period_id: usize, now: u128) -> (r: Result<bool, ErrorCode>)
        requires
            self.wf(),
        ensures
            period_id < self.n_periods ==> r == Ok::<bool, ErrorCode>(
                now > self.end_of(period_id as int),
            ),
            period_id >= self.n_periods ==> r == Err::<bool, ErrorCode>(
                ErrorCode::InvalidPeriodId,
            ),
    {
        match self.get_end(period_id) {
            Ok(end) => Ok(now > end),
            Err(e) => Err(e),
        }
    }

    /// The phase of the agreement at time `now`, with the current period id while active.
    pub fn get_current_period_id(&self, now: u128) -> (r: SlaStatus)
        requires
            self.wf(),
        ensures
            r == self.phase_at(now as int),
            r matches SlaStatus::Active { period_id } ==> period_id < self.n_periods,
    {
        let length = match self.period_length {
            PeriodLength::Custom { length } => length,
            _ => 0,
        };
        proof {
            lemma_mul_le(self.length(), self.n_periods as int, self.n_periods as int);
        }
        let last_end = self.start + length * (self.n_periods as u128) - 1;
        if now > last_end {
            SlaStatus::Ended
        } else if now < self.start {
            SlaStatus::NotStarted
        } else {
            let id = (now - self.start) / length;
            proof {
                lemma_div_below(
                    (now - self.start) as int,
                    length as int,
                    self.n_periods as int,
                );
            }
            SlaStatus::Active { period_id: id as u32 }
        }
    }
}

proof fn lemma_mul_le(a: int, b: int, c: int)
    requires
        a >= 0,
        0 <= b <= c,
    ensures
        0 <= a * b <= a * c,
        a * (b + 1) == a * b + a,
        a * (b - 1) == a * b - a,
        a >= 1 && b >= 1 ==> a * b >= 1,
{
    assert(0 <= a * b <= a * c) by (nonlinear_arith)
        requires
            a >= 0,
            0 <= b <= c,
    ;
    assert(a * (b + 1) == a * b + a) by (nonlinear_arith);
    assert(a * (b - 1) == a * b - a) by (nonlinear_arith);
    assert(a >= 1 && b >= 1 ==> a * b >= 1) by (nonlinear_arith);
}

proof fn lemma_div_below(x: int, d: int, n: int)
    requires
        0 <= x < d * n,
        d > 0,
    ensures
        0 <= x / d < n,
{
    assert(0 <= x / d < n) by (nonlinear_arith)
        requires
            0 <= x < d * n,
            d > 0,
    ;
}

} // verus!
