use vstd::prelude::*;

use crate::decimal::{aligned, pow10, DecimalValue, DslaDecimal};
use crate::address::same_address;
use crate::errors::ErrorCode;
use crate::period::SlaStatus;
use crate::sla::{collateralized, decimal_deviation_outcome, respected, Governance, Sla};
use crate::status_registry::{registry_step, Status, StatusRegistry};

verus! {

/// Deviations in validation are computed in hundredths of a percent.
pub const DEVIATION_PRECISION: u128 = 10000;

/// One reading of the feed an agreement is measured by.
#[derive(Debug, Clone, Copy)]
pub struct FeedReading {
    /// address of the feed the reading comes from
    pub source: [u8; 32],
    /// the measured value
    pub value: DslaDecimal,
    /// when the value was observed
    pub observed_at: u128,
    /// the spread the feed reports around the value
    pub confidence_interval: DslaDecimal,
}

/// Which elapsed periods may be validated.
#[derive(Debug, Clone, Copy, PartialEq, Eq, Structural)]
pub enum ValidationOrder {
    /// any period that has elapsed, in any order
    AnyElapsed,
    /// only once every earlier period is validated
    Sequential,
}

/// The order periods are validated in, and how old and how uncertain a reading may be.
#[derive(Debug, Clone, Copy)]
pub struct ValidationPolicy {
    /// which elapsed periods may be validated
    pub order: ValidationOrder,
    /// the largest age of a reading, in the clock's units
    pub max_staleness: u128,
    /// the widest confidence interval accepted
    pub max_confidence_interval: DslaDecimal,
}

/// Some period before `period_id` is still unverified.
pub open spec fn earlier_unverified(registry: Seq<Status>, period_id: int) -> bool {
    exists|j: int| 0 <= j < period_id && #[trigger] registry[j] is NotVerified
}

/// What a validation decided, and what the host has to pay out of the fee pool.
#[derive(Debug, Clone, Copy, PartialEq, Eq, Structural)]
pub struct ValidationOutcome {
    /// whether the period met the objective
    pub respected: bool,
    /// tokens moved from the losing pool to the winning pool
    pub reward: u128,
    /// fee-pool tokens paid to the validator
    pub validator_reward: u64,
    /// fee-pool tokens paid to the protocol
    pub protocol_reward: u64,
    /// fee-pool tokens burned
    pub burned: u64,
}

/// `a > b`, compared at a common scale.
pub open spec fn decimal_gt(a: DecimalValue, b: DecimalValue) -> bool {
    aligned(a, b).0 > aligned(a, b).1
}

/// The pool the reward of a period is drawn against: the provider pool when the objective
/// held, the user pool when it broke, spread over the periods left.
pub open spec fn reward_base(sla: Sla, period_id: int, respected: bool) -> int {
    let base = if respected {
        sla.provider_pool_size as int
    } else {
        sla.user_pool_size as int
    };
    base / (sla.period_data.n_periods - period_id)
}

/// The agreement after a validation moved `reward` tokens: from the user pool to the
/// provider pool when the objective held, the other way when it broke.
pub open spec fn sla_after_validation(sla: Sla, respected: bool, reward: int) -> Sla {
    if respected {
        Sla {
            provider_pool_size: (sla.provider_pool_size + reward) as u128,
            user_pool_size: (sla.user_pool_size - reward) as u128,
            ..sla
        }
    } else {
        Sla {
            provider_pool_size: (sla.provider_pool_size - reward) as u128,
            user_pool_size: (sla.user_pool_size + reward) as u128,
            ..sla
        }
    }
}

/// The status a validation records for a measurement.
pub open spec fn status_for(respected: bool, value: DslaDecimal) -> Status {
    if respected {
        Status::Respected { value }
    } else {
        Status::NotRespected { value }
    }
}

/// What `validate_period` returns: the outcome, or the first check that fails.
pub open spec fn validate_outcome(
    sla: Sla,
    registry: Seq<Status>,
    period_id: int,
    now: int,
    reading: FeedReading,
    policy: ValidationPolicy,
    governance: Governance,
) -> Result<ValidationOutcome, ErrorCode> {
    let status = sla.period_data.phase_at(now);
    let held = respected(sla.slo, reading.value@);
    let dev = decimal_deviation_outcome(sla.slo, reading.value@, DEVIATION_PRECISION as int);
    let base = reward_base(sla, period_id, held);
    let reward = base * dev->Ok_0 / DEVIATION_PRECISION as int;
    if period_id >= sla.period_data.n_periods {
        Err(ErrorCode::InvalidPeriodId)
    } else if !(registry[period_id] is NotVerified) {
        Err(ErrorCode::AlreadyVerifiedPeriod)
    } else if status is NotStarted {
        Err(ErrorCode::SlaNotStarted)
    } else if status matches SlaStatus::Active { period_id: current } && current <= period_id {
        Err(ErrorCode::PeriodNotElapsed)
    } else if policy.order is Sequential && earlier_unverified(registry, period_id) {
        Err(ErrorCode::PeriodOutOfOrder)
    } else if reading.source@ != sla.aggregator_address@ {
        Err(ErrorCode::InvalidFeedSource)
    } else if reading.observed_at + policy.max_staleness < now {
        Err(ErrorCode::StaleFeed)
    } else if decimal_gt(reading.confidence_interval@, policy.max_confidence_interval@) {
        Err(ErrorCode::ConfidenceIntervalExceeded)
    } else if dev is Err {
        Err(dev->Err_0)
    } else if base * dev->Ok_0 > u128::MAX {
        Err(ErrorCode::CheckedOperationOverflow)
    } else if held && (reward > sla.user_pool_size || sla.provider_pool_size + reward
        > u128::MAX) {
        Err(ErrorCode::CheckedOperationOverflow)
    } else if !held && (reward > sla.provider_pool_size || sla.user_pool_size + reward
        > u128::MAX || sla.leverage@.mantissa * (sla.user_pool_size + reward) > u128::MAX) {
        Err(ErrorCode::CheckedOperationOverflow)
    } else if !held && !collateralized(
        sla.leverage@,
        sla.provider_pool_size - reward,
        sla.user_pool_size + reward,
    ) {
        Err(ErrorCode::InsufficientCollateral)
    } else {
        Ok(
            ValidationOutcome {
                respected: held,
                reward: reward as u128,
                validator_reward: governance.dsla_validator_reward,
                protocol_reward: governance.dsla_protocol_reward,
                burned: governance.dsla_burned_by_verification,
            },
        )
    }
}

/// A period whose status is terminal is never validated again.
pub proof fn lemma_verified_period_is_refused(
    sla: Sla,
    registry: Seq<Status>,
    period_id: int,
    now: int,
    reading: FeedReading,
    policy: ValidationPolicy,
    governance: Governance,
)
    requires
        0 <= period_id < sla.period_data.n_periods,
        !(registry[period_id] is NotVerified),
    ensures
        validate_outcome(sla, registry, period_id, now, reading, policy, governance) == Err::<
            ValidationOutcome,
            ErrorCode,
        >(ErrorCode::AlreadyVerifiedPeriod),
{
}

/// A successful validation leaves the provider pool covering the leveraged user pool,
/// given that it did before.
pub proof fn lemma_validation_keeps_collateral(
    sla: Sla,
    registry: Seq<Status>,
    period_id: int,
    now: int,
    reading: FeedReading,
    policy: ValidationPolicy,
    governance: Governance,
    outcome: ValidationOutcome,
)
    requires
        sla.wf(),
        sla.is_collateralized(),
        validate_outcome(sla, registry, period_id, now, reading, policy, governance) == Ok::<
            ValidationOutcome,
            ErrorCode,
        >(outcome),
    ensures
        sla_after_validation(sla, outcome.respected, outcome.reward as int).is_collateralized(),
{
    let after = sla_after_validation(sla, outcome.respected, outcome.reward as int);
    let m = sla.leverage@.mantissa;
    let p = pow10(sla.leverage@.scale) as int;
    if outcome.respected {
        lemma_products_ordered(
            m,
            after.user_pool_size as int,
            sla.user_pool_size as int,
            p,
            sla.provider_pool_size as int,
            after.provider_pool_size as int,
        );
    }
}

proof fn lemma_products_ordered(m: int, u1: int, u0: int, p: int, v0: int, v1: int)
    requires
        m >= 0,
        p >= 0,
        u1 <= u0,
        v0 <= v1,
        m * u0 <= v0 * p,
    ensures
        m * u1 <= v1 * p,
{
    assert(m * u1 <= m * u0) by (nonlinear_arith)
        requires
            m >= 0,
            u1 <= u0,
    ;
    assert(v0 * p <= v1 * p) by (nonlinear_arith)
        requires
            p >= 0,
            v0 <= v1,
    ;
}

fn has_earlier_unverified(registry: &Vec<Status>, period_id: usize) -> (r: bool)
    requires
        period_id <= registry@.len(),
    ensures
        r == earlier_unverified(registry@, period_id as int),
{
    let mut j: usize = 0;
    while j < period_id
        invariant
            j <= period_id <= registry@.len(),
            forall|k: int| 0 <= k < j ==> !(#[trigger] registry@[k] is NotVerified),
        decreases period_id - j,
    {
        if let Status::NotVerified = registry[j] {
            return true;
        }
        j = j + 1;
    }
    false
}

impl Sla {
    /// Validates period `period_id` at time `now` against a feed reading: records whether
    /// the objective held and moves the deviation-weighted reward from the losing pool to
    /// the winning pool. A breach may not leave the provider pool short of the leveraged
    /// user pool. Either everything is applied or nothing is.
    pub fn validate_period(
        &mut self,
        registry: &mut StatusRegistry,
        period_id: usize,
        now: u128,
        reading: &FeedReading,
        policy: &ValidationPolicy,
        governance: &Governance,
    ) -> (r: Result<ValidationOutcome, ErrorCode>)
        requires
            old(self).wf(),
            old(registry).status_registry@.len() == old(self).period_data.n_periods,
        ensures
            final(self).wf(),
            final(registry).status_registry@.len() == final(self).period_data.n_periods,
            r == validate_outcome(
                *old(self),
                old(registry).status_registry@,
                period_id as int,
                now as int,
                *reading,
                *policy,
                *governance,
            ),
            r matches Ok(o) ==> *final(self) == sla_after_validation(
                *old(self),
                o.respected,
                o.reward as int,
            ) && final(registry).status_registry@ == old(registry).status_registry@.update(
                period_id as int,
                status_for(o.respected, reading.value),
            ),
            r is Err ==> *final(self) == *old(self) && final(registry).status_registry@ == old(
                registry,
            ).status_registry@,
            registry_step(old(registry).status_registry@, final(registry).status_registry@),
    {
        if period_id >= self.period_data.n_periods as usize {
            return Err(ErrorCode::InvalidPeriodId);
        }
        match registry.status_registry[period_id] {
            Status::NotVerified => {},
            _ => {
                return Err(ErrorCode::AlreadyVerifiedPeriod);
            },
        }
        match self.period_data.get_current_period_id(now) {
            SlaStatus::NotStarted => {
                return Err(ErrorCode::SlaNotStarted);
            },
            SlaStatus::Active { period_id: current } => {
                if current as usize <= period_id {
                    return Err(ErrorCode::PeriodNotElapsed);
                }
            },
            SlaStatus::Ended => {},
        }
        if let ValidationOrder::Sequential = policy.order {
            if has_earlier_unverified(&registry.status_registry, period_id) {
                return Err(ErrorCode::PeriodOutOfOrder);
            }
        }
        if !same_address(&reading.source, &self.aggregator_address) {
            return Err(ErrorCode::InvalidFeedSource);
        }
        if let Some(fresh_until) = reading.observed_at.checked_add(policy.max_staleness) {
            if fresh_until < now {
                return Err(ErrorCode::StaleFeed);
            }
        }
        let (confidence, max_confidence) = reading.confidence_interval.align(
            &policy.max_confidence_interval,
        );
        if confidence > max_confidence {
            return Err(ErrorCode::ConfidenceIntervalExceeded);
        }
        let held = match self.slo.is_respected(reading.value) {
            Ok(b) => b,
            Err(e) => {
                return Err(e);
            },
        };
        let dev = match self.get_deviation(&reading.value, DEVIATION_PRECISION) {
            Ok(d) => d,
            Err(e) => {
                return Err(e);
            },
        };
        let periods_left = (self.period_data.n_periods as u128) - (period_id as u128);
        let base = if held {
            self.provider_pool_size / periods_left
        } else {
            self.user_pool_size / periods_left
        };
        let reward = match base.checked_mul(dev) {
            Some(x) => x / DEVIATION_PRECISION,
            None => {
                return Err(ErrorCode::CheckedOperationOverflow);
            },
        };
        let (provider_after, user_after) = if held {
            if reward > self.user_pool_size {
                return Err(ErrorCode::CheckedOperationOverflow);
            }
            match self.provider_pool_size.checked_add(reward) {
                Some(p) => (p, self.user_pool_size - reward),
                None => {
                    return Err(ErrorCode::CheckedOperationOverflow);
                },
            }
        } else {
            if reward > self.provider_pool_size {
                return Err(ErrorCode::CheckedOperationOverflow);
            }
            let user_after = match self.user_pool_size.checked_add(reward) {
                Some(u) => u,
                None => {
                    return Err(ErrorCode::CheckedOperationOverflow);
                },
            };
            let provider_after = self.provider_pool_size - reward;
            match self.leverage.covered_by(user_after, provider_after) {
                Err(e) => {
                    return Err(e);
                },
                Ok(false) => {
                    return Err(ErrorCode::InsufficientCollateral);
                },
                Ok(true) => {},
            }
            (provider_after, user_after)
        };
        let entry = if held {
            Status::Respected { value: reading.value }
        } else {
            Status::NotRespected { value: reading.value }
        };
        registry.status_registry.set(period_id, entry);
        self.provider_pool_size = provider_after;
        self.user_pool_size = user_after;
        Ok(
            ValidationOutcome {
                respected: held,
                reward,
                validator_reward: governance.dsla_validator_reward,
                protocol_reward: governance.dsla_protocol_reward,
                burned: governance.dsla_burned_by_verification,
            },
        )
    }
}

} // verus!
