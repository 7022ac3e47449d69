use vstd::prelude::*;

use crate::decimal::{aligned, DecimalValue, DslaDecimal};
use crate::deviation::{
    comparator_applies, comparator_holds, deviation, deviation_cap, deviation_outcome,
    is_equality, lemma_deviation_bounded, precision_ok, SloType,
};
use crate::errors::ErrorCode;
use crate::period::PeriodGenerator;

verus! {

/// The side of a stake: providers bet that the objective holds, users that it breaks.
#[derive(Debug, PartialEq, Eq, Copy, Clone, Structural)]
pub enum Side {
    Provider,
    User,
}

/// `Slo` is the service level objective: the expected value and how a measurement is
/// compared with it.
#[derive(Debug, Clone, Copy, PartialEq, Eq, Structural)]
pub struct Slo {
    pub slo_value: DslaDecimal,
    pub slo_type: SloType,
}

/// Whether the measurement `sli` meets the objective, both compared at a common scale.
pub open spec fn respected(slo: Slo, sli: DecimalValue) -> bool {
    comparator_holds(slo.slo_type, aligned(sli, slo.slo_value@).0, aligned(sli, slo.slo_value@).1)
}

/// What `get_deviation` returns for a fixed-point measurement: the precision is checked
/// first, equality objectives get their flat 1%, a negative value at the common scale is
/// refused, and the rest is the integer deviation of the two aligned mantissas.
pub open spec fn decimal_deviation_outcome(slo: Slo, sli: DecimalValue, precision: int) -> Result<
    u128,
    ErrorCode,
> {
    let a = aligned(sli, slo.slo_value@);
    if !precision_ok(precision) {
        Err(ErrorCode::InvalidPrecision)
    } else if is_equality(slo.slo_type) {
        Ok((precision / 100) as u128)
    } else if a.0 < 0 || a.1 < 0 {
        Err(ErrorCode::DecimalConversionError)
    } else {
        deviation_outcome(slo.slo_type, a.1, a.0, precision)
    }
}

/// A deviation of a fixed-point measurement is never negative and never above the cap;
/// the equality comparators get exactly one hundredth of the precision.
pub proof fn lemma_decimal_deviation_bounded(slo: Slo, sli: DecimalValue, precision: u128, d: u128)
    requires
        decimal_deviation_outcome(slo, sli, precision as int) == Ok::<u128, ErrorCode>(d),
    ensures
        precision_ok(precision as int),
        is_equality(slo.slo_type) ==> d == precision / 100,
        !is_equality(slo.slo_type) ==> 0 <= d <= deviation_cap(precision as int),
{
    if !is_equality(slo.slo_type) {
        let a = aligned(sli, slo.slo_value@);
        lemma_deviation_bounded(slo.slo_type, a.1, a.0, precision, d);
    }
}

impl Slo {
    pub fn is_respected(&self, sli: DslaDecimal) -> (r: Result<bool, ErrorCode>)
        ensures
            r == Ok::<bool, ErrorCode>(respected(*self, sli@)),
    {
        let (a, b) = sli.align(&self.slo_value);
        Ok(comparator_applies(self.slo_type, a, b))
    }
}

/// The deviation between the objective and the measurement `sli`, in units of
/// `precision` (a positive multiple of 100): the relative distance
/// `|sli - slo| / ((sli + slo) / 2)` capped at 25%, or a flat 1% for equality objectives.
pub fn get_deviation(slo: &Slo, sli: &DslaDecimal, precision: u128) -> (r: Result<
    u128,
    ErrorCode,
>)
    ensures
        r == decimal_deviation_outcome(*slo, sli@, precision as int),
{
    if precision == 0 || precision % 100 != 0 {
        return Err(ErrorCode::InvalidPrecision);
    }
    match slo.slo_type {
        SloType::EqualTo | SloType::NotEqualTo => {
            return Ok(precision / 100);
        },
        _ => {},
    }
    let (a, b) = sli.align(&slo.slo_value);
    if a < 0 || b < 0 {
        return Err(ErrorCode::DecimalConversionError);
    }
    deviation(slo.slo_type, b as u128, a as u128, precision)
}

/// Whether the provider pool covers the leveraged user pool: `provider >= leverage * user`.
pub open spec fn collateralized(leverage: DecimalValue, provider: int, user: int) -> bool {
    leverage.mantissa * user <= provider * crate::decimal::pow10(leverage.scale)
}

/// `Sla` is the service level agreement: its objective, schedule, leverage, and the two
/// pools with the claim tokens issued against them.
#[derive(Debug, Clone, Copy)]
pub struct Sla {
    /// address of who deployed the SLA
    pub sla_deployer_address: [u8; 32],
    /// address of the feed the measurements come from
    pub aggregator_address: [u8; 32],
    /// service level objective, the objective to achieve for the provider to be rewarded
    pub slo: Slo,
    /// leverage for the SLA between provider and user pool
    pub leverage: DslaDecimal,
    /// address of the coin to be used as SLA reward for users and providers
    pub mint_address: [u8; 32],
    /// all the data regarding periods
    pub period_data: PeriodGenerator,
    /// amount of tokens in Provider pool
    pub provider_pool_size: u128,
    /// amount of tokens in User pool
    pub user_pool_size: u128,
    /// total user token supply
    pub ut_supply: u128,
    /// total provider token supply
    pub pt_supply: u128,
}

impl Sla {
    /// An agreement the engine can run: a usable schedule and a non-negative leverage.
    pub open spec fn wf(self) -> bool {
        self.period_data.wf() && self.leverage@.mantissa >= 0
    }

    /// The collateralization invariant: `provider_pool_size >= leverage * user_pool_size`.
    pub open spec fn is_collateralized(self) -> bool {
        collateralized(self.leverage@, self.provider_pool_size as int, self.user_pool_size as int)
    }

    /// The pool of `side`.
    pub open spec fn pool(self, side: Side) -> u128 {
        match side {
            Side::Provider => self.provider_pool_size,
            Side::User => self.user_pool_size,
        }
    }

    /// The claim tokens issued on `side`.
    pub open spec fn supply(self, side: Side) -> u128 {
        match side {
            Side::Provider => self.pt_supply,
            Side::User => self.ut_supply,
        }
    }

    /// The agreement with the pool and supply of `side` replaced.
    pub open spec fn with_side(self, side: Side, pool: int, supply: int) -> Sla {
        match side {
            Side::Provider => Sla {
                provider_pool_size: pool as u128,
                pt_supply: supply as u128,
                ..self
            },
            Side::User => Sla { user_pool_size: pool as u128, ut_supply: supply as u128, ..self },
        }
    }

    /// The agreement `new` builds.
    pub open spec fn new_spec(
        sla_deployer_address: [u8; 32],
        aggregator_address: [u8; 32],
        mint_address: [u8; 32],
        slo: Slo,
        leverage: DslaDecimal,
        period_data: PeriodGenerator,
    ) -> Sla {
        Sla {
            sla_deployer_address,
            aggregator_address,
            slo,
            leverage,
            mint_address,
            period_data,
            provider_pool_size: 0,
            user_pool_size: 0,
            ut_supply: 0,
            pt_supply: 0,
        }
    }

    /// A new agreement with empty pools and no claim tokens issued.
    pub fn new(
        sla_deployer_address: [u8; 32],
        aggregator_address: [u8; 32],
        mint_address: [u8; 32],
        slo: Slo,
        leverage: DslaDecimal,
        period_data: PeriodGenerator,
    ) -> (r: Sla)
        requires
            period_data.wf(),
            leverage@.mantissa >= 0,
        ensures
            r.wf(),
            r.is_collateralized(),
            r == Sla::new_spec(
                sla_deployer_address,
                aggregator_address,
                mint_address,
                slo,
                leverage,
                period_data,
            ),
    {
        Sla {
            sla_deployer_address,
            aggregator_address,
            slo,
            leverage,
            mint_address,
            period_data,
            provider_pool_size: 0,
            user_pool_size: 0,
            ut_supply: 0,
            pt_supply: 0,
        }
    }

    /// The deviation between this agreement's objective and the measurement `sli`, in
    /// units of `precision`.
    pub fn get_deviation(&self, sli: &DslaDecimal, precision: u128) -> (r: Result<
        u128,
        ErrorCode,
    >)
        ensures
            r == decimal_deviation_outcome(self.slo, sli@, precision as int),
    {
        get_deviation(&self.slo, sli, precision)
    }
}

/// The protocol-wide parameters, read by the engine and owned elsewhere.
#[derive(Debug, Clone, Copy)]
pub struct Governance {
    /// amount of dsla to be deposited by the sla_deployer to deploy the sla for each period
    pub dsla_deposit_by_period: u64,
    /// amount of dsla deposit by period to be given to the platform
    pub dsla_protocol_reward: u64,
    /// amount of dsla deposit by period to be given to the validator
    pub dsla_validator_reward: u64,
    /// amount of dsla deposit by period to be burned
    pub dsla_burned_by_verification: u64,
    /// share of a withdrawal paid to the deployer of the SLA
    pub sla_deployer_rewards_rate: DslaDecimal,
    /// share of a withdrawal paid to the protocol
    pub protocol_rewards_rate: DslaDecimal,
    /// max leverage allowed in a DSLA
    pub max_leverage: DslaDecimal,
}

impl Governance {
    /// The deposit per period is exactly what a validation pays out and burns.
    pub open spec fn deposit_adds_up(self) -> bool {
        self.dsla_deposit_by_period == self.dsla_burned_by_verification
            + self.dsla_validator_reward + self.dsla_protocol_reward
    }

    /// Builds the parameters, refusing them unless the deposit per period equals the sum
    /// of what is burned, paid to the validator and paid to the protocol.
    pub fn new(
        dsla_deposit_by_period: u64,
        dsla_protocol_reward: u64,
        dsla_validator_reward: u64,
        dsla_burned_by_verification: u64,
        sla_deployer_rewards_rate: DslaDecimal,
        protocol_rewards_rate: DslaDecimal,
        max_leverage: DslaDecimal,
    ) -> (r: Result<Governance, ErrorCode>)
        ensures
            dsla_deposit_by_period == dsla_burned_by_verification + dsla_validator_reward
                + dsla_protocol_reward ==> r == Ok::<Governance, ErrorCode>(
                Governance {
                    dsla_deposit_by_period,
                    dsla_protocol_reward,
                    dsla_validator_reward,
                    dsla_burned_by_verification,
                    sla_deployer_rewards_rate,
                    protocol_rewards_rate,
                    max_leverage,
                },
            ),
            dsla_deposit_by_period != dsla_burned_by_verification + dsla_validator_reward
                + dsla_protocol_reward ==> r == Err::<Governance, ErrorCode>(
                ErrorCode::NonValidGovernanceParameters,
            ),
    {
        let total = (dsla_burned_by_verification as u128) + (dsla_validator_reward as u128)
            + (dsla_protocol_reward as u128);
        if dsla_deposit_by_period as u128 != total {
            return Err(ErrorCode::NonValidGovernanceParameters);
        }
        Ok(
            Governance {
                dsla_deposit_by_period,
                dsla_protocol_reward,
                dsla_validator_reward,
                dsla_burned_by_verification,
                sla_deployer_rewards_rate,
                protocol_rewards_rate,
                max_leverage,
            },
        )
    }
}

} // verus!
