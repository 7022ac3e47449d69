use vstd::prelude::*;

use crate::decimal::{scaled_floor, DslaDecimal};
use crate::errors::ErrorCode;
use crate::lockup::{advanced, fits, staked, Lockup, LockupState};
use crate::period::SlaStatus;
use crate::sla::{collateralized, Governance, Side, Sla};

verus! {

/// Claim tokens minted for `amount`: one for one while pool and supply are equal (which
/// covers the empty pool), otherwise `floor(amount / (pool / supply))`.
pub open spec fn shares_for(pool: int, supply: int, amount: int) -> int {
    if pool == supply {
        amount
    } else {
        amount * supply / pool
    }
}

/// Tokens owed for burning `burn` claim tokens: `floor(burn / (pool / supply))`.
pub open spec fn tokens_owed(pool: int, supply: int, burn: int) -> int {
    burn * supply / pool
}

/// What `stake` returns: the claim tokens minted, or the first check that fails.
pub open spec fn stake_outcome(
    sla: Sla,
    side: Side,
    amount: u64,
    status: SlaStatus,
    lockup: LockupState,
) -> Result<u64, ErrorCode> {
    let pool = sla.pool(side) as int;
    let supply = sla.supply(side) as int;
    let shares = shares_for(pool, supply, amount as int);
    let exposure = sla.user_pool_size + amount;
    if status is Ended {
        Err(ErrorCode::CannotStakeAfterSlaEnded)
    } else if pool != supply && (pool == 0 || supply == 0) {
        Err(ErrorCode::DivisionByZero)
    } else if pool != supply && amount * supply > u128::MAX {
        Err(ErrorCode::CheckedOperationOverflow)
    } else if shares > u64::MAX {
        Err(ErrorCode::CheckedOperationOverflow)
    } else if side is User && exposure > u128::MAX {
        Err(ErrorCode::CheckedOperationOverflow)
    } else if side is User && sla.leverage@.mantissa * exposure > u128::MAX {
        Err(ErrorCode::CheckedOperationOverflow)
    } else if side is User && !collateralized(
        sla.leverage@,
        sla.provider_pool_size as int,
        exposure,
    ) {
        Err(ErrorCode::InsufficientCollateral)
    } else if pool + amount > u128::MAX || supply + shares > u128::MAX {
        Err(ErrorCode::CheckedOperationOverflow)
    } else if !fits(staked(lockup, shares as nat, status)) {
        Err(ErrorCode::CheckedOperationOverflow)
    } else {
        Ok(shares as u64)
    }
}

/// The amounts a withdrawal pays out of the pool.
#[derive(Debug, Clone, Copy, PartialEq, Eq, Structural)]
pub struct WithdrawPayout {
    /// paid to the staker who burned the claim tokens
    pub staker_amount: u64,
    /// paid to the deployer of the agreement
    pub deployer_amount: u64,
    /// paid to the protocol
    pub protocol_amount: u64,
}

/// The provider pool and the user pool a withdrawal of `owed` tokens leaves behind.
pub open spec fn pools_after_withdraw(sla: Sla, side: Side, owed: int) -> (int, int) {
    match side {
        Side::Provider => (sla.provider_pool_size - owed, sla.user_pool_size as int),
        Side::User => (sla.provider_pool_size as int, sla.user_pool_size - owed),
    }
}

/// What `withdraw` returns: the payout, or the first check that fails. The lockup is
/// brought up to date first; outside the end phase the pools left behind must stay
/// collateralized; the fees are the governance rates applied to the tokens owed.
pub open spec fn withdraw_outcome(
    sla: Sla,
    governance: Governance,
    side: Side,
    burn: u64,
    status: SlaStatus,
    lockup: LockupState,
) -> Result<WithdrawPayout, ErrorCode> {
    let lk = advanced(lockup, status);
    let pool = sla.pool(side) as int;
    let supply = sla.supply(side) as int;
    let owed = tokens_owed(pool, supply, burn as int);
    let after = pools_after_withdraw(sla, side, owed);
    let deployer_rate = governance.sla_deployer_rewards_rate@;
    let protocol_rate = governance.protocol_rewards_rate@;
    let deployer = scaled_floor(deployer_rate, owed);
    let protocol = scaled_floor(protocol_rate, owed);
    if !fits(lk) {
        Err(ErrorCode::CheckedOperationOverflow)
    } else if pool == 0 || supply == 0 {
        Err(ErrorCode::DivisionByZero)
    } else if burn * supply > u128::MAX {
        Err(ErrorCode::CheckedOperationOverflow)
    } else if owed > pool {
        Err(ErrorCode::InsufficientCollateral)
    } else if !(status is Ended) && sla.leverage@.mantissa * after.1 > u128::MAX {
        Err(ErrorCode::CheckedOperationOverflow)
    } else if !(status is Ended) && !collateralized(sla.leverage@, after.0, after.1) {
        Err(ErrorCode::InsufficientCollateral)
    } else if burn == 0 {
        Err(ErrorCode::WithdrawalIsZero)
    } else if burn > lk.available {
        Err(ErrorCode::NoAvailableTokensForWithdrawal)
    } else if burn > supply || owed > u64::MAX {
        Err(ErrorCode::CheckedOperationOverflow)
    } else if deployer_rate.mantissa < 0 || protocol_rate.mantissa < 0 {
        Err(ErrorCode::NonValidGovernanceParameters)
    } else if deployer_rate.mantissa * owed > u128::MAX || protocol_rate.mantissa * owed
        > u128::MAX {
        Err(ErrorCode::CheckedOperationOverflow)
    } else if deployer + protocol > owed {
        Err(ErrorCode::NonValidGovernanceParameters)
    } else {
        Ok(
            WithdrawPayout {
                staker_amount: (owed - deployer - protocol) as u64,
                deployer_amount: deployer as u64,
                protocol_amount: protocol as u64,
            },
        )
    }
}

/// Staking keeps the value of a claim token, up to the rounding of the minted amount:
/// on the one-for-one path pool and supply stay equal; otherwise the value per claim token
/// does not drop, and one more minted token would have dropped it.
pub proof fn lemma_stake_keeps_share_value(
    sla: Sla,
    side: Side,
    amount: u64,
    status: SlaStatus,
    lockup: LockupState,
    shares: u64,
)
    requires
        stake_outcome(sla, side, amount, status, lockup) == Ok::<u64, ErrorCode>(shares),
    ensures
        ({
            let pool = sla.pool(side) as int;
            let supply = sla.supply(side) as int;
            let pool_after = pool + amount;
            let supply_after = supply + shares;
            &&& pool == supply ==> pool_after == supply_after
            &&& pool != supply ==> pool_after * supply >= pool * supply_after
            &&& pool != supply ==> pool_after * supply < pool * (supply_after + 1)
        }),
{
    let pool = sla.pool(side) as int;
    let supply = sla.supply(side) as int;
    if pool != supply {
        let x = amount * supply;
        lemma_floor_div_bounds(x, pool);
        assert((pool + amount) * supply == pool * supply + x) by (nonlinear_arith)
            requires
                x == amount * supply,
        ;
        assert(pool * (supply + shares) == pool * supply + (x / pool) * pool) by (nonlinear_arith)
            requires
                shares == x / pool,
        ;
        assert(pool * (supply + shares + 1) == pool * supply + (x / pool + 1) * pool)
            by (nonlinear_arith)
            requires
                shares == x / pool,
        ;
    }
}

/// A successful stake leaves the provider pool covering the leveraged user pool, given
/// that it did before.
pub proof fn lemma_stake_keeps_collateral(
    sla: Sla,
    side: Side,
    amount: u64,
    status: SlaStatus,
    lockup: LockupState,
    shares: u64,
)
    requires
        sla.wf(),
        sla.is_collateralized(),
        stake_outcome(sla, side, amount, status, lockup) == Ok::<u64, ErrorCode>(shares),
    ensures
        sla.with_side(side, sla.pool(side) + amount, sla.supply(side) + shares).is_collateralized(),
{
    let after = sla.with_side(side, sla.pool(side) + amount, sla.supply(side) + shares);
    if side is Provider {
        lemma_mul_nonneg_le(
            crate::decimal::pow10(sla.leverage@.scale) as int,
            sla.provider_pool_size as int,
            after.provider_pool_size as int,
        );
    }
}

/// Outside the end phase a successful withdrawal leaves the provider pool covering the
/// leveraged user pool.
pub proof fn lemma_withdraw_keeps_collateral(
    sla: Sla,
    governance: Governance,
    side: Side,
    burn: u64,
    status: SlaStatus,
    lockup: LockupState,
    payout: WithdrawPayout,
)
    requires
        !(status is Ended),
        withdraw_outcome(sla, governance, side, burn, status, lockup) == Ok::<
            WithdrawPayout,
            ErrorCode,
        >(payout),
    ensures
        sla.with_side(
            side,
            sla.pool(side) - tokens_owed(sla.pool(side) as int, sla.supply(side) as int, burn as int),
            sla.supply(side) - burn,
        ).is_collateralized(),
{
}

proof fn lemma_floor_div_bounds(x: int, d: int)
    requires
        x >= 0,
        d > 0,
    ensures
        (x / d) * d <= x < (x / d + 1) * d,
{
    assert((x / d) * d <= x < (x / d + 1) * d) by (nonlinear_arith)
        requires
            x >= 0,
            d > 0,
    ;
}

proof fn lemma_mul_nonneg_le(k: int, a: int, b: int)
    requires
        k >= 0,
        a <= b,
    ensures
        a * k <= b * k,
{
    assert(a * k <= b * k) by (nonlinear_arith)
        requires
            k >= 0,
            a <= b,
    ;
}

impl Sla {
    /// Stakes `amount` tokens on `side` at time `now`: mints claim tokens in proportion
    /// to the pool, grows the pool and the supply, and records the new claim tokens in
    /// the staker's lockup. A user stake must stay covered by the provider pool. Either
    /// everything is applied or nothing is.
    pub fn stake(&mut self, lockup: &mut Lockup, side: Side, amount: u64, now: u128) -> (r: Result<
        u64,
        ErrorCode,
    >)
        requires
            old(self).wf(),
        ensures
            final(self).wf(),
            r == stake_outcome(
                *old(self),
                side,
                amount,
                old(self).period_data.phase_at(now as int),
                old(lockup)@,
            ),
            r matches Ok(shares) ==> *final(self) == old(self).with_side(
                side,
                old(self).pool(side) + amount,
                old(self).supply(side) + shares,
            ) && final(lockup)@ == staked(
                old(lockup)@,
                shares as nat,
                old(self).period_data.phase_at(now as int),
            ),
            r is Err ==> *final(self) == *old(self) && final(lockup)@ == old(lockup)@,
    {
        let status = self.period_data.get_current_period_id(now);
        if let SlaStatus::Ended = status {
            return Err(ErrorCode::CannotStakeAfterSlaEnded);
        }
        let (pool, supply) = match side {
            Side::Provider => (self.provider_pool_size, self.pt_supply),
            Side::User => (self.user_pool_size, self.ut_supply),
        };
        let minted: u128 = if pool == supply {
            amount as u128
        } else {
            if pool == 0 || supply == 0 {
                return Err(ErrorCode::DivisionByZero);
            }
            match (amount as u128).checked_mul(supply) {
                Some(x) => x / pool,
                None => {
                    return Err(ErrorCode::CheckedOperationOverflow);
                },
            }
        };
        if minted > u64::MAX as u128 {
            return Err(ErrorCode::CheckedOperationOverflow);
        }
        let shares = minted as u64;
        if let Side::User = side {
            let exposure = match self.user_pool_size.checked_add(amount as u128) {
                Some(e) => e,
                None => {
                    return Err(ErrorCode::CheckedOperationOverflow);
                },
            };
            match self.leverage.covered_by(exposure, self.provider_pool_size) {
                Err(e) => {
                    return Err(e);
                },
                Ok(false) => {
                    return Err(ErrorCode::InsufficientCollateral);
                },
                Ok(true) => {},
            }
        }
        let new_pool = match pool.checked_add(amount as u128) {
            Some(v) => v,
            None => {
                return Err(ErrorCode::CheckedOperationOverflow);
            },
        };
        let new_supply = match supply.checked_add(shares as u128) {
            Some(v) => v,
            None => {
                return Err(ErrorCode::CheckedOperationOverflow);
            },
        };
        let mut staged_lockup = *lockup;
        if let Err(e) = staged_lockup.stake_update(shares, status) {
            return Err(e);
        }
        *lockup = staged_lockup;
        match side {
            Side::Provider => {
                self.provider_pool_size = new_pool;
                self.pt_supply = new_supply;
            },
            Side::User => {
                self.user_pool_size = new_pool;
                self.ut_supply = new_supply;
            },
        }
        Ok(shares)
    }

    /// Burns `burn_amount` vested claim tokens of `side` at time `now` and pays out what
    /// they are worth, less the deployer and protocol fees. Either everything is applied
    /// or nothing is.
    pub fn withdraw(
        &mut self,
        lockup: &mut Lockup,
        governance: &Governance,
        side: Side,
        burn_amount: u64,
        now: u128,
    ) -> (r: Result<WithdrawPayout, ErrorCode>)
        requires
            old(self).wf(),
        ensures
            final(self).wf(),
            r == withdraw_outcome(
                *old(self),
                *governance,
                side,
                burn_amount,
                old(self).period_data.phase_at(now as int),
                old(lockup)@,
            ),
            r is Ok ==> ({
                let lk = advanced(old(lockup)@, old(self).period_data.phase_at(now as int));
                let owed = tokens_owed(
                    old(self).pool(side) as int,
                    old(self).supply(side) as int,
                    burn_amount as int,
                );
                &&& *final(self) == old(self).with_side(
                    side,
                    old(self).pool(side) - owed,
                    old(self).supply(side) - burn_amount,
                )
                &&& final(lockup)@ == (LockupState {
                    available: (lk.available - burn_amount) as nat,
                    ..lk
                })
            }),
            r is Err ==> *final(self) == *old(self) && final(lockup)@ == old(lockup)@,
    {
        let status = self.period_data.get_current_period_id(now);
        let mut staged_lockup = *lockup;
        if let Err(e) = staged_lockup.update_available_tokens(status) {
            return Err(e);
        }
        let (pool, supply) = match side {
            Side::Provider => (self.provider_pool_size, self.pt_supply),
            Side::User => (self.user_pool_size, self.ut_supply),
        };
        if pool == 0 || supply == 0 {
            return Err(ErrorCode::DivisionByZero);
        }
        let owed = match (burn_amount as u128).checked_mul(supply) {
            Some(x) => x / pool,
            None => {
                return Err(ErrorCode::CheckedOperationOverflow);
            },
        };
        if owed > pool {
            return Err(ErrorCode::InsufficientCollateral);
        }
        match status {
            SlaStatus::Ended => {},
            _ => {
                let (provider_after, user_after) = match side {
                    Side::Provider => (self.provider_pool_size - owed, self.user_pool_size),
                    Side::User => (self.provider_pool_size, self.user_pool_size - owed),
                };
                match self.leverage.covered_by(user_after, provider_after) {
                    Err(e) => {
                        return Err(e);
                    },
                    Ok(false) => {
                        return Err(ErrorCode::InsufficientCollateral);
                    },
                    Ok(true) => {},
                }
            },
        }
        if let Err(e) = staged_lockup.withdraw(burn_amount) {
            return Err(e);
        }
        if burn_amount as u128 > supply || owed > u64::MAX as u128 {
            return Err(ErrorCode::CheckedOperationOverflow);
        }
        let deployer_rate = governance.sla_deployer_rewards_rate;
        let protocol_rate = governance.protocol_rewards_rate;
        if deployer_rate.mantissa() < 0 || protocol_rate.mantissa() < 0 {
            return Err(ErrorCode::NonValidGovernanceParameters);
        }
        let deployer = match deployer_rate.mul_floor(owed) {
            Ok(v) => v,
            Err(e) => {
                return Err(e);
            },
        };
        let protocol = match protocol_rate.mul_floor(owed) {
            Ok(v) => v,
            Err(e) => {
                return Err(e);
            },
        };
        if deployer > owed || protocol > owed - deployer {
            return Err(ErrorCode::NonValidGovernanceParameters);
        }
        let payout = WithdrawPayout {
            staker_amount: (owed - deployer - protocol) as u64,
            deployer_amount: deployer as u64,
            protocol_amount: protocol as u64,
        };
        *lockup = staged_lockup;
        match side {
            Side::Provider => {
                self.provider_pool_size = pool - owed;
                self.pt_supply = supply - burn_amount as u128;
            },
            Side::User => {
                self.user_pool_size = pool - owed;
                self.ut_supply = supply - burn_amount as u128;
            },
        }
        Ok(payout)
    }
}

} // verus!
