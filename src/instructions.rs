use vstd::prelude::*;

use crate::decimal::DslaDecimal;
use crate::errors::ErrorCode;
use crate::lockup::{advanced, staked, Lockup, LockupState};
use crate::pool::{stake_outcome, tokens_owed, withdraw_outcome, WithdrawPayout};
use crate::sla::{Governance, Side, Sla};

verus! {

/// Stakes `token_amount` on the user side at time `now`; returns the claim tokens minted.
pub fn stake_user(sla: &mut Sla, lockup: &mut Lockup, token_amount: u64, now: u128) -> (r: Result<
    u64,
    ErrorCode,
>)
    requires
        old(sla).wf(),
    ensures
        final(sla).wf(),
        r == stake_outcome(
            *old(sla),
            Side::User,
            token_amount,
            old(sla).period_data.phase_at(now as int),
            old(lockup)@,
        ),
        r matches Ok(shares) ==> *final(sla) == (Sla {
            user_pool_size: (old(sla).user_pool_size + token_amount) as u128,
            ut_supply: (old(sla).ut_supply + shares) as u128,
            ..*old(sla)
        }) && final(lockup)@ == staked(
            old(lockup)@,
            shares as nat,
            old(sla).period_data.phase_at(now as int),
        ),
        r is Err ==> *final(sla) == *old(sla) && final(lockup)@ == old(lockup)@,
{
    sla.stake(lockup, Side::User, token_amount, now)
}

/// Stakes `token_amount` on the provider side at time `now`; returns the claim tokens
/// minted.
pub fn stake_provider(sla: &mut Sla, lockup: &mut Lockup, token_amount: u64, now: u128) -> (r:
    Result<u64, ErrorCode>)
    requires
        old(sla).wf(),
    ensures
        final(sla).wf(),
        r == stake_outcome(
            *old(sla),
            Side::Provider,
            token_amount,
            old(sla).period_data.phase_at(now as int),
            old(lockup)@,
        ),
        r matches Ok(shares) ==> *final(sla) == (Sla {
            provider_pool_size: (old(sla).provider_pool_size + token_amount) as u128,
            pt_supply: (old(sla).pt_supply + shares) as u128,
            ..*old(sla)
        }) && final(lockup)@ == staked(
            old(lockup)@,
            shares as nat,
            old(sla).period_data.phase_at(now as int),
        ),
        r is Err ==> *final(sla) == *old(sla) && final(lockup)@ == old(lockup)@,
{
    sla.stake(lockup, Side::Provider, token_amount, now)
}

/// Burns `burn_amount` user claim tokens at time `now`; returns the payout.
pub fn withdraw_user(
    sla: &mut Sla,
    lockup: &mut Lockup,
    governance: &Governance,
    burn_amount: u64,
    now: u128,
) -> (r: Result<WithdrawPayout, ErrorCode>)
    requires
        old(sla).wf(),
    ensures
        final(sla).wf(),
        r == withdraw_outcome(
            *old(sla),
            *governance,
            Side::User,
            burn_amount,
            old(sla).period_data.phase_at(now as int),
            old(lockup)@,
        ),
        r is Ok ==> ({
            let lk = advanced(old(lockup)@, old(sla).period_data.phase_at(now as int));
            let owed = tokens_owed(
                old(sla).user_pool_size as int,
                old(sla).ut_supply as int,
                burn_amount as int,
            );
            &&& *final(sla) == (Sla {
                user_pool_size: (old(sla).user_pool_size - owed) as u128,
                ut_supply: (old(sla).ut_supply - burn_amount) as u128,
                ..*old(sla)
            })
            &&& final(lockup)@ == (LockupState {
                available: (lk.available - burn_amount) as nat,
                ..lk
            })
        }),
        r is Err ==> *final(sla) == *old(sla) && final(lockup)@ == old(lockup)@,
{
    sla.withdraw(lockup, governance, Side::User, burn_amount, now)
}

/// Burns `burn_amount` provider claim tokens at time `now`; returns the payout.
pub fn withdraw_provider(
    sla: &mut Sla,
    lockup: &mut Lockup,
    governance: &Governance,
    burn_amount: u64,
    now: u128,
) -> (r: Result<WithdrawPayout, ErrorCode>)
    requires
        old(sla).wf(),
    ensures
        final(sla).wf(),
        r == withdraw_outcome(
            *old(sla),
            *governance,
            Side::Provider,
            burn_amount,
            old(sla).period_data.phase_at(now as int),
            old(lockup)@,
        ),
        r is Ok ==> ({
            let lk = advanced(old(lockup)@, old(sla).period_data.phase_at(now as int));
            let owed = tokens_owed(
                old(sla).provider_pool_size as int,
                old(sla).pt_supply as int,
                burn_amount as int,
            );
            &&& *final(sla) == (Sla {
                provider_pool_size: (old(sla).provider_pool_size - owed) as u128,
                pt_supply: (old(sla).pt_supply - burn_amount) as u128,
                ..*old(sla)
            })
            &&& final(lockup)@ == (LockupState {
                available: (lk.available - burn_amount) as nat,
                ..lk
            })
        }),
        r is Err ==> *final(sla) == *old(sla) && final(lockup)@ == old(lockup)@,
{
    sla.withdraw(lockup, governance, Side::Provider, burn_amount, now)
}

/// Sets up the governance parameters; refused unless the deposit per period equals what
/// a validation burns and pays out.
pub fn init_governance(
    dsla_deposit_by_period: u64,
    dsla_protocol_reward: u64,
    dsla_validator_reward: u64,
    dsla_burned_by_verification: u64,
    sla_deployer_rewards_rate: DslaDecimal,
    protocol_rewards_rate: DslaDecimal,
    max_leverage: DslaDecimal,
) -> (r: Result<Governance, ErrorCode>)
    ensures
        r matches Ok(g) ==> g.deposit_adds_up() && g == (Governance {
            dsla_deposit_by_period,
            dsla_protocol_reward,
            dsla_validator_reward,
            dsla_burned_by_verification,
            sla_deployer_rewards_rate,
            protocol_rewards_rate,
            max_leverage,
        }),
        r is Err ==> r == Err::<Governance, ErrorCode>(ErrorCode::NonValidGovernanceParameters),
        r is Ok <==> dsla_deposit_by_period == dsla_burned_by_verification
            + dsla_validator_reward + dsla_protocol_reward,
{
    Governance::new(
        dsla_deposit_by_period,
        dsla_protocol_reward,
        dsla_validator_reward,
        dsla_burned_by_verification,
        sla_deployer_rewards_rate,
        protocol_rewards_rate,
        max_leverage,
    )
}

/// Replaces the governance parameters; when they do not add up the old ones stay.
pub fn modify_governance(
    governance: &mut Governance,
    dsla_deposit_by_period: u64,
    dsla_protocol_reward: u64,
    dsla_validator_reward: u64,
    dsla_burned_by_verification: u64,
    sla_deployer_rewards_rate: DslaDecimal,
    protocol_rewards_rate: DslaDecimal,
    max_leverage: DslaDecimal,
) -> (r: Result<(), ErrorCode>)
    ensures
        r is Ok <==> dsla_deposit_by_period == dsla_burned_by_verification
            + dsla_validator_reward + dsla_protocol_reward,
        r is Ok ==> *final(governance) == (Governance {
            dsla_deposit_by_period,
            dsla_protocol_reward,
            dsla_validator_reward,
            dsla_burned_by_verification,
            sla_deployer_rewards_rate,
            protocol_rewards_rate,
            max_leverage,
        }),
        r is Err ==> r == Err::<(), ErrorCode>(ErrorCode::NonValidGovernanceParameters)
            && *final(governance) == *old(governance),
{
    match init_governance(
        dsla_deposit_by_period,
        dsla_protocol_reward,
        dsla_validator_reward,
        dsla_burned_by_verification,
        sla_deployer_rewards_rate,
        protocol_rewards_rate,
        max_leverage,
    ) {
        Ok(g) => {
            *governance = g;
            Ok(())
        },
        Err(e) => Err(e),
    }
}

} // verus!
