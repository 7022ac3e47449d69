use dsla::decimal::DslaDecimal;
use dsla::deviation::SloType;
use dsla::errors::ErrorCode;
use dsla::instructions::{
    init_governance, modify_governance, stake_provider, stake_user, withdraw_provider,
    withdraw_user,
};
use dsla::lockup::Lockup;
use dsla::period::{PeriodGenerator, PeriodLength};
use dsla::sla::{Sla, Slo};

fn fresh_agreement() -> Sla {
    let slo = Slo { slo_value: DslaDecimal::new(995, 1), slo_type: SloType::GreaterOrEqualTo };
    let schedule =
        PeriodGenerator { start: 100, period_length: PeriodLength::Custom { length: 50 }, n_periods: 10 };
    Sla::new([1; 32], [2; 32], [3; 32], slo, DslaDecimal::new(15, 1), schedule)
}

#[test]
fn entry_points_stake_and_withdraw_both_sides() {
    let gov = init_governance(6, 1, 2, 3, DslaDecimal::new(1, 2), DslaDecimal::new(1, 2), DslaDecimal::from_integer(5))
        .unwrap();
    let mut sla = fresh_agreement();
    let mut provider = Lockup::new();
    let mut user = Lockup::new();
    // before the start: one claim token per token
    assert_eq!(stake_provider(&mut sla, &mut provider, 3000, 50), Ok(3000));
    // leverage 1.5: 3000 covers at most 2000 on the user side
    assert_eq!(stake_user(&mut sla, &mut user, 2001, 50), Err(ErrorCode::InsufficientCollateral));
    assert_eq!(stake_user(&mut sla, &mut user, 2000, 50), Ok(2000));
    assert_eq!(sla.provider_pool_size, 3000);
    assert_eq!(sla.user_pool_size, 2000);
    // period 1: what was staked before the start has vested
    let payout = withdraw_user(&mut sla, &mut user, &gov, 1000, 160).unwrap();
    assert_eq!(payout.staker_amount, 980);
    assert_eq!(payout.deployer_amount, 10);
    assert_eq!(payout.protocol_amount, 10);
    assert_eq!(sla.user_pool_size, 1000);
    assert_eq!(sla.ut_supply, 1000);
    // the provider may now take out what the smaller user pool no longer needs
    assert_eq!(
        withdraw_provider(&mut sla, &mut provider, &gov, 1501, 160),
        Err(ErrorCode::InsufficientCollateral)
    );
    assert!(withdraw_provider(&mut sla, &mut provider, &gov, 1500, 160).is_ok());
    assert_eq!(sla.provider_pool_size, 1500);
    assert_eq!(sla.provider_pool_size * 10, 15 * sla.user_pool_size);
}

#[test]
fn governance_init_and_modify() {
    assert_eq!(
        init_governance(5, 1, 2, 3, DslaDecimal::new(1, 2), DslaDecimal::new(1, 2), DslaDecimal::from_integer(5))
            .err(),
        Some(ErrorCode::NonValidGovernanceParameters)
    );
    let mut gov = init_governance(6, 1, 2, 3, DslaDecimal::new(1, 2), DslaDecimal::new(1, 2), DslaDecimal::from_integer(5))
        .unwrap();
    assert_eq!(
        modify_governance(&mut gov, 7, 1, 2, 3, DslaDecimal::new(1, 2), DslaDecimal::new(1, 2), DslaDecimal::from_integer(5)),
        Err(ErrorCode::NonValidGovernanceParameters)
    );
    assert_eq!(gov.dsla_deposit_by_period, 6);
    assert_eq!(
        modify_governance(&mut gov, 7, 2, 2, 3, DslaDecimal::new(3, 2), DslaDecimal::new(1, 2), DslaDecimal::from_integer(5)),
        Ok(())
    );
    assert_eq!(gov.dsla_deposit_by_period, 7);
    assert_eq!(gov.dsla_protocol_reward, 2);
    assert_eq!(gov.sla_deployer_rewards_rate, DslaDecimal::new(3, 2));
}
