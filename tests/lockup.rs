use dsla::errors::ErrorCode;
use dsla::lockup::Lockup;
use dsla::period::SlaStatus;

#[test]
fn check_lockup_struct() {
    let lockup = Lockup::new();
    assert_eq!(lockup.available_tokens, 0);
}

#[test]
fn check_current_period() {
    let mut lockup = Lockup::new();
    let status = SlaStatus::Active { period_id: 1 };

    lockup.stake_update(1000, status).unwrap();
    assert_eq!(lockup.available_tokens, 0);
    assert_eq!(lockup.locked_tokens_prev(), 0);
    assert_eq!(lockup.locked_tokens(), 1000);
    assert_eq!(lockup.locked_from_period_id(), 1);
    assert_eq!(
        lockup.withdraw(50),
        Err(ErrorCode::NoAvailableTokensForWithdrawal)
    );
    assert_eq!(lockup.available_tokens, 0);
}

#[test]
fn check_period_after() {
    let mut lockup = Lockup::new();
    let status = SlaStatus::Active { period_id: 1 };

    lockup.stake_update(1000, status).unwrap();
    let status = SlaStatus::Active { period_id: 2 };
    lockup.update_available_tokens(status).unwrap();

    assert_eq!(lockup.available_tokens, 0);
    assert_eq!(lockup.locked_tokens_prev(), 1000);
    assert_eq!(lockup.locked_tokens(), 0);
    assert_eq!(lockup.locked_from_period_id(), 2);
    assert_eq!(
        lockup.withdraw(50),
        Err(ErrorCode::NoAvailableTokensForWithdrawal)
    );
    assert_eq!(lockup.available_tokens, 0);
}

#[test]
fn check_2_periods_after() {
    let mut lockup = Lockup::new();
    let status = SlaStatus::Active { period_id: 1 };

    lockup.stake_update(1000, status).unwrap();

    let status = SlaStatus::Active { period_id: 3 };
    lockup.update_available_tokens(status).unwrap();

    assert_eq!(lockup.available_tokens, 1000);
    assert_eq!(lockup.locked_tokens_prev(), 0);
    assert_eq!(lockup.locked_tokens(), 0);
    assert_eq!(lockup.locked_from_period_id(), 3);
    assert_eq!(lockup.withdraw(50), Ok(()));
    assert_eq!(lockup.available_tokens, 950);
}

#[test]
fn check_lots_periods_after() {
    let mut lockup = Lockup::new();
    let status = SlaStatus::Active { period_id: 1 };

    lockup.stake_update(1000, status).unwrap();

    let status = SlaStatus::Active { period_id: 120 };
    lockup.update_available_tokens(status).unwrap();

    assert_eq!(lockup.available_tokens, 1000);
    assert_eq!(lockup.locked_tokens_prev(), 0);
    assert_eq!(lockup.locked_tokens(), 0);
    assert_eq!(lockup.locked_from_period_id(), 120);
    assert_eq!(lockup.withdraw(1000), Ok(()));
    assert_eq!(lockup.available_tokens, 0);
}

#[test]
fn check_current_period_multiple_stakes() {
    let mut lockup = Lockup::new();
    let status = SlaStatus::Active { period_id: 1 };

    lockup.stake_update(1000, status).unwrap();
    lockup.stake_update(1000, status).unwrap();
    lockup.stake_update(1000, status).unwrap();

    assert_eq!(lockup.available_tokens, 0);
    assert_eq!(lockup.locked_tokens_prev(), 0);
    assert_eq!(lockup.locked_tokens(), 3000);
    assert_eq!(lockup.locked_from_period_id(), 1);
    assert_eq!(lockup.withdraw(0), Err(ErrorCode::WithdrawalIsZero));
    assert_eq!(lockup.available_tokens, 0);
}

#[test]
fn check_period_after_multiple_stakes() {
    let mut lockup = Lockup::new();
    let status = SlaStatus::Active { period_id: 1 };

    lockup.stake_update(1000, status).unwrap();
    let status = SlaStatus::Active { period_id: 2 };
    lockup.stake_update(1000, status).unwrap();

    assert_eq!(lockup.available_tokens, 0);
    assert_eq!(lockup.locked_tokens_prev(), 1000);
    assert_eq!(lockup.locked_tokens(), 1000);
    assert_eq!(lockup.locked_from_period_id(), 2);
    assert_eq!(
        lockup.withdraw(1),
        Err(ErrorCode::NoAvailableTokensForWithdrawal)
    );
    assert_eq!(lockup.available_tokens, 0);
}

#[test]
fn check_2_periods_after_multiple_stakes() {
    let mut lockup = Lockup::new();
    let status = SlaStatus::Active { period_id: 1 };

    lockup.stake_update(1000, status).unwrap();
    let status = SlaStatus::Active { period_id: 2 };
    lockup.stake_update(1000, status).unwrap();

    let status = SlaStatus::Active { period_id: 3 };
    lockup.stake_update(1000, status).unwrap();

    assert_eq!(lockup.available_tokens, 1000);
    assert_eq!(lockup.locked_tokens_prev(), 1000);
    assert_eq!(lockup.locked_tokens(), 1000);
    assert_eq!(lockup.locked_from_period_id(), 3);
    assert_eq!(lockup.withdraw(999), Ok(()));
    assert_eq!(lockup.available_tokens, 1);
}

#[test]
fn check_multiple_periods_after_multiple_stakes() {
    let mut lockup = Lockup::new();
    let status = SlaStatus::Active { period_id: 1 };

    lockup.stake_update(1000, status).unwrap();
    let status = SlaStatus::Active { period_id: 2 };
    lockup.stake_update(1000, status).unwrap();

    let status = SlaStatus::Active { period_id: 100 };
    lockup.stake_update(1000, status).unwrap();

    assert_eq!(lockup.available_tokens, 2000);
    assert_eq!(lockup.locked_tokens_prev(), 0);
    assert_eq!(lockup.locked_tokens(), 1000);
    assert_eq!(lockup.locked_from_period_id(), 100);
    assert_eq!(
        lockup.withdraw(20000),
        Err(ErrorCode::NoAvailableTokensForWithdrawal)
    );
    assert_eq!(lockup.available_tokens, 2000);
}

#[test]
fn check_current_period_sla_not_started() {
    let mut lockup = Lockup::new();
    let status = SlaStatus::NotStarted;
    lockup.stake_update(1000, status).unwrap();

    assert_eq!(lockup.available_tokens, 0);
    assert_eq!(lockup.locked_tokens_prev(), 1000);
    assert_eq!(lockup.locked_tokens(), 0);
    assert_eq!(lockup.locked_from_period_id(), 0);
    assert_eq!(
        lockup.withdraw(20000),
        Err(ErrorCode::NoAvailableTokensForWithdrawal)
    );
    assert_eq!(lockup.available_tokens, 0);
}

#[test]
fn check_period_after_sla_not_started() {
    let mut lockup = Lockup::new();
    let status = SlaStatus::NotStarted;

    lockup.stake_update(1000, status).unwrap();
    let status = SlaStatus::Active { period_id: 0 };
    lockup.update_available_tokens(status).unwrap();

    assert_eq!(lockup.available_tokens, 0);
    assert_eq!(lockup.locked_tokens_prev(), 1000);
    assert_eq!(lockup.locked_tokens(), 0);
    assert_eq!(lockup.locked_from_period_id(), 0);
    assert_eq!(
        lockup.withdraw(50),
        Err(ErrorCode::NoAvailableTokensForWithdrawal)
    );
    assert_eq!(lockup.available_tokens, 0);
}
#[test]
fn check_2_periods_after_sla_not_started() {
    let mut lockup = Lockup::new();
    let status = SlaStatus::NotStarted;

    lockup.stake_update(1000, status).unwrap();
    let status = SlaStatus::Active { period_id: 1 };
    lockup.update_available_tokens(status).unwrap();

    assert_eq!(lockup.available_tokens, 1000);
    assert_eq!(lockup.locked_tokens_prev(), 0);
    assert_eq!(lockup.locked_tokens(), 0);
    assert_eq!(lockup.locked_from_period_id(), 1);
    assert_eq!(lockup.withdraw(1000), Ok(()));
    assert_eq!(lockup.available_tokens, 0);
}

#[test]
fn check_current_period_multiple_stakes_sla_not_started() {
    let mut lockup = Lockup::new();
    let status = SlaStatus::NotStarted;

    lockup.stake_update(1000, status).unwrap();
    lockup.stake_update(1000, status).unwrap();
    lockup.stake_update(1000, status).unwrap();

    assert_eq!(lockup.available_tokens, 0);
    assert_eq!(lockup.locked_tokens_prev(), 3000);
    assert_eq!(lockup.locked_tokens(), 0);
    assert_eq!(lockup.locked_from_period_id(), 0);
    assert_eq!(
        lockup.withdraw(1),
        Err(ErrorCode::NoAvailableTokensForWithdrawal)
    );
    assert_eq!(lockup.available_tokens, 0);
}

#[test]
fn check_period_after_multiple_stakes_sla_not_started() {
    let mut lockup = Lockup::new();
    let status = SlaStatus::NotStarted;

    lockup.stake_update(1000, status).unwrap();
    let status = SlaStatus::Active { period_id: 0 };
    lockup.stake_update(1000, status).unwrap();

    assert_eq!(lockup.available_tokens, 0);
    assert_eq!(lockup.locked_tokens_prev(), 1000);
    assert_eq!(lockup.locked_tokens(), 1000);
    assert_eq!(lockup.locked_from_period_id(), 0);
    assert_eq!(
        lockup.withdraw(5000),
        Err(ErrorCode::NoAvailableTokensForWithdrawal)
    );
    assert_eq!(lockup.available_tokens, 0);
}

#[test]
fn check_2_periods_after_multiple_stakes_sla_not_started() {
    let mut lockup = Lockup::new();
    let status = SlaStatus::NotStarted;
    lockup.stake_update(1000, status).unwrap();
    let status = SlaStatus::Active { period_id: 0 };
    lockup.stake_update(1000, status).unwrap();

    let status = SlaStatus::Active { period_id: 1 };
    lockup.stake_update(1000, status).unwrap();

    assert_eq!(lockup.available_tokens, 1000);
    assert_eq!(lockup.locked_tokens_prev(), 1000);
    assert_eq!(lockup.locked_tokens(), 1000);
    assert_eq!(lockup.locked_from_period_id(), 1);
    assert_eq!(lockup.withdraw(1), Ok(()));
    assert_eq!(lockup.available_tokens, 999);
}

#[test]
fn check_multiple_periods_after_multiple_stakes_sla_not_started() {
    let mut lockup = Lockup::new();
    let status = SlaStatus::NotStarted;

    lockup.stake_update(1000, status).unwrap();
    let status = SlaStatus::Active { period_id: 1 };
    lockup.stake_update(1000, status).unwrap();

    let status = SlaStatus::Active { period_id: 100 };
    lockup.stake_update(1000, status).unwrap();

    assert_eq!(lockup.available_tokens, 2000);
    assert_eq!(lockup.locked_tokens_prev(), 0);
    assert_eq!(lockup.locked_tokens(), 1000);
    assert_eq!(lockup.locked_from_period_id(), 100);
    assert_eq!(lockup.withdraw(300), Ok(()));
    assert_eq!(lockup.available_tokens, 1700);
}

#[test]
fn check_previous_period_sla_ended() {
    let mut lockup = Lockup::new();
    let status = SlaStatus::Active { period_id: 100 };
    lockup.stake_update(1000, status).unwrap();
    let status = SlaStatus::Ended;
    lockup.update_available_tokens(status).unwrap();

    assert_eq!(lockup.available_tokens, 1000);
    assert_eq!(lockup.locked_tokens_prev(), 0);
    assert_eq!(lockup.locked_tokens(), 0);
    assert_eq!(lockup.locked_from_period_id(), 0);
    assert_eq!(lockup.withdraw(50), Ok(()));
    assert_eq!(lockup.available_tokens, 950);
}

#[test]
fn check_previous_period_multiple_stakes_sla_ended() {
    let mut lockup = Lockup::new();
    let status = SlaStatus::Active { period_id: 50 };
    lockup.stake_update(1000, status).unwrap();
    let status = SlaStatus::Active { period_id: 70 };
    lockup.stake_update(1000, status).unwrap();
    let status = SlaStatus::Active { period_id: 100 };
    lockup.stake_update(1000, status).unwrap();
    let status = SlaStatus::Ended;
    lockup.update_available_tokens(status).unwrap();

    assert_eq!(lockup.available_tokens, 3000);
    assert_eq!(lockup.locked_tokens_prev(), 0);
    assert_eq!(lockup.locked_tokens(), 0);
    assert_eq!(lockup.locked_from_period_id(), 0);
    assert_eq!(lockup.withdraw(520), Ok(()));
    assert_eq!(lockup.available_tokens, 2480);
}
