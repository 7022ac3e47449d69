use dsla::errors::ErrorCode;
use dsla::period::{PeriodGenerator, PeriodLength, SlaStatus};
use dsla::period_registry::{Period, PeriodRegistry, Status};

fn schedule(n_periods: u32) -> PeriodGenerator {
    PeriodGenerator {
        start: 100,
        period_length: PeriodLength::Custom { length: 50 },
        n_periods,
    }
}

#[test]
fn period_generator_get_start_valid_id_1() {
    let period = schedule(2);
    assert_eq!(period.get_start(1).unwrap(), 150);
}

#[test]
#[should_panic]
fn period_generator_get_start_id_too_large() {
    let period = schedule(10);
    period.get_start(10).unwrap();
}

#[test]
fn period_generator_get_start_valid_last() {
    let period = schedule(10);
    assert_eq!(period.get_start(9).unwrap(), 550);
}

#[test]
fn period_generator_get_end_valid_id_1() {
    let period = schedule(10);
    assert_eq!(period.get_end(1).unwrap(), 199);
}

#[test]
#[should_panic]
fn period_generator_get_end_id_too_large() {
    let period = schedule(10);
    period.get_end(10).unwrap();
}

#[test]
fn period_generator_get_end_valid_last() {
    let period = schedule(10);
    assert_eq!(period.get_end(9).unwrap(), 599);
}

#[test]
fn sla_get_start_valid_id_1() {
    let period = PeriodGenerator {
        start: 100,
        period_length: PeriodLength::Custom { length: 50 },
        n_periods: 2,
    };
    assert_eq!(period.get_start(1).unwrap(), 150);
}

#[test]
#[should_panic]
fn sla_get_start_id_too_large() {
    let period = PeriodGenerator {
        start: 100,
        period_length: PeriodLength::Custom { length: 50 },
        n_periods: 10,
    };
    period.get_start(10).unwrap();
}

#[test]
fn sla_get_start_valid_last() {
    let period = PeriodGenerator {
        start: 100,
        period_length: PeriodLength::Custom { length: 50 },
        n_periods: 10,
    };
    assert_eq!(period.get_start(9).unwrap(), 550);
}

#[test]
fn sla_get_end_valid_id_1() {
    let period = PeriodGenerator {
        start: 100,
        period_length: PeriodLength::Custom { length: 50 },
        n_periods: 10,
    };
    assert_eq!(period.get_end(1).unwrap(), 199);
}

#[test]
#[should_panic]
fn sla_get_end_id_too_large() {
    let period = PeriodGenerator {
        start: 100,
        period_length: PeriodLength::Custom { length: 50 },
        n_periods: 10,
    };
    period.get_end(10).unwrap();
}

#[test]
fn sla_get_end_valid_last() {
    let period = PeriodGenerator {
        start: 100,
        period_length: PeriodLength::Custom { length: 50 },
        n_periods: 10,
    };
    assert_eq!(period.get_end(9).unwrap(), 599);
}

#[test]
fn schedule_bounds_of_first_and_last_period() {
    let period = schedule(10);
    assert_eq!(period.get_start(1), Ok(150));
    assert_eq!(period.get_end(1), Ok(199));
    assert_eq!(period.get_start(9), Ok(550));
    assert_eq!(period.get_end(9), Ok(599));
    assert_eq!(period.get_start(10), Err(ErrorCode::InvalidPeriodId));
    assert_eq!(period.get_end(10), Err(ErrorCode::InvalidPeriodId));
}

#[test]
fn schedule_phase_at_each_boundary() {
    let period = schedule(10);
    assert_eq!(period.get_current_period_id(0), SlaStatus::NotStarted);
    assert_eq!(period.get_current_period_id(99), SlaStatus::NotStarted);
    assert_eq!(period.get_current_period_id(100), SlaStatus::Active { period_id: 0 });
    assert_eq!(period.get_current_period_id(149), SlaStatus::Active { period_id: 0 });
    assert_eq!(period.get_current_period_id(150), SlaStatus::Active { period_id: 1 });
    assert_eq!(period.get_current_period_id(599), SlaStatus::Active { period_id: 9 });
    assert_eq!(period.get_current_period_id(600), SlaStatus::Ended);
}

#[test]
fn schedule_started_and_finished() {
    let period = schedule(10);
    assert_eq!(period.has_started(1, 149), Ok(false));
    assert_eq!(period.has_started(1, 150), Ok(true));
    assert_eq!(period.has_finished(1, 199), Ok(false));
    assert_eq!(period.has_finished(1, 200), Ok(true));
    assert_eq!(period.has_started(10, 1000), Err(ErrorCode::InvalidPeriodId));
    assert_eq!(period.has_finished(10, 1000), Err(ErrorCode::InvalidPeriodId));
}

#[test]
fn schedule_well_formedness() {
    assert!(schedule(10).is_well_formed());
    assert!(!schedule(0).is_well_formed());
    let monthly = PeriodGenerator { start: 100, period_length: PeriodLength::Monthly, n_periods: 3 };
    assert!(!monthly.is_well_formed());
    let zero = PeriodGenerator {
        start: 100,
        period_length: PeriodLength::Custom { length: 0 },
        n_periods: 3,
    };
    assert!(!zero.is_well_formed());
    let too_long = PeriodGenerator {
        start: u128::MAX - 10,
        period_length: PeriodLength::Custom { length: 5 },
        n_periods: 3,
    };
    assert!(!too_long.is_well_formed());
    let new = PeriodGenerator::new(100, PeriodLength::Custom { length: 50 }, 10);
    assert_eq!(new, schedule(10));
}

fn period(start: u64, end: u64, status: Status) -> Period {
    Period { start, end, status }
}

fn get_period_registry_1() -> PeriodRegistry {
    PeriodRegistry {
        periods: vec![
            period(100, 200, Status::Respected { value: 100 }),
            period(200, 300, Status::Respected { value: 99 }),
            period(300, 400, Status::NotRespected { value: 50 }),
            period(400, 500, Status::NotVerified),
            period(500, 600, Status::NotVerified),
            period(600, 700, Status::NotVerified),
            period(700, 800, Status::NotVerified),
            period(800, 900, Status::NotVerified),
            period(900, 1000, Status::NotVerified),
            period(1000, 1100, Status::NotVerified),
        ],
    }
}

fn get_period_vec_1() -> Vec<Period> {
    vec![
        period(60000, 120000, Status::NotVerified),
        period(120000, 180000, Status::NotVerified),
        period(180000, 240000, Status::NotVerified),
    ]
}

fn get_period_vec_2() -> Vec<Period> {
    vec![
        period(60000, 119999, Status::NotVerified),
        period(119999, 180000, Status::NotVerified),
        period(180000, 240000, Status::NotVerified),
    ]
}

fn get_period_vec_3() -> Vec<Period> {
    vec![
        period(60000, 120000, Status::NotVerified),
        period(119999, 180000, Status::NotVerified),
        period(180000, 240000, Status::NotVerified),
    ]
}

#[test]
fn period_registry_get_start_valid_id_1() {
    let period_registry = get_period_registry_1();
    assert_eq!(period_registry.get_start(1).unwrap(), 200);
}

#[test]
#[should_panic]
fn period_registry_get_start_id_too_large() {
    let period_registry = get_period_registry_1();
    period_registry.get_start(10).unwrap();
}

#[test]
fn period_registry_get_start_valid_last() {
    let period_registry = get_period_registry_1();
    assert_eq!(period_registry.get_start(8).unwrap(), 900);
}

#[test]
fn period_registry_get_end_valid_id_1() {
    let period_registry = get_period_registry_1();
    assert_eq!(period_registry.get_end(1).unwrap(), 300);
}

#[test]
#[should_panic]
fn period_registry_get_end_id_too_large() {
    let period_registry = get_period_registry_1();
    period_registry.get_end(10).unwrap();
}

#[test]
fn period_registry_get_end_valid_last() {
    let period_registry = get_period_registry_1();
    assert_eq!(period_registry.get_end(8).unwrap(), 1000);
}

#[test]
fn verify_period_length_valid() {
    let vector = get_period_vec_1();
    assert!(PeriodRegistry::verify_period_length(&vector));
}

#[test]
fn verify_period_length_invalid_period_length() {
    let vector = get_period_vec_2();
    assert!(!PeriodRegistry::verify_period_length(&vector));
}

#[test]
fn verify_period_length_invalid_periods() {
    let vector = get_period_vec_3();
    assert!(!PeriodRegistry::verify_period_length(&vector));
}

#[test]
fn verify_period_length_empty_and_single() {
    assert!(PeriodRegistry::verify_period_length(&[]));
    assert!(PeriodRegistry::verify_period_length(&[period(0, 60000, Status::NotVerified)]));
    assert!(!PeriodRegistry::verify_period_length(&[period(0, 59999, Status::NotVerified)]));
    assert!(!PeriodRegistry::verify_period_length(&[period(
        u64::MAX - 1,
        u64::MAX,
        Status::NotVerified
    )]));
}

#[test]
fn period_registry_started_and_finished() {
    let registry = get_period_registry_1();
    assert_eq!(registry.has_started(1, 199), Ok(false));
    assert_eq!(registry.has_started(1, 200), Ok(true));
    assert_eq!(registry.has_finished(1, 300), Ok(false));
    assert_eq!(registry.has_finished(1, 301), Ok(true));
    assert_eq!(registry.has_started(10, 0), Err(ErrorCode::InvalidPeriodId));
}
