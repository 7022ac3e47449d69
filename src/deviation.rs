use vstd::prelude::*;

use crate::errors::ErrorCode;

verus! {

/// How a measurement is compared with the objective.
#[derive(Debug, Clone, Copy, PartialEq, Eq, Structural)]
pub enum SloType {
    EqualTo,
    NotEqualTo,
    SmallerThan,
    SmallerOrEqualTo,
    GreaterThan,
    GreaterOrEqualTo,
}

/// Whether the measurement `sli` meets the objective `slo` under the comparator.
pub open spec fn comparator_holds(t: SloType, sli: int, slo: int) -> bool {
    match t {
        SloType::EqualTo => sli == slo,
        SloType::NotEqualTo => sli != slo,
        SloType::SmallerThan => sli < slo,
        SloType::SmallerOrEqualTo => sli <= slo,
        SloType::GreaterThan => sli > slo,
        SloType::GreaterOrEqualTo => sli >= slo,
    }
}

/// Equality objectives get a flat deviation instead of the ratio formula.
pub open spec fn is_equality(t: SloType) -> bool {
    t is EqualTo || t is NotEqualTo
}

/// A precision is usable when it is a positive multiple of 100.
pub open spec fn precision_ok(precision: int) -> bool {
    precision > 0 && precision % 100 == 0
}

/// The largest deviation: 25% of the precision.
pub open spec fn deviation_cap(precision: int) -> int {
    precision * 25 / 100
}

/// `|a - b|`.
pub open spec fn abs_diff(a: int, b: int) -> int {
    if a >= b {
        a - b
    } else {
        b - a
    }
}

/// `|sli - slo| * precision / ((sli + slo) / 2)`, before the cap.
pub open spec fn raw_deviation(slo: int, sli: int, precision: int) -> int {
    abs_diff(sli, slo) * precision / ((sli + slo) / 2)
}

/// What `deviation` returns, checks in order: the precision, the flat case of the equality
/// comparators, then each step of the ratio formula in `u128`.
pub open spec fn deviation_outcome(t: SloType, slo: int, sli: int, precision: int) -> Result<
    u128,
    ErrorCode,
> {
    if !precision_ok(precision) {
        Err(ErrorCode::InvalidPrecision)
    } else if is_equality(t) {
        Ok((precision / 100) as u128)
    } else if sli + slo > u128::MAX {
        Err(ErrorCode::CheckedOperationOverflow)
    } else if (sli + slo) / 2 == 0 {
        Err(ErrorCode::DivisionByZero)
    } else if abs_diff(sli, slo) * precision > u128::MAX {
        Err(ErrorCode::CheckedOperationOverflow)
    } else if raw_deviation(slo, sli, precision) > deviation_cap(precision) {
        Ok(deviation_cap(precision) as u128)
    } else {
        Ok(raw_deviation(slo, sli, precision) as u128)
    }
}

/// Applies the comparator to a measurement and an objective.
pub fn comparator_applies(t: SloType, sli: i128, slo: i128) -> (r: bool)
    ensures
        r == comparator_holds(t, sli as int, slo as int),
{
    match t {
        SloType::EqualTo => sli == slo,
        SloType::NotEqualTo => sli != slo,
        SloType::SmallerThan => sli < slo,
        SloType::SmallerOrEqualTo => sli <= slo,
        SloType::GreaterThan => sli > slo,
        SloType::GreaterOrEqualTo => sli >= slo,
    }
}

/// The deviation between an objective and a measurement, in units of `precision`: the
/// relative distance capped at 25%, or a flat 1% for the equality comparators.
pub fn deviation(t: SloType, slo: u128, sli: u128, precision: u128) -> (r: Result<u128, ErrorCode>)
    ensures
        r == deviation_outcome(t, slo as int, sli as int, precision as int),
{
    if precision == 0 || precision % 100 != 0 {
        return Err(ErrorCode::InvalidPrecision);
    }
    match t {
        SloType::EqualTo | SloType::NotEqualTo => {
            return Ok(precision / 100);
        },
        _ => {},
    }
    let sum = match sli.checked_add(slo) {
        Some(s) => s,
        None => {
            return Err(ErrorCode::CheckedOperationOverflow);
        },
    };
    let half = sum / 2;
    if half == 0 {
        return Err(ErrorCode::DivisionByZero);
    }
    let diff = if sli >= slo {
        sli - slo
    } else {
        slo - sli
    };
    let scaled = match diff.checked_mul(precision) {
        Some(v) => v,
        None => {
            return Err(ErrorCode::CheckedOperationOverflow);
        },
    };
    let raw = scaled / half;
    let cap = precision / 100 * 25;
    proof {
        assert(precision / 100 * 25 == precision * 25 / 100) by (nonlinear_arith)
            requires
                precision % 100 == 0,
        ;
    }
    if raw > cap {
        Ok(cap)
    } else {
        Ok(raw)
    }
}

/// A deviation is never negative and never above the cap; the equality comparators get
/// exactly one hundredth of the precision.
pub proof fn lemma_deviation_bounded(t: SloType, slo: int, sli: int, precision: u128, d: u128)
    requires
        slo >= 0,
        sli >= 0,
        deviation_outcome(t, slo, sli, precision as int) == Ok::<u128, ErrorCode>(d),
    ensures
        precision_ok(precision as int),
        is_equality(t) ==> d == precision / 100,
        !is_equality(t) ==> 0 <= d <= deviation_cap(precision as int),
{
    if !is_equality(t) {
        lemma_div_nonneg(abs_diff(sli, slo), precision as int, (sli + slo) / 2);
    }
}

proof fn lemma_div_nonneg(a: int, p: int, den: int)
    requires
        a >= 0,
        p > 0,
        den > 0,
    ensures
        a * p / den >= 0,
{
    assert(a * p / den >= 0) by (nonlinear_arith)
        requires
            a >= 0,
            p > 0,
            den > 0,
    ;
}

} // verus!
