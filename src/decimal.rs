use vstd::prelude::*;

use crate::errors::ErrorCode;

verus! {

/// The largest number of decimal places a `DslaDecimal` carries.
pub const MAX_SCALE: u32 = 18;

/// `10` to the power `n`.
pub open spec fn pow10(n: nat) -> nat
    decreases n,
{
    if n == 0 {
        1
    } else {
        10 * pow10((n - 1) as nat)
    }
}

/// Powers of ten grow with the exponent and stay positive.
pub proof fn lemma_pow10_monotone(a: nat, b: nat)
    requires
        a <= b,
    ensures
        1 <= pow10(a) <= pow10(b),
    decreases b,
{
    if b > 0 {
        if a < b {
            lemma_pow10_monotone(a, (b - 1) as nat);
        } else {
            lemma_pow10_monotone((a - 1) as nat, (b - 1) as nat);
        }
    }
}

/// A power of ten with at most `MAX_SCALE` as exponent stays below `10^18`.
pub proof fn lemma_pow10_bound(n: nat)
    requires
        n <= MAX_SCALE,
    ensures
        1 <= pow10(n) <= 1_000_000_000_000_000_000,
{
    lemma_pow10_monotone(n, 18);
    reveal_with_fuel(pow10, 19);
}

/// `10^n` as an executable integer.
pub fn pow10_u64(n: u32) -> (r: u64)
    requires
        n <= MAX_SCALE,
    ensures
        r == pow10(n as nat),
{
    let mut r: u64 = 1;
    let mut i: u32 = 0;
    while i < n
        invariant
            i <= n <= MAX_SCALE,
            r == pow10(i as nat),
        decreases n - i,
    {
        proof {
            lemma_pow10_bound(i as nat);
            lemma_pow10_monotone(i as nat, 17);
            reveal_with_fuel(pow10, 18);
        }
        r = r * 10;
        i = i + 1;
    }
    r
}

/// The mathematical content of a fixed-point number: `mantissa / 10^scale`.
pub struct DecimalValue {
    pub mantissa: int,
    pub scale: nat,
}

/// The two numbers brought to the larger of their scales, as whole mantissas.
pub open spec fn aligned(a: DecimalValue, b: DecimalValue) -> (int, int) {
    let s = if a.scale >= b.scale { a.scale } else { b.scale };
    (a.mantissa * pow10((s - a.scale) as nat), b.mantissa * pow10((s - b.scale) as nat))
}

/// `floor(mantissa * x / 10^scale)`: a non-negative number applied to a whole amount.
pub open spec fn scaled_floor(d: DecimalValue, x: int) -> int {
    (d.mantissa * x) / (pow10(d.scale) as int)
}

/// A fixed-point number: a signed mantissa and a count of decimal places.
#[derive(Debug, PartialEq, Eq, Copy, Clone, Structural)]
pub struct DslaDecimal {
    /// the value without any decimals and non decimal
    mantissa: i64,
    /// how many places from the right to put the decimal point
    scale: u32,
}

impl View for DslaDecimal {
    type V = DecimalValue;

    closed spec fn view(&self) -> DecimalValue {
        DecimalValue { mantissa: self.mantissa as int, scale: self.scale as nat }
    }
}

impl DslaDecimal {
    #[verifier::type_invariant]
    spec fn scale_in_range(self) -> bool {
        self.scale <= MAX_SCALE
    }

    /// The number `mantissa / 10^scale`.
    pub fn new(mantissa: i64, scale: u32) -> (r: DslaDecimal)
        requires
            scale <= MAX_SCALE,
        ensures
            r@ == (DecimalValue { mantissa: mantissa as int, scale: scale as nat }),
    {
        DslaDecimal { mantissa, scale }
    }

    /// The whole number `n`.
    pub fn from_integer(n: i64) -> (r: DslaDecimal)
        ensures
            r@ == (DecimalValue { mantissa: n as int, scale: 0 }),
    {
        DslaDecimal { mantissa: n, scale: 0 }
    }

    pub fn mantissa(&self) -> (r: i64)
        ensures
            r == self@.mantissa,
    {
        self.mantissa
    }

    pub fn scale(&self) -> (r: u32)
        ensures
            r == self@.scale,
            r <= MAX_SCALE,
    {
        proof {
            use_type_invariant(self);
        }
        self.scale
    }

    /// Both numbers at the larger of their two scales, so that they compare as integers.
    pub fn align(&self, other: &DslaDecimal) -> (r: (i128, i128))
        ensures
            (r.0 as int, r.1 as int) == aligned(self@, other@),
    {
        proof {
            use_type_invariant(self);
            use_type_invariant(other);
        }
        let s = if self.scale >= other.scale {
            self.scale
        } else {
            other.scale
        };
        let pa = pow10_u64(s - self.scale);
        let pb = pow10_u64(s - other.scale);
        proof {
            lemma_pow10_bound((s - self.scale) as nat);
            lemma_pow10_bound((s - other.scale) as nat);
            lemma_product_fits(self.mantissa as int, pa as int);
            lemma_product_fits(other.mantissa as int, pb as int);
        }
        ((self.mantissa as i128) * (pa as i128), (other.mantissa as i128) * (pb as i128))
    }

    /// `floor(self * x)` for a non-negative number, or an overflow when `mantissa * x`
    /// does not fit in `u128`.
    pub fn mul_floor(&self, x: u128) -> (r: Result<u128, ErrorCode>)
        requires
            self@.mantissa >= 0,
        ensures
            self@.mantissa * x > u128::MAX ==> r == Err::<u128, ErrorCode>(
                ErrorCode::CheckedOperationOverflow,
            ),
            self@.mantissa * x <= u128::MAX ==> r == Ok::<u128, ErrorCode>(
                scaled_floor(self@, x as int) as u128,
            ),
            self@.mantissa * x <= u128::MAX ==> 0 <= scaled_floor(self@, x as int)
                <= self@.mantissa * x,
    {
        proof {
            use_type_invariant(self);
        }
        let p = pow10_u64(self.scale);
        match (self.mantissa as u128).checked_mul(x) {
            None => Err(ErrorCode::CheckedOperationOverflow),
            Some(product) => {
                proof {
                    lemma_pow10_bound(self.scale as nat);
                    lemma_div_nonneg_le(product as int, p as int);
                }
                Ok(product / (p as u128))
            },
        }
    }

    /// Whether `self * exposure <= pool` holds exactly, for a non-negative number; an
    /// overflow when `mantissa * exposure` does not fit in `u128`.
    pub fn covered_by(&self, exposure: u128, pool: u128) -> (r: Result<bool, ErrorCode>)
        requires
            self@.mantissa >= 0,
        ensures
            self@.mantissa * exposure > u128::MAX ==> r == Err::<bool, ErrorCode>(
                ErrorCode::CheckedOperationOverflow,
            ),
            self@.mantissa * exposure <= u128::MAX ==> r == Ok::<bool, ErrorCode>(
                self@.mantissa * exposure <= pool * pow10(self@.scale),
            ),
    {
        proof {
            use_type_invariant(self);
        }
        let p = pow10_u64(self.scale);
        match (self.mantissa as u128).checked_mul(exposure) {
            None => Err(ErrorCode::CheckedOperationOverflow),
            Some(lhs) => match pool.checked_mul(p as u128) {
                None => Ok(true),
                Some(rhs) => Ok(lhs <= rhs),
            },
        }
    }
}

proof fn lemma_product_fits(m: int, p: int)
    requires
        i64::MIN <= m <= i64::MAX,
        1 <= p <= 1_000_000_000_000_000_000,
    ensures
        i128::MIN <= m * p <= i128::MAX,
{
    assert(-9_223_372_036_854_775_808_000_000_000_000_000_000 <= m * p <= 9_223_372_036_854_775_807_000_000_000_000_000_000)
        by (nonlinear_arith)
        requires
            i64::MIN <= m <= i64::MAX,
            1 <= p <= 1_000_000_000_000_000_000,
    ;
}

proof fn lemma_div_nonneg_le(a: int, b: int)
    requires
        a >= 0,
        b >= 1,
    ensures
        0 <= a / b <= a,
{
    assert(0 <= a / b <= a) by (nonlinear_arith)
        requires
            a >= 0,
            b >= 1,
    ;
}

} // verus!
