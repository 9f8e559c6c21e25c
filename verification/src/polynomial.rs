use vstd::prelude::*;

use crate::arith::{abs_int, checked_add, checked_div_i128, div_tz, fits_i64, SCALE};
use crate::errors::TargetingError;

verus! {

/// Largest time offset, in microseconds, at which a steering polynomial may
/// be evaluated: about twelve days, far beyond any single burn window.
pub const MAX_EVAL_OFFSET_US: i64 = 0x100_0000_0000;

/// A quadratic steering profile `value + rate * t + curvature * t^2`, with
/// `t` the offset from the start of the maneuver window. The coefficients
/// are addressed by order: 0 is the value, 1 the rate, 2 the curvature, the
/// same indexing the maneuver-profile variable tags use.
#[derive(Clone, Copy, Debug, PartialEq, Eq, Structural)]
pub struct QuadraticPolynomial {
    pub value: i64,
    pub rate: i64,
    pub curvature: i64,
}

/// The coefficient of order `order`, or nothing for an order above two.
pub open spec fn coeff_spec(p: QuadraticPolynomial, order: int) -> Option<i64> {
    if order == 0 {
        Some(p.value)
    } else if order == 1 {
        Some(p.rate)
    } else if order == 2 {
        Some(p.curvature)
    } else {
        None
    }
}

/// The polynomial with its coefficient of order `order` replaced by `c`.
pub open spec fn with_coeff_spec(p: QuadraticPolynomial, order: int, c: i64) -> QuadraticPolynomial
    recommends
        0 <= order <= 2,
{
    if order == 0 {
        QuadraticPolynomial { value: c, ..p }
    } else if order == 1 {
        QuadraticPolynomial { rate: c, ..p }
    } else {
        QuadraticPolynomial { curvature: c, ..p }
    }
}

/// Fixed-point evaluation of the profile at offset `t`: each power of `t`
/// carries one extra factor of `SCALE`, which is divided back out after each
/// multiplication, rounding towards zero.
pub open spec fn eval_spec(p: QuadraticPolynomial, t: int) -> int {
    p.value + div_tz(p.rate * t, SCALE as int) + div_tz(
        div_tz(p.curvature * t, SCALE as int) * t,
        SCALE as int,
    )
}

/// Fixed-point evaluation of the derivative `rate + 2 * curvature * t`.
pub open spec fn deriv_spec(p: QuadraticPolynomial, t: int) -> int {
    p.rate + div_tz(2 * p.curvature * t, SCALE as int)
}

impl QuadraticPolynomial {
    /// The identically zero profile.
    pub fn zero() -> (r: QuadraticPolynomial)
        ensures
            r.value == 0 && r.rate == 0 && r.curvature == 0,
    {
        QuadraticPolynomial { value: 0, rate: 0, curvature: 0 }
    }

    /// The coefficient of order `order` (0 value, 1 rate, 2 curvature).
    pub fn coeff(&self, order: usize) -> (r: Option<i64>)
        ensures
            r == coeff_spec(*self, order as int),
    {
        if order == 0 {
            Some(self.value)
        } else if order == 1 {
            Some(self.rate)
        } else if order == 2 {
            Some(self.curvature)
        } else {
            None
        }
    }

    /// Returns a copy with `val` added to the coefficient of order `order`.
    /// An order above two is `InvalidVariable`; a coefficient leaving the
    /// representable range is `ValueOutOfRange`.
    pub fn add_val_in_order(&self, val: i64, order: usize) -> (r: Result<
        QuadraticPolynomial,
        TargetingError,
    >)
        ensures
            order > 2 ==> r == Err::<QuadraticPolynomial, TargetingError>(
                TargetingError::InvalidVariable,
            ),
            r matches Ok(q) ==> {
                &&& order <= 2
                &&& fits_i64(coeff_spec(*self, order as int).unwrap() + val)
                &&& q == with_coeff_spec(
                    *self,
                    order as int,
                    (coeff_spec(*self, order as int).unwrap() + val) as i64,
                )
            },
            order <= 2 && fits_i64(coeff_spec(*self, order as int).unwrap() + val) ==> r is Ok,
            r is Err ==> r == (if order > 2 {
                Err::<QuadraticPolynomial, TargetingError>(TargetingError::InvalidVariable)
            } else {
                Err::<QuadraticPolynomial, TargetingError>(TargetingError::ValueOutOfRange)
            }),
    {
        if order == 0 {
            let c: i64 = checked_add(self.value, val)?;
            Ok(QuadraticPolynomial { value: c, rate: self.rate, curvature: self.curvature })
        } else if order == 1 {
            let c: i64 = checked_add(self.rate, val)?;
            Ok(QuadraticPolynomial { value: self.value, rate: c, curvature: self.curvature })
        } else if order == 2 {
            let c: i64 = checked_add(self.curvature, val)?;
            Ok(QuadraticPolynomial { value: self.value, rate: self.rate, curvature: c })
        } else {
            Err(TargetingError::InvalidVariable)
        }
    }

    /// Evaluates the profile at offset `t` microseconds from the start of
    /// the window.
    pub fn eval(&self, t: i64) -> (r: Result<i64, TargetingError>)
        requires
            -MAX_EVAL_OFFSET_US <= t <= MAX_EVAL_OFFSET_US,
        ensures
            r matches Ok(v) ==> v == eval_spec(*self, t as int),
            r is Err ==> r == Err::<i64, TargetingError>(TargetingError::ValueOutOfRange),
    {
        proof {
            lemma_mul_i64_bounded(self.rate as int, t as int);
            lemma_mul_i64_bounded(self.curvature as int, t as int);
        }
        let linear: i64 = checked_div_i128(self.rate as i128 * t as i128, SCALE)?;
        let c_t: i64 = checked_div_i128(self.curvature as i128 * t as i128, SCALE)?;
        proof {
            lemma_mul_i64_bounded(c_t as int, t as int);
        }
        let quad: i64 = checked_div_i128(c_t as i128 * t as i128, SCALE)?;
        let s: i128 = self.value as i128 + linear as i128 + quad as i128;
        if s >= i64::MIN as i128 && s <= i64::MAX as i128 {
            Ok(s as i64)
        } else {
            Err(TargetingError::ValueOutOfRange)
        }
    }

    /// Evaluates the derivative of the profile at offset `t` microseconds.
    pub fn deriv(&self, t: i64) -> (r: Result<i64, TargetingError>)
        requires
            -MAX_EVAL_OFFSET_US <= t <= MAX_EVAL_OFFSET_US,
        ensures
            r matches Ok(v) ==> v == deriv_spec(*self, t as int),
            r is Err ==> r == Err::<i64, TargetingError>(TargetingError::ValueOutOfRange),
    {
        proof {
            lemma_mul_2_i64_bounded(self.curvature as int, t as int);
        }
        let slope: i64 = checked_div_i128(2 * (self.curvature as i128) * (t as i128), SCALE)?;
        let s: i128 = self.rate as i128 + slope as i128;
        if s >= i64::MIN as i128 && s <= i64::MAX as i128 {
            Ok(s as i64)
        } else {
            Err(TargetingError::ValueOutOfRange)
        }
    }
}

/// An `i64` times a bounded offset stays far inside the `i128` range.
proof fn lemma_mul_i64_bounded(a: int, t: int)
    requires
        i64::MIN <= a <= i64::MAX,
        -MAX_EVAL_OFFSET_US <= t <= MAX_EVAL_OFFSET_US,
    ensures
        abs_int(a * t) <= (i64::MAX as int + 1) * (MAX_EVAL_OFFSET_US as int),
{
    assert(abs_int(a * t) <= (i64::MAX as int + 1) * (MAX_EVAL_OFFSET_US as int))
        by (nonlinear_arith)
        requires
            -(i64::MAX as int) - 1 <= a <= i64::MAX as int,
            -MAX_EVAL_OFFSET_US <= t <= MAX_EVAL_OFFSET_US,
    ;
}

/// Twice an `i64` times a bounded offset stays far inside the `i128` range.
proof fn lemma_mul_2_i64_bounded(a: int, t: int)
    requires
        i64::MIN <= a <= i64::MAX,
        -MAX_EVAL_OFFSET_US <= t <= MAX_EVAL_OFFSET_US,
    ensures
        abs_int(2 * a * t) <= 2 * (i64::MAX as int + 1) * (MAX_EVAL_OFFSET_US as int),
{
    assert(abs_int(2 * a * t) <= 2 * (i64::MAX as int + 1) * (MAX_EVAL_OFFSET_US as int))
        by (nonlinear_arith)
        requires
            -(i64::MAX as int) - 1 <= a <= i64::MAX as int,
            -MAX_EVAL_OFFSET_US <= t <= MAX_EVAL_OFFSET_US,
    ;
}

} // verus!
