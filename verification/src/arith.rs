use vstd::prelude::*;

use crate::errors::TargetingError;

verus! {

/// Number of fixed-point counts per base unit: every physical quantity in
/// this crate is an `i64` holding millionths of the caller's base unit
/// (kilometres, kilometres per second, degrees, kilograms), and epochs are
/// `i64` counts of microseconds.
pub const SCALE: i64 = 1_000_000;

/// The magnitude of a mathematical integer.
pub open spec fn abs_int(a: int) -> int {
    if a >= 0 {
        a
    } else {
        -a
    }
}

/// Division rounding towards zero, the rounding used by all fixed-point
/// quotients in this crate.
pub open spec fn div_tz(a: int, b: int) -> int
    recommends
        b != 0,
{
    if (a >= 0) == (b >= 0) {
        abs_int(a) / abs_int(b)
    } else {
        -(abs_int(a) / abs_int(b))
    }
}

/// Whether a mathematical integer is representable as an `i64`.
pub open spec fn fits_i64(a: int) -> bool {
    i64::MIN <= a <= i64::MAX
}

/// The sum `a + b`, or `ValueOutOfRange` when it does not fit an `i64`.
pub fn checked_add(a: i64, b: i64) -> (r: Result<i64, TargetingError>)
    ensures
        r matches Ok(v) ==> v == a + b,
        r matches Ok(v) <==> fits_i64(a + b),
        r is Err ==> r == Err::<i64, TargetingError>(TargetingError::ValueOutOfRange),
{
    let s: i128 = a as i128 + b as i128;
    if s >= i64::MIN as i128 && s <= i64::MAX as i128 {
        Ok(s as i64)
    } else {
        Err(TargetingError::ValueOutOfRange)
    }
}

/// The difference `a - b`, or `ValueOutOfRange` when it does not fit an `i64`.
pub fn checked_diff(a: i64, b: i64) -> (r: Result<i64, TargetingError>)
    ensures
        r matches Ok(v) ==> v == a - b,
        r matches Ok(v) <==> fits_i64(a - b),
        r is Err ==> r == Err::<i64, TargetingError>(TargetingError::ValueOutOfRange),
{
    let s: i128 = a as i128 - b as i128;
    if s >= i64::MIN as i128 && s <= i64::MAX as i128 {
        Ok(s as i64)
    } else {
        Err(TargetingError::ValueOutOfRange)
    }
}

/// The magnitude `|a|`, or `ValueOutOfRange` for the one value whose
/// magnitude no `i64` holds.
pub fn checked_abs(a: i64) -> (r: Result<i64, TargetingError>)
    ensures
        r matches Ok(v) ==> v == abs_int(a as int),
        r matches Ok(v) <==> fits_i64(abs_int(a as int)),
        r is Err ==> r == Err::<i64, TargetingError>(TargetingError::ValueOutOfRange),
{
    if a == i64::MIN {
        Err(TargetingError::ValueOutOfRange)
    } else if a < 0 {
        Ok(-a)
    } else {
        Ok(a)
    }
}

/// The finite-difference quotient `(perturbed - nominal) * SCALE / pert`,
/// rounded towards zero: the sensitivity of one objective to one variable,
/// expressed in fixed-point counts per unit.
pub fn checked_scaled_div(perturbed: i64, nominal: i64, pert: i64) -> (r: Result<
    i64,
    TargetingError,
>)
    requires
        pert != 0,
    ensures
        r matches Ok(v) ==> v == div_tz((perturbed - nominal) * SCALE, pert as int),
        r matches Ok(v) <==> abs_int(div_tz((perturbed - nominal) * SCALE, pert as int))
            <= i64::MAX,
        r is Err ==> r == Err::<i64, TargetingError>(TargetingError::ValueOutOfRange),
{
    let diff: i128 = perturbed as i128 - nominal as i128;
    proof {
        assert(abs_int((diff as int) * (SCALE as int)) <= 2 * (i64::MAX as int + 1) * (
        SCALE as int)) by (nonlinear_arith)
            requires
                -2 * (i64::MAX as int + 1) <= diff as int <= 2 * (i64::MAX as int + 1),
        ;
    }
    let num: i128 = diff * (SCALE as i128);
    proof {
        assert(num == (perturbed - nominal) * SCALE);
    }
    checked_div_i128(num, pert)
}

/// The quotient `num / den` rounded towards zero, or `ValueOutOfRange` when
/// its magnitude exceeds `i64::MAX`.
pub fn checked_div_i128(num: i128, den: i64) -> (r: Result<i64, TargetingError>)
    requires
        den != 0,
        num > i128::MIN,
    ensures
        r matches Ok(v) ==> v == div_tz(num as int, den as int),
        r matches Ok(v) <==> abs_int(div_tz(num as int, den as int)) <= i64::MAX,
        r is Err ==> r == Err::<i64, TargetingError>(TargetingError::ValueOutOfRange),
{
    let neg: bool = (num < 0) != (den < 0);
    let unum: u128 = if num < 0 {
        (-num) as u128
    } else {
        num as u128
    };
    let uden: u128 = if den < 0 {
        (-(den as i128)) as u128
    } else {
        den as u128
    };
    let uq: u128 = unum / uden;
    proof {
        assert(unum == abs_int(num as int));
        assert(uden == abs_int(den as int));
        assert(uq == abs_int(num as int) / abs_int(den as int));
    }
    if uq > i64::MAX as u128 {
        Err(TargetingError::ValueOutOfRange)
    } else if neg {
        Ok(-(uq as i64))
    } else {
        Ok(uq as i64)
    }
}

/// The integer square root: the largest `r` with `r * r <= x`.
pub fn isqrt_u128(x: u128) -> (r: u64)
    ensures
        (r as int) * (r as int) <= x,
        x < (r as int + 1) * (r as int + 1),
{
    let mut lo: u64 = 0;
    let mut hi: u64 = u64::MAX;
    proof {
        assert((u64::MAX as int + 1) * (u64::MAX as int + 1) > u128::MAX) by (nonlinear_arith);
    }
    while lo < hi
        invariant
            (lo as int) * (lo as int) <= x,
            x < (hi as int + 1) * (hi as int + 1),
            lo <= hi,
        decreases hi - lo,
    {
        let mid: u64 = hi - (hi - lo) / 2;
        proof {
            assert((mid as int) * (mid as int) <= (u64::MAX as int) * (u64::MAX as int))
                by (nonlinear_arith)
                requires
                    0 <= mid as int <= u64::MAX as int,
            ;
        }
        let sq: u128 = mid as u128 * mid as u128;
        if sq <= x {
            lo = mid;
        } else {
            hi = mid - 1;
        }
    }
    lo
}

/// An independent element-wise copy of a vector of plain values.
pub fn copy_vec<T: Copy>(v: &Vec<T>) -> (r: Vec<T>)
    ensures
        r@ == v@,
{
    let mut out: Vec<T> = Vec::new();
    let mut j: usize = 0;
    while j < v.len()
        invariant
            0 <= j <= v@.len(),
            out@ == v@.take(j as int),
        decreases v@.len() - j,
    {
        out.push(v[j]);
        proof {
            assert(out@ =~= v@.take(j as int + 1));
        }
        j = j + 1;
    }
    proof {
        assert(v@.take(v@.len() as int) =~= v@);
    }
    out
}

/// The squared Euclidean norm of an error vector, as a sum of exact squares;
/// `ValueOutOfRange` if the sum exceeds `u128`.
pub open spec fn norm_sq_spec(s: Seq<i64>) -> int
    decreases s.len(),
{
    if s.len() == 0 {
        0
    } else {
        norm_sq_spec(s.drop_last()) + (s.last() as int) * (s.last() as int)
    }
}

/// Computes the squared norm of the error vector.
pub fn norm_sq(errors: &Vec<i64>) -> (r: Result<u128, TargetingError>)
    ensures
        r matches Ok(v) ==> v == norm_sq_spec(errors@),
        r is Err ==> r == Err::<u128, TargetingError>(TargetingError::ValueOutOfRange),
{
    let mut total: u128 = 0;
    let mut i: usize = 0;
    while i < errors.len()
        invariant
            0 <= i <= errors@.len(),
            total == norm_sq_spec(errors@.take(i as int)),
        decreases errors@.len() - i,
    {
        let e: i128 = errors[i] as i128;
        proof {
            assert(e * e >= 0 && e * e <= ((i64::MAX as int) + 1) * ((i64::MAX as int) + 1))
                by (nonlinear_arith)
                requires
                    -(i64::MAX as int) - 1 <= e <= i64::MAX as int,
            ;
        }
        let sq: u128 = (e * e) as u128;
        proof {
            assert(sq == (errors@[i as int] as int) * (errors@[i as int] as int));
        }
        if total > u128::MAX - sq {
            return Err(TargetingError::ValueOutOfRange);
        }
        total = total + sq;
        proof {
            assert(errors@.take(i as int + 1).drop_last() =~= errors@.take(i as int));
            assert(errors@.take(i as int + 1).last() == errors@[i as int]);
        }
        i = i + 1;
    }
    proof {
        assert(errors@.take(errors@.len() as int) =~= errors@);
    }
    Ok(total)
}

} // verus!
