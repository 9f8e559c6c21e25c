use vstd::prelude::*;

use crate::arith::{abs_int, checked_diff, checked_div_i128, div_tz, SCALE};
use crate::errors::TargetingError;

verus! {

/// Every row of the sensitivity matrix has exactly `ncols` entries.
pub open spec fn rectangular(jac: Seq<Vec<i64>>, ncols: int) -> bool {
    forall|i: int| 0 <= i < jac.len() ==> (#[trigger] jac[i])@.len() == ncols
}

/// Every sensitivity is exactly zero: no variable influences any objective.
pub open spec fn all_zero(jac: Seq<Vec<i64>>) -> bool {
    forall|i: int, k: int|
        0 <= i < jac.len() && 0 <= k < jac[i]@.len() ==> #[trigger] jac[i]@[k] == 0
}

/// The sum `a + b` over `i128`, rejecting overflow and the single lowest
/// value (so every accepted sum can be safely negated).
fn checked_add_i128(a: i128, b: i128) -> (r: Result<i128, TargetingError>)
    ensures
        r matches Ok(v) ==> v == a + b && v > i128::MIN,
        r matches Ok(v) <==> i128::MIN < a + b <= i128::MAX,
        r is Err ==> r == Err::<i128, TargetingError>(TargetingError::ValueOutOfRange),
{
    if b >= 0 {
        if a > i128::MAX - b {
            Err(TargetingError::ValueOutOfRange)
        } else {
            let s: i128 = a + b;
            if s == i128::MIN {
                Err(TargetingError::ValueOutOfRange)
            } else {
                Ok(s)
            }
        }
    } else {
        if a <= i128::MIN - b {
            Err(TargetingError::ValueOutOfRange)
        } else {
            Ok(a + b)
        }
    }
}

/// The product of two `i64` values always fits an `i128`, away from its
/// edges.
proof fn lemma_i64_product_fits(a: int, b: int)
    requires
        i64::MIN <= a <= i64::MAX,
        i64::MIN <= b <= i64::MAX,
    ensures
        abs_int(a * b) <= (i64::MAX as int + 1) * (i64::MAX as int + 1),
{
    assert(abs_int(a * b) <= (i64::MAX as int + 1) * (i64::MAX as int + 1)) by (nonlinear_arith)
        requires
            -(i64::MAX as int) - 1 <= a <= i64::MAX as int,
            -(i64::MAX as int) - 1 <= b <= i64::MAX as int,
    ;
}

/// An independent copy of one matrix row.
fn copy_row(row: &Vec<i64>) -> (r: Vec<i64>)
    ensures
        r@ == row@,
{
    let mut out: Vec<i64> = Vec::new();
    let mut j: usize = 0;
    while j < row.len()
        invariant
            0 <= j <= row@.len(),
            out@ == row@.take(j as int),
        decreases row@.len() - j,
    {
        out.push(row[j]);
        proof {
            assert(out@ =~= row@.take(j as int + 1));
        }
        j = j + 1;
    }
    proof {
        assert(row@.take(row@.len() as int) =~= row@);
    }
    out
}

/// The exact sum of products of paired factors.
pub open spec fn dot_spec(terms: Seq<(i64, i64)>) -> int
    decreases terms.len(),
{
    if terms.len() == 0 {
        0
    } else {
        dot_spec(terms.drop_last()) + (terms.last().0 as int) * (terms.last().1 as int)
    }
}

/// The scaled dot product of paired fixed-point factors drawn from matrix
/// rows or columns: the exact sum of products over `i128`, divided once by
/// `SCALE` with rounding towards zero. Only a sum beyond the `i128` range or
/// a quotient beyond the `i64` range is rejected; a single product always
/// fits the accumulator, so there success turns on the quotient alone.
fn scaled_dot(terms: &Vec<(i64, i64)>) -> (r: Result<i64, TargetingError>)
    ensures
        r matches Ok(v) ==> v == div_tz(dot_spec(terms@), SCALE as int),
        terms@.len() == 1 ==> (r is Ok <==> abs_int(div_tz(dot_spec(terms@), SCALE as int))
            <= i64::MAX),
        r is Err ==> r == Err::<i64, TargetingError>(TargetingError::ValueOutOfRange),
{
    let mut acc: i128 = 0;
    let mut k: usize = 0;
    while k < terms.len()
        invariant
            0 <= k <= terms@.len(),
            acc > i128::MIN,
            acc == dot_spec(terms@.take(k as int)),
        decreases terms@.len() - k,
    {
        let (a, b) = terms[k];
        proof {
            lemma_i64_product_fits(a as int, b as int);
        }
        let p: i128 = a as i128 * b as i128;
        let next: i128 = match checked_add_i128(acc, p) {
            Ok(v) => v,
            Err(e) => {
                proof {
                    if terms@.len() == 1 {
                        assert(k == 0);
                        assert(acc == 0);
                        assert((i64::MAX as int + 1) * (i64::MAX as int + 1) < i128::MAX)
                            by (nonlinear_arith);
                    }
                }
                return Err(e);
            },
        };
        acc = next;
        proof {
            assert(terms@.take(k as int + 1).drop_last() =~= terms@.take(k as int));
            assert(terms@.take(k as int + 1).last() == terms@[k as int]);
        }
        k = k + 1;
    }
    proof {
        assert(terms@.take(terms@.len() as int) =~= terms@);
    }
    checked_div_i128(acc, SCALE)
}

/// The paired factors whose scaled dot product is normal-matrix entry
/// `(i, j)`: column `i` of the sensitivity matrix against column `j`.
pub open spec fn column_pairs(jac: Seq<Vec<i64>>, i: int, j: int) -> Seq<(i64, i64)> {
    Seq::new(jac.len(), |k: int| (jac[k]@[i], jac[k]@[j]))
}

/// The paired factors whose scaled dot product is right-hand-side entry `i`:
/// column `i` of the sensitivity matrix against the error vector.
pub open spec fn rhs_pairs(jac: Seq<Vec<i64>>, err: Seq<i64>, i: int) -> Seq<(i64, i64)> {
    Seq::new(jac.len(), |k: int| (jac[k]@[i], err[k]))
}

/// Entry `(i, j)` of the normal matrix the left form eliminates.
pub open spec fn normal_entry_spec(jac: Seq<Vec<i64>>, i: int, j: int) -> int {
    div_tz(dot_spec(column_pairs(jac, i, j)), SCALE as int)
}

/// Entry `i` of the right-hand side the left form eliminates.
pub open spec fn normal_rhs_spec(jac: Seq<Vec<i64>>, err: Seq<i64>, i: int) -> int {
    div_tz(dot_spec(rhs_pairs(jac, err, i)), SCALE as int)
}

/// Whether the normal matrix is diagonal: every pair of distinct variables
/// has orthogonal sensitivity columns, as when independent variables drive
/// disjoint objectives.
pub open spec fn normal_diagonal_spec(jac: Seq<Vec<i64>>, n: int) -> bool {
    forall|i: int, j: int|
        0 <= i < n && 0 <= j < n && i != j ==> #[trigger] normal_entry_spec(jac, i, j) == 0
}

/// The correction component a diagonal normal system owes at `i`.
pub open spec fn normal_diag_solution_spec(jac: Seq<Vec<i64>>, err: Seq<i64>, i: int) -> int {
    if normal_entry_spec(jac, i, i) == 0 {
        0
    } else {
        div_tz(normal_rhs_spec(jac, err, i) * (SCALE as int), normal_entry_spec(jac, i, i))
    }
}

/// A dot product of pairs whose left factors are all zero is zero.
proof fn lemma_dot_zero_left(s: Seq<(i64, i64)>)
    requires
        forall|k: int| 0 <= k < s.len() ==> (#[trigger] s[k]).0 == 0,
    ensures
        dot_spec(s) == 0,
    decreases s.len(),
{
    if s.len() > 0 {
        lemma_dot_zero_left(s.drop_last());
    }
}

/// The matrix is diagonal: every off-diagonal entry is zero.
pub open spec fn diagonal_spec(a: Seq<Vec<i64>>) -> bool {
    forall|i: int, j: int|
        0 <= i < a.len() && 0 <= j < a[i]@.len() && i != j ==> #[trigger] a[i]@[j] == 0
}

/// The solution component a diagonal system owes at `i`: zero for an empty
/// column, else the scaled quotient of the right-hand side by the diagonal.
pub open spec fn diag_solution_spec(a: Seq<Vec<i64>>, b: Seq<i64>, i: int) -> int {
    if a[i]@[i] == 0 {
        0
    } else {
        div_tz((b[i] as int) * (SCALE as int), a[i]@[i] as int)
    }
}

/// Whether that component is representable as an `i64`.
pub open spec fn diag_fits_spec(a: Seq<Vec<i64>>, b: Seq<i64>, i: int) -> bool {
    abs_int(diag_solution_spec(a, b, i)) <= i64::MAX
}

/// The working system still holds exactly the entries it started with.
spec fn system_unchanged(
    a: Seq<Vec<i64>>,
    b: Seq<i64>,
    a0: Seq<Vec<i64>>,
    b0: Seq<i64>,
    m: int,
) -> bool {
    &&& forall|i: int, j: int| 0 <= i < m && 0 <= j < m ==> #[trigger] a[i]@[j] == a0[i]@[j]
    &&& forall|i: int| 0 <= i < m ==> #[trigger] b[i] == b0[i]
}

/// Solves the square fixed-point system `a * x = b * SCALE` in place by
/// Gauss-Jordan elimination with partial pivoting, rounding towards zero at
/// every division. A column with no usable pivot contributes a zero
/// component, so a zero system yields the zero solution. A value leaving the
/// representable range during elimination is reported as `ValueOutOfRange`.
///
/// A diagonal system is never touched by the elimination, so there success
/// is owed exactly when every component's quotient is representable, and
/// each returned component is that exact quotient.
fn gauss_solve(a: &mut Vec<Vec<i64>>, b: &mut Vec<i64>) -> (r: Result<Vec<i64>, TargetingError>)
    requires
        old(a)@.len() == old(b)@.len(),
        rectangular(old(a)@, old(a)@.len() as int),
    ensures
        r matches Ok(x) ==> x@.len() == old(b)@.len(),
        diagonal_spec(old(a)@) ==> (r is Ok <==> (forall|i: int|
            0 <= i < old(b)@.len() ==> #[trigger] diag_fits_spec(old(a)@, old(b)@, i))),
        diagonal_spec(old(a)@) ==> (r matches Ok(x) ==> (forall|i: int|
            0 <= i < old(b)@.len() ==> (#[trigger] x@[i]) as int == diag_solution_spec(
                old(a)@,
                old(b)@,
                i,
            ))),
        r is Err ==> r == Err::<Vec<i64>, TargetingError>(TargetingError::ValueOutOfRange),
{
    let m: usize = b.len();
    let ghost a0 = old(a)@;
    let ghost b0 = old(b)@;
    let mut c: usize = 0;
    while c < m
        invariant
            a@.len() == m,
            b@.len() == m,
            rectangular(a@, m as int),
            a0 == old(a)@ && b0 == old(b)@,
            a0.len() == m && b0.len() == m,
            rectangular(a0, m as int),
            diagonal_spec(a0) ==> system_unchanged(a@, b@, a0, b0, m as int),
        decreases m - c,
    {
        // Partial pivoting: the row at or below `c` with the largest
        // magnitude in column `c`.
        let mut best: usize = c;
        let mut best_mag: i128 = magnitude_i128(a[c][c]);
        let mut rr: usize = c + 1;
        while rr < m
            invariant
                a@.len() == m,
                rectangular(a@, m as int),
                c < m,
                c <= best < m,
                c < rr <= m,
                best_mag == abs_int(a@[best as int]@[c as int] as int),
                b@.len() == m,
                a0 == old(a)@ && b0 == old(b)@,
                a0.len() == m && b0.len() == m,
                rectangular(a0, m as int),
                diagonal_spec(a0) ==> system_unchanged(a@, b@, a0, b0, m as int),
                diagonal_spec(a0) ==> best == c,
            decreases m - rr,
        {
            let mag: i128 = magnitude_i128(a[rr][c]);
            if mag > best_mag {
                best = rr;
                best_mag = mag;
            }
            rr = rr + 1;
        }
        if best != c {
            let row_c: Vec<i64> = copy_row(&a[c]);
            let row_b: Vec<i64> = copy_row(&a[best]);
            let bc: i64 = b[c];
            let bb: i64 = b[best];
            a[c] = row_b;
            a[best] = row_c;
            b[c] = bb;
            b[best] = bc;
        }
        let pivot: i64 = a[c][c];
        if pivot != 0 {
            // Clear column `c` in every other row.
            let mut r2: usize = 0;
            while r2 < m
                invariant
                    a@.len() == m,
                    b@.len() == m,
                    rectangular(a@, m as int),
                    c < m,
                    pivot != 0,
                    pivot == a@[c as int]@[c as int],
                    0 <= r2 <= m,
                    a0 == old(a)@ && b0 == old(b)@,
                    a0.len() == m && b0.len() == m,
                    rectangular(a0, m as int),
                    diagonal_spec(a0) ==> system_unchanged(a@, b@, a0, b0, m as int),
                decreases m - r2,
            {
                if r2 != c {
                    proof {
                        lemma_i64_product_fits(a@[r2 as int]@[c as int] as int, SCALE as int);
                        if diagonal_spec(a0) {
                            assert(a@[r2 as int]@[c as int] == a0[r2 as int]@[c as int]);
                            assert(a0[r2 as int]@[c as int] == 0);
                            assert(div_tz(0, pivot as int) == 0);
                        }
                    }
                    let factor: i64 = checked_div_i128(
                        a[r2][c] as i128 * SCALE as i128,
                        pivot,
                    )?;
                    let mut new_row: Vec<i64> = Vec::new();
                    let mut j: usize = 0;
                    while j < m
                        invariant
                            a@.len() == m,
                            b@.len() == m,
                            rectangular(a@, m as int),
                            c < m,
                            r2 < m,
                            r2 != c,
                            0 <= j <= m,
                            new_row@.len() == j,
                            a0 == old(a)@ && b0 == old(b)@,
                            a0.len() == m && b0.len() == m,
                            rectangular(a0, m as int),
                            diagonal_spec(a0) ==> system_unchanged(a@, b@, a0, b0, m as int),
                            diagonal_spec(a0) ==> factor == 0,
                            diagonal_spec(a0) ==> (forall|j2: int|
                                0 <= j2 < j ==> #[trigger] new_row@[j2] == a@[r2 as int]@[j2]),
                        decreases m - j,
                    {
                        proof {
                            lemma_i64_product_fits(factor as int, a@[c as int]@[j as int] as int);
                        }
                        let t: i128 = factor as i128 * a[c][j] as i128;
                        let sub: i64 = checked_div_i128(t, SCALE)?;
                        let v: i64 = checked_diff(a[r2][j], sub)?;
                        new_row.push(v);
                        j = j + 1;
                    }
                    a[r2] = new_row;
                    proof {
                        lemma_i64_product_fits(factor as int, b@[c as int] as int);
                        if diagonal_spec(a0) {
                            assert(div_tz(0, SCALE as int) == 0);
                        }
                    }
                    let tb: i128 = factor as i128 * b[c] as i128;
                    let sub_b: i64 = checked_div_i128(tb, SCALE)?;
                    let vb: i64 = checked_diff(b[r2], sub_b)?;
                    b[r2] = vb;
                }
                r2 = r2 + 1;
            }
        }
        c = c + 1;
    }
    // Read the solution off the diagonal; a cleared column yields zero.
    let mut x: Vec<i64> = Vec::new();
    let mut i: usize = 0;
    while i < m
        invariant
            a@.len() == m,
            b@.len() == m,
            rectangular(a@, m as int),
            0 <= i <= m,
            x@.len() == i,
            a0 == old(a)@ && b0 == old(b)@,
            a0.len() == m && b0.len() == m,
            rectangular(a0, m as int),
            diagonal_spec(a0) ==> system_unchanged(a@, b@, a0, b0, m as int),
            diagonal_spec(a0) ==> (forall|i2: int|
                0 <= i2 < i ==> (#[trigger] x@[i2]) as int == diag_solution_spec(a0, b0, i2)),
            diagonal_spec(a0) ==> (forall|i2: int|
                0 <= i2 < i ==> #[trigger] diag_fits_spec(a0, b0, i2)),
        decreases m - i,
    {
        let pivot: i64 = a[i][i];
        if pivot == 0 {
            x.push(0);
        } else {
            proof {
                lemma_i64_product_fits(b@[i as int] as int, SCALE as int);
            }
            let xi: i64 = match checked_div_i128(b[i] as i128 * SCALE as i128, pivot) {
                Ok(v) => v,
                Err(e) => {
                    proof {
                        if diagonal_spec(a0) {
                            assert(!diag_fits_spec(a0, b0, i as int));
                        }
                    }
                    return Err(e);
                },
            };
            x.push(xi);
        }
        i = i + 1;
    }
    Ok(x)
}

/// The magnitude of an `i64`, widened so the lowest value needs no care.
fn magnitude_i128(v: i64) -> (r: i128)
    ensures
        r == abs_int(v as int),
{
    if v < 0 {
        -(v as i128)
    } else {
        v as i128
    }
}

/// Checks whether every sensitivity is exactly zero.
fn check_all_zero(jac: &Vec<Vec<i64>>) -> (r: bool)
    ensures
        r <==> all_zero(jac@),
{
    let mut i: usize = 0;
    while i < jac.len()
        invariant
            0 <= i <= jac@.len(),
            forall|i2: int, k: int|
                0 <= i2 < i && 0 <= k < jac@[i2]@.len() ==> #[trigger] jac@[i2]@[k] == 0,
        decreases jac@.len() - i,
    {
        let row: &Vec<i64> = &jac[i];
        let mut k: usize = 0;
        while k < row.len()
            invariant
                0 <= i < jac@.len(),
                row@ == jac@[i as int]@,
                0 <= k <= row@.len(),
                forall|k2: int| 0 <= k2 < k ==> row@[k2] == 0,
            decreases row@.len() - k,
        {
            if row[k] != 0 {
                proof {
                    assert(jac@[i as int]@[k as int] != 0);
                }
                return false;
            }
            k = k + 1;
        }
        i = i + 1;
    }
    true
}

/// Least-squares solve of `jac * delta = err`, the linear-solver component
/// of the corrector.
///
/// Follows the shape of a Moore-Penrose pseudo-inverse built from the normal
/// equations: with fewer objectives than variables the right form
/// `transpose(J) * inverse(J * transpose(J)) * e` is used, otherwise the
/// left form `inverse(transpose(J) * J) * transpose(J) * e`, each inverse
/// taken by fixed-point Gauss-Jordan elimination with partial pivoting. A
/// sensitivity matrix of exact zeroes yields the zero correction, and a
/// system whose elimination degenerates or overflows the fixed-point range
/// surfaces as `SingularJacobian`.
///
/// For a diagonal normal system — independent variables driving disjoint
/// objectives — every returned component is pinned exactly: the scaled
/// quotient of its right-hand-side entry by its diagonal entry. For a
/// single-variable, single-objective problem success is owed exactly when
/// the normal entries and that quotient are representable.
pub fn solve_least_squares(jac: &Vec<Vec<i64>>, err: &Vec<i64>) -> (r: Result<
    Vec<i64>,
    TargetingError,
>)
    requires
        jac@.len() >= 1,
        err@.len() == jac@.len(),
        jac@[0]@.len() >= 1,
        rectangular(jac@, jac@[0]@.len() as int),
    ensures
        r matches Ok(delta) ==> delta@.len() == jac@[0]@.len(),
        all_zero(jac@) ==> (r matches Ok(delta) && (forall|j: int|
            0 <= j < delta@.len() ==> delta@[j] == 0)),
        ({
            let j00 = jac@[0]@[0] as int;
            let a00 = div_tz(j00 * j00, SCALE as int);
            let b0 = div_tz(j00 * (err@[0] as int), SCALE as int);
            (jac@.len() == 1 && jac@[0]@.len() == 1 && j00 != 0) ==> {
                &&& (r matches Ok(delta) ==> delta@[0] as int == (if a00 == 0 {
                    0int
                } else {
                    div_tz(b0 * (SCALE as int), a00)
                }))
                &&& (r is Ok <==> abs_int(a00) <= i64::MAX && abs_int(b0) <= i64::MAX && (a00 == 0
                    || abs_int(div_tz(b0 * (SCALE as int), a00)) <= i64::MAX))
            }
        }),
        (jac@.len() >= jac@[0]@.len() && normal_diagonal_spec(jac@, jac@[0]@.len() as int)) ==> (
        r matches Ok(delta) ==> (forall|i: int|
            0 <= i < jac@[0]@.len() ==> (#[trigger] delta@[i]) as int == normal_diag_solution_spec(
                jac@,
                err@,
                i,
            ))),
        r is Err ==> r == Err::<Vec<i64>, TargetingError>(TargetingError::SingularJacobian),
{
    let nrows: usize = jac.len();
    let ncols: usize = jac[0].len();
    if check_all_zero(jac) {
        proof {
            assert(jac@[0]@[0] == 0);
            assert forall|i: int| 0 <= i < ncols implies normal_diag_solution_spec(
                jac@,
                err@,
                i,
            ) == 0 by {
                assert forall|k: int|
                    0 <= k < column_pairs(jac@, i, i).len() implies (#[trigger] column_pairs(
                    jac@,
                    i,
                    i,
                )[k]).0 == 0 by {
                    assert(jac@[k]@[i] == 0);
                }
                lemma_dot_zero_left(column_pairs(jac@, i, i));
            }
        }
        let mut zeroes: Vec<i64> = Vec::new();
        let mut j: usize = 0;
        while j < ncols
            invariant
                0 <= j <= ncols,
                zeroes@.len() == j,
                forall|j2: int| 0 <= j2 < j ==> zeroes@[j2] == 0,
            decreases ncols - j,
        {
            zeroes.push(0);
            j = j + 1;
        }
        return Ok(zeroes);
    }
    let r: Result<Vec<i64>, TargetingError> = if nrows < ncols {
        solve_right(jac, err, nrows, ncols)
    } else {
        solve_left(jac, err, nrows, ncols)
    };
    match r {
        Ok(delta) => Ok(delta),
        Err(_) => Err(TargetingError::SingularJacobian),
    }
}

/// The right normal form, for fewer objectives than variables: solves
/// `(J * transpose(J)) * y = e`, then `delta = transpose(J) * y / SCALE`.
fn solve_right(jac: &Vec<Vec<i64>>, err: &Vec<i64>, nrows: usize, ncols: usize) -> (r: Result<
    Vec<i64>,
    TargetingError,
>)
    requires
        jac@.len() == nrows,
        err@.len() == nrows,
        nrows >= 1,
        jac@[0]@.len() == ncols,
        rectangular(jac@, ncols as int),
    ensures
        r matches Ok(delta) ==> delta@.len() == ncols,
{
    let mut a: Vec<Vec<i64>> = Vec::new();
    let mut i: usize = 0;
    while i < nrows
        invariant
            jac@.len() == nrows,
            jac@[0]@.len() == ncols,
            rectangular(jac@, ncols as int),
            0 <= i <= nrows,
            a@.len() == i,
            rectangular(a@, nrows as int),
        decreases nrows - i,
    {
        let mut row: Vec<i64> = Vec::new();
        let mut j: usize = 0;
        while j < nrows
            invariant
                jac@.len() == nrows,
                jac@[0]@.len() == ncols,
                rectangular(jac@, ncols as int),
                i < nrows,
                0 <= j <= nrows,
                row@.len() == j,
            decreases nrows - j,
        {
            let mut terms: Vec<(i64, i64)> = Vec::new();
            let mut k: usize = 0;
            while k < ncols
                invariant
                    jac@.len() == nrows,
                    jac@[0]@.len() == ncols,
                    rectangular(jac@, ncols as int),
                    i < nrows,
                    j < nrows,
                    0 <= k <= ncols,
                decreases ncols - k,
            {
                terms.push((jac[i][k], jac[j][k]));
                k = k + 1;
            }
            row.push(scaled_dot(&terms)?);
            j = j + 1;
        }
        a.push(row);
        i = i + 1;
    }
    let mut b: Vec<i64> = copy_row(err);
    let y: Vec<i64> = gauss_solve(&mut a, &mut b)?;
    // delta = transpose(J) * y / SCALE
    let mut delta: Vec<i64> = Vec::new();
    let mut j: usize = 0;
    while j < ncols
        invariant
            jac@.len() == nrows,
            jac@[0]@.len() == ncols,
            rectangular(jac@, ncols as int),
            y@.len() == nrows,
            0 <= j <= ncols,
            delta@.len() == j,
        decreases ncols - j,
    {
        let mut terms: Vec<(i64, i64)> = Vec::new();
        let mut k: usize = 0;
        while k < nrows
            invariant
                jac@.len() == nrows,
                rectangular(jac@, ncols as int),
                y@.len() == nrows,
                j < ncols,
                0 <= k <= nrows,
            decreases nrows - k,
        {
            terms.push((jac[k][j], y[k]));
            k = k + 1;
        }
        delta.push(scaled_dot(&terms)?);
        j = j + 1;
    }
    Ok(delta)
}

/// The left normal form, for at least as many objectives as variables:
/// solves `(transpose(J) * J) * delta = transpose(J) * e`.
fn solve_left(jac: &Vec<Vec<i64>>, err: &Vec<i64>, nrows: usize, ncols: usize) -> (r: Result<
    Vec<i64>,
    TargetingError,
>)
    requires
        jac@.len() == nrows,
        err@.len() == nrows,
        nrows >= 1,
        ncols >= 1,
        jac@[0]@.len() == ncols,
        rectangular(jac@, ncols as int),
    ensures
        r matches Ok(delta) ==> delta@.len() == ncols,
        ({
            let j00 = jac@[0]@[0] as int;
            let a00 = div_tz(j00 * j00, SCALE as int);
            let b0 = div_tz(j00 * (err@[0] as int), SCALE as int);
            (nrows == 1 && ncols == 1) ==> {
                &&& (r matches Ok(delta) ==> delta@[0] as int == (if a00 == 0 {
                    0int
                } else {
                    div_tz(b0 * (SCALE as int), a00)
                }))
                &&& (r is Ok <==> abs_int(a00) <= i64::MAX && abs_int(b0) <= i64::MAX && (a00 == 0
                    || abs_int(div_tz(b0 * (SCALE as int), a00)) <= i64::MAX))
            }
        }),
        normal_diagonal_spec(jac@, ncols as int) ==> (r matches Ok(delta) ==> (forall|i: int|
            0 <= i < ncols ==> (#[trigger] delta@[i]) as int == normal_diag_solution_spec(
                jac@,
                err@,
                i,
            ))),
{
    let mut a: Vec<Vec<i64>> = Vec::new();
    let mut i: usize = 0;
    while i < ncols
        invariant
            jac@.len() == nrows,
            jac@[0]@.len() == ncols,
            rectangular(jac@, ncols as int),
            err@.len() == nrows,
            0 <= i <= ncols,
            a@.len() == i,
            rectangular(a@, ncols as int),
            nrows == 1 && ncols == 1 && i == 1 ==> ({
                let a00 = div_tz((jac@[0]@[0] as int) * (jac@[0]@[0] as int), SCALE as int);
                a@[0]@[0] as int == a00 && abs_int(a00) <= i64::MAX
            }),
            forall|i2: int, j2: int|
                0 <= i2 < i && 0 <= j2 < ncols ==> (#[trigger] a@[i2]@[j2]) as int
                    == normal_entry_spec(jac@, i2, j2),
        decreases ncols - i,
    {
        let mut row: Vec<i64> = Vec::new();
        let mut j: usize = 0;
        while j < ncols
            invariant
                jac@.len() == nrows,
                jac@[0]@.len() == ncols,
                rectangular(jac@, ncols as int),
                i < ncols,
                0 <= j <= ncols,
                row@.len() == j,
                nrows == 1 && ncols == 1 && j == 1 ==> ({
                    let a00 = div_tz((jac@[0]@[0] as int) * (jac@[0]@[0] as int), SCALE as int);
                    row@[0] as int == a00 && abs_int(a00) <= i64::MAX
                }),
                forall|j2: int|
                    0 <= j2 < j ==> (#[trigger] row@[j2]) as int == normal_entry_spec(
                        jac@,
                        i as int,
                        j2,
                    ),
            decreases ncols - j,
        {
            let mut terms: Vec<(i64, i64)> = Vec::new();
            let mut k: usize = 0;
            while k < nrows
                invariant
                    jac@.len() == nrows,
                    rectangular(jac@, ncols as int),
                    i < ncols,
                    j < ncols,
                    0 <= k <= nrows,
                    terms@.len() == k,
                    forall|k2: int|
                        0 <= k2 < k ==> #[trigger] terms@[k2] == (
                            jac@[k2]@[i as int],
                            jac@[k2]@[j as int],
                        ),
                decreases nrows - k,
            {
                terms.push((jac[k][i], jac[k][j]));
                k = k + 1;
            }
            proof {
                assert(terms@ =~= column_pairs(jac@, i as int, j as int));
                if nrows == 1 && ncols == 1 {
                    assert(terms@.len() == 1);
                    assert(terms@.last() == (jac@[0]@[0], jac@[0]@[0]));
                    assert(terms@.drop_last() =~= Seq::<(i64, i64)>::empty());
                    assert(dot_spec(Seq::<(i64, i64)>::empty()) == 0);
                    assert(dot_spec(terms@) == (jac@[0]@[0] as int) * (jac@[0]@[0] as int));
                }
            }
            row.push(scaled_dot(&terms)?);
            j = j + 1;
        }
        a.push(row);
        i = i + 1;
    }
    let mut b: Vec<i64> = Vec::new();
    let mut i2: usize = 0;
    while i2 < ncols
        invariant
            jac@.len() == nrows,
            jac@[0]@.len() == ncols,
            rectangular(jac@, ncols as int),
            err@.len() == nrows,
            0 <= i2 <= ncols,
            b@.len() == i2,
            nrows == 1 && ncols == 1 && i2 == 1 ==> ({
                let b0 = div_tz((jac@[0]@[0] as int) * (err@[0] as int), SCALE as int);
                b@[0] as int == b0 && abs_int(b0) <= i64::MAX
            }),
            forall|i3: int|
                0 <= i3 < i2 ==> (#[trigger] b@[i3]) as int == normal_rhs_spec(jac@, err@, i3),
            forall|i2b: int, j2: int|
                0 <= i2b < ncols && 0 <= j2 < ncols ==> (#[trigger] a@[i2b]@[j2]) as int
                    == normal_entry_spec(jac@, i2b, j2),
            nrows == 1 && ncols == 1 ==> ({
                let a00 = div_tz((jac@[0]@[0] as int) * (jac@[0]@[0] as int), SCALE as int);
                a@[0]@[0] as int == a00 && abs_int(a00) <= i64::MAX
            }),
            a@.len() == ncols,
            rectangular(a@, ncols as int),
        decreases ncols - i2,
    {
        let mut terms: Vec<(i64, i64)> = Vec::new();
        let mut k: usize = 0;
        while k < nrows
            invariant
                jac@.len() == nrows,
                rectangular(jac@, ncols as int),
                err@.len() == nrows,
                i2 < ncols,
                0 <= k <= nrows,
                terms@.len() == k,
                forall|k2: int|
                    0 <= k2 < k ==> #[trigger] terms@[k2] == (jac@[k2]@[i2 as int], err@[k2]),
            decreases nrows - k,
        {
            terms.push((jac[k][i2], err[k]));
            k = k + 1;
        }
        proof {
            assert(terms@ =~= rhs_pairs(jac@, err@, i2 as int));
            if nrows == 1 && ncols == 1 {
                assert(terms@.len() == 1);
                assert(terms@.last() == (jac@[0]@[0], err@[0]));
                assert(terms@.drop_last() =~= Seq::<(i64, i64)>::empty());
                assert(dot_spec(Seq::<(i64, i64)>::empty()) == 0);
                assert(dot_spec(terms@) == (jac@[0]@[0] as int) * (err@[0] as int));
            }
        }
        b.push(scaled_dot(&terms)?);
        i2 = i2 + 1;
    }
    let ghost a_sys = a@;
    let ghost b_sys = b@;
    proof {
        if nrows == 1 && ncols == 1 {
            assert(diagonal_spec(a_sys));
        }
        if normal_diagonal_spec(jac@, ncols as int) {
            assert forall|i: int, j: int|
                0 <= i < a_sys.len() && 0 <= j < a_sys[i]@.len() && i != j implies a_sys[i]@[j]
                == 0 by {
                assert(a_sys[i]@[j] as int == normal_entry_spec(jac@, i, j));
            }
            assert(diagonal_spec(a_sys));
        }
    }
    let r: Result<Vec<i64>, TargetingError> = gauss_solve(&mut a, &mut b);
    proof {
        if nrows == 1 && ncols == 1 {
            if r is Ok {
                assert(diag_fits_spec(a_sys, b_sys, 0));
            } else {
                assert(!diag_fits_spec(a_sys, b_sys, 0));
            }
        }
        if normal_diagonal_spec(jac@, ncols as int) && r is Ok {
            let delta = r->Ok_0;
            assert forall|i: int| 0 <= i < ncols implies (#[trigger] delta@[i]) as int
                == normal_diag_solution_spec(jac@, err@, i) by {
                assert(delta@[i] as int == diag_solution_spec(a_sys, b_sys, i));
                assert(a_sys[i]@[i] as int == normal_entry_spec(jac@, i, i));
                assert(b_sys[i] as int == normal_rhs_spec(jac@, err@, i));
            }
        }
    }
    r
}

} // verus!
