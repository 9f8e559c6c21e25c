use vstd::prelude::*;

use crate::arith::{abs_int, checked_diff, fits_i64};
use crate::errors::TargetingError;
use crate::params::StateParameter;

verus! {

/// Default absolute tolerance of a new objective: one thousandth of a unit.
pub const DEFAULT_TOLERANCE: i64 = 1000;

/// A desired terminal value with an absolute tolerance.
///
/// Invariant: `tolerance > 0`. The error of an achieved value is
/// `desired_value - achieved`, and the objective is met when the error
/// magnitude is at most `tolerance`.
#[derive(Clone, Copy, Debug, PartialEq, Eq, Structural)]
pub struct Objective {
    pub parameter: StateParameter,
    pub desired_value: i64,
    pub tolerance: i64,
}

/// The signed error of an achieved value against a desired one.
pub open spec fn error_spec(desired: int, achieved: int) -> int {
    desired - achieved
}

/// Whether every error meets its objective's tolerance: the convergence
/// criterion of the corrector.
pub open spec fn all_within_tolerance(objectives: Seq<Objective>, errors: Seq<i64>) -> bool
    recommends
        objectives.len() == errors.len(),
{
    forall|i: int|
        0 <= i < objectives.len() ==> abs_int(#[trigger] errors[i] as int)
            <= objectives[i].tolerance
}

impl Objective {
    /// An objective with the default tolerance.
    pub fn new(parameter: StateParameter, desired_value: i64) -> (r: Objective)
        ensures
            r == (Objective { parameter, desired_value, tolerance: DEFAULT_TOLERANCE }),
    {
        Objective { parameter, desired_value, tolerance: DEFAULT_TOLERANCE }
    }

    /// An objective with an explicit tolerance.
    pub fn within_tolerance(parameter: StateParameter, desired_value: i64, tolerance: i64) -> (r:
        Objective)
        ensures
            r == (Objective { parameter, desired_value, tolerance }),
    {
        Objective { parameter, desired_value, tolerance }
    }

    /// Whether the objective respects its own invariant.
    pub open spec fn valid_spec(self) -> bool {
        self.tolerance > 0
    }

    /// Checks the objective's invariant: a strictly positive tolerance.
    pub fn valid(&self) -> (r: bool)
        ensures
            r == self.valid_spec(),
    {
        self.tolerance > 0
    }

    /// Assesses an achieved value: the signed error and whether it is within
    /// tolerance.
    pub fn assess_raw(&self, achieved: i64) -> (r: Result<(bool, i64), TargetingError>)
        ensures
            r matches Ok((ok, e)) ==> {
                &&& e == error_spec(self.desired_value as int, achieved as int)
                &&& (ok <==> abs_int(e as int) <= self.tolerance)
            },
            r is Ok <==> fits_i64(self.desired_value - achieved),
            r is Err ==> r == Err::<(bool, i64), TargetingError>(TargetingError::ValueOutOfRange),
    {
        let e: i64 = checked_diff(self.desired_value, achieved)?;
        let ok: bool = if e >= 0 {
            e <= self.tolerance
        } else {
            -(e as i128) <= self.tolerance as i128
        };
        Ok((ok, e))
    }
}

/// Assesses every objective against its achieved value: the error vector and
/// the convergence flag, which holds exactly when every error magnitude is
/// within its objective's tolerance.
pub fn assess_objectives(objectives: &Vec<Objective>, achieved: &Vec<i64>) -> (r: Result<
    (Vec<i64>, bool),
    TargetingError,
>)
    requires
        objectives@.len() == achieved@.len(),
    ensures
        r matches Ok((errors, converged)) ==> {
            &&& errors@.len() == objectives@.len()
            &&& forall|i: int|
                0 <= i < objectives@.len() ==> #[trigger] errors@[i] as int == error_spec(
                    objectives@[i].desired_value as int,
                    achieved@[i] as int,
                )
            &&& (converged <==> all_within_tolerance(objectives@, errors@))
        },
        r is Err ==> r == Err::<(Vec<i64>, bool), TargetingError>(TargetingError::ValueOutOfRange),
{
    let mut errors: Vec<i64> = Vec::new();
    let mut i: usize = 0;
    while i < objectives.len()
        invariant
            objectives@.len() == achieved@.len(),
            0 <= i <= objectives@.len(),
            errors@.len() == i,
            forall|j: int|
                0 <= j < i ==> #[trigger] errors@[j] as int == error_spec(
                    objectives@[j].desired_value as int,
                    achieved@[j] as int,
                ),
        decreases objectives@.len() - i,
    {
        let (_, e) = match objectives[i].assess_raw(achieved[i]) {
            Ok(p) => p,
            Err(err) => {
                return Err(err);
            },
        };
        errors.push(e);
        i = i + 1;
    }
    let converged: bool = check_convergence(objectives, &errors);
    Ok((errors, converged))
}

/// Checks the convergence criterion: every error magnitude within its
/// objective's tolerance.
pub fn check_convergence(objectives: &Vec<Objective>, errors: &Vec<i64>) -> (r: bool)
    requires
        objectives@.len() == errors@.len(),
    ensures
        r <==> all_within_tolerance(objectives@, errors@),
{
    let mut i: usize = 0;
    while i < objectives.len()
        invariant
            objectives@.len() == errors@.len(),
            0 <= i <= objectives@.len(),
            forall|j: int|
                0 <= j < i ==> abs_int(#[trigger] errors@[j] as int) <= objectives@[j].tolerance,
        decreases objectives@.len() - i,
    {
        let e: i64 = errors[i];
        let within: bool = if e >= 0 {
            e <= objectives[i].tolerance
        } else {
            -(e as i128) <= objectives[i].tolerance as i128
        };
        if !within {
            return false;
        }
        i = i + 1;
    }
    true
}

} // verus!
