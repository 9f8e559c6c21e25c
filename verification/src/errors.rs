use vstd::prelude::*;

verus! {

/// The reasons a targeting run terminates without a solution.
///
/// Every kind is terminal for the current run: nothing is retried
/// automatically, the caller decides whether to relax tolerances, change the
/// variables, or retry from a different initial guess.
#[derive(Clone, Copy, Debug, PartialEq, Eq, Structural)]
pub enum TargetingError {
    /// The objective set is empty: nothing constrains the problem.
    UnderdeterminedProblem,
    /// A variable breaks its own invariant (disordered bounds or a zero
    /// finite-difference perturbation).
    InvalidVariable,
    /// A variable addresses a Cartesian position component while the
    /// correction is expressed in a velocity-relative local frame, or the
    /// frame rotation handed back by the orbit collaborator is not a
    /// direction-cosine matrix.
    FrameError,
    /// A finite-burn target was requested on a state that carries no
    /// thruster configuration.
    NoThrusterAvailable,
    /// The least-squares solver could not produce a pseudo-inverse of the
    /// sensitivity matrix.
    SingularJacobian,
    /// The squared norm of the objective error vector did not change between
    /// two successive iterations: further corrections are ineffective.
    CorrectionIneffective,
    /// The iteration budget was exhausted before every objective was met;
    /// carries the squared norm of the last error vector for diagnostics.
    MaxIterationsReached { last_error_norm_sq: u128 },
    /// A fixed-point value left the representable range during the run.
    ValueOutOfRange,
    /// The external propagator reported a failure.
    Propagation,
}

} // verus!
