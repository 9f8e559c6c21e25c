use vstd::prelude::*;

use crate::errors::TargetingError;
use crate::frames::{Dcm, LocalFrame, Vec3};
use crate::maneuver::Mnvr;
use crate::params::StateParameter;
use crate::state::Spacecraft;

verus! {

/// The first estimate of a finite burn standing in for an impulsive velocity
/// change, computed by the orbit collaborator: the steering angles and their
/// curvatures at the impulse (a coordinate conversion of the thrust
/// direction), and the burn time the rocket equation gives for the
/// spacecraft's thruster. Angles are fixed-point degrees, the duration a
/// count of microseconds.
#[derive(Clone, Copy, Debug, PartialEq, Eq, Structural)]
pub struct BurnSeed {
    pub alpha_deg: i64,
    pub alpha_ddot_deg: i64,
    pub beta_deg: i64,
    pub beta_ddot_deg: i64,
    pub duration_us: i64,
}

/// The external trajectory propagator and orbit collaborator, as narrow as
/// the corrector needs it. The corrector is verified against this interface
/// alone: every guarantee it makes holds for every implementation, so the
/// methods carry no contracts of their own.
///
/// Implementations must be deterministic for the idempotence of re-runs, and
/// cheap to call repeatedly: every Jacobian column costs one propagation.
pub trait Propagator: Sized {
    /// A propagated trajectory that can be sampled at an epoch.
    type Traj;

    /// Propagates a state to `epoch_us` and hands back the state there.
    fn propagate(&self, sc: &Spacecraft, epoch_us: i64) -> Result<Spacecraft, TargetingError>;

    /// Propagates a state to `epoch_us` under the maneuver's thrust-controlled
    /// dynamics. `max_step_us` clamps the integrator's step for this call
    /// alone, so no step straddles ignition or cutoff; the implementation's
    /// own step configuration must be restored afterwards on every path.
    fn propagate_with_control(
        &self,
        sc: &Spacecraft,
        epoch_us: i64,
        mnvr: &Mnvr,
        max_step_us: i64,
    ) -> Result<Spacecraft, TargetingError>;

    /// Propagates a state to `epoch_us` and also hands back the trajectory
    /// it traced, for later sampling.
    fn propagate_with_traj(&self, sc: &Spacecraft, epoch_us: i64) -> Result<
        (Spacecraft, Self::Traj),
        TargetingError,
    >;

    /// The state of a traced trajectory at `epoch_us`.
    fn traj_at(&self, traj: &Self::Traj, epoch_us: i64) -> Result<Spacecraft, TargetingError>;

    /// The direction-cosine matrix rotating the given local frame, taken at
    /// the state, into the inertial frame. The corrector verifies the bound
    /// on its entries before using it.
    fn dcm_from_frame(&self, sc: &Spacecraft, frame: LocalFrame) -> Result<Dcm, TargetingError>;

    /// The value of a derived (non-Cartesian) parameter of a state: a
    /// Keplerian element, a magnitude, or a B-plane coordinate computed from
    /// the forward-mode-differentiable form of the state. Never asked for a
    /// direct Cartesian component; the corrector reads those itself.
    fn derived_value(&self, sc: &Spacecraft, param: StateParameter) -> Result<
        i64,
        TargetingError,
    >;

    /// The finite-burn seed standing in for the impulsive velocity change
    /// `dv` applied at the state's epoch.
    fn burn_seed(&self, sc: &Spacecraft, dv: &Vec3) -> Result<BurnSeed, TargetingError>;
}

/// The achieved value of an objective's parameter on a terminal state: a
/// Cartesian component is read directly off the state, with its exact value
/// guaranteed; any other parameter is computed by the collaborator, and only
/// its success or failure is visible here.
pub fn objective_value<P: Propagator>(prop: &P, sc: &Spacecraft, param: StateParameter) -> (r:
    Result<i64, TargetingError>)
    ensures
        param.is_direct_spec() ==> r == Ok::<i64, TargetingError>(
            crate::state::direct_value_spec(*sc, param).unwrap(),
        ),
{
    match sc.value(param) {
        Some(v) => Ok(v),
        None => prop.derived_value(sc, param),
    }
}

} // verus!
