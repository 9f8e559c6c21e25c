use vstd::prelude::*;

use crate::arith::{checked_add, checked_diff, checked_div_i128, norm_sq, SCALE};
use crate::errors::TargetingError;
use crate::frames::{LocalFrame, Vec3};
use crate::maneuver::Mnvr;
use crate::objective::{assess_objectives, Objective, DEFAULT_TOLERANCE};
use crate::params::StateParameter;
use crate::polynomial::QuadraticPolynomial;
use crate::propagator::{BurnSeed, Propagator};
use crate::solver::{rectangular, solve_least_squares};
use crate::state::{GuidanceMode, Spacecraft};
use crate::targeter::{clamp_correction, stagnated, Optimizer};
use crate::variable::{Variable, Vary};

verus! {

/// The iteration budget of the impulsive-to-finite-burn conversion.
pub const MAX_IMPULSIVE_ITERATIONS: u32 = 5;

/// The eight free parameters the conversion adjusts: the six steering
/// coefficients, the ignition epoch and the burn duration — every one a
/// maneuver parameter.
fn impulsive_variables(seed: &BurnSeed) -> (r: Vec<Variable>)
    ensures
        r@.len() == 8,
        forall|j: int|
            0 <= j < 8 ==> (#[trigger] r@[j]).component.is_finite_burn_spec()
                && r@[j].valid_spec(),
{
    let mut vars: Vec<Variable> = Vec::new();
    vars.push(Variable::new(Vary::MnvrAlpha).with_initial_guess(seed.alpha_deg));
    vars.push(Variable::new(Vary::MnvrAlphaDot));
    vars.push(Variable::new(Vary::MnvrAlphaDDot).with_initial_guess(seed.alpha_ddot_deg));
    vars.push(Variable::new(Vary::MnvrBeta).with_initial_guess(seed.beta_deg));
    vars.push(Variable::new(Vary::MnvrBetaDot));
    vars.push(Variable::new(Vary::MnvrBetaDDot).with_initial_guess(seed.beta_ddot_deg));
    vars.push(Variable::new(Vary::StartEpoch));
    vars.push(Variable::new(Vary::Duration));
    vars
}

/// The six Cartesian objectives matching a desired terminal state, each with
/// the default tolerance.
fn cartesian_objectives(desired: &Spacecraft) -> (r: Vec<Objective>)
    ensures
        r@.len() == 6,
        forall|i: int| 0 <= i < 6 ==> (#[trigger] r@[i]).tolerance == DEFAULT_TOLERANCE,
        r@[0].desired_value == desired.orbit.x,
        r@[1].desired_value == desired.orbit.y,
        r@[2].desired_value == desired.orbit.z,
        r@[3].desired_value == desired.orbit.vx,
        r@[4].desired_value == desired.orbit.vy,
        r@[5].desired_value == desired.orbit.vz,
{
    let mut objectives: Vec<Objective> = Vec::new();
    objectives.push(Objective::new(StateParameter::X, desired.orbit.x));
    objectives.push(Objective::new(StateParameter::Y, desired.orbit.y));
    objectives.push(Objective::new(StateParameter::Z, desired.orbit.z));
    objectives.push(Objective::new(StateParameter::VX, desired.orbit.vx));
    objectives.push(Objective::new(StateParameter::VY, desired.orbit.vy));
    objectives.push(Objective::new(StateParameter::VZ, desired.orbit.vz));
    objectives
}

/// The six Cartesian components of a terminal state, in objective order.
fn cartesian_achieved(sc: &Spacecraft) -> (r: Vec<i64>)
    ensures
        r@.len() == 6,
        r@[0] == sc.orbit.x && r@[1] == sc.orbit.y && r@[2] == sc.orbit.z,
        r@[3] == sc.orbit.vx && r@[4] == sc.orbit.vy && r@[5] == sc.orbit.vz,
{
    let mut achieved: Vec<i64> = Vec::new();
    achieved.push(sc.orbit.x);
    achieved.push(sc.orbit.y);
    achieved.push(sc.orbit.z);
    achieved.push(sc.orbit.vx);
    achieved.push(sc.orbit.vy);
    achieved.push(sc.orbit.vz);
    achieved
}

impl<'a, P: Propagator> Optimizer<'a, P> {
    /// Converts an impulsive velocity change into a finite-burn maneuver
    /// whose burn reproduces the post-impulse trajectory: the collaborator
    /// seeds the steering angles and burn time, and a Newton loop over the
    /// eight maneuver parameters drives the end-of-burn state onto the
    /// post-impulse trajectory within tolerance.
    ///
    /// `spacecraft` must be the state before the velocity change is applied;
    /// without a thruster the conversion is rejected before any propagation.
    #[verifier::loop_isolation(false)]
    pub fn convert_impulsive_mnvr(spacecraft: Spacecraft, dv: Vec3, prop: &P) -> (r: Result<
        Mnvr,
        TargetingError,
    >)
        ensures
            spacecraft.thruster is None <==> r == Err::<Mnvr, TargetingError>(
                TargetingError::NoThrusterAvailable,
            ),
            r matches Ok(m) ==> m.thrust_lvl == SCALE && m.frame == LocalFrame::RCN,
    {
        if spacecraft.thruster.is_none() {
            return Err(TargetingError::NoThrusterAvailable);
        }

        // The first estimate of the burn: steering angles and duration.
        let seed: BurnSeed = match prop.burn_seed(&spacecraft, &dv) {
            Ok(s) => s,
            Err(_) => {
                return Err(TargetingError::Propagation);
            },
        };
        let impulse_epoch_us: i64 = spacecraft.orbit.epoch_us;
        let half_burn_us: i64 = checked_div_i128(seed.duration_us as i128, 2)?;
        let start_us: i64 = checked_diff(impulse_epoch_us, half_burn_us)?;
        let end_us: i64 = checked_add(impulse_epoch_us, half_burn_us)?;
        let mut mnvr: Mnvr = Mnvr {
            start_us,
            end_us,
            thrust_lvl: SCALE,
            alpha_inplane_deg: QuadraticPolynomial {
                value: seed.alpha_deg,
                rate: 0,
                curvature: seed.alpha_ddot_deg,
            },
            beta_outofplane_deg: QuadraticPolynomial {
                value: seed.beta_deg,
                rate: 0,
                curvature: seed.beta_ddot_deg,
            },
            frame: LocalFrame::RCN,
        };

        // The trajectory before the impulse, and the desired trajectory
        // after it, each sampled as the window moves.
        let two_burns_us: i64 = checked_add(half_burn_us, half_burn_us)?;
        let two_burns_us: i64 = checked_add(two_burns_us, two_burns_us)?;
        let pre_epoch_us: i64 = checked_diff(impulse_epoch_us, two_burns_us)?;
        let post_epoch_us: i64 = checked_add(impulse_epoch_us, two_burns_us)?;
        let pre_sc: Spacecraft = match prop.propagate(&spacecraft, pre_epoch_us) {
            Ok(s) => s,
            Err(_) => {
                return Err(TargetingError::Propagation);
            },
        };
        let pre_traj: P::Traj = match prop.propagate_with_traj(&pre_sc, impulse_epoch_us) {
            Ok((_, t)) => t,
            Err(_) => {
                return Err(TargetingError::Propagation);
            },
        };
        let post_start: Spacecraft = spacecraft.with_dv_km_s(&dv)?;
        let post_traj: P::Traj = match prop.propagate_with_traj(&post_start, post_epoch_us) {
            Ok((_, t)) => t,
            Err(_) => {
                return Err(TargetingError::Propagation);
            },
        };

        let variables: Vec<Variable> = impulsive_variables(&seed);

        let mut sc_x0: Spacecraft = match prop.traj_at(&pre_traj, mnvr.start_us) {
            Ok(s) => s,
            Err(_) => {
                return Err(TargetingError::Propagation);
            },
        };
        let mut sc_xf_desired: Spacecraft = match prop.traj_at(&post_traj, mnvr.end_us) {
            Ok(s) => s,
            Err(_) => {
                return Err(TargetingError::Propagation);
            },
        };
        let mut objectives: Vec<Objective> = cartesian_objectives(&sc_xf_desired);

        let mut prev_norm_sq: Option<u128> = None;
        let mut it: u64 = 0;
        while it <= MAX_IMPULSIVE_ITERATIONS as u64
            invariant
                objectives@.len() == 6,
                mnvr.thrust_lvl == SCALE,
                mnvr.frame == LocalFrame::RCN,
            decreases MAX_IMPULSIVE_ITERATIONS as int + 1 - it,
        {
            // Propagate under the estimated burn to the end of the window.
            let window_us: i64 = mnvr.duration_us()?;
            let thrusting: Spacecraft = sc_x0.with_guidance_mode(GuidanceMode::Thrust);
            let sc_xf_achieved: Spacecraft = match prop.propagate_with_control(
                &thrusting,
                mnvr.end_us,
                &mnvr,
                window_us,
            ) {
                Ok(s) => s,
                Err(_) => {
                    return Err(TargetingError::Propagation);
                },
            };

            let achieved: Vec<i64> = cartesian_achieved(&sc_xf_achieved);
            let (errors, converged) = assess_objectives(&objectives, &achieved)?;
            if converged {
                return Ok(mnvr);
            }

            let norm_now: u128 = norm_sq(&errors)?;
            if stagnated(prev_norm_sq, norm_now) {
                return Err(TargetingError::CorrectionIneffective);
            }
            prev_norm_sq = Some(norm_now);

            // Sensitivity of each Cartesian objective to each of the eight
            // maneuver parameters, by independent finite differencing from
            // the pre-impulse trajectory.
            let mut jac: Vec<Vec<i64>> = Vec::new();
            let mut i: usize = 0;
            while i < 6
                invariant
                    0 <= i <= 6,
                    jac@.len() == i,
                    rectangular(jac@, 8),
                decreases 6 - i,
            {
                let mut row: Vec<i64> = Vec::new();
                let mut j: usize = 0;
                while j < 8
                    invariant
                        i < 6,
                        0 <= j <= 8,
                        row@.len() == j,
                    decreases 8 - j,
                {
                    let var: Variable = variables[j];
                    let this_mnvr: Mnvr = mnvr.apply_perturbation(var.component, var.perturbation)?;
                    let this_x0: Spacecraft = match prop.traj_at(&pre_traj, this_mnvr.start_us) {
                        Ok(s) => s,
                        Err(_) => {
                            return Err(TargetingError::Propagation);
                        },
                    };
                    let this_window_us: i64 = this_mnvr.duration_us()?;
                    let this_xf: Spacecraft = match prop.propagate_with_control(
                        &this_x0.with_guidance_mode(GuidanceMode::Thrust),
                        this_mnvr.end_us,
                        &this_mnvr,
                        this_window_us,
                    ) {
                        Ok(s) => s,
                        Err(_) => {
                            return Err(TargetingError::Propagation);
                        },
                    };
                    let trial: Vec<i64> = cartesian_achieved(&this_xf);
                    let entry: i64 = crate::arith::checked_scaled_div(
                        trial[i],
                        achieved[i],
                        var.perturbation,
                    )?;
                    row.push(entry);
                    j = j + 1;
                }
                jac.push(row);
                i = i + 1;
            }

            let delta: Vec<i64> = solve_least_squares(&jac, &errors)?;

            // Clamp each component and fold it into the maneuver; a moved
            // window re-anchors the start state and the desired state.
            let mut update_obj: bool = false;
            let mut cj: usize = 0;
            while cj < 8
                invariant
                    delta@.len() == 8,
                    0 <= cj <= 8,
                    mnvr.thrust_lvl == SCALE,
                    mnvr.frame == LocalFrame::RCN,
                decreases 8 - cj,
            {
                let var: Variable = variables[cj];
                let corr: i64 = clamp_correction(
                    delta[cj],
                    var.max_step,
                    var.min_value,
                    var.max_value,
                );
                mnvr = mnvr.apply_correction(var.component, corr)?;
                if matches!(var.component, Vary::StartEpoch | Vary::EndEpoch | Vary::Duration) {
                    update_obj = true;
                }
                cj = cj + 1;
            }

            if update_obj {
                sc_x0 = match prop.traj_at(&pre_traj, mnvr.start_us) {
                    Ok(s) => s,
                    Err(_) => {
                        return Err(TargetingError::Propagation);
                    },
                };
                sc_xf_desired = match prop.traj_at(&post_traj, mnvr.end_us) {
                    Ok(s) => s,
                    Err(_) => {
                        return Err(TargetingError::Propagation);
                    },
                };
                objectives = cartesian_objectives(&sc_xf_desired);
            }
            it = it + 1;
        }
        Err(
            TargetingError::MaxIterationsReached {
                last_error_norm_sq: match prev_norm_sq {
                    Some(n) => n,
                    None => 0,
                },
            },
        )
    }
}

} // verus!
