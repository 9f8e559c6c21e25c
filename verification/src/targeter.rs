use vstd::prelude::*;

use crate::arith::{abs_int, checked_add, checked_scaled_div, copy_vec, norm_sq};
use crate::clock::{instant_now, micros_since};
use crate::errors::TargetingError;
use crate::frames::{Dcm, LocalFrame};
use crate::maneuver::Mnvr;
use crate::objective::{all_within_tolerance, assess_objectives, Objective};
use crate::propagator::{objective_value, Propagator};
use crate::solver::{rectangular, solve_least_squares};
use crate::state::{direct_value_spec, GuidanceMode, Spacecraft, StateDelta};
use crate::variable::Variable;

verus! {

/// How many Newton iterations a targeter attempts by default.
pub const DEFAULT_ITERATIONS: u32 = 100;

/// The terminal output of a converged run. Immutable once produced.
#[derive(Clone, Debug)]
pub struct TargeterSolution {
    /// The initial state with the total correction applied.
    pub corrected_state: Spacecraft,
    /// The terminal state the corrected trajectory achieves.
    pub achieved_state: Spacecraft,
    /// The total correction, one component per variable.
    pub correction: Vec<i64>,
    /// Wall time the run took, in microseconds. Diagnostic only.
    pub computation_dur_us: u64,
    /// The variables the run adjusted.
    pub variables: Vec<Variable>,
    /// The final error of each objective, all within tolerance.
    pub achieved_errors: Vec<i64>,
    /// The objectives the run met.
    pub achieved_objectives: Vec<Objective>,
    /// How many correction iterations were spent before convergence.
    pub iterations: u32,
}

/// The first reason the problem setup is rejected, or nothing: each variable
/// is held to its own invariant, then to the rule that a velocity-relative
/// local frame cannot express a position correction, then to the rule that a
/// finite-burn target needs a thruster. All of this is decided before any
/// propagation is attempted.
pub open spec fn validation_error_spec(
    vars: Seq<Variable>,
    has_frame: bool,
    has_thruster: bool,
) -> Option<TargetingError>
    decreases vars.len(),
{
    if vars.len() == 0 {
        None
    } else {
        let v = vars[0];
        if !v.valid_spec() {
            Some(TargetingError::InvalidVariable)
        } else if has_frame && v.component.is_position_spec() {
            Some(TargetingError::FrameError)
        } else if v.component.is_finite_burn_spec() && !has_thruster {
            Some(TargetingError::NoThrusterAvailable)
        } else {
            validation_error_spec(vars.drop_first(), has_frame, has_thruster)
        }
    }
}

/// Validation reports only its three own kinds.
pub proof fn lemma_validation_kinds(vars: Seq<Variable>, has_frame: bool, has_thruster: bool)
    ensures
        (match validation_error_spec(vars, has_frame, has_thruster) {
            Some(e) => e is InvalidVariable || e is FrameError || e is NoThrusterAvailable,
            None => true,
        }),
    decreases vars.len(),
{
    if vars.len() > 0 {
        lemma_validation_kinds(vars.drop_first(), has_frame, has_thruster);
    }
}

/// A validated variable set holds only variables that respect their own
/// invariant.
pub proof fn lemma_validated_vars_valid(vars: Seq<Variable>, has_frame: bool, has_thruster: bool)
    requires
        validation_error_spec(vars, has_frame, has_thruster) is None,
    ensures
        forall|i: int| 0 <= i < vars.len() ==> (#[trigger] vars[i]).valid_spec(),
    decreases vars.len(),
{
    if vars.len() > 0 {
        lemma_validated_vars_valid(vars.drop_first(), has_frame, has_thruster);
        assert forall|i: int| 0 <= i < vars.len() implies (#[trigger] vars[i]).valid_spec() by {
            if i > 0 {
                assert(vars[i] == vars.drop_first()[i - 1]);
            }
        }
    }
}

/// Whether any variable makes this a finite-burn problem.
pub open spec fn has_finite_burn_spec(vars: Seq<Variable>) -> bool {
    exists|i: int| 0 <= i < vars.len() && (#[trigger] vars[i]).component.is_finite_burn_spec()
}

/// One iteration's correction component after the step policy: the raw step
/// is clamped to `[-|max_step|, |max_step|]` first, and the result to
/// `[min_value, max_value]`.
pub open spec fn clamp_spec(raw: int, max_step: int, min_value: int, max_value: int) -> int {
    let ms = abs_int(max_step);
    let stepped = if raw > ms {
        ms
    } else if raw < -ms {
        -ms
    } else {
        raw
    };
    if stepped > max_value {
        max_value
    } else if stepped < min_value {
        min_value
    } else {
        stepped
    }
}

/// Clamps one raw correction component to the per-iteration step limit, then
/// to the variable's admissible interval.
pub fn clamp_correction(raw: i64, max_step: i64, min_value: i64, max_value: i64) -> (r: i64)
    requires
        min_value <= max_value,
    ensures
        r == clamp_spec(raw as int, max_step as int, min_value as int, max_value as int),
{
    let ms: i128 = if max_step < 0 {
        -(max_step as i128)
    } else {
        max_step as i128
    };
    let stepped: i64 = if raw as i128 > ms {
        ms as i64
    } else if (raw as i128) < -ms {
        (-ms) as i64
    } else {
        raw
    };
    if stepped > max_value {
        max_value
    } else if stepped < min_value {
        min_value
    } else {
        stepped
    }
}

/// Every applied correction component lies within the variable's admissible
/// interval; and whenever that interval overlaps the step window
/// `[-|max_step|, |max_step|]`, the component also lies within the step
/// window.
pub proof fn lemma_clamp_within_bounds(raw: int, max_step: int, min_value: int, max_value: int)
    requires
        min_value <= max_value,
    ensures
        min_value <= clamp_spec(raw, max_step, min_value, max_value) <= max_value,
        (min_value <= abs_int(max_step) && -abs_int(max_step) <= max_value) ==> -abs_int(max_step)
            <= clamp_spec(raw, max_step, min_value, max_value) <= abs_int(max_step),
{
}

/// Whether the squared error norm repeated itself: the stagnation criterion.
/// Further corrections are ineffective exactly when the squared norm of the
/// error vector equals the previous iteration's.
pub fn stagnated(prev_norm_sq: Option<u128>, norm_sq_now: u128) -> (r: bool)
    ensures
        r <==> prev_norm_sq == Some(norm_sq_now),
{
    match prev_norm_sq {
        Some(p) => p == norm_sq_now,
        None => false,
    }
}

/// The differential corrector: consumes variables, objectives, an optional
/// local correction frame and a propagator handle, and drives a Newton-type
/// loop until the achieved terminal state matches every objective within
/// tolerance.
pub struct Targeter<'a, P: Propagator> {
    /// The external propagator the run re-integrates trajectories with.
    pub prop: &'a P,
    /// The free parameters the corrector may adjust.
    pub variables: Vec<Variable>,
    /// The desired terminal conditions. Must be non-empty.
    pub objectives: Vec<Objective>,
    /// The local frame corrections are expressed in, if any.
    pub correction_frame: Option<LocalFrame>,
    /// The iteration budget.
    pub iterations: u32,
}

/// The second name of the corrector, under which the impulsive-to-finite
/// conversion is exposed.
pub type Optimizer<'a, P> = Targeter<'a, P>;

impl<'a, P: Propagator> Targeter<'a, P> {
    /// A corrector applying corrections to the Cartesian components
    /// directly.
    pub fn new(prop: &'a P, variables: Vec<Variable>, objectives: Vec<Objective>) -> (r: Self)
        ensures
            r.prop == prop,
            r.variables == variables,
            r.objectives == objectives,
            r.correction_frame is None,
            r.iterations == DEFAULT_ITERATIONS,
    {
        Targeter { prop, variables, objectives, correction_frame: None, iterations: DEFAULT_ITERATIONS }
    }

    /// A corrector applying corrections expressed in a local frame.
    pub fn in_frame(
        prop: &'a P,
        variables: Vec<Variable>,
        objectives: Vec<Objective>,
        frame: LocalFrame,
    ) -> (r: Self)
        ensures
            r.prop == prop,
            r.variables == variables,
            r.objectives == objectives,
            r.correction_frame == Some(frame),
            r.iterations == DEFAULT_ITERATIONS,
    {
        Targeter {
            prop,
            variables,
            objectives,
            correction_frame: Some(frame),
            iterations: DEFAULT_ITERATIONS,
        }
    }

    /// Checks the problem setup, before any propagation: every variable's
    /// own invariant, the position-in-local-frame rule, and the thruster
    /// requirement of finite-burn variables.
    pub fn validate(&self, has_thruster: bool) -> (r: Option<TargetingError>)
        ensures
            r == validation_error_spec(
                self.variables@,
                self.correction_frame is Some,
                has_thruster,
            ),
    {
        let has_frame: bool = self.correction_frame.is_some();
        let ghost vars = self.variables@;
        proof {
            assert(vars.skip(0) =~= vars);
        }
        let mut i: usize = 0;
        while i < self.variables.len()
            invariant
                vars == self.variables@,
                0 <= i <= vars.len(),
                validation_error_spec(vars, has_frame, has_thruster) == validation_error_spec(
                    vars.skip(i as int),
                    has_frame,
                    has_thruster,
                ),
                has_frame == self.correction_frame is Some,
            decreases vars.len() - i,
        {
            let var: Variable = self.variables[i];
            proof {
                assert(vars.skip(i as int)[0] == vars[i as int]);
                assert(vars.skip(i as int).drop_first() =~= vars.skip(i as int + 1));
            }
            if !var.valid() {
                return Some(TargetingError::InvalidVariable);
            }
            if has_frame && var.component.is_position() {
                return Some(TargetingError::FrameError);
            }
            if var.component.is_finite_burn() && !has_thruster {
                return Some(TargetingError::NoThrusterAvailable);
            }
            i = i + 1;
        }
        proof {
            assert(vars.skip(vars.len() as int) =~= Seq::<Variable>::empty());
        }
        None
    }

    /// Whether any variable makes this a finite-burn target.
    pub fn is_finite_burn_target(&self) -> (r: bool)
        ensures
            r == has_finite_burn_spec(self.variables@),
    {
        let mut i: usize = 0;
        while i < self.variables.len()
            invariant
                0 <= i <= self.variables@.len(),
                forall|j: int|
                    0 <= j < i ==> !(#[trigger] self.variables@[j]).component.is_finite_burn_spec(),
            decreases self.variables@.len() - i,
        {
            if self.variables[i].component.is_finite_burn() {
                return true;
            }
            i = i + 1;
        }
        false
    }

    /// Applies a six-component correction to a state: rotated from the
    /// declared local frame into inertial space through the collaborator's
    /// direction-cosine matrix when a frame is declared (only the velocity
    /// half; position corrections are rejected at validation), else applied
    /// directly to the Cartesian components.
    fn apply_state_delta(&self, sc: &Spacecraft, delta: &StateDelta) -> (r: Result<
        Spacecraft,
        TargetingError,
    >)
        ensures
            self.correction_frame is None ==> (r matches Ok(sc2) ==> {
                &&& sc2.orbit.x == sc.orbit.x + delta.x
                &&& sc2.orbit.y == sc.orbit.y + delta.y
                &&& sc2.orbit.z == sc.orbit.z + delta.z
                &&& sc2.orbit.vx == sc.orbit.vx + delta.vx
                &&& sc2.orbit.vy == sc.orbit.vy + delta.vy
                &&& sc2.orbit.vz == sc.orbit.vz + delta.vz
                &&& sc2 == (Spacecraft { orbit: sc2.orbit, ..*sc })
                &&& sc2.orbit.epoch_us == sc.orbit.epoch_us
            }),
            self.correction_frame is Some ==> (r matches Ok(sc2) ==> {
                &&& sc2.orbit.x == sc.orbit.x && sc2.orbit.y == sc.orbit.y && sc2.orbit.z
                    == sc.orbit.z
                &&& sc2.orbit.epoch_us == sc.orbit.epoch_us
                &&& sc2 == (Spacecraft { orbit: sc2.orbit, ..*sc })
            }),
            r is Err ==> (r == Err::<Spacecraft, TargetingError>(TargetingError::ValueOutOfRange)
                || r == Err::<Spacecraft, TargetingError>(TargetingError::FrameError)),
    {
        match self.correction_frame {
            Some(frame) => {
                let dcm: Dcm = match self.prop.dcm_from_frame(sc, frame) {
                    Ok(d) => d,
                    Err(_) => {
                        return Err(TargetingError::FrameError);
                    },
                };
                if !dcm.check_unit_bounded() {
                    return Err(TargetingError::FrameError);
                }
                let vel = dcm.apply(&delta.velocity())?;
                let orbit = sc.orbit.apply_dv(&vel)?;
                Ok(Spacecraft { orbit, ..*sc })
            },
            None => {
                let orbit = sc.orbit.with_delta(delta)?;
                Ok(Spacecraft { orbit, ..*sc })
            },
        }
    }

    /// Propagates a trial state to the achievement epoch: directly for a
    /// state-space problem; for a finite-burn target in three phases — coast
    /// to ignition, thrust-controlled propagation across the burn window
    /// with the step clamped to the window so no step straddles ignition or
    /// cutoff, then coast to the achievement epoch.
    fn propagate_to_achievement(
        &self,
        sc: &Spacecraft,
        mnvr: &Mnvr,
        finite_burn: bool,
        achievement_epoch_us: i64,
    ) -> (r: Result<Spacecraft, TargetingError>)
        ensures
            r is Err ==> (r == Err::<Spacecraft, TargetingError>(TargetingError::Propagation) || r
                == Err::<Spacecraft, TargetingError>(TargetingError::ValueOutOfRange)),
    {
        if !finite_burn {
            return match self.prop.propagate(sc, achievement_epoch_us) {
                Ok(s) => Ok(s),
                Err(_) => Err(TargetingError::Propagation),
            };
        }
        let pre = match self.prop.propagate(sc, mnvr.start_us) {
            Ok(s) => s,
            Err(_) => {
                return Err(TargetingError::Propagation);
            },
        };
        let window_us: i64 = mnvr.duration_us()?;
        let thrusting = pre.with_guidance_mode(GuidanceMode::Thrust);
        let post = match self.prop.propagate_with_control(
            &thrusting,
            mnvr.end_us,
            mnvr,
            window_us,
        ) {
            Ok(s) => s,
            Err(_) => {
                return Err(TargetingError::Propagation);
            },
        };
        match self.prop.propagate(&post, achievement_epoch_us) {
            Ok(s) => Ok(s),
            Err(_) => Err(TargetingError::Propagation),
        }
    }

    /// Reads the achieved value of every objective off a terminal state: a
    /// Cartesian parameter exactly, a derived one through the collaborator.
    fn evaluate_objectives(&self, xf: &Spacecraft) -> (r: Result<Vec<i64>, TargetingError>)
        ensures
            r matches Ok(v) ==> {
                &&& v@.len() == self.objectives@.len()
                &&& forall|i: int|
                    0 <= i < self.objectives@.len()
                        && (#[trigger] self.objectives@[i]).parameter.is_direct_spec() ==> v@[i]
                        == direct_value_spec(*xf, self.objectives@[i].parameter).unwrap()
            },
            r is Err ==> r == Err::<Vec<i64>, TargetingError>(TargetingError::Propagation),
    {
        let mut achieved: Vec<i64> = Vec::new();
        let mut i: usize = 0;
        while i < self.objectives.len()
            invariant
                0 <= i <= self.objectives@.len(),
                achieved@.len() == i,
                forall|j: int|
                    0 <= j < i && (#[trigger] self.objectives@[j]).parameter.is_direct_spec()
                        ==> achieved@[j] == direct_value_spec(
                        *xf,
                        self.objectives@[j].parameter,
                    ).unwrap(),
            decreases self.objectives@.len() - i,
        {
            let v: i64 = match objective_value(self.prop, xf, self.objectives[i].parameter) {
                Ok(v) => v,
                Err(_) => {
                    return Err(TargetingError::Propagation);
                },
            };
            achieved.push(v);
            i = i + 1;
        }
        Ok(achieved)
    }

    /// The sensitivity of every objective to every variable, by independent
    /// finite differencing: for each pair, the trial state and maneuver are
    /// cloned, the one variable is perturbed by its configured magnitude
    /// under the same application rule as an initial guess, the exact same
    /// propagation is re-run to the achievement epoch, and the entry is the
    /// scaled difference quotient of that one objective's value.
    pub fn estimate_jacobian(
        &self,
        xi: &Spacecraft,
        mnvr: &Mnvr,
        finite_burn: bool,
        achieved: &Vec<i64>,
        achievement_epoch_us: i64,
    ) -> (r: Result<Vec<Vec<i64>>, TargetingError>)
        requires
            achieved@.len() == self.objectives@.len(),
            forall|j: int| 0 <= j < self.variables@.len() ==> (#[trigger] self.variables@[j]).valid_spec(),
        ensures
            r matches Ok(jac) ==> {
                &&& jac@.len() == self.objectives@.len()
                &&& rectangular(jac@, self.variables@.len() as int)
            },
            r is Err ==> (r == Err::<Vec<Vec<i64>>, TargetingError>(
                TargetingError::ValueOutOfRange,
            ) || r == Err::<Vec<Vec<i64>>, TargetingError>(TargetingError::FrameError) || r
                == Err::<Vec<Vec<i64>>, TargetingError>(TargetingError::Propagation)),
    {
        let nobj: usize = self.objectives.len();
        let nvars: usize = self.variables.len();
        let mut jac: Vec<Vec<i64>> = Vec::new();
        let mut i: usize = 0;
        while i < nobj
            invariant
                nobj == self.objectives@.len(),
                nvars == self.variables@.len(),
                achieved@.len() == nobj,
                forall|j: int|
                    0 <= j < nvars ==> (#[trigger] self.variables@[j]).valid_spec(),
                0 <= i <= nobj,
                jac@.len() == i,
                rectangular(jac@, nvars as int),
            decreases nobj - i,
        {
            let mut row: Vec<i64> = Vec::new();
            let mut j: usize = 0;
            while j < nvars
                invariant
                    nobj == self.objectives@.len(),
                    nvars == self.variables@.len(),
                    achieved@.len() == nobj,
                    forall|j2: int|
                        0 <= j2 < nvars ==> (#[trigger] self.variables@[j2]).valid_spec(),
                    i < nobj,
                    0 <= j <= nvars,
                    row@.len() == j,
                decreases nvars - j,
            {
                let var: Variable = self.variables[j];
                let mut this_xi: Spacecraft = *xi;
                let mut this_mnvr: Mnvr = *mnvr;
                if var.component.is_finite_burn() {
                    this_mnvr = this_mnvr.apply_perturbation(var.component, var.perturbation)?;
                } else {
                    let mut delta = StateDelta::zero();
                    delta.add_at(var.component.vec_index(), var.perturbation)?;
                    this_xi = self.apply_state_delta(&this_xi, &delta)?;
                }
                let xf = self.propagate_to_achievement(
                    &this_xi,
                    &this_mnvr,
                    finite_burn,
                    achievement_epoch_us,
                )?;
                let pert_val: i64 = match objective_value(
                    self.prop,
                    &xf,
                    self.objectives[i].parameter,
                ) {
                    Ok(v) => v,
                    Err(_) => {
                        return Err(TargetingError::Propagation);
                    },
                };
                let entry: i64 = checked_scaled_div(pert_val, achieved[i], var.perturbation)?;
                row.push(entry);
                j = j + 1;
            }
            jac.push(row);
            i = i + 1;
        }
        Ok(jac)
    }

    /// Differential correction by finite differencing: iteratively adjusts
    /// the variables, re-propagating from `correction_epoch_us` to
    /// `achievement_epoch_us`, until every objective of the terminal state
    /// is within tolerance.
    ///
    /// An empty objective set is rejected as `UnderdeterminedProblem`, and a
    /// variable set that fails validation is rejected with that validation
    /// error, both before any propagation. On success, every achieved error
    /// of the solution is within its objective's tolerance, and no more
    /// iterations were spent than the budget.
    #[verifier::loop_isolation(false)]
    pub fn try_achieve_fd(
        &self,
        initial_state: &Spacecraft,
        correction_epoch_us: i64,
        achievement_epoch_us: i64,
    ) -> (r: Result<TargeterSolution, TargetingError>)
        ensures
            self.objectives@.len() == 0 <==> r == Err::<TargeterSolution, TargetingError>(
                TargetingError::UnderdeterminedProblem,
            ),
            (match validation_error_spec(
                self.variables@,
                self.correction_frame is Some,
                initial_state.thruster is Some,
            ) {
                Some(e) => self.objectives@.len() > 0 ==> r == Err::<
                    TargeterSolution,
                    TargetingError,
                >(e),
                None => true,
            }),
            r == Err::<TargeterSolution, TargetingError>(TargetingError::InvalidVariable) || r
                == Err::<TargeterSolution, TargetingError>(TargetingError::NoThrusterAvailable)
                ==> validation_error_spec(
                self.variables@,
                self.correction_frame is Some,
                initial_state.thruster is Some,
            ) == Some(r.unwrap_err()),
            r matches Ok(sol) ==> {
                &&& sol.achieved_errors@.len() == self.objectives@.len()
                &&& all_within_tolerance(self.objectives@, sol.achieved_errors@)
                &&& forall|i: int|
                    0 <= i < self.objectives@.len() && (
                    #[trigger] self.objectives@[i]).parameter.is_direct_spec()
                        ==> sol.achieved_errors@[i] as int == self.objectives@[i].desired_value
                        - direct_value_spec(
                        sol.achieved_state,
                        self.objectives@[i].parameter,
                    ).unwrap() as int
                &&& sol.correction@.len() == self.variables@.len()
                &&& sol.variables@ == self.variables@
                &&& sol.achieved_objectives@ == self.objectives@
                &&& sol.iterations <= self.iterations
            },
    {
        let start_instant = instant_now();
        if self.objectives.len() == 0 {
            return Err(TargetingError::UnderdeterminedProblem);
        }
        let has_thruster: bool = initial_state.thruster.is_some();
        proof {
            lemma_validation_kinds(
                self.variables@,
                self.correction_frame is Some,
                has_thruster,
            );
        }
        match self.validate(has_thruster) {
            Some(e) => {
                return Err(e);
            },
            None => {},
        }
        proof {
            lemma_validated_vars_valid(
                self.variables@,
                self.correction_frame is Some,
                has_thruster,
            );
        }
        let finite_burn: bool = self.is_finite_burn_target();
        let nvars: usize = self.variables.len();

        // Propagate as-is to the epoch where the correction applies.
        let xi_start: Spacecraft = match self.prop.propagate(initial_state, correction_epoch_us) {
            Ok(s) => s,
            Err(_) => {
                return Err(TargetingError::Propagation);
            },
        };
        let mut xi: Spacecraft = xi_start;

        // The working maneuver, touched only by finite-burn problems.
        let mut mnvr: Mnvr = Mnvr::default_at(correction_epoch_us)?;

        // Apply every variable's initial guess and seed the running total.
        let mut total_correction: Vec<i64> = Vec::new();
        let mut guess_delta: StateDelta = StateDelta::zero();
        let mut gi: usize = 0;
        while gi < nvars
            invariant
                0 <= gi <= nvars,
                total_correction@.len() == gi,
            decreases nvars - gi,
        {
            let var: Variable = self.variables[gi];
            if var.component.is_finite_burn() {
                mnvr = mnvr.apply_initial_guess(var.component, var.init_guess)?;
            } else {
                guess_delta.add_at(var.component.vec_index(), var.init_guess)?;
            }
            total_correction.push(var.init_guess);
            gi = gi + 1;
        }
        xi = self.apply_state_delta(&xi, &guess_delta)?;

        let mut prev_norm_sq: Option<u128> = None;
        let mut it: u64 = 0;
        while it <= self.iterations as u64
            invariant
                total_correction@.len() == nvars,
            decreases self.iterations as int + 1 - it,
        {
            // Propagate the trial state and assess every objective.
            let xf: Spacecraft = self.propagate_to_achievement(
                &xi,
                &mnvr,
                finite_burn,
                achievement_epoch_us,
            )?;
            let achieved: Vec<i64> = self.evaluate_objectives(&xf)?;
            let (errors, converged) = assess_objectives(&self.objectives, &achieved)?;

            if converged {
                // Apply the accumulated correction to the state at the
                // correction epoch, under the same local-frame rotation rule.
                let mut final_delta: StateDelta = StateDelta::zero();
                let mut fi: usize = 0;
                while fi < nvars
                    invariant
                        0 <= fi <= nvars,
                    decreases nvars - fi,
                {
                    let var: Variable = self.variables[fi];
                    if !var.component.is_finite_burn() {
                        final_delta.add_at(var.component.vec_index(), total_correction[fi])?;
                    }
                    fi = fi + 1;
                }
                let corrected_state: Spacecraft = self.apply_state_delta(
                    &xi_start,
                    &final_delta,
                )?;
                let achieved_state: Spacecraft = xi_start.with_orbit(xf.orbit);
                proof {
                    assert forall|i: int|
                        0 <= i < self.objectives@.len() && (
                        #[trigger] self.objectives@[i]).parameter.is_direct_spec() implies errors@[i] as int
                        == self.objectives@[i].desired_value - direct_value_spec(
                        achieved_state,
                        self.objectives@[i].parameter,
                    ).unwrap() as int by {
                        assert(achieved@[i] as int == direct_value_spec(
                            xf,
                            self.objectives@[i].parameter,
                        ).unwrap() as int);
                        assert(direct_value_spec(achieved_state, self.objectives@[i].parameter)
                            == direct_value_spec(xf, self.objectives@[i].parameter));
                    }
                }
                return Ok(
                    TargeterSolution {
                        corrected_state,
                        achieved_state,
                        correction: total_correction,
                        computation_dur_us: micros_since(&start_instant),
                        variables: copy_vec(&self.variables),
                        achieved_errors: errors,
                        achieved_objectives: copy_vec(&self.objectives),
                        iterations: it as u32,
                    },
                );
            }

            // Not converged: check stagnation, then take a Newton step.
            let norm_now: u128 = norm_sq(&errors)?;
            if stagnated(prev_norm_sq, norm_now) {
                return Err(TargetingError::CorrectionIneffective);
            }
            prev_norm_sq = Some(norm_now);

            if nvars == 0 {
                return Err(TargetingError::SingularJacobian);
            }
            let jac: Vec<Vec<i64>> = self.estimate_jacobian(
                &xi,
                &mnvr,
                finite_burn,
                &achieved,
                achievement_epoch_us,
            )?;
            let delta: Vec<i64> = solve_least_squares(&jac, &errors)?;

            // Clamp each component to the step limit, then to the variable's
            // bounds, and apply it.
            let mut step_delta: StateDelta = StateDelta::zero();
            let mut ci: usize = 0;
            while ci < nvars
                invariant
                    delta@.len() == nvars,
                    total_correction@.len() == nvars,
                    0 <= ci <= nvars,
                decreases nvars - ci,
            {
                let var: Variable = self.variables[ci];
                let corr: i64 = clamp_correction(
                    delta[ci],
                    var.max_step,
                    var.min_value,
                    var.max_value,
                );
                if var.component.is_finite_burn() {
                    mnvr = mnvr.apply_correction(var.component, corr)?;
                } else {
                    step_delta.add_at(var.component.vec_index(), corr)?;
                }
                total_correction[ci] = checked_add(total_correction[ci], corr)?;
                ci = ci + 1;
            }
            xi = self.apply_state_delta(&xi, &step_delta)?;
            it = it + 1;
        }
        Err(
            TargetingError::MaxIterationsReached {
                last_error_norm_sq: match prev_norm_sq {
                    Some(n) => n,
                    None => 0,
                },
            },
        )
    }
}

} // verus!
