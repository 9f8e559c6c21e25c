use std::cell::Cell;

use targeter::{
    GuidanceMode, LocalFrame, Mnvr, Objective, Orbit, Spacecraft, StateParameter, Targeter,
    TargetingError, Thruster, Variable, Vary, Vec3, SCALE,
};
use targeter::frames::Dcm;
use targeter::propagator::{BurnSeed, Propagator};

/// Linear dynamics with a call counter: `X` advances by `2 * VX` and by a
/// hundredth of `VY`, `Y` advances by `3 * VY`; everything else is carried
/// through unchanged.
struct LinearProp {
    calls: Cell<u64>,
}

impl LinearProp {
    fn new() -> Self {
        LinearProp { calls: Cell::new(0) }
    }

    fn advance(&self, sc: &Spacecraft, epoch_us: i64) -> Spacecraft {
        self.calls.set(self.calls.get() + 1);
        let steps = (epoch_us - sc.orbit.epoch_us) / 10_000_000;
        let mut out = *sc;
        out.orbit.x = sc.orbit.x + (2 * sc.orbit.vx + sc.orbit.vy / 100) * steps;
        out.orbit.y = sc.orbit.y + 3 * sc.orbit.vy * steps;
        out.orbit.epoch_us = epoch_us;
        out
    }
}

impl Propagator for LinearProp {
    type Traj = Spacecraft;

    fn propagate(&self, sc: &Spacecraft, epoch_us: i64) -> Result<Spacecraft, TargetingError> {
        Ok(self.advance(sc, epoch_us))
    }

    fn propagate_with_control(
        &self,
        sc: &Spacecraft,
        epoch_us: i64,
        _mnvr: &Mnvr,
        _max_step_us: i64,
    ) -> Result<Spacecraft, TargetingError> {
        Ok(self.advance(sc, epoch_us))
    }

    fn propagate_with_traj(
        &self,
        sc: &Spacecraft,
        epoch_us: i64,
    ) -> Result<(Spacecraft, Spacecraft), TargetingError> {
        let out = self.advance(sc, epoch_us);
        Ok((out, out))
    }

    fn traj_at(&self, traj: &Spacecraft, _epoch_us: i64) -> Result<Spacecraft, TargetingError> {
        Ok(*traj)
    }

    fn dcm_from_frame(&self, _sc: &Spacecraft, _frame: LocalFrame) -> Result<Dcm, TargetingError> {
        Ok(Dcm {
            rx: Vec3 { x: SCALE, y: 0, z: 0 },
            ry: Vec3 { x: 0, y: SCALE, z: 0 },
            rz: Vec3 { x: 0, y: 0, z: SCALE },
        })
    }

    fn derived_value(
        &self,
        _sc: &Spacecraft,
        _param: StateParameter,
    ) -> Result<i64, TargetingError> {
        Err(TargetingError::Propagation)
    }

    fn burn_seed(&self, _sc: &Spacecraft, _dv: &Vec3) -> Result<BurnSeed, TargetingError> {
        Ok(BurnSeed {
            alpha_deg: 0,
            alpha_ddot_deg: 0,
            beta_deg: 0,
            beta_ddot_deg: 0,
            duration_us: 4_000_000,
        })
    }
}

/// Dynamics no variable can influence: the terminal `X` is pinned, so every
/// objective on it is unreachable.
struct StagnantProp {
    calls: Cell<u64>,
}

impl StagnantProp {
    fn new() -> Self {
        StagnantProp { calls: Cell::new(0) }
    }

    fn pin(&self, sc: &Spacecraft, epoch_us: i64) -> Spacecraft {
        self.calls.set(self.calls.get() + 1);
        let mut out = *sc;
        out.orbit.x = 42;
        out.orbit.epoch_us = epoch_us;
        out
    }
}

impl Propagator for StagnantProp {
    type Traj = ();

    fn propagate(&self, sc: &Spacecraft, epoch_us: i64) -> Result<Spacecraft, TargetingError> {
        Ok(self.pin(sc, epoch_us))
    }

    fn propagate_with_control(
        &self,
        sc: &Spacecraft,
        epoch_us: i64,
        _mnvr: &Mnvr,
        _max_step_us: i64,
    ) -> Result<Spacecraft, TargetingError> {
        Ok(self.pin(sc, epoch_us))
    }

    fn propagate_with_traj(
        &self,
        sc: &Spacecraft,
        epoch_us: i64,
    ) -> Result<(Spacecraft, ()), TargetingError> {
        Ok((self.pin(sc, epoch_us), ()))
    }

    fn traj_at(&self, _traj: &(), _epoch_us: i64) -> Result<Spacecraft, TargetingError> {
        Err(TargetingError::Propagation)
    }

    fn dcm_from_frame(&self, _sc: &Spacecraft, _frame: LocalFrame) -> Result<Dcm, TargetingError> {
        Err(TargetingError::FrameError)
    }

    fn derived_value(
        &self,
        _sc: &Spacecraft,
        _param: StateParameter,
    ) -> Result<i64, TargetingError> {
        Err(TargetingError::Propagation)
    }

    fn burn_seed(&self, _sc: &Spacecraft, _dv: &Vec3) -> Result<BurnSeed, TargetingError> {
        Err(TargetingError::Propagation)
    }
}

/// A propagator that always lands on one fixed state, so a conversion
/// converges immediately.
struct FixedProp {
    landing: Spacecraft,
}

impl Propagator for FixedProp {
    type Traj = ();

    fn propagate(&self, _sc: &Spacecraft, _epoch_us: i64) -> Result<Spacecraft, TargetingError> {
        Ok(self.landing)
    }

    fn propagate_with_control(
        &self,
        _sc: &Spacecraft,
        _epoch_us: i64,
        _mnvr: &Mnvr,
        _max_step_us: i64,
    ) -> Result<Spacecraft, TargetingError> {
        Ok(self.landing)
    }

    fn propagate_with_traj(
        &self,
        _sc: &Spacecraft,
        _epoch_us: i64,
    ) -> Result<(Spacecraft, ()), TargetingError> {
        Ok((self.landing, ()))
    }

    fn traj_at(&self, _traj: &(), _epoch_us: i64) -> Result<Spacecraft, TargetingError> {
        Ok(self.landing)
    }

    fn dcm_from_frame(&self, _sc: &Spacecraft, _frame: LocalFrame) -> Result<Dcm, TargetingError> {
        Err(TargetingError::FrameError)
    }

    fn derived_value(
        &self,
        _sc: &Spacecraft,
        _param: StateParameter,
    ) -> Result<i64, TargetingError> {
        Err(TargetingError::Propagation)
    }

    fn burn_seed(&self, _sc: &Spacecraft, _dv: &Vec3) -> Result<BurnSeed, TargetingError> {
        Ok(BurnSeed {
            alpha_deg: 1_500_000,
            alpha_ddot_deg: 30_000,
            beta_deg: -700_000,
            beta_ddot_deg: 0,
            duration_us: 4_000_000,
        })
    }
}

fn base_state() -> Spacecraft {
    Spacecraft::new(Orbit::zero(), 500_000_000, 100_000_000, 0, 0, 1_800_000, 2_200_000)
}

#[test]
fn zero_objectives_fail_without_propagation() {
    let prop = LinearProp::new();
    let variables = vec![Variable::new(Vary::VelocityX)];
    let tgt = Targeter::new(&prop, variables, Vec::new());
    let r = tgt.try_achieve_fd(&base_state(), 0, 10_000_000);
    assert!(matches!(r, Err(TargetingError::UnderdeterminedProblem)));
    assert_eq!(prop.calls.get(), 0);
}

#[test]
fn finite_burn_without_thruster_fails_without_propagation() {
    let prop = LinearProp::new();
    let variables = vec![Variable::new(Vary::Duration)];
    let objectives = vec![Objective::new(StateParameter::X, 1_000_000)];
    let tgt = Targeter::new(&prop, variables, objectives);
    let r = tgt.try_achieve_fd(&base_state(), 0, 10_000_000);
    assert!(matches!(r, Err(TargetingError::NoThrusterAvailable)));
    assert_eq!(prop.calls.get(), 0);
}

#[test]
fn invalid_variable_bounds_rejected() {
    let prop = LinearProp::new();
    let variables = vec![Variable::new(Vary::VelocityX).with_bounds(5, -5)];
    let objectives = vec![Objective::new(StateParameter::X, 1_000_000)];
    let tgt = Targeter::new(&prop, variables, objectives);
    let r = tgt.try_achieve_fd(&base_state(), 0, 10_000_000);
    assert!(matches!(r, Err(TargetingError::InvalidVariable)));
    assert_eq!(prop.calls.get(), 0);
}

#[test]
fn position_variable_in_local_frame_rejected() {
    let prop = LinearProp::new();
    let variables = vec![Variable::new(Vary::PositionX)];
    let objectives = vec![Objective::new(StateParameter::X, 1_000_000)];
    let tgt = Targeter::in_frame(&prop, variables, objectives, LocalFrame::VNC);
    let r = tgt.try_achieve_fd(&base_state(), 0, 10_000_000);
    assert!(matches!(r, Err(TargetingError::FrameError)));
    assert_eq!(prop.calls.get(), 0);
}

#[test]
fn linear_problem_converges_in_one_iteration() {
    let prop = LinearProp::new();
    let variables = vec![Variable::new(Vary::VelocityX).with_perturbation(1)];
    let objectives = vec![Objective::within_tolerance(StateParameter::X, 2_000_000, 1000)];
    let tgt = Targeter::new(&prop, variables, objectives);
    let sol = tgt.try_achieve_fd(&base_state(), 0, 10_000_000).unwrap();
    assert_eq!(sol.iterations, 1);
    assert_eq!(sol.correction, vec![1_000_000]);
    assert_eq!(sol.corrected_state.orbit.vx, 1_000_000);
    assert_eq!(sol.achieved_errors, vec![0]);
    // Every achieved error is within its objective's tolerance.
    for (e, obj) in sol.achieved_errors.iter().zip(sol.achieved_objectives.iter()) {
        assert!(e.unsigned_abs() <= obj.tolerance.unsigned_abs());
    }
    assert_eq!(sol.achieved_state.orbit.x, 2_000_000);
}

#[test]
fn rerun_from_corrected_state_converges_immediately() {
    let prop = LinearProp::new();
    let variables = vec![Variable::new(Vary::VelocityX).with_perturbation(1)];
    let objectives = vec![Objective::within_tolerance(StateParameter::X, 2_000_000, 1000)];
    let tgt = Targeter::new(&prop, variables.clone(), objectives.clone());
    let sol = tgt.try_achieve_fd(&base_state(), 0, 10_000_000).unwrap();

    let prop2 = LinearProp::new();
    let tgt2 = Targeter::new(&prop2, variables, objectives);
    let sol2 = tgt2.try_achieve_fd(&sol.corrected_state, 0, 10_000_000).unwrap();
    assert!(sol2.iterations <= 1);
    assert_eq!(sol2.correction, vec![0]);
}

#[test]
fn unreachable_objectives_stagnate_within_two_iterations() {
    let prop = StagnantProp::new();
    let variables = vec![Variable::new(Vary::VelocityX).with_perturbation(1)];
    let objectives = vec![Objective::within_tolerance(StateParameter::X, 9_000_000, 1000)];
    let tgt = Targeter::new(&prop, variables, objectives);
    let r = tgt.try_achieve_fd(&base_state(), 0, 10_000_000);
    assert!(matches!(r, Err(TargetingError::CorrectionIneffective)));
    // One propagation to the correction epoch, then two evaluation passes
    // and one single-entry Jacobian: far fewer calls than a full budget.
    assert!(prop.calls.get() <= 6);
}

/// Dynamics whose terminal `X` equals the initial `VX`: the simplest exactly
/// invertible map, used to exhaust the iteration budget under a tiny step
/// limit.
struct EchoProp;

impl Propagator for EchoProp {
    type Traj = ();

    fn propagate(&self, sc: &Spacecraft, epoch_us: i64) -> Result<Spacecraft, TargetingError> {
        let mut out = *sc;
        out.orbit.x = sc.orbit.vx;
        out.orbit.epoch_us = epoch_us;
        Ok(out)
    }

    fn propagate_with_control(
        &self,
        sc: &Spacecraft,
        epoch_us: i64,
        _mnvr: &Mnvr,
        _max_step_us: i64,
    ) -> Result<Spacecraft, TargetingError> {
        self.propagate(sc, epoch_us)
    }

    fn propagate_with_traj(
        &self,
        sc: &Spacecraft,
        epoch_us: i64,
    ) -> Result<(Spacecraft, ()), TargetingError> {
        Ok((self.propagate(sc, epoch_us)?, ()))
    }

    fn traj_at(&self, _traj: &(), _epoch_us: i64) -> Result<Spacecraft, TargetingError> {
        Err(TargetingError::Propagation)
    }

    fn dcm_from_frame(&self, _sc: &Spacecraft, _frame: LocalFrame) -> Result<Dcm, TargetingError> {
        Err(TargetingError::FrameError)
    }

    fn derived_value(
        &self,
        _sc: &Spacecraft,
        _param: StateParameter,
    ) -> Result<i64, TargetingError> {
        Err(TargetingError::Propagation)
    }

    fn burn_seed(&self, _sc: &Spacecraft, _dv: &Vec3) -> Result<BurnSeed, TargetingError> {
        Err(TargetingError::Propagation)
    }
}

#[test]
fn no_variables_surface_a_singular_jacobian() {
    let prop = LinearProp::new();
    let objectives = vec![Objective::within_tolerance(StateParameter::X, 2_000_000, 1000)];
    let tgt = Targeter::new(&prop, Vec::new(), objectives);
    let r = tgt.try_achieve_fd(&base_state(), 0, 10_000_000);
    assert!(matches!(r, Err(TargetingError::SingularJacobian)));
}

#[test]
fn exhausted_budget_reports_the_last_error_norm() {
    // Each iteration may step VX by at most one count towards a target a
    // thousand counts away: the budget of one hundred iterations runs out
    // with the squared error norm of the final assessment attached.
    let prop = EchoProp;
    let variables = vec![
        Variable::new(Vary::VelocityX).with_perturbation(100).with_max_step(1),
    ];
    let objectives = vec![Objective::within_tolerance(StateParameter::X, 1000, 1)];
    let tgt = Targeter::new(&prop, variables, objectives);
    let r = tgt.try_achieve_fd(&base_state(), 0, 10_000_000);
    assert!(matches!(
        r,
        Err(TargetingError::MaxIterationsReached { last_error_norm_sq: 810_000 })
    ));
}

#[test]
fn jacobian_of_linear_cross_coupled_dynamics_is_exact() {
    let prop = LinearProp::new();
    let variables = vec![
        Variable::new(Vary::VelocityX).with_perturbation(1000),
        Variable::new(Vary::VelocityY).with_perturbation(1000),
    ];
    let objectives = vec![
        Objective::within_tolerance(StateParameter::X, 5_000_000, 1000),
        Objective::within_tolerance(StateParameter::Y, 5_000_000, 1000),
    ];
    let tgt = Targeter::new(&prop, variables, objectives);
    let xi = base_state();
    let xf = prop.propagate(&xi, 10_000_000).unwrap();
    let achieved = vec![xf.orbit.x, xf.orbit.y];
    let mnvr = Mnvr::default_at(0).unwrap();
    let jac = tgt
        .estimate_jacobian(&xi, &mnvr, false, &achieved, 10_000_000)
        .unwrap();
    // d(X)/d(VX) = 2, d(X)/d(VY) = 0.01, d(Y)/d(VX) = 0, d(Y)/d(VY) = 3,
    // each scaled by one SCALE.
    assert_eq!(jac, vec![vec![2_000_000, 10_000], vec![0, 3_000_000]]);
    // Diagonal dominance: each diagonal entry outweighs the off-diagonals.
    assert!(jac[0][0].unsigned_abs() > jac[0][1].unsigned_abs());
    assert!(jac[1][1].unsigned_abs() > jac[1][0].unsigned_abs());
}

#[test]
fn local_frame_correction_uses_rotation() {
    // With an identity direction-cosine matrix the rotated correction must
    // match the direct one.
    let prop = LinearProp::new();
    let variables = vec![Variable::new(Vary::VelocityX).with_perturbation(1)];
    let objectives = vec![Objective::within_tolerance(StateParameter::X, 2_000_000, 1000)];
    let tgt = Targeter::in_frame(&prop, variables, objectives, LocalFrame::RCN);
    let sol = tgt.try_achieve_fd(&base_state(), 0, 10_000_000).unwrap();
    assert_eq!(sol.corrected_state.orbit.vx, 1_000_000);
}

#[test]
fn impulsive_conversion_without_thruster_rejected() {
    let prop = FixedProp { landing: base_state() };
    let dv = Vec3 { x: 0, y: 10_000, z: 0 };
    let r = Targeter::convert_impulsive_mnvr(base_state(), dv, &prop);
    assert!(matches!(r, Err(TargetingError::NoThrusterAvailable)));
}

#[test]
fn impulsive_conversion_converges_on_consistent_trajectories() {
    let landing = base_state();
    let prop = FixedProp { landing };
    let thruster = Thruster { thrust: 2_000_000, isp: 300_000_000 };
    let sc = Spacecraft::from_thruster(
        Orbit {
            x: 7_000_000_000,
            y: 0,
            z: 0,
            vx: 0,
            vy: 7_500_000,
            vz: 0,
            epoch_us: 50_000_000,
        },
        500_000_000,
        100_000_000,
        thruster,
        GuidanceMode::Coast,
    );
    let dv = Vec3 { x: 0, y: 10_000, z: 0 };
    let mnvr = Targeter::convert_impulsive_mnvr(sc, dv, &prop).unwrap();
    // The seeded burn window is centred on the impulse epoch.
    assert_eq!(mnvr.start_us, 50_000_000 - 2_000_000);
    assert_eq!(mnvr.end_us, 50_000_000 + 2_000_000);
    assert_eq!(mnvr.thrust_lvl, SCALE);
    assert_eq!(mnvr.frame, LocalFrame::RCN);
    // The seed's angles land in the steering profiles: value and curvature.
    assert_eq!(mnvr.alpha_inplane_deg.value, 1_500_000);
    assert_eq!(mnvr.alpha_inplane_deg.rate, 0);
    assert_eq!(mnvr.alpha_inplane_deg.curvature, 30_000);
    assert_eq!(mnvr.beta_outofplane_deg.value, -700_000);
}
