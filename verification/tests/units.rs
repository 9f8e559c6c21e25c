use targeter::arith::{
    checked_abs, checked_add, checked_diff, checked_scaled_div, isqrt_u128, norm_sq,
};
use targeter::maneuver::{Mnvr, MILLISECOND_US};
use targeter::objective::{assess_objectives, check_convergence};
use targeter::state::{StateDelta, DEFAULT_CD, DEFAULT_CR};
use targeter::targeter::clamp_correction;
use targeter::variable::{DEFAULT_BOUND, DEFAULT_PERTURBATION};
use targeter::{
    solve_least_squares, Dcm, DragConfig, GuidanceMode, Objective, Orbit, QuadraticPolynomial,
    Spacecraft, SrpConfig, StateParameter, TargetingError, Thruster, Variable, Vary, Vec3, SCALE,
};

#[test]
fn checked_arithmetic_reports_overflow() {
    assert_eq!(checked_add(2, 3), Ok(5));
    assert_eq!(checked_add(i64::MAX, 1), Err(TargetingError::ValueOutOfRange));
    assert_eq!(checked_diff(2, 5), Ok(-3));
    assert_eq!(checked_diff(i64::MIN, 1), Err(TargetingError::ValueOutOfRange));
    assert_eq!(checked_abs(-7), Ok(7));
    assert_eq!(checked_abs(i64::MIN), Err(TargetingError::ValueOutOfRange));
}

#[test]
fn finite_difference_quotient_rounds_towards_zero() {
    // (7 - 2) * SCALE / 2
    assert_eq!(checked_scaled_div(7, 2, 2), Ok(2_500_000));
    assert_eq!(checked_scaled_div(2, 7, 2), Ok(-2_500_000));
    assert_eq!(checked_scaled_div(1, 0, 3), Ok(333_333));
    // Truncation towards zero, not towards minus infinity.
    assert_eq!(checked_scaled_div(0, 1, 3), Ok(-333_333));
    assert_eq!(checked_scaled_div(1, 0, -3), Ok(-333_333));
}

#[test]
fn squared_norm_is_exact() {
    assert_eq!(norm_sq(&vec![3, -4]), Ok(25));
    assert_eq!(norm_sq(&Vec::new()), Ok(0));
}

#[test]
fn integer_square_root_brackets_its_argument() {
    assert_eq!(isqrt_u128(0), 0);
    assert_eq!(isqrt_u128(1), 1);
    assert_eq!(isqrt_u128(24), 4);
    assert_eq!(isqrt_u128(25), 5);
    assert_eq!(isqrt_u128(25_000_000_000_000), 5_000_000);
    assert_eq!(isqrt_u128(u128::MAX), u64::MAX);
}

#[test]
fn clamp_applies_step_limit_then_bounds() {
    assert_eq!(clamp_correction(500, 1_000_000, -DEFAULT_BOUND, DEFAULT_BOUND), 500);
    assert_eq!(clamp_correction(5_000_000, 1_000_000, -DEFAULT_BOUND, DEFAULT_BOUND), 1_000_000);
    assert_eq!(clamp_correction(-5_000_000, 1_000_000, -DEFAULT_BOUND, DEFAULT_BOUND), -1_000_000);
    // The step limit counts by magnitude.
    assert_eq!(clamp_correction(5_000_000, -1_000_000, -DEFAULT_BOUND, DEFAULT_BOUND), 1_000_000);
    // The variable's bounds cut in after the step limit.
    assert_eq!(clamp_correction(50, 1_000_000, 100, 200), 100);
    assert_eq!(clamp_correction(500, 1_000_000, 100, 200), 200);
}

#[test]
fn objective_assessment_is_exact_and_inclusive() {
    let obj = Objective::within_tolerance(StateParameter::X, 1_000_000, 1000);
    assert_eq!(obj.assess_raw(999_000), Ok((true, 1000)));
    assert_eq!(obj.assess_raw(998_999), Ok((false, 1001)));
    assert_eq!(obj.assess_raw(1_001_000), Ok((true, -1000)));
    let objectives = vec![obj, Objective::within_tolerance(StateParameter::Y, 0, 10)];
    let (errors, converged) = assess_objectives(&objectives, &vec![1_000_400, -3]).unwrap();
    assert_eq!(errors, vec![-400, 3]);
    assert!(converged);
    assert!(!check_convergence(&objectives, &vec![0, 11]));
}

#[test]
fn objective_invariant_checks_tolerance() {
    assert!(Objective::new(StateParameter::X, 5).valid());
    assert!(!Objective::within_tolerance(StateParameter::X, 5, 0).valid());
}

#[test]
fn variable_defaults_and_invariant() {
    let v = Variable::new(Vary::VelocityZ);
    assert_eq!(v.init_guess, 0);
    assert_eq!(v.perturbation, DEFAULT_PERTURBATION);
    assert_eq!(v.max_step, SCALE);
    assert_eq!((v.min_value, v.max_value), (-DEFAULT_BOUND, DEFAULT_BOUND));
    assert!(v.valid());
    assert!(!v.with_perturbation(0).valid());
    assert!(!v.with_bounds(1, 0).valid());
    let g = v.with_initial_guess(77).with_max_step(5);
    assert_eq!((g.init_guess, g.max_step), (77, 5));
}

#[test]
fn vary_tags_classify_and_index() {
    assert_eq!(Vary::PositionZ.vec_index(), 2);
    assert_eq!(Vary::VelocityX.vec_index(), 3);
    assert_eq!(Vary::MnvrBetaDDot.vec_index(), 2);
    assert!(Vary::Duration.is_finite_burn());
    assert!(Vary::MnvrAlpha.is_finite_burn());
    assert!(!Vary::VelocityY.is_finite_burn());
    assert!(Vary::PositionY.is_position());
    assert!(!Vary::VelocityY.is_position());
    assert!(StateParameter::BdotR.is_b_plane());
    assert!(!StateParameter::X.is_b_plane());
    assert!(StateParameter::VZ.is_direct());
    assert!(!StateParameter::Sma.is_direct());
}

#[test]
fn polynomial_coefficients_add_by_order() {
    let p = QuadraticPolynomial::zero();
    let p = p.add_val_in_order(5_000_000, 0).unwrap();
    let p = p.add_val_in_order(2_000_000, 1).unwrap();
    let p = p.add_val_in_order(1_000_000, 2).unwrap();
    assert_eq!((p.value, p.rate, p.curvature), (5_000_000, 2_000_000, 1_000_000));
    assert_eq!(p.coeff(1), Some(2_000_000));
    assert_eq!(p.coeff(3), None);
    assert_eq!(p.add_val_in_order(1, 3), Err(TargetingError::InvalidVariable));
    assert_eq!(
        p.add_val_in_order(i64::MAX, 0),
        Err(TargetingError::ValueOutOfRange)
    );
}

#[test]
fn polynomial_evaluation_in_fixed_point() {
    let p = QuadraticPolynomial { value: 5_000_000, rate: 2_000_000, curvature: 1_000_000 };
    // 5 + 2*3 + 1*9 = 20, all in millionths.
    assert_eq!(p.eval(3_000_000), Ok(20_000_000));
    // 2 + 2*1*3 = 8.
    assert_eq!(p.deriv(3_000_000), Ok(8_000_000));
    assert_eq!(p.eval(0), Ok(5_000_000));
}

#[test]
fn maneuver_updates_follow_the_window_rules() {
    let m = Mnvr::default_at(10_000_000).unwrap();
    assert_eq!(m.start_us, 10_000_000);
    assert_eq!(m.end_us, 15_000_000);
    assert_eq!(m.duration_us(), Ok(5_000_000));
    assert_eq!(m.thrust_lvl, SCALE);

    // An epoch correction at or below one millisecond is a no-op.
    let same = m.apply_correction(Vary::StartEpoch, MILLISECOND_US).unwrap();
    assert_eq!(same, m);
    // A duration correction re-derives the end from the start plus the
    // correction's magnitude.
    let shrunk = m.apply_correction(Vary::Duration, -3_000_000).unwrap();
    assert_eq!(shrunk.start_us, 10_000_000);
    assert_eq!(shrunk.end_us, 13_000_000);
    // Start and end corrections shift by the signed value.
    let shifted = m.apply_correction(Vary::StartEpoch, 2_000_000).unwrap();
    assert_eq!(shifted.start_us, 12_000_000);
    assert_eq!(shifted.end_us, 15_000_000);
    let extended = m.apply_correction(Vary::EndEpoch, 2_000_000).unwrap();
    assert_eq!(extended.end_us, 17_000_000);
    // Steering coefficients accumulate at their order.
    let steered = m.apply_correction(Vary::MnvrAlphaDot, 40).unwrap();
    assert_eq!(steered.alpha_inplane_deg.rate, 40);
    assert_eq!(steered.beta_outofplane_deg, m.beta_outofplane_deg);

    // An initial guess shifts epochs without the millisecond gate, keeping
    // the signed value even for a duration.
    let guessed = m.apply_initial_guess(Vary::Duration, 500).unwrap();
    assert_eq!(guessed.end_us, 10_000_500);
    // A perturbation keeps the millisecond gate but the signed value.
    let gated = m.apply_perturbation(Vary::Duration, 500).unwrap();
    assert_eq!(gated, m);
    let perturbed = m.apply_perturbation(Vary::Duration, -3_000_000).unwrap();
    assert_eq!(perturbed.end_us, 7_000_000);
}

#[test]
fn solver_matches_exact_solutions() {
    // Diagonal system: 2 x0 = 4, 3 x1 = 9 (sensitivities carry one SCALE).
    let jac = vec![vec![2_000_000, 0], vec![0, 3_000_000]];
    let err = vec![4_000_000, 9_000_000];
    assert_eq!(solve_least_squares(&jac, &err).unwrap(), vec![2_000_000, 3_000_000]);

    // Coupled system: [[2, 1], [1, 2]] * [2, 1] = [5, 4].
    let jac = vec![vec![2_000_000, 1_000_000], vec![1_000_000, 2_000_000]];
    let err = vec![5_000_000, 4_000_000];
    assert_eq!(solve_least_squares(&jac, &err).unwrap(), vec![2_000_000, 1_000_000]);

    // Underdetermined row: the minimum-norm solution splits evenly.
    let jac = vec![vec![1_000_000, 1_000_000]];
    let err = vec![2_000_000];
    assert_eq!(solve_least_squares(&jac, &err).unwrap(), vec![1_000_000, 1_000_000]);

    // A zero sensitivity matrix yields the zero correction.
    let jac = vec![vec![0, 0], vec![0, 0]];
    let err = vec![1_000_000, 1];
    assert_eq!(solve_least_squares(&jac, &err).unwrap(), vec![0, 0]);

    // Overdetermined but consistent: [[1], [2]] * [3] = [3, 6].
    let jac = vec![vec![1_000_000], vec![2_000_000]];
    let err = vec![3_000_000, 6_000_000];
    assert_eq!(solve_least_squares(&jac, &err).unwrap(), vec![3_000_000]);

    // A normal-matrix entry past the fixed-point range cannot be eliminated.
    let jac = vec![vec![i64::MAX]];
    let err = vec![i64::MAX];
    assert_eq!(
        solve_least_squares(&jac, &err),
        Err(TargetingError::SingularJacobian)
    );
}

#[test]
fn rotation_applies_row_dot_products() {
    // Swap x and y, drop z, all at unit magnitude.
    let dcm = Dcm {
        rx: Vec3 { x: 0, y: SCALE, z: 0 },
        ry: Vec3 { x: SCALE, y: 0, z: 0 },
        rz: Vec3 { x: 0, y: 0, z: 0 },
    };
    assert!(dcm.check_unit_bounded());
    let v = Vec3 { x: 10, y: 20, z: 30 };
    assert_eq!(dcm.apply(&v), Ok(Vec3 { x: 20, y: 10, z: 0 }));
    // Half-unit entries halve the components, rounding towards zero.
    let half = Dcm {
        rx: Vec3 { x: SCALE / 2, y: 0, z: 0 },
        ry: Vec3 { x: 0, y: SCALE / 2, z: 0 },
        rz: Vec3 { x: 0, y: 0, z: SCALE / 2 },
    };
    assert_eq!(half.apply(&Vec3 { x: 5, y: -5, z: 0 }), Ok(Vec3 { x: 2, y: -2, z: 0 }));
    let t = dcm.transpose();
    assert_eq!(t.rx.y, SCALE);
    assert_eq!(t.ry.x, SCALE);
    // An entry past one unit is not a direction-cosine matrix.
    let bad = Dcm { rx: Vec3 { x: SCALE + 1, y: 0, z: 0 }, ry: Vec3::zero(), rz: Vec3::zero() };
    assert!(!bad.check_unit_bounded());
}

#[test]
fn state_delta_indexes_like_the_tags() {
    let mut d = StateDelta::zero();
    d.add_at(0, 7).unwrap();
    d.add_at(3, -2).unwrap();
    d.add_at(3, -3).unwrap();
    assert_eq!((d.x, d.vx), (7, -5));
    assert_eq!((d.y, d.z, d.vy, d.vz), (0, 0, 0, 0));
    assert_eq!(d.velocity(), Vec3 { x: -5, y: 0, z: 0 });
}

#[test]
fn spacecraft_builders_set_their_fields() {
    let orbit = Orbit { x: 1, y: 2, z: 3, vx: 4, vy: 5, vz: 6, epoch_us: 7 };
    let sc = Spacecraft::new(orbit, 500_000_000, 100_000_000, 2_000_000, 3_000_000, 1_800_000,
        2_200_000);
    assert_eq!(sc.orbit, orbit);
    assert_eq!(sc.srp, SrpConfig { area_m2: 2_000_000, cr: 1_800_000 });
    assert_eq!(sc.drag, DragConfig { area_m2: 3_000_000, cd: 2_200_000 });
    assert!(sc.thruster.is_none());
    assert_eq!(sc.mass_kg(), Ok(600_000_000));

    let th = Thruster { thrust: 2_000_000, isp: 300_000_000 };
    let sc2 = Spacecraft::from_thruster(orbit, 500, 100, th, GuidanceMode::Inhibit);
    assert_eq!(sc2.thruster, Some(th));
    assert_eq!(sc2.mode(), GuidanceMode::Inhibit);
    assert_eq!(sc2.srp.cr, DEFAULT_CR);

    let sc3 = Spacecraft::from_srp_defaults(orbit, 500, 4_000_000);
    assert_eq!(sc3.srp, SrpConfig { area_m2: 4_000_000, cr: DEFAULT_CR });
    assert_eq!(sc3.fuel_mass_kg, 0);
    let sc4 = Spacecraft::from_drag_defaults(orbit, 500, 4_000_000);
    assert_eq!(sc4.drag, DragConfig { area_m2: 4_000_000, cd: DEFAULT_CD });

    let sc5 = sc
        .with_dry_mass(11)
        .with_fuel_mass(22)
        .with_srp_area(33)
        .with_cr(44)
        .with_drag_area(55)
        .with_cd(66);
    assert_eq!((sc5.dry_mass_kg, sc5.fuel_mass_kg), (11, 22));
    assert_eq!(sc5.srp, SrpConfig { area_m2: 33, cr: 44 });
    assert_eq!(sc5.drag, DragConfig { area_m2: 55, cd: 66 });
    let sc6 = sc.with_srp(1, 2).with_drag(3, 4);
    assert_eq!(sc6.srp, SrpConfig { area_m2: 1, cr: 2 });
    assert_eq!(sc6.drag, DragConfig { area_m2: 3, cd: 4 });

    let mut sc7 = sc.with_guidance_mode(GuidanceMode::Thrust);
    assert_eq!(sc7.mode(), GuidanceMode::Thrust);
    sc7.mut_mode(GuidanceMode::Coast);
    assert_eq!(sc7.mode(), GuidanceMode::Coast);

    let sc8 = sc.with_dv_km_s(&Vec3 { x: 10, y: -10, z: 0 }).unwrap();
    assert_eq!((sc8.orbit.vx, sc8.orbit.vy, sc8.orbit.vz), (14, -5, 6));
    assert_eq!(sc8.orbit.x, 1);

    let sc9 = sc.with_orbit(Orbit::zero());
    assert_eq!(sc9.orbit, Orbit::zero());
}

#[test]
fn spacecraft_parameter_access_covers_cartesian_reads() {
    let orbit = Orbit { x: 1, y: 2, z: 3, vx: 4, vy: 5, vz: 6, epoch_us: 7 };
    let mut sc = Spacecraft::default().with_orbit(orbit);
    assert_eq!(sc.value(StateParameter::Y), Some(2));
    assert_eq!(sc.value(StateParameter::VZ), Some(6));
    assert_eq!(sc.value(StateParameter::Sma), None);
    assert!(sc.set_value(StateParameter::VX, 44));
    assert_eq!(sc.value(StateParameter::VX), Some(44));
    assert!(!sc.set_value(StateParameter::Ecc, 1));
    assert_eq!(sc.orbit.epoch_us, 7);
}

#[test]
fn rss_takes_integer_square_roots_of_exact_sums() {
    let a = Spacecraft::default().with_orbit(Orbit { x: 3000, y: 4000, z: 0, vx: 0, vy: 0, vz: 30,
        epoch_us: 0 });
    let b = Spacecraft::default().with_fuel_mass(-7);
    let (p, v, f) = a.rss(&b).unwrap();
    assert_eq!(p, 5000);
    assert_eq!(v, 30);
    assert_eq!(f, 7);
}

#[test]
fn guidance_mode_scalar_round_trip() {
    assert_eq!(GuidanceMode::from_value(SCALE), GuidanceMode::Thrust);
    assert_eq!(GuidanceMode::from_value(SCALE - 1), GuidanceMode::Coast);
    assert_eq!(GuidanceMode::from_value(-1), GuidanceMode::Inhibit);
    assert_eq!(GuidanceMode::Thrust.value(), SCALE);
    assert_eq!(GuidanceMode::Coast.value(), 0);
    assert_eq!(GuidanceMode::Inhibit.value(), -SCALE);
    assert_eq!(GuidanceMode::default(), GuidanceMode::Coast);
}
