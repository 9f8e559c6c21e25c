use vstd::prelude::*;

use crate::arith::{abs_int, checked_abs, checked_add, checked_diff, fits_i64, SCALE};
use crate::errors::TargetingError;
use crate::frames::LocalFrame;
use crate::polynomial::{coeff_spec, with_coeff_spec, QuadraticPolynomial};
use crate::variable::{vec_index_spec, Vary};

verus! {

/// One millisecond, in microseconds: an epoch-valued perturbation or
/// correction at or below this magnitude is a no-op, so the propagator is
/// never asked to resolve a window shift it cannot step across.
pub const MILLISECOND_US: i64 = 1000;

/// The width of the default maneuver window: five seconds.
pub const DEFAULT_WINDOW_US: i64 = 5_000_000;

/// A time-windowed control profile: the burn window, a scalar thrust level in
/// `[0, SCALE]`, and two independent quadratic steering profiles (in-plane
/// and out-of-plane angles, fixed-point degrees), expressed in a local frame.
///
/// Invariant as constructed: `start_us <= end_us`. Corrections to the burn
/// duration re-derive the end of the window from its start plus a magnitude,
/// so they can never invert it; corrections to the start or end epoch alone
/// follow the correction's sign.
#[derive(Clone, Copy, Debug, PartialEq, Eq, Structural)]
pub struct Mnvr {
    pub start_us: i64,
    pub end_us: i64,
    pub thrust_lvl: i64,
    pub alpha_inplane_deg: QuadraticPolynomial,
    pub beta_outofplane_deg: QuadraticPolynomial,
    pub frame: LocalFrame,
}

/// How a maneuver looks after one tagged update of magnitude `val`:
/// `Some` of the new maneuver, or `None` when a shifted epoch or coefficient
/// would leave the representable range.
///
/// `use_abs_duration` makes a `Duration` update take the magnitude of `val`
/// (the rule for corrections); `use_threshold` gates every epoch update
/// behind the one-millisecond no-op rule.
pub open spec fn mnvr_update_spec(
    m: Mnvr,
    component: Vary,
    val: int,
    use_abs_duration: bool,
    use_threshold: bool,
) -> Option<Mnvr>
    recommends
        component.is_finite_burn_spec(),
{
    let gate = !use_threshold || abs_int(val) > MILLISECOND_US;
    match component {
        Vary::Duration => if !gate {
            Some(m)
        } else {
            let d = if use_abs_duration {
                abs_int(val)
            } else {
                val
            };
            if fits_i64(d) && fits_i64(m.start_us + d) {
                Some(Mnvr { end_us: (m.start_us + d) as i64, ..m })
            } else {
                None
            }
        },
        Vary::EndEpoch => if !gate {
            Some(m)
        } else if fits_i64(m.end_us + val) {
            Some(Mnvr { end_us: (m.end_us + val) as i64, ..m })
        } else {
            None
        },
        Vary::StartEpoch => if !gate {
            Some(m)
        } else if fits_i64(m.start_us + val) {
            Some(Mnvr { start_us: (m.start_us + val) as i64, ..m })
        } else {
            None
        },
        Vary::MnvrAlpha | Vary::MnvrAlphaDot | Vary::MnvrAlphaDDot => {
            let o = vec_index_spec(component);
            let c = coeff_spec(m.alpha_inplane_deg, o).unwrap();
            if fits_i64(c + val) {
                Some(
                    Mnvr {
                        alpha_inplane_deg: with_coeff_spec(m.alpha_inplane_deg, o, (c + val) as i64),
                        ..m
                    },
                )
            } else {
                None
            }
        },
        Vary::MnvrBeta | Vary::MnvrBetaDot | Vary::MnvrBetaDDot => {
            let o = vec_index_spec(component);
            let c = coeff_spec(m.beta_outofplane_deg, o).unwrap();
            if fits_i64(c + val) {
                Some(
                    Mnvr {
                        beta_outofplane_deg: with_coeff_spec(
                            m.beta_outofplane_deg,
                            o,
                            (c + val) as i64,
                        ),
                        ..m
                    },
                )
            } else {
                None
            }
        },
        _ => Some(m),
    }
}

impl Mnvr {
    /// The default maneuver seeded at `epoch_us`: a five-second window at
    /// full thrust with zero steering profiles in the radial, cross-track,
    /// normal frame. Only used once a finite-burn variable is present.
    pub fn default_at(epoch_us: i64) -> (r: Result<Mnvr, TargetingError>)
        ensures
            r matches Ok(m) ==> {
                &&& m.start_us == epoch_us
                &&& m.end_us == epoch_us + DEFAULT_WINDOW_US
                &&& m.thrust_lvl == SCALE
                &&& m.alpha_inplane_deg == (QuadraticPolynomial { value: 0, rate: 0, curvature: 0 })
                &&& m.beta_outofplane_deg == (QuadraticPolynomial {
                    value: 0,
                    rate: 0,
                    curvature: 0,
                })
                &&& m.frame == LocalFrame::RCN
            },
            r is Ok <==> fits_i64(epoch_us + DEFAULT_WINDOW_US),
            r is Err ==> r == Err::<Mnvr, TargetingError>(TargetingError::ValueOutOfRange),
    {
        let end_us: i64 = checked_add(epoch_us, DEFAULT_WINDOW_US)?;
        Ok(
            Mnvr {
                start_us: epoch_us,
                end_us,
                thrust_lvl: SCALE,
                alpha_inplane_deg: QuadraticPolynomial::zero(),
                beta_outofplane_deg: QuadraticPolynomial::zero(),
                frame: LocalFrame::RCN,
            },
        )
    }

    /// The signed width of the burn window in microseconds.
    pub fn duration_us(&self) -> (r: Result<i64, TargetingError>)
        ensures
            r matches Ok(d) ==> d == self.end_us - self.start_us,
            r matches Ok(d) <==> fits_i64(self.end_us - self.start_us),
            r is Err ==> r == Err::<i64, TargetingError>(TargetingError::ValueOutOfRange),
    {
        checked_diff(self.end_us, self.start_us)
    }

    /// Applies a variable's initial guess: epochs shift unconditionally,
    /// steering coefficients accumulate at their order.
    pub fn apply_initial_guess(&self, component: Vary, guess: i64) -> (r: Result<
        Mnvr,
        TargetingError,
    >)
        requires
            component.is_finite_burn_spec(),
        ensures
            r matches Ok(m) ==> mnvr_update_spec(*self, component, guess as int, false, false)
                == Some(m),
            mnvr_update_spec(*self, component, guess as int, false, false) is Some ==> r is Ok,
            r is Err ==> r == Err::<Mnvr, TargetingError>(TargetingError::ValueOutOfRange),
    {
        self.update(component, guess, false, false)
    }

    /// Applies a finite-difference perturbation: epoch shifts at or below
    /// one millisecond are no-ops, steering coefficients always accumulate.
    pub fn apply_perturbation(&self, component: Vary, pert: i64) -> (r: Result<
        Mnvr,
        TargetingError,
    >)
        requires
            component.is_finite_burn_spec(),
        ensures
            r matches Ok(m) ==> mnvr_update_spec(*self, component, pert as int, false, true)
                == Some(m),
            mnvr_update_spec(*self, component, pert as int, false, true) is Some ==> r is Ok,
            r is Err ==> r == Err::<Mnvr, TargetingError>(TargetingError::ValueOutOfRange),
    {
        self.update(component, pert, false, true)
    }

    /// Applies one iteration's correction: epoch shifts at or below one
    /// millisecond are no-ops, and a duration correction re-derives the end
    /// of the window from its start plus the correction's magnitude, so the
    /// window can never invert.
    pub fn apply_correction(&self, component: Vary, corr: i64) -> (r: Result<Mnvr, TargetingError>)
        requires
            component.is_finite_burn_spec(),
        ensures
            r matches Ok(m) ==> mnvr_update_spec(*self, component, corr as int, true, true) == Some(
                m,
            ),
            mnvr_update_spec(*self, component, corr as int, true, true) is Some ==> r is Ok,
            r is Err ==> r == Err::<Mnvr, TargetingError>(TargetingError::ValueOutOfRange),
    {
        self.update(component, corr, true, true)
    }

    /// Shared update rule behind the three application modes.
    fn update(&self, component: Vary, val: i64, use_abs_duration: bool, use_threshold: bool) -> (r:
        Result<Mnvr, TargetingError>)
        requires
            component.is_finite_burn_spec(),
        ensures
            r matches Ok(m) ==> mnvr_update_spec(
                *self,
                component,
                val as int,
                use_abs_duration,
                use_threshold,
            ) == Some(m),
            mnvr_update_spec(*self, component, val as int, use_abs_duration, use_threshold)
                is Some ==> r is Ok,
            r is Err ==> r == Err::<Mnvr, TargetingError>(TargetingError::ValueOutOfRange),
    {
        let gated: bool = use_threshold && within_millisecond(val);
        match component {
            Vary::Duration => {
                if gated {
                    Ok(*self)
                } else {
                    let d: i64 = if use_abs_duration {
                        checked_abs(val)?
                    } else {
                        val
                    };
                    let end_us: i64 = checked_add(self.start_us, d)?;
                    Ok(Mnvr { end_us, ..*self })
                }
            },
            Vary::EndEpoch => {
                if gated {
                    Ok(*self)
                } else {
                    let end_us: i64 = checked_add(self.end_us, val)?;
                    Ok(Mnvr { end_us, ..*self })
                }
            },
            Vary::StartEpoch => {
                if gated {
                    Ok(*self)
                } else {
                    let start_us: i64 = checked_add(self.start_us, val)?;
                    Ok(Mnvr { start_us, ..*self })
                }
            },
            Vary::MnvrAlpha | Vary::MnvrAlphaDot | Vary::MnvrAlphaDDot => {
                let alpha: QuadraticPolynomial = self.alpha_inplane_deg.add_val_in_order(
                    val,
                    component.vec_index(),
                )?;
                Ok(Mnvr { alpha_inplane_deg: alpha, ..*self })
            },
            Vary::MnvrBeta | Vary::MnvrBetaDot | Vary::MnvrBetaDDot => {
                let beta: QuadraticPolynomial = self.beta_outofplane_deg.add_val_in_order(
                    val,
                    component.vec_index(),
                )?;
                Ok(Mnvr { beta_outofplane_deg: beta, ..*self })
            },
            _ => {
                proof {
                    assert(false);
                }
                Ok(*self)
            },
        }
    }
}

/// Whether an epoch-valued update is within the one-millisecond no-op band.
fn within_millisecond(val: i64) -> (r: bool)
    ensures
        r <==> abs_int(val as int) <= MILLISECOND_US,
{
    val as i128 <= MILLISECOND_US as i128 && -(val as i128) <= MILLISECOND_US as i128
}

} // verus!
