use vstd::prelude::*;

use crate::arith::SCALE;

verus! {

/// The closed set of free parameters the corrector may adjust: the six
/// Cartesian state components, the burn-window epochs, and the six
/// maneuver-polynomial coefficients (value, rate and curvature of the
/// in-plane and out-of-plane steering angles).
#[derive(Clone, Copy, Debug, PartialEq, Eq, Structural)]
pub enum Vary {
    PositionX,
    PositionY,
    PositionZ,
    VelocityX,
    VelocityY,
    VelocityZ,
    /// Shifts the start of the maneuver window.
    StartEpoch,
    /// Shifts the end of the maneuver window.
    EndEpoch,
    /// Re-derives the end of the maneuver window from its start plus a
    /// duration, so a correction can never invert the window.
    Duration,
    MnvrAlpha,
    MnvrAlphaDot,
    MnvrAlphaDDot,
    MnvrBeta,
    MnvrBetaDot,
    MnvrBetaDDot,
}

/// Where a tag lands: position components 0 to 2 and velocity components 3
/// to 5 of the Cartesian correction vector, or coefficient orders 0 to 2 of
/// a steering polynomial. Burn-timing tags address no vector slot.
pub open spec fn vec_index_spec(v: Vary) -> int {
    match v {
        Vary::PositionX => 0,
        Vary::PositionY => 1,
        Vary::PositionZ => 2,
        Vary::VelocityX => 3,
        Vary::VelocityY => 4,
        Vary::VelocityZ => 5,
        Vary::StartEpoch => 0,
        Vary::EndEpoch => 0,
        Vary::Duration => 0,
        Vary::MnvrAlpha => 0,
        Vary::MnvrAlphaDot => 1,
        Vary::MnvrAlphaDDot => 2,
        Vary::MnvrBeta => 0,
        Vary::MnvrBetaDot => 1,
        Vary::MnvrBetaDDot => 2,
    }
}

impl Vary {
    /// The vector slot or polynomial order this tag addresses.
    pub fn vec_index(&self) -> (r: usize)
        ensures
            r == vec_index_spec(*self),
    {
        match self {
            Vary::PositionX => 0,
            Vary::PositionY => 1,
            Vary::PositionZ => 2,
            Vary::VelocityX => 3,
            Vary::VelocityY => 4,
            Vary::VelocityZ => 5,
            Vary::StartEpoch => 0,
            Vary::EndEpoch => 0,
            Vary::Duration => 0,
            Vary::MnvrAlpha => 0,
            Vary::MnvrAlphaDot => 1,
            Vary::MnvrAlphaDDot => 2,
            Vary::MnvrBeta => 0,
            Vary::MnvrBetaDot => 1,
            Vary::MnvrBetaDDot => 2,
        }
    }

    /// Whether this tag perturbs the maneuver model rather than the state:
    /// burn timing or a steering-polynomial coefficient. A problem holding
    /// such a tag is a finite-burn target and needs a thruster.
    pub open spec fn is_finite_burn_spec(self) -> bool {
        match self {
            Vary::PositionX | Vary::PositionY | Vary::PositionZ => false,
            Vary::VelocityX | Vary::VelocityY | Vary::VelocityZ => false,
            _ => true,
        }
    }

    /// Whether this tag perturbs the maneuver model rather than the state.
    pub fn is_finite_burn(&self) -> (r: bool)
        ensures
            r == self.is_finite_burn_spec(),
    {
        !matches!(
            self,
            Vary::PositionX
                | Vary::PositionY
                | Vary::PositionZ
                | Vary::VelocityX
                | Vary::VelocityY
                | Vary::VelocityZ
        )
    }

    /// Whether this tag addresses a Cartesian position component, which no
    /// velocity-relative local frame can express.
    pub open spec fn is_position_spec(self) -> bool {
        self is PositionX || self is PositionY || self is PositionZ
    }

    /// Whether this tag addresses a Cartesian position component.
    pub fn is_position(&self) -> (r: bool)
        ensures
            r == self.is_position_spec(),
    {
        matches!(self, Vary::PositionX | Vary::PositionY | Vary::PositionZ)
    }
}

/// Default half-width of the admissible interval of a new variable.
pub const DEFAULT_BOUND: i64 = 0x100_0000_0000;

/// Default finite-difference perturbation of a new variable: one
/// ten-thousandth of a unit.
pub const DEFAULT_PERTURBATION: i64 = 100;

/// A bounded free parameter: which component it adjusts, its initial guess,
/// the finite-difference perturbation used to estimate sensitivities, the
/// largest step one iteration may take, and the admissible interval.
///
/// Invariant (`valid`): `min_value <= max_value` and a non-zero
/// `perturbation`.
#[derive(Clone, Copy, Debug, PartialEq, Eq, Structural)]
pub struct Variable {
    pub component: Vary,
    pub init_guess: i64,
    pub perturbation: i64,
    pub max_step: i64,
    pub min_value: i64,
    pub max_value: i64,
}

impl Variable {
    /// Whether the variable respects its own invariant.
    pub open spec fn valid_spec(self) -> bool {
        self.min_value <= self.max_value && self.perturbation != 0
    }

    /// Checks the variable's invariant: ordered bounds and a non-zero
    /// finite-difference perturbation.
    pub fn valid(&self) -> (r: bool)
        ensures
            r == self.valid_spec(),
    {
        self.min_value <= self.max_value && self.perturbation != 0
    }

    /// A variable for `component` with a zero initial guess, the default
    /// perturbation, a one-unit step limit and the default bounds.
    pub fn new(component: Vary) -> (r: Variable)
        ensures
            r.component == component,
            r.init_guess == 0,
            r.perturbation == DEFAULT_PERTURBATION,
            r.max_step == SCALE,
            r.min_value == -DEFAULT_BOUND && r.max_value == DEFAULT_BOUND,
            r.valid_spec(),
    {
        Variable {
            component,
            init_guess: 0,
            perturbation: DEFAULT_PERTURBATION,
            max_step: SCALE,
            min_value: -DEFAULT_BOUND,
            max_value: DEFAULT_BOUND,
        }
    }

    /// Returns a copy with a new initial guess.
    pub fn with_initial_guess(&self, guess: i64) -> (r: Variable)
        ensures
            r == (Variable { init_guess: guess, ..*self }),
    {
        Variable { init_guess: guess, ..*self }
    }

    /// Returns a copy with a new finite-difference perturbation.
    pub fn with_perturbation(&self, perturbation: i64) -> (r: Variable)
        ensures
            r == (Variable { perturbation, ..*self }),
    {
        Variable { perturbation, ..*self }
    }

    /// Returns a copy with a new per-iteration step limit.
    pub fn with_max_step(&self, max_step: i64) -> (r: Variable)
        ensures
            r == (Variable { max_step, ..*self }),
    {
        Variable { max_step, ..*self }
    }

    /// Returns a copy with new admissible bounds.
    pub fn with_bounds(&self, min_value: i64, max_value: i64) -> (r: Variable)
        ensures
            r == (Variable { min_value, max_value, ..*self }),
    {
        Variable { min_value, max_value, ..*self }
    }
}

} // verus!
