use vstd::prelude::*;

verus! {

/// A tag naming a scalar quantity of the terminal state that an objective
/// can constrain.
///
/// The six Cartesian components are read directly off the state by the
/// corrector. Every other tag is derived: the orbit collaborator computes it
/// (for the B-plane coordinates, from a forward-mode-differentiable
/// representation of the terminal state, of which only the value part is
/// consumed here).
#[derive(Clone, Copy, Debug, PartialEq, Eq, Structural)]
pub enum StateParameter {
    /// Cartesian position, kilometres.
    X,
    Y,
    Z,
    /// Cartesian velocity, kilometres per second.
    VX,
    VY,
    VZ,
    /// Position magnitude, kilometres.
    Rmag,
    /// Velocity magnitude, kilometres per second.
    Vmag,
    /// Semi-major axis, kilometres.
    Sma,
    /// Eccentricity, dimensionless.
    Ecc,
    /// Inclination, degrees.
    Inc,
    /// B-plane B-dot-R, kilometres.
    BdotR,
    /// B-plane B-dot-T, kilometres.
    BdotT,
    /// B-plane linearized time of flight, seconds.
    BLTOF,
}

impl StateParameter {
    /// Whether this parameter is one of the three B-plane coordinates.
    pub open spec fn is_b_plane_spec(self) -> bool {
        self is BdotR || self is BdotT || self is BLTOF
    }

    /// Whether this parameter is one of the three B-plane coordinates.
    pub fn is_b_plane(&self) -> (r: bool)
        ensures
            r == self.is_b_plane_spec(),
    {
        matches!(self, StateParameter::BdotR | StateParameter::BdotT | StateParameter::BLTOF)
    }

    /// Whether this parameter is a direct read of a Cartesian state
    /// component.
    pub open spec fn is_direct_spec(self) -> bool {
        self is X || self is Y || self is Z || self is VX || self is VY || self is VZ
    }

    /// Whether this parameter is a direct read of a Cartesian state
    /// component.
    pub fn is_direct(&self) -> (r: bool)
        ensures
            r == self.is_direct_spec(),
    {
        matches!(
            self,
            StateParameter::X
                | StateParameter::Y
                | StateParameter::Z
                | StateParameter::VX
                | StateParameter::VY
                | StateParameter::VZ
        )
    }
}

} // verus!
