//! A boundary-value targeting (differential-correction) engine for spacecraft
//! trajectories.
//!
//! Given a nominal trajectory, a set of bounded free parameters and a set of
//! desired terminal conditions, the corrector iteratively adjusts the
//! variables so that propagating the trajectory forward drives the achieved
//! terminal state to match the objectives within tolerance.
//!
//! The numerical propagator, the orbit representation and its coordinate
//! conversions are external collaborators. All physical quantities handled by
//! this crate are signed 64-bit fixed-point values carrying one millionth of
//! the caller's base unit per count; epochs are counts of microseconds. See
//! [`arith`] for the conventions.

pub mod arith;
pub mod clock;
pub mod convert_impulsive;
pub mod errors;
pub mod frames;
pub mod maneuver;
pub mod objective;
pub mod params;
pub mod polynomial;
pub mod propagator;
pub mod solver;
pub mod state;
pub mod targeter;
pub mod variable;

pub use arith::SCALE;
pub use errors::TargetingError;
pub use frames::{Dcm, LocalFrame, Vec3};
pub use maneuver::Mnvr;
pub use objective::Objective;
pub use params::StateParameter;
pub use polynomial::QuadraticPolynomial;
pub use propagator::{objective_value, BurnSeed, Propagator};
pub use solver::solve_least_squares;
pub use state::{DragConfig, GuidanceMode, Orbit, Spacecraft, SrpConfig, StateDelta, Thruster};
pub use targeter::{Optimizer, Targeter, TargeterSolution};
pub use variable::{Variable, Vary};
