use vstd::prelude::*;

use crate::arith::{checked_add, fits_i64};
use crate::errors::TargetingError;
use crate::frames::Vec3;
use crate::params::StateParameter;

verus! {

/// Whether a guidance law is currently allowed to thrust.
#[derive(Clone, Copy, Debug, PartialEq, Eq, Structural)]
pub enum GuidanceMode {
    /// Guidance is off; a guidance law may switch the mode to `Thrust`.
    Coast,
    /// Guidance is on; a guidance law may switch the mode to `Coast`.
    Thrust,
    /// Guidance is off and may only be re-enabled externally.
    Inhibit,
}

impl Default for GuidanceMode {
    fn default() -> (r: Self)
        ensures
            r == GuidanceMode::Coast,
    {
        GuidanceMode::Coast
    }
}

impl GuidanceMode {
    /// The mode encoded by a fixed-point scalar: one unit or more is
    /// `Thrust`, a negative value is `Inhibit`, anything else `Coast`.
    pub fn from_value(value: i64) -> (r: GuidanceMode)
        ensures
            value >= crate::arith::SCALE ==> r == GuidanceMode::Thrust,
            value < 0 ==> r == GuidanceMode::Inhibit,
            0 <= value < crate::arith::SCALE ==> r == GuidanceMode::Coast,
    {
        if value >= crate::arith::SCALE {
            GuidanceMode::Thrust
        } else if value < 0 {
            GuidanceMode::Inhibit
        } else {
            GuidanceMode::Coast
        }
    }

    /// The fixed-point scalar encoding this mode.
    pub fn value(&self) -> (r: i64)
        ensures
            *self is Thrust ==> r == crate::arith::SCALE,
            *self is Coast ==> r == 0,
            *self is Inhibit ==> r == -crate::arith::SCALE,
    {
        match self {
            GuidanceMode::Coast => 0,
            GuidanceMode::Thrust => crate::arith::SCALE,
            GuidanceMode::Inhibit => -crate::arith::SCALE,
        }
    }
}

/// A thruster configuration: thrust in fixed-point newtons and specific
/// impulse in fixed-point seconds. The corrector itself only tests for the
/// presence of a thruster; the burn physics belong to the collaborators.
#[derive(Clone, Copy, Debug, PartialEq, Eq, Structural)]
pub struct Thruster {
    pub thrust: i64,
    pub isp: i64,
}

/// The solar-radiation-pressure configuration of a spacecraft.
#[derive(Clone, Copy, Debug, PartialEq, Eq, Structural)]
pub struct SrpConfig {
    /// Radiation area, fixed-point square metres.
    pub area_m2: i64,
    /// Coefficient of reflectivity, fixed point, between 0 and 2.
    pub cr: i64,
}

/// Default coefficient of reflectivity: 1.8 in fixed point.
pub const DEFAULT_CR: i64 = 1_800_000;

impl SrpConfig {
    /// A configuration with the default coefficient of reflectivity and the
    /// provided area.
    pub fn from_area(area_m2: i64) -> (r: SrpConfig)
        ensures
            r.area_m2 == area_m2,
            r.cr == DEFAULT_CR,
    {
        SrpConfig { area_m2, cr: DEFAULT_CR }
    }
}

impl Default for SrpConfig {
    fn default() -> (r: Self)
        ensures
            r.area_m2 == 0 && r.cr == DEFAULT_CR,
    {
        SrpConfig { area_m2: 0, cr: DEFAULT_CR }
    }
}

/// The drag configuration of a spacecraft.
#[derive(Clone, Copy, Debug, PartialEq, Eq, Structural)]
pub struct DragConfig {
    /// Drag area, fixed-point square metres.
    pub area_m2: i64,
    /// Coefficient of drag, fixed point.
    pub cd: i64,
}

/// Default coefficient of drag: 2.2 in fixed point.
pub const DEFAULT_CD: i64 = 2_200_000;

impl DragConfig {
    /// A configuration with the default coefficient of drag and the provided
    /// area.
    pub fn from_area(area_m2: i64) -> (r: DragConfig)
        ensures
            r.area_m2 == area_m2,
            r.cd == DEFAULT_CD,
    {
        DragConfig { area_m2, cd: DEFAULT_CD }
    }
}

impl Default for DragConfig {
    fn default() -> (r: Self)
        ensures
            r.area_m2 == 0 && r.cd == DEFAULT_CD,
    {
        DragConfig { area_m2: 0, cd: DEFAULT_CD }
    }
}

/// A Cartesian orbit state: position and velocity in fixed point and the
/// epoch in microseconds.
#[derive(Clone, Copy, Debug, PartialEq, Eq, Structural)]
pub struct Orbit {
    pub x: i64,
    pub y: i64,
    pub z: i64,
    pub vx: i64,
    pub vy: i64,
    pub vz: i64,
    pub epoch_us: i64,
}

/// A correction to the six Cartesian components, indexed like the
/// variable tags: 0 to 2 position, 3 to 5 velocity.
#[derive(Clone, Copy, Debug, PartialEq, Eq, Structural)]
pub struct StateDelta {
    pub x: i64,
    pub y: i64,
    pub z: i64,
    pub vx: i64,
    pub vy: i64,
    pub vz: i64,
}

/// The component of a delta at a Cartesian slot.
pub open spec fn delta_component(d: StateDelta, idx: int) -> i64 {
    if idx == 0 {
        d.x
    } else if idx == 1 {
        d.y
    } else if idx == 2 {
        d.z
    } else if idx == 3 {
        d.vx
    } else if idx == 4 {
        d.vy
    } else {
        d.vz
    }
}

impl StateDelta {
    /// The zero correction.
    pub fn zero() -> (r: StateDelta)
        ensures
            forall|i: int| 0 <= i < 6 ==> delta_component(r, i) == 0,
    {
        StateDelta { x: 0, y: 0, z: 0, vx: 0, vy: 0, vz: 0 }
    }

    /// Adds `val` into the slot `idx`, leaving every other slot unchanged.
    pub fn add_at(&mut self, idx: usize, val: i64) -> (r: Result<(), TargetingError>)
        requires
            idx < 6,
        ensures
            r matches Ok(u) ==> {
                &&& delta_component(*final(self), idx as int) == delta_component(
                    *old(self),
                    idx as int,
                ) + val
                &&& forall|i: int|
                    0 <= i < 6 && i != idx ==> delta_component(*final(self), i) == delta_component(
                        *old(self),
                        i,
                    )
            },
            r is Ok <==> fits_i64(delta_component(*old(self), idx as int) + val),
            r is Err ==> *final(self) == *old(self) && r == Err::<(), TargetingError>(
                TargetingError::ValueOutOfRange,
            ),
    {
        let cur: i64 = if idx == 0 {
            self.x
        } else if idx == 1 {
            self.y
        } else if idx == 2 {
            self.z
        } else if idx == 3 {
            self.vx
        } else if idx == 4 {
            self.vy
        } else {
            self.vz
        };
        let new_val: i64 = checked_add(cur, val)?;
        if idx == 0 {
            self.x = new_val;
        } else if idx == 1 {
            self.y = new_val;
        } else if idx == 2 {
            self.z = new_val;
        } else if idx == 3 {
            self.vx = new_val;
        } else if idx == 4 {
            self.vy = new_val;
        } else {
            self.vz = new_val;
        }
        Ok(())
    }

    /// The velocity half of the correction as a three-vector.
    pub fn velocity(&self) -> (r: Vec3)
        ensures
            r.x == self.vx && r.y == self.vy && r.z == self.vz,
    {
        Vec3 { x: self.vx, y: self.vy, z: self.vz }
    }
}

impl Orbit {
    /// An orbit with all components zero at epoch zero.
    pub fn zero() -> (r: Orbit)
        ensures
            r.x == 0 && r.y == 0 && r.z == 0 && r.vx == 0 && r.vy == 0 && r.vz == 0
                && r.epoch_us == 0,
    {
        Orbit { x: 0, y: 0, z: 0, vx: 0, vy: 0, vz: 0, epoch_us: 0 }
    }

    /// Returns a copy with the velocity increment `dv` applied; the position
    /// and epoch are untouched.
    pub fn apply_dv(&self, dv: &Vec3) -> (r: Result<Orbit, TargetingError>)
        ensures
            r matches Ok(o) ==> {
                &&& o.vx == self.vx + dv.x && o.vy == self.vy + dv.y && o.vz == self.vz + dv.z
                &&& o.x == self.x && o.y == self.y && o.z == self.z
                &&& o.epoch_us == self.epoch_us
            },
            r is Ok <==> fits_i64(self.vx + dv.x) && fits_i64(self.vy + dv.y) && fits_i64(
                self.vz + dv.z,
            ),
            r is Err ==> r == Err::<Orbit, TargetingError>(TargetingError::ValueOutOfRange),
    {
        let vx: i64 = checked_add(self.vx, dv.x)?;
        let vy: i64 = checked_add(self.vy, dv.y)?;
        let vz: i64 = checked_add(self.vz, dv.z)?;
        Ok(Orbit { vx, vy, vz, ..*self })
    }

    /// Returns a copy with the six-component correction applied; the epoch
    /// is untouched.
    pub fn with_delta(&self, d: &StateDelta) -> (r: Result<Orbit, TargetingError>)
        ensures
            r matches Ok(o) ==> {
                &&& o.x == self.x + d.x && o.y == self.y + d.y && o.z == self.z + d.z
                &&& o.vx == self.vx + d.vx && o.vy == self.vy + d.vy && o.vz == self.vz + d.vz
                &&& o.epoch_us == self.epoch_us
            },
            r is Ok <==> fits_i64(self.x + d.x) && fits_i64(self.y + d.y) && fits_i64(self.z + d.z)
                && fits_i64(self.vx + d.vx) && fits_i64(self.vy + d.vy) && fits_i64(
                self.vz + d.vz,
            ),
            r is Err ==> r == Err::<Orbit, TargetingError>(TargetingError::ValueOutOfRange),
    {
        let x: i64 = checked_add(self.x, d.x)?;
        let y: i64 = checked_add(self.y, d.y)?;
        let z: i64 = checked_add(self.z, d.z)?;
        let vx: i64 = checked_add(self.vx, d.vx)?;
        let vy: i64 = checked_add(self.vy, d.vy)?;
        let vz: i64 = checked_add(self.vz, d.vz)?;
        Ok(Orbit { x, y, z, vx, vy, vz, epoch_us: self.epoch_us })
    }
}

/// The exact squared position separation of two states.
pub open spec fn rss_position_sq_spec(a: Spacecraft, b: Spacecraft) -> int {
    let dx = a.orbit.x - b.orbit.x;
    let dy = a.orbit.y - b.orbit.y;
    let dz = a.orbit.z - b.orbit.z;
    dx * dx + dy * dy + dz * dz
}

/// The exact squared velocity separation of two states.
pub open spec fn rss_velocity_sq_spec(a: Spacecraft, b: Spacecraft) -> int {
    let dx = a.orbit.vx - b.orbit.vx;
    let dy = a.orbit.vy - b.orbit.vy;
    let dz = a.orbit.vz - b.orbit.vz;
    dx * dx + dy * dy + dz * dz
}

/// The exact squared fuel-mass separation of two states.
pub open spec fn rss_fuel_sq_spec(a: Spacecraft, b: Spacecraft) -> int {
    let d = a.fuel_mass_kg - b.fuel_mass_kg;
    d * d
}

/// The exact square of a difference of two `i64` values, which always fits a
/// `u128`.
fn square_of_diff(a: i64, b: i64) -> (r: u128)
    ensures
        r == (a - b) * (a - b),
{
    let d: i128 = a as i128 - b as i128;
    let m: u128 = if d < 0 {
        (-d) as u128
    } else {
        d as u128
    };
    proof {
        assert(m * m == (d as int) * (d as int) && m * m <= (2 * (i64::MAX as int) + 1) * (2 * (
        i64::MAX as int) + 1)) by (nonlinear_arith)
            requires
                -2 * (i64::MAX as int) - 1 <= d as int <= 2 * (i64::MAX as int) + 1,
                m == (if d < 0 {
                    -(d as int)
                } else {
                    d as int
                }),
        ;
        assert((2 * (i64::MAX as int) + 1) * (2 * (i64::MAX as int) + 1) < u128::MAX)
            by (nonlinear_arith);
    }
    m * m
}

/// The exact sum of three squared component differences, or
/// `ValueOutOfRange` past the end of the `u128` range.
fn sum_sq3(a1: i64, b1: i64, a2: i64, b2: i64, a3: i64, b3: i64) -> (r: Result<
    u128,
    TargetingError,
>)
    ensures
        r matches Ok(s) ==> s == {
            let d1 = a1 - b1;
            let d2 = a2 - b2;
            let d3 = a3 - b3;
            d1 * d1 + d2 * d2 + d3 * d3
        },
        r is Err ==> r == Err::<u128, TargetingError>(TargetingError::ValueOutOfRange),
{
    let s1: u128 = square_of_diff(a1, b1);
    let s2: u128 = square_of_diff(a2, b2);
    let s3: u128 = square_of_diff(a3, b3);
    if s1 > u128::MAX - s2 {
        return Err(TargetingError::ValueOutOfRange);
    }
    let s12: u128 = s1 + s2;
    if s12 > u128::MAX - s3 {
        return Err(TargetingError::ValueOutOfRange);
    }
    Ok(s12 + s3)
}

/// The value of a directly readable parameter of a state, or nothing for a
/// derived parameter.
pub open spec fn direct_value_spec(sc: Spacecraft, param: StateParameter) -> Option<i64> {
    match param {
        StateParameter::X => Some(sc.orbit.x),
        StateParameter::Y => Some(sc.orbit.y),
        StateParameter::Z => Some(sc.orbit.z),
        StateParameter::VX => Some(sc.orbit.vx),
        StateParameter::VY => Some(sc.orbit.vy),
        StateParameter::VZ => Some(sc.orbit.vz),
        _ => None,
    }
}

/// A spacecraft state: its orbit, dry and fuel masses in fixed-point
/// kilograms, its radiation-pressure and drag configurations, an optional
/// thruster, and its guidance mode.
#[derive(Clone, Copy, Debug, PartialEq, Eq, Structural)]
pub struct Spacecraft {
    pub orbit: Orbit,
    pub dry_mass_kg: i64,
    pub fuel_mass_kg: i64,
    pub srp: SrpConfig,
    pub drag: DragConfig,
    pub thruster: Option<Thruster>,
    pub mode: GuidanceMode,
}

impl Default for Spacecraft {
    fn default() -> (r: Self)
        ensures
            r.orbit.x == 0 && r.orbit.y == 0 && r.orbit.z == 0,
            r.orbit.vx == 0 && r.orbit.vy == 0 && r.orbit.vz == 0 && r.orbit.epoch_us == 0,
            r.dry_mass_kg == 0 && r.fuel_mass_kg == 0,
            r.srp.area_m2 == 0 && r.srp.cr == DEFAULT_CR,
            r.drag.area_m2 == 0 && r.drag.cd == DEFAULT_CD,
            r.thruster is None,
            r.mode == GuidanceMode::Coast,
    {
        Spacecraft {
            orbit: Orbit::zero(),
            dry_mass_kg: 0,
            fuel_mass_kg: 0,
            srp: SrpConfig::default(),
            drag: DragConfig::default(),
            thruster: None,
            mode: GuidanceMode::Coast,
        }
    }
}

impl Spacecraft {
    /// A spacecraft state from all of its parameters.
    pub fn new(
        orbit: Orbit,
        dry_mass_kg: i64,
        fuel_mass_kg: i64,
        srp_area_m2: i64,
        drag_area_m2: i64,
        cr: i64,
        cd: i64,
    ) -> (r: Spacecraft)
        ensures
            r.orbit == orbit,
            r.dry_mass_kg == dry_mass_kg && r.fuel_mass_kg == fuel_mass_kg,
            r.srp == (SrpConfig { area_m2: srp_area_m2, cr }),
            r.drag == (DragConfig { area_m2: drag_area_m2, cd }),
            r.thruster is None,
            r.mode == GuidanceMode::Coast,
    {
        Spacecraft {
            orbit,
            dry_mass_kg,
            fuel_mass_kg,
            srp: SrpConfig { area_m2: srp_area_m2, cr },
            drag: DragConfig { area_m2: drag_area_m2, cd },
            thruster: None,
            mode: GuidanceMode::Coast,
        }
    }

    /// A spacecraft state from a thruster and masses only, for guidance-law
    /// work that ignores drag and radiation pressure.
    pub fn from_thruster(
        orbit: Orbit,
        dry_mass_kg: i64,
        fuel_mass_kg: i64,
        thruster: Thruster,
        mode: GuidanceMode,
    ) -> (r: Spacecraft)
        ensures
            r.orbit == orbit,
            r.dry_mass_kg == dry_mass_kg && r.fuel_mass_kg == fuel_mass_kg,
            r.srp.area_m2 == 0 && r.srp.cr == DEFAULT_CR,
            r.drag.area_m2 == 0 && r.drag.cd == DEFAULT_CD,
            r.thruster == Some(thruster),
            r.mode == mode,
    {
        Spacecraft {
            orbit,
            dry_mass_kg,
            fuel_mass_kg,
            srp: SrpConfig::default(),
            drag: DragConfig::default(),
            thruster: Some(thruster),
            mode,
        }
    }

    /// A spacecraft state with only a radiation-pressure configuration (fuel
    /// mass and drag parameters nullified).
    pub fn from_srp_defaults(orbit: Orbit, dry_mass_kg: i64, srp_area_m2: i64) -> (r: Spacecraft)
        ensures
            r.orbit == orbit,
            r.dry_mass_kg == dry_mass_kg && r.fuel_mass_kg == 0,
            r.srp == (SrpConfig { area_m2: srp_area_m2, cr: DEFAULT_CR }),
            r.drag.area_m2 == 0 && r.drag.cd == DEFAULT_CD,
            r.thruster is None,
            r.mode == GuidanceMode::Coast,
    {
        Spacecraft {
            orbit,
            dry_mass_kg,
            fuel_mass_kg: 0,
            srp: SrpConfig::from_area(srp_area_m2),
            drag: DragConfig::default(),
            thruster: None,
            mode: GuidanceMode::Coast,
        }
    }

    /// A spacecraft state with only a drag configuration (fuel mass and
    /// radiation-pressure parameters nullified).
    pub fn from_drag_defaults(orbit: Orbit, dry_mass_kg: i64, drag_area_m2: i64) -> (r: Spacecraft)
        ensures
            r.orbit == orbit,
            r.dry_mass_kg == dry_mass_kg && r.fuel_mass_kg == 0,
            r.drag == (DragConfig { area_m2: drag_area_m2, cd: DEFAULT_CD }),
            r.srp.area_m2 == 0 && r.srp.cr == DEFAULT_CR,
            r.thruster is None,
            r.mode == GuidanceMode::Coast,
    {
        Spacecraft {
            orbit,
            dry_mass_kg,
            fuel_mass_kg: 0,
            srp: SrpConfig::default(),
            drag: DragConfig::from_area(drag_area_m2),
            thruster: None,
            mode: GuidanceMode::Coast,
        }
    }

    /// Returns a copy with the velocity increment applied, in fixed-point
    /// kilometres per second.
    pub fn with_dv_km_s(&self, dv: &Vec3) -> (r: Result<Spacecraft, TargetingError>)
        ensures
            r matches Ok(sc) ==> {
                &&& sc.orbit.vx == self.orbit.vx + dv.x
                &&& sc.orbit.vy == self.orbit.vy + dv.y
                &&& sc.orbit.vz == self.orbit.vz + dv.z
                &&& sc.orbit.x == self.orbit.x && sc.orbit.y == self.orbit.y && sc.orbit.z
                    == self.orbit.z
                &&& sc.orbit.epoch_us == self.orbit.epoch_us
                &&& sc == (Spacecraft { orbit: sc.orbit, ..*self })
            },
            r is Err ==> r == Err::<Spacecraft, TargetingError>(TargetingError::ValueOutOfRange),
    {
        let orbit: Orbit = self.orbit.apply_dv(dv)?;
        Ok(Spacecraft { orbit, ..*self })
    }

    /// Returns a copy with a new dry mass.
    pub fn with_dry_mass(&self, dry_mass_kg: i64) -> (r: Spacecraft)
        ensures
            r == (Spacecraft { dry_mass_kg, ..*self }),
    {
        Spacecraft { dry_mass_kg, ..*self }
    }

    /// Returns a copy with a new fuel mass.
    pub fn with_fuel_mass(&self, fuel_mass_kg: i64) -> (r: Spacecraft)
        ensures
            r == (Spacecraft { fuel_mass_kg, ..*self }),
    {
        Spacecraft { fuel_mass_kg, ..*self }
    }

    /// Returns a copy with a new radiation-pressure area and coefficient of
    /// reflectivity.
    pub fn with_srp(&self, srp_area_m2: i64, cr: i64) -> (r: Spacecraft)
        ensures
            r == (Spacecraft { srp: SrpConfig { area_m2: srp_area_m2, cr }, ..*self }),
    {
        Spacecraft { srp: SrpConfig { area_m2: srp_area_m2, cr }, ..*self }
    }

    /// Returns a copy with a new radiation-pressure area.
    pub fn with_srp_area(&self, srp_area_m2: i64) -> (r: Spacecraft)
        ensures
            r == (Spacecraft { srp: SrpConfig { area_m2: srp_area_m2, cr: self.srp.cr }, ..*self }),
    {
        Spacecraft { srp: SrpConfig { area_m2: srp_area_m2, cr: self.srp.cr }, ..*self }
    }

    /// Returns a copy with a new coefficient of reflectivity.
    pub fn with_cr(&self, cr: i64) -> (r: Spacecraft)
        ensures
            r == (Spacecraft { srp: SrpConfig { area_m2: self.srp.area_m2, cr }, ..*self }),
    {
        Spacecraft { srp: SrpConfig { area_m2: self.srp.area_m2, cr }, ..*self }
    }

    /// Returns a copy with a new drag area and coefficient of drag.
    pub fn with_drag(&self, drag_area_m2: i64, cd: i64) -> (r: Spacecraft)
        ensures
            r == (Spacecraft { drag: DragConfig { area_m2: drag_area_m2, cd }, ..*self }),
    {
        Spacecraft { drag: DragConfig { area_m2: drag_area_m2, cd }, ..*self }
    }

    /// Returns a copy with a new drag area.
    pub fn with_drag_area(&self, drag_area_m2: i64) -> (r: Spacecraft)
        ensures
            r == (Spacecraft {
                drag: DragConfig { area_m2: drag_area_m2, cd: self.drag.cd },
                ..*self
            }),
    {
        Spacecraft { drag: DragConfig { area_m2: drag_area_m2, cd: self.drag.cd }, ..*self }
    }

    /// Returns a copy with a new coefficient of drag.
    pub fn with_cd(&self, cd: i64) -> (r: Spacecraft)
        ensures
            r == (Spacecraft { drag: DragConfig { area_m2: self.drag.area_m2, cd }, ..*self }),
    {
        Spacecraft { drag: DragConfig { area_m2: self.drag.area_m2, cd }, ..*self }
    }

    /// Returns a copy with a new orbit.
    pub fn with_orbit(&self, orbit: Orbit) -> (r: Spacecraft)
        ensures
            r == (Spacecraft { orbit, ..*self }),
    {
        Spacecraft { orbit, ..*self }
    }

    /// The root-sum-square separation from another state: position,
    /// velocity, and fuel mass, each as the integer square root of the exact
    /// sum of squared component differences.
    pub fn rss(&self, other: &Spacecraft) -> (r: Result<(u64, u64, u64), TargetingError>)
        ensures
            r matches Ok(rss) ==> {
                &&& ({
                    let p = rss_position_sq_spec(*self, *other);
                    (rss.0 as int) * (rss.0 as int) <= p < (rss.0 as int + 1) * (rss.0 as int + 1)
                })
                &&& ({
                    let v = rss_velocity_sq_spec(*self, *other);
                    (rss.1 as int) * (rss.1 as int) <= v < (rss.1 as int + 1) * (rss.1 as int + 1)
                })
                &&& ({
                    let f = rss_fuel_sq_spec(*self, *other);
                    (rss.2 as int) * (rss.2 as int) <= f < (rss.2 as int + 1) * (rss.2 as int + 1)
                })
            },
            r is Err ==> r == Err::<(u64, u64, u64), TargetingError>(
                TargetingError::ValueOutOfRange,
            ),
    {
        let p: u128 = sum_sq3(self.orbit.x, other.orbit.x, self.orbit.y, other.orbit.y,
            self.orbit.z, other.orbit.z)?;
        let v: u128 = sum_sq3(self.orbit.vx, other.orbit.vx, self.orbit.vy, other.orbit.vy,
            self.orbit.vz, other.orbit.vz)?;
        let f: u128 = square_of_diff(self.fuel_mass_kg, other.fuel_mass_kg);
        Ok(
            (
                crate::arith::isqrt_u128(p),
                crate::arith::isqrt_u128(v),
                crate::arith::isqrt_u128(f),
            ),
        )
    }

    /// The total mass in fixed-point kilograms.
    pub fn mass_kg(&self) -> (r: Result<i64, TargetingError>)
        ensures
            r matches Ok(m) ==> m == self.dry_mass_kg + self.fuel_mass_kg,
            r matches Ok(m) <==> fits_i64(self.dry_mass_kg + self.fuel_mass_kg),
            r is Err ==> r == Err::<i64, TargetingError>(TargetingError::ValueOutOfRange),
    {
        checked_add(self.dry_mass_kg, self.fuel_mass_kg)
    }

    /// Returns a copy with the provided guidance mode.
    pub fn with_guidance_mode(&self, mode: GuidanceMode) -> (r: Spacecraft)
        ensures
            r == (Spacecraft { mode, ..*self }),
    {
        Spacecraft { mode, ..*self }
    }

    /// The current guidance mode.
    pub fn mode(&self) -> (r: GuidanceMode)
        ensures
            r == self.mode,
    {
        self.mode
    }

    /// Sets the guidance mode in place.
    pub fn mut_mode(&mut self, mode: GuidanceMode)
        ensures
            *final(self) == (Spacecraft { mode, ..*old(self) }),
    {
        self.mode = mode;
    }

    /// The value of a directly readable parameter: one of the six Cartesian
    /// components. A derived parameter yields nothing; the orbit
    /// collaborator computes those.
    pub fn value(&self, param: StateParameter) -> (r: Option<i64>)
        ensures
            r == direct_value_spec(*self, param),
    {
        match param {
            StateParameter::X => Some(self.orbit.x),
            StateParameter::Y => Some(self.orbit.y),
            StateParameter::Z => Some(self.orbit.z),
            StateParameter::VX => Some(self.orbit.vx),
            StateParameter::VY => Some(self.orbit.vy),
            StateParameter::VZ => Some(self.orbit.vz),
            _ => None,
        }
    }

    /// Writes a directly settable parameter: one of the six Cartesian
    /// components, leaving every other component untouched. Returns `false`,
    /// leaving the state untouched, for a parameter that is not a direct
    /// component.
    pub fn set_value(&mut self, param: StateParameter, val: i64) -> (r: bool)
        ensures
            r == param.is_direct_spec(),
            r ==> direct_value_spec(*final(self), param) == Some(val),
            r ==> forall|q: StateParameter|
                q.is_direct_spec() && q != param ==> direct_value_spec(*final(self), q)
                    == direct_value_spec(*old(self), q),
            r ==> (*final(self)).dry_mass_kg == (*old(self)).dry_mass_kg && (
            *final(self)).fuel_mass_kg == (*old(self)).fuel_mass_kg && (*final(self)).srp == (
            *old(self)).srp && (*final(self)).drag == (*old(self)).drag && (*final(self)).thruster
                == (*old(self)).thruster && (*final(self)).mode == (*old(self)).mode && (
            *final(self)).orbit.epoch_us == (*old(self)).orbit.epoch_us,
            !r ==> *final(self) == *old(self),
    {
        match param {
            StateParameter::X => {
                self.orbit.x = val;
                true
            },
            StateParameter::Y => {
                self.orbit.y = val;
                true
            },
            StateParameter::Z => {
                self.orbit.z = val;
                true
            },
            StateParameter::VX => {
                self.orbit.vx = val;
                true
            },
            StateParameter::VY => {
                self.orbit.vy = val;
                true
            },
            StateParameter::VZ => {
                self.orbit.vz = val;
                true
            },
            _ => false,
        }
    }
}

} // verus!
