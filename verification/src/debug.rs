//! Debug utilities: what to draw for a wheel, and a kick that lifts a kart.

use crate::body::{ExternalImpulse, MassProperties, Pose};
use crate::fixed::{fixed_difference, fixed_product, Fixed, SCALE};
use crate::kart::wheel::Wheel;
use crate::vec3::{v3_cross, v3_difference, v3_scaled, v3_sum, Vec3, V3};
use vstd::prelude::*;

verus! {

/// The line to draw for a wheel's suspension.
#[derive(Clone, Copy, Debug, PartialEq, Eq, Structural)]
pub struct WheelTrace {
    /// The mount point, in the world.
    pub start: Vec3,
    /// Where the extended part of the suspension ends.
    pub end: Vec3,
    /// Whether the suspension is compressed at all.
    pub compressed: bool,
}

/// Whether `trace` is the line of a wheel under a chassis pose: from the mount point along
/// down, as long as the part of the travel that is not compressed; none for a chassis
/// without an up direction.
pub open spec fn is_trace(transform: Pose, wheel: Wheel, trace: Option<WheelTrace>) -> bool {
    match trace {
        Some(t) => {
            &&& transform.down_spec() is Some
            &&& t.start@ == transform.transform_point_spec(wheel.position@)
            &&& t.end@ == v3_sum(
                t.start@,
                v3_scaled(
                    v3_scaled(transform.down_spec().unwrap(), wheel.max_suspension@),
                    fixed_difference(SCALE as int, wheel.ratio@),
                ),
            )
            &&& t.compressed == (wheel.ratio@ > 0)
        },
        None => transform.down_spec() is None,
    }
}

/// The line to draw for a wheel's suspension under the given chassis pose.
pub fn debug_draw_wheels(transform: &Pose, wheel: &Wheel) -> (r: Option<WheelTrace>)
    ensures
        is_trace(*transform, *wheel, r),
{
    match transform.down() {
        Some(down) => {
            let start = transform.transform_point(wheel.position);
            let reach = down.scaled(wheel.max_suspension).scaled(wheel.ratio_minus_one());
            Some(WheelTrace { start, end: start.plus(reach), compressed: wheel.ratio().raw > 0 })
        },
        None => None,
    }
}

/// The kick that lifts a kart: an upward impulse of three units per unit of mass, acting
/// at `point` on a body whose center of mass is the local one.
pub fn debug_random_impulse(mass_properties: &MassProperties, point: Vec3) -> (r: ExternalImpulse)
    ensures
        r.impulse@ == (V3 { x: 0, y: fixed_product(3 * SCALE, mass_properties.mass@), z: 0 }),
        r.torque_impulse@ == v3_cross(
            v3_difference(point@, mass_properties.local_center_of_mass@),
            r.impulse@,
        ),
{
    let lift = Fixed::from_raw(3_000_000).times(mass_properties.mass);
    ExternalImpulse::at_point(
        Vec3::new(Fixed::zero(), lift, Fixed::zero()),
        point,
        mass_properties.local_center_of_mass,
    )
}

} // verus!
