//! The rigid body of a kart as the simulation sees it: where it is, how it
//! moves, what it weighs, and the force gathered for it during a tick.

use crate::fixed::Fixed;
use crate::vec3::{
    lifted, v3_cross, v3_difference, v3_negation, v3_normalized, v3_scaled, v3_sum, v3_zero,
    Vec3, V3,
};
use vstd::prelude::*;

verus! {

/// Placement of a body in the world: a translation and the images of the three local axes.
#[derive(Clone, Copy, Debug, PartialEq, Eq, Structural)]
pub struct Pose {
    pub translation: Vec3,
    pub x_axis: Vec3,
    pub y_axis: Vec3,
    pub z_axis: Vec3,
}

/// The negation of an optional vector.
pub open spec fn negated_if_any(v: Option<V3>) -> Option<V3> {
    match v {
        Some(u) => Some(v3_negation(u)),
        None => None,
    }
}

impl Pose {
    /// The image of a local point: the axes weighted by its coordinates, summed from `x` to
    /// `z`, then moved by the translation.
    pub open spec fn transform_point_spec(&self, point: V3) -> V3 {
        v3_sum(
            v3_sum(
                v3_sum(v3_scaled(self.x_axis@, point.x), v3_scaled(self.y_axis@, point.y)),
                v3_scaled(self.z_axis@, point.z),
            ),
            self.translation@,
        )
    }

    /// The local up direction: the image of the `y` axis at unit length.
    pub open spec fn up_spec(&self) -> Option<V3> {
        v3_normalized(self.y_axis@)
    }

    /// The local down direction, opposite to up.
    pub open spec fn down_spec(&self) -> Option<V3> {
        negated_if_any(self.up_spec())
    }

    /// The local forward direction: opposite to the image of the `z` axis, at unit length.
    pub open spec fn forward_spec(&self) -> Option<V3> {
        negated_if_any(v3_normalized(self.z_axis@))
    }

    /// The pose that leaves every point where it is.
    pub fn identity() -> (r: Pose)
        ensures
            r.translation@ == v3_zero(),
            r.x_axis@ == (V3 { x: 1_000_000, y: 0, z: 0 }),
            r.y_axis@ == (V3 { x: 0, y: 1_000_000, z: 0 }),
            r.z_axis@ == (V3 { x: 0, y: 0, z: 1_000_000 }),
    {
        Pose {
            translation: Vec3::zero(),
            x_axis: Vec3::from_raw(1_000_000, 0, 0),
            y_axis: Vec3::from_raw(0, 1_000_000, 0),
            z_axis: Vec3::from_raw(0, 0, 1_000_000),
        }
    }

    /// Moves a local point into the world.
    pub fn transform_point(&self, point: Vec3) -> (r: Vec3)
        ensures
            r@ == self.transform_point_spec(point@),
    {
        self.x_axis.scaled(point.x).plus(self.y_axis.scaled(point.y)).plus(
            self.z_axis.scaled(point.z),
        ).plus(self.translation)
    }

    /// The local up direction; `None` exactly when the `y` axis has no length.
    pub fn up(&self) -> (r: Option<Vec3>)
        ensures
            lifted(r) == self.up_spec(),
    {
        self.y_axis.normalize()
    }

    /// The local down direction; `None` exactly when the `y` axis has no length.
    pub fn down(&self) -> (r: Option<Vec3>)
        ensures
            lifted(r) == self.down_spec(),
    {
        match self.y_axis.normalize() {
            Some(up) => Some(up.negated()),
            None => None,
        }
    }

    /// The local forward direction; `None` exactly when the `z` axis has no length.
    pub fn forward(&self) -> (r: Option<Vec3>)
        ensures
            lifted(r) == self.forward_spec(),
    {
        match self.z_axis.normalize() {
            Some(back) => Some(back.negated()),
            None => None,
        }
    }
}

/// Linear and angular velocity of a body.
#[derive(Clone, Copy, Debug, PartialEq, Eq, Structural)]
pub struct Velocity {
    pub linvel: Vec3,
    pub angvel: Vec3,
}

impl Velocity {
    /// The velocity of the body's material at a world point: the linear velocity plus the
    /// angular velocity crossed with the arm from the center of mass to the point.
    pub open spec fn linear_velocity_at_point_spec(&self, point: V3, center_of_mass: V3) -> V3 {
        v3_sum(self.linvel@, v3_cross(self.angvel@, v3_difference(point, center_of_mass)))
    }

    /// A body at rest.
    pub fn zero() -> (r: Velocity)
        ensures
            r.linvel@ == v3_zero(),
            r.angvel@ == v3_zero(),
    {
        Velocity { linvel: Vec3::zero(), angvel: Vec3::zero() }
    }

    /// The velocity of the body's material at a world point.
    pub fn linear_velocity_at_point(&self, point: Vec3, center_of_mass: Vec3) -> (r: Vec3)
        ensures
            r@ == self.linear_velocity_at_point_spec(point@, center_of_mass@),
    {
        self.linvel.plus(self.angvel.cross(point.minus(center_of_mass)))
    }
}

/// Mass of a body and its center of mass in local coordinates.
#[derive(Clone, Copy, Debug, PartialEq, Eq, Structural)]
pub struct MassProperties {
    pub mass: Fixed,
    pub local_center_of_mass: Vec3,
}

/// The raw components of a force and a torque.
pub ghost struct ForceTorque {
    pub force: V3,
    pub torque: V3,
}

/// No force and no torque.
pub open spec fn no_force() -> ForceTorque {
    ForceTorque { force: v3_zero(), torque: v3_zero() }
}

/// A force acting at a world point: the torque is the arm from the center of mass crossed
/// with the force.
pub open spec fn force_at_point(force: V3, point: V3, center_of_mass: V3) -> ForceTorque {
    ForceTorque { force, torque: v3_cross(v3_difference(point, center_of_mass), force) }
}

/// A force acting through the center of mass.
pub open spec fn central_force(force: V3) -> ForceTorque {
    ForceTorque { force, torque: v3_zero() }
}

/// Two contributions added, force to force and torque to torque.
pub open spec fn force_sum(a: ForceTorque, b: ForceTorque) -> ForceTorque {
    ForceTorque { force: v3_sum(a.force, b.force), torque: v3_sum(a.torque, b.torque) }
}

/// `a` with the contribution `b` added where there is one.
pub open spec fn force_sum_if_any(a: ForceTorque, b: Option<ForceTorque>) -> ForceTorque {
    match b {
        Some(f) => force_sum(a, f),
        None => a,
    }
}

/// Whether the componentwise sum of the two vectors stays within the raw range.
pub open spec fn sum_fits(a: V3, b: V3) -> bool {
    &&& i64::MIN <= a.x + b.x <= i64::MAX
    &&& i64::MIN <= a.y + b.y <= i64::MAX
    &&& i64::MIN <= a.z + b.z <= i64::MAX
}

/// Two contributions give the same sum in either order.
pub proof fn force_sum_commutes(a: ForceTorque, b: ForceTorque)
    ensures
        force_sum(a, b) == force_sum(b, a),
{
}

/// Two contributions may reach an accumulator in either order, as long as neither takes
/// it out of the raw range on its own.
pub proof fn contributions_may_swap(acc: ForceTorque, a: ForceTorque, b: ForceTorque)
    requires
        sum_fits(acc.force, a.force),
        sum_fits(acc.force, b.force),
        sum_fits(acc.torque, a.torque),
        sum_fits(acc.torque, b.torque),
    ensures
        force_sum(force_sum(acc, a), b) == force_sum(force_sum(acc, b), a),
{
}

/// The force and torque gathered for a body during one tick.
#[derive(Clone, Copy, Debug, PartialEq, Eq, Structural)]
pub struct ExternalForce {
    pub force: Vec3,
    pub torque: Vec3,
}

impl View for ExternalForce {
    type V = ForceTorque;

    open spec fn view(&self) -> ForceTorque {
        ForceTorque { force: self.force@, torque: self.torque@ }
    }
}

/// The view of an optional contribution.
pub open spec fn lifted_force(f: Option<ExternalForce>) -> Option<ForceTorque> {
    match f {
        Some(e) => Some(e@),
        None => None,
    }
}

impl ExternalForce {
    /// An empty accumulator.
    pub fn zero() -> (r: ExternalForce)
        ensures
            r@ == no_force(),
    {
        ExternalForce { force: Vec3::zero(), torque: Vec3::zero() }
    }

    /// A force acting at a world point of a body with the given center of mass.
    pub fn at_point(force: Vec3, point: Vec3, center_of_mass: Vec3) -> (r: ExternalForce)
        ensures
            r@ == force_at_point(force@, point@, center_of_mass@),
    {
        ExternalForce { force, torque: point.minus(center_of_mass).cross(force) }
    }

    /// A force acting through the center of mass.
    pub fn central(force: Vec3) -> (r: ExternalForce)
        ensures
            r@ == central_force(force@),
    {
        ExternalForce { force, torque: Vec3::zero() }
    }

    /// Adds a contribution to the accumulator.
    pub fn accumulate(&mut self, rhs: ExternalForce)
        ensures
            final(self)@ == force_sum(old(self)@, rhs@),
    {
        self.force = self.force.plus(rhs.force);
        self.torque = self.torque.plus(rhs.torque);
    }
}

/// An impulse and the turning impulse that comes with it.
#[derive(Clone, Copy, Debug, PartialEq, Eq, Structural)]
pub struct ExternalImpulse {
    pub impulse: Vec3,
    pub torque_impulse: Vec3,
}

impl ExternalImpulse {
    /// An impulse acting at a world point of a body with the given center of mass: the
    /// turning impulse is the arm from the center of mass crossed with the impulse.
    pub fn at_point(impulse: Vec3, point: Vec3, center_of_mass: Vec3) -> (r: ExternalImpulse)
        ensures
            r.impulse == impulse,
            r.torque_impulse@ == v3_cross(v3_difference(point@, center_of_mass@), impulse@),
    {
        ExternalImpulse { impulse, torque_impulse: point.minus(center_of_mass).cross(impulse) }
    }
}

} // verus!
