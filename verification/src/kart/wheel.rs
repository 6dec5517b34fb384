//! A wheel and its suspension.
//!
//! A wheel hangs from a mount point of the chassis. Each tick a ray is cast
//! from the mount along the chassis's down direction; what it meets sets how
//! far the suspension is compressed, and the compression pushes the chassis up.

use crate::body::{
    force_at_point, force_sum_if_any, lifted_force, ExternalForce, ForceTorque, MassProperties,
    Pose, Velocity,
};
use crate::fixed::{
    fixed_difference, fixed_product, lemma_product_bound, lemma_product_not_negative,
    lemma_product_with_zero, Fixed, SCALE,
};
use crate::vec3::{v3_dot, v3_scaled, v3_sum, Vec3, V3};
use vstd::prelude::*;

verus! {

/// What a ray met: the distance travelled and the normal of the surface there.
#[derive(Clone, Copy, Debug, PartialEq, Eq, Structural)]
pub struct RayHit {
    pub toi: Fixed,
    pub normal: Vec3,
}

/// A ray to cast: where it starts, where it points, and how far it may travel.
#[derive(Clone, Copy, Debug, PartialEq, Eq, Structural)]
pub struct Ray {
    pub origin: Vec3,
    pub direction: Vec3,
    pub max_toi: Fixed,
}

/// Whether a hit at distance `toi` lies within a suspension of the given travel.
pub open spec fn hit_in_reach(max_suspension: int, toi: int) -> bool {
    max_suspension > 0 && 0 <= toi <= max_suspension
}

/// The compression of a suspension whose ray met the ground at distance `toi`: one unit
/// less the part of the travel that the ray covered.
pub open spec fn compression_ratio(max_suspension: int, toi: int) -> int
    recommends
        hit_in_reach(max_suspension, toi),
{
    SCALE - (toi * SCALE) / max_suspension
}

/// The magnitude of the force a suspension exerts: the compression less the damping term,
/// never below zero, scaled by the force setting and the mass carried.
pub open spec fn suspension_magnitude(max_force: int, mass: int, ratio: int, damping: int) -> int {
    let net = fixed_difference(ratio, damping);
    fixed_product(
        fixed_product(max_force, mass),
        if net > 0 {
            net
        } else {
            0
        },
    )
}

/// A single wheel.
#[derive(Clone, Copy, Debug)]
pub struct Wheel {
    /// The mount point of the suspension, relative to the chassis.
    pub position: Vec3,
    /// The length of the suspension's travel.
    pub max_suspension: Fixed,
    /// The force applied to the chassis at full compression, per unit of mass.
    pub max_force: Fixed,
    /// How strongly motion along the suspension is damped.
    pub damping_factor: Fixed,
    /// The compression found by the last probe: zero is fully extended.
    pub ratio: Fixed,
    /// The normal of the ground found by the last probe; none while nothing is touched.
    pub normal: Option<Vec3>,
}

impl Wheel {
    /// The compression lies between zero and one unit, and is zero while nothing is touched.
    pub open spec fn wf(&self) -> bool {
        &&& 0 <= self.ratio@ <= SCALE
        &&& self.normal is None ==> self.ratio@ == 0
    }

    /// Whether the two wheels have the same mount point and settings.
    pub open spec fn same_setup(&self, other: Wheel) -> bool {
        &&& self.position == other.position
        &&& self.max_suspension == other.max_suspension
        &&& self.max_force == other.max_force
        &&& self.damping_factor == other.damping_factor
    }

    /// Whether the two wheels are in the same state of contact.
    pub open spec fn same_contact(&self, other: Wheel) -> bool {
        &&& self.ratio == other.ratio
        &&& self.normal == other.normal
    }

    /// Whether `ray` is the ray to cast for this wheel: from the mount point, downward, as
    /// far as the suspension travels; none for a chassis without an up direction.
    pub open spec fn is_ray(&self, transform: Pose, ray: Option<Ray>) -> bool {
        match ray {
            Some(r) => {
                &&& transform.down_spec() == Some(r.direction@)
                &&& r.origin@ == transform.transform_point_spec(self.position@)
                &&& r.max_toi == self.max_suspension
            },
            None => transform.down_spec() is None,
        }
    }

    /// What the wheel holds after a probe that returned `hit`.
    pub open spec fn probed(&self, hit: Option<RayHit>, after: Wheel) -> bool {
        &&& after.same_setup(*self)
        &&& match hit {
            Some(h) => if hit_in_reach(self.max_suspension@, h.toi@) {
                &&& after.ratio@ == compression_ratio(self.max_suspension@, h.toi@)
                &&& after.normal == Some(h.normal)
            } else {
                &&& after.ratio@ == 0
                &&& after.normal is None
            },
            None => {
                &&& after.ratio@ == 0
                &&& after.normal is None
            },
        }
    }

    /// The force this wheel exerts on its chassis: none while the suspension is fully
    /// extended or the chassis has no up direction; else a push along up, applied at the
    /// mount point.
    pub open spec fn suspension_force_spec(
        &self,
        transform: Pose,
        velocity: Velocity,
        mass_properties: MassProperties,
    ) -> Option<ForceTorque> {
        match transform.up_spec() {
            Some(up) => if self.ratio@ < 1 {
                None
            } else {
                let position = transform.transform_point_spec(self.position@);
                let center = transform.transform_point_spec(
                    mass_properties.local_center_of_mass@,
                );
                let point_velocity = velocity.linear_velocity_at_point_spec(position, center);
                let damping = fixed_product(self.damping_factor@, v3_dot(point_velocity, up));
                let magnitude = suspension_magnitude(
                    self.max_force@,
                    mass_properties.mass@,
                    self.ratio@,
                    damping,
                );
                Some(force_at_point(v3_scaled(up, magnitude), position, center))
            },
            None => None,
        }
    }

    /// Where the wheel hangs relative to the chassis: below the mount point by the part of
    /// the travel that is not compressed.
    pub open spec fn rest_position_spec(&self) -> V3 {
        let extension = fixed_difference(SCALE as int, self.ratio@);
        let down = V3 { x: 0, y: -SCALE, z: 0 };
        v3_sum(self.position@, v3_scaled(v3_scaled(down, self.max_suspension@), extension))
    }

    /// Creates a wheel at a mount point, fully extended, with the default force and damping.
    pub fn new(position: Vec3, max_suspension: Fixed) -> (r: Wheel)
        ensures
            r.position == position,
            r.max_suspension == max_suspension,
            r.max_force@ == 4 * SCALE,
            r.damping_factor@ == 200_000,
            r.ratio@ == 0,
            r.normal is None,
            r.wf(),
    {
        Wheel {
            position,
            max_suspension,
            max_force: Fixed { raw: 4_000_000 },
            damping_factor: Fixed { raw: 200_000 },
            ratio: Fixed { raw: 0 },
            normal: None,
        }
    }

    /// Checks if the suspension is fully extended.
    pub fn extended(&self) -> (r: bool)
        ensures
            r == (self.ratio@ < 1),
    {
        self.ratio.raw < 1
    }

    /// The ratio of the suspension: zero is fully extended.
    pub fn ratio(&self) -> (r: Fixed)
        ensures
            r == self.ratio,
    {
        self.ratio
    }

    /// The inverse ratio of the suspension: one unit is fully extended.
    pub fn ratio_minus_one(&self) -> (r: Fixed)
        ensures
            r@ == fixed_difference(SCALE as int, self.ratio@),
    {
        Fixed::one().minus(self.ratio)
    }

    /// The normal of the suspension's contact point.
    pub fn normal(&self) -> (r: Option<Vec3>)
        ensures
            r == self.normal,
    {
        self.normal
    }

    /// The ray to cast for this wheel under the given chassis pose.
    pub fn ray(&self, transform: &Pose) -> (r: Option<Ray>)
        ensures
            self.is_ray(*transform, r),
    {
        match transform.down() {
            Some(down) => {
                let origin = transform.transform_point(self.position);
                Some(Ray { origin, direction: down, max_toi: self.max_suspension })
            },
            None => None,
        }
    }

    /// Takes in the outcome of this tick's raycast. A hit within the suspension's travel
    /// compresses the suspension and records the ground's normal; anything else leaves the
    /// wheel fully extended and without contact.
    pub fn probe(&mut self, hit: Option<RayHit>)
        ensures
            old(self).probed(hit, *final(self)),
            final(self).wf(),
            final(self).ratio@ > 0 <==> (hit is Some && hit_in_reach(
                old(self).max_suspension@,
                hit.unwrap().toi@,
            ) && hit.unwrap().toi@ < old(self).max_suspension@),
    {
        match hit {
            Some(h) => {
                if self.max_suspension.raw > 0 && 0 <= h.toi.raw && h.toi.raw
                    <= self.max_suspension.raw {
                    proof {
                        lemma_product_bound(h.toi@, SCALE as int, 0x8000_0000_0000_0000);
                        lemma_compression_in_range(self.max_suspension@, h.toi@);
                    }
                    let covered: i128 = ((h.toi.raw as i128) * (SCALE as i128)) / (
                    self.max_suspension.raw as i128);
                    self.ratio = Fixed { raw: (SCALE as i128 - covered) as i64 };
                    self.normal = Some(h.normal);
                } else {
                    self.ratio = Fixed { raw: 0 };
                    self.normal = None;
                }
            },
            None => {
                self.ratio = Fixed { raw: 0 };
                self.normal = None;
            },
        }
    }

    /// The force this wheel exerts on its chassis this tick, if any.
    pub fn suspension_force(
        &self,
        transform: &Pose,
        velocity: &Velocity,
        mass_properties: &MassProperties,
    ) -> (r: Option<ExternalForce>)
        ensures
            lifted_force(r) == self.suspension_force_spec(*transform, *velocity, *mass_properties),
    {
        let up = match transform.up() {
            Some(up) => up,
            None => {
                return None;
            },
        };
        if self.extended() {
            return None;
        }
        let position = transform.transform_point(self.position);
        let center_of_mass = transform.transform_point(mass_properties.local_center_of_mass);
        let point_velocity = velocity.linear_velocity_at_point(position, center_of_mass);
        let damping = self.damping_factor.times(point_velocity.dot(up));
        let net = self.ratio.minus(damping).at_least(Fixed::zero());
        let magnitude = self.max_force.times(mass_properties.mass).times(net);
        Some(ExternalForce::at_point(up.scaled(magnitude), position, center_of_mass))
    }

    /// Where the wheel hangs relative to the chassis.
    pub fn rest_position(&self) -> (r: Vec3)
        ensures
            r@ == self.rest_position_spec(),
    {
        let down = Vec3::from_raw(0, -1_000_000, 0);
        self.position.plus(down.scaled(self.max_suspension).scaled(self.ratio_minus_one()))
    }
}

impl Default for Wheel {
    /// A wheel at the chassis's origin with the default suspension.
    fn default() -> (r: Wheel)
        ensures
            r.position@ == crate::vec3::v3_zero(),
            r.max_suspension@ == 350_000,
            r.max_force@ == 4 * SCALE,
            r.damping_factor@ == 200_000,
            r.ratio@ == 0,
            r.normal is None,
            r.wf(),
    {
        Wheel::new(Vec3::zero(), Fixed { raw: 350_000 })
    }
}

/// A hit within reach compresses the suspension by between zero and one unit, and by zero
/// only at the very end of the travel.
pub proof fn lemma_compression_in_range(max_suspension: int, toi: int)
    requires
        hit_in_reach(max_suspension, toi),
    ensures
        0 <= compression_ratio(max_suspension, toi) <= SCALE,
        compression_ratio(max_suspension, toi) == 0 <==> toi == max_suspension,
{
    let s = SCALE as int;
    let n = toi * s;
    assert(0 <= n / max_suspension <= s) by (nonlinear_arith)
        requires
            max_suspension > 0,
            0 <= toi <= max_suspension,
            n == toi * s,
            s > 0,
    ;
    if toi == max_suspension {
        assert(n / max_suspension == s) by (nonlinear_arith)
            requires
                max_suspension > 0,
                n == max_suspension * s,
        ;
    } else {
        assert(n / max_suspension < s) by (nonlinear_arith)
            requires
                max_suspension > 0,
                0 <= toi < max_suspension,
                n == toi * s,
                s > 0,
        ;
    }
}

/// After a probe the compression lies between zero and one unit. It is zero when the ray
/// met nothing, and above zero when the ray met something short of the end of the travel.
pub proof fn probe_bounds_compression(before: Wheel, hit: Option<RayHit>, after: Wheel)
    requires
        before.probed(hit, after),
    ensures
        0 <= after.ratio@ <= SCALE,
        hit is None ==> after.ratio@ == 0 && after.normal is None,
        after.ratio@ > 0 <==> (hit is Some && hit_in_reach(
            before.max_suspension@,
            hit.unwrap().toi@,
        ) && hit.unwrap().toi@ < before.max_suspension@),
        after.wf(),
{
    match hit {
        Some(h) => {
            if hit_in_reach(before.max_suspension@, h.toi@) {
                lemma_compression_in_range(before.max_suspension@, h.toi@);
            }
        },
        None => {},
    }
}

/// A suspension never pulls: with a force setting and a mass that are not negative, the
/// magnitude of its force is not negative, whatever the compression and the damping, and
/// it is zero once the damping term reaches the compression.
pub proof fn suspension_never_pulls(max_force: int, mass: int, ratio: int, damping: int)
    requires
        max_force >= 0,
        mass >= 0,
    ensures
        suspension_magnitude(max_force, mass, ratio, damping) >= 0,
        ratio <= damping ==> suspension_magnitude(max_force, mass, ratio, damping) == 0,
{
    let net = fixed_difference(ratio, damping);
    let floored = if net > 0 {
        net
    } else {
        0
    };
    lemma_product_not_negative(max_force, mass);
    lemma_product_not_negative(fixed_product(max_force, mass), floored);
    if ratio <= damping {
        lemma_product_with_zero(fixed_product(max_force, mass));
    }
}

/// The force gathered from a row of wheels, added one by one, first to last, onto `start`.
pub open spec fn wheel_forces(
    start: ForceTorque,
    wheels: Seq<Wheel>,
    transform: Pose,
    velocity: Velocity,
    mass_properties: MassProperties,
) -> ForceTorque
    decreases wheels.len(),
{
    if wheels.len() == 0 {
        start
    } else {
        force_sum_if_any(
            wheel_forces(start, wheels.drop_last(), transform, velocity, mass_properties),
            wheels.last().suspension_force_spec(transform, velocity, mass_properties),
        )
    }
}

/// Takes in the outcome of a wheel's raycast for this tick.
pub fn do_wheel_raycast(wheel: &mut Wheel, hit: Option<RayHit>)
    ensures
        old(wheel).probed(hit, *final(wheel)),
        final(wheel).wf(),
{
    wheel.probe(hit);
}

/// Adds the suspension force of every wheel to the chassis's accumulator.
pub fn apply_wheel_forces(
    ef: &mut ExternalForce,
    transform: &Pose,
    velocity: &Velocity,
    mass_properties: &MassProperties,
    wheels: &[Wheel],
)
    ensures
        final(ef)@ == wheel_forces(old(ef)@, wheels@, *transform, *velocity, *mass_properties),
{
    let ghost start = ef@;
    let mut i: usize = 0;
    while i < wheels.len()
        invariant
            0 <= i <= wheels@.len(),
            ef@ == wheel_forces(start, wheels@.take(i as int), *transform, *velocity, *mass_properties),
        decreases wheels@.len() - i,
    {
        proof {
            assert(wheels@.take(i + 1).drop_last() =~= wheels@.take(i as int));
        }
        match wheels[i].suspension_force(transform, velocity, mass_properties) {
            Some(force) => {
                ef.accumulate(force);
            },
            None => {},
        }
        i = i + 1;
    }
    proof {
        assert(wheels@.take(i as int) =~= wheels@);
    }
}

/// Where a wheel hangs relative to its chassis.
pub fn apply_wheel_transform(wheel: &Wheel) -> (r: Vec3)
    ensures
        r@ == wheel.rest_position_spec(),
{
    wheel.rest_position()
}

} // verus!
