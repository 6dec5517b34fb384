//! Kart physics.
//!
//! A tick runs in a fixed order: the chassis's suspension settings are copied
//! to the wheels, each wheel is probed, the ground normals are averaged, and
//! the suspension and the drivetrain add their forces to an emptied accumulator.

pub mod input;
pub mod wheel;

use crate::body::{
    central_force, force_sum_if_any, no_force, ExternalForce, ForceTorque, MassProperties, Pose,
    Velocity,
};
use crate::fixed::{div_toward_zero, fixed_product, Fixed, SCALE};
use crate::kart::input::PlayerCommands;
use crate::kart::wheel::{apply_wheel_forces, wheel_forces, Ray, RayHit, Wheel};
use crate::vec3::{
    lifted, v3_difference, v3_dot, v3_normalized, v3_scaled, v3_zero, Vec3, V3,
};
use vstd::prelude::*;

verus! {

/// Kart movement options.
#[derive(Clone, Copy, Debug, PartialEq, Eq, Structural)]
pub struct KartOptions {
    /// How fast the kart accelerates, per unit of mass.
    pub max_acceleration: Fixed,
    /// The speed beyond which the kart does not push itself.
    pub max_velocity: Fixed,
}

impl Default for KartOptions {
    fn default() -> (r: KartOptions)
        ensures
            r.max_acceleration@ == 30 * SCALE,
            r.max_velocity@ == 12 * SCALE,
    {
        KartOptions {
            max_acceleration: Fixed { raw: 30_000_000 },
            max_velocity: Fixed { raw: 12_000_000 },
        }
    }
}

/// Kart chassis physics properties.
///
/// Its suspension settings are copied to its wheels.
#[derive(Clone, Copy, Debug, PartialEq, Eq, Structural)]
pub struct Chassis {
    /// The maximum distance for suspension.
    pub max_suspension: Fixed,
    /// The maximum force applied by the suspension.
    pub max_force: Fixed,
    /// The damping factor of the suspension.
    pub damping_factor: Fixed,
    /// How many wheels touched the ground at the last averaging.
    pub wheels_contacting_ground: usize,
    /// The average normal of the ground under those wheels; none while airborne.
    pub ground_normal: Option<Vec3>,
}

impl Chassis {
    /// The ground normal is present exactly while some wheel touches the ground.
    pub open spec fn wf(&self) -> bool {
        self.wheels_contacting_ground == 0 <==> self.ground_normal is None
    }

    /// Whether the two chassis have the same suspension settings.
    pub open spec fn same_setup(&self, other: Chassis) -> bool {
        &&& self.max_suspension == other.max_suspension
        &&& self.max_force == other.max_force
        &&& self.damping_factor == other.damping_factor
    }

    /// Whether a wheel carries this chassis's suspension settings.
    pub open spec fn governs(&self, wheel: Wheel) -> bool {
        &&& wheel.max_suspension == self.max_suspension
        &&& wheel.max_force == self.max_force
        &&& wheel.damping_factor == self.damping_factor
    }

    /// The average normal of the ground.
    pub fn ground_normal(&self) -> (r: Option<Vec3>)
        ensures
            r == self.ground_normal,
    {
        self.ground_normal
    }
}

impl Default for Chassis {
    fn default() -> (r: Chassis)
        ensures
            r.max_suspension@ == 350_000,
            r.max_force@ == 4 * SCALE,
            r.damping_factor@ == 200_000,
            r.wheels_contacting_ground == 0,
            r.ground_normal is None,
            r.wf(),
    {
        Chassis {
            max_suspension: Fixed { raw: 350_000 },
            max_force: Fixed { raw: 4_000_000 },
            damping_factor: Fixed { raw: 200_000 },
            wheels_contacting_ground: 0,
            ground_normal: None,
        }
    }
}

/// The number of wheels that touch the ground.
pub open spec fn grounded_count(wheels: Seq<Wheel>) -> nat
    decreases wheels.len(),
{
    if wheels.len() == 0 {
        0
    } else {
        grounded_count(wheels.drop_last()) + if wheels.last().normal is Some {
            1nat
        } else {
            0nat
        }
    }
}

/// The exact sum of the contact normals of the wheels that touch the ground.
pub open spec fn normal_total(wheels: Seq<Wheel>) -> V3
    decreases wheels.len(),
{
    if wheels.len() == 0 {
        v3_zero()
    } else {
        let rest = normal_total(wheels.drop_last());
        match wheels.last().normal {
            Some(n) => V3 { x: rest.x + n@.x, y: rest.y + n@.y, z: rest.z + n@.z },
            None => rest,
        }
    }
}

/// The average of the contact normals, each component rounded toward zero; none when no
/// wheel touches the ground. The average is not brought back to unit length.
pub open spec fn average_normal(wheels: Seq<Wheel>) -> Option<V3> {
    let k = grounded_count(wheels) as int;
    if k == 0 {
        None
    } else {
        let total = normal_total(wheels);
        Some(
            V3 {
                x: div_toward_zero(total.x, k),
                y: div_toward_zero(total.y, k),
                z: div_toward_zero(total.z, k),
            },
        )
    }
}

/// The part of `vector` that lies in the plane with the given normal.
pub open spec fn project_on_ground_plane_spec(normal: V3, vector: V3) -> V3 {
    v3_difference(vector, v3_scaled(normal, v3_dot(vector, normal)))
}

/// The direction in which the drivetrain pushes: the chassis's forward direction laid
/// onto the ground plane, at unit length. None while airborne, and where forward is
/// missing or stands straight on the ground.
pub open spec fn drive_axis(ground_normal: Option<V3>, transform: Pose) -> Option<V3> {
    match ground_normal {
        Some(n) => match transform.forward_spec() {
            Some(forward) => v3_normalized(project_on_ground_plane_spec(n, forward)),
            None => None,
        },
        None => None,
    }
}

/// The force the drivetrain would exert for a command.
pub open spec fn drive_magnitude(max_acceleration: int, mass: int, acceleration: int) -> int {
    fixed_product(fixed_product(max_acceleration, mass), acceleration)
}

/// Whether a force may act at the given forward speed: it must not push the speed further
/// past the ceiling on its own side.
pub open spec fn within_ceiling(force: int, forward_speed: int, max_velocity: int) -> bool {
    (force < 0 && forward_speed > -max_velocity) || (force > 0 && forward_speed < max_velocity)
}

/// The force the drivetrain exerts this tick, if any.
pub open spec fn drive_force(
    chassis: Chassis,
    transform: Pose,
    velocity: Velocity,
    mass_properties: MassProperties,
    commands: PlayerCommands,
    options: KartOptions,
) -> Option<ForceTorque> {
    match drive_axis(lifted(chassis.ground_normal), transform) {
        Some(axis) => {
            let forward_speed = v3_dot(axis, velocity.linvel@);
            let force = drive_magnitude(
                options.max_acceleration@,
                mass_properties.mass@,
                commands.commands.acceleration@,
            );
            if within_ceiling(force, forward_speed, options.max_velocity@) {
                Some(central_force(v3_scaled(axis, force)))
            } else {
                None
            }
        },
        None => None,
    }
}

/// No wheel of the row touches the ground exactly when the count of grounded wheels is zero.
pub proof fn airborne_means_none_grounded(wheels: Seq<Wheel>)
    ensures
        grounded_count(wheels) <= wheels.len(),
        grounded_count(wheels) == 0 <==> forall|i: int|
            0 <= i < wheels.len() ==> (#[trigger] wheels[i]).normal is None,
    decreases wheels.len(),
{
    if wheels.len() > 0 {
        let rest = wheels.drop_last();
        airborne_means_none_grounded(rest);
        if grounded_count(wheels) == 0 {
            assert forall|i: int| 0 <= i < wheels.len() implies (#[trigger] wheels[i]).normal
                is None by {
                if i < wheels.len() - 1 {
                    assert(rest[i] == wheels[i]);
                }
            }
        }
        if forall|i: int| 0 <= i < wheels.len() ==> (#[trigger] wheels[i]).normal is None {
            assert(wheels.last().normal is None);
            assert forall|i: int| 0 <= i < rest.len() implies (#[trigger] rest[i]).normal
                is None by {
                assert(rest[i] == wheels[i]);
            }
        }
    }
}

/// With no wheel on the ground there is no ground normal; with `k` wheels on the ground,
/// one or more, the ground normal is the sum of their contact normals divided by `k`.
pub proof fn ground_normal_is_mean(wheels: Seq<Wheel>)
    ensures
        grounded_count(wheels) == 0 ==> average_normal(wheels) is None,
        grounded_count(wheels) >= 1 ==> average_normal(wheels) == Some(
            V3 {
                x: div_toward_zero(normal_total(wheels).x, grounded_count(wheels) as int),
                y: div_toward_zero(normal_total(wheels).y, grounded_count(wheels) as int),
                z: div_toward_zero(normal_total(wheels).z, grounded_count(wheels) as int),
            },
        ),
{
}

/// An airborne kart is never pushed by its drivetrain, whatever the command.
pub proof fn airborne_never_drives(
    chassis: Chassis,
    transform: Pose,
    velocity: Velocity,
    mass_properties: MassProperties,
    commands: PlayerCommands,
    options: KartOptions,
)
    requires
        chassis.ground_normal is None,
    ensures
        drive_force(chassis, transform, velocity, mass_properties, commands, options) is None,
{
}

/// At the speed ceiling the drivetrain does not push further: a forward force is withheld
/// once the forward speed has reached the ceiling, a backward force once it has reached
/// the ceiling in reverse.
pub proof fn ceiling_withholds_drive(
    chassis: Chassis,
    transform: Pose,
    velocity: Velocity,
    mass_properties: MassProperties,
    commands: PlayerCommands,
    options: KartOptions,
)
    requires
        drive_axis(lifted(chassis.ground_normal), transform) is Some,
        ({
            let axis = drive_axis(lifted(chassis.ground_normal), transform).unwrap();
            let forward_speed = v3_dot(axis, velocity.linvel@);
            let force = drive_magnitude(
                options.max_acceleration@,
                mass_properties.mass@,
                commands.commands.acceleration@,
            );
            (force > 0 && forward_speed >= options.max_velocity@) || (force < 0 && forward_speed
                <= -options.max_velocity@)
        }),
    ensures
        drive_force(chassis, transform, velocity, mass_properties, commands, options) is None,
{
}

/// What an accumulator holds after the drivetrain has added to it for a number of ticks
/// during which nothing else changed.
pub open spec fn driven_for(
    acc: ForceTorque,
    ticks: nat,
    chassis: Chassis,
    transform: Pose,
    velocity: Velocity,
    mass_properties: MassProperties,
    commands: PlayerCommands,
    options: KartOptions,
) -> ForceTorque
    decreases ticks,
{
    if ticks == 0 {
        acc
    } else {
        force_sum_if_any(
            driven_for(
                acc,
                (ticks - 1) as nat,
                chassis,
                transform,
                velocity,
                mass_properties,
                commands,
                options,
            ),
            drive_force(chassis, transform, velocity, mass_properties, commands, options),
        )
    }
}

/// Holding the command at the ceiling changes nothing, however long: with the forward
/// speed at or past the ceiling on the side to which the command points, any number of
/// ticks leaves the accumulator as it was.
pub proof fn ceiling_is_idempotent(
    acc: ForceTorque,
    ticks: nat,
    chassis: Chassis,
    transform: Pose,
    velocity: Velocity,
    mass_properties: MassProperties,
    commands: PlayerCommands,
    options: KartOptions,
)
    requires
        drive_axis(lifted(chassis.ground_normal), transform) is Some,
        ({
            let axis = drive_axis(lifted(chassis.ground_normal), transform).unwrap();
            let forward_speed = v3_dot(axis, velocity.linvel@);
            let force = drive_magnitude(
                options.max_acceleration@,
                mass_properties.mass@,
                commands.commands.acceleration@,
            );
            (force > 0 && forward_speed >= options.max_velocity@) || (force < 0 && forward_speed
                <= -options.max_velocity@)
        }),
    ensures
        driven_for(
            acc,
            ticks,
            chassis,
            transform,
            velocity,
            mass_properties,
            commands,
            options,
        ) == acc,
    decreases ticks,
{
    if ticks > 0 {
        ceiling_is_idempotent(
            acc,
            (ticks - 1) as nat,
            chassis,
            transform,
            velocity,
            mass_properties,
            commands,
            options,
        );
        ceiling_withholds_drive(chassis, transform, velocity, mass_properties, commands, options);
    }
}

/// Away from the ceiling the drivetrain always acts: a force that is not zero is applied
/// whenever it points back from the side on which the speed stands.
pub proof fn braking_is_always_allowed(force: int, forward_speed: int, max_velocity: int)
    requires
        max_velocity > 0,
        force != 0,
        (force > 0 && forward_speed <= 0) || (force < 0 && forward_speed >= 0),
    ensures
        within_ceiling(force, forward_speed, max_velocity),
{
}

/// Projects a vector onto the ground plane.
pub fn project_on_ground_plane(normal: Vec3, vector: Vec3) -> (r: Vec3)
    ensures
        r@ == project_on_ground_plane_spec(normal@, vector@),
{
    vector.minus(normal.scaled(vector.dot(normal)))
}

/// The four wheels of a kart at their mount points: front right, front left, back right,
/// back left.
pub fn create_kart_wheels() -> (r: [Wheel; 4])
    ensures
        r@[0].position@ == (V3 { x: 350_000, y: -160_000, z: 500_000 }),
        r@[1].position@ == (V3 { x: -350_000, y: -160_000, z: 500_000 }),
        r@[2].position@ == (V3 { x: 350_000, y: -160_000, z: -500_000 }),
        r@[3].position@ == (V3 { x: -350_000, y: -160_000, z: -500_000 }),
        forall|i: int|
            0 <= i < 4 ==> {
                &&& (#[trigger] r@[i]).max_suspension@ == 400_000
                &&& r@[i].max_force@ == 4 * SCALE
                &&& r@[i].damping_factor@ == 200_000
                &&& r@[i].ratio@ == 0
                &&& r@[i].normal is None
                &&& r@[i].wf()
            },
{
    let travel = Fixed::from_raw(400_000);
    [
        Wheel::new(Vec3::from_raw(350_000, -160_000, 500_000), travel),
        Wheel::new(Vec3::from_raw(-350_000, -160_000, 500_000), travel),
        Wheel::new(Vec3::from_raw(350_000, -160_000, -500_000), travel),
        Wheel::new(Vec3::from_raw(-350_000, -160_000, -500_000), travel),
    ]
}

/// Empties a chassis's force accumulator.
pub fn reset_chassis_forces(ef: &mut ExternalForce)
    ensures
        final(ef)@ == no_force(),
{
    *ef = ExternalForce::zero();
}

/// Copies the chassis's suspension settings to every wheel.
pub fn propagate_chassis_properties(chassis: &Chassis, wheels: &mut [Wheel])
    ensures
        final(wheels)@.len() == old(wheels)@.len(),
        forall|i: int|
            0 <= i < old(wheels)@.len() ==> {
                &&& chassis.governs(#[trigger] final(wheels)@[i])
                &&& final(wheels)@[i].position == old(wheels)@[i].position
                &&& final(wheels)@[i].same_contact(old(wheels)@[i])
            },
{
    let n: usize = wheels.len();
    let mut i: usize = 0;
    while i < n
        invariant
            0 <= i <= n,
            n == wheels@.len(),
            n == old(wheels)@.len(),
            forall|j: int|
                0 <= j < i ==> {
                    &&& chassis.governs(#[trigger] wheels@[j])
                    &&& wheels@[j].position == old(wheels)@[j].position
                    &&& wheels@[j].same_contact(old(wheels)@[j])
                },
            forall|j: int| i <= j < n ==> wheels@[j] == old(wheels)@[j],
        decreases n - i,
    {
        wheels[i].max_force = chassis.max_force;
        wheels[i].max_suspension = chassis.max_suspension;
        wheels[i].damping_factor = chassis.damping_factor;
        i = i + 1;
    }
}

/// The mean of `count` raw values whose exact sum is `total` is itself a raw value.
proof fn lemma_mean_in_range(total: int, count: int)
    requires
        count > 0,
        count * i64::MIN <= total <= count * i64::MAX,
    ensures
        i64::MIN <= div_toward_zero(total, count) <= i64::MAX,
{
    let low = i64::MIN as int;
    let high = i64::MAX as int;
    if total >= 0 {
        assert(0 <= total / count <= high) by (nonlinear_arith)
            requires
                count > 0,
                0 <= total <= count * high,
        ;
    } else {
        let m = -total;
        assert(0 <= m / count <= -low) by (nonlinear_arith)
            requires
                count > 0,
                0 <= m <= count * (-low),
        ;
    }
}

/// One component of the mean of `count` raw values.
fn mean_component(total: i128, count: usize) -> (r: Fixed)
    requires
        count > 0,
        count * i64::MIN <= total <= count * i64::MAX,
    ensures
        r@ == div_toward_zero(total as int, count as int),
{
    proof {
        lemma_mean_in_range(total as int, count as int);
    }
    let mean: i128 = total / (count as i128);
    Fixed { raw: mean as i64 }
}

/// Counts the wheels that touch the ground and averages their contact normals into the
/// chassis's ground normal, which is none when no wheel touches.
pub fn average_chassis_normals(chassis: &mut Chassis, wheels: &[Wheel])
    ensures
        final(chassis).wheels_contacting_ground == grounded_count(wheels@),
        lifted(final(chassis).ground_normal) == average_normal(wheels@),
        final(chassis).same_setup(*old(chassis)),
        final(chassis).wf(),
{
    let mut count: usize = 0;
    let mut total_x: i128 = 0;
    let mut total_y: i128 = 0;
    let mut total_z: i128 = 0;
    let mut i: usize = 0;
    while i < wheels.len()
        invariant
            0 <= i <= wheels@.len(),
            count <= i,
            count == grounded_count(wheels@.take(i as int)),
            normal_total(wheels@.take(i as int)) == (V3 {
                x: total_x as int,
                y: total_y as int,
                z: total_z as int,
            }),
            count * i64::MIN <= total_x <= count * i64::MAX,
            count * i64::MIN <= total_y <= count * i64::MAX,
            count * i64::MIN <= total_z <= count * i64::MAX,
        decreases wheels@.len() - i,
    {
        proof {
            assert(wheels@.take(i + 1).drop_last() =~= wheels@.take(i as int));
        }
        match wheels[i].normal() {
            Some(n) => {
                count = count + 1;
                total_x = total_x + n.x.raw as i128;
                total_y = total_y + n.y.raw as i128;
                total_z = total_z + n.z.raw as i128;
            },
            None => {},
        }
        i = i + 1;
    }
    proof {
        assert(wheels@.take(i as int) =~= wheels@);
    }
    chassis.wheels_contacting_ground = count;
    if count == 0 {
        chassis.ground_normal = None;
    } else {
        chassis.ground_normal = Some(
            Vec3 {
                x: mean_component(total_x, count),
                y: mean_component(total_y, count),
                z: mean_component(total_z, count),
            },
        );
    }
}

/// Adds the drivetrain's force to the chassis's accumulator: a push along the drive axis,
/// scaled by the command, unless the kart is airborne or already at its speed ceiling on
/// that side.
pub fn apply_chassis_acceleration(
    ef: &mut ExternalForce,
    transform: &Pose,
    velocity: &Velocity,
    mass_properties: &MassProperties,
    chassis: &Chassis,
    player_commands: &PlayerCommands,
    options: &KartOptions,
)
    ensures
        final(ef)@ == force_sum_if_any(
            old(ef)@,
            drive_force(
                *chassis,
                *transform,
                *velocity,
                *mass_properties,
                *player_commands,
                *options,
            ),
        ),
        chassis.ground_normal is None ==> final(ef)@ == old(ef)@,
{
    let ground_normal = match chassis.ground_normal() {
        Some(n) => n,
        None => {
            return ;
        },
    };
    let acceleration = player_commands.commands().acceleration;
    let forward = match transform.forward() {
        Some(f) => f,
        None => {
            return ;
        },
    };
    let z_axis = match project_on_ground_plane(ground_normal, forward).normalize() {
        Some(axis) => axis,
        None => {
            return ;
        },
    };
    let forward_velocity = z_axis.dot(velocity.linvel);
    let force = options.max_acceleration.times(mass_properties.mass).times(acceleration);
    let ceiling: i128 = options.max_velocity.raw as i128;
    let speed: i128 = forward_velocity.raw as i128;
    if (force.raw < 0 && speed > -ceiling) || (force.raw > 0 && speed < ceiling) {
        ef.accumulate(ExternalForce::central(z_axis.scaled(force)));
    }
}

/// A kart: its chassis, its options, the driver's commands and its four wheels.
#[derive(Clone, Copy, Debug)]
pub struct Kart {
    pub chassis: Chassis,
    pub options: KartOptions,
    pub commands: PlayerCommands,
    pub wheels: [Wheel; 4],
}

impl Kart {
    /// The chassis and every wheel are well formed.
    pub open spec fn wf(&self) -> bool {
        &&& self.chassis.wf()
        &&& forall|i: int| 0 <= i < 4 ==> (#[trigger] self.wheels@[i]).wf()
    }

    /// Whether every wheel carries the chassis's suspension settings.
    pub open spec fn settled(&self) -> bool {
        forall|i: int| 0 <= i < 4 ==> self.chassis.governs(#[trigger] self.wheels@[i])
    }

    /// A kart with default chassis and options, no command, and its wheels at their mount
    /// points.
    pub fn new() -> (r: Kart)
        ensures
            r.wf(),
            r.chassis.max_suspension@ == 350_000,
            r.chassis.max_force@ == 4 * SCALE,
            r.chassis.damping_factor@ == 200_000,
            r.chassis.ground_normal is None,
            r.options.max_acceleration@ == 30 * SCALE,
            r.options.max_velocity@ == 12 * SCALE,
            r.commands.commands.acceleration@ == 0,
            r.wheels@[0].position@ == (V3 { x: 350_000, y: -160_000, z: 500_000 }),
            r.wheels@[1].position@ == (V3 { x: -350_000, y: -160_000, z: 500_000 }),
            r.wheels@[2].position@ == (V3 { x: 350_000, y: -160_000, z: -500_000 }),
            r.wheels@[3].position@ == (V3 { x: -350_000, y: -160_000, z: -500_000 }),
            forall|i: int| 0 <= i < 4 ==> (#[trigger] r.wheels@[i]).max_suspension@ == 400_000,
    {
        Kart {
            chassis: Chassis::default(),
            options: KartOptions::default(),
            commands: PlayerCommands::default(),
            wheels: create_kart_wheels(),
        }
    }

    /// Opens a tick: copies the chassis's suspension settings to the wheels, then says which
    /// ray to cast for each wheel under the given pose.
    pub fn begin_tick(&mut self, transform: &Pose) -> (rays: [Option<Ray>; 4])
        ensures
            final(self).chassis == old(self).chassis,
            final(self).options == old(self).options,
            final(self).commands == old(self).commands,
            final(self).settled(),
            forall|i: int|
                0 <= i < 4 ==> {
                    &&& (#[trigger] final(self).wheels@[i]).position == old(self).wheels@[i].position
                    &&& final(self).wheels@[i].same_contact(old(self).wheels@[i])
                    &&& final(self).wheels@[i].is_ray(*transform, rays@[i])
                },
            old(self).wf() ==> final(self).wf(),
    {
        propagate_chassis_properties(&self.chassis, &mut self.wheels);
        [
            self.wheels[0].ray(transform),
            self.wheels[1].ray(transform),
            self.wheels[2].ray(transform),
            self.wheels[3].ray(transform),
        ]
    }

    /// Closes a tick with the outcome of the four raycasts: probes each wheel, averages the
    /// ground normals, and returns the force gathered for the chassis, the suspension's
    /// first and the drivetrain's after it, starting from an empty accumulator.
    pub fn finish_tick(
        &mut self,
        transform: &Pose,
        velocity: &Velocity,
        mass_properties: &MassProperties,
        hits: &[Option<RayHit>; 4],
    ) -> (ef: ExternalForce)
        ensures
            final(self).options == old(self).options,
            final(self).commands == old(self).commands,
            final(self).chassis.same_setup(old(self).chassis),
            forall|i: int|
                0 <= i < 4 ==> (#[trigger] old(self).wheels@[i]).probed(
                    hits@[i],
                    final(self).wheels@[i],
                ),
            final(self).chassis.wheels_contacting_ground == grounded_count(final(self).wheels@),
            lifted(final(self).chassis.ground_normal) == average_normal(final(self).wheels@),
            ef@ == force_sum_if_any(
                wheel_forces(
                    no_force(),
                    final(self).wheels@,
                    *transform,
                    *velocity,
                    *mass_properties,
                ),
                drive_force(
                    final(self).chassis,
                    *transform,
                    *velocity,
                    *mass_properties,
                    final(self).commands,
                    final(self).options,
                ),
            ),
            final(self).wf(),
            old(self).settled() ==> final(self).settled(),
    {
        let mut i: usize = 0;
        while i < 4
            invariant
                0 <= i <= 4,
                self.options == old(self).options,
                self.commands == old(self).commands,
                self.chassis == old(self).chassis,
                forall|j: int|
                    0 <= j < i ==> {
                        &&& (#[trigger] old(self).wheels@[j]).probed(hits@[j], self.wheels@[j])
                        &&& self.wheels@[j].wf()
                    },
                forall|j: int| i <= j < 4 ==> self.wheels@[j] == old(self).wheels@[j],
            decreases 4 - i,
        {
            self.wheels[i].probe(hits[i]);
            i = i + 1;
        }
        average_chassis_normals(&mut self.chassis, &self.wheels);
        let mut ef = ExternalForce::zero();
        apply_wheel_forces(&mut ef, transform, velocity, mass_properties, &self.wheels);
        apply_chassis_acceleration(
            &mut ef,
            transform,
            velocity,
            mass_properties,
            &self.chassis,
            &self.commands,
            &self.options,
        );
        proof {
            assert forall|k: int| 0 <= k < 4 implies (#[trigger] self.wheels@[k]).wf() by {
                assert(old(self).wheels@[k].probed(hits@[k], self.wheels@[k]));
            }
            if old(self).settled() {
                assert forall|k: int| 0 <= k < 4 implies self.chassis.governs(
                    #[trigger] self.wheels@[k],
                ) by {
                    assert(old(self).wheels@[k].probed(hits@[k], self.wheels@[k]));
                    assert(old(self).chassis.governs(old(self).wheels@[k]));
                }
            }
        }
        ef
    }
}

} // verus!
