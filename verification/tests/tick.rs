use soochcart::body::{ExternalForce, MassProperties, Pose, Velocity};
use soochcart::fixed::Fixed;
use soochcart::kart::input::collect_local_inputs;
use soochcart::kart::wheel::{Ray, RayHit};
use soochcart::kart::Kart;
use soochcart::vec3::Vec3;

fn raw(v: i64) -> Fixed {
    Fixed::from_raw(v)
}

fn up() -> Vec3 {
    Vec3::from_raw(0, 1_000_000, 0)
}

fn hit(toi: i64) -> Option<RayHit> {
    Some(RayHit { toi: raw(toi), normal: up() })
}

fn kart_mass() -> MassProperties {
    MassProperties { mass: raw(20_000_000), local_center_of_mass: Vec3::zero() }
}

#[test]
fn new_kart_has_four_extended_wheels() {
    let kart = Kart::new();
    assert_eq!(kart.chassis.ground_normal(), None);
    assert_eq!(kart.options.max_velocity.raw(), 12_000_000);
    assert_eq!(kart.commands.commands().acceleration.raw(), 0);
    assert_eq!(kart.wheels.len(), 4);
    assert_eq!(kart.wheels[0].position, Vec3::from_raw(350_000, -160_000, 500_000));
    assert_eq!(kart.wheels[3].position, Vec3::from_raw(-350_000, -160_000, -500_000));
    for w in kart.wheels.iter() {
        assert!(w.extended());
        assert_eq!(w.max_suspension.raw(), 400_000);
    }
}

#[test]
fn begin_tick_settles_the_wheels_and_asks_for_four_rays() {
    let mut kart = Kart::new();
    let mut pose = Pose::identity();
    pose.translation = Vec3::from_raw(0, 300_000, 0);
    let rays = kart.begin_tick(&pose);
    for w in kart.wheels.iter() {
        assert_eq!(w.max_suspension.raw(), 350_000);
    }
    assert_eq!(
        rays[0],
        Some(Ray {
            origin: Vec3::from_raw(350_000, 140_000, 500_000),
            direction: Vec3::from_raw(0, -1_000_000, 0),
            max_toi: raw(350_000),
        })
    );
    assert_eq!(rays[1].map(|r| r.origin), Some(Vec3::from_raw(-350_000, 140_000, 500_000)));
    assert_eq!(rays[2].map(|r| r.origin), Some(Vec3::from_raw(350_000, 140_000, -500_000)));
    assert_eq!(rays[3].map(|r| r.origin), Some(Vec3::from_raw(-350_000, 140_000, -500_000)));
}

#[test]
fn changed_chassis_setting_reaches_every_wheel_within_a_tick() {
    let mut kart = Kart::new();
    let pose = Pose::identity();
    kart.begin_tick(&pose);
    kart.finish_tick(&pose, &Velocity::zero(), &kart_mass(), &[hit(175_000); 4]);
    kart.chassis.max_force = raw(9_500_000);
    kart.begin_tick(&pose);
    for w in kart.wheels.iter() {
        assert_eq!(w.max_force.raw(), 9_500_000);
    }
    let ef = kart.finish_tick(&pose, &Velocity::zero(), &kart_mass(), &[hit(175_000); 4]);
    for w in kart.wheels.iter() {
        assert_eq!(w.max_force.raw(), 9_500_000);
    }
    assert_eq!(ef.force, Vec3::from_raw(0, 380_000_000, 0));
}

#[test]
fn resting_kart_is_carried_by_its_four_wheels() {
    let mut kart = Kart::new();
    let pose = Pose::identity();
    kart.begin_tick(&pose);
    let ef = kart.finish_tick(&pose, &Velocity::zero(), &kart_mass(), &[hit(175_000); 4]);
    assert_eq!(kart.chassis.wheels_contacting_ground, 4);
    assert_eq!(kart.chassis.ground_normal(), Some(up()));
    for w in kart.wheels.iter() {
        assert_eq!(w.ratio().raw(), 500_000);
        assert_eq!(w.normal(), Some(up()));
    }
    assert_eq!(ef.force, Vec3::from_raw(0, 160_000_000, 0));
    assert_eq!(ef.torque, Vec3::zero());
}

#[test]
fn airborne_kart_gets_no_force_whatever_the_command() {
    let mut kart = Kart::new();
    let pose = Pose::identity();
    for (forward, backward) in [(false, false), (true, false), (false, true), (true, true)] {
        collect_local_inputs(&mut kart.commands, forward, backward);
        kart.begin_tick(&pose);
        let ef = kart.finish_tick(&pose, &Velocity::zero(), &kart_mass(), &[None; 4]);
        assert_eq!(kart.chassis.wheels_contacting_ground, 0);
        assert_eq!(kart.chassis.ground_normal(), None);
        for w in kart.wheels.iter() {
            assert_eq!(w.ratio().raw(), 0);
        }
        assert_eq!(ef, ExternalForce::zero());
    }
}

#[test]
fn landing_and_taking_off_leave_no_stale_state() {
    let mut kart = Kart::new();
    let pose = Pose::identity();
    kart.begin_tick(&pose);
    kart.finish_tick(&pose, &Velocity::zero(), &kart_mass(), &[hit(100_000); 4]);
    assert_eq!(kart.chassis.ground_normal(), Some(up()));
    kart.begin_tick(&pose);
    let ef = kart.finish_tick(&pose, &Velocity::zero(), &kart_mass(), &[None; 4]);
    assert_eq!(kart.chassis.ground_normal(), None);
    assert_eq!(kart.chassis.wheels_contacting_ground, 0);
    assert_eq!(ef, ExternalForce::zero());
}

#[test]
fn driven_kart_gets_suspension_and_drive() {
    let mut kart = Kart::new();
    let pose = Pose::identity();
    collect_local_inputs(&mut kart.commands, true, false);
    kart.begin_tick(&pose);
    let ef = kart.finish_tick(&pose, &Velocity::zero(), &kart_mass(), &[hit(175_000); 4]);
    assert_eq!(ef.force, Vec3::from_raw(0, 160_000_000, -600_000_000));
    assert_eq!(ef.torque, Vec3::zero());
}

#[test]
fn kart_on_two_wheels_tips() {
    let mut kart = Kart::new();
    let pose = Pose::identity();
    kart.begin_tick(&pose);
    let hits = [hit(175_000), None, hit(175_000), None];
    let ef = kart.finish_tick(&pose, &Velocity::zero(), &kart_mass(), &hits);
    assert_eq!(kart.chassis.wheels_contacting_ground, 2);
    assert_eq!(ef.force, Vec3::from_raw(0, 80_000_000, 0));
    assert_eq!(ef.torque, Vec3::from_raw(0, 0, 28_000_000));
}

#[test]
fn each_tick_starts_from_an_empty_accumulator() {
    let mut kart = Kart::new();
    let pose = Pose::identity();
    kart.begin_tick(&pose);
    let first = kart.finish_tick(&pose, &Velocity::zero(), &kart_mass(), &[hit(175_000); 4]);
    kart.begin_tick(&pose);
    let second = kart.finish_tick(&pose, &Velocity::zero(), &kart_mass(), &[hit(175_000); 4]);
    assert_eq!(first, second);
}

#[test]
fn kart_at_the_ceiling_is_only_carried() {
    let mut kart = Kart::new();
    let pose = Pose::identity();
    let velocity = Velocity { linvel: Vec3::from_raw(0, 0, -12_000_000), angvel: Vec3::zero() };
    collect_local_inputs(&mut kart.commands, true, false);
    kart.begin_tick(&pose);
    let ef = kart.finish_tick(&pose, &velocity, &kart_mass(), &[hit(175_000); 4]);
    assert_eq!(ef.force, Vec3::from_raw(0, 160_000_000, 0));
    collect_local_inputs(&mut kart.commands, false, true);
    kart.begin_tick(&pose);
    let braking = kart.finish_tick(&pose, &velocity, &kart_mass(), &[hit(175_000); 4]);
    assert_eq!(braking.force, Vec3::from_raw(0, 160_000_000, 600_000_000));
}
