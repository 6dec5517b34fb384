use soochcart::body::{ExternalImpulse, MassProperties, Pose};
use soochcart::debug::{debug_draw_wheels, debug_random_impulse, WheelTrace};
use soochcart::fixed::Fixed;
use soochcart::kart::wheel::{RayHit, Wheel};
use soochcart::vec3::Vec3;

fn front_right() -> Wheel {
    Wheel::new(Vec3::from_raw(350_000, -160_000, 500_000), Fixed::from_raw(350_000))
}

#[test]
fn extended_wheel_draws_its_whole_travel() {
    let trace = debug_draw_wheels(&Pose::identity(), &front_right());
    assert_eq!(
        trace,
        Some(WheelTrace {
            start: Vec3::from_raw(350_000, -160_000, 500_000),
            end: Vec3::from_raw(350_000, -510_000, 500_000),
            compressed: false,
        })
    );
}

#[test]
fn compressed_wheel_draws_what_is_left_of_its_travel() {
    let mut w = front_right();
    w.probe(Some(RayHit { toi: Fixed::from_raw(175_000), normal: Vec3::from_raw(0, 1_000_000, 0) }));
    let mut pose = Pose::identity();
    pose.translation = Vec3::from_raw(0, 1_000_000, 0);
    let trace = debug_draw_wheels(&pose, &w);
    assert_eq!(
        trace,
        Some(WheelTrace {
            start: Vec3::from_raw(350_000, 840_000, 500_000),
            end: Vec3::from_raw(350_000, 665_000, 500_000),
            compressed: true,
        })
    );
}

#[test]
fn nothing_to_draw_without_an_up_direction() {
    let mut pose = Pose::identity();
    pose.y_axis = Vec3::zero();
    assert_eq!(debug_draw_wheels(&pose, &front_right()), None);
}

#[test]
fn kick_lifts_with_three_per_unit_of_mass() {
    let mass = MassProperties { mass: Fixed::from_raw(20_000_000), local_center_of_mass: Vec3::zero() };
    let kick = debug_random_impulse(&mass, Vec3::from_raw(1_000_000, 0, 0));
    assert_eq!(
        kick,
        ExternalImpulse {
            impulse: Vec3::from_raw(0, 60_000_000, 0),
            torque_impulse: Vec3::from_raw(0, 0, 60_000_000),
        }
    );
}

#[test]
fn kick_through_the_center_of_mass_does_not_turn() {
    let center = Vec3::from_raw(0, 100_000, 0);
    let mass = MassProperties { mass: Fixed::from_raw(1_000_000), local_center_of_mass: center };
    let kick = debug_random_impulse(&mass, center);
    assert_eq!(kick.impulse, Vec3::from_raw(0, 3_000_000, 0));
    assert_eq!(kick.torque_impulse, Vec3::zero());
}

#[test]
fn impulse_at_a_point_carries_a_turning_impulse() {
    let kick = ExternalImpulse::at_point(
        Vec3::from_raw(0, 0, 2_000_000),
        Vec3::from_raw(0, 1_000_000, 0),
        Vec3::zero(),
    );
    assert_eq!(kick.impulse, Vec3::from_raw(0, 0, 2_000_000));
    assert_eq!(kick.torque_impulse, Vec3::from_raw(2_000_000, 0, 0));
}
