//! Deterministic fixed-point simulation core for a raycast-suspension kart.
//!
//! Every quantity is a [`fixed::Fixed`] scalar or a [`vec3::Vec3`] of them, so a
//! tick gives the same result on every machine. The surrounding application
//! performs the raycasts and applies the forces that a tick computes.

pub mod fixed;
pub mod vec3;
pub mod body;
pub mod debug;
pub mod kart;
pub mod map;
pub mod random;
