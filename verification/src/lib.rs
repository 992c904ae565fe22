//! Verified core of an airship flight simulation.
//!
//! The crate holds the algorithmic heart of the simulation: fixed-point
//! scalar, vector and quaternion geometry; fan-pattern ray direction
//! synthesis; a multi-ray environment sensor with a hold-last-value hit
//! buffer; a keyed boolean control palette; throttle integration from held
//! keys; differential thrust allocation across four thrusters; and the force
//! laws of the actuator primitives (thruster, balloon, fin, servo).
//!
//! Everything the host runtime owns — input devices, scene transforms, the
//! ray-cast service, rigid-body force application — enters and leaves through
//! plain values, so every function here carries a contract and is verified.
//! Scalars are fixed-point: an `i64` counts millionths of a unit (see
//! [`fixed::FX_ONE`]), which keeps the arithmetic exact and provable.

pub mod actuators;
pub mod controller;
pub mod fixed;
pub mod geom;
pub mod palette;
pub mod quat;
pub mod ray_fan;
pub mod sensor;
pub mod thrust;

pub use actuators::Balloon;
pub use actuators::Fin;
pub use actuators::Servo;
pub use actuators::Thruster;
pub use controller::AirshipController;
pub use fixed::FX_ONE;
pub use fixed::MAX_COORD;
pub use fixed::fx_mul;
pub use geom::Angle;
pub use geom::Vec3;
pub use geom::euler_to_dir_godot;
pub use palette::ConfigurationError;
pub use palette::ControlPalette;
pub use palette::ensure_unique_keys;
pub use quat::Quat;
pub use quat::quaternion_to_dir_godot;
pub use ray_fan::generate_ray_dirs;
pub use sensor::Frame;
pub use sensor::HitRecord;
pub use sensor::RayHit;
pub use sensor::RaySensorSuite;
pub use thrust::ThrustCommand;
pub use thrust::allocate;
