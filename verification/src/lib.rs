//! Fixed-point motion-control core for a four-module swerve drive base.
//!
//! Given a body-frame velocity and rotation rate each control cycle, the
//! library produces a steering angle and wheel speed for each of four
//! independently steered modules, bounding how fast commands may change and
//! never steering a module further than a quarter turn; an odometry
//! integrator fuses module feedback and a measured heading back into a
//! running pose.  All physical quantities are scaled integers: angles are
//! ticks with `TURN_TICKS` to a revolution, and lengths, speeds and unit
//! factors are micro-units with `UNIT` standing for 1.0, so every contract
//! is exact over the mathematical integers.
//!
//! The layers, leaves first: `fixed` (scaled-integer helpers), `angle`
//! (wraparound-safe normalization and shortest-path selection), `trig`
//! (circle functions and square roots), `vector` and `types` (planar
//! vectors and polar module states), `limiter` and `shaper` (slew limits
//! and the motion-shaping stage), `kinematics` (inverse and forward),
//! `odometry` (pose integration), and `drivetrain` (the controller that
//! owns all per-cycle state).  Motor drivers, heading sensors, input
//! devices and the scheduler live outside the library and exchange plain
//! values with it.

use vstd::prelude::*;

pub mod angle;
pub mod drivetrain;
pub mod fixed;
pub mod kinematics;
pub mod limiter;
pub mod odometry;
pub mod shaper;
pub mod trig;
pub mod types;
pub mod vector;

pub use angle::{normalize_angle, optimize_angle, HALF_TURN, QUARTER_TURN, TURN_TICKS};
pub use drivetrain::{Drivetrain, DrivetrainConfig, SwerveModule};
pub use fixed::UNIT;
pub use kinematics::SwerveKinematics;
pub use limiter::RateLimiter;
pub use odometry::{Odometry, Pose};
pub use shaper::MotionShaper;
pub use types::SwerveState;
pub use vector::Vec2;
