//! A tire and suspension force model for driven and towed vehicles, in
//! fixed-point arithmetic.
//!
//! Once a tick the host hands in the bodies, the tires with what the ray
//! under each of them met, and what the driver asks for. [`tick::tick`]
//! works out the force of every spring, of the engine, of rolling friction
//! and of cornering at every tire, sums them by body, and leaves each body's
//! net force and torque in its slot for the rigid-body solver to integrate.

pub mod aggregator;
pub mod body;
pub mod config;
pub mod drivetrain;
pub mod fixed;
pub mod layout;
pub mod logarithm;
pub mod parking;
pub mod power;
pub mod reset;
pub mod steering;
pub mod suspension;
pub mod tick;
pub mod tire;
pub mod vector;

pub use crate::aggregator::sum_all_forces;
pub use crate::body::{Body, ExternalForce, ForceContribution, ForceError};
pub use crate::config::{VehicleConfig, VehicleKind};
pub use crate::layout::{spawn_car, spawn_trailer};
pub use crate::parking::ParkingSpotInfo;
pub use crate::power::lookup_power;
pub use crate::tire::{Tire, TireLocation, TirePose, TireState};
pub use crate::vector::Vec3;
