//! Forward integration of four point masses, three stars and a planet, that
//! attract one another by Newtonian gravity.
//!
//! The integrator fixes which elementary operations are applied to which
//! quantities. The scalar arithmetic itself is a parameter: every function
//! takes a `calc` that carries out one [`Operation`] at a time. A contract
//! here speaks of every function `f` from operations to scalars that `calc`
//! computes, and gives the result as a formula over `f`; what is only handed
//! on, a mass or a velocity, it gives outright.

pub mod arithmetic;
pub mod body;
pub mod derivative;
pub mod laws;
pub mod system;

pub use arithmetic::{Operation, EARTH_MASS, G, STAR_MASS, TWO};
pub use body::BodyVelocityPosition;
pub use derivative::{Acceleration, AccelerationVelocity, FourAccelerationVelocity};
pub use system::FourBodyVelocityPosition;
