//! Keplerian planetary systems in exact integer units.
//!
//! The crate holds the discrete part of an orbital engine: the bodies and
//! their chain of gravitational parents, the registry that finds them by
//! name, the zodiac that divides the circle into named sectors, and the
//! day-then-second scan for the moment a bearing enters a sector. Every
//! quantity is a whole number of a fixed unit, so each result is stated and
//! proved exactly. The trigonometry of the orbit itself is left to the
//! caller, who hands it in as a function where an operation needs it.

pub mod body;
pub mod epoch;
mod palette;
pub mod point;
pub mod search;
pub mod system;
pub mod text;
pub mod trajectory;
pub mod units;
pub mod zodiac;

pub use body::{Orbitor, SolarSystemObject, StaticObject, NEWTON_ITERATIONS, SCALING_FACTOR};
pub use epoch::{dt_to_internal, internal_to_dt, j2000, DateTime, J2000_UNIX_NANOS};
pub use point::{Point2D, Point3D};
pub use search::{first_entry_within, scan_window_days};
pub use system::{SignTiming, SolarSystem};
pub use units::{normalize, Angle, Length, Mass, Ratio, Time};
pub use zodiac::Zodiac;
