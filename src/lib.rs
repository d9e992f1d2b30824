//! Motion-control core of a differential-drive competition robot: the
//! command, settling and sequencing logic that the drivetrain runner, the
//! closed-loop actions and the odometry task share.
//!
//! Quantities are integers in fixed units: motor commands in millivolts or
//! wheel RPM (the motors' own units), settling errors and velocities in a
//! fixed unit of the caller's choosing, times in milliseconds of a monotonic
//! clock.

pub mod drivetrain_pair;
pub mod logger;
pub mod phases;
pub mod pneumatic;
pub mod report;
pub mod runner;
pub mod settling;
pub mod tracking;
pub mod voltage_pair;

pub use logger::init;
