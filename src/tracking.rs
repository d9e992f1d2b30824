//! Tracking-wheel descriptions shared by the odometry task.

use vstd::prelude::*;

verus! {

/// How a tracking wheel is mounted relative to the robot's forward
/// direction.
#[derive(Debug, Clone, Copy, PartialEq, Eq, Structural)]
pub enum TrackingWheelMountingDirection {
    /// The tracking wheel is mounted parallel to the robot's forward direction.
    Parallel,
    /// The tracking wheel is mounted perpendicular to the robot's forward direction.
    Perpendicular,
}

/// An error of a tracking wheel's sensor.
#[derive(Debug)]
pub enum TrackingWheelError<T> {
    /// The sensor could not be read.
    Sensor { source: T },
}

} // verus!
