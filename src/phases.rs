//! Phase machines of the composite actions.
//!
//! A composite action initialises a child when it enters a phase, forwards
//! each tick to that child, and moves on when the child finishes, within the
//! same tick. Each transition here strictly raises a rank, so that
//! re-dispatching within one tick ends after a bounded number of steps.

use vstd::prelude::*;

verus! {

/// Phases of driving to a point: turn to face it, then drive onto it.
#[derive(Debug, Clone, Copy, PartialEq, Eq, Structural)]
pub enum DriveToPointPhase {
    /// No tick has run yet.
    NotStarted,
    /// Turning in place to face the target.
    Turning,
    /// Driving onto the target.
    Driving,
    /// Finished; every later tick reports done.
    Done,
}

/// Position of a phase in the sequence.
pub open spec fn drive_rank(p: DriveToPointPhase) -> nat {
    match p {
        DriveToPointPhase::NotStarted => 0,
        DriveToPointPhase::Turning => 1,
        DriveToPointPhase::Driving => 2,
        DriveToPointPhase::Done => 3,
    }
}

impl DriveToPointPhase {
    /// The phase that follows once this one's child has finished (or, for
    /// `NotStarted`, once the turn has been set up).
    pub fn advance(self) -> (r: DriveToPointPhase)
        ensures
            self != DriveToPointPhase::Done ==> drive_rank(r) == drive_rank(self) + 1,
            self == DriveToPointPhase::Done ==> r == DriveToPointPhase::Done,
    {
        match self {
            DriveToPointPhase::NotStarted => DriveToPointPhase::Turning,
            DriveToPointPhase::Turning => DriveToPointPhase::Driving,
            DriveToPointPhase::Driving => DriveToPointPhase::Done,
            DriveToPointPhase::Done => DriveToPointPhase::Done,
        }
    }

    /// Whether the action has finished.
    pub fn is_done(self) -> (r: bool)
        ensures
            r == (self == DriveToPointPhase::Done),
    {
        matches!(self, DriveToPointPhase::Done)
    }
}

/// Modes of path following.
#[derive(Debug, Clone, Copy, PartialEq, Eq, Structural)]
pub enum PursuitMode {
    /// Steering toward the lookahead point on the path.
    Following,
    /// Handed over to a point seek onto the end of the path.
    Seeking,
    /// Finished; every later tick reports done.
    Settled,
}

/// Position of a mode in the sequence.
pub open spec fn pursuit_rank(m: PursuitMode) -> nat {
    match m {
        PursuitMode::Following => 0,
        PursuitMode::Seeking => 1,
        PursuitMode::Settled => 2,
    }
}

/// The mode after a tick in `m`. While following, `settled` is the settling
/// check on the distance left along the path and `near_end` whether the aim
/// point is within the hand-over distance; while seeking, `settled` is
/// whether the seek has finished.
pub open spec fn pursuit_next(m: PursuitMode, settled: bool, near_end: bool) -> PursuitMode {
    match m {
        PursuitMode::Following => if settled {
            PursuitMode::Settled
        } else if near_end {
            PursuitMode::Seeking
        } else {
            PursuitMode::Following
        },
        PursuitMode::Seeking => if settled {
            PursuitMode::Settled
        } else {
            PursuitMode::Seeking
        },
        PursuitMode::Settled => PursuitMode::Settled,
    }
}

impl PursuitMode {
    /// The mode after a tick; see [`pursuit_next`]. A mode only ever moves
    /// forward.
    pub fn next(self, settled: bool, near_end: bool) -> (r: PursuitMode)
        ensures
            r == pursuit_next(self, settled, near_end),
            pursuit_rank(r) >= pursuit_rank(self),
    {
        match self {
            PursuitMode::Following => {
                if settled {
                    PursuitMode::Settled
                } else if near_end {
                    PursuitMode::Seeking
                } else {
                    PursuitMode::Following
                }
            },
            PursuitMode::Seeking => {
                if settled {
                    PursuitMode::Settled
                } else {
                    PursuitMode::Seeking
                }
            },
            PursuitMode::Settled => PursuitMode::Settled,
        }
    }
}

} // verus!
