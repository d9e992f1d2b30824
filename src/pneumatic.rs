//! Pneumatic pistons driven by digital solenoid outputs.

use vstd::prelude::*;

verus! {

/// A digital output level.
#[derive(Debug, Clone, Copy, PartialEq, Eq, Structural)]
pub enum Level {
    Low,
    High,
}

/// The level that extends a piston, for solenoids wired so that a low level
/// extends (`low_is_extended`) or so that a high level does.
pub fn extended_level(low_is_extended: bool) -> (r: Level)
    ensures
        r == (if low_is_extended {
            Level::Low
        } else {
            Level::High
        }),
{
    if low_is_extended {
        Level::Low
    } else {
        Level::High
    }
}

/// The level that retracts a piston.
pub fn retracted_level(low_is_extended: bool) -> (r: Level)
    ensures
        r == (if low_is_extended {
            Level::High
        } else {
            Level::Low
        }),
        r != extended_level_spec(low_is_extended),
{
    if low_is_extended {
        Level::High
    } else {
        Level::Low
    }
}

/// The level that extends a piston, as a value.
pub open spec fn extended_level_spec(low_is_extended: bool) -> Level {
    if low_is_extended {
        Level::Low
    } else {
        Level::High
    }
}

/// The opposite level.
pub fn toggled(level: Level) -> (r: Level)
    ensures
        r != level,
{
    match level {
        Level::Low => Level::High,
        Level::High => Level::Low,
    }
}

/// Whether a solenoid read at `level` holds its piston extended. A failed
/// read (`None`) counts as neither extended nor retracted.
pub fn is_extended(level: Option<Level>, low_is_extended: bool) -> (r: bool)
    ensures
        r == (level == Some(extended_level_spec(low_is_extended))),
{
    match level {
        Some(l) => l == extended_level(low_is_extended),
        None => false,
    }
}

/// Whether a solenoid read at `level` holds its piston retracted.
pub fn is_retracted(level: Option<Level>, low_is_extended: bool) -> (r: bool)
    ensures
        r == (level is Some && level != Some(extended_level_spec(low_is_extended))),
{
    match level {
        Some(l) => l == retracted_level(low_is_extended),
        None => false,
    }
}

/// Which way round a mirrored pair of mechanisms is used.
#[derive(Debug, Clone, Copy, PartialEq, Eq, Structural)]
pub enum MirroredState {
    /// Like normal. Right is right, left is left.
    Normal,
    /// Mirrored. Right is left, left is right.
    Mirrored,
}

/// A left and a right pneumatic mechanism used as a dominant and a
/// non-dominant side, which side being which depending on the mirrored
/// state.
#[derive(Debug)]
pub struct MirroredPneumaticSubsystem<S> {
    pub left: S,
    pub right: S,
    pub mirrored_state: MirroredState,
}

impl<S> MirroredPneumaticSubsystem<S> {
    /// A mirrored pair of the given sides.
    pub fn new(left: S, right: S, mirrored_state: MirroredState) -> (r: MirroredPneumaticSubsystem<S>)
        ensures
            r.left == left,
            r.right == right,
            r.mirrored_state == mirrored_state,
    {
        MirroredPneumaticSubsystem { left, right, mirrored_state }
    }

    /// The dominant side: the right one normally, the left one mirrored.
    pub fn dominant(&mut self) -> (r: &mut S)
        ensures
            old(self).mirrored_state == MirroredState::Normal ==> {
                &&& *r == old(self).right
                &&& *final(self) == (MirroredPneumaticSubsystem { right: *final(r), ..*old(self) })
            },
            old(self).mirrored_state == MirroredState::Mirrored ==> {
                &&& *r == old(self).left
                &&& *final(self) == (MirroredPneumaticSubsystem { left: *final(r), ..*old(self) })
            },
    {
        match self.mirrored_state {
            MirroredState::Normal => &mut self.right,
            MirroredState::Mirrored => &mut self.left,
        }
    }

    /// The non-dominant side: the left one normally, the right one mirrored.
    pub fn non_dominant(&mut self) -> (r: &mut S)
        ensures
            old(self).mirrored_state == MirroredState::Normal ==> {
                &&& *r == old(self).left
                &&& *final(self) == (MirroredPneumaticSubsystem { left: *final(r), ..*old(self) })
            },
            old(self).mirrored_state == MirroredState::Mirrored ==> {
                &&& *r == old(self).right
                &&& *final(self) == (MirroredPneumaticSubsystem { right: *final(r), ..*old(self) })
            },
    {
        match self.mirrored_state {
            MirroredState::Normal => &mut self.left,
            MirroredState::Mirrored => &mut self.right,
        }
    }

    /// Sets the mirrored state.
    pub fn set_mirrored_state(&mut self, mirrored_state: MirroredState)
        ensures
            *final(self) == (MirroredPneumaticSubsystem { mirrored_state, ..*old(self) }),
    {
        self.mirrored_state = mirrored_state;
    }

    /// The current mirrored state.
    pub fn mirrored_state(&self) -> (r: MirroredState)
        ensures
            r == self.mirrored_state,
    {
        self.mirrored_state
    }
}

} // verus!
