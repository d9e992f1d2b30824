//! Settling detection for closed-loop actions.
//!
//! Errors and velocities are integers in whatever fixed unit the caller
//! measures them in (micrometres, microradians, ...); times are readings of
//! a monotonic clock in milliseconds.

use vstd::prelude::*;

verus! {

/// A settling predicate over an error and a velocity: the loop has settled
/// once both have stayed inside their tolerance band for a given duration,
/// or once a timeout has passed since the first check.
///
/// A tolerance, duration or timeout that is `None` does not constrain.
#[derive(Debug, Clone, Copy, PartialEq, Eq, Structural)]
pub struct Tolerances {
    /// Magnitude below which the error counts as at the setpoint.
    pub error_tolerance: Option<i64>,
    /// Magnitude below which the velocity counts as settled.
    pub velocity_tolerance: Option<i64>,
    /// How long (ms) both must hold together.
    pub tolerance_duration: Option<u64>,
    /// Time (ms) after the first check at which settling is forced.
    pub timeout: Option<u64>,
    /// Clock reading of the first check.
    pub started_at: Option<u64>,
    /// Clock reading at which the current stay inside the band began.
    pub in_band_since: Option<u64>,
}

/// Whether `v` lies strictly inside `(-tol, tol)`, or `tol` is absent.
pub open spec fn inside(tol: Option<i64>, v: int) -> bool {
    match tol {
        Some(t) => -(t as int) < v && v < t as int,
        None => true,
    }
}

/// Whether an error and a velocity both lie inside the band of `t`.
pub open spec fn in_band(t: Tolerances, error: int, velocity: int) -> bool {
    inside(t.error_tolerance, error) && inside(t.velocity_tolerance, velocity)
}

/// Time from `since` to `now`, zero if the clock reads earlier.
pub open spec fn elapsed(since: int, now: int) -> int {
    if now >= since {
        now - since
    } else {
        0
    }
}

/// The state after a check at `now`.
pub open spec fn after_check(t: Tolerances, error: int, velocity: int, now: u64) -> Tolerances {
    Tolerances {
        started_at: Some(
            match t.started_at {
                Some(s) => s,
                None => now,
            },
        ),
        in_band_since: if in_band(t, error, velocity) {
            Some(
                match t.in_band_since {
                    Some(b) => b,
                    None => now,
                },
            )
        } else {
            None
        },
        ..t
    }
}

/// Whether the band has been held for the required duration, given the
/// state after a check.
pub open spec fn held_long_enough(n: Tolerances, now: u64) -> bool {
    match n.in_band_since {
        Some(b) => match n.tolerance_duration {
            Some(d) => elapsed(b as int, now as int) >= d as int,
            None => true,
        },
        None => false,
    }
}

/// Whether the timeout has passed, given the state after a check.
pub open spec fn timed_out(n: Tolerances, now: u64) -> bool {
    match (n.timeout, n.started_at) {
        (Some(to), Some(s)) => elapsed(s as int, now as int) >= to as int,
        _ => false,
    }
}

/// What a check at `now` reports.
pub open spec fn settles(t: Tolerances, error: int, velocity: int, now: u64) -> bool {
    let n = after_check(t, error, velocity, now);
    held_long_enough(n, now) || timed_out(n, now)
}

fn inside_exec(tol: Option<i64>, v: i64) -> (r: bool)
    ensures
        r == inside(tol, v as int),
{
    match tol {
        Some(t) => {
            if t <= 0 {
                false
            } else {
                -t < v && v < t
            }
        },
        None => true,
    }
}

fn elapsed_exec(since: u64, now: u64) -> (r: u64)
    ensures
        r == elapsed(since as int, now as int),
{
    if now >= since {
        now - since
    } else {
        0
    }
}

impl Tolerances {
    /// Tolerances that constrain nothing yet, with no check made.
    pub fn new() -> (r: Tolerances)
        ensures
            r.error_tolerance is None,
            r.velocity_tolerance is None,
            r.tolerance_duration is None,
            r.timeout is None,
            r.started_at is None,
            r.in_band_since is None,
    {
        Tolerances {
            error_tolerance: None,
            velocity_tolerance: None,
            tolerance_duration: None,
            timeout: None,
            started_at: None,
            in_band_since: None,
        }
    }

    /// Sets the error tolerance.
    pub fn error_tolerance(self, tolerance: i64) -> (r: Tolerances)
        ensures
            r == (Tolerances { error_tolerance: Some(tolerance), ..self }),
    {
        Tolerances { error_tolerance: Some(tolerance), ..self }
    }

    /// Sets the velocity tolerance.
    pub fn velocity_tolerance(self, tolerance: i64) -> (r: Tolerances)
        ensures
            r == (Tolerances { velocity_tolerance: Some(tolerance), ..self }),
    {
        Tolerances { velocity_tolerance: Some(tolerance), ..self }
    }

    /// Sets how long (ms) the band must be held.
    pub fn tolerance_duration(self, duration_ms: u64) -> (r: Tolerances)
        ensures
            r == (Tolerances { tolerance_duration: Some(duration_ms), ..self }),
    {
        Tolerances { tolerance_duration: Some(duration_ms), ..self }
    }

    /// Sets the timeout (ms) after the first check.
    pub fn timeout(self, timeout_ms: u64) -> (r: Tolerances)
        ensures
            r == (Tolerances { timeout: Some(timeout_ms), ..self }),
    {
        Tolerances { timeout: Some(timeout_ms), ..self }
    }

    /// Records one sample taken at `now` and reports whether the loop has
    /// settled: the error and velocity have stayed inside the band for the
    /// tolerance duration, or the timeout has passed since the first check.
    pub fn check(&mut self, error: i64, velocity: i64, now: u64) -> (r: bool)
        ensures
            *final(self) == after_check(*old(self), error as int, velocity as int, now),
            r == settles(*old(self), error as int, velocity as int, now),
    {
        if self.started_at.is_none() {
            self.started_at = Some(now);
        }
        let band = inside_exec(self.error_tolerance, error) && inside_exec(
            self.velocity_tolerance,
            velocity,
        );
        if band {
            if self.in_band_since.is_none() {
                self.in_band_since = Some(now);
            }
        } else {
            self.in_band_since = None;
        }
        let held = match self.in_band_since {
            Some(b) => match self.tolerance_duration {
                Some(d) => elapsed_exec(b, now) >= d,
                None => true,
            },
            None => false,
        };
        let late = match (self.timeout, self.started_at) {
            (Some(to), Some(s)) => elapsed_exec(s, now) >= to,
            _ => false,
        };
        held || late
    }
}

/// Once a check reports settled, a later check whose input is still inside
/// the band reports settled too.
pub proof fn lemma_settled_stays_settled(
    t: Tolerances,
    e1: int,
    v1: int,
    now1: u64,
    e2: int,
    v2: int,
    now2: u64,
)
    requires
        settles(t, e1, v1, now1),
        in_band(t, e2, v2),
        now1 <= now2,
    ensures
        settles(after_check(t, e1, v1, now1), e2, v2, now2),
{
}

/// Once the timeout has passed, every later check reports settled, whatever
/// its input.
pub proof fn lemma_timeout_is_final(
    t: Tolerances,
    e1: int,
    v1: int,
    now1: u64,
    e2: int,
    v2: int,
    now2: u64,
)
    requires
        timed_out(after_check(t, e1, v1, now1), now1),
        now1 <= now2,
    ensures
        settles(after_check(t, e1, v1, now1), e2, v2, now2),
{
}

} // verus!
