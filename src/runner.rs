//! The per-tick decision of the drivetrain runner.
//!
//! The runner task owns the motors; each tick it hands the active action's
//! output to [`RunnerState::command`] and performs the [`MotorCommand`] it
//! gets back.

use crate::drivetrain_pair::{
    lemma_max_keeps_ratio, limited, scale_toward_zero, swapped, DrivetrainPair, DrivetrainUnits,
};
use vstd::arithmetic::div_mod::{lemma_div_by_multiple, lemma_div_is_ordered};
use vstd::prelude::*;

verus! {

/// Period of the runner loop, in milliseconds.
pub const LOOP_TIME_MS: u32 = 10;

/// What the runner does to the motors in one tick.
#[derive(Debug, Clone, Copy, PartialEq, Eq, Structural)]
pub enum MotorCommand {
    /// Apply these millivolts to the left and right sides.
    Voltage { left: i32, right: i32 },
    /// Hold the left and right sides at these RPM.
    Velocity { left: i32, right: i32 },
    /// Apply zero volts to both sides and mark the action done.
    StopAndFinish,
}

/// What the runner remembers between ticks.
///
/// Velocities are remembered in hundredths of an RPM, so that an
/// acceleration limit that allows a fraction of an RPM per tick still adds
/// up from tick to tick.
#[derive(Debug, Clone, Copy, PartialEq, Eq, Structural)]
pub struct RunnerState {
    /// Velocity (hundredths of an RPM) last asked of the left side.
    pub last_left_centi_rpm: i64,
    /// Velocity (hundredths of an RPM) last asked of the right side.
    pub last_right_centi_rpm: i64,
    /// Largest change (hundredths of an RPM) of a side's velocity in one
    /// tick.
    pub max_centi_rpm_step: i64,
    /// Motor voltage limit (mV) last pushed to the motors.
    pub pushed_voltage_limit: Option<i32>,
}

/// Lowest velocity (hundredths of an RPM) an `i32` RPM command stands for.
pub const MIN_CENTI_RPM: i64 = -214_748_364_800;

/// Highest velocity (hundredths of an RPM) an `i32` RPM command stands for.
pub const MAX_CENTI_RPM: i64 = 214_748_364_700;

/// The velocity change (hundredths of an RPM) allowed in one tick by an
/// acceleration limit in RPM per second: `max_acceleration * dt`, exactly.
pub open spec fn centi_rpm_step(max_acceleration: int) -> int {
    max_acceleration * LOOP_TIME_MS * 100 / 1000
}

/// Whether the remembered velocities lie in the range of RPM commands and
/// the step is the one of a `u32` acceleration limit.
pub open spec fn runner_wf(s: RunnerState) -> bool {
    &&& MIN_CENTI_RPM <= s.last_left_centi_rpm <= MAX_CENTI_RPM
    &&& MIN_CENTI_RPM <= s.last_right_centi_rpm <= MAX_CENTI_RPM
    &&& 0 <= s.max_centi_rpm_step <= u32::MAX
}

/// `target`, clamped to within `step` of `prev`.
pub open spec fn ramp(prev: int, target: int, step: int) -> int {
    if target > prev + step {
        prev + step
    } else if target < prev - step {
        prev - step
    } else {
        target
    }
}

/// A velocity in hundredths of an RPM as a whole-RPM command, cut toward
/// zero.
pub open spec fn whole_rpm(centi: int) -> int {
    scale_toward_zero(centi, 1, 100)
}

/// The command for one tick and the state after it, for the action output
/// `output` (`None` once the action has finished), with the odometry's
/// reverse flag and the voltage limit (mV).
pub open spec fn plan(s: RunnerState, output: Option<DrivetrainPair>, reverse: bool, max_voltage: int) -> (RunnerState, MotorCommand) {
    match output {
        None => (s, MotorCommand::StopAndFinish),
        Some(p0) => {
            let p = if reverse {
                swapped(p0)
            } else {
                p0
            };
            match p.units {
                DrivetrainUnits::Voltage => {
                    let q = limited(p, max_voltage);
                    (s, MotorCommand::Voltage { left: q.left, right: q.right })
                },
                DrivetrainUnits::RPM => {
                    let l = ramp(s.last_left_centi_rpm as int, p.left * 100, s.max_centi_rpm_step as int);
                    let r = ramp(s.last_right_centi_rpm as int, p.right * 100, s.max_centi_rpm_step as int);
                    (
                        RunnerState { last_left_centi_rpm: l as i64, last_right_centi_rpm: r as i64, ..s },
                        MotorCommand::Velocity { left: whole_rpm(l) as i32, right: whole_rpm(r) as i32 },
                    )
                },
            }
        },
    }
}

/// `target` moved no further than `step` from `prev`.
pub fn ramp_toward(prev: i64, target: i64, step: i64) -> (r: i64)
    requires
        MIN_CENTI_RPM <= prev <= MAX_CENTI_RPM,
        MIN_CENTI_RPM <= target <= MAX_CENTI_RPM,
        0 <= step <= u32::MAX,
    ensures
        r == ramp(prev as int, target as int, step as int),
        MIN_CENTI_RPM <= r <= MAX_CENTI_RPM,
{
    if target > prev + step {
        prev + step
    } else if target < prev - step {
        prev - step
    } else {
        target
    }
}

/// A velocity in hundredths of an RPM as a whole-RPM command, cut toward
/// zero.
pub fn to_whole_rpm(centi: i64) -> (r: i32)
    requires
        MIN_CENTI_RPM <= centi <= MAX_CENTI_RPM,
    ensures
        r == whole_rpm(centi as int),
{
    if centi >= 0 {
        proof {
            lemma_div_is_ordered(centi as int, MAX_CENTI_RPM as int, 100);
        }
        (centi / 100) as i32
    } else {
        proof {
            lemma_div_is_ordered(-centi, -MIN_CENTI_RPM, 100);
        }
        (-((-centi) / 100)) as i32
    }
}

impl RunnerState {
    /// The state before the first tick: both sides at rest, no voltage limit
    /// pushed yet, and velocity changes bounded by `max_acceleration` (RPM
    /// per second) over each tick.
    pub fn new(max_acceleration: u32) -> (r: RunnerState)
        ensures
            r == (RunnerState {
                last_left_centi_rpm: 0,
                last_right_centi_rpm: 0,
                max_centi_rpm_step: centi_rpm_step(max_acceleration as int) as i64,
                pushed_voltage_limit: None,
            }),
            r.max_centi_rpm_step == max_acceleration,
            runner_wf(r),
    {
        let a = max_acceleration as u64;
        proof {
            assert(a * 10 * 100 == a * 1000);
            lemma_div_by_multiple(a as int, 1000);
        }
        let step = a * (LOOP_TIME_MS as u64) * 100 / 1000;
        RunnerState {
            last_left_centi_rpm: 0,
            last_right_centi_rpm: 0,
            max_centi_rpm_step: step as i64,
            pushed_voltage_limit: None,
        }
    }

    /// The voltage limit (mV) to push to the motors this tick: `Some(limit)`
    /// exactly when it differs from the one pushed last.
    pub fn voltage_limit_update(&mut self, limit: i32) -> (r: Option<i32>)
        ensures
            r == (if old(self).pushed_voltage_limit == Some(limit) {
                None::<i32>
            } else {
                Some(limit)
            }),
            *final(self) == (RunnerState { pushed_voltage_limit: Some(limit), ..*old(self) }),
    {
        let changed = match self.pushed_voltage_limit {
            Some(l) => l != limit,
            None => true,
        };
        self.pushed_voltage_limit = Some(limit);
        if changed {
            Some(limit)
        } else {
            None
        }
    }

    /// Decides one tick: swaps the sides when the odometry is reversed, then
    /// scales a voltage command to `max_voltage` preserving its ratio, or
    /// moves each side's remembered velocity toward an RPM command by at
    /// most one step and commands it cut toward zero to whole RPM. A
    /// finished action (`None`) stops the motors and is marked done.
    pub fn command(&mut self, output: Option<DrivetrainPair>, reverse: bool, max_voltage: i32) -> (r: MotorCommand)
        requires
            runner_wf(*old(self)),
            max_voltage >= 0,
        ensures
            (*final(self), r) == plan(*old(self), output, reverse, max_voltage as int),
            runner_wf(*final(self)),
    {
        match output {
            None => MotorCommand::StopAndFinish,
            Some(p0) => {
                let p = if reverse {
                    p0.reverse()
                } else {
                    p0
                };
                match p.units {
                    DrivetrainUnits::Voltage => {
                        let q = p.max(max_voltage);
                        MotorCommand::Voltage { left: q.left, right: q.right }
                    },
                    DrivetrainUnits::RPM => {
                        let step = self.max_centi_rpm_step;
                        let l = ramp_toward(self.last_left_centi_rpm, p.left as i64 * 100, step);
                        let r = ramp_toward(self.last_right_centi_rpm, p.right as i64 * 100, step);
                        self.last_left_centi_rpm = l;
                        self.last_right_centi_rpm = r;
                        MotorCommand::Velocity { left: to_whole_rpm(l), right: to_whole_rpm(r) }
                    },
                }
            },
        }
    }
}

/// Each tick keeps a voltage command within the voltage limit, moves each
/// side's remembered velocity by at most one step, and commands that
/// velocity cut toward zero to whole RPM.
pub proof fn lemma_command_within_limits(
    s: RunnerState,
    output: Option<DrivetrainPair>,
    reverse: bool,
    max_voltage: int,
)
    requires
        runner_wf(s),
        max_voltage >= 0,
    ensures
        match plan(s, output, reverse, max_voltage).1 {
            MotorCommand::Voltage { left, right } => -max_voltage <= left <= max_voltage
                && -max_voltage <= right <= max_voltage,
            MotorCommand::Velocity { left, right } => {
                let n = plan(s, output, reverse, max_voltage).0;
                &&& s.last_left_centi_rpm - s.max_centi_rpm_step <= n.last_left_centi_rpm
                &&& n.last_left_centi_rpm <= s.last_left_centi_rpm + s.max_centi_rpm_step
                &&& s.last_right_centi_rpm - s.max_centi_rpm_step <= n.last_right_centi_rpm
                &&& n.last_right_centi_rpm <= s.last_right_centi_rpm + s.max_centi_rpm_step
                &&& left == whole_rpm(n.last_left_centi_rpm as int)
                &&& right == whole_rpm(n.last_right_centi_rpm as int)
            },
            MotorCommand::StopAndFinish => output is None,
        },
{
    if let Some(p0) = output {
        let p = if reverse {
            swapped(p0)
        } else {
            p0
        };
        lemma_max_keeps_ratio(p, max_voltage);
        if p.units == DrivetrainUnits::RPM {
            let l = ramp(s.last_left_centi_rpm as int, p.left * 100, s.max_centi_rpm_step as int);
            let r = ramp(s.last_right_centi_rpm as int, p.right * 100, s.max_centi_rpm_step as int);
            assert(MIN_CENTI_RPM <= l <= MAX_CENTI_RPM);
            assert(MIN_CENTI_RPM <= r <= MAX_CENTI_RPM);
        }
    }
}

} // verus!
