use robot_motion::drivetrain_pair::{DrivetrainPair, DrivetrainUnits};
use robot_motion::runner::{
    ramp_toward, to_whole_rpm, MotorCommand, RunnerState, LOOP_TIME_MS, MAX_CENTI_RPM, MIN_CENTI_RPM,
};

#[test]
fn step_from_acceleration_limit() {
    assert_eq!(LOOP_TIME_MS, 10);
    assert_eq!(RunnerState::new(2000).max_centi_rpm_step, 2000);
    assert_eq!(RunnerState::new(150).max_centi_rpm_step, 150);
    assert_eq!(RunnerState::new(99).max_centi_rpm_step, 99);
    let s = RunnerState::new(0);
    assert_eq!((s.last_left_centi_rpm, s.last_right_centi_rpm, s.pushed_voltage_limit), (0, 0, None));
}

#[test]
fn ramp_clamps_to_step() {
    assert_eq!(ramp_toward(0, 10000, 2000), 2000);
    assert_eq!(ramp_toward(0, -10000, 2000), -2000);
    assert_eq!(ramp_toward(5000, 6000, 2000), 6000);
    assert_eq!(ramp_toward(5000, 5000, 0), 5000);
    assert_eq!(ramp_toward(MIN_CENTI_RPM, MAX_CENTI_RPM, 5), MIN_CENTI_RPM + 5);
}

#[test]
fn whole_rpm_cuts_toward_zero() {
    assert_eq!(to_whole_rpm(150), 1);
    assert_eq!(to_whole_rpm(-150), -1);
    assert_eq!(to_whole_rpm(99), 0);
    assert_eq!(to_whole_rpm(MAX_CENTI_RPM), i32::MAX);
    assert_eq!(to_whole_rpm(MIN_CENTI_RPM), i32::MIN);
}

#[test]
fn fractional_steps_add_up() {
    // 150 RPM/s over 10 ms ticks is 1.5 RPM per tick.
    let mut s = RunnerState::new(150);
    let target = Some(DrivetrainPair::new_rpm(100, -100));
    assert_eq!(s.command(target, false, 12000), MotorCommand::Velocity { left: 1, right: -1 });
    assert_eq!(s.command(target, false, 12000), MotorCommand::Velocity { left: 3, right: -3 });
    assert_eq!(s.command(target, false, 12000), MotorCommand::Velocity { left: 4, right: -4 });
    assert_eq!((s.last_left_centi_rpm, s.last_right_centi_rpm), (450, -450));
}

#[test]
fn slow_acceleration_still_moves() {
    let mut s = RunnerState::new(50);
    let target = Some(DrivetrainPair::new_rpm(10, 10));
    let mut last = MotorCommand::StopAndFinish;
    for _ in 0..4 {
        last = s.command(target, false, 12000);
    }
    assert_eq!(last, MotorCommand::Velocity { left: 2, right: 2 });
    for _ in 0..100 {
        last = s.command(target, false, 12000);
    }
    assert_eq!(last, MotorCommand::Velocity { left: 10, right: 10 });
}

#[test]
fn rpm_commands_are_ramped_and_remembered() {
    let mut s = RunnerState::new(2000);
    let c = s.command(Some(DrivetrainPair::new_rpm(100, -5)), false, 12000);
    assert_eq!(c, MotorCommand::Velocity { left: 20, right: -5 });
    let c = s.command(Some(DrivetrainPair::new_rpm(100, -5)), false, 12000);
    assert_eq!(c, MotorCommand::Velocity { left: 40, right: -5 });
    assert_eq!((s.last_left_centi_rpm, s.last_right_centi_rpm), (4000, -500));
}

#[test]
fn reverse_swaps_before_ramping() {
    let mut s = RunnerState::new(2000);
    let c = s.command(Some(DrivetrainPair::new_rpm(100, -5)), true, 12000);
    assert_eq!(c, MotorCommand::Velocity { left: -5, right: 20 });
}

#[test]
fn voltage_commands_are_limited() {
    let mut s = RunnerState::new(2000);
    let p = DrivetrainPair { left: 24000, right: 6000, units: DrivetrainUnits::Voltage };
    assert_eq!(s.command(Some(p), false, 12000), MotorCommand::Voltage { left: 12000, right: 3000 });
    assert_eq!(s.command(Some(p), true, 12000), MotorCommand::Voltage { left: 3000, right: 12000 });
    assert_eq!((s.last_left_centi_rpm, s.last_right_centi_rpm), (0, 0));
}

#[test]
fn finished_action_stops_motors() {
    let mut s = RunnerState::new(2000);
    s.command(Some(DrivetrainPair::new_rpm(10, 10)), false, 12000);
    let before = s;
    assert_eq!(s.command(None, true, 12000), MotorCommand::StopAndFinish);
    assert_eq!(s, before);
}

#[test]
fn voltage_limit_pushed_only_on_change() {
    let mut s = RunnerState::new(0);
    assert_eq!(s.voltage_limit_update(12000), Some(12000));
    assert_eq!(s.voltage_limit_update(12000), None);
    assert_eq!(s.voltage_limit_update(8000), Some(8000));
    assert_eq!(s.pushed_voltage_limit, Some(8000));
}
