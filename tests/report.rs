use robot_motion::report::{DisconnectRegistry, PortFault, UnwrapExpectReportExt};
use robot_motion::tracking::{TrackingWheelError, TrackingWheelMountingDirection};

#[test]
fn option_passes_through() {
    assert_eq!(Some(3).unwrap_report(), Some(3));
    assert_eq!(None::<u8>.expect_report("reading"), None);
}

#[test]
fn disconnect_becomes_none() {
    let ok: Result<i32, PortFault> = Ok(7);
    assert_eq!(ok.unwrap_report(), Some(7));
    let err: Result<i32, PortFault> = Err(PortFault::Disconnected { port: 4 });
    assert_eq!(err.expect_report("left drive"), None);
}

#[test]
fn disconnect_reported_once_per_port() {
    let mut reg = DisconnectRegistry::new();
    assert!(!reg.has_reported(4));
    assert!(reg.note_disconnect(4));
    assert!(!reg.note_disconnect(4));
    assert!(reg.note_disconnect(5));
    assert!(reg.has_reported(4) && reg.has_reported(5));
    assert!(!reg.has_reported(6));
}

#[test]
fn group_faults_logged_once_per_port_in_order() {
    let mut reg = DisconnectRegistry::new();
    assert!(reg.note_disconnect(3));
    let faults = vec![
        PortFault::Disconnected { port: 7 },
        PortFault::Disconnected { port: 3 },
        PortFault::Disconnected { port: 1 },
        PortFault::Disconnected { port: 7 },
    ];
    assert_eq!(reg.note_faults(&faults), vec![7, 1]);
    assert!(reg.has_reported(1) && reg.has_reported(7));
    assert_eq!(reg.note_faults(&faults), Vec::<u8>::new());
    assert_eq!(reg.note_faults(&Vec::new()), Vec::<u8>::new());
}

#[test]
fn tracking_wheel_descriptions() {
    let d = TrackingWheelMountingDirection::Perpendicular;
    assert_ne!(d, TrackingWheelMountingDirection::Parallel);
    let TrackingWheelError::Sensor { source } = TrackingWheelError::Sensor { source: 3u8 };
    assert_eq!(source, 3);
}
