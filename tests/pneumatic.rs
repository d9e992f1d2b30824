use robot_motion::pneumatic::{
    extended_level, is_extended, is_retracted, retracted_level, toggled, Level,
    MirroredPneumaticSubsystem, MirroredState,
};

#[test]
fn levels_follow_wiring() {
    assert_eq!(extended_level(false), Level::High);
    assert_eq!(retracted_level(false), Level::Low);
    assert_eq!(extended_level(true), Level::Low);
    assert_eq!(retracted_level(true), Level::High);
    assert_eq!(toggled(Level::Low), Level::High);
    assert_eq!(toggled(Level::High), Level::Low);
}

#[test]
fn reading_levels() {
    assert!(is_extended(Some(Level::High), false));
    assert!(!is_retracted(Some(Level::High), false));
    assert!(is_extended(Some(Level::Low), true));
    assert!(is_retracted(Some(Level::High), true));
    assert!(!is_extended(None, false));
    assert!(!is_retracted(None, false));
}

#[test]
fn mirrored_sides() {
    let mut m = MirroredPneumaticSubsystem::new("left", "right", MirroredState::Normal);
    assert_eq!(*m.dominant(), "right");
    assert_eq!(*m.non_dominant(), "left");
    m.set_mirrored_state(MirroredState::Mirrored);
    assert_eq!(m.mirrored_state(), MirroredState::Mirrored);
    assert_eq!(*m.dominant(), "left");
    assert_eq!(*m.non_dominant(), "right");
    *m.dominant() = "changed";
    assert_eq!(m.left, "changed");
    assert_eq!(m.right, "right");
}
