use grantcore::can::{Can, CanOperatingMode};

#[test]
fn reset_state_is_initialization_with_clock_gated() {
    let can = Can::new();
    assert_eq!(can.operating_mode(), CanOperatingMode::Initialization);
    assert!(!can.is_enabled_clock());
}

#[test]
fn clock_gate_opens_and_closes() {
    let mut can = Can::new();
    can.enable_clock();
    assert!(can.is_enabled_clock());
    can.disable_clock();
    assert!(!can.is_enabled_clock());
}

#[test]
fn clock_gating_leaves_the_operating_mode_alone() {
    let mut can = Can::new();
    can.enable_clock();
    can.enable();
    assert_eq!(can.operating_mode(), CanOperatingMode::Initialization);
}
