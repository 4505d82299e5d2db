//! Remote-control axis state and stick packing.

use tello::rc_state::{axis_to_stick, pack_axes};
use tello::RCState;

#[test]
fn axis_packing_centre_and_extremes() {
    assert_eq!(axis_to_stick(0), 1024);
    assert_eq!(axis_to_stick(1000), 1024 + 660);
    assert_eq!(axis_to_stick(-1000), 1024 - 660);
    assert_eq!(axis_to_stick(500), 1354);
}

#[test]
fn packing_zero_fields_gives_zero() {
    assert_eq!(pack_axes(0, 0, 0, 0, false), 0);
}

#[test]
fn packing_lays_out_the_five_fields() {
    let packed = pack_axes(1684, 1684, 1684, 1684, true);
    assert_eq!(packed, 0x1d29a534a694);
    let centre = pack_axes(1024, 1024, 1024, 1024, false);
    assert_eq!(centre, 0x80100200400);
    // roll occupies the low bits; the fast flag is bit 44
    assert_eq!(pack_axes(1, 0, 0, 0, false), 1);
    assert_eq!(pack_axes(0, 0, 0, 0, true), 1u64 << 44);
    // fields are masked to 11 bits
    assert_eq!(pack_axes(0x800, 0, 0, 0, false), 0);
}

#[test]
fn direction_keys_snap_opposing_deflection_to_centre_first() {
    let mut rc = RCState::default();
    rc.go_left();
    assert_eq!(rc.left_right, -1000);
    // opposing input first recentres
    rc.go_right();
    assert_eq!(rc.left_right, 0);
    rc.go_right();
    assert_eq!(rc.left_right, 1000);
    rc.stop_left_right();
    assert_eq!(rc.left_right, 0);

    rc.go_forward();
    assert_eq!(rc.forward_back, 1000);
    rc.go_back();
    assert_eq!(rc.forward_back, 0);
    rc.go_back();
    assert_eq!(rc.forward_back, -1000);

    rc.go_up();
    assert_eq!(rc.up_down, 1000);
    rc.go_down();
    assert_eq!(rc.up_down, 0);

    rc.go_cw();
    assert_eq!(rc.turn, 1000);
    rc.go_ccw();
    assert_eq!(rc.turn, 0);
    rc.go_ccw();
    assert_eq!(rc.turn, -1000);
}

#[test]
fn analog_setters_store_the_given_value() {
    let mut rc = RCState::default();
    rc.go_left_right(-700);
    rc.go_forward_back(250);
    rc.go_up_down(999);
    rc.turn(-1);
    assert_eq!(rc.left_right, -700);
    assert_eq!(rc.forward_back, 250);
    assert_eq!(rc.up_down, 999);
    assert_eq!(rc.turn, -1);
}

#[test]
fn stick_parameters_report_the_axes_with_fast_set() {
    let mut rc = RCState::default();
    rc.go_left_right(-700);
    rc.go_forward_back(250);
    rc.go_up_down(999);
    rc.turn(-1);
    let (pitch, nick, roll, yaw, fast) = rc.get_stick_parameter(0);
    assert_eq!((pitch, nick, roll, yaw), (999, 250, -700, -1));
    assert!(fast);
}

#[test]
fn engine_pulse_overrides_axes_for_350ms_then_expires() {
    let mut rc = RCState::default();
    rc.go_left_right(500);
    rc.start_engines(100);
    // within the window: the fixed combination
    assert_eq!(rc.get_stick_parameter(200), (-1000, -1000, -1000, 1000, true));
    assert_eq!(rc.get_stick_parameter(450), (-1000, -1000, -1000, 1000, true));
    // the read that notices the expiry still reports the combination
    assert_eq!(rc.get_stick_parameter(451), (-1000, -1000, -1000, 1000, true));
    // the next read reports the axes again
    assert_eq!(rc.get_stick_parameter(452), (0, 0, 500, 0, true));
}

#[test]
fn engine_pulse_disarms_when_the_clock_goes_backwards() {
    let mut rc = RCState::default();
    rc.start_engines(1000);
    assert_eq!(rc.get_stick_parameter(999), (-1000, -1000, -1000, 1000, true));
    assert_eq!(rc.get_stick_parameter(1000), (0, 0, 0, 0, true));
}
