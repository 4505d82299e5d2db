//! Controller key tracking and the odometry input rules.

use tello::odometry::{clamp_distance, clamp_rotation};
use tello::{ControllerState, Key};

#[test]
fn new_controller_has_no_key_down() {
    let c = ControllerState::new();
    assert!(!c.a_down && !c.d_down && !c.w_down && !c.s_down);
    assert!(!c.up_down && !c.down_down && !c.left_down && !c.right_down);
}

#[test]
fn pressing_a_key_releases_its_opposing_key() {
    let mut c = ControllerState::new();
    c.key_down(Key::A);
    assert!(c.a_down && !c.d_down);
    c.key_down(Key::D);
    assert!(!c.a_down && c.d_down);
    c.key_down(Key::W);
    c.key_down(Key::S);
    assert!(!c.w_down && c.s_down);
    c.key_down(Key::Up);
    c.key_down(Key::Down);
    assert!(!c.up_down && c.down_down);
    c.key_down(Key::Left);
    c.key_down(Key::Right);
    assert!(!c.left_down && c.right_down);
}

#[test]
fn releasing_a_key_leaves_the_others_alone() {
    let mut c = ControllerState::new();
    c.key_down(Key::A);
    c.key_down(Key::W);
    c.key_up(Key::A);
    assert!(!c.a_down);
    assert!(c.w_down);
    c.key_up(Key::W);
    assert!(!c.w_down);
}

#[test]
fn distances_clamp_to_the_accepted_command_range() {
    assert_eq!(clamp_distance(0), 20);
    assert_eq!(clamp_distance(19), 20);
    assert_eq!(clamp_distance(20), 20);
    assert_eq!(clamp_distance(100), 100);
    assert_eq!(clamp_distance(500), 500);
    assert_eq!(clamp_distance(501), 500);
}

#[test]
fn rotations_clamp_to_ten_full_turns() {
    assert_eq!(clamp_rotation(0), 1);
    assert_eq!(clamp_rotation(1), 1);
    assert_eq!(clamp_rotation(90), 90);
    assert_eq!(clamp_rotation(3600), 3600);
    assert_eq!(clamp_rotation(9999), 3600);
}
