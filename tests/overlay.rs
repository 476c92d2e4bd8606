use key2joy_rebinder::config::Config;
use key2joy_rebinder::gamepad::{GamepadInput, Vec2, XInputGamepad};
use key2joy_rebinder::overlay::{inject_keyboard_input, mapping_is_well_formed, overlay, KeySnapshot};

const VK_SPACE: i32 = 0x20;
const VK_W: i32 = 0x57;
const VK_A: i32 = 0x41;
const VK_S: i32 = 0x53;
const VK_D: i32 = 0x44;

fn hardware() -> XInputGamepad {
    XInputGamepad {
        w_buttons: 0x0003,
        b_left_trigger: 10,
        b_right_trigger: 20,
        s_thumb_lx: 100,
        s_thumb_ly: -200,
        s_thumb_rx: 300,
        s_thumb_ry: -400,
    }
}

fn snapshot(keys: &[i32]) -> KeySnapshot {
    KeySnapshot { pressed_keys: keys.to_vec() }
}

#[test]
fn snapshot_lookup() {
    let s = snapshot(&[VK_W, VK_A]);
    assert!(s.is_pressed(VK_W));
    assert!(s.is_pressed(VK_A));
    assert!(!s.is_pressed(VK_S));
}

#[test]
fn stick_up_pressed_gives_full_up() {
    let mapping = vec![
        (GamepadInput::LeftStick(Vec2::new(0, 1)), VK_W),
        (GamepadInput::LeftStick(Vec2::new(-1, 0)), VK_A),
    ];
    let out = overlay(&hardware(), &snapshot(&[VK_W]), &mapping);
    assert_eq!((out.s_thumb_lx, out.s_thumb_ly), (0, 32767));
    assert_eq!((out.s_thumb_rx, out.s_thumb_ry), (300, -400));
}

#[test]
fn button_is_or_ed_into_hardware_buttons() {
    let mapping = vec![(GamepadInput::Button(0x1000), VK_SPACE)];
    let hw = hardware();
    let out = overlay(&hw, &snapshot(&[VK_SPACE]), &mapping);
    assert_eq!(out.w_buttons, hw.w_buttons | 0x1000);
    assert_eq!(out.w_buttons, 0x1003);
}

#[test]
fn hardware_buttons_are_never_cleared() {
    let mapping = vec![(GamepadInput::Button(0x0001), VK_SPACE)];
    let mut hw = hardware();
    hw.w_buttons = 0xF00F;
    let out = overlay(&hw, &snapshot(&[]), &mapping);
    assert_eq!(out.w_buttons, 0xF00F);
    let out = overlay(&hw, &snapshot(&[VK_SPACE]), &mapping);
    assert_eq!(out.w_buttons & hw.w_buttons, hw.w_buttons);
}

#[test]
fn trigger_passes_through_unless_pressed() {
    let mapping = vec![
        (GamepadInput::LeftTrigger, VK_S),
        (GamepadInput::RightTrigger, VK_D),
    ];
    let out = overlay(&hardware(), &snapshot(&[VK_W]), &mapping);
    assert_eq!((out.b_left_trigger, out.b_right_trigger), (10, 20));
    let out = overlay(&hardware(), &snapshot(&[VK_S]), &mapping);
    assert_eq!((out.b_left_trigger, out.b_right_trigger), (255, 20));
    let out = overlay(&hardware(), &snapshot(&[VK_S, VK_D]), &mapping);
    assert_eq!((out.b_left_trigger, out.b_right_trigger), (255, 255));
}

#[test]
fn opposing_directions_pass_hardware_axes_through() {
    let mapping = vec![
        (GamepadInput::LeftStick(Vec2::new(0, 1)), VK_W),
        (GamepadInput::LeftStick(Vec2::new(0, -1)), VK_S),
    ];
    let out = overlay(&hardware(), &snapshot(&[VK_W, VK_S]), &mapping);
    assert_eq!((out.s_thumb_lx, out.s_thumb_ly), (100, -200));
}

#[test]
fn single_direction_is_full_deflection() {
    let mapping = vec![
        (GamepadInput::RightStick(Vec2::new(1, 0)), VK_D),
        (GamepadInput::RightStick(Vec2::new(0, -1)), VK_S),
    ];
    let out = overlay(&hardware(), &snapshot(&[VK_D]), &mapping);
    assert_eq!((out.s_thumb_rx, out.s_thumb_ry), (32767, 0));
    let out = overlay(&hardware(), &snapshot(&[VK_S]), &mapping);
    assert_eq!((out.s_thumb_rx, out.s_thumb_ry), (0, -32767));
}

#[test]
fn diagonal_is_normalized() {
    let mapping = vec![
        (GamepadInput::LeftStick(Vec2::new(0, 1)), VK_W),
        (GamepadInput::LeftStick(Vec2::new(-1, 0)), VK_A),
    ];
    let out = overlay(&hardware(), &snapshot(&[VK_W, VK_A]), &mapping);
    assert_eq!((out.s_thumb_lx, out.s_thumb_ly), (-23169, 23169));
}

#[test]
fn nothing_pressed_leaves_state_unchanged() {
    let mapping = vec![
        (GamepadInput::Button(0x1000), VK_SPACE),
        (GamepadInput::LeftTrigger, VK_S),
        (GamepadInput::LeftStick(Vec2::new(0, 1)), VK_W),
    ];
    let out = overlay(&hardware(), &snapshot(&[]), &mapping);
    assert_eq!(out, hardware());
}

#[test]
fn vector_normalization() {
    assert_eq!(Vec2::new(1, 1).normalize(), Vec2::new(23169, 23169));
    assert_eq!(Vec2::new(0, 1).normalize(), Vec2::new(0, 32767));
    assert_eq!(Vec2::new(-1, 0).normalize(), Vec2::new(-32767, 0));
    assert_eq!(Vec2::new(3, -4).normalize(), Vec2::new(19660, -26213));
    assert_eq!(Vec2::new(0, -5).normalize(), Vec2::new(0, -32767));
}

#[test]
fn vector_accumulation() {
    let mut v = Vec2::new(0, 0);
    v.add_assign(&Vec2::new(0, 1));
    v.add_assign(&Vec2::new(-1, 0));
    assert_eq!(v, Vec2::new(-1, 1));
    v.add_assign(&Vec2::new(1, -1));
    assert_eq!(v, Vec2::new(0, 0));
}

#[test]
fn only_first_controller_is_overlaid() {
    let config = Config::from_file("A=VK_SPACE\nLEFT_TRIGGER=VK_SHIFT".to_string());
    let keys = snapshot(&[VK_SPACE, 0x10]);
    let mut first = hardware();
    inject_keyboard_input(0, &mut first, &keys, &config);
    assert_eq!(first.w_buttons, 0x1003);
    assert_eq!(first.b_left_trigger, 255);
    let mut second = hardware();
    inject_keyboard_input(1, &mut second, &keys, &config);
    assert_eq!(second, hardware());
}

#[test]
fn well_formed_mappings() {
    assert!(mapping_is_well_formed(&vec![(GamepadInput::LeftStick(Vec2::new(1, -1)), VK_W)]));
    assert!(!mapping_is_well_formed(&vec![(GamepadInput::RightStick(Vec2::new(2, 0)), VK_W)]));
    assert!(mapping_is_well_formed(&vec![]));
}
