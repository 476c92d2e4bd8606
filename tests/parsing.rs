use key2joy_rebinder::config::Config;
use key2joy_rebinder::gamepad::{GamepadInput, Vec2};
use key2joy_rebinder::keys::{get_virtual_keycode, key_pressed, same_text};

#[test]
fn keycode_of_named_keys() {
    assert_eq!(get_virtual_keycode("VK_SPACE"), Some(0x20));
    assert_eq!(get_virtual_keycode("VK_RETURN"), Some(0x0D));
    assert_eq!(get_virtual_keycode("VK_LBUTTON"), Some(0x01));
    assert_eq!(get_virtual_keycode("VK_RMENU"), Some(0xA5));
    assert_eq!(get_virtual_keycode("VK_F24"), Some(0x87));
    assert_eq!(get_virtual_keycode("VK_HANGUL"), Some(0x15));
}

#[test]
fn keycode_of_letters_and_digits() {
    assert_eq!(get_virtual_keycode("A"), Some(0x41));
    assert_eq!(get_virtual_keycode("W"), Some(0x57));
    assert_eq!(get_virtual_keycode("Z"), Some(0x5A));
    assert_eq!(get_virtual_keycode("0"), Some(0x30));
    assert_eq!(get_virtual_keycode("9"), Some(0x39));
}

#[test]
fn keycode_of_unknown_names() {
    assert_eq!(get_virtual_keycode("vk_space"), None);
    assert_eq!(get_virtual_keycode(""), None);
    assert_eq!(get_virtual_keycode("VK_SPACEBAR"), None);
    assert_eq!(get_virtual_keycode("AA"), None);
}

#[test]
fn key_state_high_bit() {
    assert_eq!(key_pressed(-32768), 1);
    assert_eq!(key_pressed(-127), 1);
    assert_eq!(key_pressed(1), 0);
    assert_eq!(key_pressed(0), 0);
}

#[test]
fn text_comparison() {
    assert!(same_text("abc", "abc"));
    assert!(!same_text("abc", "abd"));
    assert!(!same_text("abc", "ab"));
    assert!(same_text("", ""));
}

#[test]
fn gamepad_input_names() {
    assert_eq!(GamepadInput::from_str("A"), Ok(GamepadInput::Button(0x1000)));
    assert_eq!(GamepadInput::from_str("DPAD_UP"), Ok(GamepadInput::Button(0x0001)));
    assert_eq!(GamepadInput::from_str("RIGHT_SHOULDER"), Ok(GamepadInput::Button(0x0200)));
    assert_eq!(GamepadInput::from_str("LEFT_TRIGGER"), Ok(GamepadInput::LeftTrigger));
    assert_eq!(GamepadInput::from_str("RIGHT_TRIGGER"), Ok(GamepadInput::RightTrigger));
    assert_eq!(
        GamepadInput::from_str("LEFT_STICK_UP"),
        Ok(GamepadInput::LeftStick(Vec2::new(0, 1)))
    );
    assert_eq!(
        GamepadInput::from_str("RIGHT_STICK_LEFT"),
        Ok(GamepadInput::RightStick(Vec2::new(-1, 0)))
    );
    assert_eq!(GamepadInput::from_str("a"), Err(()));
    assert_eq!(GamepadInput::from_str("ENABLE_CONSOLE"), Err(()));
}

#[test]
fn later_line_for_same_key_wins() {
    let config = Config::from_file("A=VK_SPACE\nA=VK_RETURN".to_string());
    assert_eq!(
        config.keys_to_gamepad_map,
        vec![(GamepadInput::Button(0x1000), 0x0D)]
    );
}

#[test]
fn keys_and_values_are_trimmed_and_upper_cased() {
    let config = Config::from_file("  a = vk_space \r\nleft_stick_up=w\n".to_string());
    assert_eq!(
        config.keys_to_gamepad_map,
        vec![
            (GamepadInput::Button(0x1000), 0x20),
            (GamepadInput::LeftStick(Vec2::new(0, 1)), 0x57),
        ]
    );
}

#[test]
fn unknown_keys_values_and_malformed_lines_are_dropped() {
    let text = "FOO=VK_SPACE\nB=NOT_A_KEY\nX=VK_TAB=1\nY\n\nLEFT_TRIGGER=VK_SHIFT";
    let config = Config::from_file(text.to_string());
    assert_eq!(config.keys_to_gamepad_map, vec![(GamepadInput::LeftTrigger, 0x10)]);
}

#[test]
fn console_flag_values() {
    assert!(Config::from_file("A=VK_SPACE".to_string()).enable_console);
    assert!(Config::from_file("ENABLE_CONSOLE=true".to_string()).enable_console);
    assert!(Config::from_file("enable_console = 1".to_string()).enable_console);
    assert!(!Config::from_file("ENABLE_CONSOLE=FALSE".to_string()).enable_console);
    assert!(!Config::from_file("ENABLE_CONSOLE=0".to_string()).enable_console);
    assert!(!Config::from_file("ENABLE_CONSOLE=1\nENABLE_CONSOLE=no".to_string()).enable_console);
}

#[test]
fn console_key_is_not_a_mapping() {
    let config = Config::from_file("ENABLE_CONSOLE=A".to_string());
    assert!(config.keys_to_gamepad_map.is_empty());
    assert!(!config.enable_console);
}

#[test]
fn empty_text_gives_empty_mapping() {
    let config = Config::from_file(String::new());
    assert!(config.keys_to_gamepad_map.is_empty());
    assert!(config.enable_console);
}
