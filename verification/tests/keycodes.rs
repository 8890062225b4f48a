use uni_app::native_keycode::{translate_scan_code, translate_virtual_key, virtual_key_tag, VirtualKeyCode};

#[test]
fn digits_and_letters_have_their_character_as_label() {
    assert_eq!(translate_virtual_key(VirtualKeyCode::Key1), "1");
    assert_eq!(translate_virtual_key(VirtualKeyCode::Key0), "0");
    assert_eq!(translate_virtual_key(VirtualKeyCode::A), "a");
    assert_eq!(translate_virtual_key(VirtualKeyCode::Z), "z");
}

#[test]
fn named_keys_use_the_browser_vocabulary() {
    assert_eq!(translate_virtual_key(VirtualKeyCode::Escape), "Escape");
    assert_eq!(translate_virtual_key(VirtualKeyCode::Return), "Enter");
    assert_eq!(translate_virtual_key(VirtualKeyCode::Back), "Backspace");
    assert_eq!(translate_virtual_key(VirtualKeyCode::Left), "ArrowLeft");
    assert_eq!(translate_virtual_key(VirtualKeyCode::Up), "ArrowUp");
    assert_eq!(translate_virtual_key(VirtualKeyCode::Space), " ");
    assert_eq!(translate_virtual_key(VirtualKeyCode::F1), "F1");
    assert_eq!(translate_virtual_key(VirtualKeyCode::F24), "F24");
    assert_eq!(translate_virtual_key(VirtualKeyCode::Capital), "CapsLock");
    assert_eq!(translate_virtual_key(VirtualKeyCode::Backslash), "\\");
    assert_eq!(translate_virtual_key(VirtualKeyCode::Yen), "\u{a5}");
}

#[test]
fn left_and_right_modifiers_share_their_key_label() {
    assert_eq!(translate_virtual_key(VirtualKeyCode::LShift), "Shift");
    assert_eq!(translate_virtual_key(VirtualKeyCode::RShift), "Shift");
    assert_eq!(translate_virtual_key(VirtualKeyCode::LControl), "Control");
    assert_eq!(translate_virtual_key(VirtualKeyCode::RControl), "Control");
    assert_eq!(translate_virtual_key(VirtualKeyCode::LAlt), "Alt");
    assert_eq!(translate_virtual_key(VirtualKeyCode::RAlt), "Alt");
    assert_eq!(translate_virtual_key(VirtualKeyCode::LWin), "Meta");
    assert_eq!(translate_virtual_key(VirtualKeyCode::RWin), "Meta");
}

#[test]
fn left_and_right_modifiers_keep_their_own_code_label() {
    assert_eq!(translate_scan_code(0x2A), "ShiftLeft");
    assert_eq!(translate_scan_code(0x36), "ShiftRight");
    assert_eq!(translate_scan_code(0x1D), "ControlLeft");
    assert_eq!(translate_scan_code(0x61), "ControlRight");
    assert_eq!(translate_scan_code(0x38), "AltLeft");
    assert_eq!(translate_scan_code(0x64), "AltRight");
}

#[test]
fn keys_without_label_are_named_by_the_empty_string() {
    assert_eq!(translate_virtual_key(VirtualKeyCode::Unlabeled), "");
    assert_eq!(translate_virtual_key(VirtualKeyCode::AbntC1), "");
    assert_eq!(translate_virtual_key(VirtualKeyCode::Sysrq), "");
}

#[test]
fn every_key_has_its_own_name_as_tag() {
    assert_eq!(virtual_key_tag(VirtualKeyCode::Unlabeled), "Unlabeled");
    assert_eq!(virtual_key_tag(VirtualKeyCode::AbntC1), "AbntC1");
    assert_eq!(virtual_key_tag(VirtualKeyCode::Key7), "Key7");
    assert_eq!(virtual_key_tag(VirtualKeyCode::Return), "Return");
    assert_eq!(format!("{:?}", VirtualKeyCode::NavigateForward), virtual_key_tag(VirtualKeyCode::NavigateForward));
    assert_eq!(format!("{:?}", VirtualKeyCode::OEM102), virtual_key_tag(VirtualKeyCode::OEM102));
}

#[test]
fn scan_codes_of_the_main_block_name_their_position() {
    assert_eq!(translate_scan_code(0x01), "Escape");
    assert_eq!(translate_scan_code(0x02), "Digit1");
    assert_eq!(translate_scan_code(0x0B), "Digit0");
    assert_eq!(translate_scan_code(0x10), "KeyQ");
    assert_eq!(translate_scan_code(0x1E), "KeyA");
    assert_eq!(translate_scan_code(0x2C), "KeyZ");
    assert_eq!(translate_scan_code(0x32), "KeyM");
    assert_eq!(translate_scan_code(0x39), "Space");
    assert_eq!(translate_scan_code(0x3B), "F1");
    assert_eq!(translate_scan_code(0x44), "F10");
    assert_eq!(translate_scan_code(0x57), "F11");
    assert_eq!(translate_scan_code(0x58), "F12");
}

#[test]
fn scan_codes_of_the_navigation_block_name_their_position() {
    assert_eq!(translate_scan_code(0x67), "ArrowUp");
    assert_eq!(translate_scan_code(0x6C), "ArrowDown");
    assert_eq!(translate_scan_code(0x69), "ArrowLeft");
    assert_eq!(translate_scan_code(0x6A), "ArrowRight");
    assert_eq!(translate_scan_code(0x66), "Home");
    assert_eq!(translate_scan_code(0x6F), "Delete");
}

#[test]
fn unknown_scan_codes_are_named_by_the_empty_string() {
    assert_eq!(translate_scan_code(0), "");
    assert_eq!(translate_scan_code(0x54), "");
    assert_eq!(translate_scan_code(0x80), "");
    assert_eq!(translate_scan_code(u32::MAX), "");
}
