use uni_app::native_keycode::{translate_virtual_key, virtual_key_tag, VirtualKeyCode};

fn all_keys() -> Vec<VirtualKeyCode> {
    vec![
        VirtualKeyCode::Key1,
        VirtualKeyCode::Key2,
        VirtualKeyCode::Key3,
        VirtualKeyCode::Key4,
        VirtualKeyCode::Key5,
        VirtualKeyCode::Key6,
        VirtualKeyCode::Key7,
        VirtualKeyCode::Key8,
        VirtualKeyCode::Key9,
        VirtualKeyCode::Key0,
        VirtualKeyCode::A,
        VirtualKeyCode::B,
        VirtualKeyCode::C,
        VirtualKeyCode::D,
        VirtualKeyCode::E,
        VirtualKeyCode::F,
        VirtualKeyCode::G,
        VirtualKeyCode::H,
        VirtualKeyCode::I,
        VirtualKeyCode::J,
        VirtualKeyCode::K,
        VirtualKeyCode::L,
        VirtualKeyCode::M,
        VirtualKeyCode::N,
        VirtualKeyCode::O,
        VirtualKeyCode::P,
        VirtualKeyCode::Q,
        VirtualKeyCode::R,
        VirtualKeyCode::S,
        VirtualKeyCode::T,
        VirtualKeyCode::U,
        VirtualKeyCode::V,
        VirtualKeyCode::W,
        VirtualKeyCode::X,
        VirtualKeyCode::Y,
        VirtualKeyCode::Z,
        VirtualKeyCode::Escape,
        VirtualKeyCode::F1,
        VirtualKeyCode::F2,
        VirtualKeyCode::F3,
        VirtualKeyCode::F4,
        VirtualKeyCode::F5,
        VirtualKeyCode::F6,
        VirtualKeyCode::F7,
        VirtualKeyCode::F8,
        VirtualKeyCode::F9,
        VirtualKeyCode::F10,
        VirtualKeyCode::F11,
        VirtualKeyCode::F12,
        VirtualKeyCode::F13,
        VirtualKeyCode::F14,
        VirtualKeyCode::F15,
        VirtualKeyCode::F16,
        VirtualKeyCode::F17,
        VirtualKeyCode::F18,
        VirtualKeyCode::F19,
        VirtualKeyCode::F20,
        VirtualKeyCode::F21,
        VirtualKeyCode::F22,
        VirtualKeyCode::F23,
        VirtualKeyCode::F24,
        VirtualKeyCode::Snapshot,
        VirtualKeyCode::Scroll,
        VirtualKeyCode::Pause,
        VirtualKeyCode::Insert,
        VirtualKeyCode::Home,
        VirtualKeyCode::Delete,
        VirtualKeyCode::End,
        VirtualKeyCode::PageDown,
        VirtualKeyCode::PageUp,
        VirtualKeyCode::Left,
        VirtualKeyCode::Up,
        VirtualKeyCode::Right,
        VirtualKeyCode::Down,
        VirtualKeyCode::Back,
        VirtualKeyCode::Return,
        VirtualKeyCode::Space,
        VirtualKeyCode::Compose,
        VirtualKeyCode::Caret,
        VirtualKeyCode::Numlock,
        VirtualKeyCode::Numpad0,
        VirtualKeyCode::Numpad1,
        VirtualKeyCode::Numpad2,
        VirtualKeyCode::Numpad3,
        VirtualKeyCode::Numpad4,
        VirtualKeyCode::Numpad5,
        VirtualKeyCode::Numpad6,
        VirtualKeyCode::Numpad7,
        VirtualKeyCode::Numpad8,
        VirtualKeyCode::Numpad9,
        VirtualKeyCode::AbntC1,
        VirtualKeyCode::AbntC2,
        VirtualKeyCode::Add,
        VirtualKeyCode::Apostrophe,
        VirtualKeyCode::Apps,
        VirtualKeyCode::At,
        VirtualKeyCode::Ax,
        VirtualKeyCode::Backslash,
        VirtualKeyCode::Calculator,
        VirtualKeyCode::Capital,
        VirtualKeyCode::Colon,
        VirtualKeyCode::Comma,
        VirtualKeyCode::Convert,
        VirtualKeyCode::Decimal,
        VirtualKeyCode::Divide,
        VirtualKeyCode::Equals,
        VirtualKeyCode::Grave,
        VirtualKeyCode::Kana,
        VirtualKeyCode::Kanji,
        VirtualKeyCode::LAlt,
        VirtualKeyCode::LBracket,
        VirtualKeyCode::LControl,
        VirtualKeyCode::LShift,
        VirtualKeyCode::LWin,
        VirtualKeyCode::Mail,
        VirtualKeyCode::MediaSelect,
        VirtualKeyCode::MediaStop,
        VirtualKeyCode::Minus,
        VirtualKeyCode::Multiply,
        VirtualKeyCode::Mute,
        VirtualKeyCode::MyComputer,
        VirtualKeyCode::NavigateForward,
        VirtualKeyCode::NavigateBackward,
        VirtualKeyCode::NextTrack,
        VirtualKeyCode::NoConvert,
        VirtualKeyCode::NumpadComma,
        VirtualKeyCode::NumpadEnter,
        VirtualKeyCode::NumpadEquals,
        VirtualKeyCode::OEM102,
        VirtualKeyCode::Period,
        VirtualKeyCode::PlayPause,
        VirtualKeyCode::Power,
        VirtualKeyCode::PrevTrack,
        VirtualKeyCode::RAlt,
        VirtualKeyCode::RBracket,
        VirtualKeyCode::RControl,
        VirtualKeyCode::RShift,
        VirtualKeyCode::RWin,
        VirtualKeyCode::Semicolon,
        VirtualKeyCode::Slash,
        VirtualKeyCode::Sleep,
        VirtualKeyCode::Stop,
        VirtualKeyCode::Subtract,
        VirtualKeyCode::Sysrq,
        VirtualKeyCode::Tab,
        VirtualKeyCode::Underline,
        VirtualKeyCode::Unlabeled,
        VirtualKeyCode::VolumeDown,
        VirtualKeyCode::VolumeUp,
        VirtualKeyCode::Wake,
        VirtualKeyCode::WebBack,
        VirtualKeyCode::WebFavorites,
        VirtualKeyCode::WebForward,
        VirtualKeyCode::WebHome,
        VirtualKeyCode::WebRefresh,
        VirtualKeyCode::WebSearch,
        VirtualKeyCode::WebStop,
        VirtualKeyCode::Yen,
        VirtualKeyCode::Copy,
        VirtualKeyCode::Paste,
        VirtualKeyCode::Cut,
    ]
}

#[test]
fn tag_of_every_key_is_its_identifier() {
    let keys = all_keys();
    assert_eq!(keys.len(), 161);
    for key in keys {
        assert_eq!(virtual_key_tag(key), format!("{:?}", key));
    }
}

#[test]
fn tags_are_never_empty_and_never_shared() {
    let keys = all_keys();
    for (i, key) in keys.iter().enumerate() {
        assert!(!virtual_key_tag(*key).is_empty());
        for other in keys.iter().skip(i + 1) {
            assert_ne!(virtual_key_tag(*key), virtual_key_tag(*other));
        }
    }
}

#[test]
fn labels_are_short_texts_of_the_browser_vocabulary() {
    for key in all_keys() {
        let label = translate_virtual_key(key);
        assert!(label.chars().count() <= 18, "label {:?} of {:?}", label, key);
        assert!(!label.contains('\n'));
    }
}
