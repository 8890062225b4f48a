//! The two tables that name a key of the native host in the vocabulary of
//! the browser.
//!
//! A key event of the native host carries a virtual key, which says what the
//! key means under the current layout, and a scan code, which says where the
//! key sits on the keyboard. A browser reports the same two things as
//! ready-made strings, `key` and `code`. The tables here give each native
//! identifier the string a browser reports for the same key, so that an
//! application reads the same labels on both hosts. Both tables are total:
//! an identifier they do not know is named by the empty string.
//!
//! Where several keys share one meaning, such as the two shift keys, the
//! `key` label is shared as well, as it is in a browser; the `code` label
//! still tells them apart.

use vstd::prelude::*;

verus! {

/// The meaning of a key under the current layout, as the native host
/// reports it.
#[derive(Clone, Copy, Debug, PartialEq, Eq, Structural)]
pub enum VirtualKeyCode {
    Key1,
    Key2,
    Key3,
    Key4,
    Key5,
    Key6,
    Key7,
    Key8,
    Key9,
    Key0,
    A,
    B,
    C,
    D,
    E,
    F,
    G,
    H,
    I,
    J,
    K,
    L,
    M,
    N,
    O,
    P,
    Q,
    R,
    S,
    T,
    U,
    V,
    W,
    X,
    Y,
    Z,
    Escape,
    F1,
    F2,
    F3,
    F4,
    F5,
    F6,
    F7,
    F8,
    F9,
    F10,
    F11,
    F12,
    F13,
    F14,
    F15,
    F16,
    F17,
    F18,
    F19,
    F20,
    F21,
    F22,
    F23,
    F24,
    Snapshot,
    Scroll,
    Pause,
    Insert,
    Home,
    Delete,
    End,
    PageDown,
    PageUp,
    Left,
    Up,
    Right,
    Down,
    Back,
    Return,
    Space,
    Compose,
    Caret,
    Numlock,
    Numpad0,
    Numpad1,
    Numpad2,
    Numpad3,
    Numpad4,
    Numpad5,
    Numpad6,
    Numpad7,
    Numpad8,
    Numpad9,
    AbntC1,
    AbntC2,
    Add,
    Apostrophe,
    Apps,
    At,
    Ax,
    Backslash,
    Calculator,
    Capital,
    Colon,
    Comma,
    Convert,
    Decimal,
    Divide,
    Equals,
    Grave,
    Kana,
    Kanji,
    LAlt,
    LBracket,
    LControl,
    LShift,
    LWin,
    Mail,
    MediaSelect,
    MediaStop,
    Minus,
    Multiply,
    Mute,
    MyComputer,
    NavigateForward,
    NavigateBackward,
    NextTrack,
    NoConvert,
    NumpadComma,
    NumpadEnter,
    NumpadEquals,
    OEM102,
    Period,
    PlayPause,
    Power,
    PrevTrack,
    RAlt,
    RBracket,
    RControl,
    RShift,
    RWin,
    Semicolon,
    Slash,
    Sleep,
    Stop,
    Subtract,
    Sysrq,
    Tab,
    Underline,
    Unlabeled,
    VolumeDown,
    VolumeUp,
    Wake,
    WebBack,
    WebFavorites,
    WebForward,
    WebHome,
    WebRefresh,
    WebSearch,
    WebStop,
    Yen,
    Copy,
    Paste,
    Cut,
}

/// The place of a key on the keyboard, as the native host reports it.
pub type ScanCode = u32;

/// The `key` label of a virtual key; empty if the table has none for it.
pub open spec fn key_label(key: VirtualKeyCode) -> Seq<char> {
    match key {
        VirtualKeyCode::Key1 => "1"@,
        VirtualKeyCode::Key2 => "2"@,
        VirtualKeyCode::Key3 => "3"@,
        VirtualKeyCode::Key4 => "4"@,
        VirtualKeyCode::Key5 => "5"@,
        VirtualKeyCode::Key6 => "6"@,
        VirtualKeyCode::Key7 => "7"@,
        VirtualKeyCode::Key8 => "8"@,
        VirtualKeyCode::Key9 => "9"@,
        VirtualKeyCode::Key0 => "0"@,
        VirtualKeyCode::A => "a"@,
        VirtualKeyCode::B => "b"@,
        VirtualKeyCode::C => "c"@,
        VirtualKeyCode::D => "d"@,
        VirtualKeyCode::E => "e"@,
        VirtualKeyCode::F => "f"@,
        VirtualKeyCode::G => "g"@,
        VirtualKeyCode::H => "h"@,
        VirtualKeyCode::I => "i"@,
        VirtualKeyCode::J => "j"@,
        VirtualKeyCode::K => "k"@,
        VirtualKeyCode::L => "l"@,
        VirtualKeyCode::M => "m"@,
        VirtualKeyCode::N => "n"@,
        VirtualKeyCode::O => "o"@,
        VirtualKeyCode::P => "p"@,
        VirtualKeyCode::Q => "q"@,
        VirtualKeyCode::R => "r"@,
        VirtualKeyCode::S => "s"@,
        VirtualKeyCode::T => "t"@,
        VirtualKeyCode::U => "u"@,
        VirtualKeyCode::V => "v"@,
        VirtualKeyCode::W => "w"@,
        VirtualKeyCode::X => "x"@,
        VirtualKeyCode::Y => "y"@,
        VirtualKeyCode::Z => "z"@,
        VirtualKeyCode::Escape => "Escape"@,
        VirtualKeyCode::F1 => "F1"@,
        VirtualKeyCode::F2 => "F2"@,
        VirtualKeyCode::F3 => "F3"@,
        VirtualKeyCode::F4 => "F4"@,
        VirtualKeyCode::F5 => "F5"@,
        VirtualKeyCode::F6 => "F6"@,
        VirtualKeyCode::F7 => "F7"@,
        VirtualKeyCode::F8 => "F8"@,
        VirtualKeyCode::F9 => "F9"@,
        VirtualKeyCode::F10 => "F10"@,
        VirtualKeyCode::F11 => "F11"@,
        VirtualKeyCode::F12 => "F12"@,
        VirtualKeyCode::F13 => "F13"@,
        VirtualKeyCode::F14 => "F14"@,
        VirtualKeyCode::F15 => "F15"@,
        VirtualKeyCode::F16 => "F16"@,
        VirtualKeyCode::F17 => "F17"@,
        VirtualKeyCode::F18 => "F18"@,
        VirtualKeyCode::F19 => "F19"@,
        VirtualKeyCode::F20 => "F20"@,
        VirtualKeyCode::F21 => "F21"@,
        VirtualKeyCode::F22 => "F22"@,
        VirtualKeyCode::F23 => "F23"@,
        VirtualKeyCode::F24 => "F24"@,
        VirtualKeyCode::Snapshot => "PrintScreen"@,
        VirtualKeyCode::Scroll => "ScrollLock"@,
        VirtualKeyCode::Pause => "Pause"@,
        VirtualKeyCode::Insert => "Insert"@,
        VirtualKeyCode::Home => "Home"@,
        VirtualKeyCode::Delete => "Delete"@,
        VirtualKeyCode::End => "End"@,
        VirtualKeyCode::PageDown => "PageDown"@,
        VirtualKeyCode::PageUp => "PageUp"@,
        VirtualKeyCode::Left => "ArrowLeft"@,
        VirtualKeyCode::Up => "ArrowUp"@,
        VirtualKeyCode::Right => "ArrowRight"@,
        VirtualKeyCode::Down => "ArrowDown"@,
        VirtualKeyCode::Back => "Backspace"@,
        VirtualKeyCode::Return => "Enter"@,
        VirtualKeyCode::Space => " "@,
        VirtualKeyCode::Compose => "Compose"@,
        VirtualKeyCode::Caret => "^"@,
        VirtualKeyCode::Numlock => "NumLock"@,
        VirtualKeyCode::Numpad0 => "0"@,
        VirtualKeyCode::Numpad1 => "1"@,
        VirtualKeyCode::Numpad2 => "2"@,
        VirtualKeyCode::Numpad3 => "3"@,
        VirtualKeyCode::Numpad4 => "4"@,
        VirtualKeyCode::Numpad5 => "5"@,
        VirtualKeyCode::Numpad6 => "6"@,
        VirtualKeyCode::Numpad7 => "7"@,
        VirtualKeyCode::Numpad8 => "8"@,
        VirtualKeyCode::Numpad9 => "9"@,
        VirtualKeyCode::AbntC1 => ""@,
        VirtualKeyCode::AbntC2 => ""@,
        VirtualKeyCode::Add => "+"@,
        VirtualKeyCode::Apostrophe => "'"@,
        VirtualKeyCode::Apps => "ContextMenu"@,
        VirtualKeyCode::At => "@"@,
        VirtualKeyCode::Ax => ""@,
        VirtualKeyCode::Backslash => "\\"@,
        VirtualKeyCode::Calculator => ""@,
        VirtualKeyCode::Capital => "CapsLock"@,
        VirtualKeyCode::Colon => ":"@,
        VirtualKeyCode::Comma => ","@,
        VirtualKeyCode::Convert => "Convert"@,
        VirtualKeyCode::Decimal => "."@,
        VirtualKeyCode::Divide => "/"@,
        VirtualKeyCode::Equals => "="@,
        VirtualKeyCode::Grave => "`"@,
        VirtualKeyCode::Kana => "KanaMode"@,
        VirtualKeyCode::Kanji => "KanjiMode"@,
        VirtualKeyCode::LAlt => "Alt"@,
        VirtualKeyCode::LBracket => "["@,
        VirtualKeyCode::LControl => "Control"@,
        VirtualKeyCode::LShift => "Shift"@,
        VirtualKeyCode::LWin => "Meta"@,
        VirtualKeyCode::Mail => "LaunchMail"@,
        VirtualKeyCode::MediaSelect => "LaunchMediaPlayer"@,
        VirtualKeyCode::MediaStop => "MediaStop"@,
        VirtualKeyCode::Minus => "-"@,
        VirtualKeyCode::Multiply => "*"@,
        VirtualKeyCode::Mute => "AudioVolumeMute"@,
        VirtualKeyCode::MyComputer => ""@,
        VirtualKeyCode::NavigateForward => ""@,
        VirtualKeyCode::NavigateBackward => ""@,
        VirtualKeyCode::NextTrack => "MediaTrackNext"@,
        VirtualKeyCode::NoConvert => "NonConvert"@,
        VirtualKeyCode::NumpadComma => ","@,
        VirtualKeyCode::NumpadEnter => "Enter"@,
        VirtualKeyCode::NumpadEquals => "="@,
        VirtualKeyCode::OEM102 => ""@,
        VirtualKeyCode::Period => "."@,
        VirtualKeyCode::PlayPause => "MediaPlayPause"@,
        VirtualKeyCode::Power => "Power"@,
        VirtualKeyCode::PrevTrack => "MediaTrackPrevious"@,
        VirtualKeyCode::RAlt => "Alt"@,
        VirtualKeyCode::RBracket => "]"@,
        VirtualKeyCode::RControl => "Control"@,
        VirtualKeyCode::RShift => "Shift"@,
        VirtualKeyCode::RWin => "Meta"@,
        VirtualKeyCode::Semicolon => ";"@,
        VirtualKeyCode::Slash => "/"@,
        VirtualKeyCode::Sleep => "Standby"@,
        VirtualKeyCode::Stop => ""@,
        VirtualKeyCode::Subtract => "-"@,
        VirtualKeyCode::Sysrq => ""@,
        VirtualKeyCode::Tab => "Tab"@,
        VirtualKeyCode::Underline => "_"@,
        VirtualKeyCode::Unlabeled => ""@,
        VirtualKeyCode::VolumeDown => "AudioVolumeDown"@,
        VirtualKeyCode::VolumeUp => "AudioVolumeUp"@,
        VirtualKeyCode::Wake => "WakeUp"@,
        VirtualKeyCode::WebBack => "BrowserBack"@,
        VirtualKeyCode::WebFavorites => "BrowserFavorites"@,
        VirtualKeyCode::WebForward => "BrowserForward"@,
        VirtualKeyCode::WebHome => "BrowserHome"@,
        VirtualKeyCode::WebRefresh => "BrowserRefresh"@,
        VirtualKeyCode::WebSearch => "BrowserSearch"@,
        VirtualKeyCode::WebStop => "BrowserStop"@,
        VirtualKeyCode::Yen => "\u{a5}"@,
        VirtualKeyCode::Copy => "Copy"@,
        VirtualKeyCode::Paste => "Paste"@,
        VirtualKeyCode::Cut => "Cut"@,
    }
}

/// Looks up the `key` label of a virtual key.
pub fn translate_virtual_key(key: VirtualKeyCode) -> (label: &'static str)
    ensures
        label@ == key_label(key),
{
    match key {
        VirtualKeyCode::Key1 => "1",
        VirtualKeyCode::Key2 => "2",
        VirtualKeyCode::Key3 => "3",
        VirtualKeyCode::Key4 => "4",
        VirtualKeyCode::Key5 => "5",
        VirtualKeyCode::Key6 => "6",
        VirtualKeyCode::Key7 => "7",
        VirtualKeyCode::Key8 => "8",
        VirtualKeyCode::Key9 => "9",
        VirtualKeyCode::Key0 => "0",
        VirtualKeyCode::A => "a",
        VirtualKeyCode::B => "b",
        VirtualKeyCode::C => "c",
        VirtualKeyCode::D => "d",
        VirtualKeyCode::E => "e",
        VirtualKeyCode::F => "f",
        VirtualKeyCode::G => "g",
        VirtualKeyCode::H => "h",
        VirtualKeyCode::I => "i",
        VirtualKeyCode::J => "j",
        VirtualKeyCode::K => "k",
        VirtualKeyCode::L => "l",
        VirtualKeyCode::M => "m",
        VirtualKeyCode::N => "n",
        VirtualKeyCode::O => "o",
        VirtualKeyCode::P => "p",
        VirtualKeyCode::Q => "q",
        VirtualKeyCode::R => "r",
        VirtualKeyCode::S => "s",
        VirtualKeyCode::T => "t",
        VirtualKeyCode::U => "u",
        VirtualKeyCode::V => "v",
        VirtualKeyCode::W => "w",
        VirtualKeyCode::X => "x",
        VirtualKeyCode::Y => "y",
        VirtualKeyCode::Z => "z",
        VirtualKeyCode::Escape => "Escape",
        VirtualKeyCode::F1 => "F1",
        VirtualKeyCode::F2 => "F2",
        VirtualKeyCode::F3 => "F3",
        VirtualKeyCode::F4 => "F4",
        VirtualKeyCode::F5 => "F5",
        VirtualKeyCode::F6 => "F6",
        VirtualKeyCode::F7 => "F7",
        VirtualKeyCode::F8 => "F8",
        VirtualKeyCode::F9 => "F9",
        VirtualKeyCode::F10 => "F10",
        VirtualKeyCode::F11 => "F11",
        VirtualKeyCode::F12 => "F12",
        VirtualKeyCode::F13 => "F13",
        VirtualKeyCode::F14 => "F14",
        VirtualKeyCode::F15 => "F15",
        VirtualKeyCode::F16 => "F16",
        VirtualKeyCode::F17 => "F17",
        VirtualKeyCode::F18 => "F18",
        VirtualKeyCode::F19 => "F19",
        VirtualKeyCode::F20 => "F20",
        VirtualKeyCode::F21 => "F21",
        VirtualKeyCode::F22 => "F22",
        VirtualKeyCode::F23 => "F23",
        VirtualKeyCode::F24 => "F24",
        VirtualKeyCode::Snapshot => "PrintScreen",
        VirtualKeyCode::Scroll => "ScrollLock",
        VirtualKeyCode::Pause => "Pause",
        VirtualKeyCode::Insert => "Insert",
        VirtualKeyCode::Home => "Home",
        VirtualKeyCode::Delete => "Delete",
        VirtualKeyCode::End => "End",
        VirtualKeyCode::PageDown => "PageDown",
        VirtualKeyCode::PageUp => "PageUp",
        VirtualKeyCode::Left => "ArrowLeft",
        VirtualKeyCode::Up => "ArrowUp",
        VirtualKeyCode::Right => "ArrowRight",
        VirtualKeyCode::Down => "ArrowDown",
        VirtualKeyCode::Back => "Backspace",
        VirtualKeyCode::Return => "Enter",
        VirtualKeyCode::Space => " ",
        VirtualKeyCode::Compose => "Compose",
        VirtualKeyCode::Caret => "^",
        VirtualKeyCode::Numlock => "NumLock",
        VirtualKeyCode::Numpad0 => "0",
        VirtualKeyCode::Numpad1 => "1",
        VirtualKeyCode::Numpad2 => "2",
        VirtualKeyCode::Numpad3 => "3",
        VirtualKeyCode::Numpad4 => "4",
        VirtualKeyCode::Numpad5 => "5",
        VirtualKeyCode::Numpad6 => "6",
        VirtualKeyCode::Numpad7 => "7",
        VirtualKeyCode::Numpad8 => "8",
        VirtualKeyCode::Numpad9 => "9",
        VirtualKeyCode::AbntC1 => "",
        VirtualKeyCode::AbntC2 => "",
        VirtualKeyCode::Add => "+",
        VirtualKeyCode::Apostrophe => "'",
        VirtualKeyCode::Apps => "ContextMenu",
        VirtualKeyCode::At => "@",
        VirtualKeyCode::Ax => "",
        VirtualKeyCode::Backslash => "\\",
        VirtualKeyCode::Calculator => "",
        VirtualKeyCode::Capital => "CapsLock",
        VirtualKeyCode::Colon => ":",
        VirtualKeyCode::Comma => ",",
        VirtualKeyCode::Convert => "Convert",
        VirtualKeyCode::Decimal => ".",
        VirtualKeyCode::Divide => "/",
        VirtualKeyCode::Equals => "=",
        VirtualKeyCode::Grave => "`",
        VirtualKeyCode::Kana => "KanaMode",
        VirtualKeyCode::Kanji => "KanjiMode",
        VirtualKeyCode::LAlt => "Alt",
        VirtualKeyCode::LBracket => "[",
        VirtualKeyCode::LControl => "Control",
        VirtualKeyCode::LShift => "Shift",
        VirtualKeyCode::LWin => "Meta",
        VirtualKeyCode::Mail => "LaunchMail",
        VirtualKeyCode::MediaSelect => "LaunchMediaPlayer",
        VirtualKeyCode::MediaStop => "MediaStop",
        VirtualKeyCode::Minus => "-",
        VirtualKeyCode::Multiply => "*",
        VirtualKeyCode::Mute => "AudioVolumeMute",
        VirtualKeyCode::MyComputer => "",
        VirtualKeyCode::NavigateForward => "",
        VirtualKeyCode::NavigateBackward => "",
        VirtualKeyCode::NextTrack => "MediaTrackNext",
        VirtualKeyCode::NoConvert => "NonConvert",
        VirtualKeyCode::NumpadComma => ",",
        VirtualKeyCode::NumpadEnter => "Enter",
        VirtualKeyCode::NumpadEquals => "=",
        VirtualKeyCode::OEM102 => "",
        VirtualKeyCode::Period => ".",
        VirtualKeyCode::PlayPause => "MediaPlayPause",
        VirtualKeyCode::Power => "Power",
        VirtualKeyCode::PrevTrack => "MediaTrackPrevious",
        VirtualKeyCode::RAlt => "Alt",
        VirtualKeyCode::RBracket => "]",
        VirtualKeyCode::RControl => "Control",
        VirtualKeyCode::RShift => "Shift",
        VirtualKeyCode::RWin => "Meta",
        VirtualKeyCode::Semicolon => ";",
        VirtualKeyCode::Slash => "/",
        VirtualKeyCode::Sleep => "Standby",
        VirtualKeyCode::Stop => "",
        VirtualKeyCode::Subtract => "-",
        VirtualKeyCode::Sysrq => "",
        VirtualKeyCode::Tab => "Tab",
        VirtualKeyCode::Underline => "_",
        VirtualKeyCode::Unlabeled => "",
        VirtualKeyCode::VolumeDown => "AudioVolumeDown",
        VirtualKeyCode::VolumeUp => "AudioVolumeUp",
        VirtualKeyCode::Wake => "WakeUp",
        VirtualKeyCode::WebBack => "BrowserBack",
        VirtualKeyCode::WebFavorites => "BrowserFavorites",
        VirtualKeyCode::WebForward => "BrowserForward",
        VirtualKeyCode::WebHome => "BrowserHome",
        VirtualKeyCode::WebRefresh => "BrowserRefresh",
        VirtualKeyCode::WebSearch => "BrowserSearch",
        VirtualKeyCode::WebStop => "BrowserStop",
        VirtualKeyCode::Yen => "\u{a5}",
        VirtualKeyCode::Copy => "Copy",
        VirtualKeyCode::Paste => "Paste",
        VirtualKeyCode::Cut => "Cut",
    }
}

/// The name of a virtual key itself: the identifier it is written with. It
/// stands in for the `key` label where the table has none.
pub open spec fn key_tag(key: VirtualKeyCode) -> Seq<char> {
    match key {
        VirtualKeyCode::Key1 => "Key1"@,
        VirtualKeyCode::Key2 => "Key2"@,
        VirtualKeyCode::Key3 => "Key3"@,
        VirtualKeyCode::Key4 => "Key4"@,
        VirtualKeyCode::Key5 => "Key5"@,
        VirtualKeyCode::Key6 => "Key6"@,
        VirtualKeyCode::Key7 => "Key7"@,
        VirtualKeyCode::Key8 => "Key8"@,
        VirtualKeyCode::Key9 => "Key9"@,
        VirtualKeyCode::Key0 => "Key0"@,
        VirtualKeyCode::A => "A"@,
        VirtualKeyCode::B => "B"@,
        VirtualKeyCode::C => "C"@,
        VirtualKeyCode::D => "D"@,
        VirtualKeyCode::E => "E"@,
        VirtualKeyCode::F => "F"@,
        VirtualKeyCode::G => "G"@,
        VirtualKeyCode::H => "H"@,
        VirtualKeyCode::I => "I"@,
        VirtualKeyCode::J => "J"@,
        VirtualKeyCode::K => "K"@,
        VirtualKeyCode::L => "L"@,
        VirtualKeyCode::M => "M"@,
        VirtualKeyCode::N => "N"@,
        VirtualKeyCode::O => "O"@,
        VirtualKeyCode::P => "P"@,
        VirtualKeyCode::Q => "Q"@,
        VirtualKeyCode::R => "R"@,
        VirtualKeyCode::S => "S"@,
        VirtualKeyCode::T => "T"@,
        VirtualKeyCode::U => "U"@,
        VirtualKeyCode::V => "V"@,
        VirtualKeyCode::W => "W"@,
        VirtualKeyCode::X => "X"@,
        VirtualKeyCode::Y => "Y"@,
        VirtualKeyCode::Z => "Z"@,
        VirtualKeyCode::Escape => "Escape"@,
        VirtualKeyCode::F1 => "F1"@,
        VirtualKeyCode::F2 => "F2"@,
        VirtualKeyCode::F3 => "F3"@,
        VirtualKeyCode::F4 => "F4"@,
        VirtualKeyCode::F5 => "F5"@,
        VirtualKeyCode::F6 => "F6"@,
        VirtualKeyCode::F7 => "F7"@,
        VirtualKeyCode::F8 => "F8"@,
        VirtualKeyCode::F9 => "F9"@,
        VirtualKeyCode::F10 => "F10"@,
        VirtualKeyCode::F11 => "F11"@,
        VirtualKeyCode::F12 => "F12"@,
        VirtualKeyCode::F13 => "F13"@,
        VirtualKeyCode::F14 => "F14"@,
        VirtualKeyCode::F15 => "F15"@,
        VirtualKeyCode::F16 => "F16"@,
        VirtualKeyCode::F17 => "F17"@,
        VirtualKeyCode::F18 => "F18"@,
        VirtualKeyCode::F19 => "F19"@,
        VirtualKeyCode::F20 => "F20"@,
        VirtualKeyCode::F21 => "F21"@,
        VirtualKeyCode::F22 => "F22"@,
        VirtualKeyCode::F23 => "F23"@,
        VirtualKeyCode::F24 => "F24"@,
        VirtualKeyCode::Snapshot => "Snapshot"@,
        VirtualKeyCode::Scroll => "Scroll"@,
        VirtualKeyCode::Pause => "Pause"@,
        VirtualKeyCode::Insert => "Insert"@,
        VirtualKeyCode::Home => "Home"@,
        VirtualKeyCode::Delete => "Delete"@,
        VirtualKeyCode::End => "End"@,
        VirtualKeyCode::PageDown => "PageDown"@,
        VirtualKeyCode::PageUp => "PageUp"@,
        VirtualKeyCode::Left => "Left"@,
        VirtualKeyCode::Up => "Up"@,
        VirtualKeyCode::Right => "Right"@,
        VirtualKeyCode::Down => "Down"@,
        VirtualKeyCode::Back => "Back"@,
        VirtualKeyCode::Return => "Return"@,
        VirtualKeyCode::Space => "Space"@,
        VirtualKeyCode::Compose => "Compose"@,
        VirtualKeyCode::Caret => "Caret"@,
        VirtualKeyCode::Numlock => "Numlock"@,
        VirtualKeyCode::Numpad0 => "Numpad0"@,
        VirtualKeyCode::Numpad1 => "Numpad1"@,
        VirtualKeyCode::Numpad2 => "Numpad2"@,
        VirtualKeyCode::Numpad3 => "Numpad3"@,
        VirtualKeyCode::Numpad4 => "Numpad4"@,
        VirtualKeyCode::Numpad5 => "Numpad5"@,
        VirtualKeyCode::Numpad6 => "Numpad6"@,
        VirtualKeyCode::Numpad7 => "Numpad7"@,
        VirtualKeyCode::Numpad8 => "Numpad8"@,
        VirtualKeyCode::Numpad9 => "Numpad9"@,
        VirtualKeyCode::AbntC1 => "AbntC1"@,
        VirtualKeyCode::AbntC2 => "AbntC2"@,
        VirtualKeyCode::Add => "Add"@,
        VirtualKeyCode::Apostrophe => "Apostrophe"@,
        VirtualKeyCode::Apps => "Apps"@,
        VirtualKeyCode::At => "At"@,
        VirtualKeyCode::Ax => "Ax"@,
        VirtualKeyCode::Backslash => "Backslash"@,
        VirtualKeyCode::Calculator => "Calculator"@,
        VirtualKeyCode::Capital => "Capital"@,
        VirtualKeyCode::Colon => "Colon"@,
        VirtualKeyCode::Comma => "Comma"@,
        VirtualKeyCode::Convert => "Convert"@,
        VirtualKeyCode::Decimal => "Decimal"@,
        VirtualKeyCode::Divide => "Divide"@,
        VirtualKeyCode::Equals => "Equals"@,
        VirtualKeyCode::Grave => "Grave"@,
        VirtualKeyCode::Kana => "Kana"@,
        VirtualKeyCode::Kanji => "Kanji"@,
        VirtualKeyCode::LAlt => "LAlt"@,
        VirtualKeyCode::LBracket => "LBracket"@,
        VirtualKeyCode::LControl => "LControl"@,
        VirtualKeyCode::LShift => "LShift"@,
        VirtualKeyCode::LWin => "LWin"@,
        VirtualKeyCode::Mail => "Mail"@,
        VirtualKeyCode::MediaSelect => "MediaSelect"@,
        VirtualKeyCode::MediaStop => "MediaStop"@,
        VirtualKeyCode::Minus => "Minus"@,
        VirtualKeyCode::Multiply => "Multiply"@,
        VirtualKeyCode::Mute => "Mute"@,
        VirtualKeyCode::MyComputer => "MyComputer"@,
        VirtualKeyCode::NavigateForward => "NavigateForward"@,
        VirtualKeyCode::NavigateBackward => "NavigateBackward"@,
        VirtualKeyCode::NextTrack => "NextTrack"@,
        VirtualKeyCode::NoConvert => "NoConvert"@,
        VirtualKeyCode::NumpadComma => "NumpadComma"@,
        VirtualKeyCode::NumpadEnter => "NumpadEnter"@,
        VirtualKeyCode::NumpadEquals => "NumpadEquals"@,
        VirtualKeyCode::OEM102 => "OEM102"@,
        VirtualKeyCode::Period => "Period"@,
        VirtualKeyCode::PlayPause => "PlayPause"@,
        VirtualKeyCode::Power => "Power"@,
        VirtualKeyCode::PrevTrack => "PrevTrack"@,
        VirtualKeyCode::RAlt => "RAlt"@,
        VirtualKeyCode::RBracket => "RBracket"@,
        VirtualKeyCode::RControl => "RControl"@,
        VirtualKeyCode::RShift => "RShift"@,
        VirtualKeyCode::RWin => "RWin"@,
        VirtualKeyCode::Semicolon => "Semicolon"@,
        VirtualKeyCode::Slash => "Slash"@,
        VirtualKeyCode::Sleep => "Sleep"@,
        VirtualKeyCode::Stop => "Stop"@,
        VirtualKeyCode::Subtract => "Subtract"@,
        VirtualKeyCode::Sysrq => "Sysrq"@,
        VirtualKeyCode::Tab => "Tab"@,
        VirtualKeyCode::Underline => "Underline"@,
        VirtualKeyCode::Unlabeled => "Unlabeled"@,
        VirtualKeyCode::VolumeDown => "VolumeDown"@,
        VirtualKeyCode::VolumeUp => "VolumeUp"@,
        VirtualKeyCode::Wake => "Wake"@,
        VirtualKeyCode::WebBack => "WebBack"@,
        VirtualKeyCode::WebFavorites => "WebFavorites"@,
        VirtualKeyCode::WebForward => "WebForward"@,
        VirtualKeyCode::WebHome => "WebHome"@,
        VirtualKeyCode::WebRefresh => "WebRefresh"@,
        VirtualKeyCode::WebSearch => "WebSearch"@,
        VirtualKeyCode::WebStop => "WebStop"@,
        VirtualKeyCode::Yen => "Yen"@,
        VirtualKeyCode::Copy => "Copy"@,
        VirtualKeyCode::Paste => "Paste"@,
        VirtualKeyCode::Cut => "Cut"@,
    }
}

/// Looks up the name of a virtual key itself.
pub fn virtual_key_tag(key: VirtualKeyCode) -> (tag: &'static str)
    ensures
        tag@ == key_tag(key),
{
    match key {
        VirtualKeyCode::Key1 => "Key1",
        VirtualKeyCode::Key2 => "Key2",
        VirtualKeyCode::Key3 => "Key3",
        VirtualKeyCode::Key4 => "Key4",
        VirtualKeyCode::Key5 => "Key5",
        VirtualKeyCode::Key6 => "Key6",
        VirtualKeyCode::Key7 => "Key7",
        VirtualKeyCode::Key8 => "Key8",
        VirtualKeyCode::Key9 => "Key9",
        VirtualKeyCode::Key0 => "Key0",
        VirtualKeyCode::A => "A",
        VirtualKeyCode::B => "B",
        VirtualKeyCode::C => "C",
        VirtualKeyCode::D => "D",
        VirtualKeyCode::E => "E",
        VirtualKeyCode::F => "F",
        VirtualKeyCode::G => "G",
        VirtualKeyCode::H => "H",
        VirtualKeyCode::I => "I",
        VirtualKeyCode::J => "J",
        VirtualKeyCode::K => "K",
        VirtualKeyCode::L => "L",
        VirtualKeyCode::M => "M",
        VirtualKeyCode::N => "N",
        VirtualKeyCode::O => "O",
        VirtualKeyCode::P => "P",
        VirtualKeyCode::Q => "Q",
        VirtualKeyCode::R => "R",
        VirtualKeyCode::S => "S",
        VirtualKeyCode::T => "T",
        VirtualKeyCode::U => "U",
        VirtualKeyCode::V => "V",
        VirtualKeyCode::W => "W",
        VirtualKeyCode::X => "X",
        VirtualKeyCode::Y => "Y",
        VirtualKeyCode::Z => "Z",
        VirtualKeyCode::Escape => "Escape",
        VirtualKeyCode::F1 => "F1",
        VirtualKeyCode::F2 => "F2",
        VirtualKeyCode::F3 => "F3",
        VirtualKeyCode::F4 => "F4",
        VirtualKeyCode::F5 => "F5",
        VirtualKeyCode::F6 => "F6",
        VirtualKeyCode::F7 => "F7",
        VirtualKeyCode::F8 => "F8",
        VirtualKeyCode::F9 => "F9",
        VirtualKeyCode::F10 => "F10",
        VirtualKeyCode::F11 => "F11",
        VirtualKeyCode::F12 => "F12",
        VirtualKeyCode::F13 => "F13",
        VirtualKeyCode::F14 => "F14",
        VirtualKeyCode::F15 => "F15",
        VirtualKeyCode::F16 => "F16",
        VirtualKeyCode::F17 => "F17",
        VirtualKeyCode::F18 => "F18",
        VirtualKeyCode::F19 => "F19",
        VirtualKeyCode::F20 => "F20",
        VirtualKeyCode::F21 => "F21",
        VirtualKeyCode::F22 => "F22",
        VirtualKeyCode::F23 => "F23",
        VirtualKeyCode::F24 => "F24",
        VirtualKeyCode::Snapshot => "Snapshot",
        VirtualKeyCode::Scroll => "Scroll",
        VirtualKeyCode::Pause => "Pause",
        VirtualKeyCode::Insert => "Insert",
        VirtualKeyCode::Home => "Home",
        VirtualKeyCode::Delete => "Delete",
        VirtualKeyCode::End => "End",
        VirtualKeyCode::PageDown => "PageDown",
        VirtualKeyCode::PageUp => "PageUp",
        VirtualKeyCode::Left => "Left",
        VirtualKeyCode::Up => "Up",
        VirtualKeyCode::Right => "Right",
        VirtualKeyCode::Down => "Down",
        VirtualKeyCode::Back => "Back",
        VirtualKeyCode::Return => "Return",
        VirtualKeyCode::Space => "Space",
        VirtualKeyCode::Compose => "Compose",
        VirtualKeyCode::Caret => "Caret",
        VirtualKeyCode::Numlock => "Numlock",
        VirtualKeyCode::Numpad0 => "Numpad0",
        VirtualKeyCode::Numpad1 => "Numpad1",
        VirtualKeyCode::Numpad2 => "Numpad2",
        VirtualKeyCode::Numpad3 => "Numpad3",
        VirtualKeyCode::Numpad4 => "Numpad4",
        VirtualKeyCode::Numpad5 => "Numpad5",
        VirtualKeyCode::Numpad6 => "Numpad6",
        VirtualKeyCode::Numpad7 => "Numpad7",
        VirtualKeyCode::Numpad8 => "Numpad8",
        VirtualKeyCode::Numpad9 => "Numpad9",
        VirtualKeyCode::AbntC1 => "AbntC1",
        VirtualKeyCode::AbntC2 => "AbntC2",
        VirtualKeyCode::Add => "Add",
        VirtualKeyCode::Apostrophe => "Apostrophe",
        VirtualKeyCode::Apps => "Apps",
        VirtualKeyCode::At => "At",
        VirtualKeyCode::Ax => "Ax",
        VirtualKeyCode::Backslash => "Backslash",
        VirtualKeyCode::Calculator => "Calculator",
        VirtualKeyCode::Capital => "Capital",
        VirtualKeyCode::Colon => "Colon",
        VirtualKeyCode::Comma => "Comma",
        VirtualKeyCode::Convert => "Convert",
        VirtualKeyCode::Decimal => "Decimal",
        VirtualKeyCode::Divide => "Divide",
        VirtualKeyCode::Equals => "Equals",
        VirtualKeyCode::Grave => "Grave",
        VirtualKeyCode::Kana => "Kana",
        VirtualKeyCode::Kanji => "Kanji",
        VirtualKeyCode::LAlt => "LAlt",
        VirtualKeyCode::LBracket => "LBracket",
        VirtualKeyCode::LControl => "LControl",
        VirtualKeyCode::LShift => "LShift",
        VirtualKeyCode::LWin => "LWin",
        VirtualKeyCode::Mail => "Mail",
        VirtualKeyCode::MediaSelect => "MediaSelect",
        VirtualKeyCode::MediaStop => "MediaStop",
        VirtualKeyCode::Minus => "Minus",
        VirtualKeyCode::Multiply => "Multiply",
        VirtualKeyCode::Mute => "Mute",
        VirtualKeyCode::MyComputer => "MyComputer",
        VirtualKeyCode::NavigateForward => "NavigateForward",
        VirtualKeyCode::NavigateBackward => "NavigateBackward",
        VirtualKeyCode::NextTrack => "NextTrack",
        VirtualKeyCode::NoConvert => "NoConvert",
        VirtualKeyCode::NumpadComma => "NumpadComma",
        VirtualKeyCode::NumpadEnter => "NumpadEnter",
        VirtualKeyCode::NumpadEquals => "NumpadEquals",
        VirtualKeyCode::OEM102 => "OEM102",
        VirtualKeyCode::Period => "Period",
        VirtualKeyCode::PlayPause => "PlayPause",
        VirtualKeyCode::Power => "Power",
        VirtualKeyCode::PrevTrack => "PrevTrack",
        VirtualKeyCode::RAlt => "RAlt",
        VirtualKeyCode::RBracket => "RBracket",
        VirtualKeyCode::RControl => "RControl",
        VirtualKeyCode::RShift => "RShift",
        VirtualKeyCode::RWin => "RWin",
        VirtualKeyCode::Semicolon => "Semicolon",
        VirtualKeyCode::Slash => "Slash",
        VirtualKeyCode::Sleep => "Sleep",
        VirtualKeyCode::Stop => "Stop",
        VirtualKeyCode::Subtract => "Subtract",
        VirtualKeyCode::Sysrq => "Sysrq",
        VirtualKeyCode::Tab => "Tab",
        VirtualKeyCode::Underline => "Underline",
        VirtualKeyCode::Unlabeled => "Unlabeled",
        VirtualKeyCode::VolumeDown => "VolumeDown",
        VirtualKeyCode::VolumeUp => "VolumeUp",
        VirtualKeyCode::Wake => "Wake",
        VirtualKeyCode::WebBack => "WebBack",
        VirtualKeyCode::WebFavorites => "WebFavorites",
        VirtualKeyCode::WebForward => "WebForward",
        VirtualKeyCode::WebHome => "WebHome",
        VirtualKeyCode::WebRefresh => "WebRefresh",
        VirtualKeyCode::WebSearch => "WebSearch",
        VirtualKeyCode::WebStop => "WebStop",
        VirtualKeyCode::Yen => "Yen",
        VirtualKeyCode::Copy => "Copy",
        VirtualKeyCode::Paste => "Paste",
        VirtualKeyCode::Cut => "Cut",
    }
}

/// The `code` label of a scan code; empty if the table has none for it.
///
/// The main block follows the scan codes of the PC keyboard; the navigation
/// block, the right-hand modifiers and the keypad extras follow the key
/// numbers of Linux input devices.
pub open spec fn code_label(code: ScanCode) -> Seq<char> {
    match code {
        0x01 => "Escape"@,
        0x02 => "Digit1"@,
        0x03 => "Digit2"@,
        0x04 => "Digit3"@,
        0x05 => "Digit4"@,
        0x06 => "Digit5"@,
        0x07 => "Digit6"@,
        0x08 => "Digit7"@,
        0x09 => "Digit8"@,
        0x0A => "Digit9"@,
        0x0B => "Digit0"@,
        0x0C => "Minus"@,
        0x0D => "Equal"@,
        0x0E => "Backspace"@,
        0x0F => "Tab"@,
        0x10 => "KeyQ"@,
        0x11 => "KeyW"@,
        0x12 => "KeyE"@,
        0x13 => "KeyR"@,
        0x14 => "KeyT"@,
        0x15 => "KeyY"@,
        0x16 => "KeyU"@,
        0x17 => "KeyI"@,
        0x18 => "KeyO"@,
        0x19 => "KeyP"@,
        0x1A => "BracketLeft"@,
        0x1B => "BracketRight"@,
        0x1C => "Enter"@,
        0x1D => "ControlLeft"@,
        0x1E => "KeyA"@,
        0x1F => "KeyS"@,
        0x20 => "KeyD"@,
        0x21 => "KeyF"@,
        0x22 => "KeyG"@,
        0x23 => "KeyH"@,
        0x24 => "KeyJ"@,
        0x25 => "KeyK"@,
        0x26 => "KeyL"@,
        0x27 => "Semicolon"@,
        0x28 => "Quote"@,
        0x29 => "Backquote"@,
        0x2A => "ShiftLeft"@,
        0x2B => "Backslash"@,
        0x2C => "KeyZ"@,
        0x2D => "KeyX"@,
        0x2E => "KeyC"@,
        0x2F => "KeyV"@,
        0x30 => "KeyB"@,
        0x31 => "KeyN"@,
        0x32 => "KeyM"@,
        0x33 => "Comma"@,
        0x34 => "Period"@,
        0x35 => "Slash"@,
        0x36 => "ShiftRight"@,
        0x37 => "NumpadMultiply"@,
        0x38 => "AltLeft"@,
        0x39 => "Space"@,
        0x3A => "CapsLock"@,
        0x3B => "F1"@,
        0x3C => "F2"@,
        0x3D => "F3"@,
        0x3E => "F4"@,
        0x3F => "F5"@,
        0x40 => "F6"@,
        0x41 => "F7"@,
        0x42 => "F8"@,
        0x43 => "F9"@,
        0x44 => "F10"@,
        0x45 => "NumLock"@,
        0x46 => "ScrollLock"@,
        0x47 => "Numpad7"@,
        0x48 => "Numpad8"@,
        0x49 => "Numpad9"@,
        0x4A => "NumpadSubtract"@,
        0x4B => "Numpad4"@,
        0x4C => "Numpad5"@,
        0x4D => "Numpad6"@,
        0x4E => "NumpadAdd"@,
        0x4F => "Numpad1"@,
        0x50 => "Numpad2"@,
        0x51 => "Numpad3"@,
        0x52 => "Numpad0"@,
        0x53 => "NumpadDecimal"@,
        0x56 => "IntlBackslash"@,
        0x57 => "F11"@,
        0x58 => "F12"@,
        0x60 => "NumpadEnter"@,
        0x61 => "ControlRight"@,
        0x62 => "NumpadDivide"@,
        0x63 => "PrintScreen"@,
        0x64 => "AltRight"@,
        0x66 => "Home"@,
        0x67 => "ArrowUp"@,
        0x68 => "PageUp"@,
        0x69 => "ArrowLeft"@,
        0x6A => "ArrowRight"@,
        0x6B => "End"@,
        0x6C => "ArrowDown"@,
        0x6D => "PageDown"@,
        0x6E => "Insert"@,
        0x6F => "Delete"@,
        0x77 => "Pause"@,
        0x7D => "MetaLeft"@,
        0x7E => "MetaRight"@,
        0x7F => "ContextMenu"@,
        _ => ""@,
    }
}

/// Looks up the `code` label of a scan code.
pub fn translate_scan_code(code: ScanCode) -> (label: &'static str)
    ensures
        label@ == code_label(code),
{
    match code {
        0x01 => "Escape",
        0x02 => "Digit1",
        0x03 => "Digit2",
        0x04 => "Digit3",
        0x05 => "Digit4",
        0x06 => "Digit5",
        0x07 => "Digit6",
        0x08 => "Digit7",
        0x09 => "Digit8",
        0x0A => "Digit9",
        0x0B => "Digit0",
        0x0C => "Minus",
        0x0D => "Equal",
        0x0E => "Backspace",
        0x0F => "Tab",
        0x10 => "KeyQ",
        0x11 => "KeyW",
        0x12 => "KeyE",
        0x13 => "KeyR",
        0x14 => "KeyT",
        0x15 => "KeyY",
        0x16 => "KeyU",
        0x17 => "KeyI",
        0x18 => "KeyO",
        0x19 => "KeyP",
        0x1A => "BracketLeft",
        0x1B => "BracketRight",
        0x1C => "Enter",
        0x1D => "ControlLeft",
        0x1E => "KeyA",
        0x1F => "KeyS",
        0x20 => "KeyD",
        0x21 => "KeyF",
        0x22 => "KeyG",
        0x23 => "KeyH",
        0x24 => "KeyJ",
        0x25 => "KeyK",
        0x26 => "KeyL",
        0x27 => "Semicolon",
        0x28 => "Quote",
        0x29 => "Backquote",
        0x2A => "ShiftLeft",
        0x2B => "Backslash",
        0x2C => "KeyZ",
        0x2D => "KeyX",
        0x2E => "KeyC",
        0x2F => "KeyV",
        0x30 => "KeyB",
        0x31 => "KeyN",
        0x32 => "KeyM",
        0x33 => "Comma",
        0x34 => "Period",
        0x35 => "Slash",
        0x36 => "ShiftRight",
        0x37 => "NumpadMultiply",
        0x38 => "AltLeft",
        0x39 => "Space",
        0x3A => "CapsLock",
        0x3B => "F1",
        0x3C => "F2",
        0x3D => "F3",
        0x3E => "F4",
        0x3F => "F5",
        0x40 => "F6",
        0x41 => "F7",
        0x42 => "F8",
        0x43 => "F9",
        0x44 => "F10",
        0x45 => "NumLock",
        0x46 => "ScrollLock",
        0x47 => "Numpad7",
        0x48 => "Numpad8",
        0x49 => "Numpad9",
        0x4A => "NumpadSubtract",
        0x4B => "Numpad4",
        0x4C => "Numpad5",
        0x4D => "Numpad6",
        0x4E => "NumpadAdd",
        0x4F => "Numpad1",
        0x50 => "Numpad2",
        0x51 => "Numpad3",
        0x52 => "Numpad0",
        0x53 => "NumpadDecimal",
        0x56 => "IntlBackslash",
        0x57 => "F11",
        0x58 => "F12",
        0x60 => "NumpadEnter",
        0x61 => "ControlRight",
        0x62 => "NumpadDivide",
        0x63 => "PrintScreen",
        0x64 => "AltRight",
        0x66 => "Home",
        0x67 => "ArrowUp",
        0x68 => "PageUp",
        0x69 => "ArrowLeft",
        0x6A => "ArrowRight",
        0x6B => "End",
        0x6C => "ArrowDown",
        0x6D => "PageDown",
        0x6E => "Insert",
        0x6F => "Delete",
        0x77 => "Pause",
        0x7D => "MetaLeft",
        0x7E => "MetaRight",
        0x7F => "ContextMenu",
        _ => "",
    }
}

} // verus!
