use uni_app::config::AppConfig;
use uni_app::events::{AppEvent, F64Bits, KeyDownEvent, KeyUpEvent, MouseButtonEvent};
use uni_app::native_app::{
    get_scan_code, get_virtual_key, mouse_button_id, translate_event, App, ElementState,
    KeyboardInput, ModifiersState, MouseButton, Platform, RawEvent, VideoMode, WindowContext,
};
use uni_app::native_keycode::VirtualKeyCode;

fn no_modifiers() -> ModifiersState {
    ModifiersState { shift: false, ctrl: false, alt: false, logo: false }
}

fn config(size: (u32, u32)) -> AppConfig {
    AppConfig {
        title: String::from("test"),
        size,
        vsync: true,
        resizable: true,
        fullscreen: false,
        headless: false,
        show_cursor: true,
        intercept_close_request: false,
    }
}

fn key(scancode: u32, state: ElementState, virtual_keycode: Option<VirtualKeyCode>) -> KeyboardInput {
    KeyboardInput { scancode, state, virtual_keycode, modifiers: no_modifiers() }
}

fn windowed_app() -> App {
    App::new(config((800, 600)), &Vec::new(), Platform::Other)
}

#[test]
fn main_buttons_have_fixed_ids() {
    assert_eq!(mouse_button_id(MouseButton::Left), 0);
    assert_eq!(mouse_button_id(MouseButton::Middle), 1);
    assert_eq!(mouse_button_id(MouseButton::Right), 2);
}

#[test]
fn extra_buttons_keep_their_number() {
    assert_eq!(mouse_button_id(MouseButton::Other(3)), 3);
    assert_eq!(mouse_button_id(MouseButton::Other(4)), 4);
    assert_eq!(mouse_button_id(MouseButton::Other(255)), 255);
}

#[test]
fn mouse_press_and_release_translate() {
    let press = RawEvent::MouseInput {
        state: ElementState::Pressed,
        button: MouseButton::Right,
        modifiers: no_modifiers(),
    };
    let release = RawEvent::MouseInput {
        state: ElementState::Released,
        button: MouseButton::Other(6),
        modifiers: no_modifiers(),
    };
    assert_eq!(
        translate_event(press, no_modifiers()),
        Some(AppEvent::MouseDown(MouseButtonEvent { button: 2 }))
    );
    assert_eq!(
        translate_event(release, no_modifiers()),
        Some(AppEvent::MouseUp(MouseButtonEvent { button: 6 }))
    );
}

#[test]
fn cursor_position_passes_through_unchanged() {
    let x = F64Bits { bits: f64::to_bits(12.5) };
    let y = F64Bits { bits: f64::to_bits(-0.25) };
    let moved = RawEvent::CursorMoved { x, y, modifiers: no_modifiers() };
    match translate_event(moved, no_modifiers()) {
        Some(AppEvent::MousePos((px, py))) => {
            assert_eq!(f64::from_bits(px.bits), 12.5);
            assert_eq!(f64::from_bits(py.bits), -0.25);
        }
        other => panic!("unexpected translation {:?}", other),
    }
}

#[test]
fn key_press_carries_labels_and_modifiers() {
    let held = ModifiersState { shift: true, ctrl: false, alt: true, logo: false };
    let input = key(0x1E, ElementState::Pressed, Some(VirtualKeyCode::A));
    assert_eq!(
        translate_event(RawEvent::KeyboardInput(input), held),
        Some(AppEvent::KeyDown(KeyDownEvent {
            code: String::from("KeyA"),
            key: String::from("a"),
            shift: true,
            alt: true,
            ctrl: false,
        }))
    );
}

#[test]
fn key_release_carries_labels_and_modifiers() {
    let held = ModifiersState { shift: false, ctrl: true, alt: false, logo: true };
    let input = key(0x1C, ElementState::Released, Some(VirtualKeyCode::Return));
    assert_eq!(
        translate_event(RawEvent::KeyboardInput(input), held),
        Some(AppEvent::KeyUp(KeyUpEvent {
            code: String::from("Enter"),
            key: String::from("Enter"),
            shift: false,
            alt: false,
            ctrl: true,
        }))
    );
}

#[test]
fn key_without_label_falls_back_to_its_own_name() {
    let input = key(0, ElementState::Pressed, Some(VirtualKeyCode::Calculator));
    assert_eq!(get_virtual_key(input), "Calculator");
    let input = key(0, ElementState::Pressed, Some(VirtualKeyCode::OEM102));
    assert_eq!(get_virtual_key(input), "OEM102");
}

#[test]
fn key_without_virtual_key_has_empty_label() {
    let input = key(0x39, ElementState::Pressed, None);
    assert_eq!(get_virtual_key(input), "");
    assert_eq!(get_scan_code(input), "Space");
}

#[test]
fn unknown_scan_code_has_empty_label() {
    let input = key(0xFFFF, ElementState::Pressed, Some(VirtualKeyCode::Space));
    assert_eq!(get_scan_code(input), "");
    assert_eq!(get_virtual_key(input), " ");
}

#[test]
fn received_character_becomes_text_input() {
    assert_eq!(
        translate_event(RawEvent::ReceivedCharacter('\u{e9}'), no_modifiers()),
        Some(AppEvent::CharEvent('\u{e9}'))
    );
}

#[test]
fn close_request_translates() {
    assert_eq!(
        translate_event(RawEvent::CloseRequested, no_modifiers()),
        Some(AppEvent::CloseRequested)
    );
}

#[test]
fn events_without_canonical_form_translate_to_nothing() {
    let held = ModifiersState { shift: true, ctrl: true, alt: true, logo: true };
    assert_eq!(translate_event(RawEvent::Other, no_modifiers()), None);
    assert_eq!(translate_event(RawEvent::ModifiersChanged(held), no_modifiers()), None);
}

#[test]
fn resize_translates_unless_it_is_zero_by_zero() {
    assert_eq!(
        translate_event(RawEvent::Resized { width: 640, height: 480 }, no_modifiers()),
        Some(AppEvent::Resized((640, 480)))
    );
    assert_eq!(
        translate_event(RawEvent::Resized { width: 0, height: 480 }, no_modifiers()),
        Some(AppEvent::Resized((0, 480)))
    );
    assert_eq!(translate_event(RawEvent::Resized { width: 0, height: 0 }, no_modifiers()), None);
}

#[test]
fn minimise_resize_leaves_queue_and_size_alone() {
    let mut app = windowed_app();
    let first = app.handle_event(RawEvent::Resized { width: 1024, height: 768 });
    assert_eq!(first.resize, Some((1024, 768)));
    assert_eq!(app.window, WindowContext::Windowed { size: (1024, 768) });
    app.deliver(true, |_app: &mut App| {});

    let outcome = app.handle_event(RawEvent::Resized { width: 0, height: 0 });
    assert!(outcome.running);
    assert_eq!(outcome.resize, None);
    assert!(app.events.is_empty());
    assert_eq!(app.window, WindowContext::Windowed { size: (1024, 768) });
}

#[test]
fn resize_with_one_dimension_at_zero_is_not_applied() {
    let mut app = windowed_app();
    let outcome = app.handle_event(RawEvent::Resized { width: 0, height: 300 });
    assert_eq!(outcome.resize, None);
    assert_eq!(app.window, WindowContext::Windowed { size: (800, 600) });
    assert_eq!(app.events, vec![AppEvent::Resized((0, 300))]);
}

#[test]
fn headless_context_is_never_resized() {
    let mut headless = config((800, 600));
    headless.headless = true;
    let mut app = App::new(headless, &Vec::new(), Platform::Other);
    let outcome = app.handle_event(RawEvent::Resized { width: 10, height: 20 });
    assert_eq!(outcome.resize, None);
    assert_eq!(app.window, WindowContext::Headless);
    assert_eq!(app.events, vec![AppEvent::Resized((10, 20))]);
}

#[test]
fn fullscreen_context_tracks_resizes() {
    let mut wanted = config((800, 600));
    wanted.fullscreen = true;
    let modes = vec![VideoMode { width: 800, height: 600 }];
    let mut app = App::new(wanted, &modes, Platform::Other);
    assert_eq!(app.window, WindowContext::Fullscreen { video_mode: 0, size: (800, 600) });
    let outcome = app.handle_event(RawEvent::Resized { width: 1600, height: 1200 });
    assert_eq!(outcome.resize, Some((1600, 1200)));
    assert_eq!(app.window, WindowContext::Fullscreen { video_mode: 0, size: (1600, 1200) });
}

#[test]
fn close_request_ends_the_loop_unless_intercepted() {
    let mut app = windowed_app();
    let outcome = app.handle_event(RawEvent::CloseRequested);
    assert!(!outcome.running);
    assert_eq!(app.events, vec![AppEvent::CloseRequested]);

    let mut intercepting = config((800, 600));
    intercepting.intercept_close_request = true;
    let mut app = App::new(intercepting, &Vec::new(), Platform::Other);
    let outcome = app.handle_event(RawEvent::CloseRequested);
    assert!(outcome.running);
    assert_eq!(app.events, vec![AppEvent::CloseRequested]);
}

#[test]
fn quit_shortcut_ends_the_loop_on_its_platform_only() {
    let logo = ModifiersState { shift: false, ctrl: false, alt: false, logo: true };
    let q = KeyboardInput {
        scancode: 0x10,
        state: ElementState::Pressed,
        virtual_keycode: Some(VirtualKeyCode::Q),
        modifiers: logo,
    };
    let mut mac = App::new(config((800, 600)), &Vec::new(), Platform::MacOs);
    assert!(!mac.handle_event(RawEvent::KeyboardInput(q)).running);
    assert_eq!(mac.events.len(), 1);

    let mut other = App::new(config((800, 600)), &Vec::new(), Platform::Other);
    assert!(other.handle_event(RawEvent::KeyboardInput(q)).running);

    let plain_q = KeyboardInput { modifiers: no_modifiers(), ..q };
    let mut mac = App::new(config((800, 600)), &Vec::new(), Platform::MacOs);
    assert!(mac.handle_event(RawEvent::KeyboardInput(plain_q)).running);

    let w = KeyboardInput { virtual_keycode: Some(VirtualKeyCode::W), ..q };
    let mut mac = App::new(config((800, 600)), &Vec::new(), Platform::MacOs);
    assert!(mac.handle_event(RawEvent::KeyboardInput(w)).running);
}

#[test]
fn modifier_state_follows_the_raw_events() {
    let mut app = windowed_app();
    assert_eq!(app.modifiers, no_modifiers());
    let shift = ModifiersState { shift: true, ctrl: false, alt: false, logo: false };
    app.handle_event(RawEvent::ModifiersChanged(shift));
    assert_eq!(app.modifiers, shift);
    assert!(app.events.is_empty());

    app.handle_event(RawEvent::Resized { width: 5, height: 5 });
    assert_eq!(app.modifiers, shift);

    let ctrl = ModifiersState { shift: false, ctrl: true, alt: false, logo: false };
    let input = KeyboardInput {
        scancode: 0x2C,
        state: ElementState::Pressed,
        virtual_keycode: Some(VirtualKeyCode::Z),
        modifiers: ctrl,
    };
    app.handle_event(RawEvent::KeyboardInput(input));
    assert_eq!(app.modifiers, ctrl);
    assert_eq!(
        app.events.last(),
        Some(&AppEvent::KeyDown(KeyDownEvent {
            code: String::from("KeyZ"),
            key: String::from("z"),
            shift: false,
            alt: false,
            ctrl: true,
        }))
    );

    let alt = ModifiersState { shift: false, ctrl: false, alt: true, logo: false };
    app.handle_event(RawEvent::MouseInput {
        state: ElementState::Pressed,
        button: MouseButton::Left,
        modifiers: alt,
    });
    assert_eq!(app.modifiers, alt);
    app.handle_event(RawEvent::CursorMoved {
        x: F64Bits { bits: 0 },
        y: F64Bits { bits: 0 },
        modifiers: shift,
    });
    assert_eq!(app.modifiers, shift);
}
