use uni_app::config::AppConfig;
use uni_app::events::{AppEvent, F64Bits, KeyDownEvent, KeyUpEvent, MouseButtonEvent};
use uni_app::file_drop::{BufferState, File};
use uni_app::web_app::{label_is_text, mouse_button_id, prevents_default, App, KeyboardEvent, MouseButton, WebEvent};

fn page() -> App {
    App::new(AppConfig {
        title: String::from("page"),
        size: (320, 200),
        vsync: true,
        resizable: true,
        fullscreen: false,
        headless: false,
        show_cursor: true,
        intercept_close_request: false,
    })
}

fn keyboard(key: &str, code: &str) -> KeyboardEvent {
    KeyboardEvent {
        code: String::from(code),
        key: String::from(key),
        shift: true,
        alt: false,
        ctrl: true,
    }
}

#[test]
fn browser_buttons_have_fixed_ids() {
    assert_eq!(mouse_button_id(MouseButton::Left), 0);
    assert_eq!(mouse_button_id(MouseButton::Wheel), 1);
    assert_eq!(mouse_button_id(MouseButton::Right), 2);
    assert_eq!(mouse_button_id(MouseButton::Button4), 3);
    assert_eq!(mouse_button_id(MouseButton::Button5), 4);
}

#[test]
fn new_page_has_nothing_queued_and_no_files() {
    let mut app = page();
    assert!(app.events.is_empty());
    assert_eq!(app.dropped_files.count(), 0);
    assert_eq!(app.get_dropped_file(), None);
}

#[test]
fn mouse_events_join_the_queue() {
    let mut app = page();
    assert!(app.handle_event(WebEvent::MouseDown(MouseButton::Button5)).is_empty());
    assert!(app.handle_event(WebEvent::MouseUp(MouseButton::Wheel)).is_empty());
    app.handle_event(WebEvent::MouseMove {
        x: F64Bits { bits: f64::to_bits(3.75) },
        y: F64Bits { bits: f64::to_bits(100.0) },
    });
    assert_eq!(
        app.events,
        vec![
            AppEvent::MouseDown(MouseButtonEvent { button: 4 }),
            AppEvent::MouseUp(MouseButtonEvent { button: 1 }),
            AppEvent::MousePos((
                F64Bits { bits: f64::to_bits(3.75) },
                F64Bits { bits: f64::to_bits(100.0) }
            )),
        ]
    );
}

#[test]
fn key_press_keeps_the_labels_of_the_browser() {
    let mut app = page();
    app.handle_event(WebEvent::KeyDown(keyboard("a", "KeyA")));
    assert_eq!(
        app.events,
        vec![AppEvent::KeyDown(KeyDownEvent {
            code: String::from("KeyA"),
            key: String::from("a"),
            shift: true,
            alt: false,
            ctrl: true,
        })]
    );
}

#[test]
fn release_of_a_text_key_is_preceded_by_its_character() {
    let mut app = page();
    app.handle_event(WebEvent::KeyUp(keyboard("q", "KeyA")));
    assert_eq!(
        app.events,
        vec![
            AppEvent::CharEvent('q'),
            AppEvent::KeyUp(KeyUpEvent {
                code: String::from("KeyA"),
                key: String::from("q"),
                shift: true,
                alt: false,
                ctrl: true,
            }),
        ]
    );
}

#[test]
fn release_of_a_control_key_commits_no_text() {
    let mut app = page();
    app.handle_event(WebEvent::KeyUp(keyboard("Tab", "Tab")));
    app.handle_event(WebEvent::KeyUp(keyboard("", "")));
    assert_eq!(app.events.len(), 2);
    assert!(matches!(app.events[0], AppEvent::KeyUp(_)));
    assert!(matches!(app.events[1], AppEvent::KeyUp(_)));
}

#[test]
fn text_labels_are_one_byte_long() {
    assert!(label_is_text("a"));
    assert!(label_is_text(" "));
    assert!(label_is_text("\u{7f}"));
    assert!(!label_is_text(""));
    assert!(!label_is_text("ab"));
    assert!(!label_is_text("\u{e9}"));
    assert!(!label_is_text("\u{80}"));
    assert!(!label_is_text("Backspace"));
}

#[test]
fn release_of_a_key_outside_ascii_commits_no_text() {
    let mut app = page();
    app.handle_event(WebEvent::KeyUp(keyboard("\u{e9}", "Digit2")));
    assert_eq!(app.events.len(), 1);
    assert!(matches!(app.events[0], AppEvent::KeyUp(_)));
}

#[test]
fn resize_joins_the_queue() {
    let mut app = page();
    app.handle_event(WebEvent::Resize { width: 0, height: 0 });
    app.handle_event(WebEvent::Resize { width: 1024, height: 512 });
    assert_eq!(app.events, vec![AppEvent::Resized((0, 0)), AppEvent::Resized((1024, 512))]);
}

#[test]
fn only_button_press_and_resize_keep_the_default_handling() {
    assert!(!prevents_default(&WebEvent::MouseDown(MouseButton::Left)));
    assert!(!prevents_default(&WebEvent::Resize { width: 1, height: 1 }));
    assert!(prevents_default(&WebEvent::MouseUp(MouseButton::Left)));
    assert!(prevents_default(&WebEvent::MouseMove {
        x: F64Bits { bits: 0 },
        y: F64Bits { bits: 0 }
    }));
    assert!(prevents_default(&WebEvent::KeyDown(keyboard("a", "KeyA"))));
    assert!(prevents_default(&WebEvent::KeyUp(keyboard("a", "KeyA"))));
    assert!(prevents_default(&WebEvent::Drop { names: Vec::new() }));
}

#[test]
fn dropped_file_is_announced_at_once_and_filled_later() {
    let mut app = page();
    let started = app.handle_event(WebEvent::Drop { names: vec![String::from("a.txt")] });
    assert_eq!(started, vec![File { id: 0 }]);
    assert_eq!(app.events, vec![AppEvent::FileDropped(String::from("a.txt"))]);
    assert_eq!(app.dropped_file_state(File { id: 0 }), Some(&BufferState::Empty));

    assert!(app.poll_events(|app: &mut App| {
        assert_eq!(app.events, vec![AppEvent::FileDropped(String::from("a.txt"))]);
    }));
    app.on_get_buffer(File { id: 0 }, vec![1, 2, 3]);
    assert!(app.events.is_empty());

    let file = app.get_dropped_file();
    assert_eq!(file, Some(File { id: 0 }));
    assert_eq!(app.dropped_file_state(File { id: 0 }), Some(&BufferState::Buffer(vec![1, 2, 3])));
    assert_eq!(app.get_dropped_file(), None);
}

#[test]
fn file_taken_before_its_bytes_arrive_still_gets_them() {
    let mut app = page();
    app.handle_event(WebEvent::Drop { names: vec![String::from("a.txt")] });
    let file = app.get_dropped_file().unwrap();
    assert_eq!(app.dropped_file_state(file), Some(&BufferState::Empty));
    app.on_get_buffer(file, vec![9]);
    assert_eq!(app.dropped_file_state(file), Some(&BufferState::Buffer(vec![9])));
}

#[test]
fn failed_read_is_reported_in_the_cell() {
    let mut app = page();
    let started = app.handle_event(WebEvent::Drop { names: vec![String::from("a.txt")] });
    app.on_error(started[0], "Error while reading a.txt : boom");
    assert!(app.events.len() == 1);
    assert_eq!(
        app.dropped_file_state(started[0]),
        Some(&BufferState::Error(String::from(
            "Fail to read file from web Error while reading a.txt : boom"
        )))
    );
    assert_eq!(app.get_dropped_file(), Some(started[0]));
}

#[test]
fn several_files_are_announced_in_order_and_taken_latest_first() {
    let mut app = page();
    app.handle_event(WebEvent::MouseDown(MouseButton::Left));
    let first = app.handle_event(WebEvent::Drop {
        names: vec![String::from("one"), String::from("two")],
    });
    let second = app.handle_event(WebEvent::Drop { names: vec![String::from("three")] });
    let none = app.handle_event(WebEvent::Drop { names: Vec::new() });
    assert_eq!(first, vec![File { id: 0 }, File { id: 1 }]);
    assert_eq!(second, vec![File { id: 2 }]);
    assert!(none.is_empty());
    assert_eq!(
        app.events,
        vec![
            AppEvent::MouseDown(MouseButtonEvent { button: 0 }),
            AppEvent::FileDropped(String::from("one")),
            AppEvent::FileDropped(String::from("two")),
            AppEvent::FileDropped(String::from("three")),
        ]
    );
    assert_eq!(app.get_dropped_file(), Some(File { id: 2 }));
    assert_eq!(app.get_dropped_file(), Some(File { id: 1 }));
    let later = app.handle_event(WebEvent::Drop { names: vec![String::from("four")] });
    assert_eq!(later, vec![File { id: 3 }]);
    assert_eq!(app.get_dropped_file(), Some(File { id: 3 }));
    assert_eq!(app.get_dropped_file(), Some(File { id: 0 }));
    assert_eq!(app.get_dropped_file(), None);
    assert_eq!(app.dropped_files.count(), 4);
}

#[test]
fn frame_clears_the_queue_and_goes_on() {
    let mut app = page();
    app.handle_event(WebEvent::MouseDown(MouseButton::Left));
    app.handle_event(WebEvent::MouseUp(MouseButton::Left));
    let running = app.poll_events(|app: &mut App| {
        assert_eq!(app.events.len(), 2);
    });
    assert!(running);
    assert_eq!(app.events.len(), 0);
    let running = app.poll_events(|app: &mut App| {
        assert_eq!(app.events.len(), 0);
    });
    assert!(running);
}

#[test]
fn fullscreen_and_exit_do_nothing_in_a_page() {
    let mut app = page();
    app.handle_event(WebEvent::MouseDown(MouseButton::Left));
    app.handle_event(WebEvent::Drop { names: vec![String::from("kept")] });
    app.set_fullscreen(true);
    app.set_fullscreen(false);
    App::exit();
    assert_eq!(app.events.len(), 2);
    assert_eq!(app.dropped_files.count(), 1);
    assert_eq!(app.get_dropped_file(), Some(File { id: 0 }));
}

#[test]
fn query_string_is_cut_into_tokens() {
    assert_eq!(App::get_params("?a=1&b=2"), vec![String::from("a=1"), String::from("b=2")]);
    assert_eq!(App::get_params("?level"), vec![String::from("level")]);
}
