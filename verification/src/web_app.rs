//! The browser backend: raw document events in, canonical events out.
//!
//! The host registers one listener per kind of document event and hands each
//! occurrence to [`App::handle_event`]. Once per redraw tick it calls
//! [`App::poll_events`], which shows the queue to the application and clears
//! it.

use vstd::prelude::*;
use vstd::string::*;
use vstd::utf8::*;

use crate::config::AppConfig;
use crate::events::{
    AppEvent, AppEventView, F64Bits, KeyDownEvent, KeyEventView, KeyUpEvent, MouseButtonEvent,
};
use crate::file_drop::{BufferState, DroppedFiles, DroppedFilesView, File};

verus! {

/// A mouse button, as the browser names it.
#[derive(Clone, Copy, Debug, PartialEq, Eq, Structural)]
pub enum MouseButton {
    Left,
    Wheel,
    Right,
    Button4,
    Button5,
}

/// The canonical id of a browser mouse button.
pub open spec fn button_id(button: MouseButton) -> usize {
    match button {
        MouseButton::Left => 0,
        MouseButton::Wheel => 1,
        MouseButton::Right => 2,
        MouseButton::Button4 => 3,
        MouseButton::Button5 => 4,
    }
}

/// Computes the canonical id of a browser mouse button.
pub fn mouse_button_id(button: MouseButton) -> (id: usize)
    ensures
        id == button_id(button),
{
    match button {
        MouseButton::Left => 0,
        MouseButton::Wheel => 1,
        MouseButton::Right => 2,
        MouseButton::Button4 => 3,
        MouseButton::Button5 => 4,
    }
}

/// A key press or release, as the browser reports it: the labels come
/// ready-made, and the event carries its own modifier flags.
#[derive(Debug, PartialEq, Eq)]
pub struct KeyboardEvent {
    pub code: String,
    pub key: String,
    pub shift: bool,
    pub alt: bool,
    pub ctrl: bool,
}

impl View for KeyboardEvent {
    type V = KeyEventView;

    open spec fn view(&self) -> KeyEventView {
        KeyEventView {
            code: self.code@,
            key: self.key@,
            shift: self.shift,
            alt: self.alt,
            ctrl: self.ctrl,
        }
    }
}

/// One raw event of the document.
#[derive(Debug, PartialEq, Eq)]
pub enum WebEvent {
    MouseDown(MouseButton),
    MouseUp(MouseButton),
    /// The pointer moved; the position is already relative to the canvas.
    MouseMove { x: F64Bits, y: F64Bits },
    KeyDown(KeyboardEvent),
    KeyUp(KeyboardEvent),
    /// The canvas now has this size.
    Resize { width: u32, height: u32 },
    /// Files were dropped on the canvas; these are their names, in the
    /// order the browser lists them.
    Drop { names: Vec<String> },
}

/// Whether a key label stands for one character of text: its UTF-8 form is
/// exactly one byte long. Labels of control keys ("Tab", "Backspace") are
/// longer, and so is any single character outside ASCII.
pub open spec fn is_text_label(key: Seq<char>) -> bool {
    key.len() == 1 && key[0] as u32 <= 0x7F
}

/// The character a text label stands for.
pub open spec fn label_text(key: Seq<char>) -> char {
    key[0]
}

/// The `FileDropped` events for the given file names, in the same order.
pub open spec fn file_dropped_events(names: Seq<String>) -> Seq<AppEventView> {
    Seq::new(names.len(), |i: int| AppEventView::FileDropped(names[i]@))
}

/// The canonical events one raw event stands for, in queue order.
///
/// Every raw event yields exactly one canonical event, with two exceptions:
/// a key release whose label is one character of text is preceded by that
/// character as text input, and a drop yields one event per file.
pub open spec fn translated(event: WebEvent) -> Seq<AppEventView> {
    match event {
        WebEvent::MouseDown(button) => seq![
            AppEventView::MouseDown(MouseButtonEvent { button: button_id(button) }),
        ],
        WebEvent::MouseUp(button) => seq![
            AppEventView::MouseUp(MouseButtonEvent { button: button_id(button) }),
        ],
        WebEvent::MouseMove { x, y } => seq![AppEventView::MousePos((x, y))],
        WebEvent::KeyDown(input) => seq![AppEventView::KeyDown(input@)],
        WebEvent::KeyUp(input) => if is_text_label(input.key@) {
            seq![AppEventView::CharEvent(label_text(input.key@)), AppEventView::KeyUp(input@)]
        } else {
            seq![AppEventView::KeyUp(input@)]
        },
        WebEvent::Resize { width, height } => seq![AppEventView::Resized((width, height))],
        WebEvent::Drop { names } => file_dropped_events(names@),
    }
}

/// Whether the listener for this event stops the browser's own handling of
/// it. A button press is left alone so that the canvas can take the focus,
/// and a resize has no default to stop.
pub open spec fn stops_default(event: WebEvent) -> bool {
    match event {
        WebEvent::MouseDown(_) => false,
        WebEvent::Resize { .. } => false,
        _ => true,
    }
}

/// Decides whether the listener for `event` stops the browser's own handling.
pub fn prevents_default(event: &WebEvent) -> (stop: bool)
    ensures
        stop == stops_default(*event),
{
    match event {
        WebEvent::MouseDown(_) => false,
        WebEvent::Resize { .. } => false,
        _ => true,
    }
}

/// The UTF-8 form of a text is at least as long as the text.
proof fn lemma_encoding_not_shorter(text: Seq<char>)
    ensures
        encode_utf8(text).len() >= text.len(),
    decreases text.len(),
{
    if text.len() > 0 {
        lemma_encoding_not_shorter(text.drop_first());
    }
}

/// A text is one byte long in UTF-8 exactly when it is one ASCII character.
pub proof fn lemma_text_label_bytes(key: Seq<char>)
    ensures
        is_text_label(key) <==> encode_utf8(key).len() == 1,
{
    if key.len() > 0 {
        lemma_encoding_not_shorter(key.drop_first());
        char_is_scalar(key[0]);
        if key.len() == 1 {
            assert(key.drop_first().len() == 0);
        }
    }
}

/// Decides whether a key label stands for one character of text.
pub fn label_is_text(key: &str) -> (text: bool)
    ensures
        text == is_text_label(key@),
{
    proof {
        lemma_text_label_bytes(key@);
    }
    key.as_bytes().len() == 1
}

/// The store after `count` more files were dropped, one after the other.
pub open spec fn added_files(files: DroppedFilesView, count: nat) -> DroppedFilesView
    decreases count,
{
    if count == 0 {
        files
    } else {
        added_files(files, (count - 1) as nat).added()
    }
}

/// The files a raw event brings into being: one per dropped name, with ids
/// that continue the drop order; none for any other event.
pub open spec fn new_files(files: DroppedFilesView, event: WebEvent) -> Seq<File> {
    match event {
        WebEvent::Drop { names } => Seq::new(
            names@.len(),
            |i: int| File { id: (files.buffers.len() + i) as usize },
        ),
        _ => Seq::empty(),
    }
}

/// The store after a raw event.
pub open spec fn files_after(files: DroppedFilesView, event: WebEvent) -> DroppedFilesView {
    match event {
        WebEvent::Drop { names } => added_files(files, names@.len()),
        _ => files,
    }
}

/// The application facade of the browser backend.
pub struct App {
    /// The canonical events of the current frame, oldest first.
    pub events: Vec<AppEvent>,
    /// Every file dropped so far.
    pub dropped_files: DroppedFiles,
}

impl App {
    /// The dropped files this application knows of.
    pub open spec fn files(&self) -> DroppedFilesView {
        self.dropped_files@
    }

    /// Creates the facade for a canvas in the document. There is no headless
    /// canvas: such a configuration is not accepted.
    pub fn new(config: AppConfig) -> (app: App)
        requires
            !config.headless,
        ensures
            app.events@.len() == 0,
            app.files().waiting.len() == 0,
            app.files().buffers.len() == 0,
    {
        App { events: Vec::new(), dropped_files: DroppedFiles::new() }
    }

    /// Registers dropped files: each gets a cell for its content and a
    /// `FileDropped` event in the current frame. Returns the files, whose
    /// reads the host now has to start.
    fn drop_files(&mut self, names: Vec<String>) -> (started: Vec<File>)
        ensures
            final(self).events.deep_view() == old(self).events.deep_view() + file_dropped_events(
                names@,
            ),
            final(self).files() == added_files(old(self).files(), names@.len()),
            started@ == Seq::new(
                names@.len(),
                |i: int| File { id: (old(self).files().buffers.len() + i) as usize },
            ),
    {
        let mut started: Vec<File> = Vec::new();
        let mut i: usize = 0;
        while i < names.len()
            invariant
                i <= names.len(),
                self.events.deep_view() == old(self).events.deep_view() + file_dropped_events(
                    names@,
                ).take(i as int),
                self.files() == added_files(old(self).files(), i as nat),
                self.files().buffers.len() == old(self).files().buffers.len() + i,
                started@ == Seq::new(
                    i as nat,
                    |k: int| File { id: (old(self).files().buffers.len() + k) as usize },
                ),
            decreases names.len() - i,
        {
            let ghost queue = self.events.deep_view();
            let name = names[i].clone();
            self.events.push(AppEvent::FileDropped(name));
            let file = self.dropped_files.add();
            started.push(file);
            proof {
                let dropped = AppEventView::FileDropped(names@[i as int]@);
                assert(self.events.deep_view() =~= queue.push(dropped));
                assert(file_dropped_events(names@).take(i + 1) =~= file_dropped_events(
                    names@,
                ).take(i as int).push(dropped));
            }
            i += 1;
        }
        proof {
            assert(file_dropped_events(names@).take(i as int) =~= file_dropped_events(names@));
        }
        started
    }

    /// Takes one raw event of the document: its canonical events join the
    /// queue in order, and dropped files are registered. Returns the files
    /// whose reads the host now has to start.
    pub fn handle_event(&mut self, event: WebEvent) -> (started: Vec<File>)
        ensures
            final(self).events.deep_view() == old(self).events.deep_view() + translated(event),
            final(self).files() == files_after(old(self).files(), event),
            started@ == new_files(old(self).files(), event),
    {
        let ghost queue = self.events.deep_view();
        match event {
            WebEvent::MouseDown(button) => {
                let id = mouse_button_id(button);
                self.events.push(AppEvent::MouseDown(MouseButtonEvent { button: id }));
                assert(self.events.deep_view() =~= queue + translated(event));
                Vec::new()
            },
            WebEvent::MouseUp(button) => {
                let id = mouse_button_id(button);
                self.events.push(AppEvent::MouseUp(MouseButtonEvent { button: id }));
                assert(self.events.deep_view() =~= queue + translated(event));
                Vec::new()
            },
            WebEvent::MouseMove { x, y } => {
                self.events.push(AppEvent::MousePos((x, y)));
                assert(self.events.deep_view() =~= queue + translated(event));
                Vec::new()
            },
            WebEvent::KeyDown(input) => {
                self.events.push(
                    AppEvent::KeyDown(
                        KeyDownEvent {
                            code: input.code,
                            key: input.key,
                            shift: input.shift,
                            alt: input.alt,
                            ctrl: input.ctrl,
                        },
                    ),
                );
                assert(self.events.deep_view() =~= queue + translated(event));
                Vec::new()
            },
            WebEvent::KeyUp(input) => {
                if label_is_text(input.key.as_str()) {
                    let text = input.key.as_str().get_char(0);
                    self.events.push(AppEvent::CharEvent(text));
                    assert(self.events.deep_view() =~= queue.push(AppEventView::CharEvent(text)));
                }
                let ghost with_text = self.events.deep_view();
                self.events.push(
                    AppEvent::KeyUp(
                        KeyUpEvent {
                            code: input.code,
                            key: input.key,
                            shift: input.shift,
                            alt: input.alt,
                            ctrl: input.ctrl,
                        },
                    ),
                );
                assert(self.events.deep_view() =~= with_text.push(AppEventView::KeyUp(input@)));
                assert(self.events.deep_view() =~= queue + translated(event));
                Vec::new()
            },
            WebEvent::Resize { width, height } => {
                self.events.push(AppEvent::Resized((width, height)));
                assert(self.events.deep_view() =~= queue + translated(event));
                Vec::new()
            },
            WebEvent::Drop { names } => self.drop_files(names),
        }
    }

    /// Takes the most recently dropped file that the application has not
    /// taken yet. Its content is read with [`App::dropped_file_state`].
    pub fn get_dropped_file(&mut self) -> (file: Option<File>)
        ensures
            final(self).events == old(self).events,
            final(self).files() == old(self).files().taken(),
            file == (if old(self).files().waiting.len() > 0 {
                Some(old(self).files().waiting.last())
            } else {
                None
            }),
            file matches Some(f) ==> final(self).files().state(f) is Some,
    {
        self.dropped_files.take()
    }

    /// What is known of the content of `file`; `None` if this application
    /// never saw it dropped.
    pub fn dropped_file_state(&self, file: File) -> (state: Option<&BufferState>)
        ensures
            state.deep_view() == self.files().state(file),
    {
        self.dropped_files.state(file)
    }

    /// The host finished reading `file` and delivers its bytes. This fills
    /// the cell of the file and touches nothing else: no event is queued.
    pub fn on_get_buffer(&mut self, file: File, data: Vec<u8>)
        ensures
            final(self).events == old(self).events,
            final(self).files() == old(self).files().with_data(file, data@),
    {
        self.dropped_files.read_finished(file, data);
    }

    /// The host could not read `file`. This fills the cell of the file with
    /// the failure and touches nothing else: no event is queued.
    pub fn on_error(&mut self, file: File, reason: &str)
        ensures
            final(self).events == old(self).events,
            final(self).files() == old(self).files().with_failure(file, reason@),
    {
        self.dropped_files.read_failed(file, reason);
    }

    /// Runs one frame: the application sees the queue as it stands, then the
    /// queue is cleared. The answer is always `true`: this backend has no way
    /// to end the loop.
    pub fn poll_events<F: FnOnce(&mut App)>(&mut self, callback: F) -> (running: bool)
        requires
            forall|app: &mut App| call_requires(callback, (app,)),
        ensures
            running,
            final(self).events@.len() == 0,
            (exists|app: &mut App|
                {
                    &&& #[trigger] call_ensures(callback, (app,), ())
                    &&& *app == *old(self)
                    &&& final(self).files() == final(app).files()
                }),
    {
        callback(self);
        self.events.clear();
        true
    }

    /// The parameters of the page: the tokens of its query string, given as
    /// the browser holds it, question mark included.
    pub fn get_params(search: &str) -> (params: Vec<String>)
        ensures
            params.deep_view() == crate::params::query_tokens(search@),
    {
        crate::params::parse_query(search)
    }

    /// Fullscreen cannot be entered from here: a browser grants it only
    /// inside its own event handlers. The call changes nothing.
    pub fn set_fullscreen(&mut self, b: bool)
        ensures
            *final(self) == *old(self),
    {
    }

    /// A page cannot end its own process: the call does nothing.
    pub fn exit() {
    }
}

} // verus!
