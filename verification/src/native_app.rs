//! The native backend: raw window events in, canonical events out, and the
//! decisions of the blocking frame loop.
//!
//! The host owns the window, the GL context and the operating system's event
//! loop. Once per iteration it hands the pending raw events to
//! [`App::handle_events`], resizes its context if the answer says so, and
//! lets [`App::deliver`] end the iteration: that call shows the queue to the
//! application if the loop goes on, and tells the host whether to present
//! the surface and whether to leave the loop.

use vstd::prelude::*;
use vstd::string::*;

use crate::config::AppConfig;
use crate::events::{
    AppEvent, AppEventView, F64Bits, KeyDownEvent, KeyEventView, KeyUpEvent, MouseButtonEvent,
    F64_ONE_BITS,
};
use crate::native_keycode::{
    code_label, key_label, key_tag, translate_scan_code, translate_virtual_key, virtual_key_tag,
    ScanCode, VirtualKeyCode,
};

verus! {

/// A mouse button, as the native host names it.
#[derive(Clone, Copy, Debug, PartialEq, Eq, Structural)]
pub enum MouseButton {
    Left,
    Middle,
    Right,
    /// A further button of the device, with the number the host gives it.
    Other(u8),
}

/// Whether a key or button went down or came up.
#[derive(Clone, Copy, Debug, PartialEq, Eq, Structural)]
pub enum ElementState {
    Pressed,
    Released,
}

/// Which modifier keys are held down.
#[derive(Clone, Copy, Debug, PartialEq, Eq, Structural)]
pub struct ModifiersState {
    pub shift: bool,
    pub ctrl: bool,
    pub alt: bool,
    pub logo: bool,
}

impl ModifiersState {
    /// No modifier key is held.
    pub open spec fn none() -> ModifiersState {
        ModifiersState { shift: false, ctrl: false, alt: false, logo: false }
    }
}

impl Default for ModifiersState {
    fn default() -> (r: ModifiersState)
        ensures
            r == ModifiersState::none(),
    {
        ModifiersState { shift: false, ctrl: false, alt: false, logo: false }
    }
}

/// A key press or release, as the native host reports it.
#[derive(Clone, Copy, Debug, PartialEq, Eq)]
pub struct KeyboardInput {
    /// Where the key sits on the keyboard.
    pub scancode: ScanCode,
    pub state: ElementState,
    /// What the key means under the current layout, if the host knows.
    pub virtual_keycode: Option<VirtualKeyCode>,
    /// The modifier keys held when the key moved.
    pub modifiers: ModifiersState,
}

/// One raw event of the native host.
#[derive(Clone, Copy, Debug, PartialEq, Eq)]
pub enum RawEvent {
    MouseInput { state: ElementState, button: MouseButton, modifiers: ModifiersState },
    /// The pointer moved to this position, relative to the surface origin.
    CursorMoved { x: F64Bits, y: F64Bits, modifiers: ModifiersState },
    KeyboardInput(KeyboardInput),
    /// The host committed one character of text.
    ReceivedCharacter(char),
    /// The surface now has this size.
    Resized { width: u32, height: u32 },
    /// The user asked to close the window.
    CloseRequested,
    /// The set of held modifier keys changed.
    ModifiersChanged(ModifiersState),
    /// Anything else the host reports; it stands for no canonical event.
    Other,
}

/// The canonical id of a native mouse button.
pub open spec fn button_id(button: MouseButton) -> usize {
    match button {
        MouseButton::Left => 0,
        MouseButton::Middle => 1,
        MouseButton::Right => 2,
        MouseButton::Other(number) => number as usize,
    }
}

/// Computes the canonical id of a native mouse button.
pub fn mouse_button_id(button: MouseButton) -> (id: usize)
    ensures
        id == button_id(button),
{
    match button {
        MouseButton::Left => 0,
        MouseButton::Middle => 1,
        MouseButton::Right => 2,
        MouseButton::Other(number) => number as usize,
    }
}

/// The canonical `key` label of a key event: the label of its virtual key,
/// or the name of the virtual key itself where the table has no label; empty
/// if the host knows no virtual key.
pub open spec fn virtual_key_name(input: KeyboardInput) -> Seq<char> {
    match input.virtual_keycode {
        Some(key) => if key_label(key).len() == 0 {
            key_tag(key)
        } else {
            key_label(key)
        },
        None => Seq::empty(),
    }
}

/// The canonical `code` label of a key event.
pub open spec fn scan_code_name(input: KeyboardInput) -> Seq<char> {
    code_label(input.scancode)
}

/// Computes the canonical `key` label of a key event.
pub fn get_virtual_key(input: KeyboardInput) -> (name: String)
    ensures
        name@ == virtual_key_name(input),
{
    match input.virtual_keycode {
        Some(key) => {
            let label = translate_virtual_key(key);
            if label.unicode_len() == 0 {
                String::from_str(virtual_key_tag(key))
            } else {
                String::from_str(label)
            }
        },
        None => String::new(),
    }
}

/// Computes the canonical `code` label of a key event.
pub fn get_scan_code(input: KeyboardInput) -> (name: String)
    ensures
        name@ == scan_code_name(input),
{
    String::from_str(translate_scan_code(input.scancode))
}

/// The content of the canonical key event for `input` under the modifier
/// state `modifiers`.
pub open spec fn key_event(input: KeyboardInput, modifiers: ModifiersState) -> KeyEventView {
    KeyEventView {
        code: scan_code_name(input),
        key: virtual_key_name(input),
        shift: modifiers.shift,
        alt: modifiers.alt,
        ctrl: modifiers.ctrl,
    }
}

/// The canonical event one raw event stands for, if any.
///
/// A resize to 0 by 0 stands for none: some hosts send it when a window is
/// minimised, and it says nothing about the surface.
pub open spec fn translated(event: RawEvent, modifiers: ModifiersState) -> Option<AppEventView> {
    match event {
        RawEvent::MouseInput { state, button, .. } => match state {
            ElementState::Pressed => Some(
                AppEventView::MouseDown(MouseButtonEvent { button: button_id(button) }),
            ),
            ElementState::Released => Some(
                AppEventView::MouseUp(MouseButtonEvent { button: button_id(button) }),
            ),
        },
        RawEvent::CursorMoved { x, y, .. } => Some(AppEventView::MousePos((x, y))),
        RawEvent::KeyboardInput(input) => match input.state {
            ElementState::Pressed => Some(AppEventView::KeyDown(key_event(input, modifiers))),
            ElementState::Released => Some(AppEventView::KeyUp(key_event(input, modifiers))),
        },
        RawEvent::ReceivedCharacter(c) => Some(AppEventView::CharEvent(c)),
        RawEvent::Resized { width, height } => if width == 0 && height == 0 {
            None
        } else {
            Some(AppEventView::Resized((width, height)))
        },
        RawEvent::CloseRequested => Some(AppEventView::CloseRequested),
        RawEvent::ModifiersChanged(_) => None,
        RawEvent::Other => None,
    }
}

/// Translates one raw event, given the modifier keys held when it happened.
pub fn translate_event(event: RawEvent, modifiers: ModifiersState) -> (translation: Option<
    AppEvent,
>)
    ensures
        translation.deep_view() == translated(event, modifiers),
{
    match event {
        RawEvent::MouseInput { state, button, .. } => {
            let event = MouseButtonEvent { button: mouse_button_id(button) };
            match state {
                ElementState::Pressed => Some(AppEvent::MouseDown(event)),
                ElementState::Released => Some(AppEvent::MouseUp(event)),
            }
        },
        RawEvent::CursorMoved { x, y, .. } => Some(AppEvent::MousePos((x, y))),
        RawEvent::KeyboardInput(input) => match input.state {
            ElementState::Pressed => Some(
                AppEvent::KeyDown(
                    KeyDownEvent {
                        key: get_virtual_key(input),
                        code: get_scan_code(input),
                        shift: modifiers.shift,
                        alt: modifiers.alt,
                        ctrl: modifiers.ctrl,
                    },
                ),
            ),
            ElementState::Released => Some(
                AppEvent::KeyUp(
                    KeyUpEvent {
                        key: get_virtual_key(input),
                        code: get_scan_code(input),
                        shift: modifiers.shift,
                        alt: modifiers.alt,
                        ctrl: modifiers.ctrl,
                    },
                ),
            ),
        },
        RawEvent::ReceivedCharacter(c) => Some(AppEvent::CharEvent(c)),
        RawEvent::Resized { width, height } => {
            if width == 0 && height == 0 {
                None
            } else {
                Some(AppEvent::Resized((width, height)))
            }
        },
        RawEvent::CloseRequested => Some(AppEvent::CloseRequested),
        RawEvent::ModifiersChanged(_) => None,
        RawEvent::Other => None,
    }
}

/// A video mode of a monitor.
#[derive(Clone, Copy, Debug, PartialEq, Eq, Structural)]
pub struct VideoMode {
    pub width: u32,
    pub height: u32,
}

impl VideoMode {
    /// Number of pixels of the mode.
    pub open spec fn area(self) -> int {
        self.width * self.height
    }

    /// Whether the mode is at least as wide and as high as `size`.
    pub open spec fn covers(self, size: (u32, u32)) -> bool {
        self.width >= size.0 && self.height >= size.1
    }
}

/// Whether `modes[index]` is the mode to use for a surface of `size`: it
/// covers the size, no covering mode has fewer pixels, and of the covering
/// modes with as few pixels it comes first in the list.
pub open spec fn is_fullscreen_mode(modes: Seq<VideoMode>, size: (u32, u32), index: int) -> bool {
    &&& 0 <= index < modes.len()
    &&& modes[index].covers(size)
    &&& forall|j: int|
        0 <= j < modes.len() && (#[trigger] modes[j]).covers(size) ==> modes[index].area()
            <= modes[j].area()
    &&& forall|j: int|
        0 <= j < index && (#[trigger] modes[j]).covers(size) ==> modes[index].area()
            < modes[j].area()
}

/// Whether any mode of the list covers `size`.
pub open spec fn has_fullscreen_mode(modes: Seq<VideoMode>, size: (u32, u32)) -> bool {
    exists|j: int| 0 <= j < modes.len() && (#[trigger] modes[j]).covers(size)
}

/// Picks the video mode for the requested surface size: the index, in
/// `modes`, of the smallest mode that covers the size, the first of them if
/// several are as small. There is none exactly when no mode covers the size.
pub fn find_fullscreen_mode(modes: &Vec<VideoMode>, config: &AppConfig) -> (found: Option<usize>)
    ensures
        (match found {
            Some(index) => is_fullscreen_mode(modes@, config.size, index as int),
            None => !has_fullscreen_mode(modes@, config.size),
        }),
{
    let mut found: Option<usize> = None;
    let mut smallest: u64 = 0;
    let mut i: usize = 0;
    while i < modes.len()
        invariant
            i <= modes.len(),
            (match found {
                Some(index) => {
                    &&& index < i
                    &&& smallest == modes@[index as int].area()
                    &&& is_fullscreen_mode(modes@.take(i as int), config.size, index as int)
                },
                None => !has_fullscreen_mode(modes@.take(i as int), config.size),
            }),
        decreases modes.len() - i,
    {
        let mode = modes[i];
        assert(mode.width * mode.height <= 0xFFFF_FFFF * 0xFFFF_FFFF) by (nonlinear_arith)
            requires
                0 <= mode.width <= 0xFFFF_FFFF,
                0 <= mode.height <= 0xFFFF_FFFF,
        ;
        let area: u64 = (mode.width as u64) * (mode.height as u64);
        let qualifies = mode.width >= config.size.0 && mode.height >= config.size.1;
        let better = match found {
            Some(_) => area < smallest,
            None => true,
        };
        proof {
            let before = modes@.take(i as int);
            let after = modes@.take(i + 1);
            assert forall|j: int| 0 <= j < i implies after[j] == before[j] by {}
            assert(after[i as int] == mode);
            if qualifies && better {
                assert(is_fullscreen_mode(after, config.size, i as int));
            } else {
                match found {
                    Some(index) => {
                        assert(is_fullscreen_mode(after, config.size, index as int));
                    },
                    None => {
                        assert(!has_fullscreen_mode(after, config.size));
                    },
                }
            }
        }
        if qualifies && better {
            found = Some(i);
            smallest = area;
        }
        i += 1;
    }
    proof {
        assert(modes@.take(i as int) =~= modes@);
    }
    found
}

/// The operating system of the process, as far as the frame loop cares.
#[derive(Clone, Copy, Debug, PartialEq, Eq, Structural)]
pub enum Platform {
    /// The system whose users quit an application with the logo key and Q.
    MacOs,
    Other,
}

/// The surface an application draws on.
#[derive(Clone, Copy, Debug, PartialEq, Eq)]
pub enum WindowContext {
    /// A window on the desktop, with the size last set for its surface.
    Windowed { size: (u32, u32) },
    /// A window that owns the screen in an exclusive video mode, given by
    /// its index in the monitor's list, with the size last set for its
    /// surface.
    Fullscreen { video_mode: usize, size: (u32, u32) },
    /// No window at all.
    Headless,
}

impl WindowContext {
    /// The size last set for the surface; a headless context has none.
    pub open spec fn size(self) -> Option<(u32, u32)> {
        match self {
            WindowContext::Windowed { size } => Some(size),
            WindowContext::Fullscreen { size, .. } => Some(size),
            WindowContext::Headless => None,
        }
    }

    /// The context with the size of its surface set anew; a headless
    /// context stays as it is.
    pub open spec fn resized(self, size: (u32, u32)) -> WindowContext {
        match self {
            WindowContext::Windowed { .. } => WindowContext::Windowed { size },
            WindowContext::Fullscreen { video_mode, .. } => WindowContext::Fullscreen {
                video_mode,
                size,
            },
            WindowContext::Headless => WindowContext::Headless,
        }
    }

    /// The scale factor of the surface: the one the host reports for the
    /// window, or exactly 1 where there is no window.
    pub fn hidpi_factor(&self, host_scale: F64Bits) -> (factor: F64Bits)
        ensures
            factor == (if *self is Headless {
                F64Bits { bits: F64_ONE_BITS }
            } else {
                host_scale
            }),
    {
        match self {
            WindowContext::Headless => F64Bits::one(),
            _ => host_scale,
        }
    }

    /// Whether presenting a frame does anything: a headless context has no
    /// buffers to swap.
    pub fn swap_buffers(&self) -> (present: bool)
        ensures
            present == !(*self is Headless),
    {
        match self {
            WindowContext::Headless => false,
            _ => true,
        }
    }
}

/// The context a new application gets: headless if the configuration asks
/// for it; else fullscreen if it asks for that and the monitor has a mode
/// that covers the requested size; else a window of the requested size.
pub open spec fn is_initial_window(
    config: AppConfig,
    modes: Seq<VideoMode>,
    window: WindowContext,
) -> bool {
    if config.headless {
        window == WindowContext::Headless
    } else if config.fullscreen && has_fullscreen_mode(modes, config.size) {
        &&& window matches WindowContext::Fullscreen { video_mode, size }
        &&& is_fullscreen_mode(modes, config.size, video_mode as int)
        &&& size == (modes[video_mode as int].width, modes[video_mode as int].height)
    } else {
        window == WindowContext::Windowed { size: config.size }
    }
}

/// What the host has to do to its window after a fullscreen request.
#[derive(Clone, Copy, Debug, PartialEq, Eq, Structural)]
pub enum FullscreenAction {
    /// Nothing.
    Keep,
    /// Enter the exclusive video mode with this index in the monitor's list.
    Enter(usize),
    /// Go back to a window on the desktop.
    Leave,
}

/// Whether `after` and `action` answer a fullscreen request made of
/// `window`, for a surface of `size` on a monitor with these `modes`.
///
/// A headless context ignores the request. Switching off always goes back
/// to a window. Switching on enters the mode that [`is_fullscreen_mode`]
/// singles out, also where the context is fullscreen already; where no mode
/// covers the size, nothing changes. The size last set for the surface is
/// kept throughout.
pub open spec fn fullscreen_toggled(
    window: WindowContext,
    on: bool,
    size: (u32, u32),
    modes: Seq<VideoMode>,
    after: WindowContext,
    action: FullscreenAction,
) -> bool {
    match window.size() {
        None => after == window && action == FullscreenAction::Keep,
        Some(surface) => if !on {
            after == (WindowContext::Windowed { size: surface }) && action
                == FullscreenAction::Leave
        } else if has_fullscreen_mode(modes, size) {
            &&& action matches FullscreenAction::Enter(video_mode)
            &&& is_fullscreen_mode(modes, size, video_mode as int)
            &&& after == (WindowContext::Fullscreen { video_mode, size: surface })
        } else {
            after == window && action == FullscreenAction::Keep
        },
    }
}

/// What the host has to do after one raw event, or after a batch of them.
#[derive(Debug, PartialEq, Eq)]
pub struct EventOutcome {
    /// Whether the frame loop goes on.
    pub running: bool,
    /// The size to give the surface of the context, if it changed.
    pub resize: Option<(u32, u32)>,
}

/// What the host has to do after a frame was delivered.
#[derive(Clone, Copy, Debug, PartialEq, Eq, Structural)]
pub struct FrameOutcome {
    /// Whether to present the surface.
    pub present: bool,
    /// Whether to leave the frame loop.
    pub exit: bool,
}

/// The application facade of the native backend.
pub struct App {
    pub window: WindowContext,
    /// Set by the application to leave the frame loop after this frame.
    pub exiting: bool,
    /// The modifier keys held, as of the last raw event that said so.
    pub modifiers: ModifiersState,
    /// The canonical events of the current frame, oldest first.
    pub events: Vec<AppEvent>,
    pub config: AppConfig,
    pub platform: Platform,
}

/// Mathematical content of an [`App`].
pub struct AppView {
    pub window: WindowContext,
    pub exiting: bool,
    pub modifiers: ModifiersState,
    pub events: Seq<AppEventView>,
    pub config: AppConfig,
    pub platform: Platform,
}

impl View for App {
    type V = AppView;

    open spec fn view(&self) -> AppView {
        AppView {
            window: self.window,
            exiting: self.exiting,
            modifiers: self.modifiers,
            events: self.events.deep_view(),
            config: self.config,
            platform: self.platform,
        }
    }
}

/// The modifier state after a raw event: every keyboard and mouse event
/// says which modifier keys are held, and so does the host's own notice of a
/// change; after any other event the state is what it was.
pub open spec fn modifiers_after(modifiers: ModifiersState, event: RawEvent) -> ModifiersState {
    match event {
        RawEvent::MouseInput { modifiers: held, .. } => held,
        RawEvent::CursorMoved { modifiers: held, .. } => held,
        RawEvent::KeyboardInput(input) => input.modifiers,
        RawEvent::ModifiersChanged(held) => held,
        _ => modifiers,
    }
}

/// Whether a raw event is the quit shortcut: on the one platform that has
/// it, any move of the Q key while the logo key is held.
pub open spec fn is_quit_shortcut(
    platform: Platform,
    modifiers: ModifiersState,
    event: RawEvent,
) -> bool {
    &&& platform is MacOs
    &&& modifiers.logo
    &&& event matches RawEvent::KeyboardInput(input)
    &&& input.virtual_keycode == Some(VirtualKeyCode::Q)
}

impl AppView {
    /// The size a raw event asks the context to take: that of a resize
    /// notice with no dimension at 0, when there is a window to resize.
    pub open spec fn resize_request(self, event: RawEvent) -> Option<(u32, u32)> {
        match event {
            RawEvent::Resized { width, height } => if width != 0 && height != 0
                && !(self.window is Headless) {
                Some((width, height))
            } else {
                None
            },
            _ => None,
        }
    }

    /// Whether the frame loop goes on after a raw event: it ends on a close
    /// request that the application does not intercept, and on the quit
    /// shortcut.
    pub open spec fn keeps_running(self, event: RawEvent) -> bool {
        &&& event is CloseRequested ==> self.config.intercept_close_request
        &&& !is_quit_shortcut(self.platform, modifiers_after(self.modifiers, event), event)
    }

    /// The state after a raw event: the modifier state is brought up to
    /// date first, then the event is translated under it and joins the
    /// queue, and the context takes the size the event asks for.
    pub open spec fn handled(self, event: RawEvent) -> AppView {
        let modifiers = modifiers_after(self.modifiers, event);
        AppView {
            window: match self.resize_request(event) {
                Some(size) => self.window.resized(size),
                None => self.window,
            },
            modifiers,
            events: match translated(event, modifiers) {
                Some(canonical) => self.events.push(canonical),
                None => self.events,
            },
            ..self
        }
    }

    /// The state after a batch of raw events, taken in order.
    pub open spec fn handled_all(self, events: Seq<RawEvent>) -> AppView
        decreases events.len(),
    {
        if events.len() == 0 {
            self
        } else {
            self.handled_all(events.drop_last()).handled(events.last())
        }
    }

    /// Whether the frame loop goes on after a batch of raw events: it does
    /// if it goes on after each of them.
    pub open spec fn keeps_running_all(self, events: Seq<RawEvent>) -> bool
        decreases events.len(),
    {
        if events.len() == 0 {
            true
        } else {
            &&& self.keeps_running_all(events.drop_last())
            &&& self.handled_all(events.drop_last()).keeps_running(events.last())
        }
    }

    /// The size a batch of raw events leaves the context to take: the last
    /// one asked for, if any.
    pub open spec fn resize_request_all(self, events: Seq<RawEvent>) -> Option<(u32, u32)>
        decreases events.len(),
    {
        if events.len() == 0 {
            None
        } else {
            match self.handled_all(events.drop_last()).resize_request(events.last()) {
                Some(size) => Some(size),
                None => self.resize_request_all(events.drop_last()),
            }
        }
    }

    /// The state with the queue cleared.
    pub open spec fn cleared(self) -> AppView {
        AppView { events: Seq::empty(), ..self }
    }
}

impl App {
    /// Creates the facade and chooses its context from the configuration
    /// and the video modes of the monitor.
    pub fn new(config: AppConfig, modes: &Vec<VideoMode>, platform: Platform) -> (app: App)
        ensures
            is_initial_window(config, modes@, app.window),
            !app.exiting,
            app.modifiers == ModifiersState::none(),
            app.events@.len() == 0,
            app.config == config,
            app.platform == platform,
    {
        let window = if config.headless {
            WindowContext::Headless
        } else if config.fullscreen {
            match find_fullscreen_mode(modes, &config) {
                Some(index) => WindowContext::Fullscreen {
                    video_mode: index,
                    size: (modes[index].width, modes[index].height),
                },
                None => WindowContext::Windowed { size: config.size },
            }
        } else {
            WindowContext::Windowed { size: config.size }
        };
        App {
            window,
            exiting: false,
            modifiers: ModifiersState::default(),
            events: Vec::new(),
            config,
            platform,
        }
    }

    /// The resolution of the screen in physical pixels: that of the monitor
    /// the window is on, as the host reports it, or 0 by 0 where there is no
    /// window.
    pub fn get_screen_resolution(&self, monitor_size: (u32, u32)) -> (resolution: (u32, u32))
        ensures
            resolution == (if self.window is Headless {
                (0u32, 0u32)
            } else {
                monitor_size
            }),
    {
        match self.window {
            WindowContext::Headless => (0, 0),
            _ => monitor_size,
        }
    }

    /// The parameters of the process: its arguments without the first one,
    /// the program's own name.
    pub fn get_params(args: Vec<String>) -> (params: Vec<String>)
        requires
            args@.len() > 0,
        ensures
            params@ == args@.drop_first(),
    {
        crate::params::strip_program_name(args)
    }

    /// Switches fullscreen on or off and says what the host has to do.
    ///
    /// Switching on looks for the video mode anew, for the size the
    /// configuration asks for; where the monitor has none, nothing changes.
    /// A headless context ignores the request altogether.
    pub fn set_fullscreen(&mut self, b: bool, modes: &Vec<VideoMode>) -> (action: FullscreenAction)
        ensures
            fullscreen_toggled(
                old(self).window,
                b,
                old(self).config.size,
                modes@,
                final(self).window,
                action,
            ),
            final(self).exiting == old(self).exiting,
            final(self).modifiers == old(self).modifiers,
            final(self).events == old(self).events,
            final(self).config == old(self).config,
            final(self).platform == old(self).platform,
    {
        let surface = match self.window {
            WindowContext::Windowed { size } => size,
            WindowContext::Fullscreen { size, .. } => size,
            WindowContext::Headless => {
                return FullscreenAction::Keep;
            },
        };
        if b {
            match find_fullscreen_mode(modes, &self.config) {
                Some(index) => {
                    self.window = WindowContext::Fullscreen { video_mode: index, size: surface };
                    FullscreenAction::Enter(index)
                },
                None => FullscreenAction::Keep,
            }
        } else {
            self.window = WindowContext::Windowed { size: surface };
            FullscreenAction::Leave
        }
    }

    /// The scale factor of the surface, given the one the host reports.
    pub fn hidpi_factor(&self, host_scale: F64Bits) -> (factor: F64Bits)
        ensures
            factor == (if self.window is Headless {
                F64Bits { bits: F64_ONE_BITS }
            } else {
                host_scale
            }),
    {
        self.window.hidpi_factor(host_scale)
    }

    /// Takes one raw event of the host and says what the host has to do.
    pub fn handle_event(&mut self, event: RawEvent) -> (outcome: EventOutcome)
        ensures
            final(self)@ == old(self)@.handled(event),
            outcome.running == old(self)@.keeps_running(event),
            outcome.resize == old(self)@.resize_request(event),
    {
        let ghost before = self@;
        let mut running = true;
        let mut resize: Option<(u32, u32)> = None;
        match event {
            RawEvent::MouseInput { modifiers, .. } => {
                self.modifiers = modifiers;
            },
            RawEvent::CursorMoved { modifiers, .. } => {
                self.modifiers = modifiers;
            },
            RawEvent::ModifiersChanged(modifiers) => {
                self.modifiers = modifiers;
            },
            RawEvent::CloseRequested => {
                if !self.config.intercept_close_request {
                    running = false;
                }
            },
            RawEvent::Resized { width, height } => {
                if width != 0 && height != 0 {
                    match self.window {
                        WindowContext::Windowed { .. } => {
                            self.window = WindowContext::Windowed { size: (width, height) };
                            resize = Some((width, height));
                        },
                        WindowContext::Fullscreen { video_mode, .. } => {
                            self.window = WindowContext::Fullscreen {
                                video_mode,
                                size: (width, height),
                            };
                            resize = Some((width, height));
                        },
                        WindowContext::Headless => {},
                    }
                }
            },
            RawEvent::KeyboardInput(input) => {
                self.modifiers = input.modifiers;
                match self.platform {
                    Platform::MacOs => {
                        match input.virtual_keycode {
                            Some(VirtualKeyCode::Q) => {
                                if self.modifiers.logo {
                                    running = false;
                                }
                            },
                            _ => {},
                        }
                    },
                    Platform::Other => {},
                }
            },
            _ => {},
        }
        match translate_event(event, self.modifiers) {
            Some(canonical) => {
                self.events.push(canonical);
                assert(self.events.deep_view() =~= before.events.push(canonical@));
            },
            None => {},
        }
        assert(self@ == before.handled(event));
        EventOutcome { running, resize }
    }

    /// Takes the raw events that are pending, in order, and says what the
    /// host has to do: the loop goes on if it goes on after every one of
    /// them, and the context takes the last size asked for.
    pub fn handle_events(&mut self, pending: Vec<RawEvent>) -> (outcome: EventOutcome)
        ensures
            final(self)@ == old(self)@.handled_all(pending@),
            outcome.running == old(self)@.keeps_running_all(pending@),
            outcome.resize == old(self)@.resize_request_all(pending@),
    {
        let mut running = true;
        let mut resize: Option<(u32, u32)> = None;
        let mut i: usize = 0;
        while i < pending.len()
            invariant
                i <= pending.len(),
                self@ == old(self)@.handled_all(pending@.take(i as int)),
                running == old(self)@.keeps_running_all(pending@.take(i as int)),
                resize == old(self)@.resize_request_all(pending@.take(i as int)),
            decreases pending.len() - i,
        {
            let outcome = self.handle_event(pending[i]);
            proof {
                let now = pending@.take(i + 1);
                assert(now.drop_last() =~= pending@.take(i as int));
                assert(now.last() == pending@[i as int]);
            }
            if !outcome.running {
                running = false;
            }
            match outcome.resize {
                Some(size) => {
                    resize = Some(size);
                },
                None => {},
            }
            i += 1;
        }
        proof {
            assert(pending@.take(i as int) =~= pending@);
        }
        EventOutcome { running, resize }
    }

    /// Ends the iteration of the frame loop that [`App::handle_events`]
    /// began; `running` is what that call answered.
    ///
    /// Where the loop goes on, the application sees the queue as it stands,
    /// then the queue is cleared; the answer says whether the host has to
    /// present the surface, which it has unless there is no window, and
    /// whether the application asked to leave the loop. Where the loop does
    /// not go on, the application is not called and nothing changes: the
    /// host just leaves the loop.
    pub fn deliver<F: FnOnce(&mut App)>(&mut self, running: bool, callback: F) -> (outcome:
        FrameOutcome)
        requires
            forall|app: &mut App| call_requires(callback, (app,)),
        ensures
            !running ==> *final(self) == *old(self) && outcome == (FrameOutcome {
                present: false,
                exit: true,
            }),
            running ==> final(self).events@.len() == 0,
            running ==> outcome.present == !(final(self).window is Headless),
            running ==> outcome.exit == final(self).exiting,
            running ==> (exists|app: &mut App|
                {
                    &&& #[trigger] call_ensures(callback, (app,), ())
                    &&& *app == *old(self)
                    &&& final(self)@ == final(app)@.cleared()
                }),
    {
        if !running {
            return FrameOutcome { present: false, exit: true };
        }
        callback(self);
        self.events.clear();
        assert(self.events.deep_view() =~= Seq::empty());
        FrameOutcome { present: self.window.swap_buffers(), exit: self.exiting }
    }
}

} // verus!
