//! The canonical event model shared by both backends.

use vstd::prelude::*;

verus! {

/// Bit pattern of the double-precision value `1.0`.
pub const F64_ONE_BITS: u64 = 0x3FF0_0000_0000_0000;

/// A double-precision number carried as its IEEE-754 bit pattern.
///
/// Coordinates and scale factors pass through this crate untouched, so they
/// are stored exactly as the host produced them.
#[derive(Clone, Copy, Debug, PartialEq, Eq, Structural)]
pub struct F64Bits {
    pub bits: u64,
}

impl F64Bits {
    /// The value `1.0`.
    pub fn one() -> (r: F64Bits)
        ensures
            r.bits == F64_ONE_BITS,
    {
        F64Bits { bits: F64_ONE_BITS }
    }
}

/// Data of a mouse button press or release.
#[derive(Clone, Copy, Debug, PartialEq, Eq, Structural)]
pub struct MouseButtonEvent {
    /// 0 is the left button, 1 the middle one (wheel), 2 the right one;
    /// anything above is an extra button of the device.
    pub button: usize,
}

/// Data of a key press.
#[derive(Debug, PartialEq, Eq)]
pub struct KeyDownEvent {
    /// Label of the physical position of the key.
    pub code: String,
    /// Human-readable label of the key.
    pub key: String,
    pub shift: bool,
    pub alt: bool,
    pub ctrl: bool,
}

/// Data of a key release.
#[derive(Debug, PartialEq, Eq)]
pub struct KeyUpEvent {
    /// Label of the physical position of the key.
    pub code: String,
    /// Human-readable label of the key.
    pub key: String,
    pub shift: bool,
    pub alt: bool,
    pub ctrl: bool,
}

/// Mathematical content of a key press or release.
pub struct KeyEventView {
    pub code: Seq<char>,
    pub key: Seq<char>,
    pub shift: bool,
    pub alt: bool,
    pub ctrl: bool,
}

impl View for KeyDownEvent {
    type V = KeyEventView;

    open spec fn view(&self) -> KeyEventView {
        KeyEventView {
            code: self.code@,
            key: self.key@,
            shift: self.shift,
            alt: self.alt,
            ctrl: self.ctrl,
        }
    }
}

impl View for KeyUpEvent {
    type V = KeyEventView;

    open spec fn view(&self) -> KeyEventView {
        KeyEventView {
            code: self.code@,
            key: self.key@,
            shift: self.shift,
            alt: self.alt,
            ctrl: self.ctrl,
        }
    }
}

impl Clone for KeyDownEvent {
    fn clone(&self) -> (r: Self)
        ensures
            r == *self,
    {
        KeyDownEvent {
            code: self.code.clone(),
            key: self.key.clone(),
            shift: self.shift,
            alt: self.alt,
            ctrl: self.ctrl,
        }
    }
}

impl Clone for KeyUpEvent {
    fn clone(&self) -> (r: Self)
        ensures
            r == *self,
    {
        KeyUpEvent {
            code: self.code.clone(),
            key: self.key.clone(),
            shift: self.shift,
            alt: self.alt,
            ctrl: self.ctrl,
        }
    }
}

/// A canonical event, as the application sees it in the queue.
#[derive(Debug, PartialEq, Eq)]
pub enum AppEvent {
    MouseDown(MouseButtonEvent),
    MouseUp(MouseButtonEvent),
    KeyDown(KeyDownEvent),
    KeyUp(KeyUpEvent),
    /// One committed character of text input.
    CharEvent(char),
    /// New size of the drawable surface: width, then height.
    Resized((u32, u32)),
    /// Pointer position relative to the surface origin, in the surface's own
    /// pixel space: x, then y.
    MousePos((F64Bits, F64Bits)),
    /// A file was dropped on the surface; the payload is its name.
    FileDropped(String),
    CloseRequested,
}

/// Mathematical content of an [`AppEvent`].
pub enum AppEventView {
    MouseDown(MouseButtonEvent),
    MouseUp(MouseButtonEvent),
    KeyDown(KeyEventView),
    KeyUp(KeyEventView),
    CharEvent(char),
    Resized((u32, u32)),
    MousePos((F64Bits, F64Bits)),
    FileDropped(Seq<char>),
    CloseRequested,
}

impl View for AppEvent {
    type V = AppEventView;

    open spec fn view(&self) -> AppEventView {
        match *self {
            AppEvent::MouseDown(e) => AppEventView::MouseDown(e),
            AppEvent::MouseUp(e) => AppEventView::MouseUp(e),
            AppEvent::KeyDown(e) => AppEventView::KeyDown(e@),
            AppEvent::KeyUp(e) => AppEventView::KeyUp(e@),
            AppEvent::CharEvent(c) => AppEventView::CharEvent(c),
            AppEvent::Resized(size) => AppEventView::Resized(size),
            AppEvent::MousePos(pos) => AppEventView::MousePos(pos),
            AppEvent::FileDropped(name) => AppEventView::FileDropped(name@),
            AppEvent::CloseRequested => AppEventView::CloseRequested,
        }
    }
}

impl Clone for AppEvent {
    fn clone(&self) -> (r: Self)
        ensures
            r == *self,
    {
        match self {
            AppEvent::MouseDown(e) => AppEvent::MouseDown(*e),
            AppEvent::MouseUp(e) => AppEvent::MouseUp(*e),
            AppEvent::KeyDown(e) => AppEvent::KeyDown(e.clone()),
            AppEvent::KeyUp(e) => AppEvent::KeyUp(e.clone()),
            AppEvent::CharEvent(c) => AppEvent::CharEvent(*c),
            AppEvent::Resized(size) => AppEvent::Resized(*size),
            AppEvent::MousePos(pos) => AppEvent::MousePos(*pos),
            AppEvent::FileDropped(name) => AppEvent::FileDropped(name.clone()),
            AppEvent::CloseRequested => AppEvent::CloseRequested,
        }
    }
}

impl DeepView for AppEvent {
    type V = AppEventView;

    open spec fn deep_view(&self) -> AppEventView {
        self@
    }
}

} // verus!
