//! Options an application is created with.

use vstd::prelude::*;

verus! {

/// The recognised options of an application.
#[derive(Debug, PartialEq, Eq)]
pub struct AppConfig {
    /// Title of the window.
    pub title: String,
    /// Requested size of the surface: width, then height.
    pub size: (u32, u32),
    /// Synchronise presentation with the display's refresh.
    pub vsync: bool,
    /// Let the user resize the window.
    pub resizable: bool,
    /// Cover the whole screen with an exclusive video mode.
    pub fullscreen: bool,
    /// Create no window at all.
    pub headless: bool,
    /// Show the pointer over the surface.
    pub show_cursor: bool,
    /// Keep running when the host asks to close; the application then sees
    /// the request in the queue and decides by itself.
    pub intercept_close_request: bool,
}

impl Clone for AppConfig {
    fn clone(&self) -> (r: Self)
        ensures
            r == *self,
    {
        AppConfig {
            title: self.title.clone(),
            size: self.size,
            vsync: self.vsync,
            resizable: self.resizable,
            fullscreen: self.fullscreen,
            headless: self.headless,
            show_cursor: self.show_cursor,
            intercept_close_request: self.intercept_close_request,
        }
    }
}

} // verus!
