//! A cross-platform input and frame-loop layer for interactive applications.
//!
//! Two hosts feed it: a native windowing process and a browser document. Each
//! hands over raw events in its own shape; this crate turns them into one
//! canonical, ordered event queue and decides, frame by frame, what the host
//! has to do next. Everything here is plain data and verified logic; windows,
//! GL contexts, DOM nodes and clocks stay with the caller.

pub mod config;
pub mod events;
pub mod file_drop;
pub mod laws;
pub mod native_app;
pub mod native_keycode;
pub mod params;
pub mod web_app;
