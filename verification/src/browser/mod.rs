//! Browser-related logic: breakpoints, clipboard state, favicon links, idle
//! detection, persistent storage, fullscreen toggling and window size.
pub mod use_breakpoints;
pub mod use_idle;
pub mod use_clipboard;
pub mod use_favicon;
pub mod use_local_storage;
pub mod use_screen;
pub mod use_window_size;
