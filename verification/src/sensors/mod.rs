//! Sensor logic: keyboard state, geolocation requests and pointer position.
pub mod use_keyboard;
pub mod use_geolocation;
pub mod use_mouse_position;
