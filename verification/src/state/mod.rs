//! State-management logic: counters, colour modes and previous-value tracking.
pub mod use_counter;
pub mod use_color_mode;
pub mod use_previous;
pub mod use_toggle;
