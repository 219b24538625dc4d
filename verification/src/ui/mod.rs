//! UI-related logic: scrolling, scroll locking, click-outside detection and element sizing.
pub mod use_scroll_to;
pub mod use_scroll_lock;
pub mod use_click_outside;
pub mod use_element_size;
