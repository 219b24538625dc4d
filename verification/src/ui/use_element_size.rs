use vstd::prelude::*;

verus! {

/// Options for tracking an element's size.
#[derive(Clone, Copy, Debug, PartialEq, Eq, Structural)]
pub struct UseElementSizeOptions {
    /// Whether to use the ResizeObserver API
    pub use_resize_observer: bool,
    /// Whether to track position as well as size
    pub track_position: bool,
    /// Whether to update on window resize
    pub watch_window_resize: bool,
}

impl Default for UseElementSizeOptions {
    fn default() -> (o: Self)
        ensures
            o == (UseElementSizeOptions { use_resize_observer: true, track_position: true, watch_window_resize: true }),
    {
        UseElementSizeOptions { use_resize_observer: true, track_position: true, watch_window_resize: true }
    }
}

} // verus!
