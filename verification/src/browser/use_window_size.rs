use vstd::prelude::*;

verus! {

/// Window size in whole pixels.
#[derive(Clone, Copy, Debug, PartialEq, Eq, Structural)]
pub struct WindowSize {
    /// Window width in pixels
    pub width: i32,
    /// Window height in pixels
    pub height: i32,
}

} // verus!
