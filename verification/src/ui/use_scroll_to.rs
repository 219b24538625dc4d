use vstd::prelude::*;

verus! {

/// How a scroll is animated.
#[derive(Clone, Copy, Debug, PartialEq, Eq, Structural)]
pub enum ScrollBehavior {
    Auto,
    Smooth,
    Instant,
}

/// The CSS keyword of each scroll behavior.
pub open spec fn scroll_behavior_keyword(b: ScrollBehavior) -> Seq<char> {
    match b {
        ScrollBehavior::Auto => "auto"@,
        ScrollBehavior::Smooth => "smooth"@,
        ScrollBehavior::Instant => "instant"@,
    }
}

impl ScrollBehavior {
    /// The keyword that the browser's scroll options take for this behavior.
    pub fn to_string(&self) -> (s: String)
        ensures
            s@ == scroll_behavior_keyword(*self),
    {
        match self {
            ScrollBehavior::Auto => "auto".to_string(),
            ScrollBehavior::Smooth => "smooth".to_string(),
            ScrollBehavior::Instant => "instant".to_string(),
        }
    }
}

} // verus!
