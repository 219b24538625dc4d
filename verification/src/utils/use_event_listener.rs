use vstd::prelude::*;

verus! {

/// Configuration options for event listeners.
#[derive(Clone, Copy, Debug, PartialEq, Eq, Structural)]
pub struct UseEventOptions {
    /// Whether to run the event listener during the capture phase
    pub capture: bool,
    /// Whether to listen only once
    pub once: bool,
    /// Whether to prevent default behavior
    pub prevent_default: bool,
    /// Whether to stop propagation
    pub stop_propagation: bool,
    /// Whether events fire when within shadow DOM
    pub composed: bool,
}

impl Default for UseEventOptions {
    fn default() -> (o: Self)
        ensures
            o == (UseEventOptions { capture: false, once: false, prevent_default: false, stop_propagation: false, composed: false }),
    {
        UseEventOptions { capture: false, once: false, prevent_default: false, stop_propagation: false, composed: false }
    }
}

impl UseEventOptions {
    /// Whether the listener may be registered as passive: only when it never
    /// prevents the default action.
    pub fn passive(&self) -> (p: bool)
        ensures
            p == !self.prevent_default,
    {
        !self.prevent_default
    }
}

} // verus!
