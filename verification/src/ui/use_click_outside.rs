use vstd::prelude::*;

verus! {

/// How a clicked element relates to the watched element.
#[derive(Clone, Copy, Debug, PartialEq, Eq, Structural)]
pub struct ClickTarget {
    /// Whether the watched element contains the clicked one
    pub contained: bool,
    /// Whether the clicked element is the watched one
    pub same: bool,
}

/// Whether a click must be reported as outside. `target` is `None` when the
/// watched element is not mounted or the click target is not an element.
pub fn click_is_outside(enabled: bool, target: Option<ClickTarget>) -> (outside: bool)
    ensures
        outside == (enabled && (target matches Some(t) && !t.contained && !t.same)),
{
    if !enabled {
        return false;
    }
    match target {
        Some(t) => !t.contained && !t.same,
        None => false,
    }
}

} // verus!
