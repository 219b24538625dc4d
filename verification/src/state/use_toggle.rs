use vstd::prelude::*;

verus! {

/// A boolean that can be flipped or set.
#[derive(Clone, Copy, Debug, PartialEq, Eq, Structural)]
pub struct Toggle {
    pub value: bool,
}

/// The toggle with its value flipped.
pub open spec fn toggled(t: Toggle) -> Toggle {
    Toggle { value: !t.value }
}

impl Toggle {
    /// A toggle holding `b`.
    pub fn new(b: bool) -> (t: Toggle)
        ensures
            t.value == b,
    {
        Toggle { value: b }
    }

    /// Flips the value.
    pub fn toggle(&mut self)
        ensures
            final(self).value == !old(self).value,
            *final(self) == toggled(*old(self)),
    {
        self.value = !self.value;
    }

    /// Sets the value to `v`.
    pub fn set(&mut self, v: bool)
        ensures
            final(self).value == v,
    {
        self.value = v;
    }
}

/// Toggling twice gives back the value one started with.
pub proof fn lemma_toggle_twice_restores(t: Toggle)
    ensures
        toggled(toggled(t)) == t,
{
}

} // verus!
