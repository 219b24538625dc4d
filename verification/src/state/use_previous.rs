use vstd::prelude::*;

verus! {

/// Remembers the value seen at the previous observation.
pub struct PreviousValue<T> {
    pub stored: Option<T>,
}

/// One observation of `value` by a tracker holding `stored`: what it hands
/// back, and what it holds afterwards.
pub open spec fn observation<T>(stored: Option<T>, value: T) -> (Option<T>, Option<T>) {
    (stored, Some(value))
}

impl<T> PreviousValue<T> {
    /// A tracker that has seen nothing yet.
    pub fn new() -> (p: Self)
        ensures
            p.stored is None,
    {
        PreviousValue { stored: None }
    }

    /// Records `value` as the current one and returns the value recorded
    /// before it (`None` on the first observation).
    pub fn observe(&mut self, value: T) -> (previous: Option<T>)
        ensures
            (previous, final(self).stored) == observation(old(self).stored, value),
    {
        let previous = self.stored.take();
        self.stored = Some(value);
        previous
    }
}

/// The first observation hands back nothing, and every later one hands back
/// the value observed just before it.
pub proof fn lemma_previous_is_last_observed<T>(start: Option<T>, a: T, b: T)
    ensures
        observation(None::<T>, a).0 is None,
        observation(observation(start, a).1, b).0 == Some(a),
{
}

} // verus!
