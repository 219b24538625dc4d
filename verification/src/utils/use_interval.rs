use vstd::prelude::*;

verus! {

/// A slot holding the handle of at most one pending browser timer.
#[derive(Clone, Copy, Debug, PartialEq, Eq, Structural)]
pub struct TimerSlot {
    pub handle: Option<i32>,
}

/// What to do with the browser's timers: the timer to cancel, and the delay of
/// a new one to start.
#[derive(Clone, Copy, Debug, PartialEq, Eq, Structural)]
pub struct TimerPlan {
    pub cancel: Option<i32>,
    pub schedule: Option<u32>,
}

impl TimerSlot {
    /// An empty slot.
    pub fn new() -> (s: Self)
        ensures
            s.handle is None,
    {
        TimerSlot { handle: None }
    }

    /// Empties the slot, returning the timer to cancel.
    pub fn clear(&mut self) -> (cancel: Option<i32>)
        ensures
            cancel == old(self).handle,
            final(self).handle is None,
    {
        self.handle.take()
    }

    /// Records the timer started under `handle`, returning the one it
    /// replaces, which must be cancelled.
    pub fn replace(&mut self, handle: i32) -> (cancel: Option<i32>)
        ensures
            cancel == old(self).handle,
            final(self).handle == Some(handle),
    {
        let cancel = self.handle;
        self.handle = Some(handle);
        cancel
    }

    /// The timer ran out on its own; nothing is pending any more.
    pub fn fired(&mut self)
        ensures
            final(self).handle is None,
    {
        self.handle = None;
    }

    /// (Re)starts the timer for `delay`: the pending timer is cancelled and,
    /// when `delay` is given, a new one is started (`None` pauses).
    pub fn schedule(&mut self, delay: Option<u32>) -> (plan: TimerPlan)
        ensures
            plan == (TimerPlan { cancel: old(self).handle, schedule: delay }),
            final(self).handle is None,
    {
        let cancel = self.clear();
        TimerPlan { cancel, schedule: delay }
    }

    /// Resets the timer: with a delay it restarts as `schedule` does; while
    /// paused (`None`) nothing changes.
    pub fn reset(&mut self, delay: Option<u32>) -> (plan: TimerPlan)
        ensures
            delay is Some ==> plan == (TimerPlan { cancel: old(self).handle, schedule: delay })
                && final(self).handle is None,
            delay is None ==> plan == (TimerPlan { cancel: None, schedule: None }) && *final(self) == *old(self),
    {
        match delay {
            Some(d) => self.schedule(Some(d)),
            None => TimerPlan { cancel: None, schedule: None },
        }
    }
}

/// What happens to a timer slot, as the hooks drive it.
pub enum TimerEvent {
    /// `schedule` with this delay
    Schedule(Option<u32>),
    /// `reset` with this delay
    Reset(Option<u32>),
    /// `clear`
    Clear,
    /// A new browser timer started under this handle and was recorded with `replace`
    Started(i32),
    /// The slot's timeout ran out and was recorded with `fired`
    Fired,
}

/// The set holding the handle of `slot`, if any.
pub open spec fn slot_set(slot: Option<i32>) -> Set<i32> {
    match slot {
        Some(h) => Set::empty().insert(h),
        None => Set::empty(),
    }
}

/// The timers a handle set loses when `cancel` is cancelled.
pub open spec fn without(pending: Set<i32>, cancel: Option<i32>) -> Set<i32> {
    match cancel {
        Some(h) => pending.remove(h),
        None => pending,
    }
}

/// The slot and the set of timers running in the browser after event `e`,
/// when every timer that the slot hands back is cancelled.
pub open spec fn apply_timer_event(slot: Option<i32>, pending: Set<i32>, e: TimerEvent) -> (Option<i32>, Set<i32>) {
    match e {
        TimerEvent::Schedule(_) => (None, without(pending, slot)),
        TimerEvent::Reset(d) => if d is Some { (None, without(pending, slot)) } else { (slot, pending) },
        TimerEvent::Clear => (None, without(pending, slot)),
        TimerEvent::Started(h) => (Some(h), without(pending, slot).insert(h)),
        TimerEvent::Fired => (None, without(pending, slot)),
    }
}

/// The slot and running timers after the events of `events`, in order.
pub open spec fn apply_timer_events(slot: Option<i32>, pending: Set<i32>, events: Seq<TimerEvent>) -> (Option<i32>, Set<i32>)
    decreases events.len(),
{
    if events.len() == 0 {
        (slot, pending)
    } else {
        let (s, p) = apply_timer_events(slot, pending, events.drop_last());
        apply_timer_event(s, p, events.last())
    }
}

/// A slot never leaks a timer: whatever the events, the timers still running
/// are at most the one the slot holds, and a final clear (as on unmount)
/// leaves none running.
pub proof fn lemma_no_leaked_timers(slot: Option<i32>, pending: Set<i32>, events: Seq<TimerEvent>)
    requires
        pending.subset_of(slot_set(slot)),
    ensures
        ({
            let (s, p) = apply_timer_events(slot, pending, events);
            &&& p.subset_of(slot_set(s))
            &&& apply_timer_event(s, p, TimerEvent::Clear).1 == Set::<i32>::empty()
        }),
    decreases events.len(),
{
    if events.len() > 0 {
        lemma_no_leaked_timers(slot, pending, events.drop_last());
    }
    let (s, p) = apply_timer_events(slot, pending, events);
    assert(apply_timer_event(s, p, TimerEvent::Clear).1 =~= Set::<i32>::empty());
}

} // verus!
