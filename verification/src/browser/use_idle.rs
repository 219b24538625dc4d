use vstd::prelude::*;
use crate::utils::use_interval::{TimerSlot, TimerPlan};

verus! {

/// Options for idle detection.
#[derive(Clone, Debug, PartialEq)]
pub struct UseIdleOptions {
    /// Events that count as user activity
    pub events: Vec<String>,
    /// Whether the user counts as idle at the start
    pub initial_state: bool,
    /// Milliseconds without activity before the user counts as idle
    pub timeout: u32,
}

/// The activity events listened to by default.
pub open spec fn default_idle_events() -> Seq<Seq<char>> {
    seq!["mousemove"@, "mousedown"@, "resize"@, "keydown"@, "touchstart"@, "wheel"@]
}

impl Default for UseIdleOptions {
    fn default() -> (o: Self)
        ensures
            o.events@.map_values(|e: String| e@) == default_idle_events(),
            !o.initial_state,
            o.timeout == 60000,
    {
        let events = vec![
            "mousemove".to_string(),
            "mousedown".to_string(),
            "resize".to_string(),
            "keydown".to_string(),
            "touchstart".to_string(),
            "wheel".to_string(),
        ];
        assert(events@.map_values(|e: String| e@) =~= default_idle_events());
        UseIdleOptions { events, initial_state: false, timeout: 60000 }
    }
}

/// Idle detection: whether the user is idle and the pending idle timer.
pub struct IdleTracker {
    pub is_idle: bool,
    pub timer: TimerSlot,
    pub timeout: u32,
}

impl IdleTracker {
    /// The state at mount: idle as the options say, no timer pending.
    pub fn new(options: &UseIdleOptions) -> (t: Self)
        ensures
            t.is_idle == options.initial_state,
            t.timer.handle is None,
            t.timeout == options.timeout,
    {
        IdleTracker { is_idle: options.initial_state, timer: TimerSlot::new(), timeout: options.timeout }
    }

    /// The user was active: they are no longer idle, and the idle timer
    /// restarts for the full timeout.
    pub fn activity(&mut self) -> (plan: TimerPlan)
        ensures
            !final(self).is_idle,
            plan == (TimerPlan { cancel: old(self).timer.handle, schedule: Some(old(self).timeout) }),
            final(self).timer.handle is None,
            final(self).timeout == old(self).timeout,
    {
        self.is_idle = false;
        self.timer.schedule(Some(self.timeout))
    }

    /// The idle timer started under `handle`.
    pub fn timer_started(&mut self, handle: i32)
        ensures
            final(self).timer.handle == Some(handle),
            final(self).is_idle == old(self).is_idle,
            final(self).timeout == old(self).timeout,
    {
        self.timer.handle = Some(handle);
    }

    /// The idle timer ran out: the user is idle.
    pub fn timed_out(&mut self)
        ensures
            final(self).is_idle,
            final(self).timer == old(self).timer,
            final(self).timeout == old(self).timeout,
    {
        self.is_idle = true;
    }

    /// Marks the user idle at once, cancelling the pending idle timer.
    pub fn force_idle(&mut self) -> (cancel: Option<i32>)
        ensures
            final(self).is_idle,
            cancel == old(self).timer.handle,
            final(self).timer.handle is None,
            final(self).timeout == old(self).timeout,
    {
        self.is_idle = true;
        self.timer.clear()
    }

    /// The timer to cancel when the hook unmounts.
    pub fn teardown(&self) -> (cancel: Option<i32>)
        ensures
            cancel == self.timer.handle,
    {
        self.timer.handle
    }
}

} // verus!
