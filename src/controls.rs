//! The auto-hiding control bar: activity shows it, and a check scheduled
//! after each activity hides it again unless newer activity came since.

use vstd::prelude::*;

verus! {

/// How long after an activity its hide check fires, in milliseconds.
pub const SLEEP_DELAY_MS: u64 = 1_500;

/// Slack allowed between a check and the activity that scheduled it.
pub const SLEEP_MARGIN_MS: u64 = 200;

/// Whether the controls show, and when the last activity was seen.
#[derive(Clone, Copy, Debug, PartialEq, Eq, Structural)]
pub struct ControlsVisibility {
    pub visible: bool,
    pub last_wake_ms: u64,
}

impl ControlsVisibility {
    /// Activity at `now` shows the controls and becomes the last activity.
    pub open spec fn after_wake(self, now: int) -> ControlsVisibility {
        ControlsVisibility { visible: true, last_wake_ms: now as u64 }
    }

    /// Whether a check at `now` finds the controls idle: more than the delay,
    /// less the margin, has passed since the last activity.
    pub open spec fn idle_at(self, now: int) -> bool {
        now - self.last_wake_ms > SLEEP_DELAY_MS - SLEEP_MARGIN_MS
    }

    /// A hide check at `now` hides the controls when they are idle and
    /// otherwise changes nothing.
    pub open spec fn after_check(self, now: int) -> ControlsVisibility {
        ControlsVisibility {
            visible: self.visible && !self.idle_at(now),
            last_wake_ms: self.last_wake_ms,
        }
    }

    /// Hidden, with `now` as the last activity.
    pub fn new(now_ms: u64) -> (r: ControlsVisibility)
        ensures
            r == (ControlsVisibility { visible: false, last_wake_ms: now_ms }),
    {
        ControlsVisibility { visible: false, last_wake_ms: now_ms }
    }

    /// Activity at `now_ms`. Returns the delay after which a hide check is to
    /// be run; earlier checks are not cancelled.
    pub fn wake(&mut self, now_ms: u64) -> (r: u64)
        ensures
            *final(self) == old(self).after_wake(now_ms as int),
            r == SLEEP_DELAY_MS,
    {
        self.visible = true;
        self.last_wake_ms = now_ms;
        SLEEP_DELAY_MS
    }

    /// A scheduled hide check, run at `now_ms`.
    pub fn sleep_check(&mut self, now_ms: u64)
        ensures
            *final(self) == old(self).after_check(now_ms as int),
    {
        if now_ms > self.last_wake_ms && now_ms - self.last_wake_ms > SLEEP_DELAY_MS
            - SLEEP_MARGIN_MS {
            self.visible = false;
        }
    }

    /// The bar's opacity: 1 while shown, 0 while hidden.
    pub fn opacity(&self) -> (r: u8)
        ensures
            r == (if self.visible { 1u8 } else { 0u8 }),
    {
        if self.visible {
            1
        } else {
            0
        }
    }
}

/// The check scheduled by an activity, run when it is due with no activity
/// since, hides the controls; an activity that comes no more than the delay
/// less the margin before a check keeps the controls shown through it.
pub proof fn lemma_idle_check_hides(c: ControlsVisibility, t: int, later: int, now: int)
    requires
        0 <= t,
        t <= later <= now <= later + SLEEP_DELAY_MS - SLEEP_MARGIN_MS,
        later <= u64::MAX,
    ensures
        !c.after_wake(t).after_check(t + SLEEP_DELAY_MS).visible,
        c.after_wake(t).after_wake(later).after_check(now).visible,
{
}

} // verus!
