//! The settings screen: the lengths of the work and rest phases, and dimming
//! and locking the screen during rests where the system offers the tools.
use vstd::prelude::*;

use crate::screen::ScreenTools;
use crate::tracker::{same_forms, same_session, saved, TimeTrackerState};

verus! {

/// The shortest work phase that can be set, in minutes.
pub const WORK_MINUTES_MIN: u64 = 1;

/// The longest work phase that can be set, in minutes.
pub const WORK_MINUTES_MAX: u64 = 120;

/// The shortest rest that can be set, in minutes.
pub const REST_MINUTES_MIN: u64 = 1;

/// The longest rest that can be set, in minutes.
pub const REST_MINUTES_MAX: u64 = 60;

/// `v` held within `lo..=hi`.
pub open spec fn clamped(v: u64, lo: u64, hi: u64) -> u64 {
    if v < lo {
        lo
    } else if v > hi {
        hi
    } else {
        v
    }
}

fn clamp_u64(v: u64, lo: u64, hi: u64) -> (r: u64)
    requires
        lo <= hi,
    ensures
        r == clamped(v, lo, hi),
{
    if v < lo {
        lo
    } else if v > hi {
        hi
    } else {
        v
    }
}

impl TimeTrackerState {
    /// Applies the settings screen: a work length held within
    /// `WORK_MINUTES_MIN..=WORK_MINUTES_MAX` and a rest length within
    /// `REST_MINUTES_MIN..=REST_MINUTES_MAX`, a changed length counting only
    /// when it differs from the current one; dimming taken only when a
    /// dimming tool is there, locking only when a locking tool is there. Any
    /// change is saved. Returns whether a length changed (the timer then
    /// starts over).
    pub fn apply_settings(
        &mut self,
        work_mins: u64,
        rest_mins: u64,
        dim: bool,
        lock: bool,
        tools: &ScreenTools,
    ) -> (durations_changed: bool)
        ensures
            final(self).data.work_duration_mins == (if work_mins == old(
                self,
            ).data.work_duration_mins {
                work_mins
            } else {
                clamped(work_mins, WORK_MINUTES_MIN, WORK_MINUTES_MAX)
            }),
            final(self).data.rest_duration_mins == (if rest_mins == old(
                self,
            ).data.rest_duration_mins {
                rest_mins
            } else {
                clamped(rest_mins, REST_MINUTES_MIN, REST_MINUTES_MAX)
            }),
            final(self).data.screen_dim_during_rest == (if tools.spec_brightnessctl()
                || tools.spec_xset() {
                dim
            } else {
                old(self).data.screen_dim_during_rest
            }),
            final(self).data.screen_lock_during_rest == (if tools.spec_lock() {
                lock
            } else {
                old(self).data.screen_lock_during_rest
            }),
            durations_changed == (final(self).data.work_duration_mins != old(
                self,
            ).data.work_duration_mins || final(self).data.rest_duration_mins != old(
                self,
            ).data.rest_duration_mins),
            ({
                let changed = durations_changed || final(self).data.screen_dim_during_rest != old(
                    self,
                ).data.screen_dim_during_rest || final(self).data.screen_lock_during_rest != old(
                    self,
                ).data.screen_lock_during_rest;
                &&& changed ==> saved(*final(self))
                &&& !changed ==> *final(self) == *old(self)
            }),
            final(self).data.projects == old(self).data.projects,
            final(self).data.tasks == old(self).data.tasks,
            final(self).data.language == old(self).data.language,
            final(self).data.schema_version == old(self).data.schema_version,
            final(self).data.ultradian_cycles_completed == old(self).data.ultradian_cycles_completed,
            final(self).data.last_session_date == old(self).data.last_session_date,
            same_session(*final(self), *old(self)),
            same_forms(*final(self), *old(self)),
    {
        let mut changed = false;
        let mut durations_changed = false;
        if work_mins != self.data.work_duration_mins {
            let w = clamp_u64(work_mins, WORK_MINUTES_MIN, WORK_MINUTES_MAX);
            if w != self.data.work_duration_mins {
                self.data.work_duration_mins = w;
                changed = true;
                durations_changed = true;
            }
        }
        if rest_mins != self.data.rest_duration_mins {
            let r = clamp_u64(rest_mins, REST_MINUTES_MIN, REST_MINUTES_MAX);
            if r != self.data.rest_duration_mins {
                self.data.rest_duration_mins = r;
                changed = true;
                durations_changed = true;
            }
        }
        if tools.has_dim_support() && dim != self.data.screen_dim_during_rest {
            self.data.screen_dim_during_rest = dim;
            changed = true;
        }
        if tools.has_lock() && lock != self.data.screen_lock_during_rest {
            self.data.screen_lock_during_rest = lock;
            changed = true;
        }
        if changed {
            self.save();
        }
        durations_changed
    }
}

} // verus!
