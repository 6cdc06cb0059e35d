//! The tracker's state in memory: the persisted data, the session being
//! recorded, and the forms of the screens. Restoring it from the data and
//! copying the session in progress back into the data happen here.
use std::time::Instant;

use vstd::prelude::*;

use crate::clock::{instant_now, unix_now};
use crate::ids::contains_id;
use crate::models::{is_fresh_data, ActiveSession, Priority, TrackerData};
use crate::session_logic::{sat_add, sat_sub};

verus! {

/// The tracker's state: the data that is saved, the session being recorded
/// (its project, name, the session it continues, and its running interval),
/// and what the forms of the screens hold.
pub struct TimeTrackerState {
    pub data: TrackerData,
    pub active_project_id: Option<String>,
    pub active_session_name: String,
    pub active_parent_session_id: Option<String>,
    pub is_tracking: bool,
    pub current_session_start: Option<Instant>,
    pub current_session_elapsed: u64,
    pub new_project_name: String,
    pub new_project_error: Option<String>,
    pub export_message: Option<String>,
    pub export_message_time: Option<Instant>,
    pub editing_session_id: Option<(String, String)>,
    pub editing_session_name: String,
    pub deleting_session_id: Option<(String, String)>,
    pub deleting_project_id: Option<String>,
    pub session_search_query: String,
    pub new_task_project_input: String,
    pub new_task_name: String,
    pub new_task_description: String,
    pub new_task_priority: Priority,
    pub new_task_tags: String,
    pub new_task_deadline: String,
    pub new_task_error: Option<String>,
    pub hide_completed_tasks: bool,
    /// Set when the data changed in a way that must be written out; the
    /// writer clears it.
    pub save_requested: bool,
}

/// The view of an optional text.
pub open spec fn opt_view(o: Option<String>) -> Option<Seq<char>> {
    match o {
        Some(s) => Some(s@),
        None => None,
    }
}

/// The forms, messages and dialogs are those of `b`.
pub open spec fn same_forms(a: TimeTrackerState, b: TimeTrackerState) -> bool {
    &&& a.new_project_name == b.new_project_name
    &&& a.new_project_error == b.new_project_error
    &&& a.export_message == b.export_message
    &&& a.export_message_time == b.export_message_time
    &&& a.editing_session_id == b.editing_session_id
    &&& a.editing_session_name == b.editing_session_name
    &&& a.deleting_session_id == b.deleting_session_id
    &&& a.deleting_project_id == b.deleting_project_id
    &&& a.session_search_query == b.session_search_query
    &&& a.new_task_project_input == b.new_task_project_input
    &&& a.new_task_name == b.new_task_name
    &&& a.new_task_description == b.new_task_description
    &&& a.new_task_priority == b.new_task_priority
    &&& a.new_task_tags == b.new_task_tags
    &&& a.new_task_deadline == b.new_task_deadline
    &&& a.new_task_error == b.new_task_error
    &&& a.hide_completed_tasks == b.hide_completed_tasks
}

/// The session being recorded is that of `b`.
pub open spec fn same_session(a: TimeTrackerState, b: TimeTrackerState) -> bool {
    &&& a.active_project_id == b.active_project_id
    &&& a.active_session_name == b.active_session_name
    &&& a.active_parent_session_id == b.active_parent_session_id
    &&& a.is_tracking == b.is_tracking
    &&& a.current_session_start == b.current_session_start
    &&& a.current_session_elapsed == b.current_session_elapsed
}

/// The settings and counters of the data are those of `b`.
pub open spec fn same_settings(a: TrackerData, b: TrackerData) -> bool {
    &&& a.schema_version == b.schema_version
    &&& a.language == b.language
    &&& a.work_duration_mins == b.work_duration_mins
    &&& a.rest_duration_mins == b.rest_duration_mins
    &&& a.ultradian_cycles_completed == b.ultradian_cycles_completed
    &&& a.last_session_date == b.last_session_date
    &&& a.screen_dim_during_rest == b.screen_dim_during_rest
    &&& a.screen_lock_during_rest == b.screen_lock_during_rest
}

/// The data of `a` is that of `b`, the copy of the session in progress aside.
pub open spec fn same_data_but_record(a: TrackerData, b: TrackerData) -> bool {
    &&& same_settings(a, b)
    &&& a.projects == b.projects
    &&& a.tasks == b.tasks
}

/// The state holds a session worth keeping: a project, a name, a session to
/// continue, a running interval or accumulated seconds.
pub open spec fn has_active_state(s: TimeTrackerState) -> bool {
    ||| s.active_project_id is Some
    ||| s.active_session_name@.len() > 0
    ||| s.active_parent_session_id is Some
    ||| s.is_tracking
    ||| s.current_session_elapsed > 0
}

/// `rec` is the copy of the session of `s` taken at Unix time `now`, when its
/// running interval, if it is tracking, has lasted `running_secs`: the start
/// of that interval is kept as a Unix time (held at 0), and the seconds of
/// the intervals before it as the accumulated ones.
pub open spec fn records_session(
    rec: Option<ActiveSession>,
    s: TimeTrackerState,
    now: u64,
    running_secs: u64,
) -> bool {
    if has_active_state(s) {
        &&& rec is Some
        &&& rec->0.project_id@ == (match s.active_project_id {
            Some(id) => id@,
            None => Seq::<char>::empty(),
        })
        &&& rec->0.session_name@ == s.active_session_name@
        &&& opt_view(rec->0.parent_session_id) == opt_view(s.active_parent_session_id)
        &&& rec->0.is_tracking == s.is_tracking
        &&& rec->0.start_unix == (if s.is_tracking {
            sat_sub(now, running_secs)
        } else {
            0
        })
        &&& rec->0.elapsed_secs == s.current_session_elapsed
    } else {
        rec is None
    }
}

/// The data holds a copy of the state's session, taken at some moment.
pub open spec fn synced(s: TimeTrackerState) -> bool {
    exists|now: u64, running_secs: u64|
        #[trigger] records_session(s.data.active_session, s, now, running_secs)
}

/// The state was saved: its session was copied into the data, and writing the
/// data out was requested.
pub open spec fn saved(s: TimeTrackerState) -> bool {
    s.save_requested && synced(s)
}

/// No session is being recorded.
pub open spec fn no_session(s: TimeTrackerState) -> bool {
    &&& s.active_project_id is None
    &&& s.active_session_name@.len() == 0
    &&& s.active_parent_session_id is None
    &&& !s.is_tracking
    &&& s.current_session_start is None
    &&& s.current_session_elapsed == 0
}

/// The forms are empty, and no message or dialog is shown.
pub open spec fn forms_empty(s: TimeTrackerState) -> bool {
    &&& s.new_project_name@.len() == 0
    &&& s.new_project_error is None
    &&& s.export_message is None
    &&& s.export_message_time is None
    &&& s.editing_session_id is None
    &&& s.editing_session_name@.len() == 0
    &&& s.deleting_session_id is None
    &&& s.deleting_project_id is None
    &&& s.session_search_query@.len() == 0
    &&& s.new_task_project_input@.len() == 0
    &&& s.new_task_name@.len() == 0
    &&& s.new_task_description@.len() == 0
    &&& s.new_task_priority == Priority::Media
    &&& s.new_task_tags@.len() == 0
    &&& s.new_task_deadline@.len() == 0
    &&& s.new_task_error is None
    &&& !s.hide_completed_tasks
}

/// A state with the same session and the same copy of it in the data stays
/// synced.
pub proof fn lemma_synced_frame(a: TimeTrackerState, b: TimeTrackerState)
    requires
        synced(a),
        same_session(a, b),
        a.data.active_session == b.data.active_session,
    ensures
        synced(b),
{
    let (now, running) = choose|now: u64, running_secs: u64|
        #[trigger] records_session(a.data.active_session, a, now, running_secs);
    assert(records_session(b.data.active_session, b, now, running));
}

/// A session in progress survives a restart: the copy that saving at Unix
/// time `save_at` puts in the data, its running interval having lasted
/// `running_secs`, is the one that loading at `load_at` restores, as long as
/// its project still exists. It keeps its project, name and the session it
/// continues; a running session keeps running, and no tracked second is
/// lost: it counts the seconds before its running interval, those of the
/// interval, and those between saving and loading (an interval that would
/// start at or before the Unix epoch is not restored as running).
pub proof fn lemma_session_survives_restart(
    s: TimeTrackerState,
    save_at: u64,
    running_secs: u64,
    load_at: u64,
)
    requires
        records_session(s.data.active_session, s, save_at, running_secs),
        s.active_project_id is Some,
        exists|j: int|
            0 <= j < s.data.projects@.len() && (#[trigger] s.data.projects@[j]).id@
                == s.active_project_id->0@,
    ensures
        live_record(s.data) == s.data.active_session,
        live_record(s.data) is Some,
        opt_view(Some(live_record(s.data)->0.project_id)) == opt_view(s.active_project_id),
        live_record(s.data)->0.session_name@ == s.active_session_name@,
        opt_view(live_record(s.data)->0.parent_session_id) == opt_view(s.active_parent_session_id),
        restored(live_record(s.data)->0, load_at).0 == (s.is_tracking && save_at > running_secs),
        s.is_tracking && save_at > running_secs && load_at >= save_at ==> restored(
            live_record(s.data)->0,
            load_at,
        ).1 == s.current_session_elapsed + running_secs + (load_at - save_at),
        !s.is_tracking ==> restored(live_record(s.data)->0, load_at).1
            == s.current_session_elapsed,
{
}

/// The state of a fresh start around `data`: no session, empty forms.
pub open spec fn is_initial_around(s: TimeTrackerState, data: TrackerData) -> bool {
    &&& s.data == data
    &&& no_session(s)
    &&& forms_empty(s)
    &&& !s.save_requested
}

/// The result of restoring a persisted session at Unix time `now`: whether it
/// is still running, and its accumulated seconds, the time since its
/// persisted start included when it was running.
pub open spec fn restored(active: ActiveSession, now: u64) -> (bool, int) {
    if active.is_tracking && active.start_unix > 0 {
        (true, active.elapsed_secs + (if now >= active.start_unix {
            now - active.start_unix
        } else {
            0
        }))
    } else {
        (false, active.elapsed_secs as int)
    }
}

/// The seconds that the session of `s` shows when its running interval, if
/// any, has lasted `running_secs`.
pub open spec fn shown_secs(s: TimeTrackerState, running_secs: u64) -> u64 {
    if s.current_session_start is Some {
        sat_add(s.current_session_elapsed, running_secs)
    } else {
        s.current_session_elapsed
    }
}

/// `s` is the state right after loading `data` at Unix time `now`: the data
/// as it was, empty forms, nothing to write, and the persisted session
/// restored when its project still exists (no session otherwise).
pub open spec fn loaded_from(s: TimeTrackerState, data: TrackerData, now: u64) -> bool {
    &&& s.data == data
    &&& forms_empty(s)
    &&& !s.save_requested
    &&& match live_record(data) {
        Some(a) => {
            &&& opt_view(s.active_project_id) == Some(a.project_id@)
            &&& s.active_session_name@ == a.session_name@
            &&& opt_view(s.active_parent_session_id) == opt_view(a.parent_session_id)
            &&& s.is_tracking == restored(a, now).0
            &&& s.current_session_elapsed == restored(a, now).1
            &&& (s.current_session_start is Some <==> s.is_tracking)
        },
        None => no_session(s),
    }
}

/// `r` is what loading `data` at Unix time `now` gives: `None` exactly when
/// the persisted session that belongs to a project cannot be restored at
/// `now`, and otherwise the loaded state.
pub open spec fn load_outcome(r: Option<TimeTrackerState>, data: TrackerData, now: u64) -> bool {
    let fails = live_record(data) matches Some(a) && !restorable(a, now);
    match r {
        Some(s) => !fails && loaded_from(s, data, now),
        None => fails,
    }
}

/// Restoring `active` at `now` fits the counter of seconds.
pub open spec fn restorable(active: ActiveSession, now: u64) -> bool {
    restored(active, now).1 <= u64::MAX
}

/// The persisted session of `data` that belongs to one of its projects.
pub open spec fn live_record(data: TrackerData) -> Option<ActiveSession> {
    match data.active_session {
        Some(a) => if exists|j: int|
            0 <= j < data.projects@.len() && (#[trigger] data.projects@[j]).id@ == a.project_id@ {
            Some(a)
        } else {
            None
        },
        None => None,
    }
}

/// Rebuilds the running state of a persisted session: whether it is still
/// tracking, and its accumulated seconds. A session that was tracking keeps
/// counting while the application is closed: the time since its persisted
/// start is folded into the accumulated seconds.
pub fn restored_session_state(active: &ActiveSession, now_unix: u64) -> (r: (bool, u64))
    requires
        restorable(*active, now_unix),
    ensures
        r.0 == restored(*active, now_unix).0,
        r.1 == restored(*active, now_unix).1,
{
    if active.is_tracking && active.start_unix > 0 {
        let gap = now_unix.saturating_sub(active.start_unix);
        (true, active.elapsed_secs + gap)
    } else {
        (false, active.elapsed_secs)
    }
}

impl Default for TimeTrackerState {
    fn default() -> (r: TimeTrackerState)
        ensures
            is_initial_around(r, r.data),
            is_fresh_data(r.data),
    {
        TimeTrackerState::blank(TrackerData::default())
    }
}

impl TimeTrackerState {
    /// A state around `data` with no session and empty forms.
    pub fn blank(data: TrackerData) -> (r: TimeTrackerState)
        ensures
            is_initial_around(r, data),
    {
        TimeTrackerState {
            data,
            active_project_id: None,
            active_session_name: String::new(),
            active_parent_session_id: None,
            is_tracking: false,
            current_session_start: None,
            current_session_elapsed: 0,
            new_project_name: String::new(),
            new_project_error: None,
            export_message: None,
            export_message_time: None,
            editing_session_id: None,
            editing_session_name: String::new(),
            deleting_session_id: None,
            deleting_project_id: None,
            session_search_query: String::new(),
            new_task_project_input: String::new(),
            new_task_name: String::new(),
            new_task_description: String::new(),
            new_task_priority: Priority::Media,
            new_task_tags: String::new(),
            new_task_deadline: String::new(),
            new_task_error: None,
            hide_completed_tasks: false,
            save_requested: false,
        }
    }

    /// The state after loading `data` at Unix time `now_unix`: the persisted
    /// session is restored when its project still exists (a running one keeps
    /// running from now on, with the time since its persisted start counted);
    /// otherwise no session is active.
    pub fn from_data(data: TrackerData, now_unix: u64) -> (r: TimeTrackerState)
        requires
            live_record(data) matches Some(a) ==> restorable(a, now_unix),
        ensures
            loaded_from(r, data, now_unix),
    {
        let mut restored_parts: Option<(String, String, Option<String>, bool, u64)> = None;
        match &data.active_session {
            Some(a) => {
                if contains_id(&data.projects, a.project_id.as_str()) {
                    let (tracking, elapsed) = restored_session_state(a, now_unix);
                    restored_parts = Some(
                        (
                            a.project_id.clone(),
                            a.session_name.clone(),
                            a.parent_session_id.clone(),
                            tracking,
                            elapsed,
                        ),
                    );
                }
            },
            None => {},
        }
        let mut s = TimeTrackerState::blank(data);
        match restored_parts {
            Some((pid, name, parent, tracking, elapsed)) => {
                s.active_project_id = Some(pid);
                s.active_session_name = name;
                s.active_parent_session_id = parent;
                s.is_tracking = tracking;
                s.current_session_elapsed = elapsed;
                if tracking {
                    s.current_session_start = Some(instant_now());
                }
            },
            None => {},
        }
        s
    }

    /// The state after loading `data` at Unix time `now_unix`: as `from_data`.
    /// `None` when the persisted session's seconds, with the time since it
    /// was saved, no longer fit the counter.
    pub fn load_at(data: TrackerData, now_unix: u64) -> (r: Option<TimeTrackerState>)
        ensures
            load_outcome(r, data, now_unix),
    {
        let fits = match &data.active_session {
            Some(a) => {
                if a.is_tracking && a.start_unix > 0 && contains_id(&data.projects, a.project_id.as_str()) {
                    a.elapsed_secs <= u64::MAX - now_unix.saturating_sub(a.start_unix)
                } else {
                    true
                }
            },
            None => true,
        };
        if fits {
            let s = TimeTrackerState::from_data(data, now_unix);
            Some(s)
        } else {
            assert(!restorable(data.active_session->0, now_unix));
            None
        }
    }

    /// The state after loading `data` now (see `load_at`; the time is the
    /// current Unix time).
    pub fn load(data: TrackerData) -> (r: Option<TimeTrackerState>)
        ensures
            exists|now: u64| #[trigger] load_outcome(r, data, now),
    {
        let now = #[verifier::truncate] (unix_now() as u64);
        TimeTrackerState::load_at(data, now)
    }

    /// The seconds the session in progress shows when its running interval,
    /// if any, has lasted `running_secs`: the accumulated ones plus those
    /// (held at `u64::MAX`).
    pub fn display_secs_with(&self, running_secs: u64) -> (r: u64)
        ensures
            r == shown_secs(*self, running_secs),
    {
        match &self.current_session_start {
            Some(_) => self.current_session_elapsed.saturating_add(running_secs),
            None => self.current_session_elapsed,
        }
    }

    /// The seconds the session in progress shows now (see
    /// `display_secs_with`; the running interval is measured by the clock).
    pub fn session_display_secs(&self) -> (r: u64)
        ensures
            exists|running_secs: u64| r == #[trigger] shown_secs(*self, running_secs),
            self.current_session_start is None ==> r == self.current_session_elapsed,
    {
        let running = match &self.current_session_start {
            Some(start) => crate::clock::instant_elapsed_secs(start),
            None => 0,
        };
        self.display_secs_with(running)
    }

    /// Copies the session in progress into the data, at Unix time `now_unix`,
    /// its running interval (while tracking) having lasted `running_secs`:
    /// that interval is kept by its start, `now_unix - running_secs` (held at
    /// 0). `None` when there is nothing worth keeping.
    pub fn sync_active_session_at(&mut self, now_unix: u64, running_secs: u64)
        ensures
            records_session(final(self).data.active_session, *old(self), now_unix, running_secs),
            same_data_but_record(final(self).data, old(self).data),
            same_session(*final(self), *old(self)),
            same_forms(*final(self), *old(self)),
            final(self).save_requested == old(self).save_requested,
    {
        let has_state = self.active_project_id.is_some()
            || !self.active_session_name.as_str().is_empty()
            || self.active_parent_session_id.is_some() || self.is_tracking
            || self.current_session_elapsed > 0;
        if has_state {
            let project_id = match &self.active_project_id {
                Some(id) => id.clone(),
                None => String::new(),
            };
            let rec = ActiveSession {
                project_id,
                session_name: self.active_session_name.clone(),
                parent_session_id: self.active_parent_session_id.clone(),
                is_tracking: self.is_tracking,
                start_unix: if self.is_tracking {
                    now_unix.saturating_sub(running_secs)
                } else {
                    0
                },
                elapsed_secs: self.current_session_elapsed,
            };
            self.data.active_session = Some(rec);
        } else {
            self.data.active_session = None;
        }
    }

    /// Copies the session in progress into the data, stamped with the current
    /// Unix time.
    pub fn sync_active_session(&mut self)
        ensures
            synced(*final(self)),
            same_data_but_record(final(self).data, old(self).data),
            same_session(*final(self), *old(self)),
            same_forms(*final(self), *old(self)),
            final(self).save_requested == old(self).save_requested,
    {
        let now = #[verifier::truncate] (unix_now() as u64);
        let running = match &self.current_session_start {
            Some(start) => crate::clock::instant_elapsed_secs(start),
            None => 0,
        };
        self.sync_active_session_at(now, running);
        assert(records_session(self.data.active_session, *self, now, running));
    }

    /// Saves: copies the session in progress into the data and requests that
    /// the data be written out.
    pub fn save(&mut self)
        ensures
            saved(*final(self)),
            same_data_but_record(final(self).data, old(self).data),
            same_session(*final(self), *old(self)),
            same_forms(*final(self), *old(self)),
    {
        self.sync_active_session();
        let ghost (now, running) = choose|now: u64, running_secs: u64|
            #[trigger] records_session(self.data.active_session, *self, now, running_secs);
        self.save_requested = true;
        assert(records_session(self.data.active_session, *self, now, running));
    }
}

} // verus!
