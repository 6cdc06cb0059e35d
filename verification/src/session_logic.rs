//! Projects and the recording of work sessions: creating a project, starting,
//! pausing and finishing a session, continuing, renaming and deleting.
use vstd::prelude::*;

use crate::clock::{instant_elapsed_secs, instant_now, new_id, unix_now};
use crate::i18n::{t, translate, Language};
use crate::ids::{find_index, id_differs, index_of, lemma_index_of, remove_with_id};
use crate::models::{Project, Session, SubSession};
use crate::text::{all_ws, decimal, decimal_string, is_blank, join_with_space, to_owned_string};
use crate::tracker::{
    opt_view, same_data_but_record, same_forms, same_session, same_settings, saved, shown_secs,
    TimeTrackerState,
};

verus! {

/// `a + b`, held at `u64::MAX`.
pub open spec fn sat_add(a: u64, b: u64) -> u64 {
    if a + b <= u64::MAX {
        (a + b) as u64
    } else {
        u64::MAX
    }
}

/// `a - b`, held at 0.
pub open spec fn sat_sub(a: u64, b: u64) -> u64 {
    if a >= b {
        (a - b) as u64
    } else {
        0
    }
}

/// `el` is what the accumulated seconds of `s` become when its running
/// interval, if any, is folded in: some value at least the old one while an
/// interval runs, the old value otherwise.
pub open spec fn folds_to(s: TimeTrackerState, el: u64) -> bool {
    if s.current_session_start is Some {
        el >= s.current_session_elapsed
    } else {
        el == s.current_session_elapsed
    }
}

/// The start of a recorded interval that ends at `end` and lasted `el`
/// seconds.
pub open spec fn interval_start(el: u64, end: u64) -> u64 {
    if el > 0 {
        sat_sub(end, el)
    } else {
        end
    }
}

/// The name given to a session finished without one: the word for "Session"
/// and its number.
pub open spec fn default_session_name(lang: Language, n: nat) -> Seq<char> {
    translate(lang, "session_label"@) + seq![' '] + decimal(n)
}

/// The number shown in a default session name for a project that holds `len`
/// sessions.
pub open spec fn next_number(len: nat) -> nat {
    if len + 1 <= u64::MAX {
        len + 1
    } else {
        u64::MAX as nat
    }
}

/// Nothing is recorded anymore: no interval runs and the session's name, the
/// session it continues and its seconds are cleared; the project stays chosen.
pub open spec fn session_cleared(s: TimeTrackerState, old: TimeTrackerState) -> bool {
    &&& !s.is_tracking
    &&& s.current_session_start is None
    &&& s.current_session_elapsed == 0
    &&& s.active_session_name@.len() == 0
    &&& s.active_parent_session_id is None
    &&& s.active_project_id == old.active_project_id
}

/// `new` is `old` after the session in progress was written into the project
/// at index `pi`, folded to `el` seconds and ending at Unix time `end`.
pub open spec fn finished_into(
    old: TimeTrackerState,
    new: TimeTrackerState,
    pi: int,
    el: u64,
    end: u64,
) -> bool {
    let p = old.data.projects@[pi];
    let q = new.data.projects@[pi];
    let start = interval_start(el, end);
    &&& new.data.projects@ == old.data.projects@.update(pi, q)
    &&& q.id == p.id
    &&& q.name == p.name
    &&& match old.active_parent_session_id {
        Some(parent) => {
            let si = index_of(p.sessions@, parent@);
            if si == -1 {
                q.sessions == p.sessions
            } else {
                let s = p.sessions@[si];
                let s2 = q.sessions@[si];
                &&& q.sessions@ == p.sessions@.update(si, s2)
                &&& s2.id == s.id
                &&& s2.name == s.name
                &&& s2.start_time == s.start_time
                &&& s2.end_time == s.end_time
                &&& s2.sub_sessions@ == s.sub_sessions@.push(
                    SubSession { start_time: start, end_time: end },
                )
            }
        },
        None => {
            let s2 = q.sessions@.last();
            &&& q.sessions@ == p.sessions@.push(s2)
            &&& s2.id@.len() == 36
            &&& s2.name@ == (if all_ws(old.active_session_name@) {
                default_session_name(old.data.language, next_number(p.sessions@.len()))
            } else {
                old.active_session_name@
            })
            &&& s2.start_time == start
            &&& s2.end_time == end
            &&& s2.sub_sessions@.len() == 0
        },
    }
}

/// The accumulated seconds with which the session of `s` is finished when
/// its running interval lasted `running_secs`: folded in only while tracking.
pub open spec fn finish_folded(s: TimeTrackerState, running_secs: u64) -> u64 {
    if s.is_tracking {
        shown_secs(s, running_secs)
    } else {
        s.current_session_elapsed
    }
}

/// `new` is `old` after its session, with `el` accumulated seconds, was
/// finished at Unix time `end`: recorded into the active project (as a
/// sub-session of the session it continues when that one still exists, else
/// as a new session named after the form or "Session n" when the name is
/// blank), then cleared, and the state saved. Nothing changes when no project
/// is active or the active one is gone.
pub open spec fn finished(old: TimeTrackerState, new: TimeTrackerState, el: u64, end: u64) -> bool {
    let found = match old.active_project_id {
        Some(pid) => index_of(old.data.projects@, pid@) != -1,
        None => false,
    };
    &&& !found ==> new == old
    &&& found ==> {
        let pi = index_of(old.data.projects@, old.active_project_id->0@);
        &&& finished_into(old, new, pi, el, end)
        &&& session_cleared(new, old)
        &&& new.data.tasks == old.data.tasks
        &&& same_settings(new.data, old.data)
        &&& same_forms(new, old)
        &&& saved(new)
    }
}

/// A recorded interval lasts exactly the accumulated seconds, unless these go
/// back before the Unix epoch.
pub proof fn lemma_interval_lasts_elapsed(el: u64, end: u64)
    requires
        el <= end,
    ensures
        interval_start(el, end) <= end,
        end - interval_start(el, end) == el,
{
}

/// Replaces the project at `i`.
fn replace_project(v: &mut Vec<Project>, i: usize, p: Project)
    requires
        i < old(v)@.len(),
    ensures
        final(v)@ == old(v)@.update(i as int, p),
{
    let _ = v.remove(i);
    v.insert(i, p);
    assert(final(v)@ =~= old(v)@.update(i as int, p));
}

/// Replaces the session at `i`.
fn replace_session(v: &mut Vec<Session>, i: usize, s: Session)
    requires
        i < old(v)@.len(),
    ensures
        final(v)@ == old(v)@.update(i as int, s),
{
    let _ = v.remove(i);
    v.insert(i, s);
    assert(final(v)@ =~= old(v)@.update(i as int, s));
}

/// The name of a session finished without a name: "Session n" in `lang`.
pub fn session_name_for(lang: &Language, n: u64) -> (r: String)
    ensures
        r@ == default_session_name(*lang, n as nat),
{
    let label = t(lang, "session_label");
    let num = decimal_string(n);
    join_with_space(label, num.as_str())
}

impl TimeTrackerState {
    /// Creates a project named after the form. A blank name is refused with a
    /// message and changes nothing else; otherwise the project is added with
    /// a fresh identifier and no sessions, becomes the active project, the
    /// form is cleared and the state is saved.
    pub fn add_project(&mut self)
        ensures
            all_ws(old(self).new_project_name@) ==> {
                &&& final(self).new_project_error matches Some(e) && e@ == translate(
                    old(self).data.language,
                    "error_empty_name"@,
                )
                &&& final(self).data == old(self).data
                &&& same_session(*final(self), *old(self))
                &&& final(self).new_project_name == old(self).new_project_name
                &&& final(self).save_requested == old(self).save_requested
            },
            !all_ws(old(self).new_project_name@) ==> {
                let p = final(self).data.projects@.last();
                &&& final(self).new_project_error is None
                &&& final(self).data.projects@ == old(self).data.projects@.push(p)
                &&& p.name == old(self).new_project_name
                &&& p.id@.len() == 36
                &&& p.sessions@.len() == 0
                &&& opt_view(final(self).active_project_id) == Some(p.id@)
                &&& final(self).new_project_name@.len() == 0
                &&& final(self).data.tasks == old(self).data.tasks
                &&& same_settings(final(self).data, old(self).data)
                &&& final(self).active_session_name == old(self).active_session_name
                &&& final(self).active_parent_session_id == old(self).active_parent_session_id
                &&& final(self).is_tracking == old(self).is_tracking
                &&& final(self).current_session_start == old(self).current_session_start
                &&& final(self).current_session_elapsed == old(self).current_session_elapsed
                &&& saved(*final(self))
            },
            final(self).export_message == old(self).export_message,
            final(self).new_task_name == old(self).new_task_name,
            final(self).new_task_error == old(self).new_task_error,
    {
        self.new_project_error = None;
        if is_blank(self.new_project_name.as_str()) {
            let msg = t(&self.data.language, "error_empty_name");
            self.new_project_error = Some(to_owned_string(msg));
            return;
        }
        let id = new_id();
        let name = self.new_project_name.clone();
        self.data.projects.push(Project { id: id.clone(), name, sessions: Vec::new() });
        self.active_project_id = Some(id);
        self.new_project_name = String::new();
        self.save();
    }

    /// Starts the running interval of the session and saves.
    pub fn start_session(&mut self)
        ensures
            final(self).is_tracking,
            final(self).current_session_start is Some,
            final(self).current_session_elapsed == old(self).current_session_elapsed,
            final(self).active_project_id == old(self).active_project_id,
            final(self).active_session_name == old(self).active_session_name,
            final(self).active_parent_session_id == old(self).active_parent_session_id,
            same_data_but_record(final(self).data, old(self).data),
            same_forms(*final(self), *old(self)),
            saved(*final(self)),
    {
        self.current_session_start = Some(instant_now());
        self.is_tracking = true;
        self.save();
    }

    /// Pauses after the running interval, if any, lasted `running_secs`: the
    /// interval is folded into the accumulated seconds (held at `u64::MAX`),
    /// tracking stops and the state is saved.
    pub fn pause_session_after(&mut self, running_secs: u64)
        ensures
            !final(self).is_tracking,
            final(self).current_session_start is None,
            final(self).current_session_elapsed == shown_secs(*old(self), running_secs),
            final(self).active_project_id == old(self).active_project_id,
            final(self).active_session_name == old(self).active_session_name,
            final(self).active_parent_session_id == old(self).active_parent_session_id,
            same_data_but_record(final(self).data, old(self).data),
            same_forms(*final(self), *old(self)),
            saved(*final(self)),
    {
        if self.current_session_start.is_some() {
            self.current_session_elapsed = self.current_session_elapsed.saturating_add(running_secs);
        }
        self.current_session_start = None;
        self.is_tracking = false;
        self.save();
    }

    /// Pauses now (see `pause_session_after`; the running interval is measured
    /// by the clock).
    pub fn pause_session(&mut self)
        ensures
            !final(self).is_tracking,
            final(self).current_session_start is None,
            exists|running_secs: u64|
                final(self).current_session_elapsed == #[trigger] shown_secs(
                    *old(self),
                    running_secs,
                ),
            folds_to(*old(self), final(self).current_session_elapsed),
            final(self).active_project_id == old(self).active_project_id,
            final(self).active_session_name == old(self).active_session_name,
            final(self).active_parent_session_id == old(self).active_parent_session_id,
            same_data_but_record(final(self).data, old(self).data),
            same_forms(*final(self), *old(self)),
            saved(*final(self)),
    {
        let running = match &self.current_session_start {
            Some(start) => instant_elapsed_secs(start),
            None => 0,
        };
        self.pause_session_after(running);
    }

    /// Starts the session when it is paused, pauses it when it runs. Returns
    /// whether the window should be minimized (it is, on start).
    pub fn toggle_tracking(&mut self) -> (minimize: bool)
        ensures
            minimize == !old(self).is_tracking,
            final(self).is_tracking == !old(self).is_tracking,
            old(self).is_tracking ==> final(self).current_session_start is None && folds_to(
                *old(self),
                final(self).current_session_elapsed,
            ),
            !old(self).is_tracking ==> final(self).current_session_start is Some
                && final(self).current_session_elapsed == old(self).current_session_elapsed,
            final(self).active_project_id == old(self).active_project_id,
            final(self).active_session_name == old(self).active_session_name,
            final(self).active_parent_session_id == old(self).active_parent_session_id,
            same_data_but_record(final(self).data, old(self).data),
            same_forms(*final(self), *old(self)),
            saved(*final(self)),
    {
        if self.is_tracking {
            self.pause_session();
            false
        } else {
            self.start_session();
            true
        }
    }

    /// Finishes the session in progress, whose running interval (while
    /// tracking) lasted `running_secs`, at Unix time `end`, and records it in
    /// its project as `finished` says.
    pub fn finish_session_at(&mut self, running_secs: u64, end: u64)
        ensures
            finished(*old(self), *final(self), finish_folded(*old(self), running_secs), end),
    {
        let pid = match &self.active_project_id {
            Some(p) => p.clone(),
            None => {
                return;
            },
        };
        let pi = match find_index(&self.data.projects, pid.as_str()) {
            Some(i) => i,
            None => {
                return;
            },
        };
        let ghost old_state = *self;
        proof {
            lemma_index_of(self.data.projects@, pid@);
        }
        if self.is_tracking && self.current_session_start.is_some() {
            self.current_session_elapsed = self.current_session_elapsed.saturating_add(running_secs);
        }
        let el = self.current_session_elapsed;
        assert(el == finish_folded(old_state, running_secs));
        let start = if el > 0 {
            end.saturating_sub(el)
        } else {
            end
        };
        let mut proj = self.data.projects.remove(pi);
        let ghost p = proj;
        match &self.active_parent_session_id {
            Some(parent_id) => {
                proof {
                    lemma_index_of(proj.sessions@, parent_id@);
                }
                match find_index(&proj.sessions, parent_id.as_str()) {
                    Some(si) => {
                        let mut sess = proj.sessions.remove(si);
                        sess.sub_sessions.push(SubSession { start_time: start, end_time: end });
                        let ghost s2 = sess;
                        proj.sessions.insert(si, sess);
                        assert(proj.sessions@ =~= p.sessions@.update(si as int, s2));
                    },
                    None => {},
                }
            },
            None => {
                let name = if is_blank(self.active_session_name.as_str()) {
                    let n = proj.sessions.len() as u64;
                    let count = n.saturating_add(1);
                    session_name_for(&self.data.language, count)
                } else {
                    self.active_session_name.clone()
                };
                let id = new_id();
                proj.sessions.push(
                    Session {
                        id,
                        name,
                        start_time: start,
                        end_time: end,
                        sub_sessions: Vec::new(),
                    },
                );
            },
        }
        let ghost q = proj;
        self.data.projects.insert(pi, proj);
        assert(self.data.projects@ =~= old_state.data.projects@.update(pi as int, q));
        assert(finished_into(old_state, *self, pi as int, el, end));
        self.is_tracking = false;
        self.current_session_start = None;
        self.current_session_elapsed = 0;
        self.active_session_name = String::new();
        self.active_parent_session_id = None;
        self.save();
        assert(finished_into(old_state, *self, pi as int, el, end));
    }

    /// Finishes the session in progress now (see `finish_session_at`; the
    /// running interval is measured by the clock, and the recorded interval
    /// ends at the current Unix time).
    pub fn finish_session(&mut self)
        ensures
            exists|el: u64, end: u64|
                folds_to(*old(self), el) && #[trigger] finished(*old(self), *final(self), el, end),
    {
        let running = match &self.current_session_start {
            Some(start) => {
                if self.is_tracking {
                    instant_elapsed_secs(start)
                } else {
                    0
                }
            },
            None => 0,
        };
        let end = #[verifier::truncate] (unix_now() as u64);
        let ghost el = finish_folded(*self, running);
        self.finish_session_at(running, end);
        assert(folds_to(*old(self), el));
    }

    /// Deletes every project with the identifier `project_id`. When it was the
    /// active project the session in progress is dropped too. Saves.
    pub fn delete_project(&mut self, project_id: &str)
        ensures
            final(self).data.projects@ == old(self).data.projects@.filter(
                id_differs::<Project>(project_id@),
            ),
            opt_view(old(self).active_project_id) == Some(project_id@) ==> {
                &&& final(self).active_project_id is None
                &&& final(self).active_session_name@.len() == 0
                &&& final(self).active_parent_session_id is None
                &&& final(self).current_session_start is None
                &&& final(self).current_session_elapsed == 0
                &&& !final(self).is_tracking
            },
            opt_view(old(self).active_project_id) != Some(project_id@) ==> same_session(
                *final(self),
                *old(self),
            ),
            final(self).data.tasks == old(self).data.tasks,
            same_settings(final(self).data, old(self).data),
            same_forms(*final(self), *old(self)),
            saved(*final(self)),
    {
        remove_with_id(&mut self.data.projects, project_id);
        let is_active = match &self.active_project_id {
            Some(id) => crate::text::str_eq(id.as_str(), project_id),
            None => false,
        };
        if is_active {
            self.active_project_id = None;
            self.active_session_name = String::new();
            self.active_parent_session_id = None;
            self.current_session_start = None;
            self.current_session_elapsed = 0;
            self.is_tracking = false;
        }
        self.save();
    }

    /// Deletes every session with the identifier `session_id` from the first
    /// project with the identifier `project_id`. When that session was being
    /// continued, the continuation is dropped. Saves.
    pub fn delete_session(&mut self, project_id: &str, session_id: &str)
        ensures
            ({
                let pi = index_of(old(self).data.projects@, project_id@);
                if pi == -1 {
                    final(self).data.projects == old(self).data.projects
                } else {
                    let p = old(self).data.projects@[pi];
                    let q = final(self).data.projects@[pi];
                    &&& final(self).data.projects@ == old(self).data.projects@.update(pi, q)
                    &&& q.id == p.id
                    &&& q.name == p.name
                    &&& q.sessions@ == p.sessions@.filter(id_differs::<Session>(session_id@))
                }
            }),
            opt_view(old(self).active_parent_session_id) == Some(session_id@) ==> {
                &&& final(self).active_parent_session_id is None
                &&& final(self).active_session_name@.len() == 0
            },
            opt_view(old(self).active_parent_session_id) != Some(session_id@) ==> {
                &&& final(self).active_parent_session_id == old(self).active_parent_session_id
                &&& final(self).active_session_name == old(self).active_session_name
            },
            final(self).active_project_id == old(self).active_project_id,
            final(self).is_tracking == old(self).is_tracking,
            final(self).current_session_start == old(self).current_session_start,
            final(self).current_session_elapsed == old(self).current_session_elapsed,
            final(self).data.tasks == old(self).data.tasks,
            same_settings(final(self).data, old(self).data),
            same_forms(*final(self), *old(self)),
            saved(*final(self)),
    {
        proof {
            lemma_index_of(self.data.projects@, project_id@);
        }
        match find_index(&self.data.projects, project_id) {
            Some(pi) => {
                let ghost before = self.data.projects@;
                let mut proj = self.data.projects.remove(pi);
                remove_with_id(&mut proj.sessions, session_id);
                let ghost q = proj;
                self.data.projects.insert(pi, proj);
                assert(self.data.projects@ =~= before.update(pi as int, q));
            },
            None => {},
        }
        let is_parent = match &self.active_parent_session_id {
            Some(id) => crate::text::str_eq(id.as_str(), session_id),
            None => false,
        };
        if is_parent {
            self.active_parent_session_id = None;
            self.active_session_name = String::new();
        }
        self.save();
    }

    /// Makes `session_id` the session that the next finished session
    /// continues, under the name `session_name`, and saves. Ignored while a
    /// session is being tracked.
    pub fn continue_session(&mut self, session_id: String, session_name: String)
        ensures
            old(self).is_tracking ==> *final(self) == *old(self),
            !old(self).is_tracking ==> {
                &&& final(self).active_parent_session_id == Some(session_id)
                &&& final(self).active_session_name == session_name
                &&& final(self).active_project_id == old(self).active_project_id
                &&& final(self).is_tracking == old(self).is_tracking
                &&& final(self).current_session_start == old(self).current_session_start
                &&& final(self).current_session_elapsed == old(self).current_session_elapsed
                &&& same_data_but_record(final(self).data, old(self).data)
                &&& same_forms(*final(self), *old(self))
                &&& saved(*final(self))
            },
    {
        if self.is_tracking {
            return;
        }
        self.active_parent_session_id = Some(session_id);
        self.active_session_name = session_name;
        self.save();
    }

    /// Renames the first session with the identifier `session_id` in the
    /// first project with the identifier `project_id`, and saves. Nothing
    /// happens when either is missing.
    pub fn rename_session(&mut self, project_id: &str, session_id: &str, new_name: String)
        ensures
            ({
                let pi = index_of(old(self).data.projects@, project_id@);
                let si = if pi == -1 {
                    -1
                } else {
                    index_of(old(self).data.projects@[pi].sessions@, session_id@)
                };
                &&& si == -1 ==> *final(self) == *old(self)
                &&& si != -1 ==> {
                    let p = old(self).data.projects@[pi];
                    let q = final(self).data.projects@[pi];
                    let s = p.sessions@[si];
                    let s2 = q.sessions@[si];
                    &&& final(self).data.projects@ == old(self).data.projects@.update(pi, q)
                    &&& q.id == p.id
                    &&& q.name == p.name
                    &&& q.sessions@ == p.sessions@.update(si, s2)
                    &&& s2.name == new_name
                    &&& s2.id == s.id
                    &&& s2.start_time == s.start_time
                    &&& s2.end_time == s.end_time
                    &&& s2.sub_sessions == s.sub_sessions
                    &&& final(self).data.tasks == old(self).data.tasks
                    &&& same_settings(final(self).data, old(self).data)
                    &&& same_session(*final(self), *old(self))
                    &&& same_forms(*final(self), *old(self))
                    &&& saved(*final(self))
                }
            }),
    {
        proof {
            lemma_index_of(self.data.projects@, project_id@);
        }
        let pi = match find_index(&self.data.projects, project_id) {
            Some(i) => i,
            None => {
                return;
            },
        };
        proof {
            lemma_index_of(self.data.projects@[pi as int].sessions@, session_id@);
        }
        let si = match find_index(&self.data.projects[pi].sessions, session_id) {
            Some(i) => i,
            None => {
                return;
            },
        };
        let ghost before = self.data.projects@;
        let mut proj = self.data.projects.remove(pi);
        let ghost p = proj;
        let mut sess = proj.sessions.remove(si);
        sess.name = new_name;
        let ghost s2 = sess;
        proj.sessions.insert(si, sess);
        assert(proj.sessions@ =~= p.sessions@.update(si as int, s2));
        let ghost q = proj;
        self.data.projects.insert(pi, proj);
        assert(self.data.projects@ =~= before.update(pi as int, q));
        self.save();
    }

    /// Chooses the project whose sessions are shown and recorded; ignored
    /// while a session is being tracked.
    pub fn select_project(&mut self, project_id: String)
        ensures
            old(self).is_tracking ==> *final(self) == *old(self),
            !old(self).is_tracking ==> {
                &&& final(self).active_project_id == Some(project_id)
                &&& final(self).data == old(self).data
                &&& final(self).active_session_name == old(self).active_session_name
                &&& final(self).active_parent_session_id == old(self).active_parent_session_id
                &&& final(self).current_session_elapsed == old(self).current_session_elapsed
                &&& final(self).current_session_start == old(self).current_session_start
                &&& final(self).is_tracking == old(self).is_tracking
                &&& same_forms(*final(self), *old(self))
                &&& final(self).save_requested == old(self).save_requested
            },
    {
        if !self.is_tracking {
            self.active_project_id = Some(project_id);
        }
    }

    /// Asks for confirmation before deleting a project; ignored while a
    /// session is being tracked.
    pub fn request_project_deletion(&mut self, project_id: String)
        ensures
            old(self).is_tracking ==> *final(self) == *old(self),
            !old(self).is_tracking ==> final(self).deleting_project_id == Some(project_id),
            final(self).data == old(self).data,
            same_session(*final(self), *old(self)),
            final(self).save_requested == old(self).save_requested,
    {
        if !self.is_tracking {
            self.deleting_project_id = Some(project_id);
        }
    }

    /// Closes the dialog that asks to delete a project: a confirmation
    /// deletes it (see `delete_project`), a refusal keeps everything.
    pub fn resolve_project_deletion(&mut self, confirmed: bool)
        ensures
            final(self).deleting_project_id is None,
            !confirmed || old(self).deleting_project_id is None ==> {
                &&& final(self).data == old(self).data
                &&& same_session(*final(self), *old(self))
                &&& final(self).save_requested == old(self).save_requested
            },
            confirmed && old(self).deleting_project_id is Some ==> {
                let id = old(self).deleting_project_id->0@;
                &&& final(self).data.projects@ == old(self).data.projects@.filter(
                    id_differs::<Project>(id),
                )
                &&& opt_view(old(self).active_project_id) == Some(id)
                    ==> final(self).active_project_id is None && !final(self).is_tracking
                    && final(self).current_session_elapsed == 0
                &&& saved(*final(self))
            },
    {
        let pending = self.deleting_project_id.take();
        if confirmed {
            if let Some(id) = pending {
                self.delete_project(id.as_str());
            }
        }
    }

    /// Starts editing the name of a session, with its current name in the
    /// field.
    pub fn begin_session_edit(&mut self, project_id: String, session_id: String, current_name: String)
        ensures
            final(self).editing_session_id == Some((project_id, session_id)),
            final(self).editing_session_name == current_name,
            final(self).data == old(self).data,
            same_session(*final(self), *old(self)),
            final(self).save_requested == old(self).save_requested,
    {
        self.editing_session_id = Some((project_id, session_id));
        self.editing_session_name = current_name;
    }

    /// Gives up editing a session's name.
    pub fn cancel_session_edit(&mut self)
        ensures
            final(self).editing_session_id is None,
            final(self).data == old(self).data,
            same_session(*final(self), *old(self)),
            final(self).save_requested == old(self).save_requested,
    {
        self.editing_session_id = None;
    }

    /// Saves the edited name of the session being edited (see
    /// `rename_session`) and stops editing.
    pub fn commit_session_edit(&mut self)
        ensures
            final(self).editing_session_id is None,
            old(self).editing_session_id is None ==> final(self).data == old(self).data,
            old(self).editing_session_id matches Some(ids) ==> {
                let pi = index_of(old(self).data.projects@, ids.0@);
                let si = if pi == -1 {
                    -1
                } else {
                    index_of(old(self).data.projects@[pi].sessions@, ids.1@)
                };
                &&& si == -1 ==> final(self).data == old(self).data
                &&& si != -1 ==> {
                    let s2 = final(self).data.projects@[pi].sessions@[si];
                    &&& s2.name == old(self).editing_session_name
                    &&& s2.id == old(self).data.projects@[pi].sessions@[si].id
                    &&& saved(*final(self))
                }
            },
            same_session(*final(self), *old(self)),
    {
        let pending = self.editing_session_id.take();
        if let Some((pid, sid)) = pending {
            let name = self.editing_session_name.clone();
            self.rename_session(pid.as_str(), sid.as_str(), name);
        }
    }

    /// Asks for confirmation before deleting a session.
    pub fn request_session_deletion(&mut self, project_id: String, session_id: String)
        ensures
            final(self).deleting_session_id == Some((project_id, session_id)),
            final(self).data == old(self).data,
            same_session(*final(self), *old(self)),
            final(self).save_requested == old(self).save_requested,
    {
        self.deleting_session_id = Some((project_id, session_id));
    }

    /// Closes the dialog that asks to delete a session: a confirmation
    /// deletes it (see `delete_session`), a refusal keeps everything.
    pub fn resolve_session_deletion(&mut self, confirmed: bool)
        ensures
            final(self).deleting_session_id is None,
            !confirmed || old(self).deleting_session_id is None ==> {
                &&& final(self).data == old(self).data
                &&& same_session(*final(self), *old(self))
                &&& final(self).save_requested == old(self).save_requested
            },
            confirmed && old(self).deleting_session_id is Some ==> {
                let pid = (old(self).deleting_session_id->0).0@;
                let sid = (old(self).deleting_session_id->0).1@;
                let pi = index_of(old(self).data.projects@, pid);
                &&& pi != -1 ==> final(self).data.projects@[pi].sessions@
                    == old(self).data.projects@[pi].sessions@.filter(id_differs::<Session>(sid))
                &&& pi == -1 ==> final(self).data.projects == old(self).data.projects
                &&& opt_view(old(self).active_parent_session_id) == Some(sid)
                    ==> final(self).active_parent_session_id is None
                &&& saved(*final(self))
            },
    {
        let pending = self.deleting_session_id.take();
        if confirmed {
            if let Some((pid, sid)) = pending {
                self.delete_session(pid.as_str(), sid.as_str());
            }
        }
    }

    /// The name of the active project; empty when there is none or it is gone.
    pub fn active_project_name(&self) -> (r: String)
        ensures
            r@ == (match self.active_project_id {
                Some(id) => {
                    let k = index_of(self.data.projects@, id@);
                    if k == -1 {
                        Seq::empty()
                    } else {
                        self.data.projects@[k].name@
                    }
                },
                None => Seq::<char>::empty(),
            }),
    {
        match &self.active_project_id {
            Some(id) => {
                proof {
                    lemma_index_of(self.data.projects@, id@);
                }
                match find_index(&self.data.projects, id.as_str()) {
                    Some(k) => self.data.projects[k].name.clone(),
                    None => String::new(),
                }
            },
            None => String::new(),
        }
    }

    /// Whether the session can be finished and saved: it has seconds to
    /// record, or it continues an earlier session.
    pub fn can_finish(&self, current_secs: u64) -> (r: bool)
        ensures
            r == (current_secs > 0 || self.active_parent_session_id is Some),
    {
        current_secs > 0 || self.active_parent_session_id.is_some()
    }
}

/// After a deletion, no record with the deleted identifier is left.
pub proof fn lemma_deleted_absent<T: crate::ids::Identified>(s: Seq<T>, id: Seq<char>)
    ensures
        forall|j: int|
            0 <= j < s.filter(id_differs::<T>(id)).len() ==> (#[trigger] s.filter(
                id_differs::<T>(id),
            )[j]).id_view() != id,
        index_of(s.filter(id_differs::<T>(id)), id) == -1,
{
    broadcast use vstd::seq_lib::group_filter_ensures;
    lemma_index_of(s.filter(id_differs::<T>(id)), id);
    assert forall|j: int|
        0 <= j < s.filter(id_differs::<T>(id)).len() implies (#[trigger] s.filter(
        id_differs::<T>(id),
    )[j]).id_view() != id by {
        assert(id_differs::<T>(id)(s.filter(id_differs::<T>(id))[j]));
    }
}

} // verus!