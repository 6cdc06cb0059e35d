//! The tracker's data: projects with their sessions, tasks, settings and the
//! session in progress, with the durations they add up to.
use vstd::prelude::*;

use crate::clock::local_midnight_unix;
use crate::i18n::Language;

verus! {

/// A task's priority.
#[derive(Clone, Copy, PartialEq, Eq, Debug, Structural)]
pub enum Priority {
    Alta,
    Media,
    Baja,
}

impl Default for Priority {
    fn default() -> (r: Priority)
        ensures
            r == Priority::Media,
    {
        Priority::Media
    }
}

/// The language a new data file starts with.
pub fn default_language() -> (r: Language)
    ensures
        r == Language::Es,
{
    Language::Es
}

/// Everything the tracker keeps between runs.
#[derive(Clone, Debug)]
pub struct TrackerData {
    pub schema_version: u32,
    pub language: Language,
    pub work_duration_mins: u64,
    pub rest_duration_mins: u64,
    pub ultradian_cycles_completed: u32,
    pub last_session_date: String,
    pub projects: Vec<Project>,
    pub tasks: Vec<Task>,
    pub screen_dim_during_rest: bool,
    pub screen_lock_during_rest: bool,
    pub active_session: Option<ActiveSession>,
}

/// The settings and empty collections of a fresh data file.
pub open spec fn is_fresh_data(d: TrackerData) -> bool {
    &&& d.schema_version == 1
    &&& d.language == Language::Es
    &&& d.work_duration_mins == 90
    &&& d.rest_duration_mins == 15
    &&& d.ultradian_cycles_completed == 0
    &&& d.last_session_date@.len() == 0
    &&& d.projects@.len() == 0
    &&& d.tasks@.len() == 0
    &&& !d.screen_dim_during_rest
    &&& !d.screen_lock_during_rest
    &&& d.active_session is None
}

impl Default for TrackerData {
    fn default() -> (r: TrackerData)
        ensures
            is_fresh_data(r),
    {
        TrackerData {
            schema_version: 1,
            language: default_language(),
            work_duration_mins: 90,
            rest_duration_mins: 15,
            ultradian_cycles_completed: 0,
            last_session_date: String::new(),
            projects: Vec::new(),
            tasks: Vec::new(),
            screen_dim_during_rest: false,
            screen_lock_during_rest: false,
            active_session: None,
        }
    }
}

/// A session that was started but not saved yet, kept so that it survives a
/// restart of the application.
#[derive(Clone, Debug, PartialEq, Eq)]
pub struct ActiveSession {
    pub project_id: String,
    pub session_name: String,
    pub parent_session_id: Option<String>,
    pub is_tracking: bool,
    /// Unix time at which the running interval started; only meaningful while
    /// `is_tracking`.
    pub start_unix: u64,
    /// Seconds of the intervals already completed.
    pub elapsed_secs: u64,
}

#[derive(Clone, Debug)]
pub struct Project {
    pub id: String,
    pub name: String,
    pub sessions: Vec<Session>,
}

#[derive(Clone, Debug)]
pub struct Session {
    pub id: String,
    pub name: String,
    pub start_time: u64,
    pub end_time: u64,
    pub sub_sessions: Vec<SubSession>,
}

#[derive(Clone, Copy, Debug)]
pub struct SubSession {
    pub start_time: u64,
    pub end_time: u64,
}

#[derive(Clone, Debug)]
pub struct Task {
    pub id: String,
    pub name: String,
    pub description: String,
    pub completed: bool,
    pub project: Option<String>,
    pub priority: Priority,
    pub tags: String,
    pub deadline: String,
}

/// The length of an interval; an interval that ends before it starts counts 0.
pub open spec fn span(start: u64, end: u64) -> int {
    if end >= start {
        end - start
    } else {
        0
    }
}

/// The sum of the lengths of sub-sessions.
pub open spec fn subs_total(subs: Seq<SubSession>) -> int
    decreases subs.len(),
{
    if subs.len() == 0 {
        0
    } else {
        subs_total(subs.drop_last()) + span(subs.last().start_time, subs.last().end_time)
    }
}

/// A session's length: its own interval and those of its sub-sessions.
pub open spec fn session_total(s: Session) -> int {
    span(s.start_time, s.end_time) + subs_total(s.sub_sessions@)
}

/// The sum of the lengths of sessions.
pub open spec fn sessions_total(ss: Seq<Session>) -> int
    decreases ss.len(),
{
    if ss.len() == 0 {
        0
    } else {
        sessions_total(ss.drop_last()) + session_total(ss.last())
    }
}

/// The part of `[start, end]` that falls inside `[lo, hi)`, as the tracker
/// counts it for a day.
pub open spec fn overlap(start: u64, end: u64, lo: u64, hi: u64) -> int {
    if end > lo && start < hi {
        let a = if start >= lo { start } else { lo };
        let b = if end <= hi { end } else { hi };
        span(a, b)
    } else {
        0
    }
}

/// The sum of the parts of sub-sessions inside `[lo, hi)`.
pub open spec fn subs_window(subs: Seq<SubSession>, lo: u64, hi: u64) -> int
    decreases subs.len(),
{
    if subs.len() == 0 {
        0
    } else {
        subs_window(subs.drop_last(), lo, hi) + overlap(
            subs.last().start_time,
            subs.last().end_time,
            lo,
            hi,
        )
    }
}

/// The part of a session, sub-sessions included, inside `[lo, hi)`.
pub open spec fn session_window(s: Session, lo: u64, hi: u64) -> int {
    overlap(s.start_time, s.end_time, lo, hi) + subs_window(s.sub_sessions@, lo, hi)
}

/// The sum of the parts of sessions inside `[lo, hi)`.
pub open spec fn sessions_window(ss: Seq<Session>, lo: u64, hi: u64) -> int
    decreases ss.len(),
{
    if ss.len() == 0 {
        0
    } else {
        sessions_window(ss.drop_last(), lo, hi) + session_window(ss.last(), lo, hi)
    }
}

/// The end of the day that starts at `lo` (86400 seconds later, held at
/// `u64::MAX`).
pub open spec fn day_end(lo: u64) -> u64 {
    if lo <= u64::MAX - 86400 {
        (lo + 86400) as u64
    } else {
        u64::MAX
    }
}

/// The part of an interval inside a window never exceeds the interval.
pub proof fn lemma_overlap_le_span(start: u64, end: u64, lo: u64, hi: u64)
    ensures
        0 <= overlap(start, end, lo, hi) <= span(start, end),
{
}

pub proof fn lemma_subs_total_nonneg(subs: Seq<SubSession>)
    ensures
        subs_total(subs) >= 0,
    decreases subs.len(),
{
    if subs.len() > 0 {
        lemma_subs_total_nonneg(subs.drop_last());
    }
}

pub proof fn lemma_sessions_total_nonneg(ss: Seq<Session>)
    ensures
        sessions_total(ss) >= 0,
    decreases ss.len(),
{
    if ss.len() > 0 {
        lemma_sessions_total_nonneg(ss.drop_last());
        lemma_subs_total_nonneg(ss.last().sub_sessions@);
    }
}

/// The total of a prefix of the sub-sessions is at most the total of all.
pub proof fn lemma_subs_total_prefix(subs: Seq<SubSession>, i: int)
    requires
        0 <= i <= subs.len(),
    ensures
        subs_total(subs.take(i)) <= subs_total(subs),
        subs_total(subs.take(i)) >= 0,
    decreases subs.len() - i,
{
    lemma_subs_total_nonneg(subs.take(i));
    if i < subs.len() {
        let t = subs.take(i + 1);
        lemma_subs_total_prefix(subs, i + 1);
        assert(t.drop_last() =~= subs.take(i));
    } else {
        assert(subs.take(i) =~= subs);
    }
}

/// The total of a prefix of the sessions is at most the total of all.
pub proof fn lemma_sessions_total_prefix(ss: Seq<Session>, i: int)
    requires
        0 <= i <= ss.len(),
    ensures
        sessions_total(ss.take(i)) <= sessions_total(ss),
        sessions_total(ss.take(i)) >= 0,
    decreases ss.len() - i,
{
    lemma_sessions_total_nonneg(ss.take(i));
    if i < ss.len() {
        let t = ss.take(i + 1);
        lemma_sessions_total_prefix(ss, i + 1);
        assert(t.drop_last() =~= ss.take(i));
        lemma_subs_total_nonneg(ss[i].sub_sessions@);
    } else {
        assert(ss.take(i) =~= ss);
    }
}

/// A project's total adds up over its sessions: the total of the sessions
/// `a` followed by `b` is the total of `a` plus the total of `b`, and no
/// sessions at all total 0.
pub proof fn lemma_sessions_total_concat(a: Seq<Session>, b: Seq<Session>)
    ensures
        sessions_total(a + b) == sessions_total(a) + sessions_total(b),
        sessions_total(Seq::<Session>::empty()) == 0,
    decreases b.len(),
{
    if b.len() == 0 {
        assert(a + b =~= a);
    } else {
        lemma_sessions_total_concat(a, b.drop_last());
        assert((a + b).drop_last() =~= a + b.drop_last());
        assert((a + b).last() == b.last());
    }
}

/// What falls inside a window is part of the whole: for sub-sessions.
pub proof fn lemma_subs_window_le_total(subs: Seq<SubSession>, lo: u64, hi: u64)
    ensures
        0 <= subs_window(subs, lo, hi) <= subs_total(subs),
    decreases subs.len(),
{
    if subs.len() > 0 {
        lemma_subs_window_le_total(subs.drop_last(), lo, hi);
        lemma_overlap_le_span(subs.last().start_time, subs.last().end_time, lo, hi);
    }
}

/// Time counted inside any window (today, for instance) never exceeds the
/// all-time total of the same sessions.
pub proof fn lemma_sessions_window_le_total(ss: Seq<Session>, lo: u64, hi: u64)
    ensures
        0 <= sessions_window(ss, lo, hi) <= sessions_total(ss),
    decreases ss.len(),
{
    if ss.len() > 0 {
        lemma_sessions_window_le_total(ss.drop_last(), lo, hi);
        lemma_subs_window_le_total(ss.last().sub_sessions@, lo, hi);
        lemma_overlap_le_span(ss.last().start_time, ss.last().end_time, lo, hi);
    }
}

/// A window's total over a prefix of the sub-sessions is at most that over
/// all of them.
proof fn lemma_subs_window_prefix_le(subs: Seq<SubSession>, i: int, lo: u64, hi: u64)
    requires
        0 <= i <= subs.len(),
    ensures
        0 <= subs_window(subs.take(i), lo, hi) <= subs_window(subs, lo, hi),
    decreases subs.len() - i,
{
    lemma_subs_window_le_total(subs.take(i), lo, hi);
    if i < subs.len() {
        lemma_subs_window_prefix_le(subs, i + 1, lo, hi);
        assert(subs.take(i + 1).drop_last() =~= subs.take(i));
        lemma_overlap_le_span(subs[i].start_time, subs[i].end_time, lo, hi);
    } else {
        assert(subs.take(i) =~= subs);
    }
}

/// A window's total over a prefix of the sessions is at most that over all
/// of them, and so is each session's part.
proof fn lemma_sessions_window_prefix_le(ss: Seq<Session>, i: int, lo: u64, hi: u64)
    requires
        0 <= i <= ss.len(),
    ensures
        0 <= sessions_window(ss.take(i), lo, hi) <= sessions_window(ss, lo, hi),
        i < ss.len() ==> 0 <= session_window(ss[i], lo, hi) <= sessions_window(ss, lo, hi),
    decreases ss.len() - i,
{
    lemma_sessions_window_le_total(ss.take(i), lo, hi);
    if i < ss.len() {
        lemma_sessions_window_prefix_le(ss, i + 1, lo, hi);
        assert(ss.take(i + 1).drop_last() =~= ss.take(i));
        lemma_overlap_le_span(ss[i].start_time, ss[i].end_time, lo, hi);
        lemma_subs_window_le_total(ss[i].sub_sessions@, lo, hi);
    } else {
        assert(ss.take(i) =~= ss);
    }
}

/// A window's total over a prefix of the sub-sessions.
proof fn lemma_subs_window_prefix(subs: Seq<SubSession>, i: int, lo: u64, hi: u64)
    requires
        0 <= i < subs.len(),
    ensures
        subs_window(subs.take(i + 1), lo, hi) == subs_window(subs.take(i), lo, hi) + overlap(
            subs[i].start_time,
            subs[i].end_time,
            lo,
            hi,
        ),
{
    assert(subs.take(i + 1).drop_last() =~= subs.take(i));
}

proof fn lemma_sessions_window_prefix(ss: Seq<Session>, i: int, lo: u64, hi: u64)
    requires
        0 <= i < ss.len(),
    ensures
        sessions_window(ss.take(i + 1), lo, hi) == sessions_window(ss.take(i), lo, hi)
            + session_window(ss[i], lo, hi),
{
    assert(ss.take(i + 1).drop_last() =~= ss.take(i));
}

impl SubSession {
    /// The sub-session's length in seconds; 0 when it ends before it starts.
    pub fn duration(&self) -> (r: u64)
        ensures
            r == span(self.start_time, self.end_time),
    {
        self.end_time.saturating_sub(self.start_time)
    }
}

impl Session {
    /// The session's length in seconds, sub-sessions included.
    pub fn total_duration(&self) -> (r: u64)
        requires
            session_total(*self) <= u64::MAX,
        ensures
            r == session_total(*self),
    {
        let subs = &self.sub_sessions;
        let mut total = self.end_time.saturating_sub(self.start_time);
        let n = subs.len();
        let mut i: usize = 0;
        proof {
            assert(subs@.take(0) =~= Seq::<SubSession>::empty());
        }
        while i < n
            invariant
                i <= n,
                n == subs@.len(),
                subs == &self.sub_sessions,
                session_total(*self) <= u64::MAX,
                total == span(self.start_time, self.end_time) + subs_total(subs@.take(i as int)),
            decreases n - i,
        {
            proof {
                assert(subs@.take(i + 1).drop_last() =~= subs@.take(i as int));
                lemma_subs_total_prefix(subs@, i + 1);
            }
            let sub = &subs[i];
            total = total + sub.end_time.saturating_sub(sub.start_time);
            i = i + 1;
        }
        proof {
            assert(subs@.take(n as int) =~= subs@);
        }
        total
    }

    /// The session's length, or `None` when it does not fit in a `u64`.
    pub fn checked_total_duration(&self) -> (r: Option<u64>)
        ensures
            r matches Some(v) ==> v == session_total(*self),
            r is None <==> session_total(*self) > u64::MAX,
    {
        let subs = &self.sub_sessions;
        let mut total = self.end_time.saturating_sub(self.start_time);
        let n = subs.len();
        let mut i: usize = 0;
        proof {
            assert(subs@.take(0) =~= Seq::<SubSession>::empty());
        }
        while i < n
            invariant
                i <= n,
                n == subs@.len(),
                subs == &self.sub_sessions,
                total == span(self.start_time, self.end_time) + subs_total(subs@.take(i as int)),
            decreases n - i,
        {
            proof {
                assert(subs@.take(i + 1).drop_last() =~= subs@.take(i as int));
                lemma_subs_total_prefix(subs@, i + 1);
            }
            let sub = &subs[i];
            let d = sub.end_time.saturating_sub(sub.start_time);
            match total.checked_add(d) {
                Some(v) => {
                    total = v;
                },
                None => {
                    return None;
                },
            }
            i = i + 1;
        }
        proof {
            assert(subs@.take(n as int) =~= subs@);
        }
        Some(total)
    }

    /// The part of the session, sub-sessions included, inside `[lo, hi)`.
    pub fn duration_in_window(&self, lo: u64, hi: u64) -> (r: u64)
        requires
            session_window(*self, lo, hi) <= u64::MAX,
        ensures
            r == session_window(*self, lo, hi),
    {
        let subs = &self.sub_sessions;
        let mut total: u64 = 0;
        proof {
            lemma_subs_window_le_total(subs@, lo, hi);
            lemma_overlap_le_span(self.start_time, self.end_time, lo, hi);
        }
        if self.end_time > lo && self.start_time < hi {
            let a = if self.start_time >= lo { self.start_time } else { lo };
            let b = if self.end_time <= hi { self.end_time } else { hi };
            total = b.saturating_sub(a);
        }
        let n = subs.len();
        let mut i: usize = 0;
        proof {
            assert(subs@.take(0) =~= Seq::<SubSession>::empty());
        }
        while i < n
            invariant
                i <= n,
                n == subs@.len(),
                subs == &self.sub_sessions,
                session_window(*self, lo, hi) <= u64::MAX,
                total == overlap(self.start_time, self.end_time, lo, hi) + subs_window(
                    subs@.take(i as int),
                    lo,
                    hi,
                ),
            decreases n - i,
        {
            proof {
                lemma_subs_window_prefix(subs@, i as int, lo, hi);
                lemma_subs_window_prefix_le(subs@, i + 1, lo, hi);
                lemma_overlap_le_span(self.start_time, self.end_time, lo, hi);
                lemma_overlap_le_span(subs@[i as int].start_time, subs@[i as int].end_time, lo, hi);
            }
            let sub = &subs[i];
            if sub.end_time > lo && sub.start_time < hi {
                let a = if sub.start_time >= lo { sub.start_time } else { lo };
                let b = if sub.end_time <= hi { sub.end_time } else { hi };
                total = total + b.saturating_sub(a);
            }
            i = i + 1;
        }
        proof {
            assert(subs@.take(n as int) =~= subs@);
        }
        total
    }
}

impl Project {
    /// The project's length in seconds: the sum over its sessions.
    pub fn total_duration(&self) -> (r: u64)
        requires
            sessions_total(self.sessions@) <= u64::MAX,
        ensures
            r == sessions_total(self.sessions@),
    {
        let ss = &self.sessions;
        let n = ss.len();
        let mut total: u64 = 0;
        let mut i: usize = 0;
        proof {
            assert(ss@.take(0) =~= Seq::<Session>::empty());
        }
        while i < n
            invariant
                i <= n,
                n == ss@.len(),
                ss == &self.sessions,
                sessions_total(self.sessions@) <= u64::MAX,
                total == sessions_total(ss@.take(i as int)),
            decreases n - i,
        {
            proof {
                assert(ss@.take(i + 1).drop_last() =~= ss@.take(i as int));
                lemma_sessions_total_prefix(ss@, i + 1);
                lemma_subs_total_nonneg(ss@[i as int].sub_sessions@);
            }
            let d = ss[i].total_duration();
            total = total + d;
            i = i + 1;
        }
        proof {
            assert(ss@.take(n as int) =~= ss@);
        }
        total
    }

    /// The project's length, or `None` when it does not fit in a `u64`.
    pub fn checked_total_duration(&self) -> (r: Option<u64>)
        ensures
            r matches Some(v) ==> v == sessions_total(self.sessions@),
            r is None <==> sessions_total(self.sessions@) > u64::MAX,
    {
        let ss = &self.sessions;
        let n = ss.len();
        let mut total: u64 = 0;
        let mut i: usize = 0;
        proof {
            assert(ss@.take(0) =~= Seq::<Session>::empty());
        }
        while i < n
            invariant
                i <= n,
                n == ss@.len(),
                ss == &self.sessions,
                total == sessions_total(ss@.take(i as int)),
            decreases n - i,
        {
            proof {
                assert(ss@.take(i + 1).drop_last() =~= ss@.take(i as int));
                lemma_sessions_total_prefix(ss@, i + 1);
                lemma_subs_total_nonneg(ss@[i as int].sub_sessions@);
            }
            match ss[i].checked_total_duration() {
                Some(d) => match total.checked_add(d) {
                    Some(v) => {
                        total = v;
                    },
                    None => {
                        return None;
                    },
                },
                None => {
                    proof {
                        lemma_sessions_total_nonneg(ss@.take(i as int));
                    }
                    return None;
                },
            }
            i = i + 1;
        }
        proof {
            assert(ss@.take(n as int) =~= ss@);
        }
        Some(total)
    }

    /// The part of the project's sessions inside `[lo, hi)`.
    pub fn duration_in_window(&self, lo: u64, hi: u64) -> (r: u64)
        requires
            sessions_window(self.sessions@, lo, hi) <= u64::MAX,
        ensures
            r == sessions_window(self.sessions@, lo, hi),
            r <= sessions_total(self.sessions@),
    {
        let ss = &self.sessions;
        let n = ss.len();
        let mut total: u64 = 0;
        let mut i: usize = 0;
        proof {
            assert(ss@.take(0) =~= Seq::<Session>::empty());
            lemma_sessions_window_le_total(ss@, lo, hi);
        }
        while i < n
            invariant
                i <= n,
                n == ss@.len(),
                ss == &self.sessions,
                sessions_window(self.sessions@, lo, hi) <= u64::MAX,
                total == sessions_window(ss@.take(i as int), lo, hi),
            decreases n - i,
        {
            proof {
                lemma_sessions_window_prefix(ss@, i as int, lo, hi);
                lemma_sessions_window_prefix_le(ss@, i + 1, lo, hi);
                lemma_sessions_window_prefix_le(ss@, i as int, lo, hi);
            }
            let d = ss[i].duration_in_window(lo, hi);
            total = total + d;
            i = i + 1;
        }
        proof {
            assert(ss@.take(n as int) =~= ss@);
        }
        total
    }

    /// The project's seconds within the day that starts at the Unix time
    /// `midnight`: the part of its sessions in the 86400 seconds from then;
    /// 0 when no midnight is known.
    pub fn duration_on_day(&self, midnight: Option<i64>) -> (r: u64)
        requires
            day_window(self.sessions@, midnight) <= u64::MAX,
        ensures
            r == day_window(self.sessions@, midnight),
            r <= sessions_total(self.sessions@),
    {
        match midnight {
            Some(ts) => {
                let lo = ts as u64;
                let hi = if lo <= u64::MAX - 86400 { lo + 86400 } else { u64::MAX };
                let r = self.duration_in_window(lo, hi);
                assert(r == sessions_window(self.sessions@, lo, day_end(lo)));
                r
            },
            None => {
                proof {
                    lemma_sessions_total_nonneg(self.sessions@);
                }
                0
            },
        }
    }

    /// The project's seconds of today (local time): the part of its sessions
    /// between the last local midnight and 86400 seconds later.
    ///
    /// When the local clock has no single midnight today (a daylight-saving
    /// change at midnight), no window is known and 0 is returned.
    pub fn today_duration_secs(&self) -> (r: u64)
        requires
            forall|midnight: Option<i64>| #[trigger] day_window(self.sessions@, midnight) <= u64::MAX,
        ensures
            r <= sessions_total(self.sessions@),
            exists|midnight: Option<i64>| r == #[trigger] day_window(self.sessions@, midnight),
    {
        let midnight = local_midnight_unix();
        self.duration_on_day(midnight)
    }
}

/// The number of intervals of sessions: each session's own and those of its
/// sub-sessions.
pub open spec fn interval_count(ss: Seq<Session>) -> int
    decreases ss.len(),
{
    if ss.len() == 0 {
        0
    } else {
        interval_count(ss.drop_last()) + 1 + ss.last().sub_sessions@.len()
    }
}

/// An interval's part inside a window is at most the window's width.
proof fn lemma_overlap_le_width(start: u64, end: u64, lo: u64, hi: u64)
    requires
        lo <= hi,
    ensures
        overlap(start, end, lo, hi) <= hi - lo,
{
}

proof fn lemma_subs_window_le_width(subs: Seq<SubSession>, lo: u64, hi: u64)
    requires
        lo <= hi,
    ensures
        subs_window(subs, lo, hi) <= (hi - lo) * subs.len(),
    decreases subs.len(),
{
    if subs.len() > 0 {
        lemma_subs_window_le_width(subs.drop_last(), lo, hi);
        lemma_overlap_le_width(subs.last().start_time, subs.last().end_time, lo, hi);
        assert((hi - lo) * subs.len() == (hi - lo) * (subs.len() - 1) + (hi - lo)) by (nonlinear_arith);
    }
}

proof fn lemma_sessions_window_le_width(ss: Seq<Session>, lo: u64, hi: u64)
    requires
        lo <= hi,
    ensures
        sessions_window(ss, lo, hi) <= (hi - lo) * interval_count(ss),
    decreases ss.len(),
{
    if ss.len() > 0 {
        let s = ss.last();
        let k = s.sub_sessions@.len();
        let c = interval_count(ss.drop_last());
        lemma_sessions_window_le_width(ss.drop_last(), lo, hi);
        lemma_subs_window_le_width(s.sub_sessions@, lo, hi);
        lemma_overlap_le_width(s.start_time, s.end_time, lo, hi);
        assert((hi - lo) * (c + 1 + k) == (hi - lo) * c + (hi - lo) + (hi - lo) * k) by (nonlinear_arith);
    }
}

/// Any day's part of sessions is at most their total, and at most a whole
/// day for each of their intervals.
pub proof fn lemma_day_window_bounded(ss: Seq<Session>, midnight: Option<i64>)
    ensures
        0 <= day_window(ss, midnight) <= sessions_total(ss),
        day_window(ss, midnight) <= 86400 * interval_count(ss),
{
    lemma_sessions_total_nonneg(ss);
    lemma_interval_count_nonneg(ss);
    match midnight {
        Some(ts) => {
            let lo = ts as u64;
            lemma_sessions_window_le_total(ss, lo, day_end(lo));
            lemma_sessions_window_le_width(ss, lo, day_end(lo));
            assert((day_end(lo) - lo) * interval_count(ss) <= 86400 * interval_count(ss)) by (nonlinear_arith)
                requires
                    day_end(lo) - lo <= 86400,
                    interval_count(ss) >= 0,
            ;
        },
        None => {},
    }
}

proof fn lemma_interval_count_nonneg(ss: Seq<Session>)
    ensures
        interval_count(ss) >= 0,
    decreases ss.len(),
{
    if ss.len() > 0 {
        lemma_interval_count_nonneg(ss.drop_last());
    }
}

/// The part of sessions within the day that starts at the Unix time
/// `midnight`; 0 when no midnight is known.
pub open spec fn day_window(ss: Seq<Session>, midnight: Option<i64>) -> int {
    match midnight {
        Some(ts) => sessions_window(ss, ts as u64, day_end(ts as u64)),
        None => 0,
    }
}

} // verus!
