//! What the screens show: clocks, hour totals, the dashboard's figures, the
//! session search and the rows of a project's export.
use vstd::prelude::*;

use crate::i18n::{t, translate, Language};
use crate::models::{session_total, sessions_total, Project, Session};
use crate::text::{
    chars_of, decimal, decimal_string, join_with_space, lowercase, to_lowercase, to_owned_string,
};
use crate::ultradian::{
    cycle_session_name, durations_fit, projects_total, AppState, TimerState, NANOS_PER_SECOND,
};

verus! {

/// A number's digits padded with a leading zero to two characters
/// (`{:02}`).
pub open spec fn pad2(d: Seq<char>) -> Seq<char> {
    if d.len() < 2 {
        seq!['0'] + d
    } else {
        d
    }
}

/// `HH:MM:SS` for a number of seconds (hours may take more digits).
pub open spec fn clock_hms(secs: u64) -> Seq<char> {
    pad2(decimal((secs / 3600) as nat)) + seq![':'] + pad2(decimal(((secs % 3600) / 60) as nat))
        + seq![':'] + pad2(decimal((secs % 60) as nat))
}

/// `MM:SS` for a number of seconds (minutes may take more digits).
pub open spec fn clock_ms(secs: u64) -> Seq<char> {
    pad2(decimal((secs / 60) as nat)) + seq![':'] + pad2(decimal((secs % 60) as nat))
}

/// `HHh MMm` for a number of seconds.
pub open spec fn hours_minutes(secs: u64) -> Seq<char> {
    pad2(decimal((secs / 3600) as nat)) + seq!['h', ' '] + pad2(
        decimal(((secs % 3600) / 60) as nat),
    ) + seq!['m']
}

/// `n` in decimal, with at least two digits.
pub fn two_digits(n: u64) -> (r: String)
    ensures
        r@ == pad2(decimal(n as nat)),
{
    let d = decimal_string(n);
    if n < 10 {
        proof {
            reveal_with_fuel(decimal, 1);
        }
        assert(d@.len() == 1);
        let mut s = to_owned_string("0");
        proof {
            reveal_strlit("0");
        }
        s.append(d.as_str());
        s
    } else {
        proof {
            lemma_decimal_len(n as nat);
        }
        d
    }
}

/// Numbers of ten or more have at least two digits.
proof fn lemma_decimal_len(n: nat)
    ensures
        n >= 10 ==> decimal(n).len() >= 2,
        decimal(n).len() >= 1,
    decreases n,
{
    if n >= 10 {
        lemma_decimal_len(n / 10);
    }
}

/// `HH:MM:SS` for `secs` seconds.
pub fn format_hms(secs: u64) -> (r: String)
    ensures
        r@ == clock_hms(secs),
{
    let mut s = two_digits(secs / 3600);
    s.append(":");
    let m = two_digits((secs % 3600) / 60);
    s.append(m.as_str());
    s.append(":");
    let x = two_digits(secs % 60);
    s.append(x.as_str());
    proof {
        reveal_strlit(":");
    }
    s
}

/// `MM:SS` for `secs` seconds.
pub fn format_ms(secs: u64) -> (r: String)
    ensures
        r@ == clock_ms(secs),
{
    let mut s = two_digits(secs / 60);
    s.append(":");
    let x = two_digits(secs % 60);
    s.append(x.as_str());
    proof {
        reveal_strlit(":");
    }
    s
}

/// `HHh MMm` for `secs` seconds.
pub fn format_hours_minutes(secs: u64) -> (r: String)
    ensures
        r@ == hours_minutes(secs),
{
    let mut s = two_digits(secs / 3600);
    s.append("h ");
    let m = two_digits((secs % 3600) / 60);
    s.append(m.as_str());
    s.append("m");
    proof {
        reveal_strlit("h ");
        reveal_strlit("m");
    }
    s
}

/// `needle` occurs in `hay` at some position.
pub open spec fn occurs_in(needle: Seq<char>, hay: Seq<char>) -> bool {
    exists|i: int|
        0 <= i <= hay.len() - needle.len() && #[trigger] hay.subrange(i, i + needle.len())
            == needle
}

/// Whether `needle` occurs in `hay`.
fn contains_chars(hay: &Vec<char>, needle: &Vec<char>) -> (r: bool)
    ensures
        r == occurs_in(needle@, hay@),
{
    let n = hay.len();
    let m = needle.len();
    if m > n {
        return false;
    }
    let mut i: usize = 0;
    while i <= n - m
        invariant
            m <= n,
            n == hay@.len(),
            m == needle@.len(),
            i <= n - m + 1,
            forall|k: int| 0 <= k < i ==> #[trigger] hay@.subrange(k, k + m) != needle@,
        decreases n - m + 1 - i,
    {
        let mut j: usize = 0;
        while j < m && hay[i + j] == needle[j]
            invariant
                j <= m,
                i + m <= n,
                n == hay@.len(),
                m == needle@.len(),
                forall|k: int| 0 <= k < j ==> hay@[i + k] == needle@[k],
            decreases m - j,
        {
            j = j + 1;
        }
        if j == m {
            assert(hay@.subrange(i as int, i + m) =~= needle@);
            return true;
        }
        assert(hay@.subrange(i as int, i + m)[j as int] != needle@[j as int]);
        i = i + 1;
    }
    false
}

/// Whether a session named `name` passes the search `query`: an empty query
/// passes everything; otherwise the query must occur in the name, both
/// lowercased.
pub fn session_matches_query(name: &str, query: &str) -> (r: bool)
    ensures
        r == (query@.len() == 0 || occurs_in(lowercase(query@), lowercase(name@))),
{
    if query.is_empty() {
        return true;
    }
    let lname = to_lowercase(name);
    let lquery = to_lowercase(query);
    let hay = chars_of(lname.as_str());
    let needle = chars_of(lquery.as_str());
    contains_chars(&hay, &needle)
}

/// The number of sessions of projects.
pub open spec fn sessions_count(ps: Seq<Project>) -> int
    decreases ps.len(),
{
    if ps.len() == 0 {
        0
    } else {
        sessions_count(ps.drop_last()) + ps.last().sessions@.len()
    }
}

/// The all-time figures of the dashboard.
pub struct DashboardTotals {
    pub total_secs: u64,
    pub total_sessions: usize,
}

/// The dashboard's all-time figures: the seconds of all projects and how
/// many sessions they hold.
pub fn dashboard_totals(projects: &Vec<Project>) -> (r: DashboardTotals)
    requires
        forall|i: int|
            0 <= i < projects@.len() ==> sessions_total((#[trigger] projects@[i]).sessions@)
                <= u64::MAX,
        projects_total(projects@) <= u64::MAX,
        sessions_count(projects@) <= usize::MAX,
    ensures
        r.total_secs == projects_total(projects@),
        r.total_sessions == sessions_count(projects@),
{
    let n = projects.len();
    let mut total: u64 = 0;
    let mut count: usize = 0;
    let mut i: usize = 0;
    proof {
        lemma_sessions_count_prefix(projects@, 0);
        crate::ultradian::lemma_projects_total_prefix(projects@, 0);
        assert(projects@.take(0) =~= Seq::<Project>::empty());
    }
    while i < n
        invariant
            i <= n,
            n == projects@.len(),
            forall|k: int|
                0 <= k < projects@.len() ==> sessions_total((#[trigger] projects@[k]).sessions@)
                    <= u64::MAX,
            projects_total(projects@) <= u64::MAX,
            sessions_count(projects@) <= usize::MAX,
            total == projects_total(projects@.take(i as int)),
            count == sessions_count(projects@.take(i as int)),
        decreases n - i,
    {
        proof {
            assert(projects@.take(i + 1).drop_last() =~= projects@.take(i as int));
            crate::ultradian::lemma_projects_total_prefix(projects@, i + 1);
            lemma_sessions_count_prefix(projects@, i + 1);
        }
        let d = projects[i].total_duration();
        total = total + d;
        count = count + projects[i].sessions.len();
        i = i + 1;
    }
    proof {
        assert(projects@.take(n as int) =~= projects@);
    }
    DashboardTotals { total_secs: total, total_sessions: count }
}

proof fn lemma_sessions_count_prefix(ps: Seq<Project>, i: int)
    requires
        0 <= i <= ps.len(),
    ensures
        0 <= sessions_count(ps.take(i)) <= sessions_count(ps),
    decreases ps.len() - i,
{
    if i < ps.len() {
        lemma_sessions_count_prefix(ps, i + 1);
        assert(ps.take(i + 1).drop_last() =~= ps.take(i));
    } else {
        assert(ps.take(i) =~= ps);
    }
    lemma_sessions_count_nonneg(ps.take(i));
}

proof fn lemma_sessions_count_nonneg(ps: Seq<Project>)
    ensures
        sessions_count(ps) >= 0,
    decreases ps.len(),
{
    if ps.len() > 0 {
        lemma_sessions_count_nonneg(ps.drop_last());
    }
}

/// One row of a project's export: a session's name, its length in seconds
/// and its start as Unix time.
pub struct SessionExportRow {
    pub name: String,
    pub total_secs: u64,
    pub start_time: u64,
}

/// The header of a project's export, in `lang`: session, total duration and
/// date.
pub fn project_export_header(lang: &Language) -> (r: Vec<String>)
    ensures
        r@.len() == 3,
        r@[0]@ == translate(*lang, "session_history"@),
        r@[1]@ == translate(*lang, "total_duration"@),
        r@[2]@ == translate(*lang, "date_unix"@),
{
    let mut r: Vec<String> = Vec::new();
    r.push(to_owned_string(t(lang, "session_history")));
    r.push(to_owned_string(t(lang, "total_duration")));
    r.push(to_owned_string(t(lang, "date_unix")));
    r
}

/// The rows of a project's export: one per session, in order.
pub fn session_export_rows(project: &Project) -> (r: Vec<SessionExportRow>)
    requires
        forall|i: int|
            0 <= i < project.sessions@.len() ==> session_total(
                #[trigger] project.sessions@[i],
            ) <= u64::MAX,
    ensures
        r@.len() == project.sessions@.len(),
        forall|i: int|
            0 <= i < r@.len() ==> {
                let s: Session = project.sessions@[i];
                &&& (#[trigger] r@[i]).name == s.name
                &&& r@[i].total_secs == session_total(s)
                &&& r@[i].start_time == s.start_time
            },
{
    let n = project.sessions.len();
    let mut r: Vec<SessionExportRow> = Vec::new();
    let mut i: usize = 0;
    while i < n
        invariant
            i <= n,
            n == project.sessions@.len(),
            forall|k: int|
                0 <= k < project.sessions@.len() ==> session_total(
                    #[trigger] project.sessions@[k],
                ) <= u64::MAX,
            r@.len() == i,
            forall|k: int|
                0 <= k < i ==> {
                    let s: Session = project.sessions@[k];
                    &&& (#[trigger] r@[k]).name == s.name
                    &&& r@[k].total_secs == session_total(s)
                    &&& r@[k].start_time == s.start_time
                },
        decreases n - i,
    {
        let s = &project.sessions[i];
        let total = s.total_duration();
        r.push(SessionExportRow { name: s.name.clone(), total_secs: total, start_time: s.start_time });
        i = i + 1;
    }
    r
}

impl AppState {
    /// The whole seconds left in the phase (`Duration::as_secs`).
    pub fn remaining_secs(&self) -> (r: u64)
        ensures
            r == (if self.ultradian_remaining / NANOS_PER_SECOND <= u64::MAX {
                self.ultradian_remaining / NANOS_PER_SECOND
            } else {
                u64::MAX as u128
            }),
    {
        let q = self.ultradian_remaining / NANOS_PER_SECOND;
        if q <= u64::MAX as u128 {
            q as u64
        } else {
            u64::MAX
        }
    }

    /// The countdown the timer shows, `MM:SS`.
    pub fn remaining_display(&self) -> (r: String)
        ensures
            r@ == clock_ms(self.remaining_secs_spec()),
    {
        format_ms(self.remaining_secs())
    }

    /// The progress of the phase in whole seconds: the seconds passed and the
    /// phase's full length (that of work for an idle timer).
    pub fn phase_progress_secs(&self) -> (r: (u64, u64))
        requires
            durations_fit(self.tracker.data),
        ensures
            r.1 == (match self.ultradian_state {
                TimerState::Rest | TimerState::PausedRest => self.tracker.data.rest_duration_mins
                    * 60,
                _ => self.tracker.data.work_duration_mins * 60,
            }),
            r.0 == (if r.1 >= self.remaining_secs_spec() {
                r.1 - self.remaining_secs_spec()
            } else {
                0
            }),
    {
        let total = match self.ultradian_state {
            TimerState::Rest | TimerState::PausedRest => self.tracker.data.rest_duration_mins * 60,
            _ => self.tracker.data.work_duration_mins * 60,
        };
        let secs = self.remaining_secs();
        (total.saturating_sub(secs), total)
    }

    /// The status line of the work screen: waiting, deep work or paused; empty
    /// during a rest.
    pub fn status_text(&self) -> (r: &'static str)
        ensures
            r@ == (match self.ultradian_state {
                TimerState::Idle => translate(self.tracker.data.language, "ultradian_idle"@),
                TimerState::Work => translate(self.tracker.data.language, "ultradian_work"@),
                TimerState::PausedWork => translate(self.tracker.data.language, "ultradian_paused"@),
                _ => Seq::empty(),
            }),
    {
        let lang = self.tracker.data.language;
        proof {
            reveal_strlit("");
        }
        match self.ultradian_state {
            TimerState::Idle => t(&lang, "ultradian_idle"),
            TimerState::Work => t(&lang, "ultradian_work"),
            TimerState::PausedWork => t(&lang, "ultradian_paused"),
            _ => "",
        }
    }

    /// The help line of the work screen: how to start when idle, how to pause
    /// otherwise.
    pub fn help_text(&self) -> (r: &'static str)
        ensures
            r@ == (if self.ultradian_state == TimerState::Idle {
                translate(self.tracker.data.language, "ultradian_help_start"@)
            } else {
                translate(self.tracker.data.language, "ultradian_help_pause"@)
            }),
    {
        let lang = self.tracker.data.language;
        if self.ultradian_state == TimerState::Idle {
            t(&lang, "ultradian_help_start")
        } else {
            t(&lang, "ultradian_help_pause")
        }
    }

    /// The label of the cycle in progress: "Cycle" and the number of the next
    /// cycle to complete.
    pub fn cycle_label(&self) -> (r: String)
        ensures
            r@ == cycle_session_name(self.tracker.data.language, (self.cycle_count + 1) as nat),
    {
        let lang = self.tracker.data.language;
        let num = decimal_string(self.cycle_count as u64 + 1);
        join_with_space(t(&lang, "cycle_label"), num.as_str())
    }

    /// The whole seconds left, as `remaining_secs` gives them.
    pub open spec fn remaining_secs_spec(&self) -> u64 {
        if self.ultradian_remaining / NANOS_PER_SECOND <= u64::MAX {
            (self.ultradian_remaining / NANOS_PER_SECOND) as u64
        } else {
            u64::MAX
        }
    }
}

} // verus!
