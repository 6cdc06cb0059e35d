//! The ultradian timer: phases of deep work and rest that follow each other,
//! with pausing, restarting a phase and skipping a rest. The functions return
//! the effects on the window, the screen and the notifications, which the
//! application then performs.
use std::time::Instant;

use vstd::prelude::*;

use crate::clock::{
    instant_elapsed_nanos, instant_now, local_date_string, local_midnight_unix, new_id, unix_now,
};
use crate::i18n::{t, translate, Language};
use crate::ids::{find_index, index_of, lemma_index_of};
use crate::models::{
    day_window, lemma_day_window_bounded, sessions_total, Project, Session, TrackerData,
};
use crate::screen::ScreenTools;
use crate::session_logic::sat_sub;
use crate::text::{decimal, decimal_string, join_with_space, to_owned_string};
use crate::tracker::{same_forms, same_session, saved, TimeTrackerState};

verus! {

/// Nanoseconds in a minute.
pub const NANOS_PER_MINUTE: u128 = 60_000_000_000;

/// Nanoseconds in a second.
pub const NANOS_PER_SECOND: u128 = 1_000_000_000;

/// The phase of the timer.
#[derive(Clone, Copy, PartialEq, Eq, Debug, Structural)]
pub enum TimerState {
    Idle,
    Work,
    Rest,
    PausedWork,
    PausedRest,
}

/// The screen of the application that is shown.
#[derive(Clone, Copy, PartialEq, Eq, Debug, Structural)]
pub enum AppView {
    Ultradian,
    Tracker,
    Tasks,
    Dashboard,
    Settings,
}

/// What the application must do after a step of the timer.
#[derive(Clone, Copy, PartialEq, Eq, Debug, Structural)]
pub enum AppEffect {
    /// Minimize the window.
    MinimizeWindow,
    /// Show the rest screen: full screen, above other windows, focused.
    EnterRestView,
    /// Leave the rest screen: no full screen, normal window level.
    ExitRestView,
    /// Notify that the rest begins.
    NotifyRest,
    /// Notify that work begins again.
    NotifyWork,
    DimScreen,
    RestoreScreen,
    LockScreen,
    UnlockScreen,
}

/// The application's state: the screen shown, the timer and the tracker.
pub struct AppState {
    pub view: AppView,
    pub ultradian_state: TimerState,
    /// When the running phase was last started or resumed.
    pub ultradian_start: Instant,
    /// Nanoseconds of the phase that had passed when it was resumed at
    /// `ultradian_start`.
    pub ultradian_elapsed_before: u128,
    /// Nanoseconds left in the phase.
    pub ultradian_remaining: u128,
    pub cycle_count: u32,
    pub tracker: TimeTrackerState,
    pub breath_start: Instant,
    pub screen_tools: ScreenTools,
}

/// The timer as the contracts see it.
pub struct TimerView {
    pub state: TimerState,
    pub remaining: u128,
    pub elapsed_before: u128,
}

/// A duration in minutes, in nanoseconds.
pub open spec fn minutes_nanos(mins: u64) -> u128 {
    (mins * NANOS_PER_MINUTE) as u128
}

/// Work and rest lengths that the original `Duration::from_secs(mins * 60)`
/// can hold.
pub open spec fn durations_fit(d: crate::models::TrackerData) -> bool {
    d.work_duration_mins * 60 <= u64::MAX && d.rest_duration_mins * 60 <= u64::MAX
}

/// The full length of the phase that `state` belongs to (the work phase for
/// an idle timer).
pub open spec fn phase_length(state: TimerState, work: u128, rest: u128) -> u128 {
    match state {
        TimerState::Rest | TimerState::PausedRest => rest,
        _ => work,
    }
}

/// `m` held at most at `d`.
pub open spec fn clamp(m: u128, d: u128) -> u128 {
    if m > d {
        d
    } else {
        m
    }
}

/// What pausing or resuming does to the timer: an idle timer starts work in
/// full; a running phase pauses with its remaining time; a paused phase
/// resumes with its remaining time (held at the phase's length) and the time
/// already passed counted.
pub open spec fn toggled(v: TimerView, work: u128, rest: u128) -> TimerView {
    match v.state {
        TimerState::Idle => TimerView { state: TimerState::Work, remaining: work, elapsed_before: 0 },
        TimerState::Work => TimerView { state: TimerState::PausedWork, ..v },
        TimerState::Rest => TimerView { state: TimerState::PausedRest, ..v },
        TimerState::PausedWork => TimerView {
            state: TimerState::Work,
            remaining: clamp(v.remaining, work),
            elapsed_before: (work - clamp(v.remaining, work)) as u128,
        },
        TimerState::PausedRest => TimerView {
            state: TimerState::Rest,
            remaining: clamp(v.remaining, rest),
            elapsed_before: (rest - clamp(v.remaining, rest)) as u128,
        },
    }
}

/// Whether toggling a timer in `state` sets a phase running (starting an idle
/// timer or resuming a paused phase), rather than pausing one.
pub open spec fn starts_running(state: TimerState) -> bool {
    state == TimerState::Idle || state == TimerState::PausedWork || state == TimerState::PausedRest
}

/// What restarting the phase does: the phase starts again in full, running;
/// an idle timer stays as it is.
pub open spec fn restarted(v: TimerView, work: u128, rest: u128) -> TimerView {
    match v.state {
        TimerState::Idle => v,
        TimerState::Work | TimerState::PausedWork => TimerView {
            state: TimerState::Work,
            remaining: work,
            elapsed_before: 0,
        },
        TimerState::Rest | TimerState::PausedRest => TimerView {
            state: TimerState::Rest,
            remaining: rest,
            elapsed_before: 0,
        },
    }
}

/// The effects that pausing or resuming has: the window is minimized when
/// work starts or resumes; pausing a rest restores the screen and unlocks the
/// session, and resuming it dims and locks again, each when that setting is
/// on.
pub open spec fn toggle_effects(state: TimerState, dim: bool, lock: bool) -> Seq<AppEffect> {
    match state {
        TimerState::Idle | TimerState::PausedWork => seq![AppEffect::MinimizeWindow],
        TimerState::Work => Seq::empty(),
        TimerState::Rest => when(dim, AppEffect::RestoreScreen) + when(lock, AppEffect::UnlockScreen),
        TimerState::PausedRest => rest_screen_effects(dim, lock),
    }
}

/// Dimming and locking the screen for a rest, each when that setting is on.
pub open spec fn rest_screen_effects(dim: bool, lock: bool) -> Seq<AppEffect> {
    when(dim, AppEffect::DimScreen) + when(lock, AppEffect::LockScreen)
}

/// Effects that happen when a setting is on.
pub open spec fn when(on: bool, e: AppEffect) -> Seq<AppEffect> {
    if on {
        seq![e]
    } else {
        Seq::empty()
    }
}

/// The effects when a rest begins: the rest screen, the notice, then dimming
/// and locking when they are on.
pub open spec fn rest_begins_effects(dim: bool, lock: bool) -> Seq<AppEffect> {
    seq![AppEffect::EnterRestView, AppEffect::NotifyRest] + rest_screen_effects(dim, lock)
}

/// The effects when a rest ends on its own: leaving the rest screen,
/// restoring and unlocking when those are on, then the notice.
pub open spec fn rest_ends_effects(dim: bool, lock: bool) -> Seq<AppEffect> {
    seq![AppEffect::ExitRestView] + when(dim, AppEffect::RestoreScreen) + when(
        lock,
        AppEffect::UnlockScreen,
    ) + seq![AppEffect::NotifyWork]
}

/// The effects when a rest is skipped: restoring and unlocking when those are
/// on, leaving the rest screen, then the notice.
pub open spec fn rest_skipped_effects(dim: bool, lock: bool) -> Seq<AppEffect> {
    when(dim, AppEffect::RestoreScreen) + when(lock, AppEffect::UnlockScreen) + seq![
        AppEffect::ExitRestView,
        AppEffect::NotifyWork,
    ]
}

/// How many times `e` occurs in `s`.
pub open spec fn occurrences(s: Seq<AppEffect>, e: AppEffect) -> nat
    decreases s.len(),
{
    if s.len() == 0 {
        0
    } else {
        occurrences(s.drop_last(), e) + if s.last() == e {
            1nat
        } else {
            0nat
        }
    }
}

proof fn lemma_occurrences_concat(a: Seq<AppEffect>, b: Seq<AppEffect>, e: AppEffect)
    ensures
        occurrences(a + b, e) == occurrences(a, e) + occurrences(b, e),
    decreases b.len(),
{
    if b.len() == 0 {
        assert(a + b =~= a);
    } else {
        lemma_occurrences_concat(a, b.drop_last(), e);
        assert((a + b).drop_last() =~= a + b.drop_last());
        assert((a + b).last() == b.last());
    }
}

proof fn lemma_occurrences_when(on: bool, x: AppEffect, e: AppEffect)
    ensures
        occurrences(when(on, x), e) == (if on && x == e {
            1nat
        } else {
            0nat
        }),
{
    reveal_with_fuel(occurrences, 2);
    if on {
        assert(when(on, x).drop_last() =~= Seq::<AppEffect>::empty());
    }
}

proof fn lemma_occurrences_pair(x: AppEffect, y: AppEffect, e: AppEffect)
    ensures
        occurrences(seq![x, y], e) == (if x == e {
            1nat
        } else {
            0nat
        }) + (if y == e {
            1nat
        } else {
            0nat
        }),
{
    reveal_with_fuel(occurrences, 3);
    assert(seq![x, y].drop_last() =~= seq![x]);
    assert(seq![x].drop_last() =~= Seq::<AppEffect>::empty());
}

/// A rest leaves the screen and the session as it found them: however it
/// ends (running out, skipped, or undone by a change of the settings), its
/// end restores the screen as often as its start dimmed it, unlocks as often
/// as its start locked, and leaves the rest screen as often as its start
/// entered it; and pausing a rest undoes exactly what resuming it redoes.
pub proof fn lemma_rest_leaves_screen_as_found(dim: bool, lock: bool)
    ensures
        ({
            let begins = rest_begins_effects(dim, lock);
            let resets = when(dim, AppEffect::RestoreScreen) + when(lock, AppEffect::UnlockScreen)
                + seq![AppEffect::ExitRestView];
            &&& occurrences(begins, AppEffect::DimScreen) == occurrences(
                rest_ends_effects(dim, lock),
                AppEffect::RestoreScreen,
            )
            &&& occurrences(begins, AppEffect::LockScreen) == occurrences(
                rest_ends_effects(dim, lock),
                AppEffect::UnlockScreen,
            )
            &&& occurrences(begins, AppEffect::EnterRestView) == occurrences(
                rest_ends_effects(dim, lock),
                AppEffect::ExitRestView,
            )
            &&& occurrences(begins, AppEffect::DimScreen) == occurrences(
                rest_skipped_effects(dim, lock),
                AppEffect::RestoreScreen,
            )
            &&& occurrences(begins, AppEffect::LockScreen) == occurrences(
                rest_skipped_effects(dim, lock),
                AppEffect::UnlockScreen,
            )
            &&& occurrences(begins, AppEffect::EnterRestView) == occurrences(
                rest_skipped_effects(dim, lock),
                AppEffect::ExitRestView,
            )
            &&& occurrences(begins, AppEffect::DimScreen) == occurrences(
                resets,
                AppEffect::RestoreScreen,
            )
            &&& occurrences(begins, AppEffect::LockScreen) == occurrences(
                resets,
                AppEffect::UnlockScreen,
            )
            &&& occurrences(begins, AppEffect::EnterRestView) == occurrences(
                resets,
                AppEffect::ExitRestView,
            )
            &&& occurrences(toggle_effects(TimerState::PausedRest, dim, lock), AppEffect::DimScreen)
                == occurrences(
                toggle_effects(TimerState::Rest, dim, lock),
                AppEffect::RestoreScreen,
            )
            &&& occurrences(toggle_effects(TimerState::PausedRest, dim, lock), AppEffect::LockScreen)
                == occurrences(
                toggle_effects(TimerState::Rest, dim, lock),
                AppEffect::UnlockScreen,
            )
        }),
{
    let enter = seq![AppEffect::EnterRestView, AppEffect::NotifyRest];
    let d = when(dim, AppEffect::DimScreen);
    let l = when(lock, AppEffect::LockScreen);
    let r = when(dim, AppEffect::RestoreScreen);
    let u = when(lock, AppEffect::UnlockScreen);
    let exit = seq![AppEffect::ExitRestView];
    let notify = seq![AppEffect::NotifyWork];
    let exit_notify = seq![AppEffect::ExitRestView, AppEffect::NotifyWork];
    let all = seq![
        AppEffect::MinimizeWindow,
        AppEffect::EnterRestView,
        AppEffect::ExitRestView,
        AppEffect::NotifyRest,
        AppEffect::NotifyWork,
        AppEffect::DimScreen,
        AppEffect::RestoreScreen,
        AppEffect::LockScreen,
        AppEffect::UnlockScreen,
    ];
    assert forall|k: int| 0 <= k < all.len() implies {
        let e = #[trigger] all[k];
        &&& occurrences(enter + d + l, e) == occurrences(enter, e) + occurrences(d, e)
            + occurrences(l, e)
        &&& occurrences(exit + r + u + notify, e) == occurrences(exit, e) + occurrences(r, e)
            + occurrences(u, e) + occurrences(notify, e)
        &&& occurrences(r + u + exit_notify, e) == occurrences(r, e) + occurrences(u, e)
            + occurrences(exit_notify, e)
        &&& occurrences(r + u + exit, e) == occurrences(r, e) + occurrences(u, e) + occurrences(
            exit,
            e,
        )
        &&& occurrences(d + l, e) == occurrences(d, e) + occurrences(l, e)
        &&& occurrences(r + u, e) == occurrences(r, e) + occurrences(u, e)
    } by {
        let e = all[k];
        lemma_occurrences_concat(enter, d, e);
        lemma_occurrences_concat(enter + d, l, e);
        lemma_occurrences_concat(exit, r, e);
        lemma_occurrences_concat(exit + r, u, e);
        lemma_occurrences_concat(exit + r + u, notify, e);
        lemma_occurrences_concat(r, u, e);
        lemma_occurrences_concat(r + u, exit_notify, e);
        lemma_occurrences_concat(r + u, exit, e);
        lemma_occurrences_concat(d, l, e);
    }
    assert forall|k: int| 0 <= k < all.len() implies {
        let e = #[trigger] all[k];
        &&& occurrences(d, e) == (if dim && e == AppEffect::DimScreen { 1nat } else { 0nat })
        &&& occurrences(l, e) == (if lock && e == AppEffect::LockScreen { 1nat } else { 0nat })
        &&& occurrences(r, e) == (if dim && e == AppEffect::RestoreScreen { 1nat } else { 0nat })
        &&& occurrences(u, e) == (if lock && e == AppEffect::UnlockScreen { 1nat } else { 0nat })
        &&& occurrences(enter, e) == (if e == AppEffect::EnterRestView || e == AppEffect::NotifyRest {
            1nat
        } else {
            0nat
        })
        &&& occurrences(exit_notify, e) == (if e == AppEffect::ExitRestView || e == AppEffect::NotifyWork {
            1nat
        } else {
            0nat
        })
        &&& occurrences(exit, e) == (if e == AppEffect::ExitRestView { 1nat } else { 0nat })
        &&& occurrences(notify, e) == (if e == AppEffect::NotifyWork { 1nat } else { 0nat })
    } by {
        let e = all[k];
        lemma_occurrences_when(dim, AppEffect::DimScreen, e);
        lemma_occurrences_when(lock, AppEffect::LockScreen, e);
        lemma_occurrences_when(dim, AppEffect::RestoreScreen, e);
        lemma_occurrences_when(lock, AppEffect::UnlockScreen, e);
        lemma_occurrences_pair(AppEffect::EnterRestView, AppEffect::NotifyRest, e);
        lemma_occurrences_pair(AppEffect::ExitRestView, AppEffect::NotifyWork, e);
        lemma_occurrences_when(true, AppEffect::ExitRestView, e);
        lemma_occurrences_when(true, AppEffect::NotifyWork, e);
        assert(exit == when(true, AppEffect::ExitRestView));
        assert(notify == when(true, AppEffect::NotifyWork));
    }
    assert(rest_begins_effects(dim, lock) =~= enter + d + l);
    assert(rest_ends_effects(dim, lock) == exit + r + u + notify);
    assert(rest_skipped_effects(dim, lock) == r + u + exit_notify);
    assert(all[1] == AppEffect::EnterRestView);
    assert(all[2] == AppEffect::ExitRestView);
    assert(all[5] == AppEffect::DimScreen);
    assert(all[6] == AppEffect::RestoreScreen);
    assert(all[7] == AppEffect::LockScreen);
    assert(all[8] == AppEffect::UnlockScreen);
}

/// The name of the session logged for cycle `n`.
pub open spec fn cycle_session_name(lang: Language, n: nat) -> Seq<char> {
    translate(lang, "cycle_label"@) + seq![' '] + decimal(n)
}

/// Pausing then resuming leaves a running phase as it was: same phase, same
/// remaining time, with the time already passed counted.
pub proof fn lemma_pause_resume(v: TimerView, work: u128, rest: u128)
    requires
        v.state == TimerState::Work || v.state == TimerState::Rest,
        v.remaining <= phase_length(v.state, work, rest),
    ensures
        toggled(toggled(v, work, rest), work, rest).state == v.state,
        toggled(toggled(v, work, rest), work, rest).remaining == v.remaining,
        toggled(toggled(v, work, rest), work, rest).elapsed_before == phase_length(
            v.state,
            work,
            rest,
        ) - v.remaining,
{
}

/// Restarting twice is restarting once.
pub proof fn lemma_restart_idempotent(v: TimerView, work: u128, rest: u128)
    ensures
        restarted(restarted(v, work, rest), work, rest) == restarted(v, work, rest),
{
}

impl AppState {
    /// The timer as the contracts see it.
    pub open spec fn timer(&self) -> TimerView {
        TimerView {
            state: self.ultradian_state,
            remaining: self.ultradian_remaining,
            elapsed_before: self.ultradian_elapsed_before,
        }
    }

    /// The length of the work phase.
    pub open spec fn spec_work(&self) -> u128 {
        minutes_nanos(self.tracker.data.work_duration_mins)
    }

    /// The length of the rest phase.
    pub open spec fn spec_rest(&self) -> u128 {
        minutes_nanos(self.tracker.data.rest_duration_mins)
    }

    /// Starts the application around the loaded tracker: durations left at 0
    /// in the data take the ones given (on the command line), the timer is
    /// idle with a full work phase ahead, and the cycle count continues from
    /// the data.
    pub fn new(tracker: TimeTrackerState, work_mins: u64, rest_mins: u64, screen_tools: ScreenTools) -> (r: AppState)
        requires
            (if tracker.data.work_duration_mins == 0 {
                work_mins
            } else {
                tracker.data.work_duration_mins
            }) * 60 <= u64::MAX,
            (if tracker.data.rest_duration_mins == 0 {
                rest_mins
            } else {
                tracker.data.rest_duration_mins
            }) * 60 <= u64::MAX,
        ensures
            r.tracker.data.work_duration_mins == (if tracker.data.work_duration_mins == 0 {
                work_mins
            } else {
                tracker.data.work_duration_mins
            }),
            r.tracker.data.rest_duration_mins == (if tracker.data.rest_duration_mins == 0 {
                rest_mins
            } else {
                tracker.data.rest_duration_mins
            }),
            r.tracker == (TimeTrackerState {
                data: TrackerData {
                    work_duration_mins: r.tracker.data.work_duration_mins,
                    rest_duration_mins: r.tracker.data.rest_duration_mins,
                    ..tracker.data
                },
                ..tracker
            }),
            r.screen_tools == screen_tools,
            r.view == AppView::Ultradian,
            r.ultradian_state == TimerState::Idle,
            r.ultradian_remaining == r.spec_work(),
            r.ultradian_elapsed_before == 0,
            r.cycle_count == tracker.data.ultradian_cycles_completed,
            durations_fit(r.tracker.data),
    {
        let mut tracker = tracker;
        if tracker.data.work_duration_mins == 0 {
            tracker.data.work_duration_mins = work_mins;
        }
        if tracker.data.rest_duration_mins == 0 {
            tracker.data.rest_duration_mins = rest_mins;
        }
        let cycle_count = tracker.data.ultradian_cycles_completed;
        let now = instant_now();
        let mut app = AppState {
            view: AppView::Ultradian,
            ultradian_state: TimerState::Idle,
            ultradian_start: now,
            ultradian_elapsed_before: 0,
            ultradian_remaining: 0,
            cycle_count,
            tracker,
            breath_start: now,
            screen_tools,
        };
        app.ultradian_remaining = app.work_dur();
        app
    }

    /// The length of the work phase, in nanoseconds.
    pub fn work_dur(&self) -> (r: u128)
        requires
            durations_fit(self.tracker.data),
        ensures
            r == self.spec_work(),
            r == self.tracker.data.work_duration_mins * 60 * NANOS_PER_SECOND,
    {
        (self.tracker.data.work_duration_mins as u128) * NANOS_PER_MINUTE
    }

    /// The length of the rest phase, in nanoseconds.
    pub fn rest_dur(&self) -> (r: u128)
        requires
            durations_fit(self.tracker.data),
        ensures
            r == self.spec_rest(),
            r == self.tracker.data.rest_duration_mins * 60 * NANOS_PER_SECOND,
    {
        (self.tracker.data.rest_duration_mins as u128) * NANOS_PER_MINUTE
    }

    /// The seconds worked over all projects within the day that starts at the
    /// Unix time `midnight`; 0 when no midnight is known.
    pub fn today_total_on(&self, midnight: Option<i64>) -> (r: u64)
        requires
            projects_day_total(self.tracker.data.projects@, midnight) <= u64::MAX,
        ensures
            r == projects_day_total(self.tracker.data.projects@, midnight),
    {
        let ps = &self.tracker.data.projects;
        let n = ps.len();
        let mut total: u64 = 0;
        let mut i: usize = 0;
        proof {
            assert(ps@.take(0) =~= Seq::<Project>::empty());
        }
        while i < n
            invariant
                i <= n,
                n == ps@.len(),
                ps == &self.tracker.data.projects,
                projects_day_total(ps@, midnight) <= u64::MAX,
                total == projects_day_total(ps@.take(i as int), midnight),
            decreases n - i,
        {
            proof {
                lemma_projects_day_total_prefix(ps@, i as int, midnight);
            }
            let d = ps[i].duration_on_day(midnight);
            total = total + d;
            i = i + 1;
        }
        proof {
            assert(ps@.take(n as int) =~= ps@);
        }
        total
    }

    /// The seconds worked today over all projects: the day is the one that
    /// starts at today's local midnight, read once from the clock (see
    /// `today_total_on`).
    pub fn today_total_secs(&self) -> (r: u64)
        requires
            forall|midnight: Option<i64>|
                #[trigger] projects_day_total(self.tracker.data.projects@, midnight) <= u64::MAX,
        ensures
            exists|midnight: Option<i64>|
                r == #[trigger] projects_day_total(self.tracker.data.projects@, midnight),
    {
        let midnight = local_midnight_unix();
        self.today_total_on(midnight)
    }

    /// Pauses or resumes the timer (or starts it when idle), as `toggled`
    /// says; a phase that runs again counts from `now`: the phase clock is
    /// set to `now`, so the next tick measures only the time since then, and
    /// the time spent paused is not counted. Pausing leaves the clock alone.
    pub fn ultradian_toggle_pause_at(&mut self, now: Instant) -> (effects: Vec<AppEffect>)
        requires
            durations_fit(old(self).tracker.data),
        ensures
            final(self).timer() == toggled(old(self).timer(), old(self).spec_work(), old(self).spec_rest()),
            effects@ == toggle_effects(
                old(self).ultradian_state,
                old(self).tracker.data.screen_dim_during_rest,
                old(self).tracker.data.screen_lock_during_rest,
            ),
            final(self).tracker == old(self).tracker,
            final(self).cycle_count == old(self).cycle_count,
            final(self).view == old(self).view,
            final(self).screen_tools == old(self).screen_tools,
            old(self).ultradian_state != TimerState::PausedRest ==> final(self).breath_start == old(
                self,
            ).breath_start,
            starts_running(old(self).ultradian_state) ==> final(self).ultradian_start == now,
            !starts_running(old(self).ultradian_state) ==> final(self).ultradian_start == old(
                self,
            ).ultradian_start,
            old(self).ultradian_state == TimerState::PausedRest ==> final(self).breath_start == now,
    {
        let mut effects: Vec<AppEffect> = Vec::new();
        let dim = self.tracker.data.screen_dim_during_rest;
        let lock = self.tracker.data.screen_lock_during_rest;
        match self.ultradian_state {
            TimerState::Idle => {
                self.ultradian_state = TimerState::Work;
                self.ultradian_start = now;
                self.ultradian_elapsed_before = 0;
                self.ultradian_remaining = self.work_dur();
                effects.push(AppEffect::MinimizeWindow);
            },
            TimerState::Work => {
                self.ultradian_state = TimerState::PausedWork;
            },
            TimerState::Rest => {
                self.ultradian_state = TimerState::PausedRest;
                if dim {
                    effects.push(AppEffect::RestoreScreen);
                }
                if lock {
                    effects.push(AppEffect::UnlockScreen);
                }
            },
            TimerState::PausedWork => {
                self.ultradian_state = TimerState::Work;
                let dur = self.work_dur();
                if self.ultradian_remaining > dur {
                    self.ultradian_remaining = dur;
                }
                self.ultradian_elapsed_before = dur - self.ultradian_remaining;
                self.ultradian_start = now;
                effects.push(AppEffect::MinimizeWindow);
            },
            TimerState::PausedRest => {
                self.ultradian_state = TimerState::Rest;
                let dur = self.rest_dur();
                if self.ultradian_remaining > dur {
                    self.ultradian_remaining = dur;
                }
                self.ultradian_elapsed_before = dur - self.ultradian_remaining;
                self.ultradian_start = now;
                self.breath_start = now;
                if dim {
                    effects.push(AppEffect::DimScreen);
                }
                if lock {
                    effects.push(AppEffect::LockScreen);
                }
            },
        }
        assert(effects@ =~= toggle_effects(old(self).ultradian_state, dim, lock));
        effects
    }

    /// Pauses or resumes the timer (or starts it when idle) now (see
    /// `ultradian_toggle_pause_at`; the phase clock is read from the monotonic
    /// clock).
    pub fn ultradian_toggle_pause(&mut self) -> (effects: Vec<AppEffect>)
        requires
            durations_fit(old(self).tracker.data),
        ensures
            final(self).timer() == toggled(old(self).timer(), old(self).spec_work(), old(self).spec_rest()),
            effects@ == toggle_effects(
                old(self).ultradian_state,
                old(self).tracker.data.screen_dim_during_rest,
                old(self).tracker.data.screen_lock_during_rest,
            ),
            final(self).tracker == old(self).tracker,
            final(self).cycle_count == old(self).cycle_count,
            final(self).view == old(self).view,
            final(self).screen_tools == old(self).screen_tools,
            old(self).ultradian_state != TimerState::PausedRest ==> final(self).breath_start == old(
                self,
            ).breath_start,
            !starts_running(old(self).ultradian_state) ==> final(self).ultradian_start == old(
                self,
            ).ultradian_start,
            old(self).ultradian_state == TimerState::PausedRest ==> final(self).breath_start == final(self).ultradian_start,
    {
        self.ultradian_toggle_pause_at(instant_now())
    }

    /// Restarts the current phase in full, as `restarted` says, from `now`:
    /// the phase clock is set to `now`, so the next tick measures only the
    /// time since the restart. Restarting a rest dims and locks the screen
    /// again when those are on.
    pub fn ultradian_restart_phase_at(&mut self, now: Instant) -> (effects: Vec<AppEffect>)
        requires
            durations_fit(old(self).tracker.data),
        ensures
            final(self).timer() == restarted(old(self).timer(), old(self).spec_work(), old(self).spec_rest()),
            effects@ == (match old(self).ultradian_state {
                TimerState::Rest | TimerState::PausedRest => rest_screen_effects(
                    old(self).tracker.data.screen_dim_during_rest,
                    old(self).tracker.data.screen_lock_during_rest,
                ),
                _ => Seq::empty(),
            }),
            old(self).ultradian_state == TimerState::Idle ==> *final(self) == *old(self),
            final(self).tracker == old(self).tracker,
            final(self).cycle_count == old(self).cycle_count,
            final(self).view == old(self).view,
            final(self).screen_tools == old(self).screen_tools,
            old(self).ultradian_state != TimerState::Rest && old(self).ultradian_state
                != TimerState::PausedRest ==> final(self).breath_start == old(self).breath_start,
            old(self).ultradian_state != TimerState::Idle ==> final(self).ultradian_start == now,
            old(self).ultradian_state == TimerState::Rest || old(self).ultradian_state
                == TimerState::PausedRest ==> final(self).breath_start == now,
    {
        let mut effects: Vec<AppEffect> = Vec::new();
        match self.ultradian_state {
            TimerState::Idle => {},
            TimerState::Work | TimerState::PausedWork => {
                self.ultradian_state = TimerState::Work;
                self.ultradian_remaining = self.work_dur();
                self.ultradian_elapsed_before = 0;
                self.ultradian_start = now;
            },
            TimerState::Rest | TimerState::PausedRest => {
                self.ultradian_state = TimerState::Rest;
                self.ultradian_remaining = self.rest_dur();
                self.ultradian_elapsed_before = 0;
                self.ultradian_start = now;
                self.breath_start = now;
                if self.tracker.data.screen_dim_during_rest {
                    effects.push(AppEffect::DimScreen);
                }
                if self.tracker.data.screen_lock_during_rest {
                    effects.push(AppEffect::LockScreen);
                }
            },
        }
        assert(effects@ =~= (match old(self).ultradian_state {
            TimerState::Rest | TimerState::PausedRest => rest_screen_effects(
                old(self).tracker.data.screen_dim_during_rest,
                old(self).tracker.data.screen_lock_during_rest,
            ),
            _ => Seq::empty(),
        }));
        effects
    }

    /// Restarts the current phase in full now (see
    /// `ultradian_restart_phase_at`; the phase clock is read from the
    /// monotonic clock).
    pub fn ultradian_restart_phase(&mut self) -> (effects: Vec<AppEffect>)
        requires
            durations_fit(old(self).tracker.data),
        ensures
            final(self).timer() == restarted(old(self).timer(), old(self).spec_work(), old(self).spec_rest()),
            effects@ == (match old(self).ultradian_state {
                TimerState::Rest | TimerState::PausedRest => rest_screen_effects(
                    old(self).tracker.data.screen_dim_during_rest,
                    old(self).tracker.data.screen_lock_during_rest,
                ),
                _ => Seq::empty(),
            }),
            old(self).ultradian_state == TimerState::Idle ==> *final(self) == *old(self),
            final(self).tracker == old(self).tracker,
            final(self).cycle_count == old(self).cycle_count,
            final(self).view == old(self).view,
            final(self).screen_tools == old(self).screen_tools,
            old(self).ultradian_state != TimerState::Rest && old(self).ultradian_state
                != TimerState::PausedRest ==> final(self).breath_start == old(self).breath_start,
            old(self).ultradian_state == TimerState::Rest || old(self).ultradian_state
                == TimerState::PausedRest ==> final(self).breath_start == final(self).ultradian_start,
    {
        self.ultradian_restart_phase_at(instant_now())
    }

    /// Skips the rest: work starts again in full from `now` (the phase clock
    /// is set to it, so the next tick measures the time since the skip).
    pub fn skip_rest_at(&mut self, now: Instant) -> (effects: Vec<AppEffect>)
        requires
            durations_fit(old(self).tracker.data),
        ensures
            final(self).ultradian_state == TimerState::Work,
            final(self).ultradian_remaining == old(self).spec_work(),
            final(self).ultradian_elapsed_before == 0,
            effects@ == rest_skipped_effects(
                old(self).tracker.data.screen_dim_during_rest,
                old(self).tracker.data.screen_lock_during_rest,
            ),
            final(self).tracker == old(self).tracker,
            final(self).cycle_count == old(self).cycle_count,
            final(self).view == old(self).view,
            final(self).screen_tools == old(self).screen_tools,
            final(self).breath_start == old(self).breath_start,
            final(self).ultradian_start == now,
    {
        let mut effects: Vec<AppEffect> = Vec::new();
        if self.tracker.data.screen_dim_during_rest {
            effects.push(AppEffect::RestoreScreen);
        }
        if self.tracker.data.screen_lock_during_rest {
            effects.push(AppEffect::UnlockScreen);
        }
        self.ultradian_state = TimerState::Work;
        self.ultradian_remaining = self.work_dur();
        self.ultradian_elapsed_before = 0;
        self.ultradian_start = now;
        effects.push(AppEffect::ExitRestView);
        effects.push(AppEffect::NotifyWork);
        assert(effects@ =~= rest_skipped_effects(
            old(self).tracker.data.screen_dim_during_rest,
            old(self).tracker.data.screen_lock_during_rest,
        ));
        effects
    }
    /// Skips the rest: work starts again in full from now (see
    /// `skip_rest_at`; the moment is read from the monotonic clock).
    pub fn skip_rest(&mut self) -> (effects: Vec<AppEffect>)
        requires
            durations_fit(old(self).tracker.data),
        ensures
            final(self).ultradian_state == TimerState::Work,
            final(self).ultradian_remaining == old(self).spec_work(),
            final(self).ultradian_elapsed_before == 0,
            effects@ == rest_skipped_effects(
                old(self).tracker.data.screen_dim_during_rest,
                old(self).tracker.data.screen_lock_during_rest,
            ),
            final(self).tracker == old(self).tracker,
            final(self).cycle_count == old(self).cycle_count,
            final(self).view == old(self).view,
            final(self).screen_tools == old(self).screen_tools,
            final(self).breath_start == old(self).breath_start,
    {
        self.skip_rest_at(instant_now())
    }
}

/// `a + b`, held at `u128::MAX`.
pub open spec fn sat_add128(a: u128, b: u128) -> u128 {
    if a + b <= u128::MAX {
        (a + b) as u128
    } else {
        u128::MAX
    }
}

/// What the passing of time does to the timer, `since` nanoseconds after the
/// running phase was last started or resumed: the remaining time shrinks;
/// once the phase is over, work is followed by rest and rest by work, the
/// next phase in full.
pub open spec fn ticked(v: TimerView, since: u128, work: u128, rest: u128) -> TimerView {
    let elapsed = sat_add128(v.elapsed_before, since);
    let total = phase_length(v.state, work, rest);
    if v.state != TimerState::Work && v.state != TimerState::Rest {
        v
    } else if elapsed < total {
        TimerView { remaining: (total - elapsed) as u128, ..v }
    } else if v.state == TimerState::Work {
        TimerView { state: TimerState::Rest, remaining: rest, elapsed_before: 0 }
    } else {
        TimerView { state: TimerState::Work, remaining: work, elapsed_before: 0 }
    }
}

/// Whether the running phase of `s` is over `since` nanoseconds after it was
/// last started or resumed.
pub open spec fn runs_out(s: AppState, since: u128) -> bool {
    &&& (s.ultradian_state == TimerState::Work || s.ultradian_state == TimerState::Rest)
    &&& sat_add128(s.ultradian_elapsed_before, since) >= phase_length(
        s.ultradian_state,
        s.spec_work(),
        s.spec_rest(),
    )
}

/// `new` and `effects` are what a step of the timer makes of `old`, `since`
/// nanoseconds after its running phase was last started or resumed: the
/// timer moves as `ticked` says. When work runs out, the cycle is logged (a
/// session lasting the work length, ending at some Unix time), the count goes
/// up, the tracker is saved and the rest begins with its effects; when the
/// rest runs out, work begins again with the effects of the rest's end;
/// otherwise there are no effects and the tracker and the count stay. An idle
/// or paused timer does not move at all. The lengths, the view and the screen
/// tools stay, and the breathing guide restarts only with a rest.
pub open spec fn ticked_to(old: AppState, new: AppState, effects: Seq<AppEffect>, since: u128) -> bool {
    let v = old.timer();
    let over = sat_add128(v.elapsed_before, since) >= phase_length(
        v.state,
        old.spec_work(),
        old.spec_rest(),
    );
    let dim = old.tracker.data.screen_dim_during_rest;
    let lock = old.tracker.data.screen_lock_during_rest;
    &&& new.timer() == ticked(v, since, old.spec_work(), old.spec_rest())
    &&& if v.state == TimerState::Work && over {
        &&& effects == rest_begins_effects(dim, lock)
        &&& new.cycle_count == old.cycle_count + 1
        &&& new.tracker.data.ultradian_cycles_completed == new.cycle_count
        &&& exists|end: u64|
            #[trigger] logged_cycle(
                old.tracker,
                new.tracker.data.projects@,
                (old.cycle_count + 1) as nat,
                (old.tracker.data.work_duration_mins * 60) as u64,
                end,
            )
        &&& new.tracker.data.tasks == old.tracker.data.tasks
        &&& same_session(new.tracker, old.tracker)
        &&& saved(new.tracker)
    } else if v.state == TimerState::Rest && over {
        &&& effects == rest_ends_effects(dim, lock)
        &&& new.tracker == old.tracker
        &&& new.cycle_count == old.cycle_count
    } else {
        &&& effects.len() == 0
        &&& new.tracker == old.tracker
        &&& new.cycle_count == old.cycle_count
    }
    &&& v.state != TimerState::Work && v.state != TimerState::Rest ==> new == old
    &&& new.tracker.data.work_duration_mins == old.tracker.data.work_duration_mins
    &&& new.tracker.data.rest_duration_mins == old.tracker.data.rest_duration_mins
    &&& new.view == old.view
    &&& new.screen_tools == old.screen_tools
    &&& !(v.state == TimerState::Work && over) ==> new.breath_start == old.breath_start
}

/// A work phase that runs out is followed by a rest, and a rest that runs
/// out by a work phase in full: the timer cycles between the two.
pub proof fn lemma_phases_alternate(v: TimerView, since: u128, since2: u128, work: u128, rest: u128)
    requires
        v.state == TimerState::Work,
        sat_add128(v.elapsed_before, since) >= work,
        since2 >= rest,
    ensures
        ticked(v, since, work, rest).state == TimerState::Rest,
        ticked(v, since, work, rest).remaining == rest,
        ticked(ticked(v, since, work, rest), since2, work, rest) == (TimerView {
            state: TimerState::Work,
            remaining: work,
            elapsed_before: 0,
        }),
{
}

/// A rest that begins when work runs out counts from the moment it began:
/// the tick that ends the work phase at `now` sets the phase clock to `now`,
/// and a later tick `d` nanoseconds after that moment, within the rest,
/// leaves the rest length less `d`, with no effects and no further cycle,
/// however long the work phase itself took.
pub proof fn lemma_rest_counts_from_its_start(
    s0: AppState,
    s1: AppState,
    e1: Seq<AppEffect>,
    since: u128,
    now: Instant,
    s2: AppState,
    e2: Seq<AppEffect>,
    d: u128,
)
    requires
        s0.ultradian_state == TimerState::Work,
        runs_out(s0, since),
        ticked_to(s0, s1, e1, since),
        s1.ultradian_start == now,
        ticked_to(s1, s2, e2, d),
        d < s0.spec_rest(),
    ensures
        e1 == rest_begins_effects(
            s0.tracker.data.screen_dim_during_rest,
            s0.tracker.data.screen_lock_during_rest,
        ),
        s2.ultradian_state == TimerState::Rest,
        s2.ultradian_remaining == s0.spec_rest() - d,
        e2.len() == 0,
        s2.cycle_count == s0.cycle_count + 1,
{
}

/// Resuming counts from the resume: after a paused phase is resumed at
/// `now` (the phase clock set to `now`), a tick `d` nanoseconds later leaves
/// what was left at the pause less `d`, whatever time passed while paused.
pub proof fn lemma_resume_counts_from_resume(
    s0: AppState,
    s1: AppState,
    now: Instant,
    s2: AppState,
    e2: Seq<AppEffect>,
    d: u128,
)
    requires
        s0.ultradian_state == TimerState::PausedWork || s0.ultradian_state
            == TimerState::PausedRest,
        s0.ultradian_remaining <= phase_length(s0.ultradian_state, s0.spec_work(), s0.spec_rest()),
        s1.timer() == toggled(s0.timer(), s0.spec_work(), s0.spec_rest()),
        s1.tracker == s0.tracker,
        s1.ultradian_start == now,
        ticked_to(s1, s2, e2, d),
        d < s0.ultradian_remaining,
    ensures
        s2.ultradian_state == s1.ultradian_state,
        s2.ultradian_remaining == s0.ultradian_remaining - d,
        e2.len() == 0,
{
}

/// Restarting counts from the restart: after a phase is restarted at `now`
/// (the phase clock set to `now`), a tick `d` nanoseconds later leaves the
/// full phase length less `d`, however long the phase had run before.
pub proof fn lemma_restart_counts_from_restart(
    s0: AppState,
    s1: AppState,
    now: Instant,
    s2: AppState,
    e2: Seq<AppEffect>,
    d: u128,
)
    requires
        s0.ultradian_state != TimerState::Idle,
        s1.timer() == restarted(s0.timer(), s0.spec_work(), s0.spec_rest()),
        s1.tracker == s0.tracker,
        s1.ultradian_start == now,
        ticked_to(s1, s2, e2, d),
        d < phase_length(s1.ultradian_state, s0.spec_work(), s0.spec_rest()),
    ensures
        s2.ultradian_state == s1.ultradian_state,
        s2.ultradian_remaining == phase_length(s1.ultradian_state, s0.spec_work(), s0.spec_rest())
            - d,
        e2.len() == 0,
{
}

/// The time left never exceeds the length of the phase: pausing, resuming,
/// restarting and the passing of time all keep it within the phase it
/// belongs to.
pub proof fn lemma_remaining_within_phase(v: TimerView, since: u128, work: u128, rest: u128)
    requires
        v.remaining <= phase_length(v.state, work, rest),
    ensures
        toggled(v, work, rest).remaining <= phase_length(toggled(v, work, rest).state, work, rest),
        restarted(v, work, rest).remaining <= phase_length(
            restarted(v, work, rest).state,
            work,
            rest,
        ),
        ticked(v, since, work, rest).remaining <= phase_length(
            ticked(v, since, work, rest).state,
            work,
            rest,
        ),
{
}

/// The project that a logged cycle goes to: the active one, else the first
/// one; `None` when there is neither (a project is then created for it).
pub open spec fn cycle_target(s: TimeTrackerState) -> Option<Seq<char>> {
    match s.active_project_id {
        Some(id) => Some(id@),
        None => if s.data.projects@.len() > 0 {
            Some(s.data.projects@[0].id@)
        } else {
            None
        },
    }
}

/// `ps2` is `ps` after a work cycle ending at Unix time `end` was logged:
/// a session named after the cycle, lasting `length_secs` seconds (held at
/// the epoch), added to the target project when
/// that project exists; with no target, a project named "Ultradian" is
/// created first and receives it.
pub open spec fn logged_cycle(
    s: TimeTrackerState,
    ps2: Seq<Project>,
    cycle: nat,
    length_secs: u64,
    end: u64,
) -> bool {
    let ps = s.data.projects@;
    let lang = s.data.language;
    match cycle_target(s) {
        None => {
            &&& ps2.len() == 1
            &&& ps2[0].name@ == translate(lang, "ultradian_project"@)
            &&& ps2[0].id@.len() == 36
            &&& ps2[0].sessions@.len() == 1
            &&& cycle_session(ps2[0].sessions@[0], lang, cycle, length_secs, end)
        },
        Some(tid) => {
            let pi = index_of(ps, tid);
            &&& pi == -1 ==> ps2 == ps
            &&& pi != -1 ==> {
                let p = ps[pi];
                let q = ps2[pi];
                &&& ps2 == ps.update(pi, q)
                &&& q.id == p.id
                &&& q.name == p.name
                &&& q.sessions@ == p.sessions@.push(q.sessions@.last())
                &&& cycle_session(q.sessions@.last(), lang, cycle, length_secs, end)
            }
        },
    }
}

/// `sess` is the session logged for cycle `cycle`, ending at `end` and
/// lasting `length_secs` (held at the epoch).
pub open spec fn cycle_session(sess: Session, lang: Language, cycle: nat, length_secs: u64, end: u64) -> bool {
    &&& sess.id@.len() == 36
    &&& sess.name@ == cycle_session_name(lang, cycle)
    &&& sess.start_time == sat_sub(end, length_secs)
    &&& sess.end_time == end
    &&& sess.sub_sessions@.len() == 0
}

impl AppState {
    /// Logs a finished work cycle ending at Unix time `end` on the local date
    /// `today`: a session for the cycle in the active project (or the first
    /// one, or a new "Ultradian" project), ending at `end` and lasting the
    /// work length; the cycle count goes up, the date is noted, and the
    /// tracker is saved.
    pub fn log_ultradian_session_at(&mut self, end: u64, today: String)
        requires
            old(self).cycle_count < u32::MAX,
            old(self).tracker.data.work_duration_mins * 60 <= u64::MAX,
        ensures
            final(self).cycle_count == old(self).cycle_count + 1,
            final(self).tracker.data.ultradian_cycles_completed == final(self).cycle_count,
            logged_cycle(
                old(self).tracker,
                final(self).tracker.data.projects@,
                (old(self).cycle_count + 1) as nat,
                (old(self).tracker.data.work_duration_mins * 60) as u64,
                end,
            ),
            final(self).tracker.data.last_session_date == today,
            final(self).tracker.data.schema_version == old(self).tracker.data.schema_version,
            final(self).tracker.data.tasks == old(self).tracker.data.tasks,
            final(self).tracker.data.work_duration_mins == old(self).tracker.data.work_duration_mins,
            final(self).tracker.data.rest_duration_mins == old(self).tracker.data.rest_duration_mins,
            final(self).tracker.data.language == old(self).tracker.data.language,
            final(self).tracker.data.screen_dim_during_rest == old(self).tracker.data.screen_dim_during_rest,
            final(self).tracker.data.screen_lock_during_rest == old(self).tracker.data.screen_lock_during_rest,
            same_session(final(self).tracker, old(self).tracker),
            same_forms(final(self).tracker, old(self).tracker),
            saved(final(self).tracker),
            final(self).timer() == old(self).timer(),
            final(self).view == old(self).view,
            final(self).screen_tools == old(self).screen_tools,
            final(self).breath_start == old(self).breath_start,
            final(self).ultradian_start == old(self).ultradian_start,
    {
        let length_secs = self.tracker.data.work_duration_mins * 60;
        let start = end.saturating_sub(length_secs);
        let lang = self.tracker.data.language;
        let ghost ps = self.tracker.data.projects@;
        let project_id: String = match &self.tracker.active_project_id {
            Some(id) => id.clone(),
            None => {
                if self.tracker.data.projects.len() > 0 {
                    self.tracker.data.projects[0].id.clone()
                } else {
                    let id = new_id();
                    let name = to_owned_string(t(&lang, "ultradian_project"));
                    self.tracker.data.projects.push(
                        Project { id: id.clone(), name, sessions: Vec::new() },
                    );
                    id
                }
            },
        };
        let ghost base = self.tracker.data.projects@;
        assert(cycle_target(old(self).tracker) is Some ==> base == ps);
        assert(cycle_target(old(self).tracker) is None ==> base.len() == 1 && base[0].sessions@.len() == 0 && index_of(base, project_id@) == 0);
        proof {
            lemma_index_of(base, project_id@);
        }
        let cycle = self.cycle_count + 1;
        match find_index(&self.tracker.data.projects, project_id.as_str()) {
            Some(pi) => {
                let num = decimal_string(cycle as u64);
                let name = join_with_space(t(&lang, "cycle_label"), num.as_str());
                let mut proj = self.tracker.data.projects.remove(pi);
                let ghost p = proj;
                proj.sessions.push(
                    Session {
                        id: new_id(),
                        name,
                        start_time: start,
                        end_time: end,
                        sub_sessions: Vec::new(),
                    },
                );
                let ghost q = proj;
                self.tracker.data.projects.insert(pi, proj);
                assert(self.tracker.data.projects@ =~= base.update(pi as int, q));
            },
            None => {},
        }
        assert(logged_cycle(old(self).tracker, self.tracker.data.projects@, cycle as nat, length_secs, end));
        self.cycle_count = cycle;
        self.tracker.data.ultradian_cycles_completed = cycle;
        self.tracker.data.last_session_date = today;
        self.tracker.save();
        assert(logged_cycle(
            old(self).tracker,
            self.tracker.data.projects@,
            (old(self).cycle_count + 1) as nat,
            (old(self).tracker.data.work_duration_mins * 60) as u64,
            end,
        ));
    }

    /// Logs a finished work cycle now (see `log_ultradian_session_at`; the
    /// end is the current Unix time and the date today's local one).
    pub fn log_ultradian_session(&mut self)
        requires
            old(self).cycle_count < u32::MAX,
            old(self).tracker.data.work_duration_mins * 60 <= u64::MAX,
        ensures
            final(self).cycle_count == old(self).cycle_count + 1,
            final(self).tracker.data.ultradian_cycles_completed == final(self).cycle_count,
            exists|end: u64|
                #[trigger] logged_cycle(
                    old(self).tracker,
                    final(self).tracker.data.projects@,
                    (old(self).cycle_count + 1) as nat,
                    (old(self).tracker.data.work_duration_mins * 60) as u64,
                    end,
                ),
            final(self).tracker.data.tasks == old(self).tracker.data.tasks,
            final(self).tracker.data.work_duration_mins == old(self).tracker.data.work_duration_mins,
            final(self).tracker.data.rest_duration_mins == old(self).tracker.data.rest_duration_mins,
            final(self).tracker.data.language == old(self).tracker.data.language,
            final(self).tracker.data.screen_dim_during_rest == old(self).tracker.data.screen_dim_during_rest,
            final(self).tracker.data.screen_lock_during_rest == old(self).tracker.data.screen_lock_during_rest,
            same_session(final(self).tracker, old(self).tracker),
            same_forms(final(self).tracker, old(self).tracker),
            saved(final(self).tracker),
            final(self).timer() == old(self).timer(),
            final(self).view == old(self).view,
            final(self).screen_tools == old(self).screen_tools,
            final(self).breath_start == old(self).breath_start,
            final(self).ultradian_start == old(self).ultradian_start,
    {
        let end = #[verifier::truncate] (unix_now() as u64);
        let today = local_date_string();
        self.log_ultradian_session_at(end, today);
    }

    /// Advances the timer, `since_start` nanoseconds after the running phase
    /// was last started or resumed, as `ticked` says, the tick coming at
    /// `now`. When work runs out the cycle is logged and the rest begins;
    /// when the rest runs out work begins again. A phase that begins counts
    /// from `now`: the phase clock is set to it, so the next tick measures
    /// only the time since the change; otherwise the clock is left alone.
    pub fn tick_with_elapsed_at(&mut self, since_start: u128, now: Instant) -> (effects: Vec<AppEffect>)
        requires
            durations_fit(old(self).tracker.data),
            old(self).ultradian_state == TimerState::Work && sat_add128(
                old(self).ultradian_elapsed_before,
                since_start,
            ) >= old(self).spec_work() ==> old(self).cycle_count < u32::MAX,
        ensures
            ticked_to(*old(self), *final(self), effects@, since_start),
            runs_out(*old(self), since_start) ==> final(self).ultradian_start == now,
            !runs_out(*old(self), since_start) ==> final(self).ultradian_start == old(
                self,
            ).ultradian_start,
            runs_out(*old(self), since_start) && old(self).ultradian_state == TimerState::Work
                ==> final(self).breath_start == now,
    {
        let mut effects: Vec<AppEffect> = Vec::new();
        let state = self.ultradian_state;
        if state != TimerState::Work && state != TimerState::Rest {
            return effects;
        }
        let elapsed = self.ultradian_elapsed_before.saturating_add(since_start);
        let total = if state == TimerState::Work {
            self.work_dur()
        } else {
            self.rest_dur()
        };
        let dim = self.tracker.data.screen_dim_during_rest;
        let lock = self.tracker.data.screen_lock_during_rest;
        if elapsed >= total {
            if state == TimerState::Work {
                self.log_ultradian_session();
                self.ultradian_state = TimerState::Rest;
                self.ultradian_remaining = self.rest_dur();
                self.ultradian_elapsed_before = 0;
                self.ultradian_start = now;
                self.breath_start = now;
                effects.push(AppEffect::EnterRestView);
                effects.push(AppEffect::NotifyRest);
                if dim {
                    effects.push(AppEffect::DimScreen);
                }
                if lock {
                    effects.push(AppEffect::LockScreen);
                }
                assert(effects@ =~= rest_begins_effects(dim, lock));
            } else {
                self.ultradian_state = TimerState::Work;
                self.ultradian_remaining = self.work_dur();
                self.ultradian_elapsed_before = 0;
                self.ultradian_start = now;
                effects.push(AppEffect::ExitRestView);
                if dim {
                    effects.push(AppEffect::RestoreScreen);
                }
                if lock {
                    effects.push(AppEffect::UnlockScreen);
                }
                effects.push(AppEffect::NotifyWork);
                assert(effects@ =~= rest_ends_effects(dim, lock));
            }
        } else {
            self.ultradian_remaining = total - elapsed;
        }
        effects
    }

    /// Advances the timer, `since_start` nanoseconds after the running phase
    /// was last started or resumed, now (see `tick_with_elapsed_at`; the
    /// moment a new phase begins is read from the monotonic clock).
    pub fn tick_with_elapsed(&mut self, since_start: u128) -> (effects: Vec<AppEffect>)
        requires
            durations_fit(old(self).tracker.data),
            old(self).ultradian_state == TimerState::Work && sat_add128(
                old(self).ultradian_elapsed_before,
                since_start,
            ) >= old(self).spec_work() ==> old(self).cycle_count < u32::MAX,
        ensures
            ticked_to(*old(self), *final(self), effects@, since_start),
            !runs_out(*old(self), since_start) ==> final(self).ultradian_start == old(
                self,
            ).ultradian_start,
            runs_out(*old(self), since_start) && old(self).ultradian_state == TimerState::Work
                ==> final(self).breath_start == final(self).ultradian_start,
    {
        self.tick_with_elapsed_at(since_start, instant_now())
    }

    /// Advances the timer by the time that passed since the running phase was
    /// last started or resumed: for that time, whatever the clock gave, the
    /// step is the one `ticked_to` describes (the cycle logged and the rest's
    /// effects when work runs out, the rest's end when the rest runs out,
    /// nothing else otherwise). An idle or paused timer does not move.
    pub fn tick(&mut self) -> (effects: Vec<AppEffect>)
        requires
            durations_fit(old(self).tracker.data),
            old(self).ultradian_state == TimerState::Work ==> old(self).cycle_count < u32::MAX,
        ensures
            exists|since: u128| #[trigger] ticked_to(*old(self), *final(self), effects@, since),
            old(self).ultradian_state != TimerState::Work && old(self).ultradian_state
                != TimerState::Rest ==> effects@.len() == 0 && *final(self) == *old(self),
    {
        if self.ultradian_state == TimerState::Work || self.ultradian_state == TimerState::Rest {
            let since = instant_elapsed_nanos(&self.ultradian_start);
            let effects = self.tick_with_elapsed(since);
            assert(ticked_to(*old(self), *self, effects@, since));
            effects
        } else {
            let effects = self.tick_with_elapsed(0);
            assert(ticked_to(*old(self), *self, effects@, 0));
            effects
        }
    }

    /// Advances the timer now, as `tick` does (the step `ticked_to` describes,
    /// for the time the clock gave), unless the work phase would end with the
    /// cycle count at its largest value: then nothing changes and the result
    /// is `None`.
    pub fn try_tick(&mut self) -> (r: Option<Vec<AppEffect>>)
        requires
            durations_fit(old(self).tracker.data),
        ensures
            r is Some ==> exists|since: u128|
                #[trigger] ticked_to(*old(self), *final(self), r->0@, since),
            r is Some && old(self).ultradian_state != TimerState::Work && old(self).ultradian_state
                != TimerState::Rest ==> r->0@.len() == 0 && *final(self) == *old(self),
            r is None ==> {
                &&& *final(self) == *old(self)
                &&& old(self).ultradian_state == TimerState::Work
                &&& old(self).cycle_count == u32::MAX
                &&& exists|since: u128|
                    #[trigger] sat_add128(old(self).ultradian_elapsed_before, since)
                        >= old(self).spec_work()
            },
    {
        if self.ultradian_state == TimerState::Work || self.ultradian_state == TimerState::Rest {
            let since = instant_elapsed_nanos(&self.ultradian_start);
            if self.ultradian_state == TimerState::Work && self.cycle_count == u32::MAX
                && self.ultradian_elapsed_before.saturating_add(since) >= self.work_dur() {
                assert(sat_add128(old(self).ultradian_elapsed_before, since) >= old(self).spec_work());
                return None;
            }
            let r = Some(self.tick_with_elapsed(since));
            assert(ticked_to(*old(self), *self, r->0@, since));
            r
        } else {
            let r = Some(self.tick_with_elapsed(0));
            assert(ticked_to(*old(self), *self, r->0@, 0));
            r
        }
    }

    /// An idle timer shows a full work phase.
    pub fn refresh_idle(&mut self)
        requires
            durations_fit(old(self).tracker.data),
        ensures
            old(self).ultradian_state == TimerState::Idle ==> final(self).ultradian_remaining
                == old(self).spec_work(),
            old(self).ultradian_state != TimerState::Idle ==> final(self).ultradian_remaining
                == old(self).ultradian_remaining,
            *final(self) == (AppState {
                ultradian_remaining: final(self).ultradian_remaining,
                ..*old(self)
            }),
    {
        if self.ultradian_state == TimerState::Idle {
            self.ultradian_remaining = self.work_dur();
        }
    }

    /// How soon the window is drawn again, in milliseconds: every 200 ms during
    /// a rest (running or paused, for the breathing guide), every second while
    /// work runs or a session is tracked, and only on input otherwise.
    pub fn repaint_interval_ms(&self) -> (r: Option<u64>)
        ensures
            r == (if self.ultradian_state == TimerState::Rest || self.ultradian_state
                == TimerState::PausedRest {
                Some(200u64)
            } else if self.ultradian_state == TimerState::Work || self.tracker.is_tracking {
                Some(1000u64)
            } else {
                None
            }),
    {
        if self.is_rest() {
            Some(200)
        } else if self.ultradian_state == TimerState::Work || self.tracker.is_tracking {
            Some(1000)
        } else {
            None
        }
    }

    /// Whether a rest is shown (running or paused).
    pub fn is_rest(&self) -> (r: bool)
        ensures
            r == (self.ultradian_state == TimerState::Rest || self.ultradian_state
                == TimerState::PausedRest),
    {
        self.ultradian_state == TimerState::Rest || self.ultradian_state == TimerState::PausedRest
    }

    /// Switches the interface language; a change is saved.
    pub fn set_language(&mut self, lang: Language) -> (changed: bool)
        ensures
            changed == (lang != old(self).tracker.data.language),
            final(self).tracker.data.language == lang,
            changed ==> saved(final(self).tracker),
            !changed ==> *final(self) == *old(self),
            final(self).tracker.data == (TrackerData {
                language: lang,
                active_session: final(self).tracker.data.active_session,
                ..old(self).tracker.data
            }),
            same_session(final(self).tracker, old(self).tracker),
            same_forms(final(self).tracker, old(self).tracker),
            *final(self) == (AppState { tracker: final(self).tracker, ..*old(self) }),
    {
        if lang != self.tracker.data.language {
            self.tracker.data.language = lang;
            self.tracker.save();
            true
        } else {
            false
        }
    }

    /// After the work or rest length changed in the settings: the timer goes
    /// back to idle with a full work phase, and a rest in progress is undone
    /// (screen restored and unlocked when those are on, rest screen left).
    pub fn reset_after_duration_change(&mut self) -> (effects: Vec<AppEffect>)
        requires
            durations_fit(old(self).tracker.data),
        ensures
            final(self).ultradian_state == TimerState::Idle,
            final(self).ultradian_remaining == old(self).spec_work(),
            final(self).ultradian_elapsed_before == 0,
            effects@ == when(old(self).tracker.data.screen_dim_during_rest, AppEffect::RestoreScreen)
                + when(old(self).tracker.data.screen_lock_during_rest, AppEffect::UnlockScreen)
                + seq![AppEffect::ExitRestView],
            final(self).tracker == old(self).tracker,
            final(self).cycle_count == old(self).cycle_count,
            final(self).view == old(self).view,
            final(self).screen_tools == old(self).screen_tools,
            final(self).breath_start == old(self).breath_start,
    {
        let mut effects: Vec<AppEffect> = Vec::new();
        self.ultradian_state = TimerState::Idle;
        self.ultradian_remaining = self.work_dur();
        self.ultradian_elapsed_before = 0;
        self.ultradian_start = instant_now();
        if self.tracker.data.screen_dim_during_rest {
            effects.push(AppEffect::RestoreScreen);
        }
        if self.tracker.data.screen_lock_during_rest {
            effects.push(AppEffect::UnlockScreen);
        }
        effects.push(AppEffect::ExitRestView);
        assert(effects@ =~= when(old(self).tracker.data.screen_dim_during_rest, AppEffect::RestoreScreen)
            + when(old(self).tracker.data.screen_lock_during_rest, AppEffect::UnlockScreen)
            + seq![AppEffect::ExitRestView]);
        effects
    }
}

/// The sum over projects of their part within the day that starts at the
/// Unix time `midnight`.
pub open spec fn projects_day_total(ps: Seq<Project>, midnight: Option<i64>) -> int
    decreases ps.len(),
{
    if ps.len() == 0 {
        0
    } else {
        projects_day_total(ps.drop_last(), midnight) + day_window(ps.last().sessions@, midnight)
    }
}

/// The day's total over the first `i + 1` projects adds project `i`'s part
/// to that over the first `i`; both parts are at most the whole.
proof fn lemma_projects_day_total_prefix(ps: Seq<Project>, i: int, midnight: Option<i64>)
    requires
        0 <= i < ps.len(),
    ensures
        projects_day_total(ps.take(i + 1), midnight) == projects_day_total(ps.take(i), midnight)
            + day_window(ps[i].sessions@, midnight),
        0 <= projects_day_total(ps.take(i), midnight),
        0 <= day_window(ps[i].sessions@, midnight),
        projects_day_total(ps.take(i + 1), midnight) <= projects_day_total(ps, midnight),
    decreases ps.len() - i,
{
    assert(ps.take(i + 1).drop_last() =~= ps.take(i));
    lemma_day_window_bounded(ps[i].sessions@, midnight);
    lemma_projects_day_total_nonneg(ps.take(i), midnight);
    if i + 1 < ps.len() {
        lemma_projects_day_total_prefix(ps, i + 1, midnight);
    } else {
        assert(ps.take(i + 1) =~= ps);
    }
}

proof fn lemma_projects_day_total_nonneg(ps: Seq<Project>, midnight: Option<i64>)
    ensures
        projects_day_total(ps, midnight) >= 0,
    decreases ps.len(),
{
    if ps.len() > 0 {
        lemma_projects_day_total_nonneg(ps.drop_last(), midnight);
        lemma_day_window_bounded(ps.last().sessions@, midnight);
    }
}

/// The sum of the totals of projects.
pub open spec fn projects_total(ps: Seq<Project>) -> int
    decreases ps.len(),
{
    if ps.len() == 0 {
        0
    } else {
        projects_total(ps.drop_last()) + sessions_total(ps.last().sessions@)
    }
}

/// The total of a prefix of the projects is at most the total of all.
pub proof fn lemma_projects_total_prefix(ps: Seq<Project>, i: int)
    requires
        0 <= i <= ps.len(),
    ensures
        0 <= projects_total(ps.take(i)) <= projects_total(ps),
    decreases ps.len() - i,
{
    if i < ps.len() {
        lemma_projects_total_prefix(ps, i + 1);
        assert(ps.take(i + 1).drop_last() =~= ps.take(i));
        crate::models::lemma_sessions_total_nonneg(ps[i].sessions@);
    } else {
        assert(ps.take(i) =~= ps);
    }
    lemma_projects_total_nonneg(ps.take(i));
}

proof fn lemma_projects_total_nonneg(ps: Seq<Project>)
    ensures
        projects_total(ps) >= 0,
    decreases ps.len(),
{
    if ps.len() > 0 {
        lemma_projects_total_nonneg(ps.drop_last());
        crate::models::lemma_sessions_total_nonneg(ps.last().sessions@);
    }
}

} // verus!
