use ultradian_work::i18n::Language;
use ultradian_work::models::{Project, Session, SubSession};
use ultradian_work::screen::ScreenTools;
use ultradian_work::tracker::TimeTrackerState;
use ultradian_work::ultradian::{AppEffect, AppState, AppView, TimerState, NANOS_PER_MINUTE, NANOS_PER_SECOND};

fn app_with(work: u64, rest: u64) -> AppState {
    let mut tracker = TimeTrackerState::default();
    tracker.data.work_duration_mins = work;
    tracker.data.rest_duration_mins = rest;
    AppState::new(tracker, 90, 15, ScreenTools::detect(false, false, false, false))
}

#[test]
fn new_takes_durations_from_data_or_arguments() {
    let mut tracker = TimeTrackerState::default();
    tracker.data.work_duration_mins = 0;
    tracker.data.rest_duration_mins = 20;
    tracker.data.ultradian_cycles_completed = 4;
    let app = AppState::new(tracker, 50, 10, ScreenTools::detect(false, false, false, false));
    assert_eq!(app.tracker.data.work_duration_mins, 50);
    assert_eq!(app.tracker.data.rest_duration_mins, 20);
    assert_eq!(app.ultradian_state, TimerState::Idle);
    assert_eq!(app.view, AppView::Ultradian);
    assert_eq!(app.cycle_count, 4);
    assert_eq!(app.ultradian_remaining, 50 * NANOS_PER_MINUTE);
    assert_eq!(app.work_dur(), 50 * 60 * NANOS_PER_SECOND);
    assert_eq!(app.rest_dur(), 20 * NANOS_PER_MINUTE);
}

#[test]
fn toggle_starts_pauses_and_resumes() {
    let mut app = app_with(90, 15);
    assert_eq!(app.ultradian_toggle_pause(), vec![AppEffect::MinimizeWindow]);
    assert_eq!(app.ultradian_state, TimerState::Work);
    assert_eq!(app.ultradian_remaining, 90 * NANOS_PER_MINUTE);

    // Ten minutes pass, then a pause keeps what is left.
    assert!(app.tick_with_elapsed(10 * NANOS_PER_MINUTE).is_empty());
    assert_eq!(app.ultradian_remaining, 80 * NANOS_PER_MINUTE);
    assert!(app.ultradian_toggle_pause().is_empty());
    assert_eq!(app.ultradian_state, TimerState::PausedWork);
    assert_eq!(app.ultradian_remaining, 80 * NANOS_PER_MINUTE);

    // Ticking while paused changes nothing.
    assert!(app.tick_with_elapsed(30 * NANOS_PER_MINUTE).is_empty());
    assert_eq!(app.ultradian_remaining, 80 * NANOS_PER_MINUTE);

    // Resuming counts the ten minutes already passed.
    assert_eq!(app.ultradian_toggle_pause(), vec![AppEffect::MinimizeWindow]);
    assert_eq!(app.ultradian_state, TimerState::Work);
    assert_eq!(app.ultradian_elapsed_before, 10 * NANOS_PER_MINUTE);
    assert!(app.tick_with_elapsed(5 * NANOS_PER_MINUTE).is_empty());
    assert_eq!(app.ultradian_remaining, 75 * NANOS_PER_MINUTE);
}

#[test]
fn work_running_out_logs_cycle_and_starts_rest() {
    let mut app = app_with(1, 1);
    app.tracker.data.screen_dim_during_rest = true;
    app.tracker.data.screen_lock_during_rest = true;
    app.ultradian_toggle_pause();
    let effects = app.tick_with_elapsed(NANOS_PER_MINUTE);
    assert_eq!(
        effects,
        vec![AppEffect::EnterRestView, AppEffect::NotifyRest, AppEffect::DimScreen, AppEffect::LockScreen]
    );
    assert_eq!(app.ultradian_state, TimerState::Rest);
    assert_eq!(app.ultradian_remaining, NANOS_PER_MINUTE);
    assert_eq!(app.cycle_count, 1);
    assert_eq!(app.tracker.data.ultradian_cycles_completed, 1);
    assert!(app.tracker.save_requested);
    assert_eq!(app.tracker.data.projects.len(), 1);
    let project = &app.tracker.data.projects[0];
    assert_eq!(project.name, "Ultradian");
    assert_eq!(project.sessions.len(), 1);
    let session = &project.sessions[0];
    assert_eq!(session.name, "Ciclo 1");
    assert_eq!(session.end_time - session.start_time, 60);
    assert!(!app.tracker.data.last_session_date.is_empty());

    // The rest running out brings work back in full.
    let effects = app.tick_with_elapsed(2 * NANOS_PER_MINUTE);
    assert_eq!(
        effects,
        vec![AppEffect::ExitRestView, AppEffect::RestoreScreen, AppEffect::UnlockScreen, AppEffect::NotifyWork]
    );
    assert_eq!(app.ultradian_state, TimerState::Work);
    assert_eq!(app.ultradian_remaining, NANOS_PER_MINUTE);
    assert_eq!(app.cycle_count, 1);
}

#[test]
fn logged_cycle_goes_to_active_project() {
    let mut app = app_with(2, 1);
    app.tracker.data.language = Language::En;
    app.tracker.data.projects.push(Project { id: "a".into(), name: "A".into(), sessions: vec![] });
    app.tracker.data.projects.push(Project { id: "b".into(), name: "B".into(), sessions: vec![] });
    app.tracker.active_project_id = Some("b".into());
    app.cycle_count = 6;
    app.log_ultradian_session();
    assert_eq!(app.cycle_count, 7);
    assert!(app.tracker.data.projects[0].sessions.is_empty());
    assert_eq!(app.tracker.data.projects[1].sessions.len(), 1);
    assert_eq!(app.tracker.data.projects[1].sessions[0].name, "Cycle 7");
    assert_eq!(app.tracker.data.projects[1].sessions[0].total_duration(), 120);
}

#[test]
fn logged_cycle_without_active_goes_to_first_project() {
    let mut app = app_with(1, 1);
    app.tracker.data.projects.push(Project { id: "a".into(), name: "A".into(), sessions: vec![] });
    app.log_ultradian_session();
    assert_eq!(app.tracker.data.projects.len(), 1);
    assert_eq!(app.tracker.data.projects[0].sessions.len(), 1);
}

#[test]
fn restart_and_skip() {
    let mut app = app_with(30, 5);
    app.tracker.data.screen_dim_during_rest = true;
    // Restarting an idle timer does nothing.
    assert!(app.ultradian_restart_phase().is_empty());
    assert_eq!(app.ultradian_state, TimerState::Idle);

    app.ultradian_toggle_pause();
    app.tick_with_elapsed(30 * NANOS_PER_MINUTE);
    assert_eq!(app.ultradian_state, TimerState::Rest);
    app.tick_with_elapsed(2 * NANOS_PER_MINUTE);
    assert_eq!(app.ultradian_remaining, 3 * NANOS_PER_MINUTE);
    assert_eq!(app.ultradian_restart_phase(), vec![AppEffect::DimScreen]);
    assert_eq!(app.ultradian_remaining, 5 * NANOS_PER_MINUTE);
    // Restarting twice is restarting once.
    app.ultradian_restart_phase();
    assert_eq!(app.ultradian_state, TimerState::Rest);
    assert_eq!(app.ultradian_remaining, 5 * NANOS_PER_MINUTE);
    assert_eq!(app.ultradian_elapsed_before, 0);

    assert_eq!(app.ultradian_toggle_pause(), vec![AppEffect::RestoreScreen]);
    assert_eq!(app.ultradian_state, TimerState::PausedRest);
    assert!(app.is_rest());
    assert_eq!(app.ultradian_toggle_pause(), vec![AppEffect::DimScreen]);

    let effects = app.skip_rest();
    assert_eq!(effects, vec![AppEffect::RestoreScreen, AppEffect::ExitRestView, AppEffect::NotifyWork]);
    assert_eq!(app.ultradian_state, TimerState::Work);
    assert_eq!(app.ultradian_remaining, 30 * NANOS_PER_MINUTE);
    assert!(!app.is_rest());
}

#[test]
fn duration_change_resets_to_idle() {
    let mut app = app_with(30, 5);
    app.tracker.data.screen_lock_during_rest = true;
    app.ultradian_toggle_pause();
    app.tracker.data.work_duration_mins = 45;
    let effects = app.reset_after_duration_change();
    assert_eq!(effects, vec![AppEffect::UnlockScreen, AppEffect::ExitRestView]);
    assert_eq!(app.ultradian_state, TimerState::Idle);
    assert_eq!(app.ultradian_remaining, 45 * NANOS_PER_MINUTE);
    app.tracker.data.work_duration_mins = 50;
    app.refresh_idle();
    assert_eq!(app.ultradian_remaining, 50 * NANOS_PER_MINUTE);
}

#[test]
fn language_change_is_saved_once() {
    let mut app = app_with(30, 5);
    assert!(!app.set_language(Language::Es));
    assert!(!app.tracker.save_requested);
    assert!(app.set_language(Language::En));
    assert_eq!(app.tracker.data.language, Language::En);
    assert!(app.tracker.save_requested);
}

#[test]
fn tick_on_idle_timer_does_nothing() {
    let mut app = app_with(30, 5);
    assert!(app.tick().is_empty());
    assert_eq!(app.ultradian_state, TimerState::Idle);
    assert_eq!(app.ultradian_remaining, 30 * NANOS_PER_MINUTE);
}

#[test]
fn remaining_display_in_minutes_and_seconds() {
    let mut app = app_with(90, 15);
    assert_eq!(app.remaining_secs(), 5400);
    assert_eq!(app.remaining_display(), "90:00");
    app.ultradian_remaining = 61 * NANOS_PER_SECOND + 999_999_999;
    assert_eq!(app.remaining_display(), "01:01");
}

#[test]
fn today_total_counts_sessions_of_today_only() {
    let mut app = app_with(30, 5);
    app.tracker.data.projects.push(Project {
        id: "p".into(),
        name: "P".into(),
        sessions: vec![Session {
            id: "old".into(),
            name: "old".into(),
            start_time: 100,
            end_time: 200,
            sub_sessions: vec![SubSession { start_time: 300, end_time: 400 }],
        }],
    });
    // A session in 1970 is not part of today.
    assert_eq!(app.today_total_secs(), 0);
}

#[test]
fn work_screen_texts_and_progress() {
    let mut app = app_with(90, 15);
    assert_eq!(app.status_text(), "ESPERANDO INICIO");
    assert_eq!(app.help_text(), "[Enter] o [Espacio] para Iniciar");
    assert_eq!(app.cycle_label(), "Ciclo 1");
    assert_eq!(app.phase_progress_secs(), (0, 5400));
    assert_eq!(app.repaint_interval_ms(), None);
    app.ultradian_toggle_pause();
    app.tick_with_elapsed(90 * NANOS_PER_SECOND);
    assert_eq!(app.status_text(), "TRABAJO PROFUNDO");
    assert_eq!(app.phase_progress_secs(), (90, 5400));
    assert_eq!(app.repaint_interval_ms(), Some(1000));
    app.ultradian_toggle_pause();
    assert_eq!(app.status_text(), "(PAUSADO)");
    assert_eq!(app.repaint_interval_ms(), None);
    app.tracker.is_tracking = true;
    assert_eq!(app.repaint_interval_ms(), Some(1000));
    app.tracker.is_tracking = false;
    app.ultradian_toggle_pause();
    app.tick_with_elapsed(90 * NANOS_PER_MINUTE);
    assert_eq!(app.status_text(), "");
    assert_eq!(app.repaint_interval_ms(), Some(200));
    assert_eq!(app.phase_progress_secs(), (0, 900));
    assert_eq!(app.cycle_label(), "Ciclo 2");
}

#[test]
fn pausing_a_locked_rest_unlocks_and_resuming_locks_again() {
    let mut app = app_with(1, 5);
    app.tracker.data.screen_dim_during_rest = true;
    app.tracker.data.screen_lock_during_rest = true;
    app.ultradian_toggle_pause();
    app.tick_with_elapsed(NANOS_PER_MINUTE);
    assert_eq!(app.ultradian_state, TimerState::Rest);
    assert_eq!(app.ultradian_toggle_pause(), vec![AppEffect::RestoreScreen, AppEffect::UnlockScreen]);
    assert_eq!(app.ultradian_toggle_pause(), vec![AppEffect::DimScreen, AppEffect::LockScreen]);
    assert_eq!(app.ultradian_restart_phase(), vec![AppEffect::DimScreen, AppEffect::LockScreen]);
    // Only locking on: pausing only unlocks.
    app.tracker.data.screen_dim_during_rest = false;
    assert_eq!(app.ultradian_toggle_pause(), vec![AppEffect::UnlockScreen]);
}

#[test]
fn a_rest_leaves_the_screen_as_found() {
    let count = |effects: &[AppEffect], e: AppEffect| effects.iter().filter(|x| **x == e).count();
    for (dim, lock) in [(false, false), (true, false), (false, true), (true, true)] {
        let mut app = app_with(1, 1);
        app.tracker.data.screen_dim_during_rest = dim;
        app.tracker.data.screen_lock_during_rest = lock;
        app.ultradian_toggle_pause();
        let begins = app.tick_with_elapsed(NANOS_PER_MINUTE);
        let ends = app.tick_with_elapsed(NANOS_PER_MINUTE);
        assert_eq!(count(&begins, AppEffect::DimScreen), count(&ends, AppEffect::RestoreScreen));
        assert_eq!(count(&begins, AppEffect::LockScreen), count(&ends, AppEffect::UnlockScreen));
        assert_eq!(count(&begins, AppEffect::EnterRestView), count(&ends, AppEffect::ExitRestView));
        app.tick_with_elapsed(NANOS_PER_MINUTE);
        let skipped = app.skip_rest();
        assert_eq!(count(&begins, AppEffect::DimScreen), count(&skipped, AppEffect::RestoreScreen));
        assert_eq!(count(&begins, AppEffect::LockScreen), count(&skipped, AppEffect::UnlockScreen));
    }
}

#[test]
fn time_left_stays_within_the_phase() {
    let mut app = app_with(2, 1);
    let within = |app: &AppState| {
        let phase = if app.is_rest() { app.rest_dur() } else { app.work_dur() };
        app.ultradian_remaining <= phase
    };
    assert!(within(&app));
    app.ultradian_toggle_pause();
    assert!(within(&app));
    app.tick_with_elapsed(30 * NANOS_PER_SECOND);
    assert!(within(&app));
    app.ultradian_toggle_pause();
    app.tracker.data.work_duration_mins = 1;
    app.ultradian_toggle_pause();
    assert!(within(&app));
    assert_eq!(app.ultradian_remaining, NANOS_PER_MINUTE);
    app.tick_with_elapsed(5 * NANOS_PER_MINUTE);
    assert!(within(&app));
    app.ultradian_restart_phase();
    assert!(within(&app));
}

#[test]
fn logged_cycle_at_a_given_time() {
    let mut app = app_with(90, 15);
    app.tracker.data.projects.push(Project { id: "p".into(), name: "P".into(), sessions: vec![] });
    app.log_ultradian_session_at(100_000, "2030-05-06".into());
    let s = &app.tracker.data.projects[0].sessions[0];
    assert_eq!(s.start_time, 100_000 - 5400);
    assert_eq!(s.end_time, 100_000);
    assert_eq!(s.name, "Ciclo 1");
    assert_eq!(app.tracker.data.last_session_date, "2030-05-06");
    // A work phase longer than the time since the epoch starts at 0.
    app.log_ultradian_session_at(60, "1970-01-01".into());
    assert_eq!(app.tracker.data.projects[0].sessions[1].start_time, 0);
    assert_eq!(app.tracker.data.projects[0].sessions[1].name, "Ciclo 2");
}

#[test]
fn logged_cycle_lasts_the_work_length() {
    let mut app = app_with(1, 1);
    app.ultradian_toggle_pause();
    app.tick_with_elapsed(30 * NANOS_PER_SECOND);
    app.ultradian_toggle_pause();
    app.ultradian_toggle_pause();
    // The tick comes a second late: 30 s before the pause and 31 s after it.
    // The session still lasts the one-minute work phase.
    app.tick_with_elapsed(31 * NANOS_PER_SECOND);
    let s = &app.tracker.data.projects[0].sessions[0];
    assert_eq!(s.end_time - s.start_time, 60);
    assert_eq!(app.cycle_count, 1);
    assert_eq!(app.ultradian_state, TimerState::Rest);
}

#[test]
fn idle_and_paused_timers_do_not_move() {
    let mut app = app_with(1, 1);
    app.cycle_count = u32::MAX;
    assert!(app.tick().is_empty());
    assert!(app.ultradian_restart_phase().is_empty());
    assert_eq!(app.ultradian_state, TimerState::Idle);
    assert_eq!(app.cycle_count, u32::MAX);
}

#[test]
fn today_total_sums_every_project_on_the_day() {
    let day = 86_400u64;
    let mut app = app_with(30, 5);
    app.tracker.data.projects.push(Project {
        id: "a".into(),
        name: "A".into(),
        sessions: vec![Session { id: "1".into(), name: "x".into(), start_time: day + 10, end_time: day + 70, sub_sessions: vec![] }],
    });
    app.tracker.data.projects.push(Project {
        id: "b".into(),
        name: "B".into(),
        sessions: vec![Session {
            id: "2".into(),
            name: "y".into(),
            start_time: day - 50,
            end_time: day + 50,
            sub_sessions: vec![SubSession { start_time: 3 * day, end_time: 3 * day + 9 }],
        }],
    });
    assert_eq!(app.today_total_on(Some(day as i64)), 60 + 50);
    assert_eq!(app.today_total_on(Some(0)), 50);
    assert_eq!(app.today_total_on(None), 0);
    assert!(app.today_total_secs() <= 60 + 100 + 9);
}

#[test]
fn new_keeps_the_loaded_tracker_and_tools() {
    let mut tracker = TimeTrackerState::default();
    tracker.data.language = Language::En;
    tracker.data.screen_lock_during_rest = true;
    tracker.data.work_duration_mins = 0;
    tracker.data.last_session_date = "2030-01-02".into();
    tracker.new_task_name = "draft".into();
    let app = AppState::new(tracker, 50, 10, ScreenTools::detect(true, false, true, false));
    assert_eq!(app.tracker.data.language, Language::En);
    assert!(app.tracker.data.screen_lock_during_rest);
    assert_eq!(app.tracker.data.last_session_date, "2030-01-02");
    assert_eq!(app.tracker.new_task_name, "draft");
    assert_eq!(app.tracker.data.work_duration_mins, 50);
    assert!(app.screen_tools.has_brightnessctl());
    assert!(app.screen_tools.has_lock());
}

#[test]
fn language_change_keeps_the_other_settings() {
    let mut app = app_with(30, 5);
    app.tracker.data.screen_dim_during_rest = true;
    app.tracker.data.last_session_date = "2030-01-02".into();
    app.cycle_count = 3;
    app.view = AppView::Tasks;
    assert!(app.set_language(Language::En));
    assert!(app.tracker.data.screen_dim_during_rest);
    assert_eq!(app.tracker.data.last_session_date, "2030-01-02");
    assert_eq!(app.cycle_count, 3);
    assert_eq!(app.view, AppView::Tasks);
}

#[test]
fn try_tick_waits_only_when_the_count_is_full() {
    let mut app = app_with(30, 5);
    app.cycle_count = u32::MAX;
    assert_eq!(app.try_tick(), Some(vec![]));
    app.ultradian_toggle_pause();
    // Work has just started: no cycle ends, so the step runs.
    assert_eq!(app.try_tick(), Some(vec![]));
    assert_eq!(app.ultradian_state, TimerState::Work);
    // With the phase already over, the step is refused and nothing changes.
    app.ultradian_elapsed_before = 30 * NANOS_PER_MINUTE;
    assert_eq!(app.try_tick(), None);
    assert_eq!(app.ultradian_state, TimerState::Work);
    assert_eq!(app.cycle_count, u32::MAX);
}
