use std::time::{Duration, Instant};

use ultradian_work::i18n::Language;
use ultradian_work::models::{ActiveSession, Project, Session, SubSession};
use ultradian_work::session_logic::session_name_for;
use ultradian_work::tracker::{restored_session_state, TimeTrackerState};

fn project(id: &str, sessions: Vec<Session>) -> Project {
    Project { id: id.into(), name: format!("Project {id}"), sessions }
}

fn session(id: &str, name: &str, start: u64, end: u64) -> Session {
    Session { id: id.into(), name: name.into(), start_time: start, end_time: end, sub_sessions: vec![] }
}

#[test]
fn session_logic_test_create_project_validates_name() {
    let mut state = TimeTrackerState::default();
    assert!(state.data.projects.is_empty());

    state.new_project_name.clear();
    state.add_project();
    assert!(state.new_project_error.is_some());
    assert!(state.data.projects.is_empty());

    state.new_project_name = "Valid Project".into();
    state.add_project();
    assert!(state.new_project_error.is_none());
    assert_eq!(state.data.projects.len(), 1);
    assert_eq!(state.data.projects[0].name, "Valid Project");
    let project_id = state.data.projects[0].id.clone();
    assert_eq!(state.active_project_id, Some(project_id));
    assert!(state.new_project_name.is_empty());
    assert!(state.save_requested);
}

#[test]
fn create_project_rejects_whitespace_name() {
    let mut state = TimeTrackerState::default();
    state.new_project_name = " \t ".into();
    state.add_project();
    assert_eq!(state.new_project_error.as_deref(), Some("El nombre no puede estar vacío"));
    assert!(state.data.projects.is_empty());
    assert_eq!(state.new_project_name, " \t ");
}

#[test]
fn test_delete_project_clears_active_state() {
    let mut state = TimeTrackerState::default();
    state.data.projects.push(Project { id: "p1".into(), name: "P".into(), sessions: vec![] });
    state.active_project_id = Some("p1".into());
    state.is_tracking = true;
    state.current_session_elapsed = 30;

    state.delete_project("p1");

    assert!(state.data.projects.is_empty());
    assert_eq!(state.active_project_id, None);
    assert!(!state.is_tracking);
    assert_eq!(state.current_session_elapsed, 0);
    assert!(state.current_session_start.is_none());
    assert!(state.save_requested);
}

#[test]
fn delete_other_project_keeps_session() {
    let mut state = TimeTrackerState::default();
    state.data.projects.push(project("p1", vec![]));
    state.data.projects.push(project("p2", vec![]));
    state.active_project_id = Some("p1".into());
    state.current_session_elapsed = 30;
    state.delete_project("p2");
    assert_eq!(state.data.projects.len(), 1);
    assert_eq!(state.data.projects[0].id, "p1");
    assert_eq!(state.active_project_id.as_deref(), Some("p1"));
    assert_eq!(state.current_session_elapsed, 30);
}

#[test]
fn test_continue_session_ignored_while_tracking() {
    let mut state = TimeTrackerState { is_tracking: true, ..Default::default() };

    state.continue_session("s1".into(), "S".into());

    assert_eq!(state.active_parent_session_id, None);
    assert!(state.active_session_name.is_empty());
}

#[test]
fn continue_session_sets_parent_when_idle() {
    let mut state = TimeTrackerState::default();
    state.continue_session("s1".into(), "S".into());
    assert_eq!(state.active_parent_session_id.as_deref(), Some("s1"));
    assert_eq!(state.active_session_name, "S");
    assert!(state.save_requested);
}

#[test]
fn test_pause_session_folds_elapsed() {
    let mut state = TimeTrackerState::default();
    state.is_tracking = true;
    let start = Instant::now().checked_sub(Duration::from_secs(120)).unwrap();
    state.current_session_start = Some(start);
    state.current_session_elapsed = 30;

    state.pause_session();

    assert!(!state.is_tracking);
    assert!(state.current_session_start.is_none());
    assert!(state.current_session_elapsed >= 150);
}

#[test]
fn toggle_tracking_starts_then_pauses() {
    let mut state = TimeTrackerState::default();
    assert!(state.toggle_tracking());
    assert!(state.is_tracking);
    assert!(state.current_session_start.is_some());
    assert!(!state.toggle_tracking());
    assert!(!state.is_tracking);
    assert!(state.current_session_start.is_none());
}

#[test]
fn session_logic_test_sync_active_session_populates_data() {
    let mut state = TimeTrackerState {
        active_project_id: Some("p1".into()),
        active_session_name: "Sesión".into(),
        active_parent_session_id: Some("s1".into()),
        is_tracking: true,
        current_session_elapsed: 120,
        ..Default::default()
    };

    state.sync_active_session();

    let active = state.data.active_session.as_ref().expect("active_session should be persisted");
    assert_eq!(active.project_id, "p1");
    assert_eq!(active.session_name, "Sesión");
    assert_eq!(active.parent_session_id.as_deref(), Some("s1"));
    assert!(active.is_tracking);
    assert_eq!(active.elapsed_secs, 120);
    assert!(active.start_unix > 0);
}

#[test]
fn session_logic_test_sync_active_session_none_when_empty() {
    let mut state = TimeTrackerState::default();
    state.sync_active_session();
    assert_eq!(state.data.active_session, None);
}

#[test]
fn sync_at_stamps_given_time_only_when_tracking() {
    let mut state = TimeTrackerState { current_session_elapsed: 9, ..Default::default() };
    state.sync_active_session_at(777, 40);
    let active = state.data.active_session.clone().unwrap();
    assert!(!active.is_tracking);
    assert_eq!(active.start_unix, 0);
    assert_eq!(active.project_id, "");
    state.is_tracking = true;
    state.sync_active_session_at(777, 40);
    // The running interval is kept by its start.
    assert_eq!(state.data.active_session.clone().unwrap().start_unix, 737);
    assert_eq!(state.data.active_session.clone().unwrap().elapsed_secs, 9);
    state.sync_active_session_at(777, 0);
    assert_eq!(state.data.active_session.unwrap().start_unix, 777);
}

#[test]
fn session_logic_test_restored_session_state_tracking_folds_gap() {
    let active = ActiveSession {
        project_id: "p1".into(),
        session_name: "S".into(),
        parent_session_id: None,
        is_tracking: true,
        start_unix: 1_000,
        elapsed_secs: 50,
    };
    // 300s passed since start -> 50 + 300 accumulated, still tracking.
    let (is_tracking, elapsed) = restored_session_state(&active, 1_300);
    assert!(is_tracking);
    assert_eq!(elapsed, 350);
}

#[test]
fn session_logic_test_restored_session_state_paused_keeps_accumulated() {
    let active = ActiveSession {
        project_id: "p1".into(),
        session_name: "S".into(),
        parent_session_id: None,
        is_tracking: false,
        start_unix: 0,
        elapsed_secs: 42,
    };
    let (is_tracking, elapsed) = restored_session_state(&active, 9_999_999);
    assert!(!is_tracking);
    assert_eq!(elapsed, 42);
}

#[test]
fn restored_session_with_clock_behind_keeps_accumulated() {
    let active = ActiveSession {
        project_id: "p1".into(),
        session_name: "S".into(),
        parent_session_id: None,
        is_tracking: true,
        start_unix: 5_000,
        elapsed_secs: 7,
    };
    assert_eq!(restored_session_state(&active, 4_000), (true, 7));
}

#[test]
fn finish_session_records_new_session_with_default_name() {
    let mut state = TimeTrackerState::default();
    state.data.language = Language::En;
    state.data.projects.push(project("p1", vec![session("s0", "Old", 1, 2)]));
    state.active_project_id = Some("p1".into());
    state.current_session_elapsed = 90;

    state.finish_session();

    let sessions = &state.data.projects[0].sessions;
    assert_eq!(sessions.len(), 2);
    let s = &sessions[1];
    assert_eq!(s.name, "Session 2");
    assert_eq!(s.end_time - s.start_time, 90);
    assert_eq!(s.id.len(), 36);
    assert!(s.sub_sessions.is_empty());
    assert!(!state.is_tracking);
    assert_eq!(state.current_session_elapsed, 0);
    assert!(state.active_session_name.is_empty());
    assert_eq!(state.active_project_id.as_deref(), Some("p1"));
    assert!(state.save_requested);
}

#[test]
fn finish_session_appends_sub_session_to_parent() {
    let mut state = TimeTrackerState::default();
    state.data.projects.push(project("p1", vec![session("s1", "Main", 10, 20)]));
    state.active_project_id = Some("p1".into());
    state.active_parent_session_id = Some("s1".into());
    state.active_session_name = "Main".into();
    state.current_session_elapsed = 40;

    state.finish_session();

    let s = &state.data.projects[0].sessions[0];
    assert_eq!(state.data.projects[0].sessions.len(), 1);
    assert_eq!(s.sub_sessions.len(), 1);
    assert_eq!(s.sub_sessions[0].end_time - s.sub_sessions[0].start_time, 40);
    assert_eq!(s.total_duration(), 50);
    assert_eq!(state.active_parent_session_id, None);
}

#[test]
fn finish_session_without_project_does_nothing() {
    let mut state = TimeTrackerState::default();
    state.current_session_elapsed = 40;
    state.finish_session();
    assert_eq!(state.current_session_elapsed, 40);
    state.active_project_id = Some("missing".into());
    state.finish_session();
    assert_eq!(state.current_session_elapsed, 40);
    assert!(!state.save_requested);
}

#[test]
fn delete_session_clears_continuation() {
    let mut state = TimeTrackerState::default();
    state.data.projects.push(project("p1", vec![session("s1", "A", 1, 2), session("s2", "B", 3, 4)]));
    state.active_parent_session_id = Some("s1".into());
    state.active_session_name = "A".into();
    state.delete_session("p1", "s1");
    assert_eq!(state.data.projects[0].sessions.len(), 1);
    assert_eq!(state.data.projects[0].sessions[0].id, "s2");
    assert_eq!(state.active_parent_session_id, None);
    assert!(state.active_session_name.is_empty());
}

#[test]
fn rename_session_changes_only_that_name() {
    let mut state = TimeTrackerState::default();
    state.data.projects.push(project("p1", vec![session("s1", "A", 1, 2), session("s2", "B", 3, 4)]));
    state.rename_session("p1", "s2", "Renamed".into());
    assert_eq!(state.data.projects[0].sessions[0].name, "A");
    assert_eq!(state.data.projects[0].sessions[1].name, "Renamed");
    assert!(state.save_requested);
    let mut other = TimeTrackerState::default();
    other.rename_session("p1", "s2", "X".into());
    assert!(!other.save_requested);
}

#[test]
fn dialogs_resolve_as_asked() {
    let mut state = TimeTrackerState::default();
    state.data.projects.push(project("p1", vec![session("s1", "A", 1, 2)]));
    state.request_session_deletion("p1".into(), "s1".into());
    state.resolve_session_deletion(false);
    assert_eq!(state.deleting_session_id, None);
    assert_eq!(state.data.projects[0].sessions.len(), 1);
    state.request_session_deletion("p1".into(), "s1".into());
    state.resolve_session_deletion(true);
    assert!(state.data.projects[0].sessions.is_empty());

    state.begin_session_edit("p1".into(), "s9".into(), "Old".into());
    state.editing_session_name = "New".into();
    state.commit_session_edit();
    assert_eq!(state.editing_session_id, None);

    state.request_project_deletion("p1".into());
    assert_eq!(state.deleting_project_id.as_deref(), Some("p1"));
    state.resolve_project_deletion(true);
    assert!(state.data.projects.is_empty());
    assert_eq!(state.deleting_project_id, None);
}

#[test]
fn project_selection_and_deletion_wait_while_tracking() {
    let mut state = TimeTrackerState { is_tracking: true, ..Default::default() };
    state.select_project("p1".into());
    state.request_project_deletion("p1".into());
    assert_eq!(state.active_project_id, None);
    assert_eq!(state.deleting_project_id, None);
    assert!(!state.can_finish(0));
    assert!(state.can_finish(1));
}

#[test]
fn default_session_name_in_both_languages() {
    assert_eq!(session_name_for(&Language::Es, 3), "Sesión 3");
    assert_eq!(session_name_for(&Language::En, 12), "Session 12");
    let _ = SubSession { start_time: 0, end_time: 0 };
}

#[test]
fn pause_and_finish_at_given_times() {
    let mut state = TimeTrackerState::default();
    state.data.projects.push(project("p1", vec![]));
    state.active_project_id = Some("p1".into());
    state.start_session();
    assert_eq!(state.display_secs_with(40), 40);
    state.pause_session_after(40);
    assert_eq!(state.current_session_elapsed, 40);
    assert!(!state.is_tracking);
    // Paused: the running time is not counted.
    assert_eq!(state.display_secs_with(1_000), 40);
    state.start_session();
    state.finish_session_at(20, 10_000);
    let s = &state.data.projects[0].sessions[0];
    assert_eq!(s.start_time, 10_000 - 60);
    assert_eq!(s.end_time, 10_000);
    assert_eq!(s.name, "Sesión 1");
    assert_eq!(state.current_session_elapsed, 0);
    assert!(!state.is_tracking);
    assert_eq!(state.active_project_id.as_deref(), Some("p1"));
}
