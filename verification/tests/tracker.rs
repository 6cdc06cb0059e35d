use ultradian_work::screen::ScreenTools;
use ultradian_work::i18n::Language;
use ultradian_work::models::{ActiveSession, Priority, Project, Session, SubSession, Task, TrackerData};
use ultradian_work::task_logic::SheetError;
use ultradian_work::tracker::{restored_session_state, TimeTrackerState};

fn sheet_row(cells: &[&str]) -> Vec<String> {
    let mut row: Vec<String> = cells.iter().map(|c| c.to_string()).collect();
    while row.len() < 7 {
        row.push(String::new());
    }
    row
}

#[test]
fn test_project_total_duration_empty() {
    let proj = Project { id: "1".into(), name: "P1".into(), sessions: vec![] };
    assert_eq!(proj.total_duration(), 0);
}

#[test]
fn test_project_total_duration_with_sessions_and_subs() {
    let proj = Project {
        id: "1".into(),
        name: "P1".into(),
        sessions: vec![
            Session {
                id: "s1".into(),
                name: "S1".into(),
                start_time: 100,
                end_time: 200,
                sub_sessions: vec![
                    SubSession { start_time: 250, end_time: 300 },
                    SubSession { start_time: 350, end_time: 300 },
                ],
            },
            Session {
                id: "s2".into(),
                name: "S2".into(),
                start_time: 500,
                end_time: 400,
                sub_sessions: vec![],
            },
        ],
    };
    assert_eq!(proj.total_duration(), 150);
}

#[test]
fn project_total_adds_up_over_joined_sessions() {
    let sess = |id: &str, start: u64, end: u64, subs: Vec<SubSession>| Session {
        id: id.into(),
        name: id.into(),
        start_time: start,
        end_time: end,
        sub_sessions: subs,
    };
    let a = vec![sess("a1", 10, 40, vec![SubSession { start_time: 50, end_time: 55 }])];
    let b = vec![sess("b1", 100, 160, vec![]), sess("b2", 300, 200, vec![])];
    let total = |ss: Vec<Session>| Project { id: "p".into(), name: "P".into(), sessions: ss }.total_duration();
    let mut joined = a.clone();
    joined.extend(b.clone());
    assert_eq!(total(a.clone()), 35);
    assert_eq!(total(b.clone()), 60);
    assert_eq!(total(joined), total(a) + total(b));
}

#[test]
fn tracker_test_export_import_tasks() {
    let mut state = TimeTrackerState::default();
    state.data.tasks.clear();
    state.data.tasks.push(Task {
        id: "test-id-1".into(),
        name: "Test Task".into(),
        description: "Description".into(),
        project: None,
        completed: false,
        priority: Priority::Alta,
        tags: "tag1".into(),
        deadline: "2023-12-31".into(),
    });

    let rows = state.task_export_rows();
    assert_eq!(rows.len(), 2);

    let mut new_state = TimeTrackerState::default();
    new_state.data.tasks.clear();
    new_state.import_tasks_from_sheet(Ok(rows));

    assert_eq!(new_state.data.tasks.len(), 1);
    let imported = &new_state.data.tasks[0];
    assert_eq!(imported.name, "Test Task");
    assert_eq!(imported.description, "Description");
    assert!(!imported.completed);
}

#[test]
fn tracker_test_import_priority_is_case_insensitive() {
    let rows = vec![
        sheet_row(&["Nombre", "Descripcion", "Proyecto", "Completado", "Prioridad", "Tags", "Fecha limite"]),
        sheet_row(&["T Alta", "", "", "false", "High"]),
        sheet_row(&["T Media", "", "", "false", "medium"]),
        sheet_row(&["T Baja", "", "", "false", "Baja"]),
        sheet_row(&["T Typo", "", "", "false", "Urgente"]),
    ];

    let mut state = TimeTrackerState::default();
    state.data.tasks.clear();
    state.import_tasks_from_sheet(Ok(rows));

    assert_eq!(state.data.tasks.len(), 4);
    let priority_of = |name: &str| state.data.tasks.iter().find(|t| t.name == name).unwrap().priority.clone();
    assert_eq!(priority_of("T Alta"), Priority::Alta);
    assert_eq!(priority_of("T Media"), Priority::Media);
    assert_eq!(priority_of("T Baja"), Priority::Baja);
    assert_eq!(priority_of("T Typo"), Priority::Media);
}

#[test]
fn test_schema_version_defaults_to_one() {
    let data = TrackerData::default();
    assert_eq!(data.schema_version, 1);
}

#[test]
fn tracker_default_data_settings() {
    let data = TrackerData::default();
    assert_eq!(data.language, Language::Es);
    assert_eq!(data.work_duration_mins, 90);
    assert_eq!(data.rest_duration_mins, 15);
    assert_eq!(data.ultradian_cycles_completed, 0);
    assert!(data.projects.is_empty());
    assert!(data.tasks.is_empty());
    assert!(!data.screen_dim_during_rest);
    assert!(!data.screen_lock_during_rest);
    assert_eq!(data.active_session, None);
}

#[test]
fn tracker_test_create_task_validates_name() {
    let mut state = TimeTrackerState::default();
    assert!(state.data.tasks.is_empty());

    state.new_task_name.clear();
    state.create_task();
    assert!(state.new_task_error.is_some());
    assert!(state.data.tasks.is_empty());
    assert!(!state.save_requested);

    state.new_task_name = "Valid Task".into();
    state.new_task_priority = Priority::Alta;
    state.new_task_tags = "tag1".into();
    state.create_task();
    assert!(state.new_task_error.is_none());
    assert_eq!(state.data.tasks.len(), 1);
    assert_eq!(state.data.tasks[0].name, "Valid Task");
    assert_eq!(state.data.tasks[0].priority, Priority::Alta);
    assert_eq!(state.data.tasks[0].tags, "tag1");
    assert!(state.new_task_name.is_empty());
    assert!(state.save_requested);
}

#[test]
fn tracker_test_create_project_validates_name() {
    let mut state = TimeTrackerState::default();
    assert!(state.data.projects.is_empty());

    state.new_project_name.clear();
    state.add_project();
    assert!(state.new_project_error.is_some());
    assert!(state.data.projects.is_empty());

    state.new_project_name = "Valid Project".into();
    state.add_project();
    assert!(state.new_project_error.is_none());
    assert_eq!(state.data.projects.len(), 1);
    assert_eq!(state.data.projects[0].name, "Valid Project");
    let project_id = state.data.projects[0].id.clone();
    assert_eq!(state.active_project_id, Some(project_id));
    assert!(state.new_project_name.is_empty());
    assert!(state.save_requested);
}

#[test]
fn tracker_test_sync_active_session_populates_data() {
    let mut state = TimeTrackerState {
        active_project_id: Some("p1".into()),
        active_session_name: "Sesión".into(),
        active_parent_session_id: Some("s1".into()),
        is_tracking: true,
        current_session_elapsed: 120,
        ..Default::default()
    };

    state.sync_active_session();

    let active = state.data.active_session.as_ref().expect("active_session should be persisted");
    assert_eq!(active.project_id, "p1");
    assert_eq!(active.session_name, "Sesión");
    assert_eq!(active.parent_session_id.as_deref(), Some("s1"));
    assert!(active.is_tracking);
    assert_eq!(active.elapsed_secs, 120);
    assert!(active.start_unix > 0);
}

#[test]
fn tracker_test_sync_active_session_none_when_empty() {
    let mut state = TimeTrackerState::default();
    state.sync_active_session();
    assert_eq!(state.data.active_session, None);
}

#[test]
fn tracker_test_restored_session_state_tracking_folds_gap() {
    let active = ActiveSession {
        project_id: "p1".into(),
        session_name: "S".into(),
        parent_session_id: None,
        is_tracking: true,
        start_unix: 1_000,
        elapsed_secs: 50,
    };
    // 300s passed since start -> 50 + 300 accumulated, still tracking.
    let (is_tracking, elapsed) = restored_session_state(&active, 1_300);
    assert!(is_tracking);
    assert_eq!(elapsed, 350);
}

#[test]
fn tracker_test_restored_session_state_paused_keeps_accumulated() {
    let active = ActiveSession {
        project_id: "p1".into(),
        session_name: "S".into(),
        parent_session_id: None,
        is_tracking: false,
        start_unix: 0,
        elapsed_secs: 42,
    };
    let (is_tracking, elapsed) = restored_session_state(&active, 9_999_999);
    assert!(!is_tracking);
    assert_eq!(elapsed, 42);
}

#[test]
fn from_data_restores_session_of_existing_project() {
    let mut data = TrackerData::default();
    data.projects.push(Project { id: "p1".into(), name: "P".into(), sessions: vec![] });
    data.active_session = Some(ActiveSession {
        project_id: "p1".into(),
        session_name: "S".into(),
        parent_session_id: Some("s1".into()),
        is_tracking: true,
        start_unix: 1_700_000_000,
        elapsed_secs: 300,
    });
    let state = TimeTrackerState::from_data(data, 1_700_000_100);
    assert_eq!(state.active_project_id.as_deref(), Some("p1"));
    assert_eq!(state.active_session_name, "S");
    assert_eq!(state.active_parent_session_id.as_deref(), Some("s1"));
    assert!(state.is_tracking);
    assert!(state.current_session_start.is_some());
    assert_eq!(state.current_session_elapsed, 400);
    assert!(!state.save_requested);
}

#[test]
fn from_data_drops_session_of_missing_project() {
    let mut data = TrackerData::default();
    data.active_session = Some(ActiveSession {
        project_id: "gone".into(),
        session_name: "S".into(),
        parent_session_id: None,
        is_tracking: true,
        start_unix: 10,
        elapsed_secs: 5,
    });
    let state = TimeTrackerState::from_data(data, 100);
    assert_eq!(state.active_project_id, None);
    assert!(!state.is_tracking);
    assert_eq!(state.current_session_elapsed, 0);
    assert!(state.current_session_start.is_none());
}

#[test]
fn save_then_load_restores_running_session() {
    let mut state = TimeTrackerState::default();
    state.data.projects.push(Project { id: "p1".into(), name: "P".into(), sessions: vec![] });
    state.active_project_id = Some("p1".into());
    state.active_session_name = "Deep".into();
    state.is_tracking = true;
    state.current_session_elapsed = 60;
    // Saved 15 seconds into the running interval, loaded 30 seconds later:
    // 60 + 15 + 30 seconds, none lost.
    state.sync_active_session_at(2_000, 15);
    let restored = TimeTrackerState::from_data(state.data.clone(), 2_030);
    assert_eq!(restored.active_project_id.as_deref(), Some("p1"));
    assert_eq!(restored.active_session_name, "Deep");
    assert!(restored.is_tracking);
    assert_eq!(restored.current_session_elapsed, 105);
}

#[test]
fn import_sheet_errors_show_messages() {
    let mut state = TimeTrackerState::default();
    state.import_tasks_from_sheet(Err(SheetError::OpenFailed));
    assert_eq!(state.export_message.as_deref(), Some("Error al abrir archivo"));
    state.data.language = Language::En;
    state.import_tasks_from_sheet(Err(SheetError::SheetMissing));
    assert_eq!(state.export_message.as_deref(), Some("Sheet 'Pendientes' not found"));
    assert!(state.export_message_time.is_some());
    assert!(state.data.tasks.is_empty());
    assert!(!state.save_requested);
}

#[test]
fn import_reports_count() {
    let mut state = TimeTrackerState::default();
    let rows = vec![sheet_row(&["h"]), sheet_row(&["A"]), sheet_row(&["  "]), sheet_row(&["a"])];
    state.import_tasks_from_sheet(Ok(rows));
    // "a" repeats "A" (names compare lowercased) with no project.
    assert_eq!(state.data.tasks.len(), 1);
    assert_eq!(state.export_message.as_deref(), Some("1 tareas importadas"));
    assert!(state.save_requested);
}

#[test]
fn load_restores_a_running_session_from_data() {
    let mut data = TrackerData::default();
    data.projects.push(Project { id: "p1".into(), name: "P".into(), sessions: vec![] });
    data.active_session = Some(ActiveSession {
        project_id: "p1".into(),
        session_name: "S".into(),
        parent_session_id: None,
        is_tracking: true,
        start_unix: 1,
        elapsed_secs: 10,
    });
    let state = TimeTrackerState::load(data).expect("restorable");
    assert!(state.is_tracking);
    assert!(state.current_session_elapsed > 10);
    assert_eq!(state.active_session_name, "S");
    assert!(!state.save_requested);
}

#[test]
fn load_refuses_a_session_whose_seconds_overflow() {
    let mut data = TrackerData::default();
    data.projects.push(Project { id: "p1".into(), name: "P".into(), sessions: vec![] });
    data.active_session = Some(ActiveSession {
        project_id: "p1".into(),
        session_name: "S".into(),
        parent_session_id: None,
        is_tracking: true,
        start_unix: 1,
        elapsed_secs: u64::MAX,
    });
    assert!(TimeTrackerState::load(data.clone()).is_none());
    // The same record for a project that is gone is simply dropped.
    data.projects.clear();
    let state = TimeTrackerState::load(data).expect("no live session");
    assert!(!state.is_tracking);
    assert_eq!(state.active_project_id, None);
}

#[test]
fn settings_are_held_in_range_and_need_the_tools() {
    let none = ScreenTools::detect(false, false, false, false);
    let all = ScreenTools::detect(true, false, true, false);
    let mut state = TimeTrackerState::default();
    // Unchanged settings change nothing.
    assert!(!state.apply_settings(90, 15, false, false, &all));
    assert!(!state.save_requested);
    // Without tools, dimming and locking stay off.
    assert!(!state.apply_settings(90, 15, true, true, &none));
    assert!(!state.data.screen_dim_during_rest);
    assert!(!state.data.screen_lock_during_rest);
    assert!(!state.save_requested);
    assert!(!state.apply_settings(90, 15, true, true, &all));
    assert!(state.data.screen_dim_during_rest);
    assert!(state.data.screen_lock_during_rest);
    assert!(state.save_requested);
    // Lengths are held in their ranges.
    assert!(state.apply_settings(500, 0, true, true, &all));
    assert_eq!(state.data.work_duration_mins, 120);
    assert_eq!(state.data.rest_duration_mins, 1);
    assert!(state.apply_settings(45, 10, true, true, &all));
    assert_eq!(state.data.work_duration_mins, 45);
    assert_eq!(state.data.rest_duration_mins, 10);
}

#[test]
fn active_project_name_of_missing_project_is_empty() {
    let mut state = TimeTrackerState::default();
    assert_eq!(state.active_project_name(), "");
    state.data.projects.push(Project { id: "p1".into(), name: "Casa".into(), sessions: vec![] });
    state.active_project_id = Some("p1".into());
    assert_eq!(state.active_project_name(), "Casa");
    state.active_project_id = Some("zz".into());
    assert_eq!(state.active_project_name(), "");
}

#[test]
fn load_at_refuses_exactly_the_overflowing_time() {
    let mut data = TrackerData::default();
    data.projects.push(Project { id: "p1".into(), name: "P".into(), sessions: vec![] });
    data.active_session = Some(ActiveSession {
        project_id: "p1".into(),
        session_name: "S".into(),
        parent_session_id: None,
        is_tracking: true,
        start_unix: 100,
        elapsed_secs: u64::MAX - 10,
    });
    let ok = TimeTrackerState::load_at(data.clone(), 110).expect("fits");
    assert_eq!(ok.current_session_elapsed, u64::MAX);
    assert!(TimeTrackerState::load_at(data, 111).is_none());
}
