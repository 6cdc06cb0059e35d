use ultradian_work::i18n::Language;
use ultradian_work::models::{Priority, Project, Task};
use ultradian_work::task_logic::{priority_text, SheetError, TASKS_SHEET};
use ultradian_work::tracker::TimeTrackerState;

fn task(id: &str, name: &str) -> Task {
    Task {
        id: id.into(),
        name: name.into(),
        description: String::new(),
        completed: false,
        project: None,
        priority: Priority::Media,
        tags: String::new(),
        deadline: String::new(),
    }
}

fn sheet_row(cells: &[&str]) -> Vec<String> {
    let mut row: Vec<String> = cells.iter().map(|c| c.to_string()).collect();
    while row.len() < 7 {
        row.push(String::new());
    }
    row
}

#[test]
fn task_logic_test_export_import_tasks() {
    let mut state = TimeTrackerState::default();
    state.data.tasks.clear();
    state.data.tasks.push(Task {
        id: "test-id-1".into(),
        name: "Test Task".into(),
        description: "Description".into(),
        project: None,
        completed: false,
        priority: Priority::Alta,
        tags: "tag1".into(),
        deadline: "2023-12-31".into(),
    });

    let rows = state.task_export_rows();
    assert_eq!(rows.len(), 2);

    let mut new_state = TimeTrackerState::default();
    new_state.data.tasks.clear();
    new_state.import_tasks_from_sheet(Ok(rows));

    assert_eq!(new_state.data.tasks.len(), 1);
    let imported = &new_state.data.tasks[0];
    assert_eq!(imported.name, "Test Task");
    assert_eq!(imported.description, "Description");
    assert!(!imported.completed);
}

#[test]
fn test_export_import_roundtrip_preserves_all_fields() {
    let mut state = TimeTrackerState::default();
    state.data.projects.push(Project {
        id: "proj-1".into(),
        name: "Mi Proyecto".into(),
        sessions: Vec::new(),
    });
    state.data.tasks.push(Task {
        id: "t1".into(),
        name: "Con proyecto".into(),
        description: "Desc con espacios".into(),
        project: Some("proj-1".into()),
        completed: true,
        priority: Priority::Alta,
        tags: "tag1, tag2".into(),
        deadline: "2026-12-31".into(),
    });
    state.data.tasks.push(Task {
        id: "t2".into(),
        name: "Sin proyecto".into(),
        description: String::new(),
        project: None,
        completed: false,
        priority: Priority::Baja,
        tags: String::new(),
        deadline: String::new(),
    });
    let rows = state.task_export_rows();

    // Fresh state without projects or tasks: import must rebuild everything from the sheet.
    let mut fresh = TimeTrackerState::default();
    fresh.data.projects.clear();
    fresh.data.tasks.clear();
    fresh.import_tasks_from_sheet(Ok(rows));

    assert_eq!(fresh.data.tasks.len(), 2);
    let by_name = |n: &str| {
        fresh
            .data
            .tasks
            .iter()
            .find(|t| t.name == n)
            .unwrap_or_else(|| panic!("task {n} missing"))
    };
    let t1 = by_name("Con proyecto");
    assert_eq!(t1.description, "Desc con espacios");
    assert!(t1.completed);
    assert_eq!(t1.priority, Priority::Alta);
    assert_eq!(t1.tags, "tag1, tag2");
    assert_eq!(t1.deadline, "2026-12-31");
    let proj = fresh
        .data
        .projects
        .iter()
        .find(|p| p.id == t1.project.as_deref().expect("project id"))
        .expect("project recreated");
    assert_eq!(proj.name, "Mi Proyecto");

    let t2 = by_name("Sin proyecto");
    assert!(!t2.completed);
    assert_eq!(t2.priority, Priority::Baja);
    assert_eq!(t2.project, None);
}

#[test]
fn task_logic_test_import_priority_is_case_insensitive() {
    let rows = vec![
        sheet_row(&["Nombre", "Descripcion", "Proyecto", "Completado", "Prioridad", "Tags", "Fecha limite"]),
        sheet_row(&["T Alta", "", "", "false", "High"]),
        sheet_row(&["T Media", "", "", "false", "medium"]),
        sheet_row(&["T Baja", "", "", "false", "Baja"]),
        sheet_row(&["T Typo", "", "", "false", "Urgente"]),
    ];

    let mut state = TimeTrackerState::default();
    state.data.tasks.clear();
    state.import_tasks_from_sheet(Ok(rows));

    assert_eq!(state.data.tasks.len(), 4);
    let priority_of = |name: &str| state.data.tasks.iter().find(|t| t.name == name).unwrap().priority.clone();
    assert_eq!(priority_of("T Alta"), Priority::Alta);
    assert_eq!(priority_of("T Media"), Priority::Media);
    assert_eq!(priority_of("T Baja"), Priority::Baja);
    assert_eq!(priority_of("T Typo"), Priority::Media);
}

#[test]
fn task_logic_test_create_task_validates_name() {
    let mut state = TimeTrackerState::default();
    assert!(state.data.tasks.is_empty());

    // Empty name must be rejected.
    state.new_task_name.clear();
    state.create_task();
    assert!(state.new_task_error.is_some());
    assert!(state.data.tasks.is_empty());

    // Valid name creates the task, clears the form, and asks for a save.
    state.new_task_name = "Valid Task".into();
    state.new_task_priority = Priority::Alta;
    state.new_task_tags = "tag1".into();
    state.create_task();
    assert!(state.new_task_error.is_none());
    assert_eq!(state.data.tasks.len(), 1);
    assert_eq!(state.data.tasks[0].name, "Valid Task");
    assert_eq!(state.data.tasks[0].priority, Priority::Alta);
    assert_eq!(state.data.tasks[0].tags, "tag1");
    assert!(state.new_task_name.is_empty());
    assert!(state.save_requested);

    // What would be written reloads with the task.
    let reloaded = TimeTrackerState::from_data(state.data.clone(), 0);
    assert_eq!(reloaded.data.tasks.len(), 1);
    assert_eq!(reloaded.data.tasks[0].name, "Valid Task");
}

#[test]
fn test_delete_task_removes_it() {
    let mut state = TimeTrackerState::default();
    state.data.tasks.push(task("t1", "A"));
    state.data.tasks.push(task("t2", "B"));

    state.delete_task("t1");

    assert_eq!(state.data.tasks.len(), 1);
    assert_eq!(state.data.tasks[0].id, "t2");
    assert!(state.save_requested);

    let reloaded = TimeTrackerState::from_data(state.data.clone(), 0);
    assert_eq!(reloaded.data.tasks.len(), 1);
    assert_eq!(reloaded.data.tasks[0].id, "t2");
}

#[test]
fn test_start_task_session_ignored_while_tracking() {
    let mut state = TimeTrackerState {
        is_tracking: true,
        ..Default::default()
    };

    let started = state.start_task_session("p1".into(), "T".into());

    assert!(!started);
    assert_eq!(state.active_project_id, None);
    assert!(state.active_session_name.is_empty());
}

#[test]
fn test_start_task_session_activates_project_and_tracking() {
    let mut state = TimeTrackerState::default();

    let started = state.start_task_session("p1".into(), "Mi tarea".into());

    assert!(started);
    assert_eq!(state.active_project_id, Some("p1".into()));
    assert!(state.is_tracking);
    assert!(state.current_session_start.is_some());
    assert!(state.active_session_name.ends_with("Mi tarea"));
    assert_eq!(state.active_parent_session_id, None);
}

#[test]
fn start_task_session_names_session_with_prefix() {
    let mut state = TimeTrackerState::default();
    assert!(state.start_task_session("p1".into(), "Leer".into()));
    assert_eq!(state.active_session_name, "Tarea: Leer");
    assert!(state.save_requested);
    assert!(state.data.active_session.is_some());

    let mut en = TimeTrackerState::default();
    en.data.language = Language::En;
    assert!(en.start_task_session("p2".into(), "Read".into()));
    assert_eq!(en.active_session_name, "Task: Read");
}

#[test]
fn create_task_keeps_project_and_clears_form() {
    let mut state = TimeTrackerState::default();
    state.new_task_name = "Write".into();
    state.new_task_description = "chapter".into();
    state.new_task_project_input = "p9".into();
    state.new_task_deadline = "2030-01-01".into();
    state.create_task();
    let t = &state.data.tasks[0];
    assert_eq!(t.project.as_deref(), Some("p9"));
    assert_eq!(t.description, "chapter");
    assert_eq!(t.deadline, "2030-01-01");
    assert!(!t.completed);
    assert_eq!(t.id.len(), 36);
    assert!(state.new_task_description.is_empty());
    assert!(state.new_task_deadline.is_empty());
    assert!(state.new_task_tags.is_empty());
    // The project field is kept for the next task.
    assert_eq!(state.new_task_project_input, "p9");
}

#[test]
fn create_task_rejects_blank_name_with_message() {
    let mut state = TimeTrackerState::default();
    state.new_task_name = "   ".into();
    state.create_task();
    assert_eq!(state.new_task_error.as_deref(), Some("El nombre no puede estar vacío"));
    assert!(state.data.tasks.is_empty());
    assert_eq!(state.new_task_name, "   ");
    assert!(!state.save_requested);
}

#[test]
fn set_task_completed_changes_only_that_task() {
    let mut state = TimeTrackerState::default();
    state.data.tasks.push(task("t1", "A"));
    state.data.tasks.push(task("t2", "B"));
    state.set_task_completed("t2", true);
    assert!(!state.data.tasks[0].completed);
    assert!(state.data.tasks[1].completed);
    assert!(!state.save_requested);
    state.set_task_completed("missing", true);
    assert!(!state.data.tasks[0].completed);
}

#[test]
fn visible_task_ids_hide_completed() {
    let mut state = TimeTrackerState::default();
    state.data.tasks.push(task("t1", "A"));
    let mut done = task("t2", "B");
    done.completed = true;
    state.data.tasks.push(done);
    state.data.tasks.push(task("t3", "C"));
    assert_eq!(state.visible_task_ids(), vec!["t1".to_string(), "t2".into(), "t3".into()]);
    state.hide_completed_tasks = true;
    assert_eq!(state.visible_task_ids(), vec!["t1".to_string(), "t3".into()]);
}

#[test]
fn export_rows_show_header_and_project_names() {
    let mut state = TimeTrackerState::default();
    state.data.language = Language::En;
    state.data.projects.push(Project { id: "p1".into(), name: "Home".into(), sessions: vec![] });
    let mut t = task("t1", "Paint");
    t.project = Some("p1".into());
    t.completed = true;
    t.priority = Priority::Baja;
    state.data.tasks.push(t);
    let mut lost = task("t2", "Lost");
    lost.project = Some("gone".into());
    state.data.tasks.push(lost);
    let rows = state.task_export_rows();
    assert_eq!(rows.len(), 3);
    assert_eq!(rows[0], sheet_row(&["Name", "Description", "Project", "Completed", "Priority", "Tags", "Deadline"]));
    assert_eq!(rows[1], sheet_row(&["Paint", "", "Home", "true", "Baja"]));
    assert_eq!(rows[2], sheet_row(&["Lost", "", "", "false", "Media"]));
}

#[test]
fn priority_words() {
    assert_eq!(priority_text(Priority::Alta), "Alta");
    assert_eq!(priority_text(Priority::Media), "Media");
    assert_eq!(priority_text(Priority::Baja), "Baja");
    assert_eq!(TASKS_SHEET, "Pendientes");
}

#[test]
fn import_reuses_project_by_name_ignoring_case() {
    let mut state = TimeTrackerState::default();
    state.data.projects.push(Project { id: "p1".into(), name: " Casa ".into(), sessions: vec![] });
    let rows = vec![
        sheet_row(&["h"]),
        sheet_row(&["Barrer", "", "casa", "si"]),
        sheet_row(&["Fregar", "", "Oficina", "yes", "low"]),
        sheet_row(&["fregar", "", "oficina"]),
    ];
    state.import_tasks_from_sheet(Ok(rows));
    assert_eq!(state.data.tasks.len(), 2);
    assert_eq!(state.data.projects.len(), 2);
    assert_eq!(state.data.tasks[0].project.as_deref(), Some("p1"));
    assert!(state.data.tasks[0].completed);
    assert_eq!(state.data.projects[1].name, "Oficina");
    assert_eq!(state.data.tasks[1].project, Some(state.data.projects[1].id.clone()));
    assert!(state.data.tasks[1].completed);
    assert_eq!(state.data.tasks[1].priority, Priority::Baja);
    assert_eq!(state.export_message.as_deref(), Some("2 tareas importadas"));
}

#[test]
fn import_trims_cells_and_keeps_first_row_as_header() {
    let mut state = TimeTrackerState::default();
    let rows = vec![
        sheet_row(&["Solo", "cabecera"]),
        sheet_row(&["  Leer  ", "  libro ", "", " 1 ", " ALTA ", " a, b ", " 2031-02-03 "]),
        vec![],
    ];
    let count = state.import_task_rows(&rows);
    assert_eq!(count, 1);
    let t = &state.data.tasks[0];
    assert_eq!(t.name, "Leer");
    assert_eq!(t.description, "libro");
    assert!(t.completed);
    assert_eq!(t.priority, Priority::Alta);
    assert_eq!(t.tags, "a, b");
    assert_eq!(t.deadline, "2031-02-03");
    assert_eq!(t.project, None);
}

#[test]
fn import_error_messages_in_english() {
    let mut state = TimeTrackerState::default();
    state.data.language = Language::En;
    state.import_tasks_from_sheet(Err(SheetError::OpenFailed));
    assert_eq!(state.export_message.as_deref(), Some("Error opening file"));
}

#[test]
fn report_export_messages() {
    let mut state = TimeTrackerState::default();
    state.report_export(true, "/tmp/out.xlsx");
    assert_eq!(state.export_message.as_deref(), Some("Exportado a /tmp/out.xlsx"));
    assert!(state.export_message_time.is_some());
    state.report_export(false, "/tmp/out.xlsx");
    assert_eq!(state.export_message.as_deref(), Some("Error al exportar"));
}

#[test]
fn export_message_expires_after_five_seconds() {
    let mut state = TimeTrackerState::default();
    assert_eq!(state.export_message_at(0), None);
    state.report_export(false, "x");
    assert_eq!(state.export_message_at(4).as_deref(), Some("Error al exportar"));
    assert_eq!(state.export_message.as_deref(), Some("Error al exportar"));
    assert_eq!(state.export_message_to_show().as_deref(), Some("Error al exportar"));
    assert_eq!(state.export_message_at(5), None);
    assert_eq!(state.export_message, None);
    // A message without a time is kept but not shown.
    state.export_message = Some("kept".into());
    state.export_message_time = None;
    assert_eq!(state.export_message_to_show(), None);
    assert_eq!(state.export_message.as_deref(), Some("kept"));
}

#[test]
fn task_list_changes_save_and_start_sessions() {
    let mut state = TimeTrackerState::default();
    let mut with_project = task("t1", "Escribir");
    with_project.project = Some("p1".into());
    state.data.tasks.push(with_project);
    state.data.tasks.push(task("t2", "Leer"));

    // Nothing done: nothing saved.
    assert!(!state.apply_task_list(&vec![], None, None));
    assert!(!state.save_requested);

    // A task without a project cannot be worked on.
    assert!(!state.apply_task_list(&vec![], None, Some("t2".into())));
    assert!(!state.is_tracking);

    // Completing a task saves; a completed task cannot be worked on.
    assert!(!state.apply_task_list(&vec![("t1".into(), true)], None, Some("t1".into())));
    assert!(state.data.tasks[0].completed);
    assert!(state.save_requested);

    state.save_requested = false;
    let started = state.apply_task_list(&vec![("t1".into(), false)], Some("t2".into()), Some("t1".into()));
    assert!(started);
    assert_eq!(state.data.tasks.len(), 1);
    assert!(!state.data.tasks[0].completed);
    assert_eq!(state.active_project_id.as_deref(), Some("p1"));
    assert_eq!(state.active_session_name, "Tarea: Escribir");
    assert!(state.is_tracking);
    assert!(state.save_requested);

    // While tracking, no other session starts.
    assert!(!state.apply_task_list(&vec![], None, Some("t1".into())));
}

#[test]
fn importing_the_same_sheet_twice_adds_nothing() {
    let rows = vec![
        sheet_row(&["Nombre"]),
        sheet_row(&["Escribir", "", "Casa"]),
        sheet_row(&["Leer", "", ""]),
        sheet_row(&["escribir ", "", " casa"]),
    ];
    let mut state = TimeTrackerState::default();
    assert_eq!(state.import_task_rows(&rows), 2);
    let projects = state.data.projects.len();
    let ids: Vec<String> = state.data.tasks.iter().map(|t| t.id.clone()).collect();
    assert_eq!(state.import_task_rows(&rows), 0);
    assert_eq!(state.data.projects.len(), projects);
    let again: Vec<String> = state.data.tasks.iter().map(|t| t.id.clone()).collect();
    assert_eq!(again, ids);
}

#[test]
fn import_keeps_earlier_tasks_and_projects_in_front() {
    let mut state = TimeTrackerState::default();
    state.data.projects.push(Project { id: "p0".into(), name: "Casa".into(), sessions: vec![] });
    state.data.tasks.push(task("t0", "Barrer"));
    let rows = vec![
        sheet_row(&["h"]),
        sheet_row(&[" Lavar ", "", "Oficina"]),
        sheet_row(&["barrer"]),
        sheet_row(&["Lavar", "", "oficina"]),
    ];
    assert_eq!(state.import_task_rows(&rows), 1);
    assert_eq!(state.data.tasks[0].id, "t0");
    assert_eq!(state.data.projects[0].id, "p0");
    assert_eq!(state.data.tasks[1].name, "Lavar");
    assert_eq!(state.data.projects[1].name, "Oficina");
}
