use ultradian_work::display::{
    dashboard_totals, format_hms, format_hours_minutes, format_ms, project_export_header,
    session_export_rows, session_matches_query, two_digits,
};
use ultradian_work::i18n::Language;
use ultradian_work::models::{Project, Session, SubSession};

fn session(id: &str, start: u64, end: u64, subs: Vec<(u64, u64)>) -> Session {
    Session {
        id: id.into(),
        name: format!("S {id}"),
        start_time: start,
        end_time: end,
        sub_sessions: subs.into_iter().map(|(s, e)| SubSession { start_time: s, end_time: e }).collect(),
    }
}

#[test]
fn clocks_are_zero_padded() {
    assert_eq!(two_digits(0), "00");
    assert_eq!(two_digits(7), "07");
    assert_eq!(two_digits(42), "42");
    assert_eq!(two_digits(123), "123");
    assert_eq!(format_hms(0), "00:00:00");
    assert_eq!(format_hms(3661), "01:01:01");
    assert_eq!(format_hms(360000), "100:00:00");
    assert_eq!(format_ms(5400), "90:00");
    assert_eq!(format_ms(59), "00:59");
    assert_eq!(format_hours_minutes(3600 * 5 + 60 * 7 + 30), "05h 07m");
}

#[test]
fn search_ignores_case() {
    assert!(session_matches_query("Deep Work", ""));
    assert!(session_matches_query("Deep Work", "work"));
    assert!(session_matches_query("Deep Work", "EP W"));
    assert!(!session_matches_query("Deep Work", "play"));
    assert!(session_matches_query("Sesión Ñandú", "ñan"));
    assert!(!session_matches_query("", "a"));
}

#[test]
fn dashboard_sums_all_projects() {
    let projects = vec![
        Project { id: "a".into(), name: "A".into(), sessions: vec![session("1", 0, 100, vec![(200, 250)])] },
        Project { id: "b".into(), name: "B".into(), sessions: vec![] },
        Project {
            id: "c".into(),
            name: "C".into(),
            sessions: vec![session("2", 10, 20, vec![]), session("3", 50, 40, vec![])],
        },
    ];
    let totals = dashboard_totals(&projects);
    assert_eq!(totals.total_secs, 160);
    assert_eq!(totals.total_sessions, 3);
}

#[test]
fn project_export_rows_and_header() {
    let project = Project {
        id: "a".into(),
        name: "A".into(),
        sessions: vec![session("1", 1000, 1600, vec![(2000, 2300)]), session("2", 5, 5, vec![])],
    };
    let rows = session_export_rows(&project);
    assert_eq!(rows.len(), 2);
    assert_eq!(rows[0].name, "S 1");
    assert_eq!(rows[0].total_secs, 900);
    assert_eq!(rows[0].start_time, 1000);
    assert_eq!(rows[1].total_secs, 0);
    let header = project_export_header(&Language::En);
    assert_eq!(header, vec!["Session History".to_string(), "Total Duration:".into(), "Date (Unix)".into()]);
}

#[test]
fn session_duration_in_window_counts_overlap() {
    let s = session("1", 100, 200, vec![(250, 400)]);
    assert_eq!(s.total_duration(), 250);
    assert_eq!(s.duration_in_window(150, 300), 50 + 50);
    assert_eq!(s.duration_in_window(500, 600), 0);
    assert_eq!(s.checked_total_duration(), Some(250));
    let p = Project { id: "p".into(), name: "P".into(), sessions: vec![s.clone(), s] };
    assert_eq!(p.total_duration(), 500);
    assert_eq!(p.duration_in_window(0, 1000), 500);
    assert_eq!(p.checked_total_duration(), Some(500));
    // Today's part is never more than the total.
    assert!(p.today_duration_secs() <= p.total_duration());
}

#[test]
fn overflowing_total_is_reported() {
    let s = session("1", 0, u64::MAX, vec![(0, 10)]);
    assert_eq!(s.checked_total_duration(), None);
}

#[test]
fn duration_on_a_given_day() {
    let day = 86_400u64;
    let p = Project {
        id: "p".into(),
        name: "P".into(),
        sessions: vec![session("1", day - 100, day + 200, vec![(day + 86_300, day + 86_500)])],
    };
    assert_eq!(p.duration_on_day(Some(day as i64)), 200 + 100);
    assert_eq!(p.duration_on_day(Some(0)), 100);
    assert_eq!(p.duration_on_day(None), 0);
}

#[test]
fn sub_session_duration() {
    assert_eq!(SubSession { start_time: 10, end_time: 25 }.duration(), 15);
    assert_eq!(SubSession { start_time: 30, end_time: 25 }.duration(), 0);
}
