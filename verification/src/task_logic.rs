//! The to-do list: creating, completing and deleting tasks, starting a work
//! session for a task, and the sheet of tasks that is exported and imported.
use vstd::prelude::*;

use crate::clock::{instant_elapsed_secs, instant_now, new_id};
use crate::i18n::{t, translate, Language};
use crate::ids::{
    find_index, first_where, id_differs, index_of, lemma_first_where, lemma_index_of,
    remove_with_id,
};
use crate::models::{Priority, Project, Task};
use crate::text::{
    all_ws, decimal, decimal_string, is_blank, join_with_space, lowercase, str_eq, to_lowercase,
    to_owned_string, trim, trim_str,
};
use crate::tracker::{
    lemma_synced_frame, opt_view, same_data_but_record, same_forms, same_session, same_settings,
    saved, TimeTrackerState,
};

verus! {

/// The name of the sheet that holds the tasks.
pub const TASKS_SHEET: &'static str = "Pendientes";

/// Seconds that an export or import message stays on screen.
pub const EXPORT_MESSAGE_SECS: u64 = 5;

/// The message that `s` shows `elapsed_secs` seconds after it was set: the
/// message while it is younger than `EXPORT_MESSAGE_SECS`, nothing after that
/// or when it has no time.
pub open spec fn message_shown(s: TimeTrackerState, elapsed_secs: u64) -> Option<String> {
    if s.export_message is Some && s.export_message_time is Some && elapsed_secs
        < EXPORT_MESSAGE_SECS {
        s.export_message
    } else {
        None
    }
}

/// `s` once its message was looked at `elapsed_secs` seconds after it was
/// set: a timed message that is `EXPORT_MESSAGE_SECS` old or more is dropped;
/// nothing else changes.
pub open spec fn message_kept(s: TimeTrackerState, elapsed_secs: u64) -> TimeTrackerState {
    TimeTrackerState {
        export_message: if s.export_message is Some && s.export_message_time is Some
            && elapsed_secs >= EXPORT_MESSAGE_SECS {
            None
        } else {
            s.export_message
        },
        ..s
    }
}

/// Why a sheet of tasks could not be read.
#[derive(Clone, Copy, PartialEq, Eq, Debug, Structural)]
pub enum SheetError {
    /// The file could not be opened as a workbook.
    OpenFailed,
    /// The workbook has no sheet named `TASKS_SHEET`.
    SheetMissing,
}

/// The view of a sheet: its rows of cell texts.
pub open spec fn sheet_view(rows: Seq<Vec<String>>) -> Seq<Seq<Seq<char>>> {
    rows.map_values(|r: Vec<String>| r@.map_values(|c: String| c@))
}

/// Cell `k` of a row, trimmed; the empty text past the row's end.
pub open spec fn cell(row: Seq<Seq<char>>, k: int) -> Seq<char> {
    if 0 <= k < row.len() {
        trim(row[k])
    } else {
        Seq::empty()
    }
}

/// The words that mark a task completed (already lowercased).
pub open spec fn completed_word(w: Seq<char>) -> bool {
    w == "true"@ || w == "si"@ || w == "1"@ || w == "yes"@
}

/// The priority that a lowercased word names; an unknown word means the
/// middle priority.
pub open spec fn priority_word(w: Seq<char>) -> Priority {
    if w == "alta"@ || w == "high"@ {
        Priority::Alta
    } else if w == "baja"@ || w == "low"@ {
        Priority::Baja
    } else {
        Priority::Media
    }
}

/// The word under which a priority is exported.
pub open spec fn priority_label(p: Priority) -> Seq<char> {
    match p {
        Priority::Alta => "Alta"@,
        Priority::Media => "Media"@,
        Priority::Baja => "Baja"@,
    }
}

/// How names are compared on import: trimmed and lowercased.
pub open spec fn name_key(s: Seq<char>) -> Seq<char> {
    lowercase(trim(s))
}

/// The projects whose name compares equal to the lowercased name `lc`.
pub open spec fn named(lc: Seq<char>) -> spec_fn(Project) -> bool {
    |p: Project| name_key(p.name@) == lc
}

/// `t` is the task that the row builds, with the project `proj`.
pub open spec fn task_from_row(t: Task, row: Seq<Seq<char>>, proj: Option<Seq<char>>) -> bool {
    &&& t.id@.len() == 36
    &&& t.name@ == cell(row, 0)
    &&& t.description@ == cell(row, 1)
    &&& opt_view(t.project) == proj
    &&& t.completed == completed_word(lowercase(cell(row, 3)))
    &&& t.priority == priority_word(lowercase(cell(row, 4)))
    &&& t.tags@ == cell(row, 5)
    &&& t.deadline@ == cell(row, 6)
}

/// The project identifier that a row with project name `pname` resolves to,
/// given the projects before (`ps`) and after (`ps2`) its import: none for an
/// empty name, the first project with the same name (compared trimmed and
/// lowercased), or the project created for it.
pub open spec fn row_project(ps: Seq<Project>, ps2: Seq<Project>, pname: Seq<char>) -> Option<
    Seq<char>,
> {
    let pi = first_where(ps, named(lowercase(pname)));
    if pname.len() == 0 {
        None
    } else if pi != -1 {
        Some(ps[pi].id@)
    } else {
        Some(ps2.last().id@)
    }
}

/// Some task has the name `lname` (compared trimmed and lowercased) and the
/// project `proj`.
pub open spec fn has_task_named(ts: Seq<Task>, lname: Seq<char>, proj: Option<Seq<char>>) -> bool {
    exists|j: int|
        0 <= j < ts.len() && name_key((#[trigger] ts[j]).name@) == lname && opt_view(ts[j].project)
            == proj
}

/// Importing one row takes the projects and tasks `(ps, ts)` to `(ps2, ts2)`.
/// A row without a name is skipped. A project name that matches no project
/// creates one. A task that already exists with the same name and project
/// is not added again.
pub open spec fn import_row(
    ps: Seq<Project>,
    ts: Seq<Task>,
    row: Seq<Seq<char>>,
    ps2: Seq<Project>,
    ts2: Seq<Task>,
) -> bool {
    let name = cell(row, 0);
    let pname = cell(row, 2);
    let pi = first_where(ps, named(lowercase(pname)));
    let proj = row_project(ps, ps2, pname);
    if name.len() == 0 {
        ps2 == ps && ts2 == ts
    } else {
        &&& (pname.len() == 0 || pi != -1) ==> ps2 == ps
        &&& (pname.len() > 0 && pi == -1) ==> {
            &&& ps2 == ps.push(ps2.last())
            &&& ps2.last().name@ == pname
            &&& ps2.last().id@.len() == 36
            &&& ps2.last().sessions@.len() == 0
        }
        &&& has_task_named(ts, lowercase(name), proj) ==> ts2 == ts
        &&& !has_task_named(ts, lowercase(name), proj) ==> ts2 == ts.push(ts2.last())
            && task_from_row(ts2.last(), row, proj)
    }
}

/// `trace` lists the projects and tasks before the import and after each row:
/// the first row holds the headers and changes nothing.
pub open spec fn import_trace(
    rows: Seq<Seq<Seq<char>>>,
    trace: Seq<(Seq<Project>, Seq<Task>)>,
) -> bool {
    &&& trace.len() == rows.len() + 1
    &&& forall|i: int|
        0 <= i < rows.len() ==> #[trigger] import_step(rows, trace, i)
}

/// Row `i` of the import.
pub open spec fn import_step(
    rows: Seq<Seq<Seq<char>>>,
    trace: Seq<(Seq<Project>, Seq<Task>)>,
    i: int,
) -> bool {
    if i == 0 {
        trace[1] == trace[0]
    } else {
        import_row(trace[i].0, trace[i].1, rows[i], trace[i + 1].0, trace[i + 1].1)
    }
}

/// The name under which a task's project is exported: the name of the first
/// project with its identifier, or the empty text.
pub open spec fn export_project_name(ps: Seq<Project>, proj: Option<String>) -> Seq<char> {
    match proj {
        Some(pid) => {
            let j = index_of(ps, pid@);
            if j == -1 {
                Seq::empty()
            } else {
                ps[j].name@
            }
        },
        None => Seq::empty(),
    }
}

/// The exported row of a task.
pub open spec fn export_row(ps: Seq<Project>, t: Task) -> Seq<Seq<char>> {
    seq![
        t.name@,
        t.description@,
        export_project_name(ps, t.project),
        if t.completed {
            "true"@
        } else {
            "false"@
        },
        priority_label(t.priority),
        t.tags@,
        t.deadline@,
    ]
}

/// The header row of the exported sheet, in `lang`.
pub open spec fn export_header(lang: Language) -> Seq<Seq<char>> {
    seq![
        translate(lang, "excel_header_name"@),
        translate(lang, "excel_header_description"@),
        translate(lang, "excel_header_project"@),
        translate(lang, "excel_header_completed"@),
        translate(lang, "excel_header_priority"@),
        translate(lang, "excel_header_tags"@),
        translate(lang, "excel_header_deadline"@),
    ]
}

/// The exported sheet: the header row, then one row per task, in order.
pub open spec fn export_rows(lang: Language, ps: Seq<Project>, ts: Seq<Task>) -> Seq<
    Seq<Seq<char>>,
> {
    seq![export_header(lang)] + Seq::new(ts.len(), |i: int| export_row(ps, ts[i]))
}

/// Whether two optional texts are equal.
fn opt_text_eq(a: &Option<String>, b: &Option<String>) -> (r: bool)
    ensures
        r == (opt_view(*a) == opt_view(*b)),
{
    match (a, b) {
        (Some(x), Some(y)) => str_eq(x.as_str(), y.as_str()),
        (None, None) => true,
        _ => false,
    }
}

/// Cell `k` of a row, trimmed.
fn cell_text(row: &Vec<String>, k: usize) -> (r: String)
    ensures
        r@ == cell(row@.map_values(|c: String| c@), k as int),
{
    if k < row.len() {
        to_owned_string(trim_str(row[k].as_str()))
    } else {
        String::new()
    }
}

/// The first project whose name, trimmed and lowercased, is `lc`.
fn find_project_named(ps: &Vec<Project>, lc: &str) -> (r: Option<usize>)
    ensures
        r matches Some(i) ==> i as int == first_where(ps@, named(lc@)) && i < ps@.len(),
        r is None <==> first_where(ps@, named(lc@)) == -1,
{
    let n = ps.len();
    let mut i: usize = 0;
    proof {
        lemma_first_where(ps@, named(lc@));
    }
    while i < n
        invariant
            i <= n,
            n == ps@.len(),
            forall|j: int| 0 <= j < i ==> !named(lc@)(#[trigger] ps@[j]),
        decreases n - i,
    {
        let key = to_lowercase(trim_str(ps[i].name.as_str()));
        if str_eq(key.as_str(), lc) {
            proof {
                lemma_first_where(ps@, named(lc@));
                let f = first_where(ps@, named(lc@));
                assert(f != -1);
                if f != i {
                    assert(f < i || f > i);
                }
            }
            return Some(i);
        }
        i = i + 1;
    }
    None
}

/// Whether some task has the lowercased name `lname` and the project `proj`.
fn has_task_named_exec(ts: &Vec<Task>, lname: &str, proj: &Option<String>) -> (r: bool)
    ensures
        r == has_task_named(ts@, lname@, opt_view(*proj)),
{
    let n = ts.len();
    let mut i: usize = 0;
    while i < n
        invariant
            i <= n,
            n == ts@.len(),
            forall|j: int|
                0 <= j < i ==> !(name_key((#[trigger] ts@[j]).name@) == lname@ && opt_view(
                    ts@[j].project,
                ) == opt_view(*proj)),
        decreases n - i,
    {
        let key = to_lowercase(trim_str(ts[i].name.as_str()));
        if str_eq(key.as_str(), lname) && opt_text_eq(&ts[i].project, proj) {
            return true;
        }
        i = i + 1;
    }
    false
}

/// Whether the lowercased word marks a task completed.
fn is_completed_word(w: &str) -> (r: bool)
    ensures
        r == completed_word(w@),
{
    str_eq(w, "true") || str_eq(w, "si") || str_eq(w, "1") || str_eq(w, "yes")
}

/// The priority a lowercased word names.
fn priority_from_word(w: &str) -> (r: Priority)
    ensures
        r == priority_word(w@),
{
    if str_eq(w, "alta") || str_eq(w, "high") {
        Priority::Alta
    } else if str_eq(w, "media") || str_eq(w, "medium") {
        proof {
            reveal_strlit("media");
            reveal_strlit("medium");
            reveal_strlit("alta");
            reveal_strlit("high");
            reveal_strlit("baja");
            reveal_strlit("low");
            assert(w@ != "baja"@ && w@ != "low"@) by {
                if w@ == "media"@ {
                    assert(w@[0] == 'm');
                    assert("baja"@[0] == 'b');
                    assert("low"@.len() == 3);
                }
                if w@ == "medium"@ {
                    assert(w@.len() == 6);
                    assert("baja"@.len() == 4);
                }
            }
        }
        Priority::Media
    } else if str_eq(w, "baja") || str_eq(w, "low") {
        Priority::Baja
    } else {
        Priority::Media
    }
}

/// The word under which a priority is exported.
pub fn priority_text(p: Priority) -> (r: &'static str)
    ensures
        r@ == priority_label(p),
{
    match p {
        Priority::Alta => "Alta",
        Priority::Media => "Media",
        Priority::Baja => "Baja",
    }
}

impl TimeTrackerState {
    /// Creates a task from the form. A blank name is refused with a message
    /// and changes nothing else; otherwise the task is added (not completed,
    /// with a fresh identifier, and with the chosen project unless none is
    /// chosen), the form's name, description, tags and deadline are cleared
    /// and the state is saved.
    pub fn create_task(&mut self)
        ensures
            all_ws(old(self).new_task_name@) ==> {
                &&& final(self).new_task_error matches Some(e) && e@ == translate(
                    old(self).data.language,
                    "error_empty_name"@,
                )
                &&& final(self).data == old(self).data
                &&& final(self).new_task_name == old(self).new_task_name
                &&& final(self).new_task_description == old(self).new_task_description
                &&& final(self).new_task_project_input == old(self).new_task_project_input
                &&& final(self).new_task_priority == old(self).new_task_priority
                &&& final(self).new_task_tags == old(self).new_task_tags
                &&& final(self).new_task_deadline == old(self).new_task_deadline
                &&& final(self).save_requested == old(self).save_requested
            },
            !all_ws(old(self).new_task_name@) ==> {
                let t = final(self).data.tasks@.last();
                &&& final(self).new_task_error is None
                &&& final(self).data.tasks@ == old(self).data.tasks@.push(t)
                &&& t.id@.len() == 36
                &&& t.name == old(self).new_task_name
                &&& t.description == old(self).new_task_description
                &&& !t.completed
                &&& opt_view(t.project) == (if old(self).new_task_project_input@.len() == 0 {
                    None
                } else {
                    Some(old(self).new_task_project_input@)
                })
                &&& t.priority == old(self).new_task_priority
                &&& t.tags == old(self).new_task_tags
                &&& t.deadline == old(self).new_task_deadline
                &&& final(self).new_task_name@.len() == 0
                &&& final(self).new_task_description@.len() == 0
                &&& final(self).new_task_tags@.len() == 0
                &&& final(self).new_task_deadline@.len() == 0
                &&& final(self).new_task_project_input == old(self).new_task_project_input
                &&& final(self).new_task_priority == old(self).new_task_priority
                &&& final(self).data.projects == old(self).data.projects
                &&& same_settings(final(self).data, old(self).data)
                &&& saved(*final(self))
            },
            same_session(*final(self), *old(self)),
            final(self).new_project_name == old(self).new_project_name,
            final(self).export_message == old(self).export_message,
    {
        self.new_task_error = None;
        if is_blank(self.new_task_name.as_str()) {
            let msg = t(&self.data.language, "error_empty_name");
            self.new_task_error = Some(to_owned_string(msg));
            return;
        }
        let project = if self.new_task_project_input.as_str().is_empty() {
            None
        } else {
            Some(self.new_task_project_input.clone())
        };
        let task = Task {
            id: new_id(),
            name: self.new_task_name.clone(),
            description: self.new_task_description.clone(),
            completed: false,
            project,
            priority: self.new_task_priority,
            tags: self.new_task_tags.clone(),
            deadline: self.new_task_deadline.clone(),
        };
        self.data.tasks.push(task);
        self.new_task_name = String::new();
        self.new_task_description = String::new();
        self.new_task_tags = String::new();
        self.new_task_deadline = String::new();
        self.save();
    }

    /// Shows `message` as the latest result of an export or import, from now.
    pub fn set_export_message(&mut self, message: String)
        ensures
            final(self).export_message == Some(message),
            final(self).export_message_time is Some,
            final(self).data == old(self).data,
            same_session(*final(self), *old(self)),
            final(self).save_requested == old(self).save_requested,
            final(self).new_project_name == old(self).new_project_name,
            final(self).new_task_name == old(self).new_task_name,
    {
        self.export_message = Some(message);
        self.export_message_time = Some(instant_now());
    }

    /// The message to show, `elapsed_secs` seconds after it was set: it is
    /// shown for `EXPORT_MESSAGE_SECS` seconds and then dropped. A message
    /// with no time is kept but not shown.
    pub fn export_message_at(&mut self, elapsed_secs: u64) -> (shown: Option<String>)
        ensures
            ({
                let fresh = old(self).export_message is Some && old(self).export_message_time is Some
                    && elapsed_secs < EXPORT_MESSAGE_SECS;
                let expired = old(self).export_message is Some && old(self).export_message_time is Some
                    && elapsed_secs >= EXPORT_MESSAGE_SECS;
                &&& fresh ==> shown == old(self).export_message
                &&& !fresh ==> shown is None
                &&& *final(self) == (TimeTrackerState {
                    export_message: if expired {
                        None
                    } else {
                        old(self).export_message
                    },
                    ..*old(self)
                })
            }),
            shown == message_shown(*old(self), elapsed_secs),
            *final(self) == message_kept(*old(self), elapsed_secs),
    {
        if self.export_message.is_some() && self.export_message_time.is_some() {
            if elapsed_secs < EXPORT_MESSAGE_SECS {
                return self.export_message.clone();
            }
            self.export_message = None;
        }
        None
    }

    /// The message to show now (see `export_message_at`).
    pub fn export_message_to_show(&mut self) -> (shown: Option<String>)
        ensures
            shown is Some ==> shown == old(self).export_message,
            old(self).export_message_time is None ==> shown is None && *final(self) == *old(self),
            final(self).export_message is None || final(self).export_message
                == old(self).export_message,
            *final(self) == (TimeTrackerState {
                export_message: final(self).export_message,
                ..*old(self)
            }),
            exists|elapsed_secs: u64|
                shown == #[trigger] message_shown(*old(self), elapsed_secs) && *final(self)
                    == message_kept(*old(self), elapsed_secs),
    {
        let elapsed = match &self.export_message_time {
            Some(time) => instant_elapsed_secs(time),
            None => 0,
        };
        self.export_message_at(elapsed)
    }

    /// Imports the rows of a sheet of tasks: the first row holds headers and
    /// is skipped; each other row is imported as `import_row` says. Returns
    /// how many tasks were added.
    pub fn import_task_rows(&mut self, rows: &Vec<Vec<String>>) -> (count: usize)
        ensures
            exists|trace: Seq<(Seq<Project>, Seq<Task>)>|
                import_trace(sheet_view(rows@), trace) && trace[0] == (
                    old(self).data.projects@,
                    old(self).data.tasks@,
                ) && trace.last() == (final(self).data.projects@, final(self).data.tasks@),
            count == final(self).data.tasks@.len() - old(self).data.tasks@.len(),
            same_settings(final(self).data, old(self).data),
            final(self).data.active_session == old(self).data.active_session,
            same_session(*final(self), *old(self)),
            same_forms(*final(self), *old(self)),
            final(self).save_requested == old(self).save_requested,
    {
        let ghost start = (self.data.projects@, self.data.tasks@);
        let ghost mut trace: Seq<(Seq<Project>, Seq<Task>)> = seq![start];
        let ghost rv = sheet_view(rows@);
        let n = rows.len();
        let mut count: usize = 0;
        let mut i: usize = 0;
        while i < n
            invariant
                i <= n,
                n == rows@.len(),
                rv == sheet_view(rows@),
                trace.len() == i + 1,
                trace[0] == start,
                trace.last() == (self.data.projects@, self.data.tasks@),
                forall|j: int| 0 <= j < i ==> #[trigger] import_step(rv, trace, j),
                count == self.data.tasks@.len() - start.1.len(),
                count <= i,
                same_settings(self.data, old(self).data),
                self.data.active_session == old(self).data.active_session,
                same_session(*self, *old(self)),
                same_forms(*self, *old(self)),
                self.save_requested == old(self).save_requested,
            decreases n - i,
        {
            let ghost ps = self.data.projects@;
            let ghost ts = self.data.tasks@;
            let ghost prev = trace;
            if i > 0 {
                let row = &rows[i];
                assert(rv[i as int] == row@.map_values(|c: String| c@));
                let name = cell_text(row, 0);
                if !name.as_str().is_empty() {
                    let description = cell_text(row, 1);
                    let pname = cell_text(row, 2);
                    let project: Option<String> = if pname.as_str().is_empty() {
                        None
                    } else {
                        let lc = to_lowercase(pname.as_str());
                        match find_project_named(&self.data.projects, lc.as_str()) {
                            Some(j) => Some(self.data.projects[j].id.clone()),
                            None => {
                                let id = new_id();
                                self.data.projects.push(
                                    Project { id: id.clone(), name: pname, sessions: Vec::new() },
                                );
                                Some(id)
                            },
                        }
                    };
                    assert(opt_view(project) == row_project(ps, self.data.projects@, cell(rv[i as int], 2)));
                    let lname = to_lowercase(name.as_str());
                    if !has_task_named_exec(&self.data.tasks, lname.as_str(), &project) {
                        let c3 = cell_text(row, 3);
                        let completed = is_completed_word(to_lowercase(c3.as_str()).as_str());
                        let c4 = cell_text(row, 4);
                        let priority = priority_from_word(to_lowercase(c4.as_str()).as_str());
                        let tags = cell_text(row, 5);
                        let deadline = cell_text(row, 6);
                        let task = Task {
                            id: new_id(),
                            name,
                            description,
                            project,
                            completed,
                            priority,
                            tags,
                            deadline,
                        };
                        self.data.tasks.push(task);
                        count = count + 1;
                    }
                }
                proof {
                    trace = trace.push((self.data.projects@, self.data.tasks@));
                    assert(import_row(ps, ts, rv[i as int], self.data.projects@, self.data.tasks@));
                }
            } else {
                proof {
                    trace = trace.push((self.data.projects@, self.data.tasks@));
                }
            }
            proof {
                assert(import_step(rv, trace, i as int));
                assert forall|j: int| 0 <= j < i + 1 implies #[trigger] import_step(rv, trace, j) by {
                    if j < i {
                        assert(import_step(rv, prev, j));
                        assert(trace[j] == prev[j]);
                        assert(trace[j + 1] == prev[j + 1]);
                    }
                }
            }
            i = i + 1;
        }
        assert(import_trace(rv, trace));
        count
    }

    /// Imports a sheet of tasks that was read (or failed to be read), then
    /// shows the outcome: the error, or how many tasks were imported. After a
    /// successful read the state is saved.
    pub fn import_tasks_from_sheet(&mut self, sheet: Result<Vec<Vec<String>>, SheetError>)
        ensures
            match sheet {
                Err(e) => {
                    &&& final(self).data == old(self).data
                    &&& final(self).export_message matches Some(m) && m@ == translate(
                        old(self).data.language,
                        match e {
                            SheetError::OpenFailed => "error_open_file"@,
                            SheetError::SheetMissing => "sheet_not_found"@,
                        },
                    )
                    &&& final(self).save_requested == old(self).save_requested
                },
                Ok(rows) => {
                    &&& exists|trace: Seq<(Seq<Project>, Seq<Task>)>|
                        import_trace(sheet_view(rows@), trace) && trace[0] == (
                            old(self).data.projects@,
                            old(self).data.tasks@,
                        ) && trace.last() == (final(self).data.projects@, final(self).data.tasks@)
                    &&& final(self).export_message matches Some(m) && m@ == decimal(
                        (final(self).data.tasks@.len() - old(self).data.tasks@.len()) as nat,
                    ) + seq![' '] + translate(old(self).data.language, "imported_tasks"@)
                    &&& same_settings(final(self).data, old(self).data)
                    &&& saved(*final(self))
                },
            },
            final(self).export_message_time is Some,
            same_session(*final(self), *old(self)),
    {
        let lang = self.data.language;
        match sheet {
            Err(SheetError::OpenFailed) => {
                let msg = to_owned_string(t(&lang, "error_open_file"));
                self.set_export_message(msg);
            },
            Err(SheetError::SheetMissing) => {
                let msg = to_owned_string(t(&lang, "sheet_not_found"));
                self.set_export_message(msg);
            },
            Ok(rows) => {
                let count = self.import_task_rows(&rows);
                self.save();
                let num = decimal_string(count as u64);
                let msg = join_with_space(num.as_str(), t(&lang, "imported_tasks"));
                let ghost before = *self;
                self.set_export_message(msg);
                proof {
                    lemma_synced_frame(before, *self);
                }
            },
        }
    }

    /// The name under which a task's project is exported.
    fn export_project_name_of(&self, proj: &Option<String>) -> (r: String)
        ensures
            r@ == export_project_name(self.data.projects@, *proj),
    {
        match proj {
            Some(pid) => {
                proof {
                    lemma_index_of(self.data.projects@, pid@);
                }
                match find_index(&self.data.projects, pid.as_str()) {
                    Some(j) => self.data.projects[j].name.clone(),
                    None => String::new(),
                }
            },
            None => String::new(),
        }
    }

    /// The sheet of tasks to export: a header row in the current language,
    /// then for each task its name, description, project name, `true` or
    /// `false`, priority word, tags and deadline.
    pub fn task_export_rows(&self) -> (r: Vec<Vec<String>>)
        ensures
            sheet_view(r@) == export_rows(self.data.language, self.data.projects@, self.data.tasks@),
    {
        let lang = self.data.language;
        let mut header: Vec<String> = Vec::new();
        header.push(to_owned_string(t(&lang, "excel_header_name")));
        header.push(to_owned_string(t(&lang, "excel_header_description")));
        header.push(to_owned_string(t(&lang, "excel_header_project")));
        header.push(to_owned_string(t(&lang, "excel_header_completed")));
        header.push(to_owned_string(t(&lang, "excel_header_priority")));
        header.push(to_owned_string(t(&lang, "excel_header_tags")));
        header.push(to_owned_string(t(&lang, "excel_header_deadline")));
        let mut rows: Vec<Vec<String>> = Vec::new();
        rows.push(header);
        let ghost want = export_rows(lang, self.data.projects@, self.data.tasks@);
        assert(header@.map_values(|c: String| c@) =~= export_header(lang));
        let n = self.data.tasks.len();
        let mut i: usize = 0;
        while i < n
            invariant
                i <= n,
                n == self.data.tasks@.len(),
                want == export_rows(lang, self.data.projects@, self.data.tasks@),
                rows@.len() == i + 1,
                forall|j: int| 0 <= j <= i ==> #[trigger] sheet_view(rows@)[j] == want[j],
            decreases n - i,
        {
            let task = &self.data.tasks[i];
            let mut row: Vec<String> = Vec::new();
            row.push(task.name.clone());
            row.push(task.description.clone());
            row.push(self.export_project_name_of(&task.project));
            row.push(to_owned_string(if task.completed { "true" } else { "false" }));
            row.push(to_owned_string(priority_text(task.priority)));
            row.push(task.tags.clone());
            row.push(task.deadline.clone());
            assert(row@.map_values(|c: String| c@) =~= export_row(self.data.projects@, *task));
            let ghost before = rows@;
            rows.push(row);
            proof {
                assert forall|j: int| 0 <= j <= i + 1 implies #[trigger] sheet_view(rows@)[j]
                    == want[j] by {
                    if j <= i {
                        assert(rows@[j] == before[j]);
                        assert(sheet_view(before)[j] == want[j]);
                    }
                }
            }
            i = i + 1;
        }
        assert(sheet_view(rows@) =~= want);
        rows
    }

    /// Shows the outcome of writing an export to `path`: "Exported to" and the
    /// path, or the export error.
    pub fn report_export(&mut self, written: bool, path: &str)
        ensures
            final(self).export_message matches Some(m) && m@ == (if written {
                translate(old(self).data.language, "exported_to"@) + seq![' '] + path@
            } else {
                translate(old(self).data.language, "error_export"@)
            }),
            final(self).export_message_time is Some,
            final(self).data == old(self).data,
            same_session(*final(self), *old(self)),
            final(self).save_requested == old(self).save_requested,
    {
        let lang = self.data.language;
        if written {
            let msg = join_with_space(t(&lang, "exported_to"), path);
            self.set_export_message(msg);
        } else {
            let msg = to_owned_string(t(&lang, "error_export"));
            self.set_export_message(msg);
        }
    }

    /// Deletes every task with the identifier `task_id`, and saves.
    pub fn delete_task(&mut self, task_id: &str)
        ensures
            final(self).data.tasks@ == old(self).data.tasks@.filter(id_differs::<Task>(task_id@)),
            final(self).data.projects == old(self).data.projects,
            same_settings(final(self).data, old(self).data),
            same_session(*final(self), *old(self)),
            same_forms(*final(self), *old(self)),
            saved(*final(self)),
    {
        remove_with_id(&mut self.data.tasks, task_id);
        self.save();
    }

    /// Sets the completed flag of the first task with the identifier
    /// `task_id`; does not save.
    pub fn set_task_completed(&mut self, task_id: &str, completed: bool)
        ensures
            ({
                let k = index_of(old(self).data.tasks@, task_id@);
                &&& k == -1 ==> final(self).data.tasks == old(self).data.tasks
                &&& k != -1 ==> {
                    let t = old(self).data.tasks@[k];
                    let t2 = final(self).data.tasks@[k];
                    &&& final(self).data.tasks@ == old(self).data.tasks@.update(k, t2)
                    &&& t2.completed == completed
                    &&& t2.id == t.id
                    &&& t2.name == t.name
                    &&& t2.description == t.description
                    &&& t2.project == t.project
                    &&& t2.priority == t.priority
                    &&& t2.tags == t.tags
                    &&& t2.deadline == t.deadline
                }
            }),
            final(self).data.projects == old(self).data.projects,
            final(self).data.active_session == old(self).data.active_session,
            same_settings(final(self).data, old(self).data),
            same_session(*final(self), *old(self)),
            same_forms(*final(self), *old(self)),
            final(self).save_requested == old(self).save_requested,
    {
        proof {
            lemma_index_of(self.data.tasks@, task_id@);
        }
        match find_index(&self.data.tasks, task_id) {
            Some(k) => {
                let ghost before = self.data.tasks@;
                let mut task = self.data.tasks.remove(k);
                task.completed = completed;
                let ghost t2 = task;
                self.data.tasks.insert(k, task);
                assert(self.data.tasks@ =~= before.update(k as int, t2));
            },
            None => {},
        }
    }

    /// Starts tracking a session for a task: its project becomes the active
    /// one and the session is named "Task: <name>". Returns false, changing
    /// nothing, while a session is being tracked.
    pub fn start_task_session(&mut self, project_id: String, task_name: String) -> (started: bool)
        ensures
            started == !old(self).is_tracking,
            !started ==> *final(self) == *old(self),
            started ==> {
                &&& final(self).active_project_id == Some(project_id)
                &&& final(self).active_session_name@ == translate(
                    old(self).data.language,
                    "task_session_prefix"@,
                ) + seq![' '] + task_name@
                &&& final(self).active_parent_session_id is None
                &&& final(self).current_session_start is Some
                &&& final(self).is_tracking
                &&& final(self).current_session_elapsed == old(self).current_session_elapsed
                &&& same_data_but_record(final(self).data, old(self).data)
                &&& same_forms(*final(self), *old(self))
                &&& saved(*final(self))
            },
    {
        if self.is_tracking {
            return false;
        }
        let lang = self.data.language;
        self.active_project_id = Some(project_id);
        self.active_session_name = join_with_space(t(&lang, "task_session_prefix"), task_name.as_str());
        self.active_parent_session_id = None;
        self.current_session_start = Some(instant_now());
        self.is_tracking = true;
        self.save();
        true
    }

    /// Applies what was done in the task list in one pass: the completed flags
    /// that were changed (in order), a task to delete, and a task to work on.
    /// A deletion saves; otherwise changed flags save. The task to work on
    /// gets a session (as `start_task_session`) when it has a project, is not
    /// completed and nothing is being tracked; the result says whether it
    /// did, in which case the tracker screen is shown next.
    pub fn apply_task_list(
        &mut self,
        completions: &Vec<(String, bool)>,
        delete: Option<String>,
        work_on: Option<String>,
    ) -> (started: bool)
        ensures
            ({
                let ts1 = with_completions(old(self).data.tasks@, completions@);
                let k = work_target(ts1, work_on);
                let changed = delete is Some || completions@.len() > 0;
                &&& started == can_work_on(ts1, k, old(self).is_tracking)
                &&& final(self).data.tasks@ == (match delete {
                    Some(d) => ts1.filter(id_differs::<Task>(d@)),
                    None => ts1,
                })
                &&& started ==> {
                    &&& final(self).active_project_id == ts1[k].project
                    &&& final(self).active_session_name@ == translate(
                        old(self).data.language,
                        "task_session_prefix"@,
                    ) + seq![' '] + ts1[k].name@
                    &&& final(self).active_parent_session_id is None
                    &&& final(self).current_session_start is Some
                    &&& final(self).is_tracking
                    &&& final(self).current_session_elapsed == old(self).current_session_elapsed
                }
                &&& !started ==> same_session(*final(self), *old(self))
                &&& (changed || started) ==> saved(*final(self))
                &&& !(changed || started) ==> {
                    &&& final(self).save_requested == old(self).save_requested
                    &&& final(self).data.active_session == old(self).data.active_session
                }
            }),
            final(self).data.projects == old(self).data.projects,
            same_settings(final(self).data, old(self).data),
            same_forms(*final(self), *old(self)),
    {
        let ghost ts0 = self.data.tasks@;
        let n = completions.len();
        let mut i: usize = 0;
        while i < n
            invariant
                i <= n,
                n == completions@.len(),
                self.data.tasks@ == with_completions(ts0, completions@.take(i as int)),
                self.data.projects == old(self).data.projects,
                self.data.active_session == old(self).data.active_session,
                self.save_requested == old(self).save_requested,
                same_settings(self.data, old(self).data),
                same_session(*self, *old(self)),
                same_forms(*self, *old(self)),
            decreases n - i,
        {
            let ghost before = self.data.tasks@;
            self.set_task_completed(completions[i].0.as_str(), completions[i].1);
            proof {
                assert(completions@.take(i + 1).drop_last() =~= completions@.take(i as int));
                assert(completions@.take(i + 1).last() == completions@[i as int]);
                let k = index_of(before, completions@[i as int].0@);
                if k != -1 {
                    assert(self.data.tasks@ =~= with_completed(
                        before,
                        completions@[i as int].0@,
                        completions@[i as int].1,
                    ));
                }
            }
            i = i + 1;
        }
        proof {
            assert(completions@.take(n as int) =~= completions@);
        }
        let ghost ts1 = self.data.tasks@;
        let mut target: Option<(String, String)> = None;
        match &work_on {
            Some(id) => {
                proof {
                    lemma_index_of(ts1, id@);
                }
                match find_index(&self.data.tasks, id.as_str()) {
                    Some(k) => {
                        let task = &self.data.tasks[k];
                        if !task.completed {
                            match &task.project {
                                Some(p) => {
                                    target = Some((p.clone(), task.name.clone()));
                                },
                                None => {},
                            }
                        }
                    },
                    None => {},
                }
            },
            None => {},
        }
        match &delete {
            Some(d) => {
                self.delete_task(d.as_str());
            },
            None => {
                if n > 0 {
                    self.save();
                }
            },
        }
        let mut started = false;
        match target {
            Some((p, name)) => {
                started = self.start_task_session(p, name);
            },
            None => {},
        }
        started
    }

    /// The identifiers of the tasks the list shows, in order: all of them, or
    /// only the pending ones when completed tasks are hidden.
    pub fn visible_task_ids(&self) -> (r: Vec<String>)
        ensures
            r@.len() == visible_tasks(*self).len(),
            forall|j: int| 0 <= j < r@.len() ==> (#[trigger] r@[j])@ == visible_tasks(*self)[j].id@,
    {
        let ghost keep = shown_when(self.hide_completed_tasks);
        let ghost ts = self.data.tasks@;
        let n = self.data.tasks.len();
        let mut r: Vec<String> = Vec::new();
        let mut i: usize = 0;
        proof {
            reveal(Seq::filter);
            assert(ts.take(0) =~= Seq::<Task>::empty());
        }
        while i < n
            invariant
                i <= n,
                n == ts.len(),
                ts == self.data.tasks@,
                keep == shown_when(self.hide_completed_tasks),
                r@.len() == ts.take(i as int).filter(keep).len(),
                forall|j: int|
                    0 <= j < r@.len() ==> (#[trigger] r@[j])@ == ts.take(i as int).filter(keep)[j].id@,
            decreases n - i,
        {
            let task = &self.data.tasks[i];
            proof {
                assert(ts.take(i + 1).drop_last() =~= ts.take(i as int));
                assert(ts.take(i + 1).last() == ts[i as int]);
                reveal_with_fuel(Seq::filter, 1);
            }
            if !self.hide_completed_tasks || !task.completed {
                r.push(task.id.clone());
            }
            i = i + 1;
        }
        proof {
            assert(ts.take(n as int) =~= ts);
        }
        r
    }
}

/// `ts` with the completed flag of the first task with the identifier `id`
/// set to `c` (unchanged when no task has it).
pub open spec fn with_completed(ts: Seq<Task>, id: Seq<char>, c: bool) -> Seq<Task> {
    let k = index_of(ts, id);
    if k == -1 {
        ts
    } else {
        ts.update(k, Task { completed: c, ..ts[k] })
    }
}

/// `ts` after the completed flags `cs` were set, in order.
pub open spec fn with_completions(ts: Seq<Task>, cs: Seq<(String, bool)>) -> Seq<Task>
    decreases cs.len(),
{
    if cs.len() == 0 {
        ts
    } else {
        with_completed(with_completions(ts, cs.drop_last()), cs.last().0@, cs.last().1)
    }
}

/// The index, in `ts`, of the task asked to be worked on, or -1.
pub open spec fn work_target(ts: Seq<Task>, work_on: Option<String>) -> int {
    match work_on {
        Some(id) => index_of(ts, id@),
        None => -1,
    }
}

/// A session can be started for the task at `k`: it exists, belongs to a
/// project, is not completed, and nothing is being tracked.
pub open spec fn can_work_on(ts: Seq<Task>, k: int, tracking: bool) -> bool {
    &&& k != -1
    &&& ts[k].project is Some
    &&& !ts[k].completed
    &&& !tracking
}

/// Which tasks the list shows: all, or only pending ones when completed
/// tasks are hidden.
pub open spec fn shown_when(hide_completed: bool) -> spec_fn(Task) -> bool {
    |t: Task| !hide_completed || !t.completed
}

/// The tasks the list shows, in order.
pub open spec fn visible_tasks(s: TimeTrackerState) -> Seq<Task> {
    s.data.tasks@.filter(shown_when(s.hide_completed_tasks))
}

} // verus!
