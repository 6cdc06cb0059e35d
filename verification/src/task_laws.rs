//! What exporting the tasks and importing the sheet again gives back, and
//! what importing a sheet a second time does.
use vstd::prelude::*;

use crate::i18n::Language;
use crate::ids::{first_where, lemma_first_where};
use crate::models::{Priority, Project, Task};
use crate::task_logic::{
    cell, completed_word, export_project_name, export_row, export_rows, has_task_named,
    import_row, import_step, import_trace, name_key, named, priority_label, priority_word,
    row_project, task_from_row,
};
use crate::text::{
    ascii_lowercase, is_ascii_text, is_ws, lemma_trim_end_at, lemma_trim_idempotent,
    lemma_trim_start_at, lowercase, trim,
};
use crate::tracker::opt_view;

verus! {

/// The trimmed name under which task `k`'s project is exported.
pub open spec fn exported_project(ps: Seq<Project>, ts: Seq<Task>, k: int) -> Seq<char> {
    trim(export_project_name(ps, ts[k].project))
}

/// `t2` holds what the sheet carried of `t`: its texts trimmed, its flag and
/// its priority.
pub open spec fn task_carried(t2: Task, t: Task) -> bool {
    &&& t2.name@ == trim(t.name@)
    &&& t2.description@ == trim(t.description@)
    &&& t2.completed == t.completed
    &&& t2.priority == t.priority
    &&& t2.tags@ == trim(t.tags@)
    &&& t2.deadline@ == trim(t.deadline@)
}

/// The project of the imported task `t2` matches the exported project name
/// `pn`: none for an empty name, otherwise a project of `ps2` whose name
/// compares equal.
pub open spec fn project_carried(ps2: Seq<Project>, t2: Task, pn: Seq<char>) -> bool {
    &&& pn.len() == 0 ==> t2.project is None
    &&& pn.len() > 0 ==> t2.project is Some && exists|j: int|
        0 <= j < ps2.len() && (#[trigger] ps2[j]).id@ == t2.project->0@ && name_key(ps2[j].name@)
            == lowercase(pn)
}

/// `a` is a prefix of `b`.
pub open spec fn is_prefix<T>(a: Seq<T>, b: Seq<T>) -> bool {
    a.len() <= b.len() && forall|j: int| 0 <= j < a.len() ==> #[trigger] b[j] == a[j]
}

/// A text without whitespace at its ends is its own trim.
proof fn lemma_trim_plain(s: Seq<char>)
    requires
        s.len() > 0,
        !is_ws(s[0]),
        !is_ws(s.last()),
    ensures
        trim(s) == s,
{
    lemma_trim_start_at(s, 0);
    assert(s.subrange(0, s.len() as int) =~= s);
    lemma_trim_end_at(s, s.len() as int);
}

/// ASCII text whose letters are already lowercase is its own lowercase.
proof fn lemma_lowercase_plain(s: Seq<char>)
    requires
        is_ascii_text(s),
        forall|j: int| 0 <= j < s.len() ==> !('A' <= #[trigger] s[j] && s[j] <= 'Z'),
    ensures
        lowercase(s) == s,
{
    assert(ascii_lowercase(s) =~= s);
}

/// The words written for the completed flag and the priority read back as
/// the same flag and priority.
proof fn lemma_export_words(c: bool, p: Priority)
    ensures
        completed_word(lowercase(trim(if c { "true"@ } else { "false"@ }))) == c,
        priority_word(lowercase(trim(priority_label(p)))) == p,
{
    reveal_strlit("true");
    reveal_strlit("false");
    reveal_strlit("si");
    reveal_strlit("1");
    reveal_strlit("yes");
    reveal_strlit("Alta");
    reveal_strlit("Media");
    reveal_strlit("Baja");
    reveal_strlit("alta");
    reveal_strlit("high");
    reveal_strlit("baja");
    reveal_strlit("low");
    lemma_trim_plain("true"@);
    lemma_trim_plain("false"@);
    lemma_lowercase_plain("true"@);
    lemma_lowercase_plain("false"@);
    assert("false"@ != "true"@ && "false"@ != "si"@ && "false"@ != "1"@ && "false"@ != "yes"@)
        by {
        assert("false"@.len() == 5);
    }
    lemma_trim_plain("Alta"@);
    lemma_trim_plain("Media"@);
    lemma_trim_plain("Baja"@);
    assert(lowercase("Alta"@) =~= "alta"@) by {
        assert(ascii_lowercase("Alta"@)[0] == 'a');
    }
    assert(lowercase("Baja"@) =~= "baja"@) by {
        assert(ascii_lowercase("Baja"@)[0] == 'b');
    }
    let m = lowercase("Media"@);
    assert(m[0] == 'm' && m.len() == 5);
    assert(m != "alta"@ && m != "high"@ && m != "baja"@ && m != "low"@) by {
        assert("alta"@[0] == 'a');
        assert("high"@[0] == 'h');
        assert("baja"@[0] == 'b');
        assert("low"@[0] == 'l');
    }
    assert("baja"@ != "alta"@ && "baja"@ != "high"@) by {
        assert("alta"@[0] == 'a');
        assert("high"@[0] == 'h');
    }
}

/// The empty text is its own lowercase.
proof fn lemma_lowercase_empty()
    ensures
        lowercase(Seq::<char>::empty()) == Seq::<char>::empty(),
{
    assert(ascii_lowercase(Seq::<char>::empty()) =~= Seq::<char>::empty());
}

/// Along an import, the projects and the tasks only grow at their end.
proof fn lemma_trace_prefix(rows: Seq<Seq<Seq<char>>>, trace: Seq<(Seq<Project>, Seq<Task>)>, a: int, b: int)
    requires
        import_trace(rows, trace),
        0 <= a <= b < trace.len(),
    ensures
        is_prefix(trace[a].0, trace[b].0),
        is_prefix(trace[a].1, trace[b].1),
    decreases b - a,
{
    if a < b {
        lemma_trace_prefix(rows, trace, a, b - 1);
        assert(import_step(rows, trace, b - 1));
    }
}

/// The row that the export writes for task `m` imports it back, as long as
/// no earlier task shares its name and its project name.
proof fn lemma_roundtrip_step(
    lang: Language,
    ps: Seq<Project>,
    ts: Seq<Task>,
    trace: Seq<(Seq<Project>, Seq<Task>)>,
    m: int,
)
    requires
        import_trace(export_rows(lang, ps, ts), trace),
        0 <= m < ts.len(),
        trim(ts[m].name@).len() > 0,
        forall|a: int|
            0 <= a < m ==> !(name_key((#[trigger] ts[a]).name@) == name_key(ts[m].name@)
                && lowercase(exported_project(ps, ts, a)) == lowercase(
                exported_project(ps, ts, m),
            )),
        forall|a: int, b: int|
            0 <= a < b < trace.last().0.len() ==> (#[trigger] trace.last().0[a]).id@
                != (#[trigger] trace.last().0[b]).id@,
        trace[m + 1].1.len() == m,
        forall|k: int| 0 <= k < m ==> task_carried(#[trigger] trace[m + 1].1[k], ts[k]),
        forall|k: int|
            0 <= k < m ==> project_carried(
                trace[m + 1].0,
                #[trigger] trace[m + 1].1[k],
                exported_project(ps, ts, k),
            ),
    ensures
        trace[m + 2].1.len() == m + 1,
        forall|k: int| 0 <= k < m + 1 ==> task_carried(#[trigger] trace[m + 2].1[k], ts[k]),
        forall|k: int|
            0 <= k < m + 1 ==> project_carried(
                trace[m + 2].0,
                #[trigger] trace[m + 2].1[k],
                exported_project(ps, ts, k),
            ),
{
    let rows = export_rows(lang, ps, ts);
    let ps_m = trace[m + 1].0;
    let ts_m = trace[m + 1].1;
    let ps_n = trace[m + 2].0;
    let ts_n = trace[m + 2].1;
    let fin = trace.last().0;
    let row = rows[m + 1];
    assert(row == export_row(ps, ts[m]));
    assert(import_step(rows, trace, m + 1));
    assert(import_row(ps_m, ts_m, row, ps_n, ts_n));
    let name = cell(row, 0);
    let pname = cell(row, 2);
    assert(name == trim(ts[m].name@));
    assert(pname == exported_project(ps, ts, m));
    let proj = row_project(ps_m, ps_n, pname);
    let pi = first_where(ps_m, named(lowercase(pname)));
    lemma_first_where(ps_m, named(lowercase(pname)));
    lemma_trace_prefix(rows, trace, m + 1, m + 2);
    lemma_trace_prefix(rows, trace, m + 2, trace.len() - 1);
    lemma_trim_idempotent(ts[m].name@);
    lemma_trim_idempotent(export_project_name(ps, ts[m].project));
    lemma_lowercase_empty();
    // The project the row resolves to, when it has one, lies in `ps_n` and
    // its name compares equal to the row's project name.
    let pj: int = if pname.len() == 0 {
        -1
    } else if pi != -1 {
        pi
    } else {
        ps_n.len() - 1
    };
    assert(pname.len() > 0 ==> 0 <= pj < ps_n.len() && proj == Some(ps_n[pj].id@) && name_key(
        ps_n[pj].name@,
    ) == lowercase(pname)) by {
        if pname.len() > 0 && pi == -1 {
            assert(ps_n == ps_m.push(ps_n.last()));
            assert(ps_n[pj].name@ == pname);
        }
    }
    // No earlier task has the row's name and project.
    assert(!has_task_named(ts_m, lowercase(name), proj)) by {
        if has_task_named(ts_m, lowercase(name), proj) {
            let j = choose|j: int|
                0 <= j < ts_m.len() && name_key((#[trigger] ts_m[j]).name@) == lowercase(name)
                    && opt_view(ts_m[j].project) == proj;
            assert(task_carried(ts_m[j], ts[j]));
            assert(project_carried(ps_m, ts_m[j], exported_project(ps, ts, j)));
            lemma_trim_idempotent(ts[j].name@);
            assert(name_key(ts_m[j].name@) == name_key(ts[j].name@));
            assert(name_key(ts[j].name@) == name_key(ts[m].name@));
            let pnj = exported_project(ps, ts, j);
            if pname.len() == 0 {
                assert(pnj.len() == 0);
                assert(lowercase(pnj) == lowercase(pname));
            } else {
                assert(pnj.len() > 0);
                let jj = choose|jj: int|
                    0 <= jj < ps_m.len() && (#[trigger] ps_m[jj]).id@ == ts_m[j].project->0@
                        && name_key(ps_m[jj].name@) == lowercase(pnj);
                assert(fin[jj] == ps_m[jj]);
                assert(fin[pj] == ps_n[pj]);
                if jj != pj {
                    if jj < pj {
                        assert(fin[jj].id@ != fin[pj].id@);
                    } else {
                        assert(fin[pj].id@ != fin[jj].id@);
                    }
                }
                assert(ps_n[jj] == ps_m[jj]);
                assert(lowercase(pnj) == lowercase(pname));
            }
            assert(false);
        }
    }
    assert(ts_n == ts_m.push(ts_n.last()));
    let t2 = ts_n.last();
    assert(task_from_row(t2, row, proj));
    lemma_export_words(ts[m].completed, ts[m].priority);
    assert(task_carried(t2, ts[m]));
    assert(project_carried(ps_n, t2, pname));
    assert forall|k: int| 0 <= k < m + 1 implies task_carried(#[trigger] ts_n[k], ts[k]) by {
        if k < m {
            assert(ts_n[k] == ts_m[k]);
        }
    }
    assert forall|k: int|
        0 <= k < m + 1 implies project_carried(
            ps_n,
            #[trigger] ts_n[k],
            exported_project(ps, ts, k),
        ) by {
        if k < m {
            assert(ts_n[k] == ts_m[k]);
            assert(project_carried(ps_m, ts_m[k], exported_project(ps, ts, k)));
            if exported_project(ps, ts, k).len() > 0 {
                let jj = choose|jj: int|
                    0 <= jj < ps_m.len() && (#[trigger] ps_m[jj]).id@ == ts_m[k].project->0@
                        && name_key(ps_m[jj].name@) == lowercase(exported_project(ps, ts, k));
                assert(ps_n[jj] == ps_m[jj]);
            }
        }
    }
}

/// Exporting the tasks and importing the sheet into a tracker without
/// projects or tasks gives back every task, in order, with its texts trimmed
/// and its completed flag and priority unchanged; a task whose project had a
/// name refers to a recreated project of the same name (compared trimmed and
/// lowercased), the others to none. This holds when every task has a name,
/// no two tasks share their name and their project name (compared the same
/// way, as the import would take the second for the first), and the
/// projects the import creates receive distinct identifiers.
pub proof fn lemma_export_import_roundtrip(
    lang: Language,
    ps: Seq<Project>,
    ts: Seq<Task>,
    trace: Seq<(Seq<Project>, Seq<Task>)>,
)
    requires
        import_trace(export_rows(lang, ps, ts), trace),
        trace[0] == (Seq::<Project>::empty(), Seq::<Task>::empty()),
        forall|k: int| 0 <= k < ts.len() ==> trim((#[trigger] ts[k]).name@).len() > 0,
        forall|a: int, b: int|
            0 <= a < b < ts.len() ==> !(name_key((#[trigger] ts[a]).name@) == name_key(
                (#[trigger] ts[b]).name@,
            ) && lowercase(exported_project(ps, ts, a)) == lowercase(exported_project(ps, ts, b))),
        forall|a: int, b: int|
            0 <= a < b < trace.last().0.len() ==> (#[trigger] trace.last().0[a]).id@
                != (#[trigger] trace.last().0[b]).id@,
    ensures
        trace.last().1.len() == ts.len(),
        forall|k: int| 0 <= k < ts.len() ==> task_carried(#[trigger] trace.last().1[k], ts[k]),
        forall|k: int|
            0 <= k < ts.len() ==> project_carried(
                trace.last().0,
                #[trigger] trace.last().1[k],
                exported_project(ps, ts, k),
            ),
{
    lemma_roundtrip_upto(lang, ps, ts, trace, ts.len() as int);
}

/// The first `m` tasks are imported back.
proof fn lemma_roundtrip_upto(
    lang: Language,
    ps: Seq<Project>,
    ts: Seq<Task>,
    trace: Seq<(Seq<Project>, Seq<Task>)>,
    m: int,
)
    requires
        0 <= m <= ts.len(),
        import_trace(export_rows(lang, ps, ts), trace),
        trace[0] == (Seq::<Project>::empty(), Seq::<Task>::empty()),
        forall|k: int| 0 <= k < ts.len() ==> trim((#[trigger] ts[k]).name@).len() > 0,
        forall|a: int, b: int|
            0 <= a < b < ts.len() ==> !(name_key((#[trigger] ts[a]).name@) == name_key(
                (#[trigger] ts[b]).name@,
            ) && lowercase(exported_project(ps, ts, a)) == lowercase(exported_project(ps, ts, b))),
        forall|a: int, b: int|
            0 <= a < b < trace.last().0.len() ==> (#[trigger] trace.last().0[a]).id@
                != (#[trigger] trace.last().0[b]).id@,
    ensures
        trace[m + 1].1.len() == m,
        forall|k: int| 0 <= k < m ==> task_carried(#[trigger] trace[m + 1].1[k], ts[k]),
        forall|k: int|
            0 <= k < m ==> project_carried(
                trace[m + 1].0,
                #[trigger] trace[m + 1].1[k],
                exported_project(ps, ts, k),
            ),
    decreases m,
{
    let rows = export_rows(lang, ps, ts);
    assert(rows.len() == ts.len() + 1);
    assert(trace.len() == ts.len() + 2);
    if m == 0 {
        assert(import_step(rows, trace, 0));
    } else {
        lemma_roundtrip_upto(lang, ps, ts, trace, m - 1);
        assert forall|a: int|
            0 <= a < m - 1 implies !(name_key((#[trigger] ts[a]).name@) == name_key(
                ts[m - 1].name@,
            ) && lowercase(exported_project(ps, ts, a)) == lowercase(
                exported_project(ps, ts, m - 1),
            )) by {
            assert(0 <= a < m - 1 < ts.len());
        }
        lemma_roundtrip_step(lang, ps, ts, trace, m - 1);
    }
}

/// In a sequence that extends `a`, the first element satisfying `f` is the
/// one of `a` when `a` has one.
proof fn lemma_first_where_prefix<T>(a: Seq<T>, b: Seq<T>, f: spec_fn(T) -> bool)
    requires
        is_prefix(a, b),
        first_where(a, f) != -1,
    ensures
        first_where(b, f) == first_where(a, f),
{
    lemma_first_where(a, f);
    lemma_first_where(b, f);
    let k = first_where(a, f);
    assert(b[k] == a[k]);
    let kb = first_where(b, f);
    if kb < k {
        assert(b[kb] == a[kb]);
    }
}

/// After row `i` of an import, the tracker holds a project for the row's
/// project name (when it has one) that comes first among those with that
/// name, and a task for the row with that project (when it has a name).
proof fn lemma_row_settled(
    rows: Seq<Seq<Seq<char>>>,
    trace: Seq<(Seq<Project>, Seq<Task>)>,
    i: int,
)
    requires
        import_trace(rows, trace),
        1 <= i < rows.len(),
        cell(rows[i], 0).len() > 0,
    ensures
        ({
            let pname = cell(rows[i], 2);
            let ps = trace[i + 1].0;
            let k = first_where(ps, named(lowercase(pname)));
            let proj = if pname.len() == 0 {
                None
            } else {
                Some(ps[k].id@)
            };
            &&& pname.len() > 0 ==> k != -1
            &&& has_task_named(trace[i + 1].1, lowercase(cell(rows[i], 0)), proj)
        }),
{
    let row = rows[i];
    let name = cell(row, 0);
    let pname = cell(row, 2);
    let f = named(lowercase(pname));
    let ps_i = trace[i].0;
    let ps_n = trace[i + 1].0;
    let ts_i = trace[i].1;
    let ts_n = trace[i + 1].1;
    assert(import_step(rows, trace, i));
    assert(import_row(ps_i, ts_i, row, ps_n, ts_n));
    lemma_trace_prefix(rows, trace, i, i + 1);
    lemma_first_where(ps_i, f);
    lemma_first_where(ps_n, f);
    let proj = row_project(ps_i, ps_n, pname);
    let k = first_where(ps_n, f);
    if pname.len() > 0 {
        if first_where(ps_i, f) != -1 {
            lemma_first_where_prefix(ps_i, ps_n, f);
            assert(ps_n[k] == ps_i[k]);
        } else {
            assert(ps_n == ps_i.push(ps_n.last()));
            assert(row.len() > 2);
            lemma_trim_idempotent(row[2]);
            assert(f(ps_n[ps_i.len() as int]));
            assert(forall|j: int| 0 <= j < ps_i.len() ==> ps_n[j] == ps_i[j]);
            assert(k == ps_i.len());
        }
        assert(proj == Some(ps_n[k].id@));
    }
    if !has_task_named(ts_i, lowercase(name), proj) {
        assert(ts_n == ts_i.push(ts_n.last()));
        let t = ts_n.last();
        assert(task_from_row(t, row, proj));
        lemma_trim_idempotent(row[0]);
        assert(name_key(t.name@) == lowercase(name));
        assert(ts_n[ts_n.len() - 1] == t);
    } else {
        let j = choose|j: int|
            0 <= j < ts_i.len() && name_key((#[trigger] ts_i[j]).name@) == lowercase(name)
                && opt_view(ts_i[j].project) == proj;
        assert(ts_n[j] == ts_i[j]);
    }
}

/// Importing a sheet a second time, right after it was imported, changes
/// nothing: each row finds the project and the task that the first import
/// found or created for it.
pub proof fn lemma_import_twice_adds_nothing(
    rows: Seq<Seq<Seq<char>>>,
    first: Seq<(Seq<Project>, Seq<Task>)>,
    second: Seq<(Seq<Project>, Seq<Task>)>,
)
    requires
        import_trace(rows, first),
        import_trace(rows, second),
        second[0] == first.last(),
    ensures
        second.last() == first.last(),
{
    lemma_import_again_upto(rows, first, second, rows.len() as int);
}

/// The first `m` rows of the second import change nothing.
proof fn lemma_import_again_upto(
    rows: Seq<Seq<Seq<char>>>,
    first: Seq<(Seq<Project>, Seq<Task>)>,
    second: Seq<(Seq<Project>, Seq<Task>)>,
    m: int,
)
    requires
        import_trace(rows, first),
        import_trace(rows, second),
        second[0] == first.last(),
        0 <= m <= rows.len(),
    ensures
        second[m] == first.last(),
    decreases m,
{
    if m > 0 {
        lemma_import_again_upto(rows, first, second, m - 1);
        let i = m - 1;
        assert(import_step(rows, second, i));
        if i > 0 {
            let row = rows[i];
            let name = cell(row, 0);
            let pname = cell(row, 2);
            let f = named(lowercase(pname));
            let fin = first.last();
            let ps2 = second[i + 1].0;
            let ts2 = second[i + 1].1;
            assert(import_row(fin.0, fin.1, row, ps2, ts2));
            if name.len() > 0 {
                lemma_row_settled(rows, first, i);
                lemma_trace_prefix(rows, first, i + 1, first.len() - 1);
                let ps_n = first[i + 1].0;
                let k = first_where(ps_n, f);
                let proj = if pname.len() == 0 {
                    None
                } else {
                    Some(ps_n[k].id@)
                };
                if pname.len() > 0 {
                    lemma_first_where_prefix(ps_n, fin.0, f);
                    lemma_first_where(ps_n, f);
                    assert(fin.0[k] == ps_n[k]);
                }
                assert(row_project(fin.0, ps2, pname) == proj);
                let ts_n = first[i + 1].1;
                let j = choose|j: int|
                    0 <= j < ts_n.len() && name_key((#[trigger] ts_n[j]).name@) == lowercase(name)
                        && opt_view(ts_n[j].project) == proj;
                assert(fin.1[j] == ts_n[j]);
                assert(has_task_named(fin.1, lowercase(name), proj));
            }
            assert(second[i + 1] == fin);
        }
    }
}

/// Task `j` of `ts` has a non-blank name that is its own trim, and no task
/// before it has the same name (compared trimmed and lowercased) and the same
/// project.
pub open spec fn fresh_task(ts: Seq<Task>, j: int) -> bool {
    &&& ts[j].name@.len() > 0
    &&& trim(ts[j].name@) == ts[j].name@
    &&& forall|k: int|
        0 <= k < j ==> !(name_key((#[trigger] ts[k]).name@) == name_key(ts[j].name@) && opt_view(
            ts[k].project,
        ) == opt_view(ts[j].project))
}

/// An import only adds: the projects and the tasks it started with stay, in
/// order, at the front; and every task it adds has a non-blank trimmed name
/// and repeats no earlier task's name and project.
pub proof fn lemma_import_only_adds(
    rows: Seq<Seq<Seq<char>>>,
    trace: Seq<(Seq<Project>, Seq<Task>)>,
)
    requires
        import_trace(rows, trace),
    ensures
        is_prefix(trace[0].0, trace.last().0),
        is_prefix(trace[0].1, trace.last().1),
        forall|j: int|
            trace[0].1.len() <= j < trace.last().1.len() ==> #[trigger] fresh_task(
                trace.last().1,
                j,
            ),
{
    lemma_trace_prefix(rows, trace, 0, trace.len() - 1);
    lemma_import_adds_upto(rows, trace, trace.len() - 1);
}

/// The tasks added by the first `m` rows are fresh.
proof fn lemma_import_adds_upto(
    rows: Seq<Seq<Seq<char>>>,
    trace: Seq<(Seq<Project>, Seq<Task>)>,
    m: int,
)
    requires
        import_trace(rows, trace),
        0 <= m < trace.len(),
    ensures
        forall|j: int|
            trace[0].1.len() <= j < trace[m].1.len() ==> #[trigger] fresh_task(trace[m].1, j),
    decreases m,
{
    if m > 0 {
        let i = m - 1;
        lemma_import_adds_upto(rows, trace, i);
        lemma_trace_prefix(rows, trace, 0, i);
        assert(import_step(rows, trace, i));
        let ts = trace[i].1;
        let ts2 = trace[m].1;
        if i > 0 {
            let row = rows[i];
            let name = cell(row, 0);
            let pname = cell(row, 2);
            let proj = row_project(trace[i].0, trace[m].0, pname);
            assert(import_row(trace[i].0, ts, row, trace[m].0, ts2));
            if name.len() > 0 && !has_task_named(ts, lowercase(name), proj) {
                let t = ts2.last();
                assert(ts2 == ts.push(t));
                assert(task_from_row(t, row, proj));
                lemma_trim_idempotent(row[0]);
                assert(name_key(t.name@) == lowercase(name));
                assert forall|j: int| trace[0].1.len() <= j < ts2.len() implies #[trigger] fresh_task(
                    ts2,
                    j,
                ) by {
                    if j < ts.len() {
                        assert(fresh_task(ts, j));
                        assert forall|k: int| 0 <= k <= j implies ts2[k] == ts[k] by {}
                    } else {
                        assert(j == ts.len());
                        assert forall|k: int|
                            0 <= k < j implies !(name_key((#[trigger] ts2[k]).name@) == name_key(
                                ts2[j].name@,
                            ) && opt_view(ts2[k].project) == opt_view(ts2[j].project)) by {
                            assert(ts2[k] == ts[k]);
                            if name_key(ts[k].name@) == lowercase(name) && opt_view(ts[k].project)
                                == proj {
                                assert(has_task_named(ts, lowercase(name), proj));
                            }
                        }
                    }
                }
            } else {
                if name.len() > 0 {
                    assert(ts2 == ts);
                }
            }
        }
    }
}

} // verus!
