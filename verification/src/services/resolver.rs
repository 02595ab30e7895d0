//! Resolving a variable-definition file and the files it imports into one
//! ordered table of variables.
//!
//! Reading files is the caller's part. The resolver says which file it needs
//! next, takes that file's text (or the reason it could not be read) and goes
//! on from there: an imported file is resolved in full before the rest of the
//! importing file is looked at. Nothing is remembered of the files already
//! read: a file that imports itself, directly or through others, is asked
//! for again each time, and its resolution does not end.

use crate::bindings::regex_captures;
use crate::error::{ThemeError, ThemeErrorView};
use crate::services::variables::{
    assignment, entries, entry, import_keyword, scan, scan_text, Entry, EntryView, IMPORT_PATTERN,
};
use crate::text::{lines, trim};
use crate::utils::paths::{join, join_paths, parent, parent_of};
use std::collections::VecDeque;
use vstd::prelude::*;
use vstd::string::StringExecFns;

verus! {

/// The variables resolved so far: name and value, in the order in which
/// they were met. A name may stand more than once.
pub type Table = Seq<(Seq<char>, Seq<char>)>;

/// One thing left to do.
#[derive(Debug, PartialEq, Eq)]
pub enum Task {
    /// Append a variable to the table.
    Define { name: String, value: String },
    /// Resolve the file at `path`, then go on.
    Fetch { path: String },
    /// A file ends here; it began when the table held `base` variables.
    Close { base: usize },
}

/// A `Task` over sequences of characters.
pub enum TaskView {
    Define { name: Seq<char>, value: Seq<char> },
    Fetch { path: Seq<char> },
    Close { base: nat },
}

impl DeepView for Task {
    type V = TaskView;

    open spec fn deep_view(&self) -> TaskView {
        match *self {
            Task::Define { name, value } => TaskView::Define { name: name@, value: value@ },
            Task::Fetch { path } => TaskView::Fetch { path: path@ },
            Task::Close { base } => TaskView::Close { base: base as nat },
        }
    }
}

/// Where a resolution stands.
#[derive(Debug)]
pub enum Resolver {
    /// The file at `path` is needed; `agenda` is what remains to be done
    /// once it is resolved.
    Reading { path: String, agenda: VecDeque<Task>, table: Vec<(String, String)> },
    /// Every file is resolved.
    Resolved { table: Vec<(String, String)> },
    /// The resolution failed.
    Failed { error: ThemeError },
}

/// A `Resolver` over sequences of characters.
pub enum ResolverView {
    Reading { path: Seq<char>, agenda: Seq<TaskView>, table: Table },
    Resolved { table: Table },
    Failed { error: ThemeErrorView },
}

impl DeepView for Resolver {
    type V = ResolverView;

    open spec fn deep_view(&self) -> ResolverView {
        match *self {
            Resolver::Reading { path, agenda, table } => ResolverView::Reading {
                path: path@,
                agenda: agenda.deep_view(),
                table: table.deep_view(),
            },
            Resolver::Resolved { table } => ResolverView::Resolved { table: table.deep_view() },
            Resolver::Failed { error } => ResolverView::Failed { error: error@ },
        }
    }
}

/// `.scss`, which names the file of a module.
pub open spec fn module_suffix() -> Seq<char> {
    seq!['.', 's', 'c', 's', 's']
}

/// The task that an entry of a file in `dir` stands for: a variable is to be
/// defined; a module is to be fetched from `dir`, under its name and
/// `.scss`.
pub open spec fn task_of(dir: Seq<char>, e: EntryView) -> TaskView {
    match e {
        EntryView::Variable { name, value } => TaskView::Define { name, value },
        EntryView::Import { module } => TaskView::Fetch { path: join(dir, module + module_suffix()) },
    }
}

/// The tasks that the entries of a file in `dir` stand for, in order.
pub open spec fn tasks(dir: Seq<char>, es: Seq<EntryView>) -> Seq<TaskView> {
    es.map_values(|e: EntryView| task_of(dir, e))
}

/// Works through `agenda` until a file is needed or nothing is left.
/// A file that ends without having added a variable, its imports counted,
/// fails the resolution with `NoVariablesFound`; so does an agenda that ends
/// on an empty table.
pub open spec fn settle(agenda: Seq<TaskView>, table: Table) -> ResolverView
    decreases agenda.len(),
{
    if agenda.len() == 0 {
        if table.len() == 0 {
            ResolverView::Failed { error: ThemeErrorView::NoVariablesFound }
        } else {
            ResolverView::Resolved { table }
        }
    } else {
        match agenda[0] {
            TaskView::Define { name, value } => settle(agenda.skip(1), table.push((name, value))),
            TaskView::Close { base } => if table.len() <= base {
                ResolverView::Failed { error: ThemeErrorView::NoVariablesFound }
            } else {
                settle(agenda.skip(1), table)
            },
            TaskView::Fetch { path } => ResolverView::Reading {
                path,
                agenda: agenda.skip(1),
                table,
            },
        }
    }
}

/// The resolution of the file at `path`, before anything is read.
pub open spec fn begin(path: Seq<char>) -> ResolverView {
    ResolverView::Reading { path, agenda: seq![], table: seq![] }
}

/// Where the resolution `r` stands once the file it needs has been read
/// (`Ok` with its text) or could not be (`Err` with the cause). The file's
/// own tasks come first, then the mark of its end, then what was left
/// before. A resolution that needs no file stays as it is.
pub open spec fn supplied(r: ResolverView, content: Result<Seq<char>, Seq<char>>) -> ResolverView {
    match r {
        ResolverView::Reading { path, agenda, table } => match content {
            Ok(text) => settle(
                tasks(parent(path), scan_text(text)) + seq![TaskView::Close { base: table.len() }]
                    + agenda,
                table,
            ),
            Err(cause) => ResolverView::Failed { error: ThemeErrorView::IoError { path, cause } },
        },
        _ => r,
    }
}

/// Works through the agenda `queue`: see `settle`.
fn run(queue: VecDeque<Task>, rows: Vec<(String, String)>) -> (r: Resolver)
    ensures
        r.deep_view() == settle(queue.deep_view(), rows.deep_view()),
{
    let mut agenda = queue;
    let mut table = rows;
    loop
        invariant
            settle(queue.deep_view(), rows.deep_view()) == settle(
                agenda.deep_view(),
                table.deep_view(),
            ),
        decreases agenda@.len(),
    {
        let ghost before = agenda.deep_view();
        let ghost held = table.deep_view();
        match agenda.pop_front() {
            None => {
                if table.len() == 0 {
                    return Resolver::Failed { error: ThemeError::NoVariablesFound };
                }
                return Resolver::Resolved { table };
            },
            Some(task) => {
                assert(agenda.deep_view() =~= before.skip(1));
                match task {
                    Task::Define { name, value } => {
                        table.push((name, value));
                        assert(table.deep_view() =~= held.push((name@, value@)));
                    },
                    Task::Close { base } => {
                        if table.len() <= base {
                            return Resolver::Failed { error: ThemeError::NoVariablesFound };
                        }
                    },
                    Task::Fetch { path } => {
                        return Resolver::Reading { path, agenda, table };
                    },
                }
            },
        }
    }
}

impl Resolver {
    /// Begins the resolution of the file at `path`: that file is needed.
    pub fn start(path: &str) -> (r: Resolver)
        ensures
            r.deep_view() == begin(path@),
    {
        let r = Resolver::Reading {
            path: String::from_str(path),
            agenda: VecDeque::new(),
            table: Vec::new(),
        };
        assert(r.deep_view() =~= begin(path@)) by {
            assert(r->Reading_agenda.deep_view() =~= Seq::<TaskView>::empty());
            assert(r->Reading_table.deep_view() =~= Seq::<(Seq<char>, Seq<char>)>::empty());
        }
        r
    }

    /// The path of the file that is needed, if one is.
    pub fn pending(&self) -> (p: Option<&String>)
        ensures
            match self.deep_view() {
                ResolverView::Reading { path, .. } => p is Some && p->Some_0@ == path,
                _ => p is None,
            },
    {
        match self {
            Resolver::Reading { path, .. } => Some(path),
            _ => None,
        }
    }

    /// Goes on with the text of the file that was needed, or with the cause
    /// for which it could not be read: see `supplied`.
    pub fn supply(self, content: Result<String, String>) -> (r: Resolver)
        ensures
            r.deep_view() == supplied(
                self.deep_view(),
                match content {
                    Ok(text) => Ok(text@),
                    Err(cause) => Err(cause@),
                },
            ),
    {
        match self {
            Resolver::Reading { path, agenda, table } => match content {
                Ok(text) => {
                    let dir = parent_of(path.as_str());
                    let mut found = scan(text.as_str());
                    let mut agenda = agenda;
                    let ghost rest = agenda.deep_view();
                    let ghost all = tasks(dir@, found.deep_view());
                    let ghost mark = TaskView::Close { base: table@.len() };
                    agenda.push_front(Task::Close { base: table.len() });
                    while found.len() > 0
                        invariant
                            all.len() >= found@.len(),
                            all.take(found@.len() as int) == tasks(dir@, found.deep_view()),
                            agenda.deep_view() == all.skip(found@.len() as int) + seq![mark] + rest,
                        decreases found@.len(),
                    {
                        let ghost n = found@.len() as int;
                        let ghost queued = agenda.deep_view();
                        let ghost known = found.deep_view();
                        let e = found.pop().unwrap();
                        assert(all[n - 1] == task_of(dir@, known[n - 1])) by {
                            assert(all.take(n)[n - 1] == tasks(dir@, known)[n - 1]);
                        }
                        let task = match e {
                            Entry::Variable { name, value } => Task::Define { name, value },
                            Entry::Import { module } => {
                                let mut file = module;
                                file.append(".scss");
                                assert(file@ =~= module@ + module_suffix()) by {
                                    reveal_strlit(".scss");
                                }
                                Task::Fetch { path: join_paths(dir.as_str(), file.as_str()) }
                            },
                        };
                        agenda.push_front(task);
                        assert(agenda.deep_view() =~= seq![all[n - 1]] + queued);
                        assert(all.take(n - 1) =~= tasks(dir@, found.deep_view()));
                    }
                    assert(all.skip(0) =~= all);
                    run(agenda, table)
                },
                Err(cause) => Resolver::Failed { error: ThemeError::IoError { path, cause } },
            },
            other => other,
        }
    }

    /// The outcome, once there is one: the table, or why there is none.
    pub fn finish(self) -> (r: Option<Result<Vec<(String, String)>, ThemeError>>)
        ensures
            match self.deep_view() {
                ResolverView::Reading { .. } => r is None,
                ResolverView::Resolved { table } => r matches Some(Ok(t)) && t.deep_view() == table,
                ResolverView::Failed { error } => r matches Some(Err(e)) && e@ == error,
            },
    {
        match self {
            Resolver::Reading { .. } => None,
            Resolver::Resolved { table } => Some(Ok(table)),
            Resolver::Failed { error } => Some(Err(error)),
        }
    }
}

/// Whether the trimmed form of `line` begins with the import keyword.
pub open spec fn is_import_line(line: Seq<char>) -> bool {
    import_keyword().is_prefix_of(trim(line))
}

/// Whether none of the lines is an import line.
pub open spec fn without_imports(ls: Seq<Seq<char>>) -> bool {
    forall|i: int| 0 <= i < ls.len() ==> !is_import_line(#[trigger] ls[i])
}

/// The assignments that the lines make, in order.
pub open spec fn assignments(ls: Seq<Seq<char>>) -> Table
    decreases ls.len(),
{
    if ls.len() == 0 {
        seq![]
    } else {
        let rest = assignments(ls.drop_last());
        match assignment(trim(ls.last())) {
            Some(pair) => rest.push(pair),
            None => rest,
        }
    }
}

/// The entry of an assignment.
pub open spec fn variable(pair: (Seq<char>, Seq<char>)) -> EntryView {
    EntryView::Variable { name: pair.0, value: pair.1 }
}

/// What lines without an import contribute is their assignments.
pub proof fn lemma_entries_without_imports(ls: Seq<Seq<char>>)
    requires
        without_imports(ls),
    ensures
        entries(ls) == assignments(ls).map_values(|pair: (Seq<char>, Seq<char>)| variable(pair)),
    decreases ls.len(),
{
    if ls.len() > 0 {
        assert forall|i: int| 0 <= i < ls.drop_last().len() implies !is_import_line(
            #[trigger] ls.drop_last()[i],
        ) by {}
        lemma_entries_without_imports(ls.drop_last());
    }
}

/// What lines contribute, taken together, is what they contribute apart.
pub proof fn lemma_entries_concat(a: Seq<Seq<char>>, b: Seq<Seq<char>>)
    ensures
        entries(a + b) == entries(a) + entries(b),
    decreases b.len(),
{
    if b.len() > 0 {
        assert((a + b).drop_last() =~= a + b.drop_last());
        lemma_entries_concat(a, b.drop_last());
    }
}

/// Assignments at the head of an agenda go to the end of the table, in
/// order, before anything else is done.
pub proof fn lemma_settle_assignments(
    dir: Seq<char>,
    pairs: Table,
    rest: Seq<TaskView>,
    table: Table,
)
    ensures
        settle(
            tasks(dir, pairs.map_values(|pair: (Seq<char>, Seq<char>)| variable(pair))) + rest,
            table,
        ) == settle(rest, table + pairs),
    decreases pairs.len(),
{
    let wrap = |pair: (Seq<char>, Seq<char>)| variable(pair);
    let agenda = tasks(dir, pairs.map_values(wrap)) + rest;
    if pairs.len() > 0 {
        assert(agenda.skip(1) =~= tasks(dir, pairs.skip(1).map_values(wrap)) + rest);
        lemma_settle_assignments(dir, pairs.skip(1), rest, table.push(pairs[0]));
        assert(table.push(pairs[0]) + pairs.skip(1) =~= table + pairs);
    }
}

/// At the end of the outermost file: the table is the outcome, unless the
/// file has added nothing to it.
proof fn lemma_settle_end(base: nat, table: Table)
    ensures
        settle(seq![TaskView::Close { base }], table) == (if table.len() <= base {
            ResolverView::Failed { error: ThemeErrorView::NoVariablesFound }
        } else {
            ResolverView::Resolved { table }
        }),
{
    reveal_with_fuel(settle, 2);
}

/// A file without imports resolves to exactly the assignments that its
/// lines make, in the order of the lines; where they make none, the
/// resolution fails with `NoVariablesFound`.
pub proof fn law_file_without_imports(path: Seq<char>, content: Seq<char>)
    requires
        without_imports(lines(content)),
    ensures
        supplied(begin(path), Ok(content)) == (if assignments(lines(content)).len() == 0 {
            ResolverView::Failed { error: ThemeErrorView::NoVariablesFound }
        } else {
            ResolverView::Resolved { table: assignments(lines(content)) }
        }),
{
    let found = assignments(lines(content));
    let end = seq![TaskView::Close { base: 0 }];
    lemma_entries_without_imports(lines(content));
    lemma_settle_assignments(parent(path), found, end + Seq::<TaskView>::empty(), seq![]);
    lemma_settle_end(0, found);
}

/// The variables of an imported file come before whatever the importing
/// file defines after the import: once an awaited file without imports is
/// read, its assignments are appended to the table, and only then is the
/// rest of the agenda looked at.
pub proof fn law_import_comes_first(
    path: Seq<char>,
    agenda: Seq<TaskView>,
    table: Table,
    content: Seq<char>,
)
    requires
        without_imports(lines(content)),
        assignments(lines(content)).len() > 0,
    ensures
        supplied(ResolverView::Reading { path, agenda, table }, Ok(content)) == settle(
            agenda,
            table + assignments(lines(content)),
        ),
{
    let found = assignments(lines(content));
    let end = seq![TaskView::Close { base: table.len() }];
    lemma_entries_without_imports(lines(content));
    lemma_settle_assignments(parent(path), found, end + agenda, table);
    assert(tasks(parent(path), scan_text(content)) + end + agenda =~= tasks(
        parent(path),
        scan_text(content),
    ) + (end + agenda));
    assert((end + agenda).skip(1) =~= agenda);
}

/// A file that imports one module between two runs of lines without
/// imports: the module's file is asked for under the importing file's
/// directory, and the table holds what the lines before the import assign,
/// then what the module's file assigns, then what the lines after it assign.
pub proof fn law_import_between(
    path: Seq<char>,
    main: Seq<char>,
    before: Seq<Seq<char>>,
    import: Seq<char>,
    module: Seq<char>,
    after: Seq<Seq<char>>,
    imported: Seq<char>,
)
    requires
        lines(main) == before + seq![import] + after,
        without_imports(before),
        without_imports(after),
        without_imports(lines(imported)),
        assignments(lines(imported)).len() > 0,
    ensures
        entry(import) == Some(EntryView::Import { module }) ==> {
            &&& supplied(begin(path), Ok(main)) matches ResolverView::Reading {
                path: asked,
                table,
                ..
            } && asked == join(parent(path), module + module_suffix()) && table == assignments(
                before,
            )
            &&& supplied(supplied(begin(path), Ok(main)), Ok(imported)) == (ResolverView::Resolved {
                table: assignments(before) + assignments(lines(imported)) + assignments(after),
            })
        },
{
    if entry(import) == Some(EntryView::Import { module }) {
        let dir = parent(path);
        let wrap = |pair: (Seq<char>, Seq<char>)| variable(pair);
        let end = seq![TaskView::Close { base: 0 }];
        let fetch = TaskView::Fetch { path: join(dir, module + module_suffix()) };
        let tail = tasks(dir, assignments(after).map_values(wrap)) + end;
        lemma_entries_concat(before + seq![import], after);
        lemma_entries_concat(before, seq![import]);
        lemma_entries_without_imports(before);
        lemma_entries_without_imports(after);
        assert(entries(seq![import]) =~= seq![EntryView::Import { module }]) by {
            reveal_with_fuel(entries, 2);
        }
        let first = tasks(dir, scan_text(main)) + end + Seq::<TaskView>::empty();
        assert(first =~= tasks(dir, assignments(before).map_values(wrap)) + (seq![fetch] + tail));
        lemma_settle_assignments(dir, assignments(before), seq![fetch] + tail, seq![]);
        assert((seq![fetch] + tail).skip(1) =~= tail);
        law_import_comes_first(
            join(dir, module + module_suffix()),
            tail,
            assignments(before),
            imported,
        );
        let held = assignments(before) + assignments(lines(imported));
        lemma_settle_assignments(dir, assignments(after), end, held);
        lemma_settle_end(0, held + assignments(after));
    }
}

/// A line that begins with the import keyword but does not match the import
/// expression contributes nothing: the file reads as if the line were not
/// there.
pub proof fn law_unmatched_import_is_skipped(
    before: Seq<Seq<char>>,
    line: Seq<char>,
    after: Seq<Seq<char>>,
)
    requires
        is_import_line(line),
    ensures
        regex_captures(IMPORT_PATTERN@, line) is None ==> entry(line) is None && entries(
            before + seq![line] + after,
        ) == entries(before + after),
{
    if regex_captures(IMPORT_PATTERN@, line) is None {
        lemma_entries_concat(before + seq![line], after);
        lemma_entries_concat(before, seq![line]);
        lemma_entries_concat(before, after);
        assert(entries(seq![line]) =~= Seq::<EntryView>::empty()) by {
            reveal_with_fuel(entries, 2);
        }
    }
}

/// Working through an agenda never ends on an empty table, and fails in one
/// way only.
pub proof fn lemma_settle_outcomes(agenda: Seq<TaskView>, table: Table)
    ensures
        settle(agenda, table) matches ResolverView::Resolved { table: t } ==> t.len() > 0,
        settle(agenda, table) matches ResolverView::Failed { error } ==> error
            == ThemeErrorView::NoVariablesFound,
    decreases agenda.len(),
{
    if agenda.len() > 0 {
        match agenda[0] {
            TaskView::Define { name, value } => {
                lemma_settle_outcomes(agenda.skip(1), table.push((name, value)));
            },
            TaskView::Close { base } => {
                if table.len() > base {
                    lemma_settle_outcomes(agenda.skip(1), table);
                }
            },
            TaskView::Fetch { .. } => {},
        }
    }
}

/// No resolution ends with an empty table. Once the awaited file is read,
/// the resolution awaits another file, or is done with at least one
/// variable, or has failed with `NoVariablesFound`; and it has failed so if
/// the file read contributes nothing, whatever had been resolved before.
pub proof fn law_no_variables_found(
    path: Seq<char>,
    agenda: Seq<TaskView>,
    table: Table,
    content: Seq<char>,
)
    ensures
        match supplied(ResolverView::Reading { path, agenda, table }, Ok(content)) {
            ResolverView::Reading { .. } => true,
            ResolverView::Resolved { table: t } => t.len() > 0,
            ResolverView::Failed { error } => error == ThemeErrorView::NoVariablesFound,
        },
        scan_text(content).len() == 0 ==> supplied(
            ResolverView::Reading { path, agenda, table },
            Ok(content),
        ) == (ResolverView::Failed { error: ThemeErrorView::NoVariablesFound }),
{
    let queue = tasks(parent(path), scan_text(content)) + seq![
        TaskView::Close { base: table.len() },
    ] + agenda;
    lemma_settle_outcomes(queue, table);
}

} // verus!
