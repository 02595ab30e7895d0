//! What resolving a file means, said in one piece, and the proof that the
//! resolver computes it.
//!
//! To resolve a file is to go through what its lines contribute: a variable
//! is taken as it is, an import is replaced by the resolution of the file it
//! names. The `Resolver` does the same one file at a time, with an agenda in
//! place of the nesting.

use crate::error::ThemeErrorView;
use crate::services::resolver::{
    begin, module_suffix, settle, supplied, tasks, ResolverView, Table, TaskView,
};
use crate::services::variables::{scan_text, EntryView};
use crate::utils::paths::{join, parent};
use vstd::prelude::*;

verus! {

/// What reading gives for each path: the text of the file, or the cause for
/// which it cannot be read.
pub type Disk = spec_fn(Seq<char>) -> Result<Seq<char>, Seq<char>>;

/// The table that the file at `path` resolves to, imports nested at most
/// `depth` files deep; `None` where they nest deeper.
///
/// An unreadable file fails the resolution with its path and the cause. A
/// file that resolves to no variable at all, its imports counted, fails it
/// with `NoVariablesFound`.
pub open spec fn resolution(disk: Disk, path: Seq<char>, depth: nat) -> Option<
    Result<Table, ThemeErrorView>,
>
    decreases depth, 0nat,
{
    if depth == 0 {
        None
    } else {
        match disk(path) {
            Err(cause) => Some(Err(ThemeErrorView::IoError { path, cause })),
            Ok(text) => match gathered(disk, parent(path), scan_text(text), (depth - 1) as nat) {
                None => None,
                Some(Err(error)) => Some(Err(error)),
                Some(Ok(table)) => if table.len() == 0 {
                    Some(Err(ThemeErrorView::NoVariablesFound))
                } else {
                    Some(Ok(table))
                },
            },
        }
    }
}

/// The variables that the entries `es` of a file in `dir` stand for, in
/// order: each variable itself, and for each import the table that the
/// imported file resolves to. The first failure among them is the failure
/// of all.
pub open spec fn gathered(disk: Disk, dir: Seq<char>, es: Seq<EntryView>, depth: nat) -> Option<
    Result<Table, ThemeErrorView>,
>
    decreases depth, es.len() + 1,
{
    if es.len() == 0 {
        Some(Ok(seq![]))
    } else {
        let first = match es[0] {
            EntryView::Variable { name, value } => Some(Ok(seq![(name, value)])),
            EntryView::Import { module } => resolution(
                disk,
                join(dir, module + module_suffix()),
                depth,
            ),
        };
        match first {
            None => None,
            Some(Err(error)) => Some(Err(error)),
            Some(Ok(head)) => match gathered(disk, dir, es.skip(1), depth) {
                None => None,
                Some(Err(error)) => Some(Err(error)),
                Some(Ok(tail)) => Some(Ok(head + tail)),
            },
        }
    }
}

/// The resolver `r` after the host has answered up to `reads` times with
/// what `disk` gives for the file asked for.
pub open spec fn driven(disk: Disk, r: ResolverView, reads: nat) -> ResolverView
    decreases reads,
{
    if reads == 0 {
        r
    } else {
        match r {
            ResolverView::Reading { path, .. } => driven(
                disk,
                supplied(r, disk(path)),
                (reads - 1) as nat,
            ),
            _ => r,
        }
    }
}

/// How a resolver stands that has come to `outcome`, `rest` being its
/// agenda and `table` what it held before.
pub open spec fn arrived(outcome: Result<Table, ThemeErrorView>, rest: Seq<TaskView>, table: Table)
    -> ResolverView {
    match outcome {
        Ok(found) => settle(rest, table + found),
        Err(error) => ResolverView::Failed { error },
    }
}

proof fn lemma_driven_in_two(disk: Disk, r: ResolverView, first: nat, second: nat)
    ensures
        driven(disk, r, first + second) == driven(disk, driven(disk, r, first), second),
    decreases first,
{
    if first > 0 {
        match r {
            ResolverView::Reading { path, .. } => {
                lemma_driven_in_two(disk, supplied(r, disk(path)), (first - 1) as nat, second);
            },
            _ => {
                lemma_driven_ended(disk, r, second);
                lemma_driven_ended(disk, r, first + second);
            },
        }
    }
}

proof fn lemma_driven_ended(disk: Disk, r: ResolverView, reads: nat)
    requires
        !(r is Reading),
    ensures
        driven(disk, r, reads) == r,
{
}

/// A resolver that waits for a file and is driven against the disk comes to
/// what the file resolves to, and goes on with its agenda from there.
proof fn lemma_file(
    disk: Disk,
    path: Seq<char>,
    depth: nat,
    rest: Seq<TaskView>,
    table: Table,
) -> (reads: nat)
    requires
        resolution(disk, path, depth) is Some,
    ensures
        driven(disk, ResolverView::Reading { path, agenda: rest, table }, reads) == arrived(
            resolution(disk, path, depth)->Some_0,
            rest,
            table,
        ),
    decreases depth, 0nat,
{
    let waiting = ResolverView::Reading { path, agenda: rest, table };
    match disk(path) {
        Err(_) => {
            assert(driven(disk, waiting, 1) == supplied(waiting, disk(path))) by {
                reveal_with_fuel(driven, 2);
            }
            1
        },
        Ok(text) => {
            let end = seq![TaskView::Close { base: table.len() }];
            let dir = parent(path);
            let es = scan_text(text);
            let inner = lemma_entries(disk, dir, es, (depth - 1) as nat, end + rest, table);
            assert(tasks(dir, es) + end + rest =~= tasks(dir, es) + (end + rest));
            assert((end + rest).skip(1) =~= rest);
            inner + 1
        },
    }
}

/// A resolver that has the entries of a file at the head of its agenda and
/// is driven against the disk comes to what the entries stand for, and goes
/// on with the rest of its agenda from there.
proof fn lemma_entries(
    disk: Disk,
    dir: Seq<char>,
    es: Seq<EntryView>,
    depth: nat,
    rest: Seq<TaskView>,
    table: Table,
) -> (reads: nat)
    requires
        gathered(disk, dir, es, depth) is Some,
    ensures
        driven(disk, settle(tasks(dir, es) + rest, table), reads) == arrived(
            gathered(disk, dir, es, depth)->Some_0,
            rest,
            table,
        ),
    decreases depth, es.len() + 1,
{
    let agenda = tasks(dir, es) + rest;
    if es.len() == 0 {
        0
    } else {
        assert(agenda.skip(1) =~= tasks(dir, es.skip(1)) + rest);
        match es[0] {
            EntryView::Variable { name, value } => {
                let reads = lemma_entries(
                    disk,
                    dir,
                    es.skip(1),
                    depth,
                    rest,
                    table.push((name, value)),
                );
                if let Ok(tail) = gathered(disk, dir, es.skip(1), depth)->Some_0 {
                    assert(table.push((name, value)) + tail =~= table + (seq![(name, value)]
                        + tail));
                }
                reads
            },
            EntryView::Import { module } => {
                let path = join(dir, module + module_suffix());
                let next = tasks(dir, es.skip(1)) + rest;
                let first = lemma_file(disk, path, depth, next, table);
                let waiting = ResolverView::Reading { path, agenda: next, table };
                match resolution(disk, path, depth)->Some_0 {
                    Err(_) => first,
                    Ok(head) => {
                        let second = lemma_entries(
                            disk,
                            dir,
                            es.skip(1),
                            depth,
                            rest,
                            table + head,
                        );
                        lemma_driven_in_two(disk, waiting, first, second);
                        if let Ok(tail) = gathered(disk, dir, es.skip(1), depth)->Some_0 {
                            assert(table + head + tail =~= table + (head + tail));
                        }
                        first + second
                    },
                }
            },
        }
    }
}

/// The resolver computes the resolution: begun on a file and answered from
/// the disk, it comes, within the number of reads returned, to the table
/// that the file resolves to, or to the failure of its resolution.
pub proof fn law_resolver_computes_resolution(disk: Disk, path: Seq<char>, depth: nat) -> (reads:
    nat)
    requires
        resolution(disk, path, depth) is Some,
    ensures
        driven(disk, begin(path), reads) == (match resolution(disk, path, depth)->Some_0 {
            Ok(table) => ResolverView::Resolved { table },
            Err(error) => ResolverView::Failed { error },
        }),
{
    lemma_file(disk, path, depth, seq![], seq![])
}

/// A resolution that succeeds has found at least one variable: a file with
/// nothing to extract, after all its imports are followed, fails with
/// `NoVariablesFound` unless a file could not be read.
pub proof fn law_resolution_is_never_empty(disk: Disk, path: Seq<char>, depth: nat)
    ensures
        match resolution(disk, path, depth) {
            Some(Ok(table)) => table.len() > 0,
            Some(Err(error)) => error is NoVariablesFound || error is IoError,
            None => true,
        },
    decreases depth, 0nat,
{
    if depth > 0 {
        if let Ok(text) = disk(path) {
            lemma_gathered_failures(disk, parent(path), scan_text(text), (depth - 1) as nat);
        }
    }
}

proof fn lemma_gathered_failures(disk: Disk, dir: Seq<char>, es: Seq<EntryView>, depth: nat)
    ensures
        gathered(disk, dir, es, depth) matches Some(Err(error)) ==> error is NoVariablesFound
            || error is IoError,
    decreases depth, es.len() + 1,
{
    if es.len() > 0 {
        if let EntryView::Import { module } = es[0] {
            law_resolution_is_never_empty(disk, join(dir, module + module_suffix()), depth);
        }
        lemma_gathered_failures(disk, dir, es.skip(1), depth);
    }
}

} // verus!
