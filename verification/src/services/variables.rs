//! Reading one variable-definition file: which of its lines define a
//! variable, which import another file, and which say nothing.

use crate::bindings::{captures, regex_captures};
use crate::text::{
    find_char, find_char_in, lemma_find_char_bounds, lines, slice, split_lines, starts_with,
    strip_whitespace, to_chars, to_string, trim, trim_bounds, views, without_whitespace,
};
use vstd::prelude::*;

verus! {

/// The expression that an import line matches as a whole: the keyword, one
/// space, and the module's name between double quotes, closed by `;`.
pub const IMPORT_PATTERN: &'static str = "^@use \"(:?.*)\";$";

/// What a line of a variable-definition file contributes.
#[derive(Debug, PartialEq, Eq)]
pub enum Entry {
    /// `$name: value;`
    Variable { name: String, value: String },
    /// `@use "module";`
    Import { module: String },
}

/// An `Entry` over sequences of characters.
pub enum EntryView {
    Variable { name: Seq<char>, value: Seq<char> },
    Import { module: Seq<char> },
}

impl DeepView for Entry {
    type V = EntryView;

    open spec fn deep_view(&self) -> EntryView {
        match *self {
            Entry::Variable { name, value } => EntryView::Variable { name: name@, value: value@ },
            Entry::Import { module } => EntryView::Import { module: module@ },
        }
    }
}

/// `@use`, the keyword that opens an import line.
pub open spec fn import_keyword() -> Seq<char> {
    seq!['@', 'u', 's', 'e']
}

/// The assignment that the trimmed line `t` makes. The scan looks for the
/// first `$`, then for the first `:` after it, then for the first `;` after
/// that; where one of them is missing the line makes none. The name is what
/// stands between `$` and `:`, trimmed; the value is what stands between `:`
/// and `;`, with all whitespace taken out.
pub open spec fn assignment(t: Seq<char>) -> Option<(Seq<char>, Seq<char>)> {
    let d = find_char(t, '$', 0);
    let c = find_char(t, ':', d + 1);
    let e = find_char(t, ';', c + 1);
    if d < t.len() && c < t.len() && e < t.len() {
        Some((trim(t.subrange(d + 1, c)), without_whitespace(t.subrange(c + 1, e))))
    } else {
        None
    }
}

/// What `line` contributes, given what the import expression captured in
/// it. A line whose trimmed form begins with the import keyword is an import
/// of the module that the first group captured, and says nothing if the
/// expression did not match. Any other line is read as an assignment.
pub open spec fn entry_of(line: Seq<char>, groups: Option<Seq<Option<Seq<char>>>>) -> Option<
    EntryView,
> {
    let t = trim(line);
    if import_keyword().is_prefix_of(t) {
        match groups {
            Some(g) => if g.len() > 1 && g[1] is Some {
                Some(EntryView::Import { module: g[1]->Some_0 })
            } else {
                None
            },
            None => None,
        }
    } else {
        match assignment(t) {
            Some((name, value)) => Some(EntryView::Variable { name, value }),
            None => None,
        }
    }
}

/// What `line` contributes.
pub open spec fn entry(line: Seq<char>) -> Option<EntryView> {
    entry_of(line, regex_captures(IMPORT_PATTERN@, line))
}

/// What the lines contribute, in order.
pub open spec fn entries(lines: Seq<Seq<char>>) -> Seq<EntryView>
    decreases lines.len(),
{
    if lines.len() == 0 {
        seq![]
    } else {
        let rest = entries(lines.drop_last());
        match entry(lines.last()) {
            Some(e) => rest.push(e),
            None => rest,
        }
    }
}

/// What the text of a file contributes, line by line.
pub open spec fn scan_text(content: Seq<char>) -> Seq<EntryView> {
    entries(lines(content))
}

/// The assignment made by the text `t`.
fn assignment_in(t: &Vec<char>) -> (r: Option<(String, String)>)
    ensures
        r.deep_view() == assignment(t@),
{
    let n: usize = t.len();
    assert(t@.take(n as int) =~= t@);
    let d = find_char_in(t, '$', 0, n);
    if d == n {
        return None;
    }
    let c = find_char_in(t, ':', d + 1, n);
    if c == n {
        return None;
    }
    let e = find_char_in(t, ';', c + 1, n);
    if e == n {
        return None;
    }
    let (a, b) = trim_bounds(t, d + 1, c);
    let name = to_string(t, a, b);
    let kept = strip_whitespace(t, c + 1, e);
    let value = to_string(&kept, 0, kept.len());
    Some((name, value))
}

/// Whether the trimmed form of the line `v` begins with the import keyword.
fn is_import(v: &Vec<char>) -> (b: bool)
    ensures
        b == import_keyword().is_prefix_of(trim(v@)),
{
    let (a, b) = trim_bounds(v, 0, v.len());
    assert(v@.subrange(0, v.len() as int) =~= v@);
    let keyword: Vec<char> = vec!['@', 'u', 's', 'e'];
    starts_with(v, a, b, &keyword)
}

/// What the line `v` contributes when the import expression has captured
/// `groups` in it.
fn classify_chars(v: &Vec<char>, groups: Option<Vec<Option<String>>>) -> (r: Option<Entry>)
    ensures
        r.deep_view() == entry_of(v@, groups.deep_view()),
{
    if is_import(v) {
        match groups {
            Some(g) => {
                if g.len() > 1 {
                    match &g[1] {
                        Some(module) => Some(Entry::Import { module: module.clone() }),
                        None => None,
                    }
                } else {
                    None
                }
            },
            None => None,
        }
    } else {
        let (a, b) = trim_bounds(v, 0, v.len());
        assert(v@.subrange(0, v.len() as int) =~= v@);
        let t = slice(v, a, b);
        match assignment_in(&t) {
            Some((name, value)) => Some(Entry::Variable { name, value }),
            None => None,
        }
    }
}

/// What the line `v` contributes. The import expression is evaluated only
/// on a line that begins with the import keyword.
fn read_chars(v: &Vec<char>) -> (r: Option<Entry>)
    ensures
        r.deep_view() == entry(v@),
{
    let groups = if is_import(v) {
        let line = to_string(v, 0, v.len());
        assert(v@.subrange(0, v.len() as int) =~= v@);
        captures(IMPORT_PATTERN, line.as_str())
    } else {
        None
    };
    classify_chars(v, groups)
}

/// What `line` contributes when the import expression has captured `groups`
/// in it: see `entry_of`.
pub fn classify(line: &str, groups: Option<Vec<Option<String>>>) -> (r: Option<Entry>)
    ensures
        r.deep_view() == entry_of(line@, groups.deep_view()),
{
    classify_chars(&to_chars(line), groups)
}

/// What `line` contributes: an assignment, an import whose module name the
/// import expression captured, or nothing.
pub fn read_line(line: &str) -> (r: Option<Entry>)
    ensures
        r.deep_view() == entry(line@),
{
    read_chars(&to_chars(line))
}

/// What the text of a variable-definition file contributes, line by line
/// and in the order of its lines.
pub fn scan(content: &str) -> (r: Vec<Entry>)
    ensures
        r.deep_view() == scan_text(content@),
{
    let all = split_lines(&to_chars(content));
    let ghost ls = lines(content@);
    let mut r: Vec<Entry> = Vec::new();
    let mut i: usize = 0;
    while i < all.len()
        invariant
            i <= all.len(),
            views(all@) == ls,
            r.deep_view() == entries(ls.take(i as int)),
        decreases all.len() - i,
    {
        assert(ls.take(i + 1).drop_last() =~= ls.take(i as int));
        if let Some(e) = read_chars(&all[i]) {
            r.push(e);
        }
        i = i + 1;
    }
    assert(ls.take(all.len() as int) =~= ls);
    r
}

/// The line `$name:value;` assigns to the name, trimmed, the value without
/// its whitespace, whatever stands after the `;`; `name` holds no `:` and
/// `value` no `;`.
pub proof fn law_assignment_line(name: Seq<char>, value: Seq<char>, rest: Seq<char>)
    requires
        !name.contains(':'),
        !value.contains(';'),
    ensures
        assignment(seq!['$'] + name + seq![':'] + value + seq![';'] + rest) == Some(
            (trim(name), without_whitespace(value)),
        ),
{
    let t = seq!['$'] + name + seq![':'] + value + seq![';'] + rest;
    let c = 1 + name.len() as int;
    let e = c + 1 + value.len() as int;
    assert(t[c] == ':');
    assert(t[e] == ';');
    assert forall|i: int| 1 <= i < c implies t[i] != ':' by {}
    assert forall|i: int| c + 1 <= i < e implies t[i] != ';' by {}
    lemma_find_char_bounds(t, ':', 1);
    lemma_find_char_bounds(t, ';', c + 1);
    assert(t.subrange(1, c) =~= name);
    assert(t.subrange(c + 1, e) =~= value);
}

} // verus!
