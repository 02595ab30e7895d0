//! Producing the text of the generated configuration files from the table
//! of variables.

use crate::bindings::{captures, regex_captures};
use crate::error::{ThemeError, ThemeErrorView};
use crate::models::hex_color::{hex_of, to_hex};
use crate::services::resolver::Table;
use crate::text::{lines, replace_first, replace_first_in, split_lines, to_chars, to_string, views};
use vstd::prelude::*;
use vstd::string::StringExecFns;

verus! {

/// The expression that finds a placeholder in a template line: two
/// underscores, the variable's name, two underscores.
pub const PLACEHOLDER_PATTERN: &'static str = "__(:?.*)__";

/// The comment that opens a generated file and names the file it was
/// generated from.
pub open spec fn header(source: Seq<char>) -> Seq<char> {
    "# Autogenerated from "@ + source + seq!['\n']
}

/// One line of the style-variables file: `$name = value`.
pub open spec fn style_line(name: Seq<char>, value: Seq<char>) -> Seq<char> {
    seq!['$'] + name + " = "@ + value + seq!['\n']
}

/// The lines of the style-variables file, one for each variable of the
/// table and in its order.
pub open spec fn style_lines(table: Table) -> Seq<char>
    decreases table.len(),
{
    if table.len() == 0 {
        seq![]
    } else {
        style_lines(table.drop_last()) + style_line(table.last().0, table.last().1)
    }
}

/// The style-variables file: the header, then the lines.
pub open spec fn style_variables(table: Table, source: Seq<char>) -> Seq<char> {
    header(source) + style_lines(table)
}

/// The value of the first variable of the table that bears `name`.
pub open spec fn lookup(table: Table, name: Seq<char>) -> Option<Seq<char>>
    decreases table.len(),
{
    if table.len() == 0 {
        None
    } else if table[0].0 == name {
        Some(table[0].1)
    } else {
        lookup(table.skip(1), name)
    }
}

/// A template line once rendered, given what the placeholder expression
/// captured in it.
///
/// The line stays as it is where the expression found nothing, where it did
/// not capture exactly the placeholder and the name, and where the table has
/// no variable of that name. Otherwise the first occurrence of the
/// placeholder is replaced by the hexadecimal notation of the variable's
/// value, and a value that is no colour fails the line with
/// `ColorConversionFailed`.
pub open spec fn rendered_line(
    table: Table,
    line: Seq<char>,
    groups: Option<Seq<Option<Seq<char>>>>,
) -> Result<Seq<char>, ThemeErrorView> {
    match groups {
        None => Ok(line),
        Some(g) => if g.len() != 2 || g[0] is None || g[1] is None {
            Ok(line)
        } else {
            let placeholder = g[0]->Some_0;
            let name = g[1]->Some_0;
            match lookup(table, name) {
                None => Ok(line),
                Some(value) => match hex_of(value) {
                    Some(digits) => Ok(replace_first(line, placeholder, digits)),
                    None => Err(ThemeErrorView::ColorConversionFailed { variable: name, value }),
                },
            }
        },
    }
}

/// The lines once rendered, each closed by a newline; the failure of the
/// first line that fails, if one does.
pub open spec fn rendered_lines(table: Table, ls: Seq<Seq<char>>) -> Result<
    Seq<char>,
    ThemeErrorView,
>
    decreases ls.len(),
{
    if ls.len() == 0 {
        Ok(seq![])
    } else {
        match rendered_lines(table, ls.drop_last()) {
            Err(e) => Err(e),
            Ok(text) => match rendered_line(
                table,
                ls.last(),
                regex_captures(PLACEHOLDER_PATTERN@, ls.last()),
            ) {
                Ok(l) => Ok(text + l + seq!['\n']),
                Err(e) => Err(e),
            },
        }
    }
}

/// A template once rendered.
pub open spec fn rendered(table: Table, template: Seq<char>) -> Result<Seq<char>, ThemeErrorView> {
    rendered_lines(table, lines(template))
}

/// The terminal's theme file: the header, then the template rendered.
pub open spec fn terminal_theme(table: Table, source: Seq<char>, template: Seq<char>) -> Result<
    Seq<char>,
    ThemeErrorView,
> {
    match rendered(table, template) {
        Ok(body) => Ok(header(source) + body),
        Err(e) => Err(e),
    }
}

/// Whether what a function returned is what its contract names.
pub open spec fn yields(r: Result<String, ThemeError>, expected: Result<Seq<char>, ThemeErrorView>)
    -> bool {
    match expected {
        Ok(text) => r is Ok && r->Ok_0@ == text,
        Err(error) => r is Err && r->Err_0@ == error,
    }
}

/// The first variable named `name` is the one that counts.
pub proof fn law_first_definition_wins(table: Table, name: Seq<char>)
    ensures
        match lookup(table, name) {
            Some(value) => exists|i: int|
                0 <= i < table.len() && #[trigger] table[i] == (name, value) && forall|j: int|
                    0 <= j < i ==> (#[trigger] table[j]).0 != name,
            None => forall|j: int| 0 <= j < table.len() ==> (#[trigger] table[j]).0 != name,
        },
    decreases table.len(),
{
    if table.len() > 0 && table[0].0 != name {
        let rest = table.skip(1);
        law_first_definition_wins(rest, name);
        match lookup(rest, name) {
            Some(value) => {
                let i = choose|i: int|
                    0 <= i < rest.len() && #[trigger] rest[i] == (name, value) && forall|j: int|
                        0 <= j < i ==> (#[trigger] rest[j]).0 != name;
                assert forall|j: int| 0 <= j < i + 1 implies (#[trigger] table[j]).0 != name by {
                    if j > 0 {
                        assert(rest[j - 1] == table[j]);
                    }
                }
            },
            None => {
                assert forall|j: int| 0 <= j < table.len() implies (#[trigger] table[j]).0
                    != name by {
                    if j > 0 {
                        assert(rest[j - 1] == table[j]);
                    }
                }
            },
        }
    }
}

/// A line in which the placeholder expression finds nothing is rendered as
/// itself.
pub proof fn law_line_without_placeholder(table: Table, line: Seq<char>)
    ensures
        regex_captures(PLACEHOLDER_PATTERN@, line) is None ==> rendered_line(
            table,
            line,
            regex_captures(PLACEHOLDER_PATTERN@, line),
        ) == Ok::<Seq<char>, ThemeErrorView>(line),
        regex_captures(PLACEHOLDER_PATTERN@, line) is None ==> rendered_lines(table, seq![line])
            == Ok::<Seq<char>, ThemeErrorView>(line + seq!['\n']),
{
    reveal_with_fuel(rendered_lines, 2);
}

/// A line whose placeholder names no variable of the table is rendered as
/// itself.
pub proof fn law_unknown_placeholder(
    table: Table,
    line: Seq<char>,
    placeholder: Seq<char>,
    name: Seq<char>,
)
    requires
        forall|j: int| 0 <= j < table.len() ==> (#[trigger] table[j]).0 != name,
    ensures
        rendered_line(table, line, Some(seq![Some(placeholder), Some(name)])) == Ok::<
            Seq<char>,
            ThemeErrorView,
        >(line),
{
    law_first_definition_wins(table, name);
}

/// The value of the first variable of `variables` that bears `name`.
pub fn find_variable<'a>(variables: &'a Vec<(String, String)>, name: &str) -> (r: Option<
    &'a String,
>)
    ensures
        match lookup(variables.deep_view(), name@) {
            Some(value) => r is Some && r->Some_0@ == value,
            None => r is None,
        },
{
    let wanted = to_chars(name);
    let ghost table = variables.deep_view();
    let mut i: usize = 0;
    assert(table.skip(0) =~= table);
    while i < variables.len()
        invariant
            i <= variables.len(),
            table == variables.deep_view(),
            wanted@ == name@,
            lookup(table, name@) == lookup(table.skip(i as int), name@),
        decreases variables.len() - i,
    {
        let held = to_chars(variables[i].0.as_str());
        if same(&held, &wanted) {
            return Some(&variables[i].1);
        }
        assert(table.skip(i as int).skip(1) =~= table.skip(i + 1));
        i = i + 1;
    }
    None
}

/// Whether two texts hold the same characters.
fn same(a: &Vec<char>, b: &Vec<char>) -> (r: bool)
    ensures
        r == (a@ == b@),
{
    if a.len() != b.len() {
        return false;
    }
    let mut i: usize = 0;
    while i < a.len()
        invariant
            i <= a.len(),
            a.len() == b.len(),
            a@.take(i as int) == b@.take(i as int),
        decreases a.len() - i,
    {
        if a[i] != b[i] {
            return false;
        }
        i = i + 1;
    }
    assert(a@.take(a.len() as int) =~= a@);
    assert(b@.take(a.len() as int) =~= b@);
    true
}

/// Writes the style-variables file: a header that names `source`, then one
/// line `$name = value` for each variable, in the table's order.
pub fn render_hypr_config(variables: &Vec<(String, String)>, source: &str) -> (out: String)
    ensures
        out@ == style_variables(variables.deep_view(), source@),
{
    let mut out = String::from_str("# Autogenerated from ");
    out.append(source);
    out.push('\n');
    let ghost table = variables.deep_view();
    let mut i: usize = 0;
    while i < variables.len()
        invariant
            i <= variables.len(),
            table == variables.deep_view(),
            out@ == header(source@) + style_lines(table.take(i as int)),
        decreases variables.len() - i,
    {
        out.push('$');
        out.append(variables[i].0.as_str());
        out.append(" = ");
        out.append(variables[i].1.as_str());
        out.push('\n');
        proof {
            assert(table.take(i + 1).drop_last() =~= table.take(i as int));
        }
        i = i + 1;
    }
    assert(table.take(variables.len() as int) =~= table);
    out
}

/// Renders one template line, given what the placeholder expression
/// captured in it: see `rendered_line`.
pub fn render_line(
    variables: &Vec<(String, String)>,
    line: &str,
    groups: Option<Vec<Option<String>>>,
) -> (r: Result<String, ThemeError>)
    ensures
        yields(r, rendered_line(variables.deep_view(), line@, groups.deep_view())),
{
    let g = match groups {
        Some(g) => g,
        None => {
            return Ok(String::from_str(line));
        },
    };
    if g.len() != 2 {
        return Ok(String::from_str(line));
    }
    let (placeholder, name) = match (&g[0], &g[1]) {
        (Some(p), Some(n)) => (p, n),
        _ => {
            return Ok(String::from_str(line));
        },
    };
    let value = match find_variable(variables, name.as_str()) {
        Some(v) => v,
        None => {
            return Ok(String::from_str(line));
        },
    };
    match to_hex(value.as_str()) {
        Ok(digits) => {
            let replaced = replace_first_in(
                &to_chars(line),
                &to_chars(placeholder.as_str()),
                &to_chars(digits.as_str()),
            );
            let text = to_string(&replaced, 0, replaced.len());
            assert(replaced@.subrange(0, replaced.len() as int) =~= replaced@);
            Ok(text)
        },
        Err(_) => Err(
            ThemeError::ColorConversionFailed { variable: name.clone(), value: value.clone() },
        ),
    }
}

/// Renders a template: each line in which the placeholder expression finds
/// `__name__` for a variable `name` of the table has the placeholder replaced
/// by the hexadecimal notation of the variable's value; every other line
/// stays as it is; each line is closed by a newline. A placeholder whose
/// variable holds no colour fails the whole rendering with
/// `ColorConversionFailed`, and nothing is returned of the lines before it.
pub fn render(variables: &Vec<(String, String)>, template: &str) -> (r: Result<String, ThemeError>)
    ensures
        yields(r, rendered(variables.deep_view(), template@)),
{
    let all = split_lines(&to_chars(template));
    let ghost ls = lines(template@);
    let ghost table = variables.deep_view();
    let mut out = String::new();
    let mut i: usize = 0;
    while i < all.len()
        invariant
            i <= all.len(),
            views(all@) == ls,
            ls == lines(template@),
            table == variables.deep_view(),
            rendered_lines(table, ls.take(i as int)) == Ok::<Seq<char>, ThemeErrorView>(out@),
        decreases all.len() - i,
    {
        assert(ls.take(i + 1).drop_last() =~= ls.take(i as int));
        let line = to_string(&all[i], 0, all[i].len());
        assert(all@[i as int]@.subrange(0, all@[i as int]@.len() as int) =~= all@[i as int]@);
        let groups = captures(PLACEHOLDER_PATTERN, line.as_str());
        let ghost before = out@;
        match render_line(variables, line.as_str(), groups) {
            Ok(text) => {
                out.append(text.as_str());
                out.push('\n');
                assert(out@ =~= before + text@ + seq!['\n']);
            },
            Err(e) => {
                proof {
                    lemma_failure_stays(table, ls, i + 1);
                }
                return Err(e);
            },
        }
        i = i + 1;
    }
    assert(ls.take(all.len() as int) =~= ls);
    Ok(out)
}

/// Once a line has failed, more lines do not mend the rendering.
proof fn lemma_failure_stays(table: Table, ls: Seq<Seq<char>>, k: int)
    requires
        0 <= k <= ls.len(),
        rendered_lines(table, ls.take(k)) is Err,
    ensures
        rendered_lines(table, ls) == rendered_lines(table, ls.take(k)),
    decreases ls.len() - k,
{
    if k < ls.len() {
        assert(ls.take(k + 1).drop_last() =~= ls.take(k));
        lemma_failure_stays(table, ls, k + 1);
    } else {
        assert(ls.take(k) =~= ls);
    }
}

/// Writes the terminal's theme file: a header that names `source`, then the
/// template rendered as `render` does.
pub fn render_kitty_config(variables: &Vec<(String, String)>, source: &str, template: &str) -> (r:
    Result<String, ThemeError>)
    ensures
        yields(r, terminal_theme(variables.deep_view(), source@, template@)),
{
    match render(variables, template) {
        Ok(body) => {
            let mut out = String::from_str("# Autogenerated from ");
            out.append(source);
            out.push('\n');
            out.append(body.as_str());
            assert(out@ =~= header(source@) + body@);
            Ok(out)
        },
        Err(e) => Err(e),
    }
}

} // verus!
