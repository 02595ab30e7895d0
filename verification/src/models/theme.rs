//! A theme as the picker lists it, and the order the picker lists themes
//! in.

use crate::text::to_chars;
use vstd::prelude::*;
use vstd::string::StringExecFns;

verus! {

/// A theme: the name it is shown under, the directory it lives in, and a
/// line that describes it.
#[derive(Debug, Clone)]
pub struct Theme {
    pub name: String,
    pub dir_name: String,
    pub info: String,
}

/// A `Theme` over sequences of characters.
pub struct ThemeView {
    pub name: Seq<char>,
    pub dir_name: Seq<char>,
    pub info: Seq<char>,
}

impl DeepView for Theme {
    type V = ThemeView;

    open spec fn deep_view(&self) -> ThemeView {
        ThemeView { name: self.name@, dir_name: self.dir_name@, info: self.info@ }
    }
}

/// Whether the text `a` is `b` or comes before it: character by character,
/// by code point, a text coming before those it begins.
pub open spec fn precedes(a: Seq<char>, b: Seq<char>) -> bool
    decreases a.len(),
{
    if a.len() == 0 {
        true
    } else if b.len() == 0 {
        false
    } else if a[0] != b[0] {
        (a[0] as u32) < (b[0] as u32)
    } else {
        precedes(a.skip(1), b.skip(1))
    }
}

/// Whether `origin` lists each of the first `n` indices once.
pub open spec fn lists_each_once(origin: Seq<int>, n: int) -> bool {
    &&& origin.len() == n
    &&& forall|k: int| 0 <= k < n ==> 0 <= #[trigger] origin[k] < n
    &&& forall|k: int, l: int| 0 <= k < l < n ==> #[trigger] origin[k] != #[trigger] origin[l]
}

/// Whether `output` is `input` sorted by name, themes of one name keeping
/// the order they had; `origin[k]` is where in `input` the theme at `k` of
/// `output` stood.
pub open spec fn sorted_by_name(input: Seq<ThemeView>, output: Seq<ThemeView>, origin: Seq<int>)
    -> bool {
    &&& output.len() == input.len()
    &&& lists_each_once(origin, input.len() as int)
    &&& forall|k: int| 0 <= k < output.len() ==> #[trigger] output[k] == input[origin[k]]
    &&& forall|k: int, l: int|
        0 <= k < l < output.len() ==> precedes(
            (#[trigger] output[k]).name,
            (#[trigger] output[l]).name,
        ) && (output[k].name == output[l].name ==> origin[k] < origin[l])
}

/// Every text is at most itself.
pub proof fn lemma_precedes_itself(a: Seq<char>)
    ensures
        precedes(a, a),
    decreases a.len(),
{
    if a.len() > 0 {
        lemma_precedes_itself(a.skip(1));
    }
}

/// Of two texts, one is at most the other.
pub proof fn lemma_precedes_either_way(a: Seq<char>, b: Seq<char>)
    ensures
        precedes(a, b) || precedes(b, a),
    decreases a.len(),
{
    if a.len() > 0 && b.len() > 0 {
        if a[0] == b[0] {
            lemma_precedes_either_way(a.skip(1), b.skip(1));
        } else {
            vstd::utf8::char_u32_cast(a[0], a[0] as u32);
            vstd::utf8::char_u32_cast(b[0], b[0] as u32);
        }
    }
}

/// What is at most a text is at most whatever that text is at most.
pub proof fn lemma_precedes_chains(a: Seq<char>, b: Seq<char>, c: Seq<char>)
    requires
        precedes(a, b),
        precedes(b, c),
    ensures
        precedes(a, c),
    decreases a.len(),
{
    if a.len() > 0 && b.len() > 0 && c.len() > 0 && a[0] == b[0] && b[0] == c[0] {
        lemma_precedes_chains(a.skip(1), b.skip(1), c.skip(1));
    }
}

/// Whether `a` is `b` or comes before it.
fn at_most(a: &str, b: &str) -> (r: bool)
    ensures
        r == precedes(a@, b@),
{
    let x = to_chars(a);
    let y = to_chars(b);
    let mut i: usize = 0;
    assert(x@.skip(0) =~= x@);
    assert(y@.skip(0) =~= y@);
    while i < x.len() && i < y.len() && x[i] == y[i]
        invariant
            i <= x.len(),
            i <= y.len(),
            precedes(x@, y@) == precedes(x@.skip(i as int), y@.skip(i as int)),
        decreases x.len() - i,
    {
        assert(x@.skip(i as int).skip(1) =~= x@.skip(i + 1));
        assert(y@.skip(i as int).skip(1) =~= y@.skip(i + 1));
        i = i + 1;
    }
    if i == x.len() {
        true
    } else if i == y.len() {
        false
    } else {
        (x[i] as u32) < (y[i] as u32)
    }
}

impl Theme {
    /// A theme with the given name, directory and description.
    #[must_use]
    pub fn new(name: &str, dir_name: &str, info: &str) -> (theme: Self)
        ensures
            theme.name@ == name@,
            theme.dir_name@ == dir_name@,
            theme.info@ == info@,
    {
        Self {
            name: String::from_str(name),
            dir_name: String::from_str(dir_name),
            info: String::from_str(info),
        }
    }

    /// The themes sorted by name, as the picker lists them. Themes of one
    /// name keep the order they came in.
    pub fn sort_by_name(themes: Vec<Theme>) -> (sorted: Vec<Theme>)
        ensures
            exists|origin: Seq<int>|
                sorted_by_name(themes.deep_view(), sorted.deep_view(), origin),
    {
        let ghost input = themes.deep_view();
        let ghost mut origin: Seq<int> = seq![];
        let mut rest = themes;
        let mut sorted: Vec<Theme> = Vec::new();
        while rest.len() > 0
            invariant
                origin.len() + rest@.len() == input.len(),
                rest.deep_view() == input.skip(origin.len() as int),
                sorted_by_name(input.take(origin.len() as int), sorted.deep_view(), origin),
            decreases rest@.len(),
        {
            let ghost n = origin.len() as int;
            let ghost held = sorted.deep_view();
            let ghost left = rest.deep_view();
            let theme = rest.remove(0);
            assert(rest.deep_view() =~= left.skip(1));
            assert(theme.deep_view() == left[0]);
            let mut pos: usize = 0;
            while pos < sorted.len() && at_most(sorted[pos].name.as_str(), theme.name.as_str())
                invariant
                    pos <= sorted.len(),
                    held == sorted.deep_view(),
                    forall|k: int|
                        0 <= k < pos ==> precedes((#[trigger] held[k]).name, theme.name@),
                decreases sorted.len() - pos,
            {
                pos = pos + 1;
            }
            sorted.insert(pos, theme);
            proof {
                let after = sorted.deep_view();
                let next = origin.insert(pos as int, n);
                assert(after =~= held.insert(pos as int, theme.deep_view()));
                assert forall|k: int, l: int| 0 <= k < l < after.len() implies precedes(
                    (#[trigger] after[k]).name,
                    (#[trigger] after[l]).name,
                ) && (after[k].name == after[l].name ==> next[k] < next[l]) by {
                    if k == pos {
                        // The theme put in comes before every theme from `pos`
                        // on, and none of them bears its name.
                        let first = held[pos as int].name;
                        let other = held[l - 1].name;
                        lemma_precedes_itself(first);
                        lemma_precedes_either_way(first, theme.name@);
                        lemma_precedes_chains(theme.name@, first, other);
                        if other == theme.name@ {
                            lemma_precedes_itself(theme.name@);
                            lemma_precedes_chains(first, other, theme.name@);
                        }
                    }
                }
                origin = next;
            }
        }
        sorted
    }
}

} // verus!
