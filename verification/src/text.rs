//! Character-level text primitives and their mathematical definitions.
//!
//! Every executable function here works on a `Vec<char>` and is specified
//! over the `Seq<char>` it views.

use vstd::prelude::*;

verus! {

/// The characters with the Unicode `White_Space` property.
pub open spec fn is_whitespace(c: char) -> bool {
    let u = c as u32;
    ||| 0x09 <= u <= 0x0D
    ||| u == 0x20
    ||| u == 0x85
    ||| u == 0xA0
    ||| u == 0x1680
    ||| 0x2000 <= u <= 0x200A
    ||| u == 0x2028
    ||| u == 0x2029
    ||| u == 0x202F
    ||| u == 0x205F
    ||| u == 0x3000
}

/// `s` without its leading whitespace.
pub open spec fn trim_start(s: Seq<char>) -> Seq<char>
    decreases s.len(),
{
    if s.len() > 0 && is_whitespace(s[0]) {
        trim_start(s.skip(1))
    } else {
        s
    }
}

/// `s` without its trailing whitespace.
pub open spec fn trim_end(s: Seq<char>) -> Seq<char>
    decreases s.len(),
{
    if s.len() > 0 && is_whitespace(s.last()) {
        trim_end(s.drop_last())
    } else {
        s
    }
}

/// `s` without its leading and trailing whitespace.
pub open spec fn trim(s: Seq<char>) -> Seq<char> {
    trim_end(trim_start(s))
}

/// `s` with every whitespace character removed, wherever it stands.
pub open spec fn without_whitespace(s: Seq<char>) -> Seq<char> {
    s.filter(|c: char| !is_whitespace(c))
}

/// The least index `i >= from` with `s[i] == c`, or `s.len()` when `c` does
/// not occur from `from` on.
pub open spec fn find_char(s: Seq<char>, c: char, from: int) -> int
    decreases s.len() - from,
{
    if from >= s.len() {
        s.len() as int
    } else if s[from] == c {
        from
    } else {
        find_char(s, c, from + 1)
    }
}

/// The least index `i >= from` at which `pat` occurs in `s`, if there is one.
pub open spec fn find_sub(s: Seq<char>, pat: Seq<char>, from: int) -> Option<int>
    decreases s.len() - from,
{
    if from < 0 || from + pat.len() > s.len() {
        None
    } else if pat.len() == 0 || s.subrange(from, from + pat.len()) == pat {
        Some(from)
    } else {
        find_sub(s, pat, from + 1)
    }
}

/// `s` with its first occurrence of `pat` replaced by `with`; `s` itself
/// when `pat` does not occur.
pub open spec fn replace_first(s: Seq<char>, pat: Seq<char>, with: Seq<char>) -> Seq<char> {
    match find_sub(s, pat, 0) {
        Some(i) => s.take(i) + with + s.skip(i + pat.len()),
        None => s,
    }
}

/// `s` with every occurrence of `pat` removed, scanning from the left and
/// never looking again at what a removal has joined.
pub open spec fn remove_all(s: Seq<char>, pat: Seq<char>) -> Seq<char>
    decreases s.len(),
{
    if pat.len() == 0 || s.len() == 0 {
        s
    } else if pat.is_prefix_of(s) {
        remove_all(s.skip(pat.len() as int), pat)
    } else {
        seq![s[0]] + remove_all(s.skip(1), pat)
    }
}

/// The pieces of `s` between occurrences of `sep`; there is always at least
/// one piece.
pub open spec fn split(s: Seq<char>, sep: char) -> Seq<Seq<char>>
    decreases s.len(),
{
    let n = find_char(s, sep, 0);
    if n >= s.len() {
        seq![s]
    } else {
        proof {
            lemma_find_char_bounds(s, sep, 0);
        }
        seq![s.take(n)] + split(s.skip(n + 1), sep)
    }
}

/// `l` without one trailing carriage return.
pub open spec fn strip_cr(l: Seq<char>) -> Seq<char> {
    if l.len() > 0 && l.last() == '\r' {
        l.drop_last()
    } else {
        l
    }
}

/// The lines of `s`: a line ends at `\n` or `\r\n`, the ending is not part
/// of the line, and a final line needs no ending.
pub open spec fn lines(s: Seq<char>) -> Seq<Seq<char>>
    decreases s.len(),
{
    if s.len() == 0 {
        seq![]
    } else {
        let n = find_char(s, '\n', 0);
        if n >= s.len() {
            seq![s]
        } else {
            proof {
                lemma_find_char_bounds(s, '\n', 0);
            }
            seq![strip_cr(s.take(n))] + lines(s.skip(n + 1))
        }
    }
}

/// The view of each element of `v`, in order.
pub open spec fn views(v: Seq<Vec<char>>) -> Seq<Seq<char>> {
    v.map_values(|e: Vec<char>| e@)
}

/// `String::push`, of which vstd says nothing. Assumed: it appends the
/// character to the string and changes nothing else of it.
pub assume_specification[ String::push ](s: &mut String, c: char)
    ensures
        final(s)@ == old(s)@.push(c),
;

/// What `find_char` finds lies from `from` on, holds `c` unless it is the
/// end, and has no `c` between `from` and itself.
pub proof fn lemma_find_char_bounds(s: Seq<char>, c: char, from: int)
    requires
        0 <= from <= s.len(),
    ensures
        from <= find_char(s, c, from) <= s.len(),
        find_char(s, c, from) < s.len() ==> s[find_char(s, c, from)] == c,
        forall|i: int| from <= i < find_char(s, c, from) ==> s[i] != c,
    decreases s.len() - from,
{
    if from < s.len() && s[from] != c {
        lemma_find_char_bounds(s, c, from + 1);
    }
}

/// Searching a suffix is searching the whole from where the suffix starts.
pub proof fn lemma_find_char_skip(s: Seq<char>, c: char, p: int, from: int)
    requires
        0 <= p <= s.len(),
        0 <= from <= s.len() - p,
    ensures
        find_char(s.skip(p), c, from) + p == find_char(s, c, from + p),
    decreases s.len() - p - from,
{
    if from < s.len() - p && s.skip(p)[from] != c {
        lemma_find_char_skip(s, c, p, from + 1);
    }
}

/// The characters of a string slice.
pub fn to_chars(s: &str) -> (v: Vec<char>)
    ensures
        v@ == s@,
{
    let mut v: Vec<char> = Vec::new();
    for c in it: s.chars()
        invariant
            v@ == it.seq().take(it.index() as int),
            it.seq() == s@,
    {
        v.push(c);
    }
    v
}

/// The string made of the characters `v[lo..hi]`.
pub fn to_string(v: &Vec<char>, lo: usize, hi: usize) -> (s: String)
    requires
        lo <= hi <= v.len(),
    ensures
        s@ == v@.subrange(lo as int, hi as int),
{
    let mut s = String::new();
    let mut i: usize = lo;
    while i < hi
        invariant
            lo <= i <= hi <= v.len(),
            s@ == v@.subrange(lo as int, i as int),
        decreases hi - i,
    {
        s.push(v[i]);
        i = i + 1;
    }
    s
}

/// Whether `c` is whitespace.
pub fn char_is_whitespace(c: char) -> (b: bool)
    ensures
        b == is_whitespace(c),
{
    let u: u32 = c as u32;
    (0x09 <= u && u <= 0x0D) || u == 0x20 || u == 0x85 || u == 0xA0 || u == 0x1680 || (0x2000 <= u
        && u <= 0x200A) || u == 0x2028 || u == 0x2029 || u == 0x202F || u == 0x205F || u == 0x3000
}

/// The bounds of `v[lo..hi]` once trimmed.
pub fn trim_bounds(v: &Vec<char>, lo: usize, hi: usize) -> (r: (usize, usize))
    requires
        lo <= hi <= v.len(),
    ensures
        lo <= r.0 <= r.1 <= hi,
        v@.subrange(r.0 as int, r.1 as int) == trim(v@.subrange(lo as int, hi as int)),
{
    let mut a: usize = lo;
    while a < hi && char_is_whitespace(v[a])
        invariant
            lo <= a <= hi <= v.len(),
            trim_start(v@.subrange(lo as int, hi as int)) == trim_start(
                v@.subrange(a as int, hi as int),
            ),
        decreases hi - a,
    {
        assert(v@.subrange(a as int, hi as int).skip(1) =~= v@.subrange(a + 1, hi as int));
        a = a + 1;
    }
    let mut b: usize = hi;
    while a < b && char_is_whitespace(v[b - 1])
        invariant
            a <= b <= hi <= v.len(),
            trim_end(v@.subrange(a as int, hi as int)) == trim_end(v@.subrange(a as int, b as int)),
        decreases b - a,
    {
        assert(v@.subrange(a as int, b as int).drop_last() =~= v@.subrange(a as int, b - 1));
        b = b - 1;
    }
    (a, b)
}

/// The index of the first `c` in `v[from..hi]`, or `hi` when there is none.
pub fn find_char_in(v: &Vec<char>, c: char, from: usize, hi: usize) -> (r: usize)
    requires
        from <= hi <= v.len(),
    ensures
        from <= r <= hi,
        r == find_char(v@.take(hi as int), c, from as int),
{
    let mut i: usize = from;
    while i < hi && v[i] != c
        invariant
            from <= i <= hi <= v.len(),
            find_char(v@.take(hi as int), c, from as int) == find_char(
                v@.take(hi as int),
                c,
                i as int,
            ),
        decreases hi - i,
    {
        i = i + 1;
    }
    i
}

/// A copy of `v[lo..hi]`.
pub fn slice(v: &Vec<char>, lo: usize, hi: usize) -> (r: Vec<char>)
    requires
        lo <= hi <= v.len(),
    ensures
        r@ == v@.subrange(lo as int, hi as int),
{
    let mut r: Vec<char> = Vec::new();
    let mut i: usize = lo;
    while i < hi
        invariant
            lo <= i <= hi <= v.len(),
            r@ == v@.subrange(lo as int, i as int),
        decreases hi - i,
    {
        r.push(v[i]);
        i = i + 1;
    }
    r
}

/// `v[lo..hi]` without any whitespace.
pub fn strip_whitespace(v: &Vec<char>, lo: usize, hi: usize) -> (r: Vec<char>)
    requires
        lo <= hi <= v.len(),
    ensures
        r@ == without_whitespace(v@.subrange(lo as int, hi as int)),
{
    let mut r: Vec<char> = Vec::new();
    let mut i: usize = lo;
    while i < hi
        invariant
            lo <= i <= hi <= v.len(),
            r@ == without_whitespace(v@.subrange(lo as int, i as int)),
        decreases hi - i,
    {
        proof {
            let keep = |c: char| !is_whitespace(c);
            v@.subrange(lo as int, i as int).lemma_filter_push(v@[i as int], keep);
            assert(v@.subrange(lo as int, i as int).push(v@[i as int]) =~= v@.subrange(
                lo as int,
                i + 1,
            ));
        }
        if !char_is_whitespace(v[i]) {
            r.push(v[i]);
        }
        i = i + 1;
    }
    r
}

/// Whether `pat` stands in `v` at index `pos`.
pub fn occurs_at(v: &Vec<char>, pat: &Vec<char>, pos: usize) -> (b: bool)
    requires
        pos <= v.len(),
    ensures
        b == (pos + pat.len() <= v.len() && v@.subrange(pos as int, pos + pat.len()) == pat@),
{
    if pat.len() > v.len() - pos {
        return false;
    }
    let mut i: usize = 0;
    while i < pat.len()
        invariant
            i <= pat.len(),
            pos + pat.len() <= v.len(),
            v@.subrange(pos as int, pos + i) == pat@.take(i as int),
        decreases pat.len() - i,
    {
        if v[pos + i] != pat[i] {
            return false;
        }
        i = i + 1;
    }
    assert(pat@.take(pat.len() as int) =~= pat@);
    true
}

/// Whether the text `v[lo..hi]` begins with `pat`.
pub fn starts_with(v: &Vec<char>, lo: usize, hi: usize, pat: &Vec<char>) -> (b: bool)
    requires
        lo <= hi <= v.len(),
    ensures
        b == pat@.is_prefix_of(v@.subrange(lo as int, hi as int)),
{
    if pat.len() > hi - lo {
        return false;
    }
    let b = occurs_at(v, pat, lo);
    assert(v@.subrange(lo as int, hi as int).subrange(0, pat.len() as int) =~= v@.subrange(
        lo as int,
        lo + pat.len(),
    ));
    b
}

/// The first index from `from` on at which `pat` occurs in `v`.
pub fn find_sub_in(v: &Vec<char>, pat: &Vec<char>, from: usize) -> (r: Option<usize>)
    requires
        from <= v.len(),
    ensures
        match r {
            Some(i) => find_sub(v@, pat@, from as int) == Some(i as int) && i + pat.len()
                <= v.len(),
            None => find_sub(v@, pat@, from as int) is None,
        },
{
    let mut i: usize = from;
    loop
        invariant
            from <= i <= v.len(),
            find_sub(v@, pat@, from as int) == find_sub(v@, pat@, i as int),
        decreases v.len() - i,
    {
        if pat.len() > v.len() - i {
            return None;
        }
        if occurs_at(v, pat, i) {
            return Some(i);
        }
        assert(pat.len() > 0) by {
            assert(v@.subrange(i as int, i as int) =~= Seq::<char>::empty());
            if pat.len() == 0 {
                assert(pat@ =~= Seq::<char>::empty());
            }
        }
        i = i + 1;
    }
}

/// `v` with its first occurrence of `pat` replaced by `with`.
pub fn replace_first_in(v: &Vec<char>, pat: &Vec<char>, with: &Vec<char>) -> (r: Vec<char>)
    ensures
        r@ == replace_first(v@, pat@, with@),
{
    match find_sub_in(v, pat, 0) {
        Some(i) => {
            let mut r = slice(v, 0, i);
            r.extend_from_slice(with.as_slice());
            let tail = slice(v, i + pat.len(), v.len());
            r.extend_from_slice(tail.as_slice());
            r
        },
        None => {
            let r = slice(v, 0, v.len());
            r
        },
    }
}

/// `v` with every occurrence of `pat` removed.
pub fn remove_all_in(v: &Vec<char>, pat: &Vec<char>) -> (r: Vec<char>)
    ensures
        r@ == remove_all(v@, pat@),
{
    if pat.len() == 0 {
        let r = slice(v, 0, v.len());
        return r;
    }
    let mut r: Vec<char> = Vec::new();
    let mut i: usize = 0;
    assert(v@.skip(0) =~= v@);
    while i < v.len()
        invariant
            i <= v.len(),
            pat.len() > 0,
            remove_all(v@, pat@) == r@ + remove_all(v@.skip(i as int), pat@),
        decreases v.len() - i,
    {
        let ghost rest = v@.skip(i as int);
        let hit = occurs_at(v, pat, i);
        assert(hit == pat@.is_prefix_of(rest)) by {
            if i + pat.len() <= v.len() {
                assert(rest.subrange(0, pat.len() as int) =~= v@.subrange(
                    i as int,
                    i + pat.len(),
                ));
            }
        }
        if hit {
            assert(rest.skip(pat.len() as int) =~= v@.skip(i + pat.len()));
            i = i + pat.len();
        } else {
            assert(rest.skip(1) =~= v@.skip(i + 1));
            r.push(v[i]);
            i = i + 1;
        }
    }
    r
}

/// The pieces of `v` between occurrences of `sep`.
pub fn split_on(v: &Vec<char>, sep: char) -> (r: Vec<Vec<char>>)
    ensures
        views(r@) == split(v@, sep),
{
    let mut r: Vec<Vec<char>> = Vec::new();
    let mut start: usize = 0;
    assert(v@.skip(0) =~= v@);
    loop
        invariant
            start <= v.len(),
            split(v@, sep) == views(r@) + split(v@.skip(start as int), sep),
        decreases v.len() - start,
    {
        let ghost rest = v@.skip(start as int);
        let n = find_char_in(v, sep, start, v.len());
        proof {
            assert(v@.take(v.len() as int) =~= v@);
            lemma_find_char_skip(v@, sep, start as int, 0);
            lemma_find_char_bounds(rest, sep, 0);
        }
        let piece = slice(v, start, n);
        r.push(piece);
        if n == v.len() {
            return r;
        }
        assert(piece@ =~= rest.take(n - start));
        assert(rest.skip(n - start + 1) =~= v@.skip(n + 1));
        start = n + 1;
    }
}

/// The lines of `v`.
pub fn split_lines(v: &Vec<char>) -> (r: Vec<Vec<char>>)
    ensures
        views(r@) == lines(v@),
{
    let mut r: Vec<Vec<char>> = Vec::new();
    let mut start: usize = 0;
    assert(v@.skip(0) =~= v@);
    while start < v.len()
        invariant
            start <= v.len(),
            lines(v@) == views(r@) + lines(v@.skip(start as int)),
        decreases v.len() - start,
    {
        let ghost rest = v@.skip(start as int);
        let n = find_char_in(v, '\n', start, v.len());
        proof {
            assert(v@.take(v.len() as int) =~= v@);
            lemma_find_char_skip(v@, '\n', start as int, 0);
            lemma_find_char_bounds(rest, '\n', 0);
        }
        if n == v.len() {
            let piece = slice(v, start, n);
            r.push(piece);
            start = n;
        } else {
            let end: usize = if n > start && v[n - 1] == '\r' {
                n - 1
            } else {
                n
            };
            let piece = slice(v, start, end);
            r.push(piece);
            assert(piece@ =~= strip_cr(rest.take(n - start)));
            assert(rest.skip(n - start + 1) =~= v@.skip(n + 1));
            start = n + 1;
        }
    }
    r
}

} // verus!
