//! File-system locations as `/`-separated texts.

use crate::error::{ThemeError, ThemeErrorView};
use crate::text::{to_chars, to_string};
use vstd::prelude::*;
use vstd::string::StringExecFns;

verus! {

/// The greatest index below `end` at which `s` holds `c`, or -1.
pub open spec fn last_index_of(s: Seq<char>, c: char, end: int) -> int
    decreases end,
{
    if end <= 0 {
        -1
    } else if s[end - 1] == c {
        end - 1
    } else {
        last_index_of(s, c, end - 1)
    }
}

/// The directory that holds `path`: what stands before its last `/`; the
/// root for a path directly under it; nothing for a bare name.
pub open spec fn parent(path: Seq<char>) -> Seq<char> {
    let k = last_index_of(path, '/', path.len() as int);
    if k < 0 {
        Seq::<char>::empty()
    } else if k == 0 {
        seq!['/']
    } else {
        path.take(k)
    }
}

/// `rel` seen from `base`: `rel` itself when it is absolute or `base` is
/// empty, else `base`, one `/` between them, and `rel`.
pub open spec fn join(base: Seq<char>, rel: Seq<char>) -> Seq<char> {
    if rel.len() > 0 && rel[0] == '/' {
        rel
    } else if base.len() == 0 {
        rel
    } else if base.last() == '/' {
        base + rel
    } else {
        base + seq!['/'] + rel
    }
}

/// Where the themes live, below the home directory.
pub const THEMES_DIR: &'static str = ".local/share/norlyk-themes";

/// The directory that holds `path`.
pub fn parent_of(path: &str) -> (dir: String)
    ensures
        dir@ == parent(path@),
{
    let v = to_chars(path);
    let mut end: usize = v.len();
    while end > 0 && v[end - 1] != '/'
        invariant
            end <= v.len(),
            last_index_of(v@, '/', v.len() as int) == last_index_of(v@, '/', end as int),
        decreases end,
    {
        end = end - 1;
    }
    if end == 0 {
        String::new()
    } else if end == 1 {
        let dir = to_string(&v, 0, 1);
        dir
    } else {
        let dir = to_string(&v, 0, end - 1);
        dir
    }
}

/// `rel` seen from `base`.
pub fn join_paths(base: &str, rel: &str) -> (path: String)
    ensures
        path@ == join(base@, rel@),
{
    let b = to_chars(base);
    let r = to_chars(rel);
    if (r.len() > 0 && r[0] == '/') || b.len() == 0 {
        return String::from_str(rel);
    }
    let mut path = String::from_str(base);
    if b[b.len() - 1] != '/' {
        path.push('/');
    }
    path.append(rel);
    path
}

/// The locations that the pipeline derives from the home directory.
pub struct Paths;

impl Paths {
    /// The home directory, given what the environment holds for it.
    /// `MissingEnvironment` exactly when it holds nothing.
    pub fn get_home_path(home: Option<&str>) -> (r: Result<String, ThemeError>)
        ensures
            match home {
                Some(h) => r is Ok && r->Ok_0@ == h@,
                None => r is Err && r->Err_0@ == ThemeErrorView::MissingEnvironment,
            },
    {
        match home {
            Some(h) => Ok(String::from_str(h)),
            None => Err(ThemeError::MissingEnvironment),
        }
    }

    /// The directory that holds the themes, `.local/share/norlyk-themes`
    /// below the home directory. `MissingEnvironment` exactly when the
    /// environment holds no home directory.
    pub fn get_config_path(home: Option<&str>) -> (r: Result<String, ThemeError>)
        ensures
            match home {
                Some(h) => r is Ok && r->Ok_0@ == join(h@, THEMES_DIR@),
                None => r is Err && r->Err_0@ == ThemeErrorView::MissingEnvironment,
            },
    {
        match home {
            Some(h) => Ok(join_paths(h, THEMES_DIR)),
            None => Err(ThemeError::MissingEnvironment),
        }
    }
}

} // verus!
