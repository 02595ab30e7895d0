//! Choosing the wallpaper: one of the image files of a directory, at random.

use crate::bindings::pick_one;
use crate::error::{ThemeError, ThemeErrorView};
use crate::text::to_chars;
use crate::utils::paths::last_index_of;
use vstd::prelude::*;

verus! {

/// `c`, or its lowercase form where `c` is one of `A` to `Z`.
pub open spec fn lower(c: char) -> char {
    if 0x41 <= c as u32 <= 0x5A {
        ((c as u32 + 0x20) as u8) as char
    } else {
        c
    }
}

/// The name of the file at `path`: what stands after its last `/`.
pub open spec fn file_name(path: Seq<char>) -> Seq<char> {
    path.skip(last_index_of(path, '/', path.len() as int) + 1)
}

/// The extension of the file at `path`: what stands after the last `.` of
/// its name. A name without `.`, or whose only `.` opens it, has none.
pub open spec fn extension(path: Seq<char>) -> Option<Seq<char>> {
    let name = file_name(path);
    let k = last_index_of(name, '.', name.len() as int);
    if k <= 0 {
        None
    } else {
        Some(name.skip(k + 1))
    }
}

/// Whether `e` is `word` when the case of the letters `A` to `Z` is set
/// aside; `word` is in lowercase.
pub open spec fn reads_as(e: Seq<char>, word: Seq<char>) -> bool {
    e.len() == word.len() && forall|i: int| 0 <= i < e.len() ==> lower(#[trigger] e[i]) == word[i]
}

/// Whether `e` is the extension of an image: `png`, `jpg`, `jpeg` or `bmp`,
/// in any case.
pub open spec fn is_image_extension(e: Seq<char>) -> bool {
    ||| reads_as(e, seq!['p', 'n', 'g'])
    ||| reads_as(e, seq!['j', 'p', 'g'])
    ||| reads_as(e, seq!['j', 'p', 'e', 'g'])
    ||| reads_as(e, seq!['b', 'm', 'p'])
}

/// Whether the file at `path` is an image, going by its extension.
pub open spec fn is_image(path: Seq<char>) -> bool {
    extension(path) matches Some(e) && is_image_extension(e)
}

/// The images among `files`, in their order.
pub open spec fn images(files: Seq<Seq<char>>) -> Seq<Seq<char>> {
    files.filter(|path: Seq<char>| is_image(path))
}

/// `c` in lowercase, where it is one of `A` to `Z`.
fn lowercase(c: char) -> (l: char)
    ensures
        l == lower(c),
{
    let u: u32 = c as u32;
    if 0x41 <= u && u <= 0x5A {
        ((u + 0x20) as u8) as char
    } else {
        c
    }
}

/// Whether `v[from..]` reads as `word`, case set aside.
fn reads(v: &Vec<char>, from: usize, word: &Vec<char>) -> (b: bool)
    requires
        from <= v.len(),
    ensures
        b == reads_as(v@.skip(from as int), word@),
{
    if v.len() - from != word.len() {
        return false;
    }
    let ghost e = v@.skip(from as int);
    let mut i: usize = 0;
    while i < word.len()
        invariant
            i <= word.len(),
            from + word.len() == v.len(),
            e == v@.skip(from as int),
            forall|j: int| 0 <= j < i ==> lower(#[trigger] e[j]) == word@[j],
        decreases word.len() - i,
    {
        if lowercase(v[from + i]) != word[i] {
            assert(lower(e[i as int]) != word@[i as int]);
            return false;
        }
        i = i + 1;
    }
    true
}

/// Whether the file at `path` is an image, going by its extension.
pub fn is_image_file(path: &str) -> (b: bool)
    ensures
        b == is_image(path@),
{
    let v = to_chars(path);
    let mut start: usize = v.len();
    while start > 0 && v[start - 1] != '/'
        invariant
            start <= v.len(),
            last_index_of(v@, '/', v.len() as int) == last_index_of(v@, '/', start as int),
        decreases start,
    {
        start = start - 1;
    }
    let ghost name = file_name(v@);
    let mut dot: usize = v.len();
    while dot > start && v[dot - 1] != '.'
        invariant
            start <= dot <= v.len(),
            name == v@.skip(start as int),
            last_index_of(name, '.', name.len() as int) == last_index_of(name, '.', dot - start),
        decreases dot,
    {
        dot = dot - 1;
    }
    if dot - start <= 1 {
        return false;
    }
    assert(name.skip(dot - start) =~= v@.skip(dot as int));
    let png: Vec<char> = vec!['p', 'n', 'g'];
    let jpg: Vec<char> = vec!['j', 'p', 'g'];
    let jpeg: Vec<char> = vec!['j', 'p', 'e', 'g'];
    let bmp: Vec<char> = vec!['b', 'm', 'p'];
    reads(&v, dot, &png) || reads(&v, dot, &jpg) || reads(&v, dot, &jpeg) || reads(&v, dot, &bmp)
}

/// The images among `files`, in their order.
pub fn image_files(files: &Vec<String>) -> (r: Vec<String>)
    ensures
        r.deep_view() == images(files.deep_view()),
{
    let ghost all = files.deep_view();
    let ghost keep = |path: Seq<char>| is_image(path);
    let mut r: Vec<String> = Vec::new();
    let mut i: usize = 0;
    while i < files.len()
        invariant
            i <= files.len(),
            all == files.deep_view(),
            keep == |path: Seq<char>| is_image(path),
            r.deep_view() == all.take(i as int).filter(keep),
        decreases files.len() - i,
    {
        proof {
            all.take(i as int).lemma_filter_push(all[i as int], keep);
            assert(all.take(i as int).push(all[i as int]) =~= all.take(i + 1));
        }
        if is_image_file(files[i].as_str()) {
            r.push(files[i].clone());
        }
        i = i + 1;
    }
    assert(all.take(files.len() as int) =~= all);
    r
}

/// Chooses the wallpaper among `files`: one of the images among them, picked
/// at random. `NoImagesFound` exactly when there is no image among them.
pub fn choose_wallpaper(files: &Vec<String>) -> (r: Result<String, ThemeError>)
    ensures
        images(files.deep_view()).len() == 0 <==> r is Err,
        r matches Err(e) ==> e@ == ThemeErrorView::NoImagesFound,
        r matches Ok(path) ==> images(files.deep_view()).contains(path@),
{
    let candidates = image_files(files);
    match pick_one(&candidates) {
        Some(path) => {
            proof {
                let i = choose|i: int| 0 <= i < candidates@.len() && candidates@[i] == *path;
                assert(candidates.deep_view()[i] == path@);
            }
            Ok(path.clone())
        },
        None => Err(ThemeError::NoImagesFound),
    }
}

} // verus!
