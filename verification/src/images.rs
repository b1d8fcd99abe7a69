//! Selecting the image set: which directory entries count as images,
//! and the listing that the rotation scheduler is built from.

use vstd::prelude::*;
use crate::errors::WallpaperError;

verus! {

/// One directory entry as the caller saw it: the full path, the bare
/// file name (the last component, with no separators), and whether the
/// entry is a regular file.
#[derive(Clone, Debug)]
pub struct FileEntry {
    pub path: String,
    pub name: String,
    pub is_file: bool,
}

/// `a` matches the lower-case ASCII letter `b`, ignoring ASCII case.
pub open spec fn eq_ignore_ascii_case(a: char, b: char) -> bool {
    a == b || (65 <= a as int <= 90 && a as int + 32 == b as int)
}

/// The supported image extensions: jpg, jpeg, png and bmp, matched
/// without regard to ASCII case.
pub open spec fn is_supported_ext(e: Seq<char>) -> bool {
    ||| (e.len() == 3 && eq_ignore_ascii_case(e[0], 'j') && eq_ignore_ascii_case(e[1], 'p')
        && eq_ignore_ascii_case(e[2], 'g'))
    ||| (e.len() == 4 && eq_ignore_ascii_case(e[0], 'j') && eq_ignore_ascii_case(e[1], 'p')
        && eq_ignore_ascii_case(e[2], 'e') && eq_ignore_ascii_case(e[3], 'g'))
    ||| (e.len() == 3 && eq_ignore_ascii_case(e[0], 'p') && eq_ignore_ascii_case(e[1], 'n')
        && eq_ignore_ascii_case(e[2], 'g'))
    ||| (e.len() == 3 && eq_ignore_ascii_case(e[0], 'b') && eq_ignore_ascii_case(e[1], 'm')
        && eq_ignore_ascii_case(e[2], 'p'))
}

/// The extension of a file name: what follows the last `.`, except that
/// a name of a single character has none, and a dot in the very first
/// position alone marks a hidden file rather than an extension — the
/// rule `Path::extension` follows for a file name.
pub open spec fn ext_of(name: Seq<char>) -> Option<Seq<char>>
    decreases name.len(),
{
    if name.len() < 2 {
        None
    } else if name.last() == '.' {
        Some(Seq::empty())
    } else {
        match ext_of(name.drop_last()) {
            Some(e) => Some(e.push(name.last())),
            None => None,
        }
    }
}

/// The file name carries an extension and it is a supported one.
pub open spec fn name_has_supported_ext(name: Seq<char>) -> bool {
    match ext_of(name) {
        Some(e) => is_supported_ext(e),
        None => false,
    }
}

/// An entry qualifies for the image set when it is a regular file whose
/// name ends in a supported extension.
pub open spec fn qualifies(e: FileEntry) -> bool {
    e.is_file && name_has_supported_ext(e.name@)
}

/// The paths of the qualifying entries, in the order they were listed.
pub open spec fn image_paths(entries: Seq<FileEntry>) -> Seq<String>
    decreases entries.len(),
{
    if entries.len() == 0 {
        Seq::empty()
    } else if qualifies(entries.last()) {
        image_paths(entries.drop_last()).push(entries.last().path)
    } else {
        image_paths(entries.drop_last())
    }
}

/// When the last `.` of the name stands at position `d >= 1`, the
/// extension is exactly what follows it.
proof fn lemma_ext_of_last_dot(name: Seq<char>, d: int)
    requires
        1 <= d < name.len(),
        name[d] == '.',
        forall|j: int| d < j < name.len() ==> name[j] != '.',
    ensures
        ext_of(name) == Some(name.subrange(d + 1, name.len() as int)),
    decreases name.len(),
{
    if d == name.len() - 1 {
        assert(name.subrange(d + 1, name.len() as int) =~= Seq::<char>::empty());
    } else {
        assert(name[name.len() - 1] != '.');
        lemma_ext_of_last_dot(name.drop_last(), d);
        assert(name.subrange(d + 1, name.len() as int) =~= name.drop_last().subrange(
            d + 1,
            name.len() - 1,
        ).push(name.last()));
    }
}

/// A name with no `.` past its first character has no extension.
proof fn lemma_ext_of_no_dot(name: Seq<char>)
    requires
        forall|j: int| 1 <= j < name.len() ==> name[j] != '.',
    ensures
        ext_of(name) is None,
    decreases name.len(),
{
    if name.len() >= 2 {
        assert(name[name.len() - 1] != '.');
        lemma_ext_of_no_dot(name.drop_last());
    }
}

/// Does `a` match the lower-case ASCII letter `b`, ignoring ASCII case?
fn char_eq_ignore_case(a: char, b: char) -> (r: bool)
    ensures
        r == eq_ignore_ascii_case(a, b),
{
    let au = a as u32;
    let bu = b as u32;
    au == bu || (65 <= au && au <= 90 && au + 32 == bu)
}

/// Does this file name end in one of the supported image extensions?
pub fn has_supported_extension(name: &str) -> (r: bool)
    ensures
        r == name_has_supported_ext(name@),
{
    let n = name.unicode_len();
    if n < 2 {
        return false;
    }
    // Find the last '.' that stands past the first character.
    let mut j: usize = 1;
    let mut dot: usize = 0;
    while j < n
        invariant
            1 <= j <= n,
            n == name@.len(),
            dot == 0 ==> forall|k: int| 1 <= k < j ==> name@[k] != '.',
            dot != 0 ==> 1 <= dot < j && name@[dot as int] == '.' && forall|k: int|
                dot < k < j ==> name@[k] != '.',
        decreases n - j,
    {
        if name.get_char(j) == '.' {
            dot = j;
        }
        j += 1;
    }
    if dot == 0 {
        proof {
            lemma_ext_of_no_dot(name@);
        }
        return false;
    }
    proof {
        lemma_ext_of_last_dot(name@, dot as int);
    }
    let ghost e = name@.subrange(dot as int + 1, n as int);
    let elen = n - dot - 1;
    if elen == 3 {
        let c0 = name.get_char(dot + 1);
        let c1 = name.get_char(dot + 2);
        let c2 = name.get_char(dot + 3);
        assert(c0 == e[0] && c1 == e[1] && c2 == e[2]);
        (char_eq_ignore_case(c0, 'j') && char_eq_ignore_case(c1, 'p') && char_eq_ignore_case(
            c2,
            'g',
        )) || (char_eq_ignore_case(c0, 'p') && char_eq_ignore_case(c1, 'n')
            && char_eq_ignore_case(c2, 'g')) || (char_eq_ignore_case(c0, 'b')
            && char_eq_ignore_case(c1, 'm') && char_eq_ignore_case(c2, 'p'))
    } else if elen == 4 {
        let c0 = name.get_char(dot + 1);
        let c1 = name.get_char(dot + 2);
        let c2 = name.get_char(dot + 3);
        let c3 = name.get_char(dot + 4);
        assert(c0 == e[0] && c1 == e[1] && c2 == e[2] && c3 == e[3]);
        char_eq_ignore_case(c0, 'j') && char_eq_ignore_case(c1, 'p') && char_eq_ignore_case(
            c2,
            'e',
        ) && char_eq_ignore_case(c3, 'g')
    } else {
        false
    }
}

/// The image set of a directory listing: the paths of the entries that
/// are regular files with a supported image extension, in listing
/// order. Fails with `NotADirectory` when the path was no directory,
/// and with `NoImagesFound` when no entry qualifies.
pub fn list_images(is_dir: bool, entries: &Vec<FileEntry>) -> (r: Result<
    Vec<String>,
    WallpaperError,
>)
    ensures
        !is_dir ==> r == Err::<Vec<String>, WallpaperError>(WallpaperError::NotADirectory),
        is_dir && image_paths(entries@).len() == 0 ==> r == Err::<Vec<String>, WallpaperError>(
            WallpaperError::NoImagesFound,
        ),
        is_dir && image_paths(entries@).len() > 0 ==> (r matches Ok(v) && v@ == image_paths(
            entries@,
        )),
{
    if !is_dir {
        return Err(WallpaperError::NotADirectory);
    }
    let mut out: Vec<String> = Vec::new();
    let mut i: usize = 0;
    while i < entries.len()
        invariant
            i <= entries@.len(),
            out@ == image_paths(entries@.take(i as int)),
        decreases entries@.len() - i,
    {
        let e = &entries[i];
        if e.is_file && has_supported_extension(e.name.as_str()) {
            out.push(e.path.clone());
        }
        proof {
            assert(entries@.take(i + 1).drop_last() =~= entries@.take(i as int));
            assert(entries@.take(i + 1).last() == entries@[i as int]);
        }
        i += 1;
    }
    proof {
        assert(entries@.take(entries@.len() as int) =~= entries@);
    }
    if out.len() == 0 {
        Err(WallpaperError::NoImagesFound)
    } else {
        Ok(out)
    }
}

/// In a listing where every entry qualifies, nothing is dropped: the
/// image set is exactly the entries' paths, in their listing order.
pub proof fn lemma_all_qualifying_kept(entries: Seq<FileEntry>)
    requires
        forall|i: int| 0 <= i < entries.len() ==> qualifies(#[trigger] entries[i]),
    ensures
        image_paths(entries) =~= entries.map_values(|e: FileEntry| e.path),
    decreases entries.len(),
{
    if entries.len() > 0 {
        assert(forall|i: int|
            0 <= i < entries.drop_last().len() ==> qualifies(#[trigger] entries.drop_last()[i]));
        lemma_all_qualifying_kept(entries.drop_last());
    }
}

/// Nothing foreign is ever included: every path of the image set is the
/// path of some qualifying entry of the listing.
pub proof fn lemma_only_qualifying_kept(entries: Seq<FileEntry>, k: int)
    requires
        0 <= k < image_paths(entries).len(),
    ensures
        exists|i: int|
            0 <= i < entries.len() && qualifies(#[trigger] entries[i]) && entries[i].path
                == image_paths(entries)[k],
    decreases entries.len(),
{
    let paths = image_paths(entries);
    if qualifies(entries.last()) && k == paths.len() - 1 {
        assert(entries[entries.len() - 1].path == paths[k]);
    } else {
        lemma_only_qualifying_kept(entries.drop_last(), k);
        let i = choose|i: int|
            0 <= i < entries.drop_last().len() && qualifies(#[trigger] entries.drop_last()[i])
                && entries.drop_last()[i].path == image_paths(entries.drop_last())[k];
        assert(entries[i].path == paths[k]);
    }
}

/// A listing with no qualifying entry yields an empty image set — this
/// is the case `list_images` reports as `NoImagesFound`.
pub proof fn lemma_none_qualifying_empty(entries: Seq<FileEntry>)
    requires
        forall|i: int| 0 <= i < entries.len() ==> !qualifies(#[trigger] entries[i]),
    ensures
        image_paths(entries).len() == 0,
    decreases entries.len(),
{
    if entries.len() > 0 {
        assert(forall|i: int|
            0 <= i < entries.drop_last().len() ==> !qualifies(#[trigger] entries.drop_last()[i]));
        lemma_none_qualifying_empty(entries.drop_last());
    }
}

} // verus!
