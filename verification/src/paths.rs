//! Names: which entries of a directory are pictures, and where the results
//! of a run go.

use vstd::prelude::*;

verus! {

/// The character that separates the components of a path.
pub const SEPARATOR: char = '/';

/// Why a source directory cannot be used.
#[derive(Clone, Copy, Debug, PartialEq, Eq, Structural)]
pub enum PathError {
    /// Nothing exists at the path.
    Missing,
    /// What exists at the path is not a directory.
    NotADirectory,
    /// The path ends in no name that a sibling could be named after.
    Unnamed,
}

/// What the file system holds at a path.
#[derive(Clone, Copy, Debug, PartialEq, Eq, Structural)]
pub enum PathKind {
    /// Nothing.
    Absent,
    /// A directory.
    Directory,
    /// Anything else.
    Other,
}

/// An ASCII capital letter as its small letter; any other character as
/// itself.
pub open spec fn fold_case(c: char) -> char {
    if 'A' <= c && c <= 'Z' {
        ((c as u32) + 32) as char
    } else {
        c
    }
}

/// `text` with each ASCII capital as its small letter.
pub open spec fn folded(text: Seq<char>) -> Seq<char> {
    text.map_values(|c: char| fold_case(c))
}

/// Whether `text` ends in `suffix`.
pub open spec fn ends_with(text: Seq<char>, suffix: Seq<char>) -> bool {
    suffix.len() <= text.len() && text.skip(text.len() - suffix.len()) == suffix
}

/// Whether `name` ends in `suffix`, capitals and small letters of ASCII taken
/// as the same.
pub open spec fn ends_with_ignoring_case(name: Seq<char>, suffix: Seq<char>) -> bool {
    ends_with(folded(name), folded(suffix))
}

/// Whether `name` has one of the extensions of a picture: `.jpg`, `.jpeg`,
/// `.png` or `.webp`, in capitals or small letters.
pub open spec fn is_picture_name(name: Seq<char>) -> bool {
    ||| ends_with_ignoring_case(name, ".jpg"@)
    ||| ends_with_ignoring_case(name, ".jpeg"@)
    ||| ends_with_ignoring_case(name, ".png"@)
    ||| ends_with_ignoring_case(name, ".webp"@)
}

/// How many characters of `path` stand before its last component: the place
/// just after the last separator, or zero where there is none.
pub open spec fn name_start(path: Seq<char>) -> int
    decreases path.len(),
{
    if path.len() == 0 {
        0
    } else if path.last() == SEPARATOR {
        path.len() as int
    } else {
        name_start(path.drop_last())
    }
}

/// The last component of `path`: what follows its last separator.
pub open spec fn file_name(path: Seq<char>) -> Seq<char> {
    path.skip(name_start(path))
}

/// `path` without the separators at its end.
pub open spec fn without_trailing_separators(path: Seq<char>) -> Seq<char>
    decreases path.len(),
{
    if path.len() > 0 && path.last() == SEPARATOR {
        without_trailing_separators(path.drop_last())
    } else {
        path
    }
}

/// Whether `name` can name a directory: it is not empty and is neither `.`
/// nor `..`.
pub open spec fn is_plain_name(name: Seq<char>) -> bool {
    name.len() > 0 && name != seq!['.'] && name != seq!['.', '.']
}

/// The directory that receives the results for the directory `source`: its
/// sibling with ` - adjusted` added to the name.
pub open spec fn target_dir(source: Seq<char>) -> Seq<char> {
    source + " - adjusted"@
}

/// The file that receives the result for `source_path` inside `target`: the
/// name of the source with `adjusted - ` before it.
pub open spec fn output_path(target: Seq<char>, source_path: Seq<char>) -> Seq<char> {
    target + "/adjusted - "@ + file_name(source_path)
}

/// The last component of a path starts inside the path, follows a separator
/// or starts the path, and holds no separator itself.
pub proof fn name_start_is_after_last_separator(path: Seq<char>)
    ensures
        0 <= name_start(path) <= path.len(),
        name_start(path) > 0 ==> path[name_start(path) - 1] == SEPARATOR,
        forall|k: int| name_start(path) <= k < path.len() ==> path[k] != SEPARATOR,
    decreases path.len(),
{
    if path.len() > 0 && path.last() != SEPARATOR {
        let front = path.drop_last();
        name_start_is_after_last_separator(front);
        assert forall|k: int| name_start(path) <= k < path.len() implies path[k]
            != SEPARATOR by {
            if k < front.len() {
                assert(front[k] == path[k]);
            }
        }
    }
}

/// The code point of `c`, or of its small letter where `c` is an ASCII
/// capital.
fn fold(c: char) -> (code: u32)
    ensures
        code == fold_case(c) as u32,
{
    if 'A' <= c && c <= 'Z' {
        c as u32 + 32
    } else {
        c as u32
    }
}

/// Tells whether two characters are the same letter, capitals and small
/// letters of ASCII taken as the same.
fn same_letter(a: char, b: char) -> (same: bool)
    ensures
        same == (fold_case(a) == fold_case(b)),
{
    fold(a) == fold(b)
}

/// Tells whether `name` ends in `suffix`, capitals and small letters of ASCII
/// taken as the same.
pub fn has_suffix_ignoring_case(name: &str, suffix: &str) -> (found: bool)
    ensures
        found == ends_with_ignoring_case(name@, suffix@),
{
    let name_len: usize = name.unicode_len();
    let suffix_len: usize = suffix.unicode_len();
    if suffix_len > name_len {
        return false;
    }
    let shift: usize = name_len - suffix_len;
    let ghost tail = folded(name@).skip(shift as int);
    let mut k: usize = 0;
    while k < suffix_len
        invariant
            name_len == name@.len(),
            suffix_len == suffix@.len(),
            shift == name_len - suffix_len,
            tail == folded(name@).skip(shift as int),
            k <= suffix_len,
            forall|j: int| 0 <= j < k ==> tail[j] == folded(suffix@)[j],
        decreases suffix_len - k,
    {
        if !same_letter(name.get_char(shift + k), suffix.get_char(k)) {
            assert(tail[k as int] != folded(suffix@)[k as int]);
            return false;
        }
        k += 1;
    }
    assert(tail =~= folded(suffix@));
    true
}

/// Tells whether `name` has one of the extensions of a picture.
pub fn is_image_name(name: &str) -> (eligible: bool)
    ensures
        eligible == is_picture_name(name@),
{
    has_suffix_ignoring_case(name, ".jpg") || has_suffix_ignoring_case(name, ".jpeg")
        || has_suffix_ignoring_case(name, ".png") || has_suffix_ignoring_case(name, ".webp")
}

/// Gives the last component of `path`: what follows its last separator.
pub fn file_name_of(path: &str) -> (name: String)
    ensures
        name@ == file_name(path@),
{
    let len: usize = path.unicode_len();
    let mut start: usize = 0;
    let mut i: usize = 0;
    while i < len
        invariant
            len == path@.len(),
            i <= len,
            start == name_start(path@.take(i as int)),
        decreases len - i,
    {
        proof {
            let longer = path@.take(i + 1);
            assert(longer.drop_last() == path@.take(i as int));
            assert(longer.last() == path@[i as int]);
        }
        if path.get_char(i) == SEPARATOR {
            start = i + 1;
        }
        i += 1;
    }
    proof {
        assert(path@.take(len as int) == path@);
        name_start_is_after_last_separator(path@);
        assert(path@.subrange(start as int, len as int) == path@.skip(start as int));
    }
    String::from_str(path.substring_char(start, len))
}

/// Gives `path` without the separators at its end.
pub fn trim_trailing_separators(path: &str) -> (trimmed: &str)
    ensures
        trimmed@ == without_trailing_separators(path@),
{
    let mut end: usize = path.unicode_len();
    assert(path@.take(end as int) == path@);
    loop
        invariant
            end <= path@.len(),
            without_trailing_separators(path@) == without_trailing_separators(
                path@.take(end as int),
            ),
        ensures
            end == 0 || path@[end - 1] != SEPARATOR,
        decreases end,
    {
        if end == 0 {
            break ;
        }
        if path.get_char(end - 1) != SEPARATOR {
            break ;
        }
        proof {
            let kept = path@.take(end as int);
            assert(kept.last() == path@[end - 1]);
            assert(kept.drop_last() == path@.take(end - 1));
        }
        end -= 1;
    }
    proof {
        let kept = path@.take(end as int);
        if end > 0 {
            assert(kept.last() == path@[end - 1]);
        }
        assert(without_trailing_separators(kept) == kept);
        assert(path@.subrange(0, end as int) == kept);
    }
    path.substring_char(0, end)
}

/// Whether `path` begins with the shorthand for the home directory: a tilde
/// that ends the path or is followed by a separator.
pub open spec fn has_home_shorthand(path: Seq<char>) -> bool {
    &&& path.len() > 0
    &&& path[0] == '~'
    &&& (path.len() == 1 || path[1] == '/' || path[1] == '\\')
}

/// Whether `resolved` can be what `raw`, a path as a user wrote it, stands
/// for: `raw` without the separators at its end, and with the home directory,
/// whatever it is, in place of a leading shorthand for it.
pub open spec fn resolves_to(raw: Seq<char>, resolved: Seq<char>) -> bool {
    let trimmed = without_trailing_separators(raw);
    if has_home_shorthand(trimmed) {
        ends_with(resolved, trimmed.skip(1))
    } else {
        resolved == trimmed
    }
}

/// Calls `shellexpand::tilde`, which puts the home directory of the user who
/// runs the program in place of a leading tilde.
///
/// Trusted: a path that does not begin with the shorthand comes back as it
/// is. One that does comes back as it is too, where no home directory is
/// known or the platform does not take the character after the tilde for a
/// separator, or else with the tilde replaced: either way what followed the
/// tilde still ends the result.
#[verifier::external_body]
fn expand_home(path: &str) -> (expanded: String)
    ensures
        !has_home_shorthand(path@) ==> expanded@ == path@,
        has_home_shorthand(path@) ==> ends_with(expanded@, path@.skip(1)),
{
    shellexpand::tilde(path).into_owned()
}

/// Resolves a source directory as a user wrote it: drops the separators at
/// its end and expands a leading shorthand for the home directory.
pub fn resolve_source_dir(raw: &str) -> (resolved: String)
    ensures
        resolves_to(raw@, resolved@),
{
    expand_home(trim_trailing_separators(raw))
}

/// Accepts a source only where the file system holds a directory at its
/// path.
pub fn check_source(kind: PathKind) -> (checked: Result<(), PathError>)
    ensures
        kind == PathKind::Directory <==> checked == Ok::<(), PathError>(()),
        kind == PathKind::Absent <==> checked == Err::<(), PathError>(PathError::Missing),
        kind == PathKind::Other <==> checked == Err::<(), PathError>(PathError::NotADirectory),
{
    match kind {
        PathKind::Directory => Ok(()),
        PathKind::Absent => Err(PathError::Missing),
        PathKind::Other => Err(PathError::NotADirectory),
    }
}

/// Tells whether `name` can name a directory.
fn names_a_directory(name: &str) -> (plain: bool)
    ensures
        plain == is_plain_name(name@),
{
    let len: usize = name.unicode_len();
    if len == 0 {
        false
    } else if len == 1 {
        let only = name.get_char(0);
        assert(name@ =~= seq![only]);
        only != '.'
    } else if len == 2 {
        let first = name.get_char(0);
        let second = name.get_char(1);
        assert(name@ =~= seq![first, second]);
        !(first == '.' && second == '.')
    } else {
        true
    }
}

/// Derives the directory that receives the results for the directory
/// `source`: its sibling with ` - adjusted` added to the name. Fails where
/// `source` ends in no name of a directory.
pub fn target_dir_for(source: &str) -> (target: Result<String, PathError>)
    ensures
        is_plain_name(file_name(source@)) ==> target.is_ok() && target.unwrap()@ == target_dir(
            source@,
        ),
        !is_plain_name(file_name(source@)) ==> target == Err::<String, PathError>(
            PathError::Unnamed,
        ),
{
    let name = file_name_of(source);
    if names_a_directory(name.as_str()) {
        Ok(String::from_str(source).concat(" - adjusted"))
    } else {
        Err(PathError::Unnamed)
    }
}

/// Derives the file that receives the result for `source_path` inside the
/// directory `target`.
pub fn output_path_for(target: &str, source_path: &str) -> (path: String)
    ensures
        path@ == output_path(target@, source_path@),
{
    let name = file_name_of(source_path);
    String::from_str(target).concat("/adjusted - ").concat(name.as_str())
}

} // verus!
