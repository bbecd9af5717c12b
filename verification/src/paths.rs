//! File-system paths, carried as `std::path::PathBuf`.
//!
//! What a path operation of std gives depends on the target's path rules
//! (its separator and, on Windows, drive and verbatim prefixes), so the
//! operations below promise only what holds on every target: mostly of
//! portable texts, which every target parses alike.
use std::path::PathBuf;
use vstd::prelude::*;

verus! {

#[verifier::external_type_specification]
#[verifier::external_body]
pub struct ExPathBuf(std::path::PathBuf);

/// The path that `PathBuf::from` makes of a text.
pub uninterp spec fn path_of_text(text: Seq<char>) -> PathBuf;

/// The path made of a text, by `PathBuf::from(String)`, which takes the
/// string's bytes over unchanged.
#[verifier::external_body]
pub(crate) fn path_from_string(text: String) -> (path: PathBuf)
    ensures
        path == path_of_text(text@),
{
    PathBuf::from(text)
}

/// A text that every target parses with `/` as its only separator and with
/// no drive or network prefix: it holds no backslash and no colon, and does
/// not start with two slashes.
pub open spec fn portable_text(text: Seq<char>) -> bool {
    &&& forall|i: int| 0 <= i < text.len() ==> text[i] != '\\' && text[i] != ':'
    &&& !(text.len() >= 2 && text[0] == '/' && text[1] == '/')
}

/// A directory text that a join extends with a separator: portable,
/// not empty, and not ending with `/`.
pub open spec fn joinable_base(text: Seq<char>) -> bool {
    text.len() > 0 && portable_text(text) && text.last() != '/'
}

/// A relative path text: portable, not empty, and not starting with `/`.
pub open spec fn relative_text(text: Seq<char>) -> bool {
    text.len() > 0 && portable_text(text) && text[0] != '/'
}

/// A single normal path component: portable, not empty, without `/`, and
/// neither `.` nor `..`.
pub open spec fn plain_name(text: Seq<char>) -> bool {
    &&& text.len() > 0
    &&& portable_text(text)
    &&& forall|i: int| 0 <= i < text.len() ==> text[i] != '/'
    &&& text != "."@
    &&& text != ".."@
}

/// A directory text whose final component is a normal name: joinable, and
/// not ending with `.`.
pub open spec fn named_dir(text: Seq<char>) -> bool {
    joinable_base(text) && text.last() != '.'
}

/// The text of `dir` with `name` adjoined after a `/`.
pub open spec fn child_text(dir: Seq<char>, name: Seq<char>) -> Seq<char> {
    dir + seq!['/'] + name
}

/// `joined` is `base` with the relative text `rel` adjoined: when `base` is
/// the path of a joinable text, `joined` is the path of that text, then the
/// target's separator (`/`, or `\` on Windows), then `rel`; when `base` is
/// the path of a portable text that already ends with `/`, `joined` is the
/// path of that text followed by `rel`.
pub open spec fn joins_to(base: PathBuf, rel: Seq<char>, joined: PathBuf) -> bool {
    forall|text: Seq<char>| #![trigger path_of_text(text)]
        base == path_of_text(text) && relative_text(rel) ==> {
            &&& joinable_base(text) ==> (joined == path_of_text(text + seq!['/'] + rel)
                || joined == path_of_text(text + seq!['\\'] + rel))
            &&& (text.len() > 0 && portable_text(text) && text.last() == '/')
                ==> joined == path_of_text(text + rel)
        }
}

/// `Path::join`: `rel` adjoined to `base`.
///
/// Stated, as std documents for `PathBuf::push` ("pushing a relative path
/// extends the existing path", `/tmp` with `file.bk` giving `/tmp/file.bk`)
/// and for `MAIN_SEPARATOR` (`/` on Unix, `\` on Windows): a portable
/// relative text adjoined to a portable directory text gives the directory,
/// one separator of the target unless the directory text already ends with
/// `/`, and the relative text. Not stated: any other join (an absolute or
/// prefixed `rel`, a base with a drive or network prefix), which the target's
/// path rules decide.
#[verifier::external_body]
pub(crate) fn path_join(base: &PathBuf, rel: &PathBuf) -> (joined: PathBuf)
    ensures
        forall|r: Seq<char>| #![trigger path_of_text(r)] *rel == path_of_text(r) ==> joins_to(*base, r, joined),
{
    base.join(rel)
}

/// A portable text that names its path in one way only: not empty, no
/// trailing `/`, no repeated `/`, and no `.` component. std's
/// `Path::components` ignores repeated separators, a trailing separator and
/// `.` components after the first, and nothing else, so two such texts that
/// differ have different components.
pub open spec fn normalized_text(text: Seq<char>) -> bool {
    &&& text.len() > 0
    &&& portable_text(text)
    &&& text.last() != '/'
    &&& forall|i: int| 0 <= i < text.len() - 1 ==> !(#[trigger] text[i] == '/' && text[i + 1] == '/')
    &&& forall|i: int| 0 <= i < text.len() && #[trigger] text[i] == '.'
        ==> !((i == 0 || text[i - 1] == '/') && (i + 1 == text.len() || text[i + 1] == '/'))
}

/// `PathBuf`'s `==`, which compares two paths component by component.
///
/// Stated: a path equals itself; and, since paths compare by their
/// components, the paths of two different normalized portable texts are not
/// equal. Not stated: when two other different values still compare equal
/// (such as `a/b` and `a//b`), which the target's parsing decides.
#[verifier::external_body]
pub(crate) fn paths_equal(a: &PathBuf, b: &PathBuf) -> (eq: bool)
    ensures
        *a == *b ==> eq,
        forall|ta: Seq<char>, tb: Seq<char>| #![trigger path_of_text(ta), path_of_text(tb)]
            *a == path_of_text(ta) && *b == path_of_text(tb) && normalized_text(ta) && normalized_text(tb)
                && ta != tb ==> !eq,
{
    a == b
}

/// What is known of the parent `parent` of `path` on every target.
pub open spec fn parent_known(path: PathBuf, parent: Option<PathBuf>) -> bool {
    &&& path == path_of_text(Seq::empty()) ==> parent is None
    &&& path == path_of_text(seq!['/']) ==> parent is None
    &&& forall|name: Seq<char>| #![trigger path_of_text(name)]
        plain_name(name) && path == path_of_text(name) ==> parent == Some(path_of_text(Seq::empty()))
    &&& forall|dir: Seq<char>, name: Seq<char>| #![trigger path_of_text(child_text(dir, name))]
        named_dir(dir) && plain_name(name) && path == path_of_text(child_text(dir, name))
            ==> parent == Some(path_of_text(dir))
}

/// `Path::parent`, as an owned path.
///
/// Stated, as std documents ("the Path without its final component, if there
/// is one"; `Some("")` for a relative path with one component; `None` for
/// the empty path and for a path that ends in a root): the empty path and `/`
/// have no parent, a single normal name has the empty path as its parent,
/// and a portable directory text followed by `/` and a normal name has that
/// directory as its parent. Not stated: the parent of any other path, which
/// the target's path rules decide.
#[verifier::external_body]
pub(crate) fn path_parent(path: &PathBuf) -> (parent: Option<PathBuf>)
    ensures
        parent_known(*path, parent),
{
    match path.parent() {
        Some(p) => Some(p.to_path_buf()),
        None => None,
    }
}

/// What is known of the final component `name` of `path` on every target.
pub open spec fn file_name_known(path: PathBuf, name: Option<PathBuf>) -> bool {
    &&& path == path_of_text(Seq::empty()) ==> name is None
    &&& forall|text: Seq<char>| #![trigger path_of_text(text)]
        plain_name(text) && path == path_of_text(text) ==> name == Some(path_of_text(text))
    &&& forall|dir: Seq<char>, text: Seq<char>| #![trigger path_of_text(child_text(dir, text))]
        joinable_base(dir) && plain_name(text) && path == path_of_text(child_text(dir, text))
            ==> name == Some(path_of_text(text))
}

/// `Path::file_name`, as an owned path.
///
/// Stated, as std documents ("the final component of the Path, if there is
/// one"): the empty path has none; a single normal name, and a portable
/// directory text followed by `/` and a normal name, have that name. Not
/// stated: the final component of any other path, which the target's path
/// rules decide.
#[verifier::external_body]
pub(crate) fn path_file_name(path: &PathBuf) -> (name: Option<PathBuf>)
    ensures
        file_name_known(*path, name),
{
    match path.file_name() {
        Some(n) => Some(PathBuf::from(n)),
        None => None,
    }
}

/// A copy of a path, by `PathBuf::clone`.
#[verifier::external_body]
pub(crate) fn path_clone(path: &PathBuf) -> (copy: PathBuf)
    ensures
        copy == *path,
{
    path.clone()
}

} // verus!
