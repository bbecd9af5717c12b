//! The decisions of the file-system helpers: making sure a directory exists,
//! and copying a directory tree. The helpers themselves query and change the
//! file system; these functions decide, from what the queries reported, what
//! is to be done next.
use crate::errors::FsErrorKind;
use crate::paths::{joins_to, parent_known, path_join, path_of_text, path_parent};
use std::path::PathBuf;
use vstd::prelude::*;

verus! {

/// What making sure that a directory exists still requires.
#[derive(Debug, Clone, Copy, PartialEq, Eq, Structural)]
pub enum DirStep {
    /// Nothing exists at the path: create it, with any missing parents.
    CreateAll,
    /// The directory is already there.
    Done,
}

/// Makes sure a directory exists at a path, given whether anything exists
/// there and whether it is a directory: a missing directory is to be
/// created, an existing directory is left as it is, and anything else at the
/// path is refused as not a directory.
pub fn ensure_dir(exists: bool, is_dir: bool) -> (step: Result<DirStep, FsErrorKind>)
    ensures
        !exists ==> step == Ok::<DirStep, FsErrorKind>(DirStep::CreateAll),
        exists && is_dir ==> step == Ok::<DirStep, FsErrorKind>(DirStep::Done),
        exists && !is_dir ==> step == Err::<DirStep, FsErrorKind>(FsErrorKind::NotADirectory),
{
    if !exists {
        Ok(DirStep::CreateAll)
    } else if !is_dir {
        Err(FsErrorKind::NotADirectory)
    } else {
        Ok(DirStep::Done)
    }
}

/// Makes sure the directory that is to hold `path` exists: the directory to
/// ensure is the parent of `path`, and there is nothing to do when the path
/// has no parent (the empty path and `/` have none; a portable directory text
/// followed by `/` and a name has that directory as its parent).
pub fn ensure_parent_dir(path: &PathBuf) -> (dir: Option<PathBuf>)
    ensures
        parent_known(*path, dir),
{
    path_parent(path)
}

/// What copying an entry of a directory tree does.
#[derive(Debug)]
pub enum CopyEntry {
    /// The entry is a directory: copy its tree from `from` to `to`.
    Tree { from: PathBuf, to: PathBuf },
    /// The entry is not a directory: copy the file from `from` to `to`.
    File { from: PathBuf, to: PathBuf },
}

/// Where an entry is copied to.
pub open spec fn copy_target(copy: CopyEntry) -> PathBuf {
    match copy {
        CopyEntry::Tree { to, .. } => to,
        CopyEntry::File { to, .. } => to,
    }
}

/// Copying the tree under a directory into `to`, for one of the directory's
/// entries (its path, its name, and whether it is a directory): the entry
/// goes to `to` joined with its name, as a tree if it is a directory and as a
/// file otherwise.
pub fn copy_dir_all(to: &PathBuf, entry_path: PathBuf, entry_name: &PathBuf, is_dir: bool) -> (copy: CopyEntry)
    ensures
        is_dir ==> (copy matches CopyEntry::Tree { from, .. } && from == entry_path),
        !is_dir ==> (copy matches CopyEntry::File { from, .. } && from == entry_path),
        forall|text: Seq<char>| #![trigger path_of_text(text)]
            *entry_name == path_of_text(text) ==> joins_to(*to, text, copy_target(copy)),
{
    let target = path_join(to, entry_name);
    if is_dir {
        CopyEntry::Tree { from: entry_path, to: target }
    } else {
        CopyEntry::File { from: entry_path, to: target }
    }
}

} // verus!
