//! Mods: what they are, where they come from, and how a mod from the local
//! file system is taken into a game's staging directory.
use crate::clock::now_utc;
use crate::errors::FsErrorKind;
use crate::ids::{default_id, id_to_string, new_random_id, uuid_text};
use crate::paths::{
    file_name_known, joins_to, path_clone, path_file_name, path_from_string, path_join, path_of_text,
};
use chrono::NaiveDateTime;
use std::path::PathBuf;
use vstd::prelude::*;

verus! {

/// Whether an identifier has the shape of a random (version 4) UUID: version
/// nibble 4 and variant bits `10`.
pub open spec fn is_random_id(id: u128) -> bool {
    &&& (id >> 76u128) & 15u128 == 4
    &&& (id >> 62u128) & 3u128 == 2
}

/// Where a mod's files come from.
#[derive(Debug, Default, PartialEq)]
pub enum SourceKind {
    /// Local file system path.
    Local(PathBuf),
    /// Remote resource on the web.
    Remote(String),
    /// Default fallback value.
    #[default]
    Unknown,
}

/// A mod installed for a game.
pub struct Mod {
    pub id: u128,
    pub name: String,
    pub source: SourceKind,
    pub version: Option<String>,
    pub installed_at: NaiveDateTime,
    pub updated_at: Option<NaiveDateTime>,
}

/// What the file system reports about the path a local mod is taken from.
#[derive(Debug, Clone, Copy, PartialEq, Eq, Structural)]
pub enum SourceProbe {
    /// Nothing exists at the path.
    Missing,
    /// A regular file.
    File,
    /// A directory.
    Directory,
    /// Something that is neither.
    Other,
}

impl SourceProbe {
    /// What the file system reports about a source path, from whether
    /// anything exists there, whether it is a regular file and whether it is a
    /// directory (a path that is a file counts as a file).
    pub fn classify(exists: bool, is_file: bool, is_dir: bool) -> (probe: SourceProbe)
        ensures
            !exists ==> probe == SourceProbe::Missing,
            exists && is_file ==> probe == SourceProbe::File,
            exists && !is_file && is_dir ==> probe == SourceProbe::Directory,
            exists && !is_file && !is_dir ==> probe == SourceProbe::Other,
    {
        if !exists {
            SourceProbe::Missing
        } else if is_file {
            SourceProbe::File
        } else if is_dir {
            SourceProbe::Directory
        } else {
            SourceProbe::Other
        }
    }
}

/// The copy that takes a local mod into the staging directory.
#[derive(Debug)]
pub enum LocalCopy {
    /// Make sure `dest_dir` exists as a directory, then copy the source file
    /// to `dest_file`, which is `dest_dir` joined with the source's file name.
    File { dest_dir: PathBuf, dest_file: PathBuf },
    /// Copy the whole source directory tree to `dest_dir`.
    Directory { dest_dir: PathBuf },
}

/// A planned import of a local mod: the mod's identifier, the directory in
/// the staging area that will hold its files, and the copy to perform.
#[derive(Debug)]
pub struct LocalImport {
    pub id: u128,
    pub dest_dir: PathBuf,
    pub copy: LocalCopy,
}

/// What planning an import of a local mod gives, for a source of the kind
/// `probe` whose final path component is `file_name`: a missing source is
/// refused as not found, one that is neither a file nor a directory as
/// invalid input; otherwise the mod gets the nil identifier, its directory is
/// the staging directory joined with the text of that identifier, and the
/// copy matches the source: a file goes into that directory under its own
/// name, a directory tree becomes that directory.
pub open spec fn import_planned(
    staging_dir: PathBuf,
    probe: SourceProbe,
    file_name: Option<PathBuf>,
    result: Result<LocalImport, FsErrorKind>,
) -> bool {
    match probe {
        SourceProbe::Missing => result == Err::<LocalImport, FsErrorKind>(FsErrorKind::NotFound),
        SourceProbe::Other => result == Err::<LocalImport, FsErrorKind>(FsErrorKind::InvalidInput),
        SourceProbe::File => match result {
            Ok(plan) => plan.id == 0 && joins_to(staging_dir, uuid_text(plan.id), plan.dest_dir)
                && match plan.copy {
                LocalCopy::File { dest_dir, dest_file } => dest_dir == plan.dest_dir
                    && forall|text: Seq<char>| #![trigger path_of_text(text)]
                        file_name == Some(path_of_text(text)) ==> joins_to(plan.dest_dir, text, dest_file),
                LocalCopy::Directory { .. } => false,
            },
            Err(_) => false,
        },
        SourceProbe::Directory => match result {
            Ok(plan) => plan.id == 0 && joins_to(staging_dir, uuid_text(plan.id), plan.dest_dir)
                && match plan.copy {
                LocalCopy::Directory { dest_dir } => dest_dir == plan.dest_dir,
                LocalCopy::File { .. } => false,
            },
            Err(_) => false,
        },
    }
}

impl Mod {
    /// A new mod record, installed now: the given identifier, or a fresh
    /// random one when none is given.
    pub fn new(id: Option<u128>, name: String, source: SourceKind, version: Option<String>) -> (m: Mod)
        ensures
            id matches Some(given) ==> m.id == given,
            id is None ==> is_random_id(m.id),
            m.name == name,
            m.source == source,
            m.version == version,
            m.updated_at is None,
    {
        let id = match id {
            Some(given) => given,
            None => new_random_id(),
        };
        Mod {
            id,
            name,
            source,
            version,
            installed_at: now_utc(),
            updated_at: None,
        }
    }

    /// Plans the import of a local mod once the source's final path component
    /// (`file_name`) is known: the directory for its files is the staging
    /// directory joined with the text of the nil identifier.
    pub fn plan_import_named(
        staging_dir: &PathBuf,
        probe: SourceProbe,
        file_name: Option<PathBuf>,
    ) -> (result: Result<LocalImport, FsErrorKind>)
        requires
            probe == SourceProbe::File ==> file_name is Some,
        ensures
            import_planned(*staging_dir, probe, file_name, result),
    {
        if probe == SourceProbe::Missing {
            return Err(FsErrorKind::NotFound);
        }
        let id = default_id();
        let dest_dir = path_join(staging_dir, &path_from_string(id_to_string(id)));
        match probe {
            SourceProbe::File => {
                let name = file_name.unwrap();
                let dest_file = path_join(&dest_dir, &name);
                let copy = LocalCopy::File { dest_dir: path_clone(&dest_dir), dest_file };
                Ok(LocalImport { id, dest_dir, copy })
            },
            SourceProbe::Directory => {
                let copy = LocalCopy::Directory { dest_dir: path_clone(&dest_dir) };
                Ok(LocalImport { id, dest_dir, copy })
            },
            _ => Err(FsErrorKind::InvalidInput),
        }
    }

    /// Plans the import of a local mod from `source_path`, of which the file
    /// system reported `probe`, into `staging_dir`.
    ///
    /// `None` when the source is a file whose path has no final component to
    /// name the copy by; otherwise the plan as `plan_import_named` makes it,
    /// with the source's final component as the copy's name.
    pub fn plan_import(
        staging_dir: &PathBuf,
        source_path: &PathBuf,
        probe: SourceProbe,
    ) -> (result: Option<Result<LocalImport, FsErrorKind>>)
        ensures
            result is None ==> probe == SourceProbe::File && file_name_known(*source_path, None),
            probe == SourceProbe::File ==> (result matches Some(planned) ==> exists|name: Option<PathBuf>|
                #[trigger] file_name_known(*source_path, name) && import_planned(*staging_dir, probe, name, planned)),
            probe != SourceProbe::File ==> (result matches Some(planned)
                && import_planned(*staging_dir, probe, None, planned)),
    {
        if probe == SourceProbe::File {
            let file_name = path_file_name(source_path);
            if file_name.is_none() {
                return None;
            }
            Some(Self::plan_import_named(staging_dir, probe, file_name))
        } else {
            Some(Self::plan_import_named(staging_dir, probe, None))
        }
    }

    /// The mod record of a completed local import: it has the import's
    /// identifier and its files in the import's directory.
    pub fn from_local(import: LocalImport, name: String, version: Option<String>) -> (m: Mod)
        ensures
            m.id == import.id,
            m.name == name,
            m.source == SourceKind::Local(import.dest_dir),
            m.version == version,
            m.updated_at is None,
    {
        let LocalImport { id, dest_dir, copy: _ } = import;
        Self::new(Some(id), name, SourceKind::Local(dest_dir), version)
    }
}

} // verus!
