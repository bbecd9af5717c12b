//! Where the application keeps its files.
//!
//! - cache: `$XDG_CACHE_HOME/mod-manager` on Linux,
//!   `$HOME/Library/Caches/Mod Manager` on macOS,
//!   `{FOLDERID_LocalAppData}\ModManager\cache` on Windows, where the cache
//!   home and the local configuration home are the same directory; where
//!   the platform reports no cache home, `cache` in the application's
//!   directory of the configuration home;
//! - configuration: `$XDG_CONFIG_HOME/mod-manager.toml` on Linux,
//!   `config.toml` in the application's directory of the local configuration
//!   home elsewhere;
//! - interface state: `$XDG_STATE_HOME/mod-manager.ron` where the platform has a
//!   state home apart from the configuration home, `state.ron` in the
//!   application's directory of the configuration home elsewhere.
use crate::errors::CoreError;
use crate::paths::{joins_to, normalized_text, path_from_string, path_join, path_of_text, paths_equal};
use std::path::PathBuf;
use vstd::prelude::*;
use vstd::string::*;

verus! {

/// The operating system the application runs on.
#[derive(Debug, Clone, Copy, PartialEq, Eq, Structural)]
pub enum TargetOs {
    Linux,
    MacOs,
    Windows,
}

/// One of the platform's base directories.
#[derive(Debug, Clone, Copy, PartialEq, Eq, Structural)]
pub enum Home {
    Cache,
    Config,
    State,
}

/// Where a file or directory goes: a base directory and a path relative to it.
#[derive(Debug, PartialEq, Eq)]
pub struct Placement {
    pub home: Home,
    pub relative: String,
}

/// Where each of the application's files goes.
#[derive(Debug, PartialEq, Eq)]
pub struct StorageLayout {
    /// Where downloaded mods and other assets will be cached.
    pub cache_dir: Placement,
    /// Where global config values will be stored.
    pub config_file: Placement,
    /// Where app-specific state will be stored.
    pub state_file: Placement,
}

/// The name of the application's files and directories on each system.
pub open spec fn storage_id_text(os: TargetOs) -> Seq<char> {
    match os {
        TargetOs::Linux => "mod-manager"@,
        TargetOs::MacOs => "Mod Manager"@,
        TargetOs::Windows => "ModManager"@,
    }
}

/// `placement` puts a file at `relative` in the `home` base directory.
pub open spec fn placed(placement: Placement, home: Home, relative: Seq<char>) -> bool {
    placement.home == home && placement.relative@ == relative
}

/// Where the cache goes on `os`: into the cache home, named by the
/// application, when the platform reports one and keeps it apart from the
/// configuration (not on Windows); otherwise into `cache` in the
/// application's directory of the configuration home.
pub open spec fn cache_placement(os: TargetOs, has_cache_home: bool) -> (Home, Seq<char>) {
    if has_cache_home && os != TargetOs::Windows {
        (Home::Cache, storage_id_text(os))
    } else {
        (Home::Config, storage_id_text(os) + "/cache"@)
    }
}

/// Where the configuration file goes on `os`: `<id>.toml` in the
/// configuration home on Linux, `<id>/config.toml` there elsewhere.
pub open spec fn config_placement(os: TargetOs) -> (Home, Seq<char>) {
    if os == TargetOs::Linux {
        (Home::Config, storage_id_text(os) + ".toml"@)
    } else {
        (Home::Config, storage_id_text(os) + "/config.toml"@)
    }
}

/// Where the state file goes on `os`: `<id>.ron` in the state home when
/// there is one apart from the configuration home, else `<id>/state.ron` in
/// the configuration home.
pub open spec fn state_placement(os: TargetOs, separate_state_home: bool) -> (Home, Seq<char>) {
    if separate_state_home {
        (Home::State, storage_id_text(os) + ".ron"@)
    } else {
        (Home::Config, storage_id_text(os) + "/state.ron"@)
    }
}

/// The layout on `os`, given which base directories the platform reports:
/// each file goes where `cache_placement`, `config_placement` and
/// `state_placement` put it.
pub open spec fn layout_for(
    os: TargetOs,
    has_cache_home: bool,
    separate_state_home: bool,
    layout: StorageLayout,
) -> bool {
    &&& placed(layout.cache_dir, cache_placement(os, has_cache_home).0, cache_placement(os, has_cache_home).1)
    &&& placed(layout.config_file, config_placement(os).0, config_placement(os).1)
    &&& placed(
        layout.state_file,
        state_placement(os, separate_state_home).0,
        state_placement(os, separate_state_home).1,
    )
}

/// The base directory of `home`, given the directories the platform
/// reported; one that it did not report falls back to the configuration home.
pub open spec fn base_of(
    home: Home,
    cache_home: Option<PathBuf>,
    config_home: PathBuf,
    state_home: Option<PathBuf>,
) -> PathBuf {
    match home {
        Home::Cache => match cache_home {
            Some(h) => h,
            None => config_home,
        },
        Home::Config => config_home,
        Home::State => match state_home {
            Some(h) => h,
            None => config_home,
        },
    }
}

/// `storage` holds each file at its base directory joined with its relative
/// path, as the layout on `os` places them, with the state home counted as
/// separate or not (`separate` only where there is a state home and it is not
/// the configuration home).
pub open spec fn paths_follow(
    os: TargetOs,
    cache_home: Option<PathBuf>,
    config_home: PathBuf,
    state_home: Option<PathBuf>,
    separate: bool,
    storage: Storage,
) -> bool {
    let cache = cache_placement(os, cache_home is Some);
    let config = config_placement(os);
    let state = state_placement(os, separate);
    &&& separate ==> (state_home is Some && state_home->0 != config_home)
    &&& joins_to(base_of(cache.0, cache_home, config_home, state_home), cache.1, storage.cache_dir)
    &&& joins_to(base_of(config.0, cache_home, config_home, state_home), config.1, storage.config_file)
    &&& joins_to(base_of(state.0, cache_home, config_home, state_home), state.1, storage.state_file)
}

/// The paths of the application's files.
#[derive(Debug)]
pub struct Storage {
    /// Where downloaded mods and other assets will be cached.
    pub cache_dir: PathBuf,
    /// Where global config values will be stored.
    pub config_file: PathBuf,
    /// Where app-specific state will be stored.
    pub state_file: PathBuf,
}

impl Storage {
    /// The name of the application's files and directories on `os`.
    pub fn storage_id(os: TargetOs) -> (id: &'static str)
        ensures
            id@ == storage_id_text(os),
            os == TargetOs::Linux ==> id@ == "mod-manager"@,
            os == TargetOs::MacOs ==> id@ == "Mod Manager"@,
            os == TargetOs::Windows ==> id@ == "ModManager"@,
    {
        match os {
            TargetOs::Linux => "mod-manager",
            TargetOs::MacOs => "Mod Manager",
            TargetOs::Windows => "ModManager",
        }
    }

    /// Where each file goes on `os`: refused when the platform reports no
    /// configuration home, laid out as `layout_for` says otherwise.
    pub fn layout(
        os: TargetOs,
        has_cache_home: bool,
        has_config_home: bool,
        separate_state_home: bool,
    ) -> (result: Result<StorageLayout, CoreError>)
        ensures
            !has_config_home <==> result == Err::<StorageLayout, CoreError>(CoreError::MissingConfigHome),
            has_config_home <==> result is Ok,
            result matches Ok(layout) ==> layout_for(os, has_cache_home, separate_state_home, layout),
            has_config_home && has_cache_home && os != TargetOs::Windows ==> (result matches Ok(layout)
                && layout.cache_dir.home == Home::Cache && layout.cache_dir.relative@ == storage_id_text(os)),
    {
        if !has_config_home {
            return Err(CoreError::MissingConfigHome);
        }
        let id = Self::storage_id(os);
        let cache_dir = if has_cache_home && os != TargetOs::Windows {
            Placement { home: Home::Cache, relative: String::from_str(id) }
        } else {
            Placement { home: Home::Config, relative: String::from_str(id).concat("/cache") }
        };
        let config_file = if os == TargetOs::Linux {
            Placement { home: Home::Config, relative: String::from_str(id).concat(".toml") }
        } else {
            Placement { home: Home::Config, relative: String::from_str(id).concat("/config.toml") }
        };
        let state_file = if separate_state_home {
            Placement { home: Home::State, relative: String::from_str(id).concat(".ron") }
        } else {
            Placement { home: Home::Config, relative: String::from_str(id).concat("/state.ron") }
        };
        Ok(StorageLayout { cache_dir, config_file, state_file })
    }

    /// The paths of the application's files on `os`, given the base
    /// directories that the platform reports: refused when it reports no
    /// configuration home; otherwise each path is its base directory joined
    /// with its relative path, as `layout` places them (the state home counts
    /// as separate when it is present and not equal to the configuration home,
    /// which it is when both are normalized portable texts that differ; which
    /// other differing paths `==` still counts equal is left to the target).
    pub fn new(
        os: TargetOs,
        cache_home: Option<PathBuf>,
        config_home: Option<PathBuf>,
        state_home: Option<PathBuf>,
    ) -> (result: Result<Storage, CoreError>)
        ensures
            config_home is None <==> result == Err::<Storage, CoreError>(CoreError::MissingConfigHome),
            config_home is Some <==> result is Ok,
            result matches Ok(storage) ==> paths_follow(os, cache_home, config_home->0, state_home, false, storage)
                || paths_follow(os, cache_home, config_home->0, state_home, true, storage),
            cache_home is Some && config_home is Some && os != TargetOs::Windows ==> (result matches Ok(storage)
                && joins_to(cache_home->0, storage_id_text(os), storage.cache_dir)),
            forall|state_text: Seq<char>, config_text: Seq<char>|
                #![trigger path_of_text(state_text), path_of_text(config_text)]
                state_home == Some(path_of_text(state_text)) && config_home == Some(path_of_text(config_text))
                    && normalized_text(state_text) && normalized_text(config_text) && state_text != config_text
                    ==> (result matches Ok(storage)
                        && paths_follow(os, cache_home, config_home->0, state_home, true, storage)),
    {
        let config_home = match config_home {
            Some(home) => home,
            None => return Err(CoreError::MissingConfigHome),
        };
        let separate_state_home = match &state_home {
            Some(state) => !paths_equal(state, &config_home),
            None => false,
        };
        let layout = match Self::layout(os, cache_home.is_some(), true, separate_state_home) {
            Ok(layout) => layout,
            Err(e) => return Err(e),
        };
        let cache_dir = Self::place(layout.cache_dir, &cache_home, &config_home, &state_home);
        let config_file = Self::place(layout.config_file, &cache_home, &config_home, &state_home);
        let state_file = Self::place(layout.state_file, &cache_home, &config_home, &state_home);
        Ok(Storage { cache_dir, config_file, state_file })
    }

    /// The path of a placement: its base directory joined with its relative
    /// path. A base directory that the platform did not report falls back to
    /// the configuration home (the layout never places anything there).
    fn place(
        placement: Placement,
        cache_home: &Option<PathBuf>,
        config_home: &PathBuf,
        state_home: &Option<PathBuf>,
    ) -> (path: PathBuf)
        ensures
            joins_to(
                base_of(placement.home, *cache_home, *config_home, *state_home),
                placement.relative@,
                path,
            ),
    {
        let rel = path_from_string(placement.relative);
        let base = match placement.home {
            Home::Cache => match cache_home {
                Some(home) => home,
                None => config_home,
            },
            Home::Config => config_home,
            Home::State => match state_home {
                Some(home) => home,
                None => config_home,
            },
        };
        path_join(base, &rel)
    }
}

/// Where the platform reports a cache home and keeps it apart from the
/// configuration (Linux and macOS), the cache lives in that cache home,
/// under the application's name; on Windows it lives in `cache` of the
/// application's directory, whatever the platform reports.
pub proof fn lemma_cache_in_cache_home(os: TargetOs, has_cache_home: bool, separate: bool, layout: StorageLayout)
    requires
        layout_for(os, has_cache_home, separate, layout),
    ensures
        has_cache_home && os != TargetOs::Windows ==> layout.cache_dir.home == Home::Cache
            && layout.cache_dir.relative@ == storage_id_text(os),
        os == TargetOs::Windows ==> layout.cache_dir.home == Home::Config
            && layout.cache_dir.relative@ == "ModManager"@ + "/cache"@,
        !has_cache_home ==> layout.cache_dir.home == Home::Config,
{
}

} // verus!
