//! Deployers: how the mods of a game are put into its target directory.
use std::path::PathBuf;
use vstd::prelude::*;

verus! {

/// A deployer of a game: which mods it deploys, in which order, where, and how.
pub struct Deployer {
    pub id: u128,
    pub name: String,
    pub method: DeployerMethod,
    /// Identifiers of the mods to deploy, in deployment order.
    pub mod_order: Vec<u128>,
    pub target_dir: PathBuf,
}

/// How a deployer puts a mod's files in place.
#[derive(Debug, Default, Clone, Copy, PartialEq, Eq, Structural)]
pub enum DeployerMethod {
    #[default]
    Symlink,
    Hardlink,
    Copy,
}

} // verus!
