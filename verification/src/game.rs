//! Games managed by the application.
use crate::deployers::Deployer;
use crate::ids::new_random_id;
use crate::mods::{is_random_id, Mod};
use ahash::AHashMap;
use std::path::PathBuf;
use vstd::prelude::*;

verus! {

/// The mods that a map of mods holds, by identifier.
pub uninterp spec fn mods_of(mods: AHashMap<u128, Mod>) -> Map<u128, Mod>;

/// The deployers that a map of deployers holds, by identifier.
pub uninterp spec fn deployers_of(deployers: AHashMap<u128, Deployer>) -> Map<u128, Deployer>;

/// An empty map of mods, by `AHashMap::new`.
#[verifier::external_body]
fn empty_mods() -> (mods: AHashMap<u128, Mod>)
    ensures
        mods_of(mods) =~= Map::empty(),
{
    AHashMap::new()
}

/// An empty map of deployers, by `AHashMap::new`.
#[verifier::external_body]
fn empty_deployers() -> (deployers: AHashMap<u128, Deployer>)
    ensures
        deployers_of(deployers) =~= Map::empty(),
{
    AHashMap::new()
}

/// A game: its mods, its deployers, and the directory where its mods are staged.
pub struct Game {
    pub id: u128,
    pub name: String,
    pub mods: AHashMap<u128, Mod>,
    pub deployers: AHashMap<u128, Deployer>,
    pub staging_dir: PathBuf,
    pub steam_id: Option<u32>,
}

impl Game {
    /// A new game with no mods and no deployers: the given identifier, or a
    /// fresh random one when none is given.
    pub fn new(id: Option<u128>, name: String, staging_dir: PathBuf, steam_id: Option<u32>) -> (game: Game)
        ensures
            id matches Some(given) ==> game.id == given,
            id is None ==> is_random_id(game.id),
            game.name == name,
            mods_of(game.mods) =~= Map::empty(),
            deployers_of(game.deployers) =~= Map::empty(),
            game.staging_dir == staging_dir,
            game.steam_id == steam_id,
    {
        let id = match id {
            Some(given) => given,
            None => new_random_id(),
        };
        Game {
            id,
            name,
            mods: empty_mods(),
            deployers: empty_deployers(),
            staging_dir,
            steam_id,
        }
    }
}

} // verus!
