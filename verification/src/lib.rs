//! The verified core of a game mod manager: the games it manages, their mods
//! and deployers, the index of games kept in the configuration, where the
//! configuration lives on disk, and the decisions of its user interface.
pub mod app_state;
pub mod clock;
pub mod deployers;
pub mod errors;
pub mod fs;
pub mod game;
pub mod game_index;
pub mod hashmap;
pub mod ids;
pub mod mods;
pub mod paths;
pub mod storage;
