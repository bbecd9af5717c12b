use mod_manager::game::Game;
use mod_manager::game_index::GameIndex;
use std::path::PathBuf;
use std::sync::Arc;

fn game(id: u128, name: &str, dir: &str) -> Game {
    Game::new(Some(id), String::from(name), PathBuf::from(dir), None)
}

#[test]
fn new_index_is_empty() {
    let index = GameIndex::new();
    assert!(index.is_empty());
    assert!(index.entries().is_empty());
    assert!(!index.contains_key(1));
}

#[test]
fn inserted_game_is_found_under_its_id() {
    let mut index = GameIndex::new();
    assert!(index.insert_from(Arc::new(game(7, "Skyrim", "/games/skyrim"))).is_none());
    assert!(!index.is_empty());
    assert!(index.contains_key(7));
    let found = index.get(7).expect("the game was inserted");
    assert_eq!(found.name, "Skyrim");
    assert_eq!(found.staging_dir, PathBuf::from("/games/skyrim"));
    assert!(index.get(8).is_none());
}

#[test]
fn inserting_again_replaces_and_returns_the_old_game() {
    let mut index = GameIndex::new();
    index.insert_from(Arc::new(game(7, "Skyrim", "/a")));
    let previous = index.insert_from(Arc::new(game(7, "Skyrim SE", "/b"))).expect("7 was taken");
    assert_eq!(previous.name, "Skyrim");
    assert_eq!(index.get(7).unwrap().name, "Skyrim SE");
    assert_eq!(index.entries().len(), 1);
}

#[test]
fn saved_form_maps_ids_to_staging_dirs() {
    let mut index = GameIndex::new();
    index.insert_from(Arc::new(game(1, "One", "/one")));
    index.insert_from(Arc::new(game(2, "Two", "/two")));
    let mut saved = index.saved_entries();
    saved.sort_by_key(|entry| entry.0);
    assert_eq!(saved, vec![(1, PathBuf::from("/one")), (2, PathBuf::from("/two"))]);
}

#[test]
fn games_that_failed_to_load_are_skipped() {
    let loaded = vec![(1, Some(game(1, "One", "/one"))), (2, None), (3, Some(game(3, "Three", "/three")))];
    let index = GameIndex::from_loaded(loaded);
    assert!(index.contains_key(1));
    assert!(!index.contains_key(2));
    assert!(index.contains_key(3));
    assert_eq!(index.entries().len(), 2);
}

#[test]
fn later_entries_replace_earlier_ones() {
    let loaded = vec![(5, Some(game(5, "Old", "/old"))), (5, Some(game(5, "New", "/new")))];
    let index = GameIndex::from_loaded(loaded);
    assert_eq!(index.get(5).unwrap().name, "New");
}

#[test]
fn reloading_a_saved_index_restores_it() {
    let mut index = GameIndex::new();
    index.insert_from(Arc::new(game(10, "Ten", "/ten")));
    index.insert_from(Arc::new(game(20, "Twenty", "/twenty")));
    let saved = index.saved_entries();
    let loaded: Vec<(u128, Option<Game>)> = saved
        .iter()
        .map(|(id, dir)| {
            let original = index.get(*id).unwrap();
            (*id, Some(Game::new(Some(original.id), original.name.clone(), dir.clone(), original.steam_id)))
        })
        .collect();
    let reloaded = GameIndex::from_loaded(loaded);
    assert_eq!(reloaded.entries().len(), 2);
    for (id, g) in index.entries() {
        let back = reloaded.get(id).expect("every saved game comes back");
        assert_eq!(back.name, g.name);
        assert_eq!(back.staging_dir, g.staging_dir);
    }
}

#[test]
fn new_game_without_id_gets_a_random_version_four_id() {
    let a = Game::new(None, String::from("A"), PathBuf::from("/a"), Some(1));
    let b = Game::new(None, String::from("B"), PathBuf::from("/b"), None);
    assert_eq!((a.id >> 76) & 15, 4);
    assert_eq!((a.id >> 62) & 3, 2);
    assert_ne!(a.id, b.id);
    assert_eq!(a.steam_id, Some(1));
    assert!(a.mods.is_empty());
    assert!(a.deployers.is_empty());
}

#[test]
fn len_counts_distinct_games() {
    let mut index = GameIndex::new();
    assert_eq!(index.len(), 0);
    index.insert_from(Arc::new(game(1, "One", "/one")));
    assert_eq!(index.len(), 1);
    index.insert_from(Arc::new(game(2, "Two", "/two")));
    assert_eq!(index.len(), 2);
    index.insert_from(Arc::new(game(2, "Two again", "/two")));
    assert_eq!(index.len(), 2);
}
