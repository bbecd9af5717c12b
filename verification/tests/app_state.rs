use mod_manager::app_state::{AddGameDialogInput, AppState, CentralView, RootTab};
use mod_manager::game::Game;
use mod_manager::game_index::GameIndex;
use std::path::PathBuf;
use std::sync::Arc;

fn index_with(games: &[(u128, &str)]) -> GameIndex {
    let mut index = GameIndex::new();
    for (id, name) in games {
        index.insert_from(Arc::new(Game::new(Some(*id), String::from(*name), PathBuf::from("/staging"), None)));
    }
    index
}

#[test]
fn default_state_selects_nothing() {
    let state = AppState::default();
    assert_eq!(state.selected_game, None);
    assert_eq!(state.selected_tab, RootTab::NoTab);
    assert!(state.add_game_dialog.is_none());
    assert!(!state.file_dialog_open);
}

#[test]
fn missing_selected_game_is_forgotten() {
    let games = index_with(&[(1, "One")]);
    let mut state = AppState::default();
    state.selected_game = Some(9);
    state.selected_tab = RootTab::Mods;
    state.forget_missing_game(&games);
    assert_eq!(state.selected_game, None);
    assert_eq!(state.selected_tab, RootTab::NoTab);
}

#[test]
fn present_selected_game_is_kept() {
    let games = index_with(&[(1, "One")]);
    let mut state = AppState::default();
    state.selected_game = Some(1);
    state.selected_tab = RootTab::Deployers;
    state.forget_missing_game(&games);
    assert_eq!(state.selected_game, Some(1));
    assert_eq!(state.selected_tab, RootTab::Deployers);
}

#[test]
fn add_manually_opens_a_blank_dialog() {
    let mut state = AppState::default();
    state.open_add_game_dialog();
    assert_eq!(state.add_game_dialog, Some(AddGameDialogInput::default()));
    let input = state.add_game_dialog.unwrap();
    assert_eq!(input.name, "");
    assert_eq!(input.staging_dir, "");
    assert_eq!(input.steam_id, None);
}

#[test]
fn choosing_a_game_shows_its_game_tab() {
    let games = index_with(&[(1, "One"), (2, "Two")]);
    let mut state = AppState::default();
    state.select_game(&games, 2);
    assert_eq!(state.selected_game, Some(2));
    assert_eq!(state.selected_tab, RootTab::Game);
    state.select_tab(RootTab::Mods);
    state.select_game(&games, 1);
    assert_eq!(state.selected_game, Some(1));
    assert_eq!(state.selected_tab, RootTab::Mods);
}

#[test]
fn selector_label_names_the_selected_game() {
    let empty = GameIndex::new();
    let games = index_with(&[(1, "One")]);
    let mut state = AppState::default();
    assert_eq!(state.selector_label(&games), "Select a game");
    state.selected_game = Some(1);
    assert_eq!(state.selector_label(&games), "One");
    assert_eq!(state.selector_label(&empty), "Select a game");
    state.selected_game = Some(5);
    assert_eq!(state.selector_label(&games), "Select a game");
}

#[test]
fn central_panel_without_selection() {
    let games = index_with(&[(1, "One")]);
    let mut state = AppState::default();
    assert_eq!(state.central_view(&games), CentralView::NoGameSelected);
    assert_eq!(state.selected_tab, RootTab::NoTab);
}

#[test]
fn central_panel_heads_the_selected_game() {
    let games = index_with(&[(1, "One")]);
    let mut state = AppState::default();
    state.selected_game = Some(1);
    assert!(!state.shows_unfinished_tab(&games));
    assert_eq!(state.central_view(&games), CentralView::GameHeading(String::from("One")));
    assert_eq!(state.selected_tab, RootTab::Game);
}

#[test]
fn central_panel_resets_the_tab_of_a_missing_game() {
    let games = index_with(&[(1, "One")]);
    let mut state = AppState::default();
    state.selected_game = Some(3);
    state.selected_tab = RootTab::Mods;
    assert!(!state.shows_unfinished_tab(&games));
    assert_eq!(state.central_view(&games), CentralView::NoGameSelected);
    assert_eq!(state.selected_tab, RootTab::NoTab);
    assert_eq!(state.selected_game, Some(3));
}

#[test]
fn unfinished_tabs_are_reported() {
    let games = index_with(&[(1, "One")]);
    let mut state = AppState::default();
    state.selected_game = Some(1);
    state.selected_tab = RootTab::Deployers;
    assert!(state.shows_unfinished_tab(&games));
}

#[test]
fn confirming_adds_and_selects_the_game() {
    let mut games = index_with(&[(1, "One")]);
    let mut state = AppState::default();
    state.open_add_game_dialog();
    if let Some(input) = state.add_game_dialog.as_mut() {
        input.name = String::from("Morrowind");
        input.staging_dir = String::from("/games/morrowind");
        input.steam_id = Some(22320);
    }
    assert!(state.confirm_add_game(&mut games));
    assert!(state.add_game_dialog.is_none());
    assert_eq!(state.selected_tab, RootTab::Game);
    let id = state.selected_game.expect("the new game is selected");
    let added = games.get(id).expect("the new game is in the index");
    assert_eq!(added.id, id);
    assert_eq!(added.name, "Morrowind");
    assert_eq!(added.staging_dir, PathBuf::from("/games/morrowind"));
    assert_eq!(added.steam_id, Some(22320));
    assert!(added.mods.is_empty());
    assert!(games.contains_key(1));
    assert_eq!(state.central_view(&games), CentralView::GameHeading(String::from("Morrowind")));
}

#[test]
fn confirming_without_input_does_nothing() {
    let mut games = index_with(&[(1, "One")]);
    let mut state = AppState::default();
    assert!(!state.confirm_add_game(&mut games));
    assert_eq!(state.selected_game, None);
    assert_eq!(games.entries().len(), 1);
}

#[test]
fn closing_the_dialog_drops_its_input() {
    let mut state = AppState::default();
    state.open_add_game_dialog();
    state.close_add_game_dialog();
    assert!(state.add_game_dialog.is_none());
}

#[test]
fn picked_folder_becomes_the_staging_dir() {
    let mut state = AppState::default();
    state.open_add_game_dialog();
    state.begin_folder_pick();
    assert!(state.file_dialog_open);
    state.finish_folder_pick(Some(String::from("/games/oblivion")));
    assert!(!state.file_dialog_open);
    assert_eq!(state.add_game_dialog.as_ref().unwrap().staging_dir, "/games/oblivion");
}

#[test]
fn cancelled_folder_pick_keeps_the_input() {
    let mut state = AppState::default();
    state.open_add_game_dialog();
    state.begin_folder_pick();
    state.finish_folder_pick(None);
    assert!(!state.file_dialog_open);
    assert_eq!(state.add_game_dialog, Some(AddGameDialogInput::default()));
}

#[test]
fn dialog_input_becomes_a_fresh_game() {
    let input = AddGameDialogInput {
        name: String::from("Fallout"),
        staging_dir: String::from("/games/fallout"),
        steam_id: None,
    };
    let game = input.into_game();
    assert_eq!((game.id >> 76) & 15, 4);
    assert_eq!(game.name, "Fallout");
    assert_eq!(game.staging_dir, PathBuf::from("/games/fallout"));
    assert!(game.deployers.is_empty());
}
