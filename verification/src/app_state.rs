//! The state of the user interface and how each user action changes it.
//!
//! The interface itself draws this state and reports what the user did; the
//! functions here decide what each action does to the state and to the index
//! of games. An action that the interface offers only in some states (a
//! disabled button cannot be clicked) requires those states.
use crate::game::{mods_of, deployers_of, Game};
use crate::game_index::{keyed_by_id, GameIndex};
use crate::mods::is_random_id;
use crate::paths::{path_from_string, path_of_text};
use std::sync::Arc;
use vstd::prelude::*;
use vstd::string::*;

verus! {

/// The tab shown in the main panel.
#[derive(Debug, Default, Clone, Copy, PartialEq, Eq, Structural)]
pub enum RootTab {
    #[default]
    NoTab,
    Game,
    Mods,
    Deployers,
}

/// What the user has typed into the "Add Game" dialog.
#[derive(Debug, PartialEq, Eq)]
pub struct AddGameDialogInput {
    pub name: String,
    pub staging_dir: String,
    pub steam_id: Option<u32>,
}

/// An empty dialog input: no name, no staging directory, no Steam id.
pub open spec fn is_blank_input(input: AddGameDialogInput) -> bool {
    &&& input.name@ == Seq::<char>::empty()
    &&& input.staging_dir@ == Seq::<char>::empty()
    &&& input.steam_id is None
}

impl Default for AddGameDialogInput {
    fn default() -> (input: AddGameDialogInput)
        ensures
            is_blank_input(input),
    {
        AddGameDialogInput { name: String::new(), staging_dir: String::new(), steam_id: None }
    }
}

/// The game that a dialog input describes, as `into_game` makes it (less its
/// identifier, which is fresh): named as typed, staged in the typed
/// directory, with the typed Steam id, and no mods or deployers yet.
pub open spec fn game_from_input(game: Game, input: AddGameDialogInput) -> bool {
    &&& is_random_id(game.id)
    &&& game.name == input.name
    &&& game.staging_dir == path_of_text(input.staging_dir@)
    &&& game.steam_id == input.steam_id
    &&& mods_of(game.mods) =~= Map::empty()
    &&& deployers_of(game.deployers) =~= Map::empty()
}

impl AddGameDialogInput {
    /// The new game that the input describes, with a fresh random identifier.
    pub fn into_game(self) -> (game: Game)
        ensures
            game_from_input(game, self),
    {
        Game::new(None, self.name, path_from_string(self.staging_dir), self.steam_id)
    }
}

/// The state of the user interface.
#[derive(Debug)]
pub struct AppState {
    /// Currently selected game.
    pub selected_game: Option<u128>,
    /// Currently selected tab.
    pub selected_tab: RootTab,
    /// Whether or not the 'Add Game' dialog is in use, with `Some` containing
    /// the input states.
    pub add_game_dialog: Option<AddGameDialogInput>,
    /// Whether or not a folder-picking dialog is in use.
    pub file_dialog_open: bool,
}

impl Default for AppState {
    fn default() -> (state: AppState)
        ensures
            state.selected_game is None,
            state.selected_tab == RootTab::NoTab,
            state.add_game_dialog is None,
            !state.file_dialog_open,
    {
        AppState { selected_game: None, selected_tab: RootTab::NoTab, add_game_dialog: None, file_dialog_open: false }
    }
}

/// The selected game, if any, is one that the index holds.
pub open spec fn selection_valid(state: AppState, games: Map<u128, Game>) -> bool {
    state.selected_game matches Some(id) ==> games.contains_key(id)
}

/// The state is consistent with the index: the selected game, if any, is in
/// the index, and a tab is shown only while a game is selected.
pub open spec fn consistent(state: AppState, games: Map<u128, Game>) -> bool {
    &&& selection_valid(state, games)
    &&& state.selected_tab != RootTab::NoTab ==> state.selected_game is Some
}

/// Whether the main panel would show a tab that it cannot show yet: a game
/// is selected and found, and the Mods or Deployers tab is chosen.
pub open spec fn shows_unfinished_tab(state: AppState, games: Map<u128, Game>) -> bool {
    &&& state.selected_game matches Some(id) && games.contains_key(id)
    &&& (state.selected_tab == RootTab::Mods || state.selected_tab == RootTab::Deployers)
}

/// The label of the game selector, as a spec: the selected game's name when
/// the selector is enabled (there are games) and the selected game is found,
/// otherwise the prompt "Select a game".
pub open spec fn selector_label(state: AppState, games: Map<u128, Game>) -> Seq<char> {
    if !(games.dom() =~= Set::empty()) && state.selected_game is Some
        && games.contains_key(state.selected_game->0) {
        games[state.selected_game->0].name@
    } else {
        "Select a game"@
    }
}

/// What drawing the main panel shows, and the tab shown afterwards: a
/// selected game that is found is headed by its name, on the Game tab if no
/// tab was shown; a selected game that is not found shows that no game is
/// selected and resets the tab; with no game selected nothing changes.
pub open spec fn central_outcome(state: AppState, games: Map<u128, Game>) -> (CentralView, RootTab) {
    match state.selected_game {
        Some(id) => if games.contains_key(id) {
            (
                CentralView::GameHeading(games[id].name),
                if state.selected_tab == RootTab::NoTab { RootTab::Game } else { state.selected_tab },
            )
        } else {
            (CentralView::NoGameSelected, RootTab::NoTab)
        },
        None => (CentralView::NoGameSelected, state.selected_tab),
    }
}

/// What the main panel shows.
#[derive(Debug, PartialEq, Eq)]
pub enum CentralView {
    /// No game is selected, or the selected one is not in the index.
    NoGameSelected,
    /// The Game tab of the selected game, headed by its name.
    GameHeading(String),
}

impl AppState {
    /// Makes a freshly loaded state fit the index: a selected game that the
    /// index no longer holds is deselected, and the tab reset.
    pub fn forget_missing_game(&mut self, games: &GameIndex)
        ensures
            final(self).add_game_dialog == old(self).add_game_dialog,
            final(self).file_dialog_open == old(self).file_dialog_open,
            selection_valid(*old(self), games@) ==> (final(self).selected_game == old(self).selected_game
                && final(self).selected_tab == old(self).selected_tab),
            !selection_valid(*old(self), games@) ==> (final(self).selected_game is None
                && final(self).selected_tab == RootTab::NoTab),
            selection_valid(*final(self), games@),
            consistent(*old(self), games@) ==> consistent(*final(self), games@),
    {
        if let Some(id) = self.selected_game {
            if !games.contains_key(id) {
                self.selected_game = None;
                self.selected_tab = RootTab::NoTab;
            }
        }
    }

    /// "Add Game" › "Add Manually": opens the dialog with a blank input. The
    /// menu is offered only while the dialog is not open.
    pub fn open_add_game_dialog(&mut self)
        requires
            old(self).add_game_dialog is None,
        ensures
            final(self).add_game_dialog matches Some(input) && is_blank_input(input),
            final(self).selected_game == old(self).selected_game,
            final(self).selected_tab == old(self).selected_tab,
            final(self).file_dialog_open == old(self).file_dialog_open,
    {
        self.add_game_dialog = Some(AddGameDialogInput::default());
    }

    /// A game chosen in the game selector, which lists the games of the
    /// index: the listed game (held under `key`) becomes the selected one,
    /// and the Game tab is shown if no tab was.
    pub fn select_game(&mut self, games: &GameIndex, key: u128)
        requires
            games@.contains_key(key),
        ensures
            final(self).selected_game == Some(games@[key].id),
            old(self).selected_tab == RootTab::NoTab ==> final(self).selected_tab == RootTab::Game,
            old(self).selected_tab != RootTab::NoTab ==> final(self).selected_tab == old(self).selected_tab,
            final(self).add_game_dialog == old(self).add_game_dialog,
            final(self).file_dialog_open == old(self).file_dialog_open,
            keyed_by_id(games@) ==> consistent(*final(self), games@),
    {
        let game = games.get(key).unwrap();
        self.selected_game = Some(game.id);
        if self.selected_tab == RootTab::NoTab {
            self.selected_tab = RootTab::Game;
        }
    }

    /// A tab button: shows `tab`. The buttons are offered only while a game
    /// is selected.
    pub fn select_tab(&mut self, tab: RootTab)
        requires
            old(self).selected_game is Some,
        ensures
            final(self).selected_tab == tab,
            final(self).selected_game == old(self).selected_game,
            final(self).add_game_dialog == old(self).add_game_dialog,
            final(self).file_dialog_open == old(self).file_dialog_open,
    {
        self.selected_tab = tab;
    }

    /// The label of the game selector.
    pub fn selector_label(&self, games: &GameIndex) -> (label: String)
        ensures
            label@ == selector_label(*self, games@),
            self.selected_game is Some && games@.contains_key(self.selected_game->0)
                ==> label@ == games@[self.selected_game->0].name@,
            !(self.selected_game is Some && games@.contains_key(self.selected_game->0))
                ==> label@ == "Select a game"@,
    {
        proof {
            lemma_selector_names_selected_game(*self, games@);
        }
        if !games.is_empty() {
            if let Some(id) = self.selected_game {
                if let Some(game) = games.get(id) {
                    return game.name.clone();
                }
            }
        }
        String::from_str("Select a game")
    }

    /// Whether drawing the main panel now would reach a tab that cannot be
    /// shown yet.
    pub fn shows_unfinished_tab(&self, games: &GameIndex) -> (unfinished: bool)
        ensures
            unfinished == shows_unfinished_tab(*self, games@),
    {
        match self.selected_game {
            Some(id) => games.contains_key(id)
                && (self.selected_tab == RootTab::Mods || self.selected_tab == RootTab::Deployers),
            None => false,
        }
    }

    /// Draws the main panel: a selected game that is found gets the Game tab
    /// if no tab was shown; a selected game that is not found resets the tab;
    /// the panel then shows the selected game's heading, or that no game is
    /// selected.
    pub fn central_view(&mut self, games: &GameIndex) -> (view: CentralView)
        requires
            !shows_unfinished_tab(*old(self), games@),
        ensures
            final(self).selected_game == old(self).selected_game,
            final(self).add_game_dialog == old(self).add_game_dialog,
            final(self).file_dialog_open == old(self).file_dialog_open,
            (view, final(self).selected_tab) == central_outcome(*old(self), games@),
            consistent(*old(self), games@) ==> consistent(*final(self), games@),
    {
        match self.selected_game {
            Some(id) => match games.get(id) {
                Some(game) => {
                    if self.selected_tab == RootTab::NoTab {
                        self.selected_tab = RootTab::Game;
                    }
                    CentralView::GameHeading(game.name.clone())
                },
                None => {
                    self.selected_tab = RootTab::NoTab;
                    CentralView::NoGameSelected
                },
            },
            None => CentralView::NoGameSelected,
        }
    }

    /// "Confirm" in the "Add Game" dialog: the typed game is made, put into
    /// the index under its identifier and selected on its Game tab, and the
    /// dialog's input is taken. Answers whether the dialog window is to close,
    /// which it is when there was an input.
    pub fn confirm_add_game(&mut self, games: &mut GameIndex) -> (close: bool)
        ensures
            close == old(self).add_game_dialog is Some,
            final(self).file_dialog_open == old(self).file_dialog_open,
            final(self).add_game_dialog is None,
            match old(self).add_game_dialog {
                Some(input) => exists|game: Game| {
                    &&& #[trigger] game_from_input(game, input)
                    &&& final(games)@ == old(games)@.insert(game.id, game)
                    &&& final(self).selected_game == Some(game.id)
                },
                None => final(games)@ == old(games)@
                    && final(self).selected_game == old(self).selected_game,
            },
            old(self).add_game_dialog is Some ==> final(self).selected_tab == RootTab::Game,
            old(self).add_game_dialog is None ==> final(self).selected_tab == old(self).selected_tab,
            keyed_by_id(old(games)@) ==> keyed_by_id(final(games)@),
            consistent(*old(self), old(games)@) ==> consistent(*final(self), final(games)@),
    {
        match self.add_game_dialog.take() {
            Some(input) => {
                let ghost typed = input;
                let game = input.into_game();
                let ghost made = game;
                let id = game.id;
                self.selected_game = Some(id);
                self.selected_tab = RootTab::Game;
                let _ = games.insert_from(Arc::new(game));
                assert(game_from_input(made, typed));
                true
            },
            None => false,
        }
    }

    /// The dialog window was closed (by "Discard", by "Confirm", or by the
    /// window itself): the dialog is no longer in use.
    pub fn close_add_game_dialog(&mut self)
        ensures
            final(self).add_game_dialog is None,
            final(self).selected_game == old(self).selected_game,
            final(self).selected_tab == old(self).selected_tab,
            final(self).file_dialog_open == old(self).file_dialog_open,
    {
        self.add_game_dialog = None;
    }

    /// "Select" beside the staging directory: a folder-picking dialog opens.
    /// The button is offered only while no such dialog is open.
    pub fn begin_folder_pick(&mut self)
        requires
            !old(self).file_dialog_open,
        ensures
            final(self).file_dialog_open,
            final(self).selected_game == old(self).selected_game,
            final(self).selected_tab == old(self).selected_tab,
            final(self).add_game_dialog == old(self).add_game_dialog,
    {
        self.file_dialog_open = true;
    }

    /// The folder-picking dialog ended, with the picked folder's path as text
    /// if one was picked: it becomes the staging directory of the "Add Game"
    /// input, if that dialog is still in use.
    pub fn finish_folder_pick(&mut self, picked: Option<String>)
        ensures
            !final(self).file_dialog_open,
            final(self).selected_game == old(self).selected_game,
            final(self).selected_tab == old(self).selected_tab,
            match (picked, old(self).add_game_dialog) {
                (Some(path), Some(input)) => final(self).add_game_dialog matches Some(after)
                    && after.staging_dir == path && after.name == input.name
                    && after.steam_id == input.steam_id,
                _ => final(self).add_game_dialog == old(self).add_game_dialog,
            },
    {
        if let Some(path) = picked {
            if let Some(input) = self.add_game_dialog.as_mut() {
                input.staging_dir = path;
            }
        }
        self.file_dialog_open = false;
    }
}

/// A game just added through the dialog is what the main panel shows next:
/// after "Confirm" selects the new game on its Game tab and puts it into the
/// index, drawing the main panel heads it with the typed name and stays on
/// the Game tab.
pub proof fn lemma_added_game_is_shown(state: AppState, games: Map<u128, Game>, game: Game)
    requires
        state.selected_game == Some(game.id),
        state.selected_tab == RootTab::Game,
        games.contains_key(game.id),
        games[game.id] == game,
    ensures
        !shows_unfinished_tab(state, games),
        central_outcome(state, games) == (CentralView::GameHeading(game.name), RootTab::Game),
{
}

/// The game selector names the selected game whenever the index holds it,
/// whatever tab is shown, and prompts "Select a game" otherwise.
pub proof fn lemma_selector_names_selected_game(state: AppState, games: Map<u128, Game>)
    ensures
        state.selected_game is Some && games.contains_key(state.selected_game->0)
            ==> selector_label(state, games) == games[state.selected_game->0].name@,
        !(state.selected_game is Some && games.contains_key(state.selected_game->0))
            ==> selector_label(state, games) == "Select a game"@,
{
    if let Some(id) = state.selected_game {
        if games.contains_key(id) {
            assert(games.dom().contains(id));
            assert(!(games.dom() =~= Set::empty()));
        }
    }
}

/// After a game is chosen in the selector, the selector names it, whatever
/// tab is shown.
pub proof fn lemma_chosen_game_is_named(after: AppState, games: Map<u128, Game>, key: u128)
    requires
        games.contains_key(key),
        keyed_by_id(games),
        after.selected_game == Some(games[key].id),
    ensures
        selector_label(after, games) == games[key].name@,
{
    lemma_selector_names_selected_game(after, games);
}

} // verus!
