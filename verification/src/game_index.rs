//! The index of managed games, kept in the configuration.
//!
//! In the configuration file the index is written as a map from each game's
//! identifier to its staging directory; when the configuration is read back,
//! each game is loaded from the file at that path, and a game that cannot be
//! read or parsed is left out.
use crate::game::Game;
use crate::paths::path_clone;
use ahash::AHashMap;
use std::path::PathBuf;
use std::sync::Arc;
use vstd::prelude::*;

verus! {

/// The games that a map of games holds, by identifier.
pub uninterp spec fn games_of(games: AHashMap<u128, Arc<Game>>) -> Map<u128, Game>;

/// An empty map of games, by `AHashMap::new`.
#[verifier::external_body]
fn games_new() -> (games: AHashMap<u128, Arc<Game>>)
    ensures
        games_of(games) =~= Map::empty(),
{
    AHashMap::new()
}

/// `AHashMap::insert`: the map afterwards holds `game` under `id`, all other
/// entries unchanged; the game it held under `id` before, if any, comes back.
#[verifier::external_body]
fn games_insert(games: &mut AHashMap<u128, Arc<Game>>, id: u128, game: Arc<Game>) -> (previous: Option<Arc<Game>>)
    ensures
        games_of(*final(games)) == games_of(*old(games)).insert(id, *game),
        match previous {
            Some(p) => games_of(*old(games)).contains_key(id) && *p == games_of(*old(games))[id],
            None => !games_of(*old(games)).contains_key(id),
        },
{
    games.insert(id, game)
}

/// `HashMap::len` (through `AHashMap`'s `Deref`): how many games the map holds.
#[verifier::external_body]
fn games_len(games: &AHashMap<u128, Arc<Game>>) -> (count: usize)
    ensures
        count == games_of(*games).len(),
{
    games.len()
}

/// `AHashMap::get`: the game held under `id`, if any.
#[verifier::external_body]
fn games_get(games: &AHashMap<u128, Arc<Game>>, id: u128) -> (found: Option<&Arc<Game>>)
    ensures
        match found {
            Some(g) => games_of(*games).contains_key(id) && **g == games_of(*games)[id],
            None => !games_of(*games).contains_key(id),
        },
{
    games.get(&id)
}

/// `HashMap::contains_key` (through `AHashMap`'s `Deref`).
#[verifier::external_body]
fn games_contains(games: &AHashMap<u128, Arc<Game>>, id: u128) -> (present: bool)
    ensures
        present == games_of(*games).contains_key(id),
{
    games.contains_key(&id)
}

/// `HashMap::is_empty` (through `AHashMap`'s `Deref`).
#[verifier::external_body]
fn games_is_empty(games: &AHashMap<u128, Arc<Game>>) -> (empty: bool)
    ensures
        empty == (games_of(*games).dom() =~= Set::empty()),
{
    games.is_empty()
}

/// `HashMap::iter` (through `AHashMap`'s `Deref`), each entry taken as its
/// identifier and a shared handle on its game.
///
/// Every entry comes out once; in which order the map is walked is not
/// stated, since it depends on the per-process random hasher.
#[verifier::external_body]
fn games_entries(games: &AHashMap<u128, Arc<Game>>) -> (entries: Vec<(u128, Arc<Game>)>)
    ensures
        lists_entries(games_of(*games), entries@),
{
    games.iter().map(|(id, game)| (*id, Arc::clone(game))).collect()
}

/// `entries` lists the map `m` entry by entry: each of its identifiers once,
/// each with the game that `m` holds under it.
pub open spec fn lists_entries(m: Map<u128, Game>, entries: Seq<(u128, Arc<Game>)>) -> bool {
    &&& forall|i: int| 0 <= i < entries.len()
        ==> m.contains_key(#[trigger] entries[i].0) && *entries[i].1 == m[entries[i].0]
    &&& forall|i: int, j: int| 0 <= i < j < entries.len() ==> #[trigger] entries[i].0 != #[trigger] entries[j].0
    &&& forall|k: u128| m.contains_key(k) ==> exists|i: int| 0 <= i < entries.len() && #[trigger] entries[i].0 == k
}

/// `saved` is the saved form of the map `m`: each identifier of `m` once,
/// each with the staging directory of its game.
pub open spec fn saved_form(m: Map<u128, Game>, saved: Seq<(u128, PathBuf)>) -> bool {
    &&& forall|i: int| 0 <= i < saved.len()
        ==> m.contains_key(#[trigger] saved[i].0) && saved[i].1 == m[saved[i].0].staging_dir
    &&& forall|i: int, j: int| 0 <= i < j < saved.len() ==> #[trigger] saved[i].0 != #[trigger] saved[j].0
    &&& forall|k: u128| m.contains_key(k) ==> exists|i: int| 0 <= i < saved.len() && #[trigger] saved[i].0 == k
}

/// The games that reading back a saved index yields from `loaded`, the
/// outcome for each saved entry in turn: a game that loaded is inserted under
/// its entry's identifier (a later entry under the same identifier replaces
/// an earlier one), and an entry whose game failed to load is skipped.
pub open spec fn loaded_map(loaded: Seq<(u128, Option<Game>)>) -> Map<u128, Game>
    decreases loaded.len(),
{
    if loaded.len() == 0 {
        Map::empty()
    } else {
        let before = loaded_map(loaded.drop_last());
        match loaded.last().1 {
            Some(game) => before.insert(loaded.last().0, game),
            None => before,
        }
    }
}

/// Entry `i` of `loaded` loaded a game, and no later entry loaded one under
/// the same identifier.
pub open spec fn last_load_of(loaded: Seq<(u128, Option<Game>)>, i: int) -> bool {
    &&& 0 <= i < loaded.len()
    &&& loaded[i].1 is Some
    &&& forall|j: int| i < j < loaded.len() ==> #[trigger] loaded[j].0 != loaded[i].0 || loaded[j].1 is None
}

/// Every game of `m` is held under its own identifier.
pub open spec fn keyed_by_id(m: Map<u128, Game>) -> bool {
    forall|k: u128| m.contains_key(k) ==> #[trigger] m[k].id == k
}

/// A map of games, by identifier.
///
/// Serialises to a map of `staging_dir` paths.
pub struct GameIndex(AHashMap<u128, Arc<Game>>);

impl View for GameIndex {
    type V = Map<u128, Game>;

    closed spec fn view(&self) -> Map<u128, Game> {
        games_of(self.0)
    }
}

impl GameIndex {
    /// The index holds finitely many games.
    #[verifier::type_invariant]
    spec fn holds_finitely_many(self) -> bool {
        games_of(self.0).dom().finite()
    }

    /// An empty index.
    pub fn new() -> (index: GameIndex)
        ensures
            index@ =~= Map::empty(),
    {
        GameIndex(games_new())
    }

    /// Puts `value` into the index under `id`, replacing and returning the
    /// game held there before; the index then holds one game more, unless
    /// `id` was taken.
    pub fn insert(&mut self, id: u128, value: Arc<Game>) -> (previous: Option<Arc<Game>>)
        ensures
            final(self)@ == old(self)@.insert(id, *value),
            match previous {
                Some(p) => old(self)@.contains_key(id) && *p == old(self)@[id],
                None => !old(self)@.contains_key(id),
            },
            final(self)@.dom().finite(),
            final(self)@.len() == old(self)@.len() + if old(self)@.contains_key(id) { 0int } else { 1int },
    {
        proof {
            use_type_invariant(&*self);
        }
        let mut games = games_new();
        std::mem::swap(&mut games, &mut self.0);
        let previous = games_insert(&mut games, id, value);
        self.0 = games;
        previous
    }

    /// Puts `value` into the index under its own identifier, replacing and
    /// returning the game held there before; the index then holds one game
    /// more, unless that identifier was taken.
    pub fn insert_from(&mut self, value: Arc<Game>) -> (previous: Option<Arc<Game>>)
        ensures
            final(self)@ == old(self)@.insert(value.id, *value),
            match previous {
                Some(p) => old(self)@.contains_key(value.id) && *p == old(self)@[value.id],
                None => !old(self)@.contains_key(value.id),
            },
            final(self)@.dom().finite(),
            final(self)@.len() == old(self)@.len() + if old(self)@.contains_key(value.id) { 0int } else { 1int },
    {
        let id = value.id;
        self.insert(id, value)
    }

    /// How many games the index holds.
    pub fn len(&self) -> (count: usize)
        ensures
            count == self@.len(),
            self@.dom().finite(),
    {
        proof {
            use_type_invariant(self);
        }
        games_len(&self.0)
    }

    /// The game held under `id`, if any.
    pub fn get(&self, id: u128) -> (found: Option<&Arc<Game>>)
        ensures
            match found {
                Some(g) => self@.contains_key(id) && **g == self@[id],
                None => !self@.contains_key(id),
            },
    {
        games_get(&self.0, id)
    }

    /// Whether a game is held under `id`.
    pub fn contains_key(&self, id: u128) -> (present: bool)
        ensures
            present == self@.contains_key(id),
    {
        games_contains(&self.0, id)
    }

    /// Whether the index holds no game.
    pub fn is_empty(&self) -> (empty: bool)
        ensures
            empty == (self@.dom() =~= Set::empty()),
    {
        games_is_empty(&self.0)
    }

    /// Every entry of the index, each once, in no stated order.
    pub fn entries(&self) -> (entries: Vec<(u128, Arc<Game>)>)
        ensures
            lists_entries(self@, entries@),
    {
        games_entries(&self.0)
    }

    /// The form in which the index is saved: each game's identifier with its
    /// staging directory.
    pub fn saved_entries(&self) -> (saved: Vec<(u128, PathBuf)>)
        ensures
            saved_form(self@, saved@),
    {
        let entries = self.entries();
        let mut saved: Vec<(u128, PathBuf)> = Vec::new();
        let mut i: usize = 0;
        while i < entries.len()
            invariant
                i <= entries.len(),
                lists_entries(self@, entries@),
                saved@.len() == i,
                forall|j: int| 0 <= j < i ==> #[trigger] saved@[j].0 == entries@[j].0
                    && saved@[j].1 == entries@[j].1.staging_dir,
            decreases entries.len() - i,
        {
            let entry = &entries[i];
            saved.push((entry.0, path_clone(&entry.1.staging_dir)));
            i = i + 1;
        }
        proof {
            assert forall|k: u128| self@.contains_key(k) implies exists|j: int|
                0 <= j < saved@.len() && #[trigger] saved@[j].0 == k by {
                let j = choose|j: int| 0 <= j < entries@.len() && #[trigger] entries@[j].0 == k;
                assert(saved@[j].0 == k);
            }
            assert forall|a: int, b: int| 0 <= a < b < saved@.len() implies #[trigger] saved@[a].0
                != #[trigger] saved@[b].0 by {
                assert(entries@[a].0 != entries@[b].0);
            }
        }
        saved
    }

    /// Builds the index from the outcome of loading each saved entry, in order:
    /// a loaded game is put under its entry's identifier, and an entry whose
    /// game could not be loaded is skipped.
    pub fn from_loaded(loaded: Vec<(u128, Option<Game>)>) -> (index: GameIndex)
        ensures
            index@ == loaded_map(loaded@),
            forall|k: u128| #[trigger] index@.contains_key(k)
                <==> exists|i: int| 0 <= i < loaded@.len() && #[trigger] loaded@[i].0 == k && loaded@[i].1 is Some,
            forall|i: int| #[trigger] last_load_of(loaded@, i) ==> index@[loaded@[i].0] == loaded@[i].1->0,
    {
        proof {
            lemma_loaded_games(loaded@);
        }
        let ghost all = loaded@;
        let total: usize = loaded.len();
        assert(all.len() == total);
        let mut rest = loaded;
        let mut index = GameIndex::new();
        let mut i: usize = 0;
        while rest.len() > 0
            invariant
                i + rest@.len() == all.len(),
                all.len() <= usize::MAX,
                rest@ == all.subrange(i as int, all.len() as int),
                index@ == loaded_map(all.take(i as int)),
            decreases rest@.len(),
        {
            let (id, outcome) = rest.remove(0);
            proof {
                assert(all.take(i + 1).drop_last() =~= all.take(i as int));
                assert(all.take(i + 1).last() == all[i as int]);
            }
            match outcome {
                Some(game) => {
                    let _ = index.insert(id, Arc::new(game));
                },
                None => {},
            }
            i = i + 1;
            proof {
                assert(rest@ =~= all.subrange(i as int, all.len() as int));
            }
        }
        proof {
            assert(all.take(i as int) =~= all);
        }
        index
    }
}

/// When every entry of `loaded` loaded the game that `m` holds under the
/// entry's identifier, reading back holds exactly those identifiers, each with
/// the game of `m`.
proof fn lemma_loaded_from(m: Map<u128, Game>, loaded: Seq<(u128, Option<Game>)>)
    requires
        forall|i: int| 0 <= i < loaded.len() ==> m.contains_key(#[trigger] loaded[i].0)
            && loaded[i].1 == Some(m[loaded[i].0]),
    ensures
        forall|k: u128| loaded_map(loaded).contains_key(k)
            <==> exists|i: int| 0 <= i < loaded.len() && #[trigger] loaded[i].0 == k,
        forall|k: u128| #[trigger] loaded_map(loaded).contains_key(k) ==> loaded_map(loaded)[k] == m[k],
    decreases loaded.len(),
{
    if loaded.len() > 0 {
        let before = loaded.drop_last();
        assert forall|i: int| 0 <= i < before.len() implies m.contains_key(#[trigger] before[i].0)
            && before[i].1 == Some(m[before[i].0]) by {
            assert(before[i] == loaded[i]);
        }
        lemma_loaded_from(m, before);
        let last = loaded.len() - 1;
        assert(loaded[last].0 == loaded.last().0);
        assert forall|k: u128| loaded_map(loaded).contains_key(k)
            implies exists|i: int| 0 <= i < loaded.len() && #[trigger] loaded[i].0 == k by {
            if k != loaded.last().0 {
                assert(loaded_map(before).contains_key(k));
                let i = choose|i: int| 0 <= i < before.len() && #[trigger] before[i].0 == k;
                assert(loaded[i] == before[i]);
            }
        }
        assert forall|k: u128| (exists|i: int| 0 <= i < loaded.len() && #[trigger] loaded[i].0 == k)
            implies loaded_map(loaded).contains_key(k) by {
            let i = choose|i: int| 0 <= i < loaded.len() && #[trigger] loaded[i].0 == k;
            if i < last {
                assert(before[i] == loaded[i]);
                assert(loaded_map(before).contains_key(k));
            }
        }
        assert(loaded[last].1 == Some(m[loaded[last].0]));
        assert forall|k: u128| #[trigger] loaded_map(loaded).contains_key(k)
            implies loaded_map(loaded)[k] == m[k] by {
            if k != loaded.last().0 {
                assert(loaded_map(before).contains_key(k));
            }
        }
    }
}

/// Reading back a saved index gives the same index: when each saved entry
/// loads the very game that the index held under its identifier, the games
/// read back are exactly the games of the index.
pub proof fn lemma_reload_restores_index(
    m: Map<u128, Game>,
    saved: Seq<(u128, PathBuf)>,
    loaded: Seq<(u128, Option<Game>)>,
)
    requires
        saved_form(m, saved),
        loaded.len() == saved.len(),
        forall|i: int| 0 <= i < saved.len() ==> #[trigger] loaded[i] == (saved[i].0, Some(m[saved[i].0])),
    ensures
        loaded_map(loaded) == m,
{
    assert forall|i: int| 0 <= i < loaded.len() implies m.contains_key(#[trigger] loaded[i].0)
        && loaded[i].1 == Some(m[loaded[i].0]) by {
        assert(loaded[i] == (saved[i].0, Some(m[saved[i].0])));
        assert(m.contains_key(saved[i].0));
    }
    lemma_loaded_from(m, loaded);
    assert forall|k: u128| m.contains_key(k) implies loaded_map(loaded).contains_key(k) by {
        let i = choose|i: int| 0 <= i < saved.len() && #[trigger] saved[i].0 == k;
        assert(loaded[i].0 == k);
    }
    assert forall|k: u128| loaded_map(loaded).contains_key(k) implies m.contains_key(k) by {
        let i = choose|i: int| 0 <= i < loaded.len() && #[trigger] loaded[i].0 == k;
        assert(loaded[i] == (saved[i].0, Some(m[saved[i].0])));
    }
    assert(loaded_map(loaded) =~= m);
}

/// What is written is read back: after a game is put into the index under
/// its own identifier, looking that identifier up gives the game, and every
/// other identifier gives what it gave before.
pub proof fn lemma_insert_from_then_get(m: Map<u128, Game>, game: Game, other: u128)
    requires
        other != game.id,
    ensures
        m.insert(game.id, game).contains_key(game.id),
        m.insert(game.id, game)[game.id] == game,
        m.insert(game.id, game).contains_key(other) == m.contains_key(other),
        m.contains_key(other) ==> m.insert(game.id, game)[other] == m[other],
{
}

/// Putting a game into the index under its own identifier keeps every game
/// held under its own identifier.
pub proof fn lemma_insert_from_keeps_keyed_by_id(m: Map<u128, Game>, game: Game)
    requires
        keyed_by_id(m),
    ensures
        keyed_by_id(m.insert(game.id, game)),
{
}

/// Reading back a saved index keeps exactly the games that loaded: an
/// identifier is held if and only if some entry under it loaded a game, and
/// it holds the game of the last entry that loaded one under it. An entry
/// whose game failed to load changes nothing else.
pub proof fn lemma_loaded_games(loaded: Seq<(u128, Option<Game>)>)
    ensures
        forall|k: u128| #[trigger] loaded_map(loaded).contains_key(k)
            <==> exists|i: int| 0 <= i < loaded.len() && #[trigger] loaded[i].0 == k && loaded[i].1 is Some,
        forall|i: int| #[trigger] last_load_of(loaded, i) ==> loaded_map(loaded)[loaded[i].0] == loaded[i].1->0,
    decreases loaded.len(),
{
    if loaded.len() > 0 {
        let before = loaded.drop_last();
        let n = loaded.len() - 1;
        lemma_loaded_games(before);
        assert forall|i: int| 0 <= i < before.len() implies #[trigger] before[i] == loaded[i] by {}
        assert forall|k: u128| #[trigger] loaded_map(loaded).contains_key(k)
            <==> exists|i: int| 0 <= i < loaded.len() && #[trigger] loaded[i].0 == k && loaded[i].1 is Some by {
            if loaded_map(loaded).contains_key(k) {
                if loaded[n].1 is Some && loaded[n].0 == k {
                    assert(loaded[n].0 == k);
                } else {
                    assert(loaded_map(before).contains_key(k));
                    let i = choose|i: int| 0 <= i < before.len() && #[trigger] before[i].0 == k && before[i].1 is Some;
                    assert(loaded[i] == before[i]);
                }
            }
            if exists|i: int| 0 <= i < loaded.len() && #[trigger] loaded[i].0 == k && loaded[i].1 is Some {
                let i = choose|i: int| 0 <= i < loaded.len() && #[trigger] loaded[i].0 == k && loaded[i].1 is Some;
                if i < n {
                    assert(before[i] == loaded[i]);
                    assert(before[i].0 == k);
                    assert(loaded_map(before).contains_key(k));
                }
            }
        }
        assert forall|i: int| #[trigger] last_load_of(loaded, i)
            implies loaded_map(loaded)[loaded[i].0] == loaded[i].1->0 by {
            if i < n {
                assert(loaded[n].0 != loaded[i].0 || loaded[n].1 is None);
                assert forall|j: int| i < j < before.len() implies #[trigger] before[j].0 != before[i].0
                    || before[j].1 is None by {
                    assert(before[j] == loaded[j]);
                    assert(loaded[j].0 != loaded[i].0 || loaded[j].1 is None);
                }
                assert(before[i] == loaded[i]);
                assert(last_load_of(before, i));
            }
        }
    }
}

/// An entry whose game failed to load changes nothing: reading back with it
/// in front of the other entries gives the same games as reading back the
/// other entries alone.
pub proof fn lemma_failed_entry_changes_nothing(id: u128, rest: Seq<(u128, Option<Game>)>)
    ensures
        loaded_map(seq![(id, None::<Game>)] + rest) == loaded_map(rest),
    decreases rest.len(),
{
    let all = seq![(id, None::<Game>)] + rest;
    if rest.len() == 0 {
        assert(all.drop_last() =~= Seq::<(u128, Option<Game>)>::empty());
        assert(loaded_map(all) == loaded_map(all.drop_last()));
    } else {
        lemma_failed_entry_changes_nothing(id, rest.drop_last());
        assert(all.drop_last() =~= seq![(id, None::<Game>)] + rest.drop_last());
        assert(all.last() == rest.last());
    }
}

} // verus!
