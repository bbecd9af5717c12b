# mod_manager

A desktop manager for game mods. The library under `src/` holds the parts
that are proved with Verus:

- `game`, `mods`, `deployers`: the records of games, their mods and their
  deployers; `mods` also plans how a mod on the local disk is copied into a
  game's staging directory;
- `game_index`: the index of managed games, its saved form (identifier and
  staging directory of each game), and how it is rebuilt when read back;
- `app_state`: the state of the interface and what each user action does to
  it and to the index;
- `storage`: where the configuration, the interface state and the cache go
  on each system;
- `fs`: the decisions of the file-system helpers;
- `ids`, `paths`, `clock`, `hashmap`: the uuid, path, time and hash-map
  operations of std and of outside crates that the library calls, each with
  the contract it is trusted to keep.

`app/` is the program around it: the eframe window, reading and writing
files, and the serialised forms of the library's types.
