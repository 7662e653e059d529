# cypher

Game logic of an action role-playing game, written in Verus: every function in `src/`
carries a contract that Verus proves.

- `src/tile.rs`, `src/wave_function_collapse.rs`, `src/dungeon.rs`: dungeon tiles, the
  rules by which two rotated tiles fit side by side, a wave-function-collapse fill of a
  grid, and the random layout of rooms.
- `src/data.rs`: the traits shared by every kind of game data: definitions, databases of
  definitions keyed by id, and generators of instances.
- `src/affix.rs`, `src/affix_generation.rs`, `src/affix_pool.rs`: affixes, their tiers, and
  the weighted pools from which items roll them.
- `src/item.rs`, `src/item_generation.rs`, `src/item_rolling.rs`, `src/loot_pool.rs`: item
  definitions, the items generated from them, and the loot pools that drop them.
- `src/equipment.rs`: what a character wears, one item per slot.
- `src/loading.rs`: turning the records read from the data files, which name other
  definitions by id, into definitions.
- `src/editing.rs`, `src/table_display.rs`: what the data editor does to the data and shows
  of it.
- `src/random.rs`: the random draws, made with `rand` and `uuid`; their contracts are
  trusted, as is that of `search_key` in `src/editing.rs`, which finds the entry that the
  editor replaces with the standard library's `binary_search_by`. Everything else in `src/`
  is proved.

`app/` holds what stays outside the proofs: reading and writing the JSON data files with
`serde_json`, stat values (fractional numbers), and the program's entry point.
