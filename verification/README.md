# decker

The game logic of Decker, a seeded roguelike deckbuilder, as a library
verified with Verus: every executable function in `src/` carries a contract
that Verus proves.

## Layout

- `src/status.rs`, `player.rs`, `enemy.rs`, `card.rs`, `class.rs`,
  `subclass.rs` — statuses, combatants, card and enemy definitions.
- `src/combat.rs` — the combat state machine: legal actions, playing cards,
  enemy turns, end conditions.
- `src/cards.rs`, `enemies.rs`, `card_ids.rs`, `starter_decks.rs`,
  `encounters.rs`, `content.rs`, `content_tables.rs` — the shipped content,
  the progression table, reward pools, encounter generation, the content
  digest and the stable by-id order its input is written in.
- `src/gauntlet.rs` — the 50-fight gauntlet run: phases, rewards, perks, rest
  stops, deck rebuilds.
- `src/observation.rs` — the snapshot an agent observes.
- `src/rng.rs` — the seeded generator (the `rand` crate behind it).
- `app/` — serialisable copies of the types, save files, observation export,
  the JSON of the content digest's input, floating-point enemy scaling and the
  feat list.
- `tests/` — the test suite.

## Laws

The public proof functions named `law_*` state what holds across calls:
every offered action is accepted (in combat and in a run), a run's level
follows its fight count, its play deck keeps 16 cards, its play deck stays
made of collection cards on every step where a swap into the deck has a
spare copy of the new card in the collection, fights are won one at a time,
block absorbs a hit first, reward pools only grow with the level, the
curated encounter tables are valid, a procedural encounter holds one to four
enemies of the three tiers (no tough one before act 2), an enemy's intent
comes back to where it started after as many steps as its pattern is long,
card ids and enemy ids are distinct, every tier id is defined, the debuff
count is the number of debuffs held, and version compatibility is an
equivalence.
