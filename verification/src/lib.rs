//! Decker — the game logic of a seeded roguelike deckbuilder: status effects,
//! player and enemy state, card and enemy content, the combat state machine,
//! encounter generation and the gauntlet run progression.

pub mod status;
pub mod card;
pub mod class;
pub mod enemy;
pub mod player;
pub mod rng;
pub mod content_tables;
pub mod subclass;
pub mod version;
pub mod combat;
pub mod enemies;
pub mod encounters;
pub mod cards;
pub mod starter_decks;
pub mod content;
pub mod gauntlet;
pub mod card_ids;
pub mod observation;
