use decker::card_ids::{BATTLE_DISCIPLINE, IMPROVISE};
use decker::cards::all_card_defs;
use decker::starter_decks::fighter_starter_deck;

#[test]
fn starter_deck_size() {
    for subclass in &["two_handed", "defense", "dueling"] {
        let deck = fighter_starter_deck(subclass, "human", "soldier");
        assert_eq!(
            deck.len(),
            16,
            "{} starter deck should have 16 cards",
            subclass
        );
    }
}

#[test]
fn starter_deck_all_ids_valid() {
    let defs = all_card_defs();
    for subclass in &["two_handed", "defense", "dueling"] {
        let deck = fighter_starter_deck(subclass, "human", "soldier");
        for card in &deck {
            assert!(
                defs.iter().any(|d| d.id == card.def_id),
                "{} starter deck contains unknown card {:?}",
                subclass,
                card.def_id
            );
        }
    }
}

#[test]
fn human_has_improvise() {
    let deck = fighter_starter_deck("dueling", "human", "soldier");
    let count = deck.iter().filter(|c| c.def_id == IMPROVISE).count();
    assert_eq!(count, 1);
}

#[test]
fn soldier_has_battle_discipline() {
    let deck = fighter_starter_deck("dueling", "human", "soldier");
    let count = deck.iter().filter(|c| c.def_id == BATTLE_DISCIPLINE).count();
    assert_eq!(count, 1);
}

#[test]
fn each_race_produces_valid_deck() {
    let races = [
        "human", "high_elf", "dark_elf", "dwarf", "gnome",
        "halfling", "orc", "goblin", "dragonkin", "pantheran",
    ];
    let defs = all_card_defs();
    for race in &races {
        let deck = fighter_starter_deck("dueling", race, "soldier");
        assert_eq!(deck.len(), 16, "race {} deck size", race);
        for card in &deck {
            assert!(
                defs.iter().any(|d| d.id == card.def_id),
                "race {} has unknown card {:?}",
                race,
                card.def_id
            );
        }
    }
}

#[test]
fn all_cards_start_not_upgraded() {
    let deck = fighter_starter_deck("two_handed", "human", "soldier");
    assert!(deck.iter().all(|c| !c.upgraded));
}

