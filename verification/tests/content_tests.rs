use decker::content::{content_hash_from_bytes, load_content};
use decker::encounters::{boss_encounter, early_encounter};
use decker::starter_decks::fighter_starter_deck;

#[test]
fn load_content_non_empty() {
    let content = load_content();
    assert!(!content.card_defs.is_empty());
    assert!(!content.enemy_defs.is_empty());
}

#[test]
fn all_starter_deck_cards_exist_in_content() {
    let content = load_content();
    for subclass in &["two_handed", "defense", "dueling"] {
        let deck = fighter_starter_deck(subclass, "human", "soldier");
        for card in &deck {
            assert!(
                content.card_def(&card.def_id).is_some(),
                "starter card {:?} for {} not found in content",
                card.def_id,
                subclass
            );
        }
    }
}

#[test]
fn all_encounter_enemies_exist_in_content() {
    let content = load_content();
    // Check early encounters
    for i in 0..4 {
        for id in early_encounter(i) {
            assert!(
                content.enemy_def(&id).is_some(),
                "early encounter enemy {:?} not found in content",
                id
            );
        }
    }
    // Check boss encounters
    for act in 1..=3 {
        for id in boss_encounter(act) {
            assert!(
                content.enemy_def(&id).is_some(),
                "boss enemy {:?} not found in content",
                id
            );
        }
    }
}

#[test]
fn content_hash_of_known_bytes() {
    let h = content_hash_from_bytes(&b"abc".to_vec());
    assert_eq!(h, "ba7816bf8f01cfea414140de5dae2223b00361a396177a9cb410ff61f20015ad");
}

#[test]
fn content_hash_is_deterministic_and_hex() {
    let data = b"decker content".to_vec();
    let h1 = content_hash_from_bytes(&data);
    let h2 = content_hash_from_bytes(&data);
    assert_eq!(h1, h2);
    assert_eq!(h1.len(), 64);
    assert!(h1.chars().all(|c| c.is_ascii_hexdigit() && !c.is_ascii_uppercase()));
}
