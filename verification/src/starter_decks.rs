//! The Fighter starter deck.

use vstd::prelude::*;

use crate::card::CardInstance;
use crate::cards::{background_card_id, is_known_background, is_known_race, race_card_id, spec_background_card, spec_race_card};

verus! {

/// The Fighter sub-classes.
pub open spec fn is_fighter_subclass(subclass: Seq<char>) -> bool {
    subclass == "dueling"@ || subclass == "defense"@ || subclass == "two_handed"@
}

/// The card ids of a deck.
pub open spec fn deck_ids_view(deck: Seq<CardInstance>) -> Seq<Seq<char>> {
    deck.map_values(|c: CardInstance| c.def_id@)
}

/// The starter deck's card ids: 6 Strike, 7 Defend, Second Wind, the race
/// card and the background card — 16 cards.
pub open spec fn spec_starter_ids(race: Seq<char>, background: Seq<char>) -> Seq<Seq<char>> {
    Seq::new(6, |i: int| "strike"@) + Seq::new(7, |i: int| "defend"@) + seq![
        "second_wind"@,
        spec_race_card(race),
        spec_background_card(background),
    ]
}

/// Build the starter deck for a Fighter sub-class, race and background:
/// 6 Strike and 7 Defend, Second Wind, then the race card and the
/// background card, none of them upgraded.
pub fn fighter_starter_deck(subclass_id: &str, race: &str, background: &str) -> (r: Vec<CardInstance>)
    requires
        is_fighter_subclass(subclass_id@),
        is_known_race(race@),
        is_known_background(background@),
    ensures
        deck_ids_view(r@) == spec_starter_ids(race@, background@),
        forall|i: int| 0 <= i < r@.len() ==> !(#[trigger] r@[i]).upgraded,
{
    let mut cards: Vec<CardInstance> = Vec::new();
    let mut k: usize = 0;
    while k < 6
        invariant
            k <= 6,
            deck_ids_view(cards@) == Seq::new(k as nat, |i: int| "strike"@),
            forall|i: int| 0 <= i < cards@.len() ==> !(#[trigger] cards@[i]).upgraded,
        decreases 6 - k,
    {
        let ghost pre = cards@;
        cards.push(CardInstance::of("strike".to_string()));
        k = k + 1;
        proof {
            assert(deck_ids_view(cards@) =~= deck_ids_view(pre).push("strike"@));
            assert(deck_ids_view(cards@) =~= Seq::new(k as nat, |i: int| "strike"@));
        }
    }
    let ghost strikes = deck_ids_view(cards@);
    k = 0;
    while k < 7
        invariant
            k <= 7,
            strikes == Seq::new(6, |i: int| "strike"@),
            deck_ids_view(cards@) == strikes + Seq::new(k as nat, |i: int| "defend"@),
            forall|i: int| 0 <= i < cards@.len() ==> !(#[trigger] cards@[i]).upgraded,
        decreases 7 - k,
    {
        let ghost pre = cards@;
        cards.push(CardInstance::of("defend".to_string()));
        k = k + 1;
        proof {
            assert(deck_ids_view(cards@) =~= deck_ids_view(pre).push("defend"@));
            assert(deck_ids_view(cards@) =~= strikes + Seq::new(k as nat, |i: int| "defend"@));
        }
    }
    let ghost core = deck_ids_view(cards@);
    cards.push(CardInstance::of("second_wind".to_string()));
    cards.push(CardInstance::of(race_card_id(race).to_string()));
    cards.push(CardInstance::of(background_card_id(background).to_string()));
    proof {
        assert(deck_ids_view(cards@) =~= spec_starter_ids(race@, background@));
    }
    cards
}

} // verus!
