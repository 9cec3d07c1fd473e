use decker::card::{CardDef, CardInstance, CardType, Effect, Rarity, Target};
use decker::class::CardTag;
use decker::content::load_content;
use decker::gauntlet::{GauntletPhase, GauntletRunner, OverflowNextPhase};
use decker::observation::{
    card_draw_count, card_enemy_statuses, card_energy_gain, card_has_conditional, card_hp_change, card_obs_from_def,
    card_self_statuses, card_targets_all, card_total_block, card_total_damage, content_is_observable, observed_phase,
    phase_flags, remaining_rebuild_ids, ObservedPhase,
};
use decker::status::StatusType;

fn mixed_def() -> CardDef {
    CardDef {
        id: "mixed".into(),
        name: "Mixed".to_string(),
        rarity: Rarity::Common,
        cost: 2,
        card_type: CardType::Spell,
        exhaust: true,
        effects: vec![
            Effect::DealDamage { target: Target::SingleEnemy, amount: 6 },
            Effect::DealDamage { target: Target::AllEnemies, amount: 4 },
            Effect::GainBlock { amount: 5 },
            Effect::ApplyStatus { target: Target::SingleEnemy, status: StatusType::Weakened, stacks: 2 },
            Effect::ApplyStatus { target: Target::AllEnemies, status: StatusType::Weakened, stacks: 1 },
            Effect::ApplyStatus { target: Target::Player, status: StatusType::Empowered, stacks: 3 },
            Effect::ApplyStatusPerCardPlayed { target: Target::RandomEnemy, status: StatusType::Bleeding, per_card: 2 },
            Effect::DrawCards { count: 2 },
            Effect::GainEnergy { amount: 1 },
            Effect::Heal { amount: 3 },
            Effect::LoseHp { amount: 1 },
        ],
        description: "Everything at once.".to_string(),
        class: None,
        subclass: None,
        tags: vec![CardTag::Attack],
        recycle: false,
        concentration: true,
        innate: false,
        milestone: false,
        inherent: false,
    }
}

#[test]
fn card_summary_sums_each_measure() {
    let d = mixed_def();
    assert_eq!(card_total_damage(&d), 10);
    assert_eq!(card_total_block(&d), 5);
    assert_eq!(card_draw_count(&d), 2);
    assert_eq!(card_energy_gain(&d), 1);
    assert_eq!(card_hp_change(&d), 2);
    assert!(card_targets_all(&d));
    assert!(!card_has_conditional(&d));
}

#[test]
fn status_totals_merge_per_side() {
    let d = mixed_def();
    let enemy = card_enemy_statuses(&d);
    assert_eq!(enemy.len(), 2);
    assert!(enemy.contains(&(StatusType::Weakened, 3)));
    assert!(enemy.contains(&(StatusType::Bleeding, 2)));
    let own = card_self_statuses(&d);
    assert_eq!(own, vec![(StatusType::Empowered, 3)]);
}

#[test]
fn status_applied_with_zero_net_stacks_is_listed() {
    let mut d = mixed_def();
    d.effects = vec![
        Effect::ApplyStatus { target: Target::Player, status: StatusType::Marked, stacks: 2 },
        Effect::ApplyStatus { target: Target::Player, status: StatusType::Marked, stacks: -2 },
    ];
    assert_eq!(card_self_statuses(&d), vec![(StatusType::Marked, 0)]);
    assert!(card_enemy_statuses(&d).is_empty());
}

#[test]
fn card_observation_copies_definition() {
    let d = mixed_def();
    let o = card_obs_from_def(&"mixed".to_string(), Some(&d), false);
    assert_eq!(o.card_id, "mixed");
    assert_eq!(o.name, "Mixed");
    assert_eq!(o.cost, 2);
    assert_eq!(o.tags, vec![CardTag::Attack]);
    assert!(!o.playable);
    assert!(o.exhaust);
    assert!(o.concentration);
    assert_eq!(o.total_damage, 10);
    assert_eq!(o.hp_change, 2);
}

#[test]
fn unknown_card_observation_is_blank() {
    let o = card_obs_from_def(&"nowhere".to_string(), None, true);
    assert_eq!(o.card_id, "nowhere");
    assert!(o.playable);
    assert_eq!(o.name, "");
    assert_eq!(o.cost, 0);
    assert!(o.tags.is_empty());
    assert_eq!(o.total_damage, 0);
    assert!(o.enemy_statuses.is_empty());
    assert!(!o.has_conditional);
}

#[test]
fn shipped_content_is_observable() {
    assert!(content_is_observable(&load_content()));
}

#[test]
fn phase_observations() {
    assert_eq!(observed_phase(&GauntletPhase::Combat), ObservedPhase::Combat);
    assert_eq!(
        observed_phase(&GauntletPhase::CollectionOverflow { next_phase: OverflowNextPhase::NextCombat }),
        ObservedPhase::CollectionOverflow
    );
    assert_eq!(observed_phase(&GauntletPhase::GameOver), ObservedPhase::GameOver);
    assert_eq!(phase_flags(&GauntletPhase::Reward), (false, true, false));
    assert_eq!(phase_flags(&GauntletPhase::InnateChoice), (false, false, false));
}

#[test]
fn remaining_rebuild_ids_subtract_placed_copies() {
    let collection: Vec<CardInstance> = ["strike", "defend", "strike", "bash"]
        .iter()
        .map(|s| CardInstance::of(s.to_string()))
        .collect();
    let partial = vec![CardInstance::of("strike".to_string())];
    let rest = remaining_rebuild_ids(&collection, &partial);
    assert_eq!(rest, vec!["strike".to_string(), "defend".to_string(), "bash".to_string()]);
}

#[test]
fn observe_new_run_in_combat() {
    let g = GauntletRunner::new("dueling", 3);
    let o = g.observe();
    let c = g.combat.as_ref().unwrap();
    assert!(o.in_combat && !o.in_reward && !o.game_over);
    assert_eq!(o.phase_type, ObservedPhase::Combat);
    assert_eq!(o.hand.len(), c.hand.len());
    let hand_ids: Vec<String> = c.hand.iter().map(|h| h.def_id.clone()).collect();
    assert_eq!(o.hand_card_ids, hand_ids);
    for (i, h) in o.hand.iter().enumerate() {
        assert_eq!(h.card_id, c.hand[i].def_id);
        assert_eq!(h.playable, c.can_play_card(i, &g.content));
    }
    assert_eq!(o.enemies.len(), c.enemies.len());
    for (i, e) in o.enemies.iter().enumerate() {
        assert_eq!(e.index, i);
        assert_eq!(e.hp, c.enemies[i].hp);
        assert!(e.alive);
        assert!(!e.name.is_empty());
    }
    assert_eq!(o.player_hp, c.player.hp);
    assert_eq!(o.draw_pile_size, c.draw_pile.len());
    assert_eq!(o.play_deck_size, 16);
    assert_eq!(o.play_deck_cards.len(), 16);
    assert_eq!(o.fights_won, 0);
    assert_eq!(o.player_level, 1);
    assert!(o.acquired_card.is_none());
    assert!(o.choice_cards.is_empty());
    assert_eq!(o.subclass, "dueling");
    assert_eq!(o.race, "human");
    assert_eq!(o.background, "soldier");
}

#[test]
fn observe_reward_offer() {
    let mut g = GauntletRunner::new("two_handed", 42);
    g.phase = GauntletPhase::Reward;
    g.combat = None;
    g.reward_options = vec!["strike".into(), "defend".into(), "heavy_strike".into()];
    let o = g.observe();
    assert!(!o.in_combat && o.in_reward);
    assert!(o.hand.is_empty() && o.enemies.is_empty());
    assert_eq!(o.turn, 0);
    assert_eq!(o.player_hp, g.player.hp);
    assert_eq!(o.reward_cards.len(), 3);
    assert!(o.reward_cards.iter().all(|c| c.playable));
    assert_eq!(o.reward_cards[2].card_id, "heavy_strike");
    assert!(!o.reward_cards[2].name.is_empty());
}

#[test]
fn observe_deck_swap_shows_new_card() {
    let mut g = GauntletRunner::new("two_handed", 42);
    g.phase = GauntletPhase::DeckSwap { new_card_id: "heavy_strike".into() };
    g.combat = None;
    let o = g.observe();
    assert_eq!(o.phase_type, ObservedPhase::DeckSwap);
    let a = o.acquired_card.unwrap();
    assert_eq!(a.card_id, "heavy_strike");
    assert!(!a.playable);
}

#[test]
fn observe_rebuild_progress() {
    let mut g = GauntletRunner::new("two_handed", 42);
    let first = g.collection[0].clone();
    g.phase = GauntletPhase::DeckRebuild { slot_idx: 1, partial_deck: vec![first] };
    g.combat = None;
    let o = g.observe();
    assert_eq!(o.rebuild_slot_index, 1);
    assert_eq!(o.rebuild_partial_deck_card_ids, vec![g.collection[0].def_id.clone()]);
    assert_eq!(o.rebuild_remaining_card_ids.len(), g.collection.len() - 1);
    assert!(!o.choice_cards.is_empty());
}
