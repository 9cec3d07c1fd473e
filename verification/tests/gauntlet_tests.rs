use std::collections::HashSet;

use decker::card::CardInstance;
use decker::enemies::all_enemy_defs;
use decker::gauntlet::{
    effective_act, player_level_at, post_fight_event, GauntletAction, GauntletError, GauntletEvent, GauntletPhase,
    GauntletRunner, OverflowNextPhase, PerkType, PostFightEvent, MAX_COLLECTION_SIZE, PLAY_DECK_SIZE,
};

#[test]
fn new_runner_starts_in_combat() {
    let g = GauntletRunner::new("two_handed", 42);
    assert_eq!(g.phase, GauntletPhase::Combat);
    assert!(g.combat.is_some());
    assert_eq!(g.fights_won, 0);
    assert_eq!(g.play_deck.len(), PLAY_DECK_SIZE);
    assert_eq!(g.collection.len(), PLAY_DECK_SIZE);
    assert_eq!(g.level, 1);
}

#[test]
fn legal_actions_in_combat() {
    let g = GauntletRunner::new("defense", 42);
    let actions = g.legal_actions();
    assert!(!actions.is_empty());
    assert!(actions
        .iter()
        .all(|a| matches!(a, GauntletAction::CombatAction(_))));
}

#[test]
fn game_over_has_no_actions() {
    let mut g = GauntletRunner::new("dueling", 42);
    g.phase = GauntletPhase::GameOver;
    g.combat = None;
    assert!(g.legal_actions().is_empty());
    assert!(g.is_game_over());
}

#[test]
fn reward_phase_has_pick_skip_actions() {
    let mut g = GauntletRunner::new("two_handed", 42);
    g.phase = GauntletPhase::Reward;
    g.reward_options = vec!["strike".into(), "defend".into(), "heavy_strike".into()];
    let actions = g.legal_actions();

    assert!(actions.contains(&GauntletAction::PickReward(0)));
    assert!(actions.contains(&GauntletAction::PickReward(1)));
    assert!(actions.contains(&GauntletAction::PickReward(2)));
    assert!(actions.contains(&GauntletAction::SkipReward));
}

#[test]
fn pick_reward_starts_next_combat() {
    let mut g = GauntletRunner::new("two_handed", 42);
    g.phase = GauntletPhase::Reward;
    g.reward_options = vec!["strike".into(), "defend".into(), "heavy_strike".into()];
    let initial_coll = g.collection.len();

    let events = g.apply(GauntletAction::PickReward(1)).unwrap();
    assert_eq!(g.collection.len(), initial_coll + 1);
    assert!(events
        .iter()
        .any(|e| matches!(e, GauntletEvent::RewardPicked { card_id } if card_id == "defend")));
    assert!(events
        .iter()
        .any(|e| matches!(e, GauntletEvent::CombatStarted { .. })));
    assert_eq!(g.phase, GauntletPhase::Combat);
}

#[test]
fn skip_reward_starts_next_combat() {
    let mut g = GauntletRunner::new("defense", 42);
    g.phase = GauntletPhase::Reward;
    g.reward_options = vec!["strike".into()];
    let initial_coll = g.collection.len();

    let events = g.apply(GauntletAction::SkipReward).unwrap();
    assert_eq!(g.collection.len(), initial_coll); // no change
    assert!(events
        .iter()
        .any(|e| matches!(e, GauntletEvent::RewardSkipped)));
    assert_eq!(g.phase, GauntletPhase::Combat);
}

#[test]
fn wrong_phase_rejected() {
    let mut g = GauntletRunner::new("two_handed", 42);
    // In combat phase, reward actions should fail
    let result = g.apply(GauntletAction::SkipReward);
    assert!(matches!(result, Err(GauntletError::WrongPhase)));
}

#[test]
fn gauntlet_uses_level_aware_pool_without_enemy_scaling() {
    let mut g = GauntletRunner::new("dueling", 42);
    g.fights_won = 8;
    g.level = 3;
    g.start_combat();

    let combat = g.combat.as_ref().expect("combat should be present");
    // Level 3 encounters are curated — collect all valid enemy IDs for this level.
    let all_defs = all_enemy_defs();
    let allowed: HashSet<String> = all_defs.iter().map(|d| d.id.to_string()).collect();

    for enemy in &combat.enemies {
        assert!(allowed.contains(&enemy.def_id));
        let base = g
            .content
            .enemy_def(&enemy.def_id)
            .expect("enemy must exist in content");
        assert_eq!(enemy.max_hp, base.max_hp);
    }
}

#[test]
fn effective_act_caps_at_3() {
    assert_eq!(effective_act(0), 1);
    assert_eq!(effective_act(5), 1);
    assert_eq!(effective_act(6), 2);
    assert_eq!(effective_act(12), 3);
    assert_eq!(effective_act(100), 3);
}

#[test]
fn all_subclasses_can_start() {
    for sc in &["two_handed", "defense", "dueling"] {
        let g = GauntletRunner::new(sc, 42);
        assert_eq!(g.phase, GauntletPhase::Combat);
        assert!(g.combat.is_some());
    }
}

#[test]
fn post_fight_event_schedule() {
    // Spot-check the event schedule
    assert!(matches!(
        post_fight_event(4, "defense", None),
        PostFightEvent::CardGrant { level: 2, .. }
    ));
    assert!(matches!(
        post_fight_event(7, "defense", None),
        PostFightEvent::RestStop
    ));
    assert!(matches!(
        post_fight_event(8, "defense", None),
        PostFightEvent::CardGrant { level: 3, .. }
    ));
    assert!(matches!(
        post_fight_event(16, "defense", None),
        PostFightEvent::PerkGrant {
            level: 5,
            perk: PerkType::DrawBonus
        }
    ));
    assert!(matches!(
        post_fight_event(1, "defense", None),
        PostFightEvent::BattleReward
    ));
}

#[test]
fn player_level_tracking() {
    // After fight 4, player should be level 2
    assert_eq!(player_level_at(4, "defense"), 2);
    // After fight 44, player should be level 12
    assert_eq!(player_level_at(44, "defense"), 12);
    // At fight 0, level 1
    assert_eq!(player_level_at(0, "defense"), 1);
}

#[test]
fn play_deck_stays_at_16() {
    let g = GauntletRunner::new("two_handed", 42);
    assert_eq!(g.play_deck.len(), PLAY_DECK_SIZE);
}

#[test]
fn deck_swap_swaps_card() {
    let mut g = GauntletRunner::new("two_handed", 42);
    let new_card = "energy_surge".to_string();
    g.collection.push(CardInstance {
        def_id: new_card.clone(),
        upgraded: false,
    });
    g.phase = GauntletPhase::DeckSwap {
        new_card_id: new_card.clone(),
    };

    let old_card = g.play_deck[0].def_id.clone();
    let events = g.apply(GauntletAction::SwapIntoDeck(0)).unwrap();
    assert_eq!(g.play_deck[0].def_id, new_card);
    assert_eq!(g.play_deck.len(), PLAY_DECK_SIZE);
    assert!(events.iter().any(
        |e| matches!(e, GauntletEvent::DeckSwapped { added_to_deck, removed_from_deck }
        if added_to_deck == &new_card && removed_from_deck == &old_card)
    ));
    assert_eq!(g.phase, GauntletPhase::Combat);
}

#[test]
fn reward_pick_over_cap_enters_collection_overflow() {
    let mut g = GauntletRunner::new("two_handed", 42);
    g.phase = GauntletPhase::Reward;
    g.reward_options = vec!["defend".into()];
    while g.collection.len() < MAX_COLLECTION_SIZE {
        g.collection.push(CardInstance {
            def_id: "strike".into(),
            upgraded: false,
        });
    }

    let events = g.apply(GauntletAction::PickReward(0)).unwrap();
    assert!(events
        .iter()
        .any(|e| matches!(e, GauntletEvent::RewardPicked { card_id } if card_id == "defend")));
    assert!(matches!(
        g.phase,
        GauntletPhase::CollectionOverflow {
            next_phase: OverflowNextPhase::NextCombat
        }
    ));
}

#[test]
fn rest_stop_enters_ordered_rebuild() {
    let mut g = GauntletRunner::new("two_handed", 42);
    g.collection.push(CardInstance {
        def_id: "power_strike".into(),
        upgraded: false,
    });

    let mut events = Vec::new();
    g.auto_rest_stop(&mut events);
    assert!(events
        .iter()
        .any(|e| matches!(e, GauntletEvent::RestHealed { .. })));
    assert!(matches!(
        g.phase,
        GauntletPhase::DeckRebuild {
            slot_idx: 0,
            partial_deck
        } if partial_deck.is_empty()
    ));
}

#[test]
fn full_run_terminates() {
    let mut g = GauntletRunner::new("two_handed", 99);
    let mut steps = 0;
    let max_steps = 50_000;

    while !g.is_game_over() && steps < max_steps {
        let actions = g.legal_actions();
        if actions.is_empty() {
            break;
        }
        // Always pick first action (simple bot)
        let _ = g.apply(actions[0].clone());
        steps += 1;
    }

    assert!(steps > 0, "should have taken at least one action");
}


#[test]
fn victories_and_level_ups_are_reported() {
    let mut g = GauntletRunner::new("two_handed", 99);
    let mut steps = 0;
    let mut wins_seen = 0;
    while !g.is_game_over() && steps < 50_000 {
        let actions = g.legal_actions();
        if actions.is_empty() {
            break;
        }
        let (won_before, level_before) = (g.fights_won, g.level);
        let events = g.apply(actions[0].clone()).unwrap();
        if g.fights_won > won_before {
            wins_seen += 1;
            assert!(events
                .iter()
                .any(|e| matches!(e, GauntletEvent::FightWon { fights_won, .. } if *fights_won == g.fights_won)));
        }
        if g.level > level_before {
            assert!(events
                .iter()
                .any(|e| matches!(e, GauntletEvent::LevelUp { level, .. } if *level == g.level)));
        }
        steps += 1;
    }
    assert!(wins_seen > 0);
}
