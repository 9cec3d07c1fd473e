use decker::cards::{generate_rewards, reward_pool_at_level};
use decker::combat::{Action, ActionError};
use decker::content::{content_hash_from_bytes, load_content, to_hex_lower};
use decker::encounters::{gauntlet_encounter, EncounterBackground, EncounterTemplate, EncounterTheme};
use decker::enemies::{all_enemy_defs, boss_ids, minion_ids, standard_ids, tough_ids};
use decker::gauntlet::{
    effective_act, player_level_at, rest_heal_amount, GauntletAction, GauntletError, GauntletPhase, GauntletRunner,
    OverflowNextPhase,
};
use decker::rng::GameRng;
use decker::version::EngineVersion;

#[test]
fn every_offered_action_is_accepted() {
    for seed in [1u64, 7, 42] {
        for sc in ["dueling", "defense", "two_handed"] {
            let g = GauntletRunner::new(sc, seed);
            let actions = g.legal_actions();
            assert!(!actions.is_empty());
            for a in actions {
                let mut fresh = GauntletRunner::new(sc, seed);
                assert!(fresh.apply(a).is_ok(), "{:?} refused", a);
            }
        }
    }
}

#[test]
fn reward_offer_actions_are_accepted() {
    let mut g = GauntletRunner::new("defense", 5);
    g.phase = GauntletPhase::Reward;
    g.combat = None;
    g.reward_options = vec!["strike".into(), "defend".into()];
    let actions = g.legal_actions();
    assert_eq!(actions, vec![GauntletAction::PickReward(0), GauntletAction::PickReward(1), GauntletAction::SkipReward]);
    for a in actions {
        let mut h = GauntletRunner::new("defense", 5);
        h.phase = GauntletPhase::Reward;
        h.combat = None;
        h.reward_options = vec!["strike".into(), "defend".into()];
        assert!(h.apply(a).is_ok());
    }
}

#[test]
fn refused_action_changes_nothing() {
    let mut g = GauntletRunner::new("dueling", 11);
    let hp = g.player.hp;
    let deck: Vec<String> = g.play_deck.iter().map(|c| c.def_id.clone()).collect();
    let hand_len = g.combat.as_ref().unwrap().hand.len();
    assert_eq!(g.apply(GauntletAction::SkipReward), Err(GauntletError::WrongPhase));
    assert_eq!(g.phase, GauntletPhase::Combat);
    assert_eq!(g.player.hp, hp);
    assert_eq!(g.fights_won, 0);
    assert_eq!(g.combat.as_ref().unwrap().hand.len(), hand_len);
    let deck_after: Vec<String> = g.play_deck.iter().map(|c| c.def_id.clone()).collect();
    assert_eq!(deck_after, deck);
}

#[test]
fn each_gauntlet_error_has_its_input() {
    let mut g = GauntletRunner::new("dueling", 3);
    let e = g.apply(GauntletAction::CombatAction(Action::PlayCard { hand_index: 99, target: None }));
    assert_eq!(e, Err(GauntletError::CombatError(ActionError::InvalidHandIndex)));
    let e = g.apply(GauntletAction::CombatAction(Action::DiscardCard { hand_index: 0 }));
    assert_eq!(e, Err(GauntletError::CombatError(ActionError::NoPendingDiscards)));

    let mut r = GauntletRunner::new("dueling", 3);
    r.phase = GauntletPhase::Reward;
    r.combat = None;
    r.reward_options = vec!["strike".into()];
    assert_eq!(r.apply(GauntletAction::PickReward(1)), Err(GauntletError::InvalidRewardIndex));

    let mut i = GauntletRunner::new("dueling", 3);
    i.phase = GauntletPhase::InnateChoice;
    i.combat = None;
    assert_eq!(i.apply(GauntletAction::ChooseInnate(16)), Err(GauntletError::InvalidDeckIndex));

    let mut o = GauntletRunner::new("dueling", 3);
    o.phase = GauntletPhase::CollectionOverflow { next_phase: OverflowNextPhase::NextCombat };
    o.combat = None;
    assert_eq!(o.apply(GauntletAction::RemoveCollectionCard(500)), Err(GauntletError::InvalidCollectionIndex));

    let mut over = GauntletRunner::new("dueling", 3);
    over.phase = GauntletPhase::GameOver;
    over.combat = None;
    assert_eq!(over.apply(GauntletAction::SkipSwap), Err(GauntletError::WrongPhase));
}

#[test]
fn rest_heal_rounds_half_away_from_zero() {
    assert_eq!(rest_heal_amount(50), 15);
    assert_eq!(rest_heal_amount(55), 17);
    assert_eq!(rest_heal_amount(45), 14);
    assert_eq!(rest_heal_amount(44), 13);
    assert_eq!(rest_heal_amount(0), 0);
    assert_eq!(rest_heal_amount(-55), -17);
}

#[test]
fn act_and_level_schedules() {
    assert_eq!(effective_act(0), 1);
    assert_eq!(effective_act(5), 1);
    assert_eq!(effective_act(6), 2);
    assert_eq!(effective_act(11), 2);
    assert_eq!(effective_act(12), 3);
    assert_eq!(effective_act(49), 3);
    assert_eq!(player_level_at(0, "dueling"), 1);
    assert_eq!(player_level_at(3, "dueling"), 1);
    assert_eq!(player_level_at(4, "dueling"), 2);
    assert_eq!(player_level_at(44, "dueling"), 12);
    assert_eq!(player_level_at(49, "dueling"), 12);
}

#[test]
fn reward_pools_only_grow() {
    for sc in ["dueling", "defense", "two_handed"] {
        for level in 1..12u32 {
            let low = reward_pool_at_level(sc, level);
            let high = reward_pool_at_level(sc, level + 1);
            assert!(low.iter().all(|id| high.contains(id)), "{} level {}", sc, level);
        }
    }
}

#[test]
fn rewards_come_from_pool() {
    let pool: Vec<String> = vec!["strike".into(), "defend".into(), "bash".into()];
    let mut rng = GameRng::new(9);
    let picks = generate_rewards(&pool, 3, &mut rng);
    assert_eq!(picks.len(), 3);
    assert!(picks.iter().all(|p| pool.contains(p)));
    assert!(generate_rewards(&[], 3, &mut rng).is_empty());
    assert_eq!(rng.seed(), 9);
}

#[test]
fn tier_ids_are_defined_and_distinct() {
    let defs = all_enemy_defs();
    let ids: Vec<String> = defs.iter().map(|d| d.id.clone()).collect();
    for (i, a) in ids.iter().enumerate() {
        assert!(!ids[i + 1..].contains(a), "duplicate {}", a);
    }
    for tier in [minion_ids(), standard_ids(), tough_ids(), boss_ids()] {
        for id in tier {
            assert!(ids.contains(&id), "{} undefined", id);
        }
    }
}

#[test]
fn gauntlet_encounters_are_sized_and_defined() {
    let content = load_content();
    let mut rng = GameRng::new(17);
    for fight in 0..50usize {
        for act in 1..=3u32 {
            let enc = gauntlet_encounter(fight, act, &mut rng);
            assert!(!enc.is_empty() && enc.len() <= 4);
            assert!(enc.iter().all(|id| content.enemy_defs.iter().any(|d| &d.id == id)));
        }
    }
}

#[test]
fn template_hash_input_format() {
    let t = EncounterTemplate {
        key: "pack".to_string(),
        player_level: 3,
        theme: EncounterTheme::Goblins,
        background: EncounterBackground::RoadAmbush,
        enemy_ids: vec!["goblin_grunt".to_string(), "goblin_archer".to_string()],
    };
    assert_eq!(t.hash_input(), "pack|lvl3|goblins|road_ambush|goblin_grunt,goblin_archer");
    assert_eq!(t.to_enemy_ids(), vec!["goblin_grunt".to_string(), "goblin_archer".to_string()]);
}

#[test]
fn digest_of_empty_input() {
    assert_eq!(
        content_hash_from_bytes(&Vec::new()),
        "e3b0c44298fc1c149afbf4c8996fb92427ae41e4649b934ca495991b7852b855"
    );
    assert_eq!(to_hex_lower(&vec![0x00, 0xab, 0xff, 0x10]), "00abff10");
}

#[test]
fn rng_keeps_seed_and_bounds() {
    let mut rng = GameRng::new(123);
    for _ in 0..200 {
        let v = rng.range(-3, 4);
        assert!((-3..=4).contains(&v));
    }
    let mut v: Vec<u32> = (0..20).collect();
    rng.shuffle(&mut v);
    assert_ne!(v, (0..20).collect::<Vec<u32>>());
    let mut sorted = v.clone();
    sorted.sort();
    assert_eq!(sorted, (0..20).collect::<Vec<u32>>());
    assert_eq!(rng.seed(), 123);
    assert_eq!(GameRng::restored(77).seed(), 77);
}

#[test]
fn compatibility_is_an_equivalence() {
    let a = EngineVersion::new("h1".to_string());
    let b = EngineVersion::new("h1".to_string());
    let c = EngineVersion::new("h2".to_string());
    assert!(a.is_compatible_with(&a));
    assert!(a.is_compatible_with(&b) && b.is_compatible_with(&a));
    assert!(!a.is_compatible_with(&c) && !c.is_compatible_with(&a));
}

#[test]
fn well_formedness_checks() {
    let mut g = GauntletRunner::new("defense", 8);
    assert!(g.is_well_formed());
    assert!(g.combat.as_ref().unwrap().is_well_formed());
    g.bonus_draw = -1;
    assert!(!g.is_well_formed());
    g.bonus_draw = 0;
    g.fights_won = 50;
    assert!(!g.is_well_formed());
    g.phase = GauntletPhase::GameOver;
    g.combat = None;
    assert!(!g.is_well_formed());
    g.level = 12;
    assert!(g.is_well_formed());
}

#[test]
fn playing_a_card_pays_its_cost() {
    let mut g = GauntletRunner::new("dueling", 21);
    let content = load_content();
    let before = g.combat.as_ref().unwrap().player.energy;
    let played = g.combat.as_ref().unwrap().hand[0].def_id.clone();
    let def = content.card_defs.iter().find(|d| d.id == played).unwrap();
    let gained: i32 = def
        .effects
        .iter()
        .map(|e| match e {
            decker::card::Effect::GainEnergy { amount } => *amount,
            _ => 0,
        })
        .sum();
    let target = if def.needs_single_target() { Some(0) } else { None };
    let playable = g.combat.as_ref().unwrap().can_play_card(0, &content);
    let r = g.apply(GauntletAction::CombatAction(Action::PlayCard { hand_index: 0, target }));
    if playable {
        assert!(r.is_ok());
        if let Some(c) = g.combat.as_ref() {
            assert_eq!(c.player.energy, before - def.cost + gained);
            assert_eq!(c.cards_played_this_turn, 1);
        }
    } else {
        assert!(r.is_err());
    }
}

#[test]
fn shipped_content_starts_with_basics() {
    let content = load_content();
    assert_eq!(content.card_defs.len(), 307);
    assert_eq!(content.card_defs[0].id, "strike");
    assert_eq!(content.card_defs[1].id, "defend");
    assert_eq!(content.enemy_defs.len(), 50);
    assert_eq!(content.enemy_defs[0].id, "goblin_grunt");
}
