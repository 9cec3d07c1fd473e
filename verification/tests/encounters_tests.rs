use std::collections::HashSet;

use decker::encounters::{
    all_curated_templates, boss_encounter, early_encounter, encounter_for_level, encounter_table_hash_inputs,
    gauntlet_encounter, level_11_encounters, level_1_encounters, level_4_encounters, EncounterTemplate, MAX_ENEMIES,
};
use decker::enemies::{all_enemy_defs, minion_ids, standard_ids, tough_ids};
use decker::enemy::{EnemyDef, EnemyId};
use decker::rng::GameRng;

fn assert_templates_valid(
    templates: &[EncounterTemplate],
    expected_level: u32,
    label: &str,
    all_defs: &[EnemyDef],
) {
    let mut keys = HashSet::new();
    for template in templates {
        assert_eq!(template.player_level, expected_level);
        assert!(
            keys.insert(template.key.clone()),
            "duplicate {} encounter key {:?}",
            label,
            template.key
        );
        assert!(
            !template.enemy_ids.is_empty(),
            "{} encounter {:?} should not be empty",
            label,
            template.key
        );
        assert!(
            template.enemy_ids.len() <= MAX_ENEMIES,
            "{} encounter {:?} exceeds enemy cap",
            label,
            template.key
        );
        for id in &template.enemy_ids {
            assert!(
                all_defs.iter().any(|d| d.id == *id),
                "{} encounter {:?} has unknown enemy {:?}",
                label,
                template.key,
                id
            );
        }
    }
}

#[test]
fn all_curated_templates_valid() {
    let all_defs = all_enemy_defs();
    let tables = all_curated_templates();
    for (level, templates) in [1u32, 2, 3, 4, 5, 7, 9, 11].into_iter().zip(tables.iter()) {
        assert_templates_valid(templates, level, &format!("level-{}", level), &all_defs);
    }
}

#[test]
fn gauntlet_encounter_non_empty() {
    let mut rng = GameRng::new(42);
    for fight in 0..12 {
        let enc = gauntlet_encounter(fight, 1, &mut rng);
        assert!(!enc.is_empty(), "fight {} produced empty encounter", fight);
    }
}

#[test]
fn boss_encounter_single_enemy() {
    let enc = boss_encounter(1);
    assert_eq!(enc.len(), 1);
    assert_eq!(enc[0], "ogre_warchief");
}

#[test]
fn early_encounters_valid() {
    let all_defs = all_enemy_defs();
    for i in 0..level_1_encounters().len() {
        let enc = early_encounter(i);
        assert!(!enc.is_empty());
        for id in &enc {
            assert!(
                all_defs.iter().any(|d| d.id == *id),
                "early encounter {} has unknown enemy {:?}",
                i,
                id
            );
        }
    }
}

#[test]
fn encounter_for_level_routes_correctly() {
    // Level 1 should use level 1 table
    let mut rng = GameRng::new(7);
    let allowed_1: Vec<Vec<EnemyId>> = level_1_encounters()
        .iter()
        .map(|t| t.to_enemy_ids())
        .collect();
    for _ in 0..20 {
        let enc = encounter_for_level(1, 0, 1, &mut rng);
        assert!(allowed_1.contains(&enc), "unexpected level-1 encounter: {:?}", enc);
    }

    // Level 4 should use level 4 table
    let allowed_4: Vec<Vec<EnemyId>> = level_4_encounters()
        .iter()
        .map(|t| t.to_enemy_ids())
        .collect();
    for _ in 0..20 {
        let enc = encounter_for_level(4, 12, 2, &mut rng);
        assert!(allowed_4.contains(&enc), "unexpected level-4 encounter: {:?}", enc);
    }

    // Level 11 should use level 11 table
    let allowed_11: Vec<Vec<EnemyId>> = level_11_encounters()
        .iter()
        .map(|t| t.to_enemy_ids())
        .collect();
    for _ in 0..20 {
        let enc = encounter_for_level(11, 40, 3, &mut rng);
        assert!(allowed_11.contains(&enc), "unexpected level-11 encounter: {:?}", enc);
    }
}

#[test]
fn encounter_for_high_level_falls_through_to_procedural() {
    let mut rng = GameRng::new(99);
    // Level 13+ should use the procedural system, not panic
    let enc = encounter_for_level(13, 45, 3, &mut rng);
    assert!(!enc.is_empty());
    assert!(enc.len() <= MAX_ENEMIES);
}

#[test]
fn level_one_random_selection_can_hit_all_templates() {
    let mut seen = HashSet::new();
    let allowed: Vec<Vec<EnemyId>> = level_1_encounters()
        .iter()
        .map(|template| template.to_enemy_ids())
        .collect();
    for seed in 0..1024 {
        let mut rng = GameRng::new(seed);
        let enc = encounter_for_level(1, 0, 1, &mut rng);
        if let Some(pos) = allowed.iter().position(|candidate| *candidate == enc) {
            seen.insert(pos);
        }
        if seen.len() == allowed.len() {
            break;
        }
    }
    assert_eq!(seen.len(), allowed.len());
}

#[test]
fn encounter_table_hash_inputs_non_empty() {
    let inputs = encounter_table_hash_inputs();
    let total: usize = all_curated_templates().iter().map(|t| t.len()).sum();
    assert_eq!(inputs.len(), total);
    assert!(inputs.iter().all(|s| !s.is_empty()));
}

#[test]
fn budget_scales_with_act() {
    let mut rng1 = GameRng::new(123);
    let mut rng2 = GameRng::new(123);

    let enc_act1 = gauntlet_encounter(5, 1, &mut rng1);
    let enc_act3 = gauntlet_encounter(5, 3, &mut rng2);

    assert!(!enc_act1.is_empty());
    assert!(!enc_act3.is_empty());
    assert!(enc_act1.len() <= MAX_ENEMIES);
    assert!(enc_act3.len() <= MAX_ENEMIES);
}

#[test]
fn encounter_respects_max_enemies() {
    for seed in 0..100 {
        let mut rng = GameRng::new(seed);
        for act in 1..=3 {
            for fight in 0..12 {
                let enc = gauntlet_encounter(fight, act, &mut rng);
                assert!(
                    enc.len() <= MAX_ENEMIES,
                    "seed={} act={} fight={} produced {} enemies (max {})",
                    seed, act, fight, enc.len(), MAX_ENEMIES,
                );
            }
        }
    }
}

#[test]
fn early_encounters_within_cap() {
    for i in 0..level_1_encounters().len() {
        let enc = early_encounter(i);
        assert!(
            enc.len() <= MAX_ENEMIES,
            "early encounter {} has {} enemies (max {})",
            i, enc.len(), MAX_ENEMIES,
        );
    }
}


#[test]
fn procedural_encounters_stay_in_the_tiers() {
    let minions = minion_ids();
    let standards = standard_ids();
    let tough = tough_ids();
    for act in 1..=3u32 {
        for seed in 0..30u64 {
            let mut rng = GameRng::new(seed);
            for fight in 0..12 {
                let enc = gauntlet_encounter(fight, act, &mut rng);
                assert!(!enc.is_empty() && enc.len() <= MAX_ENEMIES);
                for id in &enc {
                    assert!(minions.contains(id) || standards.contains(id) || tough.contains(id));
                    if act < 2 {
                        assert!(!tough.contains(id));
                    }
                }
            }
        }
    }
}

#[test]
fn fill_encounter_keeps_to_the_tiers() {
    let minions = minion_ids();
    let standards = standard_ids();
    let toughs = tough_ids();
    for seed in 0..40u64 {
        for budget in -1..8 {
            for act in 1..=3u32 {
                let mut rng = GameRng::new(seed);
                let ids = decker::encounters::fill_encounter(budget, act, &mut rng);
                assert!(!ids.is_empty() && ids.len() <= decker::encounters::MAX_ENEMIES);
                for id in &ids {
                    assert!(minions.contains(id) || standards.contains(id) || toughs.contains(id));
                    if act < 2 {
                        assert!(!toughs.contains(id));
                    }
                }
            }
        }
    }
}
