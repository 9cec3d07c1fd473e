use decker::card_ids::{BARBS, COUP_DE_GRACE, DEFEND, DEFT_STRIKE, EXPLOIT_OPENING, FEINT, FLURRY_OF_CUTS, HEAVY_STRIKE, IMPROVISE, MARTIAL_ASCENDANCY, MEASURED_STRIKE, MOMENTUM, PERFECT_RHYTHM, QUICK_SLASH, READ_AND_REACT, RIPOSTE, SECOND_WIND, STRIKE};
use decker::cards::{
    active_card_ids_for_run, all_card_defs, all_progression_card_ids, auto_grants_at_level, progression_table,
    reward_pool_at_level, reward_pool_at_level_filtered, OP_TEST_CARD_ENABLED,
};

#[test]
fn all_defs_non_empty() {
    let defs = all_card_defs();
    assert!(!defs.is_empty());
}

#[test]
fn expected_card_count() {
    let defs = all_card_defs();
    // 3 basics + 4 themed (incl deft_strike) + 4 class + 6 dueling existing
    // + 5 dueling new (feint, patient_strike, perfect_read, riposte, perfect_rhythm)
    // + 8 defense/two_handed progression + 7 shared reward (excl power_strike/vicious_strike still in defs)
    // + 9 shared reward + 3 capstones = 42
    // Detailed: strike, defend, wound, barbs, heavy_strike, measured_strike, deft_strike,
    //   second_wind, energy_surge, extra_attack, rally,
    //   iron_guard, shield_bash, brace, unbreakable,
    //   intimidating_blow, reckless_attack, sundering_blow, reaving_strike,
    //   sizing_up, calculated_strike, precise_cut, read_and_react, expose_weakness, flurry_of_cuts,
    //   feint, patient_strike, perfect_read, riposte, perfect_rhythm,
    //   power_strike, quick_slash, vicious_strike, double_strike, brace_for_impact,
    //   hold_the_line, taunt, focus, martial_ascendancy,
    //   iron_fortress, titans_fury, coup_de_grace
    // Earlier sets (base cards, race and background cards) and later additions, 307 in all.
    // 164 previous + 21 warlock + 18 paladin + 17 rogue + 21 druid + 20 wizard = 261
    // 261 + 46 sorcerer (15 starters + 4 shared + 9 surge + 4 chaos + 4 heritage + 4 wrath + 5 drain + 4 terrors + 1 ultimate) = 307
    assert_eq!(defs.len(), 307);
}

#[test]
fn all_progression_cards_exist_in_defs() {
    let defs = all_card_defs();
    for entry in progression_table() {
        assert!(
            defs.iter().any(|d| d.id == entry.card_id),
            "progression table references unknown card: {}",
            entry.card_id
        );
    }
}

#[test]
fn reward_pool_at_level_1_per_subclass() {
    let op = if OP_TEST_CARD_ENABLED { 1 } else { 0 };
    // Defense: barbs + 6 shared = 7
    assert_eq!(reward_pool_at_level("defense", 1).len(), 7 + op,
        "level 1 reward pool for defense");
    // Two-handed: heavy_strike + 6 shared = 7
    assert_eq!(reward_pool_at_level("two_handed", 1).len(), 7 + op,
        "level 1 reward pool for two_handed");
    // Dueling: quick_slash + double_strike + brace_for_impact + focus = 4
    assert_eq!(reward_pool_at_level("dueling", 1).len(), 4 + op,
        "level 1 reward pool for dueling");
}

#[test]
fn reward_pool_themed_basics_are_subclass_exclusive() {
    let defense_pool = reward_pool_at_level("defense", 1);
    let dueling_pool = reward_pool_at_level("dueling", 1);
    let two_handed_pool = reward_pool_at_level("two_handed", 1);

    assert!(defense_pool.contains(&BARBS.into()));
    assert!(!defense_pool.contains(&HEAVY_STRIKE.into()));

    // Dueling has no subclass-specific L1 pool cards (specialization starts at L3)
    assert!(!dueling_pool.contains(&BARBS.into()));
    assert!(!dueling_pool.contains(&HEAVY_STRIKE.into()));

    assert!(two_handed_pool.contains(&HEAVY_STRIKE.into()));
    assert!(!two_handed_pool.contains(&BARBS.into()));
}

#[test]
fn reward_pool_grows_monotonically() {
    for sc in &["defense", "two_handed", "dueling"] {
        let mut prev_len = 0;
        for level in 1..=12 {
            let pool = reward_pool_at_level(sc, level);
            assert!(
                pool.len() >= prev_len,
                "pool for {} shrank from level {} to {}",
                sc, level - 1, level
            );
            prev_len = pool.len();
        }
    }
}

#[test]
fn auto_grants_at_expected_levels() {
    // Defense and Two-handed keep auto-grants at levels 3, 6, 9, 11, 12.
    for sc in &["defense", "two_handed"] {
        for level in [3, 6, 9, 11, 12] {
            let grants = auto_grants_at_level(sc, level);
            assert!(
                !grants.is_empty(),
                "{} should have auto-grants at level {}",
                sc, level
            );
        }
    }

    // Dueling gets Deft Strike ×2 at level 3
    let dueling_3 = auto_grants_at_level("dueling", 3);
    assert_eq!(dueling_3.len(), 2, "dueling level 3: Deft Strike ×2");
    assert!(dueling_3.iter().all(|id| id == DEFT_STRIKE));

    // Dueling level 12 ultimate
    assert_eq!(auto_grants_at_level("dueling", 12).len(), 1, "dueling level 12 ultimate");

    // Shared utility auto-grants for all subclasses
    for sc in &["defense", "two_handed", "dueling"] {
        assert!(!auto_grants_at_level(sc, 2).is_empty(), "level 2 Energy Surge");
        assert!(!auto_grants_at_level(sc, 4).is_empty(), "level 4 Extra Attack");
        assert!(!auto_grants_at_level(sc, 6).is_empty(), "level 6 Adrenaline Rush");
        assert!(!auto_grants_at_level(sc, 7).is_empty(), "level 7 Rally");
    }
}

#[test]
fn capstones_are_subclass_exclusive() {
    let defense_12 = auto_grants_at_level("defense", 12);
    let two_handed_12 = auto_grants_at_level("two_handed", 12);
    let dueling_12 = auto_grants_at_level("dueling", 12);

    // Each subclass gets exactly one level-12 auto-grant
    assert_eq!(defense_12.len(), 1);
    assert_eq!(two_handed_12.len(), 1);
    assert_eq!(dueling_12.len(), 1); // Perfect Read ultimate

    // No overlap
    assert!(!two_handed_12.contains(&defense_12[0]));
    assert!(!dueling_12.contains(&defense_12[0]));
    assert!(!dueling_12.contains(&two_handed_12[0]));
}

#[test]
fn op_test_card_follows_feature_flag() {
    let pool = reward_pool_at_level("dueling", 1);
    assert_eq!(pool.iter().any(|id| id == MARTIAL_ASCENDANCY), OP_TEST_CARD_ENABLED);
}

#[test]
fn all_progression_card_ids_covers_table() {
    let all_ids = all_progression_card_ids();
    for entry in progression_table() {
        assert!(
            all_ids.iter().any(|id| id == entry.card_id),
            "{} missing from all_progression_card_ids",
            entry.card_id
        );
    }
}

#[test]
fn synergy_filter_marked_excludes_tempo() {
    let pool = reward_pool_at_level_filtered("dueling", 12, Some("marked"));
    // Tempo cards should be excluded.
    assert!(!pool.contains(&FEINT.into()), "feint is tempo");
    assert!(!pool.contains(&READ_AND_REACT.into()), "read_and_react is tempo");
    assert!(!pool.contains(&FLURRY_OF_CUTS.into()), "flurry_of_cuts is tempo");
    assert!(!pool.contains(&MOMENTUM.into()), "momentum is tempo");
    assert!(!pool.contains(&PERFECT_RHYTHM.into()), "perfect_rhythm is tempo");
    // Marked cards should be included.
    assert!(pool.contains(&MEASURED_STRIKE.into()), "measured_strike is marked");
    assert!(pool.contains(&RIPOSTE.into()), "riposte is marked");
    assert!(pool.contains(&EXPLOIT_OPENING.into()), "exploit_opening is marked");
    assert!(pool.contains(&COUP_DE_GRACE.into()), "coup_de_grace is marked");
    // Neutral/shared cards should be included.
    assert!(pool.contains(&QUICK_SLASH.into()), "quick_slash is shared");
}

#[test]
fn synergy_filter_tempo_excludes_marked() {
    let pool = reward_pool_at_level_filtered("dueling", 12, Some("tempo"));
    assert!(!pool.contains(&MEASURED_STRIKE.into()), "measured_strike is marked");
    assert!(!pool.contains(&EXPLOIT_OPENING.into()), "exploit_opening is marked");
    assert!(!pool.contains(&COUP_DE_GRACE.into()), "coup_de_grace is marked");
    // Tempo cards should be included.
    assert!(pool.contains(&FEINT.into()), "feint is tempo");
    assert!(pool.contains(&MOMENTUM.into()), "momentum is tempo");
    assert!(pool.contains(&PERFECT_RHYTHM.into()), "perfect_rhythm is tempo");
    // Neutral/shared still included.
    assert!(pool.contains(&QUICK_SLASH.into()), "quick_slash is shared");
}

#[test]
fn synergy_filter_none_matches_unfiltered() {
    for level in [1, 5, 12] {
        let unfiltered = reward_pool_at_level("dueling", level);
        let filtered = reward_pool_at_level_filtered("dueling", level, None);
        assert_eq!(unfiltered, filtered, "None filter should match unfiltered at level {}", level);
    }
}

#[test]
fn active_card_ids_includes_starter_deck() {
    let ids = active_card_ids_for_run("dueling", None, "human", "soldier");
    assert!(ids.contains(&STRIKE.into()));
    assert!(ids.contains(&DEFEND.into()));
    assert!(ids.contains(&SECOND_WIND.into()));
    assert!(ids.contains(&IMPROVISE.into())); // human race card
}

#[test]
fn active_card_ids_filtered_excludes_other_synergy() {
    let marked_ids = active_card_ids_for_run("dueling", Some("marked"), "human", "soldier");
    assert!(marked_ids.contains(&MEASURED_STRIKE.into()), "marked card present");
    assert!(marked_ids.contains(&STRIKE.into()), "basic present");
    assert!(marked_ids.contains(&DEFT_STRIKE.into()), "neutral auto-grant present");
    assert!(!marked_ids.contains(&FEINT.into()), "tempo card excluded");
    assert!(!marked_ids.contains(&PERFECT_RHYTHM.into()), "tempo capstone excluded");

    let tempo_ids = active_card_ids_for_run("dueling", Some("tempo"), "human", "soldier");
    assert!(tempo_ids.contains(&FEINT.into()), "tempo card present");
    assert!(!tempo_ids.contains(&MEASURED_STRIKE.into()), "marked card excluded");
}

#[test]
fn active_card_ids_smaller_when_filtered() {
    let all = active_card_ids_for_run("dueling", None, "human", "soldier");
    let marked = active_card_ids_for_run("dueling", Some("marked"), "human", "soldier");
    let tempo = active_card_ids_for_run("dueling", Some("tempo"), "human", "soldier");
    assert!(marked.len() < all.len(), "marked filter should reduce card count");
    assert!(tempo.len() < all.len(), "tempo filter should reduce card count");
}


#[test]
fn id_order_sorts_stably_by_id() {
    let ids: Vec<String> = ["shiv", "barbs", "strike", "barbs", "a", "strike2"].iter().map(|s| s.to_string()).collect();
    assert_eq!(decker::cards::id_order(&ids), vec![4, 1, 3, 0, 2, 5]);
    assert_eq!(decker::cards::id_order(&Vec::new()), Vec::<usize>::new());
}

#[test]
fn id_order_matches_std_sort_on_card_ids() {
    let ids: Vec<String> = decker::cards::all_card_defs().iter().map(|d| d.id.clone()).collect();
    let mut expected = ids.clone();
    expected.sort();
    let got: Vec<String> = decker::cards::id_order(&ids).into_iter().map(|i| ids[i].clone()).collect();
    assert_eq!(got, expected);
}

#[test]
fn card_ids_are_distinct() {
    let mut ids: Vec<String> = all_card_defs().iter().map(|d| d.id.clone()).collect();
    let n = ids.len();
    ids.sort();
    ids.dedup();
    assert_eq!(ids.len(), n);
}
