use decker::enemies::{
    animated_armor_def, animated_shield_def, bandit_archer_def, bandit_thug_def, blightcap_def, blood_moth_def, boar_def, bone_commander_def, bone_sentinel_def, cave_spider_def, cave_stalker_def, corpse_knight_def, cult_acolyte_def, cult_channeler_def, cult_invoker_def, dark_priest_def, dragon_wyrm_def, fire_beetle_def, flamewrath_def, giant_centipede_def, giant_rat_def, goblin_archer_def, goblin_grunt_def, goblin_shaman_def, harpy_def, high_cultist_def, husk_whisperer_def, imp_def, iron_golem_def, necromancer_def, ogre_thug_def, ogre_warchief_def, pale_warden_def, plague_rat_def, rust_crawler_def, scavenger_def, sellsword_captain_def, sellsword_def, shadow_wisp_def, skeleton_def, slime_def, specter_def, sporecap_def, stone_golem_def, troll_def, wight_def, wolf_def, wyvern_def, young_drake_def, zombie_def,
    all_enemy_defs, boss_for_act, boss_ids, elite_ids, minion_ids, standard_ids, tough_ids,
};
use decker::enemy::{EnemyDef, IntentType};

#[test]
fn all_defs_count() {
    let defs = all_enemy_defs();
    assert_eq!(defs.len(), 50);
}

#[test]
fn no_duplicate_ids() {
    let all = all_enemy_defs();
    // all_enemy_defs() uses a HashMap so duplicate IDs would silently
    // overwrite — compare against the vec length.
    let all_vec: Vec<EnemyDef> = vec![
        goblin_grunt_def(), goblin_archer_def(), goblin_shaman_def(),
        giant_rat_def(), scavenger_def(), fire_beetle_def(),
        animated_shield_def(), sporecap_def(), skeleton_def(),
        blood_moth_def(), bandit_thug_def(),
        slime_def(), zombie_def(), plague_rat_def(), cave_spider_def(),
        giant_centipede_def(), bandit_archer_def(), imp_def(),
        shadow_wisp_def(), bone_sentinel_def(), harpy_def(), specter_def(),
        rust_crawler_def(), blightcap_def(), wolf_def(), boar_def(),
        cult_acolyte_def(), wight_def(), sellsword_def(), young_drake_def(),
        animated_armor_def(),
        ogre_thug_def(), stone_golem_def(), cave_stalker_def(),
        husk_whisperer_def(), troll_def(), bone_commander_def(),
        cult_channeler_def(), cult_invoker_def(), dark_priest_def(),
        corpse_knight_def(), sellsword_captain_def(),
        flamewrath_def(), wyvern_def(), necromancer_def(), high_cultist_def(),
        iron_golem_def(),
        ogre_warchief_def(), pale_warden_def(), dragon_wyrm_def(),
    ];
    assert_eq!(all_vec.len(), all.len(), "duplicate enemy IDs detected");
}

#[test]
fn boss_for_all_acts() {
    assert_eq!(boss_for_act(1), "ogre_warchief");
    assert_eq!(boss_for_act(2), "pale_warden");
    assert_eq!(boss_for_act(3), "dragon_wyrm");
}

#[test]
fn all_tier_ids_exist_in_defs() {
    let defs = all_enemy_defs();
    for id in minion_ids()
        .iter()
        .chain(standard_ids().iter())
        .chain(tough_ids().iter())
        .chain(elite_ids().iter())
        .chain(boss_ids().iter())
    {
        assert!(
            defs.iter().any(|d| d.id == *id),
            "tier ID {:?} not found in all_enemy_defs",
            id
        );
    }
}

#[test]
fn every_enemy_has_at_least_one_attack() {
    let defs = all_enemy_defs();
    for def in &defs {
        let id = &def.id;
        let has_attack = def.intent_pattern.iter().any(|intent| {
            matches!(intent, IntentType::Attack(_) | IntentType::AttackDefend(_, _))
        });
        assert!(
            has_attack,
            "enemy {:?} has no Attack or AttackDefend in intent pattern",
            id
        );
    }
}

