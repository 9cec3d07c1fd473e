//! Enemy definitions for the core set, by tier, and the tier id lists.

use vstd::prelude::*;

use crate::enemy::{EnemyDef, EnemyId, IntentType};
use crate::status::StatusType;

verus! {
// ── Minions (budget 1) ────────────────────────────────────────────────

/// The Goblin Grunt definition.
pub open spec fn is_goblin_grunt_def(d: EnemyDef) -> bool {
    &&& d.id@ == "goblin_grunt"@
    &&& d.name@ == "Goblin Grunt"@
    &&& d.max_hp == 55
    &&& d.intent_pattern@ == seq![IntentType::Attack(12), IntentType::Attack(14), IntentType::Buff(StatusType::Empowered, 2), IntentType::Attack(12)]
}

pub fn goblin_grunt_def() -> (r: EnemyDef)
    ensures
        is_goblin_grunt_def(r),
{
    EnemyDef {
        id: "goblin_grunt".to_string(),
        name: "Goblin Grunt".to_string(),
        max_hp: 55,
        intent_pattern: vec![IntentType::Attack(12), IntentType::Attack(14), IntentType::Buff(StatusType::Empowered, 2), IntentType::Attack(12)],
    }
}

/// The Goblin Archer definition.
pub open spec fn is_goblin_archer_def(d: EnemyDef) -> bool {
    &&& d.id@ == "goblin_archer"@
    &&& d.name@ == "Goblin Archer"@
    &&& d.max_hp == 35
    &&& d.intent_pattern@ == seq![IntentType::Attack(9), IntentType::Attack(10), IntentType::Buff(StatusType::Empowered, 1), IntentType::Attack(9)]
}

pub fn goblin_archer_def() -> (r: EnemyDef)
    ensures
        is_goblin_archer_def(r),
{
    EnemyDef {
        id: "goblin_archer".to_string(),
        name: "Goblin Archer".to_string(),
        max_hp: 35,
        intent_pattern: vec![IntentType::Attack(9), IntentType::Attack(10), IntentType::Buff(StatusType::Empowered, 1), IntentType::Attack(9)],
    }
}

/// The Goblin Shaman definition.
pub open spec fn is_goblin_shaman_def(d: EnemyDef) -> bool {
    &&& d.id@ == "goblin_shaman"@
    &&& d.name@ == "Goblin Shaman"@
    &&& d.max_hp == 30
    &&& d.intent_pattern@ == seq![IntentType::BuffAllies(StatusType::Empowered, 1), IntentType::Attack(8), IntentType::Debuff(StatusType::Threatened, 1), IntentType::BuffAllies(StatusType::Empowered, 1), IntentType::Attack(8)]
}

pub fn goblin_shaman_def() -> (r: EnemyDef)
    ensures
        is_goblin_shaman_def(r),
{
    EnemyDef {
        id: "goblin_shaman".to_string(),
        name: "Goblin Shaman".to_string(),
        max_hp: 30,
        intent_pattern: vec![IntentType::BuffAllies(StatusType::Empowered, 1), IntentType::Attack(8), IntentType::Debuff(StatusType::Threatened, 1), IntentType::BuffAllies(StatusType::Empowered, 1), IntentType::Attack(8)],
    }
}

/// The Giant Rat definition.
pub open spec fn is_giant_rat_def(d: EnemyDef) -> bool {
    &&& d.id@ == "giant_rat"@
    &&& d.name@ == "Giant Rat"@
    &&& d.max_hp == 12
    &&& d.intent_pattern@ == seq![IntentType::Attack(6), IntentType::Attack(8), IntentType::Attack(6)]
}

pub fn giant_rat_def() -> (r: EnemyDef)
    ensures
        is_giant_rat_def(r),
{
    EnemyDef {
        id: "giant_rat".to_string(),
        name: "Giant Rat".to_string(),
        max_hp: 12,
        intent_pattern: vec![IntentType::Attack(6), IntentType::Attack(8), IntentType::Attack(6)],
    }
}

/// The Scavenger definition.
pub open spec fn is_scavenger_def(d: EnemyDef) -> bool {
    &&& d.id@ == "scavenger"@
    &&& d.name@ == "Scavenger"@
    &&& d.max_hp == 60
    &&& d.intent_pattern@ == seq![IntentType::Attack(13), IntentType::AttackDefend(11, 6), IntentType::Buff(StatusType::Empowered, 2), IntentType::Attack(13)]
}

pub fn scavenger_def() -> (r: EnemyDef)
    ensures
        is_scavenger_def(r),
{
    EnemyDef {
        id: "scavenger".to_string(),
        name: "Scavenger".to_string(),
        max_hp: 60,
        intent_pattern: vec![IntentType::Attack(13), IntentType::AttackDefend(11, 6), IntentType::Buff(StatusType::Empowered, 2), IntentType::Attack(13)],
    }
}

/// The Fire Beetle definition.
pub open spec fn is_fire_beetle_def(d: EnemyDef) -> bool {
    &&& d.id@ == "fire_beetle"@
    &&& d.name@ == "Fire Beetle"@
    &&& d.max_hp == 25
    &&& d.intent_pattern@ == seq![IntentType::Attack(9), IntentType::Debuff(StatusType::Threatened, 1), IntentType::Attack(12)]
}

pub fn fire_beetle_def() -> (r: EnemyDef)
    ensures
        is_fire_beetle_def(r),
{
    EnemyDef {
        id: "fire_beetle".to_string(),
        name: "Fire Beetle".to_string(),
        max_hp: 25,
        intent_pattern: vec![IntentType::Attack(9), IntentType::Debuff(StatusType::Threatened, 1), IntentType::Attack(12)],
    }
}

/// The Animated Shield definition.
pub open spec fn is_animated_shield_def(d: EnemyDef) -> bool {
    &&& d.id@ == "animated_shield"@
    &&& d.name@ == "Animated Shield"@
    &&& d.max_hp == 55
    &&& d.intent_pattern@ == seq![IntentType::Defend(10), IntentType::Buff(StatusType::Empowered, 1), IntentType::Attack(12), IntentType::AttackDefend(10, 8)]
}

pub fn animated_shield_def() -> (r: EnemyDef)
    ensures
        is_animated_shield_def(r),
{
    EnemyDef {
        id: "animated_shield".to_string(),
        name: "Animated Shield".to_string(),
        max_hp: 55,
        intent_pattern: vec![IntentType::Defend(10), IntentType::Buff(StatusType::Empowered, 1), IntentType::Attack(12), IntentType::AttackDefend(10, 8)],
    }
}

/// The Sporecap definition.
pub open spec fn is_sporecap_def(d: EnemyDef) -> bool {
    &&& d.id@ == "sporecap"@
    &&& d.name@ == "Sporecap"@
    &&& d.max_hp == 30
    &&& d.intent_pattern@ == seq![IntentType::Debuff(StatusType::Weakened, 1), IntentType::Attack(8), IntentType::BuffAllies(StatusType::Empowered, 1), IntentType::Attack(10)]
}

pub fn sporecap_def() -> (r: EnemyDef)
    ensures
        is_sporecap_def(r),
{
    EnemyDef {
        id: "sporecap".to_string(),
        name: "Sporecap".to_string(),
        max_hp: 30,
        intent_pattern: vec![IntentType::Debuff(StatusType::Weakened, 1), IntentType::Attack(8), IntentType::BuffAllies(StatusType::Empowered, 1), IntentType::Attack(10)],
    }
}

/// The Skeleton definition.
pub open spec fn is_skeleton_def(d: EnemyDef) -> bool {
    &&& d.id@ == "skeleton"@
    &&& d.name@ == "Skeleton"@
    &&& d.max_hp == 22
    &&& d.intent_pattern@ == seq![IntentType::Attack(9), IntentType::Attack(11), IntentType::Buff(StatusType::Empowered, 1)]
}

pub fn skeleton_def() -> (r: EnemyDef)
    ensures
        is_skeleton_def(r),
{
    EnemyDef {
        id: "skeleton".to_string(),
        name: "Skeleton".to_string(),
        max_hp: 22,
        intent_pattern: vec![IntentType::Attack(9), IntentType::Attack(11), IntentType::Buff(StatusType::Empowered, 1)],
    }
}

/// The Blood Moth definition.
pub open spec fn is_blood_moth_def(d: EnemyDef) -> bool {
    &&& d.id@ == "blood_moth"@
    &&& d.name@ == "Blood Moth"@
    &&& d.max_hp == 14
    &&& d.intent_pattern@ == seq![IntentType::Attack(7), IntentType::Debuff(StatusType::Bleeding, 2), IntentType::Attack(9)]
}

pub fn blood_moth_def() -> (r: EnemyDef)
    ensures
        is_blood_moth_def(r),
{
    EnemyDef {
        id: "blood_moth".to_string(),
        name: "Blood Moth".to_string(),
        max_hp: 14,
        intent_pattern: vec![IntentType::Attack(7), IntentType::Debuff(StatusType::Bleeding, 2), IntentType::Attack(9)],
    }
}

/// The Bandit Thug definition.
pub open spec fn is_bandit_thug_def(d: EnemyDef) -> bool {
    &&& d.id@ == "bandit_thug"@
    &&& d.name@ == "Bandit Thug"@
    &&& d.max_hp == 70
    &&& d.intent_pattern@ == seq![IntentType::Attack(15), IntentType::Buff(StatusType::Empowered, 2), IntentType::Attack(15), IntentType::AttackDefend(13, 8)]
}

pub fn bandit_thug_def() -> (r: EnemyDef)
    ensures
        is_bandit_thug_def(r),
{
    EnemyDef {
        id: "bandit_thug".to_string(),
        name: "Bandit Thug".to_string(),
        max_hp: 70,
        intent_pattern: vec![IntentType::Attack(15), IntentType::Buff(StatusType::Empowered, 2), IntentType::Attack(15), IntentType::AttackDefend(13, 8)],
    }
}
// ── Standard (budget 2) ───────────────────────────────────────────────

/// The Slime definition.
pub open spec fn is_slime_def(d: EnemyDef) -> bool {
    &&& d.id@ == "slime"@
    &&& d.name@ == "Slime"@
    &&& d.max_hp == 60
    &&& d.intent_pattern@ == seq![IntentType::Attack(10), IntentType::Defend(10)]
}

pub fn slime_def() -> (r: EnemyDef)
    ensures
        is_slime_def(r),
{
    EnemyDef {
        id: "slime".to_string(),
        name: "Slime".to_string(),
        max_hp: 60,
        intent_pattern: vec![IntentType::Attack(10), IntentType::Defend(10)],
    }
}

/// The Zombie definition.
pub open spec fn is_zombie_def(d: EnemyDef) -> bool {
    &&& d.id@ == "zombie"@
    &&& d.name@ == "Zombie"@
    &&& d.max_hp == 50
    &&& d.intent_pattern@ == seq![IntentType::Attack(8), IntentType::Defend(6), IntentType::Attack(10)]
}

pub fn zombie_def() -> (r: EnemyDef)
    ensures
        is_zombie_def(r),
{
    EnemyDef {
        id: "zombie".to_string(),
        name: "Zombie".to_string(),
        max_hp: 50,
        intent_pattern: vec![IntentType::Attack(8), IntentType::Defend(6), IntentType::Attack(10)],
    }
}

/// The Plague Rat definition.
pub open spec fn is_plague_rat_def(d: EnemyDef) -> bool {
    &&& d.id@ == "plague_rat"@
    &&& d.name@ == "Plague Rat"@
    &&& d.max_hp == 30
    &&& d.intent_pattern@ == seq![IntentType::Attack(8), IntentType::Debuff(StatusType::Bleeding, 2), IntentType::Attack(10)]
}

pub fn plague_rat_def() -> (r: EnemyDef)
    ensures
        is_plague_rat_def(r),
{
    EnemyDef {
        id: "plague_rat".to_string(),
        name: "Plague Rat".to_string(),
        max_hp: 30,
        intent_pattern: vec![IntentType::Attack(8), IntentType::Debuff(StatusType::Bleeding, 2), IntentType::Attack(10)],
    }
}

/// The Cave Spider definition.
pub open spec fn is_cave_spider_def(d: EnemyDef) -> bool {
    &&& d.id@ == "cave_spider"@
    &&& d.name@ == "Cave Spider"@
    &&& d.max_hp == 35
    &&& d.intent_pattern@ == seq![IntentType::Debuff(StatusType::Weakened, 1), IntentType::Attack(10), IntentType::Attack(12)]
}

pub fn cave_spider_def() -> (r: EnemyDef)
    ensures
        is_cave_spider_def(r),
{
    EnemyDef {
        id: "cave_spider".to_string(),
        name: "Cave Spider".to_string(),
        max_hp: 35,
        intent_pattern: vec![IntentType::Debuff(StatusType::Weakened, 1), IntentType::Attack(10), IntentType::Attack(12)],
    }
}

/// The Giant Centipede definition.
pub open spec fn is_giant_centipede_def(d: EnemyDef) -> bool {
    &&& d.id@ == "giant_centipede"@
    &&& d.name@ == "Giant Centipede"@
    &&& d.max_hp == 40
    &&& d.intent_pattern@ == seq![IntentType::Attack(9), IntentType::Debuff(StatusType::Bleeding, 2), IntentType::Attack(11)]
}

pub fn giant_centipede_def() -> (r: EnemyDef)
    ensures
        is_giant_centipede_def(r),
{
    EnemyDef {
        id: "giant_centipede".to_string(),
        name: "Giant Centipede".to_string(),
        max_hp: 40,
        intent_pattern: vec![IntentType::Attack(9), IntentType::Debuff(StatusType::Bleeding, 2), IntentType::Attack(11)],
    }
}

/// The Bandit Archer definition.
pub open spec fn is_bandit_archer_def(d: EnemyDef) -> bool {
    &&& d.id@ == "bandit_archer"@
    &&& d.name@ == "Bandit Archer"@
    &&& d.max_hp == 35
    &&& d.intent_pattern@ == seq![IntentType::Attack(10), IntentType::Attack(12), IntentType::Attack(10), IntentType::Debuff(StatusType::Marked, 1)]
}

pub fn bandit_archer_def() -> (r: EnemyDef)
    ensures
        is_bandit_archer_def(r),
{
    EnemyDef {
        id: "bandit_archer".to_string(),
        name: "Bandit Archer".to_string(),
        max_hp: 35,
        intent_pattern: vec![IntentType::Attack(10), IntentType::Attack(12), IntentType::Attack(10), IntentType::Debuff(StatusType::Marked, 1)],
    }
}

/// The Imp definition.
pub open spec fn is_imp_def(d: EnemyDef) -> bool {
    &&& d.id@ == "imp"@
    &&& d.name@ == "Imp"@
    &&& d.max_hp == 45
    &&& d.intent_pattern@ == seq![IntentType::Attack(10), IntentType::Attack(10), IntentType::Buff(StatusType::Empowered, 2)]
}

pub fn imp_def() -> (r: EnemyDef)
    ensures
        is_imp_def(r),
{
    EnemyDef {
        id: "imp".to_string(),
        name: "Imp".to_string(),
        max_hp: 45,
        intent_pattern: vec![IntentType::Attack(10), IntentType::Attack(10), IntentType::Buff(StatusType::Empowered, 2)],
    }
}

/// The Shadow Wisp definition.
pub open spec fn is_shadow_wisp_def(d: EnemyDef) -> bool {
    &&& d.id@ == "shadow_wisp"@
    &&& d.name@ == "Shadow Wisp"@
    &&& d.max_hp == 35
    &&& d.intent_pattern@ == seq![IntentType::Attack(9), IntentType::Attack(9), IntentType::Debuff(StatusType::Weakened, 1)]
}

pub fn shadow_wisp_def() -> (r: EnemyDef)
    ensures
        is_shadow_wisp_def(r),
{
    EnemyDef {
        id: "shadow_wisp".to_string(),
        name: "Shadow Wisp".to_string(),
        max_hp: 35,
        intent_pattern: vec![IntentType::Attack(9), IntentType::Attack(9), IntentType::Debuff(StatusType::Weakened, 1)],
    }
}

/// The Bone Sentinel definition.
pub open spec fn is_bone_sentinel_def(d: EnemyDef) -> bool {
    &&& d.id@ == "bone_sentinel"@
    &&& d.name@ == "Bone Sentinel"@
    &&& d.max_hp == 70
    &&& d.intent_pattern@ == seq![IntentType::Defend(12), IntentType::Attack(14), IntentType::AttackDefend(11, 8)]
}

pub fn bone_sentinel_def() -> (r: EnemyDef)
    ensures
        is_bone_sentinel_def(r),
{
    EnemyDef {
        id: "bone_sentinel".to_string(),
        name: "Bone Sentinel".to_string(),
        max_hp: 70,
        intent_pattern: vec![IntentType::Defend(12), IntentType::Attack(14), IntentType::AttackDefend(11, 8)],
    }
}

/// The Harpy definition.
pub open spec fn is_harpy_def(d: EnemyDef) -> bool {
    &&& d.id@ == "harpy"@
    &&& d.name@ == "Harpy"@
    &&& d.max_hp == 50
    &&& d.intent_pattern@ == seq![IntentType::Debuff(StatusType::Weakened, 2), IntentType::Attack(13), IntentType::Attack(13), IntentType::Debuff(StatusType::Threatened, 1)]
}

pub fn harpy_def() -> (r: EnemyDef)
    ensures
        is_harpy_def(r),
{
    EnemyDef {
        id: "harpy".to_string(),
        name: "Harpy".to_string(),
        max_hp: 50,
        intent_pattern: vec![IntentType::Debuff(StatusType::Weakened, 2), IntentType::Attack(13), IntentType::Attack(13), IntentType::Debuff(StatusType::Threatened, 1)],
    }
}

/// The Specter definition.
pub open spec fn is_specter_def(d: EnemyDef) -> bool {
    &&& d.id@ == "specter"@
    &&& d.name@ == "Specter"@
    &&& d.max_hp == 45
    &&& d.intent_pattern@ == seq![IntentType::Attack(11), IntentType::Debuff(StatusType::Marked, 2), IntentType::Attack(11), IntentType::Debuff(StatusType::Bleeding, 3)]
}

pub fn specter_def() -> (r: EnemyDef)
    ensures
        is_specter_def(r),
{
    EnemyDef {
        id: "specter".to_string(),
        name: "Specter".to_string(),
        max_hp: 45,
        intent_pattern: vec![IntentType::Attack(11), IntentType::Debuff(StatusType::Marked, 2), IntentType::Attack(11), IntentType::Debuff(StatusType::Bleeding, 3)],
    }
}

/// The Rust Crawler definition.
pub open spec fn is_rust_crawler_def(d: EnemyDef) -> bool {
    &&& d.id@ == "rust_crawler"@
    &&& d.name@ == "Rust Crawler"@
    &&& d.max_hp == 55
    &&& d.intent_pattern@ == seq![IntentType::AttackDefend(11, 8), IntentType::Debuff(StatusType::Weakened, 1), IntentType::AttackDefend(11, 8), IntentType::Buff(StatusType::Empowered, 1)]
}

pub fn rust_crawler_def() -> (r: EnemyDef)
    ensures
        is_rust_crawler_def(r),
{
    EnemyDef {
        id: "rust_crawler".to_string(),
        name: "Rust Crawler".to_string(),
        max_hp: 55,
        intent_pattern: vec![IntentType::AttackDefend(11, 8), IntentType::Debuff(StatusType::Weakened, 1), IntentType::AttackDefend(11, 8), IntentType::Buff(StatusType::Empowered, 1)],
    }
}

/// The Blightcap definition.
pub open spec fn is_blightcap_def(d: EnemyDef) -> bool {
    &&& d.id@ == "blightcap"@
    &&& d.name@ == "Blightcap"@
    &&& d.max_hp == 50
    &&& d.intent_pattern@ == seq![IntentType::Debuff(StatusType::Threatened, 1), IntentType::Attack(11), IntentType::Debuff(StatusType::Weakened, 1), IntentType::AttackDefend(10, 6)]
}

pub fn blightcap_def() -> (r: EnemyDef)
    ensures
        is_blightcap_def(r),
{
    EnemyDef {
        id: "blightcap".to_string(),
        name: "Blightcap".to_string(),
        max_hp: 50,
        intent_pattern: vec![IntentType::Debuff(StatusType::Threatened, 1), IntentType::Attack(11), IntentType::Debuff(StatusType::Weakened, 1), IntentType::AttackDefend(10, 6)],
    }
}

/// The Wolf definition.
pub open spec fn is_wolf_def(d: EnemyDef) -> bool {
    &&& d.id@ == "wolf"@
    &&& d.name@ == "Wolf"@
    &&& d.max_hp == 30
    &&& d.intent_pattern@ == seq![IntentType::Attack(10), IntentType::Debuff(StatusType::Marked, 1), IntentType::Attack(13)]
}

pub fn wolf_def() -> (r: EnemyDef)
    ensures
        is_wolf_def(r),
{
    EnemyDef {
        id: "wolf".to_string(),
        name: "Wolf".to_string(),
        max_hp: 30,
        intent_pattern: vec![IntentType::Attack(10), IntentType::Debuff(StatusType::Marked, 1), IntentType::Attack(13)],
    }
}

/// The Boar definition.
pub open spec fn is_boar_def(d: EnemyDef) -> bool {
    &&& d.id@ == "boar"@
    &&& d.name@ == "Boar"@
    &&& d.max_hp == 45
    &&& d.intent_pattern@ == seq![IntentType::Attack(16), IntentType::Defend(8), IntentType::Attack(10)]
}

pub fn boar_def() -> (r: EnemyDef)
    ensures
        is_boar_def(r),
{
    EnemyDef {
        id: "boar".to_string(),
        name: "Boar".to_string(),
        max_hp: 45,
        intent_pattern: vec![IntentType::Attack(16), IntentType::Defend(8), IntentType::Attack(10)],
    }
}

/// The Cult Acolyte definition.
pub open spec fn is_cult_acolyte_def(d: EnemyDef) -> bool {
    &&& d.id@ == "cult_acolyte"@
    &&& d.name@ == "Cult Acolyte"@
    &&& d.max_hp == 40
    &&& d.intent_pattern@ == seq![IntentType::Debuff(StatusType::Weakened, 1), IntentType::Attack(10), IntentType::Debuff(StatusType::Threatened, 1), IntentType::Attack(12)]
}

pub fn cult_acolyte_def() -> (r: EnemyDef)
    ensures
        is_cult_acolyte_def(r),
{
    EnemyDef {
        id: "cult_acolyte".to_string(),
        name: "Cult Acolyte".to_string(),
        max_hp: 40,
        intent_pattern: vec![IntentType::Debuff(StatusType::Weakened, 1), IntentType::Attack(10), IntentType::Debuff(StatusType::Threatened, 1), IntentType::Attack(12)],
    }
}

/// The Wight definition.
pub open spec fn is_wight_def(d: EnemyDef) -> bool {
    &&& d.id@ == "wight"@
    &&& d.name@ == "Wight"@
    &&& d.max_hp == 50
    &&& d.intent_pattern@ == seq![IntentType::Attack(12), IntentType::Debuff(StatusType::Weakened, 1), IntentType::Attack(14), IntentType::Buff(StatusType::Mending, 3)]
}

pub fn wight_def() -> (r: EnemyDef)
    ensures
        is_wight_def(r),
{
    EnemyDef {
        id: "wight".to_string(),
        name: "Wight".to_string(),
        max_hp: 50,
        intent_pattern: vec![IntentType::Attack(12), IntentType::Debuff(StatusType::Weakened, 1), IntentType::Attack(14), IntentType::Buff(StatusType::Mending, 3)],
    }
}

/// The Sellsword definition.
pub open spec fn is_sellsword_def(d: EnemyDef) -> bool {
    &&& d.id@ == "sellsword"@
    &&& d.name@ == "Sellsword"@
    &&& d.max_hp == 50
    &&& d.intent_pattern@ == seq![IntentType::Attack(13), IntentType::Defend(10), IntentType::Attack(15), IntentType::AttackDefend(10, 8)]
}

pub fn sellsword_def() -> (r: EnemyDef)
    ensures
        is_sellsword_def(r),
{
    EnemyDef {
        id: "sellsword".to_string(),
        name: "Sellsword".to_string(),
        max_hp: 50,
        intent_pattern: vec![IntentType::Attack(13), IntentType::Defend(10), IntentType::Attack(15), IntentType::AttackDefend(10, 8)],
    }
}

/// The Young Drake definition.
pub open spec fn is_young_drake_def(d: EnemyDef) -> bool {
    &&& d.id@ == "young_drake"@
    &&& d.name@ == "Young Drake"@
    &&& d.max_hp == 45
    &&& d.intent_pattern@ == seq![IntentType::Attack(12), IntentType::Attack(14), IntentType::Debuff(StatusType::Threatened, 1)]
}

pub fn young_drake_def() -> (r: EnemyDef)
    ensures
        is_young_drake_def(r),
{
    EnemyDef {
        id: "young_drake".to_string(),
        name: "Young Drake".to_string(),
        max_hp: 45,
        intent_pattern: vec![IntentType::Attack(12), IntentType::Attack(14), IntentType::Debuff(StatusType::Threatened, 1)],
    }
}

/// The Animated Armor definition.
pub open spec fn is_animated_armor_def(d: EnemyDef) -> bool {
    &&& d.id@ == "animated_armor"@
    &&& d.name@ == "Animated Armor"@
    &&& d.max_hp == 45
    &&& d.intent_pattern@ == seq![IntentType::Attack(13), IntentType::AttackDefend(10, 8), IntentType::Attack(15)]
}

pub fn animated_armor_def() -> (r: EnemyDef)
    ensures
        is_animated_armor_def(r),
{
    EnemyDef {
        id: "animated_armor".to_string(),
        name: "Animated Armor".to_string(),
        max_hp: 45,
        intent_pattern: vec![IntentType::Attack(13), IntentType::AttackDefend(10, 8), IntentType::Attack(15)],
    }
}
// ── Tough (budget 4) ──────────────────────────────────────────────────

/// The Ogre Thug definition.
pub open spec fn is_ogre_thug_def(d: EnemyDef) -> bool {
    &&& d.id@ == "ogre_thug"@
    &&& d.name@ == "Ogre Thug"@
    &&& d.max_hp == 55
    &&& d.intent_pattern@ == seq![IntentType::Attack(12), IntentType::Attack(12), IntentType::Buff(StatusType::Empowered, 2), IntentType::Attack(12)]
}

pub fn ogre_thug_def() -> (r: EnemyDef)
    ensures
        is_ogre_thug_def(r),
{
    EnemyDef {
        id: "ogre_thug".to_string(),
        name: "Ogre Thug".to_string(),
        max_hp: 55,
        intent_pattern: vec![IntentType::Attack(12), IntentType::Attack(12), IntentType::Buff(StatusType::Empowered, 2), IntentType::Attack(12)],
    }
}

/// The Stone Golem definition.
pub open spec fn is_stone_golem_def(d: EnemyDef) -> bool {
    &&& d.id@ == "stone_golem"@
    &&& d.name@ == "Stone Golem"@
    &&& d.max_hp == 90
    &&& d.intent_pattern@ == seq![IntentType::Attack(15), IntentType::Defend(12), IntentType::AttackDefend(12, 8), IntentType::Buff(StatusType::Empowered, 1)]
}

pub fn stone_golem_def() -> (r: EnemyDef)
    ensures
        is_stone_golem_def(r),
{
    EnemyDef {
        id: "stone_golem".to_string(),
        name: "Stone Golem".to_string(),
        max_hp: 90,
        intent_pattern: vec![IntentType::Attack(15), IntentType::Defend(12), IntentType::AttackDefend(12, 8), IntentType::Buff(StatusType::Empowered, 1)],
    }
}

/// The Cave Stalker definition.
pub open spec fn is_cave_stalker_def(d: EnemyDef) -> bool {
    &&& d.id@ == "cave_stalker"@
    &&& d.name@ == "Cave Stalker"@
    &&& d.max_hp == 70
    &&& d.intent_pattern@ == seq![IntentType::Attack(14), IntentType::Attack(14), IntentType::AttackDefend(10, 8), IntentType::Buff(StatusType::Empowered, 2)]
}

pub fn cave_stalker_def() -> (r: EnemyDef)
    ensures
        is_cave_stalker_def(r),
{
    EnemyDef {
        id: "cave_stalker".to_string(),
        name: "Cave Stalker".to_string(),
        max_hp: 70,
        intent_pattern: vec![IntentType::Attack(14), IntentType::Attack(14), IntentType::AttackDefend(10, 8), IntentType::Buff(StatusType::Empowered, 2)],
    }
}

/// The Husk Whisperer definition.
pub open spec fn is_husk_whisperer_def(d: EnemyDef) -> bool {
    &&& d.id@ == "husk_whisperer"@
    &&& d.name@ == "Husk Whisperer"@
    &&& d.max_hp == 55
    &&& d.intent_pattern@ == seq![IntentType::Debuff(StatusType::Threatened, 2), IntentType::Attack(10), IntentType::Debuff(StatusType::Weakened, 2), IntentType::Attack(10), IntentType::Debuff(StatusType::Marked, 3)]
}

pub fn husk_whisperer_def() -> (r: EnemyDef)
    ensures
        is_husk_whisperer_def(r),
{
    EnemyDef {
        id: "husk_whisperer".to_string(),
        name: "Husk Whisperer".to_string(),
        max_hp: 55,
        intent_pattern: vec![IntentType::Debuff(StatusType::Threatened, 2), IntentType::Attack(10), IntentType::Debuff(StatusType::Weakened, 2), IntentType::Attack(10), IntentType::Debuff(StatusType::Marked, 3)],
    }
}

/// The Troll definition.
pub open spec fn is_troll_def(d: EnemyDef) -> bool {
    &&& d.id@ == "troll"@
    &&& d.name@ == "Troll"@
    &&& d.max_hp == 75
    &&& d.intent_pattern@ == seq![IntentType::Attack(11), IntentType::Buff(StatusType::Mending, 3), IntentType::Attack(14), IntentType::AttackDefend(11, 6)]
}

pub fn troll_def() -> (r: EnemyDef)
    ensures
        is_troll_def(r),
{
    EnemyDef {
        id: "troll".to_string(),
        name: "Troll".to_string(),
        max_hp: 75,
        intent_pattern: vec![IntentType::Attack(11), IntentType::Buff(StatusType::Mending, 3), IntentType::Attack(14), IntentType::AttackDefend(11, 6)],
    }
}
/// The tough-tier rust crawler: the standard rust crawler unchanged.
pub fn rust_crawler_tough_def() -> (r: EnemyDef)
    ensures
        is_rust_crawler_def(r),
{
    rust_crawler_def()
}

/// The Bone Commander definition.
pub open spec fn is_bone_commander_def(d: EnemyDef) -> bool {
    &&& d.id@ == "bone_commander"@
    &&& d.name@ == "Bone Commander"@
    &&& d.max_hp == 58
    &&& d.intent_pattern@ == seq![IntentType::BuffAllies(StatusType::Empowered, 2), IntentType::Attack(10), IntentType::Defend(8), IntentType::Attack(12)]
}

pub fn bone_commander_def() -> (r: EnemyDef)
    ensures
        is_bone_commander_def(r),
{
    EnemyDef {
        id: "bone_commander".to_string(),
        name: "Bone Commander".to_string(),
        max_hp: 58,
        intent_pattern: vec![IntentType::BuffAllies(StatusType::Empowered, 2), IntentType::Attack(10), IntentType::Defend(8), IntentType::Attack(12)],
    }
}

/// The Cult Channeler definition.
pub open spec fn is_cult_channeler_def(d: EnemyDef) -> bool {
    &&& d.id@ == "cult_channeler"@
    &&& d.name@ == "Cult Channeler"@
    &&& d.max_hp == 52
    &&& d.intent_pattern@ == seq![IntentType::BuffAllies(StatusType::Empowered, 1), IntentType::Attack(9), IntentType::Debuff(StatusType::Weakened, 2), IntentType::Attack(10)]
}

pub fn cult_channeler_def() -> (r: EnemyDef)
    ensures
        is_cult_channeler_def(r),
{
    EnemyDef {
        id: "cult_channeler".to_string(),
        name: "Cult Channeler".to_string(),
        max_hp: 52,
        intent_pattern: vec![IntentType::BuffAllies(StatusType::Empowered, 1), IntentType::Attack(9), IntentType::Debuff(StatusType::Weakened, 2), IntentType::Attack(10)],
    }
}

/// The Cult Invoker definition.
pub open spec fn is_cult_invoker_def(d: EnemyDef) -> bool {
    &&& d.id@ == "cult_invoker"@
    &&& d.name@ == "Cult Invoker"@
    &&& d.max_hp == 48
    &&& d.intent_pattern@ == seq![IntentType::Attack(11), IntentType::Debuff(StatusType::Threatened, 1), IntentType::Attack(13), IntentType::Defend(6)]
}

pub fn cult_invoker_def() -> (r: EnemyDef)
    ensures
        is_cult_invoker_def(r),
{
    EnemyDef {
        id: "cult_invoker".to_string(),
        name: "Cult Invoker".to_string(),
        max_hp: 48,
        intent_pattern: vec![IntentType::Attack(11), IntentType::Debuff(StatusType::Threatened, 1), IntentType::Attack(13), IntentType::Defend(6)],
    }
}

/// The Dark Priest definition.
pub open spec fn is_dark_priest_def(d: EnemyDef) -> bool {
    &&& d.id@ == "dark_priest"@
    &&& d.name@ == "Dark Priest"@
    &&& d.max_hp == 50
    &&& d.intent_pattern@ == seq![IntentType::BuffAllies(StatusType::Mending, 2), IntentType::Debuff(StatusType::Threatened, 2), IntentType::Attack(9), IntentType::BuffAllies(StatusType::Mending, 2), IntentType::Attack(10)]
}

pub fn dark_priest_def() -> (r: EnemyDef)
    ensures
        is_dark_priest_def(r),
{
    EnemyDef {
        id: "dark_priest".to_string(),
        name: "Dark Priest".to_string(),
        max_hp: 50,
        intent_pattern: vec![IntentType::BuffAllies(StatusType::Mending, 2), IntentType::Debuff(StatusType::Threatened, 2), IntentType::Attack(9), IntentType::BuffAllies(StatusType::Mending, 2), IntentType::Attack(10)],
    }
}

/// The Corpse Knight definition.
pub open spec fn is_corpse_knight_def(d: EnemyDef) -> bool {
    &&& d.id@ == "corpse_knight"@
    &&& d.name@ == "Corpse Knight"@
    &&& d.max_hp == 62
    &&& d.intent_pattern@ == seq![IntentType::Attack(13), IntentType::AttackDefend(10, 6), IntentType::Buff(StatusType::Empowered, 2), IntentType::Attack(15)]
}

pub fn corpse_knight_def() -> (r: EnemyDef)
    ensures
        is_corpse_knight_def(r),
{
    EnemyDef {
        id: "corpse_knight".to_string(),
        name: "Corpse Knight".to_string(),
        max_hp: 62,
        intent_pattern: vec![IntentType::Attack(13), IntentType::AttackDefend(10, 6), IntentType::Buff(StatusType::Empowered, 2), IntentType::Attack(15)],
    }
}

/// The Sellsword Captain definition.
pub open spec fn is_sellsword_captain_def(d: EnemyDef) -> bool {
    &&& d.id@ == "sellsword_captain"@
    &&& d.name@ == "Sellsword Captain"@
    &&& d.max_hp == 56
    &&& d.intent_pattern@ == seq![IntentType::BuffAllies(StatusType::Empowered, 2), IntentType::Attack(10), IntentType::AttackDefend(8, 6), IntentType::Attack(12)]
}

pub fn sellsword_captain_def() -> (r: EnemyDef)
    ensures
        is_sellsword_captain_def(r),
{
    EnemyDef {
        id: "sellsword_captain".to_string(),
        name: "Sellsword Captain".to_string(),
        max_hp: 56,
        intent_pattern: vec![IntentType::BuffAllies(StatusType::Empowered, 2), IntentType::Attack(10), IntentType::AttackDefend(8, 6), IntentType::Attack(12)],
    }
}
// ── Elite ─────────────────────────────────────────────────────────────

/// The Flamewrath definition.
pub open spec fn is_flamewrath_def(d: EnemyDef) -> bool {
    &&& d.id@ == "flamewrath"@
    &&& d.name@ == "Flamewrath"@
    &&& d.max_hp == 80
    &&& d.intent_pattern@ == seq![IntentType::Attack(13), IntentType::Debuff(StatusType::Bleeding, 3), IntentType::AttackDefend(10, 10), IntentType::Buff(StatusType::Empowered, 2), IntentType::Attack(13), IntentType::Debuff(StatusType::Threatened, 2)]
}

pub fn flamewrath_def() -> (r: EnemyDef)
    ensures
        is_flamewrath_def(r),
{
    EnemyDef {
        id: "flamewrath".to_string(),
        name: "Flamewrath".to_string(),
        max_hp: 80,
        intent_pattern: vec![IntentType::Attack(13), IntentType::Debuff(StatusType::Bleeding, 3), IntentType::AttackDefend(10, 10), IntentType::Buff(StatusType::Empowered, 2), IntentType::Attack(13), IntentType::Debuff(StatusType::Threatened, 2)],
    }
}

/// The Wyvern definition.
pub open spec fn is_wyvern_def(d: EnemyDef) -> bool {
    &&& d.id@ == "wyvern"@
    &&& d.name@ == "Wyvern"@
    &&& d.max_hp == 85
    &&& d.intent_pattern@ == seq![IntentType::Attack(15), IntentType::Defend(12), IntentType::Attack(18), IntentType::Debuff(StatusType::Bleeding, 4), IntentType::AttackDefend(12, 8)]
}

pub fn wyvern_def() -> (r: EnemyDef)
    ensures
        is_wyvern_def(r),
{
    EnemyDef {
        id: "wyvern".to_string(),
        name: "Wyvern".to_string(),
        max_hp: 85,
        intent_pattern: vec![IntentType::Attack(15), IntentType::Defend(12), IntentType::Attack(18), IntentType::Debuff(StatusType::Bleeding, 4), IntentType::AttackDefend(12, 8)],
    }
}

/// The Necromancer definition.
pub open spec fn is_necromancer_def(d: EnemyDef) -> bool {
    &&& d.id@ == "necromancer"@
    &&& d.name@ == "Necromancer"@
    &&& d.max_hp == 70
    &&& d.intent_pattern@ == seq![IntentType::Debuff(StatusType::Marked, 3), IntentType::BuffAllies(StatusType::Empowered, 2), IntentType::Attack(12), IntentType::Debuff(StatusType::Threatened, 2), IntentType::Attack(12), IntentType::Debuff(StatusType::Weakened, 2)]
}

pub fn necromancer_def() -> (r: EnemyDef)
    ensures
        is_necromancer_def(r),
{
    EnemyDef {
        id: "necromancer".to_string(),
        name: "Necromancer".to_string(),
        max_hp: 70,
        intent_pattern: vec![IntentType::Debuff(StatusType::Marked, 3), IntentType::BuffAllies(StatusType::Empowered, 2), IntentType::Attack(12), IntentType::Debuff(StatusType::Threatened, 2), IntentType::Attack(12), IntentType::Debuff(StatusType::Weakened, 2)],
    }
}

/// The High Cultist definition.
pub open spec fn is_high_cultist_def(d: EnemyDef) -> bool {
    &&& d.id@ == "high_cultist"@
    &&& d.name@ == "High Cultist"@
    &&& d.max_hp == 72
    &&& d.intent_pattern@ == seq![IntentType::BuffAllies(StatusType::Empowered, 3), IntentType::Debuff(StatusType::Threatened, 2), IntentType::Attack(11), IntentType::Debuff(StatusType::Weakened, 2), IntentType::Attack(13)]
}

pub fn high_cultist_def() -> (r: EnemyDef)
    ensures
        is_high_cultist_def(r),
{
    EnemyDef {
        id: "high_cultist".to_string(),
        name: "High Cultist".to_string(),
        max_hp: 72,
        intent_pattern: vec![IntentType::BuffAllies(StatusType::Empowered, 3), IntentType::Debuff(StatusType::Threatened, 2), IntentType::Attack(11), IntentType::Debuff(StatusType::Weakened, 2), IntentType::Attack(13)],
    }
}

/// The Iron Golem definition.
pub open spec fn is_iron_golem_def(d: EnemyDef) -> bool {
    &&& d.id@ == "iron_golem"@
    &&& d.name@ == "Iron Golem"@
    &&& d.max_hp == 95
    &&& d.intent_pattern@ == seq![IntentType::Defend(12), IntentType::Attack(14), IntentType::AttackDefend(12, 8), IntentType::Buff(StatusType::Empowered, 2), IntentType::Attack(14), IntentType::Defend(12)]
}

pub fn iron_golem_def() -> (r: EnemyDef)
    ensures
        is_iron_golem_def(r),
{
    EnemyDef {
        id: "iron_golem".to_string(),
        name: "Iron Golem".to_string(),
        max_hp: 95,
        intent_pattern: vec![IntentType::Defend(12), IntentType::Attack(14), IntentType::AttackDefend(12, 8), IntentType::Buff(StatusType::Empowered, 2), IntentType::Attack(14), IntentType::Defend(12)],
    }
}
// ── Bosses ────────────────────────────────────────────────────────────

/// The Ogre Warchief definition.
pub open spec fn is_ogre_warchief_def(d: EnemyDef) -> bool {
    &&& d.id@ == "ogre_warchief"@
    &&& d.name@ == "Ogre Warchief"@
    &&& d.max_hp == 80
    &&& d.intent_pattern@ == seq![IntentType::Attack(14), IntentType::Attack(14), IntentType::Buff(StatusType::Empowered, 2), IntentType::AttackDefend(12, 8), IntentType::Debuff(StatusType::Threatened, 1), IntentType::Attack(14)]
}

pub fn ogre_warchief_def() -> (r: EnemyDef)
    ensures
        is_ogre_warchief_def(r),
{
    EnemyDef {
        id: "ogre_warchief".to_string(),
        name: "Ogre Warchief".to_string(),
        max_hp: 80,
        intent_pattern: vec![IntentType::Attack(14), IntentType::Attack(14), IntentType::Buff(StatusType::Empowered, 2), IntentType::AttackDefend(12, 8), IntentType::Debuff(StatusType::Threatened, 1), IntentType::Attack(14)],
    }
}

/// The Pale Warden definition.
pub open spec fn is_pale_warden_def(d: EnemyDef) -> bool {
    &&& d.id@ == "pale_warden"@
    &&& d.name@ == "Pale Warden"@
    &&& d.max_hp == 75
    &&& d.intent_pattern@ == seq![IntentType::Debuff(StatusType::Marked, 3), IntentType::Attack(12), IntentType::Debuff(StatusType::Weakened, 2), IntentType::AttackDefend(10, 10), IntentType::Debuff(StatusType::Threatened, 2), IntentType::Attack(15), IntentType::Buff(StatusType::Empowered, 2)]
}

pub fn pale_warden_def() -> (r: EnemyDef)
    ensures
        is_pale_warden_def(r),
{
    EnemyDef {
        id: "pale_warden".to_string(),
        name: "Pale Warden".to_string(),
        max_hp: 75,
        intent_pattern: vec![IntentType::Debuff(StatusType::Marked, 3), IntentType::Attack(12), IntentType::Debuff(StatusType::Weakened, 2), IntentType::AttackDefend(10, 10), IntentType::Debuff(StatusType::Threatened, 2), IntentType::Attack(15), IntentType::Buff(StatusType::Empowered, 2)],
    }
}

/// The Dragon Wyrm definition.
pub open spec fn is_dragon_wyrm_def(d: EnemyDef) -> bool {
    &&& d.id@ == "dragon_wyrm"@
    &&& d.name@ == "Dragon Wyrm"@
    &&& d.max_hp == 85
    &&& d.intent_pattern@ == seq![IntentType::Attack(14), IntentType::Defend(12), IntentType::Debuff(StatusType::Bleeding, 3), IntentType::AttackDefend(12, 8), IntentType::Buff(StatusType::Empowered, 2), IntentType::Attack(16), IntentType::Debuff(StatusType::Threatened, 2), IntentType::Attack(14)]
}

pub fn dragon_wyrm_def() -> (r: EnemyDef)
    ensures
        is_dragon_wyrm_def(r),
{
    EnemyDef {
        id: "dragon_wyrm".to_string(),
        name: "Dragon Wyrm".to_string(),
        max_hp: 85,
        intent_pattern: vec![IntentType::Attack(14), IntentType::Defend(12), IntentType::Debuff(StatusType::Bleeding, 3), IntentType::AttackDefend(12, 8), IntentType::Buff(StatusType::Empowered, 2), IntentType::Attack(16), IntentType::Debuff(StatusType::Threatened, 2), IntentType::Attack(14)],
    }
}
// ── Aggregates ──────────────────────────────────────────────────────
/// The enemy definitions of the content set, in order.
#[verifier::opaque]
pub open spec fn is_shipped_enemy_defs(s: Seq<EnemyDef>) -> bool {
    &&& s.len() == 50
    &&& is_goblin_grunt_def(s[0])
    &&& is_goblin_archer_def(s[1])
    &&& is_goblin_shaman_def(s[2])
    &&& is_giant_rat_def(s[3])
    &&& is_scavenger_def(s[4])
    &&& is_fire_beetle_def(s[5])
    &&& is_animated_shield_def(s[6])
    &&& is_sporecap_def(s[7])
    &&& is_skeleton_def(s[8])
    &&& is_blood_moth_def(s[9])
    &&& is_bandit_thug_def(s[10])
    &&& is_slime_def(s[11])
    &&& is_zombie_def(s[12])
    &&& is_plague_rat_def(s[13])
    &&& is_cave_spider_def(s[14])
    &&& is_giant_centipede_def(s[15])
    &&& is_bandit_archer_def(s[16])
    &&& is_imp_def(s[17])
    &&& is_shadow_wisp_def(s[18])
    &&& is_bone_sentinel_def(s[19])
    &&& is_harpy_def(s[20])
    &&& is_specter_def(s[21])
    &&& is_rust_crawler_def(s[22])
    &&& is_blightcap_def(s[23])
    &&& is_wolf_def(s[24])
    &&& is_boar_def(s[25])
    &&& is_cult_acolyte_def(s[26])
    &&& is_wight_def(s[27])
    &&& is_sellsword_def(s[28])
    &&& is_young_drake_def(s[29])
    &&& is_animated_armor_def(s[30])
    &&& is_ogre_thug_def(s[31])
    &&& is_stone_golem_def(s[32])
    &&& is_cave_stalker_def(s[33])
    &&& is_husk_whisperer_def(s[34])
    &&& is_troll_def(s[35])
    &&& is_bone_commander_def(s[36])
    &&& is_cult_channeler_def(s[37])
    &&& is_cult_invoker_def(s[38])
    &&& is_dark_priest_def(s[39])
    &&& is_corpse_knight_def(s[40])
    &&& is_sellsword_captain_def(s[41])
    &&& is_flamewrath_def(s[42])
    &&& is_wyvern_def(s[43])
    &&& is_necromancer_def(s[44])
    &&& is_high_cultist_def(s[45])
    &&& is_iron_golem_def(s[46])
    &&& is_ogre_warchief_def(s[47])
    &&& is_pale_warden_def(s[48])
    &&& is_dragon_wyrm_def(s[49])
}

/// Every enemy definition in the current content set, minions first and
/// bosses last.
pub fn all_enemy_defs() -> (r: Vec<EnemyDef>)
    ensures
        is_shipped_enemy_defs(r@),
        r@.len() == 50,
        is_goblin_grunt_def(r@[0]),
        is_goblin_archer_def(r@[1]),
        is_goblin_shaman_def(r@[2]),
        is_giant_rat_def(r@[3]),
        is_scavenger_def(r@[4]),
        is_fire_beetle_def(r@[5]),
        is_animated_shield_def(r@[6]),
        is_sporecap_def(r@[7]),
        is_skeleton_def(r@[8]),
        is_blood_moth_def(r@[9]),
        is_bandit_thug_def(r@[10]),
        is_slime_def(r@[11]),
        is_zombie_def(r@[12]),
        is_plague_rat_def(r@[13]),
        is_cave_spider_def(r@[14]),
        is_giant_centipede_def(r@[15]),
        is_bandit_archer_def(r@[16]),
        is_imp_def(r@[17]),
        is_shadow_wisp_def(r@[18]),
        is_bone_sentinel_def(r@[19]),
        is_harpy_def(r@[20]),
        is_specter_def(r@[21]),
        is_rust_crawler_def(r@[22]),
        is_blightcap_def(r@[23]),
        is_wolf_def(r@[24]),
        is_boar_def(r@[25]),
        is_cult_acolyte_def(r@[26]),
        is_wight_def(r@[27]),
        is_sellsword_def(r@[28]),
        is_young_drake_def(r@[29]),
        is_animated_armor_def(r@[30]),
        is_ogre_thug_def(r@[31]),
        is_stone_golem_def(r@[32]),
        is_cave_stalker_def(r@[33]),
        is_husk_whisperer_def(r@[34]),
        is_troll_def(r@[35]),
        is_bone_commander_def(r@[36]),
        is_cult_channeler_def(r@[37]),
        is_cult_invoker_def(r@[38]),
        is_dark_priest_def(r@[39]),
        is_corpse_knight_def(r@[40]),
        is_sellsword_captain_def(r@[41]),
        is_flamewrath_def(r@[42]),
        is_wyvern_def(r@[43]),
        is_necromancer_def(r@[44]),
        is_high_cultist_def(r@[45]),
        is_iron_golem_def(r@[46]),
        is_ogre_warchief_def(r@[47]),
        is_pale_warden_def(r@[48]),
        is_dragon_wyrm_def(r@[49]),
        forall|k: int| 0 <= k < r@.len() ==> #[trigger] r@[k].id@ == spec_all_enemy_ids()[k],
        forall|k: int| 0 <= k < r@.len() ==> has_attack_intent(#[trigger] r@[k]),
        forall|k: int| 0 <= k < r@.len() ==> 0 < (#[trigger] r@[k]).max_hp <= 1000,
{
    let r: Vec<EnemyDef> = vec![
        goblin_grunt_def(),
        goblin_archer_def(),
        goblin_shaman_def(),
        giant_rat_def(),
        scavenger_def(),
        fire_beetle_def(),
        animated_shield_def(),
        sporecap_def(),
        skeleton_def(),
        blood_moth_def(),
        bandit_thug_def(),
        slime_def(),
        zombie_def(),
        plague_rat_def(),
        cave_spider_def(),
        giant_centipede_def(),
        bandit_archer_def(),
        imp_def(),
        shadow_wisp_def(),
        bone_sentinel_def(),
        harpy_def(),
        specter_def(),
        rust_crawler_def(),
        blightcap_def(),
        wolf_def(),
        boar_def(),
        cult_acolyte_def(),
        wight_def(),
        sellsword_def(),
        young_drake_def(),
        animated_armor_def(),
        ogre_thug_def(),
        stone_golem_def(),
        cave_stalker_def(),
        husk_whisperer_def(),
        troll_def(),
        bone_commander_def(),
        cult_channeler_def(),
        cult_invoker_def(),
        dark_priest_def(),
        corpse_knight_def(),
        sellsword_captain_def(),
        flamewrath_def(),
        wyvern_def(),
        necromancer_def(),
        high_cultist_def(),
        iron_golem_def(),
        ogre_warchief_def(),
        pale_warden_def(),
        dragon_wyrm_def(),
    ];
    proof {
        assert(is_attack_intent(r@[0].intent_pattern@[0]));
        assert(is_attack_intent(r@[1].intent_pattern@[0]));
        assert(is_attack_intent(r@[2].intent_pattern@[1]));
        assert(is_attack_intent(r@[3].intent_pattern@[0]));
        assert(is_attack_intent(r@[4].intent_pattern@[0]));
        assert(is_attack_intent(r@[5].intent_pattern@[0]));
        assert(is_attack_intent(r@[6].intent_pattern@[2]));
        assert(is_attack_intent(r@[7].intent_pattern@[1]));
        assert(is_attack_intent(r@[8].intent_pattern@[0]));
        assert(is_attack_intent(r@[9].intent_pattern@[0]));
        assert(is_attack_intent(r@[10].intent_pattern@[0]));
        assert(is_attack_intent(r@[11].intent_pattern@[0]));
        assert(is_attack_intent(r@[12].intent_pattern@[0]));
        assert(is_attack_intent(r@[13].intent_pattern@[0]));
        assert(is_attack_intent(r@[14].intent_pattern@[1]));
        assert(is_attack_intent(r@[15].intent_pattern@[0]));
        assert(is_attack_intent(r@[16].intent_pattern@[0]));
        assert(is_attack_intent(r@[17].intent_pattern@[0]));
        assert(is_attack_intent(r@[18].intent_pattern@[0]));
        assert(is_attack_intent(r@[19].intent_pattern@[1]));
        assert(is_attack_intent(r@[20].intent_pattern@[1]));
        assert(is_attack_intent(r@[21].intent_pattern@[0]));
        assert(is_attack_intent(r@[22].intent_pattern@[0]));
        assert(is_attack_intent(r@[23].intent_pattern@[1]));
        assert(is_attack_intent(r@[24].intent_pattern@[0]));
        assert(is_attack_intent(r@[25].intent_pattern@[0]));
        assert(is_attack_intent(r@[26].intent_pattern@[1]));
        assert(is_attack_intent(r@[27].intent_pattern@[0]));
        assert(is_attack_intent(r@[28].intent_pattern@[0]));
        assert(is_attack_intent(r@[29].intent_pattern@[0]));
        assert(is_attack_intent(r@[30].intent_pattern@[0]));
        assert(is_attack_intent(r@[31].intent_pattern@[0]));
        assert(is_attack_intent(r@[32].intent_pattern@[0]));
        assert(is_attack_intent(r@[33].intent_pattern@[0]));
        assert(is_attack_intent(r@[34].intent_pattern@[1]));
        assert(is_attack_intent(r@[35].intent_pattern@[0]));
        assert(is_attack_intent(r@[36].intent_pattern@[1]));
        assert(is_attack_intent(r@[37].intent_pattern@[1]));
        assert(is_attack_intent(r@[38].intent_pattern@[0]));
        assert(is_attack_intent(r@[39].intent_pattern@[2]));
        assert(is_attack_intent(r@[40].intent_pattern@[0]));
        assert(is_attack_intent(r@[41].intent_pattern@[1]));
        assert(is_attack_intent(r@[42].intent_pattern@[0]));
        assert(is_attack_intent(r@[43].intent_pattern@[0]));
        assert(is_attack_intent(r@[44].intent_pattern@[2]));
        assert(is_attack_intent(r@[45].intent_pattern@[2]));
        assert(is_attack_intent(r@[46].intent_pattern@[1]));
        assert(is_attack_intent(r@[47].intent_pattern@[0]));
        assert(is_attack_intent(r@[48].intent_pattern@[1]));
        assert(is_attack_intent(r@[49].intent_pattern@[0]));
        assert forall|k: int| 0 <= k < r@.len() implies #[trigger] r@[k].id@ == spec_all_enemy_ids()[k] by {}
        assert forall|k: int| 0 <= k < r@.len() implies 0 < (#[trigger] r@[k]).max_hp <= 1000 by {
            if k == 0 {} else if k == 1 {} else if k == 2 {} else if k == 3 {} else if k == 4 {} else if k == 5 {} else if k == 6 {} else if k == 7 {} else if k == 8 {} else if k == 9 {} else if k == 10 {} else if k == 11 {} else if k == 12 {} else if k == 13 {} else if k == 14 {} else if k == 15 {} else if k == 16 {} else if k == 17 {} else if k == 18 {} else if k == 19 {} else if k == 20 {} else if k == 21 {} else if k == 22 {} else if k == 23 {} else if k == 24 {} else if k == 25 {} else if k == 26 {} else if k == 27 {} else if k == 28 {} else if k == 29 {} else if k == 30 {} else if k == 31 {} else if k == 32 {} else if k == 33 {} else if k == 34 {} else if k == 35 {} else if k == 36 {} else if k == 37 {} else if k == 38 {} else if k == 39 {} else if k == 40 {} else if k == 41 {} else if k == 42 {} else if k == 43 {} else if k == 44 {} else if k == 45 {} else if k == 46 {} else if k == 47 {} else if k == 48 {} else if k == 49 {}
        }
    }
    proof {
        reveal(is_shipped_enemy_defs);
    }
    r
}

/// The ids of `all_enemy_defs`, in order.
pub open spec fn spec_all_enemy_ids() -> Seq<Seq<char>> {
    seq!["goblin_grunt"@, "goblin_archer"@, "goblin_shaman"@, "giant_rat"@, "scavenger"@, "fire_beetle"@, "animated_shield"@, "sporecap"@, "skeleton"@, "blood_moth"@, "bandit_thug"@, "slime"@, "zombie"@, "plague_rat"@, "cave_spider"@, "giant_centipede"@, "bandit_archer"@, "imp"@, "shadow_wisp"@, "bone_sentinel"@, "harpy"@, "specter"@, "rust_crawler"@, "blightcap"@, "wolf"@, "boar"@, "cult_acolyte"@, "wight"@, "sellsword"@, "young_drake"@, "animated_armor"@, "ogre_thug"@, "stone_golem"@, "cave_stalker"@, "husk_whisperer"@, "troll"@, "bone_commander"@, "cult_channeler"@, "cult_invoker"@, "dark_priest"@, "corpse_knight"@, "sellsword_captain"@, "flamewrath"@, "wyvern"@, "necromancer"@, "high_cultist"@, "iron_golem"@, "ogre_warchief"@, "pale_warden"@, "dragon_wyrm"@]
}

/// Whether an intent attacks the player.
pub open spec fn is_attack_intent(i: IntentType) -> bool {
    i is Attack || i is AttackDefend
}

/// Whether a definition's pattern holds an attacking intent.
pub open spec fn has_attack_intent(d: EnemyDef) -> bool {
    exists|j: int| 0 <= j < d.intent_pattern@.len() && is_attack_intent(#[trigger] d.intent_pattern@[j])
}
/// Minion-tier enemy ids (low HP, about 1 budget).
pub open spec fn spec_minion_ids() -> Seq<Seq<char>> {
    seq!["goblin_grunt"@, "goblin_archer"@, "goblin_shaman"@, "giant_rat"@, "scavenger"@, "fire_beetle"@, "animated_shield"@, "sporecap"@, "skeleton"@, "blood_moth"@, "bandit_thug"@]
}

/// Minion-tier enemy ids (low HP, about 1 budget).
pub fn minion_ids() -> (r: Vec<EnemyId>)
    ensures
        r@.len() == spec_minion_ids().len(),
        forall|i: int| 0 <= i < r@.len() ==> #[trigger] r@[i]@ == spec_minion_ids()[i],
{
    let r: Vec<EnemyId> = vec!["goblin_grunt".to_string(), "goblin_archer".to_string(), "goblin_shaman".to_string(), "giant_rat".to_string(), "scavenger".to_string(), "fire_beetle".to_string(), "animated_shield".to_string(), "sporecap".to_string(), "skeleton".to_string(), "blood_moth".to_string(), "bandit_thug".to_string()];
    proof {
        assert forall|i: int| 0 <= i < r@.len() implies #[trigger] r@[i]@ == spec_minion_ids()[i] by {}
    }
    r
}
/// Standard-tier enemy ids (about 2 budget).
pub open spec fn spec_standard_ids() -> Seq<Seq<char>> {
    seq!["slime"@, "zombie"@, "plague_rat"@, "cave_spider"@, "giant_centipede"@, "bandit_archer"@, "imp"@, "shadow_wisp"@, "bone_sentinel"@, "harpy"@, "specter"@, "rust_crawler"@, "blightcap"@, "wolf"@, "boar"@, "cult_acolyte"@, "wight"@, "sellsword"@, "young_drake"@, "animated_armor"@]
}

/// Standard-tier enemy ids (about 2 budget).
pub fn standard_ids() -> (r: Vec<EnemyId>)
    ensures
        r@.len() == spec_standard_ids().len(),
        forall|i: int| 0 <= i < r@.len() ==> #[trigger] r@[i]@ == spec_standard_ids()[i],
{
    let r: Vec<EnemyId> = vec!["slime".to_string(), "zombie".to_string(), "plague_rat".to_string(), "cave_spider".to_string(), "giant_centipede".to_string(), "bandit_archer".to_string(), "imp".to_string(), "shadow_wisp".to_string(), "bone_sentinel".to_string(), "harpy".to_string(), "specter".to_string(), "rust_crawler".to_string(), "blightcap".to_string(), "wolf".to_string(), "boar".to_string(), "cult_acolyte".to_string(), "wight".to_string(), "sellsword".to_string(), "young_drake".to_string(), "animated_armor".to_string()];
    proof {
        assert forall|i: int| 0 <= i < r@.len() implies #[trigger] r@[i]@ == spec_standard_ids()[i] by {}
    }
    r
}
/// Tough-tier enemy ids (about 4 budget).
pub open spec fn spec_tough_ids() -> Seq<Seq<char>> {
    seq!["ogre_thug"@, "stone_golem"@, "cave_stalker"@, "husk_whisperer"@, "troll"@, "bone_commander"@, "cult_channeler"@, "cult_invoker"@, "dark_priest"@, "corpse_knight"@, "sellsword_captain"@]
}

/// Tough-tier enemy ids (about 4 budget).
pub fn tough_ids() -> (r: Vec<EnemyId>)
    ensures
        r@.len() == spec_tough_ids().len(),
        forall|i: int| 0 <= i < r@.len() ==> #[trigger] r@[i]@ == spec_tough_ids()[i],
{
    let r: Vec<EnemyId> = vec!["ogre_thug".to_string(), "stone_golem".to_string(), "cave_stalker".to_string(), "husk_whisperer".to_string(), "troll".to_string(), "bone_commander".to_string(), "cult_channeler".to_string(), "cult_invoker".to_string(), "dark_priest".to_string(), "corpse_knight".to_string(), "sellsword_captain".to_string()];
    proof {
        assert forall|i: int| 0 <= i < r@.len() implies #[trigger] r@[i]@ == spec_tough_ids()[i] by {}
    }
    r
}
/// Elite-tier enemy ids (hard solo fights or paired).
pub open spec fn spec_elite_ids() -> Seq<Seq<char>> {
    seq!["flamewrath"@, "wyvern"@, "necromancer"@, "high_cultist"@, "iron_golem"@]
}

/// Elite-tier enemy ids (hard solo fights or paired).
pub fn elite_ids() -> (r: Vec<EnemyId>)
    ensures
        r@.len() == spec_elite_ids().len(),
        forall|i: int| 0 <= i < r@.len() ==> #[trigger] r@[i]@ == spec_elite_ids()[i],
{
    let r: Vec<EnemyId> = vec!["flamewrath".to_string(), "wyvern".to_string(), "necromancer".to_string(), "high_cultist".to_string(), "iron_golem".to_string()];
    proof {
        assert forall|i: int| 0 <= i < r@.len() implies #[trigger] r@[i]@ == spec_elite_ids()[i] by {}
    }
    r
}
/// Act boss enemy ids.
pub open spec fn spec_boss_ids() -> Seq<Seq<char>> {
    seq!["ogre_warchief"@, "pale_warden"@, "dragon_wyrm"@]
}

/// Act boss enemy ids.
pub fn boss_ids() -> (r: Vec<EnemyId>)
    ensures
        r@.len() == spec_boss_ids().len(),
        forall|i: int| 0 <= i < r@.len() ==> #[trigger] r@[i]@ == spec_boss_ids()[i],
{
    let r: Vec<EnemyId> = vec!["ogre_warchief".to_string(), "pale_warden".to_string(), "dragon_wyrm".to_string()];
    proof {
        assert forall|i: int| 0 <= i < r@.len() implies #[trigger] r@[i]@ == spec_boss_ids()[i] by {}
    }
    r
}
/// Every tier id names one of the definitions of `all_enemy_defs`.
pub proof fn law_tier_ids_are_defined()
    ensures
        forall|i: int| 0 <= i < spec_minion_ids().len() ==> spec_all_enemy_ids().contains(#[trigger] spec_minion_ids()[i]),
        forall|i: int| 0 <= i < spec_standard_ids().len() ==> spec_all_enemy_ids().contains(#[trigger] spec_standard_ids()[i]),
        forall|i: int| 0 <= i < spec_tough_ids().len() ==> spec_all_enemy_ids().contains(#[trigger] spec_tough_ids()[i]),
        forall|i: int| 0 <= i < spec_elite_ids().len() ==> spec_all_enemy_ids().contains(#[trigger] spec_elite_ids()[i]),
        forall|i: int| 0 <= i < spec_boss_ids().len() ==> spec_all_enemy_ids().contains(#[trigger] spec_boss_ids()[i]),
{
    assert(spec_all_enemy_ids()[0] == spec_minion_ids()[0]);
    assert(spec_all_enemy_ids()[1] == spec_minion_ids()[1]);
    assert(spec_all_enemy_ids()[2] == spec_minion_ids()[2]);
    assert(spec_all_enemy_ids()[3] == spec_minion_ids()[3]);
    assert(spec_all_enemy_ids()[4] == spec_minion_ids()[4]);
    assert(spec_all_enemy_ids()[5] == spec_minion_ids()[5]);
    assert(spec_all_enemy_ids()[6] == spec_minion_ids()[6]);
    assert(spec_all_enemy_ids()[7] == spec_minion_ids()[7]);
    assert(spec_all_enemy_ids()[8] == spec_minion_ids()[8]);
    assert(spec_all_enemy_ids()[9] == spec_minion_ids()[9]);
    assert(spec_all_enemy_ids()[10] == spec_minion_ids()[10]);
    assert(spec_all_enemy_ids()[11] == spec_standard_ids()[0]);
    assert(spec_all_enemy_ids()[12] == spec_standard_ids()[1]);
    assert(spec_all_enemy_ids()[13] == spec_standard_ids()[2]);
    assert(spec_all_enemy_ids()[14] == spec_standard_ids()[3]);
    assert(spec_all_enemy_ids()[15] == spec_standard_ids()[4]);
    assert(spec_all_enemy_ids()[16] == spec_standard_ids()[5]);
    assert(spec_all_enemy_ids()[17] == spec_standard_ids()[6]);
    assert(spec_all_enemy_ids()[18] == spec_standard_ids()[7]);
    assert(spec_all_enemy_ids()[19] == spec_standard_ids()[8]);
    assert(spec_all_enemy_ids()[20] == spec_standard_ids()[9]);
    assert(spec_all_enemy_ids()[21] == spec_standard_ids()[10]);
    assert(spec_all_enemy_ids()[22] == spec_standard_ids()[11]);
    assert(spec_all_enemy_ids()[23] == spec_standard_ids()[12]);
    assert(spec_all_enemy_ids()[24] == spec_standard_ids()[13]);
    assert(spec_all_enemy_ids()[25] == spec_standard_ids()[14]);
    assert(spec_all_enemy_ids()[26] == spec_standard_ids()[15]);
    assert(spec_all_enemy_ids()[27] == spec_standard_ids()[16]);
    assert(spec_all_enemy_ids()[28] == spec_standard_ids()[17]);
    assert(spec_all_enemy_ids()[29] == spec_standard_ids()[18]);
    assert(spec_all_enemy_ids()[30] == spec_standard_ids()[19]);
    assert(spec_all_enemy_ids()[31] == spec_tough_ids()[0]);
    assert(spec_all_enemy_ids()[32] == spec_tough_ids()[1]);
    assert(spec_all_enemy_ids()[33] == spec_tough_ids()[2]);
    assert(spec_all_enemy_ids()[34] == spec_tough_ids()[3]);
    assert(spec_all_enemy_ids()[35] == spec_tough_ids()[4]);
    assert(spec_all_enemy_ids()[36] == spec_tough_ids()[5]);
    assert(spec_all_enemy_ids()[37] == spec_tough_ids()[6]);
    assert(spec_all_enemy_ids()[38] == spec_tough_ids()[7]);
    assert(spec_all_enemy_ids()[39] == spec_tough_ids()[8]);
    assert(spec_all_enemy_ids()[40] == spec_tough_ids()[9]);
    assert(spec_all_enemy_ids()[41] == spec_tough_ids()[10]);
    assert(spec_all_enemy_ids()[42] == spec_elite_ids()[0]);
    assert(spec_all_enemy_ids()[43] == spec_elite_ids()[1]);
    assert(spec_all_enemy_ids()[44] == spec_elite_ids()[2]);
    assert(spec_all_enemy_ids()[45] == spec_elite_ids()[3]);
    assert(spec_all_enemy_ids()[46] == spec_elite_ids()[4]);
    assert(spec_all_enemy_ids()[47] == spec_boss_ids()[0]);
    assert(spec_all_enemy_ids()[48] == spec_boss_ids()[1]);
    assert(spec_all_enemy_ids()[49] == spec_boss_ids()[2]);
    assert forall|i: int| 0 <= i < spec_minion_ids().len() implies spec_all_enemy_ids().contains(#[trigger] spec_minion_ids()[i]) by {
        if i == 0 { assert(spec_all_enemy_ids()[0] == spec_minion_ids()[i]); } else if i == 1 { assert(spec_all_enemy_ids()[1] == spec_minion_ids()[i]); } else if i == 2 { assert(spec_all_enemy_ids()[2] == spec_minion_ids()[i]); } else if i == 3 { assert(spec_all_enemy_ids()[3] == spec_minion_ids()[i]); } else if i == 4 { assert(spec_all_enemy_ids()[4] == spec_minion_ids()[i]); } else if i == 5 { assert(spec_all_enemy_ids()[5] == spec_minion_ids()[i]); } else if i == 6 { assert(spec_all_enemy_ids()[6] == spec_minion_ids()[i]); } else if i == 7 { assert(spec_all_enemy_ids()[7] == spec_minion_ids()[i]); } else if i == 8 { assert(spec_all_enemy_ids()[8] == spec_minion_ids()[i]); } else if i == 9 { assert(spec_all_enemy_ids()[9] == spec_minion_ids()[i]); } else if i == 10 { assert(spec_all_enemy_ids()[10] == spec_minion_ids()[i]); }
    }
    assert forall|i: int| 0 <= i < spec_standard_ids().len() implies spec_all_enemy_ids().contains(#[trigger] spec_standard_ids()[i]) by {
        if i == 0 { assert(spec_all_enemy_ids()[11] == spec_standard_ids()[i]); } else if i == 1 { assert(spec_all_enemy_ids()[12] == spec_standard_ids()[i]); } else if i == 2 { assert(spec_all_enemy_ids()[13] == spec_standard_ids()[i]); } else if i == 3 { assert(spec_all_enemy_ids()[14] == spec_standard_ids()[i]); } else if i == 4 { assert(spec_all_enemy_ids()[15] == spec_standard_ids()[i]); } else if i == 5 { assert(spec_all_enemy_ids()[16] == spec_standard_ids()[i]); } else if i == 6 { assert(spec_all_enemy_ids()[17] == spec_standard_ids()[i]); } else if i == 7 { assert(spec_all_enemy_ids()[18] == spec_standard_ids()[i]); } else if i == 8 { assert(spec_all_enemy_ids()[19] == spec_standard_ids()[i]); } else if i == 9 { assert(spec_all_enemy_ids()[20] == spec_standard_ids()[i]); } else if i == 10 { assert(spec_all_enemy_ids()[21] == spec_standard_ids()[i]); } else if i == 11 { assert(spec_all_enemy_ids()[22] == spec_standard_ids()[i]); } else if i == 12 { assert(spec_all_enemy_ids()[23] == spec_standard_ids()[i]); } else if i == 13 { assert(spec_all_enemy_ids()[24] == spec_standard_ids()[i]); } else if i == 14 { assert(spec_all_enemy_ids()[25] == spec_standard_ids()[i]); } else if i == 15 { assert(spec_all_enemy_ids()[26] == spec_standard_ids()[i]); } else if i == 16 { assert(spec_all_enemy_ids()[27] == spec_standard_ids()[i]); } else if i == 17 { assert(spec_all_enemy_ids()[28] == spec_standard_ids()[i]); } else if i == 18 { assert(spec_all_enemy_ids()[29] == spec_standard_ids()[i]); } else if i == 19 { assert(spec_all_enemy_ids()[30] == spec_standard_ids()[i]); }
    }
    assert forall|i: int| 0 <= i < spec_tough_ids().len() implies spec_all_enemy_ids().contains(#[trigger] spec_tough_ids()[i]) by {
        if i == 0 { assert(spec_all_enemy_ids()[31] == spec_tough_ids()[i]); } else if i == 1 { assert(spec_all_enemy_ids()[32] == spec_tough_ids()[i]); } else if i == 2 { assert(spec_all_enemy_ids()[33] == spec_tough_ids()[i]); } else if i == 3 { assert(spec_all_enemy_ids()[34] == spec_tough_ids()[i]); } else if i == 4 { assert(spec_all_enemy_ids()[35] == spec_tough_ids()[i]); } else if i == 5 { assert(spec_all_enemy_ids()[36] == spec_tough_ids()[i]); } else if i == 6 { assert(spec_all_enemy_ids()[37] == spec_tough_ids()[i]); } else if i == 7 { assert(spec_all_enemy_ids()[38] == spec_tough_ids()[i]); } else if i == 8 { assert(spec_all_enemy_ids()[39] == spec_tough_ids()[i]); } else if i == 9 { assert(spec_all_enemy_ids()[40] == spec_tough_ids()[i]); } else if i == 10 { assert(spec_all_enemy_ids()[41] == spec_tough_ids()[i]); }
    }
    assert forall|i: int| 0 <= i < spec_elite_ids().len() implies spec_all_enemy_ids().contains(#[trigger] spec_elite_ids()[i]) by {
        if i == 0 { assert(spec_all_enemy_ids()[42] == spec_elite_ids()[i]); } else if i == 1 { assert(spec_all_enemy_ids()[43] == spec_elite_ids()[i]); } else if i == 2 { assert(spec_all_enemy_ids()[44] == spec_elite_ids()[i]); } else if i == 3 { assert(spec_all_enemy_ids()[45] == spec_elite_ids()[i]); } else if i == 4 { assert(spec_all_enemy_ids()[46] == spec_elite_ids()[i]); }
    }
    assert forall|i: int| 0 <= i < spec_boss_ids().len() implies spec_all_enemy_ids().contains(#[trigger] spec_boss_ids()[i]) by {
        if i == 0 { assert(spec_all_enemy_ids()[47] == spec_boss_ids()[i]); } else if i == 1 { assert(spec_all_enemy_ids()[48] == spec_boss_ids()[i]); } else if i == 2 { assert(spec_all_enemy_ids()[49] == spec_boss_ids()[i]); }
    }
}

/// Whether an id is one of the minion-tier ids.
pub open spec fn is_minion_id(x: Seq<char>) -> bool {
    x == "goblin_grunt"@
    || x == "goblin_archer"@
    || x == "goblin_shaman"@
    || x == "giant_rat"@
    || x == "scavenger"@
    || x == "fire_beetle"@
    || x == "animated_shield"@
    || x == "sporecap"@
    || x == "skeleton"@
    || x == "blood_moth"@
    || x == "bandit_thug"@
}

/// Whether an id is one of the standard-tier ids.
pub open spec fn is_standard_id(x: Seq<char>) -> bool {
    x == "slime"@
    || x == "zombie"@
    || x == "plague_rat"@
    || x == "cave_spider"@
    || x == "giant_centipede"@
    || x == "bandit_archer"@
    || x == "imp"@
    || x == "shadow_wisp"@
    || x == "bone_sentinel"@
    || x == "harpy"@
    || x == "specter"@
    || x == "rust_crawler"@
    || x == "blightcap"@
    || x == "wolf"@
    || x == "boar"@
    || x == "cult_acolyte"@
    || x == "wight"@
    || x == "sellsword"@
    || x == "young_drake"@
    || x == "animated_armor"@
}

/// Whether an id is one of the tough-tier ids.
pub open spec fn is_tough_id(x: Seq<char>) -> bool {
    x == "ogre_thug"@
    || x == "stone_golem"@
    || x == "cave_stalker"@
    || x == "husk_whisperer"@
    || x == "troll"@
    || x == "bone_commander"@
    || x == "cult_channeler"@
    || x == "cult_invoker"@
    || x == "dark_priest"@
    || x == "corpse_knight"@
    || x == "sellsword_captain"@
}

/// Each of the minion, standard and tough lists holds ids of its own tier.
pub proof fn lemma_tier_lists()
    ensures
        forall|i: int| 0 <= i < spec_minion_ids().len() ==> is_minion_id(#[trigger] spec_minion_ids()[i]),
        forall|i: int| 0 <= i < spec_standard_ids().len() ==> is_standard_id(#[trigger] spec_standard_ids()[i]),
        forall|i: int| 0 <= i < spec_tough_ids().len() ==> is_tough_id(#[trigger] spec_tough_ids()[i]),
{
    assert forall|i: int| 0 <= i < spec_minion_ids().len() implies is_minion_id(#[trigger] spec_minion_ids()[i]) by {
        
if i == 0 {} else if i == 1 {} else if i == 2 {} else if i == 3 {} else if i == 4 {} else if i == 5 {} else if i == 6 {} else if i == 7 {} else if i == 8 {} else if i == 9 {} else if i == 10 {}

    }
    assert forall|i: int| 0 <= i < spec_standard_ids().len() implies is_standard_id(#[trigger] spec_standard_ids()[i]) by {
        
if i == 0 {} else if i == 1 {} else if i == 2 {} else if i == 3 {} else if i == 4 {} else if i == 5 {} else if i == 6 {} else if i == 7 {} else if i == 8 {} else if i == 9 {} else if i == 10 {} else if i == 11 {} else if i == 12 {} else if i == 13 {} else if i == 14 {} else if i == 15 {} else if i == 16 {} else if i == 17 {} else if i == 18 {} else if i == 19 {}

    }
    assert forall|i: int| 0 <= i < spec_tough_ids().len() implies is_tough_id(#[trigger] spec_tough_ids()[i]) by {
        
if i == 0 {} else if i == 1 {} else if i == 2 {} else if i == 3 {} else if i == 4 {} else if i == 5 {} else if i == 6 {} else if i == 7 {} else if i == 8 {} else if i == 9 {} else if i == 10 {}

    }
}

/// No id belongs to two of the minion, standard and tough tiers.
pub proof fn lemma_tiers_disjoint()
    ensures
        forall|x: Seq<char>| is_minion_id(x) ==> !is_standard_id(x) && !is_tough_id(x),
        forall|x: Seq<char>| is_standard_id(x) ==> !is_tough_id(x),
{
    reveal_strlit("goblin_grunt");
    reveal_strlit("goblin_archer");
    reveal_strlit("goblin_shaman");
    reveal_strlit("giant_rat");
    reveal_strlit("scavenger");
    reveal_strlit("fire_beetle");
    reveal_strlit("animated_shield");
    reveal_strlit("sporecap");
    reveal_strlit("skeleton");
    reveal_strlit("blood_moth");
    reveal_strlit("bandit_thug");
    reveal_strlit("slime");
    reveal_strlit("zombie");
    reveal_strlit("plague_rat");
    reveal_strlit("cave_spider");
    reveal_strlit("giant_centipede");
    reveal_strlit("bandit_archer");
    reveal_strlit("imp");
    reveal_strlit("shadow_wisp");
    reveal_strlit("bone_sentinel");
    reveal_strlit("harpy");
    reveal_strlit("specter");
    reveal_strlit("rust_crawler");
    reveal_strlit("blightcap");
    reveal_strlit("wolf");
    reveal_strlit("boar");
    reveal_strlit("cult_acolyte");
    reveal_strlit("wight");
    reveal_strlit("sellsword");
    reveal_strlit("young_drake");
    reveal_strlit("animated_armor");
    reveal_strlit("ogre_thug");
    reveal_strlit("stone_golem");
    reveal_strlit("cave_stalker");
    reveal_strlit("husk_whisperer");
    reveal_strlit("troll");
    reveal_strlit("bone_commander");
    reveal_strlit("cult_channeler");
    reveal_strlit("cult_invoker");
    reveal_strlit("dark_priest");
    reveal_strlit("corpse_knight");
    reveal_strlit("sellsword_captain");
    assert("goblin_grunt"@.len() == 12 && "goblin_grunt"@[0] == 'g' && "goblin_grunt"@[11] == 't');
    assert("goblin_archer"@.len() == 13 && "goblin_archer"@[0] == 'g' && "goblin_archer"@[12] == 'r');
    assert("goblin_shaman"@.len() == 13 && "goblin_shaman"@[0] == 'g' && "goblin_shaman"@[12] == 'n');
    assert("giant_rat"@.len() == 9 && "giant_rat"@[0] == 'g' && "giant_rat"@[8] == 't');
    assert("scavenger"@.len() == 9 && "scavenger"@[0] == 's' && "scavenger"@[8] == 'r');
    assert("fire_beetle"@.len() == 11 && "fire_beetle"@[0] == 'f' && "fire_beetle"@[10] == 'e');
    assert("animated_shield"@.len() == 15 && "animated_shield"@[0] == 'a' && "animated_shield"@[14] == 'd');
    assert("sporecap"@.len() == 8 && "sporecap"@[0] == 's' && "sporecap"@[7] == 'p');
    assert("skeleton"@.len() == 8 && "skeleton"@[0] == 's' && "skeleton"@[7] == 'n');
    assert("blood_moth"@.len() == 10 && "blood_moth"@[0] == 'b' && "blood_moth"@[9] == 'h');
    assert("bandit_thug"@.len() == 11 && "bandit_thug"@[0] == 'b' && "bandit_thug"@[10] == 'g');
    assert("slime"@.len() == 5 && "slime"@[0] == 's' && "slime"@[4] == 'e');
    assert("zombie"@.len() == 6 && "zombie"@[0] == 'z' && "zombie"@[5] == 'e');
    assert("plague_rat"@.len() == 10 && "plague_rat"@[0] == 'p' && "plague_rat"@[9] == 't');
    assert("cave_spider"@.len() == 11 && "cave_spider"@[0] == 'c' && "cave_spider"@[10] == 'r');
    assert("giant_centipede"@.len() == 15 && "giant_centipede"@[0] == 'g' && "giant_centipede"@[14] == 'e');
    assert("bandit_archer"@.len() == 13 && "bandit_archer"@[0] == 'b' && "bandit_archer"@[12] == 'r');
    assert("imp"@.len() == 3 && "imp"@[0] == 'i' && "imp"@[2] == 'p');
    assert("shadow_wisp"@.len() == 11 && "shadow_wisp"@[0] == 's' && "shadow_wisp"@[10] == 'p');
    assert("bone_sentinel"@.len() == 13 && "bone_sentinel"@[0] == 'b' && "bone_sentinel"@[12] == 'l');
    assert("harpy"@.len() == 5 && "harpy"@[0] == 'h' && "harpy"@[4] == 'y');
    assert("specter"@.len() == 7 && "specter"@[0] == 's' && "specter"@[6] == 'r');
    assert("rust_crawler"@.len() == 12 && "rust_crawler"@[0] == 'r' && "rust_crawler"@[11] == 'r');
    assert("blightcap"@.len() == 9 && "blightcap"@[0] == 'b' && "blightcap"@[8] == 'p');
    assert("wolf"@.len() == 4 && "wolf"@[0] == 'w' && "wolf"@[3] == 'f');
    assert("boar"@.len() == 4 && "boar"@[0] == 'b' && "boar"@[3] == 'r');
    assert("cult_acolyte"@.len() == 12 && "cult_acolyte"@[0] == 'c' && "cult_acolyte"@[11] == 'e');
    assert("wight"@.len() == 5 && "wight"@[0] == 'w' && "wight"@[4] == 't');
    assert("sellsword"@.len() == 9 && "sellsword"@[0] == 's' && "sellsword"@[8] == 'd');
    assert("young_drake"@.len() == 11 && "young_drake"@[0] == 'y' && "young_drake"@[10] == 'e');
    assert("animated_armor"@.len() == 14 && "animated_armor"@[0] == 'a' && "animated_armor"@[13] == 'r');
    assert("ogre_thug"@.len() == 9 && "ogre_thug"@[0] == 'o' && "ogre_thug"@[8] == 'g');
    assert("stone_golem"@.len() == 11 && "stone_golem"@[0] == 's' && "stone_golem"@[10] == 'm');
    assert("cave_stalker"@.len() == 12 && "cave_stalker"@[0] == 'c' && "cave_stalker"@[1] == 'a' && "cave_stalker"@[11] == 'r');
    assert("husk_whisperer"@.len() == 14 && "husk_whisperer"@[0] == 'h' && "husk_whisperer"@[13] == 'r');
    assert("troll"@.len() == 5 && "troll"@[0] == 't' && "troll"@[4] == 'l');
    assert("bone_commander"@.len() == 14 && "bone_commander"@[0] == 'b' && "bone_commander"@[13] == 'r');
    assert("cult_channeler"@.len() == 14 && "cult_channeler"@[0] == 'c' && "cult_channeler"@[13] == 'r');
    assert("cult_invoker"@.len() == 12 && "cult_invoker"@[0] == 'c' && "cult_invoker"@[1] == 'u' && "cult_invoker"@[11] == 'r');
    assert("dark_priest"@.len() == 11 && "dark_priest"@[0] == 'd' && "dark_priest"@[10] == 't');
    assert("corpse_knight"@.len() == 13 && "corpse_knight"@[0] == 'c' && "corpse_knight"@[12] == 't');
    assert("sellsword_captain"@.len() == 17 && "sellsword_captain"@[0] == 's' && "sellsword_captain"@[16] == 'n');
}

/// Position of an id in `spec_all_enemy_ids`, or the length when absent.
pub open spec fn enemy_id_position(x: Seq<char>) -> int {


















































    if x == "goblin_grunt"@ {
        0
    } else if x == "goblin_archer"@ {
        1
    } else if x == "goblin_shaman"@ {
        2
    } else if x == "giant_rat"@ {
        3
    } else if x == "scavenger"@ {
        4
    } else if x == "fire_beetle"@ {
        5
    } else if x == "animated_shield"@ {
        6
    } else if x == "sporecap"@ {
        7
    } else if x == "skeleton"@ {
        8
    } else if x == "blood_moth"@ {
        9
    } else if x == "bandit_thug"@ {
        10
    } else if x == "slime"@ {
        11
    } else if x == "zombie"@ {
        12
    } else if x == "plague_rat"@ {
        13
    } else if x == "cave_spider"@ {
        14
    } else if x == "giant_centipede"@ {
        15
    } else if x == "bandit_archer"@ {
        16
    } else if x == "imp"@ {
        17
    } else if x == "shadow_wisp"@ {
        18
    } else if x == "bone_sentinel"@ {
        19
    } else if x == "harpy"@ {
        20
    } else if x == "specter"@ {
        21
    } else if x == "rust_crawler"@ {
        22
    } else if x == "blightcap"@ {
        23
    } else if x == "wolf"@ {
        24
    } else if x == "boar"@ {
        25
    } else if x == "cult_acolyte"@ {
        26
    } else if x == "wight"@ {
        27
    } else if x == "sellsword"@ {
        28
    } else if x == "young_drake"@ {
        29
    } else if x == "animated_armor"@ {
        30
    } else if x == "ogre_thug"@ {
        31
    } else if x == "stone_golem"@ {
        32
    } else if x == "cave_stalker"@ {
        33
    } else if x == "husk_whisperer"@ {
        34
    } else if x == "troll"@ {
        35
    } else if x == "bone_commander"@ {
        36
    } else if x == "cult_channeler"@ {
        37
    } else if x == "cult_invoker"@ {
        38
    } else if x == "dark_priest"@ {
        39
    } else if x == "corpse_knight"@ {
        40
    } else if x == "sellsword_captain"@ {
        41
    } else if x == "flamewrath"@ {
        42
    } else if x == "wyvern"@ {
        43
    } else if x == "necromancer"@ {
        44
    } else if x == "high_cultist"@ {
        45
    } else if x == "iron_golem"@ {
        46
    } else if x == "ogre_warchief"@ {
        47
    } else if x == "pale_warden"@ {
        48
    } else if x == "dragon_wyrm"@ {
        49
    } else {
        50
    }
}

/// No two definitions of `all_enemy_defs` share an id.
#[verifier::rlimit(100)]
pub proof fn law_enemy_ids_distinct()
    ensures
        forall|i: int, j: int| 0 <= i < j < spec_all_enemy_ids().len() ==> spec_all_enemy_ids()[i] != spec_all_enemy_ids()[j],
{
    reveal_strlit("goblin_grunt");
    reveal_strlit("goblin_archer");
    reveal_strlit("goblin_shaman");
    reveal_strlit("giant_rat");
    reveal_strlit("scavenger");
    reveal_strlit("fire_beetle");
    reveal_strlit("animated_shield");
    reveal_strlit("sporecap");
    reveal_strlit("skeleton");
    reveal_strlit("blood_moth");
    reveal_strlit("bandit_thug");
    reveal_strlit("slime");
    reveal_strlit("zombie");
    reveal_strlit("plague_rat");
    reveal_strlit("cave_spider");
    reveal_strlit("giant_centipede");
    reveal_strlit("bandit_archer");
    reveal_strlit("imp");
    reveal_strlit("shadow_wisp");
    reveal_strlit("bone_sentinel");
    reveal_strlit("harpy");
    reveal_strlit("specter");
    reveal_strlit("rust_crawler");
    reveal_strlit("blightcap");
    reveal_strlit("wolf");
    reveal_strlit("boar");
    reveal_strlit("cult_acolyte");
    reveal_strlit("wight");
    reveal_strlit("sellsword");
    reveal_strlit("young_drake");
    reveal_strlit("animated_armor");
    reveal_strlit("ogre_thug");
    reveal_strlit("stone_golem");
    reveal_strlit("cave_stalker");
    reveal_strlit("husk_whisperer");
    reveal_strlit("troll");
    reveal_strlit("bone_commander");
    reveal_strlit("cult_channeler");
    reveal_strlit("cult_invoker");
    reveal_strlit("dark_priest");
    reveal_strlit("corpse_knight");
    reveal_strlit("sellsword_captain");
    reveal_strlit("flamewrath");
    reveal_strlit("wyvern");
    reveal_strlit("necromancer");
    reveal_strlit("high_cultist");
    reveal_strlit("iron_golem");
    reveal_strlit("ogre_warchief");
    reveal_strlit("pale_warden");
    reveal_strlit("dragon_wyrm");
    assert("goblin_grunt"@.len() == 12 && "goblin_grunt"@[0] == 'g' && "goblin_grunt"@[11] == 't');
    assert("goblin_archer"@.len() == 13 && "goblin_archer"@[0] == 'g' && "goblin_archer"@[12] == 'r');
    assert("goblin_shaman"@.len() == 13 && "goblin_shaman"@[0] == 'g' && "goblin_shaman"@[12] == 'n');
    assert("giant_rat"@.len() == 9 && "giant_rat"@[0] == 'g' && "giant_rat"@[8] == 't');
    assert("scavenger"@.len() == 9 && "scavenger"@[0] == 's' && "scavenger"@[8] == 'r');
    assert("fire_beetle"@.len() == 11 && "fire_beetle"@[0] == 'f' && "fire_beetle"@[10] == 'e');
    assert("animated_shield"@.len() == 15 && "animated_shield"@[0] == 'a' && "animated_shield"@[14] == 'd');
    assert("sporecap"@.len() == 8 && "sporecap"@[0] == 's' && "sporecap"@[7] == 'p');
    assert("skeleton"@.len() == 8 && "skeleton"@[0] == 's' && "skeleton"@[7] == 'n');
    assert("blood_moth"@.len() == 10 && "blood_moth"@[0] == 'b' && "blood_moth"@[9] == 'h');
    assert("bandit_thug"@.len() == 11 && "bandit_thug"@[0] == 'b' && "bandit_thug"@[10] == 'g');
    assert("slime"@.len() == 5 && "slime"@[0] == 's' && "slime"@[4] == 'e');
    assert("zombie"@.len() == 6 && "zombie"@[0] == 'z' && "zombie"@[5] == 'e');
    assert("plague_rat"@.len() == 10 && "plague_rat"@[0] == 'p' && "plague_rat"@[9] == 't');
    assert("cave_spider"@.len() == 11 && "cave_spider"@[0] == 'c' && "cave_spider"@[10] == 'r');
    assert("giant_centipede"@.len() == 15 && "giant_centipede"@[0] == 'g' && "giant_centipede"@[14] == 'e');
    assert("bandit_archer"@.len() == 13 && "bandit_archer"@[0] == 'b' && "bandit_archer"@[12] == 'r');
    assert("imp"@.len() == 3 && "imp"@[0] == 'i' && "imp"@[2] == 'p');
    assert("shadow_wisp"@.len() == 11 && "shadow_wisp"@[0] == 's' && "shadow_wisp"@[10] == 'p');
    assert("bone_sentinel"@.len() == 13 && "bone_sentinel"@[0] == 'b' && "bone_sentinel"@[12] == 'l');
    assert("harpy"@.len() == 5 && "harpy"@[0] == 'h' && "harpy"@[4] == 'y');
    assert("specter"@.len() == 7 && "specter"@[0] == 's' && "specter"@[6] == 'r');
    assert("rust_crawler"@.len() == 12 && "rust_crawler"@[0] == 'r' && "rust_crawler"@[11] == 'r');
    assert("blightcap"@.len() == 9 && "blightcap"@[0] == 'b' && "blightcap"@[8] == 'p');
    assert("wolf"@.len() == 4 && "wolf"@[0] == 'w' && "wolf"@[3] == 'f');
    assert("boar"@.len() == 4 && "boar"@[0] == 'b' && "boar"@[3] == 'r');
    assert("cult_acolyte"@.len() == 12 && "cult_acolyte"@[0] == 'c' && "cult_acolyte"@[11] == 'e');
    assert("wight"@.len() == 5 && "wight"@[0] == 'w' && "wight"@[4] == 't');
    assert("sellsword"@.len() == 9 && "sellsword"@[0] == 's' && "sellsword"@[8] == 'd');
    assert("young_drake"@.len() == 11 && "young_drake"@[0] == 'y' && "young_drake"@[10] == 'e');
    assert("animated_armor"@.len() == 14 && "animated_armor"@[0] == 'a' && "animated_armor"@[13] == 'r');
    assert("ogre_thug"@.len() == 9 && "ogre_thug"@[0] == 'o' && "ogre_thug"@[8] == 'g');
    assert("stone_golem"@.len() == 11 && "stone_golem"@[0] == 's' && "stone_golem"@[10] == 'm');
    assert("cave_stalker"@.len() == 12 && "cave_stalker"@[0] == 'c' && "cave_stalker"@[1] == 'a' && "cave_stalker"@[11] == 'r');
    assert("husk_whisperer"@.len() == 14 && "husk_whisperer"@[0] == 'h' && "husk_whisperer"@[13] == 'r');
    assert("troll"@.len() == 5 && "troll"@[0] == 't' && "troll"@[4] == 'l');
    assert("bone_commander"@.len() == 14 && "bone_commander"@[0] == 'b' && "bone_commander"@[13] == 'r');
    assert("cult_channeler"@.len() == 14 && "cult_channeler"@[0] == 'c' && "cult_channeler"@[13] == 'r');
    assert("cult_invoker"@.len() == 12 && "cult_invoker"@[0] == 'c' && "cult_invoker"@[1] == 'u' && "cult_invoker"@[11] == 'r');
    assert("dark_priest"@.len() == 11 && "dark_priest"@[0] == 'd' && "dark_priest"@[10] == 't');
    assert("corpse_knight"@.len() == 13 && "corpse_knight"@[0] == 'c' && "corpse_knight"@[12] == 't');
    assert("sellsword_captain"@.len() == 17 && "sellsword_captain"@[0] == 's' && "sellsword_captain"@[16] == 'n');
    assert("flamewrath"@.len() == 10 && "flamewrath"@[0] == 'f' && "flamewrath"@[9] == 'h');
    assert("wyvern"@.len() == 6 && "wyvern"@[0] == 'w' && "wyvern"@[5] == 'n');
    assert("necromancer"@.len() == 11 && "necromancer"@[0] == 'n' && "necromancer"@[10] == 'r');
    assert("high_cultist"@.len() == 12 && "high_cultist"@[0] == 'h' && "high_cultist"@[11] == 't');
    assert("iron_golem"@.len() == 10 && "iron_golem"@[0] == 'i' && "iron_golem"@[9] == 'm');
    assert("ogre_warchief"@.len() == 13 && "ogre_warchief"@[0] == 'o' && "ogre_warchief"@[12] == 'f');
    assert("pale_warden"@.len() == 11 && "pale_warden"@[0] == 'p' && "pale_warden"@[10] == 'n');
    assert("dragon_wyrm"@.len() == 11 && "dragon_wyrm"@[0] == 'd' && "dragon_wyrm"@[10] == 'm');
    assert forall|i: int| 0 <= i < spec_all_enemy_ids().len() implies enemy_id_position(#[trigger] spec_all_enemy_ids()[i]) == i by {
        
if i == 0 {} else if i == 1 {} else if i == 2 {} else if i == 3 {} else if i == 4 {} else if i == 5 {} else if i == 6 {} else if i == 7 {} else if i == 8 {} else if i == 9 {} else if i == 10 {} else if i == 11 {} else if i == 12 {} else if i == 13 {} else if i == 14 {} else if i == 15 {} else if i == 16 {} else if i == 17 {} else if i == 18 {} else if i == 19 {} else if i == 20 {} else if i == 21 {} else if i == 22 {} else if i == 23 {} else if i == 24 {} else if i == 25 {} else if i == 26 {} else if i == 27 {} else if i == 28 {} else if i == 29 {} else if i == 30 {} else if i == 31 {} else if i == 32 {} else if i == 33 {} else if i == 34 {} else if i == 35 {} else if i == 36 {} else if i == 37 {} else if i == 38 {} else if i == 39 {} else if i == 40 {} else if i == 41 {} else if i == 42 {} else if i == 43 {} else if i == 44 {} else if i == 45 {} else if i == 46 {} else if i == 47 {} else if i == 48 {} else if i == 49 {}

    }
    assert forall|i: int, j: int| 0 <= i < j < spec_all_enemy_ids().len() implies spec_all_enemy_ids()[i] != spec_all_enemy_ids()[j] by {
        assert(enemy_id_position(spec_all_enemy_ids()[i]) == i);
        assert(enemy_id_position(spec_all_enemy_ids()[j]) == j);
    }
}

/// The boss of an act: the ogre warchief in act 1, the pale warden in act
/// 2 and the dragon wyrm from act 3 on.
pub fn boss_for_act(act: u32) -> (r: EnemyId)
    ensures
        r@ == (if act == 1 {
            "ogre_warchief"@
        } else if act == 2 {
            "pale_warden"@
        } else {
            "dragon_wyrm"@
        }),
{
    if act == 1 {
        "ogre_warchief".to_string()
    } else if act == 2 {
        "pale_warden".to_string()
    } else {
        "dragon_wyrm".to_string()
    }
}

/// Each tier's test names exactly the ids of its list.
pub proof fn lemma_tier_tests_match_lists()
    ensures
        forall|x: Seq<char>| #[trigger] is_minion_id(x) <==> spec_minion_ids().contains(x),
        forall|x: Seq<char>| #[trigger] is_standard_id(x) <==> spec_standard_ids().contains(x),
        forall|x: Seq<char>| #[trigger] is_tough_id(x) <==> spec_tough_ids().contains(x),
{
    lemma_tier_lists();
    assert forall|x: Seq<char>| is_minion_id(x) implies spec_minion_ids().contains(x) by {
        if x == "goblin_grunt"@ {
            assert(spec_minion_ids()[0] == x);
        }
        if x == "goblin_archer"@ {
            assert(spec_minion_ids()[1] == x);
        }
        if x == "goblin_shaman"@ {
            assert(spec_minion_ids()[2] == x);
        }
        if x == "giant_rat"@ {
            assert(spec_minion_ids()[3] == x);
        }
        if x == "scavenger"@ {
            assert(spec_minion_ids()[4] == x);
        }
        if x == "fire_beetle"@ {
            assert(spec_minion_ids()[5] == x);
        }
        if x == "animated_shield"@ {
            assert(spec_minion_ids()[6] == x);
        }
        if x == "sporecap"@ {
            assert(spec_minion_ids()[7] == x);
        }
        if x == "skeleton"@ {
            assert(spec_minion_ids()[8] == x);
        }
        if x == "blood_moth"@ {
            assert(spec_minion_ids()[9] == x);
        }
        if x == "bandit_thug"@ {
            assert(spec_minion_ids()[10] == x);
        }
    }
    assert forall|x: Seq<char>| is_standard_id(x) implies spec_standard_ids().contains(x) by {
        if x == "slime"@ {
            assert(spec_standard_ids()[0] == x);
        }
        if x == "zombie"@ {
            assert(spec_standard_ids()[1] == x);
        }
        if x == "plague_rat"@ {
            assert(spec_standard_ids()[2] == x);
        }
        if x == "cave_spider"@ {
            assert(spec_standard_ids()[3] == x);
        }
        if x == "giant_centipede"@ {
            assert(spec_standard_ids()[4] == x);
        }
        if x == "bandit_archer"@ {
            assert(spec_standard_ids()[5] == x);
        }
        if x == "imp"@ {
            assert(spec_standard_ids()[6] == x);
        }
        if x == "shadow_wisp"@ {
            assert(spec_standard_ids()[7] == x);
        }
        if x == "bone_sentinel"@ {
            assert(spec_standard_ids()[8] == x);
        }
        if x == "harpy"@ {
            assert(spec_standard_ids()[9] == x);
        }
        if x == "specter"@ {
            assert(spec_standard_ids()[10] == x);
        }
        if x == "rust_crawler"@ {
            assert(spec_standard_ids()[11] == x);
        }
        if x == "blightcap"@ {
            assert(spec_standard_ids()[12] == x);
        }
        if x == "wolf"@ {
            assert(spec_standard_ids()[13] == x);
        }
        if x == "boar"@ {
            assert(spec_standard_ids()[14] == x);
        }
        if x == "cult_acolyte"@ {
            assert(spec_standard_ids()[15] == x);
        }
        if x == "wight"@ {
            assert(spec_standard_ids()[16] == x);
        }
        if x == "sellsword"@ {
            assert(spec_standard_ids()[17] == x);
        }
        if x == "young_drake"@ {
            assert(spec_standard_ids()[18] == x);
        }
        if x == "animated_armor"@ {
            assert(spec_standard_ids()[19] == x);
        }
    }
    assert forall|x: Seq<char>| is_tough_id(x) implies spec_tough_ids().contains(x) by {
        if x == "ogre_thug"@ {
            assert(spec_tough_ids()[0] == x);
        }
        if x == "stone_golem"@ {
            assert(spec_tough_ids()[1] == x);
        }
        if x == "cave_stalker"@ {
            assert(spec_tough_ids()[2] == x);
        }
        if x == "husk_whisperer"@ {
            assert(spec_tough_ids()[3] == x);
        }
        if x == "troll"@ {
            assert(spec_tough_ids()[4] == x);
        }
        if x == "bone_commander"@ {
            assert(spec_tough_ids()[5] == x);
        }
        if x == "cult_channeler"@ {
            assert(spec_tough_ids()[6] == x);
        }
        if x == "cult_invoker"@ {
            assert(spec_tough_ids()[7] == x);
        }
        if x == "dark_priest"@ {
            assert(spec_tough_ids()[8] == x);
        }
        if x == "corpse_knight"@ {
            assert(spec_tough_ids()[9] == x);
        }
        if x == "sellsword_captain"@ {
            assert(spec_tough_ids()[10] == x);
        }
    }
}

} // verus!
