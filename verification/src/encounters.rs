//! Encounter generation for the gauntlet: curated encounter tables by
//! player level, and procedural encounters filled from a budget.

use vstd::prelude::*;

use crate::enemies::{
    boss_for_act, spec_all_enemy_ids, is_minion_id, is_standard_id, is_tough_id, lemma_tier_lists, lemma_tiers_disjoint, lemma_tier_tests_match_lists,
    minion_ids, spec_minion_ids, spec_standard_ids, spec_tough_ids, standard_ids, tough_ids,
};
use crate::enemy::EnemyId;
use crate::rng::GameRng;

verus! {

/// The most enemies an encounter holds.
pub const MAX_ENEMIES: usize = 4;

#[derive(Debug, Clone, Copy, PartialEq, Eq, Structural)]
pub enum EncounterTheme {
    Goblins,
    Undead,
    Vermin,
    Slimes,
    Beasts,
    Bandits,
    Constructs,
    Cult,
    Fiends,
    Fungal,
    Mixed,
}

#[derive(Debug, Clone, Copy, PartialEq, Eq, Structural)]
pub enum EncounterBackground {
    RoadAmbush,
    GoblinCamp,
    InfestedDen,
    SlimeCave,
    CaveNest,
    RuinedOutpost,
    Graveyard,
    Crypt,
    AncientVault,
    ForestClearing,
    BanditCamp,
    CultSanctum,
    TrollDen,
    DrakeLair,
    FiendGate,
    UndeadCrypt,
    MercenaryFort,
    DragonApproach,
}

impl EncounterTheme {
    /// The theme's name in snake case.
    pub open spec fn spec_str(self) -> Seq<char> {
        match self {
            EncounterTheme::Goblins => "goblins"@,
            EncounterTheme::Undead => "undead"@,
            EncounterTheme::Vermin => "vermin"@,
            EncounterTheme::Slimes => "slimes"@,
            EncounterTheme::Beasts => "beasts"@,
            EncounterTheme::Bandits => "bandits"@,
            EncounterTheme::Constructs => "constructs"@,
            EncounterTheme::Cult => "cult"@,
            EncounterTheme::Fiends => "fiends"@,
            EncounterTheme::Fungal => "fungal"@,
            EncounterTheme::Mixed => "mixed"@,
        }
    }

    pub fn as_str(self) -> (r: &'static str)
        ensures
            r@ == self.spec_str(),
    {
        match self {
            EncounterTheme::Goblins => "goblins",
            EncounterTheme::Undead => "undead",
            EncounterTheme::Vermin => "vermin",
            EncounterTheme::Slimes => "slimes",
            EncounterTheme::Beasts => "beasts",
            EncounterTheme::Bandits => "bandits",
            EncounterTheme::Constructs => "constructs",
            EncounterTheme::Cult => "cult",
            EncounterTheme::Fiends => "fiends",
            EncounterTheme::Fungal => "fungal",
            EncounterTheme::Mixed => "mixed",
        }
    }
}

impl EncounterBackground {
    /// The background's name in snake case.
    pub open spec fn spec_str(self) -> Seq<char> {
        match self {
            EncounterBackground::RoadAmbush => "road_ambush"@,
            EncounterBackground::GoblinCamp => "goblin_camp"@,
            EncounterBackground::InfestedDen => "infested_den"@,
            EncounterBackground::SlimeCave => "slime_cave"@,
            EncounterBackground::CaveNest => "cave_nest"@,
            EncounterBackground::RuinedOutpost => "ruined_outpost"@,
            EncounterBackground::Graveyard => "graveyard"@,
            EncounterBackground::Crypt => "crypt"@,
            EncounterBackground::AncientVault => "ancient_vault"@,
            EncounterBackground::ForestClearing => "forest_clearing"@,
            EncounterBackground::BanditCamp => "bandit_camp"@,
            EncounterBackground::CultSanctum => "cult_sanctum"@,
            EncounterBackground::TrollDen => "troll_den"@,
            EncounterBackground::DrakeLair => "drake_lair"@,
            EncounterBackground::FiendGate => "fiend_gate"@,
            EncounterBackground::UndeadCrypt => "undead_crypt"@,
            EncounterBackground::MercenaryFort => "mercenary_fort"@,
            EncounterBackground::DragonApproach => "dragon_approach"@,
        }
    }

    pub fn as_str(self) -> (r: &'static str)
        ensures
            r@ == self.spec_str(),
    {
        match self {
            EncounterBackground::RoadAmbush => "road_ambush",
            EncounterBackground::GoblinCamp => "goblin_camp",
            EncounterBackground::InfestedDen => "infested_den",
            EncounterBackground::SlimeCave => "slime_cave",
            EncounterBackground::CaveNest => "cave_nest",
            EncounterBackground::RuinedOutpost => "ruined_outpost",
            EncounterBackground::Graveyard => "graveyard",
            EncounterBackground::Crypt => "crypt",
            EncounterBackground::AncientVault => "ancient_vault",
            EncounterBackground::ForestClearing => "forest_clearing",
            EncounterBackground::BanditCamp => "bandit_camp",
            EncounterBackground::CultSanctum => "cult_sanctum",
            EncounterBackground::TrollDen => "troll_den",
            EncounterBackground::DrakeLair => "drake_lair",
            EncounterBackground::FiendGate => "fiend_gate",
            EncounterBackground::UndeadCrypt => "undead_crypt",
            EncounterBackground::MercenaryFort => "mercenary_fort",
            EncounterBackground::DragonApproach => "dragon_approach",
        }
    }
}

/// A template as plain values: key, player level, theme, background and
/// enemy ids.
pub type TemplateView = (Seq<char>, u32, EncounterTheme, EncounterBackground, Seq<Seq<char>>);

/// A curated encounter: the enemies to spawn, with the level, theme and
/// background it was written for.
#[derive(Debug)]
pub struct EncounterTemplate {
    pub key: String,
    pub player_level: u32,
    pub theme: EncounterTheme,
    pub background: EncounterBackground,
    pub enemy_ids: Vec<EnemyId>,
}

/// The views of a list of ids.
pub open spec fn ids_view(ids: Seq<EnemyId>) -> Seq<Seq<char>> {
    ids.map_values(|s: EnemyId| s@)
}

/// The views of a list of templates.
pub open spec fn templates_view(ts: Seq<EncounterTemplate>) -> Seq<TemplateView> {
    ts.map_values(|t: EncounterTemplate| t@)
}

impl View for EncounterTemplate {
    type V = TemplateView;

    open spec fn view(&self) -> TemplateView {
        (self.key@, self.player_level, self.theme, self.background, ids_view(self.enemy_ids@))
    }
}

/// A template fit for a table of the given level: of that level, with one
/// to `MAX_ENEMIES` enemies, each of them defined.
pub open spec fn template_valid(t: TemplateView, level: u32) -> bool {
    &&& t.1 == level
    &&& 1 <= t.4.len() <= MAX_ENEMIES
    &&& forall|i: int| 0 <= i < t.4.len() ==> spec_all_enemy_ids().contains(#[trigger] t.4[i])
}

fn template(
    key: &str,
    player_level: u32,
    theme: EncounterTheme,
    background: EncounterBackground,
    enemy_ids: Vec<EnemyId>,
) -> (r: EncounterTemplate)
    ensures
        r@ == (key@, player_level, theme, background, ids_view(enemy_ids@)),
{
    EncounterTemplate { key: key.to_string(), player_level, theme, background, enemy_ids }
}

// ── Hash inputs ─────────────────────────────────────────────────────────

/// The character of a decimal digit.
pub open spec fn digit_char(d: nat) -> char {
    if d == 0 { '0' } else if d == 1 { '1' } else if d == 2 { '2' } else if d == 3 { '3' }
    else if d == 4 { '4' } else if d == 5 { '5' } else if d == 6 { '6' } else if d == 7 { '7' }
    else if d == 8 { '8' } else { '9' }
}

/// The decimal notation of a number, without leading zeros.
pub open spec fn decimal(n: nat) -> Seq<char>
    decreases n,
{
    if n < 10 {
        seq![digit_char(n)]
    } else {
        decimal(n / 10) + seq![digit_char(n % 10)]
    }
}

/// The ids joined with commas.
pub open spec fn join_ids(ids: Seq<Seq<char>>) -> Seq<char>
    decreases ids.len(),
{
    if ids.len() == 0 {
        Seq::empty()
    } else if ids.len() == 1 {
        ids[0]
    } else {
        join_ids(ids.drop_last()) + ","@ + ids.last()
    }
}

/// `key|lvl<level>|theme|background|id,id,...`.
pub open spec fn spec_hash_input(t: TemplateView) -> Seq<char> {
    t.0 + "|lvl"@ + decimal(t.1 as nat) + "|"@ + t.2.spec_str() + "|"@ + t.3.spec_str() + "|"@ + join_ids(t.4)
}

fn digit_str(d: u32) -> (r: &'static str)
    requires
        d < 10,
    ensures
        r@ == seq![digit_char(d as nat)],
{
    proof {
        reveal_strlit("0");
        reveal_strlit("1");
        reveal_strlit("2");
        reveal_strlit("3");
        reveal_strlit("4");
        reveal_strlit("5");
        reveal_strlit("6");
        reveal_strlit("7");
        reveal_strlit("8");
        reveal_strlit("9");
    }
    let r = if d == 0 { "0" } else if d == 1 { "1" } else if d == 2 { "2" } else if d == 3 { "3" }
    else if d == 4 { "4" } else if d == 5 { "5" } else if d == 6 { "6" } else if d == 7 { "7" }
    else if d == 8 { "8" } else { "9" };
    proof {
        assert(r@ =~= seq![digit_char(d as nat)]);
    }
    r
}

fn append_decimal(s: &mut String, n: u32)
    ensures
        final(s)@ == old(s)@ + decimal(n as nat),
    decreases n,
{
    if n >= 10 {
        append_decimal(s, n / 10);
    }
    s.append(digit_str(n % 10));
    proof {
        if n >= 10 {
            assert(old(s)@ + decimal((n / 10) as nat) + seq![digit_char((n % 10) as nat)] =~= old(s)@ + decimal(n as nat));
        } else {
            assert(old(s)@ + seq![digit_char((n % 10) as nat)] =~= old(s)@ + decimal(n as nat));
        }
    }
}

impl EncounterTemplate {
    /// The enemy ids to spawn.
    pub fn to_enemy_ids(&self) -> (r: Vec<EnemyId>)
        ensures
            ids_view(r@) == self@.4,
    {
        let mut r: Vec<EnemyId> = Vec::new();
        let mut i: usize = 0;
        while i < self.enemy_ids.len()
            invariant
                i <= self.enemy_ids@.len(),
                ids_view(r@) == ids_view(self.enemy_ids@).take(i as int),
            decreases self.enemy_ids@.len() - i,
        {
            let ghost pre = r@;
            r.push(self.enemy_ids[i].clone());
            i = i + 1;
            proof {
                assert(r@ =~= pre.push(self.enemy_ids@[i - 1]));
                assert(ids_view(r@) =~= ids_view(pre).push(self.enemy_ids@[i - 1]@));
                assert(ids_view(r@) =~= ids_view(self.enemy_ids@).take(i as int));
            }
        }
        proof {
            assert(ids_view(self.enemy_ids@).take(i as int) =~= ids_view(self.enemy_ids@));
        }
        r
    }

    /// `key|lvl<level>|theme|background|id,id,...`, the text hashed to
    /// fingerprint the encounter tables.
    pub fn hash_input(&self) -> (r: String)
        ensures
            r@ == spec_hash_input(self@),
    {
        let mut s = self.key.clone();
        s.append("|lvl");
        append_decimal(&mut s, self.player_level);
        s.append("|");
        s.append(self.theme.as_str());
        s.append("|");
        s.append(self.background.as_str());
        s.append("|");
        let ghost head = s@;
        let ghost ids = ids_view(self.enemy_ids@);
        let mut i: usize = 0;
        while i < self.enemy_ids.len()
            invariant
                i <= self.enemy_ids@.len(),
                ids == ids_view(self.enemy_ids@),
                s@ == head + join_ids(ids.take(i as int)),
            decreases self.enemy_ids@.len() - i,
        {
            if i > 0 {
                s.append(",");
            }
            s.append(self.enemy_ids[i].as_str());
            proof {
                assert(ids.take(i + 1).drop_last() =~= ids.take(i as int));
                if i == 0 {
                    assert(join_ids(ids.take(1)) == ids.take(1)[0]);
                }
            }
            i = i + 1;
        }
        proof {
            assert(ids.take(i as int) =~= ids);
            assert(s@ =~= spec_hash_input(self@));
        }
        s
    }
}

/// The curated level-1 encounters.
pub open spec fn spec_level_1_encounters() -> Seq<TemplateView> {
    seq![
        ("goblin_patrol_a"@, 1u32, EncounterTheme::Goblins, EncounterBackground::RoadAmbush, seq!["goblin_grunt"@]),
        ("goblin_patrol_b"@, 1u32, EncounterTheme::Goblins, EncounterBackground::GoblinCamp, seq!["goblin_grunt"@, "goblin_archer"@]),
        ("vermin_nest"@, 1u32, EncounterTheme::Vermin, EncounterBackground::CaveNest, seq!["giant_rat"@, "giant_rat"@, "giant_rat"@]),
        ("cave_fauna"@, 1u32, EncounterTheme::Slimes, EncounterBackground::SlimeCave, seq!["scavenger"@]),
        ("bandit_scouts_a"@, 1u32, EncounterTheme::Bandits, EncounterBackground::RoadAmbush, seq!["scavenger"@, "giant_rat"@]),
        ("bandit_scouts_b"@, 1u32, EncounterTheme::Bandits, EncounterBackground::BanditCamp, seq!["bandit_thug"@]),
        ("restless_dead"@, 1u32, EncounterTheme::Undead, EncounterBackground::Graveyard, seq!["skeleton"@, "skeleton"@]),
        ("fungal_growth"@, 1u32, EncounterTheme::Vermin, EncounterBackground::InfestedDen, seq!["sporecap"@, "giant_rat"@]),
        ("blood_pests"@, 1u32, EncounterTheme::Beasts, EncounterBackground::CaveNest, seq!["blood_moth"@, "blood_moth"@]),
        ("animated_junk"@, 1u32, EncounterTheme::Constructs, EncounterBackground::RuinedOutpost, seq!["animated_shield"@]),
    ]
}

/// The curated level-1 encounter table.
pub fn level_1_encounters() -> (r: Vec<EncounterTemplate>)
    ensures
        templates_view(r@) == spec_level_1_encounters(),
{
    let r: Vec<EncounterTemplate> = vec![
        template("goblin_patrol_a", 1, EncounterTheme::Goblins, EncounterBackground::RoadAmbush, vec!["goblin_grunt".to_string()]),
        template("goblin_patrol_b", 1, EncounterTheme::Goblins, EncounterBackground::GoblinCamp, vec!["goblin_grunt".to_string(), "goblin_archer".to_string()]),
        template("vermin_nest", 1, EncounterTheme::Vermin, EncounterBackground::CaveNest, vec!["giant_rat".to_string(), "giant_rat".to_string(), "giant_rat".to_string()]),
        template("cave_fauna", 1, EncounterTheme::Slimes, EncounterBackground::SlimeCave, vec!["scavenger".to_string()]),
        template("bandit_scouts_a", 1, EncounterTheme::Bandits, EncounterBackground::RoadAmbush, vec!["scavenger".to_string(), "giant_rat".to_string()]),
        template("bandit_scouts_b", 1, EncounterTheme::Bandits, EncounterBackground::BanditCamp, vec!["bandit_thug".to_string()]),
        template("restless_dead", 1, EncounterTheme::Undead, EncounterBackground::Graveyard, vec!["skeleton".to_string(), "skeleton".to_string()]),
        template("fungal_growth", 1, EncounterTheme::Vermin, EncounterBackground::InfestedDen, vec!["sporecap".to_string(), "giant_rat".to_string()]),
        template("blood_pests", 1, EncounterTheme::Beasts, EncounterBackground::CaveNest, vec!["blood_moth".to_string(), "blood_moth".to_string()]),
        template("animated_junk", 1, EncounterTheme::Constructs, EncounterBackground::RuinedOutpost, vec!["animated_shield".to_string()]),
    ];
    proof {
        assert(templates_view(r@) =~~= spec_level_1_encounters());
    }
    r
}

/// Every level-1 template is valid for level 1.
proof fn lemma_level_1_valid()
    ensures
        forall|k: int| 0 <= k < spec_level_1_encounters().len() ==> template_valid(#[trigger] spec_level_1_encounters()[k], 1),
{
    assert forall|k: int| 0 <= k < spec_level_1_encounters().len() implies template_valid(#[trigger] spec_level_1_encounters()[k], 1) by {
        if k == 0 { assert(spec_all_enemy_ids()[0] == "goblin_grunt"@); } else if k == 1 { assert(spec_all_enemy_ids()[0] == "goblin_grunt"@); assert(spec_all_enemy_ids()[1] == "goblin_archer"@); } else if k == 2 { assert(spec_all_enemy_ids()[3] == "giant_rat"@); } else if k == 3 { assert(spec_all_enemy_ids()[4] == "scavenger"@); } else if k == 4 { assert(spec_all_enemy_ids()[4] == "scavenger"@); assert(spec_all_enemy_ids()[3] == "giant_rat"@); } else if k == 5 { assert(spec_all_enemy_ids()[10] == "bandit_thug"@); } else if k == 6 { assert(spec_all_enemy_ids()[8] == "skeleton"@); } else if k == 7 { assert(spec_all_enemy_ids()[7] == "sporecap"@); assert(spec_all_enemy_ids()[3] == "giant_rat"@); } else if k == 8 { assert(spec_all_enemy_ids()[9] == "blood_moth"@); } else if k == 9 { assert(spec_all_enemy_ids()[6] == "animated_shield"@); }
    }
}

/// The curated level-2 encounters.
pub open spec fn spec_level_2_encounters() -> Seq<TemplateView> {
    seq![
        ("goblin_war_party"@, 2u32, EncounterTheme::Goblins, EncounterBackground::GoblinCamp, seq!["goblin_shaman"@, "goblin_grunt"@]),
        ("goblin_ranged_line"@, 2u32, EncounterTheme::Goblins, EncounterBackground::RoadAmbush, seq!["goblin_archer"@, "goblin_grunt"@]),
        ("undead_patrol"@, 2u32, EncounterTheme::Undead, EncounterBackground::Graveyard, seq!["skeleton"@, "skeleton"@]),
        ("zombie_wall"@, 2u32, EncounterTheme::Undead, EncounterBackground::Crypt, seq!["zombie"@, "zombie"@]),
        ("bandit_camp"@, 2u32, EncounterTheme::Bandits, EncounterBackground::BanditCamp, seq!["bandit_thug"@, "scavenger"@]),
        ("bandit_ranged"@, 2u32, EncounterTheme::Bandits, EncounterBackground::RoadAmbush, seq!["bandit_archer"@, "bandit_thug"@]),
        ("vermin_swarm"@, 2u32, EncounterTheme::Vermin, EncounterBackground::CaveNest, seq!["giant_rat"@, "giant_rat"@, "giant_rat"@, "sporecap"@]),
        ("plague_rats"@, 2u32, EncounterTheme::Vermin, EncounterBackground::InfestedDen, seq!["plague_rat"@, "plague_rat"@]),
        ("insect_burrow"@, 2u32, EncounterTheme::Vermin, EncounterBackground::CaveNest, seq!["cave_spider"@, "fire_beetle"@, "fire_beetle"@]),
        ("tunnel_scavengers"@, 2u32, EncounterTheme::Mixed, EncounterBackground::CaveNest, seq!["scavenger"@, "skeleton"@, "giant_rat"@]),
    ]
}

/// The curated level-2 encounter table.
pub fn level_2_encounters() -> (r: Vec<EncounterTemplate>)
    ensures
        templates_view(r@) == spec_level_2_encounters(),
{
    let r: Vec<EncounterTemplate> = vec![
        template("goblin_war_party", 2, EncounterTheme::Goblins, EncounterBackground::GoblinCamp, vec!["goblin_shaman".to_string(), "goblin_grunt".to_string()]),
        template("goblin_ranged_line", 2, EncounterTheme::Goblins, EncounterBackground::RoadAmbush, vec!["goblin_archer".to_string(), "goblin_grunt".to_string()]),
        template("undead_patrol", 2, EncounterTheme::Undead, EncounterBackground::Graveyard, vec!["skeleton".to_string(), "skeleton".to_string()]),
        template("zombie_wall", 2, EncounterTheme::Undead, EncounterBackground::Crypt, vec!["zombie".to_string(), "zombie".to_string()]),
        template("bandit_camp", 2, EncounterTheme::Bandits, EncounterBackground::BanditCamp, vec!["bandit_thug".to_string(), "scavenger".to_string()]),
        template("bandit_ranged", 2, EncounterTheme::Bandits, EncounterBackground::RoadAmbush, vec!["bandit_archer".to_string(), "bandit_thug".to_string()]),
        template("vermin_swarm", 2, EncounterTheme::Vermin, EncounterBackground::CaveNest, vec!["giant_rat".to_string(), "giant_rat".to_string(), "giant_rat".to_string(), "sporecap".to_string()]),
        template("plague_rats", 2, EncounterTheme::Vermin, EncounterBackground::InfestedDen, vec!["plague_rat".to_string(), "plague_rat".to_string()]),
        template("insect_burrow", 2, EncounterTheme::Vermin, EncounterBackground::CaveNest, vec!["cave_spider".to_string(), "fire_beetle".to_string(), "fire_beetle".to_string()]),
        template("tunnel_scavengers", 2, EncounterTheme::Mixed, EncounterBackground::CaveNest, vec!["scavenger".to_string(), "skeleton".to_string(), "giant_rat".to_string()]),
    ];
    proof {
        assert(templates_view(r@) =~~= spec_level_2_encounters());
    }
    r
}

/// Every level-2 template is valid for level 2.
proof fn lemma_level_2_valid()
    ensures
        forall|k: int| 0 <= k < spec_level_2_encounters().len() ==> template_valid(#[trigger] spec_level_2_encounters()[k], 2),
{
    assert forall|k: int| 0 <= k < spec_level_2_encounters().len() implies template_valid(#[trigger] spec_level_2_encounters()[k], 2) by {
        if k == 0 { assert(spec_all_enemy_ids()[0] == "goblin_grunt"@); assert(spec_all_enemy_ids()[2] == "goblin_shaman"@); } else if k == 1 { assert(spec_all_enemy_ids()[0] == "goblin_grunt"@); assert(spec_all_enemy_ids()[1] == "goblin_archer"@); } else if k == 2 { assert(spec_all_enemy_ids()[8] == "skeleton"@); } else if k == 3 { assert(spec_all_enemy_ids()[12] == "zombie"@); } else if k == 4 { assert(spec_all_enemy_ids()[4] == "scavenger"@); assert(spec_all_enemy_ids()[10] == "bandit_thug"@); } else if k == 5 { assert(spec_all_enemy_ids()[16] == "bandit_archer"@); assert(spec_all_enemy_ids()[10] == "bandit_thug"@); } else if k == 6 { assert(spec_all_enemy_ids()[7] == "sporecap"@); assert(spec_all_enemy_ids()[3] == "giant_rat"@); } else if k == 7 { assert(spec_all_enemy_ids()[13] == "plague_rat"@); } else if k == 8 { assert(spec_all_enemy_ids()[5] == "fire_beetle"@); assert(spec_all_enemy_ids()[14] == "cave_spider"@); } else if k == 9 { assert(spec_all_enemy_ids()[3] == "giant_rat"@); assert(spec_all_enemy_ids()[4] == "scavenger"@); assert(spec_all_enemy_ids()[8] == "skeleton"@); }
    }
}

/// The curated level-3 encounters.
pub open spec fn spec_level_3_encounters() -> Seq<TemplateView> {
    seq![
        ("goblin_raiding_party"@, 3u32, EncounterTheme::Goblins, EncounterBackground::GoblinCamp, seq!["goblin_shaman"@, "goblin_grunt"@]),
        ("bone_crypt"@, 3u32, EncounterTheme::Undead, EncounterBackground::Crypt, seq!["bone_sentinel"@, "skeleton"@]),
        ("undead_horde"@, 3u32, EncounterTheme::Undead, EncounterBackground::Graveyard, seq!["zombie"@, "zombie"@]),
        ("cult_initiation"@, 3u32, EncounterTheme::Cult, EncounterBackground::CultSanctum, seq!["cult_acolyte"@, "scavenger"@]),
        ("beast_pack"@, 3u32, EncounterTheme::Beasts, EncounterBackground::ForestClearing, seq!["wolf"@, "wolf"@]),
        ("boar_charge"@, 3u32, EncounterTheme::Beasts, EncounterBackground::ForestClearing, seq!["boar"@, "wolf"@]),
        ("corrupted_growth"@, 3u32, EncounterTheme::Fungal, EncounterBackground::InfestedDen, seq!["blightcap"@, "sporecap"@]),
        ("haunted_passage"@, 3u32, EncounterTheme::Undead, EncounterBackground::Crypt, seq!["shadow_wisp"@, "shadow_wisp"@]),
        ("mercenary_outriders"@, 3u32, EncounterTheme::Bandits, EncounterBackground::RoadAmbush, seq!["sellsword"@, "bandit_archer"@]),
        ("sellsword_duel"@, 3u32, EncounterTheme::Bandits, EncounterBackground::BanditCamp, seq!["sellsword"@, "sellsword"@]),
    ]
}

/// The curated level-3 encounter table.
pub fn level_3_encounters() -> (r: Vec<EncounterTemplate>)
    ensures
        templates_view(r@) == spec_level_3_encounters(),
{
    let r: Vec<EncounterTemplate> = vec![
        template("goblin_raiding_party", 3, EncounterTheme::Goblins, EncounterBackground::GoblinCamp, vec!["goblin_shaman".to_string(), "goblin_grunt".to_string()]),
        template("bone_crypt", 3, EncounterTheme::Undead, EncounterBackground::Crypt, vec!["bone_sentinel".to_string(), "skeleton".to_string()]),
        template("undead_horde", 3, EncounterTheme::Undead, EncounterBackground::Graveyard, vec!["zombie".to_string(), "zombie".to_string()]),
        template("cult_initiation", 3, EncounterTheme::Cult, EncounterBackground::CultSanctum, vec!["cult_acolyte".to_string(), "scavenger".to_string()]),
        template("beast_pack", 3, EncounterTheme::Beasts, EncounterBackground::ForestClearing, vec!["wolf".to_string(), "wolf".to_string()]),
        template("boar_charge", 3, EncounterTheme::Beasts, EncounterBackground::ForestClearing, vec!["boar".to_string(), "wolf".to_string()]),
        template("corrupted_growth", 3, EncounterTheme::Fungal, EncounterBackground::InfestedDen, vec!["blightcap".to_string(), "sporecap".to_string()]),
        template("haunted_passage", 3, EncounterTheme::Undead, EncounterBackground::Crypt, vec!["shadow_wisp".to_string(), "shadow_wisp".to_string()]),
        template("mercenary_outriders", 3, EncounterTheme::Bandits, EncounterBackground::RoadAmbush, vec!["sellsword".to_string(), "bandit_archer".to_string()]),
        template("sellsword_duel", 3, EncounterTheme::Bandits, EncounterBackground::BanditCamp, vec!["sellsword".to_string(), "sellsword".to_string()]),
    ];
    proof {
        assert(templates_view(r@) =~~= spec_level_3_encounters());
    }
    r
}

/// Every level-3 template is valid for level 3.
proof fn lemma_level_3_valid()
    ensures
        forall|k: int| 0 <= k < spec_level_3_encounters().len() ==> template_valid(#[trigger] spec_level_3_encounters()[k], 3),
{
    assert forall|k: int| 0 <= k < spec_level_3_encounters().len() implies template_valid(#[trigger] spec_level_3_encounters()[k], 3) by {
        if k == 0 { assert(spec_all_enemy_ids()[0] == "goblin_grunt"@); assert(spec_all_enemy_ids()[2] == "goblin_shaman"@); } else if k == 1 { assert(spec_all_enemy_ids()[19] == "bone_sentinel"@); assert(spec_all_enemy_ids()[8] == "skeleton"@); } else if k == 2 { assert(spec_all_enemy_ids()[12] == "zombie"@); } else if k == 3 { assert(spec_all_enemy_ids()[4] == "scavenger"@); assert(spec_all_enemy_ids()[26] == "cult_acolyte"@); } else if k == 4 { assert(spec_all_enemy_ids()[24] == "wolf"@); } else if k == 5 { assert(spec_all_enemy_ids()[25] == "boar"@); assert(spec_all_enemy_ids()[24] == "wolf"@); } else if k == 6 { assert(spec_all_enemy_ids()[23] == "blightcap"@); assert(spec_all_enemy_ids()[7] == "sporecap"@); } else if k == 7 { assert(spec_all_enemy_ids()[18] == "shadow_wisp"@); } else if k == 8 { assert(spec_all_enemy_ids()[28] == "sellsword"@); assert(spec_all_enemy_ids()[16] == "bandit_archer"@); } else if k == 9 { assert(spec_all_enemy_ids()[28] == "sellsword"@); }
    }
}

/// The curated level-4 encounters.
pub open spec fn spec_level_4_encounters() -> Seq<TemplateView> {
    seq![
        ("cultist_cell"@, 4u32, EncounterTheme::Cult, EncounterBackground::CultSanctum, seq!["cult_channeler"@, "cult_acolyte"@]),
        ("risen_horde"@, 4u32, EncounterTheme::Undead, EncounterBackground::Crypt, seq!["bone_sentinel"@, "skeleton"@]),
        ("troll_den"@, 4u32, EncounterTheme::Beasts, EncounterBackground::TrollDen, seq!["troll"@]),
        ("construct_vault"@, 4u32, EncounterTheme::Constructs, EncounterBackground::AncientVault, seq!["stone_golem"@]),
        ("construct_pair"@, 4u32, EncounterTheme::Constructs, EncounterBackground::AncientVault, seq!["animated_armor"@, "animated_shield"@]),
        ("harpy_roost"@, 4u32, EncounterTheme::Beasts, EncounterBackground::ForestClearing, seq!["harpy"@]),
        ("ambush_predator"@, 4u32, EncounterTheme::Vermin, EncounterBackground::CaveNest, seq!["cave_stalker"@]),
        ("deep_vermin"@, 4u32, EncounterTheme::Vermin, EncounterBackground::InfestedDen, seq!["rust_crawler"@, "fire_beetle"@]),
        ("wight_ambush"@, 4u32, EncounterTheme::Undead, EncounterBackground::Graveyard, seq!["wight"@, "skeleton"@]),
        ("cult_beasts"@, 4u32, EncounterTheme::Cult, EncounterBackground::CultSanctum, seq!["cult_channeler"@, "wolf"@]),
    ]
}

/// The curated level-4 encounter table.
pub fn level_4_encounters() -> (r: Vec<EncounterTemplate>)
    ensures
        templates_view(r@) == spec_level_4_encounters(),
{
    let r: Vec<EncounterTemplate> = vec![
        template("cultist_cell", 4, EncounterTheme::Cult, EncounterBackground::CultSanctum, vec!["cult_channeler".to_string(), "cult_acolyte".to_string()]),
        template("risen_horde", 4, EncounterTheme::Undead, EncounterBackground::Crypt, vec!["bone_sentinel".to_string(), "skeleton".to_string()]),
        template("troll_den", 4, EncounterTheme::Beasts, EncounterBackground::TrollDen, vec!["troll".to_string()]),
        template("construct_vault", 4, EncounterTheme::Constructs, EncounterBackground::AncientVault, vec!["stone_golem".to_string()]),
        template("construct_pair", 4, EncounterTheme::Constructs, EncounterBackground::AncientVault, vec!["animated_armor".to_string(), "animated_shield".to_string()]),
        template("harpy_roost", 4, EncounterTheme::Beasts, EncounterBackground::ForestClearing, vec!["harpy".to_string()]),
        template("ambush_predator", 4, EncounterTheme::Vermin, EncounterBackground::CaveNest, vec!["cave_stalker".to_string()]),
        template("deep_vermin", 4, EncounterTheme::Vermin, EncounterBackground::InfestedDen, vec!["rust_crawler".to_string(), "fire_beetle".to_string()]),
        template("wight_ambush", 4, EncounterTheme::Undead, EncounterBackground::Graveyard, vec!["wight".to_string(), "skeleton".to_string()]),
        template("cult_beasts", 4, EncounterTheme::Cult, EncounterBackground::CultSanctum, vec!["cult_channeler".to_string(), "wolf".to_string()]),
    ];
    proof {
        assert(templates_view(r@) =~~= spec_level_4_encounters());
    }
    r
}

/// Every level-4 template is valid for level 4.
proof fn lemma_level_4_valid()
    ensures
        forall|k: int| 0 <= k < spec_level_4_encounters().len() ==> template_valid(#[trigger] spec_level_4_encounters()[k], 4),
{
    assert forall|k: int| 0 <= k < spec_level_4_encounters().len() implies template_valid(#[trigger] spec_level_4_encounters()[k], 4) by {
        if k == 0 { assert(spec_all_enemy_ids()[37] == "cult_channeler"@); assert(spec_all_enemy_ids()[26] == "cult_acolyte"@); } else if k == 1 { assert(spec_all_enemy_ids()[19] == "bone_sentinel"@); assert(spec_all_enemy_ids()[8] == "skeleton"@); } else if k == 2 { assert(spec_all_enemy_ids()[35] == "troll"@); } else if k == 3 { assert(spec_all_enemy_ids()[32] == "stone_golem"@); } else if k == 4 { assert(spec_all_enemy_ids()[6] == "animated_shield"@); assert(spec_all_enemy_ids()[30] == "animated_armor"@); } else if k == 5 { assert(spec_all_enemy_ids()[20] == "harpy"@); } else if k == 6 { assert(spec_all_enemy_ids()[33] == "cave_stalker"@); } else if k == 7 { assert(spec_all_enemy_ids()[22] == "rust_crawler"@); assert(spec_all_enemy_ids()[5] == "fire_beetle"@); } else if k == 8 { assert(spec_all_enemy_ids()[27] == "wight"@); assert(spec_all_enemy_ids()[8] == "skeleton"@); } else if k == 9 { assert(spec_all_enemy_ids()[24] == "wolf"@); assert(spec_all_enemy_ids()[37] == "cult_channeler"@); }
    }
}

/// The curated level-5 encounters.
pub open spec fn spec_level_5_encounters() -> Seq<TemplateView> {
    seq![
        ("cult_ritual"@, 5u32, EncounterTheme::Cult, EncounterBackground::CultSanctum, seq!["cult_channeler"@, "cult_acolyte"@]),
        ("cult_invokers"@, 5u32, EncounterTheme::Cult, EncounterBackground::CultSanctum, seq!["cult_invoker"@, "cult_acolyte"@]),
        ("necromancer_servants"@, 5u32, EncounterTheme::Undead, EncounterBackground::UndeadCrypt, seq!["bone_commander"@, "skeleton"@]),
        ("undead_squad"@, 5u32, EncounterTheme::Undead, EncounterBackground::Crypt, seq!["bone_commander"@, "wight"@]),
        ("mercenary_company"@, 5u32, EncounterTheme::Bandits, EncounterBackground::MercenaryFort, seq!["sellsword_captain"@, "sellsword"@]),
        ("specter_haunt"@, 5u32, EncounterTheme::Undead, EncounterBackground::Crypt, seq!["specter"@, "shadow_wisp"@]),
        ("ogre_territory"@, 5u32, EncounterTheme::Goblins, EncounterBackground::RoadAmbush, seq!["ogre_thug"@, "goblin_shaman"@]),
        ("infernal_scouts"@, 5u32, EncounterTheme::Fiends, EncounterBackground::FiendGate, seq!["imp"@, "imp"@]),
        ("corrupted_sanctum"@, 5u32, EncounterTheme::Fungal, EncounterBackground::InfestedDen, seq!["husk_whisperer"@, "sporecap"@]),
        ("drake_nest"@, 5u32, EncounterTheme::Beasts, EncounterBackground::DrakeLair, seq!["young_drake"@, "young_drake"@]),
    ]
}

/// The curated level-5 encounter table.
pub fn level_5_encounters() -> (r: Vec<EncounterTemplate>)
    ensures
        templates_view(r@) == spec_level_5_encounters(),
{
    let r: Vec<EncounterTemplate> = vec![
        template("cult_ritual", 5, EncounterTheme::Cult, EncounterBackground::CultSanctum, vec!["cult_channeler".to_string(), "cult_acolyte".to_string()]),
        template("cult_invokers", 5, EncounterTheme::Cult, EncounterBackground::CultSanctum, vec!["cult_invoker".to_string(), "cult_acolyte".to_string()]),
        template("necromancer_servants", 5, EncounterTheme::Undead, EncounterBackground::UndeadCrypt, vec!["bone_commander".to_string(), "skeleton".to_string()]),
        template("undead_squad", 5, EncounterTheme::Undead, EncounterBackground::Crypt, vec!["bone_commander".to_string(), "wight".to_string()]),
        template("mercenary_company", 5, EncounterTheme::Bandits, EncounterBackground::MercenaryFort, vec!["sellsword_captain".to_string(), "sellsword".to_string()]),
        template("specter_haunt", 5, EncounterTheme::Undead, EncounterBackground::Crypt, vec!["specter".to_string(), "shadow_wisp".to_string()]),
        template("ogre_territory", 5, EncounterTheme::Goblins, EncounterBackground::RoadAmbush, vec!["ogre_thug".to_string(), "goblin_shaman".to_string()]),
        template("infernal_scouts", 5, EncounterTheme::Fiends, EncounterBackground::FiendGate, vec!["imp".to_string(), "imp".to_string()]),
        template("corrupted_sanctum", 5, EncounterTheme::Fungal, EncounterBackground::InfestedDen, vec!["husk_whisperer".to_string(), "sporecap".to_string()]),
        template("drake_nest", 5, EncounterTheme::Beasts, EncounterBackground::DrakeLair, vec!["young_drake".to_string(), "young_drake".to_string()]),
    ];
    proof {
        assert(templates_view(r@) =~~= spec_level_5_encounters());
    }
    r
}

/// Every level-5 template is valid for level 5.
proof fn lemma_level_5_valid()
    ensures
        forall|k: int| 0 <= k < spec_level_5_encounters().len() ==> template_valid(#[trigger] spec_level_5_encounters()[k], 5),
{
    assert forall|k: int| 0 <= k < spec_level_5_encounters().len() implies template_valid(#[trigger] spec_level_5_encounters()[k], 5) by {
        if k == 0 { assert(spec_all_enemy_ids()[37] == "cult_channeler"@); assert(spec_all_enemy_ids()[26] == "cult_acolyte"@); } else if k == 1 { assert(spec_all_enemy_ids()[38] == "cult_invoker"@); assert(spec_all_enemy_ids()[26] == "cult_acolyte"@); } else if k == 2 { assert(spec_all_enemy_ids()[36] == "bone_commander"@); assert(spec_all_enemy_ids()[8] == "skeleton"@); } else if k == 3 { assert(spec_all_enemy_ids()[36] == "bone_commander"@); assert(spec_all_enemy_ids()[27] == "wight"@); } else if k == 4 { assert(spec_all_enemy_ids()[28] == "sellsword"@); assert(spec_all_enemy_ids()[41] == "sellsword_captain"@); } else if k == 5 { assert(spec_all_enemy_ids()[21] == "specter"@); assert(spec_all_enemy_ids()[18] == "shadow_wisp"@); } else if k == 6 { assert(spec_all_enemy_ids()[31] == "ogre_thug"@); assert(spec_all_enemy_ids()[2] == "goblin_shaman"@); } else if k == 7 { assert(spec_all_enemy_ids()[17] == "imp"@); } else if k == 8 { assert(spec_all_enemy_ids()[7] == "sporecap"@); assert(spec_all_enemy_ids()[34] == "husk_whisperer"@); } else if k == 9 { assert(spec_all_enemy_ids()[29] == "young_drake"@); }
    }
}

/// The curated level-7 encounters.
pub open spec fn spec_level_7_encounters() -> Seq<TemplateView> {
    seq![
        ("cult_inner_circle"@, 7u32, EncounterTheme::Cult, EncounterBackground::CultSanctum, seq!["cult_invoker"@, "cult_channeler"@]),
        ("dark_priesthood"@, 7u32, EncounterTheme::Cult, EncounterBackground::CultSanctum, seq!["dark_priest"@, "cult_acolyte"@]),
        ("necromancer_vanguard"@, 7u32, EncounterTheme::Undead, EncounterBackground::UndeadCrypt, seq!["corpse_knight"@, "bone_sentinel"@]),
        ("double_commanders"@, 7u32, EncounterTheme::Undead, EncounterBackground::Crypt, seq!["bone_commander"@, "wight"@]),
        ("troll_warren"@, 7u32, EncounterTheme::Beasts, EncounterBackground::TrollDen, seq!["troll"@, "troll"@]),
        ("golem_foundry"@, 7u32, EncounterTheme::Constructs, EncounterBackground::AncientVault, seq!["iron_golem"@]),
        ("construct_trio"@, 7u32, EncounterTheme::Constructs, EncounterBackground::AncientVault, seq!["stone_golem"@, "animated_armor"@]),
        ("wyvern_hunt"@, 7u32, EncounterTheme::Beasts, EncounterBackground::ForestClearing, seq!["wyvern"@]),
        ("flamewrath_solo"@, 7u32, EncounterTheme::Fiends, EncounterBackground::FiendGate, seq!["flamewrath"@]),
        ("predator_ambush"@, 7u32, EncounterTheme::Vermin, EncounterBackground::CaveNest, seq!["cave_stalker"@, "cave_stalker"@]),
    ]
}

/// The curated level-7 encounter table.
pub fn level_7_encounters() -> (r: Vec<EncounterTemplate>)
    ensures
        templates_view(r@) == spec_level_7_encounters(),
{
    let r: Vec<EncounterTemplate> = vec![
        template("cult_inner_circle", 7, EncounterTheme::Cult, EncounterBackground::CultSanctum, vec!["cult_invoker".to_string(), "cult_channeler".to_string()]),
        template("dark_priesthood", 7, EncounterTheme::Cult, EncounterBackground::CultSanctum, vec!["dark_priest".to_string(), "cult_acolyte".to_string()]),
        template("necromancer_vanguard", 7, EncounterTheme::Undead, EncounterBackground::UndeadCrypt, vec!["corpse_knight".to_string(), "bone_sentinel".to_string()]),
        template("double_commanders", 7, EncounterTheme::Undead, EncounterBackground::Crypt, vec!["bone_commander".to_string(), "wight".to_string()]),
        template("troll_warren", 7, EncounterTheme::Beasts, EncounterBackground::TrollDen, vec!["troll".to_string(), "troll".to_string()]),
        template("golem_foundry", 7, EncounterTheme::Constructs, EncounterBackground::AncientVault, vec!["iron_golem".to_string()]),
        template("construct_trio", 7, EncounterTheme::Constructs, EncounterBackground::AncientVault, vec!["stone_golem".to_string(), "animated_armor".to_string()]),
        template("wyvern_hunt", 7, EncounterTheme::Beasts, EncounterBackground::ForestClearing, vec!["wyvern".to_string()]),
        template("flamewrath_solo", 7, EncounterTheme::Fiends, EncounterBackground::FiendGate, vec!["flamewrath".to_string()]),
        template("predator_ambush", 7, EncounterTheme::Vermin, EncounterBackground::CaveNest, vec!["cave_stalker".to_string(), "cave_stalker".to_string()]),
    ];
    proof {
        assert(templates_view(r@) =~~= spec_level_7_encounters());
    }
    r
}

/// Every level-7 template is valid for level 7.
proof fn lemma_level_7_valid()
    ensures
        forall|k: int| 0 <= k < spec_level_7_encounters().len() ==> template_valid(#[trigger] spec_level_7_encounters()[k], 7),
{
    assert forall|k: int| 0 <= k < spec_level_7_encounters().len() implies template_valid(#[trigger] spec_level_7_encounters()[k], 7) by {
        if k == 0 { assert(spec_all_enemy_ids()[38] == "cult_invoker"@); assert(spec_all_enemy_ids()[37] == "cult_channeler"@); } else if k == 1 { assert(spec_all_enemy_ids()[39] == "dark_priest"@); assert(spec_all_enemy_ids()[26] == "cult_acolyte"@); } else if k == 2 { assert(spec_all_enemy_ids()[19] == "bone_sentinel"@); assert(spec_all_enemy_ids()[40] == "corpse_knight"@); } else if k == 3 { assert(spec_all_enemy_ids()[36] == "bone_commander"@); assert(spec_all_enemy_ids()[27] == "wight"@); } else if k == 4 { assert(spec_all_enemy_ids()[35] == "troll"@); } else if k == 5 { assert(spec_all_enemy_ids()[46] == "iron_golem"@); } else if k == 6 { assert(spec_all_enemy_ids()[32] == "stone_golem"@); assert(spec_all_enemy_ids()[30] == "animated_armor"@); } else if k == 7 { assert(spec_all_enemy_ids()[43] == "wyvern"@); } else if k == 8 { assert(spec_all_enemy_ids()[42] == "flamewrath"@); } else if k == 9 { assert(spec_all_enemy_ids()[33] == "cave_stalker"@); }
    }
}

/// The curated level-9 encounters.
pub open spec fn spec_level_9_encounters() -> Seq<TemplateView> {
    seq![
        ("necromancer_a"@, 9u32, EncounterTheme::Undead, EncounterBackground::UndeadCrypt, seq!["necromancer"@, "bone_sentinel"@]),
        ("necromancer_b"@, 9u32, EncounterTheme::Undead, EncounterBackground::Crypt, seq!["necromancer"@, "corpse_knight"@]),
        ("cult_sanctum"@, 9u32, EncounterTheme::Cult, EncounterBackground::CultSanctum, seq!["high_cultist"@, "dark_priest"@]),
        ("fiend_gate"@, 9u32, EncounterTheme::Fiends, EncounterBackground::FiendGate, seq!["flamewrath"@, "imp"@]),
        ("iron_legion"@, 9u32, EncounterTheme::Constructs, EncounterBackground::AncientVault, seq!["iron_golem"@, "stone_golem"@]),
        ("dragon_scouts"@, 9u32, EncounterTheme::Beasts, EncounterBackground::DrakeLair, seq!["wyvern"@, "wyvern"@]),
        ("risen_army"@, 9u32, EncounterTheme::Undead, EncounterBackground::UndeadCrypt, seq!["corpse_knight"@, "bone_commander"@]),
        ("apex_predators"@, 9u32, EncounterTheme::Mixed, EncounterBackground::CaveNest, seq!["troll"@, "cave_stalker"@]),
        ("profane_ground"@, 9u32, EncounterTheme::Mixed, EncounterBackground::CultSanctum, seq!["husk_whisperer"@, "specter"@]),
        ("wight_siege"@, 9u32, EncounterTheme::Undead, EncounterBackground::Graveyard, seq!["wight"@, "wight"@]),
    ]
}

/// The curated level-9 encounter table.
pub fn level_9_encounters() -> (r: Vec<EncounterTemplate>)
    ensures
        templates_view(r@) == spec_level_9_encounters(),
{
    let r: Vec<EncounterTemplate> = vec![
        template("necromancer_a", 9, EncounterTheme::Undead, EncounterBackground::UndeadCrypt, vec!["necromancer".to_string(), "bone_sentinel".to_string()]),
        template("necromancer_b", 9, EncounterTheme::Undead, EncounterBackground::Crypt, vec!["necromancer".to_string(), "corpse_knight".to_string()]),
        template("cult_sanctum", 9, EncounterTheme::Cult, EncounterBackground::CultSanctum, vec!["high_cultist".to_string(), "dark_priest".to_string()]),
        template("fiend_gate", 9, EncounterTheme::Fiends, EncounterBackground::FiendGate, vec!["flamewrath".to_string(), "imp".to_string()]),
        template("iron_legion", 9, EncounterTheme::Constructs, EncounterBackground::AncientVault, vec!["iron_golem".to_string(), "stone_golem".to_string()]),
        template("dragon_scouts", 9, EncounterTheme::Beasts, EncounterBackground::DrakeLair, vec!["wyvern".to_string(), "wyvern".to_string()]),
        template("risen_army", 9, EncounterTheme::Undead, EncounterBackground::UndeadCrypt, vec!["corpse_knight".to_string(), "bone_commander".to_string()]),
        template("apex_predators", 9, EncounterTheme::Mixed, EncounterBackground::CaveNest, vec!["troll".to_string(), "cave_stalker".to_string()]),
        template("profane_ground", 9, EncounterTheme::Mixed, EncounterBackground::CultSanctum, vec!["husk_whisperer".to_string(), "specter".to_string()]),
        template("wight_siege", 9, EncounterTheme::Undead, EncounterBackground::Graveyard, vec!["wight".to_string(), "wight".to_string()]),
    ];
    proof {
        assert(templates_view(r@) =~~= spec_level_9_encounters());
    }
    r
}

/// Every level-9 template is valid for level 9.
proof fn lemma_level_9_valid()
    ensures
        forall|k: int| 0 <= k < spec_level_9_encounters().len() ==> template_valid(#[trigger] spec_level_9_encounters()[k], 9),
{
    assert forall|k: int| 0 <= k < spec_level_9_encounters().len() implies template_valid(#[trigger] spec_level_9_encounters()[k], 9) by {
        if k == 0 { assert(spec_all_enemy_ids()[44] == "necromancer"@); assert(spec_all_enemy_ids()[19] == "bone_sentinel"@); } else if k == 1 { assert(spec_all_enemy_ids()[44] == "necromancer"@); assert(spec_all_enemy_ids()[40] == "corpse_knight"@); } else if k == 2 { assert(spec_all_enemy_ids()[39] == "dark_priest"@); assert(spec_all_enemy_ids()[45] == "high_cultist"@); } else if k == 3 { assert(spec_all_enemy_ids()[42] == "flamewrath"@); assert(spec_all_enemy_ids()[17] == "imp"@); } else if k == 4 { assert(spec_all_enemy_ids()[32] == "stone_golem"@); assert(spec_all_enemy_ids()[46] == "iron_golem"@); } else if k == 5 { assert(spec_all_enemy_ids()[43] == "wyvern"@); } else if k == 6 { assert(spec_all_enemy_ids()[36] == "bone_commander"@); assert(spec_all_enemy_ids()[40] == "corpse_knight"@); } else if k == 7 { assert(spec_all_enemy_ids()[33] == "cave_stalker"@); assert(spec_all_enemy_ids()[35] == "troll"@); } else if k == 8 { assert(spec_all_enemy_ids()[21] == "specter"@); assert(spec_all_enemy_ids()[34] == "husk_whisperer"@); } else if k == 9 { assert(spec_all_enemy_ids()[27] == "wight"@); }
    }
}

/// The curated level-11 encounters.
pub open spec fn spec_level_11_encounters() -> Seq<TemplateView> {
    seq![
        ("necromancer_lord"@, 11u32, EncounterTheme::Undead, EncounterBackground::UndeadCrypt, seq!["necromancer"@, "corpse_knight"@]),
        ("double_necromancer"@, 11u32, EncounterTheme::Undead, EncounterBackground::Crypt, seq!["necromancer"@, "wight"@]),
        ("cult_apocalypse"@, 11u32, EncounterTheme::Cult, EncounterBackground::CultSanctum, seq!["high_cultist"@, "dark_priest"@]),
        ("cult_demon"@, 11u32, EncounterTheme::Fiends, EncounterBackground::FiendGate, seq!["high_cultist"@, "flamewrath"@]),
        ("infernal_breach"@, 11u32, EncounterTheme::Fiends, EncounterBackground::FiendGate, seq!["flamewrath"@, "flamewrath"@]),
        ("construct_colossus"@, 11u32, EncounterTheme::Constructs, EncounterBackground::AncientVault, seq!["iron_golem"@, "iron_golem"@]),
        ("draconic_fury"@, 11u32, EncounterTheme::Beasts, EncounterBackground::DragonApproach, seq!["wyvern"@, "young_drake"@]),
        ("unhallowed_legion"@, 11u32, EncounterTheme::Mixed, EncounterBackground::UndeadCrypt, seq!["corpse_knight"@, "flamewrath"@]),
        ("final_mercenaries"@, 11u32, EncounterTheme::Bandits, EncounterBackground::MercenaryFort, seq!["sellsword_captain"@, "dark_priest"@]),
        ("flamewrath_wyvern"@, 11u32, EncounterTheme::Mixed, EncounterBackground::DragonApproach, seq!["flamewrath"@, "wyvern"@]),
    ]
}

/// The curated level-11 encounter table.
pub fn level_11_encounters() -> (r: Vec<EncounterTemplate>)
    ensures
        templates_view(r@) == spec_level_11_encounters(),
{
    let r: Vec<EncounterTemplate> = vec![
        template("necromancer_lord", 11, EncounterTheme::Undead, EncounterBackground::UndeadCrypt, vec!["necromancer".to_string(), "corpse_knight".to_string()]),
        template("double_necromancer", 11, EncounterTheme::Undead, EncounterBackground::Crypt, vec!["necromancer".to_string(), "wight".to_string()]),
        template("cult_apocalypse", 11, EncounterTheme::Cult, EncounterBackground::CultSanctum, vec!["high_cultist".to_string(), "dark_priest".to_string()]),
        template("cult_demon", 11, EncounterTheme::Fiends, EncounterBackground::FiendGate, vec!["high_cultist".to_string(), "flamewrath".to_string()]),
        template("infernal_breach", 11, EncounterTheme::Fiends, EncounterBackground::FiendGate, vec!["flamewrath".to_string(), "flamewrath".to_string()]),
        template("construct_colossus", 11, EncounterTheme::Constructs, EncounterBackground::AncientVault, vec!["iron_golem".to_string(), "iron_golem".to_string()]),
        template("draconic_fury", 11, EncounterTheme::Beasts, EncounterBackground::DragonApproach, vec!["wyvern".to_string(), "young_drake".to_string()]),
        template("unhallowed_legion", 11, EncounterTheme::Mixed, EncounterBackground::UndeadCrypt, vec!["corpse_knight".to_string(), "flamewrath".to_string()]),
        template("final_mercenaries", 11, EncounterTheme::Bandits, EncounterBackground::MercenaryFort, vec!["sellsword_captain".to_string(), "dark_priest".to_string()]),
        template("flamewrath_wyvern", 11, EncounterTheme::Mixed, EncounterBackground::DragonApproach, vec!["flamewrath".to_string(), "wyvern".to_string()]),
    ];
    proof {
        assert(templates_view(r@) =~~= spec_level_11_encounters());
    }
    r
}

/// Every level-11 template is valid for level 11.
proof fn lemma_level_11_valid()
    ensures
        forall|k: int| 0 <= k < spec_level_11_encounters().len() ==> template_valid(#[trigger] spec_level_11_encounters()[k], 11),
{
    assert forall|k: int| 0 <= k < spec_level_11_encounters().len() implies template_valid(#[trigger] spec_level_11_encounters()[k], 11) by {
        if k == 0 { assert(spec_all_enemy_ids()[44] == "necromancer"@); assert(spec_all_enemy_ids()[40] == "corpse_knight"@); } else if k == 1 { assert(spec_all_enemy_ids()[44] == "necromancer"@); assert(spec_all_enemy_ids()[27] == "wight"@); } else if k == 2 { assert(spec_all_enemy_ids()[39] == "dark_priest"@); assert(spec_all_enemy_ids()[45] == "high_cultist"@); } else if k == 3 { assert(spec_all_enemy_ids()[42] == "flamewrath"@); assert(spec_all_enemy_ids()[45] == "high_cultist"@); } else if k == 4 { assert(spec_all_enemy_ids()[42] == "flamewrath"@); } else if k == 5 { assert(spec_all_enemy_ids()[46] == "iron_golem"@); } else if k == 6 { assert(spec_all_enemy_ids()[43] == "wyvern"@); assert(spec_all_enemy_ids()[29] == "young_drake"@); } else if k == 7 { assert(spec_all_enemy_ids()[42] == "flamewrath"@); assert(spec_all_enemy_ids()[40] == "corpse_knight"@); } else if k == 8 { assert(spec_all_enemy_ids()[41] == "sellsword_captain"@); assert(spec_all_enemy_ids()[39] == "dark_priest"@); } else if k == 9 { assert(spec_all_enemy_ids()[43] == "wyvern"@); assert(spec_all_enemy_ids()[42] == "flamewrath"@); }
    }
}

// ── Curated tables ──────────────────────────────────────────────────────

/// The levels of the curated tables, in order.
pub open spec fn spec_table_levels() -> Seq<u32> {
    seq![1u32, 2u32, 3u32, 4u32, 5u32, 7u32, 9u32, 11u32]
}

/// The curated tables, in the order of `spec_table_levels`.
pub open spec fn spec_curated_tables() -> Seq<Seq<TemplateView>> {
    seq![
        spec_level_1_encounters(),
        spec_level_2_encounters(),
        spec_level_3_encounters(),
        spec_level_4_encounters(),
        spec_level_5_encounters(),
        spec_level_7_encounters(),
        spec_level_9_encounters(),
        spec_level_11_encounters(),
    ]
}

/// The curated table for a player level: levels 0 and 1 use the level-1
/// table, 5–6 the level-5 one, 7–8, 9–10 and 11–12 likewise; other levels
/// have none.
pub open spec fn spec_curated_for_level(player_level: u32) -> Option<Seq<TemplateView>> {
    if player_level <= 1 {
        Some(spec_level_1_encounters())
    } else if player_level == 2 {
        Some(spec_level_2_encounters())
    } else if player_level == 3 {
        Some(spec_level_3_encounters())
    } else if player_level == 4 {
        Some(spec_level_4_encounters())
    } else if player_level <= 6 {
        Some(spec_level_5_encounters())
    } else if player_level <= 8 {
        Some(spec_level_7_encounters())
    } else if player_level <= 10 {
        Some(spec_level_9_encounters())
    } else if player_level <= 12 {
        Some(spec_level_11_encounters())
    } else {
        None
    }
}

/// Every curated table, levels 1, 2, 3, 4, 5, 7, 9 and 11.
pub fn all_curated_templates() -> (r: Vec<Vec<EncounterTemplate>>)
    ensures
        r@.len() == spec_curated_tables().len(),
        forall|i: int| 0 <= i < r@.len() ==> templates_view(#[trigger] r@[i]@) == spec_curated_tables()[i],
{
    let r: Vec<Vec<EncounterTemplate>> = vec![
        level_1_encounters(),
        level_2_encounters(),
        level_3_encounters(),
        level_4_encounters(),
        level_5_encounters(),
        level_7_encounters(),
        level_9_encounters(),
        level_11_encounters(),
    ];
    proof {
        assert forall|i: int| 0 <= i < r@.len() implies templates_view(#[trigger] r@[i]@) == spec_curated_tables()[i] by {
            if i == 0 {} else if i == 1 {} else if i == 2 {} else if i == 3 {} else if i == 4 {}
            else if i == 5 {} else if i == 6 {} else {}
        }
    }
    r
}

fn curated_templates_for_level(player_level: u32) -> (r: Option<Vec<EncounterTemplate>>)
    ensures
        match r {
            Some(t) => spec_curated_for_level(player_level) == Some(templates_view(t@)),
            None => spec_curated_for_level(player_level) is None,
        },
{
    if player_level <= 1 {
        Some(level_1_encounters())
    } else if player_level == 2 {
        Some(level_2_encounters())
    } else if player_level == 3 {
        Some(level_3_encounters())
    } else if player_level == 4 {
        Some(level_4_encounters())
    } else if player_level <= 6 {
        Some(level_5_encounters())
    } else if player_level <= 8 {
        Some(level_7_encounters())
    } else if player_level <= 10 {
        Some(level_9_encounters())
    } else if player_level <= 12 {
        Some(level_11_encounters())
    } else {
        None
    }
}

/// The hash inputs of the templates of the tables, table by table.
pub open spec fn spec_hash_inputs(tables: Seq<Seq<TemplateView>>) -> Seq<Seq<char>>
    decreases tables.len(),
{
    if tables.len() == 0 {
        Seq::empty()
    } else {
        spec_hash_inputs(tables.drop_last()) + tables.last().map_values(|t: TemplateView| spec_hash_input(t))
    }
}

/// The hash input of every curated template, table by table.
pub fn encounter_table_hash_inputs() -> (r: Vec<String>)
    ensures
        r@.map_values(|s: String| s@) == spec_hash_inputs(spec_curated_tables()),
{
    let tables = all_curated_templates();
    let ghost all = spec_curated_tables();
    let mut r: Vec<String> = Vec::new();
    let mut i: usize = 0;
    while i < tables.len()
        invariant
            i <= tables@.len(),
            tables@.len() == all.len(),
            all == spec_curated_tables(),
            forall|k: int| 0 <= k < tables@.len() ==> templates_view(#[trigger] tables@[k]@) == all[k],
            r@.map_values(|s: String| s@) == spec_hash_inputs(all.take(i as int)),
        decreases tables@.len() - i,
    {
        let table = &tables[i];
        let ghost before = r@.map_values(|s: String| s@);
        let mut k: usize = 0;
        while k < table.len()
            invariant
                k <= table@.len(),
                templates_view(table@) == all[i as int],
                r@.map_values(|s: String| s@) == before + all[i as int].take(k as int).map_values(|t: TemplateView| spec_hash_input(t)),
            decreases table@.len() - k,
        {
            let h = table[k].hash_input();
            let ghost pre = r@;
            r.push(h);
            k = k + 1;
            proof {
                assert(r@ =~= pre.push(h));
                assert(r@.map_values(|s: String| s@) =~= pre.map_values(|s: String| s@).push(h@));
                assert(templates_view(table@)[k - 1] == table@[k - 1]@);
                assert(all[i as int].take(k as int) =~= all[i as int].take(k - 1).push(templates_view(table@)[k - 1]));
                assert(r@.map_values(|s: String| s@) =~= before + all[i as int].take(k as int).map_values(|t: TemplateView| spec_hash_input(t)));
            }
        }
        proof {
            assert(all[i as int].take(k as int) =~= all[i as int]);
            assert(all.take(i + 1).drop_last() =~= all.take(i as int));
            assert(all.take(i + 1).last() == all[i as int]);
        }
        i = i + 1;
    }
    proof {
        assert(all.take(i as int) =~= all);
    }
    r
}

/// Every curated template is valid for the level of its table: the tables
/// are well formed.
pub proof fn law_curated_templates_valid()
    ensures
        forall|i: int, k: int| 0 <= i < spec_curated_tables().len() && 0 <= k < spec_curated_tables()[i].len()
            ==> template_valid(#[trigger] spec_curated_tables()[i][k], spec_table_levels()[i]),
{
    lemma_level_1_valid();
    lemma_level_2_valid();
    lemma_level_3_valid();
    lemma_level_4_valid();
    lemma_level_5_valid();
    lemma_level_7_valid();
    lemma_level_9_valid();
    lemma_level_11_valid();
    assert forall|i: int, k: int| 0 <= i < spec_curated_tables().len() && 0 <= k < spec_curated_tables()[i].len()
        implies template_valid(#[trigger] spec_curated_tables()[i][k], spec_table_levels()[i]) by {
        if i == 0 {} else if i == 1 {} else if i == 2 {} else if i == 3 {} else if i == 4 {}
        else if i == 5 {} else if i == 6 {} else {}
    }
}

// ── Procedural encounters ───────────────────────────────────────────────

/// What an enemy costs from the budget: 1 for a minion, 2 for a standard
/// enemy, 4 for a tough one.
pub open spec fn id_cost(id: Seq<char>) -> int {
    if is_minion_id(id) {
        1
    } else if is_standard_id(id) {
        2
    } else {
        4
    }
}

/// The budget an encounter spends.
pub open spec fn spent(ids: Seq<Seq<char>>) -> int
    decreases ids.len(),
{
    if ids.len() == 0 {
        0
    } else {
        spent(ids.drop_last()) + id_cost(ids.last())
    }
}

/// An encounter's cost adds up over its enemies: 1 for each minion, 2 for
/// each standard enemy and 4 for each tough one.
pub proof fn law_encounter_cost(a: Seq<Seq<char>>, b: Seq<Seq<char>>, id: Seq<char>)
    ensures
        spent(a + b) == spent(a) + spent(b),
        crate::enemies::spec_minion_ids().contains(id) ==> spent(seq![id]) == 1,
        crate::enemies::spec_standard_ids().contains(id) ==> spent(seq![id]) == 2,
        crate::enemies::spec_tough_ids().contains(id) ==> spent(seq![id]) == 4,
    decreases b.len(),
{
    crate::enemies::lemma_tier_tests_match_lists();
    crate::enemies::lemma_tiers_disjoint();
    let one = seq![id];
    assert(one.drop_last() =~= Seq::<Seq<char>>::empty());
    assert(one.len() == 1 && one.last() == id);
    assert(spent(one.drop_last()) == 0);
    assert(spent(one) == id_cost(id));
    if b.len() == 0 {
        assert(a + b =~= a);
    } else {
        law_encounter_cost(a, b.drop_last(), id);
        assert((a + b).drop_last() =~= a + b.drop_last());
        assert((a + b).last() == b.last());
    }
}

proof fn lemma_spent_nonneg(ids: Seq<Seq<char>>)
    ensures
        spent(ids) >= 0,
    decreases ids.len(),
{
    if ids.len() > 0 {
        lemma_spent_nonneg(ids.drop_last());
    }
}

proof fn lemma_spent_update(ids: Seq<Seq<char>>, pos: int, x: Seq<char>)
    requires
        0 <= pos < ids.len(),
    ensures
        spent(ids.update(pos, x)) == spent(ids) - id_cost(ids[pos]) + id_cost(x),
    decreases ids.len(),
{
    let u = ids.update(pos, x);
    if pos == ids.len() - 1 {
        assert(u.drop_last() =~= ids.drop_last());
    } else {
        assert(u.drop_last() =~= ids.drop_last().update(pos, x));
        lemma_spent_update(ids.drop_last(), pos, x);
    }
}

/// What every procedural encounter for a budget satisfies: one to
/// `MAX_ENEMIES` minion, standard or (from act 2) tough enemies; with a
/// positive budget it spends at most the budget, and the upgrade passes
/// leave no minion while budget is left and, from act 2, no standard enemy
/// while 2 are left; with no budget it is a single standard enemy.
pub open spec fn fill_post(r: Seq<Seq<char>>, budget: int, act: u32) -> bool {
    &&& 1 <= r.len() <= MAX_ENEMIES
    &&& forall|i: int| 0 <= i < r.len() ==> is_minion_id(#[trigger] r[i]) || is_standard_id(r[i]) || (act >= 2 && is_tough_id(r[i]))
    &&& budget >= 1 ==> spent(r) <= budget
    &&& budget >= 1 && spent(r) < budget ==> forall|i: int| 0 <= i < r.len() ==> !is_minion_id(#[trigger] r[i])
    &&& budget >= 1 && act >= 2 && spent(r) + 2 <= budget ==> forall|i: int| 0 <= i < r.len() ==> !is_standard_id(#[trigger] r[i])
    &&& budget <= 0 ==> r.len() == 1 && is_standard_id(r[0])
}

/// Whether the list holds the id.
fn list_has(list: &Vec<EnemyId>, id: &EnemyId) -> (b: bool)
    ensures
        b == ids_view(list@).contains(id@),
{
    let mut j: usize = 0;
    while j < list.len()
        invariant
            j <= list@.len(),
            forall|k: int| 0 <= k < j ==> (#[trigger] list@[k])@ != id@,
        decreases list@.len() - j,
    {
        if list[j] == *id {
            proof {
                assert(ids_view(list@)[j as int] == id@);
            }
            return true;
        }
        j = j + 1;
    }
    proof {
        assert forall|k: int| 0 <= k < ids_view(list@).len() implies ids_view(list@)[k] != id@ by {
            assert(list@[k]@ != id@);
        }
    }
    false
}

/// Position of the first id of `ids` that `list` holds.
fn first_listed(ids: &Vec<EnemyId>, list: &Vec<EnemyId>) -> (r: Option<usize>)
    ensures
        match r {
            Some(p) => p < ids@.len() && ids_view(list@).contains(ids@[p as int]@),
            None => forall|q: int| 0 <= q < ids@.len() ==> !ids_view(list@).contains(#[trigger] ids@[q]@),
        },
{
    let mut i: usize = 0;
    while i < ids.len()
        invariant
            i <= ids@.len(),
            forall|q: int| 0 <= q < i ==> !ids_view(list@).contains(#[trigger] ids@[q]@),
        decreases ids@.len() - i,
    {
        if list_has(list, &ids[i]) {
            return Some(i);
        }
        i = i + 1;
    }
    None
}

/// Fill an encounter from a budget: maybe a tough enemy first (act 2+),
/// then standard enemies, then minions, then upgrades of minions to
/// standard and of standard to tough enemies while budget is left.
#[verifier::rlimit(60)]
pub fn fill_encounter(budget: i32, act: u32, rng: &mut GameRng) -> (r: Vec<EnemyId>)
    ensures
        fill_post(ids_view(r@), budget as int, act),
        1 <= r@.len() <= MAX_ENEMIES,
        forall|i: int| 0 <= i < r@.len() ==> spec_minion_ids().contains(#[trigger] r@[i]@) || spec_standard_ids().contains(r@[i]@)
            || spec_tough_ids().contains(r@[i]@),
        act < 2 ==> forall|i: int| 0 <= i < r@.len() ==> !spec_tough_ids().contains(#[trigger] r@[i]@),
        final(rng).spec_seed() == old(rng).spec_seed(),
{
    let minions = minion_ids();
    let standards = standard_ids();
    let tough = tough_ids();
    proof {
        lemma_tier_lists();
        lemma_tiers_disjoint();
        assert(ids_view(minions@) =~= spec_minion_ids());
        assert(ids_view(standards@) =~= spec_standard_ids());
        assert(ids_view(tough@) =~= spec_tough_ids());
    }
    let ghost seed = rng.spec_seed();
    let mut enemy_ids: Vec<EnemyId> = Vec::new();
    let mut remaining: i32 = budget;
    proof {
        assert(ids_view(enemy_ids@) =~= Seq::<Seq<char>>::empty());
        assert(spent(Seq::<Seq<char>>::empty()) == 0);
        assert(minions@.len() == 11 && standards@.len() == 20 && tough@.len() == 11);
    }

    // A tough enemy first (cost 4), act 2 on only.
    if remaining >= 4 && act >= 2 && rng.range(0, 99) < 40 && enemy_ids.len() < MAX_ENEMIES {
        let idx = rng.index_below(tough.len());
        enemy_ids.push(tough[idx].clone());
        remaining = remaining - 4;
        proof {
            assert(ids_view(enemy_ids@) =~= seq![spec_tough_ids()[idx as int]]);
            assert(ids_view(enemy_ids@).drop_last() =~= Seq::<Seq<char>>::empty());
            assert(is_tough_id(spec_tough_ids()[idx as int]));
            assert(spent(ids_view(enemy_ids@)) == 4);
        }
    }
    // Standard enemies (cost 2).
    while remaining >= 2 && rng.range(0, 99) < 60 && enemy_ids.len() < MAX_ENEMIES
        invariant
            enemy_ids@.len() <= MAX_ENEMIES,
            rng.spec_seed() == seed,
            spent(ids_view(enemy_ids@)) + remaining == budget,
            enemy_ids@.len() > 0 ==> remaining >= 0,
            budget <= 0 ==> enemy_ids@.len() == 0,
            budget >= 1 ==> enemy_ids@.len() >= 1 || remaining >= 1,
            forall|i: int| 0 <= i < enemy_ids@.len() ==> is_minion_id(#[trigger] ids_view(enemy_ids@)[i]) || is_standard_id(ids_view(enemy_ids@)[i]) || (act >= 2 && is_tough_id(ids_view(enemy_ids@)[i])),
            ids_view(minions@) == spec_minion_ids(),
            ids_view(standards@) == spec_standard_ids(),
            ids_view(tough@) == spec_tough_ids(),
            minions@.len() == 11 && standards@.len() == 20 && tough@.len() == 11,
            forall|x: Seq<char>| is_minion_id(x) ==> !is_standard_id(x) && !is_tough_id(x),
            forall|x: Seq<char>| is_standard_id(x) ==> !is_tough_id(x),
            forall|i: int| 0 <= i < spec_standard_ids().len() ==> is_standard_id(#[trigger] spec_standard_ids()[i]),
        decreases remaining,
    {
        let idx = rng.index_below(standards.len());
        let ghost pre = ids_view(enemy_ids@);
        enemy_ids.push(standards[idx].clone());
        proof {
            assert(ids_view(enemy_ids@) =~= pre.push(spec_standard_ids()[idx as int]));
            assert(ids_view(enemy_ids@).drop_last() =~= pre);
        }
        remaining = remaining - 2;
    }
    // Minions (cost 1) for the rest.
    while remaining >= 1 && enemy_ids.len() < MAX_ENEMIES
        invariant
            enemy_ids@.len() <= MAX_ENEMIES,
            rng.spec_seed() == seed,
            spent(ids_view(enemy_ids@)) + remaining == budget,
            enemy_ids@.len() > 0 ==> remaining >= 0,
            budget <= 0 ==> enemy_ids@.len() == 0,
            budget >= 1 ==> enemy_ids@.len() >= 1 || remaining >= 1,
            forall|i: int| 0 <= i < enemy_ids@.len() ==> is_minion_id(#[trigger] ids_view(enemy_ids@)[i]) || is_standard_id(ids_view(enemy_ids@)[i]) || (act >= 2 && is_tough_id(ids_view(enemy_ids@)[i])),
            ids_view(minions@) == spec_minion_ids(),
            ids_view(standards@) == spec_standard_ids(),
            ids_view(tough@) == spec_tough_ids(),
            minions@.len() == 11 && standards@.len() == 20 && tough@.len() == 11,
            forall|x: Seq<char>| is_minion_id(x) ==> !is_standard_id(x) && !is_tough_id(x),
            forall|x: Seq<char>| is_standard_id(x) ==> !is_tough_id(x),
            forall|i: int| 0 <= i < spec_minion_ids().len() ==> is_minion_id(#[trigger] spec_minion_ids()[i]),
            forall|i: int| 0 <= i < spec_standard_ids().len() ==> is_standard_id(#[trigger] spec_standard_ids()[i]),
            forall|i: int| 0 <= i < spec_tough_ids().len() ==> is_tough_id(#[trigger] spec_tough_ids()[i]),
            forall|x: Seq<char>| is_minion_id(x) ==> spec_minion_ids().contains(x),
            forall|x: Seq<char>| is_standard_id(x) ==> spec_standard_ids().contains(x),
        decreases remaining,
    {
        let idx = rng.index_below(minions.len());
        let ghost pre = ids_view(enemy_ids@);
        enemy_ids.push(minions[idx].clone());
        proof {
            assert(ids_view(enemy_ids@) =~= pre.push(spec_minion_ids()[idx as int]));
            assert(ids_view(enemy_ids@).drop_last() =~= pre);
        }
        remaining = remaining - 1;
    }
    // Upgrade minions to standard enemies (1 more each).
    let mut upgrading = true;
    while upgrading && remaining >= 1
        invariant
            enemy_ids@.len() <= MAX_ENEMIES,
            rng.spec_seed() == seed,
            spent(ids_view(enemy_ids@)) + remaining == budget,
            enemy_ids@.len() > 0 ==> remaining >= 0,
            budget <= 0 ==> enemy_ids@.len() == 0,
            budget >= 1 ==> enemy_ids@.len() >= 1,
            !upgrading ==> forall|i: int| 0 <= i < enemy_ids@.len() ==> !is_minion_id(#[trigger] ids_view(enemy_ids@)[i]),
            forall|i: int| 0 <= i < enemy_ids@.len() ==> is_minion_id(#[trigger] ids_view(enemy_ids@)[i]) || is_standard_id(ids_view(enemy_ids@)[i]) || (act >= 2 && is_tough_id(ids_view(enemy_ids@)[i])),
            ids_view(minions@) == spec_minion_ids(),
            ids_view(standards@) == spec_standard_ids(),
            ids_view(tough@) == spec_tough_ids(),
            minions@.len() == 11 && standards@.len() == 20 && tough@.len() == 11,
            forall|x: Seq<char>| is_minion_id(x) ==> !is_standard_id(x) && !is_tough_id(x),
            forall|x: Seq<char>| is_standard_id(x) ==> !is_tough_id(x),
            forall|i: int| 0 <= i < spec_minion_ids().len() ==> is_minion_id(#[trigger] spec_minion_ids()[i]),
            forall|i: int| 0 <= i < spec_standard_ids().len() ==> is_standard_id(#[trigger] spec_standard_ids()[i]),
            forall|i: int| 0 <= i < spec_tough_ids().len() ==> is_tough_id(#[trigger] spec_tough_ids()[i]),
            forall|x: Seq<char>| is_minion_id(x) ==> spec_minion_ids().contains(x),
            forall|x: Seq<char>| is_standard_id(x) ==> spec_standard_ids().contains(x),
        decreases (remaining as int) + (if upgrading { 1int } else { 0int }),
    {
        match first_listed(&enemy_ids, &minions) {
            Some(pos) => {
                let idx = rng.index_below(standards.len());
                let ghost pre = ids_view(enemy_ids@);
                enemy_ids.set(pos, standards[idx].clone());
                proof {
                    assert(ids_view(enemy_ids@) =~= pre.update(pos as int, spec_standard_ids()[idx as int]));
                    lemma_spent_update(pre, pos as int, spec_standard_ids()[idx as int]);
                }
                remaining = remaining - 1;
            },
            None => {
                proof {
                    assert forall|i: int| 0 <= i < enemy_ids@.len() implies !is_minion_id(#[trigger] ids_view(enemy_ids@)[i]) by {
                        assert(!ids_view(minions@).contains(enemy_ids@[i]@));
                    }
                }
                upgrading = false;
            },
        }
    }
    // Upgrade standard enemies to tough ones (2 more each), act 2 on only.
    upgrading = true;
    while upgrading && remaining >= 2 && act >= 2
        invariant
            enemy_ids@.len() <= MAX_ENEMIES,
            rng.spec_seed() == seed,
            spent(ids_view(enemy_ids@)) + remaining == budget,
            enemy_ids@.len() > 0 ==> remaining >= 0,
            budget <= 0 ==> enemy_ids@.len() == 0,
            budget >= 1 ==> enemy_ids@.len() >= 1,
            remaining >= 1 ==> forall|i: int| 0 <= i < enemy_ids@.len() ==> !is_minion_id(#[trigger] ids_view(enemy_ids@)[i]),
            !upgrading ==> forall|i: int| 0 <= i < enemy_ids@.len() ==> !is_standard_id(#[trigger] ids_view(enemy_ids@)[i]),
            forall|i: int| 0 <= i < enemy_ids@.len() ==> is_minion_id(#[trigger] ids_view(enemy_ids@)[i]) || is_standard_id(ids_view(enemy_ids@)[i]) || (act >= 2 && is_tough_id(ids_view(enemy_ids@)[i])),
            ids_view(standards@) == spec_standard_ids(),
            ids_view(tough@) == spec_tough_ids(),
            standards@.len() == 20 && tough@.len() == 11,
            forall|x: Seq<char>| is_minion_id(x) ==> !is_standard_id(x) && !is_tough_id(x),
            forall|x: Seq<char>| is_standard_id(x) ==> !is_tough_id(x),
            forall|i: int| 0 <= i < spec_standard_ids().len() ==> is_standard_id(#[trigger] spec_standard_ids()[i]),
            forall|i: int| 0 <= i < spec_tough_ids().len() ==> is_tough_id(#[trigger] spec_tough_ids()[i]),
            forall|x: Seq<char>| is_standard_id(x) ==> spec_standard_ids().contains(x),
        decreases (remaining as int) + (if upgrading { 1int } else { 0int }),
    {
        match first_listed(&enemy_ids, &standards) {
            Some(pos) => {
                let idx = rng.index_below(tough.len());
                let ghost pre = ids_view(enemy_ids@);
                enemy_ids.set(pos, tough[idx].clone());
                proof {
                    assert(ids_view(enemy_ids@) =~= pre.update(pos as int, spec_tough_ids()[idx as int]));
                    lemma_spent_update(pre, pos as int, spec_tough_ids()[idx as int]);
                }
                remaining = remaining - 2;
            },
            None => {
                proof {
                    assert forall|i: int| 0 <= i < enemy_ids@.len() implies !is_standard_id(#[trigger] ids_view(enemy_ids@)[i]) by {
                        assert(!ids_view(standards@).contains(enemy_ids@[i]@));
                    }
                }
                upgrading = false;
            },
        }
    }
    // At least one enemy.
    if enemy_ids.len() == 0 {
        let idx = rng.index_below(standards.len());
        enemy_ids.push(standards[idx].clone());
        proof {
            assert(ids_view(enemy_ids@) =~= seq![spec_standard_ids()[idx as int]]);
        }
    }
    proof {
        lemma_spent_nonneg(ids_view(enemy_ids@));
        assert(fill_post(ids_view(enemy_ids@), budget as int, act));
        law_procedural_encounter_shape(ids_view(enemy_ids@), budget as int, act);
        assert forall|i: int| 0 <= i < enemy_ids@.len() implies ids_view(enemy_ids@)[i] == (#[trigger] enemy_ids@[i])@ by {}
    }
    enemy_ids
}

/// The budget range of a procedural fight: 2–3 for the first four fights of
/// an act, 3–5 for the next four, 4–6 after, plus 1 in act 2 and 2 from
/// act 3.
pub open spec fn spec_budget_range(fight_index: usize, act: u32) -> (int, int) {
    let bonus: int = if act == 1 { 0 } else if act == 2 { 1 } else { 2 };
    if fight_index <= 3 {
        (2 + bonus, 3 + bonus)
    } else if fight_index <= 7 {
        (3 + bonus, 5 + bonus)
    } else {
        (4 + bonus, 6 + bonus)
    }
}

/// A procedural encounter for the given fight (0-based within the act) and
/// act: a budget drawn from `spec_budget_range`, spent by `fill_encounter`.
pub fn gauntlet_encounter(fight_index: usize, act: u32, rng: &mut GameRng) -> (r: Vec<EnemyId>)
    ensures
        exists|budget: int| spec_budget_range(fight_index, act).0 <= budget <= spec_budget_range(fight_index, act).1
            && fill_post(ids_view(r@), budget, act),
        1 <= r@.len() <= MAX_ENEMIES,
        forall|i: int| 0 <= i < r@.len() ==> spec_minion_ids().contains(#[trigger] r@[i]@) || spec_standard_ids().contains(r@[i]@)
            || spec_tough_ids().contains(r@[i]@),
        act < 2 ==> forall|i: int| 0 <= i < r@.len() ==> !spec_tough_ids().contains(#[trigger] r@[i]@),
        final(rng).spec_seed() == old(rng).spec_seed(),
{
    let act_bonus: i32 = if act == 1 {
        0
    } else if act == 2 {
        1
    } else {
        2
    };
    let budget = if fight_index <= 3 {
        rng.range(2, 3) + act_bonus
    } else if fight_index <= 7 {
        rng.range(3, 5) + act_bonus
    } else {
        rng.range(4, 6) + act_bonus
    };
    let r = fill_encounter(budget, act, rng);
    proof {
        assert(spec_budget_range(fight_index, act).0 <= budget <= spec_budget_range(fight_index, act).1
            && fill_post(ids_view(r@), budget as int, act));
    }
    r
}

/// An encounter for the player level: one of the curated table's
/// encounters for levels up to 12, a procedural one beyond.
pub fn encounter_for_level(player_level: u32, fight_index: usize, act: u32, rng: &mut GameRng) -> (r: Vec<EnemyId>)
    ensures
        1 <= r@.len() <= MAX_ENEMIES,
        match spec_curated_for_level(player_level) {
            Some(table) => exists|k: int| 0 <= k < table.len() && ids_view(r@) == (#[trigger] table[k]).4,
            None => exists|budget: int| spec_budget_range(fight_index, act).0 <= budget <= spec_budget_range(fight_index, act).1
                && fill_post(ids_view(r@), budget, act),
        },
        final(rng).spec_seed() == old(rng).spec_seed(),
{
    match curated_templates_for_level(player_level) {
        Some(templates) => {
            proof {
                assert(templates_view(templates@).len() == templates@.len());
            }
            let idx = rng.index_below(templates.len());
            let r = templates[idx].to_enemy_ids();
            proof {
                let table = spec_curated_for_level(player_level).unwrap();
                assert(ids_view(r@) == table[idx as int].4);
                lemma_level_1_valid();
                lemma_level_2_valid();
                lemma_level_3_valid();
                lemma_level_4_valid();
                lemma_level_5_valid();
                lemma_level_7_valid();
                lemma_level_9_valid();
                lemma_level_11_valid();
                assert(template_valid(table[idx as int], table[idx as int].1));
            }
            r
        },
        None => gauntlet_encounter(fight_index, act, rng),
    }
}

/// The boss encounter of an act: its boss alone.
pub fn boss_encounter(act: u32) -> (r: Vec<EnemyId>)
    ensures
        r@.len() == 1,
        r@[0]@ == (if act == 1 {
            "ogre_warchief"@
        } else if act == 2 {
            "pale_warden"@
        } else {
            "dragon_wyrm"@
        }),
{
    vec![boss_for_act(act)]
}

/// The curated level-1 encounters in turn, by index.
pub fn early_encounter(index: usize) -> (r: Vec<EnemyId>)
    ensures
        ids_view(r@) == spec_level_1_encounters()[(index as int) % (spec_level_1_encounters().len() as int)].4,
{
    let table = level_1_encounters();
    let template_index = index % table.len();
    table[template_index].to_enemy_ids()
}

/// Every procedural encounter (any outcome of the draws) holds one to
/// `MAX_ENEMIES` enemies, each of the minion, standard or tough list, and
/// none of the tough list before act 2.
pub proof fn law_procedural_encounter_shape(r: Seq<Seq<char>>, budget: int, act: u32)
    requires
        fill_post(r, budget, act),
    ensures
        1 <= r.len() <= MAX_ENEMIES,
        forall|i: int| 0 <= i < r.len() ==> spec_minion_ids().contains(#[trigger] r[i]) || spec_standard_ids().contains(r[i])
            || spec_tough_ids().contains(r[i]),
        act < 2 ==> forall|i: int| 0 <= i < r.len() ==> !spec_tough_ids().contains(#[trigger] r[i]),
{
    lemma_tier_tests_match_lists();
    lemma_tiers_disjoint();
    assert forall|i: int| 0 <= i < r.len() implies spec_minion_ids().contains(#[trigger] r[i]) || spec_standard_ids().contains(r[i])
        || spec_tough_ids().contains(r[i]) by {
        assert(is_minion_id(r[i]) || is_standard_id(r[i]) || is_tough_id(r[i]));
    }
    if act < 2 {
        assert forall|i: int| 0 <= i < r.len() implies !spec_tough_ids().contains(#[trigger] r[i]) by {
            assert(is_minion_id(r[i]) || is_standard_id(r[i]));
            assert(!is_tough_id(r[i]));
        }
    }
}

} // verus!
