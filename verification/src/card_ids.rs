//! Named card identifiers.

use vstd::prelude::*;

verus! {

// ── Basics (Universal) ──────────────────────────────────────────────────
pub const STRIKE: &'static str = "strike";
pub const DEFEND: &'static str = "defend";

// ── Curse ───────────────────────────────────────────────────────────────
pub const WOUND: &'static str = "wound";

// ── Fighter class cards ─────────────────────────────────────────────────
pub const SECOND_WIND: &'static str = "second_wind";
pub const ENERGY_SURGE: &'static str = "energy_surge";
pub const EXTRA_ATTACK: &'static str = "extra_attack";
pub const RALLY: &'static str = "rally";

// ── Fighter themed basics ───────────────────────────────────────────────
pub const BARBS: &'static str = "barbs";
pub const HEAVY_STRIKE: &'static str = "heavy_strike";
pub const MEASURED_STRIKE: &'static str = "measured_strike";

// ── Defense subclass progression ────────────────────────────────────────
pub const IRON_GUARD: &'static str = "iron_guard";
pub const SHIELD_BASH: &'static str = "shield_bash";
pub const BRACE: &'static str = "brace";
pub const UNBREAKABLE: &'static str = "unbreakable";

// ── Two-Handed subclass progression ─────────────────────────────────────
pub const INTIMIDATING_BLOW: &'static str = "intimidating_blow";
pub const RECKLESS_ATTACK: &'static str = "reckless_attack";
pub const SUNDERING_BLOW: &'static str = "sundering_blow";
pub const REAVING_STRIKE: &'static str = "reaving_strike";

// ── Dueling subclass progression ────────────────────────────────────────
pub const SIZING_UP: &'static str = "sizing_up";
pub const PRECISE_CUT: &'static str = "precise_cut";
pub const EXPOSE_WEAKNESS: &'static str = "expose_weakness";
pub const CALCULATED_STRIKE: &'static str = "calculated_strike";
pub const READ_AND_REACT: &'static str = "read_and_react";
pub const FLURRY_OF_CUTS: &'static str = "flurry_of_cuts";
pub const DEFT_STRIKE: &'static str = "deft_strike";
pub const RIPOSTE: &'static str = "riposte";
pub const FEINT: &'static str = "feint";
pub const PATIENT_STRIKE: &'static str = "patient_strike";
pub const PERFECT_RHYTHM: &'static str = "perfect_rhythm";
pub const PERFECT_READ: &'static str = "perfect_read";

// ── Martial reward pool ────────────────────────────────────────────────
pub const POWER_STRIKE: &'static str = "power_strike";
pub const QUICK_SLASH: &'static str = "quick_slash";
pub const VICIOUS_STRIKE: &'static str = "vicious_strike";
pub const DOUBLE_STRIKE: &'static str = "double_strike";
pub const BRACE_FOR_IMPACT: &'static str = "brace_for_impact";
pub const HOLD_THE_LINE: &'static str = "hold_the_line";
pub const TAUNT: &'static str = "taunt";
pub const FOCUS: &'static str = "focus";
pub const MARTIAL_ASCENDANCY: &'static str = "martial_ascendancy";

// ── Legendary capstones ────────────────────────────────────────────────
pub const IRON_FORTRESS: &'static str = "iron_fortress";
pub const TITANS_FURY: &'static str = "titans_fury";
pub const COUP_DE_GRACE: &'static str = "coup_de_grace";

// ── New dueling progression cards ─────────────────────────────────────
pub const ADRENALINE_RUSH: &'static str = "adrenaline_rush";
pub const EXPLOIT_OPENING: &'static str = "exploit_opening";
pub const MOMENTUM: &'static str = "momentum";

// ── Race cards ────────────────────────────────────────────────────────
pub const IMPROVISE: &'static str = "improvise";
pub const FAE_ANCESTRY: &'static str = "fae_ancestry";
pub const BLOOD_PRICE: &'static str = "blood_price";
pub const STONEWALL: &'static str = "stonewall";
pub const FLASH_BANG: &'static str = "flash_bang";
pub const NIMBLE_DODGE: &'static str = "nimble_dodge";
pub const SAVAGE_CHARGE: &'static str = "savage_charge";
pub const SHIV: &'static str = "shiv";
pub const DRAGON_BREATH: &'static str = "dragon_breath";
pub const POUNCE: &'static str = "pounce";

// ── Background cards ────────────────────────────────────────────────────
pub const BATTLE_DISCIPLINE: &'static str = "battle_discipline";
pub const STUDIED_ANALYSIS: &'static str = "studied_analysis";
pub const MINOR_BLESSING: &'static str = "minor_blessing";
pub const DIRTY_TRICK: &'static str = "dirty_trick";
pub const COMMANDING_PRESENCE: &'static str = "commanding_presence";
pub const SURVIVAL_INSTINCT: &'static str = "survival_instinct";
pub const IMPROVISED_WEAPON: &'static str = "improvised_weapon";
pub const SEA_LEGS: &'static str = "sea_legs";
pub const BACKSTAB: &'static str = "backstab";
pub const INNER_FOCUS: &'static str = "inner_focus";
pub const RESOURCEFUL: &'static str = "resourceful";
pub const DAZZLE: &'static str = "dazzle";

// ── Defense subclass: Bulwark synergy group ─────────────────────────────
pub const FORTIFY: &'static str = "fortify";
pub const ENTRENCH: &'static str = "entrench";
pub const STALWART_DEFENSE: &'static str = "stalwart_defense";
pub const SHIELD_WALL: &'static str = "shield_wall";
pub const AEGIS_ETERNAL: &'static str = "aegis_eternal";

// ── Defense subclass: Reprisal synergy group ────────────────────────────
pub const SPIKED_ARMOR: &'static str = "spiked_armor";
pub const RETRIBUTION: &'static str = "retribution";
pub const THORNED_CARAPACE: &'static str = "thorned_carapace";
pub const BARBED_BULWARK: &'static str = "barbed_bulwark";
pub const WRATH_OF_THORNS: &'static str = "wrath_of_thorns";

// ── Two-Handed subclass: Crusher synergy group ──────────────────────────
pub const BRUTAL_SWING: &'static str = "brutal_swing";
pub const SAVAGE_PRESENCE: &'static str = "savage_presence";
pub const DEMOLISH: &'static str = "demolish";
pub const WRATH_OF_THE_GIANT: &'static str = "wrath_of_the_giant";
pub const EXECUTIONERS_BLOW: &'static str = "executioners_blow";

// ── Two-Handed subclass: Berserker synergy group ────────────────────────
pub const BLOOD_FRENZY: &'static str = "blood_frenzy";
pub const RAGING_BLOW: &'static str = "raging_blow";
pub const BERSERK_ROAR: &'static str = "berserk_roar";
pub const UNLEASH_FURY: &'static str = "unleash_fury";
pub const DEATHWISH: &'static str = "deathwish";

// ── Barbarian class card ────────────────────────────────────────────────
pub const BLOODLUST: &'static str = "bloodlust";

// ── Barbarian themed basics ─────────────────────────────────────────────
pub const RAGING_STRIKE: &'static str = "raging_strike";
pub const TOTEM_GUARD: &'static str = "totem_guard";
pub const FRENZIED_SLASH: &'static str = "frenzied_slash";

// ── Barbarian shared auto-grants ────────────────────────────────────────
pub const BATTLE_FURY: &'static str = "battle_fury";
pub const THICK_SKIN: &'static str = "thick_skin";
pub const PRIMAL_SURGE: &'static str = "primal_surge";
pub const UNDYING_RAGE: &'static str = "undying_rage";

// ── Berserker: Bloodrage synergy group ──────────────────────────────────
pub const BLOOD_OFFERING: &'static str = "blood_offering";
pub const FURY_UNLEASHED: &'static str = "fury_unleashed";
pub const BLOODBATH: &'static str = "bloodbath";
pub const PAIN_IS_POWER: &'static str = "pain_is_power";
pub const BERSERKER_DEATHWISH: &'static str = "berserker_deathwish";

// ── Berserker: Rampage synergy group ────────────────────────────────────
pub const WILD_SWING: &'static str = "wild_swing";
pub const BERSERK_FLURRY: &'static str = "berserk_flurry";
pub const SAVAGE_MOMENTUM: &'static str = "savage_momentum";
pub const UNSTOPPABLE: &'static str = "unstoppable";
pub const RAMPAGE: &'static str = "rampage";

// ── Totem Warrior: Spirit Shield synergy group ──────────────────────────
pub const SPIRIT_WARD: &'static str = "spirit_ward";
pub const ANCESTRAL_SHIELD: &'static str = "ancestral_shield";
pub const WARDING_TOTEM_CARD: &'static str = "warding_totem_card";
pub const FORTIFIED_RAGE: &'static str = "fortified_rage";
pub const UNBREAKING_SPIRIT: &'static str = "unbreaking_spirit";

// ── Totem Warrior: Ancestral synergy group ──────────────────────────────
pub const WAR_CRY: &'static str = "war_cry";
pub const SPIRIT_MEND: &'static str = "spirit_mend";
pub const VENGEFUL_ANCESTORS: &'static str = "vengeful_ancestors";
pub const TOTEM_OF_RENEWAL: &'static str = "totem_of_renewal";
pub const ANCESTORS_EMBRACE: &'static str = "ancestors_embrace";

// ── Frenzy: Adrenaline synergy group ────────────────────────────────────
pub const DESPERATE_STRIKE: &'static str = "desperate_strike";
pub const ADRENALINE_SPIKE: &'static str = "adrenaline_spike";
pub const FERAL_INSTINCT: &'static str = "feral_instinct";
pub const BERSERKERS_TRANCE_CARD: &'static str = "berserkers_trance_card";
pub const DEATHS_DOOR: &'static str = "deaths_door";

// ── Frenzy: Overwhelm synergy group ─────────────────────────────────────
pub const FLAILING_STRIKE: &'static str = "flailing_strike";
pub const FRENZY_CARD: &'static str = "frenzy_card";
pub const WHIRLWIND_FURY: &'static str = "whirlwind_fury";
pub const ONE_THOUSAND_CUTS: &'static str = "one_thousand_cuts";

// ── Monk class card ─────────────────────────────────────────────────────
pub const INNER_PEACE: &'static str = "inner_peace";

// ── Monk shared pool (level 1) ──────────────────────────────────────────
pub const KI_FOCUS: &'static str = "ki_focus";
pub const KI_STRIKE: &'static str = "ki_strike";
pub const KI_GUARD: &'static str = "ki_guard";

// ── Monk shared auto-grants ─────────────────────────────────────────────
pub const CENTERED_STRIKE: &'static str = "centered_strike";
pub const SWIFT_FOOTWORK: &'static str = "swift_footwork";
pub const KI_SURGE: &'static str = "ki_surge";
pub const MEDITATION: &'static str = "meditation";

// ── Open Hand: Flurry synergy ───────────────────────────────────────────
pub const RAPID_STRIKES: &'static str = "rapid_strikes";
pub const PALM_STRIKE: &'static str = "palm_strike";
pub const WHIRLWIND_KICK: &'static str = "whirlwind_kick";
pub const HUNDRED_FISTS: &'static str = "hundred_fists";
pub const ENDLESS_BARRAGE: &'static str = "endless_barrage";

// ── Open Hand: Ki Burst synergy ─────────────────────────────────────────
pub const FOCUSED_STRIKE: &'static str = "focused_strike";
pub const KI_SHIELD: &'static str = "ki_shield";
pub const KI_CHANNELING: &'static str = "ki_channeling";
pub const QUIVERING_PALM: &'static str = "quivering_palm";

// ── Open Hand: Ultimate ─────────────────────────────────────────────────
pub const TRANSCENDENCE: &'static str = "transcendence";

// ── Way of Shadow: Pressure Point synergy ───────────────────────────────
pub const NERVE_STRIKE: &'static str = "nerve_strike";
pub const PRESSURE_POINT_STRIKE: &'static str = "pressure_point_strike";
pub const DIM_MAK: &'static str = "dim_mak";
pub const CRIPPLING_BLOW: &'static str = "crippling_blow";
pub const WEAKENING_AURA: &'static str = "weakening_aura";
pub const DEATH_TOUCH: &'static str = "death_touch";

// ── Way of Shadow: Evasion synergy ──────────────────────────────────────
pub const SHADOW_STEP: &'static str = "shadow_step";
pub const DEFLECTING_PALM: &'static str = "deflecting_palm";
pub const COUNTER_STANCE: &'static str = "counter_stance";
pub const PHANTOM_FORM: &'static str = "phantom_form";

// ── Way of Shadow: Ultimate ─────────────────────────────────────────────
pub const SHADOW_KILL: &'static str = "shadow_kill";

// ── Iron Fist: Stance Flow synergy ──────────────────────────────────────
pub const STANCE_SHIFT: &'static str = "stance_shift";
pub const TIGERS_FURY: &'static str = "tigers_fury";
pub const CRANES_WING: &'static str = "cranes_wing";
pub const FLOWING_WATER: &'static str = "flowing_water";
pub const MONK_DRAGONS_BREATH: &'static str = "monk_dragons_breath";
pub const PERFECT_HARMONY: &'static str = "perfect_harmony";

// ── Iron Fist: Iron Will synergy ────────────────────────────────────────
pub const IRON_SKIN: &'static str = "iron_skin";
pub const KI_BARRIER: &'static str = "ki_barrier";
pub const STONE_BODY: &'static str = "stone_body";
pub const DIAMOND_SOUL: &'static str = "diamond_soul";

// ── Iron Fist: Ultimate ─────────────────────────────────────────────────
pub const FIST_OF_NORTH_STAR: &'static str = "fist_of_north_star";

// ── Warlock class cards ─────────────────────────────────────────────────
pub const ELDRITCH_BLAST: &'static str = "eldritch_blast";
pub const HEX: &'static str = "hex";

// ── Warlock shared cards ────────────────────────────────────────────────
pub const DARK_BARGAIN: &'static str = "dark_bargain";
pub const MALEDICT: &'static str = "maledict";
pub const PACT_BARRIER: &'static str = "pact_barrier";
pub const SIPHON_BOLT: &'static str = "siphon_bolt";

// ── Warlock Infernal: Infernal Burn synergy ─────────────────────────────
pub const HELLBRAND: &'static str = "hellbrand";
pub const CINDER_FEAST: &'static str = "cinder_feast";
pub const BALEFIRE_CATACLYSM: &'static str = "balefire_cataclysm";

// ── Warlock Infernal: Infernal Sustain synergy ──────────────────────────
pub const BLOOD_TITHE: &'static str = "blood_tithe";
pub const FEAST_OF_CINDERS: &'static str = "feast_of_cinders";

// ── Warlock Hexblade: Hexblade Duel synergy ─────────────────────────────
pub const PACT_BLADE: &'static str = "pact_blade";
pub const SOUL_PARRY: &'static str = "soul_parry";
pub const DUSK_DUEL: &'static str = "dusk_duel";

// ── Warlock Hexblade: Hexblade Curse synergy ────────────────────────────
pub const BRAND_THE_WEAK: &'static str = "brand_the_weak";
pub const BLACK_OATH: &'static str = "black_oath";

// ── Warlock Void: Void Debuff synergy ───────────────────────────────────
pub const VOID_GAZE: &'static str = "void_gaze";
pub const STARLESS_WHISPER: &'static str = "starless_whisper";
pub const ENTROPY_FIELD: &'static str = "entropy_field";

// ── Warlock Void: Void Annihilation synergy ─────────────────────────────
pub const OBLIVION_TIDE: &'static str = "oblivion_tide";
pub const COSMIC_EXTINCTION: &'static str = "cosmic_extinction";

// ── Paladin shared cards ───────────────────────────────────────────────
pub const HOLY_STRIKE: &'static str = "holy_strike";
pub const LAY_ON_HANDS: &'static str = "lay_on_hands";
pub const PRAYER_OF_VALOR: &'static str = "prayer_of_valor";
pub const CONSECRATION: &'static str = "consecration";
pub const DIVINE_BULWARK: &'static str = "divine_bulwark";

// ── Paladin: Devotion style ────────────────────────────────────────────
pub const WARDING_SLASH: &'static str = "warding_slash";
pub const SHIELD_OF_FAITH: &'static str = "shield_of_faith";
pub const BASTION_DRIVE: &'static str = "bastion_drive";
pub const HOLY_BASTION: &'static str = "holy_bastion";

// ── Paladin: Vengeance style ───────────────────────────────────────────
pub const AVENGING_STRIKE: &'static str = "avenging_strike";
pub const BLADE_OF_WRATH: &'static str = "blade_of_wrath";
pub const DIVINE_JUDGMENT: &'static str = "divine_judgment";
pub const ZEALOUS_RUSH: &'static str = "zealous_rush";

// ── Paladin: Radiance style ───────────────────────────────────────────
pub const RADIANT_BURST: &'static str = "radiant_burst";
pub const BEACON_OF_LIGHT: &'static str = "beacon_of_light";
pub const SOLAR_FLARE: &'static str = "solar_flare";
pub const DAWNS_BLESSING: &'static str = "dawns_blessing";

// ── Paladin: Capstone ──────────────────────────────────────────────────
pub const AVATAR_OF_RADIANCE: &'static str = "avatar_of_radiance";

// ── Rogue class card ──────────────────────────────────────────────────
pub const TRICKS_OF_THE_TRADE: &'static str = "tricks_of_the_trade";

// ── Rogue shared auto-grants ─────────────────────────────────────────
pub const SNEAK_ATTACK: &'static str = "sneak_attack";
pub const CUNNING_ACTION: &'static str = "cunning_action";
pub const ROGUE_EVASION: &'static str = "rogue_evasion";
pub const PREPARATION: &'static str = "preparation";

// ── Assassin synergy: assassination ──────────────────────────────────
pub const ASSASSINATE: &'static str = "assassinate";
pub const ROGUE_SHADOW_STEP: &'static str = "rogue_shadow_step";
pub const DEATH_MARK: &'static str = "death_mark";
pub const KILLING_BLOW: &'static str = "killing_blow";

// ── Pirate synergy: pirate_blade / pirate_trick ─────────────────────
pub const CUTLASS_FLURRY: &'static str = "cutlass_flurry";
pub const GRAPPLING_HOOK: &'static str = "grappling_hook";
pub const DIRTY_FIGHTING: &'static str = "dirty_fighting";
pub const BROADSIDE: &'static str = "broadside";

// ── Trickster synergy: trickster_smoke / trickster_finesse ──────────
pub const SMOKE_BOMB: &'static str = "smoke_bomb";
pub const MISDIRECTION: &'static str = "misdirection";
pub const FAN_OF_KNIVES: &'static str = "fan_of_knives";
pub const ACE_IN_THE_HOLE: &'static str = "ace_in_the_hole";

// ── Druid class cards ──────────────────────────────────────────────────
pub const WILD_SHAPE_BEAR: &'static str = "wild_shape_bear";
pub const WILD_SHAPE_EAGLE: &'static str = "wild_shape_eagle";
pub const WILD_SHAPE_WOLF: &'static str = "wild_shape_wolf";
pub const NATURES_WRATH: &'static str = "natures_wrath";

// ── Druid shared pool / auto-grants ────────────────────────────────────
pub const BARK_SKIN: &'static str = "bark_skin";
pub const REJUVENATION: &'static str = "rejuvenation";
pub const MOONBEAM: &'static str = "moonbeam";
pub const ENTANGLE: &'static str = "entangle";

// ── Bear synergy ───────────────────────────────────────────────────────
pub const BEAR_MAUL: &'static str = "bear_maul";
pub const THICK_HIDE: &'static str = "thick_hide";
pub const URSINE_CHARGE: &'static str = "ursine_charge";
pub const PRIMAL_ROAR: &'static str = "primal_roar";

// ── Eagle synergy ──────────────────────────────────────────────────────
pub const EAGLE_DIVE: &'static str = "eagle_dive";
pub const SWOOPING_STRIKE: &'static str = "swooping_strike";
pub const WIND_RIDER: &'static str = "wind_rider";
pub const TEMPEST_TALONS: &'static str = "tempest_talons";

// ── Wolf synergy ───────────────────────────────────────────────────────
pub const PACK_TACTICS: &'static str = "pack_tactics";
pub const HOWL: &'static str = "howl";
pub const COORDINATED_STRIKE: &'static str = "coordinated_strike";
pub const ALPHAS_COMMAND: &'static str = "alphas_command";

// ── Druid capstone ─────────────────────────────────────────────────────
pub const ARCHDRUID: &'static str = "archdruid";

// ── Wizard shared cards ────────────────────────────────────────────────
pub const FIRE_BOLT: &'static str = "fire_bolt";
pub const MAGE_ARMOR: &'static str = "mage_armor";
pub const ARCANE_INTELLECT: &'static str = "arcane_intellect";
pub const SHIELD_SPELL: &'static str = "shield_spell";

// ── Wizard themed basics (subclass starters) ──────────────────────────
pub const EMBER_BOLT: &'static str = "ember_bolt";
pub const ARCANE_WARD: &'static str = "arcane_ward";
pub const PRESCIENCE: &'static str = "prescience";

// ── Evocation subclass progression ────────────────────────────────────
pub const FIREBALL: &'static str = "fireball";
pub const SCORCHING_RAY: &'static str = "scorching_ray";
pub const LIGHTNING_BOLT: &'static str = "lightning_bolt";
pub const FLAME_SHIELD: &'static str = "flame_shield";

// ── Abjuration subclass progression ───────────────────────────────────
pub const COUNTERSPELL: &'static str = "counterspell";
pub const WARD: &'static str = "ward";
pub const DISPEL: &'static str = "dispel";
pub const GLOBE_OF_PROTECTION: &'static str = "globe_of_protection";

// ── Divination subclass progression ───────────────────────────────────
pub const FORESIGHT: &'static str = "foresight";
pub const SCRYING: &'static str = "scrying";
pub const PORTENT: &'static str = "portent";
pub const TIME_STOP: &'static str = "time_stop";

// ── Wizard capstone ───────────────────────────────────────────────────
pub const WISH: &'static str = "wish";

// ── Sorcerer starter cards: Wild Mage ─────────────────────────────────
pub const SPARK_BOLT: &'static str = "spark_bolt";
pub const CHANNEL: &'static str = "channel";
pub const SURGE_WAVE: &'static str = "surge_wave";
pub const ARCANE_SHIELD: &'static str = "arcane_shield";
pub const WILD_SURGE: &'static str = "wild_surge";

// ── Sorcerer starter cards: Draconic Bloodline ────────────────────────
pub const CLAW_STRIKE: &'static str = "claw_strike";
pub const SCALE_WARD: &'static str = "scale_ward";
pub const DRACONIC_FOCUS: &'static str = "draconic_focus";
pub const DRAGONS_RESILIENCE: &'static str = "dragons_resilience";
pub const DRACONIC_BOLT: &'static str = "draconic_bolt";

// ── Sorcerer starter cards: Shadow Sorcerer ───────────────────────────
pub const SHADOW_BOLT: &'static str = "shadow_bolt";
pub const DARK_SHROUD: &'static str = "dark_shroud";
pub const SIPHON: &'static str = "siphon";
pub const NIGHT_VEIL: &'static str = "night_veil";
pub const UMBRAL_STRIKE: &'static str = "umbral_strike";

// ── Sorcerer shared pool cards ─────────────────────────────────────────
pub const ARCANE_PULSE: &'static str = "arcane_pulse";
pub const MANA_INFUSION: &'static str = "mana_infusion";
pub const SPELL_SURGE: &'static str = "spell_surge";
pub const OVERLOAD: &'static str = "overload";

// ── Wild Mage pool: Surge synergy ─────────────────────────────────────
pub const VOLATILE_BURST: &'static str = "volatile_burst";
pub const CHAIN_LIGHTNING: &'static str = "chain_lightning";
pub const SURGE_NOVA: &'static str = "surge_nova";
pub const WILD_DISCHARGE: &'static str = "wild_discharge";
pub const SORCERER_CATACLYSM: &'static str = "sorcerer_cataclysm";

// ── Wild Mage pool: Chaos synergy ─────────────────────────────────────
pub const CHAOS_BOLT: &'static str = "chaos_bolt";
pub const UNRAVELING_HEX: &'static str = "unraveling_hex";
pub const ENTROPY_CASCADE: &'static str = "entropy_cascade";
pub const SORCERER_PANDEMONIUM: &'static str = "sorcerer_pandemonium";

// ── Draconic pool: Heritage synergy ───────────────────────────────────
pub const DRAGON_SCALE: &'static str = "dragon_scale";
pub const ANCESTRAL_RESILIENCE: &'static str = "ancestral_resilience";
pub const SCALED_REBUKE: &'static str = "scaled_rebuke";
pub const PRIMORDIAL_RESILIENCE: &'static str = "primordial_resilience";

// ── Draconic pool: Wrath synergy ──────────────────────────────────────
pub const SORCERER_DRAGONS_BREATH: &'static str = "sorcerer_dragons_breath";
pub const DRACONIC_SURGE: &'static str = "draconic_surge";
pub const ANCIENT_POWER: &'static str = "ancient_power";
pub const DRAGONFIRE_ASCENSION: &'static str = "dragonfire_ascension";

// ── Shadow Sorcerer pool: Drain synergy ───────────────────────────────
pub const SHADOW_TAP: &'static str = "shadow_tap";
pub const NECROTIC_SIPHON: &'static str = "necrotic_siphon";
pub const LIFE_DRAIN: &'static str = "life_drain";
pub const VOID_FEAST: &'static str = "void_feast";
pub const ETERNAL_HUNGER: &'static str = "eternal_hunger";

// ── Shadow Sorcerer pool: Terrors synergy ─────────────────────────────
pub const DREAD_BOLT: &'static str = "dread_bolt";
pub const TERRORIZE: &'static str = "terrorize";
pub const SHADOW_EXPLOIT: &'static str = "shadow_exploit";
pub const FINAL_NIGHTMARE: &'static str = "final_nightmare";

// ── Sorcerer ultimate ─────────────────────────────────────────────────
pub const SORCERERS_APOTHEOSIS: &'static str = "sorcerers_apotheosis";

} // verus!
