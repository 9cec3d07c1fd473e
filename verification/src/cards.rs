//! Card definitions: every card of the content set, built from a few
//! per-class constructors, and the progression table that says which cards
//! a run can obtain, for whom and when.

use vstd::prelude::*;

use crate::card::{CardDef, CardId, CardType, Effect, Rarity, Target};
use crate::class::{CardTag, Class};
use crate::rng::GameRng;
use crate::starter_decks::{deck_ids_view, fighter_starter_deck, is_fighter_subclass, spec_starter_ids};
use crate::status::StatusType;

verus! {

/// The view of an optional string.
pub open spec fn opt_str_view(o: Option<String>) -> Option<Seq<char>> {
    match o {
        Some(s) => Some(s@),
        None => None,
    }
}

/// Whether a definition holds exactly these fields.
pub open spec fn card_fields(
    d: CardDef,
    id: Seq<char>,
    name: Seq<char>,
    rarity: Rarity,
    cost: int,
    card_type: CardType,
    effects: Seq<Effect>,
    description: Seq<char>,
    class: Option<Class>,
    subclass: Option<Seq<char>>,
    tags: Seq<CardTag>,
    exhaust: bool,
    recycle: bool,
    concentration: bool,
    innate: bool,
    milestone: bool,
    inherent: bool,
) -> bool {
    &&& d.id@ == id
    &&& d.name@ == name
    &&& d.rarity == rarity
    &&& d.cost == cost
    &&& d.card_type == card_type
    &&& d.effects@ =~= effects
    &&& d.description@ == description
    &&& d.class == class
    &&& opt_str_view(d.subclass) == subclass
    &&& d.tags@ =~= tags
    &&& d.exhaust == exhaust
    &&& d.recycle == recycle
    &&& d.concentration == concentration
    &&& d.innate == innate
    &&& d.milestone == milestone
    &&& d.inherent == inherent
}

// ── Constructors ────────────────────────────────────────────────────────

/// A common spell of no class with no tags or flags.
fn universal(id: &str, name: &str, cost: i32, effects: Vec<Effect>, desc: &str) -> (r: CardDef)
    ensures
        card_fields(r, id@, name@, Rarity::Common, cost as int, CardType::Spell, effects@, desc@, None, None, seq![], false, false, false, false, false, false),
{
    CardDef {
        id: id.to_string(),
        name: name.to_string(),
        rarity: Rarity::Common,
        cost,
        card_type: CardType::Spell,
        exhaust: false,
        effects,
        description: desc.to_string(),
        class: None,
        subclass: None,
        tags: Vec::new(),
        recycle: false,
        concentration: false,
        innate: false,
        milestone: false,
        inherent: false,
    }
}

/// A common spell of the Fighter class with no tags or flags.
fn fighter(id: &str, name: &str, cost: i32, effects: Vec<Effect>, desc: &str) -> (r: CardDef)
    ensures
        card_fields(r, id@, name@, Rarity::Common, cost as int, CardType::Spell, effects@, desc@, Some(Class::Fighter), None, seq![], false, false, false, false, false, false),
{
    CardDef {
        id: id.to_string(),
        name: name.to_string(),
        rarity: Rarity::Common,
        cost,
        card_type: CardType::Spell,
        exhaust: false,
        effects,
        description: desc.to_string(),
        class: Some(Class::Fighter),
        subclass: None,
        tags: Vec::new(),
        recycle: false,
        concentration: false,
        innate: false,
        milestone: false,
        inherent: false,
    }
}

/// A common spell of the Fighter class with no tags or flags, of the given sub-class.
fn fighter_sc(id: &str, name: &str, subclass: &str, cost: i32, effects: Vec<Effect>, desc: &str) -> (r: CardDef)
    ensures
        card_fields(r, id@, name@, Rarity::Common, cost as int, CardType::Spell, effects@, desc@, Some(Class::Fighter), Some(subclass@), seq![], false, false, false, false, false, false),
{
    CardDef {
        id: id.to_string(),
        name: name.to_string(),
        rarity: Rarity::Common,
        cost,
        card_type: CardType::Spell,
        exhaust: false,
        effects,
        description: desc.to_string(),
        class: Some(Class::Fighter),
        subclass: Some(subclass.to_string()),
        tags: Vec::new(),
        recycle: false,
        concentration: false,
        innate: false,
        milestone: false,
        inherent: false,
    }
}

/// A common spell of the Barbarian class with no tags or flags.
fn barbarian(id: &str, name: &str, cost: i32, effects: Vec<Effect>, desc: &str) -> (r: CardDef)
    ensures
        card_fields(r, id@, name@, Rarity::Common, cost as int, CardType::Spell, effects@, desc@, Some(Class::Barbarian), None, seq![], false, false, false, false, false, false),
{
    CardDef {
        id: id.to_string(),
        name: name.to_string(),
        rarity: Rarity::Common,
        cost,
        card_type: CardType::Spell,
        exhaust: false,
        effects,
        description: desc.to_string(),
        class: Some(Class::Barbarian),
        subclass: None,
        tags: Vec::new(),
        recycle: false,
        concentration: false,
        innate: false,
        milestone: false,
        inherent: false,
    }
}

/// A common spell of the Barbarian class with no tags or flags, of the given sub-class.
fn barbarian_sc(id: &str, name: &str, subclass: &str, cost: i32, effects: Vec<Effect>, desc: &str) -> (r: CardDef)
    ensures
        card_fields(r, id@, name@, Rarity::Common, cost as int, CardType::Spell, effects@, desc@, Some(Class::Barbarian), Some(subclass@), seq![], false, false, false, false, false, false),
{
    CardDef {
        id: id.to_string(),
        name: name.to_string(),
        rarity: Rarity::Common,
        cost,
        card_type: CardType::Spell,
        exhaust: false,
        effects,
        description: desc.to_string(),
        class: Some(Class::Barbarian),
        subclass: Some(subclass.to_string()),
        tags: Vec::new(),
        recycle: false,
        concentration: false,
        innate: false,
        milestone: false,
        inherent: false,
    }
}

/// A common spell of the Monk class with no tags or flags.
fn monk(id: &str, name: &str, cost: i32, effects: Vec<Effect>, desc: &str) -> (r: CardDef)
    ensures
        card_fields(r, id@, name@, Rarity::Common, cost as int, CardType::Spell, effects@, desc@, Some(Class::Monk), None, seq![], false, false, false, false, false, false),
{
    CardDef {
        id: id.to_string(),
        name: name.to_string(),
        rarity: Rarity::Common,
        cost,
        card_type: CardType::Spell,
        exhaust: false,
        effects,
        description: desc.to_string(),
        class: Some(Class::Monk),
        subclass: None,
        tags: Vec::new(),
        recycle: false,
        concentration: false,
        innate: false,
        milestone: false,
        inherent: false,
    }
}

/// A common spell of the Monk class with no tags or flags, of the given sub-class.
fn monk_sc(id: &str, name: &str, subclass: &str, cost: i32, effects: Vec<Effect>, desc: &str) -> (r: CardDef)
    ensures
        card_fields(r, id@, name@, Rarity::Common, cost as int, CardType::Spell, effects@, desc@, Some(Class::Monk), Some(subclass@), seq![], false, false, false, false, false, false),
{
    CardDef {
        id: id.to_string(),
        name: name.to_string(),
        rarity: Rarity::Common,
        cost,
        card_type: CardType::Spell,
        exhaust: false,
        effects,
        description: desc.to_string(),
        class: Some(Class::Monk),
        subclass: Some(subclass.to_string()),
        tags: Vec::new(),
        recycle: false,
        concentration: false,
        innate: false,
        milestone: false,
        inherent: false,
    }
}

/// A common spell of the Paladin class with no tags or flags.
fn paladin(id: &str, name: &str, cost: i32, effects: Vec<Effect>, desc: &str) -> (r: CardDef)
    ensures
        card_fields(r, id@, name@, Rarity::Common, cost as int, CardType::Spell, effects@, desc@, Some(Class::Paladin), None, seq![], false, false, false, false, false, false),
{
    CardDef {
        id: id.to_string(),
        name: name.to_string(),
        rarity: Rarity::Common,
        cost,
        card_type: CardType::Spell,
        exhaust: false,
        effects,
        description: desc.to_string(),
        class: Some(Class::Paladin),
        subclass: None,
        tags: Vec::new(),
        recycle: false,
        concentration: false,
        innate: false,
        milestone: false,
        inherent: false,
    }
}

/// A common spell of the Paladin class with no tags or flags, of the given sub-class.
fn paladin_sc(id: &str, name: &str, subclass: &str, cost: i32, effects: Vec<Effect>, desc: &str) -> (r: CardDef)
    ensures
        card_fields(r, id@, name@, Rarity::Common, cost as int, CardType::Spell, effects@, desc@, Some(Class::Paladin), Some(subclass@), seq![], false, false, false, false, false, false),
{
    CardDef {
        id: id.to_string(),
        name: name.to_string(),
        rarity: Rarity::Common,
        cost,
        card_type: CardType::Spell,
        exhaust: false,
        effects,
        description: desc.to_string(),
        class: Some(Class::Paladin),
        subclass: Some(subclass.to_string()),
        tags: Vec::new(),
        recycle: false,
        concentration: false,
        innate: false,
        milestone: false,
        inherent: false,
    }
}

/// A common spell of the Wizard class with no tags or flags.
fn wizard(id: &str, name: &str, cost: i32, effects: Vec<Effect>, desc: &str) -> (r: CardDef)
    ensures
        card_fields(r, id@, name@, Rarity::Common, cost as int, CardType::Spell, effects@, desc@, Some(Class::Wizard), None, seq![], false, false, false, false, false, false),
{
    CardDef {
        id: id.to_string(),
        name: name.to_string(),
        rarity: Rarity::Common,
        cost,
        card_type: CardType::Spell,
        exhaust: false,
        effects,
        description: desc.to_string(),
        class: Some(Class::Wizard),
        subclass: None,
        tags: Vec::new(),
        recycle: false,
        concentration: false,
        innate: false,
        milestone: false,
        inherent: false,
    }
}

/// A common spell of the Sorcerer class with no tags or flags.
fn sorcerer(id: &str, name: &str, cost: i32, effects: Vec<Effect>, desc: &str) -> (r: CardDef)
    ensures
        card_fields(r, id@, name@, Rarity::Common, cost as int, CardType::Spell, effects@, desc@, Some(Class::Sorcerer), None, seq![], false, false, false, false, false, false),
{
    CardDef {
        id: id.to_string(),
        name: name.to_string(),
        rarity: Rarity::Common,
        cost,
        card_type: CardType::Spell,
        exhaust: false,
        effects,
        description: desc.to_string(),
        class: Some(Class::Sorcerer),
        subclass: None,
        tags: Vec::new(),
        recycle: false,
        concentration: false,
        innate: false,
        milestone: false,
        inherent: false,
    }
}

/// A common spell of the Sorcerer class with no tags or flags, of the given sub-class.
fn sorcerer_sc(id: &str, name: &str, subclass: &str, cost: i32, effects: Vec<Effect>, desc: &str) -> (r: CardDef)
    ensures
        card_fields(r, id@, name@, Rarity::Common, cost as int, CardType::Spell, effects@, desc@, Some(Class::Sorcerer), Some(subclass@), seq![], false, false, false, false, false, false),
{
    CardDef {
        id: id.to_string(),
        name: name.to_string(),
        rarity: Rarity::Common,
        cost,
        card_type: CardType::Spell,
        exhaust: false,
        effects,
        description: desc.to_string(),
        class: Some(Class::Sorcerer),
        subclass: Some(subclass.to_string()),
        tags: Vec::new(),
        recycle: false,
        concentration: false,
        innate: false,
        milestone: false,
        inherent: false,
    }
}

/// A common spell of the Wizard class with no tags or flags, of the given sub-class.
fn wizard_sc(id: &str, name: &str, subclass: &str, cost: i32, effects: Vec<Effect>, desc: &str) -> (r: CardDef)
    ensures
        card_fields(r, id@, name@, Rarity::Common, cost as int, CardType::Spell, effects@, desc@, Some(Class::Wizard), Some(subclass@), seq![], false, false, false, false, false, false),
{
    CardDef {
        id: id.to_string(),
        name: name.to_string(),
        rarity: Rarity::Common,
        cost,
        card_type: CardType::Spell,
        exhaust: false,
        effects,
        description: desc.to_string(),
        class: Some(Class::Wizard),
        subclass: Some(subclass.to_string()),
        tags: Vec::new(),
        recycle: false,
        concentration: false,
        innate: false,
        milestone: false,
        inherent: false,
    }
}

/// A common spell of no class with no tags or flags (an inherent card).
fn background_card(id: &str, name: &str, cost: i32, effects: Vec<Effect>, desc: &str) -> (r: CardDef)
    ensures
        card_fields(r, id@, name@, Rarity::Common, cost as int, CardType::Spell, effects@, desc@, None, None, seq![], false, false, false, false, false, true),
{
    CardDef {
        id: id.to_string(),
        name: name.to_string(),
        rarity: Rarity::Common,
        cost,
        card_type: CardType::Spell,
        exhaust: false,
        effects,
        description: desc.to_string(),
        class: None,
        subclass: None,
        tags: Vec::new(),
        recycle: false,
        concentration: false,
        innate: false,
        milestone: false,
        inherent: true,
    }
}

/// A common spell of the Warlock class with no tags or flags.
fn warlock(id: &str, name: &str, cost: i32, effects: Vec<Effect>, desc: &str) -> (r: CardDef)
    ensures
        card_fields(r, id@, name@, Rarity::Common, cost as int, CardType::Spell, effects@, desc@, Some(Class::Warlock), None, seq![], false, false, false, false, false, false),
{
    CardDef {
        id: id.to_string(),
        name: name.to_string(),
        rarity: Rarity::Common,
        cost,
        card_type: CardType::Spell,
        exhaust: false,
        effects,
        description: desc.to_string(),
        class: Some(Class::Warlock),
        subclass: None,
        tags: Vec::new(),
        recycle: false,
        concentration: false,
        innate: false,
        milestone: false,
        inherent: false,
    }
}

/// A common spell of the Warlock class with no tags or flags, of the given sub-class.
fn warlock_sc(id: &str, name: &str, subclass: &str, cost: i32, effects: Vec<Effect>, desc: &str) -> (r: CardDef)
    ensures
        card_fields(r, id@, name@, Rarity::Common, cost as int, CardType::Spell, effects@, desc@, Some(Class::Warlock), Some(subclass@), seq![], false, false, false, false, false, false),
{
    CardDef {
        id: id.to_string(),
        name: name.to_string(),
        rarity: Rarity::Common,
        cost,
        card_type: CardType::Spell,
        exhaust: false,
        effects,
        description: desc.to_string(),
        class: Some(Class::Warlock),
        subclass: Some(subclass.to_string()),
        tags: Vec::new(),
        recycle: false,
        concentration: false,
        innate: false,
        milestone: false,
        inherent: false,
    }
}

/// A common spell of the Rogue class with no tags or flags.
fn rogue(id: &str, name: &str, cost: i32, effects: Vec<Effect>, desc: &str) -> (r: CardDef)
    ensures
        card_fields(r, id@, name@, Rarity::Common, cost as int, CardType::Spell, effects@, desc@, Some(Class::Rogue), None, seq![], false, false, false, false, false, false),
{
    CardDef {
        id: id.to_string(),
        name: name.to_string(),
        rarity: Rarity::Common,
        cost,
        card_type: CardType::Spell,
        exhaust: false,
        effects,
        description: desc.to_string(),
        class: Some(Class::Rogue),
        subclass: None,
        tags: Vec::new(),
        recycle: false,
        concentration: false,
        innate: false,
        milestone: false,
        inherent: false,
    }
}

/// A common spell of the Rogue class with no tags or flags, of the given sub-class.
fn rogue_sc(id: &str, name: &str, subclass: &str, cost: i32, effects: Vec<Effect>, desc: &str) -> (r: CardDef)
    ensures
        card_fields(r, id@, name@, Rarity::Common, cost as int, CardType::Spell, effects@, desc@, Some(Class::Rogue), Some(subclass@), seq![], false, false, false, false, false, false),
{
    CardDef {
        id: id.to_string(),
        name: name.to_string(),
        rarity: Rarity::Common,
        cost,
        card_type: CardType::Spell,
        exhaust: false,
        effects,
        description: desc.to_string(),
        class: Some(Class::Rogue),
        subclass: Some(subclass.to_string()),
        tags: Vec::new(),
        recycle: false,
        concentration: false,
        innate: false,
        milestone: false,
        inherent: false,
    }
}

/// A common spell of the Druid class with no tags or flags.
fn druid(id: &str, name: &str, cost: i32, effects: Vec<Effect>, desc: &str) -> (r: CardDef)
    ensures
        card_fields(r, id@, name@, Rarity::Common, cost as int, CardType::Spell, effects@, desc@, Some(Class::Druid), None, seq![], false, false, false, false, false, false),
{
    CardDef {
        id: id.to_string(),
        name: name.to_string(),
        rarity: Rarity::Common,
        cost,
        card_type: CardType::Spell,
        exhaust: false,
        effects,
        description: desc.to_string(),
        class: Some(Class::Druid),
        subclass: None,
        tags: Vec::new(),
        recycle: false,
        concentration: false,
        innate: false,
        milestone: false,
        inherent: false,
    }
}

/// A common spell of the Druid class with no tags or flags, of the given sub-class.
fn druid_sc(id: &str, name: &str, subclass: &str, cost: i32, effects: Vec<Effect>, desc: &str) -> (r: CardDef)
    ensures
        card_fields(r, id@, name@, Rarity::Common, cost as int, CardType::Spell, effects@, desc@, Some(Class::Druid), Some(subclass@), seq![], false, false, false, false, false, false),
{
    CardDef {
        id: id.to_string(),
        name: name.to_string(),
        rarity: Rarity::Common,
        cost,
        card_type: CardType::Spell,
        exhaust: false,
        effects,
        description: desc.to_string(),
        class: Some(Class::Druid),
        subclass: Some(subclass.to_string()),
        tags: Vec::new(),
        recycle: false,
        concentration: false,
        innate: false,
        milestone: false,
        inherent: false,
    }
}

/// The Strike card.
pub open spec fn is_strike_def(d: CardDef) -> bool {
    card_fields(d, "strike"@, "Strike"@, Rarity::Common, 1, CardType::Spell, seq![Effect::DealDamage { target: Target::SingleEnemy, amount: 10 }], "Deal 10 damage."@, None, None, seq![CardTag::Attack], false, false, false, false, false, false)
}

fn strike_def() -> (r: CardDef)
    ensures
        is_strike_def(r),
{
    let mut d = universal(
        "strike",
        "Strike",
        1,
        vec![Effect::DealDamage {
            target: Target::SingleEnemy,
            amount: 10,
        }],
        "Deal 10 damage.",
    );
    d.tags = vec![CardTag::Attack];
    d
}

/// The Defend card.
pub open spec fn is_defend_def(d: CardDef) -> bool {
    card_fields(d, "defend"@, "Defend"@, Rarity::Common, 1, CardType::Spell, seq![Effect::GainBlock { amount: 10 }], "Gain 10 block."@, None, None, seq![CardTag::Defense], false, false, false, false, false, false)
}

fn defend_def() -> (r: CardDef)
    ensures
        is_defend_def(r),
{
    let mut d = universal(
        "defend",
        "Defend",
        1,
        vec![Effect::GainBlock { amount: 10 }],
        "Gain 10 block.",
    );
    d.tags = vec![CardTag::Defense];
    d
}

/// The Wound card.
pub open spec fn is_wound_def(d: CardDef) -> bool {
    card_fields(d, "wound"@, "Wound"@, Rarity::Common, 1, CardType::Spell, seq![], "Unplayable dead weight."@, None, None, seq![], false, false, false, false, false, false)
}

fn wound_def() -> (r: CardDef)
    ensures
        is_wound_def(r),
{
    CardDef {
        id: "wound".to_string(),
        name: "Wound".to_string(),
        rarity: Rarity::Common,
        cost: 1,
        card_type: CardType::Spell,
        exhaust: false,
        effects: vec![],
        description: "Unplayable dead weight.".to_string(),
        class: None,
        subclass: None,
        tags: vec![],
        recycle: false,
        concentration: false,
        innate: false,
        milestone: false,
        inherent: false,
    }
}

/// The Barbs card.
pub open spec fn is_barbs_def(d: CardDef) -> bool {
    card_fields(d, "barbs"@, "Barbs"@, Rarity::Common, 1, CardType::Spell, seq![ Effect::GainBlock { amount: 10 }, Effect::ApplyStatus { target: Target::Player, status: StatusType::Barbed, stacks: 1 }], "Gain 10 block. Apply 1 Barbed to self."@, Some(Class::Fighter), Some("defense"@), seq![CardTag::Defense], false, false, false, false, false, false)
}

fn barbs_def() -> (r: CardDef)
    ensures
        is_barbs_def(r),
{
    let mut d = fighter_sc(
        "barbs",
        "Barbs",
        "defense",
        1,
        vec![
            Effect::GainBlock { amount: 10 },
            Effect::ApplyStatus {
                target: Target::Player,
                status: StatusType::Barbed,
                stacks: 1,
            },
        ],
        "Gain 10 block. Apply 1 Barbed to self.",
    );
    d.tags = vec![CardTag::Defense];
    d
}

/// The Heavy Strike card.
pub open spec fn is_heavy_strike_def(d: CardDef) -> bool {
    card_fields(d, "heavy_strike"@, "Heavy Strike"@, Rarity::Common, 1, CardType::Spell, seq![ Effect::DealDamage { target: Target::SingleEnemy, amount: 10 }, Effect::ApplyStatus { target: Target::SingleEnemy, status: StatusType::Weakened, stacks: 1 }], "Deal 10 damage. Apply 1 Weakened."@, Some(Class::Fighter), Some("two_handed"@), seq![CardTag::Attack], false, false, false, false, false, false)
}

fn heavy_strike_def() -> (r: CardDef)
    ensures
        is_heavy_strike_def(r),
{
    let mut d = fighter_sc(
        "heavy_strike",
        "Heavy Strike",
        "two_handed",
        1,
        vec![
            Effect::DealDamage {
                target: Target::SingleEnemy,
                amount: 10,
            },
            Effect::ApplyStatus {
                target: Target::SingleEnemy,
                status: StatusType::Weakened,
                stacks: 1,
            },
        ],
        "Deal 10 damage. Apply 1 Weakened.",
    );
    d.tags = vec![CardTag::Attack];
    d
}

/// The Measured Strike card.
pub open spec fn is_measured_strike_def(d: CardDef) -> bool {
    card_fields(d, "measured_strike"@, "Measured Strike"@, Rarity::Common, 1, CardType::Spell, seq![ Effect::DealDamage { target: Target::SingleEnemy, amount: 10 }, Effect::ApplyStatus { target: Target::SingleEnemy, status: StatusType::Marked, stacks: 2 }], "Deal 10 damage. Apply 2 Marked."@, Some(Class::Fighter), Some("dueling"@), seq![CardTag::Attack], false, false, false, false, false, false)
}

fn measured_strike_def() -> (r: CardDef)
    ensures
        is_measured_strike_def(r),
{
    let mut d = fighter_sc(
        "measured_strike",
        "Measured Strike",
        "dueling",
        1,
        vec![
            Effect::DealDamage {
                target: Target::SingleEnemy,
                amount: 10,
            },
            Effect::ApplyStatus {
                target: Target::SingleEnemy,
                status: StatusType::Marked,
                stacks: 2,
            },
        ],
        "Deal 10 damage. Apply 2 Marked.",
    );
    d.tags = vec![CardTag::Attack];
    d
}

/// The Deft Strike card.
pub open spec fn is_deft_strike_def(d: CardDef) -> bool {
    card_fields(d, "deft_strike"@, "Deft Strike"@, Rarity::Common, 1, CardType::Spell, seq![ Effect::DealDamage { target: Target::SingleEnemy, amount: 10 }, Effect::DrawCards { count: 1 }], "Deal 10 damage. Draw 1 card."@, Some(Class::Fighter), Some("dueling"@), seq![CardTag::Attack], false, false, false, false, false, false)
}

fn deft_strike_def() -> (r: CardDef)
    ensures
        is_deft_strike_def(r),
{
    let mut d = fighter_sc(
        "deft_strike",
        "Deft Strike",
        "dueling",
        1,
        vec![
            Effect::DealDamage {
                target: Target::SingleEnemy,
                amount: 10,
            },
            Effect::DrawCards { count: 1 },
        ],
        "Deal 10 damage. Draw 1 card.",
    );
    d.tags = vec![CardTag::Attack];
    d
}

/// The Second Wind card.
pub open spec fn is_second_wind_def(d: CardDef) -> bool {
    card_fields(d, "second_wind"@, "Second Wind"@, Rarity::Common, 1, CardType::Consumable, seq![Effect::Heal { amount: 15 }], "Heal 15 HP."@, Some(Class::Fighter), None, seq![CardTag::Skill], false, false, false, false, false, false)
}

fn second_wind_def() -> (r: CardDef)
    ensures
        is_second_wind_def(r),
{
    let mut d = fighter(
        "second_wind",
        "Second Wind",
        1,
        vec![Effect::Heal { amount: 15 }],
        "Heal 15 HP.",
    );
    d.card_type = CardType::Consumable;
    d.tags = vec![CardTag::Skill];
    d
}

/// The Energy Surge card.
pub open spec fn is_energy_surge_def(d: CardDef) -> bool {
    card_fields(d, "energy_surge"@, "Energy Surge"@, Rarity::Common, 0, CardType::Spell, seq![ Effect::GainEnergy { amount: 1 }, Effect::GainBlock { amount: 8 }], "Gain 1 energy. Gain 8 block. Exhaust."@, Some(Class::Fighter), None, seq![CardTag::Skill], true, false, false, false, false, false)
}

fn energy_surge_def() -> (r: CardDef)
    ensures
        is_energy_surge_def(r),
{
    let mut d = fighter(
        "energy_surge",
        "Energy Surge",
        0,
        vec![
            Effect::GainEnergy { amount: 1 },
            Effect::GainBlock { amount: 8 },
        ],
        "Gain 1 energy. Gain 8 block. Exhaust.",
    );
    d.exhaust = true;
    d.tags = vec![CardTag::Skill];
    d
}

/// The Extra Attack card.
pub open spec fn is_extra_attack_def(d: CardDef) -> bool {
    card_fields(d, "extra_attack"@, "Extra Attack"@, Rarity::Common, 0, CardType::Spell, seq![ Effect::GainBlock { amount: 8 }, Effect::DrawCards { count: 1 }], "Gain 8 block. Draw 1 card. Exhaust."@, Some(Class::Fighter), None, seq![CardTag::Skill, CardTag::Defense], true, false, false, true, false, false)
}

fn extra_attack_def() -> (r: CardDef)
    ensures
        is_extra_attack_def(r),
{
    let mut d = fighter(
        "extra_attack",
        "Extra Attack",
        0,
        vec![
            Effect::GainBlock { amount: 8 },
            Effect::DrawCards { count: 1 },
        ],
        "Gain 8 block. Draw 1 card. Exhaust.",
    );
    d.exhaust = true;
    d.innate = true;
    d.tags = vec![CardTag::Skill, CardTag::Defense];
    d
}

/// The Rally card.
pub open spec fn is_rally_def(d: CardDef) -> bool {
    card_fields(d, "rally"@, "Rally"@, Rarity::Common, 0, CardType::Spell, seq![ Effect::GainBlock { amount: 10 }, Effect::DrawCards { count: 1 }], "Gain 10 block. Draw 1 card. Innate. Exhaust."@, Some(Class::Fighter), None, seq![CardTag::Skill, CardTag::Defense], true, false, false, true, false, false)
}

fn rally_def() -> (r: CardDef)
    ensures
        is_rally_def(r),
{
    let mut d = fighter(
        "rally",
        "Rally",
        0,
        vec![
            Effect::GainBlock { amount: 10 },
            Effect::DrawCards { count: 1 },
        ],
        "Gain 10 block. Draw 1 card. Innate. Exhaust.",
    );
    d.exhaust = true;
    d.innate = true;
    d.tags = vec![CardTag::Skill, CardTag::Defense];
    d
}

/// The Iron Guard card.
pub open spec fn is_iron_guard_def(d: CardDef) -> bool {
    card_fields(d, "iron_guard"@, "Iron Guard"@, Rarity::Common, 0, CardType::Spell, seq![Effect::GainBlock { amount: 12 }], "Gain 12 block. Exhaust."@, Some(Class::Fighter), Some("defense"@), seq![CardTag::Power], true, false, false, false, true, false)
}

fn iron_guard_def() -> (r: CardDef)
    ensures
        is_iron_guard_def(r),
{
    let mut d = fighter_sc(
        "iron_guard",
        "Iron Guard",
        "defense",
        0,
        vec![Effect::GainBlock { amount: 12 }],
        "Gain 12 block. Exhaust.",
    );
    d.exhaust = true;
    d.milestone = true;
    d.tags = vec![CardTag::Power];
    d
}

/// The Shield Bash card.
pub open spec fn is_shield_bash_def(d: CardDef) -> bool {
    card_fields(d, "shield_bash"@, "Shield Bash"@, Rarity::Common, 1, CardType::Spell, seq![ Effect::DealDamageEqualBlock { target: Target::SingleEnemy }, Effect::GainBlock { amount: 3 }], "Deal damage equal to your block. Gain 3 block."@, Some(Class::Fighter), Some("defense"@), seq![CardTag::Attack], false, false, false, false, true, false)
}

fn shield_bash_def() -> (r: CardDef)
    ensures
        is_shield_bash_def(r),
{
    let mut d = fighter_sc(
        "shield_bash",
        "Shield Bash",
        "defense",
        1,
        vec![
            Effect::DealDamageEqualBlock {
                target: Target::SingleEnemy,
            },
            Effect::GainBlock { amount: 3 },
        ],
        "Deal damage equal to your block. Gain 3 block.",
    );
    d.milestone = true;
    d.tags = vec![CardTag::Attack];
    d
}

/// The Brace card.
pub open spec fn is_brace_def(d: CardDef) -> bool {
    card_fields(d, "brace"@, "Brace"@, Rarity::Common, 1, CardType::Spell, seq![Effect::GainBlockConditional { amount: 8, bonus_amount: 12 }], "Gain 8 block. If you already have block, gain 12 instead."@, Some(Class::Fighter), Some("defense"@), seq![CardTag::Defense], false, false, false, false, true, false)
}

fn brace_def() -> (r: CardDef)
    ensures
        is_brace_def(r),
{
    let mut d = fighter_sc(
        "brace",
        "Brace",
        "defense",
        1,
        vec![Effect::GainBlockConditional {
            amount: 8,
            bonus_amount: 12,
        }],
        "Gain 8 block. If you already have block, gain 12 instead.",
    );
    d.milestone = true;
    d.tags = vec![CardTag::Defense];
    d
}

/// The Unbreakable card.
pub open spec fn is_unbreakable_def(d: CardDef) -> bool {
    card_fields(d, "unbreakable"@, "Unbreakable"@, Rarity::Common, 0, CardType::Spell, seq![Effect::BlockFloor { amount: 5 }], "Block cannot go below 5 this combat. Exhaust."@, Some(Class::Fighter), Some("defense"@), seq![CardTag::Power], true, false, false, false, true, false)
}

fn unbreakable_def() -> (r: CardDef)
    ensures
        is_unbreakable_def(r),
{
    let mut d = fighter_sc(
        "unbreakable",
        "Unbreakable",
        "defense",
        0,
        vec![Effect::BlockFloor { amount: 5 }],
        "Block cannot go below 5 this combat. Exhaust.",
    );
    d.exhaust = true;
    d.milestone = true;
    d.tags = vec![CardTag::Power];
    d
}

/// The Fortify card.
pub open spec fn is_fortify_def(d: CardDef) -> bool {
    card_fields(d, "fortify"@, "Fortify"@, Rarity::Common, 1, CardType::Spell, seq![ Effect::GainBlock { amount: 8 }, Effect::ApplyStatus { target: Target::Player, status: StatusType::BlockRetention, stacks: 1 }], "Gain 8 block. Your block is not reset. Exhaust."@, Some(Class::Fighter), Some("defense"@), seq![CardTag::Defense, CardTag::Power], true, false, false, false, false, false)
}

fn fortify_def() -> (r: CardDef)
    ensures
        is_fortify_def(r),
{
    let mut d = fighter_sc("fortify", "Fortify", "defense", 1, vec![
        Effect::GainBlock { amount: 8 },
        Effect::ApplyStatus { target: Target::Player, status: StatusType::BlockRetention, stacks: 1 },
    ], "Gain 8 block. Your block is not reset. Exhaust.");
    d.exhaust = true;
    d.tags = vec![CardTag::Defense, CardTag::Power];
    d
}

/// The Entrench card.
pub open spec fn is_entrench_def(d: CardDef) -> bool {
    card_fields(d, "entrench"@, "Entrench"@, Rarity::Common, 1, CardType::Spell, seq![ Effect::GainBlockConditional { amount: 10, bonus_amount: 16 }], "Gain 10 block. If you already have block, gain 16 instead."@, Some(Class::Fighter), Some("defense"@), seq![CardTag::Defense], false, false, false, false, false, false)
}

fn entrench_def() -> (r: CardDef)
    ensures
        is_entrench_def(r),
{
    let mut d = fighter_sc("entrench", "Entrench", "defense", 1, vec![
        Effect::GainBlockConditional { amount: 10, bonus_amount: 16 },
    ], "Gain 10 block. If you already have block, gain 16 instead.");
    d.tags = vec![CardTag::Defense];
    d
}

/// The Stalwart Defense card.
pub open spec fn is_stalwart_defense_def(d: CardDef) -> bool {
    card_fields(d, "stalwart_defense"@, "Stalwart Defense"@, Rarity::Uncommon, 1, CardType::Spell, seq![ Effect::GainBlock { amount: 6 }, Effect::DrawCards { count: 1 }, Effect::ApplyStatus { target: Target::SingleEnemy, status: StatusType::Weakened, stacks: 1 }], "Gain 6 block. Draw 1 card. Apply 1 Weakened."@, Some(Class::Fighter), Some("defense"@), seq![CardTag::Defense, CardTag::Skill], false, false, false, false, false, false)
}

fn stalwart_defense_def() -> (r: CardDef)
    ensures
        is_stalwart_defense_def(r),
{
    let mut d = fighter_sc("stalwart_defense", "Stalwart Defense", "defense", 1, vec![
        Effect::GainBlock { amount: 6 },
        Effect::DrawCards { count: 1 },
        Effect::ApplyStatus { target: Target::SingleEnemy, status: StatusType::Weakened, stacks: 1 },
    ], "Gain 6 block. Draw 1 card. Apply 1 Weakened.");
    d.rarity = Rarity::Uncommon;
    d.tags = vec![CardTag::Defense, CardTag::Skill];
    d
}

/// The Shield Wall card.
pub open spec fn is_shield_wall_def(d: CardDef) -> bool {
    card_fields(d, "shield_wall"@, "Shield Wall"@, Rarity::Rare, 2, CardType::Spell, seq![ Effect::GainBlock { amount: 20 }, Effect::GainBlockConditional { amount: 0, bonus_amount: 6 }], "Gain 20 block. If you already have block, gain 6 more."@, Some(Class::Fighter), Some("defense"@), seq![CardTag::Defense], false, false, false, false, false, false)
}

fn shield_wall_def() -> (r: CardDef)
    ensures
        is_shield_wall_def(r),
{
    let mut d = fighter_sc("shield_wall", "Shield Wall", "defense", 2, vec![
        Effect::GainBlock { amount: 20 },
        Effect::GainBlockConditional { amount: 0, bonus_amount: 6 },
    ], "Gain 20 block. If you already have block, gain 6 more.");
    d.rarity = Rarity::Rare;
    d.tags = vec![CardTag::Defense];
    d
}

/// The Aegis Eternal card.
pub open spec fn is_aegis_eternal_def(d: CardDef) -> bool {
    card_fields(d, "aegis_eternal"@, "Aegis Eternal"@, Rarity::Legendary, 0, CardType::Spell, seq![ Effect::ApplyStatus { target: Target::Player, status: StatusType::BlockRetention, stacks: 1 }, Effect::BlockFloor { amount: 8 }, Effect::GainBlock { amount: 15 }], "Your block is never reset. Block cannot go below 8. Gain 15 block. Exhaust."@, Some(Class::Fighter), Some("defense"@), seq![CardTag::Power], true, false, false, false, false, false)
}

fn aegis_eternal_def() -> (r: CardDef)
    ensures
        is_aegis_eternal_def(r),
{
    let mut d = fighter_sc("aegis_eternal", "Aegis Eternal", "defense", 0, vec![
        Effect::ApplyStatus { target: Target::Player, status: StatusType::BlockRetention, stacks: 1 },
        Effect::BlockFloor { amount: 8 },
        Effect::GainBlock { amount: 15 },
    ], "Your block is never reset. Block cannot go below 8. Gain 15 block. Exhaust.");
    d.rarity = Rarity::Legendary;
    d.exhaust = true;
    d.tags = vec![CardTag::Power];
    d
}

/// The Spiked Armor card.
pub open spec fn is_spiked_armor_def(d: CardDef) -> bool {
    card_fields(d, "spiked_armor"@, "Spiked Armor"@, Rarity::Common, 1, CardType::Spell, seq![ Effect::GainBlock { amount: 8 }, Effect::ApplyStatus { target: Target::Player, status: StatusType::Barbed, stacks: 2 }], "Gain 8 block. Gain 2 Barbed."@, Some(Class::Fighter), Some("defense"@), seq![CardTag::Defense], false, false, false, false, false, false)
}

fn spiked_armor_def() -> (r: CardDef)
    ensures
        is_spiked_armor_def(r),
{
    let mut d = fighter_sc("spiked_armor", "Spiked Armor", "defense", 1, vec![
        Effect::GainBlock { amount: 8 },
        Effect::ApplyStatus { target: Target::Player, status: StatusType::Barbed, stacks: 2 },
    ], "Gain 8 block. Gain 2 Barbed.");
    d.tags = vec![CardTag::Defense];
    d
}

/// The Retribution card.
pub open spec fn is_retribution_def(d: CardDef) -> bool {
    card_fields(d, "retribution"@, "Retribution"@, Rarity::Common, 1, CardType::Spell, seq![ Effect::DealDamageIfDamagedLastTurn { target: Target::SingleEnemy, amount: 12 }, Effect::GainBlockIfDamagedLastTurn { amount: 8 }], "If you took damage last turn: deal 12 damage and gain 8 block."@, Some(Class::Fighter), Some("defense"@), seq![CardTag::Attack, CardTag::Defense], false, false, false, false, false, false)
}

fn retribution_def() -> (r: CardDef)
    ensures
        is_retribution_def(r),
{
    let mut d = fighter_sc("retribution", "Retribution", "defense", 1, vec![
        Effect::DealDamageIfDamagedLastTurn { target: Target::SingleEnemy, amount: 12 },
        Effect::GainBlockIfDamagedLastTurn { amount: 8 },
    ], "If you took damage last turn: deal 12 damage and gain 8 block.");
    d.tags = vec![CardTag::Attack, CardTag::Defense];
    d
}

/// The Thorned Carapace card.
pub open spec fn is_thorned_carapace_def(d: CardDef) -> bool {
    card_fields(d, "thorned_carapace"@, "Thorned Carapace"@, Rarity::Uncommon, 0, CardType::Spell, seq![ Effect::ApplyStatus { target: Target::Player, status: StatusType::Barbed, stacks: 3 }], "Gain 3 Barbed. Exhaust."@, Some(Class::Fighter), Some("defense"@), seq![CardTag::Power], true, false, false, false, false, false)
}

fn thorned_carapace_def() -> (r: CardDef)
    ensures
        is_thorned_carapace_def(r),
{
    let mut d = fighter_sc("thorned_carapace", "Thorned Carapace", "defense", 0, vec![
        Effect::ApplyStatus { target: Target::Player, status: StatusType::Barbed, stacks: 3 },
    ], "Gain 3 Barbed. Exhaust.");
    d.rarity = Rarity::Uncommon;
    d.exhaust = true;
    d.tags = vec![CardTag::Power];
    d
}

/// The Barbed Bulwark card.
pub open spec fn is_barbed_bulwark_def(d: CardDef) -> bool {
    card_fields(d, "barbed_bulwark"@, "Barbed Bulwark"@, Rarity::Rare, 1, CardType::Spell, seq![ Effect::GainBlockPerStatusStack { status: StatusType::Barbed, multiplier: 3 }, Effect::ApplyStatus { target: Target::Player, status: StatusType::Barbed, stacks: 1 }], "Gain block equal to 3x your Barbed stacks. Gain 1 Barbed."@, Some(Class::Fighter), Some("defense"@), seq![CardTag::Defense], false, false, false, false, false, false)
}

fn barbed_bulwark_def() -> (r: CardDef)
    ensures
        is_barbed_bulwark_def(r),
{
    let mut d = fighter_sc("barbed_bulwark", "Barbed Bulwark", "defense", 1, vec![
        Effect::GainBlockPerStatusStack { status: StatusType::Barbed, multiplier: 3 },
        Effect::ApplyStatus { target: Target::Player, status: StatusType::Barbed, stacks: 1 },
    ], "Gain block equal to 3x your Barbed stacks. Gain 1 Barbed.");
    d.rarity = Rarity::Rare;
    d.tags = vec![CardTag::Defense];
    d
}

/// The Wrath of Thorns card.
pub open spec fn is_wrath_of_thorns_def(d: CardDef) -> bool {
    card_fields(d, "wrath_of_thorns"@, "Wrath of Thorns"@, Rarity::Legendary, 1, CardType::Spell, seq![ Effect::ApplyStatus { target: Target::Player, status: StatusType::Barbed, stacks: 4 }, Effect::ApplyStatus { target: Target::AllEnemies, status: StatusType::Threatened, stacks: 2 }, Effect::GainBlock { amount: 10 }], "Gain 4 Barbed. Apply 2 Threatened to ALL enemies. Gain 10 block. Exhaust."@, Some(Class::Fighter), Some("defense"@), seq![CardTag::Defense, CardTag::Power], true, false, false, false, false, false)
}

fn wrath_of_thorns_def() -> (r: CardDef)
    ensures
        is_wrath_of_thorns_def(r),
{
    let mut d = fighter_sc("wrath_of_thorns", "Wrath of Thorns", "defense", 1, vec![
        Effect::ApplyStatus { target: Target::Player, status: StatusType::Barbed, stacks: 4 },
        Effect::ApplyStatus { target: Target::AllEnemies, status: StatusType::Threatened, stacks: 2 },
        Effect::GainBlock { amount: 10 },
    ], "Gain 4 Barbed. Apply 2 Threatened to ALL enemies. Gain 10 block. Exhaust.");
    d.rarity = Rarity::Legendary;
    d.exhaust = true;
    d.tags = vec![CardTag::Defense, CardTag::Power];
    d
}

/// The Intimidating Blow card.
pub open spec fn is_intimidating_blow_def(d: CardDef) -> bool {
    card_fields(d, "intimidating_blow"@, "Intimidating Blow"@, Rarity::Common, 1, CardType::Spell, seq![ Effect::DealDamage { target: Target::SingleEnemy, amount: 10 }, Effect::ApplyStatus { target: Target::SingleEnemy, status: StatusType::Frightened, stacks: 1 }], "Deal 10 damage. Apply 1 Frightened."@, Some(Class::Fighter), Some("two_handed"@), seq![CardTag::Attack], false, false, false, false, true, false)
}

fn intimidating_blow_def() -> (r: CardDef)
    ensures
        is_intimidating_blow_def(r),
{
    let mut d = fighter_sc(
        "intimidating_blow",
        "Intimidating Blow",
        "two_handed",
        1,
        vec![
            Effect::DealDamage {
                target: Target::SingleEnemy,
                amount: 10,
            },
            Effect::ApplyStatus {
                target: Target::SingleEnemy,
                status: StatusType::Frightened,
                stacks: 1,
            },
        ],
        "Deal 10 damage. Apply 1 Frightened.",
    );
    d.milestone = true;
    d.tags = vec![CardTag::Attack];
    d
}

/// The Reckless Attack card.
pub open spec fn is_reckless_attack_def(d: CardDef) -> bool {
    card_fields(d, "reckless_attack"@, "Reckless Attack"@, Rarity::Common, 1, CardType::Spell, seq![ Effect::DealDamage { target: Target::SingleEnemy, amount: 15 }, Effect::LoseHp { amount: 3 }], "Deal 15 damage. Lose 3 HP."@, Some(Class::Fighter), Some("two_handed"@), seq![CardTag::Attack], false, false, false, false, true, false)
}

fn reckless_attack_def() -> (r: CardDef)
    ensures
        is_reckless_attack_def(r),
{
    let mut d = fighter_sc(
        "reckless_attack",
        "Reckless Attack",
        "two_handed",
        1,
        vec![
            Effect::DealDamage {
                target: Target::SingleEnemy,
                amount: 15,
            },
            Effect::LoseHp { amount: 3 },
        ],
        "Deal 15 damage. Lose 3 HP.",
    );
    d.milestone = true;
    d.tags = vec![CardTag::Attack];
    d
}

/// The Sundering Blow card.
pub open spec fn is_sundering_blow_def(d: CardDef) -> bool {
    card_fields(d, "sundering_blow"@, "Sundering Blow"@, Rarity::Common, 1, CardType::Spell, seq![ Effect::RemoveEnemyBlock { target: Target::SingleEnemy, amount: 6 }, Effect::DealDamage { target: Target::SingleEnemy, amount: 10 }], "Remove up to 6 enemy block. Deal 10 damage."@, Some(Class::Fighter), Some("two_handed"@), seq![CardTag::Attack], false, false, false, false, true, false)
}

fn sundering_blow_def() -> (r: CardDef)
    ensures
        is_sundering_blow_def(r),
{
    let mut d = fighter_sc(
        "sundering_blow",
        "Sundering Blow",
        "two_handed",
        1,
        vec![
            Effect::RemoveEnemyBlock {
                target: Target::SingleEnemy,
                amount: 6,
            },
            Effect::DealDamage {
                target: Target::SingleEnemy,
                amount: 10,
            },
        ],
        "Remove up to 6 enemy block. Deal 10 damage.",
    );
    d.milestone = true;
    d.tags = vec![CardTag::Attack];
    d
}

/// The Reaving Strike card.
pub open spec fn is_reaving_strike_def(d: CardDef) -> bool {
    card_fields(d, "reaving_strike"@, "Reaving Strike"@, Rarity::Common, 2, CardType::Spell, seq![Effect::DealDamage { target: Target::AllEnemies, amount: 15 }], "Deal 15 damage to ALL enemies. Exhaust."@, Some(Class::Fighter), Some("two_handed"@), seq![CardTag::Attack], true, false, false, false, true, false)
}

fn reaving_strike_def() -> (r: CardDef)
    ensures
        is_reaving_strike_def(r),
{
    let mut d = fighter_sc(
        "reaving_strike",
        "Reaving Strike",
        "two_handed",
        2,
        vec![Effect::DealDamage {
            target: Target::AllEnemies,
            amount: 15,
        }],
        "Deal 15 damage to ALL enemies. Exhaust.",
    );
    d.exhaust = true;
    d.milestone = true;
    d.tags = vec![CardTag::Attack];
    d
}

/// The Brutal Swing card.
pub open spec fn is_brutal_swing_def(d: CardDef) -> bool {
    card_fields(d, "brutal_swing"@, "Brutal Swing"@, Rarity::Common, 1, CardType::Spell, seq![ Effect::DealDamageIfTargetDebuffed { target: Target::SingleEnemy, amount: 10, bonus: 6 }], "Deal 8 damage. If target has a debuff, deal 14 instead."@, Some(Class::Fighter), Some("two_handed"@), seq![CardTag::Attack], false, false, false, false, false, false)
}

fn brutal_swing_def() -> (r: CardDef)
    ensures
        is_brutal_swing_def(r),
{
    let mut d = fighter_sc("brutal_swing", "Brutal Swing", "two_handed", 1, vec![
        Effect::DealDamageIfTargetDebuffed { target: Target::SingleEnemy, amount: 10, bonus: 6 },
    ], "Deal 8 damage. If target has a debuff, deal 14 instead.");
    d.tags = vec![CardTag::Attack];
    d
}

/// The Savage Presence card.
pub open spec fn is_savage_presence_def(d: CardDef) -> bool {
    card_fields(d, "savage_presence"@, "Savage Presence"@, Rarity::Uncommon, 0, CardType::Spell, seq![ Effect::ApplyStatus { target: Target::Player, status: StatusType::SavageBlows, stacks: 2 }], "Gain 2 Savage Blows. Exhaust."@, Some(Class::Fighter), Some("two_handed"@), seq![CardTag::Power], true, false, false, false, false, false)
}

fn savage_presence_def() -> (r: CardDef)
    ensures
        is_savage_presence_def(r),
{
    let mut d = fighter_sc("savage_presence", "Savage Presence", "two_handed", 0, vec![
        Effect::ApplyStatus { target: Target::Player, status: StatusType::SavageBlows, stacks: 2 },
    ], "Gain 2 Savage Blows. Exhaust.");
    d.rarity = Rarity::Uncommon;
    d.exhaust = true;
    d.tags = vec![CardTag::Power];
    d
}

/// The Demolish card.
pub open spec fn is_demolish_def(d: CardDef) -> bool {
    card_fields(d, "demolish"@, "Demolish"@, Rarity::Uncommon, 2, CardType::Spell, seq![ Effect::RemoveEnemyBlock { target: Target::SingleEnemy, amount: 99 }, Effect::DealDamage { target: Target::SingleEnemy, amount: 14 }], "Remove ALL enemy block. Deal 14 damage."@, Some(Class::Fighter), Some("two_handed"@), seq![CardTag::Attack], false, false, false, false, false, false)
}

fn demolish_def() -> (r: CardDef)
    ensures
        is_demolish_def(r),
{
    let mut d = fighter_sc("demolish", "Demolish", "two_handed", 2, vec![
        Effect::RemoveEnemyBlock { target: Target::SingleEnemy, amount: 99 },
        Effect::DealDamage { target: Target::SingleEnemy, amount: 14 },
    ], "Remove ALL enemy block. Deal 14 damage.");
    d.rarity = Rarity::Uncommon;
    d.tags = vec![CardTag::Attack];
    d
}

/// The Wrath of the Giant card.
pub open spec fn is_wrath_of_the_giant_def(d: CardDef) -> bool {
    card_fields(d, "wrath_of_the_giant"@, "Wrath of the Giant"@, Rarity::Rare, 1, CardType::Spell, seq![ Effect::DealDamagePerDebuffOnTarget { target: Target::SingleEnemy, base: 10, per_debuff: 5 }], "Deal 6 damage +5 for each debuff on the target."@, Some(Class::Fighter), Some("two_handed"@), seq![CardTag::Attack], false, false, false, false, false, false)
}

fn wrath_of_the_giant_def() -> (r: CardDef)
    ensures
        is_wrath_of_the_giant_def(r),
{
    let mut d = fighter_sc("wrath_of_the_giant", "Wrath of the Giant", "two_handed", 1, vec![
        Effect::DealDamagePerDebuffOnTarget { target: Target::SingleEnemy, base: 10, per_debuff: 5 },
    ], "Deal 6 damage +5 for each debuff on the target.");
    d.rarity = Rarity::Rare;
    d.tags = vec![CardTag::Attack];
    d
}

/// The Executioner's Blow card.
pub open spec fn is_executioners_blow_def(d: CardDef) -> bool {
    card_fields(d, "executioners_blow"@, "Executioner's Blow"@, Rarity::Legendary, 2, CardType::Spell, seq![ Effect::DealDamageScaledByMissingHpEnemy { target: Target::SingleEnemy, base: 12, per_10_percent_missing: 3 }], "Deal 12 damage +3 per 10% HP the target is missing. Exhaust."@, Some(Class::Fighter), Some("two_handed"@), seq![CardTag::Attack], true, false, false, false, false, false)
}

fn executioners_blow_def() -> (r: CardDef)
    ensures
        is_executioners_blow_def(r),
{
    let mut d = fighter_sc("executioners_blow", "Executioner's Blow", "two_handed", 2, vec![
        Effect::DealDamageScaledByMissingHpEnemy { target: Target::SingleEnemy, base: 12, per_10_percent_missing: 3 },
    ], "Deal 12 damage +3 per 10% HP the target is missing. Exhaust.");
    d.rarity = Rarity::Legendary;
    d.exhaust = true;
    d.tags = vec![CardTag::Attack];
    d
}

/// The Blood Frenzy card.
pub open spec fn is_blood_frenzy_def(d: CardDef) -> bool {
    card_fields(d, "blood_frenzy"@, "Blood Frenzy"@, Rarity::Common, 1, CardType::Spell, seq![ Effect::DealDamage { target: Target::SingleEnemy, amount: 10 }, Effect::LoseHp { amount: 3 }, Effect::DrawCards { count: 2 }], "Deal 10 damage. Lose 3 HP. Draw 2 cards."@, Some(Class::Fighter), Some("two_handed"@), seq![CardTag::Attack], false, false, false, false, false, false)
}

fn blood_frenzy_def() -> (r: CardDef)
    ensures
        is_blood_frenzy_def(r),
{
    let mut d = fighter_sc("blood_frenzy", "Blood Frenzy", "two_handed", 1, vec![
        Effect::DealDamage { target: Target::SingleEnemy, amount: 10 },
        Effect::LoseHp { amount: 3 },
        Effect::DrawCards { count: 2 },
    ], "Deal 10 damage. Lose 3 HP. Draw 2 cards.");
    d.tags = vec![CardTag::Attack];
    d
}

/// The Raging Blow card.
pub open spec fn is_raging_blow_def(d: CardDef) -> bool {
    card_fields(d, "raging_blow"@, "Raging Blow"@, Rarity::Uncommon, 1, CardType::Spell, seq![ Effect::DealDamageScaledByMissingHp { target: Target::SingleEnemy, base: 10, per_5_missing: 3, cap: 24 }], "Deal 10 damage +3 per 5 missing HP (max +24)."@, Some(Class::Fighter), Some("two_handed"@), seq![CardTag::Attack], false, false, false, false, false, false)
}

fn raging_blow_def() -> (r: CardDef)
    ensures
        is_raging_blow_def(r),
{
    let mut d = fighter_sc("raging_blow", "Raging Blow", "two_handed", 1, vec![
        Effect::DealDamageScaledByMissingHp { target: Target::SingleEnemy, base: 10, per_5_missing: 3, cap: 24 },
    ], "Deal 10 damage +3 per 5 missing HP (max +24).");
    d.rarity = Rarity::Uncommon;
    d.tags = vec![CardTag::Attack];
    d
}

/// The Berserk Roar card.
pub open spec fn is_berserk_roar_def(d: CardDef) -> bool {
    card_fields(d, "berserk_roar"@, "Berserk Roar"@, Rarity::Uncommon, 0, CardType::Spell, seq![ Effect::LoseHp { amount: 3 }, Effect::ApplyStatus { target: Target::AllEnemies, status: StatusType::Threatened, stacks: 2 }], "Lose 3 HP. Apply 2 Threatened to ALL enemies. Exhaust."@, Some(Class::Fighter), Some("two_handed"@), seq![CardTag::Skill], true, false, false, false, false, false)
}

fn berserk_roar_def() -> (r: CardDef)
    ensures
        is_berserk_roar_def(r),
{
    let mut d = fighter_sc("berserk_roar", "Berserk Roar", "two_handed", 0, vec![
        Effect::LoseHp { amount: 3 },
        Effect::ApplyStatus { target: Target::AllEnemies, status: StatusType::Threatened, stacks: 2 },
    ], "Lose 3 HP. Apply 2 Threatened to ALL enemies. Exhaust.");
    d.rarity = Rarity::Uncommon;
    d.exhaust = true;
    d.tags = vec![CardTag::Skill];
    d
}

/// The Unleash Fury card.
pub open spec fn is_unleash_fury_def(d: CardDef) -> bool {
    card_fields(d, "unleash_fury"@, "Unleash Fury"@, Rarity::Rare, 0, CardType::Spell, seq![ Effect::LoseHp { amount: 3 }, Effect::GainEnergy { amount: 2 }, Effect::DrawCards { count: 1 }], "Lose 3 HP. Gain 2 energy. Draw 1 card. Exhaust."@, Some(Class::Fighter), Some("two_handed"@), seq![CardTag::Skill], true, false, false, false, false, false)
}

fn unleash_fury_def() -> (r: CardDef)
    ensures
        is_unleash_fury_def(r),
{
    let mut d = fighter_sc("unleash_fury", "Unleash Fury", "two_handed", 0, vec![
        Effect::LoseHp { amount: 3 },
        Effect::GainEnergy { amount: 2 },
        Effect::DrawCards { count: 1 },
    ], "Lose 3 HP. Gain 2 energy. Draw 1 card. Exhaust.");
    d.rarity = Rarity::Rare;
    d.exhaust = true;
    d.tags = vec![CardTag::Skill];
    d
}

/// The Deathwish card.
pub open spec fn is_deathwish_def(d: CardDef) -> bool {
    card_fields(d, "deathwish"@, "Deathwish"@, Rarity::Legendary, 1, CardType::Spell, seq![ Effect::DealDamageScaledByMissingHp { target: Target::AllEnemies, base: 10, per_5_missing: 2, cap: 16 }], "Deal 10 damage +2 per 5 missing HP (max +16) to ALL enemies. Exhaust."@, Some(Class::Fighter), Some("two_handed"@), seq![CardTag::Attack], true, false, false, false, false, false)
}

fn deathwish_def() -> (r: CardDef)
    ensures
        is_deathwish_def(r),
{
    let mut d = fighter_sc("deathwish", "Deathwish", "two_handed", 1, vec![
        Effect::DealDamageScaledByMissingHp { target: Target::AllEnemies, base: 10, per_5_missing: 2, cap: 16 },
    ], "Deal 10 damage +2 per 5 missing HP (max +16) to ALL enemies. Exhaust.");
    d.rarity = Rarity::Legendary;
    d.exhaust = true;
    d.tags = vec![CardTag::Attack];
    d
}

/// The Sizing Up card.
pub open spec fn is_sizing_up_def(d: CardDef) -> bool {
    card_fields(d, "sizing_up"@, "Sizing Up"@, Rarity::Common, 0, CardType::Spell, seq![Effect::DrawCards { count: 2 }], "Draw 2 cards. Exhaust."@, Some(Class::Fighter), Some("dueling"@), seq![CardTag::Skill], true, false, false, false, false, false)
}

fn sizing_up_def() -> (r: CardDef)
    ensures
        is_sizing_up_def(r),
{
    let mut d = fighter_sc(
        "sizing_up",
        "Sizing Up",
        "dueling",
        0,
        vec![Effect::DrawCards { count: 2 }],
        "Draw 2 cards. Exhaust.",
    );
    d.exhaust = true;
    d.tags = vec![CardTag::Skill];
    d
}

/// The Calculated Strike card.
pub open spec fn is_calculated_strike_def(d: CardDef) -> bool {
    card_fields(d, "calculated_strike"@, "Calculated Strike"@, Rarity::Uncommon, 1, CardType::Spell, seq![ Effect::DealDamage { target: Target::SingleEnemy, amount: 10 }, Effect::DrawPerEnemyWithStatus { status: StatusType::Marked }], "Deal 10 damage. Draw 1 card per enemy with Marked."@, Some(Class::Fighter), Some("dueling"@), seq![CardTag::Attack], false, false, false, false, false, false)
}

fn calculated_strike_def() -> (r: CardDef)
    ensures
        is_calculated_strike_def(r),
{
    let mut d = fighter_sc(
        "calculated_strike",
        "Calculated Strike",
        "dueling",
        1,
        vec![
            Effect::DealDamage {
                target: Target::SingleEnemy,
                amount: 10,
            },
            Effect::DrawPerEnemyWithStatus {
                status: StatusType::Marked,
            },
        ],
        "Deal 10 damage. Draw 1 card per enemy with Marked.",
    );
    d.rarity = Rarity::Uncommon;
    d.tags = vec![CardTag::Attack];
    d
}

/// The Precise Cut card.
pub open spec fn is_precise_cut_def(d: CardDef) -> bool {
    card_fields(d, "precise_cut"@, "Precise Cut"@, Rarity::Common, 1, CardType::Spell, seq![Effect::DealDamageScaledByMarked { target: Target::SingleEnemy, base_damage: 8, per_stack: 3 }], "Deal 8 + 3 per Marked stack damage."@, Some(Class::Fighter), Some("dueling"@), seq![CardTag::Attack], false, false, false, false, false, false)
}

fn precise_cut_def() -> (r: CardDef)
    ensures
        is_precise_cut_def(r),
{
    let mut d = fighter_sc(
        "precise_cut",
        "Precise Cut",
        "dueling",
        1,
        vec![Effect::DealDamageScaledByMarked {
            target: Target::SingleEnemy,
            base_damage: 8,
            per_stack: 3,
        }],
        "Deal 8 + 3 per Marked stack damage.",
    );
    d.tags = vec![CardTag::Attack];
    d
}

/// The Read and React card.
pub open spec fn is_read_and_react_def(d: CardDef) -> bool {
    card_fields(d, "read_and_react"@, "Read and React"@, Rarity::Uncommon, 0, CardType::Spell, seq![ Effect::DrawCards { count: 1 }, Effect::GainBlock { amount: 5 }, Effect::GainEnergy { amount: 1 }], "Draw 1 card. Gain 5 block. Gain 1 energy. Exhaust."@, Some(Class::Fighter), Some("dueling"@), seq![CardTag::Skill, CardTag::Defense], true, false, false, false, false, false)
}

fn read_and_react_def() -> (r: CardDef)
    ensures
        is_read_and_react_def(r),
{
    let mut d = fighter_sc(
        "read_and_react",
        "Read and React",
        "dueling",
        0,
        vec![
            Effect::DrawCards { count: 1 },
            Effect::GainBlock { amount: 5 },
            Effect::GainEnergy { amount: 1 },
        ],
        "Draw 1 card. Gain 5 block. Gain 1 energy. Exhaust.",
    );
    d.rarity = Rarity::Uncommon;
    d.exhaust = true;
    d.tags = vec![CardTag::Skill, CardTag::Defense];
    d
}

/// The Expose Weakness card.
pub open spec fn is_expose_weakness_def(d: CardDef) -> bool {
    card_fields(d, "expose_weakness"@, "Expose Weakness"@, Rarity::Rare, 0, CardType::Spell, seq![Effect::DoubleStatus { target: Target::SingleEnemy, status: StatusType::Marked }], "Double Marked stacks on target. Exhaust."@, Some(Class::Fighter), Some("dueling"@), seq![CardTag::Skill], true, false, false, false, false, false)
}

fn expose_weakness_def() -> (r: CardDef)
    ensures
        is_expose_weakness_def(r),
{
    let mut d = fighter_sc(
        "expose_weakness",
        "Expose Weakness",
        "dueling",
        0,
        vec![Effect::DoubleStatus {
            target: Target::SingleEnemy,
            status: StatusType::Marked,
        }],
        "Double Marked stacks on target. Exhaust.",
    );
    d.rarity = Rarity::Rare;
    d.exhaust = true;
    d.tags = vec![CardTag::Skill];
    d
}

/// The Flurry of Cuts card.
pub open spec fn is_flurry_of_cuts_def(d: CardDef) -> bool {
    card_fields(d, "flurry_of_cuts"@, "Flurry of Cuts"@, Rarity::Rare, 1, CardType::Spell, seq![ Effect::DealDamage { target: Target::SingleEnemy, amount: 4 }, Effect::DealDamage { target: Target::SingleEnemy, amount: 4 }, Effect::DealDamage { target: Target::SingleEnemy, amount: 4 }, Effect::DrawCards { count: 1 }], "Deal 4 damage 3 times. Draw 1 card."@, Some(Class::Fighter), Some("dueling"@), seq![CardTag::Attack], false, false, false, false, false, false)
}

fn flurry_of_cuts_def() -> (r: CardDef)
    ensures
        is_flurry_of_cuts_def(r),
{
    let mut d = fighter_sc(
        "flurry_of_cuts",
        "Flurry of Cuts",
        "dueling",
        1,
        vec![
            Effect::DealDamage {
                target: Target::SingleEnemy,
                amount: 4,
            },
            Effect::DealDamage {
                target: Target::SingleEnemy,
                amount: 4,
            },
            Effect::DealDamage {
                target: Target::SingleEnemy,
                amount: 4,
            },
            Effect::DrawCards { count: 1 },
        ],
        "Deal 4 damage 3 times. Draw 1 card.",
    );
    d.rarity = Rarity::Rare;
    d.tags = vec![CardTag::Attack];
    d
}

/// The Feint card.
pub open spec fn is_feint_def(d: CardDef) -> bool {
    card_fields(d, "feint"@, "Feint"@, Rarity::Common, 0, CardType::Spell, seq![ Effect::DrawAndDiscard { draw: 3, discard: 1 }, Effect::GainBlock { amount: 5 }], "Draw 3 cards, then discard 1. Gain 5 block."@, Some(Class::Fighter), Some("dueling"@), seq![CardTag::Skill], false, false, false, false, false, false)
}

fn feint_def() -> (r: CardDef)
    ensures
        is_feint_def(r),
{
    let mut d = fighter_sc(
        "feint",
        "Feint",
        "dueling",
        0,
        vec![
            Effect::DrawAndDiscard { draw: 3, discard: 1 },
            Effect::GainBlock { amount: 5 },
        ],
        "Draw 3 cards, then discard 1. Gain 5 block.",
    );
    d.tags = vec![CardTag::Skill];
    d
}

/// The Patient Strike card.
pub open spec fn is_patient_strike_def(d: CardDef) -> bool {
    card_fields(d, "patient_strike"@, "Patient Strike"@, Rarity::Uncommon, 1, CardType::Spell, seq![Effect::DealDamage { target: Target::SingleEnemy, amount: 8 }], "Deal 8 damage. (Placeholder — will retain and cost 0 next turn.)"@, Some(Class::Fighter), Some("dueling"@), seq![CardTag::Attack], false, false, false, false, false, false)
}

fn patient_strike_def() -> (r: CardDef)
    ensures
        is_patient_strike_def(r),
{
    let mut d = fighter_sc(
        "patient_strike",
        "Patient Strike",
        "dueling",
        1,
        vec![Effect::DealDamage {
            target: Target::SingleEnemy,
            amount: 8,
        }],
        "Deal 8 damage. (Placeholder — will retain and cost 0 next turn.)",
    );
    d.rarity = Rarity::Uncommon;
    d.tags = vec![CardTag::Attack];
    d
}

/// The Perfect Read card.
pub open spec fn is_perfect_read_def(d: CardDef) -> bool {
    card_fields(d, "perfect_read"@, "Perfect Read"@, Rarity::Legendary, 0, CardType::Spell, seq![ Effect::DrawCards { count: 5 }, Effect::GainEnergy { amount: 1 }], "Draw 5 cards. Gain 1 energy. Exhaust. (Placeholder — will draw to 10 cards.)"@, Some(Class::Fighter), Some("dueling"@), seq![CardTag::Skill], true, false, false, false, false, false)
}

fn perfect_read_def() -> (r: CardDef)
    ensures
        is_perfect_read_def(r),
{
    let mut d = fighter_sc(
        "perfect_read",
        "Perfect Read",
        "dueling",
        0,
        vec![
            Effect::DrawCards { count: 5 },
            Effect::GainEnergy { amount: 1 },
        ],
        "Draw 5 cards. Gain 1 energy. Exhaust. (Placeholder — will draw to 10 cards.)",
    );
    d.rarity = Rarity::Legendary;
    d.exhaust = true;
    d.tags = vec![CardTag::Skill];
    d
}

/// The Riposte card.
pub open spec fn is_riposte_def(d: CardDef) -> bool {
    card_fields(d, "riposte"@, "Riposte"@, Rarity::Uncommon, 1, CardType::Spell, seq![ Effect::DealDamage { target: Target::SingleEnemy, amount: 10 }, Effect::GainBlock { amount: 8 }, Effect::ApplyStatus { target: Target::SingleEnemy, status: StatusType::Marked, stacks: 1 }], "Deal 10 damage. Gain 8 block. Apply 1 Marked."@, Some(Class::Fighter), Some("dueling"@), seq![CardTag::Attack, CardTag::Defense], false, false, false, false, false, false)
}

fn riposte_def() -> (r: CardDef)
    ensures
        is_riposte_def(r),
{
    let mut d = fighter_sc(
        "riposte",
        "Riposte",
        "dueling",
        1,
        vec![
            Effect::DealDamage {
                target: Target::SingleEnemy,
                amount: 10,
            },
            Effect::GainBlock { amount: 8 },
            Effect::ApplyStatus {
                target: Target::SingleEnemy,
                status: StatusType::Marked,
                stacks: 1,
            },
        ],
        "Deal 10 damage. Gain 8 block. Apply 1 Marked.",
    );
    d.rarity = Rarity::Uncommon;
    d.tags = vec![CardTag::Attack, CardTag::Defense];
    d
}

/// The Perfect Rhythm card.
pub open spec fn is_perfect_rhythm_def(d: CardDef) -> bool {
    card_fields(d, "perfect_rhythm"@, "Perfect Rhythm"@, Rarity::Legendary, 1, CardType::Spell, seq![ Effect::DrawCards { count: 4 }, Effect::GainBlock { amount: 8 }], "Draw 4 cards. Gain 8 block. Exhaust."@, Some(Class::Fighter), Some("dueling"@), seq![CardTag::Skill], true, false, false, false, false, false)
}

fn perfect_rhythm_def() -> (r: CardDef)
    ensures
        is_perfect_rhythm_def(r),
{
    let mut d = fighter_sc(
        "perfect_rhythm",
        "Perfect Rhythm",
        "dueling",
        1,
        vec![
            Effect::DrawCards { count: 4 },
            Effect::GainBlock { amount: 8 },
        ],
        "Draw 4 cards. Gain 8 block. Exhaust.",
    );
    d.rarity = Rarity::Legendary;
    d.exhaust = true;
    d.tags = vec![CardTag::Skill];
    d
}

/// The Power Strike card.
pub open spec fn is_power_strike_def(d: CardDef) -> bool {
    card_fields(d, "power_strike"@, "Power Strike"@, Rarity::Common, 2, CardType::Spell, seq![Effect::DealDamage { target: Target::SingleEnemy, amount: 20 }], "Deal 20 damage."@, None, None, seq![CardTag::Attack], false, false, false, false, false, false)
}

fn power_strike_def() -> (r: CardDef)
    ensures
        is_power_strike_def(r),
{
    let mut d = universal(
        "power_strike",
        "Power Strike",
        2,
        vec![Effect::DealDamage {
            target: Target::SingleEnemy,
            amount: 20,
        }],
        "Deal 20 damage.",
    );
    d.tags = vec![CardTag::Attack];
    d
}

/// The Quick Slash card.
pub open spec fn is_quick_slash_def(d: CardDef) -> bool {
    card_fields(d, "quick_slash"@, "Quick Slash"@, Rarity::Common, 0, CardType::Spell, seq![Effect::DealDamage { target: Target::SingleEnemy, amount: 4 }], "Deal 4 damage."@, None, None, seq![CardTag::Attack], false, false, false, false, false, false)
}

fn quick_slash_def() -> (r: CardDef)
    ensures
        is_quick_slash_def(r),
{
    let mut d = universal(
        "quick_slash",
        "Quick Slash",
        0,
        vec![Effect::DealDamage {
            target: Target::SingleEnemy,
            amount: 4,
        }],
        "Deal 4 damage.",
    );
    d.tags = vec![CardTag::Attack];
    d
}

/// The Vicious Strike card.
pub open spec fn is_vicious_strike_def(d: CardDef) -> bool {
    card_fields(d, "vicious_strike"@, "Vicious Strike"@, Rarity::Common, 1, CardType::Spell, seq![ Effect::DealDamage { target: Target::SingleEnemy, amount: 8 }, Effect::ApplyStatus { target: Target::SingleEnemy, status: StatusType::Bleeding, stacks: 1 }], "Deal 8 damage. Apply 1 Bleeding."@, None, None, seq![CardTag::Attack], false, false, false, false, false, false)
}

fn vicious_strike_def() -> (r: CardDef)
    ensures
        is_vicious_strike_def(r),
{
    let mut d = universal(
        "vicious_strike",
        "Vicious Strike",
        1,
        vec![
            Effect::DealDamage {
                target: Target::SingleEnemy,
                amount: 8,
            },
            Effect::ApplyStatus {
                target: Target::SingleEnemy,
                status: StatusType::Bleeding,
                stacks: 1,
            },
        ],
        "Deal 8 damage. Apply 1 Bleeding.",
    );
    d.tags = vec![CardTag::Attack];
    d
}

/// The Double Strike card.
pub open spec fn is_double_strike_def(d: CardDef) -> bool {
    card_fields(d, "double_strike"@, "Double Strike"@, Rarity::Common, 1, CardType::Spell, seq![ Effect::DealDamage { target: Target::SingleEnemy, amount: 6 }, Effect::DealDamage { target: Target::SingleEnemy, amount: 6 }], "Deal 6 damage twice."@, None, None, seq![CardTag::Attack], false, false, false, false, false, false)
}

fn double_strike_def() -> (r: CardDef)
    ensures
        is_double_strike_def(r),
{
    let mut d = universal(
        "double_strike",
        "Double Strike",
        1,
        vec![
            Effect::DealDamage {
                target: Target::SingleEnemy,
                amount: 6,
            },
            Effect::DealDamage {
                target: Target::SingleEnemy,
                amount: 6,
            },
        ],
        "Deal 6 damage twice.",
    );
    d.tags = vec![CardTag::Attack];
    d
}

/// The Brace for Impact card.
pub open spec fn is_brace_for_impact_def(d: CardDef) -> bool {
    card_fields(d, "brace_for_impact"@, "Brace for Impact"@, Rarity::Common, 1, CardType::Spell, seq![Effect::GainBlock { amount: 12 }], "Gain 12 block."@, None, None, seq![CardTag::Defense], false, false, false, false, false, false)
}

fn brace_for_impact_def() -> (r: CardDef)
    ensures
        is_brace_for_impact_def(r),
{
    let mut d = universal(
        "brace_for_impact",
        "Brace for Impact",
        1,
        vec![Effect::GainBlock { amount: 12 }],
        "Gain 12 block.",
    );
    d.tags = vec![CardTag::Defense];
    d
}

/// The Hold the Line card.
pub open spec fn is_hold_the_line_def(d: CardDef) -> bool {
    card_fields(d, "hold_the_line"@, "Hold the Line"@, Rarity::Common, 1, CardType::Spell, seq![ Effect::GainBlock { amount: 10 }, Effect::ApplyStatus { target: Target::SingleEnemy, status: StatusType::Weakened, stacks: 1 }], "Gain 10 block. Apply 1 Weakened."@, None, None, seq![CardTag::Defense], false, false, false, false, false, false)
}

fn hold_the_line_def() -> (r: CardDef)
    ensures
        is_hold_the_line_def(r),
{
    let mut d = universal(
        "hold_the_line",
        "Hold the Line",
        1,
        vec![
            Effect::GainBlock { amount: 10 },
            Effect::ApplyStatus {
                target: Target::SingleEnemy,
                status: StatusType::Weakened,
                stacks: 1,
            },
        ],
        "Gain 10 block. Apply 1 Weakened.",
    );
    d.tags = vec![CardTag::Defense];
    d
}

/// The Taunt card.
pub open spec fn is_taunt_def(d: CardDef) -> bool {
    card_fields(d, "taunt"@, "Taunt"@, Rarity::Common, 1, CardType::Spell, seq![Effect::ApplyStatus { target: Target::SingleEnemy, status: StatusType::Threatened, stacks: 2 }], "Apply 2 Threatened."@, None, None, seq![CardTag::Skill], false, false, false, false, false, false)
}

fn taunt_def() -> (r: CardDef)
    ensures
        is_taunt_def(r),
{
    let mut d = universal(
        "taunt",
        "Taunt",
        1,
        vec![Effect::ApplyStatus {
            target: Target::SingleEnemy,
            status: StatusType::Threatened,
            stacks: 2,
        }],
        "Apply 2 Threatened.",
    );
    d.tags = vec![CardTag::Skill];
    d
}

/// The Focus card.
pub open spec fn is_focus_def(d: CardDef) -> bool {
    card_fields(d, "focus"@, "Focus"@, Rarity::Common, 0, CardType::Spell, seq![ Effect::DrawCards { count: 1 }, Effect::GainBlock { amount: 4 }], "Draw 1 card. Gain 4 block."@, None, None, seq![CardTag::Skill], false, false, false, false, false, false)
}

fn focus_def() -> (r: CardDef)
    ensures
        is_focus_def(r),
{
    let mut d = universal(
        "focus",
        "Focus",
        0,
        vec![
            Effect::DrawCards { count: 1 },
            Effect::GainBlock { amount: 4 },
        ],
        "Draw 1 card. Gain 4 block.",
    );
    d.tags = vec![CardTag::Skill];
    d
}

/// The Martial Ascendancy card.
pub open spec fn is_martial_ascendancy_def(d: CardDef) -> bool {
    card_fields(d, "martial_ascendancy"@, "Martial Ascendancy"@, Rarity::Legendary, 0, CardType::Spell, seq![ Effect::DealDamage { target: Target::SingleEnemy, amount: 40 }, Effect::DrawCards { count: 2 }, Effect::GainEnergy { amount: 2 }, Effect::GainBlock { amount: 20 }], "Deal 40 damage. Draw 2 cards. Gain 2 energy. Gain 20 block."@, None, None, seq![CardTag::Attack, CardTag::Skill], false, false, false, true, false, false)
}

fn martial_ascendancy_def() -> (r: CardDef)
    ensures
        is_martial_ascendancy_def(r),
{
    let mut d = universal(
        "martial_ascendancy",
        "Martial Ascendancy",
        0,
        vec![
            Effect::DealDamage {
                target: Target::SingleEnemy,
                amount: 40,
            },
            Effect::DrawCards { count: 2 },
            Effect::GainEnergy { amount: 2 },
            Effect::GainBlock { amount: 20 },
        ],
        "Deal 40 damage. Draw 2 cards. Gain 2 energy. Gain 20 block.",
    );
    d.rarity = Rarity::Legendary;
    d.innate = true;
    d.tags = vec![CardTag::Attack, CardTag::Skill];
    d
}

/// The Iron Fortress card.
pub open spec fn is_iron_fortress_def(d: CardDef) -> bool {
    card_fields(d, "iron_fortress"@, "Iron Fortress"@, Rarity::Legendary, 1, CardType::Spell, seq![ Effect::GainBlock { amount: 30 }, Effect::RetainBlockPartial { amount: 10 }], "Gain 30 block. Retain up to 10 block permanently. Exhaust."@, Some(Class::Fighter), Some("defense"@), seq![CardTag::Power], true, false, false, false, true, false)
}

fn iron_fortress_def() -> (r: CardDef)
    ensures
        is_iron_fortress_def(r),
{
    let mut d = fighter_sc(
        "iron_fortress",
        "Iron Fortress",
        "defense",
        1,
        vec![
            Effect::GainBlock { amount: 30 },
            Effect::RetainBlockPartial { amount: 10 },
        ],
        "Gain 30 block. Retain up to 10 block permanently. Exhaust.",
    );
    d.rarity = Rarity::Legendary;
    d.exhaust = true;
    d.milestone = true;
    d.tags = vec![CardTag::Power];
    d
}

/// The Titan's Fury card.
pub open spec fn is_titans_fury_def(d: CardDef) -> bool {
    card_fields(d, "titans_fury"@, "Titan's Fury"@, Rarity::Legendary, 0, CardType::Spell, seq![ Effect::ApplyStatus { target: Target::Player, status: StatusType::Empowered, stacks: 5 }, Effect::DrawCards { count: 3 }], "Gain 5 Empowered. Draw 3 cards. Exhaust."@, Some(Class::Fighter), Some("two_handed"@), seq![CardTag::Power], true, false, false, false, true, false)
}

fn titans_fury_def() -> (r: CardDef)
    ensures
        is_titans_fury_def(r),
{
    let mut d = fighter_sc(
        "titans_fury",
        "Titan's Fury",
        "two_handed",
        0,
        vec![
            Effect::ApplyStatus {
                target: Target::Player,
                status: StatusType::Empowered,
                stacks: 5,
            },
            Effect::DrawCards { count: 3 },
        ],
        "Gain 5 Empowered. Draw 3 cards. Exhaust.",
    );
    d.rarity = Rarity::Legendary;
    d.exhaust = true;
    d.milestone = true;
    d.tags = vec![CardTag::Power];
    d
}

/// The Coup de Grace card.
pub open spec fn is_coup_de_grace_def(d: CardDef) -> bool {
    card_fields(d, "coup_de_grace"@, "Coup de Grace"@, Rarity::Legendary, 2, CardType::Spell, seq![Effect::DealDamageScaledByMarked { target: Target::SingleEnemy, base_damage: 10, per_stack: 3 }], "Deal 10 + 3 per Marked stack damage. Exhaust."@, Some(Class::Fighter), Some("dueling"@), seq![CardTag::Attack], true, false, false, false, true, false)
}

fn coup_de_grace_def() -> (r: CardDef)
    ensures
        is_coup_de_grace_def(r),
{
    let mut d = fighter_sc(
        "coup_de_grace",
        "Coup de Grace",
        "dueling",
        2,
        vec![Effect::DealDamageScaledByMarked {
            target: Target::SingleEnemy,
            base_damage: 10,
            per_stack: 3,
        }],
        "Deal 10 + 3 per Marked stack damage. Exhaust.",
    );
    d.rarity = Rarity::Legendary;
    d.exhaust = true;
    d.milestone = true;
    d.tags = vec![CardTag::Attack];
    d
}

/// The Adrenaline Rush card.
pub open spec fn is_adrenaline_rush_def(d: CardDef) -> bool {
    card_fields(d, "adrenaline_rush"@, "Adrenaline Rush"@, Rarity::Common, 0, CardType::Spell, seq![ Effect::DrawCards { count: 2 }, Effect::GainEnergy { amount: 1 }], "Draw 2 cards. Gain 1 energy. Exhaust."@, Some(Class::Fighter), None, seq![CardTag::Skill], true, false, false, false, false, false)
}

fn adrenaline_rush_def() -> (r: CardDef)
    ensures
        is_adrenaline_rush_def(r),
{
    let mut d = fighter(
        "adrenaline_rush",
        "Adrenaline Rush",
        0,
        vec![
            Effect::DrawCards { count: 2 },
            Effect::GainEnergy { amount: 1 },
        ],
        "Draw 2 cards. Gain 1 energy. Exhaust.",
    );
    d.exhaust = true;
    d.tags = vec![CardTag::Skill];
    d
}

/// The Exploit Opening card.
pub open spec fn is_exploit_opening_def(d: CardDef) -> bool {
    card_fields(d, "exploit_opening"@, "Exploit Opening"@, Rarity::Common, 0, CardType::Spell, seq![Effect::DealDamageScaledByMarked { target: Target::SingleEnemy, base_damage: 4, per_stack: 3 }], "Deal 4 + 3 per Marked stack damage."@, Some(Class::Fighter), Some("dueling"@), seq![CardTag::Attack], false, false, false, false, false, false)
}

fn exploit_opening_def() -> (r: CardDef)
    ensures
        is_exploit_opening_def(r),
{
    let mut d = fighter_sc(
        "exploit_opening",
        "Exploit Opening",
        "dueling",
        0,
        vec![Effect::DealDamageScaledByMarked {
            target: Target::SingleEnemy,
            base_damage: 4,
            per_stack: 3,
        }],
        "Deal 4 + 3 per Marked stack damage.",
    );
    d.tags = vec![CardTag::Attack];
    d
}

/// The Momentum card.
pub open spec fn is_momentum_def(d: CardDef) -> bool {
    card_fields(d, "momentum"@, "Momentum"@, Rarity::Common, 0, CardType::Spell, seq![Effect::DealDamagePerCardPlayed { target: Target::SingleEnemy, per_card: 3 }], "Deal 3 damage for each card played this turn."@, Some(Class::Fighter), Some("dueling"@), seq![CardTag::Attack], false, false, false, false, false, false)
}

fn momentum_def() -> (r: CardDef)
    ensures
        is_momentum_def(r),
{
    let mut d = fighter_sc(
        "momentum",
        "Momentum",
        "dueling",
        0,
        vec![Effect::DealDamagePerCardPlayed {
            target: Target::SingleEnemy,
            per_card: 3,
        }],
        "Deal 3 damage for each card played this turn.",
    );
    d.tags = vec![CardTag::Attack];
    d
}

/// The Improvise card.
pub open spec fn is_improvise_def(d: CardDef) -> bool {
    card_fields(d, "improvise"@, "Improvise"@, Rarity::Common, 1, CardType::Spell, seq![Effect::DrawAndDiscard { draw: 3, discard: 1 }], "Draw 3 cards. Discard 1. Exhaust."@, None, None, seq![CardTag::Skill], true, false, false, false, false, true)
}

fn improvise_def() -> (r: CardDef)
    ensures
        is_improvise_def(r),
{
    let mut d = universal(
        "improvise",
        "Improvise",
        1,
        vec![Effect::DrawAndDiscard { draw: 3, discard: 1 }],
        "Draw 3 cards. Discard 1. Exhaust.",
    );
    d.exhaust = true;
    d.tags = vec![CardTag::Skill];
    d.inherent = true;
    d
}

/// The Fae Ancestry card.
pub open spec fn is_fae_ancestry_def(d: CardDef) -> bool {
    card_fields(d, "fae_ancestry"@, "Fae Ancestry"@, Rarity::Common, 0, CardType::Spell, seq![ Effect::GainBlock { amount: 8 }, Effect::ApplyStatus { target: Target::Player, status: StatusType::Armored, stacks: 1 }], "Gain 8 block. Gain 1 Armored. Innate. Exhaust."@, None, None, seq![CardTag::Defense], true, false, false, true, false, true)
}

fn fae_ancestry_def() -> (r: CardDef)
    ensures
        is_fae_ancestry_def(r),
{
    let mut d = universal(
        "fae_ancestry",
        "Fae Ancestry",
        0,
        vec![
            Effect::GainBlock { amount: 8 },
            Effect::ApplyStatus {
                target: Target::Player,
                status: StatusType::Armored,
                stacks: 1,
            },
        ],
        "Gain 8 block. Gain 1 Armored. Innate. Exhaust.",
    );
    d.innate = true;
    d.exhaust = true;
    d.tags = vec![CardTag::Defense];
    d.inherent = true;
    d
}

/// The Blood Price card.
pub open spec fn is_blood_price_def(d: CardDef) -> bool {
    card_fields(d, "blood_price"@, "Blood Price"@, Rarity::Common, 0, CardType::Spell, seq![ Effect::GainEnergy { amount: 2 }, Effect::LoseHp { amount: 4 }], "Gain 2 energy. Lose 4 HP. Exhaust."@, None, None, seq![CardTag::Skill], true, false, false, false, false, true)
}

fn blood_price_def() -> (r: CardDef)
    ensures
        is_blood_price_def(r),
{
    let mut d = universal(
        "blood_price",
        "Blood Price",
        0,
        vec![
            Effect::GainEnergy { amount: 2 },
            Effect::LoseHp { amount: 4 },
        ],
        "Gain 2 energy. Lose 4 HP. Exhaust.",
    );
    d.exhaust = true;
    d.tags = vec![CardTag::Skill];
    d.inherent = true;
    d
}

/// The Stonewall card.
pub open spec fn is_stonewall_def(d: CardDef) -> bool {
    card_fields(d, "stonewall"@, "Stonewall"@, Rarity::Common, 1, CardType::Spell, seq![Effect::GainBlock { amount: 14 }], "Gain 14 block."@, None, None, seq![CardTag::Defense], false, false, false, false, false, true)
}

fn stonewall_def() -> (r: CardDef)
    ensures
        is_stonewall_def(r),
{
    let mut d = universal(
        "stonewall",
        "Stonewall",
        1,
        vec![Effect::GainBlock { amount: 14 }],
        "Gain 14 block.",
    );
    d.tags = vec![CardTag::Defense];
    d.inherent = true;
    d
}

/// The Flash Bang card.
pub open spec fn is_flash_bang_def(d: CardDef) -> bool {
    card_fields(d, "flash_bang"@, "Flash Bang"@, Rarity::Common, 1, CardType::Spell, seq![Effect::ApplyStatus { target: Target::AllEnemies, status: StatusType::Weakened, stacks: 1 }], "Apply 1 Weakened to ALL enemies. Innate. Exhaust."@, None, None, seq![CardTag::Skill], true, false, false, true, false, true)
}

fn flash_bang_def() -> (r: CardDef)
    ensures
        is_flash_bang_def(r),
{
    let mut d = universal(
        "flash_bang",
        "Flash Bang",
        1,
        vec![Effect::ApplyStatus {
            target: Target::AllEnemies,
            status: StatusType::Weakened,
            stacks: 1,
        }],
        "Apply 1 Weakened to ALL enemies. Innate. Exhaust.",
    );
    d.innate = true;
    d.exhaust = true;
    d.tags = vec![CardTag::Skill];
    d.inherent = true;
    d
}

/// The Nimble Dodge card.
pub open spec fn is_nimble_dodge_def(d: CardDef) -> bool {
    card_fields(d, "nimble_dodge"@, "Nimble Dodge"@, Rarity::Common, 0, CardType::Spell, seq![ Effect::GainBlock { amount: 4 }, Effect::DrawCards { count: 1 }], "Gain 4 block. Draw 1 card."@, None, None, seq![CardTag::Defense], false, false, false, false, false, true)
}

fn nimble_dodge_def() -> (r: CardDef)
    ensures
        is_nimble_dodge_def(r),
{
    let mut d = universal(
        "nimble_dodge",
        "Nimble Dodge",
        0,
        vec![
            Effect::GainBlock { amount: 4 },
            Effect::DrawCards { count: 1 },
        ],
        "Gain 4 block. Draw 1 card.",
    );
    d.tags = vec![CardTag::Defense];
    d.inherent = true;
    d
}

/// The Savage Charge card.
pub open spec fn is_savage_charge_def(d: CardDef) -> bool {
    card_fields(d, "savage_charge"@, "Savage Charge"@, Rarity::Common, 1, CardType::Spell, seq![ Effect::DealDamage { target: Target::SingleEnemy, amount: 18 }, Effect::LoseHp { amount: 4 }], "Deal 18 damage. Lose 4 HP."@, None, None, seq![CardTag::Attack], false, false, false, false, false, true)
}

fn savage_charge_def() -> (r: CardDef)
    ensures
        is_savage_charge_def(r),
{
    let mut d = universal(
        "savage_charge",
        "Savage Charge",
        1,
        vec![
            Effect::DealDamage {
                target: Target::SingleEnemy,
                amount: 18,
            },
            Effect::LoseHp { amount: 4 },
        ],
        "Deal 18 damage. Lose 4 HP.",
    );
    d.tags = vec![CardTag::Attack];
    d.inherent = true;
    d
}

/// The Shiv card.
pub open spec fn is_shiv_def(d: CardDef) -> bool {
    card_fields(d, "shiv"@, "Shiv"@, Rarity::Common, 0, CardType::Spell, seq![Effect::DealDamage { target: Target::SingleEnemy, amount: 4 }], "Deal 4 damage. Recycle."@, None, None, seq![CardTag::Attack], false, true, false, false, false, true)
}

fn shiv_def() -> (r: CardDef)
    ensures
        is_shiv_def(r),
{
    let mut d = universal(
        "shiv",
        "Shiv",
        0,
        vec![Effect::DealDamage {
            target: Target::SingleEnemy,
            amount: 4,
        }],
        "Deal 4 damage. Recycle.",
    );
    d.recycle = true;
    d.tags = vec![CardTag::Attack];
    d.inherent = true;
    d
}

/// The Dragon Breath card.
pub open spec fn is_dragon_breath_def(d: CardDef) -> bool {
    card_fields(d, "dragon_breath"@, "Dragon Breath"@, Rarity::Common, 2, CardType::Spell, seq![Effect::DealDamage { target: Target::AllEnemies, amount: 12 }], "Deal 12 damage to ALL enemies. Exhaust."@, None, None, seq![CardTag::Attack], true, false, false, false, false, true)
}

fn dragon_breath_def() -> (r: CardDef)
    ensures
        is_dragon_breath_def(r),
{
    let mut d = universal(
        "dragon_breath",
        "Dragon Breath",
        2,
        vec![Effect::DealDamage {
            target: Target::AllEnemies,
            amount: 12,
        }],
        "Deal 12 damage to ALL enemies. Exhaust.",
    );
    d.exhaust = true;
    d.tags = vec![CardTag::Attack];
    d.inherent = true;
    d
}

/// The Pounce card.
pub open spec fn is_pounce_def(d: CardDef) -> bool {
    card_fields(d, "pounce"@, "Pounce"@, Rarity::Common, 1, CardType::Spell, seq![ Effect::DealDamage { target: Target::SingleEnemy, amount: 10 }, Effect::DrawCards { count: 1 }], "Deal 10 damage. Draw 1 card."@, None, None, seq![CardTag::Attack], false, false, false, false, false, true)
}

fn pounce_def() -> (r: CardDef)
    ensures
        is_pounce_def(r),
{
    let mut d = universal(
        "pounce",
        "Pounce",
        1,
        vec![
            Effect::DealDamage {
                target: Target::SingleEnemy,
                amount: 10,
            },
            Effect::DrawCards { count: 1 },
        ],
        "Deal 10 damage. Draw 1 card.",
    );
    d.tags = vec![CardTag::Attack];
    d.inherent = true;
    d
}

/// The Battle Discipline card.
pub open spec fn is_battle_discipline_def(d: CardDef) -> bool {
    card_fields(d, "battle_discipline"@, "Battle Discipline"@, Rarity::Common, 1, CardType::Spell, seq![ Effect::DealDamage { target: Target::SingleEnemy, amount: 8 }, Effect::GainBlock { amount: 4 }], "Deal 8 damage. Gain 4 block."@, None, None, seq![], false, false, false, false, false, true)
}

fn battle_discipline_def() -> (r: CardDef)
    ensures
        is_battle_discipline_def(r),
{
    background_card("battle_discipline", "Battle Discipline", 1, vec![
        Effect::DealDamage { target: Target::SingleEnemy, amount: 8 },
        Effect::GainBlock { amount: 4 },
    ], "Deal 8 damage. Gain 4 block.")
}

/// The Studied Analysis card.
pub open spec fn is_studied_analysis_def(d: CardDef) -> bool {
    card_fields(d, "studied_analysis"@, "Studied Analysis"@, Rarity::Common, 1, CardType::Spell, seq![ Effect::DrawCards { count: 2 }, Effect::GainBlock { amount: 3 }], "Draw 2 cards. Gain 3 block."@, None, None, seq![], false, false, false, false, false, true)
}

fn studied_analysis_def() -> (r: CardDef)
    ensures
        is_studied_analysis_def(r),
{
    background_card("studied_analysis", "Studied Analysis", 1, vec![
        Effect::DrawCards { count: 2 },
        Effect::GainBlock { amount: 3 },
    ], "Draw 2 cards. Gain 3 block.")
}

/// The Minor Blessing card.
pub open spec fn is_minor_blessing_def(d: CardDef) -> bool {
    card_fields(d, "minor_blessing"@, "Minor Blessing"@, Rarity::Common, 0, CardType::Spell, seq![ Effect::GainBlock { amount: 6 }, Effect::Heal { amount: 2 }], "Gain 6 block. Heal 2 HP."@, None, None, seq![], false, false, false, false, false, true)
}

fn minor_blessing_def() -> (r: CardDef)
    ensures
        is_minor_blessing_def(r),
{
    background_card("minor_blessing", "Minor Blessing", 0, vec![
        Effect::GainBlock { amount: 6 },
        Effect::Heal { amount: 2 },
    ], "Gain 6 block. Heal 2 HP.")
}

/// The Dirty Trick card.
pub open spec fn is_dirty_trick_def(d: CardDef) -> bool {
    card_fields(d, "dirty_trick"@, "Dirty Trick"@, Rarity::Common, 0, CardType::Spell, seq![ Effect::DealDamage { target: Target::SingleEnemy, amount: 4 }, Effect::ApplyStatus { target: Target::SingleEnemy, status: StatusType::Weakened, stacks: 1 }], "Deal 4 damage. Apply 1 Weakened."@, None, None, seq![], false, false, false, false, false, true)
}

fn dirty_trick_def() -> (r: CardDef)
    ensures
        is_dirty_trick_def(r),
{
    background_card("dirty_trick", "Dirty Trick", 0, vec![
        Effect::DealDamage { target: Target::SingleEnemy, amount: 4 },
        Effect::ApplyStatus { target: Target::SingleEnemy, status: StatusType::Weakened, stacks: 1 },
    ], "Deal 4 damage. Apply 1 Weakened.")
}

/// The Commanding Presence card.
pub open spec fn is_commanding_presence_def(d: CardDef) -> bool {
    card_fields(d, "commanding_presence"@, "Commanding Presence"@, Rarity::Common, 1, CardType::Spell, seq![ Effect::GainBlock { amount: 10 }, Effect::ApplyStatus { target: Target::RandomEnemy, status: StatusType::Threatened, stacks: 1 }], "Gain 10 block. Apply 1 Threatened to a random enemy."@, None, None, seq![], false, false, false, false, false, true)
}

fn commanding_presence_def() -> (r: CardDef)
    ensures
        is_commanding_presence_def(r),
{
    background_card("commanding_presence", "Commanding Presence", 1, vec![
        Effect::GainBlock { amount: 10 },
        Effect::ApplyStatus { target: Target::RandomEnemy, status: StatusType::Threatened, stacks: 1 },
    ], "Gain 10 block. Apply 1 Threatened to a random enemy.")
}

/// The Survival Instinct card.
pub open spec fn is_survival_instinct_def(d: CardDef) -> bool {
    card_fields(d, "survival_instinct"@, "Survival Instinct"@, Rarity::Common, 0, CardType::Spell, seq![ Effect::GainBlock { amount: 5 }, Effect::DrawCards { count: 1 }], "Gain 5 block. Draw 1 card."@, None, None, seq![], false, false, false, false, false, true)
}

fn survival_instinct_def() -> (r: CardDef)
    ensures
        is_survival_instinct_def(r),
{
    background_card("survival_instinct", "Survival Instinct", 0, vec![
        Effect::GainBlock { amount: 5 },
        Effect::DrawCards { count: 1 },
    ], "Gain 5 block. Draw 1 card.")
}

/// The Improvised Weapon card.
pub open spec fn is_improvised_weapon_def(d: CardDef) -> bool {
    card_fields(d, "improvised_weapon"@, "Improvised Weapon"@, Rarity::Common, 1, CardType::Spell, seq![ Effect::DealDamage { target: Target::SingleEnemy, amount: 12 }], "Deal 12 damage."@, None, None, seq![], false, false, false, false, false, true)
}

fn improvised_weapon_def() -> (r: CardDef)
    ensures
        is_improvised_weapon_def(r),
{
    background_card("improvised_weapon", "Improvised Weapon", 1, vec![
        Effect::DealDamage { target: Target::SingleEnemy, amount: 12 },
    ], "Deal 12 damage.")
}

/// The Sea Legs card.
pub open spec fn is_sea_legs_def(d: CardDef) -> bool {
    card_fields(d, "sea_legs"@, "Sea Legs"@, Rarity::Common, 1, CardType::Spell, seq![ Effect::GainBlock { amount: 12 }], "Gain 12 block."@, None, None, seq![], false, false, false, false, false, true)
}

fn sea_legs_def() -> (r: CardDef)
    ensures
        is_sea_legs_def(r),
{
    background_card("sea_legs", "Sea Legs", 1, vec![
        Effect::GainBlock { amount: 12 },
    ], "Gain 12 block.")
}

/// The Backstab card.
pub open spec fn is_backstab_def(d: CardDef) -> bool {
    card_fields(d, "backstab"@, "Backstab"@, Rarity::Common, 0, CardType::Spell, seq![ Effect::DealDamage { target: Target::SingleEnemy, amount: 6 }], "Deal 6 damage."@, None, None, seq![], false, false, false, false, false, true)
}

fn backstab_def() -> (r: CardDef)
    ensures
        is_backstab_def(r),
{
    background_card("backstab", "Backstab", 0, vec![
        Effect::DealDamage { target: Target::SingleEnemy, amount: 6 },
    ], "Deal 6 damage.")
}

/// The Inner Focus card.
pub open spec fn is_inner_focus_def(d: CardDef) -> bool {
    card_fields(d, "inner_focus"@, "Inner Focus"@, Rarity::Common, 1, CardType::Spell, seq![ Effect::DrawCards { count: 3 }], "Draw 3 cards."@, None, None, seq![], false, false, false, false, false, true)
}

fn inner_focus_def() -> (r: CardDef)
    ensures
        is_inner_focus_def(r),
{
    background_card("inner_focus", "Inner Focus", 1, vec![
        Effect::DrawCards { count: 3 },
    ], "Draw 3 cards.")
}

/// The Resourceful card.
pub open spec fn is_resourceful_def(d: CardDef) -> bool {
    card_fields(d, "resourceful"@, "Resourceful"@, Rarity::Common, 0, CardType::Spell, seq![ Effect::GainEnergy { amount: 1 }, Effect::GainBlock { amount: 3 }], "Gain 1 energy. Gain 3 block."@, None, None, seq![], false, false, false, false, false, true)
}

fn resourceful_def() -> (r: CardDef)
    ensures
        is_resourceful_def(r),
{
    background_card("resourceful", "Resourceful", 0, vec![
        Effect::GainEnergy { amount: 1 },
        Effect::GainBlock { amount: 3 },
    ], "Gain 1 energy. Gain 3 block.")
}

/// The Dazzle card.
pub open spec fn is_dazzle_def(d: CardDef) -> bool {
    card_fields(d, "dazzle"@, "Dazzle"@, Rarity::Common, 0, CardType::Spell, seq![ Effect::ApplyStatus { target: Target::AllEnemies, status: StatusType::Weakened, stacks: 1 }], "Apply 1 Weakened to ALL enemies."@, None, None, seq![], false, false, false, false, false, true)
}

fn dazzle_def() -> (r: CardDef)
    ensures
        is_dazzle_def(r),
{
    background_card("dazzle", "Dazzle", 0, vec![
        Effect::ApplyStatus { target: Target::AllEnemies, status: StatusType::Weakened, stacks: 1 },
    ], "Apply 1 Weakened to ALL enemies.")
}

/// The Bloodlust card.
pub open spec fn is_bloodlust_def(d: CardDef) -> bool {
    card_fields(d, "bloodlust"@, "Bloodlust"@, Rarity::Common, 1, CardType::Spell, seq![ Effect::ApplyStatus { target: Target::Player, status: StatusType::Rage, stacks: 3 }, Effect::GainBlock { amount: 6 }], "Gain 3 Rage. Gain 6 block. Exhaust."@, Some(Class::Barbarian), None, seq![CardTag::Skill], true, false, false, false, false, false)
}

fn bloodlust_def() -> (r: CardDef)
    ensures
        is_bloodlust_def(r),
{
    let mut d = barbarian("bloodlust", "Bloodlust", 1, vec![
        Effect::ApplyStatus { target: Target::Player, status: StatusType::Rage, stacks: 3 },
        Effect::GainBlock { amount: 6 },
    ], "Gain 3 Rage. Gain 6 block. Exhaust.");
    d.exhaust = true;
    d.tags = vec![CardTag::Skill];
    d
}

/// The Raging Strike card.
pub open spec fn is_raging_strike_def(d: CardDef) -> bool {
    card_fields(d, "raging_strike"@, "Raging Strike"@, Rarity::Common, 1, CardType::Spell, seq![ Effect::DealDamage { target: Target::SingleEnemy, amount: 10 }, Effect::ApplyStatus { target: Target::Player, status: StatusType::Rage, stacks: 1 }], "Deal 10 damage. Gain 1 Rage."@, Some(Class::Barbarian), Some("berserker"@), seq![CardTag::Attack], false, false, false, false, false, false)
}

fn raging_strike_def() -> (r: CardDef)
    ensures
        is_raging_strike_def(r),
{
    let mut d = barbarian_sc("raging_strike", "Raging Strike", "berserker", 1, vec![
        Effect::DealDamage { target: Target::SingleEnemy, amount: 10 },
        Effect::ApplyStatus { target: Target::Player, status: StatusType::Rage, stacks: 1 },
    ], "Deal 10 damage. Gain 1 Rage.");
    d.tags = vec![CardTag::Attack];
    d
}

/// The Totem Guard card.
pub open spec fn is_totem_guard_def(d: CardDef) -> bool {
    card_fields(d, "totem_guard"@, "Totem Guard"@, Rarity::Common, 1, CardType::Spell, seq![ Effect::GainBlock { amount: 10 }, Effect::ApplyStatus { target: Target::Player, status: StatusType::Rage, stacks: 1 }], "Gain 10 block. Gain 1 Rage."@, Some(Class::Barbarian), Some("totem_warrior"@), seq![CardTag::Defense], false, false, false, false, false, false)
}

fn totem_guard_def() -> (r: CardDef)
    ensures
        is_totem_guard_def(r),
{
    let mut d = barbarian_sc("totem_guard", "Totem Guard", "totem_warrior", 1, vec![
        Effect::GainBlock { amount: 10 },
        Effect::ApplyStatus { target: Target::Player, status: StatusType::Rage, stacks: 1 },
    ], "Gain 10 block. Gain 1 Rage.");
    d.tags = vec![CardTag::Defense];
    d
}

/// The Frenzied Slash card.
pub open spec fn is_frenzied_slash_def(d: CardDef) -> bool {
    card_fields(d, "frenzied_slash"@, "Frenzied Slash"@, Rarity::Common, 1, CardType::Spell, seq![ Effect::DealDamage { target: Target::SingleEnemy, amount: 8 }, Effect::DrawCards { count: 1 }], "Deal 8 damage. Draw 1 card."@, Some(Class::Barbarian), Some("frenzy"@), seq![CardTag::Attack], false, false, false, false, false, false)
}

fn frenzied_slash_def() -> (r: CardDef)
    ensures
        is_frenzied_slash_def(r),
{
    let mut d = barbarian_sc("frenzied_slash", "Frenzied Slash", "frenzy", 1, vec![
        Effect::DealDamage { target: Target::SingleEnemy, amount: 8 },
        Effect::DrawCards { count: 1 },
    ], "Deal 8 damage. Draw 1 card.");
    d.tags = vec![CardTag::Attack];
    d
}

/// The Battle Fury card.
pub open spec fn is_battle_fury_def(d: CardDef) -> bool {
    card_fields(d, "battle_fury"@, "Battle Fury"@, Rarity::Common, 0, CardType::Spell, seq![ Effect::GainEnergy { amount: 1 }, Effect::ApplyStatus { target: Target::Player, status: StatusType::Rage, stacks: 2 }], "Gain 1 energy. Gain 2 Rage. Exhaust."@, Some(Class::Barbarian), None, seq![CardTag::Skill], true, false, false, false, false, false)
}

fn battle_fury_def() -> (r: CardDef)
    ensures
        is_battle_fury_def(r),
{
    let mut d = barbarian("battle_fury", "Battle Fury", 0, vec![
        Effect::GainEnergy { amount: 1 },
        Effect::ApplyStatus { target: Target::Player, status: StatusType::Rage, stacks: 2 },
    ], "Gain 1 energy. Gain 2 Rage. Exhaust.");
    d.exhaust = true;
    d.tags = vec![CardTag::Skill];
    d
}

/// The Thick Skin card.
pub open spec fn is_thick_skin_def(d: CardDef) -> bool {
    card_fields(d, "thick_skin"@, "Thick Skin"@, Rarity::Common, 0, CardType::Spell, seq![ Effect::GainBlock { amount: 8 }, Effect::DrawCards { count: 1 }], "Gain 8 block. Draw 1 card. Innate. Exhaust."@, Some(Class::Barbarian), None, seq![CardTag::Defense], true, false, false, true, false, false)
}

fn thick_skin_def() -> (r: CardDef)
    ensures
        is_thick_skin_def(r),
{
    let mut d = barbarian("thick_skin", "Thick Skin", 0, vec![
        Effect::GainBlock { amount: 8 },
        Effect::DrawCards { count: 1 },
    ], "Gain 8 block. Draw 1 card. Innate. Exhaust.");
    d.exhaust = true;
    d.innate = true;
    d.tags = vec![CardTag::Defense];
    d
}

/// The Primal Surge card.
pub open spec fn is_primal_surge_def(d: CardDef) -> bool {
    card_fields(d, "primal_surge"@, "Primal Surge"@, Rarity::Common, 0, CardType::Spell, seq![ Effect::DrawCards { count: 2 }, Effect::GainEnergy { amount: 1 }], "Draw 2 cards. Gain 1 energy. Exhaust."@, Some(Class::Barbarian), None, seq![CardTag::Skill], true, false, false, false, false, false)
}

fn primal_surge_def() -> (r: CardDef)
    ensures
        is_primal_surge_def(r),
{
    let mut d = barbarian("primal_surge", "Primal Surge", 0, vec![
        Effect::DrawCards { count: 2 },
        Effect::GainEnergy { amount: 1 },
    ], "Draw 2 cards. Gain 1 energy. Exhaust.");
    d.exhaust = true;
    d.tags = vec![CardTag::Skill];
    d
}

/// The Undying Rage card.
pub open spec fn is_undying_rage_def(d: CardDef) -> bool {
    card_fields(d, "undying_rage"@, "Undying Rage"@, Rarity::Common, 0, CardType::Spell, seq![ Effect::BlockEqualMissingHp { max: 20 }, Effect::ApplyStatus { target: Target::Player, status: StatusType::Rage, stacks: 1 }], "Gain block equal to missing HP (max 20). Gain 1 Rage. Innate. Exhaust."@, Some(Class::Barbarian), None, seq![CardTag::Defense], true, false, false, true, false, false)
}

fn undying_rage_def() -> (r: CardDef)
    ensures
        is_undying_rage_def(r),
{
    let mut d = barbarian("undying_rage", "Undying Rage", 0, vec![
        Effect::BlockEqualMissingHp { max: 20 },
        Effect::ApplyStatus { target: Target::Player, status: StatusType::Rage, stacks: 1 },
    ], "Gain block equal to missing HP (max 20). Gain 1 Rage. Innate. Exhaust.");
    d.exhaust = true;
    d.innate = true;
    d.tags = vec![CardTag::Defense];
    d
}

/// The Blood Offering card.
pub open spec fn is_blood_offering_def(d: CardDef) -> bool {
    card_fields(d, "blood_offering"@, "Blood Offering"@, Rarity::Common, 0, CardType::Spell, seq![ Effect::LoseHp { amount: 3 }, Effect::ApplyStatus { target: Target::Player, status: StatusType::Rage, stacks: 3 }, Effect::GainBlock { amount: 5 }], "Lose 3 HP. Gain 3 Rage. Gain 5 block."@, Some(Class::Barbarian), Some("berserker"@), seq![CardTag::Skill, CardTag::Defense], false, false, false, false, false, false)
}

fn blood_offering_def() -> (r: CardDef)
    ensures
        is_blood_offering_def(r),
{
    let mut d = barbarian_sc("blood_offering", "Blood Offering", "berserker", 0, vec![
        Effect::LoseHp { amount: 3 },
        Effect::ApplyStatus { target: Target::Player, status: StatusType::Rage, stacks: 3 },
        Effect::GainBlock { amount: 5 },
    ], "Lose 3 HP. Gain 3 Rage. Gain 5 block.");
    d.tags = vec![CardTag::Skill, CardTag::Defense];
    d
}

/// The Fury Unleashed card.
pub open spec fn is_fury_unleashed_def(d: CardDef) -> bool {
    card_fields(d, "fury_unleashed"@, "Fury Unleashed"@, Rarity::Uncommon, 1, CardType::Spell, seq![ Effect::DealDamagePerPlayerStatus { target: Target::SingleEnemy, status: StatusType::Rage, per_stack: 4 }], "Deal 4 damage per Rage stack."@, Some(Class::Barbarian), Some("berserker"@), seq![CardTag::Attack], false, false, false, false, false, false)
}

fn fury_unleashed_def() -> (r: CardDef)
    ensures
        is_fury_unleashed_def(r),
{
    let mut d = barbarian_sc("fury_unleashed", "Fury Unleashed", "berserker", 1, vec![
        Effect::DealDamagePerPlayerStatus { target: Target::SingleEnemy, status: StatusType::Rage, per_stack: 4 },
    ], "Deal 4 damage per Rage stack.");
    d.rarity = Rarity::Uncommon;
    d.tags = vec![CardTag::Attack];
    d
}

/// The Bloodbath card.
pub open spec fn is_bloodbath_def(d: CardDef) -> bool {
    card_fields(d, "bloodbath"@, "Bloodbath"@, Rarity::Rare, 1, CardType::Spell, seq![ Effect::LoseHp { amount: 5 }, Effect::DealDamage { target: Target::AllEnemies, amount: 15 }], "Lose 5 HP. Deal 15 damage to ALL enemies."@, Some(Class::Barbarian), Some("berserker"@), seq![CardTag::Attack], false, false, false, false, false, false)
}

fn bloodbath_def() -> (r: CardDef)
    ensures
        is_bloodbath_def(r),
{
    let mut d = barbarian_sc("bloodbath", "Bloodbath", "berserker", 1, vec![
        Effect::LoseHp { amount: 5 },
        Effect::DealDamage { target: Target::AllEnemies, amount: 15 },
    ], "Lose 5 HP. Deal 15 damage to ALL enemies.");
    d.rarity = Rarity::Rare;
    d.tags = vec![CardTag::Attack];
    d
}

/// The Pain is Power card.
pub open spec fn is_pain_is_power_def(d: CardDef) -> bool {
    card_fields(d, "pain_is_power"@, "Pain is Power"@, Rarity::Rare, 0, CardType::Spell, seq![ Effect::ApplyStatus { target: Target::Player, status: StatusType::PainIsPower, stacks: 1 }], "Whenever you lose HP, gain that much Rage. Exhaust."@, Some(Class::Barbarian), Some("berserker"@), seq![CardTag::Power], true, false, false, false, false, false)
}

fn pain_is_power_def() -> (r: CardDef)
    ensures
        is_pain_is_power_def(r),
{
    let mut d = barbarian_sc("pain_is_power", "Pain is Power", "berserker", 0, vec![
        Effect::ApplyStatus { target: Target::Player, status: StatusType::PainIsPower, stacks: 1 },
    ], "Whenever you lose HP, gain that much Rage. Exhaust.");
    d.rarity = Rarity::Rare;
    d.exhaust = true;
    d.tags = vec![CardTag::Power];
    d
}

/// The Deathwish card.
pub open spec fn is_berserker_deathwish_def(d: CardDef) -> bool {
    card_fields(d, "berserker_deathwish"@, "Deathwish"@, Rarity::Legendary, 1, CardType::Spell, seq![ Effect::LoseHp { amount: 8 }, Effect::ApplyStatus { target: Target::Player, status: StatusType::Rage, stacks: 4 }, Effect::DealDamagePerPlayerStatus { target: Target::SingleEnemy, status: StatusType::Rage, per_stack: 4 }], "Lose 8 HP. Gain 4 Rage. Deal 4 damage per Rage stack. Exhaust."@, Some(Class::Barbarian), Some("berserker"@), seq![CardTag::Attack], true, false, false, false, false, false)
}

fn berserker_deathwish_def() -> (r: CardDef)
    ensures
        is_berserker_deathwish_def(r),
{
    let mut d = barbarian_sc("berserker_deathwish", "Deathwish", "berserker", 1, vec![
        Effect::LoseHp { amount: 8 },
        Effect::ApplyStatus { target: Target::Player, status: StatusType::Rage, stacks: 4 },
        Effect::DealDamagePerPlayerStatus { target: Target::SingleEnemy, status: StatusType::Rage, per_stack: 4 },
    ], "Lose 8 HP. Gain 4 Rage. Deal 4 damage per Rage stack. Exhaust.");
    d.rarity = Rarity::Legendary;
    d.exhaust = true;
    d.tags = vec![CardTag::Attack];
    d
}

/// The Wild Swing card.
pub open spec fn is_wild_swing_def(d: CardDef) -> bool {
    card_fields(d, "wild_swing"@, "Wild Swing"@, Rarity::Common, 0, CardType::Spell, seq![ Effect::DealDamage { target: Target::SingleEnemy, amount: 4 }, Effect::ApplyStatus { target: Target::Player, status: StatusType::Rage, stacks: 1 }], "Deal 4 damage. Gain 1 Rage."@, Some(Class::Barbarian), Some("berserker"@), seq![CardTag::Attack], false, false, false, false, false, false)
}

fn wild_swing_def() -> (r: CardDef)
    ensures
        is_wild_swing_def(r),
{
    let mut d = barbarian_sc("wild_swing", "Wild Swing", "berserker", 0, vec![
        Effect::DealDamage { target: Target::SingleEnemy, amount: 4 },
        Effect::ApplyStatus { target: Target::Player, status: StatusType::Rage, stacks: 1 },
    ], "Deal 4 damage. Gain 1 Rage.");
    d.tags = vec![CardTag::Attack];
    d
}

/// The Berserk Flurry card.
pub open spec fn is_berserk_flurry_def(d: CardDef) -> bool {
    card_fields(d, "berserk_flurry"@, "Berserk Flurry"@, Rarity::Uncommon, 1, CardType::Spell, seq![ Effect::DealDamage { target: Target::SingleEnemy, amount: 4 }, Effect::DealDamage { target: Target::SingleEnemy, amount: 4 }, Effect::DealDamage { target: Target::SingleEnemy, amount: 4 }, Effect::DrawCards { count: 1 }], "Deal 4 damage 3 times. Draw 1 card."@, Some(Class::Barbarian), Some("berserker"@), seq![CardTag::Attack], false, false, false, false, false, false)
}

fn berserk_flurry_def() -> (r: CardDef)
    ensures
        is_berserk_flurry_def(r),
{
    let mut d = barbarian_sc("berserk_flurry", "Berserk Flurry", "berserker", 1, vec![
        Effect::DealDamage { target: Target::SingleEnemy, amount: 4 },
        Effect::DealDamage { target: Target::SingleEnemy, amount: 4 },
        Effect::DealDamage { target: Target::SingleEnemy, amount: 4 },
        Effect::DrawCards { count: 1 },
    ], "Deal 4 damage 3 times. Draw 1 card.");
    d.rarity = Rarity::Uncommon;
    d.tags = vec![CardTag::Attack];
    d
}

/// The Savage Momentum card.
pub open spec fn is_savage_momentum_def(d: CardDef) -> bool {
    card_fields(d, "savage_momentum"@, "Savage Momentum"@, Rarity::Uncommon, 1, CardType::Spell, seq![ Effect::DealDamagePerCardPlayed { target: Target::SingleEnemy, per_card: 3 }, Effect::ApplyStatus { target: Target::Player, status: StatusType::Rage, stacks: 1 }], "Deal 3 damage per card played this turn. Gain 1 Rage."@, Some(Class::Barbarian), Some("berserker"@), seq![CardTag::Attack], false, false, false, false, false, false)
}

fn savage_momentum_def() -> (r: CardDef)
    ensures
        is_savage_momentum_def(r),
{
    let mut d = barbarian_sc("savage_momentum", "Savage Momentum", "berserker", 1, vec![
        Effect::DealDamagePerCardPlayed { target: Target::SingleEnemy, per_card: 3 },
        Effect::ApplyStatus { target: Target::Player, status: StatusType::Rage, stacks: 1 },
    ], "Deal 3 damage per card played this turn. Gain 1 Rage.");
    d.rarity = Rarity::Uncommon;
    d.tags = vec![CardTag::Attack];
    d
}

/// The Unstoppable card.
pub open spec fn is_unstoppable_def(d: CardDef) -> bool {
    card_fields(d, "unstoppable"@, "Unstoppable"@, Rarity::Rare, 1, CardType::Spell, seq![ Effect::DealDamage { target: Target::SingleEnemy, amount: 6 }, Effect::GainBlock { amount: 6 }, Effect::DrawCards { count: 1 }, Effect::GainEnergy { amount: 1 }], "Deal 6 damage. Gain 6 block. Draw 1 card. Gain 1 energy. Exhaust."@, Some(Class::Barbarian), Some("berserker"@), seq![CardTag::Attack, CardTag::Skill], true, false, false, false, false, false)
}

fn unstoppable_def() -> (r: CardDef)
    ensures
        is_unstoppable_def(r),
{
    let mut d = barbarian_sc("unstoppable", "Unstoppable", "berserker", 1, vec![
        Effect::DealDamage { target: Target::SingleEnemy, amount: 6 },
        Effect::GainBlock { amount: 6 },
        Effect::DrawCards { count: 1 },
        Effect::GainEnergy { amount: 1 },
    ], "Deal 6 damage. Gain 6 block. Draw 1 card. Gain 1 energy. Exhaust.");
    d.rarity = Rarity::Rare;
    d.exhaust = true;
    d.tags = vec![CardTag::Attack, CardTag::Skill];
    d
}

/// The Rampage card.
pub open spec fn is_rampage_def(d: CardDef) -> bool {
    card_fields(d, "rampage"@, "Rampage"@, Rarity::Legendary, 0, CardType::Spell, seq![ Effect::DealDamage { target: Target::SingleEnemy, amount: 5 }, Effect::DealDamage { target: Target::SingleEnemy, amount: 5 }, Effect::DealDamage { target: Target::SingleEnemy, amount: 5 }, Effect::DealDamage { target: Target::SingleEnemy, amount: 5 }, Effect::ApplyStatus { target: Target::Player, status: StatusType::Rage, stacks: 2 }], "Deal 5 damage 4 times. Gain 2 Rage. Exhaust."@, Some(Class::Barbarian), Some("berserker"@), seq![CardTag::Attack], true, false, false, false, false, false)
}

fn rampage_def() -> (r: CardDef)
    ensures
        is_rampage_def(r),
{
    let mut d = barbarian_sc("rampage", "Rampage", "berserker", 0, vec![
        Effect::DealDamage { target: Target::SingleEnemy, amount: 5 },
        Effect::DealDamage { target: Target::SingleEnemy, amount: 5 },
        Effect::DealDamage { target: Target::SingleEnemy, amount: 5 },
        Effect::DealDamage { target: Target::SingleEnemy, amount: 5 },
        Effect::ApplyStatus { target: Target::Player, status: StatusType::Rage, stacks: 2 },
    ], "Deal 5 damage 4 times. Gain 2 Rage. Exhaust.");
    d.rarity = Rarity::Legendary;
    d.exhaust = true;
    d.tags = vec![CardTag::Attack];
    d
}

/// The Spirit Ward card.
pub open spec fn is_spirit_ward_def(d: CardDef) -> bool {
    card_fields(d, "spirit_ward"@, "Spirit Ward"@, Rarity::Common, 1, CardType::Spell, seq![ Effect::LoseHp { amount: 3 }, Effect::GainBlock { amount: 15 }], "Lose 3 HP. Gain 15 block."@, Some(Class::Barbarian), Some("totem_warrior"@), seq![CardTag::Defense], false, false, false, false, false, false)
}

fn spirit_ward_def() -> (r: CardDef)
    ensures
        is_spirit_ward_def(r),
{
    let mut d = barbarian_sc("spirit_ward", "Spirit Ward", "totem_warrior", 1, vec![
        Effect::LoseHp { amount: 3 },
        Effect::GainBlock { amount: 15 },
    ], "Lose 3 HP. Gain 15 block.");
    d.tags = vec![CardTag::Defense];
    d
}

/// The Ancestral Shield card.
pub open spec fn is_ancestral_shield_def(d: CardDef) -> bool {
    card_fields(d, "ancestral_shield"@, "Ancestral Shield"@, Rarity::Uncommon, 1, CardType::Spell, seq![ Effect::LoseHp { amount: 4 }, Effect::GainBlock { amount: 14 }, Effect::ApplyStatus { target: Target::Player, status: StatusType::Rage, stacks: 3 }], "Lose 4 HP. Gain 14 block. Gain 3 Rage."@, Some(Class::Barbarian), Some("totem_warrior"@), seq![CardTag::Defense], false, false, false, false, false, false)
}

fn ancestral_shield_def() -> (r: CardDef)
    ensures
        is_ancestral_shield_def(r),
{
    let mut d = barbarian_sc("ancestral_shield", "Ancestral Shield", "totem_warrior", 1, vec![
        Effect::LoseHp { amount: 4 },
        Effect::GainBlock { amount: 14 },
        Effect::ApplyStatus { target: Target::Player, status: StatusType::Rage, stacks: 3 },
    ], "Lose 4 HP. Gain 14 block. Gain 3 Rage.");
    d.rarity = Rarity::Uncommon;
    d.tags = vec![CardTag::Defense];
    d
}

/// The Warding Totem card.
pub open spec fn is_warding_totem_card_def(d: CardDef) -> bool {
    card_fields(d, "warding_totem_card"@, "Warding Totem"@, Rarity::Rare, 0, CardType::Spell, seq![ Effect::ApplyStatus { target: Target::Player, status: StatusType::WardingTotem, stacks: 1 }], "Whenever you lose HP, gain 3 block. Exhaust."@, Some(Class::Barbarian), Some("totem_warrior"@), seq![CardTag::Power], true, false, false, false, false, false)
}

fn warding_totem_card_def() -> (r: CardDef)
    ensures
        is_warding_totem_card_def(r),
{
    let mut d = barbarian_sc("warding_totem_card", "Warding Totem", "totem_warrior", 0, vec![
        Effect::ApplyStatus { target: Target::Player, status: StatusType::WardingTotem, stacks: 1 },
    ], "Whenever you lose HP, gain 3 block. Exhaust.");
    d.rarity = Rarity::Rare;
    d.exhaust = true;
    d.tags = vec![CardTag::Power];
    d
}

/// The Fortified Rage card.
pub open spec fn is_fortified_rage_def(d: CardDef) -> bool {
    card_fields(d, "fortified_rage"@, "Fortified Rage"@, Rarity::Uncommon, 1, CardType::Spell, seq![ Effect::GainBlockPerStatusStack { status: StatusType::Rage, multiplier: 2 }], "Gain block equal to 2x your Rage stacks."@, Some(Class::Barbarian), Some("totem_warrior"@), seq![CardTag::Defense], false, false, false, false, false, false)
}

fn fortified_rage_def() -> (r: CardDef)
    ensures
        is_fortified_rage_def(r),
{
    let mut d = barbarian_sc("fortified_rage", "Fortified Rage", "totem_warrior", 1, vec![
        Effect::GainBlockPerStatusStack { status: StatusType::Rage, multiplier: 2 },
    ], "Gain block equal to 2x your Rage stacks.");
    d.rarity = Rarity::Uncommon;
    d.tags = vec![CardTag::Defense];
    d
}

/// The Unbreaking Spirit card.
pub open spec fn is_unbreaking_spirit_def(d: CardDef) -> bool {
    card_fields(d, "unbreaking_spirit"@, "Unbreaking Spirit"@, Rarity::Legendary, 1, CardType::Spell, seq![ Effect::LoseHp { amount: 6 }, Effect::GainBlock { amount: 25 }, Effect::BlockFloor { amount: 5 }, Effect::ApplyStatus { target: Target::Player, status: StatusType::Rage, stacks: 3 }], "Lose 6 HP. Gain 25 block. Block cannot go below 5. Gain 3 Rage. Exhaust."@, Some(Class::Barbarian), Some("totem_warrior"@), seq![CardTag::Defense, CardTag::Power], true, false, false, false, false, false)
}

fn unbreaking_spirit_def() -> (r: CardDef)
    ensures
        is_unbreaking_spirit_def(r),
{
    let mut d = barbarian_sc("unbreaking_spirit", "Unbreaking Spirit", "totem_warrior", 1, vec![
        Effect::LoseHp { amount: 6 },
        Effect::GainBlock { amount: 25 },
        Effect::BlockFloor { amount: 5 },
        Effect::ApplyStatus { target: Target::Player, status: StatusType::Rage, stacks: 3 },
    ], "Lose 6 HP. Gain 25 block. Block cannot go below 5. Gain 3 Rage. Exhaust.");
    d.rarity = Rarity::Legendary;
    d.exhaust = true;
    d.tags = vec![CardTag::Defense, CardTag::Power];
    d
}

/// The War Cry card.
pub open spec fn is_war_cry_def(d: CardDef) -> bool {
    card_fields(d, "war_cry"@, "War Cry"@, Rarity::Common, 1, CardType::Spell, seq![ Effect::ApplyStatus { target: Target::Player, status: StatusType::Rage, stacks: 3 }, Effect::ApplyStatus { target: Target::AllEnemies, status: StatusType::Weakened, stacks: 1 }], "Gain 3 Rage. Apply 1 Weakened to ALL enemies."@, Some(Class::Barbarian), Some("totem_warrior"@), seq![CardTag::Skill], false, false, false, false, false, false)
}

fn war_cry_def() -> (r: CardDef)
    ensures
        is_war_cry_def(r),
{
    let mut d = barbarian_sc("war_cry", "War Cry", "totem_warrior", 1, vec![
        Effect::ApplyStatus { target: Target::Player, status: StatusType::Rage, stacks: 3 },
        Effect::ApplyStatus { target: Target::AllEnemies, status: StatusType::Weakened, stacks: 1 },
    ], "Gain 3 Rage. Apply 1 Weakened to ALL enemies.");
    d.tags = vec![CardTag::Skill];
    d
}

/// The Spirit Mend card.
pub open spec fn is_spirit_mend_def(d: CardDef) -> bool {
    card_fields(d, "spirit_mend"@, "Spirit Mend"@, Rarity::Uncommon, 1, CardType::Spell, seq![ Effect::Heal { amount: 5 }, Effect::ApplyStatus { target: Target::Player, status: StatusType::Mending, stacks: 3 }, Effect::ApplyStatus { target: Target::Player, status: StatusType::Rage, stacks: 1 }], "Heal 5 HP. Gain 3 Mending. Gain 1 Rage."@, Some(Class::Barbarian), Some("totem_warrior"@), seq![CardTag::Skill], false, false, false, false, false, false)
}

fn spirit_mend_def() -> (r: CardDef)
    ensures
        is_spirit_mend_def(r),
{
    let mut d = barbarian_sc("spirit_mend", "Spirit Mend", "totem_warrior", 1, vec![
        Effect::Heal { amount: 5 },
        Effect::ApplyStatus { target: Target::Player, status: StatusType::Mending, stacks: 3 },
        Effect::ApplyStatus { target: Target::Player, status: StatusType::Rage, stacks: 1 },
    ], "Heal 5 HP. Gain 3 Mending. Gain 1 Rage.");
    d.rarity = Rarity::Uncommon;
    d.tags = vec![CardTag::Skill];
    d
}

/// The Vengeful Ancestors card.
pub open spec fn is_vengeful_ancestors_def(d: CardDef) -> bool {
    card_fields(d, "vengeful_ancestors"@, "Vengeful Ancestors"@, Rarity::Rare, 1, CardType::Spell, seq![ Effect::DealDamage { target: Target::SingleEnemy, amount: 8 }, Effect::Heal { amount: 4 }, Effect::ApplyStatus { target: Target::Player, status: StatusType::Rage, stacks: 2 }], "Deal 8 damage. Heal 4 HP. Gain 2 Rage."@, Some(Class::Barbarian), Some("totem_warrior"@), seq![CardTag::Attack], false, false, false, false, false, false)
}

fn vengeful_ancestors_def() -> (r: CardDef)
    ensures
        is_vengeful_ancestors_def(r),
{
    let mut d = barbarian_sc("vengeful_ancestors", "Vengeful Ancestors", "totem_warrior", 1, vec![
        Effect::DealDamage { target: Target::SingleEnemy, amount: 8 },
        Effect::Heal { amount: 4 },
        Effect::ApplyStatus { target: Target::Player, status: StatusType::Rage, stacks: 2 },
    ], "Deal 8 damage. Heal 4 HP. Gain 2 Rage.");
    d.rarity = Rarity::Rare;
    d.tags = vec![CardTag::Attack];
    d
}

/// The Totem of Renewal card.
pub open spec fn is_totem_of_renewal_def(d: CardDef) -> bool {
    card_fields(d, "totem_of_renewal"@, "Totem of Renewal"@, Rarity::Rare, 0, CardType::Spell, seq![ Effect::ApplyStatus { target: Target::Player, status: StatusType::Mending, stacks: 2 }, Effect::ApplyStatus { target: Target::Player, status: StatusType::Rage, stacks: 2 }], "Gain 2 Mending. Gain 2 Rage. Exhaust."@, Some(Class::Barbarian), Some("totem_warrior"@), seq![CardTag::Power], true, false, false, false, false, false)
}

fn totem_of_renewal_def() -> (r: CardDef)
    ensures
        is_totem_of_renewal_def(r),
{
    let mut d = barbarian_sc("totem_of_renewal", "Totem of Renewal", "totem_warrior", 0, vec![
        Effect::ApplyStatus { target: Target::Player, status: StatusType::Mending, stacks: 2 },
        Effect::ApplyStatus { target: Target::Player, status: StatusType::Rage, stacks: 2 },
    ], "Gain 2 Mending. Gain 2 Rage. Exhaust.");
    d.rarity = Rarity::Rare;
    d.exhaust = true;
    d.tags = vec![CardTag::Power];
    d
}

/// The Ancestors' Embrace card.
pub open spec fn is_ancestors_embrace_def(d: CardDef) -> bool {
    card_fields(d, "ancestors_embrace"@, "Ancestors' Embrace"@, Rarity::Legendary, 1, CardType::Spell, seq![ Effect::Heal { amount: 10 }, Effect::GainBlock { amount: 15 }, Effect::ApplyStatus { target: Target::Player, status: StatusType::Mending, stacks: 3 }, Effect::ApplyStatus { target: Target::Player, status: StatusType::Rage, stacks: 3 }], "Heal 10 HP. Gain 15 block. Gain 3 Mending. Gain 3 Rage. Exhaust."@, Some(Class::Barbarian), Some("totem_warrior"@), seq![CardTag::Skill, CardTag::Defense], true, false, false, false, false, false)
}

fn ancestors_embrace_def() -> (r: CardDef)
    ensures
        is_ancestors_embrace_def(r),
{
    let mut d = barbarian_sc("ancestors_embrace", "Ancestors' Embrace", "totem_warrior", 1, vec![
        Effect::Heal { amount: 10 },
        Effect::GainBlock { amount: 15 },
        Effect::ApplyStatus { target: Target::Player, status: StatusType::Mending, stacks: 3 },
        Effect::ApplyStatus { target: Target::Player, status: StatusType::Rage, stacks: 3 },
    ], "Heal 10 HP. Gain 15 block. Gain 3 Mending. Gain 3 Rage. Exhaust.");
    d.rarity = Rarity::Legendary;
    d.exhaust = true;
    d.tags = vec![CardTag::Skill, CardTag::Defense];
    d
}

/// The Desperate Strike card.
pub open spec fn is_desperate_strike_def(d: CardDef) -> bool {
    card_fields(d, "desperate_strike"@, "Desperate Strike"@, Rarity::Common, 1, CardType::Spell, seq![ Effect::DealDamage { target: Target::SingleEnemy, amount: 8 }, Effect::DrawCards { count: 1 }, Effect::ApplyStatus { target: Target::Player, status: StatusType::Rage, stacks: 1 }], "Deal 8 damage. Draw 1 card. Gain 1 Rage."@, Some(Class::Barbarian), Some("frenzy"@), seq![CardTag::Attack], false, false, false, false, false, false)
}

fn desperate_strike_def() -> (r: CardDef)
    ensures
        is_desperate_strike_def(r),
{
    let mut d = barbarian_sc("desperate_strike", "Desperate Strike", "frenzy", 1, vec![
        Effect::DealDamage { target: Target::SingleEnemy, amount: 8 },
        Effect::DrawCards { count: 1 },
        Effect::ApplyStatus { target: Target::Player, status: StatusType::Rage, stacks: 1 },
    ], "Deal 8 damage. Draw 1 card. Gain 1 Rage.");
    d.tags = vec![CardTag::Attack];
    d
}

/// The Adrenaline Spike card.
pub open spec fn is_adrenaline_spike_def(d: CardDef) -> bool {
    card_fields(d, "adrenaline_spike"@, "Adrenaline Spike"@, Rarity::Uncommon, 0, CardType::Spell, seq![ Effect::LoseHp { amount: 3 }, Effect::DrawCards { count: 2 }, Effect::GainEnergy { amount: 1 }], "Lose 3 HP. Draw 2 cards. Gain 1 energy. Exhaust."@, Some(Class::Barbarian), Some("frenzy"@), seq![CardTag::Skill], true, false, false, false, false, false)
}

fn adrenaline_spike_def() -> (r: CardDef)
    ensures
        is_adrenaline_spike_def(r),
{
    let mut d = barbarian_sc("adrenaline_spike", "Adrenaline Spike", "frenzy", 0, vec![
        Effect::LoseHp { amount: 3 },
        Effect::DrawCards { count: 2 },
        Effect::GainEnergy { amount: 1 },
    ], "Lose 3 HP. Draw 2 cards. Gain 1 energy. Exhaust.");
    d.rarity = Rarity::Uncommon;
    d.exhaust = true;
    d.tags = vec![CardTag::Skill];
    d
}

/// The Feral Instinct card.
pub open spec fn is_feral_instinct_def(d: CardDef) -> bool {
    card_fields(d, "feral_instinct"@, "Feral Instinct"@, Rarity::Uncommon, 0, CardType::Spell, seq![ Effect::DrawCards { count: 1 }, Effect::GainBlock { amount: 3 }, Effect::ApplyStatus { target: Target::Player, status: StatusType::Rage, stacks: 1 }], "Draw 1 card. Gain 3 block. Gain 1 Rage. Recycle."@, Some(Class::Barbarian), Some("frenzy"@), seq![CardTag::Skill], false, true, false, false, false, false)
}

fn feral_instinct_def() -> (r: CardDef)
    ensures
        is_feral_instinct_def(r),
{
    let mut d = barbarian_sc("feral_instinct", "Feral Instinct", "frenzy", 0, vec![
        Effect::DrawCards { count: 1 },
        Effect::GainBlock { amount: 3 },
        Effect::ApplyStatus { target: Target::Player, status: StatusType::Rage, stacks: 1 },
    ], "Draw 1 card. Gain 3 block. Gain 1 Rage. Recycle.");
    d.recycle = true;
    d.rarity = Rarity::Uncommon;
    d.tags = vec![CardTag::Skill];
    d
}

/// The Berserker's Trance card.
pub open spec fn is_berserkers_trance_card_def(d: CardDef) -> bool {
    card_fields(d, "berserkers_trance_card"@, "Berserker's Trance"@, Rarity::Rare, 0, CardType::Spell, seq![ Effect::ApplyStatus { target: Target::Player, status: StatusType::BerserkersTrance, stacks: 1 }], "At the start of each turn, lose 2 HP and draw 1 extra card. Exhaust."@, Some(Class::Barbarian), Some("frenzy"@), seq![CardTag::Power], true, false, false, false, false, false)
}

fn berserkers_trance_card_def() -> (r: CardDef)
    ensures
        is_berserkers_trance_card_def(r),
{
    let mut d = barbarian_sc("berserkers_trance_card", "Berserker's Trance", "frenzy", 0, vec![
        Effect::ApplyStatus { target: Target::Player, status: StatusType::BerserkersTrance, stacks: 1 },
    ], "At the start of each turn, lose 2 HP and draw 1 extra card. Exhaust.");
    d.rarity = Rarity::Rare;
    d.exhaust = true;
    d.tags = vec![CardTag::Power];
    d
}

/// The Death's Door card.
pub open spec fn is_deaths_door_def(d: CardDef) -> bool {
    card_fields(d, "deaths_door"@, "Death's Door"@, Rarity::Legendary, 0, CardType::Spell, seq![ Effect::LoseHp { amount: 10 }, Effect::DrawCards { count: 5 }, Effect::GainEnergy { amount: 2 }, Effect::ApplyStatus { target: Target::Player, status: StatusType::Rage, stacks: 5 }], "Lose 10 HP. Draw 5 cards. Gain 2 energy. Gain 5 Rage. Exhaust."@, Some(Class::Barbarian), Some("frenzy"@), seq![CardTag::Skill], true, false, false, false, false, false)
}

fn deaths_door_def() -> (r: CardDef)
    ensures
        is_deaths_door_def(r),
{
    let mut d = barbarian_sc("deaths_door", "Death's Door", "frenzy", 0, vec![
        Effect::LoseHp { amount: 10 },
        Effect::DrawCards { count: 5 },
        Effect::GainEnergy { amount: 2 },
        Effect::ApplyStatus { target: Target::Player, status: StatusType::Rage, stacks: 5 },
    ], "Lose 10 HP. Draw 5 cards. Gain 2 energy. Gain 5 Rage. Exhaust.");
    d.rarity = Rarity::Legendary;
    d.exhaust = true;
    d.tags = vec![CardTag::Skill];
    d
}

/// The Flailing Strike card.
pub open spec fn is_flailing_strike_def(d: CardDef) -> bool {
    card_fields(d, "flailing_strike"@, "Flailing Strike"@, Rarity::Common, 1, CardType::Spell, seq![ Effect::DealDamage { target: Target::SingleEnemy, amount: 4 }, Effect::DealDamage { target: Target::SingleEnemy, amount: 4 }, Effect::DealDamage { target: Target::RandomEnemy, amount: 4 }], "Deal 4 damage twice. Deal 4 damage to a random enemy."@, Some(Class::Barbarian), Some("frenzy"@), seq![CardTag::Attack], false, false, false, false, false, false)
}

fn flailing_strike_def() -> (r: CardDef)
    ensures
        is_flailing_strike_def(r),
{
    let mut d = barbarian_sc("flailing_strike", "Flailing Strike", "frenzy", 1, vec![
        Effect::DealDamage { target: Target::SingleEnemy, amount: 4 },
        Effect::DealDamage { target: Target::SingleEnemy, amount: 4 },
        Effect::DealDamage { target: Target::RandomEnemy, amount: 4 },
    ], "Deal 4 damage twice. Deal 4 damage to a random enemy.");
    d.tags = vec![CardTag::Attack];
    d
}

/// The Frenzy card.
pub open spec fn is_frenzy_card_def(d: CardDef) -> bool {
    card_fields(d, "frenzy_card"@, "Frenzy"@, Rarity::Uncommon, 1, CardType::Spell, seq![ Effect::DealDamage { target: Target::SingleEnemy, amount: 3 }, Effect::DealDamage { target: Target::SingleEnemy, amount: 3 }, Effect::DealDamage { target: Target::SingleEnemy, amount: 3 }, Effect::DealDamage { target: Target::SingleEnemy, amount: 3 }, Effect::ApplyStatus { target: Target::Player, status: StatusType::Rage, stacks: 1 }], "Deal 3 damage 4 times. Gain 1 Rage."@, Some(Class::Barbarian), Some("frenzy"@), seq![CardTag::Attack], false, false, false, false, false, false)
}

fn frenzy_card_def() -> (r: CardDef)
    ensures
        is_frenzy_card_def(r),
{
    let mut d = barbarian_sc("frenzy_card", "Frenzy", "frenzy", 1, vec![
        Effect::DealDamage { target: Target::SingleEnemy, amount: 3 },
        Effect::DealDamage { target: Target::SingleEnemy, amount: 3 },
        Effect::DealDamage { target: Target::SingleEnemy, amount: 3 },
        Effect::DealDamage { target: Target::SingleEnemy, amount: 3 },
        Effect::ApplyStatus { target: Target::Player, status: StatusType::Rage, stacks: 1 },
    ], "Deal 3 damage 4 times. Gain 1 Rage.");
    d.rarity = Rarity::Uncommon;
    d.tags = vec![CardTag::Attack];
    d
}

/// The Whirlwind Fury card.
pub open spec fn is_whirlwind_fury_def(d: CardDef) -> bool {
    card_fields(d, "whirlwind_fury"@, "Whirlwind Fury"@, Rarity::Rare, 2, CardType::Spell, seq![ Effect::DealDamage { target: Target::AllEnemies, amount: 5 }, Effect::DealDamage { target: Target::AllEnemies, amount: 5 }, Effect::DealDamage { target: Target::AllEnemies, amount: 5 }, Effect::ApplyStatus { target: Target::Player, status: StatusType::Rage, stacks: 2 }], "Deal 5 damage to ALL enemies 3 times. Gain 2 Rage."@, Some(Class::Barbarian), Some("frenzy"@), seq![CardTag::Attack], false, false, false, false, false, false)
}

fn whirlwind_fury_def() -> (r: CardDef)
    ensures
        is_whirlwind_fury_def(r),
{
    let mut d = barbarian_sc("whirlwind_fury", "Whirlwind Fury", "frenzy", 2, vec![
        Effect::DealDamage { target: Target::AllEnemies, amount: 5 },
        Effect::DealDamage { target: Target::AllEnemies, amount: 5 },
        Effect::DealDamage { target: Target::AllEnemies, amount: 5 },
        Effect::ApplyStatus { target: Target::Player, status: StatusType::Rage, stacks: 2 },
    ], "Deal 5 damage to ALL enemies 3 times. Gain 2 Rage.");
    d.rarity = Rarity::Rare;
    d.tags = vec![CardTag::Attack];
    d
}

/// The One Thousand Cuts card.
pub open spec fn is_one_thousand_cuts_def(d: CardDef) -> bool {
    card_fields(d, "one_thousand_cuts"@, "One Thousand Cuts"@, Rarity::Legendary, 1, CardType::Spell, seq![ Effect::DealDamage { target: Target::SingleEnemy, amount: 2 }, Effect::DealDamage { target: Target::SingleEnemy, amount: 2 }, Effect::DealDamage { target: Target::SingleEnemy, amount: 2 }, Effect::DealDamage { target: Target::SingleEnemy, amount: 2 }, Effect::DealDamage { target: Target::SingleEnemy, amount: 2 }, Effect::DealDamage { target: Target::SingleEnemy, amount: 2 }, Effect::DrawCards { count: 1 }], "Deal 2 damage 6 times. Draw 1 card. Exhaust."@, Some(Class::Barbarian), Some("frenzy"@), seq![CardTag::Attack], true, false, false, false, false, false)
}

fn one_thousand_cuts_def() -> (r: CardDef)
    ensures
        is_one_thousand_cuts_def(r),
{
    let mut d = barbarian_sc("one_thousand_cuts", "One Thousand Cuts", "frenzy", 1, vec![
        Effect::DealDamage { target: Target::SingleEnemy, amount: 2 },
        Effect::DealDamage { target: Target::SingleEnemy, amount: 2 },
        Effect::DealDamage { target: Target::SingleEnemy, amount: 2 },
        Effect::DealDamage { target: Target::SingleEnemy, amount: 2 },
        Effect::DealDamage { target: Target::SingleEnemy, amount: 2 },
        Effect::DealDamage { target: Target::SingleEnemy, amount: 2 },
        Effect::DrawCards { count: 1 },
    ], "Deal 2 damage 6 times. Draw 1 card. Exhaust.");
    d.rarity = Rarity::Legendary;
    d.exhaust = true;
    d.tags = vec![CardTag::Attack];
    d
}

/// The Inner Peace card.
pub open spec fn is_inner_peace_def(d: CardDef) -> bool {
    card_fields(d, "inner_peace"@, "Inner Peace"@, Rarity::Common, 1, CardType::Consumable, seq![ Effect::Heal { amount: 12 }, Effect::ApplyStatus { target: Target::Player, status: StatusType::Ki, stacks: 2 }], "Heal 12 HP. Gain 2 Ki."@, Some(Class::Monk), None, seq![CardTag::Skill], false, false, false, false, false, false)
}

fn inner_peace_def() -> (r: CardDef)
    ensures
        is_inner_peace_def(r),
{
    let mut d = monk("inner_peace", "Inner Peace", 1, vec![
        Effect::Heal { amount: 12 },
        Effect::ApplyStatus { target: Target::Player, status: StatusType::Ki, stacks: 2 },
    ], "Heal 12 HP. Gain 2 Ki.");
    d.card_type = CardType::Consumable;
    d.tags = vec![CardTag::Skill];
    d
}

/// The Centered Strike card.
pub open spec fn is_centered_strike_def(d: CardDef) -> bool {
    card_fields(d, "centered_strike"@, "Centered Strike"@, Rarity::Common, 0, CardType::Spell, seq![ Effect::DealDamage { target: Target::SingleEnemy, amount: 5 }, Effect::ApplyStatus { target: Target::Player, status: StatusType::Ki, stacks: 1 }], "Deal 5 damage. Gain 1 Ki. Exhaust."@, Some(Class::Monk), None, seq![CardTag::Attack], true, false, false, false, false, false)
}

fn centered_strike_def() -> (r: CardDef)
    ensures
        is_centered_strike_def(r),
{
    let mut d = monk("centered_strike", "Centered Strike", 0, vec![
        Effect::DealDamage { target: Target::SingleEnemy, amount: 5 },
        Effect::ApplyStatus { target: Target::Player, status: StatusType::Ki, stacks: 1 },
    ], "Deal 5 damage. Gain 1 Ki. Exhaust.");
    d.exhaust = true;
    d.tags = vec![CardTag::Attack];
    d
}

/// The Swift Footwork card.
pub open spec fn is_swift_footwork_def(d: CardDef) -> bool {
    card_fields(d, "swift_footwork"@, "Swift Footwork"@, Rarity::Common, 0, CardType::Spell, seq![ Effect::GainBlock { amount: 8 }, Effect::DrawCards { count: 1 }], "Gain 8 block. Draw 1 card. Innate. Exhaust."@, Some(Class::Monk), None, seq![CardTag::Defense], true, false, false, true, false, false)
}

fn swift_footwork_def() -> (r: CardDef)
    ensures
        is_swift_footwork_def(r),
{
    let mut d = monk("swift_footwork", "Swift Footwork", 0, vec![
        Effect::GainBlock { amount: 8 },
        Effect::DrawCards { count: 1 },
    ], "Gain 8 block. Draw 1 card. Innate. Exhaust.");
    d.exhaust = true;
    d.innate = true;
    d.tags = vec![CardTag::Defense];
    d
}

/// The Ki Surge card.
pub open spec fn is_ki_surge_def(d: CardDef) -> bool {
    card_fields(d, "ki_surge"@, "Ki Surge"@, Rarity::Common, 0, CardType::Spell, seq![ Effect::DrawCards { count: 2 }, Effect::ApplyStatus { target: Target::Player, status: StatusType::Ki, stacks: 2 }], "Draw 2 cards. Gain 2 Ki. Exhaust."@, Some(Class::Monk), None, seq![CardTag::Skill], true, false, false, false, false, false)
}

fn ki_surge_def() -> (r: CardDef)
    ensures
        is_ki_surge_def(r),
{
    let mut d = monk("ki_surge", "Ki Surge", 0, vec![
        Effect::DrawCards { count: 2 },
        Effect::ApplyStatus { target: Target::Player, status: StatusType::Ki, stacks: 2 },
    ], "Draw 2 cards. Gain 2 Ki. Exhaust.");
    d.exhaust = true;
    d.tags = vec![CardTag::Skill];
    d
}

/// The Meditation card.
pub open spec fn is_meditation_def(d: CardDef) -> bool {
    card_fields(d, "meditation"@, "Meditation"@, Rarity::Common, 0, CardType::Spell, seq![ Effect::GainBlock { amount: 10 }, Effect::ApplyStatus { target: Target::Player, status: StatusType::Ki, stacks: 1 }], "Gain 10 block. Gain 1 Ki. Innate. Exhaust."@, Some(Class::Monk), None, seq![CardTag::Defense], true, false, false, true, false, false)
}

fn meditation_def() -> (r: CardDef)
    ensures
        is_meditation_def(r),
{
    let mut d = monk("meditation", "Meditation", 0, vec![
        Effect::GainBlock { amount: 10 },
        Effect::ApplyStatus { target: Target::Player, status: StatusType::Ki, stacks: 1 },
    ], "Gain 10 block. Gain 1 Ki. Innate. Exhaust.");
    d.exhaust = true;
    d.innate = true;
    d.tags = vec![CardTag::Defense];
    d
}

/// The Ki Focus card.
pub open spec fn is_ki_focus_def(d: CardDef) -> bool {
    card_fields(d, "ki_focus"@, "Ki Focus"@, Rarity::Common, 0, CardType::Spell, seq![ Effect::ApplyStatus { target: Target::Player, status: StatusType::Ki, stacks: 1 }, Effect::DrawCards { count: 1 }], "Gain 1 Ki. Draw 1 card. Exhaust."@, Some(Class::Monk), None, seq![CardTag::Skill], true, false, false, false, false, false)
}

fn ki_focus_def() -> (r: CardDef)
    ensures
        is_ki_focus_def(r),
{
    let mut d = monk("ki_focus", "Ki Focus", 0, vec![
        Effect::ApplyStatus { target: Target::Player, status: StatusType::Ki, stacks: 1 },
        Effect::DrawCards { count: 1 },
    ], "Gain 1 Ki. Draw 1 card. Exhaust.");
    d.exhaust = true;
    d.tags = vec![CardTag::Skill];
    d
}

/// The Ki Strike card.
pub open spec fn is_ki_strike_def(d: CardDef) -> bool {
    card_fields(d, "ki_strike"@, "Ki Strike"@, Rarity::Common, 1, CardType::Spell, seq![ Effect::DealDamage { target: Target::SingleEnemy, amount: 10 }, Effect::ApplyStatus { target: Target::Player, status: StatusType::Ki, stacks: 1 }], "Deal 10 damage. Gain 1 Ki."@, Some(Class::Monk), None, seq![CardTag::Attack], false, false, false, false, false, false)
}

fn ki_strike_def() -> (r: CardDef)
    ensures
        is_ki_strike_def(r),
{
    let mut d = monk("ki_strike", "Ki Strike", 1, vec![
        Effect::DealDamage { target: Target::SingleEnemy, amount: 10 },
        Effect::ApplyStatus { target: Target::Player, status: StatusType::Ki, stacks: 1 },
    ], "Deal 10 damage. Gain 1 Ki.");
    d.tags = vec![CardTag::Attack];
    d
}

/// The Ki Guard card.
pub open spec fn is_ki_guard_def(d: CardDef) -> bool {
    card_fields(d, "ki_guard"@, "Ki Guard"@, Rarity::Common, 1, CardType::Spell, seq![ Effect::GainBlock { amount: 10 }, Effect::ApplyStatus { target: Target::Player, status: StatusType::Ki, stacks: 1 }], "Gain 10 block. Gain 1 Ki."@, Some(Class::Monk), None, seq![CardTag::Defense], false, false, false, false, false, false)
}

fn ki_guard_def() -> (r: CardDef)
    ensures
        is_ki_guard_def(r),
{
    let mut d = monk("ki_guard", "Ki Guard", 1, vec![
        Effect::GainBlock { amount: 10 },
        Effect::ApplyStatus { target: Target::Player, status: StatusType::Ki, stacks: 1 },
    ], "Gain 10 block. Gain 1 Ki.");
    d.tags = vec![CardTag::Defense];
    d
}

/// The Rapid Strikes card.
pub open spec fn is_rapid_strikes_def(d: CardDef) -> bool {
    card_fields(d, "rapid_strikes"@, "Rapid Strikes"@, Rarity::Common, 1, CardType::Spell, seq![ Effect::DealDamage { target: Target::SingleEnemy, amount: 5 }, Effect::DealDamage { target: Target::SingleEnemy, amount: 5 }, Effect::ApplyStatus { target: Target::Player, status: StatusType::Ki, stacks: 1 }], "Deal 5 damage twice. Gain 1 Ki."@, Some(Class::Monk), Some("open_hand"@), seq![CardTag::Attack], false, false, false, false, false, false)
}

fn rapid_strikes_def() -> (r: CardDef)
    ensures
        is_rapid_strikes_def(r),
{
    let mut d = monk_sc("rapid_strikes", "Rapid Strikes", "open_hand", 1, vec![
        Effect::DealDamage { target: Target::SingleEnemy, amount: 5 },
        Effect::DealDamage { target: Target::SingleEnemy, amount: 5 },
        Effect::ApplyStatus { target: Target::Player, status: StatusType::Ki, stacks: 1 },
    ], "Deal 5 damage twice. Gain 1 Ki.");
    d.tags = vec![CardTag::Attack];
    d
}

/// The Palm Strike card.
pub open spec fn is_palm_strike_def(d: CardDef) -> bool {
    card_fields(d, "palm_strike"@, "Palm Strike"@, Rarity::Common, 0, CardType::Spell, seq![ Effect::DealDamage { target: Target::SingleEnemy, amount: 7 }, Effect::ApplyStatus { target: Target::Player, status: StatusType::Ki, stacks: 1 }], "Deal 7 damage. Gain 1 Ki."@, Some(Class::Monk), Some("open_hand"@), seq![CardTag::Attack], false, false, false, false, false, false)
}

fn palm_strike_def() -> (r: CardDef)
    ensures
        is_palm_strike_def(r),
{
    let mut d = monk_sc("palm_strike", "Palm Strike", "open_hand", 0, vec![
        Effect::DealDamage { target: Target::SingleEnemy, amount: 7 },
        Effect::ApplyStatus { target: Target::Player, status: StatusType::Ki, stacks: 1 },
    ], "Deal 7 damage. Gain 1 Ki.");
    d.tags = vec![CardTag::Attack];
    d
}

/// The Whirlwind Kick card.
pub open spec fn is_whirlwind_kick_def(d: CardDef) -> bool {
    card_fields(d, "whirlwind_kick"@, "Whirlwind Kick"@, Rarity::Uncommon, 1, CardType::Spell, seq![ Effect::DealDamagePerCardPlayed { target: Target::AllEnemies, per_card: 4 }], "Deal 4 damage to ALL enemies for each card played this turn."@, Some(Class::Monk), Some("open_hand"@), seq![CardTag::Attack], false, false, false, false, false, false)
}

fn whirlwind_kick_def() -> (r: CardDef)
    ensures
        is_whirlwind_kick_def(r),
{
    let mut d = monk_sc("whirlwind_kick", "Whirlwind Kick", "open_hand", 1, vec![
        Effect::DealDamagePerCardPlayed { target: Target::AllEnemies, per_card: 4 },
    ], "Deal 4 damage to ALL enemies for each card played this turn.");
    d.rarity = Rarity::Uncommon;
    d.tags = vec![CardTag::Attack];
    d
}

/// The Hundred Fists card.
pub open spec fn is_hundred_fists_def(d: CardDef) -> bool {
    card_fields(d, "hundred_fists"@, "Hundred Fists"@, Rarity::Rare, 1, CardType::Spell, seq![ Effect::DealDamagePerCardPlayed { target: Target::SingleEnemy, per_card: 4 }], "Deal 4 damage for each card played this turn."@, Some(Class::Monk), Some("open_hand"@), seq![CardTag::Attack], false, false, false, false, false, false)
}

fn hundred_fists_def() -> (r: CardDef)
    ensures
        is_hundred_fists_def(r),
{
    let mut d = monk_sc("hundred_fists", "Hundred Fists", "open_hand", 1, vec![
        Effect::DealDamagePerCardPlayed { target: Target::SingleEnemy, per_card: 4 },
    ], "Deal 4 damage for each card played this turn.");
    d.rarity = Rarity::Rare;
    d.tags = vec![CardTag::Attack];
    d
}

/// The Endless Barrage card.
pub open spec fn is_endless_barrage_def(d: CardDef) -> bool {
    card_fields(d, "endless_barrage"@, "Endless Barrage"@, Rarity::Legendary, 2, CardType::Spell, seq![ Effect::DealDamagePerCardPlayed { target: Target::SingleEnemy, per_card: 4 }, Effect::DrawCards { count: 2 }], "Deal 4 damage per card played this turn. Draw 2 cards. Exhaust."@, Some(Class::Monk), Some("open_hand"@), seq![CardTag::Attack], true, false, false, false, false, false)
}

fn endless_barrage_def() -> (r: CardDef)
    ensures
        is_endless_barrage_def(r),
{
    let mut d = monk_sc("endless_barrage", "Endless Barrage", "open_hand", 2, vec![
        Effect::DealDamagePerCardPlayed { target: Target::SingleEnemy, per_card: 4 },
        Effect::DrawCards { count: 2 },
    ], "Deal 4 damage per card played this turn. Draw 2 cards. Exhaust.");
    d.rarity = Rarity::Legendary;
    d.exhaust = true;
    d.tags = vec![CardTag::Attack];
    d
}

/// The Focused Strike card.
pub open spec fn is_focused_strike_def(d: CardDef) -> bool {
    card_fields(d, "focused_strike"@, "Focused Strike"@, Rarity::Common, 1, CardType::Spell, seq![ Effect::DealDamageSpendKi { target: Target::SingleEnemy, base: 8, ki_cost: 3, bonus: 16 }], "Deal 8 damage. Spend 3 Ki: deal 16 instead."@, Some(Class::Monk), Some("open_hand"@), seq![CardTag::Attack], false, false, false, false, false, false)
}

fn focused_strike_def() -> (r: CardDef)
    ensures
        is_focused_strike_def(r),
{
    let mut d = monk_sc("focused_strike", "Focused Strike", "open_hand", 1, vec![
        Effect::DealDamageSpendKi { target: Target::SingleEnemy, base: 8, ki_cost: 3, bonus: 16 },
    ], "Deal 8 damage. Spend 3 Ki: deal 16 instead.");
    d.tags = vec![CardTag::Attack];
    d
}

/// The Ki Shield card.
pub open spec fn is_ki_shield_def(d: CardDef) -> bool {
    card_fields(d, "ki_shield"@, "Ki Shield"@, Rarity::Uncommon, 1, CardType::Spell, seq![ Effect::GainBlockSpendKi { base: 8, ki_cost: 3, bonus: 16 }], "Gain 8 block. Spend 3 Ki: gain 16 instead."@, Some(Class::Monk), Some("open_hand"@), seq![CardTag::Defense], false, false, false, false, false, false)
}

fn ki_shield_def() -> (r: CardDef)
    ensures
        is_ki_shield_def(r),
{
    let mut d = monk_sc("ki_shield", "Ki Shield", "open_hand", 1, vec![
        Effect::GainBlockSpendKi { base: 8, ki_cost: 3, bonus: 16 },
    ], "Gain 8 block. Spend 3 Ki: gain 16 instead.");
    d.rarity = Rarity::Uncommon;
    d.tags = vec![CardTag::Defense];
    d
}

/// The Ki Channeling card.
pub open spec fn is_ki_channeling_def(d: CardDef) -> bool {
    card_fields(d, "ki_channeling"@, "Ki Channeling"@, Rarity::Uncommon, 0, CardType::Spell, seq![ Effect::ApplyStatus { target: Target::Player, status: StatusType::Ki, stacks: 3 }, Effect::GainBlock { amount: 3 }], "Gain 3 Ki. Gain 3 block. Exhaust."@, Some(Class::Monk), Some("open_hand"@), seq![CardTag::Skill], true, false, false, false, false, false)
}

fn ki_channeling_def() -> (r: CardDef)
    ensures
        is_ki_channeling_def(r),
{
    let mut d = monk_sc("ki_channeling", "Ki Channeling", "open_hand", 0, vec![
        Effect::ApplyStatus { target: Target::Player, status: StatusType::Ki, stacks: 3 },
        Effect::GainBlock { amount: 3 },
    ], "Gain 3 Ki. Gain 3 block. Exhaust.");
    d.rarity = Rarity::Uncommon;
    d.exhaust = true;
    d.tags = vec![CardTag::Skill];
    d
}

/// The Quivering Palm card.
pub open spec fn is_quivering_palm_def(d: CardDef) -> bool {
    card_fields(d, "quivering_palm"@, "Quivering Palm"@, Rarity::Legendary, 1, CardType::Spell, seq![ Effect::GainBlockPerKiStack { multiplier: 2 }, Effect::DealDamageSpendKi { target: Target::SingleEnemy, base: 10, ki_cost: 5, bonus: 30 }], "Gain block equal to 2x Ki. Spend 5 Ki: deal 30 damage. Otherwise deal 10. Exhaust."@, Some(Class::Monk), Some("open_hand"@), seq![CardTag::Attack, CardTag::Defense], true, false, false, false, false, false)
}

fn quivering_palm_def() -> (r: CardDef)
    ensures
        is_quivering_palm_def(r),
{
    let mut d = monk_sc("quivering_palm", "Quivering Palm", "open_hand", 1, vec![
        Effect::GainBlockPerKiStack { multiplier: 2 },
        Effect::DealDamageSpendKi { target: Target::SingleEnemy, base: 10, ki_cost: 5, bonus: 30 },
    ], "Gain block equal to 2x Ki. Spend 5 Ki: deal 30 damage. Otherwise deal 10. Exhaust.");
    d.rarity = Rarity::Legendary;
    d.exhaust = true;
    d.tags = vec![CardTag::Attack, CardTag::Defense];
    d
}

/// The Transcendence card.
pub open spec fn is_transcendence_def(d: CardDef) -> bool {
    card_fields(d, "transcendence"@, "Transcendence"@, Rarity::Legendary, 0, CardType::Spell, seq![ Effect::DrawCards { count: 3 }, Effect::ApplyStatus { target: Target::Player, status: StatusType::Ki, stacks: 5 }, Effect::DealDamagePerCardPlayed { target: Target::AllEnemies, per_card: 3 }], "Draw 3 cards. Gain 5 Ki. Deal 3 AoE damage per card played. Innate. Exhaust."@, Some(Class::Monk), Some("open_hand"@), seq![CardTag::Attack, CardTag::Skill], true, false, false, true, false, false)
}

fn transcendence_def() -> (r: CardDef)
    ensures
        is_transcendence_def(r),
{
    let mut d = monk_sc("transcendence", "Transcendence", "open_hand", 0, vec![
        Effect::DrawCards { count: 3 },
        Effect::ApplyStatus { target: Target::Player, status: StatusType::Ki, stacks: 5 },
        Effect::DealDamagePerCardPlayed { target: Target::AllEnemies, per_card: 3 },
    ], "Draw 3 cards. Gain 5 Ki. Deal 3 AoE damage per card played. Innate. Exhaust.");
    d.rarity = Rarity::Legendary;
    d.exhaust = true;
    d.innate = true;
    d.tags = vec![CardTag::Attack, CardTag::Skill];
    d
}

/// The Nerve Strike card.
pub open spec fn is_nerve_strike_def(d: CardDef) -> bool {
    card_fields(d, "nerve_strike"@, "Nerve Strike"@, Rarity::Common, 1, CardType::Spell, seq![ Effect::DealDamage { target: Target::SingleEnemy, amount: 8 }, Effect::ApplyStatus { target: Target::SingleEnemy, status: StatusType::Weakened, stacks: 1 }, Effect::ApplyStatus { target: Target::Player, status: StatusType::Ki, stacks: 1 }], "Deal 8 damage. Apply 1 Weakened. Gain 1 Ki."@, Some(Class::Monk), Some("way_of_shadow"@), seq![CardTag::Attack], false, false, false, false, false, false)
}

fn nerve_strike_def() -> (r: CardDef)
    ensures
        is_nerve_strike_def(r),
{
    let mut d = monk_sc("nerve_strike", "Nerve Strike", "way_of_shadow", 1, vec![
        Effect::DealDamage { target: Target::SingleEnemy, amount: 8 },
        Effect::ApplyStatus { target: Target::SingleEnemy, status: StatusType::Weakened, stacks: 1 },
        Effect::ApplyStatus { target: Target::Player, status: StatusType::Ki, stacks: 1 },
    ], "Deal 8 damage. Apply 1 Weakened. Gain 1 Ki.");
    d.tags = vec![CardTag::Attack];
    d
}

/// The Pressure Point Strike card.
pub open spec fn is_pressure_point_strike_def(d: CardDef) -> bool {
    card_fields(d, "pressure_point_strike"@, "Pressure Point Strike"@, Rarity::Common, 1, CardType::Spell, seq![ Effect::DealDamageIfTargetDebuffed { target: Target::SingleEnemy, amount: 7, bonus: 7 }], "Deal 7 damage. If target has a debuff, deal 14 instead."@, Some(Class::Monk), Some("way_of_shadow"@), seq![CardTag::Attack], false, false, false, false, false, false)
}

fn pressure_point_strike_def() -> (r: CardDef)
    ensures
        is_pressure_point_strike_def(r),
{
    let mut d = monk_sc("pressure_point_strike", "Pressure Point Strike", "way_of_shadow", 1, vec![
        Effect::DealDamageIfTargetDebuffed { target: Target::SingleEnemy, amount: 7, bonus: 7 },
    ], "Deal 7 damage. If target has a debuff, deal 14 instead.");
    d.tags = vec![CardTag::Attack];
    d
}

/// The Dim Mak card.
pub open spec fn is_dim_mak_def(d: CardDef) -> bool {
    card_fields(d, "dim_mak"@, "Dim Mak"@, Rarity::Uncommon, 1, CardType::Spell, seq![ Effect::ApplyStatus { target: Target::SingleEnemy, status: StatusType::Weakened, stacks: 1 }, Effect::ApplyStatus { target: Target::SingleEnemy, status: StatusType::Threatened, stacks: 1 }, Effect::DealDamage { target: Target::SingleEnemy, amount: 5 }], "Apply 1 Weakened and 1 Threatened. Deal 5 damage."@, Some(Class::Monk), Some("way_of_shadow"@), seq![CardTag::Attack], false, false, false, false, false, false)
}

fn dim_mak_def() -> (r: CardDef)
    ensures
        is_dim_mak_def(r),
{
    let mut d = monk_sc("dim_mak", "Dim Mak", "way_of_shadow", 1, vec![
        Effect::ApplyStatus { target: Target::SingleEnemy, status: StatusType::Weakened, stacks: 1 },
        Effect::ApplyStatus { target: Target::SingleEnemy, status: StatusType::Threatened, stacks: 1 },
        Effect::DealDamage { target: Target::SingleEnemy, amount: 5 },
    ], "Apply 1 Weakened and 1 Threatened. Deal 5 damage.");
    d.rarity = Rarity::Uncommon;
    d.tags = vec![CardTag::Attack];
    d
}

/// The Crippling Blow card.
pub open spec fn is_crippling_blow_def(d: CardDef) -> bool {
    card_fields(d, "crippling_blow"@, "Crippling Blow"@, Rarity::Rare, 1, CardType::Spell, seq![ Effect::DealDamagePerDebuffOnTarget { target: Target::SingleEnemy, base: 4, per_debuff: 5 }], "Deal 4 damage +5 per debuff type on target."@, Some(Class::Monk), Some("way_of_shadow"@), seq![CardTag::Attack], false, false, false, false, false, false)
}

fn crippling_blow_def() -> (r: CardDef)
    ensures
        is_crippling_blow_def(r),
{
    let mut d = monk_sc("crippling_blow", "Crippling Blow", "way_of_shadow", 1, vec![
        Effect::DealDamagePerDebuffOnTarget { target: Target::SingleEnemy, base: 4, per_debuff: 5 },
    ], "Deal 4 damage +5 per debuff type on target.");
    d.rarity = Rarity::Rare;
    d.tags = vec![CardTag::Attack];
    d
}

/// The Weakening Aura card.
pub open spec fn is_weakening_aura_def(d: CardDef) -> bool {
    card_fields(d, "weakening_aura"@, "Weakening Aura"@, Rarity::Uncommon, 0, CardType::Spell, seq![ Effect::ApplyStatusPerCardPlayed { target: Target::AllEnemies, status: StatusType::Weakened, per_card: 1 }], "Apply Weakened to ALL enemies equal to cards played this turn. Exhaust."@, Some(Class::Monk), Some("way_of_shadow"@), seq![CardTag::Skill], true, false, false, false, false, false)
}

fn weakening_aura_def() -> (r: CardDef)
    ensures
        is_weakening_aura_def(r),
{
    let mut d = monk_sc("weakening_aura", "Weakening Aura", "way_of_shadow", 0, vec![
        Effect::ApplyStatusPerCardPlayed { target: Target::AllEnemies, status: StatusType::Weakened, per_card: 1 },
    ], "Apply Weakened to ALL enemies equal to cards played this turn. Exhaust.");
    d.rarity = Rarity::Uncommon;
    d.exhaust = true;
    d.tags = vec![CardTag::Skill];
    d
}

/// The Death Touch card.
pub open spec fn is_death_touch_def(d: CardDef) -> bool {
    card_fields(d, "death_touch"@, "Death Touch"@, Rarity::Legendary, 2, CardType::Spell, seq![ Effect::ApplyStatus { target: Target::SingleEnemy, status: StatusType::Weakened, stacks: 2 }, Effect::ApplyStatus { target: Target::SingleEnemy, status: StatusType::Threatened, stacks: 2 }, Effect::DealDamagePerDebuffOnTarget { target: Target::SingleEnemy, base: 8, per_debuff: 8 }], "Apply 2 Weakened and 2 Threatened. Deal 8 +8 per debuff type. Exhaust."@, Some(Class::Monk), Some("way_of_shadow"@), seq![CardTag::Attack], true, false, false, false, false, false)
}

fn death_touch_def() -> (r: CardDef)
    ensures
        is_death_touch_def(r),
{
    let mut d = monk_sc("death_touch", "Death Touch", "way_of_shadow", 2, vec![
        Effect::ApplyStatus { target: Target::SingleEnemy, status: StatusType::Weakened, stacks: 2 },
        Effect::ApplyStatus { target: Target::SingleEnemy, status: StatusType::Threatened, stacks: 2 },
        Effect::DealDamagePerDebuffOnTarget { target: Target::SingleEnemy, base: 8, per_debuff: 8 },
    ], "Apply 2 Weakened and 2 Threatened. Deal 8 +8 per debuff type. Exhaust.");
    d.rarity = Rarity::Legendary;
    d.exhaust = true;
    d.tags = vec![CardTag::Attack];
    d
}

/// The Shadow Step card.
pub open spec fn is_shadow_step_def(d: CardDef) -> bool {
    card_fields(d, "shadow_step"@, "Shadow Step"@, Rarity::Common, 0, CardType::Spell, seq![ Effect::GainBlock { amount: 5 }, Effect::DrawCards { count: 1 }], "Gain 5 block. Draw 1 card."@, Some(Class::Monk), Some("way_of_shadow"@), seq![CardTag::Defense], false, false, false, false, false, false)
}

fn shadow_step_def() -> (r: CardDef)
    ensures
        is_shadow_step_def(r),
{
    let mut d = monk_sc("shadow_step", "Shadow Step", "way_of_shadow", 0, vec![
        Effect::GainBlock { amount: 5 },
        Effect::DrawCards { count: 1 },
    ], "Gain 5 block. Draw 1 card.");
    d.tags = vec![CardTag::Defense];
    d
}

/// The Deflecting Palm card.
pub open spec fn is_deflecting_palm_def(d: CardDef) -> bool {
    card_fields(d, "deflecting_palm"@, "Deflecting Palm"@, Rarity::Uncommon, 1, CardType::Spell, seq![ Effect::GainBlock { amount: 10 }, Effect::ApplyStatus { target: Target::Player, status: StatusType::Ki, stacks: 2 }], "Gain 10 block. Gain 2 Ki."@, Some(Class::Monk), Some("way_of_shadow"@), seq![CardTag::Defense], false, false, false, false, false, false)
}

fn deflecting_palm_def() -> (r: CardDef)
    ensures
        is_deflecting_palm_def(r),
{
    let mut d = monk_sc("deflecting_palm", "Deflecting Palm", "way_of_shadow", 1, vec![
        Effect::GainBlock { amount: 10 },
        Effect::ApplyStatus { target: Target::Player, status: StatusType::Ki, stacks: 2 },
    ], "Gain 10 block. Gain 2 Ki.");
    d.rarity = Rarity::Uncommon;
    d.tags = vec![CardTag::Defense];
    d
}

/// The Counter Stance card.
pub open spec fn is_counter_stance_def(d: CardDef) -> bool {
    card_fields(d, "counter_stance"@, "Counter Stance"@, Rarity::Rare, 1, CardType::Spell, seq![ Effect::GainBlockIfDamagedLastTurn { amount: 15 }, Effect::DealDamageIfDamagedLastTurn { target: Target::SingleEnemy, amount: 10 }], "If damaged last turn: gain 15 block, deal 10 damage."@, Some(Class::Monk), Some("way_of_shadow"@), seq![CardTag::Defense, CardTag::Attack], false, false, false, false, false, false)
}

fn counter_stance_def() -> (r: CardDef)
    ensures
        is_counter_stance_def(r),
{
    let mut d = monk_sc("counter_stance", "Counter Stance", "way_of_shadow", 1, vec![
        Effect::GainBlockIfDamagedLastTurn { amount: 15 },
        Effect::DealDamageIfDamagedLastTurn { target: Target::SingleEnemy, amount: 10 },
    ], "If damaged last turn: gain 15 block, deal 10 damage.");
    d.rarity = Rarity::Rare;
    d.tags = vec![CardTag::Defense, CardTag::Attack];
    d
}

/// The Phantom Form card.
pub open spec fn is_phantom_form_def(d: CardDef) -> bool {
    card_fields(d, "phantom_form"@, "Phantom Form"@, Rarity::Legendary, 1, CardType::Spell, seq![ Effect::GainBlock { amount: 12 }, Effect::ApplyStatus { target: Target::Player, status: StatusType::Armored, stacks: 3 }, Effect::ApplyStatus { target: Target::Player, status: StatusType::Ki, stacks: 3 }], "Gain 12 block. Gain 3 Armored. Gain 3 Ki. Exhaust."@, Some(Class::Monk), Some("way_of_shadow"@), seq![CardTag::Defense, CardTag::Power], true, false, false, false, false, false)
}

fn phantom_form_def() -> (r: CardDef)
    ensures
        is_phantom_form_def(r),
{
    let mut d = monk_sc("phantom_form", "Phantom Form", "way_of_shadow", 1, vec![
        Effect::GainBlock { amount: 12 },
        Effect::ApplyStatus { target: Target::Player, status: StatusType::Armored, stacks: 3 },
        Effect::ApplyStatus { target: Target::Player, status: StatusType::Ki, stacks: 3 },
    ], "Gain 12 block. Gain 3 Armored. Gain 3 Ki. Exhaust.");
    d.rarity = Rarity::Legendary;
    d.exhaust = true;
    d.tags = vec![CardTag::Defense, CardTag::Power];
    d
}

/// The Shadow Kill card.
pub open spec fn is_shadow_kill_def(d: CardDef) -> bool {
    card_fields(d, "shadow_kill"@, "Shadow Kill"@, Rarity::Legendary, 0, CardType::Spell, seq![ Effect::ApplyStatus { target: Target::AllEnemies, status: StatusType::Weakened, stacks: 3 }, Effect::ApplyStatus { target: Target::AllEnemies, status: StatusType::Threatened, stacks: 3 }, Effect::DealDamagePerDebuffOnTarget { target: Target::SingleEnemy, base: 10, per_debuff: 10 }], "Apply 3 Weakened + 3 Threatened to ALL. Deal 10 +10 per debuff type. Innate. Exhaust."@, Some(Class::Monk), Some("way_of_shadow"@), seq![CardTag::Attack, CardTag::Skill], true, false, false, true, false, false)
}

fn shadow_kill_def() -> (r: CardDef)
    ensures
        is_shadow_kill_def(r),
{
    let mut d = monk_sc("shadow_kill", "Shadow Kill", "way_of_shadow", 0, vec![
        Effect::ApplyStatus { target: Target::AllEnemies, status: StatusType::Weakened, stacks: 3 },
        Effect::ApplyStatus { target: Target::AllEnemies, status: StatusType::Threatened, stacks: 3 },
        Effect::DealDamagePerDebuffOnTarget { target: Target::SingleEnemy, base: 10, per_debuff: 10 },
    ], "Apply 3 Weakened + 3 Threatened to ALL. Deal 10 +10 per debuff type. Innate. Exhaust.");
    d.rarity = Rarity::Legendary;
    d.exhaust = true;
    d.innate = true;
    d.tags = vec![CardTag::Attack, CardTag::Skill];
    d
}

/// The Stance Shift card.
pub open spec fn is_stance_shift_def(d: CardDef) -> bool {
    card_fields(d, "stance_shift"@, "Stance Shift"@, Rarity::Common, 0, CardType::Spell, seq![ Effect::EnterStance { stance: StatusType::StanceAggressive }, Effect::ApplyStatus { target: Target::Player, status: StatusType::Ki, stacks: 1 }], "Enter Aggressive Stance. Gain 1 Ki."@, Some(Class::Monk), Some("iron_fist"@), seq![CardTag::Skill], false, false, false, false, false, false)
}

fn stance_shift_def() -> (r: CardDef)
    ensures
        is_stance_shift_def(r),
{
    let mut d = monk_sc("stance_shift", "Stance Shift", "iron_fist", 0, vec![
        Effect::EnterStance { stance: StatusType::StanceAggressive },
        Effect::ApplyStatus { target: Target::Player, status: StatusType::Ki, stacks: 1 },
    ], "Enter Aggressive Stance. Gain 1 Ki.");
    d.tags = vec![CardTag::Skill];
    d
}

/// The Tiger's Fury card.
pub open spec fn is_tigers_fury_def(d: CardDef) -> bool {
    card_fields(d, "tigers_fury"@, "Tiger's Fury"@, Rarity::Common, 1, CardType::Spell, seq![ Effect::EnterStance { stance: StatusType::StanceAggressive }, Effect::DealDamage { target: Target::SingleEnemy, amount: 12 }], "Enter Aggressive Stance. Deal 12 damage."@, Some(Class::Monk), Some("iron_fist"@), seq![CardTag::Attack], false, false, false, false, false, false)
}

fn tigers_fury_def() -> (r: CardDef)
    ensures
        is_tigers_fury_def(r),
{
    let mut d = monk_sc("tigers_fury", "Tiger's Fury", "iron_fist", 1, vec![
        Effect::EnterStance { stance: StatusType::StanceAggressive },
        Effect::DealDamage { target: Target::SingleEnemy, amount: 12 },
    ], "Enter Aggressive Stance. Deal 12 damage.");
    d.tags = vec![CardTag::Attack];
    d
}

/// The Crane's Wing card.
pub open spec fn is_cranes_wing_def(d: CardDef) -> bool {
    card_fields(d, "cranes_wing"@, "Crane's Wing"@, Rarity::Common, 1, CardType::Spell, seq![ Effect::EnterStance { stance: StatusType::StanceDefensive }, Effect::GainBlock { amount: 12 }], "Enter Defensive Stance. Gain 12 block."@, Some(Class::Monk), Some("iron_fist"@), seq![CardTag::Defense], false, false, false, false, false, false)
}

fn cranes_wing_def() -> (r: CardDef)
    ensures
        is_cranes_wing_def(r),
{
    let mut d = monk_sc("cranes_wing", "Crane's Wing", "iron_fist", 1, vec![
        Effect::EnterStance { stance: StatusType::StanceDefensive },
        Effect::GainBlock { amount: 12 },
    ], "Enter Defensive Stance. Gain 12 block.");
    d.tags = vec![CardTag::Defense];
    d
}

/// The Flowing Water card.
pub open spec fn is_flowing_water_def(d: CardDef) -> bool {
    card_fields(d, "flowing_water"@, "Flowing Water"@, Rarity::Uncommon, 0, CardType::Spell, seq![ Effect::EnterStance { stance: StatusType::StanceFlowing }, Effect::DrawCards { count: 2 }, Effect::ApplyStatus { target: Target::Player, status: StatusType::Ki, stacks: 1 }], "Enter Flowing Stance. Draw 2 cards. Gain 1 Ki."@, Some(Class::Monk), Some("iron_fist"@), seq![CardTag::Skill], false, false, false, false, false, false)
}

fn flowing_water_def() -> (r: CardDef)
    ensures
        is_flowing_water_def(r),
{
    let mut d = monk_sc("flowing_water", "Flowing Water", "iron_fist", 0, vec![
        Effect::EnterStance { stance: StatusType::StanceFlowing },
        Effect::DrawCards { count: 2 },
        Effect::ApplyStatus { target: Target::Player, status: StatusType::Ki, stacks: 1 },
    ], "Enter Flowing Stance. Draw 2 cards. Gain 1 Ki.");
    d.rarity = Rarity::Uncommon;
    d.tags = vec![CardTag::Skill];
    d
}

/// The Dragon's Breath card.
pub open spec fn is_monk_dragons_breath_def(d: CardDef) -> bool {
    card_fields(d, "monk_dragons_breath"@, "Dragon's Breath"@, Rarity::Rare, 1, CardType::Spell, seq![ Effect::DealDamage { target: Target::AllEnemies, amount: 12 }, Effect::ApplyStatus { target: Target::Player, status: StatusType::Ki, stacks: 2 }, Effect::EnterStance { stance: StatusType::StanceAggressive }], "Deal 12 AoE damage. Gain 2 Ki. Enter Aggressive Stance."@, Some(Class::Monk), Some("iron_fist"@), seq![CardTag::Attack], false, false, false, false, false, false)
}

fn monk_dragons_breath_def() -> (r: CardDef)
    ensures
        is_monk_dragons_breath_def(r),
{
    let mut d = monk_sc("monk_dragons_breath", "Dragon's Breath", "iron_fist", 1, vec![
        Effect::DealDamage { target: Target::AllEnemies, amount: 12 },
        Effect::ApplyStatus { target: Target::Player, status: StatusType::Ki, stacks: 2 },
        Effect::EnterStance { stance: StatusType::StanceAggressive },
    ], "Deal 12 AoE damage. Gain 2 Ki. Enter Aggressive Stance.");
    d.rarity = Rarity::Rare;
    d.tags = vec![CardTag::Attack];
    d
}

/// The Perfect Harmony card.
pub open spec fn is_perfect_harmony_def(d: CardDef) -> bool {
    card_fields(d, "perfect_harmony"@, "Perfect Harmony"@, Rarity::Legendary, 1, CardType::Spell, seq![ Effect::DealDamage { target: Target::SingleEnemy, amount: 15 }, Effect::GainBlock { amount: 15 }, Effect::ApplyStatus { target: Target::Player, status: StatusType::Ki, stacks: 3 }], "Deal 15 damage. Gain 15 block. Gain 3 Ki. Exhaust."@, Some(Class::Monk), Some("iron_fist"@), seq![CardTag::Attack, CardTag::Defense], true, false, false, false, false, false)
}

fn perfect_harmony_def() -> (r: CardDef)
    ensures
        is_perfect_harmony_def(r),
{
    let mut d = monk_sc("perfect_harmony", "Perfect Harmony", "iron_fist", 1, vec![
        Effect::DealDamage { target: Target::SingleEnemy, amount: 15 },
        Effect::GainBlock { amount: 15 },
        Effect::ApplyStatus { target: Target::Player, status: StatusType::Ki, stacks: 3 },
    ], "Deal 15 damage. Gain 15 block. Gain 3 Ki. Exhaust.");
    d.rarity = Rarity::Legendary;
    d.exhaust = true;
    d.tags = vec![CardTag::Attack, CardTag::Defense];
    d
}

/// The Iron Skin card.
pub open spec fn is_iron_skin_def(d: CardDef) -> bool {
    card_fields(d, "iron_skin"@, "Iron Skin"@, Rarity::Common, 1, CardType::Spell, seq![ Effect::GainBlockSpendKi { base: 8, ki_cost: 2, bonus: 14 }], "Gain 8 block. Spend 2 Ki: gain 14 instead."@, Some(Class::Monk), Some("iron_fist"@), seq![CardTag::Defense], false, false, false, false, false, false)
}

fn iron_skin_def() -> (r: CardDef)
    ensures
        is_iron_skin_def(r),
{
    let mut d = monk_sc("iron_skin", "Iron Skin", "iron_fist", 1, vec![
        Effect::GainBlockSpendKi { base: 8, ki_cost: 2, bonus: 14 },
    ], "Gain 8 block. Spend 2 Ki: gain 14 instead.");
    d.tags = vec![CardTag::Defense];
    d
}

/// The Ki Barrier card.
pub open spec fn is_ki_barrier_def(d: CardDef) -> bool {
    card_fields(d, "ki_barrier"@, "Ki Barrier"@, Rarity::Uncommon, 0, CardType::Spell, seq![ Effect::GainBlockPerKiStack { multiplier: 2 }], "Gain block equal to 2x Ki stacks."@, Some(Class::Monk), Some("iron_fist"@), seq![CardTag::Defense], false, false, false, false, false, false)
}

fn ki_barrier_def() -> (r: CardDef)
    ensures
        is_ki_barrier_def(r),
{
    let mut d = monk_sc("ki_barrier", "Ki Barrier", "iron_fist", 0, vec![
        Effect::GainBlockPerKiStack { multiplier: 2 },
    ], "Gain block equal to 2x Ki stacks.");
    d.rarity = Rarity::Uncommon;
    d.tags = vec![CardTag::Defense];
    d
}

/// The Stone Body card.
pub open spec fn is_stone_body_def(d: CardDef) -> bool {
    card_fields(d, "stone_body"@, "Stone Body"@, Rarity::Rare, 1, CardType::Spell, seq![ Effect::GainBlock { amount: 10 }, Effect::ApplyStatus { target: Target::Player, status: StatusType::Armored, stacks: 2 }, Effect::ApplyStatus { target: Target::Player, status: StatusType::Ki, stacks: 2 }], "Gain 10 block. Gain 2 Armored. Gain 2 Ki. Exhaust."@, Some(Class::Monk), Some("iron_fist"@), seq![CardTag::Defense, CardTag::Power], true, false, false, false, false, false)
}

fn stone_body_def() -> (r: CardDef)
    ensures
        is_stone_body_def(r),
{
    let mut d = monk_sc("stone_body", "Stone Body", "iron_fist", 1, vec![
        Effect::GainBlock { amount: 10 },
        Effect::ApplyStatus { target: Target::Player, status: StatusType::Armored, stacks: 2 },
        Effect::ApplyStatus { target: Target::Player, status: StatusType::Ki, stacks: 2 },
    ], "Gain 10 block. Gain 2 Armored. Gain 2 Ki. Exhaust.");
    d.rarity = Rarity::Rare;
    d.exhaust = true;
    d.tags = vec![CardTag::Defense, CardTag::Power];
    d
}

/// The Diamond Soul card.
pub open spec fn is_diamond_soul_def(d: CardDef) -> bool {
    card_fields(d, "diamond_soul"@, "Diamond Soul"@, Rarity::Legendary, 2, CardType::Spell, seq![ Effect::ApplyStatus { target: Target::Player, status: StatusType::Ki, stacks: 5 }, Effect::GainBlockPerKiStack { multiplier: 3 }, Effect::ApplyStatus { target: Target::Player, status: StatusType::Armored, stacks: 3 }], "Gain 5 Ki. Gain block equal to 3x Ki. Gain 3 Armored. Exhaust."@, Some(Class::Monk), Some("iron_fist"@), seq![CardTag::Defense, CardTag::Power], true, false, false, false, false, false)
}

fn diamond_soul_def() -> (r: CardDef)
    ensures
        is_diamond_soul_def(r),
{
    let mut d = monk_sc("diamond_soul", "Diamond Soul", "iron_fist", 2, vec![
        Effect::ApplyStatus { target: Target::Player, status: StatusType::Ki, stacks: 5 },
        Effect::GainBlockPerKiStack { multiplier: 3 },
        Effect::ApplyStatus { target: Target::Player, status: StatusType::Armored, stacks: 3 },
    ], "Gain 5 Ki. Gain block equal to 3x Ki. Gain 3 Armored. Exhaust.");
    d.rarity = Rarity::Legendary;
    d.exhaust = true;
    d.tags = vec![CardTag::Defense, CardTag::Power];
    d
}

/// The Fist of the North Star card.
pub open spec fn is_fist_of_north_star_def(d: CardDef) -> bool {
    card_fields(d, "fist_of_north_star"@, "Fist of the North Star"@, Rarity::Legendary, 0, CardType::Spell, seq![ Effect::DealDamage { target: Target::SingleEnemy, amount: 20 }, Effect::GainBlock { amount: 20 }, Effect::ApplyStatus { target: Target::Player, status: StatusType::Ki, stacks: 5 }, Effect::EnterStance { stance: StatusType::StanceFlowing }], "Deal 20 damage. Gain 20 block. Gain 5 Ki. Enter Flowing Stance. Innate. Exhaust."@, Some(Class::Monk), Some("iron_fist"@), seq![CardTag::Attack, CardTag::Defense], true, false, false, true, false, false)
}

fn fist_of_north_star_def() -> (r: CardDef)
    ensures
        is_fist_of_north_star_def(r),
{
    let mut d = monk_sc("fist_of_north_star", "Fist of the North Star", "iron_fist", 0, vec![
        Effect::DealDamage { target: Target::SingleEnemy, amount: 20 },
        Effect::GainBlock { amount: 20 },
        Effect::ApplyStatus { target: Target::Player, status: StatusType::Ki, stacks: 5 },
        Effect::EnterStance { stance: StatusType::StanceFlowing },
    ], "Deal 20 damage. Gain 20 block. Gain 5 Ki. Enter Flowing Stance. Innate. Exhaust.");
    d.rarity = Rarity::Legendary;
    d.exhaust = true;
    d.innate = true;
    d.tags = vec![CardTag::Attack, CardTag::Defense];
    d
}

/// The Eldritch Blast card.
pub open spec fn is_eldritch_blast_def(d: CardDef) -> bool {
    card_fields(d, "eldritch_blast"@, "Eldritch Blast"@, Rarity::Common, 1, CardType::Spell, seq![ Effect::DealDamage { target: Target::SingleEnemy, amount: 10 }], "Deal 10 damage. Recycle."@, Some(Class::Warlock), None, seq![CardTag::Attack], false, true, false, false, false, false)
}

fn eldritch_blast_def() -> (r: CardDef)
    ensures
        is_eldritch_blast_def(r),
{
    let mut d = warlock("eldritch_blast", "Eldritch Blast", 1, vec![
        Effect::DealDamage { target: Target::SingleEnemy, amount: 10 },
    ], "Deal 10 damage. Recycle.");
    d.recycle = true;
    d.tags = vec![CardTag::Attack];
    d
}

/// The Hex card.
pub open spec fn is_hex_def(d: CardDef) -> bool {
    card_fields(d, "hex"@, "Hex"@, Rarity::Common, 0, CardType::Spell, seq![ Effect::ApplyStatus { target: Target::SingleEnemy, status: StatusType::Hexed, stacks: 1 }], "Apply Hexed to an enemy. Concentration."@, Some(Class::Warlock), None, seq![CardTag::Skill], false, false, true, false, false, false)
}

fn hex_def() -> (r: CardDef)
    ensures
        is_hex_def(r),
{
    let mut d = warlock("hex", "Hex", 0, vec![
        Effect::ApplyStatus { target: Target::SingleEnemy, status: StatusType::Hexed, stacks: 1 },
    ], "Apply Hexed to an enemy. Concentration.");
    d.concentration = true;
    d.tags = vec![CardTag::Skill];
    d
}

/// The Dark Bargain card.
pub open spec fn is_dark_bargain_def(d: CardDef) -> bool {
    card_fields(d, "dark_bargain"@, "Dark Bargain"@, Rarity::Common, 0, CardType::Spell, seq![ Effect::LoseHp { amount: 3 }, Effect::DrawCards { count: 2 }, Effect::GainEnergy { amount: 1 }], "Lose 3 HP. Draw 2 cards. Gain 1 energy. Exhaust."@, Some(Class::Warlock), None, seq![CardTag::Skill], true, false, false, false, false, false)
}

fn dark_bargain_def() -> (r: CardDef)
    ensures
        is_dark_bargain_def(r),
{
    let mut d = warlock("dark_bargain", "Dark Bargain", 0, vec![
        Effect::LoseHp { amount: 3 },
        Effect::DrawCards { count: 2 },
        Effect::GainEnergy { amount: 1 },
    ], "Lose 3 HP. Draw 2 cards. Gain 1 energy. Exhaust.");
    d.exhaust = true;
    d.tags = vec![CardTag::Skill];
    d
}

/// The Maledict card.
pub open spec fn is_maledict_def(d: CardDef) -> bool {
    card_fields(d, "maledict"@, "Maledict"@, Rarity::Common, 1, CardType::Spell, seq![ Effect::ApplyStatus { target: Target::SingleEnemy, status: StatusType::Weakened, stacks: 1 }, Effect::ApplyStatus { target: Target::SingleEnemy, status: StatusType::Marked, stacks: 1 }], "Apply 1 Weakened and 1 Marked to an enemy."@, Some(Class::Warlock), None, seq![CardTag::Skill], false, false, false, false, false, false)
}

fn maledict_def() -> (r: CardDef)
    ensures
        is_maledict_def(r),
{
    let mut d = warlock("maledict", "Maledict", 1, vec![
        Effect::ApplyStatus { target: Target::SingleEnemy, status: StatusType::Weakened, stacks: 1 },
        Effect::ApplyStatus { target: Target::SingleEnemy, status: StatusType::Marked, stacks: 1 },
    ], "Apply 1 Weakened and 1 Marked to an enemy.");
    d.tags = vec![CardTag::Skill];
    d
}

/// The Pact Barrier card.
pub open spec fn is_pact_barrier_def(d: CardDef) -> bool {
    card_fields(d, "pact_barrier"@, "Pact Barrier"@, Rarity::Common, 1, CardType::Spell, seq![ Effect::GainBlock { amount: 8 }, Effect::DrawCards { count: 1 }], "Gain 8 block. Draw 1 card."@, Some(Class::Warlock), None, seq![CardTag::Defense], false, false, false, false, false, false)
}

fn pact_barrier_def() -> (r: CardDef)
    ensures
        is_pact_barrier_def(r),
{
    let mut d = warlock("pact_barrier", "Pact Barrier", 1, vec![
        Effect::GainBlock { amount: 8 },
        Effect::DrawCards { count: 1 },
    ], "Gain 8 block. Draw 1 card.");
    d.tags = vec![CardTag::Defense];
    d
}

/// The Siphon Bolt card.
pub open spec fn is_siphon_bolt_def(d: CardDef) -> bool {
    card_fields(d, "siphon_bolt"@, "Siphon Bolt"@, Rarity::Common, 1, CardType::Spell, seq![ Effect::DealDamageIfTargetDebuffed { target: Target::SingleEnemy, amount: 7, bonus: 7 }], "Deal 7 damage. If target has a debuff, deal 14 instead."@, Some(Class::Warlock), None, seq![CardTag::Attack], false, false, false, false, false, false)
}

fn siphon_bolt_def() -> (r: CardDef)
    ensures
        is_siphon_bolt_def(r),
{
    let mut d = warlock("siphon_bolt", "Siphon Bolt", 1, vec![
        Effect::DealDamageIfTargetDebuffed { target: Target::SingleEnemy, amount: 7, bonus: 7 },
    ], "Deal 7 damage. If target has a debuff, deal 14 instead.");
    d.tags = vec![CardTag::Attack];
    d
}

/// The Hellbrand card.
pub open spec fn is_hellbrand_def(d: CardDef) -> bool {
    card_fields(d, "hellbrand"@, "Hellbrand"@, Rarity::Common, 1, CardType::Spell, seq![ Effect::DealDamage { target: Target::SingleEnemy, amount: 8 }, Effect::ApplyStatus { target: Target::SingleEnemy, status: StatusType::Bleeding, stacks: 2 }], "Deal 8 damage. Apply 2 Bleeding."@, Some(Class::Warlock), Some("infernal"@), seq![CardTag::Attack], false, false, false, false, false, false)
}

fn hellbrand_def() -> (r: CardDef)
    ensures
        is_hellbrand_def(r),
{
    let mut d = warlock_sc("hellbrand", "Hellbrand", "infernal", 1, vec![
        Effect::DealDamage { target: Target::SingleEnemy, amount: 8 },
        Effect::ApplyStatus { target: Target::SingleEnemy, status: StatusType::Bleeding, stacks: 2 },
    ], "Deal 8 damage. Apply 2 Bleeding.");
    d.tags = vec![CardTag::Attack];
    d
}

/// The Cinder Feast card.
pub open spec fn is_cinder_feast_def(d: CardDef) -> bool {
    card_fields(d, "cinder_feast"@, "Cinder Feast"@, Rarity::Common, 1, CardType::Spell, seq![ Effect::DealDamage { target: Target::SingleEnemy, amount: 8 }, Effect::Heal { amount: 4 }], "Deal 8 damage. Heal 4 HP."@, Some(Class::Warlock), Some("infernal"@), seq![CardTag::Attack], false, false, false, false, false, false)
}

fn cinder_feast_def() -> (r: CardDef)
    ensures
        is_cinder_feast_def(r),
{
    let mut d = warlock_sc("cinder_feast", "Cinder Feast", "infernal", 1, vec![
        Effect::DealDamage { target: Target::SingleEnemy, amount: 8 },
        Effect::Heal { amount: 4 },
    ], "Deal 8 damage. Heal 4 HP.");
    d.tags = vec![CardTag::Attack];
    d
}

/// The Balefire Cataclysm card.
pub open spec fn is_balefire_cataclysm_def(d: CardDef) -> bool {
    card_fields(d, "balefire_cataclysm"@, "Balefire Cataclysm"@, Rarity::Rare, 2, CardType::Spell, seq![ Effect::LoseHp { amount: 6 }, Effect::DealDamage { target: Target::AllEnemies, amount: 18 }, Effect::ApplyStatus { target: Target::AllEnemies, status: StatusType::Bleeding, stacks: 2 }], "Lose 6 HP. Deal 18 damage to ALL enemies. Apply 2 Bleeding to ALL. Exhaust."@, Some(Class::Warlock), Some("infernal"@), seq![CardTag::Attack], true, false, false, false, false, false)
}

fn balefire_cataclysm_def() -> (r: CardDef)
    ensures
        is_balefire_cataclysm_def(r),
{
    let mut d = warlock_sc("balefire_cataclysm", "Balefire Cataclysm", "infernal", 2, vec![
        Effect::LoseHp { amount: 6 },
        Effect::DealDamage { target: Target::AllEnemies, amount: 18 },
        Effect::ApplyStatus { target: Target::AllEnemies, status: StatusType::Bleeding, stacks: 2 },
    ], "Lose 6 HP. Deal 18 damage to ALL enemies. Apply 2 Bleeding to ALL. Exhaust.");
    d.rarity = Rarity::Rare;
    d.exhaust = true;
    d.tags = vec![CardTag::Attack];
    d
}

/// The Blood Tithe card.
pub open spec fn is_blood_tithe_def(d: CardDef) -> bool {
    card_fields(d, "blood_tithe"@, "Blood Tithe"@, Rarity::Common, 0, CardType::Spell, seq![ Effect::LoseHp { amount: 4 }, Effect::Heal { amount: 8 }, Effect::ApplyStatus { target: Target::Player, status: StatusType::Empowered, stacks: 1 }], "Lose 4 HP. Heal 8 HP. Gain 1 Empowered. Exhaust."@, Some(Class::Warlock), Some("infernal"@), seq![CardTag::Skill], true, false, false, false, false, false)
}

fn blood_tithe_def() -> (r: CardDef)
    ensures
        is_blood_tithe_def(r),
{
    let mut d = warlock_sc("blood_tithe", "Blood Tithe", "infernal", 0, vec![
        Effect::LoseHp { amount: 4 },
        Effect::Heal { amount: 8 },
        Effect::ApplyStatus { target: Target::Player, status: StatusType::Empowered, stacks: 1 },
    ], "Lose 4 HP. Heal 8 HP. Gain 1 Empowered. Exhaust.");
    d.exhaust = true;
    d.tags = vec![CardTag::Skill];
    d
}

/// The Feast of Cinders card.
pub open spec fn is_feast_of_cinders_def(d: CardDef) -> bool {
    card_fields(d, "feast_of_cinders"@, "Feast of Cinders"@, Rarity::Uncommon, 1, CardType::Spell, seq![ Effect::DealDamage { target: Target::SingleEnemy, amount: 12 }, Effect::Heal { amount: 8 }], "Deal 12 damage. Heal 8 HP. Exhaust."@, Some(Class::Warlock), Some("infernal"@), seq![CardTag::Attack], true, false, false, false, false, false)
}

fn feast_of_cinders_def() -> (r: CardDef)
    ensures
        is_feast_of_cinders_def(r),
{
    let mut d = warlock_sc("feast_of_cinders", "Feast of Cinders", "infernal", 1, vec![
        Effect::DealDamage { target: Target::SingleEnemy, amount: 12 },
        Effect::Heal { amount: 8 },
    ], "Deal 12 damage. Heal 8 HP. Exhaust.");
    d.rarity = Rarity::Uncommon;
    d.exhaust = true;
    d.tags = vec![CardTag::Attack];
    d
}

/// The Pact Blade card.
pub open spec fn is_pact_blade_def(d: CardDef) -> bool {
    card_fields(d, "pact_blade"@, "Pact Blade"@, Rarity::Common, 1, CardType::Spell, seq![ Effect::DealDamage { target: Target::SingleEnemy, amount: 10 }, Effect::ApplyStatus { target: Target::SingleEnemy, status: StatusType::Marked, stacks: 1 }], "Deal 10 damage. Apply 1 Marked."@, Some(Class::Warlock), Some("hexblade"@), seq![CardTag::Attack], false, false, false, false, false, false)
}

fn pact_blade_def() -> (r: CardDef)
    ensures
        is_pact_blade_def(r),
{
    let mut d = warlock_sc("pact_blade", "Pact Blade", "hexblade", 1, vec![
        Effect::DealDamage { target: Target::SingleEnemy, amount: 10 },
        Effect::ApplyStatus { target: Target::SingleEnemy, status: StatusType::Marked, stacks: 1 },
    ], "Deal 10 damage. Apply 1 Marked.");
    d.tags = vec![CardTag::Attack];
    d
}

/// The Soul Parry card.
pub open spec fn is_soul_parry_def(d: CardDef) -> bool {
    card_fields(d, "soul_parry"@, "Soul Parry"@, Rarity::Common, 1, CardType::Spell, seq![ Effect::GainBlock { amount: 10 }, Effect::DealDamageIfDamagedLastTurn { target: Target::SingleEnemy, amount: 10 }], "Gain 10 block. If you took damage last turn, deal 10 damage."@, Some(Class::Warlock), Some("hexblade"@), seq![CardTag::Defense, CardTag::Attack], false, false, false, false, false, false)
}

fn soul_parry_def() -> (r: CardDef)
    ensures
        is_soul_parry_def(r),
{
    let mut d = warlock_sc("soul_parry", "Soul Parry", "hexblade", 1, vec![
        Effect::GainBlock { amount: 10 },
        Effect::DealDamageIfDamagedLastTurn { target: Target::SingleEnemy, amount: 10 },
    ], "Gain 10 block. If you took damage last turn, deal 10 damage.");
    d.tags = vec![CardTag::Defense, CardTag::Attack];
    d
}

/// The Dusk Duel card.
pub open spec fn is_dusk_duel_def(d: CardDef) -> bool {
    card_fields(d, "dusk_duel"@, "Dusk Duel"@, Rarity::Legendary, 1, CardType::Spell, seq![ Effect::DealDamage { target: Target::SingleEnemy, amount: 18 }, Effect::GainBlock { amount: 18 }, Effect::ApplyStatus { target: Target::SingleEnemy, status: StatusType::Marked, stacks: 2 }], "Deal 18 damage. Gain 18 block. Apply 2 Marked. Exhaust."@, Some(Class::Warlock), Some("hexblade"@), seq![CardTag::Attack, CardTag::Defense], true, false, false, false, false, false)
}

fn dusk_duel_def() -> (r: CardDef)
    ensures
        is_dusk_duel_def(r),
{
    let mut d = warlock_sc("dusk_duel", "Dusk Duel", "hexblade", 1, vec![
        Effect::DealDamage { target: Target::SingleEnemy, amount: 18 },
        Effect::GainBlock { amount: 18 },
        Effect::ApplyStatus { target: Target::SingleEnemy, status: StatusType::Marked, stacks: 2 },
    ], "Deal 18 damage. Gain 18 block. Apply 2 Marked. Exhaust.");
    d.rarity = Rarity::Legendary;
    d.exhaust = true;
    d.tags = vec![CardTag::Attack, CardTag::Defense];
    d
}

/// The Brand the Weak card.
pub open spec fn is_brand_the_weak_def(d: CardDef) -> bool {
    card_fields(d, "brand_the_weak"@, "Brand the Weak"@, Rarity::Common, 1, CardType::Spell, seq![ Effect::DealDamagePerDebuffOnTarget { target: Target::SingleEnemy, base: 4, per_debuff: 5 }], "Deal 4 damage + 5 per debuff type on target."@, Some(Class::Warlock), Some("hexblade"@), seq![CardTag::Attack], false, false, false, false, false, false)
}

fn brand_the_weak_def() -> (r: CardDef)
    ensures
        is_brand_the_weak_def(r),
{
    let mut d = warlock_sc("brand_the_weak", "Brand the Weak", "hexblade", 1, vec![
        Effect::DealDamagePerDebuffOnTarget { target: Target::SingleEnemy, base: 4, per_debuff: 5 },
    ], "Deal 4 damage + 5 per debuff type on target.");
    d.tags = vec![CardTag::Attack];
    d
}

/// The Black Oath card.
pub open spec fn is_black_oath_def(d: CardDef) -> bool {
    card_fields(d, "black_oath"@, "Black Oath"@, Rarity::Common, 1, CardType::Spell, seq![ Effect::ApplyStatus { target: Target::Player, status: StatusType::Empowered, stacks: 2 }, Effect::GainBlock { amount: 8 }], "Gain 2 Empowered. Gain 8 block. Exhaust."@, Some(Class::Warlock), Some("hexblade"@), seq![CardTag::Skill, CardTag::Defense], true, false, false, false, false, false)
}

fn black_oath_def() -> (r: CardDef)
    ensures
        is_black_oath_def(r),
{
    let mut d = warlock_sc("black_oath", "Black Oath", "hexblade", 1, vec![
        Effect::ApplyStatus { target: Target::Player, status: StatusType::Empowered, stacks: 2 },
        Effect::GainBlock { amount: 8 },
    ], "Gain 2 Empowered. Gain 8 block. Exhaust.");
    d.exhaust = true;
    d.tags = vec![CardTag::Skill, CardTag::Defense];
    d
}

/// The Void Gaze card.
pub open spec fn is_void_gaze_def(d: CardDef) -> bool {
    card_fields(d, "void_gaze"@, "Void Gaze"@, Rarity::Common, 1, CardType::Spell, seq![ Effect::ApplyStatus { target: Target::AllEnemies, status: StatusType::Weakened, stacks: 1 }], "Apply 1 Weakened to ALL enemies. Concentration."@, Some(Class::Warlock), Some("void"@), seq![CardTag::Skill], false, false, true, false, false, false)
}

fn void_gaze_def() -> (r: CardDef)
    ensures
        is_void_gaze_def(r),
{
    let mut d = warlock_sc("void_gaze", "Void Gaze", "void", 1, vec![
        Effect::ApplyStatus { target: Target::AllEnemies, status: StatusType::Weakened, stacks: 1 },
    ], "Apply 1 Weakened to ALL enemies. Concentration.");
    d.concentration = true;
    d.tags = vec![CardTag::Skill];
    d
}

/// The Starless Whisper card.
pub open spec fn is_starless_whisper_def(d: CardDef) -> bool {
    card_fields(d, "starless_whisper"@, "Starless Whisper"@, Rarity::Common, 0, CardType::Spell, seq![ Effect::DrawAndDiscard { draw: 2, discard: 1 }, Effect::ApplyStatus { target: Target::AllEnemies, status: StatusType::Marked, stacks: 1 }], "Draw 2 cards. Discard 1. Apply 1 Marked to ALL enemies."@, Some(Class::Warlock), Some("void"@), seq![CardTag::Skill], false, false, false, false, false, false)
}

fn starless_whisper_def() -> (r: CardDef)
    ensures
        is_starless_whisper_def(r),
{
    let mut d = warlock_sc("starless_whisper", "Starless Whisper", "void", 0, vec![
        Effect::DrawCards { count: 2 },
        Effect::ApplyStatus { target: Target::AllEnemies, status: StatusType::Marked, stacks: 1 },
    ], "Draw 2 cards. Discard 1. Apply 1 Marked to ALL enemies.");
    d.effects = vec![
        Effect::DrawAndDiscard { draw: 2, discard: 1 },
        Effect::ApplyStatus { target: Target::AllEnemies, status: StatusType::Marked, stacks: 1 },
    ];
    d.tags = vec![CardTag::Skill];
    d
}

/// The Entropy Field card.
pub open spec fn is_entropy_field_def(d: CardDef) -> bool {
    card_fields(d, "entropy_field"@, "Entropy Field"@, Rarity::Uncommon, 1, CardType::Spell, seq![ Effect::ApplyStatus { target: Target::AllEnemies, status: StatusType::Weakened, stacks: 1 }, Effect::ApplyStatus { target: Target::AllEnemies, status: StatusType::Threatened, stacks: 1 }], "Apply 1 Weakened and 1 Threatened to ALL enemies."@, Some(Class::Warlock), Some("void"@), seq![CardTag::Skill], false, false, false, false, false, false)
}

fn entropy_field_def() -> (r: CardDef)
    ensures
        is_entropy_field_def(r),
{
    let mut d = warlock_sc("entropy_field", "Entropy Field", "void", 1, vec![
        Effect::ApplyStatus { target: Target::AllEnemies, status: StatusType::Weakened, stacks: 1 },
        Effect::ApplyStatus { target: Target::AllEnemies, status: StatusType::Threatened, stacks: 1 },
    ], "Apply 1 Weakened and 1 Threatened to ALL enemies.");
    d.rarity = Rarity::Uncommon;
    d.tags = vec![CardTag::Skill];
    d
}

/// The Oblivion Tide card.
pub open spec fn is_oblivion_tide_def(d: CardDef) -> bool {
    card_fields(d, "oblivion_tide"@, "Oblivion Tide"@, Rarity::Rare, 2, CardType::Spell, seq![ Effect::ApplyStatus { target: Target::AllEnemies, status: StatusType::Weakened, stacks: 1 }, Effect::DealDamagePerDebuffOnTarget { target: Target::AllEnemies, base: 8, per_debuff: 8 }], "Apply 1 Weakened to ALL. Deal 8 + 8 per debuff type to ALL enemies. Exhaust."@, Some(Class::Warlock), Some("void"@), seq![CardTag::Attack, CardTag::Skill], true, false, false, false, false, false)
}

fn oblivion_tide_def() -> (r: CardDef)
    ensures
        is_oblivion_tide_def(r),
{
    let mut d = warlock_sc("oblivion_tide", "Oblivion Tide", "void", 2, vec![
        Effect::ApplyStatus { target: Target::AllEnemies, status: StatusType::Weakened, stacks: 1 },
        Effect::DealDamagePerDebuffOnTarget { target: Target::AllEnemies, base: 8, per_debuff: 8 },
    ], "Apply 1 Weakened to ALL. Deal 8 + 8 per debuff type to ALL enemies. Exhaust.");
    d.rarity = Rarity::Rare;
    d.exhaust = true;
    d.tags = vec![CardTag::Attack, CardTag::Skill];
    d
}

/// The Cosmic Extinction card.
pub open spec fn is_cosmic_extinction_def(d: CardDef) -> bool {
    card_fields(d, "cosmic_extinction"@, "Cosmic Extinction"@, Rarity::Legendary, 0, CardType::Spell, seq![ Effect::ApplyStatus { target: Target::AllEnemies, status: StatusType::Hexed, stacks: 1 }, Effect::ApplyStatus { target: Target::AllEnemies, status: StatusType::Weakened, stacks: 2 }, Effect::ApplyStatus { target: Target::AllEnemies, status: StatusType::Threatened, stacks: 2 }], "Apply Hexed, 2 Weakened, and 2 Threatened to ALL enemies. Innate. Exhaust."@, Some(Class::Warlock), Some("void"@), seq![CardTag::Skill], true, false, false, true, false, false)
}

fn cosmic_extinction_def() -> (r: CardDef)
    ensures
        is_cosmic_extinction_def(r),
{
    let mut d = warlock_sc("cosmic_extinction", "Cosmic Extinction", "void", 0, vec![
        Effect::ApplyStatus { target: Target::AllEnemies, status: StatusType::Hexed, stacks: 1 },
        Effect::ApplyStatus { target: Target::AllEnemies, status: StatusType::Weakened, stacks: 2 },
        Effect::ApplyStatus { target: Target::AllEnemies, status: StatusType::Threatened, stacks: 2 },
    ], "Apply Hexed, 2 Weakened, and 2 Threatened to ALL enemies. Innate. Exhaust.");
    d.rarity = Rarity::Legendary;
    d.exhaust = true;
    d.innate = true;
    d.tags = vec![CardTag::Skill];
    d
}

/// The Fire Bolt card.
pub open spec fn is_fire_bolt_def(d: CardDef) -> bool {
    card_fields(d, "fire_bolt"@, "Fire Bolt"@, Rarity::Common, 1, CardType::Spell, seq![ Effect::DealDamage { target: Target::SingleEnemy, amount: 10 }, Effect::ApplyStatus { target: Target::SingleEnemy, status: StatusType::Bleeding, stacks: 2 }], "Deal 10 damage. Apply 2 Bleeding."@, Some(Class::Wizard), None, seq![CardTag::Attack], false, false, false, false, false, false)
}

fn fire_bolt_def() -> (r: CardDef)
    ensures
        is_fire_bolt_def(r),
{
    let mut d = wizard("fire_bolt", "Fire Bolt", 1, vec![
        Effect::DealDamage { target: Target::SingleEnemy, amount: 10 },
        Effect::ApplyStatus { target: Target::SingleEnemy, status: StatusType::Bleeding, stacks: 2 },
    ], "Deal 10 damage. Apply 2 Bleeding.");
    d.tags = vec![CardTag::Attack];
    d
}

/// The Mage Armor card.
pub open spec fn is_mage_armor_def(d: CardDef) -> bool {
    card_fields(d, "mage_armor"@, "Mage Armor"@, Rarity::Common, 1, CardType::Spell, seq![ Effect::GainBlock { amount: 10 }, Effect::ApplyStatus { target: Target::Player, status: StatusType::ArcaneCharge, stacks: 1 }], "Gain 10 block. Gain 1 Arcane Charge."@, Some(Class::Wizard), None, seq![CardTag::Skill, CardTag::Defense], false, false, false, false, false, false)
}

fn mage_armor_def() -> (r: CardDef)
    ensures
        is_mage_armor_def(r),
{
    let mut d = wizard("mage_armor", "Mage Armor", 1, vec![
        Effect::GainBlock { amount: 10 },
        Effect::ApplyStatus { target: Target::Player, status: StatusType::ArcaneCharge, stacks: 1 },
    ], "Gain 10 block. Gain 1 Arcane Charge.");
    d.tags = vec![CardTag::Skill, CardTag::Defense];
    d
}

/// The Arcane Intellect card.
pub open spec fn is_arcane_intellect_def(d: CardDef) -> bool {
    card_fields(d, "arcane_intellect"@, "Arcane Intellect"@, Rarity::Common, 0, CardType::Spell, seq![ Effect::DrawCards { count: 2 }, Effect::ApplyStatus { target: Target::Player, status: StatusType::ArcaneCharge, stacks: 1 }], "Draw 2. Gain 1 Arcane Charge. Exhaust."@, Some(Class::Wizard), None, seq![CardTag::Skill], true, false, false, false, false, false)
}

fn arcane_intellect_def() -> (r: CardDef)
    ensures
        is_arcane_intellect_def(r),
{
    let mut d = wizard("arcane_intellect", "Arcane Intellect", 0, vec![
        Effect::DrawCards { count: 2 },
        Effect::ApplyStatus { target: Target::Player, status: StatusType::ArcaneCharge, stacks: 1 },
    ], "Draw 2. Gain 1 Arcane Charge. Exhaust.");
    d.exhaust = true;
    d.tags = vec![CardTag::Skill];
    d
}

/// The Shield card.
pub open spec fn is_shield_spell_def(d: CardDef) -> bool {
    card_fields(d, "shield_spell"@, "Shield"@, Rarity::Common, 1, CardType::Spell, seq![ Effect::GainBlock { amount: 12 }, Effect::ApplyStatusIfPlayerHasStatus { status: StatusType::Fortified, stacks: 2, require_status: StatusType::ArcaneCharge, require_stacks: 2 }], "Gain 12 block. If Arcane Charge >= 2: gain 2 Fortified."@, Some(Class::Wizard), None, seq![CardTag::Skill, CardTag::Defense], false, false, false, false, false, false)
}

fn shield_spell_def() -> (r: CardDef)
    ensures
        is_shield_spell_def(r),
{
    let mut d = wizard("shield_spell", "Shield", 1, vec![
        Effect::GainBlock { amount: 12 },
        Effect::ApplyStatusIfPlayerHasStatus {
            status: StatusType::Fortified,
            stacks: 2,
            require_status: StatusType::ArcaneCharge,
            require_stacks: 2,
        },
    ], "Gain 12 block. If Arcane Charge >= 2: gain 2 Fortified.");
    d.tags = vec![CardTag::Skill, CardTag::Defense];
    d
}

/// The Ember Bolt card.
pub open spec fn is_ember_bolt_def(d: CardDef) -> bool {
    card_fields(d, "ember_bolt"@, "Ember Bolt"@, Rarity::Common, 1, CardType::Spell, seq![ Effect::DealDamage { target: Target::SingleEnemy, amount: 7 }], "Deal 7 damage."@, Some(Class::Wizard), Some("evocation"@), seq![CardTag::Attack], false, false, false, false, false, false)
}

fn ember_bolt_def() -> (r: CardDef)
    ensures
        is_ember_bolt_def(r),
{
    let mut d = wizard_sc("ember_bolt", "Ember Bolt", "evocation", 1, vec![
        Effect::DealDamage { target: Target::SingleEnemy, amount: 7 },
    ], "Deal 7 damage.");
    d.tags = vec![CardTag::Attack];
    d
}

/// The Arcane Ward card.
pub open spec fn is_arcane_ward_def(d: CardDef) -> bool {
    card_fields(d, "arcane_ward"@, "Arcane Ward"@, Rarity::Common, 1, CardType::Spell, seq![ Effect::GainBlock { amount: 8 }], "Gain 8 block."@, Some(Class::Wizard), Some("abjuration"@), seq![CardTag::Skill, CardTag::Defense], false, false, false, false, false, false)
}

fn arcane_ward_def() -> (r: CardDef)
    ensures
        is_arcane_ward_def(r),
{
    let mut d = wizard_sc("arcane_ward", "Arcane Ward", "abjuration", 1, vec![
        Effect::GainBlock { amount: 8 },
    ], "Gain 8 block.");
    d.tags = vec![CardTag::Skill, CardTag::Defense];
    d
}

/// The Prescience card.
pub open spec fn is_prescience_def(d: CardDef) -> bool {
    card_fields(d, "prescience"@, "Prescience"@, Rarity::Common, 0, CardType::Spell, seq![ Effect::DrawCards { count: 1 }], "Draw 1. Exhaust."@, Some(Class::Wizard), Some("divination"@), seq![CardTag::Skill], true, false, false, false, false, false)
}

fn prescience_def() -> (r: CardDef)
    ensures
        is_prescience_def(r),
{
    let mut d = wizard_sc("prescience", "Prescience", "divination", 0, vec![
        Effect::DrawCards { count: 1 },
    ], "Draw 1. Exhaust.");
    d.exhaust = true;
    d.tags = vec![CardTag::Skill];
    d
}

/// The Fireball card.
pub open spec fn is_fireball_def(d: CardDef) -> bool {
    card_fields(d, "fireball"@, "Fireball"@, Rarity::Uncommon, 2, CardType::Spell, seq![ Effect::DealDamage { target: Target::AllEnemies, amount: 12 }], "Deal 12 damage to ALL enemies. Exhaust."@, Some(Class::Wizard), Some("evocation"@), seq![CardTag::Attack], true, false, false, false, false, false)
}

fn fireball_def() -> (r: CardDef)
    ensures
        is_fireball_def(r),
{
    let mut d = wizard_sc("fireball", "Fireball", "evocation", 2, vec![
        Effect::DealDamage { target: Target::AllEnemies, amount: 12 },
    ], "Deal 12 damage to ALL enemies. Exhaust.");
    d.exhaust = true;
    d.rarity = Rarity::Uncommon;
    d.tags = vec![CardTag::Attack];
    d
}

/// The Scorching Ray card.
pub open spec fn is_scorching_ray_def(d: CardDef) -> bool {
    card_fields(d, "scorching_ray"@, "Scorching Ray"@, Rarity::Common, 1, CardType::Spell, seq![ Effect::DealDamage { target: Target::SingleEnemy, amount: 4 }, Effect::DealDamage { target: Target::SingleEnemy, amount: 4 }, Effect::DealDamage { target: Target::SingleEnemy, amount: 4 }], "Deal 4 damage 3 times."@, Some(Class::Wizard), Some("evocation"@), seq![CardTag::Attack], false, false, false, false, false, false)
}

fn scorching_ray_def() -> (r: CardDef)
    ensures
        is_scorching_ray_def(r),
{
    let mut d = wizard_sc("scorching_ray", "Scorching Ray", "evocation", 1, vec![
        Effect::DealDamage { target: Target::SingleEnemy, amount: 4 },
        Effect::DealDamage { target: Target::SingleEnemy, amount: 4 },
        Effect::DealDamage { target: Target::SingleEnemy, amount: 4 },
    ], "Deal 4 damage 3 times.");
    d.tags = vec![CardTag::Attack];
    d
}

/// The Lightning Bolt card.
pub open spec fn is_lightning_bolt_def(d: CardDef) -> bool {
    card_fields(d, "lightning_bolt"@, "Lightning Bolt"@, Rarity::Uncommon, 1, CardType::Spell, seq![ Effect::DealDamage { target: Target::SingleEnemy, amount: 15 }], "Deal 15 damage. Exhaust."@, Some(Class::Wizard), Some("evocation"@), seq![CardTag::Attack], true, false, false, false, false, false)
}

fn lightning_bolt_def() -> (r: CardDef)
    ensures
        is_lightning_bolt_def(r),
{
    let mut d = wizard_sc("lightning_bolt", "Lightning Bolt", "evocation", 1, vec![
        Effect::DealDamage { target: Target::SingleEnemy, amount: 15 },
    ], "Deal 15 damage. Exhaust.");
    d.exhaust = true;
    d.rarity = Rarity::Uncommon;
    d.tags = vec![CardTag::Attack];
    d
}

/// The Flame Shield card.
pub open spec fn is_flame_shield_def(d: CardDef) -> bool {
    card_fields(d, "flame_shield"@, "Flame Shield"@, Rarity::Common, 1, CardType::Spell, seq![ Effect::GainBlock { amount: 8 }, Effect::ApplyStatus { target: Target::Player, status: StatusType::Barbed, stacks: 2 }], "Gain 8 block. Gain 2 Barbed."@, Some(Class::Wizard), Some("evocation"@), seq![CardTag::Skill, CardTag::Defense], false, false, false, false, false, false)
}

fn flame_shield_def() -> (r: CardDef)
    ensures
        is_flame_shield_def(r),
{
    let mut d = wizard_sc("flame_shield", "Flame Shield", "evocation", 1, vec![
        Effect::GainBlock { amount: 8 },
        Effect::ApplyStatus { target: Target::Player, status: StatusType::Barbed, stacks: 2 },
    ], "Gain 8 block. Gain 2 Barbed.");
    d.tags = vec![CardTag::Skill, CardTag::Defense];
    d
}

/// The Counterspell card.
pub open spec fn is_counterspell_def(d: CardDef) -> bool {
    card_fields(d, "counterspell"@, "Counterspell"@, Rarity::Uncommon, 1, CardType::Spell, seq![ Effect::ApplyStatus { target: Target::Player, status: StatusType::SanctifiedShield, stacks: 1 }], "Negate the next enemy attack. Exhaust."@, Some(Class::Wizard), Some("abjuration"@), seq![CardTag::Skill], true, false, false, false, false, false)
}

fn counterspell_def() -> (r: CardDef)
    ensures
        is_counterspell_def(r),
{
    let mut d = wizard_sc("counterspell", "Counterspell", "abjuration", 1, vec![
        Effect::ApplyStatus { target: Target::Player, status: StatusType::SanctifiedShield, stacks: 1 },
    ], "Negate the next enemy attack. Exhaust.");
    d.exhaust = true;
    d.rarity = Rarity::Uncommon;
    d.tags = vec![CardTag::Skill];
    d
}

/// The Ward card.
pub open spec fn is_ward_def(d: CardDef) -> bool {
    card_fields(d, "ward"@, "Ward"@, Rarity::Common, 1, CardType::Spell, seq![ Effect::GainBlock { amount: 10 }, Effect::ApplyStatus { target: Target::Player, status: StatusType::Fortified, stacks: 2 }], "Gain 10 block. Gain 2 Fortified."@, Some(Class::Wizard), Some("abjuration"@), seq![CardTag::Skill, CardTag::Defense], false, false, false, false, false, false)
}

fn ward_def() -> (r: CardDef)
    ensures
        is_ward_def(r),
{
    let mut d = wizard_sc("ward", "Ward", "abjuration", 1, vec![
        Effect::GainBlock { amount: 10 },
        Effect::ApplyStatus { target: Target::Player, status: StatusType::Fortified, stacks: 2 },
    ], "Gain 10 block. Gain 2 Fortified.");
    d.tags = vec![CardTag::Skill, CardTag::Defense];
    d
}

/// The Dispel card.
pub open spec fn is_dispel_def(d: CardDef) -> bool {
    card_fields(d, "dispel"@, "Dispel"@, Rarity::Uncommon, 0, CardType::Spell, seq![ Effect::ApplyStatus { target: Target::AllEnemies, status: StatusType::Empowered, stacks: -2i32 }], "Remove 2 Empowered from all enemies. Exhaust."@, Some(Class::Wizard), Some("abjuration"@), seq![CardTag::Skill], true, false, false, false, false, false)
}

fn dispel_def() -> (r: CardDef)
    ensures
        is_dispel_def(r),
{
    let mut d = wizard_sc("dispel", "Dispel", "abjuration", 0, vec![
        Effect::ApplyStatus { target: Target::AllEnemies, status: StatusType::Empowered, stacks: -2 },
    ], "Remove 2 Empowered from all enemies. Exhaust.");
    d.exhaust = true;
    d.rarity = Rarity::Uncommon;
    d.tags = vec![CardTag::Skill];
    d
}

/// The Globe of Protection card.
pub open spec fn is_globe_of_protection_def(d: CardDef) -> bool {
    card_fields(d, "globe_of_protection"@, "Globe of Protection"@, Rarity::Uncommon, 2, CardType::Spell, seq![ Effect::GainBlock { amount: 20 }], "Gain 20 block. Exhaust."@, Some(Class::Wizard), Some("abjuration"@), seq![CardTag::Skill, CardTag::Defense], true, false, false, false, false, false)
}

fn globe_of_protection_def() -> (r: CardDef)
    ensures
        is_globe_of_protection_def(r),
{
    let mut d = wizard_sc("globe_of_protection", "Globe of Protection", "abjuration", 2, vec![
        Effect::GainBlock { amount: 20 },
    ], "Gain 20 block. Exhaust.");
    d.exhaust = true;
    d.rarity = Rarity::Uncommon;
    d.tags = vec![CardTag::Skill, CardTag::Defense];
    d
}

/// The Foresight card.
pub open spec fn is_foresight_def(d: CardDef) -> bool {
    card_fields(d, "foresight"@, "Foresight"@, Rarity::Uncommon, 0, CardType::Spell, seq![ Effect::DrawAndDiscard { draw: 3, discard: 1 }], "Draw 3, discard 1. Exhaust."@, Some(Class::Wizard), Some("divination"@), seq![CardTag::Skill], true, false, false, false, false, false)
}

fn foresight_def() -> (r: CardDef)
    ensures
        is_foresight_def(r),
{
    let mut d = wizard_sc("foresight", "Foresight", "divination", 0, vec![
        Effect::DrawAndDiscard { draw: 3, discard: 1 },
    ], "Draw 3, discard 1. Exhaust.");
    d.exhaust = true;
    d.rarity = Rarity::Uncommon;
    d.tags = vec![CardTag::Skill];
    d
}

/// The Scrying card.
pub open spec fn is_scrying_def(d: CardDef) -> bool {
    card_fields(d, "scrying"@, "Scrying"@, Rarity::Common, 1, CardType::Spell, seq![ Effect::DrawCards { count: 2 }, Effect::ApplyStatus { target: Target::AllEnemies, status: StatusType::Marked, stacks: 1 }], "Draw 2. Apply 1 Marked to all enemies."@, Some(Class::Wizard), Some("divination"@), seq![CardTag::Skill], false, false, false, false, false, false)
}

fn scrying_def() -> (r: CardDef)
    ensures
        is_scrying_def(r),
{
    let mut d = wizard_sc("scrying", "Scrying", "divination", 1, vec![
        Effect::DrawCards { count: 2 },
        Effect::ApplyStatus { target: Target::AllEnemies, status: StatusType::Marked, stacks: 1 },
    ], "Draw 2. Apply 1 Marked to all enemies.");
    d.tags = vec![CardTag::Skill];
    d
}

/// The Portent card.
pub open spec fn is_portent_def(d: CardDef) -> bool {
    card_fields(d, "portent"@, "Portent"@, Rarity::Common, 0, CardType::Spell, seq![ Effect::ApplyStatus { target: Target::Player, status: StatusType::ArcaneCharge, stacks: 2 }], "Gain 2 Arcane Charge. Exhaust."@, Some(Class::Wizard), Some("divination"@), seq![CardTag::Skill], true, false, false, false, false, false)
}

fn portent_def() -> (r: CardDef)
    ensures
        is_portent_def(r),
{
    let mut d = wizard_sc("portent", "Portent", "divination", 0, vec![
        Effect::ApplyStatus { target: Target::Player, status: StatusType::ArcaneCharge, stacks: 2 },
    ], "Gain 2 Arcane Charge. Exhaust.");
    d.exhaust = true;
    d.tags = vec![CardTag::Skill];
    d
}

/// The Time Stop card.
pub open spec fn is_time_stop_def(d: CardDef) -> bool {
    card_fields(d, "time_stop"@, "Time Stop"@, Rarity::Rare, 2, CardType::Spell, seq![ Effect::GainEnergy { amount: 3 }, Effect::DrawCards { count: 3 }], "Gain 3 energy. Draw 3. Exhaust."@, Some(Class::Wizard), Some("divination"@), seq![CardTag::Skill], true, false, false, false, false, false)
}

fn time_stop_def() -> (r: CardDef)
    ensures
        is_time_stop_def(r),
{
    let mut d = wizard_sc("time_stop", "Time Stop", "divination", 2, vec![
        Effect::GainEnergy { amount: 3 },
        Effect::DrawCards { count: 3 },
    ], "Gain 3 energy. Draw 3. Exhaust.");
    d.exhaust = true;
    d.rarity = Rarity::Rare;
    d.tags = vec![CardTag::Skill];
    d
}

/// The Wish card.
pub open spec fn is_wish_def(d: CardDef) -> bool {
    card_fields(d, "wish"@, "Wish"@, Rarity::Legendary, 0, CardType::Spell, seq![ Effect::ApplyStatus { target: Target::Player, status: StatusType::ArcaneCharge, stacks: 3 }, Effect::DrawCards { count: 3 }, Effect::Heal { amount: 10 }], "Gain 3 Arcane Charge. Draw 3. Heal 10. Innate. Exhaust."@, Some(Class::Wizard), None, seq![CardTag::Skill], true, false, false, true, false, false)
}

fn wish_def() -> (r: CardDef)
    ensures
        is_wish_def(r),
{
    let mut d = wizard("wish", "Wish", 0, vec![
        Effect::ApplyStatus { target: Target::Player, status: StatusType::ArcaneCharge, stacks: 3 },
        Effect::DrawCards { count: 3 },
        Effect::Heal { amount: 10 },
    ], "Gain 3 Arcane Charge. Draw 3. Heal 10. Innate. Exhaust.");
    d.rarity = Rarity::Legendary;
    d.exhaust = true;
    d.innate = true;
    d.tags = vec![CardTag::Skill];
    d
}

/// The Holy Strike card.
pub open spec fn is_holy_strike_def(d: CardDef) -> bool {
    card_fields(d, "holy_strike"@, "Holy Strike"@, Rarity::Common, 1, CardType::Spell, seq![ Effect::DealDamageSpendSmite { target: Target::SingleEnemy, base: 8, smite_cost: 1, bonus: 16 }, Effect::GainBlock { amount: 4 }], "Deal 8 damage + 4 block. Spend 1 Smite: deal 16 instead."@, Some(Class::Paladin), None, seq![CardTag::Attack, CardTag::Defense], false, false, false, false, false, false)
}

fn holy_strike_def() -> (r: CardDef)
    ensures
        is_holy_strike_def(r),
{
    let mut d = paladin("holy_strike", "Holy Strike", 1, vec![
        Effect::DealDamageSpendSmite { target: Target::SingleEnemy, base: 8, smite_cost: 1, bonus: 16 },
        Effect::GainBlock { amount: 4 },
    ], "Deal 8 damage + 4 block. Spend 1 Smite: deal 16 instead.");
    d.tags = vec![CardTag::Attack, CardTag::Defense];
    d
}

/// The Lay on Hands card.
pub open spec fn is_lay_on_hands_def(d: CardDef) -> bool {
    card_fields(d, "lay_on_hands"@, "Lay on Hands"@, Rarity::Common, 1, CardType::Consumable, seq![ Effect::Heal { amount: 12 }, Effect::GainBlock { amount: 4 }], "Heal 12 HP. Gain 4 block. Exhaust."@, Some(Class::Paladin), None, seq![CardTag::Skill], true, false, false, false, false, false)
}

fn lay_on_hands_def() -> (r: CardDef)
    ensures
        is_lay_on_hands_def(r),
{
    let mut d = paladin("lay_on_hands", "Lay on Hands", 1, vec![
        Effect::Heal { amount: 12 },
        Effect::GainBlock { amount: 4 },
    ], "Heal 12 HP. Gain 4 block. Exhaust.");
    d.card_type = CardType::Consumable;
    d.exhaust = true;
    d.tags = vec![CardTag::Skill];
    d
}

/// The Prayer of Valor card.
pub open spec fn is_prayer_of_valor_def(d: CardDef) -> bool {
    card_fields(d, "prayer_of_valor"@, "Prayer of Valor"@, Rarity::Common, 0, CardType::Spell, seq![ Effect::GainEnergy { amount: 1 }, Effect::ApplyStatus { target: Target::Player, status: StatusType::Smite, stacks: 1 }], "Gain 1 energy + 1 Smite. Exhaust."@, Some(Class::Paladin), None, seq![CardTag::Skill], true, false, false, false, false, false)
}

fn prayer_of_valor_def() -> (r: CardDef)
    ensures
        is_prayer_of_valor_def(r),
{
    let mut d = paladin("prayer_of_valor", "Prayer of Valor", 0, vec![
        Effect::GainEnergy { amount: 1 },
        Effect::ApplyStatus { target: Target::Player, status: StatusType::Smite, stacks: 1 },
    ], "Gain 1 energy + 1 Smite. Exhaust.");
    d.exhaust = true;
    d.tags = vec![CardTag::Skill];
    d
}

/// The Consecration card.
pub open spec fn is_consecration_def(d: CardDef) -> bool {
    card_fields(d, "consecration"@, "Consecration"@, Rarity::Common, 1, CardType::Spell, seq![ Effect::ApplyStatus { target: Target::AllEnemies, status: StatusType::Threatened, stacks: 1 }, Effect::GainBlock { amount: 6 }], "Apply 1 Threatened to ALL enemies. Gain 6 block."@, Some(Class::Paladin), None, seq![CardTag::Defense], false, false, false, false, false, false)
}

fn consecration_def() -> (r: CardDef)
    ensures
        is_consecration_def(r),
{
    let mut d = paladin("consecration", "Consecration", 1, vec![
        Effect::ApplyStatus { target: Target::AllEnemies, status: StatusType::Threatened, stacks: 1 },
        Effect::GainBlock { amount: 6 },
    ], "Apply 1 Threatened to ALL enemies. Gain 6 block.");
    d.tags = vec![CardTag::Defense];
    d
}

/// The Divine Bulwark card.
pub open spec fn is_divine_bulwark_def(d: CardDef) -> bool {
    card_fields(d, "divine_bulwark"@, "Divine Bulwark"@, Rarity::Common, 0, CardType::Spell, seq![ Effect::ApplyStatus { target: Target::Player, status: StatusType::BlockRetention, stacks: 1 }, Effect::ApplyStatus { target: Target::Player, status: StatusType::Armored, stacks: 2 }], "Gain Sanctified Shield (Block Retention + 2 Armored). Exhaust."@, Some(Class::Paladin), None, seq![CardTag::Defense, CardTag::Power], true, false, false, false, false, false)
}

fn divine_bulwark_def() -> (r: CardDef)
    ensures
        is_divine_bulwark_def(r),
{
    let mut d = paladin("divine_bulwark", "Divine Bulwark", 0, vec![
        Effect::ApplyStatus { target: Target::Player, status: StatusType::BlockRetention, stacks: 1 },
        Effect::ApplyStatus { target: Target::Player, status: StatusType::Armored, stacks: 2 },
    ], "Gain Sanctified Shield (Block Retention + 2 Armored). Exhaust.");
    d.exhaust = true;
    d.tags = vec![CardTag::Defense, CardTag::Power];
    d
}

/// The Warding Slash card.
pub open spec fn is_warding_slash_def(d: CardDef) -> bool {
    card_fields(d, "warding_slash"@, "Warding Slash"@, Rarity::Common, 1, CardType::Spell, seq![ Effect::DealDamage { target: Target::SingleEnemy, amount: 10 }, Effect::GainBlockSpendSmite { base: 5, smite_cost: 1, bonus: 13 }], "Deal 10 damage + 5 block. Spend 1 Smite: 13 block instead."@, Some(Class::Paladin), Some("devotion"@), seq![CardTag::Attack, CardTag::Defense], false, false, false, false, false, false)
}

fn warding_slash_def() -> (r: CardDef)
    ensures
        is_warding_slash_def(r),
{
    let mut d = paladin_sc("warding_slash", "Warding Slash", "devotion", 1, vec![
        Effect::DealDamage { target: Target::SingleEnemy, amount: 10 },
        Effect::GainBlockSpendSmite { base: 5, smite_cost: 1, bonus: 13 },
    ], "Deal 10 damage + 5 block. Spend 1 Smite: 13 block instead.");
    d.tags = vec![CardTag::Attack, CardTag::Defense];
    d
}

/// The Shield of Faith card.
pub open spec fn is_shield_of_faith_def(d: CardDef) -> bool {
    card_fields(d, "shield_of_faith"@, "Shield of Faith"@, Rarity::Common, 1, CardType::Spell, seq![ Effect::GainBlock { amount: 10 }, Effect::ApplyStatus { target: Target::Player, status: StatusType::Armored, stacks: 1 }], "Gain 10 block + 1 Armored."@, Some(Class::Paladin), Some("devotion"@), seq![CardTag::Defense], false, false, false, false, false, false)
}

fn shield_of_faith_def() -> (r: CardDef)
    ensures
        is_shield_of_faith_def(r),
{
    let mut d = paladin_sc("shield_of_faith", "Shield of Faith", "devotion", 1, vec![
        Effect::GainBlock { amount: 10 },
        Effect::ApplyStatus { target: Target::Player, status: StatusType::Armored, stacks: 1 },
    ], "Gain 10 block + 1 Armored.");
    d.tags = vec![CardTag::Defense];
    d
}

/// The Bastion Drive card.
pub open spec fn is_bastion_drive_def(d: CardDef) -> bool {
    card_fields(d, "bastion_drive"@, "Bastion Drive"@, Rarity::Common, 2, CardType::Spell, seq![ Effect::DealDamageSpendSmite { target: Target::SingleEnemy, base: 14, smite_cost: 1, bonus: 22 }, Effect::GainBlock { amount: 12 }], "Deal 14 damage + 12 block. Spend 1 Smite: deal 22 instead."@, Some(Class::Paladin), Some("devotion"@), seq![CardTag::Attack, CardTag::Defense], false, false, false, false, false, false)
}

fn bastion_drive_def() -> (r: CardDef)
    ensures
        is_bastion_drive_def(r),
{
    let mut d = paladin_sc("bastion_drive", "Bastion Drive", "devotion", 2, vec![
        Effect::DealDamageSpendSmite { target: Target::SingleEnemy, base: 14, smite_cost: 1, bonus: 22 },
        Effect::GainBlock { amount: 12 },
    ], "Deal 14 damage + 12 block. Spend 1 Smite: deal 22 instead.");
    d.tags = vec![CardTag::Attack, CardTag::Defense];
    d
}

/// The Holy Bastion card.
pub open spec fn is_holy_bastion_def(d: CardDef) -> bool {
    card_fields(d, "holy_bastion"@, "Holy Bastion"@, Rarity::Common, 1, CardType::Spell, seq![ Effect::GainBlock { amount: 12 }, Effect::ApplyStatus { target: Target::Player, status: StatusType::Armored, stacks: 2 }], "Gain 12 block + 2 Armored."@, Some(Class::Paladin), Some("devotion"@), seq![CardTag::Defense], false, false, false, false, false, false)
}

fn holy_bastion_def() -> (r: CardDef)
    ensures
        is_holy_bastion_def(r),
{
    let mut d = paladin_sc("holy_bastion", "Holy Bastion", "devotion", 1, vec![
        Effect::GainBlock { amount: 12 },
        Effect::ApplyStatus { target: Target::Player, status: StatusType::Armored, stacks: 2 },
    ], "Gain 12 block + 2 Armored.");
    d.tags = vec![CardTag::Defense];
    d
}

/// The Avenging Strike card.
pub open spec fn is_avenging_strike_def(d: CardDef) -> bool {
    card_fields(d, "avenging_strike"@, "Avenging Strike"@, Rarity::Common, 1, CardType::Spell, seq![ Effect::DealDamageSpendSmite { target: Target::SingleEnemy, base: 12, smite_cost: 1, bonus: 20 }], "Deal 12 damage. Spend 1 Smite: deal 20 instead."@, Some(Class::Paladin), Some("vengeance"@), seq![CardTag::Attack], false, false, false, false, false, false)
}

fn avenging_strike_def() -> (r: CardDef)
    ensures
        is_avenging_strike_def(r),
{
    let mut d = paladin_sc("avenging_strike", "Avenging Strike", "vengeance", 1, vec![
        Effect::DealDamageSpendSmite { target: Target::SingleEnemy, base: 12, smite_cost: 1, bonus: 20 },
    ], "Deal 12 damage. Spend 1 Smite: deal 20 instead.");
    d.tags = vec![CardTag::Attack];
    d
}

/// The Blade of Wrath card.
pub open spec fn is_blade_of_wrath_def(d: CardDef) -> bool {
    card_fields(d, "blade_of_wrath"@, "Blade of Wrath"@, Rarity::Common, 1, CardType::Spell, seq![ Effect::DealDamage { target: Target::SingleEnemy, amount: 10 }, Effect::ApplyStatus { target: Target::Player, status: StatusType::Empowered, stacks: 2 }], "Deal 10 damage. Gain 2 Empowered."@, Some(Class::Paladin), Some("vengeance"@), seq![CardTag::Attack], false, false, false, false, false, false)
}

fn blade_of_wrath_def() -> (r: CardDef)
    ensures
        is_blade_of_wrath_def(r),
{
    let mut d = paladin_sc("blade_of_wrath", "Blade of Wrath", "vengeance", 1, vec![
        Effect::DealDamage { target: Target::SingleEnemy, amount: 10 },
        Effect::ApplyStatus { target: Target::Player, status: StatusType::Empowered, stacks: 2 },
    ], "Deal 10 damage. Gain 2 Empowered.");
    d.tags = vec![CardTag::Attack];
    d
}

/// The Divine Judgment card.
pub open spec fn is_divine_judgment_def(d: CardDef) -> bool {
    card_fields(d, "divine_judgment"@, "Divine Judgment"@, Rarity::Common, 2, CardType::Spell, seq![ Effect::DealDamage { target: Target::SingleEnemy, amount: 20 }, Effect::ApplyStatus { target: Target::Player, status: StatusType::Smite, stacks: 2 }], "Deal 20 damage. Gain 2 Smite. Exhaust."@, Some(Class::Paladin), Some("vengeance"@), seq![CardTag::Attack], true, false, false, false, false, false)
}

fn divine_judgment_def() -> (r: CardDef)
    ensures
        is_divine_judgment_def(r),
{
    let mut d = paladin_sc("divine_judgment", "Divine Judgment", "vengeance", 2, vec![
        Effect::DealDamage { target: Target::SingleEnemy, amount: 20 },
        Effect::ApplyStatus { target: Target::Player, status: StatusType::Smite, stacks: 2 },
    ], "Deal 20 damage. Gain 2 Smite. Exhaust.");
    d.exhaust = true;
    d.tags = vec![CardTag::Attack];
    d
}

/// The Zealous Rush card.
pub open spec fn is_zealous_rush_def(d: CardDef) -> bool {
    card_fields(d, "zealous_rush"@, "Zealous Rush"@, Rarity::Common, 0, CardType::Spell, seq![ Effect::DrawCards { count: 2 }, Effect::ApplyStatus { target: Target::Player, status: StatusType::Empowered, stacks: 1 }], "Draw 2 cards. Gain 1 Empowered. Exhaust."@, Some(Class::Paladin), Some("vengeance"@), seq![CardTag::Skill], true, false, false, false, false, false)
}

fn zealous_rush_def() -> (r: CardDef)
    ensures
        is_zealous_rush_def(r),
{
    let mut d = paladin_sc("zealous_rush", "Zealous Rush", "vengeance", 0, vec![
        Effect::DrawCards { count: 2 },
        Effect::ApplyStatus { target: Target::Player, status: StatusType::Empowered, stacks: 1 },
    ], "Draw 2 cards. Gain 1 Empowered. Exhaust.");
    d.exhaust = true;
    d.tags = vec![CardTag::Skill];
    d
}

/// The Radiant Burst card.
pub open spec fn is_radiant_burst_def(d: CardDef) -> bool {
    card_fields(d, "radiant_burst"@, "Radiant Burst"@, Rarity::Common, 1, CardType::Spell, seq![ Effect::DealDamage { target: Target::AllEnemies, amount: 8 }, Effect::GainBlock { amount: 4 }], "Deal 8 damage to ALL enemies. Gain 4 block."@, Some(Class::Paladin), Some("radiance"@), seq![CardTag::Attack, CardTag::Defense], false, false, false, false, false, false)
}

fn radiant_burst_def() -> (r: CardDef)
    ensures
        is_radiant_burst_def(r),
{
    let mut d = paladin_sc("radiant_burst", "Radiant Burst", "radiance", 1, vec![
        Effect::DealDamage { target: Target::AllEnemies, amount: 8 },
        Effect::GainBlock { amount: 4 },
    ], "Deal 8 damage to ALL enemies. Gain 4 block.");
    d.tags = vec![CardTag::Attack, CardTag::Defense];
    d
}

/// The Beacon of Light card.
pub open spec fn is_beacon_of_light_def(d: CardDef) -> bool {
    card_fields(d, "beacon_of_light"@, "Beacon of Light"@, Rarity::Common, 1, CardType::Spell, seq![ Effect::GainBlock { amount: 8 }, Effect::Heal { amount: 6 }], "Gain 8 block. Heal 6 HP."@, Some(Class::Paladin), Some("radiance"@), seq![CardTag::Defense, CardTag::Skill], false, false, false, false, false, false)
}

fn beacon_of_light_def() -> (r: CardDef)
    ensures
        is_beacon_of_light_def(r),
{
    let mut d = paladin_sc("beacon_of_light", "Beacon of Light", "radiance", 1, vec![
        Effect::GainBlock { amount: 8 },
        Effect::Heal { amount: 6 },
    ], "Gain 8 block. Heal 6 HP.");
    d.tags = vec![CardTag::Defense, CardTag::Skill];
    d
}

/// The Solar Flare card.
pub open spec fn is_solar_flare_def(d: CardDef) -> bool {
    card_fields(d, "solar_flare"@, "Solar Flare"@, Rarity::Common, 2, CardType::Spell, seq![ Effect::DealDamage { target: Target::AllEnemies, amount: 15 }, Effect::ApplyStatus { target: Target::AllEnemies, status: StatusType::Threatened, stacks: 2 }], "Deal 15 damage to ALL enemies. Apply 2 Threatened to ALL. Exhaust."@, Some(Class::Paladin), Some("radiance"@), seq![CardTag::Attack], true, false, false, false, false, false)
}

fn solar_flare_def() -> (r: CardDef)
    ensures
        is_solar_flare_def(r),
{
    let mut d = paladin_sc("solar_flare", "Solar Flare", "radiance", 2, vec![
        Effect::DealDamage { target: Target::AllEnemies, amount: 15 },
        Effect::ApplyStatus { target: Target::AllEnemies, status: StatusType::Threatened, stacks: 2 },
    ], "Deal 15 damage to ALL enemies. Apply 2 Threatened to ALL. Exhaust.");
    d.exhaust = true;
    d.tags = vec![CardTag::Attack];
    d
}

/// The Dawn's Blessing card.
pub open spec fn is_dawns_blessing_def(d: CardDef) -> bool {
    card_fields(d, "dawns_blessing"@, "Dawn's Blessing"@, Rarity::Common, 0, CardType::Spell, seq![ Effect::Heal { amount: 8 }, Effect::DrawCards { count: 1 }], "Heal 8 HP. Draw 1 card. Exhaust."@, Some(Class::Paladin), Some("radiance"@), seq![CardTag::Skill], true, false, false, false, false, false)
}

fn dawns_blessing_def() -> (r: CardDef)
    ensures
        is_dawns_blessing_def(r),
{
    let mut d = paladin_sc("dawns_blessing", "Dawn's Blessing", "radiance", 0, vec![
        Effect::Heal { amount: 8 },
        Effect::DrawCards { count: 1 },
    ], "Heal 8 HP. Draw 1 card. Exhaust.");
    d.exhaust = true;
    d.tags = vec![CardTag::Skill];
    d
}

/// The Avatar of Radiance card.
pub open spec fn is_avatar_of_radiance_def(d: CardDef) -> bool {
    card_fields(d, "avatar_of_radiance"@, "Avatar of Radiance"@, Rarity::Legendary, 0, CardType::Spell, seq![ Effect::DealDamage { target: Target::AllEnemies, amount: 12 }, Effect::GainBlock { amount: 15 }, Effect::ApplyStatus { target: Target::Player, status: StatusType::Smite, stacks: 2 }], "Deal 12 damage to ALL. Gain 15 block. Gain 2 Smite. Innate. Exhaust."@, Some(Class::Paladin), None, seq![CardTag::Attack, CardTag::Defense], true, false, false, true, false, false)
}

fn avatar_of_radiance_def() -> (r: CardDef)
    ensures
        is_avatar_of_radiance_def(r),
{
    let mut d = paladin("avatar_of_radiance", "Avatar of Radiance", 0, vec![
        Effect::DealDamage { target: Target::AllEnemies, amount: 12 },
        Effect::GainBlock { amount: 15 },
        Effect::ApplyStatus { target: Target::Player, status: StatusType::Smite, stacks: 2 },
    ], "Deal 12 damage to ALL. Gain 15 block. Gain 2 Smite. Innate. Exhaust.");
    d.rarity = Rarity::Legendary;
    d.exhaust = true;
    d.innate = true;
    d.tags = vec![CardTag::Attack, CardTag::Defense];
    d
}

/// The Tricks of the Trade card.
pub open spec fn is_tricks_of_the_trade_def(d: CardDef) -> bool {
    card_fields(d, "tricks_of_the_trade"@, "Tricks of the Trade"@, Rarity::Common, 1, CardType::Consumable, seq![ Effect::Heal { amount: 8 }, Effect::ApplyStatus { target: Target::Player, status: StatusType::Artifice, stacks: 5 }], "Heal 8 HP. Gain 5 Artifice."@, Some(Class::Rogue), None, seq![CardTag::Skill], false, false, false, false, false, false)
}

fn tricks_of_the_trade_def() -> (r: CardDef)
    ensures
        is_tricks_of_the_trade_def(r),
{
    let mut d = rogue("tricks_of_the_trade", "Tricks of the Trade", 1, vec![
        Effect::Heal { amount: 8 },
        Effect::ApplyStatus { target: Target::Player, status: StatusType::Artifice, stacks: 5 },
    ], "Heal 8 HP. Gain 5 Artifice.");
    d.card_type = CardType::Consumable;
    d.tags = vec![CardTag::Skill];
    d
}

/// The Sneak Attack card.
pub open spec fn is_sneak_attack_def(d: CardDef) -> bool {
    card_fields(d, "sneak_attack"@, "Sneak Attack"@, Rarity::Common, 1, CardType::Spell, seq![ Effect::DealDamageSpendArtifice { target: Target::SingleEnemy, base: 10, artifice_cost: 10, bonus: 15 }], "Deal 10 damage. Spend 10 Artifice: deal 15 instead."@, Some(Class::Rogue), None, seq![CardTag::Attack], false, false, false, false, false, false)
}

fn sneak_attack_def() -> (r: CardDef)
    ensures
        is_sneak_attack_def(r),
{
    let mut d = rogue("sneak_attack", "Sneak Attack", 1, vec![
        Effect::DealDamageSpendArtifice { target: Target::SingleEnemy, base: 10, artifice_cost: 10, bonus: 15 },
    ], "Deal 10 damage. Spend 10 Artifice: deal 15 instead.");
    d.tags = vec![CardTag::Attack];
    d
}

/// The Cunning Action card.
pub open spec fn is_cunning_action_def(d: CardDef) -> bool {
    card_fields(d, "cunning_action"@, "Cunning Action"@, Rarity::Common, 0, CardType::Spell, seq![ Effect::DrawCards { count: 2 }, Effect::ApplyStatus { target: Target::Player, status: StatusType::Artifice, stacks: 3 }], "Draw 2 cards. Gain 3 Artifice. Exhaust."@, Some(Class::Rogue), None, seq![CardTag::Skill], true, false, false, false, false, false)
}

fn cunning_action_def() -> (r: CardDef)
    ensures
        is_cunning_action_def(r),
{
    let mut d = rogue("cunning_action", "Cunning Action", 0, vec![
        Effect::DrawCards { count: 2 },
        Effect::ApplyStatus { target: Target::Player, status: StatusType::Artifice, stacks: 3 },
    ], "Draw 2 cards. Gain 3 Artifice. Exhaust.");
    d.exhaust = true;
    d.tags = vec![CardTag::Skill];
    d
}

/// The Evasion card.
pub open spec fn is_rogue_evasion_def(d: CardDef) -> bool {
    card_fields(d, "rogue_evasion"@, "Evasion"@, Rarity::Common, 1, CardType::Spell, seq![ Effect::GainBlock { amount: 10 }, Effect::ApplyStatus { target: Target::Player, status: StatusType::Artifice, stacks: 3 }], "Gain 10 block. Gain 3 Artifice."@, Some(Class::Rogue), None, seq![CardTag::Defense], false, false, false, false, false, false)
}

fn rogue_evasion_def() -> (r: CardDef)
    ensures
        is_rogue_evasion_def(r),
{
    let mut d = rogue("rogue_evasion", "Evasion", 1, vec![
        Effect::GainBlock { amount: 10 },
        Effect::ApplyStatus { target: Target::Player, status: StatusType::Artifice, stacks: 3 },
    ], "Gain 10 block. Gain 3 Artifice.");
    d.tags = vec![CardTag::Defense];
    d
}

/// The Preparation card.
pub open spec fn is_preparation_def(d: CardDef) -> bool {
    card_fields(d, "preparation"@, "Preparation"@, Rarity::Common, 0, CardType::Spell, seq![ Effect::ApplyStatus { target: Target::Player, status: StatusType::Artifice, stacks: 5 }, Effect::DrawCards { count: 1 }], "Gain 5 Artifice. Draw 1 card. Exhaust."@, Some(Class::Rogue), None, seq![CardTag::Skill], true, false, false, false, false, false)
}

fn preparation_def() -> (r: CardDef)
    ensures
        is_preparation_def(r),
{
    let mut d = rogue("preparation", "Preparation", 0, vec![
        Effect::ApplyStatus { target: Target::Player, status: StatusType::Artifice, stacks: 5 },
        Effect::DrawCards { count: 1 },
    ], "Gain 5 Artifice. Draw 1 card. Exhaust.");
    d.exhaust = true;
    d.tags = vec![CardTag::Skill];
    d
}

/// The Assassinate card.
pub open spec fn is_assassinate_def(d: CardDef) -> bool {
    card_fields(d, "assassinate"@, "Assassinate"@, Rarity::Common, 1, CardType::Spell, seq![ Effect::DealDamageSpendArtifice { target: Target::SingleEnemy, base: 12, artifice_cost: 10, bonus: 18 }], "Deal 12 damage. Spend 10 Artifice: deal 18 instead."@, Some(Class::Rogue), Some("assassin"@), seq![CardTag::Attack], false, false, false, false, false, false)
}

fn assassinate_def() -> (r: CardDef)
    ensures
        is_assassinate_def(r),
{
    let mut d = rogue_sc("assassinate", "Assassinate", "assassin", 1, vec![
        Effect::DealDamageSpendArtifice { target: Target::SingleEnemy, base: 12, artifice_cost: 10, bonus: 18 },
    ], "Deal 12 damage. Spend 10 Artifice: deal 18 instead.");
    d.tags = vec![CardTag::Attack];
    d
}

/// The Shadow Step card.
pub open spec fn is_rogue_shadow_step_def(d: CardDef) -> bool {
    card_fields(d, "rogue_shadow_step"@, "Shadow Step"@, Rarity::Common, 0, CardType::Spell, seq![ Effect::DrawCards { count: 1 }, Effect::ApplyStatus { target: Target::Player, status: StatusType::Artifice, stacks: 2 }, Effect::ApplyStatus { target: Target::Player, status: StatusType::Empowered, stacks: 1 }], "Draw 1 card. Gain 2 Artifice. Gain 1 Empowered. Exhaust."@, Some(Class::Rogue), Some("assassin"@), seq![CardTag::Skill], true, false, false, false, false, false)
}

fn rogue_shadow_step_def() -> (r: CardDef)
    ensures
        is_rogue_shadow_step_def(r),
{
    let mut d = rogue_sc("rogue_shadow_step", "Shadow Step", "assassin", 0, vec![
        Effect::DrawCards { count: 1 },
        Effect::ApplyStatus { target: Target::Player, status: StatusType::Artifice, stacks: 2 },
        Effect::ApplyStatus { target: Target::Player, status: StatusType::Empowered, stacks: 1 },
    ], "Draw 1 card. Gain 2 Artifice. Gain 1 Empowered. Exhaust.");
    d.exhaust = true;
    d.tags = vec![CardTag::Skill];
    d
}

/// The Death Mark card.
pub open spec fn is_death_mark_def(d: CardDef) -> bool {
    card_fields(d, "death_mark"@, "Death Mark"@, Rarity::Common, 1, CardType::Spell, seq![ Effect::ApplyStatus { target: Target::SingleEnemy, status: StatusType::Marked, stacks: 2 }, Effect::ApplyStatus { target: Target::SingleEnemy, status: StatusType::Threatened, stacks: 2 }, Effect::ApplyStatus { target: Target::Player, status: StatusType::Artifice, stacks: 5 }], "Apply 2 Marked and 2 Threatened. Gain 5 Artifice."@, Some(Class::Rogue), Some("assassin"@), seq![CardTag::Skill], false, false, false, false, false, false)
}

fn death_mark_def() -> (r: CardDef)
    ensures
        is_death_mark_def(r),
{
    let mut d = rogue_sc("death_mark", "Death Mark", "assassin", 1, vec![
        Effect::ApplyStatus { target: Target::SingleEnemy, status: StatusType::Marked, stacks: 2 },
        Effect::ApplyStatus { target: Target::SingleEnemy, status: StatusType::Threatened, stacks: 2 },
        Effect::ApplyStatus { target: Target::Player, status: StatusType::Artifice, stacks: 5 },
    ], "Apply 2 Marked and 2 Threatened. Gain 5 Artifice.");
    d.tags = vec![CardTag::Skill];
    d
}

/// The Killing Blow card.
pub open spec fn is_killing_blow_def(d: CardDef) -> bool {
    card_fields(d, "killing_blow"@, "Killing Blow"@, Rarity::Uncommon, 2, CardType::Spell, seq![ Effect::DealDamageSpendArtifice { target: Target::SingleEnemy, base: 20, artifice_cost: 10, bonus: 30 }], "Deal 20 damage. Spend 10 Artifice: deal 30 instead. Exhaust."@, Some(Class::Rogue), Some("assassin"@), seq![CardTag::Attack], true, false, false, false, false, false)
}

fn killing_blow_def() -> (r: CardDef)
    ensures
        is_killing_blow_def(r),
{
    let mut d = rogue_sc("killing_blow", "Killing Blow", "assassin", 2, vec![
        Effect::DealDamageSpendArtifice { target: Target::SingleEnemy, base: 20, artifice_cost: 10, bonus: 30 },
    ], "Deal 20 damage. Spend 10 Artifice: deal 30 instead. Exhaust.");
    d.exhaust = true;
    d.tags = vec![CardTag::Attack];
    d.rarity = Rarity::Uncommon;
    d
}

/// The Cutlass Flurry card.
pub open spec fn is_cutlass_flurry_def(d: CardDef) -> bool {
    card_fields(d, "cutlass_flurry"@, "Cutlass Flurry"@, Rarity::Common, 1, CardType::Spell, seq![ Effect::DealDamage { target: Target::SingleEnemy, amount: 5 }, Effect::DealDamage { target: Target::SingleEnemy, amount: 5 }, Effect::ApplyStatus { target: Target::Player, status: StatusType::Artifice, stacks: 4 }], "Deal 5 damage twice. Gain 4 Artifice."@, Some(Class::Rogue), Some("pirate"@), seq![CardTag::Attack], false, false, false, false, false, false)
}

fn cutlass_flurry_def() -> (r: CardDef)
    ensures
        is_cutlass_flurry_def(r),
{
    let mut d = rogue_sc("cutlass_flurry", "Cutlass Flurry", "pirate", 1, vec![
        Effect::DealDamage { target: Target::SingleEnemy, amount: 5 },
        Effect::DealDamage { target: Target::SingleEnemy, amount: 5 },
        Effect::ApplyStatus { target: Target::Player, status: StatusType::Artifice, stacks: 4 },
    ], "Deal 5 damage twice. Gain 4 Artifice.");
    d.tags = vec![CardTag::Attack];
    d
}

/// The Grappling Hook card.
pub open spec fn is_grappling_hook_def(d: CardDef) -> bool {
    card_fields(d, "grappling_hook"@, "Grappling Hook"@, Rarity::Common, 0, CardType::Spell, seq![ Effect::DrawAndDiscard { draw: 2, discard: 1 }, Effect::ApplyStatus { target: Target::Player, status: StatusType::Artifice, stacks: 3 }], "Draw 2, discard 1. Gain 3 Artifice."@, Some(Class::Rogue), Some("pirate"@), seq![CardTag::Skill], false, false, false, false, false, false)
}

fn grappling_hook_def() -> (r: CardDef)
    ensures
        is_grappling_hook_def(r),
{
    let mut d = rogue_sc("grappling_hook", "Grappling Hook", "pirate", 0, vec![
        Effect::DrawAndDiscard { draw: 2, discard: 1 },
        Effect::ApplyStatus { target: Target::Player, status: StatusType::Artifice, stacks: 3 },
    ], "Draw 2, discard 1. Gain 3 Artifice.");
    d.tags = vec![CardTag::Skill];
    d
}

/// The Dirty Fighting card.
pub open spec fn is_dirty_fighting_def(d: CardDef) -> bool {
    card_fields(d, "dirty_fighting"@, "Dirty Fighting"@, Rarity::Common, 1, CardType::Spell, seq![ Effect::DealDamage { target: Target::SingleEnemy, amount: 8 }, Effect::ApplyStatus { target: Target::SingleEnemy, status: StatusType::Weakened, stacks: 1 }, Effect::ApplyStatus { target: Target::Player, status: StatusType::Artifice, stacks: 3 }], "Deal 8 damage. Apply 1 Weakened. Gain 3 Artifice."@, Some(Class::Rogue), Some("pirate"@), seq![CardTag::Attack], false, false, false, false, false, false)
}

fn dirty_fighting_def() -> (r: CardDef)
    ensures
        is_dirty_fighting_def(r),
{
    let mut d = rogue_sc("dirty_fighting", "Dirty Fighting", "pirate", 1, vec![
        Effect::DealDamage { target: Target::SingleEnemy, amount: 8 },
        Effect::ApplyStatus { target: Target::SingleEnemy, status: StatusType::Weakened, stacks: 1 },
        Effect::ApplyStatus { target: Target::Player, status: StatusType::Artifice, stacks: 3 },
    ], "Deal 8 damage. Apply 1 Weakened. Gain 3 Artifice.");
    d.tags = vec![CardTag::Attack];
    d
}

/// The Broadside card.
pub open spec fn is_broadside_def(d: CardDef) -> bool {
    card_fields(d, "broadside"@, "Broadside"@, Rarity::Uncommon, 2, CardType::Spell, seq![ Effect::DealDamage { target: Target::AllEnemies, amount: 12 }, Effect::ApplyStatus { target: Target::Player, status: StatusType::Artifice, stacks: 4 }], "Deal 12 damage to ALL enemies. Gain 4 Artifice. Exhaust."@, Some(Class::Rogue), Some("pirate"@), seq![CardTag::Attack], true, false, false, false, false, false)
}

fn broadside_def() -> (r: CardDef)
    ensures
        is_broadside_def(r),
{
    let mut d = rogue_sc("broadside", "Broadside", "pirate", 2, vec![
        Effect::DealDamage { target: Target::AllEnemies, amount: 12 },
        Effect::ApplyStatus { target: Target::Player, status: StatusType::Artifice, stacks: 4 },
    ], "Deal 12 damage to ALL enemies. Gain 4 Artifice. Exhaust.");
    d.exhaust = true;
    d.tags = vec![CardTag::Attack];
    d.rarity = Rarity::Uncommon;
    d
}

/// The Smoke Bomb card.
pub open spec fn is_smoke_bomb_def(d: CardDef) -> bool {
    card_fields(d, "smoke_bomb"@, "Smoke Bomb"@, Rarity::Common, 1, CardType::Spell, seq![ Effect::GainBlock { amount: 8 }, Effect::ApplyStatus { target: Target::AllEnemies, status: StatusType::Weakened, stacks: 1 }, Effect::ApplyStatus { target: Target::Player, status: StatusType::Artifice, stacks: 5 }], "Gain 8 block. Apply 1 Weakened to ALL enemies. Gain 5 Artifice."@, Some(Class::Rogue), Some("trickster"@), seq![CardTag::Defense], false, false, false, false, false, false)
}

fn smoke_bomb_def() -> (r: CardDef)
    ensures
        is_smoke_bomb_def(r),
{
    let mut d = rogue_sc("smoke_bomb", "Smoke Bomb", "trickster", 1, vec![
        Effect::GainBlock { amount: 8 },
        Effect::ApplyStatus { target: Target::AllEnemies, status: StatusType::Weakened, stacks: 1 },
        Effect::ApplyStatus { target: Target::Player, status: StatusType::Artifice, stacks: 5 },
    ], "Gain 8 block. Apply 1 Weakened to ALL enemies. Gain 5 Artifice.");
    d.tags = vec![CardTag::Defense];
    d
}

/// The Misdirection card.
pub open spec fn is_misdirection_def(d: CardDef) -> bool {
    card_fields(d, "misdirection"@, "Misdirection"@, Rarity::Common, 0, CardType::Spell, seq![ Effect::GainBlock { amount: 8 }, Effect::DrawCards { count: 1 }], "Gain 8 block. Draw 1 card. Exhaust."@, Some(Class::Rogue), Some("trickster"@), seq![CardTag::Defense], true, false, false, false, false, false)
}

fn misdirection_def() -> (r: CardDef)
    ensures
        is_misdirection_def(r),
{
    let mut d = rogue_sc("misdirection", "Misdirection", "trickster", 0, vec![
        Effect::GainBlock { amount: 8 },
        Effect::DrawCards { count: 1 },
    ], "Gain 8 block. Draw 1 card. Exhaust.");
    d.exhaust = true;
    d.tags = vec![CardTag::Defense];
    d
}

/// The Fan of Knives card.
pub open spec fn is_fan_of_knives_def(d: CardDef) -> bool {
    card_fields(d, "fan_of_knives"@, "Fan of Knives"@, Rarity::Common, 1, CardType::Spell, seq![ Effect::DealDamage { target: Target::AllEnemies, amount: 6 }, Effect::ApplyStatus { target: Target::Player, status: StatusType::Artifice, stacks: 4 }], "Deal 6 damage to ALL enemies. Gain 4 Artifice."@, Some(Class::Rogue), Some("trickster"@), seq![CardTag::Attack], false, false, false, false, false, false)
}

fn fan_of_knives_def() -> (r: CardDef)
    ensures
        is_fan_of_knives_def(r),
{
    let mut d = rogue_sc("fan_of_knives", "Fan of Knives", "trickster", 1, vec![
        Effect::DealDamage { target: Target::AllEnemies, amount: 6 },
        Effect::ApplyStatus { target: Target::Player, status: StatusType::Artifice, stacks: 4 },
    ], "Deal 6 damage to ALL enemies. Gain 4 Artifice.");
    d.tags = vec![CardTag::Attack];
    d
}

/// The Ace in the Hole card.
pub open spec fn is_ace_in_the_hole_def(d: CardDef) -> bool {
    card_fields(d, "ace_in_the_hole"@, "Ace in the Hole"@, Rarity::Uncommon, 1, CardType::Spell, seq![ Effect::DealDamageSpendArtifice { target: Target::SingleEnemy, base: 15, artifice_cost: 10, bonus: 22 }, Effect::DrawCards { count: 2 }], "Deal 15 damage. Draw 2 cards. Spend 10 Artifice: deal 22 instead. Exhaust."@, Some(Class::Rogue), Some("trickster"@), seq![CardTag::Attack], true, false, false, false, false, false)
}

fn ace_in_the_hole_def() -> (r: CardDef)
    ensures
        is_ace_in_the_hole_def(r),
{
    let mut d = rogue_sc("ace_in_the_hole", "Ace in the Hole", "trickster", 1, vec![
        Effect::DealDamageSpendArtifice { target: Target::SingleEnemy, base: 15, artifice_cost: 10, bonus: 22 },
        Effect::DrawCards { count: 2 },
    ], "Deal 15 damage. Draw 2 cards. Spend 10 Artifice: deal 22 instead. Exhaust.");
    d.exhaust = true;
    d.tags = vec![CardTag::Attack];
    d.rarity = Rarity::Uncommon;
    d
}

/// The Wild Shape: Bear card.
pub open spec fn is_wild_shape_bear_def(d: CardDef) -> bool {
    card_fields(d, "wild_shape_bear"@, "Wild Shape: Bear"@, Rarity::Common, 0, CardType::Spell, seq![ Effect::EnterWildShape { form: StatusType::WildShapeBear }], "Enter Bear form. Exhaust."@, Some(Class::Druid), Some("bear"@), seq![CardTag::Skill], true, false, false, false, false, false)
}

fn wild_shape_bear_def() -> (r: CardDef)
    ensures
        is_wild_shape_bear_def(r),
{
    let mut d = druid_sc("wild_shape_bear", "Wild Shape: Bear", "bear", 0, vec![
        Effect::EnterWildShape { form: StatusType::WildShapeBear },
    ], "Enter Bear form. Exhaust.");
    d.exhaust = true;
    d.tags = vec![CardTag::Skill];
    d
}

/// The Wild Shape: Eagle card.
pub open spec fn is_wild_shape_eagle_def(d: CardDef) -> bool {
    card_fields(d, "wild_shape_eagle"@, "Wild Shape: Eagle"@, Rarity::Common, 0, CardType::Spell, seq![ Effect::EnterWildShape { form: StatusType::WildShapeEagle }], "Enter Eagle form. Exhaust."@, Some(Class::Druid), Some("eagle"@), seq![CardTag::Skill], true, false, false, false, false, false)
}

fn wild_shape_eagle_def() -> (r: CardDef)
    ensures
        is_wild_shape_eagle_def(r),
{
    let mut d = druid_sc("wild_shape_eagle", "Wild Shape: Eagle", "eagle", 0, vec![
        Effect::EnterWildShape { form: StatusType::WildShapeEagle },
    ], "Enter Eagle form. Exhaust.");
    d.exhaust = true;
    d.tags = vec![CardTag::Skill];
    d
}

/// The Wild Shape: Wolf card.
pub open spec fn is_wild_shape_wolf_def(d: CardDef) -> bool {
    card_fields(d, "wild_shape_wolf"@, "Wild Shape: Wolf"@, Rarity::Common, 0, CardType::Spell, seq![ Effect::EnterWildShape { form: StatusType::WildShapeWolf }], "Enter Wolf form. Exhaust."@, Some(Class::Druid), Some("wolf"@), seq![CardTag::Skill], true, false, false, false, false, false)
}

fn wild_shape_wolf_def() -> (r: CardDef)
    ensures
        is_wild_shape_wolf_def(r),
{
    let mut d = druid_sc("wild_shape_wolf", "Wild Shape: Wolf", "wolf", 0, vec![
        Effect::EnterWildShape { form: StatusType::WildShapeWolf },
    ], "Enter Wolf form. Exhaust.");
    d.exhaust = true;
    d.tags = vec![CardTag::Skill];
    d
}

/// The Nature's Wrath card.
pub open spec fn is_natures_wrath_def(d: CardDef) -> bool {
    card_fields(d, "natures_wrath"@, "Nature's Wrath"@, Rarity::Common, 1, CardType::Spell, seq![ Effect::DealDamageIfInWildShape { target: Target::SingleEnemy, base: 10, bonus: 5 }], "Deal 10 damage. In Wild Shape: deal 15."@, Some(Class::Druid), None, seq![CardTag::Attack], false, false, false, false, false, false)
}

fn natures_wrath_def() -> (r: CardDef)
    ensures
        is_natures_wrath_def(r),
{
    let mut d = druid("natures_wrath", "Nature's Wrath", 1, vec![
        Effect::DealDamageIfInWildShape { target: Target::SingleEnemy, base: 10, bonus: 5 },
    ], "Deal 10 damage. In Wild Shape: deal 15.");
    d.tags = vec![CardTag::Attack];
    d
}

/// The Bark Skin card.
pub open spec fn is_bark_skin_def(d: CardDef) -> bool {
    card_fields(d, "bark_skin"@, "Bark Skin"@, Rarity::Common, 1, CardType::Spell, seq![ Effect::GainBlock { amount: 10 }, Effect::ApplyStatus { target: Target::Player, status: StatusType::Armored, stacks: 3 }], "Gain 10 block. Gain 3 Armored."@, Some(Class::Druid), None, seq![CardTag::Defense], false, false, false, false, false, false)
}

fn bark_skin_def() -> (r: CardDef)
    ensures
        is_bark_skin_def(r),
{
    let mut d = druid("bark_skin", "Bark Skin", 1, vec![
        Effect::GainBlock { amount: 10 },
        Effect::ApplyStatus { target: Target::Player, status: StatusType::Armored, stacks: 3 },
    ], "Gain 10 block. Gain 3 Armored.");
    d.tags = vec![CardTag::Defense];
    d
}

/// The Rejuvenation card.
pub open spec fn is_rejuvenation_def(d: CardDef) -> bool {
    card_fields(d, "rejuvenation"@, "Rejuvenation"@, Rarity::Common, 1, CardType::Spell, seq![ Effect::Heal { amount: 8 }, Effect::DrawCards { count: 1 }], "Heal 8 HP. Draw 1 card. Exhaust."@, Some(Class::Druid), None, seq![CardTag::Skill], true, false, false, false, false, false)
}

fn rejuvenation_def() -> (r: CardDef)
    ensures
        is_rejuvenation_def(r),
{
    let mut d = druid("rejuvenation", "Rejuvenation", 1, vec![
        Effect::Heal { amount: 8 },
        Effect::DrawCards { count: 1 },
    ], "Heal 8 HP. Draw 1 card. Exhaust.");
    d.exhaust = true;
    d.tags = vec![CardTag::Skill];
    d
}

/// The Bear Maul card.
pub open spec fn is_bear_maul_def(d: CardDef) -> bool {
    card_fields(d, "bear_maul"@, "Bear Maul"@, Rarity::Common, 1, CardType::Spell, seq![ Effect::DealDamage { target: Target::SingleEnemy, amount: 12 }, Effect::GainBlockWithFormBonus { base: 0, status: StatusType::WildShapeBear, bonus: 6 }], "Deal 12 damage. In Bear form: gain 6 block."@, Some(Class::Druid), Some("bear"@), seq![CardTag::Attack], false, false, false, false, false, false)
}

fn bear_maul_def() -> (r: CardDef)
    ensures
        is_bear_maul_def(r),
{
    let mut d = druid_sc("bear_maul", "Bear Maul", "bear", 1, vec![
        Effect::DealDamage { target: Target::SingleEnemy, amount: 12 },
        Effect::GainBlockWithFormBonus { base: 0, status: StatusType::WildShapeBear, bonus: 6 },
    ], "Deal 12 damage. In Bear form: gain 6 block.");
    d.tags = vec![CardTag::Attack];
    d
}

/// The Thick Hide card.
pub open spec fn is_thick_hide_def(d: CardDef) -> bool {
    card_fields(d, "thick_hide"@, "Thick Hide"@, Rarity::Common, 0, CardType::Spell, seq![ Effect::GainBlock { amount: 8 }, Effect::ApplyStatus { target: Target::Player, status: StatusType::Armored, stacks: 2 }], "Gain 8 block. Gain 2 Armored. Exhaust."@, Some(Class::Druid), Some("bear"@), seq![CardTag::Defense], true, false, false, false, false, false)
}

fn thick_hide_def() -> (r: CardDef)
    ensures
        is_thick_hide_def(r),
{
    let mut d = druid_sc("thick_hide", "Thick Hide", "bear", 0, vec![
        Effect::GainBlock { amount: 8 },
        Effect::ApplyStatus { target: Target::Player, status: StatusType::Armored, stacks: 2 },
    ], "Gain 8 block. Gain 2 Armored. Exhaust.");
    d.exhaust = true;
    d.tags = vec![CardTag::Defense];
    d
}

/// The Ursine Charge card.
pub open spec fn is_ursine_charge_def(d: CardDef) -> bool {
    card_fields(d, "ursine_charge"@, "Ursine Charge"@, Rarity::Common, 2, CardType::Spell, seq![ Effect::DealDamage { target: Target::SingleEnemy, amount: 18 }, Effect::ApplyStatus { target: Target::SingleEnemy, status: StatusType::Threatened, stacks: 1 }], "Deal 18 damage. Apply 1 Threatened. Exhaust."@, Some(Class::Druid), Some("bear"@), seq![CardTag::Attack], true, false, false, false, false, false)
}

fn ursine_charge_def() -> (r: CardDef)
    ensures
        is_ursine_charge_def(r),
{
    let mut d = druid_sc("ursine_charge", "Ursine Charge", "bear", 2, vec![
        Effect::DealDamage { target: Target::SingleEnemy, amount: 18 },
        Effect::ApplyStatus { target: Target::SingleEnemy, status: StatusType::Threatened, stacks: 1 },
    ], "Deal 18 damage. Apply 1 Threatened. Exhaust.");
    d.exhaust = true;
    d.tags = vec![CardTag::Attack];
    d
}

/// The Primal Roar card.
pub open spec fn is_primal_roar_def(d: CardDef) -> bool {
    card_fields(d, "primal_roar"@, "Primal Roar"@, Rarity::Common, 1, CardType::Spell, seq![ Effect::ApplyStatus { target: Target::AllEnemies, status: StatusType::Threatened, stacks: 1 }, Effect::GainBlock { amount: 8 }], "Apply 1 Threatened to ALL enemies. Gain 8 block."@, Some(Class::Druid), Some("bear"@), seq![CardTag::Defense], false, false, false, false, false, false)
}

fn primal_roar_def() -> (r: CardDef)
    ensures
        is_primal_roar_def(r),
{
    let mut d = druid_sc("primal_roar", "Primal Roar", "bear", 1, vec![
        Effect::ApplyStatus { target: Target::AllEnemies, status: StatusType::Threatened, stacks: 1 },
        Effect::GainBlock { amount: 8 },
    ], "Apply 1 Threatened to ALL enemies. Gain 8 block.");
    d.tags = vec![CardTag::Defense];
    d
}

/// The Eagle Dive card.
pub open spec fn is_eagle_dive_def(d: CardDef) -> bool {
    card_fields(d, "eagle_dive"@, "Eagle Dive"@, Rarity::Common, 1, CardType::Spell, seq![ Effect::DealDamage { target: Target::SingleEnemy, amount: 10 }, Effect::DrawCardsWithFormBonus { base_draw: 1, status: StatusType::WildShapeEagle, bonus_draw: 1 }], "Deal 10 damage. Draw 1. In Eagle form: draw 2."@, Some(Class::Druid), Some("eagle"@), seq![CardTag::Attack], false, false, false, false, false, false)
}

fn eagle_dive_def() -> (r: CardDef)
    ensures
        is_eagle_dive_def(r),
{
    let mut d = druid_sc("eagle_dive", "Eagle Dive", "eagle", 1, vec![
        Effect::DealDamage { target: Target::SingleEnemy, amount: 10 },
        Effect::DrawCardsWithFormBonus { base_draw: 1, status: StatusType::WildShapeEagle, bonus_draw: 1 },
    ], "Deal 10 damage. Draw 1. In Eagle form: draw 2.");
    d.tags = vec![CardTag::Attack];
    d
}

/// The Swooping Strike card.
pub open spec fn is_swooping_strike_def(d: CardDef) -> bool {
    card_fields(d, "swooping_strike"@, "Swooping Strike"@, Rarity::Common, 0, CardType::Spell, seq![ Effect::DealDamageWithFormBonus { target: Target::SingleEnemy, base: 6, status: StatusType::WildShapeEagle, bonus: 3 }], "Deal 6 damage. In Eagle form: deal 9."@, Some(Class::Druid), Some("eagle"@), seq![CardTag::Attack], false, false, false, false, false, false)
}

fn swooping_strike_def() -> (r: CardDef)
    ensures
        is_swooping_strike_def(r),
{
    let mut d = druid_sc("swooping_strike", "Swooping Strike", "eagle", 0, vec![
        Effect::DealDamageWithFormBonus { target: Target::SingleEnemy, base: 6, status: StatusType::WildShapeEagle, bonus: 3 },
    ], "Deal 6 damage. In Eagle form: deal 9.");
    d.tags = vec![CardTag::Attack];
    d
}

/// The Wind Rider card.
pub open spec fn is_wind_rider_def(d: CardDef) -> bool {
    card_fields(d, "wind_rider"@, "Wind Rider"@, Rarity::Common, 1, CardType::Spell, seq![ Effect::DrawAndDiscard { draw: 3, discard: 1 }, Effect::GainBlock { amount: 5 }], "Draw 3. Discard 1. Gain 5 block."@, Some(Class::Druid), Some("eagle"@), seq![CardTag::Skill], false, false, false, false, false, false)
}

fn wind_rider_def() -> (r: CardDef)
    ensures
        is_wind_rider_def(r),
{
    let mut d = druid_sc("wind_rider", "Wind Rider", "eagle", 1, vec![
        Effect::DrawAndDiscard { draw: 3, discard: 1 },
        Effect::GainBlock { amount: 5 },
    ], "Draw 3. Discard 1. Gain 5 block.");
    d.tags = vec![CardTag::Skill];
    d
}

/// The Tempest Talons card.
pub open spec fn is_tempest_talons_def(d: CardDef) -> bool {
    card_fields(d, "tempest_talons"@, "Tempest Talons"@, Rarity::Common, 2, CardType::Spell, seq![ Effect::DealDamage { target: Target::SingleEnemy, amount: 8 }, Effect::DealDamage { target: Target::SingleEnemy, amount: 8 }, Effect::DealDamageIfPlayerHasStatus { target: Target::SingleEnemy, status: StatusType::WildShapeEagle, amount: 8 }], "Deal 8 damage x2. In Eagle form: 8 x3. Exhaust."@, Some(Class::Druid), Some("eagle"@), seq![CardTag::Attack], true, false, false, false, false, false)
}

fn tempest_talons_def() -> (r: CardDef)
    ensures
        is_tempest_talons_def(r),
{
    let mut d = druid_sc("tempest_talons", "Tempest Talons", "eagle", 2, vec![
        Effect::DealDamage { target: Target::SingleEnemy, amount: 8 },
        Effect::DealDamage { target: Target::SingleEnemy, amount: 8 },
        Effect::DealDamageIfPlayerHasStatus { target: Target::SingleEnemy, status: StatusType::WildShapeEagle, amount: 8 },
    ], "Deal 8 damage x2. In Eagle form: 8 x3. Exhaust.");
    d.exhaust = true;
    d.tags = vec![CardTag::Attack];
    d
}

/// The Pack Tactics card.
pub open spec fn is_pack_tactics_def(d: CardDef) -> bool {
    card_fields(d, "pack_tactics"@, "Pack Tactics"@, Rarity::Common, 1, CardType::Spell, seq![ Effect::DealDamage { target: Target::AllEnemies, amount: 8 }, Effect::ApplyStatus { target: Target::AllEnemies, status: StatusType::Weakened, stacks: 1 }], "Deal 8 damage to ALL. Apply 1 Weakened to ALL."@, Some(Class::Druid), Some("wolf"@), seq![CardTag::Attack], false, false, false, false, false, false)
}

fn pack_tactics_def() -> (r: CardDef)
    ensures
        is_pack_tactics_def(r),
{
    let mut d = druid_sc("pack_tactics", "Pack Tactics", "wolf", 1, vec![
        Effect::DealDamage { target: Target::AllEnemies, amount: 8 },
        Effect::ApplyStatus { target: Target::AllEnemies, status: StatusType::Weakened, stacks: 1 },
    ], "Deal 8 damage to ALL. Apply 1 Weakened to ALL.");
    d.tags = vec![CardTag::Attack];
    d
}

/// The Howl card.
pub open spec fn is_howl_def(d: CardDef) -> bool {
    card_fields(d, "howl"@, "Howl"@, Rarity::Common, 0, CardType::Spell, seq![ Effect::ApplyStatus { target: Target::AllEnemies, status: StatusType::Threatened, stacks: 1 }, Effect::DrawCards { count: 1 }], "Apply 1 Threatened to ALL. Draw 1. Exhaust."@, Some(Class::Druid), Some("wolf"@), seq![CardTag::Skill], true, false, false, false, false, false)
}

fn howl_def() -> (r: CardDef)
    ensures
        is_howl_def(r),
{
    let mut d = druid_sc("howl", "Howl", "wolf", 0, vec![
        Effect::ApplyStatus { target: Target::AllEnemies, status: StatusType::Threatened, stacks: 1 },
        Effect::DrawCards { count: 1 },
    ], "Apply 1 Threatened to ALL. Draw 1. Exhaust.");
    d.exhaust = true;
    d.tags = vec![CardTag::Skill];
    d
}

/// The Coordinated Strike card.
pub open spec fn is_coordinated_strike_def(d: CardDef) -> bool {
    card_fields(d, "coordinated_strike"@, "Coordinated Strike"@, Rarity::Common, 1, CardType::Spell, seq![ Effect::DealDamageIfTargetDebuffed { target: Target::SingleEnemy, amount: 10, bonus: 5 }], "Deal 10 damage. If enemy has debuff: deal 15."@, Some(Class::Druid), Some("wolf"@), seq![CardTag::Attack], false, false, false, false, false, false)
}

fn coordinated_strike_def() -> (r: CardDef)
    ensures
        is_coordinated_strike_def(r),
{
    let mut d = druid_sc("coordinated_strike", "Coordinated Strike", "wolf", 1, vec![
        Effect::DealDamageIfTargetDebuffed { target: Target::SingleEnemy, amount: 10, bonus: 5 },
    ], "Deal 10 damage. If enemy has debuff: deal 15.");
    d.tags = vec![CardTag::Attack];
    d
}

/// The Alpha's Command card.
pub open spec fn is_alphas_command_def(d: CardDef) -> bool {
    card_fields(d, "alphas_command"@, "Alpha's Command"@, Rarity::Common, 2, CardType::Spell, seq![ Effect::DealDamage { target: Target::AllEnemies, amount: 12 }, Effect::ApplyStatus { target: Target::AllEnemies, status: StatusType::Weakened, stacks: 1 }, Effect::ApplyStatus { target: Target::AllEnemies, status: StatusType::Threatened, stacks: 1 }], "Deal 12 damage to ALL. Weakened ALL. Threatened ALL. Exhaust."@, Some(Class::Druid), Some("wolf"@), seq![CardTag::Attack], true, false, false, false, false, false)
}

fn alphas_command_def() -> (r: CardDef)
    ensures
        is_alphas_command_def(r),
{
    let mut d = druid_sc("alphas_command", "Alpha's Command", "wolf", 2, vec![
        Effect::DealDamage { target: Target::AllEnemies, amount: 12 },
        Effect::ApplyStatus { target: Target::AllEnemies, status: StatusType::Weakened, stacks: 1 },
        Effect::ApplyStatus { target: Target::AllEnemies, status: StatusType::Threatened, stacks: 1 },
    ], "Deal 12 damage to ALL. Weakened ALL. Threatened ALL. Exhaust.");
    d.exhaust = true;
    d.tags = vec![CardTag::Attack];
    d
}

/// The Moonbeam card.
pub open spec fn is_moonbeam_def(d: CardDef) -> bool {
    card_fields(d, "moonbeam"@, "Moonbeam"@, Rarity::Common, 1, CardType::Spell, seq![ Effect::DealDamage { target: Target::AllEnemies, amount: 8 }, Effect::ApplyStatus { target: Target::AllEnemies, status: StatusType::Weakened, stacks: 1 }], "Deal 8 damage to ALL. Apply 1 Weakened ALL. Concentration."@, Some(Class::Druid), None, seq![CardTag::Attack], false, false, true, false, false, false)
}

fn moonbeam_def() -> (r: CardDef)
    ensures
        is_moonbeam_def(r),
{
    let mut d = druid("moonbeam", "Moonbeam", 1, vec![
        Effect::DealDamage { target: Target::AllEnemies, amount: 8 },
        Effect::ApplyStatus { target: Target::AllEnemies, status: StatusType::Weakened, stacks: 1 },
    ], "Deal 8 damage to ALL. Apply 1 Weakened ALL. Concentration.");
    d.concentration = true;
    d.tags = vec![CardTag::Attack];
    d
}

/// The Entangle card.
pub open spec fn is_entangle_def(d: CardDef) -> bool {
    card_fields(d, "entangle"@, "Entangle"@, Rarity::Common, 1, CardType::Spell, seq![ Effect::ApplyStatus { target: Target::AllEnemies, status: StatusType::Weakened, stacks: 2 }, Effect::ApplyStatus { target: Target::AllEnemies, status: StatusType::Threatened, stacks: 1 }], "Apply 2 Weakened + 1 Threatened to ALL. Concentration."@, Some(Class::Druid), None, seq![CardTag::Skill], false, false, true, false, false, false)
}

fn entangle_def() -> (r: CardDef)
    ensures
        is_entangle_def(r),
{
    let mut d = druid("entangle", "Entangle", 1, vec![
        Effect::ApplyStatus { target: Target::AllEnemies, status: StatusType::Weakened, stacks: 2 },
        Effect::ApplyStatus { target: Target::AllEnemies, status: StatusType::Threatened, stacks: 1 },
    ], "Apply 2 Weakened + 1 Threatened to ALL. Concentration.");
    d.concentration = true;
    d.tags = vec![CardTag::Skill];
    d
}

/// The Archdruid card.
pub open spec fn is_archdruid_def(d: CardDef) -> bool {
    card_fields(d, "archdruid"@, "Archdruid"@, Rarity::Common, 0, CardType::Spell, seq![ Effect::EnterWildShape { form: StatusType::WildShapeBear }, Effect::GainBlock { amount: 15 }, Effect::Heal { amount: 8 }], "Enter Bear form. Gain 15 block. Heal 8 HP. Innate. Exhaust."@, Some(Class::Druid), None, seq![CardTag::Skill], true, false, false, true, false, false)
}

fn archdruid_def() -> (r: CardDef)
    ensures
        is_archdruid_def(r),
{
    let mut d = druid("archdruid", "Archdruid", 0, vec![
        Effect::EnterWildShape { form: StatusType::WildShapeBear },
        Effect::GainBlock { amount: 15 },
        Effect::Heal { amount: 8 },
    ], "Enter Bear form. Gain 15 block. Heal 8 HP. Innate. Exhaust.");
    d.innate = true;
    d.exhaust = true;
    d.tags = vec![CardTag::Skill];
    d
}

/// The Spark Bolt card.
pub open spec fn is_spark_bolt_def(d: CardDef) -> bool {
    card_fields(d, "spark_bolt"@, "Spark Bolt"@, Rarity::Common, 1, CardType::Spell, seq![ Effect::DealDamage { target: Target::SingleEnemy, amount: 8 }, Effect::ApplyStatus { target: Target::Player, status: StatusType::ArcaneCharge, stacks: 1 }], "Deal 8 damage. Gain 1 Sorcery Point."@, Some(Class::Sorcerer), Some("wild_mage"@), seq![CardTag::Attack], false, false, false, false, false, false)
}

fn spark_bolt_def() -> (r: CardDef)
    ensures
        is_spark_bolt_def(r),
{
    let mut d = sorcerer_sc("spark_bolt", "Spark Bolt", "wild_mage", 1, vec![
        Effect::DealDamage { target: Target::SingleEnemy, amount: 8 },
        Effect::ApplyStatus { target: Target::Player, status: StatusType::ArcaneCharge, stacks: 1 },
    ], "Deal 8 damage. Gain 1 Sorcery Point.");
    d.tags = vec![CardTag::Attack];
    d
}

/// The Channel card.
pub open spec fn is_channel_def(d: CardDef) -> bool {
    card_fields(d, "channel"@, "Channel"@, Rarity::Common, 0, CardType::Spell, seq![ Effect::ApplyStatus { target: Target::Player, status: StatusType::ArcaneCharge, stacks: 2 }], "Gain 2 Sorcery Points. Exhaust."@, Some(Class::Sorcerer), Some("wild_mage"@), seq![CardTag::Skill], true, false, false, false, false, false)
}

fn channel_def() -> (r: CardDef)
    ensures
        is_channel_def(r),
{
    let mut d = sorcerer_sc("channel", "Channel", "wild_mage", 0, vec![
        Effect::ApplyStatus { target: Target::Player, status: StatusType::ArcaneCharge, stacks: 2 },
    ], "Gain 2 Sorcery Points. Exhaust.");
    d.exhaust = true;
    d.tags = vec![CardTag::Skill];
    d
}

/// The Surge Wave card.
pub open spec fn is_surge_wave_def(d: CardDef) -> bool {
    card_fields(d, "surge_wave"@, "Surge Wave"@, Rarity::Common, 1, CardType::Spell, seq![ Effect::DealDamage { target: Target::AllEnemies, amount: 6 }, Effect::ApplyStatus { target: Target::Player, status: StatusType::ArcaneCharge, stacks: 1 }], "Deal 6 damage to ALL enemies. Gain 1 Sorcery Point."@, Some(Class::Sorcerer), Some("wild_mage"@), seq![CardTag::Attack], false, false, false, false, false, false)
}

fn surge_wave_def() -> (r: CardDef)
    ensures
        is_surge_wave_def(r),
{
    let mut d = sorcerer_sc("surge_wave", "Surge Wave", "wild_mage", 1, vec![
        Effect::DealDamage { target: Target::AllEnemies, amount: 6 },
        Effect::ApplyStatus { target: Target::Player, status: StatusType::ArcaneCharge, stacks: 1 },
    ], "Deal 6 damage to ALL enemies. Gain 1 Sorcery Point.");
    d.tags = vec![CardTag::Attack];
    d
}

/// The Arcane Shield card.
pub open spec fn is_arcane_shield_def(d: CardDef) -> bool {
    card_fields(d, "arcane_shield"@, "Arcane Shield"@, Rarity::Common, 1, CardType::Spell, seq![ Effect::GainBlock { amount: 10 }, Effect::ApplyStatus { target: Target::Player, status: StatusType::ArcaneCharge, stacks: 1 }], "Gain 10 block. Gain 1 Sorcery Point."@, Some(Class::Sorcerer), Some("wild_mage"@), seq![CardTag::Defense, CardTag::Skill], false, false, false, false, false, false)
}

fn arcane_shield_def() -> (r: CardDef)
    ensures
        is_arcane_shield_def(r),
{
    let mut d = sorcerer_sc("arcane_shield", "Arcane Shield", "wild_mage", 1, vec![
        Effect::GainBlock { amount: 10 },
        Effect::ApplyStatus { target: Target::Player, status: StatusType::ArcaneCharge, stacks: 1 },
    ], "Gain 10 block. Gain 1 Sorcery Point.");
    d.tags = vec![CardTag::Defense, CardTag::Skill];
    d
}

/// The Wild Surge card.
pub open spec fn is_wild_surge_def(d: CardDef) -> bool {
    card_fields(d, "wild_surge"@, "Wild Surge"@, Rarity::Common, 0, CardType::Spell, seq![ Effect::DrawCards { count: 1 }, Effect::ApplyStatus { target: Target::Player, status: StatusType::ArcaneCharge, stacks: 1 }], "Draw 1. Gain 1 Sorcery Point."@, Some(Class::Sorcerer), Some("wild_mage"@), seq![CardTag::Skill], false, false, false, false, false, false)
}

fn wild_surge_def() -> (r: CardDef)
    ensures
        is_wild_surge_def(r),
{
    let mut d = sorcerer_sc("wild_surge", "Wild Surge", "wild_mage", 0, vec![
        Effect::DrawCards { count: 1 },
        Effect::ApplyStatus { target: Target::Player, status: StatusType::ArcaneCharge, stacks: 1 },
    ], "Draw 1. Gain 1 Sorcery Point.");
    d.tags = vec![CardTag::Skill];
    d
}

/// The Claw Strike card.
pub open spec fn is_claw_strike_def(d: CardDef) -> bool {
    card_fields(d, "claw_strike"@, "Claw Strike"@, Rarity::Common, 1, CardType::Spell, seq![ Effect::DealDamage { target: Target::SingleEnemy, amount: 10 }, Effect::ApplyStatus { target: Target::Player, status: StatusType::ArcaneCharge, stacks: 1 }], "Deal 10 damage. Gain 1 Sorcery Point."@, Some(Class::Sorcerer), Some("draconic"@), seq![CardTag::Attack], false, false, false, false, false, false)
}

fn claw_strike_def() -> (r: CardDef)
    ensures
        is_claw_strike_def(r),
{
    let mut d = sorcerer_sc("claw_strike", "Claw Strike", "draconic", 1, vec![
        Effect::DealDamage { target: Target::SingleEnemy, amount: 10 },
        Effect::ApplyStatus { target: Target::Player, status: StatusType::ArcaneCharge, stacks: 1 },
    ], "Deal 10 damage. Gain 1 Sorcery Point.");
    d.tags = vec![CardTag::Attack];
    d
}

/// The Scale Ward card.
pub open spec fn is_scale_ward_def(d: CardDef) -> bool {
    card_fields(d, "scale_ward"@, "Scale Ward"@, Rarity::Common, 1, CardType::Spell, seq![ Effect::GainBlock { amount: 10 }, Effect::ApplyStatus { target: Target::Player, status: StatusType::Barbed, stacks: 1 }], "Gain 10 block. Gain 1 Barbed."@, Some(Class::Sorcerer), Some("draconic"@), seq![CardTag::Defense, CardTag::Skill], false, false, false, false, false, false)
}

fn scale_ward_def() -> (r: CardDef)
    ensures
        is_scale_ward_def(r),
{
    let mut d = sorcerer_sc("scale_ward", "Scale Ward", "draconic", 1, vec![
        Effect::GainBlock { amount: 10 },
        Effect::ApplyStatus { target: Target::Player, status: StatusType::Barbed, stacks: 1 },
    ], "Gain 10 block. Gain 1 Barbed.");
    d.tags = vec![CardTag::Defense, CardTag::Skill];
    d
}

/// The Draconic Focus card.
pub open spec fn is_draconic_focus_def(d: CardDef) -> bool {
    card_fields(d, "draconic_focus"@, "Draconic Focus"@, Rarity::Common, 0, CardType::Spell, seq![ Effect::ApplyStatus { target: Target::Player, status: StatusType::ArcaneCharge, stacks: 2 }], "Gain 2 Sorcery Points. Exhaust."@, Some(Class::Sorcerer), Some("draconic"@), seq![CardTag::Skill], true, false, false, false, false, false)
}

fn draconic_focus_def() -> (r: CardDef)
    ensures
        is_draconic_focus_def(r),
{
    let mut d = sorcerer_sc("draconic_focus", "Draconic Focus", "draconic", 0, vec![
        Effect::ApplyStatus { target: Target::Player, status: StatusType::ArcaneCharge, stacks: 2 },
    ], "Gain 2 Sorcery Points. Exhaust.");
    d.exhaust = true;
    d.tags = vec![CardTag::Skill];
    d
}

/// The Dragon's Resilience card.
pub open spec fn is_dragons_resilience_def(d: CardDef) -> bool {
    card_fields(d, "dragons_resilience"@, "Dragon's Resilience"@, Rarity::Common, 1, CardType::Spell, seq![ Effect::GainBlock { amount: 8 }, Effect::ApplyStatus { target: Target::Player, status: StatusType::Armored, stacks: 1 }], "Gain 8 block. Gain 1 Armored."@, Some(Class::Sorcerer), Some("draconic"@), seq![CardTag::Defense, CardTag::Skill], false, false, false, false, false, false)
}

fn dragons_resilience_def() -> (r: CardDef)
    ensures
        is_dragons_resilience_def(r),
{
    let mut d = sorcerer_sc("dragons_resilience", "Dragon's Resilience", "draconic", 1, vec![
        Effect::GainBlock { amount: 8 },
        Effect::ApplyStatus { target: Target::Player, status: StatusType::Armored, stacks: 1 },
    ], "Gain 8 block. Gain 1 Armored.");
    d.tags = vec![CardTag::Defense, CardTag::Skill];
    d
}

/// The Draconic Bolt card.
pub open spec fn is_draconic_bolt_def(d: CardDef) -> bool {
    card_fields(d, "draconic_bolt"@, "Draconic Bolt"@, Rarity::Common, 1, CardType::Spell, seq![ Effect::DealDamage { target: Target::SingleEnemy, amount: 8 }, Effect::ApplyStatus { target: Target::Player, status: StatusType::ArcaneCharge, stacks: 1 }], "Deal 8 damage. Gain 1 Sorcery Point. Recycle."@, Some(Class::Sorcerer), Some("draconic"@), seq![CardTag::Attack], false, true, false, false, false, false)
}

fn draconic_bolt_def() -> (r: CardDef)
    ensures
        is_draconic_bolt_def(r),
{
    let mut d = sorcerer_sc("draconic_bolt", "Draconic Bolt", "draconic", 1, vec![
        Effect::DealDamage { target: Target::SingleEnemy, amount: 8 },
        Effect::ApplyStatus { target: Target::Player, status: StatusType::ArcaneCharge, stacks: 1 },
    ], "Deal 8 damage. Gain 1 Sorcery Point. Recycle.");
    d.recycle = true;
    d.tags = vec![CardTag::Attack];
    d
}

/// The Shadow Bolt card.
pub open spec fn is_shadow_bolt_def(d: CardDef) -> bool {
    card_fields(d, "shadow_bolt"@, "Shadow Bolt"@, Rarity::Common, 1, CardType::Spell, seq![ Effect::DealDamage { target: Target::SingleEnemy, amount: 8 }, Effect::ApplyStatus { target: Target::SingleEnemy, status: StatusType::Weakened, stacks: 1 }], "Deal 8 damage. Apply 1 Weakened."@, Some(Class::Sorcerer), Some("shadow_sorcerer"@), seq![CardTag::Attack], false, false, false, false, false, false)
}

fn shadow_bolt_def() -> (r: CardDef)
    ensures
        is_shadow_bolt_def(r),
{
    let mut d = sorcerer_sc("shadow_bolt", "Shadow Bolt", "shadow_sorcerer", 1, vec![
        Effect::DealDamage { target: Target::SingleEnemy, amount: 8 },
        Effect::ApplyStatus { target: Target::SingleEnemy, status: StatusType::Weakened, stacks: 1 },
    ], "Deal 8 damage. Apply 1 Weakened.");
    d.tags = vec![CardTag::Attack];
    d
}

/// The Dark Shroud card.
pub open spec fn is_dark_shroud_def(d: CardDef) -> bool {
    card_fields(d, "dark_shroud"@, "Dark Shroud"@, Rarity::Common, 1, CardType::Spell, seq![ Effect::GainBlock { amount: 10 }, Effect::ApplyStatus { target: Target::Player, status: StatusType::ArcaneCharge, stacks: 1 }], "Gain 10 block. Gain 1 Sorcery Point."@, Some(Class::Sorcerer), Some("shadow_sorcerer"@), seq![CardTag::Defense, CardTag::Skill], false, false, false, false, false, false)
}

fn dark_shroud_def() -> (r: CardDef)
    ensures
        is_dark_shroud_def(r),
{
    let mut d = sorcerer_sc("dark_shroud", "Dark Shroud", "shadow_sorcerer", 1, vec![
        Effect::GainBlock { amount: 10 },
        Effect::ApplyStatus { target: Target::Player, status: StatusType::ArcaneCharge, stacks: 1 },
    ], "Gain 10 block. Gain 1 Sorcery Point.");
    d.tags = vec![CardTag::Defense, CardTag::Skill];
    d
}

/// The Siphon card.
pub open spec fn is_siphon_def(d: CardDef) -> bool {
    card_fields(d, "siphon"@, "Siphon"@, Rarity::Common, 0, CardType::Spell, seq![ Effect::ApplyStatus { target: Target::Player, status: StatusType::ArcaneCharge, stacks: 2 }, Effect::ApplyStatus { target: Target::Player, status: StatusType::Mending, stacks: 2 }], "Gain 2 Sorcery Points. Gain 2 Mending. Exhaust."@, Some(Class::Sorcerer), Some("shadow_sorcerer"@), seq![CardTag::Skill], true, false, false, false, false, false)
}

fn siphon_def() -> (r: CardDef)
    ensures
        is_siphon_def(r),
{
    let mut d = sorcerer_sc("siphon", "Siphon", "shadow_sorcerer", 0, vec![
        Effect::ApplyStatus { target: Target::Player, status: StatusType::ArcaneCharge, stacks: 2 },
        Effect::ApplyStatus { target: Target::Player, status: StatusType::Mending, stacks: 2 },
    ], "Gain 2 Sorcery Points. Gain 2 Mending. Exhaust.");
    d.exhaust = true;
    d.tags = vec![CardTag::Skill];
    d
}

/// The Night Veil card.
pub open spec fn is_night_veil_def(d: CardDef) -> bool {
    card_fields(d, "night_veil"@, "Night Veil"@, Rarity::Common, 0, CardType::Spell, seq![ Effect::ApplyStatus { target: Target::SingleEnemy, status: StatusType::Frightened, stacks: 1 }, Effect::ApplyStatus { target: Target::Player, status: StatusType::ArcaneCharge, stacks: 1 }], "Apply 1 Frightened to an enemy. Gain 1 Sorcery Point."@, Some(Class::Sorcerer), Some("shadow_sorcerer"@), seq![CardTag::Skill], false, false, false, false, false, false)
}

fn night_veil_def() -> (r: CardDef)
    ensures
        is_night_veil_def(r),
{
    let mut d = sorcerer_sc("night_veil", "Night Veil", "shadow_sorcerer", 0, vec![
        Effect::ApplyStatus { target: Target::SingleEnemy, status: StatusType::Frightened, stacks: 1 },
        Effect::ApplyStatus { target: Target::Player, status: StatusType::ArcaneCharge, stacks: 1 },
    ], "Apply 1 Frightened to an enemy. Gain 1 Sorcery Point.");
    d.tags = vec![CardTag::Skill];
    d
}

/// The Umbral Strike card.
pub open spec fn is_umbral_strike_def(d: CardDef) -> bool {
    card_fields(d, "umbral_strike"@, "Umbral Strike"@, Rarity::Common, 1, CardType::Spell, seq![ Effect::DealDamageIfTargetDebuffed { target: Target::SingleEnemy, amount: 7, bonus: 7 }], "Deal 7 damage. If target is debuffed: deal 14 instead."@, Some(Class::Sorcerer), Some("shadow_sorcerer"@), seq![CardTag::Attack], false, false, false, false, false, false)
}

fn umbral_strike_def() -> (r: CardDef)
    ensures
        is_umbral_strike_def(r),
{
    let mut d = sorcerer_sc("umbral_strike", "Umbral Strike", "shadow_sorcerer", 1, vec![
        Effect::DealDamageIfTargetDebuffed { target: Target::SingleEnemy, amount: 7, bonus: 7 },
    ], "Deal 7 damage. If target is debuffed: deal 14 instead.");
    d.tags = vec![CardTag::Attack];
    d
}

/// The Arcane Pulse card.
pub open spec fn is_arcane_pulse_def(d: CardDef) -> bool {
    card_fields(d, "arcane_pulse"@, "Arcane Pulse"@, Rarity::Common, 1, CardType::Spell, seq![ Effect::DealDamage { target: Target::SingleEnemy, amount: 8 }, Effect::ApplyStatus { target: Target::Player, status: StatusType::ArcaneCharge, stacks: 2 }], "Deal 8 damage. Gain 2 Sorcery Points."@, Some(Class::Sorcerer), None, seq![CardTag::Attack], false, false, false, false, false, false)
}

fn arcane_pulse_def() -> (r: CardDef)
    ensures
        is_arcane_pulse_def(r),
{
    let mut d = sorcerer("arcane_pulse", "Arcane Pulse", 1, vec![
        Effect::DealDamage { target: Target::SingleEnemy, amount: 8 },
        Effect::ApplyStatus { target: Target::Player, status: StatusType::ArcaneCharge, stacks: 2 },
    ], "Deal 8 damage. Gain 2 Sorcery Points.");
    d.tags = vec![CardTag::Attack];
    d
}

/// The Mana Infusion card.
pub open spec fn is_mana_infusion_def(d: CardDef) -> bool {
    card_fields(d, "mana_infusion"@, "Mana Infusion"@, Rarity::Uncommon, 0, CardType::Spell, seq![ Effect::ApplyStatus { target: Target::Player, status: StatusType::ArcaneCharge, stacks: 3 }], "Gain 3 Sorcery Points. Exhaust."@, Some(Class::Sorcerer), None, seq![CardTag::Skill, CardTag::Power], true, false, false, false, false, false)
}

fn mana_infusion_def() -> (r: CardDef)
    ensures
        is_mana_infusion_def(r),
{
    let mut d = sorcerer("mana_infusion", "Mana Infusion", 0, vec![
        Effect::ApplyStatus { target: Target::Player, status: StatusType::ArcaneCharge, stacks: 3 },
    ], "Gain 3 Sorcery Points. Exhaust.");
    d.rarity = Rarity::Uncommon;
    d.exhaust = true;
    d.tags = vec![CardTag::Skill, CardTag::Power];
    d
}

/// The Spell Surge card.
pub open spec fn is_spell_surge_def(d: CardDef) -> bool {
    card_fields(d, "spell_surge"@, "Spell Surge"@, Rarity::Common, 1, CardType::Spell, seq![ Effect::GainBlock { amount: 6 }, Effect::DrawCards { count: 1 }, Effect::ApplyStatus { target: Target::Player, status: StatusType::ArcaneCharge, stacks: 1 }], "Gain 6 block. Draw 1. Gain 1 Sorcery Point."@, Some(Class::Sorcerer), None, seq![CardTag::Defense, CardTag::Skill], false, false, false, false, false, false)
}

fn spell_surge_def() -> (r: CardDef)
    ensures
        is_spell_surge_def(r),
{
    let mut d = sorcerer("spell_surge", "Spell Surge", 1, vec![
        Effect::GainBlock { amount: 6 },
        Effect::DrawCards { count: 1 },
        Effect::ApplyStatus { target: Target::Player, status: StatusType::ArcaneCharge, stacks: 1 },
    ], "Gain 6 block. Draw 1. Gain 1 Sorcery Point.");
    d.tags = vec![CardTag::Defense, CardTag::Skill];
    d
}

/// The Overload card.
pub open spec fn is_overload_def(d: CardDef) -> bool {
    card_fields(d, "overload"@, "Overload"@, Rarity::Rare, 0, CardType::Spell, seq![ Effect::DealDamagePerPlayerStatus { target: Target::SingleEnemy, status: StatusType::ArcaneCharge, per_stack: 3 }], "Deal 3 damage per Sorcery Point. Exhaust."@, Some(Class::Sorcerer), None, seq![CardTag::Attack], true, false, false, false, false, false)
}

fn overload_def() -> (r: CardDef)
    ensures
        is_overload_def(r),
{
    let mut d = sorcerer("overload", "Overload", 0, vec![
        Effect::DealDamagePerPlayerStatus { target: Target::SingleEnemy, status: StatusType::ArcaneCharge, per_stack: 3 },
    ], "Deal 3 damage per Sorcery Point. Exhaust.");
    d.rarity = Rarity::Rare;
    d.exhaust = true;
    d.tags = vec![CardTag::Attack];
    d
}

/// The Volatile Burst card.
pub open spec fn is_volatile_burst_def(d: CardDef) -> bool {
    card_fields(d, "volatile_burst"@, "Volatile Burst"@, Rarity::Common, 2, CardType::Spell, seq![ Effect::DealDamage { target: Target::AllEnemies, amount: 10 }, Effect::ApplyStatus { target: Target::Player, status: StatusType::ArcaneCharge, stacks: 2 }, Effect::ApplyStatus { target: Target::AllEnemies, status: StatusType::Threatened, stacks: 1 }], "Deal 10 damage to ALL enemies. Gain 2 Sorcery Points. Apply 1 Threatened to ALL."@, Some(Class::Sorcerer), Some("wild_mage"@), seq![CardTag::Attack], false, false, false, false, false, false)
}

fn volatile_burst_def() -> (r: CardDef)
    ensures
        is_volatile_burst_def(r),
{
    let mut d = sorcerer_sc("volatile_burst", "Volatile Burst", "wild_mage", 2, vec![
        Effect::DealDamage { target: Target::AllEnemies, amount: 10 },
        Effect::ApplyStatus { target: Target::Player, status: StatusType::ArcaneCharge, stacks: 2 },
        Effect::ApplyStatus { target: Target::AllEnemies, status: StatusType::Threatened, stacks: 1 },
    ], "Deal 10 damage to ALL enemies. Gain 2 Sorcery Points. Apply 1 Threatened to ALL.");
    d.tags = vec![CardTag::Attack];
    d
}

/// The Chain Lightning card.
pub open spec fn is_chain_lightning_def(d: CardDef) -> bool {
    card_fields(d, "chain_lightning"@, "Chain Lightning"@, Rarity::Uncommon, 2, CardType::Spell, seq![ Effect::DealDamage { target: Target::AllEnemies, amount: 14 }, Effect::ApplyStatus { target: Target::AllEnemies, status: StatusType::Bleeding, stacks: 2 }], "Deal 14 damage to ALL enemies. Apply 2 Bleeding to ALL."@, Some(Class::Sorcerer), Some("wild_mage"@), seq![CardTag::Attack], false, false, false, false, false, false)
}

fn chain_lightning_def() -> (r: CardDef)
    ensures
        is_chain_lightning_def(r),
{
    let mut d = sorcerer_sc("chain_lightning", "Chain Lightning", "wild_mage", 2, vec![
        Effect::DealDamage { target: Target::AllEnemies, amount: 14 },
        Effect::ApplyStatus { target: Target::AllEnemies, status: StatusType::Bleeding, stacks: 2 },
    ], "Deal 14 damage to ALL enemies. Apply 2 Bleeding to ALL.");
    d.rarity = Rarity::Uncommon;
    d.tags = vec![CardTag::Attack];
    d
}

/// The Surge Nova card.
pub open spec fn is_surge_nova_def(d: CardDef) -> bool {
    card_fields(d, "surge_nova"@, "Surge Nova"@, Rarity::Rare, 1, CardType::Spell, seq![ Effect::DealDamagePerPlayerStatus { target: Target::AllEnemies, status: StatusType::ArcaneCharge, per_stack: 2 }], "Deal 2 damage per Sorcery Point to ALL enemies. Exhaust."@, Some(Class::Sorcerer), Some("wild_mage"@), seq![CardTag::Attack], true, false, false, false, false, false)
}

fn surge_nova_def() -> (r: CardDef)
    ensures
        is_surge_nova_def(r),
{
    let mut d = sorcerer_sc("surge_nova", "Surge Nova", "wild_mage", 1, vec![
        Effect::DealDamagePerPlayerStatus { target: Target::AllEnemies, status: StatusType::ArcaneCharge, per_stack: 2 },
    ], "Deal 2 damage per Sorcery Point to ALL enemies. Exhaust.");
    d.rarity = Rarity::Rare;
    d.exhaust = true;
    d.tags = vec![CardTag::Attack];
    d
}

/// The Wild Discharge card.
pub open spec fn is_wild_discharge_def(d: CardDef) -> bool {
    card_fields(d, "wild_discharge"@, "Wild Discharge"@, Rarity::Uncommon, 0, CardType::Spell, seq![ Effect::DrawCards { count: 2 }, Effect::ApplyStatus { target: Target::Player, status: StatusType::ArcaneCharge, stacks: 1 }, Effect::LoseHp { amount: 2 }], "Draw 2. Gain 1 Sorcery Point. Lose 2 HP."@, Some(Class::Sorcerer), Some("wild_mage"@), seq![CardTag::Skill], false, false, false, false, false, false)
}

fn wild_discharge_def() -> (r: CardDef)
    ensures
        is_wild_discharge_def(r),
{
    let mut d = sorcerer_sc("wild_discharge", "Wild Discharge", "wild_mage", 0, vec![
        Effect::DrawCards { count: 2 },
        Effect::ApplyStatus { target: Target::Player, status: StatusType::ArcaneCharge, stacks: 1 },
        Effect::LoseHp { amount: 2 },
    ], "Draw 2. Gain 1 Sorcery Point. Lose 2 HP.");
    d.rarity = Rarity::Uncommon;
    d.tags = vec![CardTag::Skill];
    d
}

/// The Cataclysm card.
pub open spec fn is_sorcerer_cataclysm_def(d: CardDef) -> bool {
    card_fields(d, "sorcerer_cataclysm"@, "Cataclysm"@, Rarity::Legendary, 2, CardType::Spell, seq![ Effect::DealDamagePerPlayerStatus { target: Target::AllEnemies, status: StatusType::ArcaneCharge, per_stack: 3 }, Effect::ApplyStatus { target: Target::AllEnemies, status: StatusType::Weakened, stacks: 2 }], "Deal 3 damage per Sorcery Point to ALL enemies. Apply 2 Weakened to ALL. Exhaust."@, Some(Class::Sorcerer), Some("wild_mage"@), seq![CardTag::Attack], true, false, false, false, false, false)
}

fn sorcerer_cataclysm_def() -> (r: CardDef)
    ensures
        is_sorcerer_cataclysm_def(r),
{
    let mut d = sorcerer_sc("sorcerer_cataclysm", "Cataclysm", "wild_mage", 2, vec![
        Effect::DealDamagePerPlayerStatus { target: Target::AllEnemies, status: StatusType::ArcaneCharge, per_stack: 3 },
        Effect::ApplyStatus { target: Target::AllEnemies, status: StatusType::Weakened, stacks: 2 },
    ], "Deal 3 damage per Sorcery Point to ALL enemies. Apply 2 Weakened to ALL. Exhaust.");
    d.rarity = Rarity::Legendary;
    d.exhaust = true;
    d.tags = vec![CardTag::Attack];
    d
}

/// The Chaos Bolt card.
pub open spec fn is_chaos_bolt_def(d: CardDef) -> bool {
    card_fields(d, "chaos_bolt"@, "Chaos Bolt"@, Rarity::Common, 1, CardType::Spell, seq![ Effect::DealDamageIfTargetDebuffed { target: Target::SingleEnemy, amount: 8, bonus: 8 }, Effect::ApplyStatus { target: Target::Player, status: StatusType::ArcaneCharge, stacks: 1 }], "Deal 8 damage. If target is debuffed: deal 16 instead. Gain 1 Sorcery Point."@, Some(Class::Sorcerer), Some("wild_mage"@), seq![CardTag::Attack], false, false, false, false, false, false)
}

fn chaos_bolt_def() -> (r: CardDef)
    ensures
        is_chaos_bolt_def(r),
{
    let mut d = sorcerer_sc("chaos_bolt", "Chaos Bolt", "wild_mage", 1, vec![
        Effect::DealDamageIfTargetDebuffed { target: Target::SingleEnemy, amount: 8, bonus: 8 },
        Effect::ApplyStatus { target: Target::Player, status: StatusType::ArcaneCharge, stacks: 1 },
    ], "Deal 8 damage. If target is debuffed: deal 16 instead. Gain 1 Sorcery Point.");
    d.tags = vec![CardTag::Attack];
    d
}

/// The Unraveling Hex card.
pub open spec fn is_unraveling_hex_def(d: CardDef) -> bool {
    card_fields(d, "unraveling_hex"@, "Unraveling Hex"@, Rarity::Uncommon, 1, CardType::Spell, seq![ Effect::ApplyStatus { target: Target::SingleEnemy, status: StatusType::Weakened, stacks: 2 }, Effect::ApplyStatus { target: Target::SingleEnemy, status: StatusType::Threatened, stacks: 1 }, Effect::ApplyStatus { target: Target::Player, status: StatusType::ArcaneCharge, stacks: 1 }], "Apply 2 Weakened + 1 Threatened to enemy. Gain 1 Sorcery Point."@, Some(Class::Sorcerer), Some("wild_mage"@), seq![CardTag::Skill], false, false, false, false, false, false)
}

fn unraveling_hex_def() -> (r: CardDef)
    ensures
        is_unraveling_hex_def(r),
{
    let mut d = sorcerer_sc("unraveling_hex", "Unraveling Hex", "wild_mage", 1, vec![
        Effect::ApplyStatus { target: Target::SingleEnemy, status: StatusType::Weakened, stacks: 2 },
        Effect::ApplyStatus { target: Target::SingleEnemy, status: StatusType::Threatened, stacks: 1 },
        Effect::ApplyStatus { target: Target::Player, status: StatusType::ArcaneCharge, stacks: 1 },
    ], "Apply 2 Weakened + 1 Threatened to enemy. Gain 1 Sorcery Point.");
    d.rarity = Rarity::Uncommon;
    d.tags = vec![CardTag::Skill];
    d
}

/// The Entropy Cascade card.
pub open spec fn is_entropy_cascade_def(d: CardDef) -> bool {
    card_fields(d, "entropy_cascade"@, "Entropy Cascade"@, Rarity::Rare, 1, CardType::Spell, seq![ Effect::DealDamagePerDebuffOnTarget { target: Target::SingleEnemy, base: 6, per_debuff: 6 }, Effect::ApplyStatus { target: Target::Player, status: StatusType::ArcaneCharge, stacks: 1 }], "Deal 6 + 6 per debuff type on target. Gain 1 Sorcery Point."@, Some(Class::Sorcerer), Some("wild_mage"@), seq![CardTag::Attack], false, false, false, false, false, false)
}

fn entropy_cascade_def() -> (r: CardDef)
    ensures
        is_entropy_cascade_def(r),
{
    let mut d = sorcerer_sc("entropy_cascade", "Entropy Cascade", "wild_mage", 1, vec![
        Effect::DealDamagePerDebuffOnTarget { target: Target::SingleEnemy, base: 6, per_debuff: 6 },
        Effect::ApplyStatus { target: Target::Player, status: StatusType::ArcaneCharge, stacks: 1 },
    ], "Deal 6 + 6 per debuff type on target. Gain 1 Sorcery Point.");
    d.rarity = Rarity::Rare;
    d.tags = vec![CardTag::Attack];
    d
}

/// The Pandemonium card.
pub open spec fn is_sorcerer_pandemonium_def(d: CardDef) -> bool {
    card_fields(d, "sorcerer_pandemonium"@, "Pandemonium"@, Rarity::Legendary, 1, CardType::Spell, seq![ Effect::ApplyStatus { target: Target::AllEnemies, status: StatusType::Weakened, stacks: 2 }, Effect::ApplyStatus { target: Target::AllEnemies, status: StatusType::Threatened, stacks: 2 }, Effect::ApplyStatus { target: Target::AllEnemies, status: StatusType::Bleeding, stacks: 3 }], "Apply 2 Weakened + 2 Threatened + 3 Bleeding to ALL enemies. Exhaust."@, Some(Class::Sorcerer), Some("wild_mage"@), seq![CardTag::Skill], true, false, false, false, false, false)
}

fn sorcerer_pandemonium_def() -> (r: CardDef)
    ensures
        is_sorcerer_pandemonium_def(r),
{
    let mut d = sorcerer_sc("sorcerer_pandemonium", "Pandemonium", "wild_mage", 1, vec![
        Effect::ApplyStatus { target: Target::AllEnemies, status: StatusType::Weakened, stacks: 2 },
        Effect::ApplyStatus { target: Target::AllEnemies, status: StatusType::Threatened, stacks: 2 },
        Effect::ApplyStatus { target: Target::AllEnemies, status: StatusType::Bleeding, stacks: 3 },
    ], "Apply 2 Weakened + 2 Threatened + 3 Bleeding to ALL enemies. Exhaust.");
    d.rarity = Rarity::Legendary;
    d.exhaust = true;
    d.tags = vec![CardTag::Skill];
    d
}

/// The Dragon Scale card.
pub open spec fn is_dragon_scale_def(d: CardDef) -> bool {
    card_fields(d, "dragon_scale"@, "Dragon Scale"@, Rarity::Common, 1, CardType::Spell, seq![ Effect::GainBlock { amount: 10 }, Effect::ApplyStatus { target: Target::Player, status: StatusType::Barbed, stacks: 1 }, Effect::ApplyStatus { target: Target::Player, status: StatusType::ArcaneCharge, stacks: 1 }], "Gain 10 block. Gain 1 Barbed. Gain 1 Sorcery Point."@, Some(Class::Sorcerer), Some("draconic"@), seq![CardTag::Defense], false, false, false, false, false, false)
}

fn dragon_scale_def() -> (r: CardDef)
    ensures
        is_dragon_scale_def(r),
{
    let mut d = sorcerer_sc("dragon_scale", "Dragon Scale", "draconic", 1, vec![
        Effect::GainBlock { amount: 10 },
        Effect::ApplyStatus { target: Target::Player, status: StatusType::Barbed, stacks: 1 },
        Effect::ApplyStatus { target: Target::Player, status: StatusType::ArcaneCharge, stacks: 1 },
    ], "Gain 10 block. Gain 1 Barbed. Gain 1 Sorcery Point.");
    d.tags = vec![CardTag::Defense];
    d
}

/// The Ancestral Resilience card.
pub open spec fn is_ancestral_resilience_def(d: CardDef) -> bool {
    card_fields(d, "ancestral_resilience"@, "Ancestral Resilience"@, Rarity::Uncommon, 1, CardType::Spell, seq![ Effect::GainBlock { amount: 8 }, Effect::ApplyStatus { target: Target::Player, status: StatusType::Armored, stacks: 2 }, Effect::ApplyStatus { target: Target::Player, status: StatusType::ArcaneCharge, stacks: 1 }], "Gain 8 block. Gain 2 Armored. Gain 1 Sorcery Point."@, Some(Class::Sorcerer), Some("draconic"@), seq![CardTag::Defense, CardTag::Power], false, false, false, false, false, false)
}

fn ancestral_resilience_def() -> (r: CardDef)
    ensures
        is_ancestral_resilience_def(r),
{
    let mut d = sorcerer_sc("ancestral_resilience", "Ancestral Resilience", "draconic", 1, vec![
        Effect::GainBlock { amount: 8 },
        Effect::ApplyStatus { target: Target::Player, status: StatusType::Armored, stacks: 2 },
        Effect::ApplyStatus { target: Target::Player, status: StatusType::ArcaneCharge, stacks: 1 },
    ], "Gain 8 block. Gain 2 Armored. Gain 1 Sorcery Point.");
    d.rarity = Rarity::Uncommon;
    d.tags = vec![CardTag::Defense, CardTag::Power];
    d
}

/// The Scaled Rebuke card.
pub open spec fn is_scaled_rebuke_def(d: CardDef) -> bool {
    card_fields(d, "scaled_rebuke"@, "Scaled Rebuke"@, Rarity::Rare, 1, CardType::Spell, seq![ Effect::GainBlockPerStatusStack { status: StatusType::Barbed, multiplier: 2 }, Effect::DealDamageIfDamagedLastTurn { target: Target::SingleEnemy, amount: 10 }, Effect::ApplyStatus { target: Target::Player, status: StatusType::ArcaneCharge, stacks: 1 }], "Gain 2 block per Barbed stack. If damaged last turn: deal 10 damage. Gain 1 Sorcery Point."@, Some(Class::Sorcerer), Some("draconic"@), seq![CardTag::Defense, CardTag::Attack], false, false, false, false, false, false)
}

fn scaled_rebuke_def() -> (r: CardDef)
    ensures
        is_scaled_rebuke_def(r),
{
    let mut d = sorcerer_sc("scaled_rebuke", "Scaled Rebuke", "draconic", 1, vec![
        Effect::GainBlockPerStatusStack { status: StatusType::Barbed, multiplier: 2 },
        Effect::DealDamageIfDamagedLastTurn { target: Target::SingleEnemy, amount: 10 },
        Effect::ApplyStatus { target: Target::Player, status: StatusType::ArcaneCharge, stacks: 1 },
    ], "Gain 2 block per Barbed stack. If damaged last turn: deal 10 damage. Gain 1 Sorcery Point.");
    d.rarity = Rarity::Rare;
    d.tags = vec![CardTag::Defense, CardTag::Attack];
    d
}

/// The Primordial Resilience card.
pub open spec fn is_primordial_resilience_def(d: CardDef) -> bool {
    card_fields(d, "primordial_resilience"@, "Primordial Resilience"@, Rarity::Legendary, 0, CardType::Spell, seq![ Effect::GainBlock { amount: 10 }, Effect::ApplyStatus { target: Target::Player, status: StatusType::Barbed, stacks: 3 }, Effect::ApplyStatus { target: Target::Player, status: StatusType::Armored, stacks: 2 }, Effect::ApplyStatus { target: Target::Player, status: StatusType::ArcaneCharge, stacks: 2 }], "Gain 10 block. Gain 3 Barbed + 2 Armored + 2 Sorcery Points. Exhaust."@, Some(Class::Sorcerer), Some("draconic"@), seq![CardTag::Defense, CardTag::Power], true, false, false, false, false, false)
}

fn primordial_resilience_def() -> (r: CardDef)
    ensures
        is_primordial_resilience_def(r),
{
    let mut d = sorcerer_sc("primordial_resilience", "Primordial Resilience", "draconic", 0, vec![
        Effect::GainBlock { amount: 10 },
        Effect::ApplyStatus { target: Target::Player, status: StatusType::Barbed, stacks: 3 },
        Effect::ApplyStatus { target: Target::Player, status: StatusType::Armored, stacks: 2 },
        Effect::ApplyStatus { target: Target::Player, status: StatusType::ArcaneCharge, stacks: 2 },
    ], "Gain 10 block. Gain 3 Barbed + 2 Armored + 2 Sorcery Points. Exhaust.");
    d.rarity = Rarity::Legendary;
    d.exhaust = true;
    d.tags = vec![CardTag::Defense, CardTag::Power];
    d
}

/// The Dragon's Breath card.
pub open spec fn is_sorcerer_dragons_breath_def(d: CardDef) -> bool {
    card_fields(d, "sorcerer_dragons_breath"@, "Dragon's Breath"@, Rarity::Uncommon, 2, CardType::Spell, seq![ Effect::DealDamage { target: Target::SingleEnemy, amount: 18 }, Effect::ApplyStatus { target: Target::SingleEnemy, status: StatusType::Bleeding, stacks: 3 }, Effect::ApplyStatus { target: Target::Player, status: StatusType::ArcaneCharge, stacks: 1 }], "Deal 18 damage. Apply 3 Bleeding. Gain 1 Sorcery Point."@, Some(Class::Sorcerer), Some("draconic"@), seq![CardTag::Attack], false, false, false, false, false, false)
}

fn sorcerer_dragons_breath_def() -> (r: CardDef)
    ensures
        is_sorcerer_dragons_breath_def(r),
{
    let mut d = sorcerer_sc("sorcerer_dragons_breath", "Dragon's Breath", "draconic", 2, vec![
        Effect::DealDamage { target: Target::SingleEnemy, amount: 18 },
        Effect::ApplyStatus { target: Target::SingleEnemy, status: StatusType::Bleeding, stacks: 3 },
        Effect::ApplyStatus { target: Target::Player, status: StatusType::ArcaneCharge, stacks: 1 },
    ], "Deal 18 damage. Apply 3 Bleeding. Gain 1 Sorcery Point.");
    d.rarity = Rarity::Uncommon;
    d.tags = vec![CardTag::Attack];
    d
}

/// The Draconic Surge card.
pub open spec fn is_draconic_surge_def(d: CardDef) -> bool {
    card_fields(d, "draconic_surge"@, "Draconic Surge"@, Rarity::Uncommon, 1, CardType::Spell, seq![ Effect::DealDamage { target: Target::SingleEnemy, amount: 12 }, Effect::ApplyStatusIfPlayerHasStatus { status: StatusType::ArcaneCharge, stacks: 2, require_status: StatusType::ArcaneCharge, require_stacks: 4 }], "Deal 12 damage. If Sorcery Points >= 4: gain 2 more."@, Some(Class::Sorcerer), Some("draconic"@), seq![CardTag::Attack], false, false, false, false, false, false)
}

fn draconic_surge_def() -> (r: CardDef)
    ensures
        is_draconic_surge_def(r),
{
    let mut d = sorcerer_sc("draconic_surge", "Draconic Surge", "draconic", 1, vec![
        Effect::DealDamage { target: Target::SingleEnemy, amount: 12 },
        Effect::ApplyStatusIfPlayerHasStatus {
            status: StatusType::ArcaneCharge,
            stacks: 2,
            require_status: StatusType::ArcaneCharge,
            require_stacks: 4,
        },
    ], "Deal 12 damage. If Sorcery Points >= 4: gain 2 more.");
    d.rarity = Rarity::Uncommon;
    d.tags = vec![CardTag::Attack];
    d
}

/// The Ancient Power card.
pub open spec fn is_ancient_power_def(d: CardDef) -> bool {
    card_fields(d, "ancient_power"@, "Ancient Power"@, Rarity::Rare, 2, CardType::Spell, seq![ Effect::DealDamagePerPlayerStatus { target: Target::SingleEnemy, status: StatusType::ArcaneCharge, per_stack: 4 }], "Deal 4 damage per Sorcery Point. Exhaust."@, Some(Class::Sorcerer), Some("draconic"@), seq![CardTag::Attack], true, false, false, false, false, false)
}

fn ancient_power_def() -> (r: CardDef)
    ensures
        is_ancient_power_def(r),
{
    let mut d = sorcerer_sc("ancient_power", "Ancient Power", "draconic", 2, vec![
        Effect::DealDamagePerPlayerStatus { target: Target::SingleEnemy, status: StatusType::ArcaneCharge, per_stack: 4 },
    ], "Deal 4 damage per Sorcery Point. Exhaust.");
    d.rarity = Rarity::Rare;
    d.exhaust = true;
    d.tags = vec![CardTag::Attack];
    d
}

/// The Dragonfire Ascension card.
pub open spec fn is_dragonfire_ascension_def(d: CardDef) -> bool {
    card_fields(d, "dragonfire_ascension"@, "Dragonfire Ascension"@, Rarity::Legendary, 2, CardType::Spell, seq![ Effect::DealDamagePerPlayerStatus { target: Target::SingleEnemy, status: StatusType::ArcaneCharge, per_stack: 5 }, Effect::ApplyStatus { target: Target::AllEnemies, status: StatusType::Threatened, stacks: 2 }], "Deal 5 damage per Sorcery Point. Apply 2 Threatened to ALL enemies. Exhaust."@, Some(Class::Sorcerer), Some("draconic"@), seq![CardTag::Attack], true, false, false, false, false, false)
}

fn dragonfire_ascension_def() -> (r: CardDef)
    ensures
        is_dragonfire_ascension_def(r),
{
    let mut d = sorcerer_sc("dragonfire_ascension", "Dragonfire Ascension", "draconic", 2, vec![
        Effect::DealDamagePerPlayerStatus { target: Target::SingleEnemy, status: StatusType::ArcaneCharge, per_stack: 5 },
        Effect::ApplyStatus { target: Target::AllEnemies, status: StatusType::Threatened, stacks: 2 },
    ], "Deal 5 damage per Sorcery Point. Apply 2 Threatened to ALL enemies. Exhaust.");
    d.rarity = Rarity::Legendary;
    d.exhaust = true;
    d.tags = vec![CardTag::Attack];
    d
}

/// The Shadow Tap card.
pub open spec fn is_shadow_tap_def(d: CardDef) -> bool {
    card_fields(d, "shadow_tap"@, "Shadow Tap"@, Rarity::Common, 0, CardType::Spell, seq![ Effect::ApplyStatus { target: Target::Player, status: StatusType::ArcaneCharge, stacks: 2 }, Effect::ApplyStatus { target: Target::Player, status: StatusType::Mending, stacks: 2 }], "Gain 2 Sorcery Points. Gain 2 Mending. Exhaust."@, Some(Class::Sorcerer), Some("shadow_sorcerer"@), seq![CardTag::Skill], true, false, false, false, false, false)
}

fn shadow_tap_def() -> (r: CardDef)
    ensures
        is_shadow_tap_def(r),
{
    let mut d = sorcerer_sc("shadow_tap", "Shadow Tap", "shadow_sorcerer", 0, vec![
        Effect::ApplyStatus { target: Target::Player, status: StatusType::ArcaneCharge, stacks: 2 },
        Effect::ApplyStatus { target: Target::Player, status: StatusType::Mending, stacks: 2 },
    ], "Gain 2 Sorcery Points. Gain 2 Mending. Exhaust.");
    d.exhaust = true;
    d.tags = vec![CardTag::Skill];
    d
}

/// The Necrotic Siphon card.
pub open spec fn is_necrotic_siphon_def(d: CardDef) -> bool {
    card_fields(d, "necrotic_siphon"@, "Necrotic Siphon"@, Rarity::Common, 1, CardType::Spell, seq![ Effect::DealDamage { target: Target::SingleEnemy, amount: 8 }, Effect::Heal { amount: 4 }, Effect::ApplyStatus { target: Target::Player, status: StatusType::ArcaneCharge, stacks: 1 }], "Deal 8 damage. Heal 4 HP. Gain 1 Sorcery Point."@, Some(Class::Sorcerer), Some("shadow_sorcerer"@), seq![CardTag::Attack], false, false, false, false, false, false)
}

fn necrotic_siphon_def() -> (r: CardDef)
    ensures
        is_necrotic_siphon_def(r),
{
    let mut d = sorcerer_sc("necrotic_siphon", "Necrotic Siphon", "shadow_sorcerer", 1, vec![
        Effect::DealDamage { target: Target::SingleEnemy, amount: 8 },
        Effect::Heal { amount: 4 },
        Effect::ApplyStatus { target: Target::Player, status: StatusType::ArcaneCharge, stacks: 1 },
    ], "Deal 8 damage. Heal 4 HP. Gain 1 Sorcery Point.");
    d.tags = vec![CardTag::Attack];
    d
}

/// The Life Drain card.
pub open spec fn is_life_drain_def(d: CardDef) -> bool {
    card_fields(d, "life_drain"@, "Life Drain"@, Rarity::Uncommon, 1, CardType::Spell, seq![ Effect::DealDamageIfTargetDebuffed { target: Target::SingleEnemy, amount: 8, bonus: 6 }, Effect::ApplyStatus { target: Target::Player, status: StatusType::Mending, stacks: 3 }, Effect::ApplyStatus { target: Target::Player, status: StatusType::ArcaneCharge, stacks: 1 }], "Deal 8 damage (14 if debuffed). Gain 3 Mending. Gain 1 Sorcery Point."@, Some(Class::Sorcerer), Some("shadow_sorcerer"@), seq![CardTag::Attack], false, false, false, false, false, false)
}

fn life_drain_def() -> (r: CardDef)
    ensures
        is_life_drain_def(r),
{
    let mut d = sorcerer_sc("life_drain", "Life Drain", "shadow_sorcerer", 1, vec![
        Effect::DealDamageIfTargetDebuffed { target: Target::SingleEnemy, amount: 8, bonus: 6 },
        Effect::ApplyStatus { target: Target::Player, status: StatusType::Mending, stacks: 3 },
        Effect::ApplyStatus { target: Target::Player, status: StatusType::ArcaneCharge, stacks: 1 },
    ], "Deal 8 damage (14 if debuffed). Gain 3 Mending. Gain 1 Sorcery Point.");
    d.rarity = Rarity::Uncommon;
    d.tags = vec![CardTag::Attack];
    d
}

/// The Void Feast card.
pub open spec fn is_void_feast_def(d: CardDef) -> bool {
    card_fields(d, "void_feast"@, "Void Feast"@, Rarity::Rare, 2, CardType::Spell, seq![ Effect::DealDamage { target: Target::SingleEnemy, amount: 14 }, Effect::Heal { amount: 10 }, Effect::ApplyStatus { target: Target::Player, status: StatusType::ArcaneCharge, stacks: 2 }], "Deal 14 damage. Heal 10 HP. Gain 2 Sorcery Points. Exhaust."@, Some(Class::Sorcerer), Some("shadow_sorcerer"@), seq![CardTag::Attack], true, false, false, false, false, false)
}

fn void_feast_def() -> (r: CardDef)
    ensures
        is_void_feast_def(r),
{
    let mut d = sorcerer_sc("void_feast", "Void Feast", "shadow_sorcerer", 2, vec![
        Effect::DealDamage { target: Target::SingleEnemy, amount: 14 },
        Effect::Heal { amount: 10 },
        Effect::ApplyStatus { target: Target::Player, status: StatusType::ArcaneCharge, stacks: 2 },
    ], "Deal 14 damage. Heal 10 HP. Gain 2 Sorcery Points. Exhaust.");
    d.rarity = Rarity::Rare;
    d.exhaust = true;
    d.tags = vec![CardTag::Attack];
    d
}

/// The Eternal Hunger card.
pub open spec fn is_eternal_hunger_def(d: CardDef) -> bool {
    card_fields(d, "eternal_hunger"@, "Eternal Hunger"@, Rarity::Legendary, 1, CardType::Spell, seq![ Effect::ApplyStatus { target: Target::Player, status: StatusType::Mending, stacks: 5 }, Effect::ApplyStatus { target: Target::AllEnemies, status: StatusType::Weakened, stacks: 2 }, Effect::ApplyStatus { target: Target::Player, status: StatusType::ArcaneCharge, stacks: 2 }, Effect::DrawCards { count: 1 }], "Gain 5 Mending. Apply 2 Weakened to ALL. Gain 2 Sorcery Points. Draw 1. Exhaust."@, Some(Class::Sorcerer), Some("shadow_sorcerer"@), seq![CardTag::Skill, CardTag::Power], true, false, false, false, false, false)
}

fn eternal_hunger_def() -> (r: CardDef)
    ensures
        is_eternal_hunger_def(r),
{
    let mut d = sorcerer_sc("eternal_hunger", "Eternal Hunger", "shadow_sorcerer", 1, vec![
        Effect::ApplyStatus { target: Target::Player, status: StatusType::Mending, stacks: 5 },
        Effect::ApplyStatus { target: Target::AllEnemies, status: StatusType::Weakened, stacks: 2 },
        Effect::ApplyStatus { target: Target::Player, status: StatusType::ArcaneCharge, stacks: 2 },
        Effect::DrawCards { count: 1 },
    ], "Gain 5 Mending. Apply 2 Weakened to ALL. Gain 2 Sorcery Points. Draw 1. Exhaust.");
    d.rarity = Rarity::Legendary;
    d.exhaust = true;
    d.tags = vec![CardTag::Skill, CardTag::Power];
    d
}

/// The Dread Bolt card.
pub open spec fn is_dread_bolt_def(d: CardDef) -> bool {
    card_fields(d, "dread_bolt"@, "Dread Bolt"@, Rarity::Common, 1, CardType::Spell, seq![ Effect::DealDamage { target: Target::SingleEnemy, amount: 8 }, Effect::ApplyStatus { target: Target::SingleEnemy, status: StatusType::Frightened, stacks: 2 }, Effect::ApplyStatus { target: Target::Player, status: StatusType::ArcaneCharge, stacks: 1 }], "Deal 8 damage. Apply 2 Frightened. Gain 1 Sorcery Point."@, Some(Class::Sorcerer), Some("shadow_sorcerer"@), seq![CardTag::Attack, CardTag::Skill], false, false, false, false, false, false)
}

fn dread_bolt_def() -> (r: CardDef)
    ensures
        is_dread_bolt_def(r),
{
    let mut d = sorcerer_sc("dread_bolt", "Dread Bolt", "shadow_sorcerer", 1, vec![
        Effect::DealDamage { target: Target::SingleEnemy, amount: 8 },
        Effect::ApplyStatus { target: Target::SingleEnemy, status: StatusType::Frightened, stacks: 2 },
        Effect::ApplyStatus { target: Target::Player, status: StatusType::ArcaneCharge, stacks: 1 },
    ], "Deal 8 damage. Apply 2 Frightened. Gain 1 Sorcery Point.");
    d.tags = vec![CardTag::Attack, CardTag::Skill];
    d
}

/// The Terrorize card.
pub open spec fn is_terrorize_def(d: CardDef) -> bool {
    card_fields(d, "terrorize"@, "Terrorize"@, Rarity::Uncommon, 0, CardType::Spell, seq![ Effect::ApplyStatus { target: Target::AllEnemies, status: StatusType::Frightened, stacks: 1 }, Effect::ApplyStatus { target: Target::Player, status: StatusType::ArcaneCharge, stacks: 1 }], "Apply 1 Frightened to ALL enemies. Gain 1 Sorcery Point."@, Some(Class::Sorcerer), Some("shadow_sorcerer"@), seq![CardTag::Skill], false, false, false, false, false, false)
}

fn terrorize_def() -> (r: CardDef)
    ensures
        is_terrorize_def(r),
{
    let mut d = sorcerer_sc("terrorize", "Terrorize", "shadow_sorcerer", 0, vec![
        Effect::ApplyStatus { target: Target::AllEnemies, status: StatusType::Frightened, stacks: 1 },
        Effect::ApplyStatus { target: Target::Player, status: StatusType::ArcaneCharge, stacks: 1 },
    ], "Apply 1 Frightened to ALL enemies. Gain 1 Sorcery Point.");
    d.rarity = Rarity::Uncommon;
    d.tags = vec![CardTag::Skill];
    d
}

/// The Shadow Exploit card.
pub open spec fn is_shadow_exploit_def(d: CardDef) -> bool {
    card_fields(d, "shadow_exploit"@, "Shadow Exploit"@, Rarity::Common, 1, CardType::Spell, seq![ Effect::DealDamageIfTargetDebuffed { target: Target::SingleEnemy, amount: 10, bonus: 12 }, Effect::ApplyStatus { target: Target::Player, status: StatusType::ArcaneCharge, stacks: 1 }], "Deal 10 damage (22 if debuffed). Gain 1 Sorcery Point."@, Some(Class::Sorcerer), Some("shadow_sorcerer"@), seq![CardTag::Attack], false, false, false, false, false, false)
}

fn shadow_exploit_def() -> (r: CardDef)
    ensures
        is_shadow_exploit_def(r),
{
    let mut d = sorcerer_sc("shadow_exploit", "Shadow Exploit", "shadow_sorcerer", 1, vec![
        Effect::DealDamageIfTargetDebuffed { target: Target::SingleEnemy, amount: 10, bonus: 12 },
        Effect::ApplyStatus { target: Target::Player, status: StatusType::ArcaneCharge, stacks: 1 },
    ], "Deal 10 damage (22 if debuffed). Gain 1 Sorcery Point.");
    d.tags = vec![CardTag::Attack];
    d
}

/// The Final Nightmare card.
pub open spec fn is_final_nightmare_def(d: CardDef) -> bool {
    card_fields(d, "final_nightmare"@, "Final Nightmare"@, Rarity::Legendary, 2, CardType::Spell, seq![ Effect::ApplyStatus { target: Target::AllEnemies, status: StatusType::Frightened, stacks: 3 }, Effect::ApplyStatus { target: Target::AllEnemies, status: StatusType::Weakened, stacks: 3 }, Effect::DealDamagePerPlayerStatus { target: Target::AllEnemies, status: StatusType::ArcaneCharge, per_stack: 2 }], "Apply 3 Frightened + 3 Weakened to ALL. Deal 2 damage per Sorcery Point to ALL. Exhaust."@, Some(Class::Sorcerer), Some("shadow_sorcerer"@), seq![CardTag::Skill, CardTag::Attack], true, false, false, false, false, false)
}

fn final_nightmare_def() -> (r: CardDef)
    ensures
        is_final_nightmare_def(r),
{
    let mut d = sorcerer_sc("final_nightmare", "Final Nightmare", "shadow_sorcerer", 2, vec![
        Effect::ApplyStatus { target: Target::AllEnemies, status: StatusType::Frightened, stacks: 3 },
        Effect::ApplyStatus { target: Target::AllEnemies, status: StatusType::Weakened, stacks: 3 },
        Effect::DealDamagePerPlayerStatus { target: Target::AllEnemies, status: StatusType::ArcaneCharge, per_stack: 2 },
    ], "Apply 3 Frightened + 3 Weakened to ALL. Deal 2 damage per Sorcery Point to ALL. Exhaust.");
    d.rarity = Rarity::Legendary;
    d.exhaust = true;
    d.tags = vec![CardTag::Skill, CardTag::Attack];
    d
}

/// The Sorcerer's Apotheosis card.
pub open spec fn is_sorcerers_apotheosis_def(d: CardDef) -> bool {
    card_fields(d, "sorcerers_apotheosis"@, "Sorcerer's Apotheosis"@, Rarity::Legendary, 0, CardType::Spell, seq![ Effect::ApplyStatus { target: Target::Player, status: StatusType::ArcaneCharge, stacks: 5 }, Effect::DrawCards { count: 3 }, Effect::Heal { amount: 8 }], "Gain 5 Sorcery Points. Draw 3. Heal 8 HP. Innate. Exhaust."@, Some(Class::Sorcerer), None, seq![CardTag::Skill, CardTag::Power], true, false, false, true, false, false)
}

fn sorcerers_apotheosis_def() -> (r: CardDef)
    ensures
        is_sorcerers_apotheosis_def(r),
{
    let mut d = sorcerer("sorcerers_apotheosis", "Sorcerer's Apotheosis", 0, vec![
        Effect::ApplyStatus { target: Target::Player, status: StatusType::ArcaneCharge, stacks: 5 },
        Effect::DrawCards { count: 3 },
        Effect::Heal { amount: 8 },
    ], "Gain 5 Sorcery Points. Draw 3. Heal 8 HP. Innate. Exhaust.");
    d.rarity = Rarity::Legendary;
    d.innate = true;
    d.exhaust = true;
    d.tags = vec![CardTag::Skill, CardTag::Power];
    d
}

// ── Aggregate ───────────────────────────────────────────────────────────

/// The card definitions of the content set, in order.
#[verifier::opaque]
pub open spec fn is_shipped_card_defs(s: Seq<CardDef>) -> bool {
    &&& s.len() == 307
    &&& is_strike_def(s[0])
    &&& is_defend_def(s[1])
    &&& is_wound_def(s[2])
    &&& is_barbs_def(s[3])
    &&& is_heavy_strike_def(s[4])
    &&& is_deft_strike_def(s[5])
    &&& is_second_wind_def(s[6])
    &&& is_energy_surge_def(s[7])
    &&& is_extra_attack_def(s[8])
    &&& is_rally_def(s[9])
    &&& is_iron_guard_def(s[10])
    &&& is_shield_bash_def(s[11])
    &&& is_brace_def(s[12])
    &&& is_unbreakable_def(s[13])
    &&& is_intimidating_blow_def(s[14])
    &&& is_reckless_attack_def(s[15])
    &&& is_sundering_blow_def(s[16])
    &&& is_reaving_strike_def(s[17])
    &&& is_measured_strike_def(s[18])
    &&& is_sizing_up_def(s[19])
    &&& is_calculated_strike_def(s[20])
    &&& is_precise_cut_def(s[21])
    &&& is_read_and_react_def(s[22])
    &&& is_expose_weakness_def(s[23])
    &&& is_flurry_of_cuts_def(s[24])
    &&& is_feint_def(s[25])
    &&& is_patient_strike_def(s[26])
    &&& is_perfect_read_def(s[27])
    &&& is_riposte_def(s[28])
    &&& is_perfect_rhythm_def(s[29])
    &&& is_power_strike_def(s[30])
    &&& is_quick_slash_def(s[31])
    &&& is_vicious_strike_def(s[32])
    &&& is_double_strike_def(s[33])
    &&& is_brace_for_impact_def(s[34])
    &&& is_hold_the_line_def(s[35])
    &&& is_taunt_def(s[36])
    &&& is_focus_def(s[37])
    &&& is_martial_ascendancy_def(s[38])
    &&& is_iron_fortress_def(s[39])
    &&& is_titans_fury_def(s[40])
    &&& is_coup_de_grace_def(s[41])
    &&& is_adrenaline_rush_def(s[42])
    &&& is_exploit_opening_def(s[43])
    &&& is_momentum_def(s[44])
    &&& is_improvise_def(s[45])
    &&& is_fae_ancestry_def(s[46])
    &&& is_blood_price_def(s[47])
    &&& is_stonewall_def(s[48])
    &&& is_flash_bang_def(s[49])
    &&& is_nimble_dodge_def(s[50])
    &&& is_savage_charge_def(s[51])
    &&& is_shiv_def(s[52])
    &&& is_dragon_breath_def(s[53])
    &&& is_pounce_def(s[54])
    &&& is_brutal_swing_def(s[55])
    &&& is_savage_presence_def(s[56])
    &&& is_demolish_def(s[57])
    &&& is_wrath_of_the_giant_def(s[58])
    &&& is_executioners_blow_def(s[59])
    &&& is_blood_frenzy_def(s[60])
    &&& is_raging_blow_def(s[61])
    &&& is_berserk_roar_def(s[62])
    &&& is_unleash_fury_def(s[63])
    &&& is_deathwish_def(s[64])
    &&& is_fortify_def(s[65])
    &&& is_entrench_def(s[66])
    &&& is_stalwart_defense_def(s[67])
    &&& is_shield_wall_def(s[68])
    &&& is_aegis_eternal_def(s[69])
    &&& is_spiked_armor_def(s[70])
    &&& is_retribution_def(s[71])
    &&& is_thorned_carapace_def(s[72])
    &&& is_barbed_bulwark_def(s[73])
    &&& is_wrath_of_thorns_def(s[74])
    &&& is_bloodlust_def(s[75])
    &&& is_raging_strike_def(s[76])
    &&& is_totem_guard_def(s[77])
    &&& is_frenzied_slash_def(s[78])
    &&& is_battle_fury_def(s[79])
    &&& is_thick_skin_def(s[80])
    &&& is_primal_surge_def(s[81])
    &&& is_undying_rage_def(s[82])
    &&& is_blood_offering_def(s[83])
    &&& is_fury_unleashed_def(s[84])
    &&& is_bloodbath_def(s[85])
    &&& is_pain_is_power_def(s[86])
    &&& is_berserker_deathwish_def(s[87])
    &&& is_wild_swing_def(s[88])
    &&& is_berserk_flurry_def(s[89])
    &&& is_savage_momentum_def(s[90])
    &&& is_unstoppable_def(s[91])
    &&& is_rampage_def(s[92])
    &&& is_spirit_ward_def(s[93])
    &&& is_ancestral_shield_def(s[94])
    &&& is_warding_totem_card_def(s[95])
    &&& is_fortified_rage_def(s[96])
    &&& is_unbreaking_spirit_def(s[97])
    &&& is_war_cry_def(s[98])
    &&& is_spirit_mend_def(s[99])
    &&& is_vengeful_ancestors_def(s[100])
    &&& is_totem_of_renewal_def(s[101])
    &&& is_ancestors_embrace_def(s[102])
    &&& is_desperate_strike_def(s[103])
    &&& is_adrenaline_spike_def(s[104])
    &&& is_feral_instinct_def(s[105])
    &&& is_berserkers_trance_card_def(s[106])
    &&& is_deaths_door_def(s[107])
    &&& is_flailing_strike_def(s[108])
    &&& is_frenzy_card_def(s[109])
    &&& is_whirlwind_fury_def(s[110])
    &&& is_one_thousand_cuts_def(s[111])
    &&& is_inner_peace_def(s[112])
    &&& is_centered_strike_def(s[113])
    &&& is_swift_footwork_def(s[114])
    &&& is_ki_surge_def(s[115])
    &&& is_meditation_def(s[116])
    &&& is_ki_focus_def(s[117])
    &&& is_ki_strike_def(s[118])
    &&& is_ki_guard_def(s[119])
    &&& is_rapid_strikes_def(s[120])
    &&& is_palm_strike_def(s[121])
    &&& is_whirlwind_kick_def(s[122])
    &&& is_hundred_fists_def(s[123])
    &&& is_endless_barrage_def(s[124])
    &&& is_focused_strike_def(s[125])
    &&& is_ki_shield_def(s[126])
    &&& is_ki_channeling_def(s[127])
    &&& is_quivering_palm_def(s[128])
    &&& is_transcendence_def(s[129])
    &&& is_nerve_strike_def(s[130])
    &&& is_pressure_point_strike_def(s[131])
    &&& is_dim_mak_def(s[132])
    &&& is_crippling_blow_def(s[133])
    &&& is_weakening_aura_def(s[134])
    &&& is_death_touch_def(s[135])
    &&& is_shadow_step_def(s[136])
    &&& is_deflecting_palm_def(s[137])
    &&& is_counter_stance_def(s[138])
    &&& is_phantom_form_def(s[139])
    &&& is_shadow_kill_def(s[140])
    &&& is_stance_shift_def(s[141])
    &&& is_tigers_fury_def(s[142])
    &&& is_cranes_wing_def(s[143])
    &&& is_flowing_water_def(s[144])
    &&& is_monk_dragons_breath_def(s[145])
    &&& is_perfect_harmony_def(s[146])
    &&& is_iron_skin_def(s[147])
    &&& is_ki_barrier_def(s[148])
    &&& is_stone_body_def(s[149])
    &&& is_diamond_soul_def(s[150])
    &&& is_fist_of_north_star_def(s[151])
    &&& is_eldritch_blast_def(s[152])
    &&& is_hex_def(s[153])
    &&& is_dark_bargain_def(s[154])
    &&& is_maledict_def(s[155])
    &&& is_pact_barrier_def(s[156])
    &&& is_siphon_bolt_def(s[157])
    &&& is_hellbrand_def(s[158])
    &&& is_cinder_feast_def(s[159])
    &&& is_balefire_cataclysm_def(s[160])
    &&& is_blood_tithe_def(s[161])
    &&& is_feast_of_cinders_def(s[162])
    &&& is_pact_blade_def(s[163])
    &&& is_soul_parry_def(s[164])
    &&& is_dusk_duel_def(s[165])
    &&& is_brand_the_weak_def(s[166])
    &&& is_black_oath_def(s[167])
    &&& is_void_gaze_def(s[168])
    &&& is_starless_whisper_def(s[169])
    &&& is_entropy_field_def(s[170])
    &&& is_oblivion_tide_def(s[171])
    &&& is_cosmic_extinction_def(s[172])
    &&& is_holy_strike_def(s[173])
    &&& is_lay_on_hands_def(s[174])
    &&& is_prayer_of_valor_def(s[175])
    &&& is_consecration_def(s[176])
    &&& is_divine_bulwark_def(s[177])
    &&& is_warding_slash_def(s[178])
    &&& is_shield_of_faith_def(s[179])
    &&& is_bastion_drive_def(s[180])
    &&& is_holy_bastion_def(s[181])
    &&& is_avenging_strike_def(s[182])
    &&& is_blade_of_wrath_def(s[183])
    &&& is_divine_judgment_def(s[184])
    &&& is_zealous_rush_def(s[185])
    &&& is_radiant_burst_def(s[186])
    &&& is_beacon_of_light_def(s[187])
    &&& is_solar_flare_def(s[188])
    &&& is_dawns_blessing_def(s[189])
    &&& is_avatar_of_radiance_def(s[190])
    &&& is_tricks_of_the_trade_def(s[191])
    &&& is_sneak_attack_def(s[192])
    &&& is_cunning_action_def(s[193])
    &&& is_rogue_evasion_def(s[194])
    &&& is_preparation_def(s[195])
    &&& is_assassinate_def(s[196])
    &&& is_rogue_shadow_step_def(s[197])
    &&& is_death_mark_def(s[198])
    &&& is_killing_blow_def(s[199])
    &&& is_cutlass_flurry_def(s[200])
    &&& is_grappling_hook_def(s[201])
    &&& is_dirty_fighting_def(s[202])
    &&& is_broadside_def(s[203])
    &&& is_smoke_bomb_def(s[204])
    &&& is_misdirection_def(s[205])
    &&& is_fan_of_knives_def(s[206])
    &&& is_ace_in_the_hole_def(s[207])
    &&& is_fire_bolt_def(s[208])
    &&& is_mage_armor_def(s[209])
    &&& is_arcane_intellect_def(s[210])
    &&& is_shield_spell_def(s[211])
    &&& is_ember_bolt_def(s[212])
    &&& is_arcane_ward_def(s[213])
    &&& is_prescience_def(s[214])
    &&& is_fireball_def(s[215])
    &&& is_scorching_ray_def(s[216])
    &&& is_lightning_bolt_def(s[217])
    &&& is_flame_shield_def(s[218])
    &&& is_counterspell_def(s[219])
    &&& is_ward_def(s[220])
    &&& is_dispel_def(s[221])
    &&& is_globe_of_protection_def(s[222])
    &&& is_foresight_def(s[223])
    &&& is_scrying_def(s[224])
    &&& is_portent_def(s[225])
    &&& is_time_stop_def(s[226])
    &&& is_wish_def(s[227])
    &&& is_battle_discipline_def(s[228])
    &&& is_studied_analysis_def(s[229])
    &&& is_minor_blessing_def(s[230])
    &&& is_dirty_trick_def(s[231])
    &&& is_commanding_presence_def(s[232])
    &&& is_survival_instinct_def(s[233])
    &&& is_improvised_weapon_def(s[234])
    &&& is_sea_legs_def(s[235])
    &&& is_backstab_def(s[236])
    &&& is_inner_focus_def(s[237])
    &&& is_resourceful_def(s[238])
    &&& is_dazzle_def(s[239])
    &&& is_wild_shape_bear_def(s[240])
    &&& is_wild_shape_eagle_def(s[241])
    &&& is_wild_shape_wolf_def(s[242])
    &&& is_natures_wrath_def(s[243])
    &&& is_bark_skin_def(s[244])
    &&& is_rejuvenation_def(s[245])
    &&& is_bear_maul_def(s[246])
    &&& is_thick_hide_def(s[247])
    &&& is_ursine_charge_def(s[248])
    &&& is_primal_roar_def(s[249])
    &&& is_eagle_dive_def(s[250])
    &&& is_swooping_strike_def(s[251])
    &&& is_wind_rider_def(s[252])
    &&& is_tempest_talons_def(s[253])
    &&& is_pack_tactics_def(s[254])
    &&& is_howl_def(s[255])
    &&& is_coordinated_strike_def(s[256])
    &&& is_alphas_command_def(s[257])
    &&& is_moonbeam_def(s[258])
    &&& is_entangle_def(s[259])
    &&& is_archdruid_def(s[260])
    &&& is_spark_bolt_def(s[261])
    &&& is_channel_def(s[262])
    &&& is_surge_wave_def(s[263])
    &&& is_arcane_shield_def(s[264])
    &&& is_wild_surge_def(s[265])
    &&& is_claw_strike_def(s[266])
    &&& is_scale_ward_def(s[267])
    &&& is_draconic_focus_def(s[268])
    &&& is_dragons_resilience_def(s[269])
    &&& is_draconic_bolt_def(s[270])
    &&& is_shadow_bolt_def(s[271])
    &&& is_dark_shroud_def(s[272])
    &&& is_siphon_def(s[273])
    &&& is_night_veil_def(s[274])
    &&& is_umbral_strike_def(s[275])
    &&& is_arcane_pulse_def(s[276])
    &&& is_mana_infusion_def(s[277])
    &&& is_spell_surge_def(s[278])
    &&& is_overload_def(s[279])
    &&& is_volatile_burst_def(s[280])
    &&& is_chain_lightning_def(s[281])
    &&& is_surge_nova_def(s[282])
    &&& is_wild_discharge_def(s[283])
    &&& is_sorcerer_cataclysm_def(s[284])
    &&& is_chaos_bolt_def(s[285])
    &&& is_unraveling_hex_def(s[286])
    &&& is_entropy_cascade_def(s[287])
    &&& is_sorcerer_pandemonium_def(s[288])
    &&& is_dragon_scale_def(s[289])
    &&& is_ancestral_resilience_def(s[290])
    &&& is_scaled_rebuke_def(s[291])
    &&& is_primordial_resilience_def(s[292])
    &&& is_sorcerer_dragons_breath_def(s[293])
    &&& is_draconic_surge_def(s[294])
    &&& is_ancient_power_def(s[295])
    &&& is_dragonfire_ascension_def(s[296])
    &&& is_shadow_tap_def(s[297])
    &&& is_necrotic_siphon_def(s[298])
    &&& is_life_drain_def(s[299])
    &&& is_void_feast_def(s[300])
    &&& is_eternal_hunger_def(s[301])
    &&& is_dread_bolt_def(s[302])
    &&& is_terrorize_def(s[303])
    &&& is_shadow_exploit_def(s[304])
    &&& is_final_nightmare_def(s[305])
    &&& is_sorcerers_apotheosis_def(s[306])
}

/// Every card definition of the content set.
pub fn all_card_defs() -> (r: Vec<CardDef>)
    ensures
        is_shipped_card_defs(r@),
        forall|i: int, j: int| 0 <= i < j < r@.len() ==> (#[trigger] r@[i]).id@ != (#[trigger] r@[j]).id@,
        r@.len() == 307,
        is_strike_def(r@[0]),
        is_defend_def(r@[1]),
        is_wound_def(r@[2]),
        is_barbs_def(r@[3]),
        is_heavy_strike_def(r@[4]),
        is_deft_strike_def(r@[5]),
        is_second_wind_def(r@[6]),
        is_energy_surge_def(r@[7]),
        is_extra_attack_def(r@[8]),
        is_rally_def(r@[9]),
        is_iron_guard_def(r@[10]),
        is_shield_bash_def(r@[11]),
        is_brace_def(r@[12]),
        is_unbreakable_def(r@[13]),
        is_intimidating_blow_def(r@[14]),
        is_reckless_attack_def(r@[15]),
        is_sundering_blow_def(r@[16]),
        is_reaving_strike_def(r@[17]),
        is_measured_strike_def(r@[18]),
        is_sizing_up_def(r@[19]),
        is_calculated_strike_def(r@[20]),
        is_precise_cut_def(r@[21]),
        is_read_and_react_def(r@[22]),
        is_expose_weakness_def(r@[23]),
        is_flurry_of_cuts_def(r@[24]),
        is_feint_def(r@[25]),
        is_patient_strike_def(r@[26]),
        is_perfect_read_def(r@[27]),
        is_riposte_def(r@[28]),
        is_perfect_rhythm_def(r@[29]),
        is_power_strike_def(r@[30]),
        is_quick_slash_def(r@[31]),
        is_vicious_strike_def(r@[32]),
        is_double_strike_def(r@[33]),
        is_brace_for_impact_def(r@[34]),
        is_hold_the_line_def(r@[35]),
        is_taunt_def(r@[36]),
        is_focus_def(r@[37]),
        is_martial_ascendancy_def(r@[38]),
        is_iron_fortress_def(r@[39]),
        is_titans_fury_def(r@[40]),
        is_coup_de_grace_def(r@[41]),
        is_adrenaline_rush_def(r@[42]),
        is_exploit_opening_def(r@[43]),
        is_momentum_def(r@[44]),
        is_improvise_def(r@[45]),
        is_fae_ancestry_def(r@[46]),
        is_blood_price_def(r@[47]),
        is_stonewall_def(r@[48]),
        is_flash_bang_def(r@[49]),
        is_nimble_dodge_def(r@[50]),
        is_savage_charge_def(r@[51]),
        is_shiv_def(r@[52]),
        is_dragon_breath_def(r@[53]),
        is_pounce_def(r@[54]),
        is_brutal_swing_def(r@[55]),
        is_savage_presence_def(r@[56]),
        is_demolish_def(r@[57]),
        is_wrath_of_the_giant_def(r@[58]),
        is_executioners_blow_def(r@[59]),
        is_blood_frenzy_def(r@[60]),
        is_raging_blow_def(r@[61]),
        is_berserk_roar_def(r@[62]),
        is_unleash_fury_def(r@[63]),
        is_deathwish_def(r@[64]),
        is_fortify_def(r@[65]),
        is_entrench_def(r@[66]),
        is_stalwart_defense_def(r@[67]),
        is_shield_wall_def(r@[68]),
        is_aegis_eternal_def(r@[69]),
        is_spiked_armor_def(r@[70]),
        is_retribution_def(r@[71]),
        is_thorned_carapace_def(r@[72]),
        is_barbed_bulwark_def(r@[73]),
        is_wrath_of_thorns_def(r@[74]),
        is_bloodlust_def(r@[75]),
        is_raging_strike_def(r@[76]),
        is_totem_guard_def(r@[77]),
        is_frenzied_slash_def(r@[78]),
        is_battle_fury_def(r@[79]),
        is_thick_skin_def(r@[80]),
        is_primal_surge_def(r@[81]),
        is_undying_rage_def(r@[82]),
        is_blood_offering_def(r@[83]),
        is_fury_unleashed_def(r@[84]),
        is_bloodbath_def(r@[85]),
        is_pain_is_power_def(r@[86]),
        is_berserker_deathwish_def(r@[87]),
        is_wild_swing_def(r@[88]),
        is_berserk_flurry_def(r@[89]),
        is_savage_momentum_def(r@[90]),
        is_unstoppable_def(r@[91]),
        is_rampage_def(r@[92]),
        is_spirit_ward_def(r@[93]),
        is_ancestral_shield_def(r@[94]),
        is_warding_totem_card_def(r@[95]),
        is_fortified_rage_def(r@[96]),
        is_unbreaking_spirit_def(r@[97]),
        is_war_cry_def(r@[98]),
        is_spirit_mend_def(r@[99]),
        is_vengeful_ancestors_def(r@[100]),
        is_totem_of_renewal_def(r@[101]),
        is_ancestors_embrace_def(r@[102]),
        is_desperate_strike_def(r@[103]),
        is_adrenaline_spike_def(r@[104]),
        is_feral_instinct_def(r@[105]),
        is_berserkers_trance_card_def(r@[106]),
        is_deaths_door_def(r@[107]),
        is_flailing_strike_def(r@[108]),
        is_frenzy_card_def(r@[109]),
        is_whirlwind_fury_def(r@[110]),
        is_one_thousand_cuts_def(r@[111]),
        is_inner_peace_def(r@[112]),
        is_centered_strike_def(r@[113]),
        is_swift_footwork_def(r@[114]),
        is_ki_surge_def(r@[115]),
        is_meditation_def(r@[116]),
        is_ki_focus_def(r@[117]),
        is_ki_strike_def(r@[118]),
        is_ki_guard_def(r@[119]),
        is_rapid_strikes_def(r@[120]),
        is_palm_strike_def(r@[121]),
        is_whirlwind_kick_def(r@[122]),
        is_hundred_fists_def(r@[123]),
        is_endless_barrage_def(r@[124]),
        is_focused_strike_def(r@[125]),
        is_ki_shield_def(r@[126]),
        is_ki_channeling_def(r@[127]),
        is_quivering_palm_def(r@[128]),
        is_transcendence_def(r@[129]),
        is_nerve_strike_def(r@[130]),
        is_pressure_point_strike_def(r@[131]),
        is_dim_mak_def(r@[132]),
        is_crippling_blow_def(r@[133]),
        is_weakening_aura_def(r@[134]),
        is_death_touch_def(r@[135]),
        is_shadow_step_def(r@[136]),
        is_deflecting_palm_def(r@[137]),
        is_counter_stance_def(r@[138]),
        is_phantom_form_def(r@[139]),
        is_shadow_kill_def(r@[140]),
        is_stance_shift_def(r@[141]),
        is_tigers_fury_def(r@[142]),
        is_cranes_wing_def(r@[143]),
        is_flowing_water_def(r@[144]),
        is_monk_dragons_breath_def(r@[145]),
        is_perfect_harmony_def(r@[146]),
        is_iron_skin_def(r@[147]),
        is_ki_barrier_def(r@[148]),
        is_stone_body_def(r@[149]),
        is_diamond_soul_def(r@[150]),
        is_fist_of_north_star_def(r@[151]),
        is_eldritch_blast_def(r@[152]),
        is_hex_def(r@[153]),
        is_dark_bargain_def(r@[154]),
        is_maledict_def(r@[155]),
        is_pact_barrier_def(r@[156]),
        is_siphon_bolt_def(r@[157]),
        is_hellbrand_def(r@[158]),
        is_cinder_feast_def(r@[159]),
        is_balefire_cataclysm_def(r@[160]),
        is_blood_tithe_def(r@[161]),
        is_feast_of_cinders_def(r@[162]),
        is_pact_blade_def(r@[163]),
        is_soul_parry_def(r@[164]),
        is_dusk_duel_def(r@[165]),
        is_brand_the_weak_def(r@[166]),
        is_black_oath_def(r@[167]),
        is_void_gaze_def(r@[168]),
        is_starless_whisper_def(r@[169]),
        is_entropy_field_def(r@[170]),
        is_oblivion_tide_def(r@[171]),
        is_cosmic_extinction_def(r@[172]),
        is_holy_strike_def(r@[173]),
        is_lay_on_hands_def(r@[174]),
        is_prayer_of_valor_def(r@[175]),
        is_consecration_def(r@[176]),
        is_divine_bulwark_def(r@[177]),
        is_warding_slash_def(r@[178]),
        is_shield_of_faith_def(r@[179]),
        is_bastion_drive_def(r@[180]),
        is_holy_bastion_def(r@[181]),
        is_avenging_strike_def(r@[182]),
        is_blade_of_wrath_def(r@[183]),
        is_divine_judgment_def(r@[184]),
        is_zealous_rush_def(r@[185]),
        is_radiant_burst_def(r@[186]),
        is_beacon_of_light_def(r@[187]),
        is_solar_flare_def(r@[188]),
        is_dawns_blessing_def(r@[189]),
        is_avatar_of_radiance_def(r@[190]),
        is_tricks_of_the_trade_def(r@[191]),
        is_sneak_attack_def(r@[192]),
        is_cunning_action_def(r@[193]),
        is_rogue_evasion_def(r@[194]),
        is_preparation_def(r@[195]),
        is_assassinate_def(r@[196]),
        is_rogue_shadow_step_def(r@[197]),
        is_death_mark_def(r@[198]),
        is_killing_blow_def(r@[199]),
        is_cutlass_flurry_def(r@[200]),
        is_grappling_hook_def(r@[201]),
        is_dirty_fighting_def(r@[202]),
        is_broadside_def(r@[203]),
        is_smoke_bomb_def(r@[204]),
        is_misdirection_def(r@[205]),
        is_fan_of_knives_def(r@[206]),
        is_ace_in_the_hole_def(r@[207]),
        is_fire_bolt_def(r@[208]),
        is_mage_armor_def(r@[209]),
        is_arcane_intellect_def(r@[210]),
        is_shield_spell_def(r@[211]),
        is_ember_bolt_def(r@[212]),
        is_arcane_ward_def(r@[213]),
        is_prescience_def(r@[214]),
        is_fireball_def(r@[215]),
        is_scorching_ray_def(r@[216]),
        is_lightning_bolt_def(r@[217]),
        is_flame_shield_def(r@[218]),
        is_counterspell_def(r@[219]),
        is_ward_def(r@[220]),
        is_dispel_def(r@[221]),
        is_globe_of_protection_def(r@[222]),
        is_foresight_def(r@[223]),
        is_scrying_def(r@[224]),
        is_portent_def(r@[225]),
        is_time_stop_def(r@[226]),
        is_wish_def(r@[227]),
        is_battle_discipline_def(r@[228]),
        is_studied_analysis_def(r@[229]),
        is_minor_blessing_def(r@[230]),
        is_dirty_trick_def(r@[231]),
        is_commanding_presence_def(r@[232]),
        is_survival_instinct_def(r@[233]),
        is_improvised_weapon_def(r@[234]),
        is_sea_legs_def(r@[235]),
        is_backstab_def(r@[236]),
        is_inner_focus_def(r@[237]),
        is_resourceful_def(r@[238]),
        is_dazzle_def(r@[239]),
        is_wild_shape_bear_def(r@[240]),
        is_wild_shape_eagle_def(r@[241]),
        is_wild_shape_wolf_def(r@[242]),
        is_natures_wrath_def(r@[243]),
        is_bark_skin_def(r@[244]),
        is_rejuvenation_def(r@[245]),
        is_bear_maul_def(r@[246]),
        is_thick_hide_def(r@[247]),
        is_ursine_charge_def(r@[248]),
        is_primal_roar_def(r@[249]),
        is_eagle_dive_def(r@[250]),
        is_swooping_strike_def(r@[251]),
        is_wind_rider_def(r@[252]),
        is_tempest_talons_def(r@[253]),
        is_pack_tactics_def(r@[254]),
        is_howl_def(r@[255]),
        is_coordinated_strike_def(r@[256]),
        is_alphas_command_def(r@[257]),
        is_moonbeam_def(r@[258]),
        is_entangle_def(r@[259]),
        is_archdruid_def(r@[260]),
        is_spark_bolt_def(r@[261]),
        is_channel_def(r@[262]),
        is_surge_wave_def(r@[263]),
        is_arcane_shield_def(r@[264]),
        is_wild_surge_def(r@[265]),
        is_claw_strike_def(r@[266]),
        is_scale_ward_def(r@[267]),
        is_draconic_focus_def(r@[268]),
        is_dragons_resilience_def(r@[269]),
        is_draconic_bolt_def(r@[270]),
        is_shadow_bolt_def(r@[271]),
        is_dark_shroud_def(r@[272]),
        is_siphon_def(r@[273]),
        is_night_veil_def(r@[274]),
        is_umbral_strike_def(r@[275]),
        is_arcane_pulse_def(r@[276]),
        is_mana_infusion_def(r@[277]),
        is_spell_surge_def(r@[278]),
        is_overload_def(r@[279]),
        is_volatile_burst_def(r@[280]),
        is_chain_lightning_def(r@[281]),
        is_surge_nova_def(r@[282]),
        is_wild_discharge_def(r@[283]),
        is_sorcerer_cataclysm_def(r@[284]),
        is_chaos_bolt_def(r@[285]),
        is_unraveling_hex_def(r@[286]),
        is_entropy_cascade_def(r@[287]),
        is_sorcerer_pandemonium_def(r@[288]),
        is_dragon_scale_def(r@[289]),
        is_ancestral_resilience_def(r@[290]),
        is_scaled_rebuke_def(r@[291]),
        is_primordial_resilience_def(r@[292]),
        is_sorcerer_dragons_breath_def(r@[293]),
        is_draconic_surge_def(r@[294]),
        is_ancient_power_def(r@[295]),
        is_dragonfire_ascension_def(r@[296]),
        is_shadow_tap_def(r@[297]),
        is_necrotic_siphon_def(r@[298]),
        is_life_drain_def(r@[299]),
        is_void_feast_def(r@[300]),
        is_eternal_hunger_def(r@[301]),
        is_dread_bolt_def(r@[302]),
        is_terrorize_def(r@[303]),
        is_shadow_exploit_def(r@[304]),
        is_final_nightmare_def(r@[305]),
        is_sorcerers_apotheosis_def(r@[306]),
{
    let r: Vec<CardDef> = vec![
        strike_def(),
        defend_def(),
        wound_def(),
        barbs_def(),
        heavy_strike_def(),
        deft_strike_def(),
        second_wind_def(),
        energy_surge_def(),
        extra_attack_def(),
        rally_def(),
        iron_guard_def(),
        shield_bash_def(),
        brace_def(),
        unbreakable_def(),
        intimidating_blow_def(),
        reckless_attack_def(),
        sundering_blow_def(),
        reaving_strike_def(),
        measured_strike_def(),
        sizing_up_def(),
        calculated_strike_def(),
        precise_cut_def(),
        read_and_react_def(),
        expose_weakness_def(),
        flurry_of_cuts_def(),
        feint_def(),
        patient_strike_def(),
        perfect_read_def(),
        riposte_def(),
        perfect_rhythm_def(),
        power_strike_def(),
        quick_slash_def(),
        vicious_strike_def(),
        double_strike_def(),
        brace_for_impact_def(),
        hold_the_line_def(),
        taunt_def(),
        focus_def(),
        martial_ascendancy_def(),
        iron_fortress_def(),
        titans_fury_def(),
        coup_de_grace_def(),
        adrenaline_rush_def(),
        exploit_opening_def(),
        momentum_def(),
        improvise_def(),
        fae_ancestry_def(),
        blood_price_def(),
        stonewall_def(),
        flash_bang_def(),
        nimble_dodge_def(),
        savage_charge_def(),
        shiv_def(),
        dragon_breath_def(),
        pounce_def(),
        brutal_swing_def(),
        savage_presence_def(),
        demolish_def(),
        wrath_of_the_giant_def(),
        executioners_blow_def(),
        blood_frenzy_def(),
        raging_blow_def(),
        berserk_roar_def(),
        unleash_fury_def(),
        deathwish_def(),
        fortify_def(),
        entrench_def(),
        stalwart_defense_def(),
        shield_wall_def(),
        aegis_eternal_def(),
        spiked_armor_def(),
        retribution_def(),
        thorned_carapace_def(),
        barbed_bulwark_def(),
        wrath_of_thorns_def(),
        bloodlust_def(),
        raging_strike_def(),
        totem_guard_def(),
        frenzied_slash_def(),
        battle_fury_def(),
        thick_skin_def(),
        primal_surge_def(),
        undying_rage_def(),
        blood_offering_def(),
        fury_unleashed_def(),
        bloodbath_def(),
        pain_is_power_def(),
        berserker_deathwish_def(),
        wild_swing_def(),
        berserk_flurry_def(),
        savage_momentum_def(),
        unstoppable_def(),
        rampage_def(),
        spirit_ward_def(),
        ancestral_shield_def(),
        warding_totem_card_def(),
        fortified_rage_def(),
        unbreaking_spirit_def(),
        war_cry_def(),
        spirit_mend_def(),
        vengeful_ancestors_def(),
        totem_of_renewal_def(),
        ancestors_embrace_def(),
        desperate_strike_def(),
        adrenaline_spike_def(),
        feral_instinct_def(),
        berserkers_trance_card_def(),
        deaths_door_def(),
        flailing_strike_def(),
        frenzy_card_def(),
        whirlwind_fury_def(),
        one_thousand_cuts_def(),
        inner_peace_def(),
        centered_strike_def(),
        swift_footwork_def(),
        ki_surge_def(),
        meditation_def(),
        ki_focus_def(),
        ki_strike_def(),
        ki_guard_def(),
        rapid_strikes_def(),
        palm_strike_def(),
        whirlwind_kick_def(),
        hundred_fists_def(),
        endless_barrage_def(),
        focused_strike_def(),
        ki_shield_def(),
        ki_channeling_def(),
        quivering_palm_def(),
        transcendence_def(),
        nerve_strike_def(),
        pressure_point_strike_def(),
        dim_mak_def(),
        crippling_blow_def(),
        weakening_aura_def(),
        death_touch_def(),
        shadow_step_def(),
        deflecting_palm_def(),
        counter_stance_def(),
        phantom_form_def(),
        shadow_kill_def(),
        stance_shift_def(),
        tigers_fury_def(),
        cranes_wing_def(),
        flowing_water_def(),
        monk_dragons_breath_def(),
        perfect_harmony_def(),
        iron_skin_def(),
        ki_barrier_def(),
        stone_body_def(),
        diamond_soul_def(),
        fist_of_north_star_def(),
        eldritch_blast_def(),
        hex_def(),
        dark_bargain_def(),
        maledict_def(),
        pact_barrier_def(),
        siphon_bolt_def(),
        hellbrand_def(),
        cinder_feast_def(),
        balefire_cataclysm_def(),
        blood_tithe_def(),
        feast_of_cinders_def(),
        pact_blade_def(),
        soul_parry_def(),
        dusk_duel_def(),
        brand_the_weak_def(),
        black_oath_def(),
        void_gaze_def(),
        starless_whisper_def(),
        entropy_field_def(),
        oblivion_tide_def(),
        cosmic_extinction_def(),
        holy_strike_def(),
        lay_on_hands_def(),
        prayer_of_valor_def(),
        consecration_def(),
        divine_bulwark_def(),
        warding_slash_def(),
        shield_of_faith_def(),
        bastion_drive_def(),
        holy_bastion_def(),
        avenging_strike_def(),
        blade_of_wrath_def(),
        divine_judgment_def(),
        zealous_rush_def(),
        radiant_burst_def(),
        beacon_of_light_def(),
        solar_flare_def(),
        dawns_blessing_def(),
        avatar_of_radiance_def(),
        tricks_of_the_trade_def(),
        sneak_attack_def(),
        cunning_action_def(),
        rogue_evasion_def(),
        preparation_def(),
        assassinate_def(),
        rogue_shadow_step_def(),
        death_mark_def(),
        killing_blow_def(),
        cutlass_flurry_def(),
        grappling_hook_def(),
        dirty_fighting_def(),
        broadside_def(),
        smoke_bomb_def(),
        misdirection_def(),
        fan_of_knives_def(),
        ace_in_the_hole_def(),
        fire_bolt_def(),
        mage_armor_def(),
        arcane_intellect_def(),
        shield_spell_def(),
        ember_bolt_def(),
        arcane_ward_def(),
        prescience_def(),
        fireball_def(),
        scorching_ray_def(),
        lightning_bolt_def(),
        flame_shield_def(),
        counterspell_def(),
        ward_def(),
        dispel_def(),
        globe_of_protection_def(),
        foresight_def(),
        scrying_def(),
        portent_def(),
        time_stop_def(),
        wish_def(),
        battle_discipline_def(),
        studied_analysis_def(),
        minor_blessing_def(),
        dirty_trick_def(),
        commanding_presence_def(),
        survival_instinct_def(),
        improvised_weapon_def(),
        sea_legs_def(),
        backstab_def(),
        inner_focus_def(),
        resourceful_def(),
        dazzle_def(),
        wild_shape_bear_def(),
        wild_shape_eagle_def(),
        wild_shape_wolf_def(),
        natures_wrath_def(),
        bark_skin_def(),
        rejuvenation_def(),
        bear_maul_def(),
        thick_hide_def(),
        ursine_charge_def(),
        primal_roar_def(),
        eagle_dive_def(),
        swooping_strike_def(),
        wind_rider_def(),
        tempest_talons_def(),
        pack_tactics_def(),
        howl_def(),
        coordinated_strike_def(),
        alphas_command_def(),
        moonbeam_def(),
        entangle_def(),
        archdruid_def(),
        spark_bolt_def(),
        channel_def(),
        surge_wave_def(),
        arcane_shield_def(),
        wild_surge_def(),
        claw_strike_def(),
        scale_ward_def(),
        draconic_focus_def(),
        dragons_resilience_def(),
        draconic_bolt_def(),
        shadow_bolt_def(),
        dark_shroud_def(),
        siphon_def(),
        night_veil_def(),
        umbral_strike_def(),
        arcane_pulse_def(),
        mana_infusion_def(),
        spell_surge_def(),
        overload_def(),
        volatile_burst_def(),
        chain_lightning_def(),
        surge_nova_def(),
        wild_discharge_def(),
        sorcerer_cataclysm_def(),
        chaos_bolt_def(),
        unraveling_hex_def(),
        entropy_cascade_def(),
        sorcerer_pandemonium_def(),
        dragon_scale_def(),
        ancestral_resilience_def(),
        scaled_rebuke_def(),
        primordial_resilience_def(),
        sorcerer_dragons_breath_def(),
        draconic_surge_def(),
        ancient_power_def(),
        dragonfire_ascension_def(),
        shadow_tap_def(),
        necrotic_siphon_def(),
        life_drain_def(),
        void_feast_def(),
        eternal_hunger_def(),
        dread_bolt_def(),
        terrorize_def(),
        shadow_exploit_def(),
        final_nightmare_def(),
        sorcerers_apotheosis_def(),
    ];
    proof {
        reveal(is_shipped_card_defs);
        law_shipped_card_ids_distinct(r@);
    }
    r
}

// ── Race and background cards ───────────────────────────────────────────

/// The races that have a starter card.
pub open spec fn is_known_race(race: Seq<char>) -> bool {
    race == "human"@ || race == "high_elf"@ || race == "dark_elf"@ || race == "dwarf"@ || race == "gnome"@
        || race == "halfling"@ || race == "orc"@ || race == "goblin"@ || race == "dragonkin"@
        || race == "pantheran"@
}

/// The starter card of a known race.
pub open spec fn spec_race_card(race: Seq<char>) -> Seq<char> {
    if race == "human"@ {
        "improvise"@
    } else if race == "high_elf"@ {
        "fae_ancestry"@
    } else if race == "dark_elf"@ {
        "blood_price"@
    } else if race == "dwarf"@ {
        "stonewall"@
    } else if race == "gnome"@ {
        "flash_bang"@
    } else if race == "halfling"@ {
        "nimble_dodge"@
    } else if race == "orc"@ {
        "savage_charge"@
    } else if race == "goblin"@ {
        "shiv"@
    } else if race == "dragonkin"@ {
        "dragon_breath"@
    } else {
        "pounce"@
    }
}

/// Whether two strings hold the same characters.
pub fn str_eq(a: &str, b: &str) -> (r: bool)
    ensures
        r == (a@ == b@),
{
    let n = a.unicode_len();
    if n != b.unicode_len() {
        return false;
    }
    let mut i: usize = 0;
    while i < n
        invariant
            n == a@.len() == b@.len(),
            i <= n,
            forall|j: int| 0 <= j < i ==> a@[j] == b@[j],
        decreases n - i,
    {
        if a.get_char(i) != b.get_char(i) {
            return false;
        }
        i = i + 1;
    }
    proof {
        assert(a@ =~= b@);
    }
    true
}

/// Map a race name to its starter card id.
pub fn race_card_id(race: &str) -> (r: &'static str)
    requires
        is_known_race(race@),
    ensures
        r@ == spec_race_card(race@),
{
    if str_eq(race, "human") {
        "improvise"
    } else if str_eq(race, "high_elf") {
        "fae_ancestry"
    } else if str_eq(race, "dark_elf") {
        "blood_price"
    } else if str_eq(race, "dwarf") {
        "stonewall"
    } else if str_eq(race, "gnome") {
        "flash_bang"
    } else if str_eq(race, "halfling") {
        "nimble_dodge"
    } else if str_eq(race, "orc") {
        "savage_charge"
    } else if str_eq(race, "goblin") {
        "shiv"
    } else if str_eq(race, "dragonkin") {
        "dragon_breath"
    } else {
        "pounce"
    }
}

/// The backgrounds that have a card.
pub open spec fn is_known_background(background: Seq<char>) -> bool {
    background == "soldier"@ || background == "scholar"@ || background == "acolyte"@
        || background == "urchin"@ || background == "noble"@ || background == "outlander"@
        || background == "artisan"@ || background == "sailor"@ || background == "criminal"@
        || background == "hermit"@ || background == "merchant"@ || background == "entertainer"@
}

/// The card of a known background.
pub open spec fn spec_background_card(background: Seq<char>) -> Seq<char> {
    if background == "soldier"@ {
        "battle_discipline"@
    } else if background == "scholar"@ {
        "studied_analysis"@
    } else if background == "acolyte"@ {
        "minor_blessing"@
    } else if background == "urchin"@ {
        "dirty_trick"@
    } else if background == "noble"@ {
        "commanding_presence"@
    } else if background == "outlander"@ {
        "survival_instinct"@
    } else if background == "artisan"@ {
        "improvised_weapon"@
    } else if background == "sailor"@ {
        "sea_legs"@
    } else if background == "criminal"@ {
        "backstab"@
    } else if background == "hermit"@ {
        "inner_focus"@
    } else if background == "merchant"@ {
        "resourceful"@
    } else {
        "dazzle"@
    }
}

/// Map a background id to its card id.
pub fn background_card_id(background: &str) -> (r: &'static str)
    requires
        is_known_background(background@),
    ensures
        r@ == spec_background_card(background@),
{
    if str_eq(background, "soldier") {
        "battle_discipline"
    } else if str_eq(background, "scholar") {
        "studied_analysis"
    } else if str_eq(background, "acolyte") {
        "minor_blessing"
    } else if str_eq(background, "urchin") {
        "dirty_trick"
    } else if str_eq(background, "noble") {
        "commanding_presence"
    } else if str_eq(background, "outlander") {
        "survival_instinct"
    } else if str_eq(background, "artisan") {
        "improvised_weapon"
    } else if str_eq(background, "sailor") {
        "sea_legs"
    } else if str_eq(background, "criminal") {
        "backstab"
    } else if str_eq(background, "hermit") {
        "inner_focus"
    } else if str_eq(background, "merchant") {
        "resourceful"
    } else {
        "dazzle"
    }
}

// ── Progression table ───────────────────────────────────────────────────

/// Whether the temporary overpowered reward card is offered in reward
/// pools (a training-only switch, off).
pub const OP_TEST_CARD_ENABLED: bool = false;

/// How a card is obtained during a run.
#[derive(Debug, Clone, Copy, PartialEq, Eq, Structural)]
pub enum Acquisition {
    /// Given directly when the unlock level is reached.
    AutoGrant,
    /// Appears in the pick-one-of-three reward pool.
    Pool,
    /// Both: auto-granted and available in the reward pool.
    Both,
}

/// A single entry in the progression table.
#[derive(Debug)]
pub struct ProgressionEntry {
    pub card_id: &'static str,
    pub subclasses: Vec<&'static str>,
    pub unlock_level: u32,
    pub acquisition: Acquisition,
    /// Optional synergy group (e.g. "marked", "tempo"); `None` means
    /// neutral, kept whatever the synergy filter.
    pub synergy: Option<&'static str>,
    /// Number of copies granted (for AutoGrant/Both).
    pub count: u32,
}

/// An entry as plain values: card id, sub-classes, unlock level,
/// acquisition, synergy group and count.
pub type EntryView = (Seq<char>, Seq<Seq<char>>, u32, Acquisition, Option<Seq<char>>, u32);

/// The views of a list of static strings.
pub open spec fn strs_view(v: Seq<&'static str>) -> Seq<Seq<char>> {
    v.map_values(|s: &'static str| s@)
}

/// The view of an optional static string.
pub open spec fn opt_strs_view(o: Option<&str>) -> Option<Seq<char>> {
    match o {
        Some(s) => Some(s@),
        None => None,
    }
}

impl View for ProgressionEntry {
    type V = EntryView;

    open spec fn view(&self) -> EntryView {
        (self.card_id@, strs_view(self.subclasses@), self.unlock_level, self.acquisition, opt_strs_view(self.synergy), self.count)
    }
}

/// The views of a list of entries.
pub open spec fn entries_view(es: Seq<ProgressionEntry>) -> Seq<EntryView> {
    es.map_values(|e: ProgressionEntry| e@)
}

fn entry(
    card_id: &'static str,
    subclasses: Vec<&'static str>,
    unlock_level: u32,
    acquisition: Acquisition,
    synergy: Option<&'static str>,
    count: u32,
) -> (r: ProgressionEntry)
    ensures
        r@ == (card_id@, strs_view(subclasses@), unlock_level, acquisition, opt_strs_view(synergy), count),
{
    ProgressionEntry { card_id, subclasses, unlock_level, acquisition, synergy, count }
}

/// Entries 0 to 31 of the progression table.
#[verifier::opaque]
pub open spec fn spec_progression_part_0() -> Seq<EntryView> {
    seq![
        ("barbs"@, seq!["defense"@], 1u32, Acquisition::Pool, None, 1u32),
        ("heavy_strike"@, seq!["two_handed"@], 1u32, Acquisition::Pool, None, 1u32),
        ("quick_slash"@, seq!["defense"@, "two_handed"@, "dueling"@], 1u32, Acquisition::Pool, None, 1u32),
        ("double_strike"@, seq!["defense"@, "two_handed"@, "dueling"@], 1u32, Acquisition::Pool, None, 1u32),
        ("brace_for_impact"@, seq!["defense"@, "two_handed"@, "dueling"@], 1u32, Acquisition::Pool, None, 1u32),
        ("focus"@, seq!["defense"@, "two_handed"@, "dueling"@], 1u32, Acquisition::Pool, None, 1u32),
        ("hold_the_line"@, seq!["defense"@, "two_handed"@], 1u32, Acquisition::Pool, None, 1u32),
        ("taunt"@, seq!["defense"@, "two_handed"@], 1u32, Acquisition::Pool, None, 1u32),
        ("energy_surge"@, seq!["defense"@, "two_handed"@, "dueling"@], 2u32, Acquisition::AutoGrant, None, 1u32),
        ("extra_attack"@, seq!["defense"@, "two_handed"@, "dueling"@], 4u32, Acquisition::AutoGrant, None, 1u32),
        ("adrenaline_rush"@, seq!["defense"@, "two_handed"@, "dueling"@], 6u32, Acquisition::AutoGrant, None, 1u32),
        ("rally"@, seq!["defense"@, "two_handed"@, "dueling"@], 7u32, Acquisition::AutoGrant, None, 1u32),
        ("deft_strike"@, seq!["dueling"@], 3u32, Acquisition::AutoGrant, None, 2u32),
        ("measured_strike"@, seq!["dueling"@], 3u32, Acquisition::Pool, Some("marked"@), 1u32),
        ("feint"@, seq!["dueling"@], 3u32, Acquisition::Pool, Some("tempo"@), 1u32),
        ("iron_guard"@, seq!["defense"@], 3u32, Acquisition::AutoGrant, None, 1u32),
        ("shield_bash"@, seq!["defense"@], 6u32, Acquisition::AutoGrant, None, 1u32),
        ("brace"@, seq!["defense"@], 9u32, Acquisition::AutoGrant, None, 1u32),
        ("unbreakable"@, seq!["defense"@], 11u32, Acquisition::AutoGrant, None, 1u32),
        ("fortify"@, seq!["defense"@], 3u32, Acquisition::Pool, Some("bulwark"@), 1u32),
        ("entrench"@, seq!["defense"@], 5u32, Acquisition::Pool, Some("bulwark"@), 1u32),
        ("stalwart_defense"@, seq!["defense"@], 7u32, Acquisition::Pool, Some("bulwark"@), 1u32),
        ("shield_wall"@, seq!["defense"@], 9u32, Acquisition::Pool, Some("bulwark"@), 1u32),
        ("aegis_eternal"@, seq!["defense"@], 11u32, Acquisition::Pool, Some("bulwark"@), 1u32),
        ("spiked_armor"@, seq!["defense"@], 3u32, Acquisition::Pool, Some("reprisal"@), 1u32),
        ("retribution"@, seq!["defense"@], 5u32, Acquisition::Pool, Some("reprisal"@), 1u32),
        ("thorned_carapace"@, seq!["defense"@], 7u32, Acquisition::Pool, Some("reprisal"@), 1u32),
        ("barbed_bulwark"@, seq!["defense"@], 9u32, Acquisition::Pool, Some("reprisal"@), 1u32),
        ("wrath_of_thorns"@, seq!["defense"@], 11u32, Acquisition::Pool, Some("reprisal"@), 1u32),
        ("intimidating_blow"@, seq!["two_handed"@], 3u32, Acquisition::AutoGrant, None, 1u32),
        ("reckless_attack"@, seq!["two_handed"@], 6u32, Acquisition::AutoGrant, None, 1u32),
        ("sundering_blow"@, seq!["two_handed"@], 9u32, Acquisition::AutoGrant, None, 1u32),
    ]
}

fn progression_part_0() -> (r: Vec<ProgressionEntry>)
    ensures
        entries_view(r@) == spec_progression_part_0(),
        spec_progression_part_0().len() == 32,
{
    let r: Vec<ProgressionEntry> = vec![
        entry("barbs", vec!["defense"], 1, Acquisition::Pool, None, 1),
        entry("heavy_strike", vec!["two_handed"], 1, Acquisition::Pool, None, 1),
        entry("quick_slash", vec!["defense", "two_handed", "dueling"], 1, Acquisition::Pool, None, 1),
        entry("double_strike", vec!["defense", "two_handed", "dueling"], 1, Acquisition::Pool, None, 1),
        entry("brace_for_impact", vec!["defense", "two_handed", "dueling"], 1, Acquisition::Pool, None, 1),
        entry("focus", vec!["defense", "two_handed", "dueling"], 1, Acquisition::Pool, None, 1),
        entry("hold_the_line", vec!["defense", "two_handed"], 1, Acquisition::Pool, None, 1),
        entry("taunt", vec!["defense", "two_handed"], 1, Acquisition::Pool, None, 1),
        entry("energy_surge", vec!["defense", "two_handed", "dueling"], 2, Acquisition::AutoGrant, None, 1),
        entry("extra_attack", vec!["defense", "two_handed", "dueling"], 4, Acquisition::AutoGrant, None, 1),
        entry("adrenaline_rush", vec!["defense", "two_handed", "dueling"], 6, Acquisition::AutoGrant, None, 1),
        entry("rally", vec!["defense", "two_handed", "dueling"], 7, Acquisition::AutoGrant, None, 1),
        entry("deft_strike", vec!["dueling"], 3, Acquisition::AutoGrant, None, 2),
        entry("measured_strike", vec!["dueling"], 3, Acquisition::Pool, Some("marked"), 1),
        entry("feint", vec!["dueling"], 3, Acquisition::Pool, Some("tempo"), 1),
        entry("iron_guard", vec!["defense"], 3, Acquisition::AutoGrant, None, 1),
        entry("shield_bash", vec!["defense"], 6, Acquisition::AutoGrant, None, 1),
        entry("brace", vec!["defense"], 9, Acquisition::AutoGrant, None, 1),
        entry("unbreakable", vec!["defense"], 11, Acquisition::AutoGrant, None, 1),
        entry("fortify", vec!["defense"], 3, Acquisition::Pool, Some("bulwark"), 1),
        entry("entrench", vec!["defense"], 5, Acquisition::Pool, Some("bulwark"), 1),
        entry("stalwart_defense", vec!["defense"], 7, Acquisition::Pool, Some("bulwark"), 1),
        entry("shield_wall", vec!["defense"], 9, Acquisition::Pool, Some("bulwark"), 1),
        entry("aegis_eternal", vec!["defense"], 11, Acquisition::Pool, Some("bulwark"), 1),
        entry("spiked_armor", vec!["defense"], 3, Acquisition::Pool, Some("reprisal"), 1),
        entry("retribution", vec!["defense"], 5, Acquisition::Pool, Some("reprisal"), 1),
        entry("thorned_carapace", vec!["defense"], 7, Acquisition::Pool, Some("reprisal"), 1),
        entry("barbed_bulwark", vec!["defense"], 9, Acquisition::Pool, Some("reprisal"), 1),
        entry("wrath_of_thorns", vec!["defense"], 11, Acquisition::Pool, Some("reprisal"), 1),
        entry("intimidating_blow", vec!["two_handed"], 3, Acquisition::AutoGrant, None, 1),
        entry("reckless_attack", vec!["two_handed"], 6, Acquisition::AutoGrant, None, 1),
        entry("sundering_blow", vec!["two_handed"], 9, Acquisition::AutoGrant, None, 1),
    ];
    proof {
        reveal(spec_progression_part_0);
        assert(entries_view(r@) =~~= spec_progression_part_0());
    }
    r
}

/// Entries 32 to 63 of the progression table.
#[verifier::opaque]
pub open spec fn spec_progression_part_1() -> Seq<EntryView> {
    seq![
        ("reaving_strike"@, seq!["two_handed"@], 11u32, Acquisition::AutoGrant, None, 1u32),
        ("brutal_swing"@, seq!["two_handed"@], 3u32, Acquisition::Pool, Some("crusher"@), 1u32),
        ("savage_presence"@, seq!["two_handed"@], 5u32, Acquisition::Pool, Some("crusher"@), 1u32),
        ("demolish"@, seq!["two_handed"@], 7u32, Acquisition::Pool, Some("crusher"@), 1u32),
        ("wrath_of_the_giant"@, seq!["two_handed"@], 9u32, Acquisition::Pool, Some("crusher"@), 1u32),
        ("executioners_blow"@, seq!["two_handed"@], 11u32, Acquisition::Pool, Some("crusher"@), 1u32),
        ("blood_frenzy"@, seq!["two_handed"@], 3u32, Acquisition::Pool, Some("berserker"@), 1u32),
        ("raging_blow"@, seq!["two_handed"@], 5u32, Acquisition::Pool, Some("berserker"@), 1u32),
        ("berserk_roar"@, seq!["two_handed"@], 7u32, Acquisition::Pool, Some("berserker"@), 1u32),
        ("unleash_fury"@, seq!["two_handed"@], 9u32, Acquisition::Pool, Some("berserker"@), 1u32),
        ("deathwish"@, seq!["two_handed"@], 11u32, Acquisition::Pool, Some("berserker"@), 1u32),
        ("riposte"@, seq!["dueling"@], 5u32, Acquisition::Pool, Some("marked"@), 1u32),
        ("read_and_react"@, seq!["dueling"@], 5u32, Acquisition::Pool, Some("tempo"@), 1u32),
        ("flurry_of_cuts"@, seq!["dueling"@], 7u32, Acquisition::Pool, Some("tempo"@), 1u32),
        ("exploit_opening"@, seq!["dueling"@], 9u32, Acquisition::Pool, Some("marked"@), 1u32),
        ("momentum"@, seq!["dueling"@], 9u32, Acquisition::Pool, Some("tempo"@), 1u32),
        ("coup_de_grace"@, seq!["dueling"@], 11u32, Acquisition::Pool, Some("marked"@), 1u32),
        ("perfect_rhythm"@, seq!["dueling"@], 11u32, Acquisition::Pool, Some("tempo"@), 1u32),
        ("iron_fortress"@, seq!["defense"@], 12u32, Acquisition::AutoGrant, None, 1u32),
        ("titans_fury"@, seq!["two_handed"@], 12u32, Acquisition::AutoGrant, None, 1u32),
        ("perfect_read"@, seq!["dueling"@], 12u32, Acquisition::AutoGrant, None, 1u32),
        ("battle_fury"@, seq!["berserker"@, "totem_warrior"@, "frenzy"@], 2u32, Acquisition::AutoGrant, None, 1u32),
        ("thick_skin"@, seq!["berserker"@, "totem_warrior"@, "frenzy"@], 4u32, Acquisition::AutoGrant, None, 1u32),
        ("primal_surge"@, seq!["berserker"@, "totem_warrior"@, "frenzy"@], 6u32, Acquisition::AutoGrant, None, 1u32),
        ("undying_rage"@, seq!["berserker"@, "totem_warrior"@, "frenzy"@], 7u32, Acquisition::AutoGrant, None, 1u32),
        ("raging_strike"@, seq!["berserker"@], 1u32, Acquisition::Pool, None, 1u32),
        ("totem_guard"@, seq!["totem_warrior"@], 1u32, Acquisition::Pool, None, 1u32),
        ("frenzied_slash"@, seq!["frenzy"@], 1u32, Acquisition::Pool, None, 1u32),
        ("blood_offering"@, seq!["berserker"@], 3u32, Acquisition::Pool, Some("bloodrage"@), 1u32),
        ("fury_unleashed"@, seq!["berserker"@], 5u32, Acquisition::Pool, Some("bloodrage"@), 1u32),
        ("bloodbath"@, seq!["berserker"@], 7u32, Acquisition::Pool, Some("bloodrage"@), 1u32),
        ("pain_is_power"@, seq!["berserker"@], 9u32, Acquisition::Pool, Some("bloodrage"@), 1u32),
    ]
}

fn progression_part_1() -> (r: Vec<ProgressionEntry>)
    ensures
        entries_view(r@) == spec_progression_part_1(),
        spec_progression_part_1().len() == 32,
{
    let r: Vec<ProgressionEntry> = vec![
        entry("reaving_strike", vec!["two_handed"], 11, Acquisition::AutoGrant, None, 1),
        entry("brutal_swing", vec!["two_handed"], 3, Acquisition::Pool, Some("crusher"), 1),
        entry("savage_presence", vec!["two_handed"], 5, Acquisition::Pool, Some("crusher"), 1),
        entry("demolish", vec!["two_handed"], 7, Acquisition::Pool, Some("crusher"), 1),
        entry("wrath_of_the_giant", vec!["two_handed"], 9, Acquisition::Pool, Some("crusher"), 1),
        entry("executioners_blow", vec!["two_handed"], 11, Acquisition::Pool, Some("crusher"), 1),
        entry("blood_frenzy", vec!["two_handed"], 3, Acquisition::Pool, Some("berserker"), 1),
        entry("raging_blow", vec!["two_handed"], 5, Acquisition::Pool, Some("berserker"), 1),
        entry("berserk_roar", vec!["two_handed"], 7, Acquisition::Pool, Some("berserker"), 1),
        entry("unleash_fury", vec!["two_handed"], 9, Acquisition::Pool, Some("berserker"), 1),
        entry("deathwish", vec!["two_handed"], 11, Acquisition::Pool, Some("berserker"), 1),
        entry("riposte", vec!["dueling"], 5, Acquisition::Pool, Some("marked"), 1),
        entry("read_and_react", vec!["dueling"], 5, Acquisition::Pool, Some("tempo"), 1),
        entry("flurry_of_cuts", vec!["dueling"], 7, Acquisition::Pool, Some("tempo"), 1),
        entry("exploit_opening", vec!["dueling"], 9, Acquisition::Pool, Some("marked"), 1),
        entry("momentum", vec!["dueling"], 9, Acquisition::Pool, Some("tempo"), 1),
        entry("coup_de_grace", vec!["dueling"], 11, Acquisition::Pool, Some("marked"), 1),
        entry("perfect_rhythm", vec!["dueling"], 11, Acquisition::Pool, Some("tempo"), 1),
        entry("iron_fortress", vec!["defense"], 12, Acquisition::AutoGrant, None, 1),
        entry("titans_fury", vec!["two_handed"], 12, Acquisition::AutoGrant, None, 1),
        entry("perfect_read", vec!["dueling"], 12, Acquisition::AutoGrant, None, 1),
        entry("battle_fury", vec!["berserker", "totem_warrior", "frenzy"], 2, Acquisition::AutoGrant, None, 1),
        entry("thick_skin", vec!["berserker", "totem_warrior", "frenzy"], 4, Acquisition::AutoGrant, None, 1),
        entry("primal_surge", vec!["berserker", "totem_warrior", "frenzy"], 6, Acquisition::AutoGrant, None, 1),
        entry("undying_rage", vec!["berserker", "totem_warrior", "frenzy"], 7, Acquisition::AutoGrant, None, 1),
        entry("raging_strike", vec!["berserker"], 1, Acquisition::Pool, None, 1),
        entry("totem_guard", vec!["totem_warrior"], 1, Acquisition::Pool, None, 1),
        entry("frenzied_slash", vec!["frenzy"], 1, Acquisition::Pool, None, 1),
        entry("blood_offering", vec!["berserker"], 3, Acquisition::Pool, Some("bloodrage"), 1),
        entry("fury_unleashed", vec!["berserker"], 5, Acquisition::Pool, Some("bloodrage"), 1),
        entry("bloodbath", vec!["berserker"], 7, Acquisition::Pool, Some("bloodrage"), 1),
        entry("pain_is_power", vec!["berserker"], 9, Acquisition::Pool, Some("bloodrage"), 1),
    ];
    proof {
        reveal(spec_progression_part_1);
        assert(entries_view(r@) =~~= spec_progression_part_1());
    }
    r
}

/// Entries 64 to 95 of the progression table.
#[verifier::opaque]
pub open spec fn spec_progression_part_2() -> Seq<EntryView> {
    seq![
        ("berserker_deathwish"@, seq!["berserker"@], 11u32, Acquisition::Pool, Some("bloodrage"@), 1u32),
        ("wild_swing"@, seq!["berserker"@], 3u32, Acquisition::Pool, Some("rampage"@), 1u32),
        ("berserk_flurry"@, seq!["berserker"@], 5u32, Acquisition::Pool, Some("rampage"@), 1u32),
        ("savage_momentum"@, seq!["berserker"@], 7u32, Acquisition::Pool, Some("rampage"@), 1u32),
        ("unstoppable"@, seq!["berserker"@], 9u32, Acquisition::Pool, Some("rampage"@), 1u32),
        ("rampage"@, seq!["berserker"@], 11u32, Acquisition::Pool, Some("rampage"@), 1u32),
        ("spirit_ward"@, seq!["totem_warrior"@], 3u32, Acquisition::Pool, Some("spirit_shield"@), 1u32),
        ("ancestral_shield"@, seq!["totem_warrior"@], 5u32, Acquisition::Pool, Some("spirit_shield"@), 1u32),
        ("fortified_rage"@, seq!["totem_warrior"@], 7u32, Acquisition::Pool, Some("spirit_shield"@), 1u32),
        ("warding_totem_card"@, seq!["totem_warrior"@], 9u32, Acquisition::Pool, Some("spirit_shield"@), 1u32),
        ("unbreaking_spirit"@, seq!["totem_warrior"@], 11u32, Acquisition::Pool, Some("spirit_shield"@), 1u32),
        ("war_cry"@, seq!["totem_warrior"@], 3u32, Acquisition::Pool, Some("ancestral"@), 1u32),
        ("spirit_mend"@, seq!["totem_warrior"@], 5u32, Acquisition::Pool, Some("ancestral"@), 1u32),
        ("vengeful_ancestors"@, seq!["totem_warrior"@], 7u32, Acquisition::Pool, Some("ancestral"@), 1u32),
        ("totem_of_renewal"@, seq!["totem_warrior"@], 9u32, Acquisition::Pool, Some("ancestral"@), 1u32),
        ("ancestors_embrace"@, seq!["totem_warrior"@], 11u32, Acquisition::Pool, Some("ancestral"@), 1u32),
        ("desperate_strike"@, seq!["frenzy"@], 3u32, Acquisition::Pool, Some("adrenaline"@), 1u32),
        ("adrenaline_spike"@, seq!["frenzy"@], 5u32, Acquisition::Pool, Some("adrenaline"@), 1u32),
        ("feral_instinct"@, seq!["frenzy"@], 7u32, Acquisition::Pool, Some("adrenaline"@), 1u32),
        ("berserkers_trance_card"@, seq!["frenzy"@], 9u32, Acquisition::Pool, Some("adrenaline"@), 1u32),
        ("deaths_door"@, seq!["frenzy"@], 11u32, Acquisition::Pool, Some("adrenaline"@), 1u32),
        ("flailing_strike"@, seq!["frenzy"@], 3u32, Acquisition::Pool, Some("overwhelm"@), 1u32),
        ("frenzy_card"@, seq!["frenzy"@], 5u32, Acquisition::Pool, Some("overwhelm"@), 1u32),
        ("whirlwind_fury"@, seq!["frenzy"@], 7u32, Acquisition::Pool, Some("overwhelm"@), 1u32),
        ("one_thousand_cuts"@, seq!["frenzy"@], 11u32, Acquisition::Pool, Some("overwhelm"@), 1u32),
        ("ki_focus"@, seq!["open_hand"@, "way_of_shadow"@, "iron_fist"@], 1u32, Acquisition::Pool, None, 1u32),
        ("ki_strike"@, seq!["open_hand"@, "way_of_shadow"@, "iron_fist"@], 1u32, Acquisition::Pool, None, 1u32),
        ("ki_guard"@, seq!["open_hand"@, "way_of_shadow"@, "iron_fist"@], 1u32, Acquisition::Pool, None, 1u32),
        ("centered_strike"@, seq!["open_hand"@, "way_of_shadow"@, "iron_fist"@], 2u32, Acquisition::AutoGrant, None, 1u32),
        ("swift_footwork"@, seq!["open_hand"@, "way_of_shadow"@, "iron_fist"@], 4u32, Acquisition::AutoGrant, None, 1u32),
        ("ki_surge"@, seq!["open_hand"@, "way_of_shadow"@, "iron_fist"@], 6u32, Acquisition::AutoGrant, None, 1u32),
        ("meditation"@, seq!["open_hand"@, "way_of_shadow"@, "iron_fist"@], 7u32, Acquisition::AutoGrant, None, 1u32),
    ]
}

fn progression_part_2() -> (r: Vec<ProgressionEntry>)
    ensures
        entries_view(r@) == spec_progression_part_2(),
        spec_progression_part_2().len() == 32,
{
    let r: Vec<ProgressionEntry> = vec![
        entry("berserker_deathwish", vec!["berserker"], 11, Acquisition::Pool, Some("bloodrage"), 1),
        entry("wild_swing", vec!["berserker"], 3, Acquisition::Pool, Some("rampage"), 1),
        entry("berserk_flurry", vec!["berserker"], 5, Acquisition::Pool, Some("rampage"), 1),
        entry("savage_momentum", vec!["berserker"], 7, Acquisition::Pool, Some("rampage"), 1),
        entry("unstoppable", vec!["berserker"], 9, Acquisition::Pool, Some("rampage"), 1),
        entry("rampage", vec!["berserker"], 11, Acquisition::Pool, Some("rampage"), 1),
        entry("spirit_ward", vec!["totem_warrior"], 3, Acquisition::Pool, Some("spirit_shield"), 1),
        entry("ancestral_shield", vec!["totem_warrior"], 5, Acquisition::Pool, Some("spirit_shield"), 1),
        entry("fortified_rage", vec!["totem_warrior"], 7, Acquisition::Pool, Some("spirit_shield"), 1),
        entry("warding_totem_card", vec!["totem_warrior"], 9, Acquisition::Pool, Some("spirit_shield"), 1),
        entry("unbreaking_spirit", vec!["totem_warrior"], 11, Acquisition::Pool, Some("spirit_shield"), 1),
        entry("war_cry", vec!["totem_warrior"], 3, Acquisition::Pool, Some("ancestral"), 1),
        entry("spirit_mend", vec!["totem_warrior"], 5, Acquisition::Pool, Some("ancestral"), 1),
        entry("vengeful_ancestors", vec!["totem_warrior"], 7, Acquisition::Pool, Some("ancestral"), 1),
        entry("totem_of_renewal", vec!["totem_warrior"], 9, Acquisition::Pool, Some("ancestral"), 1),
        entry("ancestors_embrace", vec!["totem_warrior"], 11, Acquisition::Pool, Some("ancestral"), 1),
        entry("desperate_strike", vec!["frenzy"], 3, Acquisition::Pool, Some("adrenaline"), 1),
        entry("adrenaline_spike", vec!["frenzy"], 5, Acquisition::Pool, Some("adrenaline"), 1),
        entry("feral_instinct", vec!["frenzy"], 7, Acquisition::Pool, Some("adrenaline"), 1),
        entry("berserkers_trance_card", vec!["frenzy"], 9, Acquisition::Pool, Some("adrenaline"), 1),
        entry("deaths_door", vec!["frenzy"], 11, Acquisition::Pool, Some("adrenaline"), 1),
        entry("flailing_strike", vec!["frenzy"], 3, Acquisition::Pool, Some("overwhelm"), 1),
        entry("frenzy_card", vec!["frenzy"], 5, Acquisition::Pool, Some("overwhelm"), 1),
        entry("whirlwind_fury", vec!["frenzy"], 7, Acquisition::Pool, Some("overwhelm"), 1),
        entry("one_thousand_cuts", vec!["frenzy"], 11, Acquisition::Pool, Some("overwhelm"), 1),
        entry("ki_focus", vec!["open_hand", "way_of_shadow", "iron_fist"], 1, Acquisition::Pool, None, 1),
        entry("ki_strike", vec!["open_hand", "way_of_shadow", "iron_fist"], 1, Acquisition::Pool, None, 1),
        entry("ki_guard", vec!["open_hand", "way_of_shadow", "iron_fist"], 1, Acquisition::Pool, None, 1),
        entry("centered_strike", vec!["open_hand", "way_of_shadow", "iron_fist"], 2, Acquisition::AutoGrant, None, 1),
        entry("swift_footwork", vec!["open_hand", "way_of_shadow", "iron_fist"], 4, Acquisition::AutoGrant, None, 1),
        entry("ki_surge", vec!["open_hand", "way_of_shadow", "iron_fist"], 6, Acquisition::AutoGrant, None, 1),
        entry("meditation", vec!["open_hand", "way_of_shadow", "iron_fist"], 7, Acquisition::AutoGrant, None, 1),
    ];
    proof {
        reveal(spec_progression_part_2);
        assert(entries_view(r@) =~~= spec_progression_part_2());
    }
    r
}

/// Entries 96 to 127 of the progression table.
#[verifier::opaque]
pub open spec fn spec_progression_part_3() -> Seq<EntryView> {
    seq![
        ("rapid_strikes"@, seq!["open_hand"@], 3u32, Acquisition::AutoGrant, None, 2u32),
        ("palm_strike"@, seq!["open_hand"@], 3u32, Acquisition::Pool, Some("flurry"@), 1u32),
        ("focused_strike"@, seq!["open_hand"@], 3u32, Acquisition::Pool, Some("ki_burst"@), 1u32),
        ("whirlwind_kick"@, seq!["open_hand"@], 5u32, Acquisition::Pool, Some("flurry"@), 1u32),
        ("ki_shield"@, seq!["open_hand"@], 5u32, Acquisition::Pool, Some("ki_burst"@), 1u32),
        ("hundred_fists"@, seq!["open_hand"@], 7u32, Acquisition::Pool, Some("flurry"@), 1u32),
        ("ki_channeling"@, seq!["open_hand"@], 7u32, Acquisition::Pool, Some("ki_burst"@), 1u32),
        ("endless_barrage"@, seq!["open_hand"@], 11u32, Acquisition::Pool, Some("flurry"@), 1u32),
        ("quivering_palm"@, seq!["open_hand"@], 11u32, Acquisition::Pool, Some("ki_burst"@), 1u32),
        ("transcendence"@, seq!["open_hand"@], 12u32, Acquisition::AutoGrant, None, 1u32),
        ("nerve_strike"@, seq!["way_of_shadow"@], 3u32, Acquisition::AutoGrant, None, 2u32),
        ("pressure_point_strike"@, seq!["way_of_shadow"@], 3u32, Acquisition::Pool, Some("pressure_point"@), 1u32),
        ("shadow_step"@, seq!["way_of_shadow"@], 3u32, Acquisition::Pool, Some("evasion"@), 1u32),
        ("dim_mak"@, seq!["way_of_shadow"@], 5u32, Acquisition::Pool, Some("pressure_point"@), 1u32),
        ("deflecting_palm"@, seq!["way_of_shadow"@], 5u32, Acquisition::Pool, Some("evasion"@), 1u32),
        ("crippling_blow"@, seq!["way_of_shadow"@], 7u32, Acquisition::Pool, Some("pressure_point"@), 1u32),
        ("counter_stance"@, seq!["way_of_shadow"@], 7u32, Acquisition::Pool, Some("evasion"@), 1u32),
        ("weakening_aura"@, seq!["way_of_shadow"@], 9u32, Acquisition::Pool, Some("pressure_point"@), 1u32),
        ("death_touch"@, seq!["way_of_shadow"@], 11u32, Acquisition::Pool, Some("pressure_point"@), 1u32),
        ("phantom_form"@, seq!["way_of_shadow"@], 11u32, Acquisition::Pool, Some("evasion"@), 1u32),
        ("shadow_kill"@, seq!["way_of_shadow"@], 12u32, Acquisition::AutoGrant, None, 1u32),
        ("stance_shift"@, seq!["iron_fist"@], 3u32, Acquisition::AutoGrant, None, 2u32),
        ("tigers_fury"@, seq!["iron_fist"@], 3u32, Acquisition::Pool, Some("stance_flow"@), 1u32),
        ("cranes_wing"@, seq!["iron_fist"@], 3u32, Acquisition::Pool, Some("stance_flow"@), 1u32),
        ("iron_skin"@, seq!["iron_fist"@], 3u32, Acquisition::Pool, Some("iron_will"@), 1u32),
        ("flowing_water"@, seq!["iron_fist"@], 5u32, Acquisition::Pool, Some("stance_flow"@), 1u32),
        ("ki_barrier"@, seq!["iron_fist"@], 5u32, Acquisition::Pool, Some("iron_will"@), 1u32),
        ("monk_dragons_breath"@, seq!["iron_fist"@], 7u32, Acquisition::Pool, Some("stance_flow"@), 1u32),
        ("stone_body"@, seq!["iron_fist"@], 7u32, Acquisition::Pool, Some("iron_will"@), 1u32),
        ("perfect_harmony"@, seq!["iron_fist"@], 11u32, Acquisition::Pool, Some("stance_flow"@), 1u32),
        ("diamond_soul"@, seq!["iron_fist"@], 11u32, Acquisition::Pool, Some("iron_will"@), 1u32),
        ("fist_of_north_star"@, seq!["iron_fist"@], 12u32, Acquisition::AutoGrant, None, 1u32),
    ]
}

fn progression_part_3() -> (r: Vec<ProgressionEntry>)
    ensures
        entries_view(r@) == spec_progression_part_3(),
        spec_progression_part_3().len() == 32,
{
    let r: Vec<ProgressionEntry> = vec![
        entry("rapid_strikes", vec!["open_hand"], 3, Acquisition::AutoGrant, None, 2),
        entry("palm_strike", vec!["open_hand"], 3, Acquisition::Pool, Some("flurry"), 1),
        entry("focused_strike", vec!["open_hand"], 3, Acquisition::Pool, Some("ki_burst"), 1),
        entry("whirlwind_kick", vec!["open_hand"], 5, Acquisition::Pool, Some("flurry"), 1),
        entry("ki_shield", vec!["open_hand"], 5, Acquisition::Pool, Some("ki_burst"), 1),
        entry("hundred_fists", vec!["open_hand"], 7, Acquisition::Pool, Some("flurry"), 1),
        entry("ki_channeling", vec!["open_hand"], 7, Acquisition::Pool, Some("ki_burst"), 1),
        entry("endless_barrage", vec!["open_hand"], 11, Acquisition::Pool, Some("flurry"), 1),
        entry("quivering_palm", vec!["open_hand"], 11, Acquisition::Pool, Some("ki_burst"), 1),
        entry("transcendence", vec!["open_hand"], 12, Acquisition::AutoGrant, None, 1),
        entry("nerve_strike", vec!["way_of_shadow"], 3, Acquisition::AutoGrant, None, 2),
        entry("pressure_point_strike", vec!["way_of_shadow"], 3, Acquisition::Pool, Some("pressure_point"), 1),
        entry("shadow_step", vec!["way_of_shadow"], 3, Acquisition::Pool, Some("evasion"), 1),
        entry("dim_mak", vec!["way_of_shadow"], 5, Acquisition::Pool, Some("pressure_point"), 1),
        entry("deflecting_palm", vec!["way_of_shadow"], 5, Acquisition::Pool, Some("evasion"), 1),
        entry("crippling_blow", vec!["way_of_shadow"], 7, Acquisition::Pool, Some("pressure_point"), 1),
        entry("counter_stance", vec!["way_of_shadow"], 7, Acquisition::Pool, Some("evasion"), 1),
        entry("weakening_aura", vec!["way_of_shadow"], 9, Acquisition::Pool, Some("pressure_point"), 1),
        entry("death_touch", vec!["way_of_shadow"], 11, Acquisition::Pool, Some("pressure_point"), 1),
        entry("phantom_form", vec!["way_of_shadow"], 11, Acquisition::Pool, Some("evasion"), 1),
        entry("shadow_kill", vec!["way_of_shadow"], 12, Acquisition::AutoGrant, None, 1),
        entry("stance_shift", vec!["iron_fist"], 3, Acquisition::AutoGrant, None, 2),
        entry("tigers_fury", vec!["iron_fist"], 3, Acquisition::Pool, Some("stance_flow"), 1),
        entry("cranes_wing", vec!["iron_fist"], 3, Acquisition::Pool, Some("stance_flow"), 1),
        entry("iron_skin", vec!["iron_fist"], 3, Acquisition::Pool, Some("iron_will"), 1),
        entry("flowing_water", vec!["iron_fist"], 5, Acquisition::Pool, Some("stance_flow"), 1),
        entry("ki_barrier", vec!["iron_fist"], 5, Acquisition::Pool, Some("iron_will"), 1),
        entry("monk_dragons_breath", vec!["iron_fist"], 7, Acquisition::Pool, Some("stance_flow"), 1),
        entry("stone_body", vec!["iron_fist"], 7, Acquisition::Pool, Some("iron_will"), 1),
        entry("perfect_harmony", vec!["iron_fist"], 11, Acquisition::Pool, Some("stance_flow"), 1),
        entry("diamond_soul", vec!["iron_fist"], 11, Acquisition::Pool, Some("iron_will"), 1),
        entry("fist_of_north_star", vec!["iron_fist"], 12, Acquisition::AutoGrant, None, 1),
    ];
    proof {
        reveal(spec_progression_part_3);
        assert(entries_view(r@) =~~= spec_progression_part_3());
    }
    r
}

/// Entries 128 to 159 of the progression table.
#[verifier::opaque]
pub open spec fn spec_progression_part_4() -> Seq<EntryView> {
    seq![
        ("pact_barrier"@, seq!["infernal"@, "hexblade"@, "void"@], 1u32, Acquisition::Pool, None, 1u32),
        ("siphon_bolt"@, seq!["infernal"@, "hexblade"@, "void"@], 1u32, Acquisition::Pool, None, 1u32),
        ("maledict"@, seq!["infernal"@, "hexblade"@, "void"@], 1u32, Acquisition::Pool, None, 1u32),
        ("dark_bargain"@, seq!["infernal"@, "hexblade"@, "void"@], 2u32, Acquisition::AutoGrant, None, 1u32),
        ("hellbrand"@, seq!["infernal"@], 3u32, Acquisition::Pool, Some("infernal_burn"@), 1u32),
        ("cinder_feast"@, seq!["infernal"@], 5u32, Acquisition::Pool, Some("infernal_burn"@), 1u32),
        ("balefire_cataclysm"@, seq!["infernal"@], 9u32, Acquisition::Pool, Some("infernal_burn"@), 1u32),
        ("blood_tithe"@, seq!["infernal"@], 3u32, Acquisition::Pool, Some("infernal_sustain"@), 1u32),
        ("feast_of_cinders"@, seq!["infernal"@], 7u32, Acquisition::Pool, Some("infernal_sustain"@), 1u32),
        ("pact_blade"@, seq!["hexblade"@], 3u32, Acquisition::Pool, Some("hexblade_duel"@), 1u32),
        ("soul_parry"@, seq!["hexblade"@], 5u32, Acquisition::Pool, Some("hexblade_duel"@), 1u32),
        ("dusk_duel"@, seq!["hexblade"@], 11u32, Acquisition::Pool, Some("hexblade_duel"@), 1u32),
        ("brand_the_weak"@, seq!["hexblade"@], 3u32, Acquisition::Pool, Some("hexblade_curse"@), 1u32),
        ("black_oath"@, seq!["hexblade"@], 7u32, Acquisition::Pool, Some("hexblade_curse"@), 1u32),
        ("void_gaze"@, seq!["void"@], 3u32, Acquisition::Pool, Some("void_debuff"@), 1u32),
        ("starless_whisper"@, seq!["void"@], 3u32, Acquisition::Pool, Some("void_debuff"@), 1u32),
        ("entropy_field"@, seq!["void"@], 5u32, Acquisition::Pool, Some("void_debuff"@), 1u32),
        ("oblivion_tide"@, seq!["void"@], 9u32, Acquisition::Pool, Some("void_annihilation"@), 1u32),
        ("cosmic_extinction"@, seq!["void"@], 11u32, Acquisition::Pool, Some("void_annihilation"@), 1u32),
        ("quick_slash"@, seq!["devotion"@, "vengeance"@, "radiance"@], 1u32, Acquisition::Pool, None, 1u32),
        ("double_strike"@, seq!["devotion"@, "vengeance"@, "radiance"@], 1u32, Acquisition::Pool, None, 1u32),
        ("brace_for_impact"@, seq!["devotion"@, "vengeance"@, "radiance"@], 1u32, Acquisition::Pool, None, 1u32),
        ("focus"@, seq!["devotion"@, "vengeance"@, "radiance"@], 1u32, Acquisition::Pool, None, 1u32),
        ("hold_the_line"@, seq!["devotion"@, "vengeance"@, "radiance"@], 1u32, Acquisition::Pool, None, 1u32),
        ("taunt"@, seq!["devotion"@, "vengeance"@, "radiance"@], 1u32, Acquisition::Pool, None, 1u32),
        ("consecration"@, seq!["devotion"@, "vengeance"@, "radiance"@], 2u32, Acquisition::AutoGrant, None, 1u32),
        ("divine_bulwark"@, seq!["devotion"@, "vengeance"@, "radiance"@], 4u32, Acquisition::AutoGrant, None, 1u32),
        ("lay_on_hands"@, seq!["devotion"@, "vengeance"@, "radiance"@], 6u32, Acquisition::AutoGrant, None, 1u32),
        ("warding_slash"@, seq!["devotion"@], 3u32, Acquisition::Pool, Some("devotion_shield"@), 1u32),
        ("shield_of_faith"@, seq!["devotion"@], 5u32, Acquisition::Pool, Some("devotion_shield"@), 1u32),
        ("holy_bastion"@, seq!["devotion"@], 9u32, Acquisition::Pool, Some("devotion_shield"@), 1u32),
        ("bastion_drive"@, seq!["devotion"@], 7u32, Acquisition::Pool, Some("devotion_armor"@), 1u32),
    ]
}

fn progression_part_4() -> (r: Vec<ProgressionEntry>)
    ensures
        entries_view(r@) == spec_progression_part_4(),
        spec_progression_part_4().len() == 32,
{
    let r: Vec<ProgressionEntry> = vec![
        entry("pact_barrier", vec!["infernal", "hexblade", "void"], 1, Acquisition::Pool, None, 1),
        entry("siphon_bolt", vec!["infernal", "hexblade", "void"], 1, Acquisition::Pool, None, 1),
        entry("maledict", vec!["infernal", "hexblade", "void"], 1, Acquisition::Pool, None, 1),
        entry("dark_bargain", vec!["infernal", "hexblade", "void"], 2, Acquisition::AutoGrant, None, 1),
        entry("hellbrand", vec!["infernal"], 3, Acquisition::Pool, Some("infernal_burn"), 1),
        entry("cinder_feast", vec!["infernal"], 5, Acquisition::Pool, Some("infernal_burn"), 1),
        entry("balefire_cataclysm", vec!["infernal"], 9, Acquisition::Pool, Some("infernal_burn"), 1),
        entry("blood_tithe", vec!["infernal"], 3, Acquisition::Pool, Some("infernal_sustain"), 1),
        entry("feast_of_cinders", vec!["infernal"], 7, Acquisition::Pool, Some("infernal_sustain"), 1),
        entry("pact_blade", vec!["hexblade"], 3, Acquisition::Pool, Some("hexblade_duel"), 1),
        entry("soul_parry", vec!["hexblade"], 5, Acquisition::Pool, Some("hexblade_duel"), 1),
        entry("dusk_duel", vec!["hexblade"], 11, Acquisition::Pool, Some("hexblade_duel"), 1),
        entry("brand_the_weak", vec!["hexblade"], 3, Acquisition::Pool, Some("hexblade_curse"), 1),
        entry("black_oath", vec!["hexblade"], 7, Acquisition::Pool, Some("hexblade_curse"), 1),
        entry("void_gaze", vec!["void"], 3, Acquisition::Pool, Some("void_debuff"), 1),
        entry("starless_whisper", vec!["void"], 3, Acquisition::Pool, Some("void_debuff"), 1),
        entry("entropy_field", vec!["void"], 5, Acquisition::Pool, Some("void_debuff"), 1),
        entry("oblivion_tide", vec!["void"], 9, Acquisition::Pool, Some("void_annihilation"), 1),
        entry("cosmic_extinction", vec!["void"], 11, Acquisition::Pool, Some("void_annihilation"), 1),
        entry("quick_slash", vec!["devotion", "vengeance", "radiance"], 1, Acquisition::Pool, None, 1),
        entry("double_strike", vec!["devotion", "vengeance", "radiance"], 1, Acquisition::Pool, None, 1),
        entry("brace_for_impact", vec!["devotion", "vengeance", "radiance"], 1, Acquisition::Pool, None, 1),
        entry("focus", vec!["devotion", "vengeance", "radiance"], 1, Acquisition::Pool, None, 1),
        entry("hold_the_line", vec!["devotion", "vengeance", "radiance"], 1, Acquisition::Pool, None, 1),
        entry("taunt", vec!["devotion", "vengeance", "radiance"], 1, Acquisition::Pool, None, 1),
        entry("consecration", vec!["devotion", "vengeance", "radiance"], 2, Acquisition::AutoGrant, None, 1),
        entry("divine_bulwark", vec!["devotion", "vengeance", "radiance"], 4, Acquisition::AutoGrant, None, 1),
        entry("lay_on_hands", vec!["devotion", "vengeance", "radiance"], 6, Acquisition::AutoGrant, None, 1),
        entry("warding_slash", vec!["devotion"], 3, Acquisition::Pool, Some("devotion_shield"), 1),
        entry("shield_of_faith", vec!["devotion"], 5, Acquisition::Pool, Some("devotion_shield"), 1),
        entry("holy_bastion", vec!["devotion"], 9, Acquisition::Pool, Some("devotion_shield"), 1),
        entry("bastion_drive", vec!["devotion"], 7, Acquisition::Pool, Some("devotion_armor"), 1),
    ];
    proof {
        reveal(spec_progression_part_4);
        assert(entries_view(r@) =~~= spec_progression_part_4());
    }
    r
}

/// Entries 160 to 191 of the progression table.
#[verifier::opaque]
pub open spec fn spec_progression_part_5() -> Seq<EntryView> {
    seq![
        ("avenging_strike"@, seq!["vengeance"@], 3u32, Acquisition::Pool, Some("vengeance_smite"@), 1u32),
        ("divine_judgment"@, seq!["vengeance"@], 9u32, Acquisition::Pool, Some("vengeance_smite"@), 1u32),
        ("blade_of_wrath"@, seq!["vengeance"@], 5u32, Acquisition::Pool, Some("vengeance_wrath"@), 1u32),
        ("zealous_rush"@, seq!["vengeance"@], 7u32, Acquisition::Pool, Some("vengeance_wrath"@), 1u32),
        ("radiant_burst"@, seq!["radiance"@], 3u32, Acquisition::Pool, Some("radiance_burst"@), 1u32),
        ("solar_flare"@, seq!["radiance"@], 9u32, Acquisition::Pool, Some("radiance_burst"@), 1u32),
        ("beacon_of_light"@, seq!["radiance"@], 5u32, Acquisition::Pool, Some("radiance_heal"@), 1u32),
        ("dawns_blessing"@, seq!["radiance"@], 7u32, Acquisition::Pool, Some("radiance_heal"@), 1u32),
        ("avatar_of_radiance"@, seq!["devotion"@, "vengeance"@, "radiance"@], 12u32, Acquisition::AutoGrant, None, 1u32),
        ("sneak_attack"@, seq!["assassin"@, "pirate"@, "trickster"@], 2u32, Acquisition::AutoGrant, None, 1u32),
        ("cunning_action"@, seq!["assassin"@, "pirate"@, "trickster"@], 4u32, Acquisition::AutoGrant, None, 1u32),
        ("rogue_evasion"@, seq!["assassin"@, "pirate"@, "trickster"@], 6u32, Acquisition::AutoGrant, None, 1u32),
        ("preparation"@, seq!["assassin"@, "pirate"@, "trickster"@], 7u32, Acquisition::AutoGrant, None, 1u32),
        ("quick_slash"@, seq!["assassin"@, "pirate"@, "trickster"@], 1u32, Acquisition::Pool, None, 1u32),
        ("double_strike"@, seq!["assassin"@, "pirate"@, "trickster"@], 1u32, Acquisition::Pool, None, 1u32),
        ("brace_for_impact"@, seq!["assassin"@, "pirate"@, "trickster"@], 1u32, Acquisition::Pool, None, 1u32),
        ("focus"@, seq!["assassin"@, "pirate"@, "trickster"@], 1u32, Acquisition::Pool, None, 1u32),
        ("assassinate"@, seq!["assassin"@], 3u32, Acquisition::Pool, Some("assassination"@), 1u32),
        ("rogue_shadow_step"@, seq!["assassin"@], 3u32, Acquisition::Pool, Some("shadow"@), 1u32),
        ("death_mark"@, seq!["assassin"@], 5u32, Acquisition::Pool, Some("assassination"@), 1u32),
        ("killing_blow"@, seq!["assassin"@], 7u32, Acquisition::Pool, Some("shadow"@), 1u32),
        ("cutlass_flurry"@, seq!["pirate"@], 3u32, Acquisition::Pool, Some("pirate_blade"@), 1u32),
        ("grappling_hook"@, seq!["pirate"@], 3u32, Acquisition::Pool, Some("pirate_trick"@), 1u32),
        ("dirty_fighting"@, seq!["pirate"@], 5u32, Acquisition::Pool, Some("pirate_blade"@), 1u32),
        ("broadside"@, seq!["pirate"@], 7u32, Acquisition::Pool, Some("pirate_trick"@), 1u32),
        ("smoke_bomb"@, seq!["trickster"@], 3u32, Acquisition::Pool, Some("trickster_smoke"@), 1u32),
        ("misdirection"@, seq!["trickster"@], 3u32, Acquisition::Pool, Some("trickster_finesse"@), 1u32),
        ("fan_of_knives"@, seq!["trickster"@], 5u32, Acquisition::Pool, Some("trickster_smoke"@), 1u32),
        ("ace_in_the_hole"@, seq!["trickster"@], 7u32, Acquisition::Pool, Some("trickster_finesse"@), 1u32),
        ("bark_skin"@, seq!["bear"@, "eagle"@, "wolf"@], 1u32, Acquisition::Pool, None, 1u32),
        ("rejuvenation"@, seq!["bear"@, "eagle"@, "wolf"@], 1u32, Acquisition::Pool, None, 1u32),
        ("moonbeam"@, seq!["bear"@, "eagle"@, "wolf"@], 2u32, Acquisition::AutoGrant, None, 1u32),
    ]
}

fn progression_part_5() -> (r: Vec<ProgressionEntry>)
    ensures
        entries_view(r@) == spec_progression_part_5(),
        spec_progression_part_5().len() == 32,
{
    let r: Vec<ProgressionEntry> = vec![
        entry("avenging_strike", vec!["vengeance"], 3, Acquisition::Pool, Some("vengeance_smite"), 1),
        entry("divine_judgment", vec!["vengeance"], 9, Acquisition::Pool, Some("vengeance_smite"), 1),
        entry("blade_of_wrath", vec!["vengeance"], 5, Acquisition::Pool, Some("vengeance_wrath"), 1),
        entry("zealous_rush", vec!["vengeance"], 7, Acquisition::Pool, Some("vengeance_wrath"), 1),
        entry("radiant_burst", vec!["radiance"], 3, Acquisition::Pool, Some("radiance_burst"), 1),
        entry("solar_flare", vec!["radiance"], 9, Acquisition::Pool, Some("radiance_burst"), 1),
        entry("beacon_of_light", vec!["radiance"], 5, Acquisition::Pool, Some("radiance_heal"), 1),
        entry("dawns_blessing", vec!["radiance"], 7, Acquisition::Pool, Some("radiance_heal"), 1),
        entry("avatar_of_radiance", vec!["devotion", "vengeance", "radiance"], 12, Acquisition::AutoGrant, None, 1),
        entry("sneak_attack", vec!["assassin", "pirate", "trickster"], 2, Acquisition::AutoGrant, None, 1),
        entry("cunning_action", vec!["assassin", "pirate", "trickster"], 4, Acquisition::AutoGrant, None, 1),
        entry("rogue_evasion", vec!["assassin", "pirate", "trickster"], 6, Acquisition::AutoGrant, None, 1),
        entry("preparation", vec!["assassin", "pirate", "trickster"], 7, Acquisition::AutoGrant, None, 1),
        entry("quick_slash", vec!["assassin", "pirate", "trickster"], 1, Acquisition::Pool, None, 1),
        entry("double_strike", vec!["assassin", "pirate", "trickster"], 1, Acquisition::Pool, None, 1),
        entry("brace_for_impact", vec!["assassin", "pirate", "trickster"], 1, Acquisition::Pool, None, 1),
        entry("focus", vec!["assassin", "pirate", "trickster"], 1, Acquisition::Pool, None, 1),
        entry("assassinate", vec!["assassin"], 3, Acquisition::Pool, Some("assassination"), 1),
        entry("rogue_shadow_step", vec!["assassin"], 3, Acquisition::Pool, Some("shadow"), 1),
        entry("death_mark", vec!["assassin"], 5, Acquisition::Pool, Some("assassination"), 1),
        entry("killing_blow", vec!["assassin"], 7, Acquisition::Pool, Some("shadow"), 1),
        entry("cutlass_flurry", vec!["pirate"], 3, Acquisition::Pool, Some("pirate_blade"), 1),
        entry("grappling_hook", vec!["pirate"], 3, Acquisition::Pool, Some("pirate_trick"), 1),
        entry("dirty_fighting", vec!["pirate"], 5, Acquisition::Pool, Some("pirate_blade"), 1),
        entry("broadside", vec!["pirate"], 7, Acquisition::Pool, Some("pirate_trick"), 1),
        entry("smoke_bomb", vec!["trickster"], 3, Acquisition::Pool, Some("trickster_smoke"), 1),
        entry("misdirection", vec!["trickster"], 3, Acquisition::Pool, Some("trickster_finesse"), 1),
        entry("fan_of_knives", vec!["trickster"], 5, Acquisition::Pool, Some("trickster_smoke"), 1),
        entry("ace_in_the_hole", vec!["trickster"], 7, Acquisition::Pool, Some("trickster_finesse"), 1),
        entry("bark_skin", vec!["bear", "eagle", "wolf"], 1, Acquisition::Pool, None, 1),
        entry("rejuvenation", vec!["bear", "eagle", "wolf"], 1, Acquisition::Pool, None, 1),
        entry("moonbeam", vec!["bear", "eagle", "wolf"], 2, Acquisition::AutoGrant, None, 1),
    ];
    proof {
        reveal(spec_progression_part_5);
        assert(entries_view(r@) =~~= spec_progression_part_5());
    }
    r
}

/// Entries 192 to 223 of the progression table.
#[verifier::opaque]
pub open spec fn spec_progression_part_6() -> Seq<EntryView> {
    seq![
        ("entangle"@, seq!["bear"@, "eagle"@, "wolf"@], 4u32, Acquisition::AutoGrant, None, 1u32),
        ("thick_hide"@, seq!["bear"@], 3u32, Acquisition::Pool, Some("bear_tank"@), 1u32),
        ("primal_roar"@, seq!["bear"@], 5u32, Acquisition::Pool, Some("bear_tank"@), 1u32),
        ("bear_maul"@, seq!["bear"@], 3u32, Acquisition::Pool, Some("bear_primal"@), 1u32),
        ("ursine_charge"@, seq!["bear"@], 5u32, Acquisition::Pool, Some("bear_primal"@), 1u32),
        ("eagle_dive"@, seq!["eagle"@], 3u32, Acquisition::Pool, Some("eagle_swoop"@), 1u32),
        ("tempest_talons"@, seq!["eagle"@], 5u32, Acquisition::Pool, Some("eagle_swoop"@), 1u32),
        ("swooping_strike"@, seq!["eagle"@], 3u32, Acquisition::Pool, Some("eagle_wind"@), 1u32),
        ("wind_rider"@, seq!["eagle"@], 5u32, Acquisition::Pool, Some("eagle_wind"@), 1u32),
        ("pack_tactics"@, seq!["wolf"@], 3u32, Acquisition::Pool, Some("wolf_pack"@), 1u32),
        ("alphas_command"@, seq!["wolf"@], 5u32, Acquisition::Pool, Some("wolf_pack"@), 1u32),
        ("howl"@, seq!["wolf"@], 3u32, Acquisition::Pool, Some("wolf_hunt"@), 1u32),
        ("coordinated_strike"@, seq!["wolf"@], 5u32, Acquisition::Pool, Some("wolf_hunt"@), 1u32),
        ("archdruid"@, seq!["bear"@, "eagle"@, "wolf"@], 12u32, Acquisition::AutoGrant, None, 1u32),
        ("mage_armor"@, seq!["evocation"@, "abjuration"@, "divination"@], 2u32, Acquisition::AutoGrant, None, 1u32),
        ("shield_spell"@, seq!["evocation"@, "abjuration"@, "divination"@], 4u32, Acquisition::AutoGrant, None, 1u32),
        ("fire_bolt"@, seq!["evocation"@, "abjuration"@, "divination"@], 1u32, Acquisition::Pool, None, 1u32),
        ("ember_bolt"@, seq!["evocation"@], 3u32, Acquisition::AutoGrant, None, 2u32),
        ("scorching_ray"@, seq!["evocation"@], 3u32, Acquisition::Pool, Some("evocation_blast"@), 1u32),
        ("flame_shield"@, seq!["evocation"@], 3u32, Acquisition::Pool, Some("evocation_burn"@), 1u32),
        ("fireball"@, seq!["evocation"@], 5u32, Acquisition::Pool, Some("evocation_blast"@), 1u32),
        ("lightning_bolt"@, seq!["evocation"@], 7u32, Acquisition::Pool, Some("evocation_blast"@), 1u32),
        ("arcane_ward"@, seq!["abjuration"@], 3u32, Acquisition::AutoGrant, None, 2u32),
        ("ward"@, seq!["abjuration"@], 3u32, Acquisition::Pool, Some("abjuration_ward"@), 1u32),
        ("dispel"@, seq!["abjuration"@], 3u32, Acquisition::Pool, Some("abjuration_counter"@), 1u32),
        ("counterspell"@, seq!["abjuration"@], 5u32, Acquisition::Pool, Some("abjuration_counter"@), 1u32),
        ("globe_of_protection"@, seq!["abjuration"@], 7u32, Acquisition::Pool, Some("abjuration_ward"@), 1u32),
        ("prescience"@, seq!["divination"@], 3u32, Acquisition::AutoGrant, None, 2u32),
        ("scrying"@, seq!["divination"@], 3u32, Acquisition::Pool, Some("divination_sight"@), 1u32),
        ("portent"@, seq!["divination"@], 3u32, Acquisition::Pool, Some("divination_control"@), 1u32),
        ("foresight"@, seq!["divination"@], 5u32, Acquisition::Pool, Some("divination_sight"@), 1u32),
        ("time_stop"@, seq!["divination"@], 7u32, Acquisition::Pool, Some("divination_control"@), 1u32),
    ]
}

fn progression_part_6() -> (r: Vec<ProgressionEntry>)
    ensures
        entries_view(r@) == spec_progression_part_6(),
        spec_progression_part_6().len() == 32,
{
    let r: Vec<ProgressionEntry> = vec![
        entry("entangle", vec!["bear", "eagle", "wolf"], 4, Acquisition::AutoGrant, None, 1),
        entry("thick_hide", vec!["bear"], 3, Acquisition::Pool, Some("bear_tank"), 1),
        entry("primal_roar", vec!["bear"], 5, Acquisition::Pool, Some("bear_tank"), 1),
        entry("bear_maul", vec!["bear"], 3, Acquisition::Pool, Some("bear_primal"), 1),
        entry("ursine_charge", vec!["bear"], 5, Acquisition::Pool, Some("bear_primal"), 1),
        entry("eagle_dive", vec!["eagle"], 3, Acquisition::Pool, Some("eagle_swoop"), 1),
        entry("tempest_talons", vec!["eagle"], 5, Acquisition::Pool, Some("eagle_swoop"), 1),
        entry("swooping_strike", vec!["eagle"], 3, Acquisition::Pool, Some("eagle_wind"), 1),
        entry("wind_rider", vec!["eagle"], 5, Acquisition::Pool, Some("eagle_wind"), 1),
        entry("pack_tactics", vec!["wolf"], 3, Acquisition::Pool, Some("wolf_pack"), 1),
        entry("alphas_command", vec!["wolf"], 5, Acquisition::Pool, Some("wolf_pack"), 1),
        entry("howl", vec!["wolf"], 3, Acquisition::Pool, Some("wolf_hunt"), 1),
        entry("coordinated_strike", vec!["wolf"], 5, Acquisition::Pool, Some("wolf_hunt"), 1),
        entry("archdruid", vec!["bear", "eagle", "wolf"], 12, Acquisition::AutoGrant, None, 1),
        entry("mage_armor", vec!["evocation", "abjuration", "divination"], 2, Acquisition::AutoGrant, None, 1),
        entry("shield_spell", vec!["evocation", "abjuration", "divination"], 4, Acquisition::AutoGrant, None, 1),
        entry("fire_bolt", vec!["evocation", "abjuration", "divination"], 1, Acquisition::Pool, None, 1),
        entry("ember_bolt", vec!["evocation"], 3, Acquisition::AutoGrant, None, 2),
        entry("scorching_ray", vec!["evocation"], 3, Acquisition::Pool, Some("evocation_blast"), 1),
        entry("flame_shield", vec!["evocation"], 3, Acquisition::Pool, Some("evocation_burn"), 1),
        entry("fireball", vec!["evocation"], 5, Acquisition::Pool, Some("evocation_blast"), 1),
        entry("lightning_bolt", vec!["evocation"], 7, Acquisition::Pool, Some("evocation_blast"), 1),
        entry("arcane_ward", vec!["abjuration"], 3, Acquisition::AutoGrant, None, 2),
        entry("ward", vec!["abjuration"], 3, Acquisition::Pool, Some("abjuration_ward"), 1),
        entry("dispel", vec!["abjuration"], 3, Acquisition::Pool, Some("abjuration_counter"), 1),
        entry("counterspell", vec!["abjuration"], 5, Acquisition::Pool, Some("abjuration_counter"), 1),
        entry("globe_of_protection", vec!["abjuration"], 7, Acquisition::Pool, Some("abjuration_ward"), 1),
        entry("prescience", vec!["divination"], 3, Acquisition::AutoGrant, None, 2),
        entry("scrying", vec!["divination"], 3, Acquisition::Pool, Some("divination_sight"), 1),
        entry("portent", vec!["divination"], 3, Acquisition::Pool, Some("divination_control"), 1),
        entry("foresight", vec!["divination"], 5, Acquisition::Pool, Some("divination_sight"), 1),
        entry("time_stop", vec!["divination"], 7, Acquisition::Pool, Some("divination_control"), 1),
    ];
    proof {
        reveal(spec_progression_part_6);
        assert(entries_view(r@) =~~= spec_progression_part_6());
    }
    r
}

/// Entries 224 to 255 of the progression table.
#[verifier::opaque]
pub open spec fn spec_progression_part_7() -> Seq<EntryView> {
    seq![
        ("wish"@, seq!["evocation"@, "abjuration"@, "divination"@], 12u32, Acquisition::AutoGrant, None, 1u32),
        ("arcane_pulse"@, seq!["wild_mage"@, "draconic"@, "shadow_sorcerer"@], 1u32, Acquisition::Pool, None, 1u32),
        ("spell_surge"@, seq!["wild_mage"@, "draconic"@, "shadow_sorcerer"@], 1u32, Acquisition::Pool, None, 1u32),
        ("mana_infusion"@, seq!["wild_mage"@, "draconic"@, "shadow_sorcerer"@], 3u32, Acquisition::Pool, None, 1u32),
        ("overload"@, seq!["wild_mage"@, "draconic"@, "shadow_sorcerer"@], 5u32, Acquisition::Pool, None, 1u32),
        ("volatile_burst"@, seq!["wild_mage"@], 1u32, Acquisition::Pool, Some("surge"@), 1u32),
        ("chain_lightning"@, seq!["wild_mage"@], 3u32, Acquisition::Pool, Some("surge"@), 1u32),
        ("wild_discharge"@, seq!["wild_mage"@], 3u32, Acquisition::Pool, Some("surge"@), 1u32),
        ("surge_nova"@, seq!["wild_mage"@], 7u32, Acquisition::Pool, Some("surge"@), 1u32),
        ("sorcerer_cataclysm"@, seq!["wild_mage"@], 11u32, Acquisition::Pool, Some("surge"@), 1u32),
        ("chaos_bolt"@, seq!["wild_mage"@], 1u32, Acquisition::Pool, Some("chaos"@), 1u32),
        ("unraveling_hex"@, seq!["wild_mage"@], 3u32, Acquisition::Pool, Some("chaos"@), 1u32),
        ("entropy_cascade"@, seq!["wild_mage"@], 5u32, Acquisition::Pool, Some("chaos"@), 1u32),
        ("sorcerer_pandemonium"@, seq!["wild_mage"@], 11u32, Acquisition::Pool, Some("chaos"@), 1u32),
        ("dragon_scale"@, seq!["draconic"@], 1u32, Acquisition::Pool, Some("heritage"@), 1u32),
        ("ancestral_resilience"@, seq!["draconic"@], 3u32, Acquisition::Pool, Some("heritage"@), 1u32),
        ("scaled_rebuke"@, seq!["draconic"@], 5u32, Acquisition::Pool, Some("heritage"@), 1u32),
        ("primordial_resilience"@, seq!["draconic"@], 11u32, Acquisition::Pool, Some("heritage"@), 1u32),
        ("sorcerer_dragons_breath"@, seq!["draconic"@], 3u32, Acquisition::Pool, Some("wrath"@), 1u32),
        ("draconic_surge"@, seq!["draconic"@], 3u32, Acquisition::Pool, Some("wrath"@), 1u32),
        ("ancient_power"@, seq!["draconic"@], 7u32, Acquisition::Pool, Some("wrath"@), 1u32),
        ("dragonfire_ascension"@, seq!["draconic"@], 11u32, Acquisition::Pool, Some("wrath"@), 1u32),
        ("shadow_tap"@, seq!["shadow_sorcerer"@], 1u32, Acquisition::Pool, Some("drain"@), 1u32),
        ("necrotic_siphon"@, seq!["shadow_sorcerer"@], 1u32, Acquisition::Pool, Some("drain"@), 1u32),
        ("life_drain"@, seq!["shadow_sorcerer"@], 3u32, Acquisition::Pool, Some("drain"@), 1u32),
        ("void_feast"@, seq!["shadow_sorcerer"@], 5u32, Acquisition::Pool, Some("drain"@), 1u32),
        ("eternal_hunger"@, seq!["shadow_sorcerer"@], 11u32, Acquisition::Pool, Some("drain"@), 1u32),
        ("dread_bolt"@, seq!["shadow_sorcerer"@], 1u32, Acquisition::Pool, Some("terrors"@), 1u32),
        ("shadow_exploit"@, seq!["shadow_sorcerer"@], 1u32, Acquisition::Pool, Some("terrors"@), 1u32),
        ("terrorize"@, seq!["shadow_sorcerer"@], 3u32, Acquisition::Pool, Some("terrors"@), 1u32),
        ("final_nightmare"@, seq!["shadow_sorcerer"@], 11u32, Acquisition::Pool, Some("terrors"@), 1u32),
        ("sorcerers_apotheosis"@, seq!["wild_mage"@, "draconic"@, "shadow_sorcerer"@], 12u32, Acquisition::AutoGrant, None, 1u32),
    ]
}

fn progression_part_7() -> (r: Vec<ProgressionEntry>)
    ensures
        entries_view(r@) == spec_progression_part_7(),
        spec_progression_part_7().len() == 32,
{
    let r: Vec<ProgressionEntry> = vec![
        entry("wish", vec!["evocation", "abjuration", "divination"], 12, Acquisition::AutoGrant, None, 1),
        entry("arcane_pulse", vec!["wild_mage", "draconic", "shadow_sorcerer"], 1, Acquisition::Pool, None, 1),
        entry("spell_surge", vec!["wild_mage", "draconic", "shadow_sorcerer"], 1, Acquisition::Pool, None, 1),
        entry("mana_infusion", vec!["wild_mage", "draconic", "shadow_sorcerer"], 3, Acquisition::Pool, None, 1),
        entry("overload", vec!["wild_mage", "draconic", "shadow_sorcerer"], 5, Acquisition::Pool, None, 1),
        entry("volatile_burst", vec!["wild_mage"], 1, Acquisition::Pool, Some("surge"), 1),
        entry("chain_lightning", vec!["wild_mage"], 3, Acquisition::Pool, Some("surge"), 1),
        entry("wild_discharge", vec!["wild_mage"], 3, Acquisition::Pool, Some("surge"), 1),
        entry("surge_nova", vec!["wild_mage"], 7, Acquisition::Pool, Some("surge"), 1),
        entry("sorcerer_cataclysm", vec!["wild_mage"], 11, Acquisition::Pool, Some("surge"), 1),
        entry("chaos_bolt", vec!["wild_mage"], 1, Acquisition::Pool, Some("chaos"), 1),
        entry("unraveling_hex", vec!["wild_mage"], 3, Acquisition::Pool, Some("chaos"), 1),
        entry("entropy_cascade", vec!["wild_mage"], 5, Acquisition::Pool, Some("chaos"), 1),
        entry("sorcerer_pandemonium", vec!["wild_mage"], 11, Acquisition::Pool, Some("chaos"), 1),
        entry("dragon_scale", vec!["draconic"], 1, Acquisition::Pool, Some("heritage"), 1),
        entry("ancestral_resilience", vec!["draconic"], 3, Acquisition::Pool, Some("heritage"), 1),
        entry("scaled_rebuke", vec!["draconic"], 5, Acquisition::Pool, Some("heritage"), 1),
        entry("primordial_resilience", vec!["draconic"], 11, Acquisition::Pool, Some("heritage"), 1),
        entry("sorcerer_dragons_breath", vec!["draconic"], 3, Acquisition::Pool, Some("wrath"), 1),
        entry("draconic_surge", vec!["draconic"], 3, Acquisition::Pool, Some("wrath"), 1),
        entry("ancient_power", vec!["draconic"], 7, Acquisition::Pool, Some("wrath"), 1),
        entry("dragonfire_ascension", vec!["draconic"], 11, Acquisition::Pool, Some("wrath"), 1),
        entry("shadow_tap", vec!["shadow_sorcerer"], 1, Acquisition::Pool, Some("drain"), 1),
        entry("necrotic_siphon", vec!["shadow_sorcerer"], 1, Acquisition::Pool, Some("drain"), 1),
        entry("life_drain", vec!["shadow_sorcerer"], 3, Acquisition::Pool, Some("drain"), 1),
        entry("void_feast", vec!["shadow_sorcerer"], 5, Acquisition::Pool, Some("drain"), 1),
        entry("eternal_hunger", vec!["shadow_sorcerer"], 11, Acquisition::Pool, Some("drain"), 1),
        entry("dread_bolt", vec!["shadow_sorcerer"], 1, Acquisition::Pool, Some("terrors"), 1),
        entry("shadow_exploit", vec!["shadow_sorcerer"], 1, Acquisition::Pool, Some("terrors"), 1),
        entry("terrorize", vec!["shadow_sorcerer"], 3, Acquisition::Pool, Some("terrors"), 1),
        entry("final_nightmare", vec!["shadow_sorcerer"], 11, Acquisition::Pool, Some("terrors"), 1),
        entry("sorcerers_apotheosis", vec!["wild_mage", "draconic", "shadow_sorcerer"], 12, Acquisition::AutoGrant, None, 1),
    ];
    proof {
        reveal(spec_progression_part_7);
        assert(entries_view(r@) =~~= spec_progression_part_7());
    }
    r
}

/// The progression table as plain values, in order.
pub open spec fn spec_progression_table() -> Seq<EntryView> {
    spec_progression_part_0() + spec_progression_part_1() + spec_progression_part_2() + spec_progression_part_3() + spec_progression_part_4() + spec_progression_part_5() + spec_progression_part_6() + spec_progression_part_7()
}

/// The progression table: every card a run can obtain beyond the starter
/// deck, who can obtain it, from which level and how.
pub fn progression_table() -> (r: Vec<ProgressionEntry>)
    ensures
        entries_view(r@) == spec_progression_table(),
        spec_progression_table().len() == 256,
{
    let mut r = progression_part_0();
    let ghost pre = r@;
    let mut part = progression_part_1();
    let ghost p = part@;
    r.append(&mut part);
    proof {
        assert(r@ == pre + p);
        assert(entries_view(r@) =~= entries_view(pre) + entries_view(p));
    }
    let ghost pre = r@;
    let mut part = progression_part_2();
    let ghost p = part@;
    r.append(&mut part);
    proof {
        assert(r@ == pre + p);
        assert(entries_view(r@) =~= entries_view(pre) + entries_view(p));
    }
    let ghost pre = r@;
    let mut part = progression_part_3();
    let ghost p = part@;
    r.append(&mut part);
    proof {
        assert(r@ == pre + p);
        assert(entries_view(r@) =~= entries_view(pre) + entries_view(p));
    }
    let ghost pre = r@;
    let mut part = progression_part_4();
    let ghost p = part@;
    r.append(&mut part);
    proof {
        assert(r@ == pre + p);
        assert(entries_view(r@) =~= entries_view(pre) + entries_view(p));
    }
    let ghost pre = r@;
    let mut part = progression_part_5();
    let ghost p = part@;
    r.append(&mut part);
    proof {
        assert(r@ == pre + p);
        assert(entries_view(r@) =~= entries_view(pre) + entries_view(p));
    }
    let ghost pre = r@;
    let mut part = progression_part_6();
    let ghost p = part@;
    r.append(&mut part);
    proof {
        assert(r@ == pre + p);
        assert(entries_view(r@) =~= entries_view(pre) + entries_view(p));
    }
    let ghost pre = r@;
    let mut part = progression_part_7();
    let ghost p = part@;
    r.append(&mut part);
    proof {
        assert(r@ == pre + p);
        assert(entries_view(r@) =~= entries_view(pre) + entries_view(p));
    }
    r
}

/// Whether an entry with this synergy group passes a synergy filter: no
/// filter passes everything, a neutral entry passes any filter, else the
/// groups must match.
pub open spec fn spec_passes(synergy: Option<Seq<char>>, filter: Option<Seq<char>>) -> bool {
    match filter {
        None => true,
        Some(f) => match synergy {
            None => true,
            Some(s) => f == s,
        },
    }
}

/// Check whether a progression entry passes a synergy filter.
fn passes_synergy_filter(entry: &ProgressionEntry, filter: Option<&str>) -> (r: bool)
    ensures
        r == spec_passes(opt_strs_view(entry.synergy), opt_strs_view(filter)),
{
    match filter {
        None => true,
        Some(f) => match entry.synergy {
            None => true,
            Some(s) => str_eq(f, s),
        },
    }
}

/// Whether the list holds the string.
fn strs_contain(list: &Vec<&'static str>, s: &str) -> (r: bool)
    ensures
        r == strs_view(list@).contains(s@),
{
    let mut j: usize = 0;
    while j < list.len()
        invariant
            j <= list@.len(),
            forall|k: int| 0 <= k < j ==> (#[trigger] list@[k])@ != s@,
        decreases list@.len() - j,
    {
        if str_eq(list[j], s) {
            proof {
                assert(strs_view(list@)[j as int] == s@);
            }
            return true;
        }
        j = j + 1;
    }
    proof {
        assert forall|k: int| 0 <= k < strs_view(list@).len() implies strs_view(list@)[k] != s@ by {
            assert(list@[k]@ != s@);
        }
    }
    false
}

/// The sub-class of the first entry of the table in the synergy group.
pub open spec fn spec_subclass_for_group(table: Seq<EntryView>, group: Seq<char>) -> Option<Seq<char>>
    decreases table.len(),
{
    if table.len() == 0 {
        None
    } else if table[0].4 == Some(group) {
        if table[0].1.len() > 0 {
            Some(table[0].1[0])
        } else {
            None
        }
    } else {
        spec_subclass_for_group(table.drop_first(), group)
    }
}

/// Which sub-class owns a synergy group: the first sub-class of the first
/// progression entry tagged with the group; `None` for unknown groups.
pub fn subclass_for_synergy_group(group: &str) -> (r: Option<&'static str>)
    ensures
        opt_strs_view(r) == spec_subclass_for_group(spec_progression_table(), group@),
{
    let table = progression_table();
    let mut i: usize = 0;
    proof {
        assert(entries_view(table@).skip(0) =~= entries_view(table@));
    }
    while i < table.len()
        invariant
            i <= table@.len(),
            entries_view(table@) == spec_progression_table(),
            spec_subclass_for_group(spec_progression_table(), group@)
                == spec_subclass_for_group(entries_view(table@).skip(i as int), group@),
        decreases table@.len() - i,
    {
        let e = &table[i];
        proof {
            assert(entries_view(table@).skip(i as int).drop_first() =~= entries_view(table@).skip(i + 1));
            assert(entries_view(table@).skip(i as int)[0] == e@);
        }
        let hit = match e.synergy {
            Some(s) => str_eq(s, group),
            None => false,
        };
        if hit {
            if e.subclasses.len() > 0 {
                return Some(e.subclasses[0]);
            }
            return None;
        }
        i = i + 1;
    }
    None
}

/// Whether an entry belongs to a sub-class's reward pool at a level.
pub open spec fn in_pool(e: EntryView, subclass: Seq<char>, level: u32, filter: Option<Seq<char>>) -> bool {
    &&& e.2 <= level
    &&& (e.3 == Acquisition::Pool || e.3 == Acquisition::Both)
    &&& e.1.contains(subclass)
    &&& spec_passes(e.4, filter)
}

/// The card ids of the pool entries of the table, in table order.
pub open spec fn spec_reward_pool(table: Seq<EntryView>, subclass: Seq<char>, level: u32, filter: Option<Seq<char>>) -> Seq<Seq<char>>
    decreases table.len(),
{
    if table.len() == 0 {
        Seq::empty()
    } else {
        spec_reward_pool(table.drop_last(), subclass, level, filter) + if in_pool(table.last(), subclass, level, filter) {
            seq![table.last().0]
        } else {
            Seq::empty()
        }
    }
}

/// Whether an entry is granted to a sub-class on reaching a level.
pub open spec fn is_grant(e: EntryView, subclass: Seq<char>, level: u32, filter: Option<Seq<char>>) -> bool {
    &&& e.2 == level
    &&& (e.3 == Acquisition::AutoGrant || e.3 == Acquisition::Both)
    &&& e.1.contains(subclass)
    &&& spec_passes(e.4, filter)
}

/// The card ids granted by the table, each as many times as its count, in
/// table order.
pub open spec fn spec_auto_grants(table: Seq<EntryView>, subclass: Seq<char>, level: u32, filter: Option<Seq<char>>) -> Seq<Seq<char>>
    decreases table.len(),
{
    if table.len() == 0 {
        Seq::empty()
    } else {
        spec_auto_grants(table.drop_last(), subclass, level, filter) + if is_grant(table.last(), subclass, level, filter) {
            Seq::new(table.last().5 as nat, |k: int| table.last().0)
        } else {
            Seq::empty()
        }
    }
}

/// The views of a list of card ids.
pub open spec fn card_ids_view(ids: Seq<CardId>) -> Seq<Seq<char>> {
    ids.map_values(|s: CardId| s@)
}

/// All Pool/Both cards available to a sub-class at a level.
pub fn reward_pool_at_level(subclass: &str, level: u32) -> (r: Vec<CardId>)
    ensures
        card_ids_view(r@) == spec_reward_pool(spec_progression_table(), subclass@, level, None),
{
    reward_pool_at_level_filtered(subclass, level, None)
}

/// All Pool/Both cards available to a sub-class at a level that pass the
/// synergy filter, in table order.
pub fn reward_pool_at_level_filtered(subclass: &str, level: u32, synergy_filter: Option<&str>) -> (r: Vec<CardId>)
    ensures
        card_ids_view(r@) == spec_reward_pool(spec_progression_table(), subclass@, level, opt_strs_view(synergy_filter)),
        r@.len() <= spec_progression_table().len() == 256,
{
    let table = progression_table();
    let ghost t = entries_view(table@);
    let ghost f = opt_strs_view(synergy_filter);
    let mut pool: Vec<CardId> = Vec::new();
    let mut i: usize = 0;
    while i < table.len()
        invariant
            i <= table@.len(),
            t == entries_view(table@),
            t == spec_progression_table(),
            f == opt_strs_view(synergy_filter),
            t.len() == 256,
            pool@.len() <= i,
            card_ids_view(pool@) == spec_reward_pool(t.take(i as int), subclass@, level, f),
        decreases table@.len() - i,
    {
        let e = &table[i];
        let ghost pre = pool@;
        let ok = e.unlock_level <= level && (e.acquisition == Acquisition::Pool || e.acquisition == Acquisition::Both)
            && strs_contain(&e.subclasses, subclass) && passes_synergy_filter(e, synergy_filter);
        proof {
            assert(t.take(i + 1).drop_last() =~= t.take(i as int));
            assert(t.take(i + 1).last() == e@);
            assert(ok == in_pool(e@, subclass@, level, f));
        }
        if ok {
            pool.push(e.card_id.to_string());
            proof {
                assert(card_ids_view(pool@) =~= card_ids_view(pre).push(e.card_id@));
            }
        } else {
            proof {
                assert(card_ids_view(pool@) =~= card_ids_view(pre) + Seq::<Seq<char>>::empty());
            }
        }
        proof {
            assert(card_ids_view(pool@) == spec_reward_pool(t.take(i + 1), subclass@, level, f));
        }
        i = i + 1;
    }
    proof {
        assert(t.take(i as int) =~= t);
    }
    if OP_TEST_CARD_ENABLED {
        pool.push("martial_ascendancy".to_string());
    }
    pool
}

/// All AutoGrant/Both cards for a sub-class at exactly this level.
pub fn auto_grants_at_level(subclass: &str, level: u32) -> (r: Vec<CardId>)
    ensures
        card_ids_view(r@) == spec_auto_grants(spec_progression_table(), subclass@, level, None),
{
    auto_grants_at_level_filtered(subclass, level, None)
}

/// All AutoGrant/Both cards for a sub-class at exactly this level that pass
/// the synergy filter, each as many times as its count, in table order.
pub fn auto_grants_at_level_filtered(subclass: &str, level: u32, synergy_filter: Option<&str>) -> (r: Vec<CardId>)
    ensures
        card_ids_view(r@) == spec_auto_grants(spec_progression_table(), subclass@, level, opt_strs_view(synergy_filter)),
{
    let table = progression_table();
    let ghost t = entries_view(table@);
    let ghost f = opt_strs_view(synergy_filter);
    let mut grants: Vec<CardId> = Vec::new();
    let mut i: usize = 0;
    while i < table.len()
        invariant
            i <= table@.len(),
            t == entries_view(table@),
            t == spec_progression_table(),
            f == opt_strs_view(synergy_filter),
            card_ids_view(grants@) == spec_auto_grants(t.take(i as int), subclass@, level, f),
        decreases table@.len() - i,
    {
        let e = &table[i];
        let ghost pre = card_ids_view(grants@);
        let ok = e.unlock_level == level && (e.acquisition == Acquisition::AutoGrant || e.acquisition == Acquisition::Both)
            && strs_contain(&e.subclasses, subclass) && passes_synergy_filter(e, synergy_filter);
        proof {
            assert(t.take(i + 1).drop_last() =~= t.take(i as int));
            assert(t.take(i + 1).last() == e@);
            assert(ok == is_grant(e@, subclass@, level, f));
        }
        if ok {
            let mut c: u32 = 0;
            while c < e.count
                invariant
                    c <= e.count,
                    card_ids_view(grants@) == pre + Seq::new(c as nat, |k: int| e.card_id@),
                decreases e.count - c,
            {
                let ghost g0 = grants@;
                grants.push(e.card_id.to_string());
                c = c + 1;
                proof {
                    assert(card_ids_view(grants@) =~= card_ids_view(g0).push(e.card_id@));
                    assert(pre + Seq::new(c as nat, |k: int| e.card_id@) =~= (pre + Seq::new((c - 1) as nat, |k: int| e.card_id@)).push(e.card_id@));
                }
            }
            proof {
                assert(Seq::new(c as nat, |k: int| e.card_id@) =~= Seq::new(t.take(i + 1).last().5 as nat, |k: int| t.take(i + 1).last().0));
            }
        } else {
            proof {
                assert(card_ids_view(grants@) =~= pre + Seq::<Seq<char>>::empty());
            }
        }
        proof {
            assert(card_ids_view(grants@) == spec_auto_grants(t.take(i + 1), subclass@, level, f));
        }
        i = i + 1;
    }
    proof {
        assert(t.take(i as int) =~= t);
    }
    grants
}

/// A reward pool only grows with the level: whatever a sub-class may be
/// offered at one level it may still be offered at any higher level.
pub proof fn law_reward_pool_monotone(
    table: Seq<EntryView>,
    subclass: Seq<char>,
    low: u32,
    high: u32,
    filter: Option<Seq<char>>,
    id: Seq<char>,
)
    requires
        low <= high,
        spec_reward_pool(table, subclass, low, filter).contains(id),
    ensures
        spec_reward_pool(table, subclass, high, filter).contains(id),
    decreases table.len(),
{
    if table.len() > 0 {
        let lo_rest = spec_reward_pool(table.drop_last(), subclass, low, filter);
        let hi_rest = spec_reward_pool(table.drop_last(), subclass, high, filter);
        let k = choose|k: int| 0 <= k < spec_reward_pool(table, subclass, low, filter).len()
            && spec_reward_pool(table, subclass, low, filter)[k] == id;
        if k < lo_rest.len() {
            assert(lo_rest[k] == id);
            law_reward_pool_monotone(table.drop_last(), subclass, low, high, filter, id);
            let j = choose|j: int| 0 <= j < hi_rest.len() && hi_rest[j] == id;
            assert(spec_reward_pool(table, subclass, high, filter)[j] == id);
        } else {
            assert(in_pool(table.last(), subclass, low, filter));
            assert(in_pool(table.last(), subclass, high, filter));
            assert(spec_reward_pool(table, subclass, high, filter)[hi_rest.len() as int] == id);
        }
    }
}

/// Generate `count` reward options drawn from the pool (none from an empty
/// pool).
pub fn generate_rewards(pool: &[CardId], count: usize, rng: &mut GameRng) -> (r: Vec<CardId>)
    requires
        pool@.len() <= i32::MAX,
    ensures
        pool@.len() == 0 ==> r@.len() == 0,
        pool@.len() > 0 ==> r@.len() == count,
        forall|i: int| 0 <= i < r@.len() ==> card_ids_view(pool@).contains(#[trigger] r@[i]@),
        final(rng).spec_seed() == old(rng).spec_seed(),
{
    let mut rewards: Vec<CardId> = Vec::new();
    if pool.len() == 0 {
        return rewards;
    }
    let mut k: usize = 0;
    while k < count
        invariant
            0 < pool@.len() <= i32::MAX,
            k <= count,
            rewards@.len() == k,
            rng.spec_seed() == old(rng).spec_seed(),
            forall|i: int| 0 <= i < rewards@.len() ==> card_ids_view(pool@).contains(#[trigger] rewards@[i]@),
        decreases count - k,
    {
        let idx = rng.index_below(pool.len());
        let id = pool[idx].clone();
        proof {
            assert(card_ids_view(pool@)[idx as int] == id@);
        }
        rewards.push(id);
        k = k + 1;
    }
    rewards
}

// ── Sorted id lists ─────────────────────────────────────────────────────

/// Lexicographic order of character sequences by code point: the order of
/// `String`'s `<`.
pub open spec fn seq_lt(a: Seq<char>, b: Seq<char>) -> bool
    decreases a.len(),
{
    if a.len() == 0 {
        b.len() > 0
    } else if b.len() == 0 {
        false
    } else if a[0] != b[0] {
        (a[0] as int) < (b[0] as int)
    } else {
        seq_lt(a.drop_first(), b.drop_first())
    }
}

/// Every element comes strictly before the next: sorted, without repeats.
pub open spec fn strictly_sorted(s: Seq<Seq<char>>) -> bool {
    forall|i: int, j: int| 0 <= i < j < s.len() ==> seq_lt(#[trigger] s[i], #[trigger] s[j])
}

proof fn lemma_lt_irreflexive(a: Seq<char>)
    ensures
        !seq_lt(a, a),
    decreases a.len(),
{
    if a.len() > 0 {
        lemma_lt_irreflexive(a.drop_first());
    }
}

proof fn lemma_lt_total(a: Seq<char>, b: Seq<char>)
    ensures
        a == b || seq_lt(a, b) || seq_lt(b, a),
        !(seq_lt(a, b) && seq_lt(b, a)),
    decreases a.len(),
{
    if a.len() == 0 || b.len() == 0 {
        if a.len() == 0 && b.len() == 0 {
            assert(a =~= b);
        }
    } else if a[0] != b[0] {
        assert((a[0] as int) != (b[0] as int));
    } else {
        lemma_lt_total(a.drop_first(), b.drop_first());
        if a.drop_first() == b.drop_first() {
            assert forall|i: int| 0 <= i < a.len() implies a[i] == b[i] by {
                if i > 0 {
                    assert(a[i] == a.drop_first()[i - 1]);
                    assert(b[i] == b.drop_first()[i - 1]);
                }
            }
            assert(a =~= b);
        }
    }
}

proof fn lemma_lt_transitive(a: Seq<char>, b: Seq<char>, c: Seq<char>)
    requires
        seq_lt(a, b),
        seq_lt(b, c),
    ensures
        seq_lt(a, c),
    decreases a.len(),
{
    if a.len() > 0 && b.len() > 0 && c.len() > 0 {
        if a[0] == b[0] && b[0] == c[0] {
            lemma_lt_transitive(a.drop_first(), b.drop_first(), c.drop_first());
        }
    }
}

proof fn lemma_lt_skip(a: Seq<char>, b: Seq<char>, i: int)
    requires
        0 <= i <= a.len(),
        i <= b.len(),
        forall|j: int| 0 <= j < i ==> a[j] == b[j],
    ensures
        seq_lt(a, b) == seq_lt(a.skip(i), b.skip(i)),
    decreases i,
{
    if i == 0 {
        assert(a.skip(0) =~= a);
        assert(b.skip(0) =~= b);
    } else {
        assert forall|j: int| 0 <= j < i - 1 implies a.drop_first()[j] == b.drop_first()[j] by {
            assert(a[j + 1] == b[j + 1]);
        }
        lemma_lt_skip(a.drop_first(), b.drop_first(), i - 1);
        assert(a.drop_first().skip(i - 1) =~= a.skip(i));
        assert(b.drop_first().skip(i - 1) =~= b.skip(i));
        assert(a[0] == b[0]);
    }
}

/// Whether `a` comes strictly before `b`.
pub fn str_lt(a: &str, b: &str) -> (r: bool)
    ensures
        r == seq_lt(a@, b@),
{
    let n = a.unicode_len();
    let m = b.unicode_len();
    let mut i: usize = 0;
    while i < n && i < m
        invariant
            n == a@.len(),
            m == b@.len(),
            i <= n,
            i <= m,
            forall|j: int| 0 <= j < i ==> a@[j] == b@[j],
        decreases n - i,
    {
        let ca = a.get_char(i);
        let cb = b.get_char(i);
        if ca != cb {
            proof {
                lemma_lt_skip(a@, b@, i as int);
                assert(a@.skip(i as int)[0] == ca);
                assert(b@.skip(i as int)[0] == cb);
            }
            return (ca as u32) < (cb as u32);
        }
        i = i + 1;
    }
    proof {
        lemma_lt_skip(a@, b@, i as int);
    }
    n < m
}

/// Whether `order` lists each index of `ids` once, by id, and keeps the
/// given order among equal ids: the order a stable sort by id gives.
pub open spec fn is_id_order(ids: Seq<Seq<char>>, order: Seq<usize>) -> bool {
    &&& order.len() == ids.len()
    &&& forall|k: int| 0 <= k < order.len() ==> (#[trigger] order[k] as int) < ids.len()
    &&& forall|a: int, b: int| 0 <= a < b < order.len() ==> #[trigger] order[a] != #[trigger] order[b]
    &&& forall|a: int, b: int|
        0 <= a < b < order.len() ==> !seq_lt(ids[#[trigger] order[b] as int], ids[#[trigger] order[a] as int])
    &&& forall|a: int, b: int|
        0 <= a < b < order.len() && ids[#[trigger] order[a] as int] == ids[#[trigger] order[b] as int]
            ==> order[a] < order[b]
}

/// The ids of a list of strings, as character sequences.
pub open spec fn strings_view(v: Seq<String>) -> Seq<Seq<char>> {
    Seq::new(v.len(), |i: int| v[i]@)
}

/// The positions of `ids` in the order a stable sort by id puts them.
pub fn id_order(ids: &Vec<String>) -> (order: Vec<usize>)
    ensures
        is_id_order(strings_view(ids@), order@),
{
    let ghost keys = strings_view(ids@);
    let mut out: Vec<usize> = Vec::new();
    let mut i: usize = 0;
    while i < ids.len()
        invariant
            i <= ids@.len(),
            keys == strings_view(ids@),
            out@.len() == i,
            forall|k: int| 0 <= k < out@.len() ==> (#[trigger] out@[k] as int) < i,
            forall|a: int, b: int| 0 <= a < b < out@.len() ==> #[trigger] out@[a] != #[trigger] out@[b],
            forall|a: int, b: int|
                0 <= a < b < out@.len() ==> !seq_lt(keys[#[trigger] out@[b] as int], keys[#[trigger] out@[a] as int]),
            forall|a: int, b: int|
                0 <= a < b < out@.len() && keys[#[trigger] out@[a] as int] == keys[#[trigger] out@[b] as int]
                    ==> out@[a] < out@[b],
        decreases ids@.len() - i,
    {
        let ghost x = keys[i as int];
        let mut p: usize = 0;
        while p < out.len() && !str_lt(ids[i].as_str(), ids[out[p]].as_str())
            invariant
                i < ids@.len(),
                keys == strings_view(ids@),
                x == keys[i as int],
                p <= out@.len(),
                out@.len() == i,
                forall|k: int| 0 <= k < out@.len() ==> (#[trigger] out@[k] as int) < i,
                forall|k: int| 0 <= k < p ==> !seq_lt(x, keys[#[trigger] out@[k] as int]),
            decreases out@.len() - p,
        {
            p = p + 1;
        }
        let ghost old_out = out@;
        proof {
            assert(p < old_out.len() ==> seq_lt(x, keys[old_out[p as int] as int]));
        }
        out.insert(p, i);
        proof {
            let nv = out@;
            assert(nv =~= old_out.insert(p as int, i));
            assert forall|k: int| 0 <= k < nv.len() implies (#[trigger] nv[k] as int) < i + 1 by {
                if k < p { assert(nv[k] == old_out[k]); } else if k > p { assert(nv[k] == old_out[k - 1]); }
            }
            assert forall|a: int, b: int| 0 <= a < b < nv.len() implies #[trigger] nv[a] != #[trigger] nv[b] by {
                if a < p { assert(nv[a] == old_out[a]); } else if a > p { assert(nv[a] == old_out[a - 1]); }
                if b < p { assert(nv[b] == old_out[b]); } else if b > p { assert(nv[b] == old_out[b - 1]); }
            }
            // every element after the insertion point comes strictly after x
            assert forall|k: int| p <= k < old_out.len() implies seq_lt(x, keys[#[trigger] old_out[k] as int]) by {
                if k > p {
                    let op = keys[old_out[p as int] as int];
                    let ok = keys[old_out[k] as int];
                    assert(!seq_lt(ok, op));
                    lemma_lt_total(ok, op);
                    if ok != op {
                        lemma_lt_transitive(x, op, ok);
                    }
                }
            }
            assert forall|a: int, b: int| 0 <= a < b < nv.len() implies !seq_lt(
                keys[#[trigger] nv[b] as int],
                keys[#[trigger] nv[a] as int],
            ) by {
                if b < p {
                    assert(nv[a] == old_out[a] && nv[b] == old_out[b]);
                } else if b == p {
                    assert(nv[a] == old_out[a]);
                } else if a > p {
                    assert(nv[a] == old_out[a - 1] && nv[b] == old_out[b - 1]);
                } else if a == p {
                    assert(nv[b] == old_out[b - 1]);
                    let kb = keys[old_out[b - 1] as int];
                    assert(seq_lt(x, kb));
                    lemma_lt_total(x, kb);
                } else {
                    assert(nv[a] == old_out[a] && nv[b] == old_out[b - 1]);
                    let ka = keys[old_out[a] as int];
                    let kb = keys[old_out[b - 1] as int];
                    assert(seq_lt(x, kb));
                    assert(!seq_lt(x, ka));
                    lemma_lt_total(x, ka);
                    if kb != ka && seq_lt(kb, ka) {
                        if x == ka {
                            lemma_lt_total(x, kb);
                        } else {
                            lemma_lt_transitive(x, kb, ka);
                        }
                    }
                }
            }
            assert forall|a: int, b: int|
                0 <= a < b < nv.len() && keys[#[trigger] nv[a] as int] == keys[#[trigger] nv[b] as int]
                    implies nv[a] < nv[b] by {
                if b < p {
                    assert(nv[a] == old_out[a] && nv[b] == old_out[b]);
                } else if b == p {
                    assert(nv[a] == old_out[a]);
                } else if a > p {
                    assert(nv[a] == old_out[a - 1] && nv[b] == old_out[b - 1]);
                } else if a == p {
                    assert(nv[b] == old_out[b - 1]);
                    lemma_lt_irreflexive(x);
                } else {
                    assert(nv[a] == old_out[a] && nv[b] == old_out[b - 1]);
                }
            }
        }
        i = i + 1;
    }
    out
}

/// Insert an id into a strictly sorted list, unless it is already there.
fn insert_sorted(v: &mut Vec<CardId>, x: CardId)
    requires
        strictly_sorted(card_ids_view(old(v)@)),
    ensures
        strictly_sorted(card_ids_view(final(v)@)),
        forall|y: Seq<char>| card_ids_view(final(v)@).contains(y) <==> (card_ids_view(old(v)@).contains(y) || y == x@),
{
    let ghost old_view = card_ids_view(v@);
    let mut p: usize = 0;
    loop
        invariant
            p <= v@.len(),
            card_ids_view(v@) == old_view,
            strictly_sorted(old_view),
            forall|k: int| 0 <= k < p ==> seq_lt(#[trigger] old_view[k], x@),
        ensures
            p <= v@.len(),
            card_ids_view(v@) == old_view,
            forall|k: int| 0 <= k < p ==> seq_lt(#[trigger] old_view[k], x@),
            p < v@.len() ==> !seq_lt(old_view[p as int], x@),
        decreases v@.len() - p,
    {
        if p >= v.len() {
            break;
        }
        if !str_lt(v[p].as_str(), x.as_str()) {
            proof {
                assert(old_view[p as int] == v@[p as int]@);
            }
            break;
        }
        proof {
            assert(old_view[p as int] == v@[p as int]@);
        }
        p = p + 1;
    }
    if p < v.len() && str_eq(v[p].as_str(), x.as_str()) {
        proof {
            assert(old_view[p as int] == x@);
            assert forall|y: Seq<char>| card_ids_view(v@).contains(y) <==> (old_view.contains(y) || y == x@) by {
                if y == x@ {
                    assert(card_ids_view(v@)[p as int] == y);
                }
            }
        }
        return;
    }
    let ghost xv = x@;
    proof {
        if p < old_view.len() {
            assert(old_view[p as int] == v@[p as int]@);
            lemma_lt_total(old_view[p as int], xv);
        }
    }
    v.insert(p, x);
    proof {
        let nv = card_ids_view(v@);
        assert(nv =~= old_view.insert(p as int, xv));
        assert forall|i: int, j: int| 0 <= i < j < nv.len() implies seq_lt(#[trigger] nv[i], #[trigger] nv[j]) by {
            if j < p {
                assert(nv[i] == old_view[i] && nv[j] == old_view[j]);
            } else if j == p {
                assert(nv[i] == old_view[i]);
            } else if i > p {
                assert(nv[i] == old_view[i - 1] && nv[j] == old_view[j - 1]);
            } else if i == p {
                assert(nv[j] == old_view[j - 1]);
                if j - 1 > p {
                    assert(seq_lt(old_view[p as int], old_view[j - 1]));
                    lemma_lt_transitive(xv, old_view[p as int], old_view[j - 1]);
                }
            } else {
                assert(nv[i] == old_view[i] && nv[j] == old_view[j - 1]);
                assert(seq_lt(old_view[i], xv));
                if j - 1 > p {
                    lemma_lt_transitive(xv, old_view[p as int], old_view[j - 1]);
                    lemma_lt_transitive(old_view[i], xv, old_view[j - 1]);
                } else {
                    lemma_lt_transitive(old_view[i], xv, old_view[j - 1]);
                }
            }
        }
        assert forall|y: Seq<char>| nv.contains(y) <==> (old_view.contains(y) || y == xv) by {
            if nv.contains(y) {
                let k = choose|k: int| 0 <= k < nv.len() && nv[k] == y;
                if k < p {
                    assert(old_view[k] == y);
                } else if k > p {
                    assert(old_view[k - 1] == y);
                }
            }
            if old_view.contains(y) {
                let k = choose|k: int| 0 <= k < old_view.len() && old_view[k] == y;
                if k < p {
                    assert(nv[k] == y);
                } else {
                    assert(nv[k + 1] == y);
                }
            }
            if y == xv {
                assert(nv[p as int] == y);
            }
        }
    }
}

/// The distinct ids of a list, sorted.
fn sorted_unique(ids: &Vec<CardId>) -> (r: Vec<CardId>)
    ensures
        strictly_sorted(card_ids_view(r@)),
        forall|y: Seq<char>| card_ids_view(r@).contains(y) <==> card_ids_view(ids@).contains(y),
{
    let mut r: Vec<CardId> = Vec::new();
    let mut i: usize = 0;
    proof {
        assert(card_ids_view(r@) =~= Seq::<Seq<char>>::empty());
    }
    while i < ids.len()
        invariant
            i <= ids@.len(),
            strictly_sorted(card_ids_view(r@)),
            forall|y: Seq<char>| card_ids_view(r@).contains(y) <==> card_ids_view(ids@).take(i as int).contains(y),
        decreases ids@.len() - i,
    {
        let x = ids[i].clone();
        insert_sorted(&mut r, x);
        proof {
            let t = card_ids_view(ids@).take(i + 1);
            assert(t =~= card_ids_view(ids@).take(i as int).push(ids@[i as int]@));
            assert forall|y: Seq<char>| card_ids_view(r@).contains(y) <==> t.contains(y) by {
                if t.contains(y) {
                    let k = choose|k: int| 0 <= k < t.len() && t[k] == y;
                    if k < i {
                        assert(card_ids_view(ids@).take(i as int)[k] == y);
                    }
                }
                if card_ids_view(ids@).take(i as int).contains(y) {
                    let k = choose|k: int| 0 <= k < i && card_ids_view(ids@).take(i as int)[k] == y;
                    assert(t[k] == y);
                }
                if y == ids@[i as int]@ {
                    assert(t[i as int] == y);
                }
            }
        }
        i = i + 1;
    }
    proof {
        assert(card_ids_view(ids@).take(i as int) =~= card_ids_view(ids@));
    }
    r
}

/// The card ids of the table entries open to a sub-class that pass the
/// synergy filter, in table order.
pub open spec fn spec_table_ids_for(table: Seq<EntryView>, subclass: Seq<char>, filter: Option<Seq<char>>) -> Seq<Seq<char>>
    decreases table.len(),
{
    if table.len() == 0 {
        Seq::empty()
    } else {
        spec_table_ids_for(table.drop_last(), subclass, filter) + if table.last().1.contains(subclass) && spec_passes(table.last().4, filter) {
            seq![table.last().0]
        } else {
            Seq::empty()
        }
    }
}

/// The ids a run may see: the basics (strike, defend, wound), the starter
/// deck and every progression card open to the sub-class that passes the
/// filter.
pub open spec fn spec_run_card_ids(subclass: Seq<char>, filter: Option<Seq<char>>, race: Seq<char>, background: Seq<char>) -> Seq<Seq<char>> {
    seq!["strike"@, "defend"@, "wound"@] + spec_starter_ids(race, background) + spec_table_ids_for(spec_progression_table(), subclass, filter)
}

/// All card ids that can appear in a run for a sub-class and synergy
/// filter, sorted and without repeats.
pub fn active_card_ids_for_run(subclass: &str, synergy_filter: Option<&str>, race: &str, background: &str) -> (r: Vec<CardId>)
    requires
        is_fighter_subclass(subclass@),
        is_known_race(race@),
        is_known_background(background@),
    ensures
        strictly_sorted(card_ids_view(r@)),
        forall|y: Seq<char>| card_ids_view(r@).contains(y) <==> spec_run_card_ids(subclass@, opt_strs_view(synergy_filter), race@, background@).contains(y),
{
    let mut ids: Vec<CardId> = Vec::new();
    ids.push("strike".to_string());
    ids.push("defend".to_string());
    ids.push("wound".to_string());
    let starter = fighter_starter_deck(subclass, race, background);
    let ghost basics = card_ids_view(ids@);
    proof {
        assert(basics =~= seq!["strike"@, "defend"@, "wound"@]);
    }
    let mut i: usize = 0;
    while i < starter.len()
        invariant
            i <= starter@.len(),
            deck_ids_view(starter@) == spec_starter_ids(race@, background@),
            card_ids_view(ids@) == basics + deck_ids_view(starter@).take(i as int),
        decreases starter@.len() - i,
    {
        let ghost pre = card_ids_view(ids@);
        ids.push(starter[i].def_id.clone());
        proof {
            assert(card_ids_view(ids@) =~= pre.push(starter@[i as int].def_id@));
            assert(deck_ids_view(starter@).take(i + 1) =~= deck_ids_view(starter@).take(i as int).push(starter@[i as int].def_id@));
        }
        i = i + 1;
    }
    proof {
        assert(deck_ids_view(starter@).take(i as int) =~= deck_ids_view(starter@));
    }
    let ghost head = card_ids_view(ids@);
    let table = progression_table();
    let ghost t = entries_view(table@);
    let ghost f = opt_strs_view(synergy_filter);
    let mut k: usize = 0;
    while k < table.len()
        invariant
            k <= table@.len(),
            t == entries_view(table@),
            f == opt_strs_view(synergy_filter),
            card_ids_view(ids@) == head + spec_table_ids_for(t.take(k as int), subclass@, f),
        decreases table@.len() - k,
    {
        let e = &table[k];
        let ghost pre = card_ids_view(ids@);
        let ok = strs_contain(&e.subclasses, subclass) && passes_synergy_filter(e, synergy_filter);
        proof {
            assert(t.take(k + 1).drop_last() =~= t.take(k as int));
            assert(t.take(k + 1).last() == e@);
        }
        if ok {
            ids.push(e.card_id.to_string());
            proof {
                assert(card_ids_view(ids@) =~= pre.push(e.card_id@));
            }
        }
        proof {
            assert(card_ids_view(ids@) =~= head + spec_table_ids_for(t.take(k + 1), subclass@, f));
        }
        k = k + 1;
    }
    proof {
        assert(t.take(k as int) =~= t);
        assert(card_ids_view(ids@) =~= spec_run_card_ids(subclass@, f, race@, background@));
    }
    if OP_TEST_CARD_ENABLED {
        ids.push("martial_ascendancy".to_string());
    }
    sorted_unique(&ids)
}

/// The card ids of every table entry, in table order.
pub open spec fn spec_table_ids(table: Seq<EntryView>) -> Seq<Seq<char>> {
    table.map_values(|e: EntryView| e.0)
}

/// All card ids of the progression table, sorted and without repeats.
pub fn all_progression_card_ids() -> (r: Vec<CardId>)
    ensures
        strictly_sorted(card_ids_view(r@)),
        forall|y: Seq<char>| card_ids_view(r@).contains(y) <==> spec_table_ids(spec_progression_table()).contains(y),
{
    let table = progression_table();
    let ghost t = entries_view(table@);
    let mut ids: Vec<CardId> = Vec::new();
    let mut k: usize = 0;
    while k < table.len()
        invariant
            k <= table@.len(),
            t == entries_view(table@),
            card_ids_view(ids@) == spec_table_ids(t.take(k as int)),
        decreases table@.len() - k,
    {
        let ghost pre = card_ids_view(ids@);
        ids.push(table[k].card_id.to_string());
        proof {
            assert(card_ids_view(ids@) =~= pre.push(table@[k as int].card_id@));
            assert(spec_table_ids(t.take(k + 1)) =~= spec_table_ids(t.take(k as int)).push(t[k as int].0));
        }
        k = k + 1;
    }
    proof {
        assert(t.take(k as int) =~= t);
    }
    let mut r = sorted_unique(&ids);
    if OP_TEST_CARD_ENABLED {
        insert_sorted(&mut r, "martial_ascendancy".to_string());
    }
    r
}

// ── Distinct ids ────────────────────────────────────────────────────────

/// The position of an id among the shipped card definitions, read off a few
/// of its characters: exact on the shipped ids, arbitrary on other strings.
pub open spec fn shipped_card_index(s: Seq<char>) -> int {
    if s.len() == 3 {
        153
    } else if s.len() == 4 {
        if s[1] == 'a' {
            220
        } else if s[1] == 'h' {
            52
        } else if s[1] == 'i' {
            227
        } else {
            255
        }
    } else if s.len() == 5 {
        if s[2] == 'a' {
            12
        } else if s[2] == 'c' {
            37
        } else if s[2] == 'i' {
            25
        } else if s[2] == 'l' {
            9
        } else if s[2] == 'r' {
            3
        } else {
            if s[0] == 't' {
                36
            } else {
                2
            }
        }
    } else if s.len() == 6 {
        if s[2] == 'f' {
            1
        } else if s[2] == 'p' {
            273
        } else if s[2] == 'r' {
            0
        } else if s[2] == 's' {
            221
        } else if s[2] == 'u' {
            54
        } else {
            239
        }
    } else if s.len() == 7 {
        if s[0] == 'c' {
            262
        } else if s[0] == 'd' {
            132
        } else if s[0] == 'f' {
            65
        } else if s[0] == 'p' {
            225
        } else if s[0] == 'r' {
            if s[1] == 'a' {
                92
            } else {
                28
            }
        } else if s[0] == 's' {
            224
        } else {
            98
        }
    } else if s.len() == 8 {
        if s[3] == '_' {
            235
        } else if s[3] == 'a' {
            259
        } else if s[3] == 'e' {
            if s[1] == 'a' {
                155
            } else if s[1] == 'i' {
                215
            } else {
                44
            }
        } else if s[3] == 'f' {
            117
        } else if s[3] == 'g' {
            119
        } else if s[3] == 'k' {
            236
        } else if s[3] == 'n' {
            258
        } else if s[3] == 'o' {
            57
        } else if s[3] == 'r' {
            if s[0] == 'e' {
                66
            } else {
                279
            }
        } else {
            115
        }
    } else if s.len() == 9 {
        if s[3] == 'a' {
            203
        } else if s[3] == 'd' {
            168
        } else if s[3] == 'e' {
            if s[5] == 'b' {
                208
            } else if s[5] == 'i' {
                223
            } else {
                226
            }
        } else if s[3] == 'h' {
            260
        } else if s[3] == 'i' {
            19
        } else if s[3] == 'k' {
            if s[0] == 'b' {
                244
            } else {
                165
            }
        } else if s[3] == 'l' {
            158
        } else if s[3] == 'n' {
            if s[0] == 'i' {
                147
            } else {
                48
            }
        } else if s[3] == 'o' {
            if s[5] == 'b' {
                85
            } else {
                75
            }
        } else if s[3] == 'r' {
            if s[0] == 'b' {
                246
            } else if s[0] == 'i' {
                45
            } else {
                303
            }
        } else if s[3] == 's' {
            if s[4] == 'h' {
                126
            } else {
                118
            }
        } else {
            64
        }
    } else if s.len() == 10 {
        if s[6] == '_' {
            297
        } else if s[6] == 'a' {
            164
        } else if s[6] == 'b' {
            if s[3] == 'a' {
                302
            } else if s[3] == 'e' {
                212
            } else if s[3] == 'k' {
                204
            } else if s[3] == 'n' {
                149
            } else if s[3] == 'o' {
                285
            } else if s[3] == 'r' {
                261
            } else {
                49
            }
        } else if s[6] == 'd' {
            250
        } else if s[6] == 'e' {
            if s[0] == 'p' {
                214
            } else {
                300
            }
        } else if s[6] == 'h' {
            247
        } else if s[6] == 'i' {
            252
        } else if s[6] == 'l' {
            163
        } else if s[6] == 'm' {
            198
        } else if s[6] == 'n' {
            282
        } else if s[6] == 'o' {
            167
        } else if s[6] == 'r' {
            if s[0] == 'k' {
                148
            } else if s[0] == 'l' {
                299
            } else {
                209
            }
        } else if s[6] == 's' {
            80
        } else if s[6] == 't' {
            116
        } else if s[6] == 'u' {
            if s[0] == 'i' {
                10
            } else {
                265
            }
        } else if s[6] == 'v' {
            274
        } else {
            if s[1] == 'c' {
                267
            } else if s[1] == 'i' {
                88
            } else {
                263
            }
        }
    } else if s.len() == 11 {
        if s[7] == '_' {
            21
        } else if s[7] == 'a' {
            if s[2] == 'b' {
                13
            } else {
                91
            }
        } else if s[7] == 'b' {
            if s[2] == 'a' {
                271
            } else if s[2] == 'g' {
                61
            } else if s[2] == 'i' {
                11
            } else {
                157
            }
        } else if s[7] == 'c' {
            109
        } else if s[7] == 'd' {
            107
        } else if s[7] == 'e' {
            if s[0] == 'i' {
                112
            } else {
                238
            }
        } else if s[7] == 'f' {
            if s[3] == 'a' {
                40
            } else if s[3] == 'e' {
                142
            } else {
                79
            }
        } else if s[7] == 'i' {
            161
        } else if s[7] == 'k' {
            140
        } else if s[7] == 'l' {
            if s[0] == 'q' {
                31
            } else {
                188
            }
        } else if s[7] == 'm' {
            99
        } else if s[7] == 'n' {
            196
        } else if s[7] == 'o' {
            if s[0] == 'd' {
                135
            } else {
                237
            }
        } else if s[7] == 'r' {
            if s[1] == 'a' {
                if s[0] == 'd' {
                    272
                } else {
                    121
                }
            } else if s[1] == 'e' {
                5
            } else if s[1] == 'i' {
                231
            } else if s[1] == 'l' {
                if s[0] == 'b' {
                    47
                } else {
                    266
                }
            } else if s[1] == 'o' {
                173
            } else {
                249
            }
        } else if s[7] == 's' {
            136
        } else if s[7] == 't' {
            if s[0] == 'p' {
                195
            } else {
                71
            }
        } else if s[7] == 'u' {
            if s[0] == 's' {
                278
            } else {
                77
            }
        } else {
            if s[3] == 'a' {
                213
            } else if s[3] == 'e' {
                68
            } else if s[3] == 'n' {
                143
            } else if s[3] == 'o' {
                6
            } else {
                93
            }
        }
    } else if s.len() == 12 {
        if s[3] == '_' {
            if s[0] == 'f' {
                46
            } else {
                174
            }
        } else if s[3] == 'a' {
            if s[0] == 'a' {
                276
            } else {
                192
            }
        } else if s[3] == 'b' {
            50
        } else if s[3] == 'd' {
            if s[0] == 'c' {
                159
            } else {
                205
            }
        } else if s[3] == 'e' {
            if s[0] == 'p' {
                30
            } else if s[0] == 's' {
                211
            } else {
                63
            }
        } else if s[3] == 'f' {
            27
        } else if s[3] == 'g' {
            289
        } else if s[3] == 'k' {
            if s[0] == 'd' {
                154
            } else if s[0] == 'p' {
                254
            } else {
                70
            }
        } else if s[3] == 'l' {
            if s[0] == 'k' {
                199
            } else {
                185
            }
        } else if s[3] == 'm' {
            if s[0] == 'd' {
                150
            } else if s[0] == 'f' {
                218
            } else {
                81
            }
        } else if s[3] == 'n' {
            if s[0] == 'c' {
                219
            } else if s[0] == 'p' {
                139
            } else {
                141
            }
        } else if s[3] == 'o' {
            60
        } else if s[3] == 'r' {
            if s[1] == 'n' {
                7
            } else {
                8
            }
        } else if s[3] == 's' {
            if s[0] == 'b' {
                62
            } else {
                176
            }
        } else if s[3] == 't' {
            if s[0] == 'b' {
                55
            } else {
                156
            }
        } else if s[3] == 'u' {
            245
        } else if s[3] == 'v' {
            if s[0] == 'h' {
                4
            } else {
                130
            }
        } else {
            if s[0] == 'h' {
                181
            } else {
                82
            }
        }
    } else if s.len() == 13 {
        if s[0] == 'a' {
            if s[1] == 'e' {
                69
            } else if s[1] == 'n' {
                295
            } else {
                264
            }
        } else if s[0] == 'b' {
            180
        } else if s[0] == 'c' {
            41
        } else if s[0] == 'd' {
            if s[3] == 'b' {
                33
            } else if s[3] == 'c' {
                270
            } else {
                53
            }
        } else if s[0] == 'e' {
            170
        } else if s[0] == 'f' {
            if s[1] == 'a' {
                206
            } else {
                144
            }
        } else if s[0] == 'h' {
            if s[1] == 'o' {
                35
            } else {
                123
            }
        } else if s[0] == 'i' {
            39
        } else if s[0] == 'k' {
            127
        } else if s[0] == 'm' {
            277
        } else if s[0] == 'n' {
            243
        } else if s[0] == 'o' {
            171
        } else if s[0] == 'p' {
            86
        } else if s[0] == 'r' {
            if s[4] == 'a' {
                186
            } else if s[4] == 'd' {
                120
            } else if s[4] == 'e' {
                194
            } else {
                76
            }
        } else if s[0] == 's' {
            if s[2] == 'a' {
                291
            } else if s[2] == 'o' {
                216
            } else {
                51
            }
        } else if s[0] == 't' {
            129
        } else if s[0] == 'u' {
            if s[1] == 'm' {
                275
            } else {
                248
            }
        } else {
            178
        }
    } else if s.len() == 14 {
        if s[10] == '_' {
            286
        } else if s[10] == 'a' {
            if s[1] == 'e' {
                134
            } else if s[1] == 'i' {
                283
            } else {
                138
            }
        } else if s[10] == 'b' {
            if s[0] == 'c' {
                133
            } else if s[0] == 'l' {
                217
            } else {
                16
            }
        } else if s[10] == 'c' {
            24
        } else if s[10] == 'e' {
            22
        } else if s[10] == 'f' {
            110
        } else if s[10] == 'h' {
            201
        } else if s[10] == 'i' {
            105
        } else if s[10] == 'k' {
            122
        } else if s[10] == 'l' {
            if s[0] == 'e' {
                152
            } else if s[0] == 'f' {
                78
            } else if s[0] == 's' {
                304
            } else {
                253
            }
        } else if s[10] == 'm' {
            257
        } else if s[10] == 'n' {
            301
        } else if s[10] == 'o' {
            268
        } else if s[10] == 'p' {
            128
        } else if s[10] == 'r' {
            if s[3] == 'd' {
                183
            } else if s[3] == 'i' {
                if s[0] == 'p' {
                    26
                } else {
                    32
                }
            } else if s[3] == 'o' {
                83
            } else if s[3] == 't' {
                96
            } else if s[3] == 'u' {
                125
            } else {
                17
            }
        } else if s[10] == 's' {
            if s[0] == 'd' {
                189
            } else if s[0] == 'f' {
                84
            } else {
                230
            }
        } else if s[10] == 't' {
            if s[0] == 'c' {
                193
            } else {
                202
            }
        } else if s[10] == 'u' {
            if s[0] == 'b' {
                89
            } else if s[0] == 'c' {
                200
            } else if s[0] == 'd' {
                294
            } else {
                280
            }
        } else if s[10] == 'w' {
            if s[1] == 'a' {
                73
            } else if s[1] == 'i' {
                177
            } else if s[1] == 'r' {
                166
            } else {
                114
            }
        } else {
            29
        }
    } else if s.len() == 15 {
        if s[3] == '_' {
            207
        } else if s[3] == 'a' {
            if s[7] == 'i' {
                305
            } else if s[7] == 'm' {
                90
            } else {
                56
            }
        } else if s[3] == 'c' {
            187
        } else if s[3] == 'd' {
            if s[11] == 'b' {
                240
            } else {
                242
            }
        } else if s[3] == 'e' {
            if s[0] == 'a' {
                42
            } else {
                179
            }
        } else if s[3] == 'f' {
            146
        } else if s[3] == 'i' {
            if s[0] == 'c' {
                281
            } else if s[0] == 'd' {
                184
            } else {
                108
            }
        } else if s[3] == 'k' {
            15
        } else if s[3] == 'l' {
            if s[1] == 'e' {
                137
            } else if s[1] == 'n' {
                124
            } else {
                43
            }
        } else if s[3] == 'n' {
            182
        } else if s[3] == 'o' {
            if s[0] == 'e' {
                23
            } else {
                251
            }
        } else if s[3] == 'r' {
            if s[0] == 'e' {
                287
            } else {
                298
            }
        } else if s[3] == 's' {
            18
        } else if s[3] == 't' {
            if s[0] == 'c' {
                113
            } else {
                74
            }
        } else {
            175
        }
    } else if s.len() == 16 {
        if s[11] == 'a' {
            72
        } else if s[11] == 'e' {
            241
        } else if s[11] == 'f' {
            67
        } else if s[11] == 'h' {
            94
        } else if s[11] == 'i' {
            169
        } else if s[11] == 'l' {
            if s[0] == 'a' {
                210
            } else {
                229
            }
        } else if s[11] == 'm' {
            34
        } else if s[11] == 'n' {
            if s[0] == 'f' {
                162
            } else {
                101
            }
        } else if s[11] == 's' {
            104
        } else {
            103
        }
    } else if s.len() == 17 {
        if s[7] == 'a' {
            14
        } else if s[7] == 'd' {
            228
        } else if s[7] == 'e' {
            172
        } else if s[7] == 'h' {
            197
        } else if s[7] == 'i' {
            97
        } else if s[7] == 'l' {
            233
        } else if s[7] == 'o' {
            59
        } else if s[7] == 'r' {
            102
        } else if s[7] == 's' {
            234
        } else if s[7] == 't' {
            20
        } else {
            111
        }
    } else if s.len() == 18 {
        if s[6] == '_' {
            190
        } else if s[6] == 'e' {
            284
        } else if s[6] == 'f' {
            151
        } else if s[6] == 'g' {
            95
        } else if s[6] == 'l' {
            38
        } else if s[6] == 'n' {
            256
        } else if s[6] == 'o' {
            58
        } else if s[6] == 'r' {
            160
        } else if s[6] == 's' {
            269
        } else {
            100
        }
    } else if s.len() == 19 {
        if s[0] == 'b' {
            87
        } else if s[0] == 'c' {
            232
        } else if s[0] == 'g' {
            222
        } else if s[0] == 'm' {
            145
        } else {
            191
        }
    } else if s.len() == 20 {
        if s[8] == '_' {
            288
        } else if s[8] == 'l' {
            290
        } else if s[8] == 'r' {
            296
        } else {
            306
        }
    } else if s.len() == 21 {
        if s[2] == 'e' {
            131
        } else {
            292
        }
    } else if s.len() == 22 {
        106
    } else {
        293
    }
}

/// The ids of the shipped card definitions, position by position.
pub open spec fn shipped_card_ids_hold(s: Seq<CardDef>) -> bool {
    &&& s.len() == 307
    &&& s[0].id@ == "strike"@
    &&& s[1].id@ == "defend"@
    &&& s[2].id@ == "wound"@
    &&& s[3].id@ == "barbs"@
    &&& s[4].id@ == "heavy_strike"@
    &&& s[5].id@ == "deft_strike"@
    &&& s[6].id@ == "second_wind"@
    &&& s[7].id@ == "energy_surge"@
    &&& s[8].id@ == "extra_attack"@
    &&& s[9].id@ == "rally"@
    &&& s[10].id@ == "iron_guard"@
    &&& s[11].id@ == "shield_bash"@
    &&& s[12].id@ == "brace"@
    &&& s[13].id@ == "unbreakable"@
    &&& s[14].id@ == "intimidating_blow"@
    &&& s[15].id@ == "reckless_attack"@
    &&& s[16].id@ == "sundering_blow"@
    &&& s[17].id@ == "reaving_strike"@
    &&& s[18].id@ == "measured_strike"@
    &&& s[19].id@ == "sizing_up"@
    &&& s[20].id@ == "calculated_strike"@
    &&& s[21].id@ == "precise_cut"@
    &&& s[22].id@ == "read_and_react"@
    &&& s[23].id@ == "expose_weakness"@
    &&& s[24].id@ == "flurry_of_cuts"@
    &&& s[25].id@ == "feint"@
    &&& s[26].id@ == "patient_strike"@
    &&& s[27].id@ == "perfect_read"@
    &&& s[28].id@ == "riposte"@
    &&& s[29].id@ == "perfect_rhythm"@
    &&& s[30].id@ == "power_strike"@
    &&& s[31].id@ == "quick_slash"@
    &&& s[32].id@ == "vicious_strike"@
    &&& s[33].id@ == "double_strike"@
    &&& s[34].id@ == "brace_for_impact"@
    &&& s[35].id@ == "hold_the_line"@
    &&& s[36].id@ == "taunt"@
    &&& s[37].id@ == "focus"@
    &&& s[38].id@ == "martial_ascendancy"@
    &&& s[39].id@ == "iron_fortress"@
    &&& s[40].id@ == "titans_fury"@
    &&& s[41].id@ == "coup_de_grace"@
    &&& s[42].id@ == "adrenaline_rush"@
    &&& s[43].id@ == "exploit_opening"@
    &&& s[44].id@ == "momentum"@
    &&& s[45].id@ == "improvise"@
    &&& s[46].id@ == "fae_ancestry"@
    &&& s[47].id@ == "blood_price"@
    &&& s[48].id@ == "stonewall"@
    &&& s[49].id@ == "flash_bang"@
    &&& s[50].id@ == "nimble_dodge"@
    &&& s[51].id@ == "savage_charge"@
    &&& s[52].id@ == "shiv"@
    &&& s[53].id@ == "dragon_breath"@
    &&& s[54].id@ == "pounce"@
    &&& s[55].id@ == "brutal_swing"@
    &&& s[56].id@ == "savage_presence"@
    &&& s[57].id@ == "demolish"@
    &&& s[58].id@ == "wrath_of_the_giant"@
    &&& s[59].id@ == "executioners_blow"@
    &&& s[60].id@ == "blood_frenzy"@
    &&& s[61].id@ == "raging_blow"@
    &&& s[62].id@ == "berserk_roar"@
    &&& s[63].id@ == "unleash_fury"@
    &&& s[64].id@ == "deathwish"@
    &&& s[65].id@ == "fortify"@
    &&& s[66].id@ == "entrench"@
    &&& s[67].id@ == "stalwart_defense"@
    &&& s[68].id@ == "shield_wall"@
    &&& s[69].id@ == "aegis_eternal"@
    &&& s[70].id@ == "spiked_armor"@
    &&& s[71].id@ == "retribution"@
    &&& s[72].id@ == "thorned_carapace"@
    &&& s[73].id@ == "barbed_bulwark"@
    &&& s[74].id@ == "wrath_of_thorns"@
    &&& s[75].id@ == "bloodlust"@
    &&& s[76].id@ == "raging_strike"@
    &&& s[77].id@ == "totem_guard"@
    &&& s[78].id@ == "frenzied_slash"@
    &&& s[79].id@ == "battle_fury"@
    &&& s[80].id@ == "thick_skin"@
    &&& s[81].id@ == "primal_surge"@
    &&& s[82].id@ == "undying_rage"@
    &&& s[83].id@ == "blood_offering"@
    &&& s[84].id@ == "fury_unleashed"@
    &&& s[85].id@ == "bloodbath"@
    &&& s[86].id@ == "pain_is_power"@
    &&& s[87].id@ == "berserker_deathwish"@
    &&& s[88].id@ == "wild_swing"@
    &&& s[89].id@ == "berserk_flurry"@
    &&& s[90].id@ == "savage_momentum"@
    &&& s[91].id@ == "unstoppable"@
    &&& s[92].id@ == "rampage"@
    &&& s[93].id@ == "spirit_ward"@
    &&& s[94].id@ == "ancestral_shield"@
    &&& s[95].id@ == "warding_totem_card"@
    &&& s[96].id@ == "fortified_rage"@
    &&& s[97].id@ == "unbreaking_spirit"@
    &&& s[98].id@ == "war_cry"@
    &&& s[99].id@ == "spirit_mend"@
    &&& s[100].id@ == "vengeful_ancestors"@
    &&& s[101].id@ == "totem_of_renewal"@
    &&& s[102].id@ == "ancestors_embrace"@
    &&& s[103].id@ == "desperate_strike"@
    &&& s[104].id@ == "adrenaline_spike"@
    &&& s[105].id@ == "feral_instinct"@
    &&& s[106].id@ == "berserkers_trance_card"@
    &&& s[107].id@ == "deaths_door"@
    &&& s[108].id@ == "flailing_strike"@
    &&& s[109].id@ == "frenzy_card"@
    &&& s[110].id@ == "whirlwind_fury"@
    &&& s[111].id@ == "one_thousand_cuts"@
    &&& s[112].id@ == "inner_peace"@
    &&& s[113].id@ == "centered_strike"@
    &&& s[114].id@ == "swift_footwork"@
    &&& s[115].id@ == "ki_surge"@
    &&& s[116].id@ == "meditation"@
    &&& s[117].id@ == "ki_focus"@
    &&& s[118].id@ == "ki_strike"@
    &&& s[119].id@ == "ki_guard"@
    &&& s[120].id@ == "rapid_strikes"@
    &&& s[121].id@ == "palm_strike"@
    &&& s[122].id@ == "whirlwind_kick"@
    &&& s[123].id@ == "hundred_fists"@
    &&& s[124].id@ == "endless_barrage"@
    &&& s[125].id@ == "focused_strike"@
    &&& s[126].id@ == "ki_shield"@
    &&& s[127].id@ == "ki_channeling"@
    &&& s[128].id@ == "quivering_palm"@
    &&& s[129].id@ == "transcendence"@
    &&& s[130].id@ == "nerve_strike"@
    &&& s[131].id@ == "pressure_point_strike"@
    &&& s[132].id@ == "dim_mak"@
    &&& s[133].id@ == "crippling_blow"@
    &&& s[134].id@ == "weakening_aura"@
    &&& s[135].id@ == "death_touch"@
    &&& s[136].id@ == "shadow_step"@
    &&& s[137].id@ == "deflecting_palm"@
    &&& s[138].id@ == "counter_stance"@
    &&& s[139].id@ == "phantom_form"@
    &&& s[140].id@ == "shadow_kill"@
    &&& s[141].id@ == "stance_shift"@
    &&& s[142].id@ == "tigers_fury"@
    &&& s[143].id@ == "cranes_wing"@
    &&& s[144].id@ == "flowing_water"@
    &&& s[145].id@ == "monk_dragons_breath"@
    &&& s[146].id@ == "perfect_harmony"@
    &&& s[147].id@ == "iron_skin"@
    &&& s[148].id@ == "ki_barrier"@
    &&& s[149].id@ == "stone_body"@
    &&& s[150].id@ == "diamond_soul"@
    &&& s[151].id@ == "fist_of_north_star"@
    &&& s[152].id@ == "eldritch_blast"@
    &&& s[153].id@ == "hex"@
    &&& s[154].id@ == "dark_bargain"@
    &&& s[155].id@ == "maledict"@
    &&& s[156].id@ == "pact_barrier"@
    &&& s[157].id@ == "siphon_bolt"@
    &&& s[158].id@ == "hellbrand"@
    &&& s[159].id@ == "cinder_feast"@
    &&& s[160].id@ == "balefire_cataclysm"@
    &&& s[161].id@ == "blood_tithe"@
    &&& s[162].id@ == "feast_of_cinders"@
    &&& s[163].id@ == "pact_blade"@
    &&& s[164].id@ == "soul_parry"@
    &&& s[165].id@ == "dusk_duel"@
    &&& s[166].id@ == "brand_the_weak"@
    &&& s[167].id@ == "black_oath"@
    &&& s[168].id@ == "void_gaze"@
    &&& s[169].id@ == "starless_whisper"@
    &&& s[170].id@ == "entropy_field"@
    &&& s[171].id@ == "oblivion_tide"@
    &&& s[172].id@ == "cosmic_extinction"@
    &&& s[173].id@ == "holy_strike"@
    &&& s[174].id@ == "lay_on_hands"@
    &&& s[175].id@ == "prayer_of_valor"@
    &&& s[176].id@ == "consecration"@
    &&& s[177].id@ == "divine_bulwark"@
    &&& s[178].id@ == "warding_slash"@
    &&& s[179].id@ == "shield_of_faith"@
    &&& s[180].id@ == "bastion_drive"@
    &&& s[181].id@ == "holy_bastion"@
    &&& s[182].id@ == "avenging_strike"@
    &&& s[183].id@ == "blade_of_wrath"@
    &&& s[184].id@ == "divine_judgment"@
    &&& s[185].id@ == "zealous_rush"@
    &&& s[186].id@ == "radiant_burst"@
    &&& s[187].id@ == "beacon_of_light"@
    &&& s[188].id@ == "solar_flare"@
    &&& s[189].id@ == "dawns_blessing"@
    &&& s[190].id@ == "avatar_of_radiance"@
    &&& s[191].id@ == "tricks_of_the_trade"@
    &&& s[192].id@ == "sneak_attack"@
    &&& s[193].id@ == "cunning_action"@
    &&& s[194].id@ == "rogue_evasion"@
    &&& s[195].id@ == "preparation"@
    &&& s[196].id@ == "assassinate"@
    &&& s[197].id@ == "rogue_shadow_step"@
    &&& s[198].id@ == "death_mark"@
    &&& s[199].id@ == "killing_blow"@
    &&& s[200].id@ == "cutlass_flurry"@
    &&& s[201].id@ == "grappling_hook"@
    &&& s[202].id@ == "dirty_fighting"@
    &&& s[203].id@ == "broadside"@
    &&& s[204].id@ == "smoke_bomb"@
    &&& s[205].id@ == "misdirection"@
    &&& s[206].id@ == "fan_of_knives"@
    &&& s[207].id@ == "ace_in_the_hole"@
    &&& s[208].id@ == "fire_bolt"@
    &&& s[209].id@ == "mage_armor"@
    &&& s[210].id@ == "arcane_intellect"@
    &&& s[211].id@ == "shield_spell"@
    &&& s[212].id@ == "ember_bolt"@
    &&& s[213].id@ == "arcane_ward"@
    &&& s[214].id@ == "prescience"@
    &&& s[215].id@ == "fireball"@
    &&& s[216].id@ == "scorching_ray"@
    &&& s[217].id@ == "lightning_bolt"@
    &&& s[218].id@ == "flame_shield"@
    &&& s[219].id@ == "counterspell"@
    &&& s[220].id@ == "ward"@
    &&& s[221].id@ == "dispel"@
    &&& s[222].id@ == "globe_of_protection"@
    &&& s[223].id@ == "foresight"@
    &&& s[224].id@ == "scrying"@
    &&& s[225].id@ == "portent"@
    &&& s[226].id@ == "time_stop"@
    &&& s[227].id@ == "wish"@
    &&& s[228].id@ == "battle_discipline"@
    &&& s[229].id@ == "studied_analysis"@
    &&& s[230].id@ == "minor_blessing"@
    &&& s[231].id@ == "dirty_trick"@
    &&& s[232].id@ == "commanding_presence"@
    &&& s[233].id@ == "survival_instinct"@
    &&& s[234].id@ == "improvised_weapon"@
    &&& s[235].id@ == "sea_legs"@
    &&& s[236].id@ == "backstab"@
    &&& s[237].id@ == "inner_focus"@
    &&& s[238].id@ == "resourceful"@
    &&& s[239].id@ == "dazzle"@
    &&& s[240].id@ == "wild_shape_bear"@
    &&& s[241].id@ == "wild_shape_eagle"@
    &&& s[242].id@ == "wild_shape_wolf"@
    &&& s[243].id@ == "natures_wrath"@
    &&& s[244].id@ == "bark_skin"@
    &&& s[245].id@ == "rejuvenation"@
    &&& s[246].id@ == "bear_maul"@
    &&& s[247].id@ == "thick_hide"@
    &&& s[248].id@ == "ursine_charge"@
    &&& s[249].id@ == "primal_roar"@
    &&& s[250].id@ == "eagle_dive"@
    &&& s[251].id@ == "swooping_strike"@
    &&& s[252].id@ == "wind_rider"@
    &&& s[253].id@ == "tempest_talons"@
    &&& s[254].id@ == "pack_tactics"@
    &&& s[255].id@ == "howl"@
    &&& s[256].id@ == "coordinated_strike"@
    &&& s[257].id@ == "alphas_command"@
    &&& s[258].id@ == "moonbeam"@
    &&& s[259].id@ == "entangle"@
    &&& s[260].id@ == "archdruid"@
    &&& s[261].id@ == "spark_bolt"@
    &&& s[262].id@ == "channel"@
    &&& s[263].id@ == "surge_wave"@
    &&& s[264].id@ == "arcane_shield"@
    &&& s[265].id@ == "wild_surge"@
    &&& s[266].id@ == "claw_strike"@
    &&& s[267].id@ == "scale_ward"@
    &&& s[268].id@ == "draconic_focus"@
    &&& s[269].id@ == "dragons_resilience"@
    &&& s[270].id@ == "draconic_bolt"@
    &&& s[271].id@ == "shadow_bolt"@
    &&& s[272].id@ == "dark_shroud"@
    &&& s[273].id@ == "siphon"@
    &&& s[274].id@ == "night_veil"@
    &&& s[275].id@ == "umbral_strike"@
    &&& s[276].id@ == "arcane_pulse"@
    &&& s[277].id@ == "mana_infusion"@
    &&& s[278].id@ == "spell_surge"@
    &&& s[279].id@ == "overload"@
    &&& s[280].id@ == "volatile_burst"@
    &&& s[281].id@ == "chain_lightning"@
    &&& s[282].id@ == "surge_nova"@
    &&& s[283].id@ == "wild_discharge"@
    &&& s[284].id@ == "sorcerer_cataclysm"@
    &&& s[285].id@ == "chaos_bolt"@
    &&& s[286].id@ == "unraveling_hex"@
    &&& s[287].id@ == "entropy_cascade"@
    &&& s[288].id@ == "sorcerer_pandemonium"@
    &&& s[289].id@ == "dragon_scale"@
    &&& s[290].id@ == "ancestral_resilience"@
    &&& s[291].id@ == "scaled_rebuke"@
    &&& s[292].id@ == "primordial_resilience"@
    &&& s[293].id@ == "sorcerer_dragons_breath"@
    &&& s[294].id@ == "draconic_surge"@
    &&& s[295].id@ == "ancient_power"@
    &&& s[296].id@ == "dragonfire_ascension"@
    &&& s[297].id@ == "shadow_tap"@
    &&& s[298].id@ == "necrotic_siphon"@
    &&& s[299].id@ == "life_drain"@
    &&& s[300].id@ == "void_feast"@
    &&& s[301].id@ == "eternal_hunger"@
    &&& s[302].id@ == "dread_bolt"@
    &&& s[303].id@ == "terrorize"@
    &&& s[304].id@ == "shadow_exploit"@
    &&& s[305].id@ == "final_nightmare"@
    &&& s[306].id@ == "sorcerers_apotheosis"@
}

/// The shipped definitions carry the shipped ids.
proof fn lemma_shipped_card_ids_hold(s: Seq<CardDef>)
    requires
        is_shipped_card_defs(s),
    ensures
        shipped_card_ids_hold(s),
{
    reveal(is_shipped_card_defs);
}

proof fn lemma_index_0_40(s: Seq<CardDef>, i: int)
    requires
        shipped_card_ids_hold(s),
        0 <= i < 40,
    ensures
        shipped_card_index(s[i].id@) == i,
{
    broadcast use vstd::string::group_string_axioms;

    if i == 0 {
        reveal_strlit("strike");
    } else if i == 1 {
        reveal_strlit("defend");
    } else if i == 2 {
        reveal_strlit("wound");
    } else if i == 3 {
        reveal_strlit("barbs");
    } else if i == 4 {
        reveal_strlit("heavy_strike");
    } else if i == 5 {
        reveal_strlit("deft_strike");
    } else if i == 6 {
        reveal_strlit("second_wind");
    } else if i == 7 {
        reveal_strlit("energy_surge");
    } else if i == 8 {
        reveal_strlit("extra_attack");
    } else if i == 9 {
        reveal_strlit("rally");
    } else if i == 10 {
        reveal_strlit("iron_guard");
    } else if i == 11 {
        reveal_strlit("shield_bash");
    } else if i == 12 {
        reveal_strlit("brace");
    } else if i == 13 {
        reveal_strlit("unbreakable");
    } else if i == 14 {
        reveal_strlit("intimidating_blow");
    } else if i == 15 {
        reveal_strlit("reckless_attack");
    } else if i == 16 {
        reveal_strlit("sundering_blow");
    } else if i == 17 {
        reveal_strlit("reaving_strike");
    } else if i == 18 {
        reveal_strlit("measured_strike");
    } else if i == 19 {
        reveal_strlit("sizing_up");
    } else if i == 20 {
        reveal_strlit("calculated_strike");
    } else if i == 21 {
        reveal_strlit("precise_cut");
    } else if i == 22 {
        reveal_strlit("read_and_react");
    } else if i == 23 {
        reveal_strlit("expose_weakness");
    } else if i == 24 {
        reveal_strlit("flurry_of_cuts");
    } else if i == 25 {
        reveal_strlit("feint");
    } else if i == 26 {
        reveal_strlit("patient_strike");
    } else if i == 27 {
        reveal_strlit("perfect_read");
    } else if i == 28 {
        reveal_strlit("riposte");
    } else if i == 29 {
        reveal_strlit("perfect_rhythm");
    } else if i == 30 {
        reveal_strlit("power_strike");
    } else if i == 31 {
        reveal_strlit("quick_slash");
    } else if i == 32 {
        reveal_strlit("vicious_strike");
    } else if i == 33 {
        reveal_strlit("double_strike");
    } else if i == 34 {
        reveal_strlit("brace_for_impact");
    } else if i == 35 {
        reveal_strlit("hold_the_line");
    } else if i == 36 {
        reveal_strlit("taunt");
    } else if i == 37 {
        reveal_strlit("focus");
    } else if i == 38 {
        reveal_strlit("martial_ascendancy");
    } else {
        reveal_strlit("iron_fortress");
    }
}

proof fn lemma_index_40_80(s: Seq<CardDef>, i: int)
    requires
        shipped_card_ids_hold(s),
        40 <= i < 80,
    ensures
        shipped_card_index(s[i].id@) == i,
{
    broadcast use vstd::string::group_string_axioms;

    if i == 40 {
        reveal_strlit("titans_fury");
    } else if i == 41 {
        reveal_strlit("coup_de_grace");
    } else if i == 42 {
        reveal_strlit("adrenaline_rush");
    } else if i == 43 {
        reveal_strlit("exploit_opening");
    } else if i == 44 {
        reveal_strlit("momentum");
    } else if i == 45 {
        reveal_strlit("improvise");
    } else if i == 46 {
        reveal_strlit("fae_ancestry");
    } else if i == 47 {
        reveal_strlit("blood_price");
    } else if i == 48 {
        reveal_strlit("stonewall");
    } else if i == 49 {
        reveal_strlit("flash_bang");
    } else if i == 50 {
        reveal_strlit("nimble_dodge");
    } else if i == 51 {
        reveal_strlit("savage_charge");
    } else if i == 52 {
        reveal_strlit("shiv");
    } else if i == 53 {
        reveal_strlit("dragon_breath");
    } else if i == 54 {
        reveal_strlit("pounce");
    } else if i == 55 {
        reveal_strlit("brutal_swing");
    } else if i == 56 {
        reveal_strlit("savage_presence");
    } else if i == 57 {
        reveal_strlit("demolish");
    } else if i == 58 {
        reveal_strlit("wrath_of_the_giant");
    } else if i == 59 {
        reveal_strlit("executioners_blow");
    } else if i == 60 {
        reveal_strlit("blood_frenzy");
    } else if i == 61 {
        reveal_strlit("raging_blow");
    } else if i == 62 {
        reveal_strlit("berserk_roar");
    } else if i == 63 {
        reveal_strlit("unleash_fury");
    } else if i == 64 {
        reveal_strlit("deathwish");
    } else if i == 65 {
        reveal_strlit("fortify");
    } else if i == 66 {
        reveal_strlit("entrench");
    } else if i == 67 {
        reveal_strlit("stalwart_defense");
    } else if i == 68 {
        reveal_strlit("shield_wall");
    } else if i == 69 {
        reveal_strlit("aegis_eternal");
    } else if i == 70 {
        reveal_strlit("spiked_armor");
    } else if i == 71 {
        reveal_strlit("retribution");
    } else if i == 72 {
        reveal_strlit("thorned_carapace");
    } else if i == 73 {
        reveal_strlit("barbed_bulwark");
    } else if i == 74 {
        reveal_strlit("wrath_of_thorns");
    } else if i == 75 {
        reveal_strlit("bloodlust");
    } else if i == 76 {
        reveal_strlit("raging_strike");
    } else if i == 77 {
        reveal_strlit("totem_guard");
    } else if i == 78 {
        reveal_strlit("frenzied_slash");
    } else {
        reveal_strlit("battle_fury");
    }
}

proof fn lemma_index_80_120(s: Seq<CardDef>, i: int)
    requires
        shipped_card_ids_hold(s),
        80 <= i < 120,
    ensures
        shipped_card_index(s[i].id@) == i,
{
    broadcast use vstd::string::group_string_axioms;

    if i == 80 {
        reveal_strlit("thick_skin");
    } else if i == 81 {
        reveal_strlit("primal_surge");
    } else if i == 82 {
        reveal_strlit("undying_rage");
    } else if i == 83 {
        reveal_strlit("blood_offering");
    } else if i == 84 {
        reveal_strlit("fury_unleashed");
    } else if i == 85 {
        reveal_strlit("bloodbath");
    } else if i == 86 {
        reveal_strlit("pain_is_power");
    } else if i == 87 {
        reveal_strlit("berserker_deathwish");
    } else if i == 88 {
        reveal_strlit("wild_swing");
    } else if i == 89 {
        reveal_strlit("berserk_flurry");
    } else if i == 90 {
        reveal_strlit("savage_momentum");
    } else if i == 91 {
        reveal_strlit("unstoppable");
    } else if i == 92 {
        reveal_strlit("rampage");
    } else if i == 93 {
        reveal_strlit("spirit_ward");
    } else if i == 94 {
        reveal_strlit("ancestral_shield");
    } else if i == 95 {
        reveal_strlit("warding_totem_card");
    } else if i == 96 {
        reveal_strlit("fortified_rage");
    } else if i == 97 {
        reveal_strlit("unbreaking_spirit");
    } else if i == 98 {
        reveal_strlit("war_cry");
    } else if i == 99 {
        reveal_strlit("spirit_mend");
    } else if i == 100 {
        reveal_strlit("vengeful_ancestors");
    } else if i == 101 {
        reveal_strlit("totem_of_renewal");
    } else if i == 102 {
        reveal_strlit("ancestors_embrace");
    } else if i == 103 {
        reveal_strlit("desperate_strike");
    } else if i == 104 {
        reveal_strlit("adrenaline_spike");
    } else if i == 105 {
        reveal_strlit("feral_instinct");
    } else if i == 106 {
        reveal_strlit("berserkers_trance_card");
    } else if i == 107 {
        reveal_strlit("deaths_door");
    } else if i == 108 {
        reveal_strlit("flailing_strike");
    } else if i == 109 {
        reveal_strlit("frenzy_card");
    } else if i == 110 {
        reveal_strlit("whirlwind_fury");
    } else if i == 111 {
        reveal_strlit("one_thousand_cuts");
    } else if i == 112 {
        reveal_strlit("inner_peace");
    } else if i == 113 {
        reveal_strlit("centered_strike");
    } else if i == 114 {
        reveal_strlit("swift_footwork");
    } else if i == 115 {
        reveal_strlit("ki_surge");
    } else if i == 116 {
        reveal_strlit("meditation");
    } else if i == 117 {
        reveal_strlit("ki_focus");
    } else if i == 118 {
        reveal_strlit("ki_strike");
    } else {
        reveal_strlit("ki_guard");
    }
}

proof fn lemma_index_120_160(s: Seq<CardDef>, i: int)
    requires
        shipped_card_ids_hold(s),
        120 <= i < 160,
    ensures
        shipped_card_index(s[i].id@) == i,
{
    broadcast use vstd::string::group_string_axioms;

    if i == 120 {
        reveal_strlit("rapid_strikes");
    } else if i == 121 {
        reveal_strlit("palm_strike");
    } else if i == 122 {
        reveal_strlit("whirlwind_kick");
    } else if i == 123 {
        reveal_strlit("hundred_fists");
    } else if i == 124 {
        reveal_strlit("endless_barrage");
    } else if i == 125 {
        reveal_strlit("focused_strike");
    } else if i == 126 {
        reveal_strlit("ki_shield");
    } else if i == 127 {
        reveal_strlit("ki_channeling");
    } else if i == 128 {
        reveal_strlit("quivering_palm");
    } else if i == 129 {
        reveal_strlit("transcendence");
    } else if i == 130 {
        reveal_strlit("nerve_strike");
    } else if i == 131 {
        reveal_strlit("pressure_point_strike");
    } else if i == 132 {
        reveal_strlit("dim_mak");
    } else if i == 133 {
        reveal_strlit("crippling_blow");
    } else if i == 134 {
        reveal_strlit("weakening_aura");
    } else if i == 135 {
        reveal_strlit("death_touch");
    } else if i == 136 {
        reveal_strlit("shadow_step");
    } else if i == 137 {
        reveal_strlit("deflecting_palm");
    } else if i == 138 {
        reveal_strlit("counter_stance");
    } else if i == 139 {
        reveal_strlit("phantom_form");
    } else if i == 140 {
        reveal_strlit("shadow_kill");
    } else if i == 141 {
        reveal_strlit("stance_shift");
    } else if i == 142 {
        reveal_strlit("tigers_fury");
    } else if i == 143 {
        reveal_strlit("cranes_wing");
    } else if i == 144 {
        reveal_strlit("flowing_water");
    } else if i == 145 {
        reveal_strlit("monk_dragons_breath");
    } else if i == 146 {
        reveal_strlit("perfect_harmony");
    } else if i == 147 {
        reveal_strlit("iron_skin");
    } else if i == 148 {
        reveal_strlit("ki_barrier");
    } else if i == 149 {
        reveal_strlit("stone_body");
    } else if i == 150 {
        reveal_strlit("diamond_soul");
    } else if i == 151 {
        reveal_strlit("fist_of_north_star");
    } else if i == 152 {
        reveal_strlit("eldritch_blast");
    } else if i == 153 {
        reveal_strlit("hex");
    } else if i == 154 {
        reveal_strlit("dark_bargain");
    } else if i == 155 {
        reveal_strlit("maledict");
    } else if i == 156 {
        reveal_strlit("pact_barrier");
    } else if i == 157 {
        reveal_strlit("siphon_bolt");
    } else if i == 158 {
        reveal_strlit("hellbrand");
    } else {
        reveal_strlit("cinder_feast");
    }
}

proof fn lemma_index_160_200(s: Seq<CardDef>, i: int)
    requires
        shipped_card_ids_hold(s),
        160 <= i < 200,
    ensures
        shipped_card_index(s[i].id@) == i,
{
    broadcast use vstd::string::group_string_axioms;

    if i == 160 {
        reveal_strlit("balefire_cataclysm");
    } else if i == 161 {
        reveal_strlit("blood_tithe");
    } else if i == 162 {
        reveal_strlit("feast_of_cinders");
    } else if i == 163 {
        reveal_strlit("pact_blade");
    } else if i == 164 {
        reveal_strlit("soul_parry");
    } else if i == 165 {
        reveal_strlit("dusk_duel");
    } else if i == 166 {
        reveal_strlit("brand_the_weak");
    } else if i == 167 {
        reveal_strlit("black_oath");
    } else if i == 168 {
        reveal_strlit("void_gaze");
    } else if i == 169 {
        reveal_strlit("starless_whisper");
    } else if i == 170 {
        reveal_strlit("entropy_field");
    } else if i == 171 {
        reveal_strlit("oblivion_tide");
    } else if i == 172 {
        reveal_strlit("cosmic_extinction");
    } else if i == 173 {
        reveal_strlit("holy_strike");
    } else if i == 174 {
        reveal_strlit("lay_on_hands");
    } else if i == 175 {
        reveal_strlit("prayer_of_valor");
    } else if i == 176 {
        reveal_strlit("consecration");
    } else if i == 177 {
        reveal_strlit("divine_bulwark");
    } else if i == 178 {
        reveal_strlit("warding_slash");
    } else if i == 179 {
        reveal_strlit("shield_of_faith");
    } else if i == 180 {
        reveal_strlit("bastion_drive");
    } else if i == 181 {
        reveal_strlit("holy_bastion");
    } else if i == 182 {
        reveal_strlit("avenging_strike");
    } else if i == 183 {
        reveal_strlit("blade_of_wrath");
    } else if i == 184 {
        reveal_strlit("divine_judgment");
    } else if i == 185 {
        reveal_strlit("zealous_rush");
    } else if i == 186 {
        reveal_strlit("radiant_burst");
    } else if i == 187 {
        reveal_strlit("beacon_of_light");
    } else if i == 188 {
        reveal_strlit("solar_flare");
    } else if i == 189 {
        reveal_strlit("dawns_blessing");
    } else if i == 190 {
        reveal_strlit("avatar_of_radiance");
    } else if i == 191 {
        reveal_strlit("tricks_of_the_trade");
    } else if i == 192 {
        reveal_strlit("sneak_attack");
    } else if i == 193 {
        reveal_strlit("cunning_action");
    } else if i == 194 {
        reveal_strlit("rogue_evasion");
    } else if i == 195 {
        reveal_strlit("preparation");
    } else if i == 196 {
        reveal_strlit("assassinate");
    } else if i == 197 {
        reveal_strlit("rogue_shadow_step");
    } else if i == 198 {
        reveal_strlit("death_mark");
    } else {
        reveal_strlit("killing_blow");
    }
}

proof fn lemma_index_200_240(s: Seq<CardDef>, i: int)
    requires
        shipped_card_ids_hold(s),
        200 <= i < 240,
    ensures
        shipped_card_index(s[i].id@) == i,
{
    broadcast use vstd::string::group_string_axioms;

    if i == 200 {
        reveal_strlit("cutlass_flurry");
    } else if i == 201 {
        reveal_strlit("grappling_hook");
    } else if i == 202 {
        reveal_strlit("dirty_fighting");
    } else if i == 203 {
        reveal_strlit("broadside");
    } else if i == 204 {
        reveal_strlit("smoke_bomb");
    } else if i == 205 {
        reveal_strlit("misdirection");
    } else if i == 206 {
        reveal_strlit("fan_of_knives");
    } else if i == 207 {
        reveal_strlit("ace_in_the_hole");
    } else if i == 208 {
        reveal_strlit("fire_bolt");
    } else if i == 209 {
        reveal_strlit("mage_armor");
    } else if i == 210 {
        reveal_strlit("arcane_intellect");
    } else if i == 211 {
        reveal_strlit("shield_spell");
    } else if i == 212 {
        reveal_strlit("ember_bolt");
    } else if i == 213 {
        reveal_strlit("arcane_ward");
    } else if i == 214 {
        reveal_strlit("prescience");
    } else if i == 215 {
        reveal_strlit("fireball");
    } else if i == 216 {
        reveal_strlit("scorching_ray");
    } else if i == 217 {
        reveal_strlit("lightning_bolt");
    } else if i == 218 {
        reveal_strlit("flame_shield");
    } else if i == 219 {
        reveal_strlit("counterspell");
    } else if i == 220 {
        reveal_strlit("ward");
    } else if i == 221 {
        reveal_strlit("dispel");
    } else if i == 222 {
        reveal_strlit("globe_of_protection");
    } else if i == 223 {
        reveal_strlit("foresight");
    } else if i == 224 {
        reveal_strlit("scrying");
    } else if i == 225 {
        reveal_strlit("portent");
    } else if i == 226 {
        reveal_strlit("time_stop");
    } else if i == 227 {
        reveal_strlit("wish");
    } else if i == 228 {
        reveal_strlit("battle_discipline");
    } else if i == 229 {
        reveal_strlit("studied_analysis");
    } else if i == 230 {
        reveal_strlit("minor_blessing");
    } else if i == 231 {
        reveal_strlit("dirty_trick");
    } else if i == 232 {
        reveal_strlit("commanding_presence");
    } else if i == 233 {
        reveal_strlit("survival_instinct");
    } else if i == 234 {
        reveal_strlit("improvised_weapon");
    } else if i == 235 {
        reveal_strlit("sea_legs");
    } else if i == 236 {
        reveal_strlit("backstab");
    } else if i == 237 {
        reveal_strlit("inner_focus");
    } else if i == 238 {
        reveal_strlit("resourceful");
    } else {
        reveal_strlit("dazzle");
    }
}

proof fn lemma_index_240_280(s: Seq<CardDef>, i: int)
    requires
        shipped_card_ids_hold(s),
        240 <= i < 280,
    ensures
        shipped_card_index(s[i].id@) == i,
{
    broadcast use vstd::string::group_string_axioms;

    if i == 240 {
        reveal_strlit("wild_shape_bear");
    } else if i == 241 {
        reveal_strlit("wild_shape_eagle");
    } else if i == 242 {
        reveal_strlit("wild_shape_wolf");
    } else if i == 243 {
        reveal_strlit("natures_wrath");
    } else if i == 244 {
        reveal_strlit("bark_skin");
    } else if i == 245 {
        reveal_strlit("rejuvenation");
    } else if i == 246 {
        reveal_strlit("bear_maul");
    } else if i == 247 {
        reveal_strlit("thick_hide");
    } else if i == 248 {
        reveal_strlit("ursine_charge");
    } else if i == 249 {
        reveal_strlit("primal_roar");
    } else if i == 250 {
        reveal_strlit("eagle_dive");
    } else if i == 251 {
        reveal_strlit("swooping_strike");
    } else if i == 252 {
        reveal_strlit("wind_rider");
    } else if i == 253 {
        reveal_strlit("tempest_talons");
    } else if i == 254 {
        reveal_strlit("pack_tactics");
    } else if i == 255 {
        reveal_strlit("howl");
    } else if i == 256 {
        reveal_strlit("coordinated_strike");
    } else if i == 257 {
        reveal_strlit("alphas_command");
    } else if i == 258 {
        reveal_strlit("moonbeam");
    } else if i == 259 {
        reveal_strlit("entangle");
    } else if i == 260 {
        reveal_strlit("archdruid");
    } else if i == 261 {
        reveal_strlit("spark_bolt");
    } else if i == 262 {
        reveal_strlit("channel");
    } else if i == 263 {
        reveal_strlit("surge_wave");
    } else if i == 264 {
        reveal_strlit("arcane_shield");
    } else if i == 265 {
        reveal_strlit("wild_surge");
    } else if i == 266 {
        reveal_strlit("claw_strike");
    } else if i == 267 {
        reveal_strlit("scale_ward");
    } else if i == 268 {
        reveal_strlit("draconic_focus");
    } else if i == 269 {
        reveal_strlit("dragons_resilience");
    } else if i == 270 {
        reveal_strlit("draconic_bolt");
    } else if i == 271 {
        reveal_strlit("shadow_bolt");
    } else if i == 272 {
        reveal_strlit("dark_shroud");
    } else if i == 273 {
        reveal_strlit("siphon");
    } else if i == 274 {
        reveal_strlit("night_veil");
    } else if i == 275 {
        reveal_strlit("umbral_strike");
    } else if i == 276 {
        reveal_strlit("arcane_pulse");
    } else if i == 277 {
        reveal_strlit("mana_infusion");
    } else if i == 278 {
        reveal_strlit("spell_surge");
    } else {
        reveal_strlit("overload");
    }
}

proof fn lemma_index_280_307(s: Seq<CardDef>, i: int)
    requires
        shipped_card_ids_hold(s),
        280 <= i < 307,
    ensures
        shipped_card_index(s[i].id@) == i,
{
    broadcast use vstd::string::group_string_axioms;

    if i == 280 {
        reveal_strlit("volatile_burst");
    } else if i == 281 {
        reveal_strlit("chain_lightning");
    } else if i == 282 {
        reveal_strlit("surge_nova");
    } else if i == 283 {
        reveal_strlit("wild_discharge");
    } else if i == 284 {
        reveal_strlit("sorcerer_cataclysm");
    } else if i == 285 {
        reveal_strlit("chaos_bolt");
    } else if i == 286 {
        reveal_strlit("unraveling_hex");
    } else if i == 287 {
        reveal_strlit("entropy_cascade");
    } else if i == 288 {
        reveal_strlit("sorcerer_pandemonium");
    } else if i == 289 {
        reveal_strlit("dragon_scale");
    } else if i == 290 {
        reveal_strlit("ancestral_resilience");
    } else if i == 291 {
        reveal_strlit("scaled_rebuke");
    } else if i == 292 {
        reveal_strlit("primordial_resilience");
    } else if i == 293 {
        reveal_strlit("sorcerer_dragons_breath");
    } else if i == 294 {
        reveal_strlit("draconic_surge");
    } else if i == 295 {
        reveal_strlit("ancient_power");
    } else if i == 296 {
        reveal_strlit("dragonfire_ascension");
    } else if i == 297 {
        reveal_strlit("shadow_tap");
    } else if i == 298 {
        reveal_strlit("necrotic_siphon");
    } else if i == 299 {
        reveal_strlit("life_drain");
    } else if i == 300 {
        reveal_strlit("void_feast");
    } else if i == 301 {
        reveal_strlit("eternal_hunger");
    } else if i == 302 {
        reveal_strlit("dread_bolt");
    } else if i == 303 {
        reveal_strlit("terrorize");
    } else if i == 304 {
        reveal_strlit("shadow_exploit");
    } else if i == 305 {
        reveal_strlit("final_nightmare");
    } else {
        reveal_strlit("sorcerers_apotheosis");
    }
}

/// The position of each shipped card definition is what its id's index gives.
proof fn lemma_shipped_card_index(s: Seq<CardDef>, i: int)
    requires
        is_shipped_card_defs(s),
        0 <= i < s.len(),
    ensures
        shipped_card_index(s[i].id@) == i,
{
    lemma_shipped_card_ids_hold(s);
    if i < 40 {
        lemma_index_0_40(s, i);
    } else if i < 80 {
        lemma_index_40_80(s, i);
    } else if i < 120 {
        lemma_index_80_120(s, i);
    } else if i < 160 {
        lemma_index_120_160(s, i);
    } else if i < 200 {
        lemma_index_160_200(s, i);
    } else if i < 240 {
        lemma_index_200_240(s, i);
    } else if i < 280 {
        lemma_index_240_280(s, i);
    } else {
        lemma_index_280_307(s, i);
    }
}

/// No two shipped card definitions share an id.
pub proof fn law_shipped_card_ids_distinct(s: Seq<CardDef>)
    requires
        is_shipped_card_defs(s),
    ensures
        forall|i: int, j: int| 0 <= i < j < s.len() ==> (#[trigger] s[i]).id@ != (#[trigger] s[j]).id@,
{
    assert forall|i: int, j: int| 0 <= i < j < s.len() implies (#[trigger] s[i]).id@ != (#[trigger] s[j]).id@ by {
        lemma_shipped_card_index(s, i);
        lemma_shipped_card_index(s, j);
    }
}

} // verus!
