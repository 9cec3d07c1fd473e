//! Sub-classes — combat sub-specializations chosen at run start.

use vstd::prelude::*;

use crate::card::CardId;
use crate::class::Class;

verus! {

/// Identifier of a sub-class definition.
pub type SubclassId = String;

/// A sub-class tier level (0 = base, upgraded via elite/boss rewards).
#[derive(Debug, Clone, Copy, PartialEq, Eq, Structural, Hash)]
pub enum SubclassTier {
    Tier0,
    Tier1,
    Tier2,
}

/// The player's active sub-class during a run.
#[derive(Debug)]
pub struct PlayerSubclass {
    pub subclass_id: SubclassId,
    pub tier: SubclassTier,
}

/// Definition of a sub-class.
#[derive(Debug)]
pub struct SubclassDef {
    pub id: SubclassId,
    pub name: String,
    pub description: String,
    /// Flavor text shown on the selection screen.
    pub flavor: String,
    pub class: Class,
    /// Cards granted by this sub-class.
    pub card_ids: Vec<CardId>,
}

pub const TWO_HANDED: &'static str = "two_handed";

pub const DEFENSE: &'static str = "defense";

pub const DUELING: &'static str = "dueling";

/// All Fighter sub-class definitions: two-handed, defense and dueling, in
/// that order, all of the Fighter class and granting no cards.
pub fn fighter_subclasses() -> (r: Vec<SubclassDef>)
    ensures
        r@.len() == 3,
        r@[0].id@ == "two_handed"@,
        r@[1].id@ == "defense"@,
        r@[2].id@ == "dueling"@,
        r@[0].name@ == "Two-Handed"@,
        r@[1].name@ == "Defense"@,
        r@[2].name@ == "Dueling"@,
        forall|i: int| 0 <= i < 3 ==> (#[trigger] r@[i]).class == Class::Fighter && r@[i].card_ids@.len() == 0,
{
    let mut v: Vec<SubclassDef> = Vec::new();
    v.push(
        SubclassDef {
            id: "two_handed".to_string(),
            name: "Two-Handed".to_string(),
            description: "Wield massive weapons for devastating strikes.".to_string(),
            flavor: "Strength over subtlety.".to_string(),
            class: Class::Fighter,
            card_ids: Vec::new(),
        },
    );
    v.push(
        SubclassDef {
            id: "defense".to_string(),
            name: "Defense".to_string(),
            description: "Outlast your enemies behind heavy armor and shields.".to_string(),
            flavor: "An immovable wall.".to_string(),
            class: Class::Fighter,
            card_ids: Vec::new(),
        },
    );
    v.push(
        SubclassDef {
            id: "dueling".to_string(),
            name: "Dueling".to_string(),
            description: "Precise one-handed strikes with a free hand for defense.".to_string(),
            flavor: "Every opening exploited.".to_string(),
            class: Class::Fighter,
            card_ids: Vec::new(),
        },
    );
    v
}

} // verus!
