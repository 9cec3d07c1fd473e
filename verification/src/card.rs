//! Card definitions, effects and card instances.

use vstd::prelude::*;

use crate::class::{CardTag, Class};
use crate::status::StatusType;

verus! {

/// Identifier of a card definition.
pub type CardId = String;

#[derive(Debug, Clone, Copy, PartialEq, Eq, Structural, Hash)]
pub enum Rarity {
    Common,
    Uncommon,
    Rare,
    Legendary,
}

pub open spec fn spec_rarity_label(r: Rarity) -> Seq<char> {
    match r {
        Rarity::Common => "Common"@,
        Rarity::Uncommon => "Uncommon"@,
        Rarity::Rare => "Rare"@,
        Rarity::Legendary => "Legendary"@,
    }
}

impl Rarity {
    pub fn label(self) -> (r: &'static str)
        ensures
            r@ == spec_rarity_label(self),
    {
        match self {
            Rarity::Common => "Common",
            Rarity::Uncommon => "Uncommon",
            Rarity::Rare => "Rare",
            Rarity::Legendary => "Legendary",
        }
    }
}

#[derive(Debug, Clone, Copy, PartialEq, Eq, Structural, Hash)]
pub enum CardType {
    Spell,
    Consumable,
}

#[derive(Debug, Clone, Copy, PartialEq, Eq, Structural, Hash)]
pub enum Target {
    SingleEnemy,
    AllEnemies,
    Player,
    RandomEnemy,
}

#[derive(Debug, Clone, Copy, PartialEq, Eq, Structural)]
pub enum Effect {
    DealDamage { target: Target, amount: i32 },
    GainBlock { amount: i32 },
    ApplyStatus { target: Target, status: StatusType, stacks: i32 },
    DrawCards { count: usize },
    GainEnergy { amount: i32 },
    Heal { amount: i32 },
    /// Lose HP directly (bypasses block, no modifiers).
    LoseHp { amount: i32 },
    /// Deal damage only if the player took damage last enemy turn.
    DealDamageIfDamagedLastTurn { target: Target, amount: i32 },
    /// Deal amount damage; if target has any debuff, deal amount + bonus instead.
    DealDamageIfTargetDebuffed { target: Target, amount: i32, bonus: i32 },
    /// Draw N cards, then discard M cards from hand.
    DrawAndDiscard { draw: usize, discard: usize },
    /// Remove block from the target enemy.
    RemoveEnemyBlock { target: Target, amount: i32 },
    /// Gain block if the player took damage last enemy turn.
    GainBlockIfDamagedLastTurn { amount: i32 },
    /// Gain block equal to missing HP, capped at max.
    BlockEqualMissingHp { max: i32 },
    /// Deal amount damage; if enemy has block > 0, deal amount + bonus instead.
    DealDamageIfEnemyBlocked { target: Target, amount: i32, bonus: i32 },
    /// Deal damage equal to the player's current block.
    DealDamageEqualBlock { target: Target },
    /// Deal per_card damage for each card played this turn (including this one).
    DealDamagePerCardPlayed { target: Target, per_card: i32 },
    /// Deal damage only if the target has Marked stacks > 0.
    DealDamageIfMarked { target: Target, amount: i32 },
    /// Apply per_card stacks of status for each card played this turn.
    ApplyStatusPerCardPlayed { target: Target, status: StatusType, per_card: i32 },
    /// Deal per_stack damage for each Marked stack on target, then remove all Marked.
    DealDamagePerMarkedStack { target: Target, per_stack: i32 },
    /// Gain block equal to player's stacks of `status` times `multiplier`.
    GainBlockPerStatusStack { status: StatusType, multiplier: i32 },
    /// Draw 1 card for each alive enemy that has the given status.
    DrawPerEnemyWithStatus { status: StatusType },
    /// Gain `amount` block; if already have block, gain `bonus_amount` instead.
    GainBlockConditional { amount: i32, bonus_amount: i32 },
    /// Block cannot go below `amount` this combat.
    BlockFloor { amount: i32 },
    /// Retain up to `amount` block permanently.
    RetainBlockPartial { amount: i32 },
    /// Double stacks of `status` on `target`.
    DoubleStatus { target: Target, status: StatusType },
    /// Deal `base_damage` + `per_stack` per Marked stack.
    DealDamageScaledByMarked { target: Target, base_damage: i32, per_stack: i32 },
    /// Deal base + per_debuff for each distinct debuff type on the target.
    DealDamagePerDebuffOnTarget { target: Target, base: i32, per_debuff: i32 },
    /// Deal base + scaling per 5 missing player HP, capped.
    DealDamageScaledByMissingHp { target: Target, base: i32, per_5_missing: i32, cap: i32 },
    /// Deal per_stack damage for each stack of a player status.
    DealDamagePerPlayerStatus { target: Target, status: StatusType, per_stack: i32 },
    /// Enter a stance (removes any other active stance first).
    EnterStance { stance: StatusType },
    /// Deal base damage; with enough Ki, spend it and deal bonus instead.
    DealDamageSpendKi { target: Target, base: i32, ki_cost: i32, bonus: i32 },
    /// Gain base block; with enough Ki, spend it and gain bonus instead.
    GainBlockSpendKi { base: i32, ki_cost: i32, bonus: i32 },
    /// Gain block equal to Ki stacks times multiplier (does not spend Ki).
    GainBlockPerKiStack { multiplier: i32 },
    /// Deal base + scaling per 10% enemy HP missing.
    DealDamageScaledByMissingHpEnemy { target: Target, base: i32, per_10_percent_missing: i32 },
    /// Deal base damage; with enough Smite, spend it and deal bonus instead.
    DealDamageSpendSmite { target: Target, base: i32, smite_cost: i32, bonus: i32 },
    /// Gain base block; with enough Smite, spend it and gain bonus instead.
    GainBlockSpendSmite { base: i32, smite_cost: i32, bonus: i32 },
    /// Deal base damage; with enough Artifice, spend it and deal bonus instead.
    DealDamageSpendArtifice { target: Target, base: i32, artifice_cost: i32, bonus: i32 },
    /// Enter a Wild Shape form (clears other forms and concentration).
    EnterWildShape { form: StatusType },
    /// Deal base damage; in any Wild Shape form, deal base + bonus.
    DealDamageIfInWildShape { target: Target, base: i32, bonus: i32 },
    /// Deal base damage; with the given status, deal base + bonus.
    DealDamageWithFormBonus { target: Target, base: i32, status: StatusType, bonus: i32 },
    /// Gain base block; with the given status, gain base + bonus.
    GainBlockWithFormBonus { base: i32, status: StatusType, bonus: i32 },
    /// Draw base cards; with the given status, draw base + bonus.
    DrawCardsWithFormBonus { base_draw: usize, status: StatusType, bonus_draw: usize },
    /// Deal damage only if the player has the given status.
    DealDamageIfPlayerHasStatus { target: Target, status: StatusType, amount: i32 },
    /// Apply a status to the player if they have enough stacks of another status.
    ApplyStatusIfPlayerHasStatus {
        status: StatusType,
        stacks: i32,
        require_status: StatusType,
        require_stacks: i32,
    },
}

/// The target of the effects whose target can be a single chosen enemy.
pub open spec fn spec_targeting_slot(e: Effect) -> Option<Target> {
    match e {
        Effect::DealDamage { target, .. } => Some(target),
        Effect::ApplyStatus { target, .. } => Some(target),
        Effect::DealDamageIfDamagedLastTurn { target, .. } => Some(target),
        Effect::DealDamageIfTargetDebuffed { target, .. } => Some(target),
        Effect::RemoveEnemyBlock { target, .. } => Some(target),
        Effect::DealDamageIfEnemyBlocked { target, .. } => Some(target),
        Effect::DealDamageEqualBlock { target } => Some(target),
        Effect::DealDamagePerCardPlayed { target, .. } => Some(target),
        Effect::DealDamageIfMarked { target, .. } => Some(target),
        Effect::ApplyStatusPerCardPlayed { target, .. } => Some(target),
        Effect::DealDamagePerMarkedStack { target, .. } => Some(target),
        Effect::DoubleStatus { target, .. } => Some(target),
        Effect::DealDamageScaledByMarked { target, .. } => Some(target),
        Effect::DealDamagePerDebuffOnTarget { target, .. } => Some(target),
        Effect::DealDamageScaledByMissingHp { target, .. } => Some(target),
        Effect::DealDamagePerPlayerStatus { target, .. } => Some(target),
        Effect::DealDamageSpendKi { target, .. } => Some(target),
        Effect::DealDamageScaledByMissingHpEnemy { target, .. } => Some(target),
        Effect::DealDamageSpendSmite { target, .. } => Some(target),
        Effect::DealDamageSpendArtifice { target, .. } => Some(target),
        Effect::DealDamageIfInWildShape { target, .. } => Some(target),
        Effect::DealDamageWithFormBonus { target, .. } => Some(target),
        Effect::DealDamageIfPlayerHasStatus { target, .. } => Some(target),
        _ => None,
    }
}

/// Whether an effect is aimed at a single chosen enemy.
pub open spec fn spec_effect_single_target(e: Effect) -> bool {
    spec_targeting_slot(e) == Some(Target::SingleEnemy)
}

/// Whether an effect only applies to enemies carrying Marked stacks.
pub open spec fn spec_effect_requires_marked(e: Effect) -> bool {
    e is DealDamageIfMarked || e is DealDamagePerMarkedStack
}

impl Effect {
    /// The target of this effect when it can be a single chosen enemy.
    pub fn targeting_slot(&self) -> (r: Option<Target>)
        ensures
            r == spec_targeting_slot(*self),
    {
        match self {
            Effect::DealDamage { target, .. } => Some(*target),
            Effect::ApplyStatus { target, .. } => Some(*target),
            Effect::DealDamageIfDamagedLastTurn { target, .. } => Some(*target),
            Effect::DealDamageIfTargetDebuffed { target, .. } => Some(*target),
            Effect::RemoveEnemyBlock { target, .. } => Some(*target),
            Effect::DealDamageIfEnemyBlocked { target, .. } => Some(*target),
            Effect::DealDamageEqualBlock { target } => Some(*target),
            Effect::DealDamagePerCardPlayed { target, .. } => Some(*target),
            Effect::DealDamageIfMarked { target, .. } => Some(*target),
            Effect::ApplyStatusPerCardPlayed { target, .. } => Some(*target),
            Effect::DealDamagePerMarkedStack { target, .. } => Some(*target),
            Effect::DoubleStatus { target, .. } => Some(*target),
            Effect::DealDamageScaledByMarked { target, .. } => Some(*target),
            Effect::DealDamagePerDebuffOnTarget { target, .. } => Some(*target),
            Effect::DealDamageScaledByMissingHp { target, .. } => Some(*target),
            Effect::DealDamagePerPlayerStatus { target, .. } => Some(*target),
            Effect::DealDamageSpendKi { target, .. } => Some(*target),
            Effect::DealDamageScaledByMissingHpEnemy { target, .. } => Some(*target),
            Effect::DealDamageSpendSmite { target, .. } => Some(*target),
            Effect::DealDamageSpendArtifice { target, .. } => Some(*target),
            Effect::DealDamageIfInWildShape { target, .. } => Some(*target),
            Effect::DealDamageWithFormBonus { target, .. } => Some(*target),
            Effect::DealDamageIfPlayerHasStatus { target, .. } => Some(*target),
            _ => None,
        }
    }

    /// Whether this effect is aimed at a single chosen enemy.
    pub fn is_single_target(&self) -> (r: bool)
        ensures
            r == spec_effect_single_target(*self),
    {
        match self.targeting_slot() {
            Some(Target::SingleEnemy) => true,
            _ => false,
        }
    }

    /// Whether this effect only applies to enemies carrying Marked stacks.
    pub fn requires_marked(&self) -> (r: bool)
        ensures
            r == spec_effect_requires_marked(*self),
    {
        match self {
            Effect::DealDamageIfMarked { .. } | Effect::DealDamagePerMarkedStack { .. } => true,
            _ => false,
        }
    }
}

#[derive(Debug)]
pub struct CardDef {
    pub id: CardId,
    pub name: String,
    pub rarity: Rarity,
    pub cost: i32,
    pub card_type: CardType,
    /// If true, the card goes to the exhaust pile after play.
    pub exhaust: bool,
    pub effects: Vec<Effect>,
    pub description: String,
    /// Which playable class this card intrinsically belongs to.
    pub class: Option<Class>,
    /// Which sub-class theme or progression track this card belongs to.
    pub subclass: Option<String>,
    /// Semantic tags for class mechanic interactions.
    pub tags: Vec<CardTag>,
    /// Goes to bottom of draw pile instead of discard when played.
    pub recycle: bool,
    /// Stays in hand at end of turn; only one concentration card retained at a time.
    pub concentration: bool,
    /// Innate cards are drawn first at the start of combat.
    pub innate: bool,
    /// Milestone card (never in combat reward pool).
    pub milestone: bool,
    /// Inherent card (locked in deck, cannot be removed or swapped).
    pub inherent: bool,
}

impl CardDef {
    /// Whether the card's effects need a single enemy target.
    pub open spec fn spec_needs_single_target(&self) -> bool {
        exists|i: int| 0 <= i < self.effects@.len() && spec_effect_single_target(#[trigger] self.effects@[i])
    }

    /// Whether the card only applies to Marked enemies.
    pub open spec fn spec_requires_marked(&self) -> bool {
        exists|i: int| 0 <= i < self.effects@.len() && spec_effect_requires_marked(#[trigger] self.effects@[i])
    }

    /// Does this card require a single enemy target?
    pub fn needs_single_target(&self) -> (r: bool)
        ensures
            r == self.spec_needs_single_target(),
    {
        let mut i: usize = 0;
        while i < self.effects.len()
            invariant
                i <= self.effects@.len(),
                forall|j: int| 0 <= j < i ==> !spec_effect_single_target(#[trigger] self.effects@[j]),
            decreases self.effects@.len() - i,
        {
            if self.effects[i].is_single_target() {
                return true;
            }
            i = i + 1;
        }
        false
    }

    /// Does any effect of this card only apply to Marked enemies?
    pub fn requires_marked(&self) -> (r: bool)
        ensures
            r == self.spec_requires_marked(),
    {
        let mut i: usize = 0;
        while i < self.effects.len()
            invariant
                i <= self.effects@.len(),
                forall|j: int| 0 <= j < i ==> !spec_effect_requires_marked(#[trigger] self.effects@[j]),
            decreases self.effects@.len() - i,
        {
            if self.effects[i].requires_marked() {
                return true;
            }
            i = i + 1;
        }
        false
    }

    /// Whether the card carries a tag.
    pub fn has_tag(&self, tag: CardTag) -> (r: bool)
        ensures
            r == self.tags@.contains(tag),
    {
        let mut i: usize = 0;
        while i < self.tags.len()
            invariant
                i <= self.tags@.len(),
                forall|j: int| 0 <= j < i ==> self.tags@[j] != tag,
            decreases self.tags@.len() - i,
        {
            if self.tags[i] == tag {
                proof { assert(self.tags@[i as int] == tag); }
                return true;
            }
            i = i + 1;
        }
        false
    }
}

/// One copy of a card in a deck or pile.
#[derive(Debug)]
pub struct CardInstance {
    pub def_id: CardId,
    pub upgraded: bool,
}

impl CardInstance {
    /// A fresh, not upgraded copy of a card.
    pub fn of(def_id: CardId) -> (r: CardInstance)
        ensures
            r.def_id == def_id,
            !r.upgraded,
    {
        CardInstance { def_id, upgraded: false }
    }

    /// A copy of this card instance.
    pub fn duplicate(&self) -> (r: CardInstance)
        ensures
            r == *self,
    {
        CardInstance { def_id: self.def_id.clone(), upgraded: self.upgraded }
    }
}

impl Clone for CardInstance {
    fn clone(&self) -> (r: CardInstance)
        ensures
            r == *self,
    {
        self.duplicate()
    }
}

impl PartialEq for CardInstance {
    fn eq(&self, other: &CardInstance) -> (r: bool) {
        self.def_id == other.def_id && self.upgraded == other.upgraded
    }
}

impl vstd::std_specs::cmp::PartialEqSpecImpl for CardInstance {
    open spec fn obeys_eq_spec() -> bool {
        true
    }

    open spec fn eq_spec(&self, other: &CardInstance) -> bool {
        self.def_id@ == other.def_id@ && self.upgraded == other.upgraded
    }
}

impl Eq for CardInstance {}

} // verus!
