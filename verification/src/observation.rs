//! What an agent observes of a run: the phase, the player, the hand and the
//! enemies of a combat, per-card summaries of what a card does, the offers
//! and choices of the current phase, and the cards a rebuild has left to
//! place.

use vstd::prelude::*;

use crate::card::{CardDef, CardId, Effect, Target};
use crate::card::CardInstance;
use crate::class::CardTag;
use crate::combat::CombatState;
use crate::content_tables::ContentTables;
use crate::enemy::{EnemyState, IntentType};
use crate::status::StatusMap;
use crate::gauntlet::{count_id, GauntletPhase, GauntletRunner};
use crate::cards::card_ids_view;
use crate::starter_decks::deck_ids_view;
use crate::player::PlayerState;
use crate::status::{status_index, status_at, StatusType, STATUS_COUNT};

verus! {

/// High-level phase for agents.
#[derive(Debug, Clone, Copy, PartialEq, Eq, Structural)]
pub enum ObservedPhase {
    Combat,
    Reward,
    CollectionOverflow,
    InnateChoice,
    DeckSwap,
    DeckRebuild,
    GameOver,
}

/// The observed phase of a run phase.
pub open spec fn spec_observed_phase(phase: GauntletPhase) -> ObservedPhase {
    match phase {
        GauntletPhase::Combat => ObservedPhase::Combat,
        GauntletPhase::Reward => ObservedPhase::Reward,
        GauntletPhase::CollectionOverflow { .. } => ObservedPhase::CollectionOverflow,
        GauntletPhase::InnateChoice => ObservedPhase::InnateChoice,
        GauntletPhase::DeckSwap { .. } => ObservedPhase::DeckSwap,
        GauntletPhase::DeckRebuild { .. } => ObservedPhase::DeckRebuild,
        GauntletPhase::GameOver => ObservedPhase::GameOver,
    }
}

/// The observed phase of a run phase.
pub fn observed_phase(phase: &GauntletPhase) -> (r: ObservedPhase)
    ensures
        r == spec_observed_phase(*phase),
{
    match phase {
        GauntletPhase::Combat => ObservedPhase::Combat,
        GauntletPhase::Reward => ObservedPhase::Reward,
        GauntletPhase::CollectionOverflow { .. } => ObservedPhase::CollectionOverflow,
        GauntletPhase::InnateChoice => ObservedPhase::InnateChoice,
        GauntletPhase::DeckSwap { .. } => ObservedPhase::DeckSwap,
        GauntletPhase::DeckRebuild { .. } => ObservedPhase::DeckRebuild,
        GauntletPhase::GameOver => ObservedPhase::GameOver,
    }
}

/// The older phase flags: in combat, in a reward choice, run over.
pub fn phase_flags(phase: &GauntletPhase) -> (r: (bool, bool, bool))
    ensures
        r == (phase is Combat, phase is Reward, phase is GameOver),
{
    match phase {
        GauntletPhase::Combat => (true, false, false),
        GauntletPhase::Reward => (false, true, false),
        GauntletPhase::GameOver => (false, false, true),
        _ => (false, false, false),
    }
}

// ── Card summaries ───────────────────────────────────────────────────────

/// The base damage an effect counts for: its amount, per-card or per-stack
/// damage, or base, with one stack or debuff for the scaled ones.
pub open spec fn effect_damage(e: Effect) -> int {
    match e {
        Effect::DealDamage { amount, .. } => amount as int,
        Effect::DealDamageIfDamagedLastTurn { amount, .. } => amount as int,
        Effect::DealDamageIfTargetDebuffed { amount, .. } => amount as int,
        Effect::DealDamageIfEnemyBlocked { amount, .. } => amount as int,
        Effect::DealDamageIfMarked { amount, .. } => amount as int,
        Effect::DealDamagePerCardPlayed { per_card, .. } => per_card as int,
        Effect::DealDamagePerMarkedStack { per_stack, .. } => per_stack as int,
        Effect::DealDamageScaledByMarked { base_damage, per_stack, .. } => base_damage + per_stack,
        Effect::DealDamagePerDebuffOnTarget { base, per_debuff, .. } => base + per_debuff,
        Effect::DealDamageScaledByMissingHp { base, .. } => base as int,
        Effect::DealDamageScaledByMissingHpEnemy { base, .. } => base as int,
        Effect::DealDamagePerPlayerStatus { per_stack, .. } => per_stack as int,
        Effect::DealDamageSpendKi { base, .. } => base as int,
        Effect::DealDamageSpendSmite { base, .. } => base as int,
        Effect::DealDamageSpendArtifice { base, .. } => base as int,
        Effect::DealDamageIfInWildShape { base, .. } => base as int,
        Effect::DealDamageWithFormBonus { base, .. } => base as int,
        Effect::DealDamageIfPlayerHasStatus { amount, .. } => amount as int,
        _ => 0,
    }
}

/// The base block an effect counts for (one Ki stack for the per-Ki one).
pub open spec fn effect_block(e: Effect) -> int {
    match e {
        Effect::GainBlock { amount } => amount as int,
        Effect::GainBlockIfDamagedLastTurn { amount } => amount as int,
        Effect::BlockEqualMissingHp { max } => max as int,
        Effect::GainBlockPerStatusStack { multiplier, .. } => multiplier as int,
        Effect::GainBlockConditional { amount, .. } => amount as int,
        Effect::GainBlockSpendKi { base, .. } => base as int,
        Effect::GainBlockPerKiStack { multiplier } => multiplier as int,
        Effect::GainBlockSpendSmite { base, .. } => base as int,
        Effect::GainBlockWithFormBonus { base, .. } => base as int,
        _ => 0,
    }
}

/// The cards an effect draws, net of discards (two for the per-enemy draw,
/// about two enemies being alive).
pub open spec fn effect_draw(e: Effect) -> int {
    match e {
        Effect::DrawCards { count } => count as i32 as int,
        Effect::DrawAndDiscard { draw, discard } => draw as i32 - discard as i32,
        Effect::DrawPerEnemyWithStatus { .. } => 2,
        Effect::DrawCardsWithFormBonus { base_draw, .. } => base_draw as i32 as int,
        _ => 0,
    }
}

/// The energy an effect gains.
pub open spec fn effect_energy(e: Effect) -> int {
    match e {
        Effect::GainEnergy { amount } => amount as int,
        _ => 0,
    }
}

/// The HP an effect gives back (a heal) or costs (a loss).
pub open spec fn effect_hp_change(e: Effect) -> int {
    match e {
        Effect::Heal { amount } => amount as int,
        Effect::LoseHp { amount } => -amount,
        _ => 0,
    }
}

/// Which per-effect number a summary adds up.
pub enum Measure {
    Damage,
    Block,
    Draw,
    Energy,
    HpChange,
}

/// The number an effect counts for under a measure.
pub open spec fn measure_of(m: Measure, e: Effect) -> int {
    match m {
        Measure::Damage => effect_damage(e),
        Measure::Block => effect_block(e),
        Measure::Draw => effect_draw(e),
        Measure::Energy => effect_energy(e),
        Measure::HpChange => effect_hp_change(e),
    }
}

/// The sum of a measure over the effects.
pub open spec fn measure_sum(m: Measure, effects: Seq<Effect>) -> int
    decreases effects.len(),
{
    if effects.len() == 0 {
        0
    } else {
        measure_sum(m, effects.drop_last()) + measure_of(m, effects.last())
    }
}

fn effect_measure(m: &Measure, e: &Effect) -> (r: i64)
    ensures
        r == measure_of(*m, *e),
{
    match m {
        Measure::Damage => match e {
            Effect::DealDamage { amount, .. } => *amount as i64,
            Effect::DealDamageIfDamagedLastTurn { amount, .. } => *amount as i64,
            Effect::DealDamageIfTargetDebuffed { amount, .. } => *amount as i64,
            Effect::DealDamageIfEnemyBlocked { amount, .. } => *amount as i64,
            Effect::DealDamageIfMarked { amount, .. } => *amount as i64,
            Effect::DealDamagePerCardPlayed { per_card, .. } => *per_card as i64,
            Effect::DealDamagePerMarkedStack { per_stack, .. } => *per_stack as i64,
            Effect::DealDamageScaledByMarked { base_damage, per_stack, .. } => *base_damage as i64 + *per_stack as i64,
            Effect::DealDamagePerDebuffOnTarget { base, per_debuff, .. } => *base as i64 + *per_debuff as i64,
            Effect::DealDamageScaledByMissingHp { base, .. } => *base as i64,
            Effect::DealDamageScaledByMissingHpEnemy { base, .. } => *base as i64,
            Effect::DealDamagePerPlayerStatus { per_stack, .. } => *per_stack as i64,
            Effect::DealDamageSpendKi { base, .. } => *base as i64,
            Effect::DealDamageSpendSmite { base, .. } => *base as i64,
            Effect::DealDamageSpendArtifice { base, .. } => *base as i64,
            Effect::DealDamageIfInWildShape { base, .. } => *base as i64,
            Effect::DealDamageWithFormBonus { base, .. } => *base as i64,
            Effect::DealDamageIfPlayerHasStatus { amount, .. } => *amount as i64,
            _ => 0,
        },
        Measure::Block => match e {
            Effect::GainBlock { amount } => *amount as i64,
            Effect::GainBlockIfDamagedLastTurn { amount } => *amount as i64,
            Effect::BlockEqualMissingHp { max } => *max as i64,
            Effect::GainBlockPerStatusStack { multiplier, .. } => *multiplier as i64,
            Effect::GainBlockConditional { amount, .. } => *amount as i64,
            Effect::GainBlockSpendKi { base, .. } => *base as i64,
            Effect::GainBlockPerKiStack { multiplier } => *multiplier as i64,
            Effect::GainBlockSpendSmite { base, .. } => *base as i64,
            Effect::GainBlockWithFormBonus { base, .. } => *base as i64,
            _ => 0,
        },
        Measure::Draw => match e {
            Effect::DrawCards { count } => {
                #[verifier::truncate]
                let c = *count as i32;
                c as i64
            },
            Effect::DrawAndDiscard { draw, discard } => {
                #[verifier::truncate]
                let d = *draw as i32;
                #[verifier::truncate]
                let x = *discard as i32;
                d as i64 - x as i64
            },
            Effect::DrawPerEnemyWithStatus { .. } => 2,
            Effect::DrawCardsWithFormBonus { base_draw, .. } => {
                #[verifier::truncate]
                let c = *base_draw as i32;
                c as i64
            },
            _ => 0,
        },
        Measure::Energy => match e {
            Effect::GainEnergy { amount } => *amount as i64,
            _ => 0,
        },
        Measure::HpChange => match e {
            Effect::Heal { amount } => *amount as i64,
            Effect::LoseHp { amount } => -(*amount as i64),
            _ => 0,
        },
    }
}

/// A card summary adds up over the effects: the summary of two runs of
/// effects one after the other is the sum of their summaries.
pub proof fn law_summary_adds_up(m: Measure, a: Seq<Effect>, b: Seq<Effect>)
    ensures
        measure_sum(m, a + b) == measure_sum(m, a) + measure_sum(m, b),
    decreases b.len(),
{
    if b.len() == 0 {
        assert(a + b =~= a);
    } else {
        law_summary_adds_up(m, a, b.drop_last());
        assert((a + b).drop_last() =~= a + b.drop_last());
        assert((a + b).last() == b.last());
    }
}

/// The damage summary of a card with a single attack effect is that
/// attack's base damage: its amount, its per-card or per-stack damage, or
/// its base (with one stack or one debuff for the two scaled ones);
/// whatever the bonus, the target or the condition.
pub proof fn law_attack_counts_its_base_damage(e: Effect)
    ensures
        e matches Effect::DealDamage { amount, .. } ==> measure_sum(Measure::Damage, seq![e]) == amount,
        e matches Effect::DealDamageIfDamagedLastTurn { amount, .. } ==> measure_sum(Measure::Damage, seq![e]) == amount,
        e matches Effect::DealDamageIfTargetDebuffed { amount, .. } ==> measure_sum(Measure::Damage, seq![e]) == amount,
        e matches Effect::DealDamageIfEnemyBlocked { amount, .. } ==> measure_sum(Measure::Damage, seq![e]) == amount,
        e matches Effect::DealDamageIfMarked { amount, .. } ==> measure_sum(Measure::Damage, seq![e]) == amount,
        e matches Effect::DealDamageIfPlayerHasStatus { amount, .. } ==> measure_sum(Measure::Damage, seq![e]) == amount,
        e matches Effect::DealDamagePerCardPlayed { per_card, .. } ==> measure_sum(Measure::Damage, seq![e]) == per_card,
        e matches Effect::DealDamagePerMarkedStack { per_stack, .. } ==> measure_sum(Measure::Damage, seq![e]) == per_stack,
        e matches Effect::DealDamagePerPlayerStatus { per_stack, .. } ==> measure_sum(Measure::Damage, seq![e]) == per_stack,
        e matches Effect::DealDamageScaledByMarked { base_damage, per_stack, .. } ==> measure_sum(Measure::Damage, seq![e])
            == base_damage + per_stack,
        e matches Effect::DealDamagePerDebuffOnTarget { base, per_debuff, .. } ==> measure_sum(Measure::Damage, seq![e])
            == base + per_debuff,
        e matches Effect::DealDamageScaledByMissingHp { base, .. } ==> measure_sum(Measure::Damage, seq![e]) == base,
        e matches Effect::DealDamageScaledByMissingHpEnemy { base, .. } ==> measure_sum(Measure::Damage, seq![e]) == base,
        e matches Effect::DealDamageSpendKi { base, .. } ==> measure_sum(Measure::Damage, seq![e]) == base,
        e matches Effect::DealDamageSpendSmite { base, .. } ==> measure_sum(Measure::Damage, seq![e]) == base,
        e matches Effect::DealDamageSpendArtifice { base, .. } ==> measure_sum(Measure::Damage, seq![e]) == base,
        e matches Effect::DealDamageIfInWildShape { base, .. } ==> measure_sum(Measure::Damage, seq![e]) == base,
        e matches Effect::DealDamageWithFormBonus { base, .. } ==> measure_sum(Measure::Damage, seq![e]) == base,
        e is DealDamageEqualBlock ==> measure_sum(Measure::Damage, seq![e]) == 0,
{
    let one = seq![e];
    assert(one.len() == 1 && one.last() == e);
    assert(one.drop_last() =~= Seq::<Effect>::empty());
    assert(measure_sum(Measure::Damage, one.drop_last()) == 0);
    assert(measure_of(Measure::Damage, e) == effect_damage(e));
    assert(measure_sum(Measure::Damage, one) == effect_damage(e));
}

/// The block summary of a card with a single block effect is that
/// effect's base block (one Ki stack for the per-Ki one), whatever its
/// bonus or condition; an attack counts for no block.
pub proof fn law_block_effect_counts_its_base_block(e: Effect)
    ensures
        e matches Effect::GainBlock { amount } ==> measure_sum(Measure::Block, seq![e]) == amount,
        e matches Effect::GainBlockIfDamagedLastTurn { amount } ==> measure_sum(Measure::Block, seq![e]) == amount,
        e matches Effect::BlockEqualMissingHp { max } ==> measure_sum(Measure::Block, seq![e]) == max,
        e matches Effect::GainBlockPerStatusStack { multiplier, .. } ==> measure_sum(Measure::Block, seq![e]) == multiplier,
        e matches Effect::GainBlockConditional { amount, .. } ==> measure_sum(Measure::Block, seq![e]) == amount,
        e matches Effect::GainBlockSpendKi { base, .. } ==> measure_sum(Measure::Block, seq![e]) == base,
        e matches Effect::GainBlockPerKiStack { multiplier } ==> measure_sum(Measure::Block, seq![e]) == multiplier,
        e matches Effect::GainBlockSpendSmite { base, .. } ==> measure_sum(Measure::Block, seq![e]) == base,
        e matches Effect::GainBlockWithFormBonus { base, .. } ==> measure_sum(Measure::Block, seq![e]) == base,
        e is DealDamage ==> measure_sum(Measure::Block, seq![e]) == 0,
{
    let one = seq![e];
    assert(one.len() == 1 && one.last() == e);
    assert(one.drop_last() =~= Seq::<Effect>::empty());
    assert(measure_sum(Measure::Block, one.drop_last()) == 0);
    assert(measure_of(Measure::Block, e) == effect_block(e));
    assert(measure_sum(Measure::Block, one) == effect_block(e));
}

/// The draw, energy and HP summaries of a card with a single effect: a
/// draw counts its cards (net of its discards; two for the per-enemy draw),
/// an energy gain its amount, a heal its amount and an HP loss minus its
/// amount; an attack counts for none of them.
pub proof fn law_other_summaries(e: Effect)
    ensures
        e matches Effect::DrawCards { count } ==> (count <= 1000 ==> measure_sum(Measure::Draw, seq![e]) == count),
        e matches Effect::DrawAndDiscard { draw, discard } ==> (draw <= 1000 && discard <= 1000 ==> measure_sum(
            Measure::Draw,
            seq![e],
        ) == draw - discard),
        e is DrawPerEnemyWithStatus ==> measure_sum(Measure::Draw, seq![e]) == 2,
        e matches Effect::GainEnergy { amount } ==> measure_sum(Measure::Energy, seq![e]) == amount,
        e matches Effect::Heal { amount } ==> measure_sum(Measure::HpChange, seq![e]) == amount,
        e matches Effect::LoseHp { amount } ==> measure_sum(Measure::HpChange, seq![e]) == -amount,
        e is DealDamage ==> measure_sum(Measure::Draw, seq![e]) == 0 && measure_sum(Measure::Energy, seq![e]) == 0
            && measure_sum(Measure::HpChange, seq![e]) == 0,
{
    let one = seq![e];
    assert(one.len() == 1 && one.last() == e);
    assert(one.drop_last() =~= Seq::<Effect>::empty());
    assert(measure_sum(Measure::Draw, one.drop_last()) == 0);
    assert(measure_of(Measure::Draw, e) == effect_draw(e));
    assert(measure_sum(Measure::Draw, one) == effect_draw(e));
    assert(measure_sum(Measure::Energy, one.drop_last()) == 0);
    assert(measure_of(Measure::Energy, e) == effect_energy(e));
    assert(measure_sum(Measure::Energy, one) == effect_energy(e));
    assert(measure_sum(Measure::HpChange, one.drop_last()) == 0);
    assert(measure_of(Measure::HpChange, e) == effect_hp_change(e));
    assert(measure_sum(Measure::HpChange, one) == effect_hp_change(e));
}

/// The sum of a measure over a card's effects, as a wide integer.
fn measure_total(m: Measure, def: &CardDef) -> (r: i128)
    ensures
        r == measure_sum(m, def.effects@),
{
    let mut total: i128 = 0;
    let mut i: usize = 0;
    while i < def.effects.len()
        invariant
            i <= def.effects@.len(),
            total == measure_sum(m, def.effects@.take(i as int)),
            -0x1_0000_0000 * (i as int) <= total <= 0x1_0000_0000 * (i as int),
        decreases def.effects@.len() - i,
    {
        proof {
            assert(def.effects@.take(i + 1).drop_last() =~= def.effects@.take(i as int));
        }
        let v = effect_measure(&m, &def.effects[i]);
        total = total + v as i128;
        i = i + 1;
    }
    proof {
        assert(def.effects@.take(i as int) =~= def.effects@);
    }
    total
}

/// The sum of a measure over a card's effects.
fn card_measure(m: Measure, def: &CardDef) -> (r: i32)
    requires
        i32::MIN <= measure_sum(m, def.effects@) <= i32::MAX,
    ensures
        r == measure_sum(m, def.effects@),
{
    let t = measure_total(m, def);
    t as i32
}

/// Total base damage of a card's effects.
pub fn card_total_damage(def: &CardDef) -> (r: i32)
    requires
        i32::MIN <= measure_sum(Measure::Damage, def.effects@) <= i32::MAX,
    ensures
        r == measure_sum(Measure::Damage, def.effects@),
{
    card_measure(Measure::Damage, def)
}

/// Total base block of a card's effects.
pub fn card_total_block(def: &CardDef) -> (r: i32)
    requires
        i32::MIN <= measure_sum(Measure::Block, def.effects@) <= i32::MAX,
    ensures
        r == measure_sum(Measure::Block, def.effects@),
{
    card_measure(Measure::Block, def)
}

/// Total cards drawn by a card's effects, net of discards.
pub fn card_draw_count(def: &CardDef) -> (r: i32)
    requires
        i32::MIN <= measure_sum(Measure::Draw, def.effects@) <= i32::MAX,
    ensures
        r == measure_sum(Measure::Draw, def.effects@),
{
    card_measure(Measure::Draw, def)
}

/// Total energy gained from a card's effects.
pub fn card_energy_gain(def: &CardDef) -> (r: i32)
    requires
        i32::MIN <= measure_sum(Measure::Energy, def.effects@) <= i32::MAX,
    ensures
        r == measure_sum(Measure::Energy, def.effects@),
{
    card_measure(Measure::Energy, def)
}

/// Net HP change from a card (heals minus self-damage).
pub fn card_hp_change(def: &CardDef) -> (r: i32)
    requires
        i32::MIN <= measure_sum(Measure::HpChange, def.effects@) <= i32::MAX,
    ensures
        r == measure_sum(Measure::HpChange, def.effects@),
{
    card_measure(Measure::HpChange, def)
}

/// Whether an effect's outcome depends on the game state.
pub open spec fn effect_is_conditional(e: Effect) -> bool {
    ||| e is DealDamageIfDamagedLastTurn
    ||| e is DealDamageIfTargetDebuffed
    ||| e is DealDamageIfEnemyBlocked
    ||| e is DealDamageIfMarked
    ||| e is DealDamagePerCardPlayed
    ||| e is DealDamageEqualBlock
    ||| e is GainBlockIfDamagedLastTurn
    ||| e is BlockEqualMissingHp
    ||| e is GainBlockConditional
    ||| e is DealDamageScaledByMarked
    ||| e is DealDamagePerDebuffOnTarget
    ||| e is DealDamageScaledByMissingHp
    ||| e is DealDamageScaledByMissingHpEnemy
    ||| e is DealDamagePerPlayerStatus
    ||| e is DealDamageSpendKi
    ||| e is GainBlockSpendKi
    ||| e is GainBlockPerKiStack
    ||| e is DealDamageSpendSmite
    ||| e is GainBlockSpendSmite
    ||| e is DealDamageSpendArtifice
    ||| e is DealDamageIfInWildShape
    ||| e is DealDamageWithFormBonus
    ||| e is GainBlockWithFormBonus
    ||| e is DrawCardsWithFormBonus
    ||| e is DealDamageIfPlayerHasStatus
    ||| e is ApplyStatusIfPlayerHasStatus
}

fn is_conditional(e: &Effect) -> (r: bool)
    ensures
        r == effect_is_conditional(*e),
{
    match e {
        Effect::DealDamageIfDamagedLastTurn { .. } | Effect::DealDamageIfTargetDebuffed { .. }
        | Effect::DealDamageIfEnemyBlocked { .. } | Effect::DealDamageIfMarked { .. }
        | Effect::DealDamagePerCardPlayed { .. } | Effect::DealDamageEqualBlock { .. }
        | Effect::GainBlockIfDamagedLastTurn { .. } | Effect::BlockEqualMissingHp { .. }
        | Effect::GainBlockConditional { .. } | Effect::DealDamageScaledByMarked { .. }
        | Effect::DealDamagePerDebuffOnTarget { .. } | Effect::DealDamageScaledByMissingHp { .. }
        | Effect::DealDamageScaledByMissingHpEnemy { .. } | Effect::DealDamagePerPlayerStatus { .. }
        | Effect::DealDamageSpendKi { .. } | Effect::GainBlockSpendKi { .. }
        | Effect::GainBlockPerKiStack { .. } | Effect::DealDamageSpendSmite { .. }
        | Effect::GainBlockSpendSmite { .. } | Effect::DealDamageSpendArtifice { .. }
        | Effect::DealDamageIfInWildShape { .. } | Effect::DealDamageWithFormBonus { .. }
        | Effect::GainBlockWithFormBonus { .. } | Effect::DrawCardsWithFormBonus { .. }
        | Effect::DealDamageIfPlayerHasStatus { .. } | Effect::ApplyStatusIfPlayerHasStatus { .. } => true,
        _ => false,
    }
}

/// Whether any of a card's effects depends on the game state.
pub fn card_has_conditional(def: &CardDef) -> (r: bool)
    ensures
        r == exists|i: int| 0 <= i < def.effects@.len() && effect_is_conditional(#[trigger] def.effects@[i]),
{
    let mut i: usize = 0;
    while i < def.effects.len()
        invariant
            i <= def.effects@.len(),
            forall|k: int| 0 <= k < i ==> !effect_is_conditional(#[trigger] def.effects@[k]),
        decreases def.effects@.len() - i,
    {
        if is_conditional(&def.effects[i]) {
            return true;
        }
        i = i + 1;
    }
    false
}

/// Whether an effect hits all enemies.
pub open spec fn effect_targets_all(e: Effect) -> bool {
    match e {
        Effect::DealDamage { target, .. } => target == Target::AllEnemies,
        Effect::ApplyStatus { target, .. } => target == Target::AllEnemies,
        Effect::DealDamageIfDamagedLastTurn { target, .. } => target == Target::AllEnemies,
        Effect::DealDamageIfTargetDebuffed { target, .. } => target == Target::AllEnemies,
        Effect::DealDamageIfEnemyBlocked { target, .. } => target == Target::AllEnemies,
        Effect::DealDamageEqualBlock { target } => target == Target::AllEnemies,
        Effect::DealDamagePerCardPlayed { target, .. } => target == Target::AllEnemies,
        Effect::RemoveEnemyBlock { target, .. } => target == Target::AllEnemies,
        Effect::DealDamagePerMarkedStack { target, .. } => target == Target::AllEnemies,
        Effect::ApplyStatusPerCardPlayed { target, .. } => target == Target::AllEnemies,
        Effect::DealDamageScaledByMarked { target, .. } => target == Target::AllEnemies,
        Effect::DealDamagePerDebuffOnTarget { target, .. } => target == Target::AllEnemies,
        Effect::DealDamageScaledByMissingHp { target, .. } => target == Target::AllEnemies,
        Effect::DealDamageScaledByMissingHpEnemy { target, .. } => target == Target::AllEnemies,
        _ => false,
    }
}

fn targets_all(e: &Effect) -> (r: bool)
    ensures
        r == effect_targets_all(*e),
{
    match e {
        Effect::DealDamage { target, .. } => *target == Target::AllEnemies,
        Effect::ApplyStatus { target, .. } => *target == Target::AllEnemies,
        Effect::DealDamageIfDamagedLastTurn { target, .. } => *target == Target::AllEnemies,
        Effect::DealDamageIfTargetDebuffed { target, .. } => *target == Target::AllEnemies,
        Effect::DealDamageIfEnemyBlocked { target, .. } => *target == Target::AllEnemies,
        Effect::DealDamageEqualBlock { target } => *target == Target::AllEnemies,
        Effect::DealDamagePerCardPlayed { target, .. } => *target == Target::AllEnemies,
        Effect::RemoveEnemyBlock { target, .. } => *target == Target::AllEnemies,
        Effect::DealDamagePerMarkedStack { target, .. } => *target == Target::AllEnemies,
        Effect::ApplyStatusPerCardPlayed { target, .. } => *target == Target::AllEnemies,
        Effect::DealDamageScaledByMarked { target, .. } => *target == Target::AllEnemies,
        Effect::DealDamagePerDebuffOnTarget { target, .. } => *target == Target::AllEnemies,
        Effect::DealDamageScaledByMissingHp { target, .. } => *target == Target::AllEnemies,
        Effect::DealDamageScaledByMissingHpEnemy { target, .. } => *target == Target::AllEnemies,
        _ => false,
    }
}

/// Whether any of a card's effects hits all enemies.
pub fn card_targets_all(def: &CardDef) -> (r: bool)
    ensures
        r == exists|i: int| 0 <= i < def.effects@.len() && effect_targets_all(#[trigger] def.effects@[i]),
{
    let mut i: usize = 0;
    while i < def.effects.len()
        invariant
            i <= def.effects@.len(),
            forall|k: int| 0 <= k < i ==> !effect_targets_all(#[trigger] def.effects@[k]),
        decreases def.effects@.len() - i,
    {
        if targets_all(&def.effects[i]) {
            return true;
        }
        i = i + 1;
    }
    false
}

// ── Rebuild view ─────────────────────────────────────────────────────────

/// Whether the collection card at `i` is still to be placed: fewer earlier
/// copies of its id than the collection holds beyond the partial deck.
pub open spec fn still_to_place(collection: Seq<CardInstance>, partial: Seq<CardInstance>, i: int) -> bool {
    let id = collection[i].def_id@;
    count_id(collection.take(i), id) + count_id(partial, id) < count_id(collection, id)
}

/// The ids of the cards still to place in a rebuild, in collection order:
/// the collection less the partial deck, earliest copies first.
pub open spec fn spec_remaining_ids(collection: Seq<CardInstance>, partial: Seq<CardInstance>, n: int) -> Seq<Seq<char>>
    decreases n,
{
    if n <= 0 {
        Seq::empty()
    } else {
        spec_remaining_ids(collection, partial, n - 1) + if still_to_place(collection, partial, n - 1) {
            seq![collection[n - 1].def_id@]
        } else {
            Seq::empty()
        }
    }
}

fn count_in(cards: &Vec<CardInstance>, n: usize, id: &String) -> (r: usize)
    requires
        n <= cards@.len(),
    ensures
        r == count_id(cards@.take(n as int), id@),
{
    let mut r: usize = 0;
    let mut i: usize = 0;
    while i < n
        invariant
            i <= n <= cards@.len(),
            r == count_id(cards@.take(i as int), id@),
            r <= i,
        decreases n - i,
    {
        proof {
            assert(cards@.take(i + 1).drop_last() =~= cards@.take(i as int));
        }
        if cards[i].def_id == *id {
            r = r + 1;
        }
        i = i + 1;
    }
    r
}

/// The ids of the collection cards a rebuild has still to place, in
/// collection order.
pub fn remaining_rebuild_ids(collection: &Vec<CardInstance>, partial: &Vec<CardInstance>) -> (r: Vec<CardId>)
    ensures
        r@.map_values(|s: CardId| s@) == spec_remaining_ids(collection@, partial@, collection@.len() as int),
{
    let mut r: Vec<CardId> = Vec::new();
    let mut i: usize = 0;
    while i < collection.len()
        invariant
            i <= collection@.len(),
            r@.map_values(|s: CardId| s@) == spec_remaining_ids(collection@, partial@, i as int),
        decreases collection@.len() - i,
    {
        let id = &collection[i].def_id;
        let before = count_in(collection, i, id);
        let in_partial = count_in(partial, partial.len(), id);
        let total = count_in(collection, collection.len(), id);
        proof {
            assert(partial@.take(partial@.len() as int) =~= partial@);
            assert(collection@.take(collection@.len() as int) =~= collection@);
        }
        let ghost pre = r@;
        if before < total && in_partial < total - before {
            r.push(id.clone());
            proof {
                assert(r@.map_values(|s: CardId| s@) =~= pre.map_values(|s: CardId| s@).push(id@));
            }
        }
        i = i + 1;
    }
    r
}


// ── Status totals ────────────────────────────────────────────────────────

/// Whether a target lies on the enemies' side (else it is the player).
pub open spec fn targets_enemy_side(t: Target) -> bool {
    t is SingleEnemy || t is AllEnemies || t is RandomEnemy
}

/// The stacks of status `s` an effect applies to one side (the enemies when
/// `to_enemies`, else the player), if it applies `s` there.
pub open spec fn effect_grant(e: Effect, to_enemies: bool, s: StatusType) -> Option<int> {
    match e {
        Effect::ApplyStatus { target, status, stacks } => if status == s && targets_enemy_side(target) == to_enemies {
            Some(stacks as int)
        } else {
            None
        },
        Effect::ApplyStatusPerCardPlayed { target, status, per_card } => if status == s && targets_enemy_side(target)
            == to_enemies {
            Some(per_card as int)
        } else {
            None
        },
        _ => None,
    }
}

/// Whether some effect applies status `s` to the side.
pub open spec fn status_granted(effects: Seq<Effect>, to_enemies: bool, s: StatusType) -> bool {
    exists|i: int| 0 <= i < effects.len() && (#[trigger] effect_grant(effects[i], to_enemies, s)) is Some
}

/// The stacks of status `s` the effects apply to the side, summed.
pub open spec fn grant_sum(effects: Seq<Effect>, to_enemies: bool, s: StatusType) -> int
    decreases effects.len(),
{
    if effects.len() == 0 {
        0
    } else {
        grant_sum(effects.drop_last(), to_enemies, s) + match effect_grant(effects.last(), to_enemies, s) {
            Some(n) => n,
            None => 0,
        }
    }
}

/// Every per-status sum of stacks applied to the side fits an `i32`.
pub open spec fn grants_fit(effects: Seq<Effect>, to_enemies: bool) -> bool {
    forall|s: StatusType| i32::MIN <= #[trigger] grant_sum(effects, to_enemies, s) <= i32::MAX
}

/// `totals` lists each status the effects apply to the side exactly once,
/// with its stacks summed over the effects.
pub open spec fn is_status_totals(totals: Seq<(StatusType, i32)>, effects: Seq<Effect>, to_enemies: bool) -> bool {
    &&& forall|k: int| 0 <= k < totals.len() ==> status_granted(effects, to_enemies, (#[trigger] totals[k]).0)
        && totals[k].1 == grant_sum(effects, to_enemies, totals[k].0)
    &&& forall|k: int, l: int| 0 <= k < l < totals.len() ==> (#[trigger] totals[k]).0 != (#[trigger] totals[l]).0
    &&& forall|s: StatusType| #[trigger] status_granted(effects, to_enemies, s) ==> exists|k: int|
        0 <= k < totals.len() && totals[k].0 == s
}

fn effect_grant_of(e: &Effect, to_enemies: bool, s: StatusType) -> (r: Option<i32>)
    ensures
        match r {
            Some(n) => effect_grant(*e, to_enemies, s) == Some(n as int),
            None => effect_grant(*e, to_enemies, s) is None,
        },
{
    match e {
        Effect::ApplyStatus { target, status, stacks } => {
            let enemy_side = match target {
                Target::Player => false,
                _ => true,
            };
            if *status == s && enemy_side == to_enemies { Some(*stacks) } else { None }
        },
        Effect::ApplyStatusPerCardPlayed { target, status, per_card } => {
            let enemy_side = match target {
                Target::Player => false,
                _ => true,
            };
            if *status == s && enemy_side == to_enemies { Some(*per_card) } else { None }
        },
        _ => None,
    }
}

/// Whether the effects apply status `s` to the side, and the summed stacks.
fn status_total(effects: &Vec<Effect>, to_enemies: bool, s: StatusType) -> (r: (bool, i128))
    ensures
        r.0 == status_granted(effects@, to_enemies, s),
        r.1 == grant_sum(effects@, to_enemies, s),
{
    let mut found = false;
    let mut total: i128 = 0;
    let mut i: usize = 0;
    while i < effects.len()
        invariant
            i <= effects@.len(),
            total == grant_sum(effects@.take(i as int), to_enemies, s),
            found == exists|j: int| 0 <= j < i && (#[trigger] effect_grant(effects@[j], to_enemies, s)) is Some,
            -0x1_0000_0000 * (i as int) <= total <= 0x1_0000_0000 * (i as int),
        decreases effects@.len() - i,
    {
        proof {
            assert(effects@.take(i + 1).drop_last() =~= effects@.take(i as int));
            assert(effects@.take(i + 1).last() == effects@[i as int]);
        }
        match effect_grant_of(&effects[i], to_enemies, s) {
            Some(n) => {
                found = true;
                total = total + n as i128;
            },
            None => {},
        }
        i = i + 1;
    }
    proof {
        assert(effects@.take(i as int) =~= effects@);
    }
    (found, total)
}

/// The statuses a card applies to one side with their summed stacks, in the
/// fixed status order.
fn card_status_totals(def: &CardDef, to_enemies: bool) -> (r: Vec<(StatusType, i32)>)
    requires
        grants_fit(def.effects@, to_enemies),
    ensures
        is_status_totals(r@, def.effects@, to_enemies),
{
    let ghost effects = def.effects@;
    let mut out: Vec<(StatusType, i32)> = Vec::new();
    let mut i: usize = 0;
    while i < STATUS_COUNT
        invariant
            i <= STATUS_COUNT,
            effects == def.effects@,
            grants_fit(effects, to_enemies),
            forall|k: int| 0 <= k < out@.len() ==> status_granted(effects, to_enemies, (#[trigger] out@[k]).0)
                && out@[k].1 == grant_sum(effects, to_enemies, out@[k].0),
            forall|k: int| 0 <= k < out@.len() ==> status_index((#[trigger] out@[k]).0) < i,
            forall|k: int, l: int| 0 <= k < l < out@.len() ==> status_index((#[trigger] out@[k]).0)
                < status_index((#[trigger] out@[l]).0),
            forall|s: StatusType| status_index(s) < i && #[trigger] status_granted(effects, to_enemies, s) ==> exists|k: int|
                0 <= k < out@.len() && out@[k].0 == s,
        decreases STATUS_COUNT - i,
    {
        let s = StatusType::from_index(i);
        let (found, total) = status_total(&def.effects, to_enemies, s);
        let ghost pre = out@;
        if found {
            proof {
                assert(i32::MIN <= grant_sum(effects, to_enemies, s) <= i32::MAX);
            }
            out.push((s, total as i32));
            proof {
                assert(out@[pre.len() as int].0 == s);
            }
        }
        proof {
            assert forall|t: StatusType| status_index(t) < i + 1 && #[trigger] status_granted(effects, to_enemies, t) implies exists|k: int|
                0 <= k < out@.len() && out@[k].0 == t by {
                if status_index(t) < i {
                    let k = choose|k: int| 0 <= k < pre.len() && pre[k].0 == t;
                    assert(out@[k].0 == t);
                } else {
                    crate::status::lemma_status_index_roundtrip(t);
                    assert(t == s);
                    assert(out@[pre.len() as int].0 == t);
                }
            }
        }
        i = i + 1;
    }
    proof {
        assert forall|k: int, l: int| 0 <= k < l < out@.len() implies (#[trigger] out@[k]).0 != (#[trigger] out@[l]).0 by {
            assert(status_index(out@[k].0) < status_index(out@[l].0));
        }
        assert forall|s: StatusType| #[trigger] status_granted(effects, to_enemies, s) implies exists|k: int|
            0 <= k < out@.len() && out@[k].0 == s by {
            crate::status::lemma_status_index_roundtrip(s);
        }
    }
    out
}

/// Per-status stacks a card applies to enemies.
pub fn card_enemy_statuses(def: &CardDef) -> (r: Vec<(StatusType, i32)>)
    requires
        grants_fit(def.effects@, true),
    ensures
        is_status_totals(r@, def.effects@, true),
{
    card_status_totals(def, true)
}

/// Per-status stacks a card applies to the player.
pub fn card_self_statuses(def: &CardDef) -> (r: Vec<(StatusType, i32)>)
    requires
        grants_fit(def.effects@, false),
    ensures
        is_status_totals(r@, def.effects@, false),
{
    card_status_totals(def, false)
}


// ── Card observations ────────────────────────────────────────────────────

/// What an agent sees of one card.
#[derive(Debug)]
pub struct CardObs {
    pub card_id: CardId,
    pub name: String,
    pub cost: i32,
    pub tags: Vec<CardTag>,
    pub description: String,
    /// Whether the card can currently be played.
    pub playable: bool,
    /// Total base damage across all effects.
    pub total_damage: i32,
    /// Total base block across all effects.
    pub total_block: i32,
    /// Whether the card is removed from the deck after play.
    pub exhaust: bool,
    /// Cards drawn by the card's effects, net of discards.
    pub draw_count: i32,
    /// Energy gained from the card's effects.
    pub energy_gain: i32,
    /// Per-status stacks applied to enemies.
    pub enemy_statuses: Vec<(StatusType, i32)>,
    /// Per-status stacks applied to the player.
    pub self_statuses: Vec<(StatusType, i32)>,
    /// Whether the card hits all enemies.
    pub targets_all: bool,
    /// Net HP change (heals minus self-damage).
    pub hp_change: i32,
    /// Whether the card is drawn on turn 1.
    pub innate: bool,
    /// Whether the card goes to the bottom of the draw pile instead of the discard.
    pub recycle: bool,
    /// Whether the card has effects that depend on the game state.
    pub has_conditional: bool,
    /// Whether the card stays in hand at the end of the turn.
    pub concentration: bool,
}

/// Every sum a card's summary takes fits an `i32`.
pub open spec fn card_observable(d: CardDef) -> bool {
    &&& forall|m: Measure| i32::MIN <= #[trigger] measure_sum(m, d.effects@) <= i32::MAX
    &&& grants_fit(d.effects@, true)
    &&& grants_fit(d.effects@, false)
}

/// `o` summarises the card `card_id` whose definition is `def`: the
/// definition's fields and sums, or empty, zero and false where the card is
/// unknown.
pub open spec fn card_obs_matches(o: CardObs, card_id: Seq<char>, def: Option<CardDef>, playable: bool) -> bool {
    &&& o.card_id@ == card_id
    &&& o.playable == playable
    &&& match def {
        Some(d) => {
            &&& o.name@ == d.name@
            &&& o.cost == d.cost
            &&& o.tags@ == d.tags@
            &&& o.description@ == d.description@
            &&& o.total_damage == measure_sum(Measure::Damage, d.effects@)
            &&& o.total_block == measure_sum(Measure::Block, d.effects@)
            &&& o.exhaust == d.exhaust
            &&& o.draw_count == measure_sum(Measure::Draw, d.effects@)
            &&& o.energy_gain == measure_sum(Measure::Energy, d.effects@)
            &&& is_status_totals(o.enemy_statuses@, d.effects@, true)
            &&& is_status_totals(o.self_statuses@, d.effects@, false)
            &&& o.targets_all == exists|i: int| 0 <= i < d.effects@.len() && effect_targets_all(#[trigger] d.effects@[i])
            &&& o.hp_change == measure_sum(Measure::HpChange, d.effects@)
            &&& o.innate == d.innate
            &&& o.recycle == d.recycle
            &&& o.has_conditional == exists|i: int| 0 <= i < d.effects@.len() && effect_is_conditional(#[trigger] d.effects@[i])
            &&& o.concentration == d.concentration
        },
        None => {
            &&& o.name@ == Seq::<char>::empty()
            &&& o.cost == 0
            &&& o.tags@ == Seq::<CardTag>::empty()
            &&& o.description@ == Seq::<char>::empty()
            &&& o.total_damage == 0
            &&& o.total_block == 0
            &&& !o.exhaust
            &&& o.draw_count == 0
            &&& o.energy_gain == 0
            &&& o.enemy_statuses@.len() == 0
            &&& o.self_statuses@.len() == 0
            &&& !o.targets_all
            &&& o.hp_change == 0
            &&& !o.innate
            &&& !o.recycle
            &&& !o.has_conditional
            &&& !o.concentration
        },
    }
}

fn copy_tags(tags: &Vec<CardTag>) -> (r: Vec<CardTag>)
    ensures
        r@ == tags@,
{
    let mut r: Vec<CardTag> = Vec::new();
    let mut i: usize = 0;
    while i < tags.len()
        invariant
            i <= tags@.len(),
            r@ == tags@.take(i as int),
        decreases tags@.len() - i,
    {
        r.push(tags[i]);
        proof {
            assert(tags@.take(i + 1) =~= tags@.take(i as int).push(tags@[i as int]));
        }
        i = i + 1;
    }
    proof {
        assert(tags@.take(i as int) =~= tags@);
    }
    r
}

/// The summary of a card from its definition, if the definition is known.
pub fn card_obs_from_def(card_id: &CardId, def: Option<&CardDef>, playable: bool) -> (r: CardObs)
    requires
        def matches Some(d) ==> card_observable(*d),
    ensures
        card_obs_matches(r, card_id@, match def { Some(d) => Some(*d), None => None }, playable),
{
    match def {
        Some(d) => {
            proof {
                assert(i32::MIN <= measure_sum(Measure::Damage, d.effects@) <= i32::MAX);
                assert(i32::MIN <= measure_sum(Measure::Block, d.effects@) <= i32::MAX);
                assert(i32::MIN <= measure_sum(Measure::Draw, d.effects@) <= i32::MAX);
                assert(i32::MIN <= measure_sum(Measure::Energy, d.effects@) <= i32::MAX);
                assert(i32::MIN <= measure_sum(Measure::HpChange, d.effects@) <= i32::MAX);
            }
            CardObs {
                card_id: card_id.clone(),
                name: d.name.clone(),
                cost: d.cost,
                tags: copy_tags(&d.tags),
                description: d.description.clone(),
                playable,
                total_damage: card_total_damage(d),
                total_block: card_total_block(d),
                exhaust: d.exhaust,
                draw_count: card_draw_count(d),
                energy_gain: card_energy_gain(d),
                enemy_statuses: card_enemy_statuses(d),
                self_statuses: card_self_statuses(d),
                targets_all: card_targets_all(d),
                hp_change: card_hp_change(d),
                innate: d.innate,
                recycle: d.recycle,
                has_conditional: card_has_conditional(d),
                concentration: d.concentration,
            }
        },
        None => CardObs {
            card_id: card_id.clone(),
            name: String::new(),
            cost: 0,
            tags: Vec::new(),
            description: String::new(),
            playable,
            total_damage: 0,
            total_block: 0,
            exhaust: false,
            draw_count: 0,
            energy_gain: 0,
            enemy_statuses: Vec::new(),
            self_statuses: Vec::new(),
            targets_all: false,
            hp_change: 0,
            innate: false,
            recycle: false,
            has_conditional: false,
            concentration: false,
        },
    }
}


// ── Enemy observations ───────────────────────────────────────────────────

/// What an agent sees of one enemy.
#[derive(Debug)]
pub struct EnemyObs {
    pub index: usize,
    pub enemy_id: String,
    pub name: String,
    pub hp: i32,
    pub max_hp: i32,
    pub block: i32,
    pub intent_index: usize,
    pub intent: Option<IntentType>,
    pub statuses: Vec<(StatusType, i32)>,
    pub alive: bool,
}

/// `statuses` lists each present status of the table once, with its count.
pub open spec fn lists_statuses(statuses: Seq<(StatusType, i32)>, m: StatusMap) -> bool {
    &&& forall|k: int| 0 <= k < statuses.len() ==> m.count((#[trigger] statuses[k]).0) == statuses[k].1
        && statuses[k].1 != 0
    &&& forall|k: int, l: int| 0 <= k < l < statuses.len() ==> (#[trigger] statuses[k]).0 != (#[trigger] statuses[l]).0
    &&& forall|s: StatusType| #[trigger] m.count(s) != 0 ==> exists|k: int| 0 <= k < statuses.len() && statuses[k].0 == s
}

/// The statuses of a table, each once with its count.
pub fn status_list(m: &StatusMap) -> (r: Vec<(StatusType, i32)>)
    requires
        m.wf(),
    ensures
        lists_statuses(r@, *m),
{
    let r = m.iter();
    proof {
        assert forall|k: int, l: int| 0 <= k < l < r@.len() implies (#[trigger] r@[k]).0 != (#[trigger] r@[l]).0 by {
            assert(status_index(r@[k].0) < status_index(r@[l].0));
        }
    }
    r
}

/// The name an enemy id has in the content, or the empty name.
pub open spec fn enemy_name(content: ContentTables, id: Seq<char>) -> Seq<char> {
    match content.spec_enemy(id) {
        Some(d) => d.name@,
        None => Seq::empty(),
    }
}

/// `o` shows enemy `e`, at position `i` of the combat.
pub open spec fn enemy_obs_matches(o: EnemyObs, i: int, e: EnemyState, content: ContentTables) -> bool {
    &&& o.index == i
    &&& o.enemy_id@ == e.def_id@
    &&& o.name@ == enemy_name(content, e.def_id@)
    &&& o.hp == e.hp
    &&& o.max_hp == e.max_hp
    &&& o.block == e.block
    &&& o.intent_index == e.intent_index
    &&& o.intent == e.current_intent
    &&& lists_statuses(o.statuses@, e.status_effects)
    &&& o.alive == (e.hp > 0)
}

/// What an agent sees of each enemy of a combat, in combat order.
pub fn enemy_observations(enemies: &Vec<EnemyState>, content: &ContentTables) -> (r: Vec<EnemyObs>)
    requires
        forall|i: int| 0 <= i < enemies@.len() ==> (#[trigger] enemies@[i]).status_effects.wf(),
    ensures
        r@.len() == enemies@.len(),
        forall|i: int| 0 <= i < r@.len() ==> enemy_obs_matches(#[trigger] r@[i], i, enemies@[i], *content),
{
    let mut r: Vec<EnemyObs> = Vec::new();
    let mut i: usize = 0;
    while i < enemies.len()
        invariant
            i <= enemies@.len(),
            r@.len() == i,
            forall|k: int| 0 <= k < enemies@.len() ==> (#[trigger] enemies@[k]).status_effects.wf(),
            forall|k: int| 0 <= k < r@.len() ==> enemy_obs_matches(#[trigger] r@[k], k, enemies@[k], *content),
        decreases enemies@.len() - i,
    {
        let e = &enemies[i];
        let name = match content.enemy_def(&e.def_id) {
            Some(d) => d.name.clone(),
            None => String::new(),
        };
        let o = EnemyObs {
            index: i,
            enemy_id: e.def_id.clone(),
            name,
            hp: e.hp,
            max_hp: e.max_hp,
            block: e.block,
            intent_index: e.intent_index,
            intent: e.current_intent,
            statuses: status_list(&e.status_effects),
            alive: !e.is_dead(),
        };
        r.push(o);
        i = i + 1;
    }
    r
}


// ── Observable content ───────────────────────────────────────────────────

/// Every card definition of the content can be summarised.
pub open spec fn content_observable(content: ContentTables) -> bool {
    forall|i: int| 0 <= i < content.card_defs@.len() ==> card_observable(#[trigger] content.card_defs@[i])
}

fn fits_i32(v: i128) -> (r: bool)
    ensures
        r == (i32::MIN <= v <= i32::MAX),
{
    i32::MIN as i128 <= v && v <= i32::MAX as i128
}

/// Whether every sum a card's summary takes fits an `i32`.
pub fn card_is_observable(def: &CardDef) -> (r: bool)
    ensures
        r == card_observable(*def),
{
    let d = measure_total(Measure::Damage, def);
    let b = measure_total(Measure::Block, def);
    let w = measure_total(Measure::Draw, def);
    let e = measure_total(Measure::Energy, def);
    let h = measure_total(Measure::HpChange, def);
    let measures_fit = fits_i32(d) && fits_i32(b) && fits_i32(w) && fits_i32(e) && fits_i32(h);
    proof {
        if measures_fit {
            assert forall|m: Measure| i32::MIN <= #[trigger] measure_sum(m, def.effects@) <= i32::MAX by {
                match m {
                    Measure::Damage => {},
                    Measure::Block => {},
                    Measure::Draw => {},
                    Measure::Energy => {},
                    Measure::HpChange => {},
                }
            }
        }
    }
    if !measures_fit {
        return false;
    }
    let mut i: usize = 0;
    while i < STATUS_COUNT
        invariant
            i <= STATUS_COUNT,
            forall|s: StatusType| status_index(s) < i ==> i32::MIN <= #[trigger] grant_sum(def.effects@, true, s) <= i32::MAX,
            forall|s: StatusType| status_index(s) < i ==> i32::MIN <= #[trigger] grant_sum(def.effects@, false, s) <= i32::MAX,
        decreases STATUS_COUNT - i,
    {
        let st = StatusType::from_index(i);
        let (_, to_enemies) = status_total(&def.effects, true, st);
        let (_, to_self) = status_total(&def.effects, false, st);
        if !fits_i32(to_enemies) || !fits_i32(to_self) {
            proof {
                assert(!grants_fit(def.effects@, true) || !grants_fit(def.effects@, false));
            }
            return false;
        }
        proof {
            assert forall|s: StatusType| status_index(s) < i + 1 implies i32::MIN <= #[trigger] grant_sum(def.effects@, true, s) <= i32::MAX by {
                if status_index(s) == i {
                    crate::status::lemma_status_index_roundtrip(s);
                }
            }
            assert forall|s: StatusType| status_index(s) < i + 1 implies i32::MIN <= #[trigger] grant_sum(def.effects@, false, s) <= i32::MAX by {
                if status_index(s) == i {
                    crate::status::lemma_status_index_roundtrip(s);
                }
            }
        }
        i = i + 1;
    }
    proof {
        assert forall|s: StatusType| i32::MIN <= #[trigger] grant_sum(def.effects@, true, s) <= i32::MAX by {
            crate::status::lemma_status_index_roundtrip(s);
        }
        assert forall|s: StatusType| i32::MIN <= #[trigger] grant_sum(def.effects@, false, s) <= i32::MAX by {
            crate::status::lemma_status_index_roundtrip(s);
        }
    }
    true
}

/// Whether every card definition of the content can be summarised.
pub fn content_is_observable(content: &ContentTables) -> (r: bool)
    ensures
        r == content_observable(*content),
{
    let mut i: usize = 0;
    while i < content.card_defs.len()
        invariant
            i <= content.card_defs@.len(),
            forall|k: int| 0 <= k < i ==> card_observable(#[trigger] content.card_defs@[k]),
        decreases content.card_defs@.len() - i,
    {
        if !card_is_observable(&content.card_defs[i]) {
            return false;
        }
        i = i + 1;
    }
    true
}

/// The summary of the card `id`, looked up in the content.
pub fn card_obs_of(id: &CardId, content: &ContentTables, playable: bool) -> (r: CardObs)
    requires
        content_observable(*content),
    ensures
        card_obs_matches(r, id@, content.spec_card(id@), playable),
{
    match content.card_index(id) {
        Some(i) => card_obs_from_def(id, Some(&content.card_defs[i]), playable),
        None => card_obs_from_def(id, None, playable),
    }
}

/// The summaries of the ids, none of them playable.
pub fn id_observations(ids: &Vec<CardId>, content: &ContentTables) -> (r: Vec<CardObs>)
    requires
        content_observable(*content),
    ensures
        r@.len() == ids@.len(),
        forall|i: int| 0 <= i < r@.len() ==> card_obs_matches(#[trigger] r@[i], ids@[i]@, content.spec_card(ids@[i]@), false),
{
    let mut r: Vec<CardObs> = Vec::new();
    let mut i: usize = 0;
    while i < ids.len()
        invariant
            i <= ids@.len(),
            r@.len() == i,
            content_observable(*content),
            forall|k: int| 0 <= k < r@.len() ==> card_obs_matches(#[trigger] r@[k], ids@[k]@, content.spec_card(ids@[k]@), false),
        decreases ids@.len() - i,
    {
        r.push(card_obs_of(&ids[i], content, false));
        i = i + 1;
    }
    r
}

/// The summaries of the cards, none of them playable.
pub fn deck_observations(cards: &Vec<CardInstance>, content: &ContentTables) -> (r: Vec<CardObs>)
    requires
        content_observable(*content),
    ensures
        r@.len() == cards@.len(),
        forall|i: int| 0 <= i < r@.len() ==> card_obs_matches(#[trigger] r@[i], cards@[i].def_id@, content.spec_card(cards@[i].def_id@), false),
{
    let mut r: Vec<CardObs> = Vec::new();
    let mut i: usize = 0;
    while i < cards.len()
        invariant
            i <= cards@.len(),
            r@.len() == i,
            content_observable(*content),
            forall|k: int| 0 <= k < r@.len() ==> card_obs_matches(#[trigger] r@[k], cards@[k].def_id@, content.spec_card(cards@[k].def_id@), false),
        decreases cards@.len() - i,
    {
        r.push(card_obs_of(&cards[i].def_id, content, false));
        i = i + 1;
    }
    r
}

/// The summaries of a combat's hand, each marked playable when it can be
/// played now.
pub fn hand_observations(combat: &CombatState, content: &ContentTables) -> (r: Vec<CardObs>)
    requires
        combat.wf(),
        content_observable(*content),
    ensures
        r@.len() == combat.hand@.len(),
        forall|i: int| 0 <= i < r@.len() ==> card_obs_matches(#[trigger] r@[i], combat.hand@[i].def_id@,
            content.spec_card(combat.hand@[i].def_id@), combat.spec_can_play(i, content)),
{
    let mut r: Vec<CardObs> = Vec::new();
    let mut i: usize = 0;
    while i < combat.hand.len()
        invariant
            i <= combat.hand@.len(),
            r@.len() == i,
            combat.wf(),
            content_observable(*content),
            forall|k: int| 0 <= k < r@.len() ==> card_obs_matches(#[trigger] r@[k], combat.hand@[k].def_id@,
                content.spec_card(combat.hand@[k].def_id@), combat.spec_can_play(k, content)),
        decreases combat.hand@.len() - i,
    {
        let playable = combat.can_play_card(i, content);
        r.push(card_obs_of(&combat.hand[i].def_id, content, playable));
        i = i + 1;
    }
    r
}

/// The ids of the cards, in order.
pub fn ids_of(cards: &Vec<CardInstance>) -> (r: Vec<CardId>)
    ensures
        card_ids_view(r@) == deck_ids_view(cards@),
{
    let mut r: Vec<CardId> = Vec::new();
    let mut i: usize = 0;
    while i < cards.len()
        invariant
            i <= cards@.len(),
            r@.len() == i,
            forall|k: int| 0 <= k < r@.len() ==> (#[trigger] r@[k])@ == cards@[k].def_id@,
        decreases cards@.len() - i,
    {
        r.push(cards[i].def_id.clone());
        i = i + 1;
    }
    proof {
        assert(card_ids_view(r@) =~= deck_ids_view(cards@));
    }
    r
}


// ── The observation ──────────────────────────────────────────────────────

/// A snapshot of a run for decision-making.
#[derive(Debug)]
pub struct Observation {
    pub in_combat: bool,
    pub in_reward: bool,
    pub game_over: bool,
    pub phase_type: ObservedPhase,
    pub player_hp: i32,
    pub player_max_hp: i32,
    pub player_block: i32,
    pub player_energy: i32,
    pub player_max_energy: i32,
    pub player_statuses: Vec<(StatusType, i32)>,
    pub player_level: u32,
    /// The hand (combat only).
    pub hand: Vec<CardObs>,
    /// The enemies (combat only).
    pub enemies: Vec<EnemyObs>,
    pub draw_pile_size: usize,
    pub discard_pile_size: usize,
    pub turn: u32,
    pub block_floor: i32,
    pub retain_block_cap: i32,
    /// Cards the player must discard before taking other actions.
    pub pending_discards: usize,
    pub draw_pile_card_ids: Vec<CardId>,
    pub hand_card_ids: Vec<CardId>,
    pub discard_pile_card_ids: Vec<CardId>,
    pub exhaust_pile_card_ids: Vec<CardId>,
    pub fights_won: u32,
    pub play_deck_size: usize,
    pub play_deck_card_ids: Vec<CardId>,
    pub collection_size: usize,
    pub collection_card_ids: Vec<CardId>,
    pub bonus_draw: i32,
    pub bonus_energy: i32,
    pub innate_card_ids: Vec<CardId>,
    /// The reward offer.
    pub reward_cards: Vec<CardObs>,
    /// The newly acquired card (deck-swap phase only).
    pub acquired_card: Option<CardObs>,
    /// The cards directly selectable in the current phase.
    pub choice_cards: Vec<CardObs>,
    pub rebuild_slot_index: usize,
    pub rebuild_partial_deck_card_ids: Vec<CardId>,
    pub rebuild_remaining_card_ids: Vec<CardId>,
    /// Whether the player took damage during the previous turn of this combat.
    pub player_took_damage_last_turn: bool,
    /// Cards played during the current player turn.
    pub cards_played_this_turn: u32,
    /// A summary of each card of the play deck.
    pub play_deck_cards: Vec<CardObs>,
    pub subclass: String,
    pub race: String,
    pub background: String,
}

/// The combat part of `o` shows combat `c`.
pub open spec fn shows_combat(o: Observation, c: CombatState, content: ContentTables) -> bool {
    &&& o.hand@.len() == c.hand@.len()
    &&& forall|i: int| 0 <= i < o.hand@.len() ==> card_obs_matches(#[trigger] o.hand@[i], c.hand@[i].def_id@,
        content.spec_card(c.hand@[i].def_id@), c.spec_can_play(i, &content))
    &&& o.enemies@.len() == c.enemies@.len()
    &&& forall|i: int| 0 <= i < o.enemies@.len() ==> enemy_obs_matches(#[trigger] o.enemies@[i], i, c.enemies@[i], content)
    &&& o.draw_pile_size == c.draw_pile@.len()
    &&& o.discard_pile_size == c.discard@.len()
    &&& o.turn == c.turn
    &&& o.player_hp == c.player.hp
    &&& o.player_max_hp == c.player.max_hp
    &&& o.player_block == c.player.block
    &&& o.player_energy == c.player.energy
    &&& o.player_max_energy == c.player.max_energy
    &&& lists_statuses(o.player_statuses@, c.player.status_effects)
    &&& card_ids_view(o.draw_pile_card_ids@) == deck_ids_view(c.draw_pile@)
    &&& card_ids_view(o.hand_card_ids@) == deck_ids_view(c.hand@)
    &&& card_ids_view(o.discard_pile_card_ids@) == deck_ids_view(c.discard@)
    &&& card_ids_view(o.exhaust_pile_card_ids@) == deck_ids_view(c.exhaust@)
    &&& o.block_floor == c.block_floor
    &&& o.retain_block_cap == c.retain_block_cap
    &&& o.pending_discards == c.pending_discards
    &&& o.player_took_damage_last_turn == c.player_took_damage_last_turn
    &&& o.cards_played_this_turn == c.cards_played_this_turn
}

/// Out of combat, `o` shows the run's player and empty combat fields.
pub open spec fn shows_no_combat(o: Observation, p: PlayerState) -> bool {
    &&& o.hand@.len() == 0
    &&& o.enemies@.len() == 0
    &&& o.draw_pile_size == 0
    &&& o.discard_pile_size == 0
    &&& o.turn == 0
    &&& o.player_hp == p.hp
    &&& o.player_max_hp == p.max_hp
    &&& o.player_block == p.block
    &&& o.player_energy == p.energy
    &&& o.player_max_energy == p.max_energy
    &&& lists_statuses(o.player_statuses@, p.status_effects)
    &&& o.draw_pile_card_ids@.len() == 0
    &&& o.hand_card_ids@.len() == 0
    &&& o.discard_pile_card_ids@.len() == 0
    &&& o.exhaust_pile_card_ids@.len() == 0
    &&& o.block_floor == 0
    &&& o.retain_block_cap == 0
    &&& o.pending_discards == 0
    &&& !o.player_took_damage_last_turn
    &&& o.cards_played_this_turn == 0
}

/// The choice cards of `o` are those the run's phase offers: the removable
/// collection cards while trimming an overflow, the cards that may fill the
/// next slot of a rebuild, none otherwise.
pub open spec fn shows_choices(o: Observation, g: GauntletRunner) -> bool {
    match g.phase {
        GauntletPhase::CollectionOverflow { .. } => {
            &&& o.choice_cards@.len() == g.spec_removal_indices().len()
            &&& forall|k: int| 0 <= k < o.choice_cards@.len() ==> {
                let id = g.collection@[g.spec_removal_indices()[k] as int].def_id@;
                card_obs_matches(#[trigger] o.choice_cards@[k], id, g.content.spec_card(id), false)
            }
        },
        GauntletPhase::DeckRebuild { partial_deck, .. } => {
            &&& o.choice_cards@.len() == g.spec_rebuild_choices(partial_deck@).len()
            &&& forall|k: int| 0 <= k < o.choice_cards@.len() ==> {
                let id = g.spec_rebuild_choices(partial_deck@)[k];
                card_obs_matches(#[trigger] o.choice_cards@[k], id, g.content.spec_card(id), false)
            }
        },
        _ => o.choice_cards@.len() == 0,
    }
}

/// The run-wide part of `o` shows run `g`.
pub open spec fn shows_run(o: Observation, g: GauntletRunner) -> bool {
    &&& o.player_level == g.level
    &&& o.fights_won == g.fights_won
    &&& o.play_deck_size == g.play_deck@.len()
    &&& card_ids_view(o.play_deck_card_ids@) == deck_ids_view(g.play_deck@)
    &&& o.collection_size == g.collection@.len()
    &&& card_ids_view(o.collection_card_ids@) == deck_ids_view(g.collection@)
    &&& o.bonus_draw == g.bonus_draw
    &&& o.bonus_energy == g.bonus_energy
    &&& o.innate_card_ids@ == g.innate_overrides@
    &&& o.reward_cards@.len() == g.reward_options@.len()
    &&& forall|k: int| 0 <= k < o.reward_cards@.len() ==> card_obs_matches(#[trigger] o.reward_cards@[k],
        g.reward_options@[k]@, g.content.spec_card(g.reward_options@[k]@), true)
    &&& o.play_deck_cards@.len() == g.play_deck@.len()
    &&& forall|k: int| 0 <= k < o.play_deck_cards@.len() ==> card_obs_matches(#[trigger] o.play_deck_cards@[k],
        g.play_deck@[k].def_id@, g.content.spec_card(g.play_deck@[k].def_id@), false)
    &&& match g.phase {
        GauntletPhase::DeckSwap { new_card_id } => o.acquired_card matches Some(a) && card_obs_matches(a,
            new_card_id@, g.content.spec_card(new_card_id@), false),
        _ => o.acquired_card is None,
    }
    &&& shows_choices(o, g)
    &&& match g.phase {
        GauntletPhase::DeckRebuild { slot_idx, partial_deck } => {
            &&& o.rebuild_slot_index == slot_idx
            &&& card_ids_view(o.rebuild_partial_deck_card_ids@) == deck_ids_view(partial_deck@)
            &&& card_ids_view(o.rebuild_remaining_card_ids@) == spec_remaining_ids(g.collection@, partial_deck@,
                g.collection@.len() as int)
        },
        _ => {
            &&& o.rebuild_slot_index == 0
            &&& o.rebuild_partial_deck_card_ids@.len() == 0
            &&& o.rebuild_remaining_card_ids@.len() == 0
        },
    }
    &&& o.subclass@ == g.subclass_id@
    &&& o.race@ == g.race@
    &&& o.background@ == g.background@
}

/// The summaries of the cards at the given positions, none playable.
fn indexed_observations(cards: &Vec<CardInstance>, indices: &Vec<usize>, content: &ContentTables) -> (r: Vec<CardObs>)
    requires
        content_observable(*content),
        forall|k: int| 0 <= k < indices@.len() ==> (#[trigger] indices@[k]) < cards@.len(),
    ensures
        r@.len() == indices@.len(),
        forall|k: int| 0 <= k < r@.len() ==> card_obs_matches(#[trigger] r@[k], cards@[indices@[k] as int].def_id@,
            content.spec_card(cards@[indices@[k] as int].def_id@), false),
{
    let mut r: Vec<CardObs> = Vec::new();
    let mut i: usize = 0;
    while i < indices.len()
        invariant
            i <= indices@.len(),
            r@.len() == i,
            content_observable(*content),
            forall|k: int| 0 <= k < indices@.len() ==> (#[trigger] indices@[k]) < cards@.len(),
            forall|k: int| 0 <= k < r@.len() ==> card_obs_matches(#[trigger] r@[k], cards@[indices@[k] as int].def_id@,
                content.spec_card(cards@[indices@[k] as int].def_id@), false),
        decreases indices@.len() - i,
    {
        let idx = indices[i];
        r.push(card_obs_of(&cards[idx].def_id, content, false));
        i = i + 1;
    }
    r
}

fn copy_card_ids(ids: &Vec<CardId>) -> (r: Vec<CardId>)
    ensures
        r@ == ids@,
{
    let mut r: Vec<CardId> = Vec::new();
    let mut k: usize = 0;
    while k < ids.len()
        invariant
            k <= ids@.len(),
            r@ == ids@.take(k as int),
        decreases ids@.len() - k,
    {
        r.push(ids[k].clone());
        proof {
            assert(ids@.take(k + 1) =~= ids@.take(k as int).push(ids@[k as int]));
        }
        k = k + 1;
    }
    proof {
        assert(ids@.take(k as int) =~= ids@);
    }
    r
}

impl GauntletRunner {
    /// A snapshot of the run for decision-making.
    pub fn observe(&self) -> (r: Observation)
        requires
            self.wf(),
            content_observable(self.content),
        ensures
            (r.in_combat, r.in_reward, r.game_over) == (self.phase is Combat, self.phase is Reward, self.phase is GameOver),
            r.phase_type == spec_observed_phase(self.phase),
            match self.combat {
                Some(c) => shows_combat(r, c, self.content),
                None => shows_no_combat(r, self.player),
            },
            shows_run(r, *self),
    {
        let (in_combat, in_reward, game_over) = phase_flags(&self.phase);
        let phase_type = observed_phase(&self.phase);
        let content = &self.content;
        let (hand, enemies, draw_pile_size, discard_pile_size, turn) = match &self.combat {
            Some(c) => (hand_observations(c, content), enemy_observations(&c.enemies, content), c.draw_pile.len(),
                c.discard.len(), c.turn),
            None => (Vec::new(), Vec::new(), 0, 0, 0),
        };
        let (player_hp, player_max_hp, player_block, player_energy, player_max_energy, player_statuses) =
            match &self.combat {
            Some(c) => (c.player.hp, c.player.max_hp, c.player.block, c.player.energy, c.player.max_energy,
                status_list(&c.player.status_effects)),
            None => (self.player.hp, self.player.max_hp, self.player.block, self.player.energy,
                self.player.max_energy, status_list(&self.player.status_effects)),
        };
        let (draw_pile_card_ids, hand_card_ids, discard_pile_card_ids, exhaust_pile_card_ids) = match &self.combat {
            Some(c) => (ids_of(&c.draw_pile), ids_of(&c.hand), ids_of(&c.discard), ids_of(&c.exhaust)),
            None => (Vec::new(), Vec::new(), Vec::new(), Vec::new()),
        };
        let (block_floor, retain_block_cap, pending_discards, player_took_damage_last_turn, cards_played_this_turn) =
            match &self.combat {
            Some(c) => (c.block_floor, c.retain_block_cap, c.pending_discards, c.player_took_damage_last_turn,
                c.cards_played_this_turn),
            None => (0, 0, 0, false, 0),
        };
        let reward_cards = reward_observations(&self.reward_options, content);
        let play_deck_cards = deck_observations(&self.play_deck, content);
        let acquired_card = match &self.phase {
            GauntletPhase::DeckSwap { new_card_id } => Some(card_obs_of(new_card_id, content, false)),
            _ => None,
        };
        let choice_cards = match &self.phase {
            GauntletPhase::CollectionOverflow { .. } => {
                let indices = self.overflow_removal_indices();
                proof {
                    assert forall|k: int| 0 <= k < indices@.len() implies (#[trigger] indices@[k]) < self.collection@.len() by {
                        crate::gauntlet::lemma_collect_indices_below(self.collection@.len() as int,
                            |i: int| self.spec_removable(i), k);
                    }
                }
                indexed_observations(&self.collection, &indices, content)
            },
            GauntletPhase::DeckRebuild { partial_deck, .. } => {
                let choices = self.rebuild_card_choices(partial_deck);
                let r = id_observations(&choices, content);
                proof {
                    assert forall|k: int| 0 <= k < r@.len() implies choices@[k]@ == self.spec_rebuild_choices(partial_deck@)[k] by {
                        assert(card_ids_view(choices@)[k] == choices@[k]@);
                    }
                }
                r
            },
            _ => Vec::new(),
        };
        let (rebuild_slot_index, rebuild_partial_deck_card_ids, rebuild_remaining_card_ids) = match &self.phase {
            GauntletPhase::DeckRebuild { slot_idx, partial_deck } => {
                let remaining = remaining_rebuild_ids(&self.collection, partial_deck);
                (*slot_idx, ids_of(partial_deck), remaining)
            },
            _ => (0, Vec::new(), Vec::new()),
        };
        Observation {
            in_combat,
            in_reward,
            game_over,
            phase_type,
            player_hp,
            player_max_hp,
            player_block,
            player_energy,
            player_max_energy,
            player_statuses,
            player_level: self.level,
            hand,
            enemies,
            draw_pile_size,
            discard_pile_size,
            turn,
            block_floor,
            retain_block_cap,
            pending_discards,
            draw_pile_card_ids,
            hand_card_ids,
            discard_pile_card_ids,
            exhaust_pile_card_ids,
            fights_won: self.fights_won,
            play_deck_size: self.play_deck.len(),
            play_deck_card_ids: ids_of(&self.play_deck),
            collection_size: self.collection.len(),
            collection_card_ids: ids_of(&self.collection),
            bonus_draw: self.bonus_draw,
            bonus_energy: self.bonus_energy,
            innate_card_ids: copy_card_ids(&self.innate_overrides),
            reward_cards,
            acquired_card,
            choice_cards,
            rebuild_slot_index,
            rebuild_partial_deck_card_ids,
            rebuild_remaining_card_ids,
            player_took_damage_last_turn,
            cards_played_this_turn,
            play_deck_cards,
            subclass: self.subclass_id.clone(),
            race: self.race.clone(),
            background: self.background.clone(),
        }
    }
}

/// The summaries of the reward offer, all playable.
fn reward_observations(ids: &Vec<CardId>, content: &ContentTables) -> (r: Vec<CardObs>)
    requires
        content_observable(*content),
    ensures
        r@.len() == ids@.len(),
        forall|i: int| 0 <= i < r@.len() ==> card_obs_matches(#[trigger] r@[i], ids@[i]@, content.spec_card(ids@[i]@), true),
{
    let mut r: Vec<CardObs> = Vec::new();
    let mut i: usize = 0;
    while i < ids.len()
        invariant
            i <= ids@.len(),
            r@.len() == i,
            content_observable(*content),
            forall|k: int| 0 <= k < r@.len() ==> card_obs_matches(#[trigger] r@[k], ids@[k]@, content.spec_card(ids@[k]@), true),
        decreases ids@.len() - i,
    {
        r.push(card_obs_of(&ids[i], content, true));
        i = i + 1;
    }
    r
}

} // verus!
