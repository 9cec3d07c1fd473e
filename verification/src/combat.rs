//! Combat state machine — the core of the engine.
//!
//! The engine is driven by **Actions** (player/agent decisions) and produces
//! **Events** (observable consequences): `combat.apply(action, &content)`
//! mutates the state in place and returns the events. Between two actions
//! there are no decisions; everything is deterministic given the RNG seed.
//!
//! Enemy definitions in `content` are used as they stand for this combat;
//! callers that scale enemies for an act pass the scaled definitions.
//!
//! Every number the engine stores is kept within `±LIMIT`; arithmetic that
//! would leave that range stops at its end.

use vstd::prelude::*;
use vstd::multiset::Multiset;

use crate::card::{CardDef, CardId, CardInstance, CardType, Effect, Target};
use crate::class::{CardTag, Class};
use crate::content_tables::{ContentTables, copy_enemy_defs, find_enemy_def, spec_find_enemy};
use crate::enemy::{EnemyDef, EnemyState, IntentType};
use crate::player::PlayerState;
use crate::rng::GameRng;
use crate::status::{StatusKind, StatusMap, StatusType, spec_kind};

verus! {

broadcast use vstd::seq_lib::group_to_multiset_ensures;

/// Maximum number of cards the player can hold in hand.
pub const MAX_HAND_SIZE: usize = 12;

/// If a fight exceeds this many turns, it counts as a defeat.
pub const MAX_TURNS: u32 = 200;

/// Magnitude bound of every number the combat engine stores (2^28).
///
/// With every stored value within this bound, a sum of two of them, the
/// damages that the status rules multiply and the other intermediate
/// results all fit an `i32`, so no step of the engine can overflow; a state
/// held only within the full `i32` range is not closed under a single
/// addition of block or stacks. Hit points, block and stack counts of the
/// shipped content stay far below the bound.
pub const LIMIT: i32 = 268435456;

pub open spec fn in_limit(x: int) -> bool {
    -LIMIT <= x <= LIMIT
}

/// `x` held within `±LIMIT`.
pub open spec fn clamp(x: int) -> int {
    if x < -LIMIT {
        -LIMIT as int
    } else if x > LIMIT {
        LIMIT as int
    } else {
        x
    }
}

/// A status count after adding stacks: an Absolute status becomes 1 for
/// positive stacks and 0 otherwise; any other adds, held within the limit.
pub open spec fn status_after_add(s: StatusType, cur: int, stacks: int) -> int {
    if spec_kind(s) == StatusKind::Absolute {
        if stacks > 0 { 1 } else { 0 }
    } else {
        clamp(cur + stacks)
    }
}

/// `after` is `before` with `stacks` of `s` added and nothing else changed.
pub open spec fn enemy_status_added(before: EnemyState, after: EnemyState, s: StatusType, stacks: int) -> bool {
    &&& after == (EnemyState { status_effects: after.status_effects, ..before })
    &&& after.status_effects.count(s) == status_after_add(s, before.status_effects.count(s), stacks)
    &&& forall|t: StatusType| t != s ==> #[trigger] after.status_effects.count(t) == before.status_effects.count(t)
}

/// The player's count of `s` after stacks were added: Artifice is held at 20.
pub open spec fn player_count_after_apply(s: StatusType, added: int) -> int {
    if s == StatusType::Artifice && added > 20 { 20 } else { added }
}

/// Whether a card is a concentration card.
pub open spec fn is_concentration_card(content: &ContentTables, c: CardInstance) -> bool {
    match content.spec_card(c.def_id@) {
        Some(d) => d.concentration,
        None => false,
    }
}

/// The cards of `s` that are not concentration cards, in order.
pub open spec fn non_concentration_cards(content: &ContentTables, s: Seq<CardInstance>) -> Seq<CardInstance>
    decreases s.len(),
{
    if s.len() == 0 {
        Seq::empty()
    } else if is_concentration_card(content, s[0]) {
        non_concentration_cards(content, s.drop_first())
    } else {
        seq![s[0]] + non_concentration_cards(content, s.drop_first())
    }
}

/// The concentration cards of `s`, last first.
pub open spec fn concentration_cards_last_first(content: &ContentTables, s: Seq<CardInstance>) -> Seq<CardInstance>
    decreases s.len(),
{
    if s.len() == 0 {
        Seq::empty()
    } else if is_concentration_card(content, s[0]) {
        concentration_cards_last_first(content, s.drop_first()).push(s[0])
    } else {
        concentration_cards_last_first(content, s.drop_first())
    }
}

/// The last concentration card of `s`, if any.
pub open spec fn last_concentration_card(content: &ContentTables, s: Seq<CardInstance>) -> Option<CardInstance>
    decreases s.len(),
{
    if s.len() == 0 {
        None
    } else if is_concentration_card(content, s.last()) {
        Some(s.last())
    } else {
        last_concentration_card(content, s.drop_last())
    }
}

/// The cards of `s`, last first, that go to the discard pile when the hand
/// is emptied and the last concentration card is kept (`kept`: whether one
/// already was).
pub open spec fn hand_discards(content: &ContentTables, s: Seq<CardInstance>, kept: bool) -> Seq<CardInstance>
    decreases s.len(),
{
    if s.len() == 0 {
        Seq::empty()
    } else if is_concentration_card(content, s.last()) && !kept {
        hand_discards(content, s.drop_last(), true)
    } else {
        seq![s.last()] + hand_discards(content, s.drop_last(), kept)
    }
}

/// The block a block effect grants before the Defensive Stance bonus, and
/// whether that bonus applies; `None` for an effect that grants none here.
pub open spec fn block_effect_gain(effect: Effect, p: PlayerState, took_damage: bool) -> Option<(int, bool)> {
    let ki = p.status_effects.count(StatusType::Ki);
    let smite = p.status_effects.count(StatusType::Smite);
    match effect {
        Effect::GainBlock { amount } => Some((if amount > 0 { amount as int } else { 0 }, true)),
        Effect::GainBlockIfDamagedLastTurn { amount } => if took_damage {
            Some((amount as int, false))
        } else {
            None
        },
        Effect::BlockEqualMissingHp { max } => {
            let missing: int = if p.max_hp - p.hp < 0 { 0 } else { p.max_hp - p.hp };
            Some((if missing < max { missing } else { max as int }, false))
        },
        Effect::GainBlockPerStatusStack { status, multiplier } => Some(
            (clamp(p.status_effects.count(status) * multiplier), false),
        ),
        Effect::GainBlockConditional { amount, bonus_amount } => Some(
            (if p.block > 0 { bonus_amount as int } else { amount as int }, false),
        ),
        Effect::GainBlockSpendKi { base, ki_cost, bonus } => Some(
            (if ki >= ki_cost { bonus as int } else { base as int }, true),
        ),
        Effect::GainBlockPerKiStack { multiplier } => {
            let g = clamp(ki * multiplier);
            Some((if g < 0 { 0 } else { g }, true))
        },
        Effect::GainBlockSpendSmite { base, smite_cost, bonus } => Some(
            (if smite >= smite_cost { bonus as int } else { base as int }, false),
        ),
        Effect::GainBlockWithFormBonus { base, status, bonus } => Some(
            (if p.status_effects.present(status) { base + bonus } else { base as int }, true),
        ),
        _ => None,
    }
}

/// The status a block effect spends and the (negative) stacks it adds.
pub open spec fn block_effect_spend(effect: Effect, p: PlayerState) -> Option<(StatusType, int)> {
    match effect {
        Effect::GainBlockSpendKi { ki_cost, .. } => if p.status_effects.count(StatusType::Ki) >= ki_cost {
            Some((StatusType::Ki, clamp(-ki_cost)))
        } else {
            None
        },
        Effect::GainBlockSpendSmite { smite_cost, .. } => if p.status_effects.count(StatusType::Smite) >= smite_cost {
            Some((StatusType::Smite, clamp(-smite_cost)))
        } else {
            None
        },
        _ => None,
    }
}

/// `after` is `before` with its stacks of `s` doubled where it is alive and
/// has some, else `before` unchanged.
pub open spec fn enemy_status_doubled(before: EnemyState, after: EnemyState, s: StatusType) -> bool {
    if before.hp > 0 && before.status_effects.count(s) > 0 {
        enemy_status_added(before, after, s, before.status_effects.count(s))
    } else {
        after == before
    }
}

/// The three stances, left when a stance is entered.
pub open spec fn stance_statuses() -> Seq<StatusType> {
    seq![StatusType::StanceAggressive, StatusType::StanceDefensive, StatusType::StanceFlowing]
}

/// The three Wild Shape forms, left when a form is entered.
pub open spec fn wild_shape_statuses() -> Seq<StatusType> {
    seq![StatusType::WildShapeBear, StatusType::WildShapeEagle, StatusType::WildShapeWolf]
}

/// A player status count after the listed statuses are left and one stack
/// of `entered` is added.
pub open spec fn count_after_entering(list: Seq<StatusType>, entered: StatusType, t: StatusType, c: int) -> int {
    let cleared = count_after_clearing(list, t, c);
    if t == entered { status_after_add(t, cleared, 1) } else { cleared }
}

/// Whether a status map holds a debuff.
pub open spec fn holds_debuff(m: StatusMap) -> bool {
    exists|st: StatusType| !crate::status::spec_is_buff(st) && #[trigger] m.count(st) != 0
}

/// An enemy's HP after a hit of `amount` from the player, single-target or
/// not.
pub open spec fn enemy_hp_after_hit(s: CombatState, amount: int, idx: int, single: bool) -> int {
    clamp(
        s.enemies@[idx].hp - crate::player::spec_after_block(
            spec_calculate_damage(
                amount,
                s.player.status_effects,
                s.enemies@[idx].status_effects.present(StatusType::Threatened),
                s.enemies@[idx].status_effects.count(StatusType::Marked),
                single,
            ),
            s.enemies@[idx].block as int,
        ),
    )
}

/// Whether an event records a hit on `target` of `base` damage, `modified`
/// after the statuses, of which `hp_lost` went through block.
pub open spec fn is_hit_event(e: GameEvent, target: EventTarget, base: int, modified: int, hp_lost: int) -> bool {
    match e {
        GameEvent::DamageDealt { target: t, base: b, modified: m, blocked: bl, hp_lost: h } => t == target && b == base
            && m == modified && bl == modified - hp_lost && h == hp_lost,
        _ => false,
    }
}

/// Whether the event log holds the event.
pub open spec fn has_event(log: Seq<GameEvent>, e: GameEvent) -> bool {
    exists|k: int| 0 <= k < log.len() && #[trigger] log[k] == e
}

/// Whether the event log holds a hit as `is_hit_event` describes it.
pub open spec fn has_hit_event(log: Seq<GameEvent>, target: EventTarget, base: int, modified: int, hp_lost: int) -> bool {
    exists|k: int| 0 <= k < log.len() && is_hit_event(#[trigger] log[k], target, base, modified, hp_lost)
}

/// The events of a hit of `amount` from the player on enemy `idx`: the hit,
/// with its damage after the statuses and the HP it took, and the enemy's
/// death where the hit brought it to 0 HP.
pub open spec fn enemy_hit_logged(
    before: CombatState,
    after: CombatState,
    amount: int,
    idx: int,
    single: bool,
    log: Seq<GameEvent>,
) -> bool {
    let e = before.enemies@[idx];
    let m = spec_calculate_damage(
        amount,
        before.player.status_effects,
        e.status_effects.present(StatusType::Threatened),
        e.status_effects.count(StatusType::Marked),
        single,
    );
    &&& has_hit_event(log, EventTarget::Enemy(idx as usize), amount, m, crate::player::spec_after_block(m, e.block as int))
    &&& after.enemies@[idx].hp <= 0 ==> has_event(log, GameEvent::EnemyDied { enemy_index: idx as usize })
}

/// Whether an event records `stacks` of `status` applied to `target`,
/// leaving `total`.
pub open spec fn is_status_event(e: GameEvent, target: EventTarget, status: StatusType, stacks: int, total: int) -> bool {
    match e {
        GameEvent::StatusApplied { target: t, status: s, stacks: k, new_total: n } => t == target && s == status
            && k == stacks && n == total,
        _ => false,
    }
}

/// Whether the event log holds a status event as `is_status_event` describes it.
pub open spec fn has_status_event(log: Seq<GameEvent>, target: EventTarget, status: StatusType, stacks: int, total: int) -> bool {
    exists|k: int| 0 <= k < log.len() && is_status_event(#[trigger] log[k], target, status, stacks, total)
}

/// Whether the event log holds damage to `target` of `base` that took
/// `hp_lost` HP.
pub open spec fn has_damage_event(log: Seq<GameEvent>, target: EventTarget, base: int, hp_lost: int) -> bool {
    exists|k: int| 0 <= k < log.len() && (#[trigger] log[k] matches GameEvent::DamageDealt { target: t, base: b, hp_lost: h, .. }
        && t == target && b == base && h == hp_lost)
}

/// Whether the event log holds Bleeding damage `damage` dealt to `target`.
pub open spec fn has_dot_event(log: Seq<GameEvent>, target: EventTarget, damage: int) -> bool {
    exists|k: int| 0 <= k < log.len() && (#[trigger] log[k] matches GameEvent::DotDamage { target: t, source, damage: d }
        && t == target && source == StatusType::Bleeding && d == damage)
}

/// The events of the end-of-turn ticks: the Mending heal and the player's
/// Bleeding damage.
pub open spec fn end_turn_ticks_logged(before: CombatState, log: Seq<GameEvent>) -> bool {
    let st = before.player.status_effects;
    &&& st.count(StatusType::Mending) > 0 ==> exists|k: int| 0 <= k < log.len() && (#[trigger] log[k] matches GameEvent::Healed {
        target,
        amount,
        ..
    } && target == EventTarget::Player && amount == st.count(StatusType::Mending))
    &&& st.count(StatusType::Bleeding) > 0 ==> has_dot_event(log, EventTarget::Player, st.count(StatusType::Bleeding))
}

/// The end-of-turn tick events stay logged as the log grows.
pub proof fn lemma_ticks_logged_kept(before: CombatState, l1: Seq<GameEvent>, l2: Seq<GameEvent>)
    requires
        end_turn_ticks_logged(before, l1),
        events_extended(l1, l2),
    ensures
        end_turn_ticks_logged(before, l2),
{
    lemma_log_kept(l1, l2);
    let st = before.player.status_effects;
    if st.count(StatusType::Mending) > 0 {
        let k = choose|k: int| 0 <= k < l1.len() && (#[trigger] l1[k] matches GameEvent::Healed { target, amount, .. } && target
            == EventTarget::Player && amount == st.count(StatusType::Mending));
        assert(l2[k] == l1[k]);
    }
}

/// An event log that extends another keeps every event of it.
pub proof fn lemma_log_kept(l1: Seq<GameEvent>, l2: Seq<GameEvent>)
    requires
        events_extended(l1, l2),
    ensures
        forall|e: GameEvent| #[trigger] has_event(l1, e) ==> has_event(l2, e),
        forall|t: EventTarget, b: int, m: int, h: int| #[trigger] has_hit_event(l1, t, b, m, h) ==> has_hit_event(
            l2,
            t,
            b,
            m,
            h,
        ),
        forall|t: EventTarget, st: StatusType, k: int, n: int| #[trigger] has_status_event(l1, t, st, k, n)
            ==> has_status_event(l2, t, st, k, n),
        forall|t: EventTarget, b: int, h: int| #[trigger] has_damage_event(l1, t, b, h) ==> has_damage_event(l2, t, b, h),
        forall|t: EventTarget, d: int| #[trigger] has_dot_event(l1, t, d) ==> has_dot_event(l2, t, d),
{
    assert forall|e: GameEvent| #[trigger] has_event(l1, e) implies has_event(l2, e) by {
        let k = choose|k: int| 0 <= k < l1.len() && #[trigger] l1[k] == e;
        assert(l2[k] == l1[k]);
    }
    assert forall|t: EventTarget, b: int, m: int, h: int| #[trigger] has_hit_event(l1, t, b, m, h) implies has_hit_event(
        l2,
        t,
        b,
        m,
        h,
    ) by {
        let k = choose|k: int| 0 <= k < l1.len() && is_hit_event(#[trigger] l1[k], t, b, m, h);
        assert(l2[k] == l1[k]);
    }
    assert forall|t: EventTarget, st: StatusType, k: int, n: int| #[trigger] has_status_event(l1, t, st, k, n)
        implies has_status_event(l2, t, st, k, n) by {
        let w = choose|w: int| 0 <= w < l1.len() && is_status_event(#[trigger] l1[w], t, st, k, n);
        assert(l2[w] == l1[w]);
    }
    assert forall|t: EventTarget, b: int, h: int| #[trigger] has_damage_event(l1, t, b, h) implies has_damage_event(
        l2,
        t,
        b,
        h,
    ) by {
        let w = choose|w: int| 0 <= w < l1.len() && (#[trigger] l1[w] matches GameEvent::DamageDealt {
            target: tt,
            base: bb,
            hp_lost: hh,
            ..
        } && tt == t && bb == b && hh == h);
        assert(l2[w] == l1[w]);
    }
    assert forall|t: EventTarget, d: int| #[trigger] has_dot_event(l1, t, d) implies has_dot_event(l2, t, d) by {
        let w = choose|w: int| 0 <= w < l1.len() && (#[trigger] l1[w] matches GameEvent::DotDamage { target: tt, source, damage }
            && tt == t && source == StatusType::Bleeding && damage == d);
        assert(l2[w] == l1[w]);
    }
}

/// An enemy's block after a hit of `amount` from the player.
pub open spec fn enemy_block_after_hit(s: CombatState, amount: int, idx: int, single: bool) -> int {
    crate::player::spec_block_after_hit(
        spec_calculate_damage(
            amount,
            s.player.status_effects,
            s.enemies@[idx].status_effects.present(StatusType::Threatened),
            s.enemies@[idx].status_effects.count(StatusType::Marked),
            single,
        ),
        s.enemies@[idx].block as int,
    )
}

/// An enemy's HP after a single-target hit of `amount` from the player.
pub open spec fn hit_hp_after(s: CombatState, amount: int, idx: int) -> int {
    enemy_hp_after_hit(s, amount, idx, true)
}

/// `after` holds enemy `idx` of `before` hit by the player (its HP as
/// `enemy_hp_after_hit`, its statuses kept) and every other enemy unchanged.
pub open spec fn enemy_alone_hit(before: CombatState, after: CombatState, amount: int, idx: int) -> bool {
    &&& after.enemies@[idx].hp == hit_hp_after(before, amount, idx)
    &&& after.enemies@[idx].block == enemy_block_after_hit(before, amount, idx, true)
    &&& after.enemies@[idx].status_effects == before.enemies@[idx].status_effects
    &&& forall|j: int| 0 <= j < before.enemies@.len() && j != idx ==> #[trigger] after.enemies@[j] == before.enemies@[j]
}

/// What an attack of `amount` from the player at `target` does to HP: a
/// single target, living and in range, is hit alone; every living enemy is
/// hit by an all-enemy attack (not single-target); one living enemy is hit
/// by a random-enemy attack; the player is hit by an attack at the player.
/// A hit keeps the statuses of who is hit; where nobody can be hit no enemy
/// changes.
pub open spec fn attack_landed(
    before: CombatState,
    after: CombatState,
    target: Target,
    amount: int,
    target_index: Option<usize>,
    log: Seq<GameEvent>,
) -> bool {
    match target {
        Target::SingleEnemy => match target_index {
            Some(idx) => if idx < before.enemies@.len() && before.enemies@[idx as int].hp > 0 {
                &&& enemy_alone_hit(before, after, amount, idx as int)
                &&& enemy_hit_logged(before, after, amount, idx as int, true, log)
                &&& !before.player.status_effects.present(StatusType::Momentum) ==> after == (CombatState {
                    enemies: after.enemies,
                    ..before
                })
            } else {
                after == before
            },
            None => after == before,
        },
        Target::AllEnemies => {
            &&& after == (CombatState { enemies: after.enemies, ..before })
            &&& after.enemies@.len() == before.enemies@.len()
            &&& forall|j: int| 0 <= j < before.enemies@.len() ==> if before.enemies@[j].hp > 0 {
                &&& (#[trigger] after.enemies@[j]).hp == enemy_hp_after_hit(before, amount, j, false)
                &&& after.enemies@[j].block == enemy_block_after_hit(before, amount, j, false)
                &&& after.enemies@[j].status_effects == before.enemies@[j].status_effects
                &&& enemy_hit_logged(before, after, amount, j, false, log)
            } else {
                after.enemies@[j] == before.enemies@[j]
            }
        },
        Target::RandomEnemy => if before.all_enemies_dead() {
            after == before
        } else {
            exists|idx: int| 0 <= idx < before.enemies@.len() && (#[trigger] before.enemies@[idx]).hp > 0
                && enemy_alone_hit(before, after, amount, idx) && enemy_hit_logged(before, after, amount, idx, true, log)
        },
        Target::Player => {
            let ps = before.player.status_effects;
            let m = spec_calculate_damage(amount, ps, ps.present(StatusType::Threatened), ps.count(StatusType::Marked), false);
            &&& has_hit_event(log, EventTarget::Player, amount, m, crate::player::spec_after_block(m, before.player.block as int))
            &&& after == (CombatState {
                player: PlayerState { hp: after.player.hp, block: after.player.block, ..before.player },
                ..before
            })
            &&& after.player.hp == clamp(
                before.player.hp - crate::player::spec_after_block(
                    spec_calculate_damage(
                        amount,
                        ps,
                        ps.present(StatusType::Threatened),
                        ps.count(StatusType::Marked),
                        false,
                    ),
                    before.player.block as int,
                ),
            )
        },
    }
}

/// The single enemy an effect aims at, if the index names one in range.
pub open spec fn aimed_enemy(s: CombatState, target: Target, target_index: Option<usize>) -> Option<EnemyState> {
    if target == Target::SingleEnemy {
        match target_index {
            Some(idx) => if idx < s.enemies@.len() { Some(s.enemies@[idx as int]) } else { None },
            None => None,
        }
    } else {
        None
    }
}

/// The target and amount of the attack a damage effect makes in state `s`,
/// or `None` where it makes none.
pub open spec fn damage_effect_deal(effect: Effect, s: CombatState, target_index: Option<usize>) -> Option<(Target, int)> {
    match effect {
        Effect::DealDamage { target, amount } => Some((target, amount as int)),
        Effect::DealDamageIfDamagedLastTurn { target, amount } => if s.player_took_damage_last_turn {
            Some((target, amount as int))
        } else {
            None
        },
        Effect::DealDamageIfTargetDebuffed { target, amount, bonus } => {
            let debuffed = match aimed_enemy(s, target, target_index) {
                Some(e) => holds_debuff(e.status_effects),
                None => false,
            };
            Some((target, if debuffed { clamp(amount + bonus) } else { amount as int }))
        },
        Effect::DealDamageIfEnemyBlocked { target, amount, bonus } => {
            let blocked = match aimed_enemy(s, target, target_index) {
                Some(e) => e.block > 0,
                None => false,
            };
            Some((target, if blocked { clamp(amount + bonus) } else { amount as int }))
        },
        Effect::DealDamageEqualBlock { target } => Some((target, s.player.block as int)),
        Effect::DealDamagePerCardPlayed { target, per_card } => Some((target, clamp(per_card * s.cards_played_this_turn))),
        Effect::DealDamageIfMarked { target, amount } => match aimed_enemy(s, target, target_index) {
            Some(e) => if e.status_effects.count(StatusType::Marked) > 0 { Some((target, amount as int)) } else { None },
            None => None,
        },
        Effect::DealDamagePerMarkedStack { target, per_stack } => match aimed_enemy(s, target, target_index) {
            Some(e) => if e.hp > 0 && e.status_effects.count(StatusType::Marked) > 0 {
                Some((target, clamp(per_stack * e.status_effects.count(StatusType::Marked))))
            } else {
                None
            },
            None => None,
        },
        Effect::DealDamageScaledByMarked { target, base_damage, per_stack } => match aimed_enemy(s, target, target_index) {
            Some(e) => if e.hp > 0 {
                Some((target, clamp(base_damage + per_stack * e.status_effects.count(StatusType::Marked))))
            } else {
                None
            },
            None => None,
        },
        _ => None,
    }
}

/// What resolving a damage effect did to the state: nothing where the
/// effect makes no attack; else the hit of `damage_effect_deal` landed, and
/// an attack scaled by Marked stacks spent them.
pub open spec fn damage_effect_done(
    effect: Effect,
    before: CombatState,
    after: CombatState,
    target_index: Option<usize>,
    log: Seq<GameEvent>,
) -> bool {
    match damage_effect_deal(effect, before, target_index) {
        None => after == before,
        Some(ta) => match effect {
            Effect::DealDamagePerMarkedStack { .. } => {
                let idx = target_index.unwrap() as int;
                let e0 = before.enemies@[idx];
                let e1 = after.enemies@[idx];
                &&& e1.hp == hit_hp_after(before, ta.1, idx)
                &&& enemy_hit_logged(before, after, ta.1, idx, true, log)
                &&& e1.status_effects.count(StatusType::Marked) == status_after_add(
                    StatusType::Marked,
                    e0.status_effects.count(StatusType::Marked),
                    -e0.status_effects.count(StatusType::Marked),
                )
                &&& forall|t: StatusType| t != StatusType::Marked ==> #[trigger] e1.status_effects.count(t)
                    == e0.status_effects.count(t)
                &&& forall|j: int| 0 <= j < before.enemies@.len() && j != idx ==> #[trigger] after.enemies@[j]
                    == before.enemies@[j]
            },
            _ => attack_landed(before, after, ta.0, ta.1, target_index, log),
        },
    }
}

/// Whether an effect is one of the sweeps that, aimed at all enemies, makes
/// an all-enemy attack for each living enemy.
pub open spec fn damage_effect_is_sweep(effect: Effect) -> bool {
    match effect {
        Effect::DealDamagePerDebuffOnTarget { target, .. } => target == Target::AllEnemies,
        Effect::DealDamageScaledByMissingHpEnemy { target, .. } => target == Target::AllEnemies,
        _ => false,
    }
}

/// The target and amount of the attack one of the further damage effects
/// makes in state `s`, or `None` where it makes none.
pub open spec fn damage_more_deal(effect: Effect, s: CombatState, target_index: Option<usize>) -> Option<(Target, int)> {
    let st = s.player.status_effects;
    match effect {
        Effect::DealDamagePerDebuffOnTarget { target, base, per_debuff } => match aimed_enemy(s, target, target_index) {
            Some(e) => if e.hp > 0 {
                Some((target, clamp(base + per_debuff * e.status_effects.spec_debuff_count())))
            } else {
                None
            },
            None => None,
        },
        Effect::DealDamageScaledByMissingHp { target, base, per_5_missing, cap } => {
            let missing: int = if s.player.max_hp - s.player.hp < 0 { 0 } else { s.player.max_hp - s.player.hp };
            let raw = (missing / 5) * per_5_missing;
            Some((target, clamp(base + if raw < cap { raw } else { cap as int })))
        },
        Effect::DealDamageScaledByMissingHpEnemy { target, base, per_10_percent_missing } => match aimed_enemy(
            s,
            target,
            target_index,
        ) {
            Some(e) => if e.hp > 0 {
                Some((target, spec_execute_amount(e, base as int, per_10_percent_missing as int)))
            } else {
                None
            },
            None => None,
        },
        Effect::DealDamagePerPlayerStatus { target, status, per_stack } => if per_stack * st.count(status) > 0 {
            Some((target, clamp(per_stack * st.count(status))))
        } else {
            None
        },
        Effect::DealDamageSpendKi { target, base, ki_cost, bonus } => Some(
            (target, if st.count(StatusType::Ki) >= ki_cost { bonus as int } else { base as int }),
        ),
        Effect::DealDamageSpendArtifice { target, base, artifice_cost, bonus } => Some(
            (target, if st.count(StatusType::Artifice) >= artifice_cost { bonus as int } else { base as int }),
        ),
        Effect::DealDamageSpendSmite { target, base, smite_cost, bonus } => Some(
            (target, if st.count(StatusType::Smite) >= smite_cost { bonus as int } else { base as int }),
        ),
        Effect::DealDamageIfInWildShape { target, base, bonus } => {
            let in_form = st.present(StatusType::WildShapeBear) || st.present(StatusType::WildShapeEagle)
                || st.present(StatusType::WildShapeWolf);
            Some((target, if in_form { clamp(base + bonus) } else { base as int }))
        },
        Effect::DealDamageWithFormBonus { target, base, status, bonus } => Some(
            (target, if st.present(status) { clamp(base + bonus) } else { base as int }),
        ),
        Effect::DealDamageIfPlayerHasStatus { target, status, amount } => if st.present(status) {
            Some((target, amount as int))
        } else {
            None
        },
        _ => None,
    }
}

/// What resolving one of the further damage effects did: a sweep only
/// wears living enemies down; else nothing where no attack is made, or the hit of
/// `damage_more_deal` landed.
pub open spec fn damage_more_done(
    effect: Effect,
    before: CombatState,
    after: CombatState,
    target_index: Option<usize>,
    log: Seq<GameEvent>,
) -> bool {
    if damage_effect_is_sweep(effect) {
        enemies_only_worn(before, after)
    } else {
        match damage_more_deal(effect, before, target_index) {
            None => after == before,
            Some(ta) => match damage_effect_spend(effect, before.player) {
                Some(sd) => {
                    let mid = CombatState {
                        player: PlayerState { status_effects: after.player.status_effects, ..before.player },
                        ..before
                    };
                    &&& player_status_added(before, mid, sd.0, sd.1)
                    &&& attack_landed(mid, after, ta.0, ta.1, target_index, log)
                },
                None => attack_landed(before, after, ta.0, ta.1, target_index, log),
            },
        }
    }
}

/// An enemy's HP after its start-of-action tick: Bleeding deals its stacks.
pub open spec fn enemy_hp_after_tick(e: EnemyState) -> int {
    let dot = e.status_effects.count(StatusType::Bleeding);
    if dot > 0 { clamp(e.hp - dot) } else { e.hp as int }
}

/// Whether an enemy gets to carry out its intent: it is alive, survives its
/// tick, is not Frightened and has an intent.
pub open spec fn enemy_carries_out_intent(e: EnemyState) -> bool {
    &&& e.hp > 0
    &&& enemy_hp_after_tick(e) > 0
    &&& !e.status_effects.present(StatusType::Frightened)
    &&& e.current_intent is Some
}

/// The HP the player loses to an enemy attack, where no Sanctified Shield
/// blocks it.
pub open spec fn enemy_attack_loss(base: int, attacker: StatusMap, p: PlayerState) -> int {
    crate::player::spec_after_block(spec_enemy_hit(base, attacker, p.status_effects), p.block as int)
}

/// Whether an enemy attack of `base` made the player lose HP.
pub open spec fn enemy_attack_took(base: int, attacker: StatusMap, p: PlayerState) -> bool {
    !p.status_effects.present(StatusType::SanctifiedShield) && enemy_attack_loss(base, attacker, p) > 0
}

/// The player's block after an enemy hit of `hit` that took `lost` HP: what
/// the hit left, 3 more where Warding Totem answers a loss of HP.
pub open spec fn player_block_after_enemy_hit(hit: int, lost: int, p: PlayerState) -> int {
    let left = crate::player::spec_block_after_hit(hit, p.block as int);
    if lost > 0 && p.status_effects.present(StatusType::WardingTotem) {
        clamp(left + 3)
    } else {
        left
    }
}

/// An enemy moved on to the next intent of its definition's pattern; one
/// whose definition is missing or has no intents keeps its intent.
pub open spec fn intent_advanced(defs: Seq<EnemyDef>, e: EnemyState, a: EnemyState) -> bool {
    match spec_find_enemy(defs, e.def_id@) {
        Some(def) if def.intent_pattern@.len() > 0 => {
            &&& a.intent_index == (e.intent_index + 1) % (def.intent_pattern@.len() as int)
            &&& a.current_intent == Some(def.intent_pattern@[a.intent_index as int])
        },
        _ => a.intent_index == e.intent_index && a.current_intent == e.current_intent,
    }
}

/// A living enemy after its turn: same definition and maximum HP; it moved
/// on to its next intent where it survived its tick and had an intent
/// (carried out or skipped while Frightened), else kept its intent; every
/// status ticked, except the one its own Buff raised.
pub open spec fn enemy_moved_on(defs: Seq<EnemyDef>, e: EnemyState, a: EnemyState) -> bool {
    let buffed = if enemy_carries_out_intent(e) {
        match e.current_intent.unwrap() {
            IntentType::Buff(status, _) => Some(status),
            _ => None,
        }
    } else {
        None
    };
    &&& a.def_id == e.def_id
    &&& a.max_hp == e.max_hp
    &&& if enemy_hp_after_tick(e) > 0 && e.current_intent is Some {
        intent_advanced(defs, e, a)
    } else {
        a.intent_index == e.intent_index && a.current_intent == e.current_intent
    }
    &&& forall|t: StatusType| buffed != Some(t) ==> #[trigger] a.status_effects.count(t) == status_after_tick(
        t,
        e.status_effects.count(t),
    )
}

/// The attacker and the player after an enemy attack of `base`: the hit on
/// the player (or the Sanctified Shield stack it spends), the player's
/// Barbed reflected on the attacker, and no other enemy touched.
pub open spec fn enemy_attack_done(before: CombatState, after: CombatState, i: int, base: int, took: bool) -> bool {
    let e = before.enemies@[i];
    let ps = before.player.status_effects;
    let hit = spec_enemy_hit(base, e.status_effects, ps);
    let lost = enemy_attack_loss(base, e.status_effects, before.player);
    let barbed = ps.count(StatusType::Barbed);
    &&& took == enemy_attack_took(base, e.status_effects, before.player)
    &&& after.enemies@.len() == before.enemies@.len()
    &&& forall|j: int| 0 <= j < before.enemies@.len() && j != i ==> #[trigger] after.enemies@[j] == before.enemies@[j]
    &&& after.enemies@[i].hp == (if !ps.present(StatusType::SanctifiedShield) && barbed > 0 {
        clamp(enemy_hp_after_tick(e) - barbed)
    } else {
        enemy_hp_after_tick(e)
    })
    &&& ps.present(StatusType::SanctifiedShield) ==> {
        &&& after.player == (PlayerState { status_effects: after.player.status_effects, ..before.player })
        &&& after.player.status_effects.count(StatusType::SanctifiedShield) == status_after_add(
            StatusType::SanctifiedShield,
            ps.count(StatusType::SanctifiedShield),
            -1,
        )
        &&& forall|t: StatusType| t != StatusType::SanctifiedShield ==> #[trigger] after.player.status_effects.count(t)
            == ps.count(t)
    }
    &&& !ps.present(StatusType::SanctifiedShield) ==> {
        &&& after.player == (PlayerState {
            hp: after.player.hp,
            block: after.player.block,
            status_effects: after.player.status_effects,
            ..before.player
        })
        &&& after.player.hp == clamp(before.player.hp - lost)
        &&& after.player.block == player_block_after_enemy_hit(hit, lost, before.player)
        &&& after.player.status_effects.count(StatusType::Rage) == (if lost > 0 && ps.present(StatusType::PainIsPower) {
            status_after_add(StatusType::Rage, ps.count(StatusType::Rage), lost)
        } else {
            ps.count(StatusType::Rage)
        })
        &&& forall|t: StatusType| t != StatusType::Rage ==> #[trigger] after.player.status_effects.count(t) == ps.count(t)
    }
}

/// What an enemy's action did, by its intent.
pub open spec fn enemy_act_done(before: CombatState, after: CombatState, i: int, took: bool) -> bool {
    let e = before.enemies@[i];
    if e.hp <= 0 {
        !took && after == before
    } else {
        &&& after.enemies@.len() == before.enemies@.len()
        &&& enemy_moved_on(before.enemy_defs@, e, after.enemies@[i])
        &&& if !enemy_carries_out_intent(e) {
            &&& !took
            &&& after.player == before.player
            &&& after.enemies@[i].hp == enemy_hp_after_tick(e)
            &&& after.enemies@[i].block == 0
            &&& forall|j: int| 0 <= j < before.enemies@.len() && j != i ==> #[trigger] after.enemies@[j] == before.enemies@[j]
        } else {
            match e.current_intent.unwrap() {
                IntentType::Attack(base) => {
                    &&& enemy_attack_done(before, after, i, base as int, took)
                    &&& after.enemies@[i].block == 0
                },
                IntentType::Defend(amount) => {
                    &&& !took
                    &&& after.player == before.player
                    &&& after.enemies@[i].hp == enemy_hp_after_tick(e)
                    &&& after.enemies@[i].block == clamp(amount as int)
                    &&& forall|j: int| 0 <= j < before.enemies@.len() && j != i ==> #[trigger] after.enemies@[j] == before.enemies@[j]
                },
                IntentType::Buff(status, stacks) => {
                    &&& !took
                    &&& after.player == before.player
                    &&& after.enemies@[i].hp == enemy_hp_after_tick(e)
                    &&& after.enemies@[i].block == 0
                    &&& after.enemies@[i].status_effects.count(status) == status_after_add(
                        status,
                        status_after_tick(status, e.status_effects.count(status)),
                        stacks as int,
                    )
                    &&& forall|j: int| 0 <= j < before.enemies@.len() && j != i ==> #[trigger] after.enemies@[j] == before.enemies@[j]
                },
                IntentType::Debuff(status, stacks) => {
                    &&& !took
                    &&& after.player == (PlayerState { status_effects: after.player.status_effects, ..before.player })
                    &&& after.player.status_effects.count(status) == status_after_add(
                        status,
                        before.player.status_effects.count(status),
                        stacks as int,
                    )
                    &&& forall|t: StatusType| t != status ==> #[trigger] after.player.status_effects.count(t)
                        == before.player.status_effects.count(t)
                    &&& after.enemies@[i].hp == enemy_hp_after_tick(e)
                    &&& after.enemies@[i].block == 0
                    &&& forall|j: int| 0 <= j < before.enemies@.len() && j != i ==> #[trigger] after.enemies@[j] == before.enemies@[j]
                },
                IntentType::AttackDefend(atk, def) => {
                    &&& enemy_attack_done(before, after, i, atk as int, took)
                    &&& after.enemies@[i].block == clamp(def as int)
                },
                IntentType::BuffAllies(status, stacks) => {
                    &&& !took
                    &&& after.player == before.player
                    &&& after.enemies@[i].hp == enemy_hp_after_tick(e)
                    &&& after.enemies@[i].block == 0
                    &&& forall|j: int| 0 <= j < before.enemies@.len() && j != i ==> if before.enemies@[j].hp > 0 {
                        enemy_status_added(before.enemies@[j], #[trigger] after.enemies@[j], status, stacks as int)
                    } else {
                        after.enemies@[j] == before.enemies@[j]
                    }
                },
            }
        }
    }
}

/// `after` differs from `before` at most by hits on living enemies: the
/// player's HP and statuses are kept, a living enemy keeps its statuses and
/// gains no HP, a dead enemy is unchanged.
pub open spec fn enemies_only_worn(before: CombatState, after: CombatState) -> bool {
    &&& after.player.hp == before.player.hp
    &&& after.player.status_effects == before.player.status_effects
    &&& after.enemies@.len() == before.enemies@.len()
    &&& forall|j: int| 0 <= j < before.enemies@.len() ==> if before.enemies@[j].hp > 0 {
        &&& (#[trigger] after.enemies@[j]).hp <= before.enemies@[j].hp
        &&& after.enemies@[j].status_effects == before.enemies@[j].status_effects
    } else {
        after.enemies@[j] == before.enemies@[j]
    }
}

/// The status an attack effect spends for its bonus and the (negative)
/// stacks it adds, where the player has enough.
pub open spec fn damage_effect_spend(effect: Effect, p: PlayerState) -> Option<(StatusType, int)> {
    let st = p.status_effects;
    match effect {
        Effect::DealDamageSpendKi { ki_cost, .. } => if st.count(StatusType::Ki) >= ki_cost {
            Some((StatusType::Ki, clamp(-ki_cost)))
        } else {
            None
        },
        Effect::DealDamageSpendArtifice { artifice_cost, .. } => if st.count(StatusType::Artifice) >= artifice_cost {
            Some((StatusType::Artifice, clamp(-artifice_cost)))
        } else {
            None
        },
        Effect::DealDamageSpendSmite { smite_cost, .. } => if st.count(StatusType::Smite) >= smite_cost {
            Some((StatusType::Smite, clamp(-smite_cost)))
        } else {
            None
        },
        _ => None,
    }
}

/// `after` is `before` with `stacks` of the player's `s` added and nothing
/// else changed.
pub open spec fn player_status_added(before: CombatState, after: CombatState, s: StatusType, stacks: int) -> bool {
    &&& after == (CombatState {
        player: PlayerState { status_effects: after.player.status_effects, ..before.player },
        ..before
    })
    &&& after.player.status_effects.count(s) == status_after_add(s, before.player.status_effects.count(s), stacks)
    &&& forall|t: StatusType| t != s ==> #[trigger] after.player.status_effects.count(t) == before.player.status_effects.count(t)
}

/// What applying `stacks` of `status` at `target` did: the player's or the
/// targeted enemies' counts, everything else of theirs kept.
pub open spec fn status_applied(
    before: CombatState,
    after: CombatState,
    target: Target,
    status: StatusType,
    stacks: int,
    target_index: Option<usize>,
) -> bool {
    &&& (target == Target::Player ==> {
            &&& after.enemies == before.enemies
            &&& after.player == (PlayerState { status_effects: after.player.status_effects, ..before.player })
            &&& after.player.status_effects.count(status) == player_count_after_apply(
                status,
                status_after_add(status, before.player.status_effects.count(status), stacks),
            )
            &&& forall|t: StatusType| t != status ==> #[trigger] after.player.status_effects.count(t)
                == before.player.status_effects.count(t)
        })
    &&& (target != Target::Player ==> after.player == before.player)
    &&& (target == Target::SingleEnemy ==> match target_index {
            Some(idx) => if idx < before.enemies@.len() {
                &&& enemy_status_added(before.enemies@[idx as int], after.enemies@[idx as int], status, stacks)
                &&& forall|j: int| 0 <= j < before.enemies@.len() && j != idx ==> #[trigger] after.enemies@[j] == before.enemies@[j]
            } else {
                after.enemies == before.enemies
            },
            None => after.enemies == before.enemies,
        })
    &&& (target == Target::AllEnemies ==> forall|j: int| 0 <= j < before.enemies@.len() ==> if before.enemies@[j].hp > 0 {
            enemy_status_added(before.enemies@[j], #[trigger] after.enemies@[j], status, stacks)
        } else {
            after.enemies@[j] == before.enemies@[j]
        })
    &&& (target == Target::RandomEnemy ==> if before.all_enemies_dead() {
            after.enemies == before.enemies
        } else {
            exists|idx: int| 0 <= idx < before.enemies@.len() && before.enemies@[idx].hp > 0
                && enemy_status_added(before.enemies@[idx], #[trigger] after.enemies@[idx], status, stacks)
                && forall|j: int| 0 <= j < before.enemies@.len() && j != idx ==> #[trigger] after.enemies@[j] == before.enemies@[j]
        })
}

/// The events of applying `stacks` of `status` at `target`: one status
/// event, with the new count, for the player or for each enemy that got it.
pub open spec fn status_applied_logged(
    before: CombatState,
    after: CombatState,
    target: Target,
    status: StatusType,
    stacks: int,
    target_index: Option<usize>,
    log: Seq<GameEvent>,
) -> bool {
    match target {
        Target::Player => has_status_event(log, EventTarget::Player, status, stacks, after.player.status_effects.count(status)),
        Target::SingleEnemy => match target_index {
            Some(idx) => idx < before.enemies@.len() ==> has_status_event(
                log,
                EventTarget::Enemy(idx),
                status,
                stacks,
                after.enemies@[idx as int].status_effects.count(status),
            ),
            None => true,
        },
        Target::AllEnemies => forall|j: int| 0 <= j < before.enemies@.len() && before.enemies@[j].hp > 0 ==> has_status_event(
            log,
            EventTarget::Enemy(j as usize),
            status,
            stacks,
            (#[trigger] after.enemies@[j]).status_effects.count(status),
        ),
        Target::RandomEnemy => !before.all_enemies_dead() ==> exists|idx: int| 0 <= idx < before.enemies@.len()
            && before.enemies@[idx].hp > 0 && has_status_event(
            log,
            EventTarget::Enemy(idx as usize),
            status,
            stacks,
            (#[trigger] after.enemies@[idx]).status_effects.count(status),
        ),
    }
}

/// The events of doubling `status` at `target`: one status event per
/// doubled count, with the stacks added and the new count.
pub open spec fn status_doubled_logged(
    before: CombatState,
    after: CombatState,
    target: Target,
    status: StatusType,
    target_index: Option<usize>,
    log: Seq<GameEvent>,
) -> bool {
    match target {
        Target::Player => before.player.status_effects.count(status) > 0 ==> has_status_event(
            log,
            EventTarget::Player,
            status,
            before.player.status_effects.count(status),
            after.player.status_effects.count(status),
        ),
        Target::SingleEnemy => match target_index {
            Some(idx) => idx < before.enemies@.len() && before.enemies@[idx as int].hp > 0
                && before.enemies@[idx as int].status_effects.count(status) > 0 ==> has_status_event(
                log,
                EventTarget::Enemy(idx),
                status,
                before.enemies@[idx as int].status_effects.count(status),
                after.enemies@[idx as int].status_effects.count(status),
            ),
            None => true,
        },
        Target::AllEnemies => forall|j: int| 0 <= j < before.enemies@.len() && before.enemies@[j].hp > 0
            && before.enemies@[j].status_effects.count(status) > 0 ==> has_status_event(
            log,
            EventTarget::Enemy(j as usize),
            status,
            before.enemies@[j].status_effects.count(status),
            (#[trigger] after.enemies@[j]).status_effects.count(status),
        ),
        Target::RandomEnemy => true,
    }
}

/// What doubling the stacks of `status` at `target` did.
pub open spec fn status_doubled(
    before: CombatState,
    after: CombatState,
    target: Target,
    status: StatusType,
    target_index: Option<usize>,
) -> bool {
    &&& (target == Target::RandomEnemy ==> after == before)
    &&& (target != Target::Player ==> after.player == before.player)
    &&& (target == Target::Player ==> {
            &&& after.enemies == before.enemies
            &&& after.player == (PlayerState { status_effects: after.player.status_effects, ..before.player })
            &&& after.player.status_effects.count(status) == (if before.player.status_effects.count(status) > 0 {
                status_after_add(
                    status,
                    before.player.status_effects.count(status),
                    before.player.status_effects.count(status),
                )
            } else {
                before.player.status_effects.count(status)
            })
            &&& forall|t: StatusType| t != status ==> #[trigger] after.player.status_effects.count(t)
                == before.player.status_effects.count(t)
        })
    &&& (target == Target::SingleEnemy ==> match target_index {
            Some(idx) => if idx < before.enemies@.len() {
                &&& enemy_status_doubled(before.enemies@[idx as int], after.enemies@[idx as int], status)
                &&& forall|j: int| 0 <= j < before.enemies@.len() && j != idx ==> #[trigger] after.enemies@[j] == before.enemies@[j]
            } else {
                after.enemies == before.enemies
            },
            None => after.enemies == before.enemies,
        })
    &&& (target == Target::AllEnemies ==> forall|j: int| 0 <= j < before.enemies@.len() ==> enemy_status_doubled(
            before.enemies@[j],
            #[trigger] after.enemies@[j],
            status,
        ))
}

/// What resolving a block effect did: nothing where it grants no block;
/// else the player's block and statuses as `block_effect_gain` and
/// `block_effect_spend` give them, everything else kept.
pub open spec fn block_effect_done(effect: Effect, before: CombatState, after: CombatState) -> bool {
    let gain = block_effect_gain(effect, before.player, before.player_took_damage_last_turn);
    if gain is None && block_effect_spend(effect, before.player) is None {
        after == before
    } else {
        &&& after == (CombatState {
            player: PlayerState {
                block: after.player.block,
                status_effects: after.player.status_effects,
                ..before.player
            },
            ..before
        })
        &&& after.player.block == match gain {
            Some(gs) => clamp(before.player.block + block_gain_amount(
                gs.0,
                gs.1 && before.player.status_effects.present(StatusType::StanceDefensive),
            )),
            None => before.player.block as int,
        }
        &&& match block_effect_spend(effect, before.player) {
            Some(sd) => {
                &&& after.player.status_effects.count(sd.0) == status_after_add(
                    sd.0,
                    before.player.status_effects.count(sd.0),
                    sd.1,
                )
                &&& forall|t: StatusType| t != sd.0 ==> #[trigger] after.player.status_effects.count(t)
                    == before.player.status_effects.count(t)
            },
            None => forall|t: StatusType| #[trigger] after.player.status_effects.count(t)
                == before.player.status_effects.count(t),
        }
    }
}

/// What resolving a stance or Wild Shape effect did; any other effect
/// changes nothing.
pub open spec fn form_effect_done(effect: Effect, before: CombatState, after: CombatState, content: &ContentTables) -> bool {
    match effect {
        Effect::EnterStance { stance } => {
            &&& after == (CombatState {
                player: PlayerState { status_effects: after.player.status_effects, ..before.player },
                ..before
            })
            &&& forall|t: StatusType| #[trigger] after.player.status_effects.count(t) == count_after_entering(
                stance_statuses(),
                stance,
                t,
                before.player.status_effects.count(t),
            )
        },
        Effect::EnterWildShape { form } => {
            &&& after.player == (PlayerState { status_effects: after.player.status_effects, ..before.player })
            &&& after.enemies == before.enemies
            &&& after.draw_pile == before.draw_pile
            &&& after.exhaust == before.exhaust
            &&& forall|t: StatusType| #[trigger] after.player.status_effects.count(t) == count_after_entering(
                wild_shape_statuses(),
                form,
                t,
                before.player.status_effects.count(t),
            )
            &&& !after.concentration_active
            &&& if before.concentration_active {
                &&& after.hand@ == non_concentration_cards(content, before.hand@)
                &&& after.discard@ == before.discard@ + concentration_cards_last_first(content, before.hand@)
            } else {
                &&& after.hand == before.hand
                &&& after.discard == before.discard
            }
        },
        _ => after == before,
    }
}

/// An enemy after losing `amount` block (never below 0), all else kept.
pub open spec fn enemy_block_removed(before: EnemyState, after: EnemyState, amount: int) -> bool {
    &&& after == (EnemyState { block: after.block, ..before })
    &&& after.block == (if clamp(before.block - amount) > 0 { clamp(before.block - amount) } else { 0 })
}

/// What resolving one of the remaining effects (statuses, draws, energy,
/// healing, HP loss, enemy block removal, block floor and retention) did;
/// any other effect changes nothing.
pub open spec fn misc_effect_done(effect: Effect, before: CombatState, after: CombatState, target_index: Option<usize>) -> bool {
    let p = before.player;
    match effect {
        Effect::ApplyStatus { target, status, stacks } => status_applied(
            before,
            after,
            target,
            status,
            stacks as int,
            target_index,
        ),
        Effect::ApplyStatusPerCardPlayed { target, status, per_card } => status_applied(
            before,
            after,
            target,
            status,
            clamp(per_card * before.cards_played_this_turn),
            target_index,
        ),
        Effect::DoubleStatus { target, status } => status_doubled(before, after, target, status, target_index),
        Effect::GainEnergy { amount } => {
            &&& after == (CombatState { player: PlayerState { energy: after.player.energy, ..p }, ..before })
            &&& after.player.energy == clamp(p.energy + amount)
        },
        Effect::Heal { amount } => {
            &&& after == (CombatState { player: PlayerState { hp: after.player.hp, ..p }, ..before })
            &&& after.player.hp == (if clamp(p.hp + amount) < p.max_hp { clamp(p.hp + amount) } else { p.max_hp as int })
        },
        Effect::LoseHp { amount } => {
            &&& after == (CombatState {
                player: PlayerState {
                    hp: after.player.hp,
                    block: after.player.block,
                    status_effects: after.player.status_effects,
                    ..p
                },
                ..before
            })
            &&& after.player.hp == (if clamp(p.hp - amount) > 0 { clamp(p.hp - amount) } else { 0 })
        },
        Effect::BlockFloor { amount } => {
            &&& after == (CombatState { block_floor: after.block_floor, ..before })
            &&& after.block_floor == clamp(amount as int)
        },
        Effect::RetainBlockPartial { amount } => {
            &&& after == (CombatState { retain_block_cap: after.retain_block_cap, ..before })
            &&& after.retain_block_cap == clamp(amount as int)
        },
        Effect::RemoveEnemyBlock { target, amount } => match target {
            Target::SingleEnemy => match target_index {
                Some(idx) => if idx < before.enemies@.len() {
                    &&& after == (CombatState { enemies: after.enemies, ..before })
                    &&& after.enemies@.len() == before.enemies@.len()
                    &&& enemy_block_removed(before.enemies@[idx as int], after.enemies@[idx as int], amount as int)
                    &&& forall|j: int| 0 <= j < before.enemies@.len() && j != idx ==> #[trigger] after.enemies@[j]
                        == before.enemies@[j]
                } else {
                    after == before
                },
                None => after == before,
            },
            Target::AllEnemies => {
                &&& after == (CombatState { enemies: after.enemies, ..before })
                &&& after.enemies@.len() == before.enemies@.len()
                &&& forall|j: int| 0 <= j < before.enemies@.len() ==> if before.enemies@[j].hp > 0 {
                    enemy_block_removed(before.enemies@[j], #[trigger] after.enemies@[j], amount as int)
                } else {
                    after.enemies@[j] == before.enemies@[j]
                }
            },
            _ => after == before,
        },
        Effect::DrawCards { count } => cards_drawn(before, after, count as int),
        Effect::DrawAndDiscard { draw, discard } => {
            &&& cards_drawn(before, CombatState { pending_discards: before.pending_discards, ..after }, draw as int)
            &&& after.pending_discards == (if discard < after.hand@.len() { discard as int } else { after.hand@.len() as int })
        },
        Effect::DrawCardsWithFormBonus { base_draw, status, bonus_draw } => {
            let count: int = if p.status_effects.present(status) {
                if base_draw + bonus_draw > usize::MAX { usize::MAX as int } else { base_draw + bonus_draw }
            } else {
                base_draw as int
            };
            if count > 0 { cards_drawn(before, after, count) } else { after == before }
        },
        Effect::DrawPerEnemyWithStatus { status } => {
            let count = living_with_status(before.enemies@, status);
            if count > 0 { cards_drawn(before, after, count) } else { after == before }
        },
        Effect::ApplyStatusIfPlayerHasStatus { status, stacks, require_status, require_stacks } => if p.status_effects.count(
            require_status,
        ) >= require_stacks {
            player_status_added(before, after, status, stacks as int)
        } else {
            after == before
        },
        _ => after == before,
    }
}

/// The events of one of the remaining effects: the status events of an
/// applied or doubled status, the energy gained, the heal with the new HP,
/// the HP lost; nothing more is stated of the others.
pub open spec fn misc_effect_logged(
    effect: Effect,
    before: CombatState,
    after: CombatState,
    target_index: Option<usize>,
    log: Seq<GameEvent>,
) -> bool {
    match effect {
        Effect::ApplyStatus { target, status, stacks } => status_applied_logged(
            before,
            after,
            target,
            status,
            stacks as int,
            target_index,
            log,
        ),
        Effect::ApplyStatusPerCardPlayed { target, status, per_card } => status_applied_logged(
            before,
            after,
            target,
            status,
            clamp(per_card * before.cards_played_this_turn),
            target_index,
            log,
        ),
        Effect::DoubleStatus { target, status } => status_doubled_logged(before, after, target, status, target_index, log),
        Effect::GainEnergy { amount } => has_event(log, GameEvent::EnergyGained { amount }),
        Effect::Heal { amount } => has_event(
            log,
            GameEvent::Healed { target: EventTarget::Player, amount, new_hp: after.player.hp },
        ),
        Effect::LoseHp { amount } => has_damage_event(log, EventTarget::Player, amount as int, before.player.hp - after.player.hp),
        Effect::ApplyStatusIfPlayerHasStatus { status, stacks, require_status, require_stacks } => before.player.status_effects.count(
            require_status,
        ) >= require_stacks ==> has_status_event(
            log,
            EventTarget::Player,
            status,
            stacks as int,
            after.player.status_effects.count(status),
        ),
        _ => true,
    }
}

/// The events of entering a stance or form: its status event.
pub open spec fn form_effect_logged(effect: Effect, log: Seq<GameEvent>) -> bool {
    match effect {
        Effect::EnterStance { stance } => has_status_event(log, EventTarget::Player, stance, 1, 1),
        Effect::EnterWildShape { form } => has_status_event(log, EventTarget::Player, form, 1, 1),
        _ => true,
    }
}

/// The events of the remaining effects stay logged as the log grows.
pub proof fn lemma_misc_logged_kept(
    effect: Effect,
    before: CombatState,
    after: CombatState,
    target_index: Option<usize>,
    l1: Seq<GameEvent>,
    l2: Seq<GameEvent>,
)
    requires
        misc_effect_logged(effect, before, after, target_index, l1),
        events_extended(l1, l2),
    ensures
        misc_effect_logged(effect, before, after, target_index, l2),
{
    lemma_log_kept(l1, l2);
    let (target, status, stacks): (Target, StatusType, int) = match effect {
        Effect::ApplyStatus { target, status, stacks } => (target, status, stacks as int),
        Effect::ApplyStatusPerCardPlayed { target, status, per_card } => (target, status, clamp(
            per_card * before.cards_played_this_turn,
        )),
        _ => (Target::Player, StatusType::Ki, 0),
    };
    if effect is ApplyStatus || effect is ApplyStatusPerCardPlayed {
        if target == Target::AllEnemies {
            assert forall|j: int| 0 <= j < before.enemies@.len() && before.enemies@[j].hp > 0 implies has_status_event(
                l2,
                EventTarget::Enemy(j as usize),
                status,
                stacks,
                (#[trigger] after.enemies@[j]).status_effects.count(status),
            ) by {
                assert(has_status_event(l1, EventTarget::Enemy(j as usize), status, stacks, after.enemies@[j].status_effects.count(status)));
            }
        }
        if target == Target::RandomEnemy && !before.all_enemies_dead() {
            let idx = choose|idx: int| 0 <= idx < before.enemies@.len() && before.enemies@[idx].hp > 0 && has_status_event(
                l1,
                EventTarget::Enemy(idx as usize),
                status,
                stacks,
                (#[trigger] after.enemies@[idx]).status_effects.count(status),
            );
            assert(has_status_event(l2, EventTarget::Enemy(idx as usize), status, stacks, after.enemies@[idx].status_effects.count(status)));
        }
    }
    if let Effect::DoubleStatus { target, status } = effect {
        if target == Target::AllEnemies {
            assert forall|j: int| 0 <= j < before.enemies@.len() && before.enemies@[j].hp > 0
                && before.enemies@[j].status_effects.count(status) > 0 implies has_status_event(
                l2,
                EventTarget::Enemy(j as usize),
                status,
                before.enemies@[j].status_effects.count(status),
                (#[trigger] after.enemies@[j]).status_effects.count(status),
            ) by {
                assert(has_status_event(
                    l1,
                    EventTarget::Enemy(j as usize),
                    status,
                    before.enemies@[j].status_effects.count(status),
                    after.enemies@[j].status_effects.count(status),
                ));
            }
        }
    }
}

/// Whether an effect is resolved by `resolve_damage_effect`.
pub open spec fn is_first_damage_effect(effect: Effect) -> bool {
    ||| effect is DealDamage
    ||| effect is DealDamageIfDamagedLastTurn
    ||| effect is DealDamageIfTargetDebuffed
    ||| effect is DealDamageIfEnemyBlocked
    ||| effect is DealDamageEqualBlock
    ||| effect is DealDamagePerCardPlayed
    ||| effect is DealDamageIfMarked
    ||| effect is DealDamagePerMarkedStack
    ||| effect is DealDamageScaledByMarked
}

/// Whether an effect is resolved by `resolve_damage_effect_more`.
pub open spec fn is_second_damage_effect(effect: Effect) -> bool {
    ||| effect is DealDamagePerDebuffOnTarget
    ||| effect is DealDamageScaledByMissingHp
    ||| effect is DealDamageScaledByMissingHpEnemy
    ||| effect is DealDamagePerPlayerStatus
    ||| effect is DealDamageSpendKi
    ||| effect is DealDamageSpendArtifice
    ||| effect is DealDamageSpendSmite
    ||| effect is DealDamageIfInWildShape
    ||| effect is DealDamageWithFormBonus
    ||| effect is DealDamageIfPlayerHasStatus
}

/// Whether an effect is a block effect.
pub open spec fn is_block_effect(effect: Effect) -> bool {
    ||| effect is GainBlock
    ||| effect is GainBlockIfDamagedLastTurn
    ||| effect is BlockEqualMissingHp
    ||| effect is GainBlockPerStatusStack
    ||| effect is GainBlockConditional
    ||| effect is GainBlockSpendKi
    ||| effect is GainBlockPerKiStack
    ||| effect is GainBlockSpendSmite
    ||| effect is GainBlockWithFormBonus
}

/// What resolving one effect of a played card did to the combat.
pub open spec fn effect_done(
    effect: Effect,
    before: CombatState,
    after: CombatState,
    target_index: Option<usize>,
    content: &ContentTables,
    log: Seq<GameEvent>,
) -> bool {
    if is_first_damage_effect(effect) {
        damage_effect_done(effect, before, after, target_index, log)
    } else if is_second_damage_effect(effect) {
        damage_more_done(effect, before, after, target_index, log)
    } else if is_block_effect(effect) {
        block_effect_done(effect, before, after)
    } else if effect is EnterStance || effect is EnterWildShape {
        form_effect_done(effect, before, after, content) && form_effect_logged(effect, log)
    } else {
        misc_effect_done(effect, before, after, target_index) && misc_effect_logged(effect, before, after, target_index, log)
    }
}

/// What resolving a sequence of effects in order did: each effect resolved
/// on the state the ones before it left.
pub open spec fn effects_done(
    effects: Seq<Effect>,
    before: CombatState,
    after: CombatState,
    target_index: Option<usize>,
    content: &ContentTables,
    log: Seq<GameEvent>,
) -> bool
    decreases effects.len(),
{
    if effects.len() == 0 {
        after == before
    } else {
        exists|mid: CombatState| effects_done(effects.drop_last(), before, mid, target_index, content, log)
            && #[trigger] effect_done(effects.last(), mid, after, target_index, content, log)
    }
}

/// The effects a card resolves in state `s`, with the Wild Shape passives:
/// Bear adds 5 block to a Defense card, Eagle a draw to the first Attack
/// card of the turn, Wolf boosts the damage of an Attack card.
pub open spec fn played_effects(s: CombatState, def: CardDef) -> Seq<Effect> {
    let st = s.player.status_effects;
    let attack = def.tags@.contains(CardTag::Attack);
    let e1 = if st.present(StatusType::WildShapeBear) && def.tags@.contains(CardTag::Defense) {
        def.effects@.push(Effect::GainBlock { amount: 5 })
    } else {
        def.effects@
    };
    let e2 = if st.present(StatusType::WildShapeEagle) && attack && !s.eagle_attack_used {
        e1.push(Effect::DrawCards { count: 1 })
    } else {
        e1
    };
    if st.present(StatusType::WildShapeWolf) && attack {
        e2.map_values(|e: Effect| spec_wolf_boost(e))
    } else {
        e2
    }
}

/// The player's statuses after the on-play triggers of a card: Flowing
/// Stance adds a Ki; an Attack spends every Arcane Charge for its Empowered
/// bonus, a Skill that is no Attack adds a charge.
pub open spec fn statuses_after_play_triggers(before: StatusMap, after: StatusMap, def: CardDef) -> bool {
    let attack = def.tags@.contains(CardTag::Attack);
    let skill = def.tags@.contains(CardTag::Skill);
    let charges = before.count(StatusType::ArcaneCharge);
    let bonus = spec_arcane_charge_bonus(charges).0;
    &&& after.count(StatusType::Ki) == (if before.present(StatusType::StanceFlowing) {
        status_after_add(StatusType::Ki, before.count(StatusType::Ki), 1)
    } else {
        before.count(StatusType::Ki)
    })
    &&& after.count(StatusType::ArcaneCharge) == (if attack && charges > 0 {
        status_after_add(StatusType::ArcaneCharge, charges, -charges)
    } else if !attack && skill {
        status_after_add(StatusType::ArcaneCharge, charges, 1)
    } else {
        charges
    })
    &&& after.count(StatusType::Empowered) == (if attack && charges > 0 && bonus > 0 {
        status_after_add(StatusType::Empowered, before.count(StatusType::Empowered), bonus)
    } else {
        before.count(StatusType::Empowered)
    })
    &&& forall|t: StatusType|
        t != StatusType::Ki && t != StatusType::ArcaneCharge && t != StatusType::Empowered
            ==> #[trigger] after.count(t) == before.count(t)
}

/// The first half of playing the card at `hand_index` with definition
/// `def`: its cost is paid, it leaves the hand, it is counted, and the
/// on-play triggers fire; nothing else changes.
pub open spec fn play_started(before: CombatState, after: CombatState, hand_index: int, def: CardDef) -> bool {
    &&& after.hand@ == before.hand@.remove(hand_index)
    &&& after.player == (PlayerState {
        energy: after.player.energy,
        status_effects: after.player.status_effects,
        ..before.player
    })
    &&& after.player.energy == clamp(before.player.energy - def.cost)
    &&& statuses_after_play_triggers(before.player.status_effects, after.player.status_effects, def)
    &&& after.cards_played_this_turn == (if before.cards_played_this_turn < LIMIT {
        before.cards_played_this_turn + 1
    } else {
        before.cards_played_this_turn as int
    })
    &&& after == (CombatState {
        hand: after.hand,
        player: after.player,
        cards_played_this_turn: after.cards_played_this_turn,
        ..before
    })
}

/// Where the played card `card` went: the exhaust pile for a consumable or
/// exhaust card, back to the hand (or discard) as the concentration card,
/// the bottom of the draw pile for a recycle card, else the discard pile.
pub open spec fn card_disposed(after: CombatState, card: CardInstance, def: CardDef) -> bool {
    if def.card_type == CardType::Consumable || def.exhaust {
        after.exhaust@.len() > 0 && after.exhaust@.last() == card
    } else if def.concentration {
        after.concentration_active
    } else if def.recycle {
        after.draw_pile@.len() > 0 && after.draw_pile@[0] == card
    } else {
        after.discard@.len() > 0 && after.discard@.last() == card
    }
}

/// The Wild Shapes a concentration card clears as it goes back to the hand.
pub open spec fn wild_shapes() -> Seq<StatusType> {
    seq![StatusType::WildShapeBear, StatusType::WildShapeEagle, StatusType::WildShapeWolf]
}

/// The player's count of `t` after the closing steps of a play, from its
/// count `c` once the effects resolved: the Arcane Charge `bonus` to
/// Empowered taken back, and the Wild Shapes cleared where a concentration
/// card goes back to the hand.
pub open spec fn count_after_play_close(t: StatusType, c: int, bonus: int, def: CardDef) -> int {
    let back = if t == StatusType::Empowered && bonus > 0 {
        status_after_add(StatusType::Empowered, c, -bonus)
    } else {
        c
    };
    if !(def.card_type == CardType::Consumable || def.exhaust) && def.concentration {
        count_after_clearing(wild_shapes(), t, back)
    } else {
        back
    }
}

/// The Arcane Charge bonus to Empowered that playing `def` from `s` grants
/// for the play.
pub open spec fn play_bonus(s: CombatState, def: CardDef) -> int {
    let charges = s.player.status_effects.count(StatusType::ArcaneCharge);
    if def.tags@.contains(CardTag::Attack) && charges > 0 {
        spec_arcane_charge_bonus(charges).0
    } else {
        0
    }
}

/// The second half of playing `card` from state `before`: its effects (with
/// the Wild Shape passives) resolved in order to a state `res`; then the
/// Arcane Charge `bonus` is taken back, a card drawn where `draws`, the card
/// put on its pile and the phase settled. Of `res` only the piles, the
/// generator, the concentration flag, the phase and the player's statuses
/// (as `count_after_play_close`) change; with no draw and no concentration
/// card going back to the hand, the hand stays as `res` has it.
pub open spec fn play_resolved(
    before: CombatState,
    after: CombatState,
    card: CardInstance,
    def: CardDef,
    draws: bool,
    bonus: int,
    target_index: Option<usize>,
    content: &ContentTables,
    log: Seq<GameEvent>,
) -> bool {
    &&& exists|res: CombatState| #[trigger] card_effects_resolved(before, res, def, target_index, content, log)
        && after.enemies == res.enemies && after.player.hp == res.player.hp
        && after == (CombatState {
            hand: after.hand,
            draw_pile: after.draw_pile,
            discard: after.discard,
            exhaust: after.exhaust,
            rng: after.rng,
            concentration_active: after.concentration_active,
            phase: after.phase,
            player: PlayerState { status_effects: after.player.status_effects, ..res.player },
            ..res
        })
        && (forall|t: StatusType| #[trigger] after.player.status_effects.count(t) == count_after_play_close(
            t,
            res.player.status_effects.count(t),
            bonus,
            def,
        ))
        && (!draws && !(def.concentration && !(def.card_type == CardType::Consumable || def.exhaust)) ==> after.hand
        == res.hand)
    &&& card_disposed(after, card, def)
}

/// Whether playing the card draws a card by Arcane Charge: an Attack that
/// spends charges enough for the draw.
pub open spec fn play_draws(s: CombatState, def: CardDef) -> bool {
    let charges = s.player.status_effects.count(StatusType::ArcaneCharge);
    def.tags@.contains(CardTag::Attack) && charges > 0 && spec_arcane_charge_bonus(charges).1
}

/// The card's effects resolved in order from `before` (with the Eagle flag
/// set as the passives set it) to `after`.
pub open spec fn card_effects_resolved(
    before: CombatState,
    after: CombatState,
    def: CardDef,
    target_index: Option<usize>,
    content: &ContentTables,
    log: Seq<GameEvent>,
) -> bool {
    let eagle = before.eagle_attack_used || (before.player.status_effects.present(StatusType::WildShapeEagle)
        && def.tags@.contains(CardTag::Attack));
    effects_done(
        played_effects(before, def),
        CombatState { eagle_attack_used: eagle, ..before },
        after,
        target_index,
        content,
        log,
    )
}

/// The card a PlayCard action plays, by its definition.
pub open spec fn played_def(s: CombatState, hand_index: int, content: &ContentTables) -> CardDef {
    content.spec_card(s.hand@[hand_index].def_id@).unwrap()
}

/// The events of enemy `i`'s action: its Bleeding damage, its death where
/// it reaches 0 HP, and by intent the attack's hit on the player (where no
/// Sanctified Shield stops it), the block gained, or the status events.
pub open spec fn enemy_act_logged(before: CombatState, after: CombatState, i: int, log: Seq<GameEvent>) -> bool {
    let e = before.enemies@[i];
    let p = before.player;
    e.hp > 0 ==> {
        &&& e.status_effects.count(StatusType::Bleeding) > 0 ==> has_dot_event(
            log,
            EventTarget::Enemy(i as usize),
            e.status_effects.count(StatusType::Bleeding),
        )
        &&& after.enemies@[i].hp <= 0 ==> has_event(log, GameEvent::EnemyDied { enemy_index: i as usize })
        &&& enemy_carries_out_intent(e) ==> match e.current_intent.unwrap() {
            IntentType::Attack(base) => !p.status_effects.present(StatusType::SanctifiedShield) ==> has_hit_event(
                log,
                EventTarget::Player,
                base as int,
                spec_enemy_hit(base as int, e.status_effects, p.status_effects),
                enemy_attack_loss(base as int, e.status_effects, p),
            ),
            IntentType::AttackDefend(base, def) => {
                &&& !p.status_effects.present(StatusType::SanctifiedShield) ==> has_hit_event(
                    log,
                    EventTarget::Player,
                    base as int,
                    spec_enemy_hit(base as int, e.status_effects, p.status_effects),
                    enemy_attack_loss(base as int, e.status_effects, p),
                )
                &&& has_event(log, GameEvent::BlockGained { target: EventTarget::Enemy(i as usize), amount: def })
            },
            IntentType::Defend(amount) => has_event(log, GameEvent::BlockGained { target: EventTarget::Enemy(i as usize), amount }),
            IntentType::Buff(status, stacks) => has_status_event(
                log,
                EventTarget::Enemy(i as usize),
                status,
                stacks as int,
                after.enemies@[i].status_effects.count(status),
            ),
            IntentType::Debuff(status, stacks) => has_status_event(
                log,
                EventTarget::Player,
                status,
                stacks as int,
                after.player.status_effects.count(status),
            ),
            IntentType::BuffAllies(status, stacks) => forall|j: int| 0 <= j < before.enemies@.len() && j != i
                && before.enemies@[j].hp > 0 ==> has_status_event(
                log,
                EventTarget::Enemy(j as usize),
                status,
                stacks as int,
                (#[trigger] after.enemies@[j]).status_effects.count(status),
            ),
        }
    }
}

/// An enemy's logged action stays logged as the log grows.
pub proof fn lemma_enemy_act_logged_kept(before: CombatState, after: CombatState, i: int, l1: Seq<GameEvent>, l2: Seq<GameEvent>)
    requires
        enemy_act_logged(before, after, i, l1),
        events_extended(l1, l2),
    ensures
        enemy_act_logged(before, after, i, l2),
{
    lemma_log_kept(l1, l2);
    let e = before.enemies@[i];
    if e.hp > 0 && enemy_carries_out_intent(e) {
        if let IntentType::BuffAllies(status, stacks) = e.current_intent.unwrap() {
            assert forall|j: int| 0 <= j < before.enemies@.len() && j != i && before.enemies@[j].hp > 0 implies has_status_event(
                l2,
                EventTarget::Enemy(j as usize),
                status,
                stacks as int,
                (#[trigger] after.enemies@[j]).status_effects.count(status),
            ) by {
                assert(has_status_event(l1, EventTarget::Enemy(j as usize), status, stacks as int, after.enemies@[j].status_effects.count(status)));
            }
        }
    }
}

/// A trace of the enemies' actions: state `k + 1` is what enemy `k` made of
/// state `k` by its action, which made the player lose HP where `tooks[k]`.
pub open spec fn enemy_turn_trace(states: Seq<CombatState>, tooks: Seq<bool>, log: Seq<GameEvent>) -> bool {
    &&& states.len() == tooks.len() + 1
    &&& forall|k: int| 0 <= k < tooks.len() ==> enemy_act_done(states[k], states[k + 1], k, #[trigger] tooks[k])
        && enemy_act_logged(states[k], states[k + 1], k, log)
}

/// A trace grows by one more enemy's action.
proof fn lemma_enemy_turn_trace_push(
    states: Seq<CombatState>,
    tooks: Seq<bool>,
    log: Seq<GameEvent>,
    next: CombatState,
    t: bool,
)
    requires
        enemy_turn_trace(states, tooks, log),
        enemy_act_done(states.last(), next, tooks.len() as int, t),
        enemy_act_logged(states.last(), next, tooks.len() as int, log),
    ensures
        enemy_turn_trace(states.push(next), tooks.push(t), log),
{
    let s1 = states.push(next);
    let t1 = tooks.push(t);
    assert forall|k: int| 0 <= k < t1.len() implies enemy_act_done(s1[k], s1[k + 1], k, #[trigger] t1[k])
        && enemy_act_logged(s1[k], s1[k + 1], k, log) by {
        if k < tooks.len() {
            assert(t1[k] == tooks[k]);
            assert(s1[k] == states[k] && s1[k + 1] == states[k + 1]);
        } else {
            assert(s1[k] == states.last());
            assert(s1[k + 1] == next);
        }
    }
}

/// A logged trace stays logged as the log grows.
pub proof fn lemma_enemy_turn_trace_kept(states: Seq<CombatState>, tooks: Seq<bool>, l1: Seq<GameEvent>, l2: Seq<GameEvent>)
    requires
        enemy_turn_trace(states, tooks, l1),
        events_extended(l1, l2),
    ensures
        enemy_turn_trace(states, tooks, l2),
{
    assert forall|k: int| 0 <= k < tooks.len() implies enemy_act_done(states[k], states[k + 1], k, #[trigger] tooks[k])
        && enemy_act_logged(states[k], states[k + 1], k, l2) by {
        let tk = tooks[k];
        assert(enemy_act_logged(states[k], states[k + 1], k, l1));
        lemma_enemy_act_logged_kept(states[k], states[k + 1], k, l1, l2);
    }
}

/// The player's block at the start of a turn: kept under Block Retention,
/// else cut to the retention cap where one is set, else set to the floor.
pub open spec fn block_at_turn_start(s: CombatState) -> int {
    if s.player.status_effects.present(StatusType::BlockRetention) {
        s.player.block as int
    } else if s.retain_block_cap > 0 {
        if s.player.block > s.retain_block_cap { s.retain_block_cap as int } else { s.player.block as int }
    } else {
        s.block_floor as int
    }
}

/// The player's HP after Berserker's Trance takes 2 at the start of a turn,
/// never below 0.
pub open spec fn hp_after_trance(hp: int) -> int {
    if hp - 2 > 0 { hp - 2 } else { 0 }
}

/// The player `p` at the start of a turn from state `before`: block as
/// `block_at_turn_start`; under Berserker's Trance 2 HP lost (never below
/// 0), answered by the HP-loss triggers (Warding Totem's block, Pain is
/// Power's Rage); everything else but the energy kept.
pub open spec fn player_at_turn_start(before: CombatState, p: PlayerState) -> bool {
    let ps = before.player.status_effects;
    let b0 = block_at_turn_start(before);
    &&& p == (PlayerState { hp: p.hp, block: p.block, energy: p.energy, status_effects: p.status_effects, ..before.player })
    &&& if ps.present(StatusType::BerserkersTrance) {
        let lost = before.player.hp - hp_after_trance(before.player.hp as int);
        &&& p.hp == hp_after_trance(before.player.hp as int)
        &&& p.block == (if lost > 0 && ps.present(StatusType::WardingTotem) { clamp(b0 + 3) } else { b0 })
        &&& p.status_effects.count(StatusType::Rage) == (if lost > 0 && ps.present(StatusType::PainIsPower) {
            status_after_add(StatusType::Rage, ps.count(StatusType::Rage), lost)
        } else {
            ps.count(StatusType::Rage)
        })
        &&& forall|t: StatusType| t != StatusType::Rage ==> #[trigger] p.status_effects.count(t) == ps.count(t)
    } else {
        &&& p.block == b0
        &&& p.hp == before.player.hp
        &&& p.status_effects == ps
    }
}

/// What the enemy turn did: every enemy acted in order (as a trace from
/// `before`), the player was marked as having taken damage where any action
/// made them lose HP, and, where the next turn started, the player was set
/// up for it and a new hand drawn; the enemies are those the last action
/// left, and so is the player's HP where no turn started.
pub open spec fn enemy_turn_done(before: CombatState, after: CombatState, log: Seq<GameEvent>) -> bool {
    exists|states: Seq<CombatState>, tooks: Seq<bool>| #[trigger] enemy_turn_trace(states, tooks, log)
        && states.len() == before.enemies@.len() + 1 && states[0] == before && ({
        let acted = states.last();
        &&& after.enemies == acted.enemies
        &&& after.player_took_damage_last_turn == tooks.contains(true)
        &&& after.phase == CombatPhase::PlayerTurn ==> player_at_turn_start(acted, after.player)
        &&& after.phase != CombatPhase::PlayerTurn ==> after.player.hp == acted.player.hp
        &&& after.phase == CombatPhase::PlayerTurn ==> turn_start_drawn(acted, after)
    })
}

/// The new hand of a player turn: as many cards as the turn draws (one more
/// under Berserker's Trance) drawn from `before`'s piles, everything but the
/// piles and the generator as `after` has it.
pub open spec fn turn_start_drawn(before: CombatState, after: CombatState) -> bool {
    let count = before.draw_per_turn + (if before.player.status_effects.present(StatusType::BerserkersTrance) {
        1int
    } else {
        0
    });
    cards_drawn(
        CombatState {
            hand: before.hand,
            draw_pile: before.draw_pile,
            discard: before.discard,
            exhaust: before.exhaust,
            rng: before.rng,
            ..after
        },
        after,
        count,
    )
}

/// The player's HP after the end-of-turn Mending heal (held at max HP) and
/// Bleeding damage.
pub open spec fn hp_after_end_turn_ticks(p: PlayerState) -> int {
    let m = p.status_effects.count(StatusType::Mending);
    let healed: int = if m > 0 {
        if clamp(p.hp + m) < p.max_hp { clamp(p.hp + m) } else { p.max_hp as int }
    } else {
        p.hp as int
    };
    let b = p.status_effects.count(StatusType::Bleeding);
    if b > 0 { clamp(healed - b) } else { healed }
}

/// The player's end-of-turn ticks: HP as `hp_after_end_turn_ticks`, every
/// status ticked, nothing else changed.
pub open spec fn end_turn_ticked(before: CombatState, after: CombatState) -> bool {
    &&& after == (CombatState {
        player: PlayerState { hp: after.player.hp, status_effects: after.player.status_effects, ..before.player },
        ..before
    })
    &&& after.player.hp == hp_after_end_turn_ticks(before.player)
    &&& forall|t: StatusType| #[trigger] after.player.status_effects.count(t) == status_after_tick(
        t,
        before.player.status_effects.count(t),
    )
}

/// Whether the Bleeding tick ended the combat.
pub open spec fn end_turn_stops_on_tick(before: CombatState, ticked: CombatState) -> bool {
    before.player.status_effects.count(StatusType::Bleeding) > 0 && (ticked.player.hp <= 0 || ticked.all_enemies_dead())
}

/// The hand discarded at the end of the turn, the latest concentration card
/// kept, and the enemy turn begun.
pub open spec fn hand_discarded_at_end(before: CombatState, after: CombatState, content: &ContentTables) -> bool {
    &&& after == (CombatState { hand: after.hand, discard: after.discard, phase: CombatPhase::EnemyTurn, ..before })
    &&& after.hand@ == match last_concentration_card(content, before.hand@) {
        Some(c) => seq![c],
        None => Seq::<CardInstance>::empty(),
    }
    &&& after.discard@ == before.discard@ + hand_discards(content, before.hand@, false)
}

/// The hand index an action plays from, or -1 for an action that plays none.
pub open spec fn played_hand_index(a: Action) -> int {
    match a {
        Action::PlayCard { hand_index, .. } => hand_index as int,
        _ => -1,
    }
}

/// `after` extends the event log `before`: its events stay, new ones follow.
pub open spec fn events_extended(before: Seq<GameEvent>, after: Seq<GameEvent>) -> bool {
    &&& before.len() <= after.len()
    &&& forall|j: int| 0 <= j < before.len() ==> #[trigger] after[j] == before[j]
}

/// Whether an event records playing the card `id` from `hand_index` for
/// `cost` energy.
pub open spec fn is_card_played_event(e: GameEvent, id: Seq<char>, hand_index: usize, cost: int) -> bool {
    match e {
        GameEvent::CardPlayed { card_id, hand_index: h, energy_spent } => card_id@ == id && h == hand_index
            && energy_spent == cost,
        _ => false,
    }
}

/// What drawing `count` cards did: only the piles changed (the exhaust pile
/// kept); the hand kept its cards and grew by the cards drawn, at most
/// `count`, short only where the hand is full or no card is left; the cards
/// come off the top of the draw pile, which loses them, as far as it holds
/// cards.
pub open spec fn cards_drawn(before: CombatState, after: CombatState, count: int) -> bool {
    let n = after.hand@.len() - before.hand@.len();
    let top = before.draw_pile@.len();
    &&& before.effect_frame(&after)
    &&& before.same_except_piles(&after)
    &&& after.exhaust == before.exhaust
    &&& before.hand@.len() <= after.hand@.len() <= MAX_HAND_SIZE
    &&& forall|j: int| 0 <= j < before.hand@.len() ==> #[trigger] after.hand@[j] == before.hand@[j]
    &&& n <= count
    &&& n == count || after.hand@.len() == MAX_HAND_SIZE || (after.draw_pile@.len() == 0 && after.discard@.len() == 0)
    &&& forall|j: int| 0 <= j < n && j < top ==> after.hand@[before.hand@.len() + j] == #[trigger] before.draw_pile@[top - 1 - j]
    &&& n <= top ==> after.draw_pile@ == before.draw_pile@.take(top - n)
    &&& n <= top ==> after.discard == before.discard
    &&& after.discard == before.discard || after.discard@.len() == 0
}

/// The number of living enemies that have a status.
pub open spec fn living_with_status(enemies: Seq<EnemyState>, status: StatusType) -> int
    decreases enemies.len(),
{
    if enemies.len() == 0 {
        0
    } else {
        living_with_status(enemies.drop_last(), status) + (if enemies.last().hp > 0 && enemies.last().status_effects.present(
            status,
        ) {
            1int
        } else {
            0
        })
    }
}

/// A landed attack stays logged as the event log grows.
pub proof fn lemma_attack_landed_log_kept(
    before: CombatState,
    after: CombatState,
    target: Target,
    amount: int,
    target_index: Option<usize>,
    l1: Seq<GameEvent>,
    l2: Seq<GameEvent>,
)
    requires
        attack_landed(before, after, target, amount, target_index, l1),
        events_extended(l1, l2),
    ensures
        attack_landed(before, after, target, amount, target_index, l2),
{
    lemma_log_kept(l1, l2);
    if target == Target::RandomEnemy && !before.all_enemies_dead() {
        let idx = choose|idx: int| 0 <= idx < before.enemies@.len() && (#[trigger] before.enemies@[idx]).hp > 0
            && enemy_alone_hit(before, after, amount, idx) && enemy_hit_logged(before, after, amount, idx, true, l1);
        assert(enemy_hit_logged(before, after, amount, idx, true, l2));
    }
    if target == Target::AllEnemies {
        assert forall|j: int| 0 <= j < before.enemies@.len() && before.enemies@[j].hp > 0 implies enemy_hit_logged(
            before,
            after,
            amount,
            j,
            false,
            l2,
        ) by {
            assert(enemy_hit_logged(before, after, amount, j, false, l1));
        }
    }
}

/// A resolved effect stays logged as the event log grows.
pub proof fn lemma_effect_done_log_kept(
    effect: Effect,
    before: CombatState,
    after: CombatState,
    target_index: Option<usize>,
    content: &ContentTables,
    l1: Seq<GameEvent>,
    l2: Seq<GameEvent>,
)
    requires
        effect_done(effect, before, after, target_index, content, l1),
        events_extended(l1, l2),
    ensures
        effect_done(effect, before, after, target_index, content, l2),
{
    lemma_log_kept(l1, l2);
    if is_first_damage_effect(effect) {
        match damage_effect_deal(effect, before, target_index) {
            Some(ta) => {
                if !(effect is DealDamagePerMarkedStack) {
                    lemma_attack_landed_log_kept(before, after, ta.0, ta.1, target_index, l1, l2);
                }
            },
            None => {},
        }
    } else if is_second_damage_effect(effect) && !damage_effect_is_sweep(effect) {
        match damage_more_deal(effect, before, target_index) {
            Some(ta) => match damage_effect_spend(effect, before.player) {
                Some(sd) => {
                    let mid = CombatState {
                        player: PlayerState { status_effects: after.player.status_effects, ..before.player },
                        ..before
                    };
                    lemma_attack_landed_log_kept(mid, after, ta.0, ta.1, target_index, l1, l2);
                },
                None => {
                    lemma_attack_landed_log_kept(before, after, ta.0, ta.1, target_index, l1, l2);
                },
            },
            None => {},
        }
    } else if is_block_effect(effect) {
    } else if effect is EnterStance || effect is EnterWildShape {
    } else {
        lemma_misc_logged_kept(effect, before, after, target_index, l1, l2);
    }
}

/// Effects resolved in order stay logged as the event log grows.
pub proof fn lemma_effects_done_log_kept(
    effects: Seq<Effect>,
    before: CombatState,
    after: CombatState,
    target_index: Option<usize>,
    content: &ContentTables,
    l1: Seq<GameEvent>,
    l2: Seq<GameEvent>,
)
    requires
        effects_done(effects, before, after, target_index, content, l1),
        events_extended(l1, l2),
    ensures
        effects_done(effects, before, after, target_index, content, l2),
    decreases effects.len(),
{
    if effects.len() > 0 {
        let mid = choose|mid: CombatState| effects_done(effects.drop_last(), before, mid, target_index, content, l1)
            && #[trigger] effect_done(effects.last(), mid, after, target_index, content, l1);
        lemma_effects_done_log_kept(effects.drop_last(), before, mid, target_index, content, l1, l2);
        lemma_effect_done_log_kept(effects.last(), mid, after, target_index, content, l1, l2);
    }
}

/// A status count after the end-of-turn tick: a present Waning status loses
/// one stack; the count is held within the limit.
pub open spec fn status_after_tick(s: StatusType, cur: int) -> int {
    clamp(if spec_kind(s) == StatusKind::Waning && cur != 0 { cur - 1 } else { cur })
}

/// The block a player gains from `gain`: 3 more when the Defensive Stance
/// bonus applies, never negative, held within the limit.
pub open spec fn block_gain_amount(gain: int, stance_bonus: bool) -> int {
    let g = if stance_bonus { gain + 3 } else { gain };
    clamp(if g < 0 { 0 } else { g })
}

/// The hit of an enemy attack on a player with the given statuses: the
/// damage pipeline, +3 in Aggressive Stance, minus Fortified stacks, never
/// negative, held within the limit.
pub open spec fn spec_enemy_hit(base: int, attacker: StatusMap, defender: StatusMap) -> int {
    let d = spec_calculate_damage(
        base,
        attacker,
        defender.present(StatusType::Threatened),
        defender.count(StatusType::Marked),
        false,
    ) + (if defender.present(StatusType::StanceAggressive) { 3int } else { 0int }) - defender.count(StatusType::Fortified);
    clamp(if d < 0 { 0 } else { d })
}

/// Execute damage against an enemy: base plus `per_10` for every full 10%
/// of its max HP it is missing (truncating).
pub open spec fn spec_execute_amount(e: EnemyState, base: int, per_10: int) -> int {
    let max_hp: int = if e.max_hp > 1 { e.max_hp as int } else { 1 };
    let pct = trunc_div((max_hp - e.hp) * 100, max_hp);
    clamp(base + clamp(trunc_div(pct, 10)) * per_10)
}

/// The Wild Shape Wolf boost of an effect: +3 to the damage of the attack
/// effects it boosts (held within the limit); other effects are unchanged.
pub open spec fn spec_wolf_boost(e: Effect) -> Effect {
    match e {
        Effect::DealDamage { target, amount } => Effect::DealDamage { target, amount: clamp(amount + 3) as i32 },
        Effect::DealDamageIfInWildShape { target, base, bonus } => Effect::DealDamageIfInWildShape {
            target,
            base: clamp(base + 3) as i32,
            bonus,
        },
        Effect::DealDamageWithFormBonus { target, base, status, bonus } => Effect::DealDamageWithFormBonus {
            target,
            base: clamp(base + 3) as i32,
            status,
            bonus,
        },
        Effect::DealDamageIfTargetDebuffed { target, amount, bonus } => Effect::DealDamageIfTargetDebuffed {
            target,
            amount: clamp(amount + 3) as i32,
            bonus,
        },
        _ => e,
    }
}

/// A status count after the clearing steps of a list: each listed status,
/// when present at its step, loses one stack (an Absolute one is removed).
pub open spec fn count_after_clearing(list: Seq<StatusType>, t: StatusType, c: int) -> int
    decreases list.len(),
{
    if list.len() == 0 {
        c
    } else {
        let prev = count_after_clearing(list.drop_last(), t, c);
        if list.last() == t && prev != 0 {
            status_after_add(t, prev, -1)
        } else {
            prev
        }
    }
}

/// The player's energy after an effect: a gain adds its amount (held
/// within the limit); no other effect touches energy.
pub open spec fn energy_step(e: int, effect: Effect) -> int {
    match effect {
        Effect::GainEnergy { amount } => clamp(e + amount),
        _ => e,
    }
}

/// The player's energy after a sequence of effects.
pub open spec fn energy_after(e: int, effects: Seq<Effect>) -> int
    decreases effects.len(),
{
    if effects.len() == 0 {
        e
    } else {
        energy_step(energy_after(e, effects.drop_last()), effects.last())
    }
}

/// Truncating division (rounds towards zero), as integer division does.
pub open spec fn trunc_div(a: int, d: int) -> int {
    if a >= 0 {
        a / d
    } else {
        -((-a) / d)
    }
}

/// A quotient by a positive divisor is no larger than the dividend.
proof fn lemma_div_bounded(a: int, d: int)
    requires
        a >= 0,
        d >= 1,
    ensures
        0 <= a / d <= a,
{
    vstd::arithmetic::div_mod::lemma_div_is_ordered_by_denominator(a, 1, d);
    vstd::arithmetic::div_mod::lemma_div_pos_is_pos(a, d);
}

proof fn lemma_mul_bound(a: int, b: int)
    by (nonlinear_arith)
    requires
        -0x8000_0000 <= a <= 0x8000_0000,
        -0x8000_0000 <= b <= 0x8000_0000,
    ensures
        -0x4000_0000_0000_0000 <= a * b <= 0x4000_0000_0000_0000,
{
}

/// Product of two i32-sized numbers, exactly.
fn mul64(a: i64, b: i64) -> (r: i64)
    requires
        -0x8000_0000 <= a <= 0x8000_0000,
        -0x8000_0000 <= b <= 0x8000_0000,
    ensures
        r == a * b,
        -0x4000_0000_0000_0000 <= r <= 0x4000_0000_0000_0000,
{
    proof {
        lemma_mul_bound(a as int, b as int);
    }
    a * b
}

fn clamp64(x: i64) -> (r: i32)
    ensures
        r == clamp(x as int),
        in_limit(r as int),
{
    if x < -(LIMIT as i64) {
        -LIMIT
    } else if x > LIMIT as i64 {
        LIMIT
    } else {
        x as i32
    }
}

fn floor_div4(x: i64) -> (r: i64)
    requires
        -0x1000_0000_0000 <= x <= 0x1000_0000_0000,
    ensures
        r == x / 4,
{
    if x >= 0 {
        x / 4
    } else {
        let q = (-x + 3) / 4;
        -q
    }
}

fn floor_div2(x: i64) -> (r: i64)
    requires
        -0x1000_0000_0000 <= x <= 0x1000_0000_0000,
    ensures
        r == x / 2,
{
    if x >= 0 {
        x / 2
    } else {
        let q = (-x + 1) / 2;
        -q
    }
}

fn trunc_div64(a: i64, d: i64) -> (r: i64)
    requires
        d > 0,
        a > i64::MIN,
    ensures
        r == trunc_div(a as int, d as int),
{
    if a >= 0 {
        a / d
    } else {
        let q = (-a) / d;
        -q
    }
}

/// Calculate Arcane Charge bonus damage and whether to draw a card.
/// 1 charge = +1, 2 = +3, 3 = +5, 4+ = +5 and draw 1.
pub open spec fn spec_arcane_charge_bonus(charges: int) -> (int, bool) {
    if charges == 0 {
        (0, false)
    } else if charges == 1 {
        (1, false)
    } else if charges == 2 {
        (3, false)
    } else if charges == 3 {
        (5, false)
    } else {
        (5, true)
    }
}

pub fn arcane_charge_bonus(charges: i32) -> (r: (i32, bool))
    ensures
        (r.0 as int, r.1) == spec_arcane_charge_bonus(charges as int),
{
    match charges {
        0 => (0, false),
        1 => (1, false),
        2 => (3, false),
        3 => (5, false),
        _ => (5, true),
    }
}

/// Damage pipeline: base + Empowered + Rage (+3 in Aggressive Stance, -3 in
/// Defensive Stance) [+ SavageBlows when single target] → ×0.75 rounded down
/// if Weakened → ×1.5 rounded down if the defender is Threatened → + the
/// defender's Marked stacks; never negative. A miss (base ≤ 0) deals zero.
pub open spec fn spec_calculate_damage(
    base: int,
    st: StatusMap,
    threatened: bool,
    marked: int,
    single: bool,
) -> int {
    if base <= 0 {
        0
    } else {
        let e1 = base + st.count(StatusType::Empowered) + st.count(StatusType::Rage) + (if st.present(
            StatusType::StanceAggressive,
        ) {
            3int
        } else {
            0
        }) - (if st.present(StatusType::StanceDefensive) {
            3int
        } else {
            0
        }) + (if single {
            st.count(StatusType::SavageBlows)
        } else {
            0
        });
        let e2 = if st.present(StatusType::Weakened) {
            (e1 * 3) / 4
        } else {
            e1
        };
        let e3 = if threatened {
            (e2 * 3) / 2
        } else {
            e2
        };
        let e4 = e3 + marked;
        if e4 > 0 {
            clamp(e4)
        } else {
            0
        }
    }
}

/// Every count of a status table within `±LIMIT`.
pub open spec fn statuses_bounded(m: StatusMap) -> bool {
    &&& m.wf()
    &&& forall|s: StatusType| #[trigger] in_limit(m.count(s))
}

pub open spec fn player_bounded(p: PlayerState) -> bool {
    &&& statuses_bounded(p.status_effects)
    &&& in_limit(p.hp as int)
    &&& in_limit(p.max_hp as int)
    &&& in_limit(p.block as int)
    &&& in_limit(p.energy as int)
    &&& in_limit(p.max_energy as int)
}

pub open spec fn enemy_bounded(e: EnemyState) -> bool {
    &&& statuses_bounded(e.status_effects)
    &&& in_limit(e.hp as int)
    &&& in_limit(e.max_hp as int)
    &&& in_limit(e.block as int)
    &&& e.intent_index < usize::MAX
}

#[derive(Debug, Clone, Copy, PartialEq, Eq, Structural)]
pub enum CombatPhase {
    PlayerTurn,
    EnemyTurn,
    Victory,
    Defeat,
}

#[derive(Debug, Clone, Copy, PartialEq, Eq, Structural)]
pub enum Action {
    /// Play a card from hand, optionally targeting a specific enemy.
    PlayCard { hand_index: usize, target: Option<usize> },
    /// End the player's turn, triggering enemy actions and a new turn.
    EndTurn,
    /// Discard a card from hand (required by DrawAndDiscard effects).
    DiscardCard { hand_index: usize },
}

#[derive(Debug, Clone, Copy, PartialEq, Eq, Structural)]
pub enum ActionError {
    InvalidHandIndex,
    InsufficientEnergy,
    InvalidTarget,
    NotPlayerTurn,
    CombatOver,
    /// A pending discard must be resolved before playing cards or ending turn.
    MustDiscardFirst,
    /// Tried to discard when no discards are pending.
    NoPendingDiscards,
}

#[derive(Debug, Clone, Copy, PartialEq, Eq, Structural)]
pub enum EventTarget {
    Player,
    Enemy(usize),
}

#[derive(Debug, PartialEq)]
pub enum GameEvent {
    CardPlayed { card_id: CardId, hand_index: usize, energy_spent: i32 },
    CardsDrawn { count: usize },
    CardDiscarded { card_id: CardId },
    CardExhausted { card_id: CardId },
    DamageDealt { target: EventTarget, base: i32, modified: i32, blocked: i32, hp_lost: i32 },
    DotDamage { target: EventTarget, source: StatusType, damage: i32 },
    Healed { target: EventTarget, amount: i32, new_hp: i32 },
    BlockGained { target: EventTarget, amount: i32 },
    StatusApplied { target: EventTarget, status: StatusType, stacks: i32, new_total: i32 },
    EnergyGained { amount: i32 },
    EnemyAction { enemy_index: usize, intent: IntentType },
    EnemySkipped { enemy_index: usize },
    EnemyDied { enemy_index: usize },
    TurnStarted { turn: u32 },
    TurnEnded { turn: u32 },
    PlayerDied,
    CombatVictory,
    CombatDefeat,
}

#[derive(Debug)]
pub struct CombatState {
    pub draw_pile: Vec<CardInstance>,
    pub hand: Vec<CardInstance>,
    pub discard: Vec<CardInstance>,
    pub exhaust: Vec<CardInstance>,
    pub player: PlayerState,
    pub enemies: Vec<EnemyState>,
    pub phase: CombatPhase,
    pub turn: u32,
    pub rng: GameRng,
    pub class: Option<Class>,
    pub player_took_damage_last_turn: bool,
    /// True once a concentration card has been played this combat.
    pub concentration_active: bool,
    /// Cards the player must discard before acting (set by DrawAndDiscard).
    pub pending_discards: usize,
    pub act: u32,
    /// Number of cards played during the current player turn.
    pub cards_played_this_turn: u32,
    /// Block cannot go below this value at start of turn (Unbreakable).
    pub block_floor: i32,
    /// Retain up to this much block permanently (Iron Fortress). 0 = disabled.
    pub retain_block_cap: i32,
    /// Number of cards drawn per turn (default 5).
    pub draw_per_turn: usize,
    /// Card IDs that are treated as innate.
    pub innate_overrides: Vec<CardId>,
    /// True once an Attack card has been played this turn (Wild Shape Eagle).
    pub eagle_attack_used: bool,
    /// The enemy definitions as scaled for this combat; an enemy's next
    /// intent is read from the definition here that carries its id.
    pub enemy_defs: Vec<EnemyDef>,
}

/// The cards of all four piles, as a multiset.
pub open spec fn pile_cards(
    draw: Seq<CardInstance>,
    hand: Seq<CardInstance>,
    discard: Seq<CardInstance>,
    exhaust: Seq<CardInstance>,
) -> Multiset<CardInstance> {
    draw.to_multiset().add(hand.to_multiset()).add(discard.to_multiset()).add(exhaust.to_multiset())
}

impl CombatState {
    /// Well-formedness: numbers within `±LIMIT`, hand within its cap, turn
    /// counter within the stalemate guard.
    pub open spec fn wf(&self) -> bool {
        &&& player_bounded(self.player)
        &&& forall|i: int| 0 <= i < self.enemies@.len() ==> enemy_bounded(#[trigger] self.enemies@[i])
        &&& in_limit(self.block_floor as int)
        &&& in_limit(self.retain_block_cap as int)
        &&& self.cards_played_this_turn <= LIMIT
        &&& self.hand@.len() <= MAX_HAND_SIZE
        &&& self.draw_per_turn <= LIMIT
        &&& self.turn <= MAX_TURNS + 1
        &&& self.phase != CombatPhase::Defeat ==> self.turn <= MAX_TURNS
        &&& self.pending_discards <= MAX_HAND_SIZE
        &&& self.enemies@.len() <= LIMIT
    }

    /// Every card of the combat, whatever pile it lies in.
    pub open spec fn card_multiset(&self) -> Multiset<CardInstance> {
        pile_cards(self.draw_pile@, self.hand@, self.discard@, self.exhaust@)
    }

    pub open spec fn is_over(&self) -> bool {
        self.phase == CombatPhase::Victory || self.phase == CombatPhase::Defeat
    }

    pub open spec fn all_enemies_dead(&self) -> bool {
        forall|i: int| 0 <= i < self.enemies@.len() ==> (#[trigger] self.enemies@[i]).hp <= 0
    }

    /// The error an action meets in this state, if any.
    pub open spec fn spec_action_error(&self, action: Action, content: &ContentTables) -> Option<
        ActionError,
    > {
        if self.is_over() {
            Some(ActionError::CombatOver)
        } else if self.phase != CombatPhase::PlayerTurn {
            Some(ActionError::NotPlayerTurn)
        } else {
            match action {
                Action::PlayCard { hand_index, target } => {
                    if self.pending_discards > 0 {
                        Some(ActionError::MustDiscardFirst)
                    } else if hand_index >= self.hand@.len() {
                        Some(ActionError::InvalidHandIndex)
                    } else {
                        let def = content.spec_card(self.hand@[hand_index as int].def_id@).unwrap();
                        if self.player.energy < def.cost {
                            Some(ActionError::InsufficientEnergy)
                        } else if def.spec_needs_single_target() && !(match target {
                            Some(t) => t < self.enemies@.len() && self.enemies@[t as int].hp > 0,
                            None => false,
                        }) {
                            Some(ActionError::InvalidTarget)
                        } else {
                            None
                        }
                    }
                },
                Action::EndTurn => {
                    if self.pending_discards > 0 {
                        Some(ActionError::MustDiscardFirst)
                    } else {
                        None
                    }
                },
                Action::DiscardCard { hand_index } => {
                    if self.pending_discards == 0 {
                        Some(ActionError::NoPendingDiscards)
                    } else if hand_index >= self.hand@.len() {
                        Some(ActionError::InvalidHandIndex)
                    } else {
                        None
                    }
                },
            }
        }
    }

    /// A card that would be played has a definition.
    pub open spec fn action_defined(&self, action: Action, content: &ContentTables) -> bool {
        match action {
            Action::PlayCard { hand_index, .. } => hand_index < self.hand@.len()
                ==> content.spec_card(self.hand@[hand_index as int].def_id@) is Some,
            _ => true,
        }
    }

    /// Whether the card at a hand index can be played now (ignoring targets).
    pub open spec fn spec_can_play(&self, hand_index: int, content: &ContentTables) -> bool {
        &&& self.pending_discards == 0
        &&& 0 <= hand_index < self.hand@.len()
        &&& content.spec_card(self.hand@[hand_index].def_id@) matches Some(def)
        &&& self.player.energy >= def.cost
        &&& !(def.concentration && self.concentration_active)
    }

    /// Fields an effect never changes.
    pub open spec fn effect_frame(&self, other: &CombatState) -> bool {
        &&& self.play_frame(other)
        &&& other.player.energy == self.player.energy
        &&& other.player.max_energy == self.player.max_energy
    }

    /// What resolving an effect keeps: well-formedness, the cards, the
    /// number of enemies, the phase, turn and per-turn counters, the class,
    /// the act and the enemy definitions.
    pub open spec fn play_frame(&self, other: &CombatState) -> bool {
        &&& other.player.max_hp == self.player.max_hp
        &&& other.wf()
        &&& other.card_multiset() == self.card_multiset()
        &&& other.enemies@.len() == self.enemies@.len()
        &&& other.phase == self.phase
        &&& other.turn == self.turn
        &&& other.class == self.class
        &&& other.draw_per_turn == self.draw_per_turn
        &&& other.cards_played_this_turn == self.cards_played_this_turn
        &&& other.innate_overrides == self.innate_overrides
        &&& other.act == self.act
        &&& other.enemy_defs == self.enemy_defs
    }

    /// Whether the card at `hand_index` goes to the exhaust pile when
    /// played: it is a consumable or an exhaust card.
    pub open spec fn played_card_exhausts(&self, hand_index: int, content: &ContentTables) -> bool {
        match content.spec_card(self.hand@[hand_index].def_id@) {
            Some(d) => d.card_type == CardType::Consumable || d.exhaust,
            None => false,
        }
    }

    /// The player's energy after playing the card at `hand_index`: its
    /// cost is paid, then its energy gains are added.
    pub open spec fn energy_after_play(&self, hand_index: int, content: &ContentTables) -> int {
        match content.spec_card(self.hand@[hand_index].def_id@) {
            Some(d) => energy_after(clamp(self.player.energy - d.cost), d.effects@),
            None => self.player.energy as int,
        }
    }

    // ── Small state updates (all clamped to ±LIMIT) ────────────────────

    fn status_add(m: &mut StatusMap, s: StatusType, stacks: i32)
        requires
            statuses_bounded(*old(m)),
        ensures
            statuses_bounded(*final(m)),
            final(m).count(s) == (if spec_kind(s) == StatusKind::Absolute {
                if stacks > 0 { 1int } else { 0int }
            } else {
                clamp(old(m).count(s) + stacks)
            }),
            forall|t: StatusType| t != s ==> final(m).count(t) == old(m).count(t),
    {
        if s.kind() == StatusKind::Absolute {
            m.apply(s, stacks);
        } else {
            let cur = m.get(s);
            let target = clamp64(cur as i64 + stacks as i64);
            proof {
                assert(in_limit(cur as int));
            }
            m.apply(s, target - cur);
        }
        proof {
            assert forall|t: StatusType| #[trigger] in_limit(m.count(t)) by {
                if t != s {
                    assert(in_limit(old(m).count(t)));
                }
            }
        }
    }

    /// Add stacks to one of the player's statuses.
    fn player_status_add(&mut self, s: StatusType, stacks: i32)
        requires
            old(self).wf(),
        ensures
            final(self).wf(),
            final(self).player.status_effects.count(s) == (if spec_kind(s) == StatusKind::Absolute {
                if stacks > 0 { 1int } else { 0int }
            } else {
                clamp(old(self).player.status_effects.count(s) + stacks)
            }),
            forall|t: StatusType| t != s ==> final(self).player.status_effects.count(t) == old(self).player.status_effects.count(t),
            final(self).player.hp == old(self).player.hp,
            final(self).player.max_hp == old(self).player.max_hp,
            final(self).player.block == old(self).player.block,
            final(self).player.energy == old(self).player.energy,
            final(self).player.max_energy == old(self).player.max_energy,
            old(self).effect_frame(final(self)),
            final(self).enemies == old(self).enemies,
            final(self).hand == old(self).hand,
            final(self).draw_pile == old(self).draw_pile,
            final(self).discard == old(self).discard,
            final(self).concentration_active == old(self).concentration_active,
            final(self).player_took_damage_last_turn == old(self).player_took_damage_last_turn,
            final(self).pending_discards == old(self).pending_discards,
            final(self).rng == old(self).rng,
            final(self).exhaust == old(self).exhaust,
            *final(self) == (CombatState { player: PlayerState { status_effects: final(self).player.status_effects, ..old(self).player }, ..*old(self) }),
    {
        Self::status_add(&mut self.player.status_effects, s, stacks);
    }

    /// Add stacks to one of an enemy's statuses.
    fn enemy_status_add(&mut self, idx: usize, s: StatusType, stacks: i32)
        requires
            old(self).wf(),
            idx < old(self).enemies@.len(),
        ensures
            old(self).effect_frame(final(self)),
            final(self).enemies@[idx as int].status_effects.count(s) == (if spec_kind(s)
                == StatusKind::Absolute {
                if stacks > 0 { 1int } else { 0int }
            } else {
                clamp(old(self).enemies@[idx as int].status_effects.count(s) + stacks)
            }),
            final(self).enemies@[idx as int].hp == old(self).enemies@[idx as int].hp,
            forall|j: int| 0 <= j < old(self).enemies@.len() && j != idx ==> final(self).enemies@[j] == old(self).enemies@[j],
            final(self).player == old(self).player,
            final(self).hand == old(self).hand,
            final(self).concentration_active == old(self).concentration_active,
            final(self).player_took_damage_last_turn == old(self).player_took_damage_last_turn,
            final(self).pending_discards == old(self).pending_discards,
            final(self).enemies@.len() == old(self).enemies@.len(),
            final(self).enemies@[idx as int] == (EnemyState { status_effects: final(self).enemies@[idx as int].status_effects, ..old(self).enemies@[idx as int] }),
            forall|t: StatusType| t != s ==> final(self).enemies@[idx as int].status_effects.count(t) == old(self).enemies@[idx as int].status_effects.count(t),
            *final(self) == (CombatState { enemies: final(self).enemies, ..*old(self) }),
    {
        Self::status_add(&mut self.enemies[idx].status_effects, s, stacks);
        proof {
            assert forall|i: int| 0 <= i < self.enemies@.len() implies enemy_bounded(#[trigger] self.enemies@[i]) by {
                if i != idx {
                    assert(self.enemies@[i] == old(self).enemies@[i]);
                }
            }
        }
    }

    fn player_gain_block(&mut self, amount: i32)
        requires
            old(self).wf(),
        ensures
            final(self).player.block == clamp(old(self).player.block + amount),
            final(self).player.hp == old(self).player.hp,
            final(self).player.energy == old(self).player.energy,
            final(self).player.max_energy == old(self).player.max_energy,
            final(self).player.status_effects == old(self).player.status_effects,
            old(self).effect_frame(final(self)),
            final(self).enemies == old(self).enemies,
            final(self).hand == old(self).hand,
            final(self).concentration_active == old(self).concentration_active,
            final(self).player_took_damage_last_turn == old(self).player_took_damage_last_turn,
            final(self).pending_discards == old(self).pending_discards,
            *final(self) == (CombatState { player: PlayerState { block: final(self).player.block, ..old(self).player }, ..*old(self) }),
    {
        self.player.block = clamp64(self.player.block as i64 + amount as i64);
    }

    /// Apply damage to the player after block absorption; returns HP lost.
    fn player_take_hit(&mut self, amount: i32) -> (lost: i32)
        requires
            old(self).wf(),
            0 <= amount <= LIMIT,
        ensures
            lost >= 0,
            lost <= 2 * LIMIT,
            lost == crate::player::spec_after_block(amount as int, old(self).player.block as int),
            final(self).player.hp == clamp(old(self).player.hp - lost),
            final(self).player.block == crate::player::spec_block_after_hit(amount as int, old(self).player.block as int),
            final(self).player.energy == old(self).player.energy,
            final(self).player.status_effects == old(self).player.status_effects,
            old(self).effect_frame(final(self)),
            final(self).enemies == old(self).enemies,
            final(self).hand == old(self).hand,
            final(self).concentration_active == old(self).concentration_active,
            final(self).player_took_damage_last_turn == old(self).player_took_damage_last_turn,
            final(self).pending_discards == old(self).pending_discards,
            *final(self) == (CombatState {
                player: PlayerState { hp: final(self).player.hp, block: final(self).player.block, ..old(self).player },
                ..*old(self)
            }),
    {
        let lost = self.player.take_damage(amount);
        if self.player.hp < -LIMIT {
            self.player.hp = -LIMIT;
        }
        lost
    }

    /// Apply damage to an enemy after block absorption; returns HP lost.
    fn enemy_take_hit(&mut self, idx: usize, amount: i32) -> (lost: i32)
        requires
            old(self).wf(),
            idx < old(self).enemies@.len(),
            0 <= amount <= LIMIT,
        ensures
            lost >= 0,
            lost <= 2 * LIMIT,
            lost == crate::player::spec_after_block(amount as int, old(self).enemies@[idx as int].block as int),
            final(self).enemies@[idx as int].hp == clamp(old(self).enemies@[idx as int].hp - lost),
            final(self).enemies@[idx as int].status_effects == old(self).enemies@[idx as int].status_effects,
            forall|j: int| 0 <= j < old(self).enemies@.len() && j != idx ==> final(self).enemies@[j] == old(self).enemies@[j],
            old(self).effect_frame(final(self)),
            final(self).player == old(self).player,
            final(self).hand == old(self).hand,
            final(self).concentration_active == old(self).concentration_active,
            final(self).player_took_damage_last_turn == old(self).player_took_damage_last_turn,
            final(self).pending_discards == old(self).pending_discards,
            *final(self) == (CombatState { enemies: final(self).enemies, ..*old(self) }),
            final(self).enemies@[idx as int].block == crate::player::spec_block_after_hit(amount as int, old(self).enemies@[idx as int].block as int),
            final(self).enemies@[idx as int] == (EnemyState {
                hp: final(self).enemies@[idx as int].hp,
                block: final(self).enemies@[idx as int].block,
                ..old(self).enemies@[idx as int]
            }),
            final(self).enemies@.len() == old(self).enemies@.len(),
    {
        proof {
            assert(enemy_bounded(self.enemies@[idx as int]));
        }
        let lost = self.enemies[idx].take_damage(amount);
        if self.enemies[idx].hp < -LIMIT {
            self.enemies[idx].hp = -LIMIT;
        }
        proof {
            assert forall|i: int| 0 <= i < self.enemies@.len() implies enemy_bounded(#[trigger] self.enemies@[i]) by {
                if i != idx {
                    assert(self.enemies@[i] == old(self).enemies@[i]);
                }
            }
        }
        lost
    }

    // ── Damage pipeline ─────────────────────────────────────────────────

    /// Calculate final damage (see `spec_calculate_damage`).
    pub fn calculate_damage(
        base: i32,
        attacker_statuses: &StatusMap,
        defender_threatened: bool,
        defender_marked: i32,
        single_target: bool,
    ) -> (r: i32)
        requires
            statuses_bounded(*attacker_statuses),
            in_limit(defender_marked as int),
        ensures
            r == spec_calculate_damage(
                base as int,
                *attacker_statuses,
                defender_threatened,
                defender_marked as int,
                single_target,
            ),
            0 <= r <= LIMIT,
    {
        if base <= 0 {
            return 0;
        }
        let emp = attacker_statuses.get(StatusType::Empowered);
        let rage = attacker_statuses.get(StatusType::Rage);
        proof {
            assert(in_limit(attacker_statuses.count(StatusType::Empowered)));
            assert(in_limit(attacker_statuses.count(StatusType::Rage)));
            assert(in_limit(attacker_statuses.count(StatusType::SavageBlows)));
        }
        let mut effective: i64 = base as i64 + emp as i64 + rage as i64;
        if attacker_statuses.has(StatusType::StanceAggressive) {
            effective = effective + 3;
        }
        if attacker_statuses.has(StatusType::StanceDefensive) {
            effective = effective - 3;
        }
        if single_target {
            effective = effective + attacker_statuses.get(StatusType::SavageBlows) as i64;
        }
        if attacker_statuses.has(StatusType::Weakened) {
            effective = floor_div4(effective * 3);
        }
        if defender_threatened {
            effective = floor_div2(effective * 3);
        }
        effective = effective + defender_marked as i64;
        if effective > 0 {
            clamp64(effective)
        } else {
            0
        }
    }

    /// Everything but the piles and the generator's state stays.
    pub open spec fn same_except_piles(&self, other: &CombatState) -> bool {
        &&& other.player == self.player
        &&& other.enemies == self.enemies
        &&& other.phase == self.phase
        &&& other.turn == self.turn
        &&& other.rng.spec_seed() == self.rng.spec_seed()
        &&& other.class == self.class
        &&& other.player_took_damage_last_turn == self.player_took_damage_last_turn
        &&& other.concentration_active == self.concentration_active
        &&& other.pending_discards == self.pending_discards
        &&& other.act == self.act
        &&& other.cards_played_this_turn == self.cards_played_this_turn
        &&& other.block_floor == self.block_floor
        &&& other.retain_block_cap == self.retain_block_cap
        &&& other.draw_per_turn == self.draw_per_turn
        &&& other.innate_overrides == self.innate_overrides
        &&& other.eagle_attack_used == self.eagle_attack_used
        &&& other.enemy_defs == self.enemy_defs
    }

    // ── Piles ───────────────────────────────────────────────────────────

    /// Draw up to `count` cards: stop when the hand is full or no card is
    /// left; an empty draw pile is refilled by shuffling the discard pile in.
    fn draw_cards(&mut self, count: usize, events: &mut Vec<GameEvent>)
        requires
            old(self).wf(),
        ensures
            events_extended(old(events)@, final(events)@),
            old(self).effect_frame(final(self)),
            old(self).same_except_piles(final(self)),
            old(self).hand@.len() <= final(self).hand@.len() <= MAX_HAND_SIZE,
            final(self).exhaust == old(self).exhaust,
            forall|j: int| 0 <= j < old(self).hand@.len() ==> final(self).hand@[j] == old(self).hand@[j],
            final(self).hand@.len() <= old(self).hand@.len() + count,
            final(self).hand@.len() == old(self).hand@.len() + count
                || final(self).hand@.len() == MAX_HAND_SIZE
                || (final(self).draw_pile@.len() == 0 && final(self).discard@.len() == 0),
            forall|j: int| 0 <= j < final(self).hand@.len() - old(self).hand@.len() && j < old(self).draw_pile@.len()
                ==> final(self).hand@[old(self).hand@.len() + j] == #[trigger] old(self).draw_pile@[old(self).draw_pile@.len() - 1 - j],
            final(self).hand@.len() - old(self).hand@.len() <= old(self).draw_pile@.len() ==> final(self).draw_pile@
                == old(self).draw_pile@.take(old(self).draw_pile@.len() - (final(self).hand@.len() - old(self).hand@.len())),
            cards_drawn(*old(self), *final(self), count as int),
    {
        let mut drawn: usize = 0;
        let mut k: usize = 0;
        let mut done = false;
        while k < count && !done
            invariant
                events_extended(old(events)@, events@),
                old(self).effect_frame(self),
                old(self).same_except_piles(self),
                old(self).hand@.len() <= self.hand@.len() <= MAX_HAND_SIZE,
                self.exhaust == old(self).exhaust,
                forall|j: int| 0 <= j < old(self).hand@.len() ==> self.hand@[j] == old(self).hand@[j],
                k <= count,
                drawn <= k,
                self.hand@.len() == old(self).hand@.len() + drawn,
                done ==> (self.hand@.len() == MAX_HAND_SIZE || (self.draw_pile@.len() == 0
                    && self.discard@.len() == 0)),
                !done ==> drawn == k,
                forall|j: int| 0 <= j < drawn && j < old(self).draw_pile@.len()
                    ==> self.hand@[old(self).hand@.len() + j] == #[trigger] old(self).draw_pile@[old(self).draw_pile@.len() - 1 - j],
                drawn <= old(self).draw_pile@.len() ==> self.draw_pile@ == old(self).draw_pile@.take(
                    old(self).draw_pile@.len() - drawn,
                ),
                drawn <= old(self).draw_pile@.len() ==> self.discard == old(self).discard,
                self.discard == old(self).discard || self.discard@.len() == 0,
            decreases count - k,
        {
            if self.hand.len() >= MAX_HAND_SIZE {
                done = true;
                k = count;
            } else if self.draw_pile.len() == 0 && self.discard.len() == 0 {
                done = true;
                k = count;
            } else {
                let ghost m0 = self.card_multiset();
                if self.draw_pile.len() == 0 {
                    let ghost d0 = self.draw_pile@;
                    let ghost c0 = self.discard@;
                    self.draw_pile.append(&mut self.discard);
                    proof {
                        vstd::seq_lib::lemma_multiset_commutative(d0, c0);
                        assert(self.draw_pile@ =~= d0 + c0);
                        assert(self.discard@.to_multiset() =~= Multiset::empty());
                        assert(d0.to_multiset() =~= Multiset::empty());
                    }
                    self.rng.shuffle(&mut self.draw_pile);
                    proof {
                        assert(self.card_multiset() =~= m0);
                    }
                }
                let ghost before = self.draw_pile@;
                let ghost h0 = self.hand@;
                let card = self.draw_pile.pop().unwrap();
                proof {
                    assert(before =~= self.draw_pile@.push(card));
                }
                self.hand.push(card);
                proof {
                    assert(self.hand@ =~= h0.push(card));
                    assert(self.card_multiset() =~= m0);
                }
                drawn = drawn + 1;
                k = k + 1;
            }
        }
        if drawn > 0 {
            events.push(GameEvent::CardsDrawn { count: drawn });
        }
    }

    /// Put a card into the hand, or onto the discard pile when the hand is full.
    fn push_to_hand_or_discard(&mut self, card: CardInstance)
        requires
            old(self).wf(),
        ensures
            final(self).wf(),
            final(self).card_multiset() == old(self).card_multiset().insert(card),
            old(self).same_except_piles(final(self)),
            final(self).draw_pile == old(self).draw_pile,
            final(self).exhaust == old(self).exhaust,
            final(self).hand@.len() >= old(self).hand@.len(),
            old(self).hand@.len() < MAX_HAND_SIZE ==> final(self).hand@ == old(self).hand@.push(card),
            old(self).hand@.len() >= MAX_HAND_SIZE ==> final(self).hand@ == old(self).hand@,
            old(self).hand@.len() < MAX_HAND_SIZE ==> final(self).discard == old(self).discard,
            old(self).hand@.len() >= MAX_HAND_SIZE ==> final(self).discard@ == old(self).discard@.push(card),
            *final(self) == (CombatState { hand: final(self).hand, discard: final(self).discard, ..*old(self) }),
    {
        if self.hand.len() < MAX_HAND_SIZE {
            self.hand.push(card);
        } else {
            self.discard.push(card);
        }
    }

    // ── Damage and status resolution ───────────────────────────────────

    /// Indices of the living enemies, in order.
    fn alive_enemy_indices(&self) -> (r: Vec<usize>)
        ensures
            forall|k: int| 0 <= k < r@.len() ==> #[trigger] r@[k] < self.enemies@.len() && self.enemies@[r@[k] as int].hp > 0,
            r@.len() <= self.enemies@.len(),
            (r@.len() == 0) == self.all_enemies_dead(),
    {
        let mut out: Vec<usize> = Vec::new();
        let mut i: usize = 0;
        while i < self.enemies.len()
            invariant
                i <= self.enemies@.len(),
                out@.len() <= i,
                forall|k: int| 0 <= k < out@.len() ==> #[trigger] out@[k] < i && self.enemies@[out@[k] as int].hp > 0,
                (out@.len() == 0) == (forall|j: int| 0 <= j < i ==> (#[trigger] self.enemies@[j]).hp <= 0),
            decreases self.enemies@.len() - i,
        {
            if !self.enemies[i].is_dead() {
                out.push(i);
                proof {
                    assert(self.enemies@[i as int].hp > 0);
                }
            }
            i = i + 1;
        }
        out
    }

    /// Hit one enemy with an attack of the player: the damage pipeline, then
    /// block absorption; Momentum draws a card on a hit of 12 or more.
    fn hit_enemy(
        &mut self,
        idx: usize,
        amount: i32,
        single_target: bool,
        momentum_applies: bool,
        events: &mut Vec<GameEvent>,
    )
        requires
            old(self).wf(),
            idx < old(self).enemies@.len(),
        ensures
            events_extended(old(events)@, final(events)@),
            old(self).effect_frame(final(self)),
            final(self).enemies@[idx as int].hp == clamp(
                old(self).enemies@[idx as int].hp - crate::player::spec_after_block(
                    spec_calculate_damage(
                        amount as int,
                        old(self).player.status_effects,
                        old(self).enemies@[idx as int].status_effects.present(StatusType::Threatened),
                        old(self).enemies@[idx as int].status_effects.count(StatusType::Marked),
                        single_target,
                    ),
                    old(self).enemies@[idx as int].block as int,
                ),
            ),
            forall|j: int| 0 <= j < old(self).enemies@.len() && j != idx ==> final(self).enemies@[j] == old(self).enemies@[j],
            final(self).enemies@[idx as int].status_effects == old(self).enemies@[idx as int].status_effects,
            final(self).player.hp == old(self).player.hp,
            final(self).player.block == old(self).player.block,
            final(self).player.status_effects == old(self).player.status_effects,
            final(self).player.energy == old(self).player.energy,
            final(self).concentration_active == old(self).concentration_active,
            final(self).player_took_damage_last_turn == old(self).player_took_damage_last_turn,
            final(self).pending_discards == old(self).pending_discards,
            !(momentum_applies && old(self).player.status_effects.present(StatusType::Momentum)) ==> *final(self) == (
            CombatState { enemies: final(self).enemies, ..*old(self) }),
            final(self).enemies@[idx as int].block == enemy_block_after_hit(*old(self), amount as int, idx as int, single_target),
            enemy_hit_logged(*old(self), *final(self), amount as int, idx as int, single_target, final(events)@),
    {
        let attacker = self.player.status_effects.snapshot();
        proof {
            assert(enemy_bounded(self.enemies@[idx as int]));
            assert(in_limit(self.enemies@[idx as int].status_effects.count(StatusType::Marked)));
        }
        let threatened = self.enemies[idx].status_effects.has(StatusType::Threatened);
        let marked = self.enemies[idx].status_effects.get(StatusType::Marked);
        let modified = Self::calculate_damage(amount, &attacker, threatened, marked, single_target);
        proof {
            assert(attacker.count(StatusType::Empowered) == self.player.status_effects.count(StatusType::Empowered));
            assert(attacker.count(StatusType::Rage) == self.player.status_effects.count(StatusType::Rage));
            assert(attacker.count(StatusType::SavageBlows) == self.player.status_effects.count(StatusType::SavageBlows));
            assert(attacker.count(StatusType::StanceAggressive) == self.player.status_effects.count(StatusType::StanceAggressive));
            assert(attacker.count(StatusType::StanceDefensive) == self.player.status_effects.count(StatusType::StanceDefensive));
            assert(attacker.count(StatusType::Weakened) == self.player.status_effects.count(StatusType::Weakened));
        }
        let hp_lost = self.enemy_take_hit(idx, modified);
        events.push(
            GameEvent::DamageDealt {
                target: EventTarget::Enemy(idx),
                base: amount,
                modified,
                blocked: modified - hp_lost,
                hp_lost,
            },
        );
        let ghost hit_log = events@;
        proof {
            assert(is_hit_event(hit_log[hit_log.len() - 1], EventTarget::Enemy(idx), amount as int, modified as int, hp_lost as int));
        }
        if momentum_applies && self.player.status_effects.has(StatusType::Momentum) && modified >= 12 {
            self.draw_cards(1, events);
        }
        if self.enemies[idx].is_dead() {
            events.push(GameEvent::EnemyDied { enemy_index: idx });
            proof {
                assert(events@[events@.len() - 1] == GameEvent::EnemyDied { enemy_index: idx });
            }
        }
        proof {
            assert(events@[hit_log.len() - 1] == hit_log[hit_log.len() - 1]);
        }
    }

    /// Deal attack damage from the player to the effect's target.
    fn resolve_deal_damage(
        &mut self,
        target: Target,
        amount: i32,
        target_index: Option<usize>,
        events: &mut Vec<GameEvent>,
    )
        requires
            old(self).wf(),
        ensures
            events_extended(old(events)@, final(events)@),
            old(self).effect_frame(final(self)),
            final(self).concentration_active == old(self).concentration_active,
            final(self).player_took_damage_last_turn == old(self).player_took_damage_last_turn,
            final(self).pending_discards == old(self).pending_discards,
            attack_landed(*old(self), *final(self), target, amount as int, target_index, final(events)@),
            target != Target::Player ==> final(self).player.hp == old(self).player.hp,
            final(self).player.status_effects == old(self).player.status_effects,
    {
        match target {
            Target::SingleEnemy => {
                if let Some(idx) = target_index {
                    if idx < self.enemies.len() && !self.enemies[idx].is_dead() {
                        self.hit_enemy(idx, amount, true, true, events);
                    }
                }
            },
            Target::AllEnemies => {
                let n = self.enemies.len();
                let mut i: usize = 0;
                while i < n
                    invariant
                        events_extended(old(events)@, events@),
                        old(self).effect_frame(self),
                        n == self.enemies@.len(),
                        self.concentration_active == old(self).concentration_active,
                        self.player_took_damage_last_turn == old(self).player_took_damage_last_turn,
                        self.pending_discards == old(self).pending_discards,
                        self.player.status_effects == old(self).player.status_effects,
                        self.player.hp == old(self).player.hp,
                        *self == (CombatState { enemies: self.enemies, ..*old(self) }),
                        i <= n,
                        forall|j: int| 0 <= j < i ==> if old(self).enemies@[j].hp > 0 {
                            &&& (#[trigger] self.enemies@[j]).hp == enemy_hp_after_hit(*old(self), amount as int, j, false)
                            &&& self.enemies@[j].block == enemy_block_after_hit(*old(self), amount as int, j, false)
                            &&& self.enemies@[j].status_effects == old(self).enemies@[j].status_effects
                        } else {
                            self.enemies@[j] == old(self).enemies@[j]
                        },
                        forall|j: int| 0 <= j < i && old(self).enemies@[j].hp > 0 ==> enemy_hit_logged(
                            *old(self),
                            *self,
                            amount as int,
                            j,
                            false,
                            events@,
                        ),
                        forall|j: int| i <= j < n ==> #[trigger] self.enemies@[j] == old(self).enemies@[j],
                    decreases n - i,
                {
                    let ghost pre = *self;
                    let ghost pre_log = events@;
                    if !self.enemies[i].is_dead() {
                        self.hit_enemy(i, amount, false, false, events);
                    }
                    proof {
                        lemma_log_kept(pre_log, events@);
                        assert forall|j: int| 0 <= j < i + 1 && old(self).enemies@[j].hp > 0 implies enemy_hit_logged(
                            *old(self),
                            *self,
                            amount as int,
                            j,
                            false,
                            events@,
                        ) by {
                            if j < i {
                                assert(enemy_hit_logged(*old(self), pre, amount as int, j, false, pre_log));
                                assert(self.enemies@[j] == pre.enemies@[j]);
                            } else {
                                assert(pre.enemies@[j] == old(self).enemies@[j]);
                                assert(enemy_hit_logged(pre, *self, amount as int, j, false, events@));
                            }
                        }
                    }
                    i = i + 1;
                }
            },
            Target::RandomEnemy => {
                let alive = self.alive_enemy_indices();
                if alive.len() > 0 {
                    let pick = self.rng.index_below(alive.len());
                    let idx = alive[pick];
                    self.hit_enemy(idx, amount, true, true, events);
                    proof {
                        assert(old(self).enemies@[idx as int].hp > 0);
                        assert(enemy_alone_hit(*old(self), *self, amount as int, idx as int));
                    }
                }
            },
            Target::Player => {
                let attacker = self.player.status_effects.snapshot();
                proof {
                    assert(in_limit(self.player.status_effects.count(StatusType::Marked)));
                }
                let threatened = self.player.status_effects.has(StatusType::Threatened);
                let marked = self.player.status_effects.get(StatusType::Marked);
                let modified = Self::calculate_damage(amount, &attacker, threatened, marked, false);
                proof {
                    assert(attacker.count(StatusType::Empowered) == self.player.status_effects.count(StatusType::Empowered));
                    assert(attacker.count(StatusType::Rage) == self.player.status_effects.count(StatusType::Rage));
                    assert(attacker.count(StatusType::SavageBlows) == self.player.status_effects.count(StatusType::SavageBlows));
                    assert(attacker.count(StatusType::StanceAggressive) == self.player.status_effects.count(StatusType::StanceAggressive));
                    assert(attacker.count(StatusType::StanceDefensive) == self.player.status_effects.count(StatusType::StanceDefensive));
                    assert(attacker.count(StatusType::Weakened) == self.player.status_effects.count(StatusType::Weakened));
                }
                let hp_lost = self.player_take_hit(modified);
                events.push(
                    GameEvent::DamageDealt {
                        target: EventTarget::Player,
                        base: amount,
                        modified,
                        blocked: modified - hp_lost,
                        hp_lost,
                    },
                );
                proof {
                    assert(is_hit_event(events@[events@.len() - 1], EventTarget::Player, amount as int, modified as int, hp_lost as int));
                }
            },
        }
    }

    /// Apply stacks of a status to the effect's target.
    fn resolve_apply_status(
        &mut self,
        target: Target,
        status: StatusType,
        stacks: i32,
        target_index: Option<usize>,
        events: &mut Vec<GameEvent>,
    )
        requires
            old(self).wf(),
        ensures
            events_extended(old(events)@, final(events)@),
            old(self).effect_frame(final(self)),
            final(self).concentration_active == old(self).concentration_active,
            final(self).player_took_damage_last_turn == old(self).player_took_damage_last_turn,
            final(self).pending_discards == old(self).pending_discards,
            final(self).hand == old(self).hand,
            status_applied(*old(self), *final(self), target, status, stacks as int, target_index),
            status_applied_logged(*old(self), *final(self), target, status, stacks as int, target_index, final(events)@),
    {
        match target {
            Target::SingleEnemy => {
                if let Some(idx) = target_index {
                    if idx < self.enemies.len() {
                        self.enemy_status_add(idx, status, stacks);
                        let total = self.enemies[idx].status_effects.get(status);
                        events.push(
                            GameEvent::StatusApplied {
                                target: EventTarget::Enemy(idx),
                                status,
                                stacks,
                                new_total: total,
                            },
                        );
                        proof {
                            assert(is_status_event(events@[events@.len() - 1], EventTarget::Enemy(idx), status, stacks as int, total as int));
                        }
                    }
                }
            },
            Target::AllEnemies => {
                let n = self.enemies.len();
                let mut i: usize = 0;
                while i < n
                    invariant
                        events_extended(old(events)@, events@),
                        old(self).effect_frame(self),
                        n == self.enemies@.len(),
                        self.concentration_active == old(self).concentration_active,
                        self.player_took_damage_last_turn == old(self).player_took_damage_last_turn,
                        self.pending_discards == old(self).pending_discards,
                        self.hand == old(self).hand,
                        self.player == old(self).player,
                        i <= n,
                        forall|j: int| 0 <= j < i ==> if old(self).enemies@[j].hp > 0 {
                            enemy_status_added(old(self).enemies@[j], #[trigger] self.enemies@[j], status, stacks as int)
                        } else {
                            self.enemies@[j] == old(self).enemies@[j]
                        },
                        forall|j: int| i <= j < n ==> #[trigger] self.enemies@[j] == old(self).enemies@[j],
                        forall|j: int| 0 <= j < i && old(self).enemies@[j].hp > 0 ==> has_status_event(
                            events@,
                            EventTarget::Enemy(j as usize),
                            status,
                            stacks as int,
                            (#[trigger] self.enemies@[j]).status_effects.count(status),
                        ),
                    decreases n - i,
                {
                    let ghost pre_log = events@;
                    let ghost pre = *self;
                    if !self.enemies[i].is_dead() {
                        self.enemy_status_add(i, status, stacks);
                        let total = self.enemies[i].status_effects.get(status);
                        events.push(
                            GameEvent::StatusApplied {
                                target: EventTarget::Enemy(i),
                                status,
                                stacks,
                                new_total: total,
                            },
                        );
                        proof {
                            assert(is_status_event(events@[events@.len() - 1], EventTarget::Enemy(i), status, stacks as int, total as int));
                        }
                    }
                    proof {
                        lemma_log_kept(pre_log, events@);
                    }
                    i = i + 1;
                }
            },
            Target::Player => {
                self.player_status_add(status, stacks);
                if status == StatusType::Artifice {
                    let current = self.player.status_effects.get(StatusType::Artifice);
                    if current > 20 {
                        self.player_status_add(StatusType::Artifice, 20 - current);
                    }
                }
                let total = self.player.status_effects.get(status);
                events.push(
                    GameEvent::StatusApplied {
                        target: EventTarget::Player,
                        status,
                        stacks,
                        new_total: total,
                    },
                );
                proof {
                    assert(is_status_event(events@[events@.len() - 1], EventTarget::Player, status, stacks as int, total as int));
                }
            },
            Target::RandomEnemy => {
                let alive = self.alive_enemy_indices();
                if alive.len() > 0 {
                    let pick = self.rng.index_below(alive.len());
                    let idx = alive[pick];
                    self.enemy_status_add(idx, status, stacks);
                    let total = self.enemies[idx].status_effects.get(status);
                    events.push(
                        GameEvent::StatusApplied {
                            target: EventTarget::Enemy(idx),
                            status,
                            stacks,
                            new_total: total,
                        },
                    );
                    proof {
                        assert(is_status_event(events@[events@.len() - 1], EventTarget::Enemy(idx), status, stacks as int, total as int));
                    }
                }
            },
        }
    }

    /// PainIsPower (HP loss → Rage) and WardingTotem (HP loss → 3 block).
    fn apply_hp_loss_triggers(&mut self, hp_lost: i32, events: &mut Vec<GameEvent>)
        requires
            old(self).wf(),
        ensures
            events_extended(old(events)@, final(events)@),
            *final(self) == (CombatState {
                player: PlayerState {
                    status_effects: final(self).player.status_effects,
                    block: final(self).player.block,
                    ..old(self).player
                },
                ..*old(self)
            }),
            final(self).player.block == (if hp_lost > 0 && old(self).player.status_effects.present(StatusType::WardingTotem) {
                clamp(old(self).player.block + 3)
            } else {
                old(self).player.block as int
            }),
            final(self).player.status_effects.count(StatusType::Rage) == (if hp_lost > 0
                && old(self).player.status_effects.present(StatusType::PainIsPower) {
                status_after_add(StatusType::Rage, old(self).player.status_effects.count(StatusType::Rage), hp_lost as int)
            } else {
                old(self).player.status_effects.count(StatusType::Rage)
            }),
            forall|t: StatusType| t != StatusType::Rage ==> #[trigger] final(self).player.status_effects.count(t)
                == old(self).player.status_effects.count(t),
            old(self).effect_frame(final(self)),
            final(self).player.hp == old(self).player.hp,
            final(self).player.energy == old(self).player.energy,
            final(self).player.max_energy == old(self).player.max_energy,
            final(self).enemies == old(self).enemies,
            final(self).hand == old(self).hand,
            final(self).concentration_active == old(self).concentration_active,
            final(self).player_took_damage_last_turn == old(self).player_took_damage_last_turn,
            final(self).pending_discards == old(self).pending_discards,
    {
        if hp_lost <= 0 {
            return;
        }
        if self.player.status_effects.has(StatusType::PainIsPower) {
            self.player_status_add(StatusType::Rage, hp_lost);
            let total = self.player.status_effects.get(StatusType::Rage);
            events.push(
                GameEvent::StatusApplied {
                    target: EventTarget::Player,
                    status: StatusType::Rage,
                    stacks: hp_lost,
                    new_total: total,
                },
            );
        }
        if self.player.status_effects.has(StatusType::WardingTotem) {
            self.player_gain_block(3);
            events.push(GameEvent::BlockGained { target: EventTarget::Player, amount: 3 });
        }
    }

    // ── Effect resolution ──────────────────────────────────────────────

    /// Whether the card with this id is a concentration card.
    fn is_concentration(content: &ContentTables, id: &CardId) -> (r: bool)
        ensures
            r == (match content.spec_card(id@) {
                Some(d) => d.concentration,
                None => false,
            }),
    {
        match content.card_def(id) {
            Some(d) => d.concentration,
            None => false,
        }
    }

    /// Move every concentration card of the hand to the discard pile.
    fn discard_concentration_cards(&mut self, content: &ContentTables, events: &mut Vec<GameEvent>)
        requires
            old(self).wf(),
        ensures
            events_extended(old(events)@, final(events)@),
            old(self).effect_frame(final(self)),
            old(self).same_except_piles(final(self)),
            final(self).draw_pile == old(self).draw_pile,
            final(self).exhaust == old(self).exhaust,
            final(self).hand@.len() <= old(self).hand@.len(),
            final(self).hand@ == non_concentration_cards(content, old(self).hand@),
            final(self).discard@ == old(self).discard@ + concentration_cards_last_first(content, old(self).hand@),
    {
        let ghost oh = self.hand@;
        let ghost od = self.discard@;
        let mut i = self.hand.len();
        proof {
            assert(oh.skip(i as int) =~= Seq::<CardInstance>::empty());
            assert(oh.take(i as int) =~= oh);
            assert(self.hand@ =~= oh.take(i as int) + non_concentration_cards(content, oh.skip(i as int)));
            assert(self.discard@ =~= od + concentration_cards_last_first(content, oh.skip(i as int)));
        }
        while i > 0
            invariant
                events_extended(old(events)@, events@),
                old(self).effect_frame(self),
                old(self).same_except_piles(self),
                self.draw_pile == old(self).draw_pile,
                self.exhaust == old(self).exhaust,
                self.hand@.len() <= old(self).hand@.len(),
                oh == old(self).hand@,
                od == old(self).discard@,
                i <= oh.len(),
                self.hand@ == oh.take(i as int) + non_concentration_cards(content, oh.skip(i as int)),
                self.discard@ == od + concentration_cards_last_first(content, oh.skip(i as int)),
            decreases i,
        {
            i = i - 1;
            proof {
                assert(oh.skip(i as int).drop_first() =~= oh.skip(i + 1));
                assert(oh.skip(i as int)[0] == oh[i as int]);
                assert(self.hand@[i as int] == oh[i as int]);
            }
            if Self::is_concentration(content, &self.hand[i].def_id) {
                let ghost m0 = self.card_multiset();
                let ghost h0 = self.hand@;
                let ghost c0 = self.discard@;
                let removed = self.hand.remove(i);
                events.push(GameEvent::CardDiscarded { card_id: removed.def_id.clone() });
                self.discard.push(removed);
                proof {
                    assert(self.hand@ =~= h0.remove(i as int));
                    assert(self.discard@ =~= c0.push(removed));
                    assert(self.card_multiset() =~= m0);
                    assert(self.hand@ =~= oh.take(i as int) + non_concentration_cards(content, oh.skip(i as int)));
                    assert(self.discard@ =~= od + concentration_cards_last_first(content, oh.skip(i as int)));
                }
            } else {
                proof {
                    assert(self.hand@ =~= oh.take(i as int) + non_concentration_cards(content, oh.skip(i as int)));
                }
            }
        }
        proof {
            assert(oh.take(0) + non_concentration_cards(content, oh.skip(0)) =~= non_concentration_cards(content, oh));
            assert(oh.skip(0) =~= oh);
        }
    }

    /// Remove every present status of a list from the player.
    fn player_clear_statuses(&mut self, list: &[StatusType; 3])
        requires
            old(self).wf(),
        ensures
            forall|t: StatusType| #[trigger] final(self).player.status_effects.count(t) == count_after_clearing(
                list@,
                t,
                old(self).player.status_effects.count(t),
            ),
            *final(self) == (CombatState { player: PlayerState { status_effects: final(self).player.status_effects, ..old(self).player }, ..*old(self) }),
            old(self).effect_frame(final(self)),
            final(self).player.hp == old(self).player.hp,
            final(self).enemies == old(self).enemies,
            final(self).hand == old(self).hand,
            final(self).concentration_active == old(self).concentration_active,
            final(self).player_took_damage_last_turn == old(self).player_took_damage_last_turn,
            final(self).pending_discards == old(self).pending_discards,
    {
        let mut k: usize = 0;
        while k < 3
            invariant
                old(self).effect_frame(self),
                self.player.hp == old(self).player.hp,
                self.enemies == old(self).enemies,
                self.hand == old(self).hand,
                self.concentration_active == old(self).concentration_active,
                self.player_took_damage_last_turn == old(self).player_took_damage_last_turn,
                self.pending_discards == old(self).pending_discards,
                k <= 3,
                forall|t: StatusType| #[trigger] self.player.status_effects.count(t) == count_after_clearing(
                    list@.take(k as int),
                    t,
                    old(self).player.status_effects.count(t),
                ),
                *self == (CombatState { player: PlayerState { status_effects: self.player.status_effects, ..old(self).player }, ..*old(self) }),
            decreases 3 - k,
        {
            let st = list[k];
            proof {
                assert(list@.take(k + 1).drop_last() =~= list@.take(k as int));
                assert(list@.take(k + 1).last() == st);
            }
            if self.player.status_effects.has(st) {
                self.player_status_add(st, -1);
            }
            k = k + 1;
        }
        proof {
            assert(list@.take(3) =~= list@);
        }
    }

    /// Block gained by the player, with the Defensive Stance bonus when asked.
    fn gain_player_block_event(&mut self, gain: i64, stance_bonus: bool, only_positive: bool, events: &mut Vec<GameEvent>)
        requires
            old(self).wf(),
            -0x1_0000_0000 <= gain <= 0x1_0000_0000,
        ensures
            events_extended(old(events)@, final(events)@),
            final(self).player.block == clamp(old(self).player.block + block_gain_amount(
                gain as int,
                stance_bonus && old(self).player.status_effects.present(StatusType::StanceDefensive),
            )),
            *final(self) == (CombatState { player: PlayerState { block: final(self).player.block, ..old(self).player }, ..*old(self) }),
            old(self).effect_frame(final(self)),
            final(self).player.hp == old(self).player.hp,
            final(self).enemies == old(self).enemies,
            final(self).hand == old(self).hand,
            final(self).concentration_active == old(self).concentration_active,
            final(self).player_took_damage_last_turn == old(self).player_took_damage_last_turn,
            final(self).pending_discards == old(self).pending_discards,
    {
        let mut g = gain;
        if stance_bonus && self.player.status_effects.has(StatusType::StanceDefensive) {
            g = g + 3;
        }
        if g < 0 {
            g = 0;
        }
        let amount = clamp64(g);
        if !only_positive || amount > 0 {
            self.player_gain_block(amount);
            events.push(GameEvent::BlockGained { target: EventTarget::Player, amount });
        }
    }

    fn resolve_block_effect(&mut self, effect: Effect, events: &mut Vec<GameEvent>)
        requires
            old(self).wf(),
        ensures
            events_extended(old(events)@, final(events)@),
            old(self).effect_frame(final(self)),
            final(self).player.hp == old(self).player.hp,
            final(self).enemies == old(self).enemies,
            final(self).hand == old(self).hand,
            final(self).concentration_active == old(self).concentration_active,
            final(self).player_took_damage_last_turn == old(self).player_took_damage_last_turn,
            final(self).pending_discards == old(self).pending_discards,
            *final(self) == (CombatState {
                player: PlayerState {
                    block: final(self).player.block,
                    status_effects: final(self).player.status_effects,
                    ..old(self).player
                },
                ..*old(self)
            }),
            final(self).player.block == match block_effect_gain(effect, old(self).player, old(self).player_took_damage_last_turn) {
                Some(gs) => clamp(old(self).player.block + block_gain_amount(
                    gs.0,
                    gs.1 && old(self).player.status_effects.present(StatusType::StanceDefensive),
                )),
                None => old(self).player.block as int,
            },
            match block_effect_spend(effect, old(self).player) {
                Some(sd) => {
                    &&& final(self).player.status_effects.count(sd.0) == status_after_add(
                        sd.0,
                        old(self).player.status_effects.count(sd.0),
                        sd.1,
                    )
                    &&& forall|t: StatusType| t != sd.0 ==> #[trigger] final(self).player.status_effects.count(t)
                        == old(self).player.status_effects.count(t)
                },
                None => forall|t: StatusType| #[trigger] final(self).player.status_effects.count(t)
                    == old(self).player.status_effects.count(t),
            },
            block_effect_done(effect, *old(self), *final(self)),
    {
        proof {
            assert(in_limit(self.player.status_effects.count(StatusType::Ki)));
            assert(in_limit(self.player.status_effects.count(StatusType::Smite)));
        }
        match effect {
            Effect::GainBlock { amount } => {
                let g: i64 = if amount > 0 { amount as i64 } else { 0 };
                self.gain_player_block_event(g, true, false, events);
            },
            Effect::GainBlockIfDamagedLastTurn { amount } => {
                if self.player_took_damage_last_turn {
                    self.gain_player_block_event(amount as i64, false, false, events);
                }
            },
            Effect::BlockEqualMissingHp { max } => {
                let mut missing: i64 = self.player.max_hp as i64 - self.player.hp as i64;
                if missing < 0 {
                    missing = 0;
                }
                let g = if missing < max as i64 { missing } else { max as i64 };
                self.gain_player_block_event(g, false, false, events);
            },
            Effect::GainBlockPerStatusStack { status, multiplier } => {
                proof {
                    assert(in_limit(self.player.status_effects.count(status)));
                }
                let stacks = self.player.status_effects.get(status);
                let g = clamp64(mul64(stacks as i64, multiplier as i64));
                self.gain_player_block_event(g as i64, false, false, events);
            },
            Effect::GainBlockConditional { amount, bonus_amount } => {
                let g = if self.player.block > 0 { bonus_amount } else { amount };
                self.gain_player_block_event(g as i64, false, false, events);
            },
            Effect::GainBlockSpendKi { base, ki_cost, bonus } => {
                let ki = self.player.status_effects.get(StatusType::Ki);
                let g = if ki >= ki_cost {
                    self.player_status_add(StatusType::Ki, clamp64(-(ki_cost as i64)));
                    bonus
                } else {
                    base
                };
                self.gain_player_block_event(g as i64, true, false, events);
            },
            Effect::GainBlockPerKiStack { multiplier } => {
                let ki = self.player.status_effects.get(StatusType::Ki);
                let mut g = clamp64(mul64(ki as i64, multiplier as i64)) as i64;
                if g < 0 {
                    g = 0;
                }
                self.gain_player_block_event(g, true, false, events);
            },
            Effect::GainBlockSpendSmite { base, smite_cost, bonus } => {
                let smite = self.player.status_effects.get(StatusType::Smite);
                let g = if smite >= smite_cost {
                    self.player_status_add(StatusType::Smite, clamp64(-(smite_cost as i64)));
                    bonus
                } else {
                    base
                };
                self.gain_player_block_event(g as i64, false, false, events);
            },
            Effect::GainBlockWithFormBonus { base, status, bonus } => {
                let g: i64 = if self.player.status_effects.has(status) {
                    base as i64 + bonus as i64
                } else {
                    base as i64
                };
                self.gain_player_block_event(g, true, true, events);
            },
            _ => {},
        }
    }

    /// Deal attack damage (see `resolve_deal_damage`).
    fn deal(&mut self, target: Target, amount: i32, target_index: Option<usize>, events: &mut Vec<GameEvent>)
        requires
            old(self).wf(),
        ensures
            events_extended(old(events)@, final(events)@),
            attack_landed(*old(self), *final(self), target, amount as int, target_index, final(events)@),
            target != Target::Player ==> final(self).player.hp == old(self).player.hp,
            final(self).player.status_effects == old(self).player.status_effects,
            old(self).effect_frame(final(self)),
            final(self).concentration_active == old(self).concentration_active,
            final(self).player_took_damage_last_turn == old(self).player_took_damage_last_turn,
            final(self).pending_discards == old(self).pending_discards,
    {
        self.resolve_deal_damage(target, amount, target_index, events);
    }

    /// Resolve an attack effect of a played card (the first group).
    #[verifier::spinoff_prover]
    fn resolve_damage_effect(
        &mut self,
        effect: Effect,
        target_index: Option<usize>,
        events: &mut Vec<GameEvent>,
    )
        requires
            old(self).wf(),
        ensures
            events_extended(old(events)@, final(events)@),
            old(self).effect_frame(final(self)),
            final(self).concentration_active == old(self).concentration_active,
            final(self).player_took_damage_last_turn == old(self).player_took_damage_last_turn,
            final(self).pending_discards == old(self).pending_discards,
            damage_effect_done(effect, *old(self), *final(self), target_index, final(events)@),
    {
        match effect {
            Effect::DealDamageIfMarked { .. } | Effect::DealDamagePerMarkedStack { .. } | Effect::DealDamageScaledByMarked {
                ..
            } => self.resolve_marked_damage_effect(effect, target_index, events),
            _ => self.resolve_plain_damage_effect(effect, target_index, events),
        }
    }

    /// The damage effects that do not read Marked stacks.
    #[verifier::spinoff_prover]
    #[verifier::rlimit(80)]
    fn resolve_plain_damage_effect(
        &mut self,
        effect: Effect,
        target_index: Option<usize>,
        events: &mut Vec<GameEvent>,
    )
        requires
            old(self).wf(),
            !(effect is DealDamageIfMarked || effect is DealDamagePerMarkedStack || effect is DealDamageScaledByMarked),
        ensures
            events_extended(old(events)@, final(events)@),
            old(self).effect_frame(final(self)),
            final(self).concentration_active == old(self).concentration_active,
            final(self).player_took_damage_last_turn == old(self).player_took_damage_last_turn,
            final(self).pending_discards == old(self).pending_discards,
            damage_effect_done(effect, *old(self), *final(self), target_index, final(events)@),
    {
        proof {
            assert(in_limit(self.player.status_effects.count(StatusType::Ki)));
            assert(in_limit(self.player.status_effects.count(StatusType::Smite)));
            assert(in_limit(self.player.status_effects.count(StatusType::Artifice)));
        }
        match effect {
            Effect::DealDamage { target, amount } => {
                self.deal(target, amount, target_index, events);
            },
            Effect::DealDamageIfDamagedLastTurn { target, amount } => {
                if self.player_took_damage_last_turn {
                    self.deal(target, amount, target_index, events);
                }
            },
            Effect::DealDamageIfTargetDebuffed { target, amount, bonus } => {
                let has_debuff = match target {
                    Target::SingleEnemy => match target_index {
                        Some(idx) => idx < self.enemies.len()
                            && self.enemies[idx].status_effects.has_any_debuff(),
                        None => false,
                    },
                    _ => false,
                };
                let a = if has_debuff { clamp64(amount as i64 + bonus as i64) } else { amount };
                self.deal(target, a, target_index, events);
            },
            Effect::DealDamageIfEnemyBlocked { target, amount, bonus } => {
                let has_block = match target {
                    Target::SingleEnemy => match target_index {
                        Some(idx) => idx < self.enemies.len() && self.enemies[idx].block > 0,
                        None => false,
                    },
                    _ => false,
                };
                let a = if has_block { clamp64(amount as i64 + bonus as i64) } else { amount };
                self.deal(target, a, target_index, events);
            },
            Effect::DealDamageEqualBlock { target } => {
                let a = self.player.block;
                self.deal(target, a, target_index, events);
            },
            Effect::DealDamagePerCardPlayed { target, per_card } => {
                let a = clamp64(mul64(per_card as i64, self.cards_played_this_turn as i64));
                self.deal(target, a, target_index, events);
            },
            _ => {},
        }
    }

    /// The damage effects that read the target's Marked stacks.
    #[verifier::spinoff_prover]
    #[verifier::rlimit(80)]
    fn resolve_marked_damage_effect(
        &mut self,
        effect: Effect,
        target_index: Option<usize>,
        events: &mut Vec<GameEvent>,
    )
        requires
            old(self).wf(),
            effect is DealDamageIfMarked || effect is DealDamagePerMarkedStack || effect is DealDamageScaledByMarked,
        ensures
            events_extended(old(events)@, final(events)@),
            old(self).effect_frame(final(self)),
            final(self).concentration_active == old(self).concentration_active,
            final(self).player_took_damage_last_turn == old(self).player_took_damage_last_turn,
            final(self).pending_discards == old(self).pending_discards,
            damage_effect_done(effect, *old(self), *final(self), target_index, final(events)@),
    {
        proof {
            assert(in_limit(self.player.status_effects.count(StatusType::Ki)));
            assert(in_limit(self.player.status_effects.count(StatusType::Smite)));
            assert(in_limit(self.player.status_effects.count(StatusType::Artifice)));
        }
        match effect {
            Effect::DealDamageIfMarked { target, amount } => {
                let has_marked = match target {
                    Target::SingleEnemy => match target_index {
                        Some(idx) => idx < self.enemies.len()
                            && self.enemies[idx].status_effects.get(StatusType::Marked) > 0,
                        None => false,
                    },
                    _ => false,
                };
                if has_marked {
                    self.deal(target, amount, target_index, events);
                }
            },
            Effect::DealDamagePerMarkedStack { target, per_stack } => {
                if target == Target::SingleEnemy {
                    if let Some(idx) = target_index {
                        if idx < self.enemies.len() && !self.enemies[idx].is_dead() {
                            proof {
                                assert(enemy_bounded(self.enemies@[idx as int]));
                                assert(in_limit(self.enemies@[idx as int].status_effects.count(StatusType::Marked)));
                            }
                            let stacks = self.enemies[idx].status_effects.get(StatusType::Marked);
                            if stacks > 0 {
                                let a = clamp64(mul64(per_stack as i64, stacks as i64));
                                self.deal(target, a, target_index, events);
                                self.enemy_status_add(idx, StatusType::Marked, -stacks);
                            }
                        }
                    }
                }
            },
            Effect::DealDamageScaledByMarked { target, base_damage, per_stack } => {
                if target == Target::SingleEnemy {
                    if let Some(idx) = target_index {
                        if idx < self.enemies.len() && !self.enemies[idx].is_dead() {
                            proof {
                                assert(enemy_bounded(self.enemies@[idx as int]));
                                assert(in_limit(self.enemies@[idx as int].status_effects.count(StatusType::Marked)));
                            }
                            let stacks = self.enemies[idx].status_effects.get(StatusType::Marked);
                            let a = clamp64(base_damage as i64 + mul64(per_stack as i64, stacks as i64));
                            self.deal(target, a, target_index, events);
                        }
                    }
                }
            },
            _ => {},
        }
    }

    /// Resolve an attack effect of a played card (the second group).
    fn resolve_damage_effect_more(
        &mut self,
        effect: Effect,
        target_index: Option<usize>,
        events: &mut Vec<GameEvent>,
    )
        requires
            old(self).wf(),
        ensures
            events_extended(old(events)@, final(events)@),
            old(self).effect_frame(final(self)),
            final(self).concentration_active == old(self).concentration_active,
            final(self).player_took_damage_last_turn == old(self).player_took_damage_last_turn,
            final(self).pending_discards == old(self).pending_discards,
            damage_more_done(effect, *old(self), *final(self), target_index, final(events)@),
    {
        match effect {
            Effect::DealDamagePerDebuffOnTarget { .. } | Effect::DealDamageScaledByMissingHpEnemy { .. } => {
                self.resolve_enemy_scaled_damage_effect(effect, target_index, events);
            },
            Effect::DealDamageSpendKi { .. } | Effect::DealDamageSpendArtifice { .. } | Effect::DealDamageSpendSmite {
                ..
            } => {
                self.resolve_spending_damage_effect(effect, target_index, events);
            },
            Effect::DealDamageScaledByMissingHp { .. } | Effect::DealDamagePerPlayerStatus { .. }
            | Effect::DealDamageIfInWildShape { .. } | Effect::DealDamageWithFormBonus { .. }
            | Effect::DealDamageIfPlayerHasStatus { .. } => {
                self.resolve_player_scaled_damage_effect(effect, target_index, events);
            },
            _ => {},
        }
    }

    /// The damage effects scaled by the target enemy.
    #[verifier::spinoff_prover]
    #[verifier::rlimit(80)]
    fn resolve_enemy_scaled_damage_effect(
        &mut self,
        effect: Effect,
        target_index: Option<usize>,
        events: &mut Vec<GameEvent>,
    )
        requires
            old(self).wf(),
            effect is DealDamagePerDebuffOnTarget
                || effect is DealDamageScaledByMissingHpEnemy,
        ensures
            events_extended(old(events)@, final(events)@),
            old(self).effect_frame(final(self)),
            final(self).concentration_active == old(self).concentration_active,
            final(self).player_took_damage_last_turn == old(self).player_took_damage_last_turn,
            final(self).pending_discards == old(self).pending_discards,
            damage_more_done(effect, *old(self), *final(self), target_index, final(events)@),
    {
        proof {
            assert(in_limit(self.player.status_effects.count(StatusType::Ki)));
            assert(in_limit(self.player.status_effects.count(StatusType::Smite)));
            assert(in_limit(self.player.status_effects.count(StatusType::Artifice)));
        }
        match effect {
            Effect::DealDamagePerDebuffOnTarget { target, base, per_debuff } => {
                match target {
                    Target::SingleEnemy => {
                        if let Some(idx) = target_index {
                            if idx < self.enemies.len() && !self.enemies[idx].is_dead() {
                                proof {
                                    assert(enemy_bounded(self.enemies@[idx as int]));
                                }
                                let dc = self.enemies[idx].status_effects.debuff_count();
                                let a = clamp64(base as i64 + mul64(per_debuff as i64, dc as i64));
                                self.deal(target, a, target_index, events);
                            }
                        }
                    },
                    Target::AllEnemies => {
                        let n = self.enemies.len();
                        let mut i: usize = 0;
                        while i < n
                            invariant
                                events_extended(old(events)@, events@),
                                old(self).effect_frame(self),
                                n == self.enemies@.len(),
                                self.concentration_active == old(self).concentration_active,
                                self.player_took_damage_last_turn == old(self).player_took_damage_last_turn,
                                self.pending_discards == old(self).pending_discards,
                                enemies_only_worn(*old(self), *self),
                                target == Target::AllEnemies,
                            decreases n - i,
                        {
                            if !self.enemies[i].is_dead() {
                                proof {
                                    assert(enemy_bounded(self.enemies@[i as int]));
                                }
                                let dc = self.enemies[i].status_effects.debuff_count();
                                let a = clamp64(base as i64 + mul64(per_debuff as i64, dc as i64));
                                let ghost pre = *self;
                                self.deal(target, a, Some(i), events);
                                proof {
                                    assert forall|j: int| 0 <= j < pre.enemies@.len() implies enemy_bounded(
                                        #[trigger] pre.enemies@[j],
                                    ) by {}
                                    assert(self.player.hp == pre.player.hp);
                                    assert(self.player.status_effects == pre.player.status_effects);
                                    assert forall|j: int| 0 <= j < pre.enemies@.len() && pre.enemies@[j].hp > 0 implies (
                                        #[trigger] self.enemies@[j]).hp <= pre.enemies@[j].hp by {
                                        assert(enemy_bounded(pre.enemies@[j]));
                                        assert(self.enemies@[j].hp == enemy_hp_after_hit(pre, a as int, j, false));
                                    }
                                    assert(enemies_only_worn(pre, *self));
                                }
                            }
                            i = i + 1;
                        }
                    },
                    _ => {},
                }
            },
            Effect::DealDamageScaledByMissingHpEnemy { target, base, per_10_percent_missing } => {
                match target {
                    Target::SingleEnemy => {
                        if let Some(idx) = target_index {
                            if idx < self.enemies.len() && !self.enemies[idx].is_dead() {
                                let a = self.execute_damage_amount(idx, base, per_10_percent_missing);
                                self.deal(target, a, target_index, events);
                            }
                        }
                    },
                    Target::AllEnemies => {
                        let n = self.enemies.len();
                        let mut i: usize = 0;
                        while i < n
                            invariant
                                events_extended(old(events)@, events@),
                                old(self).effect_frame(self),
                                n == self.enemies@.len(),
                                self.concentration_active == old(self).concentration_active,
                                self.player_took_damage_last_turn == old(self).player_took_damage_last_turn,
                                self.pending_discards == old(self).pending_discards,
                                enemies_only_worn(*old(self), *self),
                                target == Target::AllEnemies,
                            decreases n - i,
                        {
                            if !self.enemies[i].is_dead() {
                                let a = self.execute_damage_amount(i, base, per_10_percent_missing);
                                let ghost pre = *self;
                                self.deal(target, a, Some(i), events);
                                proof {
                                    assert forall|j: int| 0 <= j < pre.enemies@.len() implies enemy_bounded(
                                        #[trigger] pre.enemies@[j],
                                    ) by {}
                                    assert(self.player.hp == pre.player.hp);
                                    assert(self.player.status_effects == pre.player.status_effects);
                                    assert forall|j: int| 0 <= j < pre.enemies@.len() && pre.enemies@[j].hp > 0 implies (
                                        #[trigger] self.enemies@[j]).hp <= pre.enemies@[j].hp by {
                                        assert(enemy_bounded(pre.enemies@[j]));
                                        assert(self.enemies@[j].hp == enemy_hp_after_hit(pre, a as int, j, false));
                                    }
                                    assert(enemies_only_worn(pre, *self));
                                }
                            }
                            i = i + 1;
                        }
                    },
                    _ => {},
                }
            },
            _ => {},
        }
    }

    /// The damage effects that may spend a resource for a bonus.
    #[verifier::spinoff_prover]
    #[verifier::rlimit(80)]
    fn resolve_spending_damage_effect(
        &mut self,
        effect: Effect,
        target_index: Option<usize>,
        events: &mut Vec<GameEvent>,
    )
        requires
            old(self).wf(),
            effect is DealDamageSpendKi
                || effect is DealDamageSpendArtifice
                || effect is DealDamageSpendSmite,
        ensures
            events_extended(old(events)@, final(events)@),
            old(self).effect_frame(final(self)),
            final(self).concentration_active == old(self).concentration_active,
            final(self).player_took_damage_last_turn == old(self).player_took_damage_last_turn,
            final(self).pending_discards == old(self).pending_discards,
            damage_more_done(effect, *old(self), *final(self), target_index, final(events)@),
    {
        proof {
            assert(in_limit(self.player.status_effects.count(StatusType::Ki)));
            assert(in_limit(self.player.status_effects.count(StatusType::Smite)));
            assert(in_limit(self.player.status_effects.count(StatusType::Artifice)));
        }
        match effect {
            Effect::DealDamageSpendKi { target, base, ki_cost, bonus } => {
                let ki = self.player.status_effects.get(StatusType::Ki);
                let a = if ki >= ki_cost {
                    self.player_status_add(StatusType::Ki, clamp64(-(ki_cost as i64)));
                    bonus
                } else {
                    base
                };
                self.deal(target, a, target_index, events);
            },
            Effect::DealDamageSpendArtifice { target, base, artifice_cost, bonus } => {
                let art = self.player.status_effects.get(StatusType::Artifice);
                let a = if art >= artifice_cost {
                    self.player_status_add(StatusType::Artifice, clamp64(-(artifice_cost as i64)));
                    bonus
                } else {
                    base
                };
                self.deal(target, a, target_index, events);
            },
            Effect::DealDamageSpendSmite { target, base, smite_cost, bonus } => {
                let smite = self.player.status_effects.get(StatusType::Smite);
                let a = if smite >= smite_cost {
                    self.player_status_add(StatusType::Smite, clamp64(-(smite_cost as i64)));
                    bonus
                } else {
                    base
                };
                self.deal(target, a, target_index, events);
            },
            _ => {},
        }
    }

    /// The damage effects scaled by or conditioned on the player.
    #[verifier::spinoff_prover]
    #[verifier::rlimit(80)]
    fn resolve_player_scaled_damage_effect(
        &mut self,
        effect: Effect,
        target_index: Option<usize>,
        events: &mut Vec<GameEvent>,
    )
        requires
            old(self).wf(),
            effect is DealDamageScaledByMissingHp
                || effect is DealDamagePerPlayerStatus
                || effect is DealDamageIfInWildShape
                || effect is DealDamageWithFormBonus
                || effect is DealDamageIfPlayerHasStatus,
        ensures
            events_extended(old(events)@, final(events)@),
            old(self).effect_frame(final(self)),
            final(self).concentration_active == old(self).concentration_active,
            final(self).player_took_damage_last_turn == old(self).player_took_damage_last_turn,
            final(self).pending_discards == old(self).pending_discards,
            damage_more_done(effect, *old(self), *final(self), target_index, final(events)@),
    {
        proof {
            assert(in_limit(self.player.status_effects.count(StatusType::Ki)));
            assert(in_limit(self.player.status_effects.count(StatusType::Smite)));
            assert(in_limit(self.player.status_effects.count(StatusType::Artifice)));
        }
        match effect {
            Effect::DealDamageScaledByMissingHp { target, base, per_5_missing, cap } => {
                let mut missing: i64 = self.player.max_hp as i64 - self.player.hp as i64;
                if missing < 0 {
                    missing = 0;
                }
                let raw = mul64(missing / 5, per_5_missing as i64);
                let bonus = if raw < cap as i64 { raw } else { cap as i64 };
                let a = clamp64(base as i64 + bonus);
                self.deal(target, a, target_index, events);
            },
            Effect::DealDamagePerPlayerStatus { target, status, per_stack } => {
                proof {
                    assert(in_limit(self.player.status_effects.count(status)));
                }
                let stacks = self.player.status_effects.get(status);
                let a = mul64(per_stack as i64, stacks as i64);
                if a > 0 {
                    self.deal(target, clamp64(a), target_index, events);
                }
            },
            Effect::DealDamageIfInWildShape { target, base, bonus } => {
                let in_wild_shape = self.player.status_effects.has(StatusType::WildShapeBear)
                    || self.player.status_effects.has(StatusType::WildShapeEagle)
                    || self.player.status_effects.has(StatusType::WildShapeWolf);
                let a = if in_wild_shape { clamp64(base as i64 + bonus as i64) } else { base };
                self.deal(target, a, target_index, events);
            },
            Effect::DealDamageWithFormBonus { target, base, status, bonus } => {
                let a = if self.player.status_effects.has(status) {
                    clamp64(base as i64 + bonus as i64)
                } else {
                    base
                };
                self.deal(target, a, target_index, events);
            },
            Effect::DealDamageIfPlayerHasStatus { target, status, amount } => {
                if self.player.status_effects.has(status) {
                    self.deal(target, amount, target_index, events);
                }
            },
            _ => {},
        }
    }

    #[verifier::spinoff_prover]
    #[verifier::rlimit(80)]
    fn resolve_misc_effect(
        &mut self,
        effect: Effect,
        target_index: Option<usize>,
        events: &mut Vec<GameEvent>,
    )
        requires
            old(self).wf(),
        ensures
            events_extended(old(events)@, final(events)@),
            old(self).play_frame(final(self)),
            final(self).player.max_energy == old(self).player.max_energy,
            final(self).player.energy == energy_step(old(self).player.energy as int, effect),
            final(self).concentration_active == old(self).concentration_active,
            final(self).player_took_damage_last_turn == old(self).player_took_damage_last_turn,
            misc_effect_done(effect, *old(self), *final(self), target_index),
            misc_effect_logged(effect, *old(self), *final(self), target_index, final(events)@),
    {
        match effect {
            Effect::ApplyStatus { target, status, stacks } => {
                self.resolve_apply_status(target, status, stacks, target_index, events);
            },
            Effect::DrawCards { count } => {
                self.draw_cards(count, events);
            },
            Effect::GainEnergy { amount } => {
                self.player.energy = clamp64(self.player.energy as i64 + amount as i64);
                events.push(GameEvent::EnergyGained { amount });
                proof {
                    assert(events@[events@.len() - 1] == GameEvent::EnergyGained { amount });
                }
            },
            Effect::Heal { amount } => {
                let h = clamp64(self.player.hp as i64 + amount as i64);
                self.player.hp = if h < self.player.max_hp { h } else { self.player.max_hp };
                events.push(
                    GameEvent::Healed {
                        target: EventTarget::Player,
                        amount,
                        new_hp: self.player.hp,
                    },
                );
                proof {
                    assert(events@[events@.len() - 1] == GameEvent::Healed { target: EventTarget::Player, amount, new_hp: self.player.hp });
                }
            },
            Effect::LoseHp { amount } => {
                let old_hp = self.player.hp;
                let h = clamp64(self.player.hp as i64 - amount as i64);
                self.player.hp = if h > 0 { h } else { 0 };
                let hp_lost = old_hp - self.player.hp;
                events.push(
                    GameEvent::DamageDealt {
                        target: EventTarget::Player,
                        base: amount,
                        modified: amount,
                        blocked: 0,
                        hp_lost,
                    },
                );
                let ghost lost_log = events@;
                proof {
                    assert(lost_log[lost_log.len() - 1] matches GameEvent::DamageDealt { target: t, base: b, hp_lost: h, .. }
                        && t == EventTarget::Player && b == amount && h == hp_lost);
                    assert(has_damage_event(lost_log, EventTarget::Player, amount as int, hp_lost as int));
                }
                self.apply_hp_loss_triggers(hp_lost, events);
                proof {
                    lemma_log_kept(lost_log, events@);
                }
            },
            Effect::DrawAndDiscard { draw, discard } => {
                self.draw_cards(draw, events);
                let hl = self.hand.len();
                self.pending_discards = if discard < hl { discard } else { hl };
            },
            Effect::RemoveEnemyBlock { target, amount } => {
                match target {
                    Target::SingleEnemy => {
                        if let Some(idx) = target_index {
                            if idx < self.enemies.len() {
                                self.enemy_lose_block(idx, amount);
                            }
                        }
                    },
                    Target::AllEnemies => {
                        let n = self.enemies.len();
                        let mut i: usize = 0;
                        while i < n
                            invariant
                                events_extended(old(events)@, events@),
                                old(self).effect_frame(self),
                                n == self.enemies@.len(),
                                self.concentration_active == old(self).concentration_active,
                                self.player_took_damage_last_turn == old(self).player_took_damage_last_turn,
                                *self == (CombatState { enemies: self.enemies, ..*old(self) }),
                                i <= n,
                                forall|j: int| 0 <= j < i ==> if old(self).enemies@[j].hp > 0 {
                                    enemy_block_removed(old(self).enemies@[j], #[trigger] self.enemies@[j], amount as int)
                                } else {
                                    self.enemies@[j] == old(self).enemies@[j]
                                },
                                forall|j: int| i <= j < n ==> #[trigger] self.enemies@[j] == old(self).enemies@[j],
                            decreases n - i,
                        {
                            if !self.enemies[i].is_dead() {
                                self.enemy_lose_block(i, amount);
                            }
                            i = i + 1;
                        }
                    },
                    _ => {},
                }
            },
            Effect::ApplyStatusPerCardPlayed { target, status, per_card } => {
                let total = clamp64(mul64(per_card as i64, self.cards_played_this_turn as i64));
                self.resolve_apply_status(target, status, total, target_index, events);
            },
            Effect::DrawPerEnemyWithStatus { status } => {
                let n = self.enemies.len();
                let mut count: usize = 0;
                let mut i: usize = 0;
                while i < n
                    invariant
                        events_extended(old(events)@, events@),
                        n == self.enemies@.len(),
                        count <= i,
                        self.wf(),
                        *self == *old(self),
                        i <= n,
                        count == living_with_status(self.enemies@.take(i as int), status),
                    decreases n - i,
                {
                    proof {
                        assert(self.enemies@.take(i + 1).drop_last() =~= self.enemies@.take(i as int));
                    }
                    proof {
                        assert(enemy_bounded(self.enemies@[i as int]));
                    }
                    if !self.enemies[i].is_dead() && self.enemies[i].status_effects.has(status) {
                        count = count + 1;
                    }
                    i = i + 1;
                }
                proof {
                    assert(self.enemies@.take(n as int) =~= self.enemies@);
                }
                if count > 0 {
                    self.draw_cards(count, events);
                }
            },
            Effect::BlockFloor { amount } => {
                self.block_floor = clamp64(amount as i64);
            },
            Effect::RetainBlockPartial { amount } => {
                self.retain_block_cap = clamp64(amount as i64);
            },
            Effect::DoubleStatus { target, status } => {
                self.resolve_double_status(target, status, target_index, events);
            },
            Effect::DrawCardsWithFormBonus { base_draw, status, bonus_draw } => {
                let count = if self.player.status_effects.has(status) {
                    base_draw.saturating_add(bonus_draw)
                } else {
                    base_draw
                };
                if count > 0 {
                    self.draw_cards(count, events);
                }
            },
            Effect::ApplyStatusIfPlayerHasStatus { status, stacks, require_status, require_stacks } => {
                if self.player.status_effects.get(require_status) >= require_stacks {
                    self.player_status_add(status, stacks);
                    let total = self.player.status_effects.get(status);
                    events.push(
                        GameEvent::StatusApplied {
                            target: EventTarget::Player,
                            status,
                            stacks,
                            new_total: total,
                        },
                    );
                    proof {
                        assert(is_status_event(events@[events@.len() - 1], EventTarget::Player, status, stacks as int, total as int));
                    }
                }
            },
            _ => {},
        }
    }

    fn enemy_lose_block(&mut self, idx: usize, amount: i32)
        requires
            old(self).wf(),
            idx < old(self).enemies@.len(),
        ensures
            old(self).effect_frame(final(self)),
            final(self).player == old(self).player,
            final(self).hand == old(self).hand,
            final(self).concentration_active == old(self).concentration_active,
            final(self).player_took_damage_last_turn == old(self).player_took_damage_last_turn,
            final(self).pending_discards == old(self).pending_discards,
            final(self).enemies@ == old(self).enemies@.update(idx as int, EnemyState {
                block: final(self).enemies@[idx as int].block,
                ..old(self).enemies@[idx as int]
            }),
            final(self).enemies@[idx as int].block == (if clamp(old(self).enemies@[idx as int].block - amount) > 0 {
                clamp(old(self).enemies@[idx as int].block - amount)
            } else {
                0
            }),
            *final(self) == (CombatState { enemies: final(self).enemies, ..*old(self) }),
    {
        let b = clamp64(self.enemies[idx].block as i64 - amount as i64);
        self.enemies[idx].block = if b > 0 { b } else { 0 };
        proof {
            assert forall|i: int| 0 <= i < self.enemies@.len() implies enemy_bounded(#[trigger] self.enemies@[i]) by {
                if i != idx {
                    assert(self.enemies@[i] == old(self).enemies@[i]);
                }
            }
        }
    }

    fn resolve_double_status(
        &mut self,
        target: Target,
        status: StatusType,
        target_index: Option<usize>,
        events: &mut Vec<GameEvent>,
    )
        requires
            old(self).wf(),
        ensures
            events_extended(old(events)@, final(events)@),
            old(self).effect_frame(final(self)),
            final(self).concentration_active == old(self).concentration_active,
            final(self).player_took_damage_last_turn == old(self).player_took_damage_last_turn,
            final(self).pending_discards == old(self).pending_discards,
            status_doubled(*old(self), *final(self), target, status, target_index),
            status_doubled_logged(*old(self), *final(self), target, status, target_index, final(events)@),
    {
        match target {
            Target::SingleEnemy => {
                if let Some(idx) = target_index {
                    if idx < self.enemies.len() && !self.enemies[idx].is_dead() {
                        let current = self.enemies[idx].status_effects.get(status);
                        if current > 0 {
                            self.enemy_status_add(idx, status, current);
                            let total = self.enemies[idx].status_effects.get(status);
                            events.push(
                                GameEvent::StatusApplied {
                                    target: EventTarget::Enemy(idx),
                                    status,
                                    stacks: current,
                                    new_total: total,
                                },
                            );
                            proof {
                                assert(is_status_event(events@[events@.len() - 1], EventTarget::Enemy(idx), status, current as int, total as int));
                            }
                        }
                    }
                }
            },
            Target::AllEnemies => {
                let n = self.enemies.len();
                let mut i: usize = 0;
                while i < n
                    invariant
                        events_extended(old(events)@, events@),
                        old(self).effect_frame(self),
                        n == self.enemies@.len(),
                        self.concentration_active == old(self).concentration_active,
                        self.player_took_damage_last_turn == old(self).player_took_damage_last_turn,
                        self.pending_discards == old(self).pending_discards,
                        self.player == old(self).player,
                        i <= n,
                        forall|j: int| 0 <= j < i ==> enemy_status_doubled(old(self).enemies@[j], #[trigger] self.enemies@[j], status),
                        forall|j: int| i <= j < n ==> #[trigger] self.enemies@[j] == old(self).enemies@[j],
                        forall|j: int| 0 <= j < i && old(self).enemies@[j].hp > 0 && old(self).enemies@[j].status_effects.count(
                            status,
                        ) > 0 ==> has_status_event(
                            events@,
                            EventTarget::Enemy(j as usize),
                            status,
                            old(self).enemies@[j].status_effects.count(status),
                            (#[trigger] self.enemies@[j]).status_effects.count(status),
                        ),
                    decreases n - i,
                {
                    let ghost pre_log = events@;
                    let ghost pre = *self;
                    if !self.enemies[i].is_dead() {
                        let current = self.enemies[i].status_effects.get(status);
                        if current > 0 {
                            self.enemy_status_add(i, status, current);
                            let total = self.enemies[i].status_effects.get(status);
                            events.push(
                                GameEvent::StatusApplied {
                                    target: EventTarget::Enemy(i),
                                    status,
                                    stacks: current,
                                    new_total: total,
                                },
                            );
                            proof {
                                assert(is_status_event(events@[events@.len() - 1], EventTarget::Enemy(i), status, current as int, total as int));
                            }
                        }
                    }
                    proof {
                        lemma_log_kept(pre_log, events@);
                    }
                    i = i + 1;
                }
            },
            Target::Player => {
                let current = self.player.status_effects.get(status);
                if current > 0 {
                    self.player_status_add(status, current);
                    let total = self.player.status_effects.get(status);
                    events.push(
                        GameEvent::StatusApplied {
                            target: EventTarget::Player,
                            status,
                            stacks: current,
                            new_total: total,
                        },
                    );
                    proof {
                        assert(is_status_event(events@[events@.len() - 1], EventTarget::Player, status, current as int, total as int));
                    }
                }
            },
            Target::RandomEnemy => {},
        }
    }

    /// Enter a stance (any other stance is left) or a Wild Shape form (any
    /// other form is left and concentration ends).
    fn resolve_form_effect(&mut self, effect: Effect, content: &ContentTables, events: &mut Vec<GameEvent>)
        requires
            old(self).wf(),
        ensures
            events_extended(old(events)@, final(events)@),
            old(self).effect_frame(final(self)),
            final(self).player_took_damage_last_turn == old(self).player_took_damage_last_turn,
            final(self).pending_discards == old(self).pending_discards,
            final(self).player == (PlayerState { status_effects: final(self).player.status_effects, ..old(self).player }),
            final(self).enemies == old(self).enemies,
            final(self).draw_pile == old(self).draw_pile,
            final(self).exhaust == old(self).exhaust,
            match effect {
                Effect::EnterStance { stance } => {
                    &&& *final(self) == (CombatState { player: final(self).player, ..*old(self) })
                    &&& forall|t: StatusType| #[trigger] final(self).player.status_effects.count(t) == count_after_entering(
                        stance_statuses(),
                        stance,
                        t,
                        old(self).player.status_effects.count(t),
                    )
                },
                Effect::EnterWildShape { form } => {
                    &&& forall|t: StatusType| #[trigger] final(self).player.status_effects.count(t) == count_after_entering(
                        wild_shape_statuses(),
                        form,
                        t,
                        old(self).player.status_effects.count(t),
                    )
                    &&& !final(self).concentration_active
                    &&& if old(self).concentration_active {
                        &&& final(self).hand@ == non_concentration_cards(content, old(self).hand@)
                        &&& final(self).discard@ == old(self).discard@ + concentration_cards_last_first(content, old(self).hand@)
                    } else {
                        &&& final(self).hand == old(self).hand
                        &&& final(self).discard == old(self).discard
                    }
                },
                _ => *final(self) == *old(self),
            },
            form_effect_done(effect, *old(self), *final(self), content),
            form_effect_logged(effect, final(events)@),
    {
        match effect {
            Effect::EnterStance { stance } => {
                let stances = [StatusType::StanceAggressive, StatusType::StanceDefensive, StatusType::StanceFlowing];
                proof {
                    assert(stances@ =~= stance_statuses());
                }
                self.player_clear_statuses(&stances);
                self.player_status_add(stance, 1);
                events.push(
                    GameEvent::StatusApplied {
                        target: EventTarget::Player,
                        status: stance,
                        stacks: 1,
                        new_total: 1,
                    },
                );
                proof {
                    assert(is_status_event(events@[events@.len() - 1], EventTarget::Player, stance, 1, 1));
                }
            },
            Effect::EnterWildShape { form } => {
                let forms = [StatusType::WildShapeBear, StatusType::WildShapeEagle, StatusType::WildShapeWolf];
                proof {
                    assert(forms@ =~= wild_shape_statuses());
                }
                self.player_clear_statuses(&forms);
                if self.concentration_active {
                    self.discard_concentration_cards(content, events);
                    self.concentration_active = false;
                }
                self.player_status_add(form, 1);
                events.push(
                    GameEvent::StatusApplied {
                        target: EventTarget::Player,
                        status: form,
                        stacks: 1,
                        new_total: 1,
                    },
                );
                proof {
                    assert(is_status_event(events@[events@.len() - 1], EventTarget::Player, form, 1, 1));
                }
            },
            _ => {},
        }
    }

    /// Resolve one effect of a played card.
    fn resolve_effect(
        &mut self,
        effect: Effect,
        target_index: Option<usize>,
        events: &mut Vec<GameEvent>,
        content: &ContentTables,
    )
        requires
            old(self).wf(),
        ensures
            events_extended(old(events)@, final(events)@),
            old(self).play_frame(final(self)),
            final(self).player.max_energy == old(self).player.max_energy,
            final(self).player.energy == energy_step(old(self).player.energy as int, effect),
            effect_done(effect, *old(self), *final(self), target_index, content, final(events)@),
    {
        self.resolve_damage_effect(effect, target_index, events);
        let ghost s1 = *self;
        let ghost l1 = events@;
        self.resolve_damage_effect_more(effect, target_index, events);
        let ghost s2 = *self;
        let ghost l2 = events@;
        self.resolve_block_effect(effect, events);
        let ghost s3 = *self;
        self.resolve_misc_effect(effect, target_index, events);
        let ghost s4 = *self;
        let ghost l4 = events@;
        self.resolve_form_effect(effect, content, events);
        proof {
            if is_first_damage_effect(effect) {
                assert(effect_done(effect, *old(self), s1, target_index, content, l1));
                assert(s1 == *self);
                lemma_effect_done_log_kept(effect, *old(self), *self, target_index, content, l1, events@);
            } else if is_second_damage_effect(effect) {
                assert(effect_done(effect, *old(self), s2, target_index, content, l2));
                assert(s2 == *self);
                lemma_effect_done_log_kept(effect, *old(self), *self, target_index, content, l2, events@);
            } else if !is_block_effect(effect) && !(effect is EnterStance || effect is EnterWildShape) {
                assert(s3 == *old(self));
                assert(s4 == *self);
                lemma_misc_logged_kept(effect, *old(self), *self, target_index, l4, events@);
            }
        }
    }

    /// Execute damage: base + bonus per 10% of the enemy's missing HP.
    fn execute_damage_amount(&self, idx: usize, base: i32, per_10: i32) -> (r: i32)
        requires
            self.wf(),
            idx < self.enemies@.len(),
        ensures
            r == spec_execute_amount(self.enemies@[idx as int], base as int, per_10 as int),
    {
        proof {
            assert(enemy_bounded(self.enemies@[idx as int]));
        }
        let e = &self.enemies[idx];
        let max_hp: i64 = if e.max_hp > 1 { e.max_hp as i64 } else { 1 };
        let missing_pct = trunc_div64((max_hp - e.hp as i64) * 100, max_hp);
        proof {
            let num = ((max_hp - e.hp as i64) * 100) as int;
            if num >= 0 {
                lemma_div_bounded(num, max_hp as int);
            } else {
                lemma_div_bounded(-num, max_hp as int);
            }
        }
        let tens = trunc_div64(missing_pct, 10);
        clamp64(base as i64 + mul64(clamp64(tens) as i64, per_10 as i64))
    }

    // ── Play card ───────────────────────────────────────────────────────

    /// The phase the end-of-action check settles on from the player turn.
    pub open spec fn settled_phase(&self) -> CombatPhase {
        if self.player.hp <= 0 {
            CombatPhase::Defeat
        } else if self.all_enemies_dead() {
            CombatPhase::Victory
        } else {
            CombatPhase::PlayerTurn
        }
    }

    /// Wild Shape Wolf: +3 to the damage of the attack effects it boosts.
    fn wolf_boost(e: Effect) -> (r: Effect)
        ensures
            r == spec_wolf_boost(e),
            e is GainEnergy ==> r == e,
            !(e is GainEnergy) ==> !(r is GainEnergy),
    {
        match e {
            Effect::DealDamage { target, amount } => Effect::DealDamage {
                target,
                amount: clamp64(amount as i64 + 3),
            },
            Effect::DealDamageIfInWildShape { target, base, bonus } => {
                Effect::DealDamageIfInWildShape { target, base: clamp64(base as i64 + 3), bonus }
            },
            Effect::DealDamageWithFormBonus { target, base, status, bonus } => {
                Effect::DealDamageWithFormBonus {
                    target,
                    base: clamp64(base as i64 + 3),
                    status,
                    bonus,
                }
            },
            Effect::DealDamageIfTargetDebuffed { target, amount, bonus } => {
                Effect::DealDamageIfTargetDebuffed {
                    target,
                    amount: clamp64(amount as i64 + 3),
                    bonus,
                }
            },
            _ => e,
        }
    }

    /// The effects a played card resolves, with the Wild Shape passives:
    /// Bear adds 5 block to Defense cards, Eagle adds a draw to the first
    /// Attack card of the turn, Wolf boosts Attack card damage by 3.
    fn card_effects(&mut self, def: &CardDef) -> (r: Vec<Effect>)
        requires
            old(self).wf(),
        ensures
            *final(self) == (CombatState { eagle_attack_used: final(self).eagle_attack_used, ..*old(self) }),
            final(self).wf(),
            energy_after(old(self).player.energy as int, r@) == energy_after(old(self).player.energy as int, def.effects@),
            r@ == played_effects(*old(self), *def),
            final(self).eagle_attack_used == (old(self).eagle_attack_used || (old(self).player.status_effects.present(
                StatusType::WildShapeEagle,
            ) && def.tags@.contains(CardTag::Attack))),
    {
        let ghost e0 = self.player.energy as int;
        let mut effects = def.effects.clone();
        proof {
            assert(effects@ =~= def.effects@);
        }
        let is_attack = def.has_tag(CardTag::Attack);
        let is_defense = def.has_tag(CardTag::Defense);
        if self.player.status_effects.has(StatusType::WildShapeBear) && is_defense {
            let ghost pre = effects@;
            effects.push(Effect::GainBlock { amount: 5 });
            proof {
                assert(effects@.drop_last() =~= pre);
                assert(energy_after(e0, effects@) == energy_after(e0, pre));
            }
        }
        if self.player.status_effects.has(StatusType::WildShapeEagle) && is_attack && !self.eagle_attack_used {
            let ghost pre = effects@;
            effects.push(Effect::DrawCards { count: 1 });
            proof {
                assert(effects@.drop_last() =~= pre);
                assert(energy_after(e0, effects@) == energy_after(e0, pre));
            }
            self.eagle_attack_used = true;
        }
        if self.player.status_effects.has(StatusType::WildShapeWolf) && is_attack {
            let mut boosted: Vec<Effect> = Vec::new();
            let mut i: usize = 0;
            while i < effects.len()
                invariant
                    i <= effects@.len(),
                    energy_after(e0, effects@) == energy_after(e0, def.effects@),
                    energy_after(e0, boosted@) == energy_after(e0, effects@.take(i as int)),
                    boosted@ == effects@.take(i as int).map_values(|e: Effect| spec_wolf_boost(e)),
                decreases effects@.len() - i,
            {
                let ghost pre = boosted@;
                let b = Self::wolf_boost(effects[i]);
                boosted.push(b);
                proof {
                    assert(boosted@.drop_last() =~= pre);
                    assert(effects@.take(i + 1).drop_last() =~= effects@.take(i as int));
                    assert(effects@.take(i + 1).last() == effects@[i as int]);
                    assert(energy_after(e0, boosted@) == energy_step(energy_after(e0, pre), b));
                    assert(energy_after(e0, effects@.take(i + 1)) == energy_step(energy_after(e0, effects@.take(i as int)), effects@[i as int]));
                }
                i = i + 1;
            }
            proof {
                assert(effects@.take(i as int) =~= effects@);
            }
            effects = boosted;
        }
        effects
    }

    /// Arcane Charge (Wizard): Attack cards consume all charges for a
    /// temporary Empowered bonus (and maybe a draw); Skill cards add a charge.
    /// Returns the temporary bonus and whether to draw.
    fn arcane_charge_on_play(&mut self, is_attack: bool, is_skill: bool, events: &mut Vec<GameEvent>) -> (r: (i32, bool))
        requires
            old(self).wf(),
        ensures
            events_extended(old(events)@, final(events)@),
            old(self).effect_frame(final(self)),
            final(self).enemies == old(self).enemies,
            final(self).hand == old(self).hand,
            final(self).concentration_active == old(self).concentration_active,
            final(self).pending_discards == old(self).pending_discards,
            final(self).player_took_damage_last_turn == old(self).player_took_damage_last_turn,
            0 <= r.0 <= 5,
            *final(self) == (CombatState { player: PlayerState { status_effects: final(self).player.status_effects, ..old(self).player }, ..*old(self) }),
            ({
                let st = old(self).player.status_effects;
                let charges = st.count(StatusType::ArcaneCharge);
                let bonus = spec_arcane_charge_bonus(charges).0;
                let fin = final(self).player.status_effects;
                if is_attack && charges > 0 {
                    &&& (r.0 as int, r.1) == spec_arcane_charge_bonus(charges)
                    &&& fin.count(StatusType::ArcaneCharge) == status_after_add(StatusType::ArcaneCharge, charges, -charges)
                    &&& fin.count(StatusType::Empowered) == (if bonus > 0 {
                        status_after_add(StatusType::Empowered, st.count(StatusType::Empowered), bonus)
                    } else {
                        st.count(StatusType::Empowered)
                    })
                    &&& forall|t: StatusType| t != StatusType::ArcaneCharge && t != StatusType::Empowered
                        ==> #[trigger] fin.count(t) == st.count(t)
                } else if !is_attack && is_skill {
                    &&& r == (0i32, false)
                    &&& fin.count(StatusType::ArcaneCharge) == status_after_add(StatusType::ArcaneCharge, charges, 1)
                    &&& forall|t: StatusType| t != StatusType::ArcaneCharge ==> #[trigger] fin.count(t) == st.count(t)
                } else {
                    &&& r == (0i32, false)
                    &&& *final(self) == *old(self)
                }
            }),
    {
        if is_attack {
            proof {
                assert(in_limit(self.player.status_effects.count(StatusType::ArcaneCharge)));
            }
            let charges = self.player.status_effects.get(StatusType::ArcaneCharge);
            if charges > 0 {
                let (bonus, draw) = arcane_charge_bonus(charges);
                self.player_status_add(StatusType::ArcaneCharge, -charges);
                events.push(
                    GameEvent::StatusApplied {
                        target: EventTarget::Player,
                        status: StatusType::ArcaneCharge,
                        stacks: -charges,
                        new_total: 0,
                    },
                );
                if bonus > 0 {
                    self.player_status_add(StatusType::Empowered, bonus);
                }
                return (bonus, draw);
            }
            (0, false)
        } else if is_skill {
            self.player_status_add(StatusType::ArcaneCharge, 1);
            let total = self.player.status_effects.get(StatusType::ArcaneCharge);
            events.push(
                GameEvent::StatusApplied {
                    target: EventTarget::Player,
                    status: StatusType::ArcaneCharge,
                    stacks: 1,
                    new_total: total,
                },
            );
            (0, false)
        } else {
            (0, false)
        }
    }

    /// Resolve the effects of a played card in order.
    fn resolve_effects(
        &mut self,
        effects: &Vec<Effect>,
        target_index: Option<usize>,
        events: &mut Vec<GameEvent>,
        content: &ContentTables,
    )
        requires
            old(self).wf(),
        ensures
            events_extended(old(events)@, final(events)@),
            old(self).play_frame(final(self)),
            final(self).player.max_energy == old(self).player.max_energy,
            final(self).player.energy == energy_after(old(self).player.energy as int, effects@),
            effects_done(effects@, *old(self), *final(self), target_index, content, final(events)@),
    {
        let mut i: usize = 0;
        proof {
            assert(effects@.take(0) =~= Seq::<Effect>::empty());
        }
        while i < effects.len()
            invariant
                events_extended(old(events)@, events@),
                i <= effects@.len(),
                old(self).play_frame(self),
                self.player.max_energy == old(self).player.max_energy,
                self.player.energy == energy_after(old(self).player.energy as int, effects@.take(i as int)),
                effects_done(effects@.take(i as int), *old(self), *self, target_index, content, events@),
            decreases effects@.len() - i,
        {
            proof {
                assert(effects@.take(i + 1).drop_last() =~= effects@.take(i as int));
            }
            let ghost prev = *self;
            let ghost prev_log = events@;
            self.resolve_effect(effects[i], target_index, events, content);
            proof {
                assert(effects@.take(i + 1).last() == effects@[i as int]);
                let es = effects@.take(i + 1);
                lemma_effects_done_log_kept(es.drop_last(), *old(self), prev, target_index, content, prev_log, events@);
                assert(effects_done(es.drop_last(), *old(self), prev, target_index, content, events@));
                assert(effect_done(es.last(), prev, *self, target_index, content, events@));
                assert(effects_done(es, *old(self), *self, target_index, content, events@));
            }
            i = i + 1;
        }
        proof {
            assert(effects@.take(i as int) =~= effects@);
        }
    }

    /// Where a played card goes: exhaust, else back to hand as the single
    /// concentration card (ending Wild Shape), else bottom of the draw pile
    /// for recycle cards, else the discard pile.
    fn dispose_played_card(
        &mut self,
        card: CardInstance,
        should_exhaust: bool,
        concentration: bool,
        recycle: bool,
        content: &ContentTables,
        events: &mut Vec<GameEvent>,
    )
        requires
            old(self).wf(),
        ensures
            events_extended(old(events)@, final(events)@),
            final(self).wf(),
            final(self).card_multiset() == old(self).card_multiset().insert(card),
            final(self).enemies == old(self).enemies,
            final(self).player.hp == old(self).player.hp,
            final(self).phase == old(self).phase,
            final(self).turn == old(self).turn,
            final(self).class == old(self).class,
            final(self).draw_per_turn == old(self).draw_per_turn,
            final(self).cards_played_this_turn == old(self).cards_played_this_turn,
            final(self).innate_overrides == old(self).innate_overrides,
            final(self).act == old(self).act,
            final(self).player.energy == old(self).player.energy,
            final(self).player.max_energy == old(self).player.max_energy,
            final(self).player.max_hp == old(self).player.max_hp,
            should_exhaust ==> final(self).exhaust@ == old(self).exhaust@.push(card),
            !should_exhaust && concentration ==> final(self).concentration_active,
            !should_exhaust && !concentration && recycle ==> final(self).draw_pile@ == old(self).draw_pile@.insert(0, card),
            !should_exhaust && !concentration && !recycle ==> final(self).discard@ == old(self).discard@.push(card),
            should_exhaust || !concentration ==> final(self).hand == old(self).hand,
            *final(self) == (CombatState {
                hand: final(self).hand,
                draw_pile: final(self).draw_pile,
                discard: final(self).discard,
                exhaust: final(self).exhaust,
                rng: final(self).rng,
                concentration_active: final(self).concentration_active,
                player: PlayerState { status_effects: final(self).player.status_effects, ..old(self).player },
                ..*old(self)
            }),
            forall|t: StatusType| #[trigger] final(self).player.status_effects.count(t) == (if !should_exhaust && concentration {
                count_after_clearing(wild_shapes(), t, old(self).player.status_effects.count(t))
            } else {
                old(self).player.status_effects.count(t)
            }),
    {
        if should_exhaust {
            let ghost e0 = self.exhaust@;
            events.push(GameEvent::CardExhausted { card_id: card.def_id.clone() });
            self.exhaust.push(card);
            proof {
                assert(self.exhaust@ =~= e0.push(card));
                assert(self.card_multiset() =~= old(self).card_multiset().insert(card));
            }
        } else if concentration {
            self.player_clear_statuses(
                &[StatusType::WildShapeBear, StatusType::WildShapeEagle, StatusType::WildShapeWolf],
            );
            self.discard_concentration_cards(content, events);
            self.push_to_hand_or_discard(card);
            self.concentration_active = true;
        } else if recycle {
            let ghost d0 = self.draw_pile@;
            self.draw_pile.insert(0, card);
            proof {
                assert(self.draw_pile@ =~= d0.insert(0, card));
                assert(self.card_multiset() =~= old(self).card_multiset().insert(card));
            }
        } else {
            let ghost c0 = self.discard@;
            self.discard.push(card);
            proof {
                assert(self.discard@ =~= c0.push(card));
                assert(self.card_multiset() =~= old(self).card_multiset().insert(card));
            }
        }
    }

    /// The error a PlayCard action meets, if any.
    fn check_play_card(&self, hand_index: usize, target_index: Option<usize>, content: &ContentTables) -> (r: Option<ActionError>)
        requires
            self.wf(),
            self.action_defined(Action::PlayCard { hand_index, target: target_index }, content),
        ensures
            r == self.spec_action_error(Action::PlayCard { hand_index, target: target_index }, content),
    {
        if self.phase == CombatPhase::Victory || self.phase == CombatPhase::Defeat {
            return Some(ActionError::CombatOver);
        }
        if self.phase != CombatPhase::PlayerTurn {
            return Some(ActionError::NotPlayerTurn);
        }
        if self.pending_discards > 0 {
            return Some(ActionError::MustDiscardFirst);
        }
        if hand_index >= self.hand.len() {
            return Some(ActionError::InvalidHandIndex);
        }
        let def = content.card_def(&self.hand[hand_index].def_id).unwrap();
        if self.player.energy < def.cost {
            return Some(ActionError::InsufficientEnergy);
        }
        if def.needs_single_target() {
            let valid = match target_index {
                Some(idx) => idx < self.enemies.len() && !self.enemies[idx].is_dead(),
                None => false,
            };
            if !valid {
                return Some(ActionError::InvalidTarget);
            }
        }
        None
    }

    /// First half of playing a card: pay its cost, take it out of the hand,
    /// count it, and apply the on-play triggers (Flowing Stance, Arcane
    /// Charge). Returns the card and the Arcane Charge bonus and draw.
    fn begin_play(&mut self, hand_index: usize, def: &CardDef, events: &mut Vec<GameEvent>) -> (r: (CardInstance, i32, bool))
        requires
            old(self).wf(),
            hand_index < old(self).hand@.len(),
        ensures
            events_extended(old(events)@, final(events)@),
            final(self).wf(),
            final(self).card_multiset().insert(r.0) == old(self).card_multiset(),
            final(self).enemies@.len() == old(self).enemies@.len(),
            final(self).phase == old(self).phase,
            final(self).turn == old(self).turn,
            final(self).class == old(self).class,
            final(self).draw_per_turn == old(self).draw_per_turn,
            final(self).innate_overrides == old(self).innate_overrides,
            final(self).act == old(self).act,
            final(self).cards_played_this_turn == (if old(self).cards_played_this_turn < LIMIT {
                old(self).cards_played_this_turn + 1
            } else {
                old(self).cards_played_this_turn as int
            }),
            0 <= r.1 <= 5,
            r.0 == old(self).hand@[hand_index as int],
            final(self).player.energy == clamp(old(self).player.energy - def.cost),
            final(self).player.max_energy == old(self).player.max_energy,
            final(self).player.max_hp == old(self).player.max_hp,
            play_started(*old(self), *final(self), hand_index as int, *def),
            r.2 == play_draws(*old(self), *def),
            r.1 == play_bonus(*old(self), *def),
            final(events)@.len() > old(events)@.len(),
            is_card_played_event(final(events)@[old(events)@.len() as int], old(self).hand@[hand_index as int].def_id@, hand_index, def.cost as int),
    {
        let ghost m0 = self.card_multiset();
        self.player.energy = clamp64(self.player.energy as i64 - def.cost as i64);
        let ghost h0 = self.hand@;
        let card_inst = self.hand.remove(hand_index);
        proof {
            assert(self.hand@ =~= h0.remove(hand_index as int));
            assert(self.card_multiset().insert(card_inst) =~= m0);
        }
        events.push(
            GameEvent::CardPlayed {
                card_id: card_inst.def_id.clone(),
                hand_index,
                energy_spent: def.cost,
            },
        );
        if self.cards_played_this_turn < LIMIT as u32 {
            self.cards_played_this_turn = self.cards_played_this_turn + 1;
        }
        if self.player.status_effects.has(StatusType::StanceFlowing) {
            self.player_status_add(StatusType::Ki, 1);
            let total = self.player.status_effects.get(StatusType::Ki);
            events.push(
                GameEvent::StatusApplied {
                    target: EventTarget::Player,
                    status: StatusType::Ki,
                    stacks: 1,
                    new_total: total,
                },
            );
        }
        let is_attack = def.has_tag(CardTag::Attack);
        let is_skill = def.has_tag(CardTag::Skill);
        let (arcane_bonus, arcane_draw) = self.arcane_charge_on_play(is_attack, is_skill, events);
        (card_inst, arcane_bonus, arcane_draw)
    }

    /// Closing steps of a play, once its effects resolved: undo the Arcane
    /// Charge bonus, draw where Arcane Charge draws, dispose of the card and
    /// settle the phase.
    fn close_play(
        &mut self,
        card_inst: CardInstance,
        def: &CardDef,
        arcane_bonus: i32,
        arcane_draw: bool,
        content: &ContentTables,
        events: &mut Vec<GameEvent>,
    )
        requires
            old(self).wf(),
            old(self).phase == CombatPhase::PlayerTurn,
            0 <= arcane_bonus <= 5,
        ensures
            events_extended(old(events)@, final(events)@),
            final(self).wf(),
            final(self).card_multiset() == old(self).card_multiset().insert(card_inst),
            final(self).phase == final(self).settled_phase(),
            *final(self) == (CombatState {
                hand: final(self).hand,
                draw_pile: final(self).draw_pile,
                discard: final(self).discard,
                exhaust: final(self).exhaust,
                rng: final(self).rng,
                concentration_active: final(self).concentration_active,
                phase: final(self).phase,
                player: PlayerState { status_effects: final(self).player.status_effects, ..old(self).player },
                ..*old(self)
            }),
            forall|t: StatusType| #[trigger] final(self).player.status_effects.count(t) == count_after_play_close(
                t,
                old(self).player.status_effects.count(t),
                arcane_bonus as int,
                *def,
            ),
            card_disposed(*final(self), card_inst, *def),
            !arcane_draw && !(def.concentration && !(def.card_type == CardType::Consumable || def.exhaust))
                ==> final(self).hand == old(self).hand,
    {
        let should_exhaust = def.card_type == CardType::Consumable || def.exhaust;
        if arcane_bonus > 0 {
            self.player_status_add(StatusType::Empowered, -arcane_bonus);
        }
        let ghost s1 = *self;
        proof {
            assert(s1 == (CombatState { player: PlayerState { status_effects: s1.player.status_effects, ..old(self).player }, ..*old(self) }));
        }
        if arcane_draw {
            self.draw_cards(1, events);
        }
        let ghost s2 = *self;
        proof {
            assert(s2 == (CombatState {
                hand: s2.hand,
                draw_pile: s2.draw_pile,
                discard: s2.discard,
                exhaust: s2.exhaust,
                rng: s2.rng,
                ..s1
            }));
        }
        self.dispose_played_card(card_inst, should_exhaust, def.concentration, def.recycle, content, events);
        let ghost s3 = *self;
        self.check_end_conditions(events);
        proof {
            assert(s3 == (CombatState {
                hand: s3.hand,
                draw_pile: s3.draw_pile,
                discard: s3.discard,
                exhaust: s3.exhaust,
                rng: s3.rng,
                concentration_active: s3.concentration_active,
                player: PlayerState { status_effects: s3.player.status_effects, ..s1.player },
                ..s1
            }));
            assert forall|t: StatusType| #[trigger] self.player.status_effects.count(t) == count_after_play_close(
                t,
                old(self).player.status_effects.count(t),
                arcane_bonus as int,
                *def,
            ) by {
                assert(s1.player.status_effects.count(t) == s2.player.status_effects.count(t));
            }
        }
    }

    /// Second half of playing a card: resolve its effects, then close the
    /// play.
    fn finish_play(
        &mut self,
        card_inst: CardInstance,
        def: &CardDef,
        arcane_bonus: i32,
        arcane_draw: bool,
        target_index: Option<usize>,
        content: &ContentTables,
        events: &mut Vec<GameEvent>,
    )
        requires
            old(self).wf(),
            old(self).phase == CombatPhase::PlayerTurn,
            0 <= arcane_bonus <= 5,
        ensures
            events_extended(old(events)@, final(events)@),
            final(self).wf(),
            final(self).card_multiset() == old(self).card_multiset().insert(card_inst),
            final(self).enemies@.len() == old(self).enemies@.len(),
            final(self).phase == final(self).settled_phase(),
            final(self).turn == old(self).turn,
            final(self).cards_played_this_turn == old(self).cards_played_this_turn,
            (def.card_type == CardType::Consumable || def.exhaust) ==> final(self).exhaust@.len() > 0
                && final(self).exhaust@.last() == card_inst,
            final(self).player.energy == energy_after(old(self).player.energy as int, def.effects@),
            final(self).player.max_hp == old(self).player.max_hp,
            play_resolved(*old(self), *final(self), card_inst, *def, arcane_draw, arcane_bonus as int, target_index, content, final(events)@),
    {
        let effects = self.card_effects(def);
        self.resolve_effects(&effects, target_index, events, content);
        let ghost res = *self;
        let ghost res_log = events@;
        proof {
            assert(card_effects_resolved(*old(self), res, *def, target_index, content, res_log));
        }
        self.close_play(card_inst, def, arcane_bonus, arcane_draw, content, events);
        proof {
            assert(self.enemies == res.enemies && self.player.hp == res.player.hp);
            let eagle = old(self).eagle_attack_used || (old(self).player.status_effects.present(StatusType::WildShapeEagle)
                && def.tags@.contains(CardTag::Attack));
            lemma_effects_done_log_kept(
                played_effects(*old(self), *def),
                CombatState { eagle_attack_used: eagle, ..*old(self) },
                res,
                target_index,
                content,
                res_log,
                events@,
            );
            assert(card_effects_resolved(*old(self), res, *def, target_index, content, events@));
        }
    }

    fn apply_play_card(
        &mut self,
        hand_index: usize,
        target_index: Option<usize>,
        content: &ContentTables,
        events: &mut Vec<GameEvent>,
    ) -> (r: Result<(), ActionError>)
        requires
            old(self).wf(),
            old(self).action_defined(Action::PlayCard { hand_index, target: target_index }, content),
        ensures
            events_extended(old(events)@, final(events)@),
            match r {
                Err(e) => {
                    &&& old(self).spec_action_error(
                        Action::PlayCard { hand_index, target: target_index },
                        content,
                    ) == Some(e)
                    &&& *final(self) == *old(self)
                },
                Ok(()) => {
                    &&& old(self).spec_action_error(
                        Action::PlayCard { hand_index, target: target_index },
                        content,
                    ) is None
                    &&& final(self).wf()
                    &&& final(self).card_multiset() == old(self).card_multiset()
                    &&& final(self).enemies@.len() == old(self).enemies@.len()
                    &&& final(self).phase == final(self).settled_phase()
                    &&& final(self).turn == old(self).turn
                    &&& final(self).cards_played_this_turn == (if old(self).cards_played_this_turn < LIMIT {
                        old(self).cards_played_this_turn + 1
                    } else {
                        old(self).cards_played_this_turn as int
                    })
                    &&& old(self).played_card_exhausts(hand_index as int, content) ==> final(self).exhaust@.len() > 0
                        && final(self).exhaust@.last() == old(self).hand@[hand_index as int]
                    &&& final(self).player.energy == old(self).energy_after_play(hand_index as int, content)
                    &&& final(self).player.max_hp == old(self).player.max_hp
                },
            },
            r is Ok ==> exists|mid: CombatState| #[trigger] play_started(
                *old(self),
                mid,
                hand_index as int,
                played_def(*old(self), hand_index as int, content),
            ) && play_resolved(
                mid,
                *final(self),
                old(self).hand@[hand_index as int],
                played_def(*old(self), hand_index as int, content),
                play_draws(*old(self), played_def(*old(self), hand_index as int, content)),
                play_bonus(*old(self), played_def(*old(self), hand_index as int, content)),
                target_index,
                content,
                final(events)@,
            ),
            r is Ok ==> final(events)@.len() > old(events)@.len() && is_card_played_event(
                final(events)@[old(events)@.len() as int],
                old(self).hand@[hand_index as int].def_id@,
                hand_index,
                played_def(*old(self), hand_index as int, content).cost as int,
            ),
    {
        match self.check_play_card(hand_index, target_index, content) {
            Some(e) => Err(e),
            None => {
                let def = content.card_def(&self.hand[hand_index].def_id).unwrap();
                let (card_inst, arcane_bonus, arcane_draw) = self.begin_play(hand_index, def, events);
                self.finish_play(card_inst, def, arcane_bonus, arcane_draw, target_index, content, events);
                Ok(())
            },
        }
    }

    // ── End turn ────────────────────────────────────────────────────────

    /// Tick a status table at end of turn, keeping counts within `±LIMIT`.
    /// Returns the Bleeding damage.
    fn tick_statuses(m: &mut StatusMap) -> (dot: i32)
        requires
            statuses_bounded(*old(m)),
        ensures
            statuses_bounded(*final(m)),
            0 <= dot <= LIMIT,
            dot == (if old(m).count(StatusType::Bleeding) > 0 { old(m).count(StatusType::Bleeding) } else { 0 }),
            forall|t: StatusType| #[trigger] final(m).count(t) == status_after_tick(t, old(m).count(t)),
    {
        proof {
            assert forall|t: StatusType| spec_kind(t) == StatusKind::Waning implies old(m).count(t) > i32::MIN by {
                assert(in_limit(old(m).count(t)));
            }
        }
        let r = m.tick();
        let ghost ticked = *m;
        proof {
            assert(in_limit(old(m).count(StatusType::Bleeding)));
            assert forall|t: StatusType| #[trigger] m.count(t) >= -LIMIT - 1 && m.count(t) <= LIMIT by {
                assert(in_limit(old(m).count(t)));
            }
        }
        let mut i: usize = 0;
        while i < crate::status::STATUS_COUNT
            invariant
                m.wf(),
                forall|t: StatusType| #[trigger] m.count(t) >= -LIMIT - 1 && m.count(t) <= LIMIT,
                forall|t: StatusType| crate::status::status_index(t) < i ==> #[trigger] in_limit(m.count(t)),
                forall|t: StatusType| #[trigger] m.count(t) == (if crate::status::status_index(t) < i {
                    clamp(ticked.count(t))
                } else {
                    ticked.count(t)
                }),
                forall|t: StatusType| #[trigger] ticked.count(t) >= -LIMIT - 1 && ticked.count(t) <= LIMIT,
            decreases crate::status::STATUS_COUNT - i,
        {
            let st = StatusType::from_index(i);
            if m.get(st) < -LIMIT {
                proof {
                    m.lemma_count_range(st);
                }
                m.apply(st, 1);
            }
            proof {
                assert forall|t: StatusType| #[trigger] m.count(t) == (if crate::status::status_index(t) < i + 1 {
                    clamp(ticked.count(t))
                } else {
                    ticked.count(t)
                }) by {
                    crate::status::lemma_status_index_roundtrip(t);
                    crate::status::lemma_status_index_roundtrip(st);
                    assert(ticked.count(t) >= -LIMIT - 1);
                }
            }
            proof {
                assert forall|t: StatusType| crate::status::status_index(t) < i + 1 implies #[trigger] in_limit(m.count(t)) by {
                    crate::status::lemma_status_index_roundtrip(t);
                    crate::status::lemma_status_index_roundtrip(st);
                    if crate::status::status_index(t) == i {
                        assert(t == st);
                    }
                }
            }
            i = i + 1;
        }
        proof {
            assert forall|t: StatusType| #[trigger] in_limit(m.count(t)) by {
                crate::status::lemma_status_index_roundtrip(t);
            }
            assert forall|t: StatusType| #[trigger] m.count(t) == status_after_tick(t, old(m).count(t)) by {
                crate::status::lemma_status_index_roundtrip(t);
            }
        }
        r.dot_damage
    }

    /// The hit of an enemy attack on the player: the enemy's damage pipeline
    /// against the player, +3 in Aggressive Stance, minus Fortified stacks.
    fn enemy_attack_damage(&self, base: i32, attacker: &StatusMap) -> (dmg: i32)
        requires
            self.wf(),
            statuses_bounded(*attacker),
        ensures
            0 <= dmg <= LIMIT,
            dmg == spec_enemy_hit(base as int, *attacker, self.player.status_effects),
    {
        proof {
            assert(in_limit(self.player.status_effects.count(StatusType::Marked)));
            assert(in_limit(self.player.status_effects.count(StatusType::Fortified)));
        }
        let threatened = self.player.status_effects.has(StatusType::Threatened);
        let marked = self.player.status_effects.get(StatusType::Marked);
        let fortified = self.player.status_effects.get(StatusType::Fortified);
        let mut dmg = Self::calculate_damage(base, attacker, threatened, marked, false) as i64;
        if self.player.status_effects.has(StatusType::StanceAggressive) {
            dmg = dmg + 3;
        }
        dmg = dmg - fortified as i64;
        if dmg < 0 {
            dmg = 0;
        }
        clamp64(dmg)
    }

    /// An enemy attack lands on the player (unless Sanctified Shield negates
    /// it), with HP-loss triggers and Barbed reflection. Returns whether the
    /// player lost HP.
    fn enemy_attack(&mut self, i: usize, base: i32, attacker: &StatusMap, events: &mut Vec<GameEvent>) -> (took: bool)
        requires
            old(self).wf(),
            i < old(self).enemies@.len(),
            statuses_bounded(*attacker),
        ensures
            events_extended(old(events)@, final(events)@),
            old(self).effect_frame(final(self)),
            final(self).concentration_active == old(self).concentration_active,
            final(self).pending_discards == old(self).pending_discards,
            final(self).player_took_damage_last_turn == old(self).player_took_damage_last_turn,
            old(self).player.status_effects.present(StatusType::SanctifiedShield) ==> {
                &&& !took
                &&& *final(self) == (CombatState {
                    player: PlayerState { status_effects: final(self).player.status_effects, ..old(self).player },
                    ..*old(self)
                })
                &&& final(self).player.status_effects.count(StatusType::SanctifiedShield) == status_after_add(
                    StatusType::SanctifiedShield,
                    old(self).player.status_effects.count(StatusType::SanctifiedShield),
                    -1,
                )
                &&& forall|t: StatusType| t != StatusType::SanctifiedShield ==> #[trigger] final(self).player.status_effects.count(t)
                    == old(self).player.status_effects.count(t)
            },
            !old(self).player.status_effects.present(StatusType::SanctifiedShield) ==> {
                let lost = crate::player::spec_after_block(
                    spec_enemy_hit(base as int, *attacker, old(self).player.status_effects),
                    old(self).player.block as int,
                );
                let barbed = old(self).player.status_effects.count(StatusType::Barbed);
                let e = old(self).enemies@[i as int];
                let hit = spec_enemy_hit(base as int, *attacker, old(self).player.status_effects);
                let ps = old(self).player.status_effects;
                &&& took == (lost > 0)
                &&& final(self).player.hp == clamp(old(self).player.hp - lost)
                &&& final(self).player == (PlayerState {
                    hp: final(self).player.hp,
                    block: final(self).player.block,
                    status_effects: final(self).player.status_effects,
                    ..old(self).player
                })
                &&& final(self).player.block == player_block_after_enemy_hit(hit, lost, old(self).player)
                &&& final(self).player.status_effects.count(StatusType::Rage) == (if lost > 0 && ps.present(StatusType::PainIsPower) {
                    status_after_add(StatusType::Rage, ps.count(StatusType::Rage), lost)
                } else {
                    ps.count(StatusType::Rage)
                })
                &&& forall|t: StatusType| t != StatusType::Rage ==> #[trigger] final(self).player.status_effects.count(t)
                    == ps.count(t)
                &&& final(self).enemies@.len() == old(self).enemies@.len()
                &&& final(self).enemies@[i as int] == (EnemyState {
                    hp: final(self).enemies@[i as int].hp,
                    block: final(self).enemies@[i as int].block,
                    ..e
                })
                &&& final(self).enemies@[i as int].block == (if barbed > 0 {
                    crate::player::spec_block_after_hit(barbed, e.block as int)
                } else {
                    e.block as int
                })
                &&& final(self).enemies@[i as int].hp == (if barbed > 0 {
                    clamp(e.hp - crate::player::spec_after_block(barbed, e.block as int))
                } else {
                    e.hp as int
                })
                &&& final(self).enemies@[i as int].status_effects == e.status_effects
                &&& forall|j: int| 0 <= j < old(self).enemies@.len() && j != i ==> #[trigger] final(self).enemies@[j]
                    == old(self).enemies@[j]
            },
            !old(self).player.status_effects.present(StatusType::SanctifiedShield) ==> has_hit_event(
                final(events)@,
                EventTarget::Player,
                base as int,
                spec_enemy_hit(base as int, *attacker, old(self).player.status_effects),
                crate::player::spec_after_block(
                    spec_enemy_hit(base as int, *attacker, old(self).player.status_effects),
                    old(self).player.block as int,
                ),
            ),
            old(self).enemies@[i as int].hp > 0 && final(self).enemies@[i as int].hp <= 0 ==> has_event(
                final(events)@,
                GameEvent::EnemyDied { enemy_index: i },
            ),
    {
        if self.player.status_effects.has(StatusType::SanctifiedShield) {
            self.player_status_add(StatusType::SanctifiedShield, -1);
            events.push(
                GameEvent::StatusApplied {
                    target: EventTarget::Player,
                    status: StatusType::SanctifiedShield,
                    stacks: -1,
                    new_total: 0,
                },
            );
            return false;
        }
        proof {
            assert(in_limit(self.player.status_effects.count(StatusType::Barbed)));
        }
        let barbed = self.player.status_effects.get(StatusType::Barbed);
        let dmg = self.enemy_attack_damage(base, attacker);
        let hp_lost = self.player_take_hit(dmg);
        events.push(
            GameEvent::DamageDealt {
                target: EventTarget::Player,
                base,
                modified: dmg,
                blocked: dmg - hp_lost,
                hp_lost,
            },
        );
        let ghost hit_log = events@;
        proof {
            assert(is_hit_event(hit_log[hit_log.len() - 1], EventTarget::Player, base as int, dmg as int, hp_lost as int));
            assert(has_hit_event(hit_log, EventTarget::Player, base as int, dmg as int, hp_lost as int));
        }
        let mut took = false;
        if hp_lost > 0 {
            took = true;
            self.apply_hp_loss_triggers(hp_lost, events);
        }
        proof {
            lemma_log_kept(hit_log, events@);
        }
        if barbed > 0 {
            let reflected = self.enemy_take_hit(i, barbed);
            events.push(
                GameEvent::DamageDealt {
                    target: EventTarget::Enemy(i),
                    base: barbed,
                    modified: barbed,
                    blocked: barbed - reflected,
                    hp_lost: reflected,
                },
            );
            if self.enemies[i].is_dead() {
                events.push(GameEvent::EnemyDied { enemy_index: i });
                proof {
                    assert(events@[events@.len() - 1] == GameEvent::EnemyDied { enemy_index: i });
                }
            }
        }
        proof {
            lemma_log_kept(hit_log, events@);
        }
        took
    }

    fn enemy_gain_block(&mut self, i: usize, amount: i32, events: &mut Vec<GameEvent>)
        requires
            old(self).wf(),
            i < old(self).enemies@.len(),
        ensures
            events_extended(old(events)@, final(events)@),
            old(self).effect_frame(final(self)),
            final(self).player == old(self).player,
            final(self).concentration_active == old(self).concentration_active,
            final(self).pending_discards == old(self).pending_discards,
            final(self).player_took_damage_last_turn == old(self).player_took_damage_last_turn,
            final(self).enemies@ == old(self).enemies@.update(i as int, EnemyState {
                block: final(self).enemies@[i as int].block,
                ..old(self).enemies@[i as int]
            }),
            final(self).enemies@[i as int].block == clamp(old(self).enemies@[i as int].block + amount),
            *final(self) == (CombatState { enemies: final(self).enemies, ..*old(self) }),
            final(events)@ == old(events)@.push(GameEvent::BlockGained { target: EventTarget::Enemy(i), amount }),
    {
        self.enemies[i].block = clamp64(self.enemies[i].block as i64 + amount as i64);
        proof {
            assert forall|j: int| 0 <= j < self.enemies@.len() implies enemy_bounded(#[trigger] self.enemies@[j]) by {
                if j != i {
                    assert(self.enemies@[j] == old(self).enemies@[j]);
                }
            }
        }
        events.push(GameEvent::BlockGained { target: EventTarget::Enemy(i), amount });
    }

    /// Move an enemy to the next intent of its definition, if it has one.
    fn advance_enemy_intent(&mut self, i: usize, content: &ContentTables)
        requires
            old(self).wf(),
            i < old(self).enemies@.len(),
        ensures
            old(self).effect_frame(final(self)),
            final(self).player == old(self).player,
            final(self).concentration_active == old(self).concentration_active,
            final(self).pending_discards == old(self).pending_discards,
            final(self).player_took_damage_last_turn == old(self).player_took_damage_last_turn,
            *final(self) == (CombatState { enemies: final(self).enemies, ..*old(self) }),
            final(self).enemies@ == old(self).enemies@.update(i as int, EnemyState {
                intent_index: final(self).enemies@[i as int].intent_index,
                current_intent: final(self).enemies@[i as int].current_intent,
                ..old(self).enemies@[i as int]
            }),
            match spec_find_enemy(old(self).enemy_defs@, old(self).enemies@[i as int].def_id@) {
                Some(def) if def.intent_pattern@.len() > 0 => {
                    &&& final(self).enemies@[i as int].intent_index == (old(self).enemies@[i as int].intent_index + 1) % (
                    def.intent_pattern@.len() as int)
                    &&& final(self).enemies@[i as int].current_intent == Some(
                        def.intent_pattern@[final(self).enemies@[i as int].intent_index as int],
                    )
                },
                _ => final(self).enemies@ == old(self).enemies@,
            },
    {
        match find_enemy_def(&self.enemy_defs, &self.enemies[i].def_id) {
            Some(def) => {
                proof {
                    assert(enemy_bounded(self.enemies@[i as int]));
                }
                self.enemies[i].advance_intent(def);
                proof {
                    if def.intent_pattern@.len() == 0 {
                        assert(self.enemies@ =~= old(self).enemies@);
                    }
                    if def.intent_pattern@.len() > 0 {
                        let n = def.intent_pattern@.len() as int;
                        vstd::arithmetic::div_mod::lemma_mod_bound(old(self).enemies@[i as int].intent_index + 1, n);
                    }
                    assert forall|j: int| 0 <= j < self.enemies@.len() implies enemy_bounded(#[trigger] self.enemies@[j]) by {
                        if j != i {
                            assert(self.enemies@[j] == old(self).enemies@[j]);
                        }
                    }
                }
            },
            None => {},
        }
    }

    /// One enemy acts: statuses tick (Bleeding may kill it), its block
    /// resets, then it carries out its current intent — or skips it while
    /// Frightened — and moves to its next intent. Returns whether the player
    /// lost HP.
    #[verifier::rlimit(60)]
    fn enemy_act(&mut self, i: usize, content: &ContentTables, events: &mut Vec<GameEvent>) -> (took: bool)
        requires
            old(self).wf(),
            i < old(self).enemies@.len(),
        ensures
            events_extended(old(events)@, final(events)@),
            old(self).effect_frame(final(self)),
            final(self).concentration_active == old(self).concentration_active,
            final(self).pending_discards == old(self).pending_discards,
            final(self).player_took_damage_last_turn == old(self).player_took_damage_last_turn,
            enemy_act_done(*old(self), *final(self), i as int, took),
            enemy_act_logged(*old(self), *final(self), i as int, final(events)@),
    {
        if self.enemies[i].is_dead() {
            return false;
        }
        proof {
            assert(enemy_bounded(self.enemies@[i as int]));
        }
        let pre_tick = self.enemies[i].status_effects.snapshot();
        let is_frightened = pre_tick.has(StatusType::Frightened);
        proof {
            assert forall|t: StatusType| #[trigger] in_limit(pre_tick.count(t)) by {
                assert(in_limit(self.enemies@[i as int].status_effects.count(t)));
            }
        }
        let dot = Self::tick_statuses(&mut self.enemies[i].status_effects);
        if dot > 0 {
            self.enemies[i].hp = clamp64(self.enemies[i].hp as i64 - dot as i64);
        }
        self.enemies[i].block = 0;
        proof {
            assert forall|j: int| 0 <= j < self.enemies@.len() implies enemy_bounded(#[trigger] self.enemies@[j]) by {
                if j != i {
                    assert(self.enemies@[j] == old(self).enemies@[j]);
                }
            }
        }
        if dot > 0 {
            events.push(
                GameEvent::DotDamage {
                    target: EventTarget::Enemy(i),
                    source: StatusType::Bleeding,
                    damage: dot,
                },
            );
            proof {
                assert(events@[events@.len() - 1] matches GameEvent::DotDamage { target, source, damage } && target
                    == EventTarget::Enemy(i) && source == StatusType::Bleeding && damage == dot);
            }
            if self.enemies[i].is_dead() {
                let ghost dot_log0 = events@;
                proof {
                    assert(has_dot_event(dot_log0, EventTarget::Enemy(i), dot as int));
                }
                events.push(GameEvent::EnemyDied { enemy_index: i });
                proof {
                    lemma_log_kept(dot_log0, events@);
                    assert(has_event(events@, GameEvent::EnemyDied { enemy_index: i }));
                    assert(events@[events@.len() - 1] == GameEvent::EnemyDied { enemy_index: i });
                }
                return false;
            }
        }
        let ghost dot_log = events@;
        proof {
            assert(dot > 0 ==> has_dot_event(dot_log, EventTarget::Enemy(i), dot as int));
        }
        let intent = match self.enemies[i].current_intent {
            Some(intent) => intent,
            None => {
                proof {
                    lemma_log_kept(dot_log, events@);
                    let e = old(self).enemies@[i as int];
                    assert(!enemy_carries_out_intent(e));
                    assert(self.enemies@[i as int].hp > 0);
                    assert(e.status_effects.count(StatusType::Bleeding) > 0 ==> has_dot_event(
                        events@,
                        EventTarget::Enemy(i),
                        e.status_effects.count(StatusType::Bleeding),
                    ));
                }
                return false;
            },
        };
        if is_frightened {
            events.push(GameEvent::EnemySkipped { enemy_index: i });
            self.advance_enemy_intent(i, content);
            proof {
                lemma_log_kept(dot_log, events@);
            }
            return false;
        }
        events.push(GameEvent::EnemyAction { enemy_index: i, intent });
        let mut took = false;
        let ghost acting = *self;
        proof {
            assert(acting.enemies@[i as int].hp > 0);
            assert(spec_enemy_hit(0, pre_tick, self.player.status_effects) == spec_enemy_hit(0, old(self).enemies@[i as int].status_effects, self.player.status_effects));
        }
        match intent {
            IntentType::Attack(base) => {
                took = self.enemy_attack(i, base, &pre_tick, events);
                proof {
                    assert(spec_enemy_hit(base as int, pre_tick, acting.player.status_effects) == spec_enemy_hit(
                        base as int,
                        old(self).enemies@[i as int].status_effects,
                        acting.player.status_effects,
                    ));
                    assert(acting.player == old(self).player);
                    assert(!old(self).player.status_effects.present(StatusType::SanctifiedShield) ==> has_hit_event(
                        events@,
                        EventTarget::Player,
                        base as int,
                        spec_enemy_hit(base as int, old(self).enemies@[i as int].status_effects, old(self).player.status_effects),
                        enemy_attack_loss(base as int, old(self).enemies@[i as int].status_effects, old(self).player),
                    ));
                }
            },
            IntentType::Defend(amount) => {
                self.enemy_gain_block(i, amount, events);
                proof {
                    assert(events@[events@.len() - 1] == GameEvent::BlockGained { target: EventTarget::Enemy(i), amount });
                    assert(has_event(events@, GameEvent::BlockGained { target: EventTarget::Enemy(i), amount }));
                }
            },
            IntentType::Buff(status, stacks) => {
                self.enemy_status_add(i, status, stacks);
                let total = self.enemies[i].status_effects.get(status);
                events.push(
                    GameEvent::StatusApplied {
                        target: EventTarget::Enemy(i),
                        status,
                        stacks,
                        new_total: total,
                    },
                );
                proof {
                    assert(is_status_event(events@[events@.len() - 1], EventTarget::Enemy(i), status, stacks as int, total as int));
                    assert(has_status_event(events@, EventTarget::Enemy(i), status, stacks as int, total as int));
                }
            },
            IntentType::Debuff(status, stacks) => {
                self.player_status_add(status, stacks);
                let total = self.player.status_effects.get(status);
                events.push(
                    GameEvent::StatusApplied {
                        target: EventTarget::Player,
                        status,
                        stacks,
                        new_total: total,
                    },
                );
                proof {
                    assert(is_status_event(events@[events@.len() - 1], EventTarget::Player, status, stacks as int, total as int));
                    assert(has_status_event(events@, EventTarget::Player, status, stacks as int, total as int));
                }
            },
            IntentType::AttackDefend(atk, def) => {
                took = self.enemy_attack(i, atk, &pre_tick, events);
                proof {
                    assert(spec_enemy_hit(atk as int, pre_tick, acting.player.status_effects) == spec_enemy_hit(
                        atk as int,
                        old(self).enemies@[i as int].status_effects,
                        acting.player.status_effects,
                    ));
                }
                let ghost atk_log = events@;
                self.enemy_gain_block(i, def, events);
                proof {
                    lemma_log_kept(atk_log, events@);
                    assert(events@[events@.len() - 1] == GameEvent::BlockGained { target: EventTarget::Enemy(i), amount: def });
                    assert(has_event(events@, GameEvent::BlockGained { target: EventTarget::Enemy(i), amount: def }));
                }
            },
            IntentType::BuffAllies(status, stacks) => {
                let n = self.enemies.len();
                let mut j: usize = 0;
                while j < n
                    invariant
                        events_extended(old(events)@, events@),
                        old(self).effect_frame(self),
                        n == self.enemies@.len(),
                        i < n,
                        self.concentration_active == old(self).concentration_active,
                        self.pending_discards == old(self).pending_discards,
                        self.player_took_damage_last_turn == old(self).player_took_damage_last_turn,
                        self.player == old(self).player,
                        j <= n,
                        forall|k: int| 0 <= k < j && k != i ==> if old(self).enemies@[k].hp > 0 {
                            enemy_status_added(old(self).enemies@[k], #[trigger] self.enemies@[k], status, stacks as int)
                        } else {
                            self.enemies@[k] == old(self).enemies@[k]
                        },
                        forall|k: int| j <= k < n && k != i ==> #[trigger] self.enemies@[k] == old(self).enemies@[k],
                        events_extended(dot_log, events@),
                        self.enemies@[i as int] == acting.enemies@[i as int],
                        forall|k: int| 0 <= k < j && k != i && old(self).enemies@[k].hp > 0 ==> has_status_event(
                            events@,
                            EventTarget::Enemy(k as usize),
                            status,
                            stacks as int,
                            (#[trigger] self.enemies@[k]).status_effects.count(status),
                        ),
                    decreases n - j,
                {
                    let ghost pre_log = events@;
                    if j != i && !self.enemies[j].is_dead() {
                        self.enemy_status_add(j, status, stacks);
                        let total = self.enemies[j].status_effects.get(status);
                        events.push(
                            GameEvent::StatusApplied {
                                target: EventTarget::Enemy(j),
                                status,
                                stacks,
                                new_total: total,
                            },
                        );
                        proof {
                            assert(is_status_event(events@[events@.len() - 1], EventTarget::Enemy(j), status, stacks as int, total as int));
                        }
                    }
                    proof {
                        lemma_log_kept(pre_log, events@);
                    }
                    j = j + 1;
                }
            },
        }
        self.advance_enemy_intent(i, content);
        proof {
            lemma_log_kept(dot_log, events@);
            let e = old(self).enemies@[i as int];
            assert(e.status_effects.count(StatusType::Bleeding) > 0 ==> has_dot_event(
                events@,
                EventTarget::Enemy(i),
                e.status_effects.count(StatusType::Bleeding),
            ));
            assert(self.enemies@[i as int].hp <= 0 ==> has_event(events@, GameEvent::EnemyDied { enemy_index: i }));
        }
        took
    }

    /// Start the next player turn: reset block (unless Block Retention;
    /// keep up to the retain cap, else drop to the block floor), refill
    /// energy, Berserker's Trance, and draw.
    fn start_player_turn(&mut self, events: &mut Vec<GameEvent>)
        requires
            old(self).wf(),
            old(self).turn <= MAX_TURNS,
        ensures
            events_extended(old(events)@, final(events)@),
            final(self).wf(),
            final(self).player.max_hp == old(self).player.max_hp,
            final(self).card_multiset() == old(self).card_multiset(),
            final(self).enemies@.len() == old(self).enemies@.len(),
            final(self).phase == CombatPhase::PlayerTurn,
            final(self).turn == old(self).turn,
            final(self).cards_played_this_turn == 0,
            final(self).player.energy == final(self).player.max_energy,
            final(self).enemies == old(self).enemies,
            final(self).player_took_damage_last_turn == old(self).player_took_damage_last_turn,
            player_at_turn_start(*old(self), final(self).player),
            turn_start_drawn(*old(self), *final(self)),
    {
        self.phase = CombatPhase::PlayerTurn;
        if !self.player.status_effects.has(StatusType::BlockRetention) {
            if self.retain_block_cap > 0 {
                if self.player.block > self.retain_block_cap {
                    self.player.block = self.retain_block_cap;
                }
            } else {
                self.player.block = self.block_floor;
            }
        }
        self.player.energy = self.player.max_energy;
        self.cards_played_this_turn = 0;
        self.eagle_attack_used = false;
        let mut trance_draw: usize = 0;
        if self.player.status_effects.has(StatusType::BerserkersTrance) {
            let old_hp = self.player.hp;
            self.player.hp = if self.player.hp - 2 > 0 { self.player.hp - 2 } else { 0 };
            let hp_lost = old_hp - self.player.hp;
            if hp_lost > 0 {
                events.push(
                    GameEvent::DamageDealt {
                        target: EventTarget::Player,
                        base: 2,
                        modified: 2,
                        blocked: 0,
                        hp_lost,
                    },
                );
                self.apply_hp_loss_triggers(hp_lost, events);
            }
            trance_draw = 1;
        }
        events.push(GameEvent::TurnStarted { turn: self.turn });
        let ghost mid = *self;
        proof {
            assert(mid.hand == old(self).hand && mid.draw_pile == old(self).draw_pile);
            assert(mid.discard == old(self).discard && mid.exhaust == old(self).exhaust && mid.rng == old(self).rng);
        }
        self.draw_cards(self.draw_per_turn + trance_draw, events);
        proof {
            assert(mid == (CombatState {
                hand: old(self).hand,
                draw_pile: old(self).draw_pile,
                discard: old(self).discard,
                exhaust: old(self).exhaust,
                rng: old(self).rng,
                ..*self
            }));
        }
    }

    /// Every living enemy acts in order; then the end conditions are
    /// checked and, if the combat goes on, the next player turn starts —
    /// unless the turn limit is passed, which is a defeat.
    fn execute_enemy_turn(&mut self, content: &ContentTables, events: &mut Vec<GameEvent>)
        requires
            old(self).wf(),
            old(self).phase == CombatPhase::EnemyTurn,
        ensures
            events_extended(old(events)@, final(events)@),
            final(self).wf(),
            final(self).player.max_hp == old(self).player.max_hp,
            final(self).card_multiset() == old(self).card_multiset(),
            final(self).enemies@.len() == old(self).enemies@.len(),
            final(self).phase != CombatPhase::EnemyTurn,
            final(self).phase == CombatPhase::PlayerTurn ==> {
                &&& final(self).turn == old(self).turn + 1
                &&& final(self).turn <= MAX_TURNS
                &&& final(self).cards_played_this_turn == 0
                &&& final(self).player.energy == final(self).player.max_energy
            },
            final(self).phase != CombatPhase::PlayerTurn ==> final(self).turn == old(self).turn
                || final(self).turn == old(self).turn + 1,
            enemy_turn_done(*old(self), *final(self), final(events)@),
    {
        let n = self.enemies.len();
        let mut took_damage = false;
        let mut i: usize = 0;
        let ghost mut states: Seq<CombatState> = seq![*self];
        let ghost mut tooks: Seq<bool> = Seq::empty();
        while i < n
            invariant
                events_extended(old(events)@, events@),
                old(self).effect_frame(self),
                n == self.enemies@.len(),
                i <= n,
                enemy_turn_trace(states, tooks, events@),
                tooks.len() == i,
                states[0] == *old(self),
                states.last() == *self,
                took_damage == tooks.contains(true),
            decreases n - i,
        {
            let ghost prev = *self;
            let ghost prev_log = events@;
            let t = self.enemy_act(i, content, events);
            if t {
                took_damage = true;
            }
            proof {
                let s0 = states;
                let t0 = tooks;
                states = states.push(*self);
                tooks = tooks.push(t);
                lemma_enemy_turn_trace_kept(s0, t0, prev_log, events@);
                lemma_enemy_turn_trace_push(s0, t0, events@, *self, t);
                assert(took_damage == tooks.contains(true)) by {
                    if t {
                        assert(tooks[tooks.len() - 1] == true);
                    } else if took_damage {
                        let w = choose|j: int| 0 <= j < t0.len() && t0[j] == true;
                        assert(tooks[w] == true);
                    } else {
                        assert forall|j: int| 0 <= j < tooks.len() implies tooks[j] != true by {
                            if j < t0.len() {
                                assert(tooks[j] == t0[j]);
                            }
                        }
                    }
                }
            }
            i = i + 1;
        }
        self.player_took_damage_last_turn = took_damage;
        let ghost acted = states.last();
        let ghost acted_log = events@;
        proof {
            assert(enemy_turn_trace(states, tooks, acted_log));
        }
        self.check_end_conditions(events);
        if self.phase == CombatPhase::Victory || self.phase == CombatPhase::Defeat {
            proof {
                lemma_enemy_turn_trace_kept(states, tooks, acted_log, events@);
            }
            return;
        }
        self.turn = self.turn + 1;
        if self.turn > MAX_TURNS {
            self.phase = CombatPhase::Defeat;
            events.push(GameEvent::CombatDefeat);
            proof {
                lemma_enemy_turn_trace_kept(states, tooks, acted_log, events@);
            }
            return;
        }
        self.start_player_turn(events);
        proof {
            lemma_enemy_turn_trace_kept(states, tooks, acted_log, events@);
        }
    }

    /// Discard the hand at end of turn, keeping the most recent
    /// concentration card in hand.
    fn discard_hand_keep_concentration(&mut self, content: &ContentTables)
        requires
            old(self).wf(),
        ensures
            old(self).effect_frame(final(self)),
            old(self).same_except_piles(final(self)),
            final(self).draw_pile == old(self).draw_pile,
            final(self).exhaust == old(self).exhaust,
            final(self).hand@ == match last_concentration_card(content, old(self).hand@) {
                Some(c) => seq![c],
                None => Seq::<CardInstance>::empty(),
            },
            final(self).discard@ == old(self).discard@ + hand_discards(content, old(self).hand@, false),
            *final(self) == (CombatState { hand: final(self).hand, discard: final(self).discard, ..*old(self) }),
    {
        let ghost m0 = self.card_multiset();
        let mut hand: Vec<CardInstance> = Vec::new();
        std::mem::swap(&mut hand, &mut self.hand);
        let mut kept: Option<CardInstance> = None;
        let ghost d0 = self.discard@;
        let ghost h0 = hand@;
        proof {
            vstd::seq_lib::lemma_multiset_commutative(self.draw_pile@, h0);
        }
        while hand.len() > 0
            invariant
                self.hand@.len() == 0,
                self.card_multiset().add(hand@.to_multiset()).add(
                    match kept {
                        Some(c) => Multiset::singleton(c),
                        None => Multiset::empty(),
                    },
                ) == m0,
                old(self).same_except_piles(self),
                self.draw_pile == old(self).draw_pile,
                self.exhaust == old(self).exhaust,
                h0 == old(self).hand@,
                d0 == old(self).discard@,
                *self == (CombatState { hand: self.hand, discard: self.discard, ..*old(self) }),
                self.discard@ + hand_discards(content, hand@, kept is Some) == d0 + hand_discards(content, h0, false),
                (match kept {
                    Some(c) => Some(c),
                    None => last_concentration_card(content, hand@),
                }) == last_concentration_card(content, h0),
            decreases hand@.len(),
        {
            let ghost hb = hand@;
            let ghost kb = kept;
            let ghost db = self.discard@;
            let card = hand.pop().unwrap();
            proof {
                assert(hb =~= hand@.push(card));
                assert(hb.last() == card);
                assert(hb.drop_last() =~= hand@);
            }
            let is_conc = Self::is_concentration(content, &card.def_id);
            if is_conc && kept.is_none() {
                kept = Some(card);
            } else {
                let ghost cb = self.discard@;
                self.discard.push(card);
                proof {
                    assert(self.discard@ =~= cb.push(card));
                    assert(self.discard@ + hand_discards(content, hand@, kept is Some)
                        =~= db + (seq![card] + hand_discards(content, hand@, kept is Some)));
                }
            }
            proof {
                assert(self.card_multiset().add(hand@.to_multiset()).add(
                    match kept {
                        Some(c) => Multiset::singleton(c),
                        None => Multiset::empty(),
                    },
                ) =~= m0);
            }
        }
        proof {
            assert(hand@.to_multiset() =~= Multiset::empty());
            assert(self.discard@ + hand_discards(content, hand@, kept is Some) =~= self.discard@);
        }
        match kept {
            Some(card) => {
                self.push_to_hand_or_discard(card);
                proof {
                    assert(self.card_multiset() =~= m0);
                }
            },
            None => {
                proof {
                    assert(self.card_multiset() =~= m0);
                }
            },
        }
    }

    fn apply_end_turn(&mut self, content: &ContentTables, events: &mut Vec<GameEvent>) -> (r: Result<(), ActionError>)
        requires
            old(self).wf(),
        ensures
            events_extended(old(events)@, final(events)@),
            match r {
                Err(e) => {
                    &&& old(self).spec_action_error(Action::EndTurn, content) == Some(e)
                    &&& *final(self) == *old(self)
                },
                Ok(()) => {
                    &&& old(self).spec_action_error(Action::EndTurn, content) is None
                    &&& final(self).wf()
                    &&& final(self).player.max_hp == old(self).player.max_hp
                    &&& final(self).card_multiset() == old(self).card_multiset()
                    &&& final(self).enemies@.len() == old(self).enemies@.len()
                    &&& final(self).phase != CombatPhase::EnemyTurn
                    &&& exists|t: CombatState| #[trigger] end_turn_ticked(*old(self), t) && if end_turn_stops_on_tick(
                        *old(self),
                        t,
                    ) {
                        *final(self) == (CombatState {
                            phase: if t.player.hp <= 0 { CombatPhase::Defeat } else { CombatPhase::Victory },
                            ..t
                        })
                    } else {
                        exists|d: CombatState| #[trigger] hand_discarded_at_end(t, d, content) && enemy_turn_done(
                            d,
                            *final(self),
                            final(events)@,
                        )
                    }
                    &&& final(self).phase == CombatPhase::PlayerTurn ==> {
                        &&& final(self).turn == old(self).turn + 1
                        &&& final(self).turn <= MAX_TURNS
                        &&& final(self).cards_played_this_turn == 0
                        &&& final(self).player.energy == final(self).player.max_energy
                    }
                },
            },
            r is Ok && !(exists|t: CombatState| #[trigger] end_turn_ticked(*old(self), t) && end_turn_stops_on_tick(*old(self), t))
                ==> exists|j: int| old(events)@.len() <= j < final(events)@.len() && #[trigger] final(events)@[j] == (GameEvent::TurnEnded {
                turn: old(self).turn,
            }),
            r is Ok ==> end_turn_ticks_logged(*old(self), final(events)@),
    {
        if self.phase == CombatPhase::Victory || self.phase == CombatPhase::Defeat {
            return Err(ActionError::CombatOver);
        }
        if self.phase != CombatPhase::PlayerTurn {
            return Err(ActionError::NotPlayerTurn);
        }
        if self.pending_discards > 0 {
            return Err(ActionError::MustDiscardFirst);
        }
        let mending_heal = self.player.status_effects.tick_mending();
        proof {
            assert(in_limit(self.player.status_effects.count(StatusType::Mending)));
        }
        if mending_heal > 0 {
            let h = clamp64(self.player.hp as i64 + mending_heal as i64);
            self.player.hp = if h < self.player.max_hp { h } else { self.player.max_hp };
            events.push(
                GameEvent::Healed {
                    target: EventTarget::Player,
                    amount: mending_heal,
                    new_hp: self.player.hp,
                },
            );
            proof {
                assert(events@[events@.len() - 1] matches GameEvent::Healed { target, amount, .. } && target == EventTarget::Player
                    && amount == mending_heal);
            }
        }
        let ghost heal_log = events@;
        let dot = Self::tick_statuses(&mut self.player.status_effects);
        if dot > 0 {
            self.player.hp = clamp64(self.player.hp as i64 - dot as i64);
        }
        let ghost ticked = *self;
        proof {
            assert(end_turn_ticked(*old(self), ticked));
        }
        if dot > 0 {
            events.push(
                GameEvent::DotDamage {
                    target: EventTarget::Player,
                    source: StatusType::Bleeding,
                    damage: dot,
                },
            );
        }
        let ghost tick_log = events@;
        proof {
            if dot > 0 {
                assert(tick_log[tick_log.len() - 1] matches GameEvent::DotDamage { target, source, damage } && target
                    == EventTarget::Player && source == StatusType::Bleeding && damage == dot);
            }
            if mending_heal > 0 {
                let k = heal_log.len() - 1;
                assert(tick_log[k] == heal_log[k]);
            }
            assert(end_turn_ticks_logged(*old(self), tick_log));
        }
        if dot > 0 {
            self.check_end_conditions(events);
            if self.phase == CombatPhase::Victory || self.phase == CombatPhase::Defeat {
                proof {
                    assert(end_turn_stops_on_tick(*old(self), ticked));
                    lemma_ticks_logged_kept(*old(self), tick_log, events@);
                }
                return Ok(());
            }
        }
        self.discard_hand_keep_concentration(content);
        events.push(GameEvent::TurnEnded { turn: self.turn });
        let ghost ended_at = events@.len() - 1;
        self.phase = CombatPhase::EnemyTurn;
        let ghost discarded = *self;
        proof {
            assert(hand_discarded_at_end(ticked, discarded, content));
        }
        self.execute_enemy_turn(content, events);
        proof {
            assert(events@[ended_at] == (GameEvent::TurnEnded { turn: old(self).turn }));
            lemma_ticks_logged_kept(*old(self), tick_log, events@);
        }
        Ok(())
    }

    // ── Discard card ────────────────────────────────────────────────────

    fn apply_discard_card(&mut self, hand_index: usize, content: &ContentTables, events: &mut Vec<GameEvent>) -> (r: Result<(), ActionError>)
        requires
            old(self).wf(),
        ensures
            events_extended(old(events)@, final(events)@),
            match r {
                Err(e) => {
                    &&& old(self).spec_action_error(Action::DiscardCard { hand_index }, content) == Some(e)
                    &&& *final(self) == *old(self)
                },
                Ok(()) => {
                    &&& old(self).spec_action_error(Action::DiscardCard { hand_index }, content) is None
                    &&& final(self).wf()
                    &&& final(self).card_multiset() == old(self).card_multiset()
                    &&& final(self).hand@ == old(self).hand@.remove(hand_index as int)
                    &&& final(self).discard@ == old(self).discard@.push(old(self).hand@[hand_index as int])
                    &&& final(self).pending_discards == old(self).pending_discards - 1
                    &&& final(self).draw_pile == old(self).draw_pile
                    &&& final(self).exhaust == old(self).exhaust
                    &&& final(self).player == old(self).player
                    &&& final(self).enemies == old(self).enemies
                    &&& final(self).phase == old(self).phase
                    &&& final(self).turn == old(self).turn
                },
            },
            r is Ok ==> final(events)@ == old(events)@.push(GameEvent::CardDiscarded { card_id: old(self).hand@[hand_index as int].def_id }),
    {
        if self.phase == CombatPhase::Victory || self.phase == CombatPhase::Defeat {
            return Err(ActionError::CombatOver);
        }
        if self.phase != CombatPhase::PlayerTurn {
            return Err(ActionError::NotPlayerTurn);
        }
        if self.pending_discards == 0 {
            return Err(ActionError::NoPendingDiscards);
        }
        if hand_index >= self.hand.len() {
            return Err(ActionError::InvalidHandIndex);
        }
        let ghost m0 = self.card_multiset();
        let ghost h0 = self.hand@;
        let ghost c0 = self.discard@;
        let card = self.hand.remove(hand_index);
        events.push(GameEvent::CardDiscarded { card_id: card.def_id.clone() });
        self.discard.push(card);
        self.pending_discards = self.pending_discards - 1;
        proof {
            assert(self.hand@ =~= h0.remove(hand_index as int));
            assert(self.discard@ =~= c0.push(card));
            assert(self.card_multiset() =~= m0);
        }
        Ok(())
    }

    // ── Public API ──────────────────────────────────────────────────────

    /// Whether playing the card at hand position `i` against `target` is an
    /// action that `legal_actions` offers: the card is playable, and a
    /// single-target card names a living enemy (a Marked one for cards that
    /// need Marked) while any other card names none.
    #[verifier::opaque]
    pub open spec fn spec_play_legal(&self, i: int, target: Option<usize>, content: &ContentTables) -> bool {
        &&& self.spec_can_play(i, content)
        &&& {
            let def = content.spec_card(self.hand@[i].def_id@).unwrap();
            if def.spec_needs_single_target() {
                match target {
                    Some(j) => {
                        &&& j < self.enemies@.len()
                        &&& self.enemies@[j as int].hp > 0
                        &&& def.spec_requires_marked() ==> self.enemies@[j as int].status_effects.count(StatusType::Marked) > 0
                    },
                    None => false,
                }
            } else {
                target is None
            }
        }
    }

    /// Whether an action is one that `legal_actions` offers.
    pub open spec fn spec_legal(&self, action: Action, content: &ContentTables) -> bool {
        &&& !self.is_over()
        &&& self.phase == CombatPhase::PlayerTurn
        &&& match action {
            Action::EndTurn => self.pending_discards == 0,
            Action::DiscardCard { hand_index } => self.pending_discards > 0 && hand_index
                < self.hand@.len(),
            Action::PlayCard { hand_index, target } => self.spec_play_legal(hand_index as int, target, content),
        }
    }

    /// Check whether a card at the given hand index is playable.
    pub fn can_play_card(&self, hand_index: usize, content: &ContentTables) -> (r: bool)
        requires
            self.wf(),
        ensures
            r == self.spec_can_play(hand_index as int, content),
    {
        if self.pending_discards > 0 {
            return false;
        }
        if hand_index >= self.hand.len() {
            return false;
        }
        match content.card_def(&self.hand[hand_index].def_id) {
            None => false,
            Some(def) => {
                if self.player.energy < def.cost {
                    return false;
                }
                if def.concentration && self.concentration_active {
                    return false;
                }
                true
            },
        }
    }

    /// The targets with which the card at hand position `i` can be played,
    /// living enemies in order for a single-target card.
    fn play_targets(&self, i: usize, content: &ContentTables) -> (r: Vec<Option<usize>>)
        requires
            self.wf(),
        ensures
            forall|k: int| 0 <= k < r@.len() ==> self.spec_play_legal(i as int, #[trigger] r@[k], content),
            forall|t: Option<usize>| #[trigger] self.spec_play_legal(i as int, t, content) ==> r@.contains(t),
    {
        reveal(CombatState::spec_play_legal);
        let mut targets: Vec<Option<usize>> = Vec::new();
        if !self.can_play_card(i, content) {
            return targets;
        }
        let def = content.card_def(&self.hand[i].def_id).unwrap();
        if !def.needs_single_target() {
            targets.push(None);
            proof {
                assert(targets@[0] == None::<usize>);
            }
            return targets;
        }
        let requires_marked = def.requires_marked();
        let mut j: usize = 0;
        while j < self.enemies.len()
            invariant
                j <= self.enemies@.len(),
                self.wf(),
                self.spec_can_play(i as int, content),
                content.spec_card(self.hand@[i as int].def_id@) == Some(*def),
                def.spec_needs_single_target(),
                requires_marked == def.spec_requires_marked(),
                forall|k: int| 0 <= k < targets@.len() ==> self.spec_play_legal(i as int, #[trigger] targets@[k], content),
                forall|jj: usize| jj < j && #[trigger] self.spec_play_legal(i as int, Some(jj), content) ==> targets@.contains(Some(jj)),
            decreases self.enemies@.len() - j,
        {
            proof {
                reveal(CombatState::spec_play_legal);
            }
            if !self.enemies[j].is_dead() {
                proof {
                    assert(enemy_bounded(self.enemies@[j as int]));
                }
                if !(requires_marked && self.enemies[j].status_effects.get(StatusType::Marked) <= 0) {
                    let ghost pre = targets@;
                    targets.push(Some(j));
                    proof {
                        assert(targets@[pre.len() as int] == Some(j));
                        assert forall|k: int| 0 <= k < targets@.len() implies self.spec_play_legal(i as int, #[trigger] targets@[k], content) by {
                            if k < pre.len() {
                                assert(targets@[k] == pre[k]);
                            }
                        }
                        assert forall|jj: usize| jj < j + 1 && #[trigger] self.spec_play_legal(i as int, Some(jj), content)
                            implies targets@.contains(Some(jj)) by {
                            if jj < j {
                                let k = choose|k: int| 0 <= k < pre.len() && pre[k] == Some(jj);
                                assert(targets@[k] == pre[k]);
                            }
                        }
                    }
                }
            }
            j = j + 1;
        }
        proof {
            assert forall|t: Option<usize>| #[trigger] self.spec_play_legal(i as int, t, content) implies targets@.contains(t) by {
                if let Some(jj) = t {
                    assert(jj < self.enemies@.len());
                }
            }
        }
        targets
    }

    /// Append one `PlayCard` action for hand position `i` per target.
    fn push_plays(actions: &mut Vec<Action>, i: usize, targets: &Vec<Option<usize>>)
        ensures
            final(actions)@ == old(actions)@ + targets@.map_values(|t: Option<usize>| Action::PlayCard { hand_index: i, target: t }),
    {
        let ghost start = actions@;
        let mut k: usize = 0;
        while k < targets.len()
            invariant
                k <= targets@.len(),
                actions@ == start + targets@.take(k as int).map_values(|t: Option<usize>| Action::PlayCard { hand_index: i, target: t }),
            decreases targets@.len() - k,
        {
            actions.push(Action::PlayCard { hand_index: i, target: targets[k] });
            k = k + 1;
            proof {
                assert(targets@.take(k as int).map_values(|t: Option<usize>| Action::PlayCard { hand_index: i, target: t })
                    =~= targets@.take(k - 1).map_values(|t: Option<usize>| Action::PlayCard { hand_index: i, target: t }).push(
                        Action::PlayCard { hand_index: i, target: targets@[k - 1] }));
            }
        }
        proof {
            assert(targets@.take(k as int) =~= targets@);
        }
    }

    /// Returns every action the current player/agent can legally take: the
    /// pending discards when there are any, else each playable card (once per
    /// living target for single-target cards, Marked targets only for cards
    /// that need Marked) followed by ending the turn.
    pub fn legal_actions(&self, content: &ContentTables) -> (r: Vec<Action>)
        requires
            self.wf(),
        ensures
            forall|k: int| 0 <= k < r@.len() ==> self.spec_legal(#[trigger] r@[k], content),
            forall|a: Action| #[trigger] self.spec_legal(a, content) ==> r@.contains(a),
            self.pending_discards > 0 && !self.is_over() && self.phase == CombatPhase::PlayerTurn
                ==> r@.len() == self.hand@.len(),
            self.phase != CombatPhase::PlayerTurn ==> r@.len() == 0,
            self.phase == CombatPhase::PlayerTurn && self.pending_discards > 0 ==> forall|k: int| 0 <= k < r@.len()
                ==> #[trigger] r@[k] == (Action::DiscardCard { hand_index: k as usize }),
            self.phase == CombatPhase::PlayerTurn && self.pending_discards == 0 ==> {
                &&& r@.len() > 0
                &&& r@.last() == Action::EndTurn
                &&& forall|k: int| 0 <= k < r@.len() - 1 ==> #[trigger] r@[k] is PlayCard
                &&& forall|k: int, l: int| 0 <= k < l < r@.len() - 1 ==> played_hand_index(#[trigger] r@[k])
                    <= played_hand_index(#[trigger] r@[l])
            },
    {
        let mut actions: Vec<Action> = Vec::new();
        if self.phase != CombatPhase::PlayerTurn {
            return actions;
        }
        if self.pending_discards > 0 {
            let mut i: usize = 0;
            while i < self.hand.len()
                invariant
                    i <= self.hand@.len(),
                    actions@.len() == i,
                    self.pending_discards > 0,
                    self.phase == CombatPhase::PlayerTurn,
                    forall|k: int| 0 <= k < i ==> #[trigger] actions@[k] == (Action::DiscardCard { hand_index: k as usize }),
                decreases self.hand@.len() - i,
            {
                actions.push(Action::DiscardCard { hand_index: i });
                i = i + 1;
            }
            proof {
                assert forall|a: Action| #[trigger] self.spec_legal(a, content) implies actions@.contains(a) by {
                    reveal(CombatState::spec_play_legal);
                    if let Action::DiscardCard { hand_index } = a {
                        assert(actions@[hand_index as int] == a);
                    }
                }
            }
            return actions;
        }
        let mut i: usize = 0;
        while i < self.hand.len()
            invariant
                i <= self.hand@.len(),
                self.wf(),
                self.pending_discards == 0,
                self.phase == CombatPhase::PlayerTurn,
                forall|k: int| 0 <= k < actions@.len() ==> self.spec_legal(#[trigger] actions@[k], content),
                forall|ii: usize, t: Option<usize>| ii < i && #[trigger] self.spec_play_legal(ii as int, t, content)
                    ==> actions@.contains(Action::PlayCard { hand_index: ii, target: t }),
                forall|k: int| 0 <= k < actions@.len() ==> #[trigger] actions@[k] is PlayCard && played_hand_index(actions@[k]) < i,
                forall|k: int, l: int| 0 <= k < l < actions@.len() ==> played_hand_index(#[trigger] actions@[k])
                    <= played_hand_index(#[trigger] actions@[l]),
            decreases self.hand@.len() - i,
        {
            let targets = self.play_targets(i, content);
            let ghost pre = actions@;
            Self::push_plays(&mut actions, i, &targets);
            proof {
                let f = |t: Option<usize>| Action::PlayCard { hand_index: i, target: t };
                assert forall|k: int| 0 <= k < actions@.len() implies self.spec_legal(#[trigger] actions@[k], content) by {
                    if k < pre.len() {
                        assert(actions@[k] == pre[k]);
                    } else {
                        assert(actions@[k] == f(targets@[k - pre.len()]));
                        assert(self.spec_play_legal(i as int, targets@[k - pre.len()], content));
                    }
                }
                assert forall|k: int| 0 <= k < actions@.len() implies #[trigger] actions@[k] is PlayCard && played_hand_index(
                    actions@[k],
                ) < i + 1 by {
                    if k < pre.len() {
                        assert(actions@[k] == pre[k]);
                    } else {
                        assert(actions@[k] == f(targets@[k - pre.len()]));
                    }
                }
                assert forall|k: int, l: int| 0 <= k < l < actions@.len() implies played_hand_index(#[trigger] actions@[k])
                    <= played_hand_index(#[trigger] actions@[l]) by {
                    if l < pre.len() {
                        assert(actions@[k] == pre[k] && actions@[l] == pre[l]);
                    } else if k < pre.len() {
                        assert(actions@[k] == pre[k]);
                        assert(actions@[l] == f(targets@[l - pre.len()]));
                    } else {
                        assert(actions@[k] == f(targets@[k - pre.len()]));
                        assert(actions@[l] == f(targets@[l - pre.len()]));
                    }
                }
                assert forall|ii: usize, t: Option<usize>| ii < i + 1 && #[trigger] self.spec_play_legal(ii as int, t, content)
                    implies actions@.contains(Action::PlayCard { hand_index: ii, target: t }) by {
                    if ii < i {
                        let k = choose|k: int| 0 <= k < pre.len() && pre[k] == Action::PlayCard { hand_index: ii, target: t };
                        assert(actions@[k] == pre[k]);
                    } else {
                        assert(targets@.contains(t));
                        let k = choose|k: int| 0 <= k < targets@.len() && targets@[k] == t;
                        assert(actions@[pre.len() + k] == f(targets@[k]));
                    }
                }
            }
            i = i + 1;
        }
        let ghost pre = actions@;
        actions.push(Action::EndTurn);
        proof {
            assert(actions@[pre.len() as int] == Action::EndTurn);
            assert forall|k: int| 0 <= k < actions@.len() - 1 implies #[trigger] actions@[k] is PlayCard by {
                assert(actions@[k] == pre[k]);
            }
            assert forall|k: int, l: int| 0 <= k < l < actions@.len() - 1 implies played_hand_index(#[trigger] actions@[k])
                <= played_hand_index(#[trigger] actions@[l]) by {
                assert(actions@[k] == pre[k] && actions@[l] == pre[l]);
            }
            assert forall|k: int| 0 <= k < actions@.len() implies self.spec_legal(#[trigger] actions@[k], content) by {
                if k < pre.len() {
                    assert(actions@[k] == pre[k]);
                }
            }
            assert forall|a: Action| #[trigger] self.spec_legal(a, content) implies actions@.contains(a) by {
                match a {
                    Action::PlayCard { hand_index, target } => {
                        reveal(CombatState::spec_play_legal);
                        assert(hand_index < i);
                        assert(self.spec_play_legal(hand_index as int, target, content));
                        let k = choose|k: int| 0 <= k < pre.len() && pre[k] == a;
                        assert(actions@[k] == pre[k]);
                    },
                    Action::EndTurn => {},
                    Action::DiscardCard { .. } => {},
                }
            }
        }
        actions
    }

    /// Apply a player action and return the resulting events. A refused
    /// action leaves the combat unchanged; an accepted one never creates or
    /// destroys cards.
    /// What an accepted action did to the combat: no error applies, the
    /// combat stays well formed with the same cards and number of enemies,
    /// and per action: a played card was started and resolved (see
    /// `play_started`, `play_resolved`); an ended turn ticked, discarded and
    /// ran the enemy turn; a discard moved the card.
    pub open spec fn combat_action_done(
        &self,
        after: CombatState,
        action: Action,
        content: &ContentTables,
        log: Seq<GameEvent>,
    ) -> bool {
        let before = *self;
        &&& before.spec_action_error(action, content) is None
        &&& after.wf()
        &&& after.card_multiset() == before.card_multiset()
        &&& after.enemies@.len() == before.enemies@.len()
        &&& match action {
            Action::PlayCard { hand_index, target } => {
                &&& exists|mid: CombatState| #[trigger] play_started(
                    before,
                    mid,
                    hand_index as int,
                    played_def(before, hand_index as int, content),
                ) && play_resolved(
                    mid,
                    after,
                    before.hand@[hand_index as int],
                    played_def(before, hand_index as int, content),
                    play_draws(before, played_def(before, hand_index as int, content)),
                    play_bonus(before, played_def(before, hand_index as int, content)),
                    target,
                    content,
                    log,
                )
                &&& after.phase == after.settled_phase()
                &&& after.turn == before.turn
                &&& after.cards_played_this_turn == (if before.cards_played_this_turn < LIMIT {
                    before.cards_played_this_turn + 1
                } else {
                    before.cards_played_this_turn as int
                })
                &&& before.played_card_exhausts(hand_index as int, content) ==> after.exhaust@.len() > 0
                    && after.exhaust@.last() == before.hand@[hand_index as int]
                &&& after.player.energy == before.energy_after_play(hand_index as int, content)
                &&& after.player.max_hp == before.player.max_hp
            },
            Action::EndTurn => {
                &&& end_turn_ticks_logged(before, log)
                &&& exists|t: CombatState| #[trigger] end_turn_ticked(before, t) && if end_turn_stops_on_tick(
                    before,
                    t,
                ) {
                    after == (CombatState {
                        phase: if t.player.hp <= 0 { CombatPhase::Defeat } else { CombatPhase::Victory },
                        ..t
                    })
                } else {
                    exists|d: CombatState| #[trigger] hand_discarded_at_end(t, d, content) && enemy_turn_done(
                        d,
                        after,
                        log,
                    )
                }
                &&& after.player.max_hp == before.player.max_hp
                &&& after.phase != CombatPhase::EnemyTurn
                &&& after.phase == CombatPhase::PlayerTurn ==> {
                    &&& after.turn == before.turn + 1
                    &&& after.cards_played_this_turn == 0
                    &&& after.player.energy == after.player.max_energy
                }
            },
            Action::DiscardCard { hand_index } => {
                &&& log == seq![GameEvent::CardDiscarded { card_id: before.hand@[hand_index as int].def_id }]
                &&& after.hand@ == before.hand@.remove(hand_index as int)
                &&& after.discard@ == before.discard@.push(before.hand@[hand_index as int])
                &&& after.pending_discards == before.pending_discards - 1
                &&& after.player == before.player
                &&& after.enemies == before.enemies
                &&& after.phase == before.phase
            },
        }
    }

    pub fn apply(&mut self, action: Action, content: &ContentTables) -> (r: Result<Vec<GameEvent>, ActionError>)
        requires
            old(self).wf(),
            old(self).action_defined(action, content),
        ensures
            match r {
                Err(e) => {
                    &&& old(self).spec_action_error(action, content) == Some(e)
                    &&& *final(self) == *old(self)
                },
                Ok(_) => {
                    old(self).combat_action_done(*final(self), action, content, r.unwrap()@)
                },
            },
            r is Ok ==> match action {
                Action::PlayCard { hand_index, .. } => r.unwrap()@.len() > 0 && is_card_played_event(
                    r.unwrap()@[0],
                    old(self).hand@[hand_index as int].def_id@,
                    hand_index,
                    played_def(*old(self), hand_index as int, content).cost as int,
                ),
                Action::EndTurn => !(exists|t: CombatState| #[trigger] end_turn_ticked(*old(self), t) && end_turn_stops_on_tick(
                    *old(self),
                    t,
                )) ==> r.unwrap()@.contains(GameEvent::TurnEnded { turn: old(self).turn }),
                Action::DiscardCard { .. } => true,
            },
    {
        let mut events: Vec<GameEvent> = Vec::new();
        let res = match action {
            Action::PlayCard { hand_index, target } => self.apply_play_card(hand_index, target, content, &mut events),
            Action::EndTurn => self.apply_end_turn(content, &mut events),
            Action::DiscardCard { hand_index } => self.apply_discard_card(hand_index, content, &mut events),
        };
        match res {
            Ok(()) => Ok(events),
            Err(e) => Err(e),
        }
    }

    /// Whether a card is drawn first at the start of combat.
    /// Whether a card is drawn first: its definition is innate, or the run
    /// made its id innate.
    pub open spec fn spec_is_innate(&self, card: CardInstance, content: &ContentTables) -> bool {
        ||| (match content.spec_card(card.def_id@) {
            Some(d) => d.innate,
            None => false,
        })
        ||| exists|j: int| 0 <= j < self.innate_overrides@.len() && (#[trigger] self.innate_overrides@[j])@ == card.def_id@
    }

    fn is_innate(&self, card: &CardInstance, content: &ContentTables) -> (r: bool)
        ensures
            r == self.spec_is_innate(*card, content),
    {
        let by_def = match content.card_def(&card.def_id) {
            Some(d) => d.innate,
            None => false,
        };
        if by_def {
            return true;
        }
        let mut i: usize = 0;
        while i < self.innate_overrides.len()
            invariant
                i <= self.innate_overrides@.len(),
                !by_def,
                !(match content.spec_card(card.def_id@) {
                    Some(d) => d.innate,
                    None => false,
                }),
                forall|j: int| 0 <= j < i ==> (#[trigger] self.innate_overrides@[j])@ != card.def_id@,
            decreases self.innate_overrides@.len() - i,
        {
            if self.innate_overrides[i] == card.def_id {
                proof {
                    assert(self.innate_overrides@[i as int]@ == card.def_id@);
                }
                return true;
            }
            i = i + 1;
        }
        false
    }

    /// A combat at act 1 (see `new_with_act`). Act-1 scaling leaves every
    /// enemy definition as it is, so intents follow the content's patterns.
    pub fn new(
        player: PlayerState,
        deck: Vec<CardInstance>,
        enemies: Vec<EnemyState>,
        seed: u64,
        bonus_draw_turn1: usize,
        bonus_energy_turn1: usize,
        class: Option<Class>,
        content: &ContentTables,
    ) -> (r: CombatState)
        requires
            player_bounded(player),
            forall|i: int| 0 <= i < enemies@.len() ==> enemy_bounded(#[trigger] enemies@[i]),
            enemies@.len() <= LIMIT,
        ensures
            r.wf(),
            r.phase == CombatPhase::PlayerTurn,
            r.turn == 1,
            r.act == 1,
            r.card_multiset() == deck@.to_multiset(),
            r.enemies@ == enemies@,
            r.enemy_defs@.len() == content.enemy_defs@.len(),
            forall|k: int| 0 <= k < r.enemy_defs@.len() ==> (#[trigger] r.enemy_defs@[k]).same_def(&content.enemy_defs@[k]),
            r.player.hp == player.hp,
            r.player.max_hp == player.max_hp,
            r.player.block == player.block,
            r.player.max_energy == player.max_energy,
            r.player.energy == clamp(player.energy + (bonus_energy_turn1 as i32)),
            r.player.status_effects.count(StatusType::Smite) == (if class == Some(Class::Paladin) {
                clamp(player.status_effects.count(StatusType::Smite) + 2)
            } else {
                player.status_effects.count(StatusType::Smite)
            }),
            r.player.status_effects.count(StatusType::Artifice) == (if class == Some(Class::Rogue) {
                clamp(player.status_effects.count(StatusType::Artifice) + 10)
            } else {
                player.status_effects.count(StatusType::Artifice)
            }),
            forall|t: StatusType| t != StatusType::Smite && t != StatusType::Artifice ==> #[trigger] r.player.status_effects.count(t)
                == player.status_effects.count(t),
            r.rng.spec_seed() == seed,
            r.hand@.len() == vstd::math::min(vstd::math::min(5 + bonus_draw_turn1, deck@.len() as int), MAX_HAND_SIZE as int),
            r.discard@.len() == 0,
            r.exhaust@.len() == 0,
            r.pending_discards == 0,
            !r.concentration_active,
            !r.player_took_damage_last_turn,
            r.cards_played_this_turn == 0,
            r.block_floor == 0,
            r.retain_block_cap == 0,
            r.draw_per_turn == 5,
            r.innate_overrides@.len() == 0,
            !r.eagle_attack_used,
            r.class == class,
            forall|j: int, k: int| 0 <= j < r.hand@.len() && 0 <= k < r.draw_pile@.len() && r.spec_is_innate(
                #[trigger] r.draw_pile@[k],
                content,
            ) ==> r.spec_is_innate(#[trigger] r.hand@[j], content),
    {
        let defs = copy_enemy_defs(&content.enemy_defs);
        Self::new_with_act(player, deck, enemies, seed, bonus_draw_turn1, bonus_energy_turn1, class, 1, defs, content)
    }

    /// Start a combat: shuffle the deck with the seed, put innate cards on
    /// top, give a Paladin 2 Smite, draw the opening hand (5 plus the bonus
    /// draw), add the bonus energy, and give a Rogue 10 Artifice.
    /// `enemy_defs` are the enemy definitions as scaled for this combat.
    pub fn new_with_act(
        player: PlayerState,
        deck: Vec<CardInstance>,
        enemies: Vec<EnemyState>,
        seed: u64,
        bonus_draw_turn1: usize,
        bonus_energy_turn1: usize,
        class: Option<Class>,
        act: u32,
        enemy_defs: Vec<EnemyDef>,
        content: &ContentTables,
    ) -> (r: CombatState)
        requires
            player_bounded(player),
            forall|i: int| 0 <= i < enemies@.len() ==> enemy_bounded(#[trigger] enemies@[i]),
            enemies@.len() <= LIMIT,
        ensures
            r.wf(),
            r.phase == CombatPhase::PlayerTurn,
            r.turn == 1,
            r.act == act,
            r.card_multiset() == deck@.to_multiset(),
            r.enemies@ == enemies@,
            r.enemy_defs == enemy_defs,
            r.player.hp == player.hp,
            r.player.max_hp == player.max_hp,
            r.player.block == player.block,
            r.player.max_energy == player.max_energy,
            r.player.energy == clamp(player.energy + (bonus_energy_turn1 as i32)),
            r.player.status_effects.count(StatusType::Smite) == (if class == Some(Class::Paladin) {
                clamp(player.status_effects.count(StatusType::Smite) + 2)
            } else {
                player.status_effects.count(StatusType::Smite)
            }),
            r.player.status_effects.count(StatusType::Artifice) == (if class == Some(Class::Rogue) {
                clamp(player.status_effects.count(StatusType::Artifice) + 10)
            } else {
                player.status_effects.count(StatusType::Artifice)
            }),
            forall|t: StatusType| t != StatusType::Smite && t != StatusType::Artifice ==> #[trigger] r.player.status_effects.count(t)
                == player.status_effects.count(t),
            r.rng.spec_seed() == seed,
            r.hand@.len() == vstd::math::min(vstd::math::min(5 + bonus_draw_turn1, deck@.len() as int), MAX_HAND_SIZE as int),
            r.discard@.len() == 0,
            r.exhaust@.len() == 0,
            r.pending_discards == 0,
            !r.concentration_active,
            !r.player_took_damage_last_turn,
            r.cards_played_this_turn == 0,
            r.block_floor == 0,
            r.retain_block_cap == 0,
            r.draw_per_turn == 5,
            r.innate_overrides@.len() == 0,
            !r.eagle_attack_used,
            r.class == class,
            forall|j: int, k: int| 0 <= j < r.hand@.len() && 0 <= k < r.draw_pile@.len() && r.spec_is_innate(
                #[trigger] r.draw_pile@[k],
                content,
            ) ==> r.spec_is_innate(#[trigger] r.hand@[j], content),
    {
        let mut rng = GameRng::new(seed);
        let mut draw_pile = deck;
        rng.shuffle(&mut draw_pile);
        let ghost shuffled = draw_pile@;
        let mut state = CombatState {
            draw_pile: Vec::new(),
            hand: Vec::new(),
            discard: Vec::new(),
            exhaust: Vec::new(),
            player,
            enemies,
            phase: CombatPhase::PlayerTurn,
            turn: 1,
            rng,
            class,
            player_took_damage_last_turn: false,
            concentration_active: false,
            pending_discards: 0,
            act,
            cards_played_this_turn: 0,
            block_floor: 0,
            retain_block_cap: 0,
            draw_per_turn: 5,
            innate_overrides: Vec::new(),
            eagle_attack_used: false,
            enemy_defs,
        };
        // Innate cards go to the top of the draw pile so they are drawn first.
        let mut innate: Vec<CardInstance> = Vec::new();
        let mut rest: Vec<CardInstance> = Vec::new();
        let mut k: usize = 0;
        while k < draw_pile.len()
            invariant
                k <= draw_pile@.len(),
                draw_pile@ == shuffled,
                rest@.to_multiset().add(innate@.to_multiset()) == shuffled.take(k as int).to_multiset(),
                forall|j: int| 0 <= j < innate@.len() ==> state.spec_is_innate(#[trigger] innate@[j], content),
                forall|j: int| 0 <= j < rest@.len() ==> !state.spec_is_innate(#[trigger] rest@[j], content),
                state.innate_overrides@.len() == 0,
            decreases draw_pile@.len() - k,
        {
            let card = draw_pile[k].duplicate();
            proof {
                assert(shuffled.take(k + 1) =~= shuffled.take(k as int).push(shuffled[k as int]));
            }
            if state.is_innate(&card, content) {
                innate.push(card);
            } else {
                rest.push(card);
            }
            k = k + 1;
        }
        proof {
            assert(shuffled.take(k as int) =~= shuffled);
            vstd::seq_lib::lemma_multiset_commutative(rest@, innate@);
        }
        let ghost rest0 = rest@;
        let ghost innate0 = innate@;
        rest.append(&mut innate);
        state.draw_pile = rest;
        let ghost pile = state.draw_pile@;
        proof {
            assert(pile =~= rest0 + innate0);
        }
        proof {
            assert(state.card_multiset() =~= deck@.to_multiset());
        }
        if class == Some(Class::Paladin) {
            state.player_status_add(StatusType::Smite, 2);
        }
        let mut setup_events: Vec<GameEvent> = Vec::new();
        let count = 5usize.saturating_add(bonus_draw_turn1);
        let ghost pre_draw = state;
        state.draw_cards(count, &mut setup_events);
        proof {
            assert(state.exhaust@.len() == 0);
            assert(pre_draw.hand@.len() == 0);
            assert(pre_draw.discard@.len() == 0);
            assert(pre_draw.card_multiset().len() == deck@.len());
            vstd::seq_lib::to_multiset_len(deck@);
            vstd::seq_lib::to_multiset_len(state.hand@);
            vstd::seq_lib::to_multiset_len(state.draw_pile@);
            vstd::seq_lib::to_multiset_len(state.discard@);
            vstd::seq_lib::to_multiset_len(state.exhaust@);
            assert(state.hand@.len() <= deck@.len());
            if state.draw_pile@.len() == 0 && state.discard@.len() == 0 {
                assert(state.card_multiset() =~= state.hand@.to_multiset());
            }
        }
        proof {
            let d = state.hand@.len() as int;
            let ln = pile.len() as int;
            assert(pre_draw.draw_pile@ == pile);
            assert(pre_draw.hand@.len() == 0);
            vstd::seq_lib::to_multiset_len(pile);
            assert(d <= ln);
            assert forall|j: int, k: int| 0 <= j < state.hand@.len() && 0 <= k < state.draw_pile@.len() && state.spec_is_innate(
                #[trigger] state.draw_pile@[k],
                content,
            ) implies state.spec_is_innate(#[trigger] state.hand@[j], content) by {
                assert(state.draw_pile@ == pile.take(ln - d));
                assert(state.draw_pile@[k] == pile[k]);
                assert(state.hand@[j] == pile[ln - 1 - j]);
                if k < rest0.len() {
                    assert(pile[k] == rest0[k]);
                } else {
                    assert(pile[ln - 1 - j] == innate0[ln - 1 - j - rest0.len()]);
                }
            }
        }
        #[verifier::truncate]
        let bonus = bonus_energy_turn1 as i32;
        state.player.energy = clamp64(state.player.energy as i64 + bonus as i64);
        if state.class == Some(Class::Rogue) {
            state.player_status_add(StatusType::Artifice, 10);
        }
        state
    }

    // ── End conditions ──────────────────────────────────────────────────

    fn any_enemy_alive(&self) -> (r: bool)
        ensures
            r == !self.all_enemies_dead(),
    {
        let mut i: usize = 0;
        while i < self.enemies.len()
            invariant
                i <= self.enemies@.len(),
                forall|j: int| 0 <= j < i ==> (#[trigger] self.enemies@[j]).hp <= 0,
            decreases self.enemies@.len() - i,
        {
            if !self.enemies[i].is_dead() {
                return true;
            }
            i = i + 1;
        }
        false
    }

    /// Defeat when the player is dead, else victory when every enemy is dead;
    /// otherwise nothing changes.
    fn check_end_conditions(&mut self, events: &mut Vec<GameEvent>)
        requires
            old(self).wf(),
        ensures
            events_extended(old(events)@, final(events)@),
            final(self).phase == (if old(self).player.hp <= 0 {
                CombatPhase::Defeat
            } else if old(self).all_enemies_dead() {
                CombatPhase::Victory
            } else {
                old(self).phase
            }),
            *final(self) == (CombatState { phase: final(self).phase, ..*old(self) }),
    {
        if self.player.is_dead() {
            self.phase = CombatPhase::Defeat;
            events.push(GameEvent::PlayerDied);
            events.push(GameEvent::CombatDefeat);
            return;
        }
        if !self.any_enemy_alive() {
            self.phase = CombatPhase::Victory;
            events.push(GameEvent::CombatVictory);
        }
    }
}

/// Every action that `legal_actions` offers is one that `apply` accepts:
/// it is refused with no error, and its card has a definition.
pub proof fn law_legal_actions_are_accepted(state: CombatState, action: Action, content: ContentTables)
    requires
        state.spec_legal(action, &content),
    ensures
        state.spec_action_error(action, &content) is None,
        state.action_defined(action, &content),
{
    reveal(CombatState::spec_play_legal);
}


fn within_limit(x: i32) -> (r: bool)
    ensures
        r == in_limit(x as int),
{
    -LIMIT <= x && x <= LIMIT
}

/// Whether a status table is well formed with every count within the limit.
pub fn statuses_are_bounded(m: &StatusMap) -> (r: bool)
    ensures
        r == statuses_bounded(*m),
{
    if !m.is_wf() {
        return false;
    }
    let c = m.counts_within(LIMIT);
    proof {
        if c {
            assert forall|s: StatusType| #[trigger] in_limit(m.count(s)) by {
                assert(-LIMIT <= m.count(s) <= LIMIT);
            }
        } else {
            let s = choose|s: StatusType| !(-LIMIT <= #[trigger] m.count(s) <= LIMIT);
            assert(!in_limit(m.count(s)));
        }
    }
    c
}

/// Whether the player's numbers and statuses are within the limit.
pub fn player_is_bounded(p: &PlayerState) -> (r: bool)
    ensures
        r == player_bounded(*p),
{
    statuses_are_bounded(&p.status_effects) && within_limit(p.hp) && within_limit(p.max_hp) && within_limit(p.block)
        && within_limit(p.energy) && within_limit(p.max_energy)
}

/// Whether an enemy's numbers and statuses are within the limit.
pub fn enemy_is_bounded(e: &EnemyState) -> (r: bool)
    ensures
        r == enemy_bounded(*e),
{
    statuses_are_bounded(&e.status_effects) && within_limit(e.hp) && within_limit(e.max_hp) && within_limit(e.block)
        && e.intent_index < usize::MAX
}

impl CombatState {
    /// Whether the combat is well formed: every number within the limit, the
    /// hand and pending discards within the hand size, the turn count in
    /// range.
    pub fn is_well_formed(&self) -> (r: bool)
        ensures
            r == self.wf(),
    {
        if !player_is_bounded(&self.player) {
            return false;
        }
        if self.enemies.len() > LIMIT as usize {
            return false;
        }
        let mut i: usize = 0;
        while i < self.enemies.len()
            invariant
                i <= self.enemies@.len(),
                forall|k: int| 0 <= k < i ==> enemy_bounded(#[trigger] self.enemies@[k]),
            decreases self.enemies@.len() - i,
        {
            if !enemy_is_bounded(&self.enemies[i]) {
                return false;
            }
            i = i + 1;
        }
        within_limit(self.block_floor) && within_limit(self.retain_block_cap) && self.cards_played_this_turn
            <= LIMIT as u32 && self.hand.len() <= MAX_HAND_SIZE && self.draw_per_turn <= LIMIT as usize
            && self.turn <= MAX_TURNS + 1 && (self.phase == CombatPhase::Defeat || self.turn <= MAX_TURNS)
            && self.pending_discards <= MAX_HAND_SIZE
    }
}


// ── Laws of the damage pipeline ─────────────────────────────────────────

/// Whether a status table holds nothing but `s` (any count of it).
pub open spec fn only_status(m: StatusMap, s: StatusType) -> bool {
    forall|t: StatusType| t != s ==> #[trigger] m.count(t) == 0
}

/// Whether a status table holds nothing at all.
pub open spec fn no_status(m: StatusMap) -> bool {
    forall|t: StatusType| #[trigger] m.count(t) == 0
}

/// A hit by an attacker with no statuses on a plain defender deals its
/// base damage, single target or not; a miss deals nothing; and no hit is
/// ever negative or above the limit.
pub proof fn law_plain_hit_deals_base(base: int, st: StatusMap, threatened: bool, marked: int, single: bool)
    requires
        no_status(st),
        0 < base <= LIMIT,
    ensures
        spec_calculate_damage(base, st, false, 0, single) == base,
        spec_calculate_damage(-base, st, threatened, marked, single) == 0,
        spec_calculate_damage(0, st, threatened, marked, single) == 0,
        0 <= spec_calculate_damage(base, st, threatened, marked, single) <= LIMIT,
{
}

/// Savage Blows add their stacks to single-target attacks only: for an
/// attacker with nothing but `k >= 0` Savage Blows, a single-target hit of
/// `base` deals `base + k` and any other hit deals `base`.
pub proof fn law_savage_blows_single_target_only(base: int, st: StatusMap)
    requires
        only_status(st, StatusType::SavageBlows),
        st.count(StatusType::SavageBlows) >= 0,
        0 < base,
        base + st.count(StatusType::SavageBlows) <= LIMIT,
    ensures
        spec_calculate_damage(base, st, false, 0, true) == base + st.count(StatusType::SavageBlows),
        spec_calculate_damage(base, st, false, 0, false) == base,
{
}

/// Whatever else the attacker has, as long as it is not Weakened and the
/// defender neither Threatened nor Marked, a single-target hit deals exactly
/// the attacker's Savage Blows stacks more than the same hit on several
/// targets (where the other hit lands and the sum stays within the limit).
pub proof fn law_savage_blows_difference(base: int, st: StatusMap)
    requires
        !st.present(StatusType::Weakened),
        st.count(StatusType::SavageBlows) >= 0,
        spec_calculate_damage(base, st, false, 0, false) > 0,
        spec_calculate_damage(base, st, false, 0, false) + st.count(StatusType::SavageBlows) <= LIMIT,
    ensures
        spec_calculate_damage(base, st, false, 0, true) == spec_calculate_damage(base, st, false, 0, false) + st.count(
            StatusType::SavageBlows,
        ),
{
}

/// Empowered and Rage each add their stacks to a hit.
pub proof fn law_empowered_and_rage_add(base: int, st: StatusMap, s: StatusType, single: bool)
    requires
        s == StatusType::Empowered || s == StatusType::Rage,
        only_status(st, s),
        st.count(s) >= 0,
        0 < base,
        base + st.count(s) <= LIMIT,
    ensures
        spec_calculate_damage(base, st, false, 0, single) == base + st.count(s),
{
}

/// The Aggressive Stance adds 3 to a hit, the Defensive Stance takes 3 off
/// (never below 0).
pub proof fn law_stances_shift_damage(base: int, st: StatusMap, single: bool)
    requires
        0 < base,
        base + 3 <= LIMIT,
    ensures
        only_status(st, StatusType::StanceAggressive) && st.present(StatusType::StanceAggressive)
            ==> spec_calculate_damage(base, st, false, 0, single) == base + 3,
        only_status(st, StatusType::StanceDefensive) && st.present(StatusType::StanceDefensive)
            ==> spec_calculate_damage(base, st, false, 0, single) == (if base > 3 { base - 3 } else { 0 }),
{
}

/// A Weakened attacker deals three quarters of its damage, rounded down.
pub proof fn law_weakened_deals_three_quarters(base: int, st: StatusMap, single: bool)
    requires
        only_status(st, StatusType::Weakened),
        st.present(StatusType::Weakened),
        0 < base <= LIMIT,
    ensures
        spec_calculate_damage(base, st, false, 0, single) == (3 * base) / 4,
{
}

/// A Threatened defender takes half again as much, rounded down; a Marked
/// one takes its Marked stacks more.
pub proof fn law_defender_threatened_and_marked(base: int, st: StatusMap, marked: int, single: bool)
    requires
        no_status(st),
        0 < base,
        (3 * base) / 2 <= LIMIT,
        0 <= marked,
        base + marked <= LIMIT,
    ensures
        spec_calculate_damage(base, st, true, 0, single) == (3 * base) / 2,
        spec_calculate_damage(base, st, false, marked, single) == base + marked,
{
}

/// An enemy attack of `base` from an attacker with no statuses: on a player
/// with no statuses it deals `base`; on a player who is Threatened and
/// nothing else, half again as much (rounded down); on one who is Marked
/// and nothing else, the Marked stacks more; on one who is Fortified and
/// nothing else, the Fortified stacks less (never below 0); on one in the
/// Aggressive Stance and nothing else, 3 more.
pub proof fn law_enemy_hit_on_player(base: int, attacker: StatusMap, defender: StatusMap)
    requires
        no_status(attacker),
        0 < base,
        (3 * base) / 2 <= LIMIT,
        in_limit(defender.count(StatusType::Marked)),
        in_limit(defender.count(StatusType::Fortified)),
    ensures
        no_status(defender) ==> spec_enemy_hit(base, attacker, defender) == base,
        only_status(defender, StatusType::Threatened) && defender.present(StatusType::Threatened) ==> spec_enemy_hit(
            base,
            attacker,
            defender,
        ) == (3 * base) / 2,
        only_status(defender, StatusType::Marked) && defender.count(StatusType::Marked) >= 0 && base + defender.count(
            StatusType::Marked,
        ) <= LIMIT ==> spec_enemy_hit(base, attacker, defender) == base + defender.count(StatusType::Marked),
        only_status(defender, StatusType::Fortified) && defender.count(StatusType::Fortified) >= 0 ==> spec_enemy_hit(
            base,
            attacker,
            defender,
        ) == (if base > defender.count(StatusType::Fortified) {
            base - defender.count(StatusType::Fortified)
        } else {
            0
        }),
        only_status(defender, StatusType::StanceAggressive) && defender.present(StatusType::StanceAggressive) && base
            + 3 <= LIMIT ==> spec_enemy_hit(base, attacker, defender) == base + 3,
{
}

/// The attacker's statuses go through the same pipeline for an enemy as
/// for the player: on a player with no statuses, an enemy hit is what the
/// damage pipeline gives for a hit on several targets.
pub proof fn law_enemy_hit_uses_the_pipeline(base: int, attacker: StatusMap, defender: StatusMap)
    requires
        no_status(defender),
    ensures
        spec_enemy_hit(base, attacker, defender) == spec_calculate_damage(base, attacker, false, 0, false),
{
    assert(0 <= spec_calculate_damage(base, attacker, false, 0, false) <= LIMIT);
}

/// Over-time statuses wane at the end of a turn: a non-zero count of
/// Threatened, Weakened, Bleeding, Mending, Frightened or Armored loses one
/// stack; every other status keeps its count.
pub proof fn law_end_of_turn_tick(s: StatusType, c: int)
    requires
        in_limit(c),
    ensures
        (s == StatusType::Threatened || s == StatusType::Weakened || s == StatusType::Bleeding || s
            == StatusType::Mending || s == StatusType::Frightened || s == StatusType::Armored) && c != 0 && c > -LIMIT
            ==> status_after_tick(s, c) == c - 1,
        !(s == StatusType::Threatened || s == StatusType::Weakened || s == StatusType::Bleeding || s
            == StatusType::Mending || s == StatusType::Frightened || s == StatusType::Armored) ==> status_after_tick(s, c)
            == c,
        status_after_tick(s, 0) == 0,
{
}

/// Mending heals its stacks at the end of a turn (up to max HP, with no
/// Bleeding) and then loses one stack, so it heals less each turn.
pub proof fn law_mending_heals_then_wanes(before: CombatState, after: CombatState)
    requires
        end_turn_ticked(before, after),
        before.player.status_effects.count(StatusType::Mending) > 0,
        before.player.status_effects.count(StatusType::Bleeding) <= 0,
        in_limit(before.player.status_effects.count(StatusType::Mending)),
        in_limit(before.player.hp as int),
        before.player.hp + before.player.status_effects.count(StatusType::Mending) <= LIMIT,
    ensures
        after.player.hp == vstd::math::min(
            before.player.hp + before.player.status_effects.count(StatusType::Mending),
            before.player.max_hp as int,
        ),
        after.player.status_effects.count(StatusType::Mending) == before.player.status_effects.count(StatusType::Mending)
            - 1,
{
}


/// A Gain Block effect adds its amount to the player's block, 3 more in the
/// Defensive Stance; nothing else about the player changes.
pub proof fn law_gain_block_effect(before: CombatState, after: CombatState, amount: i32)
    requires
        block_effect_done(Effect::GainBlock { amount }, before, after),
        amount >= 0,
        0 <= before.player.block,
        before.player.block + amount + 3 <= LIMIT,
    ensures
        after.player.block == before.player.block + amount + (if before.player.status_effects.present(
            StatusType::StanceDefensive,
        ) {
            3int
        } else {
            0
        }),
        after.player.hp == before.player.hp,
        forall|t: StatusType| #[trigger] after.player.status_effects.count(t) == before.player.status_effects.count(t),
        after.enemies == before.enemies,
{
}

/// Execute damage: an enemy at full HP takes the base damage, one at 0 HP
/// (all ten tenths missing) the base plus ten times the bonus per tenth.
pub proof fn law_execute_amount(e: EnemyState, base: int, per_10: int)
    requires
        e.max_hp > 1,
        0 <= base <= 1000,
        0 <= per_10 <= 1000,
    ensures
        e.hp == e.max_hp ==> spec_execute_amount(e, base, per_10) == base,
        e.hp == 0 ==> spec_execute_amount(e, base, per_10) == base + 10 * per_10,
{
    let m = e.max_hp as int;
    if e.hp == 0 {
        vstd::arithmetic::div_mod::lemma_div_multiples_vanish(100, m);
        assert((m * 100) / m == 100) by {
            vstd::arithmetic::mul::lemma_mul_is_commutative(m, 100);
        }
        assert(trunc_div((m - e.hp) * 100, m) == 100);
        assert(trunc_div(100, 10) == 10);
        assert(clamp(10) * per_10 == 10 * per_10) by (nonlinear_arith)
            requires per_10 <= 1000;
    }
    if e.hp == e.max_hp {
        assert(trunc_div((m - e.hp) * 100, m) == 0);
        assert(trunc_div(0, 10) == 0);
        assert(clamp(0) == 0);
        assert(0 * per_10 == 0);
    }
}

/// The Wolf form adds 3 to a plain attack's damage and leaves its target;
/// it leaves effects that deal no damage alone.
pub proof fn law_wolf_boosts_attacks(target: Target, amount: i32, e: Effect)
    requires
        0 <= amount,
        amount + 3 <= LIMIT,
    ensures
        spec_wolf_boost(Effect::DealDamage { target, amount }) == (Effect::DealDamage { target, amount: (amount + 3) as i32 }),
        spec_wolf_boost(Effect::DealDamageIfTargetDebuffed { target, amount, bonus: 0 })
            == (Effect::DealDamageIfTargetDebuffed { target, amount: (amount + 3) as i32, bonus: 0 }),
        (e is GainBlock || e is ApplyStatus || e is DrawCards || e is GainEnergy || e is Heal) ==> spec_wolf_boost(e) == e,
{
}

/// Arcane Charge: one charge adds 1 damage, two add 3, three or more add 5,
/// and only four or more also draw a card.
pub proof fn law_arcane_charge_bonus(c: int)
    requires
        c >= 0,
    ensures
        1 <= c <= 3 ==> spec_arcane_charge_bonus(c).0 == 2 * c - 1,
        c >= 3 ==> spec_arcane_charge_bonus(c).0 == 5,
        c == 0 ==> spec_arcane_charge_bonus(c).0 == 0,
        spec_arcane_charge_bonus(c).1 == (c >= 4),
{
}

/// Only energy gains change energy: effects that gain none leave it, and a
/// gain of `a` adds `a` (within the limit).
pub proof fn law_energy_only_from_gains(e: int, effects: Seq<Effect>, a: i32)
    requires
        in_limit(e),
        forall|k: int| 0 <= k < effects.len() ==> !(#[trigger] effects[k] is GainEnergy),
        in_limit(e + a),
    ensures
        energy_after(e, effects) == e,
        energy_after(e, effects.push(Effect::GainEnergy { amount: a })) == e + a,
    decreases effects.len(),
{
    if effects.len() > 0 {
        let init = effects.drop_last();
        assert forall|k: int| 0 <= k < init.len() implies !(#[trigger] init[k] is GainEnergy) by {
            assert(init[k] == effects[k]);
        }
        law_energy_only_from_gains(e, init, a);
        assert(!(effects[effects.len() - 1] is GainEnergy));
    }
    let pushed = effects.push(Effect::GainEnergy { amount: a });
    assert(pushed.drop_last() =~= effects);
    assert(pushed.last() == Effect::GainEnergy { amount: a });
    assert(energy_after(e, pushed) == energy_step(energy_after(e, effects), Effect::GainEnergy { amount: a }));
}

/// Block at the start of a turn: kept whole under Block Retention; else
/// kept up to the retain cap where there is one; else reset to the block
/// floor (0 unless raised).
pub proof fn law_block_at_turn_start(s: CombatState)
    ensures
        s.player.status_effects.present(StatusType::BlockRetention) ==> block_at_turn_start(s) == s.player.block,
        !s.player.status_effects.present(StatusType::BlockRetention) && s.retain_block_cap > 0 ==> block_at_turn_start(s)
            == vstd::math::min(s.player.block as int, s.retain_block_cap as int),
        !s.player.status_effects.present(StatusType::BlockRetention) && s.retain_block_cap <= 0 ==> block_at_turn_start(s)
            == s.block_floor,
{
}

/// Berserker's Trance costs 2 HP at the start of a turn, never taking the
/// player below 0 and never healing.
pub proof fn law_trance_costs_two(hp: int)
    ensures
        hp >= 2 ==> hp_after_trance(hp) == hp - 2,
        hp_after_trance(hp) >= 0,
        hp >= 0 ==> hp_after_trance(hp) <= hp,
{
}


/// Adding stacks: an on/off status is switched on by positive stacks and
/// off otherwise; any other status adds them up (within the limit).
pub proof fn law_status_after_add(s: StatusType, c: int, stacks: int)
    requires
        in_limit(c + stacks),
    ensures
        crate::status::is_on_off(s) ==> status_after_add(s, c, stacks) == (if stacks > 0 { 1int } else { 0 }),
        !crate::status::is_on_off(s) ==> status_after_add(s, c, stacks) == c + stacks,
{
    crate::status::law_status_kinds(s);
}

/// The player's Artifice is held at 20; every other count is kept as
/// applied.
pub proof fn law_artifice_held_at_twenty(s: StatusType, added: int)
    ensures
        s == StatusType::Artifice ==> player_count_after_apply(s, added) == vstd::math::min(added, 20),
        s != StatusType::Artifice ==> player_count_after_apply(s, added) == added,
{
}

/// Entering a stance leaves the other stances: from any on/off stance
/// counts, the entered stance ends on and the other two off.
pub proof fn law_entering_a_stance_leaves_the_others(entered: StatusType, t: StatusType, c: int)
    requires
        stance_statuses().contains(entered),
        stance_statuses().contains(t),
        c == 0 || c == 1,
    ensures
        count_after_entering(stance_statuses(), entered, t, c) == (if t == entered { 1int } else { 0 }),
{
    let l = stance_statuses();
    assert(l.drop_last().drop_last().drop_last() =~= Seq::<StatusType>::empty());
    assert(l.drop_last() =~= seq![StatusType::StanceAggressive, StatusType::StanceDefensive]);
    assert(l.drop_last().drop_last() =~= seq![StatusType::StanceAggressive]);
    reveal_with_fuel(count_after_clearing, 4);
    crate::status::law_status_kinds(t);
}

/// Playing a card in the Flowing Stance gains one Ki; Arcane Charges are
/// spent by an attack and gained by a skill.
pub proof fn law_play_triggers(before: StatusMap, after: StatusMap, def: CardDef)
    requires
        statuses_after_play_triggers(before, after, def),
        in_limit(before.count(StatusType::Ki) + 1),
        in_limit(before.count(StatusType::ArcaneCharge) + 1),
    ensures
        before.present(StatusType::StanceFlowing) ==> after.count(StatusType::Ki) == before.count(StatusType::Ki) + 1,
        !before.present(StatusType::StanceFlowing) ==> after.count(StatusType::Ki) == before.count(StatusType::Ki),
        def.tags@.contains(CardTag::Attack) && before.count(StatusType::ArcaneCharge) > 0 ==> after.count(
            StatusType::ArcaneCharge,
        ) == 0,
        !def.tags@.contains(CardTag::Attack) && def.tags@.contains(CardTag::Skill) ==> after.count(StatusType::ArcaneCharge)
            == before.count(StatusType::ArcaneCharge) + 1,
{
    crate::status::law_status_kinds(StatusType::Ki);
    crate::status::law_status_kinds(StatusType::ArcaneCharge);
}


/// The conditional attacks at a chosen enemy: the debuff attack adds its
/// bonus exactly when that enemy holds a debuff, the block attack exactly
/// when it has block, the Marked attack strikes only a Marked enemy; the
/// revenge attack strikes only when the player took damage last turn; the
/// per-card attack deals its damage per card played this turn; and the
/// block attack deals the player's block.
pub proof fn law_conditional_attacks(s: CombatState, idx: usize, amount: i32, bonus: i32)
    requires
        idx < s.enemies@.len(),
        0 <= amount,
        0 <= bonus,
        amount + bonus <= LIMIT,
    ensures
        damage_effect_deal(Effect::DealDamageIfTargetDebuffed { target: Target::SingleEnemy, amount, bonus }, s, Some(idx))
            == Some((Target::SingleEnemy, if holds_debuff(s.enemies@[idx as int].status_effects) {
            amount + bonus
        } else {
            amount as int
        })),
        damage_effect_deal(Effect::DealDamageIfEnemyBlocked { target: Target::SingleEnemy, amount, bonus }, s, Some(idx))
            == Some((Target::SingleEnemy, if s.enemies@[idx as int].block > 0 { amount + bonus } else { amount as int })),
        (damage_effect_deal(Effect::DealDamageIfMarked { target: Target::SingleEnemy, amount }, s, Some(idx)) is Some)
            == (s.enemies@[idx as int].status_effects.count(StatusType::Marked) > 0),
        (damage_effect_deal(Effect::DealDamageIfDamagedLastTurn { target: Target::SingleEnemy, amount }, s, Some(idx))
            is Some) == s.player_took_damage_last_turn,
        amount * s.cards_played_this_turn <= LIMIT ==> damage_effect_deal(
            Effect::DealDamagePerCardPlayed { target: Target::SingleEnemy, per_card: amount },
            s,
            Some(idx),
        ) == Some((Target::SingleEnemy, amount * s.cards_played_this_turn)),
        damage_effect_deal(Effect::DealDamageEqualBlock { target: Target::SingleEnemy }, s, Some(idx)) == Some(
            (Target::SingleEnemy, s.player.block as int),
        ),
{
    if amount * s.cards_played_this_turn <= LIMIT {
        assert(amount * s.cards_played_this_turn >= 0) by (nonlinear_arith)
            requires amount >= 0, s.cards_played_this_turn >= 0;
    }
}


/// The conditional block effects on a player outside the Defensive Stance:
/// the missing-HP block gives the HP missing up to its cap; the conditional
/// block gives its bonus amount exactly when the player already has block;
/// the revenge block applies only when the player took damage last turn;
/// spending Ki or Smite gives the bonus block exactly when enough is held,
/// and spends it.
pub proof fn law_conditional_blocks(before: CombatState, after: CombatState, e: Effect)
    requires
        block_effect_done(e, before, after),
        !before.player.status_effects.present(StatusType::StanceDefensive),
        0 <= before.player.block,
        0 <= before.player.hp <= before.player.max_hp,
        before.player.max_hp + before.player.block <= LIMIT,
    ensures
        e matches Effect::BlockEqualMissingHp { max } ==> (0 <= max ==> after.player.block == before.player.block
            + vstd::math::min(before.player.max_hp - before.player.hp, max as int)),
        e matches Effect::GainBlockConditional { amount, bonus_amount } ==> (0 <= amount && 0 <= bonus_amount
            && before.player.block + amount + bonus_amount <= LIMIT ==> after.player.block == before.player.block + (
        if before.player.block > 0 {
            bonus_amount as int
        } else {
            amount as int
        })),
        e matches Effect::GainBlockIfDamagedLastTurn { amount } ==> (0 <= amount && before.player.block + amount <= LIMIT
            ==> after.player.block == before.player.block + (if before.player_took_damage_last_turn {
            amount as int
        } else {
            0
        })),
        e matches Effect::GainBlockSpendKi { base, ki_cost, bonus } ==> (0 <= base && 0 <= bonus && 0 <= ki_cost
            && before.player.block + base + bonus <= LIMIT && in_limit(before.player.status_effects.count(StatusType::Ki))
            ==> {
            let enough = before.player.status_effects.count(StatusType::Ki) >= ki_cost;
            &&& after.player.block == before.player.block + (if enough { bonus as int } else { base as int })
            &&& after.player.status_effects.count(StatusType::Ki) == before.player.status_effects.count(StatusType::Ki)
                - (if enough { ki_cost as int } else { 0 })
        }),
        e matches Effect::GainBlockSpendSmite { base, smite_cost, bonus } ==> (0 <= base && 0 <= bonus && 0 <= smite_cost
            && before.player.block + base + bonus <= LIMIT && in_limit(
            before.player.status_effects.count(StatusType::Smite),
        ) ==> {
            let enough = before.player.status_effects.count(StatusType::Smite) >= smite_cost;
            &&& after.player.block == before.player.block + (if enough { bonus as int } else { base as int })
            &&& after.player.status_effects.count(StatusType::Smite) == before.player.status_effects.count(
                StatusType::Smite,
            ) - (if enough { smite_cost as int } else { 0 })
        }),
{
    crate::status::law_status_kinds(StatusType::Ki);
    crate::status::law_status_kinds(StatusType::Smite);
}

} // verus!
