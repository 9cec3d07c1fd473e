//! Enemy definitions and per-combat enemy state.

use vstd::prelude::*;

use crate::player::{spec_after_block, spec_block_after_hit};
use crate::status::{StatusMap, StatusType};

verus! {

/// Identifier of an enemy definition.
pub type EnemyId = String;

#[derive(Debug, Clone, Copy, PartialEq, Eq, Structural)]
pub enum IntentType {
    Attack(i32),
    Defend(i32),
    Buff(StatusType, i32),
    Debuff(StatusType, i32),
    AttackDefend(i32, i32),
    BuffAllies(StatusType, i32),
}

#[derive(Debug)]
pub struct EnemyDef {
    pub id: EnemyId,
    pub name: String,
    pub max_hp: i32,
    pub intent_pattern: Vec<IntentType>,
}

#[derive(Debug)]
pub struct EnemyState {
    pub def_id: EnemyId,
    pub hp: i32,
    pub max_hp: i32,
    pub block: i32,
    pub status_effects: StatusMap,
    pub intent_index: usize,
    pub current_intent: Option<IntentType>,
}

impl EnemyDef {
    /// Whether two definitions hold the same id, name, HP and pattern.
    pub open spec fn same_def(&self, other: &EnemyDef) -> bool {
        &&& self.id@ == other.id@
        &&& self.name@ == other.name@
        &&& self.max_hp == other.max_hp
        &&& self.intent_pattern@ == other.intent_pattern@
    }

    /// A copy of this definition.
    pub fn duplicate(&self) -> (r: EnemyDef)
        ensures
            r.same_def(self),
    {
        EnemyDef {
            id: self.id.clone(),
            name: self.name.clone(),
            max_hp: self.max_hp,
            intent_pattern: self.intent_pattern.clone(),
        }
    }
}

impl EnemyState {
    /// Well-formedness: the status table is well formed.
    pub open spec fn wf(&self) -> bool {
        self.status_effects.wf()
    }

    /// Whether absorbing a hit of `amount` stays within i32.
    pub open spec fn damage_fits(&self, amount: int) -> bool {
        &&& i32::MIN <= amount - self.block <= i32::MAX
        &&& i32::MIN <= self.block - amount <= i32::MAX
        &&& i32::MIN <= self.hp - spec_after_block(amount, self.block as int)
    }

    /// A fresh enemy at full HP whose intent is the first of its pattern.
    pub fn from_def(def: &EnemyDef) -> (r: EnemyState)
        ensures
            r.wf(),
            r.def_id@ == def.id@,
            r.hp == def.max_hp,
            r.max_hp == def.max_hp,
            r.block == 0,
            forall|s: StatusType| r.status_effects.count(s) == 0,
            r.intent_index == 0,
            r.current_intent == (if def.intent_pattern@.len() > 0 {
                Some(def.intent_pattern@[0])
            } else {
                None
            }),
    {
        let current_intent = if def.intent_pattern.len() > 0 {
            Some(def.intent_pattern[0])
        } else {
            None
        };
        EnemyState {
            def_id: def.id.clone(),
            hp: def.max_hp,
            max_hp: def.max_hp,
            block: 0,
            status_effects: StatusMap::new(),
            intent_index: 0,
            current_intent,
        }
    }

    /// Move to the next intent of the pattern, wrapping around; nothing
    /// changes for an empty pattern.
    pub fn advance_intent(&mut self, def: &EnemyDef)
        requires
            def.intent_pattern@.len() > 0 ==> old(self).intent_index < usize::MAX,
        ensures
            def.intent_pattern@.len() == 0 ==> *final(self) == *old(self),
            def.intent_pattern@.len() > 0 ==> {
                &&& final(self).intent_index == (old(self).intent_index + 1) % (
                def.intent_pattern@.len() as int)
                &&& final(self).intent_index == intent_index_after(
                    old(self).intent_index as int,
                    def.intent_pattern@.len() as int,
                    1,
                )
                &&& final(self).intent_index < def.intent_pattern.len()
                &&& final(self).current_intent == Some(
                    def.intent_pattern@[final(self).intent_index as int],
                )
            },
            final(self).def_id == old(self).def_id,
            final(self).hp == old(self).hp,
            final(self).max_hp == old(self).max_hp,
            final(self).block == old(self).block,
            final(self).status_effects == old(self).status_effects,
    {
        if def.intent_pattern.len() == 0 {
            return;
        }
        proof {
            assert(intent_index_after(self.intent_index as int, def.intent_pattern@.len() as int, 0) == self.intent_index);
        }
        self.intent_index = (self.intent_index + 1) % def.intent_pattern.len();
        self.current_intent = Some(def.intent_pattern[self.intent_index]);
    }

    /// Apply damage after block absorption. Returns actual HP lost.
    pub fn take_damage(&mut self, amount: i32) -> (lost: i32)
        requires
            old(self).damage_fits(amount as int),
        ensures
            lost == spec_after_block(amount as int, old(self).block as int),
            final(self).block == spec_block_after_hit(amount as int, old(self).block as int),
            final(self).hp == old(self).hp - lost,
            final(self).def_id == old(self).def_id,
            final(self).max_hp == old(self).max_hp,
            final(self).status_effects == old(self).status_effects,
            final(self).intent_index == old(self).intent_index,
            final(self).current_intent == old(self).current_intent,
    {
        let d = amount - self.block;
        let after_block = if d > 0 { d } else { 0 };
        let b = self.block - amount;
        self.block = if b > 0 { b } else { 0 };
        self.hp = self.hp - after_block;
        after_block
    }

    pub fn is_dead(&self) -> (r: bool)
        ensures
            r == (self.hp <= 0),
    {
        self.hp <= 0
    }

    pub fn reset_block(&mut self)
        ensures
            final(self).block == 0,
            final(self).def_id == old(self).def_id,
            final(self).hp == old(self).hp,
            final(self).max_hp == old(self).max_hp,
            final(self).status_effects == old(self).status_effects,
            final(self).intent_index == old(self).intent_index,
            final(self).current_intent == old(self).current_intent,
    {
        self.block = 0;
    }
}

/// The intent index after `k` calls of `advance_intent` from index `i`, for
/// a pattern of `len` intents: each call moves to the next index, wrapping.
pub open spec fn intent_index_after(i: int, len: int, k: nat) -> int
    decreases k,
{
    if k == 0 {
        i
    } else {
        (intent_index_after(i, len, (k - 1) as nat) + 1) % len
    }
}

/// `k` calls move an index in range `k` steps round the pattern.
pub proof fn lemma_intent_index_after(i: int, len: int, k: nat)
    requires
        0 <= i < len,
    ensures
        intent_index_after(i, len, k) == (i + k) % len,
    decreases k,
{
    if k == 0 {
        vstd::arithmetic::div_mod::lemma_small_mod(i as nat, len as nat);
    } else {
        lemma_intent_index_after(i, len, (k - 1) as nat);
        vstd::arithmetic::div_mod::lemma_add_mod_noop_right(1, i + k - 1, len);
    }
}

/// As many calls of `advance_intent` as the pattern has intents bring an
/// enemy back to the intent index it started from.
pub proof fn law_intent_cycle(i: int, len: int)
    requires
        0 <= i < len,
    ensures
        intent_index_after(i, len, len as nat) == i,
{
    lemma_intent_index_after(i, len, len as nat);
    vstd::arithmetic::div_mod::lemma_mod_add_multiples_vanish(i, len);
    vstd::arithmetic::div_mod::lemma_small_mod(i as nat, len as nat);
}

} // verus!
