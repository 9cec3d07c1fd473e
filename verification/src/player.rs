//! The player's combat state.

use vstd::prelude::*;

use crate::status::StatusMap;

verus! {

/// Damage that gets past block: `amount - block`, never negative.
pub open spec fn spec_after_block(amount: int, block: int) -> int {
    if amount - block > 0 { amount - block } else { 0 }
}

/// Block left after absorbing a hit: `block - amount`, never negative.
pub open spec fn spec_block_after_hit(amount: int, block: int) -> int {
    if block - amount > 0 { block - amount } else { 0 }
}

#[derive(Debug)]
pub struct PlayerState {
    pub hp: i32,
    pub max_hp: i32,
    pub block: i32,
    pub energy: i32,
    pub max_energy: i32,
    pub status_effects: StatusMap,
}

impl PlayerState {
    /// Well-formedness: the status table is well formed.
    pub open spec fn wf(&self) -> bool {
        self.status_effects.wf()
    }

    /// Whether absorbing a hit of `amount` stays within i32.
    pub open spec fn damage_fits(&self, amount: int) -> bool {
        &&& i32::MIN <= amount - self.block <= i32::MAX
        &&& i32::MIN <= self.block - amount <= i32::MAX
        &&& i32::MIN <= self.hp - spec_after_block(amount, self.block as int)
    }

    /// A fresh player at full HP and energy with no block or statuses.
    pub fn new(max_hp: i32, max_energy: i32) -> (r: PlayerState)
        ensures
            r.wf(),
            r.hp == max_hp,
            r.max_hp == max_hp,
            r.block == 0,
            r.energy == max_energy,
            r.max_energy == max_energy,
            forall|s: crate::status::StatusType| r.status_effects.count(s) == 0,
    {
        PlayerState {
            hp: max_hp,
            max_hp,
            block: 0,
            energy: max_energy,
            max_energy,
            status_effects: StatusMap::new(),
        }
    }

    /// Apply damage after block absorption. Returns actual HP lost.
    pub fn take_damage(&mut self, amount: i32) -> (lost: i32)
        requires
            old(self).damage_fits(amount as int),
        ensures
            lost == spec_after_block(amount as int, old(self).block as int),
            final(self).block == spec_block_after_hit(amount as int, old(self).block as int),
            final(self).hp == old(self).hp - lost,
            final(self).max_hp == old(self).max_hp,
            final(self).energy == old(self).energy,
            final(self).max_energy == old(self).max_energy,
            final(self).status_effects == old(self).status_effects,
    {
        let d = amount - self.block;
        let after_block = if d > 0 { d } else { 0 };
        let b = self.block - amount;
        self.block = if b > 0 { b } else { 0 };
        self.hp = self.hp - after_block;
        after_block
    }

    pub fn gain_block(&mut self, amount: i32)
        requires
            i32::MIN <= old(self).block + amount <= i32::MAX,
        ensures
            final(self).block == old(self).block + amount,
            final(self).hp == old(self).hp,
            final(self).max_hp == old(self).max_hp,
            final(self).energy == old(self).energy,
            final(self).max_energy == old(self).max_energy,
            final(self).status_effects == old(self).status_effects,
    {
        self.block = self.block + amount;
    }

    pub fn reset_block(&mut self)
        ensures
            final(self).block == 0,
            final(self).hp == old(self).hp,
            final(self).max_hp == old(self).max_hp,
            final(self).energy == old(self).energy,
            final(self).max_energy == old(self).max_energy,
            final(self).status_effects == old(self).status_effects,
    {
        self.block = 0;
    }

    /// Spend energy. Returns false (and does not deduct) if insufficient.
    pub fn spend_energy(&mut self, amount: i32) -> (ok: bool)
        requires
            old(self).energy >= amount ==> i32::MIN <= old(self).energy - amount <= i32::MAX,
        ensures
            ok == (old(self).energy >= amount),
            final(self).energy == (if ok { old(self).energy - amount } else { old(self).energy as int }),
            final(self).hp == old(self).hp,
            final(self).block == old(self).block,
            final(self).max_hp == old(self).max_hp,
            final(self).max_energy == old(self).max_energy,
            final(self).status_effects == old(self).status_effects,
    {
        if self.energy < amount {
            return false;
        }
        self.energy = self.energy - amount;
        true
    }

    /// Heal, capped at max_hp.
    pub fn heal(&mut self, amount: i32)
        requires
            i32::MIN <= old(self).hp + amount <= i32::MAX,
        ensures
            final(self).hp == (if old(self).hp + amount < old(self).max_hp {
                old(self).hp + amount
            } else {
                old(self).max_hp as int
            }),
            final(self).block == old(self).block,
            final(self).max_hp == old(self).max_hp,
            final(self).energy == old(self).energy,
            final(self).max_energy == old(self).max_energy,
            final(self).status_effects == old(self).status_effects,
    {
        let h = self.hp + amount;
        self.hp = if h < self.max_hp { h } else { self.max_hp };
    }

    pub fn is_dead(&self) -> (r: bool)
        ensures
            r == (self.hp <= 0),
    {
        self.hp <= 0
    }
}

/// Block absorbs first: the HP lost plus the block used up equals the hit,
/// for every non-negative hit on a non-negative block.
pub proof fn law_damage_split(amount: int, block: int)
    requires
        amount >= 0,
        block >= 0,
    ensures
        spec_after_block(amount, block) + (block - spec_block_after_hit(amount, block)) == amount,
        spec_after_block(amount, block) == 0 || spec_block_after_hit(amount, block) == 0,
{
}

} // verus!
