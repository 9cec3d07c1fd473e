//! Status effects and the per-combatant status table.

use vstd::prelude::*;

verus! {

/// Behavioral category for a status effect.
///
/// - **Waning**: decays 1 stack per turn, stacks accumulate.
/// - **Enduring**: permanent, stacks accumulate.
/// - **Absolute**: permanent, binary (clamped to 1).
#[derive(Debug, Clone, Copy, PartialEq, Eq, Structural, Hash)]
pub enum StatusKind {
    Waning,
    Enduring,
    Absolute,
}

#[derive(Debug, Clone, Copy, PartialEq, Eq, Structural, Hash)]
pub enum StatusType {
    /// Take +50% damage. Waning.
    Threatened,
    /// Deal -25% damage. Waning.
    Weakened,
    /// +N flat damage on attacks. Enduring.
    Empowered,
    /// Damage-over-time: deal N damage (bypasses block), then decay. Waning.
    Bleeding,
    /// Reflect damage back to attacker on any hit. Enduring.
    Barbed,
    /// Heal-over-time (ticked separately via tick_mending). Waning.
    Mending,
    /// Enemy skips their action. Waning.
    Frightened,
    /// Take +1 damage per stack from all sources. Enduring.
    Marked,
    /// Temporary armor. Waning.
    Armored,
    /// Player block is NOT reset at start of turn. Absolute.
    BlockRetention,
    /// Draw 1 card whenever you deal 12+ damage in a single hit. Absolute.
    Momentum,
    /// +N damage on single-target attacks. Enduring.
    SavageBlows,
    /// +N flat damage on attacks. Enduring.
    Rage,
    /// When the player loses HP, gain Rage equal to HP lost. Absolute.
    PainIsPower,
    /// When the player loses HP, gain 3 block. Absolute.
    WardingTotem,
    /// Start of turn: lose 2 HP, draw 1 card. Absolute.
    BerserkersTrance,
    /// Monk Ki resource. Enduring.
    Ki,
    /// Aggressive Stance: +3 attack damage dealt, +3 damage taken. Absolute.
    StanceAggressive,
    /// Defensive Stance: +3 block gained, -3 attack damage dealt. Absolute.
    StanceDefensive,
    /// Flowing Stance: gain 1 Ki per card played. Absolute.
    StanceFlowing,
    /// Hexed. Absolute.
    Hexed,
    /// Paladin Smite resource. Enduring.
    Smite,
    /// Rogue Artifice resource. Enduring, capped at 20 by the combat engine.
    Artifice,
    /// Wild Shape Bear: +5 block on defense cards. Absolute.
    WildShapeBear,
    /// Wild Shape Eagle: draw 1 on first attack each turn. Absolute.
    WildShapeEagle,
    /// Wild Shape Wolf: +3 damage on attack cards. Absolute.
    WildShapeWolf,
    /// Wizard Arcane Charge resource. Enduring.
    ArcaneCharge,
    /// Permanent damage reduction. Enduring.
    Fortified,
    /// Negate the next enemy attack. Absolute.
    SanctifiedShield,
}

/// Number of distinct status types.
pub const STATUS_COUNT: usize = 29;

/// Position of a status in the fixed status order (declaration order).
pub open spec fn status_index(s: StatusType) -> int {
    match s {
        StatusType::Threatened => 0,
        StatusType::Weakened => 1,
        StatusType::Empowered => 2,
        StatusType::Bleeding => 3,
        StatusType::Barbed => 4,
        StatusType::Mending => 5,
        StatusType::Frightened => 6,
        StatusType::Marked => 7,
        StatusType::Armored => 8,
        StatusType::BlockRetention => 9,
        StatusType::Momentum => 10,
        StatusType::SavageBlows => 11,
        StatusType::Rage => 12,
        StatusType::PainIsPower => 13,
        StatusType::WardingTotem => 14,
        StatusType::BerserkersTrance => 15,
        StatusType::Ki => 16,
        StatusType::StanceAggressive => 17,
        StatusType::StanceDefensive => 18,
        StatusType::StanceFlowing => 19,
        StatusType::Hexed => 20,
        StatusType::Smite => 21,
        StatusType::Artifice => 22,
        StatusType::WildShapeBear => 23,
        StatusType::WildShapeEagle => 24,
        StatusType::WildShapeWolf => 25,
        StatusType::ArcaneCharge => 26,
        StatusType::Fortified => 27,
        StatusType::SanctifiedShield => 28,
    }
}

/// The status at a position of the fixed status order.
pub open spec fn status_at(i: int) -> StatusType {
    if i <= 0 { StatusType::Threatened }
    else if i == 1 { StatusType::Weakened }
    else if i == 2 { StatusType::Empowered }
    else if i == 3 { StatusType::Bleeding }
    else if i == 4 { StatusType::Barbed }
    else if i == 5 { StatusType::Mending }
    else if i == 6 { StatusType::Frightened }
    else if i == 7 { StatusType::Marked }
    else if i == 8 { StatusType::Armored }
    else if i == 9 { StatusType::BlockRetention }
    else if i == 10 { StatusType::Momentum }
    else if i == 11 { StatusType::SavageBlows }
    else if i == 12 { StatusType::Rage }
    else if i == 13 { StatusType::PainIsPower }
    else if i == 14 { StatusType::WardingTotem }
    else if i == 15 { StatusType::BerserkersTrance }
    else if i == 16 { StatusType::Ki }
    else if i == 17 { StatusType::StanceAggressive }
    else if i == 18 { StatusType::StanceDefensive }
    else if i == 19 { StatusType::StanceFlowing }
    else if i == 20 { StatusType::Hexed }
    else if i == 21 { StatusType::Smite }
    else if i == 22 { StatusType::Artifice }
    else if i == 23 { StatusType::WildShapeBear }
    else if i == 24 { StatusType::WildShapeEagle }
    else if i == 25 { StatusType::WildShapeWolf }
    else if i == 26 { StatusType::ArcaneCharge }
    else if i == 27 { StatusType::Fortified }
    else { StatusType::SanctifiedShield }
}

/// The index and position maps are inverse to each other.
pub proof fn lemma_status_index_roundtrip(s: StatusType)
    ensures
        0 <= status_index(s) < STATUS_COUNT,
        status_at(status_index(s)) == s,
{
}

pub open spec fn spec_kind(s: StatusType) -> StatusKind {
    match s {
        StatusType::Threatened | StatusType::Weakened | StatusType::Bleeding | StatusType::Mending
        | StatusType::Frightened | StatusType::Armored => StatusKind::Waning,
        StatusType::Empowered | StatusType::Barbed | StatusType::SavageBlows | StatusType::Marked
        | StatusType::Rage | StatusType::Ki | StatusType::Smite | StatusType::Artifice
        | StatusType::ArcaneCharge | StatusType::Fortified => StatusKind::Enduring,
        _ => StatusKind::Absolute,
    }
}

pub open spec fn spec_is_buff(s: StatusType) -> bool {
    !(s is Threatened || s is Weakened || s is Bleeding || s is Frightened || s is Marked
        || s is Hexed)
}

pub open spec fn spec_abbreviation(s: StatusType) -> Seq<char> {
    match s {
        StatusType::Threatened => "THR"@,
        StatusType::Weakened => "WKN"@,
        StatusType::Empowered => "EMP"@,
        StatusType::Bleeding => "BLD"@,
        StatusType::Barbed => "BRB"@,
        StatusType::Mending => "MND"@,
        StatusType::Frightened => "FRI"@,
        StatusType::Marked => "MRK"@,
        StatusType::Armored => "ARM"@,
        StatusType::BlockRetention => "BRT"@,
        StatusType::Momentum => "MOM"@,
        StatusType::SavageBlows => "SVG"@,
        StatusType::Rage => "RGE"@,
        StatusType::PainIsPower => "PIP"@,
        StatusType::WardingTotem => "WTM"@,
        StatusType::BerserkersTrance => "BTR"@,
        StatusType::Ki => "KI"@,
        StatusType::StanceAggressive => "AGG"@,
        StatusType::StanceDefensive => "DEF"@,
        StatusType::StanceFlowing => "FLO"@,
        StatusType::Hexed => "HEX"@,
        StatusType::Smite => "SMT"@,
        StatusType::Artifice => "ART"@,
        StatusType::WildShapeBear => "WBR"@,
        StatusType::WildShapeEagle => "WEG"@,
        StatusType::WildShapeWolf => "WWF"@,
        StatusType::ArcaneCharge => "ARC"@,
        StatusType::Fortified => "FRT"@,
        StatusType::SanctifiedShield => "SSH"@,
    }
}

impl StatusType {
    /// Position of this status in the fixed status order.
    pub fn index(self) -> (r: usize)
        ensures
            r == status_index(self),
            r < STATUS_COUNT,
    {
        match self {
            StatusType::Threatened => 0,
            StatusType::Weakened => 1,
            StatusType::Empowered => 2,
            StatusType::Bleeding => 3,
            StatusType::Barbed => 4,
            StatusType::Mending => 5,
            StatusType::Frightened => 6,
            StatusType::Marked => 7,
            StatusType::Armored => 8,
            StatusType::BlockRetention => 9,
            StatusType::Momentum => 10,
            StatusType::SavageBlows => 11,
            StatusType::Rage => 12,
            StatusType::PainIsPower => 13,
            StatusType::WardingTotem => 14,
            StatusType::BerserkersTrance => 15,
            StatusType::Ki => 16,
            StatusType::StanceAggressive => 17,
            StatusType::StanceDefensive => 18,
            StatusType::StanceFlowing => 19,
            StatusType::Hexed => 20,
            StatusType::Smite => 21,
            StatusType::Artifice => 22,
            StatusType::WildShapeBear => 23,
            StatusType::WildShapeEagle => 24,
            StatusType::WildShapeWolf => 25,
            StatusType::ArcaneCharge => 26,
            StatusType::Fortified => 27,
            StatusType::SanctifiedShield => 28,
        }
    }

    /// The status at a position of the fixed status order.
    pub fn from_index(i: usize) -> (r: StatusType)
        requires
            i < STATUS_COUNT,
        ensures
            r == status_at(i as int),
            status_index(r) == i,
    {
        if i == 0 { StatusType::Threatened }
        else if i == 1 { StatusType::Weakened }
        else if i == 2 { StatusType::Empowered }
        else if i == 3 { StatusType::Bleeding }
        else if i == 4 { StatusType::Barbed }
        else if i == 5 { StatusType::Mending }
        else if i == 6 { StatusType::Frightened }
        else if i == 7 { StatusType::Marked }
        else if i == 8 { StatusType::Armored }
        else if i == 9 { StatusType::BlockRetention }
        else if i == 10 { StatusType::Momentum }
        else if i == 11 { StatusType::SavageBlows }
        else if i == 12 { StatusType::Rage }
        else if i == 13 { StatusType::PainIsPower }
        else if i == 14 { StatusType::WardingTotem }
        else if i == 15 { StatusType::BerserkersTrance }
        else if i == 16 { StatusType::Ki }
        else if i == 17 { StatusType::StanceAggressive }
        else if i == 18 { StatusType::StanceDefensive }
        else if i == 19 { StatusType::StanceFlowing }
        else if i == 20 { StatusType::Hexed }
        else if i == 21 { StatusType::Smite }
        else if i == 22 { StatusType::Artifice }
        else if i == 23 { StatusType::WildShapeBear }
        else if i == 24 { StatusType::WildShapeEagle }
        else if i == 25 { StatusType::WildShapeWolf }
        else if i == 26 { StatusType::ArcaneCharge }
        else if i == 27 { StatusType::Fortified }
        else { StatusType::SanctifiedShield }
    }

    /// The behavioral kind of this status.
    pub fn kind(&self) -> (r: StatusKind)
        ensures
            r == spec_kind(*self),
    {
        match self {
            StatusType::Threatened | StatusType::Weakened | StatusType::Bleeding
            | StatusType::Mending | StatusType::Frightened | StatusType::Armored => {
                StatusKind::Waning
            },
            StatusType::Empowered | StatusType::Barbed | StatusType::SavageBlows
            | StatusType::Marked | StatusType::Rage | StatusType::Ki | StatusType::Smite
            | StatusType::Artifice | StatusType::ArcaneCharge | StatusType::Fortified => {
                StatusKind::Enduring
            },
            _ => StatusKind::Absolute,
        }
    }

    /// Short abbreviation for UI badges.
    pub fn abbreviation(&self) -> (r: &'static str)
        ensures
            r@ == spec_abbreviation(*self),
    {
        match self {
            StatusType::Threatened => "THR",
            StatusType::Weakened => "WKN",
            StatusType::Empowered => "EMP",
            StatusType::Bleeding => "BLD",
            StatusType::Barbed => "BRB",
            StatusType::Mending => "MND",
            StatusType::Frightened => "FRI",
            StatusType::Marked => "MRK",
            StatusType::Armored => "ARM",
            StatusType::BlockRetention => "BRT",
            StatusType::Momentum => "MOM",
            StatusType::SavageBlows => "SVG",
            StatusType::Rage => "RGE",
            StatusType::PainIsPower => "PIP",
            StatusType::WardingTotem => "WTM",
            StatusType::BerserkersTrance => "BTR",
            StatusType::Ki => "KI",
            StatusType::StanceAggressive => "AGG",
            StatusType::StanceDefensive => "DEF",
            StatusType::StanceFlowing => "FLO",
            StatusType::Hexed => "HEX",
            StatusType::Smite => "SMT",
            StatusType::Artifice => "ART",
            StatusType::WildShapeBear => "WBR",
            StatusType::WildShapeEagle => "WEG",
            StatusType::WildShapeWolf => "WWF",
            StatusType::ArcaneCharge => "ARC",
            StatusType::Fortified => "FRT",
            StatusType::SanctifiedShield => "SSH",
        }
    }

    /// Whether this status is a buff (true) or debuff (false).
    pub fn is_buff(&self) -> (r: bool)
        ensures
            r == spec_is_buff(*self),
    {
        match self {
            StatusType::Threatened | StatusType::Weakened | StatusType::Bleeding
            | StatusType::Frightened | StatusType::Marked | StatusType::Hexed => false,
            _ => true,
        }
    }
}

/// Stack counts of every status on one combatant. A status is present exactly
/// when its count is non-zero; Absolute statuses only ever hold 0 or 1.
#[derive(Debug)]
pub struct StatusMap {
    counts: Vec<i32>,
}

impl StatusMap {
    /// Well-formedness: one count per status, Absolute statuses binary.
    pub closed spec fn wf(&self) -> bool {
        &&& self.counts@.len() == STATUS_COUNT
        &&& forall|i: int|
            0 <= i < STATUS_COUNT && spec_kind(status_at(i)) == StatusKind::Absolute
                ==> (#[trigger] self.counts@[i] == 0 || self.counts@[i] == 1)
    }

    /// Current stacks of a status (0 when absent).
    pub closed spec fn count(&self, s: StatusType) -> int {
        self.counts@[status_index(s)] as int
    }

    /// Whether a status is present.
    pub open spec fn present(&self, s: StatusType) -> bool {
        self.count(s) != 0
    }

    /// Counts of a well-formed map are i32 values, Absolute ones binary.
    pub proof fn lemma_count_range(&self, s: StatusType)
        requires
            self.wf(),
        ensures
            i32::MIN <= self.count(s) <= i32::MAX,
            spec_kind(s) == StatusKind::Absolute ==> (self.count(s) == 0 || self.count(s) == 1),
    {
        lemma_status_index_roundtrip(s);
        assert(self.counts@[status_index(s)] == self.counts@[status_index(s)]);
    }

    /// Whether two tables hold the same count for every status.
    pub open spec fn same_counts(&self, other: &StatusMap) -> bool {
        forall|s: StatusType| #[trigger] self.count(s) == other.count(s)
    }

    /// An empty status table.
    pub fn new() -> (r: StatusMap)
        ensures
            r.wf(),
            forall|s: StatusType| r.count(s) == 0,
    {
        let mut counts: Vec<i32> = Vec::new();
        let mut i: usize = 0;
        while i < STATUS_COUNT
            invariant
                i <= STATUS_COUNT,
                counts@.len() == i,
                forall|j: int| 0 <= j < i ==> counts@[j] == 0,
            decreases STATUS_COUNT - i,
        {
            counts.push(0);
            i = i + 1;
        }
        let r = StatusMap { counts };
        assert forall|s: StatusType| r.count(s) == 0 by {
            lemma_status_index_roundtrip(s);
        }
        r
    }

    /// A copy of this table with the same counts.
    pub fn snapshot(&self) -> (r: StatusMap)
        requires
            self.wf(),
        ensures
            r.wf(),
            r.same_counts(self),
    {
        let r = StatusMap { counts: self.counts.clone() };
        proof {
            assert(r.counts@ =~= self.counts@);
        }
        r
    }

    /// Add `stacks` to a status. Absolute statuses become present exactly when
    /// `stacks` is positive and are removed otherwise; the others accumulate.
    pub fn apply(&mut self, status: StatusType, stacks: i32)
        requires
            old(self).wf(),
            spec_kind(status) != StatusKind::Absolute ==> i32::MIN <= old(self).count(status)
                + stacks <= i32::MAX,
        ensures
            final(self).wf(),
            final(self).count(status) == (if spec_kind(status) == StatusKind::Absolute {
                if stacks > 0 { 1int } else { 0int }
            } else {
                old(self).count(status) + stacks
            }),
            forall|s: StatusType| s != status ==> final(self).count(s) == old(self).count(s),
            applied(*old(self), *final(self), status, stacks as int),
    {
        let idx = status.index();
        proof { lemma_status_index_roundtrip(status); }
        match status.kind() {
            StatusKind::Absolute => {
                if stacks > 0 {
                    self.counts.set(idx, 1);
                } else {
                    self.counts.set(idx, 0);
                }
            },
            _ => {
                let v = self.counts[idx] + stacks;
                self.counts.set(idx, v);
            },
        }
        proof {
            assert forall|s: StatusType| s != status implies final(self).count(s) == old(self).count(s) by {
                lemma_status_index_roundtrip(s);
            }
            assert forall|i: int|
                0 <= i < STATUS_COUNT && spec_kind(status_at(i)) == StatusKind::Absolute
                    implies (#[trigger] self.counts@[i] == 0 || self.counts@[i] == 1) by {
                if i != idx {
                    assert(old(self).counts@[i] == self.counts@[i]);
                }
            }
        }
    }

    /// Current stacks of a status (0 when absent).
    pub fn get(&self, status: StatusType) -> (r: i32)
        requires
            self.wf(),
        ensures
            r == self.count(status),
    {
        proof { lemma_status_index_roundtrip(status); }
        self.counts[status.index()]
    }

    /// Whether the status is present.
    pub fn has(&self, status: StatusType) -> (r: bool)
        requires
            self.wf(),
        ensures
            r == self.present(status),
    {
        proof { lemma_status_index_roundtrip(status); }
        self.counts[status.index()] != 0
    }

    /// Tick statuses at end of turn: every present Waning status decays by one
    /// stack (and is removed when it reaches zero); Enduring and Absolute
    /// statuses are untouched. The result carries the Bleeding damage.
    pub fn tick(&mut self) -> (r: TickResult)
        requires
            old(self).wf(),
            forall|s: StatusType| spec_kind(s) == StatusKind::Waning ==> old(self).count(s) > i32::MIN,
        ensures
            final(self).wf(),
            r.dot_damage == (if old(self).count(StatusType::Bleeding) > 0 {
                old(self).count(StatusType::Bleeding)
            } else {
                0
            }),
            forall|s: StatusType|
                #![trigger final(self).count(s)]
                final(self).count(s) == (if spec_kind(s) == StatusKind::Waning && old(self).count(s) != 0 {
                    old(self).count(s) - 1
                } else {
                    old(self).count(s)
                }),            ticked(*old(self), *final(self)),
    {
        let bleeding_damage = self.get(StatusType::Bleeding);
        let mut i: usize = 0;
        while i < STATUS_COUNT
            invariant
                i <= STATUS_COUNT,
                self.counts@.len() == STATUS_COUNT,
                forall|j: int|
                    #![trigger self.counts@[j]]
                    0 <= j < STATUS_COUNT ==> self.counts@[j] == (if j < i && spec_kind(status_at(j))
                        == StatusKind::Waning && old(self).counts@[j] != 0 {
                        old(self).counts@[j] - 1
                    } else {
                        old(self).counts@[j] as int
                    }),
                old(self).wf(),
                forall|s: StatusType| spec_kind(s) == StatusKind::Waning ==> old(self).count(s) > i32::MIN,
            decreases STATUS_COUNT - i,
        {
            let s = StatusType::from_index(i);
            let c = self.counts[i];
            if s.kind() == StatusKind::Waning && c != 0 {
                proof {
                    assert(old(self).count(s) == old(self).counts@[i as int]);
                }
                self.counts.set(i, c - 1);
            }
            i = i + 1;
        }
        proof {
            assert forall|s: StatusType|
                #![trigger self.count(s)]
                self.count(s) == (if spec_kind(s) == StatusKind::Waning && old(self).count(s) != 0 {
                    old(self).count(s) - 1
                } else {
                    old(self).count(s)
                }) by {
                lemma_status_index_roundtrip(s);
            }
            assert forall|j: int|
                0 <= j < STATUS_COUNT && spec_kind(status_at(j)) == StatusKind::Absolute
                    implies (#[trigger] self.counts@[j] == 0 || self.counts@[j] == 1) by {
                assert(old(self).counts@[j] == 0 || old(self).counts@[j] == 1);
            }
        }
        let dot_damage = if bleeding_damage > 0 { bleeding_damage } else { 0 };
        TickResult { dot_damage }
    }

    /// Current Mending stacks (the amount to heal), never negative. Decay is
    /// handled by the generic `tick`.
    pub fn tick_mending(&self) -> (r: i32)
        requires
            self.wf(),
        ensures
            r == (if self.count(StatusType::Mending) > 0 {
                self.count(StatusType::Mending)
            } else {
                0
            }),
    {
        let m = self.get(StatusType::Mending);
        if m > 0 { m } else { 0 }
    }

    /// The present statuses with their counts, in the fixed status order.
    pub fn iter(&self) -> (r: Vec<(StatusType, i32)>)
        requires
            self.wf(),
        ensures
            forall|k: int|
                0 <= k < r@.len() ==> #[trigger] self.count(r@[k].0) == r@[k].1 && r@[k].1 != 0,
            forall|k: int, l: int|
                0 <= k < l < r@.len() ==> status_index(#[trigger] r@[k].0) < status_index(
                    #[trigger] r@[l].0,
                ),
            forall|s: StatusType|
                #![trigger self.count(s)]
                self.count(s) != 0 ==> exists|k: int| 0 <= k < r@.len() && r@[k].0 == s,
    {
        let mut out: Vec<(StatusType, i32)> = Vec::new();
        let mut i: usize = 0;
        while i < STATUS_COUNT
            invariant
                i <= STATUS_COUNT,
                self.wf(),
                forall|k: int|
                    0 <= k < out@.len() ==> #[trigger] self.count(out@[k].0) == out@[k].1 && out@[k].1
                        != 0,
                forall|k: int| 0 <= k < out@.len() ==> status_index(#[trigger] out@[k].0) < i,
                forall|k: int, l: int|
                    0 <= k < l < out@.len() ==> status_index(#[trigger] out@[k].0) < status_index(
                        #[trigger] out@[l].0,
                    ),
                forall|j: int|
                    0 <= j < i && self.counts@[j] != 0 ==> exists|k: int|
                        0 <= k < out@.len() && out@[k].0 == status_at(j),
            decreases STATUS_COUNT - i,
        {
            let c = self.counts[i];
            if c != 0 {
                let s = StatusType::from_index(i);
                let ghost before = out@;
                out.push((s, c));
                proof {
                    assert(self.count(s) == c);
                    assert forall|k: int| 0 <= k < before.len() implies #[trigger] out@[k] == before[k] by {}
                    assert forall|k: int|
                        0 <= k < out@.len() implies #[trigger] self.count(out@[k].0) == out@[k].1
                            && out@[k].1 != 0 by {
                        if k < before.len() {
                            assert(out@[k] == before[k]);
                            assert(self.count(before[k].0) == before[k].1);
                        }
                    }
                    assert forall|k: int| 0 <= k < out@.len() implies status_index(#[trigger] out@[k].0) < i + 1 by {
                        if k < before.len() {
                            assert(out@[k] == before[k]);
                        }
                    }
                    assert forall|k: int, l: int|
                        0 <= k < l < out@.len() implies status_index(#[trigger] out@[k].0)
                            < status_index(#[trigger] out@[l].0) by {
                        assert(out@[k] == before[k]);
                        assert(self.count(before[k].0) == before[k].1);
                        if l < before.len() {
                            assert(out@[l] == before[l]);
                        }
                    }
                    assert(out@[out@.len() - 1].0 == s);
                    assert forall|j: int|
                        0 <= j < i + 1 && self.counts@[j] != 0 implies exists|k: int|
                            0 <= k < out@.len() && out@[k].0 == status_at(j) by {
                        if j < i {
                            let k = choose|k: int| 0 <= k < before.len() && before[k].0 == status_at(j);
                            assert(out@[k] == before[k]);
                        } else {
                            assert(out@[out@.len() - 1].0 == status_at(j));
                        }
                    }
                }
            }
            i = i + 1;
        }
        proof {
            assert forall|s: StatusType|
                #![trigger self.count(s)]
                self.count(s) != 0 implies exists|k: int| 0 <= k < out@.len() && out@[k].0 == s by {
                lemma_status_index_roundtrip(s);
                assert(self.counts@[status_index(s)] != 0);
            }
        }
        out
    }

    /// Whether any debuff status is present.
    pub fn has_any_debuff(&self) -> (r: bool)
        requires
            self.wf(),
        ensures
            r == exists|s: StatusType| !spec_is_buff(s) && #[trigger] self.count(s) != 0,
    {
        let r = self.has(StatusType::Threatened) || self.has(StatusType::Weakened) || self.has(
            StatusType::Bleeding,
        ) || self.has(StatusType::Frightened) || self.has(StatusType::Marked) || self.has(
            StatusType::Hexed,
        );
        proof {
            if !r {
                assert forall|s: StatusType| !spec_is_buff(s) implies #[trigger] self.count(s) == 0 by {}
            } else {
                if self.count(StatusType::Threatened) != 0 {
                    assert(!spec_is_buff(StatusType::Threatened));
                } else if self.count(StatusType::Weakened) != 0 {
                    assert(!spec_is_buff(StatusType::Weakened));
                } else if self.count(StatusType::Bleeding) != 0 {
                    assert(!spec_is_buff(StatusType::Bleeding));
                } else if self.count(StatusType::Frightened) != 0 {
                    assert(!spec_is_buff(StatusType::Frightened));
                } else if self.count(StatusType::Marked) != 0 {
                    assert(!spec_is_buff(StatusType::Marked));
                } else {
                    assert(!spec_is_buff(StatusType::Hexed));
                }
            }
        }
        r
    }

    /// Number of distinct debuff types whose count is positive.
    pub open spec fn spec_debuff_count(&self) -> int {
        (if self.count(StatusType::Threatened) > 0 { 1int } else { 0 })
            + (if self.count(StatusType::Weakened) > 0 { 1int } else { 0 })
            + (if self.count(StatusType::Bleeding) > 0 { 1int } else { 0 })
            + (if self.count(StatusType::Frightened) > 0 { 1int } else { 0 })
            + (if self.count(StatusType::Marked) > 0 { 1int } else { 0 })
            + (if self.count(StatusType::Hexed) > 0 { 1int } else { 0 })
    }

    /// Count the number of distinct debuff types active with stacks > 0.
    pub fn debuff_count(&self) -> (r: i32)
        requires
            self.wf(),
        ensures
            r == self.spec_debuff_count(),
            r == active_debuffs(*self).len(),
            0 <= r <= 6,
    {
        proof {
            law_debuff_count_is_active_debuffs(*self);
        }
        let mut n: i32 = 0;
        if self.get(StatusType::Threatened) > 0 { n = n + 1; }
        if self.get(StatusType::Weakened) > 0 { n = n + 1; }
        if self.get(StatusType::Bleeding) > 0 { n = n + 1; }
        if self.get(StatusType::Frightened) > 0 { n = n + 1; }
        if self.get(StatusType::Marked) > 0 { n = n + 1; }
        if self.get(StatusType::Hexed) > 0 { n = n + 1; }
        n
    }

    /// Remove every status.
    pub fn clear(&mut self)
        requires
            old(self).wf(),
        ensures
            final(self).wf(),
            forall|s: StatusType| final(self).count(s) == 0,
    {
        *self = StatusMap::new();
    }
}

impl Default for StatusMap {
    fn default() -> (r: StatusMap)
        ensures
            r.wf(),
            forall|s: StatusType| r.count(s) == 0,
    {
        StatusMap::new()
    }
}

/// Result of a status tick, containing damage values that need to be applied.
#[derive(Debug, Clone, Copy, PartialEq, Eq, Structural)]
pub struct TickResult {
    pub dot_damage: i32,
}

impl TickResult {
    /// Total damage of this tick.
    pub fn total_damage(&self) -> (r: i32)
        ensures
            r == self.dot_damage,
    {
        self.dot_damage
    }
}

impl StatusMap {
    /// Whether the table is well formed: one count per status, Absolute
    /// statuses at 0 or 1.
    pub fn is_wf(&self) -> (r: bool)
        ensures
            r == self.wf(),
    {
        if self.counts.len() != STATUS_COUNT {
            return false;
        }
        let mut i: usize = 0;
        while i < STATUS_COUNT
            invariant
                i <= STATUS_COUNT,
                self.counts@.len() == STATUS_COUNT,
                forall|j: int|
                    0 <= j < i && spec_kind(status_at(j)) == StatusKind::Absolute
                        ==> (#[trigger] self.counts@[j] == 0 || self.counts@[j] == 1),
            decreases STATUS_COUNT - i,
        {
            let s = StatusType::from_index(i);
            match s.kind() {
                StatusKind::Absolute => {
                    let v = self.counts[i];
                    if v != 0 && v != 1 {
                        return false;
                    }
                },
                _ => {},
            }
            i = i + 1;
        }
        true
    }

    /// Whether every count lies within `-limit..=limit`.
    pub fn counts_within(&self, limit: i32) -> (r: bool)
        requires
            self.wf(),
            limit >= 0,
        ensures
            r == forall|s: StatusType| -limit <= #[trigger] self.count(s) <= limit,
    {
        let mut i: usize = 0;
        while i < STATUS_COUNT
            invariant
                i <= STATUS_COUNT,
                self.wf(),
                limit >= 0,
                forall|s: StatusType| status_index(s) < i ==> -limit <= #[trigger] self.count(s) <= limit,
            decreases STATUS_COUNT - i,
        {
            let s = StatusType::from_index(i);
            let v = self.get(s);
            if v < -limit || v > limit {
                return false;
            }
            proof {
                assert forall|t: StatusType| status_index(t) < i + 1 implies -limit <= #[trigger] self.count(t) <= limit by {
                    if status_index(t) == i {
                        lemma_status_index_roundtrip(t);
                    }
                }
            }
            i = i + 1;
        }
        proof {
            assert forall|t: StatusType| -limit <= #[trigger] self.count(t) <= limit by {
                lemma_status_index_roundtrip(t);
            }
        }
        true
    }
}

/// The debuffs whose count is positive.
pub open spec fn active_debuffs(m: StatusMap) -> Set<StatusType> {
    Set::new(|s: StatusType| !spec_is_buff(s) && m.count(s) > 0)
}

/// The number of debuffs with a positive count is the size of the set of
/// those debuffs.
pub proof fn law_debuff_count_is_active_debuffs(m: StatusMap)
    ensures
        active_debuffs(m).finite(),
        m.spec_debuff_count() == active_debuffs(m).len(),
{
    let s0 = Set::<StatusType>::empty();
    let s1 = if m.count(StatusType::Threatened) > 0 { s0.insert(StatusType::Threatened) } else { s0 };
    let s2 = if m.count(StatusType::Weakened) > 0 { s1.insert(StatusType::Weakened) } else { s1 };
    let s3 = if m.count(StatusType::Bleeding) > 0 { s2.insert(StatusType::Bleeding) } else { s2 };
    let s4 = if m.count(StatusType::Frightened) > 0 { s3.insert(StatusType::Frightened) } else { s3 };
    let s5 = if m.count(StatusType::Marked) > 0 { s4.insert(StatusType::Marked) } else { s4 };
    let s6 = if m.count(StatusType::Hexed) > 0 { s5.insert(StatusType::Hexed) } else { s5 };
    assert(!s0.contains(StatusType::Threatened));
    assert(!s1.contains(StatusType::Weakened));
    assert(!s2.contains(StatusType::Bleeding));
    assert(!s3.contains(StatusType::Frightened));
    assert(!s4.contains(StatusType::Marked));
    assert(!s5.contains(StatusType::Hexed));
    assert(s6 =~= active_debuffs(m));
}


/// `after` is `before` ticked: every non-zero Waning status lost a stack,
/// every other count kept.
pub open spec fn ticked(before: StatusMap, after: StatusMap) -> bool {
    forall|s: StatusType|
        #[trigger] after.count(s) == (if spec_kind(s) == StatusKind::Waning && before.count(s) != 0 {
            before.count(s) - 1
        } else {
            before.count(s)
        })
}

/// Whether a status wears off over time: the over-time statuses Bleeding
/// and Mending, and Threatened, Weakened, Frightened and Armored.
pub open spec fn wears_off(s: StatusType) -> bool {
    s == StatusType::Threatened || s == StatusType::Weakened || s == StatusType::Bleeding || s == StatusType::Mending
        || s == StatusType::Frightened || s == StatusType::Armored
}

/// A tick takes one stack off every present status that wears off over
/// time (so Mending 3 heals 3, then 2, then 1), and leaves every other
/// status (Empowered, Barbed, Savage Blows, stances, forms, ...) as it was.
pub proof fn law_tick_wears_off_over_time_statuses(before: StatusMap, after: StatusMap)
    requires
        ticked(before, after),
    ensures
        forall|s: StatusType| wears_off(s) && before.count(s) != 0 ==> #[trigger] after.count(s) == before.count(s) - 1,
        forall|s: StatusType| !wears_off(s) ==> #[trigger] after.count(s) == before.count(s),
        forall|s: StatusType| before.count(s) == 0 ==> #[trigger] after.count(s) == 0,
{
}

/// `after` is `before` with `stacks` of `status` applied: an Absolute
/// status set to 1 for positive stacks and 0 otherwise, any other added.
pub open spec fn applied(before: StatusMap, after: StatusMap, status: StatusType, stacks: int) -> bool {
    &&& after.count(status) == (if spec_kind(status) == StatusKind::Absolute {
        if stacks > 0 { 1int } else { 0int }
    } else {
        before.count(status) + stacks
    })
    &&& forall|s: StatusType| s != status ==> #[trigger] after.count(s) == before.count(s)
}

/// Whether a status is an on/off effect rather than a stack count: the
/// triggers, stances, Wild Shapes, Hexed and Sanctified Shield.
pub open spec fn is_on_off(s: StatusType) -> bool {
    s == StatusType::BlockRetention || s == StatusType::Momentum || s == StatusType::PainIsPower || s
        == StatusType::WardingTotem || s == StatusType::BerserkersTrance || s == StatusType::StanceAggressive || s
        == StatusType::StanceDefensive || s == StatusType::StanceFlowing || s == StatusType::Hexed || s
        == StatusType::WildShapeBear || s == StatusType::WildShapeEagle || s == StatusType::WildShapeWolf || s
        == StatusType::SanctifiedShield
}

/// Applying stacks of an on/off status turns it on (count 1) for positive
/// stacks and off otherwise, however often it is applied; stacks of any
/// other status add up. Nothing else changes.
pub proof fn law_apply_stacks_or_switches(before: StatusMap, after: StatusMap, status: StatusType, stacks: int)
    requires
        applied(before, after, status, stacks),
    ensures
        is_on_off(status) ==> after.count(status) == (if stacks > 0 { 1int } else { 0int }),
        !is_on_off(status) ==> after.count(status) == before.count(status) + stacks,
        forall|s: StatusType| s != status ==> #[trigger] after.count(s) == before.count(s),
{
}

/// The three kinds sort the statuses: those that wear off are the Waning
/// ones, the on/off ones the Absolute ones, and every other status is
/// Enduring.
pub proof fn law_status_kinds(s: StatusType)
    ensures
        (spec_kind(s) == StatusKind::Waning) == wears_off(s),
        (spec_kind(s) == StatusKind::Absolute) == is_on_off(s),
        (spec_kind(s) == StatusKind::Enduring) == (!wears_off(s) && !is_on_off(s)),
{
}

} // verus!
