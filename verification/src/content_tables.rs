//! Immutable gameplay content: card and enemy definitions looked up by id.

use vstd::prelude::*;

use crate::card::CardDef;
use crate::enemy::EnemyDef;

verus! {

/// Position of the first card definition with the given id.
#[verifier::opaque]
pub open spec fn first_card_index(defs: Seq<CardDef>, id: Seq<char>) -> Option<int> {
    if exists|i: int| 0 <= i < defs.len() && (#[trigger] defs[i]).id@ == id {
        Some(
            choose|i: int|
                0 <= i < defs.len() && (#[trigger] defs[i]).id@ == id && forall|j: int|
                    0 <= j < i ==> (#[trigger] defs[j]).id@ != id,
        )
    } else {
        None
    }
}

/// Position of the first enemy definition with the given id.
#[verifier::opaque]
pub open spec fn first_enemy_index(defs: Seq<EnemyDef>, id: Seq<char>) -> Option<int> {
    if exists|i: int| 0 <= i < defs.len() && (#[trigger] defs[i]).id@ == id {
        Some(
            choose|i: int|
                0 <= i < defs.len() && (#[trigger] defs[i]).id@ == id && forall|j: int|
                    0 <= j < i ==> (#[trigger] defs[j]).id@ != id,
        )
    } else {
        None
    }
}

/// Position of the first definition in `defs` with the given id, if any.
pub fn enemy_position(defs: &Vec<EnemyDef>, id: &String) -> (r: Option<usize>)
    ensures
        match r {
            Some(i) => first_enemy_index(defs@, id@) == Some(i as int) && i < defs@.len()
                && defs@[i as int].id@ == id@,
            None => first_enemy_index(defs@, id@) is None,
        },
{
    reveal(first_enemy_index);
    let mut i: usize = 0;
    while i < defs.len()
        invariant
            i <= defs@.len(),
            forall|j: int| 0 <= j < i ==> (#[trigger] defs@[j]).id@ != id@,
        decreases defs@.len() - i,
    {
        if defs[i].id == *id {
            proof {
                reveal(first_enemy_index);
                let ds = defs@;
                assert(ds[i as int].id@ == id@);
                let c = choose|k: int|
                    0 <= k < ds.len() && (#[trigger] ds[k]).id@ == id@ && forall|j: int|
                        0 <= j < k ==> (#[trigger] ds[j]).id@ != id@;
                assert(c == i) by {
                    if c < i {
                        assert(ds[c].id@ != id@);
                    } else if c > i {
                        assert(ds[i as int].id@ != id@);
                    }
                }
            }
            return Some(i);
        }
        i = i + 1;
    }
    None
}

/// The first definition in `defs` with the given id, if any.
pub fn find_enemy_def<'a>(defs: &'a Vec<EnemyDef>, id: &String) -> (r: Option<&'a EnemyDef>)
    ensures
        match r {
            Some(d) => spec_find_enemy(defs@, id@) == Some(*d),
            None => spec_find_enemy(defs@, id@) is None,
        },
{
    match enemy_position(defs, id) {
        Some(i) => Some(&defs[i]),
        None => None,
    }
}

/// The first definition in `defs` with the given id, if any.
pub open spec fn spec_find_enemy(defs: Seq<EnemyDef>, id: Seq<char>) -> Option<EnemyDef> {
    match first_enemy_index(defs, id) {
        Some(i) => Some(defs[i]),
        None => None,
    }
}

/// A copy of a list of enemy definitions.
pub fn copy_enemy_defs(defs: &Vec<EnemyDef>) -> (r: Vec<EnemyDef>)
    ensures
        r@.len() == defs@.len(),
        forall|k: int| 0 <= k < r@.len() ==> (#[trigger] r@[k]).same_def(&defs@[k]),
{
    let mut r: Vec<EnemyDef> = Vec::new();
    let mut k: usize = 0;
    while k < defs.len()
        invariant
            k <= defs@.len(),
            r@.len() == k,
            forall|j: int| 0 <= j < k ==> (#[trigger] r@[j]).same_def(&defs@[j]),
        decreases defs@.len() - k,
    {
        r.push(defs[k].duplicate());
        k = k + 1;
    }
    r
}

/// Card and enemy definitions; a lookup by id finds the first definition
/// carrying that id.
#[derive(Debug)]
pub struct ContentTables {
    pub card_defs: Vec<CardDef>,
    pub enemy_defs: Vec<EnemyDef>,
}

impl ContentTables {
    /// The card definition for an id, if any.
    pub open spec fn spec_card(&self, id: Seq<char>) -> Option<CardDef> {
        match first_card_index(self.card_defs@, id) {
            Some(i) => Some(self.card_defs@[i]),
            None => None,
        }
    }

    /// The enemy definition for an id, if any.
    pub open spec fn spec_enemy(&self, id: Seq<char>) -> Option<EnemyDef> {
        spec_find_enemy(self.enemy_defs@, id)
    }

    /// Create empty content tables.
    pub fn empty() -> (r: ContentTables)
        ensures
            r.card_defs@.len() == 0,
            r.enemy_defs@.len() == 0,
    {
        ContentTables { card_defs: Vec::new(), enemy_defs: Vec::new() }
    }

    /// Position of the card definition for an id, if any.
    pub fn card_index(&self, id: &String) -> (r: Option<usize>)
        ensures
            match r {
                Some(i) => first_card_index(self.card_defs@, id@) == Some(i as int) && i
                    < self.card_defs@.len() && self.card_defs@[i as int].id@ == id@,
                None => first_card_index(self.card_defs@, id@) is None,
            },
    {
        reveal(first_card_index);
        let mut i: usize = 0;
        while i < self.card_defs.len()
            invariant
                i <= self.card_defs@.len(),
                forall|j: int| 0 <= j < i ==> (#[trigger] self.card_defs@[j]).id@ != id@,
            decreases self.card_defs@.len() - i,
        {
            if self.card_defs[i].id == *id {
                proof {
                    reveal(first_card_index);
                    let defs = self.card_defs@;
                    assert(defs[i as int].id@ == id@);
                    let c = choose|k: int|
                        0 <= k < defs.len() && (#[trigger] defs[k]).id@ == id@ && forall|j: int|
                            0 <= j < k ==> (#[trigger] defs[j]).id@ != id@;
                    assert(c == i) by {
                        if c < i {
                            assert(defs[c].id@ != id@);
                        } else if c > i {
                            assert(defs[i as int].id@ != id@);
                        }
                    }
                }
                return Some(i);
            }
            i = i + 1;
        }
        None
    }

    /// Position of the enemy definition for an id, if any.
    pub fn enemy_index(&self, id: &String) -> (r: Option<usize>)
        ensures
            match r {
                Some(i) => first_enemy_index(self.enemy_defs@, id@) == Some(i as int) && i
                    < self.enemy_defs@.len() && self.enemy_defs@[i as int].id@ == id@,
                None => first_enemy_index(self.enemy_defs@, id@) is None,
            },
    {
        enemy_position(&self.enemy_defs, id)
    }

    /// The card definition for an id, if any.
    pub fn card_def(&self, id: &String) -> (r: Option<&CardDef>)
        ensures
            match r {
                Some(d) => self.spec_card(id@) == Some(*d),
                None => self.spec_card(id@) is None,
            },
    {
        match self.card_index(id) {
            Some(i) => Some(&self.card_defs[i]),
            None => None,
        }
    }

    /// The enemy definition for an id, if any.
    pub fn enemy_def(&self, id: &String) -> (r: Option<&EnemyDef>)
        ensures
            match r {
                Some(d) => self.spec_enemy(id@) == Some(*d),
                None => self.spec_enemy(id@) is None,
            },
    {
        find_enemy_def(&self.enemy_defs, id)
    }
}

} // verus!
