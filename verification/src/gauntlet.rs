//! The gauntlet: a 50-fight run of combats with progression between fights.
//!
//! `GauntletRunner` offers one `legal_actions` / `apply` interface over both
//! combat decisions and the choices between fights (rewards, deck swaps,
//! collection trims, innate choices and rest-stop deck rebuilds).

use vstd::prelude::*;

use crate::card::{CardId, CardInstance, Rarity};
use crate::cards::{
    str_eq,
    auto_grants_at_level_filtered, card_ids_view, generate_rewards, opt_strs_view, reward_pool_at_level_filtered,
    spec_reward_pool,
    spec_auto_grants, spec_progression_table,
};
use crate::class::Class;
use crate::combat::{
    Action, ActionError, CombatPhase, CombatState, GameEvent, LIMIT, enemy_bounded, in_limit, player_bounded,
};
use crate::content_tables::{ContentTables, copy_enemy_defs};
use crate::encounters::encounter_for_level;
use crate::enemy::{EnemyDef, EnemyState};
use crate::player::PlayerState;
use crate::rng::GameRng;
use crate::cards::{is_known_background, is_known_race};
use crate::content::load_content;
use crate::starter_decks::{fighter_starter_deck, is_fighter_subclass};
use crate::subclass::fighter_subclasses;
use crate::status::StatusMap;

verus! {

// ── Constants ────────────────────────────────────────────────────────────

/// Max HP gained on level-up.
pub const LEVEL_UP_HP_BONUS: i32 = 5;

/// Number of reward cards offered after each fight.
pub const REWARD_CARD_COUNT: usize = 3;

/// Fights to win the gauntlet: reaching this count is a true victory.
pub const MAX_FIGHTS: u32 = 50;

/// The play deck is always exactly this size.
pub const PLAY_DECK_SIZE: usize = 16;

/// Maximum collection size.
pub const MAX_COLLECTION_SIZE: usize = 40;

/// Percentage of max HP healed at rest stops.
pub const REST_STOP_HEAL_PERCENT: i32 = 30;

// ── Perks and post-fight events ──────────────────────────────────────────

/// Perks available at perk grant levels.
#[derive(Debug, Clone, Copy, PartialEq, Eq, Structural)]
pub enum PerkType {
    /// +1 card drawn per turn.
    DrawBonus,
    /// Choose a card in play deck to make innate.
    InnateChoice,
    /// +1 max energy.
    EnergyBonus,
}

/// What happens after each fight, determined by the event schedule.
#[derive(Debug)]
pub enum PostFightEvent {
    /// Standard battle reward: pick or skip.
    BattleReward,
    /// Auto-grant one or more cards from the progression table.
    CardGrant { level: u32, card_ids: Vec<CardId> },
    /// Perk grant at specific levels.
    PerkGrant { level: u32, perk: PerkType },
    /// Rest stop: auto-heal, then optionally rebuild deck.
    RestStop,
}

/// The fights (by fights won) after which the player rests: 7, 15, 23, 31,
/// 39 and 47.
/// The level reached at a level-up fight.
proof fn lemma_level_reached(fw: u32)
    requires
        is_level_up_fight(fw),
    ensures
        spec_level_at(fw) == fw / 4 + 1,
{
}

/// Outside the level-up fights, winning a fight keeps the level.
proof fn lemma_level_kept(fw: u32)
    requires
        1 <= fw,
        !is_level_up_fight(fw),
    ensures
        spec_level_at(fw) == spec_level_at((fw - 1) as u32),
{
}

pub open spec fn is_rest_stop(fights_won: u32) -> bool {
    fights_won == 7 || fights_won == 15 || fights_won == 23 || fights_won == 31 || fights_won == 39
        || fights_won == 47
}

/// The fights after which the player levels up: every fourth fight from 4
/// to 44.
pub open spec fn is_level_up_fight(fights_won: u32) -> bool {
    4 <= fights_won <= 44 && fights_won % 4 == 0
}

/// The perk granted on reaching a level, if any: a draw bonus at level 5,
/// an innate choice at 8 and an energy bonus at 10.
pub open spec fn spec_perk_at(level: u32) -> Option<PerkType> {
    if level == 5 {
        Some(PerkType::DrawBonus)
    } else if level == 8 {
        Some(PerkType::InnateChoice)
    } else if level == 10 {
        Some(PerkType::EnergyBonus)
    } else {
        None
    }
}

/// What reaching a level gives: its perk, or the cards it auto-grants.
pub open spec fn level_reward_matches(
    r: PostFightEvent,
    level: u32,
    subclass: Seq<char>,
    filter: Option<Seq<char>>,
) -> bool {
    match spec_perk_at(level) {
        Some(p) => r == (PostFightEvent::PerkGrant { level, perk: p }),
        None => match r {
            PostFightEvent::CardGrant { level: l, card_ids } => l == level && card_ids_view(card_ids@)
                == spec_auto_grants(spec_progression_table(), subclass, level, filter),
            _ => false,
        },
    }
}

/// Level-based rewards: perks at levels 5, 8 and 10, auto-granted cards at
/// the other levels.
fn level_reward(level: u32, subclass_id: &str, synergy_filter: Option<&str>) -> (r: PostFightEvent)
    ensures
        level_reward_matches(r, level, subclass_id@, opt_strs_view(synergy_filter)),
{
    if level == 5 {
        PostFightEvent::PerkGrant { level, perk: PerkType::DrawBonus }
    } else if level == 8 {
        PostFightEvent::PerkGrant { level, perk: PerkType::InnateChoice }
    } else if level == 10 {
        PostFightEvent::PerkGrant { level, perk: PerkType::EnergyBonus }
    } else {
        let card_ids = auto_grants_at_level_filtered(subclass_id, level, synergy_filter);
        PostFightEvent::CardGrant { level, card_ids }
    }
}

/// The post-fight event after winning fight number `fights_won`: a rest
/// stop at the rest fights, the reward of the new level at the level-up
/// fights, else a battle reward.
pub open spec fn post_fight_event_matches(
    r: PostFightEvent,
    fights_won: u32,
    subclass: Seq<char>,
    filter: Option<Seq<char>>,
) -> bool {
    if is_rest_stop(fights_won) {
        r is RestStop
    } else if is_level_up_fight(fights_won) {
        level_reward_matches(r, (fights_won / 4 + 1) as u32, subclass, filter)
    } else {
        r is BattleReward
    }
}

/// Look up the post-fight event for a fight number (1-indexed, after
/// winning that fight).
pub fn post_fight_event(fights_won: u32, subclass_id: &str, synergy_filter: Option<&str>) -> (r: PostFightEvent)
    ensures
        post_fight_event_matches(r, fights_won, subclass_id@, opt_strs_view(synergy_filter)),
{
    if fights_won == 7 || fights_won == 15 || fights_won == 23 || fights_won == 31 || fights_won == 39
        || fights_won == 47 {
        return PostFightEvent::RestStop;
    }
    if 4 <= fights_won && fights_won <= 44 && fights_won % 4 == 0 {
        let new_level = fights_won / 4 + 1;
        return level_reward(new_level, subclass_id, synergy_filter);
    }
    PostFightEvent::BattleReward
}

/// The perks of a run: of all post-fight events, only those after fights
/// 16, 28 and 36 grant a perk; reaching level 5 there gives the draw bonus,
/// level 8 the innate choice and level 10 the energy bonus; and a perk's
/// level is the level the fight reaches.
pub proof fn law_perk_schedule(r: PostFightEvent, fights_won: u32, subclass: Seq<char>, filter: Option<Seq<char>>)
    requires
        post_fight_event_matches(r, fights_won, subclass, filter),
    ensures
        (r is PerkGrant) == (fights_won == 16 || fights_won == 28 || fights_won == 36),
        fights_won == 16 ==> r == (PostFightEvent::PerkGrant { level: 5, perk: PerkType::DrawBonus }),
        fights_won == 28 ==> r == (PostFightEvent::PerkGrant { level: 8, perk: PerkType::InnateChoice }),
        fights_won == 36 ==> r == (PostFightEvent::PerkGrant { level: 10, perk: PerkType::EnergyBonus }),
        r matches PostFightEvent::PerkGrant { level, .. } ==> level == spec_level_at(fights_won),
{
    if is_level_up_fight(fights_won) && !is_rest_stop(fights_won) {
        let level = (fights_won / 4 + 1) as u32;
        assert(level == spec_level_at(fights_won));
        assert((level == 5 || level == 8 || level == 10) == (fights_won == 16 || fights_won == 28 || fights_won == 36));
    }
}

/// The run's schedule: the level goes up by exactly one after each
/// level-up fight (every fourth fight up to 44) and stays otherwise; rest
/// stops come every eighth fight from 7 up to 47 and never on a level-up
/// fight; the act goes up every six fights up to act 3.
pub proof fn law_run_schedule(f: u32)
    requires
        f < u32::MAX,
    ensures
        spec_level_at((f + 1) as u32) == spec_level_at(f) + (if is_level_up_fight((f + 1) as u32) { 1int } else { 0 }),
        spec_level_at(0) == 1,
        spec_level_at(f) <= 12,
        is_rest_stop(f) == (f % 8 == 7 && f <= 47),
        !(is_rest_stop(f) && is_level_up_fight(f)),
        spec_effective_act(f) == (if f < 6 { 1u32 } else if f < 12 { 2u32 } else { 3u32 }),
{
}

/// The rest-stop heal is 30 percent of max HP rounded to the nearest whole
/// point (halves up): within half a point of three tenths.
pub proof fn law_rest_heal_is_thirty_percent(max_hp: int)
    requires
        max_hp >= 0,
    ensures
        3 * max_hp - 5 < 10 * spec_rest_heal(max_hp) <= 3 * max_hp + 5,
{
}

/// The level after `fights_won` victories: 1, plus one per level-up fight
/// won (every fourth fight up to 44).
pub open spec fn spec_level_at(fights_won: u32) -> int {
    1 + vstd::math::min((fights_won / 4) as int, 11)
}

/// The player level after a number of fights won, counting the level-up
/// milestones passed.
pub fn player_level_at(fights_won: u32, subclass_id: &str) -> (r: u32)
    ensures
        r == spec_level_at(fights_won),
{
    let mut level: u32 = 1;
    let mut f: u64 = 1;
    while f <= fights_won as u64
        invariant
            1 <= f <= fights_won as u64 + 1,
            level == spec_level_at((f - 1) as u32),
        decreases fights_won as u64 + 1 - f,
    {
        let fw = f as u32;
        let event = post_fight_event(fw, subclass_id, None);
        match event {
            PostFightEvent::CardGrant { .. } => {
                level = level + 1;
            },
            PostFightEvent::PerkGrant { .. } => {
                level = level + 1;
            },
            _ => {},
        }
        proof {
            assert(is_level_up_fight(fw) == ((fw / 4) as int > ((fw - 1) as u32 / 4) as int && fw <= 44));
        }
        f = f + 1;
    }
    level
}

/// The act used for encounter pools: 1 for the first six fights, 2 for the
/// next six, 3 after.
pub open spec fn spec_effective_act(fights_won: u32) -> u32 {
    (1 + vstd::math::min((fights_won / 6) as int, 2)) as u32
}

/// Effective act for proficiency and encounter pool purposes.
pub fn effective_act(fights_won: u32) -> (r: u32)
    ensures
        r == spec_effective_act(fights_won),
{
    let q = fights_won / 6;
    1 + if q < 2 { q } else { 2 }
}

// ── Phases, actions, events ──────────────────────────────────────────────

/// What happens after resolving a collection-overflow trim.
#[derive(Debug, PartialEq, Eq)]
pub enum OverflowNextPhase {
    /// Resume the run by starting the next combat.
    NextCombat,
    /// Offer an optional immediate deck sub-in for the newly granted card.
    DeckSwap { new_card_id: CardId, new_card_index: usize },
}

#[derive(Debug, PartialEq, Eq)]
pub enum GauntletPhase {
    /// In combat. Use `CombatAction` to interact.
    Combat,
    /// Choosing a reward card or skipping.
    Reward,
    /// Resolve collection overflow by permanently removing one owned card.
    CollectionOverflow { next_phase: OverflowNextPhase },
    /// Choose a deck card to make innate (InnateChoice perk).
    InnateChoice,
    /// Swap a newly acquired card into the play deck (or skip).
    DeckSwap {
        /// The card just acquired (in collection, not yet in play deck).
        new_card_id: CardId,
    },
    /// Ordered 16-slot short-rest rebuild from the full collection.
    DeckRebuild { slot_idx: usize, partial_deck: Vec<CardInstance> },
    /// Run is over (player died or won).
    GameOver,
}

#[derive(Debug, Clone, Copy, PartialEq, Eq, Structural)]
pub enum GauntletAction {
    /// A combat action forwarded to the inner `CombatState`.
    CombatAction(Action),
    /// Pick one of the offered reward cards (index into `reward_options`).
    PickReward(usize),
    /// Skip the reward and proceed to the next fight.
    SkipReward,
    /// Remove one card from the full collection to resolve overflow.
    RemoveCollectionCard(usize),
    /// Choose a card in play deck to make innate (index into `play_deck`).
    ChooseInnate(usize),
    /// Swap newly acquired card into a deck slot (index into `play_deck`).
    SwapIntoDeck(usize),
    /// Keep deck as-is after card acquisition.
    SkipSwap,
    /// Choose the card that should occupy the current rebuild slot.
    ChooseDeckSlotCard(usize),
}

#[derive(Debug, PartialEq)]
pub enum GauntletEvent {
    /// Events from the inner combat system.
    Combat(Vec<GameEvent>),
    /// Combat ended in victory; transitioning to next phase.
    FightWon { fights_won: u32, player_hp: i32, player_max_hp: i32 },
    /// Combat ended in defeat; game over.
    FightLost { fights_won: u32, player_hp: i32, player_max_hp: i32 },
    /// A reward card was added to the collection.
    RewardPicked { card_id: CardId },
    /// A card was removed from the full collection.
    CollectionCardRemoved { card_id: CardId },
    /// Reward was skipped.
    RewardSkipped,
    /// Player leveled up (+5 max HP, no heal).
    LevelUp { level: u32, new_max_hp: i32 },
    /// A new combat is starting.
    CombatStarted { fight_number: u32, enemy_count: usize },
    /// Player won the gauntlet by reaching MAX_FIGHTS victories.
    RunWon { fights_won: u32 },
    /// A fixed card was granted (class or subclass progression).
    CardGranted { card_id: CardId },
    /// Player healed at a rest stop.
    RestHealed { amount: i32 },
    /// A perk was granted.
    PerkGranted { perk: PerkType },
    /// A card was made innate via InnateChoice perk.
    CardMadeInnate { card_id: CardId },
    /// A card was swapped into the play deck.
    DeckSwapped { added_to_deck: CardId, removed_from_deck: CardId },
    /// Deck swap was skipped (card stays in collection only).
    SwapSkipped,
    /// A card was assigned to one short-rest rebuild slot.
    DeckRewriteSlotChosen { slot_idx: usize, card_id: CardId },
    /// Rebuild finished.
    RebuildFinished,
}

#[derive(Debug, Clone, Copy, PartialEq, Eq, Structural)]
pub enum GauntletError {
    /// Invalid action for the current phase.
    WrongPhase,
    /// Combat action error (forwarded from CombatState).
    CombatError(ActionError),
    /// Invalid reward index.
    InvalidRewardIndex,
    /// Invalid deck index for card removal.
    InvalidDeckIndex,
    /// Invalid collection index.
    InvalidCollectionIndex,
}

// ── Card counting ────────────────────────────────────────────────────────

/// How many cards of the list carry the id.
pub open spec fn count_id(cards: Seq<CardInstance>, id: Seq<char>) -> nat
    decreases cards.len(),
{
    if cards.len() == 0 {
        0
    } else {
        count_id(cards.drop_last(), id) + if cards.last().def_id@ == id {
            1nat
        } else {
            0nat
        }
    }
}

/// Whether the content defines the card as legendary.
pub open spec fn spec_is_legendary(content: ContentTables, id: Seq<char>) -> bool {
    match content.spec_card(id) {
        Some(d) => d.rarity == Rarity::Legendary,
        None => false,
    }
}

/// Whether the content defines the card as inherent (locked in the deck).
pub open spec fn spec_is_inherent(content: ContentTables, id: Seq<char>) -> bool {
    match content.spec_card(id) {
        Some(d) => d.inherent,
        None => false,
    }
}

/// How many cards of the list are legendary.
pub open spec fn legendary_count(content: ContentTables, cards: Seq<CardInstance>) -> nat
    decreases cards.len(),
{
    if cards.len() == 0 {
        0
    } else {
        legendary_count(content, cards.drop_last()) + if spec_is_legendary(content, cards.last().def_id@) {
            1nat
        } else {
            0nat
        }
    }
}

proof fn lemma_legendary_count_le(content: ContentTables, cards: Seq<CardInstance>)
    ensures
        legendary_count(content, cards) <= cards.len(),
    decreases cards.len(),
{
    if cards.len() > 0 {
        lemma_legendary_count_le(content, cards.drop_last());
    }
}

/// The ids at the positions below `n` that satisfy `pred`, in order.
pub open spec fn collect_ids(cards: Seq<CardInstance>, n: int, pred: spec_fn(int) -> bool) -> Seq<Seq<char>>
    decreases n,
{
    if n <= 0 {
        Seq::empty()
    } else {
        collect_ids(cards, n - 1, pred) + if pred(n - 1) {
            seq![cards[n - 1].def_id@]
        } else {
            Seq::empty()
        }
    }
}

/// The positions below `n` that satisfy `pred`, in order.
pub open spec fn collect_indices(n: int, pred: spec_fn(int) -> bool) -> Seq<usize>
    decreases n,
{
    if n <= 0 {
        Seq::empty()
    } else {
        collect_indices(n - 1, pred) + if pred(n - 1) {
            seq![(n - 1) as usize]
        } else {
            Seq::empty()
        }
    }
}

/// Whether no earlier card carries the id of the card at `i`.
pub open spec fn first_occurrence(cards: Seq<CardInstance>, i: int) -> bool {
    forall|j: int| 0 <= j < i ==> (#[trigger] cards[j]).def_id@ != cards[i].def_id@
}

/// How many cards of the list carry the id.
fn count_of(cards: &Vec<CardInstance>, id: &String) -> (n: usize)
    ensures
        n == count_id(cards@, id@),
{
    let mut n: usize = 0;
    let mut i: usize = 0;
    while i < cards.len()
        invariant
            i <= cards@.len(),
            n == count_id(cards@.take(i as int), id@),
            n <= i,
        decreases cards@.len() - i,
    {
        proof {
            assert(cards@.take(i + 1).drop_last() =~= cards@.take(i as int));
        }
        if cards[i].def_id == *id {
            n = n + 1;
        }
        i = i + 1;
    }
    proof {
        assert(cards@.take(i as int) =~= cards@);
    }
    n
}

proof fn lemma_count_pos(cards: Seq<CardInstance>, i: int)
    requires
        0 <= i < cards.len(),
    ensures
        count_id(cards, cards[i].def_id@) >= 1,
    decreases cards.len(),
{
    if i < cards.len() - 1 {
        lemma_count_pos(cards.drop_last(), i);
        assert(cards.drop_last()[i] == cards[i]);
    }
}

/// Every id occurs in `b` at least as often as in `a`: `a` could be made
/// of cards of `b`.
pub open spec fn ids_within(a: Seq<CardInstance>, b: Seq<CardInstance>) -> bool {
    forall|id: Seq<char>| #[trigger] count_id(a, id) <= count_id(b, id)
}

proof fn lemma_count_push(cards: Seq<CardInstance>, c: CardInstance, id: Seq<char>)
    ensures
        count_id(cards.push(c), id) == count_id(cards, id) + if c.def_id@ == id { 1int } else { 0int },
{
    assert(cards.push(c).drop_last() =~= cards);
}

proof fn lemma_count_remove(cards: Seq<CardInstance>, i: int, id: Seq<char>)
    requires
        0 <= i < cards.len(),
    ensures
        count_id(cards.remove(i), id) == count_id(cards, id) - if cards[i].def_id@ == id { 1int } else { 0int },
    decreases cards.len(),
{
    if i == cards.len() - 1 {
        assert(cards.remove(i) =~= cards.drop_last());
    } else {
        lemma_count_remove(cards.drop_last(), i, id);
        assert(cards.remove(i).drop_last() =~= cards.drop_last().remove(i));
        assert(cards.remove(i).last() == cards.last());
    }
}

proof fn lemma_count_update(cards: Seq<CardInstance>, i: int, c: CardInstance, id: Seq<char>)
    requires
        0 <= i < cards.len(),
    ensures
        count_id(cards.update(i, c), id) == count_id(cards, id) - (if cards[i].def_id@ == id { 1int } else { 0int })
            + (if c.def_id@ == id { 1int } else { 0int }),
    decreases cards.len(),
{
    if i == cards.len() - 1 {
        assert(cards.update(i, c).drop_last() =~= cards.drop_last());
    } else {
        lemma_count_update(cards.drop_last(), i, c, id);
        assert(cards.update(i, c).drop_last() =~= cards.drop_last().update(i, c));
        assert(cards.update(i, c).last() == cards.last());
    }
}

/// A counted id occurs at some position.
proof fn lemma_count_witness(cards: Seq<CardInstance>, id: Seq<char>)
    requires
        count_id(cards, id) > 0,
    ensures
        exists|j: int| 0 <= j < cards.len() && (#[trigger] cards[j]).def_id@ == id,
    decreases cards.len(),
{
    if cards.last().def_id@ != id {
        lemma_count_witness(cards.drop_last(), id);
        let j = choose|j: int| 0 <= j < cards.drop_last().len() && (#[trigger] cards.drop_last()[j]).def_id@ == id;
        assert(cards[j] == cards.drop_last()[j]);
    } else {
        assert(cards[cards.len() - 1].def_id@ == id);
    }
}

/// A collected id comes from a position below `n` that satisfies `pred`.
proof fn lemma_collect_ids_source(cards: Seq<CardInstance>, n: int, pred: spec_fn(int) -> bool, k: int)
    requires
        0 <= k < collect_ids(cards, n, pred).len(),
    ensures
        exists|i: int| 0 <= i < n && pred(i) && #[trigger] cards[i].def_id@ == collect_ids(cards, n, pred)[k],
    decreases n,
{
    if n > 0 {
        let prev = collect_ids(cards, n - 1, pred);
        if k < prev.len() {
            lemma_collect_ids_source(cards, n - 1, pred, k);
            assert(collect_ids(cards, n, pred)[k] == prev[k]);
        } else {
            assert(collect_ids(cards, n, pred)[k] == cards[n - 1].def_id@);
        }
    }
}

/// A collected position satisfies `pred`.
proof fn lemma_collect_indices_pred(n: int, pred: spec_fn(int) -> bool, k: int)
    requires
        0 <= k < collect_indices(n, pred).len(),
        n <= usize::MAX,
    ensures
        pred(collect_indices(n, pred)[k] as int),
    decreases n,
{
    if n > 0 {
        let prev = collect_indices(n - 1, pred);
        if k < prev.len() {
            lemma_collect_indices_pred(n - 1, pred, k);
            assert(collect_indices(n, pred)[k] == prev[k]);
        } else {
            assert(collect_indices(n, pred)[k] == (n - 1) as usize);
        }
    }
}

/// Whether no earlier card carries the id of the card at `i`.
fn is_first_occurrence(cards: &Vec<CardInstance>, i: usize) -> (r: bool)
    requires
        i < cards@.len(),
    ensures
        r == first_occurrence(cards@, i as int),
{
    let mut j: usize = 0;
    while j < i
        invariant
            j <= i < cards@.len(),
            forall|k: int| 0 <= k < j ==> (#[trigger] cards@[k]).def_id@ != cards@[i as int].def_id@,
        decreases i - j,
    {
        if cards[j].def_id == cards[i].def_id {
            return false;
        }
        j = j + 1;
    }
    true
}


// ── The runner ───────────────────────────────────────────────────────────

pub struct GauntletRunner {
    /// The player's persistent state (HP carries over between fights).
    pub player: PlayerState,
    /// The player's collection of all owned cards (max 40).
    pub collection: Vec<CardInstance>,
    /// The player's play deck — exactly 16 cards, subset of collection.
    pub play_deck: Vec<CardInstance>,
    /// Total fights won so far.
    pub fights_won: u32,
    /// Current phase of the gauntlet.
    pub phase: GauntletPhase,
    /// Master RNG for encounter generation, rewards, etc.
    pub rng: GameRng,
    /// The sub-class chosen for this run.
    pub subclass_id: String,
    /// Immutable content tables.
    pub content: ContentTables,
    /// Active combat state (only present during Combat phase).
    pub combat: Option<CombatState>,
    /// Reward cards offered after a fight (only present during Reward phase).
    pub reward_options: Vec<CardId>,
    /// Current player level (1-indexed, starts at 1).
    pub level: u32,
    /// Bonus draw per turn from DrawBonus perk.
    pub bonus_draw: i32,
    /// Bonus energy from EnergyBonus perk.
    pub bonus_energy: i32,
    /// Cards made innate by InnateChoice perk, each once.
    pub innate_overrides: Vec<CardId>,
    /// Optional synergy group filter (e.g. "marked", "tempo"): the reward
    /// pool and auto-grants then only hold cards of this group and neutral
    /// cards.
    pub synergy_filter: Option<String>,
    /// The player's race (determines starter race card).
    pub race: String,
    /// The player's background (determines starter background card).
    pub background: String,
    /// The player's class.
    pub class: Class,
}

/// The view of an optional owned string.
pub open spec fn opt_string_view(o: Option<String>) -> Option<Seq<char>> {
    match o {
        Some(s) => Some(s@),
        None => None,
    }
}

impl GauntletRunner {
    /// The runner's invariant: the bounds of `wf_core`, and the player's
    /// level is the one its fight count has reached.
    pub open spec fn wf(&self) -> bool {
        &&& self.wf_core()
        &&& self.level == spec_level_at(self.fights_won)
    }

    /// The runner's bounds: the player's numbers stay within the combat
    /// limits with a non-negative max HP, the draw bonus keeps the draw per
    /// turn within them, the fight count within the run, a live combat is
    /// well formed, and the play deck holds exactly 16 cards. (These hold also while a won fight is counted and its
    /// level-up not yet applied.)
    pub open spec fn wf_core(&self) -> bool {
        &&& player_bounded(self.player)
        &&& self.player.max_hp >= 0
        &&& 0 <= self.bonus_draw <= LIMIT - 5
        &&& self.fights_won <= MAX_FIGHTS
        &&& (self.fights_won < MAX_FIGHTS || self.phase is GameOver)
        &&& (self.phase matches GauntletPhase::DeckRebuild { slot_idx, partial_deck } ==> slot_idx == partial_deck@.len()
            && partial_deck@.len() < PLAY_DECK_SIZE)
        &&& (self.combat matches Some(c) ==> c.wf())
        &&& forall|k: int| 0 <= k < self.content.enemy_defs@.len() ==> in_limit((#[trigger] self.content.enemy_defs@[k]).max_hp as int)
        &&& self.play_deck@.len() == PLAY_DECK_SIZE
    }

    /// Whether the card at deck slot `i` may be replaced by the new card: the
    /// slot exists and holds no inherent card, and a legendary new card may
    /// only replace the deck's one legendary card, if it has one.
    pub open spec fn spec_can_swap(&self, new_card_id: Seq<char>, i: int) -> bool {
        &&& 0 <= i < self.play_deck@.len()
        &&& !spec_is_inherent(self.content, self.play_deck@[i].def_id@)
        &&& spec_is_legendary(self.content, new_card_id) ==> forall|j: int|
            0 <= j < self.play_deck@.len() && spec_is_legendary(self.content, #[trigger] self.play_deck@[j].def_id@)
                ==> j == i
    }

    /// Whether the collection card at `idx` may be removed: it is not
    /// inherent, and what is left still holds every card of the play deck.
    #[verifier::opaque]
    pub open spec fn spec_removable(&self, idx: int) -> bool {
        let id = self.collection@[idx].def_id@;
        &&& !spec_is_inherent(self.content, id)
        &&& forall|j: int| 0 <= j < self.play_deck@.len() ==> #[trigger] self.slot_still_held(id, j)
    }

    /// Whether, with one card of id `id` taken out, the collection still
    /// holds as many cards of deck slot `j`'s id as the deck does.
    pub open spec fn slot_still_held(&self, id: Seq<char>, j: int) -> bool {
        count_id(self.collection@, self.play_deck@[j].def_id@) - (if self.play_deck@[j].def_id@ == id { 1int } else { 0int })
            >= count_id(self.play_deck@, self.play_deck@[j].def_id@)
    }

    /// The collection positions whose card may be removed, in order.
    pub open spec fn spec_removal_indices(&self) -> Seq<usize> {
        collect_indices(self.collection@.len() as int, |i: int| self.spec_removable(i))
    }

    /// How many cards of the list are not legendary.
    pub open spec fn nonlegendary_count(&self, cards: Seq<CardInstance>) -> int {
        cards.len() - legendary_count(self.content, cards)
    }

    /// Whether a partial rebuild can still be completed to a 16-card deck from
    /// the collection with at most one legendary card: it fits, holds at
    /// most one legendary, takes no card more often than the collection
    /// holds it, and enough cards (enough non-legendary ones once a
    /// legendary is in) are left for the remaining slots.
    pub open spec fn spec_feasible(&self, partial: Seq<CardInstance>) -> bool {
        &&& partial.len() <= PLAY_DECK_SIZE
        &&& legendary_count(self.content, partial) <= 1
        &&& forall|j: int| 0 <= j < partial.len() ==> count_id(partial, #[trigger] partial[j].def_id@) <= count_id(self.collection@, partial[j].def_id@)
        &&& PLAY_DECK_SIZE - partial.len() <= self.collection@.len() - partial.len()
        &&& legendary_count(self.content, partial) >= 1 ==> PLAY_DECK_SIZE - partial.len()
            <= self.nonlegendary_count(self.collection@) - self.nonlegendary_count(partial)
    }

    /// Whether the collection card at `i` is the first of its id and still
    /// has copies left over the partial deck.
    pub open spec fn spec_unplaced(&self, partial: Seq<CardInstance>, i: int) -> bool {
        &&& first_occurrence(self.collection@, i)
        &&& count_id(partial, self.collection@[i].def_id@) < count_id(self.collection@, self.collection@[i].def_id@)
    }

    /// The cards the current rebuild slot may take: the unplaced inherent
    /// cards if any are left (they go first), else every unplaced card with
    /// which the rebuild stays feasible; each id once, in collection order.
    pub open spec fn spec_rebuild_choices(&self, partial: Seq<CardInstance>) -> Seq<Seq<char>> {
        let inherent = collect_ids(self.collection@, self.collection@.len() as int, |i: int|
            self.spec_unplaced(partial, i) && spec_is_inherent(self.content, self.collection@[i].def_id@));
        if inherent.len() > 0 {
            inherent
        } else {
            collect_ids(self.collection@, self.collection@.len() as int, |i: int|
                self.spec_unplaced(partial, i) && self.spec_feasible(
                    partial.push(CardInstance { def_id: self.collection@[i].def_id, upgraded: false }),
                ))
        }
    }

    fn card_is_legendary(&self, card_id: &String) -> (r: bool)
        ensures
            r == spec_is_legendary(self.content, card_id@),
    {
        match self.content.card_def(card_id) {
            Some(def) => def.rarity == Rarity::Legendary,
            None => false,
        }
    }

    fn card_is_inherent(&self, card_id: &String) -> (r: bool)
        ensures
            r == spec_is_inherent(self.content, card_id@),
    {
        match self.content.card_def(card_id) {
            Some(def) => def.inherent,
            None => false,
        }
    }

    fn legendary_count_of(&self, cards: &Vec<CardInstance>) -> (n: usize)
        ensures
            n == legendary_count(self.content, cards@),
    {
        let mut n: usize = 0;
        let mut i: usize = 0;
        while i < cards.len()
            invariant
                i <= cards@.len(),
                n == legendary_count(self.content, cards@.take(i as int)),
                n <= i,
            decreases cards@.len() - i,
        {
            proof {
                assert(cards@.take(i + 1).drop_last() =~= cards@.take(i as int));
            }
            if self.card_is_legendary(&cards[i].def_id) {
                n = n + 1;
            }
            i = i + 1;
        }
        proof {
            assert(cards@.take(i as int) =~= cards@);
        }
        n
    }

    fn can_swap_new_card_into_slot(&self, new_card_id: &String, deck_idx: usize) -> (r: bool)
        ensures
            r == self.spec_can_swap(new_card_id@, deck_idx as int),
    {
        if deck_idx >= self.play_deck.len() {
            return false;
        }
        if self.card_is_inherent(&self.play_deck[deck_idx].def_id) {
            return false;
        }
        if !self.card_is_legendary(new_card_id) {
            return true;
        }
        let mut j: usize = 0;
        while j < self.play_deck.len()
            invariant
                j <= self.play_deck@.len(),
                deck_idx < self.play_deck@.len(),
                !spec_is_inherent(self.content, self.play_deck@[deck_idx as int].def_id@),
                spec_is_legendary(self.content, new_card_id@),
                forall|k: int| 0 <= k < j && spec_is_legendary(self.content, #[trigger] self.play_deck@[k].def_id@) ==> k == deck_idx,
            decreases self.play_deck@.len() - j,
        {
            if j != deck_idx && self.card_is_legendary(&self.play_deck[j].def_id) {
                proof {
                    assert(spec_is_legendary(self.content, self.play_deck@[j as int].def_id@));
                }
                return false;
            }
            j = j + 1;
        }
        true
    }

    fn removable(&self, idx: usize) -> (r: bool)
        requires
            idx < self.collection@.len(),
        ensures
            r == self.spec_removable(idx as int),
    {
        let id = &self.collection[idx].def_id;
        if self.card_is_inherent(id) {
            proof {
                reveal(GauntletRunner::spec_removable);
            }
            return false;
        }
        let mut j: usize = 0;
        while j < self.play_deck.len()
            invariant
                idx < self.collection@.len(),
                *id == self.collection@[idx as int].def_id,
                !spec_is_inherent(self.content, id@),
                j <= self.play_deck@.len(),
                forall|k: int| 0 <= k < j ==> #[trigger] self.slot_still_held(id@, k),
            decreases self.play_deck@.len() - j,
        {
            let deck_id = &self.play_deck[j].def_id;
            let have = count_of(&self.collection, deck_id);
            let need = count_of(&self.play_deck, deck_id);
            let same = *deck_id == *id;
            if same {
                proof {
                    lemma_count_pos(self.collection@, idx as int);
                }
            }
            let left: usize = if same { have - 1 } else { have };
            proof {
                assert(self.slot_still_held(id@, j as int) == (left >= need));
            }
            if left < need {
                proof {
                    assert(!self.slot_still_held(id@, j as int));
                    reveal(GauntletRunner::spec_removable);
                }
                return false;
            }
            j = j + 1;
        }
        proof {
            reveal(GauntletRunner::spec_removable);
        }
        true
    }

    /// The collection positions whose card may be removed to resolve an
    /// overflow, in order.
    pub fn overflow_removal_indices(&self) -> (r: Vec<usize>)
        ensures
            r@ == self.spec_removal_indices(),
    {
        let mut removable: Vec<usize> = Vec::new();
        let mut i: usize = 0;
        while i < self.collection.len()
            invariant
                i <= self.collection@.len(),
                removable@ == collect_indices(i as int, |k: int| self.spec_removable(k)),
            decreases self.collection@.len() - i,
        {
            let ghost pre = removable@;
            if self.removable(i) {
                removable.push(i);
            }
            proof {
                let p = |k: int| self.spec_removable(k);
                assert(collect_indices(i + 1, p) == collect_indices(i as int, p) + if p(i as int) {
                    seq![i]
                } else {
                    Seq::<usize>::empty()
                });
                assert(removable@ =~= collect_indices(i + 1, p));
            }
            i = i + 1;
        }
        removable
    }

    fn partial_rebuild_is_feasible(&self, partial_deck: &Vec<CardInstance>) -> (r: bool)
        requires
            self.wf(),
        ensures
            r == self.spec_feasible(partial_deck@),
    {
        if partial_deck.len() > PLAY_DECK_SIZE {
            return false;
        }
        let legendary = self.legendary_count_of(partial_deck);
        if legendary > 1 {
            return false;
        }
        let mut j: usize = 0;
        while j < partial_deck.len()
            invariant
                j <= partial_deck@.len(),
                forall|k: int| 0 <= k < j ==> count_id(partial_deck@, #[trigger] partial_deck@[k].def_id@) <= count_id(self.collection@, partial_deck@[k].def_id@),
            decreases partial_deck@.len() - j,
        {
            if count_of(partial_deck, &partial_deck[j].def_id) > count_of(&self.collection, &partial_deck[j].def_id) {
                return false;
            }
            j = j + 1;
        }
        let remaining_slots = PLAY_DECK_SIZE - partial_deck.len();
        if self.collection.len() < partial_deck.len() || self.collection.len() - partial_deck.len() < remaining_slots {
            return false;
        }
        if legendary >= 1 {
            let coll_legendary = self.legendary_count_of(&self.collection);
            proof {
                lemma_legendary_count_le(self.content, self.collection@);
                lemma_legendary_count_le(self.content, partial_deck@);
            }
            let coll_nonlegendary = self.collection.len() - coll_legendary;
            let partial_nonlegendary = partial_deck.len() - legendary;
            if coll_nonlegendary < partial_nonlegendary || coll_nonlegendary - partial_nonlegendary < remaining_slots {
                return false;
            }
        }
        true
    }

    /// The cards the current rebuild slot may take (see
    /// `spec_rebuild_choices`).
    pub fn rebuild_card_choices(&self, partial_deck: &Vec<CardInstance>) -> (r: Vec<CardId>)
        requires
            self.wf(),
        ensures
            card_ids_view(r@) == self.spec_rebuild_choices(partial_deck@),
    {
        let ghost coll = self.collection@;
        let ghost partial = partial_deck@;
        let mut inherent: Vec<CardId> = Vec::new();
        let mut i: usize = 0;
        while i < self.collection.len()
            invariant
                i <= self.collection@.len(),
                card_ids_view(inherent@) == collect_ids(self.collection@, i as int, |k: int|
                    self.spec_unplaced(partial_deck@, k) && spec_is_inherent(self.content, self.collection@[k].def_id@)),
            decreases self.collection@.len() - i,
        {
            let id = &self.collection[i].def_id;
            let ok = is_first_occurrence(&self.collection, i) && self.card_is_inherent(id)
                && count_of(partial_deck, id) < count_of(&self.collection, id);
            if ok {
                let ghost pre = card_ids_view(inherent@);
                inherent.push(id.clone());
                proof {
                    assert(card_ids_view(inherent@) =~= pre.push(id@));
                }
            }
            proof {
                let ghost p = |k: int| self.spec_unplaced(partial_deck@, k) && spec_is_inherent(self.content, self.collection@[k].def_id@);
                assert(collect_ids(self.collection@, i + 1, p) == collect_ids(self.collection@, i as int, p) + if p(i as int) {
                    seq![self.collection@[i as int].def_id@]
                } else {
                    Seq::<Seq<char>>::empty()
                });
                if !ok {
                    assert(card_ids_view(inherent@) =~= card_ids_view(inherent@) + Seq::<Seq<char>>::empty());
                }
            }
            i = i + 1;
        }
        if inherent.len() > 0 {
            return inherent;
        }
        let mut result: Vec<CardId> = Vec::new();
        let mut i: usize = 0;
        while i < self.collection.len()
            invariant
                self.wf(),
                i <= self.collection@.len(),
                card_ids_view(result@) == collect_ids(self.collection@, i as int, |k: int|
                    self.spec_unplaced(partial_deck@, k) && self.spec_feasible(
                        partial_deck@.push(CardInstance { def_id: self.collection@[k].def_id, upgraded: false }),
                    )),
            decreases self.collection@.len() - i,
        {
            let id = &self.collection[i].def_id;
            let mut ok = is_first_occurrence(&self.collection, i) && count_of(partial_deck, id) < count_of(&self.collection, id);
            if ok {
                let mut candidate: Vec<CardInstance> = Vec::new();
                let mut k: usize = 0;
                while k < partial_deck.len()
                    invariant
                        k <= partial_deck@.len(),
                        candidate@ == partial_deck@.take(k as int),
                    decreases partial_deck@.len() - k,
                {
                    candidate.push(partial_deck[k].duplicate());
                    proof {
                        assert(partial_deck@.take(k + 1) =~= partial_deck@.take(k as int).push(partial_deck@[k as int]));
                    }
                    k = k + 1;
                }
                proof {
                    assert(partial_deck@.take(k as int) =~= partial_deck@);
                }
                candidate.push(CardInstance { def_id: id.clone(), upgraded: false });
                ok = self.partial_rebuild_is_feasible(&candidate);
            }
            if ok {
                let ghost pre = card_ids_view(result@);
                result.push(id.clone());
                proof {
                    assert(card_ids_view(result@) =~= pre.push(id@));
                }
            }
            proof {
                let ghost p = |k: int| self.spec_unplaced(partial_deck@, k) && self.spec_feasible(
                    partial_deck@.push(CardInstance { def_id: self.collection@[k].def_id, upgraded: false }),
                );
                assert(collect_ids(self.collection@, i + 1, p) == collect_ids(self.collection@, i as int, p) + if p(i as int) {
                    seq![self.collection@[i as int].def_id@]
                } else {
                    Seq::<Seq<char>>::empty()
                });
                if !ok {
                    assert(card_ids_view(result@) =~= card_ids_view(result@) + Seq::<Seq<char>>::empty());
                }
            }
            i = i + 1;
        }
        result
    }
}


/// A copy of a list of cards.
fn copy_cards(cards: &Vec<CardInstance>) -> (r: Vec<CardInstance>)
    ensures
        r@ == cards@,
{
    let mut r: Vec<CardInstance> = Vec::new();
    let mut k: usize = 0;
    while k < cards.len()
        invariant
            k <= cards@.len(),
            r@ == cards@.take(k as int),
        decreases cards@.len() - k,
    {
        r.push(cards[k].duplicate());
        proof {
            assert(cards@.take(k + 1) =~= cards@.take(k as int).push(cards@[k as int]));
        }
        k = k + 1;
    }
    proof {
        assert(cards@.take(k as int) =~= cards@);
    }
    r
}

/// A copy of a list of ids.
fn copy_ids(ids: &Vec<CardId>) -> (r: Vec<CardId>)
    ensures
        r@ == ids@,
{
    let mut r: Vec<CardId> = Vec::new();
    let mut k: usize = 0;
    while k < ids.len()
        invariant
            k <= ids@.len(),
            r@ == ids@.take(k as int),
        decreases ids@.len() - k,
    {
        r.push(ids[k].clone());
        proof {
            assert(ids@.take(k + 1) =~= ids@.take(k as int).push(ids@[k as int]));
        }
        k = k + 1;
    }
    proof {
        assert(ids@.take(k as int) =~= ids@);
    }
    r
}

/// Thirty percent of `max_hp`, rounded half away from zero: the rest-stop
/// heal.
pub open spec fn spec_rest_heal(max_hp: int) -> int {
    if max_hp >= 0 {
        (3 * max_hp + 5) / 10
    } else {
        -((3 * (-max_hp) + 5) / 10)
    }
}

/// The rest-stop heal for a max HP (30 percent, rounded half away from
/// zero).
pub fn rest_heal_amount(max_hp: i32) -> (r: i32)
    requires
        in_limit(max_hp as int),
    ensures
        r == spec_rest_heal(max_hp as int),
{
    let m = max_hp as i64;
    let v = if m >= 0 {
        (3 * m + 5) / 10
    } else {
        -((3 * (-m) + 5) / 10)
    };
    v as i32
}

impl GauntletRunner {
    /// Build the enemies of an encounter from the content (unknown ids are
    /// skipped) and start a combat against them with a seed drawn from the
    /// run's generator.
    pub fn start_combat(&mut self)
        requires
            old(self).wf(),
            old(self).fights_won < MAX_FIGHTS,
        ensures
            final(self).wf(),
            final(self).phase is Combat,
            final(self).combat is Some,
            *final(self) == (GauntletRunner { phase: final(self).phase, combat: final(self).combat, rng: final(self).rng, ..*old(self) }),
            final(self).rng.spec_seed() == old(self).rng.spec_seed(),
            old(self).starts_combat(final(self).combat->0),
    {
        let act = effective_act(self.fights_won);
        let player_level = player_level_at(self.fights_won, self.subclass_id.as_str());
        let enemy_ids = encounter_for_level(player_level, self.fights_won as usize, act, &mut self.rng);
        let mut enemies: Vec<EnemyState> = Vec::new();
        let mut k: usize = 0;
        while k < enemy_ids.len()
            invariant
                k <= enemy_ids@.len() <= 4,
                enemies@.len() <= k,
                forall|j: int| 0 <= j < enemies@.len() ==> enemy_bounded(#[trigger] enemies@[j]),
                forall|j: int| 0 <= j < self.content.enemy_defs@.len() ==> in_limit((#[trigger] self.content.enemy_defs@[j]).max_hp as int),
                forall|j: int| 0 <= j < enemies@.len() ==> fresh_from_content(#[trigger] enemies@[j], self.content),
            decreases enemy_ids@.len() - k,
        {
            match self.content.enemy_index(&enemy_ids[k]) {
                Some(i) => {
                    let e = EnemyState::from_def(&self.content.enemy_defs[i]);
                    proof {
                        assert(in_limit(self.content.enemy_defs@[i as int].max_hp as int));
                        assert(self.content.enemy_defs@[i as int].id@ == e.def_id@);
                        assert(fresh_from_content(e, self.content));
                    }
                    enemies.push(e);
                },
                None => {},
            }
            k = k + 1;
        }
        let combat_player = PlayerState {
            hp: self.player.hp,
            max_hp: self.player.max_hp,
            block: 0,
            energy: self.player.max_energy,
            max_energy: self.player.max_energy,
            status_effects: StatusMap::new(),
        };
        let combat_seed = self.rng.next_u64();
        let deck = copy_cards(&self.play_deck);
        let defs = copy_enemy_defs(&self.content.enemy_defs);
        proof {
            assert(enemies@.len() <= 4);
        }
        let mut combat = CombatState::new_with_act(
            combat_player,
            deck,
            enemies,
            combat_seed,
            0,
            0,
            Some(self.class),
            act,
            defs,
            &self.content,
        );
        combat.draw_per_turn = (5 + self.bonus_draw) as usize;
        combat.innate_overrides = copy_ids(&self.innate_overrides);
        self.combat = Some(combat);
        self.phase = GauntletPhase::Combat;
    }

    /// Start the next combat and announce it.
    fn transition_to_next_combat(&mut self, events: &mut Vec<GauntletEvent>)
        requires
            old(self).wf(),
            old(self).fights_won < MAX_FIGHTS,
        ensures
            final(self).wf(),
            final(self).fresh_combat_if_combat(),
            final(self).phase is Combat,
            final(self).combat is Some,
            *final(self) == (GauntletRunner { phase: final(self).phase, combat: final(self).combat, rng: final(self).rng, ..*old(self) }),
            final(events)@ == old(events)@.push(GauntletEvent::CombatStarted {
                fight_number: (old(self).fights_won + 1) as u32,
                enemy_count: final(self).combat.unwrap().enemies@.len() as usize,
            }),
    {
        self.start_combat();
        match &self.combat {
            Some(combat) => {
                events.push(GauntletEvent::CombatStarted {
                    fight_number: self.fights_won + 1,
                    enemy_count: combat.enemies.len(),
                });
            },
            None => {},
        }
    }

    /// Offer the battle rewards: three cards drawn from the level's pool.
    fn generate_battle_rewards(&mut self)
        requires
            old(self).wf(),
        ensures
            final(self).wf(),
            *final(self) == (GauntletRunner { reward_options: final(self).reward_options, rng: final(self).rng, ..*old(self) }),
            final(self).offer_from_pool(),
    {
        let filter: Option<&str> = match &self.synergy_filter {
            Some(f) => Some(f.as_str()),
            None => None,
        };
        let pool = reward_pool_at_level_filtered(self.subclass_id.as_str(), self.level, filter);
        self.reward_options = generate_rewards(pool.as_slice(), REWARD_CARD_COUNT, &mut self.rng);
    }
}


/// `after` extends the run's event log `before`.
pub open spec fn gauntlet_log_extended(before: Seq<GauntletEvent>, after: Seq<GauntletEvent>) -> bool {
    &&& before.len() <= after.len()
    &&& forall|j: int| 0 <= j < before.len() ==> #[trigger] after[j] == before[j]
}

/// Whether the run's event log holds the event at or after `from`.
pub open spec fn has_run_event(log: Seq<GauntletEvent>, from: int, e: GauntletEvent) -> bool {
    exists|k: int| from <= k < log.len() && #[trigger] log[k] == e
}

/// Whether the run's event log holds, at or after `from`, the grant of the
/// card with this id.
pub open spec fn has_card_granted(log: Seq<GauntletEvent>, from: int, id: Seq<char>) -> bool {
    exists|k: int| from <= k < log.len() && (#[trigger] log[k] matches GauntletEvent::CardGranted { card_id } && card_id@ == id)
}

impl GauntletRunner {
    /// The events of a won fight, logged from `from` on: the win; the run's
    /// win at the last fight; else the level-up at a level-up fight with the
    /// perk or the cards it grants, and the heal at a rest stop.
    pub open spec fn victory_logged(&self, after: GauntletRunner, from: int, log: Seq<GauntletEvent>) -> bool {
        let won = (self.fights_won + 1) as u32;
        &&& exists|k: int| from <= k < log.len() && (#[trigger] log[k] matches GauntletEvent::FightWon { fights_won, .. } && fights_won
            == won)
        &&& won >= MAX_FIGHTS ==> has_run_event(log, from, GauntletEvent::RunWon { fights_won: won })
        &&& won < MAX_FIGHTS && is_rest_stop(won) ==> exists|k: int| from <= k < log.len() && #[trigger] log[k] is RestHealed
        &&& won < MAX_FIGHTS && !is_rest_stop(won) && is_level_up_fight(won) ==> {
            let level = (won / 4 + 1) as u32;
            &&& has_run_event(log, from, GauntletEvent::LevelUp { level, new_max_hp: after.player.max_hp })
            &&& match spec_perk_at(level) {
                Some(p) => has_run_event(log, from, GauntletEvent::PerkGranted { perk: p }),
                None => forall|j: int| 0 <= j < spec_auto_grants(
                    spec_progression_table(),
                    self.subclass_id@,
                    level,
                    opt_string_view(self.synergy_filter),
                ).len() ==> has_card_granted(
                    log,
                    from,
                    #[trigger] spec_auto_grants(spec_progression_table(), self.subclass_id@, level, opt_string_view(self.synergy_filter))[j],
                ),
            }
        }
    }
}

/// The events that close a step from `from` on: the start of the next
/// combat where the step started one, else none.
pub open spec fn closing_logged(log: Seq<GauntletEvent>, from: int, after: GauntletRunner) -> bool {
    if after.phase is Combat {
        &&& log.len() == from + 1
        &&& log[from] == (GauntletEvent::CombatStarted {
            fight_number: (after.fights_won + 1) as u32,
            enemy_count: after.combat.unwrap().enemies@.len() as usize,
        })
    } else {
        log.len() == from
    }
}

impl GauntletRunner {
    /// The events an accepted action returns: a combat action's first event
    /// holds the combat's own events, then a won fight's events or the lost
    /// fight; every other action's first event records it, then the start of
    /// the next combat where one starts (after a finished rebuild, once the
    /// rebuild is announced finished).
    pub open spec fn run_outcome_logged(&self, after: GauntletRunner, action: GauntletAction, ev: Seq<GauntletEvent>) -> bool {
        &&& ev.len() > 0
        &&& match action {
            GauntletAction::CombatAction(a) => {
                &&& (ev[0] matches GauntletEvent::Combat(inner) && self.combat_step_followed(after, a, inner@))
                &&& after.fights_won == self.fights_won + 1 ==> self.victory_logged(after, 1, ev)
                &&& after.fights_won == self.fights_won && after.phase is GameOver ==> exists|k: int| 1 <= k < ev.len()
                    && (#[trigger] ev[k] matches GauntletEvent::FightLost { fights_won, .. } && fights_won == self.fights_won)
            },
            GauntletAction::PickReward(i) => {
                &&& ev[0] == (GauntletEvent::RewardPicked { card_id: self.reward_options@[i as int] })
                &&& closing_logged(ev, 1, after)
            },
            GauntletAction::SkipReward => {
                &&& ev[0] == GauntletEvent::RewardSkipped
                &&& closing_logged(ev, 1, after)
            },
            GauntletAction::RemoveCollectionCard(i) => {
                &&& ev[0] == (GauntletEvent::CollectionCardRemoved {
                    card_id: self.collection@[self.spec_removal_indices()[i as int] as int].def_id,
                })
                &&& closing_logged(ev, 1, after)
            },
            GauntletAction::ChooseInnate(i) => {
                &&& ev[0] == (GauntletEvent::CardMadeInnate { card_id: self.play_deck@[i as int].def_id })
                &&& closing_logged(ev, 1, after)
            },
            GauntletAction::SwapIntoDeck(d) => {
                &&& ev[0] == (GauntletEvent::DeckSwapped {
                    added_to_deck: self.phase->new_card_id,
                    removed_from_deck: self.play_deck@[d as int].def_id,
                })
                &&& closing_logged(ev, 1, after)
            },
            GauntletAction::SkipSwap => {
                &&& ev[0] == GauntletEvent::SwapSkipped
                &&& closing_logged(ev, 1, after)
            },
            GauntletAction::ChooseDeckSlotCard(_) => {
                &&& (ev[0] matches GauntletEvent::DeckRewriteSlotChosen { slot_idx, .. } && slot_idx == self.phase->slot_idx)
                &&& if after.phase is Combat {
                    ev.len() > 1 && ev[1] == GauntletEvent::RebuildFinished && closing_logged(ev, 2, after)
                } else {
                    ev.len() == 1
                }
            },
        }
    }
}

impl GauntletRunner {
    /// Apply a level-up: the new level and 5 more max HP (held within the
    /// combat limits), no heal.
    fn apply_level_up(&mut self, level: u32, events: &mut Vec<GauntletEvent>)
        requires
            old(self).wf_core(),
            level == spec_level_at(old(self).fights_won),
        ensures
            final(self).wf(),
            final(self).level == level,
            final(self).player.max_hp == vstd::math::min(old(self).player.max_hp + LEVEL_UP_HP_BONUS, LIMIT as int),
            *final(self) == (GauntletRunner { level, player: PlayerState { max_hp: final(self).player.max_hp, ..old(self).player }, ..*old(self) }),
            final(events)@ == old(events)@.push(GauntletEvent::LevelUp { level, new_max_hp: final(self).player.max_hp }),
    {
        self.level = level;
        self.player.max_hp = if self.player.max_hp <= LIMIT - LEVEL_UP_HP_BONUS {
            self.player.max_hp + LEVEL_UP_HP_BONUS
        } else {
            LIMIT
        };
        events.push(GauntletEvent::LevelUp { level, new_max_hp: self.player.max_hp });
    }

    /// Grant a fixed card: add it to the collection, then resolve an
    /// overflow if the collection is over its cap, else offer a deck swap.
    fn grant_card(&mut self, card_id: CardId, events: &mut Vec<GauntletEvent>)
        requires
            old(self).wf(),
            !(old(self).phase is GameOver),
        ensures
            final(self).wf(),
            final(self).collection@ == old(self).collection@.push(CardInstance { def_id: card_id, upgraded: false }),
            final(self).phase == (if final(self).collection@.len() > MAX_COLLECTION_SIZE {
                GauntletPhase::CollectionOverflow {
                    next_phase: OverflowNextPhase::DeckSwap { new_card_id: card_id, new_card_index: old(self).collection@.len() as usize },
                }
            } else {
                GauntletPhase::DeckSwap { new_card_id: card_id }
            }),
            *final(self) == (GauntletRunner { collection: final(self).collection, phase: final(self).phase, ..*old(self) }),
            final(events)@ == old(events)@.push(GauntletEvent::CardGranted { card_id }),
    {
        let card = CardInstance { def_id: card_id.clone(), upgraded: false };
        self.collection.push(card);
        events.push(GauntletEvent::CardGranted { card_id: card_id.clone() });
        let new_card_index = self.collection.len() - 1;
        if self.collection.len() > MAX_COLLECTION_SIZE {
            self.phase = GauntletPhase::CollectionOverflow {
                next_phase: OverflowNextPhase::DeckSwap { new_card_id: card_id, new_card_index },
            };
        } else {
            self.phase = GauntletPhase::DeckSwap { new_card_id: card_id };
        }
    }

    /// Apply a perk: a draw or energy bonus starts the next combat; an
    /// innate choice asks for a deck card first.
    fn apply_perk(&mut self, perk: PerkType, events: &mut Vec<GauntletEvent>)
        requires
            old(self).wf(),
            old(self).fights_won < MAX_FIGHTS,
        ensures
            final(self).wf(),
            final(self).fresh_combat_if_combat(),
            final(self).collection == old(self).collection,
            final(self).play_deck == old(self).play_deck,
            final(self).fights_won == old(self).fights_won,
            final(self).player.hp == old(self).player.hp,
            final(self).player.max_hp == old(self).player.max_hp,
            perk == PerkType::InnateChoice ==> final(self).phase is InnateChoice,
            perk != PerkType::InnateChoice ==> final(self).phase is Combat,
            perk == PerkType::DrawBonus ==> final(self).bonus_draw == vstd::math::min(old(self).bonus_draw + 1, LIMIT - 5),
            perk == PerkType::EnergyBonus ==> final(self).player.max_energy == vstd::math::min(old(self).player.max_energy + 1, LIMIT as int),
            gauntlet_log_extended(old(events)@, final(events)@),
            final(events)@.len() > old(events)@.len(),
            final(events)@[old(events)@.len() as int] == (GauntletEvent::PerkGranted { perk }),
    {
        match perk {
            PerkType::DrawBonus => {
                if self.bonus_draw < LIMIT - 5 {
                    self.bonus_draw = self.bonus_draw + 1;
                }
            },
            PerkType::EnergyBonus => {
                if self.player.max_energy < LIMIT {
                    self.player.max_energy = self.player.max_energy + 1;
                }
            },
            PerkType::InnateChoice => {
                events.push(GauntletEvent::PerkGranted { perk });
                self.phase = GauntletPhase::InnateChoice;
                return;
            },
        }
        events.push(GauntletEvent::PerkGranted { perk });
        self.transition_to_next_combat(events);
    }

    /// Heal at a rest stop (30 percent of max HP, capped at max HP), then
    /// rebuild the deck when the collection holds more than a deck, else
    /// start the next combat.
    pub fn auto_rest_stop(&mut self, events: &mut Vec<GauntletEvent>)
        requires
            old(self).wf(),
            old(self).fights_won < MAX_FIGHTS,
        ensures
            final(self).wf(),
            final(self).fresh_combat_if_combat(),
            final(self).player.hp == vstd::math::min(old(self).player.hp + spec_rest_heal(old(self).player.max_hp as int), old(self).player.max_hp as int),
            final(self).collection == old(self).collection,
            final(self).play_deck == old(self).play_deck,
            final(self).fights_won == old(self).fights_won,
            old(self).collection@.len() > PLAY_DECK_SIZE ==> (final(self).phase matches GauntletPhase::DeckRebuild { slot_idx, partial_deck }
                && slot_idx == 0 && partial_deck@.len() == 0),
            old(self).collection@.len() <= PLAY_DECK_SIZE ==> final(self).phase is Combat,
            gauntlet_log_extended(old(events)@, final(events)@),
            final(events)@.len() > old(events)@.len(),
            final(events)@[old(events)@.len() as int] == (GauntletEvent::RestHealed {
                amount: (final(self).player.hp - old(self).player.hp) as i32,
            }),
    {
        let heal_amount = rest_heal_amount(self.player.max_hp);
        let hp_before = self.player.hp;
        self.player.heal(heal_amount);
        let actual_heal = self.player.hp - hp_before;
        events.push(GauntletEvent::RestHealed { amount: actual_heal });
        if self.collection.len() > PLAY_DECK_SIZE {
            self.phase = GauntletPhase::DeckRebuild { slot_idx: 0, partial_deck: Vec::new() };
        } else {
            self.transition_to_next_combat(events);
        }
    }

    /// After a won combat: carry the player's HP over, count the win, end
    /// the run at the last fight, else run the post-fight event.
    fn finish_combat_victory(&mut self, events: &mut Vec<GauntletEvent>)
        requires
            old(self).wf(),
            old(self).fights_won < MAX_FIGHTS,
            old(self).combat matches Some(c) && c.phase == CombatPhase::Victory,
        ensures
            final(self).wf(),
            final(self).fresh_combat_if_combat(),
            final(self).fights_won == old(self).fights_won + 1,
            final(self).fights_won >= MAX_FIGHTS ==> final(self).phase is GameOver,
            final(self).fights_won < MAX_FIGHTS ==> !(final(self).phase is GameOver),
            !is_rest_stop(final(self).fights_won) ==> final(self).player.hp == old(self).combat->0.player.hp,
            final(self).play_deck == old(self).play_deck,
            ids_within(old(self).collection@, final(self).collection@),
            final(self).phase matches GauntletPhase::DeckRebuild { partial_deck, .. } ==> partial_deck@.len() == 0,
            final(self).phase is Reward ==> final(self).offer_from_pool(),
            gauntlet_log_extended(old(events)@, final(events)@),
            old(self).victory_logged(*final(self), old(events)@.len() as int, final(events)@),
    {
        let mut player_hp = self.player.hp;
        let mut player_max_hp = self.player.max_hp;
        match &self.combat {
            Some(combat) => {
                player_hp = combat.player.hp;
                player_max_hp = combat.player.max_hp;
                self.player.hp = combat.player.hp;
            },
            None => {},
        }
        self.combat = None;
        self.fights_won = self.fights_won + 1;
        proof {
            if is_level_up_fight(self.fights_won) {
                lemma_level_reached(self.fights_won);
            } else {
                lemma_level_kept(self.fights_won);
            }
        }
        events.push(GauntletEvent::FightWon { fights_won: self.fights_won, player_hp, player_max_hp });
        let ghost from = old(events)@.len() as int;
        let ghost won_at = events@.len() - 1;
        let ghost won_event = events@[won_at];
        if self.fights_won >= MAX_FIGHTS {
            events.push(GauntletEvent::RunWon { fights_won: self.fights_won });
            self.phase = GauntletPhase::GameOver;
            proof {
                assert(events@[won_at] == won_event);
                assert(events@[events@.len() - 1] == GauntletEvent::RunWon { fights_won: self.fights_won });
            }
            return;
        }
        let filter: Option<&str> = match &self.synergy_filter {
            Some(f) => Some(f.as_str()),
            None => None,
        };
        proof {
            assert(opt_strs_view(filter) == opt_string_view(self.synergy_filter));
        }
        let event = post_fight_event(self.fights_won, self.subclass_id.as_str(), filter);
        match event {
            PostFightEvent::BattleReward => {
                self.generate_battle_rewards();
                self.phase = GauntletPhase::Reward;
                proof {
                    assert(events@[won_at] == won_event);
                    assert(old(self).victory_logged(*self, from, events@));
                }
            },
            PostFightEvent::CardGrant { level, card_ids } => {
                self.apply_level_up(level, events);
                let ghost lv_at = events@.len() - 1;
                let ghost lv_event = events@[lv_at];
                if card_ids.len() == 0 {
                    self.transition_to_next_combat(events);
                    proof {
                        assert(events@[won_at] == won_event);
                        assert(events@[lv_at] == lv_event);
                        assert(old(self).victory_logged(*self, from, events@));
                    }
                } else {
                    self.phase = GauntletPhase::Reward;
                    let mut k: usize = 0;
                    while k < card_ids.len()
                        invariant
                            self.wf(),
                            self.fights_won < MAX_FIGHTS,
                            !(self.phase is GameOver),
                            self.player.hp == old(self).combat->0.player.hp,
                            self.fights_won == old(self).fights_won + 1,
                            self.play_deck == old(self).play_deck,
                            ids_within(old(self).collection@, self.collection@),
                            !(self.phase is DeckRebuild),
                            k <= card_ids@.len(),
                            k > 0 ==> (self.phase is DeckSwap || self.phase is CollectionOverflow),
                            gauntlet_log_extended(old(events)@, events@),
                            won_at < events@.len() && events@[won_at] == won_event,
                            lv_at < events@.len() && events@[lv_at] == lv_event,
                            0 <= from <= won_at < lv_at,
                            from == old(events)@.len(),
                            lv_event == (GauntletEvent::LevelUp { level, new_max_hp: self.player.max_hp }),
                            forall|j: int| 0 <= j < k ==> has_card_granted(events@, from, #[trigger] card_ids@[j]@),
                        decreases card_ids@.len() - k,
                    {
                        let ghost before = self.collection@;
                        let id = card_ids[k].clone();
                        let ghost ev0 = events@;
                        self.grant_card(id, events);
                        proof {
                            assert(events@[events@.len() - 1] == (GauntletEvent::CardGranted { card_id: id }));
                            assert forall|j: int| 0 <= j < k + 1 implies has_card_granted(events@, from, #[trigger] card_ids@[j]@) by {
                                if j < k {
                                    assert(has_card_granted(ev0, from, card_ids@[j]@));
                                    let w = choose|w: int| from <= w < ev0.len() && (#[trigger] ev0[w] matches GauntletEvent::CardGranted {
                                        card_id,
                                    } && card_id@ == card_ids@[j]@);
                                    assert(events@[w] == ev0[w]);
                                } else {
                                    assert(events@[events@.len() - 1] is CardGranted);
                                }
                            }
                        }
                        proof {
                            assert forall|y: Seq<char>| #[trigger] count_id(old(self).collection@, y) <= count_id(self.collection@, y) by {
                                lemma_count_push(before, CardInstance { def_id: id, upgraded: false }, y);
                            }
                        }
                        k = k + 1;
                    }
                }
            },
            PostFightEvent::PerkGrant { level, perk } => {
                self.apply_level_up(level, events);
                let ghost lv_at = events@.len() - 1;
                let ghost lv_event = events@[lv_at];
                let ghost perk_at = events@.len() as int;
                self.apply_perk(perk, events);
                proof {
                    assert(events@[won_at] == won_event);
                    assert(events@[lv_at] == lv_event);
                    assert(events@[perk_at] == GauntletEvent::PerkGranted { perk });
                    assert(old(self).victory_logged(*self, from, events@));
                }
            },
            PostFightEvent::RestStop => {
                let ghost heal_at = events@.len() as int;
                self.auto_rest_stop(events);
                proof {
                    assert(events@[won_at] == won_event);
                    assert(events@[heal_at] is RestHealed);
                    assert(old(self).victory_logged(*self, from, events@));
                }
            },
        }
    }
}


impl GauntletRunner {
    /// Which error `apply` answers an action with, if any: an action of
    /// another phase is refused, a combat action fails as the combat refuses
    /// it, and an index out of the phase's range is refused.
    pub open spec fn spec_apply_error(&self, action: GauntletAction) -> Option<GauntletError> {
        match self.phase {
            GauntletPhase::Combat => match action {
                GauntletAction::CombatAction(a) => match self.combat {
                    Some(c) => match c.spec_action_error(a, &self.content) {
                        Some(e) => Some(GauntletError::CombatError(e)),
                        None => None,
                    },
                    None => Some(GauntletError::WrongPhase),
                },
                _ => Some(GauntletError::WrongPhase),
            },
            GauntletPhase::Reward => match action {
                GauntletAction::PickReward(i) => if i >= self.reward_options@.len() {
                    Some(GauntletError::InvalidRewardIndex)
                } else {
                    None
                },
                GauntletAction::SkipReward => None,
                _ => Some(GauntletError::WrongPhase),
            },
            GauntletPhase::CollectionOverflow { .. } => match action {
                GauntletAction::RemoveCollectionCard(i) => if i >= self.spec_removal_indices().len() {
                    Some(GauntletError::InvalidCollectionIndex)
                } else {
                    None
                },
                _ => Some(GauntletError::WrongPhase),
            },
            GauntletPhase::InnateChoice => match action {
                GauntletAction::ChooseInnate(i) => if i >= self.play_deck@.len() {
                    Some(GauntletError::InvalidDeckIndex)
                } else {
                    None
                },
                _ => Some(GauntletError::WrongPhase),
            },
            GauntletPhase::DeckSwap { new_card_id } => match action {
                GauntletAction::SwapIntoDeck(i) => if !self.spec_can_swap(new_card_id@, i as int) {
                    Some(GauntletError::InvalidDeckIndex)
                } else {
                    None
                },
                GauntletAction::SkipSwap => None,
                _ => Some(GauntletError::WrongPhase),
            },
            GauntletPhase::DeckRebuild { partial_deck, .. } => match action {
                GauntletAction::ChooseDeckSlotCard(i) => if i >= self.spec_rebuild_choices(partial_deck@).len() {
                    Some(GauntletError::InvalidCollectionIndex)
                } else {
                    None
                },
                _ => Some(GauntletError::WrongPhase),
            },
            GauntletPhase::GameOver => Some(GauntletError::WrongPhase),
        }
    }

    /// What a combat action made of the run: the combat became what the
    /// action made of it; a won fight counts one more fight won, a lost one
    /// ends the run with no combat, and otherwise the fight goes on. `log`
    /// is the combat's event list for the action.
    pub open spec fn combat_step_followed(&self, after: GauntletRunner, action: Action, log: Seq<GameEvent>) -> bool {
        match self.combat {
            Some(cs) => exists|c: CombatState| #[trigger] cs.combat_action_done(c, action, &self.content, log) && if c.phase
                == CombatPhase::Victory {
                after.fights_won == self.fights_won + 1
            } else if c.phase == CombatPhase::Defeat {
                &&& after.phase is GameOver
                &&& after.combat is None
                &&& after.fights_won == self.fights_won
            } else {
                &&& after.combat == Some(c)
                &&& after.phase == self.phase
                &&& after.fights_won == self.fights_won
            },
            None => false,
        }
    }

    /// What an accepted action does to the run: a combat action keeps the
    /// play deck, only adds cards to the collection and wins at most one
    /// fight (without a win the run stays in the combat or ends lost; after
    /// a win a reward offer comes from the level's pool and a rebuild starts
    /// empty); a reward pick adds the card to
    /// the collection (trimming first when over the cap); an overflow
    /// removal takes out the chosen removable card; an innate choice adds the
    /// deck card's id; a swap puts the new card into the slot; a rebuild
    /// choice places the chosen card in the next slot. Each says which phase
    /// follows, and a combat an action starts is built from the run as it
    /// then stands (`starts_combat`).
    pub open spec fn spec_accepted_outcome(&self, after: GauntletRunner, action: GauntletAction) -> bool {
        &&& !(action is CombatAction) ==> after.fresh_combat_if_combat()
        &&& match action {
            GauntletAction::CombatAction(a) => {
                &&& exists|log: Seq<GameEvent>| #[trigger] self.combat_step_followed(after, a, log)
                &&& after.play_deck == self.play_deck
                &&& (after.fights_won == self.fights_won || after.fights_won == self.fights_won + 1)
                &&& ids_within(self.collection@, after.collection@)
                &&& after.phase matches GauntletPhase::DeckRebuild { partial_deck, .. } ==> partial_deck@.len() == 0
                &&& after.phase is Reward ==> after.offer_from_pool()
                &&& after.fights_won == self.fights_won ==> (after.phase is Combat && after.combat is Some)
                    || (after.phase is GameOver && after.combat is None)
                &&& after.fights_won == self.fights_won + 1 ==> after.fresh_combat_if_combat()
            },
            GauntletAction::PickReward(idx) => {
                &&& after.collection@ == self.collection@.push(
                    CardInstance { def_id: self.reward_options@[idx as int], upgraded: false })
                &&& after.reward_options@.len() == 0
                &&& after.play_deck == self.play_deck
                &&& after.fights_won == self.fights_won
                &&& if after.collection@.len() > MAX_COLLECTION_SIZE {
                    after.phase == (GauntletPhase::CollectionOverflow { next_phase: OverflowNextPhase::NextCombat })
                } else {
                    after.phase is Combat && after.combat is Some
                }
            },
            GauntletAction::SkipReward => {
                &&& after.reward_options@.len() == 0
                &&& after.collection == self.collection
                &&& after.play_deck == self.play_deck
                &&& after.fights_won == self.fights_won
                &&& after.phase is Combat
                &&& after.combat is Some
            },
            GauntletAction::RemoveCollectionCard(choice_idx) => {
                let idx = self.spec_removal_indices()[choice_idx as int];
                &&& after.collection@ == self.collection@.remove(idx as int)
                &&& after.play_deck == self.play_deck
                &&& after.fights_won == self.fights_won
                &&& match self.phase {
                    GauntletPhase::CollectionOverflow { next_phase: OverflowNextPhase::DeckSwap { new_card_id, new_card_index } } =>
                        if idx == new_card_index {
                            after.phase is Combat
                        } else {
                            after.phase == (GauntletPhase::DeckSwap { new_card_id })
                        },
                    _ => after.phase is Combat,
                }
            },
            GauntletAction::ChooseInnate(idx) => {
                &&& forall|y: Seq<char>| card_ids_view(after.innate_overrides@).contains(y) <==> (
                    card_ids_view(self.innate_overrides@).contains(y) || y == self.play_deck@[idx as int].def_id@)
                &&& after.collection == self.collection
                &&& after.play_deck == self.play_deck
                &&& after.fights_won == self.fights_won
                &&& after.phase is Combat
            },
            GauntletAction::SwapIntoDeck(deck_idx) => {
                &&& after.play_deck@ == self.play_deck@.update(deck_idx as int,
                    CardInstance { def_id: self.phase->new_card_id, upgraded: false })
                &&& after.collection == self.collection
                &&& after.fights_won == self.fights_won
                &&& after.phase is Combat
            },
            GauntletAction::SkipSwap => {
                &&& after.collection == self.collection
                &&& after.play_deck == self.play_deck
                &&& after.fights_won == self.fights_won
                &&& after.phase is Combat
            },
            GauntletAction::ChooseDeckSlotCard(choice_idx) => {
                let partial = self.phase->partial_deck@;
                let chosen = self.spec_rebuild_choices(partial)[choice_idx as int];
                &&& after.collection == self.collection
                &&& after.fights_won == self.fights_won
                &&& if partial.len() + 1 >= PLAY_DECK_SIZE {
                    &&& after.play_deck@.len() == partial.len() + 1
                    &&& after.play_deck@.drop_last() == partial
                    &&& after.play_deck@.last().def_id@ == chosen
                    &&& !after.play_deck@.last().upgraded
                    &&& after.phase is Combat
                } else {
                    &&& after.play_deck == self.play_deck
                    &&& after.phase matches GauntletPhase::DeckRebuild { slot_idx, partial_deck }
                    &&& after.phase->slot_idx == self.phase->slot_idx + 1
                    &&& after.phase->partial_deck@.len() == partial.len() + 1
                    &&& after.phase->partial_deck@.drop_last() == partial
                    &&& after.phase->partial_deck@.last().def_id@ == chosen
                    &&& !after.phase->partial_deck@.last().upgraded
                }
            },
        }
    }

    /// What `apply` requires of an action: a card played in combat has a
    /// definition in the content.
    pub open spec fn spec_action_defined(&self, action: GauntletAction) -> bool {
        match action {
            GauntletAction::CombatAction(a) => match self.combat {
                Some(c) => c.action_defined(a, &self.content),
                None => true,
            },
            _ => true,
        }
    }

    fn apply_combat_action(&mut self, action: Action) -> (r: Result<Vec<GauntletEvent>, GauntletError>)
        requires
            old(self).wf(),
            old(self).phase is Combat,
            old(self).spec_action_defined(GauntletAction::CombatAction(action)),
        ensures
            match r {
                Err(e) => old(self).spec_apply_error(GauntletAction::CombatAction(action)) == Some(e) && *final(self) == *old(self),
                Ok(_) => {
                    &&& old(self).spec_apply_error(GauntletAction::CombatAction(action)) is None
                    &&& r.unwrap()@.len() > 0
                    &&& match r.unwrap()@[0] {
                        GauntletEvent::Combat(inner) => old(self).combat_step_followed(*final(self), action, inner@),
                        _ => false,
                    }
                    &&& final(self).wf()
                    &&& final(self).fights_won == old(self).fights_won || final(self).fights_won == old(self).fights_won + 1
                    &&& final(self).play_deck == old(self).play_deck
                    &&& ids_within(old(self).collection@, final(self).collection@)
                    &&& final(self).phase matches GauntletPhase::DeckRebuild { partial_deck, .. } ==> partial_deck@.len() == 0
                    &&& final(self).phase is Reward ==> final(self).offer_from_pool()
                    &&& final(self).fights_won == old(self).fights_won ==> (final(self).phase is Combat && final(self).combat is Some)
                        || (final(self).phase is GameOver && final(self).combat is None)
                    &&& final(self).fights_won == old(self).fights_won + 1 ==> final(self).fresh_combat_if_combat()
                },
            },
            r is Ok ==> old(self).run_outcome_logged(*final(self), GauntletAction::CombatAction(action), r.unwrap()@),
    {
        let combat_phase;
        let player_hp;
        let player_max_hp;
        match &mut self.combat {
            None => {
                return Err(GauntletError::WrongPhase);
            },
            Some(combat) => {
                let events = match combat.apply(action, &self.content) {
                    Ok(events) => events,
                    Err(e) => {
                        return Err(GauntletError::CombatError(e));
                    },
                };
                combat_phase = combat.phase;
                player_hp = combat.player.hp;
                player_max_hp = combat.player.max_hp;
                let mut gauntlet_events: Vec<GauntletEvent> = Vec::new();
                gauntlet_events.push(GauntletEvent::Combat(events));
                let ghost first = gauntlet_events@[0];
                if combat_phase == CombatPhase::Victory {
                    self.finish_combat_victory(&mut gauntlet_events);
                    proof {
                        assert(gauntlet_events@[0] == first);
                    }
                } else if combat_phase == CombatPhase::Defeat {
                    self.phase = GauntletPhase::GameOver;
                    self.combat = None;
                    gauntlet_events.push(GauntletEvent::FightLost { fights_won: self.fights_won, player_hp, player_max_hp });
                    proof {
                        assert(gauntlet_events@[0] == first);
                        assert(gauntlet_events@[1] is FightLost);
                    }
                }
                return Ok(gauntlet_events);
            },
        }
    }
}


impl GauntletRunner {
    fn apply_pick_reward(&mut self, idx: usize) -> (r: Result<Vec<GauntletEvent>, GauntletError>)
        requires
            old(self).wf(),
            old(self).phase is Reward,
        ensures
            match r {
                Err(e) => old(self).spec_apply_error(GauntletAction::PickReward(idx)) == Some(e) && *final(self) == *old(self),
                Ok(_) => {
                    &&& old(self).spec_apply_error(GauntletAction::PickReward(idx)) is None
                    &&& final(self).wf()
                    &&& final(self).fresh_combat_if_combat()
                    &&& final(self).collection@ == old(self).collection@.push(
                        CardInstance { def_id: old(self).reward_options@[idx as int], upgraded: false })
                    &&& final(self).reward_options@.len() == 0
                    &&& final(self).play_deck == old(self).play_deck
                    &&& final(self).fights_won == old(self).fights_won
                    &&& if final(self).collection@.len() > MAX_COLLECTION_SIZE {
                        final(self).phase == (GauntletPhase::CollectionOverflow { next_phase: OverflowNextPhase::NextCombat })
                    } else {
                        final(self).phase is Combat && final(self).combat is Some
                    }
                },
            },
            r is Ok ==> old(self).run_outcome_logged(*final(self), GauntletAction::PickReward(idx), r.unwrap()@),
    {
        if idx >= self.reward_options.len() {
            return Err(GauntletError::InvalidRewardIndex);
        }
        let card_id = self.reward_options[idx].clone();
        self.collection.push(CardInstance { def_id: card_id.clone(), upgraded: false });
        self.reward_options.clear();
        let mut events: Vec<GauntletEvent> = Vec::new();
        events.push(GauntletEvent::RewardPicked { card_id });
        if self.collection.len() > MAX_COLLECTION_SIZE {
            self.phase = GauntletPhase::CollectionOverflow { next_phase: OverflowNextPhase::NextCombat };
        } else {
            self.transition_to_next_combat(&mut events);
        }
        Ok(events)
    }

    fn apply_skip_reward(&mut self) -> (r: Result<Vec<GauntletEvent>, GauntletError>)
        requires
            old(self).wf(),
            old(self).phase is Reward,
        ensures
            r is Ok,
            final(self).wf(),
            final(self).fresh_combat_if_combat(),
            final(self).reward_options@.len() == 0,
            final(self).collection == old(self).collection,
            final(self).play_deck == old(self).play_deck,
            final(self).fights_won == old(self).fights_won,
            final(self).phase is Combat,
            final(self).combat is Some,
            r is Ok ==> old(self).run_outcome_logged(*final(self), GauntletAction::SkipReward, r.unwrap()@),
    {
        self.reward_options.clear();
        let mut events: Vec<GauntletEvent> = Vec::new();
        events.push(GauntletEvent::RewardSkipped);
        self.transition_to_next_combat(&mut events);
        Ok(events)
    }

    fn apply_remove_collection_card(&mut self, choice_idx: usize) -> (r: Result<Vec<GauntletEvent>, GauntletError>)
        requires
            old(self).wf(),
            old(self).phase is CollectionOverflow,
        ensures
            match r {
                Err(e) => old(self).spec_apply_error(GauntletAction::RemoveCollectionCard(choice_idx)) == Some(e) && *final(self) == *old(self),
                Ok(_) => {
                    let idx = old(self).spec_removal_indices()[choice_idx as int];
                    &&& old(self).spec_apply_error(GauntletAction::RemoveCollectionCard(choice_idx)) is None
                    &&& final(self).wf()
                    &&& final(self).fresh_combat_if_combat()
                    &&& final(self).collection@ == old(self).collection@.remove(idx as int)
                    &&& final(self).play_deck == old(self).play_deck
                    &&& final(self).fights_won == old(self).fights_won
                    &&& match old(self).phase {
                        GauntletPhase::CollectionOverflow { next_phase: OverflowNextPhase::DeckSwap { new_card_id, new_card_index } } =>
                            if idx == new_card_index {
                                final(self).phase is Combat
                            } else {
                                final(self).phase == (GauntletPhase::DeckSwap { new_card_id })
                            },
                        _ => final(self).phase is Combat,
                    }
                },
            },
            r is Ok ==> old(self).run_outcome_logged(*final(self), GauntletAction::RemoveCollectionCard(choice_idx), r.unwrap()@),
    {
        let removable = self.overflow_removal_indices();
        if choice_idx >= removable.len() {
            return Err(GauntletError::InvalidCollectionIndex);
        }
        let idx = removable[choice_idx];
        proof {
            lemma_collect_indices_below(self.collection@.len() as int, |i: int| self.spec_removable(i), choice_idx as int);
        }
        let removed = self.collection.remove(idx);
        let mut events: Vec<GauntletEvent> = Vec::new();
        events.push(GauntletEvent::CollectionCardRemoved { card_id: removed.def_id });
        let mut swap_id: Option<CardId> = None;
        match &self.phase {
            GauntletPhase::CollectionOverflow { next_phase: OverflowNextPhase::DeckSwap { new_card_id, new_card_index } } => {
                if idx != *new_card_index {
                    swap_id = Some(new_card_id.clone());
                }
            },
            _ => {},
        }
        match swap_id {
            Some(new_card_id) => {
                self.phase = GauntletPhase::DeckSwap { new_card_id };
            },
            None => {
                self.transition_to_next_combat(&mut events);
            },
        }
        Ok(events)
    }

    #[verifier::rlimit(40)]
    fn apply_choose_innate(&mut self, idx: usize) -> (r: Result<Vec<GauntletEvent>, GauntletError>)
        requires
            old(self).wf(),
            old(self).phase is InnateChoice,
        ensures
            match r {
                Err(e) => old(self).spec_apply_error(GauntletAction::ChooseInnate(idx)) == Some(e) && *final(self) == *old(self),
                Ok(_) => {
                    &&& old(self).spec_apply_error(GauntletAction::ChooseInnate(idx)) is None
                    &&& final(self).wf()
                    &&& final(self).fresh_combat_if_combat()
                    &&& forall|y: Seq<char>| card_ids_view(final(self).innate_overrides@).contains(y) <==> (
                        card_ids_view(old(self).innate_overrides@).contains(y) || y == old(self).play_deck@[idx as int].def_id@)
                    &&& final(self).collection == old(self).collection
                    &&& final(self).play_deck == old(self).play_deck
                    &&& final(self).fights_won == old(self).fights_won
                    &&& final(self).phase is Combat
                },
            },
            r is Ok ==> old(self).run_outcome_logged(*final(self), GauntletAction::ChooseInnate(idx), r.unwrap()@),
    {
        if idx >= self.play_deck.len() {
            return Err(GauntletError::InvalidDeckIndex);
        }
        let card_id = self.play_deck[idx].def_id.clone();
        let mut present = false;
        let mut k: usize = 0;
        while k < self.innate_overrides.len()
            invariant
                k <= self.innate_overrides@.len(),
                present ==> card_ids_view(self.innate_overrides@).contains(card_id@),
            decreases self.innate_overrides@.len() - k,
        {
            if self.innate_overrides[k] == card_id {
                proof {
                    assert(card_ids_view(self.innate_overrides@)[k as int] == card_id@);
                }
                present = true;
            }
            k = k + 1;
        }
        let ghost before = card_ids_view(self.innate_overrides@);
        if !present {
            self.innate_overrides.push(card_id.clone());
            proof {
                assert(card_ids_view(self.innate_overrides@) =~= before.push(card_id@));
            }
        }
        proof {
            assert forall|y: Seq<char>| card_ids_view(self.innate_overrides@).contains(y) <==> (before.contains(y) || y == card_id@) by {
                if !present {
                    if before.contains(y) {
                        let j = choose|j: int| 0 <= j < before.len() && before[j] == y;
                        assert(card_ids_view(self.innate_overrides@)[j] == y);
                    }
                    if y == card_id@ {
                        assert(card_ids_view(self.innate_overrides@)[before.len() as int] == y);
                    }
                    if card_ids_view(self.innate_overrides@).contains(y) {
                        let j = choose|j: int| 0 <= j < card_ids_view(self.innate_overrides@).len() && card_ids_view(self.innate_overrides@)[j] == y;
                        if j < before.len() {
                            assert(before[j] == y);
                        }
                    }
                }
            }
        }
        let mut events: Vec<GauntletEvent> = Vec::new();
        events.push(GauntletEvent::CardMadeInnate { card_id });
        self.transition_to_next_combat(&mut events);
        Ok(events)
    }

    fn apply_swap_into_deck(&mut self, deck_idx: usize) -> (r: Result<Vec<GauntletEvent>, GauntletError>)
        requires
            old(self).wf(),
            old(self).phase is DeckSwap,
        ensures
            match r {
                Err(e) => old(self).spec_apply_error(GauntletAction::SwapIntoDeck(deck_idx)) == Some(e) && *final(self) == *old(self),
                Ok(_) => {
                    &&& old(self).spec_apply_error(GauntletAction::SwapIntoDeck(deck_idx)) is None
                    &&& final(self).wf()
                    &&& final(self).fresh_combat_if_combat()
                    &&& final(self).play_deck@ == old(self).play_deck@.update(deck_idx as int,
                        CardInstance { def_id: old(self).phase->new_card_id, upgraded: false })
                    &&& final(self).collection == old(self).collection
                    &&& final(self).fights_won == old(self).fights_won
                    &&& final(self).phase is Combat
                },
            },
            r is Ok ==> old(self).run_outcome_logged(*final(self), GauntletAction::SwapIntoDeck(deck_idx), r.unwrap()@),
    {
        let new_card_id = match &self.phase {
            GauntletPhase::DeckSwap { new_card_id } => new_card_id.clone(),
            _ => {
                return Err(GauntletError::WrongPhase);
            },
        };
        if !self.can_swap_new_card_into_slot(&new_card_id, deck_idx) {
            return Err(GauntletError::InvalidDeckIndex);
        }
        let removed = self.play_deck[deck_idx].def_id.clone();
        self.play_deck.set(deck_idx, CardInstance { def_id: new_card_id.clone(), upgraded: false });
        let mut events: Vec<GauntletEvent> = Vec::new();
        events.push(GauntletEvent::DeckSwapped { added_to_deck: new_card_id, removed_from_deck: removed });
        self.transition_to_next_combat(&mut events);
        Ok(events)
    }

    fn apply_skip_swap(&mut self) -> (r: Result<Vec<GauntletEvent>, GauntletError>)
        requires
            old(self).wf(),
            old(self).phase is DeckSwap,
        ensures
            r is Ok,
            final(self).wf(),
            final(self).fresh_combat_if_combat(),
            final(self).collection == old(self).collection,
            final(self).play_deck == old(self).play_deck,
            final(self).fights_won == old(self).fights_won,
            final(self).phase is Combat,
            r is Ok ==> old(self).run_outcome_logged(*final(self), GauntletAction::SkipSwap, r.unwrap()@),
    {
        let mut events: Vec<GauntletEvent> = Vec::new();
        events.push(GauntletEvent::SwapSkipped);
        self.transition_to_next_combat(&mut events);
        Ok(events)
    }

    fn apply_choose_deck_slot_card(&mut self, choice_idx: usize) -> (r: Result<Vec<GauntletEvent>, GauntletError>)
        requires
            old(self).wf(),
            old(self).phase is DeckRebuild,
        ensures
            match r {
                Err(e) => old(self).spec_apply_error(GauntletAction::ChooseDeckSlotCard(choice_idx)) == Some(e) && *final(self) == *old(self),
                Ok(_) => {
                    let partial = old(self).phase->partial_deck@;
                    let chosen = old(self).spec_rebuild_choices(partial)[choice_idx as int];
                    &&& old(self).spec_apply_error(GauntletAction::ChooseDeckSlotCard(choice_idx)) is None
                    &&& final(self).wf()
                    &&& final(self).fresh_combat_if_combat()
                    &&& final(self).collection == old(self).collection
                    &&& final(self).fights_won == old(self).fights_won
                    &&& if partial.len() + 1 >= PLAY_DECK_SIZE {
                        &&& final(self).play_deck@.len() == partial.len() + 1
                        &&& final(self).play_deck@.drop_last() == partial
                        &&& final(self).play_deck@.last().def_id@ == chosen
                        &&& !final(self).play_deck@.last().upgraded
                        &&& final(self).phase is Combat
                    } else {
                        &&& final(self).play_deck == old(self).play_deck
                        &&& final(self).phase matches GauntletPhase::DeckRebuild { slot_idx, partial_deck }
                        &&& final(self).phase->slot_idx == old(self).phase->slot_idx + 1
                        &&& final(self).phase->partial_deck@.len() == partial.len() + 1
                        &&& final(self).phase->partial_deck@.drop_last() == partial
                        &&& final(self).phase->partial_deck@.last().def_id@ == chosen
                        &&& !final(self).phase->partial_deck@.last().upgraded
                    }
                },
            },
            r is Ok ==> old(self).run_outcome_logged(*final(self), GauntletAction::ChooseDeckSlotCard(choice_idx), r.unwrap()@),
    {
        let (slot_idx, mut partial_deck) = match &self.phase {
            GauntletPhase::DeckRebuild { slot_idx, partial_deck } => (*slot_idx, copy_cards(partial_deck)),
            _ => {
                return Err(GauntletError::WrongPhase);
            },
        };
        let choices = self.rebuild_card_choices(&partial_deck);
        if choice_idx >= choices.len() {
            return Err(GauntletError::InvalidCollectionIndex);
        }
        let card_id = choices[choice_idx].clone();
        proof {
            assert(card_ids_view(choices@)[choice_idx as int] == card_id@);
        }
        let ghost partial0 = partial_deck@;
        partial_deck.push(CardInstance { def_id: card_id.clone(), upgraded: false });
        proof {
            assert(partial_deck@.drop_last() =~= partial0);
        }
        let mut events: Vec<GauntletEvent> = Vec::new();
        events.push(GauntletEvent::DeckRewriteSlotChosen { slot_idx, card_id });
        if partial_deck.len() >= PLAY_DECK_SIZE {
            self.play_deck = partial_deck;
            events.push(GauntletEvent::RebuildFinished);
            self.transition_to_next_combat(&mut events);
        } else {
            self.phase = GauntletPhase::DeckRebuild { slot_idx: slot_idx + 1, partial_deck };
        }
        Ok(events)
    }
}

pub(crate) proof fn lemma_collect_indices_below(n: int, pred: spec_fn(int) -> bool, k: int)
    requires
        0 <= k < collect_indices(n, pred).len(),
    ensures
        0 <= collect_indices(n, pred)[k] < n,
    decreases n,
{
    if n > 0 {
        let prev = collect_indices(n - 1, pred);
        if k < prev.len() {
            lemma_collect_indices_below(n - 1, pred, k);
        }
    }
}


/// The deck-swap actions for the slots below `n` that take the new card, in
/// order.
pub open spec fn swap_actions(runner: GauntletRunner, new_card_id: Seq<char>, n: int) -> Seq<GauntletAction>
    decreases n,
{
    if n <= 0 {
        Seq::empty()
    } else {
        swap_actions(runner, new_card_id, n - 1) + if runner.spec_can_swap(new_card_id, n - 1) {
            seq![GauntletAction::SwapIntoDeck((n - 1) as usize)]
        } else {
            Seq::empty()
        }
    }
}

proof fn lemma_swap_actions_sound(runner: GauntletRunner, new_card_id: Seq<char>, n: int, k: int)
    requires
        0 <= k < swap_actions(runner, new_card_id, n).len(),
        n <= usize::MAX,
    ensures
        swap_actions(runner, new_card_id, n)[k] matches GauntletAction::SwapIntoDeck(i) && runner.spec_can_swap(new_card_id, i as int),
    decreases n,
{
    if n > 0 {
        let prev = swap_actions(runner, new_card_id, n - 1);
        if k < prev.len() {
            lemma_swap_actions_sound(runner, new_card_id, n - 1, k);
            assert(swap_actions(runner, new_card_id, n)[k] == prev[k]);
        } else {
            assert(runner.spec_can_swap(new_card_id, n - 1));
            assert(swap_actions(runner, new_card_id, n)[k] == GauntletAction::SwapIntoDeck((n - 1) as usize));
        }
    }
}

impl GauntletRunner {
    /// The actions `legal_actions` offers in a phase other than combat.
    pub open spec fn spec_phase_actions(&self) -> Seq<GauntletAction> {
        match self.phase {
            GauntletPhase::Reward => Seq::new(self.reward_options@.len(), |i: int| GauntletAction::PickReward(i as usize)).push(
                GauntletAction::SkipReward,
            ),
            GauntletPhase::CollectionOverflow { .. } => Seq::new(
                self.spec_removal_indices().len(),
                |i: int| GauntletAction::RemoveCollectionCard(i as usize),
            ),
            GauntletPhase::InnateChoice => Seq::new(self.play_deck@.len(), |i: int| GauntletAction::ChooseInnate(i as usize)),
            GauntletPhase::DeckSwap { new_card_id } => swap_actions(*self, new_card_id@, self.play_deck@.len() as int).push(
                GauntletAction::SkipSwap,
            ),
            GauntletPhase::DeckRebuild { partial_deck, .. } => Seq::new(
                self.spec_rebuild_choices(partial_deck@).len(),
                |i: int| GauntletAction::ChooseDeckSlotCard(i as usize),
            ),
            _ => Seq::empty(),
        }
    }

    /// All legal actions for the current phase: the combat's legal actions
    /// in combat, every reward pick then the skip, every removable card of
    /// an overflow, every deck card for an innate choice, the deck slots
    /// that take a new card then the skip, every rebuild choice; none once
    /// the run is over. `apply` accepts each of them.
    pub fn legal_actions(&self) -> (r: Vec<GauntletAction>)
        requires
            self.wf(),
        ensures
            forall|k: int| 0 <= k < r@.len() ==> self.spec_apply_error(#[trigger] r@[k]) is None && self.spec_action_defined(r@[k]),
            !(self.phase is Combat) ==> r@ == self.spec_phase_actions(),
            self.phase is Combat ==> match self.combat {
                Some(c) => {
                    &&& forall|k: int| 0 <= k < r@.len() ==> (#[trigger] r@[k] matches GauntletAction::CombatAction(a) && c.spec_legal(a, &self.content))
                    &&& forall|a: Action| #[trigger] c.spec_legal(a, &self.content) ==> r@.contains(GauntletAction::CombatAction(a))
                },
                None => r@.len() == 0,
            },
    {
        let mut actions: Vec<GauntletAction> = Vec::new();
        match &self.phase {
            GauntletPhase::Combat => {
                match &self.combat {
                    Some(combat) => {
                        let combat_actions = combat.legal_actions(&self.content);
                        let mut k: usize = 0;
                        while k < combat_actions.len()
                            invariant
                                k <= combat_actions@.len(),
                                self.combat == Some(*combat),
                                self.phase is Combat,
                                actions@.len() == k,
                                forall|j: int| 0 <= j < combat_actions@.len() ==> combat.spec_legal(#[trigger] combat_actions@[j], &self.content),
                                forall|j: int| 0 <= j < k ==> #[trigger] actions@[j] == GauntletAction::CombatAction(combat_actions@[j]),
                            decreases combat_actions@.len() - k,
                        {
                            actions.push(GauntletAction::CombatAction(combat_actions[k]));
                            k = k + 1;
                        }
                        proof {
                            assert forall|j: int| 0 <= j < actions@.len() implies self.spec_apply_error(#[trigger] actions@[j]) is None
                                && self.spec_action_defined(actions@[j]) by {
                                crate::combat::law_legal_actions_are_accepted(*combat, combat_actions@[j], self.content);
                            }
                            assert forall|a: Action| #[trigger] combat.spec_legal(a, &self.content) implies actions@.contains(GauntletAction::CombatAction(a)) by {
                                let j = choose|j: int| 0 <= j < combat_actions@.len() && combat_actions@[j] == a;
                                assert(actions@[j] == GauntletAction::CombatAction(a));
                            }
                        }
                    },
                    None => {},
                }
            },
            GauntletPhase::Reward => {
                let mut i: usize = 0;
                while i < self.reward_options.len()
                    invariant
                        i <= self.reward_options@.len(),
                        actions@ == Seq::new(i as nat, |j: int| GauntletAction::PickReward(j as usize)),
                    decreases self.reward_options@.len() - i,
                {
                    actions.push(GauntletAction::PickReward(i));
                    i = i + 1;
                    proof {
                        assert(actions@ =~= Seq::new(i as nat, |j: int| GauntletAction::PickReward(j as usize)));
                    }
                }
                actions.push(GauntletAction::SkipReward);
            },
            GauntletPhase::CollectionOverflow { .. } => {
                let removable = self.overflow_removal_indices();
                let mut i: usize = 0;
                while i < removable.len()
                    invariant
                        i <= removable@.len(),
                        actions@ == Seq::new(i as nat, |j: int| GauntletAction::RemoveCollectionCard(j as usize)),
                    decreases removable@.len() - i,
                {
                    actions.push(GauntletAction::RemoveCollectionCard(i));
                    i = i + 1;
                    proof {
                        assert(actions@ =~= Seq::new(i as nat, |j: int| GauntletAction::RemoveCollectionCard(j as usize)));
                    }
                }
            },
            GauntletPhase::InnateChoice => {
                let mut i: usize = 0;
                while i < self.play_deck.len()
                    invariant
                        i <= self.play_deck@.len(),
                        actions@ == Seq::new(i as nat, |j: int| GauntletAction::ChooseInnate(j as usize)),
                    decreases self.play_deck@.len() - i,
                {
                    actions.push(GauntletAction::ChooseInnate(i));
                    i = i + 1;
                    proof {
                        assert(actions@ =~= Seq::new(i as nat, |j: int| GauntletAction::ChooseInnate(j as usize)));
                    }
                }
            },
            GauntletPhase::DeckSwap { new_card_id } => {
                let mut i: usize = 0;
                while i < self.play_deck.len()
                    invariant
                        i <= self.play_deck@.len(),
                        actions@ == swap_actions(*self, new_card_id@, i as int),
                    decreases self.play_deck@.len() - i,
                {
                    if self.can_swap_new_card_into_slot(new_card_id, i) {
                        actions.push(GauntletAction::SwapIntoDeck(i));
                    }
                    i = i + 1;
                    proof {
                        assert(actions@ =~= swap_actions(*self, new_card_id@, i as int));
                    }
                }
                proof {
                    assert forall|k: int| 0 <= k < actions@.len() implies self.spec_apply_error(#[trigger] actions@[k]) is None by {
                        lemma_swap_actions_sound(*self, new_card_id@, self.play_deck@.len() as int, k);
                    }
                }
                actions.push(GauntletAction::SkipSwap);
            },
            GauntletPhase::DeckRebuild { partial_deck, .. } => {
                let choices = self.rebuild_card_choices(partial_deck);
                let mut i: usize = 0;
                while i < choices.len()
                    invariant
                        i <= choices@.len(),
                        actions@ == Seq::new(i as nat, |j: int| GauntletAction::ChooseDeckSlotCard(j as usize)),
                    decreases choices@.len() - i,
                {
                    actions.push(GauntletAction::ChooseDeckSlotCard(i));
                    i = i + 1;
                    proof {
                        assert(actions@ =~= Seq::new(i as nat, |j: int| GauntletAction::ChooseDeckSlotCard(j as usize)));
                    }
                }
            },
            GauntletPhase::GameOver => {},
        }
        actions
    }

    /// Apply a gauntlet action and return the resulting events. A refused
    /// action changes nothing; an accepted one keeps the runner well formed
    /// (so the play deck keeps its 16 cards) and has the outcome
    /// `spec_accepted_outcome` describes.
    pub fn apply(&mut self, action: GauntletAction) -> (r: Result<Vec<GauntletEvent>, GauntletError>)
        requires
            old(self).wf(),
            old(self).spec_action_defined(action),
        ensures
            match r {
                Err(e) => old(self).spec_apply_error(action) == Some(e) && *final(self) == *old(self),
                Ok(_) => {
                    &&& old(self).spec_apply_error(action) is None
                    &&& final(self).wf()
                    &&& old(self).spec_accepted_outcome(*final(self), action)
                    &&& final(self).play_deck@.len() == PLAY_DECK_SIZE
                },
            },
            r is Ok ==> old(self).run_outcome_logged(*final(self), action, r.unwrap()@),
    {
        match (&self.phase, action) {
            (GauntletPhase::Combat, GauntletAction::CombatAction(combat_action)) => self.apply_combat_action(combat_action),
            (GauntletPhase::Reward, GauntletAction::PickReward(idx)) => self.apply_pick_reward(idx),
            (GauntletPhase::Reward, GauntletAction::SkipReward) => self.apply_skip_reward(),
            (GauntletPhase::CollectionOverflow { .. }, GauntletAction::RemoveCollectionCard(idx)) => self.apply_remove_collection_card(idx),
            (GauntletPhase::InnateChoice, GauntletAction::ChooseInnate(idx)) => self.apply_choose_innate(idx),
            (GauntletPhase::DeckSwap { .. }, GauntletAction::SwapIntoDeck(idx)) => self.apply_swap_into_deck(idx),
            (GauntletPhase::DeckSwap { .. }, GauntletAction::SkipSwap) => self.apply_skip_swap(),
            (GauntletPhase::DeckRebuild { .. }, GauntletAction::ChooseDeckSlotCard(idx)) => self.apply_choose_deck_slot_card(idx),
            _ => Err(GauntletError::WrongPhase),
        }
    }

    /// Returns true if the run is over.
    pub fn is_game_over(&self) -> (r: bool)
        ensures
            r == (self.phase is GameOver),
    {
        match self.phase {
            GauntletPhase::GameOver => true,
            _ => false,
        }
    }
}


impl GauntletRunner {
    /// A new run for a Fighter sub-class and seed, as a human soldier.
    pub fn new(subclass_id: &str, seed: u64) -> (r: GauntletRunner)
        requires
            is_fighter_subclass(subclass_id@),
        ensures
            r.wf(),
            r.phase is Combat,
            r.combat is Some,
            r.fights_won == 0,
            r.level == 1,
            r.play_deck@.len() == PLAY_DECK_SIZE,
            r.collection@ == r.play_deck@,
            r.subclass_id@ == subclass_id@,
            r.synergy_filter is None,
    {
        proof {
            reveal_strlit("human");
            reveal_strlit("soldier");
        }
        Self::new_full(subclass_id, seed, None, "human", "soldier")
    }

    /// A new run with a synergy filter, as a human soldier.
    pub fn new_filtered(subclass_id: &str, seed: u64, synergy_filter: Option<&str>) -> (r: GauntletRunner)
        requires
            is_fighter_subclass(subclass_id@),
        ensures
            r.wf(),
            r.phase is Combat,
            r.combat is Some,
            r.fights_won == 0,
            r.level == 1,
            r.play_deck@.len() == PLAY_DECK_SIZE,
            r.collection@ == r.play_deck@,
            r.subclass_id@ == subclass_id@,
            opt_string_view(r.synergy_filter) == opt_strs_view(synergy_filter),
    {
        proof {
            reveal_strlit("human");
            reveal_strlit("soldier");
        }
        Self::new_full(subclass_id, seed, synergy_filter, "human", "soldier")
    }

    /// A new run with all options: the content set, a Fighter at full base
    /// HP with 3 energy, the starter deck as both collection and play deck,
    /// level 1, no fights won, and the first combat started.
    pub fn new_full(subclass_id: &str, seed: u64, synergy_filter: Option<&str>, race: &str, background: &str) -> (r: GauntletRunner)
        requires
            is_fighter_subclass(subclass_id@),
            is_known_race(race@),
            is_known_background(background@),
        ensures
            r.wf(),
            r.phase is Combat,
            r.combat is Some,
            r.fights_won == 0,
            r.level == 1,
            r.class == Class::Fighter,
            r.player.max_hp == 50,
            r.player.hp == 50,
            r.player.max_energy == 3,
            r.play_deck@.len() == PLAY_DECK_SIZE,
            r.collection@ == r.play_deck@,
            r.reward_options@.len() == 0,
            r.innate_overrides@.len() == 0,
            r.subclass_id@ == subclass_id@,
            r.race@ == race@,
            r.background@ == background@,
            opt_string_view(r.synergy_filter) == opt_strs_view(synergy_filter),
            crate::starter_decks::deck_ids_view(r.play_deck@) == crate::starter_decks::spec_starter_ids(race@, background@),
            r.rng.spec_seed() == seed,
    {
        let content = load_content();
        let rng = GameRng::new(seed);
        let subclasses = fighter_subclasses();
        let mut class = Class::Fighter;
        let mut k: usize = 0;
        while k < subclasses.len()
            invariant
                k <= subclasses@.len(),
                subclasses@.len() == 3,
                forall|j: int| 0 <= j < 3 ==> (#[trigger] subclasses@[j]).class == Class::Fighter,
                class == Class::Fighter,
            decreases subclasses@.len() - k,
        {
            if str_eq(subclasses[k].id.as_str(), subclass_id) {
                class = subclasses[k].class;
            }
            k = k + 1;
        }
        let player = PlayerState::new(class.base_hp(), 3);
        let starter = fighter_starter_deck(subclass_id, race, background);
        let collection = copy_cards(&starter);
        let synergy: Option<String> = match synergy_filter {
            Some(f) => Some(f.to_string()),
            None => None,
        };
        proof {
            assert(starter@.len() == crate::starter_decks::deck_ids_view(starter@).len());
        }
        let mut runner = GauntletRunner {
            player,
            collection,
            play_deck: starter,
            fights_won: 0,
            phase: GauntletPhase::Combat,
            rng,
            subclass_id: subclass_id.to_string(),
            content,
            combat: None,
            reward_options: Vec::new(),
            level: 1,
            bonus_draw: 0,
            bonus_energy: 0,
            innate_overrides: Vec::new(),
            synergy_filter: synergy,
            race: race.to_string(),
            background: background.to_string(),
            class,
        };
        runner.start_combat();
        runner
    }
}



/// Every action that a run offers is one that `apply` accepts: outside
/// combat each offered action has no error, and in combat each legal combat
/// action, forwarded, has none and is defined.
pub proof fn law_gauntlet_legal_actions_are_accepted(runner: GauntletRunner, k: int, a: Action)
    requires
        runner.wf(),
    ensures
        !(runner.phase is Combat) && 0 <= k < runner.spec_phase_actions().len() ==> runner.spec_apply_error(
            runner.spec_phase_actions()[k],
        ) is None,
        runner.phase is Combat && (runner.combat matches Some(c) && c.spec_legal(a, &runner.content)) ==> runner.spec_apply_error(
            GauntletAction::CombatAction(a),
        ) is None && runner.spec_action_defined(GauntletAction::CombatAction(a)),
{
    if !(runner.phase is Combat) && 0 <= k < runner.spec_phase_actions().len() {
        match runner.phase {
            GauntletPhase::DeckSwap { new_card_id } => {
                let n = runner.play_deck@.len() as int;
                assert(runner.play_deck.len() == n);
                if k < swap_actions(runner, new_card_id@, n).len() {
                    lemma_swap_actions_sound(runner, new_card_id@, n, k);
                }
            },
            _ => {},
        }
    }
    if runner.phase is Combat {
        match runner.combat {
            Some(c) => {
                if c.spec_legal(a, &runner.content) {
                    crate::combat::law_legal_actions_are_accepted(c, a, runner.content);
                }
            },
            None => {},
        }
    }
}


impl GauntletRunner {
    /// Whether the run is well formed: its numbers within the limit, the
    /// fight count in range (and at the cap only once the run is over), a
    /// rebuild's slot matching its partial deck, its combat well formed.
    pub fn is_well_formed(&self) -> (r: bool)
        ensures
            r == self.wf(),
    {
        if !crate::combat::player_is_bounded(&self.player) || self.player.max_hp < 0 {
            return false;
        }
        if self.bonus_draw < 0 || self.bonus_draw > LIMIT - 5 || self.fights_won > MAX_FIGHTS {
            return false;
        }
        if self.fights_won == MAX_FIGHTS && !self.is_game_over() {
            return false;
        }
        if self.play_deck.len() != PLAY_DECK_SIZE {
            return false;
        }
        let steps: u32 = if self.fights_won / 4 < 11 { self.fights_won / 4 } else { 11 };
        if self.level != 1 + steps {
            return false;
        }
        match &self.phase {
            GauntletPhase::DeckRebuild { slot_idx, partial_deck } => {
                if *slot_idx != partial_deck.len() || partial_deck.len() >= PLAY_DECK_SIZE {
                    return false;
                }
            },
            _ => {},
        }
        match &self.combat {
            Some(c) => {
                if !c.is_well_formed() {
                    return false;
                }
            },
            None => {},
        }
        let mut k: usize = 0;
        while k < self.content.enemy_defs.len()
            invariant
                k <= self.content.enemy_defs@.len(),
                forall|j: int| 0 <= j < k ==> in_limit((#[trigger] self.content.enemy_defs@[j]).max_hp as int),
            decreases self.content.enemy_defs@.len() - k,
        {
            let m = self.content.enemy_defs[k].max_hp;
            if m < -LIMIT || m > LIMIT {
                return false;
            }
            k = k + 1;
        }
        true
    }
}


/// A run counts its fights: an accepted action wins at most one fight, and
/// only a combat action can win one.
pub proof fn law_fights_won_advance_by_combat(before: GauntletRunner, after: GauntletRunner, action: GauntletAction)
    requires
        before.spec_accepted_outcome(after, action),
    ensures
        after.fights_won == before.fights_won || (action is CombatAction && after.fights_won == before.fights_won + 1),
{
}


/// The player's level follows the fight count: it starts at 1, rises by one
/// at each fourth fight won, and stops at 12. Every run that `new` starts
/// and `apply` continues keeps it.
pub proof fn law_level_follows_fights(runner: GauntletRunner)
    requires
        runner.wf(),
    ensures
        runner.level == spec_level_at(runner.fights_won),
        1 <= runner.level <= 12,
{
}


/// The play deck always holds exactly 16 cards: `new` deals 16 and every
/// accepted action keeps 16 (a rebuild replaces the deck only once all 16
/// slots are chosen).
pub proof fn law_play_deck_holds_sixteen(runner: GauntletRunner)
    requires
        runner.wf(),
    ensures
        runner.play_deck@.len() == PLAY_DECK_SIZE,
{
}


/// A fresh enemy built from one of the content's definitions: its id, full
/// HP, no block, no statuses.
pub open spec fn fresh_from_content(e: EnemyState, content: ContentTables) -> bool {
    exists|k: int| 0 <= k < content.enemy_defs@.len() && (#[trigger] content.enemy_defs@[k]).id@ == e.def_id@
        && e.hp == content.enemy_defs@[k].max_hp && e.max_hp == content.enemy_defs@[k].max_hp && e.block == 0
}

impl GauntletRunner {
    /// In combat, the run's combat is one it has just started.
    pub open spec fn fresh_combat_if_combat(&self) -> bool {
        self.phase is Combat ==> (self.combat matches Some(c) && self.starts_combat(c))
    }

    /// `c` is a combat this run starts: at most four fresh enemies from the
    /// content, the play deck as its cards, the player's HP and max HP with no
    /// block and full energy, turn 1 of the player's turn, the draw bonus
    /// applied and the innate choices carried over.
    pub open spec fn starts_combat(&self, c: CombatState) -> bool {
        &&& c.enemies@.len() <= 4
        &&& forall|j: int| 0 <= j < c.enemies@.len() ==> fresh_from_content(#[trigger] c.enemies@[j], self.content)
        &&& c.card_multiset() == self.play_deck@.to_multiset()
        &&& c.player.hp == self.player.hp
        &&& c.player.max_hp == self.player.max_hp
        &&& c.player.block == 0
        &&& c.player.energy == self.player.max_energy
        &&& c.turn == 1
        &&& c.phase == CombatPhase::PlayerTurn
        &&& c.draw_per_turn == 5 + self.bonus_draw
        &&& c.innate_overrides@ == self.innate_overrides@
    }
}

impl GauntletRunner {
    /// The reward offer is drawn from the reward pool of the run's level and
    /// synergy filter: three cards of the pool (repeats allowed), or none
    /// when the pool is empty.
    pub open spec fn offer_from_pool(&self) -> bool {
        let pool = spec_reward_pool(spec_progression_table(), self.subclass_id@, self.level, opt_string_view(self.synergy_filter));
        &&& pool.len() == 0 ==> self.reward_options@.len() == 0
        &&& pool.len() > 0 ==> self.reward_options@.len() == REWARD_CARD_COUNT
        &&& forall|k: int| 0 <= k < self.reward_options@.len() ==> pool.contains(#[trigger] self.reward_options@[k]@)
    }

    /// The play deck, and a rebuild's partial deck, are made of collection
    /// cards: no id occurs in them more often than in the collection.
    pub open spec fn deck_in_collection(&self) -> bool {
        &&& ids_within(self.play_deck@, self.collection@)
        &&& self.phase matches GauntletPhase::DeckRebuild { partial_deck, .. } ==> ids_within(partial_deck@, self.collection@)
    }
}

/// The play deck stays made of collection cards: every accepted action keeps
/// it so, provided a swap has a spare copy of the new card in the
/// collection. (A removal during an overflow may take that spare copy; the
/// swap offered afterwards would then put into the deck more copies than
/// the collection holds.)
pub proof fn law_deck_stays_in_collection(before: GauntletRunner, after: GauntletRunner, action: GauntletAction)
    requires
        before.wf(),
        before.deck_in_collection(),
        before.spec_apply_error(action) is None,
        before.spec_accepted_outcome(after, action),
        (before.phase matches GauntletPhase::DeckSwap { new_card_id } && action is SwapIntoDeck) ==> count_id(
            before.play_deck@,
            before.phase->new_card_id@,
        ) < count_id(before.collection@, before.phase->new_card_id@),
    ensures
        after.deck_in_collection(),
{
    let deck = before.play_deck@;
    let coll = before.collection@;
    match action {
        GauntletAction::CombatAction(_) => {
            assert forall|y: Seq<char>| #[trigger] count_id(after.play_deck@, y) <= count_id(after.collection@, y) by {
                assert(count_id(deck, y) <= count_id(coll, y));
                assert(count_id(coll, y) <= count_id(after.collection@, y));
            }
            if after.phase is DeckRebuild {
                let p = after.phase->partial_deck@;
                assert forall|y: Seq<char>| #[trigger] count_id(p, y) <= count_id(after.collection@, y) by {
                    assert(count_id(p, y) == 0);
                }
            }
        },
        GauntletAction::PickReward(idx) => {
            let c = CardInstance { def_id: before.reward_options@[idx as int], upgraded: false };
            assert forall|y: Seq<char>| #[trigger] count_id(after.play_deck@, y) <= count_id(after.collection@, y) by {
                lemma_count_push(coll, c, y);
                assert(count_id(deck, y) <= count_id(coll, y));
            }
        },
        GauntletAction::RemoveCollectionCard(choice_idx) => {
            let n = coll.len() as int;
            let idx = before.spec_removal_indices()[choice_idx as int] as int;
            assert(before.collection.len() == n);
            lemma_collect_indices_below(n, |i: int| before.spec_removable(i), choice_idx as int);
            lemma_collect_indices_pred(n, |i: int| before.spec_removable(i), choice_idx as int);
            assert(before.spec_removable(idx));
            reveal(GauntletRunner::spec_removable);
            let removed = coll[idx].def_id@;
            assert forall|y: Seq<char>| #[trigger] count_id(after.play_deck@, y) <= count_id(after.collection@, y) by {
                lemma_count_remove(coll, idx, y);
                if y == removed && count_id(deck, y) > 0 {
                    lemma_count_witness(deck, y);
                    let j = choose|j: int| 0 <= j < deck.len() && (#[trigger] deck[j]).def_id@ == y;
                    assert(before.slot_still_held(removed, j));
                } else {
                    assert(count_id(deck, y) <= count_id(coll, y));
                }
            }
        },
        GauntletAction::SwapIntoDeck(i) => {
            let newc = CardInstance { def_id: before.phase->new_card_id, upgraded: false };
            assert(before.spec_can_swap(before.phase->new_card_id@, i as int));
            assert forall|y: Seq<char>| #[trigger] count_id(after.play_deck@, y) <= count_id(after.collection@, y) by {
                lemma_count_update(deck, i as int, newc, y);
                assert(count_id(deck, y) <= count_id(coll, y));
            }
        },
        GauntletAction::ChooseDeckSlotCard(choice_idx) => {
            let partial = before.phase->partial_deck@;
            let chosen = before.spec_rebuild_choices(partial)[choice_idx as int];
            let n = coll.len() as int;
            let inherent_pred = |i: int| before.spec_unplaced(partial, i) && spec_is_inherent(before.content, coll[i].def_id@);
            let inherent = collect_ids(coll, n, inherent_pred);
            assert(exists|i: int| 0 <= i < n && before.spec_unplaced(partial, i) && #[trigger] coll[i].def_id@ == chosen) by {
                if inherent.len() > 0 {
                    lemma_collect_ids_source(coll, n, inherent_pred, choice_idx as int);
                } else {
                    let feasible_pred = |i: int| before.spec_unplaced(partial, i) && before.spec_feasible(
                        partial.push(CardInstance { def_id: coll[i].def_id, upgraded: false }),
                    );
                    lemma_collect_ids_source(coll, n, feasible_pred, choice_idx as int);
                }
            }
            let w = choose|i: int| 0 <= i < n && before.spec_unplaced(partial, i) && #[trigger] coll[i].def_id@ == chosen;
            assert(count_id(partial, chosen) < count_id(coll, chosen));
            let extended = if partial.len() + 1 >= PLAY_DECK_SIZE { after.play_deck@ } else { after.phase->partial_deck@ };
            assert(extended.drop_last() == partial);
            assert(extended =~= partial.push(extended.last()));
            assert forall|y: Seq<char>| #[trigger] count_id(extended, y) <= count_id(after.collection@, y) by {
                lemma_count_push(partial, extended.last(), y);
                assert(count_id(partial, y) <= count_id(coll, y));
            }
            assert forall|y: Seq<char>| #[trigger] count_id(after.play_deck@, y) <= count_id(after.collection@, y) by {
                assert(count_id(deck, y) <= count_id(coll, y));
                assert(count_id(extended, y) <= count_id(coll, y));
            }
        },
        _ => {
            assert forall|y: Seq<char>| #[trigger] count_id(after.play_deck@, y) <= count_id(after.collection@, y) by {
                assert(count_id(deck, y) <= count_id(coll, y));
            }
        },
    }
}

} // verus!
