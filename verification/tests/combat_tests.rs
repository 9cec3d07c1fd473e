use decker::card::{CardDef, CardInstance, CardType, Effect, Rarity, Target};
use decker::class::{CardTag, Class};
use decker::combat::{Action, ActionError, CombatPhase, CombatState, EventTarget, GameEvent, MAX_TURNS};
use decker::content_tables::ContentTables;
use decker::enemy::{EnemyDef, EnemyState, IntentType};
use decker::player::PlayerState;
use decker::status::{StatusMap, StatusType};

// ── Test helpers ────────────────────────────────────────────────────

fn strike_def() -> CardDef {
    CardDef {
        id: "strike".into(),
        name: "Strike".to_string(),
        rarity: Rarity::Common,
        cost: 1,
        card_type: CardType::Spell,
        exhaust: false,
        effects: vec![Effect::DealDamage {
            target: Target::SingleEnemy,
            amount: 10,
        }],
        description: "Deal 10 damage.".to_string(),
        class: None,
        subclass: None,
        tags: vec![CardTag::Attack],
        recycle: false,
        concentration: false,
        innate: false,
        milestone: false,
        inherent: false,
    }
}

fn defend_card_def() -> CardDef {
    CardDef {
        id: "defend".into(),
        name: "Defend".to_string(),
        rarity: Rarity::Common,
        cost: 1,
        card_type: CardType::Spell,
        exhaust: false,
        effects: vec![Effect::GainBlock { amount: 10 }],
        description: "Gain 10 block.".to_string(),
        class: None,
        subclass: None,
        tags: vec![CardTag::Defense],
        recycle: false,
        concentration: false,
        innate: false,
        milestone: false,
        inherent: false,
    }
}



fn test_enemy_def() -> EnemyDef {
    EnemyDef {
        id: "test_goblin".to_string(),
        name: "Test Goblin".to_string(),
        max_hp: 20,
        intent_pattern: vec![IntentType::Attack(6), IntentType::Defend(4)],
    }
}

fn make_content(cards: Vec<CardDef>, enemies: Vec<EnemyDef>) -> ContentTables {
    ContentTables {
        card_defs: cards,
        enemy_defs: enemies,
    }
}

fn make_combat(content: &ContentTables, deck_ids: &[&str], enemy_ids: &[&str]) -> CombatState {
    let deck: Vec<CardInstance> = deck_ids
        .iter()
        .map(|id| CardInstance {
            def_id: id.to_string(),
            upgraded: false,
        })
        .collect();
    let enemies: Vec<EnemyState> = enemy_ids
        .iter()
        .map(|id| {
            let def = content.enemy_def(&id.to_string()).expect("enemy def missing");
            EnemyState::from_def(def)
        })
        .collect();
    let player = PlayerState::new(50, 3);
    CombatState::new(
        player,
        deck,
        enemies,
        42,
        0,
        0,
        Some(Class::Fighter),
        content,
    )
}

// ── Card play tests ─────────────────────────────────────────────────

#[test]
fn play_card_deals_damage() {
    let content = make_content(vec![strike_def()], vec![test_enemy_def()]);
    let mut combat = make_combat(&content, &vec!["strike"; 10], &["test_goblin"]);
    assert_eq!(combat.hand.len(), 5);

    let events = combat
        .apply(
            Action::PlayCard {
                hand_index: 0,
                target: Some(0),
            },
            &content,
        )
        .unwrap();

    assert!(events
        .iter()
        .any(|e| matches!(e, GameEvent::CardPlayed { .. })));
    assert!(events.iter().any(|e| matches!(
        e, GameEvent::DamageDealt { target: EventTarget::Enemy(0), hp_lost, .. } if *hp_lost == 10
    )));
    assert_eq!(combat.enemies[0].hp, 10);
    assert_eq!(combat.hand.len(), 4);
    assert_eq!(combat.player.energy, 2);
}

#[test]
fn play_defend_gains_block() {
    let content = make_content(vec![defend_card_def()], vec![test_enemy_def()]);
    let mut combat = make_combat(&content, &vec!["defend"; 10], &["test_goblin"]);

    let events = combat
        .apply(
            Action::PlayCard {
                hand_index: 0,
                target: None,
            },
            &content,
        )
        .unwrap();

    assert!(events.iter().any(|e| matches!(
        e,
        GameEvent::BlockGained {
            target: EventTarget::Player,
            amount: 10
        }
    )));
    assert_eq!(combat.player.block, 10);
}

#[test]
fn insufficient_energy_rejected() {
    let content = make_content(vec![strike_def()], vec![test_enemy_def()]);
    let mut combat = make_combat(&content, &vec!["strike"; 10], &["test_goblin"]);
    combat.player.energy = 0;

    let result = combat.apply(
        Action::PlayCard {
            hand_index: 0,
            target: Some(0),
        },
        &content,
    );
    assert_eq!(result, Err(ActionError::InsufficientEnergy));
}

#[test]
fn invalid_target_rejected() {
    let content = make_content(vec![strike_def()], vec![test_enemy_def()]);
    let mut combat = make_combat(&content, &vec!["strike"; 10], &["test_goblin"]);

    let result = combat.apply(
        Action::PlayCard {
            hand_index: 0,
            target: Some(5),
        },
        &content,
    );
    assert_eq!(result, Err(ActionError::InvalidTarget));
    assert_eq!(combat.player.energy, 3); // energy refunded
}

// ── End turn tests ──────────────────────────────────────────────────

#[test]
fn end_turn_triggers_enemy_and_new_turn() {
    let content = make_content(vec![defend_card_def()], vec![test_enemy_def()]);
    let mut combat = make_combat(&content, &vec!["defend"; 20], &["test_goblin"]);

    let events = combat.apply(Action::EndTurn, &content).unwrap();

    assert!(events
        .iter()
        .any(|e| matches!(e, GameEvent::TurnEnded { turn: 1 })));
    assert!(events
        .iter()
        .any(|e| matches!(e, GameEvent::EnemyAction { .. })));
    assert!(events
        .iter()
        .any(|e| matches!(e, GameEvent::TurnStarted { turn: 2 })));
    assert!(events
        .iter()
        .any(|e| matches!(e, GameEvent::CardsDrawn { .. })));
    assert_eq!(combat.turn, 2);
    assert_eq!(combat.phase, CombatPhase::PlayerTurn);
    assert_eq!(combat.player.energy, combat.player.max_energy);
}

// ── Victory / defeat ────────────────────────────────────────────────

#[test]
fn victory_when_all_enemies_die() {
    let content = make_content(vec![strike_def()], vec![test_enemy_def()]);
    let mut combat = make_combat(&content, &vec!["strike"; 10], &["test_goblin"]);
    combat.enemies[0].hp = 5;

    let events = combat
        .apply(
            Action::PlayCard {
                hand_index: 0,
                target: Some(0),
            },
            &content,
        )
        .unwrap();

    assert!(events
        .iter()
        .any(|e| matches!(e, GameEvent::EnemyDied { enemy_index: 0 })));
    assert!(events.iter().any(|e| matches!(e, GameEvent::CombatVictory)));
    assert_eq!(combat.phase, CombatPhase::Victory);
}

#[test]
fn no_actions_after_combat_ends() {
    let content = make_content(vec![strike_def()], vec![test_enemy_def()]);
    let mut combat = make_combat(&content, &vec!["strike"; 10], &["test_goblin"]);
    combat.phase = CombatPhase::Victory;

    assert!(combat.legal_actions(&content).is_empty());
    assert_eq!(
        combat.apply(Action::EndTurn, &content),
        Err(ActionError::CombatOver)
    );
}

// ── Exhaust / concentration / recycle ────────────────────────────────

#[test]
fn exhaust_card_goes_to_exhaust_pile() {
    let mut def = strike_def();
    def.id = "exhaust_strike".into();
    def.exhaust = true;
    let content = make_content(vec![def], vec![test_enemy_def()]);
    let mut combat = make_combat(&content, &vec!["exhaust_strike"; 10], &["test_goblin"]);

    let events = combat
        .apply(
            Action::PlayCard {
                hand_index: 0,
                target: Some(0),
            },
            &content,
        )
        .unwrap();

    assert!(events
        .iter()
        .any(|e| matches!(e, GameEvent::CardExhausted { .. })));
    assert_eq!(combat.exhaust.len(), 1);
}

#[test]
fn concentration_card_stays_in_hand() {
    let mut def = defend_card_def();
    def.id = "conc_shield".into();
    def.concentration = true;
    let content = make_content(vec![def, defend_card_def()], vec![test_enemy_def()]);
    let deck: Vec<&str> = std::iter::repeat("conc_shield")
        .take(2)
        .chain(std::iter::repeat("defend").take(8))
        .collect();
    let mut combat = make_combat(&content, &deck, &["test_goblin"]);

    let idx = combat.hand.iter().position(|c| c.def_id == "conc_shield");
    if let Some(idx) = idx {
        combat
            .apply(
                Action::PlayCard {
                    hand_index: idx,
                    target: None,
                },
                &content,
            )
            .unwrap();

        assert!(combat.hand.iter().any(|c| c.def_id == "conc_shield"));
        assert!(combat.concentration_active);
    }
}

#[test]
fn recycle_card_goes_to_draw_pile_bottom() {
    let mut def = defend_card_def();
    def.id = "recycle_block".into();
    def.recycle = true;
    let content = make_content(vec![def, defend_card_def()], vec![test_enemy_def()]);
    let deck: Vec<&str> = std::iter::repeat("recycle_block")
        .take(2)
        .chain(std::iter::repeat("defend").take(8))
        .collect();
    let mut combat = make_combat(&content, &deck, &["test_goblin"]);

    let idx = combat.hand.iter().position(|c| c.def_id == "recycle_block");
    if let Some(idx) = idx {
        let draw_before = combat.draw_pile.len();
        combat
            .apply(
                Action::PlayCard {
                    hand_index: idx,
                    target: None,
                },
                &content,
            )
            .unwrap();

        // Card went to draw pile, not discard.
        assert_eq!(combat.draw_pile.len(), draw_before + 1);
        assert_eq!(combat.draw_pile[0].def_id, "recycle_block");
        assert!(combat.discard.is_empty());
    }
}

// ── Damage pipeline ─────────────────────────────────────────────────

#[test]
fn empowered_adds_flat_damage() {
    let content = make_content(vec![strike_def()], vec![test_enemy_def()]);
    let mut combat = make_combat(&content, &vec!["strike"; 10], &["test_goblin"]);
    combat.player.status_effects.apply(StatusType::Empowered, 3);

    combat
        .apply(
            Action::PlayCard {
                hand_index: 0,
                target: Some(0),
            },
            &content,
        )
        .unwrap();

    assert_eq!(combat.enemies[0].hp, 7); // 10 + 3 = 13 damage
}

#[test]
fn weakened_reduces_damage() {
    let content = make_content(vec![strike_def()], vec![test_enemy_def()]);
    let mut combat = make_combat(&content, &vec!["strike"; 10], &["test_goblin"]);
    combat.player.status_effects.apply(StatusType::Weakened, 1);

    combat
        .apply(
            Action::PlayCard {
                hand_index: 0,
                target: Some(0),
            },
            &content,
        )
        .unwrap();

    assert_eq!(combat.enemies[0].hp, 13); // 10 × 0.75 = 7
}

#[test]
fn threatened_amplifies_damage() {
    let content = make_content(vec![strike_def()], vec![test_enemy_def()]);
    let mut combat = make_combat(&content, &vec!["strike"; 10], &["test_goblin"]);
    combat.enemies[0]
        .status_effects
        .apply(StatusType::Threatened, 1);

    combat
        .apply(
            Action::PlayCard {
                hand_index: 0,
                target: Some(0),
            },
            &content,
        )
        .unwrap();

    assert_eq!(combat.enemies[0].hp, 5); // 10 × 1.5 = 15
}

#[test]
fn marked_adds_flat_damage() {
    let content = make_content(vec![strike_def()], vec![test_enemy_def()]);
    let mut combat = make_combat(&content, &vec!["strike"; 10], &["test_goblin"]);
    combat.enemies[0]
        .status_effects
        .apply(StatusType::Marked, 2);

    combat
        .apply(
            Action::PlayCard {
                hand_index: 0,
                target: Some(0),
            },
            &content,
        )
        .unwrap();

    assert_eq!(combat.enemies[0].hp, 8); // 10 + 2 = 12
}

#[test]
fn calculate_damage_full_pipeline() {
    let mut statuses = StatusMap::new();
    statuses.apply(StatusType::Empowered, 2);
    // base 10 + 2 empowered = 12, threatened ×1.5 = 18, + 3 marked = 21
    assert_eq!(
        CombatState::calculate_damage(10, &statuses, true, 3, false),
        21
    );
}

#[test]
fn calculate_damage_miss_is_zero() {
    let statuses = StatusMap::new();
    assert_eq!(
        CombatState::calculate_damage(0, &statuses, true, 5, false),
        0
    );
}

// ── Status effects ──────────────────────────────────────────────────

#[test]
fn frightened_enemy_skips_action() {
    let content = make_content(vec![defend_card_def()], vec![test_enemy_def()]);
    let mut combat = make_combat(&content, &vec!["defend"; 20], &["test_goblin"]);
    combat.enemies[0]
        .status_effects
        .apply(StatusType::Frightened, 1);
    let hp_before = combat.player.hp;

    let events = combat.apply(Action::EndTurn, &content).unwrap();

    assert!(events
        .iter()
        .any(|e| matches!(e, GameEvent::EnemySkipped { enemy_index: 0 })));
    assert_eq!(combat.player.hp, hp_before);
}

#[test]
fn enemy_bleeding_dot_damage() {
    let content = make_content(vec![defend_card_def()], vec![test_enemy_def()]);
    let mut combat = make_combat(&content, &vec!["defend"; 20], &["test_goblin"]);
    combat.enemies[0]
        .status_effects
        .apply(StatusType::Bleeding, 5);

    combat.apply(Action::EndTurn, &content).unwrap();

    // Bleeding deals 5 dot damage and decays to 4.
    assert!(combat.enemies[0].hp <= 15);
    assert_eq!(
        combat.enemies[0].status_effects.get(StatusType::Bleeding),
        4
    );
}

// ── Legal actions ───────────────────────────────────────────────────

#[test]
fn legal_actions_include_targeted_and_untargeted() {
    let content = make_content(
        vec![strike_def(), defend_card_def()],
        vec![test_enemy_def()],
    );
    let deck: Vec<&str> = vec!["strike"; 10];
    let mut combat = make_combat(&content, &deck, &["test_goblin"]);

    // Manually ensure the hand has both card types.
    combat.hand.push(CardInstance {
        def_id: "defend".into(),
        upgraded: false,
    });

    let actions = combat.legal_actions(&content);
    assert!(actions.contains(&Action::EndTurn));
    assert!(actions.iter().any(|a| matches!(
        a,
        Action::PlayCard {
            target: Some(_),
            ..
        }
    )));
    assert!(actions
        .iter()
        .any(|a| matches!(a, Action::PlayCard { target: None, .. })));
}

#[test]
fn legal_actions_forced_discard() {
    let content = make_content(vec![strike_def()], vec![test_enemy_def()]);
    let mut combat = make_combat(&content, &vec!["strike"; 10], &["test_goblin"]);
    combat.pending_discards = 2;

    let actions = combat.legal_actions(&content);
    assert!(actions
        .iter()
        .all(|a| matches!(a, Action::DiscardCard { .. })));
    assert!(!actions.contains(&Action::EndTurn));
}

// ── Block absorption during enemy turn ──────────────────────────────

#[test]
fn player_block_absorbs_enemy_damage() {
    let content = make_content(vec![defend_card_def()], vec![test_enemy_def()]);
    let mut combat = make_combat(&content, &vec!["defend"; 20], &["test_goblin"]);

    combat
        .apply(
            Action::PlayCard {
                hand_index: 0,
                target: None,
            },
            &content,
        )
        .unwrap();
    assert_eq!(combat.player.block, 10);

    let hp_before = combat.player.hp;
    combat.apply(Action::EndTurn, &content).unwrap();

    // All attacks hit — enemy deals 6 damage, block absorbs most.
    assert!(combat.player.hp >= hp_before - 6);
}

// ── Barbed reflects damage ───────────────────────────────────────

#[test]
fn barbed_reflects_damage_to_attacker() {
    let content = make_content(vec![defend_card_def()], vec![test_enemy_def()]);
    let mut combat = make_combat(&content, &vec!["defend"; 20], &["test_goblin"]);
    combat.player.status_effects.apply(StatusType::Barbed, 3);
    combat.player.block = 0;

    let enemy_hp_before = combat.enemies[0].hp;
    combat.apply(Action::EndTurn, &content).unwrap();

    // All attacks hit, so Barbed always reflects.
    assert!(combat.enemies[0].hp < enemy_hp_before);
}

// ── Multi-enemy combat ──────────────────────────────────────────────

#[test]
fn multiple_enemies_act_independently() {
    let content = make_content(vec![defend_card_def()], vec![test_enemy_def()]);
    let mut combat = make_combat(
        &content,
        &vec!["defend"; 20],
        &["test_goblin", "test_goblin"],
    );

    let events = combat.apply(Action::EndTurn, &content).unwrap();

    let enemy_actions: Vec<_> = events
        .iter()
        .filter(|e| matches!(e, GameEvent::EnemyAction { .. }))
        .collect();
    assert_eq!(enemy_actions.len(), 2);
}

#[test]
fn dead_enemy_skipped_in_turn() {
    let content = make_content(vec![strike_def()], vec![test_enemy_def()]);
    let mut combat = make_combat(
        &content,
        &vec!["strike"; 20],
        &["test_goblin", "test_goblin"],
    );
    combat.enemies[0].hp = 0; // first enemy already dead

    let events = combat.apply(Action::EndTurn, &content).unwrap();

    let enemy_actions: Vec<_> = events
        .iter()
        .filter(|e| matches!(e, GameEvent::EnemyAction { .. }))
        .collect();
    assert_eq!(enemy_actions.len(), 1); // only second enemy acts
}

// ── Energy / heal effects ───────────────────────────────────────────

#[test]
fn heal_effect() {
    let mut heal_card = defend_card_def();
    heal_card.id = "heal_potion".into();
    heal_card.effects = vec![Effect::Heal { amount: 15 }];
    let content = make_content(vec![heal_card], vec![test_enemy_def()]);
    let mut combat = make_combat(&content, &vec!["heal_potion"; 10], &["test_goblin"]);
    combat.player.hp = 30;

    let events = combat
        .apply(
            Action::PlayCard {
                hand_index: 0,
                target: None,
            },
            &content,
        )
        .unwrap();

    assert!(events.iter().any(|e| matches!(e, GameEvent::Healed { .. })));
    assert_eq!(combat.player.hp, 45);
}

#[test]
fn energy_gain_effect() {
    let mut energy_card = defend_card_def();
    energy_card.id = "energy_potion".into();
    energy_card.cost = 0;
    energy_card.effects = vec![Effect::GainEnergy { amount: 2 }];
    let content = make_content(vec![energy_card], vec![test_enemy_def()]);
    let mut combat = make_combat(&content, &vec!["energy_potion"; 10], &["test_goblin"]);

    combat
        .apply(
            Action::PlayCard {
                hand_index: 0,
                target: None,
            },
            &content,
        )
        .unwrap();

    assert_eq!(combat.player.energy, 5); // 3 starting + 2
}

// ── New effect tests ────────────────────────────────────────────────

#[test]
fn gain_block_conditional_no_existing_block() {
    let mut card = defend_card_def();
    card.id = "brace".into();
    card.effects = vec![Effect::GainBlockConditional {
        amount: 8,
        bonus_amount: 12,
    }];
    let content = make_content(vec![card], vec![test_enemy_def()]);
    let mut combat = make_combat(&content, &vec!["brace"; 10], &["test_goblin"]);
    assert_eq!(combat.player.block, 0);

    combat
        .apply(
            Action::PlayCard {
                hand_index: 0,
                target: None,
            },
            &content,
        )
        .unwrap();

    assert_eq!(combat.player.block, 8);
}

#[test]
fn gain_block_conditional_with_existing_block() {
    let mut card = defend_card_def();
    card.id = "brace".into();
    card.effects = vec![Effect::GainBlockConditional {
        amount: 8,
        bonus_amount: 12,
    }];
    let content = make_content(vec![card], vec![test_enemy_def()]);
    let mut combat = make_combat(&content, &vec!["brace"; 10], &["test_goblin"]);
    combat.player.block = 5;

    combat
        .apply(
            Action::PlayCard {
                hand_index: 0,
                target: None,
            },
            &content,
        )
        .unwrap();

    assert_eq!(combat.player.block, 17); // 5 + 12
}

#[test]
fn block_floor_effect() {
    let mut card = defend_card_def();
    card.id = "unbreakable".into();
    card.cost = 0;
    card.exhaust = true;
    card.effects = vec![Effect::BlockFloor { amount: 5 }];
    let content = make_content(vec![card, defend_card_def()], vec![test_enemy_def()]);
    let mut combat = make_combat(&content, &vec!["unbreakable"; 10], &["test_goblin"]);

    combat
        .apply(
            Action::PlayCard {
                hand_index: 0,
                target: None,
            },
            &content,
        )
        .unwrap();

    assert_eq!(combat.block_floor, 5);
}

#[test]
fn double_status_effect() {
    let mut card = defend_card_def();
    card.id = "expose".into();
    card.cost = 0;
    card.exhaust = true;
    card.effects = vec![Effect::DoubleStatus {
        target: Target::SingleEnemy,
        status: StatusType::Marked,
    }];
    let content = make_content(vec![card], vec![test_enemy_def()]);
    let mut combat = make_combat(&content, &vec!["expose"; 10], &["test_goblin"]);
    combat.enemies[0]
        .status_effects
        .apply(StatusType::Marked, 3);

    combat
        .apply(
            Action::PlayCard {
                hand_index: 0,
                target: Some(0),
            },
            &content,
        )
        .unwrap();

    assert_eq!(combat.enemies[0].status_effects.get(StatusType::Marked), 6);
}

// ── Stalemate guard tests ──────────────────────────────────────────

#[test]
fn stalemate_ends_in_defeat_after_max_turns() {
    // All-defend deck vs a goblin: player blocks forever, never deals damage.
    let content = make_content(vec![defend_card_def()], vec![test_enemy_def()]);
    let mut combat = make_combat(&content, &vec!["defend"; 20], &["test_goblin"]);

    // Fast-forward to turn MAX_TURNS by ending turns repeatedly.
    for _ in 0..MAX_TURNS + 50 {
        if matches!(combat.phase, CombatPhase::Victory | CombatPhase::Defeat) {
            break;
        }
        combat.apply(Action::EndTurn, &content).unwrap();
    }

    assert!(matches!(combat.phase, CombatPhase::Defeat));
    assert!(combat.turn <= MAX_TURNS + 1);
}


// ── Contract checks on concrete values ──────────────────────────────

#[test]
fn legal_actions_come_in_hand_order_with_end_turn_last() {
    let content = make_content(vec![strike_def(), defend_card_def()], vec![test_enemy_def()]);
    let deck: Vec<&str> = vec!["strike", "defend", "strike", "defend", "strike", "defend"];
    let combat = make_combat(&content, &deck, &["test_goblin"]);
    let actions = combat.legal_actions(&content);
    assert_eq!(actions.last(), Some(&Action::EndTurn));
    let mut last_index = 0usize;
    for a in &actions[..actions.len() - 1] {
        match a {
            Action::PlayCard { hand_index, .. } => {
                assert!(*hand_index >= last_index);
                last_index = *hand_index;
            }
            other => panic!("unexpected action {:?}", other),
        }
    }
}

#[test]
fn forced_discards_come_in_hand_order() {
    let content = make_content(vec![strike_def()], vec![test_enemy_def()]);
    let mut combat = make_combat(&content, &vec!["strike"; 10], &["test_goblin"]);
    combat.pending_discards = 1;
    let actions = combat.legal_actions(&content);
    assert_eq!(actions.len(), combat.hand.len());
    for (k, a) in actions.iter().enumerate() {
        assert_eq!(*a, Action::DiscardCard { hand_index: k });
    }
}

#[test]
fn innate_cards_open_the_hand() {
    let mut innate = defend_card_def();
    innate.id = "warding".into();
    innate.innate = true;
    let content = make_content(vec![strike_def(), innate], vec![test_enemy_def()]);
    let mut deck: Vec<&str> = vec!["strike"; 12];
    deck.push("warding");
    deck.push("warding");
    for seed in 0..20u64 {
        let cards: Vec<CardInstance> = deck
            .iter()
            .map(|id| CardInstance { def_id: id.to_string(), upgraded: false })
            .collect();
        let enemies = vec![EnemyState::from_def(content.enemy_def(&"test_goblin".to_string()).unwrap())];
        let combat = CombatState::new(PlayerState::new(50, 3), cards, enemies, seed, 0, 0, None, &content);
        let in_hand = combat.hand.iter().filter(|c| c.def_id == "warding").count();
        assert_eq!(in_hand, 2, "seed {}", seed);
        assert!(combat.draw_pile.iter().all(|c| c.def_id != "warding"));
        assert_eq!(combat.pending_discards, 0);
    }
}

#[test]
fn play_card_events_start_with_card_played() {
    let content = make_content(vec![strike_def()], vec![test_enemy_def()]);
    let mut combat = make_combat(&content, &vec!["strike"; 10], &["test_goblin"]);
    let events = combat
        .apply(Action::PlayCard { hand_index: 0, target: Some(0) }, &content)
        .unwrap();
    assert!(matches!(
        &events[0],
        GameEvent::CardPlayed { card_id, hand_index: 0, energy_spent: 1 } if card_id == "strike"
    ));
    assert_eq!(combat.enemies[0].hp, 10);
    assert_eq!(combat.hand.len(), 4);
}

#[test]
fn end_turn_events_record_the_turn_end() {
    let content = make_content(vec![strike_def()], vec![test_enemy_def()]);
    let mut combat = make_combat(&content, &vec!["strike"; 10], &["test_goblin"]);
    let events = combat.apply(Action::EndTurn, &content).unwrap();
    assert!(events.contains(&GameEvent::TurnEnded { turn: 1 }));
    assert_eq!(combat.turn, 2);
    assert_eq!(combat.phase, CombatPhase::PlayerTurn);
}

#[test]
fn new_combat_keeps_the_rest_of_the_deck_in_the_draw_pile() {
    let content = make_content(vec![strike_def()], vec![test_enemy_def()]);
    let combat = make_combat(&content, &vec!["strike"; 12], &["test_goblin"]);
    assert_eq!(combat.hand.len(), 5);
    assert_eq!(combat.draw_pile.len(), 7);
    assert!(combat.discard.is_empty());
    assert!(combat.exhaust.is_empty());
    assert_eq!(combat.player.energy, 3);
    assert_eq!(combat.player.block, 0);
}

#[test]
fn end_turn_moves_enemy_to_next_intent_and_draws_a_new_hand() {
    let content = make_content(vec![defend_card_def()], vec![test_enemy_def()]);
    let mut combat = make_combat(&content, &vec!["defend"; 20], &["test_goblin"]);
    assert_eq!(combat.enemies[0].intent_index, 0);
    combat.apply(Action::EndTurn, &content).unwrap();
    assert_eq!(combat.enemies[0].intent_index, 1);
    assert_eq!(combat.enemies[0].current_intent, Some(IntentType::Defend(4)));
    assert_eq!(combat.hand.len(), 5);
    assert_eq!(combat.draw_pile.len(), 10);
    assert_eq!(combat.discard.len(), 5);
    // The goblin's attack of 6 met no block.
    assert_eq!(combat.player.hp, 44);
    assert_eq!(combat.player.block, 0);
    combat.apply(Action::EndTurn, &content).unwrap();
    assert_eq!(combat.enemies[0].intent_index, 0);
    assert_eq!(combat.enemies[0].current_intent, Some(IntentType::Attack(6)));
}

#[test]
fn defend_block_survives_the_rest_of_the_play() {
    let content = make_content(vec![defend_card_def()], vec![test_enemy_def()]);
    let mut combat = make_combat(&content, &vec!["defend"; 20], &["test_goblin"]);
    combat
        .apply(Action::PlayCard { hand_index: 0, target: None }, &content)
        .unwrap();
    assert_eq!(combat.player.block, 10);
    assert_eq!(combat.discard.len(), 1);
    assert_eq!(combat.pending_discards, 0);
    // The hit of 6 is absorbed; 4 block is left after the enemy turn, then
    // the new turn clears it.
    combat.apply(Action::EndTurn, &content).unwrap();
    assert_eq!(combat.player.hp, 50);
}

#[test]
fn berserkers_trance_costs_two_hp_and_draws_one_more() {
    let content = make_content(vec![defend_card_def()], vec![test_enemy_def()]);
    let mut combat = make_combat(&content, &vec!["defend"; 20], &["test_goblin"]);
    combat.player.status_effects.apply(StatusType::BerserkersTrance, 3);
    combat.apply(Action::EndTurn, &content).unwrap();
    // 6 from the goblin's attack, then 2 from the trance.
    assert_eq!(combat.player.hp, 42);
    assert_eq!(combat.hand.len(), 6);
}
