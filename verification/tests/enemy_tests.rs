use decker::enemy::{EnemyDef, EnemyState, IntentType};

fn test_def() -> EnemyDef {
    EnemyDef {
        id: "slime".to_string(),
        name: "Slime".to_string(),
        max_hp: 30,
        intent_pattern: vec![
            IntentType::Attack(6),
            IntentType::Defend(5),
            IntentType::Attack(10),
        ],
    }
}

#[test]
fn intent_cycling() {
    let def = test_def();
    let mut enemy = EnemyState::from_def(&def);
    assert!(matches!(enemy.current_intent, Some(IntentType::Attack(6))));

    enemy.advance_intent(&def);
    assert!(matches!(enemy.current_intent, Some(IntentType::Defend(5))));

    enemy.advance_intent(&def);
    assert!(matches!(enemy.current_intent, Some(IntentType::Attack(10))));

    enemy.advance_intent(&def);
    assert!(matches!(enemy.current_intent, Some(IntentType::Attack(6))));
}

#[test]
fn take_damage_with_block() {
    let def = test_def();
    let mut enemy = EnemyState::from_def(&def);
    enemy.block = 5;
    let lost = enemy.take_damage(8);
    assert_eq!(lost, 3);
    assert_eq!(enemy.hp, 27);
    assert_eq!(enemy.block, 0);
}

#[test]
fn is_dead_check() {
    let def = test_def();
    let mut enemy = EnemyState::from_def(&def);
    assert!(!enemy.is_dead());
    enemy.hp = 0;
    assert!(enemy.is_dead());
}

#[test]
fn string_id_roundtrip() {
    let def = test_def();
    assert_eq!(def.id, "slime");
    let enemy = EnemyState::from_def(&def);
    assert_eq!(enemy.def_id, "slime");
}

