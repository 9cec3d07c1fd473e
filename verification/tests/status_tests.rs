use decker::status::{StatusMap, StatusType};

#[test]
fn apply_and_get() {
    let mut map = StatusMap::new();
    map.apply(StatusType::Empowered, 3);
    assert_eq!(map.get(StatusType::Empowered), 3);
    map.apply(StatusType::Empowered, 2);
    assert_eq!(map.get(StatusType::Empowered), 5);
}

#[test]
fn negative_removal() {
    let mut map = StatusMap::new();
    map.apply(StatusType::Threatened, 2);
    assert!(map.has(StatusType::Threatened));
    map.apply(StatusType::Threatened, -2);
    assert!(!map.has(StatusType::Threatened));
    assert_eq!(map.get(StatusType::Threatened), 0);
}

#[test]
fn tick_decay() {
    let mut map = StatusMap::new();
    map.apply(StatusType::Threatened, 2);
    map.apply(StatusType::Weakened, 1);
    map.apply(StatusType::Empowered, 3);

    let result = map.tick();
    assert_eq!(result.dot_damage, 0);
    assert_eq!(map.get(StatusType::Threatened), 1);
    assert!(!map.has(StatusType::Weakened));
    assert_eq!(map.get(StatusType::Empowered), 3);
}

#[test]
fn tick_bleeding_damage() {
    let mut map = StatusMap::new();
    map.apply(StatusType::Bleeding, 4);

    let result = map.tick();
    assert_eq!(result.dot_damage, 4);
    assert_eq!(map.get(StatusType::Bleeding), 3);
}

#[test]
fn barbed_is_permanent() {
    let mut map = StatusMap::new();
    map.apply(StatusType::Barbed, 3);
    let _ = map.tick();
    assert_eq!(map.get(StatusType::Barbed), 3);
}

#[test]
fn frightened_decays() {
    let mut map = StatusMap::new();
    map.apply(StatusType::Frightened, 2);
    let _ = map.tick();
    assert_eq!(map.get(StatusType::Frightened), 1);
    let _ = map.tick();
    assert!(!map.has(StatusType::Frightened));
}

#[test]
fn marked_persists() {
    let mut map = StatusMap::new();
    map.apply(StatusType::Marked, 3);
    let _ = map.tick();
    assert_eq!(map.get(StatusType::Marked), 3);
}

#[test]
fn clear_removes_all() {
    let mut map = StatusMap::new();
    map.apply(StatusType::Empowered, 5);
    map.apply(StatusType::Bleeding, 2);
    map.apply(StatusType::Barbed, 1);
    map.apply(StatusType::Mending, 4);
    map.clear();
    assert_eq!(map.get(StatusType::Empowered), 0);
    assert_eq!(map.get(StatusType::Bleeding), 0);
    assert_eq!(map.get(StatusType::Barbed), 0);
    assert_eq!(map.get(StatusType::Mending), 0);
}


#[test]
fn debuff_count_counts_positive_debuffs_only() {
    let mut m = decker::status::StatusMap::new();
    assert_eq!(m.debuff_count(), 0);
    m.apply(decker::status::StatusType::Weakened, 2);
    m.apply(decker::status::StatusType::Bleeding, 1);
    m.apply(decker::status::StatusType::Empowered, 3);
    assert_eq!(m.debuff_count(), 2);
}
