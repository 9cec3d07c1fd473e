use decker::subclass::{fighter_subclasses, DEFENSE, DUELING, TWO_HANDED};

#[test]
fn fighter_subclass_ids_are_distinct() {
    let subs = fighter_subclasses();
    let ids: Vec<&str> = subs.iter().map(|s| s.id.as_str()).collect();
    assert_eq!(ids.len(), 3);
    assert!(ids.contains(&TWO_HANDED));
    assert!(ids.contains(&DEFENSE));
    assert!(ids.contains(&DUELING));
}

