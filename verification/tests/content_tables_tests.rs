use decker::content_tables::ContentTables;

#[test]
fn empty_tables() {
    let tables = ContentTables::empty();
    assert!(tables.card_defs.is_empty());
    assert!(tables.enemy_defs.is_empty());
}

