use decker::player::PlayerState;

#[test]
fn block_absorption() {
    let mut player = PlayerState::new(50, 3);
    player.gain_block(8);
    let lost = player.take_damage(12);
    assert_eq!(lost, 4);
    assert_eq!(player.hp, 46);
    assert_eq!(player.block, 0);
}

#[test]
fn block_fully_absorbs() {
    let mut player = PlayerState::new(50, 3);
    player.gain_block(10);
    let lost = player.take_damage(6);
    assert_eq!(lost, 0);
    assert_eq!(player.hp, 50);
    assert_eq!(player.block, 4);
}

#[test]
fn energy_spending() {
    let mut player = PlayerState::new(50, 3);
    assert!(player.spend_energy(2));
    assert_eq!(player.energy, 1);
    assert!(!player.spend_energy(2));
    assert_eq!(player.energy, 1);
}

#[test]
fn heal_cap() {
    let mut player = PlayerState::new(50, 3);
    player.hp = 30;
    player.heal(100);
    assert_eq!(player.hp, 50);
}

