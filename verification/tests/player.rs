use kd_rusty_crawler::{Item, ItemError, ItemType, Player};

#[test]
fn new_player_has_starting_stats() {
    let p = Player::new("Hero".to_string());
    assert_eq!(p.name, "Hero");
    assert_eq!(p.health, 100);
    assert_eq!(p.attack, 10);
    assert_eq!(p.defense, 10);
    assert_eq!(p.speed, 10);
    assert_eq!(p.level, 1);
    assert_eq!(p.experience, 0);
    assert_eq!(p.experience_to_next_level, 100);
    assert_eq!(p.inventory.len(), 0);
    assert!(p.equipped_weapon.is_none());
    assert!(p.equipped_armor.is_none());
    assert!(p.is_alive());
}

#[test]
fn gain_experience_levels_up_across_thresholds() {
    let mut p = Player::new("Hero".to_string());
    p.gain_experience(250);
    assert_eq!(p.level, 3);
    assert_eq!(p.experience, 40);
    assert_eq!(p.experience_to_next_level, 121);
    assert_eq!(p.health, 120);
    assert_eq!(p.attack, 14);
    assert_eq!(p.defense, 14);
    assert_eq!(p.speed, 14);
}

#[test]
fn gain_exact_threshold_levels_up() {
    let mut p = Player::new("Hero".to_string());
    p.gain_experience(100);
    assert_eq!(p.level, 2);
    assert_eq!(p.experience, 0);
    assert_eq!(p.experience_to_next_level, 110);
}

#[test]
fn split_gains_equal_one_gain() {
    let mut once = Player::new("Hero".to_string());
    once.gain_experience(250);
    let mut split = Player::new("Hero".to_string());
    split.gain_experience(100);
    split.gain_experience(90);
    split.gain_experience(60);
    assert_eq!(once.level, split.level);
    assert_eq!(once.experience, split.experience);
    assert_eq!(once.experience_to_next_level, split.experience_to_next_level);
    assert_eq!(once.health, split.health);
    assert_eq!(once.attack, split.attack);
    assert_eq!(once.defense, split.defense);
    assert_eq!(once.speed, split.speed);
}

#[test]
fn take_damage_reduces_by_amount_less_defense() {
    let mut p = Player::new("Hero".to_string());
    let died = p.take_damage(15);
    assert_eq!(p.health, 95);
    assert!(!died);
}

#[test]
fn take_damage_floors_at_one() {
    let mut p = Player::new("Hero".to_string());
    let died = p.take_damage(3);
    assert_eq!(p.health, 99);
    assert!(!died);
    let died = p.take_damage(0);
    assert_eq!(p.health, 98);
    assert!(!died);
}

#[test]
fn take_damage_reports_death_iff_health_drops_to_zero() {
    let mut p = Player::new("Hero".to_string());
    let died = p.take_damage(109);
    assert_eq!(p.health, 1);
    assert!(!died);
    let died = p.take_damage(11);
    assert_eq!(p.health, 0);
    assert!(died);
    assert!(!p.is_alive());
}

#[test]
fn heal_has_no_cap() {
    let mut p = Player::new("Hero".to_string());
    p.heal(50);
    assert_eq!(p.health, 150);
}

#[test]
fn equip_weapon_updates_attack() {
    let mut p = Player::new("Hero".to_string());
    p.inventory.push(Item::create_sword());
    assert_eq!(p.add_item(0), Ok(()));
    assert_eq!(p.attack, 20);
    assert_eq!(p.defense, 10);
    assert_eq!(p.inventory.len(), 0);
    assert_eq!(p.equipped_weapon.as_ref().unwrap().name, "Sword");
}

#[test]
fn equip_armor_updates_defense() {
    let mut p = Player::new("Hero".to_string());
    p.inventory.push(Item::new(
        "Shield".to_string(),
        ItemType::Armor,
        5,
        "A wooden shield.".to_string(),
    ));
    assert_eq!(p.add_item(0), Ok(()));
    assert_eq!(p.defense, 15);
    assert_eq!(p.attack, 10);
    assert_eq!(p.equipped_armor.as_ref().unwrap().name, "Shield");
}

#[test]
fn equip_second_weapon_returns_first_to_inventory() {
    let mut p = Player::new("Hero".to_string());
    p.inventory.push(Item::create_sword());
    p.inventory.push(Item::new(
        "Axe".to_string(),
        ItemType::Weapon,
        15,
        "A heavy axe.".to_string(),
    ));
    assert_eq!(p.add_item(0), Ok(()));
    assert_eq!(p.inventory.len(), 1);
    assert_eq!(p.inventory[0].name, "Axe");
    assert_eq!(p.add_item(0), Ok(()));
    assert_eq!(p.inventory.len(), 1);
    assert_eq!(p.inventory[0].name, "Sword");
    assert_eq!(p.equipped_weapon.as_ref().unwrap().name, "Axe");
    assert_eq!(p.attack, 25);
}

#[test]
fn equip_rejects_invalid_index() {
    let mut p = Player::new("Hero".to_string());
    assert_eq!(p.add_item(0), Err(ItemError::InvalidIndex));
    assert_eq!(p.health, 100);
    assert_eq!(p.inventory.len(), 0);
}

#[test]
fn equip_rejects_potion_and_key() {
    let mut p = Player::new("Hero".to_string());
    p.inventory.push(Item::create_health_potion());
    p.inventory.push(Item::new(
        "Rusty Key".to_string(),
        ItemType::Key,
        0,
        "Opens something, somewhere.".to_string(),
    ));
    assert_eq!(p.add_item(0), Err(ItemError::NotEquippable));
    assert_eq!(p.add_item(1), Err(ItemError::NotEquippable));
    assert_eq!(p.inventory.len(), 2);
}

#[test]
fn use_potion_heals_and_consumes_it() {
    let mut p = Player::new("Hero".to_string());
    p.inventory.push(Item::create_health_potion());
    assert_eq!(p.use_item(0), Ok(()));
    assert_eq!(p.health, 120);
    assert_eq!(p.inventory.len(), 0);
}

#[test]
fn use_item_rejects_non_potion_and_keeps_inventory() {
    let mut p = Player::new("Hero".to_string());
    p.inventory.push(Item::create_sword());
    p.inventory.push(Item::new(
        "Rusty Key".to_string(),
        ItemType::Key,
        0,
        "Opens something, somewhere.".to_string(),
    ));
    assert_eq!(p.use_item(0), Err(ItemError::NotUsable));
    assert_eq!(p.use_item(1), Err(ItemError::NotUsable));
    assert_eq!(p.inventory.len(), 2);
    assert_eq!(p.inventory[0].name, "Sword");
    assert_eq!(p.inventory[1].name, "Rusty Key");
    assert_eq!(p.health, 100);
}

#[test]
fn use_item_rejects_invalid_index() {
    let mut p = Player::new("Hero".to_string());
    p.inventory.push(Item::create_health_potion());
    assert_eq!(p.use_item(1), Err(ItemError::InvalidIndex));
    assert_eq!(p.inventory.len(), 1);
    assert_eq!(p.health, 100);
}
