use kd_rusty_crawler::{Item, ItemType};

#[test]
fn item_new_sets_every_field() {
    let item = Item::new(
        "Torch".to_string(),
        ItemType::Key,
        7,
        "Lights the way.".to_string(),
    );
    assert_eq!(item.name, "Torch");
    assert_eq!(item.item_type, ItemType::Key);
    assert_eq!(item.value, 7);
    assert_eq!(item.description, "Lights the way.");
}

#[test]
fn sword_factory_makes_a_ten_point_weapon() {
    let sword = Item::create_sword();
    assert_eq!(sword.name, "Sword");
    assert_eq!(sword.item_type, ItemType::Weapon);
    assert_eq!(sword.value, 10);
    assert_eq!(sword.description, "A simple sword.");
}

#[test]
fn potion_factory_makes_a_twenty_point_potion() {
    let potion = Item::create_health_potion();
    assert_eq!(potion.name, "Health Potion");
    assert_eq!(potion.item_type, ItemType::Potion);
    assert_eq!(potion.value, 20);
    assert_eq!(potion.description, "Restores 20 health.");
}
