//! Items: the equipment and consumables a player carries.

use vstd::prelude::*;

verus! {

/// The category an item belongs to; it decides what the item can do when
/// equipped or used.
#[derive(Debug, Clone, Copy, PartialEq, Eq, Structural)]
pub enum ItemType {
    /// Weapons used for combat
    Weapon,
    /// Armor for defense
    Armor,
    /// Consumable potions
    Potion,
    /// Keys for unlocking doors or chests
    Key,
}

/// An item. Immutable after construction; moved by value between the
/// inventory and the equipment slots. `value` means attack bonus for a
/// weapon, defense bonus for armor, and heal amount for a potion; a key
/// carries no numeric meaning.
#[derive(Debug, Clone)]
pub struct Item {
    /// Name of the item
    pub name: String,
    /// Type category of the item
    pub item_type: ItemType,
    /// Numerical value (damage for weapons, defense for armor, healing for potions)
    pub value: i32,
    /// Descriptive text about the item
    pub description: String,
}

impl Item {
    /// Creates a new item with the given properties.
    pub fn new(name: String, item_type: ItemType, value: i32, description: String) -> (item: Item)
        ensures
            item.name == name,
            item.item_type == item_type,
            item.value == value,
            item.description == description,
    {
        Item { name, item_type, value, description }
    }

    /// A basic sword: a weapon with an attack bonus of 10.
    pub fn create_sword() -> (item: Item)
        ensures
            item.name@ == "Sword"@,
            item.item_type == ItemType::Weapon,
            item.value == 10,
            item.description@ == "A simple sword."@,
    {
        Item::new(
            "Sword".to_owned(),
            ItemType::Weapon,
            10,
            "A simple sword.".to_owned(),
        )
    }

    /// A health potion that restores 20 health when used.
    pub fn create_health_potion() -> (item: Item)
        ensures
            item.name@ == "Health Potion"@,
            item.item_type == ItemType::Potion,
            item.value == 20,
            item.description@ == "Restores 20 health."@,
    {
        Item::new(
            "Health Potion".to_owned(),
            ItemType::Potion,
            20,
            "Restores 20 health.".to_owned(),
        )
    }
}

} // verus!
