//! The player character: stats, leveling, damage and heal arithmetic, and
//! the equip/use inventory transactions.

use vstd::prelude::*;

use crate::item::{Item, ItemType};

verus! {

/// Why an inventory transaction was refused.
#[derive(Debug, Clone, Copy, PartialEq, Eq, Structural)]
pub enum ItemError {
    /// The inventory index is out of bounds.
    InvalidIndex,
    /// The item is neither a weapon nor armor, so it cannot be equipped.
    NotEquippable,
    /// The item is not a potion, so it cannot be consumed.
    NotUsable,
}

/// The numeric part of a player's sheet, as mathematical integers: what
/// leveling reads and writes.
pub ghost struct Progress {
    pub health: int,
    pub attack: int,
    pub defense: int,
    pub speed: int,
    pub level: int,
    pub experience: int,
    /// Experience needed for the next level.
    pub threshold: int,
}

/// One level-up: the consumed experience is deducted, the threshold grows by
/// a tenth (truncating the fraction), and every stat rises.
pub open spec fn level_step(p: Progress) -> Progress {
    Progress {
        health: p.health + 10,
        attack: p.attack + 2,
        defense: p.defense + 2,
        speed: p.speed + 2,
        level: p.level + 1,
        experience: p.experience - p.threshold,
        threshold: p.threshold * 11 / 10,
    }
}

/// Applies level-ups until the experience no longer reaches the threshold.
pub open spec fn settle(p: Progress) -> Progress
    decreases p.experience
        when 1 <= p.threshold && 0 <= p.experience
{
    if p.experience >= p.threshold {
        settle(level_step(p))
    } else {
        p
    }
}

/// The same progress with `amount` more experience, before any level-up.
pub open spec fn add_experience(p: Progress, amount: int) -> Progress {
    Progress { experience: p.experience + amount, ..p }
}

/// Every component small enough for the sheet's 32-bit fields. (No lower
/// bounds are needed: leveling only raises stats and keeps the experience
/// non-negative.)
pub open spec fn fits_i32(p: Progress) -> bool {
    &&& p.health <= i32::MAX
    &&& p.attack <= i32::MAX
    &&& p.defense <= i32::MAX
    &&& p.speed <= i32::MAX
    &&& p.level <= i32::MAX
    &&& p.experience <= i32::MAX
    &&& p.threshold <= i32::MAX
}

/// Settling never lowers a stat, the level, or the threshold, never raises
/// the experience, and ends with the experience strictly below the
/// threshold.
pub proof fn lemma_settle_monotone(p: Progress)
    requires
        100 <= p.threshold,
        0 <= p.experience,
    ensures
        p.health <= settle(p).health,
        p.attack <= settle(p).attack,
        p.defense <= settle(p).defense,
        p.speed <= settle(p).speed,
        p.level <= settle(p).level,
        p.threshold <= settle(p).threshold,
        0 <= settle(p).experience <= p.experience,
        settle(p).experience < settle(p).threshold,
        100 <= settle(p).threshold,
    decreases p.experience,
{
    if p.experience >= p.threshold {
        lemma_settle_monotone(level_step(p));
    }
}

/// Gaining exactly the current threshold always triggers at least one
/// level-up.
pub proof fn lemma_threshold_gain_levels_up(p: Progress)
    requires
        100 <= p.threshold,
        0 <= p.experience,
    ensures
        p.level + 1 <= settle(add_experience(p, p.threshold)).level,
{
    let q = add_experience(p, p.threshold);
    lemma_settle_monotone(level_step(q));
}

/// Adding experience commutes with settling: settling first and then adding
/// more settles to the same sheet as adding it before settling.
proof fn lemma_settle_add(q: Progress, b: int)
    requires
        100 <= q.threshold,
        0 <= q.experience,
        0 <= b,
    ensures
        settle(add_experience(settle(q), b)) == settle(add_experience(q, b)),
    decreases q.experience,
{
    if q.experience >= q.threshold {
        let r = level_step(q);
        lemma_settle_add(r, b);
        assert(add_experience(r, b) == level_step(add_experience(q, b)));
    }
}

/// Experience gains are cumulative: gaining `a` and then `b` settles to the
/// same sheet as gaining `a + b` at once.
pub proof fn lemma_gain_split(p: Progress, a: int, b: int)
    requires
        100 <= p.threshold,
        0 <= p.experience,
        0 <= a,
        0 <= b,
    ensures
        settle(add_experience(settle(add_experience(p, a)), b)) == settle(add_experience(p, a + b)),
{
    lemma_settle_add(add_experience(p, a), b);
}

/// The total of a sequence of experience gains.
pub open spec fn total_gain(gains: Seq<int>) -> int
    decreases gains.len(),
{
    if gains.len() == 0 {
        0
    } else {
        gains[0] + total_gain(gains.drop_first())
    }
}

/// A sequence of non-negative gains has a non-negative total.
proof fn lemma_total_gain_nonneg(gains: Seq<int>)
    requires
        forall|i: int| 0 <= i < gains.len() ==> 0 <= #[trigger] gains[i],
    ensures
        0 <= total_gain(gains),
    decreases gains.len(),
{
    if gains.len() > 0 {
        lemma_total_gain_nonneg(gains.drop_first());
    }
}

/// The sheet after gaining and settling each amount in turn.
pub open spec fn gain_each(p: Progress, gains: Seq<int>) -> Progress
    decreases gains.len(),
{
    if gains.len() == 0 {
        p
    } else {
        gain_each(settle(add_experience(p, gains[0])), gains.drop_first())
    }
}

/// Repeated gains are cumulative: starting from a settled sheet, gaining any
/// sequence of non-negative amounts one call at a time leaves the same sheet
/// as gaining their total at once.
pub proof fn lemma_gain_each_is_total(p: Progress, gains: Seq<int>)
    requires
        100 <= p.threshold,
        0 <= p.experience < p.threshold,
        forall|i: int| 0 <= i < gains.len() ==> 0 <= #[trigger] gains[i],
    ensures
        gain_each(p, gains) == settle(add_experience(p, total_gain(gains))),
    decreases gains.len(),
{
    if gains.len() == 0 {
        assert(add_experience(p, 0) == p);
    } else {
        let rest = gains.drop_first();
        let q = add_experience(p, gains[0]);
        lemma_settle_monotone(q);
        lemma_gain_each_is_total(settle(q), rest);
        lemma_total_gain_nonneg(rest);
        lemma_settle_add(q, total_gain(rest));
        assert(add_experience(q, total_gain(rest)) == add_experience(p, total_gain(gains)));
    }
}

/// The effective damage of a raw hit of `amount` against `defense`: the
/// difference, floored at 1 — a hit always costs at least one health point.
pub open spec fn damage_of(amount: int, defense: int) -> int {
    if amount - defense < 1 {
        1
    } else {
        amount - defense
    }
}

/// The bonus an equipped item contributes to a stat; an empty slot adds 0.
pub open spec fn equip_bonus(slot: Option<Item>) -> int {
    match slot {
        Some(item) => item.value as int,
        None => 0,
    }
}

/// The player character and their attributes.
#[derive(Debug)]
pub struct Player {
    /// Player's name
    pub name: String,
    /// Current health points
    pub health: i32,
    /// Base attack power + equipment bonus
    pub attack: i32,
    /// Base defense + equipment bonus
    pub defense: i32,
    /// Movement and action speed
    pub speed: i32,
    /// Current level
    pub level: i32,
    /// Current experience points
    pub experience: i32,
    /// Experience needed for next level
    pub experience_to_next_level: i32,
    /// Player's inventory of items
    pub inventory: Vec<Item>,
    /// Currently equipped weapon
    pub equipped_weapon: Option<Item>,
    /// Currently equipped armor
    pub equipped_armor: Option<Item>,
}

impl Player {
    /// The numeric part of the sheet, widened to mathematical integers.
    pub open spec fn progress(self) -> Progress {
        Progress {
            health: self.health as int,
            attack: self.attack as int,
            defense: self.defense as int,
            speed: self.speed as int,
            level: self.level as int,
            experience: self.experience as int,
            threshold: self.experience_to_next_level as int,
        }
    }

    /// The stat value a player of this level has before equipment: 10 at
    /// level 1, plus 2 for every further level.
    pub open spec fn base_stat(self) -> int {
        10 + (self.level - 1) * 2
    }

    /// The stats are internally consistent: level at least 1, experience
    /// non-negative, threshold at least the starting 100, and attack,
    /// defense and speed derived from the level and the equipped items.
    pub open spec fn stats_wf(self) -> bool {
        &&& 1 <= self.level
        &&& 0 <= self.experience
        &&& 100 <= self.experience_to_next_level
        &&& self.attack == self.base_stat() + equip_bonus(self.equipped_weapon)
        &&& self.defense == self.base_stat() + equip_bonus(self.equipped_armor)
        &&& self.speed == self.base_stat()
    }

    /// Well-formed between operations: consistent stats, with the
    /// experience settled strictly below the threshold.
    pub open spec fn wf(self) -> bool {
        self.stats_wf() && self.experience < self.experience_to_next_level
    }

    /// A freshly created player with this name: the fixed starting sheet.
    pub open spec fn is_initial(self, name: Seq<char>) -> bool {
        &&& self.name@ == name
        &&& self.health == 100
        &&& self.attack == 10
        &&& self.defense == 10
        &&& self.speed == 10
        &&& self.level == 1
        &&& self.experience == 0
        &&& self.experience_to_next_level == 100
        &&& self.inventory@ == Seq::<Item>::empty()
        &&& self.equipped_weapon is None
        &&& self.equipped_armor is None
    }

    /// Everything on the sheet but the health is the same.
    pub open spec fn same_but_health(self, other: Player) -> bool {
        &&& self.name == other.name
        &&& self.attack == other.attack
        &&& self.defense == other.defense
        &&& self.speed == other.speed
        &&& self.level == other.level
        &&& self.experience == other.experience
        &&& self.experience_to_next_level == other.experience_to_next_level
        &&& self.inventory == other.inventory
        &&& self.equipped_weapon == other.equipped_weapon
        &&& self.equipped_armor == other.equipped_armor
    }

    /// Creates a new player character with default starting stats.
    pub fn new(name: String) -> (player: Player)
        ensures
            player.is_initial(name@),
            player.wf(),
    {
        Player {
            name,
            health: 100,
            attack: 10,
            defense: 10,
            speed: 10,
            level: 1,
            experience: 0,
            experience_to_next_level: 100,
            inventory: Vec::new(),
            equipped_weapon: None,
            equipped_armor: None,
        }
    }

    /// Adds experience points and applies the pending level-ups, however
    /// many one call grants. The caller keeps the settled sheet within the
    /// 32-bit fields; nothing else bounds the gain.
    pub fn gain_experience(&mut self, experience: i32)
        requires
            old(self).wf(),
            0 <= experience,
            old(self).experience + experience <= i32::MAX,
            fits_i32(settle(add_experience(old(self).progress(), experience as int))),
        ensures
            final(self).wf(),
            final(self).progress() == settle(add_experience(old(self).progress(), experience as int)),
            final(self).name == old(self).name,
            final(self).inventory == old(self).inventory,
            final(self).equipped_weapon == old(self).equipped_weapon,
            final(self).equipped_armor == old(self).equipped_armor,
    {
        self.experience = self.experience + experience;
        while self.experience >= self.experience_to_next_level
            invariant
                self.stats_wf(),
                settle(self.progress()) == settle(add_experience(old(self).progress(), experience as int)),
                fits_i32(settle(self.progress())),
                self.name == old(self).name,
                self.inventory == old(self).inventory,
                self.equipped_weapon == old(self).equipped_weapon,
                self.equipped_armor == old(self).equipped_armor,
            decreases self.experience,
        {
            proof {
                lemma_settle_monotone(level_step(self.progress()));
            }
            self.level_up();
        }
    }

    /// One level-up: raises the level and every stat, deducts the threshold
    /// from the experience, and grows the threshold by a tenth (truncated).
    fn level_up(&mut self)
        requires
            old(self).stats_wf(),
            old(self).experience >= old(self).experience_to_next_level,
            fits_i32(level_step(old(self).progress())),
        ensures
            final(self).stats_wf(),
            final(self).progress() == level_step(old(self).progress()),
            final(self).name == old(self).name,
            final(self).inventory == old(self).inventory,
            final(self).equipped_weapon == old(self).equipped_weapon,
            final(self).equipped_armor == old(self).equipped_armor,
    {
        self.level = self.level + 1;
        self.experience = self.experience - self.experience_to_next_level;
        let grown: u64 = self.experience_to_next_level as u64 * 11 / 10;
        self.experience_to_next_level = grown as i32;
        self.health = self.health + 10;
        self.attack = self.attack + 2;
        self.defense = self.defense + 2;
        self.speed = self.speed + 2;
    }

    /// Applies a hit: the effective damage is the raw amount less the
    /// defense, floored at 1. Returns true exactly when the hit leaves the
    /// player dead (health at or below zero).
    pub fn take_damage(&mut self, amount: i32) -> (died: bool)
        requires
            i32::MIN <= old(self).health - damage_of(amount as int, old(self).defense as int),
        ensures
            final(self).health == old(self).health - damage_of(amount as int, old(self).defense as int),
            died == (final(self).health <= 0),
            old(self).same_but_health(*final(self)),
    {
        let raw: i64 = amount as i64 - self.defense as i64;
        let damage: i64 = if raw < 1 { 1 } else { raw };
        self.health = (self.health as i64 - damage) as i32;
        self.health <= 0
    }

    /// Restores (or, for a negative amount, drains) health, with no cap.
    pub fn heal(&mut self, amount: i32)
        requires
            i32::MIN <= old(self).health + amount <= i32::MAX,
        ensures
            final(self).health == old(self).health + amount,
            old(self).same_but_health(*final(self)),
    {
        self.health = self.health + amount;
    }

    /// Whether the player is alive: health above zero.
    pub fn is_alive(&self) -> (alive: bool)
        ensures
            alive == (self.health > 0),
    {
        self.health > 0
    }

    /// Equips the inventory item at `inventory_index`. A weapon or armor
    /// moves into its slot; an item already in that slot returns to the end
    /// of the inventory, so a slot never holds two items and never empties
    /// without a replacement. Attack and defense are recomputed from the
    /// level and the equipment. Fails with `InvalidIndex` out of bounds and
    /// with `NotEquippable` on a potion or key, leaving the player
    /// unchanged.
    pub fn add_item(&mut self, inventory_index: usize) -> (result: Result<(), ItemError>)
        requires
            old(self).wf(),
            inventory_index < old(self).inventory@.len() ==> ({
                let it = old(self).inventory@[inventory_index as int];
                (it.item_type == ItemType::Weapon || it.item_type == ItemType::Armor)
                    ==> i32::MIN <= old(self).base_stat() + it.value <= i32::MAX
            }),
        ensures
            final(self).wf(),
            final(self).name == old(self).name,
            final(self).health == old(self).health,
            final(self).speed == old(self).speed,
            final(self).level == old(self).level,
            final(self).experience == old(self).experience,
            final(self).experience_to_next_level == old(self).experience_to_next_level,
            inventory_index >= old(self).inventory@.len() ==> {
                &&& result == Err::<(), ItemError>(ItemError::InvalidIndex)
                &&& *final(self) == *old(self)
            },
            inventory_index < old(self).inventory@.len() ==> ({
                let it = old(self).inventory@[inventory_index as int];
                match it.item_type {
                    ItemType::Weapon => {
                        &&& result == Ok::<(), ItemError>(())
                        &&& final(self).equipped_weapon == Some(it)
                        &&& final(self).equipped_armor == old(self).equipped_armor
                        &&& final(self).inventory@ == (match old(self).equipped_weapon {
                            Some(prev) => old(self).inventory@.remove(inventory_index as int).push(prev),
                            None => old(self).inventory@.remove(inventory_index as int),
                        })
                        &&& final(self).attack == old(self).base_stat() + it.value
                        &&& final(self).defense == old(self).defense
                    },
                    ItemType::Armor => {
                        &&& result == Ok::<(), ItemError>(())
                        &&& final(self).equipped_armor == Some(it)
                        &&& final(self).equipped_weapon == old(self).equipped_weapon
                        &&& final(self).inventory@ == (match old(self).equipped_armor {
                            Some(prev) => old(self).inventory@.remove(inventory_index as int).push(prev),
                            None => old(self).inventory@.remove(inventory_index as int),
                        })
                        &&& final(self).defense == old(self).base_stat() + it.value
                        &&& final(self).attack == old(self).attack
                    },
                    _ => {
                        &&& result == Err::<(), ItemError>(ItemError::NotEquippable)
                        &&& *final(self) == *old(self)
                    },
                }
            }),
    {
        if inventory_index >= self.inventory.len() {
            return Err(ItemError::InvalidIndex);
        }
        let kind: ItemType = self.inventory[inventory_index].item_type;
        match kind {
            ItemType::Weapon => {
                let item = self.inventory.remove(inventory_index);
                if let Some(prev) = self.equipped_weapon.take() {
                    self.inventory.push(prev);
                }
                self.equipped_weapon = Some(item);
                self.update_stats();
                Ok(())
            },
            ItemType::Armor => {
                let item = self.inventory.remove(inventory_index);
                if let Some(prev) = self.equipped_armor.take() {
                    self.inventory.push(prev);
                }
                self.equipped_armor = Some(item);
                self.update_stats();
                Ok(())
            },
            _ => Err(ItemError::NotEquippable),
        }
    }

    /// Consumes the potion at `inventory_index`: its value is added to the
    /// health and the potion leaves the inventory. Fails with `InvalidIndex`
    /// out of bounds and with `NotUsable` on anything but a potion, leaving
    /// the player — inventory length and order included — unchanged.
    pub fn use_item(&mut self, inventory_index: usize) -> (result: Result<(), ItemError>)
        requires
            (inventory_index < old(self).inventory@.len()
                && old(self).inventory@[inventory_index as int].item_type == ItemType::Potion)
                ==> i32::MIN <= old(self).health + old(self).inventory@[inventory_index as int].value <= i32::MAX,
        ensures
            inventory_index >= old(self).inventory@.len() ==> {
                &&& result == Err::<(), ItemError>(ItemError::InvalidIndex)
                &&& *final(self) == *old(self)
            },
            inventory_index < old(self).inventory@.len() ==> ({
                let it = old(self).inventory@[inventory_index as int];
                if it.item_type == ItemType::Potion {
                    &&& result == Ok::<(), ItemError>(())
                    &&& final(self).health == old(self).health + it.value
                    &&& final(self).inventory@ == old(self).inventory@.remove(inventory_index as int)
                    &&& final(self).name == old(self).name
                    &&& final(self).attack == old(self).attack
                    &&& final(self).defense == old(self).defense
                    &&& final(self).speed == old(self).speed
                    &&& final(self).level == old(self).level
                    &&& final(self).experience == old(self).experience
                    &&& final(self).experience_to_next_level == old(self).experience_to_next_level
                    &&& final(self).equipped_weapon == old(self).equipped_weapon
                    &&& final(self).equipped_armor == old(self).equipped_armor
                } else {
                    &&& result == Err::<(), ItemError>(ItemError::NotUsable)
                    &&& *final(self) == *old(self)
                }
            }),
    {
        if inventory_index >= self.inventory.len() {
            return Err(ItemError::InvalidIndex);
        }
        let kind: ItemType = self.inventory[inventory_index].item_type;
        match kind {
            ItemType::Potion => {
                let value: i32 = self.inventory[inventory_index].value;
                self.health = self.health + value;
                self.inventory.remove(inventory_index);
                Ok(())
            },
            _ => Err(ItemError::NotUsable),
        }
    }

    /// Recomputes attack and defense from the level and the equipped items.
    /// Idempotent: a bonus is never applied twice.
    fn update_stats(&mut self)
        requires
            i32::MIN <= 10 + (old(self).level - 1) * 2 + equip_bonus(old(self).equipped_weapon) <= i32::MAX,
            i32::MIN <= 10 + (old(self).level - 1) * 2 + equip_bonus(old(self).equipped_armor) <= i32::MAX,
        ensures
            final(self).attack == final(self).base_stat() + equip_bonus(final(self).equipped_weapon),
            final(self).defense == final(self).base_stat() + equip_bonus(final(self).equipped_armor),
            final(self).name == old(self).name,
            final(self).health == old(self).health,
            final(self).speed == old(self).speed,
            final(self).level == old(self).level,
            final(self).experience == old(self).experience,
            final(self).experience_to_next_level == old(self).experience_to_next_level,
            final(self).inventory == old(self).inventory,
            final(self).equipped_weapon == old(self).equipped_weapon,
            final(self).equipped_armor == old(self).equipped_armor,
    {
        let base: i64 = 10 + (self.level as i64 - 1) * 2;
        let mut attack: i64 = base;
        if let Some(weapon) = &self.equipped_weapon {
            attack = attack + weapon.value as i64;
        }
        self.attack = attack as i32;
        let mut defense: i64 = base;
        if let Some(armor) = &self.equipped_armor {
            defense = defense + armor.value as i64;
        }
        self.defense = defense as i32;
    }
}

} // verus!
