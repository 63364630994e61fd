use crate::inventory::Inventory;
use crate::random::{gen_range_i32, RandomGenerator};
use vstd::prelude::*;

verus! {

/// Bonuses the player can pick up.
#[derive(Copy, Clone, Debug, PartialEq, Eq, Structural)]
pub enum Items {
    /// Speed +50%
    SpeedBonus,
    /// Crit chance +10%
    CritChance,
    /// Crit dmg +0.10 (10%)
    CritDmg,
    /// Base Damage +10%
    BaseDmg,
    /// Shield +1
    ShieldUp,
    /// Health +1
    HealthUp,
    /// Shoot random Missiles when firing
    Missile,
}

/// A capsule holding an item.
#[derive(Copy, Clone, Debug)]
pub struct Pickup {
    pub item: Items,
}

/// Scrap the player pays to pick up an item.
pub const PICKUP_COST: u32 = 50;

/// Text shown when the item is picked up.
pub open spec fn item_text(item: Items) -> Seq<char> {
    match item {
        Items::BaseDmg => "Base Damage Up"@,
        Items::SpeedBonus => "Speed +50%"@,
        Items::CritChance => "Crit Chance +10%"@,
        Items::CritDmg => "Crit Damage +10%"@,
        Items::ShieldUp => "Shield Up"@,
        Items::HealthUp => "Health Up"@,
        Items::Missile => "Missile Spray"@,
    }
}

/// The item drawn for a number of `[0, 7)`.
pub open spec fn item_of_roll(n: i32) -> Items {
    if n == 0 {
        Items::SpeedBonus
    } else if n == 1 {
        Items::CritChance
    } else if n == 2 {
        Items::CritDmg
    } else if n == 3 {
        Items::Missile
    } else if n == 4 {
        Items::ShieldUp
    } else if n == 5 {
        Items::BaseDmg
    } else {
        Items::HealthUp
    }
}

impl Items {
    pub fn info_text(&self) -> (r: String)
        ensures
            r@ == item_text(*self),
    {
        match self {
            Items::BaseDmg => "Base Damage Up",
            Items::SpeedBonus => "Speed +50%",
            Items::CritChance => "Crit Chance +10%",
            Items::CritDmg => "Crit Damage +10%",
            Items::ShieldUp => "Shield Up",
            Items::HealthUp => "Health Up",
            Items::Missile => "Missile Spray",
        }.to_owned()
    }

    /// The item drawn for `n`.
    pub fn from_roll(n: i32) -> (r: Items)
        ensures
            r == item_of_roll(n),
    {
        match n {
            0 => Items::SpeedBonus,
            1 => Items::CritChance,
            2 => Items::CritDmg,
            3 => Items::Missile,
            4 => Items::ShieldUp,
            5 => Items::BaseDmg,
            _ => Items::HealthUp,
        }
    }

    /// An item drawn at random, each with the same chance.
    pub fn random(random: &mut RandomGenerator) -> (r: Items)
        ensures
            exists|n: i32| 0 <= n < 7 && r == item_of_roll(n),
    {
        let n = gen_range_i32(random.rng(), 0, 7);
        Items::from_roll(n)
    }
}

impl Pickup {
    /// The player, touching the capsule, asks to pick it up: when he has the scrap, he
    /// pays `PICKUP_COST` and gets the item. Nothing happens otherwise.
    pub fn try_pick_up(&self, inventory: &mut Inventory, pickup_pressed: bool, touching: bool) -> (r: bool)
        ensures
            r == (pickup_pressed && touching && PICKUP_COST <= old(inventory).spec_scratch()),
            r ==> final(inventory).spec_scratch() == old(inventory).spec_scratch() - PICKUP_COST,
            !r ==> final(inventory).spec_scratch() == old(inventory).spec_scratch(),
    {
        if pickup_pressed && touching {
            inventory.remove_scratch(PICKUP_COST).is_ok()
        } else {
            false
        }
    }
}

} // verus!
