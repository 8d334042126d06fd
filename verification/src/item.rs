//! What a buy command's item name denotes: a stat upgrade, or a purchasable
//! item (robots and restores), with the parsing of item names.

use vstd::prelude::*;

use crate::robot_level::RobotLevel;
use crate::text::chars_eq_str;
use crate::text::find_last_underscore;
use crate::text::last_underscore;
use crate::text::lower_chars;
use crate::text::range_eq_str;
use crate::text::to_lower_chars;

verus! {

/// What a parsed item name denotes.
#[derive(Clone, Copy, Debug, PartialEq, Eq, Structural)]
pub enum UpgradeOrItem {
    Upgrade(UpgradeType, RobotLevel),
    Item(Item),
}

/// The robot stat an upgrade applies to.
#[derive(Clone, Copy, Debug, PartialEq, Eq, Structural)]
pub enum UpgradeType {
    Health,
    Energy,
    EnergyRegen,
    Damage,
    Mining,
    MiningSpeed,
    Storage,
}

/// A purchasable item: robots (with a quantity), or a restore.
#[derive(Clone, Copy, Debug, PartialEq, Eq, Structural)]
pub enum Item {
    Robot(u16),
    HealthRestore,
    EnergyRestore,
}

/// Price of an item.
pub open spec fn spec_item_cost(it: Item) -> int {
    match it {
        Item::Robot(i) => 100 * i,
        Item::HealthRestore => 75,
        Item::EnergyRestore => 50,
    }
}

impl Item {
    /// Price of this item.
    pub fn get_cost(&self) -> (r: u32)
        ensures
            r == spec_item_cost(*self),
    {
        match self {
            Item::Robot(i) => 100 * (*i as u32),
            Item::HealthRestore => 75,
            Item::EnergyRestore => 50,
        }
    }
}

/// Which upgrade type, if any, a lower-cased name prefix denotes.
pub open spec fn spec_upgrade_type(p: Seq<char>) -> Option<UpgradeType> {
    if p == "health"@ {
        Some(UpgradeType::Health)
    } else if p == "energy"@ {
        Some(UpgradeType::Energy)
    } else if p == "energy_regen"@ {
        Some(UpgradeType::EnergyRegen)
    } else if p == "damage"@ {
        Some(UpgradeType::Damage)
    } else if p == "mining"@ {
        Some(UpgradeType::Mining)
    } else if p == "mining_speed"@ {
        Some(UpgradeType::MiningSpeed)
    } else if p == "storage"@ {
        Some(UpgradeType::Storage)
    } else {
        None
    }
}

/// Which level, if any, a name suffix denotes.
pub open spec fn spec_level_from_chars(s: Seq<char>) -> Option<RobotLevel> {
    if s == "1"@ {
        Some(RobotLevel::LEVEL1)
    } else if s == "2"@ {
        Some(RobotLevel::LEVEL2)
    } else if s == "3"@ {
        Some(RobotLevel::LEVEL3)
    } else if s == "4"@ {
        Some(RobotLevel::LEVEL4)
    } else if s == "5"@ {
        Some(RobotLevel::LEVEL5)
    } else {
        None
    }
}

/// What an item name means: names are case folded, the fixed item names are
/// tried first, and anything else is read as an upgrade name of the shape
/// `<stat>_<level>`, split at its last underscore.
pub open spec fn spec_parse_item_name(s: Seq<char>, amount: u16) -> Option<UpgradeOrItem> {
    let low = lower_chars(s);
    if low == "robot"@ {
        Some(UpgradeOrItem::Item(Item::Robot(amount)))
    } else if low == "health_restore"@ {
        Some(UpgradeOrItem::Item(Item::HealthRestore))
    } else if low == "energy_restore"@ {
        Some(UpgradeOrItem::Item(Item::EnergyRestore))
    } else {
        match last_underscore(low) {
            None => None,
            Some(k) => {
                match (spec_upgrade_type(low.take(k)), spec_level_from_chars(
                    low.skip(k + 1),
                )) {
                    (Some(t), Some(l)) => Some(UpgradeOrItem::Upgrade(t, l)),
                    _ => None,
                }
            },
        }
    }
}

/// Parses a buy command's item name.
pub fn parse_item_name(item_name: &str, amount: u16) -> (r: Option<UpgradeOrItem>)
    ensures
        r == spec_parse_item_name(item_name@, amount),
{
    let low: Vec<char> = to_lower_chars(item_name);
    if chars_eq_str(&low, "robot") {
        return Some(UpgradeOrItem::Item(Item::Robot(amount)));
    }
    if chars_eq_str(&low, "health_restore") {
        return Some(UpgradeOrItem::Item(Item::HealthRestore));
    }
    if chars_eq_str(&low, "energy_restore") {
        return Some(UpgradeOrItem::Item(Item::EnergyRestore));
    }
    match find_last_underscore(&low) {
        None => None,
        Some(k) => {
            let n: usize = low.len();
            proof {
                assert(low@.take(k as int) =~= low@.subrange(0, k as int));
                assert(low@.skip(k + 1) =~= low@.subrange(k + 1, n as int));
            }
            let t: Option<UpgradeType> = if range_eq_str(&low, 0, k, "health") {
                Some(UpgradeType::Health)
            } else if range_eq_str(&low, 0, k, "energy") {
                Some(UpgradeType::Energy)
            } else if range_eq_str(&low, 0, k, "energy_regen") {
                Some(UpgradeType::EnergyRegen)
            } else if range_eq_str(&low, 0, k, "damage") {
                Some(UpgradeType::Damage)
            } else if range_eq_str(&low, 0, k, "mining") {
                Some(UpgradeType::Mining)
            } else if range_eq_str(&low, 0, k, "mining_speed") {
                Some(UpgradeType::MiningSpeed)
            } else if range_eq_str(&low, 0, k, "storage") {
                Some(UpgradeType::Storage)
            } else {
                None
            };
            let l: Option<RobotLevel> = if range_eq_str(&low, k + 1, n, "1") {
                Some(RobotLevel::LEVEL1)
            } else if range_eq_str(&low, k + 1, n, "2") {
                Some(RobotLevel::LEVEL2)
            } else if range_eq_str(&low, k + 1, n, "3") {
                Some(RobotLevel::LEVEL3)
            } else if range_eq_str(&low, k + 1, n, "4") {
                Some(RobotLevel::LEVEL4)
            } else if range_eq_str(&low, k + 1, n, "5") {
                Some(RobotLevel::LEVEL5)
            } else {
                None
            };
            match (t, l) {
                (Some(t), Some(l)) => Some(UpgradeOrItem::Upgrade(t, l)),
                _ => None,
            }
        },
    }
}

} // verus!
