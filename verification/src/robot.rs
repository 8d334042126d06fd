//! Robots: the mobile units players own, with health, energy, levels and
//! an inventory of mined resources.

use vstd::prelude::*;

use crate::resource::Resource;
use crate::resource::spec_selling_value;
use crate::robot_levels::RobotLevels;
use crate::robot_levels::spec_default_levels;
use crate::robot_levels::spec_energy_for_level;
use crate::robot_levels::spec_energy_regen_for_level;
use crate::robot_levels::spec_health_for_level;
use crate::robot_levels::spec_minable_seq;
use crate::robot_levels::spec_storage_for_level;

verus! {

/// How much of each resource a robot carries.
#[derive(Clone, Copy, Debug, PartialEq, Eq, Structural, Hash)]
pub struct Inventory {
    pub coal: u32,
    pub iron: u32,
    pub gem: u32,
    pub gold: u32,
    pub platinum: u32,
}

impl Inventory {
    /// The amount held of one resource.
    pub open spec fn spec_amount_of(self, r: Resource) -> u32 {
        match r {
            Resource::COAL => self.coal,
            Resource::IRON => self.iron,
            Resource::GEM => self.gem,
            Resource::GOLD => self.gold,
            Resource::PLATINUM => self.platinum,
        }
    }

    /// Total number of units held, over all resources.
    pub open spec fn spec_total(self) -> int {
        self.coal + self.iron + self.gem + self.gold + self.platinum
    }

    /// Sale value of the whole inventory: unit price times quantity, summed.
    pub open spec fn spec_value(self) -> int {
        spec_selling_value(Resource::COAL) * self.coal
            + spec_selling_value(Resource::IRON) * self.iron
            + spec_selling_value(Resource::GEM) * self.gem
            + spec_selling_value(Resource::GOLD) * self.gold
            + spec_selling_value(Resource::PLATINUM) * self.platinum
    }

    /// An inventory holding nothing.
    pub open spec fn spec_empty() -> Inventory {
        Inventory { coal: 0, iron: 0, gem: 0, gold: 0, platinum: 0 }
    }

    /// The inventory with `amount` more units of `r`.
    pub open spec fn spec_add(self, r: Resource, amount: u32) -> Inventory {
        match r {
            Resource::COAL => Inventory { coal: (self.coal + amount) as u32, ..self },
            Resource::IRON => Inventory { iron: (self.iron + amount) as u32, ..self },
            Resource::GEM => Inventory { gem: (self.gem + amount) as u32, ..self },
            Resource::GOLD => Inventory { gold: (self.gold + amount) as u32, ..self },
            Resource::PLATINUM => Inventory {
                platinum: (self.platinum + amount) as u32,
                ..self
            },
        }
    }

    /// Creates an empty inventory.
    pub fn new() -> (r: Inventory)
        ensures
            r == Inventory::spec_empty(),
    {
        Inventory { coal: 0, iron: 0, gem: 0, gold: 0, platinum: 0 }
    }

    /// The amount held of one resource.
    pub fn amount_of(&self, r: &Resource) -> (a: u32)
        ensures
            a == self.spec_amount_of(*r),
    {
        match r {
            Resource::COAL => self.coal,
            Resource::IRON => self.iron,
            Resource::GEM => self.gem,
            Resource::GOLD => self.gold,
            Resource::PLATINUM => self.platinum,
        }
    }

    /// Whether nothing at all is held.
    pub fn is_empty(&self) -> (r: bool)
        ensures
            r == (self.spec_total() == 0),
    {
        self.coal == 0 && self.iron == 0 && self.gem == 0 && self.gold == 0
            && self.platinum == 0
    }

    /// Adds `amount` units of `r`.
    pub fn add(&mut self, r: &Resource, amount: u32)
        requires
            old(self).spec_total() + amount <= u32::MAX,
        ensures
            final(self).spec_amount_of(*r) == old(self).spec_amount_of(*r) + amount,
            forall|other: Resource| other != *r ==>
                final(self).spec_amount_of(other) == old(self).spec_amount_of(other),
            final(self).spec_total() == old(self).spec_total() + amount,
            *final(self) == old(self).spec_add(*r, amount),
    {
        match r {
            Resource::COAL => self.coal = self.coal + amount,
            Resource::IRON => self.iron = self.iron + amount,
            Resource::GEM => self.gem = self.gem + amount,
            Resource::GOLD => self.gold = self.gold + amount,
            Resource::PLATINUM => self.platinum = self.platinum + amount,
        }
    }

    /// Empties the inventory.
    pub fn clear(&mut self)
        ensures
            *final(self) == Inventory::spec_empty(),
    {
        self.coal = 0;
        self.iron = 0;
        self.gem = 0;
        self.gold = 0;
        self.platinum = 0;
    }

    /// Total number of units held.
    pub fn total(&self) -> (t: u32)
        requires
            self.spec_total() <= u32::MAX,
        ensures
            t == self.spec_total(),
    {
        self.coal + self.iron + self.gem + self.gold + self.platinum
    }

    /// Sale value of the whole inventory.
    pub fn value(&self) -> (v: u32)
        requires
            self.spec_value() <= u32::MAX,
        ensures
            v == self.spec_value(),
    {
        5 * self.coal + 15 * self.iron + 30 * self.gem + 50 * self.gold
            + 60 * self.platinum
    }
}

/// A player-owned robot.
#[derive(Clone, Copy, Debug)]
pub struct Robot {
    pub robot_id: u64,
    pub planet_id: u64,
    pub health: u32,
    pub energy: u32,
    pub levels: RobotLevels,
    pub inventory: Inventory,
    pub money_made: u32,
}

/// A freshly bought robot on the given planet: all levels at zero, health
/// and energy at their ceilings, nothing stored, nothing earned.
pub open spec fn spec_spawn(robot_id: u64, planet_id: u64) -> Robot {
    Robot {
        robot_id,
        planet_id,
        health: spec_health_for_level(spec_default_levels().health_level),
        energy: spec_energy_for_level(spec_default_levels().energy_level),
        levels: spec_default_levels(),
        inventory: Inventory::spec_empty(),
        money_made: 0,
    }
}

impl Robot {
    /// Health and energy stay at or below the ceiling of their level, and
    /// the inventory fits the storage ceiling.
    pub open spec fn wf(self) -> bool {
        &&& self.health <= spec_health_for_level(self.levels.health_level)
        &&& self.energy <= spec_energy_for_level(self.levels.energy_level)
        &&& self.inventory.spec_total() <= spec_storage_for_level(self.levels.storage_level)
    }

    /// A robot is alive while its health is positive.
    pub open spec fn spec_alive(self) -> bool {
        self.health > 0
    }

    /// Storage ceiling of the current storage level.
    pub open spec fn spec_max_storage(self) -> u32 {
        spec_storage_for_level(self.levels.storage_level)
    }

    /// Free storage space left.
    pub open spec fn spec_free_storage(self) -> int {
        self.spec_max_storage() - self.inventory.spec_total()
    }

    /// A freshly bought robot on the given planet, all levels at zero and
    /// health and energy at their ceilings.
    pub fn new(robot_id: u64, planet_id: u64) -> (r: Robot)
        ensures
            r == spec_spawn(robot_id, planet_id),
            r.wf(),
    {
        let levels = RobotLevels::default();
        Robot {
            robot_id,
            planet_id,
            health: levels.get_health_for_level(),
            energy: levels.get_energy_for_level(),
            levels,
            inventory: Inventory::new(),
            money_made: 0,
        }
    }

    /// Whether the robot is still alive.
    pub fn is_alive(&self) -> (r: bool)
        ensures
            r == self.spec_alive(),
    {
        self.health > 0
    }

    /// Whether no storage space is left.
    pub fn is_storage_full(&self) -> (r: bool)
        requires
            self.wf(),
        ensures
            r == (self.spec_free_storage() == 0),
    {
        self.get_free_storage_space() == 0
    }

    /// Restores energy by the regeneration amount of the current level, up
    /// to the energy ceiling.  Dead robots do not regenerate.
    pub fn regenerate(&mut self)
        requires
            old(self).wf(),
        ensures
            final(self).wf(),
            old(self).spec_alive() ==> *final(self) == (Robot {
                energy: if old(self).energy + spec_energy_regen_for_level(
                    old(self).levels.energy_regen_level,
                ) > spec_energy_for_level(old(self).levels.energy_level) {
                    spec_energy_for_level(old(self).levels.energy_level)
                } else {
                    (old(self).energy + spec_energy_regen_for_level(
                        old(self).levels.energy_regen_level,
                    )) as u32
                },
                ..*old(self)
            }),
            !old(self).spec_alive() ==> *final(self) == *old(self),
    {
        if !self.is_alive() {
            return;
        }
        let cap: u32 = self.levels.get_energy_for_level();
        let regen: u32 = self.levels.get_energy_regen_for_level();
        if self.energy > cap - regen {
            self.energy = cap;
        } else {
            self.energy = self.energy + regen;
        }
    }

    /// Units currently stored.
    pub fn get_used_storage_space(&self) -> (r: u32)
        requires
            self.wf(),
        ensures
            r == self.inventory.spec_total(),
    {
        self.inventory.total()
    }

    /// Sale value of the inventory.
    pub fn get_storage_value(&self) -> (r: u32)
        requires
            self.wf(),
        ensures
            r == self.inventory.spec_value(),
    {
        proof {
            assert(self.inventory.spec_value() == 5 * self.inventory.coal
                + 15 * self.inventory.iron + 30 * self.inventory.gem
                + 50 * self.inventory.gold + 60 * self.inventory.platinum);
            assert(spec_storage_for_level(self.levels.storage_level) <= 1000);
        }
        self.inventory.value()
    }

    /// Storage space left.
    pub fn get_free_storage_space(&self) -> (r: u32)
        requires
            self.wf(),
        ensures
            r == self.spec_free_storage(),
    {
        self.levels.get_storage_for_level() - self.inventory.total()
    }

    /// Puts mined resources into the inventory.
    pub fn add_resource_to_inventory(&mut self, resource: &Resource, amount: &u32)
        requires
            old(self).wf(),
            amount <= old(self).spec_free_storage(),
        ensures
            final(self).wf(),
            *final(self) == (Robot {
                inventory: final(self).inventory,
                ..*old(self)
            }),
            final(self).inventory.spec_amount_of(*resource)
                == old(self).inventory.spec_amount_of(*resource) + *amount,
            forall|other: Resource| other != *resource ==>
                final(self).inventory.spec_amount_of(other)
                    == old(self).inventory.spec_amount_of(other),
            final(self).inventory.spec_total()
                == old(self).inventory.spec_total() + *amount,
            *final(self) == (Robot {
                inventory: old(self).inventory.spec_add(*resource, *amount),
                ..*old(self)
            }),
    {
        self.inventory.add(resource, *amount);
    }

    /// Deals damage to the robot; health never goes below zero.
    pub fn take_damage(&mut self, amount: u32)
        ensures
            *final(self) == (Robot {
                health: if amount < old(self).health {
                    (old(self).health - amount) as u32
                } else {
                    0
                },
                ..*old(self)
            }),
            old(self).wf() ==> final(self).wf(),
    {
        if amount < self.health {
            self.health = self.health - amount;
        } else {
            self.health = 0;
        }
    }

    /// The resources this robot's mining level can mine.
    pub fn get_mineable_resources(&self) -> (r: Vec<Resource>)
        ensures
            r@ == spec_minable_seq(self.levels.mining_level),
    {
        self.levels.get_minable_resoures()
    }
}

} // verus!
