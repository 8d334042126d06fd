//! The per-stat upgrade levels of a robot and the stat tables they index.

use vstd::prelude::*;

use crate::resource::Resource;
use crate::robot_level::RobotLevel;
use crate::robot_level::spec_level_value;

verus! {

/// The upgrade level of each robot stat.
#[derive(Clone, Copy, Debug, PartialEq, Eq, Structural, Hash)]
pub struct RobotLevels {
    pub health_level: RobotLevel,
    pub damage_level: RobotLevel,
    pub mining_level: RobotLevel,
    pub mining_speed_level: RobotLevel,
    pub energy_level: RobotLevel,
    pub energy_regen_level: RobotLevel,
    pub storage_level: RobotLevel,
}

/// Price of buying an upgrade to the given level.
pub open spec fn spec_cost_for_level(l: RobotLevel) -> u32 {
    match l {
        RobotLevel::LEVEL0 => 0,
        RobotLevel::LEVEL1 => 50,
        RobotLevel::LEVEL2 => 300,
        RobotLevel::LEVEL3 => 1500,
        RobotLevel::LEVEL4 => 4000,
        RobotLevel::LEVEL5 => 15000,
    }
}

/// Health ceiling for a health level.
pub open spec fn spec_health_for_level(l: RobotLevel) -> u32 {
    match l {
        RobotLevel::LEVEL0 => 10,
        RobotLevel::LEVEL1 => 25,
        RobotLevel::LEVEL2 => 50,
        RobotLevel::LEVEL3 => 100,
        RobotLevel::LEVEL4 => 200,
        RobotLevel::LEVEL5 => 500,
    }
}

/// Damage dealt by one attack for a damage level.
pub open spec fn spec_damage_for_level(l: RobotLevel) -> u32 {
    match l {
        RobotLevel::LEVEL0 => 1,
        RobotLevel::LEVEL1 => 2,
        RobotLevel::LEVEL2 => 5,
        RobotLevel::LEVEL3 => 10,
        RobotLevel::LEVEL4 => 20,
        RobotLevel::LEVEL5 => 50,
    }
}

/// Units mined per round for a mining-speed level.
pub open spec fn spec_mining_amount_for_level(l: RobotLevel) -> u32 {
    match l {
        RobotLevel::LEVEL0 => 2,
        RobotLevel::LEVEL1 => 5,
        RobotLevel::LEVEL2 => 10,
        RobotLevel::LEVEL3 => 15,
        RobotLevel::LEVEL4 => 20,
        RobotLevel::LEVEL5 => 40,
    }
}

/// Energy ceiling for an energy level.
pub open spec fn spec_energy_for_level(l: RobotLevel) -> u32 {
    match l {
        RobotLevel::LEVEL0 => 20,
        RobotLevel::LEVEL1 => 30,
        RobotLevel::LEVEL2 => 40,
        RobotLevel::LEVEL3 => 60,
        RobotLevel::LEVEL4 => 100,
        RobotLevel::LEVEL5 => 200,
    }
}

/// Energy regained per regeneration for an energy-regen level.
pub open spec fn spec_energy_regen_for_level(l: RobotLevel) -> u32 {
    match l {
        RobotLevel::LEVEL0 => 4,
        RobotLevel::LEVEL1 => 6,
        RobotLevel::LEVEL2 => 8,
        RobotLevel::LEVEL3 => 10,
        RobotLevel::LEVEL4 => 15,
        RobotLevel::LEVEL5 => 20,
    }
}

/// Storage ceiling for a storage level.
pub open spec fn spec_storage_for_level(l: RobotLevel) -> u32 {
    match l {
        RobotLevel::LEVEL0 => 20,
        RobotLevel::LEVEL1 => 50,
        RobotLevel::LEVEL2 => 100,
        RobotLevel::LEVEL3 => 200,
        RobotLevel::LEVEL4 => 400,
        RobotLevel::LEVEL5 => 1000,
    }
}

/// Whether a mining level may mine the given resource: each level unlocks
/// the next resource of the progression, and the top two levels cover all.
pub open spec fn spec_can_mine(mining_level: RobotLevel, r: Resource) -> bool {
    spec_resource_rank(r) <= spec_level_value(mining_level)
}

/// The resources a mining level can mine, cheapest first.
pub open spec fn spec_minable_seq(l: RobotLevel) -> Seq<Resource> {
    match l {
        RobotLevel::LEVEL0 => seq![Resource::COAL],
        RobotLevel::LEVEL1 => seq![Resource::COAL, Resource::IRON],
        RobotLevel::LEVEL2 => seq![Resource::COAL, Resource::IRON, Resource::GEM],
        RobotLevel::LEVEL3 => seq![
            Resource::COAL,
            Resource::IRON,
            Resource::GEM,
            Resource::GOLD,
        ],
        RobotLevel::LEVEL4 => seq![
            Resource::COAL,
            Resource::IRON,
            Resource::GEM,
            Resource::GOLD,
            Resource::PLATINUM,
        ],
        RobotLevel::LEVEL5 => seq![
            Resource::COAL,
            Resource::IRON,
            Resource::GEM,
            Resource::GOLD,
            Resource::PLATINUM,
        ],
    }
}

/// Position of a resource in the mining progression: each mining level up to
/// four unlocks one further resource, and the top level unlocks nothing new.
pub open spec fn spec_resource_rank(r: Resource) -> u32 {
    match r {
        Resource::COAL => 0,
        Resource::IRON => 1,
        Resource::GEM => 2,
        Resource::GOLD => 3,
        Resource::PLATINUM => 4,
    }
}

impl RobotLevels {
    /// Price of buying an upgrade to `level`.
    pub fn get_cost_for_level(level: &RobotLevel) -> (r: u32)
        ensures
            r == spec_cost_for_level(*level),
    {
        match level {
            RobotLevel::LEVEL0 => 0,
            RobotLevel::LEVEL1 => 50,
            RobotLevel::LEVEL2 => 300,
            RobotLevel::LEVEL3 => 1500,
            RobotLevel::LEVEL4 => 4000,
            RobotLevel::LEVEL5 => 15000,
        }
    }

    /// Health ceiling for the current health level.
    pub fn get_health_for_level(&self) -> (r: u32)
        ensures
            r == spec_health_for_level(self.health_level),
    {
        match self.health_level {
            RobotLevel::LEVEL0 => 10,
            RobotLevel::LEVEL1 => 25,
            RobotLevel::LEVEL2 => 50,
            RobotLevel::LEVEL3 => 100,
            RobotLevel::LEVEL4 => 200,
            RobotLevel::LEVEL5 => 500,
        }
    }

    /// Damage dealt by one attack at the current damage level.
    pub fn get_damage_for_level(&self) -> (r: u32)
        ensures
            r == spec_damage_for_level(self.damage_level),
    {
        match self.damage_level {
            RobotLevel::LEVEL0 => 1,
            RobotLevel::LEVEL1 => 2,
            RobotLevel::LEVEL2 => 5,
            RobotLevel::LEVEL3 => 10,
            RobotLevel::LEVEL4 => 20,
            RobotLevel::LEVEL5 => 50,
        }
    }

    /// Units mined per round at the current mining-speed level.
    pub fn get_mining_amount_for_level(&self) -> (r: u32)
        ensures
            r == spec_mining_amount_for_level(self.mining_speed_level),
    {
        match self.mining_speed_level {
            RobotLevel::LEVEL0 => 2,
            RobotLevel::LEVEL1 => 5,
            RobotLevel::LEVEL2 => 10,
            RobotLevel::LEVEL3 => 15,
            RobotLevel::LEVEL4 => 20,
            RobotLevel::LEVEL5 => 40,
        }
    }

    /// The resources the current mining level can mine, cheapest first.
    pub fn get_minable_resoures(&self) -> (r: Vec<Resource>)
        ensures
            r@ == spec_minable_seq(self.mining_level),
    {
        let mut resources: Vec<Resource> = Vec::new();
        resources.push(Resource::COAL);
        if self.mining_level.get_int_value() >= 1 {
            resources.push(Resource::IRON);
        }
        let v: u32 = self.mining_level.get_int_value();
        if v >= 2 {
            resources.push(Resource::GEM);
        }
        if v >= 3 {
            resources.push(Resource::GOLD);
        }
        if v >= 4 {
            resources.push(Resource::PLATINUM);
        }
        proof {
            assert(resources@ =~= spec_minable_seq(self.mining_level));
        }
        resources
    }

    /// Whether the current mining level may mine the given resource.
    pub fn can_mine(&self, res: &Resource) -> (r: bool)
        ensures
            r == spec_can_mine(self.mining_level, *res),
    {
        let rank: u32 = match res {
            Resource::COAL => 0,
            Resource::IRON => 1,
            Resource::GEM => 2,
            Resource::GOLD => 3,
            Resource::PLATINUM => 4,
        };
        rank <= self.mining_level.get_int_value()
    }

    /// Energy ceiling for the current energy level.
    pub fn get_energy_for_level(&self) -> (r: u32)
        ensures
            r == spec_energy_for_level(self.energy_level),
    {
        match self.energy_level {
            RobotLevel::LEVEL0 => 20,
            RobotLevel::LEVEL1 => 30,
            RobotLevel::LEVEL2 => 40,
            RobotLevel::LEVEL3 => 60,
            RobotLevel::LEVEL4 => 100,
            RobotLevel::LEVEL5 => 200,
        }
    }

    /// Energy regained per regeneration at the current energy-regen level.
    pub fn get_energy_regen_for_level(&self) -> (r: u32)
        ensures
            r == spec_energy_regen_for_level(self.energy_regen_level),
    {
        match self.energy_regen_level {
            RobotLevel::LEVEL0 => 4,
            RobotLevel::LEVEL1 => 6,
            RobotLevel::LEVEL2 => 8,
            RobotLevel::LEVEL3 => 10,
            RobotLevel::LEVEL4 => 15,
            RobotLevel::LEVEL5 => 20,
        }
    }

    /// Storage ceiling for the current storage level.
    pub fn get_storage_for_level(&self) -> (r: u32)
        ensures
            r == spec_storage_for_level(self.storage_level),
    {
        match self.storage_level {
            RobotLevel::LEVEL0 => 20,
            RobotLevel::LEVEL1 => 50,
            RobotLevel::LEVEL2 => 100,
            RobotLevel::LEVEL3 => 200,
            RobotLevel::LEVEL4 => 400,
            RobotLevel::LEVEL5 => 1000,
        }
    }
}

/// All stats at the lowest level.
pub open spec fn spec_default_levels() -> RobotLevels {
    RobotLevels {
        health_level: RobotLevel::LEVEL0,
        damage_level: RobotLevel::LEVEL0,
        mining_level: RobotLevel::LEVEL0,
        mining_speed_level: RobotLevel::LEVEL0,
        energy_level: RobotLevel::LEVEL0,
        energy_regen_level: RobotLevel::LEVEL0,
        storage_level: RobotLevel::LEVEL0,
    }
}

impl Default for RobotLevels {
    /// New robots start every stat at the lowest level.
    fn default() -> (r: Self)
        ensures
            r == spec_default_levels(),
    {
        RobotLevels {
            health_level: RobotLevel::LEVEL0,
            damage_level: RobotLevel::LEVEL0,
            mining_level: RobotLevel::LEVEL0,
            mining_speed_level: RobotLevel::LEVEL0,
            energy_level: RobotLevel::LEVEL0,
            energy_regen_level: RobotLevel::LEVEL0,
            storage_level: RobotLevel::LEVEL0,
        }
    }
}

} // verus!
