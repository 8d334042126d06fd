//! Derived stat values of a robot, computed from its upgrade levels.

use vstd::prelude::*;

use crate::resource::Resource;
use crate::robot_levels::RobotLevels;
use crate::robot_levels::spec_damage_for_level;
use crate::robot_levels::spec_default_levels;
use crate::robot_levels::spec_energy_for_level;
use crate::robot_levels::spec_energy_regen_for_level;
use crate::robot_levels::spec_health_for_level;
use crate::robot_levels::spec_minable_seq;
use crate::robot_levels::spec_mining_amount_for_level;
use crate::robot_levels::spec_storage_for_level;

verus! {

/// The concrete stat values implied by a set of upgrade levels.
#[derive(Clone, Debug)]
pub struct RobotStats {
    pub damage: u32,
    pub max_health: u32,
    pub max_energy: u32,
    pub energy_regen: u32,
    pub mining_speed: u32,
    pub max_storage: u32,
    pub mineable_resources: Vec<Resource>,
}

/// Whether `stats` is exactly what `levels` implies.
pub open spec fn spec_stats_match(stats: RobotStats, levels: RobotLevels) -> bool {
    &&& stats.damage == spec_damage_for_level(levels.damage_level)
    &&& stats.max_health == spec_health_for_level(levels.health_level)
    &&& stats.max_energy == spec_energy_for_level(levels.energy_level)
    &&& stats.energy_regen == spec_energy_regen_for_level(levels.energy_regen_level)
    &&& stats.mining_speed == spec_mining_amount_for_level(levels.mining_speed_level)
    &&& stats.max_storage == spec_storage_for_level(levels.storage_level)
    &&& stats.mineable_resources@ == spec_minable_seq(levels.mining_level)
}

impl RobotStats {
    /// Reads every stat value off the given levels.
    pub fn from_robot_levels(levels: &RobotLevels) -> (r: RobotStats)
        ensures
            spec_stats_match(r, *levels),
    {
        RobotStats {
            damage: levels.get_damage_for_level(),
            max_health: levels.get_health_for_level(),
            max_energy: levels.get_energy_for_level(),
            energy_regen: levels.get_energy_regen_for_level(),
            mining_speed: levels.get_mining_amount_for_level(),
            max_storage: levels.get_storage_for_level(),
            mineable_resources: levels.get_minable_resoures(),
        }
    }
}

impl Default for RobotStats {
    /// The stats of a freshly bought robot.
    fn default() -> (r: Self)
        ensures
            spec_stats_match(r, spec_default_levels()),
    {
        RobotStats::from_robot_levels(&RobotLevels::default())
    }
}

} // verus!
