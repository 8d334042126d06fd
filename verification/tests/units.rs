use robo_rounds::direction::Direction;
use robo_rounds::resource::Resource;
use robo_rounds::robot::Inventory;
use robo_rounds::robot::Robot;
use robo_rounds::robot_level::RobotLevel;
use robo_rounds::robot_levels::RobotLevels;
use robo_rounds::robot_stats::RobotStats;

fn levels_all(l: RobotLevel) -> RobotLevels {
    RobotLevels {
        health_level: l,
        damage_level: l,
        mining_level: l,
        mining_speed_level: l,
        energy_level: l,
        energy_regen_level: l,
        storage_level: l,
    }
}

#[test]
fn test_selling_values() {
    assert_eq!(Resource::COAL.get_selling_value(), 5);
    assert_eq!(Resource::IRON.get_selling_value(), 15);
    assert_eq!(Resource::GEM.get_selling_value(), 30);
    assert_eq!(Resource::GOLD.get_selling_value(), 50);
    assert_eq!(Resource::PLATINUM.get_selling_value(), 60);
}

#[test]
fn test_level_tables() {
    let l0 = levels_all(RobotLevel::LEVEL0);
    let l5 = levels_all(RobotLevel::LEVEL5);
    assert_eq!(l0.get_health_for_level(), 10);
    assert_eq!(l5.get_health_for_level(), 500);
    assert_eq!(l0.get_damage_for_level(), 1);
    assert_eq!(levels_all(RobotLevel::LEVEL1).get_damage_for_level(), 2);
    assert_eq!(l5.get_damage_for_level(), 50);
    assert_eq!(l0.get_energy_for_level(), 20);
    assert_eq!(l5.get_energy_for_level(), 200);
    assert_eq!(l0.get_energy_regen_for_level(), 4);
    assert_eq!(l5.get_energy_regen_for_level(), 20);
    assert_eq!(l0.get_mining_amount_for_level(), 2);
    assert_eq!(levels_all(RobotLevel::LEVEL2).get_mining_amount_for_level(), 10);
    assert_eq!(l0.get_storage_for_level(), 20);
    assert_eq!(l5.get_storage_for_level(), 1000);
    assert_eq!(RobotLevels::get_cost_for_level(&RobotLevel::LEVEL0), 0);
    assert_eq!(RobotLevels::get_cost_for_level(&RobotLevel::LEVEL1), 50);
    assert_eq!(RobotLevels::get_cost_for_level(&RobotLevel::LEVEL5), 15000);
    assert_eq!(RobotLevel::LEVEL3.get_int_value(), 3);
}

#[test]
fn test_minable_resources() {
    let l0 = levels_all(RobotLevel::LEVEL0);
    assert_eq!(l0.get_minable_resoures(), vec![Resource::COAL]);
    let l2 = levels_all(RobotLevel::LEVEL2);
    assert_eq!(
        l2.get_minable_resoures(),
        vec![Resource::COAL, Resource::IRON, Resource::GEM]
    );
    let l5 = levels_all(RobotLevel::LEVEL5);
    assert_eq!(
        l5.get_minable_resoures(),
        vec![
            Resource::COAL,
            Resource::IRON,
            Resource::GEM,
            Resource::GOLD,
            Resource::PLATINUM,
        ]
    );
    assert!(l0.can_mine(&Resource::COAL));
    assert!(!l0.can_mine(&Resource::IRON));
    assert!(l2.can_mine(&Resource::GEM));
    assert!(!l2.can_mine(&Resource::GOLD));
}

#[test]
fn test_robot_stats_follow_levels() {
    let stats = RobotStats::from_robot_levels(&levels_all(RobotLevel::LEVEL1));
    assert_eq!(stats.max_health, 25);
    assert_eq!(stats.damage, 2);
    assert_eq!(stats.max_energy, 30);
    assert_eq!(stats.energy_regen, 6);
    assert_eq!(stats.mining_speed, 5);
    assert_eq!(stats.max_storage, 50);
}

#[test]
fn test_new_robot_defaults() {
    let r = Robot::new(7, 42);
    assert_eq!(r.robot_id, 7);
    assert_eq!(r.planet_id, 42);
    assert_eq!(r.health, 10);
    assert_eq!(r.energy, 20);
    assert!(r.is_alive());
    assert_eq!(r.get_free_storage_space(), 20);
    assert_eq!(r.money_made, 0);
}

#[test]
fn test_take_damage_floors_at_zero() {
    let mut r = Robot::new(1, 1);
    r.take_damage(4);
    assert_eq!(r.health, 6);
    r.take_damage(100);
    assert_eq!(r.health, 0);
    assert!(!r.is_alive());
    r.take_damage(3);
    assert_eq!(r.health, 0);
}

#[test]
fn test_regenerate_caps_at_level_ceiling() {
    let mut r = Robot::new(1, 1);
    r.energy = 19;
    r.regenerate();
    assert_eq!(r.energy, 20);
    r.energy = 10;
    r.regenerate();
    assert_eq!(r.energy, 14);
    r.health = 0;
    r.energy = 5;
    r.regenerate();
    assert_eq!(r.energy, 5);
}

#[test]
fn test_inventory_totals_and_value() {
    let mut inv = Inventory::new();
    assert!(inv.is_empty());
    inv.add(&Resource::COAL, 6);
    inv.add(&Resource::GOLD, 2);
    assert_eq!(inv.total(), 8);
    assert_eq!(inv.value(), 6 * 5 + 2 * 50);
    inv.clear();
    assert!(inv.is_empty());
    assert_eq!(inv.value(), 0);
}

#[test]
fn test_direction_opposites() {
    assert_eq!(Direction::NORTH.get_opposite(), Direction::SOUTH);
    assert_eq!(Direction::EAST.get_opposite(), Direction::WEST);
    assert_eq!(Direction::SOUTH.get_opposite(), Direction::NORTH);
    assert_eq!(Direction::WEST.get_opposite(), Direction::EAST);
}

#[test]
fn test_direction_from_string() {
    assert_eq!(Direction::get_direction_from_string("NORTH"), Some(Direction::NORTH));
    assert_eq!(Direction::get_direction_from_string("WEST"), Some(Direction::WEST));
    assert_eq!(Direction::get_direction_from_string("north"), None);
    assert_eq!(Direction::get_direction_from_string(""), None);
    assert_eq!(Direction::variants().len(), 4);
    assert_eq!(Resource::variants().len(), 5);
}
