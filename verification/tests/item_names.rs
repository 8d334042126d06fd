use robo_rounds::item::Item;
use robo_rounds::item::UpgradeOrItem;
use robo_rounds::item::UpgradeType;
use robo_rounds::item::parse_item_name;
use robo_rounds::robot_level::RobotLevel;

#[test]
fn test_parse_item_name() {
    assert_eq!(
        parse_item_name("health_1", 1),
        Some(UpgradeOrItem::Upgrade(UpgradeType::Health, RobotLevel::LEVEL1))
    );
    assert_eq!(
        parse_item_name("health_2", 1),
        Some(UpgradeOrItem::Upgrade(UpgradeType::Health, RobotLevel::LEVEL2))
    );
    assert_eq!(
        parse_item_name("health_3", 1),
        Some(UpgradeOrItem::Upgrade(UpgradeType::Health, RobotLevel::LEVEL3))
    );
    assert_eq!(
        parse_item_name("health_4", 1),
        Some(UpgradeOrItem::Upgrade(UpgradeType::Health, RobotLevel::LEVEL4))
    );
    assert_eq!(
        parse_item_name("health_5", 1),
        Some(UpgradeOrItem::Upgrade(UpgradeType::Health, RobotLevel::LEVEL5))
    );
    assert_eq!(
        parse_item_name("energy_1", 1),
        Some(UpgradeOrItem::Upgrade(UpgradeType::Energy, RobotLevel::LEVEL1))
    );
    assert_eq!(
        parse_item_name("energy_2", 1),
        Some(UpgradeOrItem::Upgrade(UpgradeType::Energy, RobotLevel::LEVEL2))
    );
    assert_eq!(
        parse_item_name("energy_3", 1),
        Some(UpgradeOrItem::Upgrade(UpgradeType::Energy, RobotLevel::LEVEL3))
    );
    assert_eq!(
        parse_item_name("energy_4", 1),
        Some(UpgradeOrItem::Upgrade(UpgradeType::Energy, RobotLevel::LEVEL4))
    );
    assert_eq!(
        parse_item_name("energy_5", 1),
        Some(UpgradeOrItem::Upgrade(UpgradeType::Energy, RobotLevel::LEVEL5))
    );
    assert_eq!(
        parse_item_name("energy_regen_1", 1),
        Some(UpgradeOrItem::Upgrade(UpgradeType::EnergyRegen, RobotLevel::LEVEL1))
    );
}

#[test]
fn test_parse_fixed_items() {
    assert_eq!(parse_item_name("robot", 3), Some(UpgradeOrItem::Item(Item::Robot(3))));
    assert_eq!(
        parse_item_name("health_restore", 1),
        Some(UpgradeOrItem::Item(Item::HealthRestore))
    );
    assert_eq!(
        parse_item_name("energy_restore", 1),
        Some(UpgradeOrItem::Item(Item::EnergyRestore))
    );
}

#[test]
fn test_parse_is_case_folded() {
    assert_eq!(parse_item_name("ROBOT", 2), Some(UpgradeOrItem::Item(Item::Robot(2))));
    assert_eq!(
        parse_item_name("Mining_Speed_4", 1),
        Some(UpgradeOrItem::Upgrade(UpgradeType::MiningSpeed, RobotLevel::LEVEL4))
    );
    assert_eq!(
        parse_item_name("STORAGE_5", 1),
        Some(UpgradeOrItem::Upgrade(UpgradeType::Storage, RobotLevel::LEVEL5))
    );
    assert_eq!(
        parse_item_name("Damage_2", 1),
        Some(UpgradeOrItem::Upgrade(UpgradeType::Damage, RobotLevel::LEVEL2))
    );
}

#[test]
fn test_parse_rejects_unknown_names() {
    assert_eq!(parse_item_name("", 1), None);
    assert_eq!(parse_item_name("health", 1), None);
    assert_eq!(parse_item_name("health_0", 1), None);
    assert_eq!(parse_item_name("health_6", 1), None);
    assert_eq!(parse_item_name("warp_1", 1), None);
    assert_eq!(parse_item_name("health_", 1), None);
    assert_eq!(parse_item_name("_1", 1), None);
    assert_eq!(parse_item_name("robots", 1), None);
}

#[test]
fn test_item_costs() {
    assert_eq!(Item::Robot(1).get_cost(), 100);
    assert_eq!(Item::Robot(3).get_cost(), 300);
    assert_eq!(Item::Robot(0).get_cost(), 0);
    assert_eq!(Item::HealthRestore.get_cost(), 75);
    assert_eq!(Item::EnergyRestore.get_cost(), 50);
}
