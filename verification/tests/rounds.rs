use robo_rounds::command::Command;
use robo_rounds::command::CommandObject;
use robo_rounds::command::CommandType;
use robo_rounds::engine::SubmitError;
use robo_rounds::engine::SubmitOutcome;
use robo_rounds::engine::end_game;
use robo_rounds::engine::handle_batch_of_commands;
use robo_rounds::engine::join_game;
use robo_rounds::engine::start_game;
use robo_rounds::game_state::GameMap;
use robo_rounds::game_state::GameState;
use robo_rounds::game_state::GameStatus;
use robo_rounds::game_state::RoundState;
use robo_rounds::planet::Neighbours;
use robo_rounds::planet::Planet;
use robo_rounds::player::CommandQueues;
use robo_rounds::player::Money;
use robo_rounds::player::PlayerState;
use robo_rounds::resource::Resource;
use robo_rounds::robot::Inventory;
use robo_rounds::robot::Robot;
use robo_rounds::robot_level::RobotLevel;

fn mk_planet(id: u64, diff: u8, res: Option<(Resource, u32)>) -> Planet {
    Planet {
        planet_id: id,
        movement_difficulty: diff,
        resources: res,
        neighbours: Neighbours { north: None, east: None, south: None, west: None },
    }
}

fn mk_player(name: &str, money: u32, robots: Vec<Robot>) -> PlayerState {
    PlayerState {
        player_name: name.to_string(),
        money: Money { amount: money },
        total_money_made: Money { amount: money },
        visited_planets: Vec::new(),
        robots,
        commands: CommandQueues::new(),
        killed_robots: Vec::new(),
    }
}

fn mk_game(players: Vec<PlayerState>, planets: Vec<Planet>) -> GameState {
    let names: Vec<String> = players.iter().map(|p| p.player_name.clone()).collect();
    let indices: Vec<(usize, usize)> = (0..planets.len()).map(|i| (i, 0)).collect();
    GameState {
        game_id: 1,
        participating_players: names,
        current_round: 0,
        status: GameStatus::Started,
        max_rounds: 10,
        max_players: 8,
        round_states: vec![RoundState {
            round_number: 0,
            players,
            map: GameMap { planets, indices },
        }],
    }
}

fn mk_cmd(
    name: &str,
    t: CommandType,
    robot: Option<u64>,
    target: Option<u64>,
    item: Option<&str>,
    qty: Option<u32>,
) -> Command {
    Command {
        player_name: name.to_string(),
        game_id: "g".to_string(),
        command_type: t,
        command_object: CommandObject {
            robot_id: robot,
            planet_id: None,
            target_id: target,
            item_name: item.map(|s| s.to_string()),
            item_quantity: qty,
        },
    }
}

fn current<'a>(gs: &'a GameState) -> &'a RoundState {
    &gs.round_states[gs.round_states.len() - 1]
}

#[test]
fn test_readiness_needs_every_robot_covered() {
    let r1 = Robot::new(1, 10);
    let r2 = Robot::new(2, 10);
    let alice = mk_player("alice", 500, vec![r1, r2]);
    let mut gs = mk_game(vec![alice], vec![mk_planet(10, 1, None)]);
    let only_one = vec![mk_cmd(
        "alice",
        CommandType::MOVEMENT,
        Some(1),
        Some(10),
        None,
        None,
    )];
    let r = handle_batch_of_commands(&mut gs, only_one);
    assert_eq!(r, Ok(SubmitOutcome::Waiting));
    assert_eq!(gs.current_round, 0);
    assert_eq!(gs.round_states.len(), 1);
    let both = vec![
        mk_cmd("alice", CommandType::MOVEMENT, Some(1), Some(10), None, None),
        mk_cmd("alice", CommandType::REGENERATE, Some(2), None, None, None),
    ];
    let r = handle_batch_of_commands(&mut gs, both);
    assert_eq!(r, Ok(SubmitOutcome::Resolved));
    assert_eq!(gs.current_round, 1);
    assert_eq!(gs.round_states.len(), 2);
}

#[test]
fn test_battle_damage_and_energy_debit() {
    let mut a = Robot::new(1, 10);
    a.levels.damage_level = RobotLevel::LEVEL1;
    a.levels.energy_level = RobotLevel::LEVEL1;
    a.energy = 30;
    let mut b = Robot::new(2, 10);
    b.levels.health_level = RobotLevel::LEVEL1;
    b.health = 25;
    let alice = mk_player("alice", 500, vec![a]);
    let bob = mk_player("bob", 500, vec![b]);
    let mut gs = mk_game(vec![alice, bob], vec![mk_planet(10, 1, None)]);
    let r = handle_batch_of_commands(&mut gs, vec![mk_cmd(
        "alice",
        CommandType::BATTLE,
        Some(1),
        Some(2),
        None,
        None,
    )]);
    assert_eq!(r, Ok(SubmitOutcome::Waiting));
    let r = handle_batch_of_commands(&mut gs, vec![mk_cmd(
        "bob",
        CommandType::REGENERATE,
        Some(2),
        None,
        None,
        None,
    )]);
    assert_eq!(r, Ok(SubmitOutcome::Resolved));
    let cur = current(&gs);
    assert_eq!(cur.players[0].robots[0].energy, 28);
    assert_eq!(cur.players[1].robots[0].health, 23);
}

#[test]
fn test_battle_kill_is_recorded_and_dead_robot_is_purged() {
    let mut a = Robot::new(1, 10);
    a.levels.damage_level = RobotLevel::LEVEL5;
    a.levels.energy_level = RobotLevel::LEVEL5;
    a.energy = 200;
    let b = Robot::new(2, 10);
    let alice = mk_player("alice", 500, vec![a]);
    let bob = mk_player("bob", 500, vec![b]);
    let mut gs = mk_game(vec![alice, bob], vec![mk_planet(10, 1, None)]);
    handle_batch_of_commands(&mut gs, vec![mk_cmd(
        "alice",
        CommandType::BATTLE,
        Some(1),
        Some(2),
        None,
        None,
    )])
    .unwrap();
    let r = handle_batch_of_commands(&mut gs, vec![
        mk_cmd("bob", CommandType::BATTLE, Some(2), Some(1), None, None),
        mk_cmd("bob", CommandType::REGENERATE, Some(2), None, None, None),
    ]);
    assert_eq!(r, Ok(SubmitOutcome::Resolved));
    let cur = current(&gs);
    // bob's robot died from 50 damage; its kill is on alice's record
    assert_eq!(cur.players[1].robots[0].health, 0);
    assert_eq!(cur.players[0].killed_robots.len(), 1);
    assert_eq!(cur.players[0].killed_robots[0].attacker_robot_id, 1);
    assert_eq!(cur.players[0].killed_robots[0].enemy_player_name, "bob");
    assert_eq!(cur.players[0].killed_robots[0].enemy_robot.robot_id, 2);
    // bob's own report still fired (his robot was alive at calculation):
    // energy 20 debited by cost 1, and alice's robot took 1 damage
    assert_eq!(cur.players[1].robots[0].energy, 19);
    assert_eq!(cur.players[0].robots[0].health, 9);
    // the dead robot's regenerate command was purged: energy stays 19
}

#[test]
fn test_mining_respects_storage_speed_and_deposit() {
    let mut r = Robot::new(1, 10);
    r.levels.mining_speed_level = RobotLevel::LEVEL2;
    let mut inv = Inventory::new();
    inv.add(&Resource::IRON, 14);
    r.inventory = inv;
    let alice = mk_player("alice", 500, vec![r]);
    let mut gs = mk_game(
        vec![alice],
        vec![mk_planet(10, 1, Some((Resource::COAL, 50)))],
    );
    let r = handle_batch_of_commands(&mut gs, vec![mk_cmd(
        "alice",
        CommandType::MINING,
        Some(1),
        Some(10),
        None,
        None,
    )]);
    assert_eq!(r, Ok(SubmitOutcome::Resolved));
    let cur = current(&gs);
    assert_eq!(cur.players[0].robots[0].inventory.coal, 6);
    assert_eq!(cur.players[0].robots[0].inventory.iron, 14);
    assert_eq!(cur.map.planets[0].resources, Some((Resource::COAL, 44)));
}

#[test]
fn test_selling_credits_inventory_value() {
    let mut r = Robot::new(1, 10);
    let mut inv = Inventory::new();
    inv.add(&Resource::COAL, 6);
    r.inventory = inv;
    let alice = mk_player("alice", 100, vec![r]);
    let mut gs = mk_game(vec![alice], vec![mk_planet(10, 1, None)]);
    let r = handle_batch_of_commands(&mut gs, vec![mk_cmd(
        "alice",
        CommandType::SELLING,
        Some(1),
        None,
        None,
        None,
    )]);
    assert_eq!(r, Ok(SubmitOutcome::Resolved));
    let cur = current(&gs);
    assert_eq!(cur.players[0].money.amount, 130);
    assert_eq!(cur.players[0].total_money_made.amount, 130);
    assert_eq!(cur.players[0].robots[0].money_made, 30);
    assert_eq!(cur.players[0].robots[0].inventory, Inventory {
        coal: 0,
        iron: 0,
        gem: 0,
        gold: 0,
        platinum: 0,
    });
}

#[test]
fn test_buying_rejected_without_enough_money() {
    let alice = mk_player("alice", 50, Vec::new());
    let mut gs = mk_game(vec![alice], vec![mk_planet(10, 1, None)]);
    let r = handle_batch_of_commands(&mut gs, vec![mk_cmd(
        "alice",
        CommandType::BUYING,
        None,
        None,
        Some("robot"),
        Some(1),
    )]);
    assert_eq!(r, Ok(SubmitOutcome::Resolved));
    let cur = current(&gs);
    assert_eq!(cur.players[0].money.amount, 50);
    assert_eq!(cur.players[0].robots.len(), 0);
}

#[test]
fn test_buying_spawns_requested_robots() {
    let alice = mk_player("alice", 500, Vec::new());
    let mut gs = mk_game(
        vec![alice],
        vec![mk_planet(10, 1, None), mk_planet(11, 2, None)],
    );
    let r = handle_batch_of_commands(&mut gs, vec![mk_cmd(
        "alice",
        CommandType::BUYING,
        None,
        None,
        Some("robot"),
        Some(3),
    )]);
    assert_eq!(r, Ok(SubmitOutcome::Resolved));
    let cur = current(&gs);
    assert_eq!(cur.players[0].money.amount, 200);
    assert_eq!(cur.players[0].robots.len(), 3);
    for rob in cur.players[0].robots.iter() {
        assert!(rob.planet_id == 10 || rob.planet_id == 11);
        assert_eq!(rob.health, 10);
    }
    // fresh ids are unique
    assert_ne!(cur.players[0].robots[0].robot_id, cur.players[0].robots[1].robot_id);
    assert_ne!(cur.players[0].robots[1].robot_id, cur.players[0].robots[2].robot_id);
    assert_ne!(cur.players[0].robots[0].robot_id, cur.players[0].robots[2].robot_id);
}

#[test]
fn test_sell_precedes_buy_in_one_round() {
    let mut r = Robot::new(1, 10);
    let mut inv = Inventory::new();
    inv.add(&Resource::COAL, 6);
    r.inventory = inv;
    r.health = 4;
    let alice = mk_player("alice", 60, vec![r]);
    let mut gs = mk_game(vec![alice], vec![mk_planet(10, 1, None)]);
    // selling 30 first makes the 75-cost restore affordable: 60 + 30 - 75 = 15
    let r = handle_batch_of_commands(&mut gs, vec![
        mk_cmd("alice", CommandType::BUYING, Some(1), None, Some("health_restore"), Some(1)),
        mk_cmd("alice", CommandType::SELLING, Some(1), None, None, None),
    ]);
    assert_eq!(r, Ok(SubmitOutcome::Resolved));
    let cur = current(&gs);
    assert_eq!(cur.players[0].money.amount, 15);
    assert_eq!(cur.players[0].robots[0].health, 10);
}

#[test]
fn test_movement_debits_energy_and_discovers() {
    let mut from = mk_planet(10, 3, None);
    from.neighbours.east = Some(11);
    let mut to = mk_planet(11, 1, None);
    to.neighbours.west = Some(10);
    let rob = Robot::new(1, 10);
    let alice = mk_player("alice", 500, vec![rob]);
    let mut gs = mk_game(vec![alice], vec![from, to]);
    let r = handle_batch_of_commands(&mut gs, vec![mk_cmd(
        "alice",
        CommandType::MOVEMENT,
        Some(1),
        Some(11),
        None,
        None,
    )]);
    assert_eq!(r, Ok(SubmitOutcome::Resolved));
    let cur = current(&gs);
    assert_eq!(cur.players[0].robots[0].planet_id, 11);
    assert_eq!(cur.players[0].robots[0].energy, 17);
    assert_eq!(cur.players[0].visited_planets, vec![11]);
}

#[test]
fn test_movement_to_non_neighbour_is_dropped() {
    let rob = Robot::new(1, 10);
    let alice = mk_player("alice", 500, vec![rob]);
    let mut gs = mk_game(
        vec![alice],
        vec![mk_planet(10, 1, None), mk_planet(11, 1, None)],
    );
    let r = handle_batch_of_commands(&mut gs, vec![mk_cmd(
        "alice",
        CommandType::MOVEMENT,
        Some(1),
        Some(11),
        None,
        None,
    )]);
    assert_eq!(r, Ok(SubmitOutcome::Resolved));
    let cur = current(&gs);
    assert_eq!(cur.players[0].robots[0].planet_id, 10);
    assert_eq!(cur.players[0].robots[0].energy, 20);
}

#[test]
fn test_history_stays_as_recorded() {
    let mut r = Robot::new(1, 10);
    let mut inv = Inventory::new();
    inv.add(&Resource::COAL, 6);
    r.inventory = inv;
    let alice = mk_player("alice", 100, vec![r]);
    let mut gs = mk_game(vec![alice], vec![mk_planet(10, 1, None)]);
    handle_batch_of_commands(&mut gs, vec![mk_cmd(
        "alice",
        CommandType::SELLING,
        Some(1),
        None,
        None,
        None,
    )])
    .unwrap();
    // round zero keeps its pre-resolution content
    assert_eq!(gs.round_states[0].round_number, 0);
    assert_eq!(gs.round_states[0].players[0].money.amount, 100);
    assert_eq!(gs.round_states[0].players[0].robots[0].inventory.coal, 6);
    assert_eq!(gs.round_states[1].players[0].money.amount, 130);
    // one more round changes nothing in the recorded past
    handle_batch_of_commands(&mut gs, vec![mk_cmd(
        "alice",
        CommandType::REGENERATE,
        Some(1),
        None,
        None,
        None,
    )])
    .unwrap();
    assert_eq!(gs.round_states.len(), 3);
    assert_eq!(gs.round_states[0].players[0].money.amount, 100);
    assert_eq!(gs.round_states[0].players[0].robots[0].inventory.coal, 6);
    assert_eq!(gs.round_states[1].players[0].money.amount, 130);
}

#[test]
fn test_status_lifecycle_only_moves_forward() {
    let grid = vec![vec![Some(mk_planet(1, 1, None)), Some(mk_planet(2, 1, None))]];
    let mut gs = GameState::new(7, 5, 4, grid);
    assert_eq!(gs.status, GameStatus::Created);
    assert!(start_game(&mut gs).is_err());
    assert!(join_game(&mut gs, "alice".to_string()).is_ok());
    assert!(join_game(&mut gs, "alice".to_string()).is_err());
    assert!(end_game(&mut gs).is_err());
    assert!(start_game(&mut gs).is_ok());
    assert_eq!(gs.status, GameStatus::Started);
    assert!(join_game(&mut gs, "bob".to_string()).is_err());
    assert!(start_game(&mut gs).is_err());
    assert!(end_game(&mut gs).is_ok());
    assert_eq!(gs.status, GameStatus::Ended);
    assert!(end_game(&mut gs).is_err());
    let r = handle_batch_of_commands(&mut gs, vec![mk_cmd(
        "alice",
        CommandType::REGENERATE,
        Some(1),
        None,
        None,
        None,
    )]);
    assert_eq!(r, Err(SubmitError::WrongStatus(GameStatus::Ended)));
    assert_eq!(gs.status, GameStatus::Ended);
}

#[test]
fn test_submission_errors() {
    let alice = mk_player("alice", 500, Vec::new());
    let mut gs = mk_game(vec![alice], vec![mk_planet(10, 1, None)]);
    assert_eq!(handle_batch_of_commands(&mut gs, Vec::new()), Err(SubmitError::NoCommands));
    let r = handle_batch_of_commands(&mut gs, vec![mk_cmd(
        "mallory",
        CommandType::REGENERATE,
        Some(1),
        None,
        None,
        None,
    )]);
    assert_eq!(r, Err(SubmitError::UnknownPlayer));
}

#[test]
fn test_last_round_ends_the_game() {
    let alice = mk_player("alice", 500, Vec::new());
    let mut gs = mk_game(vec![alice], vec![mk_planet(10, 1, None)]);
    gs.max_rounds = 0;
    let r = handle_batch_of_commands(&mut gs, vec![mk_cmd(
        "alice",
        CommandType::BUYING,
        None,
        None,
        Some("robot"),
        Some(1),
    )]);
    assert_eq!(r, Ok(SubmitOutcome::Resolved));
    assert_eq!(gs.status, GameStatus::Ended);
    assert_eq!(gs.current_round, 0);
    assert_eq!(gs.round_states.len(), 1);
}

#[test]
fn test_elimination_forces_final_round() {
    // two players, both broke and robotless after the round: the round
    // counter jumps to the limit
    let alice = mk_player("alice", 50, Vec::new());
    let bob = mk_player("bob", 60, Vec::new());
    let mut gs = mk_game(vec![alice, bob], vec![mk_planet(10, 1, None)]);
    handle_batch_of_commands(&mut gs, vec![mk_cmd(
        "alice",
        CommandType::BUYING,
        None,
        None,
        Some("robot"),
        Some(1),
    )])
    .unwrap();
    let r = handle_batch_of_commands(&mut gs, vec![mk_cmd(
        "bob",
        CommandType::BUYING,
        None,
        None,
        Some("robot"),
        Some(1),
    )]);
    assert_eq!(r, Ok(SubmitOutcome::Resolved));
    assert_eq!(gs.current_round, gs.max_rounds);
}

#[test]
fn test_upgrade_applies_only_when_strictly_higher() {
    let mut r = Robot::new(1, 10);
    r.health = 3;
    let alice = mk_player("alice", 500, vec![r]);
    let mut gs = mk_game(vec![alice], vec![mk_planet(10, 1, None)]);
    // health level 0 -> 2 costs 300 and restores health to the new ceiling
    let r = handle_batch_of_commands(&mut gs, vec![mk_cmd(
        "alice",
        CommandType::BUYING,
        Some(1),
        None,
        Some("health_2"),
        Some(1),
    )]);
    assert_eq!(r, Ok(SubmitOutcome::Resolved));
    let cur = current(&gs);
    assert_eq!(cur.players[0].money.amount, 200);
    assert_eq!(cur.players[0].robots[0].levels.health_level, RobotLevel::LEVEL2);
    assert_eq!(cur.players[0].robots[0].health, 50);
    // buying level 1 afterwards is a regression: the money is spent anyway
    // and nothing changes (no refund)
    let r = handle_batch_of_commands(&mut gs, vec![mk_cmd(
        "alice",
        CommandType::BUYING,
        Some(1),
        None,
        Some("health_1"),
        Some(1),
    )]);
    assert_eq!(r, Ok(SubmitOutcome::Resolved));
    let cur = current(&gs);
    assert_eq!(cur.players[0].money.amount, 150);
    assert_eq!(cur.players[0].robots[0].levels.health_level, RobotLevel::LEVEL2);
    assert_eq!(cur.players[0].robots[0].health, 50);
}

#[test]
fn test_energy_restore_refills_to_ceiling() {
    let mut r = Robot::new(1, 10);
    r.energy = 2;
    let alice = mk_player("alice", 60, vec![r]);
    let mut gs = mk_game(vec![alice], vec![mk_planet(10, 1, None)]);
    let r = handle_batch_of_commands(&mut gs, vec![mk_cmd(
        "alice",
        CommandType::BUYING,
        Some(1),
        None,
        Some("energy_restore"),
        Some(1),
    )]);
    assert_eq!(r, Ok(SubmitOutcome::Resolved));
    let cur = current(&gs);
    assert_eq!(cur.players[0].money.amount, 10);
    assert_eq!(cur.players[0].robots[0].energy, 20);
}

#[test]
fn test_mining_elsewhere_is_rejected() {
    let r = Robot::new(1, 10);
    let alice = mk_player("alice", 500, vec![r]);
    let mut gs = mk_game(
        vec![alice],
        vec![mk_planet(10, 1, None), mk_planet(11, 1, Some((Resource::COAL, 50)))],
    );
    let r = handle_batch_of_commands(&mut gs, vec![mk_cmd(
        "alice",
        CommandType::MINING,
        Some(1),
        Some(11),
        None,
        None,
    )]);
    assert_eq!(r, Ok(SubmitOutcome::Resolved));
    let cur = current(&gs);
    assert!(cur.players[0].robots[0].inventory == Inventory {
        coal: 0,
        iron: 0,
        gem: 0,
        gold: 0,
        platinum: 0,
    });
    assert_eq!(cur.map.planets[1].resources, Some((Resource::COAL, 50)));
}

#[test]
fn test_dead_robot_cannot_sell() {
    let mut r = Robot::new(1, 10);
    r.health = 0;
    let mut inv = Inventory::new();
    inv.add(&Resource::GOLD, 2);
    r.inventory = inv;
    let mut helper = Robot::new(2, 10);
    helper.health = 5;
    let alice = mk_player("alice", 100, vec![r, helper]);
    let mut gs = mk_game(vec![alice], vec![mk_planet(10, 1, None)]);
    let r = handle_batch_of_commands(&mut gs, vec![
        mk_cmd("alice", CommandType::SELLING, Some(1), None, None, None),
        mk_cmd("alice", CommandType::REGENERATE, Some(2), None, None, None),
    ]);
    assert_eq!(r, Ok(SubmitOutcome::Resolved));
    let cur = current(&gs);
    assert_eq!(cur.players[0].money.amount, 100);
    assert_eq!(cur.players[0].robots[0].inventory.gold, 2);
}

#[test]
fn test_self_attack_is_rejected() {
    let r = Robot::new(1, 10);
    let alice = mk_player("alice", 500, vec![r]);
    let mut gs = mk_game(vec![alice], vec![mk_planet(10, 1, None)]);
    let r = handle_batch_of_commands(&mut gs, vec![mk_cmd(
        "alice",
        CommandType::BATTLE,
        Some(1),
        Some(1),
        None,
        None,
    )]);
    assert_eq!(r, Ok(SubmitOutcome::Resolved));
    let cur = current(&gs);
    assert_eq!(cur.players[0].robots[0].health, 10);
    assert_eq!(cur.players[0].robots[0].energy, 20);
}

#[test]
fn test_stale_commands_are_replaced_by_resubmission() {
    let r1 = Robot::new(1, 10);
    let alice = mk_player("alice", 500, vec![r1]);
    let bob = mk_player("bob", 500, Vec::new());
    let mut gs = mk_game(vec![alice, bob], vec![mk_planet(10, 1, None)]);
    // alice queues a battle command, then replaces it with regeneration
    handle_batch_of_commands(&mut gs, vec![mk_cmd(
        "alice",
        CommandType::BATTLE,
        Some(1),
        Some(99),
        None,
        None,
    )])
    .unwrap();
    handle_batch_of_commands(&mut gs, vec![mk_cmd(
        "alice",
        CommandType::REGENERATE,
        Some(1),
        None,
        None,
        None,
    )])
    .unwrap();
    let cur = current(&gs);
    assert_eq!(cur.players[0].commands.battle.len(), 0);
    assert_eq!(cur.players[0].commands.regenerate.len(), 1);
}
