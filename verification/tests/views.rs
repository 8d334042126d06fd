use robo_rounds::game_state::GameMap;
use robo_rounds::game_state::GameState;
use robo_rounds::game_state::GameStatus;
use robo_rounds::game_state::RoundState;
use robo_rounds::planet::Neighbours;
use robo_rounds::planet::Planet;
use robo_rounds::player::CommandQueues;
use robo_rounds::player::Money;
use robo_rounds::player::PlayerState;
use robo_rounds::robot::Robot;
use robo_rounds::view::PlanetView;
use robo_rounds::view::display_map_for_player;
use robo_rounds::view::get_player_state_for_current_round;

fn planet(id: u64) -> Planet {
    Planet {
        planet_id: id,
        movement_difficulty: 1,
        resources: None,
        neighbours: Neighbours { north: None, east: None, south: None, west: None },
    }
}

fn player(name: &str, visited: Vec<u64>, robots: Vec<Robot>) -> PlayerState {
    PlayerState {
        player_name: name.to_string(),
        money: Money { amount: 500 },
        total_money_made: Money { amount: 500 },
        visited_planets: visited,
        robots,
        commands: CommandQueues::new(),
        killed_robots: Vec::new(),
    }
}

fn game(players: Vec<PlayerState>, planets: Vec<Planet>) -> GameState {
    let names: Vec<String> = players.iter().map(|p| p.player_name.clone()).collect();
    let indices: Vec<(usize, usize)> = (0..planets.len()).map(|i| (i, 0)).collect();
    GameState {
        game_id: 1,
        participating_players: names,
        current_round: 0,
        status: GameStatus::Started,
        max_rounds: 10,
        max_players: 8,
        round_states: vec![RoundState { round_number: 0, players, map: GameMap { planets, indices } }],
    }
}

#[test]
fn test_fog_of_war_hides_unvisited_planets() {
    let alice = player("alice", vec![10], Vec::new());
    let gs = game(vec![alice], vec![planet(10), planet(11)]);
    let cells = display_map_for_player(&gs.round_states[0], "alice").unwrap();
    assert_eq!(cells.len(), 2);
    assert!(matches!(cells[0], PlanetView::Known(p) if p.planet_id == 10));
    assert!(matches!(cells[1], PlanetView::Unknown));
    assert!(display_map_for_player(&gs.round_states[0], "nobody").is_none());
}

#[test]
fn test_player_view_splits_robots_and_sees_enemies() {
    let mut own_dead = Robot::new(1, 10);
    own_dead.health = 0;
    let own_alive = Robot::new(2, 10);
    let enemy_same_planet = Robot::new(3, 10);
    let enemy_far = Robot::new(4, 11);
    let mut enemy_dead = Robot::new(5, 10);
    enemy_dead.health = 0;
    let alice = player("alice", vec![10], vec![own_dead, own_alive]);
    let bob = player("bob", Vec::new(), vec![enemy_same_planet, enemy_far, enemy_dead]);
    let gs = game(vec![alice, bob], vec![planet(10), planet(11)]);
    let v = get_player_state_for_current_round(&gs, "alice").unwrap();
    assert_eq!(v.player_name, "alice");
    assert_eq!(v.money, 500);
    assert_eq!(v.alive_robots.len(), 1);
    assert_eq!(v.alive_robots[0].robot_id, 2);
    assert_eq!(v.dead_robots.len(), 1);
    assert_eq!(v.dead_robots[0].robot_id, 1);
    // only the living enemy on a shared planet is visible
    assert_eq!(v.alive_enemy_robots.len(), 1);
    assert_eq!(v.alive_enemy_robots[0].robot_id, 3);
    assert!(get_player_state_for_current_round(&gs, "carol").is_none());
}

#[test]
fn test_new_game_indexes_the_grid() {
    let grid = vec![
        vec![Some(planet(1)), None],
        vec![Some(planet(2)), Some(planet(3))],
    ];
    let gs = GameState::new(9, 5, 4, grid);
    assert_eq!(gs.status, GameStatus::Created);
    assert_eq!(gs.current_round, 0);
    assert_eq!(gs.round_states.len(), 1);
    let map = &gs.round_states[0].map;
    assert_eq!(map.planets.len(), 3);
    assert_eq!(map.indices.len(), 3);
    assert!(map.get_planet(1).is_some());
    assert!(map.get_planet(3).is_some());
    assert!(map.get_planet(99).is_none());
    assert_eq!(map.get_planet(2).unwrap().planet_id, 2);
}
