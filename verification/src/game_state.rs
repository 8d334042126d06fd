//! The aggregate state of one game: status, participating players and the
//! append-only history of round states.

use vstd::prelude::*;

use crate::planet::Planet;
use crate::player::PlayerState;
use crate::player::PlayerStateV;
use crate::robot::Robot;
use crate::text::str_eq_str;
use crate::util::copy_vec;

verus! {

/// Lifecycle status of a game.  It only ever moves forward:
/// Created, then Started, then Ended.
#[derive(Clone, Copy, Debug, PartialEq, Eq, Structural, Hash)]
pub enum GameStatus {
    Created,
    Started,
    Ended,
}

/// The one-directional order on game statuses.
pub open spec fn spec_status_le(a: GameStatus, b: GameStatus) -> bool {
    match (a, b) {
        (GameStatus::Created, _) => true,
        (GameStatus::Started, GameStatus::Started) => true,
        (GameStatus::Started, GameStatus::Ended) => true,
        (GameStatus::Ended, GameStatus::Ended) => true,
        _ => false,
    }
}

/// The world map: the planets of the grid, and for each planet the grid
/// position it was generated at.
#[derive(Debug)]
pub struct GameMap {
    pub planets: Vec<Planet>,
    pub indices: Vec<(usize, usize)>,
}

/// The mathematical value of the world map.
#[verifier::ext_equal]
pub struct GameMapV {
    pub planets: Seq<Planet>,
    pub indices: Seq<(usize, usize)>,
}

impl View for GameMap {
    type V = GameMapV;

    open spec fn view(&self) -> GameMapV {
        GameMapV { planets: self.planets@, indices: self.indices@ }
    }
}

impl DeepView for GameMap {
    type V = GameMapV;

    open spec fn deep_view(&self) -> GameMapV {
        self.view()
    }
}

impl GameMapV {
    /// Planet ids are unique and every planet has a grid position.
    pub open spec fn wf(self) -> bool {
        &&& self.indices.len() == self.planets.len()
        &&& forall|i: int, j: int|
            0 <= i < j < self.planets.len() ==>
                self.planets[i].planet_id != self.planets[j].planet_id
    }

    /// Whether the map holds a planet with the given id.
    pub open spec fn spec_has_planet(self, planet_id: u64) -> bool {
        exists|i: int| 0 <= i < self.planets.len() && self.planets[i].planet_id == planet_id
    }
}

/// The index of the planet with the given id; meaningful only while the
/// map's planet ids are unique and the planet exists.
pub open spec fn spec_planet_index(planets: Seq<Planet>, planet_id: u64) -> int {
    choose|i: int| 0 <= i < planets.len() && planets[i].planet_id == planet_id
}

/// Whether all planet ids in a grid of optional planets are distinct.
pub open spec fn spec_grid_ids_unique(grid: Seq<Vec<Option<Planet>>>) -> bool {
    forall|x1: int, y1: int, x2: int, y2: int|
        #![trigger grid[x1]@[y1], grid[x2]@[y2]]
        0 <= x1 < grid.len() && 0 <= y1 < grid[x1]@.len() && 0 <= x2 < grid.len()
            && 0 <= y2 < grid[x2]@.len() && !(x1 == x2 && y1 == y2) ==>
            match (grid[x1]@[y1], grid[x2]@[y2]) {
                (Some(p), Some(q)) => p.planet_id != q.planet_id,
                _ => true,
            }
}

impl GameMap {
    /// Flattens a generated grid into the planet list and its position
    /// index.  Inaccessible grid cells hold no planet and are skipped.
    pub fn new(planets: Vec<Vec<Option<Planet>>>) -> (r: GameMap)
        requires
            spec_grid_ids_unique(planets@),
        ensures
            r@.wf(),
            forall|k: int| 0 <= k < r@.planets.len() ==> {
                let (x, y) = #[trigger] r@.indices[k];
                0 <= x < planets@.len() && 0 <= y < planets@[x as int]@.len()
                    && planets@[x as int]@[y as int] == Some(r@.planets[k])
            },
            forall|x: int, y: int|
                #![trigger planets@[x]@[y]]
                0 <= x < planets@.len() && 0 <= y < planets@[x]@.len()
                    && planets@[x]@[y] is Some ==>
                    exists|k: int| 0 <= k < r@.indices.len()
                        && #[trigger] r@.indices[k] == (x as usize, y as usize),
            forall|k1: int, k2: int|
                0 <= k1 < k2 < r@.indices.len() ==> r@.indices[k1] != r@.indices[k2],
    {
        let mut flat: Vec<Planet> = Vec::new();
        let mut indices: Vec<(usize, usize)> = Vec::new();
        for x in 0..planets.len()
            invariant
                spec_grid_ids_unique(planets@),
                flat@.len() == indices@.len(),
                forall|k: int| 0 <= k < flat@.len() ==> {
                    let (a, b) = #[trigger] indices@[k];
                    0 <= a < planets@.len() && 0 <= b < planets@[a as int]@.len()
                        && planets@[a as int]@[b as int] == Some(flat@[k])
                },
                forall|a: int, b: int|
                    #![trigger planets@[a]@[b]]
                    0 <= a < x && 0 <= b < planets@[a]@.len() && planets@[a]@[b] is Some ==>
                        exists|k: int| 0 <= k < indices@.len()
                            && #[trigger] indices@[k] == (a as usize, b as usize),
                forall|k: int| 0 <= k < indices@.len() ==> (#[trigger] indices@[k]).0 < x,
                forall|k1: int, k2: int|
                    0 <= k1 < k2 < indices@.len() ==> indices@[k1] != indices@[k2],
        {
            let row_len: usize = planets[x].len();
            for y in 0..row_len
                invariant
                    spec_grid_ids_unique(planets@),
                    x < planets@.len(),
                    row_len == planets@[x as int]@.len(),
                    flat@.len() == indices@.len(),
                    forall|k: int| 0 <= k < flat@.len() ==> {
                        let (a, b) = #[trigger] indices@[k];
                        0 <= a < planets@.len() && 0 <= b < planets@[a as int]@.len()
                            && planets@[a as int]@[b as int] == Some(flat@[k])
                    },
                    forall|a: int, b: int|
                        #![trigger planets@[a]@[b]]
                        0 <= a < x && 0 <= b < planets@[a]@.len()
                            && planets@[a]@[b] is Some ==>
                            exists|k: int| 0 <= k < indices@.len()
                                && #[trigger] indices@[k] == (a as usize, b as usize),
                    forall|b: int|
                        #![trigger planets@[x as int]@[b]]
                        0 <= b < y && planets@[x as int]@[b] is Some ==>
                            exists|k: int| 0 <= k < indices@.len()
                                && #[trigger] indices@[k] == (x as usize, b as usize),
                    forall|k: int| 0 <= k < indices@.len()
                        ==> (#[trigger] indices@[k]).0 < x
                            || ((#[trigger] indices@[k]).0 == x && (#[trigger] indices@[k]).1 < y),
                    forall|k1: int, k2: int|
                        0 <= k1 < k2 < indices@.len() ==> indices@[k1] != indices@[k2],
            {
                match &planets[x][y] {
                    Some(p) => {
                        let ghost old_indices = indices@;
                        flat.push(*p);
                        indices.push((x, y));
                        proof {
                            assert(indices@ == old_indices.push((x, y)));
                            assert(indices@[old_indices.len() as int] == (x, y));
                            assert forall|a: int, b: int|
                                #![trigger planets@[a]@[b]]
                                0 <= a < x && 0 <= b < planets@[a]@.len()
                                    && planets@[a]@[b] is Some implies
                                exists|k: int| 0 <= k < indices@.len()
                                    && #[trigger] indices@[k] == (a as usize, b as usize)
                            by {
                                let k0 = choose|k: int| 0 <= k < old_indices.len()
                                    && #[trigger] old_indices[k] == (a as usize, b as usize);
                                assert(indices@[k0] == (a as usize, b as usize));
                            }
                            assert forall|b: int|
                                #![trigger planets@[x as int]@[b]]
                                0 <= b < y + 1 && planets@[x as int]@[b] is Some implies
                                exists|k: int| 0 <= k < indices@.len()
                                    && #[trigger] indices@[k] == (x as usize, b as usize)
                            by {
                                if b < y {
                                    let k0 = choose|k: int| 0 <= k < old_indices.len()
                                        && #[trigger] old_indices[k] == (x as usize, b as usize);
                                    assert(indices@[k0] == (x as usize, b as usize));
                                } else {
                                    assert(indices@[old_indices.len() as int]
                                        == (x as usize, b as usize));
                                }
                            }
                        }
                    },
                    None => {},
                }
            }
        }
        let ghost idxs = indices@;
        let r = GameMap { planets: flat, indices };
        proof {
            assert(r@.indices == idxs);
            assert forall|x: int, y: int|
                #![trigger planets@[x]@[y]]
                0 <= x < planets@.len() && 0 <= y < planets@[x]@.len()
                    && planets@[x]@[y] is Some implies
                exists|k: int| 0 <= k < r@.indices.len()
                    && #[trigger] r@.indices[k] == (x as usize, y as usize)
            by {
                let k0 = choose|k: int| 0 <= k < idxs.len()
                    && #[trigger] idxs[k] == (x as usize, y as usize);
                assert(r@.indices[k0] == (x as usize, y as usize));
            }
            assert forall|i: int, j: int| 0 <= i < j < r@.planets.len() implies
                r@.planets[i].planet_id != r@.planets[j].planet_id
            by {
                let (a1, b1) = r@.indices[i];
                let (a2, b2) = r@.indices[j];
                assert(planets@[a1 as int]@[b1 as int] == Some(r@.planets[i]));
                assert(planets@[a2 as int]@[b2 as int] == Some(r@.planets[j]));
            }
        }
        r
    }

    /// Index of the planet with the given id, if it exists.
    pub fn find_planet(&self, planet_id: u64) -> (r: Option<usize>)
        ensures
            match r {
                Some(i) => i < self@.planets.len()
                    && self@.planets[i as int].planet_id == planet_id,
                None => !self@.spec_has_planet(planet_id),
            },
    {
        for i in 0..self.planets.len()
            invariant
                forall|j: int| 0 <= j < i ==> self@.planets[j].planet_id != planet_id,
        {
            if self.planets[i].planet_id == planet_id {
                return Some(i);
            }
        }
        None
    }

    /// The planet with the given id, if it exists.
    pub fn get_planet(&self, planet_id: u64) -> (r: Option<&Planet>)
        ensures
            match r {
                Some(p) => self@.spec_has_planet(planet_id) && p.planet_id == planet_id
                    && exists|i: int| 0 <= i < self@.planets.len()
                        && self@.planets[i] == *p,
                None => !self@.spec_has_planet(planet_id),
            },
    {
        match self.find_planet(planet_id) {
            Some(i) => {
                proof {
                    assert(self@.planets[i as int].planet_id == planet_id);
                }
                Some(&self.planets[i])
            },
            None => None,
        }
    }
}

impl Clone for GameMap {
    fn clone(&self) -> (r: Self)
        ensures
            r@ == self@,
    {
        let r = GameMap {
            planets: copy_vec(&self.planets),
            indices: copy_vec(&self.indices),
        };
        proof {
            assert(r@ =~= self@);
        }
        r
    }
}

/// The snapshot of one round: the map and every player's state.
#[derive(Debug)]
pub struct RoundState {
    pub round_number: u16,
    pub players: Vec<PlayerState>,
    pub map: GameMap,
}

/// The mathematical value of a round state.
#[verifier::ext_equal]
pub struct RoundStateV {
    pub round_number: u16,
    pub players: Seq<PlayerStateV>,
    pub map: GameMapV,
}

impl View for RoundState {
    type V = RoundStateV;

    open spec fn view(&self) -> RoundStateV {
        RoundStateV {
            round_number: self.round_number,
            players: self.players.deep_view(),
            map: self.map@,
        }
    }
}

impl DeepView for RoundState {
    type V = RoundStateV;

    open spec fn deep_view(&self) -> RoundStateV {
        self.view()
    }
}

impl RoundStateV {
    /// Whether a player with the given name is present.
    pub open spec fn spec_has_player(self, name: Seq<char>) -> bool {
        crate::player::spec_has_name(self.players, name)
    }

    /// The map is well formed, every player is well formed, player names
    /// are unique, and no two players share a robot id.
    pub open spec fn wf(self) -> bool {
        &&& self.map.wf()
        &&& forall|i: int| 0 <= i < self.players.len() ==> (#[trigger] self.players[i]).wf()
        &&& forall|i: int, j: int|
            0 <= i < j < self.players.len() ==>
                self.players[i].player_name != self.players[j].player_name
        &&& forall|i: int, j: int, a: int, b: int|
            0 <= i < self.players.len() && 0 <= j < self.players.len() && i != j
                && 0 <= a < self.players[i].robots.len()
                && 0 <= b < self.players[j].robots.len() ==>
                self.players[i].robots[a].robot_id != self.players[j].robots[b].robot_id
    }
}

impl RoundState {
    /// Index of the player with the given name, if present.
    pub fn find_player(&self, name: &str) -> (r: Option<usize>)
        ensures
            match r {
                Some(i) => i < self@.players.len()
                    && self@.players[i as int].player_name == name@,
                None => !self@.spec_has_player(name@),
            },
    {
        for i in 0..self.players.len()
            invariant
                forall|j: int| 0 <= j < i ==> self@.players[j].player_name != name@,
        {
            if str_eq_str(self.players[i].player_name.as_str(), name) {
                proof {
                    assert(self@.players[i as int].player_name == name@);
                }
                return Some(i);
            }
        }
        None
    }
}

impl Clone for RoundState {
    fn clone(&self) -> (r: Self)
        ensures
            r@ == self@,
    {
        let mut players: Vec<PlayerState> = Vec::new();
        for i in 0..self.players.len()
            invariant
                players@.len() == i,
                forall|j: int| 0 <= j < i ==> players@[j]@ == self.players@[j]@,
        {
            players.push(self.players[i].clone());
        }
        let r = RoundState {
            round_number: self.round_number,
            players,
            map: self.map.clone(),
        };
        proof {
            assert(r.players.deep_view() =~= self.players.deep_view());
            assert(r@ =~= self@);
        }
        r
    }
}

/// The aggregate state of one game.
#[derive(Debug)]
pub struct GameState {
    pub game_id: u64,
    pub participating_players: Vec<String>,
    pub current_round: u16,
    pub status: GameStatus,
    pub max_rounds: u16,
    pub max_players: u8,
    pub round_states: Vec<RoundState>,
}

/// The mathematical value of a game's state.
#[verifier::ext_equal]
pub struct GameStateV {
    pub game_id: u64,
    pub participating_players: Seq<Seq<char>>,
    pub current_round: u16,
    pub status: GameStatus,
    pub max_rounds: u16,
    pub max_players: u8,
    pub round_states: Seq<RoundStateV>,
}

impl View for GameState {
    type V = GameStateV;

    open spec fn view(&self) -> GameStateV {
        GameStateV {
            game_id: self.game_id,
            participating_players: self.participating_players.deep_view(),
            current_round: self.current_round,
            status: self.status,
            max_rounds: self.max_rounds,
            max_players: self.max_players,
            round_states: self.round_states.deep_view(),
        }
    }
}

impl GameStateV {
    /// The snapshot the game currently plays in: the latest recorded round.
    pub open spec fn spec_current(self) -> RoundStateV {
        self.round_states[self.round_states.len() - 1]
    }

    /// The round history is a dense append-only log: entry `i` carries round
    /// number `i`, rounds are well formed, and the round counter never lags
    /// behind the log nor passes `max_rounds`.
    pub open spec fn wf(self) -> bool {
        &&& self.round_states.len() >= 1
        &&& forall|i: int| 0 <= i < self.round_states.len() ==>
            (#[trigger] self.round_states[i]).round_number == i
        &&& forall|i: int| 0 <= i < self.round_states.len() ==>
            (#[trigger] self.round_states[i]).wf()
        &&& self.round_states.len() - 1 <= self.current_round <= self.max_rounds
        &&& self.status == GameStatus::Created ==> {
            &&& self.round_states.len() == 1
            &&& self.current_round == 0
            &&& self.participating_players.len() == self.round_states[0].players.len()
            &&& forall|i: int| 0 <= i < self.participating_players.len() ==>
                #[trigger] self.participating_players[i]
                    == self.round_states[0].players[i].player_name
        }
    }
}

impl GameState {
    /// A new game: status Created, round zero recorded with the generated
    /// world and no players.
    pub fn new(game_id: u64, max_rounds: u16, max_players: u8,
        planets: Vec<Vec<Option<Planet>>>) -> (r: GameState)
        requires
            spec_grid_ids_unique(planets@),
        ensures
            r@.wf(),
            r@.game_id == game_id,
            r@.max_rounds == max_rounds,
            r@.max_players == max_players,
            r@.status == GameStatus::Created,
            r@.current_round == 0,
            r@.participating_players.len() == 0,
            r@.round_states.len() == 1,
            r@.round_states[0].round_number == 0,
            r@.round_states[0].players.len() == 0,
            forall|k: int| 0 <= k < r@.round_states[0].map.planets.len() ==> {
                let (x, y) = #[trigger] r@.round_states[0].map.indices[k];
                0 <= x < planets@.len() && 0 <= y < planets@[x as int]@.len()
                    && planets@[x as int]@[y as int]
                        == Some(r@.round_states[0].map.planets[k])
            },
            forall|x: int, y: int|
                #![trigger planets@[x]@[y]]
                0 <= x < planets@.len() && 0 <= y < planets@[x]@.len()
                    && planets@[x]@[y] is Some ==>
                    exists|k: int| 0 <= k < r@.round_states[0].map.indices.len()
                        && #[trigger] r@.round_states[0].map.indices[k]
                            == (x as usize, y as usize),
    {
        let world = GameMap::new(planets);
        let ghost wv = world@;
        let initial_round = RoundState {
            round_number: 0,
            players: Vec::new(),
            map: world,
        };
        let mut round_states: Vec<RoundState> = Vec::new();
        round_states.push(initial_round);
        let r = GameState {
            game_id,
            round_states,
            status: GameStatus::Created,
            participating_players: Vec::new(),
            current_round: 0,
            max_rounds,
            max_players,
        };
        proof {
            assert(r@.round_states.len() == 1);
            assert(r@.round_states[0] == r.round_states@[0]@);
            assert(r@.round_states[0].map == wv);
            assert forall|x: int, y: int|
                #![trigger planets@[x]@[y]]
                0 <= x < planets@.len() && 0 <= y < planets@[x]@.len()
                    && planets@[x]@[y] is Some implies
                exists|k: int| 0 <= k < r@.round_states[0].map.indices.len()
                    && #[trigger] r@.round_states[0].map.indices[k]
                        == (x as usize, y as usize)
            by {
                let k0 = choose|k: int| 0 <= k < wv.indices.len()
                    && #[trigger] wv.indices[k] == (x as usize, y as usize);
                assert(r@.round_states[0].map.indices[k0] == (x as usize, y as usize));
            }
        }
        r
    }

    /// The latest recorded round state, which the game currently plays in.
    pub fn current_round_state(&self) -> (r: &RoundState)
        requires
            self@.wf(),
        ensures
            r@ == self@.spec_current(),
    {
        let i: usize = self.round_states.len() - 1;
        &self.round_states[i]
    }

    /// The given player's state in the current round.
    pub fn get_player_for_current_round(&self, player_name: &str) -> (r: Option<&PlayerState>)
        requires
            self@.wf(),
        ensures
            match r {
                Some(p) => exists|i: int|
                    0 <= i < self@.spec_current().players.len()
                        && p@ == #[trigger] self@.spec_current().players[i]
                        && p@.player_name == player_name@,
                None => !self@.spec_current().spec_has_player(player_name@),
            },
    {
        let rs = self.current_round_state();
        match rs.find_player(player_name) {
            Some(i) => Some(&rs.players[i]),
            None => None,
        }
    }

    /// The given player's robots in the current round.
    pub fn get_robots_for_current_round(&self, player_name: &str) -> (r: Option<&Vec<Robot>>)
        requires
            self@.wf(),
        ensures
            match r {
                Some(v) => exists|i: int|
                    0 <= i < self@.spec_current().players.len()
                        && v@ == (#[trigger] self@.spec_current().players[i]).robots
                        && self@.spec_current().players[i].player_name == player_name@,
                None => !self@.spec_current().spec_has_player(player_name@),
            },
    {
        let rs = self.current_round_state();
        match rs.find_player(player_name) {
            Some(i) => Some(&rs.players[i].robots),
            None => None,
        }
    }

    /// Looks up a robot in the current round by its id alone, over all
    /// players.
    pub fn get_robot_for_current_round_by_robot_id(&self, robot_id: u64) -> (r: Option<&Robot>)
        requires
            self@.wf(),
        ensures
            match r {
                Some(rob) => rob.robot_id == robot_id && exists|i: int, j: int|
                    #![trigger self@.spec_current().players[i].robots[j]]
                    0 <= i < self@.spec_current().players.len()
                        && 0 <= j < self@.spec_current().players[i].robots.len()
                        && self@.spec_current().players[i].robots[j] == *rob,
                None => forall|i: int|
                    0 <= i < self@.spec_current().players.len() ==>
                        !(#[trigger] self@.spec_current().players[i]).spec_owns_robot(robot_id),
            },
    {
        let rs = self.current_round_state();
        for i in 0..rs.players.len()
            invariant
                rs@ == self@.spec_current(),
                forall|j: int| 0 <= j < i ==>
                    !(#[trigger] rs@.players[j]).spec_owns_robot(robot_id),
        {
            match rs.players[i].find_robot(robot_id) {
                Some(j) => {
                    proof {
                        assert(self@.spec_current().players[i as int].robots[j as int]
                            == rs.players@[i as int].robots@[j as int]);
                    }
                    return Some(&rs.players[i].robots[j]);
                },
                None => {},
            }
        }
        None
    }

    /// The robots of whichever player owns the robot with the given id.
    pub fn get_robots_for_current_round_by_robot_id(&self, robot_id: u64) -> (r: Option<
        &Vec<Robot>,
    >)
        requires
            self@.wf(),
        ensures
            match r {
                Some(v) => exists|i: int|
                    0 <= i < self@.spec_current().players.len()
                        && v@ == (#[trigger] self@.spec_current().players[i]).robots
                        && self@.spec_current().players[i].spec_owns_robot(robot_id),
                None => forall|i: int|
                    0 <= i < self@.spec_current().players.len() ==>
                        !(#[trigger] self@.spec_current().players[i]).spec_owns_robot(robot_id),
            },
    {
        let rs = self.current_round_state();
        for i in 0..rs.players.len()
            invariant
                rs@ == self@.spec_current(),
                forall|j: int| 0 <= j < i ==>
                    !(#[trigger] rs@.players[j]).spec_owns_robot(robot_id),
        {
            match rs.players[i].find_robot(robot_id) {
                Some(_) => {
                    proof {
                        assert((#[trigger] self@.spec_current().players[i as int])
                            .spec_owns_robot(robot_id));
                    }
                    return Some(&rs.players[i].robots);
                },
                None => {},
            }
        }
        None
    }

    /// Looks up a robot in the current round by owner name and robot id.
    pub fn get_robot_for_current_round_by_player_id_and_robot_id(
        &self,
        player_name: &str,
        robot_id: u64,
    ) -> (r: Option<&Robot>)
        requires
            self@.wf(),
        ensures
            match r {
                Some(rob) => rob.robot_id == robot_id && exists|i: int, j: int|
                    #![trigger self@.spec_current().players[i].robots[j]]
                    0 <= i < self@.spec_current().players.len()
                        && 0 <= j < self@.spec_current().players[i].robots.len()
                        && self@.spec_current().players[i].player_name == player_name@
                        && self@.spec_current().players[i].robots[j] == *rob,
                None => forall|i: int|
                    0 <= i < self@.spec_current().players.len()
                        && (#[trigger] self@.spec_current().players[i]).player_name
                            == player_name@ ==>
                        !self@.spec_current().players[i].spec_owns_robot(robot_id),
            },
    {
        let rs = self.current_round_state();
        match rs.find_player(player_name) {
            Some(i) => {
                match rs.players[i].find_robot(robot_id) {
                    Some(j) => {
                        proof {
                            assert(rs@.players[i as int].robots[j as int].robot_id == robot_id);
                        }
                        Some(&rs.players[i].robots[j])
                    },
                    None => {
                        proof {
                            assert forall|k: int|
                                0 <= k < self@.spec_current().players.len()
                                    && (#[trigger] self@.spec_current().players[k]).player_name
                                        == player_name@ implies
                                !self@.spec_current().players[k].spec_owns_robot(robot_id)
                            by {
                                if k != i {
                                    assert(self@.spec_current().players[k].player_name
                                        == self@.spec_current().players[i as int].player_name);
                                }
                            }
                        }
                        None
                    },
                }
            },
            None => None,
        }
    }

    /// The planet a robot currently stands on, if the robot and the planet
    /// exist in the current round.
    pub fn get_robot_planet(&self, robot_id: u64) -> (r: Option<&Planet>)
        requires
            self@.wf(),
        ensures
            match r {
                Some(p) => exists|i: int, j: int|
                    #![trigger self@.spec_current().players[i].robots[j]]
                    0 <= i < self@.spec_current().players.len()
                        && 0 <= j < self@.spec_current().players[i].robots.len()
                        && self@.spec_current().players[i].robots[j].robot_id == robot_id
                        && self@.spec_current().players[i].robots[j].planet_id == p.planet_id,
                None => true,
            },
    {
        let planet_id: u64 = match self.get_robot_for_current_round_by_robot_id(robot_id) {
            Some(rob) => rob.planet_id,
            None => {
                return None;
            },
        };
        let rs = self.current_round_state();
        rs.map.get_planet(planet_id)
    }

    /// Advances the round counter if rounds are left, and otherwise ends
    /// the game.  Returns whether the game goes on.
    pub fn start_next_round(&mut self) -> (advanced: bool)
        ensures
            advanced == (old(self).current_round < old(self).max_rounds),
            advanced ==> *final(self) == (GameState {
                current_round: (old(self).current_round + 1) as u16,
                ..*old(self)
            }),
            !advanced ==> *final(self) == (GameState {
                status: GameStatus::Ended,
                ..*old(self)
            }),
            spec_status_le(old(self).status, final(self).status),
    {
        if self.current_round < self.max_rounds {
            self.current_round = self.current_round + 1;
            return true;
        }
        self.status = GameStatus::Ended;
        false
    }
}

} // verus!
