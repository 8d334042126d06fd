//! Read-side projections: the fog-of-war map view and the per-player view
//! of robots, enemies and kill records.  Nothing here mutates the game.

use vstd::prelude::*;

use crate::game_state::GameState;
use crate::game_state::RoundState;
use crate::planet::Planet;
use crate::player::KillRecord;
use crate::player::PlayerState;
use crate::player::PlayerStateV;
use crate::robot::Robot;
use crate::util::contains_u64;
use crate::util::copy_vec;

verus! {

/// One cell of a player's map view: planets the player has visited are
/// shown whole, the rest render as unknown rather than absent.
#[derive(Clone, Copy, Debug)]
pub enum PlanetView {
    Known(Planet),
    Unknown,
}

/// The projection of one planet for a given visited set.
pub open spec fn spec_planet_view(visited: Seq<u64>, pl: Planet) -> PlanetView {
    if visited.contains(pl.planet_id) {
        PlanetView::Known(pl)
    } else {
        PlanetView::Unknown
    }
}

/// The fog-of-war map: every planet of the round's map in order, each
/// shown whole when the player has visited it and as unknown otherwise.
/// Returns nothing when the player is not part of the round.
pub fn display_map_for_player(rs: &RoundState, player_name: &str) -> (r: Option<
    Vec<PlanetView>,
>)
    ensures
        match r {
            Some(v) => {
                &&& rs@.spec_has_player(player_name@)
                &&& v@.len() == rs@.map.planets.len()
                &&& exists|i: int|
                    0 <= i < rs@.players.len()
                        && (#[trigger] rs@.players[i]).player_name == player_name@
                        && forall|k: int| 0 <= k < v@.len() ==>
                            v@[k] == spec_planet_view(
                                rs@.players[i].visited_planets,
                                rs@.map.planets[k],
                            )
            },
            None => !rs@.spec_has_player(player_name@),
        },
{
    let pi: usize = match rs.find_player(player_name) {
        Some(i) => i,
        None => {
            return None;
        },
    };
    let p = &rs.players[pi];
    proof {
        assert(p@ == rs@.players[pi as int]);
    }
    let mut v: Vec<PlanetView> = Vec::new();
    let n: usize = rs.map.planets.len();
    for k in 0..n
        invariant
            p@ == rs@.players[pi as int],
            pi < rs@.players.len(),
            rs@.players[pi as int].player_name == player_name@,
            n == rs@.map.planets.len(),
            v@.len() == k,
            forall|w: int| 0 <= w < k ==>
                v@[w] == spec_planet_view(p@.visited_planets, rs@.map.planets[w]),
    {
        let pl: Planet = rs.map.planets[k];
        if contains_u64(&p.visited_planets, pl.planet_id) {
            v.push(PlanetView::Known(pl));
        } else {
            v.push(PlanetView::Unknown);
        }
    }
    Some(v)
}

/// Whether an enemy robot is visible to the player: it is alive and shares
/// a planet with one of the player's robots.
pub open spec fn spec_enemy_visible(p: PlayerStateV, r: Robot) -> bool {
    r.health > 0 && exists|m: int|
        0 <= m < p.robots.len() && (#[trigger] p.robots[m]).planet_id == r.planet_id
}

/// The visible-enemy predicate as a filter function.
pub open spec fn spec_enemy_pred(p: PlayerStateV) -> spec_fn(Robot) -> bool {
    |r: Robot| spec_enemy_visible(p, r)
}

/// The alive filter.
pub open spec fn spec_alive_pred() -> spec_fn(Robot) -> bool {
    |r: Robot| r.health > 0
}

/// The dead filter.
pub open spec fn spec_dead_pred() -> spec_fn(Robot) -> bool {
    |r: Robot| r.health == 0
}

/// The visible enemy robots among the first `n` players, skipping the
/// player's own index, in player order.
pub open spec fn spec_enemies_upto(
    players: Seq<PlayerStateV>,
    pi: int,
    p: PlayerStateV,
    n: int,
) -> Seq<Robot>
    decreases n,
{
    if n <= 0 {
        Seq::empty()
    } else {
        spec_enemies_upto(players, pi, p, n - 1) + if n - 1 == pi {
            Seq::empty()
        } else {
            players[n - 1].robots.filter(spec_enemy_pred(p))
        }
    }
}

/// A player's own view of the current round: their money, robots split
/// into alive and dead, the enemy robots they can see, and their kill
/// records.
#[derive(Debug)]
pub struct PlayerRoundView {
    pub current_round: u16,
    pub player_name: String,
    pub money: u32,
    pub total_money_made: u32,
    pub visited_planets: Vec<u64>,
    pub alive_robots: Vec<Robot>,
    pub dead_robots: Vec<Robot>,
    pub alive_enemy_robots: Vec<Robot>,
    pub killed_robots: Vec<KillRecord>,
}

/// Keeps the robots of `v` that satisfy the alive (or dead) filter.
fn filter_robots(v: &Vec<Robot>, alive: bool) -> (r: Vec<Robot>)
    ensures
        alive ==> r@ == v@.filter(spec_alive_pred()),
        !alive ==> r@ == v@.filter(spec_dead_pred()),
{
    let mut r: Vec<Robot> = Vec::new();
    let n: usize = v.len();
    proof {
        reveal(Seq::filter);
        assert(v@.take(0).filter(spec_alive_pred()) =~= Seq::<Robot>::empty());
        assert(v@.take(0).filter(spec_dead_pred()) =~= Seq::<Robot>::empty());
    }
    for i in 0..n
        invariant
            n == v@.len(),
            alive ==> r@ == v@.take(i as int).filter(spec_alive_pred()),
            !alive ==> r@ == v@.take(i as int).filter(spec_dead_pred()),
    {
        let rob: Robot = v[i];
        let keep: bool = if alive {
            rob.is_alive()
        } else {
            !rob.is_alive()
        };
        if keep {
            r.push(rob);
        }
        proof {
            reveal(Seq::filter);
            assert(v@.take(i + 1).drop_last() =~= v@.take(i as int));
            assert(v@.take(i + 1).last() == v@[i as int]);
        }
    }
    proof {
        assert(v@.take(n as int) =~= v@);
    }
    r
}

/// The ownership-filtered view of one player in the current round, or
/// nothing when the player is not part of it.
pub fn get_player_state_for_current_round(game_state: &GameState, player_name: &str) -> (r:
    Option<PlayerRoundView>)
    requires
        game_state@.wf(),
    ensures
        match r {
            Some(v) => {
                let cur = game_state@.spec_current();
                exists|pi: int|
                    {
                        let p = #[trigger] cur.players[pi];
                        &&& 0 <= pi < cur.players.len()
                        &&& p.player_name == player_name@
                        &&& v.current_round == game_state@.current_round
                        &&& v.player_name@ == p.player_name
                        &&& v.money == p.money
                        &&& v.total_money_made == p.total_money_made
                        &&& v.visited_planets@ == p.visited_planets
                        &&& v.alive_robots@ == p.robots.filter(spec_alive_pred())
                        &&& v.dead_robots@ == p.robots.filter(spec_dead_pred())
                        &&& v.alive_enemy_robots@ == spec_enemies_upto(
                            cur.players,
                            pi,
                            p,
                            cur.players.len() as int,
                        )
                        &&& v.killed_robots.deep_view() == p.killed_robots
                    }
            },
            None => !game_state@.spec_current().spec_has_player(player_name@),
        },
{
    let rs: &RoundState = game_state.current_round_state();
    let pi: usize = match rs.find_player(player_name) {
        Some(i) => i,
        None => {
            return None;
        },
    };
    let p: PlayerState = rs.players[pi].clone();
    let ghost pv = p@;
    proof {
        assert(pv == rs@.players[pi as int]);
    }
    let mut enemies: Vec<Robot> = Vec::new();
    let n: usize = rs.players.len();
    for j in 0..n
        invariant
            rs@ == game_state@.spec_current(),
            pv == rs@.players[pi as int],
            p@ == pv,
            pi < n,
            n == rs@.players.len(),
            enemies@ == spec_enemies_upto(rs@.players, pi as int, pv, j as int),
    {
        if j != pi {
            proof {
                assert(rs@.players[j as int] == rs.players@[j as int]@);
            }
            let other = &rs.players[j];
            let ghost e_old = enemies@;
            let rn: usize = other.robots.len();
            proof {
                reveal(Seq::filter);
                assert(other@.robots.take(0).filter(spec_enemy_pred(pv))
                    =~= Seq::<Robot>::empty());
                assert(enemies@ =~= e_old + other@.robots.take(0).filter(
                    spec_enemy_pred(pv),
                ));
            }
            for k in 0..rn
                invariant
                    pv == rs@.players[pi as int],
                    p@ == pv,
                    other@ == rs@.players[j as int],
                    rn == other@.robots.len(),
                    enemies@ == e_old + other@.robots.take(k as int).filter(
                        spec_enemy_pred(pv),
                    ),
            {
                let rob: Robot = other.robots[k];
                let mut seen: bool = false;
                let pn: usize = p.robots.len();
                for m in 0..pn
                    invariant
                        pn == p@.robots.len(),
                        p@ == pv,
                        seen == exists|w: int|
                            0 <= w < m && (#[trigger] pv.robots[w]).planet_id
                                == rob.planet_id,
                {
                    if p.robots[m].planet_id == rob.planet_id {
                        proof {
                            assert((#[trigger] pv.robots[m as int]).planet_id
                                == rob.planet_id);
                        }
                        seen = true;
                    }
                }
                if rob.is_alive() && seen {
                    enemies.push(rob);
                    proof {
                        assert(spec_enemy_visible(pv, rob));
                    }
                } else {
                    proof {
                        assert(!spec_enemy_visible(pv, rob));
                    }
                }
                proof {
                    reveal(Seq::filter);
                    assert(other@.robots.take(k + 1).drop_last()
                        =~= other@.robots.take(k as int));
                    assert(other@.robots.take(k + 1).last() == other@.robots[k as int]);
                    assert(enemies@ =~= e_old + other@.robots.take(k + 1).filter(
                        spec_enemy_pred(pv),
                    ));
                }
            }
            proof {
                assert(other@.robots.take(rn as int) =~= other@.robots);
                assert(enemies@ =~= spec_enemies_upto(
                    rs@.players,
                    pi as int,
                    pv,
                    j + 1,
                ));
            }
        } else {
            proof {
                assert(enemies@ =~= spec_enemies_upto(rs@.players, pi as int, pv, j + 1));
            }
        }
    }
    let alive_robots = filter_robots(&p.robots, true);
    let dead_robots = filter_robots(&p.robots, false);
    let mut kills: Vec<KillRecord> = Vec::new();
    let kn: usize = p.killed_robots.len();
    for k in 0..kn
        invariant
            p@ == pv,
            kn == p.killed_robots@.len(),
            kills@.len() == k,
            forall|w: int| 0 <= w < k ==> kills@[w]@ == pv.killed_robots[w],
    {
        proof {
            assert(pv.killed_robots[k as int] == p.killed_robots@[k as int]@);
        }
        kills.push(p.killed_robots[k].clone());
    }
    let v = PlayerRoundView {
        current_round: game_state.current_round,
        player_name: p.player_name.clone(),
        money: p.money.amount,
        total_money_made: p.total_money_made.amount,
        visited_planets: copy_vec(&p.visited_planets),
        alive_robots,
        dead_robots,
        alive_enemy_robots: enemies,
        killed_robots: kills,
    };
    proof {
        assert(v.killed_robots.deep_view() =~= pv.killed_robots);
    }
    Some(v)
}

} // verus!
