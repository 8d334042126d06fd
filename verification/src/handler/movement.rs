//! The movement phase: robots travel along neighbour edges, paying energy.

use vstd::prelude::*;

use crate::command::CommandV;
use crate::game_state::GameMap;
use crate::game_state::GameMapV;
use crate::game_state::GameState;
use crate::game_state::GameStateV;
use crate::game_state::RoundState;
use crate::game_state::RoundStateV;
use crate::game_state::spec_planet_index;
use crate::player::CommandQueuesV;
use crate::player::PlayerState;
use crate::player::PlayerStateV;
use crate::player::spec_robot_index;
use crate::robot::Robot;

verus! {

/// The effect of one move command.  The robot must exist and be alive, the
/// target must differ from where it stands, the target must be a neighbour
/// of the robot's current planet, and the robot's energy must cover the
/// current planet's movement difficulty.  Then the energy is debited, the
/// robot moves, and the target joins the player's visited planets.  A
/// command failing any check changes nothing.
pub open spec fn spec_move_one(map: GameMapV, p: PlayerStateV, c: CommandV) -> PlayerStateV {
    match (c.command_object.robot_id, c.command_object.target_id) {
        (Some(rid), Some(target)) => {
            if !p.spec_owns_robot(rid) {
                p
            } else {
                let i = spec_robot_index(p.robots, rid);
                let rob = p.robots[i];
                if rob.health == 0 || rob.planet_id == target
                    || !map.spec_has_planet(rob.planet_id) {
                    p
                } else {
                    let cur = map.planets[spec_planet_index(map.planets, rob.planet_id)];
                    if !cur.neighbours.spec_contains(target)
                        || rob.energy < cur.movement_difficulty {
                        p
                    } else {
                        PlayerStateV {
                            robots: p.robots.update(i, Robot {
                                energy: (rob.energy - cur.movement_difficulty) as u32,
                                planet_id: target,
                                ..rob
                            }),
                            visited_planets: if p.visited_planets.contains(target) {
                                p.visited_planets
                            } else {
                                p.visited_planets.push(target)
                            },
                            ..p
                        }
                    }
                }
            }
        },
        _ => p,
    }
}

/// The movement step as a fold function over one player's queue.
pub open spec fn spec_move_step(map: GameMapV) -> spec_fn(PlayerStateV, CommandV) -> PlayerStateV {
    |p: PlayerStateV, c: CommandV| spec_move_one(map, p, c)
}

/// The effect of the movement phase on one player: every queued move
/// command in order, then the movement queue is drained.
pub open spec fn spec_move_player(map: GameMapV, p: PlayerStateV) -> PlayerStateV {
    let p2 = p.commands.movement.fold_left(p, spec_move_step(map));
    PlayerStateV {
        commands: CommandQueuesV { movement: Seq::empty(), ..p2.commands },
        ..p2
    }
}

/// The effect of the movement phase on a whole round.
pub open spec fn spec_move_round(rs: RoundStateV) -> RoundStateV {
    RoundStateV {
        players: Seq::new(rs.players.len(), |i: int| spec_move_player(rs.map, rs.players[i])),
        ..rs
    }
}

/// Runs every queued move command of one player against the map.
fn move_for_player(map: &GameMap, p: &mut PlayerState)
    requires
        old(p)@.wf(),
        map@.wf(),
    ensures
        final(p)@ == spec_move_player(map@, old(p)@),
        final(p)@.wf(),
        final(p)@.player_name == old(p)@.player_name,
        final(p)@.robots.len() == old(p)@.robots.len(),
        forall|k: int| 0 <= k < old(p)@.robots.len() ==>
            (#[trigger] final(p)@.robots[k]).robot_id == old(p)@.robots[k].robot_id,
{
    let ghost p0 = old(p)@;
    let ghost q = old(p)@.commands.movement;
    let n: usize = p.commands.movement.len();
    for ci in 0..n
        invariant
            n == q.len(),
            map@.wf(),
            p@.commands.movement == q,
            p@.commands == p0.commands,
            p@.wf(),
            p@ == q.take(ci as int).fold_left(p0, spec_move_step(map@)),
            p@.player_name == p0.player_name,
            p@.robots.len() == p0.robots.len(),
            forall|k: int| 0 <= k < p0.robots.len() ==>
                (#[trigger] p@.robots[k]).robot_id == p0.robots[k].robot_id,
    {
        let ghost before = p@;
        let ghost c = q[ci as int];
        proof {
            assert(p@.commands.movement[ci as int]
                == p.commands.movement@[ci as int]@);
            assert(p.commands.movement@[ci as int]@ == c);
        }
        let rid_opt: Option<u64> = p.commands.movement[ci].command_object.robot_id;
        let target_opt: Option<u64> = p.commands.movement[ci].command_object.target_id;
        match (rid_opt, target_opt) {
            (Some(rid), Some(target)) => {
                match p.find_robot(rid) {
                    None => {},
                    Some(j) => {
                        proof {
                            assert(before.spec_owns_robot(rid));
                            let i0 = spec_robot_index(before.robots, rid);
                            assert(0 <= i0 < before.robots.len()
                                && before.robots[i0].robot_id == rid);
                            assert(i0 == j as int);
                        }
                        let rob: Robot = p.robots[j];
                        if rob.is_alive() && rob.planet_id != target {
                            match map.find_planet(rob.planet_id) {
                                None => {
                                    proof {
                                        assert(!map@.spec_has_planet(rob.planet_id));
                                    }
                                },
                                Some(pi) => {
                                    proof {
                                        assert(map@.spec_has_planet(rob.planet_id));
                                        let i1 = spec_planet_index(map@.planets, rob.planet_id);
                                        assert(0 <= i1 < map@.planets.len()
                                            && map@.planets[i1].planet_id == rob.planet_id);
                                        assert(i1 == pi as int);
                                    }
                                    let cur = map.planets[pi];
                                    if cur.neighbours.contains(target)
                                        && rob.energy >= cur.movement_difficulty as u32 {
                                        let mut new_rob: Robot = rob;
                                        new_rob.energy =
                                            rob.energy - cur.movement_difficulty as u32;
                                        new_rob.planet_id = target;
                                        p.robots[j] = new_rob;
                                        p.visit_planet(target);
                                    }
                                },
                            }
                        }
                    },
                }
            },
            _ => {},
        }
        proof {
            assert(p@ =~= spec_move_one(map@, before, c));
            assert(q.take(ci + 1).drop_last() =~= q.take(ci as int));
            assert(q.take(ci + 1).last() == c);
            assert(p@ == q.take(ci + 1).fold_left(p0, spec_move_step(map@)));
        }
    }
    p.commands.movement.clear();
    proof {
        assert(q.take(n as int) =~= q);
        assert(p@ =~= spec_move_player(map@, p0));
    }
}

/// The movement phase over the current round: every player's queued move
/// commands are applied against the round's map and the movement queues are
/// drained.  Nothing else of the game changes.
pub fn handle_movement_commands(game_state: &mut GameState)
    requires
        old(game_state)@.wf(),
    ensures
        final(game_state)@.wf(),
        final(game_state)@ == (GameStateV {
            round_states: old(game_state)@.round_states.update(
                old(game_state)@.round_states.len() - 1,
                spec_move_round(old(game_state)@.spec_current()),
            ),
            ..old(game_state)@
        }),
{
    let ghost g0 = old(game_state)@;
    let ghost cur0 = old(game_state)@.spec_current();
    let mut rs: RoundState = game_state.round_states.pop().unwrap();
    proof {
        assert(rs@ == cur0);
        assert(cur0.wf());
    }
    let n: usize = rs.players.len();
    let mut new_players: Vec<PlayerState> = Vec::new();
    for i in 0..n
        invariant
            n == cur0.players.len(),
            rs@ == cur0,
            cur0.wf(),
            new_players@.len() == i,
            forall|j: int| 0 <= j < i ==>
                #[trigger] new_players.deep_view()[j]
                    == spec_move_player(cur0.map, cur0.players[j]),
            forall|j: int| 0 <= j < i ==> (#[trigger] new_players.deep_view()[j]).wf(),
            forall|j: int| 0 <= j < i ==>
                (#[trigger] new_players.deep_view()[j]).player_name
                    == cur0.players[j].player_name,
            forall|j: int| 0 <= j < i ==>
                (#[trigger] new_players.deep_view()[j]).robots.len()
                    == cur0.players[j].robots.len(),
            forall|j: int, k: int|
                #![trigger new_players.deep_view()[j].robots[k]]
                0 <= j < i && 0 <= k < cur0.players[j].robots.len() ==>
                    new_players.deep_view()[j].robots[k].robot_id
                        == cur0.players[j].robots[k].robot_id,
    {
        let mut p: PlayerState = rs.players[i].clone();
        proof {
            assert(p@ == cur0.players[i as int]);
            assert((#[trigger] cur0.players[i as int]).wf());
            assert(rs.map@ == cur0.map);
        }
        move_for_player(&rs.map, &mut p);
        let ghost pv = p@;
        let ghost np_old = new_players.deep_view();
        let ghost npv_vec = new_players@;
        new_players.push(p);
        proof {
            assert forall|j: int| 0 <= j < i implies
                #[trigger] new_players.deep_view()[j] == np_old[j]
            by {
                assert(new_players@[j] == npv_vec[j]);
            }
            assert(new_players.deep_view()[i as int] == pv);
        }
    }
    let ghost npv = new_players.deep_view();
    rs.players = new_players;
    let ghost rsv = rs@;
    game_state.round_states.push(rs);
    proof {
        assert(rsv.players == npv);
        assert(npv =~= spec_move_round(cur0).players);
        assert(rsv =~= spec_move_round(cur0));
        let gv = game_state@;
        let last = g0.round_states.len() - 1;
        assert(gv.round_states =~= g0.round_states.update(last, spec_move_round(cur0)));
        assert(gv =~= (GameStateV {
            round_states: g0.round_states.update(last, spec_move_round(cur0)),
            ..g0
        }));
        assert(gv.wf()) by {
            assert forall|r: int| 0 <= r < gv.round_states.len() implies
                (#[trigger] gv.round_states[r]).wf() && gv.round_states[r].round_number == r
            by {
                if r != last {
                    assert(gv.round_states[r] == g0.round_states[r]);
                } else {
                    let nrs = spec_move_round(cur0);
                    assert(gv.round_states[r] == nrs);
                    assert forall|a: int| 0 <= a < nrs.players.len() implies
                        (#[trigger] nrs.players[a]).wf()
                            && nrs.players[a].player_name == cur0.players[a].player_name
                    by {
                        assert(nrs.players[a] == npv[a]);
                    }
                    assert forall|a: int, b: int, x: int, y: int|
                        #![trigger nrs.players[a].robots[x], nrs.players[b].robots[y]]
                        0 <= a < nrs.players.len() && 0 <= b < nrs.players.len() && a != b
                            && 0 <= x < nrs.players[a].robots.len()
                            && 0 <= y < nrs.players[b].robots.len() implies
                        nrs.players[a].robots[x].robot_id != nrs.players[b].robots[y].robot_id
                    by {
                        assert(nrs.players[a] == npv[a]);
                        assert(nrs.players[b] == npv[b]);
                        assert(nrs.players[a].robots[x].robot_id
                            == cur0.players[a].robots[x].robot_id);
                        assert(nrs.players[b].robots[y].robot_id
                            == cur0.players[b].robots[y].robot_id);
                    }
                    assert(nrs.wf());
                }
            }
        }
    }
}

} // verus!
