//! The mining phase: robots extract resources from the planet they stand
//! on, bounded by free storage, mining speed and what the deposit holds.

use vstd::prelude::*;

use crate::command::CommandV;
use crate::game_state::GameMap;
use crate::game_state::GameMapV;
use crate::game_state::GameState;
use crate::game_state::GameStateV;
use crate::game_state::RoundState;
use crate::game_state::RoundStateV;
use crate::game_state::spec_planet_index;
use crate::planet::Planet;
use crate::player::CommandQueuesV;
use crate::player::PlayerState;
use crate::player::PlayerStateV;
use crate::player::spec_robot_index;
use crate::robot::Robot;
use crate::robot_levels::spec_can_mine;
use crate::robot_levels::spec_mining_amount_for_level;
use crate::util::min_u32;

verus! {

/// The effect of one mining command on the map and its player.  The robot
/// must exist, be alive, stand on the commanded target planet, have free
/// storage, and its mining level must cover the planet's resource; the
/// mined amount is the least of free storage, mining speed and what is
/// left.  The deposit is removed from the planet once it reaches zero.  A
/// command failing any check changes nothing.
pub open spec fn spec_mine_one(st: (GameMapV, PlayerStateV), c: CommandV) -> (
    GameMapV,
    PlayerStateV,
) {
    let map = st.0;
    let p = st.1;
    match (c.command_object.robot_id, c.command_object.target_id) {
        (Some(rid), Some(target)) => {
            if !p.spec_owns_robot(rid) {
                st
            } else {
                let i = spec_robot_index(p.robots, rid);
                let rob = p.robots[i];
                if rob.health == 0 || !map.spec_has_planet(target) {
                    st
                } else {
                    let pi = spec_planet_index(map.planets, target);
                    let pl = map.planets[pi];
                    if rob.planet_id != target || rob.spec_free_storage() == 0 {
                        st
                    } else {
                        match pl.resources {
                            None => st,
                            Some((res, amount)) => {
                                if !spec_can_mine(rob.levels.mining_level, res)
                                    || amount == 0 {
                                    st
                                } else {
                                    let speed = spec_mining_amount_for_level(
                                        rob.levels.mining_speed_level,
                                    );
                                    let potential = if rob.spec_free_storage() < speed {
                                        rob.spec_free_storage() as u32
                                    } else {
                                        speed
                                    };
                                    let mined = if potential < amount {
                                        potential
                                    } else {
                                        amount
                                    };
                                    let new_pl = Planet {
                                        resources: if amount - mined == 0 {
                                            None
                                        } else {
                                            Some((res, (amount - mined) as u32))
                                        },
                                        ..pl
                                    };
                                    let new_rob = Robot {
                                        inventory: rob.inventory.spec_add(res, mined),
                                        ..rob
                                    };
                                    (
                                        GameMapV {
                                            planets: map.planets.update(pi, new_pl),
                                            ..map
                                        },
                                        PlayerStateV { robots: p.robots.update(i, new_rob), ..p },
                                    )
                                }
                            },
                        }
                    }
                }
            }
        },
        _ => st,
    }
}

/// The mining step as a fold function over one player's queue.
pub open spec fn spec_mine_step() -> spec_fn(
    (GameMapV, PlayerStateV),
    CommandV,
) -> (GameMapV, PlayerStateV) {
    |st: (GameMapV, PlayerStateV), c: CommandV| spec_mine_one(st, c)
}

/// The effect of the mining phase on one player and the map: every queued
/// mining command in order, then the mining queue is drained.
pub open spec fn spec_mine_player(map: GameMapV, p: PlayerStateV) -> (GameMapV, PlayerStateV) {
    let st = p.commands.mining.fold_left((map, p), spec_mine_step());
    (
        st.0,
        PlayerStateV {
            commands: CommandQueuesV { mining: Seq::empty(), ..st.1.commands },
            ..st.1
        },
    )
}

/// The mining round step: one player is processed against the map so far.
pub open spec fn spec_mine_round_step() -> spec_fn(
    (GameMapV, Seq<PlayerStateV>),
    PlayerStateV,
) -> (GameMapV, Seq<PlayerStateV>) {
    |acc: (GameMapV, Seq<PlayerStateV>), p: PlayerStateV|
        {
            let st = spec_mine_player(acc.0, p);
            (st.0, acc.1.push(st.1))
        }
}

/// The effect of the mining phase on a whole round: players mine in order,
/// each against the map as the previous players left it.
pub open spec fn spec_mine_round(rs: RoundStateV) -> RoundStateV {
    let st = rs.players.fold_left(
        (rs.map, Seq::<PlayerStateV>::empty()),
        spec_mine_round_step(),
    );
    RoundStateV { map: st.0, players: st.1, ..rs }
}

/// Runs every queued mining command of one player against the map.
fn mine_for_player(map: &mut GameMap, p: &mut PlayerState)
    requires
        old(p)@.wf(),
        old(map)@.wf(),
    ensures
        final(map)@ == spec_mine_player(old(map)@, old(p)@).0,
        final(p)@ == spec_mine_player(old(map)@, old(p)@).1,
        final(p)@.wf(),
        final(map)@.wf(),
        final(p)@.player_name == old(p)@.player_name,
        final(p)@.robots.len() == old(p)@.robots.len(),
        forall|k: int| 0 <= k < old(p)@.robots.len() ==>
            (#[trigger] final(p)@.robots[k]).robot_id == old(p)@.robots[k].robot_id,
        final(map)@.indices == old(map)@.indices,
        final(map)@.planets.len() == old(map)@.planets.len(),
        forall|k: int| 0 <= k < old(map)@.planets.len() ==>
            (#[trigger] final(map)@.planets[k]).planet_id == old(map)@.planets[k].planet_id,
{
    let ghost m0 = old(map)@;
    let ghost p0 = old(p)@;
    let ghost q = old(p)@.commands.mining;
    let n: usize = p.commands.mining.len();
    for ci in 0..n
        invariant
            n == q.len(),
            q == p0.commands.mining,
            p@.commands.mining == q,
            p@.commands == p0.commands,
            p@.wf(),
            map@.wf(),
            (map@, p@) == q.take(ci as int).fold_left((m0, p0), spec_mine_step()),
            p@.player_name == p0.player_name,
            p@.robots.len() == p0.robots.len(),
            forall|k: int| 0 <= k < p0.robots.len() ==>
                (#[trigger] p@.robots[k]).robot_id == p0.robots[k].robot_id,
            map@.indices == m0.indices,
            map@.planets.len() == m0.planets.len(),
            forall|k: int| 0 <= k < m0.planets.len() ==>
                (#[trigger] map@.planets[k]).planet_id == m0.planets[k].planet_id,
    {
        let ghost before_m = map@;
        let ghost before_p = p@;
        let ghost c = q[ci as int];
        proof {
            assert(p@.commands.mining[ci as int] == p.commands.mining@[ci as int]@);
            assert(p.commands.mining@[ci as int]@ == c);
        }
        let rid_opt: Option<u64> = p.commands.mining[ci].command_object.robot_id;
        let target_opt: Option<u64> = p.commands.mining[ci].command_object.target_id;
        match (rid_opt, target_opt) {
            (Some(rid), Some(target)) => {
                match p.find_robot(rid) {
                    None => {},
                    Some(j) => {
                        proof {
                            assert(before_p.spec_owns_robot(rid));
                            let i0 = spec_robot_index(before_p.robots, rid);
                            assert(0 <= i0 < before_p.robots.len()
                                && before_p.robots[i0].robot_id == rid);
                            assert(i0 == j as int);
                            assert((#[trigger] before_p.robots[j as int]).wf());
                        }
                        let rob: Robot = p.robots[j];
                        if rob.is_alive() {
                            match map.find_planet(target) {
                                None => {},
                                Some(pi) => {
                                    proof {
                                        let i1 = spec_planet_index(before_m.planets, target);
                                        assert(0 <= i1 < before_m.planets.len()
                                            && before_m.planets[i1].planet_id == target);
                                        assert(i1 == pi as int);
                                    }
                                    let pl: Planet = map.planets[pi];
                                    if rob.planet_id == target && !rob.is_storage_full() {
                                        match pl.resources {
                                            None => {},
                                            Some((res, amount)) => {
                                                if rob.levels.can_mine(&res) && amount > 0 {
                                                    let free: u32 =
                                                        rob.get_free_storage_space();
                                                    let speed: u32 =
                                                        rob.levels.get_mining_amount_for_level();
                                                    let potential: u32 = min_u32(free, speed);
                                                    let mined: u32 = min_u32(potential, amount);
                                                    let mut new_rob: Robot = rob;
                                                    new_rob.add_resource_to_inventory(
                                                        &res,
                                                        &mined,
                                                    );
                                                    let mut new_pl: Planet = pl;
                                                    if amount - mined == 0 {
                                                        new_pl.resources = None;
                                                    } else {
                                                        new_pl.resources =
                                                            Some((res, amount - mined));
                                                    }
                                                    p.robots[j] = new_rob;
                                                    map.planets[pi] = new_pl;
                                                }
                                            },
                                        }
                                    }
                                },
                            }
                        }
                    },
                }
            },
            _ => {},
        }
        proof {
            assert((map@, p@) =~= spec_mine_one((before_m, before_p), c));
            assert(q.take(ci + 1).drop_last() =~= q.take(ci as int));
            assert(q.take(ci + 1).last() == c);
            assert((map@, p@) == q.take(ci + 1).fold_left((m0, p0), spec_mine_step()));
        }
    }
    p.commands.mining.clear();
    proof {
        assert(q.take(n as int) =~= q);
        assert(p@ =~= spec_mine_player(m0, p0).1);
        assert(map@ == spec_mine_player(m0, p0).0);
    }
}

/// The mining phase over the current round: every player's queued mining
/// commands run in player order against the shared map, and the mining
/// queues are drained.  Nothing else of the game changes.
pub fn handle_mining_commands(game_state: &mut GameState)
    requires
        old(game_state)@.wf(),
    ensures
        final(game_state)@.wf(),
        final(game_state)@ == (GameStateV {
            round_states: old(game_state)@.round_states.update(
                old(game_state)@.round_states.len() - 1,
                spec_mine_round(old(game_state)@.spec_current()),
            ),
            ..old(game_state)@
        }),
{
    let ghost g0 = old(game_state)@;
    let ghost cur0 = old(game_state)@.spec_current();
    let mut rs: RoundState = game_state.round_states.pop().unwrap();
    proof {
        assert(rs@ == cur0);
        assert(cur0.wf());
    }
    let RoundState { round_number, players, map } = rs;
    let mut map: GameMap = map;
    let n: usize = players.len();
    let mut new_players: Vec<PlayerState> = Vec::new();
    for i in 0..n
        invariant
            n == cur0.players.len(),
            players.deep_view() == cur0.players,
            players@.len() == n,
            cur0.wf(),
            new_players@.len() == i,
            (map@, new_players.deep_view()) == cur0.players.take(i as int).fold_left(
                (cur0.map, Seq::<PlayerStateV>::empty()),
                spec_mine_round_step(),
            ),
            map@.wf(),
            map@.indices == cur0.map.indices,
            map@.planets.len() == cur0.map.planets.len(),
            forall|k: int| 0 <= k < cur0.map.planets.len() ==>
                (#[trigger] map@.planets[k]).planet_id == cur0.map.planets[k].planet_id,
            forall|j: int| 0 <= j < i ==> (#[trigger] new_players.deep_view()[j]).wf(),
            forall|j: int| 0 <= j < i ==>
                (#[trigger] new_players.deep_view()[j]).player_name
                    == cur0.players[j].player_name,
            forall|j: int| 0 <= j < i ==>
                (#[trigger] new_players.deep_view()[j]).robots.len()
                    == cur0.players[j].robots.len(),
            forall|j: int, k: int|
                #![trigger new_players.deep_view()[j].robots[k]]
                0 <= j < i && 0 <= k < cur0.players[j].robots.len() ==>
                    new_players.deep_view()[j].robots[k].robot_id
                        == cur0.players[j].robots[k].robot_id,
    {
        let mut p: PlayerState = players[i].clone();
        proof {
            assert(p@ == cur0.players[i as int]);
            assert((#[trigger] cur0.players[i as int]).wf());
        }
        let ghost m_before = map@;
        mine_for_player(&mut map, &mut p);
        let ghost pv = p@;
        let ghost np_old = new_players.deep_view();
        let ghost npv_vec = new_players@;
        new_players.push(p);
        proof {
            assert forall|j: int| 0 <= j < i implies
                #[trigger] new_players.deep_view()[j] == np_old[j]
            by {
                assert(new_players@[j] == npv_vec[j]);
            }
            assert(new_players.deep_view()[i as int] == pv);
            assert(new_players.deep_view() =~= np_old.push(pv));
            assert(cur0.players.take(i + 1).drop_last() =~= cur0.players.take(i as int));
            assert(cur0.players.take(i + 1).last() == cur0.players[i as int]);
            assert((map@, new_players.deep_view()) == cur0.players.take(i + 1).fold_left(
                (cur0.map, Seq::<PlayerStateV>::empty()),
                spec_mine_round_step(),
            ));
        }
    }
    let ghost npv = new_players.deep_view();
    let rs2 = RoundState { round_number, players: new_players, map };
    let ghost rsv = rs2@;
    game_state.round_states.push(rs2);
    proof {
        assert(cur0.players.take(n as int) =~= cur0.players);
        assert(rsv =~= spec_mine_round(cur0));
        let gv = game_state@;
        let last = g0.round_states.len() - 1;
        assert(gv.round_states =~= g0.round_states.update(last, spec_mine_round(cur0)));
        assert(gv =~= (GameStateV {
            round_states: g0.round_states.update(last, spec_mine_round(cur0)),
            ..g0
        }));
        assert(gv.wf()) by {
            assert forall|r: int| 0 <= r < gv.round_states.len() implies
                (#[trigger] gv.round_states[r]).wf() && gv.round_states[r].round_number == r
            by {
                if r != last {
                    assert(gv.round_states[r] == g0.round_states[r]);
                } else {
                    assert(gv.round_states[r] == rsv);
                    assert forall|a: int| 0 <= a < rsv.players.len() implies
                        (#[trigger] rsv.players[a]).wf()
                            && rsv.players[a].player_name == cur0.players[a].player_name
                    by {
                        assert(rsv.players[a] == npv[a]);
                    }
                    assert forall|a: int, b: int, x: int, y: int|
                        #![trigger rsv.players[a].robots[x], rsv.players[b].robots[y]]
                        0 <= a < rsv.players.len() && 0 <= b < rsv.players.len() && a != b
                            && 0 <= x < rsv.players[a].robots.len()
                            && 0 <= y < rsv.players[b].robots.len() implies
                        rsv.players[a].robots[x].robot_id != rsv.players[b].robots[y].robot_id
                    by {
                        assert(rsv.players[a] == npv[a]);
                        assert(rsv.players[b] == npv[b]);
                        assert(rsv.players[a].robots[x].robot_id
                            == cur0.players[a].robots[x].robot_id);
                        assert(rsv.players[b].robots[y].robot_id
                            == cur0.players[b].robots[y].robot_id);
                    }
                    assert(rsv.wf());
                }
            }
        }
    }
}

} // verus!
