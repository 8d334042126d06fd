//! The regeneration phase: live robots regain energy up to their ceiling.

use vstd::prelude::*;

use crate::command::CommandV;
use crate::game_state::GameState;
use crate::game_state::GameStateV;
use crate::game_state::RoundState;
use crate::game_state::RoundStateV;
use crate::player::CommandQueuesV;
use crate::player::PlayerState;
use crate::player::PlayerStateV;
use crate::player::spec_robot_index;
use crate::robot::Robot;
use crate::robot_levels::spec_energy_for_level;
use crate::robot_levels::spec_energy_regen_for_level;

verus! {

/// The effect of one regenerate command: the referenced robot, if owned and
/// alive, regains the regeneration amount of its level, clamped at its
/// energy ceiling.  Dead or missing robots are skipped.
pub open spec fn spec_regen_one(p: PlayerStateV, c: CommandV) -> PlayerStateV {
    match c.command_object.robot_id {
        None => p,
        Some(rid) => {
            if !p.spec_owns_robot(rid) {
                p
            } else {
                let i = spec_robot_index(p.robots, rid);
                let rob = p.robots[i];
                if rob.health == 0 {
                    p
                } else {
                    let cap = spec_energy_for_level(rob.levels.energy_level);
                    let regen = spec_energy_regen_for_level(rob.levels.energy_regen_level);
                    let e = if rob.energy + regen > cap {
                        cap
                    } else {
                        (rob.energy + regen) as u32
                    };
                    PlayerStateV {
                        robots: p.robots.update(i, Robot { energy: e, ..rob }),
                        ..p
                    }
                }
            }
        },
    }
}

/// The regeneration step as a fold function.
pub open spec fn spec_regen_step() -> spec_fn(PlayerStateV, CommandV) -> PlayerStateV {
    |p: PlayerStateV, c: CommandV| spec_regen_one(p, c)
}

/// The effect of the regeneration phase on one player: every queued
/// regenerate command in order, then the queue is drained.
pub open spec fn spec_regen_player(p: PlayerStateV) -> PlayerStateV {
    let p2 = p.commands.regenerate.fold_left(p, spec_regen_step());
    PlayerStateV {
        commands: CommandQueuesV { regenerate: Seq::empty(), ..p2.commands },
        ..p2
    }
}

/// The effect of the regeneration phase on a whole round.
pub open spec fn spec_regen_round(rs: RoundStateV) -> RoundStateV {
    RoundStateV {
        players: Seq::new(rs.players.len(), |i: int| spec_regen_player(rs.players[i])),
        ..rs
    }
}

/// Runs every queued regenerate command of one player.
fn regenerate_for_player(p: &mut PlayerState)
    requires
        old(p)@.wf(),
    ensures
        final(p)@ == spec_regen_player(old(p)@),
        final(p)@.wf(),
        final(p)@.player_name == old(p)@.player_name,
        final(p)@.robots.len() == old(p)@.robots.len(),
        forall|k: int| 0 <= k < old(p)@.robots.len() ==>
            (#[trigger] final(p)@.robots[k]).robot_id == old(p)@.robots[k].robot_id,
{
    let ghost p0 = old(p)@;
    let ghost q = old(p)@.commands.regenerate;
    let n: usize = p.commands.regenerate.len();
    for ci in 0..n
        invariant
            n == q.len(),
            p@.commands.regenerate == q,
            p@.commands == p0.commands,
            p@.wf(),
            p@ == q.take(ci as int).fold_left(p0, spec_regen_step()),
            p@.player_name == p0.player_name,
            p@.robots.len() == p0.robots.len(),
            forall|k: int| 0 <= k < p0.robots.len() ==>
                (#[trigger] p@.robots[k]).robot_id == p0.robots[k].robot_id,
    {
        let ghost before = p@;
        let ghost c = q[ci as int];
        proof {
            assert(p@.commands.regenerate[ci as int]
                == p.commands.regenerate@[ci as int]@);
            assert(p.commands.regenerate@[ci as int]@ == c);
        }
        let rid_opt: Option<u64> = p.commands.regenerate[ci].command_object.robot_id;
        match rid_opt {
            None => {},
            Some(rid) => {
                match p.find_robot(rid) {
                    None => {},
                    Some(j) => {
                        proof {
                            assert(before.spec_owns_robot(rid));
                            let i0 = spec_robot_index(before.robots, rid);
                            assert(0 <= i0 < before.robots.len()
                                && before.robots[i0].robot_id == rid);
                            assert(i0 == j as int);
                            assert((#[trigger] before.robots[j as int]).wf());
                        }
                        let mut rob: Robot = p.robots[j];
                        rob.regenerate();
                        p.robots[j] = rob;
                    },
                }
            },
        }
        proof {
            assert(p@ =~= spec_regen_one(before, c));
            assert(q.take(ci + 1).drop_last() =~= q.take(ci as int));
            assert(q.take(ci + 1).last() == c);
            assert(p@ == q.take(ci + 1).fold_left(p0, spec_regen_step()));
        }
    }
    p.commands.regenerate.clear();
    proof {
        assert(q.take(n as int) =~= q);
        assert(p@ =~= spec_regen_player(p0));
    }
}

/// The regeneration phase over the current round: every player's queued
/// regenerate commands are applied and the queues are drained.  Nothing
/// else of the game changes.
pub fn handle_regenerate_commands(game_state: &mut GameState)
    requires
        old(game_state)@.wf(),
    ensures
        final(game_state)@.wf(),
        final(game_state)@ == (GameStateV {
            round_states: old(game_state)@.round_states.update(
                old(game_state)@.round_states.len() - 1,
                spec_regen_round(old(game_state)@.spec_current()),
            ),
            ..old(game_state)@
        }),
{
    let ghost g0 = old(game_state)@;
    let ghost cur0 = old(game_state)@.spec_current();
    let mut rs: RoundState = game_state.round_states.pop().unwrap();
    proof {
        assert(rs@ == cur0);
        assert(cur0.wf());
    }
    let n: usize = rs.players.len();
    let mut new_players: Vec<PlayerState> = Vec::new();
    for i in 0..n
        invariant
            n == cur0.players.len(),
            rs@ == cur0,
            cur0.wf(),
            new_players@.len() == i,
            forall|j: int| 0 <= j < i ==>
                #[trigger] new_players.deep_view()[j] == spec_regen_player(cur0.players[j]),
            forall|j: int| 0 <= j < i ==> (#[trigger] new_players.deep_view()[j]).wf(),
            forall|j: int| 0 <= j < i ==>
                (#[trigger] new_players.deep_view()[j]).player_name
                    == cur0.players[j].player_name,
            forall|j: int| 0 <= j < i ==>
                (#[trigger] new_players.deep_view()[j]).robots.len()
                    == cur0.players[j].robots.len(),
            forall|j: int, k: int|
                #![trigger new_players.deep_view()[j].robots[k]]
                0 <= j < i && 0 <= k < cur0.players[j].robots.len() ==>
                    new_players.deep_view()[j].robots[k].robot_id
                        == cur0.players[j].robots[k].robot_id,
    {
        let mut p: PlayerState = rs.players[i].clone();
        proof {
            assert(p@ == cur0.players[i as int]);
            assert((#[trigger] cur0.players[i as int]).wf());
        }
        regenerate_for_player(&mut p);
        let ghost pv = p@;
        let ghost np_old = new_players.deep_view();
        let ghost npv_vec = new_players@;
        new_players.push(p);
        proof {
            assert forall|j: int| 0 <= j < i implies
                #[trigger] new_players.deep_view()[j] == np_old[j]
            by {
                assert(new_players@[j] == npv_vec[j]);
            }
            assert(new_players.deep_view()[i as int] == pv);
        }
    }
    let ghost npv = new_players.deep_view();
    rs.players = new_players;
    let ghost rsv = rs@;
    game_state.round_states.push(rs);
    proof {
        assert(rsv.players == npv);
        assert(npv =~= spec_regen_round(cur0).players);
        assert(rsv =~= spec_regen_round(cur0));
        let gv = game_state@;
        let last = g0.round_states.len() - 1;
        assert(gv.round_states =~= g0.round_states.update(last, spec_regen_round(cur0)));
        assert(gv =~= (GameStateV {
            round_states: g0.round_states.update(last, spec_regen_round(cur0)),
            ..g0
        }));
        assert(gv.wf()) by {
            assert forall|r: int| 0 <= r < gv.round_states.len() implies
                (#[trigger] gv.round_states[r]).wf() && gv.round_states[r].round_number == r
            by {
                if r != last {
                    assert(gv.round_states[r] == g0.round_states[r]);
                } else {
                    let nrs = spec_regen_round(cur0);
                    assert(gv.round_states[r] == nrs);
                    assert forall|a: int| 0 <= a < nrs.players.len() implies
                        (#[trigger] nrs.players[a]).wf()
                            && nrs.players[a].player_name == cur0.players[a].player_name
                    by {
                        assert(nrs.players[a] == npv[a]);
                    }
                    assert forall|a: int, b: int, x: int, y: int|
                        #![trigger nrs.players[a].robots[x], nrs.players[b].robots[y]]
                        0 <= a < nrs.players.len() && 0 <= b < nrs.players.len() && a != b
                            && 0 <= x < nrs.players[a].robots.len()
                            && 0 <= y < nrs.players[b].robots.len() implies
                        nrs.players[a].robots[x].robot_id != nrs.players[b].robots[y].robot_id
                    by {
                        assert(nrs.players[a] == npv[a]);
                        assert(nrs.players[b] == npv[b]);
                        assert(nrs.players[a].robots[x].robot_id
                            == cur0.players[a].robots[x].robot_id);
                        assert(nrs.players[b].robots[y].robot_id
                            == cur0.players[b].robots[y].robot_id);
                    }
                    assert(nrs.wf());
                }
            }
        }
    }
}

} // verus!
