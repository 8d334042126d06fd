//! The selling phase: robots turn their whole inventory into money.

use vstd::prelude::*;

use crate::command::CommandV;
use crate::game_state::GameState;
use crate::game_state::GameStateV;
use crate::game_state::RoundState;
use crate::game_state::RoundStateV;
use crate::player::CommandQueuesV;
use crate::player::PlayerState;
use crate::player::PlayerStateV;
use crate::player::spec_robot_index;
use crate::robot::Inventory;
use crate::robot::Robot;
use crate::util::saturating_add_u32;
use crate::util::spec_sat_add;

verus! {

/// The effect of one sell command on its player.  The referenced robot must
/// exist, be alive and carry something of value; then the inventory's value
/// is credited to the player's money, the cumulative earnings and the
/// robot's own earnings (each saturating at the counter ceiling), and the
/// inventory is cleared.  A command that fails any check changes nothing.
pub open spec fn spec_sell_one(p: PlayerStateV, c: CommandV) -> PlayerStateV {
    match c.command_object.robot_id {
        None => p,
        Some(rid) => {
            if !p.spec_owns_robot(rid) {
                p
            } else {
                let i = spec_robot_index(p.robots, rid);
                let rob = p.robots[i];
                if rob.health == 0 || rob.inventory.spec_total() == 0
                    || rob.inventory.spec_value() == 0 {
                    p
                } else {
                    let v = rob.inventory.spec_value();
                    PlayerStateV {
                        money: spec_sat_add(p.money, v),
                        total_money_made: spec_sat_add(p.total_money_made, v),
                        robots: p.robots.update(i, Robot {
                            inventory: Inventory::spec_empty(),
                            money_made: spec_sat_add(rob.money_made, v),
                            ..rob
                        }),
                        ..p
                    }
                }
            }
        },
    }
}

/// The selling step as a fold function.
pub open spec fn spec_sell_step() -> spec_fn(PlayerStateV, CommandV) -> PlayerStateV {
    |p: PlayerStateV, c: CommandV| spec_sell_one(p, c)
}

/// The effect of the selling phase on one player: every queued sell command
/// in order, then the selling queue is drained.
pub open spec fn spec_sell_player(p: PlayerStateV) -> PlayerStateV {
    let p2 = p.commands.selling.fold_left(p, spec_sell_step());
    PlayerStateV {
        commands: CommandQueuesV { selling: Seq::empty(), ..p2.commands },
        ..p2
    }
}

/// The effect of the selling phase on a whole round.
pub open spec fn spec_sell_round(rs: RoundStateV) -> RoundStateV {
    RoundStateV {
        players: Seq::new(rs.players.len(), |i: int| spec_sell_player(rs.players[i])),
        ..rs
    }
}

/// Runs every queued sell command of one player.
fn sell_for_player(p: &mut PlayerState)
    requires
        old(p)@.wf(),
    ensures
        final(p)@ == spec_sell_player(old(p)@),
        final(p)@.wf(),
        final(p)@.player_name == old(p)@.player_name,
        final(p)@.robots.len() == old(p)@.robots.len(),
        forall|k: int| 0 <= k < old(p)@.robots.len() ==>
            (#[trigger] final(p)@.robots[k]).robot_id == old(p)@.robots[k].robot_id,
{
    let ghost p0 = old(p)@;
    let ghost q = old(p)@.commands.selling;
    let n: usize = p.commands.selling.len();
    for ci in 0..n
        invariant
            n == q.len(),
            p@.commands.selling == q,
            p@.commands == p0.commands,
            p@.wf(),
            p@ == q.take(ci as int).fold_left(p0, spec_sell_step()),
            p@.player_name == p0.player_name,
            p@.robots.len() == p0.robots.len(),
            forall|k: int| 0 <= k < p0.robots.len() ==>
                (#[trigger] p@.robots[k]).robot_id == p0.robots[k].robot_id,
    {
        let ghost before = p@;
        let ghost c = q[ci as int];
        proof {
            assert(p@.commands.selling == q);
            assert(p@.commands.selling.len() == q.len());
            assert(p@.commands.selling[ci as int] == p.commands.selling@[ci as int]@);
            assert(p.commands.selling@[ci as int]@ == c);
        }
        let rid_opt: Option<u64> = p.commands.selling[ci].command_object.robot_id;
        match rid_opt {
            None => {},
            Some(rid) => {
                match p.find_robot(rid) {
                    None => {},
                    Some(j) => {
                        proof {
                            assert(before.spec_owns_robot(rid));
                            let i0 = spec_robot_index(before.robots, rid);
                            assert(0 <= i0 < before.robots.len()
                                && before.robots[i0].robot_id == rid);
                            assert(i0 == j as int);
                            assert((#[trigger] before.robots[j as int]).wf());
                        }
                        let rob: Robot = p.robots[j];
                        if rob.is_alive() && !rob.inventory.is_empty() {
                            let v: u32 = rob.get_storage_value();
                            if v > 0 {
                                p.money.amount = saturating_add_u32(p.money.amount, v);
                                p.total_money_made.amount =
                                    saturating_add_u32(p.total_money_made.amount, v);
                                let mut new_rob: Robot = rob;
                                new_rob.money_made = saturating_add_u32(rob.money_made, v);
                                new_rob.inventory = Inventory::new();
                                p.robots[j] = new_rob;
                            }
                        }
                    },
                }
            },
        }
        proof {
            assert(p@ =~= spec_sell_one(before, c));
            assert(q.take(ci + 1).drop_last() =~= q.take(ci as int));
            assert(q.take(ci + 1).last() == c);
            assert(p@ == q.take(ci + 1).fold_left(p0, spec_sell_step()));
        }
    }
    p.commands.selling.clear();
    proof {
        assert(q.take(n as int) =~= q);
        assert(p@ =~= spec_sell_player(p0));
    }
}

/// The selling phase over the current round: for every player in order,
/// every queued sell command is applied and the selling queues are drained.
/// Nothing else of the game changes.
pub fn handle_selling_commands(game_state: &mut GameState)
    requires
        old(game_state)@.wf(),
    ensures
        final(game_state)@.wf(),
        final(game_state)@ == (GameStateV {
            round_states: old(game_state)@.round_states.update(
                old(game_state)@.round_states.len() - 1,
                spec_sell_round(old(game_state)@.spec_current()),
            ),
            ..old(game_state)@
        }),
{
    let ghost g0 = old(game_state)@;
    let ghost cur0 = old(game_state)@.spec_current();
    let mut rs: RoundState = game_state.round_states.pop().unwrap();
    proof {
        assert(rs@ == cur0);
        assert(cur0.wf());
    }
    let n: usize = rs.players.len();
    let mut new_players: Vec<PlayerState> = Vec::new();
    for i in 0..n
        invariant
            n == cur0.players.len(),
            rs@ == cur0,
            cur0.wf(),
            new_players@.len() == i,
            forall|j: int| 0 <= j < i ==>
                #[trigger] new_players.deep_view()[j] == spec_sell_player(cur0.players[j]),
            forall|j: int| 0 <= j < i ==> (#[trigger] new_players.deep_view()[j]).wf(),
            forall|j: int| 0 <= j < i ==>
                (#[trigger] new_players.deep_view()[j]).player_name
                    == cur0.players[j].player_name,
            forall|j: int| 0 <= j < i ==>
                (#[trigger] new_players.deep_view()[j]).robots.len()
                    == cur0.players[j].robots.len(),
            forall|j: int, k: int|
                #![trigger new_players.deep_view()[j].robots[k]]
                0 <= j < i && 0 <= k < cur0.players[j].robots.len() ==>
                    new_players.deep_view()[j].robots[k].robot_id
                        == cur0.players[j].robots[k].robot_id,
    {
        let mut p: PlayerState = rs.players[i].clone();
        proof {
            assert(p@ == cur0.players[i as int]);
            assert((#[trigger] cur0.players[i as int]).wf());
        }
        sell_for_player(&mut p);
        let ghost pv = p@;
        let ghost np_old = new_players.deep_view();
        let ghost npv_vec = new_players@;
        new_players.push(p);
        proof {
            assert forall|j: int| 0 <= j < i implies
                #[trigger] new_players.deep_view()[j] == np_old[j]
            by {
                assert(new_players@[j] == npv_vec[j]);
            }
            assert(new_players.deep_view()[i as int] == pv);
        }
    }
    let ghost npv = new_players.deep_view();
    rs.players = new_players;
    let ghost rsv = rs@;
    game_state.round_states.push(rs);
    proof {
        assert(rsv.players == npv);
        assert(npv =~= spec_sell_round(cur0).players);
        assert(rsv =~= spec_sell_round(cur0));
        let gv = game_state@;
        let last = g0.round_states.len() - 1;
        assert(gv.round_states =~= g0.round_states.update(last, spec_sell_round(cur0)));
        assert(gv =~= (GameStateV {
            round_states: g0.round_states.update(last, spec_sell_round(cur0)),
            ..g0
        }));
        assert(gv.wf()) by {
            assert forall|r: int| 0 <= r < gv.round_states.len() implies
                (#[trigger] gv.round_states[r]).wf() && gv.round_states[r].round_number == r
            by {
                if r != last {
                    assert(gv.round_states[r] == g0.round_states[r]);
                } else {
                    let nrs = spec_sell_round(cur0);
                    assert(gv.round_states[r] == nrs);
                    assert forall|a: int| 0 <= a < nrs.players.len() implies
                        (#[trigger] nrs.players[a]).wf()
                            && nrs.players[a].player_name == cur0.players[a].player_name
                    by {
                        assert(nrs.players[a] == npv[a]);
                    }
                    assert forall|a: int, b: int, x: int, y: int|
                        #![trigger nrs.players[a].robots[x], nrs.players[b].robots[y]]
                        0 <= a < nrs.players.len() && 0 <= b < nrs.players.len() && a != b
                            && 0 <= x < nrs.players[a].robots.len()
                            && 0 <= y < nrs.players[b].robots.len() implies
                        nrs.players[a].robots[x].robot_id != nrs.players[b].robots[y].robot_id
                    by {
                        assert(nrs.players[a] == npv[a]);
                        assert(nrs.players[b] == npv[b]);
                        assert(nrs.players[a].robots[x].robot_id
                            == cur0.players[a].robots[x].robot_id);
                        assert(nrs.players[b].robots[y].robot_id
                            == cur0.players[b].robots[y].robot_id);
                    }
                    assert(nrs.wf());
                }
            }
        }
    }
}

} // verus!
