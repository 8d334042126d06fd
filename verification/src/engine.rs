//! The round engine: joining and starting games, the readiness gate, the
//! fixed-order resolution pipeline, the round transition and the
//! early-elimination rule.

use vstd::prelude::*;

use crate::command::Command;
use crate::command::CommandType;
use crate::command::CommandV;
use crate::game_state::GameState;
use crate::game_state::GameStateV;
use crate::game_state::GameStatus;
use crate::game_state::RoundState;
use crate::game_state::RoundStateV;
use crate::game_state::spec_status_le;
use crate::handler::battle::apply_damage_for_round;
use crate::handler::battle::calculate_damage_for_round;
use crate::handler::battle::delete_commands_for_dead_robots;
use crate::handler::battle::spec_apply_reports;
use crate::handler::battle::spec_calc_round_reports;
use crate::handler::battle::spec_calc_round_state;
use crate::handler::battle::spec_purge_round;
use crate::handler::buy::handle_buy_commands;
use crate::handler::buy::spec_buy_players_rel;
use crate::handler::buy::spec_next_robot_id;
use crate::handler::mining::handle_mining_commands;
use crate::handler::mining::spec_mine_round;
use crate::handler::movement::handle_movement_commands;
use crate::handler::movement::spec_move_round;
use crate::handler::regenerate::handle_regenerate_commands;
use crate::handler::regenerate::spec_regen_round;
use crate::handler::sell::handle_selling_commands;
use crate::handler::sell::spec_sell_round;
use crate::item::Item;
use crate::player::CommandQueuesV;
use crate::player::PlayerState;
use crate::player::PlayerStateV;
use crate::player::spec_name_index;

verus! {

/// Why a request was rejected.
#[derive(Clone, Copy, Debug, PartialEq, Eq, Structural)]
pub enum SubmitError {
    NoCommands,
    WrongStatus(GameStatus),
    UnknownPlayer,
}

/// What a successful submission led to.
#[derive(Clone, Copy, Debug, PartialEq, Eq, Structural)]
pub enum SubmitOutcome {
    Waiting,
    Resolved,
}

/// Why a join request was rejected.
#[derive(Clone, Copy, Debug, PartialEq, Eq, Structural)]
pub enum JoinError {
    WrongStatus(GameStatus),
    AlreadyJoined,
}

/// Why a start or end request was rejected.
#[derive(Clone, Copy, Debug, PartialEq, Eq, Structural)]
pub enum LifecycleError {
    WrongStatus(GameStatus),
    NoPlayers,
}

/// The money a player starts with.
pub open spec fn spec_starting_money() -> u32 {
    500
}

/// Whether one player has supplied enough commands for the round: at least
/// one command, and either no robots but a buy command, or a command
/// naming every owned robot.
pub open spec fn spec_player_ready(p: PlayerStateV) -> bool {
    &&& !p.commands.spec_is_empty()
    &&& if p.robots.len() == 0 {
        p.commands.buying.len() > 0
    } else {
        forall|k: int| 0 <= k < p.robots.len() ==>
            p.commands.spec_references_robot((#[trigger] p.robots[k]).robot_id)
    }
}

/// Whether the round is ready to resolve: every player is ready.
pub open spec fn spec_all_ready(rs: RoundStateV) -> bool {
    forall|i: int| 0 <= i < rs.players.len() ==> spec_player_ready(#[trigger] rs.players[i])
}

/// The readiness gate: whether every player of the current round has
/// submitted at least one command, and commands covering every robot they
/// own (or a buy command, for a player with no robots).
pub fn all_players_submitted_commands(game_state: &GameState) -> (r: bool)
    requires
        game_state@.wf(),
    ensures
        r == spec_all_ready(game_state@.spec_current()),
{
    let rs = game_state.current_round_state();
    let n: usize = rs.players.len();
    for i in 0..n
        invariant
            rs@ == game_state@.spec_current(),
            n == rs@.players.len(),
            forall|j: int| 0 <= j < i ==> spec_player_ready(#[trigger] rs@.players[j]),
    {
        proof {
            assert(rs@.players[i as int] == rs.players@[i as int]@);
        }
        let p = &rs.players[i];
        if !p.commands.has_any_command() {
            proof {
                assert(!spec_player_ready(rs@.players[i as int]));
            }
            return false;
        }
        if p.robots.len() == 0 {
            if p.commands.buying.len() == 0 {
                proof {
                    assert(!spec_player_ready(rs@.players[i as int]));
                }
                return false;
            }
        } else {
            let rn: usize = p.robots.len();
            for k in 0..rn
                invariant
                    rs@ == game_state@.spec_current(),
                    i < rs@.players.len(),
                    rs@.players[i as int] == p@,
                    rn == p@.robots.len(),
                    forall|w: int| 0 <= w < k ==>
                        p@.commands.spec_references_robot(
                            (#[trigger] p@.robots[w]).robot_id,
                        ),
            {
                if !p.commands.references_robot(p.robots[k].robot_id) {
                    proof {
                        assert(!p@.commands.spec_references_robot(
                            (#[trigger] p@.robots[k as int]).robot_id,
                        ));
                        assert(!spec_player_ready(rs@.players[i as int]));
                    }
                    return false;
                }
            }
        }
        proof {
            assert(spec_player_ready(rs@.players[i as int]));
        }
    }
    true
}

/// What resolving one round amounts to: the six phases in their fixed
/// order, selling, buying, movement, battle (calculation, application and
/// the dead-robot purge), mining and regeneration.  Buying makes this a
/// relation, since new robots land on randomly chosen planets.
pub open spec fn spec_resolve_rel(rs0: RoundStateV, out: RoundStateV) -> bool {
    exists|rs2: RoundStateV|
        {
            let rs1 = #[trigger] spec_sell_round(rs0);
            &&& rs2.map == rs1.map
            &&& rs2.round_number == rs1.round_number
            &&& (exists|nid2: u64|
                spec_buy_players_rel(
                    rs1.map,
                    spec_next_robot_id(rs1.players),
                    rs1.players,
                    #[trigger] rs2.players,
                    nid2,
                ))
            &&& {
                let rs3 = spec_move_round(rs2);
                let reports = spec_calc_round_reports(rs3);
                let rs4 = spec_calc_round_state(rs3);
                let rs5 = RoundStateV {
                    players: spec_apply_reports(rs4.players, reports),
                    ..rs4
                };
                out == spec_regen_round(spec_mine_round(spec_purge_round(rs5)))
            }
        }
}

/// What the round transition does to the whole game: the pre-resolution
/// snapshot keeps its place in the history; while rounds are left, the
/// resolved state is appended under the next round number and the round
/// counter advances; on the last round the game ends and the resolved
/// state is discarded.
pub open spec fn spec_process_rel(g: GameStateV, g2: GameStateV) -> bool {
    if g.current_round < g.max_rounds {
        exists|out: RoundStateV|
            #[trigger] spec_resolve_rel(g.spec_current(), out) && g2 == (GameStateV {
                current_round: (g.current_round + 1) as u16,
                round_states: g.round_states.push(RoundStateV {
                    round_number: g.round_states.len() as u16,
                    ..out
                }),
                ..g
            })
    } else {
        g2 == (GameStateV { status: GameStatus::Ended, ..g })
    }
}

/// Runs the six phases in their fixed order over the current round.
fn run_phases(game_state: &mut GameState)
    requires
        old(game_state)@.wf(),
    ensures
        final(game_state)@.wf(),
        spec_resolve_rel(old(game_state)@.spec_current(), final(game_state)@.spec_current()),
        final(game_state)@ == (GameStateV {
            round_states: old(game_state)@.round_states.update(
                old(game_state)@.round_states.len() - 1,
                final(game_state)@.spec_current(),
            ),
            ..old(game_state)@
        }),
{
    let ghost g0 = old(game_state)@;
    let ghost cur0 = old(game_state)@.spec_current();
    handle_selling_commands(game_state);
    let ghost s1 = game_state@.spec_current();
    proof {
        assert(s1 == spec_sell_round(cur0));
    }
    handle_buy_commands(game_state);
    let ghost s2 = game_state@.spec_current();
    proof {
        assert(s2.map == s1.map && s2.round_number == s1.round_number);
        assert(exists|nid2: u64|
            spec_buy_players_rel(
                s1.map,
                spec_next_robot_id(s1.players),
                s1.players,
                s2.players,
                nid2,
            ));
    }
    handle_movement_commands(game_state);
    let ghost s3 = game_state@.spec_current();
    proof {
        assert(s3 == spec_move_round(s2));
    }
    let reports = calculate_damage_for_round(game_state);
    let ghost s4 = game_state@.spec_current();
    let ghost repv = reports.deep_view();
    proof {
        assert(s4 == spec_calc_round_state(s3));
        assert(repv == spec_calc_round_reports(s3));
    }
    apply_damage_for_round(reports, game_state);
    let ghost s5 = game_state@.spec_current();
    proof {
        assert(s5 == (RoundStateV { players: spec_apply_reports(s4.players, repv), ..s4 }));
    }
    delete_commands_for_dead_robots(game_state);
    let ghost s6 = game_state@.spec_current();
    proof {
        assert(s6 == spec_purge_round(s5));
    }
    handle_mining_commands(game_state);
    let ghost s7 = game_state@.spec_current();
    proof {
        assert(s7 == spec_mine_round(s6));
    }
    handle_regenerate_commands(game_state);
    let ghost resolved = game_state@.spec_current();
    proof {
        assert(resolved == spec_regen_round(s7));
        assert(spec_resolve_rel(cur0, resolved)) by {
            assert({
                let rs1 = spec_sell_round(cur0);
                &&& s2.map == rs1.map
                &&& s2.round_number == rs1.round_number
                &&& (exists|nid2: u64|
                    spec_buy_players_rel(
                        rs1.map,
                        spec_next_robot_id(rs1.players),
                        rs1.players,
                        s2.players,
                        nid2,
                    ))
                &&& {
                    let rs3 = spec_move_round(s2);
                    let reports2 = spec_calc_round_reports(rs3);
                    let rs4 = spec_calc_round_state(rs3);
                    let rs5 = RoundStateV {
                        players: spec_apply_reports(rs4.players, reports2),
                        ..rs4
                    };
                    resolved == spec_regen_round(spec_mine_round(spec_purge_round(rs5)))
                }
            });
        }
        assert(game_state@.round_states =~= g0.round_states.update(
            g0.round_states.len() - 1,
            resolved,
        ));
        assert(game_state@ =~= (GameStateV {
            round_states: g0.round_states.update(g0.round_states.len() - 1, resolved),
            ..g0
        }));
    }
}

/// Resolves the current round: runs the six phases in their fixed order
/// over all queued commands, preserves the pre-resolution snapshot in the
/// history, and advances the round counter or ends the game.
#[verifier::rlimit(100)]
pub fn process_commands_for_round(game_state: &mut GameState)
    requires
        old(game_state)@.wf(),
        old(game_state)@.status == GameStatus::Started,
    ensures
        final(game_state)@.wf(),
        spec_process_rel(old(game_state)@, final(game_state)@),
        final(game_state)@.round_states.len() >= old(game_state)@.round_states.len(),
        forall|i: int| 0 <= i < old(game_state)@.round_states.len() ==>
            #[trigger] final(game_state)@.round_states[i]
                == old(game_state)@.round_states[i],
        spec_status_le(old(game_state)@.status, final(game_state)@.status),
{
    let ghost g0 = old(game_state)@;
    let ghost cur0 = old(game_state)@.spec_current();
    let snapshot: RoundState = game_state.current_round_state().clone();
    proof {
        assert(snapshot@ == cur0);
    }
    run_phases(game_state);
    let ghost resolved = game_state@.spec_current();
    if game_state.current_round < game_state.max_rounds {
        let ghost dv1 = game_state@.round_states;
        let ghost vec1 = game_state.round_states@;
        let mut resolved_state: RoundState = game_state.round_states.pop().unwrap();
        proof {
            assert(dv1.len() == vec1.len());
            assert(dv1[vec1.len() - 1] == vec1[vec1.len() - 1]@);
            assert(resolved_state@ == resolved);
        }
        game_state.round_states.push(snapshot);
        let num: usize = game_state.round_states.len();
        proof {
            assert(num == g0.round_states.len());
            assert(g0.round_states.len() - 1 <= g0.current_round < g0.max_rounds);
        }
        resolved_state.round_number = num as u16;
        let ghost rsv2 = resolved_state@;
        let ghost vec2 = game_state.round_states@;
        game_state.round_states.push(resolved_state);
        game_state.current_round = game_state.current_round + 1;
        proof {
            let ghost target = g0.round_states.push(RoundStateV {
                round_number: g0.round_states.len() as u16,
                ..resolved
            });
            assert(rsv2 =~= (RoundStateV {
                round_number: g0.round_states.len() as u16,
                ..resolved
            }));
            assert(game_state@.round_states.len() == target.len());
            assert forall|i: int| 0 <= i < game_state@.round_states.len() implies
                #[trigger] game_state@.round_states[i] == target[i]
            by {
                assert(game_state@.round_states[i] == game_state.round_states@[i]@);
                if i < vec2.len() {
                    assert(game_state.round_states@[i] == vec2[i]);
                    if i < vec1.len() - 1 {
                        assert(vec2[i] == vec1[i]);
                        assert(dv1[i] == vec1[i]@);
                        assert(target[i] == g0.round_states[i]);
                    } else {
                        assert(vec2[i] == snapshot);
                        assert(target[i] == g0.round_states[i]);
                        assert(g0.round_states[i] == cur0);
                    }
                } else {
                    assert(game_state.round_states@[i]@ == rsv2);
                    assert(target[i] == rsv2);
                }
            }
            assert(game_state@.round_states =~= target);
            assert(game_state@ =~= (GameStateV {
                current_round: (g0.current_round + 1) as u16,
                round_states: target,
                ..g0
            }));
            assert(spec_resolve_rel(g0.spec_current(), resolved));
            assert(spec_process_rel(g0, game_state@));
            assert forall|i: int| 0 <= i < g0.round_states.len() implies
                #[trigger] game_state@.round_states[i] == g0.round_states[i]
            by {
                assert(game_state@.round_states[i] == target[i]);
            }
            assert(game_state@.wf()) by {
                let gv = game_state@;
                assert forall|r: int| 0 <= r < gv.round_states.len() implies
                    (#[trigger] gv.round_states[r]).wf()
                        && gv.round_states[r].round_number == r
                by {
                    if r < g0.round_states.len() {
                        assert(gv.round_states[r] == g0.round_states[r]);
                    } else {
                        assert(gv.round_states[r] == rsv2);
                        assert(resolved.wf());
                    }
                }
            }
        }
    } else {
        let ghost dv1 = game_state@.round_states;
        let ghost vec1 = game_state.round_states@;
        let _ = game_state.round_states.pop();
        game_state.round_states.push(snapshot);
        game_state.status = GameStatus::Ended;
        proof {
            assert(game_state@.round_states.len() == g0.round_states.len());
            assert forall|i: int| 0 <= i < game_state@.round_states.len() implies
                #[trigger] game_state@.round_states[i] == g0.round_states[i]
            by {
                assert(game_state@.round_states[i] == game_state.round_states@[i]@);
                if i < vec1.len() - 1 {
                    assert(game_state.round_states@[i] == vec1[i]);
                    assert(dv1[i] == vec1[i]@);
                    assert(dv1[i] == g0.round_states[i]);
                } else {
                    assert(game_state.round_states@[i] == snapshot);
                    assert(g0.round_states[i] == cur0);
                }
            }
            assert(game_state@.round_states =~= g0.round_states);
            assert(game_state@ =~= (GameStateV { status: GameStatus::Ended, ..g0 }));
            assert(game_state@.wf());
        }
    }
}

/// The cost of the cheapest robot purchase.
pub open spec fn spec_cheapest_robot_cost() -> int {
    crate::item::spec_item_cost(Item::Robot(1))
}

/// Whether a player is knocked out: no robot alive and too little money
/// for the cheapest robot.
pub open spec fn spec_knocked_out(p: PlayerStateV) -> bool {
    (forall|k: int| 0 <= k < p.robots.len() ==> !(#[trigger] p.robots[k]).spec_alive())
        && p.money < spec_cheapest_robot_cost()
}

/// How many players of the round are knocked out, counting the first `n`.
pub open spec fn spec_knocked_out_count(players: Seq<PlayerStateV>, n: int) -> int
    decreases n,
{
    if n <= 0 {
        0
    } else {
        spec_knocked_out_count(players, n - 1) + if spec_knocked_out(players[n - 1]) {
            1int
        } else {
            0int
        }
    }
}

/// The elimination rule: when at most one player can still afford to play,
/// the round counter is forced to the last round, so that the next
/// resolution ends the game.
pub open spec fn spec_eliminate(g: GameStateV) -> GameStateV {
    let players = g.spec_current().players;
    let ko = spec_knocked_out_count(players, players.len() as int);
    if players.len() > 1 && ko >= players.len() - 1 {
        GameStateV { current_round: g.max_rounds, ..g }
    } else {
        g
    }
}

/// Applies the elimination rule to the game.
fn apply_elimination(game_state: &mut GameState)
    requires
        old(game_state)@.wf(),
        old(game_state)@.status != GameStatus::Created,
    ensures
        final(game_state)@.wf(),
        final(game_state)@ == spec_eliminate(old(game_state)@),
{
    let ghost g0 = old(game_state)@;
    let ghost players = old(game_state)@.spec_current().players;
    let rs = game_state.current_round_state();
    let n: usize = rs.players.len();
    let mut ko: usize = 0;
    for i in 0..n
        invariant
            rs@ == g0.spec_current(),
            n == players.len(),
            players == g0.spec_current().players,
            ko <= i,
            ko == spec_knocked_out_count(players, i as int),
    {
        proof {
            assert(rs@.players[i as int] == rs.players@[i as int]@);
        }
        let no_alive: bool = !rs.players[i].has_alive_robot();
        let poor: bool = rs.players[i].money.amount < Item::Robot(1).get_cost();
        if no_alive && poor {
            ko = ko + 1;
        }
        proof {
            assert(spec_knocked_out(players[i as int]) == (no_alive && poor));
        }
    }
    if n > 1 && ko >= n - 1 {
        game_state.current_round = game_state.max_rounds;
        proof {
            assert(game_state@ =~= spec_eliminate(g0));
        }
    } else {
        proof {
            assert(game_state@ =~= spec_eliminate(g0));
        }
    }
}

/// The queues that an enqueued command batch produces: each command is
/// appended to the queue of its own type.
pub open spec fn spec_enqueue_step() -> spec_fn(CommandQueuesV, CommandV) -> CommandQueuesV {
    |qs: CommandQueuesV, c: CommandV|
        match c.command_type {
            CommandType::SELLING => CommandQueuesV { selling: qs.selling.push(c), ..qs },
            CommandType::BUYING => CommandQueuesV { buying: qs.buying.push(c), ..qs },
            CommandType::MOVEMENT => CommandQueuesV { movement: qs.movement.push(c), ..qs },
            CommandType::BATTLE => CommandQueuesV { battle: qs.battle.push(c), ..qs },
            CommandType::MINING => CommandQueuesV { mining: qs.mining.push(c), ..qs },
            CommandType::REGENERATE => CommandQueuesV {
                regenerate: qs.regenerate.push(c),
                ..qs
            },
        }
}

/// Six empty queues.
pub open spec fn spec_empty_queues() -> CommandQueuesV {
    CommandQueuesV {
        selling: Seq::empty(),
        buying: Seq::empty(),
        movement: Seq::empty(),
        battle: Seq::empty(),
        mining: Seq::empty(),
        regenerate: Seq::empty(),
    }
}

/// The queues holding exactly the given batch, partitioned by type.
pub open spec fn spec_partition(cmds: Seq<CommandV>) -> CommandQueuesV {
    cmds.fold_left(spec_empty_queues(), spec_enqueue_step())
}

/// The game after a player's batch has been accepted: that player's queues
/// are replaced (stale queues are discarded) by the batch, partitioned by
/// command type; everyone else is untouched.
pub open spec fn spec_after_submit(g: GameStateV, pname: Seq<char>, cmds: Seq<CommandV>)
    -> GameStateV {
    let cur = g.spec_current();
    let pi = spec_name_index(cur.players, pname);
    let p = cur.players[pi];
    let p2 = PlayerStateV { commands: spec_partition(cmds), ..p };
    GameStateV {
        round_states: g.round_states.update(
            g.round_states.len() - 1,
            RoundStateV { players: cur.players.update(pi, p2), ..cur },
        ),
        ..g
    }
}

/// Accepts one player's command batch for the current round.  The game
/// must be running and the player known; the batch replaces any stale
/// queues.  If every player is then ready, the round resolves at once and
/// the elimination rule runs; otherwise the game waits for the others.
/// The status never moves backward, and an ended game accepts nothing.
pub fn handle_batch_of_commands(game_state: &mut GameState, commands: Vec<Command>) -> (r:
    Result<SubmitOutcome, SubmitError>)
    requires
        old(game_state)@.wf(),
    ensures
        final(game_state)@.wf(),
        spec_status_le(old(game_state)@.status, final(game_state)@.status),
        final(game_state)@.round_states.len() >= old(game_state)@.round_states.len(),
        forall|i: int| 0 <= i < old(game_state)@.round_states.len() - 1 ==>
            #[trigger] final(game_state)@.round_states[i]
                == old(game_state)@.round_states[i],
        old(game_state)@.status == GameStatus::Ended ==>
            *final(game_state) == *old(game_state) && r is Err,
        commands.deep_view().len() == 0 ==> r == Err::<SubmitOutcome, SubmitError>(
            SubmitError::NoCommands,
        ) && *final(game_state) == *old(game_state),
        match r {
            Err(SubmitError::NoCommands) => *final(game_state) == *old(game_state)
                && commands.deep_view().len() == 0,
            Err(SubmitError::WrongStatus(s)) => *final(game_state) == *old(game_state)
                && s == old(game_state)@.status && s != GameStatus::Started,
            Err(SubmitError::UnknownPlayer) => *final(game_state) == *old(game_state)
                && old(game_state)@.status == GameStatus::Started
                && !old(game_state)@.spec_current().spec_has_player(
                    commands.deep_view()[0].player_name,
                ),
            Ok(out) => {
                let mid = spec_after_submit(
                    old(game_state)@,
                    commands.deep_view()[0].player_name,
                    commands.deep_view(),
                );
                &&& commands.deep_view().len() > 0
                &&& old(game_state)@.status == GameStatus::Started
                &&& old(game_state)@.spec_current().spec_has_player(
                    commands.deep_view()[0].player_name,
                )
                &&& match out {
                    SubmitOutcome::Waiting => final(game_state)@ == mid
                        && !spec_all_ready(mid.spec_current()),
                    SubmitOutcome::Resolved => spec_all_ready(mid.spec_current())
                        && exists|g2: GameStateV|
                            #[trigger] spec_process_rel(mid, g2)
                                && final(game_state)@ == spec_eliminate(g2),
                }
            },
        },
{
    let ghost g0 = old(game_state)@;
    let ghost cur0 = old(game_state)@.spec_current();
    if commands.len() == 0 {
        return Err(SubmitError::NoCommands);
    }
    if !matches!(game_state.status, GameStatus::Started) {
        return Err(SubmitError::WrongStatus(game_state.status));
    }
    let ghost pname = commands.deep_view()[0].player_name;
    proof {
        assert(commands.deep_view()[0] == commands@[0]@);
    }
    let pi: usize = {
        let rs = game_state.current_round_state();
        match rs.find_player(commands[0].player_name.as_str()) {
            None => {
                return Err(SubmitError::UnknownPlayer);
            },
            Some(i) => i,
        }
    };
    proof {
        let i0 = spec_name_index(cur0.players, pname);
        assert(0 <= i0 < cur0.players.len() && cur0.players[i0].player_name == pname);
        assert(i0 == pi as int);
    }
    let mut rs: RoundState = game_state.round_states.pop().unwrap();
    proof {
        assert(rs@ == cur0);
    }
    let mut p: PlayerState = rs.players[pi].clone();
    proof {
        assert(p@ == cur0.players[pi as int]);
    }
    p.commands.clear();
    let ghost cmds = commands.deep_view();
    let m: usize = commands.len();
    proof {
        assert(p@.commands =~= spec_empty_queues());
        assert(p@.commands == cmds.take(0).fold_left(
            spec_empty_queues(),
            spec_enqueue_step(),
        ));
    }
    let ghost p_after_clear = p@;
    for ci in 0..m
        invariant
            m == cmds.len(),
            m == commands@.len(),
            cmds == commands.deep_view(),
            p@.commands == cmds.take(ci as int).fold_left(
                spec_empty_queues(),
                spec_enqueue_step(),
            ),
            p@ == (PlayerStateV { commands: p@.commands, ..p_after_clear }),
    {
        let ghost c = cmds[ci as int];
        proof {
            assert(cmds[ci as int] == commands@[ci as int]@);
        }
        p.commands.push_command(commands[ci].clone());
        proof {
            let prev = cmds.take(ci as int).fold_left(
                spec_empty_queues(),
                spec_enqueue_step(),
            );
            assert(p@.commands.spec_queue_of(CommandType::SELLING)
                == spec_enqueue_step()(prev, c).spec_queue_of(CommandType::SELLING));
            assert(p@.commands.spec_queue_of(CommandType::BUYING)
                == spec_enqueue_step()(prev, c).spec_queue_of(CommandType::BUYING));
            assert(p@.commands.spec_queue_of(CommandType::MOVEMENT)
                == spec_enqueue_step()(prev, c).spec_queue_of(CommandType::MOVEMENT));
            assert(p@.commands.spec_queue_of(CommandType::BATTLE)
                == spec_enqueue_step()(prev, c).spec_queue_of(CommandType::BATTLE));
            assert(p@.commands.spec_queue_of(CommandType::MINING)
                == spec_enqueue_step()(prev, c).spec_queue_of(CommandType::MINING));
            assert(p@.commands.spec_queue_of(CommandType::REGENERATE)
                == spec_enqueue_step()(prev, c).spec_queue_of(CommandType::REGENERATE));
            assert(p@.commands =~= spec_enqueue_step()(prev, c));
            assert(cmds.take(ci + 1).drop_last() =~= cmds.take(ci as int));
            assert(cmds.take(ci + 1).last() == c);
        }
    }
    proof {
        assert(cmds.take(m as int) =~= cmds);
        assert(p@ =~= (PlayerStateV {
            commands: spec_partition(cmds),
            ..cur0.players[pi as int]
        }));
    }
    let ghost pv = p@;
    rs.players[pi] = p;
    let ghost rsv = rs@;
    game_state.round_states.push(rs);
    let ghost mid = spec_after_submit(g0, pname, cmds);
    proof {
        assert(rsv.players =~= cur0.players.update(pi as int, pv));
        assert(rsv =~= (RoundStateV {
            players: cur0.players.update(pi as int, pv),
            ..cur0
        }));
        assert(game_state@.round_states =~= g0.round_states.update(
            g0.round_states.len() - 1,
            rsv,
        ));
        assert(game_state@ =~= mid);
        assert(game_state@.wf()) by {
            let gv = game_state@;
            let last = g0.round_states.len() - 1;
            assert forall|r: int| 0 <= r < gv.round_states.len() implies
                (#[trigger] gv.round_states[r]).wf() && gv.round_states[r].round_number == r
            by {
                if r != last {
                    assert(gv.round_states[r] == g0.round_states[r]);
                } else {
                    assert(gv.round_states[r] == rsv);
                    assert(cur0.wf());
                    assert forall|a: int| 0 <= a < rsv.players.len() implies
                        (#[trigger] rsv.players[a]).wf()
                            && rsv.players[a].player_name == cur0.players[a].player_name
                    by {
                        if a != pi as int {
                            assert(rsv.players[a] == cur0.players[a]);
                        } else {
                            assert(rsv.players[a] == pv);
                        }
                    }
                    assert forall|a: int, b: int, x: int, y: int|
                        #![trigger rsv.players[a].robots[x], rsv.players[b].robots[y]]
                        0 <= a < rsv.players.len() && 0 <= b < rsv.players.len() && a != b
                            && 0 <= x < rsv.players[a].robots.len()
                            && 0 <= y < rsv.players[b].robots.len() implies
                        rsv.players[a].robots[x].robot_id != rsv.players[b].robots[y].robot_id
                    by {
                        assert(rsv.players[a].robots == cur0.players[a].robots);
                        assert(rsv.players[b].robots == cur0.players[b].robots);
                    }
                    assert(rsv.wf());
                }
            }
        }
    }
    if all_players_submitted_commands(game_state) {
        process_commands_for_round(game_state);
        let ghost g2 = game_state@;
        apply_elimination(game_state);
        proof {
            assert(spec_process_rel(mid, g2));
            assert(game_state@ == spec_eliminate(g2));
        }
        Ok(SubmitOutcome::Resolved)
    } else {
        Ok(SubmitOutcome::Waiting)
    }
}

/// Adds a player to a game that has not started yet.  A name may not join
/// twice.  The status does not change.
pub fn join_game(game_state: &mut GameState, player_name: String) -> (r: Result<
    (),
    JoinError,
>)
    requires
        old(game_state)@.wf(),
    ensures
        final(game_state)@.wf(),
        spec_status_le(old(game_state)@.status, final(game_state)@.status),
        old(game_state)@.status == GameStatus::Ended ==>
            *final(game_state) == *old(game_state) && r is Err,
        match r {
            Err(JoinError::WrongStatus(s)) => *final(game_state) == *old(game_state)
                && s == old(game_state)@.status && s != GameStatus::Created,
            Err(JoinError::AlreadyJoined) => *final(game_state) == *old(game_state)
                && old(game_state)@.status == GameStatus::Created
                && old(game_state)@.spec_current().spec_has_player(player_name@),
            Ok(()) => {
                &&& old(game_state)@.status == GameStatus::Created
                &&& !old(game_state)@.spec_current().spec_has_player(player_name@)
                &&& final(game_state)@.participating_players
                    == old(game_state)@.participating_players.push(player_name@)
                &&& final(game_state)@.round_states.len() == 1
                &&& final(game_state)@.round_states[0].players.len()
                    == old(game_state)@.round_states[0].players.len() + 1
                &&& final(game_state)@.round_states[0].players.last().player_name
                    == player_name@
                &&& final(game_state)@.round_states[0].players.last().money
                    == spec_starting_money()
                &&& final(game_state)@.round_states[0].players.last().robots.len() == 0
                &&& forall|i: int|
                    0 <= i < old(game_state)@.round_states[0].players.len() ==>
                        #[trigger] final(game_state)@.round_states[0].players[i]
                            == old(game_state)@.round_states[0].players[i]
                &&& final(game_state)@ == (GameStateV {
                    participating_players: final(game_state)@.participating_players,
                    round_states: final(game_state)@.round_states,
                    ..old(game_state)@
                })
            },
        },
{
    let ghost g0 = old(game_state)@;
    if !matches!(game_state.status, GameStatus::Created) {
        return Err(JoinError::WrongStatus(game_state.status));
    }
    {
        let rs = game_state.current_round_state();
        if rs.find_player(player_name.as_str()).is_some() {
            return Err(JoinError::AlreadyJoined);
        }
    }
    let ghost namev = player_name@;
    let player = PlayerState::new(player_name.clone(), 500);
    let ghost pv = player@;
    let mut rs: RoundState = game_state.round_states.pop().unwrap();
    rs.players.push(player);
    let ghost rsv = rs@;
    game_state.round_states.push(rs);
    game_state.participating_players.push(player_name);
    proof {
        assert(g0.round_states.len() == 1);
        assert(rsv.players =~= g0.round_states[0].players.push(pv));
        assert(game_state@.round_states =~= g0.round_states.update(0, rsv));
        assert(game_state@.participating_players
            =~= g0.participating_players.push(namev));
        assert(game_state@ =~= (GameStateV {
            participating_players: g0.participating_players.push(namev),
            round_states: g0.round_states.update(0, rsv),
            ..g0
        }));
        assert(game_state@.wf()) by {
            let gv = game_state@;
            assert(gv.round_states.len() == 1);
            assert(gv.round_states[0] == rsv);
            assert(g0.round_states[0].wf());
            assert forall|a: int| 0 <= a < rsv.players.len() implies
                (#[trigger] rsv.players[a]).wf()
            by {
                if a < rsv.players.len() - 1 {
                    assert(rsv.players[a] == g0.round_states[0].players[a]);
                } else {
                    assert(rsv.players[a] == pv);
                }
            }
            assert forall|a: int, b: int| 0 <= a < b < rsv.players.len() implies
                rsv.players[a].player_name != rsv.players[b].player_name
            by {
                if b < rsv.players.len() - 1 {
                    assert(rsv.players[a] == g0.round_states[0].players[a]);
                    assert(rsv.players[b] == g0.round_states[0].players[b]);
                } else {
                    assert(rsv.players[b] == pv);
                    assert(rsv.players[a] == g0.round_states[0].players[a]);
                    assert(!g0.spec_current().spec_has_player(namev));
                }
            }
            assert forall|a: int, b: int, x: int, y: int|
                #![trigger rsv.players[a].robots[x], rsv.players[b].robots[y]]
                0 <= a < rsv.players.len() && 0 <= b < rsv.players.len() && a != b
                    && 0 <= x < rsv.players[a].robots.len()
                    && 0 <= y < rsv.players[b].robots.len() implies
                rsv.players[a].robots[x].robot_id != rsv.players[b].robots[y].robot_id
            by {
                assert(pv.robots.len() == 0);
                if a < rsv.players.len() - 1 && b < rsv.players.len() - 1 {
                    assert(rsv.players[a] == g0.round_states[0].players[a]);
                    assert(rsv.players[b] == g0.round_states[0].players[b]);
                }
            }
            assert(rsv.wf());
            assert forall|i: int| 0 <= i < gv.participating_players.len() implies
                #[trigger] gv.participating_players[i]
                    == gv.round_states[0].players[i].player_name
            by {
                if i < g0.participating_players.len() {
                    assert(gv.participating_players[i] == g0.participating_players[i]);
                    assert(gv.round_states[0].players[i]
                        == g0.round_states[0].players[i]);
                }
            }
        }
    }
    Ok(())
}

/// Starts a game: only a created game with at least one player can start.
pub fn start_game(game_state: &mut GameState) -> (r: Result<(), LifecycleError>)
    requires
        old(game_state)@.wf(),
    ensures
        final(game_state)@.wf(),
        spec_status_le(old(game_state)@.status, final(game_state)@.status),
        old(game_state)@.status == GameStatus::Ended ==>
            *final(game_state) == *old(game_state) && r is Err,
        match r {
            Err(LifecycleError::WrongStatus(s)) => *final(game_state) == *old(game_state)
                && s == old(game_state)@.status && s != GameStatus::Created,
            Err(LifecycleError::NoPlayers) => *final(game_state) == *old(game_state)
                && old(game_state)@.participating_players.len() == 0,
            Ok(()) => old(game_state)@.status == GameStatus::Created
                && old(game_state)@.participating_players.len() > 0
                && *final(game_state) == (GameState {
                    status: GameStatus::Started,
                    ..*old(game_state)
                }),
        },
{
    if !matches!(game_state.status, GameStatus::Created) {
        return Err(LifecycleError::WrongStatus(game_state.status));
    }
    if game_state.participating_players.len() == 0 {
        return Err(LifecycleError::NoPlayers);
    }
    game_state.status = GameStatus::Started;
    Ok(())
}

/// Ends a game early: only a started game can be ended.
pub fn end_game(game_state: &mut GameState) -> (r: Result<(), LifecycleError>)
    requires
        old(game_state)@.wf(),
    ensures
        final(game_state)@.wf(),
        spec_status_le(old(game_state)@.status, final(game_state)@.status),
        match r {
            Err(LifecycleError::WrongStatus(s)) => *final(game_state) == *old(game_state)
                && s == old(game_state)@.status && s != GameStatus::Started,
            Err(LifecycleError::NoPlayers) => false,
            Ok(()) => old(game_state)@.status == GameStatus::Started
                && *final(game_state) == (GameState {
                    status: GameStatus::Ended,
                    ..*old(game_state)
                }),
        },
{
    if !matches!(game_state.status, GameStatus::Started) {
        return Err(LifecycleError::WrongStatus(game_state.status));
    }
    game_state.status = GameStatus::Ended;
    Ok(())
}

} // verus!
