//! The battle phase: damage reports are computed from all queued battle
//! commands, applied in a second pass, and commands of robots that died
//! are purged before the mining and regeneration phases run.

use vstd::prelude::*;

use crate::command::CommandV;
use crate::game_state::GameState;
use crate::game_state::GameStatus;
use crate::game_state::GameStateV;
use crate::game_state::RoundState;
use crate::game_state::RoundStateV;
use crate::player::CommandQueuesV;
use crate::player::KillRecord;
use crate::player::KillRecordV;
use crate::player::PlayerState;
use crate::player::PlayerStateV;
use crate::player::spec_has_name;
use crate::player::spec_name_index;
use crate::player::spec_robot_index;
use crate::robot::Robot;
use crate::robot_level::spec_level_value;
use crate::robot_levels::spec_damage_for_level;

verus! {

/// One planned attack: who strikes whom, for how much damage, and the
/// energy the attack costs.  The cost is computed once, when the report is
/// made, and debited as such when it is applied.
#[derive(Debug)]
pub struct DamageReport {
    pub attacker_id: u64,
    pub attacker_name: String,
    pub defender_id: u64,
    pub damage_to_take: u32,
    pub energy_cost: u32,
}

/// The mathematical value of a damage report.
#[verifier::ext_equal]
pub struct DamageReportV {
    pub attacker_id: u64,
    pub attacker_name: Seq<char>,
    pub defender_id: u64,
    pub damage_to_take: u32,
    pub energy_cost: u32,
}

impl View for DamageReport {
    type V = DamageReportV;

    open spec fn view(&self) -> DamageReportV {
        DamageReportV {
            attacker_id: self.attacker_id,
            attacker_name: self.attacker_name@,
            defender_id: self.defender_id,
            damage_to_take: self.damage_to_take,
            energy_cost: self.energy_cost,
        }
    }
}

impl DeepView for DamageReport {
    type V = DamageReportV;

    open spec fn deep_view(&self) -> DamageReportV {
        self.view()
    }
}

/// The report one battle command yields, if any.  Self-attacks are
/// rejected; the attacker must be owned by the submitting player, alive,
/// and hold energy of at least one more than its damage level.
pub open spec fn spec_calc_one(p: PlayerStateV, c: CommandV) -> Option<DamageReportV> {
    match (c.command_object.robot_id, c.command_object.target_id) {
        (Some(rid), Some(target)) => {
            if rid == target || !p.spec_owns_robot(rid) {
                None
            } else {
                let rob = p.robots[spec_robot_index(p.robots, rid)];
                if rob.health == 0 {
                    None
                } else {
                    let cost = spec_level_value(rob.levels.damage_level) + 1;
                    if rob.energy < cost {
                        None
                    } else {
                        Some(DamageReportV {
                            attacker_id: rid,
                            attacker_name: c.player_name,
                            defender_id: target,
                            damage_to_take: spec_damage_for_level(rob.levels.damage_level),
                            energy_cost: cost as u32,
                        })
                    }
                }
            }
        },
        _ => None,
    }
}

/// The damage-calculation step as a fold function over one player's queue.
pub open spec fn spec_calc_step(p: PlayerStateV) -> spec_fn(
    Seq<DamageReportV>,
    CommandV,
) -> Seq<DamageReportV> {
    |acc: Seq<DamageReportV>, c: CommandV|
        match spec_calc_one(p, c) {
            Some(r) => acc.push(r),
            None => acc,
        }
}

/// The reports produced from one player's whole battle queue, in order.
pub open spec fn spec_calc_player_reports(p: PlayerStateV) -> Seq<DamageReportV> {
    p.commands.battle.fold_left(Seq::empty(), spec_calc_step(p))
}

/// One player's state after damage calculation: only the battle queue is
/// drained.
pub open spec fn spec_calc_player_state(p: PlayerStateV) -> PlayerStateV {
    PlayerStateV {
        commands: CommandQueuesV { battle: Seq::empty(), ..p.commands },
        ..p
    }
}

/// The per-player concatenation step of the round's reports.
pub open spec fn spec_calc_concat_step() -> spec_fn(
    Seq<DamageReportV>,
    PlayerStateV,
) -> Seq<DamageReportV> {
    |acc: Seq<DamageReportV>, p: PlayerStateV| acc + spec_calc_player_reports(p)
}

/// The round's reports: every player's reports, in player order.
pub open spec fn spec_calc_round_reports(rs: RoundStateV) -> Seq<DamageReportV> {
    rs.players.fold_left(Seq::empty(), spec_calc_concat_step())
}

/// The round's state after damage calculation: all battle queues drained.
pub open spec fn spec_calc_round_state(rs: RoundStateV) -> RoundStateV {
    RoundStateV {
        players: Seq::new(rs.players.len(), |i: int| spec_calc_player_state(rs.players[i])),
        ..rs
    }
}

/// Drains one player's battle queue into damage reports.
fn calc_for_player(p: &mut PlayerState, reports: &mut Vec<DamageReport>)
    requires
        old(p)@.wf(),
    ensures
        final(p)@ == spec_calc_player_state(old(p)@),
        final(reports).deep_view()
            == old(reports).deep_view() + spec_calc_player_reports(old(p)@),
{
    let ghost p0 = old(p)@;
    let ghost q = old(p)@.commands.battle;
    let ghost r0 = old(reports).deep_view();
    let n: usize = p.commands.battle.len();
    for ci in 0..n
        invariant
            n == q.len(),
            *p == *old(p),
            p@ == p0,
            p@.wf(),
            p@.commands.battle == q,
            reports.deep_view() == r0 + q.take(ci as int).fold_left(
                Seq::empty(),
                spec_calc_step(p0),
            ),
    {
        let ghost c = q[ci as int];
        proof {
            assert(p@.commands.battle[ci as int] == p.commands.battle@[ci as int]@);
            assert(p.commands.battle@[ci as int]@ == c);
        }
        let rid_opt: Option<u64> = p.commands.battle[ci].command_object.robot_id;
        let target_opt: Option<u64> = p.commands.battle[ci].command_object.target_id;
        let ghost rep_old = reports.deep_view();
        let ghost repv_vec = reports@;
        match (rid_opt, target_opt) {
            (Some(rid), Some(target)) => {
                if rid != target {
                    match p.find_robot(rid) {
                        None => {},
                        Some(j) => {
                            proof {
                                assert(p0.spec_owns_robot(rid));
                                let i0 = spec_robot_index(p0.robots, rid);
                                assert(0 <= i0 < p0.robots.len()
                                    && p0.robots[i0].robot_id == rid);
                                assert(i0 == j as int);
                            }
                            let rob: Robot = p.robots[j];
                            if rob.is_alive() {
                                let cost: u32 = rob.levels.damage_level.get_int_value() + 1;
                                if rob.energy >= cost {
                                    let report = DamageReport {
                                        attacker_id: rid,
                                        attacker_name:
                                            p.commands.battle[ci].player_name.clone(),
                                        defender_id: target,
                                        damage_to_take: rob.levels.get_damage_for_level(),
                                        energy_cost: cost,
                                    };
                                    proof {
                                        assert(report@ == spec_calc_one(p0, c).unwrap());
                                    }
                                    reports.push(report);
                                    proof {
                                        assert forall|k: int| 0 <= k < rep_old.len() implies
                                            #[trigger] reports.deep_view()[k] == rep_old[k]
                                        by {
                                            assert(reports@[k] == repv_vec[k]);
                                        }
                                        assert(reports.deep_view()[rep_old.len() as int]
                                            == spec_calc_one(p0, c).unwrap());
                                        assert(reports.deep_view()
                                            =~= rep_old.push(spec_calc_one(p0, c).unwrap()));
                                    }
                                }
                            }
                        },
                    }
                }
            },
            _ => {},
        }
        proof {
            assert(q.take(ci + 1).drop_last() =~= q.take(ci as int));
            assert(q.take(ci + 1).last() == c);
            assert(reports.deep_view() =~= r0 + q.take(ci + 1).fold_left(
                Seq::empty(),
                spec_calc_step(p0),
            ));
        }
    }
    p.commands.battle.clear();
    proof {
        assert(q.take(n as int) =~= q);
        assert(p@ =~= spec_calc_player_state(p0));
    }
}

/// Damage calculation over the current round: every player's battle queue
/// is drained into a list of damage reports, in player order.  Nothing
/// else of the game changes.
pub fn calculate_damage_for_round(game_state: &mut GameState) -> (reports: Vec<DamageReport>)
    requires
        old(game_state)@.wf(),
    ensures
        final(game_state)@.wf(),
        reports.deep_view() == spec_calc_round_reports(old(game_state)@.spec_current()),
        final(game_state)@ == (GameStateV {
            round_states: old(game_state)@.round_states.update(
                old(game_state)@.round_states.len() - 1,
                spec_calc_round_state(old(game_state)@.spec_current()),
            ),
            ..old(game_state)@
        }),
{
    let ghost g0 = old(game_state)@;
    let ghost cur0 = old(game_state)@.spec_current();
    let mut rs: RoundState = game_state.round_states.pop().unwrap();
    proof {
        assert(rs@ == cur0);
        assert(cur0.wf());
    }
    let n: usize = rs.players.len();
    let mut new_players: Vec<PlayerState> = Vec::new();
    let mut reports: Vec<DamageReport> = Vec::new();
    for i in 0..n
        invariant
            n == cur0.players.len(),
            rs@ == cur0,
            cur0.wf(),
            new_players@.len() == i,
            reports.deep_view() == cur0.players.take(i as int).fold_left(
                Seq::empty(),
                spec_calc_concat_step(),
            ),
            forall|j: int| 0 <= j < i ==>
                #[trigger] new_players.deep_view()[j]
                    == spec_calc_player_state(cur0.players[j]),
    {
        let mut p: PlayerState = rs.players[i].clone();
        proof {
            assert(p@ == cur0.players[i as int]);
            assert((#[trigger] cur0.players[i as int]).wf());
        }
        calc_for_player(&mut p, &mut reports);
        let ghost pv = p@;
        let ghost np_old = new_players.deep_view();
        let ghost npv_vec = new_players@;
        new_players.push(p);
        proof {
            assert forall|j: int| 0 <= j < i implies
                #[trigger] new_players.deep_view()[j] == np_old[j]
            by {
                assert(new_players@[j] == npv_vec[j]);
            }
            assert(new_players.deep_view()[i as int] == pv);
            assert(cur0.players.take(i + 1).drop_last() =~= cur0.players.take(i as int));
            assert(cur0.players.take(i + 1).last() == cur0.players[i as int]);
            assert(reports.deep_view() =~= cur0.players.take(i + 1).fold_left(
                Seq::empty(),
                spec_calc_concat_step(),
            ));
        }
    }
    let ghost npv = new_players.deep_view();
    rs.players = new_players;
    let ghost rsv = rs@;
    game_state.round_states.push(rs);
    proof {
        assert(cur0.players.take(n as int) =~= cur0.players);
        assert(rsv.players == npv);
        assert(npv =~= spec_calc_round_state(cur0).players);
        assert(rsv =~= spec_calc_round_state(cur0));
        let gv = game_state@;
        let last = g0.round_states.len() - 1;
        assert(gv.round_states =~= g0.round_states.update(last, spec_calc_round_state(cur0)));
        assert(gv =~= (GameStateV {
            round_states: g0.round_states.update(last, spec_calc_round_state(cur0)),
            ..g0
        }));
        assert(gv.wf()) by {
            assert forall|r: int| 0 <= r < gv.round_states.len() implies
                (#[trigger] gv.round_states[r]).wf() && gv.round_states[r].round_number == r
            by {
                if r != last {
                    assert(gv.round_states[r] == g0.round_states[r]);
                } else {
                    let nrs = spec_calc_round_state(cur0);
                    assert(gv.round_states[r] == nrs);
                    assert forall|a: int| 0 <= a < nrs.players.len() implies
                        (#[trigger] nrs.players[a]).wf()
                            && nrs.players[a].player_name == cur0.players[a].player_name
                    by {
                        assert(nrs.players[a] == spec_calc_player_state(cur0.players[a]));
                    }
                    assert(nrs.wf());
                }
            }
        }
    }
    reports
}

/// Whether `p` owns a robot with the given id that is dead.
pub open spec fn spec_owns_dead(p: PlayerStateV, rid: u64) -> bool {
    exists|k: int|
        0 <= k < p.robots.len() && (#[trigger] p.robots[k]).robot_id == rid
            && p.robots[k].health == 0
}

/// Whether a command references, by robot id, a robot of `p` that is dead.
pub open spec fn spec_refs_dead_robot(p: PlayerStateV, c: CommandV) -> bool {
    match c.command_object.robot_id {
        Some(rid) => spec_owns_dead(p, rid),
        None => false,
    }
}

/// The purge predicate: keep a command unless it references a dead robot.
pub open spec fn spec_purge_pred(p: PlayerStateV) -> spec_fn(CommandV) -> bool {
    |c: CommandV| !spec_refs_dead_robot(p, c)
}

/// One player's state after the dead-robot purge: mining and regenerate
/// commands of robots that died are removed; everything else stays.
pub open spec fn spec_purge_player(p: PlayerStateV) -> PlayerStateV {
    PlayerStateV {
        commands: CommandQueuesV {
            mining: p.commands.mining.filter(spec_purge_pred(p)),
            regenerate: p.commands.regenerate.filter(spec_purge_pred(p)),
            ..p.commands
        },
        ..p
    }
}

/// The round's state after the dead-robot purge.
pub open spec fn spec_purge_round(rs: RoundStateV) -> RoundStateV {
    RoundStateV {
        players: Seq::new(rs.players.len(), |i: int| spec_purge_player(rs.players[i])),
        ..rs
    }
}

/// Whether `p` owns a dead robot with the given id.
fn owns_dead_robot(p: &PlayerState, robot_id: u64) -> (r: bool)
    ensures
        r == spec_owns_dead(p@, robot_id),
{
    for i in 0..p.robots.len()
        invariant
            forall|k: int| 0 <= k < i ==>
                !((#[trigger] p@.robots[k]).robot_id == robot_id
                    && p@.robots[k].health == 0),
    {
        if p.robots[i].robot_id == robot_id && !p.robots[i].is_alive() {
            proof {
                assert((#[trigger] p@.robots[i as int]).robot_id == robot_id
                    && p@.robots[i as int].health == 0);
                assert(spec_owns_dead(p@, robot_id));
            }
            return true;
        }
    }
    false
}

/// Keeps only the commands of `q` that do not reference a dead robot of
/// `p`.
fn purge_queue(p: &PlayerState, q: &Vec<crate::command::Command>) -> (r: Vec<
    crate::command::Command,
>)
    ensures
        r.deep_view() == q.deep_view().filter(spec_purge_pred(p@)),
{
    let mut r: Vec<crate::command::Command> = Vec::new();
    let n: usize = q.len();
    proof {
        reveal(Seq::filter);
        assert(r.deep_view() =~= q.deep_view().take(0).filter(spec_purge_pred(p@)));
    }
    for ci in 0..n
        invariant
            n == q.deep_view().len(),
            n == q@.len(),
            r.deep_view() == q.deep_view().take(ci as int).filter(spec_purge_pred(p@)),
    {
        let ghost c = q.deep_view()[ci as int];
        proof {
            assert(q.deep_view()[ci as int] == q@[ci as int]@);
            assert(c.command_object.robot_id == q@[ci as int].command_object.robot_id);
        }
        let rid_opt: Option<u64> = q[ci].command_object.robot_id;
        proof {
            assert(c.command_object.robot_id == rid_opt);
        }
        let keep: bool;
        match rid_opt {
            Some(rid) => {
                keep = !owns_dead_robot(p, rid);
                proof {
                    assert(spec_refs_dead_robot(p@, c) == spec_owns_dead(p@, rid));
                    assert(keep == !spec_refs_dead_robot(p@, c));
                }
            },
            None => {
                keep = true;
                proof {
                    assert(!spec_refs_dead_robot(p@, c));
                }
            },
        }
        let ghost rep_old = r.deep_view();
        let ghost repv_vec = r@;
        if keep {
            r.push(q[ci].clone());
            proof {
                assert forall|k: int| 0 <= k < rep_old.len() implies
                    #[trigger] r.deep_view()[k] == rep_old[k]
                by {
                    assert(r@[k] == repv_vec[k]);
                }
                assert(r.deep_view()[rep_old.len() as int] == c);
                assert(r.deep_view() =~= rep_old.push(c));
            }
        }
        proof {
            reveal(Seq::filter);
            assert(q.deep_view().take(ci + 1).drop_last() =~= q.deep_view().take(ci as int));
            assert(q.deep_view().take(ci + 1).last() == c);
            assert(spec_purge_pred(p@)(c) == !spec_refs_dead_robot(p@, c));
            assert(keep == spec_purge_pred(p@)(c));
            let qd = q.deep_view();
            let pr = spec_purge_pred(p@);
            assert(qd.take(ci + 1).len() == ci + 1);
            assert(qd.take(ci + 1).filter(pr) == if pr(qd.take(ci + 1).last()) {
                qd.take(ci + 1).drop_last().filter(pr).push(qd.take(ci + 1).last())
            } else {
                qd.take(ci + 1).drop_last().filter(pr)
            });
            assert(qd.take(ci + 1).drop_last().filter(pr) == qd.take(ci as int).filter(pr));
            assert(r.deep_view() == qd.take(ci + 1).filter(pr));
        }
    }
    proof {
        assert(q.deep_view().take(n as int) =~= q.deep_view());
    }
    r
}

/// The dead-robot purge over the current round: mining and regenerate
/// commands still queued for robots that are dead are removed for every
/// player, so that a dead robot acts in no later phase.  Nothing else of
/// the game changes.
pub fn delete_commands_for_dead_robots(game_state: &mut GameState)
    requires
        old(game_state)@.wf(),
    ensures
        final(game_state)@.wf(),
        final(game_state)@ == (GameStateV {
            round_states: old(game_state)@.round_states.update(
                old(game_state)@.round_states.len() - 1,
                spec_purge_round(old(game_state)@.spec_current()),
            ),
            ..old(game_state)@
        }),
{
    let ghost g0 = old(game_state)@;
    let ghost cur0 = old(game_state)@.spec_current();
    let mut rs: RoundState = game_state.round_states.pop().unwrap();
    proof {
        assert(rs@ == cur0);
        assert(cur0.wf());
    }
    let n: usize = rs.players.len();
    let mut new_players: Vec<PlayerState> = Vec::new();
    for i in 0..n
        invariant
            n == cur0.players.len(),
            rs@ == cur0,
            cur0.wf(),
            new_players@.len() == i,
            forall|j: int| 0 <= j < i ==>
                #[trigger] new_players.deep_view()[j] == spec_purge_player(cur0.players[j]),
    {
        let mut p: PlayerState = rs.players[i].clone();
        proof {
            assert(p@ == cur0.players[i as int]);
        }
        let mining = purge_queue(&p, &p.commands.mining);
        let regenerate = purge_queue(&p, &p.commands.regenerate);
        p.commands.mining = mining;
        p.commands.regenerate = regenerate;
        let ghost pv = p@;
        proof {
            assert(pv =~= spec_purge_player(cur0.players[i as int]));
        }
        let ghost np_old = new_players.deep_view();
        let ghost npv_vec = new_players@;
        new_players.push(p);
        proof {
            assert forall|j: int| 0 <= j < i implies
                #[trigger] new_players.deep_view()[j] == np_old[j]
            by {
                assert(new_players@[j] == npv_vec[j]);
            }
            assert(new_players.deep_view()[i as int] == pv);
        }
    }
    let ghost npv = new_players.deep_view();
    rs.players = new_players;
    let ghost rsv = rs@;
    game_state.round_states.push(rs);
    proof {
        assert(rsv.players == npv);
        assert(npv =~= spec_purge_round(cur0).players);
        assert(rsv =~= spec_purge_round(cur0));
        let gv = game_state@;
        let last = g0.round_states.len() - 1;
        assert(gv.round_states =~= g0.round_states.update(last, spec_purge_round(cur0)));
        assert(gv =~= (GameStateV {
            round_states: g0.round_states.update(last, spec_purge_round(cur0)),
            ..g0
        }));
        assert(gv.wf()) by {
            assert forall|r: int| 0 <= r < gv.round_states.len() implies
                (#[trigger] gv.round_states[r]).wf() && gv.round_states[r].round_number == r
            by {
                if r != last {
                    assert(gv.round_states[r] == g0.round_states[r]);
                } else {
                    let nrs = spec_purge_round(cur0);
                    assert(gv.round_states[r] == nrs);
                    assert forall|a: int| 0 <= a < nrs.players.len() implies
                        (#[trigger] nrs.players[a]).wf()
                            && nrs.players[a].player_name == cur0.players[a].player_name
                    by {
                        assert(nrs.players[a] == spec_purge_player(cur0.players[a]));
                    }
                    assert(nrs.wf());
                }
            }
        }
    }
}

/// The index of the player owning the robot with the given id; meaningful
/// only while robot ids are unique across players and an owner exists.
pub open spec fn spec_owner_index(players: Seq<PlayerStateV>, robot_id: u64) -> int {
    choose|i: int| 0 <= i < players.len()
        && (#[trigger] players[i]).spec_owns_robot(robot_id)
}

/// Whether any player owns the robot with the given id.
pub open spec fn spec_some_owner(players: Seq<PlayerStateV>, robot_id: u64) -> bool {
    exists|i: int| 0 <= i < players.len()
        && (#[trigger] players[i]).spec_owns_robot(robot_id)
}

/// The effect of applying one damage report.  The attacker's player and
/// robot are looked up by the report's name and id; the attack's energy
/// cost is debited (never below zero) as soon as the attacker is found.
/// The defender is then looked up among all players; a missing defender, a
/// self-attack or a defender that is already dead ends the report there.
/// Otherwise the defender takes the damage, its health floored at zero,
/// and if that kills it, a kill record is appended to the attacker's
/// player.
pub open spec fn spec_apply_one(players: Seq<PlayerStateV>, r: DamageReportV) -> Seq<
    PlayerStateV,
> {
    if !spec_has_name(players, r.attacker_name) {
        players
    } else {
        let ai = spec_name_index(players, r.attacker_name);
        let ap = players[ai];
        if !ap.spec_owns_robot(r.attacker_id) {
            players
        } else {
            let aj = spec_robot_index(ap.robots, r.attacker_id);
            let arob = ap.robots[aj];
            let arob2 = Robot {
                energy: if arob.energy >= r.energy_cost {
                    (arob.energy - r.energy_cost) as u32
                } else {
                    0
                },
                ..arob
            };
            let players2 = players.update(ai, PlayerStateV {
                robots: ap.robots.update(aj, arob2),
                ..ap
            });
            spec_apply_defender(players2, ai, r.attacker_id, r.defender_id, r.damage_to_take)
        }
    }
}

/// The defender half of applying a report: the defender, looked up by id
/// over all players, takes the damage unless it is missing, the attacker
/// itself, or already dead; a kill yields a kill record for the attacker's
/// player at index `ai`.
pub open spec fn spec_apply_defender(
    players2: Seq<PlayerStateV>,
    ai: int,
    attacker_id: u64,
    defender_id: u64,
    damage: u32,
) -> Seq<PlayerStateV> {
    if !spec_some_owner(players2, defender_id) {
        players2
    } else {
        let di = spec_owner_index(players2, defender_id);
        let dp = players2[di];
        let dj = spec_robot_index(dp.robots, defender_id);
        let drob = dp.robots[dj];
        if attacker_id == drob.robot_id || drob.health == 0 {
            players2
        } else {
            let drob2 = Robot {
                health: if damage < drob.health {
                    (drob.health - damage) as u32
                } else {
                    0
                },
                ..drob
            };
            let players3 = players2.update(di, PlayerStateV {
                robots: dp.robots.update(dj, drob2),
                ..dp
            });
            if drob2.health == 0 {
                let ap3 = players3[ai];
                players3.update(ai, PlayerStateV {
                    killed_robots: ap3.killed_robots.push(KillRecordV {
                        attacker_robot_id: attacker_id,
                        enemy_player_name: dp.player_name,
                        enemy_robot: drob2,
                    }),
                    ..ap3
                })
            } else {
                players3
            }
        }
    }
}

/// The damage-application step as a fold function over the reports./// The damage-application step as a fold function over the reports.
pub open spec fn spec_apply_step() -> spec_fn(Seq<PlayerStateV>, DamageReportV) -> Seq<
    PlayerStateV,
> {
    |players: Seq<PlayerStateV>, r: DamageReportV| spec_apply_one(players, r)
}

/// All players after every damage report has been applied in order.
pub open spec fn spec_apply_reports(players: Seq<PlayerStateV>, reports: Seq<DamageReportV>)
    -> Seq<PlayerStateV> {
    reports.fold_left(players, spec_apply_step())
}


/// Applying one damage report keeps the round's players well formed and
/// changes no player's name and no robot's identity.
#[verifier::rlimit(100)]
pub proof fn lemma_apply_one_frame(players: Seq<PlayerStateV>, r: DamageReportV)
    requires
        forall|i: int| 0 <= i < players.len() ==> (#[trigger] players[i]).wf(),
        forall|i: int, j: int|
            0 <= i < j < players.len() ==>
                players[i].player_name != players[j].player_name,
        forall|a: int, b: int, x: int, y: int|
            #![trigger players[a].robots[x], players[b].robots[y]]
            0 <= a < players.len() && 0 <= b < players.len() && a != b
                && 0 <= x < players[a].robots.len()
                && 0 <= y < players[b].robots.len() ==>
                players[a].robots[x].robot_id != players[b].robots[y].robot_id,
    ensures
        spec_apply_one(players, r).len() == players.len(),
        forall|j: int| 0 <= j < players.len() ==>
            (#[trigger] spec_apply_one(players, r)[j]).player_name
                == players[j].player_name,
        forall|j: int| 0 <= j < players.len() ==>
            (#[trigger] spec_apply_one(players, r)[j]).robots.len()
                == players[j].robots.len(),
        forall|j: int, k: int|
            #![trigger spec_apply_one(players, r)[j].robots[k]]
            0 <= j < players.len() && 0 <= k < players[j].robots.len() ==>
                spec_apply_one(players, r)[j].robots[k].robot_id
                    == players[j].robots[k].robot_id,
        forall|j: int| 0 <= j < players.len() ==>
            (#[trigger] spec_apply_one(players, r)[j]).wf(),
        forall|j: int| 0 <= j < players.len() ==>
            (#[trigger] spec_apply_one(players, r)[j]).visited_planets
                == players[j].visited_planets,
        forall|j: int| 0 <= j < players.len() ==>
            (#[trigger] spec_apply_one(players, r)[j]).commands == players[j].commands,
{
    let out = spec_apply_one(players, r);
    if spec_has_name(players, r.attacker_name) {
        let ai = spec_name_index(players, r.attacker_name);
        if 0 <= ai < players.len() && players[ai].spec_owns_robot(r.attacker_id) {
            let ap = players[ai];
            let aj = spec_robot_index(ap.robots, r.attacker_id);
            let arob = ap.robots[aj];
            assert(0 <= aj < ap.robots.len() && arob.robot_id == r.attacker_id);
            assert(arob.wf());
            let arob2 = Robot {
                energy: if arob.energy >= r.energy_cost {
                    (arob.energy - r.energy_cost) as u32
                } else {
                    0
                },
                ..arob
            };
            assert(arob2.wf());
            let ap2 = PlayerStateV { robots: ap.robots.update(aj, arob2), ..ap };
            assert(ap2.wf());
            let players2 = players.update(ai, ap2);
            if spec_some_owner(players2, r.defender_id) {
                let di = spec_owner_index(players2, r.defender_id);
                assert(0 <= di < players2.len()
                    && players2[di].spec_owns_robot(r.defender_id));
                let dp = players2[di];
                assert(dp.wf());
                let dj = spec_robot_index(dp.robots, r.defender_id);
                let drob = dp.robots[dj];
                assert(0 <= dj < dp.robots.len() && drob.robot_id == r.defender_id);
                if !(r.attacker_id == drob.robot_id || drob.health == 0) {
                    let drob2 = Robot {
                        health: if r.damage_to_take < drob.health {
                            (drob.health - r.damage_to_take) as u32
                        } else {
                            0
                        },
                        ..drob
                    };
                    assert(drob2.wf());
                    let dp2 = PlayerStateV { robots: dp.robots.update(dj, drob2), ..dp };
                    assert(dp2.wf());
                    let players3 = players2.update(di, dp2);
                    if drob2.health == 0 {
                        let ap3 = players3[ai];
                        assert(ap3.wf());
                        let ap4 = PlayerStateV {
                            killed_robots: ap3.killed_robots.push(KillRecordV {
                                attacker_robot_id: r.attacker_id,
                                enemy_player_name: dp.player_name,
                                enemy_robot: drob2,
                            }),
                            ..ap3
                        };
                        assert(ap4.wf());
                        assert(out == players3.update(ai, ap4));
                    }
                }
            }
        }
    }
}

/// The player owning the robot with the given id, with the robot's index.
fn find_owner(rs: &RoundState, robot_id: u64) -> (r: Option<(usize, usize)>)
    ensures
        match r {
            Some((i, j)) => i < rs@.players.len()
                && j < rs@.players[i as int].robots.len()
                && rs@.players[i as int].robots[j as int].robot_id == robot_id
                && (#[trigger] rs@.players[i as int]).spec_owns_robot(robot_id),
            None => !spec_some_owner(rs@.players, robot_id),
        },
{
    for i in 0..rs.players.len()
        invariant
            forall|k: int| 0 <= k < i ==>
                !(#[trigger] rs@.players[k]).spec_owns_robot(robot_id),
    {
        match rs.players[i].find_robot(robot_id) {
            Some(j) => {
                proof {
                    assert(rs@.players[i as int].robots[j as int]
                        == rs.players@[i as int].robots@[j as int]);
                }
                return Some((i, j));
            },
            None => {},
        }
    }
    None
}

/// Applies the defender half of one report to the round's players.
#[verifier::rlimit(100)]
fn apply_defender_part(
    rs: &mut RoundState,
    ai: usize,
    attacker_id: u64,
    defender_id: u64,
    damage: u32,
)
    requires
        ai < old(rs)@.players.len(),
        forall|j: int| 0 <= j < old(rs)@.players.len() ==>
            (#[trigger] old(rs)@.players[j]).wf(),
        forall|a: int, b: int, x: int, y: int|
            #![trigger old(rs)@.players[a].robots[x], old(rs)@.players[b].robots[y]]
            0 <= a < old(rs)@.players.len() && 0 <= b < old(rs)@.players.len() && a != b
                && 0 <= x < old(rs)@.players[a].robots.len()
                && 0 <= y < old(rs)@.players[b].robots.len() ==>
                old(rs)@.players[a].robots[x].robot_id
                    != old(rs)@.players[b].robots[y].robot_id,
    ensures
        final(rs)@.players == spec_apply_defender(
            old(rs)@.players,
            ai as int,
            attacker_id,
            defender_id,
            damage,
        ),
        final(rs)@.map == old(rs)@.map,
        final(rs)@.round_number == old(rs)@.round_number,
{
    let ghost players2 = old(rs)@.players;
    match find_owner(&rs, defender_id) {
        None => {
            proof {
                assert(!spec_some_owner(players2, defender_id));
                assert(rs@.players =~= spec_apply_defender(
                    players2,
                    ai as int,
                    attacker_id,
                    defender_id,
                    damage,
                ));
            }
        },
        Some((di, dj)) => {
            proof {
                assert((#[trigger] players2[di as int]).spec_owns_robot(defender_id));
                assert(spec_some_owner(players2, defender_id));
                let i1 = spec_owner_index(players2, defender_id);
                assert(0 <= i1 < players2.len() && players2[i1].spec_owns_robot(defender_id));
                assert forall|a: int, b: int|
                    0 <= a < players2.len() && 0 <= b < players2.len() && a != b
                        && (#[trigger] players2[a]).spec_owns_robot(defender_id) implies
                    !(#[trigger] players2[b]).spec_owns_robot(defender_id)
                by {}
                assert(i1 == di as int);
                let j1 = spec_robot_index(players2[di as int].robots, defender_id);
                assert(0 <= j1 < players2[di as int].robots.len()
                    && players2[di as int].robots[j1].robot_id == defender_id);
                assert(j1 == dj as int);
            }
            let drob: Robot = rs.players[di].robots[dj];
            if attacker_id != drob.robot_id && drob.is_alive() {
                let mut dp: PlayerState = rs.players[di].clone();
                let mut drob2: Robot = drob;
                if damage < drob.health {
                    drob2.health = drob.health - damage;
                } else {
                    drob2.health = 0;
                }
                dp.robots[dj] = drob2;
                let dname: String = dp.player_name.clone();
                rs.players[di] = dp;
                let ghost players3 = players2.update(di as int, PlayerStateV {
                    robots: players2[di as int].robots.update(dj as int, drob2),
                    ..players2[di as int]
                });
                proof {
                    assert(rs@.players =~= players3);
                }
                if !drob2.is_alive() {
                    let mut ap3: PlayerState = rs.players[ai].clone();
                    let ghost k_old = players3[ai as int].killed_robots;
                    ap3.killed_robots.push(KillRecord {
                        attacker_robot_id: attacker_id,
                        enemy_player_name: dname,
                        enemy_robot: drob2,
                    });
                    proof {
                        assert(ap3.killed_robots.deep_view() =~= k_old.push(KillRecordV {
                            attacker_robot_id: attacker_id,
                            enemy_player_name: dname@,
                            enemy_robot: drob2,
                        }));
                    }
                    rs.players[ai] = ap3;
                    proof {
                        assert(rs@.players =~= players3.update(ai as int, PlayerStateV {
                            killed_robots: k_old.push(KillRecordV {
                                attacker_robot_id: attacker_id,
                                enemy_player_name: dname@,
                                enemy_robot: drob2,
                            }),
                            ..players3[ai as int]
                        }));
                        assert(rs@.players =~= spec_apply_defender(
                            players2,
                            ai as int,
                            attacker_id,
                            defender_id,
                            damage,
                        ));
                    }
                } else {
                    proof {
                        assert(rs@.players =~= spec_apply_defender(
                            players2,
                            ai as int,
                            attacker_id,
                            defender_id,
                            damage,
                        ));
                    }
                }
            } else {
                proof {
                    assert(rs@.players =~= spec_apply_defender(
                        players2,
                        ai as int,
                        attacker_id,
                        defender_id,
                        damage,
                    ));
                }
            }
        },
    }
}

/// Applies one damage report to the round's players.
#[verifier::rlimit(100)]
fn apply_one_report(rs: &mut RoundState, report: &DamageReport)
    requires
        old(rs)@.wf(),
    ensures
        final(rs)@.wf(),
        final(rs)@.players == spec_apply_one(old(rs)@.players, report@),
        final(rs)@.map == old(rs)@.map,
        final(rs)@.round_number == old(rs)@.round_number,
        final(rs)@.players.len() == old(rs)@.players.len(),
        forall|j: int| 0 <= j < old(rs)@.players.len() ==>
            (#[trigger] final(rs)@.players[j]).player_name
                == old(rs)@.players[j].player_name,
        forall|j: int| 0 <= j < old(rs)@.players.len() ==>
            (#[trigger] final(rs)@.players[j]).robots.len()
                == old(rs)@.players[j].robots.len(),
        forall|j: int, k: int|
            #![trigger final(rs)@.players[j].robots[k]]
            0 <= j < old(rs)@.players.len() && 0 <= k < old(rs)@.players[j].robots.len() ==>
                final(rs)@.players[j].robots[k].robot_id
                    == old(rs)@.players[j].robots[k].robot_id,
{
    let ghost ps_before = old(rs)@.players;
    let ghost r = report@;
    let attacker_id: u64 = report.attacker_id;
    let defender_id: u64 = report.defender_id;
    let damage: u32 = report.damage_to_take;
    let cost: u32 = report.energy_cost;
    match rs.find_player(report.attacker_name.as_str()) {
        None => {
            proof {
                assert(!spec_has_name(ps_before, r.attacker_name));
                assert(rs@.players =~= spec_apply_one(ps_before, r));
            }
        },
        Some(ai) => {
            proof {
                assert(spec_has_name(ps_before, r.attacker_name));
                let i0 = spec_name_index(ps_before, r.attacker_name);
                assert(0 <= i0 < ps_before.len()
                    && ps_before[i0].player_name == r.attacker_name);
                assert(i0 == ai as int);
            }
            match rs.players[ai].find_robot(attacker_id) {
                None => {
                    proof {
                        assert(rs@.players =~= spec_apply_one(ps_before, r));
                    }
                },
                Some(aj) => {
                    proof {
                        assert(ps_before[ai as int].spec_owns_robot(attacker_id));
                        let j0 = spec_robot_index(ps_before[ai as int].robots, attacker_id);
                        assert(0 <= j0 < ps_before[ai as int].robots.len()
                            && ps_before[ai as int].robots[j0].robot_id == attacker_id);
                        assert(j0 == aj as int);
                    }
                    let mut ap: PlayerState = rs.players[ai].clone();
                    let arob: Robot = ap.robots[aj];
                    let mut arob2: Robot = arob;
                    if arob.energy >= cost {
                        arob2.energy = arob.energy - cost;
                    } else {
                        arob2.energy = 0;
                    }
                    ap.robots[aj] = arob2;
                    rs.players[ai] = ap;
                    let ghost players2 = ps_before.update(ai as int, PlayerStateV {
                        robots: ps_before[ai as int].robots.update(aj as int, arob2),
                        ..ps_before[ai as int]
                    });
                    proof {
                        assert(rs@.players =~= players2);
                    }
                    proof {
                        assert forall|jj: int| 0 <= jj < rs@.players.len() implies
                            (#[trigger] rs@.players[jj]).wf()
                        by {
                            if jj != ai as int {
                                assert(rs@.players[jj] == ps_before[jj]);
                            } else {
                                assert((#[trigger] ps_before[jj]).wf());
                            }
                        }
                        assert forall|a: int, b: int, x: int, y: int|
                            #![trigger rs@.players[a].robots[x], rs@.players[b].robots[y]]
                            0 <= a < rs@.players.len() && 0 <= b < rs@.players.len()
                                && a != b && 0 <= x < rs@.players[a].robots.len()
                                && 0 <= y < rs@.players[b].robots.len() implies
                            rs@.players[a].robots[x].robot_id
                                != rs@.players[b].robots[y].robot_id
                        by {
                            assert(rs@.players[a].robots[x].robot_id
                                == ps_before[a].robots[x].robot_id);
                            assert(rs@.players[b].robots[y].robot_id
                                == ps_before[b].robots[y].robot_id);
                        }
                    }
                    apply_defender_part(rs, ai, attacker_id, defender_id, damage);
                    proof {
                        assert(rs@.players =~= spec_apply_defender(
                            players2,
                            ai as int,
                            attacker_id,
                            defender_id,
                            damage,
                        ));
                        assert(rs@.players =~= spec_apply_one(ps_before, r));
                    }
                },
            }
        },
    }
    proof {
        lemma_apply_one_frame(ps_before, r);
        assert(rs@.players == spec_apply_one(ps_before, r));
        assert(rs@.wf());
    }
}

/// Damage application over the current round: every report is applied in
/// order, debiting the attacker's energy, dealing the damage, and keeping
/// kill records.  Nothing else of the game changes.
pub fn apply_damage_for_round(damage_reports: Vec<DamageReport>, game_state: &mut GameState)
    requires
        old(game_state)@.wf(),
    ensures
        final(game_state)@.wf(),
        final(game_state)@ == (GameStateV {
            round_states: old(game_state)@.round_states.update(
                old(game_state)@.round_states.len() - 1,
                RoundStateV {
                    players: spec_apply_reports(
                        old(game_state)@.spec_current().players,
                        damage_reports.deep_view(),
                    ),
                    ..old(game_state)@.spec_current()
                },
            ),
            ..old(game_state)@
        }),
{
    let ghost g0 = old(game_state)@;
    let ghost cur0 = old(game_state)@.spec_current();
    let ghost reps = damage_reports.deep_view();
    let mut rs: RoundState = game_state.round_states.pop().unwrap();
    proof {
        assert(rs@ == cur0);
        assert(cur0.wf());
    }
    let m: usize = damage_reports.len();
    for ri in 0..m
        invariant
            m == reps.len(),
            m == damage_reports@.len(),
            reps == damage_reports.deep_view(),
            cur0.wf(),
            rs@.wf(),
            rs@.map == cur0.map,
            rs@.round_number == cur0.round_number,
            rs@.players == spec_apply_reports(cur0.players, reps.take(ri as int)),
            rs@.players.len() == cur0.players.len(),
            forall|j: int| 0 <= j < cur0.players.len() ==>
                (#[trigger] rs@.players[j]).player_name == cur0.players[j].player_name,
    {
        let ghost r = reps[ri as int];
        let ghost ps_pre = rs@.players;
        proof {
            assert(damage_reports.deep_view()[ri as int] == damage_reports@[ri as int]@);
        }
        apply_one_report(&mut rs, &damage_reports[ri]);
        proof {
            assert(damage_reports@[ri as int]@ == r);
            assert(rs@.players == spec_apply_one(ps_pre, damage_reports@[ri as int]@));
            assert(rs@.players == spec_apply_one(ps_pre, r));
            assert(reps.take(ri + 1).drop_last() =~= reps.take(ri as int));
            assert(reps.take(ri + 1).last() == r);
            assert(spec_apply_reports(cur0.players, reps.take(ri + 1))
                == spec_apply_step()(spec_apply_reports(cur0.players, reps.take(ri as int)),
                    r));
            assert(rs@.players == spec_apply_reports(cur0.players, reps.take(ri + 1)));
        }
    }
    let ghost rsv = rs@;
    game_state.round_states.push(rs);
    proof {
        assert(reps.take(m as int) =~= reps);
        assert(rsv =~= (RoundStateV {
            players: spec_apply_reports(cur0.players, reps),
            ..cur0
        }));
        let gv = game_state@;
        let last = g0.round_states.len() - 1;
        assert(gv.round_states =~= g0.round_states.update(last, rsv));
        assert(gv =~= (GameStateV {
            round_states: g0.round_states.update(last, rsv),
            ..g0
        }));
        assert(gv.wf()) by {
            assert forall|rr: int| 0 <= rr < gv.round_states.len() implies
                (#[trigger] gv.round_states[rr]).wf()
                    && gv.round_states[rr].round_number == rr
            by {
                if rr != last {
                    assert(gv.round_states[rr] == g0.round_states[rr]);
                } else {
                    assert(gv.round_states[rr] == rsv);
                }
            }
            assert forall|j: int| 0 <= j < gv.participating_players.len()
                && gv.status == GameStatus::Created implies
                #[trigger] gv.participating_players[j]
                    == gv.round_states[0].players[j].player_name
            by {
                assert(g0.participating_players[j]
                    == g0.round_states[0].players[j].player_name);
            }
        }
    }
}

} // verus!
