//! The buying phase: players spend money on stat upgrades, restores and
//! new robots.  New robots land on a planet chosen at random, which makes
//! this the one phase whose outcome is a relation rather than a function.

use vstd::prelude::*;

use crate::command::CommandV;
use crate::game_state::GameMap;
use crate::game_state::GameMapV;
use crate::game_state::GameState;
use crate::game_state::GameStateV;
use crate::game_state::RoundState;
use crate::item::Item;
use crate::item::UpgradeOrItem;
use crate::item::UpgradeType;
use crate::item::spec_item_cost;
use crate::item::spec_parse_item_name;
use crate::item::parse_item_name;
use crate::player::CommandQueuesV;
use crate::player::PlayerState;
use crate::player::PlayerStateV;
use crate::player::spec_robot_index;
use crate::robot::Robot;
use crate::robot::spec_spawn;
use crate::robot_level::RobotLevel;
use crate::robot_level::spec_level_value;
use crate::robot_levels::RobotLevels;
use crate::robot_levels::spec_cost_for_level;
use crate::robot_levels::spec_energy_for_level;
use crate::robot_levels::spec_health_for_level;

verus! {

/// Relies on rand::random: draws an arbitrary machine-word value.
#[verifier::external_body]
fn random_word() -> usize {
    rand::random::<usize>()
}

/// A uniformly-drawn-looking index below `n`; all the verified code needs
/// is that it is in range.
fn random_below(n: usize) -> (r: usize)
    requires
        n > 0,
    ensures
        r < n,
{
    random_word() % n
}

/// A robot's levels with the stat `t` set to `lvl` if that is strictly
/// higher than the current level; buying a level at or below the current
/// one has no effect (and no refund).  Health and energy upgrades also
/// restore the stat to its new ceiling.
pub open spec fn spec_apply_upgrade(rob: Robot, t: UpgradeType, lvl: RobotLevel) -> Robot {
    match t {
        UpgradeType::Health => {
            if spec_level_value(rob.levels.health_level) < spec_level_value(lvl) {
                Robot {
                    levels: RobotLevels { health_level: lvl, ..rob.levels },
                    health: spec_health_for_level(lvl),
                    ..rob
                }
            } else {
                rob
            }
        },
        UpgradeType::Energy => {
            if spec_level_value(rob.levels.energy_level) < spec_level_value(lvl) {
                Robot {
                    levels: RobotLevels { energy_level: lvl, ..rob.levels },
                    energy: spec_energy_for_level(lvl),
                    ..rob
                }
            } else {
                rob
            }
        },
        UpgradeType::EnergyRegen => {
            if spec_level_value(rob.levels.energy_regen_level) < spec_level_value(lvl) {
                Robot { levels: RobotLevels { energy_regen_level: lvl, ..rob.levels }, ..rob }
            } else {
                rob
            }
        },
        UpgradeType::Damage => {
            if spec_level_value(rob.levels.damage_level) < spec_level_value(lvl) {
                Robot { levels: RobotLevels { damage_level: lvl, ..rob.levels }, ..rob }
            } else {
                rob
            }
        },
        UpgradeType::Mining => {
            if spec_level_value(rob.levels.mining_level) < spec_level_value(lvl) {
                Robot { levels: RobotLevels { mining_level: lvl, ..rob.levels }, ..rob }
            } else {
                rob
            }
        },
        UpgradeType::MiningSpeed => {
            if spec_level_value(rob.levels.mining_speed_level) < spec_level_value(lvl) {
                Robot { levels: RobotLevels { mining_speed_level: lvl, ..rob.levels }, ..rob }
            } else {
                rob
            }
        },
        UpgradeType::Storage => {
            if spec_level_value(rob.levels.storage_level) < spec_level_value(lvl) {
                Robot { levels: RobotLevels { storage_level: lvl, ..rob.levels }, ..rob }
            } else {
                rob
            }
        },
    }
}

/// What one buy command may do to its player and the fresh-id counter.
/// The payload must name a known item and, for upgrades and restores, one
/// of the player's robots; the price must be affordable, and is then spent
/// even when an upgrade turns out not to raise the level.  A robot
/// purchase spawns the bought quantity of robots, each on some planet of
/// the map, with consecutive fresh ids.  A command failing any check
/// changes nothing.
pub open spec fn spec_buy_one_rel(
    map: GameMapV,
    st: (PlayerStateV, u64),
    c: CommandV,
    st2: (PlayerStateV, u64),
) -> bool {
    let p = st.0;
    let nid = st.1;
    match (c.command_object.item_name, c.command_object.item_quantity) {
        (Some(name), Some(qty)) => {
            if p.money == 0 || qty > u16::MAX {
                st2 == st
            } else {
                match spec_parse_item_name(name, qty as u16) {
                    None => st2 == st,
                    Some(UpgradeOrItem::Upgrade(t, lvl)) => st2 == ((
                        spec_buy_upgrade_result(p, c.command_object.robot_id, t, lvl),
                        nid,
                    )),
                    Some(UpgradeOrItem::Item(it)) => {
                        match it {
                            Item::Robot(k) => spec_robot_purchase_rel(map, st, k, st2),
                            Item::HealthRestore => st2 == ((
                                spec_buy_restore_result(p, c.command_object.robot_id, it),
                                nid,
                            )),
                            Item::EnergyRestore => st2 == ((
                                spec_buy_restore_result(p, c.command_object.robot_id, it),
                                nid,
                            )),
                        }
                    },
                }
            }
        },
        _ => st2 == st,
    }
}

/// The outcome of an upgrade purchase: the robot must be named and owned
/// and the price affordable; the price is then spent, and the level rises
/// only if strictly higher than the current one.
pub open spec fn spec_buy_upgrade_result(
    p: PlayerStateV,
    rid_opt: Option<u64>,
    t: UpgradeType,
    lvl: RobotLevel,
) -> PlayerStateV {
    match rid_opt {
        None => p,
        Some(rid) => {
            if !p.spec_owns_robot(rid) {
                p
            } else {
                let cost = spec_cost_for_level(lvl);
                if p.money < cost {
                    p
                } else {
                    let i = spec_robot_index(p.robots, rid);
                    let rob = p.robots[i];
                    PlayerStateV {
                        money: (p.money - cost) as u32,
                        robots: p.robots.update(i, spec_apply_upgrade(rob, t, lvl)),
                        ..p
                    }
                }
            }
        },
    }
}

/// The outcome of a restore purchase: the robot must be named and owned
/// and the price affordable; the stat is then set back to its ceiling.
pub open spec fn spec_buy_restore_result(
    p: PlayerStateV,
    rid_opt: Option<u64>,
    it: Item,
) -> PlayerStateV {
    match rid_opt {
        None => p,
        Some(rid) => {
            if !p.spec_owns_robot(rid) || p.money < spec_item_cost(it) {
                p
            } else {
                let i = spec_robot_index(p.robots, rid);
                let rob = p.robots[i];
                let nr = if it == Item::HealthRestore {
                    Robot { health: spec_health_for_level(rob.levels.health_level), ..rob }
                } else {
                    Robot { energy: spec_energy_for_level(rob.levels.energy_level), ..rob }
                };
                PlayerStateV {
                    money: (p.money - spec_item_cost(it)) as u32,
                    robots: p.robots.update(i, nr),
                    ..p
                }
            }
        },
    }
}

/// What a robot purchase may do: if the price is affordable, the map is
/// not empty, and enough fresh ids remain, `k` robots spawn, each on some
/// planet of the map, with consecutive fresh ids; otherwise nothing
/// changes.
pub open spec fn spec_robot_purchase_rel(
    map: GameMapV,
    st: (PlayerStateV, u64),
    k: u16,
    st2: (PlayerStateV, u64),
) -> bool {
    let p = st.0;
    let nid = st.1;
    let cost = spec_item_cost(Item::Robot(k));
    if p.money < cost || map.planets.len() == 0 || nid + k > u64::MAX {
        st2 == st
    } else {
        exists|picks: Seq<int>|
            #![trigger picks.len()]
            picks.len() == k && (forall|z: int|
                0 <= z < k ==> 0 <= #[trigger] picks[z] < map.planets.len()) && st2 == ((
                PlayerStateV {
                    money: (p.money - cost) as u32,
                    robots: p.robots + Seq::new(
                        k as nat,
                        |z: int| spec_spawn((nid + z) as u64, map.planets[picks[z]].planet_id),
                    ),
                    ..p
                },
                (nid + k) as u64,
            ))
    }
}

/// What a whole buy queue may do, command by command.
pub open spec fn spec_buy_queue_rel(
    map: GameMapV,
    st: (PlayerStateV, u64),
    q: Seq<CommandV>,
    st2: (PlayerStateV, u64),
) -> bool
    decreases q.len(),
{
    if q.len() == 0 {
        st2 == st
    } else {
        exists|mid: (PlayerStateV, u64)|
            #[trigger] spec_buy_one_rel(map, st, q[0], mid)
                && spec_buy_queue_rel(map, mid, q.skip(1), st2)
    }
}

/// Extending a processed queue by one more processed command.
pub proof fn lemma_buy_queue_snoc(
    map: GameMapV,
    st0: (PlayerStateV, u64),
    q: Seq<CommandV>,
    mid: (PlayerStateV, u64),
    c: CommandV,
    st2: (PlayerStateV, u64),
)
    requires
        spec_buy_queue_rel(map, st0, q, mid),
        spec_buy_one_rel(map, mid, c, st2),
    ensures
        spec_buy_queue_rel(map, st0, q.push(c), st2),
    decreases q.len(),
{
    if q.len() == 0 {
        assert(st0 == mid);
        assert(q.push(c)[0] == c);
        assert(q.push(c).skip(1) =~= Seq::<CommandV>::empty());
        assert(spec_buy_queue_rel(map, st2, q.push(c).skip(1), st2));
        assert(spec_buy_one_rel(map, st0, q.push(c)[0], st2));
    } else {
        let m1 = choose|m1: (PlayerStateV, u64)|
            #[trigger] spec_buy_one_rel(map, st0, q[0], m1)
                && spec_buy_queue_rel(map, m1, q.skip(1), mid);
        lemma_buy_queue_snoc(map, m1, q.skip(1), mid, c, st2);
        assert(q.push(c)[0] == q[0]);
        assert(q.push(c).skip(1) =~= q.skip(1).push(c));
        assert(spec_buy_one_rel(map, st0, q.push(c)[0], m1));
    }
}

/// What the buying phase may do to one player: the whole buy queue is
/// processed and then drained.
pub open spec fn spec_buy_player_rel(
    map: GameMapV,
    p: PlayerStateV,
    nid: u64,
    p2: PlayerStateV,
    nid2: u64,
) -> bool {
    exists|pm: PlayerStateV|
        #[trigger] spec_buy_queue_rel(map, (p, nid), p.commands.buying, (pm, nid2))
            && p2 == (PlayerStateV {
            commands: CommandQueuesV { buying: Seq::empty(), ..pm.commands },
            ..pm
        })
}

/// What the buying phase may do to the players of a round, in order,
/// threading the fresh-id counter.
pub open spec fn spec_buy_players_rel(
    map: GameMapV,
    nid0: u64,
    ps: Seq<PlayerStateV>,
    ps2: Seq<PlayerStateV>,
    nid2: u64,
) -> bool
    decreases ps.len(),
{
    if ps.len() == 0 {
        ps2.len() == 0 && nid2 == nid0
    } else {
        ps2.len() == ps.len() && exists|pm: PlayerStateV, nm: u64|
            #[trigger] spec_buy_player_rel(map, ps[0], nid0, pm, nm)
                && ps2[0] == pm && spec_buy_players_rel(map, nm, ps.skip(1), ps2.skip(1), nid2)
    }
}

/// Extending a processed player sequence by one more processed player.
pub proof fn lemma_buy_players_snoc(
    map: GameMapV,
    nid0: u64,
    ps: Seq<PlayerStateV>,
    ps2: Seq<PlayerStateV>,
    nm: u64,
    p: PlayerStateV,
    pm: PlayerStateV,
    nid2: u64,
)
    requires
        spec_buy_players_rel(map, nid0, ps, ps2, nm),
        spec_buy_player_rel(map, p, nm, pm, nid2),
    ensures
        spec_buy_players_rel(map, nid0, ps.push(p), ps2.push(pm), nid2),
    decreases ps.len(),
{
    if ps.len() == 0 {
        assert(ps2.len() == 0);
        assert(nm == nid0);
        assert(ps.push(p)[0] == p);
        assert(ps2.push(pm)[0] == pm);
        assert(ps.push(p).skip(1) =~= Seq::<PlayerStateV>::empty());
        assert(ps2.push(pm).skip(1) =~= Seq::<PlayerStateV>::empty());
        assert(spec_buy_players_rel(map, nid2, ps.push(p).skip(1), ps2.push(pm).skip(1),
            nid2));
        assert(spec_buy_player_rel(map, ps.push(p)[0], nid0, pm, nid2));
        assert(ps2.push(pm)[0] == pm
            && spec_buy_players_rel(map, nid2, ps.push(p).skip(1), ps2.push(pm).skip(1),
                nid2));
    } else {
        let (m1, n1) = choose|m1: PlayerStateV, n1: u64|
            #[trigger] spec_buy_player_rel(map, ps[0], nid0, m1, n1)
                && ps2[0] == m1 && spec_buy_players_rel(map, n1, ps.skip(1), ps2.skip(1), nm);
        lemma_buy_players_snoc(map, n1, ps.skip(1), ps2.skip(1), nm, p, pm, nid2);
        assert(ps.push(p)[0] == ps[0]);
        assert(ps2.push(pm)[0] == ps2[0]);
        assert(ps.push(p).skip(1) =~= ps.skip(1).push(p));
        assert(ps2.push(pm).skip(1) =~= ps2.skip(1).push(pm));
        assert(spec_buy_players_rel(map, n1, ps.push(p).skip(1), ps2.push(pm).skip(1), nid2));
        assert(spec_buy_player_rel(map, ps.push(p)[0], nid0, m1, n1));
        assert(ps2.push(pm)[0] == m1);
    }
}

/// The largest robot id of a robot sequence, or -1 if there is none.
pub open spec fn spec_max_id_robots(rs: Seq<Robot>) -> int
    decreases rs.len(),
{
    if rs.len() == 0 {
        -1
    } else {
        let m = spec_max_id_robots(rs.drop_last());
        if rs.last().robot_id > m {
            rs.last().robot_id as int
        } else {
            m
        }
    }
}

/// The largest robot id over all players, or -1 if there is none.
pub open spec fn spec_max_id_players(ps: Seq<PlayerStateV>) -> int
    decreases ps.len(),
{
    if ps.len() == 0 {
        -1
    } else {
        let m = spec_max_id_players(ps.drop_last());
        let m2 = spec_max_id_robots(ps.last().robots);
        if m2 > m {
            m2
        } else {
            m
        }
    }
}

/// The fresh-id counter a round starts the buying phase with: one past the
/// largest robot id, clamped at the id ceiling (at which no robot can be
/// spawned any more).
pub open spec fn spec_next_robot_id(ps: Seq<PlayerStateV>) -> u64 {
    if spec_max_id_players(ps) + 1 <= u64::MAX {
        (spec_max_id_players(ps) + 1) as u64
    } else {
        u64::MAX
    }
}

/// Every robot id is strictly below the counter.
pub open spec fn spec_ids_below(p: PlayerStateV, nid: u64) -> bool {
    forall|k: int| 0 <= k < p.robots.len() ==> (#[trigger] p.robots[k]).robot_id < nid
}

/// The largest robot id of every robot of `rs` is at most the maximum.
proof fn lemma_max_id_robots(rs: Seq<Robot>)
    ensures
        forall|k: int| 0 <= k < rs.len() ==>
            (#[trigger] rs[k]).robot_id <= spec_max_id_robots(rs),
    decreases rs.len(),
{
    if rs.len() > 0 {
        lemma_max_id_robots(rs.drop_last());
        assert forall|k: int| 0 <= k < rs.len() implies
            (#[trigger] rs[k]).robot_id <= spec_max_id_robots(rs)
        by {
            if k < rs.len() - 1 {
                assert(rs.drop_last()[k] == rs[k]);
            }
        }
    }
}

/// Every robot id of every player is at most the players' maximum.
proof fn lemma_max_id_players(ps: Seq<PlayerStateV>)
    ensures
        forall|j: int, k: int|
            #![trigger ps[j].robots[k]]
            0 <= j < ps.len() && 0 <= k < ps[j].robots.len() ==>
                ps[j].robots[k].robot_id <= spec_max_id_players(ps),
    decreases ps.len(),
{
    if ps.len() > 0 {
        lemma_max_id_players(ps.drop_last());
        lemma_max_id_robots(ps.last().robots);
        assert forall|j: int, k: int|
            #![trigger ps[j].robots[k]]
            0 <= j < ps.len() && 0 <= k < ps[j].robots.len() implies
            ps[j].robots[k].robot_id <= spec_max_id_players(ps)
        by {
            if j < ps.len() - 1 {
                assert(ps.drop_last()[j] == ps[j]);
            } else {
                assert(ps[j] == ps.last());
            }
        }
    }
}

/// The largest robot id used anywhere in the given players.
fn max_robot_id(players: &Vec<PlayerState>) -> (r: Option<u64>)
    ensures
        match r {
            Some(m) => m == spec_max_id_players(players.deep_view()),
            None => spec_max_id_players(players.deep_view()) == -1,
        },
{
    let ghost ps = players.deep_view();
    let mut best: Option<u64> = None;
    let n: usize = players.len();
    for i in 0..n
        invariant
            ps == players.deep_view(),
            n == players@.len(),
            ps.len() == n,
            match best {
                Some(m) => m == spec_max_id_players(ps.take(i as int)),
                None => spec_max_id_players(ps.take(i as int)) == -1,
            },
    {
        proof {
            assert(ps[i as int] == players@[i as int]@);
        }
        let rn: usize = players[i].robots.len();
        let ghost prev = spec_max_id_players(ps.take(i as int));
        for k in 0..rn
            invariant
                ps == players.deep_view(),
                i < players@.len(),
                ps.len() == players@.len(),
                ps[i as int] == players@[i as int]@,
                rn == ps[i as int].robots.len(),
                prev == spec_max_id_players(ps.take(i as int)),
                match best {
                    Some(m) => {
                        let part = spec_max_id_robots(ps[i as int].robots.take(k as int));
                        m == if part > prev { part } else { prev }
                    },
                    None => prev == -1
                        && spec_max_id_robots(ps[i as int].robots.take(k as int)) == -1,
                },
        {
            let id: u64 = players[i].robots[k].robot_id;
            proof {
                assert(ps[i as int].robots[k as int] == players@[i as int].robots@[k as int]);
                assert(ps[i as int].robots.take(k + 1).drop_last()
                    =~= ps[i as int].robots.take(k as int));
                assert(ps[i as int].robots.take(k + 1).last()
                    == ps[i as int].robots[k as int]);
            }
            match best {
                Some(m) => {
                    if id > m {
                        best = Some(id);
                    }
                },
                None => {
                    best = Some(id);
                },
            }
        }
        proof {
            assert(ps[i as int].robots.take(rn as int) =~= ps[i as int].robots);
            assert(ps.take(i + 1).drop_last() =~= ps.take(i as int));
            assert(ps.take(i + 1).last() == ps[i as int]);
        }
    }
    proof {
        assert(ps.take(n as int) =~= ps);
    }
    best
}

/// Applies an upgrade purchase to the player.
fn apply_upgrade_cmd(p: &mut PlayerState, rid_opt: Option<u64>, t: UpgradeType, lvl: RobotLevel)
    requires
        old(p)@.wf(),
    ensures
        final(p)@ == spec_buy_upgrade_result(old(p)@, rid_opt, t, lvl),
        final(p)@.wf(),
        final(p)@.player_name == old(p)@.player_name,
        final(p)@.commands == old(p)@.commands,
        final(p)@.robots.len() == old(p)@.robots.len(),
        forall|k: int| 0 <= k < old(p)@.robots.len() ==>
            (#[trigger] final(p)@.robots[k]).robot_id == old(p)@.robots[k].robot_id,
{
    let ghost before = old(p)@;
    match rid_opt {
        None => {},
        Some(rid) => {
            match p.find_robot(rid) {
                None => {},
                Some(j) => {
                    proof {
                        let i0 = spec_robot_index(before.robots, rid);
                        assert(0 <= i0 < before.robots.len()
                            && before.robots[i0].robot_id == rid);
                        assert(i0 == j as int);
                        assert((#[trigger] before.robots[j as int]).wf());
                    }
                    let cost: u32 = RobotLevels::get_cost_for_level(&lvl);
                    if p.money.amount >= cost {
                        p.money.amount = p.money.amount - cost;
                        let rob: Robot = p.robots[j];
                        let mut nr: Robot = rob;
                        match t {
                            UpgradeType::Health => {
                                if rob.levels.health_level.get_int_value()
                                    < lvl.get_int_value() {
                                    nr.levels.health_level = lvl;
                                    nr.health = nr.levels.get_health_for_level();
                                }
                            },
                            UpgradeType::Energy => {
                                if rob.levels.energy_level.get_int_value()
                                    < lvl.get_int_value() {
                                    nr.levels.energy_level = lvl;
                                    nr.energy = nr.levels.get_energy_for_level();
                                }
                            },
                            UpgradeType::EnergyRegen => {
                                if rob.levels.energy_regen_level.get_int_value()
                                    < lvl.get_int_value() {
                                    nr.levels.energy_regen_level = lvl;
                                }
                            },
                            UpgradeType::Damage => {
                                if rob.levels.damage_level.get_int_value()
                                    < lvl.get_int_value() {
                                    nr.levels.damage_level = lvl;
                                }
                            },
                            UpgradeType::Mining => {
                                if rob.levels.mining_level.get_int_value()
                                    < lvl.get_int_value() {
                                    nr.levels.mining_level = lvl;
                                }
                            },
                            UpgradeType::MiningSpeed => {
                                if rob.levels.mining_speed_level.get_int_value()
                                    < lvl.get_int_value() {
                                    nr.levels.mining_speed_level = lvl;
                                }
                            },
                            UpgradeType::Storage => {
                                if rob.levels.storage_level.get_int_value()
                                    < lvl.get_int_value() {
                                    nr.levels.storage_level = lvl;
                                }
                            },
                        }
                        proof {
                            assert(nr == spec_apply_upgrade(rob, t, lvl));
                        }
                        p.robots[j] = nr;
                    }
                },
            }
        },
    }
    proof {
        assert(p@ =~= spec_buy_upgrade_result(before, rid_opt, t, lvl));
    }
}

/// Applies a restore purchase to the player.
fn apply_restore_cmd(p: &mut PlayerState, rid_opt: Option<u64>, it: Item)
    requires
        old(p)@.wf(),
        it == Item::HealthRestore || it == Item::EnergyRestore,
    ensures
        final(p)@ == spec_buy_restore_result(old(p)@, rid_opt, it),
        final(p)@.wf(),
        final(p)@.player_name == old(p)@.player_name,
        final(p)@.commands == old(p)@.commands,
        final(p)@.robots.len() == old(p)@.robots.len(),
        forall|k: int| 0 <= k < old(p)@.robots.len() ==>
            (#[trigger] final(p)@.robots[k]).robot_id == old(p)@.robots[k].robot_id,
{
    let ghost before = old(p)@;
    match rid_opt {
        None => {},
        Some(rid) => {
            match p.find_robot(rid) {
                None => {},
                Some(j) => {
                    proof {
                        let i0 = spec_robot_index(before.robots, rid);
                        assert(0 <= i0 < before.robots.len()
                            && before.robots[i0].robot_id == rid);
                        assert(i0 == j as int);
                        assert((#[trigger] before.robots[j as int]).wf());
                    }
                    let cost: u32 = it.get_cost();
                    if p.money.amount >= cost {
                        p.money.amount = p.money.amount - cost;
                        let rob: Robot = p.robots[j];
                        let mut nr: Robot = rob;
                        match it {
                            Item::HealthRestore => {
                                nr.health = nr.levels.get_health_for_level();
                            },
                            _ => {
                                nr.energy = nr.levels.get_energy_for_level();
                            },
                        }
                        p.robots[j] = nr;
                    }
                },
            }
        },
    }
    proof {
        assert(p@ =~= spec_buy_restore_result(before, rid_opt, it));
    }
}

/// Applies a robot purchase: spawns the bought robots on random planets.
fn apply_robot_purchase(map: &GameMap, p: &mut PlayerState, next_id: &mut u64, k: u16)
    requires
        old(p)@.wf(),
        map@.wf(),
        spec_ids_below(old(p)@, *old(next_id)),
    ensures
        spec_robot_purchase_rel(
            map@,
            (old(p)@, *old(next_id)),
            k,
            (final(p)@, *final(next_id)),
        ),
        *old(next_id) <= *final(next_id),
        final(p)@.wf(),
        spec_ids_below(final(p)@, *final(next_id)),
        final(p)@.player_name == old(p)@.player_name,
        final(p)@.commands == old(p)@.commands,
        final(p)@.robots.len() >= old(p)@.robots.len(),
        forall|z: int| 0 <= z < old(p)@.robots.len() ==>
            (#[trigger] final(p)@.robots[z]).robot_id == old(p)@.robots[z].robot_id,
        forall|z: int| old(p)@.robots.len() <= z < final(p)@.robots.len() ==>
            (#[trigger] final(p)@.robots[z]).robot_id >= *old(next_id),
{
    let ghost before = old(p)@;
    let ghost nid_before = *old(next_id);
    let it = Item::Robot(k);
    let cost: u32 = it.get_cost();
    let map_len: usize = map.planets.len();
    if p.money.amount >= cost && map_len > 0 && *next_id <= u64::MAX - (k as u64) {
        let ghost base = *next_id;
        let ghost robots0 = p@.robots;
        let mut picks_g: Ghost<Seq<int>> = Ghost(Seq::empty());
        for z in 0..(k as usize)
            invariant
                map@.wf(),
                map_len == map@.planets.len(),
                map_len > 0,
                base + k <= u64::MAX,
                z <= k as usize,
                *next_id == base + z,
                picks_g@.len() == z,
                forall|w: int| 0 <= w < z ==>
                    0 <= #[trigger] picks_g@[w] < map@.planets.len(),
                p@.robots =~= robots0 + Seq::new(
                    z as nat,
                    |w: int| spec_spawn(
                        (base + w) as u64,
                        map@.planets[picks_g@[w]].planet_id,
                    ),
                ),
                p@ == (PlayerStateV { robots: p@.robots, ..before }),
        {
            let pick: usize = random_below(map_len);
            let planet_id: u64 = map.planets[pick].planet_id;
            let rob = Robot::new(*next_id, planet_id);
            let ghost picks_old = picks_g@;
            p.robots.push(rob);
            *next_id = *next_id + 1;
            picks_g = Ghost(picks_old.push(pick as int));
            proof {
                assert(p@.robots =~= robots0 + Seq::new(
                    (z + 1) as nat,
                    |w: int| spec_spawn(
                        (base + w) as u64,
                        map@.planets[picks_g@[w]].planet_id,
                    ),
                ));
            }
        }
        p.money.amount = p.money.amount - cost;
        proof {
            assert(picks_g@.len() == k as int);
            assert(p@ =~= (PlayerStateV {
                money: (before.money - cost) as u32,
                robots: robots0 + Seq::new(
                    k as nat,
                    |w: int| spec_spawn(
                        (base + w) as u64,
                        map@.planets[picks_g@[w]].planet_id,
                    ),
                ),
                ..before
            }));
            assert(spec_robot_purchase_rel(
                map@,
                (before, nid_before),
                k,
                (p@, *next_id),
            ));
        }
    }
}

/// Applies one buy command to the player, drawing spawn positions from the
/// map and fresh ids from the counter.
fn buy_apply_one(map: &GameMap, p: &mut PlayerState, next_id: &mut u64, cmd: &crate::command::Command)
    requires
        old(p)@.wf(),
        map@.wf(),
        spec_ids_below(old(p)@, *old(next_id)),
    ensures
        spec_buy_one_rel(map@, (old(p)@, *old(next_id)), cmd@, (final(p)@, *final(next_id))),
        *old(next_id) <= *final(next_id),
        final(p)@.wf(),
        spec_ids_below(final(p)@, *final(next_id)),
        final(p)@.player_name == old(p)@.player_name,
        final(p)@.commands == old(p)@.commands,
        final(p)@.robots.len() >= old(p)@.robots.len(),
        forall|k: int| 0 <= k < old(p)@.robots.len() ==>
            (#[trigger] final(p)@.robots[k]).robot_id == old(p)@.robots[k].robot_id,
        forall|k: int| old(p)@.robots.len() <= k < final(p)@.robots.len() ==>
            (#[trigger] final(p)@.robots[k]).robot_id >= *old(next_id),
{
    let ghost before = old(p)@;
    let ghost nid_before = *old(next_id);
    let ghost c = cmd@;
    let has_fields: bool = cmd.command_object.item_name.is_some()
        && cmd.command_object.item_quantity.is_some();
    if has_fields && p.money.amount > 0 {
        let qty: u32 = match cmd.command_object.item_quantity {
            Some(v) => v,
            None => 0,
        };
        if qty <= u16::MAX as u32 {
            let parsed: Option<UpgradeOrItem> = match &cmd.command_object.item_name {
                Some(s) => parse_item_name(s.as_str(), qty as u16),
                None => None,
            };
            match parsed {
                None => {},
                Some(UpgradeOrItem::Upgrade(t, lvl)) => {
                    apply_upgrade_cmd(p, cmd.command_object.robot_id, t, lvl);
                },
                Some(UpgradeOrItem::Item(it)) => {
                    match it {
                        Item::Robot(k) => {
                            apply_robot_purchase(map, p, next_id, k);
                        },
                        Item::HealthRestore => {
                            apply_restore_cmd(p, cmd.command_object.robot_id, it);
                        },
                        Item::EnergyRestore => {
                            apply_restore_cmd(p, cmd.command_object.robot_id, it);
                        },
                    }
                },
            }
        }
    }
    proof {
        assert(spec_buy_one_rel(map@, (before, nid_before), c, (p@, *next_id)));
    }
}

/// Runs every queued buy command of one player, drawing spawn positions
/// from the map and fresh ids from the counter.
fn buy_for_player(map: &GameMap, p: &mut PlayerState, next_id: &mut u64)
    requires
        old(p)@.wf(),
        map@.wf(),
        spec_ids_below(old(p)@, *old(next_id)),
    ensures
        spec_buy_player_rel(map@, old(p)@, *old(next_id), final(p)@, *final(next_id)),
        *old(next_id) <= *final(next_id),
        final(p)@.wf(),
        spec_ids_below(final(p)@, *final(next_id)),
        final(p)@.player_name == old(p)@.player_name,
        final(p)@.robots.len() >= old(p)@.robots.len(),
        forall|k: int| 0 <= k < old(p)@.robots.len() ==>
            (#[trigger] final(p)@.robots[k]).robot_id == old(p)@.robots[k].robot_id,
        forall|k: int| old(p)@.robots.len() <= k < final(p)@.robots.len() ==>
            (#[trigger] final(p)@.robots[k]).robot_id >= *old(next_id),
{
    let ghost p0 = old(p)@;
    let ghost n0 = *old(next_id);
    let ghost q = old(p)@.commands.buying;
    let n: usize = p.commands.buying.len();
    for ci in 0..n
        invariant
            n == q.len(),
            q == p0.commands.buying,
            map@.wf(),
            p@.commands.buying == q,
            p@.commands == p0.commands,
            p@.wf(),
            spec_ids_below(p@, *next_id),
            n0 <= *next_id,
            spec_buy_queue_rel(map@, (p0, n0), q.take(ci as int), (p@, *next_id)),
            p@.player_name == p0.player_name,
            p@.robots.len() >= p0.robots.len(),
            forall|k: int| 0 <= k < p0.robots.len() ==>
                (#[trigger] p@.robots[k]).robot_id == p0.robots[k].robot_id,
            forall|k: int| p0.robots.len() <= k < p@.robots.len() ==>
                (#[trigger] p@.robots[k]).robot_id >= n0,
    {
        let ghost before = p@;
        let ghost nid_before = *next_id;
        let ghost c = q[ci as int];
        proof {
            assert(p@.commands.buying[ci as int] == p.commands.buying@[ci as int]@);
            assert(p.commands.buying@[ci as int]@ == c);
        }
        let cmd: crate::command::Command = p.commands.buying[ci].clone();
        proof {
            assert(cmd@ == c);
        }
        buy_apply_one(map, p, next_id, &cmd);
        proof {
            assert(spec_buy_one_rel(map@, (before, nid_before), c, (p@, *next_id)));
            lemma_buy_queue_snoc(
                map@,
                (p0, n0),
                q.take(ci as int),
                (before, nid_before),
                c,
                (p@, *next_id),
            );
            assert(q.take(ci + 1) =~= q.take(ci as int).push(c));
            assert(spec_buy_queue_rel(map@, (p0, n0), q.take(ci + 1), (p@, *next_id)));
        }
    }
    let ghost pm = p@;
    p.commands.buying.clear();
    proof {
        assert(q.take(n as int) =~= q);
        assert(p@ =~= (PlayerStateV {
            commands: CommandQueuesV { buying: Seq::empty(), ..pm.commands },
            ..pm
        }));
        assert(spec_buy_player_rel(map@, p0, n0, p@, *next_id));
    }
}

/// Processes every player's buy queue in order against the shared
/// fresh-id counter, returning the new players and the final counter.
#[verifier::rlimit(100)]
fn buy_round_players(map: &GameMap, players: &Vec<PlayerState>, next0: u64) -> (r: (
    Vec<PlayerState>,
    u64,
))
    requires
        map@.wf(),
        forall|j: int| 0 <= j < players.deep_view().len() ==>
            (#[trigger] players.deep_view()[j]).wf(),
        forall|j: int, k: int|
            #![trigger players.deep_view()[j].robots[k]]
            0 <= j < players.deep_view().len()
                && 0 <= k < players.deep_view()[j].robots.len() ==>
                players.deep_view()[j].robots[k].robot_id < next0,
        forall|i: int, j: int|
            0 <= i < j < players.deep_view().len() ==>
                players.deep_view()[i].player_name != players.deep_view()[j].player_name,
        forall|a: int, b: int, x: int, y: int|
            #![trigger players.deep_view()[a].robots[x], players.deep_view()[b].robots[y]]
            0 <= a < players.deep_view().len() && 0 <= b < players.deep_view().len()
                && a != b && 0 <= x < players.deep_view()[a].robots.len()
                && 0 <= y < players.deep_view()[b].robots.len() ==>
                players.deep_view()[a].robots[x].robot_id
                    != players.deep_view()[b].robots[y].robot_id,
    ensures
        spec_buy_players_rel(map@, next0, players.deep_view(), r.0.deep_view(), r.1),
        r.0.deep_view().len() == players.deep_view().len(),
        forall|j: int| 0 <= j < players.deep_view().len() ==>
            (#[trigger] r.0.deep_view()[j]).wf(),
        forall|j: int| 0 <= j < players.deep_view().len() ==>
            (#[trigger] r.0.deep_view()[j]).player_name
                == players.deep_view()[j].player_name,
        forall|a: int, b: int, x: int, y: int|
            #![trigger r.0.deep_view()[a].robots[x], r.0.deep_view()[b].robots[y]]
            0 <= a < r.0.deep_view().len() && 0 <= b < r.0.deep_view().len() && a != b
                && 0 <= x < r.0.deep_view()[a].robots.len()
                && 0 <= y < r.0.deep_view()[b].robots.len() ==>
                r.0.deep_view()[a].robots[x].robot_id
                    != r.0.deep_view()[b].robots[y].robot_id,
{
    let ghost ps0 = players.deep_view();
    let ghost nid0 = next0;
    let mut next_id: u64 = next0;
    let n: usize = players.len();
    let mut new_players: Vec<PlayerState> = Vec::new();
    for i in 0..n
        invariant
            map@.wf(),
            ps0 == players.deep_view(),
            n == players@.len(),
            ps0.len() == n,
            nid0 == next0,
            forall|j: int| 0 <= j < n ==> (#[trigger] ps0[j]).wf(),
            forall|j: int, k: int|
                #![trigger ps0[j].robots[k]]
                0 <= j < n && 0 <= k < ps0[j].robots.len() ==>
                    ps0[j].robots[k].robot_id < nid0,
            forall|i1: int, j1: int|
                0 <= i1 < j1 < n ==> ps0[i1].player_name != ps0[j1].player_name,
            forall|a: int, b: int, x: int, y: int|
                #![trigger ps0[a].robots[x], ps0[b].robots[y]]
                0 <= a < n && 0 <= b < n && a != b && 0 <= x < ps0[a].robots.len()
                    && 0 <= y < ps0[b].robots.len() ==>
                    ps0[a].robots[x].robot_id != ps0[b].robots[y].robot_id,
            nid0 <= next_id,
            new_players@.len() == i,
            spec_buy_players_rel(
                map@,
                nid0,
                ps0.take(i as int),
                new_players.deep_view(),
                next_id,
            ),
            forall|j: int| 0 <= j < i ==> (#[trigger] new_players.deep_view()[j]).wf(),
            forall|j: int| 0 <= j < i ==>
                (#[trigger] new_players.deep_view()[j]).player_name == ps0[j].player_name,
            forall|j: int| 0 <= j < i ==>
                (#[trigger] new_players.deep_view()[j]).robots.len()
                    >= ps0[j].robots.len(),
            forall|j: int, k: int|
                #![trigger new_players.deep_view()[j].robots[k]]
                0 <= j < i && 0 <= k < new_players.deep_view()[j].robots.len() ==>
                    new_players.deep_view()[j].robots[k].robot_id < next_id,
            forall|j: int, k: int|
                #![trigger new_players.deep_view()[j].robots[k]]
                0 <= j < i && 0 <= k < ps0[j].robots.len() ==>
                    new_players.deep_view()[j].robots[k].robot_id
                        == ps0[j].robots[k].robot_id,
            forall|j: int, k: int|
                #![trigger new_players.deep_view()[j].robots[k]]
                0 <= j < i && ps0[j].robots.len() <= k
                    < new_players.deep_view()[j].robots.len() ==>
                    new_players.deep_view()[j].robots[k].robot_id >= nid0,
            forall|a: int, b: int, x: int, y: int|
                #![trigger new_players.deep_view()[a].robots[x],
                    new_players.deep_view()[b].robots[y]]
                0 <= a < i && 0 <= b < i && a != b
                    && 0 <= x < new_players.deep_view()[a].robots.len()
                    && 0 <= y < new_players.deep_view()[b].robots.len() ==>
                    new_players.deep_view()[a].robots[x].robot_id
                        != new_players.deep_view()[b].robots[y].robot_id,
    {
        let mut p: PlayerState = players[i].clone();
        proof {
            assert(p@ == ps0[i as int]);
            assert((#[trigger] ps0[i as int]).wf());
            assert forall|k: int| 0 <= k < p@.robots.len() implies
                (#[trigger] p@.robots[k]).robot_id < next_id
            by {
                assert(ps0[i as int].robots[k].robot_id < nid0);
            }
        }
        let ghost nid_before = next_id;
        buy_for_player(map, &mut p, &mut next_id);
        let ghost pv = p@;
        let ghost np_old = new_players.deep_view();
        let ghost npv_vec = new_players@;
        new_players.push(p);
        proof {
            assert forall|j: int| 0 <= j < i implies
                #[trigger] new_players.deep_view()[j] == np_old[j]
            by {
                assert(new_players@[j] == npv_vec[j]);
            }
            assert(new_players.deep_view()[i as int] == pv);
            assert(new_players.deep_view() =~= np_old.push(pv));
            lemma_buy_players_snoc(
                map@,
                nid0,
                ps0.take(i as int),
                np_old,
                nid_before,
                ps0[i as int],
                pv,
                next_id,
            );
            assert(ps0.take(i + 1) =~= ps0.take(i as int).push(ps0[i as int]));
            assert forall|a: int, b: int, x: int, y: int|
                #![trigger new_players.deep_view()[a].robots[x],
                    new_players.deep_view()[b].robots[y]]
                0 <= a < i + 1 && 0 <= b < i + 1 && a != b
                    && 0 <= x < new_players.deep_view()[a].robots.len()
                    && 0 <= y < new_players.deep_view()[b].robots.len() implies
                new_players.deep_view()[a].robots[x].robot_id
                    != new_players.deep_view()[b].robots[y].robot_id
            by {
                let da = new_players.deep_view()[a];
                let db = new_players.deep_view()[b];
                if a < i && b < i {
                } else if b == i {
                    assert(da == np_old[a]);
                    assert(db == pv);
                    if x < ps0[a].robots.len() && y < ps0[i as int].robots.len() {
                        assert(da.robots[x].robot_id == ps0[a].robots[x].robot_id);
                        assert(db.robots[y].robot_id == ps0[i as int].robots[y].robot_id);
                    } else if x < ps0[a].robots.len() {
                        assert(da.robots[x].robot_id < nid0);
                        assert(db.robots[y].robot_id >= nid_before);
                    } else if y < ps0[i as int].robots.len() {
                        assert(da.robots[x].robot_id >= nid0);
                        assert(db.robots[y].robot_id == ps0[i as int].robots[y].robot_id);
                        assert(db.robots[y].robot_id < nid0);
                    } else {
                        assert(da.robots[x].robot_id < nid_before);
                        assert(db.robots[y].robot_id >= nid_before);
                    }
                } else {
                    assert(db == np_old[b]);
                    assert(da == pv);
                    if y < ps0[b].robots.len() && x < ps0[i as int].robots.len() {
                        assert(db.robots[y].robot_id == ps0[b].robots[y].robot_id);
                        assert(da.robots[x].robot_id == ps0[i as int].robots[x].robot_id);
                    } else if y < ps0[b].robots.len() {
                        assert(db.robots[y].robot_id < nid0);
                        assert(da.robots[x].robot_id >= nid_before);
                    } else if x < ps0[i as int].robots.len() {
                        assert(db.robots[y].robot_id >= nid0);
                        assert(da.robots[x].robot_id == ps0[i as int].robots[x].robot_id);
                        assert(da.robots[x].robot_id < nid0);
                    } else {
                        assert(db.robots[y].robot_id < nid_before);
                        assert(da.robots[x].robot_id >= nid_before);
                    }
                }
            }
        }
    }
    proof {
        assert(ps0.take(n as int) =~= ps0);
    }
    (new_players, next_id)
}

/// The buying phase over the current round: players process their buy
/// queues in order, sharing one fresh-id counter that starts past every
/// robot id in the round, and the buy queues are drained.  Nothing else of
/// the game changes.
pub fn handle_buy_commands(game_state: &mut GameState)
    requires
        old(game_state)@.wf(),
    ensures
        final(game_state)@.wf(),
        final(game_state)@.round_states.len() == old(game_state)@.round_states.len(),
        final(game_state)@ == (GameStateV {
            round_states: old(game_state)@.round_states.update(
                old(game_state)@.round_states.len() - 1,
                final(game_state)@.spec_current(),
            ),
            ..old(game_state)@
        }),
        final(game_state)@.spec_current().map == old(game_state)@.spec_current().map,
        final(game_state)@.spec_current().round_number
            == old(game_state)@.spec_current().round_number,
        exists|nid2: u64|
            spec_buy_players_rel(
                old(game_state)@.spec_current().map,
                spec_next_robot_id(old(game_state)@.spec_current().players),
                old(game_state)@.spec_current().players,
                final(game_state)@.spec_current().players,
                nid2,
            ),
{
    let ghost g0 = old(game_state)@;
    let ghost cur0 = old(game_state)@.spec_current();
    let mut rs: RoundState = game_state.round_states.pop().unwrap();
    proof {
        assert(rs@ == cur0);
        assert(cur0.wf());
    }
    let next0: u64 = match max_robot_id(&rs.players) {
        Some(m) => {
            if m < u64::MAX {
                m + 1
            } else {
                u64::MAX
            }
        },
        None => 0,
    };
    proof {
        assert(rs.players.deep_view() == cur0.players);
        lemma_max_id_players(cur0.players);
        assert forall|j: int, k: int|
            #![trigger cur0.players[j].robots[k]]
            0 <= j < cur0.players.len() && 0 <= k < cur0.players[j].robots.len() implies
            cur0.players[j].robots[k].robot_id < next0
        by {
            assert((#[trigger] cur0.players[j]).wf());
        }
        assert(next0 == spec_next_robot_id(cur0.players));
    }
    let (new_players, nid2) = buy_round_players(&rs.map, &rs.players, next0);
    let ghost npv = new_players.deep_view();
    let ghost nid2v = nid2;
    rs.players = new_players;
    let ghost rsv = rs@;
    game_state.round_states.push(rs);
    proof {
        assert(rsv.players == npv);
        assert(rsv.map == cur0.map);
        assert(rsv.round_number == cur0.round_number);
        assert(spec_buy_players_rel(cur0.map, spec_next_robot_id(cur0.players),
            cur0.players, npv, nid2v));
        let gv = game_state@;
        let last = g0.round_states.len() - 1;
        assert(gv.round_states =~= g0.round_states.update(last, rsv));
        assert(gv.spec_current() == rsv);
        assert(gv =~= (GameStateV {
            round_states: g0.round_states.update(last, rsv),
            ..g0
        }));
        assert(gv.wf()) by {
            assert forall|r: int| 0 <= r < gv.round_states.len() implies
                (#[trigger] gv.round_states[r]).wf() && gv.round_states[r].round_number == r
            by {
                if r != last {
                    assert(gv.round_states[r] == g0.round_states[r]);
                } else {
                    assert(gv.round_states[r] == rsv);
                    assert(rsv.wf());
                }
            }
        }
    }
}

} // verus!
