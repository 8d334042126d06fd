//! Proofs of the battle-phase safety of dead robots: a robot at zero
//! health neither deals nor takes scripted damage, and the purge of its
//! remaining commands is exhaustive.

use vstd::prelude::*;

use crate::command::CommandV;
use crate::game_state::RoundStateV;
use crate::handler::battle::DamageReportV;
use crate::handler::battle::spec_apply_one;
use crate::handler::battle::spec_apply_reports;
use crate::handler::battle::spec_calc_one;
use crate::handler::battle::spec_calc_player_reports;
use crate::handler::battle::spec_calc_round_reports;
use crate::handler::battle::spec_calc_concat_step;
use crate::handler::battle::spec_calc_step;
use crate::handler::battle::spec_purge_pred;
use crate::handler::battle::spec_purge_player;
use crate::handler::battle::spec_purge_round;
use crate::handler::battle::spec_refs_dead_robot;
use crate::player::PlayerStateV;

verus! {

/// Whether some robot of `p` carries the given id and is alive.
pub open spec fn spec_owned_alive(p: PlayerStateV, rid: u64) -> bool {
    exists|j: int|
        0 <= j < p.robots.len() && (#[trigger] p.robots[j]).robot_id == rid
            && p.robots[j].health > 0
}

/// After the dead-robot purge, no mining or regenerate command of any
/// player references a dead robot of that player: the purge is
/// exhaustive, so a robot dead when the battle phase ends acts in none of
/// the later phases.
pub proof fn lemma_purge_is_exhaustive(rs: RoundStateV)
    ensures
        forall|i: int, j: int|
            #![trigger spec_purge_round(rs).players[i].commands.mining[j]]
            0 <= i < rs.players.len()
                && 0 <= j < spec_purge_round(rs).players[i].commands.mining.len() ==>
                !spec_refs_dead_robot(
                    spec_purge_round(rs).players[i],
                    spec_purge_round(rs).players[i].commands.mining[j],
                ),
        forall|i: int, j: int|
            #![trigger spec_purge_round(rs).players[i].commands.regenerate[j]]
            0 <= i < rs.players.len()
                && 0 <= j < spec_purge_round(rs).players[i].commands.regenerate.len() ==>
                !spec_refs_dead_robot(
                    spec_purge_round(rs).players[i],
                    spec_purge_round(rs).players[i].commands.regenerate[j],
                ),
{
    assert forall|i: int, j: int|
        #![trigger spec_purge_round(rs).players[i].commands.mining[j]]
        0 <= i < rs.players.len()
            && 0 <= j < spec_purge_round(rs).players[i].commands.mining.len() implies
        !spec_refs_dead_robot(
            spec_purge_round(rs).players[i],
            spec_purge_round(rs).players[i].commands.mining[j],
        )
    by {
        let p = rs.players[i];
        assert(spec_purge_round(rs).players[i] == spec_purge_player(p));
        p.commands.mining.lemma_filter_pred(spec_purge_pred(p), j);
        let c = spec_purge_player(p).commands.mining[j];
        assert(!spec_refs_dead_robot(p, c));
        assert(spec_purge_player(p).robots == p.robots);
    }
    assert forall|i: int, j: int|
        #![trigger spec_purge_round(rs).players[i].commands.regenerate[j]]
        0 <= i < rs.players.len()
            && 0 <= j < spec_purge_round(rs).players[i].commands.regenerate.len() implies
        !spec_refs_dead_robot(
            spec_purge_round(rs).players[i],
            spec_purge_round(rs).players[i].commands.regenerate[j],
        )
    by {
        let p = rs.players[i];
        assert(spec_purge_round(rs).players[i] == spec_purge_player(p));
        p.commands.regenerate.lemma_filter_pred(spec_purge_pred(p), j);
        let c = spec_purge_player(p).commands.regenerate[j];
        assert(!spec_refs_dead_robot(p, c));
        assert(spec_purge_player(p).robots == p.robots);
    }
}

/// Every report a battle queue yields names an attacker the player owns
/// alive: a dead robot deals no damage.
proof fn lemma_calc_fold_alive(p: PlayerStateV, q: Seq<CommandV>)
    ensures
        forall|ri: int|
            #![trigger q.fold_left(Seq::<DamageReportV>::empty(), spec_calc_step(p))[ri]]
            0 <= ri < q.fold_left(Seq::<DamageReportV>::empty(), spec_calc_step(p)).len()
                ==> spec_owned_alive(
                p,
                q.fold_left(Seq::<DamageReportV>::empty(), spec_calc_step(p))[ri]
                    .attacker_id,
            ),
    decreases q.len(),
{
    if q.len() > 0 {
        lemma_calc_fold_alive(p, q.drop_last());
        let prev = q.drop_last().fold_left(Seq::<DamageReportV>::empty(), spec_calc_step(p));
        let whole = q.fold_left(Seq::<DamageReportV>::empty(), spec_calc_step(p));
        assert forall|ri: int| 0 <= ri < whole.len() implies
            spec_owned_alive(p, whole[ri].attacker_id)
        by {
            match spec_calc_one(p, q.last()) {
                Some(r) => {
                    assert(whole == prev.push(r));
                    if ri < prev.len() {
                        assert(whole[ri] == prev[ri]);
                    } else {
                        let rid = r.attacker_id;
                        let i0 = crate::player::spec_robot_index(p.robots, rid);
                        assert(0 <= i0 < p.robots.len() && p.robots[i0].robot_id == rid);
                        assert((#[trigger] p.robots[i0]).health > 0);
                    }
                },
                None => {
                    assert(whole == prev);
                },
            }
        }
    }
}

/// Every report of a round's damage calculation names an attacker that
/// some player owns alive: a robot dead when the battle phase starts
/// deals no damage.
pub proof fn lemma_dead_robots_deal_no_damage(rs: RoundStateV)
    ensures
        forall|ri: int|
            #![trigger spec_calc_round_reports(rs)[ri]]
            0 <= ri < spec_calc_round_reports(rs).len() ==>
            exists|i: int|
                0 <= i < rs.players.len() && spec_owned_alive(
                    #[trigger] rs.players[i],
                    spec_calc_round_reports(rs)[ri].attacker_id,
                ),
{
    lemma_calc_concat(rs.players);
}

/// The concatenated round reports inherit the per-player property.
proof fn lemma_calc_concat(players: Seq<PlayerStateV>)
    ensures
        forall|ri: int|
            #![trigger players.fold_left(Seq::<DamageReportV>::empty(),
                spec_calc_concat_step())[ri]]
            0 <= ri < players.fold_left(
                Seq::<DamageReportV>::empty(),
                spec_calc_concat_step(),
            ).len() ==> exists|i: int|
                0 <= i < players.len() && spec_owned_alive(
                    #[trigger] players[i],
                    players.fold_left(
                        Seq::<DamageReportV>::empty(),
                        spec_calc_concat_step(),
                    )[ri].attacker_id,
                ),
    decreases players.len(),
{
    let f = spec_calc_concat_step();
    if players.len() > 0 {
        lemma_calc_concat(players.drop_last());
        let prev = players.drop_last().fold_left(Seq::<DamageReportV>::empty(), f);
        let whole = players.fold_left(Seq::<DamageReportV>::empty(), f);
        let lastp = players.last();
        assert(whole == prev + spec_calc_player_reports(lastp));
        lemma_calc_fold_alive(lastp, lastp.commands.battle);
        assert forall|ri: int| #![trigger whole[ri]] 0 <= ri < whole.len() implies
            exists|i: int|
                0 <= i < players.len() && spec_owned_alive(
                    #[trigger] players[i],
                    whole[ri].attacker_id,
                )
        by {
            if ri < prev.len() {
                assert(whole[ri] == prev[ri]);
                let i0 = choose|i: int|
                    0 <= i < players.drop_last().len() && spec_owned_alive(
                        #[trigger] players.drop_last()[i],
                        prev[ri].attacker_id,
                    );
                assert(players[i0] == players.drop_last()[i0]);
                assert(spec_owned_alive(#[trigger] players[i0], whole[ri].attacker_id));
            } else {
                assert(whole[ri] == spec_calc_player_reports(lastp)[ri - prev.len()]);
                assert(spec_owned_alive(
                    #[trigger] players[players.len() - 1],
                    whole[ri].attacker_id,
                ));
            }
        }
    }
}

/// A robot that is dead keeps health zero through the application of any
/// sequence of damage reports: dead robots take no further scripted
/// damage.
pub proof fn lemma_dead_robots_take_no_damage(
    players: Seq<PlayerStateV>,
    reports: Seq<DamageReportV>,
    j: int,
    k: int,
)
    requires
        forall|i: int| 0 <= i < players.len() ==> (#[trigger] players[i]).wf(),
        forall|a: int, b: int|
            0 <= a < b < players.len() ==>
                players[a].player_name != players[b].player_name,
        forall|a: int, b: int, x: int, y: int|
            #![trigger players[a].robots[x], players[b].robots[y]]
            0 <= a < players.len() && 0 <= b < players.len() && a != b
                && 0 <= x < players[a].robots.len()
                && 0 <= y < players[b].robots.len() ==>
                players[a].robots[x].robot_id != players[b].robots[y].robot_id,
        0 <= j < players.len(),
        0 <= k < players[j].robots.len(),
        players[j].robots[k].health == 0,
    ensures
        spec_apply_reports(players, reports).len() == players.len(),
        k < spec_apply_reports(players, reports)[j].robots.len(),
        spec_apply_reports(players, reports)[j].robots[k].health == 0,
    decreases reports.len(),
{
    if reports.len() == 0 {
        assert(spec_apply_reports(players, reports) == players);
    } else {
        let prev = spec_apply_reports(players, reports.drop_last());
        lemma_dead_robots_take_no_damage(players, reports.drop_last(), j, k);
        lemma_apply_frame_chain(players, reports.drop_last());
        let r = reports.last();
        crate::handler::battle::lemma_apply_one_frame(prev, r);
        assert(spec_apply_reports(players, reports) == spec_apply_one(prev, r));
        lemma_apply_one_keeps_dead(prev, r, j, k);
    }
}

/// Applying a report sequence preserves the well-formedness facts that the
/// per-report frame lemma needs.
proof fn lemma_apply_frame_chain(players: Seq<PlayerStateV>, reports: Seq<DamageReportV>)
    requires
        forall|i: int| 0 <= i < players.len() ==> (#[trigger] players[i]).wf(),
        forall|a: int, b: int|
            0 <= a < b < players.len() ==>
                players[a].player_name != players[b].player_name,
        forall|a: int, b: int, x: int, y: int|
            #![trigger players[a].robots[x], players[b].robots[y]]
            0 <= a < players.len() && 0 <= b < players.len() && a != b
                && 0 <= x < players[a].robots.len()
                && 0 <= y < players[b].robots.len() ==>
                players[a].robots[x].robot_id != players[b].robots[y].robot_id,
    ensures
        spec_apply_reports(players, reports).len() == players.len(),
        forall|i: int| 0 <= i < players.len() ==>
            (#[trigger] spec_apply_reports(players, reports)[i]).wf(),
        forall|i: int| 0 <= i < players.len() ==>
            (#[trigger] spec_apply_reports(players, reports)[i]).player_name
                == players[i].player_name,
        forall|i: int| 0 <= i < players.len() ==>
            (#[trigger] spec_apply_reports(players, reports)[i]).robots.len()
                == players[i].robots.len(),
        forall|i: int, x: int|
            #![trigger spec_apply_reports(players, reports)[i].robots[x]]
            0 <= i < players.len() && 0 <= x < players[i].robots.len() ==>
                spec_apply_reports(players, reports)[i].robots[x].robot_id
                    == players[i].robots[x].robot_id,
    decreases reports.len(),
{
    if reports.len() == 0 {
        assert(spec_apply_reports(players, reports) == players);
    } else {
        lemma_apply_frame_chain(players, reports.drop_last());
        let prev = spec_apply_reports(players, reports.drop_last());
        let r = reports.last();
        crate::handler::battle::lemma_apply_one_frame(prev, r);
        assert(spec_apply_reports(players, reports) == spec_apply_one(prev, r));
    }
}

/// One report cannot bring a dead robot back or damage it further.
proof fn lemma_apply_one_keeps_dead(
    players: Seq<PlayerStateV>,
    r: DamageReportV,
    j: int,
    k: int,
)
    requires
        forall|i: int| 0 <= i < players.len() ==> (#[trigger] players[i]).wf(),
        forall|a: int, b: int|
            0 <= a < b < players.len() ==>
                players[a].player_name != players[b].player_name,
        forall|a: int, b: int, x: int, y: int|
            #![trigger players[a].robots[x], players[b].robots[y]]
            0 <= a < players.len() && 0 <= b < players.len() && a != b
                && 0 <= x < players[a].robots.len()
                && 0 <= y < players[b].robots.len() ==>
                players[a].robots[x].robot_id != players[b].robots[y].robot_id,
        0 <= j < players.len(),
        0 <= k < players[j].robots.len(),
        players[j].robots[k].health == 0,
    ensures
        spec_apply_one(players, r).len() == players.len(),
        k < spec_apply_one(players, r)[j].robots.len(),
        spec_apply_one(players, r)[j].robots[k].health == 0,
{
    crate::handler::battle::lemma_apply_one_frame(players, r);
}

} // verus!
