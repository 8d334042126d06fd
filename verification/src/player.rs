//! Per-player state: money, visited planets, robots, queued commands and
//! kill records.

use vstd::prelude::*;

use crate::command::Command;
use crate::command::CommandType;
use crate::command::CommandV;
use crate::command::clone_commands;
use crate::robot::Robot;
use crate::util::contains_u64;
use crate::util::copy_vec;

verus! {

/// An amount of money.
#[derive(Clone, Copy, Debug, PartialEq, Eq, Structural, Hash)]
pub struct Money {
    pub amount: u32,
}

/// The pending commands of one player, one queue per command type.
#[derive(Debug)]
pub struct CommandQueues {
    pub selling: Vec<Command>,
    pub buying: Vec<Command>,
    pub movement: Vec<Command>,
    pub battle: Vec<Command>,
    pub mining: Vec<Command>,
    pub regenerate: Vec<Command>,
}

/// The mathematical value of the six command queues.
#[verifier::ext_equal]
pub struct CommandQueuesV {
    pub selling: Seq<CommandV>,
    pub buying: Seq<CommandV>,
    pub movement: Seq<CommandV>,
    pub battle: Seq<CommandV>,
    pub mining: Seq<CommandV>,
    pub regenerate: Seq<CommandV>,
}

impl View for CommandQueues {
    type V = CommandQueuesV;

    open spec fn view(&self) -> CommandQueuesV {
        CommandQueuesV {
            selling: self.selling.deep_view(),
            buying: self.buying.deep_view(),
            movement: self.movement.deep_view(),
            battle: self.battle.deep_view(),
            mining: self.mining.deep_view(),
            regenerate: self.regenerate.deep_view(),
        }
    }
}

impl DeepView for CommandQueues {
    type V = CommandQueuesV;

    open spec fn deep_view(&self) -> CommandQueuesV {
        self.view()
    }
}

/// Whether some command of `q` carries the given robot id in its payload.
pub open spec fn spec_queue_references(q: Seq<CommandV>, robot_id: u64) -> bool {
    exists|j: int| 0 <= j < q.len() && q[j].command_object.robot_id == Some(robot_id)
}

/// Whether some command of `v` carries the given robot id.
pub fn queue_references(v: &Vec<Command>, robot_id: u64) -> (r: bool)
    ensures
        r == spec_queue_references(v.deep_view(), robot_id),
{
    for i in 0..v.len()
        invariant
            forall|j: int| 0 <= j < i ==> v@[j]@.command_object.robot_id != Some(robot_id),
    {
        match v[i].command_object.robot_id {
            Some(id) => {
                if id == robot_id {
                    proof {
                        assert(v.deep_view()[i as int].command_object.robot_id
                            == Some(robot_id));
                    }
                    return true;
                }
            },
            None => {},
        }
    }
    proof {
        assert(forall|j: int| 0 <= j < v@.len()
            ==> #[trigger] v.deep_view()[j].command_object.robot_id != Some(robot_id));
    }
    false
}

impl CommandQueuesV {
    /// Whether every queue is empty.
    pub open spec fn spec_is_empty(self) -> bool {
        self.selling.len() == 0 && self.buying.len() == 0 && self.movement.len() == 0
            && self.battle.len() == 0 && self.mining.len() == 0
            && self.regenerate.len() == 0
    }

    /// Whether some queued command carries the given robot id.
    pub open spec fn spec_references_robot(self, robot_id: u64) -> bool {
        spec_queue_references(self.selling, robot_id)
            || spec_queue_references(self.buying, robot_id)
            || spec_queue_references(self.movement, robot_id)
            || spec_queue_references(self.battle, robot_id)
            || spec_queue_references(self.mining, robot_id)
            || spec_queue_references(self.regenerate, robot_id)
    }

    /// The queue holding commands of the given type.
    pub open spec fn spec_queue_of(self, t: CommandType) -> Seq<CommandV> {
        match t {
            CommandType::SELLING => self.selling,
            CommandType::BUYING => self.buying,
            CommandType::MOVEMENT => self.movement,
            CommandType::BATTLE => self.battle,
            CommandType::MINING => self.mining,
            CommandType::REGENERATE => self.regenerate,
        }
    }
}

impl CommandQueues {
    /// Creates six empty queues.
    pub fn new() -> (r: CommandQueues)
        ensures
            r@.spec_is_empty(),
    {
        CommandQueues {
            selling: Vec::new(),
            buying: Vec::new(),
            movement: Vec::new(),
            battle: Vec::new(),
            mining: Vec::new(),
            regenerate: Vec::new(),
        }
    }

    /// Whether any queue holds a command.
    pub fn has_any_command(&self) -> (r: bool)
        ensures
            r == !self@.spec_is_empty(),
    {
        self.selling.len() > 0 || self.buying.len() > 0 || self.movement.len() > 0
            || self.battle.len() > 0 || self.mining.len() > 0
            || self.regenerate.len() > 0
    }

    /// Empties every queue.
    pub fn clear(&mut self)
        ensures
            final(self)@.spec_is_empty(),
    {
        self.selling = Vec::new();
        self.buying = Vec::new();
        self.movement = Vec::new();
        self.battle = Vec::new();
        self.mining = Vec::new();
        self.regenerate = Vec::new();
    }

    /// Appends a command to the queue of its own type.
    pub fn push_command(&mut self, c: Command)
        ensures
            final(self)@.spec_queue_of(c.command_type)
                == old(self)@.spec_queue_of(c.command_type).push(c@),
            forall|t: CommandType| t != c.command_type ==>
                final(self)@.spec_queue_of(t) == old(self)@.spec_queue_of(t),
    {
        let ghost t = c.command_type;
        match c.command_type {
            CommandType::SELLING => self.selling.push(c),
            CommandType::BUYING => self.buying.push(c),
            CommandType::MOVEMENT => self.movement.push(c),
            CommandType::BATTLE => self.battle.push(c),
            CommandType::MINING => self.mining.push(c),
            CommandType::REGENERATE => self.regenerate.push(c),
        }
        proof {
            assert(final(self)@.spec_queue_of(t)
                =~= old(self)@.spec_queue_of(t).push(c@));
        }
    }

    /// Whether some queued command carries the given robot id.
    pub fn references_robot(&self, robot_id: u64) -> (r: bool)
        ensures
            r == self@.spec_references_robot(robot_id),
    {
        queue_references(&self.selling, robot_id)
            || queue_references(&self.buying, robot_id)
            || queue_references(&self.movement, robot_id)
            || queue_references(&self.battle, robot_id)
            || queue_references(&self.mining, robot_id)
            || queue_references(&self.regenerate, robot_id)
    }
}

impl Clone for CommandQueues {
    fn clone(&self) -> (r: Self)
        ensures
            r@ == self@,
    {
        let r = CommandQueues {
            selling: clone_commands(&self.selling),
            buying: clone_commands(&self.buying),
            movement: clone_commands(&self.movement),
            battle: clone_commands(&self.battle),
            mining: clone_commands(&self.mining),
            regenerate: clone_commands(&self.regenerate),
        };
        proof {
            assert(r@ =~= self@);
        }
        r
    }
}

/// A note that one of this player's robots destroyed an enemy robot, with a
/// snapshot of the destroyed robot.
#[derive(Debug)]
pub struct KillRecord {
    pub attacker_robot_id: u64,
    pub enemy_player_name: String,
    pub enemy_robot: Robot,
}

/// The mathematical value of a kill record.
#[verifier::ext_equal]
pub struct KillRecordV {
    pub attacker_robot_id: u64,
    pub enemy_player_name: Seq<char>,
    pub enemy_robot: Robot,
}

impl View for KillRecord {
    type V = KillRecordV;

    open spec fn view(&self) -> KillRecordV {
        KillRecordV {
            attacker_robot_id: self.attacker_robot_id,
            enemy_player_name: self.enemy_player_name@,
            enemy_robot: self.enemy_robot,
        }
    }
}

impl DeepView for KillRecord {
    type V = KillRecordV;

    open spec fn deep_view(&self) -> KillRecordV {
        self.view()
    }
}

impl Clone for KillRecord {
    fn clone(&self) -> (r: Self)
        ensures
            r@ == self@,
    {
        KillRecord {
            attacker_robot_id: self.attacker_robot_id,
            enemy_player_name: self.enemy_player_name.clone(),
            enemy_robot: self.enemy_robot,
        }
    }
}

/// The full state of one player within one round.
#[derive(Debug)]
pub struct PlayerState {
    pub player_name: String,
    pub money: Money,
    pub total_money_made: Money,
    pub visited_planets: Vec<u64>,
    pub robots: Vec<Robot>,
    pub commands: CommandQueues,
    pub killed_robots: Vec<KillRecord>,
}

/// The mathematical value of a player's state.
#[verifier::ext_equal]
pub struct PlayerStateV {
    pub player_name: Seq<char>,
    pub money: u32,
    pub total_money_made: u32,
    pub visited_planets: Seq<u64>,
    pub robots: Seq<Robot>,
    pub commands: CommandQueuesV,
    pub killed_robots: Seq<KillRecordV>,
}

impl View for PlayerState {
    type V = PlayerStateV;

    open spec fn view(&self) -> PlayerStateV {
        PlayerStateV {
            player_name: self.player_name@,
            money: self.money.amount,
            total_money_made: self.total_money_made.amount,
            visited_planets: self.visited_planets@,
            robots: self.robots@,
            commands: self.commands@,
            killed_robots: self.killed_robots.deep_view(),
        }
    }
}

impl DeepView for PlayerState {
    type V = PlayerStateV;

    open spec fn deep_view(&self) -> PlayerStateV {
        self.view()
    }
}

/// Whether some player of the sequence carries the given name.
pub open spec fn spec_has_name(players: Seq<PlayerStateV>, name: Seq<char>) -> bool {
    exists|i: int| 0 <= i < players.len() && (#[trigger] players[i]).player_name == name
}

/// The index of the player with the given name; meaningful only while
/// player names are unique and the player exists.
pub open spec fn spec_name_index(players: Seq<PlayerStateV>, name: Seq<char>) -> int {
    choose|i: int| 0 <= i < players.len() && (#[trigger] players[i]).player_name == name
}

/// The index of the robot with the given id; meaningful only while the
/// owner's robot ids are unique and the robot exists.
pub open spec fn spec_robot_index(robots: Seq<Robot>, robot_id: u64) -> int {
    choose|i: int| 0 <= i < robots.len() && robots[i].robot_id == robot_id
}

impl PlayerStateV {
    /// Whether the player owns a robot with the given id.
    pub open spec fn spec_owns_robot(self, robot_id: u64) -> bool {
        exists|i: int| 0 <= i < self.robots.len() && self.robots[i].robot_id == robot_id
    }

    /// Robot ids are unique and below the id ceiling, every robot is well
    /// formed, and the visited set holds no duplicates.
    pub open spec fn wf(self) -> bool {
        &&& forall|i: int, j: int|
            0 <= i < j < self.robots.len() ==>
                self.robots[i].robot_id != self.robots[j].robot_id
        &&& forall|i: int| 0 <= i < self.robots.len() ==>
            (#[trigger] self.robots[i]).robot_id < u64::MAX
        &&& forall|i: int| 0 <= i < self.robots.len() ==> (#[trigger] self.robots[i]).wf()
        &&& forall|i: int, j: int|
            0 <= i < j < self.visited_planets.len() ==>
                self.visited_planets[i] != self.visited_planets[j]
    }
}

impl PlayerState {
    /// A player who just joined: starting money, nothing visited, no robots,
    /// no commands, no kills.
    pub fn new(player_name: String, starting_money: u32) -> (r: PlayerState)
        ensures
            r@.player_name == player_name@,
            r@.money == starting_money,
            r@.total_money_made == starting_money,
            r@.visited_planets.len() == 0,
            r@.robots.len() == 0,
            r@.commands.spec_is_empty(),
            r@.killed_robots.len() == 0,
            r@.wf(),
    {
        PlayerState {
            player_name,
            money: Money { amount: starting_money },
            total_money_made: Money { amount: starting_money },
            visited_planets: Vec::new(),
            robots: Vec::new(),
            commands: CommandQueues::new(),
            killed_robots: Vec::new(),
        }
    }

    /// Index of the robot with the given id, if the player owns it.
    pub fn find_robot(&self, robot_id: u64) -> (r: Option<usize>)
        ensures
            match r {
                Some(i) => i < self@.robots.len() && self@.robots[i as int].robot_id == robot_id,
                None => !self@.spec_owns_robot(robot_id),
            },
    {
        for i in 0..self.robots.len()
            invariant
                forall|j: int| 0 <= j < i ==> self@.robots[j].robot_id != robot_id,
        {
            if self.robots[i].robot_id == robot_id {
                return Some(i);
            }
        }
        None
    }

    /// Whether the player owns at least one robot that is still alive.
    pub fn has_alive_robot(&self) -> (r: bool)
        ensures
            r == exists|i: int| 0 <= i < self@.robots.len()
                && (#[trigger] self@.robots[i]).spec_alive(),
    {
        for i in 0..self.robots.len()
            invariant
                forall|j: int| 0 <= j < i ==> !(#[trigger] self@.robots[j]).spec_alive(),
        {
            if self.robots[i].is_alive() {
                proof {
                    assert((#[trigger] self@.robots[i as int]).spec_alive());
                }
                return true;
            }
        }
        false
    }

    /// Records a planet as visited; returns whether it was newly discovered.
    pub fn visit_planet(&mut self, planet_id: u64) -> (discovered: bool)
        ensures
            discovered == !old(self)@.visited_planets.contains(planet_id),
            discovered ==> final(self)@.visited_planets
                == old(self)@.visited_planets.push(planet_id),
            !discovered ==> final(self)@.visited_planets == old(self)@.visited_planets,
            final(self)@ == (PlayerStateV {
                visited_planets: final(self)@.visited_planets,
                ..old(self)@
            }),
    {
        if contains_u64(&self.visited_planets, planet_id) {
            return false;
        }
        self.visited_planets.push(planet_id);
        true
    }
}

impl Clone for PlayerState {
    fn clone(&self) -> (r: Self)
        ensures
            r@ == self@,
    {
        let mut kills: Vec<KillRecord> = Vec::new();
        for i in 0..self.killed_robots.len()
            invariant
                kills@.len() == i,
                forall|j: int| 0 <= j < i ==> kills@[j]@ == self.killed_robots@[j]@,
        {
            kills.push(self.killed_robots[i].clone());
        }
        let r = PlayerState {
            player_name: self.player_name.clone(),
            money: self.money,
            total_money_made: self.total_money_made,
            visited_planets: copy_vec(&self.visited_planets),
            robots: copy_vec(&self.robots),
            commands: self.commands.clone(),
            killed_robots: kills,
        };
        proof {
            assert(r.killed_robots.deep_view() =~= self.killed_robots.deep_view());
            assert(r@ =~= self@);
        }
        r
    }
}

} // verus!
