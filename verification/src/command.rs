//! Commands: what a player asks their robots to do in one round.

use vstd::prelude::*;

verus! {

/// The six kinds of command a round can contain.
#[derive(Clone, Copy, Debug, PartialEq, Eq, Structural, Hash)]
pub enum CommandType {
    MOVEMENT,
    BATTLE,
    MINING,
    REGENERATE,
    BUYING,
    SELLING,
}

/// The payload of a command; each command type reads only some fields, and
/// fields a type does not use are absent.
#[derive(Debug)]
pub struct CommandObject {
    pub robot_id: Option<u64>,
    pub planet_id: Option<u64>,
    pub target_id: Option<u64>,
    pub item_name: Option<String>,
    pub item_quantity: Option<u32>,
}

/// The mathematical value of a command payload.
#[verifier::ext_equal]
pub struct CommandObjectV {
    pub robot_id: Option<u64>,
    pub planet_id: Option<u64>,
    pub target_id: Option<u64>,
    pub item_name: Option<Seq<char>>,
    pub item_quantity: Option<u32>,
}

impl View for CommandObject {
    type V = CommandObjectV;

    open spec fn view(&self) -> CommandObjectV {
        CommandObjectV {
            robot_id: self.robot_id,
            planet_id: self.planet_id,
            target_id: self.target_id,
            item_name: self.item_name.deep_view(),
            item_quantity: self.item_quantity,
        }
    }
}

impl DeepView for CommandObject {
    type V = CommandObjectV;

    open spec fn deep_view(&self) -> CommandObjectV {
        self.view()
    }
}

impl Clone for CommandObject {
    fn clone(&self) -> (r: Self)
        ensures
            r@ == self@,
    {
        let r = CommandObject {
            robot_id: self.robot_id,
            planet_id: self.planet_id,
            target_id: self.target_id,
            item_name: match &self.item_name {
                Some(s) => Some(s.clone()),
                None => None,
            },
            item_quantity: self.item_quantity,
        };
        proof {
            assert(r@ =~= self@);
        }
        r
    }
}

/// One command of one player, as handed in by the dispatch boundary.
#[derive(Debug)]
pub struct Command {
    pub player_name: String,
    pub game_id: String,
    pub command_type: CommandType,
    pub command_object: CommandObject,
}

/// The mathematical value of a command.
#[verifier::ext_equal]
pub struct CommandV {
    pub player_name: Seq<char>,
    pub game_id: Seq<char>,
    pub command_type: CommandType,
    pub command_object: CommandObjectV,
}

impl View for Command {
    type V = CommandV;

    open spec fn view(&self) -> CommandV {
        CommandV {
            player_name: self.player_name@,
            game_id: self.game_id@,
            command_type: self.command_type,
            command_object: self.command_object@,
        }
    }
}

impl DeepView for Command {
    type V = CommandV;

    open spec fn deep_view(&self) -> CommandV {
        self.view()
    }
}

impl Clone for Command {
    fn clone(&self) -> (r: Self)
        ensures
            r@ == self@,
    {
        let r = Command {
            player_name: self.player_name.clone(),
            game_id: self.game_id.clone(),
            command_type: self.command_type,
            command_object: self.command_object.clone(),
        };
        proof {
            assert(r@ =~= self@);
        }
        r
    }
}

/// Copies a vector of commands.
pub fn clone_commands(v: &Vec<Command>) -> (r: Vec<Command>)
    ensures
        r.deep_view() == v.deep_view(),
{
    let mut r: Vec<Command> = Vec::new();
    for i in 0..v.len()
        invariant
            r@.len() == i,
            forall|j: int| 0 <= j < i ==> r@[j]@ == v@[j]@,
    {
        r.push(v[i].clone());
    }
    proof {
        assert(r.deep_view() =~= v.deep_view());
    }
    r
}

} // verus!
