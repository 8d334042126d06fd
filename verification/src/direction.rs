//! Compass directions used for the neighbour edges of the planet graph.

use vstd::prelude::*;

use crate::text::str_eq_str;

verus! {

/// One of the four compass directions.
#[derive(Clone, Copy, Debug, PartialEq, Eq, Structural, Hash)]
pub enum Direction {
    NORTH,
    EAST,
    SOUTH,
    WEST,
}

/// The direction pointing the opposite way.
pub open spec fn spec_opposite(d: Direction) -> Direction {
    match d {
        Direction::NORTH => Direction::SOUTH,
        Direction::EAST => Direction::WEST,
        Direction::SOUTH => Direction::NORTH,
        Direction::WEST => Direction::EAST,
    }
}

impl Direction {
    /// The direction pointing the opposite way.
    pub fn get_opposite(&self) -> (r: Direction)
        ensures
            r == spec_opposite(*self),
    {
        match self {
            Direction::NORTH => Direction::SOUTH,
            Direction::EAST => Direction::WEST,
            Direction::SOUTH => Direction::NORTH,
            Direction::WEST => Direction::EAST,
        }
    }

    /// Every direction, in declaration order.
    pub fn variants() -> (r: Vec<Direction>)
        ensures
            r@ == seq![Direction::NORTH, Direction::EAST, Direction::SOUTH, Direction::WEST],
    {
        let mut v: Vec<Direction> = Vec::new();
        v.push(Direction::NORTH);
        v.push(Direction::EAST);
        v.push(Direction::SOUTH);
        v.push(Direction::WEST);
        proof {
            assert(v@ =~= seq![
                Direction::NORTH,
                Direction::EAST,
                Direction::SOUTH,
                Direction::WEST,
            ]);
        }
        v
    }

    /// Parses the upper-case name of a direction.
    pub fn get_direction_from_string(string: &str) -> (r: Option<Direction>)
        ensures
            r == spec_direction_from_chars(string@),
    {
        if str_eq_str(string, "NORTH") {
            Some(Direction::NORTH)
        } else if str_eq_str(string, "EAST") {
            Some(Direction::EAST)
        } else if str_eq_str(string, "SOUTH") {
            Some(Direction::SOUTH)
        } else if str_eq_str(string, "WEST") {
            Some(Direction::WEST)
        } else {
            None
        }
    }
}

/// Which direction, if any, a character sequence names.
pub open spec fn spec_direction_from_chars(s: Seq<char>) -> Option<Direction> {
    if s == "NORTH"@ {
        Some(Direction::NORTH)
    } else if s == "EAST"@ {
        Some(Direction::EAST)
    } else if s == "SOUTH"@ {
        Some(Direction::SOUTH)
    } else if s == "WEST"@ {
        Some(Direction::WEST)
    } else {
        None
    }
}

} // verus!
