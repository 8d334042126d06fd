//! The discrete upgrade levels a robot stat can have.

use vstd::prelude::*;

verus! {

/// An upgrade level between 0 and 5.
#[derive(Clone, Copy, Debug, PartialEq, Eq, Structural, Hash)]
pub enum RobotLevel {
    LEVEL0,
    LEVEL1,
    LEVEL2,
    LEVEL3,
    LEVEL4,
    LEVEL5,
}

/// The numeric value of a level.
pub open spec fn spec_level_value(l: RobotLevel) -> u32 {
    match l {
        RobotLevel::LEVEL0 => 0,
        RobotLevel::LEVEL1 => 1,
        RobotLevel::LEVEL2 => 2,
        RobotLevel::LEVEL3 => 3,
        RobotLevel::LEVEL4 => 4,
        RobotLevel::LEVEL5 => 5,
    }
}

impl RobotLevel {
    /// The numeric value of this level.
    pub fn get_int_value(&self) -> (r: u32)
        ensures
            r == spec_level_value(*self),
    {
        match self {
            RobotLevel::LEVEL0 => 0,
            RobotLevel::LEVEL1 => 1,
            RobotLevel::LEVEL2 => 2,
            RobotLevel::LEVEL3 => 3,
            RobotLevel::LEVEL4 => 4,
            RobotLevel::LEVEL5 => 5,
        }
    }
}

impl Default for RobotLevel {
    /// New robots start every stat at the lowest level.
    fn default() -> (r: Self)
        ensures
            r == RobotLevel::LEVEL0,
    {
        RobotLevel::LEVEL0
    }
}

} // verus!
