//! Planets: nodes of the world graph, optionally holding a resource deposit.

use vstd::prelude::*;

use crate::direction::Direction;
use crate::resource::Resource;

verus! {

/// The neighbour of a planet in each compass direction, if any.
#[derive(Clone, Copy, Debug, PartialEq, Eq, Structural)]
pub struct Neighbours {
    pub north: Option<u64>,
    pub east: Option<u64>,
    pub south: Option<u64>,
    pub west: Option<u64>,
}

impl Neighbours {
    /// No neighbours in any direction.
    pub open spec fn spec_empty() -> Neighbours {
        Neighbours { north: None, east: None, south: None, west: None }
    }

    /// The neighbour entry for one direction.
    pub open spec fn spec_in_direction(self, d: Direction) -> Option<u64> {
        match d {
            Direction::NORTH => self.north,
            Direction::EAST => self.east,
            Direction::SOUTH => self.south,
            Direction::WEST => self.west,
        }
    }

    /// Whether some direction leads to the given planet.
    pub open spec fn spec_contains(self, id: u64) -> bool {
        self.north == Some(id) || self.east == Some(id) || self.south == Some(id)
            || self.west == Some(id)
    }

    /// Creates an empty neighbour map.
    pub fn new() -> (r: Neighbours)
        ensures
            r == Neighbours::spec_empty(),
    {
        Neighbours { north: None, east: None, south: None, west: None }
    }

    /// The neighbour entry for one direction.
    pub fn in_direction(&self, d: &Direction) -> (r: Option<u64>)
        ensures
            r == self.spec_in_direction(*d),
    {
        match d {
            Direction::NORTH => self.north,
            Direction::EAST => self.east,
            Direction::SOUTH => self.south,
            Direction::WEST => self.west,
        }
    }

    /// Whether some direction leads to the given planet.
    pub fn contains(&self, id: u64) -> (r: bool)
        ensures
            r == self.spec_contains(id),
    {
        self.north == Some(id) || self.east == Some(id) || self.south == Some(id)
            || self.west == Some(id)
    }
}

/// A planet of the world map.
#[derive(Clone, Copy, Debug)]
pub struct Planet {
    pub planet_id: u64,
    pub movement_difficulty: u8,
    pub resources: Option<(Resource, u32)>,
    pub neighbours: Neighbours,
}

impl Planet {
    /// A planet without resources or neighbours.
    pub fn new(planet_id: u64, movement_difficulty: u8) -> (r: Planet)
        ensures
            r == (Planet {
                planet_id,
                movement_difficulty,
                resources: None,
                neighbours: Neighbours::spec_empty(),
            }),
    {
        Planet {
            planet_id,
            movement_difficulty,
            resources: None,
            neighbours: Neighbours::new(),
        }
    }

    /// The planet's identifier.
    pub fn get_planet_id(&self) -> (r: u64)
        ensures
            r == self.planet_id,
    {
        self.planet_id
    }

    /// Energy a robot must spend to move away from this planet.
    pub fn get_movement_difficulty(&self) -> (r: u8)
        ensures
            r == self.movement_difficulty,
    {
        self.movement_difficulty
    }

    /// The planet's neighbour map.
    pub fn get_neighbours(&self) -> (r: &Neighbours)
        ensures
            r == self.neighbours,
    {
        &self.neighbours
    }

    /// Replaces the planet's identifier.
    pub fn set_planet_id(&mut self, planet_id: u64)
        ensures
            *final(self) == (Planet { planet_id, ..*old(self) }),
    {
        self.planet_id = planet_id;
    }

    /// Replaces the movement difficulty.
    pub fn set_movement_difficulty(&mut self, movement_difficulty: u8)
        ensures
            *final(self) == (Planet { movement_difficulty, ..*old(self) }),
    {
        self.movement_difficulty = movement_difficulty;
    }

    /// Replaces the whole neighbour map.
    pub fn set_neighbours(&mut self, neighbours: Neighbours)
        ensures
            *final(self) == (Planet { neighbours, ..*old(self) }),
    {
        self.neighbours = neighbours;
    }

    /// Sets the neighbour in one direction, keeping the other directions.
    pub fn set_neighbour(&mut self, direction: Direction, neighbour: u64)
        ensures
            final(self).neighbours.spec_in_direction(direction) == Some(neighbour),
            forall|d: Direction| d != direction ==>
                final(self).neighbours.spec_in_direction(d)
                    == old(self).neighbours.spec_in_direction(d),
            final(self).planet_id == old(self).planet_id,
            final(self).movement_difficulty == old(self).movement_difficulty,
            final(self).resources == old(self).resources,
    {
        match direction {
            Direction::NORTH => self.neighbours.north = Some(neighbour),
            Direction::EAST => self.neighbours.east = Some(neighbour),
            Direction::SOUTH => self.neighbours.south = Some(neighbour),
            Direction::WEST => self.neighbours.west = Some(neighbour),
        }
    }
}

} // verus!
