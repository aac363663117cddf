use crate::characters::Characters;
use crate::coordinate::Coordinate;
use vstd::prelude::*;

verus! {

/// Something that occupies one cell of the playfield, with the cell it
/// stands on and the glyph it is drawn with.
#[derive(Clone, Copy, PartialEq, Eq, Structural, Debug)]
pub enum EntityType {
    Apple { coordinates: Coordinate, emoji: char },
    SupersnakePwrup { coordinates: Coordinate, emoji: char },
    Obstacle { coordinates: Coordinate, emoji: char },
    SlowdownPwrup { coordinates: Coordinate, emoji: char },
}

pub open spec fn apple_at(c: Coordinate) -> EntityType {
    EntityType::Apple { coordinates: c, emoji: Characters::Apple.glyph() }
}

pub open spec fn supersnake_at(c: Coordinate) -> EntityType {
    EntityType::SupersnakePwrup { coordinates: c, emoji: Characters::SupersnakePwrup.glyph() }
}

pub open spec fn obstacle_at(c: Coordinate) -> EntityType {
    EntityType::Obstacle { coordinates: c, emoji: Characters::Obstacle.glyph() }
}

pub open spec fn slowdown_at(c: Coordinate) -> EntityType {
    EntityType::SlowdownPwrup { coordinates: c, emoji: Characters::SlowdownPwrup.glyph() }
}

impl EntityType {
    /// The cell the entity stands on.
    pub open spec fn cell(self) -> Coordinate {
        match self {
            EntityType::Apple { coordinates, .. } => coordinates,
            EntityType::SupersnakePwrup { coordinates, .. } => coordinates,
            EntityType::Obstacle { coordinates, .. } => coordinates,
            EntityType::SlowdownPwrup { coordinates, .. } => coordinates,
        }
    }

    pub fn new_apple(coordinates: Coordinate) -> (r: Self)
        ensures
            r == apple_at(coordinates),
    {
        Self::Apple { coordinates, emoji: Characters::Apple.value() }
    }

    pub fn new_supersnake(coordinates: Coordinate) -> (r: Self)
        ensures
            r == supersnake_at(coordinates),
    {
        Self::SupersnakePwrup { coordinates, emoji: Characters::SupersnakePwrup.value() }
    }

    pub fn new_obstacle(coordinates: Coordinate) -> (r: Self)
        ensures
            r == obstacle_at(coordinates),
    {
        Self::Obstacle { coordinates, emoji: Characters::Obstacle.value() }
    }

    pub fn new_slowdown(coordinates: Coordinate) -> (r: Self)
        ensures
            r == slowdown_at(coordinates),
    {
        Self::SlowdownPwrup { coordinates, emoji: Characters::SlowdownPwrup.value() }
    }

    pub fn get_coordinates(&self) -> (r: Coordinate)
        ensures
            r == self.cell(),
    {
        match self {
            Self::Apple { coordinates, .. } => *coordinates,
            Self::SupersnakePwrup { coordinates, .. } => *coordinates,
            Self::Obstacle { coordinates, .. } => *coordinates,
            Self::SlowdownPwrup { coordinates, .. } => *coordinates,
        }
    }
}

} // verus!
