use crate::coordinate::Coordinate;
use vstd::prelude::*;

verus! {

/// The way the snake's head moves on each tick.
#[derive(Clone, Copy, PartialEq, Eq, Structural, Debug)]
pub enum SnakeDirection {
    Up,
    Down,
    Left,
    Right,
}

/// Why the snake could not move.
#[derive(Clone, Copy, PartialEq, Eq, Structural, Debug)]
pub enum SnakeError {
    HitWall,
    NoHead,
}

impl SnakeDirection {
    pub open spec fn reverse(self) -> SnakeDirection {
        match self {
            SnakeDirection::Up => SnakeDirection::Down,
            SnakeDirection::Down => SnakeDirection::Up,
            SnakeDirection::Left => SnakeDirection::Right,
            SnakeDirection::Right => SnakeDirection::Left,
        }
    }

    /// The direction that turns the snake back onto its own neck.
    pub fn opposite(&self) -> (r: SnakeDirection)
        ensures
            r == self.reverse(),
    {
        match self {
            SnakeDirection::Up => SnakeDirection::Down,
            SnakeDirection::Down => SnakeDirection::Up,
            SnakeDirection::Left => SnakeDirection::Right,
            SnakeDirection::Right => SnakeDirection::Left,
        }
    }
}

impl SnakeError {
    /// A sentence that tells the player what went wrong.
    pub fn message(&self) -> (r: String)
        ensures
            r@ == match *self {
                SnakeError::HitWall => "Snake hit a wall!"@,
                SnakeError::NoHead => "No head found for the snake."@,
            },
    {
        match self {
            SnakeError::HitWall => "Snake hit a wall!".to_owned(),
            SnakeError::NoHead => "No head found for the snake.".to_owned(),
        }
    }
}

/// The cell one step from `c` in direction `d`, as integers: it may lie
/// off the playfield.
pub open spec fn step_target(c: Coordinate, d: SnakeDirection) -> (int, int) {
    match d {
        SnakeDirection::Up => (c.x as int, c.y - 1),
        SnakeDirection::Down => (c.x as int, c.y + 1),
        SnakeDirection::Left => (c.x - 1, c.y as int),
        SnakeDirection::Right => (c.x + 1, c.y as int),
    }
}

/// The step from `c` in direction `d` stays inside `[0, max_x) x [0, max_y)`.
pub open spec fn can_step(c: Coordinate, d: SnakeDirection, max_x: int, max_y: int) -> bool {
    let t = step_target(c, d);
    0 <= t.0 < max_x && 0 <= t.1 < max_y
}

/// The cell one step from `c` in direction `d`.
pub open spec fn stepped(c: Coordinate, d: SnakeDirection) -> Coordinate {
    Coordinate { x: step_target(c, d).0 as usize, y: step_target(c, d).1 as usize }
}

/// The cell the head moves to from `head` in `direction`, or `HitWall` when
/// that cell lies outside `[0, max_x) x [0, max_y)`.
pub fn advance(head: &Coordinate, direction: SnakeDirection, max_x: usize, max_y: usize) -> (r:
    Result<Coordinate, SnakeError>)
    ensures
        match r {
            Ok(c) => can_step(*head, direction, max_x as int, max_y as int) && c == stepped(
                *head,
                direction,
            ),
            Err(e) => !can_step(*head, direction, max_x as int, max_y as int) && e
                == SnakeError::HitWall,
        },
{
    let (x, y) = head.as_tuple();
    match direction {
        SnakeDirection::Right if x < max_x && x + 1 < max_x && y < max_y => Ok(
            Coordinate::new(x + 1, y),
        ),
        SnakeDirection::Left if x > 0 && x - 1 < max_x && y < max_y => Ok(
            Coordinate::new(x - 1, y),
        ),
        SnakeDirection::Up if y > 0 && x < max_x && y - 1 < max_y => Ok(
            Coordinate::new(x, y - 1),
        ),
        SnakeDirection::Down if y < max_y && y + 1 < max_y && x < max_x => Ok(
            Coordinate::new(x, y + 1),
        ),
        _ => Err(SnakeError::HitWall),
    }
}

/// A head that touches no wall can move in every direction.
pub proof fn lemma_interior_head_advances(
    head: Coordinate,
    direction: SnakeDirection,
    max_x: int,
    max_y: int,
)
    requires
        0 < head.x,
        head.x + 1 < max_x,
        0 < head.y,
        head.y + 1 < max_y,
    ensures
        can_step(head, direction, max_x, max_y),
{
}

} // verus!
