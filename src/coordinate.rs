use rand::Rng;
use vstd::prelude::*;

verus! {

/// A cell of the playfield: `x` grows to the right, `y` grows downwards.
#[derive(Clone, Copy, PartialEq, Eq, Structural, Hash, Debug)]
pub struct Coordinate {
    pub x: usize,
    pub y: usize,
}

/// The cell lies inside the field `[0, max_x) x [0, max_y)`.
pub open spec fn in_field(c: Coordinate, max_x: int, max_y: int) -> bool {
    c.x < max_x && c.y < max_y
}

/// Relies on `rand::Rng::gen_range` on the thread-local generator: a value
/// drawn from `[0, bound)`; the range must not be empty, else it panics.
#[verifier::external_body]
pub(crate) fn random_below(bound: usize) -> (r: usize)
    requires
        bound > 0,
    ensures
        r < bound,
{
    rand::thread_rng().gen_range(0..bound)
}

impl Coordinate {
    pub fn new(x: usize, y: usize) -> (r: Self)
        ensures
            r == (Coordinate { x, y }),
    {
        Self { x, y }
    }

    /// A cell drawn at random from the field `[0, max_x) x [0, max_y)`.
    pub fn new_random(max_x: usize, max_y: usize) -> (r: Self)
        requires
            max_x > 0,
            max_y > 0,
        ensures
            in_field(r, max_x as int, max_y as int),
    {
        let x = random_below(max_x);
        let y = random_below(max_y);
        Self { x, y }
    }

    pub fn as_tuple(&self) -> (r: (usize, usize))
        ensures
            r == (self.x, self.y),
    {
        (self.x, self.y)
    }

    /// Returns true if the coordinate intersects with the other coordinate.
    pub fn intersects(&self, other: &Coordinate) -> (r: bool)
        ensures
            r == (*self == *other),
    {
        self.x == other.x && self.y == other.y
    }

    /// Returns true if the coordinate intersects with any of the given coordinates.
    pub fn intersects_multiple(&self, others: &[Coordinate]) -> (r: bool)
        ensures
            r == others@.contains(*self),
    {
        let mut i: usize = 0;
        while i < others.len()
            invariant
                0 <= i <= others@.len(),
                forall|j: int| 0 <= j < i ==> others@[j] != *self,
            decreases others@.len() - i,
        {
            if self.intersects(&others[i]) {
                assert(others@[i as int] == *self);
                return true;
            }
            i += 1;
        }
        false
    }
}

} // verus!
