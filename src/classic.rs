//! The classic game: one apple at a time, no power-ups, no obstacles.
//! Cells are `(x, y)` pairs.

use crate::coordinate::random_below;
use vstd::prelude::*;

verus! {

/// The way the snake's head moves in the classic game.
#[derive(Clone, Copy, PartialEq, Eq, Structural, Debug)]
pub enum Direction {
    Up,
    Down,
    Left,
    Right,
}

/// The cell one step from `h` in direction `d`, if it lies inside
/// `[0, px) x [0, py)`.
pub open spec fn next_cell(h: (usize, usize), d: Direction, px: usize, py: usize) -> Option<
    (usize, usize),
> {
    match d {
        Direction::Right => if h.0 + 1 < px {
            Some(((h.0 + 1) as usize, h.1))
        } else {
            None
        },
        Direction::Left => if h.0 > 0 {
            Some(((h.0 - 1) as usize, h.1))
        } else {
            None
        },
        Direction::Up => if h.1 > 0 {
            Some((h.0, (h.1 - 1) as usize))
        } else {
            None
        },
        Direction::Down => if h.1 + 1 < py {
            Some((h.0, (h.1 + 1) as usize))
        } else {
            None
        },
    }
}

/// The abstract state of a classic game.
pub struct ClassicView {
    /// Tail first, head last.
    pub snake: Seq<(usize, usize)>,
    pub apple: Option<(usize, usize)>,
    pub score: usize,
    pub playfield_x: usize,
    pub playfield_y: usize,
    pub direction: Direction,
}

impl ClassicView {
    pub open spec fn wf(self) -> bool {
        &&& self.playfield_x > 0
        &&& self.playfield_y > 0
        &&& self.snake.len() >= 1
        &&& self.apple is Some ==> apple_in_field(self.apple, self.playfield_x, self.playfield_y)
    }

    pub open spec fn head(self) -> (usize, usize) {
        self.snake.last()
    }

    /// The next move stays on the field and off the snake.
    pub open spec fn can_advance(self) -> bool {
        match next_cell(self.head(), self.direction, self.playfield_x, self.playfield_y) {
            Some(c) => !self.snake.contains(c),
            None => false,
        }
    }
}

pub open spec fn apple_in_field(apple: Option<(usize, usize)>, px: usize, py: usize) -> bool {
    match apple {
        Some(a) => a.0 < px && a.1 < py,
        None => false,
    }
}

/// A classic game: the snake, the apple if there is one, and the score.
pub struct Game {
    snake: Vec<(usize, usize)>,
    apple: Option<(usize, usize)>,
    score: usize,
    playfield_x: usize,
    playfield_y: usize,
    direction: Direction,
}

impl View for Game {
    type V = ClassicView;

    closed spec fn view(&self) -> ClassicView {
        ClassicView {
            snake: self.snake@,
            apple: self.apple,
            score: self.score,
            playfield_x: self.playfield_x,
            playfield_y: self.playfield_y,
            direction: self.direction,
        }
    }
}

impl Game {
    /// A snake of one cell in the top left corner heading right, and an
    /// apple on a random cell.
    pub fn new(playfield_x: usize, playfield_y: usize) -> (r: Self)
        requires
            playfield_x > 0,
            playfield_y > 0,
        ensures
            r@.wf(),
            r@.snake == seq![(0usize, 0usize)],
            apple_in_field(r@.apple, playfield_x, playfield_y),
            r@.score == 0,
            r@.playfield_x == playfield_x,
            r@.playfield_y == playfield_y,
            r@.direction == Direction::Right,
    {
        let x = random_below(playfield_x);
        let y = random_below(playfield_y);
        let r = Self {
            snake: vec![(0, 0)],
            apple: Some((x, y)),
            playfield_x,
            playfield_y,
            direction: Direction::Right,
            score: 0,
        };
        assert(r.snake@ =~= seq![(0usize, 0usize)]);
        r
    }

    /// Moves the snake one cell. With an apple on the field the tail follows;
    /// without one the snake grows by a cell. Eating the apple scores a point
    /// and leaves the field without an apple until the next move puts one
    /// back at random.
    pub fn next(&mut self)
        requires
            old(self)@.wf(),
            old(self)@.can_advance(),
            old(self)@.score < usize::MAX,
        ensures
            final(self)@.wf(),
            ({
                let o = old(self)@;
                let c = next_cell(o.head(), o.direction, o.playfield_x, o.playfield_y)->0;
                let grown = o.snake.push(c);
                &&& final(self)@.snake == if o.apple is Some {
                    grown.drop_first()
                } else {
                    grown
                }
                &&& if o.apple == Some(c) {
                    final(self)@.apple is None && final(self)@.score == o.score + 1
                } else {
                    &&& final(self)@.score == o.score
                    &&& apple_in_field(final(self)@.apple, o.playfield_x, o.playfield_y)
                    &&& o.apple is Some ==> final(self)@.apple == o.apple
                }
                &&& final(self)@.direction == o.direction
                &&& final(self)@.playfield_x == o.playfield_x
                &&& final(self)@.playfield_y == o.playfield_y
            }),
    {
        self.add_snake_head();
        let ghost c = self@.head();
        if self.apple.is_some() {
            self.remove_snake_tail();
        }
        assert(self@.head() == c);
        if self.snake_eating_apple() {
            self.apple = None;
            self.score += 1;
        } else {
            self.add_apple();
        }
    }

    /// Puts an apple on a random cell when there is none.
    pub fn add_apple(&mut self)
        requires
            old(self)@.wf(),
        ensures
            final(self)@ == (ClassicView { apple: final(self)@.apple, ..old(self)@ }),
            old(self)@.apple is Some ==> final(self)@.apple == old(self)@.apple,
            old(self)@.apple is None ==> apple_in_field(
                final(self)@.apple,
                old(self)@.playfield_x,
                old(self)@.playfield_y,
            ),
    {
        if self.apple.is_none() {
            let x = random_below(self.playfield_x);
            let y = random_below(self.playfield_y);
            self.apple = Some((x, y));
        }
    }

    /// Takes the apple off the field.
    pub fn remove_apple(&mut self)
        ensures
            final(self)@ == (ClassicView { apple: None, ..old(self)@ }),
    {
        self.apple = None;
    }

    fn add_snake_head(&mut self)
        requires
            old(self)@.wf(),
            old(self)@.can_advance(),
        ensures
            final(self)@ == (ClassicView {
                snake: old(self)@.snake.push(
                    next_cell(
                        old(self)@.head(),
                        old(self)@.direction,
                        old(self)@.playfield_x,
                        old(self)@.playfield_y,
                    )->0,
                ),
                ..old(self)@
            }),
    {
        let (x, y) = self.snake[self.snake.len() - 1];
        let cell = match self.direction {
            Direction::Right => (x + 1, y),
            Direction::Left => (x - 1, y),
            Direction::Up => (x, y - 1),
            Direction::Down => (x, y + 1),
        };
        self.snake.push(cell);
    }

    fn remove_snake_tail(&mut self)
        requires
            old(self)@.snake.len() > 0,
        ensures
            final(self)@ == (ClassicView { snake: old(self)@.snake.drop_first(), ..old(self)@ }),
    {
        self.snake.remove(0);
        assert(self.snake@ =~= old(self).snake@.drop_first());
    }

    /// The head lies on another cell of the snake.
    pub fn snake_eating_itself(&self) -> (r: bool)
        requires
            self@.snake.len() > 0,
        ensures
            r == self@.snake.drop_last().contains(self@.head()),
    {
        let last = self.snake.len() - 1;
        let head = self.snake[last];
        let mut i: usize = 0;
        while i < last
            invariant
                last == self@.snake.len() - 1,
                head == self@.head(),
                0 <= i <= last,
                forall|j: int| 0 <= j < i ==> self@.snake[j] != head,
            decreases last - i,
        {
            if self.snake[i].0 == head.0 && self.snake[i].1 == head.1 {
                assert(self@.snake.drop_last()[i as int] == head);
                return true;
            }
            i += 1;
        }
        assert forall|j: int| 0 <= j < self@.snake.drop_last().len() implies self@.snake.drop_last()[j]
            != head by {
            assert(self@.snake.drop_last()[j] == self@.snake[j]);
        }
        false
    }

    /// The head lies on the apple.
    pub fn snake_eating_apple(&self) -> (r: bool)
        requires
            self@.snake.len() > 0,
        ensures
            r == (self@.apple == Some(self@.head())),
    {
        let head = self.snake[self.snake.len() - 1];
        match self.apple {
            Some(apple) => head.0 == apple.0 && head.1 == apple.1,
            None => false,
        }
    }

    pub fn get_snake(&self) -> (r: &Vec<(usize, usize)>)
        ensures
            r@ == self@.snake,
    {
        &self.snake
    }

    /// Replaces the snake's cells, tail first.
    pub fn set_snake(&mut self, snake: Vec<(usize, usize)>)
        requires
            snake@.len() > 0,
        ensures
            final(self)@ == (ClassicView { snake: snake@, ..old(self)@ }),
    {
        self.snake = snake;
    }

    pub fn get_apple(&self) -> (r: Option<(usize, usize)>)
        ensures
            r == self@.apple,
    {
        self.apple
    }

    pub fn get_score(&self) -> (r: usize)
        ensures
            r == self@.score,
    {
        self.score
    }

    pub fn get_direction(&self) -> (r: &Direction)
        ensures
            *r == self@.direction,
    {
        &self.direction
    }

    pub fn set_snake_direction(&mut self, direction: Direction)
        ensures
            final(self)@ == (ClassicView { direction, ..old(self)@ }),
    {
        self.direction = direction;
    }
}

} // verus!
