use vstd::prelude::*;

verus! {

/// The glyphs the playfield is drawn with.
#[derive(Clone, Copy, PartialEq, Eq, Structural, Debug)]
pub enum Characters {
    SnakeHead,
    SnakeBody,
    SnakeBodySuper,
    SnakeBodySlow,
    Obstacle,
    Grass,
    Apple,
    SupersnakePwrup,
    SlowdownPwrup,
}

impl Characters {
    pub open spec fn glyph(self) -> char {
        match self {
            Characters::SnakeHead => '\u{1F440}',
            Characters::SnakeBody => '\u{1F7E9}',
            Characters::SnakeBodySuper => '\u{1F7E6}',
            Characters::SnakeBodySlow => '\u{1F7E8}',
            Characters::Obstacle => '\u{1F7E5}',
            Characters::Grass => '\u{2795}',
            Characters::Apple => '\u{1F34F}',
            Characters::SupersnakePwrup => '\u{1F40D}',
            Characters::SlowdownPwrup => '\u{1F40C}',
        }
    }

    /// The glyph that draws this character on the grid.
    pub fn value(&self) -> (r: char)
        ensures
            r == self.glyph(),
    {
        match self {
            Characters::SnakeHead => '\u{1F440}',
            Characters::SnakeBody => '\u{1F7E9}',
            Characters::SnakeBodySuper => '\u{1F7E6}',
            Characters::SnakeBodySlow => '\u{1F7E8}',
            Characters::Obstacle => '\u{1F7E5}',
            Characters::Grass => '\u{2795}',
            Characters::Apple => '\u{1F34F}',
            Characters::SupersnakePwrup => '\u{1F40D}',
            Characters::SlowdownPwrup => '\u{1F40C}',
        }
    }
}

} // verus!
