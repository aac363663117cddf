use crate::canvas::{text_of, Canvas};
use vstd::prelude::*;

verus! {

/// A blank frame of `x_res` rows of `y_res` NUL characters.
pub struct Renderer {
    frame: Canvas,
}

impl Renderer {
    pub closed spec fn rows(&self) -> Seq<Seq<char>> {
        self.frame.rows()
    }

    pub fn new(x_res: usize, y_res: usize) -> (r: Self)
        ensures
            r.rows() == Seq::new(x_res as nat, |i: int| Seq::new(y_res as nat, |j: int| '\0')),
    {
        let mut frame = Canvas::new();
        frame.fill('\0', x_res, y_res);
        Self { frame }
    }

    /// The frame as text, a line break after each row.
    pub fn buffer(&self) -> (r: String)
        ensures
            r@ == text_of(self.rows()),
    {
        self.frame.to_buffer()
    }
}

} // verus!
