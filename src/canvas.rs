use crate::coordinate::Coordinate;
use vstd::prelude::*;
use vstd::string::StrSliceExecFns;

verus! {

/// The text a grid of rows reads as: each row followed by a line break.
pub open spec fn text_of(rows: Seq<Seq<char>>) -> Seq<char>
    decreases rows.len(),
{
    if rows.len() == 0 {
        Seq::empty()
    } else {
        text_of(rows.drop_last()) + rows.last() + seq!['\n']
    }
}

/// Relies on `String::push`, which appends one character to the string.
#[verifier::external_body]
pub(crate) fn push_char(s: &mut String, c: char)
    ensures
        final(s)@ == old(s)@.push(c),
{
    s.push(c);
}

/// Writes `rows` out as text, a line break after each row.
pub(crate) fn rows_to_text(rows: &Vec<Vec<char>>) -> (r: String)
    ensures
        r@ == text_of(rows@.map_values(|row: Vec<char>| row@)),
{
    let ghost all = rows@.map_values(|row: Vec<char>| row@);
    let mut buf = String::new();
    let mut i: usize = 0;
    while i < rows.len()
        invariant
            0 <= i <= rows@.len(),
            all == rows@.map_values(|row: Vec<char>| row@),
            buf@ == text_of(all.take(i as int)),
        decreases rows@.len() - i,
    {
        let row = &rows[i];
        let ghost before = buf@;
        let mut j: usize = 0;
        while j < row.len()
            invariant
                0 <= j <= row@.len(),
                buf@ == before + row@.take(j as int),
            decreases row@.len() - j,
        {
            push_char(&mut buf, row[j]);
            j += 1;
            assert(buf@ =~= before + row@.take(j as int));
        }
        push_char(&mut buf, '\n');
        assert(all.take(i + 1).drop_last() =~= all.take(i as int));
        assert(row@.take(j as int) =~= row@);
        i += 1;
    }
    assert(all.take(i as int) =~= all);
    buf
}

/// A grid of characters to be shown on a terminal, with text rows below it.
pub struct Canvas {
    matrix: Vec<Vec<char>>,
    x_res: usize,
    y_res: usize,
}

impl Canvas {
    /// The rows, top first.
    pub closed spec fn rows(&self) -> Seq<Seq<char>> {
        self.matrix@.map_values(|row: Vec<char>| row@)
    }

    pub closed spec fn x_res(&self) -> usize {
        self.x_res
    }

    pub closed spec fn y_res(&self) -> usize {
        self.y_res
    }

    pub fn new() -> (r: Self)
        ensures
            r.rows() == Seq::<Seq<char>>::empty(),
            r.x_res() == 0,
            r.y_res() == 0,
    {
        let r = Self { matrix: Vec::new(), x_res: 0, y_res: 0 };
        assert(r.rows() =~= Seq::<Seq<char>>::empty());
        r
    }

    /// Replaces the grid with `x_res` rows of `y_res` copies of `char`.
    pub fn fill(&mut self, char: char, x_res: usize, y_res: usize)
        ensures
            final(self).rows() == Seq::new(x_res as nat, |i: int| Seq::new(y_res as nat, |j: int| char)),
            final(self).x_res() == x_res,
            final(self).y_res() == y_res,
    {
        let ghost row_spec = Seq::new(y_res as nat, |j: int| char);
        let mut row: Vec<char> = Vec::new();
        let mut j: usize = 0;
        while j < y_res
            invariant
                0 <= j <= y_res,
                row@ == Seq::new(j as nat, |k: int| char),
            decreases y_res - j,
        {
            row.push(char);
            j += 1;
            assert(row@ =~= Seq::new(j as nat, |k: int| char));
        }
        let mut matrix: Vec<Vec<char>> = Vec::new();
        let mut i: usize = 0;
        while i < x_res
            invariant
                0 <= i <= x_res,
                row@ == row_spec,
                matrix@.len() == i,
                forall|k: int| 0 <= k < i ==> (#[trigger] matrix@[k])@ == row_spec,
            decreases x_res - i,
        {
            let copy = row.clone();
            assert(copy@ =~= row@);
            matrix.push(copy);
            i += 1;
        }
        assert(matrix@.map_values(|r: Vec<char>| r@) =~= Seq::new(x_res as nat, |k: int| row_spec));
        self.matrix = matrix;
        self.x_res = x_res;
        self.y_res = y_res;
        assert(self.rows() =~= Seq::new(x_res as nat, |i: int| Seq::new(y_res as nat, |j: int| char)));
    }

    /// The grid as text, a line break after each row.
    pub fn to_buffer(&self) -> (r: String)
        ensures
            r@ == text_of(self.rows()),
    {
        rows_to_text(&self.matrix)
    }

    /// Writes `new_char` on the cell, which lies in row `y` at column `x`;
    /// returns false, changing nothing, when there is no such cell.
    pub fn set_coord(&mut self, coordinate: &Coordinate, new_char: char) -> (r: bool)
        ensures
            r == (coordinate.y < old(self).rows().len() && coordinate.x < old(self).rows()[coordinate.y as int].len()),
            final(self).rows() == if r {
                old(self).rows().update(
                    coordinate.y as int,
                    old(self).rows()[coordinate.y as int].update(coordinate.x as int, new_char),
                )
            } else {
                old(self).rows()
            },
            final(self).x_res() == old(self).x_res(),
            final(self).y_res() == old(self).y_res(),
    {
        let (x, y) = coordinate.as_tuple();
        if y >= self.matrix.len() || x >= self.matrix[y].len() {
            return false;
        }
        let mut row: Vec<char> = Vec::new();
        self.matrix.set_and_swap(y, &mut row);
        row.set(x, new_char);
        self.matrix.set(y, row);
        assert(self.rows() =~= old(self).rows().update(
            y as int,
            old(self).rows()[y as int].update(x as int, new_char),
        ));
        true
    }

    /// Appends a text row made of the characters of `row`.
    pub fn add_row_string(&mut self, row: &str)
        requires
            old(self).y_res() < usize::MAX,
        ensures
            final(self).rows() == old(self).rows().push(row@),
            final(self).x_res() == old(self).x_res(),
            final(self).y_res() == old(self).y_res() + 1,
    {
        let n = row.unicode_len();
        let mut chars: Vec<char> = Vec::new();
        let mut i: usize = 0;
        while i < n
            invariant
                n == row@.len(),
                0 <= i <= n,
                chars@ == row@.take(i as int),
            decreases n - i,
        {
            chars.push(row.get_char(i));
            i += 1;
            assert(chars@ =~= row@.take(i as int));
        }
        assert(chars@ =~= row@);
        self.add_row(chars);
    }

    /// Appends a text row.
    pub fn add_row(&mut self, row: Vec<char>)
        requires
            old(self).y_res() < usize::MAX,
        ensures
            final(self).rows() == old(self).rows().push(row@),
            final(self).x_res() == old(self).x_res(),
            final(self).y_res() == old(self).y_res() + 1,
    {
        self.matrix.push(row);
        self.y_res += 1;
        assert(self.rows() =~= old(self).rows().push(row@));
    }
}

} // verus!
