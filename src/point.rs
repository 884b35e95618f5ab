use vstd::prelude::*;

verus! {

/// Number of cells in a row of the board.
pub const BOARD_WIDTH: i8 = 15;

/// Number of cells in a column of the board.
pub const BOARD_HEIGHT: i8 = 15;

/// A cell of the board, or a step between two cells.
#[derive(Clone, Copy, PartialEq, Eq, Structural, Debug)]
pub struct Point {
    pub x: i8,
    pub y: i8,
}

/// The cell lies on the board.
pub open spec fn in_board(p: Point) -> bool {
    0 <= p.x < BOARD_WIDTH && 0 <= p.y < BOARD_HEIGHT
}

/// A step of at most one cell along each axis.
pub open spec fn is_step(d: Point) -> bool {
    -1 <= d.x <= 1 && -1 <= d.y <= 1
}

/// A coordinate that left `[0, dim)` by one cell re-enters at the other edge.
pub open spec fn wrap_coord(c: int, dim: int) -> int {
    if c >= dim {
        0
    } else if c < 0 {
        dim - 1
    } else {
        c
    }
}

impl Point {
    /// The cell reached from `self` by the step `d`, the board's edges joined.
    pub open spec fn offset_spec(self, d: Point) -> Point {
        Point {
            x: wrap_coord(self.x + d.x, BOARD_WIDTH as int) as i8,
            y: wrap_coord(self.y + d.y, BOARD_HEIGHT as int) as i8,
        }
    }

    /// Moves by the step `d`; leaving the board on one side enters it on the other.
    pub fn offset_wrapped(self, d: Point) -> (r: Point)
        requires
            in_board(self),
            is_step(d),
        ensures
            r == self.offset_spec(d),
            in_board(r),
    {
        let mut x: i8 = self.x + d.x;
        let mut y: i8 = self.y + d.y;
        if x >= BOARD_WIDTH {
            x = 0;
        } else if x < 0 {
            x = BOARD_WIDTH - 1;
        }
        if y >= BOARD_HEIGHT {
            y = 0;
        } else if y < 0 {
            y = BOARD_HEIGHT - 1;
        }
        Point { x, y }
    }
}

/// Stepping past the last column or row lands on the first, and stepping
/// before the first lands on the last; every step stays on the board.
pub proof fn lemma_wrap_edges(p: Point, d: Point)
    requires
        in_board(p),
        is_step(d),
    ensures
        p.x == BOARD_WIDTH - 1 && d.x == 1 ==> p.offset_spec(d).x == 0,
        p.x == 0 && d.x == -1 ==> p.offset_spec(d).x == BOARD_WIDTH - 1,
        p.y == BOARD_HEIGHT - 1 && d.y == 1 ==> p.offset_spec(d).y == 0,
        p.y == 0 && d.y == -1 ==> p.offset_spec(d).y == BOARD_HEIGHT - 1,
        0 <= p.x + d.x < BOARD_WIDTH ==> p.offset_spec(d).x == p.x + d.x,
        0 <= p.y + d.y < BOARD_HEIGHT ==> p.offset_spec(d).y == p.y + d.y,
        in_board(p.offset_spec(d)),
{
}


/// Whether `p` is one of the cells in `v`.
pub fn contains_point(v: &Vec<Point>, p: Point) -> (r: bool)
    ensures
        r == v@.contains(p),
{
    let mut i: usize = 0;
    while i < v.len()
        invariant
            i <= v@.len(),
            forall|j: int| 0 <= j < i ==> v@[j] != p,
        decreases v@.len() - i,
    {
        if v[i] == p {
            assert(v@[i as int] == p);
            return true;
        }
        i += 1;
    }
    false
}

} // verus!
