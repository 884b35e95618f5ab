use std::collections::VecDeque;
use vstd::prelude::*;

use crate::point::Point;
use crate::random::random_below;
use crate::snake::{Direction, Snake};

verus! {

/// A board layout: the snake's start, the walls, and the invisible walls.
pub struct Level {
    pub snake: Snake,
    pub walls: Vec<Point>,
    pub invisible_walls: Vec<Point>,
}

/// The snake's body at the start of every level, head first.
pub open spec fn start_body() -> Seq<Point> {
    seq![Point { x: 2, y: 3 }, Point { x: 2, y: 2 }, Point { x: 2, y: 1 }]
}

/// The walls of the first layout: a ring round the board, open in the middle of each side, and one block in the centre.
pub open spec fn level1_walls() -> Seq<Point> {
    seq![
        Point { x: 1, y: 0 },
        Point { x: 2, y: 0 },
        Point { x: 3, y: 0 },
        Point { x: 4, y: 0 },
        Point { x: 5, y: 0 },
        Point { x: 6, y: 0 },
        Point { x: 8, y: 0 },
        Point { x: 9, y: 0 },
        Point { x: 10, y: 0 },
        Point { x: 11, y: 0 },
        Point { x: 12, y: 0 },
        Point { x: 13, y: 0 },
        Point { x: 14, y: 1 },
        Point { x: 14, y: 2 },
        Point { x: 14, y: 3 },
        Point { x: 14, y: 4 },
        Point { x: 14, y: 5 },
        Point { x: 14, y: 6 },
        Point { x: 14, y: 8 },
        Point { x: 14, y: 9 },
        Point { x: 14, y: 10 },
        Point { x: 14, y: 11 },
        Point { x: 14, y: 12 },
        Point { x: 14, y: 13 },
        Point { x: 1, y: 14 },
        Point { x: 2, y: 14 },
        Point { x: 3, y: 14 },
        Point { x: 4, y: 14 },
        Point { x: 5, y: 14 },
        Point { x: 6, y: 14 },
        Point { x: 8, y: 14 },
        Point { x: 9, y: 14 },
        Point { x: 10, y: 14 },
        Point { x: 11, y: 14 },
        Point { x: 12, y: 14 },
        Point { x: 13, y: 14 },
        Point { x: 0, y: 1 },
        Point { x: 0, y: 2 },
        Point { x: 0, y: 3 },
        Point { x: 0, y: 4 },
        Point { x: 0, y: 5 },
        Point { x: 0, y: 6 },
        Point { x: 0, y: 8 },
        Point { x: 0, y: 9 },
        Point { x: 0, y: 10 },
        Point { x: 0, y: 11 },
        Point { x: 0, y: 12 },
        Point { x: 0, y: 13 },
        Point { x: 7, y: 7 },
    ]
}

/// The cells of the first layout that take no food: the ring's corners and openings.
pub open spec fn level1_invisible_walls() -> Seq<Point> {
    seq![
        Point { x: 0, y: 0 },
        Point { x: 7, y: 0 },
        Point { x: 14, y: 0 },
        Point { x: 14, y: 7 },
        Point { x: 14, y: 14 },
        Point { x: 7, y: 14 },
        Point { x: 0, y: 14 },
        Point { x: 0, y: 7 },
    ]
}

/// The walls of the second layout: two diagonals and a block in the middle of each edge.
pub open spec fn level2_walls() -> Seq<Point> {
    seq![
        Point { x: 2, y: 2 },
        Point { x: 3, y: 3 },
        Point { x: 4, y: 4 },
        Point { x: 5, y: 5 },
        Point { x: 7, y: 7 },
        Point { x: 9, y: 9 },
        Point { x: 10, y: 10 },
        Point { x: 11, y: 11 },
        Point { x: 12, y: 12 },
        Point { x: 12, y: 2 },
        Point { x: 11, y: 3 },
        Point { x: 10, y: 4 },
        Point { x: 9, y: 5 },
        Point { x: 7, y: 7 },
        Point { x: 5, y: 9 },
        Point { x: 4, y: 10 },
        Point { x: 3, y: 11 },
        Point { x: 2, y: 12 },
        Point { x: 0, y: 7 },
        Point { x: 7, y: 0 },
        Point { x: 14, y: 7 },
        Point { x: 7, y: 14 },
    ]
}

/// The level is one of the two layouts, with the snake at its start: three
/// segments heading down, nothing queued.
pub open spec fn is_start_level(l: &Level) -> bool {
    &&& l.snake.tail@ == start_body()
    &&& l.snake.keys@.len() == 0
    &&& l.snake.last_pressed == Direction::Down
    &&& is_layout(l, 0) || is_layout(l, 1)
}

/// The level's walls are those of layout `n`.
pub open spec fn is_layout(l: &Level, n: int) -> bool {
    if n == 0 {
        l.walls@ == level1_walls() && l.invisible_walls@ == level1_invisible_walls()
    } else {
        l.walls@ == level2_walls() && l.invisible_walls@.len() == 0
    }
}

/// The walls of the first layout.
fn level1_wall_cells() -> (r: Vec<Point>)
    ensures
        r@ == level1_walls(),
{
    let v = vec![
        Point { x: 1, y: 0 },
        Point { x: 2, y: 0 },
        Point { x: 3, y: 0 },
        Point { x: 4, y: 0 },
        Point { x: 5, y: 0 },
        Point { x: 6, y: 0 },
        Point { x: 8, y: 0 },
        Point { x: 9, y: 0 },
        Point { x: 10, y: 0 },
        Point { x: 11, y: 0 },
        Point { x: 12, y: 0 },
        Point { x: 13, y: 0 },
        Point { x: 14, y: 1 },
        Point { x: 14, y: 2 },
        Point { x: 14, y: 3 },
        Point { x: 14, y: 4 },
        Point { x: 14, y: 5 },
        Point { x: 14, y: 6 },
        Point { x: 14, y: 8 },
        Point { x: 14, y: 9 },
        Point { x: 14, y: 10 },
        Point { x: 14, y: 11 },
        Point { x: 14, y: 12 },
        Point { x: 14, y: 13 },
        Point { x: 1, y: 14 },
        Point { x: 2, y: 14 },
        Point { x: 3, y: 14 },
        Point { x: 4, y: 14 },
        Point { x: 5, y: 14 },
        Point { x: 6, y: 14 },
        Point { x: 8, y: 14 },
        Point { x: 9, y: 14 },
        Point { x: 10, y: 14 },
        Point { x: 11, y: 14 },
        Point { x: 12, y: 14 },
        Point { x: 13, y: 14 },
        Point { x: 0, y: 1 },
        Point { x: 0, y: 2 },
        Point { x: 0, y: 3 },
        Point { x: 0, y: 4 },
        Point { x: 0, y: 5 },
        Point { x: 0, y: 6 },
        Point { x: 0, y: 8 },
        Point { x: 0, y: 9 },
        Point { x: 0, y: 10 },
        Point { x: 0, y: 11 },
        Point { x: 0, y: 12 },
        Point { x: 0, y: 13 },
        Point { x: 7, y: 7 },
    ];
    assert(v@ =~= level1_walls());
    v
}

/// The invisible walls of the first layout.
fn level1_invisible_cells() -> (r: Vec<Point>)
    ensures
        r@ == level1_invisible_walls(),
{
    let v = vec![
        Point { x: 0, y: 0 },
        Point { x: 7, y: 0 },
        Point { x: 14, y: 0 },
        Point { x: 14, y: 7 },
        Point { x: 14, y: 14 },
        Point { x: 7, y: 14 },
        Point { x: 0, y: 14 },
        Point { x: 0, y: 7 },
    ];
    assert(v@ =~= level1_invisible_walls());
    v
}

/// The walls of the second layout.
fn level2_wall_cells() -> (r: Vec<Point>)
    ensures
        r@ == level2_walls(),
{
    let v = vec![
        Point { x: 2, y: 2 },
        Point { x: 3, y: 3 },
        Point { x: 4, y: 4 },
        Point { x: 5, y: 5 },
        Point { x: 7, y: 7 },
        Point { x: 9, y: 9 },
        Point { x: 10, y: 10 },
        Point { x: 11, y: 11 },
        Point { x: 12, y: 12 },
        Point { x: 12, y: 2 },
        Point { x: 11, y: 3 },
        Point { x: 10, y: 4 },
        Point { x: 9, y: 5 },
        Point { x: 7, y: 7 },
        Point { x: 5, y: 9 },
        Point { x: 4, y: 10 },
        Point { x: 3, y: 11 },
        Point { x: 2, y: 12 },
        Point { x: 0, y: 7 },
        Point { x: 7, y: 0 },
        Point { x: 14, y: 7 },
        Point { x: 7, y: 14 },
    ];
    assert(v@ =~= level2_walls());
    v
}

/// The snake at its start: head on (2, 3), tail on (2, 1), heading down.
fn start_snake() -> (r: Snake)
    ensures
        r.tail@ == start_body(),
        r.keys@.len() == 0,
        r.last_pressed == Direction::Down,
        r.wf(),
{
    let mut s: VecDeque<Point> = VecDeque::new();
    s.push_back(Point { x: 2, y: 3 });
    s.push_back(Point { x: 2, y: 2 });
    s.push_back(Point { x: 2, y: 1 });
    assert(s@ =~= start_body());
    Snake::new(s, Direction::Down)
}

/// The first layout.
pub fn level1() -> (r: Level)
    ensures
        is_start_level(&r),
        is_layout(&r, 0),
        r.snake.wf(),
{
    Level { snake: start_snake(), walls: level1_wall_cells(), invisible_walls: level1_invisible_cells() }
}

/// The second layout.
pub fn level2() -> (r: Level)
    ensures
        is_start_level(&r),
        is_layout(&r, 1),
        r.snake.wf(),
{
    Level { snake: start_snake(), walls: level2_wall_cells(), invisible_walls: Vec::new() }
}

/// The layout numbered `n`: 0 is the first, 1 the second.
pub fn level_numbered(n: u32) -> (r: Level)
    requires
        n < 2,
    ensures
        is_start_level(&r),
        is_layout(&r, n as int),
        r.snake.wf(),
{
    if n == 0 {
        level1()
    } else {
        level2()
    }
}

/// One of the two layouts, drawn at random, each alike.
pub fn rand_level() -> (r: Level)
    ensures
        is_start_level(&r),
        r.snake.wf(),
{
    level_numbered(random_below(2))
}

} // verus!
