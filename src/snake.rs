use std::collections::VecDeque;
use vstd::prelude::*;

use crate::food::{food_at, MAX_FOOD_SCORE};
use crate::game::{sped_up, Game, SPEED_UP};
use crate::point::{contains_point, in_board, is_step, Point};
use crate::state::State;

verus! {

/// A direction the snake can head in.
#[derive(Clone, Copy, PartialEq, Eq, Structural, Debug)]
pub enum Direction {
    Up,
    Down,
    Left,
    Right,
}

/// A key pressed by the player: the four arrows, pause, restart, or any other.
#[derive(Clone, Copy, PartialEq, Eq, Structural, Debug)]
pub enum Key {
    Up,
    Down,
    Left,
    Right,
    P,
    R,
    Other,
}

pub open spec fn reverse_spec(d: Direction) -> Direction {
    match d {
        Direction::Down => Direction::Up,
        Direction::Up => Direction::Down,
        Direction::Left => Direction::Right,
        Direction::Right => Direction::Left,
    }
}

/// The opposite direction.
pub fn reverse_direction(d: Direction) -> (r: Direction)
    ensures
        r == reverse_spec(d),
{
    match d {
        Direction::Down => Direction::Up,
        Direction::Up => Direction::Down,
        Direction::Left => Direction::Right,
        Direction::Right => Direction::Left,
    }
}

impl Direction {
    /// The step of one cell in this direction; `y` grows downwards.
    pub open spec fn delta_spec(self) -> Point {
        match self {
            Direction::Right => Point { x: 1, y: 0 },
            Direction::Down => Point { x: 0, y: 1 },
            Direction::Left => Point { x: -1i8, y: 0 },
            Direction::Up => Point { x: 0, y: -1i8 },
        }
    }

    pub fn delta(self) -> (r: Point)
        ensures
            r == self.delta_spec(),
            is_step(r),
    {
        match self {
            Direction::Right => Point { x: 1, y: 0 },
            Direction::Down => Point { x: 0, y: 1 },
            Direction::Left => Point { x: -1, y: 0 },
            Direction::Up => Point { x: 0, y: -1 },
        }
    }
}

impl Key {
    /// The direction an arrow key stands for.
    pub open spec fn direction_spec(self) -> Option<Direction> {
        match self {
            Key::Up => Some(Direction::Up),
            Key::Down => Some(Direction::Down),
            Key::Left => Some(Direction::Left),
            Key::Right => Some(Direction::Right),
            _ => None,
        }
    }

    pub fn direction(self) -> (r: Option<Direction>)
        ensures
            r == self.direction_spec(),
    {
        match self {
            Key::Up => Some(Direction::Up),
            Key::Down => Some(Direction::Down),
            Key::Left => Some(Direction::Left),
            Key::Right => Some(Direction::Right),
            _ => None,
        }
    }
}

/// No cell occurs twice.
pub open spec fn all_distinct(s: Seq<Point>) -> bool {
    forall|i: int, j: int| 0 <= i < s.len() && 0 <= j < s.len() && i != j ==> s[i] != s[j]
}

/// Every cell lies on the board.
pub open spec fn all_in_board(s: Seq<Point>) -> bool {
    forall|i: int| 0 <= i < s.len() ==> in_board(#[trigger] s[i])
}

/// The snake: its body from head to tail, the directions queued by the
/// player, and the direction last accepted.
pub struct Snake {
    pub tail: VecDeque<Point>,
    pub keys: VecDeque<Direction>,
    pub last_pressed: Direction,
}

/// The head moving onto `p` ends the game: a wall, an invisible wall, or the body.
pub open spec fn blocked(g: &Game, p: Point) -> bool {
    g.walls@.contains(p) || g.invisible_walls@.contains(p) || g.snake.tail@.contains(p)
}

/// The head reached `xy` and ate the item at index `i`: the body grows by
/// one, the item goes, its score is added and the steps come faster.
pub open spec fn ate(pre: &Game, post: &Game, xy: Point, i: int) -> bool {
    &&& post.snake.tail@ == seq![xy] + pre.snake.tail@
    &&& post.food@ == pre.food@.remove(i)
    &&& post.score == pre.score + pre.food@[i].score
    &&& post.update_time == sped_up(pre.update_time)
}

/// `post` is `pre` after the head tried to move by the step `d`: into an
/// obstacle the game ends and nothing else changes; onto food the snake eats
/// it; elsewhere the whole body follows the head.
pub open spec fn moved(pre: &Game, post: &Game, d: Point) -> bool {
    let xy = pre.snake.tail@[0].offset_spec(d);
    &&& post.walls == pre.walls
    &&& post.invisible_walls == pre.invisible_walls
    &&& if blocked(pre, xy) {
        &&& post.state == State::GameOver
        &&& post.snake.tail@ == pre.snake.tail@
        &&& post.food@ == pre.food@
        &&& post.score == pre.score
        &&& post.update_time == pre.update_time
    } else {
        &&& post.state == pre.state
        &&& forall|i: int|
            0 <= i < pre.food@.len() && (#[trigger] pre.food@[i]).xy == xy ==> ate(pre, post, xy, i)
        &&& (forall|i: int| 0 <= i < pre.food@.len() ==> (#[trigger] pre.food@[i]).xy != xy) ==> {
            &&& post.snake.tail@ == seq![xy] + pre.snake.tail@.drop_last()
            &&& post.food@ == pre.food@
            &&& post.score == pre.score
            &&& post.update_time == pre.update_time
        }
    }
}

/// `post` is `pre` after the player pressed `key`: the direction of an
/// arrow key is queued and becomes the last accepted one, unless it reverses
/// the last accepted one; other keys and reversals change nothing. The body
/// stays as it is.
pub open spec fn pressed(pre: &Snake, post: &Snake, key: Key) -> bool {
    &&& post.tail == pre.tail
    &&& match key.direction_spec() {
        Some(d) => if d != reverse_spec(pre.last_pressed) {
            &&& post.keys@ == pre.keys@.push(d)
            &&& post.last_pressed == d
        } else {
            &&& post.keys@ == pre.keys@
            &&& post.last_pressed == pre.last_pressed
        },
        None => {
            &&& post.keys@ == pre.keys@
            &&& post.last_pressed == pre.last_pressed
        },
    }
}

/// `post` is `pre` after one step of the snake: the next direction is
/// taken from the queue and the head moves that way.
pub open spec fn snake_stepped(pre: &Game, post: &Game) -> bool {
    &&& moved(pre, post, pre.snake.next_direction().delta_spec())
    &&& post.snake.keys@ == pre.snake.remaining_keys()
    &&& post.snake.last_pressed == pre.snake.last_pressed
}

impl Snake {
    /// At least one segment, no two on one cell, all on the board.
    pub open spec fn wf(&self) -> bool {
        &&& self.tail@.len() >= 1
        &&& all_distinct(self.tail@)
        &&& all_in_board(self.tail@)
    }

    /// The direction of the next step: the first queued, else the last accepted.
    pub open spec fn next_direction(&self) -> Direction {
        if self.keys@.len() == 0 {
            self.last_pressed
        } else {
            self.keys@[0]
        }
    }

    /// The queue once the next step has taken its direction.
    pub open spec fn remaining_keys(&self) -> Seq<Direction> {
        if self.keys@.len() == 0 {
            Seq::empty()
        } else {
            self.keys@.drop_first()
        }
    }

    /// A snake with the given body, heading in `key`, with nothing queued.
    pub fn new(tail: VecDeque<Point>, key: Direction) -> (r: Snake)
        ensures
            r.tail@ == tail@,
            r.keys@.len() == 0,
            r.last_pressed == key,
    {
        Snake { tail, keys: VecDeque::new(), last_pressed: key }
    }

    /// Queues the direction of an arrow key unless it reverses the direction
    /// last accepted; other keys and reversals change nothing.
    pub fn key_press(&mut self, key: Key)
        ensures
            pressed(old(self), final(self), key),
    {
        match key.direction() {
            Some(d) => {
                if reverse_direction(d) != self.last_pressed {
                    self.keys.push_back(d);
                    self.last_pressed = d;
                }
            },
            None => {},
        }
    }

    /// Whether a segment of the body lies on `xy`.
    pub fn collides(&self, xy: Point) -> (r: bool)
        ensures
            r == self.tail@.contains(xy),
    {
        let mut i: usize = 0;
        while i < self.tail.len()
            invariant
                i <= self.tail@.len(),
                forall|j: int| 0 <= j < i ==> self.tail@[j] != xy,
            decreases self.tail@.len() - i,
        {
            if self.tail[i] == xy {
                assert(self.tail@[i as int] == xy);
                return true;
            }
            i += 1;
        }
        false
    }

    /// Moves the head by the step `dtxy`, across the board's edges: into a
    /// wall or the body the game ends; onto food the snake eats it and grows.
    pub fn mv(g: &mut Game, dtxy: Point)
        requires
            old(g).wf(),
            is_step(dtxy),
            old(g).score <= u32::MAX - MAX_FOOD_SCORE,
        ensures
            moved(old(g), final(g), dtxy),
            final(g).snake.tail@.len() >= old(g).snake.tail@.len(),
            final(g).snake.keys == old(g).snake.keys,
            final(g).snake.last_pressed == old(g).snake.last_pressed,
            final(g).time == old(g).time,
            final(g).wf(),
    {
        let head = g.snake.tail[0];
        let xy = head.offset_wrapped(dtxy);
        if contains_point(&g.walls, xy) || contains_point(&g.invisible_walls, xy)
            || g.snake.collides(xy) {
            g.state = State::GameOver;
            return ;
        }
        let ghost pre_food = g.food@;
        let ghost pre_tail = g.snake.tail@;
        match food_at(&g.food, xy) {
            Some(i) => {
                let f = g.food.remove(i);
                assert(f.wf());
                g.score = g.score + f.score;
                g.update_time = if g.update_time >= SPEED_UP {
                    g.update_time - SPEED_UP
                } else {
                    0
                };
                g.snake.tail.push_front(xy);
                proof {
                    assert forall|k: int|
                        0 <= k < pre_food.len() && (#[trigger] pre_food[k]).xy == xy implies k
                        == i by {
                        if k != i {
                            assert(pre_food[k].xy != pre_food[i as int].xy);
                        }
                    }
                    assert forall|a: int, b: int|
                        0 <= a < g.food@.len() && 0 <= b < g.food@.len() && a != b implies (
                        #[trigger] g.food@[a]).food_type != (#[trigger] g.food@[b]).food_type
                        && g.food@[a].xy != g.food@[b].xy by {
                        let a0 = if a < i { a } else { a + 1 };
                        let b0 = if b < i { b } else { b + 1 };
                        assert(g.food@[a] == pre_food[a0]);
                        assert(g.food@[b] == pre_food[b0]);
                    }
                    assert forall|a: int| 0 <= a < g.food@.len() implies (
                    #[trigger] g.food@[a]).wf() && in_board(g.food@[a].xy) by {
                        let a0 = if a < i { a } else { a + 1 };
                        assert(g.food@[a] == pre_food[a0]);
                    }
                    assert forall|a: int, b: int|
                        0 <= a < g.snake.tail@.len() && 0 <= b < g.snake.tail@.len() && a
                            != b implies g.snake.tail@[a] != g.snake.tail@[b] by {
                        if a > 0 {
                            assert(g.snake.tail@[a] == pre_tail[a - 1]);
                        }
                        if b > 0 {
                            assert(g.snake.tail@[b] == pre_tail[b - 1]);
                        }
                    }
                    assert forall|a: int| 0 <= a < g.snake.tail@.len() implies in_board(
                        #[trigger] g.snake.tail@[a],
                    ) by {
                        if a > 0 {
                            assert(g.snake.tail@[a] == pre_tail[a - 1]);
                        }
                    }
                }
            },
            None => {
                let _ = g.snake.tail.pop_back();
                g.snake.tail.push_front(xy);
                proof {
                    assert(g.snake.tail@ =~= seq![xy] + pre_tail.drop_last());
                    assert forall|a: int, b: int|
                        0 <= a < g.snake.tail@.len() && 0 <= b < g.snake.tail@.len() && a
                            != b implies g.snake.tail@[a] != g.snake.tail@[b] by {
                        if a > 0 {
                            assert(g.snake.tail@[a] == pre_tail[a - 1]);
                        }
                        if b > 0 {
                            assert(g.snake.tail@[b] == pre_tail[b - 1]);
                        }
                    }
                    assert forall|a: int| 0 <= a < g.snake.tail@.len() implies in_board(
                        #[trigger] g.snake.tail@[a],
                    ) by {
                        if a > 0 {
                            assert(g.snake.tail@[a] == pre_tail[a - 1]);
                        }
                    }
                }
            },
        }
    }

    /// One step of the snake: the next queued direction is taken (the last
    /// accepted one when nothing is queued) and the head moves that way.
    pub fn update(g: &mut Game)
        requires
            old(g).wf(),
            old(g).score <= u32::MAX - MAX_FOOD_SCORE,
        ensures
            snake_stepped(old(g), final(g)),
            final(g).snake.tail@.len() >= old(g).snake.tail@.len(),
            final(g).time == old(g).time,
            final(g).wf(),
    {
        if g.snake.keys.len() == 0 {
            g.snake.keys.push_back(g.snake.last_pressed);
        }
        let k = match g.snake.keys.pop_front() {
            Some(k) => k,
            None => g.snake.last_pressed,
        };
        assert(g.snake.keys@ =~= old(g).snake.remaining_keys());
        assert(k == old(g).snake.next_direction());
        assert(g.snake.tail == old(g).snake.tail);
        Snake::mv(g, k.delta());
    }
}

/// Pressing the key of the direction opposite to the last accepted one
/// leaves the queue and the last accepted direction as they were.
pub proof fn lemma_reversal_ignored(pre: &Snake, post: &Snake, key: Key)
    requires
        pressed(pre, post, key),
        key.direction_spec() == Some(reverse_spec(pre.last_pressed)),
    ensures
        post.keys@ == pre.keys@,
        post.last_pressed == pre.last_pressed,
        post.tail == pre.tail,
{
}

/// When the head lands on a cell with food, the score grows by exactly that
/// item's score, the body by exactly one segment, and the interval between
/// steps shrinks by exactly the fixed amount (while it is at least that long).
pub proof fn lemma_consumption(pre: &Game, post: &Game, d: Point, i: int)
    requires
        pre.wf(),
        moved(pre, post, d),
        0 <= i < pre.food@.len(),
        pre.food@[i].xy == pre.snake.tail@[0].offset_spec(d),
        !blocked(pre, pre.food@[i].xy),
        pre.update_time >= SPEED_UP,
    ensures
        post.score == pre.score + pre.food@[i].score,
        post.snake.tail@.len() == pre.snake.tail@.len() + 1,
        post.update_time == pre.update_time - SPEED_UP,
        post.food@.len() == pre.food@.len() - 1,
        post.state == pre.state,
{
    assert(ate(pre, post, pre.food@[i].xy, i));
}

} // verus!
