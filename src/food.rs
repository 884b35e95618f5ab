use vstd::prelude::*;

use crate::game::Game;
use crate::point::{contains_point, in_board, Point, BOARD_HEIGHT, BOARD_WIDTH};
use crate::random::random_below;

verus! {

/// The two kinds of pickup.
#[derive(Clone, Copy, PartialEq, Eq, Structural, Debug)]
pub enum FoodType {
    Apple,
    Candy,
}

impl FoodType {
    /// Points awarded for eating food of this kind.
    pub open spec fn score_spec(self) -> u32 {
        match self {
            FoodType::Apple => 10,
            FoodType::Candy => 50,
        }
    }

    /// Ticks that food of this kind stays on the board.
    pub open spec fn lifetime_spec(self) -> u32 {
        match self {
            FoodType::Apple => 45,
            FoodType::Candy => 15,
        }
    }

    /// Chance, in percent, that a missing item of this kind appears on a tick.
    pub open spec fn probability_spec(self) -> u32 {
        match self {
            FoodType::Apple => 100,
            FoodType::Candy => 1,
        }
    }

    pub fn score(self) -> (r: u32)
        ensures
            r == self.score_spec(),
    {
        match self {
            FoodType::Apple => 10,
            FoodType::Candy => 50,
        }
    }

    pub fn lifetime(self) -> (r: u32)
        ensures
            r == self.lifetime_spec(),
    {
        match self {
            FoodType::Apple => 45,
            FoodType::Candy => 15,
        }
    }

    pub fn probability(self) -> (r: u32)
        ensures
            r == self.probability_spec(),
    {
        match self {
            FoodType::Apple => 100,
            FoodType::Candy => 1,
        }
    }
}

/// The largest score that one item of food awards.
pub const MAX_FOOD_SCORE: u32 = 50;

/// A timed, scored pickup on one cell.
#[derive(Clone, Copy, PartialEq, Eq, Structural, Debug)]
pub struct Food {
    pub food_type: FoodType,
    pub xy: Point,
    pub score: u32,
    pub life_time: u32,
    pub lived_time: u32,
}

impl Food {
    /// Food as it stands on a board: its score and lifetime are those of its
    /// kind, and it has not outlived its lifetime.
    pub open spec fn wf(self) -> bool {
        &&& self.score == self.food_type.score_spec()
        &&& self.life_time == self.food_type.lifetime_spec()
        &&& self.lived_time <= self.life_time
    }

    /// The item one tick older.
    pub open spec fn aged(self) -> Food {
        Food {
            food_type: self.food_type,
            xy: self.xy,
            score: self.score,
            life_time: self.life_time,
            lived_time: (self.lived_time + 1) as u32,
        }
    }

    /// The item has outlived its lifetime.
    pub open spec fn expired(self) -> bool {
        self.lived_time > self.life_time
    }

    /// A new item of kind `t` at `xy`, of age zero.
    pub open spec fn fresh(t: FoodType, xy: Point, s: u32, lt: u32) -> Food {
        Food { food_type: t, xy, score: s, life_time: lt, lived_time: 0 }
    }

    /// Creates the item when `draw`, a number in `0..100`, falls below
    /// `probability` (in percent), and nothing otherwise.
    pub fn spawn(t: FoodType, xy: Point, s: u32, lt: u32, probability: u32, draw: u32) -> (r:
        Option<Food>)
        ensures
            draw < probability ==> r == Some(Food::fresh(t, xy, s, lt)),
            draw >= probability ==> r is None,
    {
        if draw < probability {
            Some(Food { food_type: t, xy, score: s, life_time: lt, lived_time: 0 })
        } else {
            None
        }
    }

    /// Creates the item with a chance of `probability` percent.
    pub fn new(t: FoodType, xy: Point, s: u32, lt: u32, probability: u32) -> (r: Option<Food>)
        ensures
            r is None || r == Some(Food::fresh(t, xy, s, lt)),
            probability >= 100 ==> r == Some(Food::fresh(t, xy, s, lt)),
            probability == 0 ==> r is None,
    {
        let draw = random_below(100);
        Food::spawn(t, xy, s, lt, probability, draw)
    }

    /// The item is shown; it blinks, hidden on even ages, during the last
    /// ticks before it expires.
    pub open spec fn visible_spec(self) -> bool {
        !(self.life_time - self.lived_time < 6 && self.lived_time % 2 == 0)
    }

    pub fn visible(&self) -> (r: bool)
        requires
            self.lived_time <= self.life_time,
        ensures
            r == self.visible_spec(),
    {
        !(self.life_time - self.lived_time < 6 && self.lived_time % 2 == 0)
    }

    pub fn food_type(&self) -> (r: FoodType)
        ensures
            r == self.food_type,
    {
        self.food_type
    }
}

/// The items left after one tick: each aged by one, those that expired dropped.
pub open spec fn survivors(s: Seq<Food>) -> Seq<Food>
    decreases s.len(),
{
    if s.len() == 0 {
        Seq::empty()
    } else {
        let rest = survivors(s.drop_last());
        let f = s.last().aged();
        if f.expired() {
            rest
        } else {
            rest.push(f)
        }
    }
}

/// A collection of food on the board: each item well formed and on the
/// board, no two of one kind and no two on one cell.
pub open spec fn food_wf(s: Seq<Food>) -> bool {
    &&& forall|i: int| 0 <= i < s.len() ==> (#[trigger] s[i]).wf() && in_board(s[i].xy)
    &&& foods_apart(s)
}

/// No two items share a kind or a cell.
pub open spec fn foods_apart(s: Seq<Food>) -> bool {
    forall|i: int, j: int|
        0 <= i < s.len() && 0 <= j < s.len() && i != j ==> (#[trigger] s[i]).food_type
            != (#[trigger] s[j]).food_type && s[i].xy != s[j].xy
}

/// The item is the tick-older form of one of the first `n` items of `s`.
pub open spec fn aged_from(s: Seq<Food>, n: int, f: Food) -> bool {
    exists|k: int| 0 <= k < n && f == (#[trigger] s[k]).aged()
}

/// Ages every item by one tick and drops the ones that expired.
pub fn age_all(food: &Vec<Food>) -> (r: Vec<Food>)
    requires
        forall|i: int| 0 <= i < food@.len() ==> (#[trigger] food@[i]).lived_time < u32::MAX,
    ensures
        r@ == survivors(food@),
        food_wf(food@) ==> food_wf(r@),
        forall|i: int| 0 <= i < r@.len() ==> !(#[trigger] r@[i]).expired(),
{
    let mut out: Vec<Food> = Vec::new();
    let mut i: usize = 0;
    while i < food.len()
        invariant
            i <= food@.len(),
            forall|j: int| 0 <= j < food@.len() ==> (#[trigger] food@[j]).lived_time < u32::MAX,
            out@ == survivors(food@.take(i as int)),
            forall|j: int| 0 <= j < out@.len() ==> aged_from(food@, i as int, #[trigger] out@[j]),
            food_wf(food@) ==> food_wf(out@),
            forall|j: int| 0 <= j < out@.len() ==> !(#[trigger] out@[j]).expired(),
        decreases food@.len() - i,
    {
        let f = food[i];
        let g = Food {
            food_type: f.food_type,
            xy: f.xy,
            score: f.score,
            life_time: f.life_time,
            lived_time: f.lived_time + 1,
        };
        assert(food@.take(i + 1).drop_last() =~= food@.take(i as int));
        assert(food@.take(i + 1).last() == f);
        let ghost before = out@;
        if g.lived_time <= g.life_time {
            out.push(g);
        }
        proof {
            if food_wf(food@) && g.lived_time <= g.life_time {
                assert forall|j: int| 0 <= j < before.len() implies (#[trigger] before[j]).food_type
                    != g.food_type && before[j].xy != g.xy by {
                    assert(aged_from(food@, i as int, before[j]));
                    let k = choose|k: int| 0 <= k < i && before[j] == (#[trigger] food@[k]).aged();
                    assert(food@[k].food_type != food@[i as int].food_type);
                }
                assert(out@.last() == g);
                assert forall|a: int, b: int|
                    0 <= a < out@.len() && 0 <= b < out@.len() && a != b implies (
                    #[trigger] out@[a]).food_type != (#[trigger] out@[b]).food_type && out@[a].xy
                    != out@[b].xy by {
                    if a < before.len() && b < before.len() {
                        assert(out@[a] == before[a] && out@[b] == before[b]);
                    } else if a < before.len() {
                        assert(out@[a] == before[a]);
                    } else {
                        assert(out@[b] == before[b]);
                    }
                }
                assert(food@[i as int].wf());
            }
            assert forall|j: int| 0 <= j < out@.len() implies aged_from(
                food@,
                i + 1,
                #[trigger] out@[j],
            ) by {
                if j < out@.len() - 1 || g.lived_time > g.life_time {
                    let k = choose|k: int| 0 <= k < i && out@[j] == (#[trigger] food@[k]).aged();
                    assert(food@[k].aged() == out@[j]);
                } else {
                    assert(food@[i as int].aged() == out@[j]);
                }
            }
        }
        i += 1;
    }
    assert(food@.take(food@.len() as int) =~= food@);
    out
}


/// The index of the first item on cell `p`, if any.
pub fn food_at(food: &Vec<Food>, p: Point) -> (r: Option<usize>)
    ensures
        match r {
            Some(i) => i < food@.len() && food@[i as int].xy == p && forall|j: int|
                0 <= j < i ==> (#[trigger] food@[j]).xy != p,
            None => forall|j: int| 0 <= j < food@.len() ==> (#[trigger] food@[j]).xy != p,
        },
{
    let mut i: usize = 0;
    while i < food.len()
        invariant
            i <= food@.len(),
            forall|j: int| 0 <= j < i ==> (#[trigger] food@[j]).xy != p,
        decreases food@.len() - i,
    {
        if food[i].xy == p {
            return Some(i);
        }
        i += 1;
    }
    None
}


/// Food may appear on `p`: a cell of the board with no segment of the
/// snake, no wall, no invisible wall and no item of `food` on it.
pub open spec fn is_free(g: &Game, food: Seq<Food>, p: Point) -> bool {
    &&& in_board(p)
    &&& !g.snake.tail@.contains(p)
    &&& !g.walls@.contains(p)
    &&& !g.invisible_walls@.contains(p)
    &&& forall|j: int| 0 <= j < food.len() ==> (#[trigger] food[j]).xy != p
}

/// Some item in `s` is of kind `t`.
pub open spec fn has_kind(s: Seq<Food>, t: FoodType) -> bool {
    exists|i: int| 0 <= i < s.len() && (#[trigger] s[i]).food_type == t
}

/// `after` is `before` with at most one new item of kind `t`: one comes
/// only where none of that kind was, fresh and on a free cell, and it always
/// comes when its chance is certain and a free cell exists.
pub open spec fn spawned(g: &Game, before: Seq<Food>, after: Seq<Food>, t: FoodType) -> bool {
    if has_kind(before, t) {
        after == before
    } else {
        &&& after == before || {
            &&& after.len() == before.len() + 1
            &&& after.drop_last() == before
            &&& after.last() == Food::fresh(
                t,
                after.last().xy,
                t.score_spec(),
                t.lifetime_spec(),
            )
            &&& is_free(g, before, after.last().xy)
        }
        &&& t.probability_spec() >= 100 && (exists|p: Point| is_free(g, before, p))
            ==> after.len() == before.len() + 1
    }
}

/// `post` is `pre` after the food's tick: missing kinds may appear (first
/// an apple, then a candy), then every item ages and the expired ones go.
pub open spec fn food_ticked(pre: &Game, post: &Game) -> bool {
    &&& post.snake == pre.snake
    &&& post.walls == pre.walls
    &&& post.invisible_walls == pre.invisible_walls
    &&& post.state == pre.state
    &&& post.score == pre.score
    &&& post.update_time == pre.update_time
    &&& post.time == pre.time
    &&& exists|s1: Seq<Food>, s2: Seq<Food>|
        #[trigger] spawned(pre, pre.food@, s1, FoodType::Apple) && #[trigger] spawned(
            pre,
            s1,
            s2,
            FoodType::Candy,
        ) && post.food@ == survivors(s2)
}

/// Whether an item of kind `t` is in `food`.
pub fn contains_kind(food: &Vec<Food>, t: FoodType) -> (r: bool)
    ensures
        r == has_kind(food@, t),
{
    let mut i: usize = 0;
    while i < food.len()
        invariant
            i <= food@.len(),
            forall|j: int| 0 <= j < i ==> (#[trigger] food@[j]).food_type != t,
        decreases food@.len() - i,
    {
        if food[i].food_type == t {
            assert(food@[i as int].food_type == t);
            return true;
        }
        i += 1;
    }
    false
}

impl Food {
    /// Whether food may appear on `p` now.
    pub fn cell_free(g: &Game, p: Point) -> (r: bool)
        ensures
            r == is_free(g, g.food@, p),
    {
        0 <= p.x && p.x < BOARD_WIDTH && 0 <= p.y && p.y < BOARD_HEIGHT && !g.snake.collides(p)
            && !contains_point(&g.walls, p) && !contains_point(&g.invisible_walls, p) && food_at(
            &g.food,
            p,
        ).is_none()
    }

    /// A free cell drawn at random, every free cell alike; none when the
    /// board has no free cell.
    pub fn genxy(g: &Game) -> (r: Option<Point>)
        ensures
            match r {
                Some(p) => is_free(g, g.food@, p),
                None => forall|p: Point| !is_free(g, g.food@, p),
            },
    {
        let mut cells: Vec<Point> = Vec::new();
        let mut x: i8 = 0;
        while x < BOARD_WIDTH
            invariant
                0 <= x <= BOARD_WIDTH,
                cells@.len() <= x * BOARD_HEIGHT,
                forall|k: int| 0 <= k < cells@.len() ==> is_free(g, g.food@, #[trigger] cells@[k]),
                forall|p: Point| is_free(g, g.food@, p) && p.x < x ==> cells@.contains(p),
            decreases BOARD_WIDTH - x,
        {
            let mut y: i8 = 0;
            while y < BOARD_HEIGHT
                invariant
                    0 <= x < BOARD_WIDTH,
                    0 <= y <= BOARD_HEIGHT,
                    cells@.len() <= x * BOARD_HEIGHT + y,
                    forall|k: int|
                        0 <= k < cells@.len() ==> is_free(g, g.food@, #[trigger] cells@[k]),
                    forall|p: Point|
                        is_free(g, g.food@, p) && (p.x < x || (p.x == x && p.y < y))
                            ==> cells@.contains(p),
                decreases BOARD_HEIGHT - y,
            {
                let p = Point { x, y };
                let ghost before = cells@;
                if Food::cell_free(g, p) {
                    cells.push(p);
                    proof {
                        assert(cells@[before.len() as int] == p);
                        assert forall|q: Point|
                            is_free(g, g.food@, q) && (q.x < x || (q.x == x && q.y < y + 1))
                                implies cells@.contains(q) by {
                            if q == p {
                                assert(cells@[before.len() as int] == q);
                            } else {
                                assert(before.contains(q));
                                let k = choose|k: int| 0 <= k < before.len() && before[k] == q;
                                assert(cells@[k] == q);
                            }
                        }
                    }
                }
                y += 1;
            }
            x += 1;
        }
        if cells.len() == 0 {
            proof {
                assert forall|p: Point| !is_free(g, g.food@, p) by {
                    if is_free(g, g.food@, p) {
                        assert(cells@.contains(p));
                    }
                }
            }
            None
        } else {
            let i = random_below(cells.len() as u32);
            Some(cells[i as usize])
        }
    }
}

impl Food {
    /// Places an item of kind `t`, by its chance, on a free cell drawn at
    /// random, when no item of that kind is on the board.
    pub fn spawn_kind(g: &mut Game, t: FoodType)
        requires
            food_wf(old(g).food@),
        ensures
            spawned(old(g), old(g).food@, final(g).food@, t),
            final(g).snake == old(g).snake,
            final(g).walls == old(g).walls,
            final(g).invisible_walls == old(g).invisible_walls,
            final(g).state == old(g).state,
            final(g).score == old(g).score,
            final(g).update_time == old(g).update_time,
            final(g).time == old(g).time,
            food_wf(final(g).food@),
    {
        if !contains_kind(&g.food, t) {
            match Food::genxy(g) {
                Some(p) => match Food::new(t, p, t.score(), t.lifetime(), t.probability()) {
                    Some(f) => {
                        let ghost before = g.food@;
                        g.food.push(f);
                        proof {
                            assert(g.food@.drop_last() =~= before);
                            assert forall|a: int, b: int|
                                0 <= a < g.food@.len() && 0 <= b < g.food@.len() && a
                                    != b implies (#[trigger] g.food@[a]).food_type != (
                                #[trigger] g.food@[b]).food_type && g.food@[a].xy
                                != g.food@[b].xy by {
                                if a == before.len() {
                                    assert(g.food@[b] == before[b]);
                                } else if b == before.len() {
                                    assert(g.food@[a] == before[a]);
                                } else {
                                    assert(g.food@[a] == before[a]);
                                    assert(g.food@[b] == before[b]);
                                }
                            }
                        }
                    },
                    None => {},
                },
                None => {},
            }
        }
    }

    /// The food's tick: a missing apple appears on a free cell, a missing
    /// candy may appear, then every item ages and the expired ones go.
    pub fn update(g: &mut Game)
        requires
            old(g).wf(),
        ensures
            food_ticked(old(g), final(g)),
            final(g).wf(),
    {
        let ghost s0 = g.food@;
        Food::spawn_kind(g, FoodType::Apple);
        let ghost s1 = g.food@;
        Food::spawn_kind(g, FoodType::Candy);
        let ghost s2 = g.food@;
        proof {
            assert forall|i: int| 0 <= i < s2.len() implies (#[trigger] s2[i]).lived_time
                < u32::MAX by {
                assert(s2[i].wf());
            }
        }
        let aged = age_all(&g.food);
        g.food = aged;
        proof {
            assert(spawned(old(g), s0, s1, FoodType::Apple));
            assert(spawned(old(g), s1, s2, FoodType::Candy));
            assert(g.food@ == survivors(s2));
        }
    }
}

/// No item left after a tick has outlived its lifetime.
pub proof fn lemma_survivors_unexpired(s: Seq<Food>)
    ensures
        forall|i: int| 0 <= i < survivors(s).len() ==> !(#[trigger] survivors(s)[i]).expired(),
    decreases s.len(),
{
    if s.len() > 0 {
        let rest = survivors(s.drop_last());
        lemma_survivors_unexpired(s.drop_last());
        let f = s.last().aged();
        if !f.expired() {
            assert forall|i: int| 0 <= i < survivors(s).len() implies !(
            #[trigger] survivors(s)[i]).expired() by {
                if i < rest.len() {
                    assert(survivors(s)[i] == rest[i]);
                }
            }
        }
    }
}

/// After the food's tick no item on the board has outlived its lifetime:
/// whatever expired is gone.
pub proof fn lemma_expired_removed(pre: &Game, post: &Game)
    requires
        food_ticked(pre, post),
    ensures
        forall|i: int| 0 <= i < post.food@.len() ==> !(#[trigger] post.food@[i]).expired(),
{
    let (s1, s2) = choose|s1: Seq<Food>, s2: Seq<Food>|
        #[trigger] spawned(pre, pre.food@, s1, FoodType::Apple) && #[trigger] spawned(
            pre,
            s1,
            s2,
            FoodType::Candy,
        ) && post.food@ == survivors(s2);
    lemma_survivors_unexpired(s2);
}

} // verus!
