use vstd::prelude::*;

use crate::food::{food_ticked, food_wf, Food, MAX_FOOD_SCORE};
use crate::level::{is_start_level, rand_level, Level};
use crate::point::Point;
use crate::snake::{pressed, snake_stepped, Key, Snake};
use crate::state::State;

verus! {

/// Microseconds between two steps at the start of a game.
pub const UPDATE_TIME: u64 = 150_000;

/// Microseconds taken off the step interval for each item eaten.
pub const SPEED_UP: u64 = 2_000;

/// The step interval after one item was eaten; it stops at zero.
pub open spec fn sped_up(t: u64) -> u64 {
    if t >= SPEED_UP {
        (t - SPEED_UP) as u64
    } else {
        0
    }
}

/// The whole game: the snake, the board's walls, the food, the score and
/// the clock that paces the steps.
pub struct Game {
    pub snake: Snake,
    pub walls: Vec<Point>,
    pub food: Vec<Food>,
    pub state: State,
    /// Microseconds between two steps.
    pub update_time: u64,
    pub score: u32,
    /// Microseconds gathered towards the next step.
    pub time: u64,
    pub invisible_walls: Vec<Point>,
}

impl Game {
    /// The snake is well formed and the food collection is too.
    pub open spec fn wf(&self) -> bool {
        &&& self.snake.wf()
        &&& food_wf(self.food@)
    }
}

/// `post` is `pre` after one step of the game: the snake moves, then the
/// food ticks.
pub open spec fn stepped(pre: &Game, post: &Game) -> bool {
    exists|mid: Game| #[trigger] snake_stepped(pre, &mid) && food_ticked(&mid, post)
}

/// Everything but the state is the same in `a` and `b`.
pub open spec fn same_but_state(a: &Game, b: &Game) -> bool {
    &&& a.snake == b.snake
    &&& a.walls == b.walls
    &&& a.invisible_walls == b.invisible_walls
    &&& a.food == b.food
    &&& a.update_time == b.update_time
    &&& a.score == b.score
    &&& a.time == b.time
}

/// The game as it starts on a level: playing, no food, no score, the
/// first step one interval away.
pub open spec fn is_fresh_game(g: &Game) -> bool {
    &&& g.state == State::Playing
    &&& g.food@.len() == 0
    &&& g.score == 0
    &&& g.update_time == UPDATE_TIME
    &&& g.time == UPDATE_TIME
}

/// The game is at its start on the level `l`.
pub open spec fn started_on(g: &Game, l: &Level) -> bool {
    &&& is_fresh_game(g)
    &&& g.snake == l.snake
    &&& g.walls == l.walls
    &&& g.invisible_walls == l.invisible_walls
}

/// The game starts over on one of the two layouts.
pub open spec fn restarted(g: &Game) -> bool {
    &&& is_fresh_game(g)
    &&& exists|l: Level| #[trigger] is_start_level(&l) && started_on(g, &l)
}

impl Game {
    /// A game at its start on the level `l`.
    pub fn from_level(l: Level) -> (r: Game)
        requires
            l.snake.wf(),
        ensures
            started_on(&r, &l),
            r.wf(),
    {
        Game {
            snake: l.snake,
            time: UPDATE_TIME,
            update_time: UPDATE_TIME,
            state: State::Playing,
            walls: l.walls,
            invisible_walls: l.invisible_walls,
            food: Vec::new(),
            score: 0,
        }
    }

    /// A game at its start on a level drawn at random.
    pub fn new() -> (r: Game)
        ensures
            restarted(&r),
            r.wf(),
    {
        let l = rand_level();
        let ghost lv = l;
        let g = Game::from_level(l);
        assert(is_start_level(&lv) && started_on(&g, &lv));
        g
    }

    /// Starts the game over on the level `l`, whatever its state.
    pub fn reset(&mut self, l: Level)
        requires
            l.snake.wf(),
        ensures
            started_on(final(self), &l),
            final(self).wf(),
    {
        self.snake = l.snake;
        self.state = State::Playing;
        self.time = UPDATE_TIME;
        self.update_time = UPDATE_TIME;
        self.walls = l.walls;
        self.invisible_walls = l.invisible_walls;
        self.food = Vec::new();
        self.score = 0;
    }

    /// Lets `dt` microseconds pass. While playing they gather, and once
    /// more than one interval has gathered, one interval is spent on one
    /// step of the game. Paused or over, nothing changes.
    pub fn update(&mut self, dt: u64)
        requires
            old(self).wf(),
            old(self).score <= u32::MAX - MAX_FOOD_SCORE,
            old(self).time + dt <= u64::MAX,
        ensures
            final(self).wf(),
            final(self).snake.tail@.len() >= old(self).snake.tail@.len(),
            old(self).state != State::Playing ==> *final(self) == *old(self),
            old(self).state == State::Playing && old(self).time + dt <= old(self).update_time ==> {
                &&& final(self).time == old(self).time + dt
                &&& final(self).state == old(self).state
                &&& same_but_time(old(self), final(self))
            },
            old(self).state == State::Playing && old(self).time + dt > old(self).update_time ==> {
                &&& final(self).time == old(self).time + dt - old(self).update_time
                &&& stepped(old(self), final(self))
            },
    {
        match self.state {
            State::Paused | State::GameOver => return ,
            _ => {},
        }
        self.time = self.time + dt;
        if self.time > self.update_time {
            self.time = self.time - self.update_time;
            Snake::update(self);
            let ghost mid: Game = *self;
            Food::update(self);
            assert(snake_stepped(old(self), &mid) && food_ticked(&mid, self));
        }
    }

    /// Handles a key: restart starts over on a level drawn at random, from
    /// any state; pause stops a game that plays and resumes one that is
    /// paused; any other key goes to the snake.
    pub fn key_press(&mut self, key: Key)
        requires
            old(self).wf(),
        ensures
            final(self).wf(),
            key == Key::R ==> restarted(final(self)),
            key == Key::P && old(self).state == State::Playing ==> final(self).state
                == State::Paused && same_but_state(old(self), final(self)),
            key == Key::P && old(self).state == State::Paused ==> final(self).state
                == State::Playing && same_but_state(old(self), final(self)),
            key != Key::R && !(key == Key::P && old(self).state != State::GameOver) ==> {
                &&& pressed(&old(self).snake, &final(self).snake, key)
                &&& final(self).state == old(self).state
                &&& final(self).walls == old(self).walls
                &&& final(self).invisible_walls == old(self).invisible_walls
                &&& final(self).food == old(self).food
                &&& final(self).update_time == old(self).update_time
                &&& final(self).score == old(self).score
                &&& final(self).time == old(self).time
            },
    {
        match (key, self.state) {
            (Key::R, _) => {
                let l = rand_level();
                let ghost lv = l;
                self.reset(l);
                assert(is_start_level(&lv) && started_on(self, &lv));
            },
            (Key::P, State::Playing) => {
                self.state = State::Paused;
            },
            (Key::P, State::Paused) => {
                self.state = State::Playing;
            },
            _ => {
                self.snake.key_press(key);
            },
        }
    }
}

/// Everything but the clock is the same in `a` and `b`.
pub open spec fn same_but_time(a: &Game, b: &Game) -> bool {
    &&& a.snake == b.snake
    &&& a.walls == b.walls
    &&& a.invisible_walls == b.invisible_walls
    &&& a.food == b.food
    &&& a.update_time == b.update_time
    &&& a.score == b.score
    &&& a.state == b.state
}

} // verus!
