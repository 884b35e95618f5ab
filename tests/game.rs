use std::collections::VecDeque;

use snake::food::{age_all, contains_kind, food_at, Food, FoodType};
use snake::game::{Game, SPEED_UP, UPDATE_TIME};
use snake::level::{level1, level2, level_numbered, rand_level};
use snake::point::{contains_point, Point, BOARD_HEIGHT, BOARD_WIDTH};
use snake::snake::{reverse_direction, Direction, Key, Snake};
use snake::state::State;

fn pt(x: i8, y: i8) -> Point {
    Point { x, y }
}

fn body(cells: &[(i8, i8)]) -> VecDeque<Point> {
    cells.iter().map(|&(x, y)| pt(x, y)).collect()
}

fn open_game(cells: &[(i8, i8)], dir: Direction) -> Game {
    Game {
        snake: Snake::new(body(cells), dir),
        walls: vec![],
        food: vec![],
        state: State::Playing,
        update_time: UPDATE_TIME,
        score: 0,
        time: 0,
        invisible_walls: vec![],
    }
}

fn apple(x: i8, y: i8) -> Food {
    Food { food_type: FoodType::Apple, xy: pt(x, y), score: 10, life_time: 45, lived_time: 0 }
}

fn cells_of(g: &Game) -> Vec<(i8, i8)> {
    g.snake.tail.iter().map(|p| (p.x, p.y)).collect()
}

#[test]
fn straight_moves_keep_length() {
    let mut g = open_game(&[(2, 3), (2, 2), (2, 1)], Direction::Down);
    for _ in 0..3 {
        Snake::update(&mut g);
    }
    assert_eq!(cells_of(&g), vec![(2, 6), (2, 5), (2, 4)]);
    assert_eq!(g.score, 0);
    assert_eq!(g.state, State::Playing);
    assert!(g.food.is_empty());
}

#[test]
fn eating_apple_grows_and_speeds_up() {
    let mut g = open_game(&[(5, 4), (5, 3), (5, 2)], Direction::Down);
    g.score = 10;
    g.food.push(apple(5, 5));
    Snake::update(&mut g);
    assert_eq!(g.score, 20);
    assert_eq!(cells_of(&g), vec![(5, 5), (5, 4), (5, 3), (5, 2)]);
    assert_eq!(g.update_time, UPDATE_TIME - SPEED_UP);
    assert!(g.food.is_empty());
}

#[test]
fn wall_ends_game_and_freezes_it() {
    let mut g = open_game(&[(5, 4), (5, 3), (5, 2)], Direction::Down);
    g.walls.push(pt(5, 5));
    Snake::update(&mut g);
    assert_eq!(g.state, State::GameOver);
    assert_eq!(cells_of(&g), vec![(5, 4), (5, 3), (5, 2)]);
    let time = g.time;
    g.update(10 * UPDATE_TIME);
    assert_eq!(g.state, State::GameOver);
    assert_eq!(cells_of(&g), vec![(5, 4), (5, 3), (5, 2)]);
    assert_eq!(g.time, time);
    assert!(g.food.is_empty());
}

#[test]
fn invisible_wall_ends_game() {
    let mut g = open_game(&[(7, 1), (7, 2), (7, 3)], Direction::Up);
    g.invisible_walls.push(pt(7, 0));
    Snake::update(&mut g);
    assert_eq!(g.state, State::GameOver);
    assert_eq!(cells_of(&g), vec![(7, 1), (7, 2), (7, 3)]);
}

#[test]
fn running_into_body_ends_game() {
    let mut g = open_game(&[(3, 3), (3, 4), (4, 4), (4, 3), (4, 2)], Direction::Right);
    Snake::update(&mut g);
    assert_eq!(g.state, State::GameOver);
}

#[test]
fn restart_from_game_over() {
    let mut g = open_game(&[(5, 4), (5, 3), (5, 2)], Direction::Down);
    g.state = State::GameOver;
    g.score = 70;
    g.food.push(apple(1, 1));
    g.key_press(Key::R);
    assert_eq!(g.state, State::Playing);
    assert_eq!(g.score, 0);
    assert!(g.food.is_empty());
    assert_eq!(g.time, UPDATE_TIME);
    assert_eq!(g.update_time, UPDATE_TIME);
    assert_eq!(cells_of(&g), vec![(2, 3), (2, 2), (2, 1)]);
    assert!(g.walls.len() == 49 || g.walls.len() == 22);
}

#[test]
fn wrap_right_and_left_edges() {
    let last = BOARD_WIDTH - 1;
    assert_eq!(pt(last, 4).offset_wrapped(pt(1, 0)), pt(0, 4));
    assert_eq!(pt(0, 4).offset_wrapped(pt(-1, 0)), pt(last, 4));
    assert_eq!(pt(6, 4).offset_wrapped(pt(1, 0)), pt(7, 4));
}

#[test]
fn wrap_top_and_bottom_edges() {
    let last = BOARD_HEIGHT - 1;
    assert_eq!(pt(3, last).offset_wrapped(pt(0, 1)), pt(3, 0));
    assert_eq!(pt(3, 0).offset_wrapped(pt(0, -1)), pt(3, last));
}

#[test]
fn snake_wraps_across_board() {
    let mut g = open_game(&[(14, 7), (13, 7), (12, 7)], Direction::Right);
    Snake::update(&mut g);
    assert_eq!(cells_of(&g), vec![(0, 7), (14, 7), (13, 7)]);
    assert_eq!(g.state, State::Playing);
}

#[test]
fn reversal_is_ignored() {
    let mut s = Snake::new(body(&[(2, 3), (2, 2)]), Direction::Down);
    s.key_press(Key::Up);
    assert!(s.keys.is_empty());
    assert_eq!(s.last_pressed, Direction::Down);
    s.key_press(Key::Left);
    assert_eq!(s.keys, VecDeque::from(vec![Direction::Left]));
    assert_eq!(s.last_pressed, Direction::Left);
    s.key_press(Key::Right);
    assert_eq!(s.keys, VecDeque::from(vec![Direction::Left]));
    s.key_press(Key::Other);
    s.key_press(Key::P);
    assert_eq!(s.keys.len(), 1);
}

#[test]
fn queued_directions_are_taken_in_order() {
    let mut g = open_game(&[(5, 5), (5, 4)], Direction::Down);
    g.key_press(Key::Left);
    g.key_press(Key::Up);
    Snake::update(&mut g);
    assert_eq!(cells_of(&g), vec![(4, 5), (5, 5)]);
    Snake::update(&mut g);
    assert_eq!(cells_of(&g), vec![(4, 4), (4, 5)]);
    Snake::update(&mut g);
    assert_eq!(cells_of(&g), vec![(4, 3), (4, 4)]);
    assert_eq!(g.snake.last_pressed, Direction::Up);
}

#[test]
fn reverse_of_each_direction() {
    assert_eq!(reverse_direction(Direction::Up), Direction::Down);
    assert_eq!(reverse_direction(Direction::Down), Direction::Up);
    assert_eq!(reverse_direction(Direction::Left), Direction::Right);
    assert_eq!(reverse_direction(Direction::Right), Direction::Left);
}

#[test]
fn pause_toggles_and_freezes() {
    let mut g = open_game(&[(5, 5), (5, 4)], Direction::Down);
    g.key_press(Key::P);
    assert_eq!(g.state, State::Paused);
    g.update(10 * UPDATE_TIME);
    assert_eq!(cells_of(&g), vec![(5, 5), (5, 4)]);
    assert_eq!(g.time, 0);
    g.key_press(Key::P);
    assert_eq!(g.state, State::Playing);
}

#[test]
fn pause_does_nothing_after_game_over() {
    let mut g = open_game(&[(5, 5), (5, 4)], Direction::Down);
    g.state = State::GameOver;
    g.key_press(Key::P);
    assert_eq!(g.state, State::GameOver);
}

#[test]
fn time_gathers_until_interval_passes() {
    let mut g = open_game(&[(5, 5), (5, 4)], Direction::Down);
    g.update(UPDATE_TIME);
    assert_eq!(g.time, UPDATE_TIME);
    assert_eq!(cells_of(&g), vec![(5, 5), (5, 4)]);
    g.update(1_000);
    assert_eq!(g.time, 1_000);
    assert_eq!(cells_of(&g)[0], (5, 6));
    assert_eq!(g.food.iter().filter(|f| f.food_type == FoodType::Apple).count(), 1);
}

#[test]
fn food_tick_spawns_one_apple_on_free_cell() {
    let mut g = open_game(&[(5, 5), (5, 4)], Direction::Down);
    g.walls.push(pt(0, 0));
    Food::update(&mut g);
    Food::update(&mut g);
    let apples: Vec<&Food> = g.food.iter().filter(|f| f.food_type == FoodType::Apple).collect();
    assert_eq!(apples.len(), 1);
    assert!(g.food.iter().filter(|f| f.food_type == FoodType::Candy).count() <= 1);
    let a = apples[0];
    assert_eq!(a.lived_time, 2);
    assert_eq!(a.score, 10);
    assert_eq!(a.life_time, 45);
    assert!(a.xy != pt(0, 0) && a.xy != pt(5, 5) && a.xy != pt(5, 4));
}

#[test]
fn expired_food_is_removed() {
    let mut g = open_game(&[(5, 5), (5, 4)], Direction::Down);
    let mut old = apple(1, 1);
    old.lived_time = 45;
    g.food.push(old);
    Food::update(&mut g);
    assert!(!g.food.iter().any(|f| f.xy == pt(1, 1)));
    assert!(g.food.iter().all(|f| f.lived_time == 1));
}

#[test]
fn age_all_ages_and_drops() {
    let mut a = apple(1, 1);
    a.lived_time = 44;
    let c = Food { food_type: FoodType::Candy, xy: pt(2, 2), score: 50, life_time: 15, lived_time: 15 };
    let r = age_all(&vec![a, c]);
    assert_eq!(r.len(), 1);
    assert_eq!(r[0].lived_time, 45);
    assert_eq!(r[0].xy, pt(1, 1));
}

#[test]
fn no_free_cell_gives_none() {
    let mut g = open_game(&[(0, 0)], Direction::Down);
    for x in 0..BOARD_WIDTH {
        for y in 0..BOARD_HEIGHT {
            if (x, y) != (0, 0) {
                g.walls.push(pt(x, y));
            }
        }
    }
    assert_eq!(Food::genxy(&g), None);
    g.walls.pop();
    assert_eq!(Food::genxy(&g), Some(pt(BOARD_WIDTH - 1, BOARD_HEIGHT - 1)));
}

#[test]
fn spawn_follows_draw() {
    assert_eq!(Food::spawn(FoodType::Candy, pt(1, 2), 50, 15, 1, 0), Some(Food {
        food_type: FoodType::Candy,
        xy: pt(1, 2),
        score: 50,
        life_time: 15,
        lived_time: 0,
    }));
    assert_eq!(Food::spawn(FoodType::Candy, pt(1, 2), 50, 15, 1, 1), None);
    assert_eq!(Food::new(FoodType::Apple, pt(3, 3), 10, 45, 100), Some(apple(3, 3)));
    assert_eq!(Food::new(FoodType::Apple, pt(3, 3), 10, 45, 0), None);
}

#[test]
fn food_kind_settings() {
    assert_eq!((FoodType::Apple.score(), FoodType::Apple.lifetime(), FoodType::Apple.probability()), (10, 45, 100));
    assert_eq!((FoodType::Candy.score(), FoodType::Candy.lifetime(), FoodType::Candy.probability()), (50, 15, 1));
}

#[test]
fn food_blinks_before_expiry() {
    let mut a = apple(1, 1);
    assert!(a.visible());
    a.lived_time = 40;
    assert!(!a.visible());
    a.lived_time = 41;
    assert!(a.visible());
    a.lived_time = 38;
    assert!(a.visible());
}

#[test]
fn levels_have_their_layouts() {
    let l1 = level1();
    assert_eq!(l1.walls.len(), 49);
    assert_eq!(l1.invisible_walls.len(), 8);
    assert!(contains_point(&l1.walls, pt(7, 7)));
    assert!(!contains_point(&l1.walls, pt(7, 0)));
    assert!(contains_point(&l1.invisible_walls, pt(7, 0)));
    let l2 = level2();
    assert_eq!(l2.walls.len(), 22);
    assert!(l2.invisible_walls.is_empty());
    assert_eq!(level_numbered(1).walls, l2.walls);
    assert_eq!(level_numbered(0).walls, l1.walls);
    let r = rand_level();
    assert!(r.walls == l1.walls || r.walls == l2.walls);
    assert_eq!(r.snake.last_pressed, Direction::Down);
    assert_eq!(r.snake.tail, body(&[(2, 3), (2, 2), (2, 1)]));
}

#[test]
fn new_game_starts_playing() {
    let g = Game::new();
    assert_eq!(g.state, State::Playing);
    assert_eq!(g.score, 0);
    assert!(g.food.is_empty());
    assert_eq!(g.snake.tail.len(), 3);
}

#[test]
fn lookups_find_cells_and_kinds() {
    let foods = vec![apple(1, 1), Food { food_type: FoodType::Candy, xy: pt(2, 2), score: 50, life_time: 15, lived_time: 0 }];
    assert_eq!(food_at(&foods, pt(2, 2)), Some(1));
    assert_eq!(food_at(&foods, pt(3, 2)), None);
    assert!(contains_kind(&foods, FoodType::Candy));
    assert!(!contains_kind(&foods[..1].to_vec(), FoodType::Candy));
    let s = Snake::new(body(&[(1, 1), (1, 2)]), Direction::Up);
    assert!(s.collides(pt(1, 2)));
    assert!(!s.collides(pt(2, 2)));
}
