use snake::body::Body;
use snake::direction::Direction;
use snake::game::{Cube, Game, TickError};
use snake::geometry::{step_down, step_up, Dimensions, Vector};

fn dims() -> Dimensions {
    Dimensions { x: (1, 20), y: (1, 10) }
}

fn game_with(cells: &[(u16, u16)], direction: Direction, block: Option<Vector>) -> Game {
    let cells: Vec<Vector> = cells.iter().map(|&(x, y)| Vector::new(x, y)).collect();
    Game { body: Body::from_segments(&cells), direction, dimensions: dims(), block }
}

#[test]
fn tick_moves_single_cell_and_spawns_food() {
    let mut g = Game::new(dims(), Vector::new(5, 5));
    assert_eq!(g.tick(), Ok(()));
    assert_eq!(g.body.segments(), vec![Vector(6, 5)]);
    let food = g.block.expect("food is placed after the tick");
    assert!(food.0 >= 1 && food.0 < 20);
    assert!(food.1 >= 1 && food.1 < 10);
}

#[test]
fn advance_keeps_untouched_food() {
    let mut g = game_with(&[(6, 5), (5, 5)], Direction::Right, Some(Vector(6, 5)));
    assert_eq!(g.go_forward(), Ok(()));
    assert_eq!(g.body.segments(), vec![Vector(7, 5), Vector(6, 5)]);
    assert_eq!(g.block, Some(Vector(6, 5)));
}

#[test]
fn right_edge_wraps_to_left_bound() {
    let mut g = game_with(&[(20, 4)], Direction::Right, None);
    assert_eq!(g.go_forward(), Ok(()));
    assert_eq!(g.body.head(), Some(Vector(1, 4)));
    let mut v = Vector::new(20, 4);
    g.move_vec_right(&mut v);
    assert_eq!(v, Vector(1, 4));
}

#[test]
fn stepping_onto_body_is_game_over() {
    let mut g = game_with(&[(5, 5), (6, 5), (5, 5)], Direction::Right, Some(Vector(9, 9)));
    assert_eq!(g.go_forward(), Err(TickError::GameOver));
    assert_eq!(g.body.segments(), vec![Vector(5, 5), Vector(6, 5), Vector(5, 5)]);
    assert_eq!(g.block, Some(Vector(9, 9)));
}

#[test]
fn turning_back_into_neck_is_game_over() {
    let mut g = game_with(&[(5, 5), (4, 5), (4, 6), (5, 6)], Direction::Down, None);
    assert_eq!(g.go_forward(), Err(TickError::GameOver));
    assert_eq!(g.score(), 4);
}

#[test]
fn empty_body_is_an_error() {
    let mut g = game_with(&[], Direction::Up, None);
    assert_eq!(g.go_forward(), Err(TickError::EmptyBody));
    assert_eq!(g.tick(), Err(TickError::EmptyBody));
    assert_eq!(g.block, None);
}

#[test]
fn eating_grows_by_one_and_clears_food() {
    let mut g = game_with(&[(6, 5), (5, 5)], Direction::Right, Some(Vector(7, 5)));
    assert_eq!(g.go_forward(), Ok(()));
    assert_eq!(g.body.segments(), vec![Vector(7, 5), Vector(6, 5), Vector(5, 5)]);
    assert_eq!(g.score(), 3);
    assert_eq!(g.block, None);
}

#[test]
fn tick_after_eating_places_new_food() {
    let mut g = game_with(&[(3, 3)], Direction::Down, Some(Vector(3, 4)));
    assert_eq!(g.tick(), Ok(()));
    assert_eq!(g.score(), 2);
    let food = g.block.expect("new food");
    assert!(food.0 >= 1 && food.0 < 20 && food.1 >= 1 && food.1 < 10);
}

#[test]
fn plain_move_keeps_length_and_drops_tail() {
    let mut g = game_with(&[(3, 3), (3, 4), (3, 5)], Direction::Up, None);
    assert_eq!(g.go_forward(), Ok(()));
    assert_eq!(g.body.segments(), vec![Vector(3, 2), Vector(3, 3), Vector(3, 4)]);
    assert_eq!(g.body.tail(), Some(Vector(3, 4)));
    assert_eq!(g.score(), 3);
}

#[test]
fn moves_wrap_on_every_edge() {
    let mut g = Game::new(dims(), Vector::new(1, 1));
    let mut v = Vector::new(1, 1);
    g.move_vec_left(&mut v);
    assert_eq!(v, Vector(20, 1));
    g.move_vec_up(&mut v);
    assert_eq!(v, Vector(20, 10));
    g.move_vec_down(&mut v);
    assert_eq!(v, Vector(20, 1));
    g.move_vec_right(&mut v);
    assert_eq!(v, Vector(1, 1));
    g.move_vec_down(&mut v);
    assert_eq!(v, Vector(1, 2));
}

#[test]
fn wrap_round_trip_on_an_axis() {
    for v in 1..=20u16 {
        assert_eq!(step_up(step_down(v, 1, 20), 1, 20), v);
        assert_eq!(step_down(step_up(v, 1, 20), 1, 20), v);
    }
    assert_eq!(step_up(20, 1, 20), 1);
    assert_eq!(step_down(1, 1, 20), 20);
    assert_eq!(step_up(7, 1, 20), 8);
    assert_eq!(step_down(7, 1, 20), 6);
}

#[test]
fn reversal_is_ignored_other_turns_taken() {
    let all = [Direction::Left, Direction::Up, Direction::Right, Direction::Down];
    for cur in all {
        for req in all {
            let mut g = game_with(&[(5, 5)], cur, None);
            g.set_direction(req);
            if req == cur.opposite() {
                assert_eq!(g.direction, cur);
            } else {
                assert_eq!(g.direction, req);
            }
        }
    }
    assert_eq!(Direction::Up.opposite(), Direction::Down);
    assert_eq!(Direction::Left.turned(Direction::Right), Direction::Left);
}

#[test]
fn body_operations() {
    let mut b = Body::new(Vector(2, 2));
    assert_eq!(b.length(), 1);
    b.grow_front(Vector(3, 2));
    assert_eq!(b.segments(), vec![Vector(3, 2), Vector(2, 2)]);
    assert!(b.contains(&Vector(2, 2)));
    assert!(!b.contains(&Vector(4, 2)));
    b.advance_front(Vector(4, 2));
    assert_eq!(b.segments(), vec![Vector(4, 2), Vector(3, 2)]);
    assert_eq!(b.head(), Some(Vector(4, 2)));
    assert_eq!(b.tail(), Some(Vector(3, 2)));
    let empty = Body::from_segments(&Vec::new());
    assert_eq!(empty.head(), None);
    assert_eq!(empty.tail(), None);
}

#[test]
fn food_placement_and_cubes() {
    let mut g = game_with(&[(4, 4), (5, 4)], Direction::Left, None);
    g.place_food(Vector(8, 8));
    assert_eq!(g.block, Some(Vector(8, 8)));
    g.place_food(Vector(9, 9));
    assert_eq!(g.block, Some(Vector(8, 8)));
    g.spawn_food();
    assert_eq!(g.block, Some(Vector(8, 8)));
    assert_eq!(g.cubes(), vec![Cube::new(4, 4), Cube::new(5, 4), Cube::new(8, 8)]);
    assert!(g.vec_intersects_with_body(&Vector(5, 4)));
    assert!(!g.vec_intersects_with_body(&Vector(8, 8)));
}

#[test]
fn spawned_food_lies_in_interior() {
    let d = Dimensions { x: (1, 2), y: (3, 4) };
    for _ in 0..50 {
        assert_eq!(d.spawn_point(), Vector(1, 3));
    }
    let mut g = game_with(&[(5, 5)], Direction::Left, None);
    g.spawn_food();
    let food = g.block.expect("food");
    assert!(food.0 >= 1 && food.0 < 20 && food.1 >= 1 && food.1 < 10);
}
