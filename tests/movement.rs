use snek::config::{SNAKE_INITIAL_DIRECTION, SNAKE_SPEED};
use snek::direction::Direction;
use snek::grid::pixel_to_tile;
use snek::snake::{
    handle_input, init_snake, move_snake, requested_direction, tick, Level, Position, Pressed,
    Snake, SnakeHead, Translation,
};

const ALL: [Direction; 4] = [Direction::Up, Direction::Down, Direction::Left, Direction::Right];

fn keys(up: bool, down: bool, left: bool, right: bool) -> Pressed {
    Pressed { up, down, left, right }
}

fn none() -> Pressed {
    keys(false, false, false, false)
}

fn only(d: Direction) -> Pressed {
    match d {
        Direction::Up => keys(true, false, false, false),
        Direction::Down => keys(false, true, false, false),
        Direction::Left => keys(false, false, true, false),
        Direction::Right => keys(false, false, false, true),
    }
}

#[test]
fn opposite_pairs() {
    assert_eq!(Direction::Up.opposite(), Direction::Down);
    assert_eq!(Direction::Down.opposite(), Direction::Up);
    assert_eq!(Direction::Left.opposite(), Direction::Right);
    assert_eq!(Direction::Right.opposite(), Direction::Left);
}

#[test]
fn opposite_is_involution() {
    for d in ALL {
        assert_eq!(d.opposite().opposite(), d);
        assert_ne!(d.opposite(), d);
    }
}

#[test]
fn unit_vectors_are_axis_aligned() {
    assert_eq!(Direction::Up.vector(), (0, 1));
    assert_eq!(Direction::Down.vector(), (0, -1));
    assert_eq!(Direction::Left.vector(), (-1, 0));
    assert_eq!(Direction::Right.vector(), (1, 0));
}

#[test]
fn tile_mapping_floors() {
    assert_eq!(pixel_to_tile(0, 8000, 32), 0);
    assert_eq!(pixel_to_tile(249, 8000, 32), 0);
    assert_eq!(pixel_to_tile(250, 8000, 32), 1);
    assert_eq!(pixel_to_tile(7999, 8000, 32), 31);
    assert_eq!(pixel_to_tile(-1, 8000, 32), -1);
    assert_eq!(pixel_to_tile(-250, 8000, 32), -1);
    assert_eq!(pixel_to_tile(-251, 8000, 32), -2);
    assert_eq!(pixel_to_tile(10, 30, 4), 1);
}

#[test]
fn key_priority_order() {
    for cur in ALL {
        for bits in 0u8..16 {
            let p = keys(bits & 1 != 0, bits & 2 != 0, bits & 4 != 0, bits & 8 != 0);
            let expected = if p.up {
                Direction::Up
            } else if p.down {
                Direction::Down
            } else if p.left {
                Direction::Left
            } else if p.right {
                Direction::Right
            } else {
                cur
            };
            assert_eq!(requested_direction(&p, cur), expected);
        }
    }
    assert_eq!(requested_direction(&keys(true, false, true, false), Direction::Right), Direction::Up);
}

#[test]
fn reversal_is_rejected() {
    for d in ALL {
        for pending in ALL {
            let mut head = SnakeHead { direction: d, next_direction: pending };
            handle_input(&mut head, &only(d.opposite()));
            assert_eq!(head, SnakeHead { direction: d, next_direction: pending });
        }
    }
}

#[test]
fn no_keys_leave_pending_alone() {
    let mut head = SnakeHead { direction: Direction::Right, next_direction: Direction::Up };
    for _ in 0..5 {
        handle_input(&mut head, &none());
        assert_eq!(head.next_direction, Direction::Up);
        assert_eq!(head.direction, Direction::Right);
    }
}

#[test]
fn turn_is_buffered_not_taken() {
    let mut head = SnakeHead { direction: Direction::Up, next_direction: Direction::Up };
    handle_input(&mut head, &only(Direction::Left));
    assert_eq!(head, SnakeHead { direction: Direction::Up, next_direction: Direction::Left });
}

#[test]
fn rejected_then_accepted_request() {
    let mut head = SnakeHead { direction: Direction::Right, next_direction: Direction::Right };
    handle_input(&mut head, &only(Direction::Left));
    assert_eq!(head.next_direction, Direction::Right);
    handle_input(&mut head, &only(Direction::Down));
    assert_eq!(head.next_direction, Direction::Down);
    assert_eq!(head.direction, Direction::Right);
}

#[test]
fn initial_snake() {
    let s = init_snake();
    assert_eq!(s.head.direction, SNAKE_INITIAL_DIRECTION);
    assert_eq!(s.head.next_direction, Direction::Right);
    assert_eq!(s.position, Position { x: 0, y: 0 });
    assert_eq!(s.translation, Translation { x: 0, y: 0 });
}

#[test]
fn standard_level() {
    let level = Level::standard();
    assert_eq!(level, Level { width: 8000, height: 6000, tiles_x: 32, tiles_y: 24 });
    assert_eq!(level.width / level.tiles_x, 250);
    assert_eq!(level.height / level.tiles_y, 250);
}

#[test]
fn turn_commits_on_new_tile() {
    let level = Level::standard();
    let mut s = init_snake();
    for t in 1..=17 {
        let pressed = if t == 5 { only(Direction::Up) } else { none() };
        tick(&mut s, &pressed, &level, SNAKE_SPEED);
        if t < 17 {
            assert_eq!(s.position, Position { x: 0, y: 0 });
            assert_eq!(s.head.direction, Direction::Right);
        }
        if t >= 5 {
            assert_eq!(s.head.next_direction, Direction::Up);
        }
    }
    assert_eq!(s.translation, Translation { x: 255, y: 0 });
    assert_eq!(s.position, Position { x: 1, y: 0 });
    assert_eq!(s.head.direction, Direction::Up);
    tick(&mut s, &none(), &level, SNAKE_SPEED);
    assert_eq!(s.translation, Translation { x: 255, y: 15 });
    assert_eq!(s.position, Position { x: 1, y: 0 });
}

#[test]
fn zero_speed_never_moves() {
    let level = Level::standard();
    let mut s = init_snake();
    s.head.next_direction = Direction::Up;
    for _ in 0..10 {
        move_snake(&mut s, &level, 0);
    }
    assert_eq!(s.translation, Translation { x: 0, y: 0 });
    assert_eq!(s.position, Position { x: 0, y: 0 });
    assert_eq!(s.head.direction, Direction::Right);
}

#[test]
fn one_tile_every_pitch() {
    let level = Level::standard();
    let mut s = Snake {
        head: SnakeHead { direction: Direction::Left, next_direction: Direction::Left },
        position: Position { x: 3, y: 2 },
        translation: Translation { x: 875, y: 625 },
    };
    let mut transitions = 0;
    let mut last = s.position;
    for _ in 0..100 {
        move_snake(&mut s, &level, SNAKE_SPEED);
        let dx = (s.position.x - last.x).abs();
        assert!(dx <= 1);
        assert_eq!(s.position.y, 2);
        transitions += dx;
        last = s.position;
    }
    assert_eq!(s.translation.x, 875 - 1500);
    assert_eq!(s.position.x, -3);
    assert_eq!(transitions, 6);
}

#[test]
fn direction_constant_inside_tile() {
    let level = Level::standard();
    let mut s = init_snake();
    let inputs = [only(Direction::Up), only(Direction::Down), none(), only(Direction::Left)];
    for p in inputs.iter().cycle().take(16) {
        tick(&mut s, p, &level, SNAKE_SPEED);
        assert_eq!(s.position, Position { x: 0, y: 0 });
        assert_eq!(s.head.direction, Direction::Right);
    }
    assert_eq!(s.head.next_direction, Direction::Down);
}
