use vstd::prelude::*;
use crate::config::{LEVEL_HEIGHT, LEVEL_TILES_X, LEVEL_TILES_Y, LEVEL_WIDTH, SNAKE_INITIAL_DIRECTION, SUBPIXELS_PER_PIXEL};
use crate::direction::{opposite_of, unit_of, Direction};
use crate::grid::{axis_ok, pixel_to_tile, tile_of, COORD_LIMIT};

verus! {

/// A cell of the level's grid.
#[derive(Clone, Copy, Debug, PartialEq, Eq, Structural)]
pub struct Position {
    pub x: i32,
    pub y: i32,
}

/// The continuous location of the snake's head, in sub-pixel units.
#[derive(Clone, Copy, Debug, PartialEq, Eq, Structural)]
pub struct Translation {
    pub x: i64,
    pub y: i64,
}

/// The direction the head travels in, and the turn it takes at the next tile.
#[derive(Clone, Copy, Debug, PartialEq, Eq, Structural)]
pub struct SnakeHead {
    pub direction: Direction,
    pub next_direction: Direction,
}

/// The directional keys held down during one tick.
#[derive(Clone, Copy, Debug, PartialEq, Eq, Structural)]
pub struct Pressed {
    pub up: bool,
    pub down: bool,
    pub left: bool,
    pub right: bool,
}

/// Size of the level in sub-pixel units, and its number of tiles per axis.
#[derive(Clone, Copy, Debug, PartialEq, Eq, Structural)]
pub struct Level {
    pub width: i64,
    pub height: i64,
    pub tiles_x: i64,
    pub tiles_y: i64,
}

/// The snake's head: its heading, its last committed tile and where it is.
#[derive(Clone, Copy, Debug, PartialEq, Eq, Structural)]
pub struct Snake {
    pub head: SnakeHead,
    pub position: Position,
    pub translation: Translation,
}

impl Level {
    pub open spec fn wf(&self) -> bool {
        &&& axis_ok(self.width as int, self.tiles_x as int)
        &&& axis_ok(self.height as int, self.tiles_y as int)
    }

    /// The tile that holds a continuous location.
    pub open spec fn tile_at(&self, t: Translation) -> Position {
        Position {
            x: tile_of(t.x as int, self.width as int, self.tiles_x as int) as i32,
            y: tile_of(t.y as int, self.height as int, self.tiles_y as int) as i32,
        }
    }

    /// A speed no greater than the width and the height of a tile.
    pub open spec fn within_pitch(&self, speed: int) -> bool {
        &&& 0 <= speed
        &&& speed * self.tiles_x <= self.width
        &&& speed * self.tiles_y <= self.height
    }

    /// The level of the game, in sub-pixel units.
    pub fn standard() -> (r: Level)
        ensures
            r.wf(),
            r.width == LEVEL_WIDTH as i64 * SUBPIXELS_PER_PIXEL,
            r.height == LEVEL_HEIGHT as i64 * SUBPIXELS_PER_PIXEL,
            r.tiles_x == LEVEL_TILES_X as i64,
            r.tiles_y == LEVEL_TILES_Y as i64,
    {
        Level {
            width: LEVEL_WIDTH as i64 * SUBPIXELS_PER_PIXEL,
            height: LEVEL_HEIGHT as i64 * SUBPIXELS_PER_PIXEL,
            tiles_x: LEVEL_TILES_X as i64,
            tiles_y: LEVEL_TILES_Y as i64,
        }
    }
}

impl Snake {
    /// The snake lies within the coordinates that the grid maps, and its
    /// committed tile is the one that holds it.
    pub open spec fn tracks(&self, level: Level) -> bool {
        &&& -COORD_LIMIT <= self.translation.x <= COORD_LIMIT
        &&& -COORD_LIMIT <= self.translation.y <= COORD_LIMIT
        &&& self.position == level.tile_at(self.translation)
    }
}

/// The direction asked for by the keys: the first held of Up, Down, Left,
/// Right, or straight on when none is held.
pub open spec fn requested(p: Pressed, current: Direction) -> Direction {
    if p.up {
        Direction::Up
    } else if p.down {
        Direction::Down
    } else if p.left {
        Direction::Left
    } else if p.right {
        Direction::Right
    } else {
        current
    }
}

/// A request is a turn: neither straight on nor a reversal.
pub open spec fn is_turn(request: Direction, current: Direction) -> bool {
    request != current && request != opposite_of(current)
}

/// The head after one tick of input: a turn is buffered, anything else dropped.
pub open spec fn after_input(h: SnakeHead, p: Pressed) -> SnakeHead {
    let request = requested(p, h.direction);
    if is_turn(request, h.direction) {
        SnakeHead { next_direction: request, ..h }
    } else {
        h
    }
}

/// The location one step further along `d`.
pub open spec fn advanced(t: Translation, d: Direction, speed: int) -> Translation {
    Translation {
        x: (t.x + unit_of(d).0 * speed) as i64,
        y: (t.y + unit_of(d).1 * speed) as i64,
    }
}

/// The step stays within the coordinates that the grid maps.
pub open spec fn step_in_range(t: Translation, d: Direction, speed: int) -> bool {
    &&& 0 <= speed <= COORD_LIMIT
    &&& -COORD_LIMIT <= t.x + unit_of(d).0 * speed <= COORD_LIMIT
    &&& -COORD_LIMIT <= t.y + unit_of(d).1 * speed <= COORD_LIMIT
}

/// The snake after one move: it steps along its current direction, and on
/// entering another tile commits that tile and the buffered turn.
pub open spec fn after_move(s: Snake, level: Level, speed: int) -> Snake {
    let t = advanced(s.translation, s.head.direction, speed);
    let tile = level.tile_at(t);
    if tile != s.position {
        Snake {
            head: SnakeHead { direction: s.head.next_direction, ..s.head },
            position: tile,
            translation: t,
        }
    } else {
        Snake { translation: t, ..s }
    }
}

/// One tick: input first, then the move.
pub open spec fn after_tick(s: Snake, p: Pressed, level: Level, speed: int) -> Snake {
    after_move(Snake { head: after_input(s.head, p), ..s }, level, speed)
}

/// The direction the keys ask for this tick.
pub fn requested_direction(pressed: &Pressed, current: Direction) -> (r: Direction)
    ensures
        r == requested(*pressed, current),
{
    if pressed.up {
        Direction::Up
    } else if pressed.down {
        Direction::Down
    } else if pressed.left {
        Direction::Left
    } else if pressed.right {
        Direction::Right
    } else {
        current
    }
}

/// Buffers the turn that the keys ask for, if it is one; the direction of
/// travel is left alone.
pub fn handle_input(head: &mut SnakeHead, pressed: &Pressed)
    ensures
        *final(head) == after_input(*old(head), *pressed),
        final(head).direction == old(head).direction,
        requested(*pressed, old(head).direction) == opposite_of(old(head).direction)
            ==> *final(head) == *old(head),
{
    let direction = requested_direction(pressed, head.direction);
    if direction != head.direction && direction != head.direction.opposite() {
        head.next_direction = direction;
    }
}

/// Moves the snake one step and commits the buffered turn when it enters
/// another tile.
pub fn move_snake(snake: &mut Snake, level: &Level, speed: i64)
    requires
        level.wf(),
        step_in_range(old(snake).translation, old(snake).head.direction, speed as int),
    ensures
        *final(snake) == after_move(*old(snake), *level, speed as int),
        final(snake).tracks(*level),
        final(snake).head.direction != old(snake).head.direction
            ==> final(snake).position != old(snake).position,
        old(snake).tracks(*level) && speed == 0 ==> *final(snake) == *old(snake),
{
    let (dx, dy) = snake.head.direction.vector();
    snake.translation.x = snake.translation.x + dx as i64 * speed;
    snake.translation.y = snake.translation.y + dy as i64 * speed;
    let actual = Position {
        x: pixel_to_tile(snake.translation.x, level.width, level.tiles_x),
        y: pixel_to_tile(snake.translation.y, level.height, level.tiles_y),
    };
    if snake.position != actual {
        snake.position = actual;
        if snake.head.direction != snake.head.next_direction {
            snake.head.direction = snake.head.next_direction;
        }
    }
}

/// One tick of the game: the keys, then the move.
pub fn tick(snake: &mut Snake, pressed: &Pressed, level: &Level, speed: i64)
    requires
        level.wf(),
        step_in_range(old(snake).translation, old(snake).head.direction, speed as int),
    ensures
        *final(snake) == after_tick(*old(snake), *pressed, *level, speed as int),
        final(snake).tracks(*level),
{
    handle_input(&mut snake.head, pressed);
    move_snake(snake, level, speed);
}

/// The snake at the start of a level: at the origin, in tile (0, 0), heading
/// and turning the initial way.
pub fn init_snake() -> (r: Snake)
    ensures
        r.head.direction == SNAKE_INITIAL_DIRECTION,
        r.head.next_direction == SNAKE_INITIAL_DIRECTION,
        r.position == (Position { x: 0, y: 0 }),
        r.translation == (Translation { x: 0, y: 0 }),
        forall|level: Level| level.wf() ==> r.tracks(level),
{
    Snake {
        head: SnakeHead { direction: SNAKE_INITIAL_DIRECTION, next_direction: SNAKE_INITIAL_DIRECTION },
        position: Position { x: 0, y: 0 },
        translation: Translation { x: 0, y: 0 },
    }
}

} // verus!
