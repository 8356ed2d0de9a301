use vstd::prelude::*;
use vstd::arithmetic::div_mod::lemma_fundamental_div_mod;
use crate::direction::{opposite_of, unit_of, Direction};
use crate::grid::{axis_ok, tile_of, COORD_LIMIT};
use crate::snake::{after_input, after_move, after_tick, requested, step_in_range, Level, Pressed, Snake, SnakeHead};

verus! {

/// No directional key held.
pub open spec fn no_keys() -> Pressed {
    Pressed { up: false, down: false, left: false, right: false }
}

/// The head after `n` ticks of the same input.
pub open spec fn repeat_input(h: SnakeHead, p: Pressed, n: nat) -> SnakeHead
    decreases n,
{
    if n == 0 {
        h
    } else {
        after_input(repeat_input(h, p, (n - 1) as nat), p)
    }
}

/// The snake after a tick for each input in turn.
pub open spec fn run(s: Snake, inputs: Seq<Pressed>, level: Level, speed: int) -> Snake
    decreases inputs.len(),
{
    if inputs.len() == 0 {
        s
    } else {
        after_tick(run(s, inputs.drop_last(), level, speed), inputs.last(), level, speed)
    }
}

/// Asking to reverse never changes the buffered turn, nor anything else.
pub proof fn lemma_reversal_rejected(h: SnakeHead, p: Pressed)
    requires
        requested(p, h.direction) == opposite_of(h.direction),
    ensures
        after_input(h, p).next_direction == h.next_direction,
        after_input(h, p) == h,
{
}

/// With no key held the buffered turn stays as it was, however many ticks pass.
pub proof fn lemma_no_keys_idle(h: SnakeHead, n: nat)
    ensures
        repeat_input(h, no_keys(), n) == h,
    decreases n,
{
    if n > 0 {
        lemma_no_keys_idle(h, (n - 1) as nat);
    }
}

/// Held keys are read in the fixed order Up, Down, Left, Right; with none held
/// the request is straight on.
pub proof fn lemma_key_priority(p: Pressed, current: Direction)
    ensures
        p.up ==> requested(p, current) == Direction::Up,
        !p.up && p.down ==> requested(p, current) == Direction::Down,
        !p.up && !p.down && p.left ==> requested(p, current) == Direction::Left,
        !p.up && !p.down && !p.left && p.right ==> requested(p, current) == Direction::Right,
        !p.up && !p.down && !p.left && !p.right ==> requested(p, current) == current,
{
}

/// The direction of travel changes in a tick only if the tile does.
pub proof fn lemma_turn_only_on_new_tile(s: Snake, p: Pressed, level: Level, speed: int)
    ensures
        after_tick(s, p, level, speed).head.direction != s.head.direction
            ==> after_tick(s, p, level, speed).position != s.position,
{
}

/// Over ticks that all leave the snake in its tile, its direction of travel
/// stays what it was, whatever keys are held.
pub proof fn lemma_direction_constant_within_tile(
    s: Snake,
    inputs: Seq<Pressed>,
    level: Level,
    speed: int,
)
    requires
        forall|i: int|
            0 <= i <= inputs.len() ==> #[trigger] run(s, inputs.take(i), level, speed).position
                == s.position,
    ensures
        run(s, inputs, level, speed).head.direction == s.head.direction,
    decreases inputs.len(),
{
    if inputs.len() > 0 {
        let n = inputs.len() as int;
        let prev = inputs.drop_last();
        assert forall|i: int| 0 <= i <= prev.len() implies #[trigger] run(
            s,
            prev.take(i),
            level,
            speed,
        ).position == s.position by {
            assert(prev.take(i) =~= inputs.take(i));
            assert(run(s, inputs.take(i), level, speed).position == s.position);
        }
        lemma_direction_constant_within_tile(s, prev, level, speed);
        assert(inputs.take(n) =~= inputs);
        assert(inputs.take(n - 1) =~= prev);
        assert(run(s, inputs.take(n), level, speed).position == s.position);
        assert(run(s, inputs.take(n - 1), level, speed).position == s.position);
    }
}

/// Moving by at most one tile's width crosses at most one tile boundary.
proof fn lemma_floor_step(a: int, e: int, w: int)
    requires
        0 < w,
        0 <= e <= w,
    ensures
        a / w <= (a + e) / w <= a / w + 1,
{
    lemma_fundamental_div_mod(a, w);
    lemma_fundamental_div_mod(a + e, w);
    let q1 = a / w;
    let q2 = (a + e) / w;
    assert(q1 <= q2 <= q1 + 1) by (nonlinear_arith)
        requires
            a == w * q1 + a % w,
            a + e == w * q2 + (a + e) % w,
            0 <= a % w < w,
            0 <= (a + e) % w < w,
            0 <= e <= w,
            0 < w,
    ;
}

/// One step of at most a tile's pitch along an axis moves the tile index by at
/// most one, in the direction of the step.
proof fn lemma_axis_step(x: int, u: int, speed: int, pixels: int, tiles: int)
    requires
        axis_ok(pixels, tiles),
        0 <= speed,
        speed * tiles <= pixels,
        u == -1 || u == 0 || u == 1,
    ensures
        u == 0 ==> tile_of(x + u * speed, pixels, tiles) == tile_of(x, pixels, tiles),
        u == 1 ==> tile_of(x, pixels, tiles) <= tile_of(x + u * speed, pixels, tiles) <= tile_of(
            x,
            pixels,
            tiles,
        ) + 1,
        u == -1 ==> tile_of(x, pixels, tiles) - 1 <= tile_of(x + u * speed, pixels, tiles)
            <= tile_of(x, pixels, tiles),
{
    let e = speed * tiles;
    assert(0 <= e) by (nonlinear_arith)
        requires
            e == speed * tiles,
            0 <= speed,
            0 < tiles,
    ;
    if u == 1 {
        assert((x + u * speed) * tiles == x * tiles + e) by (nonlinear_arith)
            requires
                u == 1,
                e == speed * tiles,
        ;
        lemma_floor_step(x * tiles, e, pixels);
    } else if u == -1 {
        assert(x * tiles == (x + u * speed) * tiles + e) by (nonlinear_arith)
            requires
                u == -1,
                e == speed * tiles,
        ;
        lemma_floor_step((x + u * speed) * tiles, e, pixels);
    }
}

/// Within the range the grid maps, a tile index fits an `i32`.
proof fn lemma_tile_in_range(x: int, pixels: int, tiles: int)
    requires
        axis_ok(pixels, tiles),
        -COORD_LIMIT <= x <= COORD_LIMIT,
    ensures
        -COORD_LIMIT <= tile_of(x, pixels, tiles) <= COORD_LIMIT,
{
    let n = x * tiles;
    assert(-COORD_LIMIT * tiles <= n <= COORD_LIMIT * tiles) by (nonlinear_arith)
        requires
            -COORD_LIMIT <= x <= COORD_LIMIT,
            0 < tiles,
            n == x * tiles,
    ;
    lemma_fundamental_div_mod(n, pixels);
    let q = n / pixels;
    let r = n % pixels;
    assert(-COORD_LIMIT <= q <= COORD_LIMIT) by (nonlinear_arith)
        requires
            -COORD_LIMIT * tiles <= n <= COORD_LIMIT * tiles,
            0 < tiles <= pixels,
            n == pixels * q + r,
            0 <= r < pixels,
    ;
}

/// When the speed is at most a tile's pitch, a move enters at most one new
/// tile: one step along the axis of travel, none across it.
pub proof fn lemma_one_tile_per_tick(s: Snake, level: Level, speed: int)
    requires
        level.wf(),
        level.within_pitch(speed),
        s.tracks(level),
        step_in_range(s.translation, s.head.direction, speed),
    ensures
        ({
            let next = after_move(s, level, speed).position;
            let (ux, uy) = unit_of(s.head.direction);
            &&& ux == 0 ==> next.x == s.position.x
            &&& uy == 0 ==> next.y == s.position.y
            &&& ux == 1 ==> s.position.x <= next.x <= s.position.x + 1
            &&& ux == -1 ==> s.position.x - 1 <= next.x <= s.position.x
            &&& uy == 1 ==> s.position.y <= next.y <= s.position.y + 1
            &&& uy == -1 ==> s.position.y - 1 <= next.y <= s.position.y
        }),
{
    let (ux, uy) = unit_of(s.head.direction);
    let x = s.translation.x as int;
    let y = s.translation.y as int;
    let w = level.width as int;
    let h = level.height as int;
    let tx = level.tiles_x as int;
    let ty = level.tiles_y as int;
    lemma_axis_step(x, ux, speed, w, tx);
    lemma_axis_step(y, uy, speed, h, ty);
    lemma_tile_in_range(x, w, tx);
    lemma_tile_in_range(y, h, ty);
    lemma_tile_in_range(x + ux * speed, w, tx);
    lemma_tile_in_range(y + uy * speed, h, ty);
}

/// `n` ticks with no key held.
pub open spec fn idle_ticks(n: nat) -> Seq<Pressed> {
    Seq::new(n, |i: int| no_keys())
}

/// Floors of a sum: `floor(a / w) + floor(e / w)` plus nothing or one.
proof fn lemma_floor_sum(a: int, e: int, w: int)
    requires
        0 < w,
    ensures
        a / w + e / w <= (a + e) / w <= a / w + e / w + 1,
{
    lemma_fundamental_div_mod(a, w);
    lemma_fundamental_div_mod(e, w);
    lemma_fundamental_div_mod(a + e, w);
    let q1 = a / w;
    let q2 = e / w;
    let q3 = (a + e) / w;
    assert(q1 + q2 <= q3 <= q1 + q2 + 1) by (nonlinear_arith)
        requires
            a == w * q1 + a % w,
            e == w * q2 + e % w,
            a + e == w * q3 + (a + e) % w,
            0 <= a % w < w,
            0 <= e % w < w,
            0 <= (a + e) % w < w,
            0 < w,
    ;
}

/// With no key held and no turn buffered, `n` ticks carry the snake `n` steps
/// straight on, keeping its committed tile the one that holds it.
pub proof fn lemma_straight_run(s: Snake, level: Level, speed: int, n: nat)
    requires
        level.wf(),
        s.tracks(level),
        s.head.next_direction == s.head.direction,
        0 <= speed <= COORD_LIMIT,
        -COORD_LIMIT <= s.translation.x + unit_of(s.head.direction).0 * (n * speed) <= COORD_LIMIT,
        -COORD_LIMIT <= s.translation.y + unit_of(s.head.direction).1 * (n * speed) <= COORD_LIMIT,
    ensures
        ({
            let r = run(s, idle_ticks(n), level, speed);
            &&& r.head == s.head
            &&& r.tracks(level)
            &&& r.translation.x == s.translation.x + unit_of(s.head.direction).0 * (n * speed)
            &&& r.translation.y == s.translation.y + unit_of(s.head.direction).1 * (n * speed)
        }),
    decreases n,
{
    if n > 0 {
        let m = (n - 1) as nat;
        assert(idle_ticks(n).drop_last() =~= idle_ticks(m));
        assert(m * speed == n * speed - speed) by (nonlinear_arith)
            requires
                m == n - 1,
        ;
        assert(0 <= m * speed <= n * speed) by (nonlinear_arith)
            requires
                m == n - 1,
                0 <= speed,
                n > 0,
        ;
        let (ux, uy) = unit_of(s.head.direction);
        let x = s.translation.x as int;
        let y = s.translation.y as int;
        assert(-COORD_LIMIT <= x + ux * (m * speed) <= COORD_LIMIT && -COORD_LIMIT <= y + uy * (
        m * speed) <= COORD_LIMIT) by (nonlinear_arith)
            requires
                ux == -1 || ux == 0 || ux == 1,
                uy == -1 || uy == 0 || uy == 1,
                0 <= m * speed <= n * speed,
                -COORD_LIMIT <= x + ux * (n * speed) <= COORD_LIMIT,
                -COORD_LIMIT <= y + uy * (n * speed) <= COORD_LIMIT,
                -COORD_LIMIT <= x <= COORD_LIMIT,
                -COORD_LIMIT <= y <= COORD_LIMIT,
        ;
        lemma_straight_run(s, level, speed, m);
        let prev = run(s, idle_ticks(m), level, speed);
        assert(after_input(prev.head, no_keys()) == prev.head);
        assert(idle_ticks(n).last() == no_keys());
        let r = run(s, idle_ticks(n), level, speed);
        assert(r == after_move(prev, level, speed));
        assert(x + ux * (m * speed) + ux * speed == x + ux * (n * speed) && y + uy * (m * speed)
            + uy * speed == y + uy * (n * speed)) by (nonlinear_arith)
            requires
                m * speed == n * speed - speed,
        ;
        assert(r.translation.x == x + ux * (n * speed));
        assert(r.translation.y == y + uy * (n * speed));
        lemma_tile_in_range(r.translation.x as int, level.width as int, level.tiles_x as int);
        lemma_tile_in_range(r.translation.y as int, level.height as int, level.tiles_y as int);
    } else {
        assert(n * speed == 0) by (nonlinear_arith)
            requires
                n == 0,
        ;
        assert(idle_ticks(n).len() == 0);
    }
}

/// Travelling straight for `n` ticks at speed `speed` on tiles `pitch` wide,
/// the snake enters `floor(n * speed / pitch)` new tiles, or one more: one
/// tile every `pitch / speed` ticks.
pub proof fn lemma_tiles_per_run(s: Snake, level: Level, speed: int, n: nat)
    requires
        level.wf(),
        s.tracks(level),
        s.head.next_direction == s.head.direction,
        0 <= speed <= COORD_LIMIT,
        -COORD_LIMIT <= s.translation.x + unit_of(s.head.direction).0 * (n * speed) <= COORD_LIMIT,
        -COORD_LIMIT <= s.translation.y + unit_of(s.head.direction).1 * (n * speed) <= COORD_LIMIT,
    ensures
        ({
            let r = run(s, idle_ticks(n), level, speed).position;
            let kx = (n * speed * level.tiles_x) / (level.width as int);
            let ky = (n * speed * level.tiles_y) / (level.height as int);
            let (ux, uy) = unit_of(s.head.direction);
            &&& ux == 0 ==> r.x == s.position.x
            &&& uy == 0 ==> r.y == s.position.y
            &&& ux == 1 ==> kx <= r.x - s.position.x <= kx + 1
            &&& ux == -1 ==> kx <= s.position.x - r.x <= kx + 1
            &&& uy == 1 ==> ky <= r.y - s.position.y <= ky + 1
            &&& uy == -1 ==> ky <= s.position.y - r.y <= ky + 1
        }),
{
    lemma_straight_run(s, level, speed, n);
    let r = run(s, idle_ticks(n), level, speed);
    let d = n * speed;
    let x = s.translation.x as int;
    let y = s.translation.y as int;
    let w = level.width as int;
    let h = level.height as int;
    let tx = level.tiles_x as int;
    let ty = level.tiles_y as int;
    lemma_tile_in_range(x, w, tx);
    lemma_tile_in_range(y, h, ty);
    lemma_tile_in_range(r.translation.x as int, w, tx);
    lemma_tile_in_range(r.translation.y as int, h, ty);
    assert((x + d) * tx == x * tx + n * speed * tx && (x - d) * tx + n * speed * tx == x * tx)
        by (nonlinear_arith)
        requires
            d == n * speed,
    ;
    assert((y + d) * ty == y * ty + n * speed * ty && (y - d) * ty + n * speed * ty == y * ty)
        by (nonlinear_arith)
        requires
            d == n * speed,
    ;
    lemma_floor_sum(x * tx, n * speed * tx, w);
    lemma_floor_sum((x - d) * tx, n * speed * tx, w);
    lemma_floor_sum(y * ty, n * speed * ty, h);
    lemma_floor_sum((y - d) * ty, n * speed * ty, h);
}

} // verus!
