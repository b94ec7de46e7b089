use vstd::prelude::*;

use crate::direction::Direction;
use crate::ARENA_HEIGHT;
use crate::ARENA_WIDTH;

verus! {

/// Integer grid coordinates of an entity in the arena.
///
/// No bounds invariant is imposed: movement reduces coordinates with the
/// sign-preserving (truncating) remainder, so a coordinate can be negative.
#[derive(Clone, Copy, PartialEq, Eq, Structural, Debug)]
pub struct Position {
    pub x: i32,
    pub y: i32,
}

/// Rust's truncating remainder of `a` by a positive modulus `m`: the result
/// keeps the sign of `a` and its magnitude stays below `m`.
pub open spec fn trunc_mod(a: int, m: int) -> int
    recommends
        m > 0,
{
    if a >= 0 {
        a % m
    } else {
        -((-a) % m)
    }
}

/// The position one tile from `pos` in direction `dir`, with the moved
/// coordinate reduced by the truncating remainder modulo the arena size.
pub open spec fn step_spec(pos: Position, dir: Direction) -> Position {
    match dir {
        Direction::Left => Position { x: trunc_mod(pos.x - 1, ARENA_WIDTH as int) as i32, y: pos.y },
        Direction::Right => Position { x: trunc_mod(pos.x + 1, ARENA_WIDTH as int) as i32, y: pos.y },
        Direction::Up => Position { x: pos.x, y: trunc_mod(pos.y + 1, ARENA_HEIGHT as int) as i32 },
        Direction::Down => Position { x: pos.x, y: trunc_mod(pos.y - 1, ARENA_HEIGHT as int) as i32 },
    }
}

/// `pos` lies within the band the truncating remainder can produce:
/// both coordinates strictly between `-size` and `size`.
pub open spec fn in_wrap_band(pos: Position) -> bool {
    &&& -(ARENA_WIDTH as int) < pos.x < ARENA_WIDTH as int
    &&& -(ARENA_HEIGHT as int) < pos.y < ARENA_HEIGHT as int
}

/// Truncating remainder of `v` by `m`, computed without overflow.
fn wrap_coord(v: i64, m: i64) -> (r: i64)
    requires
        0 < m,
        v > i64::MIN,
    ensures
        r == trunc_mod(v as int, m as int),
        -m < r < m,
{
    if v >= 0 {
        v % m
    } else {
        -((-v) % m)
    }
}

/// Moves `pos` one tile in direction `dir` and wraps the moved coordinate
/// modulo the arena dimensions with the truncating remainder, so the result
/// always lies strictly between `-size` and `size` on each moved axis.
pub fn step(pos: Position, dir: Direction) -> (r: Position)
    ensures
        r == step_spec(pos, dir),
        in_wrap_band(pos) ==> in_wrap_band(r),
{
    match dir {
        Direction::Left => {
            let wx = wrap_coord(pos.x as i64 - 1, ARENA_WIDTH as i64);
            Position { x: wx as i32, y: pos.y }
        }
        Direction::Right => {
            let wx = wrap_coord(pos.x as i64 + 1, ARENA_WIDTH as i64);
            Position { x: wx as i32, y: pos.y }
        }
        Direction::Up => {
            let wy = wrap_coord(pos.y as i64 + 1, ARENA_HEIGHT as i64);
            Position { x: pos.x, y: wy as i32 }
        }
        Direction::Down => {
            let wy = wrap_coord(pos.y as i64 - 1, ARENA_HEIGHT as i64);
            Position { x: pos.x, y: wy as i32 }
        }
    }
}

/// Law: one movement step never leaves the wrap band. A coordinate produced
/// by the truncating remainder stays strictly between `-size` and `size` on
/// the moved axis, and the other axis is untouched, so repeated steps keep
/// every coordinate inside the band.
pub proof fn lemma_step_stays_in_band(pos: Position, dir: Direction)
    requires
        in_wrap_band(pos),
    ensures
        in_wrap_band(step_spec(pos, dir)),
{
}

} // verus!
