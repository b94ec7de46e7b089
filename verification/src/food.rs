use vstd::prelude::*;

use crate::grid::Position;
use crate::render::Size;
use crate::timer::FoodSpawnTimer;
use crate::ARENA_HEIGHT;
use crate::ARENA_WIDTH;

verus! {

/// Marker for a food entity; food carries no state beyond its position and
/// size, and is never removed once spawned.
#[derive(Clone, Copy, PartialEq, Eq, Structural, Debug)]
pub struct Food;

/// `pos` lies within the arena's centered bounds: each coordinate is a
/// centered offset, at least minus half the arena dimension and strictly
/// below the other half.
pub open spec fn in_centered_bounds(pos: Position) -> bool {
    &&& -(ARENA_WIDTH as int / 2) <= pos.x < ARENA_WIDTH as int - ARENA_WIDTH as int / 2
    &&& -(ARENA_HEIGHT as int / 2) <= pos.y < ARENA_HEIGHT as int - ARENA_HEIGHT as int / 2
}

/// Relies on rand::random::<u32>: a fresh draw from the thread-local
/// generator; nothing is promised of its value.
#[verifier::external_body]
fn random_u32() -> u32 {
    rand::random::<u32>()
}

/// Folds a raw random draw into a centered offset for an axis of `size`
/// tiles: the draw is reduced modulo `size` and shifted down by half of
/// `size`, landing in `[-size / 2, size - size / 2)`.
pub fn centered_offset(raw: u32, size: u32) -> (o: i32)
    requires
        0 < size <= 0x7fffffff,
    ensures
        o == raw as int % size as int - size as int / 2,
        -(size as int / 2) <= o < size as int - size as int / 2,
{
    let m: u32 = raw % size;
    (m as i32) - ((size / 2) as i32)
}

/// A uniformly random position within the arena's centered bounds, drawn
/// independently per axis. The draw itself is random, so only the bounds are
/// promised, and they hold of every outcome.
pub fn random_food_position() -> (p: Position)
    ensures
        in_centered_bounds(p),
{
    let rx = random_u32();
    let ry = random_u32();
    Position { x: centered_offset(rx, ARENA_WIDTH), y: centered_offset(ry, ARENA_HEIGHT) }
}

/// Per-frame food spawning: advances the spawn timer by the frame's delta
/// and, exactly when the timer fires, produces a food entity at a random
/// position within the arena's centered bounds, drawn eight tenths of a tile
/// square; otherwise nothing is spawned.
pub fn food_spawner(timer: &mut FoodSpawnTimer, delta_micros: u64) -> (spawned: Option<
    (Food, Position, Size),
>)
    requires
        old(timer).timer.wf(),
        delta_micros <= u64::MAX - old(timer).timer.period_micros,
    ensures
        final(timer).timer.wf(),
        final(timer).timer.period_micros == old(timer).timer.period_micros,
        spawned is Some <==> old(timer).timer.elapsed_micros + delta_micros
            >= old(timer).timer.period_micros,
        final(timer).timer.elapsed_micros == (old(timer).timer.elapsed_micros + delta_micros) % (
        old(timer).timer.period_micros as int),
        spawned is Some ==> in_centered_bounds((spawned->0).1) && (spawned->0).2.width == 8
            && (spawned->0).2.height == 8,
{
    let fired = timer.timer.tick(delta_micros);
    if fired {
        let pos = random_food_position();
        Some((Food, pos, Size::square(8)))
    } else {
        None
    }
}

} // verus!
