use vstd::prelude::*;

use crate::direction::desired_direction_spec;
use crate::direction::steer;
use crate::direction::steer_spec;
use crate::direction::Direction;
use crate::grid::step;
use crate::grid::step_spec;
use crate::grid::Position;
use crate::render::Size;
use crate::timer::MovementTimer;

verus! {

/// The snake's head: holds the current facing; exactly one exists in a game.
#[derive(Clone, Copy, PartialEq, Eq, Structural, Debug)]
pub struct SnakeHead {
    pub direction: Direction,
}

/// The initial snake head: facing up, at grid position (3, 3), drawn eight
/// tenths of a tile square.
pub fn spawn_snake() -> (r: (SnakeHead, Position, Size))
    ensures
        r.0.direction == Direction::Up,
        r.1 == (Position { x: 3, y: 3 }),
        r.2.width == 8 && r.2.height == 8,
{
    (
        SnakeHead { direction: Direction::Up },
        Position { x: 3, y: 3 },
        Size::square(8),
    )
}

/// Per-frame input handling: the arrow keys held this frame pick a desired
/// direction in the fixed priority order left, down, up, right (none held
/// keeps the current direction), and the head adopts it unless it is the
/// exact opposite of the current facing.
pub fn snake_movement_input(
    head: &mut SnakeHead,
    left: bool,
    down: bool,
    up: bool,
    right: bool,
)
    ensures
        final(head).direction == steer_spec(
            old(head).direction,
            desired_direction_spec(left, down, up, right, old(head).direction),
        ),
{
    let dir: Direction = if left {
        Direction::Left
    } else if down {
        Direction::Down
    } else if up {
        Direction::Up
    } else if right {
        Direction::Right
    } else {
        head.direction
    };
    head.direction = steer(head.direction, dir);
}

/// Per-frame movement: advances the movement timer by the frame's delta and,
/// exactly when the timer fires, moves the head one tile in its current
/// facing with wrap-around; otherwise the position is untouched. Returns
/// whether the timer fired.
pub fn snake_movement(
    timer: &mut MovementTimer,
    delta_micros: u64,
    head: &SnakeHead,
    pos: &mut Position,
) -> (moved: bool)
    requires
        old(timer).timer.wf(),
        delta_micros <= u64::MAX - old(timer).timer.period_micros,
    ensures
        final(timer).timer.wf(),
        final(timer).timer.period_micros == old(timer).timer.period_micros,
        moved <==> old(timer).timer.elapsed_micros + delta_micros
            >= old(timer).timer.period_micros,
        final(timer).timer.elapsed_micros == (old(timer).timer.elapsed_micros + delta_micros) % (
        old(timer).timer.period_micros as int),
        moved ==> *final(pos) == step_spec(*old(pos), head.direction),
        !moved ==> *final(pos) == *old(pos),
{
    let fired = timer.timer.tick(delta_micros);
    if fired {
        *pos = step(*pos, head.direction);
    }
    fired
}

} // verus!
