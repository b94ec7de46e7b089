use vstd::prelude::*;

verus! {

/// One of the four cardinal facings a snake head can have.
#[derive(Clone, Copy, PartialEq, Eq, Structural, Debug)]
pub enum Direction {
    Left,
    Up,
    Right,
    Down,
}

impl Direction {
    /// The facing opposite to `self`.
    pub open spec fn opposite_spec(self) -> Direction {
        match self {
            Direction::Left => Direction::Right,
            Direction::Right => Direction::Left,
            Direction::Up => Direction::Down,
            Direction::Down => Direction::Up,
        }
    }

    /// Returns the opposite facing: left and right swap, up and down swap.
    pub fn opposite(self) -> (r: Direction)
        ensures
            r == self.opposite_spec(),
    {
        match self {
            Direction::Left => Direction::Right,
            Direction::Right => Direction::Left,
            Direction::Up => Direction::Down,
            Direction::Down => Direction::Up,
        }
    }
}

/// The direction asked for by the arrow keys held this frame, checked in the
/// fixed priority order left, down, up, right; with no key held, the current
/// direction is kept.
pub open spec fn desired_direction_spec(
    left: bool,
    down: bool,
    up: bool,
    right: bool,
    current: Direction,
) -> Direction {
    if left {
        Direction::Left
    } else if down {
        Direction::Down
    } else if up {
        Direction::Up
    } else if right {
        Direction::Right
    } else {
        current
    }
}

/// The facing after asking to turn: the request is honoured unless it is the
/// exact opposite of the current facing, which would reverse the snake in
/// place and is ignored.
pub open spec fn steer_spec(current: Direction, desired: Direction) -> Direction {
    if desired == current.opposite_spec() {
        current
    } else {
        desired
    }
}

/// Applies a turn request to the current facing: a request equal to the
/// opposite of `current` leaves the facing unchanged, and any other request
/// (including `current` itself) becomes the new facing.
pub fn steer(current: Direction, desired: Direction) -> (d: Direction)
    ensures
        d == steer_spec(current, desired),
        desired == current.opposite_spec() ==> d == current,
        desired != current.opposite_spec() ==> d == desired,
{
    if desired == current.opposite() {
        current
    } else {
        desired
    }
}

/// Law: steering rejects exactly the reversal. For every pair of facings,
/// asking for the opposite of the current facing keeps the current facing,
/// and asking for anything else (the same facing included) adopts the
/// request.
pub proof fn lemma_steer_rejects_only_reversal(current: Direction, desired: Direction)
    ensures
        desired == current.opposite_spec() ==> steer_spec(current, desired) == current,
        desired != current.opposite_spec() ==> steer_spec(current, desired) == desired,
{
}

} // verus!
