use vstd::prelude::*;

verus! {

/// Visual size of an entity, in tenths of an arena tile per axis; purely a
/// render-scaling input, static after creation.
#[derive(Clone, Copy, PartialEq, Eq, Structural, Debug)]
pub struct Size {
    pub width: u32,
    pub height: u32,
}

impl Size {
    /// A square size: both axes are `x` tenths of a tile.
    pub fn square(x: u32) -> (s: Size)
        ensures
            s.width == x,
            s.height == x,
    {
        Size { width: x, height: x }
    }
}

/// The pixel coordinate that grid coordinate `pos` maps to, scaled by
/// `10 * bound_game` so that it is exact in integers: the mapping in pixels
/// is `pos * bound_window / bound_game - bound_game / 2 + tile_size / 2`
/// with `tile_size == bound_window / bound_game`, and multiplying it by
/// `10 * bound_game` gives this value.
pub open spec fn translate_spec(pos: int, bound_window: int, bound_game: int) -> int {
    10 * pos * bound_window - 5 * bound_game * bound_game + 5 * bound_window
}

/// Maps a grid coordinate to a pixel coordinate, returned in units of
/// `1 / (10 * bound_game)` of a pixel so the result is exact. With the
/// 10-tile arena the unit is a hundredth of a pixel.
pub fn position_translation(pos: i32, bound_window: u32, bound_game: u32) -> (r: i128)
    ensures
        r == translate_spec(pos as int, bound_window as int, bound_game as int),
{
    let p: i128 = pos as i128;
    let w: i128 = bound_window as i128;
    let g: i128 = bound_game as i128;
    proof {
        assert((-0x80000000 <= p <= 0x7fffffff && 0 <= w <= 0xffffffff && 0 <= g
            <= 0xffffffff) ==> (-0xa0000000000000000 <= 10 * p * w <= 0xa0000000000000000 && 0 <= 5
            * g * g <= 0x50000000000000000)) by (nonlinear_arith);
    }
    10 * p * w - 5 * g * g + 5 * w
}

/// Law: for fixed window and arena dimensions the grid-to-pixel mapping is
/// affine in the grid coordinate, with slope `10 * bound_window` in scaled
/// units; with the intercept fixed, the same grid coordinate therefore
/// always maps to the same pixel coordinate.
pub proof fn lemma_translate_affine(pos: int, bound_window: int, bound_game: int)
    ensures
        translate_spec(pos, bound_window, bound_game) == 10 * bound_window * pos + (5 * bound_window
            - 5 * bound_game * bound_game),
{
    assert(10 * pos * bound_window == 10 * bound_window * pos) by (nonlinear_arith);
}

/// The render scale factor for one axis, in units of
/// `1 / (10 * arena dimension)` of a pixel: a sprite `t` tenths of a tile
/// wide on a window `w` pixels wide scales to `t * w / (10 * arena)` pixels,
/// and this value is the exact numerator `t * w`.
pub open spec fn scale_spec(size_tenths: int, bound_window: int) -> int {
    size_tenths * bound_window
}

/// Scales an entity's visual size by the window resolution: each axis of the
/// result is the size in tenths of a tile times the window dimension in
/// pixels, in units of `1 / (10 * arena dimension)` of a pixel. With the
/// 10-tile arena the unit is a hundredth of a pixel.
pub fn size_scaling(size: &Size, window_width: u32, window_height: u32) -> (r: (u64, u64))
    ensures
        r.0 == scale_spec(size.width as int, window_width as int),
        r.1 == scale_spec(size.height as int, window_height as int),
{
    proof {
        assert((0 <= size.width <= 0xffffffff && 0 <= window_width <= 0xffffffff && 0 <= size.height
            <= 0xffffffff && 0 <= window_height <= 0xffffffff) ==> (0 <= size.width
            * window_width < 0xffffffffffffffff && 0 <= size.height * window_height
            < 0xffffffffffffffff)) by (nonlinear_arith);
    }
    ((size.width as u64) * (window_width as u64), (size.height as u64) * (window_height as u64))
}

} // verus!
