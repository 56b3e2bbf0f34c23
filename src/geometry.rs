//! Screen layout: the window, the square cells drawn on it, and the mapping
//! between pixel coordinates and cell indices.
use vstd::prelude::*;

verus! {

/// Width of the window, in pixels.
pub const WIDTH: i32 = 600;

/// Height of the window, in pixels.
pub const HEIGHT: i32 = 600;

/// Number of cells along each side of the board.
pub const NUMBER_OF_SQUARES: i32 = 30;

/// Side of one cell, in pixels.
pub const SQUARE_SIZE: i32 = 20;

/// An RGBA colour, one byte per channel.
#[derive(Clone, Copy, Debug, PartialEq, Eq, Structural)]
pub struct Color {
    pub r: u8,
    pub g: u8,
    pub b: u8,
    pub a: u8,
}

/// A point on the screen, in pixels.
#[derive(Clone, Copy, Debug, PartialEq, Eq, Structural)]
pub struct Vector2 {
    pub x: i32,
    pub y: i32,
}

/// The cell index that holds pixel coordinate `n`: `n / SQUARE_SIZE`,
/// rounded down (towards minus infinity).
pub open spec fn cell_of(n: int) -> int {
    n / (SQUARE_SIZE as int)
}

/// The pixel coordinate at which cell index `n` starts.
pub open spec fn pixel_of(n: int) -> int {
    n * (SQUARE_SIZE as int)
}

/// Maps a pixel coordinate to the index of the cell that holds it.
pub fn denormalize(n: i32) -> (r: i32)
    ensures
        r as int == cell_of(n as int),
        pixel_of(r as int) <= n < pixel_of(r as int) + SQUARE_SIZE,
{
    if n >= 0 {
        let q: i32 = n / SQUARE_SIZE;
        q
    } else {
        let p: u64 = (0i64 - n as i64) as u64;
        let side: u64 = SQUARE_SIZE as u64;
        let q: u64 = (p + side - 1) / side;
        let r: i32 = (0i64 - q as i64) as i32;
        r
    }
}

/// Maps a cell index to the pixel coordinate at which the cell starts.
pub fn normalize(n: i32) -> (r: i32)
    requires
        i32::MIN <= pixel_of(n as int) <= i32::MAX,
    ensures
        r as int == pixel_of(n as int),
{
    n * SQUARE_SIZE
}

/// The offsets, from 0 to `extent`, at which the lines between cells of
/// side `step` are drawn: every multiple of `step` up to `extent`.
pub fn grid_lines(extent: i32, step: i32) -> (v: Vec<i32>)
    requires
        0 < step,
        0 <= extent,
        extent + step <= i32::MAX,
    ensures
        v@.len() == extent / step + 1,
        forall|i: int| 0 <= i < v@.len() ==> #[trigger] v@[i] == i * step,
{
    let mut v: Vec<i32> = Vec::new();
    let mut x: i32 = 0;
    assert(v@.len() * step == 0) by (nonlinear_arith)
        requires v@.len() == 0;
    while x <= extent
        invariant
            0 < step,
            0 <= extent,
            extent + step <= i32::MAX,
            x == v@.len() * step,
            x <= extent + step,
            v@.len() <= extent / step + 1,
            forall|i: int| 0 <= i < v@.len() ==> #[trigger] v@[i] == i * step,
        decreases extent + step - x,
    {
        proof {
            let k = v@.len() as int;
            assert(k * step <= extent);
            assert(k <= extent / step) by (nonlinear_arith)
                requires k * step <= extent, 0 < step, 0 <= k;
            assert((k + 1) * step == k * step + step) by (nonlinear_arith);
        }
        v.push(x);
        x = x + step;
    }
    proof {
        let k = v@.len() as int;
        assert(k * step > extent);
        assert(k >= extent / step + 1) by (nonlinear_arith)
            requires k * step > extent, 0 < step, 0 <= extent;
    }
    v
}

} // verus!
