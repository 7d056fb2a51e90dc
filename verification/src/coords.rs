//! Mapping between pixel coordinates and board squares.
//!
//! The viewport is an 8x8 grid of cells sized `width / 8` by `height / 8`.
//! Screen row 0 (the top of the window) shows rank 8, while the engine gives
//! rank 1 the square indices 0..8, so the forward mapping inverts the row
//! exactly once: square = `(7 - screenRow) * 8 + column`. Coordinates that
//! fall outside the grid (possible through rounding at the window's edge)
//! are clamped to the nearest square.

use vstd::prelude::*;
use vstd::arithmetic::div_mod::{lemma_div_multiples_vanish, lemma_fundamental_div_mod};
use vstd::math::min;

verus! {

/// The square index a click at pixel `(px, py)` lands on, in a viewport of
/// `vw` by `vh` pixels, with the column and screen row clamped to [0, 8).
pub open spec fn spec_to_square(px: int, py: int, vw: int, vh: int) -> int
    recommends
        px >= 0 && py >= 0 && vw >= 8 && vh >= 8,
{
    let col = min(px / (vw / 8), 7);
    let row = min(py / (vh / 8), 7);
    (7 - row) * 8 + col
}

/// The pixel coordinates of the top-left corner of the cell that draws
/// square `s` in a viewport of `vw` by `vh` pixels.
pub open spec fn spec_pixel_origin(s: int, vw: int, vh: int) -> (int, int)
    recommends
        0 <= s < 64 && vw >= 8 && vh >= 8,
{
    ((vw / 8) * (s % 8), (vh / 8) * (7 - s / 8))
}

/// Maps a pointer position to the board square under it.
pub fn to_square(px: u32, py: u32, vw: u32, vh: u32) -> (s: u8)
    requires
        vw >= 8,
        vh >= 8,
    ensures
        s == spec_to_square(px as int, py as int, vw as int, vh as int),
        s < 64,
{
    let cw: u32 = vw / 8;
    let ch: u32 = vh / 8;
    let mut col: u32 = px / cw;
    if col > 7 {
        col = 7;
    }
    let mut row: u32 = py / ch;
    if row > 7 {
        row = 7;
    }
    ((7 - row) * 8 + col) as u8
}

/// Maps a board square to the pixel origin of its cell.
pub fn to_pixel_origin(s: u8, vw: u32, vh: u32) -> (xy: (u32, u32))
    requires
        s < 64,
    ensures
        (xy.0 as int, xy.1 as int) == spec_pixel_origin(s as int, vw as int, vh as int),
{
    let cw: u32 = vw / 8;
    let ch: u32 = vh / 8;
    let col: u32 = (s % 8) as u32;
    let rank: u32 = (s / 8) as u32;
    proof {
        assert(cw * col <= cw * 7) by (nonlinear_arith)
            requires col <= 7 && cw >= 0;
        assert(cw * 8 <= vw && ch * 8 <= vh) by (nonlinear_arith)
            requires cw == vw as int / 8 && ch == vh as int / 8 && vw >= 0 && vh >= 0;
        assert(cw * 7 <= cw * 8 && ch * 7 <= ch * 8) by (nonlinear_arith)
            requires cw >= 0 && ch >= 0;
        assert(ch * (7 - rank) <= ch * 7) by (nonlinear_arith)
            requires rank <= 7 && ch >= 0;
    }
    (cw * col, ch * (7 - rank))
}

/// Mapping a square to its cell's pixel origin and that origin back to a
/// square returns the original square, for any viewport at least 8 pixels
/// wide and tall.
pub proof fn lemma_coord_round_trip(s: int, vw: int, vh: int)
    requires
        0 <= s < 64,
        vw >= 8,
        vh >= 8,
    ensures
        spec_to_square(
            spec_pixel_origin(s, vw, vh).0,
            spec_pixel_origin(s, vw, vh).1,
            vw,
            vh,
        ) == s,
{
    let cw = vw / 8;
    let ch = vh / 8;
    lemma_div_multiples_vanish(s % 8, cw);
    lemma_div_multiples_vanish(7 - s / 8, ch);
    lemma_fundamental_div_mod(s, 8);
}

} // verus!
