//! The fixed palette the animation cycles through, and the map from
//! the tick counter to the color of the current frame.

use vstd::prelude::*;

verus! {

/// One entry of the fixed five-color palette, in cycling order.
#[derive(Clone, Copy, Debug, PartialEq, Eq)]
pub enum PaletteColor {
    Red,
    Yellow,
    Magenta,
    LightRed,
    LightMagenta,
}

/// Number of entries in the palette.
pub const PALETTE_LEN: u64 = 5;

/// The palette entry at position `i`, for `0 <= i < 5`.
pub open spec fn palette_at(i: int) -> PaletteColor
    recommends
        0 <= i < PALETTE_LEN,
{
    if i == 0 {
        PaletteColor::Red
    } else if i == 1 {
        PaletteColor::Yellow
    } else if i == 2 {
        PaletteColor::Magenta
    } else if i == 3 {
        PaletteColor::LightRed
    } else {
        PaletteColor::LightMagenta
    }
}

/// The color a tick count selects: the palette entry at `tick mod 5`.
pub open spec fn color_of(tick: int) -> PaletteColor
    recommends
        tick >= 0,
{
    palette_at(tick % (PALETTE_LEN as int))
}

/// Map the animation tick to the color of the frame it draws.
pub fn rainbow_color(tick: u64) -> (c: PaletteColor)
    ensures
        c == color_of(tick as int),
{
    let idx: u64 = tick % PALETTE_LEN;
    if idx == 0 {
        PaletteColor::Red
    } else if idx == 1 {
        PaletteColor::Yellow
    } else if idx == 2 {
        PaletteColor::Magenta
    } else if idx == 3 {
        PaletteColor::LightRed
    } else {
        PaletteColor::LightMagenta
    }
}

/// The palette cycles with period five: a tick and the tick five later
/// select the same color, and every selected color is one of the five
/// palette entries.
pub proof fn lemma_color_cycles(tick: int)
    requires
        tick >= 0,
    ensures
        color_of(tick + 5) == color_of(tick),
        exists|i: int| 0 <= i < PALETTE_LEN && color_of(tick) == palette_at(i),
{
    assert((tick + 5) % 5 == tick % 5) by (nonlinear_arith);
    assert(0 <= tick % 5 < 5) by (nonlinear_arith);
    assert(color_of(tick) == palette_at(tick % 5));
}

} // verus!
