//! The grid on which all positions, sizes and speeds are measured.

use vstd::prelude::*;

verus! {

/// Grid steps per screen pixel. A position of `1_500` is one and a half
/// pixels from the origin, which is the centre of the window.
pub const UNITS_PER_PIXEL: i32 = 1_000;

/// Width of the window.
pub const WINDOW_WIDTH: i32 = 1_280_000;

/// Height of the window.
pub const WINDOW_HEIGHT: i32 = 800_000;

} // verus!
