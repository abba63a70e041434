//! Movement by the arrow keys: up and down, and back and forth.
//!
//! These are capabilities that an entity can be given. No entity of the game
//! has one at present: the player moves by its own rule. An entity that has
//! one may be anywhere on the grid; a move that would leave the grid ends at
//! the grid's edge.

use vstd::prelude::*;

verus! {

/// Distance per frame of a move up or down.
pub const UP_DOWN_STEP: i32 = 2_000;

/// Distance per frame of the move to the right, while the right key is held.
pub const FORTH_STEP: i32 = 3_000;

/// Drift to the left per frame, while the right key is not held.
pub const BACK_STEP: i32 = 1_500;

/// The position `value` if it lies on the grid, else the edge of the grid on
/// the side of `value`.
pub open spec fn on_grid(value: int) -> int {
    if value > i32::MAX {
        i32::MAX as int
    } else if value < i32::MIN {
        i32::MIN as int
    } else {
        value
    }
}

/// Height, one frame later, of an entity at `y` that moves up and down: up
/// by a step if the up key is held, and then down by a step if the down key
/// is held.
pub open spec fn up_and_down(y: int, up: bool, down: bool) -> int {
    let risen = if up {
        on_grid(y + UP_DOWN_STEP)
    } else {
        y
    };
    if down {
        on_grid(risen - UP_DOWN_STEP)
    } else {
        risen
    }
}

/// Horizontal position, one frame later, of an entity at `x` that moves back
/// and forth: to the right while the right key is held, and drifting to the
/// left otherwise.
pub open spec fn back_and_forth(x: int, right: bool) -> int {
    if right {
        on_grid(x + FORTH_STEP)
    } else {
        on_grid(x - BACK_STEP)
    }
}

/// `position` moved by `step`, which may point either way, as far as the
/// grid reaches.
fn moved_on_grid(position: i32, step: i32) -> (moved: i32)
    ensures
        moved == on_grid(position + step),
{
    let sum: i64 = position as i64 + step as i64;
    if sum > i32::MAX as i64 {
        i32::MAX
    } else if sum < i32::MIN as i64 {
        i32::MIN
    } else {
        sum as i32
    }
}

/// Moves every entity that can move up and down by one frame: up by
/// [`UP_DOWN_STEP`] if `up` is held, and down by as much if `down` is held.
pub fn up_and_down_movement(up: bool, down: bool, heights: &mut Vec<i32>)
    ensures
        final(heights).len() == old(heights).len(),
        forall|i: int|
            0 <= i < old(heights).len() ==> #[trigger] final(heights)[i] == up_and_down(
                old(heights)[i] as int,
                up,
                down,
            ),
{
    let count: usize = heights.len();
    let mut i: usize = 0;
    while i < count
        invariant
            i <= count,
            heights.len() == count,
            count == old(heights).len(),
            forall|k: int|
                0 <= k < i ==> #[trigger] heights[k] == up_and_down(
                    old(heights)[k] as int,
                    up,
                    down,
                ),
            forall|k: int| i <= k < count ==> heights[k] == old(heights)[k],
        decreases count - i,
    {
        let mut y: i32 = heights[i];
        if up {
            y = moved_on_grid(y, UP_DOWN_STEP);
        }
        if down {
            y = moved_on_grid(y, -UP_DOWN_STEP);
        }
        heights.set(i, y);
        i += 1;
    }
}

/// Moves every entity that can move back and forth by one frame: to the
/// right by [`FORTH_STEP`] while `right` is held, to the left by
/// [`BACK_STEP`] otherwise.
pub fn back_and_forth_movement(right: bool, positions: &mut Vec<i32>)
    ensures
        final(positions).len() == old(positions).len(),
        forall|i: int|
            0 <= i < old(positions).len() ==> #[trigger] final(positions)[i] == back_and_forth(
                old(positions)[i] as int,
                right,
            ),
{
    let count: usize = positions.len();
    let mut i: usize = 0;
    while i < count
        invariant
            i <= count,
            positions.len() == count,
            count == old(positions).len(),
            forall|k: int|
                0 <= k < i ==> #[trigger] positions[k] == back_and_forth(
                    old(positions)[k] as int,
                    right,
                ),
            forall|k: int| i <= k < count ==> positions[k] == old(positions)[k],
        decreases count - i,
    {
        let x: i32 = positions[i];
        let moved: i32 = if right {
            moved_on_grid(x, FORTH_STEP)
        } else {
            moved_on_grid(x, -BACK_STEP)
        };
        positions.set(i, moved);
        i += 1;
    }
}

} // verus!
