//! Relative pointer movement: where a move request sends the pointer.

use vstd::prelude::*;
use vstd::math::{max, min};

verus! {

/// Absolute pointer coordinates on the screen, in pixels.
#[derive(Clone, Copy, Debug, PartialEq, Eq, Structural)]
pub struct PointerPosition {
    pub x: i32,
    pub y: i32,
}

/// A requested relative movement, in pixels.
#[derive(Clone, Copy, Debug, PartialEq, Eq, Structural)]
pub struct MouseDelta {
    pub x: i32,
    pub y: i32,
}

/// `v` brought into the range of `i32`.
pub open spec fn saturate_i32(v: int) -> int {
    if v < i32::MIN {
        i32::MIN as int
    } else if v > i32::MAX {
        i32::MAX as int
    } else {
        v
    }
}

/// Where the system puts a pointer asked to go to coordinate `v` on an axis
/// `extent` pixels long: the nearest pixel of `0 .. extent`.
pub open spec fn screen_clamp(v: int, extent: int) -> int {
    if v < 0 {
        0
    } else if v > extent - 1 {
        extent - 1
    } else {
        v
    }
}

/// `pos` moved by `delta`, each coordinate kept within `i32`.
pub open spec fn moved(pos: PointerPosition, delta: MouseDelta) -> PointerPosition {
    PointerPosition {
        x: saturate_i32(pos.x + delta.x) as i32,
        y: saturate_i32(pos.y + delta.y) as i32,
    }
}

/// `a + b`, or the nearest bound of `i32` where the sum leaves it.
pub fn saturating_sum(a: i32, b: i32) -> (r: i32)
    ensures
        r == saturate_i32(a + b),
{
    match a.checked_add(b) {
        Some(s) => s,
        None => if b > 0 {
            i32::MAX
        } else {
            i32::MIN
        },
    }
}

/// The absolute position to move the pointer to: `pos` moved by `delta`.
pub fn target_position(pos: PointerPosition, delta: MouseDelta) -> (r: PointerPosition)
    ensures
        r == moved(pos, delta),
{
    PointerPosition { x: saturating_sum(pos.x, delta.x), y: saturating_sum(pos.y, delta.y) }
}

/// On a screen `w` by `h` pixels, a pointer at `pos` moved by `delta` ends
/// at `(min(max(pos.x + delta.x, 0), w - 1), min(max(pos.y + delta.y, 0), h - 1))`
/// once the system has clamped the target to the screen.
pub proof fn lemma_move_lands_clamped(pos: PointerPosition, delta: MouseDelta, w: int, h: int)
    requires
        0 < w <= i32::MAX + 1,
        0 < h <= i32::MAX + 1,
    ensures
        screen_clamp(moved(pos, delta).x as int, w) == min(max(pos.x + delta.x, 0), w - 1),
        screen_clamp(moved(pos, delta).y as int, h) == min(max(pos.y + delta.y, 0), h - 1),
{
}

} // verus!
