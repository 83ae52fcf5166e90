//! Turns the raw "is this key held" answers into one directional signal.

use vstd::prelude::*;

verus! {

/// The direction the two vertical keys resolve to: the "up" key contributes
/// `+1`, the "down" key `-1`, so holding both (or neither) cancels to `0`.
pub open spec fn direction_of(up: bool, down: bool) -> int {
    (if up { 1int } else { 0int }) + (if down { -1int } else { 0int })
}

/// Resolves the held keys to a single scalar direction.
pub fn resolve_direction(up_pressed: bool, down_pressed: bool) -> (direction: i64)
    ensures
        direction == direction_of(up_pressed, down_pressed),
        up_pressed && !down_pressed ==> direction == 1,
        down_pressed && !up_pressed ==> direction == -1,
        up_pressed == down_pressed ==> direction == 0,
        -1 <= direction <= 1,
{
    let mut direction: i64 = 0;
    if up_pressed {
        direction = direction + 1;
    }
    if down_pressed {
        direction = direction - 1;
    }
    direction
}

} // verus!
