//! The player ship's input directions, read from the pressed keys.

use vstd::prelude::*;

verus! {

/// The signed difference of two opposing keys: +1, 0 or -1.
pub open spec fn key_axis(positive: bool, negative: bool) -> int {
    (if positive { 1int } else { 0int }) - (if negative { 1int } else { 0int })
}

/// Turning direction: +1 turns left (A), -1 turns right (D), 0 when
/// neither or both are held.
pub fn rotation_direction(turn_left: bool, turn_right: bool) -> (direction: i8)
    ensures
        direction == key_axis(turn_left, turn_right),
{
    let mut direction: i8 = 0;
    if turn_left {
        direction = direction + 1;
    }
    if turn_right {
        direction = direction - 1;
    }
    direction
}

/// Thrust direction: +1 forward (W), -1 backward (S), 0 when neither or
/// both are held.
pub fn movement_direction(forward: bool, backward: bool) -> (direction: i8)
    ensures
        direction == key_axis(forward, backward),
{
    let mut direction: i8 = 0;
    if forward {
        direction = direction + 1;
    }
    if backward {
        direction = direction - 1;
    }
    direction
}

/// Opposing keys cancel, and swapping them reverses the direction.
pub proof fn lemma_opposing_keys(a: bool, b: bool)
    ensures
        key_axis(a, a) == 0,
        key_axis(a, b) == -key_axis(b, a),
        -1 <= key_axis(a, b) <= 1,
{
}

} // verus!
