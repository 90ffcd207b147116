use vstd::prelude::*;

verus! {

/// The direction the paddle is steered in: `-1` to the left (arrow left or
/// `A`), `+1` to the right (arrow right or `D`); both sides together cancel.
pub open spec fn steering(left: bool, key_a: bool, right: bool, key_d: bool) -> int {
    (if right || key_d { 1int } else { 0int }) - (if left || key_a { 1int } else { 0int })
}

/// The paddle's direction for the keys held this frame.
pub fn paddle_direction(left: bool, key_a: bool, right: bool, key_d: bool) -> (dir: i8)
    ensures
        dir == steering(left, key_a, right, key_d),
        -1 <= dir <= 1,
        (left || key_a) && !(right || key_d) ==> dir == -1,
        !(left || key_a) && (right || key_d) ==> dir == 1,
        (left || key_a) == (right || key_d) ==> dir == 0,
{
    let mut dir: i8 = 0;
    if left || key_a {
        dir = dir - 1;
    }
    if right || key_d {
        dir = dir + 1;
    }
    dir
}

/// Steering is mirror-symmetric: swapping the left keys with the right keys
/// reverses the direction.
pub proof fn lemma_steering_mirror(left: bool, key_a: bool, right: bool, key_d: bool)
    ensures
        steering(left, key_a, right, key_d) == -steering(right, key_d, left, key_a),
{
}

/// Holding a key of each side leaves the paddle where it is, and with no key
/// held it does not move either.
pub proof fn lemma_steering_cancels(left: bool, key_a: bool, right: bool, key_d: bool)
    ensures
        (left || key_a) == (right || key_d) ==> steering(left, key_a, right, key_d) == 0,
{
}

/// A side's keys steer that way only when the other side's keys are not
/// held: left alone gives `-1`, right alone gives `+1`, anything else `0`.
pub proof fn lemma_steering_values(left: bool, key_a: bool, right: bool, key_d: bool)
    ensures
        (left || key_a) && !(right || key_d) ==> steering(left, key_a, right, key_d) == -1,
        !(left || key_a) && (right || key_d) ==> steering(left, key_a, right, key_d) == 1,
        (left || key_a) == (right || key_d) ==> steering(left, key_a, right, key_d) == 0,
{
}

} // verus!
