use vstd::prelude::*;

verus! {

/// Horizontal steering that the pressed keys ask for: `-1` moves left, `1` moves right.
/// Left (`A` or the left arrow) wins over right (`D` or the right arrow); with neither
/// pressed there is no request.
pub open spec fn spec_key_direction(a: bool, left: bool, d: bool, right: bool) -> Option<i32> {
    if a || left {
        Some(-1i32)
    } else if d || right {
        Some(1i32)
    } else {
        None
    }
}

/// Reads the four steering keys and returns the requested horizontal position change.
pub fn key_direction(a: bool, left: bool, d: bool, right: bool) -> (dir: Option<i32>)
    ensures
        dir == spec_key_direction(a, left, d, right),
        a || left ==> dir == Some(-1i32),
        !(a || left) && (d || right) ==> dir == Some(1i32),
        !(a || left || d || right) ==> dir is None,
{
    if a || left {
        Some(-1)
    } else if d || right {
        Some(1)
    } else {
        None
    }
}

} // verus!
