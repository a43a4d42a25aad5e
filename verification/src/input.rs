//! Per-frame input decisions.
//!
//! The interactive systems move the cube and the camera by fixed steps when
//! certain characters arrive.  The decision — which character moves what,
//! and by how much — is a pure function from the character to integer
//! deltas; applying the deltas to the floating-point transforms is left to
//! the frame loop around the library.

use vstd::prelude::*;

verus! {

/// The step the cube takes for one typed character: `6` and `4` move it
/// along the x axis, `2` and `8` along the z axis, anything else not at all.
pub fn cube_move_delta(c: char) -> (d: (i8, i8))
    ensures
        d.0 == (if c == '6' {
            1i8
        } else if c == '4' {
            -1i8
        } else {
            0i8
        }),
        d.1 == (if c == '2' {
            1i8
        } else if c == '8' {
            -1i8
        } else {
            0i8
        }),
{
    let dx: i8 = if c == '6' {
        1
    } else if c == '4' {
        -1
    } else {
        0
    };
    let dz: i8 = if c == '2' {
        1
    } else if c == '8' {
        -1
    } else {
        0
    };
    (dx, dz)
}

/// The step the camera pans for one typed character: `d` and `a` along the
/// x axis, `s` and `w` along the z axis, anything else not at all.
pub fn camera_pan_delta(c: char) -> (d: (i8, i8))
    ensures
        d.0 == (if c == 'd' {
            1i8
        } else if c == 'a' {
            -1i8
        } else {
            0i8
        }),
        d.1 == (if c == 's' {
            1i8
        } else if c == 'w' {
            -1i8
        } else {
            0i8
        }),
{
    let dx: i8 = if c == 'd' {
        1
    } else if c == 'a' {
        -1
    } else {
        0
    };
    let dz: i8 = if c == 's' {
        1
    } else if c == 'w' {
        -1
    } else {
        0
    };
    (dx, dz)
}

/// The step the camera's scale takes for one typed character: `k` grows it
/// by two units, `j` shrinks it by two, anything else leaves it alone.
pub fn camera_zoom_delta(c: char) -> (d: i8)
    ensures
        d == (if c == 'k' {
            2i8
        } else if c == 'j' {
            -2i8
        } else {
            0i8
        }),
{
    if c == 'k' {
        2
    } else if c == 'j' {
        -2
    } else {
        0
    }
}

/// How far the camera sits from the cube it follows, along both the x and
/// the z axis.
pub fn camera_follow_offset() -> (d: u8)
    ensures
        d == 12u8,
{
    12
}

} // verus!
