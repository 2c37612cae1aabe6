//! Layout of the left-multiplication matrix of a quaternion.
//!
//! For a left operand `[w, x, y, z]` the matrix is
//!
//! ```text
//! [ w  -x  -y  -z ]
//! [ x   w  -z   y ]
//! [ y   z   w  -x ]
//! [ z  -y   x   w ]
//! ```
//!
//! so that the matrix applied to the right operand's components gives the
//! Hamilton product. Every entry is one component of the left operand, with
//! or without a change of sign; the two tables below say which.

use vstd::prelude::*;

verus! {

/// Index of the component that stands at (`row`, `col`).
pub open spec fn source(row: int, col: int) -> int {
    if row == 0 {
        col
    } else if row == 1 {
        if col == 0 {
            1
        } else if col == 1 {
            0
        } else if col == 2 {
            3
        } else {
            2
        }
    } else if row == 2 {
        if col == 0 {
            2
        } else if col == 1 {
            3
        } else if col == 2 {
            0
        } else {
            1
        }
    } else {
        3 - col
    }
}

/// Whether the component at (`row`, `col`) stands there with its sign changed:
/// in the first row off the diagonal, and at the three places (1, 2), (2, 3), (3, 1).
pub open spec fn flipped(row: int, col: int) -> bool {
    (row == 0 && col != 0) || (row == 1 && col == 2) || (row == 2 && col == 3) || (row == 3 && col
        == 1)
}

} // verus!
