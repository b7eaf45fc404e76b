//! Helpers for tables of cells.

use vstd::prelude::*;

use crate::cell::Cell;

verus! {

/// The eight cells of `lhs` followed by `rhs`.
pub fn add_cell_arrays(lhs: [Cell; 4], rhs: [Cell; 4]) -> (all: [Cell; 8])
    ensures
        all@ == lhs@ + rhs@,
{
    [lhs[0], lhs[1], lhs[2], lhs[3], rhs[0], rhs[1], rhs[2], rhs[3]]
}

/// Half of `v`, rounded towards negative infinity.
pub fn half_floor(v: i32) -> (half: i32)
    ensures
        half == (v as int) / 2,
{
    if v >= 0 {
        v / 2
    } else {
        -((-(v + 1)) / 2) - 1
    }
}

/// Half of `v`, rounded towards positive infinity.
pub fn half_ceil(v: i32) -> (half: i32)
    ensures
        half == (v as int + 1) / 2,
{
    if v == i32::MAX {
        v / 2 + 1
    } else {
        half_floor(v + 1)
    }
}

} // verus!
