//! Neighbour offsets on a square grid.

use vstd::prelude::*;

use crate::cell::helpers::add_cell_arrays;
use crate::cell::Cell;

verus! {

impl Cell {
    /// The offsets of the four neighbours that share an edge: east, north,
    /// west, south.
    pub fn square_primary_offsets() -> (offsets: [Cell; 4])
        ensures
            offsets@ == seq![
                Cell::of(1, 0),
                Cell::of(0, 1),
                Cell::of(-1, 0),
                Cell::of(0, -1),
            ],
    {
        [Cell::new(1, 0), Cell::new(0, 1), Cell::new(-1, 0), Cell::new(0, -1)]
    }

    /// The offsets of the four neighbours that share a corner only.
    pub fn square_diagonal_offsets() -> (offsets: [Cell; 4])
        ensures
            offsets@ == seq![
                Cell::of(1, 1),
                Cell::of(-1, 1),
                Cell::of(-1, -1),
                Cell::of(1, -1),
            ],
    {
        [Cell::new(1, 1), Cell::new(-1, 1), Cell::new(-1, -1), Cell::new(1, -1)]
    }

    /// The offsets of all eight neighbours: the diagonal ones, then the
    /// primary ones.
    pub fn square_offsets() -> (offsets: [Cell; 8])
        ensures
            offsets@ == seq![
                Cell::of(1, 1),
                Cell::of(-1, 1),
                Cell::of(-1, -1),
                Cell::of(1, -1),
                Cell::of(1, 0),
                Cell::of(0, 1),
                Cell::of(-1, 0),
                Cell::of(0, -1),
            ],
    {
        add_cell_arrays(Cell::square_diagonal_offsets(), Cell::square_primary_offsets())
    }
}

} // verus!
