//! Hexagonal coordinates: offset coordinates and neighbours.

use vstd::prelude::*;

use crate::cell::helpers::{half_ceil, half_floor};
use crate::cell::Cell;

verus! {

/// How offset coordinates number the hexagons of a map: which lines are
/// shoved by half a hexagon.
#[derive(Debug, Copy, Clone, PartialEq, Eq, Structural)]
pub enum OffsetHexMode {
    /// Vertical layout, shoves even columns down
    EvenColumns,
    /// Vertical layout, shoves odd columns down
    OddColumns,
    /// Horizontal layout, shoves even rows right
    EvenRows,
    /// Horizontal layout, shoves odd rows right
    OddRows,
}

/// The axial coordinates, `x` first, of the hexagon at column `col` and row
/// `row` of offset coordinates.
///
/// The coordinate along the shoved lines loses half of the other one,
/// rounded down where odd lines are shoved and up where even lines are.
pub open spec fn offset_to_axial(col: int, row: int, mode: OffsetHexMode) -> (int, int) {
    match mode {
        OffsetHexMode::EvenColumns => (col, row - (col + 1) / 2),
        OffsetHexMode::OddColumns => (col, row - col / 2),
        OffsetHexMode::EvenRows => (col - (row + 1) / 2, row),
        OffsetHexMode::OddRows => (col - row / 2, row),
    }
}

/// Whether the conversion of `(col, row)` stays inside `i32` at every step.
pub open spec fn offset_in_reach(col: int, row: int, mode: OffsetHexMode) -> bool {
    &&& i32::MIN <= offset_to_axial(col, row, mode).0 <= i32::MAX
    &&& i32::MIN <= offset_to_axial(col, row, mode).1 <= i32::MAX
    &&& mode == OffsetHexMode::EvenColumns ==> col < i32::MAX
    &&& mode == OffsetHexMode::EvenRows ==> row < i32::MAX
}

/// `hexx::Hex::from_offset_coordinates`, with the coordinates of the hexagon
/// it returns, `x` first.
///
/// Its source takes `(v - (v & 1)) / 2` for odd modes and `(v + (v & 1)) / 2`
/// for even modes off the other coordinate, `v` being the coordinate across
/// the shoved lines. The dividend is even, so these are half of `v` rounded
/// down and up. The sums are plain `i32` arithmetic, hence the bound.
#[verifier::external_body]
fn hex_from_offset_coordinates(coords: [i32; 2], mode: OffsetHexMode) -> (axial: [i32; 2])
    requires
        offset_in_reach(coords[0] as int, coords[1] as int, mode),
    ensures
        axial[0] == offset_to_axial(coords[0] as int, coords[1] as int, mode).0,
        axial[1] == offset_to_axial(coords[0] as int, coords[1] as int, mode).1,
{
    let mode = match mode {
        OffsetHexMode::EvenColumns => hexx::OffsetHexMode::EvenColumns,
        OffsetHexMode::OddColumns => hexx::OffsetHexMode::OddColumns,
        OffsetHexMode::EvenRows => hexx::OffsetHexMode::EvenRows,
        OffsetHexMode::OddRows => hexx::OffsetHexMode::OddRows,
    };
    let hex = hexx::Hex::from_offset_coordinates(coords, mode);
    [hex.x, hex.y]
}

/// `hexx::Hex::NEIGHBORS_COORDS`, the offsets of the six neighbours of a
/// hexagon as its source lists them, in the order of its edge directions.
#[verifier::external_body]
fn hex_neighbors_coords() -> (offsets: [Cell; 6])
    ensures
        offsets@ == seq![
            Cell::of(1, 0),
            Cell::of(0, 1),
            Cell::of(-1, 1),
            Cell::of(-1, 0),
            Cell::of(0, -1),
            Cell::of(1, -1),
        ],
{
    hexx::Hex::NEIGHBORS_COORDS.map(|hex| Cell::new(hex.x, hex.y))
}

impl Cell {
    /// The third cube coordinate of this cell on a hexagonal grid: the three
    /// add up to zero.
    pub open spec fn z(self) -> int {
        -self.x - self.y
    }

    /// The number of steps from (0, 0) to this cell on a hexagonal grid: the
    /// largest of the three cube coordinates, signs left aside.
    pub open spec fn hex_length(self) -> int {
        let x = if self.x < 0 { -self.x } else { self.x as int };
        let y = if self.y < 0 { -self.y } else { self.y as int };
        let z = if self.z() < 0 { -self.z() } else { self.z() };
        if x >= y && x >= z { x } else if y >= z { y } else { z }
    }

    /// Converts offset coordinates, column first, into axial coordinates with
    /// the given mode.
    pub fn from_offset_coordinates(coords: [i32; 2], mode: OffsetHexMode) -> (cell: Cell)
        requires
            offset_in_reach(coords[0] as int, coords[1] as int, mode),
        ensures
            cell.x == offset_to_axial(coords[0] as int, coords[1] as int, mode).0,
            cell.y == offset_to_axial(coords[0] as int, coords[1] as int, mode).1,
    {
        Cell::from_array(hex_from_offset_coordinates(coords, mode))
    }

    /// Converts offset coordinates as [`Cell::from_offset_coordinates`] does,
    /// where the conversion stays inside `i32`, and gives `None` where it
    /// does not.
    pub fn checked_from_offset_coordinates(coords: [i32; 2], mode: OffsetHexMode) -> (cell: Option<
        Cell,
    >)
        ensures
            cell is Some <==> offset_in_reach(coords[0] as int, coords[1] as int, mode),
            cell matches Some(c) ==> c.x == offset_to_axial(
                coords[0] as int,
                coords[1] as int,
                mode,
            ).0 && c.y == offset_to_axial(coords[0] as int, coords[1] as int, mode).1,
    {
        let col = coords[0];
        let row = coords[1];
        let shifted: i64 = match mode {
            OffsetHexMode::EvenColumns => row as i64 - half_ceil(col) as i64,
            OffsetHexMode::OddColumns => row as i64 - half_floor(col) as i64,
            OffsetHexMode::EvenRows => col as i64 - half_ceil(row) as i64,
            OffsetHexMode::OddRows => col as i64 - half_floor(row) as i64,
        };
        let across_fits = match mode {
            OffsetHexMode::EvenColumns => col < i32::MAX,
            OffsetHexMode::EvenRows => row < i32::MAX,
            _ => true,
        };
        if across_fits && i32::MIN as i64 <= shifted && shifted <= i32::MAX as i64 {
            Some(Cell::from_offset_coordinates(coords, mode))
        } else {
            None
        }
    }

    /// The offsets of the six neighbours of a hexagon, going round it from
    /// the neighbour along `x`. Each is one step long, no two are the same,
    /// and each is the opposite of the third after it.
    pub fn hex_neighbor_offsets() -> (offsets: [Cell; 6])
        ensures
            offsets@ == seq![
                Cell::of(1, 0),
                Cell::of(0, 1),
                Cell::of(-1, 1),
                Cell::of(-1, 0),
                Cell::of(0, -1),
                Cell::of(1, -1),
            ],
            forall|i: int| 0 <= i < 6 ==> (#[trigger] offsets[i]).hex_length() == 1,
            forall|i: int, j: int| 0 <= i < j < 6 ==> offsets[i] != offsets[j],
            forall|i: int|
                0 <= i < 3 ==> (#[trigger] offsets[i]).x == -offsets[i + 3].x && offsets[i].y
                    == -offsets[i + 3].y,
    {
        hex_neighbors_coords()
    }
}

} // verus!
