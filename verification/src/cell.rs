//! A position in a grid.

pub mod helpers;
pub mod hex;
pub mod implementations;
pub mod square;

use vstd::prelude::*;

verus! {

/// A position in a grid. It can stand for a hexagonal position in axial
/// coordinates or for a square position in Cartesian coordinates.
///
/// For hexagonal use the third cube coordinate is `-x - y`; it is not stored.
#[derive(Eq, Hash, PartialEq, Copy, Clone, Debug, Structural)]
pub struct Cell {
    pub x: i32,
    pub y: i32,
}

impl Default for Cell {
    /// (0, 0)
    fn default() -> (cell: Cell)
        ensures
            cell == Cell::of(0, 0),
    {
        Cell { x: 0, y: 0 }
    }
}

impl Cell {
    /// The cell with the coordinates `x` and `y`.
    pub open spec fn of(x: int, y: int) -> Cell
        recommends
            i32::MIN <= x <= i32::MAX,
            i32::MIN <= y <= i32::MAX,
    {
        Cell { x: x as i32, y: y as i32 }
    }

    /// The two coordinates, `x` first.
    pub open spec fn coordinates(self) -> Seq<i32> {
        seq![self.x, self.y]
    }

    /// The cell of the first two items of `s`.
    pub open spec fn from_coordinates(s: Seq<i32>) -> Cell
        recommends
            s.len() >= 2,
    {
        Cell { x: s[0], y: s[1] }
    }

    /// (0, 0)
    pub fn origin() -> (cell: Cell)
        ensures
            cell == Cell::of(0, 0),
    {
        Cell::zero()
    }

    /// (0, 0)
    pub fn zero() -> (cell: Cell)
        ensures
            cell == Cell::of(0, 0),
    {
        Cell::new(0, 0)
    }

    /// (1, 1)
    pub fn one() -> (cell: Cell)
        ensures
            cell == Cell::of(1, 1),
    {
        Cell::new(1, 1)
    }

    /// (-1, -1)
    pub fn neg_one() -> (cell: Cell)
        ensures
            cell == Cell::of(-1, -1),
    {
        Cell::new(-1, -1)
    }

    /// +X (Q) (1, 0)
    pub fn unit_x() -> (cell: Cell)
        ensures
            cell == Cell::of(1, 0),
    {
        Cell::new(1, 0)
    }

    /// -X (-Q) (-1, 0)
    pub fn neg_unit_x() -> (cell: Cell)
        ensures
            cell == Cell::of(-1, 0),
    {
        Cell::new(-1, 0)
    }

    /// +Y (R) (0, 1)
    pub fn unit_y() -> (cell: Cell)
        ensures
            cell == Cell::of(0, 1),
    {
        Cell::new(0, 1)
    }

    /// -Y (-R) (0, -1)
    pub fn neg_unit_y() -> (cell: Cell)
        ensures
            cell == Cell::of(0, -1),
    {
        Cell::new(0, -1)
    }

    pub fn new(x: i32, y: i32) -> (cell: Cell)
        ensures
            cell == (Cell { x, y }),
    {
        Cell { x, y }
    }

    /// The cell whose two coordinates are `v`.
    pub fn splat(v: i32) -> (cell: Cell)
        ensures
            cell == (Cell { x: v, y: v }),
    {
        Cell::new(v, v)
    }

    /// The cell of two unsigned coordinates, each taken as the signed number
    /// of the same 32 bits.
    pub fn new_unsigned(x: u32, y: u32) -> (cell: Cell)
        ensures
            cell == (Cell { x: x as i32, y: y as i32 }),
            x <= i32::MAX ==> cell.x == x,
            y <= i32::MAX ==> cell.y == y,
    {
        Cell::new(
            #[verifier::truncate]
            (x as i32),
            #[verifier::truncate]
            (y as i32),
        )
    }

    pub fn from_array(a: [i32; 2]) -> (cell: Cell)
        ensures
            cell == Cell::from_coordinates(a@),
    {
        Cell::new(a[0], a[1])
    }

    /// The cell of the first two items of `slice`.
    pub fn from_slice(slice: &[i32]) -> (cell: Cell)
        requires
            slice.len() >= 2,
        ensures
            cell == Cell::from_coordinates(slice@),
    {
        Cell::new(slice[0], slice[1])
    }

    /// Writes the two coordinates over the first two items of `slice`.
    pub fn write_to_slice(self, slice: &mut [i32])
        requires
            old(slice).len() >= 2,
        ensures
            final(slice)@ == old(slice)@.update(0, self.x).update(1, self.y),
    {
        slice[0] = self.x;
        slice[1] = self.y;
    }

    /// `x` coordinate
    pub fn x(self) -> (x: i32)
        ensures
            x == self.x,
    {
        self.x
    }

    /// `y` coordinate
    pub fn y(self) -> (y: i32)
        ensures
            y == self.y,
    {
        self.y
    }

    /// The raw x and y pos of this cell
    pub fn pos(self) -> (p: [i32; 2])
        ensures
            p@ == self.coordinates(),
    {
        [self.x, self.y]
    }
}

/// A cell and the sequence of its two coordinates stand for each other:
/// turning one into the other and back gives the same value.
pub proof fn lemma_coordinates_round_trip(cell: Cell, s: Seq<i32>)
    ensures
        Cell::from_coordinates(cell.coordinates()) == cell,
        s.len() == 2 ==> Cell::from_coordinates(s).coordinates() == s,
{
}

} // verus!
