//! Rectangular storage for a hexagonal map.

use vstd::prelude::*;

use crate::cell::helpers::half_floor;
use crate::cell::hex::{offset_to_axial, OffsetHexMode};
use crate::cell::Cell;
use crate::storage::grid::{lemma_slot_in_range, lemma_slots_differ, Grid, GridView};

verus! {

/// Which way the hexagons of a map are turned.
#[derive(Debug, Copy, Clone, PartialEq, Eq, Hash, Structural)]
pub enum HexOrientation {
    /// The hexagons are pointy-topped: odd rows are shifted.
    Pointy,
    /// The hexagons are flat-topped: odd columns are shifted.
    Flat,
}

/// The row and the column that `cell` translates to in a window of
/// `cols` by `rows` slots, or `None` where the cell lies outside of it.
///
/// For [`HexOrientation::Pointy`] the row is `y` and the column is
/// `x + floor(y / 2)`. For [`HexOrientation::Flat`] the row is `x`, the column
/// is `y + floor(x / 2)`, and the two bounds change places.
pub open spec fn translate(orientation: HexOrientation, rows: nat, cols: nat, cell: Cell) -> Option<
    (int, int),
> {
    match orientation {
        HexOrientation::Pointy => {
            let row = cell.y as int;
            let col = cell.x as int + (cell.y as int) / 2;
            if 0 <= row < rows && 0 <= col < cols {
                Some((row, col))
            } else {
                None
            }
        },
        HexOrientation::Flat => {
            let row = cell.x as int;
            let col = cell.y as int + (cell.x as int) / 2;
            if 0 <= row < cols && 0 <= col < rows {
                Some((row, col))
            } else {
                None
            }
        },
    }
}

/// The slot of the backing grid, as its row and its column, that holds what
/// translates to `(row, col)`. The layout is transposed for
/// [`HexOrientation::Flat`].
pub open spec fn backing_slot(orientation: HexOrientation, row: int, col: int) -> (int, int) {
    match orientation {
        HexOrientation::Pointy => (row, col),
        HexOrientation::Flat => (col, row),
    }
}

/// The axial cell that stands at column `x` of row `y` in row-major storage:
/// the inverse of the translation for [`HexOrientation::Pointy`].
pub open spec fn index_to_cell(x: int, y: int) -> Cell {
    Cell { x: (x - y / 2) as i32, y: y as i32 }
}

/// The axial cell that translates to `(row, col)` under `orientation`: the
/// inverse of [`translate`].
pub open spec fn cell_at(orientation: HexOrientation, row: int, col: int) -> Cell {
    match orientation {
        HexOrientation::Pointy => index_to_cell(col, row),
        HexOrientation::Flat => Cell { x: index_to_cell(col, row).y, y: index_to_cell(col, row).x },
    }
}

/// Whether every row of `rows` holds `cols` items.
pub open spec fn uniform<T>(rows: Seq<Vec<T>>, cols: nat) -> bool {
    forall|i: int| 0 <= i < rows.len() ==> (#[trigger] rows[i]).len() == cols
}

/// The items of `rows`, one row after the other.
pub open spec fn row_major<T>(rows: Seq<Vec<T>>) -> Seq<T>
    decreases rows.len(),
{
    if rows.len() == 0 {
        Seq::empty()
    } else {
        row_major(rows.drop_last()) + rows.last()@
    }
}

/// Storage for a hexagonal map that is rectangular, with rows of the same
/// length, addressed by axial coordinates.
#[derive(Hash, Debug)]
pub struct HexRectangleStorage<T> {
    pub grid: Grid<T>,
    pub orientation: HexOrientation,
}

impl<T: Clone> Clone for HexRectangleStorage<T> {
    /// A storage of the same shape whose cells are clones of the cells of `self`.
    fn clone(&self) -> (storage: HexRectangleStorage<T>)
        ensures
            storage.orientation == self.orientation,
            storage.grid@.wf(),
            storage.grid@.rows == self.grid@.rows,
            storage.grid@.cols == self.grid@.cols,
            storage.grid@.cells.len() == self.grid@.cells.len(),
            forall|i: int|
                0 <= i < self.grid@.cells.len() ==> cloned(
                    self.grid@.cells[i],
                    #[trigger] storage.grid@.cells[i],
                ),
    {
        HexRectangleStorage { grid: self.grid.clone(), orientation: self.orientation }
    }
}

impl<T> HexRectangleStorage<T> {
    /// The row and the column that `cell` translates to in this storage.
    pub open spec fn access(&self, cell: Cell) -> Option<(int, int)> {
        translate(self.orientation, self.grid@.rows, self.grid@.cols, cell)
    }

    /// The slot of the backing grid that holds `cell`.
    pub open spec fn slot(&self, cell: Cell) -> Option<(int, int)> {
        match self.access(cell) {
            Some((row, col)) => Some(backing_slot(self.orientation, row, col)),
            None => None,
        }
    }

    /// Translates `cell` into its row and column, in this order, or `None`
    /// where the cell lies outside the stored rectangle.
    pub fn verify_access(&self, cell: Cell) -> (access: Option<[usize; 2]>)
        ensures
            self.grid@.wf(),
            match access {
                Some(index) => self.access(cell) == Some((index[0] as int, index[1] as int)),
                None => self.access(cell) is None,
            },
    {
        let rows = self.grid.rows();
        let cols = self.grid.cols();
        match self.orientation {
            HexOrientation::Pointy => {
                let col: i64 = cell.x as i64 + half_floor(cell.y) as i64;
                if cell.y < 0 || col < 0 || col as u64 >= cols as u64 || cell.y as u64
                    >= rows as u64 {
                    return None;
                }
                Some([cell.y as usize, col as usize])
            },
            HexOrientation::Flat => {
                let col: i64 = cell.y as i64 + half_floor(cell.x) as i64;
                if cell.x < 0 || col < 0 || col as u64 >= rows as u64 || cell.x as u64
                    >= cols as u64 {
                    return None;
                }
                Some([cell.x as usize, col as usize])
            },
        }
    }

    /// What the storage holds for `cell`, or `None` where the cell lies outside
    /// the stored rectangle.
    pub open spec fn value_at(&self, cell: Cell) -> Option<T> {
        match self.slot(cell) {
            Some((row, col)) => Some(self.grid@.at(row, col)),
            None => None,
        }
    }

    /// The content of the backing grid once `data` has been written at
    /// `cell`: unchanged where the cell lies outside the stored rectangle.
    pub open spec fn grid_after_set(&self, cell: Cell, data: T) -> GridView<T> {
        match self.slot(cell) {
            Some((row, col)) => self.grid@.update(row, col, data),
            None => self.grid@,
        }
    }

    /// A storage of `x_size` columns and `y_size` rows, filled with `T::default()`.
    pub fn new(x_size: usize, y_size: usize, orientation: HexOrientation) -> (storage:
        HexRectangleStorage<T>) where T: Default
        requires
            y_size * x_size <= usize::MAX,
        ensures
            storage.orientation == orientation,
            storage.grid@.wf(),
            storage.grid@.rows == y_size,
            storage.grid@.cols == x_size,
            forall|i: int|
                0 <= i < storage.grid@.cells.len() ==> call_ensures(
                    T::default,
                    (),
                    #[trigger] storage.grid@.cells[i],
                ),
    {
        HexRectangleStorage { grid: Grid::new(y_size, x_size), orientation }
    }

    /// The number of columns and the number of rows, in this order, each
    /// reduced to 32 bits.
    pub fn dimensions(&self) -> (size: [u32; 2])
        ensures
            self.grid@.cols <= u32::MAX ==> size[0] == self.grid@.cols,
            self.grid@.rows <= u32::MAX ==> size[1] == self.grid@.rows,
            size[0] == self.grid@.cols as u32,
            size[1] == self.grid@.rows as u32,
    {
        [
            #[verifier::truncate]
            (self.grid.cols() as u32),
            #[verifier::truncate]
            (self.grid.rows() as u32),
        ]
    }

    /// A storage of `x_size` columns and `y_size` rows, filled with clones of `data`.
    pub fn new_uniform(x_size: usize, y_size: usize, data: T, orientation: HexOrientation) -> (storage:
        HexRectangleStorage<T>) where T: Clone
        requires
            y_size * x_size <= usize::MAX,
        ensures
            storage.orientation == orientation,
            storage.grid@.wf(),
            storage.grid@.rows == y_size,
            storage.grid@.cols == x_size,
            forall|i: int|
                0 <= i < storage.grid@.cells.len() ==> cloned(data, #[trigger] storage.grid@.cells[i]),
    {
        HexRectangleStorage { grid: Grid::init(y_size, x_size, data), orientation }
    }

    /// A storage that holds the rows of `data`, one row of the storage for each.
    ///
    /// The storage has as many rows as `data` and as many columns as the first
    /// row is long. Only the number of items is held against that size: rows
    /// of different lengths whose items add up to it are taken as they come,
    /// one after the other.
    pub fn new_from_vec(data: Vec<Vec<T>>, orientation: HexOrientation) -> (storage:
        HexRectangleStorage<T>) where T: Default + Clone + Copy
        requires
            data.len() > 0,
            row_major(data@).len() == data.len() * data[0].len(),
        ensures
            storage.orientation == orientation,
            storage.grid@ == (GridView {
                rows: data.len() as nat,
                cols: data[0].len() as nat,
                cells: row_major(data@),
            }),
            uniform(data@, data[0].len() as nat) ==> forall|row: int, col: int|
                0 <= row < data.len() && 0 <= col < data[0].len() ==> #[trigger] storage.grid@.at(
                    row,
                    col,
                ) == data[row]@[col],
    {
        let rows = data.len();
        let cols = data[0].len();
        let mut cells: Vec<T> = Vec::new();
        let mut y: usize = 0;
        while y < rows
            invariant
                rows == data.len(),
                y <= rows,
                cells@ == row_major(data@.take(y as int)),
            decreases rows - y,
        {
            let row = &data[y];
            let mut x: usize = 0;
            while x < row.len()
                invariant
                    x <= row.len(),
                    cells@ == row_major(data@.take(y as int)) + row@.take(x as int),
                decreases row.len() - x,
            {
                cells.push(row[x]);
                assert(row@.take(x + 1) == row@.take(x as int).push(row@[x as int]));
                x += 1;
            }
            proof {
                assert(row@.take(x as int) == row@);
                assert(data@.take(y + 1).drop_last() == data@.take(y as int));
                assert(data@.take(y + 1).last() == *row);
            }
            y += 1;
        }
        assert(data@.take(y as int) == data@);
        proof {
            if uniform(data@, cols as nat) {
                assert forall|row: int, col: int| 0 <= row < rows && 0 <= col < cols implies row_major(
                    data@,
                )[row * cols + col] == data[row]@[col] by {
                    lemma_row_major_uniform(data@, cols as nat, row, col);
                }
            }
        }
        HexRectangleStorage { grid: Grid::from_vec(cells, rows, cols), orientation }
    }

    /// A storage that holds the rows of `data` as [`Self::new_from_vec`]
    /// makes it, where there is a first row and the number of items is the
    /// number of rows times the length of the first row, and `None` where
    /// not.
    pub fn try_new_from_vec(data: Vec<Vec<T>>, orientation: HexOrientation) -> (storage: Option<
        HexRectangleStorage<T>,
    >) where T: Default + Clone + Copy
        ensures
            storage is Some <==> data.len() > 0 && row_major(data@).len() == data.len()
                * data[0].len(),
            storage matches Some(loaded) ==> loaded.orientation == orientation && loaded.grid@
                == (GridView {
                rows: data.len() as nat,
                cols: data[0].len() as nat,
                cells: row_major(data@),
            }),
    {
        if data.len() == 0 {
            return None;
        }
        let mut given_tile_count: u128 = 0;
        let mut y: usize = 0;
        while y < data.len()
            invariant
                y <= data.len(),
                given_tile_count == row_major(data@.take(y as int)).len(),
                given_tile_count <= y * 0xffff_ffff_ffff_ffff,
            decreases data.len() - y,
        {
            proof {
                assert(data@.take(y + 1).drop_last() == data@.take(y as int));
                assert(data@.take(y + 1).last() == data[y as int]);
            }
            given_tile_count = given_tile_count + data[y].len() as u128;
            y += 1;
        }
        assert(data@.take(y as int) == data@);
        let rows = data.len() as u128;
        let cols = data[0].len() as u128;
        assert(rows * cols <= 0xffff_ffff_ffff_ffff * 0xffff_ffff_ffff_ffff) by (nonlinear_arith)
            requires
                0 <= rows <= 0xffff_ffff_ffff_ffff,
                0 <= cols <= 0xffff_ffff_ffff_ffff,
        ;
        if rows * cols == given_tile_count {
            Some(HexRectangleStorage::new_from_vec(data, orientation))
        } else {
            None
        }
    }

    /// The data at `cell`, or `None` where the cell lies outside the stored rectangle.
    pub fn get(&self, cell: Cell) -> (data: Option<&T>)
        ensures
            self.grid@.wf(),
            data == match self.slot(cell) {
                Some((row, col)) => Some(&self.grid@.at(row, col)),
                None => None,
            },
    {
        let access = self.verify_access(cell)?;
        match self.orientation {
            HexOrientation::Pointy => self.grid.get(access[0], access[1]),
            HexOrientation::Flat => self.grid.get(access[1], access[0]),
        }
    }

    /// The data at `cell` for writing, or `None` where the cell lies outside
    /// the stored rectangle.
    pub fn get_mut(&mut self, cell: Cell) -> (data: Option<&mut T>)
        ensures
            final(self).orientation == old(self).orientation,
            final(self).grid@.wf(),
            match data {
                Some(place) => {
                    &&& old(self).slot(cell) matches Some((row, col))
                    &&& *place == old(self).grid@.at(row, col)
                    &&& final(self).grid@ == old(self).grid@.update(row, col, *final(place))
                },
                None => {
                    &&& old(self).slot(cell) is None
                    &&& final(self).grid@ == old(self).grid@
                },
            },
    {
        let access = self.verify_access(cell)?;
        match self.orientation {
            HexOrientation::Pointy => self.grid.get_mut(access[0], access[1]),
            HexOrientation::Flat => self.grid.get_mut(access[1], access[0]),
        }
    }

    /// Writes `data` at `cell`. Where the cell lies outside the stored
    /// rectangle nothing changes.
    pub fn set(&mut self, cell: Cell, data: T)
        ensures
            final(self).orientation == old(self).orientation,
            final(self).grid@.wf(),
            final(self).grid@ == old(self).grid_after_set(cell, data),
    {
        match self.get_mut(cell) {
            Some(place) => {
                *place = data;
            },
            None => {},
        }
    }
}

/// The axial cell that stands at column `position[0]` of row `position[1]`
/// of a pointy storage.
pub fn convert_2d_array_index_to_rectangle_position(position: [u32; 2]) -> (cell: Cell)
    requires
        position[0] <= i32::MAX,
        position[1] <= i32::MAX,
    ensures
        cell == index_to_cell(position[0] as int, position[1] as int),
{
    let y_offset = half_floor(position[1] as i32);
    Cell::new(position[0] as i32 - y_offset, position[1] as i32)
}

/// Where every row of `rows` holds `cols` items, the item at column `col` of
/// row `row` stands at position `row * cols + col` of [`row_major`].
pub proof fn lemma_row_major_uniform<T>(rows: Seq<Vec<T>>, cols: nat, row: int, col: int)
    requires
        uniform(rows, cols),
        0 <= row < rows.len(),
        0 <= col < cols,
    ensures
        row_major(rows).len() == rows.len() * cols,
        0 <= row * cols + col < row_major(rows).len(),
        row_major(rows)[row * cols + col] == rows[row]@[col],
    decreases rows.len(),
{
    let front = rows.drop_last();
    lemma_row_major_len(front, cols);
    lemma_row_major_len(rows, cols);
    lemma_slot_in_range(rows.len() as int, cols as int, row, col);
    if row < front.len() {
        lemma_row_major_uniform(front, cols, row, col);
    } else {
        assert(row * cols == front.len() * cols);
    }
}

/// Where every row of `rows` holds `cols` items, [`row_major`] holds
/// `rows.len() * cols` items.
pub proof fn lemma_row_major_len<T>(rows: Seq<Vec<T>>, cols: nat)
    requires
        uniform(rows, cols),
    ensures
        row_major(rows).len() == rows.len() * cols,
    decreases rows.len(),
{
    if rows.len() > 0 {
        lemma_row_major_len(rows.drop_last(), cols);
        assert((rows.len() - 1) * cols + cols == rows.len() * cols) by (nonlinear_arith);
    }
}

/// Under [`HexOrientation::Pointy`] a cell `(x, y)` lies in the stored
/// rectangle exactly if `y` is one of its rows and `x + floor(y / 2)` one of
/// its columns. Under [`HexOrientation::Flat`] the same holds with `x` and
/// `y` exchanged.
pub proof fn lemma_valid_cells(rows: nat, cols: nat, cell: Cell)
    ensures
        translate(HexOrientation::Pointy, rows, cols, cell) is Some <==> 0 <= cell.y < rows && 0
            <= cell.x + (cell.y as int) / 2 < cols,
        translate(HexOrientation::Flat, rows, cols, cell) is Some <==> 0 <= cell.x < cols && 0
            <= cell.y + (cell.x as int) / 2 < rows,
        translate(HexOrientation::Flat, rows, cols, cell) is Some <==> translate(
            HexOrientation::Pointy,
            cols,
            rows,
            Cell { x: cell.y, y: cell.x },
        ) is Some,
{
}

/// Whether `(row, col)` is a row and a column that [`translate`] can give in
/// a window of `cols` by `rows` slots.
pub open spec fn index_in_range(orientation: HexOrientation, rows: nat, cols: nat, row: int, col: int) -> bool {
    match orientation {
        HexOrientation::Pointy => 0 <= row < rows && 0 <= col < cols,
        HexOrientation::Flat => 0 <= row < cols && 0 <= col < rows,
    }
}

/// Every cell of the stored rectangle has its slot inside the backing grid.
pub proof fn lemma_slot_in_bounds<T>(storage: HexRectangleStorage<T>, cell: Cell)
    ensures
        storage.slot(cell) matches Some((row, col)) ==> storage.grid@.in_bounds(row, col),
{
}

/// Every row and column in range, as far as a cell's coordinates reach, is
/// what its cell translates to.
pub proof fn lemma_index_round_trip(orientation: HexOrientation, rows: nat, cols: nat, row: int, col: int)
    requires
        index_in_range(orientation, rows, cols, row, col),
        row <= i32::MAX,
        col <= i32::MAX,
    ensures
        translate(orientation, rows, cols, cell_at(orientation, row, col)) == Some((row, col)),
{
}

/// Every cell of the stored rectangle is the cell of the row and column
/// that it translates to, so no two cells share a row and column.
pub proof fn lemma_cell_round_trip(
    orientation: HexOrientation,
    rows: nat,
    cols: nat,
    cell: Cell,
    row: int,
    col: int,
)
    requires
        translate(orientation, rows, cols, cell) == Some((row, col)),
    ensures
        index_in_range(orientation, rows, cols, row, col),
        cell_at(orientation, row, col) == cell,
{
}

/// Offset coordinates that shove odd rows number the columns and rows of a
/// pointy storage, and those that shove odd columns the rows and columns of
/// a flat one: the cell of an offset position is the cell that translates
/// to it.
pub proof fn lemma_offset_is_index(col: int, row: int)
    requires
        0 <= col <= i32::MAX,
        0 <= row <= i32::MAX,
    ensures
        cell_at(HexOrientation::Pointy, row, col) == Cell::of(
            offset_to_axial(col, row, OffsetHexMode::OddRows).0,
            offset_to_axial(col, row, OffsetHexMode::OddRows).1,
        ),
        cell_at(HexOrientation::Flat, col, row) == Cell::of(
            offset_to_axial(col, row, OffsetHexMode::OddColumns).0,
            offset_to_axial(col, row, OffsetHexMode::OddColumns).1,
        ),
{
}

/// A storage loaded from rows of one length gives back, for every cell of
/// its rectangle, the item that the rows hold at the slot of that cell, and
/// nothing for any other cell.
pub proof fn lemma_bulk_load_fidelity<T>(
    storage: HexRectangleStorage<T>,
    data: Seq<Vec<T>>,
    cell: Cell,
)
    requires
        data.len() > 0,
        uniform(data, data[0].len() as nat),
        storage.grid@ == (GridView {
            rows: data.len(),
            cols: data[0].len() as nat,
            cells: row_major(data),
        }),
    ensures
        storage.grid@.wf(),
        storage.value_at(cell) == match storage.slot(cell) {
            Some((row, col)) => Some(data[row]@[col]),
            None => None,
        },
        storage.slot(cell) matches Some((row, col)) ==> 0 <= row < data.len() && 0 <= col
            < data[0].len(),
{
    lemma_row_major_len(data, data[0].len() as nat);
    match storage.slot(cell) {
        Some((row, col)) => {
            lemma_row_major_uniform(data, data[0].len() as nat, row, col);
        },
        None => {},
    }
}

/// Writing at a cell outside the stored rectangle changes nothing: the
/// backing grid is as before, and so is what the storage holds for any cell.
pub proof fn lemma_set_outside_changes_nothing<T>(
    before: HexRectangleStorage<T>,
    after: HexRectangleStorage<T>,
    cell: Cell,
    data: T,
    other: Cell,
)
    requires
        before.access(cell) is None,
        after.orientation == before.orientation,
        after.grid@ == before.grid_after_set(cell, data),
    ensures
        after.grid@ == before.grid@,
        after.value_at(other) == before.value_at(other),
{
}

/// Writing at a cell of the stored rectangle changes what the storage holds
/// for that cell, and for no other.
pub proof fn lemma_set_inside_changes_one<T>(
    before: HexRectangleStorage<T>,
    after: HexRectangleStorage<T>,
    cell: Cell,
    data: T,
    other: Cell,
)
    requires
        before.grid@.wf(),
        before.access(cell) is Some,
        after.orientation == before.orientation,
        after.grid@ == before.grid_after_set(cell, data),
    ensures
        after.grid@.wf(),
        after.value_at(cell) == Some(data),
        other != cell ==> after.value_at(other) == before.value_at(other),
{
    let rows = before.grid@.rows;
    let cols = before.grid@.cols;
    let (row, col) = before.slot(cell)->0;
    lemma_slot_in_range(rows as int, cols as int, row, col);
    if other != cell && before.access(other) is Some {
        let (other_row, other_col) = before.slot(other)->0;
        let (r, c) = before.access(cell)->0;
        let (other_r, other_c) = before.access(other)->0;
        lemma_cell_round_trip(before.orientation, rows, cols, cell, r, c);
        lemma_cell_round_trip(before.orientation, rows, cols, other, other_r, other_c);
        lemma_slot_in_range(rows as int, cols as int, other_row, other_col);
        lemma_slots_differ(cols as int, row, col, other_row, other_col);
    }
}

} // verus!
