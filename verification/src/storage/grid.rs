//! A dense two-dimensional array, stored row by row.

use vstd::prelude::*;

verus! {

/// The mathematical content of a [`Grid`]: its size and its cells, row by row.
pub ghost struct GridView<T> {
    pub rows: nat,
    pub cols: nat,
    pub cells: Seq<T>,
}

impl<T> GridView<T> {
    /// There is exactly one cell for each pair of a row and a column.
    pub open spec fn wf(self) -> bool {
        self.cells.len() == self.rows * self.cols
    }

    /// Whether `(row, col)` names a slot of the grid.
    pub open spec fn in_bounds(self, row: int, col: int) -> bool {
        0 <= row < self.rows && 0 <= col < self.cols
    }

    /// The cell at `(row, col)`.
    pub open spec fn at(self, row: int, col: int) -> T
        recommends
            self.in_bounds(row, col),
    {
        self.cells[row * self.cols + col]
    }

    /// The grid with the cell at `(row, col)` replaced by `value`.
    pub open spec fn update(self, row: int, col: int, value: T) -> GridView<T>
        recommends
            self.in_bounds(row, col),
    {
        GridView { cells: self.cells.update(row * self.cols + col, value), ..self }
    }
}

/// The position of slot `(row, col)` in row-major order lies inside the
/// `rows * cols` cells.
pub proof fn lemma_slot_in_range(rows: int, cols: int, row: int, col: int)
    requires
        0 <= row < rows,
        0 <= col < cols,
    ensures
        0 <= row * cols + col < rows * cols,
{
    assert(row * cols >= 0) by (nonlinear_arith)
        requires
            row >= 0,
            cols >= 0,
    ;
    assert((row + 1) * cols <= rows * cols) by (nonlinear_arith)
        requires
            row + 1 <= rows,
            cols >= 0,
    ;
    assert((row + 1) * cols == row * cols + cols) by (nonlinear_arith);
}

/// Two slots of one grid stand at different positions in row-major order.
pub proof fn lemma_slots_differ(cols: int, row: int, col: int, other_row: int, other_col: int)
    requires
        0 <= col < cols,
        0 <= other_col < cols,
        row != other_row || col != other_col,
    ensures
        row * cols + col != other_row * cols + other_col,
{
    if row < other_row {
        assert((row + 1) * cols <= other_row * cols) by (nonlinear_arith)
            requires
                row + 1 <= other_row,
                cols >= 0,
        ;
        assert((row + 1) * cols == row * cols + cols) by (nonlinear_arith);
    } else if other_row < row {
        assert((other_row + 1) * cols <= row * cols) by (nonlinear_arith)
            requires
                other_row + 1 <= row,
                cols >= 0,
        ;
        assert((other_row + 1) * cols == other_row * cols + cols) by (nonlinear_arith);
    }
}

/// A dense grid of `rows * cols` cells.
#[derive(Hash, Debug)]
pub struct Grid<T> {
    data: Vec<T>,
    rows: usize,
    cols: usize,
}

impl<T> View for Grid<T> {
    type V = GridView<T>;

    closed spec fn view(&self) -> GridView<T> {
        GridView { rows: self.rows as nat, cols: self.cols as nat, cells: self.data@ }
    }
}

impl<T: Clone> Clone for Grid<T> {
    /// A grid of the same size whose cells are clones of the cells of `self`.
    fn clone(&self) -> (grid: Grid<T>)
        ensures
            grid@.wf(),
            grid@.rows == self@.rows,
            grid@.cols == self@.cols,
            grid@.cells.len() == self@.cells.len(),
            forall|i: int|
                0 <= i < self@.cells.len() ==> cloned(self@.cells[i], #[trigger] grid@.cells[i]),
    {
        proof {
            use_type_invariant(self);
        }
        Grid { data: self.data.clone(), rows: self.rows, cols: self.cols }
    }
}

impl<T> Grid<T> {
    #[verifier::type_invariant]
    spec fn inv(self) -> bool {
        self.data.len() == self.rows * self.cols
    }

    /// A grid of the given size whose cells are all `T::default()`.
    pub fn new(rows: usize, cols: usize) -> (grid: Grid<T>) where T: Default
        requires
            rows * cols <= usize::MAX,
        ensures
            grid@.wf(),
            grid@.rows == rows,
            grid@.cols == cols,
            forall|i: int|
                0 <= i < grid@.cells.len() ==> call_ensures(T::default, (), #[trigger] grid@.cells[i]),
    {
        let n = rows * cols;
        let mut data: Vec<T> = Vec::new();
        while data.len() < n
            invariant
                data.len() <= n,
                forall|i: int| 0 <= i < data.len() ==> call_ensures(T::default, (), #[trigger] data@[i]),
            decreases n - data.len(),
        {
            data.push(T::default());
        }
        Grid { data, rows, cols }
    }

    /// A grid of the given size whose cells are all clones of `value`.
    pub fn init(rows: usize, cols: usize, value: T) -> (grid: Grid<T>) where T: Clone
        requires
            rows * cols <= usize::MAX,
        ensures
            grid@.wf(),
            grid@.rows == rows,
            grid@.cols == cols,
            forall|i: int| 0 <= i < grid@.cells.len() ==> cloned(value, #[trigger] grid@.cells[i]),
    {
        let n = rows * cols;
        let mut data: Vec<T> = Vec::new();
        while data.len() < n
            invariant
                data.len() <= n,
                forall|i: int| 0 <= i < data.len() ==> cloned(value, #[trigger] data@[i]),
            decreases n - data.len(),
        {
            data.push(value.clone());
        }
        Grid { data, rows, cols }
    }

    /// A grid of the given size that holds `data`, row by row.
    pub fn from_vec(data: Vec<T>, rows: usize, cols: usize) -> (grid: Grid<T>)
        requires
            data.len() == rows * cols,
        ensures
            grid@ == (GridView { rows: rows as nat, cols: cols as nat, cells: data@ }),
    {
        Grid { data, rows, cols }
    }

    /// The cells, row by row.
    pub fn into_vec(self) -> (cells: Vec<T>)
        ensures
            self@.wf(),
            cells@ == self@.cells,
    {
        proof {
            use_type_invariant(&self);
        }
        self.data
    }

    /// The number of rows.
    pub fn rows(&self) -> (n: usize)
        ensures
            self@.wf(),
            n == self@.rows,
    {
        proof {
            use_type_invariant(self);
        }
        self.rows
    }

    /// The number of columns.
    pub fn cols(&self) -> (n: usize)
        ensures
            self@.wf(),
            n == self@.cols,
    {
        proof {
            use_type_invariant(self);
        }
        self.cols
    }

    /// The cell at `(row, col)`, or `None` outside the grid.
    pub fn get(&self, row: usize, col: usize) -> (cell: Option<&T>)
        ensures
            self@.wf(),
            cell == if self@.in_bounds(row as int, col as int) {
                Some(&self@.at(row as int, col as int))
            } else {
                None
            },
    {
        proof {
            use_type_invariant(self);
        }
        if row < self.rows && col < self.cols {
            proof {
                lemma_slot_in_range(self.rows as int, self.cols as int, row as int, col as int);
            }
            Some(&self.data[row * self.cols + col])
        } else {
            None
        }
    }

    /// The cell at `(row, col)` for writing, or `None` outside the grid.
    pub fn get_mut(&mut self, row: usize, col: usize) -> (cell: Option<&mut T>)
        ensures
            old(self)@.wf(),
            final(self)@.wf(),
            match cell {
                Some(slot) => {
                    &&& old(self)@.in_bounds(row as int, col as int)
                    &&& *slot == old(self)@.at(row as int, col as int)
                    &&& final(self)@ == old(self)@.update(row as int, col as int, *final(slot))
                },
                None => {
                    &&& !old(self)@.in_bounds(row as int, col as int)
                    &&& final(self)@ == old(self)@
                },
            },
    {
        proof {
            use_type_invariant(&*self);
        }
        if row < self.rows && col < self.cols {
            proof {
                lemma_slot_in_range(self.rows as int, self.cols as int, row as int, col as int);
            }
            Some(&mut self.data[row * self.cols + col])
        } else {
            None
        }
    }
    /// Assigns every slot, row by row, what one call of `f` gives.
    pub fn fill_with<F: Fn() -> T>(&mut self, f: F)
        requires
            call_requires(f, ()),
        ensures
            final(self)@.wf(),
            final(self)@.rows == old(self)@.rows,
            final(self)@.cols == old(self)@.cols,
            forall|i: int|
                0 <= i < final(self)@.cells.len() ==> call_ensures(
                    f,
                    (),
                    #[trigger] final(self)@.cells[i],
                ),
    {
        proof {
            use_type_invariant(&*self);
        }
        let n = self.data.len();
        let mut i: usize = 0;
        while i < n
            invariant
                i <= n,
                n == self.data.len(),
                self.rows == old(self).rows,
                self.cols == old(self).cols,
                self.data.len() == self.rows * self.cols,
                call_requires(f, ()),
                forall|k: int| 0 <= k < i ==> call_ensures(f, (), #[trigger] self.data@[k]),
            decreases n - i,
        {
            let value = f();
            self.data[i] = value;
            i += 1;
        }
    }
}

} // verus!
