//! Grid coordinates and rectangular storage for hexagonal maps.
//!
//! [`cell::Cell`] is a position on a grid: axial coordinates on a hexagonal
//! grid, Cartesian ones on a square grid.
//! [`storage::hex::HexRectangleStorage`] keeps the data of a rectangular
//! hexagonal map in a dense [`storage::grid::Grid`] and finds the slot of a
//! cell by shifting every second row, or column, by half a step.
//!
//! Every function states what it returns or changes, and the verifier holds
//! its body to that. What the parts promise together is stated as proof
//! functions next to them.

pub mod cell;
pub mod storage;
