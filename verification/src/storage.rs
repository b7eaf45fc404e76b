//! Storage for grid data.

pub mod grid;
pub mod hex;
