//! Hexagonal map: pointy-top cells in rows, every second row shifted by half
//! a cell.

pub mod hex_cell;
pub mod hex_grid;

pub use self::{hex_cell::HexCell, hex_grid::HexGrid};
