//! The layout of the map: which cells it has, where each stands and how it
//! is coloured.

use crate::hex::hex_cell::{CellColor, HexCell, HexCellMesh, HexPosition};
use vstd::prelude::*;

verus! {

/// A map of `width` columns and `height` rows of hexagonal cells.
#[derive(Copy, Clone, Debug, PartialEq, Eq, Structural)]
pub struct HexGrid {
    pub width: u8,
    pub height: u8,
}

/// One cell as it enters the scene: its mesh and the cell that the mesh shows.
#[derive(Debug)]
pub struct RenderedCell {
    pub mesh: HexCellMesh,
    pub cell: HexCell,
}

/// Where the cell in column `x` of row `z` stands. Odd rows are shifted by
/// half a cell, that is by one inner radius.
pub open spec fn cell_position(x: u8, z: u8) -> HexPosition {
    HexPosition { column_halves: (2 * x + z % 2) as u16, row: z }
}

/// The colour of the cell in column `x` of row `z`: the starting cell stands
/// out, and even and odd rows alternate.
pub open spec fn cell_color(x: u8, z: u8) -> CellColor {
    if x == 0 && z == 0 {
        CellColor::OrangeRed
    } else if z % 2 == 0 {
        CellColor::Blue
    } else {
        CellColor::DarkGreen
    }
}

/// The place of the cell in column `x` of row `z` when a map of `width`
/// columns is walked row by row and within a row column by column.
pub open spec fn place(width: u8, x: u8, z: u8) -> int {
    z * width + x
}

/// The column of the cell at place `i` of such a walk.
pub open spec fn column_at(width: u8, i: int) -> u8 {
    (i % (width as int)) as u8
}

/// The row of the cell at place `i` of such a walk.
pub open spec fn row_at(width: u8, i: int) -> u8 {
    (i / (width as int)) as u8
}

/// Whether `rendered` is the cell in column `x` of row `z`, as it enters the
/// scene.
pub open spec fn renders(rendered: RenderedCell, x: u8, z: u8) -> bool {
    &&& rendered.cell.coordinates == (x, z)
    &&& rendered.mesh.position == cell_position(x, z)
    &&& rendered.mesh.color == cell_color(x, z)
    &&& rendered.mesh.wf()
}

/// No two cells of the map stand on the same spot.
pub proof fn lemma_cells_do_not_overlap(x: u8, z: u8, other_x: u8, other_z: u8)
    requires
        cell_position(x, z) == cell_position(other_x, other_z),
    ensures
        x == other_x,
        z == other_z,
{
}

impl Default for HexGrid {
    fn default() -> (grid: Self)
        ensures
            grid.width == 0,
            grid.height == 0,
    {
        HexGrid { width: 0, height: 0 }
    }
}

impl HexGrid {
    /// A map of the given size.
    pub fn new(width: u8, height: u8) -> (grid: Self)
        ensures
            grid.width == width,
            grid.height == height,
    {
        HexGrid { width, height }
    }

    /// The cells of the map, row by row and within a row column by column.
    pub fn render(&self) -> (cells: Vec<RenderedCell>)
        ensures
            cells.len() == self.width * self.height,
            forall|i: int|
                0 <= i < cells.len() ==> renders(
                    #[trigger] cells[i],
                    column_at(self.width, i),
                    row_at(self.width, i),
                ),
            forall|x: u8, z: u8|
                x < self.width && z < self.height ==> 0 <= #[trigger] place(self.width, x, z)
                    < cells.len() && renders(cells[place(self.width, x, z)], x, z),
    {
        let mut cells: Vec<RenderedCell> = Vec::new();
        let mut z: u8 = 0;
        while z < self.height
            invariant
                z <= self.height,
                cells.len() == z * self.width,
                forall|i: int|
                    0 <= i < cells.len() ==> renders(
                        #[trigger] cells[i],
                        column_at(self.width, i),
                        row_at(self.width, i),
                    ),
            decreases self.height - z,
        {
            let mut x: u8 = 0;
            while x < self.width
                invariant
                    z < self.height,
                    x <= self.width,
                    cells.len() == z * self.width + x,
                    forall|i: int|
                        0 <= i < cells.len() ==> renders(
                            #[trigger] cells[i],
                            column_at(self.width, i),
                            row_at(self.width, i),
                        ),
                decreases self.width - x,
            {
                let odd: u16 = (z % 2) as u16;
                let position = HexPosition { column_halves: 2 * (x as u16) + odd, row: z };
                let color = if x == 0 && z == 0 {
                    CellColor::OrangeRed
                } else if z % 2 == 0 {
                    CellColor::Blue
                } else {
                    CellColor::DarkGreen
                };
                let mesh = HexCellMesh::new(position, color);
                proof {
                    let w = self.width as int;
                    let i = z * w + x;
                    assert(i % w == x && i / w == z) by (nonlinear_arith)
                        requires
                            i == z * w + x,
                            0 <= x < w,
                            0 <= z,
                    ;
                }
                cells.push(RenderedCell { mesh, cell: HexCell { coordinates: (x, z) } });
                x = x + 1;
            }
            assert(z * self.width + self.width == (z + 1) * self.width) by (nonlinear_arith);
            z = z + 1;
        }
        assert(self.height * self.width == self.width * self.height) by (nonlinear_arith);
        assert forall|x: u8, z: u8| x < self.width && z < self.height implies 0 <= #[trigger] place(
            self.width,
            x,
            z,
        ) < cells.len() && renders(cells[place(self.width, x, z)], x, z) by {
            let w = self.width as int;
            let h = self.height as int;
            let i = z * w + x;
            assert(0 <= i < h * w && i % w == x && i / w == z) by (nonlinear_arith)
                requires
                    i == z * w + x,
                    0 <= x < w,
                    0 <= z < h,
            ;
        }
        cells
    }
}

} // verus!
