//! One cell of the map and the mesh that shows it.

use vstd::prelude::*;

verus! {

/// A cell of the hexagonal map, known by its column and its row.
#[derive(Copy, Clone, Debug, PartialEq, Eq)]
pub struct HexCell {
    pub coordinates: (u8, u8),
}

/// The colours that mark the cells of the map.
#[derive(Copy, Clone, Debug, PartialEq, Eq, Structural)]
pub enum CellColor {
    OrangeRed,
    Blue,
    DarkGreen,
}

/// Where the centre of a cell lies on the ground plane: `column_halves` inner
/// radii along the x axis, and `row` row spacings along the negative z axis.
#[derive(Copy, Clone, Debug, PartialEq, Eq, Structural)]
pub struct HexPosition {
    pub column_halves: u16,
    pub row: u8,
}

/// How many corners a cell has.
pub const CORNER_COUNT: u16 = 6;

/// How many vertices the mesh of a cell has: its centre, then its corners.
pub const VERTEX_COUNT: u16 = 7;

/// The vertex indices of a cell's triangles, three for each triangle. Vertex 0
/// is the centre of the cell and vertices 1 to 6 are its corners, clockwise
/// as seen from above.
pub open spec fn triangle_fan() -> Seq<u16> {
    seq![0u16, 1, 2, 0, 2, 3, 0, 3, 4, 0, 4, 5, 0, 5, 6, 0, 6, 1]
}

/// The mesh of one cell: where it stands, its colour, and its triangles.
#[derive(Debug)]
pub struct HexCellMesh {
    pub position: HexPosition,
    pub color: CellColor,
    pub indices: Vec<u16>,
}

impl HexCellMesh {
    /// The triangles are those of the fan around the centre.
    pub open spec fn wf(&self) -> bool {
        self.indices@ == triangle_fan()
    }

    /// The mesh of a cell at `position` in `color`.
    pub fn new(position: HexPosition, color: CellColor) -> (mesh: Self)
        ensures
            mesh.wf(),
            mesh.position == position,
            mesh.color == color,
    {
        let indices: Vec<u16> = vec![0, 1, 2, 0, 2, 3, 0, 3, 4, 0, 4, 5, 0, 5, 6, 0, 6, 1];
        HexCellMesh { position, color, indices }
    }
}

impl Clone for HexCellMesh {
    fn clone(&self) -> (mesh: Self)
        ensures
            mesh.position == self.position,
            mesh.color == self.color,
            mesh.indices@ == self.indices@,
    {
        let indices = self.indices.clone();
        HexCellMesh { position: self.position, color: self.color, indices }
    }
}

/// The fan has one triangle for each corner. Each joins the centre to a corner
/// and to the corner that follows it, the last corner being followed by the
/// first, and names only vertices that the mesh has.
pub proof fn lemma_triangle_fan_closes()
    ensures
        triangle_fan().len() == 3 * CORNER_COUNT,
        forall|k: int|
            0 <= k < CORNER_COUNT ==> {
                &&& #[trigger] triangle_fan()[3 * k] == 0
                &&& triangle_fan()[3 * k + 1] == k + 1
                &&& triangle_fan()[3 * k + 2] == (k + 1) % (CORNER_COUNT as int) + 1
            },
        forall|i: int|
            0 <= i < triangle_fan().len() ==> #[trigger] triangle_fan()[i] < VERTEX_COUNT,
{
    assert forall|k: int| 0 <= k < CORNER_COUNT implies {
        &&& #[trigger] triangle_fan()[3 * k] == 0
        &&& triangle_fan()[3 * k + 1] == k + 1
        &&& triangle_fan()[3 * k + 2] == (k + 1) % (CORNER_COUNT as int) + 1
    } by {
        if k == 0 {
        } else if k == 1 {
        } else if k == 2 {
        } else if k == 3 {
        } else if k == 4 {
        } else {
        }
    }
}

} // verus!
