//! A map of square planes, laid out on a grid.

use vstd::prelude::*;

verus! {

/// The side of a plane, and the distance between the centres of neighbouring
/// planes, in world units.
pub const PLANE_SIZE: u16 = 10;

/// Marks an entity as a cell of the map.
#[derive(Copy, Clone, Debug, Default, PartialEq, Eq)]
pub struct HexCell;

/// The colours that mark the planes of the map.
#[derive(Copy, Clone, Debug, PartialEq, Eq, Structural)]
pub enum PlaneColor {
    OrangeRed,
    AliceBlue,
    Orange,
}

/// One plane of the map: its centre on the ground, in world units, the length
/// of its side, and its colour.
#[derive(Copy, Clone, Debug, PartialEq, Eq, Structural)]
pub struct PlaneCell {
    pub x: u16,
    pub z: u16,
    pub size: u16,
    pub color: PlaneColor,
}

/// A map of `width` columns and `height` rows, with the planes that were
/// generated for it.
#[derive(Debug)]
pub struct HexGrid {
    pub width: u8,
    pub height: u8,
    pub cells: Vec<PlaneCell>,
}

/// The colour of the plane in column `x` of row `z`: the starting plane
/// stands out, and even and odd columns alternate.
pub open spec fn plane_color(x: u8, z: u8) -> PlaneColor {
    if x == 0 && z == 0 {
        PlaneColor::OrangeRed
    } else if x % 2 == 0 {
        PlaneColor::AliceBlue
    } else {
        PlaneColor::Orange
    }
}

/// The plane in column `x` of row `z`.
pub open spec fn plane_cell(x: u8, z: u8) -> PlaneCell {
    PlaneCell {
        x: (x * PLANE_SIZE) as u16,
        z: (z * PLANE_SIZE) as u16,
        size: PLANE_SIZE,
        color: plane_color(x, z),
    }
}

/// The plane that comes at place `i` when a map of `width` columns is walked
/// row by row and within a row column by column.
pub open spec fn plane_at(width: u8, i: int) -> PlaneCell {
    plane_cell((i % (width as int)) as u8, (i / (width as int)) as u8)
}

/// The planes of a map of `width` columns and `height` rows, row by row and
/// within a row column by column.
pub open spec fn plane_cells(width: u8, height: u8) -> Seq<PlaneCell> {
    Seq::new((width * height) as nat, |i: int| plane_at(width, i))
}

/// No two planes of the map have the same centre.
pub proof fn lemma_planes_do_not_overlap(x: u8, z: u8, other_x: u8, other_z: u8)
    requires
        plane_cell(x, z).x == plane_cell(other_x, other_z).x,
        plane_cell(x, z).z == plane_cell(other_x, other_z).z,
    ensures
        x == other_x,
        z == other_z,
{
}

impl Default for HexGrid {
    fn default() -> (grid: Self)
        ensures
            grid.width == 0,
            grid.height == 0,
            grid.cells@ == Seq::<PlaneCell>::empty(),
    {
        HexGrid { width: 0, height: 0, cells: Vec::new() }
    }
}

impl HexGrid {
    /// A map of the given size, with no planes yet.
    pub fn new(width: u8, height: u8) -> (grid: Self)
        ensures
            grid.width == width,
            grid.height == height,
            grid.cells@ == Seq::<PlaneCell>::empty(),
    {
        HexGrid { width, height, cells: Vec::new() }
    }

    /// Adds the planes of the whole map after those that are already there.
    pub fn generate(&mut self)
        ensures
            final(self).width == old(self).width,
            final(self).height == old(self).height,
            final(self).cells@ == old(self).cells@ + plane_cells(old(self).width, old(self).height),
    {
        let ghost before = self.cells@;
        let width = self.width;
        let height = self.height;
        let mut z: u8 = 0;
        while z < height
            invariant
                z <= height,
                self.width == width,
                self.height == height,
                self.cells@.len() == before.len() + z * width,
                self.cells@.subrange(0, before.len() as int) == before,
                forall|i: int|
                    0 <= i < z * width ==> #[trigger] self.cells@[before.len() + i] == plane_at(
                        width,
                        i,
                    ),
            decreases height - z,
        {
            let mut x: u8 = 0;
            while x < width
                invariant
                    z < height,
                    x <= width,
                    self.width == width,
                    self.height == height,
                    self.cells@.len() == before.len() + z * width + x,
                    self.cells@.subrange(0, before.len() as int) == before,
                    forall|i: int|
                        0 <= i < z * width + x ==> #[trigger] self.cells@[before.len() + i]
                            == plane_at(width, i),
                decreases width - x,
            {
                let color = if x == 0 && z == 0 {
                    PlaneColor::OrangeRed
                } else if x % 2 == 0 {
                    PlaneColor::AliceBlue
                } else {
                    PlaneColor::Orange
                };
                let plane = PlaneCell {
                    x: (x as u16) * PLANE_SIZE,
                    z: (z as u16) * PLANE_SIZE,
                    size: PLANE_SIZE,
                    color,
                };
                proof {
                    let w = width as int;
                    let i = z * w + x;
                    assert(i % w == x && i / w == z) by (nonlinear_arith)
                        requires
                            i == z * w + x,
                            0 <= x < w,
                            0 <= z,
                    ;
                }
                let ghost prior = self.cells@;
                self.cells.push(plane);
                assert(self.cells@.subrange(0, before.len() as int) =~= prior.subrange(
                    0,
                    before.len() as int,
                ));
                x = x + 1;
            }
            assert(z * width + width == (z + 1) * width) by (nonlinear_arith);
            z = z + 1;
        }
        assert(height * width == width * height) by (nonlinear_arith);
        let ghost added = plane_cells(width, height);
        assert forall|i: int| 0 <= i < self.cells@.len() implies self.cells@[i] == (before
            + added)[i] by {
            if i < before.len() {
                assert(self.cells@.subrange(0, before.len() as int)[i] == self.cells@[i]);
            } else {
                assert(self.cells@[before.len() + (i - before.len())] == plane_at(
                    width,
                    i - before.len(),
                ));
            }
        }
    }
}

} // verus!
