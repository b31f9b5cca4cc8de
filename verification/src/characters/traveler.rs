//! A traveler walks to a cell of the map and, once there, picks another.

use crate::hex::HexCell;
use rand::seq::SliceRandom;
use vstd::prelude::*;

verus! {

/// A character that travels from cell to cell. `destination` holds the
/// coordinates of the cell it is heading for, once it has one.
#[derive(Copy, Clone, Debug, PartialEq, Eq)]
pub struct Traveler {
    pub destination: Option<(u8, u8)>,
}

impl Default for Traveler {
    fn default() -> (traveler: Self)
        ensures
            traveler.destination is None,
    {
        Traveler { destination: None }
    }
}

/// Calls `rand::seq::SliceRandom::choose` on the cells, with the generator
/// that `rand::thread_rng` hands out, and copies the cell it gets. Which cell
/// that is depends on chance. Trusted: without cells there is no pick, and
/// with cells the pick is one of them. The call panics only where the system
/// cannot seed the generator.
#[verifier::external_body]
fn choose_cell(hex_cells: &Vec<HexCell>) -> (picked: Option<HexCell>)
    ensures
        hex_cells@.len() == 0 ==> picked is None,
        hex_cells@.len() > 0 ==> picked is Some && hex_cells@.contains(picked->Some_0),
{
    hex_cells.choose(&mut rand::thread_rng()).copied()
}

/// The destination that a pick among the cells stands for: the coordinates
/// of the picked cell, or the origin where nothing was picked.
pub open spec fn picked_destination(picked: Option<HexCell>) -> (u8, u8) {
    match picked {
        Some(cell) => cell.coordinates,
        None => (0u8, 0u8),
    }
}

/// Whether a traveler that heads for `destination` and stands exactly on the
/// cell `standing_on`, if on any, needs a new destination: it has none yet,
/// or it has reached the one it had.
pub open spec fn needs_destination(
    destination: Option<(u8, u8)>,
    standing_on: Option<(u8, u8)>,
) -> bool {
    match destination {
        None => true,
        Some(d) => standing_on == Some(d),
    }
}

/// Turns a pick among the cells into a destination.
pub fn destination_of(picked: Option<HexCell>) -> (destination: (u8, u8))
    ensures
        destination == picked_destination(picked),
{
    match picked {
        Some(cell) => cell.coordinates,
        None => (0, 0),
    }
}

/// The coordinates of a cell picked at random, or the origin where there are
/// no cells.
pub fn random_destination(hex_cells: &Vec<HexCell>) -> (destination: (u8, u8))
    ensures
        hex_cells@.len() == 0 ==> destination == (0u8, 0u8),
        hex_cells@.len() > 0 ==> exists|i: int|
            0 <= i < hex_cells@.len() && (#[trigger] hex_cells@[i]).coordinates == destination,
{
    let picked = choose_cell(hex_cells);
    destination_of(picked)
}

/// Settles where the traveler heads in this tick and returns that
/// destination. `standing_on` is the cell on whose coordinates the traveler
/// stands exactly, if there is one. A traveler on its way keeps its
/// destination. One without a destination, or one that has arrived, gets the
/// coordinates of a cell picked at random, or the origin where there are no
/// cells.
pub fn travel(
    traveler: &mut Traveler,
    standing_on: Option<(u8, u8)>,
    hex_cells: &Vec<HexCell>,
) -> (destination: (u8, u8))
    ensures
        final(traveler).destination == Some(destination),
        !needs_destination(old(traveler).destination, standing_on) ==> old(traveler).destination
            == Some(destination),
        needs_destination(old(traveler).destination, standing_on) && hex_cells@.len() == 0
            ==> destination == (0u8, 0u8),
        needs_destination(old(traveler).destination, standing_on) && hex_cells@.len() > 0
            ==> exists|i: int|
            0 <= i < hex_cells@.len() && (#[trigger] hex_cells@[i]).coordinates == destination,
{
    let arrived = match (traveler.destination, standing_on) {
        (Some(d), Some(here)) => d.0 == here.0 && d.1 == here.1,
        _ => false,
    };
    let destination = match traveler.destination {
        Some(d) => if arrived {
            random_destination(hex_cells)
        } else {
            d
        },
        None => random_destination(hex_cells),
    };
    traveler.destination = Some(destination);
    destination
}

} // verus!
