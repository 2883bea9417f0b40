//! Tile classification: the ground's shape and what covers it.

use vstd::prelude::*;

verus! {

/// The shape of the ground of a tile. The final variant counts the others
/// and is used to size lookup tables.
#[derive(Debug, PartialEq, Eq, Clone, Copy, Structural)]
pub enum Terrain {
    Water,
    Basin,
    Plain,
    Hill,
    Plateau,
    Total,
}

/// What covers the ground of a tile. The final variant counts the others
/// and is used to size lookup tables.
#[derive(Debug, PartialEq, Eq, Clone, Copy, Structural)]
pub enum Surface {
    Soil,
    Grass,
    Forest,
    Sand,
    Snow,
    Ice,
    Total,
}

} // verus!
