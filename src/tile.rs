use vstd::prelude::*;

verus! {

/// One cell of the dungeon grid.
#[derive(Clone, Copy, Debug, PartialEq, Eq, Structural)]
pub struct Tile {
    /// Nothing may move onto a blocked tile.
    pub blocked: bool,
    /// Decides the background color a cell is painted with.
    pub block_sight: bool,
}

impl Tile {
    /// The floor tile: neither blocks movement nor sight.
    pub open spec fn floor() -> Tile {
        Tile { blocked: false, block_sight: false }
    }

    /// The wall tile: blocks both movement and sight.
    pub open spec fn solid() -> Tile {
        Tile { blocked: true, block_sight: true }
    }

    pub fn empty() -> (t: Tile)
        ensures
            t == Tile::floor(),
    {
        Tile { blocked: false, block_sight: false }
    }

    pub fn wall() -> (t: Tile)
        ensures
            t == Tile::solid(),
    {
        Tile { blocked: true, block_sight: true }
    }
}

} // verus!
