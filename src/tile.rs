use vstd::prelude::*;

verus! {

/// One cell of the map.
#[derive(Clone, Copy, Debug, PartialEq, Eq, Structural)]
pub struct Tile {
    /// The tile stops movement into it.
    pub blocked: bool,
    /// The tile is drawn in the wall style.
    pub block_sight: bool,
}

impl Tile {
    pub open spec fn empty_spec() -> Tile {
        Tile { blocked: false, block_sight: false }
    }

    pub open spec fn wall_spec() -> Tile {
        Tile { blocked: true, block_sight: true }
    }

    /// One of the two variants that map construction produces.
    pub open spec fn is_canonical(self) -> bool {
        self == Tile::empty_spec() || self == Tile::wall_spec()
    }

    /// A walkable tile that does not block sight.
    pub fn empty() -> (r: Tile)
        ensures
            r == Tile::empty_spec(),
    {
        Tile { blocked: false, block_sight: false }
    }

    /// A tile that blocks both movement and sight.
    pub fn wall() -> (r: Tile)
        ensures
            r == Tile::wall_spec(),
    {
        Tile { blocked: true, block_sight: true }
    }
}

/// In either canonical variant a tile blocks sight exactly when it blocks movement.
pub proof fn lemma_canonical_blocking_agrees(t: Tile)
    requires
        t.is_canonical(),
    ensures
        t.blocked == t.block_sight,
{
}

} // verus!
