use vstd::prelude::*;

use crate::tile::Tile;

verus! {

/// The error of an access to a cell outside the grid.
#[derive(Clone, Copy, Debug, PartialEq, Eq, Structural)]
pub enum OutOfBounds {
    OutOfBounds,
}

/// A fixed-size grid of tiles, stored column by column (`tiles[x][y]`).
pub struct TileMap {
    width: usize,
    height: usize,
    tiles: Vec<Vec<Tile>>,
}

impl TileMap {
    pub closed spec fn spec_width(&self) -> int {
        self.width as int
    }

    pub closed spec fn spec_height(&self) -> int {
        self.height as int
    }

    /// The grid has its fixed dimensions, and every coordinate fits an `i32`.
    pub closed spec fn wf(&self) -> bool {
        &&& self.width <= i32::MAX
        &&& self.height <= i32::MAX
        &&& self.tiles@.len() == self.width
        &&& forall|x: int| 0 <= x < self.width ==> #[trigger] self.tiles@[x]@.len() == self.height
    }

    /// A well-formed map's dimensions fit an `i32`.
    pub proof fn lemma_dims_fit(&self)
        requires
            self.wf(),
        ensures
            0 <= self.spec_width() <= i32::MAX,
            0 <= self.spec_height() <= i32::MAX,
    {
    }

    pub open spec fn in_bounds_spec(&self, x: int, y: int) -> bool {
        0 <= x < self.spec_width() && 0 <= y < self.spec_height()
    }

    /// The tile at `(x, y)`; meaningful inside the bounds only.
    pub closed spec fn tile(&self, x: int, y: int) -> Tile {
        self.tiles@[x]@[y]
    }

    /// A `width` by `height` grid in which every cell is empty.
    pub fn create(width: usize, height: usize) -> (m: TileMap)
        requires
            width <= i32::MAX,
            height <= i32::MAX,
        ensures
            m.wf(),
            m.spec_width() == width,
            m.spec_height() == height,
            forall|x: int, y: int| m.in_bounds_spec(x, y) ==> #[trigger] m.tile(x, y) == Tile::empty_spec(),
    {
        let mut tiles: Vec<Vec<Tile>> = Vec::new();
        let mut i: usize = 0;
        while i < width
            invariant
                i <= width,
                tiles@.len() == i,
                forall|x: int| 0 <= x < i ==> #[trigger] tiles@[x]@.len() == height,
                forall|x: int, y: int|
                    0 <= x < i && 0 <= y < height ==> #[trigger] tiles@[x]@[y] == Tile::empty_spec(),
            decreases width - i,
        {
            let mut column: Vec<Tile> = Vec::new();
            let mut j: usize = 0;
            while j < height
                invariant
                    j <= height,
                    column@.len() == j,
                    forall|y: int| 0 <= y < j ==> #[trigger] column@[y] == Tile::empty_spec(),
                decreases height - j,
            {
                column.push(Tile::empty());
                j = j + 1;
            }
            tiles.push(column);
            i = i + 1;
        }
        TileMap { width, height, tiles }
    }

    pub fn width(&self) -> (w: usize)
        ensures
            w == self.spec_width(),
    {
        self.width
    }

    pub fn height(&self) -> (h: usize)
        ensures
            h == self.spec_height(),
    {
        self.height
    }

    /// Whether `(x, y)` lies on the grid.
    pub fn in_bounds(&self, x: i64, y: i64) -> (r: bool)
        requires
            self.wf(),
        ensures
            r == self.in_bounds_spec(x as int, y as int),
    {
        0 <= x && x < self.width as i64 && 0 <= y && y < self.height as i64
    }

    /// The tile at `(x, y)`, or `OutOfBounds` off the grid.
    pub fn tile_at(&self, x: i64, y: i64) -> (r: Result<Tile, OutOfBounds>)
        requires
            self.wf(),
        ensures
            self.in_bounds_spec(x as int, y as int) ==> r == Ok::<Tile, OutOfBounds>(self.tile(x as int, y as int)),
            !self.in_bounds_spec(x as int, y as int) ==> r == Err::<Tile, OutOfBounds>(OutOfBounds::OutOfBounds),
    {
        if self.in_bounds(x, y) {
            Ok(self.tiles[x as usize][y as usize])
        } else {
            Err(OutOfBounds::OutOfBounds)
        }
    }

    /// The tile at `(x, y)`, for a caller that already knows the cell is on the grid.
    pub fn tile_on_grid(&self, x: usize, y: usize) -> (t: Tile)
        requires
            self.wf(),
            self.in_bounds_spec(x as int, y as int),
        ensures
            t == self.tile(x as int, y as int),
    {
        self.tiles[x][y]
    }

    /// Replaces the tile at `(x, y)`; off the grid the map is left as it was.
    pub fn set_tile(&mut self, x: i64, y: i64, tile: Tile) -> (r: Result<(), OutOfBounds>)
        requires
            old(self).wf(),
        ensures
            final(self).wf(),
            final(self).spec_width() == old(self).spec_width(),
            final(self).spec_height() == old(self).spec_height(),
            old(self).in_bounds_spec(x as int, y as int) ==> r is Ok,
            !old(self).in_bounds_spec(x as int, y as int) ==> r == Err::<(), OutOfBounds>(OutOfBounds::OutOfBounds),
            forall|i: int, j: int|
                #![trigger final(self).tile(i, j)]
                old(self).in_bounds_spec(i, j) ==> final(self).tile(i, j) == (
                if i == x && j == y { tile } else { old(self).tile(i, j) }),
    {
        if !self.in_bounds(x, y) {
            return Err(OutOfBounds::OutOfBounds);
        }
        let xi = x as usize;
        let yi = y as usize;
        let mut column: Vec<Tile> = Vec::new();
        self.tiles.set_and_swap(xi, &mut column);
        column.set(yi, tile);
        self.tiles.set_and_swap(xi, &mut column);
        Ok(())
    }
}

} // verus!
