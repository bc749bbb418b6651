use vstd::prelude::*;

use crate::color::Color;
use crate::map::TileMap;
use crate::tile::Tile;

verus! {

/// The fixed parameters of a session, supplied at startup.
#[derive(Clone, Copy, Debug, PartialEq, Eq, Structural)]
pub struct Config {
    pub screen_width: i32,
    pub screen_height: i32,
    pub map_width: i32,
    pub map_height: i32,
    pub dark_wall: Color,
    pub dark_ground: Color,
    pub limit_fps: i32,
}

impl Config {
    /// Every size is a count of cells, so none is negative.
    pub open spec fn wf(&self) -> bool {
        &&& self.screen_width >= 0
        &&& self.screen_height >= 0
        &&& self.map_width >= 0
        &&& self.map_height >= 0
    }

    /// An 80 by 50 screen over an 80 by 45 map, at most 20 frames a second.
    pub fn standard() -> (c: Config)
        ensures
            c.wf(),
            c == (Config {
                screen_width: 80,
                screen_height: 50,
                map_width: 80,
                map_height: 45,
                dark_wall: Color { r: 0, g: 0, b: 100 },
                dark_ground: Color { r: 50, g: 50, b: 150 },
                limit_fps: 20,
            }),
    {
        Config {
            screen_width: 80,
            screen_height: 50,
            map_width: 80,
            map_height: 45,
            dark_wall: Color::new(0, 0, 100),
            dark_ground: Color::new(50, 50, 150),
            limit_fps: 20,
        }
    }
}

/// The state that lives for the whole session: the map.
pub struct Game {
    pub map: TileMap,
}

impl Game {
    pub open spec fn wf(&self) -> bool {
        self.map.wf()
    }
}

/// The first wall of the starting map.
pub const WALL_A_X: i64 = 30;
/// The second wall of the starting map.
pub const WALL_B_X: i64 = 50;
/// The row both walls stand on.
pub const WALL_Y: i64 = 22;

/// The tile that the starting map holds at `(x, y)`.
pub open spec fn starting_tile(x: int, y: int) -> Tile {
    if (x == WALL_A_X || x == WALL_B_X) && y == WALL_Y {
        Tile::wall_spec()
    } else {
        Tile::empty_spec()
    }
}

/// The starting map: `width` by `height`, all empty but for two walls on row 22,
/// at columns 30 and 50 (where those lie on the grid).
pub fn make_map(width: usize, height: usize) -> (m: TileMap)
    requires
        width <= i32::MAX,
        height <= i32::MAX,
    ensures
        m.wf(),
        m.spec_width() == width,
        m.spec_height() == height,
        forall|x: int, y: int| m.in_bounds_spec(x, y) ==> #[trigger] m.tile(x, y) == starting_tile(x, y),
{
    let mut map = TileMap::create(width, height);
    let _ = map.set_tile(WALL_A_X, WALL_Y, Tile::wall());
    let _ = map.set_tile(WALL_B_X, WALL_Y, Tile::wall());
    map
}

/// Every tile of the starting map is one of the two canonical variants.
pub proof fn lemma_starting_map_canonical(x: int, y: int)
    ensures
        starting_tile(x, y).is_canonical(),
{
}

} // verus!
