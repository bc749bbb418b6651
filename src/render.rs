use vstd::prelude::*;

use crate::color::Color;
use crate::entity::Entity;
use crate::game::{Config, Game};
use crate::tile::Tile;

verus! {

/// One character cell of a frame: a glyph in a foreground color over a background color.
#[derive(Clone, Copy, Debug, PartialEq, Eq, Structural)]
pub struct Cell {
    pub glyph: char,
    pub fg: Color,
    pub bg: Color,
}

/// A space in white over black: what a cleared frame holds.
pub open spec fn blank_cell() -> Cell {
    Cell { glyph: ' ', fg: Color { r: 255, g: 255, b: 255 }, bg: Color { r: 0, g: 0, b: 0 } }
}

/// An off-screen grid of cells that a frame is drawn into before it is shown,
/// stored column by column (`cells[x][y]`).
pub struct Frame {
    width: usize,
    height: usize,
    cells: Vec<Vec<Cell>>,
}

impl Frame {
    pub closed spec fn spec_width(&self) -> int {
        self.width as int
    }

    pub closed spec fn spec_height(&self) -> int {
        self.height as int
    }

    pub closed spec fn wf(&self) -> bool {
        &&& self.width <= i32::MAX
        &&& self.height <= i32::MAX
        &&& self.cells@.len() == self.width
        &&& forall|x: int| 0 <= x < self.width ==> #[trigger] self.cells@[x]@.len() == self.height
    }

    pub open spec fn in_bounds_spec(&self, x: int, y: int) -> bool {
        0 <= x < self.spec_width() && 0 <= y < self.spec_height()
    }

    /// The cell at `(x, y)`; meaningful inside the bounds only.
    pub closed spec fn cell(&self, x: int, y: int) -> Cell {
        self.cells@[x]@[y]
    }

    /// A `width` by `height` frame of blank cells.
    pub fn new(width: usize, height: usize) -> (f: Frame)
        requires
            width <= i32::MAX,
            height <= i32::MAX,
        ensures
            f.wf(),
            f.spec_width() == width,
            f.spec_height() == height,
            forall|x: int, y: int| f.in_bounds_spec(x, y) ==> #[trigger] f.cell(x, y) == blank_cell(),
    {
        let blank = Cell { glyph: ' ', fg: Color::new(255, 255, 255), bg: Color::new(0, 0, 0) };
        let mut cells: Vec<Vec<Cell>> = Vec::new();
        let mut i: usize = 0;
        while i < width
            invariant
                i <= width,
                blank == blank_cell(),
                cells@.len() == i,
                forall|x: int| 0 <= x < i ==> #[trigger] cells@[x]@.len() == height,
                forall|x: int, y: int|
                    0 <= x < i && 0 <= y < height ==> #[trigger] cells@[x]@[y] == blank_cell(),
            decreases width - i,
        {
            let mut column: Vec<Cell> = Vec::new();
            let mut j: usize = 0;
            while j < height
                invariant
                    j <= height,
                    blank == blank_cell(),
                    column@.len() == j,
                    forall|y: int| 0 <= y < j ==> #[trigger] column@[y] == blank_cell(),
                decreases height - j,
            {
                column.push(blank);
                j = j + 1;
            }
            cells.push(column);
            i = i + 1;
        }
        Frame { width, height, cells }
    }

    pub fn width(&self) -> (w: usize)
        ensures
            w == self.spec_width(),
    {
        self.width
    }

    pub fn height(&self) -> (h: usize)
        ensures
            h == self.spec_height(),
    {
        self.height
    }

    /// Resets every cell to blank.
    pub fn clear(&mut self)
        requires
            old(self).wf(),
        ensures
            final(self).wf(),
            final(self).spec_width() == old(self).spec_width(),
            final(self).spec_height() == old(self).spec_height(),
            forall|x: int, y: int|
                final(self).in_bounds_spec(x, y) ==> #[trigger] final(self).cell(x, y) == blank_cell(),
    {
        *self = Frame::new(self.width, self.height);
    }

    /// The cell at `(x, y)`, or `None` off the frame.
    pub fn cell_at(&self, x: i64, y: i64) -> (r: Option<Cell>)
        requires
            self.wf(),
        ensures
            self.in_bounds_spec(x as int, y as int) ==> r == Some(self.cell(x as int, y as int)),
            !self.in_bounds_spec(x as int, y as int) ==> r is None,
    {
        if 0 <= x && x < self.width as i64 && 0 <= y && y < self.height as i64 {
            Some(self.cells[x as usize][y as usize])
        } else {
            None
        }
    }

    fn replace(&mut self, x: usize, y: usize, c: Cell)
        requires
            old(self).wf(),
            x < old(self).spec_width(),
            y < old(self).spec_height(),
        ensures
            final(self).wf(),
            final(self).spec_width() == old(self).spec_width(),
            final(self).spec_height() == old(self).spec_height(),
            forall|i: int, j: int|
                #![trigger final(self).cell(i, j)]
                old(self).in_bounds_spec(i, j) ==> final(self).cell(i, j) == (
                if i == x && j == y { c } else { old(self).cell(i, j) }),
    {
        let mut column: Vec<Cell> = Vec::new();
        self.cells.set_and_swap(x, &mut column);
        column.set(y, c);
        self.cells.set_and_swap(x, &mut column);
    }

    /// Writes `glyph` in color `fg` at `(x, y)`, keeping the cell's background.
    /// Off the frame nothing changes. Returns whether a cell was written.
    pub fn put_char(&mut self, x: i32, y: i32, glyph: char, fg: Color) -> (r: bool)
        requires
            old(self).wf(),
        ensures
            final(self).wf(),
            final(self).spec_width() == old(self).spec_width(),
            final(self).spec_height() == old(self).spec_height(),
            r == old(self).in_bounds_spec(x as int, y as int),
            forall|i: int, j: int|
                #![trigger final(self).cell(i, j)]
                old(self).in_bounds_spec(i, j) ==> final(self).cell(i, j) == (
                if i == x && j == y {
                    Cell { glyph, fg, bg: old(self).cell(i, j).bg }
                } else {
                    old(self).cell(i, j)
                }),
    {
        if 0 <= x && (x as usize) < self.width && 0 <= y && (y as usize) < self.height {
            let old_cell = self.cells[x as usize][y as usize];
            self.replace(x as usize, y as usize, Cell { glyph, fg, bg: old_cell.bg });
            true
        } else {
            false
        }
    }

    /// Sets the background of `(x, y)` to `bg`, keeping its glyph and foreground.
    /// Off the frame nothing changes. Returns whether a cell was written.
    pub fn set_char_background(&mut self, x: i32, y: i32, bg: Color) -> (r: bool)
        requires
            old(self).wf(),
        ensures
            final(self).wf(),
            final(self).spec_width() == old(self).spec_width(),
            final(self).spec_height() == old(self).spec_height(),
            r == old(self).in_bounds_spec(x as int, y as int),
            forall|i: int, j: int|
                #![trigger final(self).cell(i, j)]
                old(self).in_bounds_spec(i, j) ==> final(self).cell(i, j) == (
                if i == x && j == y {
                    Cell { glyph: old(self).cell(i, j).glyph, fg: old(self).cell(i, j).fg, bg }
                } else {
                    old(self).cell(i, j)
                }),
    {
        if 0 <= x && (x as usize) < self.width && 0 <= y && (y as usize) < self.height {
            let old_cell = self.cells[x as usize][y as usize];
            self.replace(x as usize, y as usize, Cell { glyph: old_cell.glyph, fg: old_cell.fg, bg });
            true
        } else {
            false
        }
    }
}

/// What cell `(x, y)` holds after the entities are drawn over `base` in sequence order.
pub open spec fn drawn(es: Seq<Entity>, base: Cell, x: int, y: int) -> Cell
    decreases es.len(),
{
    if es.len() == 0 {
        base
    } else {
        es.last().drawn_over(drawn(es.drop_last(), base, x, y), x, y)
    }
}

/// The background that a tile is painted with.
pub open spec fn background_of(tile: Tile, config: Config) -> Color {
    if tile.block_sight {
        config.dark_wall
    } else {
        config.dark_ground
    }
}

/// What cell `(x, y)` holds after a whole frame is rendered over `base`: the
/// entities' glyphs, over the background of the tile beneath.
pub open spec fn rendered(es: Seq<Entity>, base: Cell, tile: Tile, config: Config, x: int, y: int) -> Cell {
    let d = drawn(es, base, x, y);
    Cell { glyph: d.glyph, fg: d.fg, bg: background_of(tile, config) }
}

/// Renders one frame into `con`: every entity in sequence order, then the
/// background of every map cell, which leaves the glyphs drawn before it in place.
pub fn render_all(con: &mut Frame, game: &Game, entities: &[Entity], config: &Config)
    requires
        old(con).wf(),
        game.wf(),
        old(con).spec_width() == game.map.spec_width(),
        old(con).spec_height() == game.map.spec_height(),
    ensures
        final(con).wf(),
        final(con).spec_width() == old(con).spec_width(),
        final(con).spec_height() == old(con).spec_height(),
        forall|x: int, y: int|
            #![trigger final(con).cell(x, y)]
            old(con).in_bounds_spec(x, y) ==> final(con).cell(x, y) == rendered(
                entities@,
                old(con).cell(x, y),
                game.map.tile(x, y),
                *config,
                x,
                y,
            ),
{
    let ghost base = *con;
    let mut i: usize = 0;
    while i < entities.len()
        invariant
            i <= entities@.len(),
            con.wf(),
            con.spec_width() == base.spec_width(),
            con.spec_height() == base.spec_height(),
            forall|x: int, y: int|
                #![trigger con.cell(x, y)]
                base.in_bounds_spec(x, y) ==> con.cell(x, y) == drawn(entities@.take(i as int), base.cell(x, y), x, y),
        decreases entities@.len() - i,
    {
        assert(entities@.take(i as int + 1).drop_last() =~= entities@.take(i as int));
        entities[i].draw(con);
        i = i + 1;
    }
    assert(entities@.take(entities@.len() as int) =~= entities@);
    let ghost after_entities = *con;
    let width = game.map.width();
    let height = game.map.height();
    let mut y: usize = 0;
    while y < height
        invariant
            y <= height,
            width == base.spec_width(),
            height == base.spec_height(),
            game.wf(),
            width == game.map.spec_width(),
            height == game.map.spec_height(),
            con.wf(),
            con.spec_width() == base.spec_width(),
            con.spec_height() == base.spec_height(),
            forall|i: int, j: int|
                #![trigger con.cell(i, j)]
                base.in_bounds_spec(i, j) ==> con.cell(i, j) == (if j < y {
                    rendered(entities@, base.cell(i, j), game.map.tile(i, j), *config, i, j)
                } else {
                    after_entities.cell(i, j)
                }),
            forall|i: int, j: int|
                #![trigger after_entities.cell(i, j)]
                base.in_bounds_spec(i, j) ==> after_entities.cell(i, j) == drawn(entities@, base.cell(i, j), i, j),
        decreases height - y,
    {
        let mut x: usize = 0;
        while x < width
            invariant
                x <= width,
                y < height,
                width == base.spec_width(),
                height == base.spec_height(),
                game.wf(),
                width == game.map.spec_width(),
                height == game.map.spec_height(),
                con.wf(),
                con.spec_width() == base.spec_width(),
                con.spec_height() == base.spec_height(),
                forall|i: int, j: int|
                    #![trigger con.cell(i, j)]
                    base.in_bounds_spec(i, j) ==> con.cell(i, j) == (if j < y || (j == y && i < x) {
                        rendered(entities@, base.cell(i, j), game.map.tile(i, j), *config, i, j)
                    } else {
                        after_entities.cell(i, j)
                    }),
                forall|i: int, j: int|
                    #![trigger after_entities.cell(i, j)]
                    base.in_bounds_spec(i, j) ==> after_entities.cell(i, j) == drawn(entities@, base.cell(i, j), i, j),
            decreases width - x,
        {
            let tile = game.map.tile_on_grid(x, y);
            let bg = if tile.block_sight { config.dark_wall } else { config.dark_ground };
            con.set_char_background(x as i32, y as i32, bg);
            x = x + 1;
        }
        y = y + 1;
    }
}

/// An entity that no later entity in the sequence covers keeps its glyph and
/// color through a whole render, and its cell's background still follows the tile.
pub proof fn lemma_render_keeps_glyph(
    es: Seq<Entity>,
    base: Cell,
    tile: Tile,
    config: Config,
    k: int,
)
    requires
        0 <= k < es.len(),
        forall|j: int| k < j < es.len() ==> !(#[trigger] es[j].x == es[k].x && es[j].y == es[k].y),
    ensures
        rendered(es, base, tile, config, es[k].x as int, es[k].y as int).glyph == es[k].glyph,
        rendered(es, base, tile, config, es[k].x as int, es[k].y as int).fg == es[k].color,
        rendered(es, base, tile, config, es[k].x as int, es[k].y as int).bg == background_of(tile, config),
{
    lemma_last_drawn_wins(es, base, k);
}

/// Drawing the entities in order leaves, at an entity's position, the glyph of the
/// last entity there: later draws cover earlier ones.
pub proof fn lemma_last_drawn_wins(es: Seq<Entity>, base: Cell, k: int)
    requires
        0 <= k < es.len(),
        forall|j: int| k < j < es.len() ==> !(#[trigger] es[j].x == es[k].x && es[j].y == es[k].y),
    ensures
        drawn(es, base, es[k].x as int, es[k].y as int).glyph == es[k].glyph,
        drawn(es, base, es[k].x as int, es[k].y as int).fg == es[k].color,
    decreases es.len(),
{
    if k < es.len() - 1 {
        let prefix = es.drop_last();
        assert forall|j: int| k < j < prefix.len() implies !(#[trigger] prefix[j].x == prefix[k].x
            && prefix[j].y == prefix[k].y) by {
            assert(prefix[j] == es[j]);
        }
        lemma_last_drawn_wins(prefix, base, k);
        assert(es.last() == es[es.len() - 1]);
    }
}

} // verus!
