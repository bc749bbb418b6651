use vstd::prelude::*;

use crate::color::Color;
use crate::game::Game;
use crate::map::TileMap;
use crate::render::{Cell, Frame};

verus! {

/// A positioned glyph on the map: the player or another actor.
#[derive(Clone, Copy, Debug, PartialEq, Eq, Structural)]
pub struct Entity {
    pub x: i32,
    pub y: i32,
    pub glyph: char,
    pub color: Color,
}

/// Whether an entity at `(x, y)` may step by `(dx, dy)` on `map`: the target lies on
/// the grid and its tile does not block movement.
pub open spec fn can_move(map: TileMap, x: int, y: int, dx: int, dy: int) -> bool {
    map.in_bounds_spec(x + dx, y + dy) && !map.tile(x + dx, y + dy).blocked
}

/// Where `e` stands after an attempt to step by `(dx, dy)` on `map`.
pub open spec fn stepped(e: Entity, map: TileMap, dx: int, dy: int) -> Entity {
    if can_move(map, e.x as int, e.y as int, dx, dy) {
        Entity { x: (e.x + dx) as i32, y: (e.y + dy) as i32, ..e }
    } else {
        e
    }
}

impl Entity {
    pub fn new(x: i32, y: i32, glyph: char, color: Color) -> (e: Entity)
        ensures
            e == (Entity { x, y, glyph, color }),
    {
        Entity { x, y, glyph, color }
    }

    /// Moves the entity by `(dx, dy)` when the target is on the map and not blocked;
    /// otherwise leaves it where it is. Returns whether the move was made.
    pub fn move_by(&mut self, dx: i32, dy: i32, game: &Game) -> (moved: bool)
        requires
            game.wf(),
        ensures
            moved == can_move(game.map, old(self).x as int, old(self).y as int, dx as int, dy as int),
            moved ==> final(self).x == old(self).x + dx && final(self).y == old(self).y + dy,
            !moved ==> final(self).x == old(self).x && final(self).y == old(self).y,
            final(self).glyph == old(self).glyph,
            final(self).color == old(self).color,
            *final(self) == stepped(*old(self), game.map, dx as int, dy as int),
    {
        let tx: i64 = self.x as i64 + dx as i64;
        let ty: i64 = self.y as i64 + dy as i64;
        proof {
            game.map.lemma_dims_fit();
        }
        match game.map.tile_at(tx, ty) {
            Ok(tile) => {
                if tile.blocked {
                    false
                } else {
                    self.x = tx as i32;
                    self.y = ty as i32;
                    true
                }
            },
            Err(_) => false,
        }
    }

    /// Draws the entity's glyph in its color at its position, keeping the
    /// cell's background. An entity off the frame draws nothing.
    pub fn draw(&self, con: &mut Frame)
        requires
            old(con).wf(),
        ensures
            final(con).wf(),
            final(con).spec_width() == old(con).spec_width(),
            final(con).spec_height() == old(con).spec_height(),
            forall|i: int, j: int|
                #![trigger final(con).cell(i, j)]
                old(con).in_bounds_spec(i, j) ==> final(con).cell(i, j) == self.drawn_over(old(con).cell(i, j), i, j),
    {
        con.put_char(self.x, self.y, self.glyph, self.color);
    }

    /// What cell `(x, y)` holds after the entity is drawn over `base`.
    pub open spec fn drawn_over(self, base: Cell, x: int, y: int) -> Cell {
        if self.x == x && self.y == y {
            Cell { glyph: self.glyph, fg: self.color, bg: base.bg }
        } else {
            base
        }
    }
}

} // verus!
