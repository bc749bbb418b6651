use vstd::prelude::*;

use crate::entity::{stepped, Entity};
use crate::game::Game;

verus! {

/// The keys that the game tells apart.
#[derive(Clone, Copy, Debug, PartialEq, Eq, Structural)]
pub enum KeyCode {
    Enter,
    Escape,
    Up,
    Down,
    Left,
    Right,
    Other,
}

/// One key press: the key, and whether Alt was held.
#[derive(Clone, Copy, Debug, PartialEq, Eq, Structural)]
pub struct KeyEvent {
    pub code: KeyCode,
    pub alt: bool,
}

/// What one key press asks of the game.
#[derive(Clone, Copy, Debug, PartialEq, Eq, Structural)]
pub enum Action {
    Exit,
    ToggleDisplayMode,
    Move { dx: i32, dy: i32 },
    NoOp,
}

/// The action that a key press stands for.
pub open spec fn action_of(key: KeyEvent) -> Action {
    match key.code {
        KeyCode::Enter => if key.alt {
            Action::ToggleDisplayMode
        } else {
            Action::NoOp
        },
        KeyCode::Escape => Action::Exit,
        KeyCode::Up => Action::Move { dx: 0, dy: -1i32 },
        KeyCode::Down => Action::Move { dx: 0, dy: 1 },
        KeyCode::Left => Action::Move { dx: -1i32, dy: 0 },
        KeyCode::Right => Action::Move { dx: 1, dy: 0 },
        KeyCode::Other => Action::NoOp,
    }
}

/// Decodes a key press: Alt+Enter toggles the display mode, Escape exits,
/// an arrow key moves one cell along its axis, and any other key does nothing.
pub fn action_for_key(key: &KeyEvent) -> (a: Action)
    ensures
        a == action_of(*key),
{
    match key.code {
        KeyCode::Enter => if key.alt {
            Action::ToggleDisplayMode
        } else {
            Action::NoOp
        },
        KeyCode::Escape => Action::Exit,
        KeyCode::Up => Action::Move { dx: 0, dy: -1 },
        KeyCode::Down => Action::Move { dx: 0, dy: 1 },
        KeyCode::Left => Action::Move { dx: -1, dy: 0 },
        KeyCode::Right => Action::Move { dx: 1, dy: 0 },
        KeyCode::Other => Action::NoOp,
    }
}

/// Where `player` stands after `action` is applied to it on `game`'s map.
pub open spec fn after_action(player: Entity, action: Action, game: Game) -> Entity {
    match action {
        Action::Move { dx, dy } => stepped(player, game.map, dx as int, dy as int),
        _ => player,
    }
}

/// Applies one key press to the player: an arrow key moves it where the map
/// allows. Returns the decoded action, so that the caller can exit or toggle
/// the display mode.
pub fn handle_keys(key: &KeyEvent, game: &Game, player: &mut Entity) -> (a: Action)
    requires
        game.wf(),
    ensures
        a == action_of(*key),
        *final(player) == after_action(*old(player), a, *game),
{
    let action = action_for_key(key);
    match action {
        Action::Move { dx, dy } => {
            player.move_by(dx, dy, game);
        },
        _ => {},
    }
    action
}

} // verus!
