use vstd::prelude::*;

use crate::color::Color;
use crate::entity::Entity;
use crate::game::{make_map, starting_tile, Config, Game};
use crate::input::{action_of, after_action, handle_keys, Action, KeyEvent};
use crate::render::{blank_cell, render_all, rendered, Frame};

verus! {

/// Whether the game loop goes on.
#[derive(Clone, Copy, Debug, PartialEq, Eq, Structural)]
pub enum LoopState {
    Running,
    Terminated,
}

/// What the loop hears between two frames.
#[derive(Clone, Copy, Debug, PartialEq, Eq, Structural)]
pub enum Event {
    /// A key was pressed.
    Key(KeyEvent),
    /// The display surface asked to be closed.
    CloseRequested,
}

/// Work that the display backend must do after a step.
#[derive(Clone, Copy, Debug, PartialEq, Eq, Structural)]
pub enum Effect {
    Nothing,
    ToggleFullscreen,
}

/// The state that follows `state` on `event`: an exit key or a close request ends
/// the loop, and an ended loop stays ended.
pub open spec fn next_state(state: LoopState, event: Event) -> LoopState {
    match (state, event) {
        (LoopState::Terminated, _) => LoopState::Terminated,
        (_, Event::CloseRequested) => LoopState::Terminated,
        (_, Event::Key(k)) => if action_of(k) == Action::Exit {
            LoopState::Terminated
        } else {
            LoopState::Running
        },
    }
}

/// The entity sequence after `event` in `state`: a key press of a running loop
/// moves the player, the first entity, and no other.
pub open spec fn next_entities(state: LoopState, event: Event, es: Seq<Entity>, game: Game) -> Seq<Entity> {
    match (state, event) {
        (LoopState::Running, Event::Key(k)) => if es.len() > 0 {
            es.update(0, after_action(es[0], action_of(k), game))
        } else {
            es
        },
        _ => es,
    }
}

/// The backend work that `event` asks for in `state`.
pub open spec fn effect_of(state: LoopState, event: Event) -> Effect {
    match (state, event) {
        (LoopState::Running, Event::Key(k)) => if action_of(k) == Action::ToggleDisplayMode {
            Effect::ToggleFullscreen
        } else {
            Effect::Nothing
        },
        _ => Effect::Nothing,
    }
}

/// An exit key ends the loop from any state, and no entity moves on it.
pub proof fn lemma_exit_terminates(state: LoopState, key: KeyEvent, es: Seq<Entity>, game: Game)
    requires
        action_of(key) == Action::Exit,
    ensures
        next_state(state, Event::Key(key)) == LoopState::Terminated,
        next_entities(state, Event::Key(key), es, game) == es,
        effect_of(state, Event::Key(key)) == Effect::Nothing,
{
    if state == LoopState::Running && es.len() > 0 {
        assert(es.update(0, es[0]) =~= es);
    }
}

/// One decision of the game loop: the next state, the entities after the
/// player's move, and the backend work to do.
pub fn step(state: LoopState, event: &Event, game: &Game, entities: &mut Vec<Entity>) -> (r: (LoopState, Effect))
    requires
        game.wf(),
    ensures
        r.0 == next_state(state, *event),
        r.1 == effect_of(state, *event),
        final(entities)@ == next_entities(state, *event, old(entities)@, *game),
{
    match (state, event) {
        (LoopState::Running, Event::Key(key)) => {
            let action = if entities.len() > 0 {
                let mut player = entities[0];
                let action = handle_keys(key, game, &mut player);
                entities.set(0, player);
                action
            } else {
                crate::input::action_for_key(key)
            };
            match action {
                Action::Exit => (LoopState::Terminated, Effect::Nothing),
                Action::ToggleDisplayMode => (LoopState::Running, Effect::ToggleFullscreen),
                _ => (LoopState::Running, Effect::Nothing),
            }
        },
        (LoopState::Running, Event::CloseRequested) => (LoopState::Terminated, Effect::Nothing),
        (LoopState::Terminated, _) => (LoopState::Terminated, Effect::Nothing),
    }
}

/// Draws one whole frame into `con`: clears it, then renders the entities and
/// the map's backgrounds.
pub fn draw_frame(con: &mut Frame, game: &Game, entities: &[Entity], config: &Config)
    requires
        old(con).wf(),
        game.wf(),
        old(con).spec_width() == game.map.spec_width(),
        old(con).spec_height() == game.map.spec_height(),
    ensures
        final(con).wf(),
        final(con).spec_width() == old(con).spec_width(),
        final(con).spec_height() == old(con).spec_height(),
        forall|x: int, y: int|
            #![trigger final(con).cell(x, y)]
            old(con).in_bounds_spec(x, y) ==> final(con).cell(x, y) == rendered(
                entities@,
                blank_cell(),
                game.map.tile(x, y),
                *config,
                x,
                y,
            ),
{
    con.clear();
    render_all(con, game, entities, config);
}

impl Game {
    /// A game on the starting map of `width` by `height` cells.
    pub fn new(width: usize, height: usize) -> (g: Game)
        requires
            width <= i32::MAX,
            height <= i32::MAX,
        ensures
            g.wf(),
            g.map.spec_width() == width,
            g.map.spec_height() == height,
            forall|x: int, y: int| g.map.in_bounds_spec(x, y) ==> #[trigger] g.map.tile(x, y) == starting_tile(x, y),
    {
        Game { map: make_map(width, height) }
    }
}

/// The entities a session starts with: the player, white, at the centre of the
/// screen, and a yellow one five cells to its left.
pub fn starting_entities(config: &Config) -> (es: Vec<Entity>)
    requires
        config.wf(),
    ensures
        es@ == seq![
            Entity {
                x: (config.screen_width / 2) as i32,
                y: (config.screen_height / 2) as i32,
                glyph: '@',
                color: Color { r: 255, g: 255, b: 255 },
            },
            Entity {
                x: (config.screen_width / 2 - 5) as i32,
                y: (config.screen_height / 2) as i32,
                glyph: '@',
                color: Color { r: 255, g: 255, b: 0 },
            },
        ],
{
    let cx = config.screen_width / 2;
    let cy = config.screen_height / 2;
    let player = Entity::new(cx, cy, '@', Color::new(255, 255, 255));
    let npc = Entity::new(cx - 5, cy, '@', Color::new(255, 255, 0));
    let mut es: Vec<Entity> = Vec::new();
    es.push(player);
    es.push(npc);
    es
}

} // verus!
