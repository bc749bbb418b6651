use roguelike::color::Color;
use roguelike::entity::Entity;
use roguelike::game::{Config, Game};
use roguelike::input::{action_for_key, handle_keys, Action, KeyCode, KeyEvent};
use roguelike::session::{starting_entities, step, Effect, Event, LoopState};

fn key(code: KeyCode) -> KeyEvent {
    KeyEvent { code, alt: false }
}

#[test]
fn keys_decode_to_actions() {
    assert_eq!(action_for_key(&key(KeyCode::Escape)), Action::Exit);
    assert_eq!(action_for_key(&KeyEvent { code: KeyCode::Enter, alt: true }), Action::ToggleDisplayMode);
    assert_eq!(action_for_key(&key(KeyCode::Enter)), Action::NoOp);
    assert_eq!(action_for_key(&key(KeyCode::Up)), Action::Move { dx: 0, dy: -1 });
    assert_eq!(action_for_key(&key(KeyCode::Down)), Action::Move { dx: 0, dy: 1 });
    assert_eq!(action_for_key(&key(KeyCode::Left)), Action::Move { dx: -1, dy: 0 });
    assert_eq!(action_for_key(&key(KeyCode::Right)), Action::Move { dx: 1, dy: 0 });
    assert_eq!(action_for_key(&key(KeyCode::Other)), Action::NoOp);
}

#[test]
fn handle_keys_moves_player() {
    let game = Game::new(80, 45);
    let mut p = Entity::new(40, 25, '@', Color::new(255, 255, 255));
    assert_eq!(handle_keys(&key(KeyCode::Up), &game, &mut p), Action::Move { dx: 0, dy: -1 });
    assert_eq!((p.x, p.y), (40, 24));
    assert_eq!(handle_keys(&key(KeyCode::Other), &game, &mut p), Action::NoOp);
    assert_eq!((p.x, p.y), (40, 24));
}

#[test]
fn escape_terminates_loop() {
    let game = Game::new(80, 45);
    let mut es = starting_entities(&Config::standard());
    let before = es.clone();
    let (state, effect) = step(LoopState::Running, &Event::Key(key(KeyCode::Escape)), &game, &mut es);
    assert_eq!(state, LoopState::Terminated);
    assert_eq!(effect, Effect::Nothing);
    assert_eq!(es, before);
    let (state, _) = step(state, &Event::Key(key(KeyCode::Left)), &game, &mut es);
    assert_eq!(state, LoopState::Terminated);
    assert_eq!(es, before);
}

#[test]
fn close_request_terminates_loop() {
    let game = Game::new(80, 45);
    let mut es = starting_entities(&Config::standard());
    let (state, effect) = step(LoopState::Running, &Event::CloseRequested, &game, &mut es);
    assert_eq!(state, LoopState::Terminated);
    assert_eq!(effect, Effect::Nothing);
}

#[test]
fn arrow_moves_only_the_player() {
    let game = Game::new(80, 45);
    let mut es = starting_entities(&Config::standard());
    assert_eq!((es[0].x, es[0].y), (40, 25));
    assert_eq!((es[1].x, es[1].y), (35, 25));
    assert_eq!(es[1].color, Color::new(255, 255, 0));
    let (state, effect) = step(LoopState::Running, &Event::Key(key(KeyCode::Right)), &game, &mut es);
    assert_eq!(state, LoopState::Running);
    assert_eq!(effect, Effect::Nothing);
    assert_eq!((es[0].x, es[0].y), (41, 25));
    assert_eq!((es[1].x, es[1].y), (35, 25));
}

#[test]
fn alt_enter_asks_for_fullscreen_toggle() {
    let game = Game::new(80, 45);
    let mut es = starting_entities(&Config::standard());
    let before = es.clone();
    let ev = Event::Key(KeyEvent { code: KeyCode::Enter, alt: true });
    let (state, effect) = step(LoopState::Running, &ev, &game, &mut es);
    assert_eq!(state, LoopState::Running);
    assert_eq!(effect, Effect::ToggleFullscreen);
    assert_eq!(es, before);
}

#[test]
fn step_with_no_entities() {
    let game = Game::new(80, 45);
    let mut es: Vec<Entity> = Vec::new();
    let (state, _) = step(LoopState::Running, &Event::Key(key(KeyCode::Up)), &game, &mut es);
    assert_eq!(state, LoopState::Running);
    assert!(es.is_empty());
}
