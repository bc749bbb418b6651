use roguelike::color::Color;
use roguelike::entity::Entity;
use roguelike::game::{Config, Game};
use roguelike::render::{render_all, Cell, Frame};
use roguelike::session::draw_frame;

#[test]
fn glyph_survives_background_paint() {
    let config = Config::standard();
    let game = Game::new(80, 45);
    let mut con = Frame::new(80, 45);
    let entities = vec![Entity::new(30, 22, '@', Color::new(255, 255, 255))];
    render_all(&mut con, &game, &entities, &config);
    let c = con.cell_at(30, 22).unwrap();
    assert_eq!(c.glyph, '@');
    assert_eq!(c.fg, Color::new(255, 255, 255));
    assert_eq!(c.bg, config.dark_wall);
}

#[test]
fn ground_cells_get_ground_background() {
    let config = Config::standard();
    let game = Game::new(80, 45);
    let mut con = Frame::new(80, 45);
    let entities = vec![Entity::new(40, 25, '@', Color::new(255, 255, 255))];
    render_all(&mut con, &game, &entities, &config);
    let c = con.cell_at(40, 25).unwrap();
    assert_eq!(c.glyph, '@');
    assert_eq!(c.bg, config.dark_ground);
    let blank = con.cell_at(0, 0).unwrap();
    assert_eq!(blank.glyph, ' ');
    assert_eq!(blank.bg, config.dark_ground);
    assert_eq!(con.cell_at(50, 22).unwrap().bg, config.dark_wall);
}

#[test]
fn later_entity_wins_shared_cell() {
    let config = Config::standard();
    let game = Game::new(80, 45);
    let mut con = Frame::new(80, 45);
    let a = Entity::new(10, 10, 'a', Color::new(1, 1, 1));
    let b = Entity::new(10, 10, 'b', Color::new(2, 2, 2));
    render_all(&mut con, &game, &[a, b], &config);
    let c = con.cell_at(10, 10).unwrap();
    assert_eq!(c.glyph, 'b');
    assert_eq!(c.fg, Color::new(2, 2, 2));
    let mut con2 = Frame::new(80, 45);
    render_all(&mut con2, &game, &[b, a], &config);
    assert_eq!(con2.cell_at(10, 10).unwrap().glyph, 'a');
}

#[test]
fn draw_frame_clears_old_glyphs() {
    let config = Config::standard();
    let game = Game::new(80, 45);
    let mut con = Frame::new(80, 45);
    assert!(con.put_char(5, 5, 'x', Color::new(9, 9, 9)));
    draw_frame(&mut con, &game, &[Entity::new(6, 5, '@', Color::new(255, 255, 0))], &config);
    assert_eq!(con.cell_at(5, 5).unwrap().glyph, ' ');
    assert_eq!(con.cell_at(6, 5).unwrap().glyph, '@');
    assert_eq!(con.cell_at(6, 5).unwrap().fg, Color::new(255, 255, 0));
}

#[test]
fn off_frame_entity_draws_nothing() {
    let config = Config::standard();
    let game = Game::new(80, 45);
    let mut con = Frame::new(80, 45);
    let far = Entity::new(40, 45, '@', Color::new(255, 255, 255));
    render_all(&mut con, &game, &[far], &config);
    assert_eq!(con.cell_at(40, 44).unwrap().glyph, ' ');
    assert_eq!(con.cell_at(40, 45), None);
}

#[test]
fn frame_layers_are_separate() {
    let mut con = Frame::new(3, 2);
    assert_eq!(con.width(), 3);
    assert_eq!(con.height(), 2);
    assert_eq!(
        con.cell_at(2, 1),
        Some(Cell { glyph: ' ', fg: Color::new(255, 255, 255), bg: Color::new(0, 0, 0) })
    );
    assert!(con.put_char(2, 1, 'k', Color::new(7, 8, 9)));
    assert!(con.set_char_background(2, 1, Color::new(1, 2, 3)));
    assert_eq!(
        con.cell_at(2, 1),
        Some(Cell { glyph: 'k', fg: Color::new(7, 8, 9), bg: Color::new(1, 2, 3) })
    );
    assert!(!con.put_char(3, 0, 'z', Color::new(0, 0, 0)));
    assert!(!con.set_char_background(-1, 0, Color::new(0, 0, 0)));
    con.clear();
    assert_eq!(con.cell_at(2, 1).unwrap().glyph, ' ');
    assert_eq!(con.cell_at(2, 1).unwrap().bg, Color::new(0, 0, 0));
}

#[test]
fn entity_draw_keeps_background() {
    let mut con = Frame::new(4, 4);
    assert!(con.set_char_background(1, 1, Color::new(5, 5, 5)));
    Entity::new(1, 1, '@', Color::new(200, 0, 0)).draw(&mut con);
    let c = con.cell_at(1, 1).unwrap();
    assert_eq!(c, Cell { glyph: '@', fg: Color::new(200, 0, 0), bg: Color::new(5, 5, 5) });
}
