use roguelike::map::{add_room, filled, make_map};
use roguelike::movement::{can_move, handle_inputs, PlayerCommand};
use roguelike::object::{Color, Object};
use roguelike::rect::Rect;
use roguelike::tile::Tile;

fn white() -> Color {
    Color { r: 255, g: 255, b: 255 }
}

fn player_at(x: i32, y: i32) -> Object {
    Object::new(x, y, '@', white())
}

const MOVES: [(PlayerCommand, i32, i32); 4] = [
    (PlayerCommand::MoveUp, 0, -1),
    (PlayerCommand::MoveDown, 0, 1),
    (PlayerCommand::MoveLeft, -1, 0),
    (PlayerCommand::MoveRight, 1, 0),
];

#[test]
fn object_new_and_move_by() {
    let p = player_at(3, 4);
    assert_eq!(p, Object { x: 3, y: 4, glyph: '@', color: white() });
    let q = p.move_by(-1, 2);
    assert_eq!(q, Object { x: 2, y: 6, glyph: '@', color: white() });
    assert_eq!(p.x, 3);
}

#[test]
fn interior_steps_are_allowed() {
    let map = make_map();
    for x in 21..30 {
        for y in 16..30 {
            for (_, dx, dy) in MOVES {
                let (tx, ty) = (x + dx, y + dy);
                if tx > 20 && tx < 30 && ty > 15 && ty < 30 {
                    assert!(can_move(&player_at(x, y), &map, dx, dy), "({}, {}) by ({}, {})", x, y, dx, dy);
                }
            }
        }
    }
}

#[test]
fn steps_into_room_border_are_refused() {
    let map = make_map();
    assert!(!can_move(&player_at(29, 16), &map, 1, 0));
    assert!(!can_move(&player_at(21, 16), &map, -1, 0));
    assert!(!can_move(&player_at(25, 16), &map, 0, -1));
    assert!(!can_move(&player_at(25, 29), &map, 0, 1));
    assert!(!can_move(&player_at(51, 20), &map, -1, 0));
}

#[test]
fn steps_off_the_grid_are_refused() {
    let map = filled(5, 4, Tile::empty());
    assert!(!can_move(&player_at(0, 2), &map, -1, 0));
    assert!(!can_move(&player_at(4, 2), &map, 1, 0));
    assert!(!can_move(&player_at(2, 0), &map, 0, -1));
    assert!(!can_move(&player_at(2, 3), &map, 0, 1));
    assert!(can_move(&player_at(0, 0), &map, 1, 1));
    assert!(!can_move(&player_at(i32::MAX, 0), &map, 1, 0));
    assert!(!can_move(&player_at(0, i32::MIN), &map, 0, -1));
}

#[test]
fn refused_move_keeps_player() {
    let map = make_map();
    let p = player_at(29, 16);
    assert_eq!(handle_inputs(PlayerCommand::MoveRight, &p, &map), p);
    let edge = player_at(0, 0);
    let open = filled(3, 3, Tile::empty());
    assert_eq!(handle_inputs(PlayerCommand::MoveLeft, &edge, &open), edge);
    assert_eq!(handle_inputs(PlayerCommand::MoveUp, &edge, &open), edge);
}

#[test]
fn allowed_move_shifts_by_unit_delta() {
    let map = make_map();
    let p = Object::new(25, 20, 'x', Color { r: 1, g: 2, b: 3 });
    for (cmd, dx, dy) in MOVES {
        let q = handle_inputs(cmd, &p, &map);
        assert_eq!(q, Object { x: 25 + dx, y: 20 + dy, glyph: 'x', color: Color { r: 1, g: 2, b: 3 } });
    }
}

#[test]
fn walk_right_to_room_edge() {
    let map = make_map();
    let mut p = player_at(21, 16);
    p = handle_inputs(PlayerCommand::MoveRight, &p, &map);
    assert_eq!((p.x, p.y), (22, 16));
    for _ in 0..7 {
        p = handle_inputs(PlayerCommand::MoveRight, &p, &map);
    }
    assert_eq!((p.x, p.y), (29, 16));
    let stuck = handle_inputs(PlayerCommand::MoveRight, &p, &map);
    assert_eq!(stuck, p);
    assert_eq!((stuck.x, stuck.y), (29, 16));
}

#[test]
fn carved_room_on_small_grid() {
    let map = add_room(Rect::new(0, 0, 3, 3), filled(5, 5, Tile::wall()));
    assert!(can_move(&player_at(1, 1), &map, 1, 0));
    assert!(can_move(&player_at(1, 1), &map, 0, 1));
    assert!(!can_move(&player_at(1, 1), &map, -1, 0));
    assert!(!can_move(&player_at(2, 2), &map, 0, 1));
}
