use roguelike::map::{
    add_room, create_h_tunel, create_v_tunel, filled, make_map, make_open_map, set_wall,
    MAP_HEIGHT, MAP_WIDTH,
};
use roguelike::rect::Rect;
use roguelike::tile::Tile;

fn wall() -> Tile {
    Tile { blocked: true, block_sight: true }
}

fn floor() -> Tile {
    Tile { blocked: false, block_sight: false }
}

#[test]
fn tile_constructors() {
    assert_eq!(Tile::empty(), floor());
    assert_eq!(Tile::wall(), wall());
}

#[test]
fn rect_from_corner_and_size() {
    let r = Rect::new(20, 15, 10, 15);
    assert_eq!(r, Rect { x1: 20, y1: 15, x2: 30, y2: 30 });
}

#[test]
fn filled_grid_has_shape_and_tile() {
    let g = filled(3, 2, Tile::wall());
    assert_eq!(g.len(), 3);
    for col in &g {
        assert_eq!(col, &vec![wall(), wall()]);
    }
}

#[test]
fn add_room_carves_interior_only() {
    let g = add_room(Rect::new(1, 1, 3, 3), filled(6, 6, Tile::wall()));
    for x in 0..6 {
        for y in 0..6 {
            let inside = x > 1 && x < 4 && y > 1 && y < 4;
            assert_eq!(g[x][y], if inside { floor() } else { wall() }, "cell ({}, {})", x, y);
        }
    }
}

#[test]
fn add_room_without_interior_changes_nothing() {
    let g = add_room(Rect::new(2, 2, 1, 4), filled(5, 5, Tile::wall()));
    assert_eq!(g, filled(5, 5, Tile::wall()));
}

#[test]
fn h_tunnel_either_direction() {
    let a = create_h_tunel(1, 4, 2, filled(6, 5, Tile::wall()));
    let b = create_h_tunel(4, 1, 2, filled(6, 5, Tile::wall()));
    assert_eq!(a, b);
    for x in 0..6 {
        for y in 0..5 {
            let open = y == 2 && x >= 1 && x < 4;
            assert_eq!(a[x][y], if open { floor() } else { wall() }, "cell ({}, {})", x, y);
        }
    }
}

#[test]
fn v_tunnel_either_direction() {
    let a = create_v_tunel(0, 3, 4, filled(6, 5, Tile::wall()));
    let b = create_v_tunel(3, 0, 4, filled(6, 5, Tile::wall()));
    assert_eq!(a, b);
    for x in 0..6 {
        for y in 0..5 {
            let open = x == 4 && y < 3;
            assert_eq!(a[x][y], if open { floor() } else { wall() }, "cell ({}, {})", x, y);
        }
    }
}

#[test]
fn make_map_has_two_rooms() {
    let g = make_map();
    assert_eq!(g.len(), MAP_WIDTH);
    assert_eq!(MAP_WIDTH, 80);
    assert_eq!(MAP_HEIGHT, 45);
    for x in 0..80usize {
        assert_eq!(g[x].len(), 45);
        for y in 0..45usize {
            let in_first = x > 20 && x < 30 && y > 15 && y < 30;
            let in_second = x > 50 && x < 60 && y > 15 && y < 30;
            let expected = if in_first || in_second { floor() } else { wall() };
            assert_eq!(g[x][y], expected, "cell ({}, {})", x, y);
        }
    }
}

#[test]
fn make_map_is_deterministic() {
    assert_eq!(make_map(), make_map());
}

#[test]
fn open_map_has_two_walls() {
    let g = make_open_map();
    assert_eq!(g[30][22], wall());
    assert_eq!(g[50][22], wall());
    assert_eq!(g[29][22], floor());
    assert_eq!(g[31][22], floor());
    assert_eq!(g[30][21], floor());
    let walls = g.iter().flatten().filter(|t| t.blocked).count();
    assert_eq!(walls, 2);
}

#[test]
fn set_wall_changes_one_cell() {
    let mut g = filled(4, 4, Tile::empty());
    set_wall(&mut g, 2, 1);
    let mut expected = filled(4, 4, Tile::empty());
    expected[2][1] = wall();
    assert_eq!(g, expected);
}
