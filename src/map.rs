use vstd::prelude::*;
use crate::rect::Rect;
use crate::tile::Tile;
use vstd::math::{max, min};

verus! {

/// Number of columns of the generated dungeon.
pub const MAP_WIDTH: usize = 80;

/// Number of rows of the generated dungeon.
pub const MAP_HEIGHT: usize = 45;

/// The tiles of a grid as a sequence of columns: `g[x][y]` is the cell at `(x, y)`.
pub open spec fn grid_view(map: &Vec<Vec<Tile>>) -> Seq<Seq<Tile>> {
    map@.map_values(|c: Vec<Tile>| c@)
}

/// `(x, y)` names a cell of `g`.
pub open spec fn in_bounds(g: Seq<Seq<Tile>>, x: int, y: int) -> bool {
    0 <= x < g.len() && 0 <= y < g[x].len()
}

/// A grid of `w` columns of `h` cells, each of them `t`.
pub open spec fn uniform(w: int, h: int, t: Tile) -> Seq<Seq<Tile>> {
    Seq::new(w as nat, |x: int| Seq::new(h as nat, |y: int| t))
}

/// The grid `g` with each cell that `cells` selects turned to floor; the
/// other cells and the shape of the grid stay as they were.
pub open spec fn carved(g: Seq<Seq<Tile>>, cells: spec_fn(int, int) -> bool) -> Seq<Seq<Tile>> {
    Seq::new(
        g.len(),
        |x: int| Seq::new(g[x].len(), |y: int| if cells(x, y) { Tile::floor() } else { g[x][y] }),
    )
}

/// The grid `g` with the interior of `room` carved out.
pub open spec fn with_room(g: Seq<Seq<Tile>>, room: Rect) -> Seq<Seq<Tile>> {
    carved(g, |x: int, y: int| room.interior(x, y))
}

/// `i` lies between `a` and `b`, the larger one excluded, in whichever order
/// the two are given.
pub open spec fn between(a: int, b: int, i: int) -> bool {
    (a <= i < b) || (b <= i < a)
}

/// The grid `g` with the cells of row `y` from `x1` to `x2` carved out.
pub open spec fn with_h_tunnel(g: Seq<Seq<Tile>>, x1: int, x2: int, y: int) -> Seq<Seq<Tile>> {
    carved(g, |i: int, j: int| between(x1, x2, i) && j == y)
}

/// The grid `g` with the cells of column `x` from `y1` to `y2` carved out.
pub open spec fn with_v_tunnel(g: Seq<Seq<Tile>>, y1: int, y2: int, x: int) -> Seq<Seq<Tile>> {
    carved(g, |i: int, j: int| i == x && between(y1, y2, j))
}

/// Each cell `(x, y)` with `x_lo <= x < x_hi` and `y_lo <= y < y_hi` is a cell of `g`.
pub open spec fn block_fits(g: Seq<Seq<Tile>>, x_lo: int, x_hi: int, y_lo: int, y_hi: int) -> bool {
    forall|x: int, y: int| x_lo <= x < x_hi && y_lo <= y < y_hi ==> #[trigger] in_bounds(g, x, y)
}

/// The interior of `room` lies inside `g`.
pub open spec fn room_fits(g: Seq<Seq<Tile>>, room: Rect) -> bool {
    block_fits(g, room.x1 + 1, room.x2 as int, room.y1 + 1, room.y2 as int)
}

/// The first room of the generated dungeon.
pub open spec fn first_room() -> Rect {
    Rect { x1: 20, y1: 15, x2: 30, y2: 30 }
}

/// The second room of the generated dungeon.
pub open spec fn second_room() -> Rect {
    Rect { x1: 50, y1: 15, x2: 60, y2: 30 }
}

/// The generated dungeon: solid rock with the two rooms carved out.
pub open spec fn dungeon() -> Seq<Seq<Tile>> {
    with_room(
        with_room(uniform(MAP_WIDTH as int, MAP_HEIGHT as int, Tile::solid()), first_room()),
        second_room(),
    )
}

/// The open variant of the dungeon: all floor but two wall cells.
pub open spec fn open_field() -> Seq<Seq<Tile>> {
    let g = uniform(MAP_WIDTH as int, MAP_HEIGHT as int, Tile::floor());
    let g1 = g.update(30, g[30].update(22, Tile::solid()));
    g1.update(50, g1[50].update(22, Tile::solid()))
}

/// A grid of `w` columns of `h` cells, each of them `t`.
pub fn filled(w: usize, h: usize, t: Tile) -> (r: Vec<Vec<Tile>>)
    ensures
        grid_view(&r) == uniform(w as int, h as int, t),
{
    let mut r: Vec<Vec<Tile>> = Vec::new();
    let mut x: usize = 0;
    while x < w
        invariant
            x <= w,
            r@.len() == x,
            forall|i: int| 0 <= i < x ==> (#[trigger] r@[i])@.len() == h,
            forall|i: int, j: int| 0 <= i < x && 0 <= j < h ==> (#[trigger] r@[i]@[j]) == t,
        decreases w - x,
    {
        let mut col: Vec<Tile> = Vec::new();
        let mut y: usize = 0;
        while y < h
            invariant
                y <= h,
                col@.len() == y,
                forall|j: int| 0 <= j < y ==> #[trigger] col@[j] == t,
            decreases h - y,
        {
            col.push(t);
            y += 1;
        }
        r.push(col);
        x += 1;
    }
    assert(grid_view(&r) =~~= uniform(w as int, h as int, t));
    r
}

/// Stores `t` at the cell `(x, y)`.
fn put_tile(m: &mut Vec<Vec<Tile>>, x: usize, y: usize, t: Tile)
    requires
        x < old(m)@.len(),
        y < old(m)@[x as int]@.len(),
    ensures
        final(m)@ == old(m)@.update(x as int, final(m)@[x as int]),
        final(m)@[x as int]@ == old(m)@[x as int]@.update(y as int, t),
{
    let mut col: Vec<Tile> = Vec::new();
    std::mem::swap(&mut col, &mut m[x]);
    col.set(y, t);
    std::mem::swap(&mut col, &mut m[x]);
}

/// Turns to floor every cell `(x, y)` with `x_lo <= x < x_hi` and
/// `y_lo <= y < y_hi`.
fn carve_block(m: &mut Vec<Vec<Tile>>, x_lo: i64, x_hi: i64, y_lo: i64, y_hi: i64)
    requires
        block_fits(grid_view(old(m)), x_lo as int, x_hi as int, y_lo as int, y_hi as int),
    ensures
        grid_view(final(m)) == carved(
            grid_view(old(m)),
            |x: int, y: int| x_lo <= x < x_hi && y_lo <= y < y_hi,
        ),
{
    let ghost g0 = grid_view(m);
    let ghost sel = |x: int, y: int| x_lo <= x < x_hi && y_lo <= y < y_hi;
    let mut x: i64 = x_lo;
    while x < x_hi
        invariant
            block_fits(g0, x_lo as int, x_hi as int, y_lo as int, y_hi as int),
            sel == (|x: int, y: int| x_lo <= x < x_hi && y_lo <= y < y_hi),
            x_lo <= x,
            m@.len() == g0.len(),
            forall|i: int| 0 <= i < g0.len() ==> (#[trigger] m@[i])@.len() == g0[i].len(),
            forall|i: int, j: int|
                in_bounds(g0, i, j) ==> (#[trigger] m@[i]@[j]) == (if sel(i, j) && i < x {
                    Tile::floor()
                } else {
                    g0[i][j]
                }),
        decreases x_hi - x,
    {
        let mut y: i64 = y_lo;
        while y < y_hi
            invariant
                block_fits(g0, x_lo as int, x_hi as int, y_lo as int, y_hi as int),
                sel == (|x: int, y: int| x_lo <= x < x_hi && y_lo <= y < y_hi),
                x_lo <= x < x_hi,
                y_lo <= y,
                m@.len() == g0.len(),
                forall|i: int| 0 <= i < g0.len() ==> (#[trigger] m@[i])@.len() == g0[i].len(),
                forall|i: int, j: int|
                    in_bounds(g0, i, j) ==> (#[trigger] m@[i]@[j]) == (if sel(i, j) && (i < x
                        || (i == x && j < y)) {
                        Tile::floor()
                    } else {
                        g0[i][j]
                    }),
            decreases y_hi - y,
        {
            assert(in_bounds(g0, x as int, y as int));
            assert(m@[x as int]@.len() == g0[x as int].len());
            assert(x < m.len() && y < m[x as int].len());
            let ghost before = m@;
            put_tile(m, x as usize, y as usize, Tile::empty());
            assert forall|i: int| 0 <= i < g0.len() implies (#[trigger] m@[i])@.len() == g0[i].len() by {
                assert(before[i]@.len() == g0[i].len());
            }
            y += 1;
        }
        x += 1;
    }
    assert(grid_view(m) =~~= carved(g0, sel));
}

/// Carves the interior of `room` out of `map`; the room's border and every
/// other cell stay as they were.
pub fn add_room(room: Rect, map: Vec<Vec<Tile>>) -> (r: Vec<Vec<Tile>>)
    requires
        room_fits(grid_view(&map), room),
    ensures
        grid_view(&r) == with_room(grid_view(&map), room),
{
    let mut m = map;
    let ghost g0 = grid_view(&m);
    let x_lo: i64 = room.x1 as i64 + 1;
    let y_lo: i64 = room.y1 as i64 + 1;
    carve_block(&mut m, x_lo, room.x2 as i64, y_lo, room.y2 as i64);
    assert(grid_view(&m) =~~= with_room(g0, room));
    m
}

} // verus!

verus! {

/// Carves row `y` from column `min(x1, x2)` up to, not including, column
/// `max(x1, x2)`.
pub fn create_h_tunel(x1: i32, x2: i32, y: i32, map: Vec<Vec<Tile>>) -> (r: Vec<Vec<Tile>>)
    requires
        block_fits(grid_view(&map), min(x1 as int, x2 as int), max(x1 as int, x2 as int), y as int, y + 1),
    ensures
        grid_view(&r) == with_h_tunnel(grid_view(&map), x1 as int, x2 as int, y as int),
{
    let mut m = map;
    let ghost g0 = grid_view(&m);
    let lo: i32 = if x1 < x2 { x1 } else { x2 };
    let hi: i32 = if x1 < x2 { x2 } else { x1 };
    carve_block(&mut m, lo as i64, hi as i64, y as i64, y as i64 + 1);
    assert(grid_view(&m) =~~= with_h_tunnel(g0, x1 as int, x2 as int, y as int));
    m
}

/// Carves column `x` from row `min(y1, y2)` up to, not including, row
/// `max(y1, y2)`.
pub fn create_v_tunel(y1: i32, y2: i32, x: i32, map: Vec<Vec<Tile>>) -> (r: Vec<Vec<Tile>>)
    requires
        block_fits(grid_view(&map), x as int, x + 1, min(y1 as int, y2 as int), max(y1 as int, y2 as int)),
    ensures
        grid_view(&r) == with_v_tunnel(grid_view(&map), y1 as int, y2 as int, x as int),
{
    let mut m = map;
    let ghost g0 = grid_view(&m);
    let lo: i32 = if y1 < y2 { y1 } else { y2 };
    let hi: i32 = if y1 < y2 { y2 } else { y1 };
    carve_block(&mut m, x as i64, x as i64 + 1, lo as i64, hi as i64);
    assert(grid_view(&m) =~~= with_v_tunnel(g0, y1 as int, y2 as int, x as int));
    m
}

/// Builds the dungeon: solid rock with the two rooms carved out. Each call
/// gives the same grid.
pub fn make_map() -> (r: Vec<Vec<Tile>>)
    ensures
        grid_view(&r) == dungeon(),
{
    let map = filled(MAP_WIDTH, MAP_HEIGHT, Tile::wall());
    let room1 = Rect::new(20, 15, 10, 15);
    let room2 = Rect::new(50, 15, 10, 15);
    assert(room1 == first_room());
    assert(room2 == second_room());
    let with_first = add_room(room1, map);
    add_room(room2, with_first)
}

/// Builds the open variant of the dungeon: all floor, with walls at
/// `(30, 22)` and `(50, 22)`.
pub fn make_open_map() -> (r: Vec<Vec<Tile>>)
    ensures
        grid_view(&r) == open_field(),
{
    let mut map = filled(MAP_WIDTH, MAP_HEIGHT, Tile::empty());
    set_wall(&mut map, 30, 22);
    set_wall(&mut map, 50, 22);
    map
}

/// Sets the cell at `(x, y)` to a wall.
pub fn set_wall(map: &mut Vec<Vec<Tile>>, x: usize, y: usize)
    requires
        in_bounds(grid_view(old(map)), x as int, y as int),
    ensures
        grid_view(final(map)) == grid_view(old(map)).update(
            x as int,
            grid_view(old(map))[x as int].update(y as int, Tile::solid()),
        ),
{
    put_tile(map, x, y, Tile::wall());
    assert(grid_view(map) =~~= grid_view(old(map)).update(
        x as int,
        grid_view(old(map))[x as int].update(y as int, Tile::solid()),
    ));
}

} // verus!

verus! {

/// Map generation is deterministic: two grids built by `make_map` are equal.
pub proof fn lemma_make_map_deterministic(a: &Vec<Vec<Tile>>, b: &Vec<Vec<Tile>>)
    requires
        grid_view(a) == dungeon(),
        grid_view(b) == dungeon(),
    ensures
        grid_view(a) == grid_view(b),
{
}

} // verus!
