use vstd::prelude::*;
use crate::map::grid_view;
use crate::movement::{addressable, after_command, handle_inputs, PlayerCommand};
use crate::object::{Color, Glyph, Object};
use crate::tile::Tile;

verus! {

/// Background of a cell that blocks sight.
pub open spec fn dark_wall() -> Color {
    Color { r: 0, g: 0, b: 100 }
}

/// Background of a cell that does not block sight.
pub open spec fn dark_ground() -> Color {
    Color { r: 50, g: 50, b: 150 }
}

/// The background color a tile is painted with.
pub open spec fn shade(t: Tile) -> Color {
    if t.block_sight {
        dark_wall()
    } else {
        dark_ground()
    }
}

/// The background colors of a whole grid, cell by cell.
pub open spec fn shading(g: Seq<Seq<Tile>>) -> Seq<Seq<Color>> {
    g.map_values(|c: Seq<Tile>| c.map_values(|t: Tile| shade(t)))
}

/// The glyph that draws `o`.
pub open spec fn glyph_of(o: Object) -> Glyph {
    Glyph { x: o.x, y: o.y, ch: o.glyph, color: o.color }
}

/// The background color that `tile` is painted with.
pub fn background_of(tile: Tile) -> (c: Color)
    ensures
        c == shade(tile),
{
    if tile.block_sight {
        Color { r: 0, g: 0, b: 100 }
    } else {
        Color { r: 50, g: 50, b: 150 }
    }
}

/// What one frame paints: glyphs in order, later ones over earlier ones at
/// the same cell, and a background color for every cell of the map,
/// `backgrounds[x][y]` for the cell `(x, y)`.
#[derive(Clone, Debug)]
pub struct Frame {
    pub glyphs: Vec<Glyph>,
    pub backgrounds: Vec<Vec<Color>>,
}

impl Frame {
    /// The background colors as a sequence of columns.
    pub open spec fn background_view(&self) -> Seq<Seq<Color>> {
        self.backgrounds@.map_values(|c: Vec<Color>| c@)
    }
}

/// What the main loop does after a command.
#[derive(Clone, Copy, Debug, PartialEq, Eq, Structural)]
pub enum LoopAction {
    Continue,
    ToggleFullscreen,
    Exit,
}

/// The player, the other objects and the map.
#[derive(Clone, Debug)]
pub struct GameState {
    pub player: Object,
    pub objects: Vec<Object>,
    pub map: Vec<Vec<Tile>>,
}

impl GameState {
    /// The glyphs of a frame: the player first, then the objects in order.
    pub open spec fn glyphs_spec(&self) -> Seq<Glyph> {
        seq![glyph_of(self.player)] + self.objects@.map_values(|o: Object| glyph_of(o))
    }

    /// The cells that clearing blanks: the player's, then each object's.
    pub open spec fn occupied_spec(&self) -> Seq<(i32, i32)> {
        seq![(self.player.x, self.player.y)] + self.objects@.map_values(|o: Object| (o.x, o.y))
    }

    pub fn new(player: Object, objects: Vec<Object>, map: Vec<Vec<Tile>>) -> (r: GameState)
        ensures
            r.player == player,
            r.objects == objects,
            r.map == map,
    {
        GameState { player, objects, map }
    }

    /// The frame that shows this state: the player's glyph, each object's
    /// glyph in order, and every cell's background by whether it blocks sight.
    pub fn render_to(&self) -> (f: Frame)
        ensures
            f.glyphs@ == self.glyphs_spec(),
            f.background_view() == shading(grid_view(&self.map)),
    {
        let mut glyphs: Vec<Glyph> = Vec::new();
        glyphs.push(self.player.draw());
        let mut i: usize = 0;
        while i < self.objects.len()
            invariant
                i <= self.objects@.len(),
                glyphs@ == self.glyphs_spec().subrange(0, i + 1),
            decreases self.objects@.len() - i,
        {
            glyphs.push(self.objects[i].draw());
            i += 1;
            assert(glyphs@ =~= self.glyphs_spec().subrange(0, i + 1));
        }
        assert(glyphs@ =~= self.glyphs_spec());
        let ghost g = grid_view(&self.map);
        let mut backgrounds: Vec<Vec<Color>> = Vec::new();
        let mut x: usize = 0;
        while x < self.map.len()
            invariant
                g == grid_view(&self.map),
                x <= g.len(),
                backgrounds@.len() == x,
                forall|k: int| 0 <= k < x ==> (#[trigger] backgrounds@[k])@ == shading(g)[k],
            decreases g.len() - x,
        {
            let col = &self.map[x];
            let mut shades: Vec<Color> = Vec::new();
            let mut y: usize = 0;
            while y < col.len()
                invariant
                    g[x as int] == col@,
                    y <= col@.len(),
                    shades@ == col@.subrange(0, y as int).map_values(|t: Tile| shade(t)),
                decreases col@.len() - y,
            {
                shades.push(background_of(col[y]));
                y += 1;
                assert(shades@ =~= col@.subrange(0, y as int).map_values(|t: Tile| shade(t)));
            }
            assert(col@.subrange(0, y as int) =~= col@);
            backgrounds.push(shades);
            x += 1;
        }
        let f = Frame { glyphs, backgrounds };
        assert(f.background_view() =~= shading(g));
        f
    }

    /// The cells to blank before the next frame: the player's, then each
    /// object's in order; backgrounds are left to the next frame.
    pub fn clear(&self) -> (r: Vec<(i32, i32)>)
        ensures
            r@ == self.occupied_spec(),
    {
        let mut cells: Vec<(i32, i32)> = Vec::new();
        cells.push(self.player.clear());
        let mut i: usize = 0;
        while i < self.objects.len()
            invariant
                i <= self.objects@.len(),
                cells@ == self.occupied_spec().subrange(0, i + 1),
            decreases self.objects@.len() - i,
        {
            cells.push(self.objects[i].clear());
            i += 1;
            assert(cells@ =~= self.occupied_spec().subrange(0, i + 1));
        }
        assert(cells@ =~= self.occupied_spec());
        cells
    }
}

/// One turn of the main loop: a movement command replaces the player by the
/// moved one, the other commands leave the state as it is; the action says
/// whether to go on, toggle full screen, or stop.
pub fn step(state: GameState, command: PlayerCommand) -> (r: (GameState, LoopAction))
    requires
        addressable(grid_view(&state.map)),
    ensures
        r.0.objects == state.objects,
        r.0.map == state.map,
        command.is_move() ==> r.0.player == after_command(grid_view(&state.map), state.player, command),
        !command.is_move() ==> r.0.player == state.player,
        r.1 == (match command {
            PlayerCommand::FullScreen => LoopAction::ToggleFullscreen,
            PlayerCommand::Exit => LoopAction::Exit,
            _ => LoopAction::Continue,
        }),
{
    match command {
        PlayerCommand::MoveUp | PlayerCommand::MoveDown | PlayerCommand::MoveLeft
        | PlayerCommand::MoveRight => {
            let moved = handle_inputs(command, &state.player, &state.map);
            (GameState::new(moved, state.objects, state.map), LoopAction::Continue)
        },
        PlayerCommand::FullScreen => (state, LoopAction::ToggleFullscreen),
        PlayerCommand::Exit => (state, LoopAction::Exit),
        PlayerCommand::Unknown => (state, LoopAction::Continue),
    }
}

} // verus!
