use vstd::prelude::*;
use crate::map::{grid_view, in_bounds, with_room, room_fits, dungeon, first_room, second_room};
use crate::object::Object;
use crate::rect::Rect;
use crate::tile::Tile;

verus! {

/// A command that the player gives.
#[derive(Clone, Copy, Debug, PartialEq, Eq, Structural)]
pub enum PlayerCommand {
    MoveUp,
    MoveDown,
    MoveLeft,
    MoveRight,
    FullScreen,
    Exit,
    Unknown,
}

impl PlayerCommand {
    /// One of the four movement commands.
    pub open spec fn is_move(self) -> bool {
        match self {
            PlayerCommand::MoveUp | PlayerCommand::MoveDown | PlayerCommand::MoveLeft
            | PlayerCommand::MoveRight => true,
            _ => false,
        }
    }

    /// The unit step of a movement command; `(0, 0)` for any other.
    pub open spec fn delta(self) -> (int, int) {
        match self {
            PlayerCommand::MoveUp => (0, -1),
            PlayerCommand::MoveDown => (0, 1),
            PlayerCommand::MoveLeft => (-1, 0),
            PlayerCommand::MoveRight => (1, 0),
            _ => (0, 0),
        }
    }
}

/// The cell `(x, y)` lies in the grid and may be entered.
pub open spec fn open_at(g: Seq<Seq<Tile>>, x: int, y: int) -> bool {
    in_bounds(g, x, y) && !g[x][y].blocked
}

/// Every coordinate of the grid fits an `i32`.
pub open spec fn addressable(g: Seq<Seq<Tile>>) -> bool {
    g.len() <= i32::MAX && forall|x: int| 0 <= x < g.len() ==> #[trigger] g[x].len() <= i32::MAX
}

/// The position that a movement command leads to, if the move is allowed;
/// the player unchanged otherwise.
pub open spec fn after_command(g: Seq<Seq<Tile>>, player: Object, cmd: PlayerCommand) -> Object {
    let (dx, dy) = cmd.delta();
    if open_at(g, player.x + dx, player.y + dy) {
        player.shifted(dx, dy)
    } else {
        player
    }
}

/// Whether `object` may step by `(dx, dy)`: the target cell is inside the
/// grid and not blocked.
pub fn can_move(object: &Object, map: &Vec<Vec<Tile>>, dx: i32, dy: i32) -> (r: bool)
    ensures
        r == open_at(grid_view(map), object.x + dx, object.y + dy),
{
    let tx: i64 = object.x as i64 + dx as i64;
    let ty: i64 = object.y as i64 + dy as i64;
    if tx < 0 || ty < 0 {
        return false;
    }
    if tx as u64 >= map.len() as u64 {
        return false;
    }
    let col = &map[tx as usize];
    if ty as u64 >= col.len() as u64 {
        return false;
    }
    !col[ty as usize].blocked
}

/// Applies a movement command: the player steps by the command's unit delta
/// when the target cell may be entered, and stays as it is otherwise.
pub fn handle_inputs(input: PlayerCommand, player: &Object, map: &Vec<Vec<Tile>>) -> (r: Object)
    requires
        input.is_move(),
        addressable(grid_view(map)),
    ensures
        r == after_command(grid_view(map), *player, input),
        !open_at(grid_view(map), player.x + input.delta().0, player.y + input.delta().1) ==> r
            == *player,
        open_at(grid_view(map), player.x + input.delta().0, player.y + input.delta().1) ==> r.x
            == player.x + input.delta().0 && r.y == player.y + input.delta().1 && r.glyph
            == player.glyph && r.color == player.color,
{
    let (dx, dy): (i32, i32) = match input {
        PlayerCommand::MoveUp => (0, -1),
        PlayerCommand::MoveDown => (0, 1),
        PlayerCommand::MoveLeft => (-1, 0),
        _ => (1, 0),
    };
    if can_move(player, map, dx, dy) {
        player.move_by(dx, dy)
    } else {
        *player
    }
}

/// Inside a carved room, a step from an interior cell to a neighbouring
/// interior cell is always allowed.
pub proof fn lemma_room_interior_open(
    g: Seq<Seq<Tile>>,
    room: Rect,
    player: Object,
    cmd: PlayerCommand,
)
    requires
        room_fits(g, room),
        cmd.is_move(),
        room.interior(player.x as int, player.y as int),
        room.interior(player.x + cmd.delta().0, player.y + cmd.delta().1),
    ensures
        open_at(with_room(g, room), player.x + cmd.delta().0, player.y + cmd.delta().1),
{
    let tx = player.x + cmd.delta().0;
    let ty = player.y + cmd.delta().1;
    assert(in_bounds(g, tx, ty));
}

/// Carving a room leaves a blocked cell outside its interior blocked, so no
/// step from the room into such a cell is allowed.
pub proof fn lemma_uncarved_stays_blocked(g: Seq<Seq<Tile>>, room: Rect, x: int, y: int)
    requires
        in_bounds(g, x, y),
        g[x][y].blocked,
        !room.interior(x, y),
    ensures
        !open_at(with_room(g, room), x, y),
{
}

/// In the generated dungeon every cell outside the two room interiors is a
/// wall: no step into one of them is allowed.
pub proof fn lemma_dungeon_walls(x: int, y: int)
    requires
        !first_room().interior(x, y),
        !second_room().interior(x, y),
    ensures
        !open_at(dungeon(), x, y),
{
}

/// The cell `(x, y)` is on the edge of the grid that `cmd` steps across.
pub open spec fn steps_off_edge(g: Seq<Seq<Tile>>, x: int, y: int, cmd: PlayerCommand) -> bool {
    match cmd {
        PlayerCommand::MoveUp => y == 0,
        PlayerCommand::MoveDown => y == g[x].len() - 1,
        PlayerCommand::MoveLeft => x == 0,
        PlayerCommand::MoveRight => x == g.len() - 1,
        _ => false,
    }
}

/// A step from an edge cell toward the outside of the grid is never allowed:
/// there is no wrap-around to the other side.
pub proof fn lemma_edge_step_refused(g: Seq<Seq<Tile>>, x: int, y: int, cmd: PlayerCommand)
    requires
        in_bounds(g, x, y),
        steps_off_edge(g, x, y, cmd),
    ensures
        !open_at(g, x + cmd.delta().0, y + cmd.delta().1),
{
}

} // verus!
