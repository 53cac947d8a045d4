use vstd::prelude::*;
use crate::movement::PlayerCommand;

verus! {

/// The keys that commands are bound to; every other key is `Other`.
#[derive(Clone, Copy, Debug, PartialEq, Eq, Structural)]
pub enum KeyCode {
    Up,
    Down,
    Left,
    Right,
    Enter,
    Escape,
    /// A key that types a character, held in `KeyPress::printable`.
    Char,
    Other,
}

/// One key event: the key, the character it types, and whether Alt was held.
#[derive(Clone, Copy, Debug, PartialEq, Eq, Structural)]
pub struct KeyPress {
    pub code: KeyCode,
    pub printable: char,
    pub alt: bool,
}

/// The command a key event stands for: arrows and the vi keys `h`, `j`, `k`,
/// `l` move, Alt+Enter toggles full screen, Escape exits, anything else is
/// unknown.
pub open spec fn command_of(key: KeyPress) -> PlayerCommand {
    if key.code == KeyCode::Up || (key.code == KeyCode::Char && key.printable == 'k') {
        PlayerCommand::MoveUp
    } else if key.code == KeyCode::Down || (key.code == KeyCode::Char && key.printable == 'j') {
        PlayerCommand::MoveDown
    } else if key.code == KeyCode::Left || (key.code == KeyCode::Char && key.printable == 'h') {
        PlayerCommand::MoveLeft
    } else if key.code == KeyCode::Right || (key.code == KeyCode::Char && key.printable == 'l') {
        PlayerCommand::MoveRight
    } else if key.code == KeyCode::Enter && key.alt {
        PlayerCommand::FullScreen
    } else if key.code == KeyCode::Escape {
        PlayerCommand::Exit
    } else {
        PlayerCommand::Unknown
    }
}

/// Translates one key event into a command; no state is kept between events.
pub fn translate_key(key: KeyPress) -> (r: PlayerCommand)
    ensures
        r == command_of(key),
{
    let ch = key.printable;
    match key.code {
        KeyCode::Up => PlayerCommand::MoveUp,
        KeyCode::Down => PlayerCommand::MoveDown,
        KeyCode::Left => PlayerCommand::MoveLeft,
        KeyCode::Right => PlayerCommand::MoveRight,
        KeyCode::Char => {
            if ch == 'k' {
                PlayerCommand::MoveUp
            } else if ch == 'j' {
                PlayerCommand::MoveDown
            } else if ch == 'h' {
                PlayerCommand::MoveLeft
            } else if ch == 'l' {
                PlayerCommand::MoveRight
            } else {
                PlayerCommand::Unknown
            }
        },
        KeyCode::Enter => {
            if key.alt {
                PlayerCommand::FullScreen
            } else {
                PlayerCommand::Unknown
            }
        },
        KeyCode::Escape => PlayerCommand::Exit,
        KeyCode::Other => PlayerCommand::Unknown,
    }
}

} // verus!
