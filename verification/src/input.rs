//! What the terminal reports, as plain values, and what each key means.

use vstd::prelude::*;
use crate::actor::Heading;

verus! {

/// The key of a key event, as far as the game tells keys apart.
#[derive(Clone, Copy, PartialEq, Eq, Structural, Debug)]
pub enum KeyCode {
    /// A character key.
    Char(char),
    Left,
    Right,
    Up,
    Down,
    Esc,
    /// Any other key.
    Other,
}

/// Whether a key went down, is held, or came up.
#[derive(Clone, Copy, PartialEq, Eq, Structural, Debug)]
pub enum KeyKind {
    Press,
    Repeat,
    Release,
}

/// A key event.
#[derive(Clone, Copy, PartialEq, Eq, Structural, Debug)]
pub struct Key {
    /// The key.
    pub code: KeyCode,
    /// Control is held and no other modifier is.
    pub control_only: bool,
    /// Press, repeat or release.
    pub kind: KeyKind,
    /// The event carries no keypad or lock state.
    pub plain: bool,
}

/// An event from the terminal.
#[derive(Clone, Copy, PartialEq, Eq, Structural, Debug)]
pub enum Event {
    /// The terminal gained focus.
    FocusGained,
    /// The terminal lost focus.
    FocusLost,
    /// A key event.
    Key(Key),
    /// The terminal was resized to this many columns and rows.
    Resize(u16, u16),
    /// Anything else.
    Other,
}

/// What a key asks of the game.
#[derive(Clone, Copy, PartialEq, Eq, Structural, Debug)]
pub enum Command {
    /// Leave the game.
    Quit,
    /// Steer, or dash on a double tap.
    Steer(Heading),
    /// Jump.
    Jump,
    /// Fall fast and stop steering.
    Drop,
    /// Nothing.
    Ignore,
}

/// The meaning of a key. Escape quits, as does a plain press of `c` with
/// control alone; that aside, only the key counts: `d` and right steer right;
/// `q`, `a` and left steer left; `z`, `w` and up jump; `s` and down drop.
pub open spec fn command_of(k: Key) -> Command {
    if k.code == KeyCode::Esc || (k.code == KeyCode::Char('c') && k.control_only && k.kind
        == KeyKind::Press && k.plain) {
        Command::Quit
    } else if k.code == KeyCode::Char('d') || k.code == KeyCode::Right {
        Command::Steer(Heading::Right)
    } else if k.code == KeyCode::Char('q') || k.code == KeyCode::Char('a') || k.code
        == KeyCode::Left {
        Command::Steer(Heading::Left)
    } else if k.code == KeyCode::Char('z') || k.code == KeyCode::Char('w') || k.code
        == KeyCode::Up {
        Command::Jump
    } else if k.code == KeyCode::Char('s') || k.code == KeyCode::Down {
        Command::Drop
    } else {
        Command::Ignore
    }
}

/// Decodes a key event.
pub fn decode(k: Key) -> (c: Command)
    ensures
        c == command_of(k),
{
    let ctrl_c = match k.code {
        KeyCode::Char(ch) => ch == 'c' && k.control_only && k.kind == KeyKind::Press && k.plain,
        _ => false,
    };
    if ctrl_c {
        return Command::Quit;
    }
    match k.code {
        KeyCode::Esc => Command::Quit,
        KeyCode::Right => Command::Steer(Heading::Right),
        KeyCode::Left => Command::Steer(Heading::Left),
        KeyCode::Up => Command::Jump,
        KeyCode::Down => Command::Drop,
        KeyCode::Char(ch) => if ch == 'd' {
            Command::Steer(Heading::Right)
        } else if ch == 'q' || ch == 'a' {
            Command::Steer(Heading::Left)
        } else if ch == 'z' || ch == 'w' {
            Command::Jump
        } else if ch == 's' {
            Command::Drop
        } else {
            Command::Ignore
        },
        KeyCode::Other => Command::Ignore,
    }
}

} // verus!
