//! Keys, and what each of them asks for.

use vstd::prelude::*;

verus! {

/// How a key event came about.
#[derive(Clone, Copy, Debug, PartialEq, Eq, Structural)]
pub enum KeyKind {
    Press,
    Repeat,
    Release,
}

/// Which key it was.
#[derive(Clone, Copy, Debug, PartialEq, Eq, Structural)]
pub enum KeyCode {
    /// A key that types a character.
    Char(char),
    Enter,
    Esc,
    Up,
    Down,
    /// Any key that has no meaning here.
    Other,
}

/// One event from the keyboard.
#[derive(Clone, Copy, Debug, PartialEq, Eq, Structural)]
pub struct KeyEvent {
    pub code: KeyCode,
    pub kind: KeyKind,
}

/// What a key asks the program to do.
#[derive(Clone, Copy, Debug, PartialEq, Eq, Structural)]
pub enum Command {
    /// Leave the program.
    Quit,
    /// Move the highlight one entry down.
    SelectNext,
    /// Move the highlight one entry up.
    SelectPrevious,
    /// Highlight the entry at this position, counted from zero.
    SelectIndex(usize),
    /// Export into the highlighted destination.
    Confirm,
    /// Nothing.
    Ignore,
}

/// Whether `c` is one of the digits `1` to `9`.
pub open spec fn is_position_digit(c: char) -> bool {
    '1' <= c && c <= '9'
}

/// The list position that a digit from `1` to `9` stands for: `1` is the
/// first entry, position zero.
pub open spec fn digit_position(c: char) -> usize
    recommends
        is_position_digit(c),
{
    (c as u32 - '1' as u32) as usize
}

/// What a typed character asks for: `q` quits, `j` and `k` move down and up,
/// `l` confirms, a digit from `1` to `9` picks that entry, anything else
/// does nothing.
pub open spec fn command_of_char(c: char) -> Command {
    if c == 'q' {
        Command::Quit
    } else if c == 'j' {
        Command::SelectNext
    } else if c == 'k' {
        Command::SelectPrevious
    } else if c == 'l' {
        Command::Confirm
    } else if is_position_digit(c) {
        Command::SelectIndex(digit_position(c))
    } else {
        Command::Ignore
    }
}

/// What a key asks for once it is pressed.
pub open spec fn command_of_code(code: KeyCode) -> Command {
    match code {
        KeyCode::Char(c) => command_of_char(c),
        KeyCode::Esc => Command::Quit,
        KeyCode::Down => Command::SelectNext,
        KeyCode::Up => Command::SelectPrevious,
        KeyCode::Enter => Command::Confirm,
        KeyCode::Other => Command::Ignore,
    }
}

/// What a key event asks for. Only presses count: a repeat or a release asks
/// for nothing, so that one keystroke is never acted on twice.
pub open spec fn command_of(event: KeyEvent) -> Command {
    if event.kind == KeyKind::Press {
        command_of_code(event.code)
    } else {
        Command::Ignore
    }
}

/// Maps a key event to the command it stands for.
pub fn command_for(event: KeyEvent) -> (command: Command)
    ensures
        command == command_of(event),
        command matches Command::SelectIndex(position) ==> position < 9,
{
    match event.kind {
        KeyKind::Press => {},
        _ => {
            return Command::Ignore;
        },
    }
    match event.code {
        KeyCode::Char(c) => {
            if c == 'q' {
                Command::Quit
            } else if c == 'j' {
                Command::SelectNext
            } else if c == 'k' {
                Command::SelectPrevious
            } else if c == 'l' {
                Command::Confirm
            } else if '1' <= c && c <= '9' {
                let position: u32 = c as u32 - '1' as u32;
                Command::SelectIndex(position as usize)
            } else {
                Command::Ignore
            }
        },
        KeyCode::Esc => Command::Quit,
        KeyCode::Down => Command::SelectNext,
        KeyCode::Up => Command::SelectPrevious,
        KeyCode::Enter => Command::Confirm,
        KeyCode::Other => Command::Ignore,
    }
}

} // verus!
