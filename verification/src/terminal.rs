//! Coordinates, viewport size, and the commands the editor issues to its
//! terminal.

use vstd::prelude::*;

verus! {

/// Height and width of a terminal, in character cells.
#[derive(Debug, Copy, Clone, PartialEq, Eq, Structural)]
pub struct Size {
    pub height: usize,
    pub width: usize,
}

/// Coordinates of a cell on the screen; the origin is the top-left cell.
#[derive(Debug, Copy, Clone, PartialEq, Eq, Structural)]
pub struct Position {
    pub x: usize,
    pub y: usize,
}

/// Coordinates in a document: `x` is a character offset within a line, `y`
/// is the index of the line.
#[derive(Debug, Copy, Clone, PartialEq, Eq, Structural)]
pub struct Location {
    pub x: usize,
    pub y: usize,
}

impl From<Location> for Position {
    /// The screen cell with the same column and row as a document location.
    fn from(location: Location) -> (position: Position) {
        Position { x: location.x, y: location.y }
    }
}

impl vstd::std_specs::convert::FromSpecImpl<Location> for Position {
    open spec fn obeys_from_spec() -> bool {
        true
    }

    open spec fn from_spec(location: Location) -> Position {
        Position { x: location.x, y: location.y }
    }
}

impl From<Position> for Location {
    /// The document location with the same column and row as a screen cell.
    fn from(position: Position) -> (location: Location) {
        Location { x: position.x, y: position.y }
    }
}

impl vstd::std_specs::convert::FromSpecImpl<Position> for Location {
    open spec fn obeys_from_spec() -> bool {
        true
    }

    open spec fn from_spec(position: Position) -> Location {
        Location { x: position.x, y: position.y }
    }
}

/// One request of the editor to its environment. The editor never touches
/// the terminal or the file system itself: it hands out commands, in order,
/// and whoever drives it carries them out.
#[derive(Debug, PartialEq, Eq)]
pub enum Command {
    /// Erase the whole screen.
    ClearScreen,
    /// Erase the row the cursor is on.
    ClearCurrentLine,
    /// Put the cursor on a cell.
    MoveCaretTo(Position),
    /// Make the cursor visible.
    ShowCaret,
    /// Make the cursor invisible.
    HideCaret,
    /// Write text at the cursor.
    Print(String),
    /// Flush everything queued so far to the screen.
    Execute,
    /// Block until one input event arrives, and discard it.
    AwaitKey,
    /// Do nothing for the given number of milliseconds.
    Pause(u64),
    /// Replace the contents of the file at `path` by `text`.
    WriteFile { path: String, text: String },
}

/// What a [`Command`] says, with its strings as character sequences.
pub enum CommandView {
    ClearScreen,
    ClearCurrentLine,
    MoveCaretTo(Position),
    ShowCaret,
    HideCaret,
    Print(Seq<char>),
    Execute,
    AwaitKey,
    Pause(u64),
    WriteFile { path: Seq<char>, text: Seq<char> },
}

impl View for Command {
    type V = CommandView;

    open spec fn view(&self) -> CommandView {
        match *self {
            Command::ClearScreen => CommandView::ClearScreen,
            Command::ClearCurrentLine => CommandView::ClearCurrentLine,
            Command::MoveCaretTo(position) => CommandView::MoveCaretTo(position),
            Command::ShowCaret => CommandView::ShowCaret,
            Command::HideCaret => CommandView::HideCaret,
            Command::Print(text) => CommandView::Print(text@),
            Command::Execute => CommandView::Execute,
            Command::AwaitKey => CommandView::AwaitKey,
            Command::Pause(millis) => CommandView::Pause(millis),
            Command::WriteFile { path, text } => CommandView::WriteFile { path: path@, text: text@ },
        }
    }
}

/// The views of a sequence of commands, in the same order.
pub open spec fn command_views(commands: Seq<Command>) -> Seq<CommandView> {
    commands.map_values(|command: Command| command@)
}

/// The screen cell on which a document location is shown.
pub open spec fn cell_of(location: Location) -> Position {
    Position { x: location.x, y: location.y }
}

} // verus!
