//! The renderer: it turns buffer and caret into the commands that bring
//! the screen up to date. A view that has painted nothing yet greets
//! the user, waits for a key and paints the whole buffer; after that it
//! repaints the caret's row when it is marked stale, and else only places
//! the cursor.

use vstd::prelude::*;
use vstd::string::*;
use vstd::view::View as _;
use crate::buffer::Buffer;
use crate::caret::Caret;
use crate::terminal::{cell_of, command_views, Command, CommandView, Location, Position, Size};

verus! {

/// The name under which the editor greets its user.
pub const NAME: &'static str = "R-EDIT";

/// The version shown in the greeting.
pub const VERSION: &'static str = "0.1.0";

/// What the editor prints when it closes.
pub const GOODBYE: &'static str = "Goodbye.";

/// How long the closing message stays on the screen, in milliseconds.
pub const GOODBYE_PAUSE: u64 = 1000;

/// The origin of a document.
pub open spec fn origin() -> Location {
    Location { x: 0, y: 0 }
}

/// The greeting: the name, a separator and the version.
pub open spec fn welcome_text() -> Seq<char> {
    NAME@ + " -- v"@ + VERSION@
}

/// The column in which a message of `length` characters starts so that it
/// is centred in a row of `width` cells: half the width less half the
/// length, both halves rounded down, and the first column where that would
/// be negative.
pub open spec fn centered_column(width: int, length: int) -> int {
    if width / 2 >= length / 2 {
        width / 2 - length / 2
    } else {
        0
    }
}

/// The commands that show a banner: with the cursor hidden, on a cleared
/// screen, `shown` is printed a third of the way down, starting in the
/// column that centres a message of `length` characters; then the cursor
/// goes to the top-left cell and is shown again.
pub open spec fn banner(size: Size, length: int, shown: Seq<char>) -> Seq<CommandView> {
    seq![
        CommandView::HideCaret,
        CommandView::ClearScreen,
        CommandView::MoveCaretTo(
            Position {
                x: centered_column(size.width as int, length) as usize,
                y: (size.height / 3) as usize,
            },
        ),
        CommandView::Print(shown),
        CommandView::Print("\r\n\r\n"@),
        CommandView::MoveCaretTo(Position { x: 0, y: 0 }),
        CommandView::ShowCaret,
        CommandView::Execute,
    ]
}

/// The commands that greet the user.
pub open spec fn welcome(size: Size) -> Seq<CommandView> {
    banner(size, welcome_text().len() as int, welcome_text())
}

/// The commands that take leave of the user. The message is centred by
/// its full length, and cut off after as many characters as the viewport
/// is wide.
pub open spec fn goodbye(size: Size) -> Seq<CommandView> {
    let shown = if size.width < GOODBYE@.len() {
        GOODBYE@.take(size.width as int)
    } else {
        GOODBYE@
    };
    banner(size, GOODBYE@.len() as int, shown)
}

/// The commands that print `lines`, each followed by a line break.
pub open spec fn printed_lines(lines: Seq<Seq<char>>) -> Seq<CommandView>
    decreases lines.len(),
{
    if lines.len() == 0 {
        Seq::empty()
    } else {
        printed_lines(lines.drop_last()) + seq![
            CommandView::Print(lines.last()),
            CommandView::Print("\r\n"@),
        ]
    }
}

/// The commands that mark the rows from `first` up to, not including,
/// `height` as empty: in each of them, top to bottom, a `~` in the first
/// column.
pub open spec fn placeholder_rows(first: int, height: int) -> Seq<CommandView>
    decreases height - first,
{
    if first >= height {
        Seq::empty()
    } else {
        placeholder_rows(first, height - 1) + seq![
            CommandView::MoveCaretTo(Position { x: 0, y: (height - 1) as usize }),
            CommandView::Print("~"@),
        ]
    }
}

/// The commands of a full paint: the screen is cleared, every line is
/// printed from the top-left cell on, the rows of the viewport that are
/// left over are marked as empty, and the cursor goes to `location`.
pub open spec fn full_paint(lines: Seq<Seq<char>>, size: Size, location: Location) -> Seq<
    CommandView,
> {
    seq![CommandView::ClearScreen, CommandView::MoveCaretTo(Position { x: 0, y: 0 })]
        + printed_lines(lines) + placeholder_rows(lines.len() as int, size.height as int)
        + seq![CommandView::MoveCaretTo(cell_of(location))]
}

/// The commands that repaint the row of `location`: with the cursor
/// hidden, the row is cleared and the line that stands in it, if there is
/// one, is printed again; then the cursor goes to `location` and is shown.
pub open spec fn row_repaint(lines: Seq<Seq<char>>, location: Location) -> Seq<CommandView> {
    seq![
        CommandView::HideCaret,
        CommandView::MoveCaretTo(Position { x: 0, y: location.y }),
        CommandView::ClearCurrentLine,
    ] + (if location.y < lines.len() {
        seq![CommandView::Print(lines[location.y as int])]
    } else {
        Seq::empty()
    }) + seq![CommandView::MoveCaretTo(cell_of(location)), CommandView::ShowCaret]
}

/// The commands of one render pass.
///
/// A fresh view first greets the user, waits for a key and paints the
/// whole buffer, with the caret at the origin. Every pass then ends the
/// same way: a stale view repaints the caret's row, any other only places
/// the cursor, and the output is flushed.
pub open spec fn rendered(
    fresh: bool,
    stale: bool,
    size: Size,
    lines: Seq<Seq<char>>,
    location: Location,
) -> Seq<CommandView> {
    let opening = if fresh {
        welcome(size) + seq![CommandView::AwaitKey] + full_paint(lines, size, origin())
    } else {
        Seq::empty()
    };
    let shown_at = if fresh {
        origin()
    } else {
        location
    };
    let update = if stale {
        row_repaint(lines, shown_at)
    } else {
        seq![CommandView::MoveCaretTo(cell_of(shown_at))]
    };
    opening + update + seq![CommandView::Execute]
}

/// Appending commands appends their views.
pub proof fn lemma_command_views_add(first: Seq<Command>, second: Seq<Command>)
    ensures
        command_views(first + second) == command_views(first) + command_views(second),
{
}

/// Puts `command` at the end of `commands`.
pub(crate) fn queue_command(commands: &mut Vec<Command>, command: Command)
    ensures
        final(commands)@ == old(commands)@.push(command),
        command_views(final(commands)@) == command_views(old(commands)@).push(command@),
{
    commands.push(command);
}

/// Puts all of `more` at the end of `commands`.
pub(crate) fn queue_commands(commands: &mut Vec<Command>, more: Vec<Command>)
    ensures
        command_views(final(commands)@) == command_views(old(commands)@) + command_views(more@),
{
    let mut more = more;
    proof {
        lemma_command_views_add(commands@, more@);
    }
    commands.append(&mut more);
}

/// The state of the renderer.
#[derive(Debug)]
pub struct View {
    is_new_buffer: bool,
    size: Size,
    pub needs_redraw: bool,
}

impl View {
    /// Nothing has been painted yet.
    pub closed spec fn fresh(&self) -> bool {
        self.is_new_buffer
    }

    /// The size of the viewport the view paints into.
    pub closed spec fn viewport(&self) -> Size {
        self.size
    }

    /// What is on the screen may no longer show buffer and caret as they
    /// are.
    pub closed spec fn stale(&self) -> bool {
        self.needs_redraw
    }

    /// Whether nothing has been painted yet.
    #[verifier::when_used_as_spec(fresh)]
    pub fn is_new_buffer(&self) -> (fresh: bool)
        ensures
            fresh == self.fresh(),
    {
        self.is_new_buffer
    }

    /// The size of the viewport the view paints into.
    #[verifier::when_used_as_spec(viewport)]
    pub fn size(&self) -> (size: Size)
        ensures
            size == self.viewport(),
    {
        self.size
    }

    /// A fresh view of 40 rows by 80 columns.
    pub fn default() -> (view: View)
        ensures
            view.fresh(),
            !view.stale(),
            view.viewport() == (Size { height: 40, width: 80 }),
    {
        View { is_new_buffer: true, size: Size { height: 40, width: 80 }, needs_redraw: false }
    }

    /// A fresh view of the given size.
    pub fn new(size: Size) -> (view: View)
        ensures
            view.fresh(),
            !view.stale(),
            view.viewport() == size,
    {
        View { is_new_buffer: true, size, needs_redraw: false }
    }

    /// Takes over a new viewport size and marks the view as stale. Nothing
    /// is painted.
    pub fn resize(&mut self, to: Size)
        ensures
            final(self).viewport() == to,
            final(self).stale(),
            final(self).fresh() == old(self).fresh(),
    {
        self.size = to;
        self.needs_redraw = true;
    }

    /// Marks the view as stale, so that the next render pass repaints the
    /// caret's row.
    pub fn mark_stale(&mut self)
        ensures
            final(self).stale(),
            final(self).fresh() == old(self).fresh(),
            final(self).viewport() == old(self).viewport(),
    {
        self.needs_redraw = true;
    }

    /// Tells the caret the size of the viewport.
    pub fn set_size(caret: &mut Caret, size: Size)
        ensures
            final(caret).size == size,
            final(caret).location == old(caret).location,
    {
        caret.size = size;
    }

    /// The command that puts the screen cursor where the caret stands.
    pub fn draw_caret(&mut self, caret: &mut Caret) -> (command: Command)
        ensures
            command == Command::MoveCaretTo(cell_of(old(caret).location)),
            *final(caret) == *old(caret),
            *final(self) == *old(self),
    {
        Command::MoveCaretTo(caret.location.into())
    }

    /// The commands that mark the rows of the viewport from `current_line`
    /// on as empty.
    fn filling_empty_lines(current_line: usize, size: Size) -> (commands: Vec<Command>)
        ensures
            command_views(commands@) == placeholder_rows(current_line as int, size.height as int),
    {
        let mut commands: Vec<Command> = Vec::new();
        let mut row = current_line;
        while row < size.height
            invariant
                current_line <= row,
                row <= size.height || row == current_line,
                command_views(commands@) == placeholder_rows(current_line as int, row as int),
            decreases size.height - row,
        {
            queue_command(&mut commands, Command::MoveCaretTo(Position { x: 0, y: row }));
            queue_command(&mut commands, Command::Print("~".to_owned()));
            row += 1;
        }
        commands
    }

    /// The commands that show `shown` as a banner, centred as a message
    /// of `length` characters is.
    fn show_banner(size: Size, length: usize, shown: String) -> (commands: Vec<Command>)
        ensures
            command_views(commands@) == banner(size, length as int, shown@),
    {
        let half_width = size.width / 2;
        let half_length = length / 2;
        let column = if half_width >= half_length {
            half_width - half_length
        } else {
            0
        };
        let mut commands: Vec<Command> = Vec::new();
        queue_command(&mut commands, Command::HideCaret);
        queue_command(&mut commands, Command::ClearScreen);
        queue_command(&mut commands, Command::MoveCaretTo(Position { x: column, y: size.height / 3 }));
        queue_command(&mut commands, Command::Print(shown));
        queue_command(&mut commands, Command::Print("\r\n\r\n".to_owned()));
        queue_command(&mut commands, Command::MoveCaretTo(Position { x: 0, y: 0 }));
        queue_command(&mut commands, Command::ShowCaret);
        queue_command(&mut commands, Command::Execute);
        commands
    }

    /// The commands that greet the user with name and version, centred in
    /// a viewport of the given size; the caret goes to the origin.
    pub fn welcome_message(caret: &mut Caret, size: Size) -> (commands: Vec<Command>)
        ensures
            command_views(commands@) == welcome(size),
            final(caret).location == origin(),
            final(caret).size == old(caret).size,
    {
        let mut message = NAME.to_owned();
        message.append(" -- v");
        message.append(VERSION);
        let length = message.as_str().unicode_len();
        caret.location = Location { x: 0, y: 0 };
        Self::show_banner(size, length, message)
    }

    /// The commands that take leave of the user, centred in a viewport of
    /// the given size and cut off at its width; the caret goes to the
    /// origin.
    pub fn goodbye_message(caret: &mut Caret, size: Size) -> (commands: Vec<Command>)
        ensures
            command_views(commands@) == goodbye(size),
            final(caret).location == origin(),
            final(caret).size == old(caret).size,
    {
        let length = GOODBYE.unicode_len();
        let shown = if size.width < length {
            GOODBYE.substring_char(0, size.width).to_owned()
        } else {
            GOODBYE.to_owned()
        };
        caret.location = Location { x: 0, y: 0 };
        Self::show_banner(size, length, shown)
    }

    /// The commands of a full paint of `buffer` into a viewport of the
    /// given size, which leave the cursor where the caret stands.
    pub fn draw_buffer(buffer: &Buffer, caret: &mut Caret, size: Size) -> (commands: Vec<Command>)
        ensures
            command_views(commands@) == full_paint(buffer@, size, old(caret).location),
            *final(caret) == *old(caret),
    {
        let mut commands: Vec<Command> = Vec::new();
        queue_command(&mut commands, Command::ClearScreen);
        queue_command(&mut commands, Command::MoveCaretTo(Position { x: 0, y: 0 }));
        let ghost start = command_views(commands@);
        let count = buffer.lines.len();
        let mut row: usize = 0;
        while row < count
            invariant
                count == buffer@.len(),
                row <= count,
                command_views(commands@) == start + printed_lines(buffer@.take(row as int)),
            decreases count - row,
        {
            proof {
                let shown = buffer@.take(row + 1);
                assert(shown.drop_last() =~= buffer@.take(row as int));
            }
            queue_command(&mut commands, Command::Print(buffer.lines[row].clone()));
            queue_command(&mut commands, Command::Print("\r\n".to_owned()));
            row += 1;
        }
        assert(buffer@.take(count as int) =~= buffer@);
        queue_commands(&mut commands, Self::filling_empty_lines(count, size));
        queue_command(&mut commands, Command::MoveCaretTo(caret.location.into()));
        commands
    }

    /// The commands that repaint the caret's row from `current_buffer`.
    pub fn refresh_screen(&mut self, caret: &mut Caret, current_buffer: &Buffer) -> (commands: Vec<
        Command,
    >)
        ensures
            command_views(commands@) == row_repaint(current_buffer@, old(caret).location),
            *final(caret) == *old(caret),
            *final(self) == *old(self),
    {
        let mut commands: Vec<Command> = Vec::new();
        let current_line = caret.location.y;
        queue_command(&mut commands, Command::HideCaret);
        queue_command(&mut commands, Command::MoveCaretTo(Position { x: 0, y: current_line }));
        queue_command(&mut commands, Command::ClearCurrentLine);
        match current_buffer.get_line(current_line) {
            Some(line) => {
                queue_command(&mut commands, Command::Print(line));
            },
            None => {},
        }
        queue_command(&mut commands, Command::MoveCaretTo(caret.location.into()));
        queue_command(&mut commands, Command::ShowCaret);
        commands
    }

    /// One render pass; see [`rendered`] for the commands. Afterwards the
    /// view is neither fresh nor stale. A view that was fresh puts the
    /// caret at the origin and tells it the size of the viewport; any
    /// other leaves the caret alone. The buffer is only read.
    pub fn render(view: &mut View, caret: &mut Caret, current_buffer: &Buffer) -> (commands: Vec<
        Command,
    >)
        ensures
            command_views(commands@) == rendered(
                old(view).fresh(),
                old(view).stale(),
                old(view).viewport(),
                current_buffer@,
                old(caret).location,
            ),
            !final(view).fresh(),
            !final(view).stale(),
            final(view).viewport() == old(view).viewport(),
            old(view).fresh() ==> final(caret).location == origin() && final(caret).size == old(
                view,
            ).viewport(),
            !old(view).fresh() ==> *final(caret) == *old(caret),
    {
        let mut commands: Vec<Command> = Vec::new();
        if view.is_new_buffer {
            queue_commands(&mut commands, Self::welcome_message(caret, view.size));
            queue_command(&mut commands, Command::AwaitKey);
            view.is_new_buffer = false;
            Self::set_size(caret, view.size);
            caret.location = Location { x: 0, y: 0 };
            queue_commands(&mut commands, Self::draw_buffer(current_buffer, caret, view.size));
        }
        if view.needs_redraw {
            queue_commands(&mut commands, view.refresh_screen(caret, current_buffer));
            view.needs_redraw = false;
        } else {
            queue_command(&mut commands, view.draw_caret(caret));
        }
        queue_command(&mut commands, Command::Execute);
        assert(command_views(commands@) =~= rendered(
            old(view).fresh(),
            old(view).stale(),
            old(view).viewport(),
            current_buffer@,
            old(caret).location,
        ));
        commands
    }
}

} // verus!
