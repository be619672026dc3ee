//! The editor: one buffer, one caret, one view and the path of the file
//! being edited, driven one input event at a time.
//!
//! The editor performs no input or output. Whoever drives it reads the
//! events, hands them in, and carries out the commands that come back:
//!
//! 1. [`Editor::run`] with the contents of the file and the size of the
//!    terminal,
//! 2. [`Editor::repl`] once per pass of the loop, which stops after the
//!    pass in which [`Editor::should_quit`] holds,
//! 3. [`Editor::evaluate_event`] with the next input event,
//! 4. [`Editor::save_finished`] after a [`Command::WriteFile`] was carried
//!    out.

use vstd::prelude::*;
use vstd::view::View as _;
use crate::buffer::{
    are_lines, backspaced, inserted, lemma_backspaced_lines, lemma_inserted_lines,
    lemma_text_round_trip, lines_of, text_of, Buffer, LINE_BREAK,
};
use crate::caret::{Caret, Direction};
use crate::terminal::{cell_of, command_views, Command, CommandView, Position, Size};
use crate::view::{
    full_paint, goodbye, origin, queue_command, queue_commands, rendered, View, GOODBYE_PAUSE,
};

verus! {

/// A key of the keyboard, as far as the editor tells keys apart.
#[derive(Debug, Copy, Clone, PartialEq, Eq, Structural)]
pub enum Key {
    Char(char),
    Enter,
    Backspace,
    Left,
    Right,
    Up,
    Down,
    Home,
    End,
    PageUp,
    PageDown,
    Other,
}

/// What can happen at the terminal, as far as the editor reacts to it.
#[derive(Debug, Copy, Clone, PartialEq, Eq, Structural)]
pub enum InputEvent {
    /// A character was typed.
    Character(char),
    /// The line-break key was pressed.
    LineBreak,
    /// The delete-backward key was pressed.
    DeleteBackward,
    Up,
    Down,
    Left,
    Right,
    Home,
    End,
    PageUp,
    PageDown,
    /// The terminal now has the given size.
    Resize(Size),
    /// The user asked to leave.
    Quit,
    /// The user asked to save the buffer and leave.
    SaveAndQuit,
    /// Anything else; it is ignored.
    Other,
}

impl InputEvent {
    /// The event that a key press stands for. `control` says that the
    /// control key, and no other modifier, was held down: with it `q`
    /// asks to leave and `s` to save and leave. Every other character is
    /// typed as it is, with or without modifiers.
    pub open spec fn of_key(key: Key, control: bool) -> InputEvent {
        match key {
            Key::Char(c) => if control && c == 'q' {
                InputEvent::Quit
            } else if control && c == 's' {
                InputEvent::SaveAndQuit
            } else {
                InputEvent::Character(c)
            },
            Key::Enter => InputEvent::LineBreak,
            Key::Backspace => InputEvent::DeleteBackward,
            Key::Left => InputEvent::Left,
            Key::Right => InputEvent::Right,
            Key::Up => InputEvent::Up,
            Key::Down => InputEvent::Down,
            Key::Home => InputEvent::Home,
            Key::End => InputEvent::End,
            Key::PageUp => InputEvent::PageUp,
            Key::PageDown => InputEvent::PageDown,
            Key::Other => InputEvent::Other,
        }
    }

    /// The event that a key press stands for; see [`InputEvent::of_key`].
    pub fn from_key(key: Key, control: bool) -> (event: InputEvent)
        ensures
            event == Self::of_key(key, control),
    {
        match key {
            Key::Char(c) => {
                if control && c == 'q' {
                    InputEvent::Quit
                } else if control && c == 's' {
                    InputEvent::SaveAndQuit
                } else {
                    InputEvent::Character(c)
                }
            },
            Key::Enter => InputEvent::LineBreak,
            Key::Backspace => InputEvent::DeleteBackward,
            Key::Left => InputEvent::Left,
            Key::Right => InputEvent::Right,
            Key::Up => InputEvent::Up,
            Key::Down => InputEvent::Down,
            Key::Home => InputEvent::Home,
            Key::End => InputEvent::End,
            Key::PageUp => InputEvent::PageUp,
            Key::PageDown => InputEvent::PageDown,
            Key::Other => InputEvent::Other,
        }
    }
}

/// The state of an editor, as a mathematical value.
pub struct EditorState {
    /// The user asked to leave, and nothing stands in the way.
    pub should_quit: bool,
    pub caret: Caret,
    /// The view has painted nothing yet.
    pub fresh: bool,
    /// The view is marked stale.
    pub stale: bool,
    /// The size of the viewport the view paints into.
    pub viewport: Size,
    /// The lines of the buffer.
    pub lines: Seq<Seq<char>>,
    /// The path of the file being edited.
    pub path: Seq<char>,
}

impl EditorState {
    /// The state with another caret.
    pub open spec fn with_caret(self, caret: Caret) -> EditorState {
        EditorState { caret, ..self }
    }

    /// The state after an edit: other lines, another caret, and a view
    /// marked stale.
    pub open spec fn edited(self, lines: Seq<Seq<char>>, caret: Caret) -> EditorState {
        EditorState { lines, caret, stale: true, ..self }
    }

    /// The state after `event`.
    ///
    /// A typed character is inserted at the caret, which then steps right;
    /// a line break is inserted at the caret, which then steps down and
    /// goes to the first column; deleting backwards deletes at the caret,
    /// which then steps left. All three mark the view stale. The arrow and
    /// jump keys move the caret and touch nothing else. A new terminal
    /// size goes to caret and view, and marks the view stale. A request
    /// to leave sets the quit flag at once; a request to save and leave
    /// changes nothing yet: the flag is set when the save has returned
    /// (see [`Editor::save_finished`]).
    pub open spec fn evaluated(self, event: InputEvent) -> EditorState {
        let at = self.caret.location;
        match event {
            InputEvent::Quit => EditorState { should_quit: true, ..self },
            InputEvent::SaveAndQuit => self,
            InputEvent::Character(c) => self.edited(
                inserted(self.lines, c, at),
                self.caret.shifted(Direction::Right),
            ),
            InputEvent::LineBreak => self.edited(
                inserted(self.lines, LINE_BREAK, at),
                self.caret.shifted(Direction::Down).at_line_start(),
            ),
            InputEvent::DeleteBackward => self.edited(
                backspaced(self.lines, at),
                self.caret.shifted(Direction::Left),
            ),
            InputEvent::Up => self.with_caret(self.caret.shifted(Direction::Up)),
            InputEvent::Down => self.with_caret(self.caret.shifted(Direction::Down)),
            InputEvent::Left => self.with_caret(self.caret.shifted(Direction::Left)),
            InputEvent::Right => self.with_caret(self.caret.shifted(Direction::Right)),
            InputEvent::Home => self.with_caret(self.caret.at_line_start()),
            InputEvent::End => self.with_caret(self.caret.at_line_end()),
            InputEvent::PageUp => self.with_caret(self.caret.paged_up()),
            InputEvent::PageDown => self.with_caret(self.caret.paged_down()),
            InputEvent::Resize(size) => EditorState {
                viewport: size,
                stale: true,
                caret: Caret { location: at, size },
                ..self
            },
            InputEvent::Other => self,
        }
    }

    /// The commands that `event` gives rise to, in order.
    ///
    /// Every single step of the caret places the screen cursor at once. A
    /// line break paints the whole buffer anew before the caret steps
    /// down. A request to save and leave asks for the text of the buffer
    /// to be written to the file. Nothing else asks for anything.
    pub open spec fn requested(self, event: InputEvent) -> Seq<CommandView> {
        match event {
            InputEvent::SaveAndQuit => seq![
                CommandView::WriteFile { path: self.path, text: text_of(self.lines) },
            ],
            InputEvent::Character(_) | InputEvent::Right => seq![self.placed(Direction::Right)],
            InputEvent::DeleteBackward | InputEvent::Left => seq![self.placed(Direction::Left)],
            InputEvent::Up => seq![self.placed(Direction::Up)],
            InputEvent::Down => seq![self.placed(Direction::Down)],
            InputEvent::LineBreak => full_paint(
                inserted(self.lines, LINE_BREAK, self.caret.location),
                self.viewport,
                self.caret.location,
            ) + seq![self.placed(Direction::Down)],
            _ => Seq::empty(),
        }
    }

    /// The command that places the screen cursor after a step of the
    /// caret in `direction`.
    pub open spec fn placed(self, direction: Direction) -> CommandView {
        CommandView::MoveCaretTo(cell_of(self.caret.shifted(direction).location))
    }

    /// The state after opening a file with the contents `text` in a
    /// terminal of the given size: the buffer holds the lines of `text`,
    /// and the view is a fresh one of that size.
    pub open spec fn opened(self, text: Seq<char>, size: Size) -> EditorState {
        EditorState { lines: lines_of(text), viewport: size, fresh: true, stale: false, ..self }
    }

    /// The commands that prepare the screen when a file is opened.
    pub open spec fn opening() -> Seq<CommandView> {
        seq![
            CommandView::ClearScreen,
            CommandView::MoveCaretTo(Position { x: 0, y: 0 }),
            CommandView::Execute,
        ]
    }

    /// The state after one pass of the loop: the view is neither fresh nor
    /// stale. A view that was fresh has told the caret the size of the
    /// viewport; that, and leaving, put the caret at the origin.
    pub open spec fn after_pass(self) -> EditorState {
        EditorState {
            fresh: false,
            stale: false,
            caret: Caret {
                location: if self.fresh || self.should_quit {
                    origin()
                } else {
                    self.caret.location
                },
                size: if self.fresh {
                    self.viewport
                } else {
                    self.caret.size
                },
            },
            ..self
        }
    }

    /// The commands of one pass of the loop: those of a render pass, and,
    /// once the quit flag is set, the closing message and the pause that
    /// keeps it on the screen.
    pub open spec fn pass(self) -> Seq<CommandView> {
        rendered(self.fresh, self.stale, self.viewport, self.lines, self.caret.location) + (
        if self.should_quit {
            goodbye(self.viewport) + seq![CommandView::Pause(GOODBYE_PAUSE)]
        } else {
            Seq::empty()
        })
    }

    /// No event puts a line break into a line: if no line of the buffer
    /// holds one before an event, none does after it.
    pub proof fn lemma_events_keep_lines(self, event: InputEvent)
        requires
            are_lines(self.lines),
        ensures
            are_lines(self.evaluated(event).lines),
    {
        lemma_inserted_lines(self.lines, LINE_BREAK, self.caret.location);
        lemma_backspaced_lines(self.lines, self.caret.location);
        if let InputEvent::Character(c) = event {
            lemma_inserted_lines(self.lines, c, self.caret.location);
        }
    }

    /// Only a new terminal size can put the caret outside its viewport:
    /// a caret that stands on a cell of its viewport still does after any
    /// other event, within the same viewport.
    pub proof fn lemma_events_keep_caret_in_viewport(self, event: InputEvent)
        requires
            self.caret.in_viewport(),
            !(event is Resize),
        ensures
            self.evaluated(event).caret.in_viewport(),
            self.evaluated(event).caret.size == self.caret.size,
    {
    }

    /// What a request to save and leave asks to be written reads back as
    /// the buffer: the lines of that text are the lines of the buffer, as
    /// long as none of them holds a line break.
    pub proof fn lemma_saved_text_reads_back(self)
        requires
            are_lines(self.lines),
        ensures
            self.requested(InputEvent::SaveAndQuit) == seq![
                CommandView::WriteFile { path: self.path, text: text_of(self.lines) },
            ],
            lines_of(text_of(self.lines)) == self.lines,
    {
        lemma_text_round_trip(self.lines);
    }
}

/// The editor.
#[derive(Debug)]
pub struct Editor {
    should_quit: bool,
    caret: Caret,
    view: View,
    current_buffer: Buffer,
    filename: String,
}

impl vstd::view::View for Editor {
    type V = EditorState;

    closed spec fn view(&self) -> EditorState {
        EditorState {
            should_quit: self.should_quit,
            caret: self.caret,
            fresh: self.view.fresh(),
            stale: self.view.stale(),
            viewport: self.view.viewport(),
            lines: self.current_buffer@,
            path: self.filename@,
        }
    }
}

impl Editor {
    /// No line of the buffer holds a line break.
    pub open spec fn wf(&self) -> bool {
        are_lines(self@.lines)
    }

    /// The state in which an editor for the file at `path` starts: an
    /// empty buffer, the caret at the origin of an empty viewport, and a
    /// fresh view of 40 rows by 80 columns.
    pub open spec fn initial(path: Seq<char>) -> EditorState {
        EditorState {
            should_quit: false,
            caret: Caret { location: origin(), size: Size { height: 0, width: 0 } },
            fresh: true,
            stale: false,
            viewport: Size { height: 40, width: 80 },
            lines: Seq::empty(),
            path,
        }
    }

    /// An editor for the file `./test/test.txt`.
    pub fn default() -> (editor: Editor)
        ensures
            editor@ == Self::initial("./test/test.txt"@),
            editor.wf(),
    {
        Editor {
            should_quit: false,
            caret: Caret::default(),
            current_buffer: Buffer::default(),
            view: View::default(),
            filename: "./test/test.txt".to_owned(),
        }
    }

    /// An editor for the file at `filename`.
    pub fn new(filename: String) -> (editor: Editor)
        ensures
            editor@ == Self::initial(filename@),
            editor.wf(),
    {
        Editor {
            should_quit: false,
            caret: Caret::default(),
            current_buffer: Buffer::default(),
            view: View::default(),
            filename,
        }
    }

    /// Whether the loop is to stop after the current pass.
    pub fn should_quit(&self) -> (quit: bool)
        ensures
            quit == self@.should_quit,
    {
        self.should_quit
    }

    /// The caret.
    pub fn caret(&self) -> (caret: Caret)
        ensures
            caret == self@.caret,
    {
        self.caret
    }

    /// The view that renders this editor.
    pub fn renderer(&self) -> (view: &View)
        ensures
            view.fresh() == self@.fresh,
            view.stale() == self@.stale,
            view.viewport() == self@.viewport,
    {
        &self.view
    }

    /// The buffer.
    pub fn current_buffer(&self) -> (buffer: &Buffer)
        ensures
            buffer@ == self@.lines,
    {
        &self.current_buffer
    }

    /// The path of the file being edited.
    pub fn filename(&self) -> (path: &str)
        ensures
            path@ == self@.path,
    {
        self.filename.as_str()
    }

    /// Opens the file: takes its contents `text` into the buffer and
    /// starts a fresh view of the given size. The commands clear the
    /// screen and put the cursor in the top-left cell.
    pub fn run(&mut self, text: &str, size: Size) -> (commands: Vec<Command>)
        ensures
            final(self)@ == old(self)@.opened(text@, size),
            final(self).wf(),
            command_views(commands@) == EditorState::opening(),
    {
        self.current_buffer = Buffer::from_text(text);
        self.view = View::new(size);
        let mut commands: Vec<Command> = Vec::new();
        queue_command(&mut commands, Command::ClearScreen);
        queue_command(&mut commands, Command::MoveCaretTo(Position { x: 0, y: 0 }));
        queue_command(&mut commands, Command::Execute);
        commands
    }

    /// One pass of the loop, up to the point where the next input event is
    /// read: a render pass, and after it, once the quit flag is set, the
    /// closing message and its pause. The loop ends after the pass in
    /// which the flag was set. The buffer is only read.
    pub fn repl(&mut self) -> (commands: Vec<Command>)
        ensures
            final(self)@ == old(self)@.after_pass(),
            old(self).wf() ==> final(self).wf(),
            command_views(commands@) == old(self)@.pass(),
    {
        let mut commands = View::render(&mut self.view, &mut self.caret, &self.current_buffer);
        if self.should_quit {
            let size = self.view.size();
            queue_commands(&mut commands, View::goodbye_message(&mut self.caret, size));
            queue_command(&mut commands, Command::Pause(GOODBYE_PAUSE));
        }
        commands
    }

    /// Reacts to one input event; see [`EditorState::evaluated`] for the
    /// state afterwards and [`EditorState::requested`] for the commands.
    pub fn evaluate_event(&mut self, event: &InputEvent) -> (commands: Vec<Command>)
        ensures
            final(self)@ == old(self)@.evaluated(*event),
            old(self).wf() ==> final(self).wf(),
            command_views(commands@) == old(self)@.requested(*event),
    {
        let mut commands: Vec<Command> = Vec::new();
        match *event {
            InputEvent::Quit => {
                self.should_quit = true;
            },
            InputEvent::SaveAndQuit => {
                let path = self.filename.clone();
                let text = self.current_buffer.to_text();
                queue_command(&mut commands, Command::WriteFile { path, text });
            },
            InputEvent::Character(c) => {
                self.current_buffer.insert(c, self.caret.location);
                queue_command(&mut commands, self.caret.shift(Direction::Right));
                self.view.mark_stale();
            },
            InputEvent::LineBreak => {
                self.current_buffer.insert(LINE_BREAK, self.caret.location);
                let size = self.view.size();
                queue_commands(
                    &mut commands,
                    View::draw_buffer(&self.current_buffer, &mut self.caret, size),
                );
                queue_command(&mut commands, self.caret.shift(Direction::Down));
                self.caret.location.x = 0;
                self.view.mark_stale();
            },
            InputEvent::DeleteBackward => {
                self.current_buffer.backspace(self.caret.location);
                queue_command(&mut commands, self.caret.shift(Direction::Left));
                self.view.mark_stale();
            },
            InputEvent::Left => {
                queue_command(&mut commands, self.caret.shift(Direction::Left));
            },
            InputEvent::Right => {
                queue_command(&mut commands, self.caret.shift(Direction::Right));
            },
            InputEvent::Up => {
                queue_command(&mut commands, self.caret.shift(Direction::Up));
            },
            InputEvent::Down => {
                queue_command(&mut commands, self.caret.shift(Direction::Down));
            },
            InputEvent::Home => {
                self.caret.go_start_of_line();
            },
            InputEvent::End => {
                self.caret.go_end_of_line();
            },
            InputEvent::PageUp => {
                self.caret.page_up();
            },
            InputEvent::PageDown => {
                self.caret.page_down();
            },
            InputEvent::Resize(size) => {
                self.view.resize(size);
                self.caret.resize(size);
            },
            InputEvent::Other => {},
        }
        commands
    }

    /// Tells the editor that the file was written, or could not be. Only
    /// a save that went through sets the quit flag: after one that failed
    /// the editor goes on, so that nothing is lost unseen.
    pub fn save_finished(&mut self, saved: bool)
        ensures
            final(self)@ == (EditorState {
                should_quit: old(self)@.should_quit || saved,
                ..old(self)@
            }),
            old(self).wf() ==> final(self).wf(),
    {
        if saved {
            self.should_quit = true;
        }
    }
}

} // verus!
