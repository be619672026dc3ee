use r_edit::caret::Caret;
use r_edit::editor::{Editor, InputEvent, Key};
use r_edit::terminal::{Command, Location, Position, Size};
use r_edit::view::GOODBYE_PAUSE;

fn move_to(x: usize, y: usize) -> Command {
    Command::MoveCaretTo(Position { x, y })
}

fn print(text: &str) -> Command {
    Command::Print(text.to_string())
}

fn lines_of(editor: &Editor) -> Vec<&str> {
    editor.current_buffer().lines.iter().map(|line| line.as_str()).collect()
}

/// An editor that has opened `text` in a terminal of 80 by 24 cells and
/// has gone through its first pass.
fn opened(text: &str) -> Editor {
    let mut editor = Editor::new("p".to_string());
    editor.run(text, Size { height: 24, width: 80 });
    editor.repl();
    editor
}

fn typed(editor: &mut Editor, events: &[InputEvent]) {
    for event in events {
        editor.evaluate_event(event);
    }
}

#[test]
fn keys_stand_for_events() {
    assert_eq!(InputEvent::from_key(Key::Char('q'), true), InputEvent::Quit);
    assert_eq!(InputEvent::from_key(Key::Char('s'), true), InputEvent::SaveAndQuit);
    assert_eq!(InputEvent::from_key(Key::Char('q'), false), InputEvent::Character('q'));
    assert_eq!(InputEvent::from_key(Key::Char('s'), false), InputEvent::Character('s'));
    assert_eq!(InputEvent::from_key(Key::Char('a'), true), InputEvent::Character('a'));
    assert_eq!(InputEvent::from_key(Key::Char('Q'), true), InputEvent::Character('Q'));
    assert_eq!(InputEvent::from_key(Key::Enter, false), InputEvent::LineBreak);
    assert_eq!(InputEvent::from_key(Key::Enter, true), InputEvent::LineBreak);
    assert_eq!(InputEvent::from_key(Key::Backspace, false), InputEvent::DeleteBackward);
    assert_eq!(InputEvent::from_key(Key::Left, false), InputEvent::Left);
    assert_eq!(InputEvent::from_key(Key::Right, false), InputEvent::Right);
    assert_eq!(InputEvent::from_key(Key::Up, false), InputEvent::Up);
    assert_eq!(InputEvent::from_key(Key::Down, false), InputEvent::Down);
    assert_eq!(InputEvent::from_key(Key::Home, false), InputEvent::Home);
    assert_eq!(InputEvent::from_key(Key::End, false), InputEvent::End);
    assert_eq!(InputEvent::from_key(Key::PageUp, false), InputEvent::PageUp);
    assert_eq!(InputEvent::from_key(Key::PageDown, false), InputEvent::PageDown);
    assert_eq!(InputEvent::from_key(Key::Other, true), InputEvent::Other);
}

#[test]
fn new_editor_is_empty() {
    let editor = Editor::new("some/file.txt".to_string());
    assert_eq!(editor.filename(), "some/file.txt");
    assert!(!editor.should_quit());
    assert!(editor.current_buffer().lines.is_empty());
    assert_eq!(editor.caret(), Caret::default());
    assert!(editor.renderer().is_new_buffer());
    assert!(!editor.renderer().needs_redraw);
    assert_eq!(editor.renderer().size(), Size { height: 40, width: 80 });
}

#[test]
fn default_editor_edits_the_test_file() {
    let editor = Editor::default();
    assert_eq!(editor.filename(), "./test/test.txt");
    assert!(!editor.should_quit());
    assert!(editor.current_buffer().lines.is_empty());
}

#[test]
fn run_opens_the_file() {
    let mut editor = Editor::new("p".to_string());
    let commands = editor.run("foo\nbar\n", Size { height: 24, width: 80 });
    assert_eq!(commands, vec![Command::ClearScreen, move_to(0, 0), Command::Execute]);
    assert_eq!(lines_of(&editor), vec!["foo", "bar"]);
    assert_eq!(editor.renderer().size(), Size { height: 24, width: 80 });
    assert!(editor.renderer().is_new_buffer());
    assert!(!editor.should_quit());
    assert_eq!(editor.filename(), "p");
}

#[test]
fn first_pass_greets_and_paints() {
    let mut editor = Editor::new("p".to_string());
    editor.run("x\n", Size { height: 3, width: 80 });
    let commands = editor.repl();
    assert_eq!(commands.len(), 8 + 1 + 9 + 2);
    assert_eq!(commands[3], print("R-EDIT -- v0.1.0"));
    assert_eq!(commands[8], Command::AwaitKey);
    assert_eq!(commands[11], print("x"));
    assert_eq!(commands[19], Command::Execute);
    assert!(!editor.renderer().is_new_buffer());
    assert_eq!(editor.caret().size, Size { height: 3, width: 80 });
    assert_eq!(editor.caret().location, Location { x: 0, y: 0 });
    assert_eq!(editor.repl(), vec![move_to(0, 0), Command::Execute]);
}

#[test]
fn typing_inserts_and_steps_right() {
    let mut editor = opened("ab\n");
    let commands = editor.evaluate_event(&InputEvent::Character('x'));
    assert_eq!(commands, vec![move_to(1, 0)]);
    assert_eq!(lines_of(&editor), vec!["xab"]);
    assert_eq!(editor.caret().location, Location { x: 1, y: 0 });
    assert!(editor.renderer().needs_redraw);
    assert_eq!(
        editor.repl(),
        vec![
            Command::HideCaret,
            move_to(0, 0),
            Command::ClearCurrentLine,
            print("xab"),
            move_to(1, 0),
            Command::ShowCaret,
            Command::Execute,
        ]
    );
    assert!(!editor.renderer().needs_redraw);
}

#[test]
fn typing_in_an_empty_buffer_starts_a_line() {
    let mut editor = opened("");
    typed(&mut editor, &[InputEvent::Character('h'), InputEvent::Character('i')]);
    assert_eq!(lines_of(&editor), vec!["hi"]);
    assert_eq!(editor.caret().location, Location { x: 2, y: 0 });
}

#[test]
fn line_break_splits_steps_down_and_goes_to_the_first_column() {
    let mut editor = opened("ab\n");
    typed(&mut editor, &[InputEvent::Right]);
    let mut view_of_three_rows = Editor::new("p".to_string());
    view_of_three_rows.run("ab\n", Size { height: 3, width: 80 });
    view_of_three_rows.repl();
    typed(&mut view_of_three_rows, &[InputEvent::Right]);
    let commands = view_of_three_rows.evaluate_event(&InputEvent::LineBreak);
    assert_eq!(
        commands,
        vec![
            Command::ClearScreen,
            move_to(0, 0),
            print("a"),
            print("\r\n"),
            print("b"),
            print("\r\n"),
            move_to(0, 2),
            print("~"),
            move_to(1, 0),
            move_to(1, 1),
        ]
    );
    editor.evaluate_event(&InputEvent::LineBreak);
    assert_eq!(lines_of(&editor), vec!["a", "b"]);
    assert_eq!(editor.caret().location, Location { x: 0, y: 1 });
    assert!(editor.renderer().needs_redraw);
}

#[test]
fn delete_backward_deletes_and_steps_left() {
    let mut editor = opened("abc\n");
    typed(&mut editor, &[InputEvent::Right, InputEvent::Right]);
    let commands = editor.evaluate_event(&InputEvent::DeleteBackward);
    assert_eq!(commands, vec![move_to(1, 0)]);
    assert_eq!(lines_of(&editor), vec!["ac"]);
    assert_eq!(editor.caret().location, Location { x: 1, y: 0 });
    assert!(editor.renderer().needs_redraw);
}

#[test]
fn delete_backward_in_the_first_column_joins_lines() {
    let mut editor = opened("foo\nbar\n");
    typed(&mut editor, &[InputEvent::Down, InputEvent::DeleteBackward]);
    assert_eq!(lines_of(&editor), vec!["foobar"]);
    assert_eq!(editor.caret().location, Location { x: 0, y: 1 });
}

#[test]
fn arrows_move_the_caret_only() {
    let mut editor = opened("foo\nbar\n");
    assert_eq!(editor.evaluate_event(&InputEvent::Right), vec![move_to(1, 0)]);
    assert_eq!(editor.evaluate_event(&InputEvent::Down), vec![move_to(1, 1)]);
    assert_eq!(editor.evaluate_event(&InputEvent::Left), vec![move_to(0, 1)]);
    assert_eq!(editor.evaluate_event(&InputEvent::Left), vec![move_to(0, 1)]);
    assert_eq!(editor.evaluate_event(&InputEvent::Up), vec![move_to(0, 0)]);
    assert_eq!(editor.evaluate_event(&InputEvent::Up), vec![move_to(0, 0)]);
    assert_eq!(lines_of(&editor), vec!["foo", "bar"]);
    assert!(!editor.renderer().needs_redraw);
    assert!(!editor.should_quit());
}

#[test]
fn jumps_move_the_caret_only() {
    let mut editor = opened("foo\nbar\n");
    assert!(editor.evaluate_event(&InputEvent::End).is_empty());
    assert_eq!(editor.caret().location, Location { x: 79, y: 0 });
    assert!(editor.evaluate_event(&InputEvent::PageDown).is_empty());
    assert_eq!(editor.caret().location, Location { x: 79, y: 23 });
    assert!(editor.evaluate_event(&InputEvent::Home).is_empty());
    assert_eq!(editor.caret().location, Location { x: 0, y: 23 });
    assert!(editor.evaluate_event(&InputEvent::PageUp).is_empty());
    assert_eq!(editor.caret().location, Location { x: 0, y: 0 });
    assert_eq!(lines_of(&editor), vec!["foo", "bar"]);
    assert!(!editor.renderer().needs_redraw);
}

#[test]
fn resize_goes_to_caret_and_view() {
    let mut editor = opened("foo\n");
    typed(&mut editor, &[InputEvent::End, InputEvent::PageDown]);
    let commands = editor.evaluate_event(&InputEvent::Resize(Size { height: 10, width: 20 }));
    assert!(commands.is_empty());
    assert_eq!(editor.caret().size, Size { height: 10, width: 20 });
    assert_eq!(editor.renderer().size(), Size { height: 10, width: 20 });
    assert_eq!(editor.caret().location, Location { x: 79, y: 23 });
    assert!(editor.renderer().needs_redraw);
    assert_eq!(lines_of(&editor), vec!["foo"]);
}

#[test]
fn other_events_are_ignored() {
    let mut editor = opened("foo\n");
    assert!(editor.evaluate_event(&InputEvent::Other).is_empty());
    assert_eq!(lines_of(&editor), vec!["foo"]);
    assert_eq!(editor.caret().location, Location { x: 0, y: 0 });
    assert!(!editor.renderer().needs_redraw);
    assert!(!editor.should_quit());
}

#[test]
fn quit_sets_the_flag_and_the_next_pass_takes_leave() {
    let mut editor = opened("foo\n");
    assert!(editor.evaluate_event(&InputEvent::Quit).is_empty());
    assert!(editor.should_quit());
    let commands = editor.repl();
    assert_eq!(
        commands,
        vec![
            move_to(0, 0),
            Command::Execute,
            Command::HideCaret,
            Command::ClearScreen,
            move_to(36, 8),
            print("Goodbye."),
            print("\r\n\r\n"),
            move_to(0, 0),
            Command::ShowCaret,
            Command::Execute,
            Command::Pause(1000),
        ]
    );
    assert_eq!(GOODBYE_PAUSE, 1000);
    assert_eq!(lines_of(&editor), vec!["foo"]);
}

#[test]
fn save_and_quit_writes_first_and_quits_after() {
    let mut editor = opened("x");
    let commands = editor.evaluate_event(&InputEvent::SaveAndQuit);
    assert_eq!(
        commands,
        vec![Command::WriteFile { path: "p".to_string(), text: "x\n".to_string() }]
    );
    assert!(!editor.should_quit());
    editor.save_finished(true);
    assert!(editor.should_quit());
    assert_eq!(lines_of(&editor), vec!["x"]);
}

#[test]
fn failed_save_does_not_quit() {
    let mut editor = opened("x\n");
    editor.evaluate_event(&InputEvent::SaveAndQuit);
    editor.save_finished(false);
    assert!(!editor.should_quit());
    assert_eq!(editor.repl(), vec![move_to(0, 0), Command::Execute]);
    editor.evaluate_event(&InputEvent::Quit);
    editor.save_finished(false);
    assert!(editor.should_quit());
}

#[test]
fn saved_text_reads_back_as_the_buffer() {
    let mut editor = opened("one\ntwo");
    typed(
        &mut editor,
        &[
            InputEvent::End,
            InputEvent::Character('!'),
            InputEvent::LineBreak,
            InputEvent::Character('ä'),
            InputEvent::Down,
            InputEvent::DeleteBackward,
        ],
    );
    let before: Vec<String> = editor.current_buffer().lines.clone();
    let commands = editor.evaluate_event(&InputEvent::SaveAndQuit);
    match &commands[0] {
        Command::WriteFile { path, text } => {
            assert_eq!(path, "p");
            let mut again = Editor::new("p".to_string());
            again.run(text, Size { height: 24, width: 80 });
            assert_eq!(again.current_buffer().lines, before);
        }
        other => panic!("not a write: {:?}", other),
    }
}
