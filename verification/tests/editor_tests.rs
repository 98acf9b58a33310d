use editor_core::command::{Action, Command, Edit, Event, KeyCode, KeyEvent, Move, CONTROL, NONE};
use editor_core::editor::{Editor, Frame};
use editor_core::terminal::{Position, Size};

fn key(code: KeyCode) -> Event {
    Event::Key(KeyEvent { code, modifiers: NONE })
}

fn control(ch: char) -> Event {
    Event::Key(KeyEvent { code: KeyCode::Char(ch), modifiers: CONTROL })
}

fn type_text(editor: &mut Editor, text: &str) {
    for ch in text.chars() {
        assert!(editor.handle_event(key(KeyCode::Char(ch))).is_none());
    }
}

fn frame(editor: &mut Editor) -> Frame {
    editor.update_status();
    editor.refresh_screen().unwrap()
}

fn row_text(frame: &Frame, row: usize) -> Option<&str> {
    frame.rows.iter().find(|painted| painted.row == row).map(|painted| painted.text.as_str())
}

fn editor_with(lines: &str) -> Editor {
    let mut editor = Editor::new(Size { width: 40, height: 10 });
    editor.load("test.txt", Some(lines));
    editor
}

#[test]
fn first_frame_paints_every_component() {
    let mut editor = Editor::new(Size { width: 40, height: 6 });
    let frame = editor.refresh_screen().unwrap();
    assert_eq!(frame.title, "");
    assert_eq!(frame.caret, Position { col: 0, row: 0 });
    let rows: Vec<usize> = frame.rows.iter().map(|row| row.row).collect();
    assert_eq!(rows, [5, 4, 0, 1, 2, 3]);
    assert_eq!(row_text(&frame, 5), Some(""));
    assert_eq!(row_text(&frame, 4), Some("  unnamed                          1:1  "));
    assert_eq!(row_text(&frame, 0), Some("~"));
    assert_eq!(row_text(&frame, 1), Some("~  editor_core editior --version 0.1.0"));
    let inverted: Vec<bool> = frame.rows.iter().map(|row| row.inverted).collect();
    assert_eq!(inverted, [false, true, false, false, false, false]);
}

#[test]
fn second_frame_paints_nothing_new() {
    let mut editor = Editor::new(Size { width: 40, height: 6 });
    editor.refresh_screen().unwrap();
    let again = editor.refresh_screen().unwrap();
    assert!(again.rows.is_empty());
    assert_eq!(again.caret, Position { col: 0, row: 0 });
}

#[test]
fn screen_without_rows_or_columns_gets_no_frame() {
    assert!(Editor::new(Size { width: 0, height: 0 }).refresh_screen().is_none());
    assert!(Editor::new(Size { width: 10, height: 0 }).refresh_screen().is_none());
    assert!(Editor::new(Size { width: 0, height: 10 }).refresh_screen().is_none());
}

#[test]
fn small_screens_paint_from_the_bottom() {
    let mut one = Editor::new(Size { width: 40, height: 1 });
    let rows: Vec<usize> = one.refresh_screen().unwrap().rows.iter().map(|r| r.row).collect();
    assert_eq!(rows, [0]);
    let mut two = Editor::new(Size { width: 40, height: 2 });
    let frame = two.refresh_screen().unwrap();
    let rows: Vec<usize> = frame.rows.iter().map(|r| r.row).collect();
    assert_eq!(rows, [1, 0]);
    assert!(frame.rows[1].inverted);
    let mut three = Editor::new(Size { width: 40, height: 3 });
    let rows: Vec<usize> = three.refresh_screen().unwrap().rows.iter().map(|r| r.row).collect();
    assert_eq!(rows, [2, 1, 0]);
}

#[test]
fn load_shows_the_document_and_its_name() {
    let mut editor = editor_with("ab\ncd\n");
    let frame = frame(&mut editor);
    assert_eq!(row_text(&frame, 0), Some("ab"));
    assert_eq!(row_text(&frame, 1), Some("cd"));
    assert_eq!(row_text(&frame, 2), Some("~"));
    assert_eq!(row_text(&frame, 8), Some("  test.txt                         1:1  "));
}

#[test]
fn typing_changes_text_status_and_caret() {
    let mut editor = editor_with("ab\n");
    frame(&mut editor);
    type_text(&mut editor, "xy");
    let frame = frame(&mut editor);
    assert_eq!(row_text(&frame, 0), Some("xyab"));
    assert_eq!(row_text(&frame, 8), Some("  test.txt | [+]                   1:3  "));
    assert_eq!(row_text(&frame, 9), None);
    assert_eq!(frame.caret, Position { col: 2, row: 0 });
}

#[test]
fn movement_keys_move_the_caret() {
    let mut editor = editor_with("ab\ncd\n");
    editor.handle_event(key(KeyCode::Down));
    editor.handle_event(key(KeyCode::End));
    assert_eq!(frame(&mut editor).caret, Position { col: 2, row: 1 });
    editor.handle_event(key(KeyCode::Home));
    editor.handle_event(key(KeyCode::Up));
    assert_eq!(frame(&mut editor).caret, Position { col: 0, row: 0 });
    assert!(editor.process_command(Command::Move(Move::Right)).is_none());
    assert_eq!(frame(&mut editor).caret, Position { col: 1, row: 0 });
}

#[test]
fn unrecognized_events_change_nothing() {
    let mut editor = editor_with("ab\n");
    frame(&mut editor);
    assert!(editor.handle_event(Event::Other).is_none());
    assert!(editor.handle_event(key(KeyCode::Other)).is_none());
    assert!(editor.handle_event(control('x')).is_none());
    let frame = frame(&mut editor);
    assert!(frame.rows.is_empty());
    assert!(!editor.should_quit());
}

#[test]
fn quit_is_refused_while_the_document_is_modified() {
    let mut editor = editor_with("ab\n");
    type_text(&mut editor, "x");
    frame(&mut editor);
    assert!(editor.handle_event(control('q')).is_none());
    assert!(!editor.should_quit());
    let frame = frame(&mut editor);
    assert_eq!(row_text(&frame, 9), Some("please save the file before closing"));
}

#[test]
fn quit_ends_an_unmodified_session() {
    let mut editor = editor_with("ab\n");
    assert!(!editor.should_quit());
    editor.handle_event(control('q'));
    assert!(editor.should_quit());
}

#[test]
fn force_quit_ends_a_modified_session() {
    let mut editor = editor_with("ab\n");
    type_text(&mut editor, "x");
    editor.handle_event(control('w'));
    assert!(editor.should_quit());
}

#[test]
fn save_of_a_named_document_asks_for_a_write() {
    let mut editor = editor_with("ab\n");
    type_text(&mut editor, "x");
    let request = editor.handle_event(control('s')).unwrap();
    assert_eq!(request.filename, "test.txt");
    assert_eq!(request.contents, "xab\n");
    frame(&mut editor);
    editor.save_finished(&request.filename, true);
    let frame = frame(&mut editor);
    assert_eq!(row_text(&frame, 9), Some("File saved successfully"));
    assert_eq!(row_text(&frame, 8), Some("  test.txt                         1:2  "));
    editor.handle_event(control('q'));
    assert!(editor.should_quit());
}

#[test]
fn failed_save_leaves_the_document_modified() {
    let mut editor = editor_with("ab\n");
    type_text(&mut editor, "x");
    let request = editor.handle_event(control('o')).unwrap();
    frame(&mut editor);
    editor.save_finished(&request.filename, false);
    let frame = frame(&mut editor);
    assert_eq!(row_text(&frame, 9), Some("Errow while saving file"));
    assert_eq!(row_text(&frame, 8), None);
    editor.handle_event(control('q'));
    assert!(!editor.should_quit());
}

#[test]
fn save_of_an_unnamed_document_opens_the_prompt() {
    let mut editor = Editor::new(Size { width: 40, height: 10 });
    type_text(&mut editor, "hi");
    frame(&mut editor);
    assert!(editor.handle_event(control('s')).is_none());
    let frame = frame(&mut editor);
    assert_eq!(row_text(&frame, 9), Some("Save As:"));
    assert_eq!(frame.caret, Position { col: 8, row: 9 });
}

#[test]
fn prompt_takes_a_file_name_and_saves_on_enter() {
    let mut editor = Editor::new(Size { width: 40, height: 10 });
    type_text(&mut editor, "hi");
    editor.handle_event(control('s'));
    type_text(&mut editor, "notes.txt");
    let prompt = frame(&mut editor);
    assert_eq!(row_text(&prompt, 9), Some("Save As:notes.txt"));
    assert_eq!(prompt.caret, Position { col: 17, row: 9 });
    let request = editor.handle_event(key(KeyCode::Enter)).unwrap();
    assert_eq!(request.filename, "notes.txt");
    assert_eq!(request.contents, "hi\n");
    let dismissed = frame(&mut editor);
    assert_eq!(row_text(&dismissed, 9), Some(""));
    assert_eq!(dismissed.caret, Position { col: 2, row: 0 });
    editor.save_finished(&request.filename, true);
    let saved = frame(&mut editor);
    assert_eq!(row_text(&saved, 9), Some("File saved successfully"));
    assert_eq!(row_text(&saved, 8), Some("  notes.txt                        1:3  "));
    type_text(&mut editor, "!");
    let again = editor.handle_event(control('s')).unwrap();
    assert_eq!(again.filename, "notes.txt");
    assert_eq!(again.contents, "hi!\n");
}

#[test]
fn prompt_save_that_fails_leaves_the_document_unnamed() {
    let mut editor = Editor::new(Size { width: 40, height: 10 });
    type_text(&mut editor, "hi");
    editor.handle_event(control('s'));
    type_text(&mut editor, "notes.txt");
    let request = editor.handle_event(key(KeyCode::Enter)).unwrap();
    editor.save_finished(&request.filename, false);
    let failed = frame(&mut editor);
    assert_eq!(row_text(&failed, 9), Some("Errow while saving file"));
    assert!(editor.handle_event(control('s')).is_none());
    assert_eq!(row_text(&frame(&mut editor), 9), Some("Save As:"));
}

#[test]
fn prompt_keeps_edits_and_movements_away_from_the_document() {
    let mut editor = Editor::new(Size { width: 40, height: 10 });
    type_text(&mut editor, "hi");
    editor.handle_event(control('s'));
    type_text(&mut editor, "abc");
    editor.handle_event(key(KeyCode::Backspace));
    editor.handle_event(key(KeyCode::Delete));
    editor.handle_event(key(KeyCode::Left));
    editor.handle_event(key(KeyCode::Home));
    let shown = frame(&mut editor);
    assert_eq!(row_text(&shown, 9), Some("Save As:ab"));
    assert_eq!(shown.caret, Position { col: 10, row: 9 });
    let request = editor.handle_event(key(KeyCode::Enter)).unwrap();
    assert_eq!(request.filename, "ab");
    assert_eq!(request.contents, "hi\n");
    assert_eq!(frame(&mut editor).caret, Position { col: 2, row: 0 });
}

#[test]
fn escape_dismisses_the_prompt_without_saving() {
    let mut editor = Editor::new(Size { width: 40, height: 10 });
    type_text(&mut editor, "hi");
    editor.handle_event(control('s'));
    type_text(&mut editor, "notes.txt");
    frame(&mut editor);
    assert!(editor.handle_event(key(KeyCode::Esc)).is_none());
    let frame = frame(&mut editor);
    assert_eq!(row_text(&frame, 9), Some("Save Aborted"));
    assert_eq!(frame.caret, Position { col: 2, row: 0 });
    type_text(&mut editor, "!");
    assert!(editor.process_command(Command::Action(Action::Save)).is_none());
}

#[test]
fn escape_without_a_prompt_does_nothing() {
    let mut editor = editor_with("ab\n");
    frame(&mut editor);
    assert!(editor.handle_event(key(KeyCode::Esc)).is_none());
    assert!(frame(&mut editor).rows.is_empty());
}

#[test]
fn resize_lays_the_components_out_anew() {
    let mut editor = editor_with("ab\ncd\n");
    frame(&mut editor);
    assert!(editor.handle_event(Event::Resize(20, 5)).is_none());
    let frame = frame(&mut editor);
    let rows: Vec<usize> = frame.rows.iter().map(|row| row.row).collect();
    assert_eq!(rows, [4, 3, 0, 1, 2]);
    assert_eq!(row_text(&frame, 3), Some("  test.txt     1:1  "));
    assert_eq!(row_text(&frame, 2), Some("~"));
    editor.resize(Size { width: 20, height: 2 });
    let small = editor.refresh_screen().unwrap();
    let rows: Vec<usize> = small.rows.iter().map(|row| row.row).collect();
    assert_eq!(rows, [1, 0]);
}

#[test]
fn resize_with_an_open_prompt_lays_out_the_prompt() {
    let mut editor = Editor::new(Size { width: 40, height: 10 });
    editor.handle_event(control('s'));
    frame(&mut editor);
    editor.handle_event(Event::Resize(30, 4));
    let frame = frame(&mut editor);
    assert_eq!(row_text(&frame, 3), Some("Save As:"));
    assert_eq!(frame.caret, Position { col: 8, row: 3 });
}

#[test]
fn line_break_and_deletion_through_events() {
    let mut editor = editor_with("ab\ncd\n");
    editor.handle_event(key(KeyCode::End));
    editor.handle_event(key(KeyCode::Enter));
    let broken = frame(&mut editor);
    assert_eq!(row_text(&broken, 0), Some("ab"));
    assert_eq!(row_text(&broken, 1), Some(""));
    assert_eq!(row_text(&broken, 2), Some("cd"));
    assert_eq!(broken.caret, Position { col: 0, row: 1 });
    editor.process_command(Command::Edit(Edit::DeleteBackward));
    editor.process_command(Command::Edit(Edit::Delete));
    let joined = frame(&mut editor);
    assert_eq!(row_text(&joined, 0), Some("abcd"));
    assert_eq!(row_text(&joined, 1), Some("~"));
    assert_eq!(joined.caret, Position { col: 2, row: 0 });
}

#[test]
fn mark_redraw_paints_the_whole_screen_again() {
    let mut editor = editor_with("ab\n");
    frame(&mut editor);
    assert!(frame(&mut editor).rows.is_empty());
    editor.mark_redraw();
    let again = editor.refresh_screen().unwrap();
    let rows: Vec<usize> = again.rows.iter().map(|row| row.row).collect();
    assert_eq!(rows, [9, 8, 0, 1, 2, 3, 4, 5, 6, 7]);
    assert_eq!(row_text(&again, 0), Some("ab"));
    assert!(editor.refresh_screen().unwrap().rows.is_empty());
}

#[test]
fn mark_redraw_with_an_open_prompt_paints_the_prompt() {
    let mut editor = Editor::new(Size { width: 40, height: 10 });
    editor.handle_event(control('s'));
    frame(&mut editor);
    editor.mark_redraw();
    let again = editor.refresh_screen().unwrap();
    assert_eq!(again.rows.len(), 10);
    assert_eq!(row_text(&again, 9), Some("Save As:"));
}

#[test]
fn line_break_far_below_the_document_cannot_be_reached_by_the_caret() {
    let mut editor = editor_with("ab\n");
    for _ in 0..5 {
        editor.handle_event(key(KeyCode::Down));
    }
    editor.handle_event(key(KeyCode::Enter));
    let broken = frame(&mut editor);
    assert_eq!(row_text(&broken, 0), Some("ab"));
    assert_eq!(row_text(&broken, 1), Some(""));
    assert_eq!(row_text(&broken, 2), Some("~"));
    assert_eq!(broken.caret, Position { col: 0, row: 2 });
}
