use modal_editor::buffer::Buffer;
use modal_editor::coordinate::{Position, ScreenOffset, Size};
use modal_editor::editorcommands::{
    ColonQueueActions, Direction, FileNameCommand, HighlightCommand, JumpCommand,
    QueueInitCommand, SearchCommand, VimColonQueue, VimModeCommands,
};
use modal_editor::highlight::{selected_span, Highlight, HighlightStep};
use modal_editor::input::{Event, KeyCode, KeyEvent, KeyModifiers};
use modal_editor::line::Line;
use modal_editor::prompt::{decimal_text, FileNamePrompt, JumpPrompt, PromptStep, FILENAME_COLUMN};
use modal_editor::search::{Search, SearchStep};
use modal_editor::vim_mode::{
    ColonOutcome, ContinueState, Pending, VimMessage, VimMode, VimRequest, VimStep,
};
use std::collections::HashSet;

fn buffer_of(rows: &[&str]) -> Buffer {
    Buffer {
        text: rows.iter().map(|row| Line::from(row)).collect(),
        filename: None,
        is_saved: true,
    }
}

fn rows_of(buffer: &Buffer) -> Vec<String> {
    buffer.text.iter().map(|line| line.to_string()).collect()
}

fn at(height: usize, width: usize) -> Position {
    Position { height, width, max_width: 0 }
}

fn key(c: char) -> Event {
    Event::Key(KeyEvent::new(KeyCode::Char(c), KeyModifiers::none()))
}

fn press(code: KeyCode) -> Event {
    Event::Key(KeyEvent::new(code, KeyModifiers::none()))
}

struct Screen {
    cursor: Position,
    offset: ScreenOffset,
    size: Size,
}

fn screen(cursor: Position) -> Screen {
    Screen { cursor, offset: ScreenOffset { height: 0, width: 0 }, size: Size { height: 10, width: 20 } }
}

fn search_step(search: &mut Search, command: SearchCommand, s: &mut Screen, buffer: &Buffer) -> SearchStep {
    search.handle(command, &mut s.cursor, &mut s.offset, &mut s.size, buffer)
}

fn highlight_step(h: &mut Highlight, command: HighlightCommand, s: &mut Screen, buffer: &mut Buffer) -> HighlightStep {
    h.handle(command, &mut s.cursor, &mut s.offset, &mut s.size, buffer)
}

fn copied(step: HighlightStep) -> Option<String> {
    match step {
        HighlightStep::Copy(text) => Some(text),
        _ => None,
    }
}

#[test]
fn a_search_starts_with_nothing() {
    let search = Search::new(at(3, 1), ScreenOffset { height: 2, width: 0 });
    assert!(search.render_search);
    assert_eq!(search.search_index, 0);
    assert_eq!(search.string, "");
    assert_eq!(search.previous_position, at(3, 1));
    assert_eq!(search.previous_offset, ScreenOffset { height: 2, width: 0 });
    assert!(search.stack.is_empty());
    assert!(search.line_indicies.is_empty());
    assert_eq!(search.find_relative_start(&0), None);
    let plain = Search::default();
    assert!(!plain.render_search);
    assert_eq!(plain.previous_position, at(0, 0));
}

#[test]
fn the_nearest_match_is_the_first_at_or_below_the_cursor() {
    let mut search = Search::default();
    search.stack.push(vec![at(1, 0), at(4, 2), at(4, 7), at(9, 1)]);
    assert_eq!(search.find_relative_index(&0), Some(0));
    assert_eq!(search.find_relative_index(&1), Some(0));
    assert_eq!(search.find_relative_index(&2), Some(1));
    assert_eq!(search.find_relative_index(&4), Some(1));
    assert_eq!(search.find_relative_index(&5), Some(3));
    assert_eq!(search.find_relative_index(&10), Some(0));
    search.stack.push(vec![at(6, 0)]);
    assert_eq!(search.find_relative_index(&0), Some(0));
    assert_eq!(search.find_relative_index(&8), Some(0));
    search.stack.push(Vec::new());
    assert_eq!(search.find_relative_index(&0), None);
}

#[test]
fn the_nearest_match_is_reported_by_its_row() {
    let mut search = Search::default();
    assert_eq!(search.find_relative_start(&3), None);
    search.stack.push(vec![at(3, 1)]);
    assert_eq!(search.find_relative_start(&3), Some(3));
    assert_eq!(search.find_relative_start(&0), Some(3));
    assert_eq!(search.find_relative_start(&9), Some(3));
    search.stack.push(vec![at(1, 0), at(4, 2), at(4, 7), at(9, 1)]);
    assert_eq!(search.find_relative_start(&0), Some(1));
    assert_eq!(search.find_relative_start(&1), Some(1));
    assert_eq!(search.find_relative_start(&2), Some(4));
    assert_eq!(search.find_relative_start(&4), Some(4));
    assert_eq!(search.find_relative_start(&5), Some(9));
    assert_eq!(search.find_relative_start(&10), Some(1));
    search.stack.push(Vec::new());
    assert_eq!(search.find_relative_start(&0), None);
}

#[test]
fn the_rows_with_a_match_are_noted() {
    let mut search = Search::default();
    search.stack.push(vec![at(1, 0), at(4, 2), at(4, 7), at(9, 1)]);
    search.line_indicies.insert(77);
    search.set_line_indicies();
    assert_eq!(search.line_indicies, HashSet::from([1, 4, 9]));
    search.string.push_str("query");
    search.clean_up_search();
    assert_eq!(search.string, "");
    assert!(search.stack.is_empty());
    assert!(search.line_indicies.is_empty());
}

#[test]
fn the_query_is_shown_above_the_status_line() {
    let mut search = Search::default();
    search.string.push_str("needle");
    assert_eq!(
        search.render_search_string(&Size { height: 10, width: 20 }),
        (8, String::from("Search: needle"))
    );
    assert_eq!(search.render_search_string(&Size { height: 1, width: 20 }).0, 0);
}

#[test]
fn typing_a_query_goes_to_the_nearest_match() {
    let buffer = buffer_of(&["xabyabz", "none", "an ab here"]);
    let mut s = screen(at(1, 2));
    let mut search = Search::new(s.cursor, s.offset);
    assert_eq!(search_step(&mut search, SearchCommand::Insert('a'), &mut s, &buffer), SearchStep::Continue);
    assert_eq!(search.string, "a");
    assert_eq!(search.stack.len(), 1);
    assert_eq!(search.stack[0], vec![at(0, 1), at(0, 4), at(2, 0), at(2, 3)]);
    assert_eq!(search.search_index, 2);
    assert_eq!(s.cursor, at(2, 0));
    assert_eq!(search.line_indicies, HashSet::from([0, 2]));
    search_step(&mut search, SearchCommand::Insert('b'), &mut s, &buffer);
    assert_eq!(search.string, "ab");
    assert_eq!(search.stack.len(), 2);
    assert_eq!(search.stack[1], vec![at(0, 1), at(0, 4), at(2, 3)]);
    assert_eq!(search.search_index, 2);
    assert_eq!(s.cursor, at(2, 3));
}

#[test]
fn next_and_previous_go_round_the_matches() {
    let buffer = buffer_of(&["xabyabz", "none", "an ab here"]);
    let mut s = screen(at(0, 0));
    let mut search = Search::new(s.cursor, s.offset);
    search_step(&mut search, SearchCommand::Insert('a'), &mut s, &buffer);
    search_step(&mut search, SearchCommand::Insert('b'), &mut s, &buffer);
    assert_eq!(s.cursor, at(0, 1));
    search_step(&mut search, SearchCommand::Next, &mut s, &buffer);
    assert_eq!((search.search_index, s.cursor), (1, at(0, 4)));
    search_step(&mut search, SearchCommand::Next, &mut s, &buffer);
    assert_eq!((search.search_index, s.cursor), (2, at(2, 3)));
    search_step(&mut search, SearchCommand::Next, &mut s, &buffer);
    assert_eq!((search.search_index, s.cursor), (0, at(0, 1)));
    search_step(&mut search, SearchCommand::Previous, &mut s, &buffer);
    assert_eq!((search.search_index, s.cursor), (2, at(2, 3)));
    search_step(&mut search, SearchCommand::Previous, &mut s, &buffer);
    assert_eq!((search.search_index, s.cursor), (1, at(0, 4)));
}

#[test]
fn a_backspace_takes_the_last_stage_off_the_stack() {
    let buffer = buffer_of(&["xabyabz", "none", "an ab here"]);
    let mut s = screen(at(1, 0));
    let mut search = Search::new(s.cursor, s.offset);
    search_step(&mut search, SearchCommand::Insert('a'), &mut s, &buffer);
    search_step(&mut search, SearchCommand::Insert('q'), &mut s, &buffer);
    assert_eq!(search.stack[1], Vec::<Position>::new());
    assert_eq!(s.cursor, at(1, 0));
    assert!(search.line_indicies.is_empty());
    search_step(&mut search, SearchCommand::BackSpace, &mut s, &buffer);
    assert_eq!(search.string, "a");
    assert_eq!(search.stack.len(), 1);
    assert_eq!(s.cursor, at(2, 0));
    search_step(&mut search, SearchCommand::BackSpace, &mut s, &buffer);
    assert_eq!(search.string, "");
    assert!(search.stack.is_empty());
    assert_eq!(s.cursor, at(1, 0));
    assert_eq!(search_step(&mut search, SearchCommand::BackSpace, &mut s, &buffer), SearchStep::Continue);
    assert_eq!(search.string, "");
}

#[test]
fn reverting_a_search_restores_the_cursor_and_the_view() {
    let rows: Vec<String> = (0..40).map(|i| format!("row {}", i)).collect();
    let refs: Vec<&str> = rows.iter().map(|r| r.as_str()).collect();
    let buffer = buffer_of(&refs);
    let mut s = screen(at(2, 1));
    let mut search = Search::new(s.cursor, s.offset);
    search_step(&mut search, SearchCommand::Insert('3'), &mut s, &buffer);
    search_step(&mut search, SearchCommand::Insert('5'), &mut s, &buffer);
    assert_eq!(s.cursor, at(35, 4));
    assert_eq!(s.offset, ScreenOffset { height: 31, width: 0 });
    assert_eq!(search_step(&mut search, SearchCommand::RevertState, &mut s, &buffer), SearchStep::Exit);
    assert_eq!(s.cursor, at(2, 1));
    assert_eq!(s.offset, ScreenOffset { height: 0, width: 0 });
    assert_eq!(search.string, "");
    assert!(search.stack.is_empty());
}

#[test]
fn accepting_a_search_keeps_the_cursor_on_the_match() {
    let buffer = buffer_of(&["xabyabz", "none", "an ab here"]);
    let mut s = screen(at(1, 0));
    let mut search = Search::new(s.cursor, s.offset);
    search_step(&mut search, SearchCommand::Insert('h'), &mut s, &buffer);
    assert_eq!(s.cursor, at(2, 6));
    assert_eq!(search_step(&mut search, SearchCommand::AssumeState, &mut s, &buffer), SearchStep::Exit);
    assert_eq!(s.cursor, at(2, 6));
    assert_eq!(search.string, "");
    assert!(search.stack.is_empty());
    assert!(search.line_indicies.is_empty());
}

#[test]
fn a_search_takes_on_a_new_size() {
    let buffer = buffer_of(&["xabyabz"]);
    let mut s = screen(at(0, 6));
    let mut search = Search::new(s.cursor, s.offset);
    let step = search_step(&mut search, SearchCommand::Resize(Size { height: 5, width: 4 }), &mut s, &buffer);
    assert_eq!(step, SearchStep::Continue);
    assert_eq!(s.size, Size { height: 5, width: 4 });
    assert_eq!(s.offset, ScreenOffset { height: 0, width: 3 });
    assert_eq!(search_step(&mut search, SearchCommand::NoAction, &mut s, &buffer), SearchStep::Continue);
    assert_eq!(s.cursor, at(0, 6));
}

#[test]
fn a_selection_is_put_in_order() {
    let mut highlight = Highlight::new(at(2, 5));
    assert_eq!(highlight.anchor, at(2, 5));
    assert_eq!(highlight.extent(), (at(2, 5), at(2, 5)));
    highlight.end = at(2, 1);
    assert_eq!(highlight.extent(), (at(2, 1), at(2, 5)));
    highlight.end = at(1, 9);
    assert_eq!(highlight.extent(), (at(1, 9), at(2, 5)));
    highlight.end = at(3, 0);
    assert_eq!(highlight.extent(), (at(2, 5), at(3, 0)));
}

#[test]
fn a_selection_is_copied() {
    let mut buffer = buffer_of(&["hello world"]);
    let mut s = screen(at(0, 2));
    let mut highlight = Highlight::new(s.cursor);
    for _ in 0..3 {
        let step = highlight_step(&mut highlight, HighlightCommand::Move(Direction::Right), &mut s, &mut buffer);
        assert!(matches!(step, HighlightStep::Continue));
    }
    assert_eq!(highlight.end, at(0, 5));
    assert_eq!(s.cursor, at(0, 5));
    assert_eq!(highlight.extent(), (at(0, 2), at(0, 5)));
    let step = highlight_step(&mut highlight, HighlightCommand::Copy, &mut s, &mut buffer);
    assert_eq!(copied(step), Some(String::from("llo")));
    assert_eq!(rows_of(&buffer), vec!["hello world"]);
    assert!(buffer.is_saved);
}

#[test]
fn a_selection_made_backwards_is_copied_in_text_order() {
    let mut buffer = buffer_of(&["hello world"]);
    let mut s = screen(at(0, 5));
    let mut highlight = Highlight::new(s.cursor);
    for _ in 0..3 {
        highlight_step(&mut highlight, HighlightCommand::Move(Direction::Left), &mut s, &mut buffer);
    }
    assert_eq!(highlight.extent(), (at(0, 2), at(0, 5)));
    let step = highlight_step(&mut highlight, HighlightCommand::Copy, &mut s, &mut buffer);
    assert_eq!(copied(step), Some(String::from("llo")));
}

#[test]
fn a_selection_grows_across_rows() {
    let mut buffer = buffer_of(&["abc", "def", "ghi"]);
    let mut s = screen(at(0, 1));
    let mut highlight = Highlight::new(s.cursor);
    highlight_step(&mut highlight, HighlightCommand::Move(Direction::Right), &mut s, &mut buffer);
    highlight_step(&mut highlight, HighlightCommand::Move(Direction::Right), &mut s, &mut buffer);
    assert_eq!(highlight.end, at(0, 3));
    highlight_step(&mut highlight, HighlightCommand::Move(Direction::Right), &mut s, &mut buffer);
    assert_eq!(highlight.end, at(1, 0));
    highlight_step(&mut highlight, HighlightCommand::Move(Direction::Left), &mut s, &mut buffer);
    assert_eq!(highlight.end, at(0, 3));
    highlight_step(&mut highlight, HighlightCommand::Move(Direction::Down), &mut s, &mut buffer);
    highlight_step(&mut highlight, HighlightCommand::Move(Direction::Down), &mut s, &mut buffer);
    highlight_step(&mut highlight, HighlightCommand::Move(Direction::Home), &mut s, &mut buffer);
    highlight_step(&mut highlight, HighlightCommand::Move(Direction::Right), &mut s, &mut buffer);
    assert_eq!(highlight.end, at(2, 1));
    let step = highlight_step(&mut highlight, HighlightCommand::Copy, &mut s, &mut buffer);
    assert_eq!(copied(step), Some(String::from("bc\ndef\ngh")));
}

#[test]
fn a_selection_that_cannot_be_cut_is_not_copied() {
    let mut buffer = buffer_of(&["abc", ""]);
    let mut s = screen(at(0, 1));
    let mut highlight = Highlight::new(s.cursor);
    highlight_step(&mut highlight, HighlightCommand::Move(Direction::Down), &mut s, &mut buffer);
    assert_eq!(highlight.end.height, 1);
    let step = highlight_step(&mut highlight, HighlightCommand::Copy, &mut s, &mut buffer);
    assert!(matches!(step, HighlightStep::Exit));
}

#[test]
fn a_selection_is_deleted() {
    let mut buffer = buffer_of(&["hello world", "next"]);
    let mut s = screen(at(0, 2));
    let mut highlight = Highlight::new(s.cursor);
    highlight_step(&mut highlight, HighlightCommand::Move(Direction::Right), &mut s, &mut buffer);
    highlight_step(&mut highlight, HighlightCommand::Move(Direction::Right), &mut s, &mut buffer);
    let step = highlight_step(&mut highlight, HighlightCommand::Delete, &mut s, &mut buffer);
    assert!(matches!(step, HighlightStep::Exit));
    assert_eq!(rows_of(&buffer), vec!["he world", "next"]);
    assert_eq!(s.cursor, at(0, 2));
    assert!(!buffer.is_saved);
    let mut across = buffer_of(&["abc", "def", "ghi"]);
    let mut t = screen(at(2, 0));
    let mut upward = Highlight::new(t.cursor);
    highlight_step(&mut upward, HighlightCommand::Move(Direction::Up), &mut t, &mut across);
    highlight_step(&mut upward, HighlightCommand::Move(Direction::Up), &mut t, &mut across);
    highlight_step(&mut upward, HighlightCommand::Move(Direction::End), &mut t, &mut across);
    assert_eq!(upward.extent(), (at(0, 3), at(2, 0)));
    highlight_step(&mut upward, HighlightCommand::Delete, &mut t, &mut across);
    assert_eq!(rows_of(&across), vec!["abchi"]);
    assert_eq!(t.cursor, at(0, 3));
}

#[test]
fn leaving_a_selection_changes_nothing() {
    let mut buffer = buffer_of(&["hello"]);
    let mut s = screen(at(0, 2));
    let mut highlight = Highlight::new(s.cursor);
    highlight_step(&mut highlight, HighlightCommand::Move(Direction::Right), &mut s, &mut buffer);
    let step = highlight_step(&mut highlight, HighlightCommand::RevertState, &mut s, &mut buffer);
    assert!(matches!(step, HighlightStep::Exit));
    assert_eq!(rows_of(&buffer), vec!["hello"]);
    assert_eq!(s.cursor, at(0, 3));
    let idle = highlight_step(&mut highlight, HighlightCommand::NoAction, &mut s, &mut buffer);
    assert!(matches!(idle, HighlightStep::Continue));
    let resized = highlight_step(&mut highlight, HighlightCommand::Resize(Size { height: 4, width: 2 }), &mut s, &mut buffer);
    assert!(matches!(resized, HighlightStep::Continue));
    assert_eq!(s.size, Size { height: 4, width: 2 });
    assert_eq!(s.offset, ScreenOffset { height: 0, width: 2 });
    let mut empty = Buffer::default();
    let mut e = screen(at(0, 0));
    let mut none = Highlight::new(e.cursor);
    highlight_step(&mut none, HighlightCommand::Move(Direction::Right), &mut e, &mut empty);
    assert_eq!(e.cursor, at(0, 0));
    let gone = highlight_step(&mut none, HighlightCommand::Delete, &mut e, &mut empty);
    assert!(matches!(gone, HighlightStep::Exit));
    assert!(empty.is_empty());
}

fn vim() -> VimMode {
    VimMode::new(at(0, 0), ScreenOffset { height: 0, width: 0 }, Size { height: 10, width: 20 })
}

fn colon(mode: &mut VimMode, text: &str, buffer: &Buffer) -> VimStep {
    mode.handle(key(':'), buffer);
    for c in text.chars() {
        mode.handle(key(c), buffer);
    }
    mode.handle(press(KeyCode::Enter), buffer)
}

#[test]
fn colon_letters_become_actions() {
    assert_eq!(
        VimMode::map_string_to_queue_vec("wq!"),
        Ok(vec![ColonQueueActions::Write, ColonQueueActions::Quit, ColonQueueActions::Override])
    );
    assert_eq!(VimMode::map_string_to_queue_vec(""), Ok(Vec::new()));
    assert_eq!(VimMode::map_string_to_queue_vec("wx"), Err(String::from("Invalid command")));
    assert_eq!(VimMode::map_string_to_queue_vec("x"), Err(String::from("Invalid command")));
}

#[test]
fn colon_commands_are_decided() {
    let mode = vim();
    let mut saved = buffer_of(&["text"]);
    saved.filename = Some(String::from("f.txt"));
    let mut unsaved = buffer_of(&["text"]);
    unsaved.filename = Some(String::from("f.txt"));
    unsaved.is_saved = false;
    let mut unnamed = buffer_of(&["text"]);
    unnamed.is_saved = false;
    let write = vec![ColonQueueActions::Write];
    let quit = vec![ColonQueueActions::Quit];
    let bang = vec![ColonQueueActions::Override];
    let write_quit = vec![ColonQueueActions::Write, ColonQueueActions::Quit];
    let quit_bang = vec![ColonQueueActions::Quit, ColonQueueActions::Override];
    let keep = |message| ColonOutcome { state: ContinueState::ContinueVimPersistError, save: false, message };
    let leave = ColonOutcome { state: ContinueState::ExitSession, save: false, message: VimMessage::Nothing };
    let odd = ColonOutcome { state: ContinueState::InvalidCommand, save: false, message: VimMessage::InvalidOrder };
    assert_eq!(
        mode.eval_colon_queue(write.clone(), &unsaved),
        ColonOutcome { state: ContinueState::ContinueVim, save: true, message: VimMessage::Nothing }
    );
    assert_eq!(mode.eval_colon_queue(write, &unnamed), keep(VimMessage::NoFileName));
    assert_eq!(mode.eval_colon_queue(quit.clone(), &saved), leave);
    assert_eq!(mode.eval_colon_queue(quit, &unsaved), keep(VimMessage::NotSaved));
    assert_eq!(
        mode.eval_colon_queue(bang, &saved),
        ColonOutcome { state: ContinueState::InvalidCommand, save: false, message: VimMessage::InvalidCommand }
    );
    assert_eq!(
        mode.eval_colon_queue(write_quit.clone(), &unsaved),
        ColonOutcome { state: ContinueState::ExitSession, save: true, message: VimMessage::Nothing }
    );
    assert_eq!(mode.eval_colon_queue(write_quit, &unnamed), keep(VimMessage::NoFileName));
    assert_eq!(mode.eval_colon_queue(quit_bang, &unsaved), leave);
    assert_eq!(mode.eval_colon_queue(vec![ColonQueueActions::Quit, ColonQueueActions::Write], &saved), odd);
    assert_eq!(mode.eval_colon_queue(Vec::new(), &saved), odd);
    assert_eq!(
        mode.eval_colon_queue(
            vec![ColonQueueActions::Write, ColonQueueActions::Quit, ColonQueueActions::Override],
            &saved
        ),
        odd
    );
}

#[test]
fn quitting_an_unsaved_buffer_from_the_modal_mode_is_refused() {
    let mut buffer = buffer_of(&["text"]);
    buffer.filename = Some(String::from("f.txt"));
    buffer.is_saved = false;
    let mut mode = vim();
    let step = colon(&mut mode, "q", &buffer);
    assert_eq!(
        step,
        VimStep { request: VimRequest::Nothing, save: false, message: VimMessage::NotSaved, needs_render: false }
    );
    assert_eq!(mode.pending, Pending::Nothing);
    let forced = colon(&mut mode, "q!", &buffer);
    assert_eq!(forced.request, VimRequest::Quit);
    assert!(!forced.save);
    let written = colon(&mut mode, "wq", &buffer);
    assert_eq!(written.request, VimRequest::Quit);
    assert!(written.save);
    let only_write = colon(&mut mode, "w", &buffer);
    assert_eq!(only_write.request, VimRequest::Nothing);
    assert!(only_write.save);
}

#[test]
fn a_colon_command_is_typed_key_by_key() {
    let buffer = buffer_of(&["text"]);
    let mut mode = vim();
    let start = mode.handle(key(':'), &buffer);
    assert_eq!(start.message, VimMessage::Queue);
    assert_eq!(mode.pending, Pending::Colon);
    mode.handle(key('w'), &buffer);
    mode.handle(key('x'), &buffer);
    assert_eq!(mode.queue, "wx");
    let back = mode.handle(press(KeyCode::Backspace), &buffer);
    assert_eq!(back.message, VimMessage::Queue);
    assert_eq!(mode.queue, "w");
    mode.handle(key('z'), &buffer);
    let bad = mode.handle(press(KeyCode::Enter), &buffer);
    assert_eq!(bad.message, VimMessage::InvalidCommand);
    assert_eq!(mode.pending, Pending::Colon);
    assert_eq!(mode.queue, "");
    let out = mode.handle(press(KeyCode::Backspace), &buffer);
    assert_eq!(out.message, VimMessage::Nothing);
    assert_eq!(mode.pending, Pending::Nothing);
    assert_eq!(mode.handle(key('j'), &buffer).request, VimRequest::Nothing);
    let resized = mode.queue_colon(VimColonQueue::Resize(Size { height: 7, width: 7 }), &buffer);
    assert!(resized.needs_render);
    assert_eq!(mode.size, Size { height: 7, width: 7 });
    assert_eq!(mode.queue_colon(VimColonQueue::Other, &buffer).message, VimMessage::Nothing);
    assert_eq!(mode.command_status_line("wq"), (5, String::from(":wq")));
}

#[test]
fn the_modal_mode_moves_by_keys() {
    let buffer = buffer_of(&["hello", "hi", "hello world"]);
    let mut mode = vim();
    mode.handle(key('l'), &buffer);
    mode.handle(key('l'), &buffer);
    assert_eq!(mode.cursor_position, at(0, 2));
    mode.handle(key('$'), &buffer);
    assert_eq!(mode.cursor_position, at(0, 5));
    mode.handle(key('j'), &buffer);
    assert_eq!(mode.cursor_position, Position { height: 1, width: 2, max_width: 5 });
    mode.handle(key('j'), &buffer);
    assert_eq!(mode.cursor_position, Position { height: 2, width: 5, max_width: 5 });
    mode.handle(key('k'), &buffer);
    mode.handle(key('h'), &buffer);
    assert_eq!(mode.cursor_position, at(1, 1));
    mode.handle(key('0'), &buffer);
    assert_eq!(mode.cursor_position, at(1, 0));
    assert_eq!(mode.handle_command(VimModeCommands::Move(Direction::PageDown), &buffer).request, VimRequest::Nothing);
    assert_eq!(mode.cursor_position, at(1, 0));
    assert_eq!(mode.move_cursor(Direction::Down, &buffer), 0);
    assert_eq!(mode.cursor_position.height, 2);
    let empty = Buffer::default();
    let mut lost = vim();
    assert_eq!(lost.move_cursor(Direction::Down, &empty), 0);
    assert_eq!(lost.cursor_position, at(0, 0));
    lost.handle(key('w'), &empty);
    assert_eq!(lost.cursor_position, at(0, 0));
}

#[test]
fn the_modal_mode_moves_by_words() {
    let buffer = buffer_of(&["I have a bunch", "of text"]);
    let mut mode = vim();
    mode.handle(key('w'), &buffer);
    assert_eq!(mode.cursor_position, at(0, 2));
    mode.handle(key('e'), &buffer);
    assert_eq!(mode.cursor_position, at(0, 5));
    mode.handle(key('w'), &buffer);
    mode.handle(key('w'), &buffer);
    mode.handle(key('w'), &buffer);
    assert_eq!(mode.cursor_position, at(1, 0));
    mode.handle(key('b'), &buffer);
    assert_eq!(mode.cursor_position, at(0, 9));
    mode.handle(key('e'), &buffer);
    mode.handle(key('e'), &buffer);
    mode.handle(key('e'), &buffer);
    mode.handle(key('e'), &buffer);
    assert_eq!(mode.cursor_position, at(1, 6));
}

#[test]
fn two_key_moves_go_to_the_ends_of_the_buffer() {
    let rows: Vec<String> = (0..30).map(|i| format!("row {}", i)).collect();
    let refs: Vec<&str> = rows.iter().map(|r| r.as_str()).collect();
    let buffer = buffer_of(&refs);
    let mut mode = vim();
    assert_eq!(mode.determine_queue_command(QueueInitCommand::PageDown), VimMessage::Nothing);
    assert_eq!(mode.pending, Pending::PageDown);
    let step = mode.handle(key('G'), &buffer);
    assert_eq!(mode.pending, Pending::Nothing);
    assert_eq!(mode.cursor_position.height, 29);
    assert_eq!(mode.screen_offset, ScreenOffset { height: 22, width: 0 });
    assert!(step.needs_render);
    mode.handle(key('g'), &buffer);
    assert_eq!(mode.pending, Pending::PageUp);
    mode.handle(key('g'), &buffer);
    assert_eq!(mode.cursor_position.height, 0);
    assert_eq!(mode.screen_offset, ScreenOffset { height: 0, width: 0 });
    mode.handle(key('g'), &buffer);
    let wrong = mode.handle(key('x'), &buffer);
    assert_eq!(wrong.request, VimRequest::Help);
    assert_eq!(mode.pending, Pending::Nothing);
    assert_eq!(mode.cursor_position.height, 0);
    assert!(mode.queue_page_up(key('g'), &buffer));
    assert!(!mode.queue_page_up(key('G'), &buffer));
    assert!(mode.queue_page_down(key('G'), &buffer));
    assert!(!mode.queue_page_down(Event::Other, &buffer));
    assert_eq!(mode.cursor_position.height, 29);
    assert_eq!(mode.move_and_resolve(Direction::PageUp, &buffer), 22);
}

#[test]
fn the_modal_mode_hands_its_requests_back() {
    let buffer = buffer_of(&["text"]);
    let mut mode = vim();
    assert_eq!(mode.handle(key('v'), &buffer).request, VimRequest::Highlight);
    assert_eq!(mode.handle(key('p'), &buffer).request, VimRequest::Paste);
    assert_eq!(mode.handle(key('z'), &buffer).request, VimRequest::Help);
    assert_eq!(mode.handle(press(KeyCode::Esc), &buffer).request, VimRequest::HandBack);
    let resized = mode.handle(Event::Resize(30, 12), &buffer);
    assert!(resized.needs_render);
    assert_eq!(mode.size, Size { height: 12, width: 30 });
    mode.resize(Size { height: 3, width: 3 });
    assert_eq!(mode.size, Size { height: 3, width: 3 });
    mode.handle(key('l'), &buffer);
    let mut s = screen(at(9, 9));
    mode.hand_back_state(&mut s.cursor, &mut s.offset, &mut s.size);
    assert_eq!(s.cursor, at(0, 1));
    assert_eq!(s.offset, ScreenOffset { height: 0, width: 0 });
    assert_eq!(s.size, Size { height: 3, width: 3 });
    assert_eq!(mode.resolve_displacement(&buffer), 0);
}

#[test]
fn the_modal_mode_pastes_and_draws() {
    let mut buffer = buffer_of(&["ab"]);
    let mut mode = vim();
    mode.handle(key('l'), &buffer);
    mode.add_to_clipboard("X\nY", &mut buffer);
    assert_eq!(rows_of(&buffer), vec!["aXb", "Y"]);
    assert_eq!(mode.cursor_position, at(1, 0));
    let rows = mode.render(&buffer);
    assert_eq!(rows.len(), 9);
    assert_eq!(rows[1].row, 1);
    assert!(matches!(&rows[1].content, modal_editor::view::RowContent::Text(text) if text == "Y"));
    assert!(matches!(&rows[2].content, modal_editor::view::RowContent::Tilde));
}

#[test]
fn a_file_name_is_typed_at_its_prompt() {
    let mut prompt = FileNamePrompt::new();
    assert_eq!(prompt.curr_position, FILENAME_COLUMN);
    assert_eq!(FILENAME_COLUMN, 10);
    assert_eq!(prompt.handle(FileNameCommand::BackSpace), PromptStep::Continue);
    assert_eq!((prompt.filename_buffer.as_str(), prompt.curr_position), ("", 10));
    prompt.handle(FileNameCommand::Insert('a'));
    prompt.handle(FileNameCommand::Insert('b'));
    assert_eq!((prompt.filename_buffer.as_str(), prompt.curr_position), ("ab", 12));
    prompt.handle(FileNameCommand::BackSpace);
    assert_eq!((prompt.filename_buffer.as_str(), prompt.curr_position), ("a", 11));
    assert_eq!(prompt.handle(FileNameCommand::NoAction), PromptStep::Continue);
    assert_eq!(prompt.handle(FileNameCommand::SaveFileName), PromptStep::Accept);
    assert_eq!(prompt.handle(FileNameCommand::Quit), PromptStep::Cancel);
    assert_eq!(prompt.filename_buffer, "a");
}

#[test]
fn a_line_number_is_typed_at_its_prompt() {
    let mut prompt = JumpPrompt::new();
    assert_eq!(prompt.text(), "Jump to: ");
    prompt.handle(JumpCommand::Enter(4));
    prompt.handle(JumpCommand::Enter(0));
    prompt.handle(JumpCommand::Enter(7));
    assert_eq!(prompt.line, 407);
    assert_eq!(prompt.text(), "Jump to: 407");
    assert_eq!(prompt.handle(JumpCommand::Delete), PromptStep::Continue);
    assert_eq!(prompt.line, 40);
    prompt.handle(JumpCommand::Delete);
    prompt.handle(JumpCommand::Delete);
    assert_eq!(prompt.line, 0);
    prompt.handle(JumpCommand::Delete);
    assert_eq!(prompt.line, 0);
    assert_eq!(prompt.handle(JumpCommand::NoAction), PromptStep::Continue);
    assert_eq!(prompt.handle(JumpCommand::Move), PromptStep::Accept);
    assert_eq!(prompt.handle(JumpCommand::Exit), PromptStep::Cancel);
    let mut huge = JumpPrompt { line: usize::MAX / 10 + 1 };
    huge.handle(JumpCommand::Enter(1));
    assert_eq!(huge.line, usize::MAX);
    let mut edge = JumpPrompt { line: usize::MAX / 10 };
    edge.handle(JumpCommand::Enter(0));
    assert_eq!(edge.line, usize::MAX / 10 * 10);
}

#[test]
fn numbers_are_written_in_decimal() {
    for n in [0usize, 7, 10, 42, 100, 9_999, 123_456_789, usize::MAX] {
        assert_eq!(decimal_text(n), n.to_string());
    }
}

#[test]
fn an_unknown_colon_command_leaves_the_command_line_open() {
    let mut buffer = buffer_of(&["text"]);
    buffer.is_saved = false;
    let mut mode = vim();
    let odd = colon(&mut mode, "qw", &buffer);
    assert_eq!(odd.message, VimMessage::InvalidOrder);
    assert_eq!(odd.request, VimRequest::Nothing);
    assert!(!odd.save);
    assert_eq!(mode.pending, Pending::Colon);
    assert_eq!(mode.queue, "");
    mode.handle(key('!'), &buffer);
    let bang = mode.handle(press(KeyCode::Enter), &buffer);
    assert_eq!(bang.message, VimMessage::InvalidCommand);
    assert_eq!(mode.pending, Pending::Colon);
    mode.handle(key('q'), &buffer);
    mode.handle(key('!'), &buffer);
    let forced = mode.handle(press(KeyCode::Enter), &buffer);
    assert_eq!(forced.request, VimRequest::Quit);
    assert_eq!(mode.pending, Pending::Nothing);
}

#[test]
fn a_resize_does_not_end_the_wait_for_a_second_key() {
    let rows: Vec<String> = (0..30).map(|i| format!("row {}", i)).collect();
    let refs: Vec<&str> = rows.iter().map(|r| r.as_str()).collect();
    let buffer = buffer_of(&refs);
    let mut mode = vim();
    mode.handle(key('G'), &buffer);
    let step = mode.handle(Event::Resize(30, 12), &buffer);
    assert_eq!(mode.pending, Pending::PageDown);
    assert_eq!(mode.size, Size { height: 12, width: 30 });
    assert_eq!(step.request, VimRequest::Nothing);
    assert!(step.needs_render);
    assert_eq!(mode.cursor_position, at(0, 0));
    mode.handle(key('G'), &buffer);
    assert_eq!(mode.pending, Pending::Nothing);
    assert_eq!(mode.cursor_position.height, 29);
    assert_eq!(mode.screen_offset, ScreenOffset { height: 20, width: 0 });
}

#[test]
fn a_row_with_matches_is_cut_around_them() {
    let buffer = buffer_of(&["xabyabz and more ab", "none"]);
    let mut search = Search::default();
    search.string.push_str("ab");
    let wide = Size { height: 10, width: 40 };
    let origin = ScreenOffset { height: 0, width: 0 };
    assert_eq!(
        search.render_search_line(0, &buffer, &origin, &wide),
        (0, vec![String::from("x"), String::from("y"), String::from("z and more "), String::new()])
    );
    assert_eq!(search.render_search_line(1, &buffer, &origin, &wide), (1, vec![String::from("none")]));
    let narrow = Size { height: 10, width: 6 };
    let moved = ScreenOffset { height: 0, width: 2 };
    assert_eq!(
        search.render_search_line(0, &buffer, &moved, &narrow),
        (0, vec![String::from("by"), String::from("z ")])
    );
    let below = ScreenOffset { height: 1, width: 0 };
    assert_eq!(search.render_search_line(1, &buffer, &below, &wide).0, 0);
}

#[test]
fn the_selected_part_of_a_row_is_told_in_screen_columns() {
    let origin = ScreenOffset { height: 0, width: 0 };
    let one_row = (at(2, 3), at(2, 8));
    assert_eq!(selected_span(2, &origin, one_row), (3, 8));
    assert_eq!(selected_span(1, &origin, one_row), (0, 0));
    assert_eq!(selected_span(3, &origin, one_row), (0, 0));
    let moved = ScreenOffset { height: 1, width: 5 };
    assert_eq!(selected_span(2, &moved, one_row), (0, 3));
    let far = ScreenOffset { height: 0, width: 20 };
    assert_eq!(selected_span(2, &far, one_row), (0, 0));
    let rows = (at(1, 4), at(3, 2));
    assert_eq!(selected_span(0, &origin, rows), (0, 0));
    assert_eq!(selected_span(1, &origin, rows), (4, usize::MAX));
    assert_eq!(selected_span(2, &origin, rows), (0, usize::MAX));
    assert_eq!(selected_span(3, &origin, rows), (0, 2));
    assert_eq!(selected_span(4, &origin, rows), (0, 0));
    assert_eq!(selected_span(1, &moved, rows), (0, usize::MAX));
    let empty = (at(2, 6), at(2, 6));
    assert_eq!(selected_span(2, &origin, empty), (6, 6));
    let backwards = (at(2, 8), at(2, 3));
    assert_eq!(selected_span(2, &origin, backwards), (8, 8));
}
