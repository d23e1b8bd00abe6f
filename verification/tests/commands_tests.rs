use modal_editor::buffer::Buffer;
use modal_editor::coordinate::{Position, Size};
use modal_editor::editorcommands::{
    parse_highlight_normal_mode, parse_highlight_vim_mode, ColonQueueActions, Direction,
    EditorCommand, FileNameCommand, HelpCommand, HighlightCommand, JumpCommand, QueueInitCommand,
    SearchCommand, VimColonQueue, VimModeCommands,
};
use modal_editor::input::{Event, KeyCode, KeyEvent, KeyEventKind, KeyModifiers};
use modal_editor::line::Line;

fn press(code: KeyCode) -> Event {
    Event::Key(KeyEvent::new(code, KeyModifiers::none()))
}

fn key(c: char) -> Event {
    press(KeyCode::Char(c))
}

fn ctrl(c: char) -> Event {
    Event::Key(KeyEvent::new(KeyCode::Char(c), KeyModifiers::control()))
}

fn shift(code: KeyCode) -> Event {
    Event::Key(KeyEvent::new(code, KeyModifiers::shift()))
}

fn buffer_of(rows: &[&str]) -> Buffer {
    Buffer {
        text: rows.iter().map(|row| Line::from(row)).collect(),
        filename: None,
        is_saved: true,
    }
}

fn at(height: usize, width: usize) -> Position {
    Position { height, width, max_width: 0 }
}

fn moved(direction: Direction, from: Position, buffer: &Buffer) -> Position {
    let mut position = from;
    direction.move_cursor(&mut position, buffer);
    position
}

#[test]
fn only_presses_and_resizes_are_acted_on() {
    assert!(key('a').should_process());
    assert!(Event::Resize(80, 24).should_process());
    assert!(!Event::Other.should_process());
    let release = Event::Key(KeyEvent {
        code: KeyCode::Char('a'),
        modifiers: KeyModifiers::none(),
        kind: KeyEventKind::Release,
    });
    assert!(!release.should_process());
    let repeat = Event::Key(KeyEvent {
        code: KeyCode::Char('a'),
        modifiers: KeyModifiers::none(),
        kind: KeyEventKind::Repeat,
    });
    assert!(!repeat.should_process());
}

#[test]
fn modifiers_count_only_when_held_alone() {
    assert!(KeyModifiers::control().only_control());
    assert!(!KeyModifiers::control().only_shift());
    assert!(KeyModifiers::shift().only_shift());
    assert!(!KeyModifiers::none().only_control());
    let both = KeyModifiers { shift: true, control: true, alt: false, other: false };
    assert!(!both.only_control());
    assert!(!both.only_shift());
    let both_q = Event::Key(KeyEvent::new(KeyCode::Char('q'), both));
    assert_eq!(EditorCommand::try_from(both_q), Ok(EditorCommand::Insert('q')));
}

#[test]
fn keys_of_the_default_mode() {
    assert_eq!(EditorCommand::try_from(ctrl('q')), Ok(EditorCommand::Quit));
    assert_eq!(EditorCommand::try_from(ctrl('j')), Ok(EditorCommand::JumpLine));
    assert_eq!(EditorCommand::try_from(ctrl('l')), Ok(EditorCommand::Move(Direction::Home)));
    assert_eq!(EditorCommand::try_from(ctrl('u')), Ok(EditorCommand::Move(Direction::PageUp)));
    assert_eq!(EditorCommand::try_from(ctrl('d')), Ok(EditorCommand::Move(Direction::PageDown)));
    assert_eq!(EditorCommand::try_from(ctrl('r')), Ok(EditorCommand::Move(Direction::End)));
    assert_eq!(EditorCommand::try_from(ctrl('w')), Ok(EditorCommand::Save));
    assert_eq!(EditorCommand::try_from(ctrl('h')), Ok(EditorCommand::Help));
    assert_eq!(EditorCommand::try_from(ctrl('f')), Ok(EditorCommand::Search));
    assert_eq!(EditorCommand::try_from(ctrl('t')), Ok(EditorCommand::Theme));
    assert_eq!(EditorCommand::try_from(ctrl('v')), Ok(EditorCommand::Paste));
    assert_eq!(EditorCommand::try_from(ctrl('c')), Ok(EditorCommand::Highlight));
    assert_eq!(EditorCommand::try_from(ctrl('n')), Ok(EditorCommand::VimMode));
    assert_eq!(EditorCommand::try_from(ctrl('x')), Ok(EditorCommand::Insert('x')));
    assert_eq!(EditorCommand::try_from(key('q')), Ok(EditorCommand::Insert('q')));
    assert_eq!(
        EditorCommand::try_from(shift(KeyCode::Left)),
        Ok(EditorCommand::JumpWord(Direction::Left))
    );
    assert_eq!(
        EditorCommand::try_from(shift(KeyCode::Right)),
        Ok(EditorCommand::JumpWord(Direction::Right))
    );
    assert_eq!(EditorCommand::try_from(press(KeyCode::Left)), Ok(EditorCommand::Move(Direction::Left)));
    assert_eq!(EditorCommand::try_from(press(KeyCode::Right)), Ok(EditorCommand::Move(Direction::Right)));
    assert_eq!(EditorCommand::try_from(press(KeyCode::Up)), Ok(EditorCommand::Move(Direction::Up)));
    assert_eq!(EditorCommand::try_from(shift(KeyCode::Down)), Ok(EditorCommand::Move(Direction::Down)));
    assert_eq!(EditorCommand::try_from(press(KeyCode::Backspace)), Ok(EditorCommand::Delete));
    assert_eq!(EditorCommand::try_from(press(KeyCode::Enter)), Ok(EditorCommand::NewLine));
    assert_eq!(EditorCommand::try_from(press(KeyCode::Tab)), Ok(EditorCommand::Tab));
    assert_eq!(EditorCommand::try_from(press(KeyCode::Esc)), Ok(EditorCommand::NoAction));
    assert_eq!(EditorCommand::try_from(press(KeyCode::Other)), Ok(EditorCommand::NoAction));
    assert_eq!(
        EditorCommand::try_from(Event::Resize(80, 24)),
        Ok(EditorCommand::Resize(Size { height: 24, width: 80 }))
    );
    assert_eq!(EditorCommand::try_from(Event::Other), Err(String::from("Event not supported")));
}

#[test]
fn keys_of_the_search() {
    assert_eq!(SearchCommand::try_from(ctrl('n')), Ok(SearchCommand::Next));
    assert_eq!(SearchCommand::try_from(ctrl('p')), Ok(SearchCommand::Previous));
    assert_eq!(SearchCommand::try_from(ctrl('x')), Ok(SearchCommand::NoAction));
    let ctrl_enter = Event::Key(KeyEvent::new(KeyCode::Enter, KeyModifiers::control()));
    assert_eq!(SearchCommand::try_from(ctrl_enter), Ok(SearchCommand::NoAction));
    assert_eq!(SearchCommand::try_from(key('n')), Ok(SearchCommand::Insert('n')));
    assert_eq!(SearchCommand::try_from(press(KeyCode::Enter)), Ok(SearchCommand::AssumeState));
    assert_eq!(SearchCommand::try_from(press(KeyCode::Esc)), Ok(SearchCommand::RevertState));
    assert_eq!(SearchCommand::try_from(press(KeyCode::Backspace)), Ok(SearchCommand::BackSpace));
    assert_eq!(SearchCommand::try_from(press(KeyCode::Up)), Ok(SearchCommand::NoAction));
    assert_eq!(
        SearchCommand::try_from(Event::Resize(3, 4)),
        Ok(SearchCommand::Resize(Size { height: 4, width: 3 }))
    );
    assert_eq!(SearchCommand::try_from(Event::Other), Err(String::from("Invalid key press read")));
}

#[test]
fn keys_of_the_highlight() {
    assert_eq!(HighlightCommand::try_from(ctrl('c')), Ok(HighlightCommand::Copy));
    assert_eq!(HighlightCommand::try_from(ctrl('x')), Ok(HighlightCommand::NoAction));
    assert_eq!(HighlightCommand::try_from(press(KeyCode::Up)), Ok(HighlightCommand::Move(Direction::Up)));
    assert_eq!(HighlightCommand::try_from(press(KeyCode::Down)), Ok(HighlightCommand::Move(Direction::Down)));
    assert_eq!(HighlightCommand::try_from(press(KeyCode::Left)), Ok(HighlightCommand::Move(Direction::Left)));
    assert_eq!(HighlightCommand::try_from(press(KeyCode::Right)), Ok(HighlightCommand::Move(Direction::Right)));
    assert_eq!(HighlightCommand::try_from(press(KeyCode::Esc)), Ok(HighlightCommand::RevertState));
    assert_eq!(HighlightCommand::try_from(press(KeyCode::Backspace)), Ok(HighlightCommand::Delete));
    assert_eq!(HighlightCommand::try_from(key('h')), Ok(HighlightCommand::NoAction));
    assert_eq!(
        HighlightCommand::try_from(Event::Resize(3, 4)),
        Ok(HighlightCommand::Resize(Size { height: 4, width: 3 }))
    );
    assert_eq!(HighlightCommand::try_from(Event::Other), Err(String::from("Invalid key press read")));
    assert_eq!(parse_highlight_normal_mode(key('y')), Ok(HighlightCommand::NoAction));
    assert_eq!(parse_highlight_normal_mode(ctrl('c')), Ok(HighlightCommand::Copy));
}

#[test]
fn keys_of_the_highlight_entered_from_the_modal_mode() {
    assert_eq!(parse_highlight_vim_mode(key('h')), Ok(HighlightCommand::Move(Direction::Left)));
    assert_eq!(parse_highlight_vim_mode(key('j')), Ok(HighlightCommand::Move(Direction::Down)));
    assert_eq!(parse_highlight_vim_mode(key('k')), Ok(HighlightCommand::Move(Direction::Up)));
    assert_eq!(parse_highlight_vim_mode(key('l')), Ok(HighlightCommand::Move(Direction::Right)));
    assert_eq!(parse_highlight_vim_mode(key('y')), Ok(HighlightCommand::Copy));
    assert_eq!(parse_highlight_vim_mode(key('d')), Ok(HighlightCommand::Delete));
    assert_eq!(parse_highlight_vim_mode(key('x')), Ok(HighlightCommand::NoAction));
    assert_eq!(parse_highlight_vim_mode(ctrl('c')), Ok(HighlightCommand::Copy));
    assert_eq!(parse_highlight_vim_mode(ctrl('y')), Ok(HighlightCommand::NoAction));
    assert_eq!(parse_highlight_vim_mode(press(KeyCode::Esc)), Ok(HighlightCommand::RevertState));
    assert_eq!(parse_highlight_vim_mode(press(KeyCode::Left)), Ok(HighlightCommand::Move(Direction::Left)));
    assert_eq!(parse_highlight_vim_mode(Event::Other), Err(String::from("Invalid key press read")));
}

#[test]
fn keys_of_the_prompts() {
    assert_eq!(FileNameCommand::try_from(key('a')), Ok(FileNameCommand::Insert('a')));
    assert_eq!(FileNameCommand::try_from(ctrl('q')), Ok(FileNameCommand::Insert('q')));
    assert_eq!(FileNameCommand::try_from(press(KeyCode::Backspace)), Ok(FileNameCommand::BackSpace));
    assert_eq!(FileNameCommand::try_from(press(KeyCode::Enter)), Ok(FileNameCommand::SaveFileName));
    assert_eq!(FileNameCommand::try_from(press(KeyCode::Esc)), Ok(FileNameCommand::Quit));
    assert_eq!(FileNameCommand::try_from(press(KeyCode::Tab)), Ok(FileNameCommand::NoAction));
    assert_eq!(FileNameCommand::try_from(Event::Resize(1, 1)), Ok(FileNameCommand::NoAction));
    assert_eq!(FileNameCommand::try_from(Event::Other), Ok(FileNameCommand::NoAction));
    assert_eq!(JumpCommand::try_from(key('0')), Ok(JumpCommand::Enter(0)));
    assert_eq!(JumpCommand::try_from(key('7')), Ok(JumpCommand::Enter(7)));
    assert_eq!(JumpCommand::try_from(key('9')), Ok(JumpCommand::Enter(9)));
    assert_eq!(JumpCommand::try_from(key('a')), Ok(JumpCommand::NoAction));
    assert_eq!(JumpCommand::try_from(key('/')), Ok(JumpCommand::NoAction));
    assert_eq!(JumpCommand::try_from(key(':')), Ok(JumpCommand::NoAction));
    assert_eq!(JumpCommand::try_from(press(KeyCode::Backspace)), Ok(JumpCommand::Delete));
    assert_eq!(JumpCommand::try_from(press(KeyCode::Esc)), Ok(JumpCommand::Exit));
    assert_eq!(JumpCommand::try_from(press(KeyCode::Enter)), Ok(JumpCommand::Move));
    assert_eq!(JumpCommand::try_from(Event::Other), Ok(JumpCommand::NoAction));
    assert_eq!(HelpCommand::try_from(ctrl('h')), Ok(HelpCommand::Exit));
    assert_eq!(HelpCommand::try_from(press(KeyCode::Esc)), Ok(HelpCommand::Exit));
    assert_eq!(HelpCommand::try_from(key('h')), Ok(HelpCommand::NoAction));
    assert_eq!(
        HelpCommand::try_from(Event::Resize(5, 6)),
        Ok(HelpCommand::Resize(Size { height: 6, width: 5 }))
    );
    assert_eq!(HelpCommand::try_from(Event::Other), Ok(HelpCommand::NoAction));
}

#[test]
fn keys_of_the_modal_mode() {
    assert_eq!(VimModeCommands::try_from(shift(KeyCode::Char('4'))), Ok(VimModeCommands::Move(Direction::End)));
    assert_eq!(VimModeCommands::try_from(key('4')), Ok(VimModeCommands::NoAction));
    assert_eq!(VimModeCommands::try_from(key('$')), Ok(VimModeCommands::Move(Direction::End)));
    assert_eq!(VimModeCommands::try_from(key('h')), Ok(VimModeCommands::Move(Direction::Left)));
    assert_eq!(VimModeCommands::try_from(key('k')), Ok(VimModeCommands::Move(Direction::Up)));
    assert_eq!(VimModeCommands::try_from(key('j')), Ok(VimModeCommands::Move(Direction::Down)));
    assert_eq!(VimModeCommands::try_from(key('l')), Ok(VimModeCommands::Move(Direction::Right)));
    assert_eq!(VimModeCommands::try_from(key('0')), Ok(VimModeCommands::Move(Direction::Home)));
    assert_eq!(VimModeCommands::try_from(key('w')), Ok(VimModeCommands::StartOfNextWord));
    assert_eq!(VimModeCommands::try_from(key('e')), Ok(VimModeCommands::EndOfCurrentWord));
    assert_eq!(VimModeCommands::try_from(key('b')), Ok(VimModeCommands::BeginingOfCurrentWord));
    assert_eq!(
        VimModeCommands::try_from(key(':')),
        Ok(VimModeCommands::ComplexCommand(QueueInitCommand::Colon))
    );
    assert_eq!(
        VimModeCommands::try_from(key('g')),
        Ok(VimModeCommands::ComplexCommand(QueueInitCommand::PageUp))
    );
    assert_eq!(
        VimModeCommands::try_from(key('G')),
        Ok(VimModeCommands::ComplexCommand(QueueInitCommand::PageDown))
    );
    assert_eq!(VimModeCommands::try_from(key('v')), Ok(VimModeCommands::Highlight));
    assert_eq!(VimModeCommands::try_from(key('p')), Ok(VimModeCommands::Paste));
    assert_eq!(VimModeCommands::try_from(key('z')), Ok(VimModeCommands::NoAction));
    assert_eq!(VimModeCommands::try_from(press(KeyCode::Esc)), Ok(VimModeCommands::Exit));
    assert_eq!(VimModeCommands::try_from(press(KeyCode::Enter)), Ok(VimModeCommands::NoAction));
    assert_eq!(
        VimModeCommands::try_from(Event::Resize(5, 6)),
        Ok(VimModeCommands::Resize(Size { height: 6, width: 5 }))
    );
    assert_eq!(VimModeCommands::try_from(Event::Other), Ok(VimModeCommands::NoAction));
    assert_eq!(VimColonQueue::try_from(key('w')), Ok(VimColonQueue::New('w')));
    assert_eq!(VimColonQueue::try_from(press(KeyCode::Backspace)), Ok(VimColonQueue::Backspace));
    assert_eq!(VimColonQueue::try_from(press(KeyCode::Enter)), Ok(VimColonQueue::Execute));
    assert_eq!(VimColonQueue::try_from(press(KeyCode::Esc)), Ok(VimColonQueue::Other));
    assert_eq!(
        VimColonQueue::try_from(Event::Resize(5, 6)),
        Ok(VimColonQueue::Resize(Size { height: 6, width: 5 }))
    );
    assert_eq!(VimColonQueue::try_from(Event::Other), Ok(VimColonQueue::Other));
    assert_eq!(ColonQueueActions::try_from('w'), Ok(ColonQueueActions::Write));
    assert_eq!(ColonQueueActions::try_from('q'), Ok(ColonQueueActions::Quit));
    assert_eq!(ColonQueueActions::try_from('!'), Ok(ColonQueueActions::Override));
    assert_eq!(ColonQueueActions::try_from('x'), Err(String::from("Invalid command")));
}

#[test]
fn left_at_the_start_of_a_row_goes_to_the_end_of_the_row_above() {
    let buffer = buffer_of(&["hello", "hi", "漢字"]);
    assert_eq!(moved(Direction::Left, at(1, 0), &buffer), at(0, 5));
    assert_eq!(moved(Direction::Left, at(2, 0), &buffer), at(1, 2));
    assert_eq!(moved(Direction::Left, at(0, 0), &buffer), at(0, 0));
    assert_eq!(moved(Direction::Left, at(1, 2), &buffer), at(1, 1));
    let sticky = Position { height: 1, width: 2, max_width: 5 };
    assert_eq!(moved(Direction::Left, sticky, &buffer), at(1, 1));
}

#[test]
fn right_at_the_end_of_a_row_goes_to_the_start_of_the_row_below() {
    let buffer = buffer_of(&["hello", "hi", "漢字"]);
    assert_eq!(moved(Direction::Right, at(0, 5), &buffer), at(1, 0));
    assert_eq!(moved(Direction::Right, at(0, 4), &buffer), at(0, 5));
    assert_eq!(moved(Direction::Right, at(2, 4), &buffer), at(2, 4));
    assert_eq!(moved(Direction::Right, at(2, 3), &buffer), at(2, 4));
    assert_eq!(moved(Direction::Right, at(1, 9), &buffer), at(2, 0));
}

#[test]
fn vertical_moves_keep_the_column_within_the_row() {
    let buffer = buffer_of(&["hello", "hi", "hello world"]);
    let down = moved(Direction::Down, at(0, 4), &buffer);
    assert_eq!(down, Position { height: 1, width: 2, max_width: 4 });
    let again = moved(Direction::Down, down, &buffer);
    assert_eq!(again, Position { height: 2, width: 4, max_width: 4 });
    assert_eq!(moved(Direction::Down, again, &buffer), again);
    let up = moved(Direction::Up, again, &buffer);
    assert_eq!(up, Position { height: 1, width: 2, max_width: 4 });
    assert_eq!(moved(Direction::Up, at(0, 3), &buffer), Position { height: 0, width: 3, max_width: 3 });
}

#[test]
fn page_moves_go_to_the_first_and_the_last_row() {
    let buffer = buffer_of(&["hi", "hello", "hello world"]);
    assert_eq!(
        moved(Direction::PageDown, at(0, 2), &buffer),
        Position { height: 2, width: 2, max_width: 2 }
    );
    assert_eq!(
        moved(Direction::PageUp, at(2, 9), &buffer),
        Position { height: 0, width: 2, max_width: 9 }
    );
}

#[test]
fn home_and_end_go_to_the_ends_of_the_row() {
    let buffer = buffer_of(&["hello", "漢字"]);
    assert_eq!(moved(Direction::End, at(0, 1), &buffer), at(0, 5));
    assert_eq!(moved(Direction::End, at(1, 0), &buffer), at(1, 4));
    let sticky = Position { height: 0, width: 3, max_width: 8 };
    assert_eq!(moved(Direction::Home, sticky, &buffer), at(0, 0));
}
