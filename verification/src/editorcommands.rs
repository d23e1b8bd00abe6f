//! The commands of every mode, how key events map to them, and the one
//! shared rule for moving the cursor.

use crate::buffer::Buffer;
use crate::coordinate::{Position, Size};
use crate::input::{Event, KeyCode, KeyEvent, KeyModifiers};
use crate::line::{clamp_columns, total_width, FragmentView};
use vstd::prelude::*;

verus! {

/// A way to move the cursor.
#[derive(Copy, Clone, Debug, PartialEq, Eq, Structural)]
pub enum Direction {
    Up,
    Down,
    Left,
    Right,
    PageUp,
    PageDown,
    End,
    Home,
}

/// The width in columns of row `row`.
pub open spec fn row_width(lines: Seq<Seq<FragmentView>>, row: int) -> usize {
    clamp_columns(total_width(lines[row]))
}

/// A cursor after a vertical move to row `row`: it aims for the remembered
/// column, or for its own where that is further right, remembers it, and
/// stops at the end of the row.
pub open spec fn settled_on_row(position: Position, lines: Seq<Seq<FragmentView>>, row: int) -> Position {
    let target = if position.max_width > position.width {
        position.max_width
    } else {
        position.width
    };
    Position {
        height: row as usize,
        max_width: target,
        width: if target <= row_width(lines, row) {
            target
        } else {
            row_width(lines, row)
        },
    }
}

/// Where a move in `direction` takes the cursor in a buffer of `lines`.
///
/// Up and Down stop at the first and last row. Left in column 0 goes to
/// the end of the row above; Right at the end of a row goes to the start
/// of the row below. Every vertical move keeps the column within the row
/// it lands on.
pub open spec fn after_move(
    direction: Direction,
    position: Position,
    lines: Seq<Seq<FragmentView>>,
) -> Position {
    let last = lines.len() - 1;
    match direction {
        Direction::Down => settled_on_row(
            position,
            lines,
            if position.height < last {
                position.height + 1
            } else {
                last
            },
        ),
        Direction::Up => settled_on_row(
            position,
            lines,
            if position.height >= 1 {
                position.height - 1
            } else {
                0
            },
        ),
        Direction::Left => if position.width == 0 && position.height > 0 {
            Position {
                height: (position.height - 1) as usize,
                width: row_width(lines, position.height - 1),
                max_width: 0,
            }
        } else {
            Position {
                width: if position.width >= 1 {
                    (position.width - 1) as usize
                } else {
                    0
                },
                max_width: 0,
                ..position
            }
        },
        Direction::Right => if position.width >= row_width(lines, position.height as int)
            && position.height < last {
            Position { height: (position.height + 1) as usize, width: 0, max_width: 0 }
        } else {
            Position {
                width: if position.width + 1 <= row_width(lines, position.height as int) {
                    (position.width + 1) as usize
                } else {
                    row_width(lines, position.height as int)
                },
                max_width: 0,
                ..position
            }
        },
        Direction::PageDown => settled_on_row(position, lines, last),
        Direction::PageUp => settled_on_row(position, lines, 0),
        Direction::End => Position {
            width: row_width(lines, position.height as int),
            max_width: 0,
            ..position
        },
        Direction::Home => Position { width: 0, max_width: 0, ..position },
    }
}

/// Whether the cursor stands on a row of the buffer and no further right
/// than the end of that row.
pub open spec fn on_text(position: Position, lines: Seq<Seq<FragmentView>>) -> bool {
    &&& position.height < lines.len()
    &&& position.width <= row_width(lines, position.height as int)
}

/// A move never takes the cursor off the rows of the buffer, and a cursor
/// that stands on the text still does after any move.
pub proof fn lemma_move_stays_on_text(
    direction: Direction,
    position: Position,
    lines: Seq<Seq<FragmentView>>,
)
    requires
        position.height < lines.len() <= usize::MAX,
    ensures
        after_move(direction, position, lines).height < lines.len(),
        on_text(position, lines) ==> on_text(after_move(direction, position, lines), lines),
{
}

impl Direction {
    /// Moves the cursor one step in this direction through `buffer`.
    pub fn move_cursor(&self, cursor_position: &mut Position, buffer: &Buffer)
        requires
            old(cursor_position).height < buffer@.lines.len(),
        ensures
            *final(cursor_position) == after_move(*self, *old(cursor_position), buffer@.lines),
    {
        let last = buffer.len() - 1;
        match *self {
            Direction::Down => {
                cursor_position.down(1, last);
                cursor_position.resolve_width(buffer.text[cursor_position.height].grapheme_len());
            },
            Direction::Up => {
                cursor_position.up(1);
                cursor_position.resolve_width(buffer.text[cursor_position.height].grapheme_len());
            },
            Direction::Left => {
                if cursor_position.at_left_edge() && !cursor_position.at_top() {
                    cursor_position.up(1);
                    cursor_position.snap_right(
                        buffer.text[cursor_position.height].grapheme_len(),
                    );
                } else {
                    cursor_position.left(1);
                }
            },
            Direction::Right => {
                let grapheme_len = buffer.text[cursor_position.height].grapheme_len();
                if cursor_position.at_max_width(grapheme_len) && !cursor_position.at_max_height(
                    last,
                ) {
                    cursor_position.down(1, last);
                    cursor_position.snap_left();
                } else {
                    cursor_position.right(1, grapheme_len);
                }
            },
            Direction::PageDown => {
                cursor_position.page_down(last);
                cursor_position.resolve_width(buffer.text[cursor_position.height].grapheme_len());
            },
            Direction::PageUp => {
                cursor_position.page_up();
                cursor_position.resolve_width(buffer.text[cursor_position.height].grapheme_len());
            },
            Direction::End => {
                cursor_position.snap_right(buffer.text[cursor_position.height].grapheme_len());
            },
            Direction::Home => {
                cursor_position.snap_left();
            },
        }
    }
}

/// The size a resize event reports.
pub open spec fn resized(width: u16, height: u16) -> Size {
    Size { height: height as usize, width: width as usize }
}

fn size_of(width: u16, height: u16) -> (size: Size)
    ensures
        size == resized(width, height),
{
    Size { height: height as usize, width: width as usize }
}

/// What the editor is asked to do while no other mode is entered.
#[derive(Copy, Clone, Debug, PartialEq, Eq, Structural)]
pub enum EditorCommand {
    Move(Direction),
    Insert(char),
    Resize(Size),
    JumpWord(Direction),
    JumpLine,
    Highlight,
    Paste,
    Tab,
    NewLine,
    Save,
    Theme,
    Delete,
    VimMode,
    Search,
    Help,
    NoAction,
    Quit,
}

impl EditorCommand {
    /// The command a key stands for.
    pub open spec fn of_key(code: KeyCode, modifiers: KeyModifiers) -> EditorCommand {
        match code {
            KeyCode::Char(c) => if !modifiers.is_control() {
                EditorCommand::Insert(c)
            } else if c == 'q' {
                EditorCommand::Quit
            } else if c == 'j' {
                EditorCommand::JumpLine
            } else if c == 'l' {
                EditorCommand::Move(Direction::Home)
            } else if c == 'u' {
                EditorCommand::Move(Direction::PageUp)
            } else if c == 'd' {
                EditorCommand::Move(Direction::PageDown)
            } else if c == 'r' {
                EditorCommand::Move(Direction::End)
            } else if c == 'w' {
                EditorCommand::Save
            } else if c == 'h' {
                EditorCommand::Help
            } else if c == 'f' {
                EditorCommand::Search
            } else if c == 't' {
                EditorCommand::Theme
            } else if c == 'v' {
                EditorCommand::Paste
            } else if c == 'c' {
                EditorCommand::Highlight
            } else if c == 'n' {
                EditorCommand::VimMode
            } else {
                EditorCommand::Insert(c)
            },
            KeyCode::Left => if modifiers.is_shift() {
                EditorCommand::JumpWord(Direction::Left)
            } else {
                EditorCommand::Move(Direction::Left)
            },
            KeyCode::Right => if modifiers.is_shift() {
                EditorCommand::JumpWord(Direction::Right)
            } else {
                EditorCommand::Move(Direction::Right)
            },
            KeyCode::Up => EditorCommand::Move(Direction::Up),
            KeyCode::Down => EditorCommand::Move(Direction::Down),
            KeyCode::Backspace => EditorCommand::Delete,
            KeyCode::Enter => EditorCommand::NewLine,
            KeyCode::Tab => EditorCommand::Tab,
            _ => EditorCommand::NoAction,
        }
    }

    /// The command an event stands for; none for an event that is neither
    /// a key nor a resize.
    pub open spec fn decoded(event: Event) -> Option<EditorCommand> {
        match event {
            Event::Key(key) => Some(EditorCommand::of_key(key.code, key.modifiers)),
            Event::Resize(width, height) => Some(EditorCommand::Resize(resized(width, height))),
            Event::Other => None,
        }
    }

    /// Decodes an event. It fails on an event that is neither a key nor a
    /// resize.
    pub fn try_from(event: Event) -> (result: Result<EditorCommand, String>)
        ensures
            match result {
                Ok(command) => EditorCommand::decoded(event) == Some(command),
                Err(message) => EditorCommand::decoded(event) is None && message@
                    == "Event not supported"@,
            },
    {
        match event {
            Event::Key(KeyEvent { code, modifiers, .. }) => {
                let control = modifiers.only_control();
                let shift = modifiers.only_shift();
                let command = match code {
                    KeyCode::Char(c) => if !control {
                        EditorCommand::Insert(c)
                    } else if c == 'q' {
                        EditorCommand::Quit
                    } else if c == 'j' {
                        EditorCommand::JumpLine
                    } else if c == 'l' {
                        EditorCommand::Move(Direction::Home)
                    } else if c == 'u' {
                        EditorCommand::Move(Direction::PageUp)
                    } else if c == 'd' {
                        EditorCommand::Move(Direction::PageDown)
                    } else if c == 'r' {
                        EditorCommand::Move(Direction::End)
                    } else if c == 'w' {
                        EditorCommand::Save
                    } else if c == 'h' {
                        EditorCommand::Help
                    } else if c == 'f' {
                        EditorCommand::Search
                    } else if c == 't' {
                        EditorCommand::Theme
                    } else if c == 'v' {
                        EditorCommand::Paste
                    } else if c == 'c' {
                        EditorCommand::Highlight
                    } else if c == 'n' {
                        EditorCommand::VimMode
                    } else {
                        EditorCommand::Insert(c)
                    },
                    KeyCode::Left => if shift {
                        EditorCommand::JumpWord(Direction::Left)
                    } else {
                        EditorCommand::Move(Direction::Left)
                    },
                    KeyCode::Right => if shift {
                        EditorCommand::JumpWord(Direction::Right)
                    } else {
                        EditorCommand::Move(Direction::Right)
                    },
                    KeyCode::Up => EditorCommand::Move(Direction::Up),
                    KeyCode::Down => EditorCommand::Move(Direction::Down),
                    KeyCode::Backspace => EditorCommand::Delete,
                    KeyCode::Enter => EditorCommand::NewLine,
                    KeyCode::Tab => EditorCommand::Tab,
                    _ => EditorCommand::NoAction,
                };
                Ok(command)
            },
            Event::Resize(width, height) => Ok(EditorCommand::Resize(size_of(width, height))),
            Event::Other => Err("Event not supported".to_owned()),
        }
    }
}

/// What the search mode is asked to do.
#[derive(Copy, Clone, Debug, PartialEq, Eq, Structural)]
pub enum SearchCommand {
    Insert(char),
    Next,
    Previous,
    BackSpace,
    RevertState,
    AssumeState,
    Resize(Size),
    NoAction,
}

impl SearchCommand {
    /// The command a key stands for.
    pub open spec fn of_key(code: KeyCode, modifiers: KeyModifiers) -> SearchCommand {
        if modifiers.is_control() {
            if code == KeyCode::Char('n') {
                SearchCommand::Next
            } else if code == KeyCode::Char('p') {
                SearchCommand::Previous
            } else {
                SearchCommand::NoAction
            }
        } else {
            match code {
                KeyCode::Char(c) => SearchCommand::Insert(c),
                KeyCode::Enter => SearchCommand::AssumeState,
                KeyCode::Esc => SearchCommand::RevertState,
                KeyCode::Backspace => SearchCommand::BackSpace,
                _ => SearchCommand::NoAction,
            }
        }
    }

    /// The command an event stands for; none for an event that is neither
    /// a key nor a resize.
    pub open spec fn decoded(event: Event) -> Option<SearchCommand> {
        match event {
            Event::Key(key) => Some(SearchCommand::of_key(key.code, key.modifiers)),
            Event::Resize(width, height) => Some(SearchCommand::Resize(resized(width, height))),
            Event::Other => None,
        }
    }

    /// Decodes an event. It fails on an event that is neither a key nor a
    /// resize.
    pub fn try_from(event: Event) -> (result: Result<SearchCommand, String>)
        ensures
            match result {
                Ok(command) => SearchCommand::decoded(event) == Some(command),
                Err(message) => SearchCommand::decoded(event) is None && message@
                    == "Invalid key press read"@,
            },
    {
        match event {
            Event::Key(KeyEvent { code, modifiers, .. }) => {
                let command = if modifiers.only_control() {
                    match code {
                        KeyCode::Char(c) => if c == 'n' {
                            SearchCommand::Next
                        } else if c == 'p' {
                            SearchCommand::Previous
                        } else {
                            SearchCommand::NoAction
                        },
                        _ => SearchCommand::NoAction,
                    }
                } else {
                    match code {
                        KeyCode::Char(c) => SearchCommand::Insert(c),
                        KeyCode::Enter => SearchCommand::AssumeState,
                        KeyCode::Esc => SearchCommand::RevertState,
                        KeyCode::Backspace => SearchCommand::BackSpace,
                        _ => SearchCommand::NoAction,
                    }
                };
                Ok(command)
            },
            Event::Resize(width, height) => Ok(SearchCommand::Resize(size_of(width, height))),
            Event::Other => Err("Invalid key press read".to_owned()),
        }
    }
}

/// What the highlight mode is asked to do.
#[derive(Copy, Clone, Debug, PartialEq, Eq, Structural)]
pub enum HighlightCommand {
    RevertState,
    Copy,
    Resize(Size),
    Move(Direction),
    NoAction,
    Delete,
}

impl HighlightCommand {
    /// The command a key stands for when the mode was entered from the
    /// default mode.
    pub open spec fn of_key(code: KeyCode, modifiers: KeyModifiers) -> HighlightCommand {
        if modifiers.is_control() {
            if code == KeyCode::Char('c') {
                HighlightCommand::Copy
            } else {
                HighlightCommand::NoAction
            }
        } else {
            match code {
                KeyCode::Up => HighlightCommand::Move(Direction::Up),
                KeyCode::Down => HighlightCommand::Move(Direction::Down),
                KeyCode::Right => HighlightCommand::Move(Direction::Right),
                KeyCode::Left => HighlightCommand::Move(Direction::Left),
                KeyCode::Esc => HighlightCommand::RevertState,
                KeyCode::Backspace => HighlightCommand::Delete,
                _ => HighlightCommand::NoAction,
            }
        }
    }

    /// The command a key stands for when the mode was entered from the
    /// modal mode: the keys of the default mode, and besides them `h`,
    /// `j`, `k`, `l` to move, `y` to copy and `d` to delete.
    pub open spec fn of_vim_key(code: KeyCode, modifiers: KeyModifiers) -> HighlightCommand {
        if modifiers.is_control() {
            HighlightCommand::of_key(code, modifiers)
        } else if code == KeyCode::Char('h') {
            HighlightCommand::Move(Direction::Left)
        } else if code == KeyCode::Char('j') {
            HighlightCommand::Move(Direction::Down)
        } else if code == KeyCode::Char('k') {
            HighlightCommand::Move(Direction::Up)
        } else if code == KeyCode::Char('l') {
            HighlightCommand::Move(Direction::Right)
        } else if code == KeyCode::Char('y') {
            HighlightCommand::Copy
        } else if code == KeyCode::Char('d') {
            HighlightCommand::Delete
        } else {
            HighlightCommand::of_key(code, modifiers)
        }
    }

    /// The command an event stands for; none for an event that is neither
    /// a key nor a resize.
    pub open spec fn decoded(event: Event, vim: bool) -> Option<HighlightCommand> {
        match event {
            Event::Key(key) => Some(
                if vim {
                    HighlightCommand::of_vim_key(key.code, key.modifiers)
                } else {
                    HighlightCommand::of_key(key.code, key.modifiers)
                },
            ),
            Event::Resize(width, height) => Some(HighlightCommand::Resize(resized(width, height))),
            Event::Other => None,
        }
    }

    fn from_key(code: KeyCode, modifiers: KeyModifiers) -> (command: HighlightCommand)
        ensures
            command == HighlightCommand::of_key(code, modifiers),
    {
        if modifiers.only_control() {
            match code {
                KeyCode::Char(c) => if c == 'c' {
                    HighlightCommand::Copy
                } else {
                    HighlightCommand::NoAction
                },
                _ => HighlightCommand::NoAction,
            }
        } else {
            match code {
                KeyCode::Up => HighlightCommand::Move(Direction::Up),
                KeyCode::Down => HighlightCommand::Move(Direction::Down),
                KeyCode::Right => HighlightCommand::Move(Direction::Right),
                KeyCode::Left => HighlightCommand::Move(Direction::Left),
                KeyCode::Esc => HighlightCommand::RevertState,
                KeyCode::Backspace => HighlightCommand::Delete,
                _ => HighlightCommand::NoAction,
            }
        }
    }

    /// Decodes an event with the keys of the default mode. It fails on an
    /// event that is neither a key nor a resize.
    pub fn try_from(event: Event) -> (result: Result<HighlightCommand, String>)
        ensures
            match result {
                Ok(command) => HighlightCommand::decoded(event, false) == Some(command),
                Err(message) => HighlightCommand::decoded(event, false) is None && message@
                    == "Invalid key press read"@,
            },
    {
        match event {
            Event::Key(KeyEvent { code, modifiers, .. }) => Ok(
                HighlightCommand::from_key(code, modifiers),
            ),
            Event::Resize(width, height) => Ok(HighlightCommand::Resize(size_of(width, height))),
            Event::Other => Err("Invalid key press read".to_owned()),
        }
    }
}

/// Decodes an event for a highlight entered from the default mode.
pub fn parse_highlight_normal_mode(event: Event) -> (result: Result<HighlightCommand, String>)
    ensures
        match result {
            Ok(command) => HighlightCommand::decoded(event, false) == Some(command),
            Err(message) => HighlightCommand::decoded(event, false) is None && message@
                == "Invalid key press read"@,
        },
{
    HighlightCommand::try_from(event)
}

/// Decodes an event for a highlight entered from the modal mode.
pub fn parse_highlight_vim_mode(event: Event) -> (result: Result<HighlightCommand, String>)
    ensures
        match result {
            Ok(command) => HighlightCommand::decoded(event, true) == Some(command),
            Err(message) => HighlightCommand::decoded(event, true) is None && message@
                == "Invalid key press read"@,
        },
{
    match event {
        Event::Key(KeyEvent { code, modifiers, .. }) => {
            let plain = HighlightCommand::from_key(code, modifiers);
            if modifiers.only_control() {
                return Ok(plain);
            }
            let command = match code {
                KeyCode::Char(c) => if c == 'h' {
                    HighlightCommand::Move(Direction::Left)
                } else if c == 'j' {
                    HighlightCommand::Move(Direction::Down)
                } else if c == 'k' {
                    HighlightCommand::Move(Direction::Up)
                } else if c == 'l' {
                    HighlightCommand::Move(Direction::Right)
                } else if c == 'y' {
                    HighlightCommand::Copy
                } else if c == 'd' {
                    HighlightCommand::Delete
                } else {
                    plain
                },
                _ => plain,
            };
            Ok(command)
        },
        Event::Resize(width, height) => Ok(HighlightCommand::Resize(size_of(width, height))),
        Event::Other => Err("Invalid key press read".to_owned()),
    }
}

/// What the file name prompt is asked to do.
#[derive(Copy, Clone, Debug, PartialEq, Eq, Structural)]
pub enum FileNameCommand {
    Insert(char),
    BackSpace,
    SaveFileName,
    Quit,
    NoAction,
}

impl FileNameCommand {
    /// The command an event stands for.
    pub open spec fn decoded(event: Event) -> FileNameCommand {
        match event {
            Event::Key(key) => match key.code {
                KeyCode::Char(c) => FileNameCommand::Insert(c),
                KeyCode::Backspace => FileNameCommand::BackSpace,
                KeyCode::Enter => FileNameCommand::SaveFileName,
                KeyCode::Esc => FileNameCommand::Quit,
                _ => FileNameCommand::NoAction,
            },
            _ => FileNameCommand::NoAction,
        }
    }

    /// Decodes an event. It never fails.
    pub fn try_from(event: Event) -> (result: Result<FileNameCommand, String>)
        ensures
            result == Ok::<FileNameCommand, String>(FileNameCommand::decoded(event)),
    {
        match event {
            Event::Key(KeyEvent { code, .. }) => match code {
                KeyCode::Char(c) => Ok(FileNameCommand::Insert(c)),
                KeyCode::Backspace => Ok(FileNameCommand::BackSpace),
                KeyCode::Enter => Ok(FileNameCommand::SaveFileName),
                KeyCode::Esc => Ok(FileNameCommand::Quit),
                _ => Ok(FileNameCommand::NoAction),
            },
            _ => Ok(FileNameCommand::NoAction),
        }
    }
}

/// A command of the modal mode that takes more than one key.
#[derive(Copy, Clone, Debug, PartialEq, Eq, Structural)]
pub enum QueueInitCommand {
    /// `:` starts a colon command.
    Colon,
    /// `g` waits for a second `g` to go to the first row.
    PageUp,
    /// `G` waits for a second `G` to go to the last row.
    PageDown,
}

/// What the modal mode is asked to do.
#[derive(Copy, Clone, Debug, PartialEq, Eq, Structural)]
pub enum VimModeCommands {
    Move(Direction),
    StartOfNextWord,
    EndOfCurrentWord,
    BeginingOfCurrentWord,
    ComplexCommand(QueueInitCommand),
    Highlight,
    Paste,
    NoAction,
    Resize(Size),
    Exit,
}

impl VimModeCommands {
    /// The command a key stands for.
    pub open spec fn of_key(code: KeyCode, modifiers: KeyModifiers) -> VimModeCommands {
        match code {
            KeyCode::Char(c) => if c == '4' && modifiers.is_shift() {
                VimModeCommands::Move(Direction::End)
            } else if c == '$' {
                VimModeCommands::Move(Direction::End)
            } else if c == 'h' {
                VimModeCommands::Move(Direction::Left)
            } else if c == 'k' {
                VimModeCommands::Move(Direction::Up)
            } else if c == 'j' {
                VimModeCommands::Move(Direction::Down)
            } else if c == 'l' {
                VimModeCommands::Move(Direction::Right)
            } else if c == '0' {
                VimModeCommands::Move(Direction::Home)
            } else if c == 'w' {
                VimModeCommands::StartOfNextWord
            } else if c == 'e' {
                VimModeCommands::EndOfCurrentWord
            } else if c == 'b' {
                VimModeCommands::BeginingOfCurrentWord
            } else if c == ':' {
                VimModeCommands::ComplexCommand(QueueInitCommand::Colon)
            } else if c == 'g' {
                VimModeCommands::ComplexCommand(QueueInitCommand::PageUp)
            } else if c == 'G' {
                VimModeCommands::ComplexCommand(QueueInitCommand::PageDown)
            } else if c == 'v' {
                VimModeCommands::Highlight
            } else if c == 'p' {
                VimModeCommands::Paste
            } else {
                VimModeCommands::NoAction
            },
            KeyCode::Esc => VimModeCommands::Exit,
            _ => VimModeCommands::NoAction,
        }
    }

    /// The command an event stands for.
    pub open spec fn decoded(event: Event) -> VimModeCommands {
        match event {
            Event::Key(key) => VimModeCommands::of_key(key.code, key.modifiers),
            Event::Resize(width, height) => VimModeCommands::Resize(resized(width, height)),
            Event::Other => VimModeCommands::NoAction,
        }
    }

    /// Decodes an event. It never fails.
    pub fn try_from(event: Event) -> (result: Result<VimModeCommands, String>)
        ensures
            result == Ok::<VimModeCommands, String>(VimModeCommands::decoded(event)),
    {
        match event {
            Event::Key(KeyEvent { code, modifiers, .. }) => {
                let command = match code {
                    KeyCode::Char(c) => if c == '4' && modifiers.only_shift() {
                        VimModeCommands::Move(Direction::End)
                    } else if c == '$' {
                        VimModeCommands::Move(Direction::End)
                    } else if c == 'h' {
                        VimModeCommands::Move(Direction::Left)
                    } else if c == 'k' {
                        VimModeCommands::Move(Direction::Up)
                    } else if c == 'j' {
                        VimModeCommands::Move(Direction::Down)
                    } else if c == 'l' {
                        VimModeCommands::Move(Direction::Right)
                    } else if c == '0' {
                        VimModeCommands::Move(Direction::Home)
                    } else if c == 'w' {
                        VimModeCommands::StartOfNextWord
                    } else if c == 'e' {
                        VimModeCommands::EndOfCurrentWord
                    } else if c == 'b' {
                        VimModeCommands::BeginingOfCurrentWord
                    } else if c == ':' {
                        VimModeCommands::ComplexCommand(QueueInitCommand::Colon)
                    } else if c == 'g' {
                        VimModeCommands::ComplexCommand(QueueInitCommand::PageUp)
                    } else if c == 'G' {
                        VimModeCommands::ComplexCommand(QueueInitCommand::PageDown)
                    } else if c == 'v' {
                        VimModeCommands::Highlight
                    } else if c == 'p' {
                        VimModeCommands::Paste
                    } else {
                        VimModeCommands::NoAction
                    },
                    KeyCode::Esc => VimModeCommands::Exit,
                    _ => VimModeCommands::NoAction,
                };
                Ok(command)
            },
            Event::Resize(width, height) => Ok(VimModeCommands::Resize(size_of(width, height))),
            Event::Other => Ok(VimModeCommands::NoAction),
        }
    }
}

/// What a colon command being typed is asked to do.
#[derive(Copy, Clone, Debug, PartialEq, Eq, Structural)]
pub enum VimColonQueue {
    New(char),
    Backspace,
    Execute,
    Resize(Size),
    Other,
}

impl VimColonQueue {
    /// The command an event stands for.
    pub open spec fn decoded(event: Event) -> VimColonQueue {
        match event {
            Event::Key(key) => match key.code {
                KeyCode::Char(c) => VimColonQueue::New(c),
                KeyCode::Backspace => VimColonQueue::Backspace,
                KeyCode::Enter => VimColonQueue::Execute,
                _ => VimColonQueue::Other,
            },
            Event::Resize(width, height) => VimColonQueue::Resize(resized(width, height)),
            Event::Other => VimColonQueue::Other,
        }
    }

    /// Decodes an event. It never fails.
    pub fn try_from(event: Event) -> (result: Result<VimColonQueue, String>)
        ensures
            result == Ok::<VimColonQueue, String>(VimColonQueue::decoded(event)),
    {
        match event {
            Event::Key(KeyEvent { code, .. }) => match code {
                KeyCode::Char(c) => Ok(VimColonQueue::New(c)),
                KeyCode::Backspace => Ok(VimColonQueue::Backspace),
                KeyCode::Enter => Ok(VimColonQueue::Execute),
                _ => Ok(VimColonQueue::Other),
            },
            Event::Resize(width, height) => Ok(VimColonQueue::Resize(size_of(width, height))),
            Event::Other => Ok(VimColonQueue::Other),
        }
    }
}

/// One letter of a colon command.
#[derive(Copy, Clone, Debug, PartialEq, Eq, Structural)]
pub enum ColonQueueActions {
    /// `w`: write the buffer to its file.
    Write,
    /// `q`: leave the editor.
    Quit,
    /// `!`: do so even though the buffer is not saved.
    Override,
}

impl ColonQueueActions {
    /// The action a letter stands for, if any.
    pub open spec fn decoded(c: char) -> Option<ColonQueueActions> {
        if c == 'w' {
            Some(ColonQueueActions::Write)
        } else if c == 'q' {
            Some(ColonQueueActions::Quit)
        } else if c == '!' {
            Some(ColonQueueActions::Override)
        } else {
            None
        }
    }

    /// Decodes a letter. It fails on every letter but `w`, `q` and `!`.
    pub fn try_from(c: char) -> (result: Result<ColonQueueActions, String>)
        ensures
            match result {
                Ok(action) => ColonQueueActions::decoded(c) == Some(action),
                Err(message) => ColonQueueActions::decoded(c) is None && message@
                    == "Invalid command"@,
            },
    {
        if c == 'w' {
            Ok(ColonQueueActions::Write)
        } else if c == 'q' {
            Ok(ColonQueueActions::Quit)
        } else if c == '!' {
            Ok(ColonQueueActions::Override)
        } else {
            Err("Invalid command".to_owned())
        }
    }
}

/// What the jump-to-line prompt is asked to do.
#[derive(Copy, Clone, Debug, PartialEq, Eq, Structural)]
pub enum JumpCommand {
    Enter(usize),
    Delete,
    Move,
    Exit,
    NoAction,
}

/// The value of a decimal digit, if `c` is one.
pub open spec fn digit_value(c: char) -> Option<usize> {
    if '0' <= c <= '9' {
        Some((c as u32 - '0' as u32) as usize)
    } else {
        None
    }
}

impl JumpCommand {
    /// The command an event stands for.
    pub open spec fn decoded(event: Event) -> JumpCommand {
        match event {
            Event::Key(key) => match key.code {
                KeyCode::Char(c) => match digit_value(c) {
                    Some(digit) => JumpCommand::Enter(digit),
                    None => JumpCommand::NoAction,
                },
                KeyCode::Backspace => JumpCommand::Delete,
                KeyCode::Esc => JumpCommand::Exit,
                KeyCode::Enter => JumpCommand::Move,
                _ => JumpCommand::NoAction,
            },
            _ => JumpCommand::NoAction,
        }
    }

    /// Decodes an event. It never fails.
    pub fn try_from(event: Event) -> (result: Result<JumpCommand, String>)
        ensures
            result == Ok::<JumpCommand, String>(JumpCommand::decoded(event)),
    {
        match event {
            Event::Key(KeyEvent { code, .. }) => match code {
                KeyCode::Char(c) => {
                    if '0' <= c && c <= '9' {
                        let digit: u32 = c as u32 - '0' as u32;
                        Ok(JumpCommand::Enter(digit as usize))
                    } else {
                        Ok(JumpCommand::NoAction)
                    }
                },
                KeyCode::Backspace => Ok(JumpCommand::Delete),
                KeyCode::Esc => Ok(JumpCommand::Exit),
                KeyCode::Enter => Ok(JumpCommand::Move),
                _ => Ok(JumpCommand::NoAction),
            },
            _ => Ok(JumpCommand::NoAction),
        }
    }
}

/// What the help screen is asked to do.
#[derive(Copy, Clone, Debug, PartialEq, Eq, Structural)]
pub enum HelpCommand {
    Exit,
    NoAction,
    Resize(Size),
}

impl HelpCommand {
    /// The command an event stands for.
    pub open spec fn decoded(event: Event) -> HelpCommand {
        match event {
            Event::Key(key) => if key.code == KeyCode::Esc || (key.code == KeyCode::Char('h')
                && key.modifiers.is_control()) {
                HelpCommand::Exit
            } else {
                HelpCommand::NoAction
            },
            Event::Resize(width, height) => HelpCommand::Resize(resized(width, height)),
            Event::Other => HelpCommand::NoAction,
        }
    }

    /// Decodes an event. It never fails.
    pub fn try_from(event: Event) -> (result: Result<HelpCommand, String>)
        ensures
            result == Ok::<HelpCommand, String>(HelpCommand::decoded(event)),
    {
        match event {
            Event::Key(KeyEvent { code, modifiers, .. }) => match code {
                KeyCode::Esc => Ok(HelpCommand::Exit),
                KeyCode::Char(c) => if c == 'h' && modifiers.only_control() {
                    Ok(HelpCommand::Exit)
                } else {
                    Ok(HelpCommand::NoAction)
                },
                _ => Ok(HelpCommand::NoAction),
            },
            Event::Resize(width, height) => Ok(HelpCommand::Resize(size_of(width, height))),
            Event::Other => Ok(HelpCommand::NoAction),
        }
    }
}

} // verus!
