//! The editing engine: a buffer, a cursor on it, and a viewport that is
//! kept around the cursor whatever is done to either.

use crate::buffer::{
    backward_target, cursor_after_paste, delete_index, forward_target, line_after_delete,
    lines_after_insert, lines_after_join, lines_after_new_line, lines_after_paste,
    lemma_paste_keeps_rows, lines_after_split, lines_after_tab, loaded_lines, moved_to, paste_base,
    tab_before, tab_count,
    Buffer, BufferView, TAB_WIDTH,
};
use crate::editorcommands::{settled_on_row, EditorCommand};
use crate::line::{rendered, visible};
use crate::text::{lines_of, split_lines};
use vstd::utf8::encode_utf8;
use crate::coordinate::{
    displacement, in_view, offset_after_follow, snap_left, snap_top, text_columns, text_rows,
    Location, Position, ScreenOffset, Size,
};
use vstd::string::StringExecFns;
use crate::editorcommands::{after_move, on_text, row_width, Direction};
use crate::line::{
    clamp_columns, fragment_of, index_at, lemma_total_width_concat, lemma_total_width_insert,
    total_width, FragmentView, TextFragment,
};
use vstd::prelude::*;
use vstd::view::View as _;

verus! {

/// The rows at the bottom of the screen that are kept for the status line
/// and for prompts.
pub const RESERVED_ROWS: usize = 2;

/// Whether `position` is a place the cursor can be in a buffer of `lines`:
/// the origin of an empty buffer, or on a row and no further right than
/// the end of that row.
pub open spec fn cursor_ok(position: Position, lines: Seq<Seq<FragmentView>>) -> bool {
    if lines.len() == 0 {
        position.height == 0 && position.width == 0
    } else {
        on_text(position, lines)
    }
}

/// The fragment index the cursor stands before.
pub open spec fn cursor_index(position: Position, lines: Seq<Seq<FragmentView>>) -> int {
    if lines.len() == 0 {
        0
    } else {
        index_at(lines[position.height as int], position.width as nat)
    }
}

/// The view after it has followed the cursor, with the rows at the
/// bottom of the screen kept free.
pub open spec fn offset_after_check(
    position: Position,
    offset: ScreenOffset,
    size: Size,
    total: int,
) -> ScreenOffset {
    offset_after_follow(position, offset, size, RESERVED_ROWS, total)
}

/// The columns a delete with the cursor before fragment `index` takes
/// from the row: 4 for a tab, else the width of the fragment that goes.
pub open spec fn removed_columns(row: Seq<FragmentView>, index: int) -> int {
    if tab_before(row, index) {
        TAB_WIDTH as int
    } else {
        row[delete_index(index)].render_width.columns() as int
    }
}

/// `column`, but no further right than the end of row `row`.
pub open spec fn kept_on_row(column: int, lines: Seq<Seq<FragmentView>>, row: int) -> usize {
    if column < 0 {
        0
    } else if column <= row_width(lines, row) {
        column as usize
    } else {
        row_width(lines, row)
    }
}

/// The column a cursor is put in on a fresh row: right after the row's
/// indentation.
pub open spec fn indent_column(row: Seq<FragmentView>) -> int {
    if tab_before(row, TAB_WIDTH as int) {
        TAB_WIDTH * tab_count(encode_utf8(rendered(row)))
    } else {
        0
    }
}

/// How much of the screen a command leaves to be drawn again.
#[derive(Copy, Clone, Debug, PartialEq, Eq, Structural)]
pub enum Redraw {
    /// Nothing changed on screen.
    Nothing,
    /// The cursor moved within the view: the cursor and the status line.
    Cursor,
    /// The cursor's row alone.
    Line,
    /// From the row above the cursor to the bottom of the text area.
    Below,
    /// The whole screen.
    Screen,
}

/// What one row of the screen shows.
#[derive(Debug)]
pub enum RowContent {
    /// A row of the buffer, cut to the columns in view.
    Text(String),
    /// The greeting an empty buffer shows a third of the way down.
    Welcome,
    /// The mark of a row below the end of the buffer.
    Tilde,
}

/// A row of the screen and what to draw there.
#[derive(Debug)]
pub struct ScreenRow {
    pub row: usize,
    pub content: RowContent,
}

/// The sum of two sizes held in a `usize`, stopping at `usize::MAX`.
pub open spec fn capped_sum(a: usize, b: usize) -> usize {
    if a + b <= usize::MAX {
        (a + b) as usize
    } else {
        usize::MAX
    }
}

/// The first buffer row a render draws: the top of the view, or for a
/// partial render the row above the cursor.
pub open spec fn first_drawn(position: Position, offset: ScreenOffset, full_screen: bool) -> usize {
    if full_screen {
        offset.height
    } else if position.height >= 1 {
        (position.height - 1) as usize
    } else {
        0
    }
}

/// The buffer row at which a render stops: the last row of the screen is
/// left to the status line.
pub open spec fn drawn_end(offset: ScreenOffset, size: Size) -> usize {
    let bottom = capped_sum(offset.height, size.height);
    if bottom >= 1 {
        (bottom - 1) as usize
    } else {
        0
    }
}

/// Whether `drawn` is what a render shows for buffer row `current`.
pub open spec fn shows_row(
    drawn: ScreenRow,
    lines: Seq<Seq<FragmentView>>,
    offset: ScreenOffset,
    size: Size,
    current: int,
) -> bool {
    &&& drawn.row == if current >= offset.height {
        current - offset.height
    } else {
        0
    }
    &&& if current < lines.len() {
        match drawn.content {
            RowContent::Text(text) => text@ == visible(
                lines[current],
                offset.width as nat,
                capped_sum(offset.width, size.width) as nat,
            ),
            _ => false,
        }
    } else if lines.len() == 0 && current == size.height / 3 {
        drawn.content is Welcome
    } else {
        drawn.content is Tilde
    }
}

/// A cursor within the text area of the view is on the screen, as long as
/// the screen has a row and a column at all.
pub proof fn lemma_settled_cursor_is_on_screen(
    position: Position,
    offset: ScreenOffset,
    size: Size,
)
    requires
        in_view(position, offset, size, RESERVED_ROWS),
        size.height >= 1,
        size.width >= 1,
    ensures
        offset.height <= position.height < offset.height + size.height,
        offset.width <= position.width < offset.width + size.width,
{
}

/// What a command asks of whoever drives the engine, beyond what the
/// engine does itself.
#[derive(Copy, Clone, Debug, PartialEq, Eq, Structural)]
pub enum Request {
    Nothing,
    Save,
    Paste,
    VimMode,
    Highlight,
    Search,
    JumpLine,
    Help,
    Theme,
}

/// What became of a command.
#[derive(Copy, Clone, Debug, PartialEq, Eq, Structural)]
pub struct Outcome {
    /// False when the command asks to leave the editor.
    pub keep_running: bool,
    pub redraw: Redraw,
    pub request: Request,
}

/// What a command leaves for its driver to do.
pub open spec fn request_of(command: EditorCommand) -> Request {
    match command {
        EditorCommand::Save => Request::Save,
        EditorCommand::Paste => Request::Paste,
        EditorCommand::VimMode => Request::VimMode,
        EditorCommand::Highlight => Request::Highlight,
        EditorCommand::Search => Request::Search,
        EditorCommand::JumpLine => Request::JumpLine,
        EditorCommand::Help => Request::Help,
        EditorCommand::Theme => Request::Theme,
        _ => Request::Nothing,
    }
}

/// The lines and the cursor after a backspace. Nothing happens in an empty
/// buffer or at the origin. In column 0 the row is joined to the row above
/// and the cursor goes to where that row ended. Elsewhere a tab or a
/// fragment left of the cursor goes, and the cursor moves left by what
/// went.
pub open spec fn after_deletion(lines: Seq<Seq<FragmentView>>, cursor: Position) -> (
    Seq<Seq<FragmentView>>,
    Position,
) {
    let row = cursor.height as int;
    if lines.len() == 0 || (cursor.height == 0 && cursor.width == 0) {
        (lines, cursor)
    } else if cursor.width == 0 {
        (
            lines_after_join(lines, row),
            Position { height: (row - 1) as usize, width: row_width(lines, row - 1), max_width: 0 },
        )
    } else {
        let index = cursor_index(cursor, lines);
        let left = lines.update(row, line_after_delete(lines[row], index));
        (
            left,
            Position {
                width: kept_on_row(cursor.width - removed_columns(lines[row], index), left, row),
                max_width: 0,
                ..cursor
            },
        )
    }
}

/// The lines and the cursor after the line is broken at the cursor.
pub open spec fn after_new_line(lines: Seq<Seq<FragmentView>>, cursor: Position) -> (
    Seq<Seq<FragmentView>>,
    Position,
) {
    let row = cursor.height as int;
    let broken = if lines.len() == 0 || cursor.width >= row_width(lines, row) {
        lines_after_new_line(lines, row)
    } else {
        lines_after_split(lines, row, cursor_index(cursor, lines))
    };
    (
        broken,
        Position {
            height: (row + 1) as usize,
            width: kept_on_row(indent_column(broken[row + 1]), broken, row + 1),
            max_width: 0,
        },
    )
}

/// The cursor after a jump to the next or the previous word.
pub open spec fn after_jump_word(lines: Seq<Seq<FragmentView>>, cursor: Position, dir: Direction) -> Position {
    if lines.len() == 0 || (dir != Direction::Right && dir != Direction::Left) {
        cursor
    } else {
        let target = if dir == Direction::Right {
            forward_target(lines, cursor.height as int, cursor.width as int, false)
        } else {
            backward_target(lines, cursor.height as int, cursor.width as int)
        };
        let landed = moved_to(cursor, target);
        Position {
            width: kept_on_row(landed.width as int, lines, landed.height as int),
            max_width: 0,
            ..landed
        }
    }
}

/// The lines and the cursor after a paste of the lines `parts`.
pub open spec fn after_paste(lines: Seq<Seq<FragmentView>>, cursor: Position, parts: Seq<Seq<char>>) -> (
    Seq<Seq<FragmentView>>,
    Position,
) {
    if parts.len() == 0 {
        (lines, cursor)
    } else {
        let index = cursor_index(cursor, lines);
        let start = Position { width: index as usize, max_width: 0, ..cursor };
        let pasted = lines_after_paste(
            paste_base(lines),
            cursor.height as int,
            index,
            parts,
            parts.len() as int,
        );
        let landed = cursor_after_paste(lines, start, parts);
        (
            pasted,
            Position {
                width: kept_on_row(landed.width as int, pasted, landed.height as int),
                max_width: 0,
                ..landed
            },
        )
    }
}

/// The lines and the cursor after a command of the default mode. Commands
/// that only ask something of the driver change neither.
pub open spec fn edited(lines: Seq<Seq<FragmentView>>, cursor: Position, command: EditorCommand) -> (
    Seq<Seq<FragmentView>>,
    Position,
) {
    match command {
        EditorCommand::Move(direction) => (
            lines,
            if lines.len() == 0 {
                Position { width: 0, height: 0, max_width: 0 }
            } else {
                after_move(direction, cursor, lines)
            },
        ),
        EditorCommand::Insert(c) => (
            lines_after_insert(lines, cursor.height as int, cursor_index(cursor, lines), c),
            Position {
                width: clamp_columns(
                    (cursor.width + fragment_of(seq![c]).render_width.columns()) as nat,
                ),
                max_width: 0,
                ..cursor
            },
        ),
        EditorCommand::Tab => {
            let tabbed = lines_after_tab(
                lines,
                cursor.height as int,
                cursor_index(cursor, lines) as usize,
                1,
            );
            (
                tabbed,
                Position {
                    width: kept_on_row(cursor.width + TAB_WIDTH, tabbed, cursor.height as int),
                    max_width: 0,
                    ..cursor
                },
            )
        },
        EditorCommand::Delete => after_deletion(lines, cursor),
        EditorCommand::NewLine => after_new_line(lines, cursor),
        EditorCommand::JumpWord(direction) => (lines, after_jump_word(lines, cursor, direction)),
        _ => (lines, cursor),
    }
}

/// Whether a command changes the text.
pub open spec fn edits(lines: Seq<Seq<FragmentView>>, cursor: Position, command: EditorCommand) -> bool {
    match command {
        EditorCommand::Insert(_) | EditorCommand::Tab | EditorCommand::NewLine => true,
        EditorCommand::Delete => !(lines.len() == 0 || (cursor.height == 0 && cursor.width == 0)),
        _ => false,
    }
}

/// Pastes `paste_text` into `buffer` before the fragment `cursor` stands
/// before, moves the cursor to the end of what went in, and says whether
/// anything went in.
pub fn paste_at(buffer: &mut Buffer, cursor: &mut Position, paste_text: &str) -> (pasted: bool)
    requires
        old(buffer).wf(),
        cursor_ok(*old(cursor), old(buffer)@.lines),
    ensures
        final(buffer).wf(),
        cursor_ok(*final(cursor), final(buffer)@.lines),
        pasted == (lines_of(paste_text@).len() > 0),
        (final(buffer)@.lines, *final(cursor)) == after_paste(
            old(buffer)@.lines,
            *old(cursor),
            lines_of(paste_text@),
        ),
        final(buffer)@.filename == old(buffer)@.filename,
        final(buffer)@.is_saved == (old(buffer)@.is_saved && !pasted),
{
    let parts = split_lines(paste_text);
    if parts.len() == 0 {
        return false;
    }
    let index = if buffer.is_empty() {
        0
    } else {
        buffer.text[cursor.height].fragment_index(cursor.width)
    };
    let mut at = Position { height: cursor.height, width: index, max_width: 0 };
    let ghost before = buffer@.lines;
    buffer.add_text_from_clipboard(paste_text, &mut at);
    proof {
        lemma_paste_keeps_rows(
            paste_base(before),
            cursor.height as int,
            index as int,
            lines_of(paste_text@),
            lines_of(paste_text@).len() as int,
        );
        assert(buffer@.lines.len() == buffer.text.len());
    }
    let width = buffer.text[at.height].grapheme_len();
    *cursor = Position {
        height: at.height,
        width: if at.width <= width {
            at.width
        } else {
            width
        },
        max_width: 0,
    };
    true
}

/// The rows of the text area from buffer row `start` down, as a view at
/// `offset` on a screen of `size` shows them.
pub fn render_rows(buffer: &Buffer, offset: &ScreenOffset, size: &Size, start: usize) -> (rows: Vec<
    ScreenRow,
>)
    ensures
        rows.len() == if start <= drawn_end(*offset, *size) {
            drawn_end(*offset, *size) - start
        } else {
            0
        },
        forall|i: int|
            0 <= i < rows.len() ==> shows_row(
                #[trigger] rows[i],
                buffer@.lines,
                *offset,
                *size,
                start + i,
            ),
{
    let end = offset.height.saturating_add(size.height).saturating_sub(1);
    let right = offset.width.saturating_add(size.width);
    let mut rows: Vec<ScreenRow> = Vec::new();
    let mut current_row = start;
    while current_row < end
        invariant
            start <= current_row,
            current_row <= end || current_row == start,
            rows.len() == current_row - start,
            right == capped_sum(offset.width, size.width),
            forall|i: int|
                0 <= i < rows.len() ==> shows_row(
                    #[trigger] rows[i],
                    buffer@.lines,
                    *offset,
                    *size,
                    start + i,
                ),
        decreases end - current_row,
    {
        let relative_row = current_row.saturating_sub(offset.height);
        assert(buffer@.lines.len() == buffer.text.len());
        let content = if current_row < buffer.text.len() {
            RowContent::Text(buffer.text[current_row].get_line_subset(offset.width..right))
        } else if buffer.is_empty() && current_row == size.height / 3 {
            RowContent::Welcome
        } else {
            RowContent::Tilde
        };
        rows.push(ScreenRow { row: relative_row, content });
        current_row += 1;
    }
    rows
}

/// How much of the screen a command of the default mode leaves to be
/// drawn again, given how far outside the view the cursor came to lie.
///
/// A view that had to move is drawn whole. Where it stayed, a move needs
/// the cursor alone, a typed character its row, and a line break or a
/// delete the rows from the cursor's neighbour down.
pub open spec fn redraw_of(command: EditorCommand, distance: int, edited: bool) -> Redraw {
    match command {
        EditorCommand::Move(_) | EditorCommand::JumpWord(_) => if distance == 0 {
            Redraw::Cursor
        } else {
            Redraw::Screen
        },
        EditorCommand::Insert(_) | EditorCommand::Tab => if distance == 0 {
            Redraw::Line
        } else {
            Redraw::Screen
        },
        EditorCommand::NewLine => if distance > 1 {
            Redraw::Screen
        } else {
            Redraw::Below
        },
        EditorCommand::Delete => if distance > 0 {
            Redraw::Screen
        } else if edited {
            Redraw::Below
        } else {
            Redraw::Nothing
        },
        EditorCommand::Resize(_) => Redraw::Screen,
        _ => if distance == 0 {
            Redraw::Nothing
        } else {
            Redraw::Screen
        },
    }
}

/// The engine's state.
#[derive(Debug)]
pub struct View {
    pub size: Size,
    pub cursor_position: Position,
    pub screen_offset: ScreenOffset,
    pub needs_redraw: bool,
    pub buffer: Buffer,
}

/// What a command of the default mode does to the engine, and what comes
/// back from it: the text and the cursor change as the command says, the
/// view follows the cursor, and what the engine cannot do by itself is
/// handed back as a request.
pub open spec fn view_handled(before: View, after: View, command: EditorCommand, outcome: Outcome) -> bool {
    &&& after.needs_redraw
    &&& outcome.keep_running == (command != EditorCommand::Quit)
    &&& outcome.request == request_of(command)
    &&& outcome.redraw == redraw_of(
        command,
        displacement(
            after.cursor_position,
            before.screen_offset,
            before.size,
            RESERVED_ROWS,
        ),
        edits(before.buffer@.lines, before.cursor_position, command),
    )
    &&& (after.buffer@.lines, after.cursor_position) == edited(
        before.buffer@.lines,
        before.cursor_position,
        command,
    )
    &&& after.buffer@.filename == before.buffer@.filename
    &&& after.buffer@.is_saved == (before.buffer@.is_saved && !edits(
        before.buffer@.lines,
        before.cursor_position,
        command,
    ))
    &&& after.size == match command {
        EditorCommand::Resize(size) => size,
        _ => before.size,
    }
    &&& after.screen_offset == match command {
        EditorCommand::Resize(size) => ScreenOffset {
            height: snap_top(
                before.cursor_position.height as int,
                text_rows(size, RESERVED_ROWS),
                before.buffer@.lines.len() as int,
            ) as usize,
            width: snap_left(
                before.cursor_position.width as int,
                text_columns(size),
            ) as usize,
        },
        _ => offset_after_check(
            after.cursor_position,
            before.screen_offset,
            before.size,
            after.buffer@.lines.len() as int,
        ),
    }
}

impl View {
    /// The buffer is well formed and the cursor is a place in it.
    pub open spec fn wf(&self) -> bool {
        &&& self.buffer.wf()
        &&& cursor_ok(self.cursor_position, self.buffer@.lines)
    }

    /// The cursor lies within the text area of the view.
    pub open spec fn settled(&self) -> bool {
        in_view(self.cursor_position, self.screen_offset, self.size, RESERVED_ROWS)
    }

    /// An engine with an empty, unnamed buffer on a terminal of `size`.
    pub fn new(size: Size) -> (view: View)
        ensures
            view.wf(),
            view.settled(),
            view.size == size,
            view.needs_redraw,
            view.cursor_position == (Position { width: 0, height: 0, max_width: 0 }),
            view.screen_offset == (ScreenOffset { width: 0, height: 0 }),
            view.buffer@ == (BufferView { lines: Seq::empty(), filename: None, is_saved: false }),
    {
        View {
            size,
            cursor_position: Position::default(),
            screen_offset: ScreenOffset::default(),
            needs_redraw: true,
            buffer: Buffer::default(),
        }
    }

    /// Brings the view back around the cursor and says how far outside
    /// the cursor was: not at all, one step, or further.
    pub fn check_offset(&mut self) -> (distance: usize)
        ensures
            distance == displacement(
                old(self).cursor_position,
                old(self).screen_offset,
                old(self).size,
                RESERVED_ROWS,
            ),
            final(self).screen_offset == offset_after_check(
                old(self).cursor_position,
                old(self).screen_offset,
                old(self).size,
                old(self).buffer@.lines.len() as int,
            ),
            final(self).settled(),
            final(self).size == old(self).size,
            final(self).cursor_position == old(self).cursor_position,
            final(self).buffer == old(self).buffer,
            final(self).needs_redraw == old(self).needs_redraw,
    {
        self.screen_offset.follow(
            &self.cursor_position,
            &self.size,
            RESERVED_ROWS,
            self.buffer.len(),
        )
    }

    /// Takes on a new terminal size and places the view afresh.
    pub fn resize(&mut self, size: Size)
        ensures
            final(self).size == size,
            final(self).settled(),
            final(self).screen_offset == (ScreenOffset {
                height: snap_top(
                    old(self).cursor_position.height as int,
                    text_rows(size, RESERVED_ROWS),
                    old(self).buffer@.lines.len() as int,
                ) as usize,
                width: snap_left(old(self).cursor_position.width as int, text_columns(size)) as usize,
            }),
            final(self).cursor_position == old(self).cursor_position,
            final(self).buffer == old(self).buffer,
            final(self).needs_redraw == old(self).needs_redraw,
    {
        self.size = size;
        self.screen_offset.handle_offset_screen_snap(
            &self.cursor_position,
            &self.size,
            RESERVED_ROWS,
            self.buffer.len(),
        );
    }

    /// Moves the cursor one step. In an empty buffer the cursor goes to
    /// the origin.
    pub fn move_cursor(&mut self, key_code: Direction)
        requires
            old(self).wf(),
        ensures
            final(self).wf(),
            final(self).cursor_position == if old(self).buffer@.lines.len() == 0 {
                Position { width: 0, height: 0, max_width: 0 }
            } else {
                after_move(key_code, old(self).cursor_position, old(self).buffer@.lines)
            },
            final(self).size == old(self).size,
            final(self).screen_offset == old(self).screen_offset,
            final(self).buffer == old(self).buffer,
            final(self).needs_redraw == old(self).needs_redraw,
    {
        if self.buffer.is_empty() {
            self.cursor_position = Position::default();
        } else {
            proof {
                assert(self.buffer@.lines.len() == self.buffer.text.len());
                crate::editorcommands::lemma_move_stays_on_text(
                    key_code,
                    self.cursor_position,
                    self.buffer@.lines,
                );
            }
            key_code.move_cursor(&mut self.cursor_position, &self.buffer);
        }
    }

    fn index_under_cursor(&self) -> (index: usize)
        requires
            self.wf(),
        ensures
            index == cursor_index(self.cursor_position, self.buffer@.lines),
            self.buffer@.lines.len() > 0 ==> index <= self.buffer@.lines[self.cursor_position.height as int].len(),
            self.buffer@.lines.len() == 0 ==> index == 0,
    {
        if self.buffer.is_empty() {
            0
        } else {
            self.buffer.text[self.cursor_position.height].fragment_index(
                self.cursor_position.width,
            )
        }
    }

    /// Types a character at the cursor: it goes in before the fragment the
    /// cursor stands before, and the cursor moves right by its width.
    pub fn insert_char(&mut self, insert_char: char)
        requires
            old(self).wf(),
        ensures
            final(self).wf(),
            final(self).buffer@ == (BufferView {
                lines: lines_after_insert(
                    old(self).buffer@.lines,
                    old(self).cursor_position.height as int,
                    cursor_index(old(self).cursor_position, old(self).buffer@.lines),
                    insert_char,
                ),
                is_saved: false,
                ..old(self).buffer@
            }),
            final(self).cursor_position == (Position {
                width: clamp_columns(
                    (old(self).cursor_position.width + fragment_of(
                        seq![insert_char],
                    ).render_width.columns()) as nat,
                ),
                max_width: 0,
                ..old(self).cursor_position
            }),
            final(self).size == old(self).size,
            final(self).screen_offset == old(self).screen_offset,
            final(self).needs_redraw == old(self).needs_redraw,
    {
        let index = self.index_under_cursor();
        let columns = TextFragment::from_char(insert_char).render_width.count();
        let mut at = Position { height: self.cursor_position.height, width: index, max_width: 0 };
        let ghost before = self.buffer@.lines;
        self.buffer.update_line_insert(&mut at, insert_char);
        proof {
            let fragment = fragment_of(seq![insert_char]);
            if before.len() > 0 {
                let row = before[self.cursor_position.height as int];
                lemma_total_width_insert(row, index as int, fragment);
            } else {
                lemma_total_width_insert(Seq::<FragmentView>::empty(), 0, fragment);
                assert(Seq::<FragmentView>::empty().insert(0, fragment) =~= seq![fragment]);
            }
        }
        self.cursor_position.width = self.cursor_position.width.saturating_add(columns);
        self.cursor_position.max_width = 0;
    }

    /// Puts a tab in at the cursor and moves the cursor right by 4, but no
    /// further than the end of the row.
    pub fn insert_tab(&mut self)
        requires
            old(self).wf(),
        ensures
            final(self).wf(),
            final(self).buffer@ == (BufferView {
                lines: lines_after_tab(
                    old(self).buffer@.lines,
                    old(self).cursor_position.height as int,
                    cursor_index(old(self).cursor_position, old(self).buffer@.lines) as usize,
                    1,
                ),
                is_saved: false,
                ..old(self).buffer@
            }),
            final(self).cursor_position == (Position {
                width: if old(self).cursor_position.width + TAB_WIDTH <= row_width(
                    final(self).buffer@.lines,
                    old(self).cursor_position.height as int,
                ) {
                    (old(self).cursor_position.width + TAB_WIDTH) as usize
                } else {
                    row_width(final(self).buffer@.lines, old(self).cursor_position.height as int)
                },
                max_width: 0,
                ..old(self).cursor_position
            }),
            final(self).size == old(self).size,
            final(self).screen_offset == old(self).screen_offset,
            final(self).needs_redraw == old(self).needs_redraw,
    {
        let index = self.index_under_cursor();
        let at = Position { height: self.cursor_position.height, width: index, max_width: 0 };
        let ghost before = self.buffer@.lines;
        self.buffer.insert_tab(&at, 1);
        assert(self.buffer@.lines.len() == self.buffer.text.len());
        assert(self.buffer@.lines.len() == if before.len() == 0 {
            1
        } else {
            before.len()
        });
        let width = self.buffer.text[self.cursor_position.height].grapheme_len();
        let target = self.cursor_position.width.saturating_add(TAB_WIDTH);
        self.cursor_position.width = if target <= width {
            target
        } else {
            width
        };
        self.cursor_position.max_width = 0;
    }

    /// Deletes left of the cursor on a row that holds something: a whole
    /// tab where one lies there, else one fragment. The cursor moves left
    /// by what went.
    pub fn delete_char(&mut self)
        requires
            old(self).wf(),
            old(self).buffer@.lines.len() > 0,
            old(self).buffer@.lines[old(self).cursor_position.height as int].len() > 0,
        ensures
            final(self).wf(),
            final(self).buffer@ == (BufferView {
                lines: old(self).buffer@.lines.update(
                    old(self).cursor_position.height as int,
                    line_after_delete(
                        old(self).buffer@.lines[old(self).cursor_position.height as int],
                        cursor_index(old(self).cursor_position, old(self).buffer@.lines),
                    ),
                ),
                is_saved: false,
                ..old(self).buffer@
            }),
            final(self).cursor_position == (Position {
                width: kept_on_row(
                    old(self).cursor_position.width - removed_columns(
                        old(self).buffer@.lines[old(self).cursor_position.height as int],
                        cursor_index(old(self).cursor_position, old(self).buffer@.lines),
                    ),
                    final(self).buffer@.lines,
                    old(self).cursor_position.height as int,
                ),
                max_width: 0,
                ..old(self).cursor_position
            }),
            final(self).size == old(self).size,
            final(self).screen_offset == old(self).screen_offset,
            final(self).needs_redraw == old(self).needs_redraw,
    {
        let index = self.index_under_cursor();
        let row = self.cursor_position.height;
        let mut at = Position { height: row, width: index, max_width: 0 };
        assert(self.buffer@.lines[row as int].len() == self.buffer.text[row as int].string.len());
        let columns = if self.buffer.is_tab(&at) {
            TAB_WIDTH
        } else {
            self.buffer.text[row].string[index.saturating_sub(1)].render_width.count()
        };
        self.buffer.update_line_delete(&mut at);
        assert(self.buffer@.lines.len() == self.buffer.text.len());
        let width = self.buffer.text[row].grapheme_len();
        let target = self.cursor_position.width.saturating_sub(columns);
        self.cursor_position.width = if target <= width {
            target
        } else {
            width
        };
        self.cursor_position.max_width = 0;
    }

    /// Breaks the line at the cursor. At the end of the row a new line is
    /// opened below it; elsewhere the row is cut in two before the fragment
    /// the cursor stands before. The cursor goes to the new row, right
    /// after its indentation.
    pub fn new_line(&mut self)
        requires
            old(self).wf(),
        ensures
            final(self).wf(),
            final(self).buffer@ == (BufferView {
                lines: if old(self).buffer@.lines.len() == 0 || old(self).cursor_position.width
                    >= row_width(
                    old(self).buffer@.lines,
                    old(self).cursor_position.height as int,
                ) {
                    lines_after_new_line(
                        old(self).buffer@.lines,
                        old(self).cursor_position.height as int,
                    )
                } else {
                    lines_after_split(
                        old(self).buffer@.lines,
                        old(self).cursor_position.height as int,
                        cursor_index(old(self).cursor_position, old(self).buffer@.lines),
                    )
                },
                is_saved: false,
                ..old(self).buffer@
            }),
            final(self).cursor_position == (Position {
                height: (old(self).cursor_position.height + 1) as usize,
                width: kept_on_row(
                    indent_column(
                        final(self).buffer@.lines[old(self).cursor_position.height + 1],
                    ),
                    final(self).buffer@.lines,
                    old(self).cursor_position.height + 1,
                ),
                max_width: 0,
            }),
            final(self).size == old(self).size,
            final(self).screen_offset == old(self).screen_offset,
            final(self).needs_redraw == old(self).needs_redraw,
    {
        let row = self.cursor_position.height;
        let at_end = self.buffer.is_empty() || self.cursor_position.width
            >= self.buffer.text[row].grapheme_len();
        assert(self.buffer@.lines.len() == self.buffer.text.len());
        if at_end {
            self.buffer.new_line(row);
        } else {
            let index = self.index_under_cursor();
            let at = Position { height: row, width: index, max_width: 0 };
            self.buffer.split_line(&at);
        }
        assert(self.buffer@.lines.len() == self.buffer.text.len());
        let below = row + 1;
        let indent = Position { height: below, width: TAB_WIDTH, max_width: 0 };
        let target = if self.buffer.is_tab(&indent) {
            self.buffer.num_tabs(below) * TAB_WIDTH
        } else {
            0
        };
        let width = self.buffer.text[below].grapheme_len();
        self.cursor_position = Position {
            height: below,
            width: if target <= width {
                target
            } else {
                width
            },
            max_width: 0,
        };
    }

    /// Moves the cursor to the next word (`Right`) or to the previous one
    /// (`Left`), and keeps it on the row it lands on. Other directions do
    /// nothing.
    pub fn jump_word(&mut self, dir: Direction)
        requires
            old(self).wf(),
        ensures
            final(self).wf(),
            final(self).cursor_position == if old(self).buffer@.lines.len() == 0 || (dir
                != Direction::Right && dir != Direction::Left) {
                old(self).cursor_position
            } else {
                let target = if dir == Direction::Right {
                    forward_target(
                        old(self).buffer@.lines,
                        old(self).cursor_position.height as int,
                        old(self).cursor_position.width as int,
                        false,
                    )
                } else {
                    backward_target(
                        old(self).buffer@.lines,
                        old(self).cursor_position.height as int,
                        old(self).cursor_position.width as int,
                    )
                };
                let landed = moved_to(old(self).cursor_position, target);
                Position {
                    width: kept_on_row(
                        landed.width as int,
                        old(self).buffer@.lines,
                        landed.height as int,
                    ),
                    max_width: 0,
                    ..landed
                }
            },
            final(self).size == old(self).size,
            final(self).screen_offset == old(self).screen_offset,
            final(self).buffer == old(self).buffer,
            final(self).needs_redraw == old(self).needs_redraw,
    {
        if self.buffer.is_empty() {
            return ;
        }
        assert(self.buffer@.lines.len() == self.buffer.text.len());
        match dir {
            Direction::Right => {
                self.buffer.find_next_word(&mut self.cursor_position);
            },
            Direction::Left => {
                self.buffer.find_prev_word(&mut self.cursor_position);
            },
            _ => {
                return ;
            },
        }
        let width = self.buffer.text[self.cursor_position.height].grapheme_len();
        if self.cursor_position.width > width {
            self.cursor_position.width = width;
        }
        self.cursor_position.max_width = 0;
    }

    /// Moves the cursor to line number `line`, counted from 1, and to the
    /// last row when the buffer has no such line. The column is settled as
    /// after any vertical move.
    pub fn jump_cursor(&mut self, line: usize)
        requires
            old(self).wf(),
        ensures
            final(self).wf(),
            final(self).cursor_position == if old(self).buffer@.lines.len() == 0 {
                old(self).cursor_position
            } else {
                settled_on_row(
                    old(self).cursor_position,
                    old(self).buffer@.lines,
                    if line >= old(self).buffer@.lines.len() {
                        old(self).buffer@.lines.len() - 1
                    } else if line >= 1 {
                        line - 1
                    } else {
                        0
                    },
                )
            },
            final(self).size == old(self).size,
            final(self).screen_offset == old(self).screen_offset,
            final(self).buffer == old(self).buffer,
            final(self).needs_redraw == old(self).needs_redraw,
    {
        if self.buffer.is_empty() {
            return ;
        }
        assert(self.buffer@.lines.len() == self.buffer.text.len());
        if line < self.buffer.len() {
            self.cursor_position.height = line.saturating_sub(1);
        } else {
            self.cursor_position.page_down(self.buffer.len() - 1);
        }
        self.cursor_position.resolve_width(
            self.buffer.text[self.cursor_position.height].grapheme_len(),
        );
    }

    /// Takes on the buffer of the file `filename`: the lines of
    /// `file_contents` where the file could be read, and an empty buffer
    /// of that name where it could not. The cursor and the view go back to
    /// the origin.
    pub fn load(&mut self, filename: &str, file_contents: Option<&str>)
        ensures
            final(self).wf(),
            final(self).settled(),
            final(self).buffer@ == (match file_contents {
                Some(contents) => BufferView {
                    lines: loaded_lines(contents@),
                    filename: Some(filename@),
                    is_saved: true,
                },
                None => BufferView {
                    lines: Seq::empty(),
                    filename: Some(filename@),
                    is_saved: false,
                },
            }),
            final(self).cursor_position == (Position { width: 0, height: 0, max_width: 0 }),
            final(self).screen_offset == (ScreenOffset { width: 0, height: 0 }),
            final(self).size == old(self).size,
            final(self).needs_redraw,
    {
        match file_contents {
            Some(contents) => {
                self.buffer = Buffer::load(filename, contents);
            },
            None => {
                self.buffer = Buffer::load_named_empty(filename, self.size.height);
            },
        }
        self.cursor_position = Position::default();
        self.screen_offset = ScreenOffset::default();
        self.needs_redraw = true;
    }

    /// Deletes left of the cursor and brings the view back around it.
    pub fn deletion(&mut self) -> (redraw: Redraw)
        requires
            old(self).wf(),
        ensures
            final(self).wf(),
            final(self).settled(),
            (final(self).buffer@.lines, final(self).cursor_position) == after_deletion(
                old(self).buffer@.lines,
                old(self).cursor_position,
            ),
            final(self).buffer@.filename == old(self).buffer@.filename,
            final(self).buffer@.is_saved == (old(self).buffer@.is_saved && !edits(
                old(self).buffer@.lines,
                old(self).cursor_position,
                EditorCommand::Delete,
            )),
            final(self).screen_offset == offset_after_check(
                final(self).cursor_position,
                old(self).screen_offset,
                old(self).size,
                final(self).buffer@.lines.len() as int,
            ),
            final(self).size == old(self).size,
            final(self).needs_redraw == old(self).needs_redraw,
            redraw == if displacement(
                final(self).cursor_position,
                old(self).screen_offset,
                old(self).size,
                RESERVED_ROWS,
            ) > 0 {
                Redraw::Screen
            } else if edits(
                old(self).buffer@.lines,
                old(self).cursor_position,
                EditorCommand::Delete,
            ) {
                Redraw::Below
            } else {
                Redraw::Nothing
            },
    {
        let row = self.cursor_position.height;
        let mut changed = false;
        assert(self.buffer@.lines.len() == self.buffer.text.len());
        if self.buffer.is_empty() || (row == 0 && self.cursor_position.width == 0) {
        } else if self.cursor_position.width == 0 {
            let prev_line_width = self.buffer.text[row - 1].grapheme_len();
            proof {
                let lines = self.buffer@.lines;
                lemma_total_width_concat(lines[row - 1], lines[row as int]);
            }
            self.buffer.join_line(row);
            self.cursor_position.up(1);
            self.cursor_position.set_width(prev_line_width);
            changed = true;
        } else {
            assert(self.buffer@.lines[row as int].len() > 0) by {
                let fragments = self.buffer@.lines[row as int];
                if fragments.len() == 0 {
                    assert(total_width(fragments) == 0);
                }
            }
            self.delete_char();
            changed = true;
        }
        let view_delta = self.check_offset();
        if view_delta > 0 {
            Redraw::Screen
        } else if changed {
            Redraw::Below
        } else {
            Redraw::Nothing
        }
    }

    /// Pastes `paste_text` before the fragment the cursor stands before,
    /// and brings the view back around the cursor.
    pub fn paste(&mut self, paste_text: &str) -> (redraw: Redraw)
        requires
            old(self).wf(),
        ensures
            final(self).wf(),
            final(self).settled(),
            (final(self).buffer@.lines, final(self).cursor_position) == after_paste(
                old(self).buffer@.lines,
                old(self).cursor_position,
                lines_of(paste_text@),
            ),
            final(self).buffer@.filename == old(self).buffer@.filename,
            final(self).buffer@.is_saved == (old(self).buffer@.is_saved && lines_of(
                paste_text@,
            ).len() == 0),
            final(self).screen_offset == offset_after_check(
                final(self).cursor_position,
                old(self).screen_offset,
                old(self).size,
                final(self).buffer@.lines.len() as int,
            ),
            final(self).size == old(self).size,
            final(self).needs_redraw == old(self).needs_redraw,
            redraw == if lines_of(paste_text@).len() == 0 && displacement(
                final(self).cursor_position,
                old(self).screen_offset,
                old(self).size,
                RESERVED_ROWS,
            ) == 0 {
                Redraw::Nothing
            } else {
                Redraw::Screen
            },
    {
        let pasted = paste_at(&mut self.buffer, &mut self.cursor_position, paste_text);
        let view_delta = self.check_offset();
        if !pasted && view_delta == 0 {
            Redraw::Nothing
        } else {
            Redraw::Screen
        }
    }

    /// The rows of the text area to draw: all of them on a full render,
    /// else those from the row above the cursor down. Each buffer row is
    /// cut to the columns in view; rows below the end of the buffer show a
    /// tilde, and an empty buffer shows its greeting a third of the way
    /// down the screen.
    pub fn render(&mut self, full_screen: bool) -> (rows: Vec<ScreenRow>)
        ensures
            rows.len() == if first_drawn(
                old(self).cursor_position,
                old(self).screen_offset,
                full_screen,
            ) <= drawn_end(old(self).screen_offset, old(self).size) {
                drawn_end(old(self).screen_offset, old(self).size) - first_drawn(
                    old(self).cursor_position,
                    old(self).screen_offset,
                    full_screen,
                )
            } else {
                0
            },
            forall|i: int|
                0 <= i < rows.len() ==> shows_row(
                    #[trigger] rows[i],
                    old(self).buffer@.lines,
                    old(self).screen_offset,
                    old(self).size,
                    first_drawn(old(self).cursor_position, old(self).screen_offset, full_screen)
                        + i,
                ),
            !final(self).needs_redraw,
            final(self).size == old(self).size,
            final(self).cursor_position == old(self).cursor_position,
            final(self).screen_offset == old(self).screen_offset,
            final(self).buffer == old(self).buffer,
    {
        let start = if full_screen {
            self.screen_offset.height
        } else {
            self.cursor_position.height.saturating_sub(1)
        };
        let rows = render_rows(&self.buffer, &self.screen_offset, &self.size, start);
        self.needs_redraw = false;
        rows
    }

    /// Brings the view back around the cursor after an edit on the
    /// cursor's row, and says what to draw: the row alone when the view
    /// stayed, the whole screen when it moved.
    pub fn evaluate_view_state_change(&mut self) -> (redraw: Redraw)
        ensures
            final(self).settled(),
            final(self).screen_offset == offset_after_check(
                old(self).cursor_position,
                old(self).screen_offset,
                old(self).size,
                old(self).buffer@.lines.len() as int,
            ),
            redraw == if displacement(
                old(self).cursor_position,
                old(self).screen_offset,
                old(self).size,
                RESERVED_ROWS,
            ) == 0 {
                Redraw::Line
            } else {
                Redraw::Screen
            },
            final(self).size == old(self).size,
            final(self).cursor_position == old(self).cursor_position,
            final(self).buffer == old(self).buffer,
            final(self).needs_redraw == old(self).needs_redraw,
    {
        let view_delta = self.check_offset();
        if view_delta == 0 {
            Redraw::Line
        } else {
            Redraw::Screen
        }
    }

    /// Carries out a command of the default mode. The engine edits and
    /// moves by itself and brings the view back around the cursor; what it
    /// cannot do by itself it hands back as a request.
    pub fn handle_event(&mut self, command: EditorCommand) -> (outcome: Outcome)
        requires
            old(self).wf(),
        ensures
            final(self).wf(),
            final(self).settled(),
            view_handled(*old(self), *final(self), command, outcome),
    {
        let mut keep_running = true;
        let mut request = Request::Nothing;
        let redraw = match command {
            EditorCommand::Move(direction) => {
                self.move_cursor(direction);
                if self.check_offset() == 0 {
                    Redraw::Cursor
                } else {
                    Redraw::Screen
                }
            },
            EditorCommand::Insert(c) => {
                self.insert_char(c);
                self.evaluate_view_state_change()
            },
            EditorCommand::Delete => self.deletion(),
            EditorCommand::Tab => {
                self.insert_tab();
                self.evaluate_view_state_change()
            },
            EditorCommand::NewLine => {
                self.new_line();
                if self.check_offset() > 1 {
                    Redraw::Screen
                } else {
                    Redraw::Below
                }
            },
            EditorCommand::JumpWord(direction) => {
                self.jump_word(direction);
                if self.check_offset() == 0 {
                    Redraw::Cursor
                } else {
                    Redraw::Screen
                }
            },
            EditorCommand::Resize(size) => {
                self.resize(size);
                Redraw::Screen
            },
            EditorCommand::Quit => {
                keep_running = false;
                self.settle()
            },
            EditorCommand::Save => {
                request = Request::Save;
                self.settle()
            },
            EditorCommand::Paste => {
                request = Request::Paste;
                self.settle()
            },
            EditorCommand::VimMode => {
                request = Request::VimMode;
                self.settle()
            },
            EditorCommand::Highlight => {
                request = Request::Highlight;
                self.settle()
            },
            EditorCommand::Search => {
                request = Request::Search;
                self.settle()
            },
            EditorCommand::JumpLine => {
                request = Request::JumpLine;
                self.settle()
            },
            EditorCommand::Help => {
                request = Request::Help;
                self.settle()
            },
            EditorCommand::Theme => {
                request = Request::Theme;
                self.settle()
            },
            EditorCommand::NoAction => self.settle(),
        };
        self.needs_redraw = true;
        Outcome { keep_running, redraw, request }
    }

    fn settle(&mut self) -> (redraw: Redraw)
        ensures
            final(self).settled(),
            redraw == if displacement(
                old(self).cursor_position,
                old(self).screen_offset,
                old(self).size,
                RESERVED_ROWS,
            ) == 0 {
                Redraw::Nothing
            } else {
                Redraw::Screen
            },
            final(self).screen_offset == offset_after_check(
                old(self).cursor_position,
                old(self).screen_offset,
                old(self).size,
                old(self).buffer@.lines.len() as int,
            ),
            final(self).size == old(self).size,
            final(self).cursor_position == old(self).cursor_position,
            final(self).buffer == old(self).buffer,
            final(self).needs_redraw == old(self).needs_redraw,
    {
        if self.check_offset() == 0 {
            Redraw::Nothing
        } else {
            Redraw::Screen
        }
    }

    /// Takes on the file name typed at the prompt.
    pub fn get_file_name(&mut self, filename: String)
        ensures
            final(self).buffer@ == (BufferView { filename: Some(filename@), ..old(self).buffer@ }),
            final(self).buffer.text == old(self).buffer.text,
            final(self).needs_redraw,
            final(self).size == old(self).size,
            final(self).cursor_position == old(self).cursor_position,
            final(self).screen_offset == old(self).screen_offset,
    {
        self.buffer.assume_file_name(filename);
        self.needs_redraw = true;
    }

    /// What the file name prompt shows: the line of text, and the screen
    /// cell the cursor is in.
    pub fn render_filename_screen(curr_filename: &str, curr_position: usize) -> (shown: (
        String,
        Location,
    ))
        ensures
            shown.0@ == "Filename: "@ + curr_filename@,
            shown.1 == (Location { x: curr_position, y: 0 }),
    {
        let mut line = "Filename: ".to_owned();
        line.append(curr_filename);
        (line, Location { x: curr_position, y: 0 })
    }
}

} // verus!
