//! Selection: an anchor where the mode was entered, an end that moves with
//! the cursor, and what can be done with the text between them.

use crate::buffer::{lines_after_selection, segment_ok, segment_text, Buffer, BufferView};
use crate::coordinate::{in_view, offset_after_follow, Position, ScreenOffset, Size};
use crate::editorcommands::{after_move, lemma_move_stays_on_text, HighlightCommand};
use crate::view::{cursor_ok, kept_on_row, RESERVED_ROWS};
use vstd::prelude::*;

verus! {

/// Whether `a` comes no later in the text than `b`: on an earlier row, or
/// on the same row and no further right.
pub open spec fn no_later(a: Position, b: Position) -> bool {
    a.height < b.height || (a.height == b.height && a.width <= b.width)
}

/// The two ends of a selection in the order they come in the text.
pub open spec fn ordered(anchor: Position, end: Position) -> (Position, Position) {
    if no_later(anchor, end) {
        (anchor, end)
    } else {
        (end, anchor)
    }
}

/// The part of buffer row `row` that the selection from `ends.0` to
/// `ends.1` covers, as screen columns `first..last` of a view at `offset`.
/// A row outside the selection has the empty part `0..0`. On the first
/// row of the selection the part begins at the selection's start, on
/// every other row at the left edge; on the last row it ends before the
/// selection's end, on every other row it runs as far as columns go.
/// Columns left of the view count as column 0, and the part never ends
/// before it begins.
pub open spec fn selected_columns(row: usize, offset: ScreenOffset, ends: (Position, Position)) -> (
    usize,
    usize,
) {
    if row < ends.0.height || row > ends.1.height {
        (0, 0)
    } else {
        let first = if row != ends.0.height || ends.0.width < offset.width {
            0
        } else {
            (ends.0.width - offset.width) as usize
        };
        let last = if row != ends.1.height {
            usize::MAX
        } else if ends.1.width < offset.width {
            0
        } else {
            (ends.1.width - offset.width) as usize
        };
        (
            first,
            if last >= first {
                last
            } else {
                first
            },
        )
    }
}

/// The screen columns of buffer row `row` that the selection from
/// `ends.0` to `ends.1` covers.
pub fn selected_span(row: usize, offset: &ScreenOffset, ends: (Position, Position)) -> (span: (
    usize,
    usize,
))
    ensures
        span == selected_columns(row, *offset, ends),
{
    let (start, end) = ends;
    if row < start.height || row > end.height {
        return (0, 0);
    }
    let first = if row == start.height {
        start.width.saturating_sub(offset.width)
    } else {
        0
    };
    let last = if row == end.height {
        end.width.saturating_sub(offset.width)
    } else {
        usize::MAX
    };
    (
        first,
        if last >= first {
            last
        } else {
            first
        },
    )
}

/// What became of a command of the highlight mode.
#[derive(Debug)]
pub enum HighlightStep {
    /// The mode goes on.
    Continue,
    /// The mode is over, and this text goes to the clipboard.
    Copy(String),
    /// The mode is over.
    Exit,
}

/// A selection.
#[derive(Copy, Clone, Debug, PartialEq, Eq, Structural)]
pub struct Highlight {
    /// Where the cursor was when the mode was entered.
    pub anchor: Position,
    /// Where the cursor is now.
    pub end: Position,
}

/// How a command changes a selection, and with it the cursor, the view,
/// the size and the buffer, each given as it was before and as it is
/// after.
///
/// A move takes the end of the selection, and the cursor with it, one step
/// in the direction given, by the rule every mode moves by. Copy ends the
/// mode and hands the selected text back, if it can be cut out. Delete
/// takes the selection out of the buffer, puts the cursor where it began,
/// and ends the mode. Revert ends the mode and leaves everything as it is.
/// After any command the view is where it was if the cursor is still
/// inside, and has followed the cursor if not.
pub open spec fn highlight_stepped(
    before: Highlight,
    after: Highlight,
    command: HighlightCommand,
    cursor: (Position, Position),
    offset: (ScreenOffset, ScreenOffset),
    size: (Size, Size),
    buffer: (Buffer, Buffer),
    step: HighlightStep,
) -> bool {
    let ends = ordered(before.anchor, before.end);
    let lines = buffer.0@.lines;
    &&& size.1 == match command {
        HighlightCommand::Resize(new_size) => new_size,
        _ => size.0,
    }
    &&& offset.1 == offset_after_follow(
        cursor.1,
        offset.0,
        size.1,
        RESERVED_ROWS,
        buffer.1@.lines.len() as int,
    )
    &&& match command {
        HighlightCommand::Move(direction) => {
            &&& step is Continue
            &&& after.anchor == before.anchor
            &&& after.end == if lines.len() == 0 {
                before.end
            } else {
                after_move(direction, before.end, lines)
            }
            &&& cursor.1 == after.end
            &&& buffer.1 == buffer.0
        },
        HighlightCommand::Copy => {
            &&& match step {
                HighlightStep::Copy(text) => segment_ok(lines, ends.0, ends.1) && text@
                    == segment_text(lines, ends.0, ends.1),
                HighlightStep::Exit => !segment_ok(lines, ends.0, ends.1),
                HighlightStep::Continue => false,
            }
            &&& after == before
            &&& cursor.1 == cursor.0
            &&& buffer.1 == buffer.0
        },
        HighlightCommand::Delete => {
            &&& step is Exit
            &&& cursor.1 == after.end
            &&& if lines.len() == 0 {
                after == before && buffer.1 == buffer.0
            } else {
                &&& buffer.1@ == (BufferView {
                    lines: lines_after_selection(lines, ends.0, ends.1),
                    is_saved: false,
                    ..buffer.0@
                })
                &&& after.end == (Position {
                    width: kept_on_row(ends.0.width as int, buffer.1@.lines, ends.0.height as int),
                    max_width: 0,
                    ..ends.0
                })
                &&& after.anchor == after.end
            }
        },
        HighlightCommand::RevertState => {
            &&& step is Exit
            &&& after == before
            &&& cursor.1 == cursor.0
            &&& buffer.1 == buffer.0
        },
        HighlightCommand::Resize(_) | HighlightCommand::NoAction => {
            &&& step is Continue
            &&& after == before
            &&& cursor.1 == cursor.0
            &&& buffer.1 == buffer.0
        },
    }
}

impl Highlight {
    /// A selection that starts and ends at the cursor.
    pub fn new(cursor_position: Position) -> (highlight: Highlight)
        ensures
            highlight == (Highlight { anchor: cursor_position, end: cursor_position }),
    {
        Highlight { anchor: cursor_position, end: cursor_position }
    }

    /// The two ends of the selection in the order they come in the text.
    pub fn extent(&self) -> (ends: (Position, Position))
        ensures
            ends == ordered(self.anchor, self.end),
    {
        if self.anchor.height < self.end.height || (self.anchor.height == self.end.height
            && self.anchor.width <= self.end.width) {
            (self.anchor, self.end)
        } else {
            (self.end, self.anchor)
        }
    }

    /// Carries out one command of the highlight mode, on the cursor, the
    /// view, the size and the buffer it is handed. The view follows the
    /// cursor wherever it goes.
    pub fn handle(
        &mut self,
        command: HighlightCommand,
        cursor_position: &mut Position,
        screen_offset: &mut ScreenOffset,
        size: &mut Size,
        buffer: &mut Buffer,
    ) -> (step: HighlightStep)
        requires
            old(buffer).wf(),
            cursor_ok(old(self).anchor, old(buffer)@.lines),
            cursor_ok(old(self).end, old(buffer)@.lines),
        ensures
            final(buffer).wf(),
            cursor_ok(final(self).anchor, final(buffer)@.lines),
            cursor_ok(final(self).end, final(buffer)@.lines),
            in_view(*final(cursor_position), *final(screen_offset), *final(size), RESERVED_ROWS),
            highlight_stepped(
                *old(self),
                *final(self),
                command,
                (*old(cursor_position), *final(cursor_position)),
                (*old(screen_offset), *final(screen_offset)),
                (*old(size), *final(size)),
                (*old(buffer), *final(buffer)),
                step,
            ),
    {
        let step = match command {
            HighlightCommand::Move(direction) => {
                if !buffer.is_empty() {
                    proof {
                        assert(buffer@.lines.len() == buffer.text.len());
                        lemma_move_stays_on_text(direction, self.end, buffer@.lines);
                    }
                    direction.move_cursor(&mut self.end, buffer);
                }
                *cursor_position = self.end;
                HighlightStep::Continue
            },
            HighlightCommand::Copy => {
                let (start, end) = self.extent();
                if buffer.can_get_segment(&start, &end) {
                    HighlightStep::Copy(buffer.get_segment(&start, &end))
                } else {
                    HighlightStep::Exit
                }
            },
            HighlightCommand::Delete => {
                let (start, end) = self.extent();
                if !buffer.is_empty() {
                    assert(buffer@.lines.len() == buffer.text.len());
                    buffer.delete_selection(&start, &end);
                    assert(buffer@.lines.len() == buffer.text.len());
                    let width = buffer.text[start.height].grapheme_len();
                    self.end = Position {
                        height: start.height,
                        width: if start.width <= width {
                            start.width
                        } else {
                            width
                        },
                        max_width: 0,
                    };
                    self.anchor = self.end;
                }
                *cursor_position = self.end;
                HighlightStep::Exit
            },
            HighlightCommand::RevertState => HighlightStep::Exit,
            HighlightCommand::Resize(new_size) => {
                *size = new_size;
                HighlightStep::Continue
            },
            HighlightCommand::NoAction => HighlightStep::Continue,
        };
        let _ = screen_offset.follow(cursor_position, size, RESERVED_ROWS, buffer.len());
        step
    }
}

} // verus!
