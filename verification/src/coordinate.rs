//! The cursor, the viewport, and the arithmetic that keeps one inside the
//! other.

use vstd::prelude::*;

verus! {

/// The terminal's dimensions in rows and columns.
#[derive(Copy, Clone, Debug, PartialEq, Eq, Structural)]
pub struct Size {
    pub height: usize,
    pub width: usize,
}

impl Default for Size {
    fn default() -> (size: Size)
        ensures
            size == (Size { height: 0, width: 0 }),
    {
        Size { height: 0, width: 0 }
    }
}

/// The cursor's place in the text: a row, a column in render-width units,
/// and the column remembered across vertical moves (0 when none is).
#[derive(Copy, Clone, Debug, PartialEq, Eq, Structural)]
pub struct Position {
    pub width: usize,
    pub height: usize,
    pub max_width: usize,
}

impl Default for Position {
    fn default() -> (position: Position)
        ensures
            position == (Position { width: 0, height: 0, max_width: 0 }),
    {
        Position { width: 0, height: 0, max_width: 0 }
    }
}

/// The text cell drawn at the viewport's top-left corner.
#[derive(Copy, Clone, Debug, PartialEq, Eq, Structural)]
pub struct ScreenOffset {
    pub width: usize,
    pub height: usize,
}

impl Default for ScreenOffset {
    fn default() -> (offset: ScreenOffset)
        ensures
            offset == (ScreenOffset { width: 0, height: 0 }),
    {
        ScreenOffset { width: 0, height: 0 }
    }
}

/// A cell of the screen: `x` columns right and `y` rows below the
/// viewport's top-left corner.
#[derive(Copy, Clone, Debug, PartialEq, Eq, Structural)]
pub struct Location {
    pub x: usize,
    pub y: usize,
}

impl Default for Location {
    fn default() -> (location: Location)
        ensures
            location == (Location { x: 0, y: 0 }),
    {
        Location { x: 0, y: 0 }
    }
}

/// The rows left for text once `margin` rows are set aside for status and
/// prompt lines. At least one row always counts as text.
pub open spec fn text_rows(size: Size, margin: usize) -> int {
    if size.height > margin {
        size.height - margin
    } else {
        1
    }
}

/// The columns available for text; at least one.
pub open spec fn text_columns(size: Size) -> int {
    if size.width > 0 {
        size.width as int
    } else {
        1
    }
}

/// How far `at` lies outside the window `first..first + span` on one axis:
/// 0 inside, 1 on the cell next to either edge, and so on.
pub open spec fn axis_displacement(at: int, first: int, span: int) -> int {
    if at < first {
        first - at
    } else if at >= first + span {
        at - (first + span) + 1
    } else {
        0
    }
}

/// The larger of the cursor's row and column displacements from the view.
pub open spec fn displacement(
    position: Position,
    offset: ScreenOffset,
    size: Size,
    margin: usize,
) -> int {
    let rows = axis_displacement(
        position.height as int,
        offset.height as int,
        text_rows(size, margin),
    );
    let columns = axis_displacement(
        position.width as int,
        offset.width as int,
        text_columns(size),
    );
    if rows >= columns {
        rows
    } else {
        columns
    }
}

/// Whether the cursor lies within the text area of the view.
pub open spec fn in_view(position: Position, offset: ScreenOffset, size: Size, margin: usize) -> bool {
    &&& offset.height <= position.height < offset.height + text_rows(size, margin)
    &&& offset.width <= position.width < offset.width + text_columns(size)
}

/// A window edge after one step toward `at`.
pub open spec fn step_toward(first: int, at: int, span: int) -> int {
    if at < first {
        first - 1
    } else if at >= first + span {
        first + 1
    } else {
        first
    }
}

/// The top row of a freshly placed window of `rows` rows: the cursor row
/// sits in the middle, but the window starts no earlier than row 0 and,
/// where the cursor allows, ends no later than the last of `total` rows.
pub open spec fn snap_top(at: int, rows: int, total: int) -> int {
    let centred = if at >= rows / 2 {
        at - rows / 2
    } else {
        0
    };
    let reach = if total > at {
        total
    } else {
        at + 1
    };
    let last_top = if reach > rows {
        reach - rows
    } else {
        0
    };
    if centred <= last_top {
        centred
    } else {
        last_top
    }
}

/// The left column of a freshly placed window: 0 while the cursor fits,
/// else the column that puts the cursor in the last visible cell.
pub open spec fn snap_left(at: int, columns: int) -> int {
    if at < columns {
        0
    } else {
        at - columns + 1
    }
}

/// The view after it has followed a cursor: untouched while the cursor is
/// inside, shifted by one step when the cursor is one step outside, and
/// placed afresh around the cursor beyond that.
pub open spec fn offset_after_follow(
    position: Position,
    offset: ScreenOffset,
    size: Size,
    margin: usize,
    total: int,
) -> ScreenOffset {
    let distance = displacement(position, offset, size, margin);
    if distance == 0 {
        offset
    } else if distance == 1 {
        ScreenOffset {
            height: step_toward(
                offset.height as int,
                position.height as int,
                text_rows(size, margin),
            ) as usize,
            width: step_toward(
                offset.width as int,
                position.width as int,
                text_columns(size),
            ) as usize,
        }
    } else {
        ScreenOffset {
            height: snap_top(position.height as int, text_rows(size, margin), total) as usize,
            width: snap_left(position.width as int, text_columns(size)) as usize,
        }
    }
}

fn rows_for_text(size: &Size, margin: usize) -> (rows: usize)
    ensures
        rows == text_rows(*size, margin),
        rows >= 1,
{
    if size.height > margin {
        size.height - margin
    } else {
        1
    }
}

fn columns_for_text(size: &Size) -> (columns: usize)
    ensures
        columns == text_columns(*size),
        columns >= 1,
{
    if size.width > 0 {
        size.width
    } else {
        1
    }
}

fn displacement_on_axis(at: usize, first: usize, span: usize) -> (distance: usize)
    requires
        span >= 1,
    ensures
        distance == axis_displacement(at as int, first as int, span as int),
{
    if at < first {
        first - at
    } else {
        let past = at - first;
        if past >= span {
            past - span + 1
        } else {
            0
        }
    }
}

fn stepped(first: usize, at: usize, span: usize) -> (edge: usize)
    requires
        span >= 1,
    ensures
        edge == step_toward(first as int, at as int, span as int),
{
    if at < first {
        first - 1
    } else if at - first >= span {
        first + 1
    } else {
        first
    }
}

impl Position {
    /// Moves `rows` rows up, stopping at the first row.
    pub fn up(&mut self, rows: usize)
        ensures
            final(self).height == if old(self).height >= rows {
                old(self).height - rows
            } else {
                0
            },
            final(self).width == old(self).width,
            final(self).max_width == old(self).max_width,
    {
        self.height = self.height.saturating_sub(rows);
    }

    /// Moves `rows` rows down, stopping at row `last`.
    pub fn down(&mut self, rows: usize, last: usize)
        ensures
            final(self).height == if old(self).height + rows <= last {
                old(self).height + rows
            } else {
                last as int
            },
            final(self).width == old(self).width,
            final(self).max_width == old(self).max_width,
    {
        let target = self.height.saturating_add(rows);
        self.height = if target <= last {
            target
        } else {
            last
        };
    }

    /// Moves `columns` columns left, stopping at column 0, and forgets the
    /// remembered column.
    pub fn left(&mut self, columns: usize)
        ensures
            final(self).width == if old(self).width >= columns {
                old(self).width - columns
            } else {
                0
            },
            final(self).height == old(self).height,
            final(self).max_width == 0,
    {
        self.width = self.width.saturating_sub(columns);
        self.max_width = 0;
    }

    /// Moves `columns` columns right, stopping at column `last`, and
    /// forgets the remembered column.
    pub fn right(&mut self, columns: usize, last: usize)
        ensures
            final(self).width == if old(self).width + columns <= last {
                old(self).width + columns
            } else {
                last as int
            },
            final(self).height == old(self).height,
            final(self).max_width == 0,
    {
        let target = self.width.saturating_add(columns);
        self.width = if target <= last {
            target
        } else {
            last
        };
        self.max_width = 0;
    }

    /// Moves to the first row.
    pub fn page_up(&mut self)
        ensures
            *final(self) == (Position { height: 0, ..*old(self) }),
    {
        self.height = 0;
    }

    /// Moves to row `last`.
    pub fn page_down(&mut self, last: usize)
        ensures
            *final(self) == (Position { height: last, ..*old(self) }),
    {
        self.height = last;
    }

    /// Moves to column 0 and forgets the remembered column.
    pub fn snap_left(&mut self)
        ensures
            *final(self) == (Position { width: 0, max_width: 0, ..*old(self) }),
    {
        self.width = 0;
        self.max_width = 0;
    }

    /// Moves to column `line_width`, the end of a line of that width, and
    /// forgets the remembered column.
    pub fn snap_right(&mut self, line_width: usize)
        ensures
            *final(self) == (Position { width: line_width, max_width: 0, ..*old(self) }),
    {
        self.width = line_width;
        self.max_width = 0;
    }

    /// Moves to column `width` and forgets the remembered column.
    pub fn set_width(&mut self, width: usize)
        ensures
            *final(self) == (Position { width, max_width: 0, ..*old(self) }),
    {
        self.width = width;
        self.max_width = 0;
    }

    /// Settles the column after a vertical move onto a line of width
    /// `line_width`: the cursor aims for the remembered column, or for its
    /// own where that is further right, remembers it, and stops at the end
    /// of the line.
    pub fn resolve_width(&mut self, line_width: usize)
        ensures
            final(self).height == old(self).height,
            final(self).max_width == if old(self).max_width > old(self).width {
                old(self).max_width
            } else {
                old(self).width
            },
            final(self).width == if final(self).max_width <= line_width {
                final(self).max_width
            } else {
                line_width
            },
    {
        let target = if self.max_width > self.width {
            self.max_width
        } else {
            self.width
        };
        self.max_width = target;
        self.width = if target <= line_width {
            target
        } else {
            line_width
        };
    }

    /// Whether the cursor is on the first row.
    pub fn at_top(&self) -> (yes: bool)
        ensures
            yes == (self.height == 0),
    {
        self.height == 0
    }

    /// Whether the cursor is in column 0.
    pub fn at_left_edge(&self) -> (yes: bool)
        ensures
            yes == (self.width == 0),
    {
        self.width == 0
    }

    /// Whether the cursor is at or beyond the end of a line of width
    /// `line_width`.
    pub fn at_max_width(&self, line_width: usize) -> (yes: bool)
        ensures
            yes == (self.width >= line_width),
    {
        self.width >= line_width
    }

    /// Whether the cursor is on or below row `last`.
    pub fn at_max_height(&self, last: usize) -> (yes: bool)
        ensures
            yes == (self.height >= last),
    {
        self.height >= last
    }

    /// How far the cursor lies outside the text area of the view: 0 when it
    /// is inside, 1 when it is one step outside, more for any longer jump.
    pub fn max_displacement_from_view(
        &self,
        offset: &ScreenOffset,
        size: &Size,
        margin: usize,
    ) -> (distance: usize)
        ensures
            distance == displacement(*self, *offset, *size, margin),
            distance == 0 <==> in_view(*self, *offset, *size, margin),
    {
        let rows = displacement_on_axis(self.height, offset.height, rows_for_text(size, margin));
        let columns = displacement_on_axis(self.width, offset.width, columns_for_text(size));
        if rows >= columns {
            rows
        } else {
            columns
        }
    }

    /// The screen cell the cursor is drawn in. Where the cursor lies left
    /// of or above the view, the coordinate is 0.
    pub fn relative_view_position(&self, offset: &ScreenOffset) -> (cell: Location)
        ensures
            cell.x == if self.width >= offset.width {
                self.width - offset.width
            } else {
                0
            },
            cell.y == if self.height >= offset.height {
                self.height - offset.height
            } else {
                0
            },
    {
        Location {
            x: self.width.saturating_sub(offset.width),
            y: self.height.saturating_sub(offset.height),
        }
    }
}

impl ScreenOffset {
    /// Shifts the view by one row and one column at most, each toward the
    /// cursor. A cursor no more than one step outside is inside afterwards.
    pub fn update_offset_single_move(&mut self, position: &Position, size: &Size, margin: usize)
        ensures
            final(self).height == step_toward(
                old(self).height as int,
                position.height as int,
                text_rows(*size, margin),
            ),
            final(self).width == step_toward(
                old(self).width as int,
                position.width as int,
                text_columns(*size),
            ),
            displacement(*position, *old(self), *size, margin) <= 1 ==> in_view(
                *position,
                *final(self),
                *size,
                margin,
            ),
    {
        self.height = stepped(self.height, position.height, rows_for_text(size, margin));
        self.width = stepped(self.width, position.width, columns_for_text(size));
    }

    /// Places the view afresh around the cursor, whatever the view was
    /// before. The cursor is inside afterwards.
    pub fn handle_offset_screen_snap(
        &mut self,
        position: &Position,
        size: &Size,
        margin: usize,
        buffer_len: usize,
    )
        ensures
            final(self).height == snap_top(
                position.height as int,
                text_rows(*size, margin),
                buffer_len as int,
            ),
            final(self).width == snap_left(position.width as int, text_columns(*size)),
            in_view(*position, *final(self), *size, margin),
    {
        let rows = rows_for_text(size, margin);
        let columns = columns_for_text(size);
        let half = rows / 2;
        let centred = if position.height >= half {
            position.height - half
        } else {
            0
        };
        let last_top = if buffer_len > position.height {
            if buffer_len > rows {
                buffer_len - rows
            } else {
                0
            }
        } else if position.height >= rows {
            position.height - rows + 1
        } else {
            0
        };
        self.height = if centred <= last_top {
            centred
        } else {
            last_top
        };
        self.width = if position.width < columns {
            0
        } else {
            position.width - columns + 1
        };
    }

    /// Brings the view back around the cursor, by the cheapest means that
    /// will do, and says how far outside the cursor was.
    pub fn follow(
        &mut self,
        position: &Position,
        size: &Size,
        margin: usize,
        buffer_len: usize,
    ) -> (distance: usize)
        ensures
            distance == displacement(*position, *old(self), *size, margin),
            *final(self) == offset_after_follow(
                *position,
                *old(self),
                *size,
                margin,
                buffer_len as int,
            ),
            in_view(*position, *final(self), *size, margin),
    {
        let distance = position.max_displacement_from_view(self, size, margin);
        if distance == 1 {
            self.update_offset_single_move(position, size, margin);
        } else if distance > 1 {
            self.handle_offset_screen_snap(position, size, margin, buffer_len);
        }
        distance
    }

    /// The text position drawn at the viewport's top-left corner.
    pub fn to_position(&self) -> (position: Position)
        ensures
            position == (Position { width: self.width, height: self.height, max_width: 0 }),
    {
        Position { width: self.width, height: self.height, max_width: 0 }
    }
}

} // verus!
