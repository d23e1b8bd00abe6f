//! The text buffer: an ordered run of lines with a file name and a saved
//! flag, and every operation that changes the text.

use crate::coordinate::Position;
use crate::line::{
    all_wf, index_at, lemma_rendered_has_no_control, shown_as_is, clamp_columns, first_boundary, fragment_of, fragments_of,
    last_word_start, rendered, total_width, FragmentView, Line, TextFragment,
};
use crate::text::{
    as_ints, byte_slice, chars_of, find_offsets, lemma_lines_from_append, lemma_lines_of_one, lines_of, match_offsets, push_char, slice_bytes, sliceable,
    split_lines, views_of,
};
use vstd::prelude::*;
use vstd::string::StringExecFns;
use vstd::string::StringSliceAdditionalSpecFns;
use vstd::utf8::encode_utf8;

verus! {

/// What a buffer is, as plain mathematical values.
pub struct BufferView {
    pub lines: Seq<Seq<FragmentView>>,
    pub filename: Option<Seq<char>>,
    pub is_saved: bool,
}

/// The views of a run of lines.
pub open spec fn line_views(lines: Seq<Line>) -> Seq<Seq<FragmentView>> {
    Seq::new(lines.len(), |i: int| lines[i]@)
}

/// The document: its lines, the file it belongs to, and whether that file
/// holds what the lines hold.
#[derive(Clone, Debug)]
pub struct Buffer {
    pub text: Vec<Line>,
    pub filename: Option<String>,
    pub is_saved: bool,
}

impl View for Buffer {
    type V = BufferView;

    open spec fn view(&self) -> BufferView {
        BufferView {
            lines: line_views(self.text@),
            filename: match self.filename {
                Some(name) => Some(name@),
                None => None,
            },
            is_saved: self.is_saved,
        }
    }
}

impl Default for Buffer {
    fn default() -> (buffer: Buffer)
        ensures
            buffer@ == (BufferView { lines: Seq::empty(), filename: None, is_saved: false }),
            buffer.wf(),
    {
        let buffer = Buffer { text: Vec::new(), filename: None, is_saved: false };
        assert(buffer@.lines =~= Seq::<Seq<FragmentView>>::empty());
        buffer
    }
}

/// The number of plain spaces a tab is put in as.
pub const TAB_WIDTH: usize = 4;

/// Whether the fragments left of index `width`, as many as a tab is wide,
/// are all plain spaces: the trace an inserted tab leaves.
pub open spec fn tab_before(fragments: Seq<FragmentView>, width: int) -> bool {
    &&& TAB_WIDTH <= width <= fragments.len()
    &&& forall|i: int| width - TAB_WIDTH <= i < width ==> (#[trigger] fragments[i]).is_plain_space()
}

/// The index just past the run of space bytes that starts at `from`.
pub open spec fn space_run_end(bytes: Seq<u8>, from: int) -> int
    decreases bytes.len() - from,
{
    if 0 <= from < bytes.len() && bytes[from] == 32 {
        space_run_end(bytes, from + 1)
    } else {
        from
    }
}

/// The number of whole tabs, of four spaces each, that `bytes` starts with.
pub open spec fn tab_count(bytes: Seq<u8>) -> int {
    space_run_end(bytes, 0) / TAB_WIDTH as int
}

/// `count` fragments, each holding one plain space.
pub open spec fn spaces(count: int) -> Seq<FragmentView> {
    Seq::new(count as nat, |i: int| fragment_of(seq![' ']))
}

/// The number of space fragments `insert_tab` puts in for `tabs` tabs at
/// index `width`: four for each tab, with both the product and the end
/// index stopping at `usize::MAX`.
pub open spec fn tab_cells(width: usize, tabs: usize) -> int {
    let wanted = if TAB_WIDTH * tabs <= usize::MAX {
        TAB_WIDTH * tabs
    } else {
        usize::MAX as int
    };
    if width + wanted <= usize::MAX {
        wanted
    } else {
        usize::MAX - width
    }
}

/// The index of the fragment a delete at `width` takes out when no tab
/// lies left of it.
pub open spec fn delete_index(width: int) -> int {
    if width >= 1 {
        width - 1
    } else {
        0
    }
}

/// A line after a delete with the cursor at index `width`.
pub open spec fn line_after_delete(fragments: Seq<FragmentView>, width: int) -> Seq<FragmentView> {
    if tab_before(fragments, width) {
        fragments.take(width - TAB_WIDTH) + fragments.skip(width)
    } else {
        fragments.remove(delete_index(width))
    }
}

/// The cursor's column after a delete with the cursor at `width`.
pub open spec fn width_after_delete(fragments: Seq<FragmentView>, width: int) -> int {
    if tab_before(fragments, width) {
        width - TAB_WIDTH
    } else {
        let columns = fragments[delete_index(width)].render_width.columns();
        if width >= columns {
            width - columns
        } else {
            0
        }
    }
}

/// The text of the file a buffer is saved to: every line's flattened
/// string, each followed by a line feed.
pub open spec fn file_text(lines: Seq<Seq<FragmentView>>) -> Seq<char>
    decreases lines.len(),
{
    if lines.len() == 0 {
        Seq::empty()
    } else {
        file_text(lines.drop_last()) + rendered(lines.last()) + seq!['\n']
    }
}

/// Whether `contents` is the text that well-formed lines `saved` are
/// saved as.
pub open spec fn saved_as(saved: Seq<Seq<FragmentView>>, contents: Seq<char>) -> bool {
    &&& forall|i: int| 0 <= i < saved.len() ==> all_wf(#[trigger] saved[i])
    &&& contents == file_text(saved)
}

/// Whether `buffer` holds the lines `saved` again: as many rows, and in
/// every row whose saved text is shown as it is when read again, the same
/// flattened string.
pub open spec fn loaded_back(saved: Seq<Seq<FragmentView>>, buffer: Buffer) -> bool {
    &&& buffer.text.len() == saved.len()
    &&& forall|i: int|
        0 <= i < saved.len() && shown_as_is(rendered(saved[i])) ==> (
        #[trigger] buffer.text[i]).raw_string@ == rendered(saved[i])
}

/// The lines a buffer is loaded with from the text of a file.
pub open spec fn loaded_lines(contents: Seq<char>) -> Seq<Seq<FragmentView>> {
    Seq::new(lines_of(contents).len(), |i: int| fragments_of(lines_of(contents)[i]))
}

/// The lines after one character is typed at row `height`, fragment
/// index `width`. An empty buffer gets a first line that holds the
/// character alone.
pub open spec fn lines_after_insert(
    lines: Seq<Seq<FragmentView>>,
    height: int,
    width: int,
    c: char,
) -> Seq<Seq<FragmentView>> {
    if lines.len() == 0 {
        seq![seq![fragment_of(seq![c])]]
    } else {
        lines.update(height, lines[height].insert(width, fragment_of(seq![c])))
    }
}

/// The lines after row `height` is cut in two at fragment index `width`.
pub open spec fn lines_after_split(
    lines: Seq<Seq<FragmentView>>,
    height: int,
    width: int,
) -> Seq<Seq<FragmentView>> {
    lines.update(height, lines[height].take(width)).insert(height + 1, lines[height].skip(width))
}

/// The row that takes in the fragments of row `row` when that row is
/// joined to its neighbour: the row above, or for the first row the row
/// that follows it.
pub open spec fn join_target(row: int) -> int {
    if row >= 1 {
        row - 1
    } else {
        0
    }
}

/// The lines after row `row` is taken out and its fragments are put at the
/// end of its join target.
pub open spec fn lines_after_join(lines: Seq<Seq<FragmentView>>, row: int) -> Seq<Seq<FragmentView>> {
    let rest = lines.remove(row);
    rest.update(join_target(row), rest[join_target(row)] + lines[row])
}

/// The lines after tabs are put in at row `height`, fragment index `width`.
/// An empty buffer gets an empty first line to put them in.
pub open spec fn lines_after_tab(
    lines: Seq<Seq<FragmentView>>,
    height: int,
    width: usize,
    tabs: usize,
) -> Seq<Seq<FragmentView>> {
    let base = if lines.len() == 0 {
        seq![Seq::<FragmentView>::empty()]
    } else {
        lines
    };
    base.update(
        height,
        base[height].take(width as int) + spaces(tab_cells(width, tabs)) + base[height].skip(
            width as int,
        ),
    )
}

/// The indentation a new line takes over from the line above it: as many
/// tabs as that line starts with, if it starts with one at all.
pub open spec fn inherited_indent(above: Seq<FragmentView>) -> Seq<FragmentView> {
    if tab_before(above, TAB_WIDTH as int) {
        let tabs = tab_count(encode_utf8(rendered(above)));
        spaces(tab_cells(0, tabs as usize))
    } else {
        Seq::empty()
    }
}

/// The lines after a new line is opened below row `row`. An empty buffer
/// gets an empty first line to open it below.
pub open spec fn lines_after_new_line(lines: Seq<Seq<FragmentView>>, row: int) -> Seq<
    Seq<FragmentView>,
> {
    let base = if lines.len() == 0 {
        seq![Seq::<FragmentView>::empty()]
    } else {
        lines
    };
    base.insert(row + 1, inherited_indent(base[row]))
}

/// The byte offsets in a row's flattened string at which `needle` is
/// found.
pub open spec fn row_matches(row: Seq<FragmentView>, needle: Seq<char>) -> Seq<int> {
    match_offsets(encode_utf8(rendered(row)), encode_utf8(needle))
}

/// The cursor positions on row `height` that stand at `offsets`.
pub open spec fn positions_in_row(offsets: Seq<int>, height: int) -> Seq<Position> {
    Seq::new(
        offsets.len(),
        |i: int| Position { width: offsets[i] as usize, height: height as usize, max_width: 0 },
    )
}

/// Where `needle` is found in the first `count` rows, row by row and left
/// to right within each row.
pub open spec fn search_results(lines: Seq<Seq<FragmentView>>, needle: Seq<char>, count: int) -> Seq<
    Position,
>
    decreases count,
{
    if count <= 0 {
        Seq::empty()
    } else {
        search_results(lines, needle, count - 1) + positions_in_row(
            row_matches(lines[count - 1], needle),
            count - 1,
        )
    }
}

/// The first word boundary on row `row` or any row after it, each row
/// taken from its start.
pub open spec fn spill_forward(lines: Seq<Seq<FragmentView>>, row: int, ends: bool) -> Option<
    (int, int),
>
    decreases lines.len() - row,
{
    if row < 0 || row >= lines.len() {
        None
    } else {
        match first_boundary(lines[row], 0, ends) {
            Some(j) => Some((row, j)),
            None => spill_forward(lines, row + 1, ends),
        }
    }
}

/// The last word start on the nearest row above `row` that has one.
pub open spec fn spill_backward(lines: Seq<Seq<FragmentView>>, row: int) -> Option<(int, int)>
    decreases row,
{
    if row <= 0 || row > lines.len() {
        None
    } else {
        match last_word_start(lines[row - 1], lines[row - 1].len() as int) {
            Some(j) => Some((row - 1, j)),
            None => spill_backward(lines, row - 1),
        }
    }
}

/// Where a forward word motion from row `height`, fragment `width` lands:
/// on the next boundary of the row if it has one, else on the first
/// boundary of the rows below, else at the end of the last row (on its last
/// column when the motion looks for word ends, just past it otherwise).
pub open spec fn forward_target(
    lines: Seq<Seq<FragmentView>>,
    height: int,
    width: int,
    ends: bool,
) -> (int, int) {
    match first_boundary(lines[height], width + 1, ends) {
        Some(j) => (height, j),
        None => match spill_forward(lines, height + 1, ends) {
            Some(found) => found,
            None => {
                let columns = clamp_columns(total_width(lines.last()));
                (
                    lines.len() - 1,
                    if !ends {
                        columns as int
                    } else if columns >= 1 {
                        columns - 1
                    } else {
                        0
                    },
                )
            },
        },
    }
}

/// Where a backward word motion from row `height`, fragment `width`
/// lands: on the nearest word start left of the cursor if the row has one,
/// else on the last word start of the rows above, else at the very start
/// of the buffer.
pub open spec fn backward_target(lines: Seq<Seq<FragmentView>>, height: int, width: int) -> (
    int,
    int,
) {
    match last_word_start(lines[height], width) {
        Some(j) => (height, j),
        None => match spill_backward(lines, height) {
            Some(found) => found,
            None => (0, 0),
        },
    }
}

/// A cursor moved to row `target.0`, column `target.1`.
pub open spec fn moved_to(position: Position, target: (int, int)) -> Position {
    Position { height: target.0 as usize, width: target.1 as usize, ..position }
}

/// A row and the cursor's column after deletes are repeated from column
/// `width` until the cursor stands at or left of `stop`.
pub open spec fn delete_until(fragments: Seq<FragmentView>, width: int, stop: int) -> (
    Seq<FragmentView>,
    int,
)
    decreases width,
{
    if width <= stop || width <= 0 {
        (fragments, width)
    } else {
        delete_until(
            line_after_delete(fragments, width),
            width_after_delete(fragments, width),
            stop,
        )
    }
}

/// The flattened strings of rows `from..to`, each followed by a line feed.
pub open spec fn whole_rows(lines: Seq<Seq<FragmentView>>, from: int, to: int) -> Seq<char>
    decreases to - from,
{
    if from >= to {
        Seq::empty()
    } else {
        whole_rows(lines, from, to - 1) + rendered(lines[to - 1]) + seq!['\n']
    }
}

/// The byte offset at which a segment that ends at byte `width` of a row
/// of `len` bytes is cut: right after the row's last byte when `width` is
/// that byte, at `width` otherwise.
pub open spec fn segment_end(len: int, width: int) -> int {
    let last = if len >= 1 {
        len - 1
    } else {
        0
    };
    if width == last {
        len
    } else {
        width
    }
}

/// Whether the text between `start` and `end` can be cut out of `lines`:
/// both rows exist, and the byte offsets the cursors stand for lie within
/// their rows' flattened strings and cut through no character.
pub open spec fn segment_ok(lines: Seq<Seq<FragmentView>>, start: Position, end: Position) -> bool {
    let first = rendered(lines[start.height as int]);
    let last = rendered(lines[end.height as int]);
    &&& start.height < lines.len()
    &&& end.height < lines.len()
    &&& if start.height == end.height {
        sliceable(
            first,
            start.width as int,
            segment_end(encode_utf8(first).len() as int, end.width as int),
        )
    } else {
        &&& sliceable(first, start.width as int, encode_utf8(first).len() as int)
        &&& sliceable(last, 0, end.width + 1)
    }
}

/// The text between `start` and `end`. On one row it runs from byte
/// `start.width` up to byte `end.width`, and to the end of the row when
/// `end.width` is the row's last byte. Across rows it runs from byte
/// `start.width` to the end of the first row, through every row between,
/// and up to and including byte `end.width` of the last row, with a line
/// feed after each row but the last.
pub open spec fn segment_text(lines: Seq<Seq<FragmentView>>, start: Position, end: Position) -> Seq<
    char,
> {
    let first = rendered(lines[start.height as int]);
    let last = rendered(lines[end.height as int]);
    if start.height == end.height {
        byte_slice(
            first,
            start.width as int,
            segment_end(encode_utf8(first).len() as int, end.width as int),
        )
    } else {
        byte_slice(first, start.width as int, encode_utf8(first).len() as int) + seq!['\n']
            + whole_rows(lines, start.height + 1, end.height as int) + byte_slice(
            last,
            0,
            end.width + 1,
        )
    }
}

/// The fragments that typing `chars` one by one leaves: one fragment for
/// each character.
pub open spec fn typed(chars: Seq<char>) -> Seq<FragmentView> {
    Seq::new(chars.len(), |i: int| fragment_of(seq![chars[i]]))
}

/// The cursor's column after `chars` are typed from column `width`: it
/// moves right by each fragment's width and stops at `usize::MAX`.
pub open spec fn width_after_typing(width: usize, chars: Seq<char>) -> usize
    decreases chars.len(),
{
    if chars.len() == 0 {
        width
    } else {
        clamp_columns(
            (width_after_typing(width, chars.drop_last()) + fragment_of(
                seq![chars.last()],
            ).render_width.columns()) as nat,
        )
    }
}

/// The lines after the first `count` lines of a pasted text went in. The
/// first goes in at fragment index `width` of row `height`, each later one
/// at the start of the next row down; a line that falls below the last row
/// becomes a new row, segmented into grapheme clusters as a whole.
pub open spec fn lines_after_paste(
    lines: Seq<Seq<FragmentView>>,
    height: int,
    width: int,
    parts: Seq<Seq<char>>,
    count: int,
) -> Seq<Seq<FragmentView>>
    decreases count,
{
    if count <= 0 {
        lines
    } else {
        let done = lines_after_paste(lines, height, width, parts, count - 1);
        let row = height + count - 1;
        let at = if count == 1 {
            width
        } else {
            0
        };
        if row < done.len() {
            done.update(row, done[row].take(at) + typed(parts[count - 1]) + done[row].skip(at))
        } else {
            done.push(fragments_of(parts[count - 1]))
        }
    }
}

/// The lines a paste works on: an empty buffer gets an empty first line.
pub open spec fn paste_base(lines: Seq<Seq<FragmentView>>) -> Seq<Seq<FragmentView>> {
    if lines.len() == 0 {
        seq![Seq::<FragmentView>::empty()]
    } else {
        lines
    }
}

/// The cursor after a paste of `parts` at `position`: on the row the last
/// pasted line went to, right after that line where it went into a row
/// that was there, and in column 0 where it became a new row.
pub open spec fn cursor_after_paste(
    lines: Seq<Seq<FragmentView>>,
    position: Position,
    parts: Seq<Seq<char>>,
) -> Position {
    let last = parts.len() - 1;
    let done = lines_after_paste(
        paste_base(lines),
        position.height as int,
        position.width as int,
        parts,
        last,
    );
    let row = position.height + last;
    Position {
        height: row as usize,
        width: if row < done.len() {
            width_after_typing(
                if last == 0 {
                    position.width
                } else {
                    0
                },
                parts[last],
            )
        } else {
            0
        },
        max_width: position.max_width,
    }
}

/// What the first `count` pasted lines do depends on those lines alone.
pub proof fn lemma_paste_prefix(
    lines: Seq<Seq<FragmentView>>,
    height: int,
    width: int,
    parts: Seq<Seq<char>>,
    other: Seq<Seq<char>>,
    count: int,
)
    requires
        count <= parts.len(),
        count <= other.len(),
        forall|i: int| 0 <= i < count ==> parts[i] == other[i],
    ensures
        lines_after_paste(lines, height, width, parts, count) == lines_after_paste(
            lines,
            height,
            width,
            other,
            count,
        ),
    decreases count,
{
    if count > 0 {
        lemma_paste_prefix(lines, height, width, parts, other, count - 1);
    }
}

/// A paste takes no row away.
pub proof fn lemma_paste_keeps_rows(
    lines: Seq<Seq<FragmentView>>,
    height: int,
    width: int,
    parts: Seq<Seq<char>>,
    count: int,
)
    requires
        0 <= height,
    ensures
        lines_after_paste(lines, height, width, parts, count).len() >= lines.len(),
    decreases count,
{
    if count > 0 {
        lemma_paste_keeps_rows(lines, height, width, parts, count - 1);
    }
}

/// The fragment index at which a selection that ends in column `column`
/// of `row` is cut: right after the fragment the cursor stands before, or
/// at the end of the row when it stands before none.
pub open spec fn selection_cut(row: Seq<FragmentView>, column: nat) -> int {
    if index_at(row, column) < row.len() {
        index_at(row, column) + 1
    } else {
        row.len() as int
    }
}

/// The lines after the selection from `start` to `end` is taken out: what
/// lies before the selection on its first row and what lies after it on
/// its last row become one row, and the rows between go.
pub open spec fn lines_after_selection(
    lines: Seq<Seq<FragmentView>>,
    start: Position,
    end: Position,
) -> Seq<Seq<FragmentView>> {
    let first = lines[start.height as int];
    let last = lines[end.height as int];
    let from = if start.height == end.height && index_at(first, start.width as nat)
        > selection_cut(last, end.width as nat) {
        selection_cut(last, end.width as nat)
    } else {
        index_at(first, start.width as nat)
    };
    lines.take(start.height as int) + seq![
        first.take(from) + last.skip(selection_cut(last, end.width as nat)),
    ] + lines.skip(end.height + 1)
}

impl Buffer {
    /// Every line is well formed.
    pub open spec fn wf(&self) -> bool {
        forall|i: int| 0 <= i < self.text.len() ==> (#[trigger] self.text[i]).wf()
    }

    /// Whether the buffer holds no line.
    pub fn is_empty(&self) -> (yes: bool)
        ensures
            yes == (self@.lines.len() == 0),
    {
        self.text.len() == 0
    }

    /// The number of lines.
    pub fn len(&self) -> (count: usize)
        ensures
            count == self@.lines.len(),
    {
        self.text.len()
    }

    /// An empty, unsaved buffer that belongs to the file `filename`, with
    /// room set aside for `screen_height` lines.
    pub fn load_named_empty(filename: &str, screen_height: usize) -> (buffer: Buffer)
        ensures
            buffer@ == (BufferView {
                lines: Seq::empty(),
                filename: Some(filename@),
                is_saved: false,
            }),
            buffer.wf(),
    {
        let text: Vec<Line> = Vec::with_capacity(screen_height);
        let buffer = Buffer { text, filename: Some(filename.to_owned()), is_saved: false };
        assert(buffer@.lines =~= Seq::<Seq<FragmentView>>::empty());
        buffer
    }

    /// The saved buffer that holds the lines of `file_contents`, the text
    /// read from the file `filename`.
    pub fn load(filename: &str, file_contents: &str) -> (buffer: Buffer)
        ensures
            buffer@ == (BufferView {
                lines: loaded_lines(file_contents@),
                filename: Some(filename@),
                is_saved: true,
            }),
            buffer.wf(),
            forall|i: int|
                0 <= i < buffer.text.len() && shown_as_is(lines_of(file_contents@)[i]) ==> (
                #[trigger] buffer.text[i]).raw_string@ == lines_of(file_contents@)[i],
            forall|saved: Seq<Seq<FragmentView>>| #[trigger]
                saved_as(saved, file_contents@) ==> loaded_back(saved, buffer),
    {
        let parts = split_lines(file_contents);
        let mut text: Vec<Line> = Vec::new();
        let mut i: usize = 0;
        while i < parts.len()
            invariant
                i <= parts.len(),
                text.len() == i,
                views_of(parts@) == lines_of(file_contents@),
                forall|j: int| 0 <= j < i ==> (#[trigger] text[j])@ == fragments_of(parts[j]@),
                forall|j: int| 0 <= j < i ==> (#[trigger] text[j]).wf(),
                forall|j: int|
                    0 <= j < i && shown_as_is(parts[j]@) ==> (#[trigger] text[j]).raw_string@
                        == parts[j]@,
            decreases parts.len() - i,
        {
            let line = Line::from(parts[i].as_str());
            text.push(line);
            i += 1;
        }
        let buffer = Buffer { text, filename: Some(filename.to_owned()), is_saved: true };
        assert(buffer@.lines =~= loaded_lines(file_contents@)) by {
            assert forall|j: int| 0 <= j < buffer@.lines.len() implies buffer@.lines[j]
                == loaded_lines(file_contents@)[j] by {
                assert(views_of(parts@)[j] == parts[j]@);
            }
        }
        assert forall|j: int|
            0 <= j < buffer.text.len() && shown_as_is(
                lines_of(file_contents@)[j],
            ) implies (#[trigger] buffer.text[j]).raw_string@ == lines_of(file_contents@)[j] by {
            assert(views_of(parts@)[j] == parts[j]@);
        }
        assert forall|saved: Seq<Seq<FragmentView>>| #[trigger]
            saved_as(saved, file_contents@) implies loaded_back(saved, buffer) by {
            lemma_saved_text_loads_back(saved);
            assert(buffer.text.len() == saved.len());
            assert forall|j: int|
                0 <= j < saved.len() && shown_as_is(rendered(saved[j])) implies (
            #[trigger] buffer.text[j]).raw_string@ == rendered(saved[j]) by {
                assert(lines_of(file_contents@)[j] == raw_strings(saved)[j]);
            }
        }
        buffer
    }

    /// The text the buffer is saved as: every line's flattened string,
    /// each followed by a line feed.
    pub fn file_contents(&self) -> (contents: String)
        requires
            self.wf(),
        ensures
            contents@ == file_text(self@.lines),
    {
        let mut contents = String::new();
        let mut i: usize = 0;
        while i < self.text.len()
            invariant
                i <= self.text.len(),
                self.wf(),
                contents@ == file_text(self@.lines.take(i as int)),
            decreases self.text.len() - i,
        {
            proof {
                let done = self@.lines.take(i as int);
                let next = self@.lines.take(i + 1);
                assert(next.drop_last() =~= done);
                assert(next.last() == self.text[i as int]@);
            }
            contents.append(self.text[i].raw_string.as_str());
            push_char(&mut contents, '\n');
            i += 1;
        }
        assert(self@.lines.take(self.text.len() as int) =~= self@.lines);
        contents
    }

    /// Marks the buffer saved. It is for the moment right after the
    /// buffer's text has been written to its file, so the buffer has to
    /// have a file name.
    pub fn save(&mut self)
        requires
            old(self).filename is Some,
        ensures
            final(self)@ == (BufferView { is_saved: true, ..old(self)@ }),
            final(self).text == old(self).text,
    {
        self.is_saved = true;
    }

    /// Names the file the buffer belongs to.
    pub fn assume_file_name(&mut self, filename: String)
        ensures
            final(self)@ == (BufferView { filename: Some(filename@), ..old(self)@ }),
            final(self).text == old(self).text,
    {
        self.filename = Some(filename);
    }

    /// Whether the four fragments left of `pos.width` on row `pos.height`
    /// are all plain spaces.
    pub fn is_tab(&self, pos: &Position) -> (yes: bool)
        requires
            pos.height < self@.lines.len(),
        ensures
            yes == tab_before(self@.lines[pos.height as int], pos.width as int),
    {
        let line = &self.text[pos.height];
        assert(line@.len() == line.string.len());
        if pos.width < TAB_WIDTH || pos.width > line.string.len() {
            return false;
        }
        let mut i: usize = pos.width - TAB_WIDTH;
        while i < pos.width
            invariant
                pos.width - TAB_WIDTH <= i <= pos.width <= line.string.len(),
                line@ == self@.lines[pos.height as int],
                forall|j: int| pos.width - TAB_WIDTH <= j < i ==> (#[trigger] line@[j]).is_plain_space(),
            decreases pos.width - i,
        {
            if !line.string[i].is_plain_space() {
                assert(!line@[i as int].is_plain_space());
                return false;
            }
            i += 1;
        }
        true
    }

    /// The number of whole tabs row `index` is indented by.
    pub fn num_tabs(&self, index: usize) -> (count: usize)
        requires
            index < self@.lines.len(),
            self.wf(),
        ensures
            count == tab_count(encode_utf8(rendered(self@.lines[index as int]))),
            TAB_WIDTH * count <= usize::MAX,
    {
        assert(self.text[index as int].wf());
        let bytes = self.text[index].raw_string.as_str().as_bytes();
        let len = bytes.len();
        let mut i: usize = 0;
        while i < len && bytes[i] == 32
            invariant
                i <= len,
                len == bytes@.len(),
                space_run_end(bytes@, 0) == space_run_end(bytes@, i as int),
            decreases len - i,
        {
            i += 1;
        }
        i / TAB_WIDTH
    }

    /// Types `insert_char` at the cursor: the character becomes one
    /// fragment at fragment index `pos.width` of row `pos.height`, and the
    /// cursor moves right by the fragment's width.
    pub fn update_line_insert(&mut self, pos: &mut Position, insert_char: char)
        requires
            old(self).wf(),
            old(self)@.lines.len() == 0 ==> old(pos).height == 0,
            old(self)@.lines.len() > 0 ==> old(pos).height < old(self)@.lines.len() && old(
                pos,
            ).width <= old(self)@.lines[old(pos).height as int].len(),
        ensures
            final(self).wf(),
            final(self)@ == (BufferView {
                lines: lines_after_insert(
                    old(self)@.lines,
                    old(pos).height as int,
                    old(pos).width as int,
                    insert_char,
                ),
                is_saved: false,
                ..old(self)@
            }),
            *final(pos) == (Position {
                width: clamp_columns(
                    (old(pos).width + fragment_of(seq![insert_char]).render_width.columns()) as nat,
                ),
                ..*old(pos)
            }),
    {
        let fragment = TextFragment::from_char(insert_char);
        let move_width = fragment.render_width.count();
        let ghost before = self@.lines;
        if self.text.len() == 0 {
            let mut string: Vec<TextFragment> = Vec::new();
            string.push(fragment);
            let mut line = Line { string, raw_string: String::new() };
            line.generate_raw_string();
            assert(line@ =~= seq![fragment_of(seq![insert_char])]);
            self.text.push(line);
            assert(self@.lines =~= lines_after_insert(before, 0, pos.width as int, insert_char));
        } else {
            assert(self.text[pos.height as int].wf());
            assert(self.text[pos.height as int]@.len() == self.text[pos.height as int].string.len());
            self.text[pos.height].string.insert(pos.width, fragment);
            self.text[pos.height].generate_raw_string();
            assert(self.text[pos.height as int]@ =~= before[pos.height as int].insert(
                pos.width as int,
                fragment_of(seq![insert_char]),
            ));
            assert(self@.lines =~= lines_after_insert(
                before,
                pos.height as int,
                pos.width as int,
                insert_char,
            ));
        }
        self.is_saved = false;
        pos.width = pos.width.saturating_add(move_width);
    }

    /// Deletes left of the cursor. Where the four fragments left of
    /// `pos.width` are a tab, all four go and the cursor moves left by 4;
    /// otherwise the fragment at `pos.width - 1` goes (the first fragment
    /// when `pos.width` is 0) and the cursor moves left by its width.
    pub fn update_line_delete(&mut self, pos: &mut Position)
        requires
            old(self).wf(),
            old(pos).height < old(self)@.lines.len(),
            tab_before(old(self)@.lines[old(pos).height as int], old(pos).width as int)
                || delete_index(old(pos).width as int) < old(self)@.lines[old(
                pos,
            ).height as int].len(),
        ensures
            final(self).wf(),
            final(self)@ == (BufferView {
                lines: old(self)@.lines.update(
                    old(pos).height as int,
                    line_after_delete(
                        old(self)@.lines[old(pos).height as int],
                        old(pos).width as int,
                    ),
                ),
                is_saved: false,
                ..old(self)@
            }),
            *final(pos) == (Position {
                width: width_after_delete(
                    old(self)@.lines[old(pos).height as int],
                    old(pos).width as int,
                ) as usize,
                max_width: 0,
                ..*old(pos)
            }),
    {
        let ghost before = self@.lines;
        let ghost row = before[pos.height as int];
        assert(self.text[pos.height as int].wf());
        assert(self.text[pos.height as int]@.len() == self.text[pos.height as int].string.len());
        if self.is_tab(pos) {
            let from = pos.width - TAB_WIDTH;
            let mut k: usize = 0;
            while k < TAB_WIDTH
                invariant
                    k <= TAB_WIDTH,
                    from + TAB_WIDTH <= row.len(),
                    pos.height < self.text.len(),
                    self.text.len() == before.len(),
                    self.filename == old(self).filename,
                    self.text[pos.height as int]@ == row.take(from as int) + row.skip(from + k),
                    forall|i: int|
                        0 <= i < self.text.len() && i != pos.height ==> self.text[i] == old(
                            self,
                        ).text[i],
                decreases TAB_WIDTH - k,
            {
                let ghost current = self.text[pos.height as int]@;
                assert(self.text[pos.height as int]@.len() == self.text[pos.height as int].string.len());
                self.text[pos.height].string.remove(from);
                assert(self.text[pos.height as int]@ =~= current.remove(from as int));
                assert(current.remove(from as int) =~= row.take(from as int) + row.skip(
                    from + k + 1,
                ));
                k += 1;
            }
            self.text[pos.height].generate_raw_string();
            self.is_saved = false;
            pos.left(TAB_WIDTH);
            assert(self@.lines =~= before.update(
                pos.height as int,
                line_after_delete(row, old(pos).width as int),
            ));
        } else {
            let index = pos.width.saturating_sub(1);
            let removed = self.text[pos.height].string.remove(index);
            self.text[pos.height].generate_raw_string();
            self.is_saved = false;
            let diff = removed.render_width.count();
            pos.left(diff);
            assert(removed@ == row[index as int]);
            assert(self.text[pos.height as int]@ =~= row.remove(index as int));
            assert(self@.lines =~= before.update(
                pos.height as int,
                line_after_delete(row, old(pos).width as int),
            ));
        }
    }

    /// Puts `num_tabs` tabs, of four plain spaces each, in at fragment
    /// index `pos.width` of row `pos.height`.
    pub fn insert_tab(&mut self, pos: &Position, num_tabs: usize)
        requires
            old(self).wf(),
            old(self)@.lines.len() == 0 ==> pos.height == 0 && pos.width == 0,
            old(self)@.lines.len() > 0 ==> pos.height < old(self)@.lines.len() && pos.width <= old(
                self,
            )@.lines[pos.height as int].len(),
        ensures
            final(self).wf(),
            final(self)@ == (BufferView {
                lines: lines_after_tab(old(self)@.lines, pos.height as int, pos.width, num_tabs),
                is_saved: false,
                ..old(self)@
            }),
    {
        if self.text.len() == 0 {
            self.text.push(Line::new());
        }
        let ghost base = self@.lines;
        let ghost row = base[pos.height as int];
        assert(base =~= if old(self)@.lines.len() == 0 {
            seq![Seq::<FragmentView>::empty()]
        } else {
            old(self)@.lines
        });
        let wanted = if num_tabs <= usize::MAX / TAB_WIDTH {
            num_tabs * TAB_WIDTH
        } else {
            usize::MAX
        };
        let cells = pos.width.saturating_add(wanted) - pos.width;
        assert(cells == tab_cells(pos.width, num_tabs));
        let mut k: usize = 0;
        assert(self.text[pos.height as int].wf());
        assert(row.take(pos.width as int) + spaces(0) + row.skip(pos.width as int) =~= row);
        while k < cells
            invariant
                k <= cells,
                pos.width <= row.len(),
                pos.height < self.text.len(),
                self.text.len() == base.len(),
                self.filename == old(self).filename,
                all_wf(row),
                self.text[pos.height as int]@ == row.take(pos.width as int) + spaces(k as int)
                    + row.skip(pos.width as int),
                forall|i: int|
                    0 <= i < self.text.len() && i != pos.height ==> (#[trigger] self.text[i]).wf()
                        && self.text[i]@ == base[i],
            decreases cells - k,
        {
            let ghost current = self.text[pos.height as int]@;
            assert(self.text[pos.height as int]@.len() == self.text[pos.height as int].string.len());
            self.text[pos.height].string.insert(pos.width, TextFragment::from_char(' '));
            assert(self.text[pos.height as int]@ =~= current.insert(
                pos.width as int,
                fragment_of(seq![' ']),
            ));
            assert(current.insert(pos.width as int, fragment_of(seq![' '])) =~= row.take(
                pos.width as int,
            ) + spaces(k + 1) + row.skip(pos.width as int));
            k += 1;
        }
        self.text[pos.height].generate_raw_string();
        self.is_saved = false;
        assert(self@.lines =~= lines_after_tab(
            old(self)@.lines,
            pos.height as int,
            pos.width,
            num_tabs,
        ));
    }

    /// Opens a new line below row `line_index`. The new line starts with
    /// as many tabs as the line above it.
    pub fn new_line(&mut self, line_index: usize)
        requires
            old(self).wf(),
            old(self)@.lines.len() == 0 ==> line_index == 0,
            old(self)@.lines.len() > 0 ==> line_index < old(self)@.lines.len(),
        ensures
            final(self).wf(),
            final(self)@ == (BufferView {
                lines: lines_after_new_line(old(self)@.lines, line_index as int),
                is_saved: false,
                ..old(self)@
            }),
    {
        if self.text.len() == 0 {
            self.text.push(Line::new());
        }
        let ghost base = self@.lines;
        assert(base =~= if old(self)@.lines.len() == 0 {
            seq![Seq::<FragmentView>::empty()]
        } else {
            old(self)@.lines
        });
        self.text.insert(line_index + 1, Line::new());
        assert(self@.lines =~= base.insert(line_index + 1, Seq::<FragmentView>::empty()));
        let above = Position { height: line_index, width: TAB_WIDTH, max_width: 0 };
        if self.is_tab(&above) {
            let tabs = self.num_tabs(line_index);
            let ghost opened = self@.lines;
            let below = Position { height: line_index + 1, width: 0, max_width: 0 };
            self.insert_tab(&below, tabs);
            assert(opened[line_index + 1].take(0) + spaces(tab_cells(0, tabs)) + opened[line_index
                + 1].skip(0) =~= spaces(tab_cells(0, tabs)));
            assert(self@.lines =~= lines_after_new_line(old(self)@.lines, line_index as int));
        } else {
            assert(self@.lines =~= lines_after_new_line(old(self)@.lines, line_index as int));
        }
        self.is_saved = false;
    }

    /// Cuts row `pos.height` in two at fragment index `pos.width`: the
    /// fragments from there on become a new line right below.
    pub fn split_line(&mut self, pos: &Position)
        requires
            old(self).wf(),
            pos.height < old(self)@.lines.len(),
            pos.width <= old(self)@.lines[pos.height as int].len(),
        ensures
            final(self).wf(),
            final(self)@ == (BufferView {
                lines: lines_after_split(old(self)@.lines, pos.height as int, pos.width as int),
                is_saved: false,
                ..old(self)@
            }),
    {
        let ghost before = self@.lines;
        let ghost row = before[pos.height as int];
        assert(self.text[pos.height as int].wf());
        assert(self.text[pos.height as int]@.len() == self.text[pos.height as int].string.len());
        let tail = self.text[pos.height].string.split_off(pos.width);
        self.text[pos.height].generate_raw_string();
        let mut new_line = Line { string: tail, raw_string: String::new() };
        new_line.generate_raw_string();
        assert(new_line@ =~= row.skip(pos.width as int));
        assert(self.text[pos.height as int]@ =~= row.take(pos.width as int));
        assert(pos.height < self.text.len());
        self.text.insert(pos.height + 1, new_line);
        self.is_saved = false;
        assert(self@.lines =~= lines_after_split(before, pos.height as int, pos.width as int));
    }

    /// Joins row `line_index` to the row above it: its fragments go to the
    /// end of that row, and the row itself goes. The first row is joined
    /// to the row that follows it instead.
    pub fn join_line(&mut self, line_index: usize)
        requires
            old(self).wf(),
            line_index < old(self)@.lines.len(),
            old(self)@.lines.len() >= 2,
        ensures
            final(self).wf(),
            final(self)@ == (BufferView {
                lines: lines_after_join(old(self)@.lines, line_index as int),
                is_saved: false,
                ..old(self)@
            }),
    {
        let ghost before = self@.lines;
        assert(self.text[line_index as int].wf());
        let mut current = self.text.remove(line_index);
        let ghost rest = self@.lines;
        assert(rest =~= before.remove(line_index as int));
        let target = line_index.saturating_sub(1);
        assert(self.text[target as int].wf());
        self.text[target].string.append(&mut current.string);
        self.is_saved = false;
        self.text[target].generate_raw_string();
        assert(self.text[target as int]@ =~= rest[target as int] + before[line_index as int]);
        assert(self@.lines =~= lines_after_join(before, line_index as int));
    }

    /// Takes row `line_index` out of the buffer.
    pub fn pop_line(&mut self, line_index: usize)
        requires
            old(self).wf(),
            line_index < old(self)@.lines.len(),
        ensures
            final(self).wf(),
            final(self)@ == (BufferView {
                lines: old(self)@.lines.remove(line_index as int),
                is_saved: false,
                ..old(self)@
            }),
    {
        self.text.remove(line_index);
        self.is_saved = false;
        assert(self@.lines =~= old(self)@.lines.remove(line_index as int));
    }

    /// The byte offsets in the flattened string of row `line_index` at
    /// which `search_str` is found, leftmost first and without overlap.
    pub fn find_search_widths(&self, search_str: &str, line_index: usize) -> (widths: Vec<usize>)
        requires
            self.wf(),
            line_index < self@.lines.len(),
        ensures
            as_ints(widths@) == row_matches(self@.lines[line_index as int], search_str@),
    {
        assert(self.text[line_index as int].wf());
        find_offsets(self.text[line_index].raw_string.as_str(), search_str)
    }

    /// Every place in the buffer at which `search_str` is found, as a
    /// cursor position: the row, and the byte offset within the row's
    /// flattened string as the column.
    pub fn search(&self, search_str: &str) -> (positions: Vec<Position>)
        requires
            self.wf(),
        ensures
            positions@ == search_results(self@.lines, search_str@, self@.lines.len() as int),
    {
        let mut positions: Vec<Position> = Vec::new();
        let mut i: usize = 0;
        while i < self.text.len()
            invariant
                i <= self.text.len(),
                self.wf(),
                positions@ == search_results(self@.lines, search_str@, i as int),
            decreases self.text.len() - i,
        {
            let widths = self.find_search_widths(search_str, i);
            let ghost row = positions_in_row(as_ints(widths@), i as int);
            let ghost done = positions@;
            let mut k: usize = 0;
            while k < widths.len()
                invariant
                    k <= widths.len(),
                    row == positions_in_row(as_ints(widths@), i as int),
                    positions@ == done + row.take(k as int),
                decreases widths.len() - k,
            {
                positions.push(Position { width: widths[k], height: i, max_width: 0 });
                assert(row.take(k + 1) =~= row.take(k as int).push(row[k as int]));
                assert(done + row.take(k + 1) =~= (done + row.take(k as int)).push(row[k as int]));
                k += 1;
            }
            assert(row.take(widths.len() as int) =~= row);
            i += 1;
        }
        positions
    }

    fn seek_forward(&self, pos: &mut Position, ends: bool)
        requires
            self@.lines.len() > 0 ==> old(pos).height < self@.lines.len(),
        ensures
            self@.lines.len() == 0 ==> *final(pos) == *old(pos),
            self@.lines.len() > 0 ==> *final(pos) == moved_to(
                *old(pos),
                forward_target(self@.lines, old(pos).height as int, old(pos).width as int, ends),
            ),
            self@.lines.len() > 0 ==> final(pos).height < self@.lines.len(),
    {
        if self.text.len() == 0 {
            return ;
        }
        let here = if ends {
            self.text[pos.height].end_of_current_word(pos.width)
        } else {
            self.text[pos.height].begining_of_next_word(pos.width)
        };
        if let Some(new) = here {
            pos.width = new;
            return ;
        }
        let last = self.text.len() - 1;
        while pos.height < last
            invariant
                last + 1 == self.text.len(),
                old(pos).height <= pos.height <= last,
                first_boundary(
                    self@.lines[old(pos).height as int],
                    old(pos).width + 1,
                    ends,
                ) is None,
                pos.width == old(pos).width,
                pos.max_width == old(pos).max_width,
                spill_forward(self@.lines, old(pos).height + 1, ends) == spill_forward(
                    self@.lines,
                    pos.height + 1,
                    ends,
                ),
            decreases last - pos.height,
        {
            pos.height = pos.height + 1;
            assert(self@.lines[pos.height as int] == self.text[pos.height as int]@);
            let first = if ends {
                self.text[pos.height].end_of_current_word_spillover()
            } else {
                self.text[pos.height].begining_of_next_word_spillover()
            };
            if let Some(new) = first {
                pos.width = new;
                return ;
            }
        }
        let columns = self.text[last].grapheme_len();
        assert(self@.lines.last() == self.text[last as int]@);
        pos.width = if ends {
            columns.saturating_sub(1)
        } else {
            columns
        };
    }

    fn seek_backward(&self, pos: &mut Position)
        requires
            self@.lines.len() > 0 ==> old(pos).height < self@.lines.len(),
        ensures
            self@.lines.len() == 0 ==> *final(pos) == *old(pos),
            self@.lines.len() > 0 ==> *final(pos) == moved_to(
                *old(pos),
                backward_target(self@.lines, old(pos).height as int, old(pos).width as int),
            ),
            self@.lines.len() > 0 ==> final(pos).height < self@.lines.len(),
    {
        if self.text.len() == 0 {
            return ;
        }
        if let Some(new) = self.text[pos.height].begining_of_current_word(pos.width) {
            pos.width = new;
            return ;
        }
        while pos.height >= 1
            invariant
                pos.height <= old(pos).height,
                old(pos).height < self.text.len(),
                last_word_start(
                    self@.lines[old(pos).height as int],
                    old(pos).width as int,
                ) is None,
                pos.width == old(pos).width,
                pos.max_width == old(pos).max_width,
                spill_backward(self@.lines, old(pos).height as int) == spill_backward(
                    self@.lines,
                    pos.height as int,
                ),
            decreases pos.height,
        {
            pos.height = pos.height - 1;
            assert(self@.lines[pos.height as int] == self.text[pos.height as int]@);
            if let Some(new) = self.text[pos.height].begining_of_current_word_spillover() {
                pos.width = new;
                return ;
            }
        }
        pos.height = 0;
        pos.width = 0;
    }

    /// Moves the cursor to the start of the previous word, on this row or
    /// on a row above; to the start of the buffer when there is none.
    pub fn find_prev_word(&self, position: &mut Position)
        requires
            self@.lines.len() > 0 ==> old(position).height < self@.lines.len(),
        ensures
            self@.lines.len() == 0 ==> *final(position) == *old(position),
            self@.lines.len() > 0 ==> *final(position) == moved_to(
                *old(position),
                backward_target(
                    self@.lines,
                    old(position).height as int,
                    old(position).width as int,
                ),
            ),
            self@.lines.len() > 0 ==> final(position).height < self@.lines.len(),
    {
        self.seek_backward(position);
    }

    /// Moves the cursor to the start of the next word, on this row or on a
    /// row below; to the end of the last row when there is none.
    pub fn find_next_word(&self, position: &mut Position)
        requires
            self@.lines.len() > 0 ==> old(position).height < self@.lines.len(),
        ensures
            self@.lines.len() == 0 ==> *final(position) == *old(position),
            self@.lines.len() > 0 ==> *final(position) == moved_to(
                *old(position),
                forward_target(
                    self@.lines,
                    old(position).height as int,
                    old(position).width as int,
                    false,
                ),
            ),
            self@.lines.len() > 0 ==> final(position).height < self@.lines.len(),
    {
        self.seek_forward(position, false);
    }

    /// Moves the cursor to the start of the word it is in, or of the word
    /// before it when it is at a word's start already.
    pub fn begining_of_current_word(&self, pos: &mut Position)
        requires
            self@.lines.len() > 0 ==> old(pos).height < self@.lines.len(),
        ensures
            self@.lines.len() == 0 ==> *final(pos) == *old(pos),
            self@.lines.len() > 0 ==> *final(pos) == moved_to(
                *old(pos),
                backward_target(self@.lines, old(pos).height as int, old(pos).width as int),
            ),
            self@.lines.len() > 0 ==> final(pos).height < self@.lines.len(),
    {
        self.seek_backward(pos);
    }

    /// Moves the cursor to the start of the next word.
    pub fn begining_of_next_word(&self, pos: &mut Position)
        requires
            self@.lines.len() > 0 ==> old(pos).height < self@.lines.len(),
        ensures
            self@.lines.len() == 0 ==> *final(pos) == *old(pos),
            self@.lines.len() > 0 ==> *final(pos) == moved_to(
                *old(pos),
                forward_target(self@.lines, old(pos).height as int, old(pos).width as int, false),
            ),
            self@.lines.len() > 0 ==> final(pos).height < self@.lines.len(),
    {
        self.seek_forward(pos, false);
    }

    /// Moves the cursor to the end of the word it is in, or of the next
    /// word when it is at a word's end already; to the last column of the
    /// last row when there is none.
    pub fn end_of_current_word(&self, pos: &mut Position)
        requires
            self@.lines.len() > 0 ==> old(pos).height < self@.lines.len(),
        ensures
            self@.lines.len() == 0 ==> *final(pos) == *old(pos),
            self@.lines.len() > 0 ==> *final(pos) == moved_to(
                *old(pos),
                forward_target(self@.lines, old(pos).height as int, old(pos).width as int, true),
            ),
            self@.lines.len() > 0 ==> final(pos).height < self@.lines.len(),
    {
        self.seek_forward(pos, true);
    }

    /// Breaks the line at the cursor. At the end of the row a new line is
    /// opened below it; elsewhere the row is cut in two at the cursor. The
    /// cursor moves to the new row, right after its indentation.
    pub fn add_new_line(&mut self, pos: &mut Position)
        requires
            old(self).wf(),
            old(self)@.lines.len() == 0 ==> old(pos).height == 0 && old(pos).width == 0,
            old(self)@.lines.len() > 0 ==> old(pos).height < old(self)@.lines.len() && (old(
                pos,
            ).width == clamp_columns(total_width(old(self)@.lines[old(pos).height as int])) || old(
                pos,
            ).width <= old(self)@.lines[old(pos).height as int].len()),
        ensures
            final(self).wf(),
            final(self)@ == (BufferView {
                lines: if old(self)@.lines.len() == 0 || old(pos).width == clamp_columns(
                    total_width(old(self)@.lines[old(pos).height as int]),
                ) {
                    lines_after_new_line(old(self)@.lines, old(pos).height as int)
                } else {
                    lines_after_split(
                        old(self)@.lines,
                        old(pos).height as int,
                        old(pos).width as int,
                    )
                },
                is_saved: false,
                ..old(self)@
            }),
            final(pos).height == old(pos).height + 1,
            final(pos).max_width == old(pos).max_width,
            final(pos).width == if tab_before(final(self)@.lines[old(pos).height + 1], TAB_WIDTH as int) {
                TAB_WIDTH * tab_count(encode_utf8(rendered(final(self)@.lines[old(pos).height + 1])))
            } else {
                0
            },
    {
        let grapheme_len = if self.is_empty() {
            0
        } else {
            self.text[pos.height].grapheme_len()
        };
        if pos.width == grapheme_len {
            self.new_line(pos.height);
        } else {
            self.split_line(pos);
        }
        pos.down(1, self.len() - 1);
        let indent = Position { height: pos.height, width: TAB_WIDTH, max_width: 0 };
        pos.width = if self.is_tab(&indent) {
            self.num_tabs(pos.height) * TAB_WIDTH
        } else {
            0
        };
    }

    /// Deletes from `right_pos` leftwards, the fragment under it included,
    /// until the cursor stands at or left of `left_pos`.
    pub fn delete_segment(&mut self, left_pos: &Position, right_pos: &mut Position)
        requires
            old(self).wf(),
            old(right_pos).height < old(self)@.lines.len(),
            old(right_pos).width < old(self)@.lines[old(right_pos).height as int].len(),
        ensures
            final(self).wf(),
            final(self)@ == (BufferView {
                lines: old(self)@.lines.update(
                    old(right_pos).height as int,
                    delete_until(
                        old(self)@.lines[old(right_pos).height as int],
                        old(right_pos).width + 1,
                        left_pos.width as int,
                    ).0,
                ),
                is_saved: false,
                ..old(self)@
            }),
            *final(right_pos) == (Position {
                width: delete_until(
                    old(self)@.lines[old(right_pos).height as int],
                    old(right_pos).width + 1,
                    left_pos.width as int,
                ).1 as usize,
                max_width: 0,
                ..*old(right_pos)
            }),
    {
        let ghost before = self@.lines;
        let ghost row = before[right_pos.height as int];
        assert(self.text[right_pos.height as int]@.len() == self.text[right_pos.height as int].string.len());
        right_pos.width = right_pos.width + 1;
        assert(self@.lines =~= before.update(right_pos.height as int, row));
        while right_pos.width > left_pos.width
            invariant
                self.wf(),
                right_pos.height == old(right_pos).height,
                right_pos.height < self@.lines.len(),
                right_pos.width <= self@.lines[right_pos.height as int].len(),
                right_pos.width <= old(right_pos).width + 1,
                self@.filename == old(self)@.filename,
                right_pos.width <= old(right_pos).width ==> !self.is_saved && right_pos.max_width
                    == 0,
                right_pos.width > old(right_pos).width ==> self.is_saved == old(self).is_saved
                    && right_pos.max_width == old(right_pos).max_width,
                before.len() == self@.lines.len(),
                self@.lines == before.update(
                    right_pos.height as int,
                    self@.lines[right_pos.height as int],
                ),
                delete_until(row, old(right_pos).width + 1, left_pos.width as int) == delete_until(
                    self@.lines[right_pos.height as int],
                    right_pos.width as int,
                    left_pos.width as int,
                ),
            decreases right_pos.width,
        {
            let ghost current = self@.lines;
            self.update_line_delete(right_pos);
            assert(self@.lines.len() == current.len());
            assert(forall|i: int|
                0 <= i < current.len() && i != right_pos.height ==> self@.lines[i] == before[i]);
            assert(self@.lines =~= before.update(
                right_pos.height as int,
                self@.lines[right_pos.height as int],
            ));
        }
        self.is_saved = false;
        right_pos.max_width = 0;
    }

    /// The text between `start` and `end`, cut out of the rows' flattened
    /// strings by byte offset.
    pub fn get_segment(&self, start: &Position, end: &Position) -> (text: String)
        requires
            self.wf(),
            segment_ok(self@.lines, *start, *end),
        ensures
            text@ == segment_text(self@.lines, *start, *end),
    {
        let mut copy_string = String::new();
        assert(self.text[start.height as int].wf());
        assert(self.text[end.height as int].wf());
        let first = self.text[start.height].raw_string.as_str();
        assert(first@ == rendered(self@.lines[start.height as int]));
        assert(first.spec_bytes() == encode_utf8(first@));
        if start.height == end.height {
            let len = first.as_bytes().len();
            let line_len = len.saturating_sub(1);
            let to = if end.width == line_len {
                len
            } else {
                end.width
            };
            copy_string.append(slice_bytes(first, start.width, to));
            assert(copy_string@ =~= segment_text(self@.lines, *start, *end));
        } else {
            copy_string.append(slice_bytes(first, start.width, first.as_bytes().len()));
            push_char(&mut copy_string, '\n');
            let ghost head = copy_string@;
            assert(start.height < self.text.len());
            let mut h: usize = start.height + 1;
            assert(head + whole_rows(self@.lines, start.height + 1, h as int) =~= head);
            while h < end.height
                invariant
                    self.wf(),
                    end.height < self@.lines.len(),
                    start.height < h,
                    h <= end.height || h == start.height + 1,
                    copy_string@ == head + whole_rows(self@.lines, start.height + 1, h as int),
                decreases end.height - h,
            {
                assert(self.text[h as int].wf());
                copy_string.append(self.text[h].raw_string.as_str());
                push_char(&mut copy_string, '\n');
                assert(copy_string@ =~= head + whole_rows(self@.lines, start.height + 1, h + 1));
                h += 1;
            }
            let last = self.text[end.height].raw_string.as_str();
            let _ = last.as_bytes().len();
            assert(last@ == rendered(self@.lines[end.height as int]));
            assert(last.spec_bytes() == encode_utf8(last@));
            copy_string.append(slice_bytes(last, 0, end.width + 1));
            assert(whole_rows(self@.lines, start.height + 1, h as int) =~= whole_rows(
                self@.lines,
                start.height + 1,
                end.height as int,
            ));
            assert(copy_string@ =~= segment_text(self@.lines, *start, *end));
        }
        copy_string
    }

    /// Pastes `paste_text` at the cursor, line by line. Nothing changes
    /// when the text holds no line.
    pub fn add_text_from_clipboard(&mut self, paste_text: &str, pos: &mut Position)
        requires
            old(self).wf(),
            old(self)@.lines.len() == 0 ==> old(pos).height == 0 && old(pos).width == 0,
            old(self)@.lines.len() > 0 ==> old(pos).height < old(self)@.lines.len() && old(
                pos,
            ).width <= old(self)@.lines[old(pos).height as int].len(),
        ensures
            final(self).wf(),
            lines_of(paste_text@).len() == 0 ==> final(self)@ == old(self)@ && *final(pos) == *old(
                pos,
            ),
            lines_of(paste_text@).len() > 0 ==> final(self)@ == (BufferView {
                lines: lines_after_paste(
                    paste_base(old(self)@.lines),
                    old(pos).height as int,
                    old(pos).width as int,
                    lines_of(paste_text@),
                    lines_of(paste_text@).len() as int,
                ),
                is_saved: false,
                ..old(self)@
            }) && *final(pos) == cursor_after_paste(
                old(self)@.lines,
                *old(pos),
                lines_of(paste_text@),
            ),
            final(self)@.lines.len() > 0 ==> final(pos).height < final(self)@.lines.len(),
    {
        let parts = split_lines(paste_text);
        if parts.len() == 0 {
            return ;
        }
        if self.text.len() == 0 {
            self.text.push(Line::new());
        }
        let ghost base = self@.lines;
        let ghost texts = views_of(parts@);
        let ghost height = pos.height as int;
        let ghost width = pos.width as int;
        assert(base =~= paste_base(old(self)@.lines));
        let mut k: usize = 0;
        while k < parts.len()
            invariant
                k <= parts.len(),
                parts.len() > 0,
                texts == views_of(parts@),
                self.wf(),
                self.filename == old(self).filename,
                0 <= height < base.len() <= self.text.len(),
                0 <= width <= base[height].len(),
                height == old(pos).height,
                width == old(pos).width,
                base == paste_base(old(self)@.lines),
                pos.max_width == old(pos).max_width,
                k == 0 ==> pos.height == height && pos.width == width,
                k > 0 ==> pos.height == height + k - 1,
                pos.height < self.text.len(),
                self@.lines == lines_after_paste(base, height, width, texts, k as int),
                k > 0 ==> *pos == cursor_after_paste(
                    old(self)@.lines,
                    *old(pos),
                    texts.take(k as int),
                ),
            decreases parts.len() - k,
        {
            let ghost done = self@.lines;
            let ghost part = texts[k as int];
            assert(part == parts[k as int]@);
            if k != 0 {
                pos.height = pos.height + 1;
                pos.width = 0;
            }
            let ghost at = pos.width as int;
            if pos.height >= self.text.len() {
                self.text.push(Line::from(parts[k].as_str()));
                assert(self@.lines =~= done.push(fragments_of(part)));
            } else {
                let chars = chars_of(parts[k].as_str());
                let row = pos.height;
                let start = pos.width;
                let ghost before = done[row as int];
                assert(self.text[row as int].wf());
                assert(at <= before.len()) by {
                    if k == 0 {
                        assert(done == base);
                    }
                }
                assert(before.take(at) + typed(chars@.take(0)) + before.skip(at) =~= before);
                let mut j: usize = 0;
                while j < chars.len()
                    invariant
                        j <= chars.len(),
                        row < self.text.len(),
                        self.text.len() == done.len(),
                        self.filename == old(self).filename,
                        start + j <= self.text[row as int].string.len(),
                        start == at <= before.len(),
                        all_wf(before),
                        pos.height == row,
                        pos.max_width == old(pos).max_width,
                        pos.width == width_after_typing(start, chars@.take(j as int)),
                        self.text[row as int]@ == before.take(at) + typed(chars@.take(j as int))
                            + before.skip(at),
                        forall|i: int|
                            0 <= i < self.text.len() && i != row ==> (#[trigger] self.text[i]).wf()
                                && self.text[i]@ == done[i],
                    decreases chars.len() - j,
                {
                    let ghost current = self.text[row as int]@;
                    let fragment = TextFragment::from_char(chars[j]);
                    let columns = fragment.render_width.count();
                    assert(self.text[row as int]@.len() == self.text[row as int].string.len());
                    self.text[row].string.insert(start + j, fragment);
                    pos.width = pos.width.saturating_add(columns);
                    proof {
                        let grown = chars@.take(j + 1);
                        assert(grown.drop_last() =~= chars@.take(j as int));
                        assert(grown.last() == chars@[j as int]);
                        assert(self.text[row as int]@ =~= current.insert(
                            start + j,
                            fragment_of(seq![chars@[j as int]]),
                        ));
                        assert(current.insert(start + j, fragment_of(seq![chars@[j as int]]))
                            =~= before.take(at) + typed(grown) + before.skip(at));
                    }
                    j += 1;
                }
                assert(chars@.take(chars.len() as int) =~= chars@);
                self.text[row].generate_raw_string();
                assert(self@.lines =~= done.update(
                    row as int,
                    before.take(at) + typed(part) + before.skip(at),
                ));
            }
            proof {
                let grown = texts.take(k + 1);
                assert(grown.len() - 1 == k);
                assert(grown[k as int] == part);
                lemma_paste_prefix(base, height, width, texts, grown, k as int);
                assert(lines_after_paste(base, height, width, grown, k as int) == done);
            }
            k += 1;
        }
        assert(texts.take(parts.len() as int) =~= texts);
        self.is_saved = false;
    }

    /// Whether the text between `start` and `end` can be cut out by
    /// `get_segment`.
    pub fn can_get_segment(&self, start: &Position, end: &Position) -> (yes: bool)
        requires
            self.wf(),
        ensures
            yes == segment_ok(self@.lines, *start, *end),
    {
        if start.height >= self.text.len() || end.height >= self.text.len() {
            return false;
        }
        assert(self.text[start.height as int].wf());
        assert(self.text[end.height as int].wf());
        let first = self.text[start.height].raw_string.as_str();
        let len = first.as_bytes().len();
        if start.height == end.height {
            let to = if end.width == len.saturating_sub(1) {
                len
            } else {
                end.width
            };
            start.width <= to && to <= len && first.is_char_boundary(start.width)
                && first.is_char_boundary(to)
        } else {
            let last = self.text[end.height].raw_string.as_str();
            let last_len = last.as_bytes().len();
            start.width <= len && first.is_char_boundary(start.width) && first.is_char_boundary(
                len,
            ) && end.width < last_len && last.is_char_boundary(0) && last.is_char_boundary(
                end.width + 1,
            )
        }
    }

    /// Takes the selection from `start` to `end` out of the buffer. Both
    /// are cursor positions, `start` no later in the text than `end`; the
    /// fragment the end stands before goes with the selection.
    pub fn delete_selection(&mut self, start: &Position, end: &Position)
        requires
            old(self).wf(),
            start.height <= end.height < old(self)@.lines.len(),
        ensures
            final(self).wf(),
            final(self)@ == (BufferView {
                lines: lines_after_selection(old(self)@.lines, *start, *end),
                is_saved: false,
                ..old(self)@
            }),
    {
        let ghost before = self@.lines;
        let ghost first = before[start.height as int];
        let ghost last = before[end.height as int];
        assert(self@.lines.len() == self.text.len());
        let end_index = self.text[end.height].fragment_index(end.width);
        let cut = if end_index < self.text[end.height].string.len() {
            end_index + 1
        } else {
            end_index
        };
        assert(last.len() == self.text[end.height as int].string.len());
        let start_index = self.text[start.height].fragment_index(start.width);
        let from = if start.height == end.height && start_index > cut {
            cut
        } else {
            start_index
        };
        self.split_line(&Position { height: end.height, width: cut, max_width: 0 });
        assert(self@.lines[start.height as int].len() >= from);
        self.split_line(&Position { height: start.height, width: from, max_width: 0 });
        let ghost prefix = before.take(start.height as int) + seq![first.take(from as int)];
        let ghost suffix = seq![last.skip(cut as int)] + before.skip(end.height + 1);
        let ghost middle = self@.lines.subrange(start.height + 1, end.height + 2);
        proof {
            lemma_two_cuts(before, start.height as int, end.height as int, from as int, cut as int);
            assert(middle.skip(0) =~= middle);
        }
        let doomed = end.height - start.height + 1;
        let next = start.height + 1;
        let mut k: usize = 0;
        while k < doomed
            invariant
                k <= doomed,
                doomed == middle.len(),
                next == prefix.len(),
                self.wf(),
                self@.filename == old(self)@.filename,
                !self@.is_saved,
                self@.lines == prefix + middle.skip(k as int) + suffix,
            decreases doomed - k,
        {
            self.pop_line(next);
            assert(self@.lines =~= prefix + middle.skip(k + 1) + suffix) by {
                lemma_drop_after_prefix(prefix, middle.skip(k as int), suffix);
                assert(middle.skip(k as int).skip(1) =~= middle.skip(k + 1));
            }
            k += 1;
        }
        proof {
            assert(middle.skip(doomed as int) =~= Seq::<Seq<FragmentView>>::empty());
            assert(self@.lines =~= prefix + suffix);
            lemma_join_after_cuts(before, *start, *end, from as int, cut as int);
        }
        self.join_line(next);
    }
}

/// Cutting row `e` at `cut` and then row `s` at `from` leaves the rows
/// before `s`, the head of row `s`, some rows between, the tail of row
/// `e`, and the rows after `e`.
pub proof fn lemma_two_cuts(lines: Seq<Seq<FragmentView>>, s: int, e: int, from: int, cut: int)
    requires
        0 <= s <= e < lines.len(),
        0 <= cut <= lines[e].len(),
        0 <= from <= lines[s].len(),
        s == e ==> from <= cut,
    ensures
        ({
            let twice = lines_after_split(lines_after_split(lines, e, cut), s, from);
            twice == lines.take(s) + seq![lines[s].take(from)] + twice.subrange(s + 1, e + 2)
                + (seq![lines[e].skip(cut)] + lines.skip(e + 1))
        }),
{
    let once = lines_after_split(lines, e, cut);
    let twice = lines_after_split(once, s, from);
    assert(once.len() == lines.len() + 1);
    assert(twice.len() == lines.len() + 2);
    assert(twice[s] =~= lines[s].take(from));
    assert(twice[e + 2] == once[e + 1]);
    let shape = lines.take(s) + seq![lines[s].take(from)] + twice.subrange(s + 1, e + 2) + (
    seq![lines[e].skip(cut)] + lines.skip(e + 1));
    assert(shape.len() == twice.len());
    assert forall|j: int| 0 <= j < twice.len() implies twice[j] == shape[j] by {
        if j < s {
            assert(once[j] == lines[j]);
        } else if j > e + 2 {
            assert(twice[j] == once[j - 1]);
            assert(once[j - 1] == lines[j - 2]);
        }
    }
    assert(twice =~= shape);
}

/// Taking out the row right after `prefix` takes the first row of what
/// follows it.
pub proof fn lemma_drop_after_prefix(
    prefix: Seq<Seq<FragmentView>>,
    middle: Seq<Seq<FragmentView>>,
    suffix: Seq<Seq<FragmentView>>,
)
    requires
        middle.len() > 0,
    ensures
        (prefix + middle + suffix).remove(prefix.len() as int) == prefix + middle.skip(1) + suffix,
{
    assert((prefix + middle + suffix).remove(prefix.len() as int) =~= prefix + middle.skip(1)
        + suffix);
}

/// Once the rows between the two cuts are gone, joining the tail to the
/// head gives the lines without the selection.
pub proof fn lemma_join_after_cuts(
    lines: Seq<Seq<FragmentView>>,
    start: Position,
    end: Position,
    from: int,
    cut: int,
)
    requires
        start.height <= end.height < lines.len(),
        cut == selection_cut(lines[end.height as int], end.width as nat),
        from == if start.height == end.height && index_at(
            lines[start.height as int],
            start.width as nat,
        ) > cut {
            cut
        } else {
            index_at(lines[start.height as int], start.width as nat)
        },
    ensures
        lines_after_join(
            lines.take(start.height as int) + seq![lines[start.height as int].take(from)] + (
            seq![lines[end.height as int].skip(cut)] + lines.skip(end.height + 1)),
            start.height + 1,
        ) == lines_after_selection(lines, start, end),
{
    let s = start.height as int;
    let head = lines[s].take(from);
    let tail = lines[end.height as int].skip(cut);
    let cutup = lines.take(s) + seq![head] + (seq![tail] + lines.skip(end.height + 1));
    let rest = cutup.remove(s + 1);
    assert(rest =~= lines.take(s) + seq![head] + lines.skip(end.height + 1));
    assert(rest[s] == head);
    assert(cutup[s + 1] == tail);
    assert(lines_after_join(cutup, s + 1) =~= lines_after_selection(lines, start, end));
}

/// The flattened strings of `lines`.
pub open spec fn raw_strings(lines: Seq<Seq<FragmentView>>) -> Seq<Seq<char>> {
    Seq::new(lines.len(), |i: int| rendered(lines[i]))
}

/// Cutting a line in two and joining the new line back restores the
/// lines as they were.
pub proof fn lemma_split_then_join(lines: Seq<Seq<FragmentView>>, height: int, width: int)
    requires
        0 <= height < lines.len(),
        0 <= width <= lines[height].len(),
    ensures
        lines_after_join(lines_after_split(lines, height, width), height + 1) == lines,
{
    let cut = lines_after_split(lines, height, width);
    let rest = cut.remove(height + 1);
    assert(rest =~= lines.update(height, lines[height].take(width)));
    assert(rest[height] + cut[height + 1] =~= lines[height]);
    assert(lines_after_join(cut, height + 1) =~= lines);
}

/// A tab put in at fragment index `width` is taken out whole by one delete
/// with the cursor right after it: the row is as it was, and the cursor is
/// back at `width`.
pub proof fn lemma_tab_then_delete(lines: Seq<Seq<FragmentView>>, height: int, width: usize)
    requires
        0 <= height < lines.len(),
        width <= lines[height].len(),
        width + TAB_WIDTH <= usize::MAX,
    ensures
        tab_before(lines_after_tab(lines, height, width, 1)[height], width + TAB_WIDTH),
        line_after_delete(lines_after_tab(lines, height, width, 1)[height], width + TAB_WIDTH)
            == lines[height],
        width_after_delete(lines_after_tab(lines, height, width, 1)[height], width + TAB_WIDTH) == width,
{
    let row = lines[height];
    let tabbed = lines_after_tab(lines, height, width, 1)[height];
    assert(tab_cells(width, 1) == TAB_WIDTH);
    assert(tabbed == row.take(width as int) + spaces(TAB_WIDTH as int) + row.skip(width as int));
    assert forall|i: int| width <= i < width + TAB_WIDTH implies (#[trigger] tabbed[i]).is_plain_space() by {
        assert(tabbed[i] == spaces(TAB_WIDTH as int)[i - width]);
    }
    assert(tabbed.take(width as int) + tabbed.skip(width + TAB_WIDTH) =~= row);
}

/// The text a buffer is saved as splits back into exactly the flattened
/// strings that were saved, one line for each: a buffer loaded from it has
/// as many lines, and each is made from the flattened string of the line
/// that was saved.
pub proof fn lemma_saved_text_loads_back(lines: Seq<Seq<FragmentView>>)
    requires
        forall|i: int| 0 <= i < lines.len() ==> all_wf(#[trigger] lines[i]),
    ensures
        lines_of(file_text(lines)) == raw_strings(lines),
        loaded_lines(file_text(lines)) == Seq::new(
            lines.len(),
            |i: int| fragments_of(rendered(lines[i])),
        ),
        lines.len() > 0 ==> file_text(lines).last() == '\n',
    decreases lines.len(),
{
    if lines.len() == 0 {
        assert(lines_of(file_text(lines)) =~= raw_strings(lines));
    } else {
        let front = lines.drop_last();
        assert forall|i: int| 0 <= i < front.len() implies all_wf(#[trigger] front[i]) by {
            assert(front[i] == lines[i]);
        }
        lemma_saved_text_loads_back(front);
        let head = file_text(front);
        let line = rendered(lines.last());
        let tail = line + seq!['\n'];
        assert(file_text(lines) =~= head + tail);
        lemma_rendered_has_no_control(lines.last());
        lemma_lines_from_append(head, tail, 0, 0);
        lemma_lines_of_one(line, 0);
        assert(raw_strings(lines) =~= raw_strings(front) + seq![line]);
    }
    assert(loaded_lines(file_text(lines)) =~= Seq::new(
        lines.len(),
        |i: int| fragments_of(rendered(lines[i])),
    ));
}

} // verus!
