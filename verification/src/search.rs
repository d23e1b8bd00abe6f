//! Incremental search: a query that grows and shrinks key by key, the
//! matches of every stage of it, and the match the cursor is on.

use crate::buffer::{search_results, Buffer};
use crate::coordinate::{in_view, offset_after_follow, Position, ScreenOffset, Size};
use crate::editorcommands::SearchCommand;
use crate::line::FragmentView;
use crate::line::visible;
use crate::text::{pieces_around, pop_char, push_char, split_around, views_of};
use crate::view::capped_sum;
use crate::view::{cursor_ok, kept_on_row, RESERVED_ROWS};
use std::collections::HashSet;
use vstd::prelude::*;
use vstd::string::StringExecFns;

verus! {

broadcast use vstd::std_specs::hash::group_hash_axioms;

/// The matches of the query as it stands: the top of the stack.
pub open spec fn current_results(stack: Seq<Vec<Position>>) -> Seq<Position> {
    if stack.len() == 0 {
        Seq::empty()
    } else {
        stack.last()@
    }
}

/// The index, at or after `from`, of the first match on row `height` or
/// below it.
pub open spec fn first_at_or_below(results: Seq<Position>, height: usize, from: int) -> Option<int>
    decreases results.len() - from,
{
    if from < 0 || from >= results.len() {
        None
    } else if results[from].height >= height {
        Some(from)
    } else {
        first_at_or_below(results, height, from + 1)
    }
}

/// The match a search starts on: the first one on the cursor's row or
/// below it, and the very first one when all matches lie above. There is
/// none only when nothing matches.
pub open spec fn relative_start(results: Seq<Position>, height: usize) -> Option<int> {
    if results.len() == 0 {
        None
    } else {
        match first_at_or_below(results, height, 0) {
            Some(i) => Some(i),
            None => Some(0),
        }
    }
}

/// The row of the match a search starts on.
pub open spec fn relative_start_row(results: Seq<Position>, height: usize) -> Option<usize> {
    match relative_start(results, height) {
        Some(i) => Some(results[i].height),
        None => None,
    }
}

/// The rows that hold a match.
pub open spec fn rows_of(results: Seq<Position>) -> Set<usize> {
    Set::new(|row: usize| exists|i: int| 0 <= i < results.len() && results[i].height == row)
}

/// The index of the match after `index` among `count` matches, going
/// round to the first after the last.
pub open spec fn next_index(index: usize, count: int) -> usize {
    if index + 1 >= count {
        0
    } else {
        (index + 1) as usize
    }
}

/// The index of the match before `index` among `count` matches, going
/// round to the last before the first.
pub open spec fn previous_index(index: usize, count: int) -> usize {
    if index == 0 || index >= count {
        (count - 1) as usize
    } else {
        (index - 1) as usize
    }
}

/// Where the cursor goes for match number `index`: onto the match, kept
/// within its row. Where there is no such match, or its row is not in the
/// buffer, the cursor goes to `fallback`.
pub open spec fn cursor_on_match(
    results: Seq<Position>,
    index: usize,
    lines: Seq<Seq<FragmentView>>,
    fallback: Position,
) -> Position {
    if index < results.len() && results[index as int].height < lines.len() {
        Position {
            height: results[index as int].height,
            width: kept_on_row(
                results[index as int].width as int,
                lines,
                results[index as int].height as int,
            ),
            max_width: 0,
        }
    } else {
        fallback
    }
}

/// The query after a command.
pub open spec fn query_after(query: Seq<char>, command: SearchCommand) -> Seq<char> {
    match command {
        SearchCommand::Insert(c) => query.push(c),
        SearchCommand::BackSpace => if query.len() > 0 {
            query.drop_last()
        } else {
            query
        },
        SearchCommand::AssumeState | SearchCommand::RevertState => Seq::empty(),
        _ => query,
    }
}

/// Whether a command changes the query, and with it the matches.
pub open spec fn requeries(query: Seq<char>, command: SearchCommand) -> bool {
    match command {
        SearchCommand::Insert(_) => true,
        SearchCommand::BackSpace => query.len() > 0,
        _ => false,
    }
}

/// The number of the match the cursor is on after a command, given the
/// matches of the query as it stands after it.
pub open spec fn index_after(
    index: usize,
    query: Seq<char>,
    results: Seq<Position>,
    start_row: usize,
    command: SearchCommand,
) -> usize {
    if requeries(query, command) {
        match relative_start(results, start_row) {
            Some(i) => i as usize,
            None => 0,
        }
    } else if results.len() == 0 {
        index
    } else if command == SearchCommand::Next {
        next_index(index, results.len() as int)
    } else if command == SearchCommand::Previous {
        previous_index(index, results.len() as int)
    } else {
        index
    }
}

/// Whether a search goes on after a command or is over.
#[derive(Copy, Clone, Debug, PartialEq, Eq, Structural)]
pub enum SearchStep {
    Continue,
    Exit,
}

/// The state of a search.
#[derive(Debug)]
pub struct Search {
    pub render_search: bool,
    /// The number of the match the cursor is on.
    pub search_index: usize,
    /// The query.
    pub string: String,
    /// Where the cursor was when the search began.
    pub previous_position: Position,
    /// Where the view was when the search began.
    pub previous_offset: ScreenOffset,
    /// The matches of every stage of the query, the latest on top.
    pub stack: Vec<Vec<Position>>,
    /// The rows that hold a match of the query as it stands.
    pub line_indicies: HashSet<usize>,
}

impl Default for Search {
    fn default() -> (search: Search)
        ensures
            search.string@.len() == 0,
            search.stack@.len() == 0,
            search.line_indicies@ == Set::<usize>::empty(),
            search.search_index == 0,
            !search.render_search,
            search.previous_position == (Position { width: 0, height: 0, max_width: 0 }),
            search.previous_offset == (ScreenOffset { width: 0, height: 0 }),
    {
        Search {
            render_search: false,
            search_index: 0,
            string: String::new(),
            previous_position: Position::default(),
            previous_offset: ScreenOffset::default(),
            stack: Vec::new(),
            line_indicies: HashSet::new(),
        }
    }
}

/// How a command changes a search, and with it the cursor, the view and
/// the size, each given as it was before and as it is after.
///
/// A typed character lengthens the query and puts its matches on the
/// stack; a backspace shortens the query and takes the top of the stack
/// off again. Either way the cursor goes to the match nearest to where the
/// search began, or back there when nothing matches. Next and Previous go
/// round the matches. Accepting ends the search where the cursor is;
/// reverting ends it with the cursor and the view back where the search
/// began. Both forget the query. After any command the view is where it
/// was if the cursor is still inside, and has followed the cursor if not.
pub open spec fn search_stepped(
    before: Search,
    after: Search,
    command: SearchCommand,
    cursor: (Position, Position),
    offset: (ScreenOffset, ScreenOffset),
    size: (Size, Size),
    lines: Seq<Seq<FragmentView>>,
    step: SearchStep,
) -> bool {
    let exits = command == SearchCommand::AssumeState || command == SearchCommand::RevertState;
    &&& step == if exits {
        SearchStep::Exit
    } else {
        SearchStep::Continue
    }
    &&& after.previous_position == before.previous_position
    &&& after.previous_offset == before.previous_offset
    &&& after.render_search == before.render_search
    &&& after.string@ == query_after(before.string@, command)
    &&& match command {
        SearchCommand::Insert(_) => after.stack@.drop_last() == before.stack@ && after.stack@.len()
            == before.stack@.len() + 1 && current_results(after.stack@) == search_results(
            lines,
            after.string@,
            lines.len() as int,
        ),
        SearchCommand::BackSpace => after.stack@ == if before.string@.len() > 0
            && before.stack@.len() > 0 {
            before.stack@.drop_last()
        } else {
            before.stack@
        },
        SearchCommand::AssumeState | SearchCommand::RevertState => after.stack@.len() == 0,
        _ => after.stack@ == before.stack@,
    }
    &&& after.search_index == if exits {
        before.search_index
    } else {
        index_after(
            before.search_index,
            before.string@,
            current_results(after.stack@),
            before.previous_position.height,
            command,
        )
    }
    &&& after.line_indicies@ == if requeries(before.string@, command) {
        rows_of(current_results(after.stack@))
    } else if exits {
        Set::<usize>::empty()
    } else {
        before.line_indicies@
    }
    &&& size.1 == match command {
        SearchCommand::Resize(new_size) => new_size,
        _ => size.0,
    }
    &&& cursor.1 == if command == SearchCommand::RevertState {
        before.previous_position
    } else if requeries(before.string@, command) {
        cursor_on_match(
            current_results(after.stack@),
            after.search_index,
            lines,
            before.previous_position,
        )
    } else if command == SearchCommand::Next || command == SearchCommand::Previous {
        cursor_on_match(current_results(after.stack@), after.search_index, lines, cursor.0)
    } else {
        cursor.0
    }
    &&& offset.1 == offset_after_follow(
        cursor.1,
        if command == SearchCommand::RevertState {
            before.previous_offset
        } else {
            offset.0
        },
        size.1,
        RESERVED_ROWS,
        lines.len() as int,
    )
}

impl Search {
    /// A search that begins with the cursor and the view where they are.
    pub fn new(cursor_position: Position, screen_offset: ScreenOffset) -> (search: Search)
        ensures
            search.string@.len() == 0,
            search.stack@.len() == 0,
            search.line_indicies@ == Set::<usize>::empty(),
            search.search_index == 0,
            search.render_search,
            search.previous_position == cursor_position,
            search.previous_offset == screen_offset,
    {
        Search {
            render_search: true,
            search_index: 0,
            string: String::new(),
            previous_position: cursor_position,
            previous_offset: screen_offset,
            stack: Vec::new(),
            line_indicies: HashSet::new(),
        }
    }

    /// The number of the match nearest to row `curr_height`: the first
    /// match on that row or below it, and the first match of all when
    /// every match lies above. There is none when nothing matches.
    pub fn find_relative_index(&self, curr_height: &usize) -> (index: Option<usize>)
        ensures
            match relative_start(current_results(self.stack@), *curr_height) {
                Some(i) => index == Some(i as usize) && 0 <= i < current_results(
                    self.stack@,
                ).len(),
                None => index is None,
            },
    {
        if self.stack.len() == 0 {
            return None;
        }
        let results = &self.stack[self.stack.len() - 1];
        if results.len() == 0 {
            return None;
        }
        let mut i: usize = 0;
        while i < results.len()
            invariant
                i <= results.len(),
                results@ == current_results(self.stack@),
                first_at_or_below(results@, *curr_height, 0) == first_at_or_below(
                    results@,
                    *curr_height,
                    i as int,
                ),
            decreases results.len() - i,
        {
            if results[i].height >= *curr_height {
                return Some(i);
            }
            i += 1;
        }
        Some(0)
    }

    /// The row of the match nearest to row `curr_height`: the row of the
    /// first match on that row or below it, and the row of the first match
    /// of all when every match lies above. Where anything matches a row is
    /// named; there is none only when nothing matches.
    pub fn find_relative_start(&self, curr_height: &usize) -> (row: Option<usize>)
        ensures
            row == relative_start_row(current_results(self.stack@), *curr_height),
            row is None <==> current_results(self.stack@).len() == 0,
    {
        let found = self.find_relative_index(curr_height);
        match found {
            Some(index) => {
                assert(self.stack@.len() > 0);
                let results = &self.stack[self.stack.len() - 1];
                assert(results@ == current_results(self.stack@));
                assert(results@.len() == results.len());
                Some(results[index].height)
            },
            None => None,
        }
    }

    /// The row the query is shown on, and the text shown there.
    pub fn render_search_string(&self, size: &Size) -> (shown: (usize, String))
        ensures
            shown.0 == if size.height >= 2 {
                size.height - 2
            } else {
                0
            },
            shown.1@ == "Search: "@ + self.string@,
    {
        let mut text = "Search: ".to_owned();
        text.append(self.string.as_str());
        (size.height.saturating_sub(2), text)
    }

    /// What row `line` of the buffer shows during a search: the screen row
    /// it is drawn on, and the pieces of its visible text that lie around
    /// the places the query is found at. The query itself belongs between
    /// each two pieces, set off from them.
    pub fn render_search_line(
        &self,
        line: usize,
        buffer: &Buffer,
        offset: &ScreenOffset,
        size: &Size,
    ) -> (shown: (usize, Vec<String>))
        requires
            line < buffer@.lines.len(),
        ensures
            shown.0 == if line >= offset.height {
                line - offset.height
            } else {
                0
            },
            views_of(shown.1@) == pieces_around(
                visible(
                    buffer@.lines[line as int],
                    offset.width as nat,
                    capped_sum(offset.width, size.width) as nat,
                ),
                self.string@,
            ),
    {
        assert(buffer@.lines.len() == buffer.text.len());
        let right = offset.width.saturating_add(size.width);
        let text = buffer.text[line].get_line_subset(offset.width..right);
        (line.saturating_sub(offset.height), split_around(text.as_str(), self.string.as_str()))
    }

    /// Notes the rows that hold a match of the query as it stands.
    pub fn set_line_indicies(&mut self)
        requires
            old(self).stack@.len() > 0,
        ensures
            final(self).line_indicies@ == rows_of(current_results(old(self).stack@)),
            final(self).stack == old(self).stack,
            final(self).string == old(self).string,
            final(self).search_index == old(self).search_index,
            final(self).render_search == old(self).render_search,
            final(self).previous_position == old(self).previous_position,
            final(self).previous_offset == old(self).previous_offset,
    {
        self.line_indicies.clear();
        let top = self.stack.len() - 1;
        let count = self.stack[top].len();
        let ghost results = self.stack[top as int]@;
        let mut i: usize = 0;
        assert(self.line_indicies@ =~= rows_of(results.take(0)));
        while i < count
            invariant
                i <= count,
                top + 1 == self.stack.len(),
                count == results.len(),
                results == self.stack[top as int]@,
                self.stack == old(self).stack,
                self.string == old(self).string,
                self.search_index == old(self).search_index,
                self.render_search == old(self).render_search,
                self.previous_position == old(self).previous_position,
                self.previous_offset == old(self).previous_offset,
                self.line_indicies@ == rows_of(results.take(i as int)),
            decreases count - i,
        {
            let row = self.stack[top][i].height;
            let ghost before = self.line_indicies@;
            self.line_indicies.insert(row);
            proof {
                let shorter = results.take(i as int);
                let longer = results.take(i + 1);
                assert forall|r: usize| #[trigger]
                    rows_of(longer).contains(r) <==> before.insert(row).contains(r) by {
                    if rows_of(longer).contains(r) {
                        let k = choose|k: int| 0 <= k < longer.len() && longer[k].height == r;
                        if k < i {
                            assert(shorter[k].height == r);
                        }
                    }
                    if before.contains(r) {
                        let k = choose|k: int| 0 <= k < shorter.len() && shorter[k].height == r;
                        assert(longer[k].height == r);
                    }
                    if r == row {
                        assert(longer[i as int].height == r);
                    }
                }
                assert(self.line_indicies@ =~= rows_of(longer));
            }
            i += 1;
        }
        assert(results.take(count as int) =~= results);
    }

    /// Forgets the query, its matches and their rows.
    pub fn clean_up_search(&mut self)
        ensures
            final(self).string@ == Seq::<char>::empty(),
            final(self).stack@.len() == 0,
            final(self).line_indicies@ == Set::<usize>::empty(),
            final(self).search_index == old(self).search_index,
            final(self).render_search == old(self).render_search,
            final(self).previous_position == old(self).previous_position,
            final(self).previous_offset == old(self).previous_offset,
    {
        self.string = String::new();
        self.stack.clear();
        self.line_indicies.clear();
    }

    fn go_to_match(
        &self,
        cursor_position: &mut Position,
        buffer: &Buffer,
        fallback: Position,
    )
        ensures
            *final(cursor_position) == cursor_on_match(
                current_results(self.stack@),
                self.search_index,
                buffer@.lines,
                fallback,
            ),
    {
        if self.stack.len() > 0 {
            let results = &self.stack[self.stack.len() - 1];
            if self.search_index < results.len() {
                let found = results[self.search_index];
                assert(buffer@.lines.len() == buffer.text.len());
                if found.height < buffer.text.len() {
                    let width = buffer.text[found.height].grapheme_len();
                    *cursor_position = Position {
                        height: found.height,
                        width: if found.width <= width {
                            found.width
                        } else {
                            width
                        },
                        max_width: 0,
                    };
                    return ;
                }
            }
        }
        *cursor_position = fallback;
    }

    /// Carries out one command of the search, on the cursor, the view and
    /// the size it is handed. The view follows the cursor wherever it
    /// goes.
    pub fn handle(
        &mut self,
        command: SearchCommand,
        cursor_position: &mut Position,
        screen_offset: &mut ScreenOffset,
        size: &mut Size,
        buffer: &Buffer,
    ) -> (step: SearchStep)
        requires
            buffer.wf(),
            cursor_ok(*old(cursor_position), buffer@.lines),
            cursor_ok(old(self).previous_position, buffer@.lines),
        ensures
            cursor_ok(*final(cursor_position), buffer@.lines),
            in_view(*final(cursor_position), *final(screen_offset), *final(size), RESERVED_ROWS),
            search_stepped(
                *old(self),
                *final(self),
                command,
                (*old(cursor_position), *final(cursor_position)),
                (*old(screen_offset), *final(screen_offset)),
                (*old(size), *final(size)),
                buffer@.lines,
                step,
            ),
    {
        match command {
            SearchCommand::Insert(c) => {
                push_char(&mut self.string, c);
                let results = buffer.search(self.string.as_str());
                let ghost before = self.stack@;
                self.stack.push(results);
                assert(self.stack@.drop_last() =~= before);
                self.requery(cursor_position, buffer);
            },
            SearchCommand::BackSpace => {
                if self.string.as_str().unicode_len() > 0 {
                    let _ = pop_char(&mut self.string);
                    let _ = self.stack.pop();
                    self.requery(cursor_position, buffer);
                }
            },
            SearchCommand::Next => {
                let count = self.current_count();
                if count > 0 {
                    self.search_index = if self.search_index >= count - 1 {
                        0
                    } else {
                        self.search_index + 1
                    };
                }
                let here = *cursor_position;
                self.go_to_match(cursor_position, buffer, here);
            },
            SearchCommand::Previous => {
                let count = self.current_count();
                if count > 0 {
                    self.search_index = if self.search_index == 0 || self.search_index >= count {
                        count - 1
                    } else {
                        self.search_index - 1
                    };
                }
                let here = *cursor_position;
                self.go_to_match(cursor_position, buffer, here);
            },
            SearchCommand::AssumeState => {
                self.clean_up_search();
            },
            SearchCommand::RevertState => {
                *cursor_position = self.previous_position;
                *screen_offset = self.previous_offset;
                self.clean_up_search();
            },
            SearchCommand::Resize(new_size) => {
                *size = new_size;
            },
            SearchCommand::NoAction => {},
        }
        let _ = screen_offset.follow(cursor_position, size, RESERVED_ROWS, buffer.len());
        match command {
            SearchCommand::AssumeState | SearchCommand::RevertState => SearchStep::Exit,
            _ => SearchStep::Continue,
        }
    }

    fn current_count(&self) -> (count: usize)
        ensures
            count == current_results(self.stack@).len(),
    {
        if self.stack.len() == 0 {
            0
        } else {
            self.stack[self.stack.len() - 1].len()
        }
    }

    fn requery(&mut self, cursor_position: &mut Position, buffer: &Buffer)
        ensures
            final(self).stack == old(self).stack,
            final(self).string == old(self).string,
            final(self).render_search == old(self).render_search,
            final(self).previous_position == old(self).previous_position,
            final(self).previous_offset == old(self).previous_offset,
            final(self).search_index == match relative_start(
                current_results(old(self).stack@),
                old(self).previous_position.height,
            ) {
                Some(i) => i as usize,
                None => 0,
            },
            final(self).line_indicies@ == rows_of(current_results(old(self).stack@)),
            *final(cursor_position) == cursor_on_match(
                current_results(old(self).stack@),
                final(self).search_index,
                buffer@.lines,
                old(self).previous_position,
            ),
    {
        let row = self.previous_position.height;
        self.search_index = match self.find_relative_index(&row) {
            Some(index) => index,
            None => 0,
        };
        if self.stack.len() > 0 {
            self.set_line_indicies();
        } else {
            self.line_indicies.clear();
            assert(self.line_indicies@ =~= rows_of(current_results(self.stack@)));
        }
        let fallback = self.previous_position;
        self.go_to_match(cursor_position, buffer, fallback);
    }
}

} // verus!
