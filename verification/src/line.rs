//! One row of text as a sequence of grapheme fragments.

use crate::text::{
    columns_of, concat, contains_control, display_columns, grapheme_clusters, has_control,
    is_blank, is_blank_text, is_one_char, push_char, split_graphemes, views_of,
};
use std::ops::Range;
use vstd::prelude::*;
use vstd::string::StringExecFns;

verus! {

/// How many terminal columns a fragment takes.
#[derive(Clone, Copy, Debug, PartialEq, Eq, Structural)]
pub enum GraphemeWidth {
    Half,
    Full,
}

impl GraphemeWidth {
    /// The column count: 1 for `Half`, 2 for `Full`.
    pub open spec fn columns(self) -> nat {
        match self {
            GraphemeWidth::Half => 1,
            GraphemeWidth::Full => 2,
        }
    }

    /// The column count as a machine integer.
    pub fn count(&self) -> (n: usize)
        ensures
            n == self.columns(),
    {
        match self {
            GraphemeWidth::Half => 1,
            GraphemeWidth::Full => 2,
        }
    }

    /// Adds this width to `other`, stopping at `usize::MAX`.
    pub fn saturating_add(&self, other: usize) -> (sum: usize)
        ensures
            sum == if other + self.columns() <= usize::MAX {
                other + self.columns()
            } else {
                usize::MAX as int
            },
    {
        match self {
            GraphemeWidth::Half => other.saturating_add(1),
            GraphemeWidth::Full => other.saturating_add(2),
        }
    }
}

/// What a fragment is, as plain mathematical values.
pub struct FragmentView {
    pub grapheme: Seq<char>,
    pub render_width: GraphemeWidth,
    pub replacement_text: Option<char>,
}

impl FragmentView {
    /// The text this fragment contributes to its line's flattened string:
    /// the substitute character when there is one, else the grapheme.
    pub open spec fn shown(self) -> Seq<char> {
        match self.replacement_text {
            Some(c) => seq![c],
            None => self.grapheme,
        }
    }

    /// The width class and the substitute are those its grapheme calls for.
    pub open spec fn wf(self) -> bool {
        self == fragment_of(self.grapheme)
    }

    /// A fragment whose grapheme is exactly one space character.
    pub open spec fn is_plain_space(self) -> bool {
        self.grapheme == seq![' ']
    }

    /// A fragment that reads as one space: a literal space, or a grapheme
    /// whose substitute is a space.
    pub open spec fn is_space(self) -> bool {
        self.is_plain_space() || self.replacement_text == Some(' ')
    }
}

/// The width class of a cluster that takes `columns` terminal columns.
pub open spec fn width_class(columns: nat) -> GraphemeWidth {
    if columns >= 2 {
        GraphemeWidth::Full
    } else {
        GraphemeWidth::Half
    }
}

/// The character drawn in place of a cluster that cannot be drawn as it is:
/// a space for a tab, `|` for anything holding a control character, and for
/// other clusters of no width `*` when blank and `.` otherwise.
pub open spec fn display_override(grapheme: Seq<char>, columns: nat) -> Option<char> {
    if grapheme == seq!['\t'] {
        Some(' ')
    } else if has_control(grapheme) {
        Some('|')
    } else if columns == 0 {
        if is_blank(grapheme) {
            Some('*')
        } else {
            Some('.')
        }
    } else {
        None
    }
}

/// The fragment made from one grapheme cluster.
pub open spec fn fragment_of(grapheme: Seq<char>) -> FragmentView {
    FragmentView {
        grapheme,
        render_width: width_class(display_columns(grapheme)),
        replacement_text: display_override(grapheme, display_columns(grapheme)),
    }
}

/// The fragments of a whole text: one per grapheme cluster, in order.
pub open spec fn fragments_of(text: Seq<char>) -> Seq<FragmentView> {
    Seq::new(grapheme_clusters(text).len(), |i: int| fragment_of(grapheme_clusters(text)[i]))
}

/// The flattened string of a fragment sequence.
pub open spec fn rendered(fragments: Seq<FragmentView>) -> Seq<char>
    decreases fragments.len(),
{
    if fragments.len() == 0 {
        Seq::empty()
    } else {
        rendered(fragments.drop_last()) + fragments.last().shown()
    }
}

/// The columns taken by the first `count` fragments.
pub open spec fn width_before(fragments: Seq<FragmentView>, count: int) -> nat
    decreases count,
{
    if count <= 0 {
        0
    } else {
        width_before(fragments, count - 1) + fragments[count - 1].render_width.columns()
    }
}

/// The columns taken by all of `fragments`.
pub open spec fn total_width(fragments: Seq<FragmentView>) -> nat {
    width_before(fragments, fragments.len() as int)
}

/// A column count held in a `usize`, stopping at `usize::MAX`.
pub open spec fn clamp_columns(columns: nat) -> usize {
    if columns <= usize::MAX {
        columns as usize
    } else {
        usize::MAX
    }
}

/// Why a text could not be made into a single fragment.
#[derive(Clone, Copy, Debug, PartialEq, Eq, Structural)]
pub enum FragmentError {
    /// The text holds no grapheme cluster at all.
    Empty,
    /// The text holds more than one grapheme cluster.
    Multiple,
}

/// One user-perceived character with its column cost and, where it cannot
/// be drawn as it is, the character drawn in its place.
#[derive(Clone, Debug)]
pub struct TextFragment {
    pub grapheme: String,
    pub render_width: GraphemeWidth,
    pub replacement_text: Option<char>,
}

impl View for TextFragment {
    type V = FragmentView;

    open spec fn view(&self) -> FragmentView {
        FragmentView {
            grapheme: self.grapheme@,
            render_width: self.render_width,
            replacement_text: self.replacement_text,
        }
    }
}

/// The concatenation of one part is that part.
pub proof fn lemma_concat_single(part: Seq<char>)
    ensures
        concat(seq![part]) == part,
{
    assert(seq![part].drop_last() =~= Seq::<Seq<char>>::empty());
    assert(concat(seq![part].drop_last()) == Seq::<char>::empty());
    assert(concat(seq![part]) =~= part);
}

impl TextFragment {
    /// Builds the fragment for one grapheme cluster.
    pub fn from_cluster(grapheme: String) -> (fragment: TextFragment)
        ensures
            fragment@ == fragment_of(grapheme@),
    {
        let columns = columns_of(grapheme.as_str());
        let is_tab = is_one_char(grapheme.as_str(), '\t');
        let replacement_text = if is_tab {
            Some(' ')
        } else if contains_control(grapheme.as_str()) {
            Some('|')
        } else if columns == 0 {
            if is_blank_text(grapheme.as_str()) {
                Some('*')
            } else {
                Some('.')
            }
        } else {
            None
        };
        let render_width = if columns >= 2 {
            GraphemeWidth::Full
        } else {
            GraphemeWidth::Half
        };
        TextFragment { grapheme, render_width, replacement_text }
    }

    /// Builds the fragment for a text that is exactly one grapheme cluster.
    pub fn try_from(text: &str) -> (result: Result<TextFragment, FragmentError>)
        ensures
            match result {
                Ok(fragment) => grapheme_clusters(text@).len() == 1 && fragment@ == fragment_of(
                    text@,
                ),
                Err(FragmentError::Empty) => grapheme_clusters(text@).len() == 0,
                Err(FragmentError::Multiple) => grapheme_clusters(text@).len() > 1,
            },
    {
        let mut parts = split_graphemes(text);
        if parts.len() == 0 {
            Err(FragmentError::Empty)
        } else if parts.len() > 1 {
            Err(FragmentError::Multiple)
        } else {
            let ghost all = views_of(parts@);
            let grapheme = parts.remove(0);
            proof {
                assert(all =~= seq![grapheme@]);
                lemma_concat_single(grapheme@);
            }
            Ok(TextFragment::from_cluster(grapheme))
        }
    }

    /// Builds the fragment whose grapheme is the single character `c`.
    pub fn from_char(c: char) -> (fragment: TextFragment)
        ensures
            fragment@ == fragment_of(seq![c]),
    {
        let mut grapheme = String::new();
        push_char(&mut grapheme, c);
        assert(grapheme@ =~= seq![c]);
        TextFragment::from_cluster(grapheme)
    }

    /// A copy of this fragment.
    pub fn duplicate(&self) -> (copy: TextFragment)
        ensures
            copy@ == self@,
    {
        TextFragment {
            grapheme: self.grapheme.clone(),
            render_width: self.render_width,
            replacement_text: self.replacement_text,
        }
    }

    /// Whether the grapheme is exactly one space character.
    pub fn is_plain_space(&self) -> (yes: bool)
        ensures
            yes == self@.is_plain_space(),
    {
        is_one_char(self.grapheme.as_str(), ' ')
    }

    /// Whether this fragment reads as one space.
    pub fn is_space(&self) -> (yes: bool)
        ensures
            yes == self@.is_space(),
    {
        let literal = self.is_plain_space();
        let substituted = match self.replacement_text {
            Some(c) => c == ' ',
            None => false,
        };
        literal || substituted
    }
}

/// Whether every fragment of the run is well formed.
pub open spec fn all_wf(fragments: Seq<FragmentView>) -> bool {
    forall|i: int| 0 <= i < fragments.len() ==> (#[trigger] fragments[i]).wf()
}

/// The views of a run of fragments.
pub open spec fn fragment_views(fragments: Seq<TextFragment>) -> Seq<FragmentView> {
    Seq::new(fragments.len(), |i: int| fragments[i]@)
}

/// A row of text: its fragments, and the flattened string kept beside them.
#[derive(Clone, Debug)]
pub struct Line {
    pub string: Vec<TextFragment>,
    pub raw_string: String,
}

impl View for Line {
    type V = Seq<FragmentView>;

    open spec fn view(&self) -> Seq<FragmentView> {
        fragment_views(self.string@)
    }
}

/// One more fragment adds what it shows to the end of the flattened
/// string.
pub proof fn lemma_rendered_push(fragments: Seq<FragmentView>, fragment: FragmentView)
    ensures
        rendered(fragments.push(fragment)) == rendered(fragments) + fragment.shown(),
{
    assert(fragments.push(fragment).drop_last() =~= fragments);
}

/// Columns only accumulate: a longer prefix is never narrower.
pub proof fn lemma_width_before_monotone(fragments: Seq<FragmentView>, i: int, j: int)
    requires
        i <= j,
    ensures
        width_before(fragments, i) <= width_before(fragments, j),
    decreases j - i,
{
    if i < j {
        lemma_width_before_monotone(fragments, i, j - 1);
    }
}

/// The width of a prefix depends on that prefix alone.
pub proof fn lemma_width_before_prefix(a: Seq<FragmentView>, b: Seq<FragmentView>, count: int)
    requires
        0 <= count <= a.len(),
        count <= b.len(),
        forall|i: int| 0 <= i < count ==> a[i] == b[i],
    ensures
        width_before(a, count) == width_before(b, count),
    decreases count,
{
    if count > 0 {
        lemma_width_before_prefix(a, b, count - 1);
    }
}

/// The width of two runs side by side is the sum of their widths.
pub proof fn lemma_total_width_concat(left: Seq<FragmentView>, right: Seq<FragmentView>)
    ensures
        total_width(left + right) == total_width(left) + total_width(right),
{
    lemma_width_before_concat(left, right, right.len() as int);
    assert((left + right).len() == left.len() + right.len());
}

/// The width of a prefix that reaches `count` fragments into the second of
/// two runs is the width of the first run and of those `count` fragments.
pub proof fn lemma_width_before_concat(left: Seq<FragmentView>, right: Seq<FragmentView>, count: int)
    requires
        0 <= count <= right.len(),
    ensures
        width_before(left + right, left.len() + count) == total_width(left) + width_before(
            right,
            count,
        ),
    decreases count,
{
    if count == 0 {
        lemma_width_before_prefix(left + right, left, left.len() as int);
    } else {
        lemma_width_before_concat(left, right, count - 1);
        assert((left + right)[left.len() + count - 1] == right[count - 1]);
    }
}

/// What fragment `i` shows of itself within the columns `start..end`.
pub open spec fn visible_piece(fragments: Seq<FragmentView>, i: int, start: nat, end: nat) -> Seq<
    char,
> {
    let left = width_before(fragments, i);
    let right = left + fragments[i].render_width.columns();
    if right <= start || left >= end {
        Seq::empty()
    } else if left < start || right > end {
        seq!['~']
    } else {
        fragments[i].shown()
    }
}

/// What the first `count` fragments show within the columns `start..end`.
pub open spec fn visible_prefix(fragments: Seq<FragmentView>, count: int, start: nat, end: nat) -> Seq<
    char,
>
    decreases count,
{
    if count <= 0 {
        Seq::empty()
    } else {
        visible_prefix(fragments, count - 1, start, end) + visible_piece(
            fragments,
            count - 1,
            start,
            end,
        )
    }
}

/// What a line shows within the columns `start..end`; nothing when the
/// range is empty.
pub open spec fn visible(fragments: Seq<FragmentView>, start: nat, end: nat) -> Seq<char> {
    if start >= end {
        Seq::empty()
    } else {
        visible_prefix(fragments, fragments.len() as int, start, end)
    }
}

/// Once a fragment starts at or beyond the end of the range, nothing after
/// it shows.
pub proof fn lemma_visible_rest(
    fragments: Seq<FragmentView>,
    from: int,
    to: int,
    start: nat,
    end: nat,
)
    requires
        0 <= from <= to,
        from < to ==> width_before(fragments, from) >= end,
    ensures
        visible_prefix(fragments, to, start, end) == visible_prefix(fragments, from, start, end),
    decreases to - from,
{
    if from < to {
        lemma_visible_rest(fragments, from, to - 1, start, end);
        lemma_width_before_monotone(fragments, from, to - 1);
        assert(visible_piece(fragments, to - 1, start, end) =~= Seq::<char>::empty());
        assert(visible_prefix(fragments, to, start, end) =~= visible_prefix(
            fragments,
            to - 1,
            start,
            end,
        ));
    }
}

/// Whether fragment `i` is the last of a word (`ends`) or the first of one.
pub open spec fn boundary(fragments: Seq<FragmentView>, i: int, ends: bool) -> bool {
    &&& 0 <= i < fragments.len()
    &&& !fragments[i].is_space()
    &&& if ends {
        i + 1 == fragments.len() || fragments[i + 1].is_space()
    } else {
        i == 0 || fragments[i - 1].is_space()
    }
}

/// The least index at or after `from` that is a word boundary.
pub open spec fn first_boundary(fragments: Seq<FragmentView>, from: int, ends: bool) -> Option<int>
    decreases fragments.len() - from,
{
    if from < 0 || from >= fragments.len() {
        None
    } else if boundary(fragments, from, ends) {
        Some(from)
    } else {
        first_boundary(fragments, from + 1, ends)
    }
}

/// The greatest index below `before` at which a word starts.
pub open spec fn last_word_start(fragments: Seq<FragmentView>, before: int) -> Option<int>
    decreases before,
{
    if before <= 0 {
        None
    } else if before > fragments.len() {
        last_word_start(fragments, fragments.len() as int)
    } else if boundary(fragments, before - 1, false) {
        Some(before - 1)
    } else {
        last_word_start(fragments, before - 1)
    }
}

/// An index found by a scan, held against the index the model names.
pub open spec fn found_is(found: Option<usize>, model: Option<int>) -> bool {
    match model {
        Some(j) => found == Some(j as usize) && 0 <= j <= usize::MAX,
        None => found is None,
    }
}

/// `first_boundary` names the least boundary at or after `from`, and names
/// none exactly when there is none.
pub proof fn lemma_first_boundary_least(fragments: Seq<FragmentView>, from: int, ends: bool)
    requires
        0 <= from,
    ensures
        match first_boundary(fragments, from, ends) {
            Some(j) => from <= j < fragments.len() && boundary(fragments, j, ends) && forall|k: int|
                from <= k < j ==> !boundary(fragments, k, ends),
            None => forall|k: int| from <= k ==> !boundary(fragments, k, ends),
        },
    decreases fragments.len() - from,
{
    if from < fragments.len() && !boundary(fragments, from, ends) {
        lemma_first_boundary_least(fragments, from + 1, ends);
    }
}

/// `last_word_start` names the greatest word start below `before`, and
/// names none exactly when there is none.
pub proof fn lemma_last_word_start_greatest(fragments: Seq<FragmentView>, before: int)
    ensures
        match last_word_start(fragments, before) {
            Some(j) => 0 <= j < before && boundary(fragments, j, false) && forall|k: int|
                j < k < before ==> !boundary(fragments, k, false),
            None => forall|k: int| k < before ==> !boundary(fragments, k, false),
        },
    decreases before,
{
    if before > 0 {
        if before > fragments.len() {
            lemma_last_word_start_greatest(fragments, fragments.len() as int);
        } else if !boundary(fragments, before - 1, false) {
            lemma_last_word_start_greatest(fragments, before - 1);
        }
    }
}

/// The number of leading fragments, counted on from `from`, that lie
/// wholly within the first `column` columns.
pub open spec fn index_from(fragments: Seq<FragmentView>, from: int, column: nat) -> int
    decreases fragments.len() - from,
{
    if 0 <= from < fragments.len() && width_before(fragments, from + 1) <= column {
        index_from(fragments, from + 1, column)
    } else {
        from
    }
}

/// The fragment index a cursor in column `column` stands before: the
/// number of leading fragments that lie wholly within the first `column`
/// columns.
pub open spec fn index_at(fragments: Seq<FragmentView>, column: nat) -> int {
    index_from(fragments, 0, column)
}

/// The index found for a column is a fragment index of the line, the
/// fragments before it fit in the column, and the next one does not.
pub proof fn lemma_index_at(fragments: Seq<FragmentView>, column: nat, from: int)
    requires
        0 <= from <= fragments.len(),
        width_before(fragments, from) <= column,
    ensures
        from <= index_from(fragments, from, column) <= fragments.len(),
        width_before(fragments, index_from(fragments, from, column)) <= column,
        index_from(fragments, from, column) < fragments.len() ==> width_before(
            fragments,
            index_from(fragments, from, column) + 1,
        ) > column,
    decreases fragments.len() - from,
{
    if from < fragments.len() && width_before(fragments, from + 1) <= column {
        lemma_index_at(fragments, column, from + 1);
    }
}

/// A fragment put into a line makes the line wider by its own width.
pub proof fn lemma_total_width_insert(fragments: Seq<FragmentView>, at: int, fragment: FragmentView)
    requires
        0 <= at <= fragments.len(),
    ensures
        total_width(fragments.insert(at, fragment)) == total_width(fragments)
            + fragment.render_width.columns(),
{
    let left = fragments.take(at);
    let right = fragments.skip(at);
    assert(fragments =~= left + right);
    assert(fragments.insert(at, fragment) =~= (left + seq![fragment]) + right);
    lemma_total_width_concat(left, right);
    lemma_total_width_concat(left + seq![fragment], right);
    lemma_total_width_concat(left, seq![fragment]);
    assert(total_width(seq![fragment]) == fragment.render_width.columns()) by {
        assert(width_before(seq![fragment], 0) == 0);
    }
}

/// Whether every grapheme cluster of `text` is shown as it is: none is a
/// tab, holds a control character, or is of no width.
pub open spec fn shown_as_is(text: Seq<char>) -> bool {
    forall|i: int|
        0 <= i < grapheme_clusters(text).len() ==> display_override(
            #[trigger] grapheme_clusters(text)[i],
            display_columns(grapheme_clusters(text)[i]),
        ) is None
}

/// The first `count` fragments of a text whose clusters are all shown as
/// they are flatten to the first `count` clusters side by side.
pub proof fn lemma_plain_prefix_shows_itself(text: Seq<char>, count: int)
    requires
        shown_as_is(text),
        0 <= count <= grapheme_clusters(text).len(),
    ensures
        rendered(fragments_of(text).take(count)) == concat(grapheme_clusters(text).take(count)),
    decreases count,
{
    let clusters = grapheme_clusters(text);
    let fragments = fragments_of(text);
    if count > 0 {
        lemma_plain_prefix_shows_itself(text, count - 1);
        assert(fragments.take(count).drop_last() =~= fragments.take(count - 1));
        assert(clusters.take(count).drop_last() =~= clusters.take(count - 1));
        assert(fragments.take(count).last() == fragment_of(clusters[count - 1]));
        assert(clusters.take(count).last() == clusters[count - 1]);
        assert(fragment_of(clusters[count - 1]).shown() == clusters[count - 1]);
    }
}

/// A text whose clusters are all shown as they are, made into a line,
/// flattens to itself.
pub proof fn lemma_plain_text_shows_itself(text: Seq<char>)
    requires
        shown_as_is(text),
        concat(grapheme_clusters(text)) == text,
    ensures
        rendered(fragments_of(text)) == text,
{
    let count = grapheme_clusters(text).len() as int;
    lemma_plain_prefix_shows_itself(text, count);
    assert(fragments_of(text).take(count) =~= fragments_of(text));
    assert(grapheme_clusters(text).take(count) =~= grapheme_clusters(text));
}

impl Line {
    /// The flattened string agrees with the fragments, and every fragment
    /// has the width class and the substitute its grapheme calls for.
    pub open spec fn wf(&self) -> bool {
        &&& self.raw_string@ == rendered(self@)
        &&& all_wf(self@)
    }

    /// The line's width in columns, as `grapheme_len` reports it.
    pub open spec fn spec_grapheme_len(&self) -> usize {
        clamp_columns(total_width(self@))
    }

    /// An empty line.
    pub fn new() -> (line: Line)
        ensures
            line@ == Seq::<FragmentView>::empty(),
            line.wf(),
    {
        let line = Line { string: Vec::new(), raw_string: String::new() };
        assert(line@ =~= Seq::<FragmentView>::empty());
        line
    }

    /// Whether the line holds no fragment.
    pub fn is_empty(&self) -> (yes: bool)
        ensures
            yes == (self@.len() == 0),
    {
        self.string.len() == 0
    }

    /// The total render width of the line, stopping at `usize::MAX`.
    pub fn grapheme_len(&self) -> (columns: usize)
        ensures
            columns == self.spec_grapheme_len(),
    {
        let mut columns: usize = 0;
        let mut i: usize = 0;
        while i < self.string.len()
            invariant
                i <= self.string.len(),
                columns == clamp_columns(width_before(self@, i as int)),
            decreases self.string.len() - i,
        {
            columns = self.string[i].render_width.saturating_add(columns);
            i += 1;
        }
        columns
    }

    /// Splits `line_str` into grapheme clusters and makes a fragment of each.
    pub fn from(line_str: &str) -> (line: Line)
        ensures
            line@ == fragments_of(line_str@),
            line.wf(),
            concat(grapheme_clusters(line_str@)) == line_str@,
            shown_as_is(line_str@) ==> line.raw_string@ == line_str@,
    {
        let parts = split_graphemes(line_str);
        proof {
            if shown_as_is(line_str@) {
                lemma_plain_text_shows_itself(line_str@);
            }
        }
        let mut string: Vec<TextFragment> = Vec::new();
        let mut i: usize = 0;
        while i < parts.len()
            invariant
                i <= parts.len(),
                string.len() == i,
                views_of(parts@) == grapheme_clusters(line_str@),
                forall|j: int| 0 <= j < i ==> (#[trigger] string[j])@ == fragment_of(parts[j]@),
            decreases parts.len() - i,
        {
            let fragment = TextFragment::from_cluster(parts[i].clone());
            string.push(fragment);
            i += 1;
        }
        let mut line = Line { string, raw_string: String::new() };
        assert(line@ =~= fragments_of(line_str@)) by {
            assert forall|j: int| 0 <= j < line@.len() implies line@[j] == fragments_of(
                line_str@,
            )[j] by {
                assert(views_of(parts@)[j] == parts[j]@);
            }
        }
        line.generate_raw_string();
        line
    }

    /// Rebuilds the flattened string from the fragments.
    pub fn generate_raw_string(&mut self)
        ensures
            final(self).string == old(self).string,
            final(self).raw_string@ == rendered(final(self)@),
    {
        let mut raw = String::new();
        let mut i: usize = 0;
        while i < self.string.len()
            invariant
                i <= self.string.len(),
                raw@ == rendered(self@.take(i as int)),
            decreases self.string.len() - i,
        {
            proof {
                assert(self@.take(i + 1) =~= self@.take(i as int).push(self@[i as int]));
                lemma_rendered_push(self@.take(i as int), self@[i as int]);
            }
            match self.string[i].replacement_text {
                Some(c) => {
                    push_char(&mut raw, c);
                },
                None => {
                    raw.append(self.string[i].grapheme.as_str());
                },
            }
            i += 1;
        }
        assert(self@.take(self.string.len() as int) =~= self@);
        self.raw_string = raw;
    }

    /// The flattened string of the line.
    pub fn to_string(&self) -> (text: String)
        ensures
            text@ == self.raw_string@,
    {
        self.raw_string.clone()
    }

    /// The number of fragments that lie wholly within the first `column`
    /// columns: the fragment index a cursor at `column` stands before.
    pub fn fragment_index(&self, column: usize) -> (index: usize)
        ensures
            index == index_at(self@, column as nat),
            index <= self@.len(),
    {
        proof {
            lemma_index_at(self@, column as nat, 0);
        }
        let mut at: usize = 0;
        let mut i: usize = 0;
        while i < self.string.len()
            invariant
                i <= self.string.len(),
                at == width_before(self@, i as int),
                at <= column,
                index_at(self@, column as nat) == index_from(self@, i as int, column as nat),
                index_at(self@, column as nat) <= self@.len(),
            decreases self.string.len() - i,
        {
            let width = self.string[i].render_width.count();
            if column - at < width {
                return i;
            }
            at = at + width;
            i += 1;
        }
        i
    }

    /// The text shown for the columns `range.start..range.end`: fragments
    /// outside the range are left out, a fragment cut by either edge shows as
    /// `~`, and every other fragment shows its substitute or its grapheme.
    pub fn get(&self, range: Range<usize>) -> (text: String)
        ensures
            text@ == visible(self@, range.start as nat, range.end as nat),
    {
        let mut text = String::new();
        if range.start >= range.end {
            return text;
        }
        let mut at: usize = 0;
        let mut i: usize = 0;
        let mut done = false;
        while i < self.string.len() && !done
            invariant
                i <= self.string.len(),
                range.start < range.end,
                !done ==> at == width_before(self@, i as int),
                done ==> width_before(self@, i as int) >= range.end,
                text@ == visible_prefix(self@, i as int, range.start as nat, range.end as nat),
            decreases self.string.len() - i, if done { 0int } else { 1int },
        {
            if at >= range.end {
                done = true;
            } else {
                let width = self.string[i].render_width.count();
                let cut_right = range.end - at < width;
                let cut_left = at < range.start;
                let reaches = at >= range.start || range.start - at < width;
                if reaches {
                    if cut_left || cut_right {
                        push_char(&mut text, '~');
                    } else {
                        match self.string[i].replacement_text {
                            Some(c) => {
                                push_char(&mut text, c);
                            },
                            None => {
                                text.append(self.string[i].grapheme.as_str());
                            },
                        }
                    }
                }
                if cut_right {
                    done = true;
                } else {
                    at = at + width;
                }
                i += 1;
            }
        }
        proof {
            lemma_visible_rest(
                self@,
                i as int,
                self@.len() as int,
                range.start as nat,
                range.end as nat,
            );
        }
        text
    }

    /// The text shown for a range of columns; the same as [`Line::get`].
    pub fn get_line_subset(&self, range: Range<usize>) -> (text: String)
        ensures
            text@ == visible(self@, range.start as nat, range.end as nat),
    {
        self.get(range)
    }

    fn is_boundary(&self, i: usize, ends: bool) -> (yes: bool)
        requires
            i < self@.len(),
        ensures
            yes == boundary(self@, i as int, ends),
    {
        assert(self@.len() == self.string.len());
        if self.string[i].is_space() {
            false
        } else if ends {
            i + 1 == self.string.len() || self.string[i + 1].is_space()
        } else {
            i == 0 || self.string[i - 1].is_space()
        }
    }

    fn scan_forward(&self, from: usize, ends: bool) -> (found: Option<usize>)
        ensures
            found_is(found, first_boundary(self@, from as int, ends)),
    {
        let mut i: usize = from;
        while i < self.string.len()
            invariant
                from <= i,
                first_boundary(self@, from as int, ends) == first_boundary(self@, i as int, ends),
            decreases self.string.len() - i,
        {
            if self.is_boundary(i, ends) {
                return Some(i);
            }
            i += 1;
        }
        None
    }

    fn scan_backward(&self, before: usize) -> (found: Option<usize>)
        ensures
            found_is(found, last_word_start(self@, before as int)),
    {
        let mut i: usize = if before < self.string.len() {
            before
        } else {
            self.string.len()
        };
        while i > 0
            invariant
                i <= self@.len(),
                i <= before,
                last_word_start(self@, before as int) == last_word_start(self@, i as int),
            decreases i,
        {
            if self.is_boundary(i - 1, false) {
                return Some(i - 1);
            }
            i -= 1;
        }
        None
    }

    /// The start of the nearest word that begins right of fragment `at`.
    pub fn begining_of_next_word(&self, at: usize) -> (found: Option<usize>)
        ensures
            found_is(found, first_boundary(self@, at + 1, false)),
    {
        if at == usize::MAX {
            assert(self@.len() == self.string.len());
            None
        } else {
            self.scan_forward(at + 1, false)
        }
    }

    /// The start of the first word of the line.
    pub fn begining_of_next_word_spillover(&self) -> (found: Option<usize>)
        ensures
            found_is(found, first_boundary(self@, 0, false)),
    {
        self.scan_forward(0, false)
    }

    /// The end of the nearest word that ends right of fragment `at`.
    pub fn end_of_current_word(&self, at: usize) -> (found: Option<usize>)
        ensures
            found_is(found, first_boundary(self@, at + 1, true)),
    {
        if at == usize::MAX {
            assert(self@.len() == self.string.len());
            None
        } else {
            self.scan_forward(at + 1, true)
        }
    }

    /// The end of the first word of the line.
    pub fn end_of_current_word_spillover(&self) -> (found: Option<usize>)
        ensures
            found_is(found, first_boundary(self@, 0, true)),
    {
        self.scan_forward(0, true)
    }

    /// The start of the nearest word that begins left of fragment `at`.
    pub fn begining_of_current_word(&self, at: usize) -> (found: Option<usize>)
        ensures
            found_is(found, last_word_start(self@, at as int)),
    {
        self.scan_backward(at)
    }

    /// The start of the last word of the line.
    pub fn begining_of_current_word_spillover(&self) -> (found: Option<usize>)
        ensures
            found_is(found, last_word_start(self@, self@.len() as int)),
    {
        self.scan_backward(self.string.len())
    }
}

/// The columns taken by the first `count` of `clusters`, each measured on
/// its own.
pub open spec fn columns_before(clusters: Seq<Seq<char>>, count: int) -> nat
    decreases count,
{
    if count <= 0 {
        0
    } else {
        columns_before(clusters, count - 1) + display_columns(clusters[count - 1])
    }
}

/// The display width of a text: the sum of the widths of its grapheme
/// clusters.
pub open spec fn display_width(text: Seq<char>) -> nat {
    columns_before(grapheme_clusters(text), grapheme_clusters(text).len() as int)
}

/// For a text whose grapheme clusters are each one or two columns wide,
/// the line made from it is as wide as the text is on display.
pub proof fn lemma_line_width_is_display_width(text: Seq<char>)
    requires
        forall|i: int|
            0 <= i < grapheme_clusters(text).len() ==> 1 <= display_columns(
                #[trigger] grapheme_clusters(text)[i],
            ) <= 2,
    ensures
        total_width(fragments_of(text)) == display_width(text),
        clamp_columns(total_width(fragments_of(text))) == clamp_columns(display_width(text)),
{
    lemma_widths_agree(text, grapheme_clusters(text).len() as int);
}

proof fn lemma_widths_agree(text: Seq<char>, count: int)
    requires
        0 <= count <= grapheme_clusters(text).len(),
        forall|i: int|
            0 <= i < grapheme_clusters(text).len() ==> 1 <= display_columns(
                #[trigger] grapheme_clusters(text)[i],
            ) <= 2,
    ensures
        width_before(fragments_of(text), count) == columns_before(grapheme_clusters(text), count),
    decreases count,
{
    if count > 0 {
        lemma_widths_agree(text, count - 1);
        let cluster = grapheme_clusters(text)[count - 1];
        assert(fragments_of(text)[count - 1] == fragment_of(cluster));
        assert(1 <= display_columns(cluster) <= 2);
    }
}

/// What a well-formed fragment shows holds no control character.
pub proof fn lemma_shown_has_no_control(fragment: FragmentView)
    requires
        fragment.wf(),
    ensures
        !has_control(fragment.shown()),
{
    let shown = fragment.shown();
    if has_control(shown) {
        let k = choose|k: int| 0 <= k < shown.len() && crate::text::is_control(#[trigger] shown[k]);
        if fragment.replacement_text is None {
            assert(crate::text::is_control(fragment.grapheme[k]));
            assert(has_control(fragment.grapheme));
        }
    }
}

/// The flattened string of well-formed fragments holds no control
/// character, so no line feed and no carriage return.
pub proof fn lemma_rendered_has_no_control(fragments: Seq<FragmentView>)
    requires
        all_wf(fragments),
    ensures
        !has_control(rendered(fragments)),
        crate::text::single_line(rendered(fragments)),
    decreases fragments.len(),
{
    if fragments.len() > 0 {
        let front = fragments.drop_last();
        assert(all_wf(front)) by {
            assert forall|i: int| 0 <= i < front.len() implies (#[trigger] front[i]).wf() by {
                assert(front[i] == fragments[i]);
            }
        }
        lemma_rendered_has_no_control(front);
        lemma_shown_has_no_control(fragments.last());
        let whole = rendered(fragments);
        let left = rendered(front);
        let right = fragments.last().shown();
        if has_control(whole) {
            let k = choose|k: int|
                0 <= k < whole.len() && crate::text::is_control(#[trigger] whole[k]);
            if k < left.len() {
                assert(crate::text::is_control(left[k]));
            } else {
                assert(crate::text::is_control(right[k - left.len()]));
            }
        }
    }
    let whole = rendered(fragments);
    assert forall|i: int| 0 <= i < whole.len() implies whole[i] != '\n' && whole[i] != '\r' by {
        if whole[i] == '\n' || whole[i] == '\r' {
            assert(crate::text::is_control(whole[i]));
        }
    }
}

} // verus!
