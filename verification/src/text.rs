//! Text primitives: grapheme segmentation, display width, and the few
//! character and string operations the rest of the crate is built on.

use unicode_segmentation::UnicodeSegmentation;
use unicode_width::UnicodeWidthStr;
use vstd::prelude::*;
use vstd::string::StringSliceAdditionalSpecFns;
use vstd::utf8::{
    decode_utf8, encode_utf8, encode_utf8_decode_utf8, encode_utf8_valid_utf8, is_char_boundary,
    is_char_boundary_iff_not_is_continuation_byte, is_char_boundary_start_end_of_seq,
    length_of_first_scalar, pop_first_scalar, valid_utf8, valid_utf8_split,
};

verus! {

/// The extended grapheme clusters of `text`, in order, as computed by
/// `unicode_segmentation::UnicodeSegmentation::graphemes(text, true)`.
pub uninterp spec fn grapheme_clusters(text: Seq<char>) -> Seq<Seq<char>>;

/// The number of terminal columns `text` occupies, as computed by
/// `unicode_width::UnicodeWidthStr::width`.
pub uninterp spec fn display_columns(text: Seq<char>) -> nat;

/// The concatenation of `parts`, in order.
pub open spec fn concat(parts: Seq<Seq<char>>) -> Seq<char>
    decreases parts.len(),
{
    if parts.len() == 0 {
        Seq::empty()
    } else {
        concat(parts.drop_last()) + parts.last()
    }
}

/// The views of the strings in `parts`.
pub open spec fn views_of(parts: Seq<String>) -> Seq<Seq<char>> {
    Seq::new(parts.len(), |i: int| parts[i]@)
}

/// Calls `UnicodeSegmentation::graphemes(text, true)` and collects the
/// clusters as owned strings.
///
/// Trusted: the result is the crate's extended grapheme segmentation of
/// `text`. The iterator hands out consecutive slices of `text` from its
/// start to its end, so the concatenation of the clusters is `text`.
#[verifier::external_body]
pub(crate) fn split_graphemes(text: &str) -> (parts: Vec<String>)
    ensures
        views_of(parts@) == grapheme_clusters(text@),
        concat(views_of(parts@)) == text@,
{
    text.graphemes(true).map(String::from).collect()
}

/// Calls `UnicodeWidthStr::width(text)`.
///
/// Trusted: the result is the crate's column count for `text`.
#[verifier::external_body]
pub(crate) fn columns_of(text: &str) -> (columns: usize)
    ensures
        columns == display_columns(text@),
{
    UnicodeWidthStr::width(text)
}

/// Calls `String::push`.
///
/// Trusted: the string grows by exactly the character `c` at its end.
#[verifier::external_body]
pub(crate) fn push_char(text: &mut String, c: char)
    ensures
        final(text)@ == old(text)@.push(c),
{
    text.push(c)
}

/// Whether `c` is a control character (general category Cc).
pub open spec fn is_control(c: char) -> bool {
    c as u32 <= 0x1f || 0x7f <= c as u32 <= 0x9f
}

/// Whether `c` has the Unicode `White_Space` property.
pub open spec fn is_whitespace(c: char) -> bool {
    let n = c as u32;
    ||| 0x09 <= n <= 0x0d
    ||| n == 0x20
    ||| n == 0x85
    ||| n == 0xa0
    ||| n == 0x1680
    ||| 0x2000 <= n <= 0x200a
    ||| n == 0x2028
    ||| n == 0x2029
    ||| n == 0x202f
    ||| n == 0x205f
    ||| n == 0x3000
}

/// Whether some character of `text` is a control character.
pub open spec fn has_control(text: Seq<char>) -> bool {
    exists|i: int| 0 <= i < text.len() && is_control(#[trigger] text[i])
}

/// Whether `text` holds nothing but white space.
pub open spec fn is_blank(text: Seq<char>) -> bool {
    forall|i: int| 0 <= i < text.len() ==> is_whitespace(#[trigger] text[i])
}

/// Whether `c` is a control character.
pub fn is_control_char(c: char) -> (yes: bool)
    ensures
        yes == is_control(c),
{
    let n: u32 = c as u32;
    n <= 0x1f || (0x7f <= n && n <= 0x9f)
}

/// Whether `c` is white space.
pub fn is_whitespace_char(c: char) -> (yes: bool)
    ensures
        yes == is_whitespace(c),
{
    let n: u32 = c as u32;
    (0x09 <= n && n <= 0x0d) || n == 0x20 || n == 0x85 || n == 0xa0 || n == 0x1680 || (0x2000 <= n
        && n <= 0x200a) || n == 0x2028 || n == 0x2029 || n == 0x202f || n == 0x205f || n == 0x3000
}

/// The characters of `text`, in order.
pub fn chars_of(text: &str) -> (chars: Vec<char>)
    ensures
        chars@ == text@,
{
    let mut chars: Vec<char> = Vec::new();
    for c in it: text.chars()
        invariant
            chars@ == it.seq().take(it.index()),
            it.seq() == text@,
    {
        chars.push(c);
    }
    chars
}

/// `line` without the carriage return at its end, if it has one.
pub open spec fn strip_cr(line: Seq<char>) -> Seq<char> {
    if line.len() > 0 && line.last() == '\r' {
        line.drop_last()
    } else {
        line
    }
}

/// The lines of `text` from the line that starts at `start`, given that no
/// line feed lies in `start..i`. A line ends at a line feed, or at a
/// carriage return followed by one; neither belongs to the line. What
/// follows the last line feed is a line of its own unless it is empty.
pub open spec fn lines_from(text: Seq<char>, start: int, i: int) -> Seq<Seq<char>>
    decreases text.len() - i,
{
    if i >= text.len() {
        if start < text.len() {
            seq![text.subrange(start, text.len() as int)]
        } else {
            Seq::empty()
        }
    } else if text[i] == '\n' {
        seq![strip_cr(text.subrange(start, i))] + lines_from(text, i + 1, i + 1)
    } else {
        lines_from(text, start, i + 1)
    }
}

/// The lines of `text`.
pub open spec fn lines_of(text: Seq<char>) -> Seq<Seq<char>> {
    lines_from(text, 0, 0)
}

/// Whether some character of `text` is a control character.
pub fn contains_control(text: &str) -> (yes: bool)
    ensures
        yes == has_control(text@),
{
    let chars = chars_of(text);
    let mut i: usize = 0;
    while i < chars.len()
        invariant
            i <= chars.len(),
            chars@ == text@,
            forall|k: int| 0 <= k < i ==> !is_control(#[trigger] text@[k]),
        decreases chars.len() - i,
    {
        if is_control_char(chars[i]) {
            assert(is_control(text@[i as int]));
            return true;
        }
        i += 1;
    }
    false
}

/// Whether `text` holds nothing but white space.
pub fn is_blank_text(text: &str) -> (yes: bool)
    ensures
        yes == is_blank(text@),
{
    let chars = chars_of(text);
    let mut i: usize = 0;
    while i < chars.len()
        invariant
            i <= chars.len(),
            chars@ == text@,
            forall|k: int| 0 <= k < i ==> is_whitespace(#[trigger] text@[k]),
        decreases chars.len() - i,
    {
        if !is_whitespace_char(chars[i]) {
            assert(!is_whitespace(text@[i as int]));
            return false;
        }
        i += 1;
    }
    true
}

/// Whether `text` is the single character `c`.
pub fn is_one_char(text: &str, c: char) -> (yes: bool)
    ensures
        yes == (text@ == seq![c]),
{
    let yes = text.unicode_len() == 1 && text.get_char(0) == c;
    assert(yes == (text@ == seq![c])) by {
        if yes {
            assert(text@ =~= seq![c]);
        }
    }
    yes
}

/// The string that holds `chars[from..to]`.
pub fn string_of(chars: &Vec<char>, from: usize, to: usize) -> (text: String)
    requires
        from <= to <= chars.len(),
    ensures
        text@ == chars@.subrange(from as int, to as int),
{
    let mut text = String::new();
    let mut i: usize = from;
    while i < to
        invariant
            from <= i <= to <= chars.len(),
            text@ == chars@.subrange(from as int, i as int),
        decreases to - i,
    {
        push_char(&mut text, chars[i]);
        assert(chars@.subrange(from as int, i + 1) =~= chars@.subrange(from as int, i as int).push(
            chars@[i as int],
        ));
        i += 1;
    }
    text
}

/// Takes the last character off `text` and hands it back; an empty text
/// stays empty and gives nothing.
pub fn pop_char(text: &mut String) -> (last: Option<char>)
    ensures
        old(text)@.len() == 0 ==> last is None && final(text)@ == old(text)@,
        old(text)@.len() > 0 ==> last == Some(old(text)@.last()) && final(text)@ == old(
            text,
        )@.drop_last(),
{
    let chars = chars_of(text.as_str());
    if chars.len() == 0 {
        None
    } else {
        let kept = chars.len() - 1;
        *text = string_of(&chars, 0, kept);
        assert(chars@.subrange(0, kept as int) =~= chars@.drop_last());
        Some(chars[kept])
    }
}

/// Splits `text` into its lines.
pub fn split_lines(text: &str) -> (lines: Vec<String>)
    ensures
        views_of(lines@) == lines_of(text@),
{
    let chars = chars_of(text);
    let mut lines: Vec<String> = Vec::new();
    let mut start: usize = 0;
    let mut i: usize = 0;
    assert(views_of(lines@) =~= Seq::<Seq<char>>::empty());
    while i < chars.len()
        invariant
            start <= i <= chars.len(),
            chars@ == text@,
            lines_of(text@) == views_of(lines@) + lines_from(text@, start as int, i as int),
        decreases chars.len() - i,
    {
        if chars[i] == '\n' {
            let end = if i > start && chars[i - 1] == '\r' {
                i - 1
            } else {
                i
            };
            let line = string_of(&chars, start, end);
            proof {
                let whole = chars@.subrange(start as int, i as int);
                assert(line@ =~= strip_cr(whole));
                assert(views_of(lines@.push(line)) =~= views_of(lines@) + seq![line@]);
            }
            lines.push(line);
            start = i + 1;
        }
        i += 1;
    }
    if start < chars.len() {
        let line = string_of(&chars, start, chars.len());
        proof {
            assert(views_of(lines@.push(line)) =~= views_of(lines@) + seq![line@]);
        }
        lines.push(line);
    } else {
        assert(views_of(lines@) + Seq::<Seq<char>>::empty() =~= views_of(lines@));
    }
    lines
}

/// Whether `needle` lies in `hay` at byte offset `at`.
pub open spec fn matches_at(hay: Seq<u8>, needle: Seq<u8>, at: int) -> bool {
    &&& 0 <= at
    &&& at + needle.len() <= hay.len()
    &&& hay.subrange(at, at + needle.len()) == needle
}

/// The byte offsets at or after `from` at which a non-empty `needle` lies
/// in `hay`, leftmost first and without overlap: the search resumes right
/// after each occurrence.
pub open spec fn occurrences_from(hay: Seq<u8>, needle: Seq<u8>, from: int) -> Seq<int>
    decreases hay.len() - from,
{
    if needle.len() == 0 || from < 0 || from + needle.len() > hay.len() {
        Seq::empty()
    } else if matches_at(hay, needle, from) {
        seq![from] + occurrences_from(hay, needle, from + needle.len())
    } else {
        occurrences_from(hay, needle, from + 1)
    }
}

/// The byte offsets at or after `from`, up to and including the length of
/// `hay`, that fall between two characters of the text `hay` encodes.
pub open spec fn boundaries_from(hay: Seq<u8>, from: int) -> Seq<int>
    decreases hay.len() - from + 1,
{
    if from < 0 || from > hay.len() {
        Seq::empty()
    } else if is_char_boundary(hay, from) {
        seq![from] + boundaries_from(hay, from + 1)
    } else {
        boundaries_from(hay, from + 1)
    }
}

/// Where `needle` is found in `hay`. An empty needle is found between any
/// two characters, and at both ends.
pub open spec fn match_offsets(hay: Seq<u8>, needle: Seq<u8>) -> Seq<int> {
    if needle.len() == 0 {
        boundaries_from(hay, 0)
    } else {
        occurrences_from(hay, needle, 0)
    }
}

/// A run of machine integers as mathematical ones.
pub open spec fn as_ints(offsets: Seq<usize>) -> Seq<int> {
    Seq::new(offsets.len(), |i: int| offsets[i] as int)
}

fn bytes_match(hay: &[u8], needle: &[u8], at: usize) -> (yes: bool)
    requires
        at + needle@.len() <= hay@.len(),
    ensures
        yes == matches_at(hay@, needle@, at as int),
{
    let mut k: usize = 0;
    let hay_len = hay.len();
    while k < needle.len()
        invariant
            k <= needle@.len(),
            at + needle@.len() <= hay@.len(),
            hay_len == hay@.len(),
            forall|j: int| 0 <= j < k ==> hay@[at + j] == needle@[j],
        decreases needle.len() - k,
    {
        if hay[at + k] != needle[k] {
            assert(hay@.subrange(at as int, at + needle@.len())[k as int] != needle@[k as int]);
            return false;
        }
        k += 1;
    }
    assert(hay@.subrange(at as int, at + needle@.len()) =~= needle@);
    true
}

/// The byte offsets at which `needle` is found in `hay`.
pub fn find_offsets(hay: &str, needle: &str) -> (offsets: Vec<usize>)
    ensures
        as_ints(offsets@) == match_offsets(hay.spec_bytes(), needle.spec_bytes()),
{
    let hay_bytes = hay.as_bytes();
    let needle_bytes = needle.as_bytes();
    let hay_len = hay_bytes.len();
    let needle_len = needle_bytes.len();
    let mut offsets: Vec<usize> = Vec::new();
    let mut i: usize = 0;
    assert(as_ints(offsets@) =~= Seq::<int>::empty());
    if needle_len == 0 {
        let mut done = false;
        while !done
            invariant
                i <= hay_len,
                hay_len == hay.spec_bytes().len(),
                boundaries_from(hay.spec_bytes(), 0) == as_ints(offsets@) + if done {
                    Seq::<int>::empty()
                } else {
                    boundaries_from(hay.spec_bytes(), i as int)
                },
            decreases hay_len - i, if done { 0int } else { 1int },
        {
            let ghost rest = boundaries_from(hay.spec_bytes(), i + 1);
            let ghost found = as_ints(offsets@);
            if hay.is_char_boundary(i) {
                assert(as_ints(offsets@.push(i)) =~= found + seq![i as int]);
                assert(found + (seq![i as int] + rest) =~= (found + seq![i as int]) + rest);
                offsets.push(i);
            }
            if i == hay_len {
                assert(rest =~= Seq::<int>::empty());
                done = true;
            } else {
                i += 1;
            }
        }
        assert(as_ints(offsets@) + Seq::<int>::empty() =~= as_ints(offsets@));
        offsets
    } else {
        while needle_len <= hay_len && i <= hay_len - needle_len
            invariant
                i <= hay_len,
                needle_len > 0,
                hay_len == hay_bytes@.len(),
                needle_len == needle_bytes@.len(),
                hay_bytes@ == hay.spec_bytes(),
                needle_bytes@ == needle.spec_bytes(),
                occurrences_from(hay_bytes@, needle_bytes@, 0) == as_ints(offsets@)
                    + occurrences_from(hay_bytes@, needle_bytes@, i as int),
            decreases hay_len - i,
        {
            let ghost found = as_ints(offsets@);
            if bytes_match(hay_bytes, needle_bytes, i) {
                let ghost rest = occurrences_from(hay_bytes@, needle_bytes@, i + needle_len);
                assert(as_ints(offsets@.push(i)) =~= found + seq![i as int]);
                assert(found + (seq![i as int] + rest) =~= (found + seq![i as int]) + rest);
                offsets.push(i);
                i += needle_len;
            } else {
                i += 1;
            }
        }
        assert(as_ints(offsets@) + Seq::<int>::empty() =~= as_ints(offsets@));
        offsets
    }
}

/// The text held by the bytes `from..to` of the UTF-8 encoding of `text`.
pub open spec fn byte_slice(text: Seq<char>, from: int, to: int) -> Seq<char> {
    decode_utf8(encode_utf8(text).subrange(from, to))
}

/// Whether the bytes `from..to` of the encoding of `text` can be cut out:
/// the range lies within the encoding and cuts through no character.
pub open spec fn sliceable(text: Seq<char>, from: int, to: int) -> bool {
    &&& 0 <= from <= to <= encode_utf8(text).len()
    &&& is_char_boundary(encode_utf8(text), from)
    &&& is_char_boundary(encode_utf8(text), to)
}

/// The part of `text` held by the bytes `from..to` of its encoding.
pub fn slice_bytes<'a>(text: &'a str, from: usize, to: usize) -> (piece: &'a str)
    requires
        sliceable(text@, from as int, to as int),
    ensures
        piece@ == byte_slice(text@, from as int, to as int),
{
    let ghost bytes = text.spec_bytes();
    let (_, tail) = text.split_at(from);
    proof {
        let rest = tail.spec_bytes();
        encode_utf8_valid_utf8(text@);
        encode_utf8_valid_utf8(tail@);
        assert(rest =~= bytes.subrange(from as int, bytes.len() as int));
        if to < bytes.len() {
            is_char_boundary_iff_not_is_continuation_byte(bytes, to as int);
            if to > from {
                is_char_boundary_iff_not_is_continuation_byte(rest, to - from);
            } else {
                is_char_boundary_start_end_of_seq(rest);
            }
        } else {
            is_char_boundary_start_end_of_seq(rest);
        }
    }
    let (piece, _) = tail.split_at(to - from);
    proof {
        assert(piece.spec_bytes() =~= bytes.subrange(from as int, to as int));
        encode_utf8_decode_utf8(piece@);
    }
    piece
}

/// Whether `text` holds no line feed and no carriage return.
pub open spec fn single_line(text: Seq<char>) -> bool {
    forall|i: int| 0 <= i < text.len() ==> text[i] != '\n' && text[i] != '\r'
}

/// Splitting looks at the text from the scan position on, and at the
/// current line's start: what comes before neither changes the lines.
pub proof fn lemma_lines_from_shift(head: Seq<char>, tail: Seq<char>, start: int, i: int)
    requires
        0 <= start <= i <= tail.len(),
    ensures
        lines_from(head + tail, head.len() + start, head.len() + i) == lines_from(tail, start, i),
    decreases tail.len() - i,
{
    let whole = head + tail;
    if i >= tail.len() {
        if start < tail.len() {
            assert(whole.subrange(head.len() + start, whole.len() as int) =~= tail.subrange(
                start,
                tail.len() as int,
            ));
        }
    } else {
        assert(whole[head.len() + i] == tail[i]);
        if tail[i] == '\n' {
            assert(whole.subrange(head.len() + start, head.len() + i) =~= tail.subrange(start, i));
            lemma_lines_from_shift(head, tail, i + 1, i + 1);
        } else {
            lemma_lines_from_shift(head, tail, start, i + 1);
        }
    }
}

/// A text that ends with a line feed, followed by more text, splits into
/// the lines of the one followed by the lines of the other.
pub proof fn lemma_lines_from_append(head: Seq<char>, tail: Seq<char>, start: int, i: int)
    requires
        0 <= start <= i <= head.len(),
        head.len() > 0 ==> head.last() == '\n',
        forall|k: int| start <= k < i ==> head[k] != '\n',
    ensures
        lines_from(head + tail, start, i) == lines_from(head, start, i) + lines_from(tail, 0, 0),
    decreases head.len() - i,
{
    let whole = head + tail;
    if i >= head.len() {
        assert(start == i);
        lemma_lines_from_shift(head, tail, 0, 0);
        assert(lines_from(head, start, i) + lines_from(tail, 0, 0) =~= lines_from(tail, 0, 0));
    } else {
        assert(whole[i] == head[i]);
        if head[i] == '\n' {
            assert(whole.subrange(start, i) =~= head.subrange(start, i));
            lemma_lines_from_append(head, tail, i + 1, i + 1);
            assert(lines_from(whole, start, i) =~= lines_from(head, start, i) + lines_from(
                tail,
                0,
                0,
            ));
        } else {
            lemma_lines_from_append(head, tail, start, i + 1);
        }
    }
}

/// A single line followed by a line feed splits into that line alone.
pub proof fn lemma_lines_of_one(line: Seq<char>, i: int)
    requires
        single_line(line),
        0 <= i <= line.len(),
    ensures
        lines_from(line + seq!['\n'], 0, i) == seq![line],
    decreases line.len() - i,
{
    let whole = line + seq!['\n'];
    if i < line.len() {
        assert(whole[i] == line[i]);
        lemma_lines_of_one(line, i + 1);
    } else {
        assert(whole[i] == '\n');
        assert(whole.subrange(0, i) =~= line);
        if line.len() > 0 {
            assert(line.last() == line[line.len() - 1]);
        }
        assert(strip_cr(line) == line);
        assert(seq![line] + lines_from(whole, i + 1, i + 1) =~= seq![line]);
    }
}

/// A text that another text starts with ends between two characters of
/// it.
pub proof fn lemma_prefix_ends_on_boundary(hay: Seq<u8>, needle: Seq<u8>)
    requires
        valid_utf8(hay),
        valid_utf8(needle),
        needle.len() <= hay.len(),
        hay.subrange(0, needle.len() as int) == needle,
    ensures
        is_char_boundary(hay, needle.len() as int),
    decreases needle.len(),
{
    if needle.len() > 0 {
        assert(hay[0] == hay.subrange(0, needle.len() as int)[0]);
        let width = length_of_first_scalar(needle);
        assert(length_of_first_scalar(hay) == width);
        assert(1 <= width <= needle.len());
        let rest = pop_first_scalar(hay);
        let left = pop_first_scalar(needle);
        assert(rest.subrange(0, left.len() as int) =~= left) by {
            assert forall|k: int| 0 <= k < left.len() implies rest[k] == left[k] by {
                assert(hay.subrange(0, needle.len() as int)[k + width] == needle[k + width]);
            }
        }
        lemma_prefix_ends_on_boundary(rest, left);
        reveal_with_fuel(is_char_boundary, 2);
    }
}

/// Where a non-empty text is found within another, it begins and ends
/// between two characters of it.
pub proof fn lemma_match_on_boundaries(hay: Seq<u8>, needle: Seq<u8>, at: int)
    requires
        valid_utf8(hay),
        valid_utf8(needle),
        needle.len() > 0,
        matches_at(hay, needle, at),
    ensures
        is_char_boundary(hay, at),
        is_char_boundary(hay, at + needle.len()),
{
    let end = at + needle.len();
    assert(hay[at] == hay.subrange(at, end)[0]);
    is_char_boundary_iff_not_is_continuation_byte(needle, 0);
    is_char_boundary_iff_not_is_continuation_byte(hay, at);
    valid_utf8_split(hay, at);
    let tail = hay.subrange(at, hay.len() as int);
    assert(tail.subrange(0, needle.len() as int) =~= needle);
    lemma_prefix_ends_on_boundary(tail, needle);
    if end < hay.len() {
        is_char_boundary_iff_not_is_continuation_byte(tail, needle.len() as int);
        is_char_boundary_iff_not_is_continuation_byte(hay, end);
        assert(tail[needle.len() as int] == hay[end]);
    } else {
        is_char_boundary_start_end_of_seq(hay);
    }
}

/// Every occurrence listed lies at or after `from`, is an occurrence, and
/// begins no earlier than the one before it ends.
pub proof fn lemma_occurrences(hay: Seq<u8>, needle: Seq<u8>, from: int, j: int)
    requires
        0 <= from,
        0 <= j < occurrences_from(hay, needle, from).len(),
    ensures
        from <= occurrences_from(hay, needle, from)[j],
        matches_at(hay, needle, occurrences_from(hay, needle, from)[j]),
        j > 0 ==> occurrences_from(hay, needle, from)[j - 1] + needle.len() <= occurrences_from(
            hay,
            needle,
            from,
        )[j],
    decreases hay.len() - from,
{
    if matches_at(hay, needle, from) {
        let rest = occurrences_from(hay, needle, from + needle.len());
        assert(occurrences_from(hay, needle, from) == seq![from] + rest);
        if j > 0 {
            lemma_occurrences(hay, needle, from + needle.len(), j - 1);
        }
    } else {
        lemma_occurrences(hay, needle, from + 1, j);
    }
}

/// Every boundary listed lies at or after `from` and within the text, is a
/// boundary, and comes after the one before it.
pub proof fn lemma_boundaries(hay: Seq<u8>, from: int, j: int)
    requires
        0 <= from,
        0 <= j < boundaries_from(hay, from).len(),
    ensures
        from <= boundaries_from(hay, from)[j] <= hay.len(),
        is_char_boundary(hay, boundaries_from(hay, from)[j]),
        j > 0 ==> boundaries_from(hay, from)[j - 1] < boundaries_from(hay, from)[j],
    decreases hay.len() - from + 1,
{
    if is_char_boundary(hay, from) {
        let rest = boundaries_from(hay, from + 1);
        assert(boundaries_from(hay, from) == seq![from] + rest);
        if j > 0 {
            lemma_boundaries(hay, from + 1, j - 1);
            if j > 1 {
            } else {
                assert(rest[0] >= from + 1);
            }
        }
    } else {
        lemma_boundaries(hay, from + 1, j);
    }
}

/// The byte offset at which piece `j` of a text split around the matches
/// at `offsets` begins: the start of the text, or the end of the match
/// before it.
pub open spec fn piece_start(offsets: Seq<int>, width: int, j: int) -> int {
    if j <= 0 {
        0
    } else {
        offsets[j - 1] + width
    }
}

/// The first `count` pieces of `text` split around the matches at
/// `offsets`, each match `width` bytes long.
pub open spec fn pieces_before(text: Seq<char>, offsets: Seq<int>, width: int, count: int) -> Seq<
    Seq<char>,
>
    decreases count,
{
    if count <= 0 {
        Seq::empty()
    } else {
        pieces_before(text, offsets, width, count - 1).push(
            byte_slice(text, piece_start(offsets, width, count - 1), offsets[count - 1]),
        )
    }
}

/// The pieces of `text` that lie between the places `needle` is found at:
/// what comes before the first, between each two, and after the last.
pub open spec fn pieces_around(text: Seq<char>, needle: Seq<char>) -> Seq<Seq<char>> {
    let offsets = match_offsets(encode_utf8(text), encode_utf8(needle));
    let width = encode_utf8(needle).len() as int;
    pieces_before(text, offsets, width, offsets.len() as int).push(
        byte_slice(
            text,
            piece_start(offsets, width, offsets.len() as int),
            encode_utf8(text).len() as int,
        ),
    )
}

/// Splits `hay` around the places `needle` is found at.
pub fn split_around(hay: &str, needle: &str) -> (pieces: Vec<String>)
    ensures
        views_of(pieces@) == pieces_around(hay@, needle@),
        pieces.len() == match_offsets(hay.spec_bytes(), needle.spec_bytes()).len() + 1,
{
    let offsets = find_offsets(hay, needle);
    let width = needle.as_bytes().len();
    let end = hay.as_bytes().len();
    let ghost bytes = hay.spec_bytes();
    let ghost found = match_offsets(bytes, needle.spec_bytes());
    let mut pieces: Vec<String> = Vec::new();
    let mut from: usize = 0;
    let mut k: usize = 0;
    proof {
        encode_utf8_valid_utf8(hay@);
        encode_utf8_valid_utf8(needle@);
        is_char_boundary_start_end_of_seq(bytes);
        assert(views_of(pieces@) =~= pieces_before(hay@, found, width as int, 0));
    }
    while k < offsets.len()
        invariant
            k <= offsets.len(),
            bytes == hay.spec_bytes(),
            bytes == encode_utf8(hay@),
            valid_utf8(bytes),
            valid_utf8(needle.spec_bytes()),
            width == needle.spec_bytes().len(),
            end == bytes.len(),
            found == match_offsets(bytes, needle.spec_bytes()),
            as_ints(offsets@) == found,
            pieces.len() == k,
            from == piece_start(found, width as int, k as int),
            from <= end,
            is_char_boundary(bytes, from as int),
            views_of(pieces@) == pieces_before(hay@, found, width as int, k as int),
        decreases offsets.len() - k,
    {
        let at = offsets[k];
        proof {
            assert(as_ints(offsets@)[k as int] == at);
            if width == 0 {
                lemma_boundaries(bytes, 0, k as int);
            } else {
                lemma_occurrences(bytes, needle.spec_bytes(), 0, k as int);
                lemma_match_on_boundaries(bytes, needle.spec_bytes(), at as int);
            }
        }
        let piece = slice_bytes(hay, from, at).to_owned();
        proof {
            assert(views_of(pieces@.push(piece)) =~= views_of(pieces@).push(piece@));
        }
        pieces.push(piece);
        from = at + width;
        k += 1;
    }
    let piece = slice_bytes(hay, from, end).to_owned();
    proof {
        assert(views_of(pieces@.push(piece)) =~= views_of(pieces@).push(piece@));
        assert(as_ints(offsets@).len() == offsets.len());
    }
    pieces.push(piece);
    pieces
}

} // verus!
