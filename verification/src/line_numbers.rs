//! Where the lines of a source text begin, and the two conversions between
//! byte offsets and editor positions.
//!
//! An editor addresses a character by its line and by the number of UTF-16
//! code units that precede it on that line. The text itself is UTF-8. A
//! scalar value encoded in four bytes takes two UTF-16 units, every other
//! scalar takes one, so the units before an offset can be counted on the
//! leading bytes alone.

use crate::protocol::{Position, Range};
use crate::span::SrcSpan;
use vstd::prelude::*;
use vstd::string::*;
use vstd::utf8::*;

verus! {

/// The byte that ends a line.
pub const LINE_FEED: u8 = 10;

/// A byte that continues a scalar value begun by an earlier byte.
pub open spec fn is_continuation(byte: u8) -> bool {
    0x80 <= byte <= 0xBF
}

/// The UTF-16 units of the scalar value that `byte` begins: none where the
/// byte only continues one.
pub open spec fn utf16_width(byte: u8) -> int {
    if is_continuation(byte) {
        0
    } else if byte >= 0xF0 {
        2
    } else {
        1
    }
}

/// The UTF-16 units of the scalar values that begin in `text[from..to]`.
pub open spec fn utf16_units(text: Seq<u8>, from: int, to: int) -> int
    decreases to - from,
{
    if from < 0 || to > text.len() || to <= from {
        0
    } else {
        utf16_units(text, from, to - 1) + utf16_width(text[to - 1])
    }
}

/// No line ends in `text[from..to]`.
pub open spec fn no_line_feed(text: Seq<u8>, from: int, to: int) -> bool {
    forall|at: int| from <= at < to ==> text[at] != LINE_FEED
}

/// A line begins at `at`: at the start of the text and after each line feed.
pub open spec fn is_line_start(text: Seq<u8>, at: int) -> bool {
    at == 0 || (0 < at <= text.len() && text[at - 1] == LINE_FEED)
}

/// The offsets up to `upto` at which a line begins, in increasing order.
pub open spec fn line_starts_upto(text: Seq<u8>, upto: int) -> Seq<int>
    decreases upto,
{
    if upto <= 0 {
        seq![0int]
    } else {
        let earlier = line_starts_upto(text, upto - 1);
        if upto <= text.len() && text[upto - 1] == LINE_FEED {
            earlier.push(upto)
        } else {
            earlier
        }
    }
}

/// The offsets at which the lines of `text` begin. Line 0 begins at 0.
pub open spec fn line_starts(text: Seq<u8>) -> Seq<int> {
    line_starts_upto(text, text.len() as int)
}

/// Where line `line` ends: at its line feed, or at the end of the text.
pub open spec fn line_end(text: Seq<u8>, line: int) -> int {
    let starts = line_starts(text);
    if 0 <= line && line + 1 < starts.len() {
        starts[line + 1] - 1
    } else {
        text.len() as int
    }
}

/// The line and the UTF-16 offset of the byte offset `offset`, found by
/// reading the text before it: each line feed begins a new line, every other
/// byte adds its width to the offset within the line. An offset past the end
/// of the text has the position of the end.
pub open spec fn position_of(text: Seq<u8>, offset: int) -> (int, int)
    decreases offset,
{
    if offset <= 0 {
        (0, 0)
    } else if offset > text.len() {
        position_of(text, text.len() as int)
    } else {
        let before = position_of(text, offset - 1);
        if text[offset - 1] == LINE_FEED {
            (before.0 + 1, 0)
        } else {
            (before.0, before.1 + utf16_width(text[offset - 1]))
        }
    }
}

/// What is left of `units` after a scalar value of `width` units.
pub open spec fn units_left(units: int, width: int) -> int {
    if units <= width {
        0
    } else {
        units - width
    }
}

/// The first offset from `at` on at which `units` UTF-16 units are used up and
/// a scalar value begins, or `limit` where the line is too short.
pub open spec fn seek(text: Seq<u8>, at: int, limit: int, units: int) -> int
    decreases limit - at,
{
    if at >= limit || at < 0 || at >= text.len() {
        at
    } else if units <= 0 && !is_continuation(text[at]) {
        at
    } else {
        seek(text, at + 1, limit, units_left(units, utf16_width(text[at])))
    }
}

/// The byte offset of the position `(line, character)`: `character` units
/// into the line, at most at its end. A line that the text does not have
/// gives the end of the text.
pub open spec fn byte_index_of(text: Seq<u8>, line: int, character: int) -> int {
    let starts = line_starts(text);
    if 0 <= line < starts.len() {
        seek(text, starts[line], line_end(text, line), character)
    } else {
        text.len() as int
    }
}

/// The position of the byte offset `offset`, as an editor is told it.
pub open spec fn position_at(text: Seq<u8>, offset: int) -> Position {
    Position {
        line: position_of(text, offset).0 as u32,
        character: position_of(text, offset).1 as u32,
    }
}

/// The range of positions from the byte offset `start` to the byte offset `end`.
pub open spec fn range_between(text: Seq<u8>, start: int, end: int) -> Range {
    Range { start: position_at(text, start), end: position_at(text, end) }
}

/// The range of positions that `span` covers in `text`.
pub open spec fn range_of(text: Seq<u8>, span: SrcSpan) -> Range {
    range_between(text, span.start as int, span.end as int)
}

/// A scalar value begins at `at`, or the text ends there.
pub open spec fn is_boundary(text: Seq<u8>, at: int) -> bool {
    at >= text.len() || !is_continuation(text[at])
}

/// The position `(line, character)` names a place in `text`: the line
/// exists, and `character` units into it a scalar value begins or the line
/// ends.
pub open spec fn addressable(text: Seq<u8>, line: int, character: int) -> bool {
    let starts = line_starts(text);
    &&& 0 <= line < starts.len()
    &&& exists|at: int|
        starts[line] <= at <= line_end(text, line) && #[trigger] is_boundary(text, at)
            && utf16_units(text, starts[line], at) == character
}

/// The units of two adjoining stretches add up.
pub proof fn lemma_units_split(text: Seq<u8>, from: int, mid: int, to: int)
    requires
        0 <= from <= mid <= to <= text.len(),
    ensures
        utf16_units(text, from, to) == utf16_units(text, from, mid) + utf16_units(text, mid, to),
        utf16_units(text, from, to) >= 0,
    decreases to - mid,
{
    if mid < to {
        lemma_units_split(text, from, mid, to - 1);
    } else {
        lemma_units_nonnegative(text, from, to);
    }
}

/// A stretch never has a negative number of units.
pub proof fn lemma_units_nonnegative(text: Seq<u8>, from: int, to: int)
    ensures
        utf16_units(text, from, to) >= 0,
    decreases to - from,
{
    if !(from < 0 || to > text.len() || to <= from) {
        lemma_units_nonnegative(text, from, to - 1);
    }
}

/// A stretch has at most the units of the whole text.
pub proof fn lemma_units_within_whole(text: Seq<u8>, from: int, to: int)
    requires
        0 <= from <= to <= text.len(),
    ensures
        0 <= utf16_units(text, from, to) <= utf16_units(text, 0, text.len() as int),
{
    lemma_units_split(text, 0, from, text.len() as int);
    lemma_units_split(text, from, to, text.len() as int);
    lemma_units_nonnegative(text, 0, from);
    lemma_units_nonnegative(text, from, to);
    lemma_units_nonnegative(text, to, text.len() as int);
}

/// What the table of line starts holds: it begins with 0 and increases; each
/// later entry follows a line feed; no line feed lies between an entry and the
/// end of its line; and the entry `k` is the offset of the position `(k, 0)`.
pub proof fn lemma_line_starts_upto(text: Seq<u8>, upto: int)
    requires
        0 <= upto <= text.len(),
    ensures
        ({
            let starts = line_starts_upto(text, upto);
            &&& starts.len() >= 1
            &&& starts[0] == 0
            &&& forall|k: int| 0 <= k < starts.len() ==> k <= #[trigger] starts[k] <= upto
            &&& forall|j: int, k: int| 0 <= j < k < starts.len() ==> starts[j] < starts[k]
            &&& forall|k: int|
                0 < k < starts.len() ==> text[#[trigger] starts[k] - 1] == LINE_FEED
                    && no_line_feed(text, starts[k - 1], starts[k] - 1)
            &&& no_line_feed(text, starts.last(), upto)
            &&& forall|k: int|
                0 <= k < starts.len() ==> position_of(text, #[trigger] starts[k]) == (k, 0int)
            &&& position_of(text, upto).0 == starts.len() - 1
        }),
    decreases upto,
{
    if upto > 0 {
        lemma_line_starts_upto(text, upto - 1);
        let earlier = line_starts_upto(text, upto - 1);
        let starts = line_starts_upto(text, upto);
        if text[upto - 1] == LINE_FEED {
            assert(starts == earlier.push(upto));
            assert forall|k: int| 0 < k < starts.len() implies text[#[trigger] starts[k] - 1]
                == LINE_FEED && no_line_feed(text, starts[k - 1], starts[k] - 1) by {
                if k < earlier.len() {
                    assert(starts[k] == earlier[k]);
                    assert(starts[k - 1] == earlier[k - 1]);
                }
            }
            assert forall|k: int| 0 <= k < starts.len() implies position_of(
                text,
                #[trigger] starts[k],
            ) == (k, 0int) by {
                if k < earlier.len() {
                    assert(starts[k] == earlier[k]);
                }
            }
        } else {
            assert(starts == earlier);
        }
    }
}

/// Within a line, the position of an offset is that of an earlier offset
/// plus the units between the two.
pub proof fn lemma_position_within_line(text: Seq<u8>, from: int, to: int)
    requires
        0 <= from <= to <= text.len(),
        no_line_feed(text, from, to),
    ensures
        position_of(text, to) == (
            position_of(text, from).0,
            position_of(text, from).1 + utf16_units(text, from, to),
        ),
    decreases to - from,
{
    if from < to {
        lemma_position_within_line(text, from, to - 1);
    }
}

/// The offset `offset` of line `line` has the position `(line, units)`, where
/// `units` are the UTF-16 units between the start of the line and the offset.
pub proof fn lemma_position_in_line(text: Seq<u8>, line: int, offset: int)
    requires
        0 <= line < line_starts(text).len(),
        line_starts(text)[line] <= offset <= line_end(text, line),
    ensures
        offset <= text.len(),
        position_of(text, offset) == (line, utf16_units(text, line_starts(text)[line], offset)),
{
    lemma_line_starts_upto(text, text.len() as int);
    let starts = line_starts(text);
    if line + 1 < starts.len() {
        assert(text[starts[line + 1] - 1] == LINE_FEED);
        assert(no_line_feed(text, starts[line + 1 - 1], starts[line + 1] - 1));
    }
    lemma_position_within_line(text, starts[line], offset);
}

/// An offset is in the table of line starts exactly if a line begins there.
pub proof fn lemma_line_starts_complete(text: Seq<u8>, at: int)
    requires
        0 <= at <= text.len(),
    ensures
        line_starts(text).contains(at) <==> is_line_start(text, at),
{
    lemma_line_starts_member(text, text.len() as int, at);
}

proof fn lemma_line_starts_member(text: Seq<u8>, upto: int, at: int)
    requires
        0 <= at <= text.len(),
        0 <= upto <= text.len(),
    ensures
        line_starts_upto(text, upto).contains(at) <==> (is_line_start(text, at) && at <= upto),
    decreases upto,
{
    let starts = line_starts_upto(text, upto);
    if upto <= 0 {
        assert(starts[0] == 0);
        if at == 0 {
            assert(starts.contains(0));
        }
    } else {
        lemma_line_starts_member(text, upto - 1, at);
        let earlier = line_starts_upto(text, upto - 1);
        if text[upto - 1] == LINE_FEED {
            assert(starts == earlier.push(upto));
            if earlier.contains(at) {
                let k = choose|k: int| 0 <= k < earlier.len() && earlier[k] == at;
                assert(starts[k] == at);
            }
            if at == upto {
                assert(starts[earlier.len() as int] == at);
            }
            if starts.contains(at) && at != upto {
                let k = choose|k: int| 0 <= k < starts.len() && starts[k] == at;
                assert(earlier[k] == at);
            }
        }
    }
}

/// Seeking from an offset that has `q` ahead of it, where `q` is a boundary
/// of the line and the units up to `q` are the ones asked for, ends at an
/// offset with the same units.
proof fn lemma_seek_reaches(text: Seq<u8>, start: int, at: int, limit: int, q: int, units: int)
    requires
        0 <= start <= at <= q <= limit <= text.len(),
        is_boundary(text, q),
        units == utf16_units(text, at, q),
    ensures
        at <= seek(text, at, limit, units) <= q,
        utf16_units(text, start, seek(text, at, limit, units)) == utf16_units(text, start, q),
    decreases limit - at,
{
    lemma_units_nonnegative(text, at, q);
    if at >= limit || at >= text.len() {
    } else if units <= 0 && !is_continuation(text[at]) {
        lemma_units_split(text, start, at, q);
    } else {
        assert(at < q) by {
            if at == q {
                assert(utf16_units(text, at, q) == 0);
                assert(!is_continuation(text[q]));
            }
        }
        lemma_units_first(text, at, q);
        lemma_units_nonnegative(text, at + 1, q);
        lemma_seek_reaches(
            text,
            start,
            at + 1,
            limit,
            q,
            units_left(units, utf16_width(text[at])),
        );
    }
}

/// The units of a stretch are the width of its first byte and the units of
/// the rest.
pub proof fn lemma_units_first(text: Seq<u8>, from: int, to: int)
    requires
        0 <= from < to <= text.len(),
    ensures
        utf16_units(text, from, to) == utf16_width(text[from]) + utf16_units(text, from + 1, to),
{
    lemma_units_split(text, from, from + 1, to);
    assert(utf16_units(text, from, from) == 0);
}

/// Converting a position to a byte offset and back gives the position again,
/// for every position that names a place in the text.
pub proof fn lemma_position_round_trip(text: Seq<u8>, line: int, character: int)
    requires
        addressable(text, line, character),
    ensures
        position_of(text, byte_index_of(text, line, character)) == (line, character),
{
    let starts = line_starts(text);
    let limit = line_end(text, line);
    let q = choose|at: int|
        starts[line] <= at <= limit && #[trigger] is_boundary(text, at) && utf16_units(
            text,
            starts[line],
            at,
        ) == character;
    lemma_line_starts_upto(text, text.len() as int);
    lemma_position_in_line(text, line, q);
    lemma_seek_reaches(text, starts[line], starts[line], limit, q, character);
    let found = seek(text, starts[line], limit, character);
    lemma_position_in_line(text, line, found);
}

/// The position of an offset lies within the text: its line is at most the
/// offset, and its character at most the units of the text before it.
pub proof fn lemma_position_bounds(text: Seq<u8>, offset: int)
    requires
        0 <= offset <= text.len(),
    ensures
        0 <= position_of(text, offset).0 <= offset,
        0 <= position_of(text, offset).1 <= utf16_units(text, 0, offset),
    decreases offset,
{
    if offset > 0 {
        lemma_position_bounds(text, offset - 1);
        lemma_units_nonnegative(text, 0, offset);
    }
}

/// Positions follow the order of the offsets: a later offset has a later
/// line, or the same line and no earlier character.
pub proof fn lemma_position_monotone(text: Seq<u8>, earlier: int, later: int)
    requires
        earlier <= later,
    ensures
        position_of(text, earlier).0 < position_of(text, later).0 || (position_of(
            text,
            earlier,
        ).0 == position_of(text, later).0 && position_of(text, earlier).1 <= position_of(
            text,
            later,
        ).1),
    decreases later,
{
    if earlier < later && later > 0 {
        if later > text.len() {
            if earlier <= text.len() {
                lemma_position_monotone(text, earlier, text.len() as int);
            }
        } else {
            lemma_position_monotone(text, earlier, later - 1);
        }
    }
}

/// In a text of valid UTF-8 that 32 bits can address, a later offset has no
/// earlier position than an earlier offset.
pub proof fn lemma_positions_in_order(text: Seq<u8>, earlier: int, later: int)
    requires
        valid_utf8(text),
        text.len() <= u32::MAX,
        earlier <= later,
    ensures
        position_at(text, earlier).at_or_before(position_at(text, later)),
{
    lemma_units_of_valid_utf8(text);
    let first = if earlier <= 0 {
        0
    } else if earlier > text.len() {
        text.len() as int
    } else {
        earlier
    };
    let second = if later <= 0 {
        0
    } else if later > text.len() {
        text.len() as int
    } else {
        later
    };
    assert(position_of(text, earlier) == position_of(text, first));
    assert(position_of(text, later) == position_of(text, second));
    lemma_position_bounds(text, first);
    lemma_position_bounds(text, second);
    lemma_units_within_whole(text, 0, first);
    lemma_units_within_whole(text, 0, second);
    lemma_position_monotone(text, first, second);
}

/// Seeking never leaves the stretch between where it begins and its limit.
pub proof fn lemma_seek_within(text: Seq<u8>, at: int, limit: int, units: int)
    requires
        0 <= at <= limit,
    ensures
        at <= seek(text, at, limit, units) <= limit,
    decreases limit - at,
{
    if !(at >= limit || at >= text.len()) && !(units <= 0 && !is_continuation(text[at])) {
        lemma_seek_within(text, at + 1, limit, units_left(units, utf16_width(text[at])));
    }
}

/// The byte offset of a position lies in the text, on the line of the
/// position where the text has that line.
pub proof fn lemma_byte_index_in_text(text: Seq<u8>, line: int, character: int)
    ensures
        0 <= byte_index_of(text, line, character) <= text.len(),
        0 <= line < line_starts(text).len() ==> line_starts(text)[line] <= byte_index_of(
            text,
            line,
            character,
        ) <= line_end(text, line),
{
    lemma_line_starts_upto(text, text.len() as int);
    let starts = line_starts(text);
    if 0 <= line < starts.len() {
        if line + 1 < starts.len() {
            assert(starts[line] < starts[line + 1]);
        }
        lemma_seek_within(text, starts[line], line_end(text, line), character);
    }
}

/// In valid UTF-8 no stretch has more UTF-16 units than the text has bytes.
pub proof fn lemma_units_of_valid_utf8(text: Seq<u8>)
    requires
        valid_utf8(text),
    ensures
        utf16_units(text, 0, text.len() as int) <= text.len(),
    decreases text.len(),
{
    if text.len() > 0 {
        let width = length_of_first_scalar(text);
        let rest = pop_first_scalar(text);
        lemma_units_of_valid_utf8(rest);
        lemma_units_shifted(text, width, text.len() as int, text.len() as int);
        lemma_units_split(text, 0, width, text.len() as int);
        lemma_units_first(text, 0, width);
        if width >= 2 {
            lemma_units_first(text, 1, width);
            if width >= 3 {
                lemma_units_first(text, 2, width);
                if width >= 4 {
                    lemma_units_first(text, 3, width);
                }
            }
        }
    }
}

/// The units of a stretch do not depend on what stands around it.
pub proof fn lemma_units_shifted(text: Seq<u8>, from: int, to: int, upper: int)
    requires
        0 <= from <= to <= upper <= text.len(),
    ensures
        utf16_units(text, from, to) == utf16_units(text.subrange(from, upper), 0, to - from),
    decreases to - from,
{
    if from < to {
        lemma_units_shifted(text, from, to - 1, upper);
    }
}

/// The UTF-16 code units that encode a character: two for a character
/// outside the Basic Multilingual Plane, one for any other.
pub open spec fn utf16_length_of(character: char) -> int {
    if character as u32 >= 0x10000 {
        2
    } else {
        1
    }
}

/// The UTF-16 code units that encode `chars`.
pub open spec fn utf16_length(chars: Seq<char>) -> int
    decreases chars.len(),
{
    if chars.len() == 0 {
        0
    } else {
        utf16_length_of(chars[0]) + utf16_length(chars.drop_first())
    }
}

/// Counting on the leading bytes counts UTF-16 code units: the units of a
/// text in valid UTF-8 are the code units that encode its characters.
pub proof fn lemma_units_are_utf16_length(text: Seq<u8>)
    requires
        valid_utf8(text),
    ensures
        utf16_units(text, 0, text.len() as int) == utf16_length(decode_utf8(text)),
    decreases text.len(),
{
    if text.len() > 0 {
        let width = length_of_first_scalar(text);
        let rest = pop_first_scalar(text);
        lemma_units_are_utf16_length(rest);
        lemma_units_shifted(text, width, text.len() as int, text.len() as int);
        lemma_units_split(text, 0, width, text.len() as int);
        lemma_units_first(text, 0, width);
        if width >= 2 {
            lemma_units_first(text, 1, width);
            if width >= 3 {
                lemma_units_first(text, 2, width);
                if width >= 4 {
                    lemma_units_first(text, 3, width);
                }
            }
        }
        let scalar = decode_first_scalar(text);
        let first = text[0];
        assert(width < 4 ==> scalar < 0x10000) by {
            let second = text[1];
            let third = text[2];
            assert((first & 0x7F) as u32 <= 0xFFFF) by (bit_vector);
            assert((((first & 0x1F) as u32) << 6) | ((second & 0x3f) as u32) <= 0xFFFF)
                by (bit_vector);
            assert((((first & 0x0F) as u32) << 12) | (((second & 0x3f) as u32) << 6) | ((third
                & 0x3f) as u32) <= 0xFFFF) by (bit_vector);
        }
        let chars = decode_utf8(text);
        assert(chars == seq![scalar as char] + decode_utf8(rest));
        assert(chars[0] == scalar as char);
        assert(chars.drop_first() == decode_utf8(rest));
        assert((scalar as char) as u32 == scalar);
    }
}

/// The units of a stretch of valid UTF-8 are the code units that encode the
/// characters written in it.
pub proof fn lemma_units_of_stretch(text: Seq<u8>, from: int, to: int)
    requires
        0 <= from <= to <= text.len(),
        valid_utf8(text.subrange(from, to)),
    ensures
        utf16_units(text, from, to) == utf16_length(decode_utf8(text.subrange(from, to))),
{
    lemma_units_shifted(text, from, to, to);
    lemma_units_are_utf16_length(text.subrange(from, to));
}

/// The table of line starts of one source text, with the text it was made of.
#[derive(Debug, PartialEq, Eq)]
pub struct LineNumbers {
    line_starts: Vec<u32>,
    length: u32,
    text: Vec<u8>,
}

impl View for LineNumbers {
    type V = Seq<u8>;

    /// The bytes of the source text.
    closed spec fn view(&self) -> Seq<u8> {
        self.text@
    }
}

impl LineNumbers {
    #[verifier::type_invariant]
    spec fn well_formed(self) -> bool {
        &&& self.text@.len() == self.length
        &&& self.line_starts@.len() == line_starts(self.text@).len()
        &&& forall|k: int|
            0 <= k < self.line_starts@.len() ==> self.line_starts@[k] as int == line_starts(
                self.text@,
            )[k]
        &&& utf16_units(self.text@, 0, self.text@.len() as int) <= self.text@.len()
    }

    /// Reads `src` once and notes where each of its lines begins.
    pub fn new(src: &str) -> (lines: LineNumbers)
        requires
            src.spec_bytes().len() <= u32::MAX,
        ensures
            lines@ == src.spec_bytes(),
    {
        let text: Vec<u8> = src.as_bytes_vec();
        let mut starts: Vec<u32> = Vec::new();
        starts.push(0);
        let mut at: usize = 0;
        while at < text.len()
            invariant
                at <= text.len() <= u32::MAX,
                starts@.len() == line_starts_upto(text@, at as int).len(),
                forall|k: int|
                    0 <= k < starts@.len() ==> starts@[k] as int == line_starts_upto(
                        text@,
                        at as int,
                    )[k],
            decreases text.len() - at,
        {
            if text[at] == LINE_FEED {
                starts.push((at + 1) as u32);
            }
            at += 1;
        }
        proof {
            encode_utf8_valid_utf8(src@);
            lemma_units_of_valid_utf8(text@);
        }
        LineNumbers { line_starts: starts, length: text.len() as u32, text }
    }

    /// The number of bytes of the text.
    pub fn length(&self) -> (length: u32)
        ensures
            length == self@.len(),
    {
        proof {
            use_type_invariant(self);
        }
        self.length
    }

    /// The bytes of the text.
    pub fn text(&self) -> (text: &Vec<u8>)
        ensures
            text@ == self@,
    {
        &self.text
    }

    /// The offsets at which the lines begin, in increasing order.
    pub fn line_starts(&self) -> (starts: &Vec<u32>)
        ensures
            starts@.len() == line_starts(self@).len(),
            forall|k: int| 0 <= k < starts@.len() ==> starts@[k] as int == line_starts(self@)[k],
    {
        proof {
            use_type_invariant(self);
        }
        &self.line_starts
    }

    /// The line that holds the offset: the last one that begins at or before it.
    fn line_index(&self, offset: u32) -> (line: usize)
        requires
            offset <= self@.len(),
        ensures
            line < line_starts(self@).len(),
            line_starts(self@)[line as int] <= offset <= line_end(self@, line as int),
    {
        proof {
            use_type_invariant(self);
            lemma_line_starts_upto(self@, self@.len() as int);
        }
        let mut low: usize = 0;
        let mut high: usize = self.line_starts.len();
        while low + 1 < high
            invariant
                low < high <= self.line_starts@.len(),
                self.line_starts@[low as int] <= offset,
                high < self.line_starts@.len() ==> offset < self.line_starts@[high as int],
                forall|j: int, k: int|
                    0 <= j < k < self.line_starts@.len() ==> self.line_starts@[j]
                        < self.line_starts@[k],
            decreases high - low,
        {
            let middle: usize = low + (high - low) / 2;
            if self.line_starts[middle] <= offset {
                low = middle;
            } else {
                high = middle;
            }
        }
        low
    }

    /// The position of a byte offset. An offset past the end of the text has
    /// the position of the end.
    pub fn position(&self, byte_index: u32) -> (position: Position)
        ensures
            position.line == position_of(self@, byte_index as int).0,
            position.character == position_of(self@, byte_index as int).1,
            position == position_at(self@, byte_index as int),
    {
        proof {
            use_type_invariant(self);
        }
        let offset: u32 = if byte_index < self.length {
            byte_index
        } else {
            self.length
        };
        let line: usize = self.line_index(offset);
        let start: u32 = self.line_starts[line];
        proof {
            lemma_position_in_line(self@, line as int, offset as int);
            lemma_units_within_whole(self@, start as int, offset as int);
            assert(position_of(self@, byte_index as int) == position_of(self@, offset as int));
            assert(line <= start) by {
                lemma_line_starts_upto(self@, self@.len() as int);
            }
        }
        let mut units: u32 = 0;
        let mut at: u32 = start;
        while at < offset
            invariant
                start <= at <= offset <= self.text@.len(),
                units == utf16_units(self.text@, start as int, at as int),
                utf16_units(self.text@, start as int, offset as int) <= u32::MAX,
            decreases offset - at,
        {
            proof {
                lemma_units_split(self.text@, start as int, at as int + 1, offset as int);
                lemma_units_nonnegative(self.text@, at as int + 1, offset as int);
            }
            units = units + width_of(self.text[at as usize]);
            at += 1;
        }
        Position { line: line as u32, character: units }
    }

    /// The byte offset of a position. A character past the end of its line
    /// gives the end of the line, a line past the last one the end of the text.
    pub fn byte_index(&self, line: u32, character: u32) -> (index: u32)
        ensures
            index == byte_index_of(self@, line as int, character as int),
    {
        proof {
            use_type_invariant(self);
            lemma_line_starts_upto(self@, self@.len() as int);
        }
        if line as usize >= self.line_starts.len() {
            return self.length;
        }
        let start: u32 = self.line_starts[line as usize];
        let limit: u32 = if (line as usize) + 1 < self.line_starts.len() {
            self.line_starts[line as usize + 1] - 1
        } else {
            self.length
        };
        let mut at: u32 = start;
        let mut left: u32 = character;
        while at < limit && !(left == 0 && !continues(self.text[at as usize]))
            invariant
                start <= at <= limit <= self.text@.len(),
                seek(self.text@, at as int, limit as int, left as int) == seek(
                    self.text@,
                    start as int,
                    limit as int,
                    character as int,
                ),
            decreases limit - at,
        {
            let width: u32 = width_of(self.text[at as usize]);
            left = if left <= width {
                0
            } else {
                left - width
            };
            at += 1;
        }
        at
    }
}

/// Whether `byte` continues a scalar value.
fn continues(byte: u8) -> (continuing: bool)
    ensures
        continuing == is_continuation(byte),
{
    0x80 <= byte && byte <= 0xBF
}

/// The UTF-16 units of the scalar value that `byte` begins.
fn width_of(byte: u8) -> (width: u32)
    ensures
        width == utf16_width(byte),
{
    if continues(byte) {
        0
    } else if byte >= 0xF0 {
        2
    } else {
        1
    }
}

/// The range of positions of a span of bytes.
pub fn src_span_to_lsp_range(location: SrcSpan, line_numbers: &LineNumbers) -> (range: Range)
    ensures
        range == range_of(line_numbers@, location),
{
    let start = line_numbers.position(location.start);
    let end = line_numbers.position(location.end);
    Range { start, end }
}

} // verus!
