//! Changes that the editor can offer: the removal of the imports that nothing
//! uses.

use crate::line_numbers::{
    lemma_line_starts_complete, lemma_line_starts_upto, line_starts, no_line_feed, range_between,
    src_span_to_lsp_range, LineNumbers, LINE_FEED,
};
use crate::module::Module;
use crate::protocol::{CodeAction, CodeActionKind, CodeActionParams, Position, Range, TextEdit};
use crate::span::SrcSpan;
use vstd::prelude::*;
use vstd::string::*;

verus! {

/// One of the two ranges begins or ends inside the other.
pub open spec fn ranges_overlap(a: Range, b: Range) -> bool {
    b.holds(a.start) || b.holds(a.end) || a.holds(b.start) || a.holds(b.end)
}

/// Deleting `span` leaves an empty line behind: the span begins where a line
/// begins, and a line begins one byte after its end.
pub open spec fn empties_line(text: Seq<u8>, span: SrcSpan) -> bool {
    line_starts(text).contains(span.start as int) && line_starts(text).contains(span.end + 1)
}

/// Where the deletion of the unused import `span` ends: one byte after the
/// span where that takes the emptied line away, else at the end of the span.
pub open spec fn deletion_end(text: Seq<u8>, span: SrcSpan) -> int {
    if empties_line(text, span) {
        span.end + 1
    } else {
        span.end as int
    }
}

/// The range that is deleted for the unused import `span`.
pub open spec fn deletion_range(text: Seq<u8>, span: SrcSpan) -> Range {
    range_between(text, span.start as int, deletion_end(text, span))
}

/// The ranges that are deleted for the unused imports `unused`, in their order.
pub open spec fn deletion_ranges(text: Seq<u8>, unused: Seq<SrcSpan>) -> Seq<Range> {
    Seq::new(unused.len(), |k: int| deletion_range(text, unused[k]))
}

/// One of `ranges` overlaps `cursor`.
pub open spec fn any_overlap(cursor: Range, ranges: Seq<Range>) -> bool {
    exists|k: int| 0 <= k < ranges.len() && ranges_overlap(cursor, #[trigger] ranges[k])
}

/// `sorted` with `range` put in after the last range that does not begin
/// later.
pub open spec fn insert_by_start(sorted: Seq<Range>, range: Range) -> Seq<Range>
    decreases sorted.len(),
{
    if sorted.len() == 0 {
        seq![range]
    } else if range.start.before(sorted.last().start) {
        insert_by_start(sorted.drop_last(), range).push(sorted.last())
    } else {
        sorted.push(range)
    }
}

/// `ranges` in the order of their starts; ranges with one start keep their
/// order.
pub open spec fn sorted_by_start(ranges: Seq<Range>) -> Seq<Range>
    decreases ranges.len(),
{
    if ranges.len() == 0 {
        Seq::empty()
    } else {
        insert_by_start(sorted_by_start(ranges.drop_last()), ranges.last())
    }
}

/// No range begins before one that stands earlier.
pub open spec fn ordered_by_start(ranges: Seq<Range>) -> bool {
    forall|j: int, k: int|
        0 <= j < k < ranges.len() ==> !(#[trigger] ranges[k]).start.before(
            (#[trigger] ranges[j]).start,
        )
}

/// `action` removes the unused imports of `module`: it deletes their ranges,
/// in the order of their starts, in the document `uri`.
pub open spec fn is_removal_of_unused_imports(
    action: CodeAction,
    text: Seq<u8>,
    unused: Seq<SrcSpan>,
    uri: Seq<char>,
) -> bool {
    &&& action.title@ == "Remove unused imports"@
    &&& action.kind == CodeActionKind::QuickFix
    &&& action.uri@ == uri
    &&& action.is_preferred
    &&& action.edits@.len() == unused.len()
    &&& forall|k: int|
        0 <= k < unused.len() ==> (#[trigger] action.edits@[k]).range == sorted_by_start(
            deletion_ranges(text, unused),
        )[k] && action.edits@[k].new_text@ == Seq::<char>::empty()
}

/// The action is offered where there are unused imports and the deletion of
/// one of them overlaps the range of the request.
pub open spec fn offers_removal(text: Seq<u8>, unused: Seq<SrcSpan>, cursor: Range) -> bool {
    unused.len() > 0 && any_overlap(cursor, deletion_ranges(text, unused))
}

/// Whether a position is within a range. The end of the range is outside.
fn within(position: Position, range: Range) -> (inside: bool)
    ensures
        inside == range.holds(position),
{
    !position.is_before(&range.start) && position.is_before(&range.end)
}

/// Whether any part of either range overlaps with the other.
pub fn overlaps(a: Range, b: Range) -> (overlapping: bool)
    ensures
        overlapping == ranges_overlap(a, b),
{
    within(a.start, b) || within(a.end, b) || within(b.start, a) || within(b.end, a)
}

/// Whether a line begins at `offset`.
fn begins_line(line_numbers: &LineNumbers, offset: u32) -> (begins: bool)
    ensures
        begins == line_starts(line_numbers@).contains(offset as int),
{
    let starts = line_numbers.line_starts();
    let mut at: usize = 0;
    while at < starts.len()
        invariant
            at <= starts@.len(),
            starts@.len() == line_starts(line_numbers@).len(),
            forall|k: int|
                0 <= k < starts@.len() ==> starts@[k] as int == line_starts(line_numbers@)[k],
            forall|k: int| 0 <= k < at ==> line_starts(line_numbers@)[k] != offset,
        decreases starts@.len() - at,
    {
        if starts[at] == offset {
            return true;
        }
        at += 1;
    }
    false
}

/// Whether the deletion of `span` empties a whole line, so that the line is
/// to be deleted with it.
pub fn delete_line(span: &SrcSpan, line_numbers: &LineNumbers) -> (whole_line: bool)
    ensures
        whole_line == empties_line(line_numbers@, *span),
{
    if span.end == u32::MAX {
        let length: u32 = line_numbers.length();
        proof {
            lemma_line_starts_upto(line_numbers@, line_numbers@.len() as int);
        }
        return false;
    }
    begins_line(line_numbers, span.start) && begins_line(line_numbers, span.end + 1)
}

/// Puts `range` into `sorted` after the last range that does not begin later.
fn insert_sorted(sorted: &mut Vec<Range>, range: Range)
    ensures
        final(sorted)@ == insert_by_start(old(sorted)@, range),
{
    let mut at: usize = sorted.len();
    proof {
        assert(sorted@.subrange(0, at as int) == sorted@);
        assert(insert_by_start(sorted@, range) + sorted@.subrange(at as int, at as int)
            == insert_by_start(sorted@, range));
    }
    while at > 0 && range.start.is_before(&sorted[at - 1].start)
        invariant
            at <= sorted@.len(),
            sorted@ == old(sorted)@,
            insert_by_start(sorted@, range) == insert_by_start(sorted@.subrange(0, at as int), range)
                + sorted@.subrange(at as int, sorted@.len() as int),
        decreases at,
    {
        proof {
            let shorter = sorted@.subrange(0, at as int);
            assert(shorter.drop_last() == sorted@.subrange(0, at as int - 1));
            assert(insert_by_start(shorter, range) == insert_by_start(shorter.drop_last(), range).push(
                shorter.last(),
            ));
            assert(insert_by_start(shorter.drop_last(), range).push(shorter.last()) + sorted@.subrange(
                at as int,
                sorted@.len() as int,
            ) == insert_by_start(shorter.drop_last(), range) + sorted@.subrange(
                at as int - 1,
                sorted@.len() as int,
            ));
        }
        at -= 1;
    }
    proof {
        let shorter = sorted@.subrange(0, at as int);
        assert(insert_by_start(shorter, range) == shorter.push(range));
        assert(shorter.push(range) + sorted@.subrange(at as int, sorted@.len() as int)
            == sorted@.insert(at as int, range));
        assert(sorted@.subrange(0, sorted@.len() as int) == sorted@);
    }
    sorted.insert(at, range);
}

/// The ranges in the order of their starts.
fn sort_by_start(ranges: &Vec<Range>) -> (sorted: Vec<Range>)
    ensures
        sorted@ == sorted_by_start(ranges@),
{
    let mut sorted: Vec<Range> = Vec::new();
    let mut at: usize = 0;
    while at < ranges.len()
        invariant
            at <= ranges@.len(),
            sorted@ == sorted_by_start(ranges@.subrange(0, at as int)),
        decreases ranges@.len() - at,
    {
        proof {
            let next = ranges@.subrange(0, at as int + 1);
            assert(next.drop_last() == ranges@.subrange(0, at as int));
            assert(next.last() == ranges@[at as int]);
        }
        insert_sorted(&mut sorted, ranges[at]);
        at += 1;
    }
    assert(ranges@.subrange(0, ranges@.len() as int) == ranges@);
    sorted
}

/// Where the imports that nothing uses can be removed and one of them is
/// under the range of the request, puts the action that removes them all at
/// the end of `actions`.
pub fn code_action_unused_imports(
    module: &Module,
    params: &CodeActionParams,
    actions: &mut Vec<CodeAction>,
)
    ensures
        offers_removal(module.line_numbers@, module.ast.unused_imports@, params.range) ==> {
            &&& final(actions)@.len() == old(actions)@.len() + 1
            &&& final(actions)@.subrange(0, old(actions)@.len() as int) == old(actions)@
            &&& is_removal_of_unused_imports(
                final(actions)@.last(),
                module.line_numbers@,
                module.ast.unused_imports@,
                params.uri@,
            )
        },
        !offers_removal(module.line_numbers@, module.ast.unused_imports@, params.range)
            ==> final(actions)@ == old(actions)@,
{
    let unused = &module.ast.unused_imports;
    if unused.len() == 0 {
        return ;
    }
    let line_numbers = &module.line_numbers;
    let ghost text = line_numbers@;
    let mut hovered = false;
    let mut ranges: Vec<Range> = Vec::new();
    let mut at: usize = 0;
    while at < unused.len()
        invariant
            at <= unused@.len(),
            line_numbers@ == text,
            ranges@.len() == at,
            forall|k: int| 0 <= k < at ==> #[trigger] ranges@[k] == deletion_range(text, unused@[k]),
            hovered == any_overlap(params.range, ranges@),
        decreases unused@.len() - at,
    {
        let span = unused[at];
        let length: u32 = line_numbers.length();
        let adjusted_end: u32 = if delete_line(&span, line_numbers) {
            proof {
                lemma_line_starts_upto(text, text.len() as int);
            }
            span.end + 1
        } else {
            span.end
        };
        let range = src_span_to_lsp_range(SrcSpan::new(span.start, adjusted_end), line_numbers);
        let ghost before = ranges@;
        let over = overlaps(params.range, range);
        ranges.push(range);
        proof {
            if over {
                assert(ranges_overlap(params.range, ranges@[at as int]));
            } else if any_overlap(params.range, ranges@) {
                let k = choose|k: int|
                    0 <= k < ranges@.len() && ranges_overlap(params.range, #[trigger] ranges@[k]);
                assert(before[k] == ranges@[k]);
            }
            if any_overlap(params.range, before) {
                let k = choose|k: int|
                    0 <= k < before.len() && ranges_overlap(params.range, #[trigger] before[k]);
                assert(before[k] == ranges@[k]);
            }
        }
        hovered = hovered || over;
        at += 1;
    }
    assert(ranges@ == deletion_ranges(text, unused@));
    if !hovered {
        return ;
    }
    let sorted = sort_by_start(&ranges);
    proof {
        lemma_sorted_keeps_length(ranges@);
    }
    let mut edits: Vec<TextEdit> = Vec::new();
    let mut at: usize = 0;
    while at < sorted.len()
        invariant
            at <= sorted@.len(),
            edits@.len() == at,
            forall|k: int|
                0 <= k < at ==> (#[trigger] edits@[k]).range == sorted@[k] && edits@[k].new_text@
                    == Seq::<char>::empty(),
        decreases sorted@.len() - at,
    {
        edits.push(TextEdit { range: sorted[at], new_text: String::new() });
        at += 1;
    }
    actions.push(
        CodeAction {
            title: String::from_str("Remove unused imports"),
            kind: CodeActionKind::QuickFix,
            uri: params.uri.clone(),
            edits,
            is_preferred: true,
        },
    );
}

/// Putting a range into a sequence makes it one longer.
pub proof fn lemma_insert_adds_one(sorted: Seq<Range>, range: Range)
    ensures
        insert_by_start(sorted, range).len() == sorted.len() + 1,
    decreases sorted.len(),
{
    if sorted.len() > 0 && range.start.before(sorted.last().start) {
        lemma_insert_adds_one(sorted.drop_last(), range);
    }
}

/// Sorting keeps the number of ranges.
pub proof fn lemma_sorted_keeps_length(ranges: Seq<Range>)
    ensures
        sorted_by_start(ranges).len() == ranges.len(),
    decreases ranges.len(),
{
    if ranges.len() > 0 {
        lemma_sorted_keeps_length(ranges.drop_last());
        lemma_insert_adds_one(sorted_by_start(ranges.drop_last()), ranges.last());
    }
}

/// Putting a range into an ordered sequence keeps it ordered and adds just
/// that range.
pub proof fn lemma_insert_keeps_order(sorted: Seq<Range>, range: Range)
    requires
        ordered_by_start(sorted),
    ensures
        ordered_by_start(insert_by_start(sorted, range)),
        insert_by_start(sorted, range).to_multiset() == sorted.to_multiset().insert(range),
    decreases sorted.len(),
{
    broadcast use vstd::seq_lib::group_to_multiset_ensures;

    let result = insert_by_start(sorted, range);
    if sorted.len() == 0 {
        assert(result == Seq::<Range>::empty().push(range));
        assert(sorted == Seq::<Range>::empty());
    } else if range.start.before(sorted.last().start) {
        let shorter = sorted.drop_last();
        assert(ordered_by_start(shorter)) by {
            assert forall|j: int, k: int| 0 <= j < k < shorter.len() implies !(
            #[trigger] shorter[k]).start.before((#[trigger] shorter[j]).start) by {
                assert(shorter[k] == sorted[k]);
                assert(shorter[j] == sorted[j]);
            }
        }
        lemma_insert_keeps_order(shorter, range);
        lemma_insert_adds_one(shorter, range);
        let inner = insert_by_start(shorter, range);
        assert(sorted == shorter.push(sorted.last()));
        assert forall|j: int, k: int| 0 <= j < k < result.len() implies !(
        #[trigger] result[k]).start.before((#[trigger] result[j]).start) by {
            if k < inner.len() {
                assert(result[k] == inner[k]);
                assert(result[j] == inner[j]);
            } else {
                assert(result[k] == sorted.last());
                assert(result[j] == inner[j]);
                assert(inner.to_multiset().count(inner[j]) > 0);
                if inner[j] != range {
                    assert(shorter.to_multiset().count(inner[j]) > 0);
                    let i = choose|i: int| 0 <= i < shorter.len() && shorter[i] == inner[j];
                    assert(sorted[i] == inner[j]);
                    assert(!sorted[sorted.len() - 1].start.before(sorted[i].start));
                }
            }
        }
    } else {
        assert forall|j: int, k: int| 0 <= j < k < result.len() implies !(
        #[trigger] result[k]).start.before((#[trigger] result[j]).start) by {
            if k < sorted.len() {
                assert(result[k] == sorted[k]);
                assert(result[j] == sorted[j]);
            } else {
                assert(result[j] == sorted[j]);
                assert(!sorted[sorted.len() - 1].start.before(sorted[j].start) || j == sorted.len()
                    - 1);
            }
        }
    }
}

/// The sorted ranges are in the order of their starts, and they are the
/// ranges that were given, each as often as it was given.
pub proof fn lemma_sorted_by_start(ranges: Seq<Range>)
    ensures
        ordered_by_start(sorted_by_start(ranges)),
        sorted_by_start(ranges).to_multiset() == ranges.to_multiset(),
    decreases ranges.len(),
{
    broadcast use vstd::seq_lib::group_to_multiset_ensures;

    if ranges.len() > 0 {
        lemma_sorted_by_start(ranges.drop_last());
        lemma_insert_keeps_order(sorted_by_start(ranges.drop_last()), ranges.last());
        assert(ranges == ranges.drop_last().push(ranges.last()));
    } else {
        assert(ranges == Seq::<Range>::empty());
    }
}

/// The unused imports are separate pieces of the text: each lies in the text
/// and is not empty, none holds a line feed, and no two share a byte.
pub open spec fn separate_imports(text: Seq<u8>, unused: Seq<SrcSpan>) -> bool {
    &&& forall|k: int|
        0 <= k < unused.len() ==> (#[trigger] unused[k]).start < unused[k].end <= text.len()
            && no_line_feed(text, unused[k].start as int, unused[k].end as int)
    &&& forall|j: int, k: int|
        0 <= j < k < unused.len() ==> (#[trigger] unused[j]).disjoint(#[trigger] unused[k])
}

/// The deletion for one unused import leaves every other one whole: each
/// deletion lies in the text, takes away its own import and at most the line
/// feed after it, and shares no byte with another import or with the
/// deletion made for it.
pub proof fn lemma_deletions_are_separate(text: Seq<u8>, unused: Seq<SrcSpan>, j: int, k: int)
    requires
        separate_imports(text, unused),
        0 <= j < unused.len(),
        0 <= k < unused.len(),
        j != k,
    ensures
        unused[j].end <= deletion_end(text, unused[j]) <= text.len(),
        deletion_end(text, unused[j]) <= unused[k].start || unused[k].end <= unused[j].start,
        deletion_end(text, unused[j]) <= unused[k].start || deletion_end(text, unused[k])
            <= unused[j].start,
{
    lemma_deletion_takes_line_feed(text, unused[j]);
    lemma_deletion_takes_line_feed(text, unused[k]);
    if j < k {
        assert(unused[j].disjoint(unused[k]));
    } else {
        assert(unused[k].disjoint(unused[j]));
    }
}

/// The edits that delete two different unused imports do not overlap: one
/// of the two ranges ends, as a position of the document, where the other
/// begins or before. So making one edit never cuts into the other import,
/// nor into the edit made for it.
pub proof fn lemma_edits_do_not_overlap(text: Seq<u8>, unused: Seq<SrcSpan>, j: int, k: int)
    requires
        vstd::utf8::valid_utf8(text),
        text.len() <= u32::MAX,
        separate_imports(text, unused),
        0 <= j < unused.len(),
        0 <= k < unused.len(),
        j != k,
    ensures
        deletion_range(text, unused[j]).end.at_or_before(deletion_range(text, unused[k]).start)
            || deletion_range(text, unused[k]).end.at_or_before(
            deletion_range(text, unused[j]).start,
        ),
{
    lemma_deletions_are_separate(text, unused, j, k);
    if deletion_end(text, unused[j]) <= unused[k].start {
        crate::line_numbers::lemma_positions_in_order(
            text,
            deletion_end(text, unused[j]),
            unused[k].start as int,
        );
    } else {
        crate::line_numbers::lemma_positions_in_order(
            text,
            deletion_end(text, unused[k]),
            unused[j].start as int,
        );
    }
}

/// A deletion that is longer than its import ends after a line feed that
/// stands right after the import.
pub proof fn lemma_deletion_takes_line_feed(text: Seq<u8>, span: SrcSpan)
    requires
        span.end <= text.len(),
    ensures
        deletion_end(text, span) <= text.len(),
        deletion_end(text, span) != span.end ==> deletion_end(text, span) == span.end + 1
            && text[span.end as int] == LINE_FEED,
{
    if empties_line(text, span) {
        lemma_line_starts_upto(text, text.len() as int);
        let starts = line_starts(text);
        let k = choose|k: int| 0 <= k < starts.len() && starts[k] == span.end + 1;
        assert(starts[k] <= text.len());
        lemma_line_starts_complete(text, span.end + 1);
    }
}

} // verus!
