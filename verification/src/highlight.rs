//! The source view: the text of a block cut into display lines, with the
//! bytes of one span marked.
//!
//! A line break is the byte `0x0A` and nothing else. The break itself is not
//! displayed; every other byte of the text appears in exactly one segment of
//! exactly one line, so the lines joined by line breaks give back the text.

use crate::data::Span;
use vstd::prelude::*;
use vstd::slice::{slice_subrange, slice_to_vec};

verus! {

/// The byte that ends a line.
pub const NEWLINE: u8 = 10;

/// A run of bytes of one line that are displayed alike.
#[derive(Debug, PartialEq, Eq)]
pub struct Segment {
    pub text: Vec<u8>,
    pub highlighted: bool,
}

/// One line of the source view: its segments from left to right.
#[derive(Debug, PartialEq, Eq)]
pub struct DisplayLine {
    pub segments: Vec<Segment>,
}

/// The mathematical content of a [`Segment`].
pub struct SegmentView {
    pub text: Seq<u8>,
    pub highlighted: bool,
}

impl View for Segment {
    type V = SegmentView;

    open spec fn view(&self) -> SegmentView {
        SegmentView { text: self.text@, highlighted: self.highlighted }
    }
}

impl View for DisplayLine {
    type V = Seq<SegmentView>;

    open spec fn view(&self) -> Seq<SegmentView> {
        self.segments@.map_values(|segment: Segment| segment@)
    }
}

/// The mathematical content of a source view.
pub open spec fn lines_view(lines: Vec<DisplayLine>) -> Seq<Seq<SegmentView>> {
    lines@.map_values(|line: DisplayLine| line@)
}

/// The part of a text of `len` bytes to mark, as offsets into the text: that
/// of `target`, if there is one, it lies within `block_span`, it does not end
/// before it starts, and the text reaches as far as it does.
pub open spec fn highlight_range(len: nat, block_span: Span, target: Option<Span>) -> Option<
    (int, int),
> {
    match target {
        Some(span) => if block_span.start <= span.start && span.start <= span.end && span.end
            <= block_span.end && span.end - block_span.start <= len {
            Some((span.start - block_span.start, span.end - block_span.start))
        } else {
            None
        },
        None => None,
    }
}

/// The end of the line that holds the byte at `from`: the offset of the next
/// line break, or the length of the text if none follows.
pub open spec fn line_end(text: Seq<u8>, from: int) -> int
    decreases text.len() - from,
{
    if from >= text.len() {
        text.len() as int
    } else if text[from] == NEWLINE {
        from
    } else {
        line_end(text, from + 1)
    }
}

/// A line ends at or after the offset at which it is looked for, and within
/// the text; no line break stands before its end, and one stands at its end
/// unless the text ends there.
pub proof fn lemma_line_end_bounds(text: Seq<u8>, from: int)
    requires
        from <= text.len(),
    ensures
        from <= line_end(text, from) <= text.len(),
        forall|i: int| from <= i < line_end(text, from) ==> text[i] != NEWLINE,
        line_end(text, from) < text.len() ==> text[line_end(text, from)] == NEWLINE,
    decreases text.len() - from,
{
    if from < text.len() && text[from] != NEWLINE {
        lemma_line_end_bounds(text, from + 1);
    }
}

/// `at`, moved into the range from `low` to `high` if it lies outside.
pub open spec fn clip(at: int, low: int, high: int) -> int {
    if at < low {
        low
    } else if at > high {
        high
    } else {
        at
    }
}

/// The bytes from `from` up to `to` as one segment, or no segment if there
/// are no such bytes.
pub open spec fn piece(text: Seq<u8>, from: int, to: int, highlighted: bool) -> Seq<SegmentView> {
    if from < to {
        seq![SegmentView { text: text.subrange(from, to), highlighted }]
    } else {
        seq![]
    }
}

/// The line from `from` up to `to`, cut where the marked range from `start`
/// up to `end` begins and ends within it: what precedes the range, what lies
/// in it, and what follows it, each left out if empty.
pub open spec fn line_segments(text: Seq<u8>, from: int, to: int, start: int, end: int) -> Seq<
    SegmentView,
> {
    let first = clip(start, from, to);
    let last = clip(end, from, to);
    piece(text, from, first, false) + piece(text, first, last, true) + piece(text, last, to, false)
}

/// The lines of the text from the offset `from` on, `from` being the start
/// of a line.
pub open spec fn lines_from(text: Seq<u8>, from: int, start: int, end: int) -> Seq<
    Seq<SegmentView>,
>
    decreases text.len() - from,
{
    let to = line_end(text, from);
    let line = line_segments(text, from, to, start, end);
    if from >= text.len() || to >= text.len() {
        seq![line]
    } else {
        proof {
            lemma_line_end_bounds(text, from);
        }
        seq![line] + lines_from(text, to + 1, start, end)
    }
}

/// The source view of `text`, the text of a block that spans `block_span`,
/// with the bytes of `target` marked. Where [`highlight_range`] gives no
/// range, nothing is marked.
pub open spec fn highlighted_source(text: Seq<u8>, block_span: Span, target: Option<Span>) -> Seq<
    Seq<SegmentView>,
> {
    match highlight_range(text.len(), block_span, target) {
        Some((start, end)) => lines_from(text, 0, start, end),
        None => lines_from(text, 0, 0, 0),
    }
}

/// The offset at which the line break after `from` stands, or the length of
/// the text.
fn find_line_end(text: &[u8], from: usize) -> (to: usize)
    requires
        from <= text@.len(),
    ensures
        to == line_end(text@, from as int),
        from <= to <= text@.len(),
{
    let mut to: usize = from;
    while to < text.len() && text[to] != NEWLINE
        invariant
            from <= to <= text@.len(),
            line_end(text@, to as int) == line_end(text@, from as int),
        decreases text@.len() - to,
    {
        to += 1;
    }
    to
}

/// Appends the bytes from `from` up to `to` as one segment, if there are any.
fn push_piece(line: &mut Vec<Segment>, text: &[u8], from: usize, to: usize, highlighted: bool)
    requires
        from <= text@.len(),
        to <= text@.len(),
    ensures
        final(line)@.map_values(|segment: Segment| segment@) == old(line)@.map_values(
            |segment: Segment| segment@,
        ) + piece(text@, from as int, to as int, highlighted),
{
    if from < to {
        let segment = Segment { text: slice_to_vec(slice_subrange(text, from, to)), highlighted };
        line.push(segment);
        assert(line@.map_values(|segment: Segment| segment@) =~= old(line)@.map_values(
            |segment: Segment| segment@,
        ) + piece(text@, from as int, to as int, highlighted));
    } else {
        assert(line@.map_values(|segment: Segment| segment@) =~= old(line)@.map_values(
            |segment: Segment| segment@,
        ) + piece(text@, from as int, to as int, highlighted));
    }
}

/// `at`, moved into the range from `low` to `high` if it lies outside.
fn clip_to(at: usize, low: usize, high: usize) -> (clipped: usize)
    ensures
        clipped == clip(at as int, low as int, high as int),
{
    if at < low {
        low
    } else if at > high {
        high
    } else {
        at
    }
}

/// The line from `from` up to `to` with the range from `start` up to `end`
/// marked.
fn build_line(text: &[u8], from: usize, to: usize, start: usize, end: usize) -> (line: DisplayLine)
    requires
        from <= to <= text@.len(),
    ensures
        line@ == line_segments(text@, from as int, to as int, start as int, end as int),
{
    let first = clip_to(start, from, to);
    let last = clip_to(end, from, to);
    let mut segments: Vec<Segment> = Vec::new();
    assert(segments@.map_values(|segment: Segment| segment@) =~= Seq::<SegmentView>::empty());
    push_piece(&mut segments, text, from, first, false);
    push_piece(&mut segments, text, first, last, true);
    push_piece(&mut segments, text, last, to, false);
    DisplayLine { segments }
}

/// The part of the text to mark, as [`highlight_range`] gives it.
fn find_highlight_range(len: usize, block_span: Span, target: Option<Span>) -> (range: Option<
    (usize, usize),
>)
    ensures
        match range {
            Some((start, end)) => highlight_range(len as nat, block_span, target) == Some(
                (start as int, end as int),
            ),
            None => highlight_range(len as nat, block_span, target) is None,
        },
{
    match target {
        Some(span) => {
            if block_span.start <= span.start && span.start <= span.end && span.end
                <= block_span.end && span.end - block_span.start <= len {
                Some((span.start - block_span.start, span.end - block_span.start))
            } else {
                None
            }
        },
        None => None,
    }
}

/// Cuts the source text of a block into display lines and marks the bytes of
/// the span `target`. Both spans are in absolute coordinates: `block_span`
/// is that of the whole text, whose first byte stands at `block_span.start`.
///
/// Nothing is marked if there is no target, if it does not lie within the
/// block's span, if it ends before it starts, or if it reaches beyond the
/// text. The result depends on the three arguments and on nothing else.
pub fn compose(source: &[u8], block_span: Span, target: Option<Span>) -> (lines: Vec<DisplayLine>)
    ensures
        lines_view(lines) == highlighted_source(source@, block_span, target),
{
    let (start, end) = match find_highlight_range(source.len(), block_span, target) {
        Some(range) => range,
        None => (0, 0),
    };
    let mut lines: Vec<DisplayLine> = Vec::new();
    let mut from: usize = 0;
    loop
        invariant_except_break
            from <= source@.len(),
            lines_view(lines) + lines_from(source@, from as int, start as int, end as int)
                == lines_from(source@, 0, start as int, end as int),
        ensures
            lines_view(lines) == lines_from(source@, 0, start as int, end as int),
        decreases source@.len() - from,
    {
        let to = find_line_end(source, from);
        let line = build_line(source, from, to, start, end);
        let ghost before = lines_view(lines);
        lines.push(line);
        assert(lines_view(lines) =~= before + seq![line@]);
        if to >= source.len() {
            break ;
        }
        assert(before + (seq![line@] + lines_from(source@, to + 1, start as int, end as int))
            =~= lines_view(lines) + lines_from(source@, to + 1, start as int, end as int));
        from = to + 1;
    }
    lines
}

/// The byte at the offset `at` as it is displayed: the byte itself, and
/// whether it is marked. A byte is marked if it lies in the range from
/// `start` up to `end` and is no line break.
pub open spec fn shown(text: Seq<u8>, start: int, end: int, at: int) -> (u8, bool) {
    (text[at], start <= at < end && text[at] != NEWLINE)
}

/// The bytes from `from` up to `to`, each as it is displayed.
pub open spec fn shown_range(text: Seq<u8>, start: int, end: int, from: int, to: int) -> Seq<
    (u8, bool),
> {
    Seq::new((to - from) as nat, |i: int| shown(text, start, end, from + i))
}

/// The bytes of a segment, each with the segment's mark.
pub open spec fn segment_bytes(segment: SegmentView) -> Seq<(u8, bool)> {
    segment.text.map_values(|byte: u8| (byte, segment.highlighted))
}

/// The bytes of a line from left to right, each with the mark of its
/// segment.
pub open spec fn line_bytes(line: Seq<SegmentView>) -> Seq<(u8, bool)>
    decreases line.len(),
{
    if line.len() == 0 {
        seq![]
    } else {
        segment_bytes(line[0]) + line_bytes(line.drop_first())
    }
}

/// The bytes of a source view: those of its lines, with an unmarked line
/// break between each line and the next.
pub open spec fn view_bytes(lines: Seq<Seq<SegmentView>>) -> Seq<(u8, bool)>
    decreases lines.len(),
{
    if lines.len() == 0 {
        seq![]
    } else if lines.len() == 1 {
        line_bytes(lines[0])
    } else {
        line_bytes(lines[0]) + seq![(NEWLINE, false)] + view_bytes(lines.drop_first())
    }
}

/// The text that a source view displays: its lines joined by line breaks.
pub open spec fn view_text(lines: Seq<Seq<SegmentView>>) -> Seq<u8> {
    view_bytes(lines).map_values(|byte: (u8, bool)| byte.0)
}

/// Whether no segment of a source view is marked.
pub open spec fn all_plain(lines: Seq<Seq<SegmentView>>) -> bool {
    forall|i: int, j: int|
        0 <= i < lines.len() && 0 <= j < lines[i].len() ==> !(#[trigger] lines[i][j]).highlighted
}

proof fn lemma_line_bytes_concat(left: Seq<SegmentView>, right: Seq<SegmentView>)
    ensures
        line_bytes(left + right) == line_bytes(left) + line_bytes(right),
    decreases left.len(),
{
    if left.len() == 0 {
        assert(left + right =~= right);
        assert(line_bytes(left) + line_bytes(right) =~= line_bytes(right));
    } else {
        lemma_line_bytes_concat(left.drop_first(), right);
        assert((left + right).drop_first() =~= left.drop_first() + right);
        assert(line_bytes(left + right) =~= line_bytes(left) + line_bytes(right));
    }
}

proof fn lemma_piece_bytes(text: Seq<u8>, from: int, to: int, highlighted: bool)
    requires
        0 <= from <= text.len(),
        0 <= to <= text.len(),
    ensures
        line_bytes(piece(text, from, to, highlighted)) == if from < to {
            text.subrange(from, to).map_values(|byte: u8| (byte, highlighted))
        } else {
            Seq::<(u8, bool)>::empty()
        },
{
    if from < to {
        let line = piece(text, from, to, highlighted);
        assert(line.drop_first() =~= Seq::<SegmentView>::empty());
        assert(line_bytes(line.drop_first()) =~= Seq::<(u8, bool)>::empty());
        assert(line_bytes(line) =~= segment_bytes(line[0]));
    }
}

proof fn lemma_line_segments_bytes(text: Seq<u8>, from: int, to: int, start: int, end: int)
    requires
        0 <= from <= to <= text.len(),
        start <= end,
        forall|i: int| from <= i < to ==> text[i] != NEWLINE,
    ensures
        line_bytes(line_segments(text, from, to, start, end)) == shown_range(
            text,
            start,
            end,
            from,
            to,
        ),
{
    let first = clip(start, from, to);
    let last = clip(end, from, to);
    let before = piece(text, from, first, false);
    let within = piece(text, first, last, true);
    let after = piece(text, last, to, false);
    lemma_piece_bytes(text, from, first, false);
    lemma_piece_bytes(text, first, last, true);
    lemma_piece_bytes(text, last, to, false);
    lemma_line_bytes_concat(before + within, after);
    lemma_line_bytes_concat(before, within);
    assert(line_bytes(before) + line_bytes(within) + line_bytes(after) =~= shown_range(
        text,
        start,
        end,
        from,
        to,
    ));
}

proof fn lemma_lines_from_bytes(text: Seq<u8>, from: int, start: int, end: int)
    requires
        0 <= from <= text.len(),
        start <= end,
    ensures
        view_bytes(lines_from(text, from, start, end)) == shown_range(
            text,
            start,
            end,
            from,
            text.len() as int,
        ),
        lines_from(text, from, start, end).len() > 0,
    decreases text.len() - from,
{
    let to = line_end(text, from);
    lemma_line_end_bounds(text, from);
    lemma_line_segments_bytes(text, from, to, start, end);
    let line = line_segments(text, from, to, start, end);
    if from >= text.len() || to >= text.len() {
        assert(lines_from(text, from, start, end) =~= seq![line]);
    } else {
        let rest = lines_from(text, to + 1, start, end);
        lemma_lines_from_bytes(text, to + 1, start, end);
        let lines = seq![line] + rest;
        assert(lines.drop_first() =~= rest);
        assert(lines[0] == line);
        assert(view_bytes(lines) == line_bytes(line) + seq![(NEWLINE, false)] + view_bytes(rest));
        assert(view_bytes(lines) =~= shown_range(text, start, end, from, text.len() as int));
    }
}

proof fn lemma_line_segments_plain(text: Seq<u8>, from: int, to: int, at: int)
    ensures
        forall|j: int|
            0 <= j < line_segments(text, from, to, at, at).len() ==> !(
            #[trigger] line_segments(text, from, to, at, at)[j]).highlighted,
{
}

proof fn lemma_lines_from_plain(text: Seq<u8>, from: int, at: int)
    requires
        0 <= from <= text.len(),
    ensures
        all_plain(lines_from(text, from, at, at)),
    decreases text.len() - from,
{
    let to = line_end(text, from);
    lemma_line_end_bounds(text, from);
    lemma_line_segments_plain(text, from, to, at);
    let line = line_segments(text, from, to, at, at);
    if from >= text.len() || to >= text.len() {
    } else {
        let rest = lines_from(text, to + 1, at, at);
        lemma_lines_from_plain(text, to + 1, at);
        let lines = seq![line] + rest;
        assert forall|i: int, j: int| 0 <= i < lines.len() && 0 <= j < lines[i].len() implies !(
        #[trigger] lines[i][j]).highlighted by {
            if i > 0 {
                assert(lines[i] == rest[i - 1]);
                assert(!rest[i - 1][j].highlighted);
            }
        }
    }
}

/// What a source view displays. Byte for byte it is the text: the lines
/// joined by line breaks give back the text, whatever is marked. When a
/// range is marked, a byte is marked if and only if it lies in the range and
/// is no line break; when none is, no byte is marked.
pub proof fn lemma_source_view_shows_text(text: Seq<u8>, block_span: Span, target: Option<Span>)
    ensures
        view_text(highlighted_source(text, block_span, target)) == text,
        match highlight_range(text.len(), block_span, target) {
            Some((start, end)) => view_bytes(highlighted_source(text, block_span, target))
                == shown_range(text, start, end, 0, text.len() as int),
            None => view_bytes(highlighted_source(text, block_span, target)) == shown_range(
                text,
                0,
                0,
                0,
                text.len() as int,
            ),
        },
{
    let lines = highlighted_source(text, block_span, target);
    match highlight_range(text.len(), block_span, target) {
        Some((start, end)) => {
            lemma_lines_from_bytes(text, 0, start, end);
        },
        None => {
            lemma_lines_from_bytes(text, 0, 0, 0);
        },
    }
    assert(view_text(lines) =~= text);
}

/// A target that does not lie within the span of the block leaves the
/// source view without a marked segment, and the view displays the text
/// exactly. The same holds where there is no target.
pub proof fn lemma_outside_span_is_plain(text: Seq<u8>, block_span: Span, target: Option<Span>)
    requires
        match target {
            Some(span) => span.start < block_span.start || span.end > block_span.end,
            None => true,
        },
    ensures
        all_plain(highlighted_source(text, block_span, target)),
        view_text(highlighted_source(text, block_span, target)) == text,
{
    lemma_lines_from_plain(text, 0, 0);
    lemma_source_view_shows_text(text, block_span, target);
}

/// The source view is a function of the text and the two spans: two views
/// made from the same three have the same content.
pub proof fn lemma_same_inputs_same_view(
    first: Vec<DisplayLine>,
    second: Vec<DisplayLine>,
    text: Seq<u8>,
    block_span: Span,
    target: Option<Span>,
)
    requires
        lines_view(first) == highlighted_source(text, block_span, target),
        lines_view(second) == highlighted_source(text, block_span, target),
    ensures
        lines_view(first) == lines_view(second),
        first@.len() == second@.len(),
{
    assert(lines_view(first).len() == first@.len());
    assert(lines_view(second).len() == second@.len());
}

} // verus!
