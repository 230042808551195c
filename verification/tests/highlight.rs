use explore_ir::data::Span;
use explore_ir::highlight::{compose, DisplayLine, Segment};

fn plain(text: &str) -> Segment {
    Segment { text: text.as_bytes().to_vec(), highlighted: false }
}

fn marked(text: &str) -> Segment {
    Segment { text: text.as_bytes().to_vec(), highlighted: true }
}

fn line(segments: Vec<Segment>) -> DisplayLine {
    DisplayLine { segments }
}

fn joined(lines: &[DisplayLine]) -> Vec<u8> {
    let mut text = Vec::new();
    for (i, line) in lines.iter().enumerate() {
        if i > 0 {
            text.push(b'\n');
        }
        for segment in &line.segments {
            text.extend_from_slice(&segment.text);
        }
    }
    text
}

fn any_marked(lines: &[DisplayLine]) -> bool {
    lines.iter().any(|line| line.segments.iter().any(|segment| segment.highlighted))
}

#[test]
fn highlight_across_a_line_break() {
    let lines = compose(
        b"abc\ndef\nghi",
        Span { start: 0, end: 11 },
        Some(Span { start: 2, end: 5 }),
    );
    assert_eq!(
        lines,
        vec![
            line(vec![plain("ab"), marked("c")]),
            line(vec![marked("d"), plain("ef")]),
            line(vec![plain("ghi")]),
        ]
    );
}

#[test]
fn highlight_within_one_line() {
    let lines = compose(b"let x = 1", Span { start: 100, end: 109 }, Some(Span { start: 104, end: 105 }));
    assert_eq!(lines, vec![line(vec![plain("let "), marked("x"), plain(" = 1")])]);
}

#[test]
fn highlight_over_whole_lines() {
    let lines = compose(
        b"a\nbb\ncc\ndd\ne",
        Span { start: 0, end: 12 },
        Some(Span { start: 2, end: 10 }),
    );
    assert_eq!(
        lines,
        vec![
            line(vec![plain("a")]),
            line(vec![marked("bb")]),
            line(vec![marked("cc")]),
            line(vec![marked("dd")]),
            line(vec![plain("e")]),
        ]
    );
}

#[test]
fn highlight_from_the_start_of_a_line() {
    let lines = compose(b"abc\ndef", Span { start: 0, end: 7 }, Some(Span { start: 4, end: 7 }));
    assert_eq!(lines, vec![line(vec![plain("abc")]), line(vec![marked("def")])]);
}

#[test]
fn highlight_up_to_a_line_break() {
    let lines = compose(b"ab\ncd", Span { start: 0, end: 5 }, Some(Span { start: 0, end: 3 }));
    assert_eq!(lines, vec![line(vec![marked("ab")]), line(vec![plain("cd")])]);
}

#[test]
fn highlight_of_the_whole_text() {
    let lines = compose(b"ab\ncd", Span { start: 5, end: 10 }, Some(Span { start: 5, end: 10 }));
    assert_eq!(lines, vec![line(vec![marked("ab")]), line(vec![marked("cd")])]);
}

#[test]
fn empty_highlight_marks_nothing() {
    let lines = compose(b"abc", Span { start: 0, end: 3 }, Some(Span { start: 1, end: 1 }));
    assert_eq!(lines, vec![line(vec![plain("a"), plain("bc")])]);
    assert!(!any_marked(&lines));
}

#[test]
fn target_outside_the_block_is_plain() {
    let source = b"abc\ndef\nghi";
    let block = Span { start: 10, end: 21 };
    for target in [
        Span { start: 0, end: 5 },
        Span { start: 30, end: 40 },
        Span { start: 9, end: 12 },
        Span { start: 20, end: 22 },
        Span { start: 0, end: 0 },
    ] {
        let lines = compose(source, block, Some(target));
        assert!(!any_marked(&lines));
        assert_eq!(joined(&lines), source.to_vec());
        assert_eq!(
            lines,
            vec![line(vec![plain("abc")]), line(vec![plain("def")]), line(vec![plain("ghi")])]
        );
    }
}

#[test]
fn absent_target_is_plain() {
    let lines = compose(b"one\ntwo", Span { start: 3, end: 10 }, None);
    assert_eq!(lines, vec![line(vec![plain("one")]), line(vec![plain("two")])]);
}

#[test]
fn malformed_target_is_plain() {
    let source = b"abcdef";
    let block = Span { start: 0, end: 100 };
    let reversed = compose(source, block, Some(Span { start: 4, end: 2 }));
    assert_eq!(reversed, vec![line(vec![plain("abcdef")])]);
    let beyond_text = compose(source, block, Some(Span { start: 2, end: 7 }));
    assert_eq!(beyond_text, vec![line(vec![plain("abcdef")])]);
    let to_the_end = compose(source, block, Some(Span { start: 2, end: 6 }));
    assert_eq!(to_the_end, vec![line(vec![plain("ab"), marked("cdef")])]);
}

#[test]
fn same_inputs_give_the_same_view() {
    let source = b"fn main() {\n    body\n}\n";
    let block = Span { start: 7, end: 30 };
    let target = Some(Span { start: 10, end: 24 });
    assert_eq!(compose(source, block, target), compose(source, block, target));
    assert_eq!(compose(source, block, None), compose(source, block, None));
}

#[test]
fn lines_joined_by_breaks_give_back_the_text() {
    let sources: [&[u8]; 7] =
        [b"", b"\n", b"abc", b"abc\n", b"\n\nabc\n\n", b"a\r\nb", b"\xff\xfe\n\x00"];
    for source in sources {
        let block = Span { start: 0, end: source.len() };
        for start in 0..=source.len() {
            for end in start..=source.len() {
                let lines = compose(source, block, Some(Span { start, end }));
                assert_eq!(joined(&lines), source.to_vec());
                let breaks = source.iter().filter(|byte| **byte == b'\n').count();
                assert_eq!(lines.len(), breaks + 1);
                let marked_bytes: Vec<u8> = lines
                    .iter()
                    .flat_map(|line| line.segments.iter())
                    .filter(|segment| segment.highlighted)
                    .flat_map(|segment| segment.text.iter().copied())
                    .collect();
                let expected: Vec<u8> =
                    source[start..end].iter().copied().filter(|byte| *byte != b'\n').collect();
                assert_eq!(marked_bytes, expected);
            }
        }
    }
}

#[test]
fn empty_text_is_one_empty_line() {
    assert_eq!(compose(b"", Span { start: 0, end: 0 }, None), vec![line(vec![])]);
}

#[test]
fn text_ending_in_a_break_ends_in_an_empty_line() {
    let lines = compose(b"abc\n", Span { start: 0, end: 4 }, Some(Span { start: 0, end: 4 }));
    assert_eq!(lines, vec![line(vec![marked("abc")]), line(vec![])]);
}

#[test]
fn span_is_cut_at_bytes_not_at_characters() {
    let source = "aé".as_bytes();
    assert_eq!(source.len(), 3);
    let lines = compose(source, Span { start: 0, end: 3 }, Some(Span { start: 1, end: 2 }));
    assert_eq!(
        lines,
        vec![line(vec![
            Segment { text: vec![b'a'], highlighted: false },
            Segment { text: vec![0xc3], highlighted: true },
            Segment { text: vec![0xa9], highlighted: false },
        ])]
    );
}
