use explore_ir::data::{get, BlockState, Instruction, Span, ViewIrOutput};
use explore_ir::highlight::{DisplayLine, Segment};
use explore_ir::navigation::{BlockRequest, NavigationError, TargetKind};
use explore_ir::session::{Key, State, Status};
use explore_ir::status::{cursor_column, goto_label};

fn session_block(block_id: usize, source: &str, instructions: Vec<(Instruction, Span)>) -> BlockState {
    let n = instructions.len();
    let view_ir = ViewIrOutput {
        block_id,
        span: Span { start: 100, end: 100 + source.len() },
        instructions: instructions.iter().map(|pair| pair.0).collect(),
        spans: instructions.iter().map(|pair| pair.1).collect(),
        comments: (0..n).map(|_| String::new()).collect(),
        formatted_instructions: (0..n).map(|i| format!("inst {i}")).collect(),
        debug_instructions: (0..n).map(|i| format!("Inst({i})")).collect(),
    };
    get(view_ir, source.as_bytes().to_vec()).unwrap()
}

fn session_start() -> State {
    State::new(session_block(
        0,
        "abc\ndef\nghi",
        vec![
            (Instruction::Other, Span { start: 102, end: 105 }),
            (Instruction::Call { decl_id: 3 }, Span { start: 104, end: 107 }),
            (Instruction::Branch { target: 0 }, Span { start: 0, end: 0 }),
        ],
    ))
}

fn type_text(state: &mut State, text: &str) {
    for c in text.chars() {
        assert_eq!(state.handle_keypress(Key::Char(c)), None);
    }
}

#[test]
fn session_starts_quiet() {
    let state = session_start();
    assert!(!state.should_quit());
    assert!(!state.show_inspector());
    assert!(!state.goto_active());
    assert!(state.goto_contents().is_empty());
    assert_eq!(state.error(), None);
    assert_eq!(state.status(), Status::Legend);
    assert_eq!(state.navigator().depth(), 1);
    assert_eq!(state.navigator().history_len(), 0);
    assert_eq!(state.navigator().selected(), Some(0));
}

#[test]
fn quit_key_ends_the_session() {
    let mut state = session_start();
    assert_eq!(state.handle_keypress(Key::Char('q')), None);
    assert!(state.should_quit());
}

#[test]
fn arrows_and_letters_move_the_cursor() {
    let mut state = session_start();
    state.handle_keypress(Key::Down);
    assert_eq!(state.navigator().selected(), Some(1));
    state.handle_keypress(Key::Char('j'));
    assert_eq!(state.navigator().selected(), Some(2));
    state.handle_keypress(Key::Char('j'));
    assert_eq!(state.navigator().selected(), Some(2));
    state.handle_keypress(Key::Up);
    assert_eq!(state.navigator().selected(), Some(1));
    state.handle_keypress(Key::Char('k'));
    assert_eq!(state.navigator().selected(), Some(0));
    state.handle_keypress(Key::Char('k'));
    assert_eq!(state.navigator().selected(), Some(0));
    assert_eq!(state.navigator().history_len(), 0);
}

#[test]
fn inspector_opens_and_closes() {
    let mut state = session_start();
    assert_eq!(state.inspected(), None);
    state.handle_keypress(Key::Char(' '));
    assert!(state.show_inspector());
    assert_eq!(state.inspected(), Some(0));
    state.handle_keypress(Key::Down);
    assert_eq!(state.inspected(), Some(1));
    state.handle_keypress(Key::Esc);
    assert!(!state.show_inspector());
    assert_eq!(state.inspected(), None);
}

#[test]
fn goto_prompt_takes_text_and_jumps() {
    let mut state = session_start();
    state.handle_keypress(Key::Char('g'));
    assert!(state.goto_active());
    assert_eq!(state.status(), Status::GotoPrompt);
    type_text(&mut state, "q12");
    assert!(!state.should_quit());
    assert_eq!(state.goto_contents(), &vec!['q', '1', '2']);
    state.handle_keypress(Key::Backspace);
    state.handle_keypress(Key::Backspace);
    state.handle_keypress(Key::Backspace);
    state.handle_keypress(Key::Backspace);
    assert!(state.goto_contents().is_empty());
    type_text(&mut state, "2");
    assert_eq!(state.handle_keypress(Key::Enter), None);
    assert!(!state.goto_active());
    assert!(state.goto_contents().is_empty());
    assert_eq!(state.error(), None);
    assert_eq!(state.navigator().selected(), Some(2));
    assert_eq!(state.navigator().history_len(), 1);
    state.handle_keypress(Key::Char('['));
    assert_eq!(state.navigator().selected(), Some(0));
    assert_eq!(state.navigator().history_len(), 0);
}

#[test]
fn goto_prompt_refuses_what_is_no_index() {
    for text in ["", "x", "1x", "-1", "+", " 1", "1 ", "99999999999999999999999999"] {
        let mut state = session_start();
        state.handle_keypress(Key::Char('g'));
        type_text(&mut state, text);
        state.handle_keypress(Key::Enter);
        assert_eq!(state.error(), Some(&NavigationError::InvalidGotoInput));
        assert_eq!(state.status(), Status::Error);
        assert!(!state.goto_active());
        assert!(state.goto_contents().is_empty());
        assert_eq!(state.navigator().selected(), Some(0));
        assert_eq!(state.navigator().history_len(), 0);
    }
}

#[test]
fn goto_prompt_refuses_an_index_out_of_range() {
    let mut state = session_start();
    state.handle_keypress(Key::Char('g'));
    type_text(&mut state, "3");
    state.handle_keypress(Key::Enter);
    assert_eq!(state.error(), Some(&NavigationError::IndexOutOfRange));
    assert!(!state.goto_active());
    assert!(state.goto_contents().is_empty());
    assert_eq!(state.navigator().selected(), Some(0));
    assert_eq!(state.navigator().history_len(), 0);
}

#[test]
fn goto_prompt_accepts_a_plus_sign() {
    let mut state = session_start();
    state.handle_keypress(Key::Char('g'));
    type_text(&mut state, "+01");
    state.handle_keypress(Key::Enter);
    assert_eq!(state.error(), None);
    assert_eq!(state.navigator().selected(), Some(1));
}

#[test]
fn escape_closes_the_prompt_and_keeps_its_text() {
    let mut state = session_start();
    state.handle_keypress(Key::Char('g'));
    type_text(&mut state, "1");
    state.handle_keypress(Key::Esc);
    assert!(!state.goto_active());
    assert_eq!(state.goto_contents(), &vec!['1']);
    assert_eq!(state.navigator().selected(), Some(0));
}

#[test]
fn open_prompt_leaves_other_keys_their_meaning() {
    let mut state = session_start();
    state.handle_keypress(Key::Char('g'));
    state.handle_keypress(Key::Down);
    assert!(state.goto_active());
    assert_eq!(state.navigator().selected(), Some(1));
    state.handle_keypress(Key::Other);
    assert!(state.goto_active());
    assert_eq!(state.navigator().selected(), Some(1));
}

#[test]
fn error_is_shown_until_the_next_key() {
    let mut state = session_start();
    state.handle_keypress(Key::Char('['));
    assert_eq!(state.error(), Some(&NavigationError::NoHistory));
    assert_eq!(state.status(), Status::Error);
    state.handle_keypress(Key::Other);
    assert_eq!(state.error(), None);
    assert_eq!(state.status(), Status::Legend);
    state.handle_keypress(Key::Char(']'));
    assert_eq!(state.error(), Some(&NavigationError::NoTarget));
    state.handle_keypress(Key::Down);
    assert_eq!(state.error(), None);
}

#[test]
fn forward_key_asks_for_the_called_block() {
    let mut state = session_start();
    state.handle_keypress(Key::Down);
    let request = state.handle_keypress(Key::Char(']'));
    assert_eq!(request, Some(BlockRequest { id: 3, kind: TargetKind::Declaration }));
    assert_eq!(state.error(), None);
    assert_eq!(state.navigator().depth(), 1);

    state.block_resolved(Ok(session_block(8, "callee", vec![(Instruction::Other, Span { start: 100, end: 106 })])));
    assert_eq!(state.error(), None);
    assert_eq!(state.navigator().depth(), 2);
    assert_eq!(state.navigator().history_len(), 1);
    assert_eq!(state.navigator().current_block().view_ir().block_id, 8);

    assert_eq!(state.handle_keypress(Key::Char('[')), None);
    assert_eq!(state.navigator().depth(), 1);
    assert_eq!(state.navigator().history_len(), 0);
    assert_eq!(state.navigator().selected(), Some(1));
}

#[test]
fn failed_block_becomes_the_error_shown() {
    let mut state = session_start();
    state.handle_keypress(Key::Down);
    assert!(state.handle_keypress(Key::Char(']')).is_some());
    state.block_resolved(Err("Can't find `view ir`".to_string()));
    assert_eq!(
        state.error(),
        Some(&NavigationError::ResolutionFailed("Can't find `view ir`".to_string()))
    );
    assert_eq!(state.error().unwrap().message(), "Can't find `view ir`");
    assert_eq!(state.navigator().depth(), 1);
    assert_eq!(state.navigator().history_len(), 0);
}

#[test]
fn forward_key_follows_a_branch_at_once() {
    let mut state = session_start();
    state.handle_keypress(Key::Down);
    state.handle_keypress(Key::Down);
    assert_eq!(state.handle_keypress(Key::Char(']')), None);
    assert_eq!(state.navigator().selected(), Some(0));
    assert_eq!(state.navigator().history_len(), 1);
}

#[test]
fn source_view_follows_the_cursor() {
    let mut state = session_start();
    assert_eq!(
        state.source_view(),
        vec![
            DisplayLine {
                segments: vec![
                    Segment { text: b"ab".to_vec(), highlighted: false },
                    Segment { text: b"c".to_vec(), highlighted: true },
                ]
            },
            DisplayLine {
                segments: vec![
                    Segment { text: b"d".to_vec(), highlighted: true },
                    Segment { text: b"ef".to_vec(), highlighted: false },
                ]
            },
            DisplayLine { segments: vec![Segment { text: b"ghi".to_vec(), highlighted: false }] },
        ]
    );
    state.handle_keypress(Key::Down);
    state.handle_keypress(Key::Down);
    let plain = state.source_view();
    assert_eq!(plain.len(), 3);
    assert!(plain.iter().all(|line| line.segments.iter().all(|segment| !segment.highlighted)));
}

#[test]
fn cursor_stands_behind_the_prompt() {
    assert_eq!(goto_label(), "Go to index: ");
    let mut state = session_start();
    state.handle_keypress(Key::Char('g'));
    assert_eq!(state.goto_cursor_column(0, 80), 13);
    type_text(&mut state, "12");
    assert_eq!(state.goto_cursor_column(0, 80), 15);
    assert_eq!(state.goto_cursor_column(5, 80), 20);
    assert_eq!(state.goto_cursor_column(5, 8), 13);
    type_text(&mut state, "界");
    assert_eq!(state.goto_cursor_column(0, 80), 17);
}

#[test]
fn cursor_column_stays_within_the_area() {
    assert_eq!(cursor_column(0, 80, 0), 0);
    assert_eq!(cursor_column(2, 80, 10), 12);
    assert_eq!(cursor_column(2, 80, 80), 82);
    assert_eq!(cursor_column(2, 80, 81), 82);
    assert_eq!(cursor_column(2, 80, usize::MAX), 82);
    assert_eq!(cursor_column(65530, 10, 3), 65533);
    assert_eq!(cursor_column(65530, 10, 7), 65535);
    assert_eq!(cursor_column(65535, 0, 1), 65535);
}
