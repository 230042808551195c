//! The interactive session: what each key does to the navigation, to the
//! two overlays and to the error that is shown until the next key.

use crate::data::{BlockState, BlockView, Direction};
use crate::highlight::{compose, highlighted_source, lines_view, DisplayLine, SegmentView};
use crate::navigation::{
    outcome, BlockRequest, ErrorView, NavigationError, Navigator, NavigatorView,
};
use crate::prompt::{parse_index, parsed_index};
use vstd::prelude::*;

verus! {

/// A key press, as far as the session tells keys apart.
#[derive(Clone, Copy, Debug, PartialEq, Eq, Structural)]
pub enum Key {
    Char(char),
    Backspace,
    Enter,
    Esc,
    Up,
    Down,
    Other,
}

/// What the status bar shows.
#[derive(Clone, Copy, Debug, PartialEq, Eq, Structural)]
pub enum Status {
    /// The error of the last key.
    Error,
    /// The goto prompt with the text typed so far.
    GotoPrompt,
    /// The list of keys.
    Legend,
}

/// The mathematical content of a [`State`].
pub struct StateView {
    pub navigator: NavigatorView,
    pub should_quit: bool,
    pub show_inspector: bool,
    pub goto: bool,
    pub goto_contents: Seq<char>,
    pub error: Option<ErrorView>,
}

/// The error of a step, if it failed.
pub open spec fn error_of<T>(result: Result<T, ErrorView>) -> Option<ErrorView> {
    match result {
        Ok(_) => None,
        Err(error) => Some(error),
    }
}

impl StateView {
    /// The state in which a session starts: one block, no history, no
    /// overlay, no error.
    pub open spec fn start(initial: BlockView) -> StateView {
        StateView {
            navigator: NavigatorView { blocks: seq![initial], history: seq![] },
            should_quit: false,
            show_inspector: false,
            goto: false,
            goto_contents: seq![],
            error: None,
        }
    }

    /// The state with the navigation and the error that a step left.
    pub open spec fn after<T>(self, step: (NavigatorView, Result<T, ErrorView>)) -> StateView {
        StateView { navigator: step.0, error: error_of(step.1), ..self }
    }

    /// The prompt is confirmed: it closes and its text is dropped, whatever
    /// comes of it. Text that is an index is jumped to; text that is none,
    /// and an index that is out of range, leave an error.
    pub open spec fn confirm_goto(self) -> StateView {
        let closed = StateView { goto: false, goto_contents: seq![], ..self };
        match parsed_index(self.goto_contents) {
            Some(index) => closed.after(self.navigator.goto(index)),
            None => StateView { error: Some(ErrorView::InvalidGotoInput), ..closed },
        }
    }

    /// What a key does while the prompt is closed, or a key that the open
    /// prompt does not take for itself.
    pub open spec fn command(self, key: Key) -> (StateView, Option<BlockRequest>) {
        match key {
            Key::Char('q') => (StateView { should_quit: true, ..self }, None),
            Key::Char('g') => (StateView { goto: true, ..self }, None),
            Key::Char(' ') => (StateView { show_inspector: true, ..self }, None),
            Key::Esc => (StateView { show_inspector: false, goto: false, ..self }, None),
            Key::Up | Key::Char('k') => (
                StateView { navigator: self.navigator.move_selection(Direction::Up), ..self },
                None,
            ),
            Key::Down | Key::Char('j') => (
                StateView { navigator: self.navigator.move_selection(Direction::Down), ..self },
                None,
            ),
            Key::Char('[') => (self.after(self.navigator.jump_backward()), None),
            Key::Char(']') => (
                self.after(self.navigator.jump_forward()),
                match self.navigator.jump_forward().1 {
                    Ok(request) => request,
                    Err(_) => None,
                },
            ),
            _ => (self, None),
        }
    }

    /// What a key does: the state it leaves, and the block that has to be
    /// supplied before the next key, if the key began a jump into one.
    ///
    /// Every key first clears the error of the key before. An open prompt
    /// takes characters, backspace and enter for itself; every other key acts
    /// as it does with the prompt closed.
    pub open spec fn handle_keypress(self, key: Key) -> (StateView, Option<BlockRequest>) {
        let cleared = StateView { error: None, ..self };
        if self.goto && key is Char {
            (StateView { goto_contents: self.goto_contents.push(key->Char_0), ..cleared }, None)
        } else if self.goto && key is Backspace {
            if self.goto_contents.len() > 0 {
                (StateView { goto_contents: self.goto_contents.drop_last(), ..cleared }, None)
            } else {
                (cleared, None)
            }
        } else if self.goto && key is Enter {
            (cleared.confirm_goto(), None)
        } else {
            cleared.command(key)
        }
    }

    /// The block asked for by the last key arrived, or failed to: the jump
    /// is completed, or its failure becomes the error shown.
    pub open spec fn block_resolved(self, resolved: Result<BlockView, Seq<char>>) -> StateView {
        self.after(self.navigator.block_resolved(resolved))
    }

    /// What the status bar shows: the error if there is one, else the prompt
    /// if it is open, else the list of keys.
    pub open spec fn status(self) -> Status {
        if self.error is Some {
            Status::Error
        } else if self.goto {
            Status::GotoPrompt
        } else {
            Status::Legend
        }
    }

    /// The index of the instruction that the inspector shows: the selected
    /// one, if the inspector is open and the cursor points at an instruction.
    pub open spec fn inspected(self) -> Option<usize> {
        if self.show_inspector && self.navigator.current().selected_instruction() is Some {
            self.navigator.selected()
        } else {
            None
        }
    }

    /// The source view of the current block with the span of the selected
    /// instruction marked.
    pub open spec fn source_view(self) -> Seq<Seq<SegmentView>> {
        let block = self.navigator.current();
        highlighted_source(block.source, block.ir.span, block.selected_span())
    }
}

/// The state of one interactive session.
#[derive(Debug)]
pub struct State {
    navigator: Navigator,
    should_quit: bool,
    show_inspector: bool,
    goto: bool,
    goto_contents: Vec<char>,
    error: Option<NavigationError>,
}

impl View for State {
    type V = StateView;

    closed spec fn view(&self) -> StateView {
        StateView {
            navigator: self.navigator@,
            should_quit: self.should_quit,
            show_inspector: self.show_inspector,
            goto: self.goto,
            goto_contents: self.goto_contents@,
            error: match self.error {
                Some(error) => Some(error@),
                None => None,
            },
        }
    }
}

impl State {
    /// Starts a session on `initial`.
    pub fn new(initial: BlockState) -> (state: State)
        ensures
            state@ == StateView::start(initial@),
    {
        State {
            navigator: Navigator::new(initial),
            should_quit: false,
            show_inspector: false,
            goto: false,
            goto_contents: Vec::new(),
            error: None,
        }
    }

    /// The navigation state.
    pub fn navigator(&self) -> (navigator: &Navigator)
        ensures
            navigator@ == self@.navigator,
    {
        &self.navigator
    }

    /// Whether the session is to end.
    pub fn should_quit(&self) -> (quit: bool)
        ensures
            quit == self@.should_quit,
    {
        self.should_quit
    }

    /// Whether the inspector is open.
    pub fn show_inspector(&self) -> (open: bool)
        ensures
            open == self@.show_inspector,
    {
        self.show_inspector
    }

    /// Whether the goto prompt is open.
    pub fn goto_active(&self) -> (open: bool)
        ensures
            open == self@.goto,
    {
        self.goto
    }

    /// The text typed at the goto prompt.
    pub fn goto_contents(&self) -> (text: &Vec<char>)
        ensures
            text@ == self@.goto_contents,
    {
        &self.goto_contents
    }

    /// The error of the last key, if it failed.
    pub fn error(&self) -> (error: Option<&NavigationError>)
        ensures
            match error {
                Some(error) => self@.error == Some(error@),
                None => self@.error is None,
            },
    {
        self.error.as_ref()
    }

    /// What the status bar shows.
    pub fn status(&self) -> (status: Status)
        ensures
            status == self@.status(),
    {
        if self.error.is_some() {
            Status::Error
        } else if self.goto {
            Status::GotoPrompt
        } else {
            Status::Legend
        }
    }

    /// The index of the instruction that the inspector shows, if it is open
    /// and an instruction is selected.
    pub fn inspected(&self) -> (index: Option<usize>)
        ensures
            index == self@.inspected(),
            index matches Some(i) ==> i < self@.navigator.current().len(),
    {
        if self.show_inspector && self.navigator.current_block().selected_instruction().is_some() {
            self.navigator.selected()
        } else {
            None
        }
    }

    /// The source view of the current block with the span of the selected
    /// instruction marked.
    pub fn source_view(&self) -> (lines: Vec<DisplayLine>)
        ensures
            lines_view(lines) == self@.source_view(),
    {
        let block = self.navigator.current_block();
        compose(block.source().as_slice(), block.view_ir().span, block.selected_span())
    }

    /// Keeps the error of a step, if it failed.
    fn keep_error<T>(&mut self, result: Result<T, NavigationError>) -> (value: Option<T>)
        ensures
            final(self)@ == (StateView {
                error: error_of(outcome(result)),
                ..old(self)@
            }),
            value == match result {
                Ok(value) => Some(value),
                Err(_) => None,
            },
    {
        match result {
            Ok(value) => {
                self.error = None;
                Some(value)
            },
            Err(error) => {
                self.error = Some(error);
                None
            },
        }
    }

    /// Confirms the goto prompt.
    fn confirm_goto(&mut self)
        ensures
            final(self)@ == old(self)@.confirm_goto(),
    {
        self.goto = false;
        let index = parse_index(&self.goto_contents);
        self.goto_contents = Vec::new();
        match index {
            Some(index) => {
                let result = self.navigator.goto(index);
                self.keep_error(result);
            },
            None => {
                self.error = Some(NavigationError::InvalidGotoInput);
            },
        }
    }

    /// A key that is a command.
    fn command(&mut self, key: Key) -> (request: Option<BlockRequest>)
        ensures
            (final(self)@, request) == old(self)@.command(key),
    {
        match key {
            Key::Char('q') => {
                self.should_quit = true;
                None
            },
            Key::Char('g') => {
                self.goto = true;
                None
            },
            Key::Char(' ') => {
                self.show_inspector = true;
                None
            },
            Key::Esc => {
                self.show_inspector = false;
                self.goto = false;
                None
            },
            Key::Up | Key::Char('k') => {
                self.navigator.move_selection(Direction::Up);
                None
            },
            Key::Down | Key::Char('j') => {
                self.navigator.move_selection(Direction::Down);
                None
            },
            Key::Char('[') => {
                let result = self.navigator.jump_backward();
                self.keep_error(result);
                None
            },
            Key::Char(']') => {
                let result = self.navigator.jump_forward();
                match self.keep_error(result) {
                    Some(request) => request,
                    None => None,
                }
            },
            _ => None,
        }
    }

    /// Handles one key press. Where the key began a jump into another block,
    /// the request for that block is returned: the caller gets the block and
    /// hands it, or the reason why there is none, to
    /// [`State::block_resolved`] before the next key.
    pub fn handle_keypress(&mut self, key: Key) -> (request: Option<BlockRequest>)
        ensures
            (final(self)@, request) == old(self)@.handle_keypress(key),
    {
        self.error = None;
        if self.goto {
            match key {
                Key::Char(c) => {
                    self.goto_contents.push(c);
                    return None;
                },
                Key::Backspace => {
                    self.goto_contents.pop();
                    assert(old(self)@.goto_contents.len() > 0 ==> self@.goto_contents
                        =~= old(self)@.goto_contents.drop_last());
                    return None;
                },
                Key::Enter => {
                    self.confirm_goto();
                    return None;
                },
                _ => {},
            }
        }
        self.command(key)
    }

    /// Ends the jump that the last key began: with the block, it is entered
    /// and the jump recorded; with the reason why there is none, nothing
    /// changes but the error shown.
    pub fn block_resolved(&mut self, resolved: Result<BlockState, String>)
        ensures
            final(self)@ == old(self)@.block_resolved(
                match resolved {
                    Ok(block) => Ok(block@),
                    Err(reason) => Err(reason@),
                },
            ),
    {
        let result = self.navigator.block_resolved(resolved);
        self.keep_error(result);
    }
}

} // verus!
