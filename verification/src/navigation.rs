//! The navigation engine: the stack of visited blocks and the history of the
//! jumps that led through them.
//!
//! Jumps are recorded and can be undone; moving the cursor by one line is not
//! a jump and leaves no record.

use crate::data::{moved_cursor, BlockState, BlockView, Direction, Instruction, Literal};
use vstd::prelude::*;

verus! {

/// One jump that can be undone.
#[derive(Clone, Copy, Debug, PartialEq, Eq, Structural)]
pub enum JumpRecord {
    /// A block was entered; undoing it leaves that block.
    EnteredNestedBlock,
    /// The cursor jumped within a block; undoing it puts the cursor back on
    /// `previous_index`.
    LocalGoto { previous_index: usize },
}

/// How an identifier is to be looked up.
#[derive(Clone, Copy, Debug, PartialEq, Eq, Structural)]
pub enum TargetKind {
    /// The identifier names a definition.
    Declaration,
    /// The identifier names an anonymous block.
    Block,
}

/// A block that a forward jump needs and that the caller has to supply.
#[derive(Clone, Copy, Debug, PartialEq, Eq, Structural)]
pub struct BlockRequest {
    pub id: i64,
    pub kind: TargetKind,
}

/// Why a navigation step did nothing.
#[derive(Debug, PartialEq, Eq)]
pub enum NavigationError {
    /// The cursor points at no instruction.
    NothingSelected,
    /// The selected instruction leads nowhere.
    NoTarget,
    /// The block that a jump leads to could not be had.
    ResolutionFailed(String),
    /// The record of an entered block was undone with only one block open.
    AtRoot,
    /// There is no jump to undo.
    NoHistory,
    /// The index is not that of an instruction of the current block.
    IndexOutOfRange,
    /// The text typed at the prompt is not an index.
    InvalidGotoInput,
}

/// The mathematical content of a [`NavigationError`].
pub enum ErrorView {
    NothingSelected,
    NoTarget,
    ResolutionFailed(Seq<char>),
    AtRoot,
    NoHistory,
    IndexOutOfRange,
    InvalidGotoInput,
}

impl View for NavigationError {
    type V = ErrorView;

    open spec fn view(&self) -> ErrorView {
        match *self {
            NavigationError::NothingSelected => ErrorView::NothingSelected,
            NavigationError::NoTarget => ErrorView::NoTarget,
            NavigationError::ResolutionFailed(reason) => ErrorView::ResolutionFailed(reason@),
            NavigationError::AtRoot => ErrorView::AtRoot,
            NavigationError::NoHistory => ErrorView::NoHistory,
            NavigationError::IndexOutOfRange => ErrorView::IndexOutOfRange,
            NavigationError::InvalidGotoInput => ErrorView::InvalidGotoInput,
        }
    }
}

/// What is shown to the operator for an error: for a block that could not be
/// had the reason that came with it, for any other error a fixed text.
pub open spec fn message_text(error: ErrorView) -> Seq<char> {
    match error {
        ErrorView::NothingSelected => "nothing is selected"@,
        ErrorView::NoTarget => "nothing to jump to"@,
        ErrorView::ResolutionFailed(reason) => reason,
        ErrorView::AtRoot => "unable to jump to the previous block"@,
        ErrorView::NoHistory => "can't go back any further"@,
        ErrorView::IndexOutOfRange => "index out of range"@,
        ErrorView::InvalidGotoInput => "not a valid index"@,
    }
}

impl NavigationError {
    /// The text that is shown to the operator for this error.
    pub fn message(&self) -> (message: String)
        ensures
            message@ == message_text(self@),
    {
        match self {
            NavigationError::NothingSelected => "nothing is selected".to_owned(),
            NavigationError::NoTarget => "nothing to jump to".to_owned(),
            NavigationError::ResolutionFailed(reason) => reason.clone(),
            NavigationError::AtRoot => "unable to jump to the previous block".to_owned(),
            NavigationError::NoHistory => "can't go back any further".to_owned(),
            NavigationError::IndexOutOfRange => "index out of range".to_owned(),
            NavigationError::InvalidGotoInput => "not a valid index".to_owned(),
        }
    }
}

/// The outcome of a step, with the error taken by its content.
pub open spec fn outcome<T>(result: Result<T, NavigationError>) -> Result<T, ErrorView> {
    match result {
        Ok(value) => Ok(value),
        Err(error) => Err(error@),
    }
}

/// The reason given when an identifier is too large to be asked for.
pub open spec fn id_out_of_range_reason() -> Seq<char> {
    "out of range integral type conversion attempted"@
}

/// The request for the block `id`, which must fit the 64-bit signed integer
/// in which identifiers are asked for.
pub open spec fn request_for(id: usize, kind: TargetKind) -> Result<BlockRequest, ErrorView> {
    if id <= i64::MAX {
        Ok(BlockRequest { id: id as i64, kind })
    } else {
        Err(ErrorView::ResolutionFailed(id_out_of_range_reason()))
    }
}

/// Where the selected instruction of a block leads.
pub enum Forward {
    /// To the instruction `target` of the same block.
    Local { previous_index: usize, target: usize },
    /// Into another block, which has to be asked for.
    Nested(BlockRequest),
}

/// Where the selected instruction of `block` leads: a call into the
/// definition it calls, a literal of nested code into that block, any other
/// instruction to its branch target if it has one.
pub open spec fn forward_target(block: BlockView) -> Result<Forward, ErrorView> {
    match block.selected_instruction() {
        None => Err(ErrorView::NothingSelected),
        Some(Instruction::Call { decl_id }) => match request_for(decl_id, TargetKind::Declaration) {
            Ok(request) => Ok(Forward::Nested(request)),
            Err(error) => Err(error),
        },
        Some(Instruction::LoadLiteral { lit: Literal::Block(id) })
        | Some(Instruction::LoadLiteral { lit: Literal::Closure(id) })
        | Some(Instruction::LoadLiteral { lit: Literal::RowCondition(id) }) => match request_for(
            id,
            TargetKind::Block,
        ) {
            Ok(request) => Ok(Forward::Nested(request)),
            Err(error) => Err(error),
        },
        Some(Instruction::Branch { target }) => Ok(
            Forward::Local { previous_index: block.selected->0, target },
        ),
        Some(_) => Err(ErrorView::NoTarget),
    }
}

/// The mathematical content of a [`Navigator`]: the open blocks, the entry
/// point first and the current block last, and the jumps made, oldest first.
pub struct NavigatorView {
    pub blocks: Seq<BlockView>,
    pub history: Seq<JumpRecord>,
}

impl NavigatorView {
    /// At least one block is open, and every open block is well formed.
    pub open spec fn wf(self) -> bool {
        &&& self.blocks.len() > 0
        &&& forall|i: int| 0 <= i < self.blocks.len() ==> (#[trigger] self.blocks[i]).wf()
    }

    /// The number of open blocks.
    pub open spec fn depth(self) -> nat {
        self.blocks.len()
    }

    /// The block that is shown and that the keys act on.
    pub open spec fn current(self) -> BlockView {
        self.blocks.last()
    }

    /// The cursor of the current block.
    pub open spec fn selected(self) -> Option<usize> {
        self.current().selected
    }

    /// The state with the cursor of the current block on `index`.
    pub open spec fn with_selected(self, index: usize) -> NavigatorView {
        NavigatorView {
            blocks: self.blocks.update(
                self.blocks.len() - 1,
                self.current().with_selected(Some(index)),
            ),
            ..self
        }
    }

    /// The state with one more record at the end of the history.
    pub open spec fn recorded(self, record: JumpRecord) -> NavigatorView {
        NavigatorView { history: self.history.push(record), ..self }
    }

    /// The state with `block` open on top of the others.
    pub open spec fn enter(self, block: BlockView) -> NavigatorView {
        NavigatorView { blocks: self.blocks.push(block), ..self }
    }

    /// A forward jump: what it leaves and what it returns. Only a jump
    /// within the block changes anything; a jump into another block returns
    /// the request for it.
    pub open spec fn jump_forward(self) -> (NavigatorView, Result<Option<BlockRequest>, ErrorView>) {
        match forward_target(self.current()) {
            Err(error) => (self, Err(error)),
            Ok(Forward::Nested(request)) => (self, Ok(Some(request))),
            Ok(Forward::Local { previous_index, target }) => (
                self.recorded(JumpRecord::LocalGoto { previous_index }).with_selected(target),
                Ok(None),
            ),
        }
    }

    /// The end of a forward jump into another block: with the block, it is
    /// recorded and entered; without it, nothing changes.
    pub open spec fn block_resolved(self, resolved: Result<BlockView, Seq<char>>) -> (
        NavigatorView,
        Result<(), ErrorView>,
    ) {
        match resolved {
            Ok(block) => (self.recorded(JumpRecord::EnteredNestedBlock).enter(block), Ok(())),
            Err(reason) => (self, Err(ErrorView::ResolutionFailed(reason))),
        }
    }

    /// A backward jump: the last record leaves the history, and is undone
    /// unless it is that of an entered block with only one block open.
    pub open spec fn jump_backward(self) -> (NavigatorView, Result<(), ErrorView>) {
        if self.history.len() == 0 {
            (self, Err(ErrorView::NoHistory))
        } else {
            let rest = NavigatorView { history: self.history.drop_last(), ..self };
            match self.history.last() {
                JumpRecord::EnteredNestedBlock => if self.blocks.len() > 1 {
                    (NavigatorView { blocks: self.blocks.drop_last(), ..rest }, Ok(()))
                } else {
                    (rest, Err(ErrorView::AtRoot))
                },
                JumpRecord::LocalGoto { previous_index } => (
                    rest.with_selected(previous_index),
                    Ok(()),
                ),
            }
        }
    }

    /// A jump to the instruction `index` of the current block, recorded if
    /// the block had a cursor.
    pub open spec fn goto(self, index: usize) -> (NavigatorView, Result<(), ErrorView>) {
        if index >= self.current().len() {
            (self, Err(ErrorView::IndexOutOfRange))
        } else {
            match self.selected() {
                Some(previous_index) => (
                    self.recorded(JumpRecord::LocalGoto { previous_index }).with_selected(index),
                    Ok(()),
                ),
                None => (self.with_selected(index), Ok(())),
            }
        }
    }

    /// A move of the cursor by one line.
    pub open spec fn move_selection(self, direction: Direction) -> NavigatorView {
        NavigatorView {
            blocks: self.blocks.update(
                self.blocks.len() - 1,
                self.current().with_selected(moved_cursor(self.current(), direction)),
            ),
            ..self
        }
    }
}

/// The stack of open blocks and the history of jumps.
#[derive(Debug)]
pub struct Navigator {
    /// The open blocks under the current one, the entry point first.
    below: Vec<BlockState>,
    /// The block that is shown.
    current: BlockState,
    /// The jumps made, oldest first.
    jump_list: Vec<JumpRecord>,
}

impl View for Navigator {
    type V = NavigatorView;

    closed spec fn view(&self) -> NavigatorView {
        NavigatorView {
            blocks: self.below@.map_values(|block: BlockState| block@).push(self.current@),
            history: self.jump_list@,
        }
    }
}

impl Navigator {
    /// A navigator with `initial` as its only block and no history.
    pub fn new(initial: BlockState) -> (navigator: Navigator)
        ensures
            navigator@ == (NavigatorView { blocks: seq![initial@], history: seq![] }),
    {
        let navigator = Navigator { below: Vec::new(), current: initial, jump_list: Vec::new() };
        assert(navigator@.blocks =~= seq![initial@]);
        navigator
    }

    /// A navigator with `initial` as its only block and with the jumps of
    /// `history` to undo, oldest first.
    pub fn with_history(initial: BlockState, history: Vec<JumpRecord>) -> (navigator: Navigator)
        ensures
            navigator@ == (NavigatorView { blocks: seq![initial@], history: history@ }),
    {
        let navigator = Navigator { below: Vec::new(), current: initial, jump_list: history };
        assert(navigator@.blocks =~= seq![initial@]);
        navigator
    }

    /// The number of open blocks, which is never zero. A number that `usize`
    /// cannot hold is given as `usize::MAX`.
    pub fn depth(&self) -> (depth: usize)
        ensures
            self@.depth() > 0,
            depth == if self@.depth() <= usize::MAX {
                self@.depth()
            } else {
                usize::MAX as nat
            },
    {
        let below = self.below.len();
        if below < usize::MAX {
            below + 1
        } else {
            below
        }
    }

    /// The number of jumps that can be undone.
    pub fn history_len(&self) -> (len: usize)
        ensures
            len == self@.history.len(),
    {
        self.jump_list.len()
    }

    /// The block that is shown and that the keys act on.
    pub fn current_block(&self) -> (block: &BlockState)
        ensures
            self@.depth() > 0,
            block@ == self@.current(),
            block@.wf(),
    {
        proof {
            use_type_invariant(&self.current);
        }
        &self.current
    }

    /// The cursor of the current block.
    pub fn selected(&self) -> (selected: Option<usize>)
        ensures
            selected == self@.selected(),
    {
        self.current.selected()
    }

    /// Opens `block` on top of the others. Its own cursor becomes the
    /// active one.
    pub fn enter(&mut self, block: BlockState)
        ensures
            final(self)@ == old(self)@.enter(block@),
    {
        let mut entered = block;
        std::mem::swap(&mut self.current, &mut entered);
        self.below.push(entered);
        assert(self@.blocks =~= old(self)@.blocks.push(block@));
    }

    /// Puts the cursor of the current block on `index`.
    fn select(&mut self, index: usize)
        ensures
            final(self)@ == old(self)@.with_selected(index),
    {
        self.current.select(index);
        assert(self@.blocks =~= old(self)@.with_selected(index).blocks);
    }

    /// Jumps to where the selected instruction leads. A jump within the
    /// block is made and recorded at once, and `None` is returned. A jump
    /// into another block changes nothing yet: the request for that block is
    /// returned, and the jump ends with [`Navigator::block_resolved`].
    pub fn jump_forward(&mut self) -> (result: Result<Option<BlockRequest>, NavigationError>)
        ensures
            (final(self)@, outcome(result)) == old(self)@.jump_forward(),
    {
        match forward_target_of(&self.current) {
            Err(error) => Err(error),
            Ok(Forward::Nested(request)) => Ok(Some(request)),
            Ok(Forward::Local { previous_index, target }) => {
                self.jump_list.push(JumpRecord::LocalGoto { previous_index });
                self.select(target);
                Ok(None)
            },
        }
    }

    /// Ends a forward jump into another block. With the block, the jump is
    /// recorded and the block entered. With the reason why there is none,
    /// nothing changes and the reason is returned as the error.
    pub fn block_resolved(&mut self, resolved: Result<BlockState, String>) -> (result: Result<
        (),
        NavigationError,
    >)
        ensures
            (final(self)@, outcome(result)) == old(self)@.block_resolved(
                match resolved {
                    Ok(block) => Ok(block@),
                    Err(reason) => Err(reason@),
                },
            ),
    {
        match resolved {
            Ok(block) => {
                self.jump_list.push(JumpRecord::EnteredNestedBlock);
                self.enter(block);
                Ok(())
            },
            Err(reason) => Err(NavigationError::ResolutionFailed(reason)),
        }
    }

    /// Undoes the last jump. Its record leaves the history even when the
    /// jump cannot be undone because only one block is open.
    pub fn jump_backward(&mut self) -> (result: Result<(), NavigationError>)
        ensures
            (final(self)@, outcome(result)) == old(self)@.jump_backward(),
    {
        match self.jump_list.pop() {
            None => Err(NavigationError::NoHistory),
            Some(JumpRecord::EnteredNestedBlock) => {
                match self.below.pop() {
                    Some(block) => {
                        self.current = block;
                        assert(self@.blocks =~= old(self)@.blocks.drop_last());
                        Ok(())
                    },
                    None => {
                        assert(self@.blocks =~= old(self)@.blocks);
                        Err(NavigationError::AtRoot)
                    },
                }
            },
            Some(JumpRecord::LocalGoto { previous_index }) => {
                self.select(previous_index);
                Ok(())
            },
        }
    }

    /// Jumps to the instruction `index` of the current block. The jump is
    /// recorded if the block had a cursor.
    pub fn goto(&mut self, index: usize) -> (result: Result<(), NavigationError>)
        ensures
            (final(self)@, outcome(result)) == old(self)@.goto(index),
    {
        if index >= self.current.instruction_count() {
            return Err(NavigationError::IndexOutOfRange);
        }
        match self.current.selected() {
            Some(previous_index) => {
                self.jump_list.push(JumpRecord::LocalGoto { previous_index });
            },
            None => {},
        }
        self.select(index);
        Ok(())
    }

    /// Moves the cursor of the current block by one line, stopping at the
    /// first and at the last instruction. This is no jump: the history stays
    /// as it is.
    pub fn move_selection(&mut self, direction: Direction)
        ensures
            final(self)@ == old(self)@.move_selection(direction),
            final(self)@.history == old(self)@.history,
            final(self)@.depth() == old(self)@.depth(),
            final(self)@.current().len() == old(self)@.current().len(),
            match final(self)@.selected() {
                Some(index) => index < final(self)@.current().len(),
                None => final(self)@.current().len() == 0,
            },
    {
        self.current.move_cursor(direction);
        assert(self@.blocks =~= old(self)@.move_selection(direction).blocks);
    }
}

/// Where the selected instruction of `block` leads.
fn forward_target_of(block: &BlockState) -> (result: Result<Forward, NavigationError>)
    ensures
        outcome(result) == forward_target(block@),
{
    match block.selected_instruction() {
        None => Err(NavigationError::NothingSelected),
        Some(Instruction::Call { decl_id }) => match request(decl_id, TargetKind::Declaration) {
            Ok(request) => Ok(Forward::Nested(request)),
            Err(error) => Err(error),
        },
        Some(Instruction::LoadLiteral { lit }) => match lit {
            Literal::Block(id) | Literal::Closure(id) | Literal::RowCondition(id) => match request(
                id,
                TargetKind::Block,
            ) {
                Ok(request) => Ok(Forward::Nested(request)),
                Err(error) => Err(error),
            },
            Literal::Other => Err(NavigationError::NoTarget),
        },
        Some(Instruction::Branch { target }) => match block.selected() {
            Some(previous_index) => Ok(Forward::Local { previous_index, target }),
            None => Err(NavigationError::NothingSelected),
        },
        Some(Instruction::Other) => Err(NavigationError::NoTarget),
    }
}

/// The request for the block `id`.
fn request(id: usize, kind: TargetKind) -> (result: Result<BlockRequest, NavigationError>)
    ensures
        outcome(result) == request_for(id, kind),
{
    if id as u64 <= 0x7fff_ffff_ffff_ffffu64 {
        Ok(BlockRequest { id: id as i64, kind })
    } else {
        Err(
            NavigationError::ResolutionFailed(
                "out of range integral type conversion attempted".to_owned(),
            ),
        )
    }
}

/// The state after a run of cursor moves, made one after the other.
pub open spec fn move_all(state: NavigatorView, moves: Seq<Direction>) -> NavigatorView
    decreases moves.len(),
{
    if moves.len() == 0 {
        state
    } else {
        move_all(state, moves.drop_last()).move_selection(moves.last())
    }
}

/// A forward jump that is undone at once leaves the state as it was before
/// the jump: the same blocks, each with the cursor it had, and the same
/// history. This holds of a jump within the block and of a jump into any
/// block `entered`.
pub proof fn lemma_forward_then_backward(state: NavigatorView, entered: BlockView)
    requires
        state.depth() > 0,
    ensures
        state.jump_forward().1 == Ok::<Option<BlockRequest>, ErrorView>(None)
            ==> state.jump_forward().0.jump_backward() == (state, Ok::<(), ErrorView>(())),
        state.block_resolved(Ok(entered)).0.jump_backward() == (state, Ok::<(), ErrorView>(())),
{
    if state.jump_forward().1 == Ok::<Option<BlockRequest>, ErrorView>(None) {
        let after = state.jump_forward().0;
        assert(after.history.drop_last() =~= state.history);
        assert(after.jump_backward().0.blocks =~= state.blocks);
    }
    let nested = state.block_resolved(Ok(entered)).0;
    assert(nested.history.drop_last() =~= state.history);
    assert(nested.blocks.drop_last() =~= state.blocks);
}

/// A jump to any instruction of the current block that is undone at once
/// leaves the state as it was before the jump, and so the cursor where it
/// stood.
pub proof fn lemma_goto_then_backward(state: NavigatorView, index: usize)
    requires
        state.depth() > 0,
        state.current().wf(),
        index < state.current().len(),
    ensures
        state.goto(index).1 == Ok::<(), ErrorView>(()),
        state.goto(index).0.jump_backward() == (state, Ok::<(), ErrorView>(())),
{
    let after = state.goto(index).0;
    assert(after.history.drop_last() =~= state.history);
    assert(after.jump_backward().0.blocks =~= state.blocks);
}

/// However many times the cursor moves, and in whatever directions, the
/// history and the open blocks stay as they are but for the cursor of the
/// current block, and after the first move that cursor is on an instruction
/// of the block, or nowhere if the block has none.
pub proof fn lemma_moves_keep_history(state: NavigatorView, moves: Seq<Direction>)
    requires
        state.depth() > 0,
    ensures
        move_all(state, moves).history == state.history,
        move_all(state, moves).depth() == state.depth(),
        move_all(state, moves).current().len() == state.current().len(),
        move_all(state, moves).current().ir == state.current().ir,
        moves.len() > 0 ==> match move_all(state, moves).selected() {
            Some(index) => index < state.current().len(),
            None => state.current().len() == 0,
        },
    decreases moves.len(),
{
    if moves.len() > 0 {
        lemma_moves_keep_history(state, moves.drop_last());
    }
}

/// No step closes the last open block, and every step leaves the open
/// blocks well formed if they were so and if the block entered is.
pub proof fn lemma_steps_keep_well_formed(
    state: NavigatorView,
    index: usize,
    direction: Direction,
    resolved: Result<BlockView, Seq<char>>,
)
    requires
        state.wf(),
        resolved matches Ok(block) ==> block.wf(),
    ensures
        state.jump_forward().0.wf(),
        state.block_resolved(resolved).0.wf(),
        state.jump_backward().0.wf(),
        state.goto(index).0.wf(),
        state.move_selection(direction).wf(),
{
}

/// A step that fails leaves the state as it was, with one exception: the
/// record of an entered block leaves the history even when that block cannot
/// be left.
pub proof fn lemma_failure_changes_nothing(
    state: NavigatorView,
    index: usize,
    reason: Seq<char>,
)
    requires
        state.depth() > 0,
    ensures
        state.jump_forward().1 is Err ==> state.jump_forward().0 == state,
        state.jump_forward().1 matches Ok(Some(_)) ==> state.jump_forward().0 == state,
        state.block_resolved(Err(reason)) == (
            state,
            Err::<(), ErrorView>(ErrorView::ResolutionFailed(reason)),
        ),
        state.goto(index).1 is Err ==> state.goto(index).0 == state,
        state.jump_backward().1 is Err ==> {
            ||| state.jump_backward() == (state, Err::<(), ErrorView>(ErrorView::NoHistory))
            ||| state.jump_backward() == (
                NavigatorView { history: state.history.drop_last(), ..state },
                Err::<(), ErrorView>(ErrorView::AtRoot),
            )
        },
{
}

} // verus!
