//! The blocks that a session walks: instructions, their spans and texts, and
//! the cursor that each block keeps.

use vstd::prelude::*;

verus! {

/// A byte range in absolute source coordinates, `start` included and `end`
/// excluded.
#[derive(Clone, Copy, Debug, PartialEq, Eq, Structural)]
pub struct Span {
    pub start: usize,
    pub end: usize,
}

/// What a literal-loading instruction loads, as far as navigation cares: one
/// of the three kinds of nested code, each with the identifier of its block,
/// or anything else.
#[derive(Clone, Copy, Debug, PartialEq, Eq, Structural)]
pub enum Literal {
    Block(usize),
    Closure(usize),
    RowCondition(usize),
    Other,
}

/// One step of compiled code, reduced to what decides where it leads.
#[derive(Clone, Copy, Debug, PartialEq, Eq, Structural)]
pub enum Instruction {
    /// A call of the definition `decl_id`.
    Call { decl_id: usize },
    /// A literal load.
    LoadLiteral { lit: Literal },
    /// Any other instruction that may continue at `target`, an index into the
    /// instructions of its own block.
    Branch { target: usize },
    /// Any other instruction.
    Other,
}

/// A compiled block as it is handed over: its identifier, the span of the
/// whole block, and one entry per instruction in each of five arrays.
#[derive(Debug)]
pub struct ViewIrOutput {
    pub block_id: usize,
    pub span: Span,
    pub instructions: Vec<Instruction>,
    pub spans: Vec<Span>,
    pub comments: Vec<String>,
    pub formatted_instructions: Vec<String>,
    pub debug_instructions: Vec<String>,
}

/// The mathematical content of a [`ViewIrOutput`].
pub struct IrView {
    pub block_id: usize,
    pub span: Span,
    pub instructions: Seq<Instruction>,
    pub spans: Seq<Span>,
    pub comments: Seq<Seq<char>>,
    pub formatted: Seq<Seq<char>>,
    pub debug: Seq<Seq<char>>,
}

impl IrView {
    /// Every instruction has exactly one span, one comment, one formatted
    /// text and one debug text.
    pub open spec fn aligned(self) -> bool {
        &&& self.spans.len() == self.instructions.len()
        &&& self.comments.len() == self.instructions.len()
        &&& self.formatted.len() == self.instructions.len()
        &&& self.debug.len() == self.instructions.len()
    }
}

/// The texts of a vector of strings.
pub open spec fn texts(v: Vec<String>) -> Seq<Seq<char>> {
    v@.map_values(|s: String| s@)
}

impl View for ViewIrOutput {
    type V = IrView;

    open spec fn view(&self) -> IrView {
        IrView {
            block_id: self.block_id,
            span: self.span,
            instructions: self.instructions@,
            spans: self.spans@,
            comments: texts(self.comments),
            formatted: texts(self.formatted_instructions),
            debug: texts(self.debug_instructions),
        }
    }
}

/// The mathematical content of a [`BlockState`].
pub struct BlockView {
    pub ir: IrView,
    pub source: Seq<u8>,
    pub selected: Option<usize>,
}

impl BlockView {
    /// The number of instructions.
    pub open spec fn len(self) -> nat {
        self.ir.instructions.len()
    }

    /// The cursor a block starts with: its first instruction, if it has one.
    pub open spec fn initial_cursor(ir: IrView) -> Option<usize> {
        if ir.instructions.len() > 0 {
            Some(0usize)
        } else {
            None
        }
    }

    /// The block with its cursor set to `selected`.
    pub open spec fn with_selected(self, selected: Option<usize>) -> BlockView {
        BlockView { selected, ..self }
    }

    /// The instruction under the cursor, if the cursor points at one.
    pub open spec fn selected_instruction(self) -> Option<Instruction> {
        match self.selected {
            Some(index) if index < self.len() => Some(self.ir.instructions[index as int]),
            _ => None,
        }
    }

    /// The span of the instruction under the cursor, if the cursor points at
    /// one.
    pub open spec fn selected_span(self) -> Option<Span> {
        match self.selected {
            Some(index) if index < self.ir.spans.len() => Some(self.ir.spans[index as int]),
            _ => None,
        }
    }

    /// What holds of every block: its arrays are aligned, and a block that
    /// has instructions has a cursor.
    pub open spec fn wf(self) -> bool {
        &&& self.ir.aligned()
        &&& self.len() > 0 ==> self.selected is Some
    }
}

/// The two ways the cursor moves by one line.
#[derive(Clone, Copy, Debug, PartialEq, Eq, Structural)]
pub enum Direction {
    Up,
    Down,
}

/// Where the cursor of `block` stands after one move: one line further in
/// the given direction, and never outside the instructions.
pub open spec fn moved_cursor(block: BlockView, direction: Direction) -> Option<usize> {
    if block.len() == 0 {
        None
    } else {
        let last = (block.len() - 1) as usize;
        match (direction, block.selected) {
            (Direction::Down, None) => Some(0usize),
            (Direction::Down, Some(index)) => Some(
                if index < last {
                    (index + 1) as usize
                } else {
                    last
                },
            ),
            (Direction::Up, None) => Some(last),
            (Direction::Up, Some(index)) => Some(
                if index == 0 {
                    0usize
                } else if index - 1 < last {
                    (index - 1) as usize
                } else {
                    last
                },
            ),
        }
    }
}

/// The reason with which [`get`] refuses arrays of different lengths.
pub open spec fn misaligned_reason() -> Seq<char> {
    "instruction arrays differ in length"@
}

/// A compiled block with the source text it was compiled from and its
/// cursor, the index of the selected instruction.
#[derive(Debug)]
pub struct BlockState {
    view_ir: ViewIrOutput,
    source: Vec<u8>,
    selected: Option<usize>,
}

impl View for BlockState {
    type V = BlockView;

    closed spec fn view(&self) -> BlockView {
        BlockView { ir: self.view_ir@, source: self.source@, selected: self.selected }
    }
}

impl BlockState {
    /// Every block is well formed, at all times.
    #[verifier::type_invariant]
    pub open spec fn inv(&self) -> bool {
        self@.wf()
    }

    /// The number of instructions, which is also the number of spans, of
    /// comments, of formatted texts and of debug texts.
    pub fn instruction_count(&self) -> (n: usize)
        ensures
            n == self@.len(),
            self@.wf(),
    {
        proof {
            use_type_invariant(self);
        }
        self.view_ir.instructions.len()
    }

    /// The block as it was handed over.
    pub fn view_ir(&self) -> (ir: &ViewIrOutput)
        ensures
            ir@ == self@.ir,
            self@.wf(),
    {
        proof {
            use_type_invariant(self);
        }
        &self.view_ir
    }

    /// The source text of the block.
    pub fn source(&self) -> (source: &Vec<u8>)
        ensures
            source@ == self@.source,
    {
        &self.source
    }

    /// The cursor.
    pub fn selected(&self) -> (selected: Option<usize>)
        ensures
            selected == self@.selected,
            self@.wf(),
    {
        proof {
            use_type_invariant(self);
        }
        self.selected
    }

    /// Moves the cursor to `index`, whether or not an instruction stands
    /// there.
    pub fn select(&mut self, index: usize)
        ensures
            final(self)@ == old(self)@.with_selected(Some(index)),
    {
        proof {
            use_type_invariant(&*self);
        }
        self.selected = Some(index);
    }

    /// Moves the cursor by one line in the given direction, stopping at the
    /// first and at the last instruction.
    pub fn move_cursor(&mut self, direction: Direction)
        ensures
            final(self)@ == old(self)@.with_selected(moved_cursor(old(self)@, direction)),
    {
        proof {
            use_type_invariant(&*self);
        }
        let n = self.view_ir.instructions.len();
        if n == 0 {
            self.selected = None;
        } else {
            let last = n - 1;
            let next = match (direction, self.selected) {
                (Direction::Down, None) => 0,
                (Direction::Down, Some(index)) => if index < last {
                    index + 1
                } else {
                    last
                },
                (Direction::Up, None) => last,
                (Direction::Up, Some(index)) => if index == 0 {
                    0
                } else if index - 1 < last {
                    index - 1
                } else {
                    last
                },
            };
            self.selected = Some(next);
        }
    }

    /// The instruction under the cursor, if the cursor points at one.
    pub fn selected_instruction(&self) -> (instruction: Option<Instruction>)
        ensures
            instruction == self@.selected_instruction(),
    {
        match self.selected {
            Some(index) => {
                if index < self.view_ir.instructions.len() {
                    Some(self.view_ir.instructions[index])
                } else {
                    None
                }
            },
            None => None,
        }
    }

    /// The span of the instruction under the cursor, if the cursor points at
    /// one.
    pub fn selected_span(&self) -> (span: Option<Span>)
        ensures
            span == self@.selected_span(),
    {
        match self.selected {
            Some(index) => {
                if index < self.view_ir.spans.len() {
                    Some(self.view_ir.spans[index])
                } else {
                    None
                }
            },
            None => None,
        }
    }
}

/// Makes a block of what was handed over and of its source text, with the
/// cursor on the first instruction if there is one. Arrays that do not have
/// one entry per instruction are refused.
pub fn get(view_ir: ViewIrOutput, source: Vec<u8>) -> (block: Result<BlockState, String>)
    ensures
        match block {
            Ok(b) => view_ir@.aligned() && b@ == (BlockView {
                ir: view_ir@,
                source: source@,
                selected: BlockView::initial_cursor(view_ir@),
            }),
            Err(reason) => !view_ir@.aligned() && reason@ == misaligned_reason(),
        },
{
    let n = view_ir.instructions.len();
    if view_ir.spans.len() == n && view_ir.comments.len() == n
        && view_ir.formatted_instructions.len() == n && view_ir.debug_instructions.len() == n {
        let selected = if n > 0 {
            Some(0)
        } else {
            None
        };
        Ok(BlockState { view_ir, source, selected })
    } else {
        Err("instruction arrays differ in length".to_owned())
    }
}

} // verus!
