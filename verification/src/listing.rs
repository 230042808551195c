//! The instruction list: one row per instruction, with the formatted text
//! cut into the name of the instruction and its arguments.

use crate::data::{BlockState, BlockView, Instruction, Literal};
use vstd::prelude::*;
use vstd::string::StrSliceExecFns;

verus! {

/// How the arguments of an instruction are set off in the list.
#[derive(Clone, Copy, Debug, PartialEq, Eq, Structural)]
pub enum InstructionStyle {
    /// The instruction leads into another block.
    Nested,
    /// The instruction leads to another instruction of its block.
    Branch,
    /// The instruction leads nowhere.
    Plain,
}

/// The style of an instruction: that of a call and of a literal of nested
/// code, that of any other instruction with a branch target, or none.
pub open spec fn style_of(instruction: Instruction) -> InstructionStyle {
    match instruction {
        Instruction::Call { .. } => InstructionStyle::Nested,
        Instruction::LoadLiteral { lit: Literal::Other } => InstructionStyle::Plain,
        Instruction::LoadLiteral { .. } => InstructionStyle::Nested,
        Instruction::Branch { .. } => InstructionStyle::Branch,
        Instruction::Other => InstructionStyle::Plain,
    }
}

/// The style in which the arguments of `instruction` are shown.
pub fn instruction_style(instruction: &Instruction) -> (style: InstructionStyle)
    ensures
        style == style_of(*instruction),
{
    match instruction {
        Instruction::Call { .. } => InstructionStyle::Nested,
        Instruction::LoadLiteral { lit } => match lit {
            Literal::Other => InstructionStyle::Plain,
            _ => InstructionStyle::Nested,
        },
        Instruction::Branch { .. } => InstructionStyle::Branch,
        Instruction::Other => InstructionStyle::Plain,
    }
}

/// The first offset at or after `from` at which a space stands, if `space`
/// is true, or anything but a space, if it is false; the length of the text
/// if there is no such offset.
pub open spec fn first_at(text: Seq<char>, from: int, space: bool) -> int
    decreases text.len() - from,
{
    if from >= text.len() {
        text.len() as int
    } else if (text[from] == ' ') == space {
        from
    } else {
        first_at(text, from + 1, space)
    }
}

/// The name of a formatted instruction: what stands before its first space.
pub open spec fn name_of(text: Seq<char>) -> Seq<char> {
    text.take(first_at(text, 0, true))
}

/// The arguments of a formatted instruction: what follows the spaces after
/// its name. A text without a space has none. Where nothing but spaces
/// follows the name, those spaces are the arguments.
pub open spec fn args_of(text: Seq<char>) -> Seq<char> {
    let space = first_at(text, 0, true);
    let args = first_at(text, space, false);
    if args < text.len() {
        text.skip(args)
    } else {
        text.skip(space)
    }
}

/// The mathematical content of an [`InstructionRow`].
pub struct RowView {
    pub index: usize,
    pub name: Seq<char>,
    pub args: Seq<char>,
    pub style: InstructionStyle,
    pub comment: Option<Seq<char>>,
}

/// One row of the instruction list.
#[derive(Debug, PartialEq, Eq)]
pub struct InstructionRow {
    /// The index of the instruction in its block.
    pub index: usize,
    /// The name of the instruction.
    pub name: String,
    /// The arguments of the instruction.
    pub args: String,
    /// How the arguments are set off.
    pub style: InstructionStyle,
    /// The comment on the instruction, if it is not empty.
    pub comment: Option<String>,
}

impl View for InstructionRow {
    type V = RowView;

    open spec fn view(&self) -> RowView {
        RowView {
            index: self.index,
            name: self.name@,
            args: self.args@,
            style: self.style,
            comment: match self.comment {
                Some(comment) => Some(comment@),
                None => None,
            },
        }
    }
}

/// The row of the instruction `index` of `block`.
pub open spec fn row_of(block: BlockView, index: int) -> RowView {
    RowView {
        index: index as usize,
        name: name_of(block.ir.formatted[index]),
        args: args_of(block.ir.formatted[index]),
        style: style_of(block.ir.instructions[index]),
        comment: if block.ir.comments[index].len() > 0 {
            Some(block.ir.comments[index])
        } else {
            None
        },
    }
}

/// The rows of the instruction list of `block`.
pub open spec fn rows_of(block: BlockView) -> Seq<RowView> {
    Seq::new(block.len(), |index: int| row_of(block, index))
}

/// The first offset at or after `from` at which a space stands, or anything
/// but a space.
fn find_first(text: &str, len: usize, from: usize, space: bool) -> (at: usize)
    requires
        len == text@.len(),
        from <= len,
    ensures
        at == first_at(text@, from as int, space),
        from <= at <= len,
{
    let mut at: usize = from;
    while at < len && (text.get_char(at) == ' ') != space
        invariant
            len == text@.len(),
            from <= at <= len,
            first_at(text@, at as int, space) == first_at(text@, from as int, space),
        decreases len - at,
    {
        at += 1;
    }
    at
}

/// Cuts a formatted instruction into its name and its arguments.
pub fn split_instruction(text: &str) -> (parts: (String, String))
    ensures
        parts.0@ == name_of(text@),
        parts.1@ == args_of(text@),
{
    let len = text.unicode_len();
    let space = find_first(text, len, 0, true);
    let args = find_first(text, len, space, false);
    let name = text.substring_char(0, space).to_owned();
    let rest = if args < len {
        text.substring_char(args, len)
    } else {
        text.substring_char(space, len)
    };
    (name, rest.to_owned())
}

/// The instruction list of `block`: one row per instruction, in order.
pub fn make_instruction_list(block: &BlockState) -> (rows: Vec<InstructionRow>)
    ensures
        rows@.map_values(|row: InstructionRow| row@) == rows_of(block@),
        rows@.len() == block@.len(),
{
    let view_ir = block.view_ir();
    let count = view_ir.instructions.len();
    let mut rows: Vec<InstructionRow> = Vec::new();
    let mut index: usize = 0;
    while index < count
        invariant
            view_ir@ == block@.ir,
            block@.wf(),
            count == block@.len(),
            index <= count,
            rows@.len() == index,
            forall|i: int| 0 <= i < index ==> (#[trigger] rows@[i])@ == row_of(block@, i),
        decreases count - index,
    {
        let (name, args) = split_instruction(view_ir.formatted_instructions[index].as_str());
        let comment = if view_ir.comments[index].as_str().is_empty() {
            None
        } else {
            Some(view_ir.comments[index].clone())
        };
        let style = instruction_style(&view_ir.instructions[index]);
        rows.push(InstructionRow { index, name, args, style, comment });
        index += 1;
    }
    assert(rows@.map_values(|row: InstructionRow| row@) =~= rows_of(block@));
    rows
}

} // verus!
