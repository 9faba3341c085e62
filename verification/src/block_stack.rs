//! The stack of open blocks of a function body, and the resolution of
//! branch labels against it.

use crate::ast::{Idx, Label};
use vstd::prelude::*;

verus! {

/// What opened a block, with the index of the opening instruction in the
/// function body. The function itself is the outermost block and is opened
/// by no instruction.
#[derive(Clone, Copy, Debug, PartialEq, Eq, Structural, Hash)]
pub enum Begin {
    Function,
    Block(usize),
    Loop(usize),
    If(usize),
    Else(usize),
}

impl Begin {
    /// The instruction index that stands for a branch to this block: 0 for
    /// the function and the opening instruction for every other block, for
    /// a loop (a backward branch) and for the forward branches alike.
    pub open spec fn target(self) -> usize {
        match self {
            Begin::Function => 0,
            Begin::Block(i) | Begin::Loop(i) | Begin::If(i) | Begin::Else(i) => i,
        }
    }
}

/// The block that a label names: labels count from the top of the stack.
pub open spec fn labelled(stack: Seq<Begin>, label: usize) -> Option<Begin> {
    if label < stack.len() {
        Some(stack[stack.len() - 1 - label])
    } else {
        None
    }
}

/// The instruction index that a branch to `label` is reported with.
pub fn label_to_instr_idx(begin_stack: &[Begin], label: Idx<Label>) -> (r: usize)
    requires
        labelled(begin_stack@, label.0).is_some(),
    ensures
        r == labelled(begin_stack@, label.0).unwrap().target(),
{
    let target_block = begin_stack[begin_stack.len() - 1 - label.0];
    match target_block {
        Begin::Function => 0,
        Begin::Loop(begin_iidx) => begin_iidx,
        Begin::If(i) | Begin::Else(i) | Begin::Block(i) => i,
    }
}

} // verus!
