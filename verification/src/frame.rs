//! Control frames: one open structured construct (block, loop or
//! if/else) per frame. A frame records the join block where the
//! construct's exit paths converge, the ordered merge placeholders every
//! exit path must feed, and a snapshot of the operand-stack depth taken
//! at construct entry. A loop additionally records its body-entry block,
//! which is where a branch naming the loop jumps; for blocks and if/else
//! a branch jumps to the join block.

use crate::phi_list::phis_of;
use crate::phi_list::PhiList;
use crate::values::BasicBlock;
use crate::values::PhiValue;
use vstd::prelude::*;

verus! {

/// Which arm of an if/else construct instructions are currently being
/// appended to; the lowering routine advances it on the else opcode.
#[derive(Debug, Clone, Copy, PartialEq, Eq, Structural, Hash)]
pub enum IfElseState {
    If,
    Else,
}

/// One open structured control construct.
#[derive(Debug)]
pub enum ControlFrame {
    Block {
        next: BasicBlock,
        phis: PhiList,
        stack_size_snapshot: usize,
    },
    Loop {
        body: BasicBlock,
        next: BasicBlock,
        phis: PhiList,
        stack_size_snapshot: usize,
    },
    IfElse {
        if_then: BasicBlock,
        if_else: BasicBlock,
        next: BasicBlock,
        phis: PhiList,
        stack_size_snapshot: usize,
        if_else_state: IfElseState,
    },
}

impl ControlFrame {
    /// The join block: where every exit path of the construct converges.
    pub open spec fn spec_code_after(self) -> BasicBlock {
        match self {
            ControlFrame::Block { next, .. } => next,
            ControlFrame::Loop { next, .. } => next,
            ControlFrame::IfElse { next, .. } => next,
        }
    }

    /// The block a branch naming this frame jumps to: the body entry for
    /// a loop, the join block otherwise.
    pub open spec fn spec_br_dest(self) -> BasicBlock {
        match self {
            ControlFrame::Block { next, .. } => next,
            ControlFrame::Loop { body, .. } => body,
            ControlFrame::IfElse { next, .. } => next,
        }
    }

    /// The ordered merge placeholders of the construct.
    pub open spec fn spec_phis(self) -> Seq<PhiValue> {
        match self {
            ControlFrame::Block { phis, .. } => phis_of(phis),
            ControlFrame::Loop { phis, .. } => phis_of(phis),
            ControlFrame::IfElse { phis, .. } => phis_of(phis),
        }
    }

    /// The operand-stack depth recorded when the construct was entered.
    pub open spec fn spec_snapshot(self) -> usize {
        match self {
            ControlFrame::Block { stack_size_snapshot, .. } => stack_size_snapshot,
            ControlFrame::Loop { stack_size_snapshot, .. } => stack_size_snapshot,
            ControlFrame::IfElse { stack_size_snapshot, .. } => stack_size_snapshot,
        }
    }

    /// Whether the frame is a loop.
    pub open spec fn spec_is_loop(self) -> bool {
        self is Loop
    }

    /// The join block, where all exit paths of the construct converge;
    /// falling through the construct's end continues here.
    pub fn code_after(&self) -> (r: &BasicBlock)
        ensures
            *r == self.spec_code_after(),
    {
        match self {
            ControlFrame::Block { next, .. } => next,
            ControlFrame::Loop { next, .. } => next,
            ControlFrame::IfElse { next, .. } => next,
        }
    }

    /// The block a branch naming this frame should jump to. For a loop
    /// that is the body entry (continue semantics); for a block or an
    /// if/else it equals the join block (break semantics).
    pub fn br_dest(&self) -> (r: &BasicBlock)
        ensures
            *r == self.spec_br_dest(),
    {
        match self {
            ControlFrame::Block { next, .. } => next,
            ControlFrame::Loop { body, .. } => body,
            ControlFrame::IfElse { next, .. } => next,
        }
    }

    /// The ordered merge placeholders a branch must feed with result
    /// values before transferring control to this frame.
    pub fn phis(&self) -> (r: &[PhiValue])
        ensures
            r@ == self.spec_phis(),
    {
        match self {
            ControlFrame::Block { phis, .. } => phis.as_slice(),
            ControlFrame::Loop { phis, .. } => phis.as_slice(),
            ControlFrame::IfElse { phis, .. } => phis.as_slice(),
        }
    }

    /// Whether the frame is a loop; callers special-case loop-entry
    /// stack handling with this.
    pub fn is_loop(&self) -> (r: bool)
        ensures
            r == self.spec_is_loop(),
    {
        match self {
            ControlFrame::Loop { .. } => true,
            _ => false,
        }
    }
}

} // verus!
