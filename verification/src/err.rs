//! Recoverable structured errors. Stack underflow, control-frame
//! underflow and out-of-range frame lookups indicate a module that
//! upstream validation should already have rejected; they surface as a
//! failed compilation of the enclosing module. Each error carries a
//! short fixed message and a sentinel source position, since this layer
//! knows no original byte offsets.

use vstd::prelude::*;

verus! {

/// A defensive-backstop failure of the lowering state machine.
#[derive(Debug, Clone, Copy, PartialEq, Eq, Structural, Hash)]
pub enum StateError {
    /// The operand stack held fewer values than the operation needed.
    InvalidValueStack,
    /// A frame was popped from an empty control-frame stack.
    CannotPopControlStack,
    /// A frame lookup named a relative depth with no open frame.
    InvalidControlStackDepth,
}

impl StateError {
    /// The short fixed message of this error.
    pub fn message(&self) -> (r: &'static str)
        ensures
            *self == StateError::InvalidValueStack ==> r@ == "invalid value stack"@,
            *self == StateError::CannotPopControlStack ==> r@ == "cannot pop from control stack"@,
            *self == StateError::InvalidControlStackDepth ==> r@
                == "invalid control stack depth"@,
    {
        match self {
            StateError::InvalidValueStack => "invalid value stack",
            StateError::CannotPopControlStack => "cannot pop from control stack",
            StateError::InvalidControlStackDepth => "invalid control stack depth",
        }
    }

    /// The sentinel source position meaning "not attributable here."
    pub fn offset(&self) -> (r: usize)
        ensures
            r == usize::MAX,
    {
        usize::MAX
    }
}

} // verus!
