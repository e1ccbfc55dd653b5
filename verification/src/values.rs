//! Opaque handles to entities owned by the surrounding code-generation
//! context. The state machine never looks inside a basic block, a phi
//! placeholder, or a computed value; it only stores handles and returns
//! them. Each handle carries an identifier chosen by the caller.

use vstd::prelude::*;

verus! {

/// Handle to a basic block created by the surrounding code generator.
#[derive(Debug, Clone, Copy, PartialEq, Eq, Structural, Hash)]
pub struct BasicBlock {
    pub id: u64,
}

/// Handle to a phi-style merge placeholder at a control-flow join point.
#[derive(Debug, Clone, Copy, PartialEq, Eq, Structural, Hash)]
pub struct PhiValue {
    pub id: u64,
}

/// Handle to a previously computed intermediate-representation value.
#[derive(Debug, Clone, Copy, PartialEq, Eq, Structural, Hash)]
pub struct BasicValueEnum {
    pub id: u64,
}

} // verus!
