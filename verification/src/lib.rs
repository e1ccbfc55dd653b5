//! Compile-time state machine for lowering one WebAssembly function body
//! into SSA-form intermediate representation: an operand stack of opaque
//! value handles tagged with NaN-canonicalization obligations, and a stack
//! of open structured control constructs (blocks, loops, if/else).

mod err;
mod extra;
mod frame;
mod phi_list;
mod state;
mod values;

pub use err::StateError;
pub use extra::lemma_union_commutative;
pub use extra::lemma_union_empty_identity;
pub use extra::ExtraInfo;
pub use frame::ControlFrame;
pub use frame::IfElseState;
pub use phi_list::phis_of;
pub use phi_list::PhiList;
pub use state::dec_digit;
pub use state::dec_rep;
pub use state::lemma_depth_zero_is_innermost;
pub use state::lemma_push_pop_lifo;
pub use state::pop_result;
pub use state::stack_after_pops;
pub use state::State;
pub use values::BasicBlock;
pub use values::BasicValueEnum;
pub use values::PhiValue;
