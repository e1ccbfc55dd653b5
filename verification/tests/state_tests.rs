use codegen_state::BasicBlock;
use codegen_state::BasicValueEnum;
use codegen_state::ControlFrame;
use codegen_state::ExtraInfo;
use codegen_state::IfElseState;
use codegen_state::PhiList;
use codegen_state::PhiValue;
use codegen_state::State;
use codegen_state::StateError;

fn val(id: u64) -> BasicValueEnum {
    BasicValueEnum { id }
}

fn block(id: u64) -> BasicBlock {
    BasicBlock { id }
}

fn no_phis() -> PhiList {
    PhiList::from_vec(Vec::new())
}

#[test]
fn new_state_is_empty_and_reachable() {
    let mut state = State::new();
    assert!(state.stack.is_empty());
    assert!(state.reachable);
    assert!(state.pop_frame().is_err());
}

#[test]
fn pushes_then_pops_return_values_in_reverse_order() {
    let mut state = State::new();
    for id in 0..5u64 {
        state.push1(val(id));
    }
    for id in (0..5u64).rev() {
        assert_eq!(state.pop1().unwrap(), val(id));
    }
    assert_eq!(state.pop1().unwrap_err(), StateError::InvalidValueStack);
}

#[test]
fn push1_attaches_the_empty_obligation() {
    let mut state = State::new();
    state.push1(val(3));
    let (v, info) = state.pop1_extra().unwrap();
    assert_eq!(v, val(3));
    assert_eq!(info, ExtraInfo::default());
}

#[test]
fn push1_extra_keeps_the_obligation() {
    let mut state = State::new();
    state.push1_extra(val(4), ExtraInfo::pending_f64_nan());
    let (v, info) = state.pop1_extra().unwrap();
    assert_eq!(v, val(4));
    assert_eq!(info, ExtraInfo::pending_f64_nan());
}

#[test]
fn pop2_returns_original_order() {
    let mut state = State::new();
    state.push1(val(1));
    state.push1(val(2));
    assert_eq!(state.pop2().unwrap(), (val(1), val(2)));
    assert!(state.stack.is_empty());
}

#[test]
fn pop2_extra_returns_original_order() {
    let mut state = State::new();
    state.push1_extra(val(1), ExtraInfo::arithmetic_f32());
    state.push1_extra(val(2), ExtraInfo::pending_f32_nan());
    let (p1, p2) = state.pop2_extra().unwrap();
    assert_eq!(p1, (val(1), ExtraInfo::arithmetic_f32()));
    assert_eq!(p2, (val(2), ExtraInfo::pending_f32_nan()));
}

#[test]
fn pop3_extra_returns_original_order() {
    let mut state = State::new();
    state.push1(val(1));
    state.push1(val(2));
    state.push1(val(3));
    let (p1, p2, p3) = state.pop3_extra().unwrap();
    assert_eq!(p1.0, val(1));
    assert_eq!(p2.0, val(2));
    assert_eq!(p3.0, val(3));
}

#[test]
fn pop_underflow_leaves_stack_unchanged() {
    let mut state = State::new();
    state.push1(val(1));
    assert_eq!(state.pop2().unwrap_err(), StateError::InvalidValueStack);
    assert_eq!(state.stack.len(), 1);
    assert_eq!(state.pop2_extra().unwrap_err(), StateError::InvalidValueStack);
    assert_eq!(state.pop3_extra().unwrap_err(), StateError::InvalidValueStack);
    assert_eq!(state.stack.len(), 1);
    assert_eq!(state.pop1().unwrap(), val(1));
}

#[test]
fn popn_underflow_fails_and_leaves_stack_unchanged() {
    let mut state = State::new();
    state.push1(val(1));
    state.push1(val(2));
    let err = state.popn(3).unwrap_err();
    assert_eq!(err, StateError::InvalidValueStack);
    assert_eq!(err.message(), "invalid value stack");
    assert_eq!(state.stack.len(), 2);
}

#[test]
fn popn_removes_exactly_n() {
    let mut state = State::new();
    for id in 0..4u64 {
        state.push1(val(id));
    }
    state.popn(3).unwrap();
    assert_eq!(state.stack.len(), 1);
    assert_eq!(state.pop1().unwrap(), val(0));
}

#[test]
fn peek1_extra_does_not_remove() {
    let mut state = State::new();
    assert_eq!(state.peek1_extra().unwrap_err(), StateError::InvalidValueStack);
    state.push1_extra(val(8), ExtraInfo::arithmetic_f64());
    assert_eq!(state.peek1_extra().unwrap(), (val(8), ExtraInfo::arithmetic_f64()));
    assert_eq!(state.stack.len(), 1);
}

#[test]
fn peekn_returns_top_n_deepest_first() {
    let mut state = State::new();
    for id in 0..4u64 {
        state.push1(val(id));
    }
    let top = state.peekn(3).unwrap();
    assert_eq!(top, vec![val(1), val(2), val(3)]);
    assert_eq!(state.stack.len(), 4);
    assert!(state.peekn(0).unwrap().is_empty());
    assert_eq!(state.peekn(5).unwrap_err(), StateError::InvalidValueStack);
}

#[test]
fn peekn_extra_returns_contiguous_view() {
    let mut state = State::new();
    state.push1_extra(val(1), ExtraInfo::arithmetic_f32());
    state.push1_extra(val(2), ExtraInfo::pending_f64_nan());
    let view = state.peekn_extra(2).unwrap();
    assert_eq!(view.len(), 2);
    assert_eq!(view[0], (val(1), ExtraInfo::arithmetic_f32()));
    assert_eq!(view[1], (val(2), ExtraInfo::pending_f64_nan()));
    assert_eq!(state.peekn_extra(3).unwrap_err(), StateError::InvalidValueStack);
}

#[test]
fn popn_save_extra_returns_removed_values() {
    let mut state = State::new();
    for id in 0..4u64 {
        state.push1(val(id));
    }
    let saved = state.popn_save_extra(2).unwrap();
    assert_eq!(saved.len(), 2);
    assert_eq!(saved[0].0, val(2));
    assert_eq!(saved[1].0, val(3));
    assert_eq!(state.stack.len(), 2);
    assert_eq!(state.popn_save_extra(3).unwrap_err(), StateError::InvalidValueStack);
    assert_eq!(state.stack.len(), 2);
}

#[test]
fn reset_stack_truncates_to_snapshot() {
    let mut state = State::new();
    state.push1(val(1));
    state.push1(val(2));
    state.push1(val(3));
    state.push_block(block(10), no_phis());
    state.push1(val(4));
    state.push1(val(5));
    assert_eq!(state.stack.len(), 5);
    let frame = state.pop_frame().unwrap();
    state.reset_stack(&frame);
    assert_eq!(state.stack.len(), 3);
    // Already at the snapshot: resetting again changes nothing.
    state.reset_stack(&frame);
    assert_eq!(state.stack.len(), 3);
    assert_eq!(state.pop1().unwrap(), val(3));
}

#[test]
fn reset_stack_below_snapshot_changes_nothing() {
    let mut state = State::new();
    state.push1(val(1));
    state.push1(val(2));
    state.push_block(block(10), no_phis());
    let frame = state.pop_frame().unwrap();
    state.popn(2).unwrap();
    state.reset_stack(&frame);
    assert_eq!(state.stack.len(), 0);
}

#[test]
fn frame_at_depth_counts_from_innermost() {
    let mut state = State::new();
    state.push_if(block(1), block(2), block(3), no_phis());
    state.push_if(block(4), block(5), block(6), no_phis());
    assert_eq!(*state.frame_at_depth(0).unwrap().code_after(), block(6));
    assert_eq!(*state.frame_at_depth(1).unwrap().code_after(), block(3));
    let err = state.frame_at_depth(2).unwrap_err();
    assert_eq!(err, StateError::InvalidControlStackDepth);
    assert_eq!(err.message(), "invalid control stack depth");
}

#[test]
fn outermost_frame_is_the_first_pushed() {
    let mut state = State::new();
    assert_eq!(state.outermost_frame().unwrap_err(), StateError::InvalidControlStackDepth);
    state.push_block(block(1), no_phis());
    state.push_loop(block(2), block(3), no_phis());
    assert_eq!(*state.outermost_frame().unwrap().code_after(), block(1));
}

#[test]
fn pop_frame_on_empty_control_stack_fails() {
    let mut state = State::new();
    let err = state.pop_frame().unwrap_err();
    assert_eq!(err, StateError::CannotPopControlStack);
    assert_eq!(err.message(), "cannot pop from control stack");
    assert_eq!(err.offset(), usize::MAX);
}

#[test]
fn loop_branches_to_body_block_branches_to_join() {
    let mut state = State::new();
    state.push_loop(block(20), block(21), no_phis());
    state.push_block(block(22), no_phis());

    let block_frame = state.pop_frame().unwrap();
    assert!(!block_frame.is_loop());
    assert_eq!(*block_frame.br_dest(), block(22));
    assert_eq!(*block_frame.code_after(), block(22));

    let loop_frame = state.pop_frame().unwrap();
    assert!(loop_frame.is_loop());
    assert_eq!(*loop_frame.br_dest(), block(20));
    assert_eq!(*loop_frame.code_after(), block(21));
}

#[test]
fn frames_snapshot_current_stack_depth() {
    let mut state = State::new();
    state.push1(val(1));
    state.push1(val(2));
    state.push_loop(block(1), block(2), no_phis());
    match state.pop_frame().unwrap() {
        ControlFrame::Loop { stack_size_snapshot, .. } => assert_eq!(stack_size_snapshot, 2),
        _ => panic!("expected a loop frame"),
    }
}

#[test]
fn phis_come_back_in_order() {
    let mut state = State::new();
    let phis = PhiList::from_vec(vec![PhiValue { id: 7 }, PhiValue { id: 8 }]);
    state.push_block(block(1), phis);
    let frame = state.pop_frame().unwrap();
    assert_eq!(frame.phis(), &[PhiValue { id: 7 }, PhiValue { id: 8 }]);
}

#[test]
fn else_marker_advances_in_place() {
    let mut state = State::new();
    state.push_if(block(1), block(2), block(3), no_phis());
    match state.frame_at_depth_mut(0).unwrap() {
        ControlFrame::IfElse { if_else_state, .. } => {
            assert_eq!(*if_else_state, IfElseState::If);
            *if_else_state = IfElseState::Else;
        },
        _ => panic!("expected an if/else frame"),
    }
    match state.pop_frame().unwrap() {
        ControlFrame::IfElse { if_else_state, if_then, if_else, .. } => {
            assert_eq!(if_else_state, IfElseState::Else);
            assert_eq!(if_then, block(1));
            assert_eq!(if_else, block(2));
        },
        _ => panic!("expected an if/else frame"),
    }
    assert_eq!(state.frame_at_depth_mut(0).unwrap_err(), StateError::InvalidControlStackDepth);
}

#[test]
fn var_name_renders_the_monotonic_counter() {
    let mut state = State::new();
    assert_eq!(state.var_name(), "s0");
    assert_eq!(state.var_name(), "s1");
    for _ in 0..10 {
        state.var_name();
    }
    assert_eq!(state.var_name(), "s12");
}

#[test]
fn reachability_flag_is_driven_externally() {
    let mut state = State::new();
    assert!(state.reachable);
    state.reachable = false;
    assert!(!state.reachable);
}
