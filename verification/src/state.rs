//! The per-function compilation state: the operand stack of value
//! handles paired with their NaN obligations, the stack of open control
//! frames (innermost last), a monotonic counter for debug names, and the
//! reachability flag. One instance is created per function being lowered
//! and discarded when that function's lowering ends.

use crate::err::StateError;
use crate::extra::ExtraInfo;
use crate::frame::ControlFrame;
use crate::frame::IfElseState;
use crate::phi_list::PhiList;
use crate::values::BasicBlock;
use crate::values::BasicValueEnum;
use vstd::prelude::*;
use vstd::slice::slice_subrange;
use vstd::slice::slice_to_vec;

verus! {

/// The decimal digit characters.
pub open spec fn dec_digit(d: int) -> char {
    if d == 0 {
        '0'
    } else if d == 1 {
        '1'
    } else if d == 2 {
        '2'
    } else if d == 3 {
        '3'
    } else if d == 4 {
        '4'
    } else if d == 5 {
        '5'
    } else if d == 6 {
        '6'
    } else if d == 7 {
        '7'
    } else if d == 8 {
        '8'
    } else {
        '9'
    }
}

/// The decimal rendering of a number, most significant digit first.
pub open spec fn dec_rep(n: nat) -> Seq<char>
    decreases n,
{
    if n < 10 {
        seq![dec_digit(n as int)]
    } else {
        dec_rep(n / 10) + seq![dec_digit((n % 10) as int)]
    }
}

/// One decimal digit as a string.
fn digit_str(d: usize) -> (r: &'static str)
    requires
        d < 10,
    ensures
        r@ == seq![dec_digit(d as int)],
{
    proof {
        reveal_strlit("0");
        reveal_strlit("1");
        reveal_strlit("2");
        reveal_strlit("3");
        reveal_strlit("4");
        reveal_strlit("5");
        reveal_strlit("6");
        reveal_strlit("7");
        reveal_strlit("8");
        reveal_strlit("9");
    }
    if d == 0 {
        "0"
    } else if d == 1 {
        "1"
    } else if d == 2 {
        "2"
    } else if d == 3 {
        "3"
    } else if d == 4 {
        "4"
    } else if d == 5 {
        "5"
    } else if d == 6 {
        "6"
    } else if d == 7 {
        "7"
    } else if d == 8 {
        "8"
    } else {
        "9"
    }
}

/// The counter rendered in decimal after the letter "s", least
/// significant digit found first and prepended.
fn render_var_name(counter: usize) -> (r: String)
    ensures
        r@ == seq!['s'] + dec_rep(counter as nat),
{
    let mut out = String::from_str(digit_str(counter % 10));
    let mut m = counter / 10;
    while m > 0
        invariant
            m > 0 ==> dec_rep(counter as nat) == dec_rep(m as nat) + out@,
            m == 0 ==> dec_rep(counter as nat) == out@,
        decreases m,
    {
        let ghost prev = out@;
        let d = m % 10;
        out = String::from_str(digit_str(d)).concat(out.as_str());
        proof {
            if m / 10 > 0 {
                assert(dec_rep(m as nat) + prev =~= dec_rep(m as nat / 10) + out@);
            }
        }
        m = m / 10;
    }
    proof {
        reveal_strlit("s");
        assert("s"@ =~= seq!['s']);
    }
    String::from_str("s").concat(out.as_str())
}

/// Shared mutable state of one function's lowering.
pub struct State {
    /// The operand stack: values paired with their NaN obligations,
    /// top of stack last.
    pub stack: Vec<(BasicValueEnum, ExtraInfo)>,
    control_stack: Vec<ControlFrame>,
    value_counter: usize,
    /// False once the lowering routine has emitted an unconditional
    /// control transfer; driven externally.
    pub reachable: bool,
}

impl State {
    /// The operand stack as a sequence, top of stack last.
    pub closed spec fn operands(&self) -> Seq<(BasicValueEnum, ExtraInfo)> {
        self.stack@
    }

    /// The open control frames, innermost last.
    pub closed spec fn frames(&self) -> Seq<ControlFrame> {
        self.control_stack@
    }

    /// Whether the code being lowered is still reachable.
    pub closed spec fn is_reachable(&self) -> bool {
        self.reachable
    }

    /// The value of the debug-naming counter.
    pub closed spec fn counter(&self) -> usize {
        self.value_counter
    }

    /// Fresh state for one function: empty stacks, counter at zero,
    /// code reachable.
    pub fn new() -> (r: State)
        ensures
            r.operands() == Seq::<(BasicValueEnum, ExtraInfo)>::empty(),
            r.frames() == Seq::<ControlFrame>::empty(),
            r.counter() == 0,
            r.is_reachable(),
    {
        State {
            stack: Vec::new(),
            control_stack: Vec::new(),
            value_counter: 0,
            reachable: true,
        }
    }

    /// Truncate the operand stack to the given frame's snapshot depth,
    /// unconditionally discarding everything above it. Used at every
    /// non-fallthrough exit from a construct, after the caller has saved
    /// the result values it still needs.
    pub fn reset_stack(&mut self, frame: &ControlFrame)
        ensures
            frame.spec_snapshot() <= old(self).operands().len() ==> final(self).operands() == old(
                self,
            ).operands().subrange(0, frame.spec_snapshot() as int),
            frame.spec_snapshot() > old(self).operands().len() ==> final(self).operands() == old(
                self,
            ).operands(),
            final(self).frames() == old(self).frames(),
            final(self).counter() == old(self).counter(),
            final(self).is_reachable() == old(self).is_reachable(),
    {
        let stack_size_snapshot = match frame {
            ControlFrame::Block { stack_size_snapshot, .. } => *stack_size_snapshot,
            ControlFrame::Loop { stack_size_snapshot, .. } => *stack_size_snapshot,
            ControlFrame::IfElse { stack_size_snapshot, .. } => *stack_size_snapshot,
        };
        self.stack.truncate(stack_size_snapshot);
    }

    /// The outermost (function-level) frame; an error if no frame is
    /// open, which signals a malformed call sequence.
    pub fn outermost_frame(&self) -> (r: Result<&ControlFrame, StateError>)
        ensures
            r is Ok <==> self.frames().len() > 0,
            (r matches Ok(f) ==> *f == self.frames()[0]),
            (r matches Err(e) ==> e == StateError::InvalidControlStackDepth),
    {
        if self.control_stack.len() > 0 {
            Ok(&self.control_stack[0])
        } else {
            Err(StateError::InvalidControlStackDepth)
        }
    }

    /// The frame at a relative nesting depth, 0 naming the innermost
    /// open construct, as branch instructions count their targets; an
    /// error if the depth names no open frame.
    pub fn frame_at_depth(&self, depth: u32) -> (r: Result<&ControlFrame, StateError>)
        ensures
            r is Ok <==> (depth as int) < self.frames().len(),
            (r matches Ok(f) ==> *f == self.frames()[self.frames().len() - 1 - depth as int]),
            (r matches Err(e) ==> e == StateError::InvalidControlStackDepth),
    {
        let len = self.control_stack.len();
        if (depth as usize) < len {
            Ok(&self.control_stack[len - 1 - depth as usize])
        } else {
            Err(StateError::InvalidControlStackDepth)
        }
    }

    /// Mutable access to the frame at a relative nesting depth; the
    /// lowering routine uses it to advance an if/else frame's marker on
    /// the else opcode.
    pub fn frame_at_depth_mut(&mut self, depth: u32) -> (r: Result<&mut ControlFrame, StateError>)
        ensures
            r is Ok <==> (depth as int) < old(self).frames().len(),
            (r matches Ok(f) ==> *f == old(self).frames()[old(self).frames().len() - 1
                - depth as int] && final(self).frames() == old(self).frames().update(
                old(self).frames().len() - 1 - depth as int,
                *final(f),
            )),
            (r matches Err(e) ==> e == StateError::InvalidControlStackDepth && final(self).frames()
                == old(self).frames()),
            final(self).operands() == old(self).operands(),
            final(self).counter() == old(self).counter(),
            final(self).is_reachable() == old(self).is_reachable(),
    {
        let len = self.control_stack.len();
        if (depth as usize) < len {
            Ok(&mut self.control_stack[len - 1 - depth as usize])
        } else {
            Err(StateError::InvalidControlStackDepth)
        }
    }

    /// Remove and return the innermost open frame; an error if none is
    /// open.
    pub fn pop_frame(&mut self) -> (r: Result<ControlFrame, StateError>)
        ensures
            r is Ok <==> old(self).frames().len() > 0,
            (r matches Ok(f) ==> f == old(self).frames().last() && final(self).frames() == old(
                self,
            ).frames().drop_last()),
            (r matches Err(e) ==> e == StateError::CannotPopControlStack && final(self).frames()
                == old(self).frames()),
            final(self).operands() == old(self).operands(),
            final(self).counter() == old(self).counter(),
            final(self).is_reachable() == old(self).is_reachable(),
    {
        match self.control_stack.pop() {
            Some(f) => Ok(f),
            None => Err(StateError::CannotPopControlStack),
        }
    }

    /// A fresh debug name: the letter "s" followed by the counter's
    /// decimal value; each call advances the counter.
    pub fn var_name(&mut self) -> (r: String)
        requires
            old(self).counter() < usize::MAX,
        ensures
            r@ == seq!['s'] + dec_rep(old(self).counter() as nat),
            final(self).counter() == old(self).counter() + 1,
            final(self).operands() == old(self).operands(),
            final(self).frames() == old(self).frames(),
            final(self).is_reachable() == old(self).is_reachable(),
    {
        let s = render_var_name(self.value_counter);
        self.value_counter = self.value_counter + 1;
        s
    }

    /// Push one value carrying the empty NaN obligation.
    pub fn push1(&mut self, value: BasicValueEnum)
        ensures
            final(self).operands() == old(self).operands().push((value, ExtraInfo::spec_empty())),
            final(self).frames() == old(self).frames(),
            final(self).counter() == old(self).counter(),
            final(self).is_reachable() == old(self).is_reachable(),
    {
        self.push1_extra(value, ExtraInfo::default());
    }

    /// Push one value with the given NaN obligation.
    pub fn push1_extra(&mut self, value: BasicValueEnum, info: ExtraInfo)
        ensures
            final(self).operands() == old(self).operands().push((value, info)),
            final(self).frames() == old(self).frames(),
            final(self).counter() == old(self).counter(),
            final(self).is_reachable() == old(self).is_reachable(),
    {
        self.stack.push((value, info));
    }

    /// Pop the top value, dropping its NaN obligation; a stack-underflow
    /// error on an empty stack.
    pub fn pop1(&mut self) -> (r: Result<BasicValueEnum, StateError>)
        ensures
            r is Ok <==> old(self).operands().len() > 0,
            (r matches Ok(v) ==> v == old(self).operands().last().0 && final(self).operands() == old(
                self,
            ).operands().drop_last()),
            (r matches Err(e) ==> e == StateError::InvalidValueStack && final(self).operands() == old(
                self,
            ).operands()),
            final(self).frames() == old(self).frames(),
            final(self).counter() == old(self).counter(),
            final(self).is_reachable() == old(self).is_reachable(),
    {
        match self.pop1_extra() {
            Ok(p) => Ok(p.0),
            Err(e) => Err(e),
        }
    }

    /// Pop the top value together with its NaN obligation; a
    /// stack-underflow error on an empty stack.
    pub fn pop1_extra(&mut self) -> (r: Result<(BasicValueEnum, ExtraInfo), StateError>)
        ensures
            r is Ok <==> old(self).operands().len() > 0,
            (r matches Ok(p) ==> p == old(self).operands().last() && final(self).operands() == old(
                self,
            ).operands().drop_last()),
            (r matches Err(e) ==> e == StateError::InvalidValueStack && final(self).operands() == old(
                self,
            ).operands()),
            final(self).frames() == old(self).frames(),
            final(self).counter() == old(self).counter(),
            final(self).is_reachable() == old(self).is_reachable(),
    {
        match self.stack.pop() {
            Some(p) => Ok(p),
            None => Err(StateError::InvalidValueStack),
        }
    }

    /// Pop two values in original order: the first of the pair lay
    /// deeper in the stack. Underflow is checked before anything is
    /// removed.
    pub fn pop2(&mut self) -> (r: Result<(BasicValueEnum, BasicValueEnum), StateError>)
        ensures
            r is Ok <==> old(self).operands().len() >= 2,
            (r matches Ok(p) ==> p.0 == old(self).operands()[old(self).operands().len() - 2].0 && p.1
                == old(self).operands()[old(self).operands().len() - 1].0 && final(self).operands() == old(
                self,
            ).operands().take(old(self).operands().len() - 2)),
            (r matches Err(e) ==> e == StateError::InvalidValueStack && final(self).operands() == old(
                self,
            ).operands()),
            final(self).frames() == old(self).frames(),
            final(self).counter() == old(self).counter(),
            final(self).is_reachable() == old(self).is_reachable(),
    {
        if self.stack.len() < 2 {
            return Err(StateError::InvalidValueStack);
        }
        let v2 = match self.pop1() {
            Ok(v) => v,
            Err(e) => return Err(e),
        };
        let v1 = match self.pop1() {
            Ok(v) => v,
            Err(e) => return Err(e),
        };
        proof {
            assert(final(self).operands() =~= old(self).operands().take(old(self).operands().len() - 2));
        }
        Ok((v1, v2))
    }

    /// Pop two values with their NaN obligations, in original order.
    /// Underflow is checked before anything is removed.
    pub fn pop2_extra(&mut self) -> (r: Result<
        ((BasicValueEnum, ExtraInfo), (BasicValueEnum, ExtraInfo)),
        StateError,
    >)
        ensures
            r is Ok <==> old(self).operands().len() >= 2,
            (r matches Ok(p) ==> p.0 == old(self).operands()[old(self).operands().len() - 2] && p.1 == old(
                self,
            ).operands()[old(self).operands().len() - 1] && final(self).operands() == old(self).operands().take(
                old(self).operands().len() - 2,
            )),
            (r matches Err(e) ==> e == StateError::InvalidValueStack && final(self).operands() == old(
                self,
            ).operands()),
            final(self).frames() == old(self).frames(),
            final(self).counter() == old(self).counter(),
            final(self).is_reachable() == old(self).is_reachable(),
    {
        if self.stack.len() < 2 {
            return Err(StateError::InvalidValueStack);
        }
        let v2 = match self.pop1_extra() {
            Ok(v) => v,
            Err(e) => return Err(e),
        };
        let v1 = match self.pop1_extra() {
            Ok(v) => v,
            Err(e) => return Err(e),
        };
        proof {
            assert(final(self).operands() =~= old(self).operands().take(old(self).operands().len() - 2));
        }
        Ok((v1, v2))
    }

    /// Pop three values with their NaN obligations, in original order.
    /// Underflow is checked before anything is removed.
    pub fn pop3_extra(&mut self) -> (r: Result<
        ((BasicValueEnum, ExtraInfo), (BasicValueEnum, ExtraInfo), (BasicValueEnum, ExtraInfo)),
        StateError,
    >)
        ensures
            r is Ok <==> old(self).operands().len() >= 3,
            (r matches Ok(p) ==> p.0 == old(self).operands()[old(self).operands().len() - 3] && p.1 == old(
                self,
            ).operands()[old(self).operands().len() - 2] && p.2 == old(self).operands()[old(self).operands().len()
                - 1] && final(self).operands() == old(self).operands().take(old(self).operands().len() - 3)),
            (r matches Err(e) ==> e == StateError::InvalidValueStack && final(self).operands() == old(
                self,
            ).operands()),
            final(self).frames() == old(self).frames(),
            final(self).counter() == old(self).counter(),
            final(self).is_reachable() == old(self).is_reachable(),
    {
        if self.stack.len() < 3 {
            return Err(StateError::InvalidValueStack);
        }
        let v3 = match self.pop1_extra() {
            Ok(v) => v,
            Err(e) => return Err(e),
        };
        let v2 = match self.pop1_extra() {
            Ok(v) => v,
            Err(e) => return Err(e),
        };
        let v1 = match self.pop1_extra() {
            Ok(v) => v,
            Err(e) => return Err(e),
        };
        proof {
            assert(final(self).operands() =~= old(self).operands().take(old(self).operands().len() - 3));
        }
        Ok((v1, v2, v3))
    }

    /// Read the top value and its NaN obligation without removing it; a
    /// stack-underflow error on an empty stack.
    pub fn peek1_extra(&self) -> (r: Result<(BasicValueEnum, ExtraInfo), StateError>)
        ensures
            r is Ok <==> self.operands().len() > 0,
            (r matches Ok(p) ==> p == self.operands().last()),
            (r matches Err(e) ==> e == StateError::InvalidValueStack),
    {
        let len = self.stack.len();
        if len > 0 {
            Ok(self.stack[len - 1])
        } else {
            Err(StateError::InvalidValueStack)
        }
    }

    /// Read the top `n` values without their NaN obligations, deepest
    /// first, without removing them; a stack-underflow error if fewer
    /// than `n` are present.
    pub fn peekn(&self, n: usize) -> (r: Result<Vec<BasicValueEnum>, StateError>)
        ensures
            r is Ok <==> n <= self.operands().len(),
            (r matches Ok(v) ==> v@.len() == n && (forall|i: int|
                0 <= i < n ==> v@[i] == self.operands()[self.operands().len() - n + i].0)),
            (r matches Err(e) ==> e == StateError::InvalidValueStack),
    {
        let s = match self.peekn_extra(n) {
            Ok(s) => s,
            Err(e) => return Err(e),
        };
        let mut out: Vec<BasicValueEnum> = Vec::new();
        let mut i: usize = 0;
        while i < s.len()
            invariant
                i <= s@.len(),
                out@.len() == i,
                forall|j: int| 0 <= j < i ==> out@[j] == s@[j].0,
            decreases s@.len() - i,
        {
            out.push(s[i].0);
            i = i + 1;
        }
        Ok(out)
    }

    /// Read the top `n` values with their NaN obligations as a
    /// contiguous view, deepest first, without removing them; a
    /// stack-underflow error if fewer than `n` are present.
    pub fn peekn_extra(&self, n: usize) -> (r: Result<&[(BasicValueEnum, ExtraInfo)], StateError>)
        ensures
            r is Ok <==> n <= self.operands().len(),
            (r matches Ok(s) ==> s@ == self.operands().subrange(
                self.operands().len() - n,
                self.operands().len() as int,
            )),
            (r matches Err(e) ==> e == StateError::InvalidValueStack),
    {
        let len = self.stack.len();
        if n <= len {
            Ok(slice_subrange(self.stack.as_slice(), len - n, len))
        } else {
            Err(StateError::InvalidValueStack)
        }
    }

    /// Pop the top `n` values while returning a copy of what was
    /// removed, deepest first; used when a branch must re-push its
    /// result values after discarding everything above a frame's
    /// snapshot. Underflow is checked before anything is removed.
    pub fn popn_save_extra(&mut self, n: usize) -> (r: Result<
        Vec<(BasicValueEnum, ExtraInfo)>,
        StateError,
    >)
        ensures
            r is Ok <==> n <= old(self).operands().len(),
            (r matches Ok(v) ==> v@ == old(self).operands().subrange(
                old(self).operands().len() - n,
                old(self).operands().len() as int,
            ) && final(self).operands() == old(self).operands().take(old(self).operands().len() - n)),
            (r matches Err(e) ==> e == StateError::InvalidValueStack && final(self).operands() == old(
                self,
            ).operands()),
            final(self).frames() == old(self).frames(),
            final(self).counter() == old(self).counter(),
            final(self).is_reachable() == old(self).is_reachable(),
    {
        let v = match self.peekn_extra(n) {
            Ok(s) => slice_to_vec(s),
            Err(e) => return Err(e),
        };
        match self.popn(n) {
            Ok(_) => Ok(v),
            Err(e) => Err(e),
        }
    }

    /// Pop the top `n` values, discarding them; if fewer than `n` are
    /// present, a stack-underflow error and the stack is untouched.
    pub fn popn(&mut self, n: usize) -> (r: Result<(), StateError>)
        ensures
            r is Ok <==> n <= old(self).operands().len(),
            r is Ok ==> final(self).operands() == old(self).operands().take(old(self).operands().len() - n),
            (r matches Err(e) ==> e == StateError::InvalidValueStack && final(self).operands() == old(
                self,
            ).operands()),
            final(self).frames() == old(self).frames(),
            final(self).counter() == old(self).counter(),
            final(self).is_reachable() == old(self).is_reachable(),
    {
        if self.stack.len() < n {
            return Err(StateError::InvalidValueStack);
        }
        let new_len = self.stack.len() - n;
        self.stack.truncate(new_len);
        Ok(())
    }

    /// Open a block construct: install a new frame that joins at `next`,
    /// snapshotting the current operand-stack depth.
    pub fn push_block(&mut self, next: BasicBlock, phis: PhiList)
        ensures
            final(self).frames() == old(self).frames().push(
                (ControlFrame::Block {
                    next: next,
                    phis: phis,
                    stack_size_snapshot: old(self).operands().len() as usize,
                }),
            ),
            final(self).operands() == old(self).operands(),
            final(self).counter() == old(self).counter(),
            final(self).is_reachable() == old(self).is_reachable(),
    {
        let stack_size_snapshot = self.stack.len();
        self.control_stack.push(ControlFrame::Block { next, phis, stack_size_snapshot });
    }

    /// Open a loop construct: install a new frame whose branches jump to
    /// `body` and whose exits join at `next`, snapshotting the current
    /// operand-stack depth.
    pub fn push_loop(&mut self, body: BasicBlock, next: BasicBlock, phis: PhiList)
        ensures
            final(self).frames() == old(self).frames().push(
                (ControlFrame::Loop {
                    body: body,
                    next: next,
                    phis: phis,
                    stack_size_snapshot: old(self).operands().len() as usize,
                }),
            ),
            final(self).operands() == old(self).operands(),
            final(self).counter() == old(self).counter(),
            final(self).is_reachable() == old(self).is_reachable(),
    {
        let stack_size_snapshot = self.stack.len();
        self.control_stack.push(ControlFrame::Loop { body, next, phis, stack_size_snapshot });
    }

    /// Open an if/else construct: install a new frame with the two
    /// pre-built arm blocks, joining at `next`, its marker on the then
    /// arm, snapshotting the current operand-stack depth.
    pub fn push_if(&mut self, if_then: BasicBlock, if_else: BasicBlock, next: BasicBlock, phis: PhiList)
        ensures
            final(self).frames() == old(self).frames().push(
                (ControlFrame::IfElse {
                    if_then: if_then,
                    if_else: if_else,
                    next: next,
                    phis: phis,
                    stack_size_snapshot: old(self).operands().len() as usize,
                    if_else_state: IfElseState::If,
                }),
            ),
            final(self).operands() == old(self).operands(),
            final(self).counter() == old(self).counter(),
            final(self).is_reachable() == old(self).is_reachable(),
    {
        let stack_size_snapshot = self.stack.len();
        self.control_stack.push(
            ControlFrame::IfElse {
                if_then,
                if_else,
                next,
                phis,
                stack_size_snapshot,
                if_else_state: IfElseState::If,
            },
        );
    }
}

/// The operand stack after `k` single pops.
pub open spec fn stack_after_pops(stack: Seq<(BasicValueEnum, ExtraInfo)>, k: int) -> Seq<
    (BasicValueEnum, ExtraInfo),
>
    recommends
        0 <= k <= stack.len(),
{
    stack.take(stack.len() - k)
}

/// What the `(k + 1)`-th single pop returns.
pub open spec fn pop_result(stack: Seq<(BasicValueEnum, ExtraInfo)>, k: int) -> (
    BasicValueEnum,
    ExtraInfo,
)
    recommends
        0 <= k < stack.len(),
{
    stack_after_pops(stack, k).last()
}

/// Law: a lookup at relative depth 0 names the innermost open frame:
/// the index `frame_at_depth`'s contract returns for depth 0 is the
/// last of `frames()`, which is the frame the most recent of
/// `push_block`, `push_loop` and `push_if` installed.
pub proof fn lemma_depth_zero_is_innermost(s: State)
    requires
        s.frames().len() > 0,
    ensures
        s.frames()[s.frames().len() - 1 - 0] == s.frames().last(),
{
}

/// Law: pops return pushed values in exact reverse order. After pushing
/// the values `vs` on top of any stack `s` — by `push1_extra`'s
/// contract the stack is then `s + vs` — the `(k + 1)`-th of
/// `vs.len()` successive pops leaves `stack_after_pops(s + vs, k + 1)`
/// and returns `vs` counted from its end, exactly as `pop1_extra`'s
/// contract returns the last element and leaves the rest.
pub proof fn lemma_push_pop_lifo(
    s: Seq<(BasicValueEnum, ExtraInfo)>,
    vs: Seq<(BasicValueEnum, ExtraInfo)>,
    k: int,
)
    requires
        0 <= k < vs.len(),
    ensures
        stack_after_pops(s + vs, k + 1) == stack_after_pops(s + vs, k).drop_last(),
        pop_result(s + vs, k) == vs[vs.len() - 1 - k],
{
    assert(stack_after_pops(s + vs, k + 1) =~= stack_after_pops(s + vs, k).drop_last());
}

} // verus!
