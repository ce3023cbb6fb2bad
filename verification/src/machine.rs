use crate::error::VmError;
use crate::value::{Code, ValueView};
use vstd::prelude::*;

verus! {

/// The state of the machine as mathematics. The top of a stack is the last
/// element of its sequence; the most recent binding of the environment is
/// the last element too.
#[verifier::ext_equal]
pub struct VmView {
    /// The operand stack: the values that operations consume and produce.
    pub arg_stack: Seq<ValueView>,
    /// The return stack: one closure for each call that has not returned
    /// yet, holding the continuation to resume and the caller's environment.
    pub ret_stack: Seq<ValueView>,
    /// The environment: the bindings of the scope that is running.
    pub local_env: Seq<ValueView>,
}

/// The sum of two machine integers: the mathematical sum where it fits in 32
/// bits, and else the sum reduced modulo 2^32 into the range of `i32`.
pub open spec fn wrapped_sum(x: i32, y: i32) -> i32 {
    if x + y > i32::MAX {
        (x + y - 0x1_0000_0000) as i32
    } else if x + y < i32::MIN {
        (x + y + 0x1_0000_0000) as i32
    } else {
        (x + y) as i32
    }
}

impl VmView {
    /// The machine before anything has run: both stacks and the environment
    /// are empty.
    pub open spec fn empty() -> VmView {
        VmView { arg_stack: Seq::empty(), ret_stack: Seq::empty(), local_env: Seq::empty() }
    }

    /// Every entry of the return stack is a closure.
    pub open spec fn frames_are_closures(self) -> bool {
        forall|i: int| 0 <= i < self.ret_stack.len() ==> self.ret_stack[i] is Closure
    }

    /// This state with `v` on top of the operand stack.
    pub open spec fn pushed(self, v: ValueView) -> VmView {
        VmView { arg_stack: self.arg_stack.push(v), ..self }
    }

    /// This state without the `n` topmost operands.
    pub open spec fn popped(self, n: nat) -> VmView
        recommends
            n <= self.arg_stack.len(),
    {
        VmView { arg_stack: self.arg_stack.take(self.arg_stack.len() - n), ..self }
    }

    /// The operand that lies `depth` places beneath the top.
    pub open spec fn operand(self, depth: nat) -> ValueView
        recommends
            depth < self.arg_stack.len(),
    {
        self.arg_stack[self.arg_stack.len() - 1 - depth]
    }

    /// The binding that lies `i` places beneath the most recent one.
    pub open spec fn binding(self, i: nat) -> ValueView
        recommends
            i < self.local_env.len(),
    {
        self.local_env[self.local_env.len() - 1 - i]
    }

    /// This state with `v` as the most recent binding.
    pub open spec fn push_local(self, v: ValueView) -> VmView {
        VmView { local_env: self.local_env.push(v), ..self }
    }

    /// Takes the top operand off the stack and hands it out.
    pub open spec fn pop_arg(self) -> Result<(VmView, ValueView), VmError> {
        if self.arg_stack.len() == 0 {
            Err(VmError::ProtocolViolation)
        } else {
            Ok((self.popped(1), self.operand(0)))
        }
    }

    /// Pushes the integer `i`.
    pub open spec fn ldi(self, i: i32) -> VmView {
        self.pushed(ValueView::Integer(i))
    }

    /// Pushes a copy of the binding `i` places beneath the most recent one.
    pub open spec fn access(self, i: nat) -> Result<VmView, VmError> {
        if i < self.local_env.len() {
            Ok(self.pushed(self.binding(i)))
        } else {
            Err(VmError::OutOfRange)
        }
    }

    /// Pushes a closure of `code` over the environment as it stands.
    pub open spec fn closure(self, code: Code) -> VmView {
        self.pushed(ValueView::Closure { code, env: self.local_env })
    }

    /// Moves the top operand into the environment, where it becomes the
    /// most recent binding.
    pub open spec fn let_(self) -> Result<VmView, VmError> {
        if self.arg_stack.len() == 0 {
            Err(VmError::ProtocolViolation)
        } else {
            Ok(self.popped(1).push_local(self.operand(0)))
        }
    }

    /// Removes the most recent binding; an empty environment stays empty.
    pub open spec fn endlet(self) -> VmView {
        if self.local_env.len() == 0 {
            self
        } else {
            VmView { local_env: self.local_env.drop_last(), ..self }
        }
    }

    /// Takes the flag off the stack and chooses `c1` if it is the integer 1,
    /// `c2` for anything else.
    pub open spec fn test(self, c1: Code, c2: Code) -> Result<(VmView, Code), VmError> {
        if self.arg_stack.len() == 0 {
            Err(VmError::ProtocolViolation)
        } else if self.operand(0) == ValueView::Integer(1) {
            Ok((self.popped(1), c1))
        } else {
            Ok((self.popped(1), c2))
        }
    }

    /// Replaces the two integers on top by their sum.
    pub open spec fn add(self) -> Result<VmView, VmError> {
        if self.arg_stack.len() < 2 {
            Err(VmError::ProtocolViolation)
        } else {
            match (self.operand(0), self.operand(1)) {
                (ValueView::Integer(x), ValueView::Integer(y)) => Ok(
                    self.popped(2).pushed(ValueView::Integer(wrapped_sum(x, y))),
                ),
                _ => Err(VmError::TypeMismatch),
            }
        }
    }

    /// Replaces the two integers on top by 1 if they are equal and by 0 if
    /// they are not.
    pub open spec fn eq(self) -> Result<VmView, VmError> {
        if self.arg_stack.len() < 2 {
            Err(VmError::ProtocolViolation)
        } else {
            match (self.operand(0), self.operand(1)) {
                (ValueView::Integer(x), ValueView::Integer(y)) => Ok(
                    self.popped(2).pushed(ValueView::Integer(if x == y { 1i32 } else { 0i32 })),
                ),
                _ => Err(VmError::TypeMismatch),
            }
        }
    }

    /// Replaces the `len` topmost operands by one block that holds them,
    /// the one pushed first as field 0.
    pub open spec fn make_block(self, tag: u8, len: nat) -> Result<VmView, VmError> {
        if len > self.arg_stack.len() {
            Err(VmError::ProtocolViolation)
        } else {
            Ok(
                self.popped(len).pushed(
                    ValueView::Block { tag, vec: self.arg_stack.skip(self.arg_stack.len() - len) },
                ),
            )
        }
    }

    /// Replaces the block on top by its field `i`.
    pub open spec fn field(self, i: nat) -> Result<VmView, VmError> {
        if self.arg_stack.len() == 0 {
            Err(VmError::ProtocolViolation)
        } else {
            match self.operand(0) {
                ValueView::Block { tag, vec } => if i < vec.len() {
                    Ok(self.popped(1).pushed(vec[i as int]))
                } else {
                    Err(VmError::OutOfRange)
                },
                _ => Err(VmError::TypeMismatch),
            }
        }
    }

    /// Looks at the block on top without taking it and chooses `c1` if its
    /// tag is `tag`, `c2` if it is not. The state stays as it is.
    pub open spec fn invoke(self, tag: u8, c1: Code, c2: Code) -> Result<Code, VmError> {
        if self.arg_stack.len() == 0 {
            Err(VmError::ProtocolViolation)
        } else {
            match self.operand(0) {
                ValueView::Block { tag: found, vec } => Ok(if found == tag { c1 } else { c2 }),
                _ => Err(VmError::TypeMismatch),
            }
        }
    }

    /// The environment in which the body of `callee` runs when it is given
    /// `arg`: the closure's own environment, then the closure itself, then
    /// the argument as the most recent binding.
    pub open spec fn entered(callee: ValueView, arg: ValueView) -> Seq<ValueView>
        recommends
            callee is Closure,
    {
        callee->env.push(callee).push(arg)
    }

    /// Calls the closure on top with the operand beneath it, and saves
    /// `cont` with the caller's environment on the return stack.
    pub open spec fn apply(self, cont: Code) -> Result<(VmView, Code), VmError> {
        if self.arg_stack.len() < 2 {
            Err(VmError::ProtocolViolation)
        } else {
            match self.operand(0) {
                ValueView::Closure { code, env } => Ok(
                    (
                        VmView {
                            arg_stack: self.popped(2).arg_stack,
                            ret_stack: self.ret_stack.push(
                                ValueView::Closure { code: cont, env: self.local_env },
                            ),
                            local_env: Self::entered(self.operand(0), self.operand(1)),
                        },
                        code,
                    ),
                ),
                _ => Err(VmError::ProtocolViolation),
            }
        }
    }

    /// Calls the closure on top with the operand beneath it and leaves the
    /// return stack alone: the callee returns to whoever the caller would
    /// have returned to.
    pub open spec fn tail_apply(self) -> Result<(VmView, Code), VmError> {
        if self.arg_stack.len() < 2 {
            Err(VmError::ProtocolViolation)
        } else {
            match self.operand(0) {
                ValueView::Closure { code, env } => Ok(
                    (
                        VmView {
                            arg_stack: self.popped(2).arg_stack,
                            ret_stack: self.ret_stack,
                            local_env: Self::entered(self.operand(0), self.operand(1)),
                        },
                        code,
                    ),
                ),
                _ => Err(VmError::ProtocolViolation),
            }
        }
    }

    /// Pushes the marker.
    pub open spec fn push_mark(self) -> VmView {
        self.pushed(ValueView::Epsilon)
    }

    /// Takes the frame on top of the return stack: the state with that
    /// frame's environment restored and the frame gone, and the frame's
    /// continuation.
    pub open spec fn returned(self) -> Result<(VmView, Code), VmError> {
        if self.ret_stack.len() == 0 {
            Err(VmError::ProtocolViolation)
        } else {
            match self.ret_stack.last() {
                ValueView::Closure { code, env } => Ok(
                    (
                        VmView {
                            arg_stack: self.arg_stack,
                            ret_stack: self.ret_stack.drop_last(),
                            local_env: env,
                        },
                        code,
                    ),
                ),
                _ => Err(VmError::ProtocolViolation),
            }
        }
    }

    /// Collects one more argument for the function whose body is `cont`.
    ///
    /// With an argument on top, the argument is bound and the body runs.
    /// With the marker on top no argument is left: the function so far
    /// becomes a closure on the operand stack, and control returns through
    /// the frame on top of the return stack.
    pub open spec fn grab(self, cont: Code) -> Result<(VmView, Code), VmError> {
        if self.arg_stack.len() == 0 {
            Err(VmError::ProtocolViolation)
        } else {
            let partial = ValueView::Closure { code: cont, env: self.local_env };
            match self.operand(0) {
                ValueView::Epsilon => self.popped(1).pushed(partial).returned(),
                arg => Ok(
                    (
                        VmView {
                            arg_stack: self.popped(1).arg_stack,
                            ret_stack: self.ret_stack,
                            local_env: Self::entered(partial, arg),
                        },
                        cont,
                    ),
                ),
            }
        }
    }

    /// Returns the value `v` on top, according to the operand `w` beneath
    /// it.
    ///
    /// Where `w` is the marker, the call is over: `v` replaces both, and
    /// control returns through the frame on top of the return stack. Where
    /// `w` is a closure, `v` is its next argument: the closure is entered
    /// with `v`. Anything else is refused.
    pub open spec fn return_clos(self) -> Result<(VmView, Code), VmError> {
        if self.arg_stack.len() < 2 {
            Err(VmError::ProtocolViolation)
        } else {
            match self.operand(1) {
                ValueView::Epsilon => self.popped(2).pushed(self.operand(0)).returned(),
                ValueView::Closure { code, env } => Ok(
                    (
                        VmView {
                            arg_stack: self.popped(2).arg_stack,
                            ret_stack: self.ret_stack,
                            local_env: Self::entered(self.operand(1), self.operand(0)),
                        },
                        code,
                    ),
                ),
                _ => Err(VmError::ProtocolViolation),
            }
        }
    }
}

} // verus!
