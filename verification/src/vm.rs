use crate::error::VmError;
use crate::machine::VmView;
use crate::program::Prim;
use crate::value::{
    clone_values, lemma_views_push, lemma_views_subrange, views, Code, Value, ValueView,
};
use std::rc::Rc;
use vstd::prelude::*;

verus! {

/// The machine: an operand stack, a return stack and the environment of the
/// scope that is running. The top of each stack is the end of its vector.
///
/// An operation that fails leaves the machine exactly as it found it.
#[derive(Debug)]
pub struct Vm {
    pub arg_stack: Vec<Value>,
    pub ret_stack: Vec<Value>,
    pub local_env: Rc<Vec<Value>>,
}

impl View for Vm {
    type V = VmView;

    open spec fn view(&self) -> VmView {
        VmView {
            arg_stack: views(self.arg_stack@),
            ret_stack: views(self.ret_stack@),
            local_env: views(self.local_env@),
        }
    }
}

impl Vm {
    /// A machine with empty stacks and an empty environment.
    pub fn new() -> (vm: Vm)
        ensures
            vm@ == VmView::empty(),
    {
        Vm { arg_stack: Vec::new(), ret_stack: Vec::new(), local_env: Rc::new(Vec::new()) }
    }

    /// Puts `v` on top of the operand stack.
    fn push_arg(&mut self, v: Value)
        ensures
            final(self)@ == old(self)@.pushed(v@),
    {
        proof {
            lemma_views_push(self.arg_stack@, v);
        }
        self.arg_stack.push(v);
    }

    /// Takes the top operand of a stack that is known to hold one.
    fn take_arg(&mut self) -> (v: Value)
        requires
            old(self)@.arg_stack.len() > 0,
        ensures
            final(self)@ == old(self)@.popped(1),
            v@ == old(self)@.operand(0),
    {
        proof {
            assert(views(self.arg_stack@).len() == self.arg_stack@.len());
            lemma_views_subrange(self.arg_stack@, 0, self.arg_stack.len() - 1);
        }
        self.arg_stack.pop().unwrap()
    }

    /// Takes the environment out of the machine as a vector of its own,
    /// leaving an empty one behind. The vector is the environment's own
    /// where nothing else holds it, and a copy where a closure does.
    fn take_env(&mut self) -> (env: Vec<Value>)
        ensures
            views(env@) == old(self)@.local_env,
            final(self).arg_stack == old(self).arg_stack,
            final(self).ret_stack == old(self).ret_stack,
    {
        let mut taken: Rc<Vec<Value>> = Rc::new(Vec::new());
        std::mem::swap(&mut self.local_env, &mut taken);
        match Rc::try_unwrap(taken) {
            Ok(owned) => owned,
            Err(shared) => clone_values(&shared),
        }
    }

    /// Takes the top operand off the stack and hands it out.
    pub fn pop_arg(&mut self) -> (r: Result<Value, VmError>)
        ensures
            match old(self)@.pop_arg() {
                Ok((next, v)) => r matches Ok(got) && got@ == v && final(self)@ == next,
                Err(e) => r matches Err(got) && got == e && final(self)@ == old(self)@,
            },
    {
        if self.arg_stack.len() == 0 {
            return Err(VmError::ProtocolViolation);
        }
        Ok(self.take_arg())
    }

    /// Makes `v` the most recent binding of the environment. Closures that
    /// captured the environment before keep what they captured.
    pub fn push_local(&mut self, v: Value)
        ensures
            final(self)@ == old(self)@.push_local(v@),
    {
        let mut env = self.take_env();
        proof {
            lemma_views_push(env@, v);
        }
        env.push(v);
        self.local_env = Rc::new(env);
    }

    /// Pushes the integer `i`.
    pub fn ldi(&mut self, i: i32)
        ensures
            final(self)@ == old(self)@.ldi(i),
    {
        self.push_arg(Value::Integer(i));
    }

    /// Pushes a copy of the binding `i` places beneath the most recent one.
    pub fn access(&mut self, i: usize) -> (r: Result<(), VmError>)
        ensures
            match old(self)@.access(i as nat) {
                Ok(next) => r is Ok && final(self)@ == next,
                Err(e) => r == Err::<(), VmError>(e) && final(self)@ == old(self)@,
            },
    {
        let n: usize = self.local_env.len();
        if i >= n {
            return Err(VmError::OutOfRange);
        }
        let v = self.local_env[n - 1 - i].clone();
        self.push_arg(v);
        Ok(())
    }

    /// Pushes a closure of `code` over the environment as it stands.
    pub fn closure(&mut self, code: Code)
        ensures
            final(self)@ == old(self)@.closure(code),
    {
        let env = Rc::clone(&self.local_env);
        self.push_arg(Value::Closure { code, env });
    }

    /// Moves the top operand into the environment, where it becomes the
    /// most recent binding.
    pub fn let_(&mut self) -> (r: Result<(), VmError>)
        ensures
            match old(self)@.let_() {
                Ok(next) => r is Ok && final(self)@ == next,
                Err(e) => r == Err::<(), VmError>(e) && final(self)@ == old(self)@,
            },
    {
        if self.arg_stack.len() == 0 {
            return Err(VmError::ProtocolViolation);
        }
        let v = self.take_arg();
        self.push_local(v);
        Ok(())
    }

    /// Removes the most recent binding; an empty environment stays empty.
    pub fn endlet(&mut self)
        ensures
            final(self)@ == old(self)@.endlet(),
    {
        if self.local_env.len() > 0 {
            let mut env = self.take_env();
            proof {
                assert(views(env@).len() == env@.len());
                lemma_views_subrange(env@, 0, env.len() - 1);
            }
            env.pop();
            self.local_env = Rc::new(env);
        }
    }

    /// Returns through the frame on top of the return stack: restores the
    /// environment saved in it, removes it, and hands out its continuation.
    fn resume(&mut self) -> (r: Result<Code, VmError>)
        ensures
            match old(self)@.returned() {
                Ok((next, c)) => r == Ok::<Code, VmError>(c) && final(self)@ == next,
                Err(e) => r == Err::<Code, VmError>(e) && final(self)@ == old(self)@,
            },
    {
        let n: usize = self.ret_stack.len();
        if n == 0 {
            return Err(VmError::ProtocolViolation);
        }
        let (code, env) = match &self.ret_stack[n - 1] {
            Value::Closure { code, env } => (*code, Rc::clone(env)),
            _ => {
                return Err(VmError::ProtocolViolation);
            },
        };
        proof {
            lemma_views_subrange(self.ret_stack@, 0, n - 1);
        }
        self.ret_stack.pop();
        self.local_env = env;
        Ok(code)
    }

    /// Whether the return stack holds a frame to return through.
    fn has_frame(&self) -> (b: bool)
        ensures
            b == (self@.returned() is Ok),
    {
        let n: usize = self.ret_stack.len();
        n > 0 && matches!(self.ret_stack[n - 1], Value::Closure { .. })
    }

    /// Calls the closure on top with the operand beneath it, and saves
    /// `cont` with the caller's environment on the return stack. Returns the
    /// callee's body.
    pub fn apply(&mut self, cont: Code) -> (r: Result<Code, VmError>)
        ensures
            match old(self)@.apply(cont) {
                Ok((next, c)) => r == Ok::<Code, VmError>(c) && final(self)@ == next,
                Err(e) => r == Err::<Code, VmError>(e) && final(self)@ == old(self)@,
            },
    {
        let n: usize = self.arg_stack.len();
        if n < 2 {
            return Err(VmError::ProtocolViolation);
        }
        let (code, env) = match &self.arg_stack[n - 1] {
            Value::Closure { code, env } => (*code, Rc::clone(env)),
            _ => {
                return Err(VmError::ProtocolViolation);
            },
        };
        let clos = self.take_arg();
        let val = self.take_arg();
        let frame = Value::Closure { code: cont, env: Rc::clone(&self.local_env) };
        proof {
            lemma_views_push(self.ret_stack@, frame);
        }
        self.ret_stack.push(frame);
        self.local_env = env;
        self.push_local(clos);
        self.push_local(val);
        Ok(code)
    }

    /// Calls the closure on top with the operand beneath it and leaves the
    /// return stack alone, so that a function that calls itself this way
    /// runs in constant space. Returns the callee's body.
    pub fn tail_apply(&mut self) -> (r: Result<Code, VmError>)
        ensures
            match old(self)@.tail_apply() {
                Ok((next, c)) => r == Ok::<Code, VmError>(c) && final(self)@ == next,
                Err(e) => r == Err::<Code, VmError>(e) && final(self)@ == old(self)@,
            },
            final(self)@.ret_stack == old(self)@.ret_stack,
    {
        let n: usize = self.arg_stack.len();
        if n < 2 {
            return Err(VmError::ProtocolViolation);
        }
        let (code, env) = match &self.arg_stack[n - 1] {
            Value::Closure { code, env } => (*code, Rc::clone(env)),
            _ => {
                return Err(VmError::ProtocolViolation);
            },
        };
        let clos = self.take_arg();
        let val = self.take_arg();
        self.local_env = env;
        self.push_local(clos);
        self.push_local(val);
        Ok(code)
    }

    /// Pushes the marker.
    pub fn push_mark(&mut self)
        ensures
            final(self)@ == old(self)@.push_mark(),
    {
        self.push_arg(Value::Epsilon);
    }

    /// Collects one more argument for the function whose body is `cont`.
    ///
    /// With an argument on top, binds the function itself and then the
    /// argument, and returns `cont`. With the marker on top, replaces it by
    /// the function as a closure and returns through the frame on top of the
    /// return stack.
    pub fn grab(&mut self, cont: Code) -> (r: Result<Code, VmError>)
        ensures
            match old(self)@.grab(cont) {
                Ok((next, c)) => r == Ok::<Code, VmError>(c) && final(self)@ == next,
                Err(e) => r == Err::<Code, VmError>(e) && final(self)@ == old(self)@,
            },
    {
        let n: usize = self.arg_stack.len();
        if n == 0 {
            return Err(VmError::ProtocolViolation);
        }
        if matches!(self.arg_stack[n - 1], Value::Epsilon) {
            if !self.has_frame() {
                return Err(VmError::ProtocolViolation);
            }
            let partial = Value::Closure { code: cont, env: Rc::clone(&self.local_env) };
            self.take_arg();
            self.push_arg(partial);
            self.resume()
        } else {
            let partial = Value::Closure { code: cont, env: Rc::clone(&self.local_env) };
            let arg = self.take_arg();
            self.push_local(partial);
            self.push_local(arg);
            Ok(cont)
        }
    }

    /// Returns the value on top, according to the operand beneath it.
    ///
    /// Beneath it the marker: the value replaces both, and control returns
    /// through the frame on top of the return stack. Beneath it a closure:
    /// that closure is entered with the value as its argument.
    pub fn return_clos(&mut self) -> (r: Result<Code, VmError>)
        ensures
            match old(self)@.return_clos() {
                Ok((next, c)) => r == Ok::<Code, VmError>(c) && final(self)@ == next,
                Err(e) => r == Err::<Code, VmError>(e) && final(self)@ == old(self)@,
            },
    {
        let n: usize = self.arg_stack.len();
        if n < 2 {
            return Err(VmError::ProtocolViolation);
        }
        if matches!(self.arg_stack[n - 2], Value::Epsilon) {
            if !self.has_frame() {
                return Err(VmError::ProtocolViolation);
            }
            let v = self.take_arg();
            self.take_arg();
            self.push_arg(v);
            self.resume()
        } else {
            let (code, env) = match &self.arg_stack[n - 2] {
                Value::Closure { code, env } => (*code, Rc::clone(env)),
                _ => {
                    return Err(VmError::ProtocolViolation);
                },
            };
            let v = self.take_arg();
            let w = self.take_arg();
            self.local_env = env;
            self.push_local(w);
            self.push_local(v);
            Ok(code)
        }
    }

    /// Looks at the block on top without taking it and returns `c1` if its
    /// tag is `tag`, `c2` if it is not.
    pub fn invoke(&mut self, tag: u8, c1: Code, c2: Code) -> (r: Result<Code, VmError>)
        ensures
            r == old(self)@.invoke(tag, c1, c2),
            final(self)@ == old(self)@,
    {
        let n: usize = self.arg_stack.len();
        if n == 0 {
            return Err(VmError::ProtocolViolation);
        }
        match &self.arg_stack[n - 1] {
            Value::Block { tag: found, vec: _ } => if *found == tag {
                Ok(c1)
            } else {
                Ok(c2)
            },
            _ => Err(VmError::TypeMismatch),
        }
    }

    /// Takes the flag off the stack and returns `c1` if it is the integer 1,
    /// `c2` for anything else.
    pub fn test(&mut self, c1: Code, c2: Code) -> (r: Result<Code, VmError>)
        ensures
            match old(self)@.test(c1, c2) {
                Ok((next, c)) => r == Ok::<Code, VmError>(c) && final(self)@ == next,
                Err(e) => r == Err::<Code, VmError>(e) && final(self)@ == old(self)@,
            },
    {
        if self.arg_stack.len() == 0 {
            return Err(VmError::ProtocolViolation);
        }
        match self.take_arg() {
            Value::Integer(flag) => if flag == 1 {
                Ok(c1)
            } else {
                Ok(c2)
            },
            _ => Ok(c2),
        }
    }

    /// The two integers on top of the operand stack, the topmost first.
    fn integer_pair(&self) -> (r: Result<(i32, i32), VmError>)
        ensures
            match r {
                Ok((x, y)) => self@.arg_stack.len() >= 2 && self@.operand(0) == ValueView::Integer(x)
                    && self@.operand(1) == ValueView::Integer(y),
                Err(e) => if self@.arg_stack.len() < 2 {
                    e == VmError::ProtocolViolation
                } else {
                    e == VmError::TypeMismatch && !(self@.operand(0) is Integer
                        && self@.operand(1) is Integer)
                },
            },
    {
        let n: usize = self.arg_stack.len();
        if n < 2 {
            return Err(VmError::ProtocolViolation);
        }
        match (&self.arg_stack[n - 1], &self.arg_stack[n - 2]) {
            (Value::Integer(x), Value::Integer(y)) => Ok((*x, *y)),
            _ => Err(VmError::TypeMismatch),
        }
    }

    /// Replaces the two integers on top by their sum, which wraps around
    /// where it does not fit in 32 bits.
    pub fn add(&mut self) -> (r: Result<(), VmError>)
        ensures
            match old(self)@.add() {
                Ok(next) => r is Ok && final(self)@ == next,
                Err(e) => r == Err::<(), VmError>(e) && final(self)@ == old(self)@,
            },
    {
        let (x, y) = match self.integer_pair() {
            Ok(pair) => pair,
            Err(e) => {
                return Err(e);
            },
        };
        self.take_arg();
        self.take_arg();
        self.push_arg(Value::Integer(x.wrapping_add(y)));
        Ok(())
    }

    /// Replaces the two integers on top by 1 if they are equal and by 0 if
    /// they are not.
    pub fn eq(&mut self) -> (r: Result<(), VmError>)
        ensures
            match old(self)@.eq() {
                Ok(next) => r is Ok && final(self)@ == next,
                Err(e) => r == Err::<(), VmError>(e) && final(self)@ == old(self)@,
            },
    {
        let (x, y) = match self.integer_pair() {
            Ok(pair) => pair,
            Err(e) => {
                return Err(e);
            },
        };
        self.take_arg();
        self.take_arg();
        self.push_arg(Value::Integer(if x == y { 1 } else { 0 }));
        Ok(())
    }

    /// Replaces the `len` topmost operands by one block that holds them,
    /// the one pushed first as field 0.
    pub fn make_block(&mut self, tag: u8, len: usize) -> (r: Result<(), VmError>)
        ensures
            match old(self)@.make_block(tag, len as nat) {
                Ok(next) => r is Ok && final(self)@ == next,
                Err(e) => r == Err::<(), VmError>(e) && final(self)@ == old(self)@,
            },
    {
        let n: usize = self.arg_stack.len();
        if len > n {
            return Err(VmError::ProtocolViolation);
        }
        proof {
            lemma_views_subrange(self.arg_stack@, 0, n - len);
            lemma_views_subrange(self.arg_stack@, n - len, n as int);
        }
        let vec = self.arg_stack.split_off(n - len);
        self.push_arg(Value::Block { tag, vec });
        Ok(())
    }

    /// Replaces the block on top by its field `i`.
    pub fn field(&mut self, i: usize) -> (r: Result<(), VmError>)
        ensures
            match old(self)@.field(i as nat) {
                Ok(next) => r is Ok && final(self)@ == next,
                Err(e) => r == Err::<(), VmError>(e) && final(self)@ == old(self)@,
            },
    {
        let n: usize = self.arg_stack.len();
        if n == 0 {
            return Err(VmError::ProtocolViolation);
        }
        let v = match &self.arg_stack[n - 1] {
            Value::Block { tag: _, vec } => {
                assert(views(vec@).len() == vec@.len());
                if i >= vec.len() {
                    return Err(VmError::OutOfRange);
                }
                vec[i].clone()
            },
            _ => {
                return Err(VmError::TypeMismatch);
            },
        };
        self.take_arg();
        self.push_arg(v);
        Ok(())
    }

    /// Performs the operation `p`.
    pub fn call_prim(&mut self, p: Prim) -> (r: Result<(), VmError>)
        ensures
            match old(self)@.call_prim(p) {
                Ok(next) => r is Ok && final(self)@ == next,
                Err(e) => r == Err::<(), VmError>(e) && final(self)@ == old(self)@,
            },
    {
        match p {
            Prim::Ldi(i) => {
                self.ldi(i);
                Ok(())
            },
            Prim::Access(i) => self.access(i),
            Prim::Closure(code) => {
                self.closure(code);
                Ok(())
            },
            Prim::Let => self.let_(),
            Prim::EndLet => {
                self.endlet();
                Ok(())
            },
            Prim::Add => self.add(),
            Prim::Eq => self.eq(),
            Prim::MakeBlock(tag, len) => self.make_block(tag, len),
            Prim::Field(i) => self.field(i),
            Prim::PushMark => {
                self.push_mark();
                Ok(())
            },
        }
    }
}

} // verus!
