use crate::error::VmError;
use crate::machine::VmView;
use crate::value::Code;
use crate::vm::Vm;
use vstd::prelude::*;

verus! {

/// An operation that changes the machine and has no say in what runs next.
#[derive(Debug, Clone, Copy, PartialEq, Eq, Structural)]
pub enum Prim {
    /// Push an integer.
    Ldi(i32),
    /// Push a copy of a binding, counted from the most recent one.
    Access(usize),
    /// Push a closure of a continuation over the current environment.
    Closure(Code),
    /// Bind the top operand.
    Let,
    /// Remove the most recent binding.
    EndLet,
    /// Add the two integers on top.
    Add,
    /// Compare the two integers on top.
    Eq,
    /// Build a block with a tag from a number of operands.
    MakeBlock(u8, usize),
    /// Replace the block on top by one of its fields.
    Field(usize),
    /// Push the marker.
    PushMark,
}

/// The operation that ends a continuation and decides what runs next.
#[derive(Debug, Clone, Copy, PartialEq, Eq, Structural)]
pub enum Transfer {
    /// Go on with the first continuation if the flag on top is 1, with the
    /// second if not.
    Test(Code, Code),
    /// Go on with the first continuation if the block on top has the tag,
    /// with the second if not.
    Invoke(u8, Code, Code),
    /// Call the closure on top; the continuation runs when the call returns.
    Apply(Code),
    /// Call the closure on top in place of the caller.
    TailApply,
    /// Collect one more argument for the function whose body is given.
    Grab(Code),
    /// Return the value on top.
    ReturnClos,
    /// Go on with the continuation.
    Jump(Code),
    /// Stop the machine; the flag says whether the program succeeded.
    Halt(bool),
}

/// What is to be done once a continuation has run.
#[derive(Debug, Clone, Copy, PartialEq, Eq, Structural)]
pub enum Next {
    /// Run this continuation.
    Run(Code),
    /// Stop: the program has halted, with success or without.
    Halt(bool),
}

/// One continuation: operations in the order in which they run, and the
/// transfer that ends them.
#[derive(Debug, PartialEq, Eq)]
pub struct Body {
    pub prims: Vec<Prim>,
    pub transfer: Transfer,
}

/// The content of a [`Body`].
pub struct BodyView {
    pub prims: Seq<Prim>,
    pub transfer: Transfer,
}

impl View for Body {
    type V = BodyView;

    open spec fn view(&self) -> BodyView {
        BodyView { prims: self.prims@, transfer: self.transfer }
    }
}

/// A program: its continuations. `Code(i)` names `bodies[i]`.
#[derive(Debug, PartialEq, Eq)]
pub struct Program {
    pub bodies: Vec<Body>,
}

impl View for Program {
    type V = Seq<BodyView>;

    open spec fn view(&self) -> Seq<BodyView> {
        Seq::new(self.bodies@.len(), |i: int| self.bodies@[i]@)
    }
}

impl VmView {
    /// What the operation `p` makes of this state.
    pub open spec fn call_prim(self, p: Prim) -> Result<VmView, VmError> {
        match p {
            Prim::Ldi(i) => Ok(self.ldi(i)),
            Prim::Access(i) => self.access(i as nat),
            Prim::Closure(code) => Ok(self.closure(code)),
            Prim::Let => self.let_(),
            Prim::EndLet => Ok(self.endlet()),
            Prim::Add => self.add(),
            Prim::Eq => self.eq(),
            Prim::MakeBlock(tag, len) => self.make_block(tag, len as nat),
            Prim::Field(i) => self.field(i as nat),
            Prim::PushMark => Ok(self.push_mark()),
        }
    }

    /// What the operations `ps` make of this state, one after the other.
    /// The first that fails ends the run: the result is the state that
    /// it refused, with its error.
    pub open spec fn call_prims(self, ps: Seq<Prim>) -> (VmView, Result<(), VmError>)
        decreases ps.len(),
    {
        if ps.len() == 0 {
            (self, Ok(()))
        } else {
            match self.call_prim(ps.first()) {
                Ok(next) => next.call_prims(ps.drop_first()),
                Err(e) => (self, Err(e)),
            }
        }
    }

    /// What the transfer `t` makes of this state, and what runs next.
    pub open spec fn transfer(self, t: Transfer) -> Result<(VmView, Next), VmError> {
        match t {
            Transfer::Test(c1, c2) => match self.test(c1, c2) {
                Ok((next, c)) => Ok((next, Next::Run(c))),
                Err(e) => Err(e),
            },
            Transfer::Invoke(tag, c1, c2) => match self.invoke(tag, c1, c2) {
                Ok(c) => Ok((self, Next::Run(c))),
                Err(e) => Err(e),
            },
            Transfer::Apply(cont) => match self.apply(cont) {
                Ok((next, c)) => Ok((next, Next::Run(c))),
                Err(e) => Err(e),
            },
            Transfer::TailApply => match self.tail_apply() {
                Ok((next, c)) => Ok((next, Next::Run(c))),
                Err(e) => Err(e),
            },
            Transfer::Grab(cont) => match self.grab(cont) {
                Ok((next, c)) => Ok((next, Next::Run(c))),
                Err(e) => Err(e),
            },
            Transfer::ReturnClos => match self.return_clos() {
                Ok((next, c)) => Ok((next, Next::Run(c))),
                Err(e) => Err(e),
            },
            Transfer::Jump(c) => Ok((self, Next::Run(c))),
            Transfer::Halt(success) => Ok((self, Next::Halt(success))),
        }
    }

    /// Runs the continuation `code` of `program` once: its operations, then
    /// its transfer. Where an operation or the transfer fails, the result is
    /// the state that it refused, with its error. A continuation that the
    /// program does not hold is out of range.
    pub open spec fn step(self, program: Seq<BodyView>, code: Code) -> (
        VmView,
        Result<Next, VmError>,
    ) {
        if code.0 >= program.len() {
            (self, Err(VmError::OutOfRange))
        } else {
            let body = program[code.0 as int];
            let (reached, done) = self.call_prims(body.prims);
            match done {
                Err(e) => (reached, Err(e)),
                Ok(()) => match reached.transfer(body.transfer) {
                    Ok((next, n)) => (next, Ok(n)),
                    Err(e) => (reached, Err(e)),
                },
            }
        }
    }

    /// Runs continuations from `code` on, each handing over to the next,
    /// until the program halts, an operation fails, or `steps` continuations
    /// have run. In the last case the result names the continuation that
    /// would have run next.
    pub open spec fn run(self, program: Seq<BodyView>, code: Code, steps: nat) -> (
        VmView,
        Result<Next, VmError>,
    )
        decreases steps,
    {
        if steps == 0 {
            (self, Ok(Next::Run(code)))
        } else {
            match self.step(program, code) {
                (next, Ok(Next::Run(c))) => next.run(program, c, (steps - 1) as nat),
                ended => ended,
            }
        }
    }
}

impl Vm {
    /// Performs the transfer `t` and says what runs next.
    pub fn transfer(&mut self, t: Transfer) -> (r: Result<Next, VmError>)
        ensures
            match old(self)@.transfer(t) {
                Ok((next, n)) => r == Ok::<Next, VmError>(n) && final(self)@ == next,
                Err(e) => r == Err::<Next, VmError>(e) && final(self)@ == old(self)@,
            },
    {
        let chosen = match t {
            Transfer::Test(c1, c2) => self.test(c1, c2),
            Transfer::Invoke(tag, c1, c2) => self.invoke(tag, c1, c2),
            Transfer::Apply(cont) => self.apply(cont),
            Transfer::TailApply => self.tail_apply(),
            Transfer::Grab(cont) => self.grab(cont),
            Transfer::ReturnClos => self.return_clos(),
            Transfer::Jump(c) => Ok(c),
            Transfer::Halt(success) => {
                return Ok(Next::Halt(success));
            },
        };
        match chosen {
            Ok(c) => Ok(Next::Run(c)),
            Err(e) => Err(e),
        }
    }

    /// Runs the continuation `code` of `program` once: its operations in
    /// order, then its transfer. Stops at the first failure and leaves the
    /// machine as the failing operation found it.
    #[verifier::loop_isolation(false)]
    pub fn step(&mut self, program: &Program, code: Code) -> (r: Result<Next, VmError>)
        ensures
            (final(self)@, r) == old(self)@.step(program@, code),
    {
        if code.0 >= program.bodies.len() {
            return Err(VmError::OutOfRange);
        }
        let body = &program.bodies[code.0];
        let ghost start = self@;
        let mut i: usize = 0;
        assert(body@.prims.skip(0) == body@.prims);
        while i < body.prims.len()
            invariant
                i <= body.prims.len(),
                start.call_prims(body@.prims) == self@.call_prims(body@.prims.skip(i as int)),
            decreases body.prims.len() - i,
        {
            let ghost rest = body@.prims.skip(i as int);
            assert(rest.first() == body.prims[i as int]);
            assert(rest.drop_first() == body@.prims.skip(i + 1));
            match self.call_prim(body.prims[i]) {
                Ok(()) => {},
                Err(e) => {
                    return Err(e);
                },
            }
            i += 1;
        }
        assert(body@.prims.skip(i as int).len() == 0);
        self.transfer(body.transfer)
    }

    /// The driver: runs continuations from `entry` on, each handing over to
    /// the next, until the program halts, an operation fails, or `max_steps`
    /// continuations have run.
    ///
    /// `Ok(Next::Halt(success))` says that the program halted.
    /// `Ok(Next::Run(code))` says that the steps ran out before `code`
    /// could run; calling `run` again from `code` goes on where this call
    /// stopped. An error is the first failure; the machine is then as the
    /// failing operation found it.
    #[verifier::loop_isolation(false)]
    pub fn run(&mut self, program: &Program, entry: Code, max_steps: u64) -> (r: Result<
        Next,
        VmError,
    >)
        ensures
            (final(self)@, r) == old(self)@.run(program@, entry, max_steps as nat),
    {
        let ghost start = self@;
        let mut code = entry;
        let mut left: u64 = max_steps;
        while left > 0
            invariant
                start.run(program@, entry, max_steps as nat) == self@.run(
                    program@,
                    code,
                    left as nat,
                ),
            decreases left,
        {
            match self.step(program, code) {
                Ok(Next::Run(c)) => {
                    code = c;
                },
                ended => {
                    return ended;
                },
            }
            left -= 1;
        }
        Ok(Next::Run(code))
    }
}

} // verus!
