use crate::error::VmError;
use crate::machine::VmView;
use crate::program::{BodyView, Next, Prim, Transfer};
use crate::value::{Code, ValueView};
use vstd::prelude::*;

verus! {

impl VmView {
    /// This state with `values` pushed onto the operand stack, the first of
    /// them first.
    pub open spec fn pushed_all(self, values: Seq<ValueView>) -> VmView {
        VmView { arg_stack: self.arg_stack + values, ..self }
    }

    /// Whether the transfer `t`, made in this state, leaves the return stack
    /// as it is: it is no call that is to return to its caller, and no
    /// return through a frame.
    pub open spec fn moves_no_frame(self, t: Transfer) -> bool {
        match t {
            Transfer::Apply(_) => false,
            Transfer::Grab(_) => !(self.arg_stack.len() >= 1 && self.operand(0) is Epsilon),
            Transfer::ReturnClos => !(self.arg_stack.len() >= 2 && self.operand(1) is Epsilon),
            _ => true,
        }
    }

    /// Whether the continuation `code`, run in this state, leaves the return
    /// stack as it is: its transfer moves no frame in the state that its
    /// operations lead to.
    pub open spec fn step_moves_no_frame(self, program: Seq<BodyView>, code: Code) -> bool {
        code.0 < program.len() ==> {
            let body = program[code.0 as int];
            let (reached, done) = self.call_prims(body.prims);
            done is Ok ==> reached.moves_no_frame(body.transfer)
        }
    }
}

/// Pushing values one by one is pushing them all: the last one pushed ends
/// up on top.
pub proof fn law_pushed_all_is_repeated_push(s: VmView, values: Seq<ValueView>, v: ValueView)
    ensures
        s.pushed_all(Seq::empty()) == s,
        s.pushed_all(values.push(v)) == s.pushed_all(values).pushed(v),
{
}

/// A binding is in force from `let_` to the matching `endlet`.
///
/// Right after `let_`, position 0 of the environment holds the value that
/// was bound. And whatever runs in between, if it leaves the environment as
/// `let_` made it (`later`), `endlet` gives back the environment from before
/// the `let_`.
pub proof fn law_binding_balance(s: VmView, later: VmView)
    requires
        s.arg_stack.len() > 0,
        later.local_env == s.let_().unwrap().local_env,
    ensures
        s.let_() is Ok,
        s.let_().unwrap().access(0) == Ok::<VmView, VmError>(
            s.let_().unwrap().pushed(s.operand(0)),
        ),
        later.endlet().local_env == s.local_env,
        later.endlet().arg_stack == later.arg_stack,
        later.endlet().ret_stack == later.ret_stack,
{
}

/// Building a block and taking it apart again gives back what went in.
///
/// With `values` pushed in order on any state `s`, `make_block` leaves one
/// block on `s` that holds them; `field(i)` then leaves `values[i]` on `s`;
/// and `invoke` with the block's tag chooses the first continuation, with
/// any other tag the second.
pub proof fn law_block_round_trip(
    s: VmView,
    tag: u8,
    values: Seq<ValueView>,
    other: u8,
    c1: Code,
    c2: Code,
)
    ensures
        ({
            let block = ValueView::Block { tag, vec: values };
            let built = s.pushed(block);
            &&& s.pushed_all(values).make_block(tag, values.len()) == Ok::<VmView, VmError>(built)
            &&& forall|i: nat|
                i < values.len() ==> #[trigger] built.field(i) == Ok::<VmView, VmError>(
                    s.pushed(values[i as int]),
                )
            &&& built.field(values.len()) == Err::<VmView, VmError>(VmError::OutOfRange)
            &&& built.invoke(tag, c1, c2) == Ok::<Code, VmError>(c1)
            &&& other != tag ==> built.invoke(other, c1, c2) == Ok::<Code, VmError>(c2)
        }),
{
    let loaded = s.pushed_all(values);
    let built = s.pushed(ValueView::Block { tag, vec: values });
    let n = loaded.arg_stack.len();
    assert(loaded.arg_stack.take(n - values.len()) =~= s.arg_stack);
    assert(loaded.arg_stack.skip(n - values.len()) =~= values);
    assert(built.popped(1).arg_stack =~= s.arg_stack);
    assert forall|i: nat| i < values.len() implies #[trigger] built.field(i) == Ok::<
        VmView,
        VmError,
    >(s.pushed(values[i as int])) by {
        assert(built.popped(1) == s);
    }
}

/// Dispatch on a tag looks and does not touch: with a block on top, the
/// transfer chooses by the tag alone and hands the state on as it was.
pub proof fn law_dispatch(s: VmView, wanted: u8, c1: Code, c2: Code)
    requires
        s.arg_stack.len() > 0,
        s.operand(0) is Block,
    ensures
        s.transfer(Transfer::Invoke(wanted, c1, c2)) == Ok::<(VmView, Next), VmError>(
            (s, Next::Run(if s.operand(0)->tag == wanted { c1 } else { c2 })),
        ),
{
}

/// The marker is no operand: addition, comparison, field selection and
/// dispatch on a tag refuse it, wherever among their operands it lies.
pub proof fn law_marker_is_no_operand(s: VmView, i: nat, tag: u8, c1: Code, c2: Code)
    requires
        s.arg_stack.len() >= 2,
        s.operand(0) is Epsilon || s.operand(1) is Epsilon,
    ensures
        s.add() == Err::<VmView, VmError>(VmError::TypeMismatch),
        s.eq() == Err::<VmView, VmError>(VmError::TypeMismatch),
        s.operand(0) is Epsilon ==> s.field(i) == Err::<VmView, VmError>(VmError::TypeMismatch),
        s.operand(0) is Epsilon ==> s.invoke(tag, c1, c2) == Err::<Code, VmError>(
            VmError::TypeMismatch,
        ),
{
}

/// A closure keeps the environment that it captured: bindings made or
/// removed afterwards do not show in it.
pub proof fn law_closure_keeps_environment(s: VmView, code: Code, v: ValueView)
    ensures
        s.closure(code).push_local(v).operand(0) == (ValueView::Closure { code, env: s.local_env }),
        s.closure(code).endlet().operand(0) == (ValueView::Closure { code, env: s.local_env }),
{
}

/// A call that returns comes back to where it was made.
///
/// Let `apply(cont)` succeed in state `s`. Let the callee run on to any state
/// `at_return` in which the return stack is as `apply` left it and the
/// marker lies beneath the top operand. Then `return_clos` hands out `cont`,
/// restores the environment and the return stack of `s`, and leaves the
/// result where the marker and the result were.
pub proof fn law_apply_return_pairing(s: VmView, cont: Code, at_return: VmView)
    requires
        s.apply(cont) is Ok,
        at_return.ret_stack == s.apply(cont).unwrap().0.ret_stack,
        at_return.arg_stack.len() >= 2,
        at_return.operand(1) is Epsilon,
    ensures
        at_return.return_clos() == Ok::<(VmView, Code), VmError>(
            (
                VmView {
                    arg_stack: at_return.popped(2).arg_stack.push(at_return.operand(0)),
                    ret_stack: s.ret_stack,
                    local_env: s.local_env,
                },
                cont,
            ),
        ),
{
    let frame = ValueView::Closure { code: cont, env: s.local_env };
    assert(s.ret_stack.push(frame).drop_last() =~= s.ret_stack);
}

/// No operation of a continuation touches the return stack; only transfers
/// do.
pub proof fn law_prims_keep_return_stack(s: VmView, ps: Seq<Prim>)
    ensures
        s.call_prims(ps).0.ret_stack == s.ret_stack,
    decreases ps.len(),
{
    if ps.len() > 0 {
        match s.call_prim(ps.first()) {
            Ok(next) => {
                law_prims_keep_return_stack(next, ps.drop_first());
            },
            Err(_) => {},
        }
    }
}

/// A transfer that moves no frame leaves the return stack as it is. A tail
/// call is such a transfer in every state.
pub proof fn law_transfer_keeps_return_stack(s: VmView, t: Transfer)
    requires
        s.moves_no_frame(t),
    ensures
        s.moves_no_frame(Transfer::TailApply),
        s.transfer(t) matches Ok((next, _)) ==> next.ret_stack == s.ret_stack,
{
}

/// A continuation whose transfer moves no frame leaves the return stack as
/// it is, whether it succeeds or fails.
pub proof fn law_step_keeps_return_stack(s: VmView, program: Seq<BodyView>, code: Code)
    requires
        s.step_moves_no_frame(program, code),
    ensures
        s.step(program, code).0.ret_stack == s.ret_stack,
{
    if code.0 < program.len() {
        let body = program[code.0 as int];
        law_prims_keep_return_stack(s, body.prims);
        let (reached, done) = s.call_prims(body.prims);
        if done is Ok {
            law_transfer_keeps_return_stack(reached, body.transfer);
        }
    }
}

/// Running one continuation more: `steps + 1` continuations are `steps`
/// continuations and then, unless the run has ended, one more.
pub proof fn law_run_one_more(s: VmView, program: Seq<BodyView>, code: Code, steps: nat)
    ensures
        s.run(program, code, steps + 1) == match s.run(program, code, steps) {
            (reached, Ok(Next::Run(c))) => reached.step(program, c),
            ended => ended,
        },
    decreases steps,
{
    if steps > 0 {
        match s.step(program, code) {
            (next, Ok(Next::Run(c))) => {
                law_run_one_more(next, program, c, (steps - 1) as nat);
            },
            _ => {},
        }
    } else {
        reveal_with_fuel(VmView::run, 2);
    }
}

/// Tail calls run in constant space.
///
/// Take a run of `steps` continuations in which no continuation makes a
/// call that is to return to it, and none returns through a frame: there
/// are only tail calls, branches, jumps and arguments collected. Then the
/// return stack at the end is the return stack at the start, however large
/// `steps` is.
pub proof fn law_bounded_tail_recursion(
    s: VmView,
    program: Seq<BodyView>,
    code: Code,
    steps: nat,
)
    requires
        forall|k: nat|
            k < steps ==> match #[trigger] s.run(program, code, k) {
                (reached, Ok(Next::Run(c))) => reached.step_moves_no_frame(program, c),
                _ => true,
            },
    ensures
        s.run(program, code, steps).0.ret_stack == s.ret_stack,
    decreases steps,
{
    if steps > 0 {
        let before = (steps - 1) as nat;
        law_bounded_tail_recursion(s, program, code, before);
        law_run_one_more(s, program, code, before);
        match s.run(program, code, before) {
            (reached, Ok(Next::Run(c))) => {
                law_step_keeps_return_stack(reached, program, c);
            },
            _ => {},
        }
    }
}

/// The return stack holds closures and nothing else, from the empty machine
/// on: no operation puts anything else there.
pub proof fn law_prim_keeps_frames_closures(s: VmView, p: Prim)
    requires
        s.frames_are_closures(),
    ensures
        VmView::empty().frames_are_closures(),
        s.call_prim(p) matches Ok(next) ==> next.frames_are_closures(),
{
}

/// No transfer puts anything but a closure on the return stack.
pub proof fn law_transfer_keeps_frames_closures(s: VmView, t: Transfer)
    requires
        s.frames_are_closures(),
    ensures
        s.transfer(t) matches Ok((next, _)) ==> next.frames_are_closures(),
{
}

/// However long a program runs, the return stack holds closures and nothing
/// else.
pub proof fn law_run_keeps_frames_closures(
    s: VmView,
    program: Seq<BodyView>,
    code: Code,
    steps: nat,
)
    requires
        s.frames_are_closures(),
    ensures
        s.run(program, code, steps).0.frames_are_closures(),
    decreases steps,
{
    if steps > 0 {
        lemma_step_keeps_frames_closures(s, program, code);
        match s.step(program, code) {
            (next, Ok(Next::Run(c))) => {
                law_run_keeps_frames_closures(next, program, c, (steps - 1) as nat);
            },
            _ => {},
        }
    }
}

/// With closures alone on the return stack, a return fails only for want of
/// a frame.
pub proof fn law_return_needs_a_frame(s: VmView)
    requires
        s.frames_are_closures(),
    ensures
        s.returned() is Ok <==> s.ret_stack.len() > 0,
{
}

proof fn lemma_prims_keep_frames_closures(s: VmView, ps: Seq<Prim>)
    requires
        s.frames_are_closures(),
    ensures
        s.call_prims(ps).0.frames_are_closures(),
    decreases ps.len(),
{
    if ps.len() > 0 {
        law_prim_keeps_frames_closures(s, ps.first());
        match s.call_prim(ps.first()) {
            Ok(next) => {
                lemma_prims_keep_frames_closures(next, ps.drop_first());
            },
            Err(_) => {},
        }
    }
}

proof fn lemma_step_keeps_frames_closures(s: VmView, program: Seq<BodyView>, code: Code)
    requires
        s.frames_are_closures(),
    ensures
        s.step(program, code).0.frames_are_closures(),
{
    if code.0 < program.len() {
        let body = program[code.0 as int];
        lemma_prims_keep_frames_closures(s, body.prims);
        law_transfer_keeps_frames_closures(s.call_prims(body.prims).0, body.transfer);
    }
}

} // verus!
