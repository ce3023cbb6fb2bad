use closure_vm::error::VmError;
use closure_vm::program::{Body, Next, Prim, Program, Transfer};
use closure_vm::value::{Code, Value};
use closure_vm::vm::Vm;
use std::rc::Rc;

fn body(prims: Vec<Prim>, transfer: Transfer) -> Body {
    Body { prims, transfer }
}

const ENTRY: usize = 0;
const GO: usize = 1;
const GO_BODY: usize = 2;
const BASE: usize = 3;
const RECUR: usize = 4;
const DONE: usize = 5;

/// `go n acc = if n == 0 then acc else go (n - 1) (acc + n)`, called with
/// `n` and 0. In the body of `go`, position 0 is `acc`, position 2 is `n`
/// and position 3 is `go` itself.
fn accumulate(n: i32) -> Program {
    Program {
        bodies: vec![
            body(
                vec![
                    Prim::Closure(Code(GO)),
                    Prim::Let,
                    Prim::PushMark,
                    Prim::Ldi(0),
                    Prim::Ldi(n),
                    Prim::Access(0),
                ],
                Transfer::Apply(Code(DONE)),
            ),
            body(vec![], Transfer::Grab(Code(GO_BODY))),
            body(
                vec![Prim::Ldi(0), Prim::Access(2), Prim::Eq],
                Transfer::Test(Code(BASE), Code(RECUR)),
            ),
            body(vec![Prim::Access(0)], Transfer::ReturnClos),
            body(
                vec![
                    Prim::Access(0),
                    Prim::Access(2),
                    Prim::Add,
                    Prim::Ldi(-1),
                    Prim::Access(2),
                    Prim::Add,
                    Prim::Access(3),
                ],
                Transfer::TailApply,
            ),
            body(vec![Prim::EndLet], Transfer::Halt(true)),
        ],
    }
}

#[test]
fn tail_recursive_accumulation() {
    let program = accumulate(1000);
    let mut vm = Vm::new();
    assert_eq!(vm.run(&program, Code(ENTRY), u64::MAX), Ok(Next::Halt(true)));
    assert_eq!(vm.arg_stack, vec![Value::Integer(500500)]);
    assert!(vm.ret_stack.is_empty());
    assert!(vm.local_env.is_empty());
}

#[test]
fn accumulation_of_nothing() {
    let program = accumulate(0);
    let mut vm = Vm::new();
    assert_eq!(vm.run(&program, Code(ENTRY), u64::MAX), Ok(Next::Halt(true)));
    assert_eq!(vm.arg_stack, vec![Value::Integer(0)]);
}

#[test]
fn tail_calls_do_not_grow_the_return_stack() {
    let program = accumulate(200);
    let mut vm = Vm::new();
    assert_eq!(vm.step(&program, Code(ENTRY)), Ok(Next::Run(Code(GO))));
    assert_eq!(vm.ret_stack.len(), 1);
    let mut code = Code(GO);
    let mut tail_calls = 0;
    while code != Code(BASE) {
        let was_tail_call = code == Code(RECUR);
        match vm.step(&program, code) {
            Ok(Next::Run(next)) => code = next,
            other => panic!("the loop ended with {:?}", other),
        }
        if was_tail_call {
            tail_calls += 1;
        }
        assert_eq!(vm.ret_stack.len(), 1);
        assert_eq!(vm.local_env.len(), if code == Code(GO) { 2 } else { 4 });
        assert!(vm.arg_stack.len() <= 2);
    }
    assert_eq!(tail_calls, 200);
    assert_eq!(vm.step(&program, code), Ok(Next::Run(Code(DONE))));
    assert!(vm.ret_stack.is_empty());
    assert_eq!(vm.step(&program, Code(DONE)), Ok(Next::Halt(true)));
    assert_eq!(vm.arg_stack, vec![Value::Integer(20100)]);
}

#[test]
fn run_stops_when_the_steps_run_out_and_can_go_on() {
    let program = accumulate(10);
    let mut whole = Vm::new();
    assert_eq!(whole.run(&program, Code(ENTRY), u64::MAX), Ok(Next::Halt(true)));

    let mut vm = Vm::new();
    assert_eq!(vm.run(&program, Code(ENTRY), 0), Ok(Next::Run(Code(ENTRY))));
    assert!(vm.arg_stack.is_empty());
    assert_eq!(vm.run(&program, Code(ENTRY), 1), Ok(Next::Run(Code(GO))));
    assert_eq!(vm.run(&program, Code(GO), 2), Ok(Next::Run(Code(RECUR))));
    let mut code = Code(RECUR);
    let mut rounds = 0;
    loop {
        match vm.run(&program, code, 7) {
            Ok(Next::Run(next)) => code = next,
            Ok(Next::Halt(success)) => {
                assert!(success);
                break;
            }
            Err(e) => panic!("the run failed with {:?}", e),
        }
        rounds += 1;
    }
    assert_eq!(rounds, 4);
    assert_eq!(vm.arg_stack, vec![Value::Integer(55)]);
    assert_eq!(vm.arg_stack, whole.arg_stack);
}

/// Builds a list cell whose tail is the empty list and dispatches on it.
fn dispatch() -> Program {
    Program {
        bodies: vec![
            body(
                vec![Prim::Ldi(810), Prim::MakeBlock(0, 0), Prim::MakeBlock(1, 2)],
                Transfer::Invoke(0, Code(1), Code(2)),
            ),
            body(vec![], Transfer::Halt(false)),
            body(vec![], Transfer::Invoke(1, Code(3), Code(4))),
            body(vec![Prim::Field(0)], Transfer::Halt(true)),
            body(vec![], Transfer::Halt(false)),
        ],
    }
}

#[test]
fn dispatch_runs_the_branch_of_the_tag() {
    let mut vm = Vm::new();
    assert_eq!(vm.run(&dispatch(), Code(0), 100), Ok(Next::Halt(true)));
    assert_eq!(vm.arg_stack, vec![Value::Integer(810)]);
}

/// `add a b = a + b` as a function of two arguments, first given one
/// argument and later the other.
fn partial_application() -> Program {
    Program {
        bodies: vec![
            // 0: bind `add`, then call it with 30 alone
            body(
                vec![
                    Prim::Closure(Code(1)),
                    Prim::Let,
                    Prim::PushMark,
                    Prim::Ldi(30),
                    Prim::Access(0),
                ],
                Transfer::Apply(Code(3)),
            ),
            // 1: the body of `add`: take the second argument
            body(vec![], Transfer::Grab(Code(2))),
            // 2: both arguments are bound
            body(vec![Prim::Access(0), Prim::Access(2), Prim::Add], Transfer::ReturnClos),
            // 3: `add 30` is on the stack; bind it and call it with 12
            body(
                vec![Prim::Let, Prim::PushMark, Prim::Ldi(12), Prim::Access(0)],
                Transfer::Apply(Code(4)),
            ),
            // 4: the sum is on the stack
            body(vec![Prim::EndLet, Prim::EndLet], Transfer::Halt(true)),
        ],
    }
}

#[test]
fn a_function_given_too_few_arguments_returns_a_closure() {
    let program = partial_application();
    let mut vm = Vm::new();
    assert_eq!(vm.run(&program, Code(0), 2), Ok(Next::Run(Code(3))));
    let add = Value::Closure { code: Code(1), env: Rc::new(vec![]) };
    assert_eq!(
        vm.arg_stack,
        vec![Value::Closure {
            code: Code(2),
            env: Rc::new(vec![add.clone(), Value::Integer(30)]),
        }]
    );
    assert!(vm.ret_stack.is_empty());
    assert_eq!(*vm.local_env, vec![add]);
    assert_eq!(vm.run(&program, Code(3), u64::MAX), Ok(Next::Halt(true)));
    assert_eq!(vm.arg_stack, vec![Value::Integer(42)]);
    assert!(vm.ret_stack.is_empty());
    assert!(vm.local_env.is_empty());
}

#[test]
fn a_continuation_outside_the_program_is_out_of_range() {
    let program = dispatch();
    let mut vm = Vm::new();
    vm.ldi(1);
    assert_eq!(vm.step(&program, Code(5)), Err(VmError::OutOfRange));
    assert_eq!(vm.run(&program, Code(usize::MAX), 10), Err(VmError::OutOfRange));
    assert_eq!(vm.arg_stack, vec![Value::Integer(1)]);
    let nothing = Program { bodies: vec![] };
    assert_eq!(vm.run(&nothing, Code(0), 10), Err(VmError::OutOfRange));
    assert_eq!(vm.run(&nothing, Code(0), 0), Ok(Next::Run(Code(0))));
}

#[test]
fn a_jump_to_nowhere_fails_at_the_next_step() {
    let program = Program { bodies: vec![body(vec![Prim::Ldi(1)], Transfer::Jump(Code(9)))] };
    let mut vm = Vm::new();
    assert_eq!(vm.run(&program, Code(0), 1), Ok(Next::Run(Code(9))));
    assert_eq!(vm.run(&program, Code(9), 1), Err(VmError::OutOfRange));
    let mut again = Vm::new();
    assert_eq!(again.run(&program, Code(0), 2), Err(VmError::OutOfRange));
    assert_eq!(again.arg_stack, vec![Value::Integer(1)]);
}

#[test]
fn a_failing_operation_stops_the_continuation_where_it_is() {
    let program = Program {
        bodies: vec![body(
            vec![Prim::Ldi(1), Prim::PushMark, Prim::Add, Prim::Ldi(2)],
            Transfer::Halt(true),
        )],
    };
    let mut vm = Vm::new();
    assert_eq!(vm.run(&program, Code(0), 10), Err(VmError::TypeMismatch));
    assert_eq!(vm.arg_stack, vec![Value::Integer(1), Value::Epsilon]);
}

#[test]
fn a_failing_transfer_leaves_what_the_operations_did() {
    let program = Program {
        bodies: vec![body(vec![Prim::Ldi(1), Prim::Ldi(2)], Transfer::TailApply)],
    };
    let mut vm = Vm::new();
    assert_eq!(vm.step(&program, Code(0)), Err(VmError::ProtocolViolation));
    assert_eq!(vm.arg_stack, vec![Value::Integer(1), Value::Integer(2)]);
}

#[test]
fn call_prim_performs_each_operation() {
    let mut vm = Vm::new();
    assert_eq!(vm.call_prim(Prim::Ldi(4)), Ok(()));
    assert_eq!(vm.call_prim(Prim::Let), Ok(()));
    assert_eq!(vm.call_prim(Prim::Access(0)), Ok(()));
    assert_eq!(vm.call_prim(Prim::Access(0)), Ok(()));
    assert_eq!(vm.call_prim(Prim::Add), Ok(()));
    assert_eq!(vm.arg_stack, vec![Value::Integer(8)]);
    assert_eq!(vm.call_prim(Prim::Ldi(8)), Ok(()));
    assert_eq!(vm.call_prim(Prim::Eq), Ok(()));
    assert_eq!(vm.arg_stack, vec![Value::Integer(1)]);
    assert_eq!(vm.call_prim(Prim::PushMark), Ok(()));
    assert_eq!(vm.call_prim(Prim::Closure(Code(3))), Ok(()));
    assert_eq!(vm.call_prim(Prim::MakeBlock(2, 3)), Ok(()));
    assert_eq!(vm.call_prim(Prim::EndLet), Ok(()));
    assert!(vm.local_env.is_empty());
    assert_eq!(
        vm.arg_stack,
        vec![Value::Block {
            tag: 2,
            vec: vec![
                Value::Integer(1),
                Value::Epsilon,
                Value::Closure { code: Code(3), env: Rc::new(vec![Value::Integer(4)]) },
            ],
        }]
    );
    assert_eq!(vm.call_prim(Prim::Field(1)), Ok(()));
    assert_eq!(vm.arg_stack, vec![Value::Epsilon]);
}

#[test]
fn call_prim_hands_on_the_error() {
    let mut vm = Vm::new();
    assert_eq!(vm.call_prim(Prim::Access(0)), Err(VmError::OutOfRange));
    assert_eq!(vm.call_prim(Prim::Let), Err(VmError::ProtocolViolation));
    assert_eq!(vm.call_prim(Prim::Add), Err(VmError::ProtocolViolation));
    assert_eq!(vm.call_prim(Prim::Eq), Err(VmError::ProtocolViolation));
    assert_eq!(vm.call_prim(Prim::MakeBlock(0, 1)), Err(VmError::ProtocolViolation));
    assert_eq!(vm.call_prim(Prim::Field(0)), Err(VmError::ProtocolViolation));
    assert_eq!(vm.call_prim(Prim::Ldi(1)), Ok(()));
    assert_eq!(vm.call_prim(Prim::Field(0)), Err(VmError::TypeMismatch));
    assert_eq!(vm.arg_stack, vec![Value::Integer(1)]);
}

#[test]
fn transfer_says_what_runs_next() {
    let mut vm = Vm::new();
    assert_eq!(vm.transfer(Transfer::Jump(Code(4))), Ok(Next::Run(Code(4))));
    assert_eq!(vm.transfer(Transfer::Halt(false)), Ok(Next::Halt(false)));
    assert_eq!(vm.transfer(Transfer::Halt(true)), Ok(Next::Halt(true)));
    vm.ldi(1);
    assert_eq!(vm.transfer(Transfer::Test(Code(1), Code(2))), Ok(Next::Run(Code(1))));
    assert_eq!(vm.make_block(6, 0), Ok(()));
    assert_eq!(vm.transfer(Transfer::Invoke(6, Code(1), Code(2))), Ok(Next::Run(Code(1))));
    assert_eq!(vm.transfer(Transfer::Invoke(5, Code(1), Code(2))), Ok(Next::Run(Code(2))));
    vm.closure(Code(7));
    assert_eq!(vm.transfer(Transfer::Apply(Code(3))), Ok(Next::Run(Code(7))));
    assert_eq!(vm.ret_stack.len(), 1);
    vm.push_mark();
    assert_eq!(vm.transfer(Transfer::Grab(Code(8))), Ok(Next::Run(Code(3))));
    assert!(vm.ret_stack.is_empty());
    vm.ldi(5);
    vm.closure(Code(9));
    assert_eq!(vm.transfer(Transfer::TailApply), Ok(Next::Run(Code(9))));
    assert!(vm.ret_stack.is_empty());
    assert_eq!(vm.transfer(Transfer::ReturnClos), Err(VmError::ProtocolViolation));
    assert_eq!(vm.transfer(Transfer::TailApply), Err(VmError::ProtocolViolation));
    assert_eq!(vm.transfer(Transfer::Test(Code(1), Code(2))), Ok(Next::Run(Code(2))));
    assert_eq!(vm.transfer(Transfer::Test(Code(1), Code(2))), Err(VmError::ProtocolViolation));
    assert_eq!(
        vm.transfer(Transfer::Invoke(0, Code(1), Code(2))),
        Err(VmError::ProtocolViolation)
    );
}
