use kanto::fault::Fault;
use kanto::instruction::{Instruction, OpKind};
use kanto::machine::{execute, Machine, Status, DEFAULT_CAPACITY};

fn ins(kind: OpKind, operand: u64) -> Instruction {
    Instruction::new(kind, operand)
}

fn push(v: u64) -> Instruction {
    ins(OpKind::Push, v)
}

fn op(kind: OpKind) -> Instruction {
    ins(kind, 0)
}

fn run(program: &[Instruction]) -> Machine {
    execute(program, DEFAULT_CAPACITY, 1000)
}

#[test]
fn pushes_then_halt_keep_values_in_order() {
    let program = vec![push(4), push(8), push(15), push(16), op(OpKind::Halt)];
    let m = run(&program);
    assert_eq!(m.status(), Status::Halted);
    assert_eq!(m.stack(), &[4, 8, 15, 16][..]);
}

#[test]
fn halt_alone_leaves_empty_stack() {
    let m = run(&[op(OpKind::Halt)]);
    assert!(m.is_halted());
    assert!(m.stack().is_empty());
    assert_eq!(m.top(), None);
}

#[test]
fn add_is_commutative_on_push_order() {
    let a = run(&[push(7), push(35), op(OpKind::Add), op(OpKind::Halt)]);
    let b = run(&[push(35), push(7), op(OpKind::Add), op(OpKind::Halt)]);
    assert_eq!(a.top(), Some(42));
    assert_eq!(a.top(), b.top());
    assert_eq!(a.stack(), b.stack());
}

#[test]
fn mul_is_commutative_on_push_order() {
    let a = run(&[push(6), push(7), op(OpKind::Mul), op(OpKind::Halt)]);
    let b = run(&[push(7), push(6), op(OpKind::Mul), op(OpKind::Halt)]);
    assert_eq!(a.top(), Some(42));
    assert_eq!(a.top(), b.top());
}

#[test]
fn sub_takes_second_minus_top() {
    let m = run(&[push(10), push(3), op(OpKind::Sub), op(OpKind::Halt)]);
    assert_eq!(m.status(), Status::Halted);
    assert_eq!(m.stack(), &[7][..]);
}

#[test]
fn div_takes_second_over_top() {
    let m = run(&[push(10), push(3), op(OpKind::Div), op(OpKind::Halt)]);
    assert_eq!(m.status(), Status::Halted);
    assert_eq!(m.stack(), &[3][..]);
}

#[test]
fn division_by_zero_faults() {
    let m = run(&[push(5), push(0), op(OpKind::Div), op(OpKind::Halt)]);
    assert_eq!(m.status(), Status::Faulted(Fault::DivisionByZero));
    assert!(!m.is_halted());
    assert_eq!(m.fault(), Some(Fault::DivisionByZero));
    assert_eq!(m.stack(), &[5, 0][..]);
    assert_eq!(m.instruction_pointer(), 2);
}

#[test]
fn add_on_empty_stack_underflows() {
    let m = run(&[op(OpKind::Add), op(OpKind::Halt)]);
    assert_eq!(m.status(), Status::Faulted(Fault::StackUnderflow));
    assert!(m.stack().is_empty());
}

#[test]
fn binary_op_with_one_operand_underflows_without_popping() {
    let m = run(&[push(9), op(OpKind::Mul), op(OpKind::Halt)]);
    assert_eq!(m.status(), Status::Faulted(Fault::StackUnderflow));
    assert_eq!(m.stack(), &[9][..]);
}

#[test]
fn jump_if_zero_taken_skips_to_target() {
    let program = vec![
        push(0),
        ins(OpKind::JumpIfZero, 4),
        push(99),
        op(OpKind::Halt),
        push(42),
        op(OpKind::Halt),
    ];
    let mut m = Machine::with_default_capacity();
    m.step(&program);
    m.step(&program);
    assert_eq!(m.instruction_pointer(), 4);
    let status = m.run(&program, 100);
    assert_eq!(status, Status::Halted);
    assert_eq!(m.stack(), &[0, 42][..]);
    assert!(!m.stack().contains(&99));
}

#[test]
fn jump_if_zero_on_nonzero_falls_through() {
    let program = vec![push(1), ins(OpKind::JumpIfZero, 3), op(OpKind::Halt), push(7), op(OpKind::Halt)];
    let m = run(&program);
    assert_eq!(m.status(), Status::Halted);
    assert_eq!(m.stack(), &[1][..]);
    assert_eq!(m.instruction_pointer(), 2);
}

#[test]
fn jump_if_zero_on_empty_stack_underflows() {
    let m = run(&[ins(OpKind::JumpIfZero, 0), op(OpKind::Halt)]);
    assert_eq!(m.status(), Status::Faulted(Fault::StackUnderflow));
}

#[test]
fn jump_goes_to_target() {
    let program = vec![ins(OpKind::Jump, 2), push(1), push(2), op(OpKind::Halt)];
    let m = run(&program);
    assert_eq!(m.status(), Status::Halted);
    assert_eq!(m.stack(), &[2][..]);
}

#[test]
fn jump_past_end_is_invalid_target() {
    let program = vec![ins(OpKind::Jump, 2), op(OpKind::Halt)];
    let m = run(&program);
    assert_eq!(m.status(), Status::Faulted(Fault::InvalidJumpTarget));
    assert_eq!(m.instruction_pointer(), 0);
}

#[test]
fn jump_if_zero_past_end_is_invalid_target() {
    let program = vec![push(0), ins(OpKind::JumpIfZero, 3), op(OpKind::Halt)];
    let m = run(&program);
    assert_eq!(m.status(), Status::Faulted(Fault::InvalidJumpTarget));
    assert_eq!(m.instruction_pointer(), 1);
    assert_eq!(m.stack(), &[0][..]);
}

#[test]
fn jump_to_huge_target_is_invalid() {
    let m = run(&[ins(OpKind::Jump, u64::MAX), op(OpKind::Halt)]);
    assert_eq!(m.status(), Status::Faulted(Fault::InvalidJumpTarget));
}

#[test]
fn dump_leaves_stack_and_records_it() {
    let program = vec![push(1), push(2), op(OpKind::Dump), op(OpKind::Halt)];
    let mut m = Machine::with_default_capacity();
    m.step(&program);
    m.step(&program);
    let before = m.stack().to_vec();
    m.step(&program);
    assert_eq!(m.stack(), &before[..]);
    assert_eq!(m.status(), Status::Running);
    assert_eq!(m.dumps().len(), 1);
    assert_eq!(m.dumps()[0], vec![1, 2]);
}

#[test]
fn dump_of_empty_stack_records_empty_snapshot() {
    let m = run(&[op(OpKind::Dump), op(OpKind::Halt)]);
    assert!(m.is_halted());
    assert_eq!(m.dumps().len(), 1);
    assert!(m.dumps()[0].is_empty());
}

#[test]
fn runs_are_deterministic() {
    let program = vec![
        push(3),
        push(4),
        op(OpKind::Dump),
        op(OpKind::Mul),
        op(OpKind::Dump),
        push(0),
        op(OpKind::Div),
        op(OpKind::Halt),
    ];
    let a = run(&program);
    let b = run(&program);
    assert_eq!(a.status(), Status::Faulted(Fault::DivisionByZero));
    assert_eq!(a.status(), b.status());
    assert_eq!(a.stack(), b.stack());
    assert_eq!(a.dumps(), b.dumps());
    assert_eq!(a.instruction_pointer(), b.instruction_pointer());
}

#[test]
fn running_off_the_end_faults() {
    let m = run(&[push(1), push(2)]);
    assert_eq!(m.status(), Status::Faulted(Fault::ProgramCounterOutOfBounds));
    assert_eq!(m.stack(), &[1, 2][..]);
}

#[test]
fn empty_program_faults_at_fetch() {
    let m = run(&[]);
    assert_eq!(m.status(), Status::Faulted(Fault::ProgramCounterOutOfBounds));
}

#[test]
fn push_past_capacity_overflows() {
    let m = execute(&[push(1), push(2), push(3), op(OpKind::Halt)], 2, 100);
    assert_eq!(m.status(), Status::Faulted(Fault::StackOverflow));
    assert_eq!(m.stack(), &[1, 2][..]);
    assert_eq!(m.capacity(), 2);
}

#[test]
fn default_capacity_holds_exactly_its_bound() {
    let mut full: Vec<Instruction> = (0..DEFAULT_CAPACITY as u64).map(push).collect();
    full.push(op(OpKind::Halt));
    let m = execute(&full, DEFAULT_CAPACITY, 5000);
    assert_eq!(m.status(), Status::Halted);
    assert_eq!(m.stack().len(), 1024);

    let mut over: Vec<Instruction> = (0..=DEFAULT_CAPACITY as u64).map(push).collect();
    over.push(op(OpKind::Halt));
    let m = execute(&over, DEFAULT_CAPACITY, 5000);
    assert_eq!(m.status(), Status::Faulted(Fault::StackOverflow));
    assert_eq!(m.stack().len(), 1024);
}

#[test]
fn add_wraps_around() {
    let m = run(&[push(u64::MAX), push(2), op(OpKind::Add), op(OpKind::Halt)]);
    assert_eq!(m.top(), Some(1));
}

#[test]
fn sub_wraps_around() {
    let m = run(&[push(3), push(10), op(OpKind::Sub), op(OpKind::Halt)]);
    assert_eq!(m.top(), Some(u64::MAX - 6));
}

#[test]
fn mul_wraps_around() {
    let m = run(&[push(1 << 63), push(3), op(OpKind::Mul), op(OpKind::Halt)]);
    assert_eq!(m.top(), Some(1 << 63));
}

#[test]
fn step_budget_bounds_an_endless_loop() {
    let program = vec![ins(OpKind::Jump, 0)];
    let mut m = Machine::new(4);
    let status = m.run(&program, 50);
    assert_eq!(status, Status::Running);
    assert_eq!(m.instruction_pointer(), 0);
}

#[test]
fn stepping_a_stopped_machine_changes_nothing() {
    let program = vec![push(1), op(OpKind::Halt), push(2)];
    let mut m = run(&program);
    assert!(m.is_halted());
    m.step(&program);
    assert!(m.is_halted());
    assert_eq!(m.stack(), &[1][..]);
    assert_eq!(m.instruction_pointer(), 1);
}

#[test]
fn reset_gives_fresh_machine() {
    let mut m = execute(&[push(1), op(OpKind::Dump), op(OpKind::Add)], 8, 10);
    assert_eq!(m.status(), Status::Faulted(Fault::StackUnderflow));
    m.reset();
    assert_eq!(m.status(), Status::Running);
    assert!(m.stack().is_empty());
    assert!(m.dumps().is_empty());
    assert_eq!(m.instruction_pointer(), 0);
    assert_eq!(m.capacity(), 8);
}

#[test]
fn fault_descriptions() {
    assert_eq!(Fault::DivisionByZero.describe(), "division by zero");
    assert_eq!(Fault::UnknownMnemonic.describe(), "unknown mnemonic");
    assert_eq!(Fault::StackOverflow.describe(), "stack overflow");
}
