use vstd::prelude::*;

use crate::fault::Fault;
use crate::instruction::{Instruction, OpKind, Word};
use crate::machine::{initial, run_spec, step_spec, wrap, MachineView, Status};

verus! {

/// One more cycle of budget is one step followed by the rest of the run.
pub proof fn lemma_run_unfold(program: Seq<Instruction>, s: MachineView, fuel: nat)
    requires
        fuel > 0,
    ensures
        run_spec(program, s, fuel) == run_spec(program, step_spec(program, s), (fuel - 1) as nat),
{
    if !s.is_running() {
        assert(step_spec(program, s) == s);
        if fuel > 1 {
            assert(run_spec(program, s, (fuel - 1) as nat) == s);
        }
    }
}

/// A stopped machine stays as it is, whatever the budget.
pub proof fn lemma_stopped_stays(program: Seq<Instruction>, s: MachineView, fuel: nat)
    requires
        !s.is_running(),
    ensures
        run_spec(program, s, fuel) == s,
{
}

/// `Push v` for each value in order, then `Halt`.
pub open spec fn push_program(values: Seq<Word>) -> Seq<Instruction> {
    values.map_values(|v: Word| Instruction { kind: OpKind::Push, operand: v }).push(
        Instruction { kind: OpKind::Halt, operand: 0 },
    )
}

/// The state after the first `i` pushes of `push_program(values)`.
pub open spec fn pushed_state(values: Seq<Word>, capacity: nat, i: nat) -> MachineView {
    MachineView {
        stack: values.subrange(0, i as int),
        ip: i,
        status: Status::Running,
        capacity,
        dumps: Seq::empty(),
    }
}

proof fn lemma_pushes_from(values: Seq<Word>, capacity: nat, i: nat, fuel: nat)
    requires
        values.len() <= capacity,
        i <= values.len(),
        fuel > values.len() - i,
    ensures
        run_spec(push_program(values), pushed_state(values, capacity, i), fuel) == (MachineView {
            status: Status::Halted,
            ..pushed_state(values, capacity, values.len())
        }),
    decreases values.len() - i,
{
    let p = push_program(values);
    let s = pushed_state(values, capacity, i);
    lemma_run_unfold(p, s, fuel);
    if i == values.len() {
        assert(p[i as int].kind == OpKind::Halt);
    } else {
        assert(p[i as int] == Instruction { kind: OpKind::Push, operand: values[i as int] });
        assert(step_spec(p, s).stack =~= values.subrange(0, i + 1 as int));
        assert(step_spec(p, s) == pushed_state(values, capacity, i + 1));
        lemma_pushes_from(values, capacity, i + 1, (fuel - 1) as nat);
    }
}

/// A program of pushes followed by `Halt` halts with exactly the pushed
/// values on the stack, bottom to top, provided the stack can hold them all
/// and the run is given a cycle for each instruction.
pub proof fn lemma_pushes_then_halt(values: Seq<Word>, capacity: nat, fuel: nat)
    requires
        values.len() <= capacity,
        fuel > values.len(),
    ensures
        run_spec(push_program(values), initial(capacity), fuel).stack == values,
        run_spec(push_program(values), initial(capacity), fuel).status == Status::Halted,
{
    assert(values.subrange(0, 0) =~= Seq::<Word>::empty());
    assert(initial(capacity) == pushed_state(values, capacity, 0));
    lemma_pushes_from(values, capacity, 0, fuel);
    assert(values.subrange(0, values.len() as int) =~= values);
}

/// `Push x; Push y; <kind>; Halt`.
pub open spec fn binary_program(x: Word, y: Word, kind: OpKind) -> Seq<Instruction> {
    seq![
        Instruction { kind: OpKind::Push, operand: x },
        Instruction { kind: OpKind::Push, operand: y },
        Instruction { kind, operand: 0 },
        Instruction { kind: OpKind::Halt, operand: 0 },
    ]
}

proof fn lemma_binary_program_runs(x: Word, y: Word, kind: OpKind, capacity: nat, fuel: nat)
    requires
        kind == OpKind::Add || kind == OpKind::Mul,
        capacity >= 2,
        fuel >= 4,
    ensures
        run_spec(binary_program(x, y, kind), initial(capacity), fuel).status == Status::Halted,
        run_spec(binary_program(x, y, kind), initial(capacity), fuel).stack == seq![
            if kind == OpKind::Add { wrap(x + y) } else { wrap(x * y) },
        ],
{
    let p = binary_program(x, y, kind);
    let s0 = initial(capacity);
    let s1 = step_spec(p, s0);
    let s2 = step_spec(p, s1);
    let s3 = step_spec(p, s2);
    let s4 = step_spec(p, s3);
    lemma_run_unfold(p, s0, fuel);
    lemma_run_unfold(p, s1, (fuel - 1) as nat);
    lemma_run_unfold(p, s2, (fuel - 2) as nat);
    lemma_run_unfold(p, s3, (fuel - 3) as nat);
    assert(s1.stack =~= seq![x]);
    assert(s2.stack =~= seq![x, y]);
    assert(s3.stack =~= seq![if kind == OpKind::Add { wrap(x + y) } else { wrap(x * y) }]);
    assert(s4.status == Status::Halted);
}

/// `Add` and `Mul` do not depend on the order in which their two operands
/// were pushed: both orders halt with the same single value.
pub proof fn lemma_add_mul_commute(x: Word, y: Word, kind: OpKind, capacity: nat, fuel: nat)
    requires
        kind == OpKind::Add || kind == OpKind::Mul,
        capacity >= 2,
        fuel >= 4,
    ensures
        run_spec(binary_program(x, y, kind), initial(capacity), fuel).status == Status::Halted,
        run_spec(binary_program(y, x, kind), initial(capacity), fuel).status == Status::Halted,
        run_spec(binary_program(x, y, kind), initial(capacity), fuel).stack == run_spec(
            binary_program(y, x, kind),
            initial(capacity),
            fuel,
        ).stack,
{
    lemma_binary_program_runs(x, y, kind, capacity, fuel);
    lemma_binary_program_runs(y, x, kind, capacity, fuel);
    assert(x * y == y * x) by (nonlinear_arith);
}

/// A jump whose target lies outside the program faults with
/// `InvalidJumpTarget` and changes nothing else: this holds of every `Jump`,
/// and of every `JumpIfZero` that finds a zero on top of the stack.
pub proof fn lemma_jump_out_of_range(program: Seq<Instruction>, s: MachineView)
    requires
        s.is_running(),
        s.ip < program.len(),
        program[s.ip as int].operand >= program.len(),
        program[s.ip as int].kind == OpKind::Jump || (program[s.ip as int].kind
            == OpKind::JumpIfZero && s.stack.len() > 0 && s.top() == 0),
    ensures
        step_spec(program, s) == s.fault(Fault::InvalidJumpTarget),
{
}

/// The pointer never leaves the program by more than one past its end, and
/// a machine that halted did so on an instruction inside the program.
pub proof fn lemma_pointer_in_range(program: Seq<Instruction>, s: MachineView, fuel: nat)
    requires
        s.ip <= program.len(),
        s.status == Status::Halted ==> s.ip < program.len(),
    ensures
        run_spec(program, s, fuel).ip <= program.len(),
        run_spec(program, s, fuel).status == Status::Halted ==> run_spec(program, s, fuel).ip
            < program.len(),
    decreases fuel,
{
    if fuel > 0 && s.is_running() {
        lemma_pointer_in_range(program, step_spec(program, s), (fuel - 1) as nat);
    }
}

/// `Dump` leaves the stack as it is, records it, and moves on.
pub proof fn lemma_dump_keeps_stack(program: Seq<Instruction>, s: MachineView)
    requires
        s.is_running(),
        s.ip < program.len(),
        program[s.ip as int].kind == OpKind::Dump,
    ensures
        step_spec(program, s).stack == s.stack,
        step_spec(program, s).status == Status::Running,
        step_spec(program, s).ip == s.ip + 1,
        step_spec(program, s).dumps == s.dumps.push(s.stack),
{
}

/// Running the same program on two fresh machines of the same capacity, for
/// the same budget, ends in the same state: same stack, same status, same
/// dumps.
pub proof fn lemma_run_deterministic(
    program: Seq<Instruction>,
    capacity: nat,
    fuel: nat,
    a: MachineView,
    b: MachineView,
)
    requires
        a == initial(capacity),
        b == initial(capacity),
    ensures
        run_spec(program, a, fuel) == run_spec(program, b, fuel),
{
}

/// The stack never grows past the machine's capacity: a push that would
/// take it there faults instead.
pub proof fn lemma_capacity_respected(program: Seq<Instruction>, s: MachineView, fuel: nat)
    requires
        s.stack.len() <= s.capacity,
    ensures
        run_spec(program, s, fuel).stack.len() <= s.capacity,
        run_spec(program, s, fuel).capacity == s.capacity,
    decreases fuel,
{
    if fuel > 0 && s.is_running() {
        lemma_capacity_respected(program, step_spec(program, s), (fuel - 1) as nat);
    }
}

} // verus!
