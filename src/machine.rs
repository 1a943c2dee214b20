use vstd::prelude::*;

use crate::fault::Fault;
use crate::instruction::{Instruction, OpKind, Word};

verus! {

/// The stack capacity a machine gets when none is given.
pub const DEFAULT_CAPACITY: usize = 1024;

/// Where a machine stands in its run: still going, stopped by `Halt`, or
/// stopped by a fault. `Halted` and `Faulted` are terminal.
#[derive(Clone, Copy, Debug, PartialEq, Eq, Structural)]
pub enum Status {
    Running,
    Halted,
    Faulted(Fault),
}

/// The abstract state of a machine.
pub ghost struct MachineView {
    /// Operand stack, bottom first.
    pub stack: Seq<Word>,
    /// Index of the next instruction to fetch.
    pub ip: nat,
    pub status: Status,
    /// Most stack slots allowed at once.
    pub capacity: nat,
    /// What each executed `Dump` saw, in program order.
    pub dumps: Seq<Seq<Word>>,
}

/// Number of distinct words: arithmetic wraps modulo this.
pub open spec fn word_modulus() -> int {
    0x1_0000_0000_0000_0000
}

/// The word that an unbounded integer wraps to.
pub open spec fn wrap(n: int) -> Word {
    (n % word_modulus()) as Word
}

/// `b OP a` for a binary operation, where `a` was on top of `b`.
/// `Div` is integer division and needs `a != 0`.
pub open spec fn binary_result(kind: OpKind, b: Word, a: Word) -> Word {
    match kind {
        OpKind::Add => wrap(b + a),
        OpKind::Sub => wrap(b - a),
        OpKind::Mul => wrap(b * a),
        _ => (b / a) as Word,
    }
}

pub open spec fn is_binary(kind: OpKind) -> bool {
    kind == OpKind::Add || kind == OpKind::Sub || kind == OpKind::Mul || kind == OpKind::Div
}

/// A fresh machine: empty stack, pointer at 0, running.
pub open spec fn initial(capacity: nat) -> MachineView {
    MachineView {
        stack: Seq::empty(),
        ip: 0,
        status: Status::Running,
        capacity,
        dumps: Seq::empty(),
    }
}

impl MachineView {
    /// The same state, stopped by `f`.
    pub open spec fn fault(self, f: Fault) -> MachineView {
        MachineView { status: Status::Faulted(f), ..self }
    }

    /// The same state with the pointer moved to `ip`.
    pub open spec fn goto(self, ip: nat) -> MachineView {
        MachineView { ip, ..self }
    }

    /// Top of the stack; meaningful when the stack is non-empty.
    pub open spec fn top(self) -> Word {
        self.stack.last()
    }

    /// The slot just below the top.
    pub open spec fn second(self) -> Word {
        self.stack[self.stack.len() - 2]
    }

    pub open spec fn is_running(self) -> bool {
        self.status == Status::Running
    }
}

/// One fetch-decode-execute cycle over `program`.
///
/// A state that is not running stays as it is. Every fault leaves stack,
/// pointer and dumps untouched and only records the fault.
pub open spec fn step_spec(program: Seq<Instruction>, s: MachineView) -> MachineView {
    if !s.is_running() {
        s
    } else if s.ip >= program.len() {
        s.fault(Fault::ProgramCounterOutOfBounds)
    } else {
        let ins = program[s.ip as int];
        match ins.kind {
            OpKind::Push => if s.stack.len() >= s.capacity {
                s.fault(Fault::StackOverflow)
            } else {
                MachineView { stack: s.stack.push(ins.operand), ip: s.ip + 1, ..s }
            },
            OpKind::Dump => MachineView { dumps: s.dumps.push(s.stack), ip: s.ip + 1, ..s },
            OpKind::Jump => if ins.operand >= program.len() {
                s.fault(Fault::InvalidJumpTarget)
            } else {
                s.goto(ins.operand as nat)
            },
            OpKind::JumpIfZero => if s.stack.len() == 0 {
                s.fault(Fault::StackUnderflow)
            } else if s.top() != 0 {
                s.goto(s.ip + 1)
            } else if ins.operand >= program.len() {
                s.fault(Fault::InvalidJumpTarget)
            } else {
                s.goto(ins.operand as nat)
            },
            OpKind::Halt => MachineView { status: Status::Halted, ..s },
            _ => if s.stack.len() < 2 {
                s.fault(Fault::StackUnderflow)
            } else if ins.kind == OpKind::Div && s.top() == 0 {
                s.fault(Fault::DivisionByZero)
            } else {
                MachineView {
                    stack: s.stack.drop_last().drop_last().push(
                        binary_result(ins.kind, s.second(), s.top()),
                    ),
                    ip: s.ip + 1,
                    ..s
                }
            },
        }
    }
}

/// At most `fuel` cycles from `s`, stopping early once the machine stops.
pub open spec fn run_spec(program: Seq<Instruction>, s: MachineView, fuel: nat) -> MachineView
    decreases fuel,
{
    if fuel == 0 || !s.is_running() {
        s
    } else {
        run_spec(program, step_spec(program, s), (fuel - 1) as nat)
    }
}

/// A stack machine: operand stack, instruction pointer and run status, plus
/// the snapshots that `Dump` produced.
pub struct Machine {
    stack: Vec<Word>,
    ip: usize,
    status: Status,
    capacity: usize,
    dumps: Vec<Vec<Word>>,
}

impl View for Machine {
    type V = MachineView;

    closed spec fn view(&self) -> MachineView {
        MachineView {
            stack: self.stack@,
            ip: self.ip as nat,
            status: self.status,
            capacity: self.capacity as nat,
            dumps: self.dumps@.map_values(|d: Vec<Word>| d@),
        }
    }
}

impl Machine {
    /// The stack never holds more than the capacity allows.
    pub open spec fn wf(&self) -> bool {
        self@.stack.len() <= self@.capacity
    }

    /// A fresh machine whose stack holds at most `capacity` words.
    pub fn new(capacity: usize) -> (m: Machine)
        ensures
            m.wf(),
            m@ == initial(capacity as nat),
    {
        let m = Machine {
            stack: Vec::new(),
            ip: 0,
            status: Status::Running,
            capacity,
            dumps: Vec::new(),
        };
        proof {
            assert(m@.dumps =~= Seq::<Seq<Word>>::empty());
            assert(m@ =~= initial(capacity as nat));
        }
        m
    }

    /// A fresh machine with the default capacity.
    pub fn with_default_capacity() -> (m: Machine)
        ensures
            m.wf(),
            m@ == initial(DEFAULT_CAPACITY as nat),
    {
        Machine::new(DEFAULT_CAPACITY)
    }

    /// Records fault `f` and changes nothing else.
    fn stop(&mut self, f: Fault)
        ensures
            final(self)@ == old(self)@.fault(f),
            final(self).stack@ == old(self).stack@,
            final(self).capacity == old(self).capacity,
    {
        self.status = Status::Faulted(f);
    }

    /// Applies a binary operation to the two topmost words.
    fn binary(&mut self, kind: OpKind)
        requires
            old(self).wf(),
            is_binary(kind),
            old(self)@.is_running(),
            old(self).ip < usize::MAX,
        ensures
            final(self).wf(),
            final(self)@ == (if old(self)@.stack.len() < 2 {
                old(self)@.fault(Fault::StackUnderflow)
            } else if kind == OpKind::Div && old(self)@.top() == 0 {
                old(self)@.fault(Fault::DivisionByZero)
            } else {
                MachineView {
                    stack: old(self)@.stack.drop_last().drop_last().push(
                        binary_result(kind, old(self)@.second(), old(self)@.top()),
                    ),
                    ip: old(self)@.ip + 1,
                    ..old(self)@
                }
            }),
    {
        let n = self.stack.len();
        if n < 2 {
            self.stop(Fault::StackUnderflow);
            return;
        }
        let a = self.stack[n - 1];
        let b = self.stack[n - 2];
        if kind == OpKind::Div && a == 0 {
            self.stop(Fault::DivisionByZero);
            return;
        }
        let r = match kind {
            OpKind::Add => b.wrapping_add(a),
            OpKind::Sub => b.wrapping_sub(a),
            OpKind::Mul => b.wrapping_mul(a),
            _ => b / a,
        };
        assert(r == binary_result(kind, b, a));
        self.stack.pop();
        self.stack.pop();
        self.stack.push(r);
        self.ip = self.ip + 1;
        proof {
            assert(self.stack@ =~= old(self)@.stack.drop_last().drop_last().push(r));
        }
    }

    /// Appends a copy of the current stack to the dump record.
    fn record_dump(&mut self)
        ensures
            final(self).stack@ == old(self).stack@,
            final(self).ip == old(self).ip,
            final(self).status == old(self).status,
            final(self).capacity == old(self).capacity,
            final(self)@.dumps == old(self)@.dumps.push(old(self)@.stack),
    {
        let mut snapshot: Vec<Word> = Vec::new();
        let mut i: usize = 0;
        while i < self.stack.len()
            invariant
                0 <= i <= self.stack@.len(),
                snapshot@ == self.stack@.subrange(0, i as int),
            decreases self.stack@.len() - i,
        {
            snapshot.push(self.stack[i]);
            i += 1;
            proof {
                assert(snapshot@ =~= self.stack@.subrange(0, i as int));
            }
        }
        proof {
            assert(snapshot@ =~= self.stack@);
        }
        self.dumps.push(snapshot);
        proof {
            assert(self@.dumps =~= old(self)@.dumps.push(old(self)@.stack));
        }
    }

    /// Executes one instruction of `program`, or records why it cannot.
    pub fn step(&mut self, program: &[Instruction])
        requires
            old(self).wf(),
        ensures
            final(self).wf(),
            final(self)@ == step_spec(program@, old(self)@),
    {
        if self.status != Status::Running {
            return;
        }
        if self.ip >= program.len() {
            self.stop(Fault::ProgramCounterOutOfBounds);
            return;
        }
        let ins = program[self.ip];
        match ins.kind {
            OpKind::Push => {
                if self.stack.len() >= self.capacity {
                    self.stop(Fault::StackOverflow);
                } else {
                    self.stack.push(ins.operand);
                    self.ip = self.ip + 1;
                }
            },
            OpKind::Dump => {
                self.record_dump();
                self.ip = self.ip + 1;
            },
            OpKind::Jump => {
                if ins.operand >= program.len() as u64 {
                    self.stop(Fault::InvalidJumpTarget);
                } else {
                    self.ip = ins.operand as usize;
                }
            },
            OpKind::JumpIfZero => {
                let n = self.stack.len();
                if n == 0 {
                    self.stop(Fault::StackUnderflow);
                } else if self.stack[n - 1] != 0 {
                    self.ip = self.ip + 1;
                } else if ins.operand >= program.len() as u64 {
                    self.stop(Fault::InvalidJumpTarget);
                } else {
                    self.ip = ins.operand as usize;
                }
            },
            OpKind::Halt => {
                self.status = Status::Halted;
            },
            _ => {
                self.binary(ins.kind);
            },
        }
        proof {
            assert(self@ =~= step_spec(program@, old(self)@));
        }
    }

    /// Runs `program` until the machine stops or `max_steps` instructions
    /// have been executed, and returns the status it ended in.
    pub fn run(&mut self, program: &[Instruction], max_steps: u64) -> (r: Status)
        requires
            old(self).wf(),
        ensures
            final(self).wf(),
            final(self)@ == run_spec(program@, old(self)@, max_steps as nat),
            r == final(self)@.status,
    {
        let mut fuel: u64 = max_steps;
        while fuel > 0 && self.status == Status::Running
            invariant
                self.wf(),
                run_spec(program@, self@, fuel as nat) == run_spec(
                    program@,
                    old(self)@,
                    max_steps as nat,
                ),
            decreases fuel,
        {
            self.step(program);
            fuel = fuel - 1;
        }
        self.status
    }

    /// Puts the machine back in its fresh state, keeping its capacity.
    pub fn reset(&mut self)
        ensures
            final(self).wf(),
            final(self)@ == initial(old(self)@.capacity),
    {
        *self = Machine::new(self.capacity);
    }

    /// The operand stack, bottom first.
    pub fn stack(&self) -> (r: &[Word])
        ensures
            r@ == self@.stack,
    {
        self.stack.as_slice()
    }

    /// The word on top of the stack, if any.
    pub fn top(&self) -> (r: Option<Word>)
        ensures
            r == (if self@.stack.len() == 0 {
                None::<Word>
            } else {
                Some(self@.top())
            }),
    {
        let n = self.stack.len();
        if n == 0 {
            None
        } else {
            Some(self.stack[n - 1])
        }
    }

    /// Index of the next instruction to fetch.
    pub fn instruction_pointer(&self) -> (r: usize)
        ensures
            r == self@.ip,
    {
        self.ip
    }

    pub fn status(&self) -> (r: Status)
        ensures
            r == self@.status,
    {
        self.status
    }

    /// Whether the machine stopped by executing `Halt`.
    pub fn is_halted(&self) -> (r: bool)
        ensures
            r == (self@.status == Status::Halted),
    {
        self.status == Status::Halted
    }

    /// The fault that stopped the machine, if one did.
    pub fn fault(&self) -> (r: Option<Fault>)
        ensures
            r == (match self@.status {
                Status::Faulted(f) => Some(f),
                _ => None::<Fault>,
            }),
    {
        match self.status {
            Status::Faulted(f) => Some(f),
            _ => None,
        }
    }

    pub fn capacity(&self) -> (r: usize)
        ensures
            r == self@.capacity,
    {
        self.capacity
    }

    /// What each executed `Dump` saw, in program order.
    pub fn dumps(&self) -> (r: &[Vec<Word>])
        ensures
            r@.map_values(|d: Vec<Word>| d@) == self@.dumps,
    {
        self.dumps.as_slice()
    }
}

/// Runs `program` on a fresh machine of the given capacity for at most
/// `max_steps` instructions and hands back the machine as it ended.
pub fn execute(program: &[Instruction], capacity: usize, max_steps: u64) -> (m: Machine)
    ensures
        m.wf(),
        m@ == run_spec(program@, initial(capacity as nat), max_steps as nat),
{
    let mut m = Machine::new(capacity);
    m.run(program, max_steps);
    m
}

} // verus!
