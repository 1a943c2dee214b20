use vstd::prelude::*;

verus! {

/// Why a run stopped short of `Halt`, or why an instruction could not be built.
#[derive(Clone, Copy, Debug, PartialEq, Eq, Structural)]
pub enum Fault {
    /// An operation needed more stack slots than there were.
    StackUnderflow,
    /// A push would have taken the stack past its capacity.
    StackOverflow,
    /// `Div` found a zero on top of the stack.
    DivisionByZero,
    /// A jump named an index outside the program.
    InvalidJumpTarget,
    /// The instruction pointer ran past the last instruction.
    ProgramCounterOutOfBounds,
    /// A textual mnemonic named no known operation.
    UnknownMnemonic,
}

impl Fault {
    /// A short human-readable description of the fault.
    pub fn describe(&self) -> (r: &'static str)
        ensures
            r@ == (match self {
                Fault::StackUnderflow => "stack underflow"@,
                Fault::StackOverflow => "stack overflow"@,
                Fault::DivisionByZero => "division by zero"@,
                Fault::InvalidJumpTarget => "invalid jump target"@,
                Fault::ProgramCounterOutOfBounds => "program counter out of bounds"@,
                Fault::UnknownMnemonic => "unknown mnemonic"@,
            }),
    {
        match self {
            Fault::StackUnderflow => "stack underflow",
            Fault::StackOverflow => "stack overflow",
            Fault::DivisionByZero => "division by zero",
            Fault::InvalidJumpTarget => "invalid jump target",
            Fault::ProgramCounterOutOfBounds => "program counter out of bounds",
            Fault::UnknownMnemonic => "unknown mnemonic",
        }
    }
}

} // verus!
