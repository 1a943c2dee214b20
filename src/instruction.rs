use vstd::prelude::*;
use vstd::string::{is_ascii, is_ascii_spec_bytes, StringSliceAdditionalSpecFns};
use vstd::utf8::is_ascii_chars;

use crate::fault::Fault;

verus! {

/// The machine's only value type.
pub type Word = u64;

/// The nine operations the machine knows.
#[derive(Clone, Copy, Debug, PartialEq, Eq, Structural)]
pub enum OpKind {
    Push,
    Add,
    Sub,
    Mul,
    Div,
    Dump,
    Jump,
    JumpIfZero,
    Halt,
}

/// One operation with its static operand.
///
/// The operand is the value for `Push` and the target index for `Jump` and
/// `JumpIfZero`; the other kinds ignore it.
#[derive(Clone, Copy, Debug, PartialEq, Eq, Structural)]
pub struct Instruction {
    pub kind: OpKind,
    pub operand: Word,
}

impl Instruction {
    /// An instruction of the given kind and operand.
    pub fn new(kind: OpKind, operand: Word) -> (r: Instruction)
        ensures
            r.kind == kind,
            r.operand == operand,
    {
        Instruction { kind, operand }
    }

    /// Builds an instruction from a textual mnemonic and an operand.
    pub fn create(mnemonic: &str, operand: Word) -> (r: Result<Instruction, Fault>)
        ensures
            match kind_of_mnemonic(mnemonic@) {
                Some(kind) => r == Ok::<Instruction, Fault>(Instruction { kind, operand }),
                None => r == Err::<Instruction, Fault>(Fault::UnknownMnemonic),
            },
    {
        match OpKind::from_mnemonic(mnemonic) {
            Some(kind) => Ok(Instruction { kind, operand }),
            None => Err(Fault::UnknownMnemonic),
        }
    }
}

/// The operation that a textual mnemonic names, if any.
pub open spec fn kind_of_mnemonic(m: Seq<char>) -> Option<OpKind> {
    if m == seq!['p', 'u', 's', 'h'] {
        Some(OpKind::Push)
    } else if m == seq!['p', 'l', 'u', 's'] || m == seq!['a', 'd', 'd'] {
        Some(OpKind::Add)
    } else if m == seq!['m', 'i', 'n', 'u', 's'] || m == seq!['s', 'u', 'b'] {
        Some(OpKind::Sub)
    } else if m == seq!['m', 'u', 'l'] {
        Some(OpKind::Mul)
    } else if m == seq!['d', 'i', 'v'] {
        Some(OpKind::Div)
    } else if m == seq!['d', 'u', 'm', 'p'] {
        Some(OpKind::Dump)
    } else if m == seq!['j', 'm', 'p'] {
        Some(OpKind::Jump)
    } else if m == seq!['j', 'm', 'p', '_', 'i', 'f', '_', '0'] {
        Some(OpKind::JumpIfZero)
    } else if m == seq!['h', 'a', 'l', 't'] {
        Some(OpKind::Halt)
    } else {
        None
    }
}

/// The byte sequence of an ASCII character sequence.
pub open spec fn ascii_bytes(m: Seq<char>) -> Seq<u8> {
    Seq::new(m.len(), |i: int| m[i] as u8)
}

/// Whether `bytes` spells exactly the ASCII word `word`.
fn spells(bytes: &[u8], word: &[char]) -> (r: bool)
    requires
        is_ascii_chars(word@),
    ensures
        r == (bytes@ == ascii_bytes(word@)),
{
    if bytes.len() != word.len() {
        proof {
            assert(bytes@.len() != ascii_bytes(word@).len());
        }
        return false;
    }
    let mut i: usize = 0;
    while i < bytes.len()
        invariant
            bytes@.len() == word@.len(),
            0 <= i <= bytes@.len(),
            forall|j: int| 0 <= j < i ==> bytes@[j] == word@[j] as u8,
        decreases bytes@.len() - i,
    {
        if bytes[i] != word[i] as u8 {
            proof {
                assert(bytes@[i as int] != ascii_bytes(word@)[i as int]);
            }
            return false;
        }
        i += 1;
    }
    proof {
        assert(bytes@ =~= ascii_bytes(word@));
    }
    true
}

proof fn lemma_ascii_bytes_injective(a: Seq<char>, b: Seq<char>)
    requires
        is_ascii_chars(a),
        is_ascii_chars(b),
        ascii_bytes(a) == ascii_bytes(b),
    ensures
        a == b,
{
    assert(ascii_bytes(a).len() == a.len());
    assert(ascii_bytes(b).len() == b.len());
    assert(a.len() == b.len());
    assert forall|i: int| 0 <= i < a.len() implies a[i] == b[i] by {
        assert(ascii_bytes(a)[i] == a[i] as u8);
        assert(ascii_bytes(b)[i] == b[i] as u8);
        assert(a[i] as u8 == b[i] as u8);
        assert(a[i] as u32 <= 0x7f);
        assert(b[i] as u32 <= 0x7f);
        assert(a[i] as u32 == a[i] as u8);
        assert(b[i] as u32 == b[i] as u8);
    }
    assert(a =~= b);
}

/// Whether the ASCII string whose bytes are `bytes` is the word `word`.
fn is_word(s: &str, bytes: &[u8], word: &[char]) -> (r: bool)
    requires
        is_ascii(s),
        bytes@ == s.spec_bytes(),
        is_ascii_chars(word@),
    ensures
        r == (s@ == word@),
{
    proof {
        is_ascii_spec_bytes(s);
        assert(bytes@ =~= ascii_bytes(s@));
    }
    let r = spells(bytes, word);
    proof {
        if r {
            lemma_ascii_bytes_injective(s@, word@);
        }
    }
    r
}

impl OpKind {
    /// The operation named by `mnemonic`: `push`, `plus` or `add`, `minus` or
    /// `sub`, `mul`, `div`, `dump`, `jmp`, `jmp_if_0`, `halt`.
    pub fn from_mnemonic(mnemonic: &str) -> (r: Option<OpKind>)
        ensures
            r == kind_of_mnemonic(mnemonic@),
    {
        if !mnemonic.is_ascii() {
            return None;
        }
        let b = mnemonic.as_bytes();
        let w_push = ['p', 'u', 's', 'h'];
        assert(w_push@ =~= seq!['p', 'u', 's', 'h']);
        if is_word(mnemonic, b, &w_push) {
            return Some(OpKind::Push);
        }
        let w_plus = ['p', 'l', 'u', 's'];
        assert(w_plus@ =~= seq!['p', 'l', 'u', 's']);
        if is_word(mnemonic, b, &w_plus) {
            return Some(OpKind::Add);
        }
        let w_add = ['a', 'd', 'd'];
        assert(w_add@ =~= seq!['a', 'd', 'd']);
        if is_word(mnemonic, b, &w_add) {
            return Some(OpKind::Add);
        }
        let w_minus = ['m', 'i', 'n', 'u', 's'];
        assert(w_minus@ =~= seq!['m', 'i', 'n', 'u', 's']);
        if is_word(mnemonic, b, &w_minus) {
            return Some(OpKind::Sub);
        }
        let w_sub = ['s', 'u', 'b'];
        assert(w_sub@ =~= seq!['s', 'u', 'b']);
        if is_word(mnemonic, b, &w_sub) {
            return Some(OpKind::Sub);
        }
        let w_mul = ['m', 'u', 'l'];
        assert(w_mul@ =~= seq!['m', 'u', 'l']);
        if is_word(mnemonic, b, &w_mul) {
            return Some(OpKind::Mul);
        }
        let w_div = ['d', 'i', 'v'];
        assert(w_div@ =~= seq!['d', 'i', 'v']);
        if is_word(mnemonic, b, &w_div) {
            return Some(OpKind::Div);
        }
        let w_dump = ['d', 'u', 'm', 'p'];
        assert(w_dump@ =~= seq!['d', 'u', 'm', 'p']);
        if is_word(mnemonic, b, &w_dump) {
            return Some(OpKind::Dump);
        }
        let w_jmp = ['j', 'm', 'p'];
        assert(w_jmp@ =~= seq!['j', 'm', 'p']);
        if is_word(mnemonic, b, &w_jmp) {
            return Some(OpKind::Jump);
        }
        let w_jmp_if_0 = ['j', 'm', 'p', '_', 'i', 'f', '_', '0'];
        assert(w_jmp_if_0@ =~= seq!['j', 'm', 'p', '_', 'i', 'f', '_', '0']);
        if is_word(mnemonic, b, &w_jmp_if_0) {
            return Some(OpKind::JumpIfZero);
        }
        let w_halt = ['h', 'a', 'l', 't'];
        assert(w_halt@ =~= seq!['h', 'a', 'l', 't']);
        if is_word(mnemonic, b, &w_halt) {
            return Some(OpKind::Halt);
        }
        None
    }
}

} // verus!
