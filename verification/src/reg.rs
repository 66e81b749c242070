//! The register file: 15 named 64-bit general-purpose slots plus the sentinel
//! "no register" value, backed by a fixed array of 16 words indexed by a 4-bit id.

use vstd::prelude::*;

use crate::error::{Error, ErrorKind, reg_err};

verus! {

/// A register name. The id (4-bit, 0 to 15) of each register is its position in
/// the declaration; id 15 is `NoReg`, the sentinel meaning "no register", which
/// must never be used as a real operand.
#[derive(Debug, Copy, Clone, Eq, PartialEq, Structural)]
pub enum Register {
    RAX,
    RCX,
    RDX,
    RBX,
    RSP,
    RBQ,
    RSI,
    RDI,
    R8,
    R9,
    R10,
    R11,
    R12,
    R13,
    R14,
    NoReg,
}

impl Register {
    /// The 4-bit id of this register.
    pub open spec fn id(self) -> int {
        match self {
            Register::RAX => 0,
            Register::RCX => 1,
            Register::RDX => 2,
            Register::RBX => 3,
            Register::RSP => 4,
            Register::RBQ => 5,
            Register::RSI => 6,
            Register::RDI => 7,
            Register::R8 => 8,
            Register::R9 => 9,
            Register::R10 => 10,
            Register::R11 => 11,
            Register::R12 => 12,
            Register::R13 => 13,
            Register::R14 => 14,
            Register::NoReg => 15,
        }
    }

    /// The register of a 4-bit id.
    pub open spec fn of_id(value: u8) -> Register {
        match value {
            0 => Register::RAX,
            1 => Register::RCX,
            2 => Register::RDX,
            3 => Register::RBX,
            4 => Register::RSP,
            5 => Register::RBQ,
            6 => Register::RSI,
            7 => Register::RDI,
            8 => Register::R8,
            9 => Register::R9,
            10 => Register::R10,
            11 => Register::R11,
            12 => Register::R12,
            13 => Register::R13,
            14 => Register::R14,
            _ => Register::NoReg,
        }
    }

    /// The id as an index into the backing array.
    pub fn index(self) -> (i: usize)
        ensures
            i == self.id(),
            i < 16,
    {
        match self {
            Register::RAX => 0,
            Register::RCX => 1,
            Register::RDX => 2,
            Register::RBX => 3,
            Register::RSP => 4,
            Register::RBQ => 5,
            Register::RSI => 6,
            Register::RDI => 7,
            Register::R8 => 8,
            Register::R9 => 9,
            Register::R10 => 10,
            Register::R11 => 11,
            Register::R12 => 12,
            Register::R13 => 13,
            Register::R14 => 14,
            Register::NoReg => 15,
        }
    }

    /// Decodes a register id. Every id from 0 to 15 names a register (15 the
    /// sentinel); anything larger is a `Register` error.
    pub fn try_from(value: u8) -> (r: Result<Register, Error>)
        ensures
            value < 16 ==> r == Ok::<Register, Error>(Register::of_id(value)),
            value >= 16 ==> (r matches Err(e) && e.kind is Register),
    {
        match value {
            0 => Ok(Register::RAX),
            1 => Ok(Register::RCX),
            2 => Ok(Register::RDX),
            3 => Ok(Register::RBX),
            4 => Ok(Register::RSP),
            5 => Ok(Register::RBQ),
            6 => Ok(Register::RSI),
            7 => Ok(Register::RDI),
            8 => Ok(Register::R8),
            9 => Ok(Register::R9),
            10 => Ok(Register::R10),
            11 => Ok(Register::R11),
            12 => Ok(Register::R12),
            13 => Ok(Register::R13),
            14 => Ok(Register::R14),
            15 => Ok(Register::NoReg),
            _ => Err(reg_err()),
        }
    }
}

/// The register file: 16 64-bit unsigned words indexed by register id, all zero
/// at construction, mutated only by executing instructions, never resized.
#[derive(Debug)]
pub struct Registers {
    words: Vec<u64>,
}

impl View for Registers {
    type V = Seq<u64>;

    closed spec fn view(&self) -> Seq<u64> {
        self.words@
    }
}

impl Registers {
    /// The backing array always holds exactly 16 words.
    pub open spec fn wf(&self) -> bool {
        self@.len() == 16
    }

    /// Reads the word held by a register. Indexed access by any id, the
    /// sentinel's slot included, always succeeds by construction.
    pub fn read(&self, index: Register) -> (v: u64)
        requires
            self.wf(),
        ensures
            v == self@[index.id()],
    {
        let i = index.index();
        self.words[i]
    }

    /// Overwrites the word held by a register.
    pub fn write(&mut self, index: Register, value: u64)
        requires
            old(self).wf(),
        ensures
            final(self).wf(),
            final(self)@ == old(self)@.update(index.id(), value),
    {
        let i = index.index();
        self.words[i] = value;
    }
}

impl Default for Registers {
    /// A register file with every slot zero.
    fn default() -> (r: Registers)
        ensures
            r.wf(),
            r@ == Seq::new(16, |i: int| 0u64),
    {
        let words: Vec<u64> = vec![0u64; 16];
        proof {
            assert(words@ =~= Seq::new(16, |i: int| 0u64));
        }
        Registers { words }
    }
}

} // verus!
