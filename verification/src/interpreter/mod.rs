//! The machine environment (register file plus memory/stack) and the trait of
//! executable instructions.

pub mod alias;
pub mod code;
pub mod interpreter;

use vstd::prelude::*;

use crate::error::{Error, ErrorKind, reg_err};
use crate::interpreter::interpreter::{Interpreter, MachineModel};
use crate::mem::{Pointer, Stack, StackModel};
use crate::reg::{Register, Registers};

verus! {

/// The mutable machine state an instruction acts on: the register file and the
/// memory/stack buffer.
#[derive(Debug)]
pub struct Environment {
    pub registers: Registers,
    pub memory: Stack,
}

/// The mathematical model of an [`Environment`]: the register words and the
/// memory/stack model.
pub struct EnvModel {
    pub regs: Seq<u64>,
    pub mem: StackModel,
}

impl EnvModel {
    /// The register file holds exactly 16 words and the stack cursor is in
    /// bounds.
    pub open spec fn wf(self) -> bool {
        self.regs.len() == 16 && self.mem.wf()
    }
}

impl View for Environment {
    type V = EnvModel;

    open spec fn view(&self) -> EnvModel {
        EnvModel { regs: self.registers@, mem: self.memory@ }
    }
}

/// What a validated register read returns: the register's word, unless the
/// operand is the sentinel, which is a `Register` error.
pub open spec fn spec_get_reg(m: EnvModel, reg: Register) -> Result<u64, Error> {
    if reg is NoReg {
        Err(Error { kind: ErrorKind::Register })
    } else {
        Ok(m.regs[reg.id()])
    }
}

/// What a validated register write does: updates the register's word, unless
/// the operand is the sentinel, which is a `Register` error.
pub open spec fn spec_set_reg(m: EnvModel, reg: Register, value: u64) -> Result<EnvModel, Error> {
    if reg is NoReg {
        Err(Error { kind: ErrorKind::Register })
    } else {
        Ok(EnvModel { regs: m.regs.update(reg.id(), value), mem: m.mem })
    }
}

impl Environment {
    /// Both halves of the machine state are well formed.
    pub open spec fn wf(&self) -> bool {
        self.registers.wf() && self.memory.wf()
    }

    /// Reads one byte of memory through a pointer, bounds-checked.
    pub fn get_mem(&self, addr: Pointer) -> (r: Result<u8, Error>)
        requires
            self.wf(),
        ensures
            ({
                let a = addr.abs_spec(self@.regs);
                &&& a + 1 <= self@.mem.bytes.len() ==> r == Ok::<u8, Error>(
                    self@.mem.bytes[a as int],
                )
                &&& a + 1 > self@.mem.bytes.len() ==> (r matches Err(e) && e.kind is Memory)
            }),
    {
        let r = addr.read::<u8>(self);
        proof {
            let a = addr.abs_spec(self@.regs);
            if a + 1 <= self@.mem.bytes.len() {
                assert(self@.mem.bytes.subrange(a as int, a + 1)[0] == self@.mem.bytes[a as int]);
            }
        }
        r
    }

    /// Validated register read: fails with a `Register` error on the sentinel,
    /// succeeds on every real register.
    pub fn get_reg(&self, reg: Register) -> (r: Result<u64, Error>)
        requires
            self.wf(),
        ensures
            r == spec_get_reg(self@, reg),
    {
        if reg == Register::NoReg {
            Err(reg_err())
        } else {
            Ok(self.registers.read(reg))
        }
    }

    /// Validated register write: fails with a `Register` error on the sentinel,
    /// succeeds on every real register.
    pub fn set_reg(&mut self, reg: Register, value: u64) -> (r: Result<(), Error>)
        requires
            old(self).wf(),
        ensures
            final(self).wf(),
            (spec_set_reg(old(self)@, reg, value) matches Ok(m) ==> r is Ok && final(self)@ == m),
            (spec_set_reg(old(self)@, reg, value) matches Err(e) ==> r == Err::<(), Error>(e)
                && final(self)@ == old(self)@),
    {
        if reg == Register::NoReg {
            Err(reg_err())
        } else {
            self.registers.write(reg, value);
            Ok(())
        }
    }
}

/// Law: for every real register, writing a value and then reading it back
/// returns exactly that value; the sentinel register is refused with a
/// `Register` error on read and on write.
pub proof fn lemma_reg_write_then_read(m: EnvModel, reg: Register, value: u64)
    requires
        m.wf(),
    ensures
        !(reg is NoReg) ==> (spec_set_reg(m, reg, value) matches Ok(m2) && spec_get_reg(m2, reg)
            == Ok::<u64, Error>(value)),
        reg is NoReg ==> (spec_set_reg(m, reg, value) matches Err(e) && e.kind is Register),
        reg is NoReg ==> (spec_get_reg(m, reg) matches Err(e) && e.kind is Register),
{
}

/// An instruction that can be applied to the machine state. Each implementor
/// names its own precondition and effect; `execute` is bound by them.
pub trait Executable {
    /// When the instruction may be executed.
    spec fn exec_pre(&self, m: MachineModel) -> bool;

    /// How the result and the machine state after execution relate to the
    /// machine state before.
    spec fn exec_post(&self, m: MachineModel, m2: MachineModel, r: Result<(), Error>) -> bool;

    /// Applies the instruction to the machine state.
    fn execute(&self, env: &mut Interpreter) -> (r: Result<(), Error>)
        requires
            old(env).wf(),
            self.exec_pre(old(env)@),
        ensures
            final(env).wf(),
            self.exec_post(old(env)@, final(env)@, r),
    ;
}

} // verus!
