//! The instruction set: the decoded representation of one instruction, the
//! decoder that consumes bytes from the instruction stream, and the executor
//! that applies one instruction to the machine state.

use vstd::prelude::*;

use vstd::bytes::{lemma_auto_spec_u64_to_from_le_bytes, spec_u64_from_le_bytes, spec_u64_to_le_bytes, u64_from_le_bytes};

use crate::error::{Error, ErrorKind, code_err, halt_err};
use crate::interpreter::alias::{ADD, CALL, HALT, IRMOV, MRMOV, NOP, POP, PUSH, RET, RMMOV};
use crate::interpreter::interpreter::{Interpreter, MachineModel};
use crate::interpreter::Executable;
use crate::mem::{IntoBytes, Pointer, TryFromBytes, splice_bytes};
use crate::reg::Register;

verus! {

/// One decoded instruction: a transient value created by the decoder each
/// cycle, consumed by the executor, then discarded.
#[derive(Debug, Copy, Clone)]
pub enum Code {
    /// Stop the machine; treated as successful termination by the loop.
    Halt,
    /// Do nothing.
    Nop,
    /// Conditional register-to-register move; function code 0 moves always,
    /// the other function codes are reserved and execute with no effect.
    CondMove(u8, Register, Register),
    /// Move a 64-bit immediate into a register.
    IRMove(u64, Register),
    /// Move a register's word into memory through a pointer.
    RMMove(Register, Pointer),
    /// Move a 64-bit word from memory into a register.
    MRMove(Pointer, Register),
    /// Arithmetic/bitwise operation between two registers; the function code
    /// selects add (0), subtract (1), bitwise-and (2) or bitwise-xor (3);
    /// the result lands in the second register.
    OP(u8, Register, Register),
    /// Conditional jump to an absolute target; function code 0 jumps always,
    /// the other function codes are reserved and execute with no effect.
    Jump(u8, u64),
    /// Call; decoded, executed as a no-op (full calling-convention semantics
    /// are deliberately out of scope).
    Call(u64),
    /// Return; decoded, executed as a no-op.
    Return,
    /// Push a register; decoded, executed as a no-op.
    Push(Register),
    /// Pop into a register; decoded, executed as a no-op.
    Pop(Register),
}

/// The i64 with the same 64-bit two's-complement representation as `x`.
pub open spec fn spec_as_signed(x: u64) -> i64 {
    if x < 0x8000_0000_0000_0000 {
        x as i64
    } else {
        (x - 0x1_0000_0000_0000_0000) as i64
    }
}

/// Reinterprets a 64-bit word as a signed displacement.
pub fn as_signed(x: u64) -> (r: i64)
    ensures
        r == spec_as_signed(x),
{
    if x < 0x8000_0000_0000_0000 {
        x as i64
    } else {
        ((x - 0x8000_0000_0000_0000) as i64) + i64::MIN
    }
}

/// Whether the decoder recognizes this first byte.
pub open spec fn recognized(op: u8) -> bool {
    ||| op == HALT
    ||| op == NOP
    ||| op / 16 == 2
    ||| op == IRMOV
    ||| op == RMMOV
    ||| op == MRMOV
    ||| op == ADD
    ||| op == 0x61
    ||| op == 0x62
    ||| op == 0x63
    ||| op / 16 == 7
    ||| op == CALL
    ||| op == RET
    ||| op == PUSH
    ||| op == POP
}

/// The declared byte count of the opcode family a recognized first byte
/// selects: how many bytes a successful decode consumes.
pub open spec fn family_len(op: u8) -> nat {
    if op == HALT || op == NOP || op == RET {
        1
    } else if op / 16 == 7 || op == CALL {
        9
    } else if op == IRMOV || op == RMMOV || op == MRMOV {
        10
    } else {
        2
    }
}

/// What one decode step yields: the instruction or the failure, and the
/// program counter after the step (bytes already consumed stay consumed even
/// when a later byte of the instruction is missing).
pub open spec fn spec_parse(source: Seq<u8>, pc: u64) -> (Result<Code, Error>, u64) {
    if pc >= source.len() {
        (Err(Error { kind: ErrorKind::EOF }), pc)
    } else {
        let op = source[pc as int];
        let pc1 = (pc + 1) as u64;
        if op == HALT {
            (Ok(Code::Halt), pc1)
        } else if op == NOP {
            (Ok(Code::Nop), pc1)
        } else if op / 16 == 2 {
            if pc1 >= source.len() {
                (Err(Error { kind: ErrorKind::EOF }), pc1)
            } else {
                let b = source[pc1 as int];
                let r_a = Register::of_id((b / 16) as u8);
                let r_b = Register::of_id((b % 16) as u8);
                (Ok(Code::CondMove((op % 16) as u8, r_a, r_b)), (pc1 + 1) as u64)
            }
        } else if op == IRMOV || op == RMMOV || op == MRMOV {
            if pc1 >= source.len() {
                (Err(Error { kind: ErrorKind::EOF }), pc1)
            } else {
                let b = source[pc1 as int];
                let r_a = Register::of_id((b / 16) as u8);
                let r_b = Register::of_id((b % 16) as u8);
                let pc2 = (pc1 + 1) as u64;
                if pc2 + 8 > source.len() {
                    (Err(Error { kind: ErrorKind::EOF }), pc2)
                } else {
                    let imm = spec_u64_from_le_bytes(source.subrange(pc2 as int, pc2 + 8));
                    let pc3 = (pc2 + 8) as u64;
                    if op == IRMOV {
                        (Ok(Code::IRMove(imm, r_b)), pc3)
                    } else if op == RMMOV {
                        (Ok(Code::RMMove(r_a, Pointer { base: r_b, offset: spec_as_signed(imm) })), pc3)
                    } else {
                        (Ok(Code::MRMove(Pointer { base: r_b, offset: spec_as_signed(imm) }, r_a)), pc3)
                    }
                }
            }
        } else if op == ADD || op == 0x61 || op == 0x62 || op == 0x63 {
            if pc1 >= source.len() {
                (Err(Error { kind: ErrorKind::EOF }), pc1)
            } else {
                let b = source[pc1 as int];
                let r_a = Register::of_id((b / 16) as u8);
                let r_b = Register::of_id((b % 16) as u8);
                (Ok(Code::OP((op % 16) as u8, r_a, r_b)), (pc1 + 1) as u64)
            }
        } else if op / 16 == 7 {
            if pc1 + 8 > source.len() {
                (Err(Error { kind: ErrorKind::EOF }), pc1)
            } else {
                let target = spec_u64_from_le_bytes(source.subrange(pc1 as int, pc1 + 8));
                (Ok(Code::Jump((op % 16) as u8, target)), (pc1 + 8) as u64)
            }
        } else if op == CALL {
            if pc1 + 8 > source.len() {
                (Err(Error { kind: ErrorKind::EOF }), pc1)
            } else {
                let target = spec_u64_from_le_bytes(source.subrange(pc1 as int, pc1 + 8));
                (Ok(Code::Call(target)), (pc1 + 8) as u64)
            }
        } else if op == RET {
            (Ok(Code::Return), pc1)
        } else if op == PUSH || op == POP {
            if pc1 >= source.len() {
                (Err(Error { kind: ErrorKind::EOF }), pc1)
            } else {
                let b = source[pc1 as int];
                let r_a = Register::of_id((b / 16) as u8);
                if op == PUSH {
                    (Ok(Code::Push(r_a)), (pc1 + 1) as u64)
                } else {
                    (Ok(Code::Pop(r_a)), (pc1 + 1) as u64)
                }
            }
        } else {
            (Err(Error { kind: ErrorKind::Code }), pc1)
        }
    }
}

impl Code {
    /// The instructions the executor implements. The arithmetic family has
    /// exactly four function codes; any other value there cannot be reached
    /// from the decoder and executing it is not allowed. Reserved condition
    /// codes of the move and jump families are accepted and execute with no
    /// effect: an explicit, documented limitation of the instruction coverage.
    pub open spec fn executable(self) -> bool {
        match self {
            Code::OP(f, _, _) => f <= 3,
            _ => true,
        }
    }

    /// The effect of one executable instruction on the machine: the result and
    /// the machine afterwards. Reserved condition and function codes are left
    /// unspecified.
    pub open spec fn execute_spec(self, m: MachineModel) -> (Result<(), Error>, MachineModel) {
        match self {
            Code::Halt => (Err(Error { kind: ErrorKind::Halt }), m),
            Code::Nop => (Ok(()), m),
            Code::CondMove(f, r_a, r_b) => if f == 0 {
                (Ok(()), m.with_regs(m.env.regs.update(r_b.id(), m.env.regs[r_a.id()])))
            } else {
                (Ok(()), m)
            },
            Code::IRMove(imm, r) => (Ok(()), m.with_regs(m.env.regs.update(r.id(), imm))),
            Code::RMMove(r, p) => {
                let a = p.abs_spec(m.env.regs);
                if a + 8 <= m.env.mem.bytes.len() {
                    (
                        Ok(()),
                        m.with_mem_bytes(
                            splice_bytes(
                                m.env.mem.bytes,
                                a as int,
                                spec_u64_to_le_bytes(m.env.regs[r.id()]),
                            ),
                        ),
                    )
                } else {
                    (Err(Error { kind: ErrorKind::Memory }), m)
                }
            },
            Code::MRMove(p, r) => {
                let a = p.abs_spec(m.env.regs);
                if a + 8 <= m.env.mem.bytes.len() {
                    let v = spec_u64_from_le_bytes(m.env.mem.bytes.subrange(a as int, a + 8));
                    (Ok(()), m.with_regs(m.env.regs.update(r.id(), v)))
                } else {
                    (Err(Error { kind: ErrorKind::Memory }), m)
                }
            },
            Code::OP(f, r_a, r_b) => {
                let v_a = m.env.regs[r_a.id()];
                let v_b = m.env.regs[r_b.id()];
                if f == 0 {
                    (Ok(()), m.with_regs(m.env.regs.update(r_b.id(), v_b.wrapping_add(v_a))))
                } else if f == 1 {
                    (Ok(()), m.with_regs(m.env.regs.update(r_b.id(), v_b.wrapping_sub(v_a))))
                } else if f == 2 {
                    (Ok(()), m.with_regs(m.env.regs.update(r_b.id(), v_b & v_a)))
                } else if f == 3 {
                    (Ok(()), m.with_regs(m.env.regs.update(r_b.id(), v_b ^ v_a)))
                } else {
                    arbitrary()
                }
            },
            Code::Jump(f, target) => if f == 0 {
                (Ok(()), m.with_pc(target))
            } else {
                (Ok(()), m)
            },
            Code::Call(_) => (Ok(()), m),
            Code::Return => (Ok(()), m),
            Code::Push(_) => (Ok(()), m),
            Code::Pop(_) => (Ok(()), m),
        }
    }

    /// Decodes one instruction at the program counter, advancing it by exactly
    /// the bytes consumed. An unrecognized first byte is a `Code` error; fewer
    /// remaining bytes than the family needs is `EOF`.
    pub fn parse(itpt: &mut Interpreter) -> (r: Result<Code, Error>)
        requires
            old(itpt).pc + 10 <= u64::MAX,
        ensures
            final(itpt).env == old(itpt).env,
            final(itpt).source == old(itpt).source,
            r == spec_parse(old(itpt).source@, old(itpt).pc).0,
            final(itpt).pc == spec_parse(old(itpt).source@, old(itpt).pc).1,
            r matches Ok(c) ==> c.executable(),
            r is Ok ==> old(itpt).pc < final(itpt).pc <= old(itpt).source@.len(),
            r matches Err(e) ==> e.kind is EOF || e.kind is Code,
    {
        let code = match itpt.read(1) {
            Ok(bytes) => bytes[0],
            Err(e) => {
                return Err(e);
            },
        };
        if code == HALT {
            Ok(Code::Halt)
        } else if code == NOP {
            Ok(Code::Nop)
        } else if code / 16 == 2 {
            let b = match itpt.read(1) {
                Ok(bytes) => bytes[0],
                Err(e) => {
                    return Err(e);
                },
            };
            let r_a = register_of(b / 16);
            let r_b = register_of(b % 16);
            Ok(Code::CondMove(code % 16, r_a, r_b))
        } else if code == IRMOV || code == RMMOV || code == MRMOV {
            let b = match itpt.read(1) {
                Ok(bytes) => bytes[0],
                Err(e) => {
                    return Err(e);
                },
            };
            let r_a = register_of(b / 16);
            let r_b = register_of(b % 16);
            let imm = match read_immediate(itpt) {
                Ok(imm) => imm,
                Err(e) => {
                    return Err(e);
                },
            };
            if code == IRMOV {
                Ok(Code::IRMove(imm, r_b))
            } else if code == RMMOV {
                Ok(Code::RMMove(r_a, Pointer::new(r_b, as_signed(imm))))
            } else {
                Ok(Code::MRMove(Pointer::new(r_b, as_signed(imm)), r_a))
            }
        } else if code == ADD || code == 0x61 || code == 0x62 || code == 0x63 {
            let f = code % 16;
            let b = match itpt.read(1) {
                Ok(bytes) => bytes[0],
                Err(e) => {
                    return Err(e);
                },
            };
            let r_a = register_of(b / 16);
            let r_b = register_of(b % 16);
            Ok(Code::OP(f, r_a, r_b))
        } else if code / 16 == 7 {
            let target = match read_immediate(itpt) {
                Ok(imm) => imm,
                Err(e) => {
                    return Err(e);
                },
            };
            Ok(Code::Jump(code % 16, target))
        } else if code == CALL {
            let target = match read_immediate(itpt) {
                Ok(imm) => imm,
                Err(e) => {
                    return Err(e);
                },
            };
            Ok(Code::Call(target))
        } else if code == RET {
            Ok(Code::Return)
        } else if code == PUSH || code == POP {
            let b = match itpt.read(1) {
                Ok(bytes) => bytes[0],
                Err(e) => {
                    return Err(e);
                },
            };
            let r_a = register_of(b / 16);
            if code == PUSH {
                Ok(Code::Push(r_a))
            } else {
                Ok(Code::Pop(r_a))
            }
        } else {
            Err(code_err())
        }
    }
}

/// The register a 4-bit operand nibble names.
fn register_of(nibble: u8) -> (r: Register)
    requires
        nibble < 16,
    ensures
        r == Register::of_id(nibble),
{
    match Register::try_from(nibble) {
        Ok(r) => r,
        Err(_) => vstd::pervasive::unreached(),
    }
}

/// Reads the 8-byte little-endian immediate of an instruction.
fn read_immediate(itpt: &mut Interpreter) -> (r: Result<u64, Error>)
    requires
        old(itpt).pc + 8 <= u64::MAX,
    ensures
        final(itpt).env == old(itpt).env,
        final(itpt).source == old(itpt).source,
        old(itpt).pc + 8 <= old(itpt).source@.len() ==> (r == Ok::<u64, Error>(
            spec_u64_from_le_bytes(
                old(itpt).source@.subrange(old(itpt).pc as int, old(itpt).pc + 8),
            ),
        )) && final(itpt).pc == old(itpt).pc + 8,
        old(itpt).pc + 8 > old(itpt).source@.len() ==> (r matches Err(e) && e.kind is EOF)
            && final(itpt).pc == old(itpt).pc,
{
    let bytes = match itpt.read(8) {
        Ok(bytes) => bytes,
        Err(e) => {
            return Err(e);
        },
    };
    Ok(u64_from_le_bytes(bytes.as_slice()))
}

impl Executable for Code {
    /// The instruction carries no reserved condition or function code.
    open spec fn exec_pre(&self, m: MachineModel) -> bool {
        self.executable()
    }

    /// The result and machine afterwards are exactly what `execute_spec` says.
    open spec fn exec_post(&self, m: MachineModel, m2: MachineModel, r: Result<(), Error>) -> bool {
        r == self.execute_spec(m).0 && m2 == self.execute_spec(m).1
    }

    /// Applies one instruction's semantics to the machine state.
    fn execute(&self, env: &mut Interpreter) -> (r: Result<(), Error>) {
        proof {
            lemma_auto_spec_u64_to_from_le_bytes();
        }
        match self {
            Code::Halt => Err(halt_err()),
            Code::Nop => Ok(()),
            Code::CondMove(f, r_a, r_b) => {
                if *f == 0 {
                    let v = env.env.registers.read(*r_a);
                    env.env.registers.write(*r_b, v);
                }
                Ok(())
            },
            Code::IRMove(imm, r) => {
                env.env.registers.write(*r, *imm);
                Ok(())
            },
            Code::RMMove(r, p) => {
                let bytes = env.env.registers.read(*r);
                match p.write(bytes, &mut env.env) {
                    Ok(()) => Ok(()),
                    Err(e) => Err(e),
                }
            },
            Code::MRMove(p, r) => {
                match p.read::<u64>(&env.env) {
                    Ok(v) => {
                        env.env.registers.write(*r, v);
                        Ok(())
                    },
                    Err(e) => Err(e),
                }
            },
            Code::OP(f, r_a, r_b) => {
                let v_a = env.env.registers.read(*r_a);
                let v_b = env.env.registers.read(*r_b);
                let result = if *f == 0 {
                    v_b.wrapping_add(v_a)
                } else if *f == 1 {
                    v_b.wrapping_sub(v_a)
                } else if *f == 2 {
                    v_b & v_a
                } else if *f == 3 {
                    v_b ^ v_a
                } else {
                    vstd::pervasive::unreached()
                };
                env.env.registers.write(*r_b, result);
                Ok(())
            },
            Code::Jump(f, target) => {
                if *f == 0 {
                    env.pc = *target;
                }
                Ok(())
            },
            Code::Call(_) => Ok(()),
            Code::Return => Ok(()),
            Code::Push(_) => Ok(()),
            Code::Pop(_) => Ok(()),
        }
    }
}

/// Every instruction outside the jump family leaves the program counter where
/// the decoder put it: only a jump moves it.
pub proof fn lemma_execute_keeps_pc(c: Code, m: MachineModel)
    requires
        c.executable(),
        !(c is Jump),
    ensures
        c.execute_spec(m).1.pc == m.pc,
{
}

/// Law: a successful decode consumes exactly the declared byte count of the
/// opcode family its first byte selects; an unrecognized first byte is a
/// `Code` error; a recognized family with too few remaining bytes, or an
/// exhausted stream, is `EOF`.
pub proof fn lemma_parse_consumes_family_len(source: Seq<u8>, pc: u64)
    requires
        source.len() + 10 <= u64::MAX,
    ensures
        pc < source.len() && recognized(source[pc as int]) && pc + family_len(source[pc as int])
            <= source.len() ==> spec_parse(source, pc).0 is Ok && spec_parse(source, pc).1 == pc
            + family_len(source[pc as int]),
        pc < source.len() && !recognized(source[pc as int]) ==> (spec_parse(source, pc).0 matches
            Err(e) && e.kind is Code),
        pc < source.len() && recognized(source[pc as int]) && pc + family_len(source[pc as int])
            > source.len() ==> (spec_parse(source, pc).0 matches Err(e) && e.kind is EOF),
        pc >= source.len() ==> (spec_parse(source, pc).0 matches Err(e) && e.kind is EOF),
{
}

} // verus!
