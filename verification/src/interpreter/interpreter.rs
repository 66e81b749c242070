//! The interpreter: program counter, machine environment and instruction
//! stream, driven by the fetch-decode-execute loop.

use vstd::prelude::*;

use crate::error::{Error, ErrorKind, eof_err};
use crate::interpreter::code::Code;
use crate::interpreter::EnvModel;
use crate::interpreter::Executable;
use crate::interpreter::Environment;

verus! {

/// One machine: a program counter (byte offset into the instruction stream),
/// the register file and memory/stack, and the raw instruction bytes. Owned by
/// one run from construction to termination.
#[derive(Debug)]
pub struct Interpreter {
    pub pc: u64,
    pub env: Environment,
    pub source: Vec<u8>,
}

/// The mathematical model of an [`Interpreter`]: program counter, environment
/// model and instruction bytes.
pub struct MachineModel {
    pub pc: u64,
    pub env: EnvModel,
    pub source: Seq<u8>,
}

impl MachineModel {
    /// The environment is well formed.
    pub open spec fn wf(self) -> bool {
        self.env.wf()
    }

    /// The same machine with the program counter moved.
    pub open spec fn with_pc(self, pc: u64) -> MachineModel {
        MachineModel { pc: pc, env: self.env, source: self.source }
    }

    /// The same machine with the register words replaced.
    pub open spec fn with_regs(self, regs: Seq<u64>) -> MachineModel {
        MachineModel {
            pc: self.pc,
            env: EnvModel { regs: regs, mem: self.env.mem },
            source: self.source,
        }
    }

    /// The same machine with the memory bytes replaced; the stack cursor stays.
    pub open spec fn with_mem_bytes(self, bytes: Seq<u8>) -> MachineModel {
        MachineModel {
            pc: self.pc,
            env: EnvModel {
                regs: self.env.regs,
                mem: crate::mem::StackModel { top: self.env.mem.top, bytes: bytes },
            },
            source: self.source,
        }
    }
}

impl View for Interpreter {
    type V = MachineModel;

    open spec fn view(&self) -> MachineModel {
        MachineModel { pc: self.pc, env: self.env@, source: self.source@ }
    }
}

impl Interpreter {
    /// The environment is well formed and the instruction stream is short
    /// enough that the decoder's cursor arithmetic (at most 10 bytes per
    /// instruction) cannot overflow a `u64`.
    pub open spec fn wf(&self) -> bool {
        self@.env.wf() && self.source@.len() + 10 <= u64::MAX
    }

    /// Reads `size` bytes at the program counter and advances it past them.
    /// Fails with `EOF`, moving nothing, when fewer than `size` bytes remain.
    pub fn read(&mut self, size: usize) -> (r: Result<Vec<u8>, Error>)
        requires
            old(self).pc + size <= u64::MAX,
        ensures
            final(self).env == old(self).env,
            final(self).source == old(self).source,
            size == 0 ==> (r matches Ok(bytes) && bytes@.len() == 0)
                && final(self).pc == old(self).pc,
            size > 0 && old(self).pc + size <= old(self).source@.len() ==> (r matches Ok(bytes)
                && bytes@ == old(self).source@.subrange(old(self).pc as int, old(self).pc + size))
                && final(self).pc == old(self).pc + size,
            size > 0 && old(self).pc + size > old(self).source@.len() ==> (r matches Err(e)
                && e.kind is EOF) && final(self).pc == old(self).pc,
    {
        if size == 0 {
            return Ok(Vec::new());
        }
        let len64 = self.source.len() as u64;
        if self.pc >= len64 || (size as u64) > len64 - self.pc {
            return Err(eof_err());
        }
        let start = self.pc as usize;
        let mut bytes: Vec<u8> = Vec::new();
        let mut i: usize = 0;
        while i < size
            invariant
                i <= size,
                *self == *old(self),
                start == old(self).pc,
                start + size <= self.source@.len(),
                start + size <= usize::MAX,
                bytes@ == self.source@.subrange(start as int, start + i),
            decreases size - i,
        {
            let b = self.source[start + i];
            bytes.push(b);
            proof {
                assert(self.source@.subrange(start as int, start + i + 1) =~= self.source@
                    .subrange(start as int, start + i).push(b));
            }
            i = i + 1;
        }
        self.pc = self.pc + (size as u64);
        Ok(bytes)
    }

    /// The fetch-decode-execute loop: decodes and executes instructions until
    /// the stream ends, a halt is executed, or an unrecoverable error occurs.
    /// End-of-input and halt are successful termination; any other decode or
    /// execute error is returned at once, with the machine left in its
    /// last-mutated state for inspection.
    ///
    /// The machine's run must terminate: some step count must leave `Running`.
    /// The verifier demands a terminating loop, and a program that keeps
    /// jumping backward genuinely never ends. Every jump-free program
    /// terminates ([`lemma_jump_free_terminates`]), and for a particular
    /// program the witness can be computed outright, as
    /// [`lemma_halt_program`] does.
    pub fn execute(&mut self) -> (r: Result<(), Error>)
        requires
            old(self).wf(),
            exists|n: nat| !(#[trigger] spec_run(old(self)@, n) is Running),
        ensures
            final(self).wf(),
            r is Ok ==> exists|n: nat|
                ({
                    let s = #[trigger] spec_run(old(self)@, n);
                    s == RunState::Halted(final(self)@) || s == RunState::EndOfInput(final(self)@)
                }),
            r matches Err(e) ==> !(e.kind is Halt) && !(e.kind is EOF) && exists|n: nat|
                spec_run(old(self)@, n) == RunState::Failed(e, final(self)@),
    {
        let ghost m0 = self@;
        let ghost n_end = choose|n: nat| !(spec_run(m0, n) is Running);
        let ghost mut steps: nat = 0;
        proof {
            assert(spec_run(m0, 0) == RunState::Running(self@));
        }
        while self.pc < self.source.len() as u64
            invariant
                m0 == old(self)@,
                self.wf(),
                !(spec_run(m0, n_end) is Running),
                steps < n_end,
                spec_run(m0, steps) == RunState::Running(self@),
            decreases n_end - steps,
        {
            let ghost pre = self@;
            proof {
                assert(spec_run(m0, steps + 1) == step_state(spec_run(m0, steps)));
            }
            match Code::parse(self) {
                Ok(ins) => {
                    let res = ins.execute(self);
                    match res {
                        Ok(()) => {
                            proof {
                                assert(spec_step(pre) == RunState::Running(self@));
                                steps = steps + 1;
                                if steps >= n_end {
                                    lemma_run_terminal(m0, n_end, steps);
                                }
                            }
                        },
                        Err(e) => {
                            if e.kind == ErrorKind::Halt {
                                proof {
                                    assert(spec_step(pre) == RunState::Halted(self@));
                                }
                                return Ok(());
                            } else {
                                proof {
                                    assert(spec_step(pre) == RunState::Failed(e, self@));
                                }
                                return Err(e);
                            }
                        },
                    }
                },
                Err(e) => {
                    if e.kind == ErrorKind::EOF {
                        proof {
                            assert(spec_step(pre) == RunState::EndOfInput(self@));
                        }
                        return Ok(());
                    } else {
                        proof {
                            assert(spec_step(pre) == RunState::Failed(e, self@));
                        }
                        return Err(e);
                    }
                },
            }
        }
        proof {
            assert(spec_run(m0, steps + 1) == step_state(spec_run(m0, steps)));
            assert(spec_step(self@) == RunState::EndOfInput(self@));
        }
        Ok(())
    }
}

/// The loop's state machine: still running, ended by an explicit halt, ended
/// at the stream's end, or failed.
pub enum RunState {
    Running(MachineModel),
    Halted(MachineModel),
    EndOfInput(MachineModel),
    Failed(Error, MachineModel),
}

/// One fetch-decode-execute step of the loop on a running machine: decode at
/// the counter; end-of-input during decode and an explicit halt during
/// execution terminate the run successfully; any other error fails it.
pub open spec fn spec_step(m: MachineModel) -> RunState {
    if m.pc >= m.source.len() {
        RunState::EndOfInput(m)
    } else {
        let pr = crate::interpreter::code::spec_parse(m.source, m.pc);
        match pr.0 {
            Err(e) => if e.kind is EOF {
                RunState::EndOfInput(m.with_pc(pr.1))
            } else {
                RunState::Failed(e, m.with_pc(pr.1))
            },
            Ok(c) => {
                let er = c.execute_spec(m.with_pc(pr.1));
                match er.0 {
                    Ok(_) => RunState::Running(er.1),
                    Err(e) => if e.kind is Halt {
                        RunState::Halted(er.1)
                    } else {
                        RunState::Failed(e, er.1)
                    },
                }
            },
        }
    }
}

/// A terminal state stays; a running machine takes one step.
pub open spec fn step_state(s: RunState) -> RunState {
    match s {
        RunState::Running(m) => spec_step(m),
        _ => s,
    }
}

/// The loop's state after `n` steps from machine `m`.
pub open spec fn spec_run(m: MachineModel, n: nat) -> RunState
    decreases n,
{
    if n == 0 {
        RunState::Running(m)
    } else {
        step_state(spec_run(m, (n - 1) as nat))
    }
}

/// Law: a run is deterministic in its inputs: once the loop reaches a
/// terminal state, every later step count shows that same state, so a machine
/// has at most one outcome.
pub proof fn lemma_run_terminal(m: MachineModel, n1: nat, n2: nat)
    requires
        n1 <= n2,
        !(spec_run(m, n1) is Running),
    ensures
        spec_run(m, n2) == spec_run(m, n1),
    decreases n2,
{
    if n1 < n2 {
        lemma_run_terminal(m, n1, (n2 - 1) as nat);
    }
}

/// Step counts compose: running `a + b` steps is running `b` steps from the
/// machine that `a` steps reach.
pub proof fn lemma_run_shift(m: MachineModel, m1: MachineModel, a: nat, b: nat)
    requires
        spec_run(m, a) == RunState::Running(m1),
    ensures
        spec_run(m, a + b) == spec_run(m1, b),
    decreases b,
{
    if b > 0 {
        lemma_run_shift(m, m1, a, (b - 1) as nat);
        assert(spec_run(m, a + b) == step_state(spec_run(m, (a + b - 1) as nat)));
    } else {
        assert(spec_run(m1, 0) == RunState::Running(m1));
    }
}

/// Law: a program holding no byte of the jump family always terminates. Every
/// other instruction leaves the counter where the decoder put it, so each step
/// moves strictly forward through the stream, and some step count leaves
/// `Running` — the witness [`Interpreter::execute`] asks for.
pub proof fn lemma_jump_free_terminates(m: MachineModel)
    requires
        m.source.len() + 10 <= u64::MAX,
        forall|i: int| 0 <= i < m.source.len() ==> !(0x70 <= #[trigger] m.source[i] < 0x80),
    ensures
        exists|n: nat| !(#[trigger] spec_run(m, n) is Running),
    decreases m.source.len() - m.pc,
{
    assert(spec_run(m, 0) == RunState::Running(m));
    assert(spec_run(m, 1) == spec_step(m));
    if m.pc < m.source.len() {
        let pr = crate::interpreter::code::spec_parse(m.source, m.pc);
        match pr.0 {
            Ok(c) => {
                let m1 = m.with_pc(pr.1);
                let er = c.execute_spec(m1);
                if er.0 is Ok {
                    let m2 = er.1;
                    assert(!(0x70 <= m.source[m.pc as int] < 0x80));
                    assert(!(c is Jump));
                    assert(c.executable());
                    crate::interpreter::code::lemma_execute_keeps_pc(c, m1);
                    assert(m2.pc == pr.1);
                    assert(m.pc < pr.1 <= m.source.len());
                    assert(m2.source == m.source);
                    lemma_jump_free_terminates(m2);
                    let n2 = choose|n: nat| !(spec_run(m2, n) is Running);
                    lemma_run_shift(m, m2, 1, n2);
                    assert(!(spec_run(m, 1 + n2) is Running));
                } else {
                    assert(!(spec_run(m, 1) is Running));
                }
            },
            Err(_) => {
                assert(!(spec_run(m, 1) is Running));
            },
        }
    } else {
        assert(!(spec_run(m, 1) is Running));
    }
}

/// Law: a program whose only instruction is `Halt` terminates successfully in
/// one step, with no register or memory mutation; only the counter moves past
/// the one consumed byte.
pub proof fn lemma_halt_program(m: MachineModel)
    requires
        m.pc == 0,
        m.source == seq![crate::interpreter::alias::HALT],
    ensures
        spec_run(m, 1) == RunState::Halted(m.with_pc(1)),
        m.with_pc(1).env == m.env,
{
    assert(m.source.len() == 1 && m.source[0] == crate::interpreter::alias::HALT);
    assert(spec_run(m, 0) == RunState::Running(m));
    assert(spec_step(m) == RunState::Halted(m.with_pc(1)));
}

} // verus!
