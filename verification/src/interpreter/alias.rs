//! The opcode byte of each instruction family: the high nibble selects the
//! family, the low nibble a function/variant code.

use vstd::prelude::*;

verus! {

/// Halt execution.
pub const HALT: u8 = 0x00;

/// No operation.
pub const NOP: u8 = 0x10;

/// Register-to-register conditional move; function code 0 moves always, the
/// other function codes are reserved and execute with no effect.
pub const RRMOV: u8 = 0x20;

/// Immediate-to-register move.
pub const IRMOV: u8 = 0x30;

/// Register-to-memory move.
pub const RMMOV: u8 = 0x40;

/// Memory-to-register move.
pub const MRMOV: u8 = 0x50;

/// Arithmetic/bitwise operation; the function code selects add, subtract,
/// bitwise-and or bitwise-xor.
pub const ADD: u8 = 0x60;

/// Conditional jump; function code 0 jumps always, the other function codes
/// are reserved and execute with no effect.
pub const JMP: u8 = 0x70;

/// Call; decoded but executed as a no-op.
pub const CALL: u8 = 0x80;

/// Return; decoded but executed as a no-op.
pub const RET: u8 = 0x90;

/// Push a register; decoded but executed as a no-op.
pub const PUSH: u8 = 0xA0;

/// Pop into a register; decoded but executed as a no-op.
pub const POP: u8 = 0xB0;

} // verus!
