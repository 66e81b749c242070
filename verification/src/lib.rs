//! A sequential interpreter for a compact, byte-encoded instruction set on a
//! small register/stack machine: a 16-slot register file, a fixed-capacity
//! memory/stack buffer, base-plus-offset addressing, a one-instruction-at-a-time
//! decoder, an executor, and the fetch-decode-execute loop.

pub mod error;
pub mod interpreter;
pub mod mem;
pub mod reg;
