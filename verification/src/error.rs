//! The fixed taxonomy of failure kinds shared by every component.

use vstd::prelude::*;

verus! {

/// What went wrong. `Halt` and `EOF` are termination signals rather than true
/// failures: the interpreter loop absorbs both into a successful run, so its
/// callers only ever observe `Register`, `Memory` or `Code`.
#[derive(Debug, Clone, Copy, PartialEq, Eq, Structural)]
pub enum ErrorKind {
    /// An operand named the sentinel "no register".
    Register,
    /// An address or length fell outside the backing store, or a stack
    /// push/pop violated its capacity.
    Memory,
    /// The decoder met an unrecognized opcode byte.
    Code,
    /// An explicit halt instruction was executed.
    Halt,
    /// Fewer bytes remained than the current decode required.
    EOF,
}

/// A tagged failure; every fallible operation of the machine reports one.
#[derive(Debug, Clone, Copy, PartialEq, Eq, Structural)]
pub struct Error {
    pub kind: ErrorKind,
}

/// The `Memory` failure.
pub(crate) fn memory_err() -> (e: Error)
    ensures
        e.kind is Memory,
{
    Error { kind: ErrorKind::Memory }
}

/// The `EOF` (end of input) termination signal.
pub(crate) fn eof_err() -> (e: Error)
    ensures
        e.kind is EOF,
{
    Error { kind: ErrorKind::EOF }
}

/// The `Register` failure.
pub(crate) fn reg_err() -> (e: Error)
    ensures
        e.kind is Register,
{
    Error { kind: ErrorKind::Register }
}

/// The `Code` failure.
pub(crate) fn code_err() -> (e: Error)
    ensures
        e.kind is Code,
{
    Error { kind: ErrorKind::Code }
}

/// The `Halt` termination signal.
pub(crate) fn halt_err() -> (e: Error)
    ensures
        e.kind is Halt,
{
    Error { kind: ErrorKind::Halt }
}

} // verus!
