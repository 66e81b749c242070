//! The memory/stack abstraction and the addressing scheme: a fixed-capacity
//! byte buffer with bounds-checked random access and stack-style push/pop from
//! the high end, and pointers that resolve a base register plus a signed offset
//! to an absolute address.

use vstd::prelude::*;

use vstd::bytes::{
    spec_u32_from_le_bytes, spec_u32_to_le_bytes, spec_u64_from_le_bytes, spec_u64_to_le_bytes,
    u32_from_le_bytes, u32_to_le_bytes, u64_from_le_bytes, u64_to_le_bytes,
};

use crate::error::{Error, memory_err};
use crate::interpreter::Environment;
use crate::reg::{Register, Registers};

verus! {

/// The bytes of `mem` with the bytes of `bs` written in starting at address `a`.
pub open spec fn splice_bytes(mem: Seq<u8>, a: int, bs: Seq<u8>) -> Seq<u8> {
    Seq::new(mem.len(), |j: int| if a <= j < a + bs.len() { bs[j - a] } else { mem[j] })
}

/// An addressing descriptor: a base register plus a signed 64-bit displacement.
/// An immutable value; adding or subtracting a constant produces a new pointer.
#[derive(Debug, Copy, Clone)]
pub struct Pointer {
    pub base: Register,
    pub offset: i64,
}

impl Pointer {
    pub fn new(base: Register, offset: i64) -> (p: Pointer)
        ensures
            p.base == base,
            p.offset == offset,
    {
        Pointer { base, offset }
    }

    /// The base register (possibly the sentinel, meaning base 0).
    pub fn base(&self) -> (r: Register)
        ensures
            r == self.base,
    {
        self.base
    }

    /// The signed displacement.
    pub fn offset(&self) -> (r: i64)
        ensures
            r == self.offset,
    {
        self.offset
    }

    /// The absolute address: the base register's word (0 for the sentinel)
    /// plus the displacement, with wraparound 64-bit arithmetic.
    pub open spec fn abs_spec(self, regs: Seq<u64>) -> u64 {
        let b: u64 = if self.base is NoReg {
            0u64
        } else {
            regs[self.base.id()]
        };
        b.wrapping_add_signed(self.offset)
    }

    /// Resolves the pointer against a register file. Pure: no side effects.
    pub fn abs(&self, env: &Registers) -> (a: u64)
        requires
            env.wf(),
        ensures
            a == self.abs_spec(env@),
    {
        let base: u64 = if self.base == Register::NoReg {
            0
        } else {
            env.read(self.base)
        };
        base.wrapping_add_signed(self.offset)
    }

    /// A new pointer displaced forward by `rhs`.
    pub fn offset_add(self, rhs: i64) -> (p: Pointer)
        requires
            i64::MIN <= self.offset + rhs <= i64::MAX,
        ensures
            p.base == self.base,
            p.offset == self.offset + rhs,
    {
        Pointer { base: self.base, offset: self.offset + rhs }
    }

    /// A new pointer displaced backward by `rhs`.
    pub fn offset_sub(self, rhs: i64) -> (p: Pointer)
        requires
            i64::MIN <= self.offset - rhs <= i64::MAX,
        ensures
            p.base == self.base,
            p.offset == self.offset - rhs,
    {
        Pointer { base: self.base, offset: self.offset - rhs }
    }

    /// Typed bounds-checked read: resolves the pointer and decodes the
    /// little-endian bytes at the address. Succeeds exactly when the addressed
    /// range lies inside the buffer; otherwise a `Memory` error.
    pub fn read<T: TryFromBytes>(&self, env: &Environment) -> (r: Result<T, Error>)
        requires
            env.wf(),
        ensures
            ({
                let a = self.abs_spec(env@.regs);
                let w = T::spec_width();
                &&& a + w <= env@.mem.bytes.len() ==> (r matches Ok(v) && v == T::spec_from_bytes(
                    env@.mem.bytes.subrange(a as int, a + w),
                ))
                &&& a + w > env@.mem.bytes.len() ==> (r matches Err(e) && e.kind is Memory)
            }),
    {
        let a = self.abs(&env.registers);
        let len: usize = T::width();
        let cap: usize = env.memory.len();
        if (len as u64) <= (cap as u64) && a <= (cap as u64) - (len as u64) {
            let base = a as usize;
            let mut bytes: Vec<u8> = Vec::new();
            let mut i: usize = 0;
            while i < len
                invariant
                    i <= len,
                    base + len <= env.memory@.bytes.len(),
                    base + len <= usize::MAX,
                    env.wf(),
                    bytes@ == env.memory@.bytes.subrange(base as int, base + i),
                decreases len - i,
            {
                let b = env.memory.read_byte(base + i);
                bytes.push(b);
                proof {
                    assert(env.memory@.bytes.subrange(base as int, base + i + 1) =~= env.memory@
                        .bytes.subrange(base as int, base + i).push(b));
                }
                i = i + 1;
            }
            match T::try_from_bytes(bytes.as_slice()) {
                Some(v) => Ok(v),
                None => vstd::pervasive::unreached(),
            }
        } else {
            Err(memory_err())
        }
    }

    /// Typed bounds-checked write: resolves the pointer, encodes the value to
    /// little-endian bytes and copies them in. Succeeds exactly when the
    /// addressed range lies inside the buffer; otherwise a `Memory` error and
    /// nothing changes.
    pub fn write<T: IntoBytes>(&self, value: T, env: &mut Environment) -> (r: Result<(), Error>)
        requires
            old(env).wf(),
        ensures
            final(env).wf(),
            ({
                let a = self.abs_spec(old(env)@.regs);
                let bs = value.spec_to_bytes();
                &&& a + bs.len() <= old(env)@.mem.bytes.len() ==> r is Ok
                    && final(env)@.regs == old(env)@.regs
                    && final(env)@.mem.top == old(env)@.mem.top
                    && final(env)@.mem.bytes == splice_bytes(old(env)@.mem.bytes, a as int, bs)
                &&& a + bs.len() > old(env)@.mem.bytes.len() ==> (r matches Err(e)
                    && e.kind is Memory) && final(env)@ == old(env)@
            }),
    {
        let a = self.abs(&env.registers);
        let bytes = value.into_le_bytes();
        let len: usize = bytes.len();
        let cap: usize = env.memory.len();
        if (len as u64) <= (cap as u64) && a <= (cap as u64) - (len as u64) {
            let base = a as usize;
            let ghost b0 = env.memory@.bytes;
            let ghost t0 = env.memory@.top;
            let ghost r0 = env.registers@;
            let mut i: usize = 0;
            while i < len
                invariant
                    i <= len,
                    base + len <= env.memory@.bytes.len(),
                    base + len <= usize::MAX,
                    len == bytes@.len(),
                    env.wf(),
                    env.registers@ == r0,
                    env.memory@.top == t0,
                    env.memory@.bytes.len() == b0.len(),
                    forall|j: int|
                        0 <= j < b0.len() ==> env.memory@.bytes[j] == (if base <= j < base + i {
                            bytes@[j - base]
                        } else {
                            b0[j]
                        }),
                decreases len - i,
            {
                env.memory.set_byte(base + i, bytes[i]);
                i = i + 1;
            }
            proof {
                assert(env.memory@.bytes =~= splice_bytes(b0, base as int, bytes@));
            }
            Ok(())
        } else {
            Err(memory_err())
        }
    }
}

/// The mathematical model of a [`Stack`]: the cursor and the buffer bytes. The
/// capacity is the length of `bytes`; the cursor starts at the capacity and
/// moves down as bytes are pushed.
pub struct StackModel {
    pub top: nat,
    pub bytes: Seq<u8>,
}

impl StackModel {
    /// The cursor always lies in `[0, capacity]`.
    pub open spec fn wf(self) -> bool {
        self.top <= self.bytes.len()
    }

    /// The fixed capacity of the buffer.
    pub open spec fn cap(self) -> nat {
        self.bytes.len()
    }

    /// Bytes not yet occupied by the stack.
    pub open spec fn unused(self) -> nat {
        self.top
    }

    /// Bytes occupied by the stack.
    pub open spec fn used(self) -> nat {
        (self.bytes.len() - self.top) as nat
    }

    /// A push needs the cursor strictly positive: room to decrement.
    pub open spec fn can_push(self) -> bool {
        self.top > 0
    }

    /// The stack after pushing one byte.
    pub open spec fn pushed(self, value: u8) -> StackModel {
        StackModel { top: (self.top - 1) as nat, bytes: self.bytes.update(self.top - 1, value) }
    }

    /// A pop needs the stack non-empty: cursor below the capacity.
    pub open spec fn can_pop(self) -> bool {
        self.top < self.bytes.len()
    }

    /// The byte a pop returns: the one at the cursor.
    pub open spec fn top_byte(self) -> u8 {
        self.bytes[self.top as int]
    }

    /// The stack after popping one byte.
    pub open spec fn popped(self) -> StackModel {
        StackModel { top: self.top + 1, bytes: self.bytes }
    }
}

/// A fixed-capacity byte buffer allocated once at construction, with a stack
/// cursor that starts at the top (the capacity) and decreases as bytes are
/// pushed.
#[derive(Debug)]
pub struct Stack {
    top: usize,
    stack: Vec<u8>,
}

impl View for Stack {
    type V = StackModel;

    closed spec fn view(&self) -> StackModel {
        StackModel { top: self.top as nat, bytes: self.stack@ }
    }
}

impl Stack {
    /// The cursor lies in `[0, capacity]`.
    pub open spec fn wf(&self) -> bool {
        self@.wf()
    }

    /// A zeroed buffer of `size` bytes with the cursor at the top.
    pub fn new(size: usize) -> (s: Stack)
        ensures
            s.wf(),
            s@.top == size,
            s@.bytes == Seq::new(size as nat, |i: int| 0u8),
    {
        let stack: Vec<u8> = vec![0u8; size];
        proof {
            assert(stack@ =~= Seq::new(size as nat, |i: int| 0u8));
        }
        Stack { top: size, stack }
    }

    /// Pushes one byte: decrements the cursor and stores the byte there.
    /// Fails with a `Memory` error when the cursor is already 0.
    pub fn push(&mut self, value: u8) -> (r: Result<(), Error>)
        requires
            old(self).wf(),
        ensures
            final(self).wf(),
            old(self)@.can_push() ==> r is Ok && final(self)@ == old(self)@.pushed(value),
            !old(self)@.can_push() ==> (r matches Err(e) && e.kind is Memory) && final(self)@
                == old(self)@,
    {
        if self.top > 0 {
            self.top = self.top - 1;
            let t = self.top;
            self.stack[t] = value;
            Ok(())
        } else {
            Err(memory_err())
        }
    }

    /// Pushes a run of bytes, atomically: fails with a `Memory` error, writing
    /// nothing, when fewer than `value.len()` unused bytes remain.
    pub fn push_n(&mut self, value: &[u8]) -> (r: Result<(), Error>)
        requires
            old(self).wf(),
        ensures
            final(self).wf(),
            value@.len() <= old(self)@.top ==> r is Ok && final(self)@.top == old(self)@.top
                - value@.len() && final(self)@.bytes == splice_bytes(
                old(self)@.bytes,
                old(self)@.top - value@.len(),
                value@,
            ),
            value@.len() > old(self)@.top ==> (r matches Err(e) && e.kind is Memory)
                && final(self)@ == old(self)@,
    {
        let n = value.len();
        if n <= self.top {
            let ghost b0 = self.stack@;
            let new_top = self.top - n;
            self.top = new_top;
            let mut i: usize = 0;
            while i < n
                invariant
                    i <= n,
                    n == value@.len(),
                    self.top == new_top,
                    new_top + n <= self.stack@.len(),
                    new_top + n <= usize::MAX,
                    self.stack@.len() == b0.len(),
                    forall|j: int|
                        0 <= j < b0.len() ==> self.stack@[j] == (if new_top <= j < new_top + i {
                            value@[j - new_top]
                        } else {
                            b0[j]
                        }),
                decreases n - i,
            {
                let t = new_top + i;
                self.stack[t] = value[i];
                i = i + 1;
            }
            proof {
                assert(self.stack@ =~= splice_bytes(b0, new_top as int, value@));
            }
            Ok(())
        } else {
            Err(memory_err())
        }
    }

    /// Pops one byte: reads the byte at the cursor and increments it. Fails
    /// with a `Memory` error when the cursor equals the capacity (empty).
    pub fn pop(&mut self) -> (r: Result<u8, Error>)
        requires
            old(self).wf(),
        ensures
            final(self).wf(),
            old(self)@.can_pop() ==> r == Ok::<u8, Error>(old(self)@.top_byte()) && final(self)@
                == old(self)@.popped(),
            !old(self)@.can_pop() ==> (r matches Err(e) && e.kind is Memory) && final(self)@
                == old(self)@,
    {
        if self.top < self.stack.len() {
            let value = self.stack[self.top];
            self.top = self.top + 1;
            Ok(value)
        } else {
            Err(memory_err())
        }
    }

    /// Checked byte access: `Some` exactly for indices inside the buffer.
    pub fn get(&self, index: usize) -> (r: Option<&u8>)
        ensures
            index < self@.bytes.len() ==> (r matches Some(b) && *b == self@.bytes[index as int]),
            index >= self@.bytes.len() ==> r is None,
    {
        if index < self.stack.len() {
            Some(&self.stack[index])
        } else {
            None
        }
    }

    /// Plain indexed byte read for the addressing/executor layers.
    pub fn read_byte(&self, index: usize) -> (b: u8)
        requires
            index < self@.bytes.len(),
        ensures
            b == self@.bytes[index as int],
    {
        self.stack[index]
    }

    /// Plain indexed byte write for the addressing/executor layers.
    pub fn set_byte(&mut self, index: usize, value: u8)
        requires
            index < old(self)@.bytes.len(),
        ensures
            final(self)@.top == old(self)@.top,
            final(self)@.bytes == old(self)@.bytes.update(index as int, value),
    {
        self.stack[index] = value;
    }

    /// Unused capacity: the bytes below the cursor.
    pub fn unused(&self) -> (n: usize)
        ensures
            n == self@.unused(),
    {
        self.top
    }

    /// Used capacity: the bytes at and above the cursor.
    pub fn used(&self) -> (n: usize)
        requires
            self.wf(),
        ensures
            n == self@.used(),
    {
        self.stack.len() - self.top
    }

    /// The fixed capacity.
    pub fn len(&self) -> (n: usize)
        ensures
            n == self@.cap(),
    {
        self.stack.len()
    }

    /// The cursor.
    pub fn top(&self) -> (n: usize)
        ensures
            n == self@.top,
    {
        self.top
    }

    /// The whole buffer as a slice.
    pub fn as_slice(&self) -> (s: &[u8])
        ensures
            s@ == self@.bytes,
    {
        self.stack.as_slice()
    }
}

/// Law: at every observable point the split of capacity holds:
/// `unused() + used() == capacity`.
pub proof fn lemma_unused_used(s: StackModel)
    requires
        s.wf(),
    ensures
        s.unused() + s.used() == s.cap(),
{
}

/// Law: push and pop are inverses. Pushing byte `b` onto a stack with room and
/// then popping yields exactly `b` and returns the cursor to where it was.
pub proof fn lemma_push_pop(s: StackModel, b: u8)
    requires
        s.wf(),
        s.can_push(),
    ensures
        s.pushed(b).wf(),
        s.pushed(b).can_pop(),
        s.pushed(b).top_byte() == b,
        s.pushed(b).popped().top == s.top,
{
}

/// A value decodable from a fixed number of little-endian bytes.
pub trait TryFromBytes where Self: Sized {
    /// The encoded width in bytes.
    spec fn spec_width() -> nat;

    /// The value that a byte sequence of exactly the declared width decodes to.
    spec fn spec_from_bytes(bytes: Seq<u8>) -> Self;

    /// The declared width, as a run-time value.
    fn width() -> (n: usize)
        ensures
            n == Self::spec_width(),
    ;

    /// Decodes, succeeding exactly when the slice has the declared width.
    fn try_from_bytes(bytes: &[u8]) -> (r: Option<Self>)
        ensures
            r is Some <==> bytes@.len() == Self::spec_width(),
            bytes@.len() == Self::spec_width() ==> r == Some(Self::spec_from_bytes(bytes@)),
    ;
}

/// A value encodable to little-endian bytes.
pub trait IntoBytes where Self: Sized {
    /// The little-endian encoding of the value.
    spec fn spec_to_bytes(self) -> Seq<u8>;

    /// Encodes the value.
    fn into_le_bytes(self) -> (r: Vec<u8>)
        ensures
            r@ == self.spec_to_bytes(),
    ;
}

impl TryFromBytes for u8 {
    open spec fn spec_width() -> nat {
        1
    }

    open spec fn spec_from_bytes(bytes: Seq<u8>) -> u8 {
        bytes[0]
    }

    fn width() -> (n: usize)
        ensures
            n == Self::spec_width(),
    {
        1
    }

    fn try_from_bytes(bytes: &[u8]) -> (r: Option<u8>)
        ensures
            r is Some <==> bytes@.len() == Self::spec_width(),
            bytes@.len() == Self::spec_width() ==> r == Some(Self::spec_from_bytes(bytes@)),
    {
        if bytes.len() == 1 {
            Some(bytes[0])
        } else {
            None
        }
    }
}

impl TryFromBytes for u32 {
    open spec fn spec_width() -> nat {
        4
    }

    open spec fn spec_from_bytes(bytes: Seq<u8>) -> u32 {
        spec_u32_from_le_bytes(bytes)
    }

    fn width() -> (n: usize)
        ensures
            n == Self::spec_width(),
    {
        4
    }

    fn try_from_bytes(bytes: &[u8]) -> (r: Option<u32>)
        ensures
            r is Some <==> bytes@.len() == Self::spec_width(),
            bytes@.len() == Self::spec_width() ==> r == Some(Self::spec_from_bytes(bytes@)),
    {
        if bytes.len() == 4 {
            Some(u32_from_le_bytes(bytes))
        } else {
            None
        }
    }
}

impl TryFromBytes for u64 {
    open spec fn spec_width() -> nat {
        8
    }

    open spec fn spec_from_bytes(bytes: Seq<u8>) -> u64 {
        spec_u64_from_le_bytes(bytes)
    }

    fn width() -> (n: usize)
        ensures
            n == Self::spec_width(),
    {
        8
    }

    fn try_from_bytes(bytes: &[u8]) -> (r: Option<u64>)
        ensures
            r is Some <==> bytes@.len() == Self::spec_width(),
            bytes@.len() == Self::spec_width() ==> r == Some(Self::spec_from_bytes(bytes@)),
    {
        if bytes.len() == 8 {
            Some(u64_from_le_bytes(bytes))
        } else {
            None
        }
    }
}

impl IntoBytes for u32 {
    open spec fn spec_to_bytes(self) -> Seq<u8> {
        spec_u32_to_le_bytes(self)
    }

    fn into_le_bytes(self) -> (r: Vec<u8>)
        ensures
            r@ == self.spec_to_bytes(),
    {
        u32_to_le_bytes(self)
    }
}

impl IntoBytes for u64 {
    open spec fn spec_to_bytes(self) -> Seq<u8> {
        spec_u64_to_le_bytes(self)
    }

    fn into_le_bytes(self) -> (r: Vec<u8>)
        ensures
            r@ == self.spec_to_bytes(),
    {
        u64_to_le_bytes(self)
    }
}

} // verus!
