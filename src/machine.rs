//! The mathematical model of the CPU state and the arithmetic it is built on.
use vstd::prelude::*;

verus! {

/// Size of the flat memory: 1 MiB.
pub const MEMORY_SIZE: usize = 1048576;

/// Where a program image is loaded, and where the instruction and stack
/// pointers start.
pub const LOAD_ADDRESS: usize = 0x7c00;

pub const REGISTERS_COUNT: usize = 8;

pub const EAX: usize = 0;
pub const ECX: usize = 1;
pub const EDX: usize = 2;
pub const EBX: usize = 3;
pub const ESP: usize = 4;
pub const EBP: usize = 5;
pub const ESI: usize = 6;
pub const EDI: usize = 7;

/// The condition bits. Only the subtract family (subtract, compare) writes them.
#[derive(Clone, Copy, Debug, PartialEq, Eq, Structural)]
pub struct Flags {
    pub carry: bool,
    pub zero: bool,
    pub sign: bool,
    pub overflow: bool,
}

/// Why execution stopped before the program ended.
#[derive(Clone, Copy, Debug, PartialEq, Eq, Structural)]
pub enum Fault {
    /// No handler is registered for this opcode byte.
    UnimplementedOpcode { opcode: u8, eip: usize },
    /// The opcode names a group whose sub-operation `subcode` is not implemented.
    UnimplementedSubcode { opcode: u8, subcode: u8, eip: usize },
    /// A memory operand needs a SIB byte (scaled-index addressing), which is not supported.
    UnsupportedAddressing { modval: u8, rm: u8 },
    /// An access to the bytes starting at `address` would leave memory.
    MemoryOutOfBounds { address: usize },
}

/// The abstract CPU: registers, flags, memory and instruction pointer.
pub struct Machine {
    pub regs: Seq<u32>,
    pub flags: Flags,
    pub mem: Seq<u8>,
    pub eip: nat,
}

impl Machine {
    pub open spec fn wf(self) -> bool {
        &&& self.regs.len() == REGISTERS_COUNT
        &&& self.mem.len() == MEMORY_SIZE
    }

    pub open spec fn with_reg(self, i: int, v: u32) -> Machine {
        Machine { regs: self.regs.update(i, v), ..self }
    }

    pub open spec fn with_eip(self, eip: nat) -> Machine {
        Machine { eip, ..self }
    }

    pub open spec fn with_mem(self, mem: Seq<u8>) -> Machine {
        Machine { mem, ..self }
    }

    pub open spec fn with_flags(self, flags: Flags) -> Machine {
        Machine { flags, ..self }
    }

    /// Registers, flags and memory agree: only the instruction pointer may differ.
    pub open spec fn same_data(self, other: Machine) -> bool {
        &&& self.regs == other.regs
        &&& self.flags == other.flags
        &&& self.mem == other.mem
    }
}

/// A handler's result `r` and final state `after` agree with what the model
/// `s` says of the state `before`: on success the model's state; on a fault the
/// same fault, with registers, flags and memory untouched.
pub open spec fn outcome(r: Result<(), Fault>, before: Machine, after: Machine, s: Result<Machine, Fault>) -> bool {
    match s {
        Ok(m) => r is Ok && after == m,
        Err(f) => r == Err::<(), Fault>(f) && after.same_data(before),
    }
}

/// Reduction modulo 2^32: the value a 32-bit register holds after wraparound.
pub open spec fn wrap32(x: int) -> u32 {
    (x % 0x1_0000_0000) as u32
}

/// The signed value of a byte in two's complement.
pub open spec fn sign8(b: u8) -> int {
    if b < 0x80 { b as int } else { b - 0x100 }
}

/// The signed value of a 32-bit word in two's complement.
pub open spec fn sign32(v: u32) -> int {
    if v < 0x8000_0000 { v as int } else { v - 0x1_0000_0000 }
}

/// Whether the four bytes at `a` lie inside `mem`.
pub open spec fn in_bounds32(mem: Seq<u8>, a: int) -> bool {
    0 <= a && a + 4 <= mem.len()
}

/// The little-endian 32-bit word at `a`.
pub open spec fn read32(mem: Seq<u8>, a: int) -> u32 {
    (mem[a] + mem[a + 1] * 0x100 + mem[a + 2] * 0x1_0000 + mem[a + 3] * 0x100_0000) as u32
}

/// Byte `k` (0 is the least significant) of `v`.
pub open spec fn byte_of(v: u32, k: int) -> u8 {
    if k == 0 {
        (v % 0x100) as u8
    } else if k == 1 {
        ((v / 0x100) % 0x100) as u8
    } else if k == 2 {
        ((v / 0x1_0000) % 0x100) as u8
    } else {
        (v / 0x100_0000) as u8
    }
}

/// `mem` with `v` stored little-endian at `a`.
pub open spec fn write32(mem: Seq<u8>, a: int, v: u32) -> Seq<u8> {
    mem.update(a, byte_of(v, 0)).update(a + 1, byte_of(v, 1)).update(a + 2, byte_of(v, 2)).update(
        a + 3,
        byte_of(v, 3),
    )
}

/// The flags that `a - b` leaves: borrow, zero result, negative result, signed overflow.
pub open spec fn sub_flags(a: u32, b: u32) -> Flags {
    let r = wrap32(a - b);
    Flags {
        carry: a < b,
        zero: r == 0,
        sign: r >= 0x8000_0000,
        overflow: (a >= 0x8000_0000) != (b >= 0x8000_0000) && (r >= 0x8000_0000) != (a
            >= 0x8000_0000),
    }
}

/// `base + d` reduced modulo 2^32.
pub fn wrapping_add_signed(base: u32, d: i64) -> (r: u32)
    requires
        -0x1_0000_0000 < d < 0x1_0000_0000,
    ensures
        r == wrap32(base + d),
{
    let s: i64 = base as i64 + d;
    if s < 0 {
        assert((s + 0x1_0000_0000) % 0x1_0000_0000 == s % 0x1_0000_0000);
        (s + 0x1_0000_0000) as u32
    } else if s >= 0x1_0000_0000 {
        assert((s - 0x1_0000_0000) % 0x1_0000_0000 == s % 0x1_0000_0000);
        (s - 0x1_0000_0000) as u32
    } else {
        s as u32
    }
}

/// Storing a word and reading it back at the same address gives the word again,
/// with its least significant byte at the lowest address.
pub proof fn lemma_memory_round_trip(mem: Seq<u8>, a: int, v: u32)
    requires
        in_bounds32(mem, a),
    ensures
        read32(write32(mem, a, v), a) == v,
        write32(mem, a, v)[a] == v % 0x100,
        write32(mem, a, v).len() == mem.len(),
        forall|j: int| 0 <= j < mem.len() && !(a <= j < a + 4) ==> #[trigger] write32(mem, a, v)[j] == mem[j],
{
    let m = write32(mem, a, v);
    assert(m[a] == byte_of(v, 0));
    assert(m[a + 1] == byte_of(v, 1));
    assert(m[a + 2] == byte_of(v, 2));
    assert(m[a + 3] == byte_of(v, 3));
    lemma_bytes_recompose(v);
}

pub proof fn lemma_bytes_recompose(v: u32)
    ensures
        byte_of(v, 0) + byte_of(v, 1) * 0x100 + byte_of(v, 2) * 0x1_0000 + byte_of(v, 3) * 0x100_0000
            == v,
{
    assert(v % 0x100 + ((v / 0x100) % 0x100) * 0x100 + ((v / 0x1_0000) % 0x100) * 0x1_0000 + (v
        / 0x100_0000) * 0x100_0000 == v) by (bit_vector);
}

/// Writing a register and reading it back gives the value written.
pub proof fn lemma_register_round_trip(m: Machine, i: int, v: u32)
    requires
        m.wf(),
        0 <= i < REGISTERS_COUNT,
    ensures
        m.with_reg(i, v).regs[i] == v,
        m.with_reg(i, v).wf(),
{
}

} // verus!
