//! The emulator state and its bounds-checked accessors. Every read or write of
//! the state goes through the functions here.
use vstd::prelude::*;
use crate::machine::{
    Flags, Fault, Machine, MEMORY_SIZE, LOAD_ADDRESS, REGISTERS_COUNT, ESP, in_bounds32, read32,
    write32, sign8, sign32, lemma_memory_round_trip,
};

verus! {

/// The state of one emulated CPU.
pub struct Emulator {
    regs: [u32; REGISTERS_COUNT],
    eflags: Flags,
    mem: Vec<u8>,
    eip: usize,
}

impl View for Emulator {
    type V = Machine;

    closed spec fn view(&self) -> Machine {
        Machine { regs: self.regs@, flags: self.eflags, mem: self.mem@, eip: self.eip as nat }
    }
}

impl Emulator {
    pub open spec fn wf(&self) -> bool {
        self@.wf()
    }
}

/// The byte at `index` past the instruction pointer, or the fault for leaving memory.
pub open spec fn code8(m: Machine, index: int) -> Result<u8, Fault> {
    let a = m.eip + index;
    if a < m.mem.len() {
        Ok(m.mem[a])
    } else {
        Err(Fault::MemoryOutOfBounds { address: a as usize })
    }
}

/// The little-endian word at `a`, or the fault for leaving memory.
pub open spec fn mem32(m: Machine, a: int) -> Result<u32, Fault> {
    if in_bounds32(m.mem, a) {
        Ok(read32(m.mem, a))
    } else {
        Err(Fault::MemoryOutOfBounds { address: a as usize })
    }
}

/// The word at `index` past the instruction pointer.
pub open spec fn code32(m: Machine, index: int) -> Result<u32, Fault> {
    mem32(m, m.eip + index)
}

/// The machine after storing `v` at `a`, or the fault for leaving memory.
pub open spec fn store32(m: Machine, a: int, v: u32) -> Result<Machine, Fault> {
    if in_bounds32(m.mem, a) {
        Ok(m.with_mem(write32(m.mem, a, v)))
    } else {
        Err(Fault::MemoryOutOfBounds { address: a as usize })
    }
}

/// The state after reset: zeroed registers but the stack pointer, clear flags,
/// zeroed memory, and the given instruction pointer.
pub open spec fn initial_machine(eip: usize, esp: u32) -> Machine {
    Machine {
        regs: Seq::new(REGISTERS_COUNT as nat, |i: int| 0u32).update(ESP as int, esp),
        flags: Flags { carry: false, zero: false, sign: false, overflow: false },
        mem: Seq::new(MEMORY_SIZE as nat, |i: int| 0u8),
        eip: eip as nat,
    }
}

/// A CPU with the instruction pointer at `eip`, the stack pointer at `esp`,
/// everything else zero, and 1 MiB of zeroed memory.
pub fn create_emu(eip: usize, esp: u32) -> (r: Emulator)
    ensures
        r.wf(),
        r@ == initial_machine(eip, esp),
{
    let mut registers: [u32; REGISTERS_COUNT] = [0u32; REGISTERS_COUNT];
    registers[ESP] = esp;
    let memory: Vec<u8> = vec![0u8; MEMORY_SIZE];
    let r = Emulator {
        regs: registers,
        eflags: Flags { carry: false, zero: false, sign: false, overflow: false },
        mem: memory,
        eip: eip,
    };
    assert(r@.regs =~= initial_machine(eip, esp).regs);
    assert(r@.mem =~= initial_machine(eip, esp).mem);
    r
}

/// Memory after copying `image` to the load address.
pub open spec fn loaded(mem: Seq<u8>, image: Seq<u8>) -> Seq<u8> {
    Seq::new(
        mem.len(),
        |j: int|
            if LOAD_ADDRESS <= j < LOAD_ADDRESS + image.len() {
                image[j - LOAD_ADDRESS]
            } else {
                mem[j]
            },
    )
}

/// Memory of the given size holding zeros.
pub open spec fn zeroed(len: nat) -> Seq<u8> {
    Seq::new(len, |j: int| 0u8)
}

/// Rebuilds memory as zeros with the program image copied to the load
/// address. Returns the image's length, or `None`, leaving the state
/// untouched, when the image does not fit in memory.
pub fn load_binary(emu: &mut Emulator, image: &Vec<u8>) -> (r: Option<usize>)
    requires
        old(emu).wf(),
    ensures
        final(emu).wf(),
        image@.len() <= MEMORY_SIZE - LOAD_ADDRESS ==> r == Some(image@.len() as usize)
            && final(emu)@ == old(emu)@.with_mem(loaded(zeroed(MEMORY_SIZE as nat), image@)),
        image@.len() > MEMORY_SIZE - LOAD_ADDRESS ==> r is None && final(emu)@ == old(emu)@,
{
    if image.len() > MEMORY_SIZE - LOAD_ADDRESS {
        return None;
    }
    emu.mem = vec![0u8; MEMORY_SIZE];
    let mut i: usize = 0;
    while i < image.len()
        invariant
            i <= image@.len() <= MEMORY_SIZE - LOAD_ADDRESS,
            emu.wf(),
            emu.regs@ == old(emu).regs@,
            emu.eflags == old(emu).eflags,
            emu.eip == old(emu).eip,
            forall|j: int|
                0 <= j < MEMORY_SIZE ==> #[trigger] emu.mem@[j] == if LOAD_ADDRESS <= j < LOAD_ADDRESS
                    + i { image@[j - LOAD_ADDRESS] } else { 0u8 },
        decreases image@.len() - i,
    {
        emu.mem.set(LOAD_ADDRESS + i, image[i]);
        i = i + 1;
    }
    assert(emu.mem@ =~= loaded(zeroed(MEMORY_SIZE as nat), image@));
    Some(image.len())
}

/// The instruction pointer.
pub fn get_eip(emu: &Emulator) -> (r: usize)
    ensures
        r == emu@.eip,
{
    emu.eip
}

/// Moves the instruction pointer to `eip`.
pub fn set_eip(emu: &mut Emulator, eip: usize)
    requires
        old(emu).wf(),
    ensures
        final(emu).wf(),
        final(emu)@ == old(emu)@.with_eip(eip as nat),
{
    emu.eip = eip;
}

/// The condition flags.
pub fn get_flags(emu: &Emulator) -> (r: Flags)
    ensures
        r == emu@.flags,
{
    emu.eflags
}

/// Replaces the condition flags.
pub fn set_flags(emu: &mut Emulator, flags: Flags)
    requires
        old(emu).wf(),
    ensures
        final(emu).wf(),
        final(emu)@ == old(emu)@.with_flags(flags),
{
    emu.eflags = flags;
}

/// The register with number `index` (EAX, ECX, EDX, EBX, ESP, EBP, ESI, EDI).
pub fn get_register32(emu: &Emulator, index: usize) -> (r: u32)
    requires
        emu.wf(),
        index < REGISTERS_COUNT,
    ensures
        r == emu@.regs[index as int],
{
    emu.regs[index]
}

/// Writes `value` into the register with number `index`.
pub fn set_register32(emu: &mut Emulator, index: usize, value: u32)
    requires
        old(emu).wf(),
        index < REGISTERS_COUNT,
    ensures
        final(emu).wf(),
        final(emu)@ == old(emu)@.with_reg(index as int, value),
{
    emu.regs[index] = value;
}

/// The byte at `address`.
pub fn get_memory8(emu: &Emulator, address: usize) -> (r: Result<u8, Fault>)
    requires
        emu.wf(),
    ensures
        address < MEMORY_SIZE ==> r == Ok::<u8, Fault>(emu@.mem[address as int]),
        address >= MEMORY_SIZE ==> r == Err::<u8, Fault>(Fault::MemoryOutOfBounds { address }),
{
    if address < emu.mem.len() {
        Ok(emu.mem[address])
    } else {
        Err(Fault::MemoryOutOfBounds { address })
    }
}

/// The little-endian word at `address`.
pub fn get_memory32(emu: &Emulator, address: usize) -> (r: Result<u32, Fault>)
    requires
        emu.wf(),
    ensures
        r == mem32(emu@, address as int),
{
    if address < emu.mem.len() && 4 <= emu.mem.len() - address {
        let b0 = emu.mem[address] as u32;
        let b1 = emu.mem[address + 1] as u32;
        let b2 = emu.mem[address + 2] as u32;
        let b3 = emu.mem[address + 3] as u32;
        Ok(b0 + b1 * 0x100 + b2 * 0x1_0000 + b3 * 0x100_0000)
    } else {
        Err(Fault::MemoryOutOfBounds { address })
    }
}

/// Stores `value` little-endian at `address`; on a fault nothing is written.
pub fn set_memory32(emu: &mut Emulator, address: usize, value: u32) -> (r: Result<(), Fault>)
    requires
        old(emu).wf(),
    ensures
        final(emu).wf(),
        match store32(old(emu)@, address as int, value) {
            Ok(m) => r is Ok && final(emu)@ == m,
            Err(f) => r == Err::<(), Fault>(f) && final(emu)@ == old(emu)@,
        },
{
    if address < emu.mem.len() && 4 <= emu.mem.len() - address {
        emu.mem.set(address, (value % 0x100) as u8);
        emu.mem.set(address + 1, ((value / 0x100) % 0x100) as u8);
        emu.mem.set(address + 2, ((value / 0x1_0000) % 0x100) as u8);
        emu.mem.set(address + 3, (value / 0x100_0000) as u8);
        proof {
            lemma_memory_round_trip(old(emu)@.mem, address as int, value);
            assert(emu.mem@ =~= write32(old(emu)@.mem, address as int, value));
        }
        Ok(())
    } else {
        Err(Fault::MemoryOutOfBounds { address })
    }
}

/// The instruction byte at `index` past the instruction pointer.
pub fn get_code8(emu: &Emulator, index: usize) -> (r: Result<u8, Fault>)
    requires
        emu.wf(),
        emu@.eip <= MEMORY_SIZE,
        index <= 4,
    ensures
        r == code8(emu@, index as int),
{
    get_memory8(emu, emu.eip + index)
}

/// The instruction byte at `index` past the instruction pointer, read as signed.
pub fn get_sign_code8(emu: &Emulator, index: usize) -> (r: Result<i8, Fault>)
    requires
        emu.wf(),
        emu@.eip <= MEMORY_SIZE,
        index <= 4,
    ensures
        match code8(emu@, index as int) {
            Ok(b) => r is Ok && r->Ok_0 as int == sign8(b),
            Err(f) => r == Err::<i8, Fault>(f),
        },
{
    match get_code8(emu, index) {
        Ok(b) => Ok(to_signed8(b)),
        Err(f) => Err(f),
    }
}

/// The instruction word at `index` past the instruction pointer.
pub fn get_code32(emu: &Emulator, index: usize) -> (r: Result<u32, Fault>)
    requires
        emu.wf(),
        emu@.eip <= MEMORY_SIZE,
        index <= 4,
    ensures
        r == code32(emu@, index as int),
{
    get_memory32(emu, emu.eip + index)
}

/// The instruction word at `index` past the instruction pointer, read as signed.
pub fn get_sign_code32(emu: &Emulator, index: usize) -> (r: Result<i32, Fault>)
    requires
        emu.wf(),
        emu@.eip <= MEMORY_SIZE,
        index <= 4,
    ensures
        match code32(emu@, index as int) {
            Ok(v) => r is Ok && r->Ok_0 as int == sign32(v),
            Err(f) => r == Err::<i32, Fault>(f),
        },
{
    match get_code32(emu, index) {
        Ok(v) => Ok(to_signed32(v)),
        Err(f) => Err(f),
    }
}

/// A byte reinterpreted in two's complement.
pub fn to_signed8(b: u8) -> (r: i8)
    ensures
        r as int == sign8(b),
{
    if b < 0x80 {
        b as i8
    } else {
        (b as i16 - 0x100) as i8
    }
}

/// A word reinterpreted in two's complement.
pub fn to_signed32(v: u32) -> (r: i32)
    ensures
        r as int == sign32(v),
{
    if v < 0x8000_0000 {
        v as i32
    } else {
        (v as i64 - 0x1_0000_0000) as i32
    }
}

} // verus!
