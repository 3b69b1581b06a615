//! The stack and the condition flags.
use vstd::prelude::*;
use crate::machine::{
    Fault, Flags, Machine, ESP, wrap32, sub_flags, wrapping_add_signed, lemma_memory_round_trip,
};
use crate::emulator::{
    Emulator, mem32, store32, get_register32, set_register32, get_memory32, set_memory32,
    get_flags, set_flags,
};

verus! {

/// Pushing `v`: the stack pointer moves down by 4 (wrapping) and `v` is
/// stored at the new top.
pub open spec fn push_spec(m: Machine, v: u32) -> Result<Machine, Fault> {
    let sp = wrap32(m.regs[ESP as int] - 4);
    match store32(m, sp as int, v) {
        Err(f) => Err(f),
        Ok(m1) => Ok(m1.with_reg(ESP as int, sp)),
    }
}

/// Popping: the word at the top, and the state with the stack pointer moved
/// up by 4 (wrapping).
pub open spec fn pop_spec(m: Machine) -> Result<(u32, Machine), Fault> {
    let sp = m.regs[ESP as int];
    match mem32(m, sp as int) {
        Err(f) => Err(f),
        Ok(v) => Ok((v, m.with_reg(ESP as int, wrap32(sp + 4)))),
    }
}

/// Pushes `value` onto the stack; on a fault nothing changes.
pub fn push32(emu: &mut Emulator, value: u32) -> (r: Result<(), Fault>)
    requires
        old(emu).wf(),
    ensures
        final(emu).wf(),
        match push_spec(old(emu)@, value) {
            Ok(m) => r is Ok && final(emu)@ == m,
            Err(f) => r == Err::<(), Fault>(f) && final(emu)@ == old(emu)@,
        },
{
    let sp = wrapping_add_signed(get_register32(emu, ESP), -4);
    match set_memory32(emu, sp as usize, value) {
        Ok(()) => {
            set_register32(emu, ESP, sp);
            Ok(())
        },
        Err(f) => Err(f),
    }
}

/// Pops a word off the stack; on a fault nothing changes.
pub fn pop32(emu: &mut Emulator) -> (r: Result<u32, Fault>)
    requires
        old(emu).wf(),
    ensures
        final(emu).wf(),
        match pop_spec(old(emu)@) {
            Ok((v, m)) => r == Ok::<u32, Fault>(v) && final(emu)@ == m,
            Err(f) => r == Err::<u32, Fault>(f) && final(emu)@ == old(emu)@,
        },
{
    let sp = get_register32(emu, ESP);
    match get_memory32(emu, sp as usize) {
        Ok(v) => {
            set_register32(emu, ESP, wrapping_add_signed(sp, 4));
            Ok(v)
        },
        Err(f) => Err(f),
    }
}

/// The flags of `v1 - v2`.
pub fn flags_sub(v1: u32, v2: u32) -> (r: Flags)
    ensures
        r == sub_flags(v1, v2),
{
    let result = wrapping_add_signed(v1, -(v2 as i64));
    let sign1 = v1 >= 0x8000_0000;
    let sign2 = v2 >= 0x8000_0000;
    let signr = result >= 0x8000_0000;
    Flags { carry: v1 < v2, zero: result == 0, sign: signr, overflow: sign1 != sign2 && sign1 != signr }
}

/// Sets the flags from the subtraction `v1 - v2`.
pub fn update_eflags_sub(emu: &mut Emulator, v1: u32, v2: u32)
    requires
        old(emu).wf(),
    ensures
        final(emu).wf(),
        final(emu)@ == old(emu)@.with_flags(sub_flags(v1, v2)),
{
    set_flags(emu, flags_sub(v1, v2));
}

pub fn is_carry(emu: &Emulator) -> (r: bool)
    ensures
        r == emu@.flags.carry,
{
    get_flags(emu).carry
}

pub fn is_zero(emu: &Emulator) -> (r: bool)
    ensures
        r == emu@.flags.zero,
{
    get_flags(emu).zero
}

pub fn is_sign(emu: &Emulator) -> (r: bool)
    ensures
        r == emu@.flags.sign,
{
    get_flags(emu).sign
}

pub fn is_overflow(emu: &Emulator) -> (r: bool)
    ensures
        r == emu@.flags.overflow,
{
    get_flags(emu).overflow
}

/// Pushing a word and popping right after gives the word back and restores the
/// stack pointer (and every other register) to its value before the push.
pub proof fn lemma_push_pop(m: Machine, v: u32)
    requires
        m.wf(),
        push_spec(m, v) is Ok,
    ensures
        pop_spec(push_spec(m, v)->Ok_0) is Ok,
        pop_spec(push_spec(m, v)->Ok_0)->Ok_0.0 == v,
        pop_spec(push_spec(m, v)->Ok_0)->Ok_0.1.regs[ESP as int] == m.regs[ESP as int],
        pop_spec(push_spec(m, v)->Ok_0)->Ok_0.1.regs == m.regs,
{
    let esp = m.regs[ESP as int];
    let sp = wrap32(esp - 4);
    lemma_memory_round_trip(m.mem, sp as int, v);
    lemma_wrap_back(esp);
    let m1 = push_spec(m, v)->Ok_0;
    let m2 = pop_spec(m1)->Ok_0.1;
    assert(m2.regs =~= m.regs);
}

/// Moving a 32-bit stack pointer down by 4 and back up gives it back.
pub proof fn lemma_wrap_back(esp: u32)
    ensures
        wrap32(wrap32(esp - 4) + 4) == esp,
{
    if esp >= 4 {
        assert(wrap32(esp - 4) == esp - 4);
    } else {
        assert((esp - 4) % 0x1_0000_0000 == esp - 4 + 0x1_0000_0000);
        assert((esp + 0x1_0000_0000int) % 0x1_0000_0000 == esp);
    }
}

} // verus!
