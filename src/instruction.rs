//! The instruction handlers. Each one starts with the instruction pointer on
//! its opcode byte (the group handlers' sub-operations on the byte after the
//! addressing bytes) and leaves it on the next instruction, or on the target of
//! a control transfer.
use vstd::prelude::*;
use crate::machine::{
    Fault, Machine, MEMORY_SIZE, ESP, EBP, outcome, wrap32, sign8, sign32, sub_flags,
    wrapping_add_signed,
};
use crate::emulator::{
    Emulator, code8, code32, mem32, get_code8, get_sign_code8, get_code32, get_sign_code32,
    get_eip, set_eip, get_register32, set_register32, get_memory32,
};
use crate::modrm::{
    ModRM, decode_modrm, rm32_value, with_rm32, parse_modrm, get_rm32, set_rm32, get_r32, set_r32,
};
use crate::function::{
    push_spec, pop_spec, push32, pop32, update_eflags_sub, is_carry, is_zero, is_sign, is_overflow,
};

verus! {

/// Decoding the addressing bytes that follow the opcode byte.
pub open spec fn decode_operand(m: Machine) -> Result<(ModRM, nat), Fault> {
    decode_modrm(m.with_eip(m.eip + 1))
}

/// The state after writing `v` to the r/m operand and moving the instruction
/// pointer to `next`.
pub open spec fn store_rm32_then(m: Machine, d: ModRM, v: u32, next: nat) -> Result<Machine, Fault> {
    match with_rm32(m, d, v) {
        Err(f) => Err(f),
        Ok(m1) => Ok(m1.with_eip(next)),
    }
}

/// MOV r32, r/m32 (8B /r).
pub open spec fn mov_r32_rm32_spec(m: Machine) -> Result<Machine, Fault> {
    match decode_operand(m) {
        Err(f) => Err(f),
        Ok((d, e)) => match rm32_value(m, d) {
            Err(f) => Err(f),
            Ok(v) => Ok(m.with_reg(d.reg as int, v).with_eip(e)),
        },
    }
}

/// MOV r/m32, r32 (89 /r).
pub open spec fn mov_rm32_r32_spec(m: Machine) -> Result<Machine, Fault> {
    match decode_operand(m) {
        Err(f) => Err(f),
        Ok((d, e)) => store_rm32_then(m, d, m.regs[d.reg as int], e),
    }
}

/// ADD r/m32, r32 (01 /r): wrapping, flags untouched.
pub open spec fn add_rm32_r32_spec(m: Machine) -> Result<Machine, Fault> {
    match decode_operand(m) {
        Err(f) => Err(f),
        Ok((d, e)) => match rm32_value(m, d) {
            Err(f) => Err(f),
            Ok(v) => store_rm32_then(m, d, wrap32(v + m.regs[d.reg as int]), e),
        },
    }
}

/// CMP r32, r/m32 (3B /r): flags of r32 - r/m32, nothing stored.
pub open spec fn cmp_r32_rm32_spec(m: Machine) -> Result<Machine, Fault> {
    match decode_operand(m) {
        Err(f) => Err(f),
        Ok((d, e)) => match rm32_value(m, d) {
            Err(f) => Err(f),
            Ok(v) => Ok(m.with_flags(sub_flags(m.regs[d.reg as int], v)).with_eip(e)),
        },
    }
}

/// MOV r/m32, imm32 (C7 /0 id).
pub open spec fn mov_rm32_imm32_spec(m: Machine) -> Result<Machine, Fault> {
    match decode_operand(m) {
        Err(f) => Err(f),
        Ok((d, e)) => match mem32(m, e as int) {
            Err(f) => Err(f),
            Ok(imm) => store_rm32_then(m, d, imm, e + 4),
        },
    }
}

/// ADD r/m32, imm8 (83 /0 ib), with the immediate at the instruction pointer:
/// adds the sign-extended immediate, wrapping, flags untouched.
pub open spec fn add_rm32_imm8_spec(m: Machine, d: ModRM) -> Result<Machine, Fault> {
    match rm32_value(m, d) {
        Err(f) => Err(f),
        Ok(v) => match code8(m, 0) {
            Err(f) => Err(f),
            Ok(i) => store_rm32_then(m, d, wrap32(v + sign8(i)), m.eip + 1),
        },
    }
}

/// SUB r/m32, imm8 (83 /5 ib): subtracts the sign-extended immediate, stores
/// the result and sets the flags.
pub open spec fn sub_rm32_imm8_spec(m: Machine, d: ModRM) -> Result<Machine, Fault> {
    match rm32_value(m, d) {
        Err(f) => Err(f),
        Ok(v) => match code8(m, 0) {
            Err(f) => Err(f),
            Ok(i) => {
                let imm = wrap32(sign8(i));
                match with_rm32(m, d, wrap32(v - imm)) {
                    Err(f) => Err(f),
                    Ok(m1) => Ok(m1.with_flags(sub_flags(v, imm)).with_eip(m.eip + 1)),
                }
            },
        },
    }
}

/// CMP r/m32, imm8 (83 /7 ib): sets the flags of the subtraction of the
/// sign-extended immediate, stores nothing.
pub open spec fn cmp_rm32_imm8_spec(m: Machine, d: ModRM) -> Result<Machine, Fault> {
    match rm32_value(m, d) {
        Err(f) => Err(f),
        Ok(v) => match code8(m, 0) {
            Err(f) => Err(f),
            Ok(i) => Ok(m.with_flags(sub_flags(v, wrap32(sign8(i)))).with_eip(m.eip + 1)),
        },
    }
}

/// INC r/m32 (FF /0): wrapping, flags untouched.
pub open spec fn inc_rm32_spec(m: Machine, d: ModRM) -> Result<Machine, Fault> {
    match rm32_value(m, d) {
        Err(f) => Err(f),
        Ok(v) => with_rm32(m, d, wrap32(v + 1)),
    }
}

/// Group 83: the sub-operation is chosen by the `reg` field.
pub open spec fn code_83_spec(m: Machine) -> Result<Machine, Fault> {
    match decode_operand(m) {
        Err(f) => Err(f),
        Ok((d, e)) => {
            let m1 = m.with_eip(e);
            if d.reg == 0 {
                add_rm32_imm8_spec(m1, d)
            } else if d.reg == 5 {
                sub_rm32_imm8_spec(m1, d)
            } else if d.reg == 7 {
                cmp_rm32_imm8_spec(m1, d)
            } else {
                Err(Fault::UnimplementedSubcode { opcode: 0x83, subcode: d.reg, eip: m.eip as usize })
            }
        },
    }
}

/// Group FF: only the increment (sub-operation 0) is implemented.
pub open spec fn code_ff_spec(m: Machine) -> Result<Machine, Fault> {
    match decode_operand(m) {
        Err(f) => Err(f),
        Ok((d, e)) => {
            if d.reg == 0 {
                inc_rm32_spec(m.with_eip(e), d)
            } else {
                Err(Fault::UnimplementedSubcode { opcode: 0xFF, subcode: d.reg, eip: m.eip as usize })
            }
        },
    }
}

/// Moves the instruction pointer past the opcode byte.
fn skip_opcode(emu: &mut Emulator)
    requires
        old(emu).wf(),
        old(emu)@.eip < MEMORY_SIZE,
    ensures
        final(emu).wf(),
        final(emu)@ == old(emu)@.with_eip(old(emu)@.eip + 1),
{
    set_eip(emu, get_eip(emu) + 1);
}

/// MOV r32, r/m32 (8B /r): Move r/m32 to r32.
pub fn mov_r32_rm32(emu: &mut Emulator) -> (r: Result<(), Fault>)
    requires
        old(emu).wf(),
        old(emu)@.eip < MEMORY_SIZE,
    ensures
        final(emu).wf(),
        outcome(r, old(emu)@, final(emu)@, mov_r32_rm32_spec(old(emu)@)),
{
    skip_opcode(emu);
    let modrm = parse_modrm(emu)?;
    let rm32 = get_rm32(emu, &modrm)?;
    set_r32(emu, &modrm, rm32);
    Ok(())
}

/// MOV r/m32, r32 (89 /r): Move r32 to r/m32.
pub fn mov_rm32_r32(emu: &mut Emulator) -> (r: Result<(), Fault>)
    requires
        old(emu).wf(),
        old(emu)@.eip < MEMORY_SIZE,
    ensures
        final(emu).wf(),
        outcome(r, old(emu)@, final(emu)@, mov_rm32_r32_spec(old(emu)@)),
{
    skip_opcode(emu);
    let modrm = parse_modrm(emu)?;
    let r32 = get_r32(emu, &modrm);
    set_rm32(emu, &modrm, r32)
}

/// ADD r/m32, r32 (01 /r): Add r32 to r/m32.
pub fn add_rm32_r32(emu: &mut Emulator) -> (r: Result<(), Fault>)
    requires
        old(emu).wf(),
        old(emu)@.eip < MEMORY_SIZE,
    ensures
        final(emu).wf(),
        outcome(r, old(emu)@, final(emu)@, add_rm32_r32_spec(old(emu)@)),
{
    skip_opcode(emu);
    let modrm = parse_modrm(emu)?;
    let r32 = get_r32(emu, &modrm);
    let rm32 = get_rm32(emu, &modrm)?;
    set_rm32(emu, &modrm, wrapping_add_signed(rm32, r32 as i64))
}

/// CMP r32, r/m32 (3B /r): Compare r/m32 with r32. The dispatch table does
/// not register byte 3B; callers invoke this handler directly.
pub fn cmp_r32_rm32(emu: &mut Emulator) -> (r: Result<(), Fault>)
    requires
        old(emu).wf(),
        old(emu)@.eip < MEMORY_SIZE,
    ensures
        final(emu).wf(),
        outcome(r, old(emu)@, final(emu)@, cmp_r32_rm32_spec(old(emu)@)),
{
    skip_opcode(emu);
    let modrm = parse_modrm(emu)?;
    let r32 = get_r32(emu, &modrm);
    let rm32 = get_rm32(emu, &modrm)?;
    update_eflags_sub(emu, r32, rm32);
    Ok(())
}

/// MOV r/m32, imm32 (C7 /0 id): Move imm32 to r/m32.
pub fn mov_rm32_imm32(emu: &mut Emulator) -> (r: Result<(), Fault>)
    requires
        old(emu).wf(),
        old(emu)@.eip < MEMORY_SIZE,
    ensures
        final(emu).wf(),
        outcome(r, old(emu)@, final(emu)@, mov_rm32_imm32_spec(old(emu)@)),
{
    skip_opcode(emu);
    let modrm = parse_modrm(emu)?;
    let value = get_code32(emu, 0)?;
    set_eip(emu, get_eip(emu) + 4);
    set_rm32(emu, &modrm, value)
}

/// ADD r/m32, imm8 (83 /0 ib): Add sign-extended imm8 to r/m32.
pub fn add_rm32_imm8(emu: &mut Emulator, modrm: &ModRM) -> (r: Result<(), Fault>)
    requires
        old(emu).wf(),
        old(emu)@.eip <= MEMORY_SIZE,
        modrm.wf(),
    ensures
        final(emu).wf(),
        outcome(r, old(emu)@, final(emu)@, add_rm32_imm8_spec(old(emu)@, *modrm)),
{
    let rm32 = get_rm32(emu, modrm)?;
    let imm8 = get_sign_code8(emu, 0)?;
    set_eip(emu, get_eip(emu) + 1);
    set_rm32(emu, modrm, wrapping_add_signed(rm32, imm8 as i64))
}

/// SUB r/m32, imm8 (83 /5 ib): Subtract sign-extended imm8 from r/m32.
pub fn sub_rm32_imm8(emu: &mut Emulator, modrm: &ModRM) -> (r: Result<(), Fault>)
    requires
        old(emu).wf(),
        old(emu)@.eip <= MEMORY_SIZE,
        modrm.wf(),
    ensures
        final(emu).wf(),
        outcome(r, old(emu)@, final(emu)@, sub_rm32_imm8_spec(old(emu)@, *modrm)),
{
    let rm32 = get_rm32(emu, modrm)?;
    let imm8 = wrapping_add_signed(0, get_sign_code8(emu, 0)? as i64);
    set_eip(emu, get_eip(emu) + 1);
    set_rm32(emu, modrm, wrapping_add_signed(rm32, -(imm8 as i64)))?;
    update_eflags_sub(emu, rm32, imm8);
    Ok(())
}

/// CMP r/m32, imm8 (83 /7 ib): Compare imm8 with r/m32.
pub fn cmp_rm32_imm8(emu: &mut Emulator, modrm: &ModRM) -> (r: Result<(), Fault>)
    requires
        old(emu).wf(),
        old(emu)@.eip <= MEMORY_SIZE,
        modrm.wf(),
    ensures
        final(emu).wf(),
        outcome(r, old(emu)@, final(emu)@, cmp_rm32_imm8_spec(old(emu)@, *modrm)),
{
    let rm32 = get_rm32(emu, modrm)?;
    let imm8 = wrapping_add_signed(0, get_sign_code8(emu, 0)? as i64);
    set_eip(emu, get_eip(emu) + 1);
    update_eflags_sub(emu, rm32, imm8);
    Ok(())
}

/// INC r/m32 (FF /0): Increment r/m doubleword by 1.
pub fn inc_rm32(emu: &mut Emulator, modrm: &ModRM) -> (r: Result<(), Fault>)
    requires
        old(emu).wf(),
        modrm.wf(),
    ensures
        final(emu).wf(),
        outcome(r, old(emu)@, final(emu)@, inc_rm32_spec(old(emu)@, *modrm)),
{
    let value = get_rm32(emu, modrm)?;
    set_rm32(emu, modrm, wrapping_add_signed(value, 1))
}

/// Group 83: ADD, SUB or CMP of r/m32 with a sign-extended imm8.
pub fn code_83(emu: &mut Emulator) -> (r: Result<(), Fault>)
    requires
        old(emu).wf(),
        old(emu)@.eip < MEMORY_SIZE,
    ensures
        final(emu).wf(),
        outcome(r, old(emu)@, final(emu)@, code_83_spec(old(emu)@)),
{
    let start = get_eip(emu);
    skip_opcode(emu);
    let modrm = parse_modrm(emu)?;
    if modrm.reg == 0 {
        add_rm32_imm8(emu, &modrm)
    } else if modrm.reg == 5 {
        sub_rm32_imm8(emu, &modrm)
    } else if modrm.reg == 7 {
        cmp_rm32_imm8(emu, &modrm)
    } else {
        Err(Fault::UnimplementedSubcode { opcode: 0x83, subcode: modrm.reg, eip: start })
    }
}

/// Group FF: INC r/m32.
pub fn code_ff(emu: &mut Emulator) -> (r: Result<(), Fault>)
    requires
        old(emu).wf(),
        old(emu)@.eip < MEMORY_SIZE,
    ensures
        final(emu).wf(),
        outcome(r, old(emu)@, final(emu)@, code_ff_spec(old(emu)@)),
{
    let start = get_eip(emu);
    skip_opcode(emu);
    let modrm = parse_modrm(emu)?;
    if modrm.reg == 0 {
        inc_rm32(emu, &modrm)
    } else {
        Err(Fault::UnimplementedSubcode { opcode: 0xFF, subcode: modrm.reg, eip: start })
    }
}

/// A short conditional jump (70-7F): on `taken`, to the byte after the
/// instruction plus the signed 8-bit displacement; else to the next instruction.
pub open spec fn jcc_spec(m: Machine, taken: bool) -> Result<Machine, Fault> {
    if taken {
        short_jump_spec(m)
    } else {
        Ok(m.with_eip(m.eip + 2))
    }
}

/// JMP rel8 (EB cb).
pub open spec fn short_jump_spec(m: Machine) -> Result<Machine, Fault> {
    match code8(m, 1) {
        Err(f) => Err(f),
        Ok(d) => Ok(m.with_eip(wrap32(m.eip + 2 + sign8(d)) as nat)),
    }
}

/// JMP rel32 (E9 cd).
pub open spec fn near_jump_spec(m: Machine) -> Result<Machine, Fault> {
    match code32(m, 1) {
        Err(f) => Err(f),
        Ok(w) => Ok(m.with_eip(wrap32(m.eip + 5 + sign32(w)) as nat)),
    }
}

/// MOV r32, imm32 (B8+r id).
pub open spec fn mov_r32_imm32_spec(m: Machine) -> Result<Machine, Fault> {
    match code32(m, 1) {
        Err(f) => Err(f),
        Ok(w) => Ok(m.with_reg(m.mem[m.eip as int] - 0xB8, w).with_eip(m.eip + 5)),
    }
}

/// The state after pushing `v`, with the instruction pointer moved to `next`.
pub open spec fn push_then(m: Machine, v: u32, next: nat) -> Result<Machine, Fault> {
    match push_spec(m, v) {
        Err(f) => Err(f),
        Ok(m1) => Ok(m1.with_eip(next)),
    }
}

/// PUSH r32 (50+r).
pub open spec fn push_r32_spec(m: Machine) -> Result<Machine, Fault> {
    push_then(m, m.regs[m.mem[m.eip as int] - 0x50], m.eip + 1)
}

/// PUSH imm32 (68 id).
pub open spec fn push_imm32_spec(m: Machine) -> Result<Machine, Fault> {
    match code32(m, 1) {
        Err(f) => Err(f),
        Ok(w) => push_then(m, w, m.eip + 5),
    }
}

/// PUSH imm8 (6A ib): the immediate byte is pushed zero-extended.
pub open spec fn push_imm8_spec(m: Machine) -> Result<Machine, Fault> {
    match code8(m, 1) {
        Err(f) => Err(f),
        Ok(b) => push_then(m, b as u32, m.eip + 2),
    }
}

/// POP r32 (58+r).
pub open spec fn pop_r32_spec(m: Machine) -> Result<Machine, Fault> {
    match pop_spec(m) {
        Err(f) => Err(f),
        Ok((v, m1)) => Ok(m1.with_reg(m.mem[m.eip as int] - 0x58, v).with_eip(m.eip + 1)),
    }
}

/// CALL rel32 (E8 cd): pushes the address of the next instruction, then jumps
/// relative to it.
pub open spec fn call_rel32_spec(m: Machine) -> Result<Machine, Fault> {
    match code32(m, 1) {
        Err(f) => Err(f),
        Ok(w) => push_then(m, wrap32(m.eip + 5int), wrap32(m.eip + 5 + sign32(w)) as nat),
    }
}

/// RET (C3): pops the return address into the instruction pointer.
pub open spec fn ret_spec(m: Machine) -> Result<Machine, Fault> {
    match pop_spec(m) {
        Err(f) => Err(f),
        Ok((v, m1)) => Ok(m1.with_eip(v as nat)),
    }
}

/// LEAVE (C9): the stack pointer takes the frame pointer, then the frame
/// pointer is popped.
pub open spec fn leave_spec(m: Machine) -> Result<Machine, Fault> {
    match pop_spec(m.with_reg(ESP as int, m.regs[EBP as int])) {
        Err(f) => Err(f),
        Ok((v, m1)) => Ok(m1.with_reg(EBP as int, v).with_eip(m.eip + 1)),
    }
}

/// Moves the instruction pointer by `len` plus the signed 8-bit displacement at
/// offset 1, wrapping at 2^32.
fn jump_rel8(emu: &mut Emulator) -> (r: Result<(), Fault>)
    requires
        old(emu).wf(),
        old(emu)@.eip < MEMORY_SIZE,
    ensures
        final(emu).wf(),
        outcome(r, old(emu)@, final(emu)@, short_jump_spec(old(emu)@)),
{
    let diff = get_sign_code8(emu, 1)?;
    let target = wrapping_add_signed(get_eip(emu) as u32, diff as i64 + 2);
    set_eip(emu, target as usize);
    Ok(())
}

/// Shared body of the conditional jumps.
fn jump_if(emu: &mut Emulator, taken: bool) -> (r: Result<(), Fault>)
    requires
        old(emu).wf(),
        old(emu)@.eip < MEMORY_SIZE,
    ensures
        final(emu).wf(),
        outcome(r, old(emu)@, final(emu)@, jcc_spec(old(emu)@, taken)),
{
    if taken {
        jump_rel8(emu)
    } else {
        set_eip(emu, get_eip(emu) + 2);
        Ok(())
    }
}

/// JO (70): Jump if overflow.
pub fn jo(emu: &mut Emulator) -> (r: Result<(), Fault>)
    requires
        old(emu).wf(),
        old(emu)@.eip < MEMORY_SIZE,
    ensures
        final(emu).wf(),
        outcome(r, old(emu)@, final(emu)@, jcc_spec(old(emu)@, old(emu)@.flags.overflow)),
{
    let taken = is_overflow(emu);
    jump_if(emu, taken)
}

/// JNO (71): Jump if not overflow.
pub fn jno(emu: &mut Emulator) -> (r: Result<(), Fault>)
    requires
        old(emu).wf(),
        old(emu)@.eip < MEMORY_SIZE,
    ensures
        final(emu).wf(),
        outcome(r, old(emu)@, final(emu)@, jcc_spec(old(emu)@, !old(emu)@.flags.overflow)),
{
    let taken = !is_overflow(emu);
    jump_if(emu, taken)
}

/// JC (72): Jump if carry.
pub fn jc(emu: &mut Emulator) -> (r: Result<(), Fault>)
    requires
        old(emu).wf(),
        old(emu)@.eip < MEMORY_SIZE,
    ensures
        final(emu).wf(),
        outcome(r, old(emu)@, final(emu)@, jcc_spec(old(emu)@, old(emu)@.flags.carry)),
{
    let taken = is_carry(emu);
    jump_if(emu, taken)
}

/// JNC (73): Jump if not carry.
pub fn jnc(emu: &mut Emulator) -> (r: Result<(), Fault>)
    requires
        old(emu).wf(),
        old(emu)@.eip < MEMORY_SIZE,
    ensures
        final(emu).wf(),
        outcome(r, old(emu)@, final(emu)@, jcc_spec(old(emu)@, !old(emu)@.flags.carry)),
{
    let taken = !is_carry(emu);
    jump_if(emu, taken)
}

/// JZ (74): Jump if zero.
pub fn jz(emu: &mut Emulator) -> (r: Result<(), Fault>)
    requires
        old(emu).wf(),
        old(emu)@.eip < MEMORY_SIZE,
    ensures
        final(emu).wf(),
        outcome(r, old(emu)@, final(emu)@, jcc_spec(old(emu)@, old(emu)@.flags.zero)),
{
    let taken = is_zero(emu);
    jump_if(emu, taken)
}

/// JNZ (75): Jump if not zero.
pub fn jnz(emu: &mut Emulator) -> (r: Result<(), Fault>)
    requires
        old(emu).wf(),
        old(emu)@.eip < MEMORY_SIZE,
    ensures
        final(emu).wf(),
        outcome(r, old(emu)@, final(emu)@, jcc_spec(old(emu)@, !old(emu)@.flags.zero)),
{
    let taken = !is_zero(emu);
    jump_if(emu, taken)
}

/// JS (78): Jump if sign.
pub fn js(emu: &mut Emulator) -> (r: Result<(), Fault>)
    requires
        old(emu).wf(),
        old(emu)@.eip < MEMORY_SIZE,
    ensures
        final(emu).wf(),
        outcome(r, old(emu)@, final(emu)@, jcc_spec(old(emu)@, old(emu)@.flags.sign)),
{
    let taken = is_sign(emu);
    jump_if(emu, taken)
}

/// JNS (79): Jump if not sign.
pub fn jns(emu: &mut Emulator) -> (r: Result<(), Fault>)
    requires
        old(emu).wf(),
        old(emu)@.eip < MEMORY_SIZE,
    ensures
        final(emu).wf(),
        outcome(r, old(emu)@, final(emu)@, jcc_spec(old(emu)@, !old(emu)@.flags.sign)),
{
    let taken = !is_sign(emu);
    jump_if(emu, taken)
}

/// JL (7C): Jump if less (SF != OF).
pub fn jl(emu: &mut Emulator) -> (r: Result<(), Fault>)
    requires
        old(emu).wf(),
        old(emu)@.eip < MEMORY_SIZE,
    ensures
        final(emu).wf(),
        outcome(
            r,
            old(emu)@,
            final(emu)@,
            jcc_spec(old(emu)@, old(emu)@.flags.sign != old(emu)@.flags.overflow),
        ),
{
    let taken = is_sign(emu) != is_overflow(emu);
    jump_if(emu, taken)
}

/// JGE (7D): Jump if greater or equal (SF == OF).
pub fn jge(emu: &mut Emulator) -> (r: Result<(), Fault>)
    requires
        old(emu).wf(),
        old(emu)@.eip < MEMORY_SIZE,
    ensures
        final(emu).wf(),
        outcome(
            r,
            old(emu)@,
            final(emu)@,
            jcc_spec(old(emu)@, old(emu)@.flags.sign == old(emu)@.flags.overflow),
        ),
{
    let taken = is_sign(emu) == is_overflow(emu);
    jump_if(emu, taken)
}

/// JLE (7E): Jump if less or equal (ZF or SF != OF).
pub fn jle(emu: &mut Emulator) -> (r: Result<(), Fault>)
    requires
        old(emu).wf(),
        old(emu)@.eip < MEMORY_SIZE,
    ensures
        final(emu).wf(),
        outcome(
            r,
            old(emu)@,
            final(emu)@,
            jcc_spec(
                old(emu)@,
                old(emu)@.flags.zero || old(emu)@.flags.sign != old(emu)@.flags.overflow,
            ),
        ),
{
    let taken = is_zero(emu) || (is_sign(emu) != is_overflow(emu));
    jump_if(emu, taken)
}

/// JG (7F): Jump if greater (not ZF and SF == OF).
pub fn jg(emu: &mut Emulator) -> (r: Result<(), Fault>)
    requires
        old(emu).wf(),
        old(emu)@.eip < MEMORY_SIZE,
    ensures
        final(emu).wf(),
        outcome(
            r,
            old(emu)@,
            final(emu)@,
            jcc_spec(
                old(emu)@,
                !old(emu)@.flags.zero && old(emu)@.flags.sign == old(emu)@.flags.overflow,
            ),
        ),
{
    let taken = !is_zero(emu) && (is_sign(emu) == is_overflow(emu));
    jump_if(emu, taken)
}

/// JMP rel8 (EB cb): Jump short, relative to the next instruction.
pub fn short_jump(emu: &mut Emulator) -> (r: Result<(), Fault>)
    requires
        old(emu).wf(),
        old(emu)@.eip < MEMORY_SIZE,
    ensures
        final(emu).wf(),
        outcome(r, old(emu)@, final(emu)@, short_jump_spec(old(emu)@)),
{
    jump_rel8(emu)
}

/// JMP rel32 (E9 cd): Jump near, relative to the next instruction.
pub fn near_jump(emu: &mut Emulator) -> (r: Result<(), Fault>)
    requires
        old(emu).wf(),
        old(emu)@.eip < MEMORY_SIZE,
    ensures
        final(emu).wf(),
        outcome(r, old(emu)@, final(emu)@, near_jump_spec(old(emu)@)),
{
    let diff = get_sign_code32(emu, 1)?;
    let target = wrapping_add_signed(get_eip(emu) as u32, diff as i64 + 5);
    set_eip(emu, target as usize);
    Ok(())
}

/// MOV r32, imm32 (B8+r id): Move imm32 to r32.
pub fn mov_r32_imm32(emu: &mut Emulator) -> (r: Result<(), Fault>)
    requires
        old(emu).wf(),
        old(emu)@.eip < MEMORY_SIZE,
        0xB8 <= old(emu)@.mem[old(emu)@.eip as int] <= 0xBF,
    ensures
        final(emu).wf(),
        outcome(r, old(emu)@, final(emu)@, mov_r32_imm32_spec(old(emu)@)),
{
    let reg = (get_code8(emu, 0)? - 0xB8) as usize;
    let value = get_code32(emu, 1)?;
    set_register32(emu, reg, value);
    set_eip(emu, get_eip(emu) + 5);
    Ok(())
}

/// PUSH r32 (50+r).
pub fn push_r32(emu: &mut Emulator) -> (r: Result<(), Fault>)
    requires
        old(emu).wf(),
        old(emu)@.eip < MEMORY_SIZE,
        0x50 <= old(emu)@.mem[old(emu)@.eip as int] <= 0x57,
    ensures
        final(emu).wf(),
        outcome(r, old(emu)@, final(emu)@, push_r32_spec(old(emu)@)),
{
    let reg = (get_code8(emu, 0)? - 0x50) as usize;
    let value = get_register32(emu, reg);
    push32(emu, value)?;
    set_eip(emu, get_eip(emu) + 1);
    Ok(())
}

/// PUSH imm32 (68 id).
pub fn push_imm32(emu: &mut Emulator) -> (r: Result<(), Fault>)
    requires
        old(emu).wf(),
        old(emu)@.eip < MEMORY_SIZE,
    ensures
        final(emu).wf(),
        outcome(r, old(emu)@, final(emu)@, push_imm32_spec(old(emu)@)),
{
    let value = get_code32(emu, 1)?;
    push32(emu, value)?;
    set_eip(emu, get_eip(emu) + 5);
    Ok(())
}

/// PUSH imm8 (6A ib).
pub fn push_imm8(emu: &mut Emulator) -> (r: Result<(), Fault>)
    requires
        old(emu).wf(),
        old(emu)@.eip < MEMORY_SIZE,
    ensures
        final(emu).wf(),
        outcome(r, old(emu)@, final(emu)@, push_imm8_spec(old(emu)@)),
{
    let value = get_code8(emu, 1)?;
    push32(emu, value as u32)?;
    set_eip(emu, get_eip(emu) + 2);
    Ok(())
}

/// POP r32 (58+r).
pub fn pop_r32(emu: &mut Emulator) -> (r: Result<(), Fault>)
    requires
        old(emu).wf(),
        old(emu)@.eip < MEMORY_SIZE,
        0x58 <= old(emu)@.mem[old(emu)@.eip as int] <= 0x5F,
    ensures
        final(emu).wf(),
        outcome(r, old(emu)@, final(emu)@, pop_r32_spec(old(emu)@)),
{
    let reg = (get_code8(emu, 0)? - 0x58) as usize;
    let value = pop32(emu)?;
    set_register32(emu, reg, value);
    set_eip(emu, get_eip(emu) + 1);
    Ok(())
}

/// CALL rel32 (E8 cd): Call near, relative to the next instruction.
pub fn call_rel32(emu: &mut Emulator) -> (r: Result<(), Fault>)
    requires
        old(emu).wf(),
        old(emu)@.eip < MEMORY_SIZE,
    ensures
        final(emu).wf(),
        outcome(r, old(emu)@, final(emu)@, call_rel32_spec(old(emu)@)),
{
    let diff = get_sign_code32(emu, 1)?;
    let eip = get_eip(emu) as u32;
    push32(emu, eip + 5)?;
    set_eip(emu, wrapping_add_signed(eip, diff as i64 + 5) as usize);
    Ok(())
}

/// RET (C3): Return from a near call.
pub fn ret(emu: &mut Emulator) -> (r: Result<(), Fault>)
    requires
        old(emu).wf(),
    ensures
        final(emu).wf(),
        outcome(r, old(emu)@, final(emu)@, ret_spec(old(emu)@)),
{
    let address = pop32(emu)?;
    set_eip(emu, address as usize);
    Ok(())
}

/// LEAVE (C9): Release the stack frame.
pub fn leave(emu: &mut Emulator) -> (r: Result<(), Fault>)
    requires
        old(emu).wf(),
        old(emu)@.eip < MEMORY_SIZE,
    ensures
        final(emu).wf(),
        outcome(r, old(emu)@, final(emu)@, leave_spec(old(emu)@)),
{
    let ghost m0 = emu@;
    let ebp = get_register32(emu, EBP);
    let value = get_memory32(emu, ebp as usize)?;
    set_register32(emu, ESP, wrapping_add_signed(ebp, 4));
    set_register32(emu, EBP, value);
    set_eip(emu, get_eip(emu) + 1);
    proof {
        let sp = wrap32(ebp + 4);
        assert(m0.regs.update(ESP as int, ebp).update(ESP as int, sp).update(EBP as int, value)
            =~= emu@.regs);
    }
    Ok(())
}

/// The handler of opcode bytes that have no meaning here: it changes nothing.
pub fn nop(emu: &mut Emulator)
    ensures
        *final(emu) == *old(emu),
{
}

} // verus!
