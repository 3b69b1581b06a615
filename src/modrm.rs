//! The addressing decoder: the ModRM byte, an optional SIB byte and an
//! optional displacement, and the operands they select.
use vstd::prelude::*;
use crate::machine::{Fault, Machine, MEMORY_SIZE, wrap32, sign8, sign32, wrapping_add_signed};
use crate::emulator::{
    Emulator, code8, code32, mem32, store32, get_code8, get_sign_code8, get_sign_code32,
    get_eip, set_eip, get_register32, set_register32, get_memory32, set_memory32,
};

verus! {

/// The displacement that follows the ModRM (and SIB) byte, if any.
#[derive(Clone, Copy, Debug, PartialEq, Eq, Structural)]
pub enum Displacement {
    Absent,
    Disp8(i8),
    Disp32(i32),
}

/// A decoded addressing descriptor.
#[derive(Clone, Copy, Debug, PartialEq, Eq, Structural)]
pub struct ModRM {
    /// 3: register-direct; 0: memory without displacement; 1: with an 8-bit
    /// displacement; 2: with a 32-bit displacement.
    pub modval: u8,
    /// A register operand, or the sub-operation selector in an opcode group
    /// (83 and FF), depending on the instruction.
    pub reg: u8,
    /// The base register, or the register operand in register-direct mode.
    pub rm: u8,
    /// Present when a memory operand uses a SIB byte.
    pub sib: Option<u8>,
    pub disp: Displacement,
}

impl Default for ModRM {
    /// The all-zero descriptor: mode 0, registers 0, no SIB byte, no displacement.
    fn default() -> (r: ModRM)
        ensures
            r == (ModRM { modval: 0, reg: 0, rm: 0, sib: None, disp: Displacement::Absent }),
            r.wf(),
    {
        ModRM { modval: 0, reg: 0, rm: 0, sib: None, disp: Displacement::Absent }
    }
}

pub open spec fn mod_of(b: u8) -> u8 {
    b / 64
}

pub open spec fn reg_of(b: u8) -> u8 {
    (b / 8) % 8
}

pub open spec fn rm_of(b: u8) -> u8 {
    b % 8
}

/// Whether a ModRM byte with these fields is followed by a SIB byte.
pub open spec fn needs_sib(modval: u8, rm: u8) -> bool {
    modval != 3 && rm == 4
}

/// Whether a ModRM byte with these fields is followed by a 32-bit displacement.
pub open spec fn needs_disp32(modval: u8, rm: u8) -> bool {
    (modval == 0 && rm == 5) || modval == 2
}

impl ModRM {
    /// The fields are in range and the optional parts are present exactly when
    /// the mode and base selector call for them.
    pub open spec fn wf(self) -> bool {
        &&& self.modval < 4
        &&& self.reg < 8
        &&& self.rm < 8
        &&& (self.sib is Some <==> needs_sib(self.modval, self.rm))
        &&& (self.disp is Disp32 <==> needs_disp32(self.modval, self.rm))
        &&& (self.disp is Disp8 <==> self.modval == 1)
    }

    /// The displacement as a signed number, 0 when there is none.
    pub open spec fn disp_value(self) -> int {
        match self.disp {
            Displacement::Absent => 0,
            Displacement::Disp8(d) => d as int,
            Displacement::Disp32(d) => d as int,
        }
    }
}

/// The descriptor for ModRM byte `b` followed by `sib` and displacement `disp`.
pub open spec fn descriptor(b: u8, sib: Option<u8>, disp: Displacement) -> ModRM {
    ModRM { modval: mod_of(b), reg: reg_of(b), rm: rm_of(b), sib, disp }
}

/// Decoding at the instruction pointer of `m`: the descriptor and the address
/// just past the bytes it took, or the fault for running off memory.
pub open spec fn decode_modrm(m: Machine) -> Result<(ModRM, nat), Fault> {
    match code8(m, 0) {
        Err(f) => Err(f),
        Ok(b) => {
            let sib_r = if needs_sib(mod_of(b), rm_of(b)) {
                code8(m, 1)
            } else {
                Ok(0u8)
            };
            match sib_r {
                Err(f) => Err(f),
                Ok(s) => {
                    let sib = if needs_sib(mod_of(b), rm_of(b)) {
                        Some(s)
                    } else {
                        None
                    };
                    let at = if needs_sib(mod_of(b), rm_of(b)) {
                        m.eip + 2
                    } else {
                        m.eip + 1
                    };
                    if needs_disp32(mod_of(b), rm_of(b)) {
                        match mem32(m, at as int) {
                            Err(f) => Err(f),
                            Ok(w) => Ok(
                                (
                                    descriptor(b, sib, Displacement::Disp32(sign32(w) as i32)),
                                    (at + 4) as nat,
                                ),
                            ),
                        }
                    } else if mod_of(b) == 1 {
                        match code8(m.with_eip(at as nat), 0) {
                            Err(f) => Err(f),
                            Ok(d) => Ok(
                                (
                                    descriptor(b, sib, Displacement::Disp8(sign8(d) as i8)),
                                    (at + 1) as nat,
                                ),
                            ),
                        }
                    } else {
                        Ok((descriptor(b, sib, Displacement::Absent), at as nat))
                    }
                },
            }
        },
    }
}

/// Decodes the ModRM byte at the instruction pointer and what follows it, and
/// moves the instruction pointer past them. On a fault only the instruction
/// pointer may have moved.
pub fn parse_modrm(emu: &mut Emulator) -> (r: Result<ModRM, Fault>)
    requires
        old(emu).wf(),
        old(emu)@.eip <= MEMORY_SIZE,
    ensures
        final(emu).wf(),
        final(emu)@.same_data(old(emu)@),
        final(emu)@.eip <= MEMORY_SIZE,
        match decode_modrm(old(emu)@) {
            Ok((d, e)) => r == Ok::<ModRM, Fault>(d) && d.wf() && final(emu)@.eip == e,
            Err(f) => r == Err::<ModRM, Fault>(f),
        },
{
    let ghost m0 = emu@;
    let code = match get_code8(emu, 0) {
        Ok(b) => b,
        Err(f) => return Err(f),
    };
    let modval = code / 64;
    let reg = (code / 8) % 8;
    let rm = code % 8;
    set_eip(emu, get_eip(emu) + 1);
    let mut sib: Option<u8> = None;
    if modval != 3 && rm == 4 {
        proof {
            assert(code8(emu@, 0) == code8(m0, 1));
        }
        match get_code8(emu, 0) {
            Ok(s) => {
                sib = Some(s);
            },
            Err(f) => return Err(f),
        }
        set_eip(emu, get_eip(emu) + 1);
    }
    let disp;
    if (modval == 0 && rm == 5) || modval == 2 {
        assert(code32(emu@, 0) == mem32(m0, emu@.eip as int));
        match get_sign_code32(emu, 0) {
            Ok(d) => {
                disp = Displacement::Disp32(d);
            },
            Err(f) => return Err(f),
        }
        set_eip(emu, get_eip(emu) + 4);
    } else if modval == 1 {
        assert(code8(emu@, 0) == code8(m0.with_eip(emu@.eip), 0));
        match get_sign_code8(emu, 0) {
            Ok(d) => {
                disp = Displacement::Disp8(d);
            },
            Err(f) => return Err(f),
        }
        set_eip(emu, get_eip(emu) + 1);
    } else {
        disp = Displacement::Absent;
    }
    Ok(ModRM { modval, reg, rm, sib, disp })
}

/// The address a memory operand names: the displacement alone when the mode
/// is 0 and the base selector 5, else the base register plus the displacement,
/// wrapping at 2^32. SIB forms are refused.
pub open spec fn effective_address(m: Machine, d: ModRM) -> Result<u32, Fault> {
    if d.rm == 4 {
        Err(Fault::UnsupportedAddressing { modval: d.modval, rm: d.rm })
    } else if d.modval == 0 && d.rm == 5 {
        Ok(wrap32(d.disp_value()))
    } else {
        Ok(wrap32(m.regs[d.rm as int] + d.disp_value()))
    }
}

/// The value of the r/m operand: a register in register-direct mode, else the
/// word at the effective address.
pub open spec fn rm32_value(m: Machine, d: ModRM) -> Result<u32, Fault> {
    if d.modval == 3 {
        Ok(m.regs[d.rm as int])
    } else {
        match effective_address(m, d) {
            Err(f) => Err(f),
            Ok(a) => mem32(m, a as int),
        }
    }
}

/// The machine after writing `v` to the r/m operand.
pub open spec fn with_rm32(m: Machine, d: ModRM, v: u32) -> Result<Machine, Fault> {
    if d.modval == 3 {
        Ok(m.with_reg(d.rm as int, v))
    } else {
        match effective_address(m, d) {
            Err(f) => Err(f),
            Ok(a) => store32(m, a as int, v),
        }
    }
}

/// Computes the effective address of a memory operand.
pub fn calc_memory_address(emu: &Emulator, modrm: &ModRM) -> (r: Result<u32, Fault>)
    requires
        emu.wf(),
        modrm.wf(),
        modrm.modval != 3,
    ensures
        r == effective_address(emu@, *modrm),
{
    if modrm.rm == 4 {
        return Err(Fault::UnsupportedAddressing { modval: modrm.modval, rm: modrm.rm });
    }
    let disp: i64 = match modrm.disp {
        Displacement::Absent => 0,
        Displacement::Disp8(d) => d as i64,
        Displacement::Disp32(d) => d as i64,
    };
    if modrm.modval == 0 && modrm.rm == 5 {
        Ok(wrapping_add_signed(0, disp))
    } else {
        Ok(wrapping_add_signed(get_register32(emu, modrm.rm as usize), disp))
    }
}

/// Reads the r/m operand.
pub fn get_rm32(emu: &Emulator, modrm: &ModRM) -> (r: Result<u32, Fault>)
    requires
        emu.wf(),
        modrm.wf(),
    ensures
        r == rm32_value(emu@, *modrm),
{
    if modrm.modval == 3 {
        Ok(get_register32(emu, modrm.rm as usize))
    } else {
        match calc_memory_address(emu, modrm) {
            Ok(address) => get_memory32(emu, address as usize),
            Err(f) => Err(f),
        }
    }
}

/// Writes `value` to the r/m operand; on a fault nothing changes.
pub fn set_rm32(emu: &mut Emulator, modrm: &ModRM, value: u32) -> (r: Result<(), Fault>)
    requires
        old(emu).wf(),
        modrm.wf(),
    ensures
        final(emu).wf(),
        match with_rm32(old(emu)@, *modrm, value) {
            Ok(m) => r is Ok && final(emu)@ == m,
            Err(f) => r == Err::<(), Fault>(f) && final(emu)@ == old(emu)@,
        },
{
    if modrm.modval == 3 {
        set_register32(emu, modrm.rm as usize, value);
        Ok(())
    } else {
        match calc_memory_address(emu, modrm) {
            Ok(address) => set_memory32(emu, address as usize, value),
            Err(f) => Err(f),
        }
    }
}

/// Reads the register that the `reg` field selects.
pub fn get_r32(emu: &Emulator, modrm: &ModRM) -> (r: u32)
    requires
        emu.wf(),
        modrm.wf(),
    ensures
        r == emu@.regs[modrm.reg as int],
{
    get_register32(emu, modrm.reg as usize)
}

/// Writes the register that the `reg` field selects.
pub fn set_r32(emu: &mut Emulator, modrm: &ModRM, value: u32)
    requires
        old(emu).wf(),
        modrm.wf(),
    ensures
        final(emu).wf(),
        final(emu)@ == old(emu)@.with_reg(modrm.reg as int, value),
{
    set_register32(emu, modrm.reg as usize, value);
}

} // verus!
