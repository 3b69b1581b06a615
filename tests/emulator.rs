use x86emu::dispatch::{init_instructions, run, step, Handler, Insts, RunOutcome};
use x86emu::emulator::{
    create_emu, get_eip, get_flags, get_memory32, get_memory8, get_register32, load_binary,
    set_memory32, set_register32, Emulator,
};
use x86emu::function::{pop32, push32};
use x86emu::machine::{Fault, Flags, EAX, EBP, ECX, ESP, LOAD_ADDRESS, MEMORY_SIZE};
use x86emu::instruction::cmp_r32_rm32;
use x86emu::modrm::{parse_modrm, Displacement, ModRM};

fn boot(program: &[u8]) -> (Emulator, Insts, usize) {
    let mut emu = create_emu(LOAD_ADDRESS, LOAD_ADDRESS as u32);
    let len = load_binary(&mut emu, &program.to_vec()).expect("image fits");
    let end = LOAD_ADDRESS + len;
    let mut table: Insts = [Handler::Unimplemented; 256];
    init_instructions(&mut table);
    (emu, table, end)
}

fn no_flags() -> Flags {
    Flags { carry: false, zero: false, sign: false, overflow: false }
}

#[test]
fn register_round_trip() {
    let mut emu = create_emu(LOAD_ADDRESS, LOAD_ADDRESS as u32);
    for i in 0..8 {
        for v in [0u32, 1, 0x7fff_ffff, 0x8000_0000, 0xffff_ffff, 0x1234_5678] {
            set_register32(&mut emu, i, v);
            assert_eq!(get_register32(&emu, i), v);
        }
    }
}

#[test]
fn memory_round_trip_little_endian() {
    let mut emu = create_emu(LOAD_ADDRESS, LOAD_ADDRESS as u32);
    assert_eq!(set_memory32(&mut emu, 0x100, 0x1234_5678), Ok(()));
    assert_eq!(get_memory32(&emu, 0x100), Ok(0x1234_5678));
    assert_eq!(get_memory8(&emu, 0x100), Ok(0x78));
    assert_eq!(get_memory8(&emu, 0x101), Ok(0x56));
    assert_eq!(get_memory8(&emu, 0x102), Ok(0x34));
    assert_eq!(get_memory8(&emu, 0x103), Ok(0x12));
    let last = MEMORY_SIZE - 4;
    assert_eq!(set_memory32(&mut emu, last, 0xdead_beef), Ok(()));
    assert_eq!(get_memory32(&emu, last), Ok(0xdead_beef));
}

#[test]
fn memory_out_of_bounds_faults() {
    let mut emu = create_emu(LOAD_ADDRESS, LOAD_ADDRESS as u32);
    let addr = MEMORY_SIZE - 3;
    assert_eq!(set_memory32(&mut emu, addr, 7), Err(Fault::MemoryOutOfBounds { address: addr }));
    assert_eq!(get_memory32(&emu, addr), Err(Fault::MemoryOutOfBounds { address: addr }));
    assert_eq!(get_memory8(&emu, MEMORY_SIZE), Err(Fault::MemoryOutOfBounds { address: MEMORY_SIZE }));
}

#[test]
fn create_emu_initial_state() {
    let emu = create_emu(0x7c00, 0x7c00);
    assert_eq!(get_eip(&emu), 0x7c00);
    assert_eq!(get_register32(&emu, ESP), 0x7c00);
    assert_eq!(get_register32(&emu, EAX), 0);
    assert_eq!(get_flags(&emu), no_flags());
    assert_eq!(get_memory8(&emu, 0), Ok(0));
    assert_eq!(get_memory8(&emu, MEMORY_SIZE - 1), Ok(0));
}

#[test]
fn load_binary_places_image_at_load_address() {
    let mut emu = create_emu(LOAD_ADDRESS, LOAD_ADDRESS as u32);
    assert_eq!(set_memory32(&mut emu, 0x100, 0xFFFF_FFFF), Ok(()));
    assert_eq!(load_binary(&mut emu, &vec![0xB8, 0x01, 0x02]), Some(3));
    assert_eq!(get_memory32(&emu, 0x100), Ok(0));
    assert_eq!(get_memory8(&emu, LOAD_ADDRESS), Ok(0xB8));
    assert_eq!(get_memory8(&emu, LOAD_ADDRESS + 2), Ok(0x02));
    assert_eq!(get_memory8(&emu, LOAD_ADDRESS - 1), Ok(0));
}

#[test]
fn load_binary_refuses_oversized_image() {
    let mut emu = create_emu(LOAD_ADDRESS, LOAD_ADDRESS as u32);
    let image = vec![0x90u8; MEMORY_SIZE - LOAD_ADDRESS + 1];
    assert_eq!(load_binary(&mut emu, &image), None);
    assert_eq!(get_memory8(&emu, LOAD_ADDRESS), Ok(0));
    let image = vec![0x90u8; MEMORY_SIZE - LOAD_ADDRESS];
    assert_eq!(load_binary(&mut emu, &image), Some(MEMORY_SIZE - LOAD_ADDRESS));
}

#[test]
fn decode_register_direct_c0() {
    let (mut emu, _, _) = boot(&[0xC0]);
    let modrm = parse_modrm(&mut emu).unwrap();
    assert_eq!(modrm.modval, 3);
    assert_eq!(modrm.reg, 0);
    assert_eq!(modrm.rm, 0);
    assert_eq!(modrm.sib, None);
    assert_eq!(modrm.disp, Displacement::Absent);
    assert_eq!(get_eip(&emu), LOAD_ADDRESS + 1);
}

#[test]
fn decode_displacements_and_sib() {
    // mod 1, rm 5: [ebp + disp8]
    let (mut emu, _, _) = boot(&[0x45, 0xFC]);
    let modrm = parse_modrm(&mut emu).unwrap();
    assert_eq!((modrm.modval, modrm.reg, modrm.rm), (1, 0, 5));
    assert_eq!(modrm.disp, Displacement::Disp8(-4));
    assert_eq!(get_eip(&emu), LOAD_ADDRESS + 2);
    // mod 0, rm 5: absolute disp32
    let (mut emu, _, _) = boot(&[0x05, 0x78, 0x56, 0x34, 0x12]);
    let modrm = parse_modrm(&mut emu).unwrap();
    assert_eq!(modrm.disp, Displacement::Disp32(0x1234_5678));
    assert_eq!(get_eip(&emu), LOAD_ADDRESS + 5);
    // mod 2, rm 4: SIB byte then disp32
    let (mut emu, _, _) = boot(&[0x84, 0x24, 0xFF, 0xFF, 0xFF, 0xFF]);
    let modrm = parse_modrm(&mut emu).unwrap();
    assert_eq!(modrm.sib, Some(0x24));
    assert_eq!(modrm.disp, Displacement::Disp32(-1));
    assert_eq!(get_eip(&emu), LOAD_ADDRESS + 6);
}

#[test]
fn push_then_pop_restores_stack() {
    let mut emu = create_emu(LOAD_ADDRESS, LOAD_ADDRESS as u32);
    assert_eq!(push32(&mut emu, 0xCAFE_BABE), Ok(()));
    assert_eq!(get_register32(&emu, ESP), LOAD_ADDRESS as u32 - 4);
    assert_eq!(pop32(&mut emu), Ok(0xCAFE_BABE));
    assert_eq!(get_register32(&emu, ESP), LOAD_ADDRESS as u32);
}

#[test]
fn push_out_of_memory_faults_without_change() {
    let mut emu = create_emu(LOAD_ADDRESS, 2);
    assert_eq!(push32(&mut emu, 1), Err(Fault::MemoryOutOfBounds { address: 0xFFFF_FFFE }));
    assert_eq!(get_register32(&emu, ESP), 2);
}

#[test]
fn sub_immediate_flags() {
    // mov eax, 5; sub eax, 3
    let (mut emu, table, end) = boot(&[0xB8, 5, 0, 0, 0, 0x83, 0xE8, 0x03]);
    assert_eq!(run(&mut emu, &table, end, 100), RunOutcome::Halted);
    assert_eq!(get_register32(&emu, EAX), 2);
    assert_eq!(get_flags(&emu), no_flags());
    assert_eq!(get_eip(&emu), end);
}

#[test]
fn cmp_immediate_borrow() {
    // mov eax, 3; cmp eax, 5
    let (mut emu, table, end) = boot(&[0xB8, 3, 0, 0, 0, 0x83, 0xF8, 0x05]);
    assert_eq!(run(&mut emu, &table, end, 100), RunOutcome::Halted);
    let f = get_flags(&emu);
    assert!(f.carry);
    assert!(f.sign);
    assert!(!f.zero);
    assert!(!f.overflow);
    assert_eq!(get_register32(&emu, EAX), 3);
}

#[test]
fn sub_signed_overflow() {
    // mov eax, 0x80000000; sub eax, 1
    let (mut emu, table, end) = boot(&[0xB8, 0, 0, 0, 0x80, 0x83, 0xE8, 0x01]);
    assert_eq!(run(&mut emu, &table, end, 100), RunOutcome::Halted);
    assert_eq!(get_register32(&emu, EAX), 0x7FFF_FFFF);
    assert_eq!(get_flags(&emu), Flags { carry: false, zero: false, sign: false, overflow: true });
}

#[test]
fn cmp_register_equal_sets_zero() {
    // cmp eax, ecx (3B C1) with both registers holding 7
    let (mut emu, _, _) = boot(&[0x3B, 0xC1]);
    set_register32(&mut emu, EAX, 7);
    set_register32(&mut emu, ECX, 7);
    assert_eq!(cmp_r32_rm32(&mut emu), Ok(()));
    assert_eq!(get_eip(&emu), LOAD_ADDRESS + 2);
    assert_eq!(get_flags(&emu), Flags { carry: false, zero: true, sign: false, overflow: false });
    assert_eq!(get_register32(&emu, EAX), 7);
}

#[test]
fn call_then_return() {
    // call +1 (to the ret); one filler byte; ret
    let (mut emu, table, _) = boot(&[0xE8, 0x01, 0, 0, 0, 0x90, 0xC3]);
    assert_eq!(step(&mut emu, &table), Ok(()));
    assert_eq!(get_eip(&emu), LOAD_ADDRESS + 6);
    assert_eq!(get_register32(&emu, ESP), LOAD_ADDRESS as u32 - 4);
    assert_eq!(get_memory32(&emu, LOAD_ADDRESS - 4), Ok(LOAD_ADDRESS as u32 + 5));
    assert_eq!(step(&mut emu, &table), Ok(()));
    assert_eq!(get_eip(&emu), LOAD_ADDRESS + 5);
    assert_eq!(get_register32(&emu, ESP), LOAD_ADDRESS as u32);
}

#[test]
fn jz_after_equal_compare_jumps() {
    // mov eax, 5; cmp eax, 5; jz +2
    let (mut emu, table, _) = boot(&[0xB8, 5, 0, 0, 0, 0x83, 0xF8, 0x05, 0x74, 0x02]);
    assert_eq!(step(&mut emu, &table), Ok(()));
    assert_eq!(step(&mut emu, &table), Ok(()));
    assert!(get_flags(&emu).zero);
    assert_eq!(step(&mut emu, &table), Ok(()));
    assert_eq!(get_eip(&emu), LOAD_ADDRESS + 10 + 2);
}

#[test]
fn jz_after_unequal_compare_falls_through() {
    // mov eax, 4; cmp eax, 5; jz +2
    let (mut emu, table, _) = boot(&[0xB8, 4, 0, 0, 0, 0x83, 0xF8, 0x05, 0x74, 0x02]);
    assert_eq!(step(&mut emu, &table), Ok(()));
    assert_eq!(step(&mut emu, &table), Ok(()));
    assert!(!get_flags(&emu).zero);
    assert_eq!(step(&mut emu, &table), Ok(()));
    assert_eq!(get_eip(&emu), LOAD_ADDRESS + 10);
}

#[test]
fn signed_conditions() {
    // mov eax, 3; cmp eax, 5; jl +1; (skipped byte); jg +0x10 (not taken); jle +0 (taken)
    let prog = [0xB8, 3, 0, 0, 0, 0x83, 0xF8, 0x05, 0x7C, 0x01, 0x90, 0x7F, 0x10, 0x7E, 0x00];
    let (mut emu, table, end) = boot(&prog);
    for _ in 0..2 {
        assert_eq!(step(&mut emu, &table), Ok(()));
    }
    assert_eq!(step(&mut emu, &table), Ok(()));
    assert_eq!(get_eip(&emu), LOAD_ADDRESS + 11);
    assert_eq!(step(&mut emu, &table), Ok(()));
    assert_eq!(get_eip(&emu), LOAD_ADDRESS + 13);
    assert_eq!(step(&mut emu, &table), Ok(()));
    assert_eq!(get_eip(&emu), end);
}

#[test]
fn group_ff_unknown_subcode_faults() {
    // mov eax, 9; then FF /1 (dec), which is not implemented
    let (mut emu, table, end) = boot(&[0xB8, 9, 0, 0, 0, 0xFF, 0xC8]);
    let out = run(&mut emu, &table, end, 100);
    assert_eq!(
        out,
        RunOutcome::Faulted(Fault::UnimplementedSubcode { opcode: 0xFF, subcode: 1, eip: LOAD_ADDRESS + 5 })
    );
    assert_eq!(get_eip(&emu), LOAD_ADDRESS + 5);
    assert_eq!(get_register32(&emu, EAX), 9);
    assert_eq!(get_flags(&emu), no_flags());
}

#[test]
fn group_83_unknown_subcode_faults() {
    // 83 /1 (or) is not implemented
    let (mut emu, table, end) = boot(&[0x83, 0xC8, 0x01]);
    assert_eq!(
        run(&mut emu, &table, end, 100),
        RunOutcome::Faulted(Fault::UnimplementedSubcode { opcode: 0x83, subcode: 1, eip: LOAD_ADDRESS })
    );
}

#[test]
fn unimplemented_opcode_faults() {
    let (mut emu, table, end) = boot(&[0x90]);
    assert_eq!(
        run(&mut emu, &table, end, 100),
        RunOutcome::Faulted(Fault::UnimplementedOpcode { opcode: 0x90, eip: LOAD_ADDRESS })
    );
    assert_eq!(get_eip(&emu), LOAD_ADDRESS);
}

#[test]
fn sib_addressing_faults() {
    // mov eax, [esp] needs a SIB byte
    let (mut emu, table, end) = boot(&[0x8B, 0x04, 0x24]);
    assert_eq!(
        run(&mut emu, &table, end, 100),
        RunOutcome::Faulted(Fault::UnsupportedAddressing { modval: 0, rm: 4 })
    );
    assert_eq!(get_eip(&emu), LOAD_ADDRESS);
}

#[test]
fn absolute_address_out_of_memory_faults() {
    // mov eax, [0xFFFFFFF0]
    let (mut emu, table, end) = boot(&[0x8B, 0x05, 0xF0, 0xFF, 0xFF, 0xFF]);
    assert_eq!(
        run(&mut emu, &table, end, 100),
        RunOutcome::Faulted(Fault::MemoryOutOfBounds { address: 0xFFFF_FFF0 })
    );
}

#[test]
fn frame_with_disp8_and_leave() {
    // push ebp; mov ebp, esp; sub esp, 8; mov dword [ebp-4], 0x12345678;
    // mov eax, [ebp-4]; leave
    let prog = [
        0x55, 0x89, 0xE5, 0x83, 0xEC, 0x08, 0xC7, 0x45, 0xFC, 0x78, 0x56, 0x34, 0x12, 0x8B, 0x45,
        0xFC, 0xC9,
    ];
    let (mut emu, table, end) = boot(&prog);
    set_register32(&mut emu, EBP, 0x1111);
    assert_eq!(run(&mut emu, &table, end, 100), RunOutcome::Halted);
    assert_eq!(get_register32(&emu, EAX), 0x1234_5678);
    assert_eq!(get_memory8(&emu, LOAD_ADDRESS - 8), Ok(0x78));
    assert_eq!(get_memory8(&emu, LOAD_ADDRESS - 5), Ok(0x12));
    assert_eq!(get_register32(&emu, ESP), LOAD_ADDRESS as u32);
    assert_eq!(get_register32(&emu, EBP), 0x1111);
}

#[test]
fn add_and_inc_wrap_without_flags() {
    // mov eax, 0xFFFFFFFF; mov ecx, 2; add eax, ecx; inc ecx; add ecx, -1 (83 C1 FF)
    let prog = [
        0xB8, 0xFF, 0xFF, 0xFF, 0xFF, 0xB9, 2, 0, 0, 0, 0x01, 0xC8, 0xFF, 0xC1, 0x83, 0xC1, 0xFF,
    ];
    let (mut emu, table, end) = boot(&prog);
    assert_eq!(run(&mut emu, &table, end, 100), RunOutcome::Halted);
    assert_eq!(get_register32(&emu, EAX), 1);
    assert_eq!(get_register32(&emu, ECX), 2);
    assert_eq!(get_flags(&emu), no_flags());
}

#[test]
fn push_immediates_and_pop() {
    // push 0x11223344; push 0xFF (6A FF); pop eax; pop ecx
    let prog = [0x68, 0x44, 0x33, 0x22, 0x11, 0x6A, 0xFF, 0x58, 0x59];
    let (mut emu, table, end) = boot(&prog);
    assert_eq!(run(&mut emu, &table, end, 100), RunOutcome::Halted);
    assert_eq!(get_register32(&emu, EAX), 0xFF);
    assert_eq!(get_register32(&emu, ECX), 0x1122_3344);
    assert_eq!(get_register32(&emu, ESP), LOAD_ADDRESS as u32);
}

#[test]
fn store_through_register_operand() {
    // mov eax, 0x500; mov ecx, 0xABCD; mov [eax], ecx (89 08); mov edx, [eax] (8B 10)
    let prog = [0xB8, 0, 5, 0, 0, 0xB9, 0xCD, 0xAB, 0, 0, 0x89, 0x08, 0x8B, 0x10];
    let (mut emu, table, end) = boot(&prog);
    assert_eq!(run(&mut emu, &table, end, 100), RunOutcome::Halted);
    assert_eq!(get_memory32(&emu, 0x500), Ok(0xABCD));
    assert_eq!(get_register32(&emu, 2), 0xABCD);
}

#[test]
fn jumps_forward_and_backward() {
    // jmp near +2; (2 filler bytes); jmp short -9 lands before the program
    let (mut emu, table, _) = boot(&[0xE9, 0x02, 0, 0, 0, 0x90, 0x90, 0xEB, 0xF7]);
    assert_eq!(step(&mut emu, &table), Ok(()));
    assert_eq!(get_eip(&emu), LOAD_ADDRESS + 7);
    assert_eq!(step(&mut emu, &table), Ok(()));
    assert_eq!(get_eip(&emu), LOAD_ADDRESS);
    // jmp near -0x7c05 wraps to address 0
    let (mut emu, table, _) = boot(&[0xE9, 0xFB, 0x83, 0xFF, 0xFF]);
    assert_eq!(step(&mut emu, &table), Ok(()));
    assert_eq!(get_eip(&emu), 0);
}

#[test]
fn run_stops_at_step_limit() {
    // jmp short -2: loops forever
    let (mut emu, table, end) = boot(&[0xEB, 0xFE]);
    assert_eq!(run(&mut emu, &table, end, 10), RunOutcome::StepLimit);
    assert_eq!(get_eip(&emu), LOAD_ADDRESS);
}

#[test]
fn dispatch_table_entries() {
    let mut table: Insts = [Handler::Unimplemented; 256];
    init_instructions(&mut table);
    assert_eq!(table[0x50], Handler::PushR32);
    assert_eq!(table[0x5F], Handler::PopR32);
    assert_eq!(table[0xBF], Handler::MovR32Imm32);
    assert_eq!(table[0xFF], Handler::CodeFF);
    assert_eq!(table[0x76], Handler::Unimplemented);
    assert_eq!(table[0x00], Handler::Unimplemented);
    assert_eq!(table[0x3B], Handler::Unimplemented);
}

#[test]
fn init_instructions_keeps_unassigned_slots() {
    let mut table: Insts = [Handler::Ret; 256];
    init_instructions(&mut table);
    assert_eq!(table[0x00], Handler::Ret);
    assert_eq!(table[0x3B], Handler::Ret);
    assert_eq!(table[0x74], Handler::Jz);
    assert_eq!(table[0x58], Handler::PopR32);
}

#[test]
fn compare_register_form_is_not_dispatched() {
    let (mut emu, table, end) = boot(&[0x3B, 0xC1]);
    assert_eq!(
        run(&mut emu, &table, end, 100),
        RunOutcome::Faulted(Fault::UnimplementedOpcode { opcode: 0x3B, eip: LOAD_ADDRESS })
    );
}

#[test]
fn modrm_default_is_zero() {
    let m = ModRM::default();
    assert_eq!((m.modval, m.reg, m.rm), (0, 0, 0));
    assert_eq!(m.sib, None);
    assert_eq!(m.disp, Displacement::Absent);
}
