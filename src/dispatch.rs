//! The opcode dispatch table and the fetch-decode-execute loop.
use vstd::prelude::*;
use crate::machine::{
    Fault, Machine, MEMORY_SIZE, ESP, read32, write32, wrap32, sub_flags,
    lemma_memory_round_trip,
};
use crate::function::push_spec;
use crate::function::lemma_wrap_back;
use crate::emulator::{Emulator, get_code8, get_eip, set_eip};
use crate::instruction::{
    decode_operand, cmp_rm32_imm8_spec,
    add_rm32_r32, push_r32, pop_r32, push_imm32, push_imm8, jo, jno, jc, jnc, jz,
    jnz, js, jns, jl, jge, jle, jg, code_83, mov_rm32_r32, mov_r32_rm32, mov_r32_imm32, ret,
    mov_rm32_imm32, leave, call_rel32, near_jump, short_jump, code_ff, add_rm32_r32_spec,
    push_r32_spec, pop_r32_spec, push_imm32_spec, push_imm8_spec, jcc_spec,
    code_83_spec, mov_rm32_r32_spec, mov_r32_rm32_spec, mov_r32_imm32_spec, ret_spec,
    mov_rm32_imm32_spec, leave_spec, call_rel32_spec, near_jump_spec, short_jump_spec, code_ff_spec,
};

verus! {

/// What an opcode byte is dispatched to.
#[derive(Clone, Copy, Debug, PartialEq, Eq, Structural)]
pub enum Handler {
    Unimplemented,
    AddRm32R32,
    PushR32,
    PopR32,
    PushImm32,
    PushImm8,
    Jo,
    Jno,
    Jc,
    Jnc,
    Jz,
    Jnz,
    Js,
    Jns,
    Jl,
    Jge,
    Jle,
    Jg,
    Code83,
    MovRm32R32,
    MovR32Rm32,
    MovR32Imm32,
    Ret,
    MovRm32Imm32,
    Leave,
    CallRel32,
    NearJump,
    ShortJump,
    CodeFF,
}

/// The dispatch table: one handler per opcode byte.
pub type Insts = [Handler; 256];

/// The handler registered for each opcode byte.
pub open spec fn handler_for(op: u8) -> Handler {
    if op == 0x01 {
        Handler::AddRm32R32
    } else if 0x50 <= op <= 0x57 {
        Handler::PushR32
    } else if 0x58 <= op <= 0x5F {
        Handler::PopR32
    } else if op == 0x68 {
        Handler::PushImm32
    } else if op == 0x6A {
        Handler::PushImm8
    } else if op == 0x70 {
        Handler::Jo
    } else if op == 0x71 {
        Handler::Jno
    } else if op == 0x72 {
        Handler::Jc
    } else if op == 0x73 {
        Handler::Jnc
    } else if op == 0x74 {
        Handler::Jz
    } else if op == 0x75 {
        Handler::Jnz
    } else if op == 0x78 {
        Handler::Js
    } else if op == 0x79 {
        Handler::Jns
    } else if op == 0x7C {
        Handler::Jl
    } else if op == 0x7D {
        Handler::Jge
    } else if op == 0x7E {
        Handler::Jle
    } else if op == 0x7F {
        Handler::Jg
    } else if op == 0x83 {
        Handler::Code83
    } else if op == 0x89 {
        Handler::MovRm32R32
    } else if op == 0x8B {
        Handler::MovR32Rm32
    } else if 0xB8 <= op <= 0xBF {
        Handler::MovR32Imm32
    } else if op == 0xC3 {
        Handler::Ret
    } else if op == 0xC7 {
        Handler::MovRm32Imm32
    } else if op == 0xC9 {
        Handler::Leave
    } else if op == 0xE8 {
        Handler::CallRel32
    } else if op == 0xE9 {
        Handler::NearJump
    } else if op == 0xEB {
        Handler::ShortJump
    } else if op == 0xFF {
        Handler::CodeFF
    } else {
        Handler::Unimplemented
    }
}

/// Whether `table` holds the registered handler of every opcode byte.
pub open spec fn table_ready(table: Insts) -> bool {
    forall|i: int| 0 <= i < 256 ==> #[trigger] table@[i] == handler_for(i as u8)
}

/// Whether opcode byte `op` has a handler registered.
pub open spec fn assigned(op: u8) -> bool {
    handler_for(op) != Handler::Unimplemented
}

/// Registers the handlers in the dispatch table. Slots of opcode bytes without
/// a handler keep what they held, so a table that starts with the
/// `Unimplemented` sentinel everywhere ends up ready.
pub fn init_instructions(instructions: &mut Insts)
    ensures
        forall|i: int|
            0 <= i < 256 ==> #[trigger] final(instructions)@[i] == if assigned(i as u8) {
                handler_for(i as u8)
            } else {
                old(instructions)@[i]
            },
        (forall|i: int| 0 <= i < 256 ==> #[trigger] old(instructions)@[i] == Handler::Unimplemented)
            ==> table_ready(*final(instructions)),
{
    let mut i: usize = 0;
    while i < 8
        invariant
            i <= 8,
            forall|j: int|
                0 <= j < 256 ==> #[trigger] instructions@[j] == if 0x50 <= j < 0x50 + i || 0x58 <= j
                    < 0x58 + i || 0xB8 <= j < 0xB8 + i {
                    handler_for(j as u8)
                } else {
                    old(instructions)@[j]
                },
        decreases 8 - i,
    {
        instructions[0x50 + i] = Handler::PushR32;
        instructions[0x58 + i] = Handler::PopR32;
        instructions[0xB8 + i] = Handler::MovR32Imm32;
        i = i + 1;
    }

    instructions[0x68] = Handler::PushImm32;
    instructions[0x6A] = Handler::PushImm8;

    instructions[0x70] = Handler::Jo;
    instructions[0x71] = Handler::Jno;
    instructions[0x72] = Handler::Jc;
    instructions[0x73] = Handler::Jnc;
    instructions[0x74] = Handler::Jz;
    instructions[0x75] = Handler::Jnz;
    instructions[0x78] = Handler::Js;
    instructions[0x79] = Handler::Jns;
    instructions[0x7C] = Handler::Jl;
    instructions[0x7D] = Handler::Jge;
    instructions[0x7E] = Handler::Jle;
    instructions[0x7F] = Handler::Jg;

    instructions[0x01] = Handler::AddRm32R32;
    instructions[0x83] = Handler::Code83;
    instructions[0x89] = Handler::MovRm32R32;
    instructions[0x8B] = Handler::MovR32Rm32;

    instructions[0xC7] = Handler::MovRm32Imm32;
    instructions[0xE9] = Handler::NearJump;
    instructions[0xEB] = Handler::ShortJump;
    instructions[0xFF] = Handler::CodeFF;

    instructions[0xC3] = Handler::Ret;
    instructions[0xE8] = Handler::CallRel32;
    instructions[0xC9] = Handler::Leave;
}

/// What the instruction at the instruction pointer does to `m`: the next
/// state, or the fault that stops execution.
pub open spec fn step_spec(m: Machine) -> Result<Machine, Fault> {
    if m.eip >= m.mem.len() {
        Err(Fault::MemoryOutOfBounds { address: m.eip as usize })
    } else {
        let op = m.mem[m.eip as int];
        match handler_for(op) {
            Handler::Unimplemented => Err(
                Fault::UnimplementedOpcode { opcode: op, eip: m.eip as usize },
            ),
            Handler::AddRm32R32 => add_rm32_r32_spec(m),
            Handler::PushR32 => push_r32_spec(m),
            Handler::PopR32 => pop_r32_spec(m),
            Handler::PushImm32 => push_imm32_spec(m),
            Handler::PushImm8 => push_imm8_spec(m),
            Handler::Jo => jcc_spec(m, m.flags.overflow),
            Handler::Jno => jcc_spec(m, !m.flags.overflow),
            Handler::Jc => jcc_spec(m, m.flags.carry),
            Handler::Jnc => jcc_spec(m, !m.flags.carry),
            Handler::Jz => jcc_spec(m, m.flags.zero),
            Handler::Jnz => jcc_spec(m, !m.flags.zero),
            Handler::Js => jcc_spec(m, m.flags.sign),
            Handler::Jns => jcc_spec(m, !m.flags.sign),
            Handler::Jl => jcc_spec(m, m.flags.sign != m.flags.overflow),
            Handler::Jge => jcc_spec(m, m.flags.sign == m.flags.overflow),
            Handler::Jle => jcc_spec(m, m.flags.zero || m.flags.sign != m.flags.overflow),
            Handler::Jg => jcc_spec(m, !m.flags.zero && m.flags.sign == m.flags.overflow),
            Handler::Code83 => code_83_spec(m),
            Handler::MovRm32R32 => mov_rm32_r32_spec(m),
            Handler::MovR32Rm32 => mov_r32_rm32_spec(m),
            Handler::MovR32Imm32 => mov_r32_imm32_spec(m),
            Handler::Ret => ret_spec(m),
            Handler::MovRm32Imm32 => mov_rm32_imm32_spec(m),
            Handler::Leave => leave_spec(m),
            Handler::CallRel32 => call_rel32_spec(m),
            Handler::NearJump => near_jump_spec(m),
            Handler::ShortJump => short_jump_spec(m),
            Handler::CodeFF => code_ff_spec(m),
        }
    }
}

/// Runs `handler` on the instruction at the instruction pointer.
fn execute(emu: &mut Emulator, handler: Handler) -> (r: Result<(), Fault>)
    requires
        old(emu).wf(),
        old(emu)@.eip < MEMORY_SIZE,
        handler == handler_for(old(emu)@.mem[old(emu)@.eip as int]),
    ensures
        final(emu).wf(),
        outcome_of_step(r, old(emu)@, final(emu)@),
{
    match handler {
        Handler::Unimplemented => {
            let opcode = get_code8(emu, 0)?;
            Err(Fault::UnimplementedOpcode { opcode, eip: get_eip(emu) })
        },
        Handler::AddRm32R32 => add_rm32_r32(emu),
        Handler::PushR32 => push_r32(emu),
        Handler::PopR32 => pop_r32(emu),
        Handler::PushImm32 => push_imm32(emu),
        Handler::PushImm8 => push_imm8(emu),
        Handler::Jo => jo(emu),
        Handler::Jno => jno(emu),
        Handler::Jc => jc(emu),
        Handler::Jnc => jnc(emu),
        Handler::Jz => jz(emu),
        Handler::Jnz => jnz(emu),
        Handler::Js => js(emu),
        Handler::Jns => jns(emu),
        Handler::Jl => jl(emu),
        Handler::Jge => jge(emu),
        Handler::Jle => jle(emu),
        Handler::Jg => jg(emu),
        Handler::Code83 => code_83(emu),
        Handler::MovRm32R32 => mov_rm32_r32(emu),
        Handler::MovR32Rm32 => mov_r32_rm32(emu),
        Handler::MovR32Imm32 => mov_r32_imm32(emu),
        Handler::Ret => ret(emu),
        Handler::MovRm32Imm32 => mov_rm32_imm32(emu),
        Handler::Leave => leave(emu),
        Handler::CallRel32 => call_rel32(emu),
        Handler::NearJump => near_jump(emu),
        Handler::ShortJump => short_jump(emu),
        Handler::CodeFF => code_ff(emu),
    }
}

/// A handler's result agrees with `step_spec` of the state before it.
pub open spec fn outcome_of_step(r: Result<(), Fault>, before: Machine, after: Machine) -> bool {
    crate::machine::outcome(r, before, after, step_spec(before))
}

/// Executes one instruction. On a fault the state is left exactly as it was.
pub fn step(emu: &mut Emulator, instructions: &Insts) -> (r: Result<(), Fault>)
    requires
        old(emu).wf(),
        table_ready(*instructions),
    ensures
        final(emu).wf(),
        match step_spec(old(emu)@) {
            Ok(m) => r is Ok && final(emu)@ == m,
            Err(f) => r == Err::<(), Fault>(f) && final(emu)@ == old(emu)@,
        },
{
    let start = get_eip(emu);
    if start >= MEMORY_SIZE {
        return Err(Fault::MemoryOutOfBounds { address: start });
    }
    let code = match get_code8(emu, 0) {
        Ok(b) => b,
        Err(f) => return Err(f),
    };
    let result = execute(emu, instructions[code as usize]);
    match result {
        Ok(()) => Ok(()),
        Err(f) => {
            set_eip(emu, start);
            Err(f)
        },
    }
}

/// How a run ended.
#[derive(Clone, Copy, Debug, PartialEq, Eq, Structural)]
pub enum RunOutcome {
    /// The instruction pointer reached or passed the end of the program.
    Halted,
    /// An instruction faulted; the state is the one before that instruction.
    Faulted(Fault),
    /// The step budget ran out first.
    StepLimit,
}

/// Running from `m` until the instruction pointer reaches `end`, a fault, or
/// `fuel` instructions have run: the final state and how the run ended.
pub open spec fn run_spec(m: Machine, end: nat, fuel: nat) -> (Machine, RunOutcome)
    decreases fuel,
{
    if m.eip >= end {
        (m, RunOutcome::Halted)
    } else if fuel == 0 {
        (m, RunOutcome::StepLimit)
    } else {
        match step_spec(m) {
            Err(f) => (m, RunOutcome::Faulted(f)),
            Ok(m1) => run_spec(m1, end, (fuel - 1) as nat),
        }
    }
}

/// The execution loop: steps until the instruction pointer reaches or passes
/// `end` (the address just past the program), an instruction faults, or
/// `max_steps` instructions have run.
pub fn run(emu: &mut Emulator, instructions: &Insts, end: usize, max_steps: u64) -> (r: RunOutcome)
    requires
        old(emu).wf(),
        table_ready(*instructions),
    ensures
        final(emu).wf(),
        (final(emu)@, r) == run_spec(old(emu)@, end as nat, max_steps as nat),
{
    let mut fuel = max_steps;
    loop
        invariant
            emu.wf(),
            table_ready(*instructions),
            run_spec(emu@, end as nat, fuel as nat) == run_spec(
                old(emu)@,
                end as nat,
                max_steps as nat,
            ),
        decreases fuel,
    {
        if get_eip(emu) >= end {
            return RunOutcome::Halted;
        }
        if fuel == 0 {
            return RunOutcome::StepLimit;
        }
        match step(emu, instructions) {
            Ok(()) => {},
            Err(f) => return RunOutcome::Faulted(f),
        }
        fuel = fuel - 1;
    }
}

/// A call, followed later by the return that matches it (the stack pointer
/// and the word on top of the stack are those the call left), resumes at the
/// byte after the call with the stack pointer the call started with.
pub proof fn lemma_call_return(before: Machine, at_ret: Machine)
    requires
        before.wf(),
        before.eip < MEMORY_SIZE,
        before.mem[before.eip as int] == 0xE8,
        step_spec(before) is Ok,
        at_ret.wf(),
        at_ret.eip < MEMORY_SIZE,
        at_ret.mem[at_ret.eip as int] == 0xC3,
        at_ret.regs[ESP as int] == step_spec(before)->Ok_0.regs[ESP as int],
        read32(at_ret.mem, at_ret.regs[ESP as int] as int) == read32(
            step_spec(before)->Ok_0.mem,
            at_ret.regs[ESP as int] as int,
        ),
    ensures
        step_spec(at_ret) is Ok,
        step_spec(at_ret)->Ok_0.eip == before.eip + 5,
        step_spec(at_ret)->Ok_0.regs[ESP as int] == before.regs[ESP as int],
{
    lemma_step_call(before);
    lemma_call_pushes(before);
    lemma_step_ret(at_ret);
    lemma_wrap_back(before.regs[ESP as int]);
}

proof fn lemma_call_pushes(before: Machine)
    requires
        before.wf(),
        before.eip < MEMORY_SIZE,
        call_rel32_spec(before) is Ok,
    ensures
        call_rel32_spec(before)->Ok_0.regs[ESP as int] == wrap32(before.regs[ESP as int] - 4),
        read32(call_rel32_spec(before)->Ok_0.mem, wrap32(before.regs[ESP as int] - 4) as int)
            == before.eip + 5,
{
    let sp = wrap32(before.regs[ESP as int] - 4);
    let ret_addr = wrap32(before.eip + 5int);
    let pushed = push_spec(before, ret_addr)->Ok_0;
    assert(pushed.mem == write32(before.mem, sp as int, ret_addr));
    lemma_memory_round_trip(before.mem, sp as int, ret_addr);
    assert(ret_addr == before.eip + 5);
}

proof fn lemma_step_call(m: Machine)
    requires
        m.wf(),
        m.eip < MEMORY_SIZE,
        m.mem[m.eip as int] == 0xE8,
    ensures
        step_spec(m) == call_rel32_spec(m),
{
}

proof fn lemma_step_ret(m: Machine)
    requires
        m.wf(),
        m.eip < MEMORY_SIZE,
        m.mem[m.eip as int] == 0xC3,
    ensures
        step_spec(m) == ret_spec(m),
{
}

/// Whether the instruction at the instruction pointer is a compare
/// (CMP r/m32, imm8).
pub open spec fn is_compare(m: Machine) -> bool {
    &&& m.eip < m.mem.len()
    &&& {
        let op = m.mem[m.eip as int];
        op == 0x83 && decode_operand(m) is Ok && decode_operand(m)->Ok_0.0.reg == 7
    }
}

/// Right after a compare, a JZ jumps to its target when the compare set the
/// zero flag and falls through to the next instruction when it did not.
pub proof fn lemma_jz_after_compare(cmp: Machine)
    requires
        cmp.wf(),
        is_compare(cmp),
        step_spec(cmp) is Ok,
        step_spec(cmp)->Ok_0.eip < MEMORY_SIZE,
        step_spec(cmp)->Ok_0.mem[step_spec(cmp)->Ok_0.eip as int] == 0x74,
    ensures
        ({
            let jz = step_spec(cmp)->Ok_0;
            &&& jz.flags.zero ==> step_spec(jz) == short_jump_spec(jz)
            &&& !jz.flags.zero ==> step_spec(jz) == Ok::<Machine, Fault>(jz.with_eip(jz.eip + 2))
        }),
{
    let op = cmp.mem[cmp.eip as int];
    if op == 0x83 {
        let (d, e) = decode_operand(cmp)->Ok_0;
        assert(code_83_spec(cmp) == cmp_rm32_imm8_spec(cmp.with_eip(e), d));
    }
}

/// The flags of a subtraction report a zero result exactly when the operands are equal.
pub proof fn lemma_sub_zero(a: u32, b: u32)
    ensures
        sub_flags(a, b).zero <==> a == b,
{
    if a >= b {
        assert(wrap32(a - b) == a - b);
    } else {
        assert((a - b) % 0x1_0000_0000 == a - b + 0x1_0000_0000);
    }
}

/// Group FF with any sub-operation but the increment faults, naming the group
/// byte and the sub-operation; the run stops there with the state it had
/// before that instruction.
pub proof fn lemma_group_ff_fault(m: Machine, end: nat, fuel: nat)
    requires
        m.wf(),
        m.eip < end,
        m.eip < MEMORY_SIZE,
        fuel > 0,
        m.mem[m.eip as int] == 0xFF,
        decode_operand(m) is Ok,
        decode_operand(m)->Ok_0.0.reg != 0,
    ensures
        step_spec(m) == Err::<Machine, Fault>(
            Fault::UnimplementedSubcode {
                opcode: 0xFF,
                subcode: decode_operand(m)->Ok_0.0.reg,
                eip: m.eip as usize,
            },
        ),
        run_spec(m, end, fuel) == (
            m,
            RunOutcome::Faulted(
                Fault::UnimplementedSubcode {
                    opcode: 0xFF,
                    subcode: decode_operand(m)->Ok_0.0.reg,
                    eip: m.eip as usize,
                },
            ),
        ),
{
}

} // verus!
