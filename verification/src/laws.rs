//! Laws of the instruction set, proved once over the model: flag behaviour
//! of the loads, program-counter advancement, zero-page wraparound, the
//! two-step indirect dereference, and stack discipline.

use crate::cpu::AddrMode;
use crate::cpu::CpuView;
use crate::cpu::Instruction;
use crate::cpu::NEGATIVE_FLAG_MASK;
use crate::cpu::ZERO_FLAG_MASK;
use crate::cpu::decode;
use crate::cpu::ea;
use crate::cpu::flags_on;
use crate::cpu::instr_len;
use crate::cpu::negative_flag;
use crate::cpu::operand_addr;
use crate::cpu::pc_after_resolve;
use crate::cpu::stack_addr;
use crate::cpu::step;
use crate::cpu::wrap_add8;
use crate::cpu::wrap_dec8;
use crate::cpu::wrap_inc16;
use crate::cpu::wrap_inc8;
use crate::cpu::zero_flag;
use vstd::prelude::*;

verus! {

/// Writing a value `v` into a register turns the zero flag on exactly when
/// `v` is zero and the negative flag on exactly when bit 7 of `v` is set;
/// a flag that was already on stays on, and no other bit moves.
pub proof fn lemma_flags_on(status: u8, v: u8)
    ensures
        (flags_on(status, v) & ZERO_FLAG_MASK != 0) == (status & ZERO_FLAG_MASK != 0 || v == 0),
        (flags_on(status, v) & NEGATIVE_FLAG_MASK != 0) == (status & NEGATIVE_FLAG_MASK != 0 || v
            & 0x80 != 0),
        v != 0 && v & 0x80 == 0 ==> flags_on(status, v) == status,
{
    assert((status | 0x02u8) & 0x02u8 != 0) by (bit_vector);
    assert((status | 0x40u8) & 0x40u8 != 0) by (bit_vector);
    assert((status | 0x02u8) & 0x40u8 == status & 0x40u8) by (bit_vector);
    assert((status | 0x40u8) & 0x02u8 == status & 0x02u8) by (bit_vector);
    assert(((status | 0x02u8) | 0x40u8) & 0x02u8 != 0) by (bit_vector);
    assert(((status | 0x02u8) | 0x40u8) & 0x40u8 != 0) by (bit_vector);
}

/// Loading a value `V` into the accumulator stores `V` exactly, and the
/// flags after the step obey the sticky rule: the zero flag is on iff it was
/// on before or `V == 0`; the negative flag is on iff it was on before or
/// bit 7 of `V` is set. Holds for every addressing mode.
pub proof fn lemma_lda_value_and_flags(s: CpuView, m: AddrMode)
    requires
        decode(s.mem[s.pc as int]) == Some(Instruction::Lda(m)),
    ensures
        step(s) is Some,
        ({
            let post = step(s).unwrap();
            let v = s.mem[ea(s, m) as int];
            &&& post.a == v
            &&& zero_flag(post.status) == (zero_flag(s.status) || v == 0)
            &&& negative_flag(post.status) == (negative_flag(s.status) || v & 0x80 != 0)
        }),
{
    lemma_flags_on(s.status, s.mem[ea(s, m) as int]);
}

/// The load law for index register X: same value and flag behaviour as the
/// accumulator load, for every addressing mode it decodes with.
pub proof fn lemma_ldx_value_and_flags(s: CpuView, m: AddrMode)
    requires
        decode(s.mem[s.pc as int]) == Some(Instruction::Ldx(m)),
    ensures
        step(s) is Some,
        ({
            let post = step(s).unwrap();
            let v = s.mem[ea(s, m) as int];
            &&& post.x == v
            &&& zero_flag(post.status) == (zero_flag(s.status) || v == 0)
            &&& negative_flag(post.status) == (negative_flag(s.status) || v & 0x80 != 0)
        }),
{
    lemma_flags_on(s.status, s.mem[ea(s, m) as int]);
}

/// The load law for index register Y: same value and flag behaviour as the
/// accumulator load, for every addressing mode it decodes with.
pub proof fn lemma_ldy_value_and_flags(s: CpuView, m: AddrMode)
    requires
        decode(s.mem[s.pc as int]) == Some(Instruction::Ldy(m)),
    ensures
        step(s) is Some,
        ({
            let post = step(s).unwrap();
            let v = s.mem[ea(s, m) as int];
            &&& post.y == v
            &&& zero_flag(post.status) == (zero_flag(s.status) || v == 0)
            &&& negative_flag(post.status) == (negative_flag(s.status) || v & 0x80 != 0)
        }),
{
    lemma_flags_on(s.status, s.mem[ea(s, m) as int]);
}

/// After any recognized instruction, the program counter stands at the
/// opcode address plus the instruction's total byte length, wrapping at 16
/// bits: one byte for the implied forms up to three for the absolute forms.
pub proof fn lemma_step_advances_pc(s: CpuView)
    requires
        step(s) is Some,
    ensures
        step(s).unwrap().pc as int == (s.pc + instr_len(decode(s.mem[s.pc as int]).unwrap()))
            % 0x10000,
{
    lemma_wrap_inc16_chain(s.pc);
    let i = decode(s.mem[s.pc as int]).unwrap();
    match i {
        Instruction::Lda(m) => {
            assert(step(s).unwrap().pc == wrap_inc16(pc_after_resolve(s, m)));
        },
        Instruction::Ldx(m) => {
            assert(step(s).unwrap().pc == wrap_inc16(pc_after_resolve(s, m)));
        },
        Instruction::Ldy(m) => {
            assert(step(s).unwrap().pc == wrap_inc16(pc_after_resolve(s, m)));
        },
        Instruction::Sta(m) => {
            assert(step(s).unwrap().pc == wrap_inc16(pc_after_resolve(s, m)));
        },
        Instruction::Stx(m) => {
            assert(step(s).unwrap().pc == wrap_inc16(pc_after_resolve(s, m)));
        },
        Instruction::Sty(m) => {
            assert(step(s).unwrap().pc == wrap_inc16(pc_after_resolve(s, m)));
        },
        _ => {
            assert(step(s).unwrap().pc == wrap_inc16(s.pc));
        },
    }
}

/// Chains of 16-bit wrapping increments, written as reduction modulo the
/// size of the address space.
proof fn lemma_wrap_inc16_chain(pc: u16)
    ensures
        wrap_inc16(pc) as int == (pc + 1) % 0x10000,
        wrap_inc16(wrap_inc16(pc)) as int == (pc + 2) % 0x10000,
        wrap_inc16(wrap_inc16(wrap_inc16(pc))) as int == (pc + 3) % 0x10000,
{
}

/// Zero-page indexed addressing wraps at 8 bits: the effective address is
/// the operand byte plus the index register, reduced modulo 256, and so
/// always stays inside the zero page.
pub proof fn lemma_zero_page_index_wraps(s: CpuView)
    ensures
        ea(s, AddrMode::Zpx) as int == (s.mem[operand_addr(s) as int] + s.x) % 256,
        ea(s, AddrMode::Zpy) as int == (s.mem[operand_addr(s) as int] + s.y) % 256,
        ea(s, AddrMode::Zpx) < 256,
        ea(s, AddrMode::Zpy) < 256,
{
}

/// The indirect modes perform the two-step dereference: a little-endian
/// 16-bit pointer is fetched from the zero page, at operand plus X (wrapping
/// at 8 bits) for indexed-indirect and at the operand itself for
/// indirect-indexed, and the effective address is that pointer, plus Y
/// (as a 16-bit sum) in the indirect-indexed case.
pub proof fn lemma_indirect_modes_dereference(s: CpuView)
    ensures
        ({
            let operand = s.mem[operand_addr(s) as int];
            let base = wrap_add8(operand, s.x);
            let x_pointer = ((s.mem[base as int + 1] as u16) << 8) | (s.mem[base as int] as u16);
            let y_pointer = ((s.mem[operand as int + 1] as u16) << 8) | (s.mem[
                operand as int] as u16);
            &&& ea(s, AddrMode::Inx) == x_pointer
            &&& ea(s, AddrMode::Iny) as int == (y_pointer + s.y) % 0x10000
        }),
{
}

/// The stack cell the stack pointer names lies in the stack page: the OR
/// with `0x0100` is exactly an addition, so the address is `0x0100 + sp`.
pub proof fn lemma_stack_addr_in_stack_page(sp: u8)
    ensures
        stack_addr(sp) as int == 0x0100 + sp,
        0x0100 <= stack_addr(sp) <= 0x01FF,
{
    assert((0x0100u16 | (sp as u16)) == 0x0100 + (sp as u16)) by (bit_vector);
}

/// Stack discipline of a push: the pushed byte lands at `0x0100 | sp` and
/// the stack pointer moves down by one, wrapping at 8 bits. Holds for both
/// push instructions; the accumulator push is stated here.
pub proof fn lemma_push_writes_stack_page(s: CpuView)
    requires
        s.mem.len() == 0x10000,
        decode(s.mem[s.pc as int]) == Some(Instruction::Pha),
    ensures
        step(s) is Some,
        ({
            let post = step(s).unwrap();
            &&& post.mem[stack_addr(s.sp) as int] == s.a
            &&& post.sp == wrap_dec8(s.sp)
            &&& forall|i: int|
                0 <= i < 0x10000 && i != stack_addr(s.sp) as int ==> post.mem[i] == s.mem[i]
        }),
{
    lemma_stack_addr_in_stack_page(s.sp);
}

/// Stack discipline of a pull: the stack pointer moves up by one first,
/// wrapping at 8 bits, and the byte then comes from `0x0100 | sp` at the new
/// stack pointer. Holds for both pull instructions; the accumulator pull is
/// stated here.
pub proof fn lemma_pull_reads_stack_page(s: CpuView)
    requires
        decode(s.mem[s.pc as int]) == Some(Instruction::Pla),
    ensures
        step(s) is Some,
        ({
            let post = step(s).unwrap();
            &&& post.sp == wrap_inc8(s.sp)
            &&& post.a == s.mem[stack_addr(wrap_inc8(s.sp)) as int]
        }),
{
}

/// A push immediately followed by a pull restores both the stack pointer
/// and the pushed value: after the accumulator push runs and the pull at
/// the next opcode address runs, the stack pointer is back where it began
/// and the accumulator holds the byte the push wrote. The pull opcode must
/// not sit in the very cell the push writes, or the push would overwrite it.
pub proof fn lemma_push_pull_round_trip(s: CpuView)
    requires
        s.mem.len() == 0x10000,
        decode(s.mem[s.pc as int]) == Some(Instruction::Pha),
        decode(s.mem[wrap_inc16(s.pc) as int]) == Some(Instruction::Pla),
        stack_addr(s.sp) != wrap_inc16(s.pc),
    ensures
        step(s) is Some,
        step(step(s).unwrap()) is Some,
        ({
            let pushed = step(s).unwrap();
            let pulled = step(pushed).unwrap();
            &&& pushed.mem[stack_addr(s.sp) as int] == s.a
            &&& pushed.sp == wrap_dec8(s.sp)
            &&& pulled.sp == s.sp
            &&& pulled.a == s.a
        }),
{
    lemma_stack_addr_in_stack_page(s.sp);
    let pushed = step(s).unwrap();
    assert(pushed.mem[wrap_inc16(s.pc) as int] == s.mem[wrap_inc16(s.pc) as int]);
    assert(pushed.sp == wrap_dec8(s.sp));
    lemma_stack_addr_in_stack_page(pushed.sp);
    let pulled = step(pushed).unwrap();
    assert(pulled.sp == s.sp);
    assert(pulled.a == pushed.mem[stack_addr(s.sp) as int]);
}

} // verus!
