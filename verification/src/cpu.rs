//! The CPU core: registers, flags, opcode dispatch, addressing-mode
//! resolution and the instruction handlers.
//!
//! The whole machine is mirrored by a mathematical model: `CpuView` is the
//! state as ghost data, and `step` says what one fetch-decode-execute cycle
//! does to it. Every executable method is proved against that model, and
//! `read_instruction` is proved to perform exactly one `step`.
//!
//! Register widths are part of the model: the program counter is 16 bits and
//! wraps at `0x10000`; the stack pointer and the zero-page index sums are
//! 8 bits and wrap at `0x100`. Flag updates are sticky: a handler only turns
//! its flag bits on, and bits are cleared only by `plp`, which replaces the
//! whole status byte.

use crate::ram::Ram;
use vstd::prelude::*;

verus! {

/// Carry flag, bit 0 of the status register.
pub const CARRY_FLAG_MASK: u8 = 0x01;

/// Zero flag, bit 1 of the status register.
pub const ZERO_FLAG_MASK: u8 = 0x02;

/// Interrupt-disable flag, bit 2 of the status register.
pub const INTERRUPT_FLAG_MASK: u8 = 0x04;

/// Decimal-mode flag, bit 3 of the status register.
pub const DECIMAL_MODE_MASK: u8 = 0x08;

/// Break-command flag, bit 4 of the status register.
pub const BREAK_COMMAND_MASK: u8 = 0x10;

/// Overflow flag, bit 5 of the status register.
pub const OVERFLOW_FLAG_MASK: u8 = 0x20;

/// Negative flag, bit 6 of the status register.
pub const NEGATIVE_FLAG_MASK: u8 = 0x40;

pub struct Cpu {
    /// Stack pointer: index into the stack page `0x0100`..`0x01FF`.
    pub sp: u8,
    /// Program counter: address of the next opcode byte to fetch.
    pub pc: u16,
    /// Accumulator.
    pub a: u8,
    /// Index register X.
    pub x: u8,
    /// Index register Y.
    pub y: u8,
    /// Status register: flag bitfield.
    pub status: u8,
    /// The memory this CPU owns.
    pub ram: Ram,
}

/// The CPU state as ghost data: the registers as they are, and the memory as
/// a sequence of bytes.
#[verifier::ext_equal]
pub ghost struct CpuView {
    pub sp: u8,
    pub pc: u16,
    pub a: u8,
    pub x: u8,
    pub y: u8,
    pub status: u8,
    pub mem: Seq<u8>,
}

impl View for Cpu {
    type V = CpuView;

    open spec fn view(&self) -> CpuView {
        CpuView {
            sp: self.sp,
            pc: self.pc,
            a: self.a,
            x: self.x,
            y: self.y,
            status: self.status,
            mem: self.ram@,
        }
    }
}

/// How an instruction names its operand.
pub enum AddrMode {
    /// The operand byte itself is the value.
    Imm,
    /// One operand byte, an address in the zero page.
    Zp,
    /// Zero-page address plus X, wrapping at 8 bits.
    Zpx,
    /// Zero-page address plus Y, wrapping at 8 bits.
    Zpy,
    /// Two operand bytes, little-endian, the full address.
    Abs,
    /// Absolute address plus X, as a 16-bit sum.
    Abx,
    /// Absolute address plus Y, as a 16-bit sum.
    Aby,
    /// Pointer fetched from the zero page at operand plus X (wrapping at
    /// 8 bits); the pointer is the address.
    Inx,
    /// Pointer fetched from the zero page at the operand; the address is the
    /// pointer plus Y, as a 16-bit sum.
    Iny,
}

/// The implemented instruction set: loads, stores, transfers and stack
/// operations.
pub enum Instruction {
    Lda(AddrMode),
    Ldx(AddrMode),
    Ldy(AddrMode),
    Sta(AddrMode),
    Stx(AddrMode),
    Sty(AddrMode),
    Tax,
    Tay,
    Txa,
    Tya,
    Tsx,
    Txs,
    Pha,
    Php,
    Pla,
    Plp,
}

/// Increment wrapping at 16 bits.
pub open spec fn wrap_inc16(v: u16) -> u16 {
    if v == 0xFFFF {
        0u16
    } else {
        (v + 1) as u16
    }
}

/// Sum wrapping at 16 bits.
pub open spec fn wrap_add16(a: u16, b: u16) -> u16 {
    if a + b > 0xFFFF {
        (a + b - 0x10000) as u16
    } else {
        (a + b) as u16
    }
}

/// Sum wrapping at 8 bits.
pub open spec fn wrap_add8(a: u8, b: u8) -> u8 {
    if a + b > 0xFF {
        (a + b - 0x100) as u8
    } else {
        (a + b) as u8
    }
}

/// Increment wrapping at 8 bits.
pub open spec fn wrap_inc8(v: u8) -> u8 {
    if v == 0xFF {
        0u8
    } else {
        (v + 1) as u8
    }
}

/// Decrement wrapping at 8 bits.
pub open spec fn wrap_dec8(v: u8) -> u8 {
    if v == 0 {
        0xFFu8
    } else {
        (v - 1) as u8
    }
}

/// The zero flag of a status byte.
pub open spec fn zero_flag(status: u8) -> bool {
    status & ZERO_FLAG_MASK != 0
}

/// The negative flag of a status byte.
pub open spec fn negative_flag(status: u8) -> bool {
    status & NEGATIVE_FLAG_MASK != 0
}

/// The status byte after an instruction stored the value `v` in a register:
/// the zero flag is turned on when `v` is zero, the negative flag when bit 7
/// of `v` is set. No bit is ever turned off.
pub open spec fn flags_on(status: u8, v: u8) -> u8 {
    let st = if v == 0 {
        status | ZERO_FLAG_MASK
    } else {
        status
    };
    if v & 0x80 != 0 {
        st | NEGATIVE_FLAG_MASK
    } else {
        st
    }
}

/// The address of the stack cell the stack pointer names: `0x0100 | sp`.
pub open spec fn stack_addr(sp: u8) -> u16 {
    0x0100u16 | (sp as u16)
}

/// The address of the first operand byte: one past the opcode.
pub open spec fn operand_addr(s: CpuView) -> u16 {
    wrap_inc16(s.pc)
}

/// The 16-bit little-endian operand of an absolute-mode instruction.
pub open spec fn abs_operand(s: CpuView) -> u16 {
    let lo = s.mem[operand_addr(s) as int];
    let hi = s.mem[wrap_inc16(operand_addr(s)) as int];
    ((hi as u16) << 8) | (lo as u16)
}

/// The 16-bit little-endian pointer stored in the zero page at `base`. The
/// high byte comes from `base + 1` without wrapping, so for `base == 0xFF`
/// it is the byte just past the zero page, at `0x0100`.
pub open spec fn zp_pointer(s: CpuView, base: u8) -> u16 {
    let lo = s.mem[base as int];
    let hi = s.mem[base as int + 1];
    ((hi as u16) << 8) | (lo as u16)
}

/// The effective address an addressing mode resolves to, with the program
/// counter still at the opcode byte.
pub open spec fn ea(s: CpuView, mode: AddrMode) -> u16 {
    match mode {
        AddrMode::Imm => operand_addr(s),
        AddrMode::Zp => s.mem[operand_addr(s) as int] as u16,
        AddrMode::Zpx => wrap_add8(s.mem[operand_addr(s) as int], s.x) as u16,
        AddrMode::Zpy => wrap_add8(s.mem[operand_addr(s) as int], s.y) as u16,
        AddrMode::Abs => abs_operand(s),
        AddrMode::Abx => wrap_add16(abs_operand(s), s.x as u16),
        AddrMode::Aby => wrap_add16(abs_operand(s), s.y as u16),
        AddrMode::Inx => zp_pointer(s, wrap_add8(s.mem[operand_addr(s) as int], s.x)),
        AddrMode::Iny => wrap_add16(zp_pointer(s, s.mem[operand_addr(s) as int]), s.y as u16),
    }
}

/// How many operand bytes an addressing mode consumes.
pub open spec fn operand_len(mode: AddrMode) -> int {
    match mode {
        AddrMode::Abs | AddrMode::Abx | AddrMode::Aby => 2,
        _ => 1,
    }
}

/// The program counter a resolver leaves behind: at the last operand byte.
pub open spec fn pc_after_resolve(s: CpuView, mode: AddrMode) -> u16 {
    if operand_len(mode) == 2 {
        wrap_inc16(wrap_inc16(s.pc))
    } else {
        wrap_inc16(s.pc)
    }
}

/// The state after an addressing-mode resolver ran: only the program counter
/// moved, to the last operand byte.
pub open spec fn resolved(s: CpuView, mode: AddrMode) -> CpuView {
    CpuView { pc: pc_after_resolve(s, mode), ..s }
}

/// Load into the accumulator from `addr`, set flags from the value, step
/// past the instruction.
pub open spec fn lda_effect(s: CpuView, addr: u16) -> CpuView {
    CpuView {
        a: s.mem[addr as int],
        status: flags_on(s.status, s.mem[addr as int]),
        pc: wrap_inc16(s.pc),
        ..s
    }
}

/// Load into index register X from `addr`.
pub open spec fn ldx_effect(s: CpuView, addr: u16) -> CpuView {
    CpuView {
        x: s.mem[addr as int],
        status: flags_on(s.status, s.mem[addr as int]),
        pc: wrap_inc16(s.pc),
        ..s
    }
}

/// Load into index register Y from `addr`.
pub open spec fn ldy_effect(s: CpuView, addr: u16) -> CpuView {
    CpuView {
        y: s.mem[addr as int],
        status: flags_on(s.status, s.mem[addr as int]),
        pc: wrap_inc16(s.pc),
        ..s
    }
}

/// Store the accumulator at `addr`; no flag effect.
pub open spec fn sta_effect(s: CpuView, addr: u16) -> CpuView {
    CpuView { mem: s.mem.update(addr as int, s.a), pc: wrap_inc16(s.pc), ..s }
}

/// Store index register X at `addr`; no flag effect.
pub open spec fn stx_effect(s: CpuView, addr: u16) -> CpuView {
    CpuView { mem: s.mem.update(addr as int, s.x), pc: wrap_inc16(s.pc), ..s }
}

/// Store index register Y at `addr`; no flag effect.
pub open spec fn sty_effect(s: CpuView, addr: u16) -> CpuView {
    CpuView { mem: s.mem.update(addr as int, s.y), pc: wrap_inc16(s.pc), ..s }
}

/// Copy the accumulator into X; set flags from the copied value.
pub open spec fn tax_effect(s: CpuView) -> CpuView {
    CpuView { x: s.a, status: flags_on(s.status, s.a), pc: wrap_inc16(s.pc), ..s }
}

/// Copy the accumulator into Y; set flags from the copied value.
pub open spec fn tay_effect(s: CpuView) -> CpuView {
    CpuView { y: s.a, status: flags_on(s.status, s.a), pc: wrap_inc16(s.pc), ..s }
}

/// Copy X into the accumulator; set flags from the copied value.
pub open spec fn txa_effect(s: CpuView) -> CpuView {
    CpuView { a: s.x, status: flags_on(s.status, s.x), pc: wrap_inc16(s.pc), ..s }
}

/// Copy Y into the accumulator; set flags from the copied value.
pub open spec fn tya_effect(s: CpuView) -> CpuView {
    CpuView { a: s.y, status: flags_on(s.status, s.y), pc: wrap_inc16(s.pc), ..s }
}

/// Copy the stack pointer into X; set flags from the copied value.
pub open spec fn tsx_effect(s: CpuView) -> CpuView {
    CpuView { x: s.sp, status: flags_on(s.status, s.sp), pc: wrap_inc16(s.pc), ..s }
}

/// Copy X into the stack pointer; no flag effect.
pub open spec fn txs_effect(s: CpuView) -> CpuView {
    CpuView { sp: s.x, pc: wrap_inc16(s.pc), ..s }
}

/// Push the accumulator: write it at `0x0100 | sp`, then decrement the stack
/// pointer, wrapping at 8 bits.
pub open spec fn pha_effect(s: CpuView) -> CpuView {
    CpuView {
        mem: s.mem.update(stack_addr(s.sp) as int, s.a),
        pc: wrap_inc16(s.pc),
        sp: wrap_dec8(s.sp),
        ..s
    }
}

/// Push the status register.
pub open spec fn php_effect(s: CpuView) -> CpuView {
    CpuView {
        mem: s.mem.update(stack_addr(s.sp) as int, s.status),
        pc: wrap_inc16(s.pc),
        sp: wrap_dec8(s.sp),
        ..s
    }
}

/// Pull the accumulator: increment the stack pointer first, then read
/// `0x0100 | sp` into A and set flags from the pulled value.
pub open spec fn pla_effect(s: CpuView) -> CpuView {
    let sp = wrap_inc8(s.sp);
    let v = s.mem[stack_addr(sp) as int];
    CpuView { sp, a: v, status: flags_on(s.status, v), pc: wrap_inc16(s.pc), ..s }
}

/// Pull the status register: the whole status byte is replaced.
pub open spec fn plp_effect(s: CpuView) -> CpuView {
    let sp = wrap_inc8(s.sp);
    CpuView { sp, status: s.mem[stack_addr(sp) as int], pc: wrap_inc16(s.pc), ..s }
}

/// The dispatch table: which instruction an opcode byte names, or `None`
/// for every opcode outside the implemented set.
pub open spec fn decode(opcode: u8) -> Option<Instruction> {
    if opcode == 0xA9 {
        Some(Instruction::Lda(AddrMode::Imm))
    } else if opcode == 0xA5 {
        Some(Instruction::Lda(AddrMode::Zp))
    } else if opcode == 0xB5 {
        Some(Instruction::Lda(AddrMode::Zpx))
    } else if opcode == 0xAD {
        Some(Instruction::Lda(AddrMode::Abs))
    } else if opcode == 0xBD {
        Some(Instruction::Lda(AddrMode::Abx))
    } else if opcode == 0xB9 {
        Some(Instruction::Lda(AddrMode::Aby))
    } else if opcode == 0xA1 {
        Some(Instruction::Lda(AddrMode::Inx))
    } else if opcode == 0xB1 {
        Some(Instruction::Lda(AddrMode::Iny))
    } else if opcode == 0xA2 {
        Some(Instruction::Ldx(AddrMode::Imm))
    } else if opcode == 0xA6 {
        Some(Instruction::Ldx(AddrMode::Zp))
    } else if opcode == 0xB6 {
        Some(Instruction::Ldx(AddrMode::Zpy))
    } else if opcode == 0xAE {
        Some(Instruction::Ldx(AddrMode::Abs))
    } else if opcode == 0xBE {
        Some(Instruction::Ldx(AddrMode::Aby))
    } else if opcode == 0xA0 {
        Some(Instruction::Ldy(AddrMode::Imm))
    } else if opcode == 0xA4 {
        Some(Instruction::Ldy(AddrMode::Zp))
    } else if opcode == 0xB4 {
        Some(Instruction::Ldy(AddrMode::Zpx))
    } else if opcode == 0xAC {
        Some(Instruction::Ldy(AddrMode::Abs))
    } else if opcode == 0xBC {
        Some(Instruction::Ldy(AddrMode::Abx))
    } else if opcode == 0x85 {
        Some(Instruction::Sta(AddrMode::Zp))
    } else if opcode == 0x95 {
        Some(Instruction::Sta(AddrMode::Zpx))
    } else if opcode == 0x8D {
        Some(Instruction::Sta(AddrMode::Abs))
    } else if opcode == 0x9D {
        Some(Instruction::Sta(AddrMode::Abx))
    } else if opcode == 0x99 {
        Some(Instruction::Sta(AddrMode::Aby))
    } else if opcode == 0x81 {
        Some(Instruction::Sta(AddrMode::Inx))
    } else if opcode == 0x91 {
        Some(Instruction::Sta(AddrMode::Iny))
    } else if opcode == 0x86 {
        Some(Instruction::Stx(AddrMode::Zp))
    } else if opcode == 0x96 {
        Some(Instruction::Stx(AddrMode::Zpy))
    } else if opcode == 0x8E {
        Some(Instruction::Stx(AddrMode::Abs))
    } else if opcode == 0x84 {
        Some(Instruction::Sty(AddrMode::Zp))
    } else if opcode == 0x94 {
        Some(Instruction::Sty(AddrMode::Zpx))
    } else if opcode == 0x8C {
        Some(Instruction::Sty(AddrMode::Abs))
    } else if opcode == 0xAA {
        Some(Instruction::Tax)
    } else if opcode == 0xA8 {
        Some(Instruction::Tay)
    } else if opcode == 0x8A {
        Some(Instruction::Txa)
    } else if opcode == 0x98 {
        Some(Instruction::Tya)
    } else if opcode == 0xBA {
        Some(Instruction::Tsx)
    } else if opcode == 0x9A {
        Some(Instruction::Txs)
    } else if opcode == 0x48 {
        Some(Instruction::Pha)
    } else if opcode == 0x08 {
        Some(Instruction::Php)
    } else if opcode == 0x68 {
        Some(Instruction::Pla)
    } else if opcode == 0x28 {
        Some(Instruction::Plp)
    } else {
        None
    }
}

/// Total instruction length in bytes: the opcode plus its operand bytes.
pub open spec fn instr_len(i: Instruction) -> int {
    match i {
        Instruction::Lda(m) => 1 + operand_len(m),
        Instruction::Ldx(m) => 1 + operand_len(m),
        Instruction::Ldy(m) => 1 + operand_len(m),
        Instruction::Sta(m) => 1 + operand_len(m),
        Instruction::Stx(m) => 1 + operand_len(m),
        Instruction::Sty(m) => 1 + operand_len(m),
        _ => 1,
    }
}

/// The state after one instruction ran, with the program counter at the
/// opcode byte when it starts.
pub open spec fn exec_instr(s: CpuView, i: Instruction) -> CpuView {
    match i {
        Instruction::Lda(m) => lda_effect(resolved(s, m), ea(s, m)),
        Instruction::Ldx(m) => ldx_effect(resolved(s, m), ea(s, m)),
        Instruction::Ldy(m) => ldy_effect(resolved(s, m), ea(s, m)),
        Instruction::Sta(m) => sta_effect(resolved(s, m), ea(s, m)),
        Instruction::Stx(m) => stx_effect(resolved(s, m), ea(s, m)),
        Instruction::Sty(m) => sty_effect(resolved(s, m), ea(s, m)),
        Instruction::Tax => tax_effect(s),
        Instruction::Tay => tay_effect(s),
        Instruction::Txa => txa_effect(s),
        Instruction::Tya => tya_effect(s),
        Instruction::Tsx => tsx_effect(s),
        Instruction::Txs => txs_effect(s),
        Instruction::Pha => pha_effect(s),
        Instruction::Php => php_effect(s),
        Instruction::Pla => pla_effect(s),
        Instruction::Plp => plp_effect(s),
    }
}

/// One fetch-decode-execute cycle on the model: fetch the opcode at the
/// program counter, decode it, run the instruction. `None` is the fatal
/// unrecognized-opcode condition.
pub open spec fn step(s: CpuView) -> Option<CpuView> {
    match decode(s.mem[s.pc as int]) {
        Some(i) => Some(exec_instr(s, i)),
        None => None,
    }
}

impl Cpu {
    /// A fresh CPU: all registers zero, the stack pointer at the top of the
    /// stack page, owning the given memory.
    pub fn create(ram: Ram) -> (r: Cpu)
        ensures
            r.sp == 0xFF,
            r.pc == 0,
            r.a == 0,
            r.x == 0,
            r.y == 0,
            r.status == 0,
            r.ram@ == ram@,
    {
        Cpu { sp: 0xFF, pc: 0, a: 0, x: 0, y: 0, status: 0, ram }
    }

    pub fn get_carry_flag(&self) -> (r: bool)
        ensures
            r == (self.status & CARRY_FLAG_MASK != 0),
    {
        self.status & CARRY_FLAG_MASK != 0
    }

    pub fn get_zero_flag(&self) -> (r: bool)
        ensures
            r == zero_flag(self.status),
    {
        self.status & ZERO_FLAG_MASK != 0
    }

    pub fn set_zero_flag(&mut self)
        ensures
            final(self)@ == (CpuView { status: old(self).status | ZERO_FLAG_MASK, ..old(self)@ }),
    {
        self.status = self.status | ZERO_FLAG_MASK;
    }

    pub fn get_interrupt_flag(&self) -> (r: bool)
        ensures
            r == (self.status & INTERRUPT_FLAG_MASK != 0),
    {
        self.status & INTERRUPT_FLAG_MASK != 0
    }

    pub fn get_decimal_mode(&self) -> (r: bool)
        ensures
            r == (self.status & DECIMAL_MODE_MASK != 0),
    {
        self.status & DECIMAL_MODE_MASK != 0
    }

    pub fn get_break_command(&self) -> (r: bool)
        ensures
            r == (self.status & BREAK_COMMAND_MASK != 0),
    {
        self.status & BREAK_COMMAND_MASK != 0
    }

    pub fn get_overflow_flag(&self) -> (r: bool)
        ensures
            r == (self.status & OVERFLOW_FLAG_MASK != 0),
    {
        self.status & OVERFLOW_FLAG_MASK != 0
    }

    pub fn get_negative_flag(&self) -> (r: bool)
        ensures
            r == negative_flag(self.status),
    {
        self.status & NEGATIVE_FLAG_MASK != 0
    }

    pub fn set_negative_flag(&mut self)
        ensures
            final(self)@ == (CpuView {
                status: old(self).status | NEGATIVE_FLAG_MASK,
                ..old(self)@
            }),
    {
        self.status = self.status | NEGATIVE_FLAG_MASK;
    }

    /// One fetch-decode-execute cycle. Performs exactly one `step` of the
    /// model; an opcode outside the implemented set is fatal: nothing
    /// changes and the offending byte comes back as the error.
    pub fn read_instruction(&mut self) -> (r: Result<(), u8>)
        ensures
            ({
                let pre = old(self)@;
                match step(pre) {
                    Some(post) => r == Ok::<(), u8>(()) && final(self)@ == post,
                    None => r == Err::<(), u8>(pre.mem[pre.pc as int]) && final(self)@ == pre,
                }
            }),
    {
        let opcode = self.ram.read(self.pc);
        match Cpu::get_instruction(opcode) {
            None => Err(opcode),
            Some(instruction) => {
                match instruction {
                    Instruction::Lda(m) => {
                        let addr = self.resolve(m);
                        self.lda(addr);
                    },
                    Instruction::Ldx(m) => {
                        let addr = self.resolve(m);
                        self.ldx(addr);
                    },
                    Instruction::Ldy(m) => {
                        let addr = self.resolve(m);
                        self.ldy(addr);
                    },
                    Instruction::Sta(m) => {
                        let addr = self.resolve(m);
                        self.sta(addr);
                    },
                    Instruction::Stx(m) => {
                        let addr = self.resolve(m);
                        self.stx(addr);
                    },
                    Instruction::Sty(m) => {
                        let addr = self.resolve(m);
                        self.sty(addr);
                    },
                    Instruction::Tax => self.tax(),
                    Instruction::Tay => self.tay(),
                    Instruction::Txa => self.txa(),
                    Instruction::Tya => self.tya(),
                    Instruction::Tsx => self.tsx(),
                    Instruction::Txs => self.txs(),
                    Instruction::Pha => self.pha(),
                    Instruction::Php => self.php(),
                    Instruction::Pla => self.pla(),
                    Instruction::Plp => self.plp(),
                }
                Ok(())
            },
        }
    }

    /// The dispatch table as executable code: a total function from opcode
    /// byte to instruction, `None` outside the implemented set.
    pub fn get_instruction(opcode: u8) -> (r: Option<Instruction>)
        ensures
            r == decode(opcode),
    {
        match opcode {
            0xA9 => Some(Instruction::Lda(AddrMode::Imm)),
            0xA5 => Some(Instruction::Lda(AddrMode::Zp)),
            0xB5 => Some(Instruction::Lda(AddrMode::Zpx)),
            0xAD => Some(Instruction::Lda(AddrMode::Abs)),
            0xBD => Some(Instruction::Lda(AddrMode::Abx)),
            0xB9 => Some(Instruction::Lda(AddrMode::Aby)),
            0xA1 => Some(Instruction::Lda(AddrMode::Inx)),
            0xB1 => Some(Instruction::Lda(AddrMode::Iny)),
            0xA2 => Some(Instruction::Ldx(AddrMode::Imm)),
            0xA6 => Some(Instruction::Ldx(AddrMode::Zp)),
            0xB6 => Some(Instruction::Ldx(AddrMode::Zpy)),
            0xAE => Some(Instruction::Ldx(AddrMode::Abs)),
            0xBE => Some(Instruction::Ldx(AddrMode::Aby)),
            0xA0 => Some(Instruction::Ldy(AddrMode::Imm)),
            0xA4 => Some(Instruction::Ldy(AddrMode::Zp)),
            0xB4 => Some(Instruction::Ldy(AddrMode::Zpx)),
            0xAC => Some(Instruction::Ldy(AddrMode::Abs)),
            0xBC => Some(Instruction::Ldy(AddrMode::Abx)),
            0x85 => Some(Instruction::Sta(AddrMode::Zp)),
            0x95 => Some(Instruction::Sta(AddrMode::Zpx)),
            0x8D => Some(Instruction::Sta(AddrMode::Abs)),
            0x9D => Some(Instruction::Sta(AddrMode::Abx)),
            0x99 => Some(Instruction::Sta(AddrMode::Aby)),
            0x81 => Some(Instruction::Sta(AddrMode::Inx)),
            0x91 => Some(Instruction::Sta(AddrMode::Iny)),
            0x86 => Some(Instruction::Stx(AddrMode::Zp)),
            0x96 => Some(Instruction::Stx(AddrMode::Zpy)),
            0x8E => Some(Instruction::Stx(AddrMode::Abs)),
            0x84 => Some(Instruction::Sty(AddrMode::Zp)),
            0x94 => Some(Instruction::Sty(AddrMode::Zpx)),
            0x8C => Some(Instruction::Sty(AddrMode::Abs)),
            0xAA => Some(Instruction::Tax),
            0xA8 => Some(Instruction::Tay),
            0x8A => Some(Instruction::Txa),
            0x98 => Some(Instruction::Tya),
            0xBA => Some(Instruction::Tsx),
            0x9A => Some(Instruction::Txs),
            0x48 => Some(Instruction::Pha),
            0x08 => Some(Instruction::Php),
            0x68 => Some(Instruction::Pla),
            0x28 => Some(Instruction::Plp),
            _ => None,
        }
    }

    /// Resolve an addressing mode: advance the program counter to the last
    /// operand byte and return the effective address.
    pub fn resolve(&mut self, mode: AddrMode) -> (addr: u16)
        ensures
            addr == ea(old(self)@, mode),
            final(self)@ == resolved(old(self)@, mode),
    {
        match mode {
            AddrMode::Imm => self.imm(),
            AddrMode::Zp => self.zp(),
            AddrMode::Zpx => self.zpx(),
            AddrMode::Zpy => self.zpy(),
            AddrMode::Abs => self.abs(),
            AddrMode::Abx => self.abx(),
            AddrMode::Aby => self.aby(),
            AddrMode::Inx => self.inx(),
            AddrMode::Iny => self.iny(),
        }
    }

    /// Immediate: the operand byte itself is the value, so its own address
    /// comes back.
    pub fn imm(&mut self) -> (addr: u16)
        ensures
            addr == ea(old(self)@, AddrMode::Imm),
            final(self)@ == resolved(old(self)@, AddrMode::Imm),
    {
        self.pc = self.pc.wrapping_add(1);
        self.pc
    }

    /// Zero page: the operand byte, zero-extended.
    pub fn zp(&mut self) -> (addr: u16)
        ensures
            addr == ea(old(self)@, AddrMode::Zp),
            final(self)@ == resolved(old(self)@, AddrMode::Zp),
    {
        self.pc = self.pc.wrapping_add(1);
        let operand = self.ram.read(self.pc);
        operand as u16
    }

    /// Zero page indexed by X: the sum wraps at 8 bits.
    pub fn zpx(&mut self) -> (addr: u16)
        ensures
            addr == ea(old(self)@, AddrMode::Zpx),
            final(self)@ == resolved(old(self)@, AddrMode::Zpx),
    {
        self.pc = self.pc.wrapping_add(1);
        let operand = self.ram.read(self.pc);
        operand.wrapping_add(self.x) as u16
    }

    /// Zero page indexed by Y: the sum wraps at 8 bits.
    pub fn zpy(&mut self) -> (addr: u16)
        ensures
            addr == ea(old(self)@, AddrMode::Zpy),
            final(self)@ == resolved(old(self)@, AddrMode::Zpy),
    {
        self.pc = self.pc.wrapping_add(1);
        let operand = self.ram.read(self.pc);
        operand.wrapping_add(self.y) as u16
    }

    /// Absolute: two operand bytes, little-endian.
    pub fn abs(&mut self) -> (addr: u16)
        ensures
            addr == ea(old(self)@, AddrMode::Abs),
            final(self)@ == resolved(old(self)@, AddrMode::Abs),
    {
        self.pc = self.pc.wrapping_add(1);
        let lo = self.ram.read(self.pc);
        self.pc = self.pc.wrapping_add(1);
        let hi = self.ram.read(self.pc);
        ((hi as u16) << 8) | (lo as u16)
    }

    /// Absolute indexed by X: a 16-bit sum over the whole address space.
    pub fn abx(&mut self) -> (addr: u16)
        ensures
            addr == ea(old(self)@, AddrMode::Abx),
            final(self)@ == resolved(old(self)@, AddrMode::Abx),
    {
        let base = self.abs();
        base.wrapping_add(self.x as u16)
    }

    /// Absolute indexed by Y: a 16-bit sum over the whole address space.
    pub fn aby(&mut self) -> (addr: u16)
        ensures
            addr == ea(old(self)@, AddrMode::Aby),
            final(self)@ == resolved(old(self)@, AddrMode::Aby),
    {
        let base = self.abs();
        base.wrapping_add(self.y as u16)
    }

    /// Indexed indirect: fetch a little-endian pointer from the zero page at
    /// operand plus X (wrapping at 8 bits); the pointer is the address.
    pub fn inx(&mut self) -> (addr: u16)
        ensures
            addr == ea(old(self)@, AddrMode::Inx),
            final(self)@ == resolved(old(self)@, AddrMode::Inx),
    {
        self.pc = self.pc.wrapping_add(1);
        let operand = self.ram.read(self.pc);
        let base = operand.wrapping_add(self.x);
        let lo = self.ram.read(base as u16);
        let hi = self.ram.read(base as u16 + 1);
        ((hi as u16) << 8) | (lo as u16)
    }

    /// Indirect indexed: fetch a little-endian pointer from the zero page at
    /// the operand; the address is the pointer plus Y, a 16-bit sum.
    pub fn iny(&mut self) -> (addr: u16)
        ensures
            addr == ea(old(self)@, AddrMode::Iny),
            final(self)@ == resolved(old(self)@, AddrMode::Iny),
    {
        self.pc = self.pc.wrapping_add(1);
        let operand = self.ram.read(self.pc);
        let lo = self.ram.read(operand as u16);
        let hi = self.ram.read(operand as u16 + 1);
        let pointer = ((hi as u16) << 8) | (lo as u16);
        pointer.wrapping_add(self.y as u16)
    }

    /// The stack-page address the stack pointer names.
    pub fn get_sp_addr(&self) -> (addr: u16)
        ensures
            addr == stack_addr(self.sp),
    {
        0x0100 | self.sp as u16
    }

    /// Load accumulator from the resolved address.
    pub fn lda(&mut self, addr: u16)
        ensures
            final(self)@ == lda_effect(old(self)@, addr),
    {
        self.a = self.ram.read(addr);
        if self.a == 0 {
            self.set_zero_flag()
        }
        if self.a & 0x80 != 0 {
            self.set_negative_flag()
        }
        self.pc = self.pc.wrapping_add(1);
    }

    /// Load index register X from the resolved address.
    pub fn ldx(&mut self, addr: u16)
        ensures
            final(self)@ == ldx_effect(old(self)@, addr),
    {
        self.x = self.ram.read(addr);
        if self.x == 0 {
            self.set_zero_flag()
        }
        if self.x & 0x80 != 0 {
            self.set_negative_flag()
        }
        self.pc = self.pc.wrapping_add(1);
    }

    /// Load index register Y from the resolved address.
    pub fn ldy(&mut self, addr: u16)
        ensures
            final(self)@ == ldy_effect(old(self)@, addr),
    {
        self.y = self.ram.read(addr);
        if self.y == 0 {
            self.set_zero_flag()
        }
        if self.y & 0x80 != 0 {
            self.set_negative_flag()
        }
        self.pc = self.pc.wrapping_add(1);
    }

    /// Store the accumulator at the resolved address.
    pub fn sta(&mut self, addr: u16)
        ensures
            final(self)@ == sta_effect(old(self)@, addr),
    {
        let value = self.a;
        self.ram.write(addr, value);
        self.pc = self.pc.wrapping_add(1);
    }

    /// Store index register X at the resolved address.
    pub fn stx(&mut self, addr: u16)
        ensures
            final(self)@ == stx_effect(old(self)@, addr),
    {
        let value = self.x;
        self.ram.write(addr, value);
        self.pc = self.pc.wrapping_add(1);
    }

    /// Store index register Y at the resolved address.
    pub fn sty(&mut self, addr: u16)
        ensures
            final(self)@ == sty_effect(old(self)@, addr),
    {
        let value = self.y;
        self.ram.write(addr, value);
        self.pc = self.pc.wrapping_add(1);
    }

    /// Transfer the accumulator to X.
    pub fn tax(&mut self)
        ensures
            final(self)@ == tax_effect(old(self)@),
    {
        self.x = self.a;
        if self.x == 0 {
            self.set_zero_flag()
        }
        if self.x & 0x80 != 0 {
            self.set_negative_flag()
        }
        self.pc = self.pc.wrapping_add(1);
    }

    /// Transfer the accumulator to Y.
    pub fn tay(&mut self)
        ensures
            final(self)@ == tay_effect(old(self)@),
    {
        self.y = self.a;
        if self.y == 0 {
            self.set_zero_flag()
        }
        if self.y & 0x80 != 0 {
            self.set_negative_flag()
        }
        self.pc = self.pc.wrapping_add(1);
    }

    /// Transfer X to the accumulator.
    pub fn txa(&mut self)
        ensures
            final(self)@ == txa_effect(old(self)@),
    {
        self.a = self.x;
        if self.a == 0 {
            self.set_zero_flag()
        }
        if self.a & 0x80 != 0 {
            self.set_negative_flag()
        }
        self.pc = self.pc.wrapping_add(1);
    }

    /// Transfer Y to the accumulator.
    pub fn tya(&mut self)
        ensures
            final(self)@ == tya_effect(old(self)@),
    {
        self.a = self.y;
        if self.a == 0 {
            self.set_zero_flag()
        }
        if self.a & 0x80 != 0 {
            self.set_negative_flag()
        }
        self.pc = self.pc.wrapping_add(1);
    }

    /// Transfer the stack pointer to X. Unlike `txs`, this sets flags.
    pub fn tsx(&mut self)
        ensures
            final(self)@ == tsx_effect(old(self)@),
    {
        self.x = self.sp;
        if self.x == 0 {
            self.set_zero_flag()
        }
        if self.x & 0x80 != 0 {
            self.set_negative_flag()
        }
        self.pc = self.pc.wrapping_add(1);
    }

    /// Transfer X to the stack pointer; never touches the flags.
    pub fn txs(&mut self)
        ensures
            final(self)@ == txs_effect(old(self)@),
    {
        self.sp = self.x;
        self.pc = self.pc.wrapping_add(1);
    }

    /// Push the accumulator onto the stack page.
    pub fn pha(&mut self)
        ensures
            final(self)@ == pha_effect(old(self)@),
    {
        let addr = self.get_sp_addr();
        let value = self.a;
        self.ram.write(addr, value);
        self.pc = self.pc.wrapping_add(1);
        self.sp = self.sp.wrapping_sub(1);
    }

    /// Push the status register onto the stack page.
    pub fn php(&mut self)
        ensures
            final(self)@ == php_effect(old(self)@),
    {
        let addr = self.get_sp_addr();
        let value = self.status;
        self.ram.write(addr, value);
        self.pc = self.pc.wrapping_add(1);
        self.sp = self.sp.wrapping_sub(1);
    }

    /// Pull the accumulator from the stack page; sets flags from the pulled
    /// value.
    pub fn pla(&mut self)
        ensures
            final(self)@ == pla_effect(old(self)@),
    {
        self.sp = self.sp.wrapping_add(1);
        let addr = self.get_sp_addr();
        self.a = self.ram.read(addr);
        if self.a == 0 {
            self.set_zero_flag()
        }
        if self.a & 0x80 != 0 {
            self.set_negative_flag()
        }
        self.pc = self.pc.wrapping_add(1);
    }

    /// Pull the status register from the stack page: every flag is replaced
    /// at once.
    pub fn plp(&mut self)
        ensures
            final(self)@ == plp_effect(old(self)@),
    {
        self.sp = self.sp.wrapping_add(1);
        let addr = self.get_sp_addr();
        self.status = self.ram.read(addr);
        self.pc = self.pc.wrapping_add(1);
    }
}

} // verus!
