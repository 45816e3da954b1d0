//! The mathematical model of the processor: an abstract machine state and
//! one specification function per instruction family. Every executable
//! routine of the interpreter is proved to transform the state exactly as
//! these functions say.

use vstd::prelude::*;

use crate::cpu::{even_parity, Pair, Reg, StackReg, StepOutcome};

verus! {

/// The abstract processor state: register contents, the five condition
/// flags, program counter, stack pointer, interrupt-enable flag, and the
/// 65,536-byte address space.
#[verifier::ext_equal]
pub struct CpuState {
    pub a: u8,
    pub b: u8,
    pub c: u8,
    pub d: u8,
    pub e: u8,
    pub h: u8,
    pub l: u8,
    pub carry: bool,
    pub aux_carry: bool,
    pub zero: bool,
    pub parity: bool,
    pub sign: bool,
    pub pc: u16,
    pub sp: u16,
    pub int_enable: bool,
    pub mem: Seq<u8>,
}

/// The one structural requirement on an abstract state: the address space
/// holds exactly 65,536 bytes.
pub open spec fn state_wf(s: CpuState) -> bool {
    s.mem.len() == 0x10000
}

/// 16-bit wraparound: all address arithmetic is performed modulo 65,536.
pub open spec fn wrap16(v: int) -> u16 {
    (v % 0x10000) as u16
}

/// 8-bit truncation of a wider intermediate result.
pub open spec fn wrap8(v: int) -> u8 {
    (v % 0x100) as u8
}

/// A 16-bit value composed from a high and a low byte.
pub open spec fn word(hi: u8, lo: u8) -> u16 {
    (hi * 256 + lo) as u16
}

/// High byte of a 16-bit value.
pub open spec fn hi_byte(v: u16) -> u8 {
    (v / 256) as u8
}

/// Low byte of a 16-bit value.
pub open spec fn lo_byte(v: u16) -> u8 {
    (v % 256) as u8
}

/// The byte at address `addr`.
pub open spec fn mem_at(s: CpuState, addr: u16) -> u8 {
    s.mem[addr as int]
}

/// The immediate byte following the opcode.
pub open spec fn imm8(s: CpuState) -> u8 {
    mem_at(s, wrap16(s.pc + 1))
}

/// The immediate 16-bit value following the opcode, low byte first.
pub open spec fn imm16(s: CpuState) -> u16 {
    word(mem_at(s, wrap16(s.pc + 2)), mem_at(s, wrap16(s.pc + 1)))
}

/// 0 or 1 as the arithmetic contribution of a flag.
pub open spec fn flag_bit(b: bool) -> int {
    if b {
        1
    } else {
        0
    }
}

/// Advance the program counter by the encoded instruction width.
pub open spec fn spec_advance(s: CpuState, width: int) -> CpuState {
    CpuState { pc: wrap16(s.pc + width), ..s }
}

/// The value of an 8-bit operand location; `M` reads the cell addressed by HL.
pub open spec fn reg_read(s: CpuState, r: Reg) -> u8 {
    match r {
        Reg::B => s.b,
        Reg::C => s.c,
        Reg::D => s.d,
        Reg::E => s.e,
        Reg::H => s.h,
        Reg::L => s.l,
        Reg::M => mem_at(s, word(s.h, s.l)),
        Reg::A => s.a,
    }
}

/// Store into an 8-bit operand location; `M` writes the cell addressed by HL.
pub open spec fn reg_write(s: CpuState, r: Reg, v: u8) -> CpuState {
    match r {
        Reg::B => CpuState { b: v, ..s },
        Reg::C => CpuState { c: v, ..s },
        Reg::D => CpuState { d: v, ..s },
        Reg::E => CpuState { e: v, ..s },
        Reg::H => CpuState { h: v, ..s },
        Reg::L => CpuState { l: v, ..s },
        Reg::M => CpuState { mem: s.mem.update(word(s.h, s.l) as int, v), ..s },
        Reg::A => CpuState { a: v, ..s },
    }
}

/// A register pair read as one 16-bit value: high register times 256 plus
/// the low register; `Sp` reads the stack pointer itself.
pub open spec fn pair_read(s: CpuState, p: Pair) -> u16 {
    match p {
        Pair::B => word(s.b, s.c),
        Pair::D => word(s.d, s.e),
        Pair::H => word(s.h, s.l),
        Pair::Sp => s.sp,
    }
}

/// A register pair written as one 16-bit value, decomposed into its high
/// and low register.
pub open spec fn pair_write(s: CpuState, p: Pair, v: u16) -> CpuState {
    match p {
        Pair::B => CpuState { b: hi_byte(v), c: lo_byte(v), ..s },
        Pair::D => CpuState { d: hi_byte(v), e: lo_byte(v), ..s },
        Pair::H => CpuState { h: hi_byte(v), l: lo_byte(v), ..s },
        Pair::Sp => CpuState { sp: v, ..s },
    }
}

/// Zero, sign and parity recomputed from an 8-bit result.
pub open spec fn with_szp(s: CpuState, r: u8) -> CpuState {
    CpuState { zero: r == 0, sign: r >= 0x80, parity: even_parity(r), ..s }
}

/// ADD: the operand is added to the accumulator. Carry is the carry out of
/// bit 7, auxiliary carry the carry out of bit 3; zero, sign and parity
/// come from the truncated 8-bit result.
pub open spec fn spec_add(s: CpuState, v: u8) -> CpuState {
    let sum = s.a + v;
    let r = wrap8(sum);
    with_szp(
        CpuState { a: r, carry: sum > 0xFF, aux_carry: s.a % 16 + v % 16 > 15, ..s },
        r,
    )
}

/// ADC: as ADD, with the incoming carry included in the sum.
pub open spec fn spec_adc(s: CpuState, v: u8) -> CpuState {
    let sum = s.a + v + flag_bit(s.carry);
    let r = wrap8(sum);
    with_szp(
        CpuState {
            a: r,
            carry: sum > 0xFF,
            aux_carry: s.a % 16 + v % 16 + flag_bit(s.carry) > 15,
            ..s
        },
        r,
    )
}

/// SUB: two's-complement subtraction of the operand from the accumulator.
/// Carry set means a borrow occurred (operand greater than accumulator);
/// auxiliary carry is the borrow on the low nibble.
pub open spec fn spec_sub(s: CpuState, v: u8) -> CpuState {
    let r = wrap8(s.a - v);
    with_szp(
        CpuState { a: r, carry: v > s.a, aux_carry: v % 16 > s.a % 16, ..s },
        r,
    )
}

/// SBB: as SUB, with the incoming carry added to the subtrahend.
pub open spec fn spec_sbb(s: CpuState, v: u8) -> CpuState {
    let r = wrap8(s.a - v - flag_bit(s.carry));
    with_szp(
        CpuState {
            a: r,
            carry: v + flag_bit(s.carry) > s.a,
            aux_carry: v % 16 + flag_bit(s.carry) > s.a % 16,
            ..s
        },
        r,
    )
}

/// CMP: the subtraction of SUB performed only for its flags; the
/// accumulator keeps its value.
pub open spec fn spec_cmp(s: CpuState, v: u8) -> CpuState {
    let r = wrap8(s.a - v);
    with_szp(
        CpuState { carry: v > s.a, aux_carry: v % 16 > s.a % 16, ..s },
        r,
    )
}

/// ANA: bitwise AND into the accumulator; carry is cleared.
pub open spec fn spec_ana(s: CpuState, v: u8) -> CpuState {
    let r = s.a & v;
    with_szp(CpuState { a: r, carry: false, ..s }, r)
}

/// XRA: bitwise exclusive OR into the accumulator; carry is cleared.
pub open spec fn spec_xra(s: CpuState, v: u8) -> CpuState {
    let r = s.a ^ v;
    with_szp(CpuState { a: r, carry: false, ..s }, r)
}

/// ORA: bitwise OR into the accumulator; carry is cleared.
pub open spec fn spec_ora(s: CpuState, v: u8) -> CpuState {
    let r = s.a | v;
    with_szp(CpuState { a: r, carry: false, ..s }, r)
}

/// The eight-entry ALU family in opcode order:
/// ADD, ADC, SUB, SBB, ANA, XRA, ORA, CMP.
pub open spec fn spec_alu(s: CpuState, family: int, v: u8) -> CpuState {
    if family == 0 {
        spec_add(s, v)
    } else if family == 1 {
        spec_adc(s, v)
    } else if family == 2 {
        spec_sub(s, v)
    } else if family == 3 {
        spec_sbb(s, v)
    } else if family == 4 {
        spec_ana(s, v)
    } else if family == 5 {
        spec_xra(s, v)
    } else if family == 6 {
        spec_ora(s, v)
    } else {
        spec_cmp(s, v)
    }
}

/// INR: the operand location is incremented by one, wrapping 0xFF to 0x00.
/// All flags except carry are affected.
pub open spec fn spec_inr(s: CpuState, r: Reg) -> CpuState {
    let v = reg_read(s, r);
    let res = wrap8(v + 1);
    with_szp(
        CpuState { aux_carry: v % 16 == 15, ..reg_write(s, r, res) },
        res,
    )
}

/// DCR: the operand location is decremented by one, wrapping 0x00 to 0xFF.
/// All flags except carry are affected.
pub open spec fn spec_dcr(s: CpuState, r: Reg) -> CpuState {
    let v = reg_read(s, r);
    let res = wrap8(v - 1);
    with_szp(
        CpuState { aux_carry: v % 16 == 0, ..reg_write(s, r, res) },
        res,
    )
}

/// LXI: the two bytes following the opcode are loaded into the register
/// pair, low byte first.
pub open spec fn spec_lxi(s: CpuState, p: Pair) -> CpuState {
    pair_write(s, p, imm16(s))
}

/// INX: the pair's composed 16-bit value is incremented as a unit, with
/// wraparound; no flags are affected.
pub open spec fn spec_inx(s: CpuState, p: Pair) -> CpuState {
    pair_write(s, p, wrap16(pair_read(s, p) + 1))
}

/// DCX: the pair's composed 16-bit value is decremented as a unit, with
/// wraparound; no flags are affected.
pub open spec fn spec_dcx(s: CpuState, p: Pair) -> CpuState {
    pair_write(s, p, wrap16(pair_read(s, p) - 1))
}

/// DAD: the pair is added into HL with a 32-bit-wide intermediate; a carry
/// out of bit 15 lands in the carry flag, and no other flag changes.
pub open spec fn spec_dad(s: CpuState, p: Pair) -> CpuState {
    let sum = word(s.h, s.l) + pair_read(s, p);
    let hl = wrap16(sum);
    CpuState { h: hi_byte(hl), l: lo_byte(hl), carry: sum > 0xFFFF, ..s }
}

/// STAX: the accumulator is stored at the address held in BC or DE.
pub open spec fn spec_stax(s: CpuState, p: Pair) -> CpuState {
    CpuState { mem: s.mem.update(pair_read(s, p) as int, s.a), ..s }
}

/// LDAX: the accumulator is loaded from the address held in BC or DE.
pub open spec fn spec_ldax(s: CpuState, p: Pair) -> CpuState {
    CpuState { a: mem_at(s, pair_read(s, p)), ..s }
}

/// MVI: the immediate byte is stored into the operand location; no flags
/// are affected.
pub open spec fn spec_mvi(s: CpuState, r: Reg) -> CpuState {
    reg_write(s, r, imm8(s))
}

/// MOV dst,src: one operand location is copied into another; no flags are
/// affected.
pub open spec fn spec_mov(s: CpuState, dst: Reg, src: Reg) -> CpuState {
    reg_write(s, dst, reg_read(s, src))
}

/// STA: the accumulator is stored at the absolute immediate address.
pub open spec fn spec_sta(s: CpuState) -> CpuState {
    CpuState { mem: s.mem.update(imm16(s) as int, s.a), ..s }
}

/// LDA: the accumulator is loaded from the absolute immediate address.
pub open spec fn spec_lda(s: CpuState) -> CpuState {
    CpuState { a: mem_at(s, imm16(s)), ..s }
}

/// SHLD: L is stored at the absolute immediate address and H at the next
/// higher address.
pub open spec fn spec_shld(s: CpuState) -> CpuState {
    CpuState {
        mem: s.mem.update(imm16(s) as int, s.l).update(wrap16(imm16(s) + 1) as int, s.h),
        ..s
    }
}

/// LHLD: L is loaded from the absolute immediate address and H from the
/// next higher address.
pub open spec fn spec_lhld(s: CpuState) -> CpuState {
    CpuState { l: mem_at(s, imm16(s)), h: mem_at(s, wrap16(imm16(s) + 1)), ..s }
}

/// RLC: rotate the accumulator left; the old high bit moves to bit 0 and
/// to the carry flag.
pub open spec fn spec_rlc(s: CpuState) -> CpuState {
    CpuState { a: ((s.a % 128) * 2 + s.a / 128) as u8, carry: s.a / 128 == 1, ..s }
}

/// RRC: rotate the accumulator right; the old low bit moves to bit 7 and
/// to the carry flag.
pub open spec fn spec_rrc(s: CpuState) -> CpuState {
    CpuState { a: (s.a / 2 + (s.a % 2) * 128) as u8, carry: s.a % 2 == 1, ..s }
}

/// RAL: shift the accumulator left; the old high bit becomes the carry,
/// and the incoming carry is placed in bit 7 of the result.
pub open spec fn spec_ral(s: CpuState) -> CpuState {
    let shifted = (s.a % 128) * 2;
    let merged = if s.carry && shifted < 128 {
        shifted + 128
    } else {
        shifted
    };
    CpuState { a: merged as u8, carry: s.a / 128 == 1, ..s }
}

/// RAR: shift the accumulator right; the old low bit becomes the carry,
/// and the incoming carry is placed in bit 7 of the result.
pub open spec fn spec_rar(s: CpuState) -> CpuState {
    CpuState {
        a: (s.a / 2 + flag_bit(s.carry) * 128) as u8,
        carry: s.a % 2 == 1,
        ..s
    }
}

/// DAA: the accumulator is adjusted into two packed 4-bit decimal digits.
/// The low nibble is corrected by 6 when it exceeds 9 or auxiliary carry is
/// set, which sets auxiliary carry; the high nibble is then corrected by 6
/// when it exceeds 9 or carry is set, which sets carry. Zero, sign and
/// parity come from the adjusted 8-bit result.
pub open spec fn spec_daa(s: CpuState) -> CpuState {
    let low_fix = s.a % 16 > 9 || s.aux_carry;
    let a1 = if low_fix {
        wrap8(s.a + 6)
    } else {
        s.a
    };
    let aux1 = if low_fix {
        true
    } else {
        s.aux_carry
    };
    let high_fix = a1 / 16 > 9 || s.carry;
    let a2 = if high_fix {
        (a1 % 16 + ((a1 / 16 + 6) % 16) * 16) as u8
    } else {
        a1
    };
    let carry2 = if high_fix {
        true
    } else {
        s.carry
    };
    with_szp(CpuState { a: a2, aux_carry: aux1, carry: carry2, ..s }, a2)
}

/// CMA: every bit of the accumulator is complemented; no flags change.
pub open spec fn spec_cma(s: CpuState) -> CpuState {
    CpuState { a: !s.a, ..s }
}

/// STC: the carry flag is set.
pub open spec fn spec_stc(s: CpuState) -> CpuState {
    CpuState { carry: true, ..s }
}

/// CMC: the carry flag is complemented.
pub open spec fn spec_cmc(s: CpuState) -> CpuState {
    CpuState { carry: !s.carry, ..s }
}

/// The flag word as packed by PUSH PSW: zero in bit 0, sign in bit 1,
/// parity in bit 2, carry in bit 3, auxiliary carry in bit 4.
pub open spec fn psw_pack(s: CpuState) -> u8 {
    (flag_bit(s.zero) + flag_bit(s.sign) * 2 + flag_bit(s.parity) * 4 + flag_bit(s.carry) * 8
        + flag_bit(s.aux_carry) * 16) as u8
}

/// The flag register restored from a packed flag word, inverting `psw_pack`.
pub open spec fn psw_unpack(s: CpuState, v: u8) -> CpuState {
    CpuState {
        zero: v % 2 == 1,
        sign: v / 2 % 2 == 1,
        parity: v / 4 % 2 == 1,
        carry: v / 8 % 2 == 1,
        aux_carry: v / 16 % 2 == 1,
        ..s
    }
}

/// The high and low byte a PUSH operand contributes to the stack; for PSW
/// the accumulator is the high byte and the packed flag word the low byte.
pub open spec fn stack_bytes(s: CpuState, r: StackReg) -> (u8, u8) {
    match r {
        StackReg::B => (s.b, s.c),
        StackReg::D => (s.d, s.e),
        StackReg::H => (s.h, s.l),
        StackReg::Psw => (s.a, psw_pack(s)),
    }
}

/// PUSH: the operand's high byte goes to `[SP-1]` and its low byte to
/// `[SP-2]`, then SP is decremented by 2.
pub open spec fn spec_push(s: CpuState, r: StackReg) -> CpuState {
    let hi = stack_bytes(s, r).0;
    let lo = stack_bytes(s, r).1;
    CpuState {
        mem: s.mem.update(wrap16(s.sp - 1) as int, hi).update(wrap16(s.sp - 2) as int, lo),
        sp: wrap16(s.sp - 2),
        ..s
    }
}

/// POP: the low byte is read from `[SP]` and the high byte from `[SP+1]`,
/// then SP is incremented by 2; for PSW the low byte restores the flags.
pub open spec fn spec_pop(s: CpuState, r: StackReg) -> CpuState {
    let lo = mem_at(s, s.sp);
    let hi = mem_at(s, wrap16(s.sp + 1));
    let loaded = match r {
        StackReg::B => CpuState { b: hi, c: lo, ..s },
        StackReg::D => CpuState { d: hi, e: lo, ..s },
        StackReg::H => CpuState { h: hi, l: lo, ..s },
        StackReg::Psw => CpuState { a: hi, ..psw_unpack(s, lo) },
    };
    CpuState { sp: wrap16(s.sp + 2), ..loaded }
}

/// A 16-bit return address pushed onto the stack: high byte at `[SP-1]`,
/// low byte at `[SP-2]`, SP decremented by 2.
pub open spec fn push_word(s: CpuState, v: u16) -> CpuState {
    CpuState {
        mem: s.mem.update(wrap16(s.sp - 1) as int, hi_byte(v)).update(
            wrap16(s.sp - 2) as int,
            lo_byte(v),
        ),
        sp: wrap16(s.sp - 2),
        ..s
    }
}

/// RET: the program counter is popped from the stack, low byte at `[SP]`.
pub open spec fn spec_ret(s: CpuState) -> CpuState {
    CpuState {
        pc: word(mem_at(s, wrap16(s.sp + 1)), mem_at(s, s.sp)),
        sp: wrap16(s.sp + 2),
        ..s
    }
}

/// JMP: the program counter is loaded with the immediate absolute target.
pub open spec fn spec_jmp(s: CpuState) -> CpuState {
    CpuState { pc: imm16(s), ..s }
}

/// CALL: the address of the following instruction (PC+3) is pushed, then
/// the program counter is loaded with the immediate absolute target.
pub open spec fn spec_call(s: CpuState) -> CpuState {
    let pushed = push_word(s, wrap16(s.pc + 3));
    CpuState { pc: imm16(pushed), ..pushed }
}

/// RST: the address of the next sequential instruction (PC+1) is pushed,
/// then control transfers to the fixed vector `code * 8`.
pub open spec fn spec_rst(s: CpuState, code: u8) -> CpuState {
    let pushed = push_word(s, wrap16(s.pc + 1));
    CpuState { pc: (code * 8) as u16, ..pushed }
}

/// The eight condition codes in opcode order: NZ, Z, NC, C, PO, PE, P, M.
pub open spec fn spec_cond(s: CpuState, cc: int) -> bool {
    if cc == 0 {
        !s.zero
    } else if cc == 1 {
        s.zero
    } else if cc == 2 {
        !s.carry
    } else if cc == 3 {
        s.carry
    } else if cc == 4 {
        !s.parity
    } else if cc == 5 {
        s.parity
    } else if cc == 6 {
        !s.sign
    } else {
        s.sign
    }
}

/// A conditional return: RET when the condition holds, otherwise fall
/// through to the next instruction.
pub open spec fn spec_rcc(s: CpuState, cc: int) -> CpuState {
    if spec_cond(s, cc) {
        spec_ret(s)
    } else {
        spec_advance(s, 1)
    }
}

/// A conditional jump: the target is taken when the condition holds;
/// otherwise the program counter advances by the full 3-byte width.
pub open spec fn spec_jcc(s: CpuState, cc: int) -> CpuState {
    if spec_cond(s, cc) {
        spec_jmp(s)
    } else {
        spec_advance(s, 3)
    }
}

/// A conditional call: CALL when the condition holds; otherwise the
/// program counter advances by the full 3-byte width.
pub open spec fn spec_ccc(s: CpuState, cc: int) -> CpuState {
    if spec_cond(s, cc) {
        spec_call(s)
    } else {
        spec_advance(s, 3)
    }
}

/// XCHG: HL and DE are swapped.
pub open spec fn spec_xchg(s: CpuState) -> CpuState {
    CpuState { h: s.d, l: s.e, d: s.h, e: s.l, ..s }
}

/// XTHL: HL is swapped with the two bytes on top of the stack; the stack
/// pointer does not move.
pub open spec fn spec_xthl(s: CpuState) -> CpuState {
    CpuState {
        l: mem_at(s, s.sp),
        h: mem_at(s, wrap16(s.sp + 1)),
        mem: s.mem.update(s.sp as int, s.l).update(wrap16(s.sp + 1) as int, s.h),
        ..s
    }
}

/// SPHL: the stack pointer is loaded from HL.
pub open spec fn spec_sphl(s: CpuState) -> CpuState {
    CpuState { sp: word(s.h, s.l), ..s }
}

/// PCHL: the program counter is loaded from HL (an indirect jump).
pub open spec fn spec_pchl(s: CpuState) -> CpuState {
    CpuState { pc: word(s.h, s.l), ..s }
}

/// EI/DI: the interrupt-enable flag is set or cleared.
pub open spec fn spec_set_int(s: CpuState, enable: bool) -> CpuState {
    CpuState { int_enable: enable, ..s }
}

/// Interrupt injection: when interrupts are enabled, the current program
/// counter is pushed and control transfers to the vector `code * 8`, with
/// further interrupts disabled; when disabled, the state is unchanged.
pub open spec fn spec_interrupt(s: CpuState, code: u8) -> CpuState {
    if s.int_enable {
        let pushed = push_word(s, s.pc);
        CpuState { pc: (code * 8) as u16, int_enable: false, ..pushed }
    } else {
        s
    }
}

/// The register selected by a 3-bit operand field of the opcode, in the
/// encoded order B, C, D, E, H, L, M, A.
pub open spec fn reg_of(code: int) -> Reg {
    if code == 0 {
        Reg::B
    } else if code == 1 {
        Reg::C
    } else if code == 2 {
        Reg::D
    } else if code == 3 {
        Reg::E
    } else if code == 4 {
        Reg::H
    } else if code == 5 {
        Reg::L
    } else if code == 6 {
        Reg::M
    } else {
        Reg::A
    }
}

/// The register pair selected by a 2-bit operand field of the opcode, in
/// the encoded order BC, DE, HL, SP.
pub open spec fn pair_of(code: int) -> Pair {
    if code == 0 {
        Pair::B
    } else if code == 1 {
        Pair::D
    } else if code == 2 {
        Pair::H
    } else {
        Pair::Sp
    }
}

/// The PUSH/POP operand selected by a 2-bit operand field of the opcode,
/// in the encoded order BC, DE, HL, PSW.
pub open spec fn stack_reg_of(code: int) -> StackReg {
    if code == 0 {
        StackReg::B
    } else if code == 1 {
        StackReg::D
    } else if code == 2 {
        StackReg::H
    } else {
        StackReg::Psw
    }
}

/// An opcode of the 0x00..0x3F block, decoded by its operand fields: the
/// low three bits select the family (NOP, 16-bit load/add, absolute and
/// pair-addressed moves, pair increment/decrement, INR, DCR, MVI,
/// rotate/adjust group), and bits 3..5 select the operand. Undocumented
/// encodings alias to their documented equivalent (the spare slots of the
/// NOP column).
pub open spec fn spec_op_lo(s: CpuState, op: u8) -> CpuState {
    let low = (op % 8) as int;
    let field = (op / 8) as int;
    let p = pair_of((op / 16) as int);
    if low == 0 {
        spec_advance(s, 1)
    } else if low == 1 {
        if field % 2 == 0 {
            spec_advance(spec_lxi(s, p), 3)
        } else {
            spec_advance(spec_dad(s, p), 1)
        }
    } else if low == 2 {
        if field == 0 {
            spec_advance(spec_stax(s, Pair::B), 1)
        } else if field == 1 {
            spec_advance(spec_ldax(s, Pair::B), 1)
        } else if field == 2 {
            spec_advance(spec_stax(s, Pair::D), 1)
        } else if field == 3 {
            spec_advance(spec_ldax(s, Pair::D), 1)
        } else if field == 4 {
            spec_advance(spec_shld(s), 3)
        } else if field == 5 {
            spec_advance(spec_lhld(s), 3)
        } else if field == 6 {
            spec_advance(spec_sta(s), 3)
        } else {
            spec_advance(spec_lda(s), 3)
        }
    } else if low == 3 {
        if field % 2 == 0 {
            spec_advance(spec_inx(s, p), 1)
        } else {
            spec_advance(spec_dcx(s, p), 1)
        }
    } else if low == 4 {
        spec_advance(spec_inr(s, reg_of(field)), 1)
    } else if low == 5 {
        spec_advance(spec_dcr(s, reg_of(field)), 1)
    } else if low == 6 {
        spec_advance(spec_mvi(s, reg_of(field)), 2)
    } else {
        spec_advance(spec_rot(s, field), 1)
    }
}

/// The rotate/adjust column of the low opcode block, in encoded order:
/// RLC, RRC, RAL, RAR, DAA, CMA, STC, CMC.
pub open spec fn spec_rot(s: CpuState, field: int) -> CpuState {
    if field == 0 {
        spec_rlc(s)
    } else if field == 1 {
        spec_rrc(s)
    } else if field == 2 {
        spec_ral(s)
    } else if field == 3 {
        spec_rar(s)
    } else if field == 4 {
        spec_daa(s)
    } else if field == 5 {
        spec_cma(s)
    } else if field == 6 {
        spec_stc(s)
    } else {
        spec_cmc(s)
    }
}

/// An opcode of the 0xC0..0xFF block, decoded by its operand fields: the
/// low three bits select the family (conditional return, POP and register
/// jumps, conditional jump, the exchange/interrupt column, conditional
/// call, PUSH and CALL, immediate ALU, RST), and bits 3..5 select the
/// condition code, vector, or stack operand. Undocumented encodings alias
/// to their documented equivalent: 0xCB is JMP, 0xD9 is RET, and 0xDD,
/// 0xED and 0xFD are CALL. The state change of IN and OUT is the 2-byte
/// advance alone; the port byte itself crosses the machine boundary as a
/// step outcome.
pub open spec fn spec_op_ctrl(s: CpuState, op: u8) -> CpuState {
    let low = (op % 8) as int;
    let cc = ((op - 0xC0) / 8) as int;
    let pp = ((op - 0xC0) / 16) as int;
    if low == 0 {
        spec_rcc(s, cc)
    } else if low == 1 {
        if cc % 2 == 0 {
            spec_advance(spec_pop(s, stack_reg_of(pp)), 1)
        } else if pp < 2 {
            spec_ret(s)
        } else if pp == 2 {
            spec_pchl(s)
        } else {
            spec_advance(spec_sphl(s), 1)
        }
    } else if low == 2 {
        spec_jcc(s, cc)
    } else if low == 3 {
        if cc < 2 {
            spec_jmp(s)
        } else if cc == 2 || cc == 3 {
            spec_advance(s, 2)
        } else if cc == 4 {
            spec_advance(spec_xthl(s), 1)
        } else if cc == 5 {
            spec_advance(spec_xchg(s), 1)
        } else if cc == 6 {
            spec_advance(spec_set_int(s, false), 1)
        } else {
            spec_advance(spec_set_int(s, true), 1)
        }
    } else if low == 4 {
        spec_ccc(s, cc)
    } else if low == 5 {
        if cc % 2 == 0 {
            spec_advance(spec_push(s, stack_reg_of(pp)), 1)
        } else {
            spec_call(s)
        }
    } else if low == 6 {
        spec_advance(spec_alu(s, cc, imm8(s)), 2)
    } else {
        spec_rst(s, cc as u8)
    }
}

/// The state after executing the non-halt opcode `op`: the 0x40..0x7F
/// block is the MOV matrix and the 0x80..0xBF block the register ALU
/// matrix, each decoded by its 3-bit operand fields; the low and high
/// blocks are decoded by `spec_op_lo` and `spec_op_ctrl`.
pub open spec fn spec_exec_op(s: CpuState, op: u8) -> CpuState {
    if op < 0x40 {
        spec_op_lo(s, op)
    } else if op < 0x80 {
        spec_advance(spec_mov(s, reg_of(((op - 0x40) / 8) as int), reg_of((op % 8) as int)), 1)
    } else if op < 0xC0 {
        spec_advance(
            spec_alu(s, ((op - 0x80) / 8) as int, reg_read(s, reg_of((op % 8) as int))),
            1,
        )
    } else {
        spec_op_ctrl(s, op)
    }
}

/// One fetch-decode-execute step: the byte at the program counter is
/// fetched and executed, and the program counter advances by the
/// instruction's encoded width unless the instruction redirected it. The
/// halt opcode 0x76 leaves the state unchanged and reports `Halted`; IN
/// and OUT report the port traffic that crosses the machine boundary.
pub open spec fn spec_step(s: CpuState) -> (CpuState, StepOutcome) {
    let op = mem_at(s, s.pc);
    if op == 0x76 {
        (s, StepOutcome::Halted)
    } else if op == 0xDB {
        (spec_exec_op(s, op), StepOutcome::Input { port: imm8(s) })
    } else if op == 0xD3 {
        (spec_exec_op(s, op), StepOutcome::Output { port: imm8(s), value: s.a })
    } else {
        (spec_exec_op(s, op), StepOutcome::Stepped)
    }
}

/// The fetch-decode-execute loop run with no peripheral attached, for at
/// most `fuel` instructions: each step applies `spec_step`, an IN
/// instruction loads 0, an OUT instruction's byte is discarded, and the
/// halt opcode stops the loop with the state unchanged. The second
/// component tells whether the machine halted.
pub open spec fn spec_run(s: CpuState, fuel: nat) -> (CpuState, bool)
    decreases fuel,
{
    if fuel == 0 {
        (s, false)
    } else {
        let stepped = spec_step(s).0;
        match spec_step(s).1 {
            StepOutcome::Halted => (s, true),
            StepOutcome::Stepped => spec_run(stepped, (fuel - 1) as nat),
            StepOutcome::Input { port } => spec_run(
                CpuState { a: 0, ..stepped },
                (fuel - 1) as nat,
            ),
            StepOutcome::Output { port, value } => spec_run(stepped, (fuel - 1) as nat),
        }
    }
}

} // verus!
