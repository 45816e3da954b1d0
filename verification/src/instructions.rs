//! The instruction semantics library: one executable routine per
//! instruction family, each proved to transform the machine exactly as the
//! corresponding specification function of the model says. The routines
//! leave the program counter alone; the fetch-decode-execute step advances
//! it by the instruction's encoded width.

use vstd::prelude::*;

use crate::cpu::{parity, Pair, Reg, StackReg};
use crate::intel8080::Intel8080;
use crate::model::{
    pair_read, pair_write, reg_read, reg_write, spec_adc, spec_add, spec_ana, spec_cmp, spec_dad,
    spec_dcr, spec_dcx, spec_inr, spec_inx, spec_ldax, spec_lxi, spec_mov, spec_mvi, spec_ora,
    spec_pop, spec_push, spec_rst, spec_sbb, spec_stax, spec_sub, spec_xra,
};

verus! {

/// Reads an 8-bit operand location; `M` reads the cell addressed by HL.
pub fn reg_get(state: &Intel8080, r: Reg) -> (v: u8)
    requires
        state.wf(),
    ensures
        v == reg_read(state@, r),
{
    match r {
        Reg::B => state.regs.b,
        Reg::C => state.regs.c,
        Reg::D => state.regs.d,
        Reg::E => state.regs.e,
        Reg::H => state.regs.h,
        Reg::L => state.regs.l,
        Reg::M => {
            let addr: usize = state.regs.h as usize * 256 + state.regs.l as usize;
            state.memory[addr]
        },
        Reg::A => state.regs.a,
    }
}

/// Stores into an 8-bit operand location; `M` writes the cell addressed by HL.
pub fn reg_set(state: &mut Intel8080, r: Reg, v: u8)
    requires
        old(state).wf(),
    ensures
        final(state).wf(),
        final(state)@ == reg_write(old(state)@, r, v),
{
    match r {
        Reg::B => {
            state.regs.b = v;
        },
        Reg::C => {
            state.regs.c = v;
        },
        Reg::D => {
            state.regs.d = v;
        },
        Reg::E => {
            state.regs.e = v;
        },
        Reg::H => {
            state.regs.h = v;
        },
        Reg::L => {
            state.regs.l = v;
        },
        Reg::M => {
            let addr: usize = state.regs.h as usize * 256 + state.regs.l as usize;
            state.memory[addr] = v;
        },
        Reg::A => {
            state.regs.a = v;
        },
    }
}

/// Reads a register pair as its composed 16-bit value.
pub fn pair_get(state: &Intel8080, p: Pair) -> (v: usize)
    requires
        state.wf(),
    ensures
        v == pair_read(state@, p) as usize,
        v < 0x10000,
{
    match p {
        Pair::B => state.regs.b as usize * 256 + state.regs.c as usize,
        Pair::D => state.regs.d as usize * 256 + state.regs.e as usize,
        Pair::H => state.regs.h as usize * 256 + state.regs.l as usize,
        Pair::Sp => state.sp,
    }
}

/// Writes a register pair from a composed 16-bit value, high byte into the
/// high register and low byte into the low register.
pub fn pair_set(state: &mut Intel8080, p: Pair, v: usize)
    requires
        old(state).wf(),
        v < 0x10000,
    ensures
        final(state).wf(),
        final(state)@ == pair_write(old(state)@, p, v as u16),
{
    match p {
        Pair::B => {
            state.regs.b = (v / 256) as u8;
            state.regs.c = (v % 256) as u8;
        },
        Pair::D => {
            state.regs.d = (v / 256) as u8;
            state.regs.e = (v % 256) as u8;
        },
        Pair::H => {
            state.regs.h = (v / 256) as u8;
            state.regs.l = (v % 256) as u8;
        },
        Pair::Sp => {
            state.sp = v;
        },
    }
}

/// Stores zero, sign and parity computed from the 8-bit result `r`.
pub(crate) fn set_szp(state: &mut Intel8080, r: u8)
    requires
        old(state).wf(),
    ensures
        final(state).wf(),
        final(state)@ == (crate::model::CpuState {
            zero: r == 0,
            sign: r >= 0x80,
            parity: crate::cpu::even_parity(r),
            ..old(state)@
        }),
{
    state.flags.zero = if r == 0 {
        1
    } else {
        0
    };
    state.flags.sign = if r >= 0x80 {
        1
    } else {
        0
    };
    state.flags.parity = parity(r);
}

/// ADD: adds one byte to the accumulator, excluding the carry flag from
/// the addition, and sets all five flags from the outcome.
pub fn add_to_accu(state: &mut Intel8080, byte: u8)
    requires
        old(state).wf(),
    ensures
        final(state).wf(),
        final(state)@ == spec_add(old(state)@, byte),
{
    let a: u8 = state.regs.a;
    let sum: usize = a as usize + byte as usize;
    let r: u8 = (sum % 256) as u8;
    state.flags.carry = if sum > 0xFF {
        1
    } else {
        0
    };
    state.flags.aux_carry = if a % 16 + byte % 16 > 15 {
        1
    } else {
        0
    };
    state.regs.a = r;
    set_szp(state, r);
}

/// ADC: adds one byte plus the incoming carry flag to the accumulator and
/// sets all five flags from the outcome.
pub fn adc(state: &mut Intel8080, byte: u8)
    requires
        old(state).wf(),
    ensures
        final(state).wf(),
        final(state)@ == spec_adc(old(state)@, byte),
{
    let a: u8 = state.regs.a;
    let cy: u8 = state.flags.carry;
    let sum: usize = a as usize + byte as usize + cy as usize;
    let r: u8 = (sum % 256) as u8;
    state.flags.carry = if sum > 0xFF {
        1
    } else {
        0
    };
    state.flags.aux_carry = if a % 16 + byte % 16 + cy > 15 {
        1
    } else {
        0
    };
    state.regs.a = r;
    set_szp(state, r);
}

/// SUB: subtracts one byte from the accumulator in two's complement; carry
/// set afterwards means a borrow occurred.
pub fn sub_accu(state: &mut Intel8080, byte: u8)
    requires
        old(state).wf(),
    ensures
        final(state).wf(),
        final(state)@ == spec_sub(old(state)@, byte),
{
    let a: u8 = state.regs.a;
    let r: u8 = ((a as usize + 256 - byte as usize) % 256) as u8;
    state.flags.carry = if byte > a {
        1
    } else {
        0
    };
    state.flags.aux_carry = if byte % 16 > a % 16 {
        1
    } else {
        0
    };
    state.regs.a = r;
    set_szp(state, r);
}

/// SBB: subtracts one byte plus the incoming carry flag from the
/// accumulator; carry set afterwards means a borrow occurred.
#[verifier::rlimit(30)]
pub fn sbb(state: &mut Intel8080, byte: u8)
    requires
        old(state).wf(),
    ensures
        final(state).wf(),
        final(state)@ == spec_sbb(old(state)@, byte),
{
    let a: u8 = state.regs.a;
    let cy: u8 = state.flags.carry;
    let r: u8 = ((a as usize + 512 - byte as usize - cy as usize) % 256) as u8;
    state.flags.carry = if byte as usize + cy as usize > a as usize {
        1
    } else {
        0
    };
    state.flags.aux_carry = if byte % 16 + cy > a % 16 {
        1
    } else {
        0
    };
    state.regs.a = r;
    set_szp(state, r);
}

/// ANA: bitwise AND into the accumulator; the carry flag is cleared.
pub fn ana(state: &mut Intel8080, byte: u8)
    requires
        old(state).wf(),
    ensures
        final(state).wf(),
        final(state)@ == spec_ana(old(state)@, byte),
{
    let r: u8 = state.regs.a & byte;
    state.flags.carry = 0;
    state.regs.a = r;
    set_szp(state, r);
}

/// XRA: bitwise exclusive OR into the accumulator; the carry flag is cleared.
pub fn xra(state: &mut Intel8080, byte: u8)
    requires
        old(state).wf(),
    ensures
        final(state).wf(),
        final(state)@ == spec_xra(old(state)@, byte),
{
    let r: u8 = state.regs.a ^ byte;
    state.flags.carry = 0;
    state.regs.a = r;
    set_szp(state, r);
}

/// ORA: bitwise OR into the accumulator; the carry flag is cleared.
pub fn ora(state: &mut Intel8080, byte: u8)
    requires
        old(state).wf(),
    ensures
        final(state).wf(),
        final(state)@ == spec_ora(old(state)@, byte),
{
    let r: u8 = state.regs.a | byte;
    state.flags.carry = 0;
    state.regs.a = r;
    set_szp(state, r);
}

/// CMP: performs the subtraction of SUB solely to set the flags; the
/// accumulator keeps its value.
pub fn cmp(state: &mut Intel8080, byte: u8)
    requires
        old(state).wf(),
    ensures
        final(state).wf(),
        final(state)@ == spec_cmp(old(state)@, byte),
{
    let a: u8 = state.regs.a;
    let r: u8 = ((a as usize + 256 - byte as usize) % 256) as u8;
    state.flags.carry = if byte > a {
        1
    } else {
        0
    };
    state.flags.aux_carry = if byte % 16 > a % 16 {
        1
    } else {
        0
    };
    set_szp(state, r);
}

/// INR: increments an operand location, wrapping 0xFF to 0x00; all flags
/// except carry are affected.
pub fn inr(state: &mut Intel8080, r: Reg)
    requires
        old(state).wf(),
    ensures
        final(state).wf(),
        final(state)@ == spec_inr(old(state)@, r),
{
    let v: u8 = reg_get(state, r);
    let res: u8 = ((v as usize + 1) % 256) as u8;
    reg_set(state, r, res);
    state.flags.aux_carry = if v % 16 == 15 {
        1
    } else {
        0
    };
    set_szp(state, res);
}

/// DCR: decrements an operand location, wrapping 0x00 to 0xFF; all flags
/// except carry are affected.
pub fn dcr(state: &mut Intel8080, r: Reg)
    requires
        old(state).wf(),
    ensures
        final(state).wf(),
        final(state)@ == spec_dcr(old(state)@, r),
{
    let v: u8 = reg_get(state, r);
    let res: u8 = ((v as usize + 255) % 256) as u8;
    reg_set(state, r, res);
    state.flags.aux_carry = if v % 16 == 0 {
        1
    } else {
        0
    };
    set_szp(state, res);
}

/// LXI: loads the two bytes following the opcode into a register pair,
/// low byte first.
pub fn lxi(state: &mut Intel8080, p: Pair)
    requires
        old(state).wf(),
    ensures
        final(state).wf(),
        final(state)@ == spec_lxi(old(state)@, p),
{
    let lo: u8 = state.memory[(state.pc + 1) % 0x10000];
    let hi: u8 = state.memory[(state.pc + 2) % 0x10000];
    pair_set(state, p, hi as usize * 256 + lo as usize);
}

/// INX: increments a pair's composed 16-bit value as a unit, with
/// wraparound; no flags are affected.
pub fn inx(state: &mut Intel8080, p: Pair)
    requires
        old(state).wf(),
    ensures
        final(state).wf(),
        final(state)@ == spec_inx(old(state)@, p),
{
    let v: usize = pair_get(state, p);
    pair_set(state, p, (v + 1) % 0x10000);
}

/// DCX: decrements a pair's composed 16-bit value as a unit, with
/// wraparound; no flags are affected.
pub fn dcx(state: &mut Intel8080, p: Pair)
    requires
        old(state).wf(),
    ensures
        final(state).wf(),
        final(state)@ == spec_dcx(old(state)@, p),
{
    let v: usize = pair_get(state, p);
    pair_set(state, p, (v + 0xFFFF) % 0x10000);
}

/// DAD: adds a register pair into HL with a wide intermediate so the carry
/// out of bit 15 lands in the carry flag; no other flag changes.
pub fn dad(state: &mut Intel8080, p: Pair)
    requires
        old(state).wf(),
    ensures
        final(state).wf(),
        final(state)@ == spec_dad(old(state)@, p),
{
    let hl: usize = state.regs.h as usize * 256 + state.regs.l as usize;
    let rhs: usize = pair_get(state, p);
    let sum: usize = hl + rhs;
    let wrapped: usize = sum % 0x10000;
    state.regs.h = (wrapped / 256) as u8;
    state.regs.l = (wrapped % 256) as u8;
    state.flags.carry = if sum > 0xFFFF {
        1
    } else {
        0
    };
}

/// STAX: stores the accumulator at the address held in BC or DE.
pub fn stax(state: &mut Intel8080, p: Pair)
    requires
        old(state).wf(),
        p == Pair::B || p == Pair::D,
    ensures
        final(state).wf(),
        final(state)@ == spec_stax(old(state)@, p),
{
    let addr: usize = pair_get(state, p);
    state.memory[addr] = state.regs.a;
}

/// LDAX: loads the accumulator from the address held in BC or DE.
pub fn ldax(state: &mut Intel8080, p: Pair)
    requires
        old(state).wf(),
        p == Pair::B || p == Pair::D,
    ensures
        final(state).wf(),
        final(state)@ == spec_ldax(old(state)@, p),
{
    let addr: usize = pair_get(state, p);
    state.regs.a = state.memory[addr];
}

/// MVI: stores the immediate byte into an operand location; no flags are
/// affected.
pub fn mvi(state: &mut Intel8080, r: Reg)
    requires
        old(state).wf(),
    ensures
        final(state).wf(),
        final(state)@ == spec_mvi(old(state)@, r),
{
    let v: u8 = state.memory[(state.pc + 1) % 0x10000];
    reg_set(state, r, v);
}

/// MOV M,src: copies a register into the memory cell addressed by HL.
pub fn mov_m(state: &mut Intel8080, r: Reg)
    requires
        old(state).wf(),
        r != Reg::M,
    ensures
        final(state).wf(),
        final(state)@ == spec_mov(old(state)@, Reg::M, r),
{
    let v: u8 = reg_get(state, r);
    reg_set(state, Reg::M, v);
}

/// POP: reads the low byte from `[SP]` and the high byte from `[SP+1]`,
/// then increments SP by 2; for PSW the low byte restores the flag word.
pub fn pop(state: &mut Intel8080, r: StackReg)
    requires
        old(state).wf(),
    ensures
        final(state).wf(),
        final(state)@ == spec_pop(old(state)@, r),
{
    let lo: u8 = state.memory[state.sp];
    let hi: u8 = state.memory[(state.sp + 1) % 0x10000];
    match r {
        StackReg::B => {
            state.regs.b = hi;
            state.regs.c = lo;
        },
        StackReg::D => {
            state.regs.d = hi;
            state.regs.e = lo;
        },
        StackReg::H => {
            state.regs.h = hi;
            state.regs.l = lo;
        },
        StackReg::Psw => {
            state.regs.a = hi;
            state.flags.zero = lo % 2;
            state.flags.sign = lo / 2 % 2;
            state.flags.parity = lo / 4 % 2;
            state.flags.carry = lo / 8 % 2;
            state.flags.aux_carry = lo / 16 % 2;
        },
    }
    state.sp = (state.sp + 2) % 0x10000;
}

/// PUSH: writes the operand's high byte to `[SP-1]` and its low byte to
/// `[SP-2]`, then decrements SP by 2; for PSW the accumulator is the high
/// byte and the packed flag word the low byte.
pub fn push(state: &mut Intel8080, r: StackReg)
    requires
        old(state).wf(),
    ensures
        final(state).wf(),
        final(state)@ == spec_push(old(state)@, r),
{
    let hi: u8;
    let lo: u8;
    match r {
        StackReg::B => {
            hi = state.regs.b;
            lo = state.regs.c;
        },
        StackReg::D => {
            hi = state.regs.d;
            lo = state.regs.e;
        },
        StackReg::H => {
            hi = state.regs.h;
            lo = state.regs.l;
        },
        StackReg::Psw => {
            hi = state.regs.a;
            lo = state.flags.zero + state.flags.sign * 2 + state.flags.parity * 4
                + state.flags.carry * 8 + state.flags.aux_carry * 16;
        },
    }
    let above: usize = (state.sp + 0xFFFF) % 0x10000;
    let below: usize = (state.sp + 0xFFFE) % 0x10000;
    state.memory[above] = hi;
    state.memory[below] = lo;
    state.sp = below;
}

/// RST: pushes the address of the next sequential instruction, then
/// transfers control to the fixed vector `code * 8`.
pub fn rst(state: &mut Intel8080, code: u8)
    requires
        old(state).wf(),
        code < 8,
    ensures
        final(state).wf(),
        final(state)@ == spec_rst(old(state)@, code),
{
    let ret: usize = (state.pc + 1) % 0x10000;
    let above: usize = (state.sp + 0xFFFF) % 0x10000;
    let below: usize = (state.sp + 0xFFFE) % 0x10000;
    state.memory[above] = (ret / 256) as u8;
    state.memory[below] = (ret % 256) as u8;
    state.sp = below;
    state.pc = code as usize * 8;
}

} // verus!
