//! Laws of the instruction set, stated over the mathematical model and
//! proved once and for all: the flag contract of addition, the flags-only
//! nature of CMP, and the round trips through register pairs, the stack,
//! and call/return.

use vstd::prelude::*;

use crate::cpu::{even_parity, Pair, StackReg, StepOutcome};
use crate::model::{
    imm16, mem_at, pair_read, spec_add, spec_advance, spec_call, spec_cmp, spec_cond, spec_lxi,
    spec_pop, spec_push, spec_ret, spec_step, state_wf, wrap16, wrap8, CpuState,
};

verus! {

/// For all 8-bit values of the accumulator and the operand, ADD sets
/// carry exactly when the true sum exceeds 255, zero exactly when the
/// truncated 8-bit result is 0, sign exactly when bit 7 of the truncated
/// result is set, and parity exactly when the truncated result has an
/// even number of set bits.
pub proof fn lemma_add_flags(s: CpuState, v: u8)
    ensures
        spec_add(s, v).a == wrap8(s.a + v),
        spec_add(s, v).carry <==> s.a + v > 255,
        spec_add(s, v).zero <==> (s.a + v) % 256 == 0,
        spec_add(s, v).sign <==> wrap8(s.a + v) & 0x80 == 0x80,
        spec_add(s, v).parity <==> even_parity(wrap8(s.a + v)),
{
    let r: u8 = wrap8(s.a + v);
    assert((r & 0x80 == 0x80) <==> r >= 128) by (bit_vector);
}

/// CMP leaves the accumulator equal to its old value in all cases: its
/// subtraction happens solely for the flags.
pub proof fn lemma_cmp_preserves_accumulator(s: CpuState, v: u8)
    ensures
        spec_cmp(s, v).a == s.a,
        spec_cmp(s, v).b == s.b,
        spec_cmp(s, v).c == s.c,
        spec_cmp(s, v).d == s.d,
        spec_cmp(s, v).e == s.e,
        spec_cmp(s, v).h == s.h,
        spec_cmp(s, v).l == s.l,
        spec_cmp(s, v).mem == s.mem,
        spec_cmp(s, v).pc == s.pc,
        spec_cmp(s, v).sp == s.sp,
{
}

/// Writing a register pair with LXI and reading the pair back
/// reconstructs exactly the 16-bit immediate that was written.
pub proof fn lemma_lxi_pair_round_trip(s: CpuState, p: Pair)
    ensures
        pair_read(spec_lxi(s, p), p) == imm16(s),
{
    let v: u16 = imm16(s);
    assert(v / 256 * 256 + v % 256 == v);
}

/// PUSH followed immediately by POP of the same operand restores every
/// register and flag and returns the stack pointer to its original value;
/// only the two stack bytes below the old stack pointer have changed.
pub proof fn lemma_push_pop_round_trip(s: CpuState, r: StackReg)
    requires
        state_wf(s),
    ensures
        spec_pop(spec_push(s, r), r).a == s.a,
        spec_pop(spec_push(s, r), r).b == s.b,
        spec_pop(spec_push(s, r), r).c == s.c,
        spec_pop(spec_push(s, r), r).d == s.d,
        spec_pop(spec_push(s, r), r).e == s.e,
        spec_pop(spec_push(s, r), r).h == s.h,
        spec_pop(spec_push(s, r), r).l == s.l,
        spec_pop(spec_push(s, r), r).carry == s.carry,
        spec_pop(spec_push(s, r), r).aux_carry == s.aux_carry,
        spec_pop(spec_push(s, r), r).zero == s.zero,
        spec_pop(spec_push(s, r), r).parity == s.parity,
        spec_pop(spec_push(s, r), r).sign == s.sign,
        spec_pop(spec_push(s, r), r).sp == s.sp,
        spec_pop(spec_push(s, r), r).pc == s.pc,
        spec_pop(spec_push(s, r), r).int_enable == s.int_enable,
{
    let pushed = spec_push(s, r);
    assert(wrap16(wrap16(s.sp - 2) + 1) == wrap16(s.sp - 1));
    assert(wrap16(wrap16(s.sp - 2) + 2) == s.sp);
    assert(wrap16(s.sp - 1) != wrap16(s.sp - 2));
    assert(mem_at(pushed, pushed.sp) == spec_push(s, r).mem[wrap16(s.sp - 2) as int]);
}

/// CALL followed immediately by RET brings the program counter to the
/// instruction following the call (the old program counter plus 3) and
/// restores the stack pointer.
pub proof fn lemma_call_ret_round_trip(s: CpuState)
    requires
        state_wf(s),
    ensures
        spec_ret(spec_call(s)).pc == wrap16(s.pc + 3),
        spec_ret(spec_call(s)).sp == s.sp,
{
    let ret: u16 = wrap16(s.pc + 3);
    assert(wrap16(wrap16(s.sp - 2) + 1) == wrap16(s.sp - 1));
    assert(wrap16(wrap16(s.sp - 2) + 2) == s.sp);
    assert(wrap16(s.sp - 1) != wrap16(s.sp - 2));
    assert(ret / 256 * 256 + ret % 256 == ret);
}

/// A conditional jump whose condition is false still advances the program
/// counter by exactly 3 — the opcode and both address bytes — and changes
/// nothing else.
pub proof fn lemma_conditional_jump_not_taken(s: CpuState, op: u8)
    requires
        state_wf(s),
        mem_at(s, s.pc) == op,
        op == 0xC2 || op == 0xCA || op == 0xD2 || op == 0xDA || op == 0xE2 || op == 0xEA || op
            == 0xF2 || op == 0xFA,
        !spec_cond(s, ((op - 0xC0) / 8) as int),
    ensures
        spec_step(s).0 == spec_advance(s, 3),
        spec_step(s).0.pc == wrap16(s.pc + 3),
        spec_step(s).1 == StepOutcome::Stepped,
{
}

} // verus!
