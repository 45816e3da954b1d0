//! The register file and flag register of the processor, together with the
//! closed enumerations that select a register, a register pair, or a stack
//! operand inside the instruction semantics.

use vstd::prelude::*;

verus! {

/// The five condition flags. Each holds 0 or 1, as on the packed flag word.
pub struct ConditionFlags {
    pub carry: u8,
    pub aux_carry: u8,
    pub zero: u8,
    pub parity: u8,
    pub sign: u8,
}

impl ConditionFlags {
    /// All flags clear.
    pub fn new() -> (flags: ConditionFlags)
        ensures
            flags.carry == 0,
            flags.aux_carry == 0,
            flags.zero == 0,
            flags.parity == 0,
            flags.sign == 0,
    {
        ConditionFlags { carry: 0u8, aux_carry: 0u8, zero: 0u8, parity: 0u8, sign: 0u8 }
    }
}

/// The seven 8-bit registers: the accumulator A and the general registers
/// B, C, D, E, H and L, pairable as BC, DE and HL.
pub struct Register {
    pub a: u8,
    pub b: u8,
    pub c: u8,
    pub d: u8,
    pub e: u8,
    pub h: u8,
    pub l: u8,
}

impl Register {
    /// All registers zero.
    pub fn new() -> (regs: Register)
        ensures
            regs.a == 0,
            regs.b == 0,
            regs.c == 0,
            regs.d == 0,
            regs.e == 0,
            regs.h == 0,
            regs.l == 0,
    {
        Register { a: 0u8, b: 0u8, c: 0u8, d: 0u8, e: 0u8, h: 0u8, l: 0u8 }
    }
}

/// An 8-bit operand location: a register, or the memory cell addressed by
/// the HL pair (`M`).
#[derive(Clone, Copy, PartialEq, Eq, Structural, Debug)]
pub enum Reg {
    B,
    C,
    D,
    E,
    H,
    L,
    M,
    A,
}

/// A 16-bit operand location: a register pair, or the stack pointer.
#[derive(Clone, Copy, PartialEq, Eq, Structural, Debug)]
pub enum Pair {
    B,
    D,
    H,
    Sp,
}

/// A PUSH/POP operand: a register pair, or the accumulator together with
/// the packed flag word (`Psw`).
#[derive(Clone, Copy, PartialEq, Eq, Structural, Debug)]
pub enum StackReg {
    B,
    D,
    H,
    Psw,
}

/// What one fetch-decode-execute step reports back to its driver. Port
/// traffic crosses the machine boundary: an `Output` hands the driver a
/// byte for a peripheral, and an `Input` asks it to supply one, which it
/// delivers through the machine's input entry point.
#[derive(Clone, Copy, PartialEq, Eq, Structural, Debug)]
pub enum StepOutcome {
    /// An instruction was executed and the machine can continue.
    Stepped,
    /// The halt opcode was fetched; the machine state did not change.
    Halted,
    /// An IN instruction executed: the driver should read the peripheral
    /// byte at `port` and hand it to the machine.
    Input { port: u8 },
    /// An OUT instruction executed: the accumulator's byte `value` is
    /// addressed to the peripheral at `port`.
    Output { port: u8, value: u8 },
}

/// Number of ones among the binary digits of `v`.
pub open spec fn ones(v: u8) -> nat
    decreases v,
{
    if v == 0 {
        0
    } else {
        ((v % 2) + ones(v / 2)) as nat
    }
}

/// Even parity: an even count of set bits yields flag = 1.
pub open spec fn even_parity(v: u8) -> bool {
    ones(v) % 2 == 0
}

pub proof fn lemma_ones_le(v: u8)
    ensures
        ones(v) <= v,
    decreases v,
{
    if v != 0 {
        lemma_ones_le(v / 2);
    }
}

/// Parity of the 8-bit value `value`: 1 when the number of set bits is even.
pub fn parity(value: u8) -> (r: u8)
    ensures
        r == 1 <==> even_parity(value),
        r <= 1,
{
    let mut v: u8 = value;
    let mut count: u8 = 0;
    proof {
        lemma_ones_le(value);
    }
    while v > 0
        invariant
            count + ones(v) == ones(value),
            ones(value) <= 255,
        decreases v,
    {
        count = count + v % 2;
        v = v / 2;
    }
    if count % 2 == 0 {
        1
    } else {
        0
    }
}

} // verus!
