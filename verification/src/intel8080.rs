//! The processor itself: the owned state bundle, the fetch-decode-execute
//! step, the run loop, interrupt injection, and the image loader.

use vstd::prelude::*;

use crate::cpu::{ConditionFlags, Pair, Reg, Register, StackReg, StepOutcome};
use crate::instructions::{
    adc, add_to_accu, ana, cmp, dad, dcr, dcx, inr, inx, ldax, lxi, mov_m, mvi, ora, pop, push,
    reg_get, reg_set, rst, sbb, set_szp, stax, sub_accu, xra,
};
use crate::model::{
    pair_of, push_word, reg_of, spec_advance, spec_alu, spec_call, spec_cond, spec_exec_op,
    spec_interrupt, spec_jmp, spec_op_ctrl, spec_op_lo, spec_ret, spec_rot, spec_run, spec_step,
    spec_xthl, stack_reg_of, CpuState,
};

verus! {

/// The complete machine state: register file, condition flags, program
/// counter, stack pointer, interrupt-enable flag, and the 64 KB address
/// space. The fields are public so that a surrounding application or a
/// test harness can set up preconditions and inspect results directly.
pub struct Intel8080 {
    pub regs: Register,
    pub flags: ConditionFlags,
    pub pc: usize,
    pub sp: usize,
    pub int_enable: u8,
    pub memory: Vec<u8>,
}

impl View for Intel8080 {
    type V = CpuState;

    /// The abstract state this machine denotes.
    open spec fn view(&self) -> CpuState {
        CpuState {
            a: self.regs.a,
            b: self.regs.b,
            c: self.regs.c,
            d: self.regs.d,
            e: self.regs.e,
            h: self.regs.h,
            l: self.regs.l,
            carry: self.flags.carry == 1,
            aux_carry: self.flags.aux_carry == 1,
            zero: self.flags.zero == 1,
            parity: self.flags.parity == 1,
            sign: self.flags.sign == 1,
            pc: self.pc as u16,
            sp: self.sp as u16,
            int_enable: self.int_enable == 1,
            mem: self.memory@,
        }
    }
}

impl Intel8080 {
    /// Well-formedness: the address space holds exactly 65,536 bytes, the
    /// program counter and stack pointer stay below 0x10000, and each flag
    /// byte holds 0 or 1. Every operation of the interpreter preserves it.
    pub open spec fn wf(&self) -> bool {
        &&& self.memory@.len() == 0x10000
        &&& self.pc < 0x10000
        &&& self.sp < 0x10000
        &&& self.flags.carry <= 1
        &&& self.flags.aux_carry <= 1
        &&& self.flags.zero <= 1
        &&& self.flags.parity <= 1
        &&& self.flags.sign <= 1
        &&& self.int_enable <= 1
    }

    /// A machine with all registers, flags and counters zero and a
    /// zero-filled 64 KB address space.
    pub fn new() -> (machine: Intel8080)
        ensures
            machine.wf(),
            machine@.a == 0,
            machine@.b == 0,
            machine@.c == 0,
            machine@.d == 0,
            machine@.e == 0,
            machine@.h == 0,
            machine@.l == 0,
            !machine@.carry,
            !machine@.aux_carry,
            !machine@.zero,
            !machine@.parity,
            !machine@.sign,
            machine@.pc == 0,
            machine@.sp == 0,
            !machine@.int_enable,
            forall|i: int| 0 <= i < 0x10000 ==> machine@.mem[i] == 0,
    {
        let mut memory: Vec<u8> = Vec::new();
        while memory.len() < 0x10000
            invariant
                memory@.len() <= 0x10000,
                forall|i: int| 0 <= i < memory@.len() ==> memory@[i] == 0,
            decreases 0x10000 - memory@.len(),
        {
            memory.push(0u8);
        }
        Intel8080 {
            regs: Register::new(),
            flags: ConditionFlags::new(),
            pc: 0usize,
            sp: 0usize,
            int_enable: 0u8,
            memory,
        }
    }

    /// Copies a program image verbatim into the address space starting at
    /// `base`; no header or magic number is interpreted, and nothing else
    /// about the machine changes.
    pub fn load_image(&mut self, image: &Vec<u8>, base: usize)
        requires
            old(self).wf(),
            base + image@.len() <= 0x10000,
        ensures
            final(self).wf(),
            final(self)@.mem.len() == 0x10000,
            forall|i: int|
                base <= i < base + image@.len() ==> final(self)@.mem[i] == image@[i - base],
            forall|i: int|
                0 <= i < 0x10000 && !(base <= i < base + image@.len()) ==> final(self)@.mem[i]
                    == old(self)@.mem[i],
            final(self)@ == (CpuState { mem: final(self)@.mem, ..old(self)@ }),
    {
        let mut idx: usize = 0;
        while idx < image.len()
            invariant
                self.wf(),
                base + image@.len() <= 0x10000,
                idx <= image@.len(),
                forall|i: int| base <= i < base + idx ==> self@.mem[i] == image@[i - base],
                forall|i: int|
                    0 <= i < 0x10000 && !(base <= i < base + idx) ==> self@.mem[i] == old(
                        self,
                    )@.mem[i],
                self@ == (CpuState { mem: self@.mem, ..old(self)@ }),
            decreases image@.len() - idx,
        {
            self.memory[base + idx] = image[idx];
            idx = idx + 1;
        }
    }

    /// Advances the program counter by an instruction's encoded width,
    /// wrapping modulo 65,536.
    fn advance(&mut self, width: usize)
        requires
            old(self).wf(),
            width <= 3,
        ensures
            final(self).wf(),
            final(self)@ == spec_advance(old(self)@, width as int),
    {
        self.pc = (self.pc + width) % 0x10000;
    }

    /// The immediate byte following the opcode.
    fn imm8(&self) -> (v: u8)
        requires
            self.wf(),
        ensures
            v == crate::model::imm8(self@),
    {
        self.memory[(self.pc + 1) % 0x10000]
    }

    /// The immediate 16-bit value following the opcode, low byte first.
    fn imm16(&self) -> (v: usize)
        requires
            self.wf(),
        ensures
            v == crate::model::imm16(self@) as usize,
            v < 0x10000,
    {
        let lo: u8 = self.memory[(self.pc + 1) % 0x10000];
        let hi: u8 = self.memory[(self.pc + 2) % 0x10000];
        hi as usize * 256 + lo as usize
    }

    /// Evaluates one of the eight condition codes against the flags, in
    /// the encoded order NZ, Z, NC, C, PO, PE, P, M.
    fn cond(&self, cc: u8) -> (b: bool)
        requires
            self.wf(),
            cc < 8,
        ensures
            b == spec_cond(self@, cc as int),
    {
        if cc == 0 {
            self.flags.zero == 0
        } else if cc == 1 {
            self.flags.zero == 1
        } else if cc == 2 {
            self.flags.carry == 0
        } else if cc == 3 {
            self.flags.carry == 1
        } else if cc == 4 {
            self.flags.parity == 0
        } else if cc == 5 {
            self.flags.parity == 1
        } else if cc == 6 {
            self.flags.sign == 0
        } else {
            self.flags.sign == 1
        }
    }

    /// RET: pops the program counter from the stack, low byte at `[SP]`.
    fn do_ret(&mut self)
        requires
            old(self).wf(),
        ensures
            final(self).wf(),
            final(self)@ == spec_ret(old(self)@),
    {
        let lo: u8 = self.memory[self.sp];
        let hi: u8 = self.memory[(self.sp + 1) % 0x10000];
        self.pc = hi as usize * 256 + lo as usize;
        self.sp = (self.sp + 2) % 0x10000;
    }

    /// JMP: loads the program counter with the immediate absolute target.
    fn do_jmp(&mut self)
        requires
            old(self).wf(),
        ensures
            final(self).wf(),
            final(self)@ == spec_jmp(old(self)@),
    {
        let target: usize = self.imm16();
        self.pc = target;
    }

    /// Pushes a 16-bit value onto the stack: high byte to `[SP-1]`, low
    /// byte to `[SP-2]`, SP decremented by 2.
    fn do_push_word(&mut self, v: usize)
        requires
            old(self).wf(),
            v < 0x10000,
        ensures
            final(self).wf(),
            final(self)@ == push_word(old(self)@, v as u16),
    {
        let above: usize = (self.sp + 0xFFFF) % 0x10000;
        let below: usize = (self.sp + 0xFFFE) % 0x10000;
        self.memory[above] = (v / 256) as u8;
        self.memory[below] = (v % 256) as u8;
        self.sp = below;
    }

    /// CALL: pushes the address of the following instruction, then jumps
    /// to the immediate absolute target, read after the push so that a
    /// stack overlapping the operand bytes behaves as stored.
    fn do_call(&mut self)
        requires
            old(self).wf(),
        ensures
            final(self).wf(),
            final(self)@ == spec_call(old(self)@),
    {
        let ret: usize = (self.pc + 3) % 0x10000;
        self.do_push_word(ret);
        let target: usize = self.imm16();
        self.pc = target;
    }

    /// XTHL: swaps HL with the two bytes on top of the stack; the stack
    /// pointer does not move.
    fn do_xthl(&mut self)
        requires
            old(self).wf(),
        ensures
            final(self).wf(),
            final(self)@ == spec_xthl(old(self)@),
    {
        let sp0: usize = self.sp;
        let sp1: usize = (self.sp + 1) % 0x10000;
        let lo: u8 = self.memory[sp0];
        let hi: u8 = self.memory[sp1];
        self.memory[sp0] = self.regs.l;
        self.memory[sp1] = self.regs.h;
        self.regs.l = lo;
        self.regs.h = hi;
    }

    /// Dispatches the eight-entry ALU family in opcode order: ADD, ADC,
    /// SUB, SBB, ANA, XRA, ORA, CMP.
    fn alu_dispatch(&mut self, family: u8, v: u8)
        requires
            old(self).wf(),
            family < 8,
        ensures
            final(self).wf(),
            final(self)@ == spec_alu(old(self)@, family as int, v),
    {
        if family == 0 {
            add_to_accu(self, v);
        } else if family == 1 {
            adc(self, v);
        } else if family == 2 {
            sub_accu(self, v);
        } else if family == 3 {
            sbb(self, v);
        } else if family == 4 {
            ana(self, v);
        } else if family == 5 {
            xra(self, v);
        } else if family == 6 {
            ora(self, v);
        } else {
            cmp(self, v);
        }
    }

    /// Executes an opcode of the 0x00..0x3F block.
    #[verifier::rlimit(40)]
    fn op_lo(&mut self, op: u8)
        requires
            old(self).wf(),
            op < 0x40,
        ensures
            final(self).wf(),
            final(self)@ == spec_op_lo(old(self)@, op),
    {
        let low: u8 = op % 8;
        let field: u8 = op / 8;
        let p: Pair = pair_from_code(op / 16);
        if low == 0 {
            self.advance(1);
        } else if low == 1 {
            if field % 2 == 0 {
                lxi(self, p);
                self.advance(3);
            } else {
                dad(self, p);
                self.advance(1);
            }
        } else if low == 2 {
            if field == 0 {
                stax(self, Pair::B);
                self.advance(1);
            } else if field == 1 {
                ldax(self, Pair::B);
                self.advance(1);
            } else if field == 2 {
                stax(self, Pair::D);
                self.advance(1);
            } else if field == 3 {
                ldax(self, Pair::D);
                self.advance(1);
            } else if field == 4 {
                // SHLD: L to the immediate address, H to the next higher one.
                let addr: usize = self.imm16();
                self.memory[addr] = self.regs.l;
                self.memory[(addr + 1) % 0x10000] = self.regs.h;
                self.advance(3);
            } else if field == 5 {
                // LHLD: L from the immediate address, H from the next higher one.
                let addr: usize = self.imm16();
                self.regs.l = self.memory[addr];
                self.regs.h = self.memory[(addr + 1) % 0x10000];
                self.advance(3);
            } else if field == 6 {
                // STA: the accumulator to the immediate address.
                let addr: usize = self.imm16();
                self.memory[addr] = self.regs.a;
                self.advance(3);
            } else {
                // LDA: the accumulator from the immediate address.
                let addr: usize = self.imm16();
                self.regs.a = self.memory[addr];
                self.advance(3);
            }
        } else if low == 3 {
            if field % 2 == 0 {
                inx(self, p);
                self.advance(1);
            } else {
                dcx(self, p);
                self.advance(1);
            }
        } else if low == 4 {
            inr(self, reg_from_code(field));
            self.advance(1);
        } else if low == 5 {
            dcr(self, reg_from_code(field));
            self.advance(1);
        } else if low == 6 {
            mvi(self, reg_from_code(field));
            self.advance(2);
        } else {
            self.op_rot(field);
            self.advance(1);
        }
    }

    /// Executes the rotate/adjust column of the low opcode block: RLC,
    /// RRC, RAL, RAR, DAA, CMA, STC, CMC.
    fn op_rot(&mut self, field: u8)
        requires
            old(self).wf(),
            field < 8,
        ensures
            final(self).wf(),
            final(self)@ == spec_rot(old(self)@, field as int),
    {
        if field == 0 {
            // RLC: rotate left, high bit to bit 0 and to carry.
            let a: u8 = self.regs.a;
            self.regs.a = (a % 128) * 2 + a / 128;
            self.flags.carry = a / 128;
        } else if field == 1 {
            // RRC: rotate right, low bit to bit 7 and to carry.
            let a: u8 = self.regs.a;
            self.regs.a = a / 2 + (a % 2) * 128;
            self.flags.carry = a % 2;
        } else if field == 2 {
            // RAL: shift left, old high bit to carry, incoming carry
            // placed in bit 7 of the result.
            let a: u8 = self.regs.a;
            let t: u8 = self.flags.carry;
            let shifted: u8 = (a % 128) * 2;
            self.regs.a = if t == 1 && shifted < 128 {
                shifted + 128
            } else {
                shifted
            };
            self.flags.carry = a / 128;
        } else if field == 3 {
            // RAR: shift right, old low bit to carry, incoming carry
            // placed in bit 7 of the result.
            let a: u8 = self.regs.a;
            let t: u8 = self.flags.carry;
            self.regs.a = a / 2 + t * 128;
            self.flags.carry = a % 2;
        } else if field == 4 {
            // DAA: adjust the accumulator into two packed decimal
            // digits, nibble by nibble.
            let mut a: u8 = self.regs.a;
            if a % 16 > 9 || self.flags.aux_carry == 1 {
                a = ((a as usize + 6) % 256) as u8;
                self.flags.aux_carry = 1;
            }
            if a / 16 > 9 || self.flags.carry == 1 {
                a = a % 16 + ((a / 16 + 6) % 16) * 16;
                self.flags.carry = 1;
            }
            self.regs.a = a;
            set_szp(self, a);
        } else if field == 5 {
            // CMA: complement the accumulator.
            self.regs.a = !self.regs.a;
        } else if field == 6 {
            // STC: set carry.
            self.flags.carry = 1;
        } else {
            // CMC: complement carry.
            self.flags.carry = if self.flags.carry == 1 {
                0
            } else {
                1
            };
        }
    }

    /// Executes an opcode of the MOV matrix (0x40..0x7F, except the halt
    /// encoding 0x76 where MOV M,M would sit).
    fn op_mov(&mut self, op: u8)
        requires
            old(self).wf(),
            0x40 <= op < 0x80,
            op != 0x76,
        ensures
            final(self).wf(),
            final(self)@ == spec_exec_op(old(self)@, op),
    {
        let dst: Reg = reg_from_code((op - 0x40) / 8);
        let src: Reg = reg_from_code(op % 8);
        match dst {
            Reg::M => {
                mov_m(self, src);
            },
            _ => {
                let v: u8 = reg_get(self, src);
                reg_set(self, dst, v);
            },
        }
        self.advance(1);
    }

    /// Executes an opcode of the register ALU matrix (0x80..0xBF).
    fn op_alu(&mut self, op: u8)
        requires
            old(self).wf(),
            0x80 <= op < 0xC0,
        ensures
            final(self).wf(),
            final(self)@ == spec_exec_op(old(self)@, op),
    {
        let src: Reg = reg_from_code(op % 8);
        let v: u8 = reg_get(self, src);
        self.alu_dispatch((op - 0x80) / 8, v);
        self.advance(1);
    }

    /// Executes an opcode of the 0xC0..0xFF block. The state change of IN
    /// and OUT is the 2-byte advance alone; their port traffic is reported
    /// by `step`.
    #[verifier::rlimit(40)]
    fn op_ctrl(&mut self, op: u8)
        requires
            old(self).wf(),
            0xC0 <= op,
        ensures
            final(self).wf(),
            final(self)@ == spec_op_ctrl(old(self)@, op),
    {
        let low: u8 = op % 8;
        let cc: u8 = (op - 0xC0) / 8;
        let pp: u8 = (op - 0xC0) / 16;
        if low == 0 {
            if self.cond(cc) {
                self.do_ret();
            } else {
                self.advance(1);
            }
        } else if low == 1 {
            if cc % 2 == 0 {
                pop(self, stack_from_code(pp));
                self.advance(1);
            } else if pp < 2 {
                self.do_ret();
            } else if pp == 2 {
                // PCHL: an indirect jump through HL.
                self.pc = self.regs.h as usize * 256 + self.regs.l as usize;
            } else {
                // SPHL: the stack pointer from HL.
                self.sp = self.regs.h as usize * 256 + self.regs.l as usize;
                self.advance(1);
            }
        } else if low == 2 {
            if self.cond(cc) {
                self.do_jmp();
            } else {
                self.advance(3);
            }
        } else if low == 3 {
            if cc < 2 {
                self.do_jmp();
            } else if cc == 2 || cc == 3 {
                self.advance(2);
            } else if cc == 4 {
                self.do_xthl();
                self.advance(1);
            } else if cc == 5 {
                // XCHG: swap HL with DE.
                let th: u8 = self.regs.h;
                let tl: u8 = self.regs.l;
                self.regs.h = self.regs.d;
                self.regs.l = self.regs.e;
                self.regs.d = th;
                self.regs.e = tl;
                self.advance(1);
            } else if cc == 6 {
                // DI: disable interrupts.
                self.int_enable = 0;
                self.advance(1);
            } else {
                // EI: enable interrupts.
                self.int_enable = 1;
                self.advance(1);
            }
        } else if low == 4 {
            if self.cond(cc) {
                self.do_call();
            } else {
                self.advance(3);
            }
        } else if low == 5 {
            if cc % 2 == 0 {
                push(self, stack_from_code(pp));
                self.advance(1);
            } else {
                self.do_call();
            }
        } else if low == 6 {
            let v: u8 = self.imm8();
            self.alu_dispatch(cc, v);
            self.advance(2);
        } else {
            rst(self, cc);
        }
    }

    /// One fetch-decode-execute step: reads the byte at the program
    /// counter, executes it, and advances the program counter by the
    /// instruction's encoded width unless the instruction redirected it.
    /// The halt opcode leaves the state unchanged and reports `Halted`;
    /// IN and OUT report the port traffic that crosses the machine
    /// boundary, and the instruction's side effects are otherwise applied
    /// atomically before the step returns.
    pub fn step(&mut self) -> (outcome: StepOutcome)
        requires
            old(self).wf(),
        ensures
            final(self).wf(),
            final(self)@ == spec_step(old(self)@).0,
            outcome == spec_step(old(self)@).1,
            outcome == StepOutcome::Halted ==> final(self)@ == old(self)@ && old(self)@.mem[old(
                self,
            )@.pc as int] == 0x76,
    {
        let op: u8 = self.memory[self.pc];
        if op == 0x76 {
            return StepOutcome::Halted;
        }
        let outcome: StepOutcome = if op == 0xDB {
            StepOutcome::Input { port: self.imm8() }
        } else if op == 0xD3 {
            StepOutcome::Output { port: self.imm8(), value: self.regs.a }
        } else {
            StepOutcome::Stepped
        };
        if op < 0x40 {
            self.op_lo(op);
        } else if op < 0x80 {
            self.op_mov(op);
        } else if op < 0xC0 {
            self.op_alu(op);
        } else {
            self.op_ctrl(op);
        }
        outcome
    }

    /// Delivers a peripheral byte requested by an IN instruction: the byte
    /// lands in the accumulator and nothing else changes.
    pub fn input(&mut self, value: u8)
        requires
            old(self).wf(),
        ensures
            final(self).wf(),
            final(self)@ == (CpuState { a: value, ..old(self)@ }),
    {
        self.regs.a = value;
    }

    /// Interrupt injection, called by the surrounding application between
    /// instructions. When interrupts are enabled this performs the RST
    /// sequence for the vector `code`: the current program counter — the
    /// address of the instruction that would have executed next — is
    /// pushed, control transfers to `code * 8`, and further interrupts are
    /// disabled until software re-enables them. When disabled, nothing
    /// changes.
    pub fn request_interrupt(&mut self, code: u8)
        requires
            old(self).wf(),
            code < 8,
        ensures
            final(self).wf(),
            final(self)@ == spec_interrupt(old(self)@, code),
    {
        if self.int_enable == 1 {
            let pc0: usize = self.pc;
            self.do_push_word(pc0);
            self.pc = code as usize * 8;
            self.int_enable = 0;
        }
    }

    /// Runs the fetch-decode-execute loop until the halt opcode is
    /// fetched, or until `max_steps` instructions have executed. Each
    /// iteration applies one `step`; with no peripheral attached, an IN
    /// instruction loads 0 and an OUT instruction's byte is discarded.
    /// Returns true exactly when the machine halted, with the program
    /// counter resting on the halt opcode.
    pub fn run(&mut self, max_steps: usize) -> (halted: bool)
        requires
            old(self).wf(),
        ensures
            final(self).wf(),
            final(self)@ == spec_run(old(self)@, max_steps as nat).0,
            halted == spec_run(old(self)@, max_steps as nat).1,
            halted ==> final(self)@.mem[final(self)@.pc as int] == 0x76,
    {
        let mut steps_left: usize = max_steps;
        while steps_left > 0
            invariant
                self.wf(),
                spec_run(self@, steps_left as nat) == spec_run(
                    old(self)@,
                    max_steps as nat,
                ),
            decreases steps_left,
        {
            let outcome: StepOutcome = self.step();
            match outcome {
                StepOutcome::Halted => {
                    return true;
                },
                StepOutcome::Stepped => {},
                StepOutcome::Input { port: _ } => {
                    self.input(0);
                },
                StepOutcome::Output { port: _, value: _ } => {},
            }
            steps_left = steps_left - 1;
        }
        false
    }
}

/// The register selected by a 3-bit operand field, in the encoded order
/// B, C, D, E, H, L, M, A.
fn reg_from_code(code: u8) -> (r: Reg)
    requires
        code < 8,
    ensures
        r == reg_of(code as int),
{
    if code == 0 {
        Reg::B
    } else if code == 1 {
        Reg::C
    } else if code == 2 {
        Reg::D
    } else if code == 3 {
        Reg::E
    } else if code == 4 {
        Reg::H
    } else if code == 5 {
        Reg::L
    } else if code == 6 {
        Reg::M
    } else {
        Reg::A
    }
}

/// The register pair selected by a 2-bit operand field, in the encoded
/// order BC, DE, HL, SP.
fn pair_from_code(code: u8) -> (p: Pair)
    requires
        code < 4,
    ensures
        p == pair_of(code as int),
{
    if code == 0 {
        Pair::B
    } else if code == 1 {
        Pair::D
    } else if code == 2 {
        Pair::H
    } else {
        Pair::Sp
    }
}

/// The PUSH/POP operand selected by a 2-bit operand field, in the encoded
/// order BC, DE, HL, PSW.
fn stack_from_code(code: u8) -> (r: StackReg)
    requires
        code < 4,
    ensures
        r == stack_reg_of(code as int),
{
    if code == 0 {
        StackReg::B
    } else if code == 1 {
        StackReg::D
    } else if code == 2 {
        StackReg::H
    } else {
        StackReg::Psw
    }
}

} // verus!
