use vstd::prelude::*;

use crate::bus::{BusView, is_hram, lemma_ram_write_read};
use crate::interrupts::Interrupt;
use crate::registers::{Registers, FLAG_C, FLAG_H, FLAG_N, FLAG_Z, with_flag, flag, word, lemma_pair_roundtrip};

verus! {

/// An operand of the 8-bit loads and arithmetic: a register, or the byte at HL.
#[derive(Debug, Clone, Copy, PartialEq, Eq, Structural)]
pub enum GpRegister {
    A,
    B,
    C,
    D,
    E,
    H,
    L,
    HlMem,
}

/// An operand of the 0xCB-prefixed instructions, in the order of their encoding.
#[derive(Debug, Clone, Copy, PartialEq, Eq, Structural)]
pub enum PrefixRegister {
    B,
    C,
    D,
    E,
    H,
    L,
    LdHl,
    A,
}

/// The register that the low three bits of a 0xCB-prefixed opcode name.
pub open spec fn prefix_operand(sub: u8) -> PrefixRegister {
    let k = sub & 0x07;
    if k == 0 {
        PrefixRegister::B
    } else if k == 1 {
        PrefixRegister::C
    } else if k == 2 {
        PrefixRegister::D
    } else if k == 3 {
        PrefixRegister::E
    } else if k == 4 {
        PrefixRegister::H
    } else if k == 5 {
        PrefixRegister::L
    } else if k == 6 {
        PrefixRegister::LdHl
    } else {
        PrefixRegister::A
    }
}

/// The target of a relative jump by the signed byte `off` from `pc`.
pub open spec fn jr_target(pc: u16, off: u8) -> u16 {
    if off < 128 {
        pc.wrapping_add(off as u16)
    } else {
        pc.wrapping_sub((256 - off) as u16)
    }
}

/// The state of the CPU and everything behind its bus. `fault` marks a state that
/// the execution reached by something that the CPU cannot do (an unimplemented
/// opcode, a refused memory access, a register that wraps around): it is never the
/// state of a `Cpu` value.
pub struct CpuView {
    pub regs: Registers,
    pub bus: BusView,
    /// Interrupt master enable.
    pub ime: bool,
    /// The interrupts raised by the picture processing unit.
    pub int_queue: Seq<Interrupt>,
    pub fault: bool,
}

impl CpuView {
    /// The invariant of the CPU state.
    pub open spec fn wf(self) -> bool {
        self.bus.wf()
    }

    /// This state, faulted when `bad` holds.
    pub open spec fn fail_if(self, bad: bool) -> CpuView {
        CpuView { fault: self.fault || bad, ..self }
    }

    /// This state with the registers `r`.
    pub open spec fn with_regs(self, r: Registers) -> CpuView {
        CpuView { regs: r, ..self }
    }

    /// A read of `addr` over the bus.
    #[verifier::opaque]
    pub open spec fn rd(self, addr: u16) -> (CpuView, u8) {
        (self.fail_if(!self.bus.read_ok(addr)), self.bus.read(addr))
    }

    /// A write of `value` to `addr` over the bus.
    #[verifier::opaque]
    pub open spec fn wr(self, addr: u16, value: u8) -> CpuView {
        CpuView { bus: self.bus.write(addr, value), fault: self.fault || !self.bus.write_ok(addr), ..self }
    }

    /// Reads the byte at PC and advances PC.
    #[verifier::opaque]
    pub open spec fn fetch_byte(self) -> (CpuView, u8) {
        let (s, b) = self.rd(self.regs.pc);
        (
            s.fail_if(self.regs.pc == 0xFFFF).with_regs(
                Registers { pc: (self.regs.pc + 1) as u16, ..s.regs },
            ),
            b,
        )
    }

    /// Reads the little-endian word at PC and advances PC past it.
    #[verifier::opaque]
    pub open spec fn fetch_word(self) -> (CpuView, u16) {
        let (s1, lo) = self.fetch_byte();
        let (s2, hi) = s1.fetch_byte();
        (s2, word(hi, lo))
    }

    /// Decrements SP and writes `value` there.
    #[verifier::opaque]
    pub open spec fn push_byte(self, value: u8) -> CpuView {
        let s = self.fail_if(self.regs.sp == 0).with_regs(
            Registers { sp: (self.regs.sp - 1) as u16, ..self.regs },
        );
        s.wr(s.regs.sp, value)
    }

    /// Pushes the high byte of `value`, then the low byte.
    #[verifier::opaque]
    pub open spec fn push_word(self, value: u16) -> CpuView {
        self.push_byte((value / 256) as u8).push_byte((value % 256) as u8)
    }

    /// Reads the byte at SP and increments SP.
    #[verifier::opaque]
    pub open spec fn pop_byte(self) -> (CpuView, u8) {
        let (s, b) = self.rd(self.regs.sp);
        (
            s.fail_if(self.regs.sp == 0xFFFF).with_regs(
                Registers { sp: (self.regs.sp + 1) as u16, ..s.regs },
            ),
            b,
        )
    }

    /// Pops the low byte, then the high byte.
    #[verifier::opaque]
    pub open spec fn pop_word(self) -> (CpuView, u16) {
        let (s1, lo) = self.pop_byte();
        let (s2, hi) = s1.pop_byte();
        (s2, word(hi, lo))
    }

    /// Sets or clears the zero flag.
    pub open spec fn set_z(self, value: bool) -> CpuView {
        self.with_regs(Registers { f: with_flag(self.regs.f, FLAG_Z, value), ..self.regs })
    }

    /// Sets or clears the subtract flag.
    pub open spec fn set_n(self, value: bool) -> CpuView {
        self.with_regs(Registers { f: with_flag(self.regs.f, FLAG_N, value), ..self.regs })
    }

    /// Sets or clears the half-carry flag.
    pub open spec fn set_h(self, value: bool) -> CpuView {
        self.with_regs(Registers { f: with_flag(self.regs.f, FLAG_H, value), ..self.regs })
    }

    /// Sets or clears the carry flag.
    pub open spec fn set_c(self, value: bool) -> CpuView {
        self.with_regs(Registers { f: with_flag(self.regs.f, FLAG_C, value), ..self.regs })
    }

    /// Writes the HL pair.
    pub open spec fn set_hl(self, value: u16) -> CpuView {
        self.with_regs(Registers { h: (value / 256) as u8, l: (value % 256) as u8, ..self.regs })
    }

    /// Writes the BC pair.
    pub open spec fn set_bc(self, value: u16) -> CpuView {
        self.with_regs(Registers { b: (value / 256) as u8, c: (value % 256) as u8, ..self.regs })
    }

    /// Writes the DE pair.
    pub open spec fn set_de(self, value: u16) -> CpuView {
        self.with_regs(Registers { d: (value / 256) as u8, e: (value % 256) as u8, ..self.regs })
    }

    /// Writes the AF pair; the low four bits of F stay zero.
    pub open spec fn set_af(self, value: u16) -> CpuView {
        self.with_regs(Registers { a: (value / 256) as u8, f: (value % 256) as u8 & 0xF0, ..self.regs })
    }

    /// Sets PC.
    pub open spec fn set_pc(self, value: u16) -> CpuView {
        self.with_regs(Registers { pc: value, ..self.regs })
    }

    /// Sets A.
    pub open spec fn set_a(self, value: u8) -> CpuView {
        self.with_regs(Registers { a: value, ..self.regs })
    }

    /// Reads an operand.
    pub open spec fn reg(self, r: GpRegister) -> (CpuView, u8) {
        match r {
            GpRegister::A => (self, self.regs.a),
            GpRegister::B => (self, self.regs.b),
            GpRegister::C => (self, self.regs.c),
            GpRegister::D => (self, self.regs.d),
            GpRegister::E => (self, self.regs.e),
            GpRegister::H => (self, self.regs.h),
            GpRegister::L => (self, self.regs.l),
            GpRegister::HlMem => self.rd(self.regs.spec_hl()),
        }
    }

    /// Writes an operand.
    pub open spec fn set_reg(self, r: GpRegister, value: u8) -> CpuView {
        match r {
            GpRegister::A => self.with_regs(Registers { a: value, ..self.regs }),
            GpRegister::B => self.with_regs(Registers { b: value, ..self.regs }),
            GpRegister::C => self.with_regs(Registers { c: value, ..self.regs }),
            GpRegister::D => self.with_regs(Registers { d: value, ..self.regs }),
            GpRegister::E => self.with_regs(Registers { e: value, ..self.regs }),
            GpRegister::H => self.with_regs(Registers { h: value, ..self.regs }),
            GpRegister::L => self.with_regs(Registers { l: value, ..self.regs }),
            GpRegister::HlMem => self.wr(self.regs.spec_hl(), value),
        }
    }

    /// Reads an operand of a 0xCB-prefixed instruction.
    pub open spec fn preg(self, r: PrefixRegister) -> (CpuView, u8) {
        match r {
            PrefixRegister::B => (self, self.regs.b),
            PrefixRegister::C => (self, self.regs.c),
            PrefixRegister::D => (self, self.regs.d),
            PrefixRegister::E => (self, self.regs.e),
            PrefixRegister::H => (self, self.regs.h),
            PrefixRegister::L => (self, self.regs.l),
            PrefixRegister::LdHl => self.rd(self.regs.spec_hl()),
            PrefixRegister::A => (self, self.regs.a),
        }
    }

    /// Writes an operand of a 0xCB-prefixed instruction.
    pub open spec fn set_preg(self, r: PrefixRegister, value: u8) -> CpuView {
        match r {
            PrefixRegister::B => self.with_regs(Registers { b: value, ..self.regs }),
            PrefixRegister::C => self.with_regs(Registers { c: value, ..self.regs }),
            PrefixRegister::D => self.with_regs(Registers { d: value, ..self.regs }),
            PrefixRegister::E => self.with_regs(Registers { e: value, ..self.regs }),
            PrefixRegister::H => self.with_regs(Registers { h: value, ..self.regs }),
            PrefixRegister::L => self.with_regs(Registers { l: value, ..self.regs }),
            PrefixRegister::LdHl => self.wr(self.regs.spec_hl(), value),
            PrefixRegister::A => self.with_regs(Registers { a: value, ..self.regs }),
        }
    }

    /// INC: half-carry from the low nibble, the operand incremented (wrapping), zero
    /// flag from the operand read back, subtract flag cleared.
    #[verifier::opaque]
    pub open spec fn inc(self, r: GpRegister) -> CpuView {
        let (s1, v1) = self.reg(r);
        let s2 = s1.set_h(v1 & 0x0F == 0x0F);
        let (s3, v2) = s2.reg(r);
        let s4 = s3.set_reg(r, v2.wrapping_add(1));
        let (s5, v3) = s4.reg(r);
        s5.set_z(v3 == 0).set_n(false)
    }

    /// DEC: half-borrow from the low nibble, the operand decremented (wrapping), zero
    /// flag from the operand read back, subtract flag set.
    #[verifier::opaque]
    pub open spec fn dec(self, r: GpRegister) -> CpuView {
        let (s1, v1) = self.reg(r);
        let s2 = s1.set_h(v1 & 0x0F == 0);
        let (s3, v2) = s2.reg(r);
        let s4 = s3.set_reg(r, v2.wrapping_sub(1));
        let (s5, v3) = s4.reg(r);
        s5.set_z(v3 == 0).set_n(true)
    }

    /// ADD to an operand.
    #[verifier::opaque]
    pub open spec fn add(self, r: GpRegister, rhs: u8) -> CpuView {
        let (s1, v1) = self.reg(r);
        let s2 = s1.set_h((v1 & 0x0F) + (rhs & 0x0F) > 0x0F);
        let (s3, v2) = s2.reg(r);
        let s4 = s3.set_reg(r, v2.wrapping_add(rhs));
        let (s5, v3) = s4.reg(r);
        s5.set_z(v3 == 0).set_n(false).set_c(v2 + rhs > 255)
    }

    /// SUB from an operand.
    #[verifier::opaque]
    pub open spec fn sub(self, r: GpRegister, rhs: u8) -> CpuView {
        let (s1, v1) = self.reg(r);
        let s2 = s1.set_h((v1 & 0x0F) < (rhs & 0x0F));
        let (s3, v2) = s2.reg(r);
        let s4 = s3.set_reg(r, v2.wrapping_sub(rhs));
        let (s5, v3) = s4.reg(r);
        s5.set_z(v3 == 0).set_n(true).set_c(v2 < rhs)
    }

    /// OR into A.
    pub open spec fn or(self, value: u8) -> CpuView {
        let s = self.set_a(self.regs.a | value);
        s.set_z(s.regs.a == 0).set_n(false).set_h(false).set_c(false)
    }

    /// XOR into A.
    pub open spec fn xor(self, value: u8) -> CpuView {
        let s = self.set_a(self.regs.a ^ value);
        s.set_z(s.regs.a == 0).set_n(false).set_h(false).set_c(false)
    }

    /// The cycles of a 0xCB-prefixed instruction on `r`: `mem` on the byte at HL, 2 otherwise.
    pub open spec fn prefix_cycles(r: PrefixRegister, mem: u32) -> u32 {
        if r == PrefixRegister::LdHl {
            mem
        } else {
            2
        }
    }

    /// BIT: the zero flag is set when bit `b` of the operand is clear.
    #[verifier::opaque]
    pub open spec fn bit(self, r: PrefixRegister, b: u8) -> (CpuView, u32) {
        let (s1, v) = self.preg(r);
        (s1.set_z(v & (1u8 << b) == 0).set_n(false).set_h(true), Self::prefix_cycles(r, 3))
    }

    /// RES: clears bit `b` of the operand.
    #[verifier::opaque]
    pub open spec fn res(self, r: PrefixRegister, b: u8) -> (CpuView, u32) {
        let (s1, v) = self.preg(r);
        (s1.set_preg(r, v & !(1u8 << b)), Self::prefix_cycles(r, 4))
    }

    /// SET: sets bit `b` of the operand.
    #[verifier::opaque]
    pub open spec fn set(self, r: PrefixRegister, b: u8) -> (CpuView, u32) {
        let (s1, v) = self.preg(r);
        (s1.set_preg(r, v | (1u8 << b)), Self::prefix_cycles(r, 4))
    }

    /// ADC: adds `rhs` and the carry flag to an operand.
    #[verifier::opaque]
    pub open spec fn adc(self, r: GpRegister, rhs: u8) -> CpuView {
        let c: u8 = if self.regs.f & FLAG_C != 0 {
            1
        } else {
            0
        };
        let (s1, lhs) = self.reg(r);
        let intermediate = lhs.wrapping_add(rhs);
        let result = intermediate.wrapping_add(c);
        let s2 = s1.set_reg(r, result);
        let h = (lhs & 0x0F) + (rhs & 0x0F) > 0x0F || (intermediate & 0x0F) + c > 0x0F;
        let carry = lhs + rhs > 255 || intermediate + c > 255;
        s2.set_z(result == 0).set_n(false).set_h(h).set_c(carry)
    }

    /// 16-bit ADD: the sum (wrapping) and the flags it sets.
    pub open spec fn add16(self, lhs: u16, rhs: u16) -> (CpuView, u16) {
        (
            self.set_n(false).set_h((lhs & 0x0FFF) + (rhs & 0x0FFF) > 0x0FFF).set_c(lhs + rhs > 0xFFFF),
            lhs.wrapping_add(rhs),
        )
    }

    /// CP: compares A with `value` by subtraction, changing only the flags.
    pub open spec fn cp(self, value: u8) -> CpuView {
        let a = self.regs.a;
        self.set_z(a.wrapping_sub(value) == 0).set_n(true).set_h((a & 0x0F) < (value & 0x0F)).set_c(a < value)
    }

    /// RET: pops PC.
    #[verifier::opaque]
    pub open spec fn ret(self) -> CpuView {
        let (s, addr) = self.pop_word();
        s.set_pc(addr)
    }

    /// Whether a flag is set.
    pub open spec fn flag_set(self, mask: u8) -> bool {
        flag(self.regs.f, mask)
    }

    /// A relative jump by the next byte, taken when `cond` holds: 3 cycles taken, 2 not.
    #[verifier::opaque]
    pub open spec fn jr_if(self, cond: bool) -> (CpuView, u32) {
        let (s, off) = self.fetch_byte();
        if cond {
            (s.set_pc(jr_target(s.regs.pc, off)), 3)
        } else {
            (s, 2)
        }
    }

    /// The rotate, shift and swap instructions (0xCB 0x00..0x40) on the operand `r`,
    /// whose value `v` has just been read.
    #[verifier::opaque]
    pub open spec fn shift_op(self, r: PrefixRegister, v: u8, group: u8) -> (CpuView, u32) {
        let s = self;
        if group == 0x00 {
            // rlc
            let s2 = s.set_preg(r, (v << 1u8) | (v >> 7u8));
            (s2.set_z(v == 0).set_n(false).set_h(false).set_c(v & 0x80 != 0), Self::prefix_cycles(r, 4))
        } else if group == 0x08 {
            // rrc
            let s2 = s.set_preg(r, (v >> 1u8) | (v << 7u8));
            (s2.set_z(v == 0).set_n(false).set_h(false).set_c(v & 0x01 != 0), Self::prefix_cycles(r, 4))
        } else if group == 0x10 {
            // rl
            let result = ((v << 1u8) & 0xFE) | (s.regs.f & (FLAG_C >> 4u8));
            let s2 = s.set_preg(r, result);
            (s2.set_z(result == 0).set_n(false).set_h(false).set_c(v & 0x80 != 0), Self::prefix_cycles(r, 4))
        } else if group == 0x18 {
            // rr
            let result = (v >> 1u8) | ((s.regs.f & FLAG_C) << 3u8);
            let s2 = s.set_preg(r, result);
            (s2.set_z(result == 0).set_n(false).set_h(false).set_c(v & 0x01 != 0), Self::prefix_cycles(r, 4))
        } else if group == 0x20 {
            // sla: the zero flag is never written
            let s2 = s.set_preg(r, v << 1u8);
            (s2.set_n(v << 1u8 == 0).set_n(false).set_h(false).set_c(v & 0x80 != 0), Self::prefix_cycles(r, 4))
        } else if group == 0x28 {
            // sra
            let result = (v >> 1u8) | (v & 0x80);
            let s2 = s.set_preg(r, result);
            (s2.set_z(result == 0).set_n(false).set_h(false).set_c(v & 0x01 != 0), Self::prefix_cycles(r, 4))
        } else if group == 0x30 {
            // swap
            let result = (v << 4u8) | ((v & 0xF0) >> 4u8);
            let s2 = s.set_preg(r, result);
            (s2.set_z(result == 0).set_n(false).set_h(false).set_c(false), Self::prefix_cycles(r, 4))
        } else {
            // srl
            let s2 = s.set_preg(r, v >> 1u8);
            (s2.set_z(v >> 1u8 == 0).set_n(false).set_h(false).set_c(v & 0x01 != 0), Self::prefix_cycles(r, 4))
        }
    }

    /// The 0xCB-prefixed instruction `sub`: the operand is read, then rotated,
    /// shifted, swapped, tested, reset or set.
    #[verifier::opaque]
    pub open spec fn exec_prefix(self, sub: u8) -> (CpuView, u32) {
        let r = prefix_operand(sub);
        let (s, v) = self.preg(r);
        let group = sub & 0xF8;
        if group < 0x40 {
            s.shift_op(r, v, group)
        } else if group < 0x80 {
            s.bit(r, ((group - 0x40) / 8) as u8)
        } else if group < 0xC0 {
            s.res(r, ((group - 0x80) / 8) as u8)
        } else {
            s.set(r, ((group - 0xC0) / 8) as u8)
        }
    }

    /// DAA: adjusts A to binary-coded decimal after an addition or subtraction.
    #[verifier::opaque]
    pub open spec fn daa(self) -> CpuView {
        let s = if self.flag_set(FLAG_N) {
            let adj: u8 = ((if self.flag_set(FLAG_H) { 0x06u8 } else { 0u8 }) + (if self.flag_set(FLAG_C) {
                0x60u8
            } else {
                0u8
            })) as u8;
            self.set_a(self.regs.a.wrapping_sub(adj))
        } else {
            let lo: u8 = if self.flag_set(FLAG_H) || self.regs.a & 0x0F > 0x09 {
                0x06u8
            } else {
                0u8
            };
            let hi = self.flag_set(FLAG_C) || self.regs.a > 0x99;
            let s1 = if hi {
                self.set_c(true)
            } else {
                self
            };
            s1.set_a(self.regs.a.wrapping_add((lo + if hi { 0x60u8 } else { 0u8 }) as u8))
        };
        s.set_z(s.regs.a == 0).set_h(false)
    }
}


impl CpuView {
    /// The instruction with opcode `op`, PC already past it: the state after it and
    /// its length in machine cycles. An opcode that is not implemented faults.
    pub open spec fn exec(self, op: u8) -> (CpuView, u32) {
        if op < 0x20 {
            self.exec_00(op)
        } else if op < 0x40 {
            self.exec_20(op)
        } else if op < 0x80 {
            self.exec_40(op)
        } else if op < 0xC0 {
            self.exec_80(op)
        } else if op < 0xE0 {
            self.exec_c0(op)
        } else {
            self.exec_e0(op)
        }
    }

    /// The instructions with opcodes 0x00..0x20.
    #[verifier::opaque]
    pub open spec fn exec_00(self, op: u8) -> (CpuView, u32) {
        let r = self.regs;
        if op == 0x00 {
            // nop
            (self, 1)
        } else if op == 0x01 {
            let (s, w) = self.fetch_word();
            (s.set_bc(w), 3)
        } else if op == 0x03 {
            (self.set_bc(r.spec_bc().wrapping_add(1)), 2)
        } else if op == 0x04 {
            (self.inc(GpRegister::B), 1)
        } else if op == 0x05 {
            (self.dec(GpRegister::B), 1)
        } else if op == 0x06 {
            let (s, b) = self.fetch_byte();
            (s.with_regs(Registers { b, ..s.regs }), 2)
        } else if op == 0x0C {
            (self.inc(GpRegister::C), 1)
        } else if op == 0x0D {
            (self.dec(GpRegister::C), 1)
        } else if op == 0x0E {
            let (s, b) = self.fetch_byte();
            (s.with_regs(Registers { c: b, ..s.regs }), 2)
        } else if op == 0x11 {
            let (s, w) = self.fetch_word();
            (s.set_de(w), 3)
        } else if op == 0x12 {
            (self.wr(r.spec_de(), r.a), 3)
        } else if op == 0x13 {
            (self.set_de(r.spec_de().wrapping_add(1)), 2)
        } else if op == 0x14 {
            (self.inc(GpRegister::D), 1)
        } else if op == 0x18 {
            // jr s8
            self.jr_if(true)
        } else if op == 0x1A {
            let (s, v) = self.rd(r.spec_de());
            (s.set_a(v), 2)
        } else if op == 0x1C {
            (self.inc(GpRegister::E), 1)
        } else if op == 0x1D {
            (self.dec(GpRegister::E), 1)
        } else if op == 0x1F {
            // rra
            let prev_c = r.f & FLAG_C;
            let s = self.set_c(r.a & 0x01 != 0);
            let s2 = s.set_a((r.a >> 1u8) | (prev_c << 3u8));
            (s2.set_z(false).set_n(false).set_h(false), 1)
        } else {
            (self.fail_if(true), 0)
        }
    }

    /// The instructions with opcodes 0x20..0x40.
    #[verifier::opaque]
    pub open spec fn exec_20(self, op: u8) -> (CpuView, u32) {
        let r = self.regs;
        if op == 0x20 {
            // jr nz, s8
            self.jr_if(!self.flag_set(FLAG_Z))
        } else if op == 0x21 {
            // ld hl, d16
            let (s, w) = self.fetch_word();
            (s.set_hl(w), 3)
        } else if op == 0x22 {
            // ld (hl+), a
            (self.wr(r.spec_hl(), r.a).set_hl(r.spec_hl().wrapping_add(1)), 2)
        } else if op == 0x23 {
            (self.set_hl(r.spec_hl().wrapping_add(1)), 2)
        } else if op == 0x24 {
            (self.inc(GpRegister::H), 1)
        } else if op == 0x25 {
            (self.dec(GpRegister::H), 1)
        } else if op == 0x26 {
            let (s, b) = self.fetch_byte();
            (s.with_regs(Registers { h: b, ..s.regs }), 2)
        } else if op == 0x27 {
            (self.daa(), 1)
        } else if op == 0x28 {
            // jr z, s8
            self.jr_if(self.flag_set(FLAG_Z))
        } else if op == 0x29 {
            // add hl, hl
            let (s, v) = self.add16(r.spec_hl(), r.spec_hl());
            (s.set_hl(v), 2)
        } else if op == 0x2A {
            // ld a, (hl+)
            let (s, v) = self.rd(r.spec_hl());
            (s.set_a(v).set_hl(r.spec_hl().wrapping_add(1)), 2)
        } else if op == 0x2C {
            (self.inc(GpRegister::L), 1)
        } else if op == 0x2D {
            (self.dec(GpRegister::L), 1)
        } else if op == 0x30 {
            // jr nc, s8
            self.jr_if(!self.flag_set(FLAG_C))
        } else if op == 0x31 {
            // ld sp, d16
            let (s, w) = self.fetch_word();
            (s.with_regs(Registers { sp: w, ..s.regs }), 3)
        } else if op == 0x32 {
            // ld (hl-), a
            (self.wr(r.spec_hl(), r.a).set_hl(r.spec_hl().wrapping_sub(1)), 2)
        } else if op == 0x35 {
            (self.dec(GpRegister::HlMem), 3)
        } else if op == 0x38 {
            // jr c, s8
            self.jr_if(self.flag_set(FLAG_C))
        } else if op == 0x3C {
            (self.inc(GpRegister::A), 1)
        } else if op == 0x3D {
            (self.dec(GpRegister::A), 1)
        } else if op == 0x3E {
            // ld a, d8
            let (s, b) = self.fetch_byte();
            (s.set_a(b), 2)
        } else {
            (self.fail_if(true), 0)
        }
    }

    /// The instructions with opcodes 0x40..0x80.
    #[verifier::opaque]
    pub open spec fn exec_40(self, op: u8) -> (CpuView, u32) {
        let r = self.regs;
        if op == 0x46 {
            let (s, v) = self.rd(r.spec_hl());
            (s.with_regs(Registers { b: v, ..s.regs }), 2)
        } else if op == 0x47 {
            (self.with_regs(Registers { b: r.a, ..r }), 1)
        } else if op == 0x4E {
            let (s, v) = self.rd(r.spec_hl());
            (s.with_regs(Registers { c: v, ..s.regs }), 2)
        } else if op == 0x4F {
            (self.with_regs(Registers { c: r.a, ..r }), 1)
        } else if op == 0x56 {
            let (s, v) = self.rd(r.spec_hl());
            (s.with_regs(Registers { d: v, ..s.regs }), 2)
        } else if op == 0x57 {
            (self.with_regs(Registers { d: r.a, ..r }), 1)
        } else if op == 0x5F {
            (self.with_regs(Registers { e: r.a, ..r }), 1)
        } else if op == 0x67 {
            (self.with_regs(Registers { h: r.a, ..r }), 1)
        } else if op == 0x6E {
            let (s, v) = self.rd(r.spec_hl());
            (s.with_regs(Registers { l: v, ..s.regs }), 2)
        } else if op == 0x6F {
            (self.with_regs(Registers { l: r.a, ..r }), 1)
        } else if op == 0x70 {
            (self.wr(r.spec_hl(), r.b), 2)
        } else if op == 0x71 {
            (self.wr(r.spec_hl(), r.c), 2)
        } else if op == 0x72 {
            (self.wr(r.spec_hl(), r.d), 2)
        } else if op == 0x77 {
            (self.wr(r.spec_hl(), r.a), 2)
        } else if op == 0x78 {
            (self.set_a(r.b), 1)
        } else if op == 0x79 {
            (self.set_a(r.c), 1)
        } else if op == 0x7A {
            (self.set_a(r.d), 1)
        } else if op == 0x7B {
            (self.set_a(r.e), 1)
        } else if op == 0x7C {
            (self.set_a(r.h), 1)
        } else if op == 0x7D {
            (self.set_a(r.l), 1)
        } else if op == 0x7E {
            let (s, v) = self.rd(r.spec_hl());
            (s.set_a(v), 2)
        } else {
            (self.fail_if(true), 0)
        }
    }

    /// The instructions with opcodes 0x80..0xc0.
    #[verifier::opaque]
    pub open spec fn exec_80(self, op: u8) -> (CpuView, u32) {
        let r = self.regs;
        if op == 0xA9 {
            (self.xor(r.c), 1)
        } else if op == 0xAE {
            let (s, v) = self.rd(r.spec_hl());
            (s.xor(v), 2)
        } else if op == 0xB1 {
            (self.or(r.c), 1)
        } else if op == 0xB6 {
            let (s, v) = self.rd(r.spec_hl());
            (s.or(v), 2)
        } else if op == 0xB7 {
            (self.or(r.a), 1)
        } else if op == 0xB8 {
            (self.cp(r.b), 1)
        } else if op == 0xB9 {
            (self.cp(r.c), 1)
        } else if op == 0xBA {
            (self.cp(r.d), 1)
        } else if op == 0xBB {
            (self.cp(r.e), 1)
        } else {
            (self.fail_if(true), 0)
        }
    }

    /// The instructions with opcodes 0xc0..0xe0.
    #[verifier::opaque]
    pub open spec fn exec_c0(self, op: u8) -> (CpuView, u32) {
        let r = self.regs;
        if op == 0xC1 {
            let (s, w) = self.pop_word();
            (s.set_bc(w), 3)
        } else if op == 0xC2 {
            // jp nz, a16
            let (s, addr) = self.fetch_word();
            if !s.flag_set(FLAG_Z) {
                (s.set_pc(addr), 4)
            } else {
                (s, 3)
            }
        } else if op == 0xC3 {
            // jp a16
            let (s, w) = self.fetch_word();
            (s.set_pc(w), 4)
        } else if op == 0xC4 {
            // call nz, a16
            let (s, addr) = self.fetch_word();
            if !s.flag_set(FLAG_Z) {
                (s.push_word(s.regs.pc).set_pc(addr), 6)
            } else {
                (s, 3)
            }
        } else if op == 0xC5 {
            (self.push_word(r.spec_bc()), 4)
        } else if op == 0xC6 {
            let (s, v) = self.fetch_byte();
            (s.add(GpRegister::A, v), 2)
        } else if op == 0xC8 {
            // ret z
            if self.flag_set(FLAG_Z) {
                (self.ret(), 5)
            } else {
                (self, 2)
            }
        } else if op == 0xC9 {
            (self.ret(), 4)
        } else if op == 0xCB {
            let (s, sub) = self.fetch_byte();
            s.exec_prefix(sub)
        } else if op == 0xCD {
            // call a16
            let (s, addr) = self.fetch_word();
            (s.push_word(s.regs.pc).set_pc(addr), 6)
        } else if op == 0xCE {
            let (s, v) = self.fetch_byte();
            (s.adc(GpRegister::A, v), 2)
        } else if op == 0xD0 {
            // ret nc
            if !self.flag_set(FLAG_C) {
                (self.ret(), 5)
            } else {
                (self, 2)
            }
        } else if op == 0xD1 {
            let (s, w) = self.pop_word();
            (s.set_de(w), 3)
        } else if op == 0xD5 {
            (self.push_word(r.spec_de()), 4)
        } else if op == 0xD6 {
            let (s, v) = self.fetch_byte();
            (s.sub(GpRegister::A, v), 2)
        } else {
            (self.fail_if(true), 0)
        }
    }

    /// The instructions with opcodes 0xe0..0x100.
    #[verifier::opaque]
    pub open spec fn exec_e0(self, op: u8) -> (CpuView, u32) {
        let r = self.regs;
        if op == 0xE0 {
            // ld (a8), a
            let (s, b) = self.fetch_byte();
            (s.wr((0xFF00 + b) as u16, s.regs.a), 3)
        } else if op == 0xE1 {
            let (s, w) = self.pop_word();
            (s.set_hl(w), 3)
        } else if op == 0xE5 {
            (self.push_word(r.spec_hl()), 4)
        } else if op == 0xE6 {
            // and d8
            let (s, v) = self.fetch_byte();
            let s2 = s.set_a(s.regs.a & v);
            (s2.set_z(s2.regs.a == 0).set_n(false).set_h(true).set_c(false), 2)
        } else if op == 0xE9 {
            (self.set_pc(r.spec_hl()), 1)
        } else if op == 0xEA {
            // ld (a16), a
            let (s, addr) = self.fetch_word();
            (s.wr(addr, s.regs.a), 4)
        } else if op == 0xEE {
            let (s, v) = self.fetch_byte();
            (s.xor(v), 2)
        } else if op == 0xF0 {
            // ld a, (a8)
            let (s, b) = self.fetch_byte();
            let (s2, v) = s.rd((0xFF00 + b) as u16);
            (s2.set_a(v), 3)
        } else if op == 0xF1 {
            let (s, w) = self.pop_word();
            (s.set_af(w), 3)
        } else if op == 0xF3 {
            // di
            (CpuView { ime: false, ..self }, 1)
        } else if op == 0xF5 {
            (self.push_word(r.spec_af()), 4)
        } else if op == 0xFA {
            // ld a, (a16)
            let (s, addr) = self.fetch_word();
            let (s2, v) = s.rd(addr);
            (s2.set_a(v), 4)
        } else if op == 0xFE {
            let (s, v) = self.fetch_byte();
            (s.cp(v), 2)
        } else {
            (self.fail_if(true), 0)
        }
    }

    /// One instruction: the opcode at PC is fetched and executed. Returns the state
    /// after it and its length in machine cycles.
    pub open spec fn step(self) -> (CpuView, u32) {
        let (s, op) = self.fetch_byte();
        if s.fault {
            (s, 0)
        } else {
            s.exec(op)
        }
    }
}

/// Once the CPU has faulted, every further step of an instruction leaves it faulted.
pub broadcast proof fn lemma_rd_sticky(s: CpuView, addr: u16)
    requires
        s.fault,
    ensures
        (#[trigger] s.rd(addr)).0.fault,
{
    reveal(CpuView::rd);
}

pub broadcast proof fn lemma_wr_sticky(s: CpuView, addr: u16, value: u8)
    requires
        s.fault,
    ensures
        (#[trigger] s.wr(addr, value)).fault,
{
    reveal(CpuView::wr);
}

pub broadcast proof fn lemma_fetch_byte_sticky(s: CpuView)
    requires
        s.fault,
    ensures
        (#[trigger] s.fetch_byte()).0.fault,
{
    reveal(CpuView::fetch_byte);
    reveal(CpuView::rd);
}

pub broadcast proof fn lemma_fetch_word_sticky(s: CpuView)
    requires
        s.fault,
    ensures
        (#[trigger] s.fetch_word()).0.fault,
{
    reveal(CpuView::fetch_word);
    lemma_fetch_byte_sticky(s);
    lemma_fetch_byte_sticky(s.fetch_byte().0);
}

pub broadcast proof fn lemma_push_byte_sticky(s: CpuView, value: u8)
    requires
        s.fault,
    ensures
        (#[trigger] s.push_byte(value)).fault,
{
    reveal(CpuView::push_byte);
    reveal(CpuView::wr);
}

pub broadcast proof fn lemma_push_word_sticky(s: CpuView, value: u16)
    requires
        s.fault,
    ensures
        (#[trigger] s.push_word(value)).fault,
{
    reveal(CpuView::push_word);
    lemma_push_byte_sticky(s, (value / 256) as u8);
    lemma_push_byte_sticky(s.push_byte((value / 256) as u8), (value % 256) as u8);
}

pub broadcast proof fn lemma_pop_byte_sticky(s: CpuView)
    requires
        s.fault,
    ensures
        (#[trigger] s.pop_byte()).0.fault,
{
    reveal(CpuView::pop_byte);
    reveal(CpuView::rd);
}

pub broadcast proof fn lemma_add_sticky(s: CpuView, r: GpRegister, rhs: u8)
    requires
        s.fault,
    ensures
        (#[trigger] s.add(r, rhs)).fault,
{
    reveal(CpuView::add);
    reveal(CpuView::rd);
    reveal(CpuView::wr);
}

pub broadcast proof fn lemma_sub_sticky(s: CpuView, r: GpRegister, rhs: u8)
    requires
        s.fault,
    ensures
        (#[trigger] s.sub(r, rhs)).fault,
{
    reveal(CpuView::sub);
    reveal(CpuView::rd);
    reveal(CpuView::wr);
}

pub broadcast proof fn lemma_adc_sticky(s: CpuView, r: GpRegister, rhs: u8)
    requires
        s.fault,
    ensures
        (#[trigger] s.adc(r, rhs)).fault,
{
    reveal(CpuView::adc);
    reveal(CpuView::rd);
    reveal(CpuView::wr);
}

pub broadcast proof fn lemma_shift_op_sticky(s: CpuView, r: PrefixRegister, v: u8, group: u8)
    requires
        s.fault,
    ensures
        (#[trigger] s.shift_op(r, v, group)).0.fault,
{
    reveal(CpuView::shift_op);
    reveal(CpuView::wr);
}

pub broadcast proof fn lemma_bit_sticky(s: CpuView, r: PrefixRegister, b: u8)
    requires
        s.fault,
    ensures
        (#[trigger] s.bit(r, b)).0.fault,
{
    reveal(CpuView::bit);
    reveal(CpuView::rd);
}

pub broadcast proof fn lemma_res_sticky(s: CpuView, r: PrefixRegister, b: u8)
    requires
        s.fault,
    ensures
        (#[trigger] s.res(r, b)).0.fault,
{
    reveal(CpuView::res);
    reveal(CpuView::rd);
    reveal(CpuView::wr);
}

pub broadcast proof fn lemma_set_sticky(s: CpuView, r: PrefixRegister, b: u8)
    requires
        s.fault,
    ensures
        (#[trigger] s.set(r, b)).0.fault,
{
    reveal(CpuView::set);
    reveal(CpuView::rd);
    reveal(CpuView::wr);
}

pub broadcast proof fn lemma_exec_prefix_sticky(s: CpuView, sub: u8)
    requires
        s.fault,
    ensures
        (#[trigger] s.exec_prefix(sub)).0.fault,
{
    reveal(CpuView::exec_prefix);
    reveal(CpuView::rd);
    let r = prefix_operand(sub);
    let (s1, v) = s.preg(r);
    let group = sub & 0xF8;
    lemma_shift_op_sticky(s1, r, v, group);
    lemma_bit_sticky(s1, r, ((group - 0x40) / 8) as u8);
    lemma_res_sticky(s1, r, ((group - 0x80) / 8) as u8);
    lemma_set_sticky(s1, r, ((group - 0xC0) / 8) as u8);
}

/// The lemmas that keep a fault once raised.
pub broadcast group group_fault_sticky {
    lemma_rd_sticky,
    lemma_wr_sticky,
    lemma_fetch_byte_sticky,
    lemma_fetch_word_sticky,
    lemma_push_byte_sticky,
    lemma_push_word_sticky,
    lemma_pop_byte_sticky,
    lemma_add_sticky,
    lemma_sub_sticky,
    lemma_adc_sticky,
    lemma_shift_op_sticky,
    lemma_bit_sticky,
    lemma_res_sticky,
    lemma_set_sticky,
    lemma_exec_prefix_sticky,
}



/// Whether the stack byte at `addr` lies in RAM that the CPU can reach: work RAM
/// while no OAM DMA transfer runs, or high RAM.
pub open spec fn stack_in_ram(b: BusView, addr: u16) -> bool {
    (0xC000 <= addr < 0xE000 && b.dma is None) || is_hram(addr)
}

/// A word pushed on a stack that lies in RAM pops back unchanged, and SP is back
/// where it was.
pub proof fn lemma_push_pop(s: CpuView, value: u16)
    requires
        s.wf(),
        !s.fault,
        s.regs.sp >= 2,
        stack_in_ram(s.bus, (s.regs.sp - 1) as u16),
        stack_in_ram(s.bus, (s.regs.sp - 2) as u16),
    ensures
        !s.push_word(value).fault,
        s.push_word(value).regs.sp == s.regs.sp - 2,
        s.push_word(value).pop_word().1 == value,
        !s.push_word(value).pop_word().0.fault,
        s.push_word(value).pop_word().0.regs == s.regs,
{
    reveal(CpuView::push_word);
    reveal(CpuView::push_byte);
    reveal(CpuView::pop_word);
    reveal(CpuView::pop_byte);
    reveal(CpuView::rd);
    reveal(CpuView::wr);
    let hi = (value / 256) as u8;
    let lo = (value % 256) as u8;
    let a1 = (s.regs.sp - 1) as u16;
    let a2 = (s.regs.sp - 2) as u16;
    let b1 = s.bus.write(a1, hi);
    lemma_ram_write_read(s.bus, a1, hi, a2);
    let b2 = b1.write(a2, lo);
    lemma_ram_write_read(b1, a2, lo, a1);
    lemma_pair_roundtrip(value);
}


proof fn lemma_flag_order(f: u8, z: bool, h: bool, c: bool)
    ensures
        with_flag(with_flag(with_flag(with_flag(f, FLAG_H, h), FLAG_Z, z), FLAG_N, true), FLAG_C, c)
            == with_flag(with_flag(with_flag(with_flag(f, FLAG_Z, z), FLAG_N, true), FLAG_H, h), FLAG_C, c),
{
    assert(with_flag(with_flag(with_flag(with_flag(f, FLAG_H, h), FLAG_Z, z), FLAG_N, true), FLAG_C, c)
        == with_flag(with_flag(with_flag(with_flag(f, FLAG_Z, z), FLAG_N, true), FLAG_H, h), FLAG_C, c))
        by (bit_vector);
}

/// CP sets the flags exactly as SUB from A would, and leaves A as it was.
pub proof fn lemma_cp_is_sub_without_store(s: CpuView, value: u8)
    ensures
        s.cp(value).regs.f == s.sub(GpRegister::A, value).regs.f,
        s.cp(value).regs.a == s.regs.a,
        s.sub(GpRegister::A, value).regs.a == s.regs.a.wrapping_sub(value),
{
    reveal(CpuView::sub);
    let a = s.regs.a;
    lemma_flag_order(s.regs.f, a.wrapping_sub(value) == 0, (a & 0x0F) < (value & 0x0F), a < value);
}

/// INC of A gives A and the Z, N and H flags that ADD of one would, but keeps the
/// carry flag, which ADD sets when A was 0xFF.
pub proof fn lemma_inc_is_add_one(s: CpuView)
    ensures
        s.inc(GpRegister::A).regs.a == s.add(GpRegister::A, 1).regs.a,
        s.add(GpRegister::A, 1).regs.f == with_flag(s.inc(GpRegister::A).regs.f, FLAG_C, s.regs.a == 255),
        s.inc(GpRegister::A).regs.f & FLAG_C == s.regs.f & FLAG_C,
{
    reveal(CpuView::inc);
    reveal(CpuView::add);
    let a = s.regs.a;
    let f = s.regs.f;
    assert((a & 0x0F == 0x0F) == ((a & 0x0F) + (1u8 & 0x0F) > 0x0F)) by (bit_vector);
    let h = a & 0x0F == 0x0F;
    let z = a.wrapping_add(1) == 0;
    assert(with_flag(with_flag(with_flag(f, FLAG_H, h), FLAG_Z, z), FLAG_N, false) & FLAG_C == f & FLAG_C)
        by (bit_vector);
}


/// Whether `x` is packed BCD: two decimal digits, one per nibble.
pub open spec fn is_bcd(x: u8) -> bool {
    x / 16 <= 9 && x % 16 <= 9
}

/// The number that a packed BCD byte stands for.
pub open spec fn bcd_value(x: u8) -> int {
    (x / 16) * 10 + x % 16
}

/// The packed BCD byte of a number below 100.
pub open spec fn bcd_of(n: int) -> u8 {
    ((n / 10) * 16 + n % 10) as u8
}

proof fn lemma_fetch(s: CpuView)
    requires
        !s.fault,
        s.bus.read_ok(s.regs.pc),
        s.regs.pc != 0xFFFF,
    ensures
        s.fetch_byte() == (s.with_regs(Registers { pc: (s.regs.pc + 1) as u16, ..s.regs }), s.bus.read(s.regs.pc)),
{
    reveal(CpuView::fetch_byte);
    reveal(CpuView::rd);
}

proof fn lemma_exec_ops(s: CpuView)
    ensures
        s.exec(0xC6) == (s.fetch_byte().0.add(GpRegister::A, s.fetch_byte().1), 2u32),
        s.exec(0xD6) == (s.fetch_byte().0.sub(GpRegister::A, s.fetch_byte().1), 2u32),
        s.exec(0xCD) == (s.fetch_word().0.push_word(s.fetch_word().0.regs.pc).set_pc(s.fetch_word().1), 6u32),
        s.exec(0xC9) == (s.ret(), 4u32),
        s.exec(0x27) == (s.daa(), 1u32),
{
    reveal(CpuView::exec_c0);
    reveal(CpuView::exec_20);
}

proof fn lemma_alu_flags(f: u8, h: bool, z: bool, n: bool, c: bool)
    ensures
        flag(with_flag(with_flag(with_flag(with_flag(f, FLAG_H, h), FLAG_Z, z), FLAG_N, n), FLAG_C, c), FLAG_H) == h,
        flag(with_flag(with_flag(with_flag(with_flag(f, FLAG_H, h), FLAG_Z, z), FLAG_N, n), FLAG_C, c), FLAG_N) == n,
        flag(with_flag(with_flag(with_flag(with_flag(f, FLAG_H, h), FLAG_Z, z), FLAG_N, n), FLAG_C, c), FLAG_C) == c,
{
    let g = with_flag(with_flag(with_flag(with_flag(f, FLAG_H, h), FLAG_Z, z), FLAG_N, n), FLAG_C, c);
    assert(flag(g, FLAG_H) == h && flag(g, FLAG_N) == n && flag(g, FLAG_C) == c) by (bit_vector)
        requires
            g == with_flag(with_flag(with_flag(with_flag(f, FLAG_H, h), FLAG_Z, z), FLAG_N, n), FLAG_C, c),
    ;
}

proof fn lemma_daa_flags(f: u8, setc: bool, z: bool)
    ensures
        ({
            let g = with_flag(with_flag(if setc { with_flag(f, FLAG_C, true) } else { f }, FLAG_Z, z), FLAG_H, false);
            &&& flag(g, FLAG_C) == (setc || flag(f, FLAG_C))
            &&& flag(g, FLAG_Z) == z
            &&& !flag(g, FLAG_H)
            &&& flag(g, FLAG_N) == flag(f, FLAG_N)
        }),
{
    let f1 = if setc { with_flag(f, FLAG_C, true) } else { f };
    let g = with_flag(with_flag(f1, FLAG_Z, z), FLAG_H, false);
    assert(flag(g, FLAG_C) == (setc || flag(f, FLAG_C)) && flag(g, FLAG_Z) == z && !flag(g, FLAG_H) && flag(g, FLAG_N)
        == flag(f, FLAG_N)) by (bit_vector)
        requires
            f1 == (if setc { with_flag(f, FLAG_C, true) } else { f }),
            g == with_flag(with_flag(f1, FLAG_Z, z), FLAG_H, false),
    ;
}

proof fn lemma_bcd_add_bits(
    a: u16,
    y: u16,
    s9: u16,
    sum: u16,
    adj: u16,
    t9: u16,
    res: u16,
    h: bool,
    hi: bool,
    n: u16,
)
    by (bit_vector)
    requires
        a / 16 <= 9,
        a % 16 <= 9,
        y / 16 <= 9,
        y % 16 <= 9,
        n == (a / 16) * 10 + a % 16 + (y / 16) * 10 + y % 16,
        s9 == a + y,
        sum == s9 % 256,
        h == ((a & 0x0F) + (y & 0x0F) > 0x0F),
        hi == (s9 > 255 || sum > 0x99),
        adj == (if h || (sum & 0x0F) > 0x09 { 6u16 } else { 0u16 }) + (if hi { 0x60u16 } else { 0u16 }),
        t9 == sum + adj,
        res == t9 % 256,
    ensures
        hi == (n >= 100),
        res == (n % 100 / 10) * 16 + n % 100 % 10,
{
}

proof fn lemma_bcd_sub_bits(
    a: u16,
    y: u16,
    d9: u16,
    diff: u16,
    adj: u16,
    r9: u16,
    res: u16,
    nx: u16,
    ny: u16,
    m: u16,
)
    by (bit_vector)
    requires
        a / 16 <= 9,
        a % 16 <= 9,
        y / 16 <= 9,
        y % 16 <= 9,
        nx == (a / 16) * 10 + a % 16,
        ny == (y / 16) * 10 + y % 16,
        nx >= ny,
        m == nx - ny,
        d9 == a + 256 - y,
        diff == d9 % 256,
        adj == (if (a & 0x0F) < (y & 0x0F) { 6u16 } else { 0u16 }),
        r9 == diff + 256 - adj,
        res == r9 % 256,
    ensures
        !(a < y),
        res == (m / 10) * 16 + m % 10,
{
}


/// ADD of a packed BCD byte `y` to a packed BCD A, followed by DAA, leaves in A the
/// packed BCD of the decimal sum modulo 100; carry is set exactly when the sum
/// reaches 100, zero exactly when A is zero, and half-carry and subtract are clear.
#[verifier::spinoff_prover]
#[verifier::rlimit(40)]
pub proof fn lemma_add_daa(s: CpuView, y: u8)
    requires
        is_bcd(s.regs.a),
        is_bcd(y),
    ensures
        ({
            let t = s.add(GpRegister::A, y).daa();
            &&& t.regs.a == bcd_of((bcd_value(s.regs.a) + bcd_value(y)) % 100)
            &&& flag(t.regs.f, FLAG_C) == (bcd_value(s.regs.a) + bcd_value(y) >= 100)
            &&& flag(t.regs.f, FLAG_Z) == (t.regs.a == 0)
            &&& !flag(t.regs.f, FLAG_H)
            &&& !flag(t.regs.f, FLAG_N)
            &&& t == (CpuView { regs: Registers { a: t.regs.a, f: t.regs.f, ..s.regs }, ..s })
        }),
{
    reveal(CpuView::add);
    reveal(CpuView::daa);
    let a = s.regs.a;
    let f0 = s.regs.f;
    let sum = a.wrapping_add(y);
    let h = (a & 0x0F) + (y & 0x0F) > 0x0F;
    let c = a + y > 255;
    let u = s.add(GpRegister::A, y);
    lemma_alu_flags(f0, h, sum == 0, false, c);
    assert(u.regs.a == sum);
    let lo: u8 = if h || sum & 0x0F > 0x09 {
        6
    } else {
        0
    };
    let hi = c || sum > 0x99;
    let adj = (lo + if hi {
        0x60u8
    } else {
        0u8
    }) as u8;
    let res = sum.wrapping_add(adj);
    let n = bcd_value(a) + bcd_value(y);
    let (a16, y16, sum16) = (a as u16, y as u16, sum as u16);
    assert(a16 & 0x0F == (a & 0x0F) as u16 && y16 & 0x0F == (y & 0x0F) as u16 && sum16 & 0x0F == (sum & 0x0F) as u16)
        by (bit_vector)
        requires
            a16 == a as u16,
            y16 == y as u16,
            sum16 == sum as u16,
    ;
    lemma_bcd_add_bits(
        a16,
        y16,
        (a + y) as u16,
        sum16,
        adj as u16,
        (sum + adj) as u16,
        res as u16,
        h,
        hi,
        n as u16,
    );
    lemma_daa_flags(u.regs.f, hi, res == 0);
}

/// SUB of a packed BCD byte `y` from a packed BCD A that stands for at least as
/// much, followed by DAA, leaves in A the packed BCD of the decimal difference;
/// carry and half-carry are clear, subtract is set, zero exactly when A is zero.
#[verifier::spinoff_prover]
#[verifier::rlimit(40)]
pub proof fn lemma_sub_daa(s: CpuView, y: u8)
    requires
        is_bcd(s.regs.a),
        is_bcd(y),
        bcd_value(s.regs.a) >= bcd_value(y),
    ensures
        ({
            let t = s.sub(GpRegister::A, y).daa();
            &&& t.regs.a == bcd_of(bcd_value(s.regs.a) - bcd_value(y))
            &&& !flag(t.regs.f, FLAG_C)
            &&& flag(t.regs.f, FLAG_Z) == (t.regs.a == 0)
            &&& !flag(t.regs.f, FLAG_H)
            &&& flag(t.regs.f, FLAG_N)
            &&& t == (CpuView { regs: Registers { a: t.regs.a, f: t.regs.f, ..s.regs }, ..s })
        }),
{
    reveal(CpuView::sub);
    reveal(CpuView::daa);
    let a = s.regs.a;
    let f0 = s.regs.f;
    let diff = a.wrapping_sub(y);
    let h = (a & 0x0F) < (y & 0x0F);
    let c = a < y;
    let u = s.sub(GpRegister::A, y);
    lemma_alu_flags(f0, h, diff == 0, true, c);
    assert(u.regs.a == diff);
    let adj: u8 = if h {
        6
    } else {
        0
    };
    let res = diff.wrapping_sub(adj);
    let (a16, y16) = (a as u16, y as u16);
    assert(a16 & 0x0F == (a & 0x0F) as u16 && y16 & 0x0F == (y & 0x0F) as u16) by (bit_vector)
        requires
            a16 == a as u16,
            y16 == y as u16,
    ;
    lemma_bcd_sub_bits(
        a16,
        y16,
        (a + 256 - y) as u16,
        ((a + 256 - y) % 256) as u16,
        adj as u16,
        ((a + 256 - y) % 256 + 256 - adj) as u16,
        res as u16,
        bcd_value(a) as u16,
        bcd_value(y) as u16,
        (bcd_value(a) - bcd_value(y)) as u16,
    );
    lemma_daa_flags(u.regs.f, false, res == 0);
}


/// Whether the three bytes at PC can be fetched and are `b0`, `b1`, `b2`.
pub open spec fn code_at(s: CpuView, b0: u8, b1: u8, b2: u8) -> bool {
    &&& s.regs.pc <= 0xFFFC
    &&& s.bus.read_ok(s.regs.pc)
    &&& s.bus.read_ok((s.regs.pc + 1) as u16)
    &&& s.bus.read_ok((s.regs.pc + 2) as u16)
    &&& s.bus.read(s.regs.pc) == b0
    &&& s.bus.read((s.regs.pc + 1) as u16) == b1
    &&& s.bus.read((s.regs.pc + 2) as u16) == b2
}

/// Executing ADD A, y (0xC6 y) and then DAA (0x27) on a packed BCD A takes 2 and 1
/// machine cycles and leaves the packed BCD of the decimal sum modulo 100 in A, with
/// carry set exactly when the sum reaches 100, zero exactly when A is zero, and
/// half-carry and subtract clear; PC is past both instructions, nothing else changes.
pub proof fn lemma_add_daa_steps(s: CpuView, y: u8)
    requires
        !s.fault,
        code_at(s, 0xC6, y, 0x27),
        is_bcd(s.regs.a),
        is_bcd(y),
    ensures
        s.step().1 == 2,
        s.step().0.step().1 == 1,
        ({
            let t = s.step().0.step().0;
            &&& t.regs.a == bcd_of((bcd_value(s.regs.a) + bcd_value(y)) % 100)
            &&& flag(t.regs.f, FLAG_C) == (bcd_value(s.regs.a) + bcd_value(y) >= 100)
            &&& flag(t.regs.f, FLAG_Z) == (t.regs.a == 0)
            &&& !flag(t.regs.f, FLAG_H)
            &&& !flag(t.regs.f, FLAG_N)
            &&& t == (CpuView {
                regs: Registers { a: t.regs.a, f: t.regs.f, pc: (s.regs.pc + 3) as u16, ..s.regs },
                ..s
            })
        }),
{
    reveal(CpuView::add);
    reveal(CpuView::daa);
    lemma_fetch(s);
    let s0 = s.fetch_byte().0;
    lemma_exec_ops(s0);
    lemma_fetch(s0);
    let s1 = s0.fetch_byte().0;
    let u = s1.add(GpRegister::A, y);
    assert(s.step() == (u, 2u32));
    lemma_fetch(u);
    let u0 = u.fetch_byte().0;
    lemma_exec_ops(u0);
    assert(u.step() == (u0.daa(), 1u32));
    lemma_add_daa(s1, y);
    assert(u0.daa() == (CpuView { regs: Registers { pc: (s.regs.pc + 3) as u16, ..u.daa().regs }, ..u.daa() }));
}

/// Executing SUB y (0xD6 y) and then DAA (0x27) on a packed BCD A that stands for at
/// least as much as `y` takes 2 and 1 machine cycles and leaves the packed BCD of the
/// decimal difference in A, with carry and half-carry clear, subtract set and zero
/// exactly when A is zero; PC is past both instructions, nothing else changes.
pub proof fn lemma_sub_daa_steps(s: CpuView, y: u8)
    requires
        !s.fault,
        code_at(s, 0xD6, y, 0x27),
        is_bcd(s.regs.a),
        is_bcd(y),
        bcd_value(s.regs.a) >= bcd_value(y),
    ensures
        s.step().1 == 2,
        s.step().0.step().1 == 1,
        ({
            let t = s.step().0.step().0;
            &&& t.regs.a == bcd_of(bcd_value(s.regs.a) - bcd_value(y))
            &&& !flag(t.regs.f, FLAG_C)
            &&& flag(t.regs.f, FLAG_Z) == (t.regs.a == 0)
            &&& !flag(t.regs.f, FLAG_H)
            &&& flag(t.regs.f, FLAG_N)
            &&& t == (CpuView {
                regs: Registers { a: t.regs.a, f: t.regs.f, pc: (s.regs.pc + 3) as u16, ..s.regs },
                ..s
            })
        }),
{
    reveal(CpuView::sub);
    reveal(CpuView::daa);
    lemma_fetch(s);
    let s0 = s.fetch_byte().0;
    lemma_exec_ops(s0);
    lemma_fetch(s0);
    let s1 = s0.fetch_byte().0;
    let u = s1.sub(GpRegister::A, y);
    assert(s.step() == (u, 2u32));
    lemma_fetch(u);
    let u0 = u.fetch_byte().0;
    lemma_exec_ops(u0);
    assert(u.step() == (u0.daa(), 1u32));
    lemma_sub_daa(s1, y);
    assert(u0.daa() == (CpuView { regs: Registers { pc: (s.regs.pc + 3) as u16, ..u.daa().regs }, ..u.daa() }));
}


/// CALL a16 (0xCD lo hi) to a subroutine whose first instruction is RET (0xC9), with
/// the stack in RAM: the CALL takes 6 machine cycles and leaves PC at the target and
/// SP two lower; the RET then takes 4 and undoes it, leaving every register as it
/// was before the CALL but PC, which is past the CALL.
#[verifier::spinoff_prover]
#[verifier::rlimit(40)]
pub proof fn lemma_call_ret(s: CpuView, target: u16)
    requires
        s.wf(),
        !s.fault,
        code_at(s, 0xCD, (target % 256) as u8, (target / 256) as u8),
        target != 0xFFFF,
        s.bus.read_ok(target),
        s.bus.read(target) == 0xC9,
        s.regs.sp >= 2,
        stack_in_ram(s.bus, (s.regs.sp - 1) as u16),
        stack_in_ram(s.bus, (s.regs.sp - 2) as u16),
        target != (s.regs.sp - 1) as u16,
        target != (s.regs.sp - 2) as u16,
    ensures
        s.step().1 == 6,
        !s.step().0.fault,
        s.step().0.regs == (Registers { pc: target, sp: (s.regs.sp - 2) as u16, ..s.regs }),
        s.step().0.step().1 == 4,
        !s.step().0.step().0.fault,
        s.step().0.step().0.regs == (Registers { pc: (s.regs.pc + 3) as u16, ..s.regs }),
{
    reveal(CpuView::fetch_word);
    reveal(CpuView::push_word);
    reveal(CpuView::push_byte);
    reveal(CpuView::pop_word);
    reveal(CpuView::pop_byte);
    reveal(CpuView::rd);
    reveal(CpuView::wr);
    reveal(CpuView::ret);
    let pc = s.regs.pc;
    lemma_fetch(s);
    let s0 = s.fetch_byte().0;
    lemma_exec_ops(s0);
    lemma_fetch(s0);
    let s1 = s0.fetch_byte().0;
    lemma_fetch(s1);
    let s2 = s1.fetch_byte().0;
    lemma_pair_roundtrip(target);
    assert(s0.fetch_word() == (s2, target));
    let v = (pc + 3) as u16;
    let hv = (v / 256) as u8;
    let lv = (v % 256) as u8;
    let a1 = (s.regs.sp - 1) as u16;
    let a2 = (s.regs.sp - 2) as u16;
    let b0 = s.bus;
    let b1 = b0.write(a1, hv);
    let b2 = b1.write(a2, lv);
    lemma_ram_write_read(b0, a1, hv, a2);
    lemma_ram_write_read(b0, a1, hv, target);
    lemma_ram_write_read(b1, a2, lv, a1);
    lemma_ram_write_read(b1, a2, lv, target);
    let p = s2.push_word(v).set_pc(target);
    assert(p.bus == b2);
    assert(s.step() == (p, 6u32));
    lemma_fetch(p);
    let p0 = p.fetch_byte().0;
    lemma_exec_ops(p0);
    lemma_pair_roundtrip(v);
    assert(p.step() == (p0.ret(), 4u32));
}


proof fn lemma_logic_flags(f: u8, z: bool, h: bool)
    ensures
        ({
            let g = with_flag(with_flag(with_flag(with_flag(f, FLAG_Z, z), FLAG_N, false), FLAG_H, h), FLAG_C, false);
            flag(g, FLAG_Z) == z && !flag(g, FLAG_N) && flag(g, FLAG_H) == h && !flag(g, FLAG_C)
        }),
{
    let g = with_flag(with_flag(with_flag(with_flag(f, FLAG_Z, z), FLAG_N, false), FLAG_H, h), FLAG_C, false);
    assert(flag(g, FLAG_Z) == z && !flag(g, FLAG_N) && flag(g, FLAG_H) == h && !flag(g, FLAG_C)) by (bit_vector)
        requires
            g == with_flag(with_flag(with_flag(with_flag(f, FLAG_Z, z), FLAG_N, false), FLAG_H, h), FLAG_C, false),
    ;
}

/// What an XOR of `v` into A leaves, given the state `s` before it and the state
/// `t` and cycle count after it: A holds the bitwise exclusive-or, zero is set
/// exactly when A equalled `v`, subtract, half-carry and carry are clear.
pub open spec fn xor_result(s: CpuView, v: u8, t: CpuView) -> bool {
    &&& t.regs.a == s.regs.a ^ v
    &&& flag(t.regs.f, FLAG_Z) == (s.regs.a == v)
    &&& !flag(t.regs.f, FLAG_N)
    &&& !flag(t.regs.f, FLAG_H)
    &&& !flag(t.regs.f, FLAG_C)
}

/// XOR C (0xA9), XOR (HL) (0xAE) and XOR d8 (0xEE), with the opcode fetched: A
/// becomes A ^ operand, zero is set exactly when A equalled the operand, the other
/// flags are clear, and every other register is as before but PC, which moves past
/// the operand byte of XOR d8.
pub proof fn lemma_xor(s: CpuView)
    ensures
        xor_result(s, s.regs.c, s.exec(0xA9).0),
        s.exec(0xA9).1 == 1,
        s.exec(0xA9).0 == (CpuView { regs: Registers { a: s.exec(0xA9).0.regs.a, f: s.exec(0xA9).0.regs.f, ..s.regs }, ..s }),
        !s.fault && s.bus.read_ok(s.regs.spec_hl()) ==> {
            &&& xor_result(s, s.bus.read(s.regs.spec_hl()), s.exec(0xAE).0)
            &&& s.exec(0xAE).1 == 2
            &&& s.exec(0xAE).0 == (CpuView {
                regs: Registers { a: s.exec(0xAE).0.regs.a, f: s.exec(0xAE).0.regs.f, ..s.regs },
                ..s
            })
        },
        !s.fault && s.bus.read_ok(s.regs.pc) && s.regs.pc != 0xFFFF ==> {
            &&& xor_result(s, s.bus.read(s.regs.pc), s.exec(0xEE).0)
            &&& s.exec(0xEE).1 == 2
            &&& s.exec(0xEE).0 == (CpuView {
                regs: Registers {
                    a: s.exec(0xEE).0.regs.a,
                    f: s.exec(0xEE).0.regs.f,
                    pc: (s.regs.pc + 1) as u16,
                    ..s.regs
                },
                ..s
            })
        },
{
    reveal(CpuView::exec_80);
    reveal(CpuView::exec_e0);
    reveal(CpuView::rd);
    let a = s.regs.a;
    let c = s.regs.c;
    lemma_xor_zero(a, c);
    lemma_logic_flags(s.regs.f, a ^ c == 0, false);
    let hv = s.bus.read(s.regs.spec_hl());
    lemma_xor_zero(a, hv);
    lemma_logic_flags(s.regs.f, a ^ hv == 0, false);
    let pv = s.bus.read(s.regs.pc);
    lemma_xor_zero(a, pv);
    lemma_logic_flags(s.regs.f, a ^ pv == 0, false);
    if !s.fault && s.bus.read_ok(s.regs.pc) && s.regs.pc != 0xFFFF {
        lemma_fetch(s);
    }
}


proof fn lemma_xor_zero(a: u8, v: u8)
    by (bit_vector)
    ensures
        (a ^ v == 0) == (a == v),
{
}


proof fn lemma_or_and_zero(a: u8, v: u8)
    by (bit_vector)
    ensures
        ((a | v) == 0) == (a == 0 && v == 0),
        (a | a) == a,
{
}

/// OR C (0xB1), OR (HL) (0xB6) and OR A (0xB7), with the opcode fetched: A becomes
/// A | operand, zero is set exactly when both A and the operand were zero, the other
/// flags are clear, and every other register is as before.
pub proof fn lemma_or(s: CpuView)
    ensures
        s.exec(0xB1).0.regs.a == s.regs.a | s.regs.c,
        flag(s.exec(0xB1).0.regs.f, FLAG_Z) == (s.regs.a == 0 && s.regs.c == 0),
        !flag(s.exec(0xB1).0.regs.f, FLAG_N) && !flag(s.exec(0xB1).0.regs.f, FLAG_H) && !flag(
            s.exec(0xB1).0.regs.f,
            FLAG_C,
        ),
        s.exec(0xB1) == (CpuView {
            regs: Registers { a: s.exec(0xB1).0.regs.a, f: s.exec(0xB1).0.regs.f, ..s.regs },
            ..s
        }, 1u32),
        s.exec(0xB7).0.regs.a == s.regs.a,
        flag(s.exec(0xB7).0.regs.f, FLAG_Z) == (s.regs.a == 0),
        !s.fault && s.bus.read_ok(s.regs.spec_hl()) ==> {
            &&& s.exec(0xB6).0.regs.a == s.regs.a | s.bus.read(s.regs.spec_hl())
            &&& flag(s.exec(0xB6).0.regs.f, FLAG_Z) == (s.regs.a == 0 && s.bus.read(s.regs.spec_hl()) == 0)
            &&& s.exec(0xB6) == (CpuView {
                regs: Registers { a: s.exec(0xB6).0.regs.a, f: s.exec(0xB6).0.regs.f, ..s.regs },
                ..s
            }, 2u32)
        },
{
    reveal(CpuView::exec_80);
    reveal(CpuView::rd);
    let a = s.regs.a;
    let hv = s.bus.read(s.regs.spec_hl());
    lemma_or_and_zero(a, s.regs.c);
    lemma_or_and_zero(a, hv);
    lemma_or_and_zero(a, a);
    lemma_logic_flags(s.regs.f, (a | s.regs.c) == 0, false);
    lemma_logic_flags(s.regs.f, (a | hv) == 0, false);
    lemma_logic_flags(s.regs.f, (a | a) == 0, false);
}

/// AND d8 (0xE6), with the opcode fetched and its operand readable: A becomes
/// A & operand, zero is set exactly when that is zero, half-carry is set, subtract
/// and carry are clear, and PC moves past the operand.
pub proof fn lemma_and_d8(s: CpuView)
    requires
        !s.fault,
        s.bus.read_ok(s.regs.pc),
        s.regs.pc != 0xFFFF,
    ensures
        ({
            let v = s.bus.read(s.regs.pc);
            let t = s.exec(0xE6).0;
            &&& t.regs.a == s.regs.a & v
            &&& flag(t.regs.f, FLAG_Z) == (s.regs.a & v == 0)
            &&& flag(t.regs.f, FLAG_H)
            &&& !flag(t.regs.f, FLAG_N)
            &&& !flag(t.regs.f, FLAG_C)
            &&& s.exec(0xE6).1 == 2
            &&& t == (CpuView {
                regs: Registers { a: t.regs.a, f: t.regs.f, pc: (s.regs.pc + 1) as u16, ..s.regs },
                ..s
            })
        }),
{
    reveal(CpuView::exec_e0);
    lemma_fetch(s);
    let v = s.bus.read(s.regs.pc);
    lemma_logic_flags(s.regs.f, (s.regs.a & v) == 0, true);
}

} // verus!
