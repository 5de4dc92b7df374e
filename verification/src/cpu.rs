use vstd::prelude::*;

use std::collections::VecDeque;

use crate::bus::{Bus, BusView, lemma_dma_copy_contents};
use crate::dma::{dma_step, fresh_op, lemma_transfer_duration, DmaState, DEST_BASE_ADDR, OP_DURATION, PAYLOAD_SIZE};
use crate::interrupts::{Interrupt, INT_JOYPAD, INT_SERIAL, INT_TIMER};
use crate::joypad::{update_raises, updated_status, Key};
use crate::ppu::PpuView;
use crate::isa::{CpuView, GpRegister, PrefixRegister, group_fault_sticky};
use crate::registers::{Registers, FLAG_C, FLAG_H, FLAG_N, FLAG_Z};

verus! {

broadcast use group_fault_sticky;

proof fn lemma_nibble(x: u8)
    ensures
        x & 0x0F <= 15,
{
    assert(x & 0x0F <= 15) by (bit_vector);
}

proof fn lemma_low12(x: u16)
    ensures
        x & 0x0FFF <= 0x0FFF,
{
    assert(x & 0x0FFF <= 0x0FFF) by (bit_vector);
}

/// The CPU, which owns the bus and everything behind it.
pub struct Cpu {
    regs: Registers,
    bus: Bus,
    // interrupt master enable
    // enables/disables all non maskable interrupts
    ime: bool,
    int_queue: VecDeque<Interrupt>,
}

impl View for Cpu {
    type V = CpuView;

    closed spec fn view(&self) -> CpuView {
        CpuView { regs: self.regs, bus: self.bus@, ime: self.ime, int_queue: self.int_queue@, fault: false }
    }
}

impl Cpu {
    /// A CPU in the state that the boot ROM hands over, with interrupts disabled.
    pub fn new(bus: Bus, int_queue: VecDeque<Interrupt>) -> (c: Self)
        requires
            bus@.wf(),
        ensures
            c@.wf(),
            c@.regs == Registers::spec_new(bus@.cart.header_flags.header_checksum),
            c@.bus == bus@,
            !c@.ime,
            c@.int_queue == int_queue@,
            !c@.fault,
    {
        let checksum = bus.cartridge.header_flags().header_checksum;
        Self { regs: Registers::new(checksum), bus, ime: false, int_queue }
    }

    fn prefix_reg(&self, reg: PrefixRegister) -> (r: Option<u8>)
        requires
            self@.wf(),
        ensures
            r matches Some(v) ==> self@.preg(reg) == (self@, v),
            r is None ==> self@.preg(reg).0.fault,
    {
        match reg {
            PrefixRegister::B => Some(self.regs.b),
            PrefixRegister::C => Some(self.regs.c),
            PrefixRegister::D => Some(self.regs.d),
            PrefixRegister::E => Some(self.regs.e),
            PrefixRegister::H => Some(self.regs.h),
            PrefixRegister::L => Some(self.regs.l),
            PrefixRegister::LdHl => self.read(self.regs.hl()),
            PrefixRegister::A => Some(self.regs.a),
        }
    }

    fn set_prefix_reg(&mut self, reg: PrefixRegister, value: u8) -> (r: Option<()>)
        requires
            old(self)@.wf(),
        ensures
            r is Some ==> final(self)@ == old(self)@.set_preg(reg, value) && final(self)@.wf(),
            r is None ==> old(self)@.set_preg(reg, value).fault,
    {
        match reg {
            PrefixRegister::B => self.regs.b = value,
            PrefixRegister::C => self.regs.c = value,
            PrefixRegister::D => self.regs.d = value,
            PrefixRegister::E => self.regs.e = value,
            PrefixRegister::H => self.regs.h = value,
            PrefixRegister::L => self.regs.l = value,
            PrefixRegister::LdHl => {
                let hl = self.regs.hl();
                return self.write(hl, value);
            },
            PrefixRegister::A => self.regs.a = value,
        }
        Some(())
    }

    fn register(&self, reg: GpRegister) -> (r: Option<u8>)
        requires
            self@.wf(),
        ensures
            r matches Some(v) ==> self@.reg(reg) == (self@, v),
            r is None ==> self@.reg(reg).0.fault,
    {
        match reg {
            GpRegister::A => Some(self.regs.a),
            GpRegister::B => Some(self.regs.b),
            GpRegister::C => Some(self.regs.c),
            GpRegister::D => Some(self.regs.d),
            GpRegister::E => Some(self.regs.e),
            GpRegister::H => Some(self.regs.h),
            GpRegister::L => Some(self.regs.l),
            GpRegister::HlMem => self.read(self.regs.hl()),
        }
    }

    fn set_register(&mut self, reg: GpRegister, value: u8) -> (r: Option<()>)
        requires
            old(self)@.wf(),
        ensures
            r is Some ==> final(self)@ == old(self)@.set_reg(reg, value) && final(self)@.wf(),
            r is None ==> old(self)@.set_reg(reg, value).fault,
    {
        match reg {
            GpRegister::A => self.regs.a = value,
            GpRegister::B => self.regs.b = value,
            GpRegister::C => self.regs.c = value,
            GpRegister::D => self.regs.d = value,
            GpRegister::E => self.regs.e = value,
            GpRegister::H => self.regs.h = value,
            GpRegister::L => self.regs.l = value,
            GpRegister::HlMem => {
                let hl = self.regs.hl();
                return self.write(hl, value);
            },
        }
        Some(())
    }

    /// A read over the bus, or `None` where the bus refuses it.
    fn read(&self, addr: u16) -> (r: Option<u8>)
        requires
            self@.wf(),
        ensures
            r matches Some(v) ==> self@.rd(addr) == (self@, v),
            r is None ==> self@.rd(addr).0.fault,
    {
        reveal(CpuView::rd);
        if self.bus.can_read(addr) {
            Some(self.bus.read(addr))
        } else {
            None
        }
    }

    /// A write over the bus, or `None` where the bus refuses it.
    fn write(&mut self, addr: u16, value: u8) -> (r: Option<()>)
        requires
            old(self)@.wf(),
        ensures
            r is Some ==> final(self)@ == old(self)@.wr(addr, value) && final(self)@.wf() && final(self)@.regs
                == old(self)@.regs,
            r is None ==> old(self)@.wr(addr, value).fault,
    {
        reveal(CpuView::wr);
        if self.bus.can_write(addr) {
            self.bus.write(addr, value);
            Some(())
        } else {
            None
        }
    }

    fn fetch_byte(&mut self) -> (r: Option<u8>)
        requires
            old(self)@.wf(),
        ensures
            r matches Some(b) ==> (final(self)@, b) == old(self)@.fetch_byte() && final(self)@.wf(),
            r is None ==> old(self)@.fetch_byte().0.fault,
    {
        reveal(CpuView::fetch_byte);
        let byte = self.read(self.regs.pc)?;
        if self.regs.pc == 0xFFFF {
            return None;
        }
        self.regs.pc = self.regs.pc + 1;
        Some(byte)
    }

    fn fetch_word(&mut self) -> (r: Option<u16>)
        requires
            old(self)@.wf(),
        ensures
            r matches Some(w) ==> (final(self)@, w) == old(self)@.fetch_word() && final(self)@.wf(),
            r is None ==> old(self)@.fetch_word().0.fault,
    {
        reveal(CpuView::fetch_word);
        let lo = self.fetch_byte()?;
        let hi = self.fetch_byte()?;
        proof {
            assert(((hi as u16) << 8u16) | (lo as u16) == hi * 256 + lo) by (bit_vector);
        }
        Some(((hi as u16) << 8) | (lo as u16))
    }

    fn push_byte(&mut self, value: u8) -> (r: Option<()>)
        requires
            old(self)@.wf(),
        ensures
            r is Some ==> final(self)@ == old(self)@.push_byte(value) && final(self)@.wf(),
            r is None ==> old(self)@.push_byte(value).fault,
    {
        reveal(CpuView::push_byte);
        if self.regs.sp == 0 {
            return None;
        }
        self.regs.sp = self.regs.sp - 1;
        self.write(self.regs.sp, value)
    }

    fn push_word(&mut self, value: u16) -> (r: Option<()>)
        requires
            old(self)@.wf(),
        ensures
            r is Some ==> final(self)@ == old(self)@.push_word(value) && final(self)@.wf(),
            r is None ==> old(self)@.push_word(value).fault,
    {
        reveal(CpuView::push_word);
        proof {
            assert((value >> 8u16) as u8 == value / 256 && value as u8 == value % 256) by (bit_vector);
        }
        self.push_byte((value >> 8) as u8)?;
        self.push_byte(value as u8)
    }

    fn pop_byte(&mut self) -> (r: Option<u8>)
        requires
            old(self)@.wf(),
        ensures
            r matches Some(b) ==> (final(self)@, b) == old(self)@.pop_byte() && final(self)@.wf(),
            r is None ==> old(self)@.pop_byte().0.fault,
    {
        reveal(CpuView::pop_byte);
        let byte = self.read(self.regs.sp)?;
        if self.regs.sp == 0xFFFF {
            return None;
        }
        self.regs.sp = self.regs.sp + 1;
        Some(byte)
    }

    fn pop_word(&mut self) -> (r: Option<u16>)
        requires
            old(self)@.wf(),
        ensures
            r matches Some(w) ==> (final(self)@, w) == old(self)@.pop_word() && final(self)@.wf(),
            r is None ==> old(self)@.pop_word().0.fault,
    {
        reveal(CpuView::pop_word);
        let lo = self.pop_byte()?;
        let hi = self.pop_byte()?;
        proof {
            assert(((hi as u16) << 8u16) | (lo as u16) == hi * 256 + lo) by (bit_vector);
        }
        Some(((hi as u16) << 8) | (lo as u16))
    }
}

impl Cpu {
    fn inc(&mut self, reg: GpRegister) -> (r: Option<u32>)
        requires
            old(self)@.wf(),
        ensures
            r matches Some(c) ==> final(self)@ == old(self)@.inc(reg) && c == 1 && final(self)@.wf(),
            r is None ==> old(self)@.inc(reg).fault,
    {
        reveal(CpuView::inc);
        let v1 = self.register(reg)?;
        self.regs.set_flag_h((v1 & 0x0F) == 0x0F);
        let v2 = self.register(reg)?;
        self.set_register(reg, v2.wrapping_add(1))?;
        let v3 = self.register(reg)?;
        self.regs.set_flag_z(v3 == 0);
        self.regs.set_flag_n(false);
        Some(1)
    }

    fn dec(&mut self, reg: GpRegister) -> (r: Option<u32>)
        requires
            old(self)@.wf(),
        ensures
            r matches Some(c) ==> final(self)@ == old(self)@.dec(reg) && c == 1 && final(self)@.wf(),
            r is None ==> old(self)@.dec(reg).fault,
    {
        reveal(CpuView::dec);
        let v1 = self.register(reg)?;
        self.regs.set_flag_h((v1 & 0x0F) == 0);
        let v2 = self.register(reg)?;
        self.set_register(reg, v2.wrapping_sub(1))?;
        let v3 = self.register(reg)?;
        self.regs.set_flag_z(v3 == 0);
        self.regs.set_flag_n(true);
        Some(1)
    }

    fn add(&mut self, reg: GpRegister, rhs: u8) -> (r: Option<()>)
        requires
            old(self)@.wf(),
        ensures
            r is Some ==> final(self)@ == old(self)@.add(reg, rhs) && final(self)@.wf(),
            r is None ==> old(self)@.add(reg, rhs).fault,
    {
        reveal(CpuView::add);
        let v1 = self.register(reg)?;
        proof {
            lemma_nibble(v1);
            lemma_nibble(rhs);
        }
        self.regs.set_flag_h((v1 & 0x0F) + (rhs & 0x0F) > 0x0F);
        let v2 = self.register(reg)?;
        let overflow = (v2 as u16) + (rhs as u16) > 255;
        self.set_register(reg, v2.wrapping_add(rhs))?;
        let v3 = self.register(reg)?;
        self.regs.set_flag_z(v3 == 0);
        self.regs.set_flag_n(false);
        self.regs.set_flag_c(overflow);
        Some(())
    }

    fn sub(&mut self, reg: GpRegister, rhs: u8) -> (r: Option<()>)
        requires
            old(self)@.wf(),
        ensures
            r is Some ==> final(self)@ == old(self)@.sub(reg, rhs) && final(self)@.wf(),
            r is None ==> old(self)@.sub(reg, rhs).fault,
    {
        reveal(CpuView::sub);
        let v1 = self.register(reg)?;
        self.regs.set_flag_h((v1 & 0x0F) < (rhs & 0x0F));
        let v2 = self.register(reg)?;
        let overflow = v2 < rhs;
        self.set_register(reg, v2.wrapping_sub(rhs))?;
        let v3 = self.register(reg)?;
        self.regs.set_flag_z(v3 == 0);
        self.regs.set_flag_n(true);
        self.regs.set_flag_c(overflow);
        Some(())
    }

    fn or(&mut self, value: u8)
        requires
            old(self)@.wf(),
        ensures
            final(self)@ == old(self)@.or(value),
            final(self)@.wf(),
    {
        self.regs.a = self.regs.a | value;
        self.regs.set_flag_z(self.regs.a == 0);
        self.regs.set_flag_n(false);
        self.regs.set_flag_h(false);
        self.regs.set_flag_c(false);
    }

    fn xor(&mut self, value: u8)
        requires
            old(self)@.wf(),
        ensures
            final(self)@ == old(self)@.xor(value),
            final(self)@.wf(),
    {
        self.regs.a = self.regs.a ^ value;
        self.regs.set_flag_z(self.regs.a == 0);
        self.regs.set_flag_n(false);
        self.regs.set_flag_h(false);
        self.regs.set_flag_c(false);
    }

    fn bit(&mut self, reg: PrefixRegister, bit: u8) -> (r: Option<u32>)
        requires
            old(self)@.wf(),
            bit < 8,
        ensures
            r matches Some(c) ==> (final(self)@, c) == old(self)@.bit(reg, bit) && final(self)@.wf(),
            r is None ==> old(self)@.bit(reg, bit).0.fault,
    {
        reveal(CpuView::bit);
        let v = self.prefix_reg(reg)?;
        self.regs.set_flag_z(v & (1u8 << bit) == 0);
        self.regs.set_flag_n(false);
        self.regs.set_flag_h(true);
        Some(
            if reg == PrefixRegister::LdHl {
                3
            } else {
                2
            },
        )
    }

    fn res(&mut self, reg: PrefixRegister, bit: u8) -> (r: Option<u32>)
        requires
            old(self)@.wf(),
            bit < 8,
        ensures
            r matches Some(c) ==> (final(self)@, c) == old(self)@.res(reg, bit) && final(self)@.wf(),
            r is None ==> old(self)@.res(reg, bit).0.fault,
    {
        reveal(CpuView::res);
        let v = self.prefix_reg(reg)?;
        self.set_prefix_reg(reg, v & !(1u8 << bit))?;
        Some(
            if reg == PrefixRegister::LdHl {
                4
            } else {
                2
            },
        )
    }

    fn set(&mut self, reg: PrefixRegister, bit: u8) -> (r: Option<u32>)
        requires
            old(self)@.wf(),
            bit < 8,
        ensures
            r matches Some(c) ==> (final(self)@, c) == old(self)@.set(reg, bit) && final(self)@.wf(),
            r is None ==> old(self)@.set(reg, bit).0.fault,
    {
        reveal(CpuView::set);
        let v = self.prefix_reg(reg)?;
        self.set_prefix_reg(reg, v | (1u8 << bit))?;
        Some(
            if reg == PrefixRegister::LdHl {
                4
            } else {
                2
            },
        )
    }

    fn adc(&mut self, reg: GpRegister, rhs: u8) -> (r: Option<()>)
        requires
            old(self)@.wf(),
        ensures
            r is Some ==> final(self)@ == old(self)@.adc(reg, rhs) && final(self)@.wf(),
            r is None ==> old(self)@.adc(reg, rhs).fault,
    {
        reveal(CpuView::adc);
        let c: u8 = if self.regs.f & FLAG_C != 0 {
            1
        } else {
            0
        };
        let lhs = self.register(reg)?;
        let intermediate = lhs.wrapping_add(rhs);
        let c_rhs = (lhs as u16) + (rhs as u16) > 255;
        let result = intermediate.wrapping_add(c);
        let c_c = (intermediate as u16) + (c as u16) > 255;
        self.set_register(reg, result)?;
        proof {
            lemma_nibble(lhs);
            lemma_nibble(rhs);
            lemma_nibble(intermediate);
        }
        let h_rhs = (lhs & 0x0F) + (rhs & 0x0F) > 0x0F;
        let h_c = (intermediate & 0x0F) + c > 0x0F;
        self.regs.set_flag_z(result == 0);
        self.regs.set_flag_n(false);
        self.regs.set_flag_h(h_rhs || h_c);
        self.regs.set_flag_c(c_rhs || c_c);
        Some(())
    }

    fn add16(&mut self, lhs: u16, rhs: u16) -> (r: u16)
        requires
            old(self)@.wf(),
        ensures
            (final(self)@, r) == old(self)@.add16(lhs, rhs),
            final(self)@.wf(),
    {
        let result = lhs.wrapping_add(rhs);
        let overflow = (lhs as u32) + (rhs as u32) > 0xFFFF;
        self.regs.set_flag_n(false);
        proof {
            lemma_low12(lhs);
            lemma_low12(rhs);
        }
        self.regs.set_flag_h((lhs & 0x0FFF) + (rhs & 0x0FFF) > 0x0FFF);
        self.regs.set_flag_c(overflow);
        result
    }

    fn cp(&mut self, value: u8)
        requires
            old(self)@.wf(),
        ensures
            final(self)@ == old(self)@.cp(value),
            final(self)@.wf(),
    {
        let a = self.regs.a;
        let result = a.wrapping_sub(value);
        self.regs.set_flag_z(result == 0);
        self.regs.set_flag_n(true);
        self.regs.set_flag_h((a & 0x0F) < (value & 0x0F));
        self.regs.set_flag_c(a < value);
    }

    fn ret(&mut self) -> (r: Option<()>)
        requires
            old(self)@.wf(),
        ensures
            r is Some ==> final(self)@ == old(self)@.ret() && final(self)@.wf(),
            r is None ==> old(self)@.ret().fault,
    {
        reveal(CpuView::ret);
        let addr = self.pop_word()?;
        self.regs.pc = addr;
        Some(())
    }

    fn jr_if(&mut self, cond: bool) -> (r: Option<u32>)
        requires
            old(self)@.wf(),
        ensures
            r matches Some(c) ==> (final(self)@, c) == old(self)@.jr_if(cond) && final(self)@.wf(),
            r is None ==> old(self)@.jr_if(cond).0.fault,
    {
        reveal(CpuView::jr_if);
        let offset = self.fetch_byte()?;
        if cond {
            self.regs.pc = if offset < 128 {
                self.regs.pc.wrapping_add(offset as u16)
            } else {
                self.regs.pc.wrapping_sub(256 - offset as u16)
            };
            Some(3)
        } else {
            Some(2)
        }
    }
}

impl Cpu {
    #[verifier::rlimit(60)]
    fn shift_op(&mut self, reg: PrefixRegister, v: u8, group: u8) -> (r: Option<u32>)
        requires
            old(self)@.wf(),
        ensures
            r matches Some(c) ==> (final(self)@, c) == old(self)@.shift_op(reg, v, group) && final(self)@.wf(),
            r is None ==> old(self)@.shift_op(reg, v, group).0.fault,
    {
        reveal(CpuView::shift_op);
        let cycles: u32 = if reg == PrefixRegister::LdHl {
            4
        } else {
            2
        };
        if group == 0x00 {
            // rlc r
            self.set_prefix_reg(reg, (v << 1u8) | (v >> 7u8))?;
            // if v = 0, the rotated value is also zero
            self.regs.set_flag_z(v == 0);
            self.regs.set_flag_n(false);
            self.regs.set_flag_h(false);
            // bit 7
            self.regs.set_flag_c(v & 0x80 != 0);
        } else if group == 0x08 {
            // rrc r
            self.set_prefix_reg(reg, (v >> 1u8) | (v << 7u8))?;
            self.regs.set_flag_z(v == 0);
            self.regs.set_flag_n(false);
            self.regs.set_flag_h(false);
            // bit 0
            self.regs.set_flag_c(v & 0x01 != 0);
        } else if group == 0x10 {
            // rl r
            let result = ((v << 1u8) & 0xFE) | (self.regs.f & (FLAG_C >> 4u8));
            self.set_prefix_reg(reg, result)?;
            self.regs.set_flag_z(result == 0);
            self.regs.set_flag_n(false);
            self.regs.set_flag_h(false);
            self.regs.set_flag_c(v & 0x80 != 0);
        } else if group == 0x18 {
            // rr r
            let result = (v >> 1u8) | ((self.regs.f & FLAG_C) << 3u8);
            self.set_prefix_reg(reg, result)?;
            self.regs.set_flag_z(result == 0);
            self.regs.set_flag_n(false);
            self.regs.set_flag_h(false);
            self.regs.set_flag_c(v & 0x01 != 0);
        } else if group == 0x20 {
            // sla r
            self.set_prefix_reg(reg, v << 1u8)?;
            self.regs.set_flag_n(v << 1u8 == 0);
            self.regs.set_flag_n(false);
            self.regs.set_flag_h(false);
            self.regs.set_flag_c(v & 0x80 != 0);
        } else if group == 0x28 {
            // sra r: arithmetic right shift
            let result = (v >> 1u8) | (v & 0x80);
            self.set_prefix_reg(reg, result)?;
            self.regs.set_flag_z(result == 0);
            self.regs.set_flag_n(false);
            self.regs.set_flag_h(false);
            self.regs.set_flag_c(v & 0x01 != 0);
        } else if group == 0x30 {
            // swap r
            let high_nibble = v & 0xF0;
            let result = (v << 4u8) | (high_nibble >> 4u8);
            self.set_prefix_reg(reg, result)?;
            self.regs.set_flag_z(result == 0);
            self.regs.set_flag_n(false);
            self.regs.set_flag_h(false);
            self.regs.set_flag_c(false);
        } else {
            // srl r
            self.set_prefix_reg(reg, v >> 1u8)?;
            self.regs.set_flag_z(v >> 1u8 == 0);
            self.regs.set_flag_n(false);
            self.regs.set_flag_h(false);
            self.regs.set_flag_c(v & 0x01 != 0);
        }
        Some(cycles)
    }

    fn exec_prefix(&mut self, suffix_opcode: u8) -> (r: Option<u32>)
        requires
            old(self)@.wf(),
        ensures
            r matches Some(c) ==> (final(self)@, c) == old(self)@.exec_prefix(suffix_opcode) && final(self)@.wf(),
            r is None ==> old(self)@.exec_prefix(suffix_opcode).0.fault,
    {
        reveal(CpuView::exec_prefix);
        let k = suffix_opcode & 0x07;
        let reg = if k == 0 {
            PrefixRegister::B
        } else if k == 1 {
            PrefixRegister::C
        } else if k == 2 {
            PrefixRegister::D
        } else if k == 3 {
            PrefixRegister::E
        } else if k == 4 {
            PrefixRegister::H
        } else if k == 5 {
            PrefixRegister::L
        } else if k == 6 {
            PrefixRegister::LdHl
        } else {
            PrefixRegister::A
        };
        let v = self.prefix_reg(reg)?;
        let group = suffix_opcode & 0xF8;
        proof {
            assert(group == suffix_opcode & 0xF8 ==> group % 8 == 0) by (bit_vector);
        }
        if group < 0x40 {
            self.shift_op(reg, v, group)
        } else if group < 0x80 {
            // bit n, r
            self.bit(reg, (group - 0x40) / 8)
        } else if group < 0xC0 {
            // res n, r
            self.res(reg, (group - 0x80) / 8)
        } else {
            // set n, r
            self.set(reg, (group - 0xC0) / 8)
        }
    }

    fn daa(&mut self)
        requires
            old(self)@.wf(),
        ensures
            final(self)@ == old(self)@.daa(),
            final(self)@.wf(),
    {
        reveal(CpuView::daa);
        if self.regs.f & FLAG_N != 0 {
            let mut adjustment: u8 = 0;
            if self.regs.f & FLAG_H != 0 {
                adjustment = adjustment + 0x06;
            }
            if self.regs.f & FLAG_C != 0 {
                adjustment = adjustment + 0x60;
            }
            self.regs.a = self.regs.a.wrapping_sub(adjustment);
        } else {
            let a = self.regs.a;
            let mut adjustment: u8 = 0;
            if self.regs.f & FLAG_H != 0 || a & 0x0F > 0x09 {
                adjustment = adjustment + 0x06;
            }
            if self.regs.f & FLAG_C != 0 || a > 0x99 {
                adjustment = adjustment + 0x60;
                self.regs.set_flag_c(true);
            }
            self.regs.a = a.wrapping_add(adjustment);
        }
        self.regs.set_flag_z(self.regs.a == 0);
        self.regs.set_flag_h(false);
    }
}
impl Cpu {
    #[verifier::rlimit(50)]
    fn exec_00(&mut self, op: u8) -> (r: Option<u32>)
        requires
            old(self)@.wf(),
            0x00 <= op < 0x20,
        ensures
            r matches Some(c) ==> (final(self)@, c) == old(self)@.exec(op) && final(self)@.wf(),
            r is None ==> old(self)@.exec(op).0.fault,
    {
        reveal(CpuView::exec_00);
        match op {
            // nop
            0x00 => Some(1),
            // ld bc, d16
            0x01 => {
                let value = self.fetch_word()?;
                self.regs.set_bc(value);
                Some(3)
            },
            // inc bc
            0x03 => {
                self.regs.set_bc(self.regs.bc().wrapping_add(1));
                Some(2)
            },
            // inc b
            0x04 => self.inc(GpRegister::B),
            // dec b
            0x05 => self.dec(GpRegister::B),
            // ld b, d8
            0x06 => {
                self.regs.b = self.fetch_byte()?;
                Some(2)
            },
            // inc c
            0x0C => self.inc(GpRegister::C),
            // dec c
            0x0D => self.dec(GpRegister::C),
            // ld c, d8
            0x0E => {
                self.regs.c = self.fetch_byte()?;
                Some(2)
            },
            // ld de, d16
            0x11 => {
                let value = self.fetch_word()?;
                self.regs.set_de(value);
                Some(3)
            },
            // ld (de), a
            0x12 => {
                self.write(self.regs.de(), self.regs.a)?;
                Some(3)
            },
            // inc de
            0x13 => {
                self.regs.set_de(self.regs.de().wrapping_add(1));
                Some(2)
            },
            // inc d
            0x14 => self.inc(GpRegister::D),
            // jr s8
            0x18 => self.jr_if(true),
            // ld a, (de)
            0x1A => {
                self.regs.a = self.read(self.regs.de())?;
                Some(2)
            },
            // inc e
            0x1C => self.inc(GpRegister::E),
            // dec e
            0x1D => self.dec(GpRegister::E),
            // rra
            0x1F => {
                let prev_c = self.regs.f & FLAG_C;
                // bit 0
                self.regs.set_flag_c(self.regs.a & 0x01 != 0);
                self.regs.a = (self.regs.a >> 1u8) | (prev_c << 3u8);
                self.regs.set_flag_z(false);
                self.regs.set_flag_n(false);
                self.regs.set_flag_h(false);
                Some(1)
            },
            _ => None,
        }
    }

    #[verifier::rlimit(50)]
    fn exec_20(&mut self, op: u8) -> (r: Option<u32>)
        requires
            old(self)@.wf(),
            0x20 <= op < 0x40,
        ensures
            r matches Some(c) ==> (final(self)@, c) == old(self)@.exec(op) && final(self)@.wf(),
            r is None ==> old(self)@.exec(op).0.fault,
    {
        reveal(CpuView::exec_20);
        match op {
            // jr nz, s8
            0x20 => {
                let cond = self.regs.f & FLAG_Z == 0;
                self.jr_if(cond)
            },
            // ld hl, d16
            0x21 => {
                let value = self.fetch_word()?;
                self.regs.set_hl(value);
                Some(3)
            },
            // ld (hl+), a
            0x22 => {
                self.write(self.regs.hl(), self.regs.a)?;
                self.regs.set_hl(self.regs.hl().wrapping_add(1));
                Some(2)
            },
            // inc hl
            0x23 => {
                self.regs.set_hl(self.regs.hl().wrapping_add(1));
                Some(2)
            },
            // inc h
            0x24 => self.inc(GpRegister::H),
            // dec h
            0x25 => {
                self.dec(GpRegister::H)?;
                Some(1)
            },
            // ld h, d8
            0x26 => {
                self.regs.h = self.fetch_byte()?;
                Some(2)
            },
            // daa
            0x27 => {
                self.daa();
                Some(1)
            },
            // jr z, s8
            0x28 => {
                let cond = self.regs.f & FLAG_Z != 0;
                self.jr_if(cond)
            },
            // add hl, hl
            0x29 => {
                let hl = self.regs.hl();
                let result = self.add16(hl, hl);
                self.regs.set_hl(result);
                Some(2)
            },
            // ld a, (hl+)
            0x2A => {
                let value = self.read(self.regs.hl())?;
                self.regs.a = value;
                self.regs.set_hl(self.regs.hl().wrapping_add(1));
                Some(2)
            },
            // inc l
            0x2C => self.inc(GpRegister::L),
            // dec l
            0x2D => self.dec(GpRegister::L),
            // jr nc, s8
            0x30 => {
                let cond = self.regs.f & FLAG_C == 0;
                self.jr_if(cond)
            },
            // ld sp, d16
            0x31 => {
                self.regs.sp = self.fetch_word()?;
                Some(3)
            },
            // ld (hl-), a
            0x32 => {
                self.write(self.regs.hl(), self.regs.a)?;
                self.regs.set_hl(self.regs.hl().wrapping_sub(1));
                Some(2)
            },
            // dec (hl)
            0x35 => {
                self.dec(GpRegister::HlMem)?;
                Some(3)
            },
            // jr c, s8
            0x38 => {
                let cond = self.regs.f & FLAG_C != 0;
                self.jr_if(cond)
            },
            // inc a
            0x3C => self.inc(GpRegister::A),
            // dec a
            0x3D => {
                self.dec(GpRegister::A)?;
                Some(1)
            },
            // ld a, d8
            0x3E => {
                self.regs.a = self.fetch_byte()?;
                Some(2)
            },
            _ => None,
        }
    }

    #[verifier::rlimit(50)]
    fn exec_40(&mut self, op: u8) -> (r: Option<u32>)
        requires
            old(self)@.wf(),
            0x40 <= op < 0x80,
        ensures
            r matches Some(c) ==> (final(self)@, c) == old(self)@.exec(op) && final(self)@.wf(),
            r is None ==> old(self)@.exec(op).0.fault,
    {
        reveal(CpuView::exec_40);
        match op {
            // ld b, (hl)
            0x46 => {
                self.regs.b = self.read(self.regs.hl())?;
                Some(2)
            },
            // ld b, a
            0x47 => {
                self.regs.b = self.regs.a;
                Some(1)
            },
            // ld c, (hl)
            0x4E => {
                self.regs.c = self.read(self.regs.hl())?;
                Some(2)
            },
            // ld c, a
            0x4F => {
                self.regs.c = self.regs.a;
                Some(1)
            },
            // ld d, (hl)
            0x56 => {
                self.regs.d = self.read(self.regs.hl())?;
                Some(2)
            },
            // ld d, a
            0x57 => {
                self.regs.d = self.regs.a;
                Some(1)
            },
            // ld e, a
            0x5F => {
                self.regs.e = self.regs.a;
                Some(1)
            },
            // ld h, a
            0x67 => {
                self.regs.h = self.regs.a;
                Some(1)
            },
            // ld l, (hl)
            0x6E => {
                self.regs.l = self.read(self.regs.hl())?;
                Some(2)
            },
            // ld l, a
            0x6F => {
                self.regs.l = self.regs.a;
                Some(1)
            },
            // ld (hl), b
            0x70 => {
                self.write(self.regs.hl(), self.regs.b)?;
                Some(2)
            },
            // ld (hl), c
            0x71 => {
                self.write(self.regs.hl(), self.regs.c)?;
                Some(2)
            },
            // ld (hl), d
            0x72 => {
                self.write(self.regs.hl(), self.regs.d)?;
                Some(2)
            },
            // ld (hl), a
            0x77 => {
                self.write(self.regs.hl(), self.regs.a)?;
                Some(2)
            },
            // ld a, b
            0x78 => {
                self.regs.a = self.regs.b;
                Some(1)
            },
            // ld a, c
            0x79 => {
                self.regs.a = self.regs.c;
                Some(1)
            },
            // ld a, d
            0x7A => {
                self.regs.a = self.regs.d;
                Some(1)
            },
            // ld a, e
            0x7B => {
                self.regs.a = self.regs.e;
                Some(1)
            },
            // ld a, h
            0x7C => {
                self.regs.a = self.regs.h;
                Some(1)
            },
            // ld a, l
            0x7D => {
                self.regs.a = self.regs.l;
                Some(1)
            },
            // ld a, (hl)
            0x7E => {
                self.regs.a = self.read(self.regs.hl())?;
                Some(2)
            },
            _ => None,
        }
    }

    #[verifier::rlimit(50)]
    fn exec_80(&mut self, op: u8) -> (r: Option<u32>)
        requires
            old(self)@.wf(),
            0x80 <= op < 0xC0,
        ensures
            r matches Some(c) ==> (final(self)@, c) == old(self)@.exec(op) && final(self)@.wf(),
            r is None ==> old(self)@.exec(op).0.fault,
    {
        reveal(CpuView::exec_80);
        match op {
            // xor c
            0xA9 => {
                self.xor(self.regs.c);
                Some(1)
            },
            // xor (hl)
            0xAE => {
                let value = self.read(self.regs.hl())?;
                self.xor(value);
                Some(2)
            },
            // or c
            0xB1 => {
                self.or(self.regs.c);
                Some(1)
            },
            // or (hl)
            0xB6 => {
                let value = self.read(self.regs.hl())?;
                self.or(value);
                Some(2)
            },
            // or a
            0xB7 => {
                self.or(self.regs.a);
                Some(1)
            },
            // cp b
            0xB8 => {
                self.cp(self.regs.b);
                Some(1)
            },
            // cp c
            0xB9 => {
                self.cp(self.regs.c);
                Some(1)
            },
            // cp d
            0xBA => {
                self.cp(self.regs.d);
                Some(1)
            },
            // cp e
            0xBB => {
                self.cp(self.regs.e);
                Some(1)
            },
            _ => None,
        }
    }

    #[verifier::rlimit(50)]
    fn exec_c0(&mut self, op: u8) -> (r: Option<u32>)
        requires
            old(self)@.wf(),
            0xC0 <= op < 0xE0,
        ensures
            r matches Some(c) ==> (final(self)@, c) == old(self)@.exec(op) && final(self)@.wf(),
            r is None ==> old(self)@.exec(op).0.fault,
    {
        reveal(CpuView::exec_c0);
        match op {
            // pop bc
            0xC1 => {
                let value = self.pop_word()?;
                self.regs.set_bc(value);
                Some(3)
            },
            // jp nz, a16
            0xC2 => {
                let addr = self.fetch_word()?;
                if self.regs.f & FLAG_Z == 0 {
                    self.regs.pc = addr;
                    Some(4)
                } else {
                    Some(3)
                }
            },
            // jp a16
            0xC3 => {
                self.regs.pc = self.fetch_word()?;
                Some(4)
            },
            // call nz, a16
            0xC4 => {
                let addr = self.fetch_word()?;
                if self.regs.f & FLAG_Z == 0 {
                    self.push_word(self.regs.pc)?;
                    self.regs.pc = addr;
                    Some(6)
                } else {
                    Some(3)
                }
            },
            // push bc
            0xC5 => {
                self.push_word(self.regs.bc())?;
                Some(4)
            },
            // add a, d8
            0xC6 => {
                let rhs = self.fetch_byte()?;
                self.add(GpRegister::A, rhs)?;
                Some(2)
            },
            // ret z
            0xC8 => {
                if self.regs.f & FLAG_Z != 0 {
                    self.ret()?;
                    Some(5)
                } else {
                    Some(2)
                }
            },
            // ret
            0xC9 => {
                self.ret()?;
                Some(4)
            },
            // prefix
            0xCB => {
                let suffix_opcode = self.fetch_byte()?;
                self.exec_prefix(suffix_opcode)
            },
            // call a16
            0xCD => {
                let addr = self.fetch_word()?;
                self.push_word(self.regs.pc)?;
                self.regs.pc = addr;
                Some(6)
            },
            // adc a, d8
            0xCE => {
                let value = self.fetch_byte()?;
                self.adc(GpRegister::A, value)?;
                Some(2)
            },
            // ret nc
            0xD0 => {
                if self.regs.f & FLAG_C == 0 {
                    self.ret()?;
                    Some(5)
                } else {
                    Some(2)
                }
            },
            // pop de
            0xD1 => {
                let value = self.pop_word()?;
                self.regs.set_de(value);
                Some(3)
            },
            // push de
            0xD5 => {
                self.push_word(self.regs.de())?;
                Some(4)
            },
            // sub d8
            0xD6 => {
                let rhs = self.fetch_byte()?;
                self.sub(GpRegister::A, rhs)?;
                Some(2)
            },
            _ => None,
        }
    }

    #[verifier::rlimit(50)]
    fn exec_e0(&mut self, op: u8) -> (r: Option<u32>)
        requires
            old(self)@.wf(),
            0xE0 <= op < 0x100,
        ensures
            r matches Some(c) ==> (final(self)@, c) == old(self)@.exec(op) && final(self)@.wf(),
            r is None ==> old(self)@.exec(op).0.fault,
    {
        reveal(CpuView::exec_e0);
        match op {
            // ld (a8), a
            0xE0 => {
                let b = self.fetch_byte()?;
                proof {
                    assert((b as u16) | 0xFF00u16 == 0xFF00 + b) by (bit_vector);
                }
                let addr = (b as u16) | 0xFF00;
                self.write(addr, self.regs.a)?;
                Some(3)
            },
            // pop hl
            0xE1 => {
                let value = self.pop_word()?;
                self.regs.set_hl(value);
                Some(3)
            },
            // push hl
            0xE5 => {
                self.push_word(self.regs.hl())?;
                Some(4)
            },
            // and d8
            0xE6 => {
                let value = self.fetch_byte()?;
                self.regs.a = self.regs.a & value;
                self.regs.set_flag_z(self.regs.a == 0);
                self.regs.set_flag_n(false);
                self.regs.set_flag_h(true);
                self.regs.set_flag_c(false);
                Some(2)
            },
            // jp hl
            0xE9 => {
                self.regs.pc = self.regs.hl();
                Some(1)
            },
            // ld (a16), a
            0xEA => {
                let addr = self.fetch_word()?;
                self.write(addr, self.regs.a)?;
                Some(4)
            },
            // xor d8
            0xEE => {
                let value = self.fetch_byte()?;
                self.xor(value);
                Some(2)
            },
            // ld a, (a8)
            0xF0 => {
                let b = self.fetch_byte()?;
                proof {
                    assert((b as u16) | 0xFF00u16 == 0xFF00 + b) by (bit_vector);
                }
                let addr = (b as u16) | 0xFF00;
                self.regs.a = self.read(addr)?;
                Some(3)
            },
            // pop af
            0xF1 => {
                let value = self.pop_word()?;
                self.regs.set_af(value);
                Some(3)
            },
            // di
            0xF3 => {
                self.ime = false;
                Some(1)
            },
            // push af
            0xF5 => {
                self.push_word(self.regs.af())?;
                Some(4)
            },
            // ld a, (a16)
            0xFA => {
                let addr = self.fetch_word()?;
                self.regs.a = self.read(addr)?;
                Some(4)
            },
            // cp d8
            0xFE => {
                let value = self.fetch_byte()?;
                self.cp(value);
                Some(2)
            },

            _ => None,
        }
    }

}

impl Cpu {
    fn exec(&mut self, op: u8) -> (r: Option<u32>)
        requires
            old(self)@.wf(),
        ensures
            r matches Some(c) ==> (final(self)@, c) == old(self)@.exec(op) && final(self)@.wf(),
            r is None ==> old(self)@.exec(op).0.fault,
    {
        if op < 0x20 {
            self.exec_00(op)
        } else if op < 0x40 {
            self.exec_20(op)
        } else if op < 0x80 {
            self.exec_40(op)
        } else if op < 0xC0 {
            self.exec_80(op)
        } else if op < 0xE0 {
            self.exec_c0(op)
        } else {
            self.exec_e0(op)
        }
    }

    /// Executes one instruction and returns its length in machine cycles, or `None`
    /// when the instruction cannot be executed: its opcode is not implemented, the bus
    /// refuses one of its accesses, or PC or SP would wrap around.
    pub fn try_step(&mut self) -> (r: Option<u32>)
        requires
            old(self)@.wf(),
        ensures
            r matches Some(c) ==> (final(self)@, c) == old(self)@.step() && final(self)@.wf(),
            r is None ==> old(self)@.step().0.fault,
    {
        let opcode = self.fetch_byte()?;
        self.exec(opcode)
    }

    /// Executes one instruction and returns its length in machine cycles.
    pub fn step(&mut self) -> (cycles: u32)
        requires
            old(self)@.wf(),
            !old(self)@.step().0.fault,
        ensures
            (final(self)@, cycles) == old(self)@.step(),
            final(self)@.wf(),
    {
        match self.try_step() {
            Some(c) => c,
            None => 0,
        }
    }
}
/// What a state-log line shows of the CPU: its registers and the four bytes at PC.
#[derive(Debug, Clone, Copy)]
pub struct TraceLine {
    pub regs: Registers,
    pub pcmem: [u8; 4],
}

impl Cpu {
    /// The state-log line for the current state, or `None` where one of the four
    /// bytes at PC cannot be read (the bus refuses it, or PC + 3 wraps around).
    pub fn trace(&self) -> (r: Option<TraceLine>)
        requires
            self@.wf(),
        ensures
            r is Some <==> self@.regs.pc <= 0xFFFC && forall|i: int|
                0 <= i < 4 ==> #[trigger] self@.bus.read_ok((self@.regs.pc + i) as u16),
            r matches Some(t) ==> t.regs == self@.regs && forall|i: int|
                0 <= i < 4 ==> #[trigger] t.pcmem@[i] == self@.bus.read((self@.regs.pc + i) as u16),
    {
        let pc = self.regs.pc;
        if pc > 0xFFFC {
            return None;
        }
        if !(self.bus.can_read(pc) && self.bus.can_read(pc + 1) && self.bus.can_read(pc + 2) && self.bus.can_read(
            pc + 3,
        )) {
            proof {
                assert(!self@.bus.read_ok((pc + 0) as u16) || !self@.bus.read_ok((pc + 1) as u16)
                    || !self@.bus.read_ok((pc + 2) as u16) || !self@.bus.read_ok((pc + 3) as u16));
            }
            return None;
        }
        let pcmem = [self.bus.read(pc), self.bus.read(pc + 1), self.bus.read(pc + 2), self.bus.read(pc + 3)];
        proof {
            assert forall|i: int| 0 <= i < 4 implies #[trigger] self@.bus.read_ok((pc + i) as u16) by {
                assert(i == 0 || i == 1 || i == 2 || i == 3);
            }
            assert forall|i: int| 0 <= i < 4 implies #[trigger] pcmem@[i] == self@.bus.read((pc + i) as u16) by {
                assert(i == 0 || i == 1 || i == 2 || i == 3);
            }
        }
        Some(TraceLine { regs: self.regs, pcmem })
    }

    /// Whether the picture processing unit can run its next dot.
    pub fn can_step_ppu(&self) -> (r: bool)
        ensures
            r == self@.bus.ppu.step_ok(),
    {
        self.bus.ppu.can_step()
    }

    /// One dot of the picture processing unit; its interrupts go to the CPU's queue.
    pub fn step_ppu(&mut self)
        requires
            old(self)@.wf(),
            old(self)@.bus.ppu.step_ok(),
        ensures
            final(self)@ == (CpuView {
                bus: BusView { ppu: old(self)@.bus.ppu.step().0, ..old(self)@.bus },
                int_queue: old(self)@.int_queue + old(self)@.bus.ppu.step().1,
                ..old(self)@
            }),
            final(self)@.wf(),
    {
        self.bus.ppu.step(&mut self.int_queue);
    }

    /// One T-cycle of the timer.
    pub fn step_timer(&mut self)
        requires
            old(self)@.wf(),
        ensures
            final(self)@ == (CpuView {
                bus: BusView {
                    timer: old(self)@.bus.timer.step().0,
                    irq: if old(self)@.bus.timer.step().1 {
                        old(self)@.bus.irq | INT_TIMER
                    } else {
                        old(self)@.bus.irq
                    },
                    ..old(self)@.bus
                },
                ..old(self)@
            }),
            final(self)@.wf(),
    {
        self.bus.timer.step(&mut self.bus.irq_holder);
    }

    /// One T-cycle of the serial port.
    pub fn step_serial(&mut self)
        requires
            old(self)@.wf(),
        ensures
            final(self)@ == (CpuView {
                bus: BusView {
                    serial: old(self)@.bus.serial.step().0,
                    irq: if old(self)@.bus.serial.step().1 {
                        old(self)@.bus.irq | INT_SERIAL
                    } else {
                        old(self)@.bus.irq
                    },
                    ..old(self)@.bus
                },
                ..old(self)@
            }),
            final(self)@.wf(),
    {
        self.bus.serial.step(&mut self.bus.irq_holder);
    }

    /// Samples the held keys into the joypad register.
    pub fn update_joypad(&mut self, keys: &[Key])
        requires
            old(self)@.wf(),
        ensures
            final(self)@ == (CpuView {
                bus: BusView {
                    joypad: updated_status(old(self)@.bus.joypad, keys@),
                    irq: if update_raises(old(self)@.bus.joypad, keys@) {
                        old(self)@.bus.irq | INT_JOYPAD
                    } else {
                        old(self)@.bus.irq
                    },
                    ..old(self)@.bus
                },
                ..old(self)@
            }),
            final(self)@.wf(),
    {
        self.bus.joypad.update(keys, &mut self.bus.irq_holder);
    }

    /// Whether the frame buffer is to be shown; clears the request.
    pub fn take_frame_ready(&mut self) -> (r: bool)
        requires
            old(self)@.wf(),
        ensures
            r == old(self)@.bus.ppu.frame_ready,
            final(self)@ == (CpuView {
                bus: BusView { ppu: PpuView { frame_ready: false, ..old(self)@.bus.ppu }, ..old(self)@.bus },
                ..old(self)@
            }),
            final(self)@.wf(),
    {
        self.bus.ppu.take_frame_ready()
    }

    /// The frame buffer.
    pub fn framebuffer(&self) -> (r: &[u32])
        ensures
            r@ == self@.bus.ppu.fb,
    {
        self.bus.ppu.framebuffer()
    }

    /// Whether an OAM DMA step by `cycles` T-cycles can run: when it completes the
    /// transfer, every source byte must be readable.
    pub open spec fn dma_ok(s: CpuView, cycles: u32) -> bool {
        let (d, st) = dma_step(s.bus.dma, cycles);
        let b = BusView { dma: d, ..s.bus };
        st matches DmaState::Done { src_addr } ==> src_addr + PAYLOAD_SIZE <= 0x10000 && forall|i: int|
            0 <= i < PAYLOAD_SIZE ==> #[trigger] b.read_ok((src_addr + i) as u16)
    }

    /// The state after an OAM DMA step by `cycles` T-cycles: when the transfer
    /// completes, its bytes are copied into OAM.
    pub open spec fn dma_after(s: CpuView, cycles: u32) -> CpuView {
        let (d, st) = dma_step(s.bus.dma, cycles);
        let b = BusView { dma: d, ..s.bus };
        match st {
            DmaState::Done { src_addr } => CpuView { bus: b.dma_copy(src_addr, PAYLOAD_SIZE as nat), ..s },
            _ => CpuView { bus: b, ..s },
        }
    }

    /// Advances the OAM DMA controller by `cycles` T-cycles, copying the transfer's
    /// bytes into OAM when it completes. Returns `None` where a source byte cannot be
    /// read.
    pub fn try_step_dma(&mut self, cycles: u32) -> (r: Option<()>)
        requires
            old(self)@.wf(),
        ensures
            r is Some <==> Self::dma_ok(old(self)@, cycles),
            r is Some ==> final(self)@ == Self::dma_after(old(self)@, cycles) && final(self)@.wf(),
    {
        let st = self.bus.dma.step(cycles);
        match st {
            DmaState::Free | DmaState::Working => Some(()),
            DmaState::Done { src_addr } => {
                if src_addr as u32 + PAYLOAD_SIZE as u32 > 0x10000 {
                    return None;
                }
                let ghost b0 = self.bus@;
                let mut i: u16 = 0;
                while i < PAYLOAD_SIZE
                    invariant
                        i <= PAYLOAD_SIZE,
                        src_addr + PAYLOAD_SIZE <= 0x10000,
                        self@.wf(),
                        b0.wf(),
                        b0.dma is None,
                        b0 == (BusView { dma: dma_step(old(self)@.bus.dma, cycles).0, ..old(self)@.bus }),
                        dma_step(old(self)@.bus.dma, cycles).1 == (DmaState::Done { src_addr }),
                        self.bus@ == b0.dma_copy(src_addr, i as nat),
                        self.regs == old(self).regs,
                        self.ime == old(self).ime,
                        self.int_queue@ == old(self).int_queue@,
                        forall|j: int| 0 <= j < i ==> #[trigger] b0.read_ok((src_addr + j) as u16),
                    decreases PAYLOAD_SIZE - i,
                {
                    proof {
                        b0.lemma_dma_copy_read_ok(src_addr, i as nat, (src_addr + i) as u16);
                    }
                    if !self.bus.can_read(src_addr + i) {
                        proof {
                            assert(!b0.read_ok((src_addr + (i as int)) as u16));
                        }
                        return None;
                    }
                    let value = self.bus.read(src_addr + i);
                    self.bus.write(DEST_BASE_ADDR + i, value);
                    i = i + 1;
                }
                Some(())
            },
        }
    }

    /// Advances the OAM DMA controller by `cycles` T-cycles, copying the transfer's
    /// bytes into OAM when it completes.
    pub fn step_dma(&mut self, cycles: u32)
        requires
            old(self)@.wf(),
            Self::dma_ok(old(self)@, cycles),
        ensures
            final(self)@ == Self::dma_after(old(self)@, cycles),
            final(self)@.wf(),
    {
        let _ = self.try_step_dma(cycles);
    }
}


/// An OAM DMA transfer from a page boundary, stepped past its 640 T-cycles in one
/// go, copies into OAM the 0x9F bytes that the bus reads at its source once the
/// controller is idle, and leaves the controller idle, as long as the PPU leaves
/// OAM open.
pub proof fn lemma_dma_transfer_fills_oam(s: CpuView, src_addr: u16, cycles: u32)
    requires
        s.wf(),
        s.bus.dma == Some(fresh_op(src_addr)),
        src_addr % 0x100 == 0,
        src_addr + PAYLOAD_SIZE <= 0x10000,
        cycles > OP_DURATION,
        s.bus.ppu.oam_accessible(),
    ensures
        Cpu::dma_after(s, cycles).bus.dma is None,
        forall|i: int|
            0 <= i < PAYLOAD_SIZE ==> #[trigger] Cpu::dma_after(s, cycles).bus.ppu.oam[i] == (BusView {
                dma: None,
                ..s.bus
            }).read((src_addr + i) as u16),
{
    lemma_transfer_duration(src_addr, cycles);
    lemma_dma_copy_contents(BusView { dma: None, ..s.bus }, src_addr, PAYLOAD_SIZE as nat);
    BusView { dma: None, ..s.bus }.lemma_dma_copy_read_ok(src_addr, PAYLOAD_SIZE as nat, 0);
}

} // verus!
