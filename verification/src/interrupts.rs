use vstd::prelude::*;

verus! {

/// Bit of the IF/IE registers for the VBlank interrupt.
pub const INT_VBLANK: u8 = 0x01;
/// Bit of the IF/IE registers for the LCD STAT interrupt.
pub const INT_STAT: u8 = 0x02;
/// Bit of the IF/IE registers for the timer interrupt.
pub const INT_TIMER: u8 = 0x04;
/// Bit of the IF/IE registers for the serial interrupt.
pub const INT_SERIAL: u8 = 0x08;
/// Bit of the IF/IE registers for the joypad interrupt.
pub const INT_JOYPAD: u8 = 0x10;

/// An interrupt raised by the picture processing unit.
#[derive(Debug, Clone, Copy, PartialEq, Eq, Structural)]
pub enum Interrupt {
    Stat,
    VBlank,
}

/// The interrupt enable register (IE, 0xFFFF).
#[derive(Debug, Clone, Copy, PartialEq, Eq, Structural)]
pub struct IntFlags {
    bits: u8,
}

impl View for IntFlags {
    type V = u8;

    closed spec fn view(&self) -> u8 {
        self.bits
    }
}

impl IntFlags {
    /// All interrupts disabled.
    pub fn new() -> (r: Self)
        ensures
            r@ == 0,
    {
        Self { bits: 0 }
    }

    /// The register holding exactly `value`.
    pub fn from_bits(value: u8) -> (r: Self)
        ensures
            r@ == value,
    {
        Self { bits: value }
    }

    /// The raw register value.
    pub fn into_bits(self) -> (r: u8)
        ensures
            r == self@,
    {
        self.bits
    }
}

/// The interrupt flag register (IF, 0xFF0F): the interrupts that are pending.
#[derive(Debug, Clone, Copy, PartialEq, Eq, Structural)]
pub struct IrqHolder {
    flags: u8,
}

impl View for IrqHolder {
    type V = u8;

    closed spec fn view(&self) -> u8 {
        self.flags
    }
}

impl IrqHolder {
    /// No interrupt pending.
    pub fn new() -> (r: Self)
        ensures
            r@ == 0,
    {
        Self { flags: 0 }
    }

    /// The register as written by the CPU.
    pub fn from_bits(value: u8) -> (r: Self)
        ensures
            r@ == value,
    {
        Self { flags: value }
    }

    /// The register as read by the CPU.
    pub fn as_if(&self) -> (r: u8)
        ensures
            r == self@,
    {
        self.flags
    }

    /// Marks the VBlank interrupt pending.
    pub fn request_vblank(&mut self)
        ensures
            final(self)@ == old(self)@ | INT_VBLANK,
    {
        self.flags = self.flags | INT_VBLANK;
    }

    /// Marks the LCD STAT interrupt pending.
    pub fn request_stat(&mut self)
        ensures
            final(self)@ == old(self)@ | INT_STAT,
    {
        self.flags = self.flags | INT_STAT;
    }

    /// Marks the timer interrupt pending.
    pub fn request_timer(&mut self)
        ensures
            final(self)@ == old(self)@ | INT_TIMER,
    {
        self.flags = self.flags | INT_TIMER;
    }

    /// Marks the serial interrupt pending.
    pub fn request_serial(&mut self)
        ensures
            final(self)@ == old(self)@ | INT_SERIAL,
    {
        self.flags = self.flags | INT_SERIAL;
    }

    /// Marks the joypad interrupt pending.
    pub fn request_joypad(&mut self)
        ensures
            final(self)@ == old(self)@ | INT_JOYPAD,
    {
        self.flags = self.flags | INT_JOYPAD;
    }
}

} // verus!
