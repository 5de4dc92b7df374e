use vstd::prelude::*;

verus! {

/// Zero flag.
pub const FLAG_Z: u8 = 0x80;
/// Subtract flag.
pub const FLAG_N: u8 = 0x40;
/// Half-carry flag.
pub const FLAG_H: u8 = 0x20;
/// Carry flag.
pub const FLAG_C: u8 = 0x10;

/// The CPU's register file.
#[derive(Debug, Clone, Copy, PartialEq, Eq, Structural)]
pub struct Registers {
    pub a: u8,
    pub f: u8,
    pub b: u8,
    pub c: u8,
    pub d: u8,
    pub e: u8,
    pub h: u8,
    pub l: u8,
    pub sp: u16,
    pub pc: u16,
}

/// The 16-bit value whose high byte is `hi` and low byte is `lo`.
pub open spec fn word(hi: u8, lo: u8) -> u16 {
    (hi * 256 + lo) as u16
}

/// The flag byte `f` with the bits of `mask` set when `value` holds and cleared otherwise.
pub open spec fn with_flag(f: u8, mask: u8, value: bool) -> u8 {
    if value {
        f | mask
    } else {
        f & !mask
    }
}

/// Whether the flag bit `mask` is set in `f`.
pub open spec fn flag(f: u8, mask: u8) -> bool {
    f & mask != 0
}

proof fn lemma_word_bits(hi: u8, lo: u8)
    ensures
        ((hi as u16) << 8) | (lo as u16) == word(hi, lo),
{
    assert(((hi as u16) << 8) | (lo as u16) == hi * 256 + lo) by (bit_vector);
}

proof fn lemma_split_bits(v: u16)
    ensures
        (v >> 8) as u8 == v / 256,
        v as u8 == v % 256,
{
    assert((v >> 8) as u8 == v / 256 && v as u8 == v % 256) by (bit_vector);
}

impl Registers {
    /// The register state that the DMG boot ROM hands over.
    pub open spec fn spec_new(header_checksum: u8) -> Registers {
        Registers {
            a: 0x01,
            f: if header_checksum == 0 {
                FLAG_Z
            } else {
                FLAG_Z | FLAG_H | FLAG_C
            },
            b: 0x00,
            c: 0x13,
            d: 0x00,
            e: 0xD8,
            h: 0x01,
            l: 0x4D,
            pc: 0x0100,
            sp: 0xFFFE,
        }
    }

    /// The register state that the DMG boot ROM hands over; F depends on whether
    /// the cartridge's header checksum is zero.
    pub fn new(header_checksum: u8) -> (r: Self)
        ensures
            r.a == 0x01,
            r.f == (if header_checksum == 0 { FLAG_Z } else { FLAG_Z | FLAG_H | FLAG_C }),
            r.b == 0x00,
            r.c == 0x13,
            r.d == 0x00,
            r.e == 0xD8,
            r.h == 0x01,
            r.l == 0x4D,
            r.pc == 0x0100,
            r.sp == 0xFFFE,
    {
        Self {
            a: 0x01,
            f: if header_checksum == 0 {
                FLAG_Z
            } else {
                FLAG_Z | FLAG_H | FLAG_C
            },
            b: 0x00,
            c: 0x13,
            d: 0x00,
            e: 0xD8,
            h: 0x01,
            l: 0x4D,
            pc: 0x0100,
            sp: 0xFFFE,
        }
    }

    /// The AF register pair.
    pub open spec fn spec_af(self) -> u16 {
        word(self.a, self.f)
    }

    /// The BC register pair.
    pub open spec fn spec_bc(self) -> u16 {
        word(self.b, self.c)
    }

    /// The DE register pair.
    pub open spec fn spec_de(self) -> u16 {
        word(self.d, self.e)
    }

    /// The HL register pair.
    pub open spec fn spec_hl(self) -> u16 {
        word(self.h, self.l)
    }

    /// The AF register pair: A in the high byte, F in the low byte.
    pub fn af(&self) -> (r: u16)
        ensures
            r == self.spec_af(),
    {
        proof {
            lemma_word_bits(self.a, self.f);
        }
        ((self.a as u16) << 8) | (self.f as u16)
    }

    /// The BC register pair.
    pub fn bc(&self) -> (r: u16)
        ensures
            r == self.spec_bc(),
    {
        proof {
            lemma_word_bits(self.b, self.c);
        }
        ((self.b as u16) << 8) | (self.c as u16)
    }

    /// The DE register pair.
    pub fn de(&self) -> (r: u16)
        ensures
            r == self.spec_de(),
    {
        proof {
            lemma_word_bits(self.d, self.e);
        }
        ((self.d as u16) << 8) | (self.e as u16)
    }

    /// The HL register pair.
    pub fn hl(&self) -> (r: u16)
        ensures
            r == self.spec_hl(),
    {
        proof {
            lemma_word_bits(self.h, self.l);
        }
        ((self.h as u16) << 8) | (self.l as u16)
    }

    /// Writes AF; the low four bits of F are hardwired to zero.
    pub fn set_af(&mut self, value: u16)
        ensures
            *final(self) == (Registers { a: (value / 256) as u8, f: (value % 256) as u8 & 0xF0, ..*old(self) }),
    {
        proof {
            lemma_split_bits(value);
        }
        self.a = (value >> 8) as u8;
        self.f = (value as u8) & 0xF0;
    }

    /// Writes BC.
    pub fn set_bc(&mut self, value: u16)
        ensures
            *final(self) == (Registers { b: (value / 256) as u8, c: (value % 256) as u8, ..*old(self) }),
    {
        proof {
            lemma_split_bits(value);
        }
        self.b = (value >> 8) as u8;
        self.c = value as u8;
    }

    /// Writes DE.
    pub fn set_de(&mut self, value: u16)
        ensures
            *final(self) == (Registers { d: (value / 256) as u8, e: (value % 256) as u8, ..*old(self) }),
    {
        proof {
            lemma_split_bits(value);
        }
        self.d = (value >> 8) as u8;
        self.e = value as u8;
    }

    /// Writes HL.
    pub fn set_hl(&mut self, value: u16)
        ensures
            *final(self) == (Registers { h: (value / 256) as u8, l: (value % 256) as u8, ..*old(self) }),
    {
        proof {
            lemma_split_bits(value);
        }
        self.h = (value >> 8) as u8;
        self.l = value as u8;
    }

    /// Sets or clears the zero flag.
    pub fn set_flag_z(&mut self, value: bool)
        ensures
            *final(self) == (Registers { f: with_flag(old(self).f, FLAG_Z, value), ..*old(self) }),
    {
        if value {
            self.f |= FLAG_Z;
        } else {
            self.f &= !FLAG_Z
        }
    }

    /// Sets or clears the subtract flag.
    pub fn set_flag_n(&mut self, value: bool)
        ensures
            *final(self) == (Registers { f: with_flag(old(self).f, FLAG_N, value), ..*old(self) }),
    {
        if value {
            self.f |= FLAG_N;
        } else {
            self.f &= !FLAG_N
        }
    }

    /// Sets or clears the half-carry flag.
    pub fn set_flag_h(&mut self, value: bool)
        ensures
            *final(self) == (Registers { f: with_flag(old(self).f, FLAG_H, value), ..*old(self) }),
    {
        if value {
            self.f |= FLAG_H;
        } else {
            self.f &= !FLAG_H
        }
    }

    /// Sets or clears the carry flag.
    pub fn set_flag_c(&mut self, value: bool)
        ensures
            *final(self) == (Registers { f: with_flag(old(self).f, FLAG_C, value), ..*old(self) }),
    {
        if value {
            self.f |= FLAG_C;
        } else {
            self.f &= !FLAG_C
        }
    }
}

/// Writing a register pair and reading it back gives the written value (for AF, with
/// the low four bits of F cleared).
pub proof fn lemma_pair_roundtrip(value: u16)
    ensures
        word((value / 256) as u8, (value % 256) as u8) == value,
        word((value / 256) as u8, (value % 256) as u8 & 0xF0) == value & 0xFFF0,
{
    let hi = (value / 256) as u8;
    let lo = (value % 256) as u8;
    assert(lo & 0xF0 == lo - lo % 16 && value & 0xFFF0 == value - value % 16) by (bit_vector);
}

/// Setting one flag makes that flag read as the value given and leaves every other
/// bit of F as it was.
pub proof fn lemma_flag_update(f: u8, mask: u8, value: bool)
    requires
        mask == FLAG_Z || mask == FLAG_N || mask == FLAG_H || mask == FLAG_C,
    ensures
        flag(with_flag(f, mask, value), mask) == value,
        with_flag(f, mask, value) & !mask == f & !mask,
{
    if value {
        assert((f | mask) & mask != 0) by (bit_vector)
            requires
                mask == 0x80u8 || mask == 0x40u8 || mask == 0x20u8 || mask == 0x10u8;
        assert((f | mask) & !mask == f & !mask) by (bit_vector);
    } else {
        assert((f & !mask) & mask == 0 && (f & !mask) & !mask == f & !mask) by (bit_vector);
    }
}

} // verus!
